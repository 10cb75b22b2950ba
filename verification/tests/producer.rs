use finfo::decimal::Decimal;
use finfo::fetch_price::{klines, Candle};
use finfo::producer::{Producer, ProducerError, Report, Schedule, Stage, Task, POLL_PERIOD_MS};

#[test]
fn the_default_period_is_30_seconds() {
    assert_eq!(POLL_PERIOD_MS, 30_000);
}

#[test]
fn a_backfill_fetches_pushes_and_is_done() {
    let mut producer = Producer::new(Schedule::Backfill);
    assert_eq!(producer.pending(), Task::Fetch);
    assert_eq!(producer.on_report(Report::Fetched { ok: true }), Task::Push);
    assert_eq!(producer.stage, Stage::Pushing);
    assert_eq!(producer.on_report(Report::Pushed { ok: true }), Task::Stop { error: None });
    assert_eq!(producer.stage, Stage::Done { error: None });
}

#[test]
fn a_polling_producer_rests_and_fetches_again() {
    let mut producer = Producer::new(Schedule::Polling { period_ms: POLL_PERIOD_MS });
    assert_eq!(producer.on_report(Report::Fetched { ok: true }), Task::Push);
    assert_eq!(producer.on_report(Report::Pushed { ok: true }), Task::Rest { millis: 30_000 });
    assert_eq!(producer.pending(), Task::Rest { millis: 30_000 });
    assert_eq!(producer.on_report(Report::Rested), Task::Fetch);
    assert_eq!(producer.on_report(Report::Fetched { ok: true }), Task::Push);
}

#[test]
fn a_failed_fetch_ends_the_producer() {
    let mut producer = Producer::new(Schedule::Polling { period_ms: 10 });
    assert_eq!(
        producer.on_report(Report::Fetched { ok: false }),
        Task::Stop { error: Some(ProducerError::Fetch) }
    );
    assert_eq!(producer.on_report(Report::Rested), Task::Stop { error: Some(ProducerError::Fetch) });
    assert_eq!(
        producer.on_report(Report::Fetched { ok: true }),
        Task::Stop { error: Some(ProducerError::Fetch) }
    );
}

#[test]
fn a_closed_channel_ends_the_producer() {
    let mut producer = Producer::new(Schedule::Backfill);
    producer.on_report(Report::Fetched { ok: true });
    assert_eq!(
        producer.on_report(Report::Pushed { ok: false }),
        Task::Stop { error: Some(ProducerError::ChannelClosed) }
    );
    assert_eq!(producer.stage, Stage::Done { error: Some(ProducerError::ChannelClosed) });
}

#[test]
fn a_report_out_of_turn_changes_nothing() {
    let mut producer = Producer::new(Schedule::Backfill);
    assert_eq!(producer.on_report(Report::Pushed { ok: true }), Task::Fetch);
    assert_eq!(producer.on_report(Report::Rested), Task::Fetch);
    producer.on_report(Report::Fetched { ok: true });
    assert_eq!(producer.on_report(Report::Fetched { ok: false }), Task::Push);
    assert_eq!(producer.on_report(Report::Rested), Task::Push);
    assert_eq!(producer.stage, Stage::Pushing);
}

#[test]
fn klines_carry_the_symbol_and_keep_the_order() {
    let first = Candle {
        open: Decimal::new(10, 0),
        high: Decimal::new(125, 1),
        low: Decimal::new(95, 1),
        close: Decimal::new(11, 0),
        volume: 7,
        turnover: Decimal::new(77, 0),
        timestamp: 1735689600,
    };
    let second = Candle { close: Decimal::new(12, 0), timestamp: 1735776000, ..first };
    let batch = klines("700.HK", &[first, second]);
    assert_eq!(batch.len(), 2);
    assert_eq!(batch[0].symbol, "700.HK");
    assert_eq!(batch[1].symbol, "700.HK");
    assert_eq!(batch[0].timestamp, 1735689600);
    assert_eq!(batch[1].timestamp, 1735776000);
    assert_eq!(batch[0].close.to_text(), "11");
    assert_eq!(batch[1].close.to_text(), "12");
    assert_eq!(batch[1].high.to_text(), "12.5");
    assert_eq!(batch[1].low.to_text(), "9.5");
    assert_eq!(batch[1].open.to_text(), "10");
    assert_eq!(batch[1].volume, 7);
    assert_eq!(batch[1].turnover.to_text(), "77");
}

#[test]
fn no_candles_give_no_klines() {
    assert!(klines("AAPL.US", &[]).is_empty());
}
