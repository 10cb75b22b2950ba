use finfo::decimal::Decimal;
use finfo::fetch_price::StockPrice;
use finfo::storage::{
    backoff_delay_ms, bearer, classify, is_success, write_url, AttemptOutcome, InfluxDBStorage, Retry,
    RetryStep, WriteError, WriteRequest, BASE_DELAY_MS, MAX_ATTEMPTS,
};

fn response(status: u16, body: &str) -> AttemptOutcome {
    AttemptOutcome::Response { status, body: body.to_string() }
}

fn refused() -> AttemptOutcome {
    AttemptOutcome::Transport { message: "connection refused".to_string() }
}

fn storage() -> InfluxDBStorage {
    InfluxDBStorage::new(
        "http://localhost:8181/api/v3/write_lp?db=test&precision=second".to_string(),
        "apiv3_token".to_string(),
    )
    .unwrap()
}

fn price(symbol: &str, last_done: i128, timestamp: i64) -> StockPrice {
    StockPrice {
        symbol: symbol.to_string(),
        last_done: Decimal::new(last_done, 1),
        prev_close: Decimal::new(148, 0),
        open: Decimal::new(149, 0),
        high: Decimal::new(151, 0),
        low: Decimal::new(1475, 1),
        timestamp,
        volume: 1000000,
        turnover: Decimal::new(150000000, 0),
    }
}

#[test]
fn success_is_any_status_from_200_to_299() {
    assert!(!is_success(0));
    assert!(!is_success(199));
    assert!(is_success(200));
    assert!(is_success(204));
    assert!(is_success(299));
    assert!(!is_success(300));
    assert!(!is_success(404));
    assert!(!is_success(500));
    assert!(!is_success(u16::MAX));
}

#[test]
fn a_2xx_response_is_a_success() {
    assert_eq!(classify(response(200, "")), Ok(()));
    assert_eq!(classify(response(204, "ignored")), Ok(()));
}

#[test]
fn another_status_is_an_error_that_keeps_the_response_body() {
    assert_eq!(
        classify(response(500, "partial write")),
        Err(WriteError::Status { status: 500, body: "partial write".to_string() })
    );
    assert_eq!(
        classify(response(301, "")),
        Err(WriteError::Status { status: 301, body: String::new() })
    );
    assert_eq!(
        classify(response(199, "x")),
        Err(WriteError::Status { status: 199, body: "x".to_string() })
    );
}

#[test]
fn a_transport_failure_is_an_error() {
    assert_eq!(
        classify(refused()),
        Err(WriteError::Transport { message: "connection refused".to_string() })
    );
}

#[test]
fn error_messages() {
    assert_eq!(
        WriteError::Transport { message: "timed out".to_string() }.message(),
        "timed out"
    );
    assert_eq!(
        WriteError::Status { status: 503, body: "busy".to_string() }.message(),
        "write failed 503: busy"
    );
    assert_eq!(WriteError::Unknown.message(), "unknown write error");
}

#[test]
fn the_policy_constants() {
    assert_eq!(MAX_ATTEMPTS, 3);
    assert_eq!(BASE_DELAY_MS, 100);
}

#[test]
fn backoff_delays_double_from_100_ms() {
    assert_eq!(backoff_delay_ms(0), 0);
    assert_eq!(backoff_delay_ms(1), 100);
    assert_eq!(backoff_delay_ms(2), 200);
    assert_eq!(backoff_delay_ms(3), 400);
    assert_eq!(backoff_delay_ms(4), 800);
    assert_eq!(backoff_delay_ms(11), 102400);
}

#[test]
fn backoff_delay_stops_at_the_largest_u64() {
    assert_eq!(backoff_delay_ms(58), 100 * (1u64 << 57));
    assert_eq!(backoff_delay_ms(59), u64::MAX);
    assert_eq!(backoff_delay_ms(1000), u64::MAX);
    assert_eq!(backoff_delay_ms(u32::MAX), u64::MAX);
}

#[test]
fn retry_succeeds_at_once() {
    let mut retry = Retry::new();
    assert_eq!(retry.failures(), 0);
    assert_eq!(retry.on_outcome(response(204, "")), RetryStep::Delivered);
    assert_eq!(retry.failures(), 0);
}

#[test]
fn retry_makes_three_attempts_and_reports_the_last_error() {
    let mut retry = Retry::new();
    assert_eq!(retry.on_outcome(refused()), RetryStep::Backoff { millis: 100 });
    assert_eq!(retry.failures(), 1);
    assert_eq!(retry.after_backoff(), RetryStep::Attempt);
    assert_eq!(retry.on_outcome(response(500, "a")), RetryStep::Backoff { millis: 200 });
    assert_eq!(retry.failures(), 2);
    assert_eq!(retry.after_backoff(), RetryStep::Attempt);
    assert_eq!(retry.on_outcome(response(503, "b")), RetryStep::Backoff { millis: 400 });
    assert_eq!(retry.failures(), 3);
    assert_eq!(
        retry.after_backoff(),
        RetryStep::Exhausted { error: WriteError::Status { status: 503, body: "b".to_string() } }
    );
    assert_eq!(retry.failures(), 0);
}

#[test]
fn retry_succeeds_on_a_later_attempt() {
    let mut retry = Retry::new();
    assert_eq!(retry.on_outcome(refused()), RetryStep::Backoff { millis: 100 });
    assert_eq!(retry.after_backoff(), RetryStep::Attempt);
    assert_eq!(retry.on_outcome(response(200, "")), RetryStep::Delivered);
    assert_eq!(retry.failures(), 0);
    assert_eq!(retry.on_outcome(refused()), RetryStep::Backoff { millis: 100 });
}

#[test]
fn a_fresh_policy_asks_for_an_attempt() {
    let mut retry = Retry::new();
    assert_eq!(retry.after_backoff(), RetryStep::Attempt);
    assert_eq!(retry.failures(), 0);
}

#[test]
fn failures_are_counted_up_to_the_limit() {
    let mut retry = Retry::new();
    for _ in 0..3 {
        retry.on_outcome(refused());
    }
    assert_eq!(retry.on_outcome(response(500, "late")), RetryStep::Backoff { millis: 400 });
    assert_eq!(retry.failures(), 3);
    assert_eq!(
        retry.after_backoff(),
        RetryStep::Exhausted {
            error: WriteError::Status { status: 500, body: "late".to_string() }
        }
    );
}

#[test]
fn new_storage_keeps_the_url() {
    assert_eq!(
        storage().url(),
        "http://localhost:8181/api/v3/write_lp?db=test&precision=second"
    );
}

#[test]
fn a_request_carries_the_bearer_token_and_a_plain_text_body() {
    let request = storage().request("a\nb".to_string());
    assert_eq!(
        request,
        WriteRequest {
            url: "http://localhost:8181/api/v3/write_lp?db=test&precision=second".to_string(),
            authorization: "Bearer apiv3_token".to_string(),
            content_type: "text/plain".to_string(),
            body: "a\nb".to_string(),
        }
    );
}

#[test]
fn write_prices_has_nothing_to_send_for_no_prices() {
    assert_eq!(storage().write_prices(&[]), None);
}

#[test]
fn write_prices_sends_one_line_per_price() {
    let prices = vec![price("AAPL.US", 1500, 1700000000), price("700.HK", 3205, 1700000060)];
    let request = storage().write_prices(&prices).unwrap();
    assert_eq!(
        request.body,
        "stock_price,symbol=AAPL.US last_done=150,prev_close=148,open=149,high=151,low=147.5,volume=1000000,turnover=150000000 1700000000\n\
         stock_price,symbol=700.HK last_done=320.5,prev_close=148,open=149,high=151,low=147.5,volume=1000000,turnover=150000000 1700000060"
    );
    assert_eq!(request.authorization, "Bearer apiv3_token");
    assert_eq!(request.content_type, "text/plain");
    assert_eq!(
        request.url,
        "http://localhost:8181/api/v3/write_lp?db=test&precision=second"
    );
}

#[test]
fn write_prices_of_one_price_has_no_newline() {
    let request = storage().write_prices(&[price("AAPL.US", 1500, 1700000000)]).unwrap();
    assert!(!request.body.contains('\n'));
}

#[test]
fn the_write_url_names_the_database_and_the_precision() {
    assert_eq!(
        write_url("http://localhost:8181", "quotes"),
        "http://localhost:8181/api/v3/write_lp?db=quotes&precision=second"
    );
    assert_eq!(write_url("", ""), "/api/v3/write_lp?db=&precision=second");
}

#[test]
fn a_bearer_token_is_presented_by_its_scheme() {
    assert_eq!(bearer("apiv3_token"), "Bearer apiv3_token");
    assert_eq!(bearer(""), "Bearer ");
}
