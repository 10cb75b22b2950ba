//! What holds of the writer in every state and for every event.

use crate::buffer::join_lines;
use crate::model::{
    all_lines, arrivals, failed_attempts, ActionView, Event, Phase, WriterState, WriterView,
};
use crate::storage::{
    backoff_delay, capped, law_backoff_delays, outcome_result, request_for, AttemptOutcome,
    RetryView, StorageView, MAX_ATTEMPTS,
};
use vstd::prelude::*;

verus! {

/// A writer that was just made satisfies its invariant.
pub proof fn law_start_invariant(
    sink: StorageView,
    batch_max: nat,
    flush_interval_ms: u64,
    now_ms: u64,
)
    ensures
        WriterView::start(sink, batch_max, flush_interval_ms, now_ms).inv(),
        WriterView::start(sink, batch_max, flush_interval_ms, now_ms).state()
            == WriterState::Idle,
{
    let w = WriterView::start(sink, batch_max, flush_interval_ms, now_ms);
}

/// Every event keeps the invariant. With it: every line ever taken in is
/// either in a flush that succeeded or still in the buffer, once, and in the
/// order of arrival.
pub proof fn law_invariant_kept(w: WriterView, event: Event)
    requires
        w.inv(),
    ensures
        w.step(event).0.inv(),
{
    match event {
        Event::Batch { lines } => {
            assert(w.delivered + (w.lines + lines) =~= (w.delivered + w.lines) + lines);
        },
        Event::Attempt { .. } => {
            let k = w.in_flight as int;
            assert((w.delivered + w.lines.take(k)) + w.lines.skip(k) =~= w.delivered + w.lines);
        },
        _ => {},
    }
}

/// The invariant holds after every sequence of events.
pub proof fn law_invariant_always(w: WriterView, events: Seq<Event>)
    requires
        w.inv(),
    ensures
        w.run(events).inv(),
    decreases events.len(),
{
    if events.len() > 0 {
        law_invariant_always(w, events.drop_last());
        law_invariant_kept(w.run(events.drop_last()), events.last());
    }
}

/// Nothing is lost and nothing is sent twice: after every sequence of events
/// on a new writer, the lines taken in are the lines of the flushes that
/// succeeded followed by the lines still buffered.
pub proof fn law_every_line_delivered_or_buffered(
    sink: StorageView,
    batch_max: nat,
    flush_interval_ms: u64,
    now_ms: u64,
    events: Seq<Event>,
)
    ensures
        ({
            let w = WriterView::start(sink, batch_max, flush_interval_ms, now_ms).run(events);
            w.accepted == w.delivered + w.lines
        }),
{
    law_start_invariant(sink, batch_max, flush_interval_ms, now_ms);
    law_invariant_always(WriterView::start(sink, batch_max, flush_interval_ms, now_ms), events);
}

/// A stopped writer stays as it is and answers every event with `Stop`.
pub proof fn law_stopped_is_terminal(w: WriterView, event: Event)
    requires
        w.phase == Phase::Stopped,
    ensures
        w.step(event) == (w, ActionView::Stop),
{
}

/// The size trigger: when lines reach a waiting writer, a flush of the whole
/// buffer begins at once exactly if the buffer has then reached its limit.
/// Otherwise the writer waits, and the lines are buffered.
pub proof fn law_size_trigger(w: WriterView, lines: Seq<Seq<char>>)
    requires
        w.inv(),
        w.phase == Phase::Waiting,
    ensures
        ({
            let all = w.lines + lines;
            let (next, action) = w.on_batch(lines);
            &&& next.lines == all
            &&& if all.len() > 0 && all.len() >= w.batch_max {
                &&& next.state() == WriterState::Flushing
                &&& next.in_flight == all.len()
                &&& action == ActionView::Send {
                    request: request_for(w.sink.url, w.sink.token, join_lines(all)),
                }
            } else {
                &&& next.phase == Phase::Waiting
                &&& action == next.wait()
            }
        }),
{
    let all = w.lines + lines;
    assert(all.take(all.len() as int) =~= all);
}

/// Below the limit lines only accumulate: while the batches that reach a
/// waiting writer leave the buffer short of its limit, the writer keeps
/// waiting, holds all their lines in order behind those it held, and its
/// deadline stays where it was.
pub proof fn law_lines_accumulate(w: WriterView, batches: Seq<Seq<Seq<char>>>)
    requires
        w.inv(),
        w.phase == Phase::Waiting,
        w.lines.len() + all_lines(batches).len() < w.batch_max,
    ensures
        w.run(arrivals(batches)) == (WriterView {
            lines: w.lines + all_lines(batches),
            accepted: w.accepted + all_lines(batches),
            ..w
        }),
        w.run(arrivals(batches)).inv(),
        w.run(arrivals(batches)).deadline() == w.deadline(),
    decreases batches.len(),
{
    if batches.len() > 0 {
        let before = batches.drop_last();
        law_lines_accumulate(w, before);
        assert(arrivals(batches).drop_last() =~= arrivals(before));
        let mid = w.run(arrivals(before));
        assert(mid.lines + batches.last() =~= w.lines + all_lines(batches));
        assert(mid.accepted + batches.last() =~= w.accepted + all_lines(batches));
        law_invariant_kept(mid, Event::Batch { lines: batches.last() });
    }
}

/// The size trigger over a sequence: whatever batches reached a waiting
/// writer without filling the buffer, the batch that brings it to its limit
/// begins the flush, and the flush carries every line, in order.
pub proof fn law_flush_when_limit_reached(
    w: WriterView,
    batches: Seq<Seq<Seq<char>>>,
    last: Seq<Seq<char>>,
)
    requires
        w.inv(),
        w.phase == Phase::Waiting,
        w.lines.len() + all_lines(batches).len() < w.batch_max,
        w.lines.len() + all_lines(batches).len() + last.len() >= w.batch_max,
    ensures
        w.run(arrivals(batches)).on_batch(last).1 == (ActionView::Send {
            request: request_for(
                w.sink.url,
                w.sink.token,
                join_lines(w.lines + all_lines(batches) + last),
            ),
        }),
        w.run(arrivals(batches)).on_batch(last).0.state() == WriterState::Flushing,
{
    law_lines_accumulate(w, batches);
    law_size_trigger(w.run(arrivals(batches)), last);
}

/// Whether a waiting writer holds fewer lines than trigger a flush.
pub open spec fn below_limit(w: WriterView) -> bool {
    w.phase == Phase::Waiting ==> !w.size_reached()
}

/// No flush by size comes late: a writer never waits with a buffer at its
/// limit, unless a flush has failed for good and left the lines behind.
pub proof fn law_never_waits_at_limit(w: WriterView, event: Event)
    requires
        w.inv(),
        below_limit(w),
        !(w.step(event).1 is Fail),
    ensures
        below_limit(w.step(event).0),
{
}

/// The time trigger: when the timer fires on a waiting writer with lines
/// buffered, a flush of the whole buffer begins exactly if the deadline has
/// come. The deadline is the end of the last flush plus the flush interval.
pub proof fn law_time_trigger(w: WriterView, now_ms: u64)
    requires
        w.inv(),
        w.phase == Phase::Waiting,
        w.lines.len() > 0,
    ensures
        w.deadline() == capped(w.last_flush_ms as nat + w.flush_interval_ms as nat),
        now_ms >= w.deadline() ==> w.on_timer(now_ms) == w.begin_flush() && w.on_timer(now_ms).1
            == (ActionView::Send {
            request: request_for(w.sink.url, w.sink.token, join_lines(w.lines)),
        }),
        now_ms < w.deadline() ==> w.on_timer(now_ms) == (
            w,
            ActionView::Wait { deadline_ms: Some(w.deadline()) },
        ),
{
    assert(w.lines.take(w.lines.len() as int) =~= w.lines);
}

/// With nothing buffered the timer triggers nothing, and the writer waits
/// without a deadline.
pub proof fn law_idle_has_no_deadline(w: WriterView, now_ms: u64)
    requires
        w.inv(),
        w.phase == Phase::Waiting,
        w.lines.len() == 0,
    ensures
        w.on_timer(now_ms) == (w, ActionView::Wait { deadline_ms: None }),
{
}

/// Lines wait no longer than the flush interval: when lines reach an idle
/// writer at `now_ms`, not before the last flush ended, either the flush
/// begins at once or the writer waits with a deadline no later than
/// `now_ms` plus the flush interval.
pub proof fn law_flush_within_interval(w: WriterView, lines: Seq<Seq<char>>, now_ms: u64)
    requires
        w.inv(),
        w.state() == WriterState::Idle,
        lines.len() > 0,
        now_ms >= w.last_flush_ms,
    ensures
        ({
            let (next, action) = w.on_batch(lines);
            ||| action is Send
            ||| action is Wait && action->deadline_ms is Some && action->deadline_ms->Some_0
                <= now_ms + w.flush_interval_ms
        }),
{
}

/// The time trigger over a sequence: when batches reach an idle writer,
/// the first at `arrived_ms` or later, and leave the buffer short of its
/// limit, the deadline is no later than `arrived_ms` plus the flush
/// interval, however many batches follow the first, and the timer at the
/// deadline begins the flush of every line, in order.
pub proof fn law_flush_by_the_deadline(
    w: WriterView,
    batches: Seq<Seq<Seq<char>>>,
    arrived_ms: u64,
    now_ms: u64,
)
    requires
        w.inv(),
        w.state() == WriterState::Idle,
        0 < all_lines(batches).len() < w.batch_max,
        arrived_ms >= w.last_flush_ms,
        now_ms >= w.deadline(),
    ensures
        w.deadline() <= arrived_ms + w.flush_interval_ms,
        w.run(arrivals(batches)).wait() == (ActionView::Wait { deadline_ms: Some(w.deadline()) }),
        w.run(arrivals(batches)).on_timer(now_ms).1 == (ActionView::Send {
            request: request_for(w.sink.url, w.sink.token, join_lines(all_lines(batches))),
        }),
{
    law_lines_accumulate(w, batches);
    law_time_trigger(w.run(arrivals(batches)), now_ms);
}

/// The flush timer starts anew only when a flush ends, in success or in
/// failure, and then at the instant reported. Arriving lines, the timer, the
/// channel's closure and a failed attempt that will be retried leave it alone.
pub proof fn law_timer_reset_only_by_flush(w: WriterView, event: Event)
    requires
        w.inv(),
    ensures
        ({
            let next = w.step(event).0;
            match event {
                Event::Attempt { outcome, now_ms } => if w.phase == Phase::Sending
                    && outcome_result(outcome) is Ok {
                    next.last_flush_ms == now_ms
                } else {
                    next.last_flush_ms == w.last_flush_ms
                },
                Event::BackoffElapsed { now_ms } => if w.phase == Phase::BackingOff
                    && w.retry.failures >= MAX_ATTEMPTS && now_ms >= w.retry_at_ms {
                    next.last_flush_ms == now_ms
                } else {
                    next.last_flush_ms == w.last_flush_ms
                },
                _ => next.last_flush_ms == w.last_flush_ms,
            }
        }),
{
}

/// Whether this event is a successful attempt of the flush in progress.
pub open spec fn delivers(w: WriterView, event: Event) -> bool {
    w.phase == Phase::Sending && event is Attempt && outcome_result(event->outcome) is Ok
}

/// A flush delivers exactly once: the delivered lines grow only by a
/// successful attempt, and then by exactly the lines in flight, whose joined
/// text was the body of the request. Those lines leave the buffer; no other
/// event removes a line.
pub proof fn law_delivery(w: WriterView, event: Event)
    requires
        w.inv(),
    ensures
        ({
            let next = w.step(event).0;
            let flown = w.lines.take(w.in_flight as int);
            if delivers(w, event) {
                &&& w.send() == ActionView::Send {
                    request: request_for(w.sink.url, w.sink.token, join_lines(flown)),
                }
                &&& next.delivered == w.delivered + flown
                &&& next.lines == w.lines.skip(w.in_flight as int)
                &&& next.accepted == w.accepted
            } else {
                &&& next.delivered == w.delivered
                &&& next.lines == if event is Batch && w.phase != Phase::Stopped {
                    w.lines + event->lines
                } else {
                    w.lines
                }
            }
        }),
{
}

/// Whether none of `events`, taken in turn from `w`, is a successful attempt
/// of a flush in progress.
pub open spec fn none_delivers(w: WriterView, events: Seq<Event>) -> bool {
    forall|k: int|
        0 <= k < events.len() ==> !delivers(w.run(events.take(k)), #[trigger] events[k])
}

/// No loss without delivery: whatever happens, as long as no attempt
/// succeeds, be it that every attempt fails or that none is made, nothing
/// leaves the buffer. It ends as it began, followed by what arrived since,
/// and nothing counts as delivered.
pub proof fn law_no_loss_without_delivery(w: WriterView, events: Seq<Event>)
    requires
        w.inv(),
        none_delivers(w, events),
    ensures
        w.run(events).delivered == w.delivered,
        w.lines.is_prefix_of(w.run(events).lines),
    decreases events.len(),
{
    if events.len() > 0 {
        let before = events.drop_last();
        assert(none_delivers(w, before)) by {
            assert forall|k: int| 0 <= k < before.len() implies !delivers(
                w.run(before.take(k)),
                #[trigger] before[k],
            ) by {
                assert(before.take(k) =~= events.take(k));
            }
        }
        law_no_loss_without_delivery(w, before);
        law_invariant_always(w, before);
        law_delivery(w.run(before), events.last());
    }
}

/// While a flush is in progress its request does not change: lines that
/// arrive meanwhile are not part of it.
pub proof fn law_request_stable(w: WriterView, event: Event)
    requires
        w.inv(),
        w.phase == Phase::Sending || w.phase == Phase::BackingOff,
        w.step(event).0.phase == Phase::Sending || w.step(event).0.phase == Phase::BackingOff,
        !delivers(w, event),
    ensures
        w.step(event).0.send() == w.send(),
{
    let next = w.step(event).0;
    if event is Batch {
        assert(next.lines.take(w.in_flight as int) =~= w.lines.take(w.in_flight as int));
    }
}

/// Whether the delay after the failed attempt `i`, counted from zero, got
/// its time: it is reported over, at `times[2 * i + 1]`, no sooner than
/// its length after the attempt's end at `times[2 * i]`.
pub open spec fn delay_observed(times: Seq<u64>, i: int) -> bool {
    times[2 * i + 1] >= times[2 * i] + backoff_delay((i + 1) as nat)
}

/// Whether `times` holds the instants of `attempts` failed attempts, two for
/// each, and every delay got its time.
pub open spec fn delays_observed(attempts: nat, times: Seq<u64>) -> bool {
    &&& times.len() == 2 * attempts
    &&& forall|i: int| 0 <= i < attempts ==> #[trigger] delay_observed(times, i)
}

/// No attempt comes early: while a delay runs, a report that it is over
/// before its time changes nothing and is answered with the rest of the
/// delay. The time of a delay counts from the end of the failed attempt.
pub proof fn law_backoff_is_observed(w: WriterView, outcome: AttemptOutcome, failed_ms: u64, now_ms: u64)
    requires
        w.inv(),
        w.phase == Phase::Sending,
        outcome_result(outcome) is Err,
    ensures
        ({
            let (resting, delay) = w.on_attempt(outcome, failed_ms);
            let wanted = capped(backoff_delay(w.retry.failures + 1));
            &&& delay == ActionView::Backoff { millis: wanted }
            &&& resting.retry_at_ms == capped(failed_ms as nat + wanted as nat)
            &&& now_ms < resting.retry_at_ms ==> resting.on_backoff_elapsed(now_ms) == (
                resting,
                ActionView::Backoff { millis: (resting.retry_at_ms - now_ms) as u64 },
            )
            &&& now_ms >= resting.retry_at_ms ==> !(resting.on_backoff_elapsed(now_ms).1 is Backoff)
        }),
{
}

/// Failed attempts short of the limit change nothing but the count: the
/// buffer, the lines in flight and the request stay as they were, and the
/// writer is about to send again.
pub proof fn law_retries_keep_the_flush(
    w: WriterView,
    outcomes: Seq<AttemptOutcome>,
    times: Seq<u64>,
)
    requires
        w.inv(),
        w.phase == Phase::Sending,
        w.retry == RetryView::fresh(),
        outcomes.len() < MAX_ATTEMPTS,
        forall|i: int| 0 <= i < outcomes.len() ==> outcome_result(#[trigger] outcomes[i]) is Err,
        delays_observed(outcomes.len(), times),
    ensures
        ({
            let next = w.run(failed_attempts(outcomes, times));
            &&& next.inv()
            &&& next.phase == Phase::Sending
            &&& next.retry.failures == outcomes.len()
            &&& next == WriterView { retry: next.retry, retry_at_ms: next.retry_at_ms, ..w }
            &&& next.send() == w.send()
        }),
    decreases outcomes.len(),
{
    let events = failed_attempts(outcomes, times);
    if outcomes.len() > 0 {
        let n = outcomes.len() as int;
        let fewer = outcomes.drop_last();
        let earlier = times.take(2 * n - 2);
        assert(delays_observed(fewer.len(), earlier)) by {
            assert forall|i: int| 0 <= i < fewer.len() implies #[trigger] delay_observed(
                earlier,
                i,
            ) by {
                assert(delay_observed(times, i));
            }
        }
        assert(delay_observed(times, n - 1));
        law_backoff_delays();
        law_retries_keep_the_flush(w, fewer, earlier);
        assert(events.drop_last().drop_last() =~= failed_attempts(fewer, earlier));
        let before = w.run(failed_attempts(fewer, earlier));
        assert(w.run(events.drop_last()) == before.step(events[2 * n - 2]).0);
    }
}

/// A flush delivers once: however many attempts failed before, short of the
/// limit, the attempt that succeeds delivers exactly the lines that the flush
/// began with, in order; they leave the buffer, and the flush timer starts
/// anew at that instant.
pub proof fn law_flush_delivers_once(
    w: WriterView,
    outcomes: Seq<AttemptOutcome>,
    times: Seq<u64>,
    success: AttemptOutcome,
    now_ms: u64,
)
    requires
        w.inv(),
        w.phase == Phase::Sending,
        w.retry == RetryView::fresh(),
        outcomes.len() < MAX_ATTEMPTS,
        forall|i: int| 0 <= i < outcomes.len() ==> outcome_result(#[trigger] outcomes[i]) is Err,
        delays_observed(outcomes.len(), times),
        outcome_result(success) is Ok,
    ensures
        ({
            let flown = w.lines.take(w.in_flight as int);
            let end = w.run(failed_attempts(outcomes, times)).on_attempt(success, now_ms).0;
            &&& w.send() == ActionView::Send {
                request: request_for(w.sink.url, w.sink.token, join_lines(flown)),
            }
            &&& end.delivered == w.delivered + flown
            &&& end.lines == w.lines.skip(w.in_flight as int)
            &&& end.accepted == w.accepted
            &&& end.last_flush_ms == now_ms
        }),
{
    law_retries_keep_the_flush(w, outcomes, times);
}

/// A flush that fails every time: after a flush has begun, three failed
/// attempts are followed by delays of 100, 200 and 400 milliseconds, each
/// retry sends the request of the first attempt, and the flush then fails
/// with the error of the last attempt. The buffer ends as it began, nothing
/// counts as delivered, and the flush timer starts anew at the end. The
/// instants are those of a driver that lets each delay pass.
pub proof fn law_failed_flush_keeps_buffer(
    w: WriterView,
    first: AttemptOutcome,
    second: AttemptOutcome,
    third: AttemptOutcome,
    times: Seq<u64>,
)
    requires
        w.inv(),
        w.phase == Phase::Sending,
        w.retry == RetryView::fresh(),
        outcome_result(first) is Err,
        outcome_result(second) is Err,
        outcome_result(third) is Err,
        delays_observed(3, times),
    ensures
        ({
            let (w1, a1) = w.on_attempt(first, times[0]);
            let (w2, a2) = w1.on_backoff_elapsed(times[1]);
            let (w3, a3) = w2.on_attempt(second, times[2]);
            let (w4, a4) = w3.on_backoff_elapsed(times[3]);
            let (w5, a5) = w4.on_attempt(third, times[4]);
            let (w6, a6) = w5.on_backoff_elapsed(times[5]);
            &&& a1 == ActionView::Backoff { millis: 100 }
            &&& a2 == w.send()
            &&& a3 == ActionView::Backoff { millis: 200 }
            &&& a4 == w.send()
            &&& a5 == ActionView::Backoff { millis: 400 }
            &&& a6 == ActionView::Fail { error: outcome_result(third)->Err_0 }
            &&& w6.lines == w.lines
            &&& w6.accepted == w.accepted
            &&& w6.delivered == w.delivered
            &&& w6.last_flush_ms == times[5]
            &&& w6.phase == if w.closed {
                Phase::Stopped
            } else {
                Phase::Waiting
            }
        }),
{
    law_backoff_delays();
    assert(delay_observed(times, 0));
    assert(delay_observed(times, 1));
    assert(delay_observed(times, 2));
}

/// Draining: when the channel closes on a writer that waits with lines
/// buffered, one last flush of the whole buffer begins though no trigger
/// fired, and its success stops the writer with an empty buffer. With nothing
/// buffered the writer stops at once.
pub proof fn law_drain_on_close(w: WriterView, outcome: AttemptOutcome, now_ms: u64)
    requires
        w.inv(),
        w.phase == Phase::Waiting,
        outcome_result(outcome) is Ok,
    ensures
        ({
            let (closing, action) = w.on_close();
            if w.lines.len() == 0 {
                closing.state() == WriterState::Stopped && action == ActionView::Stop
            } else {
                let (end, last) = closing.on_attempt(outcome, now_ms);
                &&& closing.state() == WriterState::Draining
                &&& action == ActionView::Send {
                    request: request_for(w.sink.url, w.sink.token, join_lines(w.lines)),
                }
                &&& end.state() == WriterState::Stopped
                &&& last == ActionView::Stop
                &&& end.lines.len() == 0
                &&& end.delivered == w.delivered + w.lines
            }
        }),
{
    assert(w.lines.take(w.lines.len() as int) =~= w.lines);
}

} // verus!
