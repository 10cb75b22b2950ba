//! The writer as a mathematical state machine: what it holds, and for each
//! event the state that follows and the action that it asks for.

use crate::buffer::join_lines;
use crate::storage::{
    capped, request_for, AttemptOutcome, RequestView, RetryStep, RetryView, StorageView,
    WriteError, MAX_ATTEMPTS,
};
use vstd::prelude::*;

verus! {

/// The states of the writer.
#[derive(Clone, Copy, Debug, PartialEq, Eq, Structural)]
pub enum WriterState {
    /// Nothing buffered; waiting for a batch or for the channel to close.
    Idle,
    /// Lines buffered; waiting for the next trigger.
    Accumulating,
    /// A flush is in progress: an attempt, or the delay after a failed one.
    Flushing,
    /// The channel is closed and the last flush is in progress.
    Draining,
    /// Terminal.
    Stopped,
}

/// What the writer is busy with.
#[derive(Clone, Copy, Debug, PartialEq, Eq, Structural)]
pub enum Phase {
    /// Between flushes.
    Waiting,
    /// An attempt is under way.
    Sending,
    /// The delay after a failed attempt is running.
    BackingOff,
    /// Terminal.
    Stopped,
}

/// What the writer asks its driver to do next.
pub enum ActionView {
    /// Wait for the next batch, for the channel to close, or, where there is
    /// a deadline, for that instant: whichever comes first.
    Wait { deadline_ms: Option<u64> },
    /// Perform this request once and report the outcome.
    Send { request: RequestView },
    /// Let this many milliseconds pass and report back.
    Backoff { millis: u64 },
    /// Nothing new: a flush is in progress, carry on with it.
    Busy,
    /// The flush failed after all attempts, with this error.
    Fail { error: WriteError },
    /// The writer has stopped.
    Stop,
}

/// What can happen to the writer.
pub enum Event {
    /// Lines arrived, already encoded.
    Batch { lines: Seq<Seq<char>> },
    /// The timer fired at `now_ms`.
    Timer { now_ms: u64 },
    /// The channel was closed: no batch will follow.
    Close,
    /// The attempt asked for ended at `now_ms` with `outcome`.
    Attempt { outcome: AttemptOutcome, now_ms: u64 },
    /// The delay asked for had passed at `now_ms`.
    BackoffElapsed { now_ms: u64 },
}

/// What the writer holds.
pub struct WriterView {
    /// The buffered lines, oldest first.
    pub lines: Seq<Seq<char>>,
    pub phase: Phase,
    /// Whether the channel's closure has been seen.
    pub closed: bool,
    /// How many of the buffered lines, from the front, the flush in progress
    /// carries.
    pub in_flight: nat,
    pub retry: RetryView,
    /// While a delay runs: the instant before which no attempt follows.
    pub retry_at_ms: u64,
    /// When the last flush ended, or when the writer was made.
    pub last_flush_ms: u64,
    /// The buffer length that triggers a flush.
    pub batch_max: nat,
    /// The time after the last flush at which buffered lines are flushed.
    pub flush_interval_ms: u64,
    pub sink: StorageView,
    /// Every line ever taken in, in order.
    pub accepted: Seq<Seq<char>>,
    /// Every line of every flush that succeeded, in order.
    pub delivered: Seq<Seq<char>>,
}

impl WriterView {
    /// A writer made at `now_ms`: nothing buffered, nothing delivered.
    pub open spec fn start(
        sink: StorageView,
        batch_max: nat,
        flush_interval_ms: u64,
        now_ms: u64,
    ) -> WriterView {
        WriterView {
            lines: Seq::empty(),
            phase: Phase::Waiting,
            closed: false,
            in_flight: 0,
            retry: RetryView::fresh(),
            retry_at_ms: now_ms,
            last_flush_ms: now_ms,
            batch_max,
            flush_interval_ms,
            sink,
            accepted: Seq::empty(),
            delivered: Seq::empty(),
        }
    }

    /// What ties the fields together. It holds at the start and after every
    /// event.
    pub open spec fn inv(self) -> bool {
        &&& self.in_flight <= self.lines.len()
        &&& self.accepted == self.delivered + self.lines
        &&& self.retry.failures <= MAX_ATTEMPTS
        &&& match self.phase {
            Phase::Waiting => !self.closed && self.in_flight == 0 && self.retry
                == RetryView::fresh(),
            Phase::Sending => self.in_flight > 0 && self.retry.failures < MAX_ATTEMPTS,
            Phase::BackingOff => self.in_flight > 0 && self.retry.failures > 0
                && self.retry.last_error is Some,
            Phase::Stopped => self.closed && self.in_flight == 0 && self.retry
                == RetryView::fresh(),
        }
    }

    /// The state by its name: idle or accumulating while waiting, flushing
    /// or draining while a flush is in progress, stopped at the end.
    pub open spec fn state(self) -> WriterState {
        match self.phase {
            Phase::Stopped => WriterState::Stopped,
            Phase::Waiting => if self.lines.len() == 0 {
                WriterState::Idle
            } else {
                WriterState::Accumulating
            },
            _ => if self.closed {
                WriterState::Draining
            } else {
                WriterState::Flushing
            },
        }
    }

    /// The instant at which buffered lines are flushed for their age.
    pub open spec fn deadline(self) -> u64 {
        capped(self.last_flush_ms as nat + self.flush_interval_ms as nat)
    }

    /// Whether the buffer has reached the length that triggers a flush.
    pub open spec fn size_reached(self) -> bool {
        self.lines.len() > 0 && self.lines.len() >= self.batch_max
    }

    /// Waiting: with the deadline where lines are buffered, without one
    /// where the buffer is empty.
    pub open spec fn wait(self) -> ActionView {
        ActionView::Wait {
            deadline_ms: if self.lines.len() > 0 {
                Some(self.deadline())
            } else {
                None
            },
        }
    }

    /// The request of the flush in progress: the lines in flight, joined.
    pub open spec fn send(self) -> ActionView {
        ActionView::Send {
            request: request_for(
                self.sink.url,
                self.sink.token,
                join_lines(self.lines.take(self.in_flight as int)),
            ),
        }
    }

    /// What the writer is waiting on: the answer to an event that changes
    /// nothing.
    pub open spec fn pending(self) -> ActionView {
        match self.phase {
            Phase::Waiting => self.wait(),
            Phase::Sending => ActionView::Busy,
            Phase::BackingOff => ActionView::Busy,
            Phase::Stopped => ActionView::Stop,
        }
    }

    /// A flush of everything buffered begins.
    pub open spec fn begin_flush(self) -> (WriterView, ActionView) {
        let next = WriterView {
            phase: Phase::Sending,
            in_flight: self.lines.len(),
            retry: RetryView::fresh(),
            ..self
        };
        (next, next.send())
    }

    /// Between flushes: flush at once where the channel is closed and lines
    /// are left, or where the buffer has reached its limit; stop where the
    /// channel is closed and nothing is left; wait otherwise.
    pub open spec fn settle(self) -> (WriterView, ActionView) {
        if self.closed {
            if self.lines.len() > 0 {
                self.begin_flush()
            } else {
                (WriterView { phase: Phase::Stopped, ..self }, ActionView::Stop)
            }
        } else if self.size_reached() {
            self.begin_flush()
        } else {
            (WriterView { phase: Phase::Waiting, ..self }, self.wait())
        }
    }

    /// Lines arrive. They are buffered unless the writer has stopped; a
    /// waiting writer then flushes if the buffer has reached its limit.
    pub open spec fn on_batch(self, lines: Seq<Seq<char>>) -> (WriterView, ActionView) {
        let taken = WriterView {
            lines: self.lines + lines,
            accepted: self.accepted + lines,
            ..self
        };
        match self.phase {
            Phase::Stopped => (self, ActionView::Stop),
            Phase::Waiting => taken.settle(),
            Phase::Sending => (taken, ActionView::Busy),
            Phase::BackingOff => (taken, ActionView::Busy),
        }
    }

    /// The timer fires. A waiting writer flushes if lines are buffered and
    /// the deadline has come.
    pub open spec fn on_timer(self, now_ms: u64) -> (WriterView, ActionView) {
        if self.phase == Phase::Waiting && self.lines.len() > 0 && now_ms >= self.deadline() {
            self.begin_flush()
        } else {
            (self, self.pending())
        }
    }

    /// The channel closes. A waiting writer flushes what is buffered, or
    /// stops if nothing is; a flushing writer goes on and remembers.
    pub open spec fn on_close(self) -> (WriterView, ActionView) {
        let closed = WriterView { closed: true, ..self };
        match self.phase {
            Phase::Stopped => (self, ActionView::Stop),
            Phase::Waiting => closed.settle(),
            Phase::Sending => (closed, ActionView::Busy),
            Phase::BackingOff => (closed, ActionView::Busy),
        }
    }

    /// The lines in flight have been delivered at `now_ms`: they leave the
    /// buffer, and the flush timer starts anew.
    pub open spec fn delivered_at(self, now_ms: u64) -> WriterView {
        WriterView {
            lines: self.lines.skip(self.in_flight as int),
            delivered: self.delivered + self.lines.take(self.in_flight as int),
            in_flight: 0,
            retry: RetryView::fresh(),
            last_flush_ms: now_ms,
            phase: Phase::Waiting,
            ..self
        }
    }

    /// The flush has failed for good at `now_ms`: the buffer stays as it is,
    /// and the flush timer starts anew. A writer whose channel is closed
    /// stops; another waits for the next trigger.
    pub open spec fn failed_at(self, now_ms: u64) -> WriterView {
        WriterView {
            in_flight: 0,
            retry: RetryView::fresh(),
            last_flush_ms: now_ms,
            phase: if self.closed {
                Phase::Stopped
            } else {
                Phase::Waiting
            },
            ..self
        }
    }

    /// An attempt ends. On success the flush is complete; on failure the
    /// delay of the retry policy follows, counted from `now_ms`.
    pub open spec fn on_attempt(self, outcome: AttemptOutcome, now_ms: u64) -> (
        WriterView,
        ActionView,
    ) {
        if self.phase == Phase::Sending {
            let (retry, step) = self.retry.on_outcome(outcome);
            match step {
                RetryStep::Backoff { millis } => (
                    WriterView {
                        phase: Phase::BackingOff,
                        retry,
                        retry_at_ms: capped(now_ms as nat + millis as nat),
                        ..self
                    },
                    ActionView::Backoff { millis },
                ),
                _ => self.delivered_at(now_ms).settle(),
            }
        } else {
            (self, self.pending())
        }
    }

    /// A delay ends. If `now_ms` is too early, the rest of the delay is asked
    /// for. Otherwise the same request is sent again, or, with the attempts
    /// used up, the flush fails with the last error.
    pub open spec fn on_backoff_elapsed(self, now_ms: u64) -> (WriterView, ActionView) {
        if self.phase == Phase::BackingOff && now_ms < self.retry_at_ms {
            (self, ActionView::Backoff { millis: (self.retry_at_ms - now_ms) as u64 })
        } else if self.phase == Phase::BackingOff {
            let (retry, step) = self.retry.after_backoff();
            match step {
                RetryStep::Exhausted { error } => (
                    self.failed_at(now_ms),
                    ActionView::Fail { error },
                ),
                _ => {
                    let next = WriterView { phase: Phase::Sending, ..self };
                    (next, next.send())
                },
            }
        } else {
            (self, self.pending())
        }
    }

    /// The state and the action that follow an event.
    pub open spec fn step(self, event: Event) -> (WriterView, ActionView) {
        match event {
            Event::Batch { lines } => self.on_batch(lines),
            Event::Timer { now_ms } => self.on_timer(now_ms),
            Event::Close => self.on_close(),
            Event::Attempt { outcome, now_ms } => self.on_attempt(outcome, now_ms),
            Event::BackoffElapsed { now_ms } => self.on_backoff_elapsed(now_ms),
        }
    }

    /// The state after a sequence of events, the oldest first.
    pub open spec fn run(self, events: Seq<Event>) -> WriterView
        decreases events.len(),
    {
        if events.len() == 0 {
            self
        } else {
            self.run(events.drop_last()).step(events.last()).0
        }
    }
}

/// The lines of a sequence of batches, in order.
pub open spec fn all_lines(batches: Seq<Seq<Seq<char>>>) -> Seq<Seq<char>>
    decreases batches.len(),
{
    if batches.len() == 0 {
        Seq::empty()
    } else {
        all_lines(batches.drop_last()) + batches.last()
    }
}

/// The events of attempts that fail one after the other: each attempt's
/// end, then the end of the delay that follows it. The instants are taken
/// from `times`, two for each attempt.
pub open spec fn failed_attempts(outcomes: Seq<AttemptOutcome>, times: Seq<u64>) -> Seq<Event> {
    Seq::new(
        2 * outcomes.len(),
        |i: int|
            if i % 2 == 0 {
                Event::Attempt { outcome: outcomes[i / 2], now_ms: times[i] }
            } else {
                Event::BackoffElapsed { now_ms: times[i] }
            },
    )
}

/// The arrival of each batch of a sequence, in order.
pub open spec fn arrivals(batches: Seq<Seq<Seq<char>>>) -> Seq<Event> {
    Seq::new(batches.len(), |i: int| Event::Batch { lines: batches[i] })
}

} // verus!
