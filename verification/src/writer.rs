//! The writer: the single consumer that owns the batch buffer and decides
//! when to flush.
//!
//! The writer performs no I/O. Its driver hands it each event and carries out
//! the [`Action`] that comes back: it waits on the channel and the deadline,
//! performs a request, or lets a delay pass.

use crate::buffer::{join_lines, BatchBuffer};
use crate::laws::law_invariant_kept;
use crate::line::{batch_lines, encode_batch, texts, Encodable};
use crate::model::{ActionView, Event, Phase, WriterState, WriterView};
use crate::storage::{AttemptOutcome, InfluxDBStorage, Retry, RetryStep, WriteError, WriteRequest};
use vstd::prelude::*;

verus! {

/// The buffer length that triggers a flush, unless another is chosen.
pub const BATCH_MAX: usize = 500;

/// The time after the last flush at which buffered lines are flushed,
/// in milliseconds, unless another is chosen.
pub const FLUSH_INTERVAL_MS: u64 = 1000;

/// What the writer asks its driver to do next.
#[derive(Debug, PartialEq, Eq)]
pub enum Action {
    /// Wait for the next batch, for the channel to close, or, where there is
    /// a deadline, for that instant: whichever comes first.
    Wait { deadline_ms: Option<u64> },
    /// Perform this request once and report the outcome.
    Send { request: WriteRequest },
    /// Let this many milliseconds pass and report back.
    Backoff { millis: u64 },
    /// Nothing new: a flush is in progress, carry on with it.
    Busy,
    /// The flush failed after all attempts, with this error.
    Fail { error: WriteError },
    /// The writer has stopped.
    Stop,
}

impl View for Action {
    type V = ActionView;

    open spec fn view(&self) -> ActionView {
        match self {
            Action::Wait { deadline_ms } => ActionView::Wait { deadline_ms: *deadline_ms },
            Action::Send { request } => ActionView::Send { request: request@ },
            Action::Backoff { millis } => ActionView::Backoff { millis: *millis },
            Action::Busy => ActionView::Busy,
            Action::Fail { error } => ActionView::Fail { error: *error },
            Action::Stop => ActionView::Stop,
        }
    }
}

/// The writer's state: the sink it writes to, the buffer, and where it
/// stands in a flush.
struct Core {
    sink: InfluxDBStorage,
    buffer: BatchBuffer,
    phase: Phase,
    closed: bool,
    in_flight: usize,
    retry: Retry,
    retry_at_ms: u64,
    last_flush_ms: u64,
    batch_max: usize,
    flush_interval_ms: u64,
    accepted: Ghost<Seq<Seq<char>>>,
    delivered: Ghost<Seq<Seq<char>>>,
}

impl View for Core {
    type V = WriterView;

    closed spec fn view(&self) -> WriterView {
        WriterView {
            lines: self.buffer@,
            phase: self.phase,
            closed: self.closed,
            in_flight: self.in_flight as nat,
            retry: self.retry@,
            retry_at_ms: self.retry_at_ms,
            last_flush_ms: self.last_flush_ms,
            batch_max: self.batch_max as nat,
            flush_interval_ms: self.flush_interval_ms,
            sink: self.sink@,
            accepted: self.accepted@,
            delivered: self.delivered@,
        }
    }
}

impl Core {
    fn with_limits(
        sink: InfluxDBStorage,
        batch_max: usize,
        flush_interval_ms: u64,
        now_ms: u64,
    ) -> (core: Core)
        ensures
            core@ == WriterView::start(sink@, batch_max as nat, flush_interval_ms, now_ms),
            core@.inv(),
    {
        Core {
            sink,
            buffer: BatchBuffer::new(),
            phase: Phase::Waiting,
            closed: false,
            in_flight: 0,
            retry: Retry::new(),
            retry_at_ms: now_ms,
            last_flush_ms: now_ms,
            batch_max,
            flush_interval_ms,
            accepted: Ghost(Seq::empty()),
            delivered: Ghost(Seq::empty()),
        }
    }

    fn state(&self) -> (state: WriterState)
        ensures
            state == self@.state(),
    {
        match self.phase {
            Phase::Stopped => WriterState::Stopped,
            Phase::Waiting => if self.buffer.is_empty() {
                WriterState::Idle
            } else {
                WriterState::Accumulating
            },
            _ => if self.closed {
                WriterState::Draining
            } else {
                WriterState::Flushing
            },
        }
    }

    fn buffered(&self) -> (n: usize)
        ensures
            n == self@.lines.len(),
    {
        self.buffer.len()
    }

    fn buffered_text(&self) -> (text: String)
        ensures
            text@ == join_lines(self@.lines),
    {
        self.buffer.joined()
    }

    fn wait_action(&self) -> (action: Action)
        ensures
            action@ == self@.wait(),
    {
        if self.buffer.is_empty() {
            Action::Wait { deadline_ms: None }
        } else {
            Action::Wait {
                deadline_ms: Some(self.last_flush_ms.saturating_add(self.flush_interval_ms)),
            }
        }
    }

    fn send_action(&self) -> (action: Action)
        requires
            self@.in_flight <= self@.lines.len(),
        ensures
            action@ == self@.send(),
    {
        Action::Send { request: self.sink.request(self.buffer.joined_front(self.in_flight)) }
    }

    fn pending(&self) -> (action: Action)
        ensures
            action@ == self@.pending(),
    {
        match self.phase {
            Phase::Waiting => self.wait_action(),
            Phase::Sending => Action::Busy,
            Phase::BackingOff => Action::Busy,
            Phase::Stopped => Action::Stop,
        }
    }

    fn begin_flush(&mut self) -> (action: Action)
        ensures
            (final(self)@, action@) == old(self)@.begin_flush(),
    {
        self.phase = Phase::Sending;
        self.in_flight = self.buffer.len();
        self.retry = Retry::new();
        self.send_action()
    }

    fn settle(&mut self) -> (action: Action)
        ensures
            (final(self)@, action@) == old(self)@.settle(),
    {
        if self.closed {
            if self.buffer.is_empty() {
                self.phase = Phase::Stopped;
                Action::Stop
            } else {
                self.begin_flush()
            }
        } else if !self.buffer.is_empty() && self.buffer.len() >= self.batch_max {
            self.begin_flush()
        } else {
            self.phase = Phase::Waiting;
            self.wait_action()
        }
    }

    fn on_lines(&mut self, lines: Vec<String>) -> (action: Action)
        requires
            old(self)@.inv(),
        ensures
            (final(self)@, action@) == old(self)@.on_batch(texts(lines@)),
            final(self)@.inv(),
    {
        proof {
            law_invariant_kept(self@, Event::Batch { lines: texts(lines@) });
        }
        match self.phase {
            Phase::Stopped => Action::Stop,
            Phase::Waiting => {
                self.accepted = Ghost(self.accepted@ + texts(lines@));
                self.buffer.extend(lines);
                self.settle()
            },
            _ => {
                self.accepted = Ghost(self.accepted@ + texts(lines@));
                self.buffer.extend(lines);
                Action::Busy
            },
        }
    }

    fn on_timer(&mut self, now_ms: u64) -> (action: Action)
        requires
            old(self)@.inv(),
        ensures
            (final(self)@, action@) == old(self)@.on_timer(now_ms),
            final(self)@.inv(),
    {
        let due = match self.phase {
            Phase::Waiting => !self.buffer.is_empty() && now_ms
                >= self.last_flush_ms.saturating_add(self.flush_interval_ms),
            _ => false,
        };
        if due {
            self.begin_flush()
        } else {
            self.pending()
        }
    }

    fn on_close(&mut self) -> (action: Action)
        requires
            old(self)@.inv(),
        ensures
            (final(self)@, action@) == old(self)@.on_close(),
            final(self)@.inv(),
    {
        match self.phase {
            Phase::Stopped => Action::Stop,
            Phase::Waiting => {
                self.closed = true;
                self.settle()
            },
            _ => {
                self.closed = true;
                Action::Busy
            },
        }
    }

    fn on_attempt(&mut self, outcome: AttemptOutcome, now_ms: u64) -> (action: Action)
        requires
            old(self)@.inv(),
        ensures
            (final(self)@, action@) == old(self)@.on_attempt(outcome, now_ms),
            final(self)@.inv(),
    {
        proof {
            law_invariant_kept(self@, Event::Attempt { outcome, now_ms });
        }
        match self.phase {
            Phase::Sending => {
                match self.retry.on_outcome(outcome) {
                    RetryStep::Backoff { millis } => {
                        self.phase = Phase::BackingOff;
                        self.retry_at_ms = now_ms.saturating_add(millis);
                        Action::Backoff { millis }
                    },
                    _ => {
                        self.delivered = Ghost(
                            self.delivered@ + self.buffer@.take(self.in_flight as int),
                        );
                        self.buffer.discard_front(self.in_flight);
                        self.in_flight = 0;
                        self.retry = Retry::new();
                        self.last_flush_ms = now_ms;
                        self.phase = Phase::Waiting;
                        self.settle()
                    },
                }
            },
            _ => self.pending(),
        }
    }

    fn on_backoff_elapsed(&mut self, now_ms: u64) -> (action: Action)
        requires
            old(self)@.inv(),
        ensures
            (final(self)@, action@) == old(self)@.on_backoff_elapsed(now_ms),
            final(self)@.inv(),
    {
        match self.phase {
            Phase::BackingOff => {
                if now_ms < self.retry_at_ms {
                    return Action::Backoff { millis: self.retry_at_ms - now_ms };
                }
                match self.retry.after_backoff() {
                    RetryStep::Exhausted { error } => {
                        self.in_flight = 0;
                        self.retry = Retry::new();
                        self.last_flush_ms = now_ms;
                        self.phase = if self.closed {
                            Phase::Stopped
                        } else {
                            Phase::Waiting
                        };
                        Action::Fail { error }
                    },
                    _ => {
                        self.phase = Phase::Sending;
                        self.send_action()
                    },
                }
            },
            _ => self.pending(),
        }
    }
}

/// The writer.
///
/// Its view is the [`WriterView`] that it stands for. The view always
/// satisfies [`WriterView::inv`].
pub struct Writer {
    core: Core,
}

impl View for Writer {
    type V = WriterView;

    closed spec fn view(&self) -> WriterView {
        self.core@
    }
}

impl Writer {
    #[verifier::type_invariant]
    spec fn valid(self) -> bool {
        self.core@.inv()
    }

    /// A writer to `sink`, made at `now_ms`, with the default limits.
    pub fn new(sink: InfluxDBStorage, now_ms: u64) -> (writer: Writer)
        ensures
            writer@ == WriterView::start(sink@, BATCH_MAX as nat, FLUSH_INTERVAL_MS, now_ms),
            writer@.inv(),
    {
        Writer { core: Core::with_limits(sink, BATCH_MAX, FLUSH_INTERVAL_MS, now_ms) }
    }

    /// A writer to `sink`, made at `now_ms`, that flushes at `batch_max`
    /// lines, or `flush_interval_ms` after the last flush.
    pub fn with_limits(
        sink: InfluxDBStorage,
        batch_max: usize,
        flush_interval_ms: u64,
        now_ms: u64,
    ) -> (writer: Writer)
        ensures
            writer@ == WriterView::start(sink@, batch_max as nat, flush_interval_ms, now_ms),
            writer@.inv(),
    {
        Writer { core: Core::with_limits(sink, batch_max, flush_interval_ms, now_ms) }
    }

    /// The state of the writer.
    pub fn state(&self) -> (state: WriterState)
        ensures
            state == self@.state(),
            self@.inv(),
    {
        proof {
            use_type_invariant(&*self);
        }
        self.core.state()
    }

    /// The number of lines buffered.
    pub fn buffered(&self) -> (n: usize)
        ensures
            n == self@.lines.len(),
    {
        self.core.buffered()
    }

    /// The buffered lines joined, as a flush of all of them would send them.
    pub fn buffered_text(&self) -> (text: String)
        ensures
            text@ == join_lines(self@.lines),
    {
        self.core.buffered_text()
    }

    /// What the writer is waiting on.
    pub fn pending(&self) -> (action: Action)
        ensures
            action@ == self@.pending(),
    {
        self.core.pending()
    }

    /// Takes the state out, leaving a new writer's state in its place.
    fn take_core(&mut self) -> (core: Core)
        ensures
            core@ == old(self)@,
            core@.inv(),
    {
        proof {
            use_type_invariant(&*self);
        }
        let mut core = Core::with_limits(InfluxDBStorage::blank(), 0, 0, 0);
        std::mem::swap(&mut core, &mut self.core);
        core
    }

    /// Takes in lines that are already encoded.
    pub fn on_lines(&mut self, lines: Vec<String>) -> (action: Action)
        ensures
            (final(self)@, action@) == old(self)@.on_batch(texts(lines@)),
            final(self)@.inv(),
    {
        let mut core = self.take_core();
        let action = core.on_lines(lines);
        self.core = core;
        action
    }

    /// Takes in a batch of samples: each is encoded and buffered, in order.
    pub fn on_batch<S: Encodable>(&mut self, batch: &[S]) -> (action: Action)
        ensures
            (final(self)@, action@) == old(self)@.on_batch(batch_lines(batch@)),
            final(self)@.inv(),
    {
        self.on_lines(encode_batch(batch))
    }

    /// Takes in that the timer fired at `now_ms`.
    pub fn on_timer(&mut self, now_ms: u64) -> (action: Action)
        ensures
            (final(self)@, action@) == old(self)@.on_timer(now_ms),
            final(self)@.inv(),
    {
        let mut core = self.take_core();
        let action = core.on_timer(now_ms);
        self.core = core;
        action
    }

    /// Takes in that the channel was closed.
    pub fn on_close(&mut self) -> (action: Action)
        ensures
            (final(self)@, action@) == old(self)@.on_close(),
            final(self)@.inv(),
    {
        let mut core = self.take_core();
        let action = core.on_close();
        self.core = core;
        action
    }

    /// Takes in the outcome of the attempt that ended at `now_ms`.
    pub fn on_attempt(&mut self, outcome: AttemptOutcome, now_ms: u64) -> (action: Action)
        ensures
            (final(self)@, action@) == old(self)@.on_attempt(outcome, now_ms),
            final(self)@.inv(),
    {
        let mut core = self.take_core();
        let action = core.on_attempt(outcome, now_ms);
        self.core = core;
        action
    }

    /// Takes in that the delay asked for had passed at `now_ms`.
    pub fn on_backoff_elapsed(&mut self, now_ms: u64) -> (action: Action)
        ensures
            (final(self)@, action@) == old(self)@.on_backoff_elapsed(now_ms),
            final(self)@.inv(),
    {
        let mut core = self.take_core();
        let action = core.on_backoff_elapsed(now_ms);
        self.core = core;
        action
    }
}

} // verus!
