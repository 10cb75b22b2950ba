//! A producer: the task that fetches samples of one symbol and pushes them
//! onto the channel, once or again and again.
//!
//! The producer performs no I/O. Its driver hands it what happened and
//! carries out the [`Task`] that comes back.

use vstd::prelude::*;

verus! {

/// The time between two fetches of a polling producer, in milliseconds,
/// unless another is chosen.
pub const POLL_PERIOD_MS: u64 = 30_000;

/// How often a producer fetches.
#[derive(Clone, Copy, Debug, PartialEq, Eq, Structural)]
pub enum Schedule {
    /// One fetch of a range of history, then the producer is done.
    Backfill,
    /// A fetch every `period_ms` milliseconds, without end.
    Polling { period_ms: u64 },
}

/// Why a producer ended early.
#[derive(Clone, Copy, Debug, PartialEq, Eq, Structural)]
pub enum ProducerError {
    /// The fetch failed.
    Fetch,
    /// The channel no longer takes batches: the writer has ended.
    ChannelClosed,
}

/// Where a producer stands.
#[derive(Clone, Copy, Debug, PartialEq, Eq, Structural)]
pub enum Stage {
    /// A fetch is under way.
    Fetching,
    /// A batch is being pushed; the producer is held while the channel is full.
    Pushing,
    /// The time to the next fetch is running.
    Resting,
    /// Terminal: the producer has ended, with this error or without.
    Done { error: Option<ProducerError> },
}

/// What the producer asks its driver to do next.
#[derive(Clone, Copy, Debug, PartialEq, Eq, Structural)]
pub enum Task {
    /// Fetch the samples and report whether that worked.
    Fetch,
    /// Push the batch just fetched onto the channel, waiting for room, and
    /// report whether the channel took it.
    Push,
    /// Let this many milliseconds pass and report back.
    Rest { millis: u64 },
    /// The producer has ended, with an error or without.
    Stop { error: Option<ProducerError> },
}

/// What can happen to a producer.
#[derive(Clone, Copy, Debug, PartialEq, Eq, Structural)]
pub enum Report {
    /// The fetch ended; `ok` says whether it brought a batch.
    Fetched { ok: bool },
    /// The push ended; `ok` says whether the channel took the batch.
    Pushed { ok: bool },
    /// The time to the next fetch has passed.
    Rested,
}

/// One producer.
#[derive(Clone, Copy, Debug, PartialEq, Eq, Structural)]
pub struct Producer {
    pub schedule: Schedule,
    pub stage: Stage,
}

impl Producer {
    /// The producer after a report, and the task that follows.
    ///
    /// A fetched batch is always pushed next. A failed fetch and a closed
    /// channel end the producer with their error. After a push a backfill is
    /// done, and a polling producer rests for its period and fetches again. A
    /// report that does not answer the task under way changes nothing and
    /// gets that task again.
    pub open spec fn next(self, report: Report) -> (Producer, Task) {
        match (self.stage, report) {
            (Stage::Fetching, Report::Fetched { ok: true }) => (
                Producer { stage: Stage::Pushing, ..self },
                Task::Push,
            ),
            (Stage::Fetching, Report::Fetched { ok: false }) => (
                Producer { stage: Stage::Done { error: Some(ProducerError::Fetch) }, ..self },
                Task::Stop { error: Some(ProducerError::Fetch) },
            ),
            (Stage::Pushing, Report::Pushed { ok: true }) => match self.schedule {
                Schedule::Backfill => (
                    Producer { stage: Stage::Done { error: None }, ..self },
                    Task::Stop { error: None },
                ),
                Schedule::Polling { period_ms } => (
                    Producer { stage: Stage::Resting, ..self },
                    Task::Rest { millis: period_ms },
                ),
            },
            (Stage::Pushing, Report::Pushed { ok: false }) => (
                Producer {
                    stage: Stage::Done { error: Some(ProducerError::ChannelClosed) },
                    ..self
                },
                Task::Stop { error: Some(ProducerError::ChannelClosed) },
            ),
            (Stage::Resting, Report::Rested) => (
                Producer { stage: Stage::Fetching, ..self },
                Task::Fetch,
            ),
            _ => (self, self.task()),
        }
    }

    /// The task under way.
    pub open spec fn task(self) -> Task {
        match self.stage {
            Stage::Fetching => Task::Fetch,
            Stage::Pushing => Task::Push,
            Stage::Resting => Task::Rest {
                millis: match self.schedule {
                    Schedule::Polling { period_ms } => period_ms,
                    Schedule::Backfill => 0,
                },
            },
            Stage::Done { error } => Task::Stop { error },
        }
    }

    /// A producer that starts with a fetch.
    pub fn new(schedule: Schedule) -> (producer: Producer)
        ensures
            producer == (Producer { schedule, stage: Stage::Fetching }),
    {
        Producer { schedule, stage: Stage::Fetching }
    }

    /// The task under way.
    pub fn pending(&self) -> (task: Task)
        ensures
            task == self.task(),
    {
        match self.stage {
            Stage::Fetching => Task::Fetch,
            Stage::Pushing => Task::Push,
            Stage::Resting => match self.schedule {
                Schedule::Polling { period_ms } => Task::Rest { millis: period_ms },
                Schedule::Backfill => Task::Rest { millis: 0 },
            },
            Stage::Done { error } => Task::Stop { error },
        }
    }

    /// Takes in a report.
    pub fn on_report(&mut self, report: Report) -> (task: Task)
        ensures
            (*final(self), task) == old(self).next(report),
    {
        match (self.stage, report) {
            (Stage::Fetching, Report::Fetched { ok }) => {
                if ok {
                    self.stage = Stage::Pushing;
                    Task::Push
                } else {
                    self.stage = Stage::Done { error: Some(ProducerError::Fetch) };
                    Task::Stop { error: Some(ProducerError::Fetch) }
                }
            },
            (Stage::Pushing, Report::Pushed { ok }) => {
                if !ok {
                    self.stage = Stage::Done { error: Some(ProducerError::ChannelClosed) };
                    Task::Stop { error: Some(ProducerError::ChannelClosed) }
                } else {
                    match self.schedule {
                        Schedule::Backfill => {
                            self.stage = Stage::Done { error: None };
                            Task::Stop { error: None }
                        },
                        Schedule::Polling { period_ms } => {
                            self.stage = Stage::Resting;
                            Task::Rest { millis: period_ms }
                        },
                    }
                }
            },
            (Stage::Resting, Report::Rested) => {
                self.stage = Stage::Fetching;
                Task::Fetch
            },
            _ => self.pending(),
        }
    }
}

/// No batch is dropped: what was fetched is pushed next, whatever the
/// schedule, and the producer moves on only when the push has been reported.
pub proof fn law_fetched_batch_is_pushed(p: Producer, report: Report)
    ensures
        p.stage == Stage::Fetching && report == (Report::Fetched { ok: true }) ==> p.next(report).1
            == Task::Push && p.next(report).0.stage == Stage::Pushing,
        p.stage == Stage::Pushing && !(report is Pushed) ==> p.next(report) == (p, Task::Push),
{
}

/// A producer that has ended stays as it is and keeps answering with how it
/// ended.
pub proof fn law_done_is_terminal(p: Producer, report: Report)
    requires
        p.stage is Done,
    ensures
        p.next(report) == (p, Task::Stop { error: p.stage->error }),
{
}

} // verus!
