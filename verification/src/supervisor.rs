//! The pipeline supervisor: it keeps the channel open while a producer
//! runs, closes it when the last one has ended, and reports what the writer
//! reports.

use crate::storage::WriteError;
use vstd::prelude::*;

verus! {

/// What the supervisor asks its driver to do next.
#[derive(Debug, PartialEq, Eq)]
pub enum Directive {
    /// Keep waiting for the tasks that still run.
    Await,
    /// Every producer has ended: close the channel, then wait for the writer.
    CloseChannel,
    /// The pipeline has ended with this outcome.
    Finish { outcome: Result<(), WriteError> },
}

/// The supervisor's bookkeeping.
pub struct Supervisor {
    producers: usize,
    ended: usize,
    failed: usize,
    channel_open: bool,
    finished: bool,
}

/// What a [`Supervisor`] holds. It always satisfies
/// [`SupervisorView::inv`].
pub struct SupervisorView {
    /// Producers that were started.
    pub producers: nat,
    /// Producers that have ended, well or with an error.
    pub ended: nat,
    /// Producers that ended with an error.
    pub failed: nat,
    pub channel_open: bool,
    /// Whether the writer has ended.
    pub finished: bool,
}

impl SupervisorView {
    /// Producers that have not ended.
    pub open spec fn running(self) -> nat {
        if self.ended <= self.producers {
            (self.producers - self.ended) as nat
        } else {
            0
        }
    }

    /// The counts fit together, and the channel is open exactly while a
    /// producer runs.
    pub open spec fn inv(self) -> bool {
        &&& self.failed <= self.ended <= self.producers
        &&& self.channel_open == (self.ended < self.producers)
    }

    /// A pipeline of `producers` producers and the writer. Without a
    /// producer the channel is closed from the start.
    pub open spec fn start(producers: nat) -> (SupervisorView, Directive) {
        (
            SupervisorView {
                producers,
                ended: 0,
                failed: 0,
                channel_open: producers > 0,
                finished: false,
            },
            if producers > 0 {
                Directive::Await
            } else {
                Directive::CloseChannel
            },
        )
    }

    /// A producer ends, well or with an error. An error is counted and
    /// stops no other task. When the last producer ends, the channel is closed.
    pub open spec fn on_producer_finished(self, failed: bool) -> (SupervisorView, Directive) {
        if self.ended >= self.producers {
            (self, Directive::Await)
        } else {
            let next = SupervisorView {
                ended: self.ended + 1,
                failed: if failed {
                    self.failed + 1
                } else {
                    self.failed
                },
                channel_open: self.ended + 1 < self.producers,
                ..self
            };
            (
                next,
                if self.ended + 1 == self.producers {
                    Directive::CloseChannel
                } else {
                    Directive::Await
                },
            )
        }
    }

    /// The writer ends: its result is the outcome of the pipeline.
    pub open spec fn on_writer_finished(self, result: Result<(), WriteError>) -> (
        SupervisorView,
        Directive,
    ) {
        (SupervisorView { finished: true, ..self }, Directive::Finish { outcome: result })
    }
}

impl View for Supervisor {
    type V = SupervisorView;

    closed spec fn view(&self) -> SupervisorView {
        SupervisorView {
            producers: self.producers as nat,
            ended: self.ended as nat,
            failed: self.failed as nat,
            channel_open: self.channel_open,
            finished: self.finished,
        }
    }
}

impl Supervisor {
    #[verifier::type_invariant]
    spec fn valid(self) -> bool {
        self@.inv()
    }

    /// The supervisor of `producers` producers and the writer, with the
    /// first directive.
    pub fn start(producers: usize) -> (started: (Supervisor, Directive))
        ensures
            (started.0@, started.1) == SupervisorView::start(producers as nat),
            started.0@.inv(),
    {
        let supervisor = Supervisor {
            producers,
            ended: 0,
            failed: 0,
            channel_open: producers > 0,
            finished: false,
        };
        if producers > 0 {
            (supervisor, Directive::Await)
        } else {
            (supervisor, Directive::CloseChannel)
        }
    }

    /// Producers that have not ended.
    pub fn running(&self) -> (n: usize)
        ensures
            n == self@.running(),
    {
        if self.ended <= self.producers {
            self.producers - self.ended
        } else {
            0
        }
    }

    /// Producers that ended with an error.
    pub fn failed(&self) -> (n: usize)
        ensures
            n == self@.failed,
    {
        self.failed
    }

    /// Whether the channel is still open.
    pub fn channel_open(&self) -> (open: bool)
        ensures
            open == self@.channel_open,
    {
        self.channel_open
    }

    /// Whether the writer has ended.
    pub fn finished(&self) -> (finished: bool)
        ensures
            finished == self@.finished,
    {
        self.finished
    }

    /// Takes in that a producer has ended, with an error if `failed`.
    pub fn on_producer_finished(&mut self, failed: bool) -> (directive: Directive)
        ensures
            (final(self)@, directive) == old(self)@.on_producer_finished(failed),
            final(self)@.inv(),
    {
        proof {
            use_type_invariant(&*self);
        }
        if self.ended >= self.producers {
            return Directive::Await;
        }
        let ended = self.ended + 1;
        let failures = if failed {
            self.failed + 1
        } else {
            self.failed
        };
        *self = Supervisor {
            producers: self.producers,
            ended,
            failed: failures,
            channel_open: ended < self.producers,
            finished: self.finished,
        };
        if ended == self.producers {
            Directive::CloseChannel
        } else {
            Directive::Await
        }
    }

    /// Takes in that the writer has ended with `result`.
    pub fn on_writer_finished(&mut self, result: Result<(), WriteError>) -> (directive: Directive)
        ensures
            (final(self)@, directive) == old(self)@.on_writer_finished(result),
            final(self)@.inv(),
    {
        proof {
            use_type_invariant(&*self);
        }
        self.finished = true;
        Directive::Finish { outcome: result }
    }
}

/// The channel is closed once, when the last producer ends, and not before:
/// a producer's end closes it exactly if no other producer runs. After that
/// nothing closes it again.
pub proof fn law_channel_closed_by_last_producer(s: SupervisorView, failed: bool)
    requires
        s.inv(),
    ensures
        ({
            let (next, directive) = s.on_producer_finished(failed);
            &&& next.inv()
            &&& directive == Directive::CloseChannel <==> s.running() == 1
            &&& !s.channel_open ==> next == s && directive == Directive::Await
        }),
{
}

/// The outcome of the pipeline is the writer's result, whatever became of
/// the producers.
pub proof fn law_outcome_is_the_writers(s: SupervisorView, result: Result<(), WriteError>)
    ensures
        s.on_writer_finished(result).1 == (Directive::Finish { outcome: result }),
{
}

} // verus!
