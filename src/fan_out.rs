//! The producer side of a blob fan-out: it pulls chunks from upstream and
//! publishes each to a broadcast channel read by the client and by the
//! cache writer. Publishing fails only once every reader has gone; that is
//! its one signal to stop pulling.
use vstd::prelude::*;

verus! {

/// Where the producer stands.
#[derive(Debug, Clone, Copy, PartialEq, Eq, Structural)]
pub enum ProducerPhase {
    /// Waiting for the next item from upstream.
    Pulling,
    /// Waiting for an item to be published; a `terminal` item is an
    /// upstream failure, after which nothing more is pulled.
    Publishing { terminal: bool },
    /// Finished: nothing more is pulled or published.
    Stopped,
}

/// What the producer does next.
pub enum ProducerAction<T, E> {
    /// Read the next item from upstream.
    Pull,
    /// Publish the item to every reader still there.
    Publish(Result<T, E>),
    /// Stop, dropping the upstream stream.
    Stop,
}

/// The phase after upstream yields `item` (`Some(failed)`) or ends
/// (`None`).
pub open spec fn next_on_pulled(phase: ProducerPhase, item: Option<bool>) -> ProducerPhase {
    match phase {
        ProducerPhase::Pulling => match item {
            Some(failed) => ProducerPhase::Publishing { terminal: failed },
            None => ProducerPhase::Stopped,
        },
        _ => ProducerPhase::Stopped,
    }
}

/// The phase after a publish that reached some reader (`delivered`) or
/// found none left.
pub open spec fn next_on_published(phase: ProducerPhase, delivered: bool) -> ProducerPhase {
    match phase {
        ProducerPhase::Publishing { terminal } => if delivered && !terminal {
            ProducerPhase::Pulling
        } else {
            ProducerPhase::Stopped
        },
        _ => ProducerPhase::Stopped,
    }
}

/// One event the producer receives, as far as its phase depends on it.
pub enum ProducerInput {
    Pulled(Option<bool>),
    Published(bool),
}

/// The phase after one input.
pub open spec fn next_phase(phase: ProducerPhase, input: ProducerInput) -> ProducerPhase {
    match input {
        ProducerInput::Pulled(item) => next_on_pulled(phase, item),
        ProducerInput::Published(delivered) => next_on_published(phase, delivered),
    }
}

/// The phase after a run of inputs.
pub open spec fn run(phase: ProducerPhase, inputs: Seq<ProducerInput>) -> ProducerPhase
    decreases inputs.len(),
{
    if inputs.len() == 0 {
        phase
    } else {
        run(next_phase(phase, inputs[0]), inputs.drop_first())
    }
}

/// How many upstream reads a run of inputs asks for: one for each step
/// into `Pulling`.
pub open spec fn reads_in_run(phase: ProducerPhase, inputs: Seq<ProducerInput>) -> nat
    decreases inputs.len(),
{
    if inputs.len() == 0 {
        0
    } else {
        let next = next_phase(phase, inputs[0]);
        (if next == ProducerPhase::Pulling {
            1nat
        } else {
            0nat
        }) + reads_in_run(next, inputs.drop_first())
    }
}

/// The action that goes with entering a phase.
pub open spec fn action_fits<T, E>(
    a: ProducerAction<T, E>,
    phase: ProducerPhase,
    item: Option<Result<T, E>>,
) -> bool {
    match phase {
        ProducerPhase::Pulling => a is Pull,
        ProducerPhase::Publishing { .. } => a matches ProducerAction::Publish(x) && item == Some(x),
        ProducerPhase::Stopped => a is Stop,
    }
}

/// The producer of one fan-out.
pub struct Producer<T, E> {
    phase: ProducerPhase,
    reads: Ghost<nat>,
    offered: Ghost<Seq<Result<T, E>>>,
}

impl<T, E> Producer<T, E> {
    pub closed spec fn phase(&self) -> ProducerPhase {
        self.phase
    }

    /// How many upstream reads the producer has asked for.
    pub closed spec fn reads(&self) -> nat {
        self.reads@
    }

    /// The items handed out for publishing, in order.
    pub closed spec fn offered(&self) -> Seq<Result<T, E>> {
        self.offered@
    }

    /// A new producer; its first action is a read from upstream.
    pub fn new() -> (r: (Producer<T, E>, ProducerAction<T, E>))
        ensures
            r.0.phase() == ProducerPhase::Pulling,
            r.0.reads() == 1,
            r.0.offered() == Seq::<Result<T, E>>::empty(),
            r.1 is Pull,
    {
        (
            Producer { phase: ProducerPhase::Pulling, reads: Ghost(1), offered: Ghost(Seq::empty()) },
            ProducerAction::Pull,
        )
    }

    /// Whether the producer has stopped.
    pub fn is_stopped(&self) -> (r: bool)
        ensures
            r == (self.phase() == ProducerPhase::Stopped),
    {
        match self.phase {
            ProducerPhase::Stopped => true,
            _ => false,
        }
    }

    /// Decides on what upstream yielded: an item, chunk or failure, is
    /// published as it came; the end of the stream stops the producer.
    pub fn on_pulled(&mut self, item: Option<Result<T, E>>) -> (r: ProducerAction<T, E>)
        ensures
            final(self).phase() == next_on_pulled(
                old(self).phase(),
                match item {
                    Some(x) => Some(x is Err),
                    None => None,
                },
            ),
            action_fits(r, final(self).phase(), item),
            final(self).reads() == old(self).reads(),
            final(self).offered() == match (old(self).phase(), item) {
                (ProducerPhase::Pulling, Some(x)) => old(self).offered().push(x),
                _ => old(self).offered(),
            },
    {
        match self.phase {
            ProducerPhase::Pulling => match item {
                Some(x) => {
                    self.phase = ProducerPhase::Publishing { terminal: x.is_err() };
                    proof {
                        self.offered@ = self.offered@.push(x);
                    }
                    ProducerAction::Publish(x)
                },
                None => {
                    self.phase = ProducerPhase::Stopped;
                    ProducerAction::Stop
                },
            },
            _ => {
                self.phase = ProducerPhase::Stopped;
                ProducerAction::Stop
            },
        }
    }

    /// Decides after a publish: when it reached a reader and the item was
    /// a chunk, the next item is pulled; when no reader was left, or the
    /// item was an upstream failure, the producer stops.
    pub fn on_published(&mut self, delivered: bool) -> (r: ProducerAction<T, E>)
        ensures
            final(self).phase() == next_on_published(old(self).phase(), delivered),
            action_fits(r, final(self).phase(), None),
            final(self).reads() == old(self).reads() + if final(self).phase()
                == ProducerPhase::Pulling {
                1nat
            } else {
                0nat
            },
            final(self).offered() == old(self).offered(),
    {
        match self.phase {
            ProducerPhase::Publishing { terminal } => {
                if delivered && !terminal {
                    self.phase = ProducerPhase::Pulling;
                    proof {
                        self.reads@ = self.reads@ + 1;
                    }
                    ProducerAction::Pull
                } else {
                    self.phase = ProducerPhase::Stopped;
                    ProducerAction::Stop
                }
            },
            _ => {
                self.phase = ProducerPhase::Stopped;
                ProducerAction::Stop
            },
        }
    }
}

/// A stopped producer stays stopped and asks for no upstream read, whatever
/// it is told afterwards.
pub proof fn lemma_stopped_stays_stopped(inputs: Seq<ProducerInput>)
    ensures
        run(ProducerPhase::Stopped, inputs) == ProducerPhase::Stopped,
        reads_in_run(ProducerPhase::Stopped, inputs) == 0,
    decreases inputs.len(),
{
    if inputs.len() > 0 {
        assert(next_phase(ProducerPhase::Stopped, inputs[0]) == ProducerPhase::Stopped);
        lemma_stopped_stays_stopped(inputs.drop_first());
    }
}

/// Once a publish finds no reader left, the producer never reads from
/// upstream again, whatever follows.
pub proof fn lemma_no_readers_cancels_fetch(terminal: bool, inputs: Seq<ProducerInput>)
    ensures
        next_on_published(ProducerPhase::Publishing { terminal }, false) == ProducerPhase::Stopped,
        run(next_on_published(ProducerPhase::Publishing { terminal }, false), inputs)
            == ProducerPhase::Stopped,
        reads_in_run(next_on_published(ProducerPhase::Publishing { terminal }, false), inputs)
            == 0,
{
    lemma_stopped_stays_stopped(inputs);
}

/// An upstream failure is the last item published: after it the producer
/// stops whether or not a reader took it, and reads nothing more.
pub proof fn lemma_failure_is_terminal(delivered: bool, inputs: Seq<ProducerInput>)
    ensures
        next_on_published(next_on_pulled(ProducerPhase::Pulling, Some(true)), delivered)
            == ProducerPhase::Stopped,
        reads_in_run(
            next_on_published(next_on_pulled(ProducerPhase::Pulling, Some(true)), delivered),
            inputs,
        ) == 0,
{
    lemma_stopped_stays_stopped(inputs);
}

} // verus!
