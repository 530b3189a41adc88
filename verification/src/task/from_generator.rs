//! The cooperative-suspension adapter: turns a coroutine-like routine into
//! a single-step computation.

use crate::task::Task;
use crate::Poll;
use vstd::prelude::*;

verus! {

/// The result of resuming a suspendable routine once: it either yielded
/// control with no value, or completed with its final output.
#[derive(Copy, Clone, Debug, Eq, PartialEq, Hash)]
pub enum GeneratorState<R> {
    /// The routine suspended; resume it again later to make progress.
    Yielded,
    /// The routine ran to its end and produced its output.
    Complete(R),
}

/// A coroutine-like routine: sequential-looking code with explicit
/// suspension points, resumed one step at a time.
///
/// The model mirrors [`Task`]: `inv` is well-formedness, `done` records
/// that the routine already completed (resuming it again is a contract
/// violation), and `plan` is the routine's determined future, when its
/// state fixes one: how many times it will still suspend, and the value it
/// then returns.
pub trait Generator {
    type Return;

    /// Well-formedness of the routine's state.
    spec fn inv(&self) -> bool;

    /// Whether the routine has already completed.
    spec fn done(&self) -> bool;

    /// The determined future of the routine, if its state fixes one: the
    /// number of suspensions still to come, and the final return value.
    spec fn plan(&self) -> Option<(nat, Self::Return)>;

    /// Resume the routine once: it suspends again or completes.
    ///
    /// The routine must occupy a fixed location for the duration of the
    /// call; a routine whose suspended state held self-references would in
    /// addition need a stable address between calls, which none of the
    /// state verified here does.
    fn resume(&mut self) -> (r: GeneratorState<Self::Return>)
        requires
            old(self).inv(),
            !old(self).done(),
        ensures
            final(self).inv(),
            final(self).done() <==> r is Complete,
            match old(self).plan() {
                Some(p) => match r {
                    GeneratorState::Complete(v) => p.0 == 0 && v == p.1,
                    GeneratorState::Yielded => p.0 > 0 && final(self).plan() == Some(
                        ((p.0 - 1) as nat, p.1),
                    ),
                },
                None => true,
            },
    ;
}

/// Wraps a suspendable routine as a single-step computation.
pub fn from_generator<G: Generator>(generator: G) -> (r: FromGenerator<G>)
    ensures
        r.generator == generator,
{
    FromGenerator { generator }
}

/// The suspension adapter: each resumption of the wrapped routine becomes
/// one poll, every suspension is reported as `Pending`, and the routine's
/// final return value completes the task.
pub struct FromGenerator<G> {
    /// The wrapped suspendable routine.
    pub generator: G,
}

impl<G: Generator> Task for FromGenerator<G> {
    type Output = G::Return;

    open spec fn inv(&self) -> bool {
        self.generator.inv()
    }

    open spec fn done(&self) -> bool {
        self.generator.done()
    }

    open spec fn plan(&self) -> Option<(nat, G::Return)> {
        self.generator.plan()
    }

    fn poll(&mut self) -> (r: Poll<G::Return>) {
        match self.generator.resume() {
            GeneratorState::Yielded => Poll::Pending,
            GeneratorState::Complete(output) => Poll::Ready(output),
        }
    }
}

} // verus!
