//! The single-step computation capability and its busy-wait drivers.

use crate::Poll;
use vstd::prelude::*;

mod ready;
pub use ready::{delayed, ready, Delayed, Ready};

mod from_generator;
pub use from_generator::{from_generator, FromGenerator, Generator, GeneratorState};

verus! {

/// An asynchronous computation: one eventual value, advanced one step at a
/// time.
///
/// This is similar to `core::future::Future` but without a context: a
/// pending task never schedules its own wakeup, the caller alone decides
/// when to poll again.
///
/// Each implementation describes itself through three specification
/// functions: `inv` (well-formedness of its state), `done` (whether it has
/// already reported completion — stepping a finished task is a contract
/// violation, ruled out by `poll`'s precondition), and `plan` (the task's
/// determined future, when its current state fixes one: how many times it
/// will still report `Pending`, and the value it then completes with;
/// `None` when the future is not determined by the state alone).
pub trait Task {
    type Output;

    /// Well-formedness of the task's state.
    spec fn inv(&self) -> bool;

    /// Whether the task has already reported completion.
    spec fn done(&self) -> bool;

    /// The determined future of the task, if its state fixes one: the
    /// number of `Pending` reports still to come, and the final value.
    spec fn plan(&self) -> Option<(nat, Self::Output)>;

    /// Attempt one step of the computation; report completion or pendency.
    ///
    /// The task must occupy a fixed location for the duration of the call
    /// (it is borrowed exclusively); between calls the caller may relocate
    /// it freely, since no state verified here holds self-references.
    fn poll(&mut self) -> (r: Poll<Self::Output>)
        requires
            old(self).inv(),
            !old(self).done(),
        ensures
            final(self).inv(),
            final(self).done() <==> r is Ready,
            match old(self).plan() {
                Some(p) => match r {
                    Poll::Ready(v) => p.0 == 0 && v == p.1,
                    Poll::Pending => p.0 > 0 && final(self).plan() == Some(
                        ((p.0 - 1) as nat, p.1),
                    ),
                },
                None => true,
            },
    ;

    /// One single relocatable step: polls the task once and discards it.
    ///
    /// For computations that need no address stability at all.
    fn poll_unpin(self) -> (r: Poll<Self::Output>) where Self: Sized
        requires
            self.inv(),
            !self.done(),
        ensures
            match self.plan() {
                Some(p) => if p.0 == 0 {
                    r == Poll::Ready(p.1)
                } else {
                    r is Pending
                },
                None => true,
            },
    {
        let mut this = self;
        this.poll()
    }

    /// Steps the task until it completes and returns the carried value.
    ///
    /// This is a busy wait: a tight loop that discards every `Pending`
    /// report and never yields to any other activity. A task that reports
    /// `Pending` exactly `n` times before completing is polled exactly
    /// `n + 1` times: the loop never returns before `Ready`, and polling
    /// past completion is ruled out by `poll`'s precondition.
    ///
    /// Only a task whose remaining behaviour is determined can be driven
    /// here: that is what lets the wait be proved to end at all.
    fn block_on(self) -> (r: Self::Output) where Self: Sized
        requires
            self.inv(),
            !self.done(),
            self.plan() is Some,
        ensures
            self.plan() matches Some(p) ==> r == p.1,
    {
        let ghost first = self.plan().unwrap();
        let mut this = self;
        loop
            invariant
                this.inv(),
                !this.done(),
                self.plan() matches Some(p) && p.1 == first.1,
                this.plan() matches Some(q) && q.1 == first.1,
            decreases this.plan().unwrap().0,
        {
            match this.poll() {
                Poll::Ready(output) => return output,
                Poll::Pending => {}
            }
        }
    }
}

} // verus!
