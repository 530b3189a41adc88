//! Leaf tasks: the always-ready wrapper and a task that lags a fixed
//! number of steps.

use crate::task::Task;
use crate::Poll;
use vstd::prelude::*;

verus! {

/// Creates a task that completes on its first poll with `value`.
pub fn ready<T>(value: T) -> (r: Ready<T>)
    ensures
        r.inv(),
        !r.done(),
        r.plan() == Some((0nat, value)),
{
    Ready { value: Some(value) }
}

/// A task that trivially satisfies the computation capability by yielding
/// a pre-supplied value exactly once.
///
/// The value is consumed by the completing poll; polling again afterwards
/// violates `poll`'s precondition, a caller bug that aborts rather than
/// returning an error.
pub struct Ready<T> {
    /// The value still to be handed out; `None` once the task completed.
    pub value: Option<T>,
}

impl<T> Task for Ready<T> {
    type Output = T;

    open spec fn inv(&self) -> bool {
        true
    }

    open spec fn done(&self) -> bool {
        self.value is None
    }

    open spec fn plan(&self) -> Option<(nat, T)> {
        match self.value {
            Some(v) => Some((0nat, v)),
            None => None,
        }
    }

    fn poll(&mut self) -> (r: Poll<T>)
        ensures
            old(self).value matches Some(v) && r == Poll::Ready(v),
    {
        match self.value.take() {
            Some(v) => Poll::Ready(v),
            None => vstd::pervasive::unreached(),
        }
    }
}

/// Creates a task that reports `Pending` exactly `steps` times and then
/// completes with `value`.
pub fn delayed<T>(steps: u64, value: T) -> (r: Delayed<T>)
    ensures
        r.inv(),
        !r.done(),
        r.plan() == Some((steps as nat, value)),
{
    Delayed { steps, value: Some(value) }
}

/// A task that lags: it reports `Pending` a fixed number of times before
/// yielding its value, exercising callers' re-polling loops.
pub struct Delayed<T> {
    /// How many more polls report `Pending` before the value is yielded.
    pub steps: u64,
    /// The value still to be handed out; `None` once the task completed.
    pub value: Option<T>,
}

impl<T> Task for Delayed<T> {
    type Output = T;

    open spec fn inv(&self) -> bool {
        true
    }

    open spec fn done(&self) -> bool {
        self.value is None
    }

    open spec fn plan(&self) -> Option<(nat, T)> {
        match self.value {
            Some(v) => Some((self.steps as nat, v)),
            None => None,
        }
    }

    fn poll(&mut self) -> (r: Poll<T>)
        ensures
            old(self).steps > 0 ==> r is Pending && final(self).steps == old(self).steps - 1
                && final(self).value == old(self).value,
            old(self).steps == 0 ==> (old(self).value matches Some(v) && r == Poll::Ready(v)),
    {
        if self.steps > 0 {
            self.steps = self.steps - 1;
            Poll::Pending
        } else {
            match self.value.take() {
                Some(v) => Poll::Ready(v),
                None => vstd::pervasive::unreached(),
            }
        }
    }
}

} // verus!
