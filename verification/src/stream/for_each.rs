//! The per-item stream driver.

use crate::stream::Stream;
use crate::task::Task;
use crate::Poll;
use vstd::prelude::*;

verus! {

/// The lexicographic tie-breaker for the driver's inner loop: a pull may
/// put a sub-computation in flight without shortening the stream.
pub open spec fn in_flight_charge<T>(task: &Option<T>) -> int {
    match task {
        Some(_) => 1,
        None => 0,
    }
}

/// The per-item function was applied to `i`: some sub-computation
/// satisfying the function's postcondition on `i` was produced.
pub open spec fn fed_one<I, T, F: Fn(I) -> T>(f: F, i: I) -> bool {
    exists|t: T| call_ensures(f, (i,), t)
}

/// Drives a sub-computation for every item of a stream, strictly in
/// sequence order, at most one in flight at a time.
///
/// One poll of the driver does as much synchronous work as is available:
/// it loops, stepping the in-flight sub-computation or pulling the next
/// item, and only reports `Pending` when truly blocked. It completes, with
/// the unit value, once the stream ends and the last sub-computation is
/// finished.
pub struct ForEach<S: Stream, T, F> {
    /// The stream still being consumed.
    pub stream: S,
    /// The per-item function: maps each item to a fresh sub-computation.
    pub f: F,
    /// The at most one sub-computation in flight; absent between items.
    pub task: Option<T>,
    /// History: every item pulled from the stream so far, in pull order.
    pub processed: Ghost<Seq<S::Item>>,
}

impl<S: Stream, T: Task<Output = ()>, F: Fn(S::Item) -> T> ForEach<S, T, F> {
    /// Combines a stream and a per-item function into a driver with no
    /// sub-computation in flight.
    pub fn new(stream: S, f: F) -> (r: Self)
        requires
            stream.inv(),
            !stream.done(),
            stream.plan() is Some,
            forall|i: S::Item| call_requires(f, (i,)),
            forall|i: S::Item, t: T| call_ensures(f, (i,), t) ==> t.inv() && !t.done(),
        ensures
            r.stream == stream,
            r.f == f,
            r.task is None,
            r.processed@ == Seq::<S::Item>::empty(),
            r.inv(),
            !r.done(),
    {
        ForEach { stream, f, task: None, processed: Ghost(Seq::empty()) }
    }
}

impl<S: Stream, T: Task<Output = ()>, F: Fn(S::Item) -> T> Task for ForEach<S, T, F> {
    type Output = ();

    open spec fn inv(&self) -> bool {
        &&& self.stream.inv()
        &&& self.stream.plan() is Some
        &&& (forall|i: S::Item| call_requires(self.f, (i,)))
        &&& (forall|i: S::Item, t: T|
            call_ensures(self.f, (i,), t) ==> t.inv() && !t.done())
        &&& match self.task {
            Some(t) => t.inv() && !t.done() && !self.stream.done(),
            None => true,
        }
        &&& (forall|k: int|
            0 <= k < self.processed@.len() ==> fed_one(self.f, #[trigger] self.processed@[k]))
    }

    open spec fn done(&self) -> bool {
        self.stream.done() && self.task is None
    }

    open spec fn plan(&self) -> Option<(nat, ())> {
        None
    }

    fn poll(&mut self) -> (r: Poll<()>)
        ensures
            // the per-item function is never replaced
            final(self).f == old(self).f,
            // conservation: the items pulled so far plus the items still to
            // come never change, so items are processed in stream order
            final(self).processed@ + final(self).stream.plan().unwrap() == old(
                self,
            ).processed@ + old(self).stream.plan().unwrap(),
            // pendency: while the in-flight sub-computation pends, the
            // driver pends, pulls nothing, and leaves the stream untouched
            old(self).task matches Some(t) && t.plan() matches Some(p) && p.0 > 0 ==> r is Pending
                && final(self).stream == old(self).stream && final(self).processed@ == old(
                self,
            ).processed@ && final(self).task is Some && final(self).task.unwrap().plan() == Some(
                (
                    (old(self).task.unwrap().plan().unwrap().0 - 1) as nat,
                    old(self).task.unwrap().plan().unwrap().1,
                ),
            ),
            // immediate sub-computations: when every task the per-item
            // function produces completes on its first poll (and any task
            // already in flight is about to), one driving call consumes
            // the whole stream and completes
            (forall|i: S::Item, t: T|
                call_ensures(old(self).f, (i,), t) ==> t.plan() == Some((0nat, ()))) && (old(
                self,
            ).task matches Some(t) ==> t.plan() matches Some(p) && p.0 == 0) ==> r == Poll::Ready(
                (),
            ) && final(self).processed@ == old(self).processed@ + old(self).stream.plan().unwrap(),
    {
        loop
            invariant
                self.inv(),
                !self.stream.done(),
                self.f == old(self).f,
                self.processed@ + self.stream.plan().unwrap() == old(self).processed@ + old(
                    self,
                ).stream.plan().unwrap(),
                old(self).task matches Some(t) && t.plan() matches Some(p) && p.0 > 0 ==> self
                    == old(self),
                (forall|i: S::Item, t: T|
                    call_ensures(old(self).f, (i,), t) ==> t.plan() == Some((0nat, ()))) && (old(
                    self,
                ).task matches Some(t) ==> t.plan() matches Some(p) && p.0 == 0) ==> (self.task
                    matches Some(t) ==> t.plan() == Some((0nat, ()))),
            decreases self.stream.plan().unwrap().len(), in_flight_charge(&self.task),
        {
            let in_flight = self.task.take();
            match in_flight {
                Some(mut t) => {
                    match t.poll() {
                        Poll::Pending => {
                            self.task = Some(t);
                            return Poll::Pending;
                        },
                        Poll::Ready(_) => {},
                    }
                },
                None => {
                    let ghost before = self.stream.plan().unwrap();
                    match self.stream.poll_next() {
                        Poll::Pending => {
                            return Poll::Pending;
                        },
                        Poll::Ready(None) => {
                            proof {
                                assert(self.processed@ + self.stream.plan().unwrap() =~= self
                                    .processed@);
                            }
                            return Poll::Ready(());
                        },
                        Poll::Ready(Some(item)) => {
                            let ghost prior = self.processed@;
                            let ghost rest = self.stream.plan().unwrap();
                            self.processed = Ghost(self.processed@.push(item));
                            let t = (self.f)(item);
                            proof {
                                assert(before =~= rest.insert(0, item));
                                assert(prior.push(item) + rest =~= prior + rest.insert(0, item));
                                assert(fed_one(self.f, item));
                                assert(self.processed@[prior.len() as int] == item);
                            }
                            self.task = Some(t);
                        },
                    }
                },
            }
        }
    }
}

} // verus!
