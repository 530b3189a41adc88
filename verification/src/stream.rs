//! The asynchronous sequence capability: a pull-based series of items,
//! each item's production itself non-blocking.

use crate::Poll;
use vstd::prelude::*;

mod for_each;
pub use for_each::ForEach;

verus! {

/// A stream of values produced asynchronously.
///
/// One operation is defined at this layer, "pull next": it yields an item,
/// reports the end of the stream, or reports that no item is available
/// yet. Combinators are the only consumers.
///
/// An implementation describes itself through `inv` (well-formedness),
/// `done` (the end of the stream was already reported — pulling again
/// afterwards is a contract violation, ruled out by `poll_next`'s
/// precondition), and `plan` (the items still to come, when the state
/// determines them: each then arrives immediately, in order, followed
/// immediately by the end of the stream; `None` when undetermined).
pub trait Stream {
    type Item;

    /// Well-formedness of the stream's state.
    spec fn inv(&self) -> bool;

    /// Whether the stream has already reported its end.
    spec fn done(&self) -> bool;

    /// The determined remainder of the stream, if the state fixes one.
    spec fn plan(&self) -> Option<Seq<Self::Item>>;

    /// Pull the next item: one item, the end of the stream, or not yet.
    fn poll_next(&mut self) -> (r: Poll<Option<Self::Item>>)
        requires
            old(self).inv(),
            !old(self).done(),
        ensures
            final(self).inv(),
            final(self).done() <==> r == Poll::Ready(None::<Self::Item>),
            match old(self).plan() {
                Some(items) => if items.len() == 0 {
                    r == Poll::Ready(None::<Self::Item>) && final(self).plan() == Some(
                        Seq::<Self::Item>::empty(),
                    )
                } else {
                    r == Poll::Ready(Some(items[0])) && final(self).plan() == Some(
                        items.subrange(1, items.len() as int),
                    )
                },
                None => true,
            },
    ;

}

/// Creates a stream that immediately yields each element of `items` in
/// order and then immediately ends.
pub fn from_vec<I>(items: Vec<I>) -> (r: VecStream<I>)
    ensures
        r.inv(),
        !r.done(),
        r.plan() == Some(items@),
{
    VecStream { items, finished: false }
}

/// A finite, always-ready stream over the elements of a vector.
pub struct VecStream<I> {
    /// The items not yet yielded, in order.
    pub items: Vec<I>,
    /// Whether the end of the stream has been reported.
    pub finished: bool,
}

impl<I> Stream for VecStream<I> {
    type Item = I;

    open spec fn inv(&self) -> bool {
        self.finished ==> self.items@.len() == 0
    }

    open spec fn done(&self) -> bool {
        self.finished
    }

    open spec fn plan(&self) -> Option<Seq<I>> {
        Some(self.items@)
    }

    fn poll_next(&mut self) -> (r: Poll<Option<I>>) {
        if self.items.len() > 0 {
            let item = self.items.remove(0);
            proof {
                assert(self.items@ =~= old(self).items@.subrange(
                    1,
                    old(self).items@.len() as int,
                ));
            }
            Poll::Ready(Some(item))
        } else {
            self.finished = true;
            Poll::Ready(None)
        }
    }
}

} // verus!
