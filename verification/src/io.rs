//! The buffered byte-read capability and its adapter to a single-step
//! computation.

use crate::task::Task;
use crate::Poll;
use vstd::prelude::*;

verus! {

/// A non-blocking byte source.
///
/// One operation is defined: given a destination buffer, report how many
/// bytes were written into its prefix, a source-specific failure, or that
/// no data is available yet.
///
/// An implementation describes itself through `inv` (well-formedness) and
/// `read_step`, its exact relation between the states and buffer contents
/// before and after one read attempt and the reported signal.
pub trait Read {
    type Error;

    /// Well-formedness of the source's state.
    spec fn inv(&self) -> bool;

    /// The relation one `poll_read` call establishes: how the source
    /// stepped, what the buffer now holds, and what was reported.
    spec fn read_step(
        pre: &Self,
        post: &Self,
        pre_buf: Seq<u8>,
        post_buf: Seq<u8>,
        r: Poll<Result<usize, Self::Error>>,
    ) -> bool;

    /// Attempt one non-blocking read into the prefix of `buf`.
    ///
    /// The buffer's length is never changed: a successful read reports how
    /// many bytes of the prefix now hold fresh data.
    fn poll_read(&mut self, buf: &mut Vec<u8>) -> (r: Poll<Result<usize, Self::Error>>)
        requires
            old(self).inv(),
        ensures
            final(self).inv(),
            final(buf)@.len() == old(buf)@.len(),
            match r {
                Poll::Ready(Ok(n)) => n <= old(buf)@.len() && (forall|i: int|
                    n <= i < old(buf)@.len() ==> final(buf)@[i] == old(buf)@[i]),
                _ => true,
            },
            Self::read_step(old(self), final(self), old(buf)@, final(buf)@, r),
    ;
}

/// Adapts a byte source and a destination buffer into a single-step
/// computation.
///
/// Each poll forwards one read attempt to the source with the held buffer
/// and propagates the resulting signal unchanged — including a reported
/// failure, which is carried as the `Err` payload inside `Ready` and never
/// swallowed. The adapter adds no buffering and no retry policy of its
/// own: re-polling is the caller's responsibility.
pub struct ReadTask<R> {
    /// The destination buffer the source writes into.
    pub buf: Vec<u8>,
    /// The byte source being driven.
    pub read: R,
    /// Whether the adapter has already reported completion.
    pub complete: Ghost<bool>,
}

impl<R: Read> ReadTask<R> {
    /// Ties a byte source to a destination buffer as a single-step
    /// computation that performs one read attempt when polled.
    pub fn new(read: R, buf: Vec<u8>) -> (t: Self)
        requires
            read.inv(),
        ensures
            t.read == read,
            t.buf == buf,
            !t.done(),
            t.inv(),
    {
        ReadTask { buf, read, complete: Ghost(false) }
    }
}

impl<R: Read> Task for ReadTask<R> {
    type Output = Result<usize, R::Error>;

    open spec fn inv(&self) -> bool {
        self.read.inv()
    }

    open spec fn done(&self) -> bool {
        self.complete@
    }

    open spec fn plan(&self) -> Option<(nat, Result<usize, R::Error>)> {
        None
    }

    fn poll(&mut self) -> (r: Poll<Result<usize, R::Error>>)
        ensures
            // the signal is exactly what the source produced, related to
            // the old and new states by the source's own step relation
            R::read_step(
                &old(self).read,
                &final(self).read,
                old(self).buf@,
                final(self).buf@,
                r,
            ),
            final(self).buf@.len() == old(self).buf@.len(),
            match r {
                Poll::Ready(Ok(n)) => n <= old(self).buf@.len() && (forall|i: int|
                    n <= i < old(self).buf@.len() ==> final(self).buf@[i] == old(self).buf@[i]),
                _ => true,
            },
    {
        let r = self.read.poll_read(&mut self.buf);
        let ghost finished = r is Ready;
        proof {
            self.complete@ = finished;
        }
        r
    }
}

} // verus!
