//! Core abstractions for non-blocking computation without an operating
//! system, a heap, or a wakeup mechanism.
//!
//! The crate provides:
//! - [`Poll`]: the completion signal, either a finished value or "not yet";
//! - [`Task`]: a single eventual value, advanced one step at a time;
//! - [`Stream`]: a series of values, each produced non-blockingly.
//!
//! A caller drives a [`Task`] by invoking its step operation repeatedly; a
//! `Pending` signal promises nothing about when progress becomes possible,
//! and re-polling policy is entirely the caller's.

pub mod io;

pub mod stream;
pub use stream::Stream;

pub mod task;
pub use task::Task;

use vstd::prelude::*;

verus! {

/// Indicates whether a value is available or still pending.
///
/// This differs from `core::task::Poll` because tasks are not required to
/// schedule themselves for wakeup: there is no waker.
#[must_use]
#[derive(Copy, Clone, Debug, Eq, PartialEq, Ord, PartialOrd, Hash)]
pub enum Poll<T> {
    /// Represents that a value is immediately ready.
    Ready(T),

    /// Represents that a value is not ready yet.
    Pending,
}

impl<T> Poll<T> {
    /// True exactly when the signal carries a finished value.
    pub fn is_ready(&self) -> (r: bool)
        ensures
            r == (self is Ready),
    {
        match self {
            Poll::Ready(_) => true,
            Poll::Pending => false,
        }
    }

    /// Transforms the carried value when `Ready`; passes `Pending` through
    /// unchanged.
    pub fn map<U, F: FnOnce(T) -> U>(self, f: F) -> (r: Poll<U>)
        requires
            self matches Poll::Ready(t) ==> call_requires(f, (t,)),
        ensures
            self is Pending ==> r is Pending,
            self matches Poll::Ready(t) ==> r matches Poll::Ready(u) && call_ensures(f, (t,), u),
    {
        match self {
            Poll::Ready(t) => Poll::Ready(f(t)),
            Poll::Pending => Poll::Pending,
        }
    }
}

/// Declaration of `nb::Error`, the error type of the `nb` crate's
/// non-blocking result. Its two public variants, `Other` and `WouldBlock`,
/// are matched on directly below; no behaviour of `nb` is assumed.
#[verifier::external_type_specification]
#[verifier::reject_recursive_types(E)]
pub struct ExNbError<E>(nb::Error<E>);

impl<T, E> From<nb::Result<T, E>> for Poll<Result<T, E>> {
    /// Converts an `nb` non-blocking result into a completion signal:
    /// `WouldBlock` becomes `Pending`; anything settled becomes `Ready`.
    fn from(value: nb::Result<T, E>) -> (r: Self) {
        match value {
            Ok(out) => Poll::Ready(Ok(out)),
            Err(nb::Error::Other(error)) => Poll::Ready(Err(error)),
            Err(nb::Error::WouldBlock) => Poll::Pending,
        }
    }
}

impl<T, E> vstd::std_specs::convert::FromSpecImpl<nb::Result<T, E>> for Poll<Result<T, E>> {
    open spec fn obeys_from_spec() -> bool {
        true
    }

    open spec fn from_spec(value: nb::Result<T, E>) -> Self {
        match value {
            Ok(out) => Poll::Ready(Ok(out)),
            Err(nb::Error::Other(error)) => Poll::Ready(Err(error)),
            Err(nb::Error::WouldBlock) => Poll::Pending,
        }
    }
}

} // verus!
