//! Taps on the outcome of polling a future.
//!
//! A future of the `futures` crate is polled through its `Future` trait, and what
//! the poll does is the future's own business. The taps here therefore start
//! where the poll has ended: they take its outcome, a `Poll<T, E>`, and branch
//! on the three shapes that it can have. Whoever holds the future polls it once
//! and hands the outcome over.
//!
//! A `Poll<T, E>` is a `Result`, so `TapResultOps` applies to it as well. Where
//! both traits are in scope, a call of `tap_err` has to name the trait it means.

use vstd::prelude::*;
use futures::{Async, Poll};
use crate::closure::{callable, callable_with, called, called_with};

verus! {

/// `futures::Async`, with its two variants `Ready(T)` and `NotReady` as the
/// crate declares them. Nothing is assumed of it: Verus reads the definition.
#[verifier::external_type_specification]
pub struct ExAsync<T>(Async<T>);

/// Whether `tap_ready` calls its closure on the outcome `p`.
pub open spec fn tap_ready_fires<T, E>(p: Poll<T, E>) -> bool {
    p matches Ok(Async::Ready(_))
}

/// Whether `tap_not_ready` calls its closure on the outcome `p`.
pub open spec fn tap_not_ready_fires<T, E>(p: Poll<T, E>) -> bool {
    p matches Ok(Async::NotReady)
}

/// Whether `tap_err` calls its closure on the outcome `p`.
pub open spec fn tap_err_fires<T, E>(p: Poll<T, E>) -> bool {
    p is Err
}

/// The value that a ready outcome carries.
pub open spec fn ready_value<T, E>(p: Poll<T, E>) -> T
    recommends
        tap_ready_fires(p),
{
    match p {
        Ok(Async::Ready(v)) => v,
        _ => arbitrary(),
    }
}

/// The error that a failed outcome carries.
pub open spec fn failure<T, E>(p: Poll<T, E>) -> E
    recommends
        tap_err_fires(p),
{
    p->Err_0
}

/// The two outcomes have the same shape: both ready, both pending or both failed.
pub open spec fn same_shape<T, E>(a: Poll<T, E>, b: Poll<T, E>) -> bool {
    &&& tap_ready_fires(a) <==> tap_ready_fires(b)
    &&& tap_not_ready_fires(a) <==> tap_not_ready_fires(b)
    &&& tap_err_fires(a) <==> tap_err_fires(b)
}

/// Tap operations for the outcome of one poll of a future.
pub trait TapFutureOps<T, E>: Sized {
    /// The outcome that the taps branch on.
    spec fn as_poll(self) -> Poll<T, E>;

    /// Calls `f` with a view of the value if the outcome is `Ok(Async::Ready(..))`,
    /// and returns `self`.
    fn tap_ready<R, F: FnOnce(&T) -> R>(self, f: F) -> (out: Self)
        requires
            tap_ready_fires(self.as_poll()) ==> callable_with(f, ready_value(self.as_poll())),
        ensures
            same_shape(out.as_poll(), self.as_poll()),
    ;

    /// Calls `f` if the outcome is `Ok(Async::NotReady)`, and returns `self`.
    fn tap_not_ready<R, F: FnOnce() -> R>(self, f: F) -> (out: Self)
        requires
            tap_not_ready_fires(self.as_poll()) ==> callable(f),
        ensures
            same_shape(out.as_poll(), self.as_poll()),
    ;

    /// Calls `f` with a view of the error if the outcome is `Err(..)`, and
    /// returns `self`.
    fn tap_err<R, F: FnOnce(&E) -> R>(self, f: F) -> (out: Self)
        requires
            tap_err_fires(self.as_poll()) ==> callable_with(f, failure(self.as_poll())),
        ensures
            same_shape(out.as_poll(), self.as_poll()),
    ;
}

impl<T, E> TapFutureOps<T, E> for Poll<T, E> {
    open spec fn as_poll(self) -> Poll<T, E> {
        self
    }

    fn tap_ready<R, F: FnOnce(&T) -> R>(self, f: F) -> (out: Self)
        ensures
            out == self,
            tap_ready_fires(self) ==> called_with(f, ready_value(self)),
    {
        if let Ok(Async::Ready(ref val)) = self {
            let _ = f(val);
        }
        self
    }

    fn tap_not_ready<R, F: FnOnce() -> R>(self, f: F) -> (out: Self)
        ensures
            out == self,
            tap_not_ready_fires(self) ==> called(f),
    {
        if let Ok(Async::NotReady) = self {
            let _ = f();
        }
        self
    }

    fn tap_err<R, F: FnOnce(&E) -> R>(self, f: F) -> (out: Self)
        ensures
            out == self,
            tap_err_fires(self) ==> called_with(f, failure(self)),
    {
        if let Err(ref val) = self {
            let _ = f(val);
        }
        self
    }
}

/// Every outcome of a poll makes exactly one of `tap_ready`, `tap_not_ready` and
/// `tap_err` call its closure: the one that waits for the outcome's shape.
pub proof fn lemma_poll_taps_exclusive<T, E>(p: Poll<T, E>)
    ensures
        tap_ready_fires(p) <==> p == Ok::<Async<T>, E>(Async::Ready(ready_value(p))),
        tap_not_ready_fires(p) <==> p == Ok::<Async<T>, E>(Async::NotReady),
        tap_err_fires(p) <==> p == Err::<Async<T>, E>(failure(p)),
        tap_ready_fires(p) || tap_not_ready_fires(p) || tap_err_fires(p),
        !(tap_ready_fires(p) && tap_not_ready_fires(p)),
        !(tap_ready_fires(p) && tap_err_fires(p)),
        !(tap_not_ready_fires(p) && tap_err_fires(p)),
{
}

/// On an outcome that is ready with `x`, `tap_ready` calls its closure, and
/// calls it with `x`; `tap_not_ready` and `tap_err` do not call theirs.
pub proof fn lemma_ready_outcome<T, E>(x: T)
    ensures
        tap_ready_fires(Ok::<Async<T>, E>(Async::Ready(x))),
        ready_value(Ok::<Async<T>, E>(Async::Ready(x))) == x,
        !tap_not_ready_fires(Ok::<Async<T>, E>(Async::Ready(x))),
        !tap_err_fires(Ok::<Async<T>, E>(Async::Ready(x))),
{
}

/// On a pending outcome only `tap_not_ready` calls its closure.
pub proof fn lemma_pending_outcome<T, E>()
    ensures
        tap_not_ready_fires(Ok::<Async<T>, E>(Async::NotReady)),
        !tap_ready_fires(Ok::<Async<T>, E>(Async::NotReady)),
        !tap_err_fires(Ok::<Async<T>, E>(Async::NotReady)),
{
}

/// On an outcome that failed with `e` only `tap_err` calls its closure, and
/// calls it with `e`.
pub proof fn lemma_failed_outcome<T, E>(e: E)
    ensures
        tap_err_fires(Err::<Async<T>, E>(e)),
        failure(Err::<Async<T>, E>(e)) == e,
        !tap_ready_fires(Err::<Async<T>, E>(e)),
        !tap_not_ready_fires(Err::<Async<T>, E>(e)),
{
}

} // verus!
