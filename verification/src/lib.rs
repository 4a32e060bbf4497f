//! Tap combinators: run a closure on a value in the middle of an expression and
//! get the value back.
//!
//! A tap takes ownership of the value, lends it (or a part of it) to a closure
//! for the closure's effects, drops whatever the closure returns, and returns the
//! value. [`TapOps`] does so for every type and always calls the closure. The
//! other traits call it only when the value is in one particular variant:
//! [`TapBooleanOps`] for `bool`, [`TapOptionOps`] for `Option`, [`TapResultOps`]
//! for `Result`, [`TapFutureOps`] for the outcome of polling a future and
//! [`TapNomOps`] for the result of a nom parser.
//!
//! The contracts have one shape throughout. A trait method's `requires` asks
//! that the closure be callable on the payload of the variant that the tap waits
//! for, and asks nothing for any other variant: there the closure cannot be
//! called, since nothing says that it may be. Each trait promises of every
//! implementor that a tap leaves the variant as it was. The implementation for
//! the type at hand then says exactly what comes back: on the variant that the
//! tap waits for, the closure was called on the payload and the value returned
//! holds what the closure left behind; on any other, the value comes back as it
//! went in.

use vstd::prelude::*;

pub mod closure;
pub mod future;
pub mod parser;

pub use crate::future::TapFutureOps;
pub use crate::parser::TapNomOps;

use crate::closure::{callable, callable_on, called};

verus! {

/// Tap operations for all types.
pub trait TapOps: Sized {
    /// Calls `f` once on `self` and returns `self` as `f` left it.
    fn tap<R, F>(self, f: F) -> Self where F: FnOnce(&mut Self) -> R
        requires
            callable_on(f, self),
    ;
}

impl<T> TapOps for T where T: Sized {
    fn tap<R, F>(self, f: F) -> (out: Self) where F: FnOnce(&mut Self) -> R
        ensures
            exists|r: &mut Self, ret: R|
                *r == self && *final(r) == out && call_ensures(f, (r,), ret),
    {
        let mut value = self;
        let _ = f(&mut value);
        value
    }
}

/// Whether `tap_true` calls its closure on `b`.
pub open spec fn tap_true_fires(b: bool) -> bool {
    b
}

/// Whether `tap_false` calls its closure on `b`.
pub open spec fn tap_false_fires(b: bool) -> bool {
    !b
}

/// Tap operations for `bool`.
pub trait TapBooleanOps: Sized {
    /// The boolean that the taps branch on.
    spec fn as_bool(self) -> bool;

    /// Calls `f` if `self` is `true`, and returns `self`.
    fn tap_true<R, F: FnOnce() -> R>(self, f: F) -> (out: Self)
        requires
            tap_true_fires(self.as_bool()) ==> callable(f),
        ensures
            out.as_bool() == self.as_bool(),
    ;

    /// Calls `f` if `self` is `false`, and returns `self`.
    fn tap_false<R, F: FnOnce() -> R>(self, f: F) -> (out: Self)
        requires
            tap_false_fires(self.as_bool()) ==> callable(f),
        ensures
            out.as_bool() == self.as_bool(),
    ;
}

impl TapBooleanOps for bool {
    open spec fn as_bool(self) -> bool {
        self
    }

    fn tap_true<R, F: FnOnce() -> R>(self, f: F) -> (out: Self)
        ensures
            out == self,
            tap_true_fires(self) ==> called(f),
    {
        if self {
            let _ = f();
        }
        self
    }

    fn tap_false<R, F: FnOnce() -> R>(self, f: F) -> (out: Self)
        ensures
            out == self,
            tap_false_fires(self) ==> called(f),
    {
        if !self {
            let _ = f();
        }
        self
    }
}

/// On every boolean exactly one of `tap_true` and `tap_false` calls its closure:
/// `tap_true` on `true`, `tap_false` on `false`.
pub proof fn lemma_boolean_taps_exclusive(b: bool)
    ensures
        tap_true_fires(b) <==> b == true,
        tap_false_fires(b) <==> b == false,
        tap_true_fires(b) != tap_false_fires(b),
{
}

/// Whether `tap_some` calls its closure on `opt`.
pub open spec fn tap_some_fires<T>(opt: Option<T>) -> bool {
    opt is Some
}

/// Whether `tap_none` calls its closure on `opt`.
pub open spec fn tap_none_fires<T>(opt: Option<T>) -> bool {
    opt is None
}

/// Tap operations for `Option`.
pub trait TapOptionOps<T>: Sized {
    /// The optional value that the taps branch on.
    spec fn as_option(self) -> Option<T>;

    /// Calls `f` on the contained value if `self` is `Some`, and returns `self`
    /// with the value as `f` left it.
    fn tap_some<R, F: FnOnce(&mut T) -> R>(self, f: F) -> (out: Self)
        requires
            tap_some_fires(self.as_option()) ==> callable_on(f, self.as_option()->0),
        ensures
            out.as_option() is Some <==> self.as_option() is Some,
    ;

    /// Calls `f` if `self` is `None`, and returns `self`.
    fn tap_none<R, F: FnOnce() -> R>(self, f: F) -> (out: Self)
        requires
            tap_none_fires(self.as_option()) ==> callable(f),
        ensures
            out.as_option() is Some <==> self.as_option() is Some,
    ;
}

impl<T> TapOptionOps<T> for Option<T> {
    open spec fn as_option(self) -> Option<T> {
        self
    }

    fn tap_some<R, F: FnOnce(&mut T) -> R>(self, f: F) -> (out: Self)
        ensures
            tap_some_fires(self) ==> exists|r: &mut T, ret: R|
                *r == self->0 && out == Some(*final(r)) && call_ensures(f, (r,), ret),
            !tap_some_fires(self) ==> out == self,
    {
        let mut opt = self;
        if let Some(val) = opt.as_mut() {
            let _ = f(val);
        }
        opt
    }

    fn tap_none<R, F: FnOnce() -> R>(self, f: F) -> (out: Self)
        ensures
            out == self,
            tap_none_fires(self) ==> called(f),
    {
        if self.is_none() {
            let _ = f();
        }
        self
    }
}

/// On every optional value exactly one of `tap_some` and `tap_none` calls its
/// closure: `tap_some` when a value is present, `tap_none` when none is.
pub proof fn lemma_option_taps_exclusive<T>(opt: Option<T>)
    ensures
        tap_some_fires(opt) <==> opt is Some,
        tap_none_fires(opt) <==> opt is None,
        tap_some_fires(opt) != tap_none_fires(opt),
{
}

/// Whether `tap_ok` calls its closure on `res`.
pub open spec fn tap_ok_fires<T, E>(res: Result<T, E>) -> bool {
    res is Ok
}

/// Whether `tap_err` calls its closure on `res`.
pub open spec fn tap_err_fires<T, E>(res: Result<T, E>) -> bool {
    res is Err
}

/// Tap operations for `Result`.
pub trait TapResultOps<T, E>: Sized {
    /// The result that the taps branch on.
    spec fn as_result(self) -> Result<T, E>;

    /// Calls `f` on the success value if `self` is `Ok`, and returns `self` with
    /// the value as `f` left it.
    fn tap_ok<R, F: FnOnce(&mut T) -> R>(self, f: F) -> (out: Self)
        requires
            tap_ok_fires(self.as_result()) ==> callable_on(f, self.as_result()->Ok_0),
        ensures
            out.as_result() is Ok <==> self.as_result() is Ok,
    ;

    /// Calls `f` on the error value if `self` is `Err`, and returns `self` with
    /// the value as `f` left it.
    fn tap_err<R, F: FnOnce(&mut E) -> R>(self, f: F) -> (out: Self)
        requires
            tap_err_fires(self.as_result()) ==> callable_on(f, self.as_result()->Err_0),
        ensures
            out.as_result() is Ok <==> self.as_result() is Ok,
    ;
}

impl<T, E> TapResultOps<T, E> for Result<T, E> {
    open spec fn as_result(self) -> Result<T, E> {
        self
    }

    fn tap_ok<R, F: FnOnce(&mut T) -> R>(self, f: F) -> (out: Self)
        ensures
            tap_ok_fires(self) ==> exists|r: &mut T, ret: R|
                *r == self->Ok_0 && out == Ok::<T, E>(*final(r)) && call_ensures(f, (r,), ret),
            !tap_ok_fires(self) ==> out == self,
    {
        let mut res = self;
        if let Ok(val) = &mut res {
            let _ = f(val);
        }
        res
    }

    fn tap_err<R, F: FnOnce(&mut E) -> R>(self, f: F) -> (out: Self)
        ensures
            tap_err_fires(self) ==> exists|r: &mut E, ret: R|
                *r == self->Err_0 && out == Err::<T, E>(*final(r)) && call_ensures(f, (r,), ret),
            !tap_err_fires(self) ==> out == self,
    {
        let mut res = self;
        if let Err(val) = &mut res {
            let _ = f(val);
        }
        res
    }
}

/// On every result exactly one of `tap_ok` and `tap_err` calls its closure:
/// `tap_ok` on a success, `tap_err` on a failure.
pub proof fn lemma_result_taps_exclusive<T, E>(res: Result<T, E>)
    ensures
        tap_ok_fires(res) <==> res is Ok,
        tap_err_fires(res) <==> res is Err,
        tap_ok_fires(res) != tap_err_fires(res),
{
}

} // verus!
