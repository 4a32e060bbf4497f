//! Vocabulary for contracts that speak of a closure which is called at most once.
//!
//! A tap hands its closure either nothing, a shared view of a payload or a
//! mutable view of one. The predicates below say, for each of these shapes, when
//! the closure may be called and what a call leaves behind.

use vstd::prelude::*;

verus! {

/// The closure `f`, which takes no argument, may be called.
pub open spec fn callable<R, F: FnOnce() -> R>(f: F) -> bool {
    call_requires(f, ())
}

/// A call of `f` has returned: some value meets its postcondition.
pub open spec fn called<R, F: FnOnce() -> R>(f: F) -> bool {
    exists|ret: R| call_ensures(f, (), ret)
}

/// The closure `f` may be called with a shared view of `v`.
pub open spec fn callable_with<T, R, F: FnOnce(&T) -> R>(f: F, v: T) -> bool {
    call_requires(f, (&v,))
}

/// A call of `f` with a shared view of `v` has returned.
pub open spec fn called_with<T, R, F: FnOnce(&T) -> R>(f: F, v: T) -> bool {
    exists|ret: R| call_ensures(f, (&v,), ret)
}

/// The closure `f` may be called with a mutable view of a place that holds `v`.
pub open spec fn callable_on<T, R, F: FnOnce(&mut T) -> R>(f: F, v: T) -> bool {
    forall|r: &mut T| *r == v ==> call_requires(f, (r,))
}

/// The closure `f` may be called with mutable views of two places that hold
/// `a` and `b`.
pub open spec fn callable_on_pair<A, B, R, F: FnOnce((&mut A, &mut B)) -> R>(
    f: F,
    a: A,
    b: B,
) -> bool {
    forall|ra: &mut A, rb: &mut B| *ra == a && *rb == b ==> call_requires(f, ((ra, rb),))
}

} // verus!
