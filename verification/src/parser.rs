//! Taps on the result of a nom parser.

use vstd::prelude::*;
use nom::{ErrorKind, IResult, Needed};
use crate::closure::{callable_on, callable_on_pair};

verus! {

/// `nom::IResult`, with its three variants as the crate declares them:
/// `Done(I, O)`, `Error(Err<E>)` and `Incomplete(Needed)`. Nothing is assumed of
/// it: Verus reads the definition.
#[verifier::external_type_specification]
#[verifier::reject_recursive_types(E)]
pub struct ExIResult<I, O, E>(IResult<I, O, E>);

/// `nom::ErrorKind`, which `nom::Err` names when nom is built without verbose
/// errors. The taps hand it to the closure and never look inside.
#[verifier::external_type_specification]
#[verifier::external_body]
#[verifier::reject_recursive_types(E)]
pub struct ExErrorKind<E>(ErrorKind<E>);

/// `nom::Needed`. The taps hand it to the closure and never look inside.
#[verifier::external_type_specification]
#[verifier::external_body]
pub struct ExNeeded(Needed);

/// Whether `tap_done` calls its closure on `res`.
pub open spec fn tap_done_fires<I, O, E>(res: IResult<I, O, E>) -> bool {
    res matches IResult::Done(_, _)
}

/// Whether `tap_error` calls its closure on `res`.
pub open spec fn tap_error_fires<I, O, E>(res: IResult<I, O, E>) -> bool {
    res matches IResult::Error(_)
}

/// Whether `tap_incomplete` calls its closure on `res`.
pub open spec fn tap_incomplete_fires<I, O, E>(res: IResult<I, O, E>) -> bool {
    res matches IResult::Incomplete(_)
}

/// The input that a finished parse left unread.
pub open spec fn remaining<I, O, E>(res: IResult<I, O, E>) -> I
    recommends
        tap_done_fires(res),
{
    match res {
        IResult::Done(rest, _) => rest,
        _ => arbitrary(),
    }
}

/// The value that a finished parse produced.
pub open spec fn output<I, O, E>(res: IResult<I, O, E>) -> O
    recommends
        tap_done_fires(res),
{
    match res {
        IResult::Done(_, value) => value,
        _ => arbitrary(),
    }
}

/// The error of a failed parse.
pub open spec fn error<I, O, E>(res: IResult<I, O, E>) -> nom::Err<E>
    recommends
        tap_error_fires(res),
{
    match res {
        IResult::Error(err) => err,
        _ => arbitrary(),
    }
}

/// How much more input an incomplete parse asks for.
pub open spec fn needed<I, O, E>(res: IResult<I, O, E>) -> Needed
    recommends
        tap_incomplete_fires(res),
{
    match res {
        IResult::Incomplete(n) => n,
        _ => arbitrary(),
    }
}

/// The two results are in the same variant.
pub open spec fn same_variant<I, O, E>(a: IResult<I, O, E>, b: IResult<I, O, E>) -> bool {
    &&& tap_done_fires(a) <==> tap_done_fires(b)
    &&& tap_error_fires(a) <==> tap_error_fires(b)
    &&& tap_incomplete_fires(a) <==> tap_incomplete_fires(b)
}

/// Tap operations for nom's `IResult`.
pub trait TapNomOps<I, O, E>: Sized {
    /// The parse result that the taps branch on.
    spec fn as_parse(self) -> IResult<I, O, E>;

    /// Calls `f` if `self` is `IResult::Done`, and returns `self` with both fields
    /// as `f` left them.
    ///
    /// The closure receives a tuple of (unparsed input, parsed output).
    fn tap_done<R, F: FnOnce((&mut I, &mut O)) -> R>(self, f: F) -> (out: Self)
        requires
            tap_done_fires(self.as_parse()) ==> callable_on_pair(
                f,
                remaining(self.as_parse()),
                output(self.as_parse()),
            ),
        ensures
            same_variant(out.as_parse(), self.as_parse()),
    ;

    /// Calls `f` on the error if `self` is `IResult::Error`, and returns `self`
    /// with the error as `f` left it.
    fn tap_error<R, F: FnOnce(&mut nom::Err<E>) -> R>(self, f: F) -> (out: Self)
        requires
            tap_error_fires(self.as_parse()) ==> callable_on(f, error(self.as_parse())),
        ensures
            same_variant(out.as_parse(), self.as_parse()),
    ;

    /// Calls `f` on the needed amount if `self` is `IResult::Incomplete`, and
    /// returns `self` with the amount as `f` left it.
    fn tap_incomplete<R, F: FnOnce(&mut Needed) -> R>(self, f: F) -> (out: Self)
        requires
            tap_incomplete_fires(self.as_parse()) ==> callable_on(f, needed(self.as_parse())),
        ensures
            same_variant(out.as_parse(), self.as_parse()),
    ;
}

impl<I, O, E> TapNomOps<I, O, E> for IResult<I, O, E> {
    open spec fn as_parse(self) -> IResult<I, O, E> {
        self
    }

    fn tap_done<R, F: FnOnce((&mut I, &mut O)) -> R>(self, f: F) -> (out: Self)
        ensures
            tap_done_fires(self) ==> exists|ri: &mut I, ro: &mut O, ret: R|
                *ri == remaining(self) && *ro == output(self)
                    && out == IResult::<I, O, E>::Done(*final(ri), *final(ro))
                    && call_ensures(f, ((ri, ro),), ret),
            !tap_done_fires(self) ==> out == self,
    {
        let mut res = self;
        if let IResult::Done(rem, val) = &mut res {
            let _ = f((rem, val));
        }
        res
    }

    fn tap_error<R, F: FnOnce(&mut nom::Err<E>) -> R>(self, f: F) -> (out: Self)
        ensures
            tap_error_fires(self) ==> exists|r: &mut nom::Err<E>, ret: R|
                *r == error(self) && out == IResult::<I, O, E>::Error(*final(r))
                    && call_ensures(f, (r,), ret),
            !tap_error_fires(self) ==> out == self,
    {
        let mut res = self;
        if let IResult::Error(err) = &mut res {
            let _ = f(err);
        }
        res
    }

    fn tap_incomplete<R, F: FnOnce(&mut Needed) -> R>(self, f: F) -> (out: Self)
        ensures
            tap_incomplete_fires(self) ==> exists|r: &mut Needed, ret: R|
                *r == needed(self) && out == IResult::<I, O, E>::Incomplete(*final(r))
                    && call_ensures(f, (r,), ret),
            !tap_incomplete_fires(self) ==> out == self,
    {
        let mut res = self;
        if let IResult::Incomplete(needed) = &mut res {
            let _ = f(needed);
        }
        res
    }
}

/// Every parse result makes exactly one of `tap_done`, `tap_error` and
/// `tap_incomplete` call its closure: the one that waits for the result's
/// variant.
pub proof fn lemma_parse_taps_exclusive<I, O, E>(res: IResult<I, O, E>)
    ensures
        tap_done_fires(res) <==> res == IResult::<I, O, E>::Done(remaining(res), output(res)),
        tap_error_fires(res) <==> res == IResult::<I, O, E>::Error(error(res)),
        tap_incomplete_fires(res) <==> res == IResult::<I, O, E>::Incomplete(needed(res)),
        tap_done_fires(res) || tap_error_fires(res) || tap_incomplete_fires(res),
        !(tap_done_fires(res) && tap_error_fires(res)),
        !(tap_done_fires(res) && tap_incomplete_fires(res)),
        !(tap_error_fires(res) && tap_incomplete_fires(res)),
{
}

/// On a finished parse that left `rest` unread and produced `value`, `tap_done`
/// calls its closure, and calls it with exactly that pair; `tap_error` and
/// `tap_incomplete` do not call theirs.
pub proof fn lemma_done_result<I, O, E>(rest: I, value: O)
    ensures
        tap_done_fires(IResult::<I, O, E>::Done(rest, value)),
        remaining(IResult::<I, O, E>::Done(rest, value)) == rest,
        output(IResult::<I, O, E>::Done(rest, value)) == value,
        !tap_error_fires(IResult::<I, O, E>::Done(rest, value)),
        !tap_incomplete_fires(IResult::<I, O, E>::Done(rest, value)),
{
}

/// On a parse that failed with `err` only `tap_error` calls its closure, and
/// calls it with `err`.
pub proof fn lemma_error_result<I, O, E>(err: nom::Err<E>)
    ensures
        tap_error_fires(IResult::<I, O, E>::Error(err)),
        error(IResult::<I, O, E>::Error(err)) == err,
        !tap_done_fires(IResult::<I, O, E>::Error(err)),
        !tap_incomplete_fires(IResult::<I, O, E>::Error(err)),
{
}

/// On a parse that asks for `n` more input only `tap_incomplete` calls its
/// closure, and calls it with `n`.
pub proof fn lemma_incomplete_result<I, O, E>(n: Needed)
    ensures
        tap_incomplete_fires(IResult::<I, O, E>::Incomplete(n)),
        needed(IResult::<I, O, E>::Incomplete(n)) == n,
        !tap_done_fires(IResult::<I, O, E>::Incomplete(n)),
        !tap_error_fires(IResult::<I, O, E>::Incomplete(n)),
{
}

} // verus!
