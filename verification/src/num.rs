//! What is left to decide once a raw number has been parsed or converted
//! elsewhere: whether it may be wrapped.
use vstd::prelude::*;
use crate::check::STRICT;
use crate::finite::{Finite, InfiniteError, IsFinite};
use crate::not_nan::{IsNan, NanError, Real};

verus! {

/// Why a checked number could not be read from text: the text was no number
/// (`Parse`, with the parser's own error), or the number was not valid
/// (`Check`, with the error of the checked type).
#[derive(Debug)]
pub enum FromStrError<P, C> {
    Parse(P),
    Check(C),
}

impl<P, C> FromStrError<P, C> {
    /// The words that stand before the description of the error inside.
    pub fn prefix(&self) -> (text: &'static str)
        ensures
            self is Parse ==> text@ == "error parsing float: "@,
            self is Check ==> text@ == "error checking float: "@,
    {
        match self {
            FromStrError::Parse(_) => "error parsing float: ",
            FromStrError::Check(_) => "error checking float: ",
        }
    }
}

/// Whether `r` is what reading a [`Real`] gives after the parser answered
/// `parsed`: the parser's error passed on, or its number checked.
pub open spec fn real_read<F: IsNan, P>(
    parsed: Result<F, P>,
    r: Result<Real<F>, FromStrError<P, NanError>>,
) -> bool {
    match parsed {
        Err(e) => r == Err::<Real<F>, FromStrError<P, NanError>>(FromStrError::Parse(e)),
        Ok(val) => match r {
            Ok(v) => !val.is_nan_spec() && v@ == val,
            Err(e) => val.is_nan_spec() && e is Check,
        },
    }
}

/// Whether `r` is what reading a [`Finite`] gives after the parser answered
/// `parsed`.
pub open spec fn finite_read<F: IsFinite, P>(
    parsed: Result<F, P>,
    r: Result<Finite<F>, FromStrError<P, InfiniteError>>,
) -> bool {
    match parsed {
        Err(e) => r == Err::<Finite<F>, FromStrError<P, InfiniteError>>(FromStrError::Parse(e)),
        Ok(val) => match r {
            Ok(v) => val.is_finite_spec() && v@ == val,
            Err(e) => !val.is_finite_spec() && e is Check,
        },
    }
}

/// Finishes reading a [`Real`] from text: passes a parser's error on, and
/// checks a parsed number.
pub fn real_from_parsed<F: IsNan, P>(parsed: Result<F, P>) -> (r: Result<
    Real<F>,
    FromStrError<P, NanError>,
>)
    ensures
        real_read(parsed, r),
{
    match parsed {
        Err(e) => Err(FromStrError::Parse(e)),
        Ok(val) => match Real::try_new(val) {
            Ok(v) => Ok(v),
            Err(e) => Err(FromStrError::Check(e)),
        },
    }
}

/// Finishes reading a [`Finite`] from text: passes a parser's error on, and
/// checks a parsed number.
pub fn finite_from_parsed<F: IsFinite, P>(parsed: Result<F, P>) -> (r: Result<
    Finite<F>,
    FromStrError<P, InfiniteError>,
>)
    ensures
        finite_read(parsed, r),
{
    match parsed {
        Err(e) => Err(FromStrError::Parse(e)),
        Ok(val) => match Finite::try_new(val) {
            Ok(v) => Ok(v),
            Err(e) => Err(FromStrError::Check(e)),
        },
    }
}

/// Finishes a numeric cast into [`Real`]: a cast that gave no number gives
/// none, and one that gave NaN gives none either.
pub fn real_from_cast<F: IsNan>(cast: Option<F>) -> (r: Option<Real<F>>)
    ensures
        match r {
            Some(v) => cast == Some(v@) && !v@.is_nan_spec(),
            None => cast is None || cast->Some_0.is_nan_spec(),
        },
{
    match cast {
        None => None,
        Some(val) => match Real::try_new(val) {
            Ok(v) => Some(v),
            Err(_) => None,
        },
    }
}

/// Finishes a numeric cast into [`Finite`]: a cast that gave no number
/// gives none, and one that gave NaN or an infinity gives none either.
pub fn finite_from_cast<F: IsFinite>(cast: Option<F>) -> (r: Option<Finite<F>>)
    ensures
        match r {
            Some(v) => cast == Some(v@) && v@.is_finite_spec(),
            None => cast is None || !cast->Some_0.is_finite_spec(),
        },
{
    match cast {
        None => None,
        Some(val) => match Finite::try_new(val) {
            Ok(v) => Some(v),
            Err(_) => None,
        },
    }
}

/// Whether a [`Real`] is NaN. In strict mode the answer is no, and the
/// number is not looked at; in lenient mode the number answers.
pub fn real_is_nan<F: IsNan>(x: Real<F>) -> (r: bool)
    ensures
        r == (!STRICT && x@.is_nan_spec()),
{
    if STRICT {
        false
    } else {
        x.val().is_nan()
    }
}

} // verus!
