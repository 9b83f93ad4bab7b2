//! Checked floating-point wrappers.
//!
//! [`Real`] never holds NaN, [`Finite`] never holds NaN or an infinity, and
//! [`NonNeg`] never holds NaN or a number with a negative sign. All three are
//! projections of one engine, [`check::Checked`], onto a validity rule.
//!
//! The raw number type is a parameter. The crate reads it only through the
//! traits of [`ops`], through [`IsNan`] and [`IsFinite`], and through
//! [`ToOrd`]. [`Binary32`] and [`Binary64`] carry an IEEE-754 value as its bit
//! pattern and implement those of the traits that the bits alone decide.
use vstd::prelude::*;

pub mod bits;
pub mod check;
pub mod finite;
pub mod laws;
pub mod non_neg;
pub mod not_nan;
pub mod num;
pub mod ops;

pub use bits::{Binary32, Binary64, ToOrd};
pub use check::STRICT;
pub use finite::{Finite, InfiniteError, IsFinite};
pub use non_neg::{IsNegative, NegativeError, NonNeg};
pub use not_nan::{IsNan, NanError, Real};
pub use num::FromStrError;

verus! {

/// Unwraps a checked number, and hands a raw one back as it is, so that an
/// operation can take either.
pub trait IntoInner<F>: Sized {
    /// The raw number inside.
    spec fn inner_spec(self) -> F;

    fn into_inner(self) -> (r: F)
        ensures
            r == self.inner_spec(),
    ;
}

impl<F> IntoInner<F> for F {
    open spec fn inner_spec(self) -> F {
        self
    }

    fn into_inner(self) -> (r: F) {
        self
    }
}

} // verus!
