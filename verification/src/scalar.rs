//! The scalar type that geometric inputs arrive in: an ordered fixed-point
//! number, an infinity (a ray's `t_max` may be unbounded), or an unorderable
//! value. Comparisons reject unorderable inputs with an explicit error
//! instead of aborting.

use vstd::prelude::*;

verus! {

/// A possibly-infinite, possibly-unorderable scalar.
#[derive(Clone, Copy, PartialEq, Eq, Structural, Debug)]
pub enum Scalar {
    /// An unorderable value; every comparison against it fails.
    Nan,
    /// Below every finite scalar.
    NegInf,
    /// An ordered fixed-point scalar (see `fx`).
    Finite(i64),
    /// Above every finite scalar.
    PosInf,
}

/// Error produced when a comparison meets an unorderable scalar.
#[derive(Clone, Copy, PartialEq, Eq, Structural, Debug)]
pub struct OrderError;

impl Scalar {
    pub open spec fn is_nan(self) -> bool {
        self is Nan
    }

    pub open spec fn is_finite(self) -> bool {
        self is Finite
    }

    /// The total order on orderable scalars; unorderable values compare
    /// below nothing and above nothing.
    pub open spec fn le_spec(self, other: Scalar) -> bool {
        match (self, other) {
            (Scalar::Nan, _) => false,
            (_, Scalar::Nan) => false,
            (Scalar::NegInf, _) => true,
            (_, Scalar::NegInf) => false,
            (Scalar::Finite(a), Scalar::Finite(b)) => a <= b,
            (_, Scalar::PosInf) => true,
            (Scalar::PosInf, _) => false,
        }
    }

    pub open spec fn lt_spec(self, other: Scalar) -> bool {
        self.le_spec(other) && self != other
    }

    /// Whether this scalar is at most `other`, both orderable.
    pub fn le(self, other: Scalar) -> (r: bool)
        requires
            !self.is_nan(),
            !other.is_nan(),
        ensures
            r == self.le_spec(other),
    {
        match (self, other) {
            (Scalar::Nan, _) => false,
            (_, Scalar::Nan) => false,
            (Scalar::NegInf, _) => true,
            (_, Scalar::NegInf) => false,
            (Scalar::Finite(a), Scalar::Finite(b)) => a <= b,
            (_, Scalar::PosInf) => true,
            (Scalar::PosInf, _) => false,
        }
    }

    /// Whether this scalar is strictly below `other`, both orderable.
    pub fn lt(self, other: Scalar) -> (r: bool)
        requires
            !self.is_nan(),
            !other.is_nan(),
        ensures
            r == self.lt_spec(other),
    {
        match (self, other) {
            (Scalar::Nan, _) => false,
            (_, Scalar::Nan) => false,
            (Scalar::NegInf, o) => !matches!(o, Scalar::NegInf),
            (_, Scalar::NegInf) => false,
            (Scalar::Finite(a), Scalar::Finite(b)) => a < b,
            (s, Scalar::PosInf) => !matches!(s, Scalar::PosInf),
            (Scalar::PosInf, _) => false,
        }
    }
}

/// The smaller of two scalars, or an explicit error if either is
/// unorderable. Never aborts on unorderable input.
pub fn min_partial_ord(x: Scalar, y: Scalar) -> (r: Result<Scalar, OrderError>)
    ensures
        (r is Ok) <==> (!x.is_nan() && !y.is_nan()),
        r is Ok ==> r->Ok_0 == (if x.le_spec(y) {
            x
        } else {
            y
        }),
{
    if matches!(x, Scalar::Nan) || matches!(y, Scalar::Nan) {
        Err(OrderError)
    } else if x.le(y) {
        Ok(x)
    } else {
        Ok(y)
    }
}

/// The larger of two scalars, or an explicit error if either is
/// unorderable. Never aborts on unorderable input.
pub fn max_partial_ord(x: Scalar, y: Scalar) -> (r: Result<Scalar, OrderError>)
    ensures
        (r is Ok) <==> (!x.is_nan() && !y.is_nan()),
        r is Ok ==> r->Ok_0 == (if y.le_spec(x) {
            x
        } else {
            y
        }),
{
    if matches!(x, Scalar::Nan) || matches!(y, Scalar::Nan) {
        Err(OrderError)
    } else if y.le(x) {
        Ok(x)
    } else {
        Ok(y)
    }
}

} // verus!
