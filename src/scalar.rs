use vstd::prelude::*;

verus! {

/// The arithmetic a rainfall-runoff model is computed in.
///
/// Each operation has a spec counterpart of the same name with a `spec_`
/// prefix, which names its result. The counterparts have no body: the one
/// thing an implementation promises is that each operation is a function of
/// its arguments (the same arguments give the same result). The models'
/// contracts are stated over these names, so they fix every value a model
/// computes in terms of the elementary operations, whatever the arithmetic.
/// Implementations are expected to follow IEEE-754 double precision, each
/// method behaving as the operation of the same name on `f64`.
pub trait Scalar: Copy {
    spec fn spec_ratio(num: u32, den: u32) -> Self;

    spec fn spec_from_count(n: usize) -> Self;

    spec fn spec_add(self, other: Self) -> Self;

    spec fn spec_sub(self, other: Self) -> Self;

    spec fn spec_mul(self, other: Self) -> Self;

    spec fn spec_div(self, other: Self) -> Self;

    spec fn spec_powf(self, exponent: Self) -> Self;

    spec fn spec_tanh(self) -> Self;

    spec fn spec_min(self, other: Self) -> Self;

    spec fn spec_max(self, other: Self) -> Self;

    spec fn spec_lt(self, other: Self) -> bool;

    spec fn spec_le(self, other: Self) -> bool;

    spec fn spec_ceil_count(self) -> usize;

    /// The value `num / den`, rounded once.
    fn ratio(num: u32, den: u32) -> (r: Self)
        ensures
            r == Self::spec_ratio(num, den),
    ;

    /// The integer `n` as a scalar.
    fn from_count(n: usize) -> (r: Self)
        ensures
            r == Self::spec_from_count(n),
    ;

    fn add(self, other: Self) -> (r: Self)
        ensures
            r == self.spec_add(other),
    ;

    fn sub(self, other: Self) -> (r: Self)
        ensures
            r == self.spec_sub(other),
    ;

    fn mul(self, other: Self) -> (r: Self)
        ensures
            r == self.spec_mul(other),
    ;

    fn div(self, other: Self) -> (r: Self)
        ensures
            r == self.spec_div(other),
    ;

    /// `self` raised to the power `exponent`.
    fn powf(self, exponent: Self) -> (r: Self)
        ensures
            r == self.spec_powf(exponent),
    ;

    /// Hyperbolic tangent.
    fn tanh(self) -> (r: Self)
        ensures
            r == self.spec_tanh(),
    ;

    /// The smaller of two values, ignoring an undefined one.
    fn min(self, other: Self) -> (r: Self)
        ensures
            r == self.spec_min(other),
    ;

    /// The larger of two values, ignoring an undefined one.
    fn max(self, other: Self) -> (r: Self)
        ensures
            r == self.spec_max(other),
    ;

    /// `self < other`; false when either is undefined.
    fn lt(self, other: Self) -> (r: bool)
        ensures
            r == self.spec_lt(other),
    ;

    /// `self <= other`; false when either is undefined.
    fn le(self, other: Self) -> (r: bool)
        ensures
            r == self.spec_le(other),
    ;

    /// The smallest integer not below `self`, as a count: saturating at the
    /// bounds of `usize`, zero for an undefined value.
    fn ceil_count(self) -> (r: usize)
        ensures
            r == self.spec_ceil_count(),
    ;
}

/// Zero in the scalar type.
pub open spec fn spec_zero<T: Scalar>() -> T {
    T::spec_ratio(0, 1)
}

/// One in the scalar type.
pub open spec fn spec_one<T: Scalar>() -> T {
    T::spec_ratio(1, 1)
}

/// Zero in the scalar type.
pub fn zero<T: Scalar>() -> (r: T)
    ensures
        r == spec_zero::<T>(),
{
    T::ratio(0, 1)
}

} // verus!
