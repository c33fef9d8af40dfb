//! Unit hydrographs: the S-curves, the kernels derived from them and the
//! sliding convolution buffers that route effective rainfall through them.
use vstd::prelude::*;

use crate::scalar::{spec_one, spec_zero, zero, Scalar};

verus! {

/// `0` up to `t = 0`, `(t / x4)^2.5` before `x4`, `1` from there on.
pub open spec fn s1_spec<T: Scalar>(t: T, x4: T) -> T {
    if t.spec_le(spec_zero()) {
        spec_zero()
    } else if t.spec_lt(x4) {
        t.spec_div(x4).spec_powf(T::spec_ratio(5, 2))
    } else {
        spec_one()
    }
}

/// `0` up to `t = 0`, `0.5 (t / x4)^2.5` before `x4`,
/// `1 - 0.5 (2 - t / x4)^2.5` before `2 x4`, `1` from there on.
pub open spec fn s2_spec<T: Scalar>(t: T, x4: T) -> T {
    let half = T::spec_ratio(1, 2);
    let exponent = T::spec_ratio(5, 2);
    if t.spec_le(spec_zero()) {
        spec_zero()
    } else if t.spec_lt(x4) {
        half.spec_mul(t.spec_div(x4).spec_powf(exponent))
    } else if t.spec_lt(T::spec_ratio(2, 1).spec_mul(x4)) {
        spec_one::<T>().spec_sub(
            half.spec_mul(T::spec_ratio(2, 1).spec_sub(t.spec_div(x4)).spec_powf(exponent)),
        )
    } else {
        spec_one()
    }
}

/// Cumulative mass of the slow unit hydrograph at time `t` for time base `x4`.
pub fn s_curves1<T: Scalar>(t: T, x4: T) -> (r: T)
    ensures
        r == s1_spec(t, x4),
{
    if t.le(zero()) {
        zero()
    } else if t.lt(x4) {
        t.div(x4).powf(T::ratio(5, 2))
    } else {
        T::ratio(1, 1)
    }
}

/// Cumulative mass of the fast unit hydrograph at time `t` for time base `x4`.
pub fn s_curves2<T: Scalar>(t: T, x4: T) -> (r: T)
    ensures
        r == s2_spec(t, x4),
{
    let half = T::ratio(1, 2);
    let exponent = T::ratio(5, 2);
    if t.le(zero()) {
        zero()
    } else if t.lt(x4) {
        half.mul(t.div(x4).powf(exponent))
    } else if t.lt(T::ratio(2, 1).mul(x4)) {
        T::ratio(1, 1).sub(half.mul(T::ratio(2, 1).sub(t.div(x4)).powf(exponent)))
    } else {
        T::ratio(1, 1)
    }
}

/// Which of the two unit hydrographs a kernel belongs to.
#[derive(Clone, Copy, Debug, PartialEq, Eq, Structural)]
pub enum Branch {
    /// The slow branch, of time base `x4`.
    Slow,
    /// The fast branch, of time base `2 x4`.
    Fast,
}

pub open spec fn s_curve_spec<T: Scalar>(branch: Branch, t: T, x4: T) -> T {
    match branch {
        Branch::Slow => s1_spec(t, x4),
        Branch::Fast => s2_spec(t, x4),
    }
}

/// Cumulative mass of the branch's unit hydrograph at time `t`.
pub fn s_curve<T: Scalar>(branch: Branch, t: T, x4: T) -> (r: T)
    ensures
        r == s_curve_spec(branch, t, x4),
{
    match branch {
        Branch::Slow => s_curves1(t, x4),
        Branch::Fast => s_curves2(t, x4),
    }
}

/// `ceil(x4)` ordinates for the slow branch, `ceil(2 x4)` for the fast one.
pub open spec fn kernel_lengths_spec<T: Scalar>(x4: T) -> (usize, usize) {
    (x4.spec_ceil_count(), T::spec_ratio(2, 1).spec_mul(x4).spec_ceil_count())
}

/// Number of ordinates of the two kernels for time base `x4`.
pub fn kernel_lengths<T: Scalar>(x4: T) -> (r: (usize, usize))
    ensures
        r == kernel_lengths_spec(x4),
{
    (x4.ceil_count(), T::ratio(2, 1).mul(x4).ceil_count())
}

/// Ordinate `i` of a branch's kernel: the mass of the S-curve between times
/// `i` and `i + 1`.
pub open spec fn ordinate_spec<T: Scalar>(branch: Branch, x4: T, i: int) -> T {
    s_curve_spec(branch, T::spec_from_count((i + 1) as usize), x4).spec_sub(
        s_curve_spec(branch, T::spec_from_count(i as usize), x4),
    )
}

/// The first `n` ordinates of a branch's kernel.
pub open spec fn ordinates_spec<T: Scalar>(branch: Branch, x4: T, n: nat) -> Seq<T> {
    Seq::new(n, |i: int| ordinate_spec(branch, x4, i))
}

/// The kernel of a branch for time base `x4`, of its full length.
pub open spec fn kernel_spec<T: Scalar>(branch: Branch, x4: T) -> Seq<T> {
    match branch {
        Branch::Slow => ordinates_spec(branch, x4, kernel_lengths_spec(x4).0 as nat),
        Branch::Fast => ordinates_spec(branch, x4, kernel_lengths_spec(x4).1 as nat),
    }
}

/// The first `n` ordinates of a branch's kernel.
pub fn ordinates<T: Scalar>(branch: Branch, x4: T, n: usize) -> (r: Vec<T>)
    ensures
        r@ == ordinates_spec(branch, x4, n as nat),
{
    let mut r: Vec<T> = Vec::with_capacity(n);
    let mut t: usize = 0;
    while t < n
        invariant
            t <= n,
            r@ == ordinates_spec(branch, x4, t as nat),
        decreases n - t,
    {
        let upper = s_curve(branch, T::from_count(t + 1), x4);
        let lower = s_curve(branch, T::from_count(t), x4);
        r.push(upper.sub(lower));
        t += 1;
        assert(r@ =~= ordinates_spec(branch, x4, t as nat));
    }
    r
}

/// Slot `i` of a buffer after one step of the convolution with input `q`.
pub open spec fn convolve_slot<T: Scalar>(uh: Seq<T>, ordinates: Seq<T>, q: T, i: int) -> T {
    if i < uh.len() - 1 {
        if i < ordinates.len() {
            uh[i + 1].spec_add(ordinates[i].spec_mul(q))
        } else {
            uh[i + 1]
        }
    } else if ordinates.len() > 0 {
        ordinates.last().spec_mul(q)
    } else {
        uh[i]
    }
}

/// A buffer after one step of the convolution with input `q`: slot `i` takes
/// slot `i + 1` plus `ordinates[i] * q` (only slot `i + 1` past the kernel);
/// the last slot takes the last ordinate times `q` (keeps its value for an
/// empty kernel).
pub open spec fn convolve_spec<T: Scalar>(uh: Seq<T>, ordinates: Seq<T>, q: T) -> Seq<T> {
    Seq::new(uh.len(), |i: int| convolve_slot(uh, ordinates, q, i))
}

/// Moves a convolution buffer one step forward and adds the contribution of
/// a new input `q`. Afterwards slot `0` holds what is due at this step.
pub fn convolve<T: Scalar>(uh: &mut Vec<T>, ordinates: &Vec<T>, q: T)
    ensures
        final(uh)@ == convolve_spec(old(uh)@, ordinates@, q),
{
    let len = uh.len();
    if len == 0 {
        assert(uh@ =~= convolve_spec(old(uh)@, ordinates@, q));
        return;
    }
    let mut i: usize = 0;
    while i + 1 < len
        invariant
            uh@.len() == len,
            len == old(uh)@.len(),
            i < len,
            forall|k: int|
                0 <= k < i ==> #[trigger] uh@[k] == convolve_slot(old(uh)@, ordinates@, q, k),
            forall|k: int| i <= k < len ==> uh@[k] == old(uh)@[k],
        decreases len - i,
    {
        let next = uh[i + 1];
        let value = if i < ordinates.len() {
            next.add(ordinates[i].mul(q))
        } else {
            next
        };
        uh[i] = value;
        i += 1;
    }
    let n = ordinates.len();
    if n > 0 {
        uh[len - 1] = ordinates[n - 1].mul(q);
    }
    assert(uh@ =~= convolve_spec(old(uh)@, ordinates@, q));
}

} // verus!
