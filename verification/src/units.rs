//! Fixed-point units shared by the whole crate.
//!
//! Every length is a whole number of nanometres held in an `i64`, and every
//! dimensionless ratio (a sine, a cosine, a component of a unit vector) is a
//! whole number of parts per 10^12 held in an `i64`.  A three-vector is an
//! array of three such numbers, a point of the mask's local frame a pair.
use vstd::prelude::*;

verus! {

/// The ratio 1, in parts per 10^12.
pub const ONE: i64 = 1_000_000_000_000;

/// The largest coordinate, in nanometres, that the transforms of this crate
/// accept: 10^18 nm, a million kilometres.
pub const REACH: i64 = 1_000_000_000_000_000_000;

/// The quotient `n / ONE` rounded to the nearest integer, halves upward.
pub open spec fn nearest_ratio(n: int) -> int {
    (n + ONE / 2) / (ONE as int)
}

/// The length `length * ratio`, with `ratio` in parts per 10^12, rounded to the
/// nearest nanometre.
pub open spec fn scaled(length: int, ratio: int) -> int {
    nearest_ratio(length * ratio)
}

/// `ratio` lies between -1 and 1.
pub open spec fn is_ratio(ratio: int) -> bool {
    -ONE <= ratio <= ONE
}

/// `cos` and `sin` are the cosine and the sine of one angle as far as fixed
/// point can tell: each is a ratio, and their squares add up to 1 as nearly as
/// rounding each to the nearest part per 10^12 allows.
pub open spec fn is_unit_pair(cos: int, sin: int) -> bool {
    &&& is_ratio(cos)
    &&& is_ratio(sin)
    &&& -2 * ONE <= cos * cos + sin * sin - ONE * ONE <= 2 * ONE
}

/// The three coordinates of `v` as mathematical integers.
pub open spec fn coordinates(v: [i64; 3]) -> (int, int, int) {
    (v[0] as int, v[1] as int, v[2] as int)
}

/// Every coordinate of `v` lies within `REACH` of zero.
pub open spec fn within_reach(v: [i64; 3]) -> bool {
    &&& -REACH <= v[0] <= REACH
    &&& -REACH <= v[1] <= REACH
    &&& -REACH <= v[2] <= REACH
}

/// The squared length of `v` less the squared length of a unit vector, both in
/// parts per 10^24.
pub open spec fn unit_defect(v: [i64; 3]) -> int {
    v[0] * v[0] + v[1] * v[1] + v[2] * v[2] - ONE * ONE
}

/// `v` is a unit vector as far as fixed point can tell: each component is a
/// ratio and the squared length misses 1 by no more than rounding each
/// component to the nearest part per 10^12 can cause.
pub open spec fn is_unit(v: [i64; 3]) -> bool {
    &&& is_ratio(v[0] as int)
    &&& is_ratio(v[1] as int)
    &&& is_ratio(v[2] as int)
    &&& -2 * ONE <= unit_defect(v) <= 2 * ONE
}

/// The squared distance of the local point `p` from the local origin.
pub open spec fn norm_squared(p: (i64, i64)) -> int {
    p.0 * p.0 + p.1 * p.1
}

/// Rounds `n / ONE` to the nearest integer, halves upward.
pub fn round_ratio(n: i128) -> (q: i128)
    requires
        n + ONE / 2 <= i128::MAX,
    ensures
        q == nearest_ratio(n as int),
{
    let shifted: i128 = n + 500_000_000_000;
    let quotient: i128 = shifted / 1_000_000_000_000;
    let remainder: i128 = shifted % 1_000_000_000_000;
    if remainder < 0 {
        quotient - 1
    } else {
        quotient
    }
}

/// Scales `length` by `ratio`, to the nearest nanometre.
pub fn scale(length: i64, ratio: i64) -> (r: i64)
    requires
        i64::MIN < length,
        is_ratio(ratio as int),
    ensures
        r == scaled(length as int, ratio as int),
        -length <= r <= length || length <= r <= -length,
{
    assert(-(length * ONE) <= length * ratio <= length * ONE || length * ONE <= length * ratio
        <= -(length * ONE)) by (nonlinear_arith)
        requires
            -ONE <= ratio <= ONE,
    ;
    let product: i128 = (length as i128) * (ratio as i128);
    let q: i128 = round_ratio(product);
    q as i64
}

/// Whether every coordinate of `v` lies within `REACH` of zero.
pub fn in_reach(v: &[i64; 3]) -> (b: bool)
    ensures
        b == within_reach(*v),
{
    -REACH <= v[0] && v[0] <= REACH && -REACH <= v[1] && v[1] <= REACH && -REACH <= v[2] && v[2]
        <= REACH
}

/// The squared distance of `p` from the local origin.
pub fn squared_radius(p: (i64, i64)) -> (n: u128)
    ensures
        n == norm_squared(p),
{
    let x: i128 = p.0 as i128;
    let y: i128 = p.1 as i128;
    assert(0 <= x * x <= 0x8000_0000_0000_0000 * 0x8000_0000_0000_0000) by (nonlinear_arith)
        requires
            -0x8000_0000_0000_0000 <= x <= 0x8000_0000_0000_0000,
    ;
    assert(0 <= y * y <= 0x8000_0000_0000_0000 * 0x8000_0000_0000_0000) by (nonlinear_arith)
        requires
            -0x8000_0000_0000_0000 <= y <= 0x8000_0000_0000_0000,
    ;
    let xx: u128 = (x * x) as u128;
    let yy: u128 = (y * y) as u128;
    xx + yy
}

} // verus!
