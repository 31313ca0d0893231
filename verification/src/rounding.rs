//! What rounding to the nearest nanometre can and cannot change.
//!
//! Scaling a length by a ratio rounds once.  These lemmas bound what is lost:
//! a point placed at a unit bearing stays by its circle, and a length turned
//! by an angle and turned back returns to itself.
use crate::units::{is_unit_pair, nearest_ratio, scaled, ONE};
use vstd::arithmetic::div_mod::lemma_fundamental_div_mod;
use vstd::prelude::*;

verus! {

/// Rounding to the nearest nanometre moves a scaled length by no more than
/// half a nanometre.
pub proof fn scaled_is_nearest(length: int, ratio: int)
    ensures
        -ONE < 2 * (ONE * scaled(length, ratio) - length * ratio) <= ONE,
{
    let n = length * ratio;
    lemma_fundamental_div_mod(n + ONE / 2, ONE as int);
}

/// The square of a scaled length, written out: with `e` the rounding error
/// `ONE * scaled(length, ratio) - length * ratio`, the square of
/// `ONE * scaled(length, ratio)` is that of `length * ratio + e`.
proof fn scaled_square_expands(length: int, ratio: int, q: int, e: int)
    requires
        e == ONE * q - length * ratio,
    ensures
        ONE * ONE * (q * q) == length * length * (ratio * ratio) + 2 * length * (ratio * e) + e
            * e,
{
    let one = ONE as int;
    let a = one * q;
    let p = length * ratio;
    assert(a * a == p * p + 2 * (p * e) + e * e) by (nonlinear_arith)
        requires
            a == p + e,
    ;
    assert(p * p == length * length * (ratio * ratio)) by (nonlinear_arith)
        requires
            p == length * ratio,
    ;
    assert(2 * (p * e) == 2 * length * (ratio * e)) by (nonlinear_arith)
        requires
            p == length * ratio,
    ;
    assert(a * a == one * one * (q * q)) by (nonlinear_arith)
        requires
            a == one * q,
    ;
}

/// A point at a unit bearing from the origin, scaled to a radius, lies within
/// two nanometres of the circle of that radius.
pub proof fn scaled_bearing_lies_by_the_circle(radius: int, cos: int, sin: int)
    requires
        3 <= radius <= ONE - 3,
        is_unit_pair(cos, sin),
    ensures
        (radius - 2) * (radius - 2) <= scaled(radius, cos) * scaled(radius, cos) + scaled(
            radius,
            sin,
        ) * scaled(radius, sin) <= (radius + 2) * (radius + 2),
{
    let one = ONE as int;
    let x = scaled(radius, cos);
    let y = scaled(radius, sin);
    let e1 = one * x - radius * cos;
    let e2 = one * y - radius * sin;
    scaled_is_nearest(radius, cos);
    scaled_is_nearest(radius, sin);
    scaled_square_expands(radius, cos, x, e1);
    scaled_square_expands(radius, sin, y, e2);
    let rr = radius * radius;
    let cc = cos * cos;
    let ss = sin * sin;
    let d = cc + ss - one * one;
    let ce = cos * e1;
    let se = sin * e2;
    let square = x * x + y * y;
    // ONE^2 (x^2 + y^2) = r^2 (ONE^2 + d) + 2 r (cos e1 + sin e2) + e1^2 + e2^2
    assert(rr * cc + rr * ss == rr * (one * one) + rr * d) by (nonlinear_arith)
        requires
            d == cc + ss - one * one,
    ;
    // each error term is small
    assert(-(one * one) <= 2 * ce <= one * one) by (nonlinear_arith)
        requires
            -one <= cos <= one,
            -one <= 2 * e1 <= one,
            ce == cos * e1,
    ;
    assert(-(one * one) <= 2 * se <= one * one) by (nonlinear_arith)
        requires
            -one <= sin <= one,
            -one <= 2 * e2 <= one,
            se == sin * e2,
    ;
    assert(0 <= 4 * (e1 * e1) <= one * one) by (nonlinear_arith)
        requires
            -one <= 2 * e1 <= one,
    ;
    assert(0 <= 4 * (e2 * e2) <= one * one) by (nonlinear_arith)
        requires
            -one <= 2 * e2 <= one,
    ;
    assert(-(2 * one * rr) <= rr * d <= 2 * one * rr) by (nonlinear_arith)
        requires
            -2 * one <= d <= 2 * one,
            rr >= 0,
    ;
    assert(-(radius * (one * one)) <= 2 * radius * ce <= radius * (one * one)) by (nonlinear_arith)
        requires
            -(one * one) <= 2 * ce <= one * one,
            radius >= 0,
    ;
    assert(-(radius * (one * one)) <= 2 * radius * se <= radius * (one * one)) by (nonlinear_arith)
        requires
            -(one * one) <= 2 * se <= one * one,
            radius >= 0,
    ;
    // the radius is small against ONE, so the error in r^2 stays below 2 r
    assert(2 * one * rr <= 2 * radius * (one * one) - 4 * (one * one)) by (nonlinear_arith)
        requires
            3 <= radius <= one - 3,
            rr == radius * radius,
            one == 1_000_000_000_000,
    ;
    assert(one * one * ((radius - 2) * (radius - 2)) == rr * (one * one) - 4 * radius * (one * one)
        + 4 * (one * one)) by (nonlinear_arith)
        requires
            rr == radius * radius,
    ;
    assert(one * one * ((radius + 2) * (radius + 2)) == rr * (one * one) + 4 * radius * (one * one)
        + 4 * (one * one)) by (nonlinear_arith)
        requires
            rr == radius * radius,
    ;
}

/// A length that is scaled by the cosine and by the sine of one angle, and
/// whose two parts are scaled by them again and added, comes back within a
/// nanometre of itself: turning forth and back changes nothing but by rounding.
pub proof fn turned_back_is_within_one(length: int, cos: int, sin: int)
    requires
        -4 * length < ONE,
        4 * length < ONE,
        is_unit_pair(cos, sin),
    ensures
        length - 1 <= nearest_ratio(cos * scaled(length, cos) + sin * scaled(length, sin))
            <= length + 1,
{
    let one = ONE as int;
    let a = scaled(length, cos);
    let b = scaled(length, sin);
    let f1 = one * a - length * cos;
    let f2 = one * b - length * sin;
    scaled_is_nearest(length, cos);
    scaled_is_nearest(length, sin);
    let n = cos * a + sin * b;
    let d = cos * cos + sin * sin - one * one;
    let cf = cos * f1;
    let sf = sin * f2;
    // ONE n = ONE^2 length + length d + cos f1 + sin f2
    let wide_a = one * a;
    let wide_b = one * b;
    let cc = cos * cos;
    let ss = sin * sin;
    assert(one * n == cos * wide_a + sin * wide_b) by (nonlinear_arith)
        requires
            n == cos * a + sin * b,
            wide_a == one * a,
            wide_b == one * b,
    ;
    assert(cos * wide_a == length * cc + cf) by (nonlinear_arith)
        requires
            wide_a == length * cos + f1,
            cc == cos * cos,
            cf == cos * f1,
    ;
    assert(sin * wide_b == length * ss + sf) by (nonlinear_arith)
        requires
            wide_b == length * sin + f2,
            ss == sin * sin,
            sf == sin * f2,
    ;
    assert(length * cc + length * ss == one * one * length + length * d) by (nonlinear_arith)
        requires
            d == cc + ss - one * one,
    ;
    assert(-(one * one) <= 2 * cf <= one * one) by (nonlinear_arith)
        requires
            -one <= cos <= one,
            -one <= 2 * f1 <= one,
            cf == cos * f1,
    ;
    assert(-(one * one) <= 2 * sf <= one * one) by (nonlinear_arith)
        requires
            -one <= sin <= one,
            -one <= 2 * f2 <= one,
            sf == sin * f2,
    ;
    assert(-(one * one) < 2 * (length * d) < one * one) by (nonlinear_arith)
        requires
            -one < 4 * length < one,
            -2 * one <= d <= 2 * one,
    ;
    // so n lies within one and a half of ONE length
    lemma_fundamental_div_mod(n + one / 2, one);
}

} // verus!
