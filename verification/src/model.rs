//! The mathematical model of the three disciplines.
//!
//! Everything here works on unbounded integers, so that the contracts of
//! the executable types can say what a value *is* without mentioning the
//! width of the machine type that stores it.
use vstd::arithmetic::div_mod::lemma_fundamental_div_mod;
use vstd::arithmetic::div_mod::lemma_fundamental_div_mod_converse;
use vstd::arithmetic::div_mod::lemma_mod_bound;
use vstd::arithmetic::div_mod::lemma_mod_multiples_vanish;
use vstd::arithmetic::div_mod::lemma_small_mod;
use vstd::prelude::*;

verus! {

/// `v` lies in the half-open range `min..max`.
pub open spec fn in_range(v: int, min: int, max: int) -> bool {
    min <= v < max
}

/// `v` lies in the closed range `min..=max`.
pub open spec fn in_closed_range(v: int, min: int, max: int) -> bool {
    min <= v <= max
}

/// The member of `min..max` that differs from `v` by a multiple of
/// `max - min`.
pub open spec fn wrap(v: int, min: int, max: int) -> int
    recommends
        min < max,
{
    min + (v - min) % (max - min)
}

/// `v` pinned to the nearest of the two bounds.
pub open spec fn clamp(v: int, min: int, max: int) -> int
    recommends
        min < max,
{
    if v >= max {
        max
    } else if v < min {
        min
    } else {
        v
    }
}

/// The quotient of `a` by `b` rounded toward zero, which is how the
/// primitive integer types divide.
pub open spec fn quotient(a: int, b: int) -> int
    recommends
        b != 0,
{
    if a >= 0 {
        a / b
    } else {
        -((-a) / b)
    }
}

/// What is left of `a` after taking out `quotient(a, b)` times `b`; it has
/// the sign of `a`.
pub open spec fn remainder(a: int, b: int) -> int
    recommends
        b != 0,
{
    if a >= 0 {
        a % b
    } else {
        -((-a) % b)
    }
}

/// What the minus operator of a wrapping integer computes: a subtrahend
/// larger than the minuend is first folded into `min..max`, so that the
/// difference has a better chance of being representable.
pub open spec fn wrapped_difference(a: int, b: int, min: int, max: int) -> int
    recommends
        min < max,
{
    if b > a {
        a - wrap(b, min, max)
    } else {
        a - b
    }
}

/// Wrapping always lands inside the range.
pub proof fn lemma_wrap_in_range(v: int, min: int, max: int)
    requires
        min < max,
    ensures
        in_range(wrap(v, min, max), min, max),
{
    lemma_mod_bound(v - min, max - min);
}

/// A value that is already inside the range is left alone by wrapping.
pub proof fn lemma_wrap_fixes_range(v: int, min: int, max: int)
    requires
        in_range(v, min, max),
    ensures
        wrap(v, min, max) == v,
{
    lemma_small_mod((v - min) as nat, (max - min) as nat);
}

/// Wrapping is unchanged by adding any whole number of range widths,
/// positive or negative, to the value.
pub proof fn lemma_wrap_periodic(v: int, n: int, min: int, max: int)
    requires
        min < max,
    ensures
        wrap(v + n * (max - min), min, max) == wrap(v, min, max),
{
    let range = max - min;
    lemma_mod_multiples_vanish(n, v - min, range);
    assert(v + n * range - min == range * n + (v - min)) by (nonlinear_arith);
}

/// Adding one full range width to a value inside the range and wrapping
/// gives the value back.
pub proof fn lemma_wrap_full_turn(v: int, min: int, max: int)
    requires
        in_range(v, min, max),
    ensures
        wrap(v + (max - min), min, max) == v,
{
    lemma_wrap_periodic(v, 1, min, max);
    lemma_wrap_fixes_range(v, min, max);
    assert(v + 1 * (max - min) == v + (max - min)) by (nonlinear_arith);
}

/// Wrapping twice is the same as wrapping once.
pub proof fn lemma_wrap_idempotent(v: int, min: int, max: int)
    requires
        min < max,
    ensures
        wrap(wrap(v, min, max), min, max) == wrap(v, min, max),
{
    lemma_wrap_in_range(v, min, max);
    lemma_wrap_fixes_range(wrap(v, min, max), min, max);
}

/// Adding or removing exactly one range width does not change where a
/// value wraps to.
pub proof fn lemma_wrap_turn(v: int, min: int, max: int)
    requires
        min < max,
    ensures
        wrap(v + (max - min), min, max) == wrap(v, min, max),
        wrap(v - (max - min), min, max) == wrap(v, min, max),
{
    lemma_wrap_periodic(v, 1, min, max);
    lemma_wrap_periodic(v, -1, min, max);
    assert(v + 1 * (max - min) == v + (max - min)) by (nonlinear_arith);
    assert(v + (-1) * (max - min) == v - (max - min)) by (nonlinear_arith);
}

/// A step may be reduced modulo the range width before it is added
/// without changing the wrapped sum.
pub proof fn lemma_wrap_add_reduced(a: int, b: int, min: int, max: int)
    requires
        min < max,
    ensures
        wrap(a + b % (max - min), min, max) == wrap(a + b, min, max),
        0 <= b % (max - min) < max - min,
{
    let range = max - min;
    let q = b / range;
    lemma_fundamental_div_mod(b, range);
    lemma_mod_bound(b, range);
    assert(a + b == (a + b % range) + q * range) by (nonlinear_arith)
        requires
            b == range * q + b % range,
    ;
    lemma_wrap_periodic(a + b % range, q, min, max);
}

/// A step may be reduced modulo the range width before it is subtracted
/// without changing the wrapped difference.
pub proof fn lemma_wrap_sub_reduced(a: int, b: int, min: int, max: int)
    requires
        min < max,
    ensures
        wrap(a - b % (max - min), min, max) == wrap(a - b, min, max),
        0 <= b % (max - min) < max - min,
{
    let range = max - min;
    let q = b / range;
    lemma_fundamental_div_mod(b, range);
    lemma_mod_bound(b, range);
    assert(a - b == (a - b % range) + (-q) * range) by (nonlinear_arith)
        requires
            b == range * q + b % range,
    ;
    lemma_wrap_periodic(a - b % range, -q, min, max);
}

/// Two values that differ by a whole number of range widths wrap to the
/// same member of the range.
pub proof fn lemma_wrap_of_congruent(a: int, b: int, min: int, max: int)
    requires
        min < max,
        (a - b) % (max - min) == 0,
    ensures
        wrap(a, min, max) == wrap(b, min, max),
{
    let range = max - min;
    let n = (a - b) / range;
    lemma_fundamental_div_mod(a - b, range);
    assert(a == b + n * range) by (nonlinear_arith)
        requires
            a - b == range * n + 0,
    ;
    lemma_wrap_periodic(b, n, min, max);
}

/// An operand may be wrapped before it is added without changing the
/// wrapped sum.
pub proof fn lemma_wrap_add_wrapped(a: int, b: int, min: int, max: int)
    requires
        min < max,
    ensures
        wrap(wrap(a, min, max) + b, min, max) == wrap(a + b, min, max),
{
    let range = max - min;
    let q = (a - min) / range;
    lemma_fundamental_div_mod(a - min, range);
    assert(a + b == (wrap(a, min, max) + b) + q * range) by (nonlinear_arith)
        requires
            a - min == range * q + (a - min) % range,
            wrap(a, min, max) == min + (a - min) % range,
    ;
    lemma_wrap_periodic(wrap(a, min, max) + b, q, min, max);
}

/// A subtrahend may be wrapped before it is subtracted without changing
/// the wrapped difference.
pub proof fn lemma_wrap_sub_wrapped(a: int, b: int, min: int, max: int)
    requires
        min < max,
    ensures
        wrap(a - wrap(b, min, max), min, max) == wrap(a - b, min, max),
{
    let range = max - min;
    let q = (b - min) / range;
    lemma_fundamental_div_mod(b - min, range);
    assert(a - wrap(b, min, max) == (a - b) + q * range) by (nonlinear_arith)
        requires
            b - min == range * q + (b - min) % range,
            wrap(b, min, max) == min + (b - min) % range,
    ;
    lemma_wrap_periodic(a - b, q, min, max);
}

/// Folding what the minus operator of a wrapping integer computes gives
/// the same member of the range as folding the true difference.
pub proof fn lemma_wrapped_difference_folds(a: int, b: int, min: int, max: int)
    requires
        min < max,
    ensures
        wrap(wrapped_difference(a, b, min, max), min, max) == wrap(a - b, min, max),
{
    lemma_wrap_sub_wrapped(a, b, min, max);
}

/// Shifting the value and both bounds by the same amount shifts the
/// wrapped value by that amount.
pub proof fn lemma_wrap_shifted(v: int, min: int, max: int, by: int)
    ensures
        wrap(v + by, min + by, max + by) == wrap(v, min, max) + by,
{
    assert((v + by) - (min + by) == v - min);
    assert((max + by) - (min + by) == max - min);
}

/// How a value below the range wraps, in terms of its distance from the
/// lower bound: the distance is measured back from the upper bound.
pub proof fn lemma_wrap_from_below(v: int, min: int, max: int)
    requires
        min < max,
        v < min,
    ensures
        wrap(v, min, max) == if (min - v) % (max - min) == 0 {
            min
        } else {
            max - (min - v) % (max - min)
        },
{
    let range = max - min;
    let k = (min - v) % range;
    let q = (min - v) / range;
    lemma_fundamental_div_mod(min - v, range);
    lemma_mod_bound(min - v, range);
    if k == 0 {
        assert(v - min == range * (-q) + 0) by (nonlinear_arith)
            requires
                min - v == range * q + 0,
        ;
        lemma_fundamental_div_mod_converse(v - min, range, -q, 0);
    } else {
        assert(v - min == range * (-q - 1) + (range - k)) by (nonlinear_arith)
            requires
                min - v == range * q + k,
        ;
        lemma_fundamental_div_mod_converse(v - min, range, -q - 1, range - k);
    }
}

/// A quotient is never further from zero than its dividend, and only
/// division by minus one can turn a negative dividend into its opposite.
pub proof fn lemma_quotient_bounds(a: int, b: int)
    requires
        b != 0,
    ensures
        a >= 0 ==> -a <= quotient(a, b) <= a,
        a < 0 ==> a <= quotient(a, b) <= -a,
        a < 0 && b != -1 ==> quotient(a, b) < -a,
{
    let x = if a >= 0 {
        a
    } else {
        -a
    };
    let e = x / b;
    let r = x % b;
    lemma_fundamental_div_mod(x, b);
    if b > 0 {
        lemma_mod_bound(x, b);
        assert(0 <= e <= x && (b >= 2 && x > 0 ==> e < x)) by (nonlinear_arith)
            requires
                x == b * e + r,
                0 <= r < b,
                x >= 0,
                b > 0,
        ;
    } else {
        assert(0 <= r < -b) by (nonlinear_arith)
            requires
                r == x % b,
                b < 0,
        ;
        assert(-x <= e <= 0 && (b <= -2 && x > 0 ==> -e < x)) by (nonlinear_arith)
            requires
                x == b * e + r,
                0 <= r < -b,
                x >= 0,
                b < 0,
        ;
    }
}

/// Dividing by minus one turns a number into its opposite and leaves
/// nothing over.
pub proof fn lemma_divided_by_minus_one(a: int)
    ensures
        quotient(a, -1) == -a,
        remainder(a, -1) == 0,
{
    let x = if a >= 0 {
        a
    } else {
        -a
    };
    lemma_fundamental_div_mod(x, -1);
    assert(0 <= x % (-1) < 1) by (nonlinear_arith);
}

/// A product of two numbers on the same side of zero is not negative, and
/// a product of two numbers on opposite sides of zero is not positive.
pub proof fn lemma_product_sign(a: int, b: int)
    ensures
        (a < 0) == (b < 0) ==> a * b >= 0,
        (a < 0) != (b < 0) ==> a * b <= 0,
{
    assert((a < 0) == (b < 0) ==> a * b >= 0) by (nonlinear_arith);
    assert((a < 0) != (b < 0) ==> a * b <= 0) by (nonlinear_arith);
}

/// Clamping always lands inside the closed range.
pub proof fn lemma_clamp_in_closed_range(v: int, min: int, max: int)
    requires
        min < max,
    ensures
        in_closed_range(clamp(v, min, max), min, max),
{
}

/// A value inside the closed range is left alone by clamping; in
/// particular the upper bound itself is kept.
pub proof fn lemma_clamp_fixes_closed_range(v: int, min: int, max: int)
    requires
        in_closed_range(v, min, max),
    ensures
        clamp(v, min, max) == v,
{
}

/// Everything at or above the upper bound clamps to the upper bound, and
/// everything below the lower bound clamps to the lower bound.
pub proof fn lemma_clamp_boundary(v: int, min: int, max: int)
    requires
        min < max,
    ensures
        clamp(max, min, max) == max,
        v > max ==> clamp(v, min, max) == max,
        v < min ==> clamp(v, min, max) == min,
{
}

/// Clamping twice is the same as clamping once.
pub proof fn lemma_clamp_idempotent(v: int, min: int, max: int)
    requires
        min < max,
    ensures
        clamp(clamp(v, min, max), min, max) == clamp(v, min, max),
{
}

/// A value sitting on the upper bound stays there however much more is
/// added, and a value sitting on the lower bound stays there however much
/// more is taken away.
pub proof fn lemma_clamp_absorbs(k: int, min: int, max: int)
    requires
        min < max,
        k >= 0,
    ensures
        clamp(max + k, min, max) == max,
        clamp(min - k, min, max) == min,
{
}

} // verus!
