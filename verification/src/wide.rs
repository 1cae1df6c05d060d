//! Overflow-free wrapping arithmetic on the two widest integer types.
//!
//! Every concrete wrapping type widens its operands to `u128` or `i128`,
//! calls one of the functions below and narrows the result again; the
//! result always lies between the bounds, so it fits the narrower type.
//! None of the functions can overflow, whatever the operands are.
use crate::model::lemma_quotient_bounds;
use crate::model::lemma_wrap_add_reduced;
use crate::model::lemma_wrap_add_wrapped;
use crate::model::lemma_wrap_fixes_range;
use crate::model::lemma_wrap_from_below;
use crate::model::lemma_wrap_in_range;
use crate::model::lemma_wrap_of_congruent;
use crate::model::lemma_wrap_sub_reduced;
use crate::model::lemma_wrap_shifted;
use crate::model::lemma_wrap_turn;
use crate::model::quotient;
use crate::model::remainder;
use crate::model::wrap;
use vstd::arithmetic::div_mod::lemma_fundamental_div_mod;
use vstd::arithmetic::div_mod::lemma_mod_bound;
use vstd::arithmetic::div_mod::lemma_mod_multiples_vanish;
use vstd::arithmetic::div_mod::lemma_small_mod;
use vstd::math::abs;
use vstd::prelude::*;

verus! {

/// The distance between `i128::MIN` and zero.
pub const BIAS: u128 = 0x8000_0000_0000_0000_0000_0000_0000_0000;

/// Folds `v` into `min..max`.
pub fn wrap_u128(v: u128, min: u128, max: u128) -> (r: u128)
    requires
        min < max,
    ensures
        r == wrap(v as int, min as int, max as int),
        min <= r < max,
{
    proof {
        lemma_wrap_in_range(v as int, min as int, max as int);
    }
    if v >= max {
        min + (v - min) % (max - min)
    } else if v < min {
        proof {
            lemma_wrap_from_below(v as int, min as int, max as int);
        }
        let k: u128 = (min - v) % (max - min);
        if k == 0 {
            min
        } else {
            max - k
        }
    } else {
        proof {
            lemma_wrap_fixes_range(v as int, min as int, max as int);
        }
        v
    }
}

/// Folds the exact sum `a + b` into `min..max`, for an `a` that already
/// lies there.
pub fn wrap_add_u128(a: u128, b: u128, min: u128, max: u128) -> (r: u128)
    requires
        min <= a < max,
    ensures
        r == wrap(a + b, min as int, max as int),
        min <= r < max,
{
    let range: u128 = max - min;
    let x: u128 = a - min;
    let y: u128 = b % range;
    proof {
        lemma_wrap_add_reduced(a as int, b as int, min as int, max as int);
    }
    if x >= range - y {
        proof {
            lemma_wrap_turn(a + y, min as int, max as int);
            lemma_wrap_fixes_range(a + y - range, min as int, max as int);
        }
        min + (x - (range - y))
    } else {
        proof {
            lemma_wrap_fixes_range(a + y, min as int, max as int);
        }
        a + y
    }
}

/// Folds the exact difference `a - b` into `min..max`, for an `a` that
/// already lies there.
pub fn wrap_sub_u128(a: u128, b: u128, min: u128, max: u128) -> (r: u128)
    requires
        min <= a < max,
    ensures
        r == wrap(a - b, min as int, max as int),
        min <= r < max,
{
    let range: u128 = max - min;
    let x: u128 = a - min;
    let y: u128 = b % range;
    proof {
        lemma_wrap_sub_reduced(a as int, b as int, min as int, max as int);
    }
    if x >= y {
        proof {
            lemma_wrap_fixes_range(a - y, min as int, max as int);
        }
        a - y
    } else {
        proof {
            lemma_wrap_turn(a - y, min as int, max as int);
            lemma_wrap_fixes_range(a - y + range, min as int, max as int);
        }
        max - (y - x)
    }
}

/// Moves a signed value onto the unsigned scale, keeping order and
/// distances.
pub fn to_biased(v: i128) -> (r: u128)
    ensures
        r == v + BIAS,
{
    if v >= 0 {
        v as u128 + BIAS
    } else {
        (v - i128::MIN) as u128
    }
}

/// Moves a value back from the unsigned scale.
pub fn from_biased(v: u128) -> (r: i128)
    ensures
        r == v - BIAS,
{
    if v >= BIAS {
        (v - BIAS) as i128
    } else {
        v as i128 + i128::MIN
    }
}

/// The absolute value of `v`, which always fits the unsigned type.
pub fn magnitude(v: i128) -> (r: u128)
    ensures
        r == abs(v as int),
{
    if v >= 0 {
        v as u128
    } else if v == i128::MIN {
        BIAS
    } else {
        (-v) as u128
    }
}

/// Folds `v` into `min..max`.
pub fn wrap_i128(v: i128, min: i128, max: i128) -> (r: i128)
    requires
        min < max,
    ensures
        r == wrap(v as int, min as int, max as int),
        min <= r < max,
{
    proof {
        lemma_wrap_shifted(v as int, min as int, max as int, BIAS as int);
    }
    from_biased(wrap_u128(to_biased(v), to_biased(min), to_biased(max)))
}

/// Folds the exact sum `a + b` into `min..max`, for an `a` that already
/// lies there.
pub fn wrap_add_i128(a: i128, b: i128, min: i128, max: i128) -> (r: i128)
    requires
        min <= a < max,
    ensures
        r == wrap(a + b, min as int, max as int),
        min <= r < max,
{
    let size: u128 = magnitude(b);
    if b >= 0 {
        proof {
            lemma_wrap_shifted(a + b, min as int, max as int, BIAS as int);
        }
        from_biased(wrap_add_u128(to_biased(a), size, to_biased(min), to_biased(max)))
    } else {
        proof {
            lemma_wrap_shifted(a + b, min as int, max as int, BIAS as int);
        }
        from_biased(wrap_sub_u128(to_biased(a), size, to_biased(min), to_biased(max)))
    }
}

/// Folds the exact difference `a - b` into `min..max`, for an `a` that
/// already lies there.
pub fn wrap_sub_i128(a: i128, b: i128, min: i128, max: i128) -> (r: i128)
    requires
        min <= a < max,
    ensures
        r == wrap(a - b, min as int, max as int),
        min <= r < max,
{
    let size: u128 = magnitude(b);
    if b >= 0 {
        proof {
            lemma_wrap_shifted(a - b, min as int, max as int, BIAS as int);
        }
        from_biased(wrap_sub_u128(to_biased(a), size, to_biased(min), to_biased(max)))
    } else {
        proof {
            lemma_wrap_shifted(a - b, min as int, max as int, BIAS as int);
        }
        from_biased(wrap_add_u128(to_biased(a), size, to_biased(min), to_biased(max)))
    }
}

/// The sum of two residues modulo `m`, without ever leaving `0..m`.
pub fn add_mod(x: u128, y: u128, m: u128) -> (r: u128)
    requires
        x < m,
        y < m,
    ensures
        r == (x + y) % (m as int),
        r < m,
{
    if x >= m - y {
        proof {
            lemma_mod_multiples_vanish(-1, x + y, m as int);
            lemma_small_mod((x + y - m) as nat, m as nat);
        }
        x - (m - y)
    } else {
        proof {
            lemma_small_mod((x + y) as nat, m as nat);
        }
        x + y
    }
}

/// The product of two residues modulo `m`, built up from doublings so
/// that nothing ever leaves `0..m`.
pub fn mul_mod(x: u128, y: u128, m: u128) -> (r: u128)
    requires
        x < m,
        y < m,
    ensures
        r == (x * y) % (m as int),
        r < m,
{
    let mut sum: u128 = 0;
    let mut term: u128 = x;
    let mut left: u128 = y;
    while left > 0
        invariant
            sum < m,
            term < m,
            (sum + term * left) % (m as int) == (x * y) % (m as int),
        decreases left,
    {
        proof {
            lemma_doubling_step(sum as int, term as int, left as int, m as int);
        }
        if left % 2 == 1 {
            sum = add_mod(sum, term, m);
        }
        term = add_mod(term, term, m);
        left = left / 2;
    }
    proof {
        assert(sum + term * left == sum) by (nonlinear_arith)
            requires
                left == 0,
        ;
        lemma_small_mod(sum as nat, m as nat);
    }
    sum
}

/// Folds the exact product `a * b` into `min..max`.
pub fn wrap_mul_u128(a: u128, b: u128, min: u128, max: u128) -> (r: u128)
    requires
        min < max,
    ensures
        r == wrap(a * b, min as int, max as int),
        min <= r < max,
{
    let range: u128 = max - min;
    let residue: u128 = mul_mod(a % range, b % range, range);
    proof {
        lemma_product_of_residues(a as int, b as int, range as int);
        lemma_residue_congruent(a * b, range as int);
        lemma_wrap_of_congruent(a * b, residue as int, min as int, max as int);
    }
    wrap_u128(residue, min, max)
}

/// Folds the exact product `a * b` into `min..max`.
pub fn wrap_mul_i128(a: i128, b: i128, min: i128, max: i128) -> (r: i128)
    requires
        min < max,
    ensures
        r == wrap(a * b, min as int, max as int),
        min <= r < max,
{
    let low: u128 = to_biased(min);
    let high: u128 = to_biased(max);
    let range: u128 = high - low;
    let size_a: u128 = magnitude(a);
    let size_b: u128 = magnitude(b);
    let residue: u128 = mul_mod(size_a % range, size_b % range, range);
    let zero: u128 = wrap_u128(BIAS, low, high);
    proof {
        let size = size_a * size_b;
        lemma_product_of_residues(size_a as int, size_b as int, range as int);
        lemma_residue_congruent(size, range as int);
        lemma_wrap_shifted(0, min as int, max as int, BIAS as int);
        if (a < 0) == (b < 0) {
            assert(a * b == size) by (nonlinear_arith)
                requires
                    (a < 0) == (b < 0),
                    size == abs(a as int) * abs(b as int),
            ;
            lemma_wrap_shifted(
                wrap(0, min as int, max as int) + residue,
                min as int,
                max as int,
                BIAS as int,
            );
            lemma_wrap_add_wrapped(0, residue as int, min as int, max as int);
            lemma_wrap_of_congruent(a * b, residue as int, min as int, max as int);
        } else {
            assert(a * b == -size) by (nonlinear_arith)
                requires
                    (a < 0) != (b < 0),
                    size == abs(a as int) * abs(b as int),
            ;
            lemma_wrap_shifted(
                wrap(0, min as int, max as int) - residue,
                min as int,
                max as int,
                BIAS as int,
            );
            lemma_wrap_add_wrapped(0, -residue, min as int, max as int);
            lemma_negated_congruent(size, residue as int, range as int);
            lemma_wrap_of_congruent(a * b, -residue, min as int, max as int);
        }
    }
    if (a < 0) == (b < 0) {
        from_biased(wrap_add_u128(zero, residue, low, high))
    } else {
        from_biased(wrap_sub_u128(zero, residue, low, high))
    }
}

/// Folds the quotient of `a` by `b`, rounded toward zero, into
/// `min..max`. The one quotient that does not fit the type, that of
/// `i128::MIN` by minus one, is folded like any other.
pub fn wrap_div_i128(a: i128, b: i128, min: i128, max: i128) -> (r: i128)
    requires
        min < max,
        b != 0,
    ensures
        r == wrap(quotient(a as int, b as int), min as int, max as int),
        min <= r < max,
{
    if a == i128::MIN && b == -1 {
        let low: u128 = to_biased(min);
        let high: u128 = to_biased(max);
        let zero: u128 = wrap_u128(BIAS, low, high);
        proof {
            lemma_wrap_shifted(0, min as int, max as int, BIAS as int);
            lemma_wrap_shifted(
                wrap(0, min as int, max as int) + BIAS,
                min as int,
                max as int,
                BIAS as int,
            );
            lemma_wrap_add_wrapped(0, BIAS as int, min as int, max as int);
        }
        from_biased(wrap_add_u128(zero, BIAS, low, high))
    } else {
        proof {
            lemma_quotient_bounds(a as int, b as int);
        }
        wrap_i128(a / b, min, max)
    }
}

/// Folds what is left of `a` after dividing by `b` into `min..max`.
pub fn wrap_rem_i128(a: i128, b: i128, min: i128, max: i128) -> (r: i128)
    requires
        min < max,
        b != 0,
    ensures
        r == wrap(remainder(a as int, b as int), min as int, max as int),
        min <= r < max,
{
    if b == -1 {
        wrap_i128(0, min, max)
    } else {
        wrap_i128(a % b, min, max)
    }
}

/// One round of multiplying by doubling keeps the running total
/// congruent to the product.
proof fn lemma_doubling_step(sum: int, term: int, left: int, m: int)
    requires
        0 < m,
        0 <= sum,
        0 <= term,
        0 < left,
    ensures
        ({
            let next = if left % 2 == 1 {
                (sum + term) % m
            } else {
                sum
            };
            (next + ((term + term) % m) * (left / 2)) % m == (sum + term * left) % m
        }),
{
    let half = left / 2;
    let twice = (term + term) % m;
    let q_twice = (term + term) / m;
    lemma_fundamental_div_mod(term + term, m);
    lemma_fundamental_div_mod(left, 2);
    if left % 2 == 1 {
        let next = (sum + term) % m;
        let q_next = (sum + term) / m;
        lemma_fundamental_div_mod(sum + term, m);
        assert(sum + term * left == m * (q_next + q_twice * half) + (next + twice * half))
            by (nonlinear_arith)
            requires
                left == 2 * half + 1,
                term + term == m * q_twice + twice,
                sum + term == m * q_next + next,
        ;
        lemma_mod_multiples_vanish(q_next + q_twice * half, next + twice * half, m);
    } else {
        assert(sum + term * left == m * (q_twice * half) + (sum + twice * half))
            by (nonlinear_arith)
            requires
                left == 2 * half,
                term + term == m * q_twice + twice,
        ;
        lemma_mod_multiples_vanish(q_twice * half, sum + twice * half, m);
    }
}

/// The product of two numbers and the product of their residues leave
/// the same residue.
proof fn lemma_product_of_residues(a: int, b: int, m: int)
    requires
        0 < m,
    ensures
        ((a % m) * (b % m)) % m == (a * b) % m,
        0 <= a % m < m,
        0 <= b % m < m,
{
    lemma_mod_bound(a, m);
    lemma_mod_bound(b, m);
    lemma_fundamental_div_mod(a, m);
    lemma_fundamental_div_mod(b, m);
    let qa = a / m;
    let qb = b / m;
    let ra = a % m;
    let rb = b % m;
    assert(a * b == m * (qa * b + ra * qb) + ra * rb) by (nonlinear_arith)
        requires
            a == m * qa + ra,
            b == m * qb + rb,
    ;
    lemma_mod_multiples_vanish(qa * b + ra * qb, ra * rb, m);
}

/// A number and its residue differ by a whole number of moduli.
proof fn lemma_residue_congruent(v: int, m: int)
    requires
        0 < m,
    ensures
        (v - v % m) % m == 0,
{
    lemma_fundamental_div_mod(v, m);
    lemma_mod_multiples_vanish(v / m, 0, m);
    lemma_small_mod(0, m as nat);
}

/// If a residue stands for a number, the opposite of the residue stands
/// for the opposite of the number.
proof fn lemma_negated_congruent(v: int, residue: int, m: int)
    requires
        0 < m,
        residue == v % m,
    ensures
        (-v - (-residue)) % m == 0,
{
    lemma_fundamental_div_mod(v, m);
    lemma_mod_multiples_vanish(-(v / m), 0, m);
    lemma_small_mod(0, m as nat);
    assert(-v - (-residue) == m * (-(v / m)) + 0) by (nonlinear_arith)
        requires
            v == m * (v / m) + residue,
    ;
}

} // verus!
