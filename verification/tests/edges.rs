use clamps::bounded::Bounded;
use clamps::bounded::BoundedI32;
use clamps::bounded::BoundedU32;
use clamps::saturating::Saturating;
use clamps::saturating::SaturatingI128;
use clamps::saturating::SaturatingI32;
use clamps::saturating::SaturatingI8;
use clamps::saturating::SaturatingU128;
use clamps::saturating::SaturatingU32;
use clamps::saturating::SaturatingU8;
use clamps::wide::add_mod;
use clamps::wide::from_biased;
use clamps::wide::magnitude;
use clamps::wide::mul_mod;
use clamps::wide::to_biased;
use clamps::wide::wrap_add_i128;
use clamps::wide::wrap_add_u128;
use clamps::wide::wrap_div_i128;
use clamps::wide::wrap_i128;
use clamps::wide::wrap_mul_i128;
use clamps::wide::wrap_mul_u128;
use clamps::wide::wrap_rem_i128;
use clamps::wide::wrap_sub_i128;
use clamps::wide::wrap_sub_u128;
use clamps::wide::wrap_u128;
use clamps::wide::BIAS;
use clamps::wrapping::Wrapping;
use clamps::wrapping::WrappingI128;
use clamps::wrapping::WrappingI32;
use clamps::wrapping::WrappingI8;
use clamps::wrapping::WrappingU128;
use clamps::wrapping::WrappingU32;
use clamps::wrapping::WrappingU8;

#[test]
fn widest_unsigned_range_wraps() {
    assert_eq!(wrap_u128(u128::MAX, 0, u128::MAX), 0);
    assert_eq!(wrap_u128(u128::MAX - 1, 0, u128::MAX), u128::MAX - 1);
    assert_eq!(wrap_u128(0, 1, u128::MAX), u128::MAX - 1);
    assert_eq!(wrap_u128(12, 0, 10), 2);
    assert_eq!(wrap_u128(3, 4, 8), 7);
    assert_eq!(wrap_u128(5, 4, 8), 5);
    assert_eq!(wrap_u128(0, 4, 8), 4);
    assert_eq!(wrap_add_u128(9, u128::MAX, 0, 10), 4);
    assert_eq!(wrap_add_u128(u128::MAX - 1, u128::MAX, 0, u128::MAX), u128::MAX - 1);
    assert_eq!(wrap_add_u128(u128::MAX - 1, 3, 5, u128::MAX), 7);
    assert_eq!(wrap_sub_u128(2, 4000001, 0, 4), 1);
    assert_eq!(wrap_sub_u128(6, 3, 4, 8), 7);
    assert_eq!(wrap_sub_u128(5, u128::MAX, 0, 10), 0);
    assert_eq!(wrap_sub_u128(7, 2, 0, 10), 5);
}

#[test]
fn widest_signed_range_wraps() {
    assert_eq!(wrap_i128(i128::MAX, i128::MIN, i128::MAX), i128::MIN);
    assert_eq!(wrap_i128(i128::MIN, i128::MIN + 1, i128::MAX), i128::MAX - 1);
    assert_eq!(wrap_i128(-7, -5, 10), 8);
    assert_eq!(wrap_i128(10, -5, 10), -5);
    assert_eq!(wrap_i128(-12, -10, 10), 8);
    assert_eq!(wrap_i128(i128::MAX, -1, 1), -1);
    assert_eq!(wrap_i128(i128::MIN, -1, 1), 0);
    assert_eq!(wrap_add_i128(5, 5, -10, 10), -10);
    assert_eq!(wrap_add_i128(5, -7, -10, 10), -2);
    assert_eq!(wrap_add_i128(0, i128::MAX, 0, 10), 7);
    assert_eq!(wrap_add_i128(0, i128::MIN, 0, 10), 2);
    assert_eq!(wrap_sub_i128(-2, 10, -10, 10), 8);
    assert_eq!(wrap_sub_i128(0, i128::MIN, 0, 10), 8);
    assert_eq!(wrap_sub_i128(0, i128::MAX, 0, 10), 3);
    assert_eq!(wrap_sub_i128(i128::MAX - 1, -1, i128::MIN, i128::MAX), i128::MIN);
}

#[test]
fn signed_values_move_onto_the_unsigned_scale() {
    assert_eq!(BIAS, 1u128 << 127);
    assert_eq!(to_biased(i128::MIN), 0);
    assert_eq!(to_biased(-1), BIAS - 1);
    assert_eq!(to_biased(0), BIAS);
    assert_eq!(to_biased(i128::MAX), u128::MAX);
    assert_eq!(from_biased(0), i128::MIN);
    assert_eq!(from_biased(BIAS - 1), -1);
    assert_eq!(from_biased(BIAS), 0);
    assert_eq!(from_biased(u128::MAX), i128::MAX);
    assert_eq!(magnitude(0), 0);
    assert_eq!(magnitude(17), 17);
    assert_eq!(magnitude(-17), 17);
    assert_eq!(magnitude(i128::MAX), BIAS - 1);
    assert_eq!(magnitude(i128::MIN), BIAS);
}

#[test]
fn wrapping_never_overflows_on_the_way() {
    let mut a = WrappingU8::<0, 10>::new(9);
    a += 255;
    assert_eq!(a.inner(), 4);
    a -= 255;
    assert_eq!(a.inner(), 9);

    let mut b = WrappingU8::<250, 255>::new(254);
    b += 255;
    assert_eq!(b.inner(), 254);
    b += 1;
    assert_eq!(b.inner(), 250);

    let mut c = WrappingI8::new(127, -128, 127);
    assert_eq!(c.inner(), -128);
    c = WrappingI8::new(126, -128, 127);
    c += 127;
    assert_eq!(c.inner(), -2);
    c -= -128;
    assert_eq!(c.inner(), 126);
    assert_eq!(WrappingI8::new(127, -100, 100).inner(), -73);
    assert_eq!(WrappingI8::new(-128, 100, 127).inner(), 115);

    let mut d = WrappingU128::<1, { u128::MAX }>::new(u128::MAX - 1);
    d += u128::MAX;
    assert_eq!(d.inner(), 1);
    d -= 3;
    assert_eq!(d.inner(), u128::MAX - 3);

    let mut e = WrappingI128::new(i128::MAX - 1, i128::MIN, i128::MAX);
    e += 1;
    assert_eq!(e.inner(), i128::MIN);
    e -= 1;
    assert_eq!(e.inner(), i128::MAX - 1);
    e -= i128::MIN;
    assert_eq!(e.inner(), -1);
}

#[test]
fn wrapping_minus_folds_a_large_subtrahend_first() {
    let a = WrappingU32::<0, 4>::new(2);
    assert_eq!(a - 4000001, 1);
    assert_eq!(a - 2, 0);
    assert_eq!(a - 1, 1);
    assert_eq!(a - WrappingU32::<0, 100>::new(1), 1);
    let b = WrappingU32::<4, 8>::new(7);
    assert_eq!(b - 13, 2);
    assert_eq!(b - 8, 3);
    let c = WrappingI32::new(-2, -10, 10);
    assert_eq!(c - 10, 8);
    assert_eq!(c - -5, 3);
    assert_eq!(c - 25, -7);
}

#[test]
fn wrapping_multiplies_divides_and_takes_remainders() {
    let mut a = WrappingU32::<0, 10>::new(7);
    assert_eq!(a * 3, 21);
    a *= 3;
    assert_eq!(a.inner(), 1);
    let mut b = WrappingU32::<5, 10>::new(9);
    assert_eq!(b / 3, 3);
    b /= 3;
    assert_eq!(b.inner(), 8);
    let mut c = WrappingU32::<5, 10>::new(9);
    assert_eq!(c % 4, 1);
    c %= 4;
    assert_eq!(c.inner(), 6);

    let mut d = WrappingI32::new(7, -10, 10);
    assert_eq!(d * -3, -21);
    d *= -3;
    assert_eq!(d.inner(), -1);
    let mut e = WrappingI32::new(-7, -10, -5);
    assert_eq!(e / 2, -3);
    assert_eq!(e % 2, -1);
    assert_eq!(e / -2, 3);
    assert_eq!(e % -2, -1);
    e /= 2;
    assert_eq!(e.inner(), -8);
    let mut f = WrappingI32::new(-7, -10, -5);
    f %= 2;
    assert_eq!(f.inner(), -6);
    assert_eq!(WrappingI32::new(7, 0, 10) / -2, -3);
    assert_eq!(WrappingI32::new(7, 0, 10) % -2, 1);

    let mut g = Wrapping::new(7, -10, 10);
    g *= 3;
    assert_eq!(g, 1);
    g -= 25;
    assert_eq!(g, -4);
    g /= 2;
    assert_eq!(g, -2);
    g += 13;
    assert_eq!(g, -9);
    g %= 4;
    assert_eq!(g, -1);
    let mut h = Wrapping::new(1.5, 0.0, 2.0);
    h -= 2.0;
    assert_eq!(h, 1.5);
    h -= 0.25;
    assert_eq!(h, 1.25);
    h -= 1.5;
    assert_eq!(h, 1.75);
}

#[test]
fn saturating_never_overflows_on_the_way() {
    let mut a = SaturatingU128::<1, { u128::MAX - 1 }>::new(5);
    a += u128::MAX;
    assert_eq!(a.inner(), u128::MAX - 1);
    a -= u128::MAX;
    assert_eq!(a.inner(), 1);

    let mut b = SaturatingI128::new(0, i128::MIN + 1, i128::MAX - 1);
    b += i128::MAX;
    assert_eq!(b.inner(), i128::MAX - 1);
    b += i128::MAX;
    assert_eq!(b.inner(), i128::MAX - 1);
    b -= i128::MIN;
    assert_eq!(b.inner(), i128::MAX - 1);
    b += i128::MIN;
    assert_eq!(b.inner(), -2);
    b += i128::MIN;
    assert_eq!(b.inner(), i128::MIN + 1);
    b -= i128::MAX;
    assert_eq!(b.inner(), i128::MIN + 1);
}

#[test]
fn saturating_multiplies_divides_and_takes_remainders() {
    let mut a = SaturatingU32::<0, 10>::new(7);
    assert_eq!(a * 3, 21);
    a *= 3;
    assert_eq!(a.inner(), 10);
    let mut b = SaturatingU32::<5, 10>::new(9);
    assert_eq!(b / 3, 3);
    b /= 3;
    assert_eq!(b.inner(), 5);
    let mut c = SaturatingU32::<0, 10>::new(9);
    assert_eq!(c % 4, 1);
    c %= 4;
    assert_eq!(c.inner(), 1);
    assert_eq!(c - SaturatingU32::<0, 1>::new(1), 0);

    let mut d = SaturatingI32::new(7, -10, 10);
    assert_eq!(d * -3, -21);
    assert_eq!(d - 20, -13);
    d *= -3;
    assert_eq!(d.inner(), -10);
    d /= -4;
    assert_eq!(d.inner(), 2);
    d -= SaturatingI32::new(5, 0, 100);
    assert_eq!(d.inner(), -3);
    d %= 2;
    assert_eq!(d.inner(), -1);

    let mut e = Saturating::new(7, -10, 10);
    e *= 3;
    assert_eq!(e, 10);
    e /= -4;
    assert_eq!(e, -2);
    e %= 2;
    assert_eq!(e, 0);
    e -= Saturating::new(50, 0, 100);
    assert_eq!(e, -10);
}

#[test]
fn bounded_divides_and_takes_remainders() {
    let a = BoundedU32::<0, 10>::new(7).unwrap();
    assert_eq!(a / 2, 3);
    assert_eq!(a % 2, 1);
    assert_eq!(a * 1000, 7000);
    assert_eq!(a - BoundedU32::<0, 5>::new(4).unwrap(), 3);
    let b = BoundedI32::new(-7, -10, 10).unwrap();
    assert_eq!(b / 2, -3);
    assert_eq!(b % 2, -1);
    assert_eq!(b / -2, 3);
    assert_eq!(b % -2, -1);
    assert_eq!(b * BoundedI32::new(3, 0, 4).unwrap(), -21);
    let c = Bounded::new(-7, -10, 10).unwrap();
    assert_eq!(c / 2, -3);
    assert_eq!(c % 2, -1);
    assert!(c < 0);
    assert!(c > Bounded::new(-8, -100, 100).unwrap());
}

#[test]
fn comparisons_ignore_the_bounds() {
    let a = WrappingI32::new(3, -5, 74);
    let b = WrappingI32::new(3, 0, 74);
    assert_eq!(a, b);
    assert_eq!(a, 3);
    assert!(a < 4);
    assert!(a <= b);
    assert!(WrappingI32::new(2, 0, 3) < a);
    let c = SaturatingI32::new(3, -5, 74);
    let d = SaturatingI32::new(3, 0, 3);
    assert_eq!(c, d);
    assert!(c > 2);
    let e = BoundedI32::new(3, -5, 74).unwrap();
    let f = BoundedI32::new(3, 0, 4).unwrap();
    assert_eq!(e, f);
    assert!(e >= f);
    let mut sorted = [WrappingU8::<0, 10>::new(7), WrappingU8::<0, 10>::new(2), WrappingU8::<0, 10>::new(5)];
    sorted.sort();
    assert_eq!(sorted[0].inner(), 2);
    assert_eq!(sorted[1].inner(), 5);
    assert_eq!(sorted[2].inner(), 7);
}

#[test]
fn accessors_report_the_bounds() {
    let a = BoundedU32::<3, 9>::new(5).unwrap();
    assert_eq!(a.min_bound(), 3);
    assert_eq!(a.max_bound(), 9);
    assert_eq!(a.range(), 3..9);
    let b = SaturatingU32::<3, 9>::new(50);
    assert_eq!(b.min_bound(), 3);
    assert_eq!(b.max_bound(), 9);
    assert_eq!(b.range(), 3..=9);
    assert!(b.range().contains(&b.inner()));
    let w = WrappingU32::<3, 9>::new(50);
    assert_eq!(w.inner(), 8);
    assert_eq!(w.min_bound(), 3);
    assert_eq!(w.max_bound(), 9);
    assert_eq!(w.range(), 3..9);
    assert!(w.range().contains(&w.inner()));
    let c = WrappingI32::new(50, -3, 9);
    assert_eq!(c.min_bound(), -3);
    assert_eq!(c.max_bound(), 9);
    assert_eq!(c.range(), -3..9);
    assert!(c.range().contains(&c.inner()));
    let d = Wrapping::new(50, -3, 9);
    assert_eq!(d.min_bound(), &-3);
    assert_eq!(d.max_bound(), &9);
    assert!(d.range().contains(&d.inner()));
}

#[test]
fn debug_text_is_laid_out_under_the_type_name() {
    assert_eq!(Wrapping::new(12, 0, 10).debug_string(), "Wrapping {inner: 2, min: 0, max: 10}");
    assert_eq!(Saturating::new(12, 0, 10).debug_string(), "Saturating {inner: 10, min: 0, max: 10}");
    assert_eq!(Bounded::new(1.5, 0.0, 10.0).unwrap().debug_string(), "Bounded {inner: 1.5, min: 0.0, max: 10.0}");
}

fn wrap_by_hand(v: i128, min: i128, max: i128) -> i128 {
    min + (v - min).rem_euclid(max - min)
}

#[test]
fn residues_add_and_multiply_without_overflow() {
    assert_eq!(add_mod(3, 4, 10), 7);
    assert_eq!(add_mod(6, 4, 10), 0);
    assert_eq!(add_mod(9, 9, 10), 8);
    assert_eq!(add_mod(u128::MAX - 1, u128::MAX - 1, u128::MAX), u128::MAX - 2);
    assert_eq!(mul_mod(0, 5, 7), 0);
    assert_eq!(mul_mod(5, 0, 7), 0);
    assert_eq!(mul_mod(3, 4, 7), 5);
    assert_eq!(mul_mod(6, 6, 7), 1);
    assert_eq!(mul_mod(u128::MAX - 1, u128::MAX - 1, u128::MAX), 1);
    assert_eq!(mul_mod(u128::MAX - 2, 2, u128::MAX), u128::MAX - 4);
    for x in 0..13u128 {
        for y in 0..13u128 {
            assert_eq!(mul_mod(x, y, 13), x * y % 13);
            assert_eq!(add_mod(x, y, 13), (x + y) % 13);
        }
    }
}

#[test]
fn widest_products_and_quotients_wrap() {
    assert_eq!(wrap_mul_u128(7, 3, 0, 10), 1);
    assert_eq!(wrap_mul_u128(7, 3, 4, 8), 5);
    assert_eq!(wrap_mul_u128(u128::MAX, u128::MAX, 0, 10), 5);
    assert_eq!(wrap_mul_u128(u128::MAX, 2, 0, u128::MAX), 0);
    assert_eq!(wrap_mul_u128(0, 9, 4, 8), 4);
    assert_eq!(wrap_mul_i128(7, -3, -10, 10), -1);
    assert_eq!(wrap_mul_i128(-7, -3, -10, 10), 1);
    assert_eq!(wrap_mul_i128(-7, 3, 0, 10), 9);
    assert_eq!(wrap_mul_i128(i128::MIN, i128::MIN, 0, 10), 4);
    assert_eq!(wrap_mul_i128(i128::MIN, i128::MAX, 0, 10), 4);
    assert_eq!(wrap_mul_i128(i128::MAX, 2, i128::MIN, i128::MAX), -1);
    assert_eq!(wrap_mul_i128(0, -5, -3, 3), 0);
    assert_eq!(wrap_div_i128(-7, 2, -10, 10), -3);
    assert_eq!(wrap_div_i128(7, -2, 0, 10), 7);
    assert_eq!(wrap_div_i128(i128::MIN, -1, 0, 10), 8);
    assert_eq!(wrap_div_i128(i128::MIN, -1, i128::MIN, i128::MAX), i128::MIN + 1);
    assert_eq!(wrap_div_i128(i128::MIN, 1, i128::MIN, i128::MAX), i128::MIN);
    assert_eq!(wrap_rem_i128(-7, 2, -10, 10), -1);
    assert_eq!(wrap_rem_i128(-7, 2, 0, 10), 9);
    assert_eq!(wrap_rem_i128(i128::MIN, -1, 5, 10), 5);
    assert_eq!(wrap_rem_i128(7, -4, 0, 10), 3);
}

#[test]
fn wrapping_products_never_overflow() {
    for start in 20..30u8 {
        for factor in 0..=255u8 {
            let mut a = WrappingU8::<20, 30>::new(start);
            a *= factor;
            assert_eq!(a.inner() as i128, wrap_by_hand(start as i128 * factor as i128, 20, 30));
        }
    }
    for start in -5..5i8 {
        for other in -128..=127i8 {
            let mut a = WrappingI8::new(start, -5, 5);
            a *= other;
            assert_eq!(a.inner() as i128, wrap_by_hand(start as i128 * other as i128, -5, 5));
            if other != 0 {
                let mut b = WrappingI8::new(start, -5, 5);
                b /= other;
                assert_eq!(b.inner() as i128, wrap_by_hand(start as i128 / other as i128, -5, 5));
                let mut c = WrappingI8::new(start, -5, 5);
                c %= other;
                assert_eq!(c.inner() as i128, wrap_by_hand(start as i128 % other as i128, -5, 5));
            }
        }
    }
    let mut lowest = WrappingI8::new(-128, -128, 0);
    lowest /= -1;
    assert_eq!(lowest.inner(), -128);
    let mut lowest = WrappingI8::new(-128, -128, -100);
    lowest /= -1;
    assert_eq!(lowest.inner(), -124);
    let mut lowest = WrappingI8::new(-128, -128, -100);
    lowest %= -1;
    assert_eq!(lowest.inner(), -112);
    let mut widest = WrappingU128::<0, 10>::new(9);
    widest *= u128::MAX;
    assert_eq!(widest.inner(), 5);
    let mut widest = WrappingI128::new(-3, -10, 10);
    widest *= i128::MIN;
    assert_eq!(widest.inner(), 4);
}

#[test]
fn saturating_products_never_overflow() {
    for start in -10..=10i8 {
        for other in -128..=127i8 {
            let mut a = SaturatingI8::new(start, -10, 10);
            a *= other;
            assert_eq!(a.inner() as i128, (start as i128 * other as i128).clamp(-10, 10));
            if other != 0 {
                let mut b = SaturatingI8::new(start, -10, 10);
                b /= other;
                assert_eq!(b.inner() as i128, (start as i128 / other as i128).clamp(-10, 10));
                let mut c = SaturatingI8::new(start, -10, 10);
                c %= other;
                assert_eq!(c.inner() as i128, (start as i128 % other as i128).clamp(-10, 10));
            }
        }
    }
    for start in 20..=30u8 {
        for factor in 0..=255u8 {
            let mut a = SaturatingU8::<20, 30>::new(start);
            a *= factor;
            assert_eq!(a.inner() as i128, (start as i128 * factor as i128).clamp(20, 30));
        }
    }
    let mut lowest = SaturatingI8::new(-128, -128, 100);
    lowest /= -1;
    assert_eq!(lowest.inner(), 100);
    let mut lowest = SaturatingI8::new(-128, -128, 100);
    lowest %= -1;
    assert_eq!(lowest.inner(), 0);
    let mut lowest = SaturatingI8::new(-128, -128, -100);
    lowest %= -1;
    assert_eq!(lowest.inner(), -100);
    let mut widest = SaturatingI128::new(-3, -10, i128::MAX);
    widest *= i128::MIN;
    assert_eq!(widest.inner(), i128::MAX);
    widest *= -2;
    assert_eq!(widest.inner(), -10);
}
