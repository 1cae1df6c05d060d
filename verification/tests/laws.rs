use clamps::bounded::Bounded;
use clamps::bounded::BoundedI16;
use clamps::bounded::BoundedU8;
use clamps::bounded::BoundsError;
use clamps::saturating::Saturating;
use clamps::saturating::SaturatingI8;
use clamps::saturating::SaturatingU32;
use clamps::saturating::SaturatingU8;
use clamps::wrapping::Wrapping;
use clamps::wrapping::WrappingI16;
use clamps::wrapping::WrappingI64;
use clamps::wrapping::WrappingU32;
use clamps::wrapping::WrappingU8;

fn wrap_by_hand(v: i128, min: i128, max: i128) -> i128 {
    min + (v - min).rem_euclid(max - min)
}

fn clamp_by_hand(v: i128, min: i128, max: i128) -> i128 {
    if v >= max {
        max
    } else if v < min {
        min
    } else {
        v
    }
}

#[test]
fn bounded_accepts_exactly_the_range() {
    for v in 0..=255u8 {
        let made = BoundedU8::<20, 30>::new(v);
        if v >= 30 {
            assert_eq!(made, Err(BoundsError::TooLarge));
        } else if v < 20 {
            assert_eq!(made, Err(BoundsError::TooSmall));
        } else {
            assert_eq!(made.unwrap().inner(), v);
        }
    }
    for v in -300..300i16 {
        let made = BoundedI16::new(v, -100, 100);
        if v >= 100 {
            assert_eq!(made, Err(BoundsError::TooLarge));
        } else if v < -100 {
            assert_eq!(made, Err(BoundsError::TooSmall));
        } else {
            assert_eq!(made.unwrap().inner(), v);
        }
    }
    for v in -30..30i32 {
        let made = Bounded::new(v, -10, 10);
        if v >= 10 {
            assert_eq!(made, Err(BoundsError::TooLarge));
        } else if v < -10 {
            assert_eq!(made, Err(BoundsError::TooSmall));
        } else {
            assert_eq!(made.unwrap().into_inner(), v);
        }
    }
}

#[test]
fn bounded_edges_of_the_range() {
    assert_eq!(BoundedU8::<2, 10>::new(2).unwrap(), 2);
    assert_eq!(BoundedU8::<2, 10>::new(9).unwrap(), 9);
    assert_eq!(BoundedU8::<2, 10>::new(10), Err(BoundsError::TooLarge));
    assert_eq!(BoundedU8::<2, 10>::new(1), Err(BoundsError::TooSmall));
    assert_eq!(BoundedU8::<2, 10>::new(4).unwrap(), 4);
}

#[test]
fn bounded_arithmetic_is_unchecked() {
    let a = BoundedU8::<2, 10>::new(9).unwrap();
    assert_eq!(a + 100, 109);
    assert_eq!(a - 9, 0);
    assert_eq!(a * 20, 180);
    let b = BoundedI16::new(5, 0, 10).unwrap();
    assert_eq!(b + 1000, 1005);
    assert_eq!(b - 1000, -995);
    assert_eq!(b + BoundedI16::new(-50, -100, 0).unwrap(), -45);
    let c = Bounded::new(5, 0, 10).unwrap();
    assert_eq!(c + 1000, 1005);
    assert_eq!(c - 1000, -995);
}

#[test]
fn wrapping_full_turn_gives_the_value_back() {
    for v in 20..30u8 {
        assert_eq!(WrappingU8::<20, 30>::new(v + 10).inner(), v);
    }
    for v in -100..100i16 {
        assert_eq!(WrappingI16::new(v + 200, -100, 100).inner(), v);
        assert_eq!(Wrapping::new(v + 200, -100, 100).into_inner(), v);
    }
}

#[test]
fn wrapping_ignores_whole_turns() {
    for v in -50..50i64 {
        let base = WrappingI64::new(v, -7, 6).inner();
        for n in -5..=5i64 {
            assert_eq!(WrappingI64::new(v + n * 13, -7, 6).inner(), base);
            assert_eq!(Wrapping::new(v + n * 13, -7, 6).into_inner(), base);
        }
    }
    for v in 0..60u32 {
        let base = WrappingU32::<10, 17>::new(v).inner();
        for n in 0..5u32 {
            assert_eq!(WrappingU32::<10, 17>::new(v + n * 7).inner(), base);
        }
    }
}

#[test]
fn wrapping_matches_the_remainder_formula() {
    for v in 0..=255u8 {
        let expected = wrap_by_hand(v as i128, 20, 30) as u8;
        assert_eq!(WrappingU8::<20, 30>::new(v).inner(), expected);
    }
    for v in -1000..1000i16 {
        let expected = wrap_by_hand(v as i128, -37, 12) as i16;
        assert_eq!(WrappingI16::new(v, -37, 12).inner(), expected);
        assert_eq!(Wrapping::new(v, -37, 12).into_inner(), expected);
    }
    assert_eq!(WrappingI16::new(-7, -5, 10).inner(), 8);
    assert_eq!(Wrapping::new(-7, -5, 10).into_inner(), 8);
    assert_eq!(WrappingU8::<4, 8>::new(3).inner(), 7);
    assert_eq!(WrappingU8::<4, 8>::new(8).inner(), 4);
}

#[test]
fn wrapping_assignment_matches_the_remainder_formula() {
    for start in 20..30u8 {
        for step in 0..=255u8 {
            let mut up = WrappingU8::<20, 30>::new(start);
            up += step;
            assert_eq!(up.inner() as i128, wrap_by_hand(start as i128 + step as i128, 20, 30));
            let mut down = WrappingU8::<20, 30>::new(start);
            down -= step;
            assert_eq!(down.inner() as i128, wrap_by_hand(start as i128 - step as i128, 20, 30));
        }
    }
    for start in -5..5i16 {
        for step in [i16::MIN, -1000, -11, -10, -1, 0, 1, 9, 10, 1000, i16::MAX] {
            let mut up = WrappingI16::new(start, -5, 5);
            up += step;
            assert_eq!(up.inner() as i128, wrap_by_hand(start as i128 + step as i128, -5, 5));
            let mut down = WrappingI16::new(start, -5, 5);
            down -= step;
            assert_eq!(down.inner() as i128, wrap_by_hand(start as i128 - step as i128, -5, 5));
        }
    }
}

#[test]
fn saturating_clamps_at_both_bounds() {
    assert_eq!(SaturatingU8::<2, 10>::new(10).inner(), 10);
    assert_eq!(SaturatingU8::<2, 10>::new(11).inner(), 10);
    assert_eq!(SaturatingU8::<2, 10>::new(255).inner(), 10);
    assert_eq!(SaturatingU8::<2, 10>::new(1).inner(), 2);
    assert_eq!(SaturatingU8::<2, 10>::new(0).inner(), 2);
    assert_eq!(SaturatingU8::<2, 10>::new(9).inner(), 9);
    for v in -128..=127i8 {
        let expected = clamp_by_hand(v as i128, -10, 10) as i8;
        assert_eq!(SaturatingI8::new(v, -10, 10).inner(), expected);
        assert_eq!(Saturating::new(v, -10, 10).into_inner(), expected);
    }
    assert_eq!(Saturating::new(10.0, 0.0, 10.0), 10.0);
    assert_eq!(Saturating::new(10.5, 0.0, 10.0), 10.0);
    assert_eq!(Saturating::new(-0.5, 0.0, 10.0), 0.0);
    assert_eq!(Saturating::new(9.5, 0.0, 10.0), 9.5);
}

#[test]
fn saturating_bound_absorbs() {
    let mut top = SaturatingU32::<0, 10>::new(4);
    top += 8;
    assert_eq!(top.inner(), 10);
    top += 4;
    assert_eq!(top.inner(), 10);
    for step in [0, 1, 10, 4000001, u32::MAX] {
        top += step;
        assert_eq!(top.inner(), 10);
    }
    let mut bottom = SaturatingU32::<4, 8>::new(6);
    bottom -= 3;
    assert_eq!(bottom.inner(), 4);
    for step in [0, 1, 4, 4000001, u32::MAX] {
        bottom -= step;
        assert_eq!(bottom.inner(), 4);
    }
    let mut signed = SaturatingI8::new(0, -10, 10);
    signed += 127;
    assert_eq!(signed.inner(), 10);
    signed += 127;
    assert_eq!(signed.inner(), 10);
    signed -= 127;
    assert_eq!(signed.inner(), -10);
    signed -= 127;
    assert_eq!(signed.inner(), -10);
    signed -= -128;
    assert_eq!(signed.inner(), 10);
}

#[test]
fn saturating_assignment_matches_the_clamp_formula() {
    for start in -10..=10i8 {
        for step in -128..=127i8 {
            let mut up = SaturatingI8::new(start, -10, 10);
            up += step;
            assert_eq!(up.inner() as i128, clamp_by_hand(start as i128 + step as i128, -10, 10));
            let mut down = SaturatingI8::new(start, -10, 10);
            down -= step;
            assert_eq!(down.inner() as i128, clamp_by_hand(start as i128 - step as i128, -10, 10));
        }
    }
    for start in 20..=30u8 {
        for step in 0..=255u8 {
            let mut up = SaturatingU8::<20, 30>::new(start);
            up += step;
            assert_eq!(up.inner() as i128, clamp_by_hand(start as i128 + step as i128, 20, 30));
            let mut down = SaturatingU8::<20, 30>::new(start);
            down -= step;
            assert_eq!(down.inner() as i128, clamp_by_hand(start as i128 - step as i128, 20, 30));
        }
    }
}

#[test]
fn a_value_in_range_comes_back_unchanged() {
    for v in 20..30u8 {
        assert_eq!(BoundedU8::<20, 30>::new(v).unwrap().inner(), v);
        assert_eq!(WrappingU8::<20, 30>::new(v).inner(), v);
        assert_eq!(SaturatingU8::<20, 30>::new(v).inner(), v);
    }
    assert_eq!(SaturatingU8::<20, 30>::new(30).inner(), 30);
    for v in -10..10i32 {
        assert_eq!(Bounded::new(v, -10, 10).unwrap().into_inner(), v);
        assert_eq!(*Wrapping::new(v, -10, 10).inner(), v);
        assert_eq!(*Saturating::new(v, -10, 10).inner(), v);
    }
    assert_eq!(*Wrapping::new(2.5, 0.0, 10.0).inner(), 2.5);
    assert_eq!(*Saturating::new(2.5, 0.0, 10.0).inner(), 2.5);
    assert_eq!(*Bounded::new(2.5, 0.0, 10.0).unwrap().inner(), 2.5);
}

#[test]
fn worked_examples() {
    let mut w = WrappingU32::<0, 10>::new(4);
    assert_eq!(w + 8, 12);
    w += 8;
    assert_eq!(w.inner(), 2);

    let mut s = SaturatingU32::<0, 10>::new(4);
    s += 8;
    assert_eq!(s.inner(), 10);
    s += 4;
    assert_eq!(s.inner(), 10);

    assert_eq!(BoundedU8::<2, 10>::new(10), Err(BoundsError::TooLarge));
    assert_eq!(BoundedU8::<2, 10>::new(1), Err(BoundsError::TooSmall));
    assert_eq!(BoundedU8::<2, 10>::new(4).unwrap(), 4);

    let mut w = WrappingU32::<4, 8>::new(6);
    w -= 3;
    assert_eq!(w.inner(), 7);

    let mut s = SaturatingU32::<4, 8>::new(6);
    s -= 3;
    assert_eq!(s.inner(), 4);
}
