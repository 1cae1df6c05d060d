use clamps::bounded::BoundedI128;
use clamps::bounded::BoundedI16;
use clamps::bounded::BoundedI32;
use clamps::bounded::BoundedI64;
use clamps::bounded::BoundedI8;
use clamps::bounded::BoundedISize;
use clamps::bounded::BoundedU128;
use clamps::bounded::BoundedU16;
use clamps::bounded::BoundedU32;
use clamps::bounded::BoundedU64;
use clamps::bounded::BoundedU8;
use clamps::bounded::BoundsError;
use clamps::saturating::SaturatingI128;
use clamps::saturating::SaturatingI16;
use clamps::saturating::SaturatingI32;
use clamps::saturating::SaturatingI64;
use clamps::saturating::SaturatingI8;
use clamps::saturating::SaturatingISize;
use clamps::saturating::SaturatingU128;
use clamps::saturating::SaturatingU16;
use clamps::saturating::SaturatingU32;
use clamps::saturating::SaturatingU64;
use clamps::saturating::SaturatingU8;
use clamps::saturating::SaturatingUSize;
use clamps::wrapping::WrappingI128;
use clamps::wrapping::WrappingI16;
use clamps::wrapping::WrappingI32;
use clamps::wrapping::WrappingI64;
use clamps::wrapping::WrappingI8;
use clamps::wrapping::WrappingISize;
use clamps::wrapping::WrappingU128;
use clamps::wrapping::WrappingU16;
use clamps::wrapping::WrappingU32;
use clamps::wrapping::WrappingU64;
use clamps::wrapping::WrappingU8;
use clamps::wrapping::WrappingUSize;

#[test]
fn can_create() {
    let a = BoundedU32::<3, 9>::new(5).unwrap();
    assert_eq!(a.inner(), 5)
}

#[test]
fn int_can_create() {
    let a = SaturatingU32::<3, 9>::new(5);
    assert_eq!(a.inner(), 5)
}

#[test]
fn wrapping_int_can_create() {
    let a = WrappingU32::<3, 9>::new(5);
    assert_eq!(a.inner(), 5)
}

#[test]
fn can_add_int() {
    let a = BoundedU32::<3, 9>::new(4).unwrap();
    assert_eq!(a + 2, 6);
}

#[test]
fn int_can_add_int() {
    let a = SaturatingU32::<3, 9>::new(4);
    assert_eq!(a + 2, 6);
}

#[test]
fn wrapping_int_can_add_int() {
    let a = WrappingU32::<3, 9>::new(4);
    assert_eq!(a + 2, 6);
}

#[test]
fn can_add_other() {
    let a = BoundedU32::<3, 9>::new(3).unwrap();
    let b = BoundedU32::<1, 302>::new(4).unwrap();
    assert_eq!(a + b, 7);
    assert_eq!(b + a, 7);
}

#[test]
fn int_can_add_other() {
    let a = SaturatingU32::<3, 9>::new(3);
    let b = SaturatingU32::<1, 302>::new(4);
    assert_eq!(a + b, 7);
    assert_eq!(b + a, 7);
}

#[test]
fn wrapping_int_can_add_other() {
    let a = WrappingU32::<3, 9>::new(3);
    let b = WrappingU32::<1, 302>::new(4);
    assert_eq!(a + b, 7);
    assert_eq!(b + a, 7);
}

#[test]
fn can_addassign_other() {
    let mut a = SaturatingU32::<3, 9>::new(3);
    let b = SaturatingU32::<0, 10>::new(4);
    a += b;
    assert_eq!(a.inner(), 7);
}

#[test]
fn int_can_addassign_other() {
    let mut a = WrappingU32::<3, 9>::new(3);
    let b = WrappingU32::<0, 10>::new(4);
    a += b;
    assert_eq!(a.inner(), 7);
}

#[test]
fn int_cannot_create_outside_of_bounds() {
    assert_eq!(BoundedU32::<2, 10>::new(4).unwrap(), 4);
    assert_eq!(BoundedU32::<2, 10>::new(1), Err(BoundsError::TooSmall));
    assert_eq!(BoundedU32::<2, 10>::new(14), Err(BoundsError::TooLarge));
}

#[test]
fn ord_is_implemented() {
    let a = BoundedU32::<0, 8>::new(5).unwrap();
    let b = BoundedU32::<5, 20>::new(10).unwrap();
    let c = 15;

    assert!(a < b);
    assert!(a < c);
    assert!(c > a.inner());
    assert!(c > b.inner());
}

#[test]
fn int_ord_is_implemented() {
    let a = SaturatingU32::<0, 8>::new(5);
    let b = SaturatingU32::<5, 20>::new(10);
    let c = 15;

    assert!(a < b);
    assert!(a < c);
    assert!(c > a.inner());
    assert!(c > b.inner());
}

#[test]
fn wrapping_int_ord_is_implemented() {
    let a = WrappingU32::<0, 8>::new(5);
    let b = WrappingU32::<5, 20>::new(10);
    let c = 15;

    assert!(a < b);
    assert!(a < c);
    assert!(c > a.inner());
    assert!(c > b.inner());
}

#[test]
fn test_max_and_min() {
    let foo = BoundedISize::new(4, -3, 8).unwrap();
    assert_eq!(foo.min_bound(), -3);
    assert_eq!(foo.max_bound(), 8);
    assert_eq!(foo.range(), -3..8);
}

#[test]
fn int_test_max_and_min() {
    let foo = SaturatingISize::new(4, -3, 8);
    assert_eq!(foo.min_bound(), -3);
    assert_eq!(foo.max_bound(), 8);
    assert_eq!(foo.range(), -3..=8);
}

#[test]
fn int_test_arith() {
    let foo = BoundedISize::new(5, -100, 100).unwrap();
    for num in -10..10 {
        assert_eq!(foo + num, foo.inner() + num);
        assert_eq!(foo - num, foo.inner() - num);
        assert_eq!(foo * num, foo.inner() * num);

        if num != 0 {
            assert_eq!(foo / num, foo.inner() / num);
            assert_eq!(foo % num, foo.inner() % num);
        }
    }
}

#[test]
fn saturating_int_test_arith() {
    let foo = SaturatingISize::new(5, -100, 100);
    for num in -10..10 {
        assert_eq!(foo + num, foo.inner() + num);
        assert_eq!(foo - num, foo.inner() - num);
        assert_eq!(foo * num, foo.inner() * num);

        if num != 0 {
            assert_eq!(foo / num, foo.inner() / num);
            assert_eq!(foo % num, foo.inner() % num);
        }
    }
}

#[test]
fn all_types_exist() {
    let _ = BoundedU8::<0, 10>::new(5).unwrap();
    let _ = BoundedU16::<0, 10>::new(5).unwrap();
    let _ = BoundedU32::<0, 10>::new(5).unwrap();
    let _ = BoundedU64::<0, 10>::new(5).unwrap();
    let _ = BoundedU128::<0, 10>::new(5).unwrap();

    let _ = BoundedI8::new(-5, -10, 10).unwrap();
    let _ = BoundedI16::new(-5, -10, 10).unwrap();
    let _ = BoundedI32::new(-5, -10, 10).unwrap();
    let _ = BoundedI64::new(-5, -10, 10).unwrap();
    let _ = BoundedI128::new(-5, -10, 10).unwrap();
}

#[test]
fn int_all_types_exist() {
    let _ = SaturatingU8::<0, 10>::new(5);
    let _ = SaturatingU16::<0, 10>::new(5);
    let _ = SaturatingU32::<0, 10>::new(5);
    let _ = SaturatingU64::<0, 10>::new(5);
    let _ = SaturatingU128::<0, 10>::new(5);

    let _ = SaturatingI8::new(-5, -10, 10);
    let _ = SaturatingI16::new(-5, -10, 10);
    let _ = SaturatingI32::new(-5, -10, 10);
    let _ = SaturatingI64::new(-5, -10, 10);
    let _ = SaturatingI128::new(-5, -10, 10);
}

#[test]
fn wrapping_int_all_types_exist() {
    let _ = WrappingU8::<0, 10>::new(5);
    let _ = WrappingU16::<0, 10>::new(5);
    let _ = WrappingU32::<0, 10>::new(5);
    let _ = WrappingU64::<0, 10>::new(5);
    let _ = WrappingU128::<0, 10>::new(5);

    let _ = WrappingI8::new(-5, -10, 10);
    let _ = WrappingI16::new(-5, -10, 10);
    let _ = WrappingI32::new(-5, -10, 10);
    let _ = WrappingI64::new(-5, -10, 10);
    let _ = WrappingI128::new(-5, -10, 10);
}

#[test]
fn addassign_matches_new() {
    let mut a = SaturatingU32::<0, 10>::new(4);

    let b = SaturatingU32::<0, 10>::new(a + 8);
    a += 8;
    assert_eq!(a, b);

    let b = SaturatingU32::<0, 10>::new(a + 4);
    a += 4;
    assert_eq!(a, b);

    let b = SaturatingU32::<0, 10>::new(a + 1000001);
    a += 1000001;
    assert_eq!(a, b);
}

#[test]
fn int_addassign_matches_new() {
    let mut a = WrappingU32::<0, 10>::new(4);

    let b = WrappingU32::<0, 10>::new(a + 8);
    a += 8;
    assert_eq!(a, b);

    let b = WrappingU32::<0, 10>::new(a + 4);
    a += 4;
    assert_eq!(a, b);

    let b = WrappingU32::<0, 10>::new(a + 1000001);
    a += 1000001;
    assert_eq!(a, b);
}

#[test]
fn int_overflow_will_wrap() {
    let mut a = WrappingU32::<0, 10>::new(4);
    assert_eq!(a + 8, 12);

    a += 8;
    assert_ne!(a.inner(), 12);
    assert_eq!(a.inner(), 2);

    a += 4;
    assert_eq!(a.inner(), 6);

    a += 1000001;
    assert_eq!(a.inner(), 7);
}

#[test]
fn overflow_will_saturate() {
    let mut a = SaturatingU32::<0, 10>::new(4);
    assert_eq!(a + 8, 12);

    a += 8;
    assert_ne!(a.inner(), 12);
    assert_eq!(a.inner(), 10);

    a += 4;
    assert_eq!(a.inner(), 10);
}

#[test]
fn bounded_underflow_will_saturate() {
    let mut a = SaturatingU32::<4, 8>::new(6);
    assert_eq!(a - 3, 3);

    a -= 3;
    assert_ne!(a.inner(), 3);
    assert_eq!(a.inner(), 4);

    a -= 4;
    assert_eq!(a.inner(), 4);
}

#[test]
fn real_underflow_will_saturate() {
    let mut a = SaturatingU32::<1, 4>::new(2);
    a -= 4000001;
    assert_eq!(a.inner(), 1);
}

#[test]
fn range_is_inclusive() {
    let mut a = SaturatingUSize::<0, 10>::new(5);
    a += 10;
    assert_eq!(a, 10);
}

#[test]
fn range_is_inclusive_signed() {
    let mut a = SaturatingISize::new(5, -10, 10);
    a -= 20;
    assert_eq!(a, -10);
}

#[test]
fn bounded_underflow_will_wrap() {
    let mut a = WrappingU32::<4, 8>::new(6);
    assert_eq!(a - 3, 3);

    a -= 3;
    assert_ne!(a.inner(), 3);
    assert_eq!(a.inner(), 7);

    a -= 4;
    assert_eq!(a.inner(), 7);
}

#[test]
fn real_underflow_will_wrap() {
    let mut a = WrappingU32::<0, 4>::new(2);
    a -= 4000001;
    assert_eq!(a.inner(), 1);
}

#[test]
fn signed_integers_subtract_normally() {
    let mut foo = WrappingI32::new(5, -10, 10);
    foo -= 7;
    assert_eq!(foo, -2);
    foo -= 10;
    assert_eq!(foo, 8);
}

#[test]
fn range_is_not_inclusive() {
    let mut a = WrappingUSize::<0, 10>::new(5);
    a += 5;
    assert_ne!(a, 10);
    assert_eq!(a, 0);
}

#[test]
fn range_is_not_inclusive_signed() {
    let mut a = WrappingISize::new(5, -10, 10);
    a += 5;
    assert_ne!(a, 10);
    assert_eq!(a, -10);
}
