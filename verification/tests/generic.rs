use clamps::bounded::Bounded;
use clamps::bounded::BoundsError;
use clamps::saturating::Saturating;
use clamps::wrapping::Wrapping;

#[test]
fn test_create() {
    let foo = Bounded::new(3, -5, 74).unwrap();
    assert_eq!(foo.into_inner(), 3)
}

#[test]
fn generic_test_create() {
    let foo = Saturating::new(3, -5, 74);
    assert_eq!(foo.into_inner(), 3)
}

#[test]
fn wrapping_generic_test_create() {
    let foo = Wrapping::new(3, -5, 74);
    assert_eq!(foo.into_inner(), 3)
}

#[test]
fn test_debug() {
    let foo = Bounded::new(3, -5, 74).unwrap();
    let out = foo.debug_string();
    assert_eq!(&out, "Bounded {inner: 3, min: -5, max: 74}")
}

#[test]
fn generic_test_debug() {
    let foo = Saturating::new(3, -5, 74);
    let out = foo.debug_string();
    assert_eq!(&out, "Saturating {inner: 3, min: -5, max: 74}")
}

#[test]
fn wrapping_generic_test_debug() {
    let foo = Wrapping::new(3, -5, 74);
    let out = foo.debug_string();
    assert_eq!(&out, "Wrapping {inner: 3, min: -5, max: 74}")
}

#[test]
fn test_eq() {
    let foo = Bounded::new(3, -5, 74).unwrap();
    let bar = Bounded::new(3, 0, 74).unwrap();
    assert_eq!(foo, 3);
    assert_eq!(bar, 3);
    assert_eq!(foo, bar);
}

#[test]
fn generic_test_eq() {
    let foo = Saturating::new(3, -5, 74);
    let bar = Saturating::new(3, 0, 74);
    assert_eq!(foo, 3);
    assert_eq!(bar, 3);
    assert_eq!(foo, bar);
}

#[test]
fn wrapping_generic_test_eq() {
    let foo = Wrapping::new(3, -5, 74);
    let bar = Wrapping::new(3, 0, 74);
    assert_eq!(foo, 3);
    assert_eq!(bar, 3);
    assert_eq!(foo, bar);
}

#[test]
fn test_arith() {
    let foo = Bounded::new(5.0, -100.0, 100.0).unwrap();
    for i in -10..10 {
        let num = i as f64;
        assert_eq!(foo + num, foo.inner() + num);
        assert_eq!(foo - num, foo.inner() - num);
        assert_eq!(foo * num, foo.inner() * num);

        if num != 0.0 {
            assert_eq!(foo / num, foo.inner() / num);
            assert_eq!(foo % num, foo.inner() % num);
        }
    }
}

#[test]
fn generic_test_arith() {
    let foo = Saturating::new(5.0, -100.0, 100.0);
    for i in -10..10 {
        let num = i as f64;
        assert_eq!(foo + num, foo.inner() + num);
        assert_eq!(foo - num, foo.inner() - num);
        assert_eq!(foo * num, foo.inner() * num);

        if num != 0.0 {
            assert_eq!(foo / num, foo.inner() / num);
            assert_eq!(foo % num, foo.inner() % num);
        }
    }
}

#[test]
fn wrapping_generic_test_arith() {
    let foo = Wrapping::new(5.0, -100.0, 100.0);
    for i in -10..10 {
        let num = i as f64;
        assert_eq!(foo + num, foo.inner() + num);
        assert_eq!(foo - num, foo.inner() - num);
        assert_eq!(foo * num, foo.inner() * num);

        if num != 0.0 {
            assert_eq!(foo / num, foo.inner() / num);
            assert_eq!(foo % num, foo.inner() % num);
        }
    }
}

#[test]
fn generic_cannot_create_outside_of_bounds() {
    assert_eq!(Bounded::new(0.0, -10.0, 10.0).unwrap(), 0.0);
    assert_eq!(Bounded::new(-15.0, -10.0, 10.0), Err(BoundsError::TooSmall));
    assert_eq!(Bounded::new(15.0, -10.0, 10.0), Err(BoundsError::TooLarge));
}

#[test]
fn generic_test_max_and_min() {
    let foo = Wrapping::new(4, -3, 8);
    assert_eq!(foo.min_bound(), &-3);
    assert_eq!(foo.max_bound(), &8);
    assert_eq!(foo.range(), &-3..&8);
}

#[test]
fn test_saturating() {
    let mut foo = Saturating::new(5.0, 0.0, 10.0);
    foo -= 10.0;
    assert_eq!(foo, 0.0);
    foo -= 100.0;
    assert_eq!(foo, 0.0);
    foo += 100.0;
    assert_eq!(foo, 10.0);
}

#[test]
fn test_wrapping() {
    let mut foo = Wrapping::new(0.0, 0.0, 10.0);
    for i in 0..1000 {
        let num = i as f64 / 2.0;

        assert_eq!(foo, num % 10.0);
        assert_eq!(Wrapping::new(num, 0.0, 10.0), foo);

        foo += 0.5;
    }
}
