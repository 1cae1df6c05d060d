use clamps::wrapping::WrappingU32;

#[test]
fn wrapping_can_create() {
    let a = WrappingU32::<3, 9>::new(5);
    assert_eq!(a.inner(), 5)
}

#[test]
fn wrapping_can_add_int() {
    let a = WrappingU32::<3, 9>::new(4);
    assert_eq!(a + 2, 6);
}

#[test]
fn wrapping_can_add_other() {
    let a = WrappingU32::<3, 9>::new(3);
    let b = WrappingU32::<1, 302>::new(4);
    assert_eq!(a + b, 7);
    assert_eq!(b + a, 7);
}

#[test]
fn wrapping_can_addassign_other() {
    let mut a = WrappingU32::<3, 9>::new(3);
    let b = WrappingU32::<0, 10>::new(4);
    a += b;
    assert_eq!(a.inner(), 7);
}

#[test]
fn wrapping_overflow_will_wrap() {
    let mut a = WrappingU32::<0, 10>::new(4);
    assert_eq!(a + 8, 12);

    a += 8;
    assert_ne!(a.inner(), 12);
    assert_eq!(a.inner(), 2);

    a += 4;
    assert_eq!(a.inner(), 6);

    a += 1000001;
    assert_eq!(a.inner(), 7);
}

#[test]
fn wrapping_addassign_matches_new() {
    let mut a = WrappingU32::<0, 10>::new(4);

    let b = WrappingU32::<0, 10>::new(a + 8);
    a += 8;
    assert_eq!(a, b);

    let b = WrappingU32::<0, 10>::new(a + 4);
    a += 4;
    assert_eq!(a, b);

    let b = WrappingU32::<0, 10>::new(a + 1000001);
    a += 1000001;
    assert_eq!(a, b);
}

#[test]
fn test_ord() {
    let a = WrappingU32::<0, 8>::new(5);
    let b = WrappingU32::<5, 20>::new(10);
    let c = 15;

    assert!(a < b);
    assert!(a < c);
    assert!(c > a.inner());
    assert!(c > b.inner());
}
