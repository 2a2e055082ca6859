use emgl::Vec2i;

#[test]
fn constructors_fill_components() {
    assert_eq!(Vec2i::new(3, -4), Vec2i { x: 3, y: -4 });
    assert_eq!(Vec2i::uniform(7), Vec2i::new(7, 7));
    assert_eq!(Vec2i::zero(), Vec2i::new(0, 0));
}

#[test]
fn tuple_round_trip() {
    let v = Vec2i::from_tuple((5, -6));
    assert_eq!(v, Vec2i::new(5, -6));
    assert_eq!(v.as_tuple(), (5, -6));
}

#[test]
fn componentwise_vector_operators() {
    let a = Vec2i::new(7, -3);
    let b = Vec2i::new(2, 5);
    assert_eq!(a + b, Vec2i::new(9, 2));
    assert_eq!(a - b, Vec2i::new(5, -8));
    assert_eq!(a * b, Vec2i::new(14, -15));
    assert_eq!(a / b, Vec2i::new(3, 0));
}

#[test]
fn scalar_operators_broadcast() {
    let a = Vec2i::new(7, -3);
    assert_eq!(a + 1, Vec2i::new(8, -2));
    assert_eq!(a - 1, Vec2i::new(6, -4));
    assert_eq!(a * 3, Vec2i::new(21, -9));
    assert_eq!(a / 2, Vec2i::new(3, -1));
}

#[test]
fn division_rounds_toward_zero() {
    assert_eq!(Vec2i::new(-7, 7) / -2, Vec2i::new(3, -3));
    assert_eq!(Vec2i::new(-7, -1) / Vec2i::new(2, 3), Vec2i::new(-3, 0));
}

#[test]
fn negation_flips_both_components() {
    assert_eq!(-Vec2i::new(4, -9), Vec2i::new(-4, 9));
    assert_eq!(-Vec2i::zero(), Vec2i::zero());
}

#[test]
fn extreme_components_within_range() {
    let m = Vec2i::new(i32::MAX, i32::MIN);
    assert_eq!(m - Vec2i::new(i32::MAX, 0), Vec2i::new(0, i32::MIN));
    assert_eq!(m / 1, m);
    assert_eq!(Vec2i::new(i32::MAX, i32::MIN + 1) / -1, Vec2i::new(-i32::MAX, i32::MAX));
    assert_eq!(-Vec2i::new(i32::MAX, -i32::MAX), Vec2i::new(-i32::MAX, i32::MAX));
}
