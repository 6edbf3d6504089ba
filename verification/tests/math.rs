use moving_sprite::math::{Vec2, Vec3};

#[test]
fn test_testing() {
    assert_eq!(1 + 1, 2)
}

#[test]
fn new_keeps_the_coordinates() {
    let v = Vec2::new(3, -4);
    assert_eq!((v.x, v.y), (3, -4));
    let w = Vec3::new(5, -6, 7);
    assert_eq!((w.x, w.y, w.z), (5, -6, 7));
}

#[test]
fn extend_adds_the_third_coordinate() {
    assert_eq!(Vec2::new(3, -4).extend(0), Vec3::new(3, -4, 0));
    assert_eq!(Vec2::new(0, 1).extend(-9), Vec3::new(0, 1, -9));
}

#[test]
fn checked_add_sums_each_coordinate() {
    assert_eq!(
        Vec3::new(1, 2, 3).checked_add(Vec3::new(10, -20, 30)),
        Some(Vec3::new(11, -18, 33))
    );
}

#[test]
fn checked_add_reaches_the_ends_of_the_range() {
    assert_eq!(
        Vec3::new(i32::MAX - 1, i32::MIN + 1, 0).checked_add(Vec3::new(1, -1, 0)),
        Some(Vec3::new(i32::MAX, i32::MIN, 0))
    );
}

#[test]
fn checked_add_refuses_an_overflow_in_any_coordinate() {
    assert_eq!(Vec3::new(i32::MAX, 0, 0).checked_add(Vec3::new(1, 0, 0)), None);
    assert_eq!(Vec3::new(0, i32::MIN, 0).checked_add(Vec3::new(0, -1, 0)), None);
    assert_eq!(Vec3::new(0, 0, i32::MAX).checked_add(Vec3::new(0, 0, i32::MAX)), None);
}
