use bevy_bullet_hell::geometry::{
    advance, direction_toward, distance_sq, icbrt, isqrt, offset, overlaps, Pos,
};

#[test]
fn boxes_that_touch_overlap() {
    let a = Pos::new(0, 0);
    let h = Pos::new(1000, 1000);
    assert!(overlaps(a, h, Pos::new(2000, 0), h));
    assert!(overlaps(a, h, Pos::new(2000, 2000), h));
    assert!(!overlaps(a, h, Pos::new(2001, 0), h));
    assert!(!overlaps(a, h, Pos::new(0, -2001), h));
}

#[test]
fn squared_distance_is_exact() {
    assert_eq!(distance_sq(Pos::new(3000, 0), Pos::new(0, 4000)), 25_000_000);
    assert_eq!(
        distance_sq(Pos::new(i32::MIN, i32::MIN), Pos::new(i32::MAX, i32::MAX)),
        2 * (u32::MAX as i128) * (u32::MAX as i128)
    );
}

#[test]
fn integer_roots_round_down() {
    assert_eq!(isqrt(0), 0);
    assert_eq!(isqrt(15), 3);
    assert_eq!(isqrt(16), 4);
    assert_eq!(isqrt(u128::MAX), u64::MAX as u128);
    assert_eq!(icbrt(26), 2);
    assert_eq!(icbrt(27), 3);
    assert_eq!(icbrt(64_000_000_000_000_000), 400_000);
    assert_eq!(icbrt(12_800_000_000_000_000), 233_921);
}

#[test]
fn directions_have_unit_length() {
    assert_eq!(direction_toward(Pos::new(0, 0), Pos::new(5000, 0)), Pos::new(1000, 0));
    assert_eq!(direction_toward(Pos::new(0, 0), Pos::new(0, -1)), Pos::new(0, -1000));
    assert_eq!(direction_toward(Pos::new(0, 0), Pos::new(1, 1)), Pos::new(707, 707));
    assert_eq!(direction_toward(Pos::new(0, 0), Pos::new(3000, 4000)), Pos::new(600, 800));
    assert_eq!(direction_toward(Pos::new(10, 10), Pos::new(1010, 1010)), Pos::new(707, 707));
}

#[test]
fn coincident_points_give_no_direction() {
    assert_eq!(direction_toward(Pos::new(42, -7), Pos::new(42, -7)), Pos::new(0, 0));
}

#[test]
fn advancing_integrates_speed_and_time() {
    // 30 units per second for half a second along +x: 15 units.
    assert_eq!(advance(Pos::new(0, 0), Pos::new(1000, 0), 30, 500_000), Pos::new(15_000, 0));
    assert_eq!(advance(Pos::new(0, 0), Pos::new(-600, 800), 50, 1_000_000), Pos::new(-30_000, 40_000));
    assert_eq!(advance(Pos::new(i32::MAX, 0), Pos::new(1000, 0), 100, 1_000_000), Pos::new(i32::MAX, 0));
}

#[test]
fn offsets_saturate() {
    assert_eq!(offset(Pos::new(1, 2), Pos::new(10, -20)), Pos::new(11, -18));
    assert_eq!(offset(Pos::new(i32::MIN, 0), Pos::new(-1, 0)), Pos::new(i32::MIN, 0));
}
