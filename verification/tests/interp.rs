use mechalicious_core::interp::{angle_lerp, angle_subtract, lerp, Placement, FULL_TURN, HALF_TURN};
use mechalicious_core::rate::Phase;

const QUARTER: u32 = 1 << 30;

fn half() -> Phase {
    Phase::new(1, 2).unwrap()
}

#[test]
fn lerp_blends_linearly() {
    assert_eq!(lerp(10, 20, half()), 15);
    assert_eq!(lerp(10, 20, Phase::new(1, 4).unwrap()), 12);
    assert_eq!(lerp(20, 10, Phase::new(1, 4).unwrap()), 18);
    assert_eq!(lerp(-7, -7, Phase::new(3, 4).unwrap()), -7);
    assert_eq!(lerp(0, 3, half()), 1);
    assert_eq!(lerp(0, -3, half()), -1);
}

#[test]
fn lerp_at_phase_zero_is_the_previous_value() {
    let zero = Phase::new(0, 1_000_000_000).unwrap();
    assert_eq!(lerp(123, -456, zero), 123);
    assert_eq!(lerp(i64::MIN, i64::MAX, zero), i64::MIN);
    assert_eq!(lerp(i64::MAX, i64::MIN, zero), i64::MAX);
}

#[test]
fn lerp_near_phase_one_is_near_the_current_value() {
    let late = Phase::new(999_999_999, 1_000_000_000).unwrap();
    assert_eq!(lerp(0, 1_000_000_000, late), 999_999_999);
    assert_eq!(lerp(0, -1_000_000_000, late), -999_999_999);
}

#[test]
fn lerp_spans_the_whole_range() {
    assert_eq!(lerp(i64::MIN, i64::MAX, half()), -1);
    assert_eq!(lerp(i64::MAX, i64::MIN, half()), 0);
    let late = Phase::new(u64::MAX - 1, u64::MAX).unwrap();
    assert_eq!(lerp(i64::MIN, i64::MAX, late), i64::MAX - 1);
    assert_eq!(lerp(i64::MAX, i64::MIN, late), i64::MIN + 1);
}

#[test]
fn angle_subtract_wraps_into_half_turns() {
    assert_eq!(angle_subtract(5, 3), 2);
    assert_eq!(angle_subtract(3, 5), -2);
    assert_eq!(angle_subtract(0, 3 * QUARTER), QUARTER as i64);
    assert_eq!(angle_subtract(3 * QUARTER, 0), -(QUARTER as i64));
    assert_eq!(angle_subtract(2 * QUARTER, 0), HALF_TURN);
    assert_eq!(angle_subtract(0, 2 * QUARTER), HALF_TURN);
    assert_eq!(angle_subtract(u32::MAX, 0), -1);
    assert_eq!(angle_subtract(0, u32::MAX), 1);
    assert_eq!(FULL_TURN, 2 * HALF_TURN);
}

#[test]
fn angle_lerp_takes_the_short_way() {
    let r = angle_lerp(0, 3 * QUARTER, half());
    assert_eq!(r, 7 * (QUARTER / 2));
    assert_ne!(r, 3 * (QUARTER / 2));
}

#[test]
fn angle_lerp_crosses_zero_both_ways() {
    assert_eq!(angle_lerp(u32::MAX - 9, 10, half()), 0);
    assert_eq!(angle_lerp(10, u32::MAX - 9, half()), 0);
    assert_eq!(angle_lerp(100, 200, Phase::new(1, 4).unwrap()), 125);
    assert_eq!(angle_lerp(77, 3 * QUARTER, Phase::new(0, 5).unwrap()), 77);
}

#[test]
fn phased_placement_blends_position_and_angle_but_not_scale() {
    let prev = Placement { x: 0, y: 100, angle: 0, scale: 10 };
    let cur = Placement { x: 100, y: 0, angle: 3 * QUARTER, scale: 30 };
    let shown = cur.get_phased_transform(&prev, half());
    assert_eq!(shown, Placement { x: 50, y: 50, angle: 7 * (QUARTER / 2), scale: 30 });
    let at_start = cur.get_phased_transform(&prev, Phase::new(0, 1).unwrap());
    assert_eq!(at_start, Placement { x: 0, y: 100, angle: 0, scale: 30 });
}

#[test]
fn default_placement_is_all_zero() {
    assert_eq!(Placement::default(), Placement { x: 0, y: 0, angle: 0, scale: 0 });
}

#[test]
fn lerp_toward_blends_scale_as_well() {
    let mut camera = Placement { x: 0, y: 0, angle: 0, scale: 16 };
    let target = Placement { x: 8, y: -8, angle: QUARTER, scale: 1 };
    camera.lerp_toward(&target, half());
    assert_eq!(camera, Placement { x: 4, y: -4, angle: QUARTER / 2, scale: 9 });
    let before = camera;
    camera.lerp_toward(&target, Phase::new(0, 2).unwrap());
    assert_eq!(camera, before);
}
