use one_man::gameplay::random::{jitter, scale_by_draw};
use one_man::gameplay::utils::{
    angle_lerp, circles_overlap, clamp_position_inside_camera_area,
    convert_screen_position_to_world_position, distance_sqr, distance_sqr_between, divide,
    is_inside_camera_area, lerp, position_inside_camera_area, pull,
    random_position_inside_camera_area, saturate_i64, Vec2,
};

#[test]
fn squared_distance_is_exact() {
    assert_eq!(distance_sqr(0, 0, 3, 4), 25);
    assert_eq!(distance_sqr(-3, -4, 0, 0), 25);
    assert_eq!(distance_sqr(7, 7, 7, 7), 0);
    assert_eq!(distance_sqr(1, 1, -1, -1), 8);
}

#[test]
fn squared_distance_stops_at_the_largest_value() {
    assert_eq!(distance_sqr(i128::MIN, 0, i128::MAX, 0), i128::MAX);
    assert_eq!(distance_sqr(0, 0, i128::MAX, 0), i128::MAX);
    let big: i128 = 1 << 63;
    assert_eq!(distance_sqr(0, 0, big, 0), 1 << 126);
    assert_eq!(distance_sqr(0, 0, big, big), i128::MAX);
}

#[test]
fn squared_distance_between_points() {
    let a = Vec2::new(i32::MIN, i32::MIN);
    let b = Vec2::new(i32::MAX, i32::MAX);
    let d: i128 = (i32::MAX as i128) - (i32::MIN as i128);
    assert_eq!(distance_sqr_between(a, b), 2 * d * d);
    assert_eq!(distance_sqr_between(Vec2::new(1000, 2000), Vec2::new(4000, 6000)), 25_000_000);
}

#[test]
fn circles_touch_at_the_boundary() {
    let a = Vec2::new(0, 0);
    assert!(circles_overlap(a, 4000, Vec2::new(10_000, 0), 6000));
    assert!(!circles_overlap(a, 4000, Vec2::new(10_001, 0), 6000));
    assert!(circles_overlap(a, 4000, Vec2::new(9_999, 0), 6000));
    assert!(circles_overlap(a, 3000, Vec2::new(3000, 4000), 2000));
    assert!(!circles_overlap(a, 3000, Vec2::new(3000, 4001), 2000));
    assert!(circles_overlap(a, 0, a, 0));
}

#[test]
fn coinciding_circles_touch() {
    let a = Vec2::new(123, -456);
    assert!(circles_overlap(a, 1, a, 1));
    assert!(circles_overlap(a, u32::MAX, Vec2::new(i32::MIN, i32::MAX), u32::MAX));
}

#[test]
fn camera_area_is_inflated_by_the_radius() {
    let camera = Vec2::new(0, -72_000);
    assert!(is_inside_camera_area(camera, Vec2::new(240_000, -72_000), 0));
    assert!(!is_inside_camera_area(camera, Vec2::new(240_001, -72_000), 0));
    assert!(is_inside_camera_area(camera, Vec2::new(240_001, -72_000), 1));
    assert!(is_inside_camera_area(camera, Vec2::new(-248_000, -72_000), 8000));
    assert!(!is_inside_camera_area(camera, Vec2::new(-248_001, -72_000), 8000));
    assert!(is_inside_camera_area(camera, Vec2::new(0, 48_000), 0));
    assert!(!is_inside_camera_area(camera, Vec2::new(0, 48_001), 0));
    assert!(is_inside_camera_area(camera, Vec2::new(0, -192_000), 0));
    assert!(!is_inside_camera_area(camera, Vec2::new(0, -192_001), 0));
}

#[test]
fn positions_are_pulled_back_into_the_camera_area() {
    let camera = Vec2::new(480_000, -72_000);
    let mut p = Vec2::new(0, 0);
    clamp_position_inside_camera_area(camera, &mut p);
    assert_eq!(p, Vec2::new(232_000, 0));
    let mut q = Vec2::new(1_000_000, 100_000);
    clamp_position_inside_camera_area(camera, &mut q);
    assert_eq!(q, Vec2::new(728_000, 48_000));
    let mut r = Vec2::new(500_000, -300_000);
    clamp_position_inside_camera_area(camera, &mut r);
    assert_eq!(r, Vec2::new(500_000, -192_000));
    let mut s = Vec2::new(500_000, -100_000);
    clamp_position_inside_camera_area(camera, &mut s);
    assert_eq!(s, Vec2::new(500_000, -100_000));
}

#[test]
fn screen_positions_are_moved_by_the_camera() {
    let camera = Vec2::new(480_000, -72_000);
    assert_eq!(
        convert_screen_position_to_world_position(camera, Vec2::new(10_000, 2_000)),
        Vec2::new(490_000, -70_000)
    );
    assert_eq!(
        convert_screen_position_to_world_position(Vec2::new(i32::MAX, 0), Vec2::new(1, 0)),
        Vec2::new(i32::MAX, 0)
    );
}

#[test]
fn points_move_and_stop_at_the_end_of_the_range() {
    assert_eq!(Vec2::zero(), Vec2::new(0, 0));
    assert_eq!(Vec2::new(1, 2).translate(3, -5), Vec2::new(4, -3));
    assert_eq!(Vec2::new(i32::MAX - 1, i32::MIN + 1).translate(5, -5), Vec2::new(i32::MAX, i32::MIN));
    assert_eq!(Vec2::new(1, 2).plus(Vec2::new(10, 20)), Vec2::new(11, 22));
    assert_eq!(saturate_i64(5_000_000_000), i32::MAX);
    assert_eq!(saturate_i64(-5_000_000_000), i32::MIN);
    assert_eq!(saturate_i64(-7), -7);
}

#[test]
fn division_rounds_towards_zero() {
    assert_eq!(divide(7, 2), 3);
    assert_eq!(divide(-7, 2), -3);
    assert_eq!(divide(-1, 1000), 0);
    assert_eq!(divide(0, 5), 0);
    assert_eq!(divide(-2000, 1000), -2);
}

#[test]
fn points_are_interpolated() {
    let a = Vec2::new(0, 0);
    let b = Vec2::new(1000, -2000);
    assert_eq!(a.lerp(b, 0), a);
    assert_eq!(a.lerp(b, 1000), b);
    assert_eq!(a.lerp(b, 5000), b);
    assert_eq!(a.lerp(b, 10), Vec2::new(10, -20));
    assert_eq!(a.lerp(b, 500), Vec2::new(500, -1000));
    assert_eq!(Vec2::new(0, 0).lerp(Vec2::new(-99, 99), 10), Vec2::new(0, 0));
}

#[test]
fn points_are_pulled_towards_targets_in_turn() {
    let targets = vec![Vec2::new(1000, 0), Vec2::new(0, 1000)];
    assert_eq!(pull(Vec2::new(0, 0), &targets, 500), Vec2::new(250, 500));
    assert_eq!(pull(Vec2::new(7, 9), &Vec::new(), 500), Vec2::new(7, 9));
}

#[test]
fn values_are_interpolated() {
    assert_eq!(lerp(0, 1000, 250), 250);
    assert_eq!(lerp(0, 1000, -5), 0);
    assert_eq!(lerp(0, 1000, 2000), 1000);
    assert_eq!(lerp(-1000, 1000, 500), 0);
    assert_eq!(lerp(i32::MIN, i32::MAX, 0), i32::MIN);
    assert_eq!(lerp(i32::MIN, i32::MAX, 1000), i32::MAX);
    assert_eq!(lerp(10, 20, 999), 19);
}

#[test]
fn angles_are_interpolated_along_the_shorter_arc() {
    assert_eq!(angle_lerp(100, 300, 500), 200);
    assert_eq!(angle_lerp(900, 100, 500), 0);
    assert_eq!(angle_lerp(100, 900, 500), 0);
    assert_eq!(angle_lerp(950, 50, 250), 975);
    assert_eq!(angle_lerp(1100, 2300, 500), 200);
    assert_eq!(angle_lerp(0, 400, 0), 0);
    assert_eq!(angle_lerp(0, 400, 1000), 400);
}

#[test]
fn draws_select_lengths_below_the_span() {
    assert_eq!(scale_by_draw(1000, 0), 0);
    assert_eq!(scale_by_draw(1000, u32::MAX), 999);
    assert_eq!(scale_by_draw(1000, 1 << 31), 500);
    assert_eq!(scale_by_draw(0, 12345), 0);
    assert_eq!(scale_by_draw(u32::MAX, u32::MAX), u32::MAX - 1);
}

#[test]
fn jitter_lies_around_zero() {
    assert_eq!(jitter(16_000, 0), 8000);
    assert_eq!(jitter(16_000, 1 << 31), 0);
    assert_eq!(jitter(16_000, u32::MAX), -7999);
    assert_eq!(jitter(0, 99), 0);
}

#[test]
fn positions_inside_the_camera_area_by_draws() {
    let camera = Vec2::new(0, -72_000);
    assert_eq!(
        position_inside_camera_area(camera, 100, 100, 800, 400, 0, 0),
        Vec2::new(-192_000, -168_000)
    );
    assert_eq!(
        position_inside_camera_area(camera, 100, 100, 800, 400, 1 << 31, 1 << 31),
        Vec2::new(0, -120_000)
    );
    assert_eq!(
        position_inside_camera_area(camera, 900, 900, 800, 800, u32::MAX, u32::MAX),
        Vec2::new(240_000, 48_000)
    );
}

#[test]
fn random_positions_stay_inside_the_camera_area() {
    let camera = Vec2::new(480_000, -72_000);
    for _ in 0..200 {
        let p = random_position_inside_camera_area(camera, 100, 100, 800, 400);
        assert!(p.x >= 480_000 - 192_000 && p.x < 480_000 + 192_000);
        assert!(p.y >= -72_000 - 96_000 && p.y < -72_000);
        assert!(is_inside_camera_area(camera, p, 0));
    }
}
