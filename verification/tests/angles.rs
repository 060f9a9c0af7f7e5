use one_man::gameplay::angle::{cosine, rotation_towards, sine, step, wrap_turn};
use one_man::gameplay::utils::Vec2;

#[test]
fn sine_is_exact_at_the_quarters() {
    assert_eq!(sine(0), 0);
    assert_eq!(sine(250), 1000);
    assert_eq!(sine(500), 0);
    assert_eq!(sine(750), -1000);
    assert_eq!(sine(1000), 0);
    assert_eq!(sine(-250), -1000);
    assert_eq!(sine(1250), 1000);
}

#[test]
fn cosine_is_exact_at_the_quarters() {
    assert_eq!(cosine(0), 1000);
    assert_eq!(cosine(250), 0);
    assert_eq!(cosine(500), -1000);
    assert_eq!(cosine(750), 0);
    assert_eq!(cosine(-500), -1000);
}

#[test]
fn sine_follows_its_formula_in_between() {
    assert_eq!(sine(125), 705);
    assert_eq!(sine(375), 705);
    assert_eq!(sine(625), -705);
    assert_eq!(sine(50), 310);
    assert_eq!(cosine(50), 950);
    assert_eq!(cosine(450), -950);
}

#[test]
fn sine_is_close_to_the_true_sine() {
    for turn in 0..1000 {
        let truth = (turn as f64 / 1000.0 * std::f64::consts::TAU).sin() * 1000.0;
        assert!((sine(turn) as f64 - truth).abs() < 3.0, "sine({})", turn);
        let truth = (turn as f64 / 1000.0 * std::f64::consts::TAU).cos() * 1000.0;
        assert!((cosine(turn) as f64 - truth).abs() < 3.0, "cosine({})", turn);
    }
}

#[test]
fn angles_wrap_into_one_turn() {
    assert_eq!(wrap_turn(0), 0);
    assert_eq!(wrap_turn(999), 999);
    assert_eq!(wrap_turn(1000), 0);
    assert_eq!(wrap_turn(-1), 999);
    assert_eq!(wrap_turn(-1000), 0);
    assert_eq!(wrap_turn(-1250), 750);
}

#[test]
fn steps_go_along_the_direction() {
    assert_eq!(step(0, 10_000), Vec2::new(10_000, 0));
    assert_eq!(step(250, 10_000), Vec2::new(0, 10_000));
    assert_eq!(step(500, 10_000), Vec2::new(-10_000, 0));
    assert_eq!(step(750, 10_000), Vec2::new(0, -10_000));
    assert_eq!(step(125, 1000), Vec2::new(705, 705));
    assert_eq!(step(0, 0), Vec2::new(0, 0));
    assert_eq!(step(0, -3000), Vec2::new(-3000, 0));
}

#[test]
fn rotation_towards_is_exact_at_the_eighths() {
    let o = Vec2::new(0, 0);
    assert_eq!(rotation_towards(o, Vec2::new(10, 0)), 0);
    assert_eq!(rotation_towards(o, Vec2::new(10, 10)), 125);
    assert_eq!(rotation_towards(o, Vec2::new(0, 10)), 250);
    assert_eq!(rotation_towards(o, Vec2::new(-10, 10)), 375);
    assert_eq!(rotation_towards(o, Vec2::new(-10, 0)), 500);
    assert_eq!(rotation_towards(o, Vec2::new(-10, -10)), -375);
    assert_eq!(rotation_towards(o, Vec2::new(0, -10)), -250);
    assert_eq!(rotation_towards(o, Vec2::new(10, -10)), -125);
    assert_eq!(rotation_towards(o, o), 0);
}

#[test]
fn rotation_towards_is_close_to_the_true_angle() {
    let o = Vec2::new(0, 0);
    for i in 0..360 {
        let a = i as f64 / 360.0 * std::f64::consts::TAU;
        let target = Vec2::new((a.cos() * 100_000.0) as i32, (a.sin() * 100_000.0) as i32);
        let turn = rotation_towards(o, target) as f64;
        let truth = (target.y as f64).atan2(target.x as f64) / std::f64::consts::TAU * 1000.0;
        let mut off = (turn - truth).abs();
        if off > 500.0 {
            off = 1000.0 - off;
        }
        assert!(off < 2.0, "angle {} gives {} for {}", i, turn, truth);
    }
}

#[test]
fn rotation_towards_takes_the_whole_coordinate_range() {
    let a = Vec2::new(i32::MIN, i32::MIN);
    let b = Vec2::new(i32::MAX, i32::MAX);
    assert_eq!(rotation_towards(a, b), 125);
    assert_eq!(rotation_towards(b, a), -375);
    assert_eq!(rotation_towards(Vec2::new(i32::MIN, 0), Vec2::new(i32::MAX, 1)), 0);
}

#[test]
fn aiming_and_stepping_lead_to_the_target() {
    let from = Vec2::new(1000, 2000);
    let target = Vec2::new(301_000, 402_000);
    let turn = rotation_towards(from, target);
    let v = step(turn, 500_000);
    assert!((v.x - 300_000).abs() < 5000);
    assert!((v.y - 400_000).abs() < 5000);
}
