use fssp::shaping::{response_curve, update_speed, Config, SpeedChange, FULL_SCALE, SHAPED_SCALE};

fn scaled(v: f64) -> i32 {
    (v * FULL_SCALE as f64).round() as i32
}

fn shaped(v: f64) -> i64 {
    (v * SHAPED_SCALE as f64).round() as i64
}

#[test]
fn response_curve_deadzone_then_cube() {
    let dz = Config::standard().deadzone;
    assert_eq!(response_curve(scaled(0.04), dz), 0);
    assert_eq!(response_curve(scaled(-0.04), dz), 0);
    assert_eq!(response_curve(scaled(1.0), dz), shaped(1.0));
    assert_eq!(response_curve(scaled(0.5), dz), shaped(0.125));
    assert_eq!(response_curve(scaled(-0.5), dz), shaped(-0.125));
    assert_eq!(response_curve(scaled(-1.0), dz), -SHAPED_SCALE);
    assert_eq!(response_curve(scaled(0.05), dz), shaped(0.000125));
    assert_eq!(response_curve(0, dz), 0);
}

#[test]
fn response_curve_at_the_deadzone_edge() {
    assert_eq!(response_curve(49, 50), 0);
    assert_eq!(response_curve(-49, 50), 0);
    assert_eq!(response_curve(50, 50), 125_000);
    assert_eq!(response_curve(-50, 50), -125_000);
    assert_eq!(response_curve(99, 50), 970_299);
    assert_eq!(response_curve(100, 50), 1_000_000);
    assert_eq!(response_curve(200, 50), 8_000_000);
}

#[test]
fn response_curve_keeps_every_value_just_outside_the_deadzone() {
    for v in 50..100i32 {
        let cube = (v as i64) * (v as i64) * (v as i64);
        assert_eq!(response_curve(v, 50), cube);
        assert_eq!(response_curve(-v, 50), -cube);
        assert_ne!(response_curve(v, 50), 0);
    }
}

#[test]
fn standard_config() {
    let c = Config::standard();
    assert!(c.is_valid());
    assert_eq!(c.min_speed(), 600);
    assert_eq!(c.max_translation_speed, 60_000);
    assert_eq!(c.max_rotation_speed, 2_700);
}

#[test]
fn invalid_config_is_detected() {
    let mut c = Config::standard();
    c.max_rotation_speed = 100;
    assert!(!c.is_valid());
    let mut d = Config::standard();
    d.frequency = 0;
    assert!(!d.is_valid());
}

#[test]
fn halving_from_min_stays_at_min() {
    let min = Config::standard().min_speed();
    let mut s = min;
    for _ in 0..10 {
        let r = update_speed(&mut s, SpeedChange::Halve, min, 60_000);
        assert_eq!(r, min);
        assert_eq!(s, min);
    }
}

#[test]
fn doubling_from_max_stays_at_max() {
    let mut s: i64 = 60_000;
    for _ in 0..10 {
        assert_eq!(update_speed(&mut s, SpeedChange::Double, 600, 60_000), 60_000);
    }
    assert_eq!(s, 60_000);
}

#[test]
fn speed_changes() {
    let mut s: i64 = 6000;
    assert_eq!(update_speed(&mut s, SpeedChange::Double, 600, 60_000), 12_000);
    assert_eq!(update_speed(&mut s, SpeedChange::Halve, 600, 60_000), 6000);
    assert_eq!(update_speed(&mut s, SpeedChange::Increase, 600, 60_000), 6100);
    assert_eq!(update_speed(&mut s, SpeedChange::Decrease, 600, 60_000), 6000);
    let mut low: i64 = 650;
    assert_eq!(update_speed(&mut low, SpeedChange::Decrease, 600, 60_000), 600);
    let mut high: i64 = 2650;
    assert_eq!(update_speed(&mut high, SpeedChange::Increase, 600, 2700), 2700);
}
