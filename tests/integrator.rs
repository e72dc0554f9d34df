use fssp::command::Command;
use fssp::integrator::{
    merge_messages, Axis, CalibrationIntegrator, ManualIntegrator, Message, MotorTarget, Speed,
    Target,
};
use fssp::shaping::{Config, SHAPED_SCALE};

const FULL: i64 = SHAPED_SCALE;

fn target(x: i64, translational: i64) -> Target {
    Target {
        axis: Axis { x, y: 0, z: 0, u: 0, v: 0 },
        speed: Speed { translational, rotational: 2000 },
    }
}

#[test]
fn queued_updates_give_one_tick_from_the_last() {
    let config = Config::standard();
    let mut i = ManualIntegrator::new(config, target(0, 6000));
    let msgs = vec![
        Message::Target(target(-FULL, 600)),
        Message::Target(target(FULL / 2, 1200)),
        Message::Target(target(FULL, 6000)),
    ];
    let out = i.tick(&msgs);
    assert_eq!(
        out,
        Some(Command::MoveTo { x: Some(1360), y: Some(1800), z: Some(400), f: Some(6000) })
    );
    assert_eq!(i.target, target(FULL, 6000));
    let msgs = vec![Message::Target(target(0, 900)), Message::Target(target(0, 3000))];
    assert_eq!(i.tick(&msgs), Some(Command::RotateTo { u: Some(0), v: Some(0), f: Some(2000) }));
    assert_eq!(i.x, 1_360_000);
}

#[test]
fn tick_after_one_update_matches_tick_after_many() {
    let config = Config::standard();
    let mut a = ManualIntegrator::new(config, target(0, 6000));
    let mut b = ManualIntegrator::new(config, target(0, 6000));
    let many = vec![Message::Target(target(FULL / 3, 900)), Message::Target(target(-FULL / 7, 3000))];
    let one = vec![Message::Target(target(-FULL / 7, 3000))];
    assert_eq!(a.tick(&many), b.tick(&one));
    assert_eq!(a, b);
}

#[test]
fn quit_in_a_batch_ends_the_integrator() {
    let config = Config::standard();
    let mut i = ManualIntegrator::new(config, target(0, 6000));
    let before = i;
    let msgs = vec![Message::Target(target(FULL, 6000)), Message::Quit, Message::Target(target(FULL, 600))];
    assert_eq!(i.tick(&msgs), None);
    assert_eq!(i, before);
}

#[test]
fn empty_batch_keeps_integrating() {
    let config = Config::standard();
    let mut i = ManualIntegrator::new(config, target(-FULL, 600));
    let out = i.tick(&vec![]).unwrap();
    assert_eq!(out, Command::MoveTo { x: Some(1349), y: Some(1800), z: Some(400), f: Some(600) });
    // The rotation tick still integrates the position.
    let out = i.tick(&vec![]).unwrap();
    assert_eq!(out, Command::RotateTo { u: Some(0), v: Some(0), f: Some(2000) });
    let out = i.tick(&vec![]).unwrap();
    assert_eq!(out, Command::MoveTo { x: Some(1347), y: Some(1800), z: Some(400), f: Some(600) });
}

#[test]
fn rotation_integrates_against_rotational_speed() {
    let config = Config::standard();
    let t = Target {
        axis: Axis { x: 0, y: 0, z: 0, u: FULL, v: -FULL / 8 },
        speed: Speed { translational: 6000, rotational: 2400 },
    };
    let mut i = ManualIntegrator::new(config, t);
    // 2400 / 600 = 4 units per tick at full deflection; -0.125 of that is -0.5.
    let out = i.tick(&vec![]).unwrap();
    assert_eq!(out, Command::MoveTo { x: Some(1350), y: Some(1800), z: Some(400), f: Some(6000) });
    let out = i.tick(&vec![]).unwrap();
    assert_eq!(out, Command::RotateTo { u: Some(8), v: Some(-1), f: Some(2400) });
    i.tick(&vec![]).unwrap();
    let out = i.tick(&vec![]).unwrap();
    assert_eq!(out, Command::RotateTo { u: Some(16), v: Some(-2), f: Some(2400) });
}

#[test]
fn last_target_wins_when_merging() {
    let msgs = vec![Message::Target(1), Message::Target(2), Message::Target(3)];
    assert_eq!(merge_messages(0, &msgs), Some(3));
    assert_eq!(merge_messages(7, &vec![]), Some(7));
    assert_eq!(merge_messages(0, &vec![Message::Target(1), Message::Quit]), None);
}

#[test]
fn calibration_moves_only_the_selected_motor() {
    let config = Config::standard();
    let seed = MotorTarget { motor: 0, length: 0, speed: 10_000 };
    let mut c = CalibrationIntegrator::new(config, seed);
    assert_eq!(c.positions, vec![0, 0, 0, 0]);
    let out = c.tick(&vec![Message::Target(MotorTarget { motor: 1, length: FULL, speed: 10_000 })]).unwrap();
    assert_eq!(out, Command::MoveMotorTo { m: 1, l: 16, f: Some(10_000) });
    let out = c.tick(&vec![Message::Target(MotorTarget { motor: 2, length: -FULL, speed: 600 })]).unwrap();
    assert_eq!(out, Command::MoveMotorTo { m: 2, l: -1, f: Some(600) });
    assert_eq!(c.positions, vec![0, 16_666, -1000, 0]);
    assert_eq!(c.tick(&vec![Message::Quit]), None);
    assert_eq!(c.positions, vec![0, 16_666, -1000, 0]);
}

#[test]
fn target_validity() {
    let config = Config::standard();
    assert!(target(FULL, 6000).is_valid(&config));
    assert!(!target(FULL + 1, 6000).is_valid(&config));
    assert!(!target(0, 599).is_valid(&config));
    assert!(MotorTarget { motor: 3, length: 0, speed: 600 }.is_valid(&config));
    assert!(!MotorTarget { motor: 4, length: 0, speed: 600 }.is_valid(&config));
}

#[test]
fn small_shaped_values_accumulate() {
    let config = Config::standard();
    // A stick at 0.05 shapes to 125_000 at scale SHAPED_SCALE; at 60000 per minute that
    // is 12.5 thousandths of a unit per tick, 12 after rounding toward zero.
    let mut i = ManualIntegrator::new(config, target(125_000, 60_000));
    let before = i.x;
    i.tick(&vec![]).unwrap();
    assert_eq!(i.x - before, 12);
}

#[test]
fn manual_ticks_emit_one_command_each_taking_turns() {
    let config = Config::standard();
    let mut i = ManualIntegrator::new(config, target(FULL, 6000));
    for k in 0..6 {
        let out = i.tick(&vec![]).unwrap();
        if k % 2 == 0 {
            assert!(matches!(out, Command::MoveTo { .. }));
        } else {
            assert!(matches!(out, Command::RotateTo { .. }));
        }
    }
    // Six ticks of 10 units each, whichever move each tick emitted.
    assert_eq!(i.x, 1_410_000);
}
