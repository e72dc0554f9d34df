use fssp::command::Command;
use fssp::control::{
    is_mode_trigger, is_quit_trigger, nudge_command, Button, Control, JoystickEvent, StickAxis,
};
use fssp::integrator::{Axis, MotorTarget, Speed, Target};
use fssp::lander::{Lander, Vec3};
use fssp::mode::{handle_controls, open_session, Action, Mode, ModeKind, Seed, Status};
use fssp::shaping::Config;

fn key(c: char) -> Control {
    Control::Keyboard { keycode: c as i32 }
}

fn released(button: Button) -> Control {
    Control::Joystick { event: JoystickEvent::ButtonReleased { button } }
}

fn axis(axis: StickAxis, value: i32) -> Control {
    Control::Joystick { event: JoystickEvent::AxisChanged { axis, value } }
}

fn session() -> Mode {
    let mut out = Vec::new();
    open_session(Config::standard(), &mut out)
}

#[test]
fn session_opens_in_manual_mode() {
    let mut out = Vec::new();
    let m = open_session(Config::standard(), &mut out);
    assert_eq!(m.mode_kind(), ModeKind::Manual);
    assert_eq!(m.name(), "Manual");
    let idle = Target {
        axis: Axis { x: 0, y: 0, z: 0, u: 0, v: 0 },
        speed: Speed { translational: 6000, rotational: 2000 },
    };
    assert_eq!(
        out,
        vec![
            Action::Send(Command::SetAbsolute),
            Action::Spawn(Seed::Manual(idle)),
            Action::Announce(ModeKind::Manual),
            Action::Show(Status::Manual { translational: 6000, rotational: 2000 }),
        ]
    );
}

#[test]
fn triggers_are_recognised() {
    assert!(is_mode_trigger(&key('m')));
    assert!(is_mode_trigger(&released(Button::Mode)));
    assert!(!is_mode_trigger(&key('q')));
    assert!(is_quit_trigger(&key('q')));
    assert!(is_quit_trigger(&released(Button::Start)));
    assert!(!is_quit_trigger(&released(Button::Mode)));
    let pressed = Control::Joystick {
        event: JoystickEvent::ButtonChanged { button: Button::Mode, value: 1000 },
    };
    assert!(!is_mode_trigger(&pressed));
}

#[test]
fn three_mode_triggers_return_to_manual() {
    let mut m = session();
    let mut out = Vec::new();
    assert!(handle_controls(&mut m, &vec![key('m')], &mut out));
    assert_eq!(m.mode_kind(), ModeKind::Calibration);
    assert!(handle_controls(&mut m, &vec![released(Button::Mode)], &mut out));
    assert_eq!(m.mode_kind(), ModeKind::Simulation);
    assert!(handle_controls(&mut m, &vec![key('m')], &mut out));
    assert_eq!(m.mode_kind(), ModeKind::Manual);
    assert_eq!(m, session());
}

#[test]
fn transition_stops_before_the_next_mode_starts() {
    let mut m = session();
    let mut out = Vec::new();
    assert!(handle_controls(&mut m, &vec![key('m')], &mut out));
    let seed = MotorTarget { motor: 0, length: 0, speed: 10_000 };
    assert_eq!(
        out,
        vec![
            Action::StopIntegrator,
            Action::Send(Command::SetAbsolute),
            Action::Spawn(Seed::Calibration(seed)),
            Action::Announce(ModeKind::Calibration),
            Action::Show(Status::Calibration { motor: 0, speed: 10_000 }),
        ]
    );
    let mut out = Vec::new();
    assert!(handle_controls(&mut m, &vec![key('m')], &mut out));
    assert_eq!(
        out,
        vec![
            Action::StopIntegrator,
            Action::Send(Command::SetAbsolute),
            Action::Announce(ModeKind::Simulation),
        ]
    );
    let mut out = Vec::new();
    assert!(handle_controls(&mut m, &vec![key('m')], &mut out));
    assert_eq!(out[0], Action::Send(Command::SetAbsolute));
    assert!(!out.contains(&Action::StopIntegrator));
}

#[test]
fn quit_halts_and_ignores_later_events() {
    let mut m = session();
    let mut out = Vec::new();
    let go = handle_controls(&mut m, &vec![key('w'), key('q'), key('w'), key('m')], &mut out);
    assert!(!go);
    assert_eq!(m.mode_kind(), ModeKind::Manual);
    let faster = Target {
        axis: Axis { x: 0, y: 0, z: 0, u: 0, v: 0 },
        speed: Speed { translational: 12_000, rotational: 2000 },
    };
    assert_eq!(
        out,
        vec![
            Action::Show(Status::Manual { translational: 12_000, rotational: 2000 }),
            Action::UpdateManual(faster),
            Action::StopIntegrator,
        ]
    );
}

#[test]
fn manual_mode_shapes_sticks_and_triggers() {
    let mut m = session();
    let mut out = Vec::new();
    let trigger = Control::Joystick {
        event: JoystickEvent::ButtonChanged { button: Button::LeftTrigger2, value: 500 },
    };
    assert!(handle_controls(
        &mut m,
        &vec![axis(StickAxis::LeftStickX, 500), axis(StickAxis::RightStickY, -40), trigger],
        &mut out,
    ));
    let last = Target {
        axis: Axis { x: 125_000_000, y: 0, z: -125_000_000, u: 0, v: 0 },
        speed: Speed { translational: 6000, rotational: 2000 },
    };
    assert_eq!(out.len(), 3);
    assert_eq!(out[2], Action::UpdateManual(last));
    // Values beyond full scale are held to it.
    let mut out = Vec::new();
    assert!(handle_controls(&mut m, &vec![axis(StickAxis::LeftStickY, 5000)], &mut out));
    match out[0] {
        Action::UpdateManual(t) => assert_eq!(t.axis.y, 1_000_000_000),
        _ => panic!("expected a target update"),
    }
}

#[test]
fn manual_speed_keys() {
    let mut m = session();
    let mut out = Vec::new();
    let keys = vec![key('s'), key('s'), key('s'), key('s'), key('d'), key('i'), key('i'), key('j')];
    assert!(handle_controls(&mut m, &keys, &mut out));
    match m {
        Mode::Manual(manual) => {
            assert_eq!(manual.speed.translational, 700);
            assert_eq!(manual.speed.rotational, 2600);
        }
        _ => panic!("expected manual mode"),
    }
}

#[test]
fn calibration_selects_motors_within_range() {
    let mut m = session();
    let mut out = Vec::new();
    let up = released(Button::DPadUp);
    let down = released(Button::DPadDown);
    let events = vec![key('m'), down, up, up, up, up, up, axis(StickAxis::LeftStickY, 1000), key('w')];
    assert!(handle_controls(&mut m, &events, &mut out));
    match m {
        Mode::Calibration(c) => {
            assert_eq!(c.target, MotorTarget { motor: 3, length: 1_000_000_000, speed: 20_000 });
        }
        _ => panic!("expected calibration mode"),
    }
    let mut out = Vec::new();
    assert!(handle_controls(&mut m, &vec![down], &mut out));
    assert_eq!(
        out,
        vec![
            Action::Show(Status::Calibration { motor: 2, speed: 20_000 }),
            Action::UpdateCalibration(MotorTarget { motor: 2, length: 0, speed: 20_000 }),
        ]
    );
}

#[test]
fn simulation_echoes_input() {
    let mut m = session();
    let mut out = Vec::new();
    assert!(handle_controls(&mut m, &vec![key('m'), key('m')], &mut out));
    let mut out = Vec::new();
    let changed = Control::Joystick {
        event: JoystickEvent::ButtonChanged { button: Button::DPadUp, value: 1000 },
    };
    let events = vec![key('x'), changed, axis(StickAxis::LeftStickX, 10), released(Button::DPadUp)];
    assert!(handle_controls(&mut m, &events, &mut out));
    assert_eq!(
        out,
        vec![
            Action::Echo(key('x')),
            Action::Echo(axis(StickAxis::LeftStickX, 10)),
            Action::Echo(released(Button::DPadUp)),
        ]
    );
}

#[test]
fn mode_names_and_successors() {
    let m = session();
    assert_eq!(m.next_mode(), ModeKind::Calibration);
    assert_eq!(ModeKind::Calibration.name(), "Calibration");
    assert_eq!(ModeKind::Simulation.name(), "Simulation");
}

#[test]
fn lander_starts_at_rest() {
    let l = Lander::new();
    assert_eq!(l.mass, 0);
    assert_eq!(l.position, Vec3::new(0, 0, 0));
    assert_eq!(l.velocity, Vec3 { x: 0, y: 0, z: 0 });
}

#[test]
fn pad_directions_nudge_ten_units() {
    let down = JoystickEvent::ButtonReleased { button: Button::DPadDown };
    let left = JoystickEvent::ButtonReleased { button: Button::DPadLeft };
    let right = JoystickEvent::ButtonReleased { button: Button::DPadRight };
    let up = JoystickEvent::ButtonReleased { button: Button::DPadUp };
    assert_eq!(nudge_command(down), Some(Command::MoveTo { x: None, y: Some(-10), z: None, f: None }));
    assert_eq!(nudge_command(left), Some(Command::MoveTo { x: Some(-10), y: None, z: None, f: None }));
    assert_eq!(nudge_command(right), Some(Command::MoveTo { x: Some(10), y: None, z: None, f: None }));
    assert_eq!(nudge_command(up), Some(Command::MoveTo { x: None, y: Some(10), z: None, f: None }));
    assert_eq!(nudge_command(JoystickEvent::ButtonReleased { button: Button::Mode }), None);
    let pressed = JoystickEvent::ButtonChanged { button: Button::DPadUp, value: 1000 };
    assert_eq!(nudge_command(pressed), None);
}

#[test]
fn small_stick_input_at_the_deadzone_edge_still_moves() {
    let mut m = session();
    let mut out = Vec::new();
    assert!(handle_controls(&mut m, &vec![axis(StickAxis::LeftStickX, 50)], &mut out));
    match out[0] {
        Action::UpdateManual(t) => assert_eq!(t.axis.x, 125_000),
        _ => panic!("expected a target update"),
    }
    let mut out = Vec::new();
    assert!(handle_controls(&mut m, &vec![axis(StickAxis::LeftStickX, 49)], &mut out));
    match out[0] {
        Action::UpdateManual(t) => assert_eq!(t.axis.x, 0),
        _ => panic!("expected a target update"),
    }
}
