use fssp::command::{Command, CommandError, GCode};

fn line(c: Command) -> String {
    c.encode().unwrap()
}

#[test]
fn rapid_move_without_parameters() {
    assert_eq!(line(Command::MoveTo { x: None, y: None, z: None, f: None }), "G0 ");
}

#[test]
fn feed_move_appends_feed() {
    assert_eq!(
        line(Command::MoveTo { x: Some(10), y: None, z: None, f: Some(500) }),
        "G1 X10 F500"
    );
}

#[test]
fn move_with_every_axis() {
    assert_eq!(
        line(Command::MoveTo { x: Some(1), y: Some(-2), z: Some(30), f: None }),
        "G0 X1 Y-2 Z30 "
    );
}

#[test]
fn encoding_is_deterministic() {
    let a = Command::RotateTo { u: Some(7), v: Some(-8), f: Some(900) };
    let b = Command::RotateTo { u: Some(7), v: Some(-8), f: Some(900) };
    assert_eq!(a, b);
    assert_eq!(line(a), line(b));
    assert_eq!(line(a), line(a));
}

#[test]
fn rotate_moves() {
    assert_eq!(line(Command::RotateTo { u: Some(-5), v: None, f: None }), "G0 U-5 ");
    assert_eq!(line(Command::RotateTo { u: Some(1), v: Some(2), f: Some(3) }), "G1 U1 V2 F3");
}

#[test]
fn attach_point_out_of_range_is_a_configuration_error() {
    for n in [4, 0, -1, 131] {
        let c = Command::SetAttachPosition { n, x: 1, y: 2, z: 3 };
        assert_eq!(c.encode(), Err(CommandError::ConfigurationError));
    }
}

#[test]
fn attach_points_select_their_codes() {
    assert_eq!(line(Command::SetAttachPosition { n: 1, x: 1, y: 2, z: 3 }), "M131 X1 Y2 Z3 ");
    assert_eq!(line(Command::SetAttachPosition { n: 2, x: 0, y: 0, z: 0 }), "M132 X0 Y0 Z0 ");
    assert_eq!(line(Command::SetAttachPosition { n: 3, x: -4, y: 5, z: 6 }), "M133 X-4 Y5 Z6 ");
}

#[test]
fn fixed_codes() {
    assert_eq!(line(Command::Shutdown), "M00");
    assert_eq!(line(Command::SetAbsolute), "G90");
    assert_eq!(line(Command::SetRelative), "G91");
    assert_eq!(line(Command::MoveToHome), "G28");
    assert_eq!(line(Command::NoOp), "");
}

#[test]
fn set_position_and_pause() {
    assert_eq!(
        line(Command::SetPosition { x: Some(1), y: None, z: None, e: Some(7) }),
        "G92 X1 E7"
    );
    assert_eq!(line(Command::SetPosition { x: None, y: None, z: None, e: None }), "G92 ");
    assert_eq!(line(Command::Pause { p: Some(20), s: Some(1) }), "G4 S1 P20");
    assert_eq!(line(Command::Pause { p: Some(250), s: None }), "G4 P250");
}

#[test]
fn motor_moves() {
    assert_eq!(line(Command::MoveMotorTo { m: 2, l: -15, f: None }), "G0 M2 L-15 ");
    assert_eq!(line(Command::MoveMotorTo { m: 0, l: 16, f: Some(10000) }), "G1 M0 L16 F10000");
}

#[test]
fn extreme_integers() {
    assert_eq!(
        line(Command::MoveTo { x: Some(i32::MIN), y: Some(i32::MAX), z: Some(0), f: None }),
        "G0 X-2147483648 Y2147483647 Z0 "
    );
}

#[test]
fn gcode_trait_writes_the_line() {
    let c = Command::MoveTo { x: Some(10), y: None, z: None, f: Some(500) };
    assert_eq!(c.to_gcode(), "G1 X10 F500");
}

#[test]
fn frames_end_with_a_newline_and_empty_lines_are_not_sent() {
    assert_eq!(Command::Shutdown.frame(), Ok(Some(String::from("M00\n"))));
    assert_eq!(
        Command::MoveTo { x: Some(10), y: None, z: None, f: Some(500) }.frame(),
        Ok(Some(String::from("G1 X10 F500\n")))
    );
    assert_eq!(Command::NoOp.frame(), Ok(None));
    assert_eq!(
        Command::SetAttachPosition { n: 4, x: 0, y: 0, z: 0 }.frame(),
        Err(CommandError::ConfigurationError)
    );
}
