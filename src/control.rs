//! Control events: what the input source delivers, as the core reads it.
use vstd::prelude::*;

use crate::command::Command;

verus! {

/// The gamepad buttons the core tells apart.
#[derive(Debug, Clone, Copy, PartialEq, Eq, Structural)]
pub enum Button {
    Mode,
    Start,
    LeftTrigger2,
    RightTrigger2,
    DPadUp,
    DPadDown,
    DPadLeft,
    DPadRight,
    Other,
}

/// The gamepad axes the core tells apart.
#[derive(Debug, Clone, Copy, PartialEq, Eq, Structural)]
pub enum StickAxis {
    LeftStickX,
    LeftStickY,
    RightStickX,
    RightStickY,
    Other,
}

/// A gamepad event. Analog values are fixed-point, `FULL_SCALE` for full deflection.
#[derive(Debug, Clone, Copy, PartialEq, Eq, Structural)]
pub enum JoystickEvent {
    ButtonReleased { button: Button },
    ButtonChanged { button: Button, value: i32 },
    AxisChanged { axis: StickAxis, value: i32 },
    Other,
}

/// One input event: from the gamepad, or a key code from the keyboard.
#[derive(Debug, Clone, Copy, PartialEq, Eq, Structural)]
pub enum Control {
    Joystick { event: JoystickEvent },
    Keyboard { keycode: i32 },
}

/// The `w` key.
pub const KEY_W: u8 = 119;

/// The `s` key.
pub const KEY_S: u8 = 115;

/// The `a` key.
pub const KEY_A: u8 = 97;

/// The `d` key.
pub const KEY_D: u8 = 100;

/// The `i` key.
pub const KEY_I: u8 = 105;

/// The `k` key.
pub const KEY_K: u8 = 107;

/// The `j` key.
pub const KEY_J: u8 = 106;

/// The `l` key.
pub const KEY_L: u8 = 108;

/// The key code of the mode-switch key, `m`.
pub const KEYCODE_MODE: i32 = 109;

/// The key code of the quit key, `q`.
pub const KEYCODE_QUIT: i32 = 113;

/// The mode-switch trigger: the Mode button released, or the `m` key.
pub open spec fn mode_trigger(c: Control) -> bool {
    match c {
        Control::Joystick { event: JoystickEvent::ButtonReleased { button } } => button
            == Button::Mode,
        Control::Keyboard { keycode } => keycode == KEYCODE_MODE,
        _ => false,
    }
}

/// The quit trigger: the Start button released, or the `q` key.
pub open spec fn quit_trigger(c: Control) -> bool {
    match c {
        Control::Joystick { event: JoystickEvent::ButtonReleased { button } } => button
            == Button::Start,
        Control::Keyboard { keycode } => keycode == KEYCODE_QUIT,
        _ => false,
    }
}

/// Whether `control` asks to switch to the next mode.
pub fn is_mode_trigger(control: &Control) -> (r: bool)
    ensures
        r == mode_trigger(*control),
{
    match *control {
        Control::Joystick { event: JoystickEvent::ButtonReleased { button } } => match button {
            Button::Mode => true,
            _ => false,
        },
        Control::Keyboard { keycode } => keycode == KEYCODE_MODE,
        _ => false,
    }
}

/// Whether `control` asks to quit.
pub fn is_quit_trigger(control: &Control) -> (r: bool)
    ensures
        r == quit_trigger(*control),
{
    match *control {
        Control::Joystick { event: JoystickEvent::ButtonReleased { button } } => match button {
            Button::Start => true,
            _ => false,
        },
        Control::Keyboard { keycode } => keycode == KEYCODE_QUIT,
        _ => false,
    }
}

/// The character byte of a key code, as the mode handlers read it.
pub open spec fn key_byte(keycode: i32) -> u8 {
    keycode as u8
}

/// The character byte of a key code (its low eight bits).
pub fn keycode_byte(keycode: i32) -> (r: u8)
    ensures
        r == key_byte(keycode),
{
    keycode as u8
}

/// The move of ten units that a released pad direction asks for, if any.
pub open spec fn nudge(button: Button) -> Option<Command> {
    match button {
        Button::DPadDown => Some(Command::MoveTo { x: None, y: Some(-10i32), z: None, f: None }),
        Button::DPadLeft => Some(Command::MoveTo { x: Some(-10i32), y: None, z: None, f: None }),
        Button::DPadRight => Some(Command::MoveTo { x: Some(10i32), y: None, z: None, f: None }),
        Button::DPadUp => Some(Command::MoveTo { x: None, y: Some(10i32), z: None, f: None }),
        _ => None,
    }
}

/// The ten-unit move for a released pad direction: down and up along y, left and right
/// along x; nothing for other events.
pub fn nudge_command(event: JoystickEvent) -> (r: Option<Command>)
    ensures
        r == match event {
            JoystickEvent::ButtonReleased { button } => nudge(button),
            _ => None,
        },
{
    match event {
        JoystickEvent::ButtonReleased { button } => match button {
            Button::DPadDown => Some(Command::MoveTo { x: None, y: Some(-10), z: None, f: None }),
            Button::DPadLeft => Some(Command::MoveTo { x: Some(-10), y: None, z: None, f: None }),
            Button::DPadRight => Some(Command::MoveTo { x: Some(10), y: None, z: None, f: None }),
            Button::DPadUp => Some(Command::MoveTo { x: None, y: Some(10), z: None, f: None }),
            _ => None,
        },
        _ => None,
    }
}

} // verus!
