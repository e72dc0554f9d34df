//! Calibration mode: one selected motor at a time is driven by the left stick.
use vstd::prelude::*;

use crate::command::Command;
use crate::control::{key_byte, keycode_byte, Button, Control, JoystickEvent, StickAxis, KEY_S, KEY_W};
use crate::integrator::{MotorTarget, NUM_MOTORS};
use crate::mode::{analog, analog_exec, Action, Seed, Status};
use crate::shaping::{adjusted, clamp, update_speed, Config, SpeedChange};

verus! {

/// Calibration mode: drives one selected motor at a time.
#[derive(Debug, Clone, Copy, PartialEq, Eq, Structural)]
pub struct Calibration {
    pub config: Config,
    pub target: MotorTarget,
}

impl Calibration {
    pub open spec fn wf(self) -> bool {
        self.config.wf() && self.target.wf(self.config)
    }

    pub open spec fn status(self) -> Status {
        Status::Calibration { motor: self.target.motor, speed: self.target.speed }
    }

    /// The first motor selected, at rest, at 10000 per minute within bounds.
    pub open spec fn initial(config: Config) -> Calibration {
        Calibration {
            config,
            target: MotorTarget {
                motor: 0,
                length: 0,
                speed: clamp(
                    10_000,
                    config.min_speed_spec(),
                    config.max_translation_speed as int,
                ) as i64,
            },
        }
    }

    /// The state after a button was released: the pad's up and down select the next and
    /// the previous motor, within range, and bring the value to rest.
    pub open spec fn after_button(self, button: Button) -> Calibration {
        let t = self.target;
        match button {
            Button::DPadUp => Calibration {
                target: MotorTarget {
                    length: 0,
                    motor: if t.motor + 1 < NUM_MOTORS {
                        (t.motor + 1) as usize
                    } else {
                        (NUM_MOTORS - 1) as usize
                    },
                    ..t
                },
                ..self
            },
            Button::DPadDown => Calibration {
                target: MotorTarget {
                    length: 0,
                    motor: if t.motor > 0 {
                        (t.motor - 1) as usize
                    } else {
                        0
                    },
                    ..t
                },
                ..self
            },
            _ => self,
        }
    }

    /// The state after a stick axis changed: the left stick's vertical drives the motor.
    pub open spec fn after_axis(self, axis: StickAxis, value: i32) -> Calibration {
        match axis {
            StickAxis::LeftStickY => Calibration {
                target: MotorTarget { length: analog(value, self.config.deadzone), ..self.target },
                ..self
            },
            _ => self,
        }
    }

    pub open spec fn adjusted_by(self, change: SpeedChange) -> Calibration {
        let s = adjusted(
            self.target.speed as int,
            change,
            self.config.min_speed_spec(),
            self.config.max_translation_speed as int,
        );
        Calibration { target: MotorTarget { speed: s as i64, ..self.target }, ..self }
    }

    /// The state after a key: `w` doubles the speed, `s` halves it.
    pub open spec fn after_key(self, keycode: i32) -> Calibration {
        let b = key_byte(keycode);
        if b == KEY_W {
            self.adjusted_by(SpeedChange::Double)
        } else if b == KEY_S {
            self.adjusted_by(SpeedChange::Halve)
        } else {
            self
        }
    }

    /// The state after a control event, and the actions it asks for.
    pub open spec fn handled(self, c: Control) -> (Calibration, Seq<Action>) {
        match c {
            Control::Joystick { event: JoystickEvent::ButtonReleased { button } } => {
                let n = self.after_button(button);
                (n, seq![Action::Show(n.status()), Action::UpdateCalibration(n.target)])
            },
            Control::Joystick { event: JoystickEvent::AxisChanged { axis, value } } => {
                let n = self.after_axis(axis, value);
                (n, seq![Action::UpdateCalibration(n.target)])
            },
            Control::Joystick { .. } => (self, Seq::empty()),
            Control::Keyboard { keycode } => {
                let n = self.after_key(keycode);
                (n, seq![Action::Show(n.status()), Action::UpdateCalibration(n.target)])
            },
        }
    }

    /// Constructs calibration mode: asks for absolute positioning and spawns its integrator.
    pub fn init(config: Config, out: &mut Vec<Action>) -> (r: Calibration)
        requires
            config.wf(),
        ensures
            r == Calibration::initial(config),
            r.wf(),
            final(out)@ == old(out)@ + seq![
                Action::Send(Command::SetAbsolute),
                Action::Spawn(Seed::Calibration(r.target)),
            ],
    {
        let mut speed: i64 = 10_000;
        if speed > config.max_translation_speed {
            speed = config.max_translation_speed;
        }
        if speed < config.min_speed() {
            speed = config.min_speed();
        }
        let c = Calibration { config, target: MotorTarget { motor: 0, length: 0, speed } };
        out.push(Action::Send(Command::SetAbsolute));
        out.push(Action::Spawn(Seed::Calibration(c.target)));
        c
    }

    fn update_target(&self, out: &mut Vec<Action>)
        ensures
            final(out)@ == old(out)@.push(Action::UpdateCalibration(self.target)),
    {
        out.push(Action::UpdateCalibration(self.target));
    }

    pub(crate) fn print_state(&self, out: &mut Vec<Action>)
        ensures
            final(out)@ == old(out)@.push(Action::Show(self.status())),
    {
        out.push(Action::Show(Status::Calibration { motor: self.target.motor, speed: self.target.speed }));
    }

    fn handle_button(&mut self, button: Button, out: &mut Vec<Action>)
        requires
            old(self).wf(),
        ensures
            *final(self) == old(self).after_button(button),
            final(self).wf(),
            final(out)@ == old(out)@ + seq![
                Action::Show(final(self).status()),
                Action::UpdateCalibration(final(self).target),
            ],
    {
        match button {
            Button::DPadUp => {
                self.target.length = 0;
                self.target.motor = if self.target.motor + 1 < NUM_MOTORS {
                    self.target.motor + 1
                } else {
                    NUM_MOTORS - 1
                };
            },
            Button::DPadDown => {
                self.target.length = 0;
                self.target.motor = if self.target.motor > 0 {
                    self.target.motor - 1
                } else {
                    0
                };
            },
            _ => {},
        }
        self.print_state(out);
        self.update_target(out);
        assert(final(out)@ =~= old(out)@ + seq![
            Action::Show(final(self).status()),
            Action::UpdateCalibration(final(self).target),
        ]);
    }

    fn handle_axis(&mut self, axis: StickAxis, value: i32, out: &mut Vec<Action>)
        requires
            old(self).wf(),
        ensures
            *final(self) == old(self).after_axis(axis, value),
            final(self).wf(),
            final(out)@ == old(out)@.push(Action::UpdateCalibration(final(self).target)),
    {
        let a = analog_exec(value, self.config.deadzone);
        match axis {
            StickAxis::LeftStickY => {
                self.target.length = a;
            },
            _ => {},
        }
        self.update_target(out);
    }

    fn handle_key(&mut self, keycode: i32, out: &mut Vec<Action>)
        requires
            old(self).wf(),
        ensures
            *final(self) == old(self).after_key(keycode),
            final(self).wf(),
            final(out)@ == old(out)@ + seq![
                Action::Show(final(self).status()),
                Action::UpdateCalibration(final(self).target),
            ],
    {
        let min = self.config.min_speed();
        let max = self.config.max_translation_speed;
        let b = keycode_byte(keycode);
        if b == KEY_W {
            update_speed(&mut self.target.speed, SpeedChange::Double, min, max);
        } else if b == KEY_S {
            update_speed(&mut self.target.speed, SpeedChange::Halve, min, max);
        }
        self.print_state(out);
        self.update_target(out);
        assert(final(out)@ =~= old(out)@ + seq![
            Action::Show(final(self).status()),
            Action::UpdateCalibration(final(self).target),
        ]);
    }

    /// Interprets a control event into a new target for the integrator.
    pub fn handle(&mut self, control: Control, out: &mut Vec<Action>)
        requires
            old(self).wf(),
        ensures
            *final(self) == old(self).handled(control).0,
            final(self).wf(),
            final(out)@ == old(out)@ + old(self).handled(control).1,
    {
        match control {
            Control::Joystick { event } => match event {
                JoystickEvent::ButtonReleased { button } => self.handle_button(button, out),
                JoystickEvent::AxisChanged { axis, value } => {
                    self.handle_axis(axis, value, out);
                    assert(final(out)@ =~= old(out)@ + old(self).handled(control).1);
                },
                _ => {
                    assert(final(out)@ =~= old(out)@ + old(self).handled(control).1);
                },
            },
            Control::Keyboard { keycode } => self.handle_key(keycode, out),
        }
    }
}

} // verus!
