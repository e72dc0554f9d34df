//! Manual mode: the sticks and triggers drive three translational and two rotational axes.
use vstd::prelude::*;

use crate::command::Command;
use crate::control::{
    key_byte, keycode_byte, Button, Control, JoystickEvent, StickAxis, KEY_A, KEY_D, KEY_I, KEY_J,
    KEY_K, KEY_L, KEY_S, KEY_W,
};
use crate::integrator::{Axis, Speed, Target};
use crate::mode::{analog, analog_exec, Action, Seed, Status};
use crate::shaping::{adjusted, clamp, update_speed, Config, SpeedChange};

verus! {

/// Manual mode: drives the three translational and two rotational axes.
#[derive(Debug, Clone, Copy, PartialEq, Eq, Structural)]
pub struct Manual {
    pub config: Config,
    pub axis: Axis,
    pub speed: Speed,
}

impl Manual {
    pub open spec fn target(self) -> Target {
        Target { axis: self.axis, speed: self.speed }
    }

    pub open spec fn wf(self) -> bool {
        self.config.wf() && self.target().wf(self.config)
    }

    pub open spec fn status(self) -> Status {
        Status::Manual {
            translational: self.speed.translational,
            rotational: self.speed.rotational,
        }
    }

    /// All axes at rest; translation at 6000 and rotation at 2000 per minute, within bounds.
    pub open spec fn initial(config: Config) -> Manual {
        let min = config.min_speed_spec();
        Manual {
            config,
            axis: Axis { x: 0, y: 0, z: 0, u: 0, v: 0 },
            speed: Speed {
                translational: clamp(6000, min, config.max_translation_speed as int) as i64,
                rotational: clamp(2000, min, config.max_rotation_speed as int) as i64,
            },
        }
    }

    /// The state after an analog button (a trigger) changed.
    pub open spec fn after_button(self, button: Button, value: i32) -> Manual {
        let a = analog(value, self.config.deadzone);
        match button {
            Button::LeftTrigger2 => Manual { axis: Axis { z: (-a) as i64, ..self.axis }, ..self },
            Button::RightTrigger2 => Manual { axis: Axis { z: a, ..self.axis }, ..self },
            _ => self,
        }
    }

    /// The state after a stick axis changed.
    pub open spec fn after_axis(self, axis: StickAxis, value: i32) -> Manual {
        let a = analog(value, self.config.deadzone);
        match axis {
            StickAxis::LeftStickX => Manual { axis: Axis { x: a, ..self.axis }, ..self },
            StickAxis::LeftStickY => Manual { axis: Axis { y: a, ..self.axis }, ..self },
            StickAxis::RightStickX => Manual { axis: Axis { u: a, ..self.axis }, ..self },
            StickAxis::RightStickY => Manual { axis: Axis { v: a, ..self.axis }, ..self },
            _ => self,
        }
    }

    pub open spec fn translated(self, change: SpeedChange) -> Manual {
        let s = adjusted(
            self.speed.translational as int,
            change,
            self.config.min_speed_spec(),
            self.config.max_translation_speed as int,
        );
        Manual { speed: Speed { translational: s as i64, ..self.speed }, ..self }
    }

    pub open spec fn rotated(self, change: SpeedChange) -> Manual {
        let s = adjusted(
            self.speed.rotational as int,
            change,
            self.config.min_speed_spec(),
            self.config.max_rotation_speed as int,
        );
        Manual { speed: Speed { rotational: s as i64, ..self.speed }, ..self }
    }

    /// The state after a key: `w`/`s` double/halve translation, `a`/`d` lower/raise it by
    /// one step; `i`/`k` double/halve rotation, `j`/`l` lower/raise it by one step.
    pub open spec fn after_key(self, keycode: i32) -> Manual {
        let b = key_byte(keycode);
        if b == KEY_W {
            self.translated(SpeedChange::Double)
        } else if b == KEY_S {
            self.translated(SpeedChange::Halve)
        } else if b == KEY_A {
            self.translated(SpeedChange::Decrease)
        } else if b == KEY_D {
            self.translated(SpeedChange::Increase)
        } else if b == KEY_I {
            self.rotated(SpeedChange::Double)
        } else if b == KEY_K {
            self.rotated(SpeedChange::Halve)
        } else if b == KEY_J {
            self.rotated(SpeedChange::Decrease)
        } else if b == KEY_L {
            self.rotated(SpeedChange::Increase)
        } else {
            self
        }
    }

    /// The state after a control event, and the actions it asks for.
    pub open spec fn handled(self, c: Control) -> (Manual, Seq<Action>) {
        match c {
            Control::Joystick { event: JoystickEvent::ButtonChanged { button, value } } => {
                let n = self.after_button(button, value);
                (n, seq![Action::UpdateManual(n.target())])
            },
            Control::Joystick { event: JoystickEvent::AxisChanged { axis, value } } => {
                let n = self.after_axis(axis, value);
                (n, seq![Action::UpdateManual(n.target())])
            },
            Control::Joystick { .. } => (self, Seq::empty()),
            Control::Keyboard { keycode } => {
                let n = self.after_key(keycode);
                (n, seq![Action::Show(n.status()), Action::UpdateManual(n.target())])
            },
        }
    }

    /// Constructs manual mode: asks for absolute positioning and spawns its integrator.
    pub fn init(config: Config, out: &mut Vec<Action>) -> (r: Manual)
        requires
            config.wf(),
        ensures
            r == Manual::initial(config),
            r.wf(),
            final(out)@ == old(out)@ + seq![
                Action::Send(Command::SetAbsolute),
                Action::Spawn(Seed::Manual(r.target())),
            ],
    {
        let min = config.min_speed();
        let mut t: i64 = 6000;
        if t > config.max_translation_speed {
            t = config.max_translation_speed;
        }
        if t < min {
            t = min;
        }
        let mut r: i64 = 2000;
        if r > config.max_rotation_speed {
            r = config.max_rotation_speed;
        }
        if r < min {
            r = min;
        }
        let m = Manual { config, axis: Axis::idle(), speed: Speed { translational: t, rotational: r } };
        out.push(Action::Send(Command::SetAbsolute));
        out.push(Action::Spawn(Seed::Manual(Target { axis: m.axis, speed: m.speed })));
        m
    }

    fn update_target(&self, out: &mut Vec<Action>)
        ensures
            final(out)@ == old(out)@.push(Action::UpdateManual(self.target())),
    {
        out.push(Action::UpdateManual(Target { axis: self.axis, speed: self.speed }));
    }

    pub(crate) fn print_state(&self, out: &mut Vec<Action>)
        ensures
            final(out)@ == old(out)@.push(Action::Show(self.status())),
    {
        out.push(
            Action::Show(
                Status::Manual {
                    translational: self.speed.translational,
                    rotational: self.speed.rotational,
                },
            ),
        );
    }

    fn handle_button(&mut self, button: Button, value: i32, out: &mut Vec<Action>)
        requires
            old(self).wf(),
        ensures
            *final(self) == old(self).after_button(button, value),
            final(self).wf(),
            final(out)@ == old(out)@.push(Action::UpdateManual(final(self).target())),
    {
        let a = analog_exec(value, self.config.deadzone);
        match button {
            Button::LeftTrigger2 => {
                self.axis.z = -a;
            },
            Button::RightTrigger2 => {
                self.axis.z = a;
            },
            _ => {},
        }
        self.update_target(out);
    }

    fn handle_axis(&mut self, axis: StickAxis, value: i32, out: &mut Vec<Action>)
        requires
            old(self).wf(),
        ensures
            *final(self) == old(self).after_axis(axis, value),
            final(self).wf(),
            final(out)@ == old(out)@.push(Action::UpdateManual(final(self).target())),
    {
        let a = analog_exec(value, self.config.deadzone);
        match axis {
            StickAxis::LeftStickX => {
                self.axis.x = a;
            },
            StickAxis::LeftStickY => {
                self.axis.y = a;
            },
            StickAxis::RightStickX => {
                self.axis.u = a;
            },
            StickAxis::RightStickY => {
                self.axis.v = a;
            },
            _ => {},
        }
        self.update_target(out);
    }

    fn handle_key(&mut self, keycode: i32, out: &mut Vec<Action>)
        requires
            old(self).wf(),
        ensures
            *final(self) == old(self).after_key(keycode),
            final(self).wf(),
            final(out)@ == old(out)@ + seq![
                Action::Show(final(self).status()),
                Action::UpdateManual(final(self).target()),
            ],
    {
        let min = self.config.min_speed();
        let max_t = self.config.max_translation_speed;
        let max_r = self.config.max_rotation_speed;
        let b = keycode_byte(keycode);
        if b == KEY_W {
            update_speed(&mut self.speed.translational, SpeedChange::Double, min, max_t);
        } else if b == KEY_S {
            update_speed(&mut self.speed.translational, SpeedChange::Halve, min, max_t);
        } else if b == KEY_A {
            update_speed(&mut self.speed.translational, SpeedChange::Decrease, min, max_t);
        } else if b == KEY_D {
            update_speed(&mut self.speed.translational, SpeedChange::Increase, min, max_t);
        } else if b == KEY_I {
            update_speed(&mut self.speed.rotational, SpeedChange::Double, min, max_r);
        } else if b == KEY_K {
            update_speed(&mut self.speed.rotational, SpeedChange::Halve, min, max_r);
        } else if b == KEY_J {
            update_speed(&mut self.speed.rotational, SpeedChange::Decrease, min, max_r);
        } else if b == KEY_L {
            update_speed(&mut self.speed.rotational, SpeedChange::Increase, min, max_r);
        }
        self.print_state(out);
        self.update_target(out);
        assert(final(out)@ =~= old(out)@ + seq![
            Action::Show(final(self).status()),
            Action::UpdateManual(final(self).target()),
        ]);
    }

    /// Interprets a control event into a new target for the integrator.
    pub fn handle(&mut self, control: Control, out: &mut Vec<Action>)
        requires
            old(self).wf(),
        ensures
            *final(self) == old(self).handled(control).0,
            final(self).wf(),
            final(out)@ == old(out)@ + old(self).handled(control).1,
    {
        match control {
            Control::Joystick { event } => match event {
                JoystickEvent::ButtonChanged { button, value } => {
                    self.handle_button(button, value, out);
                    assert(final(out)@ =~= old(out)@ + old(self).handled(control).1);
                },
                JoystickEvent::AxisChanged { axis, value } => {
                    self.handle_axis(axis, value, out);
                    assert(final(out)@ =~= old(out)@ + old(self).handled(control).1);
                },
                _ => {
                    assert(final(out)@ =~= old(out)@ + old(self).handled(control).1);
                },
            },
            Control::Keyboard { keycode } => self.handle_key(keycode, out),
        }
    }
}

} // verus!
