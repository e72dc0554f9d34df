//! Simulation mode: input is reported as received and drives nothing.
use vstd::prelude::*;

use crate::command::Command;
use crate::control::{Control, JoystickEvent};
use crate::mode::Action;
use crate::shaping::Config;

verus! {

/// Simulation mode: reports its input and drives nothing.
#[derive(Debug, Clone, Copy, PartialEq, Eq, Structural)]
pub struct Simulation {
    pub config: Config,
}

impl Simulation {
    /// The actions a control event asks for: released buttons, axis changes and keys
    /// are reported as received.
    pub open spec fn handled(self, c: Control) -> Seq<Action> {
        match c {
            Control::Joystick { event: JoystickEvent::ButtonReleased { .. } } => seq![
                Action::Echo(c),
            ],
            Control::Joystick { event: JoystickEvent::AxisChanged { .. } } => seq![
                Action::Echo(c),
            ],
            Control::Joystick { .. } => Seq::empty(),
            Control::Keyboard { .. } => seq![Action::Echo(c)],
        }
    }

    /// Constructs simulation mode: asks for absolute positioning.
    pub fn init(config: Config, out: &mut Vec<Action>) -> (r: Simulation)
        ensures
            r.config == config,
            final(out)@ == old(out)@.push(Action::Send(Command::SetAbsolute)),
    {
        out.push(Action::Send(Command::SetAbsolute));
        Simulation { config }
    }

    /// Reports the control event as received.
    pub fn handle(&self, control: Control, out: &mut Vec<Action>)
        ensures
            final(out)@ == old(out)@ + self.handled(control),
    {
        match control {
            Control::Joystick { event } => match event {
                JoystickEvent::ButtonReleased { .. } => out.push(Action::Echo(control)),
                JoystickEvent::AxisChanged { .. } => out.push(Action::Echo(control)),
                _ => {},
            },
            Control::Keyboard { .. } => out.push(Action::Echo(control)),
        }
        assert(final(out)@ =~= old(out)@ + self.handled(control));
    }
}

} // verus!
