//! Motion control for a multi-axis machine driven from a gamepad or a keyboard:
//! the wire encoding of motion directives, the response curve and speed limits applied
//! to input, the per-mode integrators that turn intent into directives at a fixed tick,
//! and the operating-mode state machine that dispatches control events.

pub mod command;
pub mod control;
pub mod decimal;
pub mod integrator;
pub mod lander;
pub mod mode;
pub mod shaping;
