//! Operating modes, their lifecycle, and the dispatch of control events.
use vstd::prelude::*;
use vstd::string::StringExecFns;

pub mod calibration;
pub mod manual;
pub mod simulation;

pub use calibration::Calibration;
pub use manual::Manual;
pub use simulation::Simulation;

use crate::command::Command;
use crate::control::{is_mode_trigger, is_quit_trigger, mode_trigger, quit_trigger, Control};
use crate::integrator::{MotorTarget, Target};
use crate::shaping::{clamp, response_curve, shape, Config, FULL_SCALE, SHAPED_SCALE};

verus! {

/// The three operating modes.
#[derive(Debug, Clone, Copy, PartialEq, Eq, Structural)]
pub enum ModeKind {
    Manual,
    Calibration,
    Simulation,
}

/// The cyclic successor: Manual, then Calibration, then Simulation, then Manual again.
pub open spec fn successor(k: ModeKind) -> ModeKind {
    match k {
        ModeKind::Manual => ModeKind::Calibration,
        ModeKind::Calibration => ModeKind::Simulation,
        ModeKind::Simulation => ModeKind::Manual,
    }
}

impl ModeKind {
    /// The mode's display name.
    pub fn name(&self) -> (r: String)
        ensures
            r@ == match *self {
                ModeKind::Manual => "Manual"@,
                ModeKind::Calibration => "Calibration"@,
                ModeKind::Simulation => "Simulation"@,
            },
    {
        match *self {
            ModeKind::Manual => String::from_str("Manual"),
            ModeKind::Calibration => String::from_str("Calibration"),
            ModeKind::Simulation => String::from_str("Simulation"),
        }
    }
}

/// What a newly spawned integrator starts from.
#[derive(Debug, Clone, Copy, PartialEq, Eq, Structural)]
pub enum Seed {
    Manual(Target),
    Calibration(MotorTarget),
}

/// The tunables a mode reports when it starts or when they change.
#[derive(Debug, Clone, Copy, PartialEq, Eq, Structural)]
pub enum Status {
    Manual { translational: i64, rotational: i64 },
    Calibration { motor: usize, speed: i64 },
}

/// An effect that the master loop carries out on the core's behalf.
#[derive(Debug, Clone, Copy, PartialEq, Eq, Structural)]
pub enum Action {
    /// Send a command to the command sink.
    Send(Command),
    /// Spawn the active mode's integrator, bound to the command sink.
    Spawn(Seed),
    /// Send a new target to the active manual integrator.
    UpdateManual(Target),
    /// Send a new target to the active calibration integrator.
    UpdateCalibration(MotorTarget),
    /// Send the termination message to the active integrator.
    StopIntegrator,
    /// Report that a mode became active.
    Announce(ModeKind),
    /// Report the active mode's tunables.
    Show(Status),
    /// Report an input event as received.
    Echo(Control),
}

/// An analog value as the core uses it: held to full scale, then shaped.
pub open spec fn analog(value: i32, deadzone: i32) -> i64 {
    shape(clamp(value as int, -FULL_SCALE, FULL_SCALE as int), deadzone as int) as i64
}

pub(crate) fn analog_exec(value: i32, deadzone: i32) -> (r: i64)
    requires
        0 <= deadzone,
    ensures
        r == analog(value, deadzone),
        -SHAPED_SCALE <= r <= SHAPED_SCALE,
{
    let v = if value > FULL_SCALE {
        FULL_SCALE
    } else if value < -FULL_SCALE {
        -FULL_SCALE
    } else {
        value
    };
    response_curve(v, deadzone)
}

/// The active mode and its own state.
#[derive(Debug, Clone, Copy, PartialEq, Eq, Structural)]
pub enum Mode {
    Manual(Manual),
    Calibration(Calibration),
    Simulation(Simulation),
}

impl Mode {
    pub open spec fn kind(self) -> ModeKind {
        match self {
            Mode::Manual(_) => ModeKind::Manual,
            Mode::Calibration(_) => ModeKind::Calibration,
            Mode::Simulation(_) => ModeKind::Simulation,
        }
    }

    pub open spec fn config(self) -> Config {
        match self {
            Mode::Manual(m) => m.config,
            Mode::Calibration(c) => c.config,
            Mode::Simulation(s) => s.config,
        }
    }

    pub open spec fn wf(self) -> bool {
        match self {
            Mode::Manual(m) => m.wf(),
            Mode::Calibration(c) => c.wf(),
            Mode::Simulation(s) => s.config.wf(),
        }
    }

    /// The mode of kind `kind` as `init` constructs it.
    pub open spec fn initial(kind: ModeKind, config: Config) -> Mode {
        match kind {
            ModeKind::Manual => Mode::Manual(Manual::initial(config)),
            ModeKind::Calibration => Mode::Calibration(Calibration::initial(config)),
            ModeKind::Simulation => Mode::Simulation(Simulation { config }),
        }
    }

    /// What `init` asks for: absolute positioning, then the integrator (if the mode has one).
    pub open spec fn init_actions(kind: ModeKind, config: Config) -> Seq<Action> {
        match kind {
            ModeKind::Manual => seq![
                Action::Send(Command::SetAbsolute),
                Action::Spawn(Seed::Manual(Manual::initial(config).target())),
            ],
            ModeKind::Calibration => seq![
                Action::Send(Command::SetAbsolute),
                Action::Spawn(Seed::Calibration(Calibration::initial(config).target)),
            ],
            ModeKind::Simulation => seq![Action::Send(Command::SetAbsolute)],
        }
    }

    /// What `start` asks for: a report of the tunables.
    pub open spec fn start_actions(self) -> Seq<Action> {
        match self {
            Mode::Manual(m) => seq![Action::Show(m.status())],
            Mode::Calibration(c) => seq![Action::Show(c.status())],
            Mode::Simulation(_) => Seq::empty(),
        }
    }

    /// What `stop` asks for: the termination of the integrator (if the mode has one).
    pub open spec fn stop_actions(self) -> Seq<Action> {
        match self {
            Mode::Simulation(_) => Seq::empty(),
            _ => seq![Action::StopIntegrator],
        }
    }

    /// The mode after a (non-trigger) control event, and the actions it asks for.
    pub open spec fn handled(self, c: Control) -> (Mode, Seq<Action>) {
        match self {
            Mode::Manual(m) => (Mode::Manual(m.handled(c).0), m.handled(c).1),
            Mode::Calibration(k) => (Mode::Calibration(k.handled(c).0), k.handled(c).1),
            Mode::Simulation(s) => (self, s.handled(c)),
        }
    }

    /// Constructs the mode of kind `kind`: asks for its initialization commands and spawns
    /// its integrator.
    pub fn init(kind: ModeKind, config: Config, out: &mut Vec<Action>) -> (r: Mode)
        requires
            config.wf(),
        ensures
            r == Mode::initial(kind, config),
            r.wf(),
            final(out)@ == old(out)@ + Mode::init_actions(kind, config),
    {
        match kind {
            ModeKind::Manual => Mode::Manual(Manual::init(config, out)),
            ModeKind::Calibration => Mode::Calibration(Calibration::init(config, out)),
            ModeKind::Simulation => {
                let s = Simulation::init(config, out);
                assert(final(out)@ =~= old(out)@ + Mode::init_actions(kind, config));
                Mode::Simulation(s)
            },
        }
    }

    /// Activates the mode: reports its tunables.
    pub fn start(&self, out: &mut Vec<Action>)
        ensures
            final(out)@ == old(out)@ + self.start_actions(),
    {
        match self {
            Mode::Manual(m) => m.print_state(out),
            Mode::Calibration(c) => c.print_state(out),
            Mode::Simulation(_) => {},
        }
        assert(final(out)@ =~= old(out)@ + self.start_actions());
    }

    /// Deactivates the mode: asks for its integrator to end.
    pub fn stop(&self, out: &mut Vec<Action>)
        ensures
            final(out)@ == old(out)@ + self.stop_actions(),
    {
        match self {
            Mode::Simulation(_) => {},
            _ => out.push(Action::StopIntegrator),
        }
        assert(final(out)@ =~= old(out)@ + self.stop_actions());
    }

    /// The kind of the mode.
    pub fn mode_kind(&self) -> (r: ModeKind)
        ensures
            r == self.kind(),
    {
        match self {
            Mode::Manual(_) => ModeKind::Manual,
            Mode::Calibration(_) => ModeKind::Calibration,
            Mode::Simulation(_) => ModeKind::Simulation,
        }
    }

    /// The mode's display name.
    pub fn name(&self) -> (r: String)
        ensures
            r@ == match self.kind() {
                ModeKind::Manual => "Manual"@,
                ModeKind::Calibration => "Calibration"@,
                ModeKind::Simulation => "Simulation"@,
            },
    {
        self.mode_kind().name()
    }

    /// The kind of the mode that follows this one.
    pub fn next_mode(&self) -> (r: ModeKind)
        ensures
            r == successor(self.kind()),
    {
        match self {
            Mode::Manual(_) => ModeKind::Calibration,
            Mode::Calibration(_) => ModeKind::Simulation,
            Mode::Simulation(_) => ModeKind::Manual,
        }
    }

    /// Interprets a control event that is not a trigger.
    pub fn handle(&mut self, control: Control, out: &mut Vec<Action>)
        requires
            old(self).wf(),
        ensures
            *final(self) == old(self).handled(control).0,
            final(self).wf(),
            final(out)@ == old(out)@ + old(self).handled(control).1,
    {
        match self {
            Mode::Manual(m) => m.handle(control, out),
            Mode::Calibration(c) => c.handle(control, out),
            Mode::Simulation(s) => s.handle(control, out),
        }
    }
}

/// A mode transition: the outgoing mode is stopped, the next one in the cycle is
/// constructed, announced and started.
pub open spec fn transition(m: Mode) -> (Mode, Seq<Action>) {
    let k = successor(m.kind());
    let n = Mode::initial(k, m.config());
    (n, m.stop_actions() + Mode::init_actions(k, m.config()) + seq![Action::Announce(k)]
        + n.start_actions())
}

/// Performs a mode transition.
pub fn next_mode(mode: &mut Mode, out: &mut Vec<Action>)
    requires
        old(mode).wf(),
    ensures
        *final(mode) == transition(*old(mode)).0,
        final(mode).wf(),
        final(out)@ == old(out)@ + transition(*old(mode)).1,
{
    mode.stop(out);
    let config = match mode {
        Mode::Manual(m) => m.config,
        Mode::Calibration(c) => c.config,
        Mode::Simulation(s) => s.config,
    };
    let k = mode.next_mode();
    *mode = Mode::init(k, config, out);
    out.push(Action::Announce(k));
    mode.start(out);
    assert(final(out)@ =~= old(out)@ + transition(*old(mode)).1);
}

/// The result of dispatching control events.
pub struct Step {
    pub mode: Mode,
    pub actions: Seq<Action>,
    pub running: bool,
}

/// Dispatch of one control event. The quit trigger stops the mode and halts the loop;
/// the mode trigger makes a transition; anything else goes to the active mode.
pub open spec fn control_step(m: Mode, c: Control) -> Step {
    if quit_trigger(c) {
        Step { mode: m, actions: m.stop_actions(), running: false }
    } else if mode_trigger(c) {
        Step { mode: transition(m).0, actions: transition(m).1, running: true }
    } else {
        Step { mode: m.handled(c).0, actions: m.handled(c).1, running: true }
    }
}

/// Dispatch of a batch of control events, in order, up to and including a quit trigger.
pub open spec fn controls_step(m: Mode, cs: Seq<Control>) -> Step
    decreases cs.len(),
{
    if cs.len() == 0 {
        Step { mode: m, actions: Seq::empty(), running: true }
    } else {
        let s = control_step(m, cs[0]);
        if !s.running {
            s
        } else {
            let r = controls_step(s.mode, cs.drop_first());
            Step { mode: r.mode, actions: s.actions + r.actions, running: r.running }
        }
    }
}

/// Dispatches one control event; returns whether the master loop goes on.
pub fn handle_control(mode: &mut Mode, control: Control, out: &mut Vec<Action>) -> (r: bool)
    requires
        old(mode).wf(),
    ensures
        final(mode).wf(),
        *final(mode) == control_step(*old(mode), control).mode,
        final(out)@ == old(out)@ + control_step(*old(mode), control).actions,
        r == control_step(*old(mode), control).running,
{
    if is_quit_trigger(&control) {
        mode.stop(out);
        return false;
    }
    if is_mode_trigger(&control) {
        next_mode(mode, out);
        return true;
    }
    mode.handle(control, out);
    true
}

/// Dispatches every queued control event in order; returns `false` once a quit trigger
/// is met, leaving the events after it unread.
pub fn handle_controls(mode: &mut Mode, controls: &Vec<Control>, out: &mut Vec<Action>) -> (r: bool)
    requires
        old(mode).wf(),
    ensures
        final(mode).wf(),
        *final(mode) == controls_step(*old(mode), controls@).mode,
        final(out)@ == old(out)@ + controls_step(*old(mode), controls@).actions,
        r == controls_step(*old(mode), controls@).running,
{
    let ghost m0 = *mode;
    let ghost out0 = out@;
    let mut i: usize = 0;
    assert(controls@.subrange(0, controls@.len() as int) =~= controls@);
    assert(out@ =~= out0 + Seq::<Action>::empty());
    while i < controls.len()
        invariant
            i <= controls@.len(),
            m0 == *old(mode),
            out0 == old(out)@,
            mode.wf(),
            ({
                let total = controls_step(m0, controls@);
                let rest = controls_step(*mode, controls@.subrange(i as int, controls@.len() as int));
                &&& total.mode == rest.mode
                &&& total.running == rest.running
                &&& exists|done: Seq<Action>|
                    out@ == out0 + done && total.actions == done + rest.actions
            }),
        decreases controls@.len() - i,
    {
        let ghost rest = controls@.subrange(i as int, controls@.len() as int);
        let ghost before = out@;
        let ghost mi = *mode;
        assert(rest.drop_first() =~= controls@.subrange(i + 1, controls@.len() as int));
        let go = handle_control(mode, controls[i], out);
        let ghost done = choose|done: Seq<Action>|
            before == out0 + done && controls_step(m0, controls@).actions == done
                + controls_step(mi, rest).actions;
        if !go {
            assert(rest.len() > 0 && rest[0] == controls@[i as int]);
            assert(controls_step(mi, rest) == control_step(mi, rest[0]));
            assert(out@ =~= out0 + done + control_step(mi, rest[0]).actions);
            return false;
        }
        i = i + 1;
        proof {
            let step = control_step(mi, rest[0]);
            let d2 = done + step.actions;
            assert(out@ =~= out0 + d2);
            assert(controls_step(m0, controls@).actions =~= d2 + controls_step(
                *mode,
                controls@.subrange(i as int, controls@.len() as int),
            ).actions);
        }
    }
    proof {
        let rest = controls@.subrange(i as int, controls@.len() as int);
        assert(rest.len() == 0);
        let done = choose|done: Seq<Action>|
            out@ == out0 + done && controls_step(m0, controls@).actions == done
                + controls_step(*mode, rest).actions;
        assert(controls_step(m0, controls@).actions =~= done);
    }
    true
}

/// What opening a session asks for: manual mode's initialization, its announcement and
/// its start.
pub open spec fn session_actions(config: Config) -> Seq<Action> {
    Mode::init_actions(ModeKind::Manual, config) + seq![Action::Announce(ModeKind::Manual)]
        + Mode::initial(ModeKind::Manual, config).start_actions()
}

/// Opens a session: manual mode becomes active.
pub fn open_session(config: Config, out: &mut Vec<Action>) -> (r: Mode)
    requires
        config.wf(),
    ensures
        r == Mode::initial(ModeKind::Manual, config),
        r.wf(),
        final(out)@ == old(out)@ + session_actions(config),
{
    let m = Mode::init(ModeKind::Manual, config, out);
    out.push(Action::Announce(ModeKind::Manual));
    m.start(out);
    assert(final(out)@ =~= old(out)@ + session_actions(config));
    m
}

/// Whether every action that stops an integrator comes before every other action.
pub open spec fn stops_first(a: Seq<Action>) -> bool {
    forall|i: int, j: int|
        0 <= i < a.len() && 0 <= j < a.len() && (#[trigger] a[i]) is StopIntegrator && !((
        #[trigger] a[j]) is StopIntegrator) ==> i < j
}

/// A transition stops the outgoing mode before anything of the incoming one: every
/// termination message comes before the incoming mode's initialization, announcement and
/// start; an outgoing mode with an integrator sends exactly one, first.
pub proof fn transition_stops_before_start(m: Mode)
    ensures
        stops_first(transition(m).1),
        transition(m).0 == Mode::initial(successor(m.kind()), m.config()),
        m.kind() != ModeKind::Simulation ==> transition(m).1[0] is StopIntegrator,
        forall|i: int|
            1 <= i < transition(m).1.len() ==> !((#[trigger] transition(m).1[i]) is StopIntegrator),
{
    let a = transition(m).1;
    let k = successor(m.kind());
    let n = Mode::initial(k, m.config());
    let incoming = Mode::init_actions(k, m.config()) + seq![Action::Announce(k)]
        + n.start_actions();
    assert(a =~= m.stop_actions() + incoming);
    assert forall|i: int| 0 <= i < incoming.len() implies !((#[trigger] incoming[i]) is StopIntegrator) by {
        let p = Mode::init_actions(k, m.config());
        if i < p.len() {
        } else if i == p.len() {
        } else {
            assert(incoming[i] == n.start_actions()[i - p.len() - 1]);
        }
    }
    assert forall|i: int| m.stop_actions().len() <= i < a.len() implies !((#[trigger] a[i]) is StopIntegrator) by {
        assert(a[i] == incoming[i - m.stop_actions().len()]);
    }
}

/// The mode trigger never quits.
pub proof fn triggers_are_distinct(c: Control)
    ensures
        !(mode_trigger(c) && quit_trigger(c)),
{
}

/// Three mode triggers in a row lead from any mode back to a mode of the same kind:
/// Manual, Calibration, Simulation, Manual. The loop keeps running throughout.
pub proof fn three_triggers_cycle(m: Mode, a: Control, b: Control, c: Control)
    requires
        mode_trigger(a),
        mode_trigger(b),
        mode_trigger(c),
    ensures
        controls_step(m, seq![a, b, c]).running,
        controls_step(m, seq![a, b, c]).mode == Mode::initial(m.kind(), m.config()),
        m.kind() == ModeKind::Manual ==> controls_step(m, seq![a, b, c]).mode.kind()
            == ModeKind::Manual,
{
    triggers_are_distinct(a);
    triggers_are_distinct(b);
    triggers_are_distinct(c);
    let cs = seq![a, b, c];
    let m1 = transition(m).0;
    let m2 = transition(m1).0;
    let m3 = transition(m2).0;
    assert(cs.drop_first() =~= seq![b, c]);
    assert(seq![b, c].drop_first() =~= seq![c]);
    assert(seq![c].drop_first() =~= Seq::<Control>::empty());
    assert(cs[0] == a && seq![b, c][0] == b && seq![c][0] == c);
    assert(control_step(m2, c).mode == m3);
    assert(controls_step(m3, Seq::<Control>::empty()).running);
    assert(controls_step(m2, seq![c]).mode == m3);
    assert(controls_step(m1, seq![b, c]).mode == m3);
    assert(controls_step(m, cs).mode == m3);
}

/// A quit trigger halts dispatch: the active mode is stopped, and nothing after the
/// trigger is dispatched.
pub proof fn quit_halts_dispatch(m: Mode, cs: Seq<Control>, k: int)
    requires
        0 <= k < cs.len(),
        quit_trigger(cs[k]),
        forall|j: int| 0 <= j < k ==> !quit_trigger(#[trigger] cs[j]),
    ensures
        ({
            let before = controls_step(m, cs.take(k));
            controls_step(m, cs) == Step {
                mode: before.mode,
                actions: before.actions + before.mode.stop_actions(),
                running: false,
            }
        }),
    decreases k,
{
    if k == 0 {
        assert(cs.take(0) =~= Seq::<Control>::empty());
    } else {
        let s = control_step(m, cs[0]);
        let rest = cs.drop_first();
        assert forall|j: int| 0 <= j < k - 1 implies !quit_trigger(#[trigger] rest[j]) by {
            assert(rest[j] == cs[j + 1]);
        }
        assert(rest[k - 1] == cs[k]);
        quit_halts_dispatch(s.mode, rest, k - 1);
        assert(cs.take(k).drop_first() =~= rest.take(k - 1));
        assert(cs.take(k)[0] == cs[0]);
        let inner = controls_step(s.mode, rest.take(k - 1));
        assert(s.actions + inner.actions + inner.mode.stop_actions() =~= s.actions + (inner.actions
            + inner.mode.stop_actions()));
    }
}

} // verus!
