//! The integrators: per-tick merging of target updates, integration and command emission.
use vstd::prelude::*;

use crate::command::{Command, Num};
use crate::shaping::{clamp, tdiv, Config, SHAPED_SCALE};

verus! {

/// Number of motors that calibration drives.
pub const NUM_MOTORS: usize = 4;

/// Bound on accumulated positions (thousandths of a device unit), so that each fits a `Num`.
pub const POSITION_LIMIT: i64 = 2_147_483_647_000;

/// A message on an integrator's inbound channel.
#[derive(Debug, Clone, Copy, PartialEq, Eq, Structural)]
pub enum Message<T> {
    /// Replaces the integrator's target.
    Target(T),
    /// Ends the integrator: it emits nothing more.
    Quit,
}

/// The target an integrator has after draining `msgs`: the last one received,
/// or `None` once a quit message is met.
pub open spec fn merged<T>(current: T, msgs: Seq<Message<T>>) -> Option<T>
    decreases msgs.len(),
{
    if msgs.len() == 0 {
        Some(current)
    } else {
        match msgs[0] {
            Message::Quit => None,
            Message::Target(t) => merged(t, msgs.drop_first()),
        }
    }
}

/// Drains a batch of messages: the last target wins, and a quit message ends the batch.
pub fn merge_messages<T: Copy>(current: T, msgs: &Vec<Message<T>>) -> (r: Option<T>)
    ensures
        r == merged(current, msgs@),
{
    let mut cur = current;
    let mut i: usize = 0;
    assert(msgs@.subrange(0, msgs@.len() as int) =~= msgs@);
    while i < msgs.len()
        invariant
            i <= msgs@.len(),
            merged(cur, msgs@.subrange(i as int, msgs@.len() as int)) == merged(current, msgs@),
        decreases msgs@.len() - i,
    {
        let ghost rest = msgs@.subrange(i as int, msgs@.len() as int);
        assert(rest.drop_first() =~= msgs@.subrange(i + 1, msgs@.len() as int));
        match msgs[i] {
            Message::Quit => {
                return None;
            },
            Message::Target(t) => {
                cur = t;
            },
        }
        i = i + 1;
    }
    assert(msgs@.subrange(i as int, msgs@.len() as int).len() == 0);
    Some(cur)
}

/// Divisor that turns a shaped value times a speed into thousandths of a device unit per
/// tick: `SHAPED_SCALE / 1000` times the ticks per minute.
pub open spec fn tick_divisor(frequency: int) -> int {
    1_000_000 * (frequency * 60)
}

/// A position (thousandths of a device unit) after one tick at the shaped `value` (scale
/// `SHAPED_SCALE`) and `speed` (device units per minute), held to the position bounds.
pub open spec fn advance(pos: int, value: int, speed: int, frequency: int) -> int {
    clamp(
        pos + tdiv(value * speed, tick_divisor(frequency)),
        -POSITION_LIMIT,
        POSITION_LIMIT as int,
    )
}

/// A position in whole device units, rounded toward zero.
pub open spec fn units(pos: int) -> int {
    tdiv(pos, 1000)
}

/// Whether a shaped value lies within full deflection.
pub open spec fn in_scale(v: int) -> bool {
    -SHAPED_SCALE <= v <= SHAPED_SCALE
}

/// Whether a position lies within the position bounds.
pub open spec fn in_bounds(p: int) -> bool {
    -POSITION_LIMIT <= p <= POSITION_LIMIT
}

proof fn lemma_div_shrinks(a: int, d: int)
    requires
        a >= 0,
        d >= 1,
    ensures
        0 <= a / d <= a,
{
    assert(0 <= a / d <= a) by (nonlinear_arith)
        requires
            a >= 0,
            d >= 1,
    ;
}

fn advance_exec(pos: i64, value: i64, speed: i64, frequency: u32) -> (r: i64)
    requires
        in_bounds(pos as int),
        in_scale(value as int),
        0 <= speed <= crate::shaping::SPEED_LIMIT,
        1 <= frequency <= crate::shaping::FREQUENCY_LIMIT,
    ensures
        r == advance(pos as int, value as int, speed as int, frequency as int),
        in_bounds(r as int),
{
    let per_tick = 1_000_000 * ((frequency as i64) * 60);
    let v = value as i64;
    let delta = if v >= 0 {
        assert(0 <= v * speed <= 1_000_000_000 * 1_000_000_000) by (nonlinear_arith)
            requires
                0 <= v <= 1_000_000_000,
                0 <= speed <= 1_000_000_000,
        ;
        proof {
            lemma_div_shrinks((v * speed) as int, per_tick as int);
        }
        v * speed / per_tick
    } else {
        let w = -v;
        assert(0 <= w * speed <= 1_000_000_000 * 1_000_000_000) by (nonlinear_arith)
            requires
                0 <= w <= 1_000_000_000,
                0 <= speed <= 1_000_000_000,
        ;
        assert(v * speed == -(w * speed)) by (nonlinear_arith)
            requires
                w == -v,
        ;
        proof {
            lemma_div_shrinks((w * speed) as int, per_tick as int);
        }
        -(w * speed / per_tick)
    };
    let sum = pos + delta;
    if sum > POSITION_LIMIT {
        POSITION_LIMIT
    } else if sum < -POSITION_LIMIT {
        -POSITION_LIMIT
    } else {
        sum
    }
}

fn units_exec(pos: i64) -> (r: Num)
    requires
        in_bounds(pos as int),
    ensures
        r == units(pos as int),
{
    if pos >= 0 {
        (pos / 1000) as Num
    } else {
        -((-pos) / 1000) as Num
    }
}

/// The shaped analog intent on each axis of manual motion, at scale `SHAPED_SCALE`.
#[derive(Debug, Clone, Copy, PartialEq, Eq, Structural)]
pub struct Axis {
    pub x: i64,
    pub y: i64,
    pub z: i64,
    pub u: i64,
    pub v: i64,
}

/// Translational and rotational speed, in device units per minute.
#[derive(Debug, Clone, Copy, PartialEq, Eq, Structural)]
pub struct Speed {
    pub translational: i64,
    pub rotational: i64,
}

/// The accumulated intent of manual motion.
#[derive(Debug, Clone, Copy, PartialEq, Eq, Structural)]
pub struct Target {
    pub axis: Axis,
    pub speed: Speed,
}

impl Axis {
    /// All axes at rest.
    pub fn idle() -> (r: Axis)
        ensures
            r.x == 0 && r.y == 0 && r.z == 0 && r.u == 0 && r.v == 0,
    {
        Axis { x: 0, y: 0, z: 0, u: 0, v: 0 }
    }

    pub open spec fn wf(&self) -> bool {
        in_scale(self.x as int) && in_scale(self.y as int) && in_scale(self.z as int) && in_scale(
            self.u as int,
        ) && in_scale(self.v as int)
    }
}

impl Target {
    /// Axis values within full deflection, each speed within its configured bounds.
    pub open spec fn wf(&self, config: Config) -> bool {
        &&& self.axis.wf()
        &&& config.min_speed_spec() <= self.speed.translational <= config.max_translation_speed
        &&& config.min_speed_spec() <= self.speed.rotational <= config.max_rotation_speed
    }

    /// Checks what `wf` states.
    pub fn is_valid(&self, config: &Config) -> (r: bool)
        requires
            config.wf(),
        ensures
            r == self.wf(*config),
    {
        let a = self.axis;
        let min = config.min_speed();
        -SHAPED_SCALE <= a.x && a.x <= SHAPED_SCALE && -SHAPED_SCALE <= a.y && a.y <= SHAPED_SCALE
            && -SHAPED_SCALE <= a.z && a.z <= SHAPED_SCALE && -SHAPED_SCALE <= a.u && a.u <= SHAPED_SCALE
            && -SHAPED_SCALE <= a.v && a.v <= SHAPED_SCALE && min <= self.speed.translational
            && self.speed.translational <= config.max_translation_speed && min
            <= self.speed.rotational && self.speed.rotational <= config.max_rotation_speed
    }
}

/// The target after a batch is the current one or one of those in the batch.
pub proof fn lemma_merged_source<T>(current: T, msgs: Seq<Message<T>>)
    ensures
        merged(current, msgs) matches Some(t) ==> t == current || exists|k: int|
            0 <= k < msgs.len() && #[trigger] msgs[k] == Message::Target(t),
    decreases msgs.len(),
{
    if msgs.len() > 0 {
        if let Message::Target(t0) = msgs[0] {
            let rest = msgs.drop_first();
            lemma_merged_source(t0, rest);
            if let Some(t) = merged(current, msgs) {
                if t == t0 {
                    assert(msgs[0] == Message::Target(t));
                } else {
                    let k = choose|k: int| 0 <= k < rest.len() && #[trigger] rest[k] == Message::Target(t);
                    assert(msgs[k + 1] == Message::Target(t));
                }
            }
        }
    }
}

/// Whether every target in a batch of manual updates is well formed.
pub open spec fn targets_wf(msgs: Seq<Message<Target>>, config: Config) -> bool {
    forall|k: int| 0 <= k < msgs.len() ==> (#[trigger] msgs[k] matches Message::Target(t) ==> t.wf(config))
}

/// The integrator of manual motion: positions and rotations, in thousandths of a device unit.
///
/// Every tick integrates all five axes and emits exactly one command. No single directive
/// carries both translation and rotation, so the ticks take turns: the position move on
/// one tick, the rotation move on the next. Positions are absolute, so each move carries
/// everything accumulated since the previous move of its kind.
#[derive(Debug, Clone, Copy, PartialEq, Eq, Structural)]
pub struct ManualIntegrator {
    pub config: Config,
    pub target: Target,
    pub x: i64,
    pub y: i64,
    pub z: i64,
    pub u: i64,
    pub v: i64,
    /// Whether the next tick emits the rotation move (else the position move).
    pub rotation_turn: bool,
}

/// What a tick does: the integrator's next state, and the one command it emits
/// (`None` when the integrator ends instead).
pub struct Outcome<S> {
    pub state: S,
    pub command: Option<Command>,
}

impl ManualIntegrator {
    pub open spec fn wf(&self) -> bool {
        &&& self.config.wf()
        &&& self.target.wf(self.config)
        &&& in_bounds(self.x as int) && in_bounds(self.y as int) && in_bounds(self.z as int)
        &&& in_bounds(self.u as int) && in_bounds(self.v as int)
    }

    /// An integrator at the home pose (1350, 1800, 400), unrotated, seeded with `target`;
    /// its first tick emits the position move.
    pub fn new(config: Config, target: Target) -> (r: ManualIntegrator)
        requires
            config.wf(),
            target.wf(config),
        ensures
            r.wf(),
            r.config == config,
            r.target == target,
            r.x == 1_350_000 && r.y == 1_800_000 && r.z == 400_000 && r.u == 0 && r.v == 0,
            !r.rotation_turn,
    {
        ManualIntegrator {
            config,
            target,
            x: 1_350_000,
            y: 1_800_000,
            z: 400_000,
            u: 0,
            v: 0,
            rotation_turn: false,
        }
    }

    /// The state after integrating one tick toward `t`; the turn passes to the other move.
    pub open spec fn step(self, t: Target) -> ManualIntegrator {
        let f = self.config.frequency as int;
        let ts = t.speed.translational as int;
        let rs = t.speed.rotational as int;
        ManualIntegrator {
            config: self.config,
            target: t,
            x: advance(self.x as int, t.axis.x as int, ts, f) as i64,
            y: advance(self.y as int, t.axis.y as int, ts, f) as i64,
            z: advance(self.z as int, t.axis.z as int, ts, f) as i64,
            u: advance(self.u as int, t.axis.u as int, rs, f) as i64,
            v: advance(self.v as int, t.axis.v as int, rs, f) as i64,
            rotation_turn: !self.rotation_turn,
        }
    }

    /// The position move for the current state, at the translational speed.
    pub open spec fn position_move(self) -> Command {
        Command::MoveTo {
            x: Some(units(self.x as int) as Num),
            y: Some(units(self.y as int) as Num),
            z: Some(units(self.z as int) as Num),
            f: Some(self.target.speed.translational as Num),
        }
    }

    /// The rotation move for the current state, at the rotational speed.
    pub open spec fn rotation_move(self) -> Command {
        Command::RotateTo {
            u: Some(units(self.u as int) as Num),
            v: Some(units(self.v as int) as Num),
            f: Some(self.target.speed.rotational as Num),
        }
    }

    /// One tick on a drained batch of messages: the state after it, and its one command,
    /// the rotation move or the position move as the turn says.
    pub open spec fn outcome(self, msgs: Seq<Message<Target>>) -> Outcome<ManualIntegrator> {
        match merged(self.target, msgs) {
            None => Outcome { state: self, command: None },
            Some(t) => {
                let n = self.step(t);
                Outcome {
                    state: n,
                    command: Some(
                        if self.rotation_turn {
                            n.rotation_move()
                        } else {
                            n.position_move()
                        },
                    ),
                }
            },
        }
    }

    /// Runs one tick: drains `msgs` (the last target wins; a quit message ends the
    /// integrator, which then emits nothing), integrates every axis, and returns the one
    /// command of this tick.
    pub fn tick(&mut self, msgs: &Vec<Message<Target>>) -> (r: Option<Command>)
        requires
            old(self).wf(),
            targets_wf(msgs@, old(self).config),
        ensures
            final(self).wf(),
            *final(self) == old(self).outcome(msgs@).state,
            r == old(self).outcome(msgs@).command,
    {
        proof {
            lemma_merged_source(self.target, msgs@);
        }
        let t = match merge_messages(self.target, msgs) {
            None => {
                return None;
            },
            Some(t) => t,
        };
        let f = self.config.frequency;
        let ts = t.speed.translational;
        let rs = t.speed.rotational;
        let rotation = self.rotation_turn;
        self.target = t;
        self.x = advance_exec(self.x, t.axis.x, ts, f);
        self.y = advance_exec(self.y, t.axis.y, ts, f);
        self.z = advance_exec(self.z, t.axis.z, ts, f);
        self.u = advance_exec(self.u, t.axis.u, rs, f);
        self.v = advance_exec(self.v, t.axis.v, rs, f);
        self.rotation_turn = !rotation;
        if rotation {
            Some(
                Command::RotateTo {
                    u: Some(units_exec(self.u)),
                    v: Some(units_exec(self.v)),
                    f: Some(rs as Num),
                },
            )
        } else {
            Some(
                Command::MoveTo {
                    x: Some(units_exec(self.x)),
                    y: Some(units_exec(self.y)),
                    z: Some(units_exec(self.z)),
                    f: Some(ts as Num),
                },
            )
        }
    }
}

/// The intent of calibration: the selected motor, its shaped analog value (at scale
/// `SHAPED_SCALE`) and its speed.
#[derive(Debug, Clone, Copy, PartialEq, Eq, Structural)]
pub struct MotorTarget {
    pub motor: usize,
    pub length: i64,
    pub speed: i64,
}

impl MotorTarget {
    /// A motor index in range, the value within full deflection, the speed within the
    /// translational bounds.
    pub open spec fn wf(&self, config: Config) -> bool {
        &&& self.motor < NUM_MOTORS
        &&& in_scale(self.length as int)
        &&& config.min_speed_spec() <= self.speed <= config.max_translation_speed
    }

    /// Checks what `wf` states.
    pub fn is_valid(&self, config: &Config) -> (r: bool)
        requires
            config.wf(),
        ensures
            r == self.wf(*config),
    {
        self.motor < NUM_MOTORS && -SHAPED_SCALE <= self.length && self.length <= SHAPED_SCALE
            && config.min_speed() <= self.speed && self.speed <= config.max_translation_speed
    }
}

/// Whether every target in a batch of calibration updates is well formed.
pub open spec fn motor_targets_wf(msgs: Seq<Message<MotorTarget>>, config: Config) -> bool {
    forall|k: int| 0 <= k < msgs.len() ==> (#[trigger] msgs[k] matches Message::Target(t) ==> t.wf(config))
}

/// The integrator of calibration: one absolute length per motor, in thousandths of a device unit.
#[derive(Debug)]
pub struct CalibrationIntegrator {
    pub config: Config,
    pub target: MotorTarget,
    pub positions: Vec<i64>,
}

/// The motor lengths after one tick toward `t`: only the selected motor moves.
pub open spec fn step_lengths(positions: Seq<i64>, t: MotorTarget, frequency: int) -> Seq<i64> {
    positions.update(
        t.motor as int,
        advance(positions[t.motor as int] as int, t.length as int, t.speed as int, frequency) as i64,
    )
}

/// The command for the selected motor: its length in whole units, at its speed.
pub open spec fn motor_command(positions: Seq<i64>, t: MotorTarget) -> Command {
    Command::MoveMotorTo {
        m: t.motor as Num,
        l: units(positions[t.motor as int] as int) as Num,
        f: Some(t.speed as Num),
    }
}

impl CalibrationIntegrator {
    pub open spec fn wf(&self) -> bool {
        &&& self.config.wf()
        &&& self.target.wf(self.config)
        &&& self.positions@.len() == NUM_MOTORS
        &&& forall|k: int| 0 <= k < NUM_MOTORS ==> in_bounds(#[trigger] self.positions@[k] as int)
    }

    /// An integrator with every motor length at zero, seeded with `target`.
    pub fn new(config: Config, target: MotorTarget) -> (r: CalibrationIntegrator)
        requires
            config.wf(),
            target.wf(config),
        ensures
            r.wf(),
            r.config == config,
            r.target == target,
            r.positions@ == Seq::new(NUM_MOTORS as nat, |i: int| 0i64),
    {
        let mut positions: Vec<i64> = Vec::new();
        let mut k: usize = 0;
        while k < NUM_MOTORS
            invariant
                k <= NUM_MOTORS,
                positions@ == Seq::new(k as nat, |i: int| 0i64),
            decreases NUM_MOTORS - k,
        {
            positions.push(0);
            k = k + 1;
            assert(positions@ =~= Seq::new(k as nat, |i: int| 0i64));
        }
        CalibrationIntegrator { config, target, positions }
    }

    /// Runs one tick: drains `msgs` (the last target wins; a quit message ends the
    /// integrator, which then emits nothing), advances the selected motor, and returns
    /// its command. Every other motor keeps its length.
    pub fn tick(&mut self, msgs: &Vec<Message<MotorTarget>>) -> (r: Option<Command>)
        requires
            old(self).wf(),
            motor_targets_wf(msgs@, old(self).config),
        ensures
            final(self).wf(),
            final(self).config == old(self).config,
            r is None <==> merged(old(self).target, msgs@) is None,
            r is None ==> final(self).target == old(self).target && final(self).positions@
                == old(self).positions@,
            merged(old(self).target, msgs@) matches Some(t) ==> {
                &&& final(self).target == t
                &&& final(self).positions@ == step_lengths(
                    old(self).positions@,
                    t,
                    old(self).config.frequency as int,
                )
                &&& r == Some(motor_command(final(self).positions@, t))
            },
    {
        proof {
            lemma_merged_source(self.target, msgs@);
        }
        let t = match merge_messages(self.target, msgs) {
            None => {
                return None;
            },
            Some(t) => t,
        };
        let m = t.motor;
        let p = advance_exec(self.positions[m], t.length, t.speed, self.config.frequency);
        self.target = t;
        self.positions.set(m, p);
        Some(Command::MoveMotorTo { m: m as Num, l: units_exec(p), f: Some(t.speed as Num) })
    }
}

/// Target updates queued before a tick coalesce: after a batch of updates the
/// integrator holds exactly the last one, as if only that one had been sent.
pub proof fn updates_coalesce<T>(current: T, msgs: Seq<Message<T>>)
    requires
        msgs.len() > 0,
        forall|k: int| 0 <= k < msgs.len() ==> (#[trigger] msgs[k]) is Target,
    ensures
        merged(current, msgs) == Some(msgs.last()->Target_0),
        merged(current, msgs) == merged(current, seq![msgs.last()]),
    decreases msgs.len(),
{
    let rest = msgs.drop_first();
    assert(msgs[0] is Target);
    if msgs.len() > 1 {
        assert forall|k: int| 0 <= k < rest.len() implies (#[trigger] rest[k]) is Target by {
            assert(msgs[k + 1] is Target);
        }
        updates_coalesce(msgs[0]->Target_0, rest);
        assert(rest.last() == msgs.last());
    }
    let one = seq![msgs.last()];
    assert(msgs[msgs.len() - 1] is Target);
    assert(one[0] == msgs.last());
    assert(one.drop_first().len() == 0);
    assert(merged(msgs.last()->Target_0, one.drop_first()) == Some(msgs.last()->Target_0));
}

/// One tick of manual motion after a batch of target updates emits exactly one command,
/// the same as a tick after only the last update: the position move or the rotation move,
/// as the turn says, built from the last update's speeds.
pub proof fn manual_tick_uses_last_update(i: ManualIntegrator, msgs: Seq<Message<Target>>)
    requires
        msgs.len() > 0,
        forall|k: int| 0 <= k < msgs.len() ==> (#[trigger] msgs[k]) is Target,
    ensures
        i.outcome(msgs) == i.outcome(seq![msgs.last()]),
        i.outcome(msgs).command is Some,
        i.rotation_turn ==> i.outcome(msgs).command == Some(
            i.step(msgs.last()->Target_0).rotation_move(),
        ),
        !i.rotation_turn ==> i.outcome(msgs).command == Some(
            i.step(msgs.last()->Target_0).position_move(),
        ),
{
    updates_coalesce(i.target, msgs);
}

/// Manual motion alternates: of any two consecutive ticks that do not end the integrator,
/// one emits the position move and the other the rotation move.
pub proof fn manual_ticks_alternate(
    i: ManualIntegrator,
    first: Seq<Message<Target>>,
    second: Seq<Message<Target>>,
)
    requires
        i.outcome(first).command is Some,
        i.outcome(first).state.outcome(second).command is Some,
    ensures
        ({
            let a = i.outcome(first).command->Some_0;
            let b = i.outcome(first).state.outcome(second).command->Some_0;
            (a is MoveTo && b is RotateTo) || (a is RotateTo && b is MoveTo)
        }),
{
}

/// A quit message in a batch ends the integrator: no target survives the batch, and
/// the tick emits no command.
pub proof fn quit_ends_integrator<T>(current: T, msgs: Seq<Message<T>>, k: int)
    requires
        0 <= k < msgs.len(),
        msgs[k] is Quit,
    ensures
        merged(current, msgs) is None,
    decreases msgs.len(),
{
    if k > 0 {
        let rest = msgs.drop_first();
        assert(rest[k - 1] == msgs[k]);
        if let Message::Target(t) = msgs[0] {
            quit_ends_integrator(t, rest, k - 1);
        }
    }
}

/// After a quit message, neither integrator emits a command in that tick.
pub proof fn quit_silences_ticks(
    m: ManualIntegrator,
    c: CalibrationIntegrator,
    manual_msgs: Seq<Message<Target>>,
    motor_msgs: Seq<Message<MotorTarget>>,
    j: int,
    k: int,
)
    requires
        0 <= j < manual_msgs.len(),
        manual_msgs[j] is Quit,
        0 <= k < motor_msgs.len(),
        motor_msgs[k] is Quit,
    ensures
        m.outcome(manual_msgs).command is None,
        m.outcome(manual_msgs).state == m,
        merged(c.target, motor_msgs) is None,
{
    quit_ends_integrator(m.target, manual_msgs, j);
    quit_ends_integrator(c.target, motor_msgs, k);
}

} // verus!
