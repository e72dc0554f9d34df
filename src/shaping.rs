//! Tunables, the analog response curve and speed adjustment.
use vstd::prelude::*;

verus! {

/// Fixed-point scale of analog values: this many units stand for full deflection.
pub const FULL_SCALE: i32 = 1000;

/// Scale of shaped values: the cube of `FULL_SCALE`, so that a full deflection shapes to this.
pub const SHAPED_SCALE: i64 = 1_000_000_000;

/// Largest speed any configuration may allow, in device units per minute.
pub const SPEED_LIMIT: i64 = 1_000_000_000;

/// Largest tick frequency any configuration may use, in ticks per second.
pub const FREQUENCY_LIMIT: u32 = 1000;

/// Amount by which an increase or a decrease changes a speed.
pub const SPEED_STEP: i64 = 100;

/// The tunables of the motion-control core.
#[derive(Debug, Clone, Copy, PartialEq, Eq, Structural)]
pub struct Config {
    /// Integrator ticks per second.
    pub frequency: u32,
    /// Analog values of smaller magnitude than this are read as zero.
    pub deadzone: i32,
    /// Ceiling of translational (and motor) speed.
    pub max_translation_speed: i64,
    /// Ceiling of rotational speed.
    pub max_rotation_speed: i64,
}

impl Config {
    /// The least speed: one tick's worth of motion per minute.
    pub open spec fn min_speed_spec(&self) -> int {
        self.frequency * 60
    }

    pub open spec fn wf(&self) -> bool {
        &&& 1 <= self.frequency <= FREQUENCY_LIMIT
        &&& 0 <= self.deadzone <= FULL_SCALE
        &&& self.min_speed_spec() <= self.max_translation_speed <= SPEED_LIMIT
        &&& self.min_speed_spec() <= self.max_rotation_speed <= SPEED_LIMIT
    }

    /// Ten ticks per second, a deadzone of five hundredths, and the device ceilings.
    pub fn standard() -> (r: Config)
        ensures
            r.wf(),
            r.frequency == 10,
            r.deadzone == 50,
            r.max_translation_speed == 60_000,
            r.max_rotation_speed == 2_700,
    {
        Config {
            frequency: 10,
            deadzone: 50,
            max_translation_speed: 60_000,
            max_rotation_speed: 2_700,
        }
    }

    /// Checks the bounds that `wf` states.
    pub fn is_valid(&self) -> (r: bool)
        ensures
            r == self.wf(),
    {
        1 <= self.frequency && self.frequency <= FREQUENCY_LIMIT && 0 <= self.deadzone
            && self.deadzone <= FULL_SCALE && (self.frequency as i64) * 60
            <= self.max_translation_speed && self.max_translation_speed <= SPEED_LIMIT && (
        self.frequency as i64) * 60 <= self.max_rotation_speed && self.max_rotation_speed
            <= SPEED_LIMIT
    }

    /// The least speed, `frequency * 60`.
    pub fn min_speed(&self) -> (r: i64)
        requires
            self.wf(),
        ensures
            r == self.min_speed_spec(),
    {
        (self.frequency as i64) * 60
    }
}

/// Quotient rounded toward zero, as machine division rounds.
pub open spec fn tdiv(a: int, b: int) -> int {
    if a >= 0 {
        a / b
    } else {
        -((-a) / b)
    }
}

/// `v` held to `[lo, hi]`.
pub open spec fn clamp(v: int, lo: int, hi: int) -> int {
    if v > hi {
        hi
    } else if v < lo {
        lo
    } else {
        v
    }
}

/// The response curve: values inside the deadzone become zero, the rest are cubed.
/// The cube is exact: a value at scale `FULL_SCALE` gives a result at scale `SHAPED_SCALE`.
pub open spec fn shape(v: int, deadzone: int) -> int {
    if -deadzone < v < deadzone {
        0
    } else {
        v * v * v
    }
}

proof fn lemma_cube_bounds(v: int)
    requires
        -FULL_SCALE <= v <= FULL_SCALE,
    ensures
        -SHAPED_SCALE <= v * v * v <= SHAPED_SCALE,
        v > 0 ==> v * v * v > 0,
        v < 0 ==> v * v * v < 0,
{
    if v >= 0 {
        assert(0 <= v * v * v <= 1000 * 1000 * 1000) by (nonlinear_arith)
            requires
                0 <= v <= 1000,
        ;
        if v > 0 {
            assert(v * v * v > 0) by (nonlinear_arith)
                requires
                    v > 0,
            ;
        }
    } else {
        assert(0 < (-v) * (-v) * (-v) <= 1000 * 1000 * 1000) by (nonlinear_arith)
            requires
                0 < -v <= 1000,
        ;
        assert(v * v * v == -((-v) * (-v) * (-v))) by (nonlinear_arith);
    }
}

/// Applies the response curve to an analog value at scale `FULL_SCALE`; the result is at
/// scale `SHAPED_SCALE`, so that no value outside the deadzone is lost to rounding.
pub fn response_curve(value: i32, deadzone: i32) -> (r: i64)
    requires
        -FULL_SCALE <= value <= FULL_SCALE,
        0 <= deadzone,
    ensures
        r == shape(value as int, deadzone as int),
        -SHAPED_SCALE <= r <= SHAPED_SCALE,
        (value <= -deadzone || deadzone <= value) && value != 0 ==> r != 0,
{
    proof {
        lemma_cube_bounds(value as int);
    }
    if -deadzone < value && value < deadzone {
        return 0;
    }
    let v = value as i64;
    assert(-1000 * 1000 <= v * v <= 1000 * 1000) by (nonlinear_arith)
        requires
            -1000 <= v <= 1000,
    ;
    v * v * v
}

/// A discrete change of a speed.
#[derive(Debug, Clone, Copy, PartialEq, Eq, Structural)]
pub enum SpeedChange {
    Double,
    Halve,
    Increase,
    Decrease,
}

/// The speed after a change, before it is clamped.
pub open spec fn changed(speed: int, change: SpeedChange) -> int {
    match change {
        SpeedChange::Double => speed * 2,
        SpeedChange::Halve => speed / 2,
        SpeedChange::Increase => speed + SPEED_STEP,
        SpeedChange::Decrease => speed - SPEED_STEP,
    }
}

/// The speed after a change, held to `[min, max]`.
pub open spec fn adjusted(speed: int, change: SpeedChange, min: int, max: int) -> int {
    clamp(changed(speed, change), min, max)
}

/// Applies `change` to `*speed`, clamps the result to `[min, max]`, stores it and returns it.
pub fn update_speed(speed: &mut i64, change: SpeedChange, min: i64, max: i64) -> (r: i64)
    requires
        0 <= *old(speed) <= SPEED_LIMIT,
        min <= max,
    ensures
        r == adjusted(*old(speed) as int, change, min as int, max as int),
        *final(speed) == r,
{
    let s = *speed;
    let result = match change {
        SpeedChange::Double => s * 2,
        SpeedChange::Halve => s / 2,
        SpeedChange::Increase => s + SPEED_STEP,
        SpeedChange::Decrease => s - SPEED_STEP,
    };
    let mut result = result;
    if result > max {
        result = max;
    }
    if result < min {
        result = min;
    }
    *speed = result;
    result
}

/// A speed after `n` applications of the same change, each clamped to `[min, max]`.
pub open spec fn repeated(speed: int, change: SpeedChange, min: int, max: int, n: nat) -> int
    decreases n,
{
    if n == 0 {
        speed
    } else {
        adjusted(repeated(speed, change, min, max, (n - 1) as nat), change, min, max)
    }
}

/// Every adjusted speed lies within `[min, max]`, whatever it was before.
pub proof fn adjusted_within_bounds(speed: int, change: SpeedChange, min: int, max: int)
    requires
        min <= max,
    ensures
        min <= adjusted(speed, change, min, max) <= max,
{
}

/// The least speed is a fixed point of halving, and the ceiling one of doubling.
pub proof fn halving_min_and_doubling_max_are_fixed(min: int, max: int)
    requires
        0 <= min <= max,
    ensures
        adjusted(min, SpeedChange::Halve, min, max) == min,
        adjusted(max, SpeedChange::Double, min, max) == max,
{
}

/// Repeated changes keep a speed within `[min, max]`: starting at the least speed,
/// halving again and again never goes below it; starting at the ceiling, doubling again
/// and again never goes above it.
pub proof fn repeated_changes_stay_clamped(change: SpeedChange, min: int, max: int, n: nat)
    requires
        0 <= min <= max,
    ensures
        repeated(min, SpeedChange::Halve, min, max, n) == min,
        repeated(max, SpeedChange::Double, min, max, n) == max,
        n > 0 ==> min <= repeated(min, change, min, max, n) <= max,
    decreases n,
{
    if n > 0 {
        repeated_changes_stay_clamped(change, min, max, (n - 1) as nat);
    }
}

} // verus!
