//! The control law: fall detection, velocity estimation, predictive
//! halt-altitude computation, and hysteresis-based valve actuation.
//!
//! Altitudes are centimetres, velocities centimetres per second, both as
//! plain integers. Each control cycle takes one cache snapshot, estimates
//! the vertical velocity, and decides a valve command; the surrounding loop
//! (which owns the clock, the pins and the cache lock) applies the command
//! and sleeps out the remainder of the period.
//!
//! Hysteresis: the band that *starts* fall tracking is wider (by
//! [`TRIGGER_MARGIN`]) than the band the halt prediction is held against
//! (by [`COMMIT_MARGIN`]), so tracking begins before the loop commits to
//! actuation and the valves do not thrash near the boundary.

use vstd::arithmetic::div_mod::{lemma_div_by_multiple, lemma_div_is_ordered};
use vstd::prelude::*;

verus! {

/// Magnitude bound on altitudes the control law accepts, in centimetres.
pub const ALT_LIMIT: i64 = 1_000_000;

/// Control cycles per second: an altitude delta per cycle times this is a
/// velocity in centimetres per second.
pub const VELOCITY_SCALE: i64 = 100;

/// Magnitude bound on velocity estimates: the largest altitude swing in
/// one cycle, scaled to a per-second unit.
pub const VELOCITY_LIMIT: i64 = 200_000_000;

/// Empirical correction added to the velocity magnitude in the halt
/// prediction; it absorbs actuation latency and terminal effects, and has
/// no first-principles derivation.
pub const VELOCITY_CORRECTION: i64 = 69;

/// Widens the tolerance band that starts fall tracking.
pub const TRIGGER_MARGIN: i64 = 5;

/// Widens the tolerance band the halt prediction must clear; narrower than
/// [`TRIGGER_MARGIN`].
pub const COMMIT_MARGIN: i64 = 2;

/// Bound on the configured expected deceleration.
pub const DECELERATION_LIMIT: i64 = 1_000_000_000;

/// Magnitude of a velocity.
pub open spec fn spec_abs(v: int) -> int {
    if v < 0 {
        -v
    } else {
        v
    }
}

/// Altitude at which the vehicle is predicted to stop if it decelerates at
/// `deceleration` from here on: the current altitude less the stopping
/// distance `(|velocity| + correction)^2 / (2 * deceleration)`.
pub open spec fn spec_halt_altitude(altitude: int, velocity: int, deceleration: int) -> int
    recommends
        deceleration >= 1,
{
    altitude - (spec_abs(velocity) + VELOCITY_CORRECTION) * (spec_abs(velocity)
        + VELOCITY_CORRECTION) / (2 * deceleration)
}

/// Whether `alt_above` clears `alt_below` by more than `tolerance`.
pub open spec fn spec_is_above(alt_above: int, alt_below: int, tolerance: int) -> bool {
    alt_above > alt_below + tolerance
}

/// Predicted stopping altitude, as [`spec_halt_altitude`] defines it.
pub fn halt_altitude(altitude: i64, velocity: i64, deceleration: i64) -> (r: i64)
    requires
        1 <= deceleration <= DECELERATION_LIMIT,
        -VELOCITY_LIMIT <= velocity <= VELOCITY_LIMIT,
        -ALT_LIMIT <= altitude <= ALT_LIMIT,
    ensures
        r == spec_halt_altitude(altitude as int, velocity as int, deceleration as int),
{
    let a: i64 = if velocity < 0 {
        -velocity
    } else {
        velocity
    };
    let vk: i64 = a + VELOCITY_CORRECTION;
    assert(vk * vk <= 200_000_069 * 200_000_069) by (nonlinear_arith)
        requires
            0 <= vk <= 200_000_069,
    ;
    let sq: u64 = (vk as u64) * (vk as u64);
    let denom: u64 = (2 * deceleration) as u64;
    let drop_dist: u64 = sq / denom;
    proof {
        lemma_div_is_ordered_by_denominator_u64(sq as int, denom as int);
    }
    altitude - (drop_dist as i64)
}

/// A quotient of a non-negative number is no larger than the number.
proof fn lemma_div_is_ordered_by_denominator_u64(x: int, d: int)
    requires
        0 <= x,
        1 <= d,
    ensures
        x / d <= x,
{
    vstd::arithmetic::div_mod::lemma_div_is_ordered_by_denominator(x, 1, d);
}

/// Whether `alt_above` clears `alt_below` by more than `tolerance`.
pub fn is_above(alt_above: i64, alt_below: i64, tolerance: i64) -> (r: bool)
    requires
        i64::MIN <= alt_below + tolerance <= i64::MAX,
    ensures
        r == spec_is_above(alt_above as int, alt_below as int, tolerance as int),
{
    alt_above > alt_below + tolerance
}

/// The configured control law: expected deceleration once the valves
/// engage, the tolerance band around the target, and the target altitude
/// itself.
pub struct Pigeon {
    pub exp_deceleration: i64,
    pub tolerance: i64,
    pub target_altitude: i64,
}

impl Pigeon {
    /// Configuration within the bounds the control law accepts.
    pub open spec fn wf(&self) -> bool {
        &&& 1 <= self.exp_deceleration <= DECELERATION_LIMIT
        &&& 0 <= self.tolerance <= ALT_LIMIT
        &&& -ALT_LIMIT <= self.target_altitude <= ALT_LIMIT
    }

    /// A control law with the given configuration.
    pub fn new(exp_deceleration: i64, tolerance: i64, target_altitude: i64) -> (p: Pigeon)
        requires
            1 <= exp_deceleration <= DECELERATION_LIMIT,
            0 <= tolerance <= ALT_LIMIT,
            -ALT_LIMIT <= target_altitude <= ALT_LIMIT,
        ensures
            p.exp_deceleration == exp_deceleration,
            p.tolerance == tolerance,
            p.target_altitude == target_altitude,
            p.wf(),
    {
        Pigeon { exp_deceleration, tolerance, target_altitude }
    }
}

/// Per-cycle state the control loop owns exclusively.
#[derive(Clone, Copy, PartialEq, Eq, Debug)]
pub struct ControlState {
    /// Altitude seen last cycle, for the velocity estimate.
    pub last_altitude: i64,
    /// Velocity estimate carried over when the altitude reading is
    /// unchanged.
    pub curr_velocity: i64,
    /// When the current fall was first detected, if one is being tracked.
    pub falling_since: Option<u64>,
    /// Whether the valves were commanded on during this fall.
    pub is_boosting: bool,
}

impl ControlState {
    /// State within the bounds the control law accepts.
    pub open spec fn wf(&self) -> bool {
        &&& -ALT_LIMIT <= self.last_altitude <= ALT_LIMIT
        &&& -VELOCITY_LIMIT <= self.curr_velocity <= VELOCITY_LIMIT
    }

    /// The resting state before the first cycle: no fall tracked, valves
    /// off, zero velocity, seeded with the first altitude reading.
    pub fn new(last_altitude: i64) -> (s: ControlState)
        requires
            -ALT_LIMIT <= last_altitude <= ALT_LIMIT,
        ensures
            s == (ControlState {
                last_altitude,
                curr_velocity: 0i64,
                falling_since: None::<u64>,
                is_boosting: false,
            }),
            s.wf(),
    {
        ControlState { last_altitude, curr_velocity: 0, falling_since: None, is_boosting: false }
    }
}

/// Valve command of one cycle: engage both valves, release both, or leave
/// them as they are.
#[derive(Clone, Copy, PartialEq, Eq, Structural, Debug)]
pub enum ValveCommand {
    Engage,
    Release,
    Hold,
}

/// Velocity estimate of a cycle: carried over unchanged when the altitude
/// reading is unchanged (a sensor updating more coarsely than the control
/// period must not fake a zero velocity), otherwise the altitude delta
/// scaled to a per-second unit.
pub open spec fn spec_velocity_estimate(state: ControlState, altitude: int) -> int {
    if altitude == state.last_altitude {
        state.curr_velocity as int
    } else {
        (altitude - state.last_altitude) * VELOCITY_SCALE
    }
}

/// Whether the vehicle is above the wider band that starts fall tracking.
pub open spec fn spec_trigger(p: Pigeon, altitude: int) -> bool {
    spec_is_above(altitude, p.target_altitude as int, p.tolerance + TRIGGER_MARGIN)
}

/// Whether deceleration alone would undershoot: the predicted halt
/// altitude fails to clear the commit band, so the valves must engage.
pub open spec fn spec_commit(p: Pigeon, altitude: int, velocity: int) -> bool {
    !spec_is_above(
        spec_halt_altitude(altitude, velocity, p.exp_deceleration as int),
        p.target_altitude as int,
        p.tolerance + COMMIT_MARGIN,
    )
}

/// One cycle of the control law, as a function from the previous state and
/// the snapshot to the next state and the valve command.
///
/// Above the trigger band with the falling flag asserted, the fall start
/// is recorded once per fall and the halt prediction decides between
/// engaging and holding; above the band without the flag nothing changes
/// (the flag and the band check are an explicit conjunction); at or below
/// the band the valves release and all fall tracking clears. The altitude
/// is always carried into the next state.
pub open spec fn spec_control_step(
    p: Pigeon,
    state: ControlState,
    altitude: int,
    is_falling: bool,
    now: u64,
) -> (ControlState, ValveCommand) {
    let vel = spec_velocity_estimate(state, altitude);
    if !spec_trigger(p, altitude) {
        (
            ControlState {
                last_altitude: altitude as i64,
                curr_velocity: vel as i64,
                falling_since: None,
                is_boosting: false,
            },
            ValveCommand::Release,
        )
    } else if !is_falling {
        (
            ControlState {
                last_altitude: altitude as i64,
                curr_velocity: vel as i64,
                falling_since: state.falling_since,
                is_boosting: state.is_boosting,
            },
            ValveCommand::Hold,
        )
    } else {
        let since = if state.falling_since is Some {
            state.falling_since
        } else {
            Some(now)
        };
        if spec_commit(p, altitude, vel) {
            (
                ControlState {
                    last_altitude: altitude as i64,
                    curr_velocity: vel as i64,
                    falling_since: since,
                    is_boosting: true,
                },
                ValveCommand::Engage,
            )
        } else {
            (
                ControlState {
                    last_altitude: altitude as i64,
                    curr_velocity: vel as i64,
                    falling_since: since,
                    is_boosting: state.is_boosting,
                },
                ValveCommand::Hold,
            )
        }
    }
}

impl Pigeon {
    /// Run one control cycle: update the state from the snapshot and
    /// return the valve command, exactly as [`spec_control_step`] says.
    pub fn control_step(
        &self,
        state: &mut ControlState,
        altitude: i64,
        is_falling: bool,
        now: u64,
    ) -> (cmd: ValveCommand)
        requires
            self.wf(),
            old(state).wf(),
            -ALT_LIMIT <= altitude <= ALT_LIMIT,
        ensures
            final(state).wf(),
            (*final(state), cmd) == spec_control_step(
                *self,
                *old(state),
                altitude as int,
                is_falling,
                now,
            ),
    {
        let vel: i64 = if altitude == state.last_altitude {
            state.curr_velocity
        } else {
            (altitude - state.last_altitude) * VELOCITY_SCALE
        };
        let cmd: ValveCommand;
        if is_above(altitude, self.target_altitude, self.tolerance + TRIGGER_MARGIN) {
            if is_falling {
                if state.falling_since.is_none() {
                    state.falling_since = Some(now);
                }
                let halt = halt_altitude(altitude, vel, self.exp_deceleration);
                if !is_above(halt, self.target_altitude, self.tolerance + COMMIT_MARGIN) {
                    state.is_boosting = true;
                    cmd = ValveCommand::Engage;
                } else {
                    cmd = ValveCommand::Hold;
                }
            } else {
                cmd = ValveCommand::Hold;
            }
        } else {
            state.falling_since = None;
            state.is_boosting = false;
            cmd = ValveCommand::Release;
        }
        state.curr_velocity = vel;
        state.last_altitude = altitude;
        cmd
    }
}

/// End-of-cycle timing: a cycle that overran its period is reported loudly
/// and not slept; a cycle within its period sleeps out the remainder.
#[derive(Clone, Copy, PartialEq, Eq, Structural, Debug)]
pub struct CycleEnd {
    pub overrun: bool,
    pub sleep_ms: u64,
}

/// Deadline accounting for one cycle: overrun exactly when the body took
/// longer than the period; the sleep is the remainder of the period, and
/// zero on overrun. The cycle's valve command is decided before this runs,
/// so an overrun never suppresses it.
pub fn finish_cycle(elapsed_ms: u64, period_ms: u64) -> (r: CycleEnd)
    ensures
        r.overrun == (elapsed_ms > period_ms),
        elapsed_ms > period_ms ==> r.sleep_ms == 0,
        elapsed_ms <= period_ms ==> r.sleep_ms == period_ms - elapsed_ms,
{
    if elapsed_ms > period_ms {
        CycleEnd { overrun: true, sleep_ms: 0 }
    } else {
        CycleEnd { overrun: false, sleep_ms: period_ms - elapsed_ms }
    }
}

/// Duty-cycle split for the alternative pulse-width valve driver: how long
/// to hold the pin high and how long low within one cycle, for an on
/// fraction given in thousandths. The daemon does not use this driver; it
/// is the extension point the design leaves open.
pub fn valve_on_off(cycle_ms: u64, on_thousandths: u64) -> (r: (u64, u64))
    requires
        on_thousandths <= 1000,
        cycle_ms <= 1_000_000_000,
    ensures
        r.0 == cycle_ms * on_thousandths / 1000,
        r.1 == cycle_ms - r.0,
        r.0 + r.1 == cycle_ms,
{
    proof {
        assert(cycle_ms * on_thousandths <= cycle_ms * 1000) by (nonlinear_arith)
            requires
                on_thousandths <= 1000,
        ;
    }
    let on: u64 = cycle_ms * on_thousandths / 1000;
    proof {
        lemma_div_is_ordered(cycle_ms * on_thousandths, cycle_ms * 1000, 1000);
        lemma_div_by_multiple(cycle_ms as int, 1000);
    }
    (on, cycle_ms - on)
}

/// At or below the trigger band the step always releases the valves and
/// clears all fall tracking, whatever the prior state — the resting, safe
/// configuration.
pub proof fn lemma_safe_below_band(
    p: Pigeon,
    state: ControlState,
    altitude: int,
    is_falling: bool,
    now: u64,
)
    requires
        !spec_trigger(p, altitude),
    ensures
        ({
            let (s2, cmd) = spec_control_step(p, state, altitude, is_falling, now);
            cmd == ValveCommand::Release && s2.falling_since is None && !s2.is_boosting
        }),
{
}

/// An unchanged altitude reading leaves the velocity estimate unchanged:
/// sensor quantization must not fake a zero velocity.
pub proof fn lemma_velocity_hold(state: ControlState, altitude: int)
    requires
        altitude == state.last_altitude,
    ensures
        spec_velocity_estimate(state, altitude) == state.curr_velocity,
{
}

/// A strictly lower altitude reading gives a strictly negative velocity
/// estimate.
pub proof fn lemma_velocity_negative_when_descending(state: ControlState, altitude: int)
    requires
        altitude < state.last_altitude,
    ensures
        spec_velocity_estimate(state, altitude) < 0,
{
}

/// While falling above the trigger band, a halt prediction that fails to
/// clear the commit band engages the valves within that same cycle.
pub proof fn lemma_commit_engages(p: Pigeon, state: ControlState, altitude: int, now: u64)
    requires
        spec_trigger(p, altitude),
        spec_commit(p, altitude, spec_velocity_estimate(state, altitude)),
    ensures
        ({
            let (s2, cmd) = spec_control_step(p, state, altitude, true, now);
            cmd == ValveCommand::Engage && s2.is_boosting
        }),
{
}

/// Without the falling flag the valves never engage: the flag and the
/// trigger band check are a strict conjunction. Boosting survives a cycle
/// only above the band.
pub proof fn lemma_no_engage_without_falling(
    p: Pigeon,
    state: ControlState,
    altitude: int,
    now: u64,
)
    ensures
        ({
            let (s2, cmd) = spec_control_step(p, state, altitude, false, now);
            cmd != ValveCommand::Engage && s2.is_boosting == (spec_trigger(p, altitude)
                && state.is_boosting)
        }),
{
}

/// The hysteresis guard: the band that starts fall tracking is strictly
/// wider than the band the halt prediction must clear, so tracking always
/// begins before actuation can be committed.
pub proof fn lemma_trigger_band_wider()
    ensures
        TRIGGER_MARGIN > COMMIT_MARGIN >= 0,
        forall|p: Pigeon, altitude: int|
            #[trigger] spec_trigger(p, altitude) ==> spec_is_above(
                altitude,
                p.target_altitude as int,
                p.tolerance + COMMIT_MARGIN,
            ),
{
}

/// The first cycle that sees the falling flag records the fall start; an
/// already tracked fall keeps its original start.
pub proof fn lemma_fall_tracking(p: Pigeon, state: ControlState, altitude: int, now: u64)
    requires
        spec_trigger(p, altitude),
    ensures
        ({
            let (s2, _) = spec_control_step(p, state, altitude, true, now);
            s2.falling_since == if state.falling_since is Some {
                state.falling_since
            } else {
                Some(now)
            }
        }),
{
}

} // verus!

