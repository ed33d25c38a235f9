//! The per-tick trigger effect chain (L2/R2 priority), with the state of
//! effects that span several ticks.
//!
//! Time is a monotonic clock in nanoseconds supplied by the caller. The
//! facts about a telemetry frame that rest on floating-point values
//! (speed, RPM ratio, slip, the brake force curve) are evaluated by the
//! caller and handed in as `FrameReadings`.

use vstd::prelude::*;

use crate::settings::Settings;
use crate::telemetry::{zero_telemetry, Telemetry};
use crate::triggers::{clamp_int, spec_vibration_wall, spec_wall, Effect, RAW_MAX};

verus! {

/// Nanoseconds in a millisecond.
pub const NANOS_PER_MILLI: u64 = 1_000_000;

/// The float-derived facts about the frame a tick acts on.
#[derive(Clone, Copy, Debug, PartialEq, Eq, Structural)]
pub struct FrameReadings {
    /// Speed above 3 km/h.
    pub moving: bool,
    /// Speed at least the ABS minimum speed, and the largest tire slip
    /// ratio or the largest combined slip at least its threshold.
    pub abs_slipping: bool,
    /// A positive maximum RPM and an RPM ratio above the rev-limit ratio.
    pub over_rev: bool,
    /// The brake force curve at the frame's brake press, rounded.
    pub brake_curve_level: i32,
    /// The brake force curve at the frame's brake press plus the
    /// handbrake bonus, rounded.
    pub brake_curve_bonus_level: i32,
}

/// The integer part of the piecewise brake-pedal force curve: which
/// segment a press falls in, and how far along it.
#[derive(Clone, Copy, Debug, PartialEq, Eq, Structural)]
pub enum RampSegment {
    /// Below the deadzone: baseline force only.
    Baseline,
    /// Between deadzone and bite point: linear from the baseline force to
    /// the bite force, `travel / span` of the way.
    Bite { travel: u8, span: u8 },
    /// From the bite point up to the wall: from the bite force to the
    /// maximum force, along `(travel / span)^curve`.
    Ramp { travel: u8, span: u8 },
}

/// The effective bite point: never at or below the deadzone.
pub open spec fn eff_bite_point(s: Settings) -> int {
    let floor = if s.brake_deadzone < 255 { s.brake_deadzone + 1 } else { 255 };
    if s.brake_bite_point >= floor { s.brake_bite_point as int } else { floor }
}

/// The effective wall point of the curve: never at or below the bite
/// point.
pub open spec fn eff_wall_at(s: Settings) -> int {
    let bp = eff_bite_point(s);
    let floor = if bp < 255 { bp + 1 } else { 255 };
    if s.brake_wall_engage_at >= floor { s.brake_wall_engage_at as int } else { floor }
}

/// The curve segment a brake press of `value` falls in.
pub open spec fn ramp_segment(value: u8, s: Settings) -> RampSegment {
    let bp = eff_bite_point(s);
    let wall = eff_wall_at(s);
    if value < s.brake_deadzone {
        RampSegment::Baseline
    } else if value < bp {
        RampSegment::Bite {
            travel: (value - s.brake_deadzone) as u8,
            span: if bp - s.brake_deadzone >= 1 { (bp - s.brake_deadzone) as u8 } else { 1u8 },
        }
    } else {
        let top = if value < wall { value as int } else { wall };
        RampSegment::Ramp {
            travel: (top - bp) as u8,
            span: if wall - bp >= 1 { (wall - bp) as u8 } else { 1u8 },
        }
    }
}

/// Which segment of the piecewise brake-pedal force curve a press falls
/// in. The lower segment is linear so the player can modulate like a real
/// pedal; the upper segment ramps steeply to the maximum force so the
/// lock-up zone takes deliberate effort to enter. Both spans are at least
/// 1 so the force can always be computed, even when deadzone, bite point
/// and wall overlap.
pub fn brake_ramp_segment(value: u8, s: &Settings) -> (r: RampSegment)
    ensures
        r == ramp_segment(value, *s),
{
    let deadzone = s.brake_deadzone;
    if value < deadzone {
        return RampSegment::Baseline;
    }
    let floor = deadzone.saturating_add(1);
    let bite_point = if s.brake_bite_point >= floor {
        s.brake_bite_point
    } else {
        floor
    };
    let bite_span = if bite_point - deadzone >= 1 {
        bite_point - deadzone
    } else {
        1
    };
    if value < bite_point {
        return RampSegment::Bite { travel: value - deadzone, span: bite_span };
    }
    let wall_floor = bite_point.saturating_add(1);
    let wall_at = if s.brake_wall_engage_at >= wall_floor {
        s.brake_wall_engage_at
    } else {
        wall_floor
    };
    let wall_span = if wall_at - bite_point >= 1 {
        wall_at - bite_point
    } else {
        1
    };
    let top = if value < wall_at {
        value
    } else {
        wall_at
    };
    RampSegment::Ramp { travel: top - bite_point, span: wall_span }
}

/// The release threshold actually used: strictly below the engage
/// threshold (unless that is 0), so inverted slider values can neither
/// invert the hysteresis nor erase it through equality.
pub open spec fn eff_release(engage_at: u8, release_at: u8) -> int {
    let cap = if engage_at > 0 { engage_at - 1 } else { 0 };
    if release_at < cap { release_at as int } else { cap }
}

/// Whether the trigger is in its rigid "wall" zone after a press of
/// `value`, given whether it was before.
pub open spec fn spec_wall_state(value: u8, engaged: bool, engage_at: u8, release_at: u8) -> bool {
    if engaged {
        value >= eff_release(engage_at, release_at)
    } else {
        value >= engage_at
    }
}

/// Returns whether the trigger is currently in its rigid "wall" zone.
/// Clamps `release_at < engage_at` so inverted slider values can't
/// invert the hysteresis (or erase it via equality).
pub fn wall_state(value: u8, engaged: bool, engage_at: u8, release_at: u8) -> (r: bool)
    ensures
        r == spec_wall_state(value, engaged, engage_at, release_at),
{
    let cap = engage_at.saturating_sub(1);
    let release_at = if release_at < cap {
        release_at
    } else {
        cap
    };
    if engaged {
        value >= release_at
    } else {
        value >= engage_at
    }
}

/// Wall hysteresis: a press at or beyond the engage threshold is always
/// in the wall, a press below the effective release threshold never is,
/// and in between the trigger keeps whatever state it had. The effective
/// release threshold is strictly below a positive engage threshold.
pub proof fn lemma_wall_hysteresis(value: u8, engaged: bool, engage_at: u8, release_at: u8)
    ensures
        value >= engage_at ==> spec_wall_state(value, engaged, engage_at, release_at),
        value < eff_release(engage_at, release_at) ==> !spec_wall_state(
            value,
            engaged,
            engage_at,
            release_at,
        ),
        eff_release(engage_at, release_at) <= value < engage_at ==> spec_wall_state(
            value,
            engaged,
            engage_at,
            release_at,
        ) == engaged,
        engage_at > 0 ==> eff_release(engage_at, release_at) < engage_at,
        eff_release(engage_at, release_at) <= release_at,
{
}

/// The deadline `ms` milliseconds after `now`, in nanoseconds. It is held
/// in 128 bits, so every duration setting fits from any instant.
pub open spec fn deadline(now: u64, ms: u64) -> u128 {
    (now + ms * NANOS_PER_MILLI) as u128
}

/// Compute `deadline(now_ns, ms)`.
fn deadline_after(now_ns: u64, ms: u64) -> (d: u128)
    ensures
        d == deadline(now_ns, ms),
        d == now_ns + ms * NANOS_PER_MILLI,
{
    let wide_ms: u128 = ms as u128;
    let wide_now: u128 = now_ns as u128;
    assert(wide_ms * 1_000_000 <= 0xffff_ffff_ffff_ffff * 1_000_000) by (nonlinear_arith)
        requires
            wide_ms <= 0xffff_ffff_ffff_ffff,
    ;
    wide_now + wide_ms * 1_000_000u128
}

/// State of the effects that span several ticks.
pub struct AnimState {
    /// Gear seen on the previous armed tick.
    pub prev_gear: u8,
    /// End of the current gear-shift burst, if one was armed.
    pub shift_until: Option<u128>,
    /// End of the current rev-limit buzz, if one was armed.
    pub rev_until: Option<u128>,
}

/// State for effects that span multiple frames (gear shift, rev hold).
pub struct TriggerAnimations {
    prev_gear: u8,
    shift_until: Option<u128>,
    rev_until: Option<u128>,
}

impl View for TriggerAnimations {
    type V = AnimState;

    closed spec fn view(&self) -> AnimState {
        AnimState {
            prev_gear: self.prev_gear,
            shift_until: self.shift_until,
            rev_until: self.rev_until,
        }
    }
}

/// The animation state after `arm_shift`: a gear change between two
/// forward gears while moving starts a burst ending `duration_ms` later;
/// the gear is remembered either way.
pub open spec fn armed(a: AnimState, gear: u8, moving: bool, now: u64, duration_ms: u64) -> AnimState {
    AnimState {
        prev_gear: gear,
        shift_until: if a.prev_gear > 0 && gear > 0 && gear != a.prev_gear && moving {
            Some(deadline(now, duration_ms))
        } else {
            a.shift_until
        },
        rev_until: a.rev_until,
    }
}

/// The gear-shift burst on a trigger pressed to `pedal`: while a burst
/// runs, a press past halfway between the wall and full travel gets the
/// pulse-with-wall effect, a lighter press a plain vibration.
pub open spec fn shift_burst_effect(
    a: AnimState,
    s: Settings,
    now: u64,
    pedal: u8,
    wall_engage_at: u8,
) -> Option<Effect> {
    match a.shift_until {
        None => None,
        Some(until) => if now >= until {
            None
        } else if pedal >= (wall_engage_at + RAW_MAX) / 2 {
            Some(spec_vibration_wall(s.gear_shift_amp, s.gear_shift_freq, s.wall_zones))
        } else {
            Some(Effect::Vibration { freq: s.gear_shift_freq, amp: s.gear_shift_amp })
        },
    }
}

/// The animation state after `rev_buzz`: with the limiter on, an
/// over-rev under throttle (re)starts the hold.
pub open spec fn rev_armed(a: AnimState, t: Telemetry, s: Settings, r: FrameReadings, now: u64) -> AnimState {
    if s.enable_rev_limiter && t.accel >= s.accel_deadzone && r.over_rev {
        AnimState { rev_until: Some(deadline(now, s.rev_limit_hold_ms)), ..a }
    } else {
        a
    }
}

/// The rev-limit buzz: while the hold runs, a vibration.
pub open spec fn rev_buzz_effect(a: AnimState, s: Settings, now: u64) -> Option<Effect> {
    if !s.enable_rev_limiter {
        None
    } else {
        match a.rev_until {
            Some(until) => if now < until {
                Some(Effect::Vibration { freq: s.rev_limit_freq, amp: s.rev_limit_amp })
            } else {
                None
            },
            None => None,
        }
    }
}

/// The ABS pulse: with ABS on, a brake press at the threshold and a
/// slipping frame give a vibration.
pub open spec fn abs_pulse_effect(t: Telemetry, s: Settings, r: FrameReadings) -> Option<Effect> {
    if s.enable_abs && t.brake >= s.abs_brake_threshold && r.abs_slipping {
        Some(Effect::Vibration { freq: s.abs_freq, amp: s.abs_amp })
    } else {
        None
    }
}

/// Brake resistance: the force curve (with the handbrake bonus while the
/// handbrake is held and the bonus enabled); with resistance off, the
/// bonus alone or nothing.
pub open spec fn brake_resistance_effect(t: Telemetry, s: Settings, r: FrameReadings) -> Effect {
    let handbrake = s.enable_handbrake_bonus && t.handbrake != 0;
    if !s.enable_brake_resistance {
        if handbrake {
            Effect::Rigid { force: s.handbrake_bonus }
        } else {
            Effect::Off
        }
    } else {
        let level = if handbrake {
            r.brake_curve_bonus_level
        } else {
            r.brake_curve_level
        };
        Effect::Rigid { force: clamp_int(level as int, 0, 255) as u8 }
    }
}

/// Where the throttle ramp reaches full stiffness: the wall's engage
/// point, but never at or below the deadzone.
pub open spec fn throttle_ramp_top(s: Settings) -> int {
    if s.throttle_wall_engage_at > s.accel_deadzone {
        s.throttle_wall_engage_at as int
    } else {
        s.accel_deadzone + 1
    }
}

/// The throttle force at a press of `accel`: 0 up to the deadzone, then
/// linear up to the stiffness at the ramp's top, rounded to the nearest
/// unit (halves up); the stiffness beyond.
pub open spec fn throttle_force(accel: u8, s: Settings) -> int {
    if accel <= s.accel_deadzone {
        0
    } else {
        let top = throttle_ramp_top(s);
        let span = top - s.accel_deadzone;
        let travel = (if accel < top { accel as int } else { top }) - s.accel_deadzone;
        (2 * s.throttle_stiffness * travel + span) / (2 * span)
    }
}

/// Throttle resistance: the linear ramp while enabled, nothing otherwise.
pub open spec fn throttle_effect(t: Telemetry, s: Settings) -> Effect {
    if !s.enable_throttle_resistance {
        Effect::Off
    } else {
        Effect::Rigid { force: throttle_force(t.accel, s) as u8 }
    }
}

/// The throttle ramp: no force at or below the deadzone, the full
/// stiffness from the wall's engage point on (when that lies above the
/// deadzone), never more than the stiffness, and never less force for a
/// deeper press.
pub proof fn lemma_throttle_ramp(a1: u8, a2: u8, s: Settings)
    ensures
        a1 <= s.accel_deadzone ==> throttle_force(a1, s) == 0,
        s.accel_deadzone < s.throttle_wall_engage_at <= a1 ==> throttle_force(a1, s)
            == s.throttle_stiffness,
        a1 >= throttle_ramp_top(s) ==> throttle_force(a1, s) == s.throttle_stiffness,
        0 <= throttle_force(a1, s) <= s.throttle_stiffness,
        a1 <= a2 ==> throttle_force(a1, s) <= throttle_force(a2, s),
{
    let top = throttle_ramp_top(s);
    let span = top - s.accel_deadzone;
    let k = s.throttle_stiffness as int;
    assert forall|tr: int| 0 <= tr <= span implies 0 <= #[trigger] ((2 * k * tr + span) / (2
        * span)) <= k by {
        assert(0 <= 2 * k * tr + span) by (nonlinear_arith)
            requires
                0 <= tr,
                0 <= k,
                span >= 1,
        ;
        assert((2 * k * tr + span) / (2 * span) <= k) by (nonlinear_arith)
            requires
                0 <= tr <= span,
                0 <= k,
                span >= 1,
        ;
    }
    assert((2 * k * span + span) / (2 * span) == k) by (nonlinear_arith)
        requires
            span >= 1,
            k >= 0,
    ;
    if a1 <= a2 && a1 > s.accel_deadzone {
        let t1 = (if a1 < top { a1 as int } else { top }) - s.accel_deadzone;
        let t2 = (if a2 < top { a2 as int } else { top }) - s.accel_deadzone;
        assert((2 * k * t1 + span) / (2 * span) <= (2 * k * t2 + span) / (2 * span))
            by (nonlinear_arith)
            requires
                0 <= t1 <= t2,
                0 <= k,
                span >= 1,
        ;
    }
}

impl TriggerAnimations {
    pub fn new() -> (r: TriggerAnimations)
        ensures
            r@ == (AnimState { prev_gear: 0, shift_until: None, rev_until: None }),
    {
        TriggerAnimations { prev_gear: 0, shift_until: None, rev_until: None }
    }

    /// Start a gear-shift burst when the gear changes between two forward
    /// gears while the car is moving.
    pub fn arm_shift(&mut self, t: &Telemetry, s: &Settings, r: &FrameReadings, now_ns: u64)
        ensures
            final(self)@ == armed(old(self)@, t.gear, r.moving, now_ns, s.gear_shift_duration_ms),
    {
        let gear = t.gear;
        if self.prev_gear > 0 && gear > 0 && gear != self.prev_gear && r.moving {
            self.shift_until = Some(deadline_after(now_ns, s.gear_shift_duration_ms));
        }
        self.prev_gear = gear;
    }

    pub fn shift_burst(&self, s: &Settings, now_ns: u64, pedal: u8, wall_engage_at: u8) -> (r:
        Option<Effect>)
        ensures
            r == shift_burst_effect(self@, *s, now_ns, pedal, wall_engage_at),
    {
        let until = match self.shift_until {
            Some(u) => u,
            None => return None,
        };
        if now_ns as u128 >= until {
            return None;
        }
        let half = ((wall_engage_at as u16 + RAW_MAX as u16) / 2) as u8;
        if pedal >= half {
            Some(Effect::vibration_wall(s.gear_shift_amp, s.gear_shift_freq, s.wall_zones))
        } else {
            Some(Effect::vibration(s.gear_shift_freq, s.gear_shift_amp))
        }
    }

    pub fn rev_buzz(&mut self, t: &Telemetry, s: &Settings, r: &FrameReadings, now_ns: u64) -> (e:
        Option<Effect>)
        ensures
            final(self)@ == rev_armed(old(self)@, *t, *s, *r, now_ns),
            e == rev_buzz_effect(final(self)@, *s, now_ns),
    {
        if !s.enable_rev_limiter {
            return None;
        }
        if t.accel >= s.accel_deadzone && r.over_rev {
            self.rev_until = Some(deadline_after(now_ns, s.rev_limit_hold_ms));
        }
        if let Some(until) = self.rev_until {
            if (now_ns as u128) < until {
                return Some(Effect::vibration(s.rev_limit_freq, s.rev_limit_amp));
            }
        }
        None
    }

    pub fn abs_pulse(&self, t: &Telemetry, s: &Settings, r: &FrameReadings) -> (e: Option<Effect>)
        ensures
            e == abs_pulse_effect(*t, *s, *r),
    {
        if !s.enable_abs {
            return None;
        }
        if t.brake < s.abs_brake_threshold || !r.abs_slipping {
            return None;
        }
        Some(Effect::vibration(s.abs_freq, s.abs_amp))
    }

    pub fn brake_resistance(&self, t: &Telemetry, s: &Settings, r: &FrameReadings) -> (e: Effect)
        ensures
            e == brake_resistance_effect(*t, *s, *r),
    {
        let handbrake = s.enable_handbrake_bonus && t.handbrake != 0;
        if !s.enable_brake_resistance {
            return if handbrake {
                Effect::rigid_level(s.handbrake_bonus as i32)
            } else {
                Effect::Off
            };
        }
        let level = if handbrake {
            r.brake_curve_bonus_level
        } else {
            r.brake_curve_level
        };
        Effect::rigid_level(level)
    }

    pub fn throttle_ramp(&self, t: &Telemetry, s: &Settings) -> (e: Effect)
        ensures
            e == throttle_effect(*t, *s),
    {
        if !s.enable_throttle_resistance {
            return Effect::Off;
        }
        // Linear from 0 at the deadzone to the stiffness at the wall edge;
        // the wall itself is handled by `Controller`.
        let deadzone = s.accel_deadzone;
        if t.accel <= deadzone {
            return Effect::Rigid { force: 0 };
        }
        let top: u8 = if s.throttle_wall_engage_at > deadzone {
            s.throttle_wall_engage_at
        } else {
            deadzone + 1
        };
        let press: u8 = if t.accel < top {
            t.accel
        } else {
            top
        };
        let span: u32 = (top - deadzone) as u32;
        let travel: u32 = (press - deadzone) as u32;
        let k: u32 = s.throttle_stiffness as u32;
        proof {
            lemma_throttle_ramp(t.accel, t.accel, *s);
            assert(2 * k * travel <= 2 * 255 * 255) by (nonlinear_arith)
                requires
                    k <= 255,
                    travel <= 255,
            ;
        }
        let force: u32 = (2 * k * travel + span) / (2 * span);
        Effect::Rigid { force: force as u8 }
    }
}

/// What a tick acts on.
#[derive(Clone, Copy, Debug, PartialEq, Eq, Structural)]
pub enum TickSource {
    /// The race is on: the live telemetry.
    Live,
    /// No race, idle preview on: a synthetic frame pressed as the
    /// controller's own triggers are.
    Preview { brake: u8, accel: u8 },
    /// No race and no preview: both triggers neutral.
    Idle,
}

/// The source of a tick for telemetry `t` and the controller's latest
/// analog press, if any (none counts as no press).
pub open spec fn tick_source_of(t: Telemetry, s: Settings, idle_press: Option<(u8, u8)>) -> TickSource {
    if t.on {
        TickSource::Live
    } else if s.enable_idle_preview {
        match idle_press {
            Some((brake, accel)) => TickSource::Preview { brake, accel },
            None => TickSource::Preview { brake: 0, accel: 0 },
        }
    } else {
        TickSource::Idle
    }
}

/// The synthetic preview frame: race on, third gear, handbrake released,
/// 3500 of 8000 RPM at about 60 km/h, pressed to `brake` and `accel`.
pub open spec fn synth_frame(brake: u8, accel: u8) -> Telemetry {
    Telemetry {
        on: true,
        brake,
        accel,
        gear: 3,
        handbrake: 0,
        rpm_bits: 0x455AC000,
        max_rpm_bits: 0x45FA0000,
        speed_ms_bits: 0x41855555,
        ..zero_telemetry()
    }
}

/// Build a synthetic telemetry frame fed from the controller's actual
/// L2/R2 analog values, so idle preview drives the configured curves with
/// the user's real physical press.
pub fn synth_telemetry(brake: u8, accel: u8) -> (t: Telemetry)
    ensures
        t == synth_frame(brake, accel),
{
    Telemetry {
        on: true,
        brake,
        accel,
        gear: 3,
        handbrake: 0,
        // 3500.0 of 8000.0 RPM.
        rpm_bits: 0x455AC000,
        max_rpm_bits: 0x45FA0000,
        // 16.666666 m/s, about 60 km/h.
        speed_ms_bits: 0x41855555,
        ..Telemetry::default()
    }
}

/// Decide what a tick acts on.
pub fn tick_source(t: &Telemetry, s: &Settings, idle_press: Option<(u8, u8)>) -> (r: TickSource)
    ensures
        r == tick_source_of(*t, *s, idle_press),
{
    if t.on {
        TickSource::Live
    } else if s.enable_idle_preview {
        let (brake, accel) = match idle_press {
            Some(p) => p,
            None => (0, 0),
        };
        TickSource::Preview { brake, accel }
    } else {
        TickSource::Idle
    }
}

/// Controller state: the animations, the cached wall effect and the wall
/// hysteresis of each trigger.
pub struct ControllerState {
    pub anim: AnimState,
    pub wall: Effect,
    pub l2_in_wall: bool,
    pub r2_in_wall: bool,
    pub cached_wall_zones: u8,
}

pub struct Controller {
    anim: TriggerAnimations,
    wall: Effect,
    l2_in_wall: bool,
    r2_in_wall: bool,
    cached_wall_zones: u8,
}

impl Controller {
    /// The wall effect is always the one built for the cached zone count.
    #[verifier::type_invariant]
    spec fn wall_built(self) -> bool {
        self.wall == spec_wall(self.cached_wall_zones)
    }
}

impl View for Controller {
    type V = ControllerState;

    closed spec fn view(&self) -> ControllerState {
        ControllerState {
            anim: self.anim@,
            wall: self.wall,
            l2_in_wall: self.l2_in_wall,
            r2_in_wall: self.r2_in_wall,
            cached_wall_zones: self.cached_wall_zones,
        }
    }
}

/// The wall effect matches the zone count it was built for.
pub open spec fn wall_matches(c: ControllerState) -> bool {
    c.wall == spec_wall(c.cached_wall_zones)
}

/// The state after rebuilding the wall when the zone setting changed.
pub open spec fn refreshed(c: ControllerState, s: Settings) -> ControllerState {
    if s.wall_zones != c.cached_wall_zones {
        ControllerState { wall: spec_wall(s.wall_zones), cached_wall_zones: s.wall_zones, ..c }
    } else {
        c
    }
}

/// L2 this tick, and the state after: a running shift burst (when
/// enabled on the brake) first, then the ABS pulse, then the wall
/// (updating the hysteresis), then brake resistance.
pub open spec fn l2_step(c: ControllerState, t: Telemetry, s: Settings, r: FrameReadings, now: u64) -> (
    ControllerState,
    Effect,
) {
    let burst = shift_burst_effect(c.anim, s, now, t.brake, s.brake_wall_engage_at);
    if s.enable_gear_shift_brake && burst is Some {
        (c, burst->0)
    } else if abs_pulse_effect(t, s, r) is Some {
        (c, abs_pulse_effect(t, s, r)->0)
    } else {
        let w = spec_wall_state(t.brake, c.l2_in_wall, s.brake_wall_engage_at, s.brake_wall_release_at);
        let c2 = ControllerState { l2_in_wall: w, ..c };
        if w && s.enable_brake_resistance {
            (c2, c.wall)
        } else {
            (c2, brake_resistance_effect(t, s, r))
        }
    }
}

/// R2 this tick, and the state after: a running shift burst (when
/// enabled on the throttle) first, then the rev-limit buzz (which may
/// restart its hold), then the wall (updating the hysteresis), then
/// throttle resistance.
pub open spec fn r2_step(c: ControllerState, t: Telemetry, s: Settings, r: FrameReadings, now: u64) -> (
    ControllerState,
    Effect,
) {
    let burst = shift_burst_effect(c.anim, s, now, t.accel, s.throttle_wall_engage_at);
    if s.enable_gear_shift && burst is Some {
        (c, burst->0)
    } else {
        let a = rev_armed(c.anim, t, s, r, now);
        let c1 = ControllerState { anim: a, ..c };
        let buzz = rev_buzz_effect(a, s, now);
        if buzz is Some {
            (c1, buzz->0)
        } else {
            let w = spec_wall_state(
                t.accel,
                c1.r2_in_wall,
                s.throttle_wall_engage_at,
                s.throttle_wall_release_at,
            );
            let c2 = ControllerState { r2_in_wall: w, ..c1 };
            if w && s.enable_throttle_resistance {
                (c2, c.wall)
            } else {
                (c2, throttle_effect(t, s))
            }
        }
    }
}

/// A tick acting on frame `t`: refresh the wall, arm a gear-shift burst
/// when either shift effect is enabled, then L2, then R2.
pub open spec fn active_tick(c: ControllerState, t: Telemetry, s: Settings, r: FrameReadings, now: u64) -> (
    ControllerState,
    Effect,
    Effect,
) {
    let c1 = refreshed(c, s);
    let c2 = if s.enable_gear_shift || s.enable_gear_shift_brake {
        ControllerState {
            anim: armed(c1.anim, t.gear, r.moving, now, s.gear_shift_duration_ms),
            ..c1
        }
    } else {
        c1
    };
    let (c3, l2) = l2_step(c2, t, s, r, now);
    let (c4, r2) = r2_step(c3, t, s, r, now);
    (c4, l2, r2)
}

/// A whole tick: the live frame while racing, the preview frame when idle
/// preview is on, otherwise both triggers off and nothing changes.
pub open spec fn tick(
    c: ControllerState,
    t: Telemetry,
    s: Settings,
    idle_press: Option<(u8, u8)>,
    r: FrameReadings,
    now: u64,
) -> (ControllerState, Effect, Effect) {
    match tick_source_of(t, s, idle_press) {
        TickSource::Live => active_tick(c, t, s, r, now),
        TickSource::Preview { brake, accel } => active_tick(c, synth_frame(brake, accel), s, r, now),
        TickSource::Idle => (c, Effect::Off, Effect::Off),
    }
}

/// A fresh controller: no animation running, both triggers out of their
/// walls, the wall built for the settings' zone count.
pub open spec fn initial_controller(s: Settings) -> ControllerState {
    ControllerState {
        anim: AnimState { prev_gear: 0, shift_until: None, rev_until: None },
        wall: spec_wall(s.wall_zones),
        l2_in_wall: false,
        r2_in_wall: false,
        cached_wall_zones: s.wall_zones,
    }
}

impl Controller {
    pub fn new(s: &Settings) -> (c: Controller)
        ensures
            c@ == initial_controller(*s),
            wall_matches(c@),
    {
        Controller {
            anim: TriggerAnimations::new(),
            wall: Effect::build_wall(s.wall_zones),
            l2_in_wall: false,
            r2_in_wall: false,
            cached_wall_zones: s.wall_zones,
        }
    }

    /// The wall effect, built for the zone count last seen in the settings.
    pub fn wall(&self) -> (e: Effect)
        ensures
            e == self@.wall,
            e == spec_wall(self@.cached_wall_zones),
    {
        proof {
            use_type_invariant(self);
        }
        self.wall
    }

    /// Whether L2 is in its wall zone.
    pub fn l2_in_wall(&self) -> (r: bool)
        ensures
            r == self@.l2_in_wall,
    {
        self.l2_in_wall
    }

    /// Whether R2 is in its wall zone.
    pub fn r2_in_wall(&self) -> (r: bool)
        ensures
            r == self@.r2_in_wall,
    {
        self.r2_in_wall
    }

    fn refresh_wall_if_needed(&mut self, s: &Settings)
        ensures
            final(self)@ == refreshed(old(self)@, *s),
    {
        proof {
            use_type_invariant(&*self);
        }
        if s.wall_zones != self.cached_wall_zones {
            let mut anim = TriggerAnimations::new();
            std::mem::swap(&mut anim, &mut self.anim);
            *self = Controller {
                anim,
                wall: Effect::build_wall(s.wall_zones),
                l2_in_wall: self.l2_in_wall,
                r2_in_wall: self.r2_in_wall,
                cached_wall_zones: s.wall_zones,
            };
        }
    }

    fn l2(&mut self, t: &Telemetry, s: &Settings, r: &FrameReadings, now_ns: u64) -> (e: Effect)
        ensures
            (final(self)@, e) == l2_step(old(self)@, *t, *s, *r, now_ns),
    {
        proof {
            use_type_invariant(&*self);
        }
        if s.enable_gear_shift_brake {
            if let Some(e) = self.anim.shift_burst(s, now_ns, t.brake, s.brake_wall_engage_at) {
                return e;
            }
        }
        if let Some(e) = self.anim.abs_pulse(t, s, r) {
            return e;
        }
        self.l2_in_wall = wall_state(
            t.brake,
            self.l2_in_wall,
            s.brake_wall_engage_at,
            s.brake_wall_release_at,
        );
        if self.l2_in_wall && s.enable_brake_resistance {
            return self.wall;
        }
        self.anim.brake_resistance(t, s, r)
    }

    fn r2(&mut self, t: &Telemetry, s: &Settings, r: &FrameReadings, now_ns: u64) -> (e: Effect)
        ensures
            (final(self)@, e) == r2_step(old(self)@, *t, *s, *r, now_ns),
    {
        proof {
            use_type_invariant(&*self);
        }
        if s.enable_gear_shift {
            if let Some(e) = self.anim.shift_burst(s, now_ns, t.accel, s.throttle_wall_engage_at) {
                return e;
            }
        }
        let mut anim = TriggerAnimations::new();
        std::mem::swap(&mut anim, &mut self.anim);
        let buzz = anim.rev_buzz(t, s, r, now_ns);
        std::mem::swap(&mut anim, &mut self.anim);
        if let Some(e) = buzz {
            return e;
        }
        self.r2_in_wall = wall_state(
            t.accel,
            self.r2_in_wall,
            s.throttle_wall_engage_at,
            s.throttle_wall_release_at,
        );
        if self.r2_in_wall && s.enable_throttle_resistance {
            return self.wall;
        }
        self.anim.throttle_ramp(t, s)
    }

    fn update_active(&mut self, t: &Telemetry, s: &Settings, r: &FrameReadings, now_ns: u64) -> (e: (
        Effect,
        Effect,
    ))
        ensures
            (final(self)@, e.0, e.1) == active_tick(old(self)@, *t, *s, *r, now_ns),
    {
        proof {
            use_type_invariant(&*self);
        }
        self.refresh_wall_if_needed(s);
        if s.enable_gear_shift || s.enable_gear_shift_brake {
            let mut anim = TriggerAnimations::new();
            std::mem::swap(&mut anim, &mut self.anim);
            anim.arm_shift(t, s, r, now_ns);
            std::mem::swap(&mut anim, &mut self.anim);
        }
        let l2 = self.l2(t, s, r, now_ns);
        let r2 = self.r2(t, s, r, now_ns);
        (l2, r2)
    }

    /// Produce `(L2, R2)` effects for this tick. Returns `(Off, Off)` when
    /// the race telemetry flag is off so the controller stays neutral in
    /// menus, unless idle preview is enabled, in which case the
    /// controller's own L2/R2 press is fed through the normal force-curve
    /// pipeline so the user feels the resistance the game would produce.
    /// `r` describes the frame `tick_source` selects.
    pub fn update(
        &mut self,
        t: &Telemetry,
        s: &Settings,
        idle_press: Option<(u8, u8)>,
        r: &FrameReadings,
        now_ns: u64,
    ) -> (e: (Effect, Effect))
        ensures
            (final(self)@, e.0, e.1) == tick(old(self)@, *t, *s, idle_press, *r, now_ns),
            !t.on && !s.enable_idle_preview ==> e == (Effect::Off, Effect::Off) && final(self)@
                == old(self)@,
            wall_matches(final(self)@),
            (t.on || s.enable_idle_preview) ==> final(self)@.wall == spec_wall(s.wall_zones),
    {
        proof {
            use_type_invariant(&*self);
            if wall_matches(self@) {
                match tick_source_of(*t, *s, idle_press) {
                    TickSource::Live => lemma_active_tick_wall(self@, *t, *s, *r, now_ns),
                    TickSource::Preview { brake, accel } => lemma_active_tick_wall(
                        self@,
                        synth_frame(brake, accel),
                        *s,
                        *r,
                        now_ns,
                    ),
                    TickSource::Idle => {},
                }
            }
        }
        match tick_source(t, s, idle_press) {
            TickSource::Live => self.update_active(t, s, r, now_ns),
            TickSource::Preview { brake, accel } => {
                let fake = synth_telemetry(brake, accel);
                self.update_active(&fake, s, r, now_ns)
            },
            TickSource::Idle => (Effect::Off, Effect::Off),
        }
    }
}

/// The brake curve is always well defined: both spans are at least 1, a
/// press in the bite segment is short of its span, a press in the ramp
/// segment never passes its span, and a press at or past a wall that sits
/// above the bite point reaches the top of the curve.
pub proof fn lemma_ramp_segment_bounds(value: u8, s: Settings)
    ensures
        match ramp_segment(value, s) {
            RampSegment::Baseline => value < s.brake_deadzone,
            RampSegment::Bite { travel, span } => 1 <= span && travel < span,
            RampSegment::Ramp { travel, span } => 1 <= span && travel <= span && (value
                >= eff_wall_at(s) && eff_wall_at(s) > eff_bite_point(s) ==> travel == span),
        },
{
}

/// Where a press sits on the brake curve: the segment's rank, then the
/// travel along it.
pub open spec fn ramp_position(seg: RampSegment) -> (int, int) {
    match seg {
        RampSegment::Baseline => (0, 0),
        RampSegment::Bite { travel, .. } => (1, travel as int),
        RampSegment::Ramp { travel, .. } => (2, travel as int),
    }
}

/// The brake resistance is progressive: pressing further never moves the
/// press back along the curve. A deeper press is in the same or a later
/// segment, and within a segment at least as far along, over the same
/// span.
pub proof fn lemma_ramp_segment_monotone(v1: u8, v2: u8, s: Settings)
    requires
        v1 <= v2,
    ensures
        ({
            let p1 = ramp_position(ramp_segment(v1, s));
            let p2 = ramp_position(ramp_segment(v2, s));
            p1.0 < p2.0 || (p1.0 == p2.0 && p1.1 <= p2.1)
        }),
        ramp_position(ramp_segment(v1, s)).0 == ramp_position(ramp_segment(v2, s)).0 ==> (match (
            ramp_segment(v1, s),
            ramp_segment(v2, s),
        ) {
            (RampSegment::Bite { span: a, .. }, RampSegment::Bite { span: b, .. }) => a == b,
            (RampSegment::Ramp { span: a, .. }, RampSegment::Ramp { span: b, .. }) => a == b,
            _ => true,
        }),
{
}

/// An active tick keeps the wall effect built for the current zone
/// setting: after it, the wall is the one `build_wall` gives for the
/// settings' zone count, whatever the state before.
pub proof fn lemma_active_tick_wall(c: ControllerState, t: Telemetry, s: Settings, r: FrameReadings, now: u64)
    requires
        wall_matches(c),
    ensures
        wall_matches(active_tick(c, t, s, r, now).0),
        active_tick(c, t, s, r, now).0.wall == spec_wall(s.wall_zones),
        active_tick(c, t, s, r, now).0.cached_wall_zones == s.wall_zones,
{
}

/// Every tick keeps the wall effect matched to the zone count it was
/// built for.
pub proof fn lemma_tick_keeps_wall(
    c: ControllerState,
    t: Telemetry,
    s: Settings,
    idle_press: Option<(u8, u8)>,
    r: FrameReadings,
    now: u64,
)
    requires
        wall_matches(c),
    ensures
        wall_matches(tick(c, t, s, idle_press, r, now).0),
{
    match tick_source_of(t, s, idle_press) {
        TickSource::Live => lemma_active_tick_wall(c, t, s, r, now),
        TickSource::Preview { brake, accel } => lemma_active_tick_wall(
            c,
            synth_frame(brake, accel),
            s,
            r,
            now,
        ),
        TickSource::Idle => {},
    }
}

/// Rev-limit hold: after an over-rev under throttle at `now0`, the buzz
/// keeps going on every later tick before the hold runs out, whether or
/// not that tick over-revs.
pub proof fn lemma_rev_buzz_holds(
    a: AnimState,
    t0: Telemetry,
    r0: FrameReadings,
    t1: Telemetry,
    r1: FrameReadings,
    s: Settings,
    now0: u64,
    now1: u64,
)
    requires
        s.enable_rev_limiter,
        t0.accel >= s.accel_deadzone,
        r0.over_rev,
        now0 <= now1 < deadline(now0, s.rev_limit_hold_ms),
    ensures
        rev_buzz_effect(rev_armed(rev_armed(a, t0, s, r0, now0), t1, s, r1, now1), s, now1)
            == Some(Effect::Vibration { freq: s.rev_limit_freq, amp: s.rev_limit_amp }),
{
}

/// Rev-limit hold ends: once the hold has run out and no new over-rev
/// under throttle restarts it, the buzz stops.
pub proof fn lemma_rev_buzz_ends(a: AnimState, t: Telemetry, r: FrameReadings, s: Settings, now: u64)
    requires
        a.rev_until matches Some(until) && now >= until,
        !(t.accel >= s.accel_deadzone && r.over_rev),
    ensures
        rev_buzz_effect(rev_armed(a, t, s, r, now), s, now) is None,
{
}

/// Gear-shift burst window: a change between two forward gears while
/// moving starts a burst that runs on every tick before its duration is
/// up and is gone from then on, unless another shift re-arms it.
pub proof fn lemma_shift_burst_window(
    a: AnimState,
    gear: u8,
    s: Settings,
    now0: u64,
    now1: u64,
    pedal: u8,
    wall_engage_at: u8,
)
    requires
        a.prev_gear > 0,
        gear > 0,
        gear != a.prev_gear,
        now0 <= now1,
    ensures
        now1 < deadline(now0, s.gear_shift_duration_ms) ==> shift_burst_effect(
            armed(a, gear, true, now0, s.gear_shift_duration_ms),
            s,
            now1,
            pedal,
            wall_engage_at,
        ) is Some,
        now1 >= deadline(now0, s.gear_shift_duration_ms) ==> shift_burst_effect(
            armed(a, gear, true, now0, s.gear_shift_duration_ms),
            s,
            now1,
            pedal,
            wall_engage_at,
        ) is None,
{
}

/// A stationary car never starts a burst, and neither does staying in the
/// same gear or passing through neutral.
pub proof fn lemma_no_burst_without_shift(a: AnimState, gear: u8, moving: bool, now: u64, duration_ms: u64)
    requires
        !moving || gear == a.prev_gear || gear == 0 || a.prev_gear == 0,
    ensures
        armed(a, gear, moving, now, duration_ms).shift_until == a.shift_until,
        armed(a, gear, moving, now, duration_ms).prev_gear == gear,
{
}

/// No gear-shift burst is running at `now` in animation state `a`.
pub open spec fn no_burst_at(a: AnimState, now: u64) -> bool {
    match a.shift_until {
        Some(until) => now >= until,
        None => true,
    }
}

/// With brake resistance off, L2 is never the wall nor any brake force:
/// unless a shift burst or an ABS pulse takes over, it is the handbrake
/// bonus while the handbrake is held (and the bonus is on), and off
/// otherwise, for every brake press and whatever the wall state.
pub proof fn lemma_l2_without_brake_resistance(
    c: ControllerState,
    t: Telemetry,
    s: Settings,
    r: FrameReadings,
    now: u64,
)
    requires
        !s.enable_brake_resistance,
        !s.enable_gear_shift_brake || no_burst_at(c.anim, now),
        !(s.enable_abs && t.brake >= s.abs_brake_threshold && r.abs_slipping),
    ensures
        l2_step(c, t, s, r, now).1 == (if s.enable_handbrake_bonus && t.handbrake != 0 {
            Effect::Rigid { force: s.handbrake_bonus }
        } else {
            Effect::Off
        }),
{
}

/// The same, for a whole live tick: with brake resistance and the brake
/// shift burst off and no ABS pulse, the L2 effect `update` returns is the
/// handbrake bonus or off, never the wall.
pub proof fn lemma_live_tick_l2_without_brake_resistance(
    c: ControllerState,
    t: Telemetry,
    s: Settings,
    idle_press: Option<(u8, u8)>,
    r: FrameReadings,
    now: u64,
)
    requires
        t.on,
        !s.enable_brake_resistance,
        !s.enable_gear_shift_brake,
        !(s.enable_abs && t.brake >= s.abs_brake_threshold && r.abs_slipping),
    ensures
        tick(c, t, s, idle_press, r, now).1 == (if s.enable_handbrake_bonus && t.handbrake != 0 {
            Effect::Rigid { force: s.handbrake_bonus }
        } else {
            Effect::Off
        }),
{
}

/// With the handbrake bonus disabled the brake force ignores the
/// handbrake: any two frames get the same effect, the brake curve level
/// (clamped to a byte) while resistance is on and off otherwise.
pub proof fn lemma_brake_force_ignores_disabled_bonus(
    t1: Telemetry,
    t2: Telemetry,
    s: Settings,
    r: FrameReadings,
)
    requires
        !s.enable_handbrake_bonus,
    ensures
        brake_resistance_effect(t1, s, r) == brake_resistance_effect(t2, s, r),
        brake_resistance_effect(t1, s, r) == (if s.enable_brake_resistance {
            Effect::Rigid { force: clamp_int(r.brake_curve_level as int, 0, 255) as u8 }
        } else {
            Effect::Off
        }),
{
}

/// With the bonus enabled and the handbrake held, the brake force is the
/// curve level that includes the bonus (or the bonus alone with resistance
/// off); with the handbrake released it is as if the bonus were disabled.
pub proof fn lemma_brake_force_with_bonus(t: Telemetry, s: Settings, r: FrameReadings)
    requires
        s.enable_handbrake_bonus,
    ensures
        t.handbrake != 0 ==> brake_resistance_effect(t, s, r) == (if s.enable_brake_resistance {
            Effect::Rigid { force: clamp_int(r.brake_curve_bonus_level as int, 0, 255) as u8 }
        } else {
            Effect::Rigid { force: s.handbrake_bonus }
        }),
        t.handbrake == 0 ==> brake_resistance_effect(t, s, r) == brake_resistance_effect(
            t,
            Settings { enable_handbrake_bonus: false, ..s },
            r,
        ),
{
}

/// With throttle resistance off, R2 is never the wall nor any throttle
/// force: unless a shift burst or the rev-limit buzz takes over, it is off,
/// for every throttle press and whatever the wall state.
pub proof fn lemma_r2_without_throttle_resistance(
    c: ControllerState,
    t: Telemetry,
    s: Settings,
    r: FrameReadings,
    now: u64,
)
    requires
        !s.enable_throttle_resistance,
        !s.enable_gear_shift || no_burst_at(c.anim, now),
        !s.enable_rev_limiter || (!(t.accel >= s.accel_deadzone && r.over_rev) && match c.anim.rev_until {
            Some(until) => now >= until,
            None => true,
        }),
    ensures
        r2_step(c, t, s, r, now).1 == Effect::Off,
{
}

/// No ABS pulse without slip: on a frame that is not slipping, L2 and the
/// state after it are the same with ABS enabled or disabled, and the pulse
/// itself is absent.
pub proof fn lemma_no_abs_without_slip(c: ControllerState, t: Telemetry, s: Settings, r: FrameReadings, now: u64)
    requires
        !r.abs_slipping,
    ensures
        abs_pulse_effect(t, s, r) is None,
        l2_step(c, t, s, r, now) == l2_step(c, t, Settings { enable_abs: false, ..s }, r, now),
{
}

/// The ABS pulse: with ABS on, the brake at or past its threshold and the
/// frame slipping, L2 is the configured vibration unless a brake shift
/// burst is running, whatever the wall and resistance settings; with any
/// of the three missing there is no pulse.
pub proof fn lemma_abs_pulse_on_slip(c: ControllerState, t: Telemetry, s: Settings, r: FrameReadings, now: u64)
    ensures
        s.enable_abs && t.brake >= s.abs_brake_threshold && r.abs_slipping && (
        !s.enable_gear_shift_brake || no_burst_at(c.anim, now)) ==> l2_step(c, t, s, r, now).1
            == (Effect::Vibration { freq: s.abs_freq, amp: s.abs_amp }),
        abs_pulse_effect(t, s, r) is Some ==> s.enable_abs && t.brake >= s.abs_brake_threshold
            && r.abs_slipping,
{
}

/// The wall on L2: with brake resistance on and no shift burst or ABS
/// pulse taking over, a press at or past the engage point gets exactly the
/// controller's wall effect, and the trigger is then in its wall.
pub proof fn lemma_l2_wall_at_engage(c: ControllerState, t: Telemetry, s: Settings, r: FrameReadings, now: u64)
    requires
        s.enable_brake_resistance,
        !s.enable_gear_shift_brake || no_burst_at(c.anim, now),
        !(s.enable_abs && t.brake >= s.abs_brake_threshold && r.abs_slipping),
        t.brake >= s.brake_wall_engage_at,
    ensures
        l2_step(c, t, s, r, now).1 == c.wall,
        l2_step(c, t, s, r, now).0.l2_in_wall,
{
}

/// The wall on R2: with throttle resistance on and no shift burst or
/// rev-limit buzz taking over, a press at or past the engage point gets
/// exactly the controller's wall effect, and the trigger is then in its
/// wall.
pub proof fn lemma_r2_wall_at_engage(c: ControllerState, t: Telemetry, s: Settings, r: FrameReadings, now: u64)
    requires
        s.enable_throttle_resistance,
        !s.enable_gear_shift || no_burst_at(c.anim, now),
        !s.enable_rev_limiter,
        t.accel >= s.throttle_wall_engage_at,
    ensures
        r2_step(c, t, s, r, now).1 == c.wall,
        r2_step(c, t, s, r, now).0.r2_in_wall,
{
}

} // verus!
