//! The tunables the trigger logic reads. Forces 0-255, frequencies in Hz.
//!
//! The persisted settings also hold floating-point tunables (the brake
//! curve exponent, slip and speed thresholds, the rev-limit and redline
//! ratios); those are evaluated outside this crate and reach the trigger
//! logic as the per-frame facts of `controller::FrameReadings`. The two
//! durations, configured as fractional milliseconds, are held here as the
//! whole milliseconds the timers use.

use vstd::prelude::*;

verus! {

#[derive(Clone, Debug)]
pub struct Settings {
    // --- UDP ---
    pub udp_host: String,
    pub udp_port: u16,
    // --- Shared pedal config ---
    pub wall_zones: u8,
    // --- L2: Brake ---
    //
    // The brake trigger uses a piecewise force curve:
    //   * 0..deadzone:            no contact, baseline force only
    //   * deadzone..bite_point:   linear modulation, real pedal feel
    //   * bite_point..wall_at:    steep ramp toward `max_force`, the
    //                             "bite" zone you have to mean to push
    //                             through (mimics anti-lock onset)
    //   * wall_at..:              rigid wall, full lock-up
    pub enable_brake_resistance: bool,
    pub brake_deadzone: u8,
    pub brake_baseline_force: u8,
    pub brake_bite_point: u8,
    pub brake_bite_force: u8,
    pub brake_max_force: u8,
    pub brake_wall_engage_at: u8,
    pub brake_wall_release_at: u8,
    pub enable_handbrake_bonus: bool,
    pub handbrake_bonus: u8,
    pub enable_abs: bool,
    pub abs_brake_threshold: u8,
    pub abs_freq: u8,
    pub abs_amp: u8,
    // --- R2: Throttle ---
    pub enable_throttle_resistance: bool,
    pub accel_deadzone: u8,
    /// Single linear-stiffness control for the throttle. Force at the
    /// wall edge equals this value; below the wall it ramps linearly
    /// from 0 at the deadzone. A real gas pedal is linear: one knob
    /// matches the mental model and avoids fatigue from sustained
    /// non-linear top-end force.
    pub throttle_stiffness: u8,
    pub throttle_wall_engage_at: u8,
    pub throttle_wall_release_at: u8,
    pub enable_rev_limiter: bool,
    pub rev_limit_freq: u8,
    pub rev_limit_amp: u8,
    /// How long the rev-limit buzz holds after the last over-rev, in
    /// whole milliseconds.
    pub rev_limit_hold_ms: u64,
    /// Drive the controller's main rumble motors based on RPM proximity
    /// to redline. Enabling this takes over the rumble bytes Steam Input
    /// would otherwise own.
    pub enable_redline_rumble: bool,
    pub redline_rumble_max: u8,
    pub enable_gear_shift: bool,
    pub enable_gear_shift_brake: bool,
    pub gear_shift_freq: u8,
    pub gear_shift_amp: u8,
    /// How long a gear-shift burst lasts, in whole milliseconds.
    pub gear_shift_duration_ms: u64,
    // --- System ---
    pub enable_startup_pulse: bool,
    pub startup_pulse_force: u8,
    pub enable_auto_update: bool,
    /// When no telemetry is arriving, drive both triggers as if the car
    /// were on-track, from the controller's own L2/R2 press. Lets you feel
    /// the configured resistance while tuning without launching Forza.
    pub enable_idle_preview: bool,
}

/// The shipped defaults.
pub open spec fn default_settings_hold(s: Settings) -> bool {
    &&& s.udp_host@ == "127.0.0.1"@
    &&& s.udp_port == 5300
    &&& s.wall_zones == 2
    &&& s.enable_brake_resistance
    &&& s.brake_deadzone == 10
    &&& s.brake_baseline_force == 5
    &&& s.brake_bite_point == 204
    &&& s.brake_bite_force == 100
    &&& s.brake_max_force == 200
    &&& s.brake_wall_engage_at == 250
    &&& s.brake_wall_release_at == 220
    &&& s.enable_handbrake_bonus
    &&& s.handbrake_bonus == 25
    &&& !s.enable_abs
    &&& s.abs_brake_threshold == 80
    &&& s.abs_freq == 10
    &&& s.abs_amp == 20
    &&& s.enable_throttle_resistance
    &&& s.accel_deadzone == 50
    &&& s.throttle_stiffness == 30
    &&& s.throttle_wall_engage_at == 250
    &&& s.throttle_wall_release_at == 200
    &&& s.enable_rev_limiter
    &&& s.rev_limit_freq == 20
    &&& s.rev_limit_amp == 1
    &&& s.rev_limit_hold_ms == 120
    &&& !s.enable_redline_rumble
    &&& s.redline_rumble_max == 200
    &&& !s.enable_gear_shift
    &&& !s.enable_gear_shift_brake
    &&& s.gear_shift_freq == 20
    &&& s.gear_shift_amp == 255
    &&& s.gear_shift_duration_ms == 100
    &&& s.enable_startup_pulse
    &&& s.startup_pulse_force == 150
    &&& s.enable_auto_update
    &&& s.enable_idle_preview
}

impl Default for Settings {
    fn default() -> (s: Settings)
        ensures
            default_settings_hold(s),
    {
        Settings {
            udp_host: String::from_str("127.0.0.1"),
            udp_port: 5300,
            wall_zones: 2,
            enable_brake_resistance: true,
            brake_deadzone: 10,
            brake_baseline_force: 5,
            // At ~80% physical press the player should feel ~50% of the
            // lockup force: slow linear build, then a steep curved ramp
            // to full stiffness over the final 20% of travel.
            brake_bite_point: 204,
            brake_bite_force: 100,
            brake_max_force: 200,
            brake_wall_engage_at: 250,
            brake_wall_release_at: 220,
            enable_handbrake_bonus: true,
            handbrake_bonus: 25,
            enable_abs: false,
            abs_brake_threshold: 80,
            abs_freq: 10,
            abs_amp: 20,
            enable_throttle_resistance: true,
            accel_deadzone: 50,
            throttle_stiffness: 30,
            throttle_wall_engage_at: 250,
            throttle_wall_release_at: 200,
            enable_rev_limiter: true,
            rev_limit_freq: 20,
            rev_limit_amp: 1,
            rev_limit_hold_ms: 120,
            enable_redline_rumble: false,
            redline_rumble_max: 200,
            enable_gear_shift: false,
            enable_gear_shift_brake: false,
            gear_shift_freq: 20,
            gear_shift_amp: 255,
            gear_shift_duration_ms: 100,
            enable_startup_pulse: true,
            startup_pulse_force: 150,
            enable_auto_update: true,
            enable_idle_preview: true,
        }
    }
}

} // verus!
