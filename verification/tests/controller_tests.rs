use forza_dualsense::controller::{
    brake_ramp_segment, synth_telemetry, tick_source, wall_state, Controller, FrameReadings,
    RampSegment, TickSource, TriggerAnimations,
};
use forza_dualsense::settings::Settings;
use forza_dualsense::telemetry::Telemetry;
use forza_dualsense::triggers::Effect;

const MS: u64 = 1_000_000;

fn readings(curve: i32) -> FrameReadings {
    FrameReadings {
        moving: true,
        abs_slipping: false,
        over_rev: false,
        brake_curve_level: curve,
        brake_curve_bonus_level: curve + 25,
    }
}

fn live(brake: u8, accel: u8, gear: u8) -> Telemetry {
    Telemetry { on: true, brake, accel, gear, ..Telemetry::default() }
}

#[test]
fn neutral_in_menus_without_preview() {
    let mut s = Settings::default();
    s.enable_idle_preview = false;
    let mut c = Controller::new(&s);
    let out = c.update(&Telemetry::default(), &s, Some((200, 200)), &readings(50), 0);
    assert_eq!(out, (Effect::Off, Effect::Off));
}

#[test]
fn idle_preview_uses_controller_press() {
    let s = Settings::default();
    assert_eq!(
        tick_source(&Telemetry::default(), &s, Some((12, 34))),
        TickSource::Preview { brake: 12, accel: 34 }
    );
    assert_eq!(tick_source(&Telemetry::default(), &s, None), TickSource::Preview { brake: 0, accel: 0 });
    assert_eq!(tick_source(&live(1, 2, 3), &s, None), TickSource::Live);
    let mut c = Controller::new(&s);
    let out = c.update(&Telemetry::default(), &s, None, &readings(5), 0);
    assert_eq!(out, (Effect::Rigid { force: 5 }, Effect::Rigid { force: 0 }));
    // Preview throttle past the deadzone feels the ramp: a quarter of the
    // way from the deadzone to the wall, 7.5 rounds up to 8.
    let out = c.update(&Telemetry::default(), &s, Some((0, 100)), &readings(5), 0);
    assert_eq!(out.1, Effect::Rigid { force: 8 });
}

#[test]
fn synth_frame_fields() {
    let t = synth_telemetry(7, 9);
    assert!(t.on);
    assert_eq!((t.brake, t.accel, t.gear, t.handbrake), (7, 9, 3, 0));
    assert_eq!(f32::from_bits(t.rpm_bits), 3500.0);
    assert_eq!(f32::from_bits(t.max_rpm_bits), 8000.0);
}

#[test]
fn brake_wall_hysteresis() {
    let s = Settings::default();
    let mut c = Controller::new(&s);
    let (l2, _) = c.update(&live(249, 0, 3), &s, None, &readings(180), 0);
    assert_eq!(l2, Effect::Rigid { force: 180 });
    assert!(!c.l2_in_wall());
    let (l2, _) = c.update(&live(250, 0, 3), &s, None, &readings(200), 0);
    assert_eq!(l2, Effect::build_wall(2));
    assert!(c.l2_in_wall());
    let (l2, _) = c.update(&live(220, 0, 3), &s, None, &readings(150), 0);
    assert_eq!(l2, Effect::build_wall(2));
    let (l2, _) = c.update(&live(219, 0, 3), &s, None, &readings(150), 0);
    assert_eq!(l2, Effect::Rigid { force: 150 });
    assert!(!c.l2_in_wall());
}

#[test]
fn throttle_wall_hysteresis() {
    let s = Settings::default();
    let mut c = Controller::new(&s);
    let (_, r2) = c.update(&live(0, 255, 3), &s, None, &readings(0), 0);
    assert_eq!(r2, Effect::build_wall(2));
    assert!(c.r2_in_wall());
    let (_, r2) = c.update(&live(0, 200, 3), &s, None, &readings(0), 0);
    assert_eq!(r2, Effect::build_wall(2));
    let (_, r2) = c.update(&live(0, 199, 3), &s, None, &readings(0), 0);
    assert_eq!(r2, Effect::Rigid { force: 22 });
}

#[test]
fn wall_rebuilt_when_zones_change() {
    let mut s = Settings::default();
    let mut c = Controller::new(&s);
    assert_eq!(c.wall(), Effect::build_wall(2));
    s.wall_zones = 5;
    let (l2, _) = c.update(&live(255, 0, 3), &s, None, &readings(0), 0);
    assert_eq!(l2, Effect::build_wall(5));
    assert_eq!(c.wall(), Effect::build_wall(5));
}

#[test]
fn wall_state_clamps_inverted_thresholds() {
    // Release above engage acts as engage - 1.
    assert!(wall_state(199, true, 200, 250));
    assert!(!wall_state(198, true, 200, 250));
    assert!(!wall_state(199, false, 200, 250));
    assert!(wall_state(200, false, 200, 250));
    // Equal thresholds still leave a one-step band.
    assert!(wall_state(99, true, 100, 100));
    // Engage at 0: always in the wall.
    assert!(wall_state(0, false, 0, 0));
}

#[test]
fn abs_pulse_takes_priority_over_resistance() {
    let mut s = Settings::default();
    s.enable_abs = true;
    let mut c = Controller::new(&s);
    let mut r = readings(120);
    r.abs_slipping = true;
    let (l2, _) = c.update(&live(100, 0, 3), &s, None, &r, 0);
    assert_eq!(l2, Effect::Vibration { freq: 10, amp: 20 });
    // Below the brake threshold: no pulse.
    let (l2, _) = c.update(&live(79, 0, 3), &s, None, &r, 0);
    assert_eq!(l2, Effect::Rigid { force: 120 });
    // Beats even the wall.
    let (l2, _) = c.update(&live(255, 0, 3), &s, None, &r, 0);
    assert_eq!(l2, Effect::Vibration { freq: 10, amp: 20 });
}

#[test]
fn rev_limiter_buzz_holds() {
    let s = Settings::default();
    let mut c = Controller::new(&s);
    let mut over = readings(0);
    over.over_rev = true;
    let (_, r2) = c.update(&live(0, 100, 3), &s, None, &over, 0);
    assert_eq!(r2, Effect::Vibration { freq: 20, amp: 1 });
    let (_, r2) = c.update(&live(0, 100, 3), &s, None, &readings(0), 119 * MS);
    assert_eq!(r2, Effect::Vibration { freq: 20, amp: 1 });
    let (_, r2) = c.update(&live(0, 100, 3), &s, None, &readings(0), 120 * MS);
    assert_eq!(r2, Effect::Rigid { force: 8 });
}

#[test]
fn rev_limiter_needs_throttle() {
    let s = Settings::default();
    let mut c = Controller::new(&s);
    let mut over = readings(0);
    over.over_rev = true;
    let (_, r2) = c.update(&live(0, 49, 3), &s, None, &over, 0);
    assert_eq!(r2, Effect::Rigid { force: 0 });
}

#[test]
fn gear_shift_burst_on_throttle() {
    let mut s = Settings::default();
    s.enable_gear_shift = true;
    let mut c = Controller::new(&s);
    let (_, r2) = c.update(&live(0, 100, 2), &s, None, &readings(0), 0);
    assert_eq!(r2, Effect::Rigid { force: 8 });
    let (_, r2) = c.update(&live(0, 100, 3), &s, None, &readings(0), 10 * MS);
    assert_eq!(r2, Effect::Vibration { freq: 20, amp: 255 });
    let (_, r2) = c.update(&live(0, 253, 3), &s, None, &readings(0), 50 * MS);
    assert_eq!(r2, Effect::VibrationWall { freq: 20, amp_strength: 8, wall_zones: 2 });
    let (_, r2) = c.update(&live(0, 100, 3), &s, None, &readings(0), 110 * MS);
    assert_eq!(r2, Effect::Rigid { force: 8 });
}

#[test]
fn gear_shift_needs_motion() {
    let mut s = Settings::default();
    s.enable_gear_shift = true;
    let mut c = Controller::new(&s);
    let mut still = readings(0);
    still.moving = false;
    c.update(&live(0, 100, 2), &s, None, &still, 0);
    let (_, r2) = c.update(&live(0, 100, 3), &s, None, &still, MS);
    assert_eq!(r2, Effect::Rigid { force: 8 });
}

#[test]
fn gear_shift_burst_on_brake() {
    let mut s = Settings::default();
    s.enable_gear_shift_brake = true;
    let mut c = Controller::new(&s);
    c.update(&live(30, 0, 4), &s, None, &readings(40), 0);
    let (l2, r2) = c.update(&live(30, 0, 3), &s, None, &readings(40), MS);
    assert_eq!(l2, Effect::Vibration { freq: 20, amp: 255 });
    // Throttle shift burst is off, so R2 is unaffected.
    assert_eq!(r2, Effect::Rigid { force: 0 });
}

#[test]
fn handbrake_bonus() {
    let mut s = Settings::default();
    let mut c = Controller::new(&s);
    let mut t = live(50, 0, 3);
    t.handbrake = 1;
    let (l2, _) = c.update(&t, &s, None, &readings(60), 0);
    assert_eq!(l2, Effect::Rigid { force: 85 });
    s.enable_brake_resistance = false;
    let (l2, _) = c.update(&t, &s, None, &readings(60), 0);
    assert_eq!(l2, Effect::Rigid { force: 25 });
    t.handbrake = 0;
    let (l2, _) = c.update(&t, &s, None, &readings(60), 0);
    assert_eq!(l2, Effect::Off);
}

#[test]
fn animations_start_idle() {
    let a = TriggerAnimations::new();
    let s = Settings::default();
    assert_eq!(a.shift_burst(&s, 0, 0, 250), None);
}

#[test]
fn brake_ramp_segments_default() {
    let s = Settings::default();
    assert_eq!(brake_ramp_segment(5, &s), RampSegment::Baseline);
    assert_eq!(brake_ramp_segment(10, &s), RampSegment::Bite { travel: 0, span: 194 });
    assert_eq!(brake_ramp_segment(100, &s), RampSegment::Bite { travel: 90, span: 194 });
    assert_eq!(brake_ramp_segment(204, &s), RampSegment::Ramp { travel: 0, span: 46 });
    assert_eq!(brake_ramp_segment(250, &s), RampSegment::Ramp { travel: 46, span: 46 });
    assert_eq!(brake_ramp_segment(255, &s), RampSegment::Ramp { travel: 46, span: 46 });
}

#[test]
fn brake_ramp_segments_overlapping_settings() {
    let mut s = Settings::default();
    s.brake_deadzone = 100;
    s.brake_bite_point = 50;
    s.brake_wall_engage_at = 20;
    // Bite point lifted to 101, wall to 102.
    assert_eq!(brake_ramp_segment(100, &s), RampSegment::Bite { travel: 0, span: 1 });
    assert_eq!(brake_ramp_segment(101, &s), RampSegment::Ramp { travel: 0, span: 1 });
    assert_eq!(brake_ramp_segment(200, &s), RampSegment::Ramp { travel: 1, span: 1 });
    s.brake_deadzone = 255;
    assert_eq!(brake_ramp_segment(254, &s), RampSegment::Baseline);
    assert_eq!(brake_ramp_segment(255, &s), RampSegment::Ramp { travel: 0, span: 1 });
}

#[test]
fn throttle_ramp_is_linear_from_deadzone_to_wall() {
    let mut s = Settings::default();
    let a = TriggerAnimations::new();
    let at = |accel: u8, s: &Settings| a.throttle_ramp(&live(0, accel, 3), s);
    assert_eq!(at(0, &s), Effect::Rigid { force: 0 });
    assert_eq!(at(50, &s), Effect::Rigid { force: 0 });
    assert_eq!(at(51, &s), Effect::Rigid { force: 0 });
    assert_eq!(at(57, &s), Effect::Rigid { force: 1 });
    assert_eq!(at(150, &s), Effect::Rigid { force: 15 });
    assert_eq!(at(249, &s), Effect::Rigid { force: 30 });
    assert_eq!(at(250, &s), Effect::Rigid { force: 30 });
    assert_eq!(at(255, &s), Effect::Rigid { force: 30 });
    // A wall at or below the deadzone: full stiffness one step past it.
    s.throttle_wall_engage_at = 40;
    assert_eq!(at(50, &s), Effect::Rigid { force: 0 });
    assert_eq!(at(51, &s), Effect::Rigid { force: 30 });
    s.enable_throttle_resistance = false;
    assert_eq!(at(150, &s), Effect::Off);
}

#[test]
fn long_timer_settings_are_accepted() {
    let mut s = Settings::default();
    s.enable_gear_shift = true;
    s.gear_shift_duration_ms = 100_000_000_000_000;
    s.rev_limit_hold_ms = u64::MAX;
    let mut c = Controller::new(&s);
    let late = u64::MAX - 1;
    c.update(&live(0, 100, 2), &s, None, &readings(0), late);
    let (_, r2) = c.update(&live(0, 100, 3), &s, None, &readings(0), late);
    assert_eq!(r2, Effect::Vibration { freq: 20, amp: 255 });
    let mut over = readings(0);
    over.over_rev = true;
    s.enable_gear_shift = false;
    let (_, r2) = c.update(&live(0, 100, 3), &s, None, &over, late);
    assert_eq!(r2, Effect::Vibration { freq: 20, amp: 1 });
    let (_, r2) = c.update(&live(0, 100, 3), &s, None, &readings(0), u64::MAX);
    assert_eq!(r2, Effect::Vibration { freq: 20, amp: 1 });
}

#[test]
fn update_rebuilds_wall_for_preview_ticks() {
    let mut s = Settings::default();
    let mut c = Controller::new(&s);
    s.wall_zones = 7;
    c.update(&Telemetry::default(), &s, Some((0, 0)), &readings(0), 0);
    assert_eq!(c.wall(), Effect::build_wall(7));
}
