use forza_dualsense::gui::{decimal_string, describe_effect, gear_label};
use forza_dualsense::hid_task::{live_press, raise_peaks, startup_pulse, Cadence, TelemetryWatch, TICK_NANOS};
use forza_dualsense::logs::{LogBuffer, CAPACITY};
use forza_dualsense::settings::Settings;
use forza_dualsense::state::HidStatus;
use forza_dualsense::telemetry::Telemetry;
use forza_dualsense::triggers::Effect;
use forza_dualsense::update::Status;

#[test]
fn settings_defaults() {
    let s = Settings::default();
    assert_eq!(s.udp_host, "127.0.0.1");
    assert_eq!(s.udp_port, 5300);
    assert_eq!(s.wall_zones, 2);
    assert_eq!(s.brake_bite_point, 204);
    assert_eq!(s.gear_shift_duration_ms, 100);
    assert_eq!(s.rev_limit_hold_ms, 120);
    assert!(s.enable_idle_preview);
    assert!(!s.enable_abs);
}

#[test]
fn log_lines_split_across_chunks() {
    let mut b = LogBuffer::new();
    b.push_chunk("hello wo");
    assert!(b.snapshot().is_empty());
    assert_eq!(b.partial(), "hello wo");
    b.push_chunk("rld\nsecond\nthi");
    assert_eq!(b.snapshot(), vec!["hello world".to_string(), "second".to_string()]);
    assert_eq!(b.partial(), "thi");
    b.push_chunk("\n");
    assert_eq!(b.snapshot().len(), 3);
    assert_eq!(b.partial(), "");
}

#[test]
fn log_keeps_last_capacity_lines() {
    let mut b = LogBuffer::new();
    for i in 0..(CAPACITY + 7) {
        b.push_chunk(&format!("line {i}\n"));
    }
    let lines = b.snapshot();
    assert_eq!(lines.len(), CAPACITY);
    assert_eq!(lines[0], "line 7");
    assert_eq!(lines[CAPACITY - 1], format!("line {}", CAPACITY + 6));
}

#[test]
fn log_empty_lines_and_unicode() {
    let mut b = LogBuffer::new();
    b.push_chunk("\n\nγ·δ\n");
    assert_eq!(b.snapshot(), vec!["".to_string(), "".to_string(), "γ·δ".to_string()]);
}

#[test]
fn decimal_strings() {
    assert_eq!(decimal_string(0), "0");
    assert_eq!(decimal_string(7), "7");
    assert_eq!(decimal_string(10), "10");
    assert_eq!(decimal_string(99), "99");
    assert_eq!(decimal_string(100), "100");
    assert_eq!(decimal_string(255), "255");
}

#[test]
fn gear_labels() {
    assert_eq!(gear_label(0), "N");
    assert_eq!(gear_label(1), "1");
    assert_eq!(gear_label(10), "10");
}

#[test]
fn effect_descriptions() {
    assert_eq!(describe_effect(&Effect::Off), ("OFF".to_string(), String::new()));
    assert_eq!(describe_effect(&Effect::Rigid { force: 42 }), ("RIGID".to_string(), "force 42".to_string()));
    assert_eq!(
        describe_effect(&Effect::Vibration { freq: 20, amp: 1 }),
        ("VIBRATION".to_string(), "20 Hz · amp 1".to_string())
    );
    assert_eq!(
        describe_effect(&Effect::VibrationWall { freq: 20, amp_strength: 8, wall_zones: 2 }),
        ("WALL PULSE".to_string(), "20 Hz · amp 8 · zones 2".to_string())
    );
    assert_eq!(describe_effect(&Effect::build_wall(2)), ("WALL".to_string(), String::new()));
}

#[test]
fn cadence_sleeps_until_next_tick() {
    let mut c = Cadence::new(1_000);
    assert_eq!(c.advance(1_000), TICK_NANOS);
    assert_eq!(c.next_deadline_ns, 1_000 + TICK_NANOS);
    assert_eq!(c.advance(1_000 + TICK_NANOS + 500), TICK_NANOS - 500);
}

#[test]
fn cadence_resets_when_behind() {
    let mut c = Cadence::new(0);
    assert_eq!(c.advance(10 * TICK_NANOS), 0);
    assert_eq!(c.next_deadline_ns, 10 * TICK_NANOS);
}

#[test]
fn telemetry_watch_detects_silence() {
    let mut w = TelemetryWatch::new(0);
    assert!(!w.observe(0, 100_000_000_000));
    assert!(!w.observe(5, 1_000));
    assert!(!w.observe(5, 60_000_001_000));
    assert!(w.observe(5, 60_000_001_001));
    assert!(!w.observe(6, 70_000_000_000));
}

#[test]
fn startup_pulse_follows_settings() {
    let mut s = Settings::default();
    assert_eq!(startup_pulse(&s), Some(Effect::Rigid { force: 150 }));
    s.enable_startup_pulse = false;
    assert_eq!(startup_pulse(&s), None);
}

#[test]
fn live_press_and_peaks() {
    let t = Telemetry { on: true, brake: 10, accel: 20, ..Telemetry::default() };
    assert_eq!(live_press(&t, Some((1, 2))), (10, 20));
    assert_eq!(live_press(&Telemetry::default(), Some((1, 2))), (1, 2));
    assert_eq!(live_press(&Telemetry::default(), None), (0, 0));
    assert_eq!(raise_peaks((5, 50), (10, 20)), (10, 50));
}

#[test]
fn status_names_and_default() {
    assert_eq!(HidStatus::Connected.wire_name(), "connected");
    assert_eq!(HidStatus::Disconnected.wire_name(), "disconnected");
    assert_eq!(HidStatus::Error.wire_name(), "error");
    assert_eq!(Status::default(), Status::Idle);
}
