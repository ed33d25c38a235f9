use forza_dualsense::controller::FrameReadings;
use forza_dualsense::hid::{freshest_press, Transport};
use forza_dualsense::hid_task::{
    link_step, startup_sequence, DriveSession, LinkAction, LinkEvent, LinkStatus, OutputWrite,
    RECONNECT_INTERVAL_SECS,
};
use forza_dualsense::state::HidStatus;
use forza_dualsense::settings::Settings;
use forza_dualsense::telemetry::Telemetry;
use forza_dualsense::triggers::Effect;

const SEC: u64 = 1_000_000_000;

fn quiet_readings() -> FrameReadings {
    FrameReadings {
        moving: true,
        abs_slipping: false,
        over_rev: false,
        brake_curve_level: 40,
        brake_curve_bonus_level: 65,
    }
}

fn racing(brake: u8, accel: u8) -> Telemetry {
    Telemetry { on: true, brake, accel, gear: 3, ..Telemetry::default() }
}

fn neutral() -> OutputWrite {
    OutputWrite { l2: Effect::Off, r2: Effect::Off, rumble_heavy: 0, rumble_light: 0 }
}

#[test]
fn startup_sequence_pulses_then_releases() {
    let mut s = Settings::default();
    let pulse = Effect::Rigid { force: 150 };
    assert_eq!(
        startup_sequence(&s),
        vec![OutputWrite { l2: pulse, r2: pulse, rumble_heavy: 0, rumble_light: 0 }, neutral()]
    );
    s.enable_startup_pulse = false;
    assert!(startup_sequence(&s).is_empty());
}

#[test]
fn session_tick_writes_controller_effects_with_rumble() {
    let s = Settings::default();
    let mut d = DriveSession::new(&s, 0);
    let w = d.step(&racing(0, 150), &s, 1, None, &quiet_readings(), (9, 9), SEC);
    assert_eq!(
        w,
        vec![OutputWrite {
            l2: Effect::Rigid { force: 40 },
            r2: Effect::Rigid { force: 15 },
            rumble_heavy: 9,
            rumble_light: 9,
        }]
    );
    assert_eq!(d.watch.last_seen_packets, 1);
    assert_eq!(d.watch.last_change_ns, SEC);
}

#[test]
fn session_goes_neutral_after_a_silent_minute() {
    let s = Settings::default();
    let mut d = DriveSession::new(&s, 0);
    d.step(&racing(0, 0), &s, 7, None, &quiet_readings(), (0, 0), SEC);
    // Same count within the minute: only the tick's effects.
    let w = d.step(&racing(0, 0), &s, 7, None, &quiet_readings(), (0, 0), 61 * SEC);
    assert_eq!(w.len(), 1);
    // Same count after more than a minute: neutral first.
    let w = d.step(&racing(0, 0), &s, 7, None, &quiet_readings(), (0, 0), 61 * SEC + 1);
    assert_eq!(w.len(), 2);
    assert_eq!(w[0], neutral());
    assert_eq!(w[1].r2, Effect::Rigid { force: 0 });
    // New packets: no neutral write.
    let w = d.step(&racing(0, 0), &s, 8, None, &quiet_readings(), (0, 0), 200 * SEC);
    assert_eq!(w.len(), 1);
}

#[test]
fn session_applies_new_settings_on_the_next_tick() {
    let mut s = Settings::default();
    let mut d = DriveSession::new(&s, 0);
    s.enable_throttle_resistance = false;
    let w = d.step(&racing(0, 150), &s, 1, None, &quiet_readings(), (0, 0), SEC);
    assert_eq!(w[0].r2, Effect::Off);
}

#[test]
fn link_opened_publishes_device_and_clears_error() {
    let before = LinkStatus {
        status: HidStatus::Disconnected,
        transport: None,
        serial: "old".to_string(),
        error: "not found".to_string(),
    };
    let (after, action) = link_step(
        before,
        LinkEvent::Opened { transport: Transport::Bluetooth, serial: "abc".to_string() },
    );
    assert_eq!(after.status, HidStatus::Connected);
    assert_eq!(after.transport, Some(Transport::Bluetooth));
    assert_eq!(after.serial, "abc");
    assert_eq!(after.error, "");
    assert_eq!(action, LinkAction::Drive);
}

#[test]
fn link_failed_session_then_reconnect() {
    let connected = LinkStatus {
        status: HidStatus::Connected,
        transport: Some(Transport::Usb),
        serial: "abc".to_string(),
        error: String::new(),
    };
    let (failed, action) =
        link_step(connected, LinkEvent::SessionFailed { error: "HID write failed".to_string() });
    assert_eq!(failed.status, HidStatus::Error);
    assert_eq!(failed.transport, Some(Transport::Usb));
    assert_eq!(failed.error, "HID write failed");
    assert_eq!(action, LinkAction::Close);
    let (ended, action) = link_step(failed, LinkEvent::SessionEnded);
    assert_eq!(ended.status, HidStatus::Disconnected);
    assert_eq!(ended.transport, None);
    assert_eq!(ended.serial, "abc");
    assert_eq!(ended.error, "HID write failed");
    assert_eq!(action, LinkAction::Reopen { after_secs: RECONNECT_INTERVAL_SECS });
    assert_eq!(RECONNECT_INTERVAL_SECS, 10);
}

#[test]
fn link_open_failure_waits_and_keeps_transport() {
    let before = LinkStatus {
        status: HidStatus::Disconnected,
        transport: None,
        serial: "abc".to_string(),
        error: String::new(),
    };
    let (after, action) =
        link_step(before, LinkEvent::OpenFailed { error: "DualSense gamepad interface not found".to_string() });
    assert_eq!(after.status, HidStatus::Disconnected);
    assert_eq!(after.transport, None);
    assert_eq!(after.serial, "abc");
    assert_eq!(after.error, "DualSense gamepad interface not found");
    assert_eq!(action, LinkAction::Reopen { after_secs: 10 });
}

#[test]
fn freshest_parseable_report_wins() {
    let usb = [0x01u8, 0, 0, 0, 0, 40, 90, 0];
    let other = [0x05u8, 0, 0, 0, 0, 1, 2, 3];
    let mut latest = None;
    latest = freshest_press(latest, Transport::Usb, &usb);
    assert_eq!(latest, Some((40, 90)));
    latest = freshest_press(latest, Transport::Usb, &other);
    assert_eq!(latest, Some((40, 90)));
    latest = freshest_press(latest, Transport::Usb, &[0x01, 0, 0, 0, 0, 7, 8]);
    assert_eq!(latest, Some((7, 8)));
    let bt = [0x31u8, 9, 0, 0, 0, 0, 11, 22];
    assert_eq!(freshest_press(None, Transport::Bluetooth, &bt), Some((11, 22)));
    assert_eq!(freshest_press(Some((1, 2)), Transport::Bluetooth, &usb), Some((1, 2)));
}
