use forza_dualsense::hid::{
    bluetooth_crc_input, build_output_report, build_report_frame, is_dualsense, parse_input_report,
    seal_bluetooth_report, Transport, FLAGS_TRIGGERS_ONLY, PID_DUALSENSE, PID_DUALSENSE_EDGE,
    VID_SONY,
};
use forza_dualsense::triggers::Effect;

#[test]
fn transport_layout_constants() {
    assert_eq!(Transport::Usb.report_size(), 64);
    assert_eq!(Transport::Bluetooth.report_size(), 78);
    assert_eq!(Transport::Usb.report_id(), 0x02);
    assert_eq!(Transport::Bluetooth.report_id(), 0x31);
    assert_eq!(Transport::Usb.flags_off(), 1);
    assert_eq!(Transport::Bluetooth.flags_off(), 2);
    assert_eq!(Transport::Usb.right_trigger_off(), 11);
    assert_eq!(Transport::Bluetooth.right_trigger_off(), 12);
    assert_eq!(Transport::Usb.left_trigger_off(), 22);
    assert_eq!(Transport::Bluetooth.left_trigger_off(), 23);
    assert_eq!(Transport::Usb.rumble_off(), (3, 4));
    assert_eq!(Transport::Bluetooth.rumble_off(), (4, 5));
    assert_eq!(Transport::Usb.wire_name(), "usb");
    assert_eq!(Transport::Bluetooth.wire_name(), "bluetooth");
}

#[test]
fn usb_report_triggers_only() {
    let r = build_output_report(Transport::Usb, &Effect::Off, &Effect::Rigid { force: 100 }, 0, 0);
    let mut expected = vec![0u8; 64];
    expected[0] = 0x02;
    expected[1] = FLAGS_TRIGGERS_ONLY;
    expected[11] = 0x01;
    expected[13] = 100;
    expected[22] = 0x05;
    assert_eq!(r, expected);
}

#[test]
fn usb_report_with_rumble() {
    let r = build_output_report(
        Transport::Usb,
        &Effect::Vibration { freq: 10, amp: 20 },
        &Effect::Off,
        200,
        7,
    );
    assert_eq!(r.len(), 64);
    assert_eq!(r[1], 0x0F);
    assert_eq!(r[3], 7);
    assert_eq!(r[4], 200);
    assert_eq!(&r[11..22], &[0x05, 0, 0, 0, 0, 0, 0, 0, 0, 0, 0]);
    assert_eq!(&r[22..33], &[0x06, 10, 20, 0, 0, 0, 0, 0, 0, 0, 0]);
    assert!(r[33..].iter().all(|b| *b == 0));
}

#[test]
fn bluetooth_report_crc() {
    let r = build_output_report(Transport::Bluetooth, &Effect::Off, &Effect::Rigid { force: 100 }, 0, 0);
    assert_eq!(r.len(), 78);
    assert_eq!(r[0], 0x31);
    assert_eq!(r[2], FLAGS_TRIGGERS_ONLY);
    assert_eq!(&r[12..15], &[0x01, 0, 100]);
    assert_eq!(r[23], 0x05);
    // CRC32 over [0xA2] || report[0..74], little endian.
    assert_eq!(&r[74..78], &[134, 211, 229, 67]);
    let mut covered = vec![0xA2u8];
    covered.extend_from_slice(&r[0..74]);
    assert_eq!(u32::from_le_bytes([r[74], r[75], r[76], r[77]]), crc32fast::hash(&covered));
}

#[test]
fn bluetooth_crc_pieces() {
    let frame = build_report_frame(Transport::Bluetooth, &Effect::Off, &Effect::Off, 0, 0);
    let input = bluetooth_crc_input(&frame);
    assert_eq!(input.len(), 75);
    assert_eq!(input[0], 0xA2);
    assert_eq!(&input[1..], &frame[0..74]);
    let mut sealed = frame.clone();
    seal_bluetooth_report(&mut sealed, 0x1234_5678);
    assert_eq!(&sealed[74..], &[0x78, 0x56, 0x34, 0x12]);
    assert_eq!(&sealed[..74], &frame[..74]);
}

#[test]
fn bluetooth_report_with_rumble_sets_motor_bytes() {
    let r = build_output_report(Transport::Bluetooth, &Effect::Off, &Effect::Off, 9, 8);
    assert_eq!(r[2], 0x0F);
    assert_eq!(r[4], 8);
    assert_eq!(r[5], 9);
}

#[test]
fn input_reports_by_transport() {
    let usb = [0x01, 0, 0, 0, 0, 33, 44];
    assert_eq!(parse_input_report(Transport::Usb, &usb), Some((33, 44)));
    assert_eq!(parse_input_report(Transport::Usb, &usb[..6]), None);
    assert_eq!(parse_input_report(Transport::Bluetooth, &usb), None);
    let bt = [0x31, 9, 0, 0, 0, 0, 55, 66];
    assert_eq!(parse_input_report(Transport::Bluetooth, &bt), Some((55, 66)));
    assert_eq!(parse_input_report(Transport::Usb, &bt), None);
    assert_eq!(parse_input_report(Transport::Usb, &[]), None);
}

#[test]
fn probe_picks_transport() {
    assert_eq!(Transport::from_probe(&[0x31, 0, 0]), Transport::Bluetooth);
    assert_eq!(Transport::from_probe(&[0x01, 0, 0]), Transport::Usb);
    assert_eq!(Transport::from_probe(&[]), Transport::Usb);
}

#[test]
fn dualsense_ids() {
    assert!(is_dualsense(VID_SONY, PID_DUALSENSE));
    assert!(is_dualsense(VID_SONY, PID_DUALSENSE_EDGE));
    assert!(!is_dualsense(VID_SONY, 0x05C4));
    assert!(!is_dualsense(0x045E, PID_DUALSENSE));
}
