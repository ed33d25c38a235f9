use forza_dualsense::telemetry::{Telemetry, DASH_MIN_LEN};

fn put_u32(buf: &mut [u8], off: usize, v: u32) {
    buf[off..off + 4].copy_from_slice(&v.to_le_bytes());
}

fn put_f32(buf: &mut [u8], off: usize, v: f32) {
    put_u32(buf, off, v.to_bits());
}

fn sample_packet() -> Vec<u8> {
    let mut buf = vec![0u8; 324];
    put_u32(&mut buf, 0, 1);
    put_u32(&mut buf, 4, 123_456);
    put_f32(&mut buf, 8, 8000.0);
    put_f32(&mut buf, 12, 900.0);
    put_f32(&mut buf, 16, 6500.5);
    for (i, v) in [0.1f32, -0.2, 0.3, -1.5].iter().enumerate() {
        put_f32(&mut buf, 84 + 4 * i, *v);
    }
    for (i, v) in [1.0f32, 2.0, 3.0, 4.0].iter().enumerate() {
        put_f32(&mut buf, 180 + 4 * i, *v);
    }
    put_f32(&mut buf, 256, 25.0);
    put_f32(&mut buf, 260, 150_000.0);
    put_f32(&mut buf, 264, 420.0);
    buf[315] = 200;
    buf[316] = 17;
    buf[317] = 3;
    buf[318] = 1;
    buf[319] = 4;
    buf[320] = 0xF6;
    buf
}

#[test]
fn parse_rejects_short_packet() {
    assert_eq!(Telemetry::parse(&[]), None);
    assert_eq!(Telemetry::parse(&vec![0u8; DASH_MIN_LEN - 1]), None);
}

#[test]
fn parse_accepts_minimal_packet() {
    let t = Telemetry::parse(&vec![0u8; DASH_MIN_LEN]).unwrap();
    assert_eq!(t, Telemetry::default());
}

#[test]
fn parse_reads_published_offsets() {
    let t = Telemetry::parse(&sample_packet()).unwrap();
    assert!(t.on);
    assert_eq!(t.timestamp_ms, 123_456);
    assert_eq!(f32::from_bits(t.max_rpm_bits), 8000.0);
    assert_eq!(f32::from_bits(t.idle_rpm_bits), 900.0);
    assert_eq!(f32::from_bits(t.rpm_bits), 6500.5);
    assert_eq!(t.tire_slip_ratio_bits.map(f32::from_bits), [0.1, -0.2, 0.3, -1.5]);
    assert_eq!(t.tire_combined_slip_bits.map(f32::from_bits), [1.0, 2.0, 3.0, 4.0]);
    assert_eq!(f32::from_bits(t.speed_ms_bits), 25.0);
    assert_eq!(f32::from_bits(t.power_w_bits), 150_000.0);
    assert_eq!(f32::from_bits(t.torque_nm_bits), 420.0);
    assert_eq!((t.accel, t.brake, t.clutch, t.handbrake, t.gear), (200, 17, 3, 1, 4));
    assert_eq!(t.steer, -10);
}

#[test]
fn parse_on_flag_is_any_nonzero_word() {
    let mut buf = vec![0u8; 324];
    buf[3] = 0x80;
    assert!(Telemetry::parse(&buf).unwrap().on);
}

#[test]
fn keep_latest_skips_malformed_datagram() {
    let good = Telemetry::parse(&sample_packet());
    assert_eq!(Telemetry::keep_latest(good, &[1, 2, 3]), good);
    assert_eq!(Telemetry::keep_latest(None, &[1, 2, 3]), None);
    let zero = vec![0u8; 324];
    assert_eq!(Telemetry::keep_latest(good, &zero), Some(Telemetry::default()));
}
