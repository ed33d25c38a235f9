//! The Forza Horizon "Dash" UDP packet.
//!
//! Float fields are kept as the IEEE-754 bit patterns the packet carries;
//! unit conversions and float comparisons happen where the values are
//! displayed or assessed.

use vstd::prelude::*;

verus! {

/// Bytes a packet must hold to contain the dash extension (offsets
/// 0 through 322).
pub const DASH_MIN_LEN: usize = 323;

/// Parsed Forza Horizon "Dash" packet: the fields the trigger controller
/// and the user interfaces read.
#[derive(Clone, Copy, Debug, PartialEq, Eq)]
pub struct Telemetry {
    pub on: bool,
    pub timestamp_ms: u32,
    /// Bit pattern of the `f32` maximum RPM.
    pub max_rpm_bits: u32,
    /// Bit pattern of the `f32` idle RPM.
    pub idle_rpm_bits: u32,
    /// Bit pattern of the `f32` current RPM.
    pub rpm_bits: u32,
    /// Bit patterns of the `f32` tire slip ratios: fl, fr, rl, rr.
    pub tire_slip_ratio_bits: [u32; 4],
    /// Bit patterns of the `f32` combined tire slips: fl, fr, rl, rr.
    pub tire_combined_slip_bits: [u32; 4],
    /// Bit pattern of the `f32` speed in metres per second.
    pub speed_ms_bits: u32,
    /// Bit pattern of the `f32` power in watts.
    pub power_w_bits: u32,
    /// Bit pattern of the `f32` torque in newton metres.
    pub torque_nm_bits: u32,
    pub gear: u8,
    pub accel: u8,
    pub brake: u8,
    pub clutch: u8,
    pub handbrake: u8,
    pub steer: i8,
}

/// The little-endian `u32` at byte offset `off`.
pub open spec fn le_u32_at(b: Seq<u8>, off: int) -> u32 {
    (b[off] as int + b[off + 1] as int * 256 + b[off + 2] as int * 65536 + b[off + 3] as int
        * 16777216) as u32
}

/// The telemetry a dash packet `b` describes, at the published offsets.
pub open spec fn decode_dash(b: Seq<u8>) -> Telemetry {
    Telemetry {
        on: le_u32_at(b, 0) != 0,
        timestamp_ms: le_u32_at(b, 4),
        max_rpm_bits: le_u32_at(b, 8),
        idle_rpm_bits: le_u32_at(b, 12),
        rpm_bits: le_u32_at(b, 16),
        tire_slip_ratio_bits: [
            le_u32_at(b, 84),
            le_u32_at(b, 88),
            le_u32_at(b, 92),
            le_u32_at(b, 96),
        ],
        tire_combined_slip_bits: [
            le_u32_at(b, 180),
            le_u32_at(b, 184),
            le_u32_at(b, 188),
            le_u32_at(b, 192),
        ],
        speed_ms_bits: le_u32_at(b, 256),
        power_w_bits: le_u32_at(b, 260),
        torque_nm_bits: le_u32_at(b, 264),
        accel: b[315],
        brake: b[316],
        clutch: b[317],
        handbrake: b[318],
        gear: b[319],
        steer: b[320] as i8,
    }
}

/// The all-zero frame: race off, every field zero.
pub open spec fn zero_telemetry() -> Telemetry {
    Telemetry {
        on: false,
        timestamp_ms: 0,
        max_rpm_bits: 0,
        idle_rpm_bits: 0,
        rpm_bits: 0,
        tire_slip_ratio_bits: [0u32, 0u32, 0u32, 0u32],
        tire_combined_slip_bits: [0u32, 0u32, 0u32, 0u32],
        speed_ms_bits: 0,
        power_w_bits: 0,
        torque_nm_bits: 0,
        gear: 0,
        accel: 0,
        brake: 0,
        clutch: 0,
        handbrake: 0,
        steer: 0,
    }
}

fn u32_at(buf: &[u8], off: usize) -> (r: u32)
    requires
        off + 4 <= buf@.len(),
    ensures
        r == le_u32_at(buf@, off as int),
{
    buf[off] as u32 + buf[off + 1] as u32 * 256 + buf[off + 2] as u32 * 65536 + buf[off + 3] as u32
        * 16777216
}

impl Default for Telemetry {
    fn default() -> (t: Telemetry)
        ensures
            t == zero_telemetry(),
    {
        Telemetry {
            on: false,
            timestamp_ms: 0,
            max_rpm_bits: 0,
            idle_rpm_bits: 0,
            rpm_bits: 0,
            tire_slip_ratio_bits: [0, 0, 0, 0],
            tire_combined_slip_bits: [0, 0, 0, 0],
            speed_ms_bits: 0,
            power_w_bits: 0,
            torque_nm_bits: 0,
            gear: 0,
            accel: 0,
            brake: 0,
            clutch: 0,
            handbrake: 0,
            steer: 0,
        }
    }
}

impl Telemetry {
    /// Parse a Forza Horizon "Dash" 324-byte packet. Returns `None` if the
    /// packet is too short to contain the dash extension. Field offsets
    /// match the published Forza layout.
    pub fn parse(buf: &[u8]) -> (r: Option<Telemetry>)
        ensures
            buf@.len() < DASH_MIN_LEN ==> r is None,
            buf@.len() >= DASH_MIN_LEN ==> r == Some(decode_dash(buf@)),
    {
        // The dash format runs from offset 0 through 322 (inclusive); the
        // documented packet is 324 bytes but only 323 are needed.
        if buf.len() < DASH_MIN_LEN {
            return None;
        }
        let on = u32_at(buf, 0) != 0;
        let timestamp_ms = u32_at(buf, 4);
        let max_rpm_bits = u32_at(buf, 8);
        let idle_rpm_bits = u32_at(buf, 12);
        let rpm_bits = u32_at(buf, 16);
        // tire_slip_ratio fl,fr,rl,rr at offsets 84..100
        let tire_slip_ratio_bits = [u32_at(buf, 84), u32_at(buf, 88), u32_at(buf, 92), u32_at(buf, 96)];
        // tire_combined_slip fl,fr,rl,rr at offsets 180..196
        let tire_combined_slip_bits = [
            u32_at(buf, 180),
            u32_at(buf, 184),
            u32_at(buf, 188),
            u32_at(buf, 192),
        ];
        // Horizon-specific dash fields begin after the 12-byte gap at 232:
        // speed (m/s) at 256, power (W) at 260, torque (Nm) at 264.
        let speed_ms_bits = u32_at(buf, 256);
        let power_w_bits = u32_at(buf, 260);
        let torque_nm_bits = u32_at(buf, 264);
        // Single-byte controls at the tail (315..321).
        let accel = buf[315];
        let brake = buf[316];
        let clutch = buf[317];
        let handbrake = buf[318];
        let gear = buf[319];
        let steer = buf[320] as i8;
        Some(
            Telemetry {
                on,
                timestamp_ms,
                max_rpm_bits,
                idle_rpm_bits,
                rpm_bits,
                tire_slip_ratio_bits,
                tire_combined_slip_bits,
                speed_ms_bits,
                power_w_bits,
                torque_nm_bits,
                gear,
                accel,
                brake,
                clutch,
                handbrake,
                steer,
            },
        )
    }

    /// Fold one received datagram into the freshest parseable frame: a
    /// datagram that parses replaces `latest`, a malformed one leaves it.
    pub fn keep_latest(latest: Option<Telemetry>, datagram: &[u8]) -> (r: Option<Telemetry>)
        ensures
            datagram@.len() >= DASH_MIN_LEN ==> r == Some(decode_dash(datagram@)),
            datagram@.len() < DASH_MIN_LEN ==> r == latest,
    {
        match Telemetry::parse(datagram) {
            Some(t) => Some(t),
            None => latest,
        }
    }
}

} // verus!
