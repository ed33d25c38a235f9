//! DualSense HID reports.
//!
//! Layout matches Sony's public DualSense report format. Only the trigger
//! bits of the valid-flag byte are set, so Steam Input keeps owning the
//! rumble motors unless rumble is asked for.

use vstd::prelude::*;

use crate::triggers::{le32, mode_byte, param_bytes, Effect};

verus! {

pub const VID_SONY: u16 = 0x054C;

pub const PID_DUALSENSE: u16 = 0x0CE6;

pub const PID_DUALSENSE_EDGE: u16 = 0x0DF2;

/// Bit 2 = R trigger effect, bit 3 = L trigger effect. Leaving bits 0/1
/// cleared keeps Steam's rumble bytes untouched.
pub const FLAGS_TRIGGERS_ONLY: u8 = 0x0C;

/// Bit 0 = enable compat rumble (motor bytes), bit 1 = "use rumble not
/// haptics": together they make the rumble bytes authoritative.
pub const FLAGS_RUMBLE: u8 = 0x03;

/// The byte that precedes a Bluetooth output report in its CRC.
pub const BT_CRC_SEED: u8 = 0xA2;

/// Offset of the little-endian CRC32 in a Bluetooth output report.
pub const BT_CRC_OFFSET: usize = 74;

#[derive(Clone, Copy, Debug, PartialEq, Eq, Structural)]
pub enum Transport {
    Usb,
    Bluetooth,
}

impl Transport {
    #[verifier::allow_in_spec]
    pub fn report_size(self) -> usize
        returns
            (match self {
                Transport::Usb => 64usize,
                Transport::Bluetooth => 78usize,
            }),
    {
        match self {
            Transport::Usb => 64,
            Transport::Bluetooth => 78,
        }
    }

    #[verifier::allow_in_spec]
    pub fn report_id(self) -> u8
        returns
            (match self {
                Transport::Usb => 0x02u8,
                Transport::Bluetooth => 0x31u8,
            }),
    {
        match self {
            Transport::Usb => 0x02,
            Transport::Bluetooth => 0x31,
        }
    }

    /// Byte offset (inside the buffer handed to the device, which already
    /// includes a leading report-id byte) of the flags byte.
    #[verifier::allow_in_spec]
    pub fn flags_off(self) -> usize
        returns
            (match self {
                Transport::Usb => 1usize,
                Transport::Bluetooth => 2usize,
            }),
    {
        match self {
            // [report_id, flags, valid_flag1, ...]
            Transport::Usb => 1,
            // [report_id, seq, flags, valid_flag1, ...]
            Transport::Bluetooth => 2,
        }
    }

    #[verifier::allow_in_spec]
    pub fn right_trigger_off(self) -> usize
        returns
            (match self {
                Transport::Usb => 11usize,
                Transport::Bluetooth => 12usize,
            }),
    {
        match self {
            Transport::Usb => 11,
            Transport::Bluetooth => 12,
        }
    }

    #[verifier::allow_in_spec]
    pub fn left_trigger_off(self) -> usize
        returns
            (match self {
                Transport::Usb => 22usize,
                Transport::Bluetooth => 23usize,
            }),
    {
        match self {
            Transport::Usb => 22,
            Transport::Bluetooth => 23,
        }
    }

    /// `(right_motor, left_motor)` byte offsets: right is the
    /// high-frequency (light) motor, left the low-frequency (heavy) motor
    /// in the DualSense compat-rumble layout.
    #[verifier::allow_in_spec]
    pub fn rumble_off(self) -> (usize, usize)
        returns
            (match self {
                Transport::Usb => (3usize, 4usize),
                Transport::Bluetooth => (4usize, 5usize),
            }),
    {
        match self {
            Transport::Usb => (3, 4),
            Transport::Bluetooth => (4, 5),
        }
    }

    /// The transport's name on the wire format of the state snapshot.
    pub fn wire_name(self) -> (r: &'static str)
        ensures
            r@ == (match self {
                Transport::Usb => "usb"@,
                Transport::Bluetooth => "bluetooth"@,
            }),
    {
        match self {
            Transport::Usb => "usb",
            Transport::Bluetooth => "bluetooth",
        }
    }

    /// Guess the transport from the first input report read after
    /// opening the device: Bluetooth reports start with 0x31. An empty
    /// read (failed or 0 bytes) defaults to USB, by far the common case.
    pub fn from_probe(report: &[u8]) -> (t: Transport)
        ensures
            t == (if report@.len() > 0 && report@[0] == 0x31 {
                Transport::Bluetooth
            } else {
                Transport::Usb
            }),
    {
        if report.len() > 0 && report[0] == 0x31 {
            Transport::Bluetooth
        } else {
            Transport::Usb
        }
    }
}

/// Whether a HID interface with these ids is a DualSense (or Edge).
pub fn is_dualsense(vendor_id: u16, product_id: u16) -> (r: bool)
    ensures
        r == (vendor_id == VID_SONY && (product_id == PID_DUALSENSE || product_id
            == PID_DUALSENSE_EDGE)),
{
    vendor_id == VID_SONY && (product_id == PID_DUALSENSE || product_id == PID_DUALSENSE_EDGE)
}

/// The analog `(L2, R2)` press an input report carries, if it is one.
pub open spec fn input_press(t: Transport, report: Seq<u8>) -> Option<(u8, u8)> {
    match t {
        Transport::Usb => if report.len() >= 7 && report[0] == 0x01 {
            Some((report[5], report[6]))
        } else {
            None
        },
        Transport::Bluetooth => if report.len() >= 8 && report[0] == 0x31 {
            Some((report[6], report[7]))
        } else {
            None
        },
    }
}

/// Read the analog `(L2, R2)` press out of one HID input report.
///
/// Layouts:
///   USB report 0x01: byte 5 = L2, byte 6 = R2.
///   BT  report 0x31: same payload prefixed with `[id, seq]`, so
///                    byte 6 = L2, byte 7 = R2.
pub fn parse_input_report(t: Transport, report: &[u8]) -> (r: Option<(u8, u8)>)
    ensures
        r == input_press(t, report@),
{
    match t {
        Transport::Usb => if report.len() >= 7 && report[0] == 0x01 {
            Some((report[5], report[6]))
        } else {
            None
        },
        Transport::Bluetooth => if report.len() >= 8 && report[0] == 0x31 {
            Some((report[6], report[7]))
        } else {
            None
        },
    }
}

/// The press after draining `reports` in arrival order, starting from
/// `latest`: each report that carries a press replaces it, others leave it.
pub open spec fn drained_press(latest: Option<(u8, u8)>, t: Transport, reports: Seq<Seq<u8>>) -> Option<(u8, u8)>
    decreases reports.len(),
{
    if reports.len() == 0 {
        latest
    } else {
        match input_press(t, reports.last()) {
            Some(p) => Some(p),
            None => drained_press(latest, t, reports.drop_last()),
        }
    }
}

/// Fold one drained input report into the freshest press seen so far: a
/// report that parses wins, anything else keeps the earlier press.
pub fn freshest_press(latest: Option<(u8, u8)>, t: Transport, report: &[u8]) -> (r: Option<(u8, u8)>)
    ensures
        r == (match input_press(t, report@) {
            Some(p) => Some(p),
            None => latest,
        }),
        r == drained_press(latest, t, seq![report@]),
{
    assert(seq![report@].drop_last() =~= Seq::<Seq<u8>>::empty());
    assert(seq![report@].last() == report@);
    assert(drained_press(latest, t, Seq::<Seq<u8>>::empty()) == latest);
    match parse_input_report(t, report) {
        Some(p) => Some(p),
        None => latest,
    }
}

/// Draining is the freshest parseable report: the press after a queue of
/// reports is the one the last parseable report carries, or the earlier
/// press when none parses; and draining in two batches gives the same
/// press as draining them at once.
pub proof fn lemma_drain_freshest(latest: Option<(u8, u8)>, t: Transport, a: Seq<Seq<u8>>, b: Seq<Seq<u8>>)
    ensures
        drained_press(latest, t, a + b) == drained_press(drained_press(latest, t, a), t, b),
        (forall|i: int| 0 <= i < b.len() ==> input_press(t, #[trigger] b[i]) is None) ==> drained_press(
            latest,
            t,
            b,
        ) == latest,
    decreases b.len(),
{
    if b.len() == 0 {
        assert(a + b =~= a);
    } else {
        assert((a + b).drop_last() =~= a + b.drop_last());
        assert((a + b).last() == b.last());
        lemma_drain_freshest(latest, t, a, b.drop_last());
        if forall|i: int| 0 <= i < b.len() ==> input_press(t, #[trigger] b[i]) is None {
            assert(input_press(t, b[b.len() - 1]) is None);
            assert forall|i: int| 0 <= i < b.drop_last().len() implies input_press(
                t,
                #[trigger] b.drop_last()[i],
            ) is None by {
                assert(b.drop_last()[i] == b[i]);
            }
        }
    }
}

/// The 11-byte block of one trigger: mode byte, then ten parameters.
pub open spec fn trigger_block(e: Effect) -> Seq<u8> {
    seq![mode_byte(e)] + param_bytes(e)
}

/// Whether a report drives the rumble motors.
pub open spec fn drives_rumble(rumble_heavy: u8, rumble_light: u8) -> bool {
    rumble_heavy != 0 || rumble_light != 0
}

/// Byte `i` of an output report before any CRC: the report id, the
/// valid-flag byte, the motor bytes when rumble is driven, the two
/// trigger blocks, and zero everywhere else.
pub open spec fn frame_byte(
    t: Transport,
    l2: Effect,
    r2: Effect,
    rumble_heavy: u8,
    rumble_light: u8,
    i: int,
) -> u8 {
    let rumble = drives_rumble(rumble_heavy, rumble_light);
    let r_off = t.right_trigger_off() as int;
    let l_off = t.left_trigger_off() as int;
    if i == 0 {
        t.report_id()
    } else if i == t.flags_off() {
        if rumble {
            0x0Fu8
        } else {
            FLAGS_TRIGGERS_ONLY
        }
    } else if rumble && i == t.rumble_off().0 {
        rumble_light
    } else if rumble && i == t.rumble_off().1 {
        rumble_heavy
    } else if r_off <= i < r_off + 11 {
        trigger_block(r2)[i - r_off]
    } else if l_off <= i < l_off + 11 {
        trigger_block(l2)[i - l_off]
    } else {
        0u8
    }
}

/// An output report before any CRC, `report_size` bytes long.
pub open spec fn report_frame(
    t: Transport,
    l2: Effect,
    r2: Effect,
    rumble_heavy: u8,
    rumble_light: u8,
) -> Seq<u8> {
    Seq::new(
        t.report_size() as nat,
        |i: int| frame_byte(t, l2, r2, rumble_heavy, rumble_light, i),
    )
}

fn frame_byte_at(
    t: Transport,
    l2: (u8, [u8; 10]),
    r2: (u8, [u8; 10]),
    rumble_heavy: u8,
    rumble_light: u8,
    i: usize,
    Ghost(l2e): Ghost<Effect>,
    Ghost(r2e): Ghost<Effect>,
) -> (b: u8)
    requires
        l2.0 == mode_byte(l2e),
        l2.1@ == param_bytes(l2e),
        r2.0 == mode_byte(r2e),
        r2.1@ == param_bytes(r2e),
    ensures
        b == frame_byte(t, l2e, r2e, rumble_heavy, rumble_light, i as int),
{
    let rumble = rumble_heavy != 0 || rumble_light != 0;
    let r_off = t.right_trigger_off();
    let l_off = t.left_trigger_off();
    let (r_rumble, l_rumble) = t.rumble_off();
    if i == 0 {
        t.report_id()
    } else if i == t.flags_off() {
        let mut flags = FLAGS_TRIGGERS_ONLY;
        if rumble {
            assert(FLAGS_TRIGGERS_ONLY | FLAGS_RUMBLE == 0x0Fu8) by (bit_vector);
            flags = flags | FLAGS_RUMBLE;
        }
        flags
    } else if rumble && i == r_rumble {
        rumble_light
    } else if rumble && i == l_rumble {
        rumble_heavy
    } else if r_off <= i && i < r_off + 11 {
        if i == r_off {
            r2.0
        } else {
            r2.1[i - r_off - 1]
        }
    } else if l_off <= i && i < l_off + 11 {
        if i == l_off {
            l2.0
        } else {
            l2.1[i - l_off - 1]
        }
    } else {
        0
    }
}

/// Lay out an output report for the two trigger effects and the motor
/// intensities, without the Bluetooth CRC. `rumble_heavy` is the
/// low-frequency (left) motor, `rumble_light` the high-frequency (right)
/// one; `0, 0` leaves the motors to Steam Input.
pub fn build_report_frame(
    t: Transport,
    l2: &Effect,
    r2: &Effect,
    rumble_heavy: u8,
    rumble_light: u8,
) -> (r: Vec<u8>)
    ensures
        r@ == report_frame(t, *l2, *r2, rumble_heavy, rumble_light),
{
    let size = t.report_size();
    let lb = l2.to_hid_bytes();
    let rb = r2.to_hid_bytes();
    let mut buf: Vec<u8> = Vec::with_capacity(size);
    let mut i: usize = 0;
    while i < size
        invariant
            i <= size,
            size == t.report_size(),
            lb.0 == mode_byte(*l2),
            lb.1@ == param_bytes(*l2),
            rb.0 == mode_byte(*r2),
            rb.1@ == param_bytes(*r2),
            buf@.len() == i,
            forall|j: int|
                0 <= j < i ==> buf@[j] == frame_byte(t, *l2, *r2, rumble_heavy, rumble_light, j),
        decreases size - i,
    {
        let b = frame_byte_at(t, lb, rb, rumble_heavy, rumble_light, i, Ghost(*l2), Ghost(*r2));
        buf.push(b);
        i = i + 1;
    }
    assert(buf@ =~= report_frame(t, *l2, *r2, rumble_heavy, rumble_light));
    buf
}

/// One bit of the reflected CRC-32 shift register, IEEE polynomial
/// (`0xEDB88320` in reflected form).
pub open spec fn crc32_shift(c: u32) -> u32 {
    if (c & 1) == 1 {
        (c >> 1u32) ^ 0xEDB8_8320u32
    } else {
        c >> 1u32
    }
}

/// `n` bits of the shift register.
pub open spec fn crc32_shift_n(c: u32, n: nat) -> u32
    decreases n,
{
    if n == 0 {
        c
    } else {
        crc32_shift(crc32_shift_n(c, (n - 1) as nat))
    }
}

/// The register after `data`, starting from all ones: each byte is xored
/// into the low bits and shifted through eight times.
pub open spec fn crc32_register(data: Seq<u8>) -> u32
    decreases data.len(),
{
    if data.len() == 0 {
        0xFFFF_FFFFu32
    } else {
        crc32_shift_n(crc32_register(data.drop_last()) ^ (data.last() as u32), 8)
    }
}

/// The IEEE CRC-32 of `data` (the checksum of zlib, PNG and Ethernet):
/// the final register, inverted.
pub open spec fn crc32_ieee(data: Seq<u8>) -> u32 {
    !crc32_register(data)
}

/// `crc32fast::hash`: the IEEE CRC-32 checksum of `data`, whichever of
/// its table or vectorised paths computes it.
#[verifier::external_body]
fn crc32_hash(data: &[u8]) -> (crc: u32)
    ensures
        crc == crc32_ieee(data@),
{
    crc32fast::hash(data)
}

/// The bytes a Bluetooth report's CRC covers: the seed byte followed by
/// the first 74 bytes of the report.
pub open spec fn crc_input(frame: Seq<u8>) -> Seq<u8> {
    seq![BT_CRC_SEED] + frame.subrange(0, BT_CRC_OFFSET as int)
}

/// A Bluetooth frame with its CRC stored little endian at bytes 74..78.
pub open spec fn sealed(frame: Seq<u8>, crc: u32) -> Seq<u8> {
    frame.subrange(0, BT_CRC_OFFSET as int) + le32(crc as int)
}

/// The output report the device receives: the frame, and on Bluetooth
/// the CRC32 over `[0xA2] || frame[0..74]` in its last four bytes.
pub open spec fn output_report(
    t: Transport,
    l2: Effect,
    r2: Effect,
    rumble_heavy: u8,
    rumble_light: u8,
) -> Seq<u8> {
    let frame = report_frame(t, l2, r2, rumble_heavy, rumble_light);
    match t {
        Transport::Usb => frame,
        Transport::Bluetooth => sealed(frame, crc32_ieee(crc_input(frame))),
    }
}

/// The bytes a Bluetooth report's CRC is computed over.
pub fn bluetooth_crc_input(frame: &[u8]) -> (r: Vec<u8>)
    requires
        frame@.len() >= BT_CRC_OFFSET,
    ensures
        r@ == crc_input(frame@),
{
    let mut out: Vec<u8> = Vec::with_capacity(BT_CRC_OFFSET + 1);
    out.push(BT_CRC_SEED);
    let mut i: usize = 0;
    while i < BT_CRC_OFFSET
        invariant
            i <= BT_CRC_OFFSET,
            frame@.len() >= BT_CRC_OFFSET,
            out@ =~= seq![BT_CRC_SEED] + frame@.subrange(0, i as int),
        decreases BT_CRC_OFFSET - i,
    {
        out.push(frame[i]);
        i = i + 1;
    }
    out
}

/// Store `crc` little endian in bytes 74..78 of a 78-byte Bluetooth
/// report.
pub fn seal_bluetooth_report(report: &mut Vec<u8>, crc: u32)
    requires
        old(report)@.len() == 78,
    ensures
        final(report)@ == sealed(old(report)@, crc),
{
    report.set(74, (crc % 256) as u8);
    report.set(75, ((crc / 256) % 256) as u8);
    report.set(76, ((crc / 65536) % 256) as u8);
    report.set(77, ((crc / 16777216) % 256) as u8);
    assert(report@ =~= sealed(old(report)@, crc));
}

/// The complete output report for the two trigger effects and the motor
/// intensities, Bluetooth CRC included.
pub fn build_output_report(
    t: Transport,
    l2: &Effect,
    r2: &Effect,
    rumble_heavy: u8,
    rumble_light: u8,
) -> (r: Vec<u8>)
    ensures
        r@ == output_report(t, *l2, *r2, rumble_heavy, rumble_light),
{
    let mut buf = build_report_frame(t, l2, r2, rumble_heavy, rumble_light);
    match t {
        Transport::Usb => buf,
        Transport::Bluetooth => {
            // CRC32 over [0xA2] || buf[0..74], stored at bytes 74..78.
            let input = bluetooth_crc_input(&buf);
            let crc = crc32_hash(&input);
            seal_bluetooth_report(&mut buf, crc);
            buf
        },
    }
}

/// Layout of every output report: it is `report_size` bytes long, starts
/// with the report id, holds the right and left trigger blocks (mode byte
/// and ten parameters) at their transport offsets, and on Bluetooth ends
/// with the CRC32 of `[0xA2] || report[0..74]`, little endian.
pub proof fn lemma_output_report_layout(
    t: Transport,
    l2: Effect,
    r2: Effect,
    rumble_heavy: u8,
    rumble_light: u8,
)
    ensures
        ({
            let r = output_report(t, l2, r2, rumble_heavy, rumble_light);
            let r_off = t.right_trigger_off() as int;
            let l_off = t.left_trigger_off() as int;
            &&& r.len() == t.report_size()
            &&& trigger_block(l2).len() == 11 && trigger_block(r2).len() == 11
            &&& r[0] == t.report_id()
            &&& r.subrange(r_off, r_off + 11) == trigger_block(r2)
            &&& r.subrange(l_off, l_off + 11) == trigger_block(l2)
            &&& t == Transport::Bluetooth ==> r.subrange(74, 78) == le32(
                crc32_ieee(crc_input(r)) as int,
            )
        }),
{
    let frame = report_frame(t, l2, r2, rumble_heavy, rumble_light);
    let r = output_report(t, l2, r2, rumble_heavy, rumble_light);
    let r_off = t.right_trigger_off() as int;
    let l_off = t.left_trigger_off() as int;
    assert(trigger_block(r2).len() == 11);
    assert(trigger_block(l2).len() == 11);
    assert forall|i: int| 0 <= i < 74 implies r[i] == frame[i] by {}
    assert(r.subrange(r_off, r_off + 11) =~= trigger_block(r2));
    assert(r.subrange(l_off, l_off + 11) =~= trigger_block(l2));
    if t == Transport::Bluetooth {
        assert(crc_input(r) =~= crc_input(frame));
        assert(r.subrange(74, 78) =~= le32(crc32_ieee(crc_input(r)) as int));
    }
}

/// With both motor intensities zero, a report drives only the triggers:
/// the flag byte carries just the two trigger bits, the motor bytes stay
/// zero, and every byte other than the report id, the flag byte, the two
/// trigger blocks and the Bluetooth CRC is zero, so Steam Input keeps the
/// rumble motors.
pub proof fn lemma_quiet_report_leaves_rumble(t: Transport, l2: Effect, r2: Effect)
    ensures
        ({
            let r = output_report(t, l2, r2, 0, 0);
            let r_off = t.right_trigger_off() as int;
            let l_off = t.left_trigger_off() as int;
            let end = if t == Transport::Bluetooth {
                74int
            } else {
                r.len() as int
            };
            &&& r[t.flags_off() as int] == FLAGS_TRIGGERS_ONLY
            &&& r[t.rumble_off().0 as int] == 0
            &&& r[t.rumble_off().1 as int] == 0
            &&& forall|i: int|
                0 < i < end && i != t.flags_off() && !(r_off <= i < r_off + 11) && !(l_off <= i
                    < l_off + 11) ==> #[trigger] r[i] == 0
        }),
{
}

} // verus!
