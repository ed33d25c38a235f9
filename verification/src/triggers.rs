//! DualSense adaptive trigger effect primitives.
//!
//! Each `Effect` serializes to exactly 11 bytes: a 1-byte mode followed
//! by 10 parameter bytes. That block lives at the per-trigger offset
//! inside the output HID report. Mode bytes match the values the
//! controller firmware accepts.

use vstd::arithmetic::div_mod::{
    lemma_fundamental_div_mod_converse_div,
    lemma_hoist_over_denominator,
    lemma_mod_multiples_vanish,
    lemma_small_mod,
};
use vstd::arithmetic::power::{lemma_pow_adds, lemma_pow_increases, lemma_pow_positive, pow};
use vstd::prelude::*;

verus! {

pub const M_OFF: u8 = 0x05;

pub const M_RIGID: u8 = 0x01;

pub const M_PULSE: u8 = 0x06;

/// MultiplePositionFeedback.
pub const M_FEEDBACK: u8 = 0x21;

/// Pulse_AB.
pub const M_PULSE_AB: u8 = 0x26;

pub const RAW_MAX: u8 = 255;

#[derive(Clone, Copy, Debug, PartialEq, Eq)]
pub enum Effect {
    Off,
    Rigid { force: u8 },
    Vibration { freq: u8, amp: u8 },
    VibrationWall { freq: u8, amp_strength: u8, wall_zones: u8 },
    Feedback { zones: [u8; 10] },
}

/// `v` clamped into `lo..=hi`.
pub open spec fn clamp_int(v: int, lo: int, hi: int) -> int {
    if v < lo {
        lo
    } else if v > hi {
        hi
    } else {
        v
    }
}

/// Saturate an `i32` into the byte range.
pub fn clamp_u8(v: i32) -> (r: u8)
    ensures
        r == clamp_int(v as int, 0, 255),
{
    if v < 0 {
        0
    } else if v > 255 {
        255
    } else {
        v as u8
    }
}


/// The strength a zone byte encodes: 0 leaves the zone inactive,
/// anything above 8 counts as 8.
pub open spec fn zone_level(z: u8) -> int {
    clamp_int(z as int, 0, 8)
}

/// `digit(0) + digit(1)·base + … + digit(n-1)·base^(n-1)`.
pub open spec fn place_sum(digit: spec_fn(int) -> int, base: int, n: nat) -> int
    decreases n,
{
    if n == 0 {
        0
    } else {
        place_sum(digit, base, (n - 1) as nat) + digit(n - 1) * pow(base, (n - 1) as nat)
    }
}

/// 1 for an active zone, 0 for an inactive one.
pub open spec fn active_digit(z: Seq<u8>) -> spec_fn(int) -> int {
    |j: int| if z[j] > 0 { 1int } else { 0int }
}

/// `level - 1` for an active zone, 0 for an inactive one.
pub open spec fn strength_digit(z: Seq<u8>) -> spec_fn(int) -> int {
    |j: int| if z[j] > 0 { zone_level(z[j]) - 1 } else { 0int }
}

/// Bit `j` set for each active zone `j` among the first `n`.
pub open spec fn active_mask(z: Seq<u8>, n: nat) -> int {
    place_sum(active_digit(z), 2, n)
}

/// Three bits per zone among the first `n`, holding `level - 1` for each
/// active zone.
pub open spec fn strength_word(z: Seq<u8>, n: nat) -> int {
    place_sum(strength_digit(z), 8, n)
}

/// Largest byte of a sequence, 0 when empty.
pub open spec fn seq_max(z: Seq<u8>) -> u8
    decreases z.len(),
{
    if z.len() == 0 {
        0
    } else {
        let m = seq_max(z.drop_last());
        if z.last() > m {
            z.last()
        } else {
            m
        }
    }
}

/// The smaller of a zone strength and the strongest level, 8.
pub open spec fn capped_level(v: u8) -> u8 {
    if v < 8 { v } else { 8 }
}

/// The coarse 0..=1 magnitude of an effect, as numerator and denominator:
/// force or amplitude out of 255, a zone strength out of 8 (stronger
/// bytes count as the strongest level).
pub open spec fn display_fraction(e: Effect) -> (u8, u8) {
    match e {
        Effect::Off => (0, 1),
        Effect::Rigid { force } => (force, 255),
        Effect::Vibration { amp, .. } => (amp, 255),
        Effect::VibrationWall { amp_strength, .. } => (capped_level(amp_strength), 8),
        Effect::Feedback { zones } => (capped_level(seq_max(zones@)), 8),
    }
}

/// A place-value sum of base digits stays below `base^n`.
pub proof fn lemma_place_sum_bound(digit: spec_fn(int) -> int, base: int, n: nat)
    requires
        base > 1,
        forall|j: int| 0 <= j < n ==> 0 <= #[trigger] digit(j) < base,
    ensures
        0 <= place_sum(digit, base, n) < pow(base, n),
    decreases n,
{
    reveal(pow);
    if n > 0 {
        let m = (n - 1) as nat;
        lemma_place_sum_bound(digit, base, m);
        lemma_pow_positive(base, m);
        let p = pow(base, m);
        let d = digit(m as int);
        assert(0 <= d * p <= (base - 1) * p) by (nonlinear_arith)
            requires
                0 <= d < base,
                p > 0,
        ;
        assert((base - 1) * p + p == base * p) by (nonlinear_arith);
        assert(pow(base, n) == base * p);
    }
}

/// Digit `i` of a place-value sum of base digits reads back as `digit(i)`.
pub proof fn lemma_place_sum_digit(digit: spec_fn(int) -> int, base: int, n: nat, i: nat)
    requires
        base > 1,
        forall|j: int| 0 <= j < n ==> 0 <= #[trigger] digit(j) < base,
        i < n,
    ensures
        (place_sum(digit, base, n) / pow(base, i)) % base == digit(i as int),
    decreases n,
{
    let m = (n - 1) as nat;
    let rest = place_sum(digit, base, m);
    let d = digit(m as int);
    let p = pow(base, m);
    lemma_place_sum_bound(digit, base, m);
    lemma_pow_positive(base, m);
    assert(place_sum(digit, base, n) == rest + d * p);
    if i == m {
        lemma_fundamental_div_mod_converse_div(place_sum(digit, base, n), p, d, rest);
        lemma_small_mod(d as nat, base as nat);
    } else {
        lemma_place_sum_digit(digit, base, m, i);
        let q = pow(base, i);
        let k = pow(base, (m - i) as nat);
        let k1 = pow(base, (m - i - 1) as nat);
        lemma_pow_adds(base, i, (m - i) as nat);
        assert(p == q * k);
        lemma_pow_positive(base, i);
        reveal(pow);
        assert(k == base * k1);
        assert(d * p == (d * k) * q) by (nonlinear_arith)
            requires
                p == q * k,
        ;
        lemma_hoist_over_denominator(rest, d * k, q as nat);
        assert(d * k == base * (d * k1)) by (nonlinear_arith)
            requires
                k == base * k1,
        ;
        lemma_mod_multiples_vanish(d * k1, rest / q, base);
    }
}

/// Zone `i` can be read back from the encoded words: bit `i` of the
/// active mask tells whether it is active, and 3-bit group `i` of the
/// strength word holds its level minus one.
pub proof fn lemma_encoded_zone_reads_back(z: Seq<u8>, i: nat)
    requires
        z.len() == 10,
        i < 10,
    ensures
        (active_mask(z, 10) / pow(2, i)) % 2 == (if z[i as int] > 0 { 1int } else { 0int }),
        (strength_word(z, 10) / pow(8, i)) % 8 == (if z[i as int] > 0 {
            zone_level(z[i as int]) - 1
        } else {
            0int
        }),
{
    assert forall|j: int| 0 <= j < 10 implies 0 <= #[trigger] active_digit(z)(j) < 2 by {}
    assert forall|j: int| 0 <= j < 10 implies 0 <= #[trigger] strength_digit(z)(j) < 8 by {}
    lemma_place_sum_digit(active_digit(z), 2, 10, i);
    lemma_place_sum_digit(strength_digit(z), 8, 10, i);
}

/// Four little-endian bytes put back together give the 32-bit value.
proof fn lemma_le32_joins(x: u32)
    ensures
        (x % 256) + 256 * ((x / 256) % 256) + 65536 * ((x / 65536) % 256) + 16777216 * ((x
            / 16777216) % 256) == x,
{
    assert((x % 256) + 256 * ((x / 256) % 256) + 65536 * ((x / 65536) % 256) + 16777216 * ((x
        / 16777216) % 256) == x) by (bit_vector);
}

/// Two little-endian bytes put back together give the 16-bit value.
proof fn lemma_le16_joins(x: u16)
    ensures
        (x % 256) + 256 * ((x / 256) % 256) == x,
{
    assert((x % 256) + 256 * ((x / 256) % 256) == x) by (bit_vector);
}

/// Pulse-with-wall encoding: the mode byte is Pulse_AB; read back from the
/// parameter bytes, every one of the ten zones is active, 3-bit group `i`
/// of the little-endian strength word is 7 (strength 8) for the top
/// `clamp(wall_zones, 1, 9)` zones and `clamp(amp_strength, 1, 8) - 1`
/// below them; the frequency follows, then three zero bytes.
pub proof fn lemma_vibration_wall_bytes(freq: u8, amp_strength: u8, wall_zones: u8, i: nat)
    requires
        i < 10,
    ensures
        ({
            let e = Effect::VibrationWall { freq, amp_strength, wall_zones };
            let b = param_bytes(e);
            let active = b[0] + 256 * b[1];
            let word = b[2] + 256 * b[3] + 65536 * b[4] + 16777216 * b[5];
            &&& mode_byte(e) == 0x26
            &&& b.len() == 10
            &&& (active / pow(2, i)) % 2 == 1
            &&& (word / pow(8, i)) % 8 == (if i >= 10 - clamp_int(wall_zones as int, 1, 9) {
                7
            } else {
                clamp_int(amp_strength as int, 1, 8) - 1
            })
            &&& b[6] == freq
            &&& b[7] == 0 && b[8] == 0 && b[9] == 0
        }),
{
    let z = wall_pulse_zones(amp_strength, wall_zones);
    let am = active_mask(z, 10);
    let sw = strength_word(z, 10);
    assert forall|j: int| 0 <= j < 10 implies 0 <= #[trigger] active_digit(z)(j) < 2 by {}
    assert forall|j: int| 0 <= j < 10 implies 0 <= #[trigger] strength_digit(z)(j) < 8 by {}
    lemma_place_sum_bound(active_digit(z), 2, 10);
    lemma_place_sum_bound(strength_digit(z), 8, 10);
    reveal_with_fuel(pow, 11);
    assert(pow(2, 10) == 1024);
    assert(pow(8, 10) == 1073741824);
    lemma_le32_joins(sw as u32);
    lemma_le16_joins(am as u16);
    lemma_encoded_zone_reads_back(z, i);
    let b = param_bytes(Effect::VibrationWall { freq, amp_strength, wall_zones });
    assert(b == zone_params(z, freq));
    assert(b[0] == am % 256);
    assert(b[1] == (am / 256) % 256);
    assert(b[2] == sw % 256);
    assert(b[3] == (sw / 256) % 256);
    assert(b[4] == (sw / 65536) % 256);
    assert(b[5] == (sw / 16777216) % 256);
}

/// Static wall and multi-zone feedback encoding: the mode byte is
/// MultiplePositionFeedback; read back from the parameter bytes, zone `i`
/// is active exactly when its byte is positive, and then 3-bit group `i`
/// of the little-endian strength word holds its strength (capped at 8)
/// minus one; the last four bytes are zero.
pub proof fn lemma_feedback_bytes(zones: [u8; 10], i: nat)
    requires
        i < 10,
    ensures
        ({
            let e = Effect::Feedback { zones };
            let b = param_bytes(e);
            let active = b[0] + 256 * b[1];
            let word = b[2] + 256 * b[3] + 65536 * b[4] + 16777216 * b[5];
            let zi = zones@[i as int];
            &&& mode_byte(e) == 0x21
            &&& b.len() == 10
            &&& (active / pow(2, i)) % 2 == (if zi > 0 { 1int } else { 0int })
            &&& (word / pow(8, i)) % 8 == (if zi == 0 {
                0
            } else if zi >= 8 {
                7
            } else {
                zi - 1
            })
            &&& b[6] == 0 && b[7] == 0 && b[8] == 0 && b[9] == 0
        }),
{
    let z = zones@;
    let am = active_mask(z, 10);
    let sw = strength_word(z, 10);
    assert forall|j: int| 0 <= j < 10 implies 0 <= #[trigger] active_digit(z)(j) < 2 by {}
    assert forall|j: int| 0 <= j < 10 implies 0 <= #[trigger] strength_digit(z)(j) < 8 by {}
    lemma_place_sum_bound(active_digit(z), 2, 10);
    lemma_place_sum_bound(strength_digit(z), 8, 10);
    reveal_with_fuel(pow, 11);
    assert(pow(2, 10) == 1024);
    assert(pow(8, 10) == 1073741824);
    lemma_le32_joins(sw as u32);
    lemma_le16_joins(am as u16);
    lemma_encoded_zone_reads_back(z, i);
    let b = param_bytes(Effect::Feedback { zones });
    assert(b == zone_params(z, 0));
    assert(b[0] == am % 256);
    assert(b[1] == (am / 256) % 256);
    assert(b[2] == sw % 256);
    assert(b[3] == (sw / 256) % 256);
    assert(b[4] == (sw / 65536) % 256);
    assert(b[5] == (sw / 16777216) % 256);
}

/// The static wall `build_wall(n)` builds: exactly the top
/// `clamp(n, 1, 9)` zones are set, each at the strongest level 8.
pub proof fn lemma_wall_zones(n: u8, i: int)
    requires
        0 <= i < 10,
    ensures
        spec_wall(n) matches Effect::Feedback { zones } && zones@[i] == (if i >= 10 - clamp_int(
            n as int,
            1,
            9,
        ) {
            8u8
        } else {
            0u8
        }),
{
}

/// Little-endian bytes of a 16-bit value.
pub open spec fn le16(x: int) -> Seq<u8> {
    seq![(x % 256) as u8, ((x / 256) % 256) as u8]
}

/// Little-endian bytes of a 32-bit value.
pub open spec fn le32(x: int) -> Seq<u8> {
    seq![
        (x % 256) as u8,
        ((x / 256) % 256) as u8,
        ((x / 65536) % 256) as u8,
        ((x / 16777216) % 256) as u8,
    ]
}

/// The ten parameter bytes of a zone-encoded effect: the active mask
/// (2 bytes), the strength word (4 bytes), then `tail` and three zeros.
pub open spec fn zone_params(z: Seq<u8>, tail: u8) -> Seq<u8> {
    le16(active_mask(z, 10)) + le32(strength_word(z, 10)) + seq![tail, 0u8, 0u8, 0u8]
}

/// Zones of the pulse-with-wall effect: the lower `10 - w` zones at
/// strength `a`, the top `w` zones at 8, where `a` and `w` are the
/// clamped strength and wall width.
pub open spec fn wall_pulse_zones(amp_strength: u8, wall_zones: u8) -> Seq<u8> {
    let a = clamp_int(amp_strength as int, 1, 8);
    let w = clamp_int(wall_zones as int, 1, 9);
    Seq::new(10, |i: int| if i < 10 - w { a as u8 } else { 8u8 })
}

/// Zones of the static firmware wall: the top `n` zones (1..=9) at 8.
pub open spec fn wall_zones_seq(zones: u8) -> Seq<u8> {
    let n = clamp_int(zones as int, 1, 9);
    Seq::new(10, |i: int| if i >= 10 - n { 8u8 } else { 0u8 })
}

/// The pulse-with-wall effect `vibration_wall` builds.
pub open spec fn spec_vibration_wall(amp_byte: u8, freq: u8, wall_zones: u8) -> Effect {
    Effect::VibrationWall {
        freq,
        amp_strength: (amp_byte / 32 + 1) as u8,
        wall_zones: clamp_int(wall_zones as int, 1, 9) as u8,
    }
}

/// Zone `i` of the static wall `n` zones wide.
pub open spec fn wall_zone(n: int, i: int) -> u8 {
    if i >= 10 - n { 8u8 } else { 0u8 }
}

/// The static firmware wall effect `build_wall` builds.
pub open spec fn spec_wall(zones: u8) -> Effect {
    let n = clamp_int(zones as int, 1, 9);
    Effect::Feedback {
        zones: [
            wall_zone(n, 0),
            wall_zone(n, 1),
            wall_zone(n, 2),
            wall_zone(n, 3),
            wall_zone(n, 4),
            wall_zone(n, 5),
            wall_zone(n, 6),
            wall_zone(n, 7),
            wall_zone(n, 8),
            wall_zone(n, 9),
        ],
    }
}

/// The mode byte the firmware expects for an effect.
pub open spec fn mode_byte(e: Effect) -> u8 {
    match e {
        Effect::Off => M_OFF,
        Effect::Rigid { .. } => M_RIGID,
        Effect::Vibration { .. } => M_PULSE,
        Effect::VibrationWall { .. } => M_PULSE_AB,
        Effect::Feedback { .. } => M_FEEDBACK,
    }
}

/// The ten parameter bytes that follow the mode byte.
pub open spec fn param_bytes(e: Effect) -> Seq<u8> {
    match e {
        Effect::Off => Seq::new(10, |i: int| 0u8),
        Effect::Rigid { force } => seq![0u8, force, 0u8, 0u8, 0u8, 0u8, 0u8, 0u8, 0u8, 0u8],
        Effect::Vibration { freq, amp } => seq![freq, amp, 0u8, 0u8, 0u8, 0u8, 0u8, 0u8, 0u8, 0u8],
        Effect::VibrationWall { freq, amp_strength, wall_zones } => zone_params(
            wall_pulse_zones(amp_strength, wall_zones),
            freq,
        ),
        Effect::Feedback { zones } => zone_params(zones@, 0),
    }
}

/// 10 zones, 1 bit each in `active`, 3 bits each in `strength`.
/// A zone strength of 0 leaves the zone inactive; otherwise the encoded
/// strength is `(s - 1)` so strengths 1..=8 fit in 3 bits.
pub fn encode_zones(zones: &[u8; 10]) -> (r: (u16, u32))
    ensures
        r.0 == active_mask(zones@, 10),
        r.1 == strength_word(zones@, 10),
{
    let mut active: u16 = 0;
    let mut strength: u32 = 0;
    let mut bit: u16 = 1;
    let mut place: u32 = 1;
    let mut i: usize = 0;
    proof {
        reveal(pow);
    }
    while i < 10
        invariant
            i <= 10,
            i < 10 ==> bit == pow(2, i as nat),
            i < 10 ==> place == pow(8, i as nat),
            active == active_mask(zones@, i as nat),
            0 <= active_mask(zones@, i as nat) < pow(2, i as nat),
            strength == strength_word(zones@, i as nat),
            0 <= strength_word(zones@, i as nat) < pow(8, i as nat),
        decreases 10 - i,
    {
        let z = zones[i];
        let s: u32 = if z > 8 {
            8
        } else {
            z as u32
        };
        proof {
            reveal(pow);
            assert(pow(2, (i + 1) as nat) == 2 * pow(2, i as nat));
            assert(pow(8, (i + 1) as nat) == 8 * pow(8, i as nat));
            lemma_pow_increases(2, i as nat, 9);
            lemma_pow_increases(8, i as nat, 9);
            reveal_with_fuel(pow, 10);
            assert(pow(2, 9) == 512);
            assert(pow(8, 9) == 134217728);
            assert(active_mask(zones@, (i + 1) as nat) == active_mask(zones@, i as nat)
                + active_digit(zones@)(i as int) * pow(2, i as nat));
            assert(strength_word(zones@, (i + 1) as nat) == strength_word(zones@, i as nat)
                + strength_digit(zones@)(i as int) * pow(8, i as nat));
            assert(s == zone_level(z));
        }
        if s > 0 {
            assert((s - 1) * place <= 7 * place) by (nonlinear_arith)
                requires
                    s <= 8,
                    s >= 1,
            ;
            active = active + bit;
            strength = strength + (s - 1) * place;
        }
        if i < 9 {
            bit = bit * 2;
            place = place * 8;
        }
        i = i + 1;
    }
    (active, strength)
}

/// Pack zone strengths into the ten parameter bytes: the active mask
/// (little endian), the strength word (little endian), then `tail`.
fn zone_param_bytes(zones: &[u8; 10], tail: u8) -> (r: [u8; 10])
    ensures
        r@ == zone_params(zones@, tail),
{
    let (active, strength) = encode_zones(zones);
    let out = [
        (active % 256) as u8,
        ((active / 256) % 256) as u8,
        (strength % 256) as u8,
        ((strength / 256) % 256) as u8,
        ((strength / 65536) % 256) as u8,
        ((strength / 16777216) % 256) as u8,
        tail,
        0,
        0,
        0,
    ];
    assert(out@ =~= zone_params(zones@, tail));
    out
}

impl Effect {
    /// A rigid effect at `level`, saturated into the byte range.
    pub fn rigid_level(level: i32) -> (e: Effect)
        ensures
            e == (Effect::Rigid { force: clamp_int(level as int, 0, 255) as u8 }),
    {
        Effect::Rigid { force: clamp_u8(level) }
    }

    pub fn vibration(freq: u8, amp: u8) -> (e: Effect)
        ensures
            e == (Effect::Vibration { freq, amp }),
    {
        Effect::Vibration { freq, amp }
    }

    /// `amp_byte` is the 0..=255 amplitude as configured; it collapses
    /// to a 1..=8 strength bucket for Pulse_AB.
    pub fn vibration_wall(amp_byte: u8, freq: u8, wall_zones: u8) -> (e: Effect)
        ensures
            e == spec_vibration_wall(amp_byte, freq, wall_zones),
    {
        let s = amp_byte / 32 + 1;
        let w = if wall_zones < 1 {
            1
        } else if wall_zones > 9 {
            9
        } else {
            wall_zones
        };
        Effect::VibrationWall { freq, amp_strength: s, wall_zones: w }
    }

    /// Static firmware wall: the top `zones` zones (clamped to 1..=9)
    /// maxed at strength 8.
    pub fn build_wall(zones: u8) -> (e: Effect)
        ensures
            e == spec_wall(zones),
            e matches Effect::Feedback { zones: z } && z@ == wall_zones_seq(zones),
    {
        let n: usize = if zones < 1 {
            1
        } else if zones > 9 {
            9
        } else {
            zones as usize
        };
        let mut z = [0u8; 10];
        let mut k: usize = 0;
        while k < 10
            invariant
                k <= 10,
                1 <= n <= 9,
                n == clamp_int(zones as int, 1, 9),
                forall|j: int| 0 <= j < k ==> z@[j] == (if j >= 10 - n { 8u8 } else { 0u8 }),
            decreases 10 - k,
        {
            z[k] = if k >= 10 - n {
                8
            } else {
                0
            };
            k = k + 1;
        }
        assert(z@ =~= wall_zones_seq(zones));
        proof {
            let w = spec_wall(zones);
            if let Effect::Feedback { zones: wz } = w {
                assert(wz@ =~= z@);
                assert(wz == z);
            }
        }
        Effect::Feedback { zones: z }
    }

    /// Coarse 0..=1 magnitude for visualisation, as `(numerator,
    /// denominator)`; the quotient is what the user interface shows. Not
    /// used by the HID path.
    pub fn display_force_parts(&self) -> (r: (u8, u8))
        ensures
            r == display_fraction(*self),
            0 < r.1,
            r.0 <= r.1,
    {
        match *self {
            Effect::Off => (0, 1),
            Effect::Rigid { force } => (force, 255),
            Effect::Vibration { amp, .. } => (amp, 255),
            Effect::VibrationWall { amp_strength, .. } => {
                let level = if amp_strength < 8 {
                    amp_strength
                } else {
                    8
                };
                (level, 8)
            },
            Effect::Feedback { zones } => {
                let mut max: u8 = 0;
                let mut k: usize = 0;
                while k < 10
                    invariant
                        k <= 10,
                        max == seq_max(zones@.take(k as int)),
                    decreases 10 - k,
                {
                    assert(zones@.take(k + 1).drop_last() =~= zones@.take(k as int));
                    if zones[k] > max {
                        max = zones[k];
                    }
                    k = k + 1;
                }
                assert(zones@.take(10) =~= zones@);
                let level = if max < 8 {
                    max
                } else {
                    8
                };
                (level, 8)
            },
        }
    }

    /// Serialize to (mode, 10 parameter bytes).
    pub fn to_hid_bytes(&self) -> (r: (u8, [u8; 10]))
        ensures
            r.0 == mode_byte(*self),
            r.1@ == param_bytes(*self),
    {
        match *self {
            Effect::Off => {
                let out = [0u8; 10];
                assert(out@ =~= param_bytes(*self));
                (M_OFF, out)
            },
            Effect::Rigid { force } => {
                let out = [0u8, force, 0, 0, 0, 0, 0, 0, 0, 0];
                assert(out@ =~= param_bytes(*self));
                (M_RIGID, out)
            },
            Effect::Vibration { freq, amp } => {
                let out = [freq, amp, 0, 0, 0, 0, 0, 0, 0, 0];
                assert(out@ =~= param_bytes(*self));
                (M_PULSE, out)
            },
            Effect::VibrationWall { freq, amp_strength, wall_zones } => {
                let a: u8 = if amp_strength < 1 {
                    1
                } else if amp_strength > 8 {
                    8
                } else {
                    amp_strength
                };
                let w: usize = if wall_zones < 1 {
                    1
                } else if wall_zones > 9 {
                    9
                } else {
                    wall_zones as usize
                };
                // Lower (10 - w) zones at strength `a`, top w zones at 8.
                let mut zones = [0u8; 10];
                let mut k: usize = 0;
                while k < 10
                    invariant
                        k <= 10,
                        1 <= w <= 9,
                        w == clamp_int(wall_zones as int, 1, 9),
                        a == clamp_int(amp_strength as int, 1, 8),
                        forall|j: int| 0 <= j < k ==> zones@[j] == (if j < 10 - w { a } else { 8u8 }),
                    decreases 10 - k,
                {
                    zones[k] = if k < 10 - w {
                        a
                    } else {
                        8
                    };
                    k = k + 1;
                }
                assert(zones@ =~= wall_pulse_zones(amp_strength, wall_zones));
                (M_PULSE_AB, zone_param_bytes(&zones, freq))
            },
            Effect::Feedback { zones } => (M_FEEDBACK, zone_param_bytes(&zones, 0)),
        }
    }
}

} // verus!
