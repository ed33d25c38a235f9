//! Text the user interface shows for the gear and the trigger effects.

use vstd::prelude::*;

use crate::triggers::Effect;

verus! {

/// The decimal digit character for `d` (0..=9).
pub open spec fn digit_char(d: int) -> char {
    (48 + d) as char
}

/// Decimal notation of `n`, without leading zeros.
pub open spec fn decimal(n: nat) -> Seq<char>
    decreases n,
{
    if n < 10 {
        seq![digit_char(n as int)]
    } else {
        decimal(n / 10).push(digit_char((n % 10) as int))
    }
}

/// Decimal notation of a byte.
pub fn decimal_string(n: u8) -> (r: String)
    ensures
        r@ == decimal(n as nat),
{
    let mut out = String::new();
    if n >= 100 {
        out.push(((n / 100) + 48) as char);
    }
    if n >= 10 {
        out.push((((n / 10) % 10) + 48) as char);
    }
    out.push(((n % 10) + 48) as char);
    proof {
        let m = n as nat;
        if m >= 100 {
            assert(decimal(m / 100) == seq![digit_char((m / 100) as int)]);
            assert((m / 10) / 10 == m / 100);
            assert(decimal(m / 10) == decimal((m / 10) / 10).push(digit_char(((m / 10) % 10) as int)));
        } else if m >= 10 {
            assert(decimal(m / 10) == seq![digit_char((m / 10) as int)]);
        }
        assert(out@ =~= decimal(m));
    }
    out
}

/// The gear's label: `N` for neutral, otherwise its number.
pub open spec fn gear_text(g: u8) -> Seq<char> {
    if g == 0 {
        seq!['N']
    } else {
        decimal(g as nat)
    }
}

pub fn gear_label(g: u8) -> (r: String)
    ensures
        r@ == gear_text(g),
{
    if g == 0 {
        let mut s = String::new();
        s.push('N');
        assert(s@ =~= seq!['N']);
        s
    } else {
        decimal_string(g)
    }
}

/// The mode name and detail line shown for an effect.
pub open spec fn effect_text(e: Effect) -> (Seq<char>, Seq<char>) {
    match e {
        Effect::Off => ("OFF"@, Seq::empty()),
        Effect::Rigid { force } => ("RIGID"@, "force "@ + decimal(force as nat)),
        Effect::Vibration { freq, amp } => (
            "VIBRATION"@,
            decimal(freq as nat) + " Hz · amp "@ + decimal(amp as nat),
        ),
        Effect::VibrationWall { freq, amp_strength, wall_zones } => (
            "WALL PULSE"@,
            decimal(freq as nat) + " Hz · amp "@ + decimal(amp_strength as nat) + " · zones "@
                + decimal(wall_zones as nat),
        ),
        Effect::Feedback { .. } => ("WALL"@, Seq::empty()),
    }
}

/// Describe an effect for the trigger cards: mode name and detail line.
pub fn describe_effect(eff: &Effect) -> (r: (String, String))
    ensures
        r.0@ == effect_text(*eff).0,
        r.1@ == effect_text(*eff).1,
{
    match *eff {
        Effect::Off => (String::from_str("OFF"), String::new()),
        Effect::Rigid { force } => {
            let mut d = String::from_str("force ");
            d.append(decimal_string(force).as_str());
            (String::from_str("RIGID"), d)
        },
        Effect::Vibration { freq, amp } => {
            let mut d = decimal_string(freq);
            d.append(" Hz · amp ");
            d.append(decimal_string(amp).as_str());
            (String::from_str("VIBRATION"), d)
        },
        Effect::VibrationWall { freq, amp_strength, wall_zones } => {
            let mut d = decimal_string(freq);
            d.append(" Hz · amp ");
            d.append(decimal_string(amp_strength).as_str());
            d.append(" · zones ");
            d.append(decimal_string(wall_zones).as_str());
            (String::from_str("WALL PULSE"), d)
        },
        Effect::Feedback { .. } => (String::from_str("WALL"), String::new()),
    }
}

} // verus!
