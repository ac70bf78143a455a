//! The parameter store: the plugin's single host-visible control, a
//! normalized amplitude.
//!
//! The amplitude is kept in hundredths of full scale, the resolution of the
//! on-screen slider: an integer in `0 ..= 100`, default `50` (half scale).
//! Writes above full scale are clamped to `100`; that is the one
//! out-of-range policy of the store. Index `0` is the only parameter: any
//! other index reads as the neutral default `0` and is ignored on write.

use vstd::prelude::*;

verus! {

/// Full scale of the stored amplitude: `100` hundredths stand for `1.0`.
pub const AMPLITUDE_SCALE: u32 = 100;

/// Default amplitude in hundredths: half scale.
pub const AMPLITUDE_DEFAULT: u32 = 50;

/// The value a write of `v` leaves in the store: `v`, clamped to full scale.
pub open spec fn clamped(v: u32) -> int {
    if v > AMPLITUDE_SCALE {
        AMPLITUDE_SCALE as int
    } else {
        v as int
    }
}

/// The plugin's single control. The host writes it by index, the UI surface
/// writes it from the slider, and the audio engine reads it per buffer.
pub struct ParamStore {
    amplitude: u32,
}

impl ParamStore {
    /// The stored amplitude, in hundredths of full scale.
    pub closed spec fn amplitude_spec(self) -> int {
        self.amplitude as int
    }

    /// Well-formedness: the amplitude never exceeds full scale.
    pub closed spec fn wf(self) -> bool {
        self.amplitude <= AMPLITUDE_SCALE
    }

    /// Builds the store at its default value.
    pub fn new() -> (s: ParamStore)
        ensures
            s.wf(),
            s.amplitude_spec() == AMPLITUDE_DEFAULT,
    {
        ParamStore { amplitude: AMPLITUDE_DEFAULT }
    }

    /// Reads the amplitude.
    pub fn get(&self) -> (v: u32)
        requires
            self.wf(),
        ensures
            v == self.amplitude_spec(),
            v <= AMPLITUDE_SCALE,
    {
        self.amplitude
    }

    /// Writes the amplitude, clamping an over-scale value to full scale.
    pub fn set(&mut self, v: u32)
        ensures
            final(self).wf(),
            final(self).amplitude_spec() == clamped(v),
    {
        self.amplitude = if v > AMPLITUDE_SCALE {
            AMPLITUDE_SCALE
        } else {
            v
        };
    }

    /// Host-facing read by index: index `0` is the amplitude; any other
    /// index reads as the neutral default `0`.
    pub fn get_parameter(&self, index: i32) -> (v: u32)
        requires
            self.wf(),
        ensures
            index == 0 ==> v == self.amplitude_spec(),
            index != 0 ==> v == 0,
    {
        if index == 0 {
            self.amplitude
        } else {
            0
        }
    }

    /// Host-facing write by index: index `0` writes the amplitude (clamped);
    /// any other index leaves the store untouched.
    pub fn set_parameter(&mut self, index: i32, v: u32)
        requires
            old(self).wf(),
        ensures
            final(self).wf(),
            index == 0 ==> final(self).amplitude_spec() == clamped(v),
            index != 0 ==> *final(self) == *old(self),
    {
        if index == 0 {
            self.set(v);
        }
    }

    /// Host-facing display text: the amplitude rescaled to `-1.00 ..= 1.00`
    /// with two decimals; the empty string for any other index.
    pub fn get_parameter_text(&self, index: i32) -> (t: String)
        requires
            self.wf(),
        ensures
            index == 0 ==> t@ == display_seq(self.amplitude_spec()),
            index != 0 ==> t@ == Seq::<char>::empty(),
    {
        if index == 0 {
            format_display(self.amplitude)
        } else {
            let t = String::new();
            t
        }
    }

    /// Host-facing control name: `"Amplitude"` for index `0`, the empty
    /// string for any other index.
    pub fn get_parameter_name(&self, index: i32) -> (n: String)
        requires
            self.wf(),
        ensures
            index == 0 ==> n@ == "Amplitude"@,
            index != 0 ==> n@ == Seq::<char>::empty(),
    {
        if index == 0 {
            String::from_str("Amplitude")
        } else {
            let n = String::new();
            n
        }
    }
}

/// The decimal digit character for `d` in `0 ..= 9`.
pub open spec fn digit_char(d: int) -> char {
    if d == 0 {
        '0'
    } else if d == 1 {
        '1'
    } else if d == 2 {
        '2'
    } else if d == 3 {
        '3'
    } else if d == 4 {
        '4'
    } else if d == 5 {
        '5'
    } else if d == 6 {
        '6'
    } else if d == 7 {
        '7'
    } else if d == 8 {
        '8'
    } else {
        '9'
    }
}

/// Display text of an amplitude `v` in hundredths: the value rescaled from
/// `0 ..= 100` to `-1.00 ..= 1.00`, written with a sign for values below
/// half scale, one integer digit, a point, and two decimals.
pub open spec fn display_seq(v: int) -> Seq<char> {
    let d = if v >= 50 {
        (v - 50) * 2
    } else {
        (50 - v) * 2
    };
    let digits = seq![digit_char(d / 100), '.', digit_char((d / 10) % 10), digit_char(d % 10)];
    if v < 50 {
        seq!['-'] + digits
    } else {
        digits
    }
}

/// The one-character string for a decimal digit.
fn digit_str(d: u32) -> (r: &'static str)
    requires
        d <= 9,
    ensures
        r@ == seq![digit_char(d as int)],
{
    proof {
        reveal_strlit("0");
        reveal_strlit("1");
        reveal_strlit("2");
        reveal_strlit("3");
        reveal_strlit("4");
        reveal_strlit("5");
        reveal_strlit("6");
        reveal_strlit("7");
        reveal_strlit("8");
        reveal_strlit("9");
    }
    let r = match d {
        0 => "0",
        1 => "1",
        2 => "2",
        3 => "3",
        4 => "4",
        5 => "5",
        6 => "6",
        7 => "7",
        8 => "8",
        _ => "9",
    };
    proof {
        assert(r@ =~= seq![digit_char(d as int)]);
    }
    r
}

/// Renders the display text of an amplitude in hundredths.
fn format_display(v: u32) -> (r: String)
    requires
        v <= AMPLITUDE_SCALE,
    ensures
        r@ == display_seq(v as int),
{
    proof {
        reveal_strlit("-");
        reveal_strlit(".");
    }
    let mut s = String::new();
    let d: u32;
    if v >= 50 {
        d = (v - 50) * 2;
    } else {
        s.append("-");
        d = (50 - v) * 2;
    }
    s.append(digit_str(d / 100));
    s.append(".");
    s.append(digit_str((d / 10) % 10));
    s.append(digit_str(d % 10));
    proof {
        assert(s@ =~= display_seq(v as int));
    }
    s
}

/// Round-trip law: a write within full scale is stored exactly, so a `set`
/// of an in-range value followed by a `get` reads that value back; an
/// over-scale write is clamped to full scale, the store's one documented
/// out-of-range policy.
pub proof fn lemma_set_get_round_trip(v: u32)
    requires
        v <= AMPLITUDE_SCALE,
    ensures
        clamped(v) == v,
{
}

} // verus!
