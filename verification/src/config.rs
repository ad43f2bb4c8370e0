//! Configuration-derived state: the pad-to-note table, the velocity
//! sensitivity, the two pad feedback brightness levels and the pad colours,
//! together with the defaults and the name-to-value conversions used when a
//! configuration file supplies the values as strings.

use vstd::prelude::*;
use vstd::string::StrSliceExecFns;
use vstd::string::StringExecFns;
use crate::lights::{Brightness, PadColors, NUM_PADS};

verus! {

/// Default velocity sensitivity, in thousandths (a factor of one).
pub const DEFAULT_SENSITIVITY_MILLI: u32 = 1000;

/// The default pad-to-note table.
pub open spec fn spec_default_note_maps() -> Seq<u8> {
    seq![49u8, 27, 31, 57, 48, 47, 43, 59, 36, 38, 46, 51, 36, 38, 42, 44]
}

pub fn default_note_maps() -> (r: Vec<u8>)
    ensures
        r@ == spec_default_note_maps(),
{
    let mut v: Vec<u8> = Vec::new();
    v.push(49);
    v.push(27);
    v.push(31);
    v.push(57);
    v.push(48);
    v.push(47);
    v.push(43);
    v.push(59);
    v.push(36);
    v.push(38);
    v.push(46);
    v.push(51);
    v.push(36);
    v.push(38);
    v.push(42);
    v.push(44);
    proof {
        assert(v@ =~= spec_default_note_maps());
    }
    v
}

/// The default name of the pad note-off feedback brightness.
pub fn default_brightness_off() -> (r: String)
    ensures
        r@ == "off"@,
{
    String::from_str("off")
}

/// The default name of the pad note-on feedback brightness.
pub fn default_brightness_on() -> (r: String)
    ensures
        r@ == "normal"@,
{
    String::from_str("normal")
}

/// The default pad colour names: white on every pad.
pub fn default_pad_colors() -> (r: Vec<String>)
    ensures
        r@.len() == NUM_PADS,
        forall|i: int| 0 <= i < NUM_PADS ==> (#[trigger] r@[i])@ == "white"@,
{
    let mut v: Vec<String> = Vec::new();
    let mut i: usize = 0;
    while i < NUM_PADS
        invariant
            i <= NUM_PADS,
            v@.len() == i,
            forall|j: int| 0 <= j < i ==> (#[trigger] v@[j])@ == "white"@,
        decreases NUM_PADS - i,
    {
        v.push(String::from_str("white"));
        i += 1;
    }
    v
}

/// ASCII lower-casing of one character; anything outside `A..Z` is kept.
pub open spec fn spec_lower_char(c: char) -> char {
    if c == 'A' { 'a' } else if c == 'B' { 'b' } else if c == 'C' { 'c' }
    else if c == 'D' { 'd' } else if c == 'E' { 'e' } else if c == 'F' { 'f' }
    else if c == 'G' { 'g' } else if c == 'H' { 'h' } else if c == 'I' { 'i' }
    else if c == 'J' { 'j' } else if c == 'K' { 'k' } else if c == 'L' { 'l' }
    else if c == 'M' { 'm' } else if c == 'N' { 'n' } else if c == 'O' { 'o' }
    else if c == 'P' { 'p' } else if c == 'Q' { 'q' } else if c == 'R' { 'r' }
    else if c == 'S' { 's' } else if c == 'T' { 't' } else if c == 'U' { 'u' }
    else if c == 'V' { 'v' } else if c == 'W' { 'w' } else if c == 'X' { 'x' }
    else if c == 'Y' { 'y' } else if c == 'Z' { 'z' } else { c }
}

/// ASCII lower-casing of a whole string.
pub open spec fn spec_lower(s: Seq<char>) -> Seq<char> {
    Seq::new(s.len(), |i: int| spec_lower_char(s[i]))
}

fn lower_char(c: char) -> (r: char)
    ensures
        r == spec_lower_char(c),
{
    match c {
        'A' => 'a', 'B' => 'b', 'C' => 'c', 'D' => 'd', 'E' => 'e', 'F' => 'f',
        'G' => 'g', 'H' => 'h', 'I' => 'i', 'J' => 'j', 'K' => 'k', 'L' => 'l',
        'M' => 'm', 'N' => 'n', 'O' => 'o', 'P' => 'p', 'Q' => 'q', 'R' => 'r',
        'S' => 's', 'T' => 't', 'U' => 'u', 'V' => 'v', 'W' => 'w', 'X' => 'x',
        'Y' => 'y', 'Z' => 'z',
        _ => c,
    }
}

/// Case-insensitive comparison of `s` against an already-lowercase name.
fn eq_lowered(s: &str, t: &str) -> (r: bool)
    ensures
        r == (spec_lower(s@) == t@),
{
    let n = s.unicode_len();
    let m = t.unicode_len();
    if n != m {
        proof {
            assert(spec_lower(s@).len() != t@.len());
        }
        return false;
    }
    let mut i: usize = 0;
    while i < n
        invariant
            n == s@.len() == t@.len(),
            i <= n,
            forall|j: int| 0 <= j < i ==> spec_lower(s@)[j] == t@[j],
        decreases n - i,
    {
        let c = lower_char(s.get_char(i));
        let d = t.get_char(i);
        if c != d {
            proof {
                assert(spec_lower(s@)[i as int] != t@[i as int]);
            }
            return false;
        }
        i += 1;
    }
    proof {
        assert(spec_lower(s@) =~= t@);
    }
    true
}

/// The brightness a configuration name stands for; unknown names fall back
/// to `Normal`. Comparison ignores ASCII case.
pub open spec fn spec_string_to_brightness(s: Seq<char>) -> Brightness {
    let l = spec_lower(s);
    if l == "off"@ { Brightness::Off }
    else if l == "dim"@ { Brightness::Dim }
    else if l == "normal"@ { Brightness::Normal }
    else if l == "bright"@ { Brightness::Bright }
    else { Brightness::Normal }
}

pub fn string_to_brightness(s: &str) -> (r: Brightness)
    ensures
        r == spec_string_to_brightness(s@),
{
    if eq_lowered(s, "off") { Brightness::Off }
    else if eq_lowered(s, "dim") { Brightness::Dim }
    else if eq_lowered(s, "normal") { Brightness::Normal }
    else if eq_lowered(s, "bright") { Brightness::Bright }
    else { Brightness::Normal }
}

/// The pad colour a configuration name stands for; unknown names fall back
/// to `White`. Comparison ignores ASCII case.
pub open spec fn spec_string_to_pad_color(s: Seq<char>) -> PadColors {
    let l = spec_lower(s);
    if l == "off"@ { PadColors::Off }
    else if l == "red"@ { PadColors::Red }
    else if l == "orange"@ { PadColors::Orange }
    else if l == "lightorange"@ { PadColors::LightOrange }
    else if l == "warmyellow"@ { PadColors::WarmYellow }
    else if l == "yellow"@ { PadColors::Yellow }
    else if l == "lime"@ { PadColors::Lime }
    else if l == "green"@ { PadColors::Green }
    else if l == "mint"@ { PadColors::Mint }
    else if l == "cyan"@ { PadColors::Cyan }
    else if l == "turquoise"@ { PadColors::Turquoise }
    else if l == "blue"@ { PadColors::Blue }
    else if l == "plum"@ { PadColors::Plum }
    else if l == "violet"@ { PadColors::Violet }
    else if l == "purple"@ { PadColors::Purple }
    else if l == "magenta"@ { PadColors::Magenta }
    else if l == "fuchsia"@ { PadColors::Fuchsia }
    else if l == "white"@ { PadColors::White }
    else { PadColors::White }
}

pub fn string_to_pad_color(s: &str) -> (r: PadColors)
    ensures
        r == spec_string_to_pad_color(s@),
{
    if eq_lowered(s, "off") { PadColors::Off }
    else if eq_lowered(s, "red") { PadColors::Red }
    else if eq_lowered(s, "orange") { PadColors::Orange }
    else if eq_lowered(s, "lightorange") { PadColors::LightOrange }
    else if eq_lowered(s, "warmyellow") { PadColors::WarmYellow }
    else if eq_lowered(s, "yellow") { PadColors::Yellow }
    else if eq_lowered(s, "lime") { PadColors::Lime }
    else if eq_lowered(s, "green") { PadColors::Green }
    else if eq_lowered(s, "mint") { PadColors::Mint }
    else if eq_lowered(s, "cyan") { PadColors::Cyan }
    else if eq_lowered(s, "turquoise") { PadColors::Turquoise }
    else if eq_lowered(s, "blue") { PadColors::Blue }
    else if eq_lowered(s, "plum") { PadColors::Plum }
    else if eq_lowered(s, "violet") { PadColors::Violet }
    else if eq_lowered(s, "purple") { PadColors::Purple }
    else if eq_lowered(s, "magenta") { PadColors::Magenta }
    else if eq_lowered(s, "fuchsia") { PadColors::Fuchsia }
    else if eq_lowered(s, "white") { PadColors::White }
    else { PadColors::White }
}

/// The configuration-derived state the orchestrator reads: built once, then
/// read-only. Note numbers are kept within the seven bits a note message can
/// carry.
pub struct ConfigValues {
    pub note_maps: Vec<u8>,
    pub sensitivity_milli: u32,
    pub brightness_off: Brightness,
    pub brightness_on: Brightness,
    pub pad_colors: Vec<PadColors>,
}

impl ConfigValues {
    pub open spec fn wf(&self) -> bool {
        &&& self.note_maps@.len() == NUM_PADS
        &&& forall|i: int| 0 <= i < NUM_PADS ==> self.note_maps@[i] < 128
        &&& self.pad_colors@.len() == NUM_PADS
    }

    /// Build the configuration state from plain values, masking each note
    /// number down to its seven significant bits.
    pub fn new(
        note_maps: &Vec<u8>,
        sensitivity_milli: u32,
        brightness_off: Brightness,
        brightness_on: Brightness,
        pad_colors: &Vec<PadColors>,
    ) -> (r: ConfigValues)
        requires
            note_maps@.len() == NUM_PADS,
            pad_colors@.len() == NUM_PADS,
        ensures
            r.wf(),
            forall|i: int| 0 <= i < NUM_PADS ==> r.note_maps@[i] == note_maps@[i] & 0x7f,
            r.sensitivity_milli == sensitivity_milli,
            r.brightness_off == brightness_off,
            r.brightness_on == brightness_on,
            r.pad_colors@ == pad_colors@,
    {
        let mut notes: Vec<u8> = Vec::new();
        let mut i: usize = 0;
        while i < NUM_PADS
            invariant
                note_maps@.len() == NUM_PADS,
                i <= NUM_PADS,
                notes@.len() == i,
                forall|j: int| 0 <= j < i ==> notes@[j] == note_maps@[j] & 0x7f,
            decreases NUM_PADS - i,
        {
            let n = note_maps[i] & 0x7f;
            proof {
                let x = note_maps@[i as int];
                assert(x & 0x7f < 128) by (bit_vector);
            }
            notes.push(n);
            i += 1;
        }
        proof {
            assert forall|j: int| 0 <= j < NUM_PADS implies notes@[j] < 128 by {
                let x = note_maps@[j];
                assert(x & 0x7f < 128) by (bit_vector);
            }
        }
        let mut colors: Vec<PadColors> = Vec::new();
        let mut i: usize = 0;
        while i < NUM_PADS
            invariant
                pad_colors@.len() == NUM_PADS,
                i <= NUM_PADS,
                colors@ =~= pad_colors@.subrange(0, i as int),
            decreases NUM_PADS - i,
        {
            colors.push(pad_colors[i]);
            i += 1;
        }
        proof {
            assert(colors@ =~= pad_colors@);
        }
        ConfigValues {
            note_maps: notes,
            sensitivity_milli,
            brightness_off,
            brightness_on,
            pad_colors: colors,
        }
    }

    /// The built-in default configuration: the default note table, unit
    /// sensitivity, off/normal pad feedback, white pads.
    pub fn defaults() -> (r: ConfigValues)
        ensures
            r.wf(),
            forall|i: int| 0 <= i < NUM_PADS ==> r.note_maps@[i] == spec_default_note_maps()[i]
                & 0x7f,
            r.sensitivity_milli == DEFAULT_SENSITIVITY_MILLI,
            r.brightness_off == Brightness::Off,
            r.brightness_on == Brightness::Normal,
            forall|i: int| 0 <= i < NUM_PADS ==> r.pad_colors@[i] == PadColors::White,
    {
        let notes = default_note_maps();
        let mut colors: Vec<PadColors> = Vec::new();
        let mut i: usize = 0;
        while i < NUM_PADS
            invariant
                i <= NUM_PADS,
                colors@.len() == i,
                forall|j: int| 0 <= j < i ==> colors@[j] == PadColors::White,
            decreases NUM_PADS - i,
        {
            colors.push(PadColors::White);
            i += 1;
        }
        Self::new(
            &notes,
            DEFAULT_SENSITIVITY_MILLI,
            Brightness::Off,
            Brightness::Normal,
            &colors,
        )
    }
}

} // verus!
