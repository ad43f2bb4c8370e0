//! Input-side vocabulary of the controller surface: the button set with its
//! bit positions in the input report, and the pad event codes.

use vstd::prelude::*;

verus! {

/// The physical buttons of the surface, one per mapped bit position of the
/// button/analog input report. `Encoder` is the push switch of the rotary
/// encoder, the one button without a light of its own.
#[derive(Clone, Copy, Debug, PartialEq, Eq, Structural)]
pub enum Buttons {
    Group,
    Auto,
    Lock,
    NoteRepeat,
    Restart,
    Erase,
    Tap,
    Follow,
    Play,
    Rec,
    Stop,
    Shift,
    FixedVel,
    PadMode,
    Keyboard,
    Chords,
    Step,
    Scene,
    Pattern,
    Events,
    Variation,
    Duplicate,
    Select,
    Solo,
    Mute,
    Pitch,
    Mod,
    Perform,
    Notes,
    Volume,
    Swing,
    Tempo,
    PlugIn,
    Sampling,
    Favorites,
    Browse,
    Left,
    Right,
    Encoder,
}

/// Number of mapped buttons; bit positions at or above this index carry no button.
pub const NUM_BUTTONS: usize = 39;

/// Bit position of a button inside the button/analog input report.
pub open spec fn spec_button_index(b: Buttons) -> int {
    match b {
        Buttons::Group => 0,
        Buttons::Auto => 1,
        Buttons::Lock => 2,
        Buttons::NoteRepeat => 3,
        Buttons::Restart => 4,
        Buttons::Erase => 5,
        Buttons::Tap => 6,
        Buttons::Follow => 7,
        Buttons::Play => 8,
        Buttons::Rec => 9,
        Buttons::Stop => 10,
        Buttons::Shift => 11,
        Buttons::FixedVel => 12,
        Buttons::PadMode => 13,
        Buttons::Keyboard => 14,
        Buttons::Chords => 15,
        Buttons::Step => 16,
        Buttons::Scene => 17,
        Buttons::Pattern => 18,
        Buttons::Events => 19,
        Buttons::Variation => 20,
        Buttons::Duplicate => 21,
        Buttons::Select => 22,
        Buttons::Solo => 23,
        Buttons::Mute => 24,
        Buttons::Pitch => 25,
        Buttons::Mod => 26,
        Buttons::Perform => 27,
        Buttons::Notes => 28,
        Buttons::Volume => 29,
        Buttons::Swing => 30,
        Buttons::Tempo => 31,
        Buttons::PlugIn => 32,
        Buttons::Sampling => 33,
        Buttons::Favorites => 34,
        Buttons::Browse => 35,
        Buttons::Left => 36,
        Buttons::Right => 37,
        Buttons::Encoder => 38,
    }
}

pub fn button_index(b: Buttons) -> (r: usize)
    ensures
        r == spec_button_index(b),
        r < NUM_BUTTONS,
{
    match b {
        Buttons::Group => 0,
        Buttons::Auto => 1,
        Buttons::Lock => 2,
        Buttons::NoteRepeat => 3,
        Buttons::Restart => 4,
        Buttons::Erase => 5,
        Buttons::Tap => 6,
        Buttons::Follow => 7,
        Buttons::Play => 8,
        Buttons::Rec => 9,
        Buttons::Stop => 10,
        Buttons::Shift => 11,
        Buttons::FixedVel => 12,
        Buttons::PadMode => 13,
        Buttons::Keyboard => 14,
        Buttons::Chords => 15,
        Buttons::Step => 16,
        Buttons::Scene => 17,
        Buttons::Pattern => 18,
        Buttons::Events => 19,
        Buttons::Variation => 20,
        Buttons::Duplicate => 21,
        Buttons::Select => 22,
        Buttons::Solo => 23,
        Buttons::Mute => 24,
        Buttons::Pitch => 25,
        Buttons::Mod => 26,
        Buttons::Perform => 27,
        Buttons::Notes => 28,
        Buttons::Volume => 29,
        Buttons::Swing => 30,
        Buttons::Tempo => 31,
        Buttons::PlugIn => 32,
        Buttons::Sampling => 33,
        Buttons::Favorites => 34,
        Buttons::Browse => 35,
        Buttons::Left => 36,
        Buttons::Right => 37,
        Buttons::Encoder => 38,
    }
}

/// Checked conversion from a bit position to the button it carries.
pub open spec fn spec_button_from_index(i: int) -> Option<Buttons> {
    if i == 0 { Some(Buttons::Group) }
    else if i == 1 { Some(Buttons::Auto) }
    else if i == 2 { Some(Buttons::Lock) }
    else if i == 3 { Some(Buttons::NoteRepeat) }
    else if i == 4 { Some(Buttons::Restart) }
    else if i == 5 { Some(Buttons::Erase) }
    else if i == 6 { Some(Buttons::Tap) }
    else if i == 7 { Some(Buttons::Follow) }
    else if i == 8 { Some(Buttons::Play) }
    else if i == 9 { Some(Buttons::Rec) }
    else if i == 10 { Some(Buttons::Stop) }
    else if i == 11 { Some(Buttons::Shift) }
    else if i == 12 { Some(Buttons::FixedVel) }
    else if i == 13 { Some(Buttons::PadMode) }
    else if i == 14 { Some(Buttons::Keyboard) }
    else if i == 15 { Some(Buttons::Chords) }
    else if i == 16 { Some(Buttons::Step) }
    else if i == 17 { Some(Buttons::Scene) }
    else if i == 18 { Some(Buttons::Pattern) }
    else if i == 19 { Some(Buttons::Events) }
    else if i == 20 { Some(Buttons::Variation) }
    else if i == 21 { Some(Buttons::Duplicate) }
    else if i == 22 { Some(Buttons::Select) }
    else if i == 23 { Some(Buttons::Solo) }
    else if i == 24 { Some(Buttons::Mute) }
    else if i == 25 { Some(Buttons::Pitch) }
    else if i == 26 { Some(Buttons::Mod) }
    else if i == 27 { Some(Buttons::Perform) }
    else if i == 28 { Some(Buttons::Notes) }
    else if i == 29 { Some(Buttons::Volume) }
    else if i == 30 { Some(Buttons::Swing) }
    else if i == 31 { Some(Buttons::Tempo) }
    else if i == 32 { Some(Buttons::PlugIn) }
    else if i == 33 { Some(Buttons::Sampling) }
    else if i == 34 { Some(Buttons::Favorites) }
    else if i == 35 { Some(Buttons::Browse) }
    else if i == 36 { Some(Buttons::Left) }
    else if i == 37 { Some(Buttons::Right) }
    else if i == 38 { Some(Buttons::Encoder) }
    else { None }
}

pub fn button_from_index(i: usize) -> (r: Option<Buttons>)
    ensures
        r == spec_button_from_index(i as int),
{
    if i == 0 { Some(Buttons::Group) }
    else if i == 1 { Some(Buttons::Auto) }
    else if i == 2 { Some(Buttons::Lock) }
    else if i == 3 { Some(Buttons::NoteRepeat) }
    else if i == 4 { Some(Buttons::Restart) }
    else if i == 5 { Some(Buttons::Erase) }
    else if i == 6 { Some(Buttons::Tap) }
    else if i == 7 { Some(Buttons::Follow) }
    else if i == 8 { Some(Buttons::Play) }
    else if i == 9 { Some(Buttons::Rec) }
    else if i == 10 { Some(Buttons::Stop) }
    else if i == 11 { Some(Buttons::Shift) }
    else if i == 12 { Some(Buttons::FixedVel) }
    else if i == 13 { Some(Buttons::PadMode) }
    else if i == 14 { Some(Buttons::Keyboard) }
    else if i == 15 { Some(Buttons::Chords) }
    else if i == 16 { Some(Buttons::Step) }
    else if i == 17 { Some(Buttons::Scene) }
    else if i == 18 { Some(Buttons::Pattern) }
    else if i == 19 { Some(Buttons::Events) }
    else if i == 20 { Some(Buttons::Variation) }
    else if i == 21 { Some(Buttons::Duplicate) }
    else if i == 22 { Some(Buttons::Select) }
    else if i == 23 { Some(Buttons::Solo) }
    else if i == 24 { Some(Buttons::Mute) }
    else if i == 25 { Some(Buttons::Pitch) }
    else if i == 26 { Some(Buttons::Mod) }
    else if i == 27 { Some(Buttons::Perform) }
    else if i == 28 { Some(Buttons::Notes) }
    else if i == 29 { Some(Buttons::Volume) }
    else if i == 30 { Some(Buttons::Swing) }
    else if i == 31 { Some(Buttons::Tempo) }
    else if i == 32 { Some(Buttons::PlugIn) }
    else if i == 33 { Some(Buttons::Sampling) }
    else if i == 34 { Some(Buttons::Favorites) }
    else if i == 35 { Some(Buttons::Browse) }
    else if i == 36 { Some(Buttons::Left) }
    else if i == 37 { Some(Buttons::Right) }
    else if i == 38 { Some(Buttons::Encoder) }
    else { None }
}

/// The bit position of a button and the button at that position are inverses.
pub proof fn lemma_button_index_roundtrip(b: Buttons)
    ensures
        0 <= spec_button_index(b) < NUM_BUTTONS,
        spec_button_from_index(spec_button_index(b)) == Some(b),
{
}

/// A mapped bit position decodes to the button whose bit position it is.
pub proof fn lemma_index_from_index(k: int)
    requires
        0 <= k < NUM_BUTTONS,
    ensures
        spec_button_from_index(k) is Some,
        spec_button_index(spec_button_from_index(k).unwrap()) == k,
{
}

/// Length in bytes of an input report buffer.
pub const REPORT_LEN: usize = 64;

/// Number of button bits carried by the button/analog report.
pub const NUM_BUTTON_BITS: usize = 48;

/// Kind of a single pad record inside a pad report.
#[derive(Clone, Copy, Debug, PartialEq, Eq, Structural)]
pub enum PadEventType {
    /// A pad was struck.
    NoteOn,
    /// A struck pad was released.
    NoteOff,
    /// Aftertouch pressure engaged on a held pad.
    PressOn,
    /// Aftertouch pressure released.
    PressOff,
    /// A continuous aftertouch pressure level.
    Aftertouch,
}

/// The event-type byte of a pad record (its high nibble is the code, the low
/// nibble belongs to the intensity). An unrecognized code decodes to `None`
/// and the record is ignored.
pub open spec fn spec_pad_event_from_code(c: u8) -> Option<PadEventType> {
    if c == 0x10 { Some(PadEventType::NoteOn) }
    else if c == 0x20 { Some(PadEventType::NoteOff) }
    else if c == 0x30 { Some(PadEventType::PressOn) }
    else if c == 0x40 { Some(PadEventType::PressOff) }
    else if c == 0x50 { Some(PadEventType::Aftertouch) }
    else { None }
}

pub fn pad_event_from_code(c: u8) -> (r: Option<PadEventType>)
    ensures
        r == spec_pad_event_from_code(c),
{
    if c == 0x10 { Some(PadEventType::NoteOn) }
    else if c == 0x20 { Some(PadEventType::NoteOff) }
    else if c == 0x30 { Some(PadEventType::PressOn) }
    else if c == 0x40 { Some(PadEventType::PressOff) }
    else if c == 0x50 { Some(PadEventType::Aftertouch) }
    else { None }
}

/// Whether logical bit `k` (byte `k / 8` after the type byte, bit `k % 8`)
/// is set in a button/analog report.
pub open spec fn spec_bit(buf: Seq<u8>, k: int) -> bool
    recommends
        buf.len() == REPORT_LEN,
        0 <= k < NUM_BUTTON_BITS,
{
    buf[1 + k / 8] & (1u8 << ((k % 8) as u8)) != 0
}

/// The decoded button states of a button/analog report: one entry per mapped
/// bit position, in bit order, carrying the button and whether its bit is
/// set. Unmapped bit positions contribute no entry.
pub open spec fn spec_button_states(buf: Seq<u8>) -> Seq<(Buttons, bool)> {
    Seq::new(
        NUM_BUTTONS as nat,
        |k: int| (spec_button_from_index(k).unwrap(), spec_bit(buf, k)),
    )
}

/// A decoded button/analog report: the state of every mapped button, the
/// encoder byte, and the raw slider byte (0 meaning "no touch").
pub struct ButtonReport {
    pub states: Vec<(Buttons, bool)>,
    pub encoder: u8,
    pub slider: u8,
}

/// Decode a button/analog report (type byte 0x01).
pub fn decode_button_report(buf: &Vec<u8>) -> (r: ButtonReport)
    requires
        buf@.len() == REPORT_LEN,
    ensures
        r.states@ == spec_button_states(buf@),
        r.encoder == buf@[7],
        r.slider == buf@[10],
{
    let mut states: Vec<(Buttons, bool)> = Vec::new();
    let mut k: usize = 0;
    while k < NUM_BUTTONS
        invariant
            buf@.len() == REPORT_LEN,
            k <= NUM_BUTTONS,
            states@ =~= spec_button_states(buf@).subrange(0, k as int),
        decreases NUM_BUTTONS - k,
    {
        let button = button_from_index(k).unwrap();
        let byte = buf[1 + k / 8];
        let mask: u8 = 1u8 << ((k % 8) as u8);
        let pressed = byte & mask != 0;
        states.push((button, pressed));
        k += 1;
    }
    proof {
        assert(states@ =~= spec_button_states(buf@));
    }
    ButtonReport { states, encoder: buf[7], slider: buf[10] }
}

/// Every decoded entry comes from a mapped bit position and reports exactly
/// whether that bit is set; positions carrying no button yield no entry.
pub proof fn lemma_button_decode_iff_bit(buf: Seq<u8>, k: int)
    requires
        buf.len() == REPORT_LEN,
        0 <= k < NUM_BUTTON_BITS,
    ensures
        spec_button_from_index(k) matches Some(b) ==> {
            &&& 0 <= k < spec_button_states(buf).len()
            &&& spec_button_states(buf)[k] == (b, spec_bit(buf, k))
        },
        spec_button_from_index(k) is None ==> forall|j: int|
            0 <= j < spec_button_states(buf).len()
                ==> spec_button_index(#[trigger] spec_button_states(buf)[j].0) != k,
{
    assert forall|j: int| 0 <= j < spec_button_states(buf).len() implies spec_button_index(
        spec_button_states(buf)[j].0,
    ) == j by {
        lemma_button_index_roundtrip(spec_button_states(buf)[j].0);
    }
}

/// Number of three-byte records a pad report can carry after its type byte.
pub const NUM_PAD_RECORDS: usize = 21;

/// One decoded pad record: pad index, event kind, and the 12-bit intensity.
#[derive(Clone, Copy, Debug, PartialEq, Eq, Structural)]
pub struct PadRecord {
    pub pad: u8,
    pub event: PadEventType,
    pub value: u16,
}

/// The event-type code of record `m`: the high nibble of its middle byte.
pub open spec fn spec_record_code(buf: Seq<u8>, m: int) -> u8 {
    buf[2 + 3 * m] & 0xf0
}

/// The 12-bit intensity of record `m`: the low nibble of its middle byte
/// followed by its last byte.
pub open spec fn spec_record_value(buf: Seq<u8>, m: int) -> u16 {
    ((buf[2 + 3 * m] & 0x0f) as u16 * 256 + buf[3 + 3 * m] as u16) as u16
}

/// The decoded form of record `m`, for a recognized event code.
pub open spec fn spec_record(buf: Seq<u8>, m: int) -> PadRecord {
    PadRecord {
        pad: buf[1 + 3 * m],
        event: spec_pad_event_from_code(spec_record_code(buf, m)).unwrap(),
        value: spec_record_value(buf, m),
    }
}

/// Record `m` is all zero: the terminator shape. Only a record after the
/// first one is read as a terminator.
pub open spec fn spec_zero_record(buf: Seq<u8>, m: int) -> bool {
    buf[1 + 3 * m] == 0 && buf[2 + 3 * m] == 0 && buf[3 + 3 * m] == 0
}

/// The records decoded from record position `m` on: stop at the first
/// all-zero record after position 0, keep records with recognized codes,
/// skip the rest.
pub open spec fn spec_pad_records_from(buf: Seq<u8>, m: int) -> Seq<PadRecord>
    decreases NUM_PAD_RECORDS - m,
{
    if m < 0 || m >= NUM_PAD_RECORDS {
        Seq::empty()
    } else if m >= 1 && spec_zero_record(buf, m) {
        Seq::empty()
    } else {
        let rest = spec_pad_records_from(buf, m + 1);
        if spec_pad_event_from_code(spec_record_code(buf, m)) is Some {
            seq![spec_record(buf, m)] + rest
        } else {
            rest
        }
    }
}

/// The records decoded from a whole pad report (type byte 0x02).
pub open spec fn spec_pad_records(buf: Seq<u8>) -> Seq<PadRecord> {
    spec_pad_records_from(buf, 0)
}

/// The position of the first terminator record: the first all-zero record
/// after position 0, or the record count when none occurs.
pub open spec fn spec_terminator(buf: Seq<u8>) -> int {
    if exists|m: int| 1 <= m < NUM_PAD_RECORDS && spec_zero_record(buf, m) {
        choose|m: int|
            1 <= m < NUM_PAD_RECORDS && spec_zero_record(buf, m) && forall|j: int|
                1 <= j < m ==> !spec_zero_record(buf, j)
    } else {
        NUM_PAD_RECORDS as int
    }
}

/// The records decoded from positions `0 .. t` alone, ignoring everything
/// at or after `t`.
pub open spec fn spec_records_below(buf: Seq<u8>, t: int) -> Seq<PadRecord>
    decreases t,
{
    if t <= 0 {
        Seq::empty()
    } else {
        spec_records_below(buf, t - 1) + (
        if spec_pad_event_from_code(spec_record_code(buf, t - 1)) is Some {
            seq![spec_record(buf, t - 1)]
        } else {
            Seq::empty()
        })
    }
}

/// Decode a pad report into its records, in order.
pub fn decode_pad_report(buf: &Vec<u8>) -> (r: Vec<PadRecord>)
    requires
        buf@.len() == REPORT_LEN,
    ensures
        r@ == spec_pad_records(buf@),
{
    let mut out: Vec<PadRecord> = Vec::new();
    let mut m: usize = 0;
    while m < NUM_PAD_RECORDS
        invariant
            buf@.len() == REPORT_LEN,
            m <= NUM_PAD_RECORDS,
            spec_pad_records(buf@) =~= out@ + spec_pad_records_from(buf@, m as int),
        decreases NUM_PAD_RECORDS - m,
    {
        let b0 = buf[1 + 3 * m];
        let b1 = buf[2 + 3 * m];
        let b2 = buf[3 + 3 * m];
        if m >= 1 && b0 == 0 && b1 == 0 && b2 == 0 {
            proof {
                assert(spec_pad_records_from(buf@, m as int) =~= Seq::<PadRecord>::empty());
                assert(out@ =~= spec_pad_records(buf@));
            }
            return out;
        }
        let code = b1 & 0xf0;
        match pad_event_from_code(code) {
            Some(event) => {
                let value: u16 = (b1 & 0x0f) as u16 * 256 + b2 as u16;
                let rec = PadRecord { pad: b0, event, value };
                proof {
                    assert(rec == spec_record(buf@, m as int));
                }
                out.push(rec);
            }
            None => {}
        }
        m += 1;
    }
    proof {
        if m == NUM_PAD_RECORDS {
            assert(spec_pad_records_from(buf@, m as int) =~= Seq::<PadRecord>::empty());
        }
        assert(out@ =~= spec_pad_records(buf@));
    }
    out
}

proof fn lemma_records_from_to_below(buf: Seq<u8>, m: int, t: int)
    requires
        0 <= m <= t <= NUM_PAD_RECORDS,
        t == spec_terminator(buf),
        forall|j: int| 1 <= j < t ==> !spec_zero_record(buf, j),
        t < NUM_PAD_RECORDS ==> spec_zero_record(buf, t),
    ensures
        spec_pad_records_from(buf, m) == spec_records_below(buf, t).skip(
            spec_records_below(buf, m).len() as int,
        ),
    decreases t - m,
{
    if m == t {
        if t < NUM_PAD_RECORDS {
            assert(spec_pad_records_from(buf, m) =~= Seq::<PadRecord>::empty());
        }
        assert(spec_pad_records_from(buf, m) =~= spec_records_below(buf, t).skip(
            spec_records_below(buf, m).len() as int,
        ));
    } else {
        lemma_records_from_to_below(buf, m + 1, t);
        lemma_records_below_step(buf, m, t);
        assert(spec_pad_records_from(buf, m) =~= spec_records_below(buf, t).skip(
            spec_records_below(buf, m).len() as int,
        ));
    }
}

proof fn lemma_records_below_step(buf: Seq<u8>, m: int, t: int)
    requires
        0 <= m < t <= NUM_PAD_RECORDS,
    ensures
        spec_records_below(buf, t).skip(spec_records_below(buf, m).len() as int) == (
        if spec_pad_event_from_code(spec_record_code(buf, m)) is Some {
            seq![spec_record(buf, m)]
        } else {
            Seq::<PadRecord>::empty()
        }) + spec_records_below(buf, t).skip(spec_records_below(buf, m + 1).len() as int),
    decreases t - m,
{
    lemma_records_below_prefix(buf, m, t);
    lemma_records_below_prefix(buf, m + 1, t);
    assert(spec_records_below(buf, t).skip(spec_records_below(buf, m).len() as int) =~= (
    if spec_pad_event_from_code(spec_record_code(buf, m)) is Some {
        seq![spec_record(buf, m)]
    } else {
        Seq::<PadRecord>::empty()
    }) + spec_records_below(buf, t).skip(spec_records_below(buf, m + 1).len() as int));
}

proof fn lemma_records_below_prefix(buf: Seq<u8>, m: int, t: int)
    requires
        0 <= m <= t <= NUM_PAD_RECORDS,
    ensures
        spec_records_below(buf, m).len() <= spec_records_below(buf, t).len(),
        forall|i: int| 0 <= i < spec_records_below(buf, m).len()
            ==> spec_records_below(buf, t)[i] == spec_records_below(buf, m)[i],
    decreases t - m,
{
    if m < t {
        lemma_records_below_prefix(buf, m, t - 1);
    }
}

/// Pad decoding stops at the first all-zero record after the first
/// position: the decoded records are exactly those read off the records
/// strictly before that terminator, and no record at or after it
/// contributes an event.
pub proof fn lemma_pad_decode_stops(buf: Seq<u8>)
    requires
        buf.len() == REPORT_LEN,
    ensures
        spec_pad_records(buf) == spec_records_below(buf, spec_terminator(buf)),
{
    let t = spec_terminator(buf);
    if exists|m: int| 1 <= m < NUM_PAD_RECORDS && spec_zero_record(buf, m) {
        let w = choose|m: int| 1 <= m < NUM_PAD_RECORDS && spec_zero_record(buf, m);
        lemma_first_zero_exists(buf, w);
        assert(1 <= t <= NUM_PAD_RECORDS);
    }
    lemma_records_from_to_below(buf, 0, t);
    assert(spec_pad_records(buf) =~= spec_records_below(buf, t));
}

proof fn lemma_first_zero_exists(buf: Seq<u8>, w: int)
    requires
        1 <= w < NUM_PAD_RECORDS,
        spec_zero_record(buf, w),
    ensures
        exists|m: int|
            1 <= m < NUM_PAD_RECORDS && spec_zero_record(buf, m) && forall|j: int|
                1 <= j < m ==> !spec_zero_record(buf, j),
        ({
            let t = spec_terminator(buf);
            &&& 1 <= t < NUM_PAD_RECORDS
            &&& spec_zero_record(buf, t)
            &&& forall|j: int| 1 <= j < t ==> !spec_zero_record(buf, j)
        }),
    decreases w,
{
    if forall|j: int| 1 <= j < w ==> !spec_zero_record(buf, j) {
        assert(1 <= w < NUM_PAD_RECORDS && spec_zero_record(buf, w) && forall|j: int|
            1 <= j < w ==> !spec_zero_record(buf, j));
    } else {
        let v = choose|j: int| 1 <= j < w && spec_zero_record(buf, j);
        lemma_first_zero_exists(buf, v);
    }
}

/// The lit-segment index the slider bar centres on for a nonzero raw slider
/// value: `(v - 1 + 5) * 25 / 200 - 1`, clamped into the segment range.
pub open spec fn spec_slider_target(v: u8) -> int
    recommends
        v != 0,
{
    let raw = (v as int + 4) * 25 / 200 - 1;
    if raw < 0 { 0 } else if raw > 24 { 24 } else { raw }
}

pub fn slider_target(v: u8) -> (c: u8)
    requires
        v != 0,
    ensures
        c as int == spec_slider_target(v),
        c < 25,
{
    let t: u32 = (v as u32 + 4) * 25 / 200;
    if t < 1 {
        0
    } else if t - 1 > 24 {
        24
    } else {
        (t - 1) as u8
    }
}

/// The slider bar centred on segment `c`: `c` itself at `Normal`, the
/// segments below it at `Dim`, everything above it off.
pub open spec fn spec_slider_brightness(c: int, i: int) -> crate::lights::Brightness {
    if i == c {
        crate::lights::Brightness::Normal
    } else if i < c {
        crate::lights::Brightness::Dim
    } else {
        crate::lights::Brightness::Off
    }
}

/// Raising the raw slider value never lowers the lit-segment index.
pub proof fn lemma_slider_monotonic(a: u8, b: u8)
    requires
        1 <= a <= b,
    ensures
        spec_slider_target(a) <= spec_slider_target(b),
{
    vstd::arithmetic::div_mod::lemma_div_is_ordered(
        (a as int + 4) * 25,
        (b as int + 4) * 25,
        200,
    );
}

/// A MIDI-style velocity from a 12-bit pad intensity and a sensitivity in
/// thousandths: `min(127, intensity * sensitivity / 32)`, forced to 0 when
/// the intensity is 0 and clamped up to 1 when it is not.
pub open spec fn spec_velocity(val: u16, milli: u32) -> u8 {
    if val == 0 {
        0
    } else {
        let scaled = (val as int) * (milli as int) / 32000;
        if scaled < 1 {
            1
        } else if scaled > 127 {
            127
        } else {
            scaled as u8
        }
    }
}

pub fn velocity(val: u16, milli: u32) -> (v: u8)
    ensures
        v == spec_velocity(val, milli),
{
    if val == 0 {
        0
    } else {
        proof {
            vstd::arithmetic::mul::lemma_mul_upper_bound(
                val as int,
                0xffff,
                milli as int,
                0xffff_ffff,
            );
        }
        let scaled: u64 = (val as u64) * (milli as u64) / 32000;
        if scaled < 1 {
            1
        } else if scaled > 127 {
            127
        } else {
            scaled as u8
        }
    }
}

/// Intensity 0 gives velocity 0; any nonzero intensity gives at least 1;
/// the velocity never exceeds 127.
pub proof fn lemma_velocity_bounds(val: u16, milli: u32)
    ensures
        val == 0 ==> spec_velocity(val, milli) == 0,
        val > 0 ==> spec_velocity(val, milli) >= 1,
        spec_velocity(val, milli) <= 127,
{
}

} // verus!
