//! Light state store: brightness for every button, colour and brightness for
//! every pad, brightness for every slider segment, together with the encoder
//! that packs the whole state into the device's lighting output report.

use vstd::prelude::*;
use vstd::pervasive::VecAdditionalExecFns;
use crate::controls::{Buttons, spec_button_index, NUM_BUTTONS};

verus! {

/// Number of velocity-sensitive pads.
pub const NUM_PADS: usize = 16;

/// Number of light segments under the slider strip.
pub const NUM_SLIDER: usize = 25;

/// Length in bytes of the lighting output report.
pub const LIGHT_REPORT_LEN: usize = 81;

/// Brightness level of a single light, ordered from dark to bright.
#[derive(Clone, Copy, Debug, PartialEq, Eq, Structural)]
pub enum Brightness {
    Off,
    Dim,
    Normal,
    Bright,
}

/// Colour palette of a pad light; purely cosmetic, independent of brightness.
#[derive(Clone, Copy, Debug, PartialEq, Eq, Structural)]
pub enum PadColors {
    Off,
    Red,
    Orange,
    LightOrange,
    WarmYellow,
    Yellow,
    Lime,
    Green,
    Mint,
    Cyan,
    Turquoise,
    Blue,
    Plum,
    Violet,
    Purple,
    Magenta,
    Fuchsia,
    White,
}

/// Wire code of a brightness level in the lighting report.
pub open spec fn spec_brightness_code(b: Brightness) -> u8 {
    match b {
        Brightness::Off => 0,
        Brightness::Dim => 1,
        Brightness::Normal => 2,
        Brightness::Bright => 3,
    }
}

/// Wire code of a pad colour in the lighting report.
pub open spec fn spec_color_code(c: PadColors) -> u8 {
    match c {
        PadColors::Off => 0,
        PadColors::Red => 1,
        PadColors::Orange => 2,
        PadColors::LightOrange => 3,
        PadColors::WarmYellow => 4,
        PadColors::Yellow => 5,
        PadColors::Lime => 6,
        PadColors::Green => 7,
        PadColors::Mint => 8,
        PadColors::Cyan => 9,
        PadColors::Turquoise => 10,
        PadColors::Blue => 11,
        PadColors::Plum => 12,
        PadColors::Violet => 13,
        PadColors::Purple => 14,
        PadColors::Magenta => 15,
        PadColors::Fuchsia => 16,
        PadColors::White => 17,
    }
}

pub fn brightness_code(b: Brightness) -> (r: u8)
    ensures
        r == spec_brightness_code(b),
{
    match b {
        Brightness::Off => 0,
        Brightness::Dim => 1,
        Brightness::Normal => 2,
        Brightness::Bright => 3,
    }
}

pub fn color_code(c: PadColors) -> (r: u8)
    ensures
        r == spec_color_code(c),
{
    match c {
        PadColors::Off => 0,
        PadColors::Red => 1,
        PadColors::Orange => 2,
        PadColors::LightOrange => 3,
        PadColors::WarmYellow => 4,
        PadColors::Yellow => 5,
        PadColors::Lime => 6,
        PadColors::Green => 7,
        PadColors::Mint => 8,
        PadColors::Cyan => 9,
        PadColors::Turquoise => 10,
        PadColors::Blue => 11,
        PadColors::Plum => 12,
        PadColors::Violet => 13,
        PadColors::Purple => 14,
        PadColors::Magenta => 15,
        PadColors::Fuchsia => 16,
        PadColors::White => 17,
    }
}

/// Checked conversion from a pad-colour code back to the palette entry.
pub open spec fn spec_color_from_code(v: u8) -> Option<PadColors> {
    if v == 0 { Some(PadColors::Off) }
    else if v == 1 { Some(PadColors::Red) }
    else if v == 2 { Some(PadColors::Orange) }
    else if v == 3 { Some(PadColors::LightOrange) }
    else if v == 4 { Some(PadColors::WarmYellow) }
    else if v == 5 { Some(PadColors::Yellow) }
    else if v == 6 { Some(PadColors::Lime) }
    else if v == 7 { Some(PadColors::Green) }
    else if v == 8 { Some(PadColors::Mint) }
    else if v == 9 { Some(PadColors::Cyan) }
    else if v == 10 { Some(PadColors::Turquoise) }
    else if v == 11 { Some(PadColors::Blue) }
    else if v == 12 { Some(PadColors::Plum) }
    else if v == 13 { Some(PadColors::Violet) }
    else if v == 14 { Some(PadColors::Purple) }
    else if v == 15 { Some(PadColors::Magenta) }
    else if v == 16 { Some(PadColors::Fuchsia) }
    else if v == 17 { Some(PadColors::White) }
    else { None }
}

pub fn color_from_code(v: u8) -> (r: Option<PadColors>)
    ensures
        r == spec_color_from_code(v),
{
    if v == 0 { Some(PadColors::Off) }
    else if v == 1 { Some(PadColors::Red) }
    else if v == 2 { Some(PadColors::Orange) }
    else if v == 3 { Some(PadColors::LightOrange) }
    else if v == 4 { Some(PadColors::WarmYellow) }
    else if v == 5 { Some(PadColors::Yellow) }
    else if v == 6 { Some(PadColors::Lime) }
    else if v == 7 { Some(PadColors::Green) }
    else if v == 8 { Some(PadColors::Mint) }
    else if v == 9 { Some(PadColors::Cyan) }
    else if v == 10 { Some(PadColors::Turquoise) }
    else if v == 11 { Some(PadColors::Blue) }
    else if v == 12 { Some(PadColors::Plum) }
    else if v == 13 { Some(PadColors::Violet) }
    else if v == 14 { Some(PadColors::Purple) }
    else if v == 15 { Some(PadColors::Magenta) }
    else if v == 16 { Some(PadColors::Fuchsia) }
    else if v == 17 { Some(PadColors::White) }
    else { None }
}

/// The raw light values of the surface: one brightness per button, one
/// colour/brightness pair per pad, one brightness per slider segment.
pub struct LightState {
    pub buttons: Vec<Brightness>,
    pub pads: Vec<(PadColors, Brightness)>,
    pub slider: Vec<Brightness>,
}

/// A well-formed state holds exactly one entry per physical element.
pub open spec fn state_wf(s: &LightState) -> bool {
    &&& s.buttons@.len() == NUM_BUTTONS
    &&& s.pads@.len() == NUM_PADS
    &&& s.slider@.len() == NUM_SLIDER
}

/// Two states hold the same values everywhere.
pub open spec fn state_eq(a: &LightState, b: &LightState) -> bool {
    &&& a.buttons@ == b.buttons@
    &&& a.pads@ == b.pads@
    &&& a.slider@ == b.slider@
}

/// The pad byte of the lighting report packs colour and brightness together.
pub open spec fn spec_pad_byte(p: (PadColors, Brightness)) -> u8 {
    (spec_color_code(p.0) * 4 + spec_brightness_code(p.1)) as u8
}

/// The lighting output report over the three value sequences: a report id
/// followed by one byte per button, one packed byte per pad and one byte
/// per slider segment. The byte layout is the device's fixed external
/// contract.
pub open spec fn spec_light_report_seqs(
    buttons: Seq<Brightness>,
    pads: Seq<(PadColors, Brightness)>,
    slider: Seq<Brightness>,
) -> Seq<u8> {
    Seq::new(LIGHT_REPORT_LEN as nat, |i: int|
        if i == 0 {
            0x80u8
        } else if i < 1 + NUM_BUTTONS {
            spec_brightness_code(buttons[i - 1])
        } else if i < 1 + NUM_BUTTONS + NUM_PADS {
            spec_pad_byte(pads[i - 1 - NUM_BUTTONS])
        } else {
            spec_brightness_code(slider[i - 1 - NUM_BUTTONS - NUM_PADS])
        })
}

/// The lighting output report of a stored state.
pub open spec fn spec_light_report(s: &LightState) -> Seq<u8> {
    spec_light_report_seqs(s.buttons@, s.pads@, s.slider@)
}

/// The button values of the blank state: every light off.
pub open spec fn spec_blank_buttons() -> Seq<Brightness> {
    Seq::new(NUM_BUTTONS as nat, |i: int| Brightness::Off)
}

/// The pad values of the blank state: default colour, light off.
pub open spec fn spec_blank_pads() -> Seq<(PadColors, Brightness)> {
    Seq::new(NUM_PADS as nat, |i: int| (PadColors::Off, Brightness::Off))
}

/// The slider values of the blank state: every segment off.
pub open spec fn spec_blank_slider() -> Seq<Brightness> {
    Seq::new(NUM_SLIDER as nat, |i: int| Brightness::Off)
}

/// Light state store. `state` holds the values as the orchestrator wants
/// them; `written` is a snapshot of the values most recently handed out for
/// a device write, so that a write is only issued when something actually
/// changed since the last one.
pub struct Lights {
    pub state: LightState,
    pub written: LightState,
}

impl Lights {
    /// Both copies are well formed.
    pub open spec fn wf(&self) -> bool {
        state_wf(&self.state) && state_wf(&self.written)
    }

    /// The store needs a device write iff some value changed since the last
    /// write was taken.
    pub open spec fn spec_dirty(&self) -> bool {
        !state_eq(&self.state, &self.written)
    }

    /// A blank state: every light off, every pad on the `Off` colour.
    pub open spec fn spec_blank(s: &LightState) -> bool {
        &&& s.buttons@ == spec_blank_buttons()
        &&& s.pads@ == spec_blank_pads()
        &&& s.slider@ == spec_blank_slider()
    }

    /// A fresh store is blank on both sides, so it is not dirty.
    pub fn new() -> (r: Lights)
        ensures
            r.wf(),
            Self::spec_blank(&r.state),
            Self::spec_blank(&r.written),
            !r.spec_dirty(),
    {
        let state = Self::blank_state();
        let written = Self::blank_state();
        proof {
            assert(state_eq(&state, &written));
        }
        Lights { state, written }
    }

    fn blank_state() -> (r: LightState)
        ensures
            state_wf(&r),
            Self::spec_blank(&r),
    {
        let mut buttons: Vec<Brightness> = Vec::new();
        let mut i: usize = 0;
        while i < NUM_BUTTONS
            invariant
                i <= NUM_BUTTONS,
                buttons@ =~= Seq::<Brightness>::new(i as nat, |j: int| Brightness::Off),
            decreases NUM_BUTTONS - i,
        {
            buttons.push(Brightness::Off);
            i += 1;
        }
        let mut pads: Vec<(PadColors, Brightness)> = Vec::new();
        let mut i: usize = 0;
        while i < NUM_PADS
            invariant
                i <= NUM_PADS,
                pads@ =~= Seq::<(PadColors, Brightness)>::new(
                    i as nat,
                    |j: int| (PadColors::Off, Brightness::Off),
                ),
            decreases NUM_PADS - i,
        {
            pads.push((PadColors::Off, Brightness::Off));
            i += 1;
        }
        let mut slider: Vec<Brightness> = Vec::new();
        let mut i: usize = 0;
        while i < NUM_SLIDER
            invariant
                i <= NUM_SLIDER,
                slider@ =~= Seq::<Brightness>::new(i as nat, |j: int| Brightness::Off),
            decreases NUM_SLIDER - i,
        {
            slider.push(Brightness::Off);
            i += 1;
        }
        LightState { buttons, pads, slider }
    }

    /// True iff the button drives a physical light. Only the encoder's push
    /// switch has none.
    pub fn button_has_light(&self, button: Buttons) -> (r: bool)
        ensures
            r == Self::spec_button_has_light(button),
    {
        !matches!(button, Buttons::Encoder)
    }

    pub open spec fn spec_button_has_light(button: Buttons) -> bool {
        button != Buttons::Encoder
    }

    /// Set one button's brightness; nothing else moves.
    pub fn set_button(&mut self, button: Buttons, b: Brightness)
        requires
            old(self).wf(),
        ensures
            final(self).wf(),
            final(self).state.buttons@ == old(self).state.buttons@.update(
                spec_button_index(button),
                b,
            ),
            final(self).state.pads@ == old(self).state.pads@,
            final(self).state.slider@ == old(self).state.slider@,
            state_eq(&final(self).written, &old(self).written),
    {
        let idx = crate::controls::button_index(button);
        self.state.buttons.set(idx, b);
    }

    /// Current brightness of one button.
    pub fn get_button(&self, button: Buttons) -> (r: Brightness)
        requires
            self.wf(),
        ensures
            r == self.state.buttons@[spec_button_index(button)],
    {
        let idx = crate::controls::button_index(button);
        self.state.buttons[idx]
    }

    /// Set one pad's colour and brightness; nothing else moves.
    pub fn set_pad(&mut self, pad: usize, color: PadColors, b: Brightness)
        requires
            old(self).wf(),
            pad < NUM_PADS,
        ensures
            final(self).wf(),
            final(self).state.pads@ == old(self).state.pads@.update(pad as int, (color, b)),
            final(self).state.buttons@ == old(self).state.buttons@,
            final(self).state.slider@ == old(self).state.slider@,
            state_eq(&final(self).written, &old(self).written),
    {
        self.state.pads.set(pad, (color, b));
    }

    /// Current colour and brightness of one pad.
    pub fn get_pad(&self, pad: usize) -> (r: (PadColors, Brightness))
        requires
            self.wf(),
            pad < NUM_PADS,
        ensures
            r == self.state.pads@[pad as int],
    {
        self.state.pads[pad]
    }

    /// Set one slider segment's brightness; nothing else moves.
    pub fn set_slider(&mut self, seg: usize, b: Brightness)
        requires
            old(self).wf(),
            seg < NUM_SLIDER,
        ensures
            final(self).wf(),
            final(self).state.slider@ == old(self).state.slider@.update(seg as int, b),
            final(self).state.buttons@ == old(self).state.buttons@,
            final(self).state.pads@ == old(self).state.pads@,
            state_eq(&final(self).written, &old(self).written),
    {
        self.state.slider.set(seg, b);
    }

    /// Current brightness of one slider segment.
    pub fn get_slider(&self, seg: usize) -> (r: Brightness)
        requires
            self.wf(),
            seg < NUM_SLIDER,
        ensures
            r == self.state.slider@[seg as int],
    {
        self.state.slider[seg]
    }

    /// Put every element back to off / default colour. The written snapshot
    /// keeps what the device last saw, so the next write goes out iff the
    /// device was showing something.
    pub fn reset(&mut self)
        requires
            old(self).wf(),
        ensures
            final(self).wf(),
            Self::spec_blank(&final(self).state),
            state_eq(&final(self).written, &old(self).written),
    {
        self.state = Self::blank_state();
    }

    /// Serialize the wanted state into the lighting output report.
    pub fn serialize(&self) -> (r: Vec<u8>)
        requires
            self.wf(),
        ensures
            r@ == spec_light_report(&self.state),
    {
        serialize_state(&self.state)
    }

    /// True iff some value changed since the last write was taken.
    pub fn needs_write(&self) -> (r: bool)
        requires
            self.wf(),
        ensures
            r == self.spec_dirty(),
    {
        let beq = brightness_vec_eq(&self.state.buttons, &self.written.buttons);
        let peq = pad_vec_eq(&self.state.pads, &self.written.pads);
        let seq_eq = brightness_vec_eq(&self.state.slider, &self.written.slider);
        !(beq && peq && seq_eq)
    }

    /// Hand out the serialized report if anything changed since the last
    /// write, and record the handed-out values as written; otherwise nothing.
    pub fn take_report_if_changed(&mut self) -> (r: Option<Vec<u8>>)
        requires
            old(self).wf(),
        ensures
            final(self).wf(),
            state_eq(&final(self).state, &old(self).state),
            old(self).spec_dirty() ==> (r matches Some(rep)
                && rep@ == spec_light_report(&old(self).state)
                && state_eq(&final(self).written, &old(self).state)),
            !old(self).spec_dirty() ==> (r is None
                && state_eq(&final(self).written, &old(self).written)),
    {
        if self.needs_write() {
            let rep = serialize_state(&self.state);
            self.written = copy_state(&self.state);
            Some(rep)
        } else {
            None
        }
    }

    /// Hand out the serialized report unconditionally and record the values
    /// as written; used where every step is meant to reach the device.
    pub fn take_report(&mut self) -> (r: Vec<u8>)
        requires
            old(self).wf(),
        ensures
            final(self).wf(),
            state_eq(&final(self).state, &old(self).state),
            r@ == spec_light_report(&old(self).state),
            state_eq(&final(self).written, &old(self).state),
    {
        let rep = serialize_state(&self.state);
        self.written = copy_state(&self.state);
        rep
    }
}

fn copy_state(s: &LightState) -> (r: LightState)
    requires
        state_wf(s),
    ensures
        state_wf(&r),
        state_eq(&r, s),
{
    LightState {
        buttons: copy_vec(&s.buttons),
        pads: copy_vec(&s.pads),
        slider: copy_vec(&s.slider),
    }
}

fn copy_vec<T: Copy>(v: &Vec<T>) -> (r: Vec<T>)
    ensures
        r@ == v@,
{
    let mut out: Vec<T> = Vec::new();
    let n = v.len();
    let mut i: usize = 0;
    while i < n
        invariant
            n == v@.len(),
            i <= n,
            out@ =~= v@.subrange(0, i as int),
        decreases n - i,
    {
        out.push(v[i]);
        i += 1;
    }
    proof {
        assert(out@ =~= v@);
    }
    out
}

fn brightness_vec_eq(a: &Vec<Brightness>, b: &Vec<Brightness>) -> (r: bool)
    requires
        a@.len() == b@.len(),
    ensures
        r == (a@ == b@),
{
    let n = a.len();
    let mut i: usize = 0;
    while i < n
        invariant
            n == a@.len() == b@.len(),
            i <= n,
            forall|j: int| 0 <= j < i ==> a@[j] == b@[j],
        decreases n - i,
    {
        if a[i] != b[i] {
            return false;
        }
        i += 1;
    }
    proof {
        assert(a@ =~= b@);
    }
    true
}

fn pad_vec_eq(a: &Vec<(PadColors, Brightness)>, b: &Vec<(PadColors, Brightness)>) -> (r: bool)
    requires
        a@.len() == b@.len(),
    ensures
        r == (a@ == b@),
{
    let n = a.len();
    let mut i: usize = 0;
    while i < n
        invariant
            n == a@.len() == b@.len(),
            i <= n,
            forall|j: int| 0 <= j < i ==> a@[j] == b@[j],
        decreases n - i,
    {
        let x = a[i];
        let y = b[i];
        if x.0 != y.0 || x.1 != y.1 {
            return false;
        }
        i += 1;
    }
    proof {
        assert(a@ =~= b@);
    }
    true
}

fn serialize_state(s: &LightState) -> (r: Vec<u8>)
    requires
        state_wf(s),
    ensures
        r@ == spec_light_report(s),
{
    let mut out: Vec<u8> = Vec::new();
    out.push(0x80);
    let mut i: usize = 0;
    while i < NUM_BUTTONS
        invariant
            state_wf(s),
            i <= NUM_BUTTONS,
            out@.len() == 1 + i,
            out@[0] == 0x80u8,
            forall|j: int| 0 <= j < i ==> out@[1 + j] == spec_brightness_code(s.buttons@[j]),
        decreases NUM_BUTTONS - i,
    {
        out.push(brightness_code(s.buttons[i]));
        i += 1;
    }
    let mut i: usize = 0;
    while i < NUM_PADS
        invariant
            state_wf(s),
            i <= NUM_PADS,
            out@.len() == 1 + NUM_BUTTONS + i,
            out@[0] == 0x80u8,
            forall|j: int| 0 <= j < NUM_BUTTONS ==> out@[1 + j] == spec_brightness_code(
                s.buttons@[j],
            ),
            forall|j: int| 0 <= j < i ==> out@[1 + NUM_BUTTONS + j] == spec_pad_byte(s.pads@[j]),
        decreases NUM_PADS - i,
    {
        let (c, b) = s.pads[i];
        let byte = color_code(c) * 4 + brightness_code(b);
        out.push(byte);
        i += 1;
    }
    let mut i: usize = 0;
    while i < NUM_SLIDER
        invariant
            state_wf(s),
            i <= NUM_SLIDER,
            out@.len() == 1 + NUM_BUTTONS + NUM_PADS + i,
            out@[0] == 0x80u8,
            forall|j: int| 0 <= j < NUM_BUTTONS ==> out@[1 + j] == spec_brightness_code(
                s.buttons@[j],
            ),
            forall|j: int| 0 <= j < NUM_PADS ==> out@[1 + NUM_BUTTONS + j] == spec_pad_byte(
                s.pads@[j],
            ),
            forall|j: int| 0 <= j < i ==> out@[1 + NUM_BUTTONS + NUM_PADS + j]
                == spec_brightness_code(s.slider@[j]),
        decreases NUM_SLIDER - i,
    {
        out.push(brightness_code(s.slider[i]));
        i += 1;
    }
    proof {
        assert(out@ =~= spec_light_report(s));
    }
    out
}

/// A run of mutations whose net effect leaves every stored value as the
/// device last saw it does not make the store dirty, so no device write is
/// issued for it.
pub proof fn lemma_no_net_change_no_write(l: &Lights)
    requires
        l.wf(),
        state_eq(&l.state, &l.written),
    ensures
        !l.spec_dirty(),
{
}

/// Serialization is a function of the stored values alone: two stores that
/// hold the same values serialize to byte-for-byte identical reports.
pub proof fn lemma_serialize_deterministic(a: &LightState, b: &LightState)
    requires
        state_eq(a, b),
    ensures
        spec_light_report(a) == spec_light_report(b),
{
    assert(spec_light_report(a) =~= spec_light_report(b));
}

} // verus!
