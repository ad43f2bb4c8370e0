//! The orchestrator: owns the light store, the framebuffer and the
//! configuration-derived state, turns one input report into light-state
//! updates, at most one lighting report, and the note messages to emit.

use vstd::prelude::*;
use crate::config::ConfigValues;
use crate::controls::{
    PadEventType, PadRecord, NUM_BUTTONS, REPORT_LEN,
    spec_bit, spec_button_from_index, spec_button_states, spec_pad_records,
    spec_slider_brightness, spec_slider_target, spec_velocity,
    button_from_index, decode_button_report, decode_pad_report, slider_target, velocity,
    lemma_index_from_index,
};
use crate::lights::{
    Brightness, PadColors, Lights, NUM_PADS, NUM_SLIDER, state_eq, spec_light_report,
    spec_light_report_seqs, spec_blank_buttons, spec_blank_pads, spec_blank_slider,
    spec_color_from_code,
};
use crate::screen::{Screen, spec_screen_report, spec_blank_pixels};
use crate::font::{GLYPH_WIDTH, spec_glyph_column};
use vstd::arithmetic::div_mod::lemma_fundamental_div_mod_converse;

verus! {

/// Relies on midly's `LiveEvent::write` for `MidiMessage::NoteOn` on
/// channel 0: it emits the note-on status byte followed by the key and
/// velocity bytes.
#[verifier::external_body]
fn encode_note_on(key: u8, vel: u8) -> (r: Vec<u8>)
    requires
        key < 128,
        vel < 128,
    ensures
        r@ == seq![0x90u8, key, vel],
{
    let message = midly::MidiMessage::NoteOn { key: key.into(), vel: vel.into() };
    let ev = midly::live::LiveEvent::Midi { channel: 0.into(), message };
    let mut out: Vec<u8> = Vec::new();
    ev.write(&mut out).unwrap();
    out
}

/// Relies on midly's `LiveEvent::write` for `MidiMessage::NoteOff` on
/// channel 0: it emits the note-off status byte followed by the key and
/// velocity bytes.
#[verifier::external_body]
fn encode_note_off(key: u8, vel: u8) -> (r: Vec<u8>)
    requires
        key < 128,
        vel < 128,
    ensures
        r@ == seq![0x80u8, key, vel],
{
    let message = midly::MidiMessage::NoteOff { key: key.into(), vel: vel.into() };
    let ev = midly::live::LiveEvent::Midi { channel: 0.into(), message };
    let mut out: Vec<u8> = Vec::new();
    ev.write(&mut out).unwrap();
    out
}

/// The brightness a mapped button takes after a button/analog report:
/// pressed buttons light `Normal`, released ones fall back to the idle
/// `Dim` glow, and nothing moves when the pressed state already agrees with
/// the lit state or the button has no light.
pub open spec fn spec_button_next(buttons: Seq<Brightness>, buf: Seq<u8>, k: int) -> Brightness {
    let b = spec_button_from_index(k).unwrap();
    if !Lights::spec_button_has_light(b) {
        buttons[k]
    } else {
        let status = spec_bit(buf, k);
        let lit = buttons[k] != Brightness::Off;
        if status != lit {
            if status {
                Brightness::Normal
            } else {
                Brightness::Dim
            }
        } else {
            buttons[k]
        }
    }
}

/// All button brightness values after a button/analog report.
pub open spec fn spec_button_light_update(buttons: Seq<Brightness>, buf: Seq<u8>) -> Seq<
    Brightness,
> {
    Seq::new(NUM_BUTTONS as nat, |k: int| spec_button_next(buttons, buf, k))
}

/// The slider bar centred on segment `c`, over all segments.
pub open spec fn spec_slider_seq(c: int) -> Seq<Brightness> {
    Seq::new(NUM_SLIDER as nat, |i: int| spec_slider_brightness(c, i))
}

/// The pad feedback brightness a pad event asks for.
pub open spec fn spec_target_brightness(e: PadEventType, value: u16, cfg: ConfigValues)
    -> Brightness {
    match e {
        PadEventType::NoteOn | PadEventType::PressOn => cfg.brightness_on,
        PadEventType::NoteOff | PadEventType::PressOff => cfg.brightness_off,
        PadEventType::Aftertouch => if value > 0 {
            cfg.brightness_on
        } else {
            cfg.brightness_off
        },
    }
}

/// One pad record applied to the pad light state: a record for a pad the
/// surface does not have is skipped; otherwise the pad takes its configured
/// colour and the event's brightness, but only when the brightness actually
/// changes.
pub open spec fn spec_pad_step(
    pads: Seq<(PadColors, Brightness)>,
    rec: PadRecord,
    cfg: ConfigValues,
) -> Seq<(PadColors, Brightness)> {
    if rec.pad >= NUM_PADS {
        pads
    } else {
        let b = spec_target_brightness(rec.event, rec.value, cfg);
        if pads[rec.pad as int].1 != b {
            pads.update(rec.pad as int, (cfg.pad_colors@[rec.pad as int], b))
        } else {
            pads
        }
    }
}

/// All pad records of a report applied in order.
pub open spec fn spec_apply_pads(
    pads: Seq<(PadColors, Brightness)>,
    records: Seq<PadRecord>,
    cfg: ConfigValues,
) -> Seq<(PadColors, Brightness)>
    decreases records.len(),
{
    if records.len() == 0 {
        pads
    } else {
        spec_apply_pads(spec_pad_step(pads, records[0], cfg), records.drop_first(), cfg)
    }
}

/// The note messages one pad record emits: note-on for `NoteOn`/`PressOn`,
/// note-off for `NoteOff`/`PressOff`, nothing for aftertouch or for a pad
/// the surface does not have.
pub open spec fn spec_record_msgs(rec: PadRecord, cfg: ConfigValues) -> Seq<Seq<u8>> {
    if rec.pad >= NUM_PADS {
        Seq::empty()
    } else {
        let key = cfg.note_maps@[rec.pad as int];
        let vel = spec_velocity(rec.value, cfg.sensitivity_milli);
        match rec.event {
            PadEventType::NoteOn | PadEventType::PressOn => seq![seq![0x90u8, key, vel]],
            PadEventType::NoteOff | PadEventType::PressOff => seq![seq![0x80u8, key, vel]],
            PadEventType::Aftertouch => Seq::empty(),
        }
    }
}

/// The note messages of all records of a report, in record order.
pub open spec fn spec_pad_midi(records: Seq<PadRecord>, cfg: ConfigValues) -> Seq<Seq<u8>>
    decreases records.len(),
{
    if records.len() == 0 {
        Seq::empty()
    } else {
        spec_record_msgs(records[0], cfg) + spec_pad_midi(records.drop_first(), cfg)
    }
}

proof fn lemma_apply_pads_push(
    pads: Seq<(PadColors, Brightness)>,
    s: Seq<PadRecord>,
    r: PadRecord,
    cfg: ConfigValues,
)
    ensures
        spec_apply_pads(pads, s.push(r), cfg) == spec_pad_step(
            spec_apply_pads(pads, s, cfg),
            r,
            cfg,
        ),
    decreases s.len(),
{
    if s.len() == 0 {
        assert(s.push(r)[0] == r);
        assert(s.push(r).drop_first() =~= Seq::<PadRecord>::empty());
        assert(spec_apply_pads(pads, s.push(r), cfg) == spec_apply_pads(
            spec_pad_step(pads, r, cfg),
            Seq::<PadRecord>::empty(),
            cfg,
        ));
        assert(spec_apply_pads(spec_pad_step(pads, r, cfg), Seq::<PadRecord>::empty(), cfg)
            == spec_pad_step(pads, r, cfg));
        assert(spec_apply_pads(pads, s, cfg) == pads);
    } else {
        assert(s.push(r)[0] == s[0]);
        assert(s.push(r).drop_first() =~= s.drop_first().push(r));
        lemma_apply_pads_push(spec_pad_step(pads, s[0], cfg), s.drop_first(), r, cfg);
        assert(spec_apply_pads(pads, s.push(r), cfg) == spec_apply_pads(
            spec_pad_step(pads, s[0], cfg),
            s.drop_first().push(r),
            cfg,
        ));
        assert(spec_apply_pads(pads, s, cfg) == spec_apply_pads(
            spec_pad_step(pads, s[0], cfg),
            s.drop_first(),
            cfg,
        ));
    }
}

proof fn lemma_pad_midi_push(s: Seq<PadRecord>, r: PadRecord, cfg: ConfigValues)
    ensures
        spec_pad_midi(s.push(r), cfg) == spec_pad_midi(s, cfg) + spec_record_msgs(r, cfg),
    decreases s.len(),
{
    if s.len() == 0 {
        assert(s.push(r)[0] == r);
        assert(s.push(r).drop_first() =~= Seq::<PadRecord>::empty());
        assert(spec_pad_midi(s.push(r), cfg) == spec_record_msgs(r, cfg) + spec_pad_midi(
            Seq::<PadRecord>::empty(),
            cfg,
        ));
        assert(spec_pad_midi(Seq::<PadRecord>::empty(), cfg) == Seq::<Seq<u8>>::empty());
        assert(spec_pad_midi(s, cfg) == Seq::<Seq<u8>>::empty());
        assert(spec_pad_midi(s.push(r), cfg) =~= spec_pad_midi(s, cfg) + spec_record_msgs(
            r,
            cfg,
        ));
    } else {
        assert(s.push(r)[0] == s[0]);
        assert(s.push(r).drop_first() =~= s.drop_first().push(r));
        lemma_pad_midi_push(s.drop_first(), r, cfg);
        assert(spec_pad_midi(s.push(r), cfg) == spec_record_msgs(s[0], cfg) + (spec_pad_midi(
            s.drop_first(),
            cfg,
        ) + spec_record_msgs(r, cfg)));
        assert(spec_pad_midi(s, cfg) == spec_record_msgs(s[0], cfg) + spec_pad_midi(
            s.drop_first(),
            cfg,
        ));
        assert(spec_pad_midi(s.push(r), cfg) =~= spec_pad_midi(s, cfg) + spec_record_msgs(
            r,
            cfg,
        ));
    }
}

/// What one handled input report produced: the note messages to emit, in
/// order, and the lighting report to write, when something changed.
pub struct LoopOutput {
    pub midi: Vec<Vec<u8>>,
    pub light_report: Option<Vec<u8>>,
}

/// The orchestrator's state: the light store, the framebuffer and the
/// read-only configuration-derived values.
pub struct Controller {
    pub lights: Lights,
    pub screen: Screen,
    pub cfg: ConfigValues,
}

impl Controller {
    pub open spec fn wf(&self) -> bool {
        self.lights.wf() && self.screen.wf() && self.cfg.wf()
    }

    /// A fresh orchestrator: blank lights and display.
    pub fn new(cfg: ConfigValues) -> (r: Controller)
        requires
            cfg.wf(),
        ensures
            r.wf(),
            r.cfg == cfg,
            Lights::spec_blank(&r.lights.state),
            !r.lights.spec_dirty(),
            r.screen.spec_blank(),
    {
        Controller { lights: Lights::new(), screen: Screen::new(), cfg }
    }

    /// Apply a button/analog report to the light state: press/release
    /// feedback for every mapped button with a light, and the slider bar
    /// when the slider byte reports a touch.
    fn apply_button_report(&mut self, buf: &Vec<u8>)
        requires
            old(self).wf(),
            buf@.len() == REPORT_LEN,
        ensures
            final(self).wf(),
            final(self).cfg == old(self).cfg,
            final(self).screen == old(self).screen,
            final(self).lights.state.buttons@ == spec_button_light_update(
                old(self).lights.state.buttons@,
                buf@,
            ),
            final(self).lights.state.pads@ == old(self).lights.state.pads@,
            buf@[10] != 0 ==> final(self).lights.state.slider@ == spec_slider_seq(
                spec_slider_target(buf@[10]),
            ),
            buf@[10] == 0 ==> final(self).lights.state.slider@ == old(
                self,
            ).lights.state.slider@,
            state_eq(&final(self).lights.written, &old(self).lights.written),
    {
        let ghost old_buttons = self.lights.state.buttons@;
        let decoded = decode_button_report(buf);
        let mut k: usize = 0;
        while k < NUM_BUTTONS
            invariant
                self.wf(),
                buf@.len() == REPORT_LEN,
                k <= NUM_BUTTONS,
                decoded.states@ == spec_button_states(buf@),
                decoded.slider == buf@[10],
                self.cfg == old(self).cfg,
                self.screen == old(self).screen,
                old_buttons == old(self).lights.state.buttons@,
                self.lights.state.buttons@.len() == NUM_BUTTONS,
                forall|j: int| 0 <= j < k ==> self.lights.state.buttons@[j]
                    == spec_button_next(old_buttons, buf@, j),
                forall|j: int| k <= j < NUM_BUTTONS ==> self.lights.state.buttons@[j]
                    == old_buttons[j],
                self.lights.state.pads@ == old(self).lights.state.pads@,
                self.lights.state.slider@ == old(self).lights.state.slider@,
                state_eq(&self.lights.written, &old(self).lights.written),
            decreases NUM_BUTTONS - k,
        {
            proof {
                lemma_index_from_index(k as int);
            }
            let (button, status) = decoded.states[k];
            if self.lights.button_has_light(button) {
                let lit = {
                    let b = self.lights.get_button(button);
                    !matches!(b, Brightness::Off)
                };
                if status != lit {
                    self.lights.set_button(
                        button,
                        if status {
                            Brightness::Normal
                        } else {
                            Brightness::Dim
                        },
                    );
                }
            }
            k += 1;
        }
        proof {
            assert(self.lights.state.buttons@ =~= spec_button_light_update(old_buttons, buf@));
        }
        let slider_val = decoded.slider;
        if slider_val != 0 {
            let c = slider_target(slider_val);
            let mut i: usize = 0;
            while i < NUM_SLIDER
                invariant
                    self.wf(),
                    i <= NUM_SLIDER,
                    c as int == spec_slider_target(slider_val),
                    self.cfg == old(self).cfg,
                    self.screen == old(self).screen,
                    self.lights.state.buttons@ == spec_button_light_update(
                        old_buttons,
                        buf@,
                    ),
                    self.lights.state.pads@ == old(self).lights.state.pads@,
                    self.lights.state.slider@.len() == NUM_SLIDER,
                    forall|j: int| 0 <= j < i ==> self.lights.state.slider@[j]
                        == spec_slider_brightness(c as int, j),
                    state_eq(&self.lights.written, &old(self).lights.written),
                decreases NUM_SLIDER - i,
            {
                let b = if i == c as usize {
                    Brightness::Normal
                } else if i < c as usize {
                    Brightness::Dim
                } else {
                    Brightness::Off
                };
                self.lights.set_slider(i, b);
                i += 1;
            }
            proof {
                assert(self.lights.state.slider@ =~= spec_slider_seq(
                    spec_slider_target(slider_val),
                ));
            }
        }
    }

    /// Apply the decoded pad records in order: light feedback per pad and
    /// one note message per note/press record, none for aftertouch.
    fn apply_pad_records(&mut self, records: &Vec<PadRecord>) -> (midi: Vec<Vec<u8>>)
        requires
            old(self).wf(),
        ensures
            final(self).wf(),
            final(self).cfg == old(self).cfg,
            final(self).screen == old(self).screen,
            final(self).lights.state.buttons@ == old(self).lights.state.buttons@,
            final(self).lights.state.slider@ == old(self).lights.state.slider@,
            final(self).lights.state.pads@ == spec_apply_pads(
                old(self).lights.state.pads@,
                records@,
                old(self).cfg,
            ),
            state_eq(&final(self).lights.written, &old(self).lights.written),
            midi@.len() == spec_pad_midi(records@, old(self).cfg).len(),
            forall|i: int| 0 <= i < midi@.len() ==> (#[trigger] midi@[i])@ == spec_pad_midi(
                records@,
                old(self).cfg,
            )[i],
    {
        let ghost old_pads = self.lights.state.pads@;
        let ghost cfg = self.cfg;
        let mut midi: Vec<Vec<u8>> = Vec::new();
        let n = records.len();
        let mut i: usize = 0;
        while i < n
            invariant
                self.wf(),
                n == records@.len(),
                i <= n,
                self.cfg == old(self).cfg,
                cfg == old(self).cfg,
                self.screen == old(self).screen,
                old_pads == old(self).lights.state.pads@,
                self.lights.state.buttons@ == old(self).lights.state.buttons@,
                self.lights.state.slider@ == old(self).lights.state.slider@,
                self.lights.state.pads@ == spec_apply_pads(
                    old_pads,
                    records@.subrange(0, i as int),
                    cfg,
                ),
                state_eq(&self.lights.written, &old(self).lights.written),
                midi@.len() == spec_pad_midi(records@.subrange(0, i as int), cfg).len(),
                forall|j: int| 0 <= j < midi@.len() ==> (#[trigger] midi@[j])@
                    == spec_pad_midi(records@.subrange(0, i as int), cfg)[j],
            decreases n - i,
        {
            let rec = records[i];
            proof {
                assert(records@.subrange(0, i + 1) =~= records@.subrange(0, i as int).push(
                    rec,
                ));
                lemma_apply_pads_push(old_pads, records@.subrange(0, i as int), rec, cfg);
                lemma_pad_midi_push(records@.subrange(0, i as int), rec, cfg);
            }
            if (rec.pad as usize) < NUM_PADS {
                let pad = rec.pad as usize;
                let (_, prev_b) = self.lights.get_pad(pad);
                let b = match rec.event {
                    PadEventType::NoteOn | PadEventType::PressOn => self.cfg.brightness_on,
                    PadEventType::NoteOff | PadEventType::PressOff => self.cfg.brightness_off,
                    PadEventType::Aftertouch => if rec.value > 0 {
                        self.cfg.brightness_on
                    } else {
                        self.cfg.brightness_off
                    },
                };
                if prev_b != b {
                    let color = self.cfg.pad_colors[pad];
                    self.lights.set_pad(pad, color, b);
                }
                let key = self.cfg.note_maps[pad];
                let vel = velocity(rec.value, self.cfg.sensitivity_milli);
                match rec.event {
                    PadEventType::NoteOn | PadEventType::PressOn => {
                        midi.push(encode_note_on(key, vel));
                    }
                    PadEventType::NoteOff | PadEventType::PressOff => {
                        midi.push(encode_note_off(key, vel));
                    }
                    PadEventType::Aftertouch => {}
                }
            }
            i += 1;
        }
        proof {
            assert(records@.subrange(0, n as int) =~= records@);
        }
        midi
    }

    /// Handle one raw input report: decode by its type byte, update the
    /// light state, and hand back the note messages together with the
    /// lighting report when some light value changed since the last write.
    /// Any other type byte leaves the wanted state alone.
    pub fn handle_report(&mut self, buf: &Vec<u8>) -> (r: LoopOutput)
        requires
            old(self).wf(),
            buf@.len() == REPORT_LEN,
        ensures
            final(self).wf(),
            final(self).cfg == old(self).cfg,
            final(self).screen == old(self).screen,
            buf@[0] == 0x01 ==> {
                &&& final(self).lights.state.buttons@ == spec_button_light_update(
                    old(self).lights.state.buttons@,
                    buf@,
                )
                &&& final(self).lights.state.pads@ == old(self).lights.state.pads@
                &&& (buf@[10] != 0 ==> final(self).lights.state.slider@ == spec_slider_seq(
                    spec_slider_target(buf@[10]),
                ))
                &&& (buf@[10] == 0 ==> final(self).lights.state.slider@ == old(
                    self,
                ).lights.state.slider@)
                &&& r.midi@.len() == 0
            },
            buf@[0] == 0x02 ==> {
                &&& final(self).lights.state.buttons@ == old(self).lights.state.buttons@
                &&& final(self).lights.state.slider@ == old(self).lights.state.slider@
                &&& final(self).lights.state.pads@ == spec_apply_pads(
                    old(self).lights.state.pads@,
                    spec_pad_records(buf@),
                    old(self).cfg,
                )
                &&& r.midi@.len() == spec_pad_midi(
                    spec_pad_records(buf@),
                    old(self).cfg,
                ).len()
                &&& forall|i: int| 0 <= i < r.midi@.len() ==> (#[trigger] r.midi@[i])@
                    == spec_pad_midi(spec_pad_records(buf@), old(self).cfg)[i]
            },
            buf@[0] != 0x01 && buf@[0] != 0x02 ==> {
                &&& state_eq(&final(self).lights.state, &old(self).lights.state)
                &&& r.midi@.len() == 0
            },
            !state_eq(&final(self).lights.state, &old(self).lights.written) ==> (
            r.light_report matches Some(rep) && rep@ == spec_light_report(
                &final(self).lights.state,
            ) && state_eq(&final(self).lights.written, &final(self).lights.state)),
            state_eq(&final(self).lights.state, &old(self).lights.written) ==> (
            r.light_report is None && state_eq(
                &final(self).lights.written,
                &old(self).lights.written,
            )),
    {
        let mut midi: Vec<Vec<u8>> = Vec::new();
        if buf[0] == 0x01 {
            self.apply_button_report(buf);
        } else if buf[0] == 0x02 {
            let records = decode_pad_report(buf);
            midi = self.apply_pad_records(&records);
        }
        let light_report = self.lights.take_report_if_changed();
        LoopOutput { midi, light_report }
    }

    /// Put every pad on its configured colour at the note-off feedback
    /// brightness; buttons and slider stay.
    pub fn init_pads(&mut self)
        requires
            old(self).wf(),
        ensures
            final(self).wf(),
            final(self).cfg == old(self).cfg,
            final(self).screen == old(self).screen,
            final(self).lights.state.buttons@ == old(self).lights.state.buttons@,
            final(self).lights.state.slider@ == old(self).lights.state.slider@,
            final(self).lights.state.pads@ == Seq::new(
                NUM_PADS as nat,
                |i: int| (old(self).cfg.pad_colors@[i], old(self).cfg.brightness_off),
            ),
            state_eq(&final(self).lights.written, &old(self).lights.written),
    {
        let mut i: usize = 0;
        while i < NUM_PADS
            invariant
                self.wf(),
                i <= NUM_PADS,
                self.cfg == old(self).cfg,
                self.screen == old(self).screen,
                self.lights.state.buttons@ == old(self).lights.state.buttons@,
                self.lights.state.slider@ == old(self).lights.state.slider@,
                self.lights.state.pads@.len() == NUM_PADS,
                forall|j: int| 0 <= j < i ==> self.lights.state.pads@[j] == (
                    old(self).cfg.pad_colors@[j],
                    old(self).cfg.brightness_off,
                ),
                forall|j: int| i <= j < NUM_PADS ==> self.lights.state.pads@[j] == old(
                    self,
                ).lights.state.pads@[j],
                state_eq(&self.lights.written, &old(self).lights.written),
            decreases NUM_PADS - i,
        {
            let color = self.cfg.pad_colors[i];
            let b = self.cfg.brightness_off;
            self.lights.set_pad(i, color, b);
            i += 1;
        }
        proof {
            assert(self.lights.state.pads@ =~= Seq::new(
                NUM_PADS as nat,
                |i: int| (old(self).cfg.pad_colors@[i], old(self).cfg.brightness_off),
            ));
        }
    }
}

/// One output report of the startup self-test, tagged by the endpoint it
/// goes to.
pub enum OutputReport {
    Lighting(Vec<u8>),
    Display(Vec<u8>),
}

/// The brightness of step `l` of a Bright, Normal, Dim cycle.
pub open spec fn spec_cycle_level(l: int) -> Brightness {
    if l == 0 {
        Brightness::Bright
    } else if l == 1 {
        Brightness::Normal
    } else {
        Brightness::Dim
    }
}

/// The buttons while the self-test holds button `m` at cycle step `l`:
/// earlier buttons have finished their cycle at `Dim`, later ones still
/// hold their starting value.
pub open spec fn spec_buttons_cycled(ob: Seq<Brightness>, m: int, l: int) -> Seq<Brightness> {
    Seq::new(
        NUM_BUTTONS as nat,
        |j: int|
            if j < m {
                Brightness::Dim
            } else if j == m {
                spec_cycle_level(l)
            } else {
                ob[j]
            },
    )
}

/// Every button at the `Dim` the button cycle ends on.
pub open spec fn spec_dim_buttons() -> Seq<Brightness> {
    Seq::new(NUM_BUTTONS as nat, |j: int| Brightness::Dim)
}

/// Pad `m` at cycle step `l`: the colour two palette codes up at `Bright`,
/// then the colour one code up at `Normal` and again at `Dim`.
pub open spec fn spec_test_pad(m: int, l: int) -> (PadColors, Brightness) {
    if l == 0 {
        (spec_color_from_code((m + 2) as u8).unwrap(), Brightness::Bright)
    } else {
        (spec_color_from_code((m + 1) as u8).unwrap(), spec_cycle_level(l))
    }
}

/// The pads while the self-test holds pad `m` at cycle step `l`.
pub open spec fn spec_pads_cycled(op: Seq<(PadColors, Brightness)>, m: int, l: int) -> Seq<
    (PadColors, Brightness),
> {
    Seq::new(
        NUM_PADS as nat,
        |j: int|
            if j < m {
                spec_test_pad(j, 2)
            } else if j == m {
                spec_test_pad(m, l)
            } else {
                op[j]
            },
    )
}

/// Every pad as the pad cycle leaves it.
pub open spec fn spec_dim_pads() -> Seq<(PadColors, Brightness)> {
    Seq::new(NUM_PADS as nat, |j: int| spec_test_pad(j, 2))
}

/// The slider while the self-test holds segment `m` at cycle step `l`.
pub open spec fn spec_slider_cycled(os: Seq<Brightness>, m: int, l: int) -> Seq<Brightness> {
    Seq::new(
        NUM_SLIDER as nat,
        |j: int|
            if j < m {
                Brightness::Dim
            } else if j == m {
                spec_cycle_level(l)
            } else {
                os[j]
            },
    )
}

/// One digit glyph drawn over a framebuffer at page 0, column `x`.
pub open spec fn spec_draw_digit(pixels: Seq<u8>, x: int, digit: u8) -> Seq<u8> {
    Seq::new(
        pixels.len(),
        |i: int|
            if x <= i < x + GLYPH_WIDTH {
                spec_glyph_column(digit, i - x)
            } else {
                pixels[i]
            },
    )
}

/// The framebuffer after the first `n` digit frames of the self-test:
/// the digits 1, 3, 3, 7 drawn cumulatively at page 0, offsets 0, 32, 64
/// and 96.
pub open spec fn spec_selftest_screen(base: Seq<u8>, n: int) -> Seq<u8> {
    let p1 = spec_draw_digit(base, 0, 1);
    let p2 = spec_draw_digit(p1, 32, 3);
    let p3 = spec_draw_digit(p2, 64, 3);
    let p4 = spec_draw_digit(p3, 96, 7);
    if n <= 0 {
        base
    } else if n == 1 {
        p1
    } else if n == 2 {
        p2
    } else if n == 3 {
        p3
    } else {
        p4
    }
}

/// Report `i` of the self-test goes to the display; the rest go to the
/// lights.
pub open spec fn spec_selftest_is_display(i: int) -> bool {
    i < 4 || i == 245
}

/// The bytes of report `i` of the self-test, starting from the given
/// button, pad and slider values and framebuffer: four cumulative digit
/// frames, one lighting report after each step of each element's
/// Bright, Normal, Dim cycle — buttons first, then pads, then slider
/// segments — and finally the blank lighting and blank display reports.
pub open spec fn spec_selftest_bytes(
    ob: Seq<Brightness>,
    op: Seq<(PadColors, Brightness)>,
    os: Seq<Brightness>,
    base: Seq<u8>,
    i: int,
) -> Seq<u8> {
    if i < 4 {
        spec_screen_report(spec_selftest_screen(base, i + 1))
    } else if i < 121 {
        spec_light_report_seqs(spec_buttons_cycled(ob, (i - 4) / 3, (i - 4) % 3), op, os)
    } else if i < 169 {
        spec_light_report_seqs(
            spec_dim_buttons(),
            spec_pads_cycled(op, (i - 121) / 3, (i - 121) % 3),
            os,
        )
    } else if i < 244 {
        spec_light_report_seqs(
            spec_dim_buttons(),
            spec_dim_pads(),
            spec_slider_cycled(os, (i - 169) / 3, (i - 169) % 3),
        )
    } else if i == 244 {
        spec_light_report_seqs(spec_blank_buttons(), spec_blank_pads(), spec_blank_slider())
    } else {
        spec_screen_report(spec_blank_pixels())
    }
}

/// Every element of `r` is exactly report `i` of the self-test sequence
/// started from the given values.
pub open spec fn spec_selftest_outputs(
    r: Seq<OutputReport>,
    ob: Seq<Brightness>,
    op: Seq<(PadColors, Brightness)>,
    os: Seq<Brightness>,
    base: Seq<u8>,
) -> bool {
    forall|i: int|
        0 <= i < r.len() ==> match #[trigger] r[i] {
            OutputReport::Display(v) => spec_selftest_is_display(i) && v@
                == spec_selftest_bytes(ob, op, os, base, i),
            OutputReport::Lighting(v) => !spec_selftest_is_display(i) && v@
                == spec_selftest_bytes(ob, op, os, base, i),
        }
}

impl Controller {
    /// The startup self-test: the digits 1, 3, 3, 7 drawn at page 0,
    /// offsets 0, 32, 64 and 96, a display report after each; every button,
    /// pad and slider segment cycled through Bright, Normal, Dim with a
    /// lighting report after each step; then lights and display reset to
    /// blank. `spec_selftest_bytes` gives each of the 246 reports exactly;
    /// afterwards both the light state and the display are blank and the
    /// written snapshot agrees with the device.
    pub fn self_test_reports(&mut self) -> (r: Vec<OutputReport>)
        requires
            old(self).wf(),
        ensures
            final(self).wf(),
            final(self).cfg == old(self).cfg,
            Lights::spec_blank(&final(self).lights.state),
            state_eq(&final(self).lights.written, &final(self).lights.state),
            final(self).screen.spec_blank(),
            r@.len() == 246,
            spec_selftest_outputs(
                r@,
                old(self).lights.state.buttons@,
                old(self).lights.state.pads@,
                old(self).lights.state.slider@,
                old(self).screen.pixels@,
            ),
    {
        let ghost ob: Seq<Brightness> = self.lights.state.buttons@;
        let ghost op: Seq<(PadColors, Brightness)> = self.lights.state.pads@;
        let ghost os: Seq<Brightness> = self.lights.state.slider@;
        let ghost base: Seq<u8> = self.screen.pixels@;
        let mut out: Vec<OutputReport> = Vec::new();
        crate::font::Font::write_digit(&mut self.screen, 0, 0, 1, 4);
        proof {
            assert(self.screen.pixels@ =~= spec_draw_digit(base, 0, 1));
        }
        out.push(OutputReport::Display(self.screen.serialize()));
        crate::font::Font::write_digit(&mut self.screen, 0, 32, 3, 4);
        proof {
            assert(self.screen.pixels@ =~= spec_selftest_screen(base, 2));
        }
        out.push(OutputReport::Display(self.screen.serialize()));
        crate::font::Font::write_digit(&mut self.screen, 0, 64, 3, 4);
        proof {
            assert(self.screen.pixels@ =~= spec_selftest_screen(base, 3));
        }
        out.push(OutputReport::Display(self.screen.serialize()));
        crate::font::Font::write_digit(&mut self.screen, 0, 96, 7, 4);
        proof {
            assert(self.screen.pixels@ =~= spec_selftest_screen(base, 4));
        }
        out.push(OutputReport::Display(self.screen.serialize()));
        let mut i: usize = 0;
        while i < NUM_BUTTONS
            invariant
                self.wf(),
                i <= NUM_BUTTONS,
                self.cfg == old(self).cfg,
                out@.len() == 4 + 3 * i,
                spec_selftest_outputs(out@, ob, op, os, base),
                self.lights.state.buttons@.len() == NUM_BUTTONS,
                forall|j: int| 0 <= j < i ==> self.lights.state.buttons@[j]
                    == Brightness::Dim,
                forall|j: int| i <= j < NUM_BUTTONS ==> self.lights.state.buttons@[j]
                    == ob[j],
                self.lights.state.pads@ == op,
                self.lights.state.slider@ == os,
            decreases NUM_BUTTONS - i,
        {
            let button = button_from_index(i).unwrap();
            proof {
                lemma_index_from_index(i as int);
            }
            self.lights.set_button(button, Brightness::Bright);
            proof {
                assert(self.lights.state.buttons@ =~= spec_buttons_cycled(ob, i as int, 0));
                lemma_fundamental_div_mod_converse(3 * (i as int), 3, i as int, 0);
            }
            out.push(OutputReport::Lighting(self.lights.take_report()));
            self.lights.set_button(button, Brightness::Normal);
            proof {
                assert(self.lights.state.buttons@ =~= spec_buttons_cycled(ob, i as int, 1));
                lemma_fundamental_div_mod_converse(3 * (i as int) + 1, 3, i as int, 1);
            }
            out.push(OutputReport::Lighting(self.lights.take_report()));
            self.lights.set_button(button, Brightness::Dim);
            proof {
                assert(self.lights.state.buttons@ =~= spec_buttons_cycled(ob, i as int, 2));
                lemma_fundamental_div_mod_converse(3 * (i as int) + 2, 3, i as int, 2);
            }
            out.push(OutputReport::Lighting(self.lights.take_report()));
            i += 1;
        }
        proof {
            assert(self.lights.state.buttons@ =~= spec_dim_buttons());
        }
        let mut i: usize = 0;
        while i < NUM_PADS
            invariant
                self.wf(),
                i <= NUM_PADS,
                self.cfg == old(self).cfg,
                out@.len() == 121 + 3 * i,
                spec_selftest_outputs(out@, ob, op, os, base),
                self.lights.state.buttons@ == spec_dim_buttons(),
                self.lights.state.pads@.len() == NUM_PADS,
                forall|j: int| 0 <= j < i ==> self.lights.state.pads@[j] == spec_test_pad(
                    j,
                    2,
                ),
                forall|j: int| i <= j < NUM_PADS ==> self.lights.state.pads@[j] == op[j],
                self.lights.state.slider@ == os,
            decreases NUM_PADS - i,
        {
            let color = crate::lights::color_from_code((i as u8) + 2).unwrap();
            self.lights.set_pad(i, color, Brightness::Bright);
            proof {
                assert(self.lights.state.pads@ =~= spec_pads_cycled(op, i as int, 0));
                lemma_fundamental_div_mod_converse(3 * (i as int), 3, i as int, 0);
            }
            out.push(OutputReport::Lighting(self.lights.take_report()));
            let color = crate::lights::color_from_code((i as u8) + 1).unwrap();
            self.lights.set_pad(i, color, Brightness::Normal);
            proof {
                assert(self.lights.state.pads@ =~= spec_pads_cycled(op, i as int, 1));
                lemma_fundamental_div_mod_converse(3 * (i as int) + 1, 3, i as int, 1);
            }
            out.push(OutputReport::Lighting(self.lights.take_report()));
            self.lights.set_pad(i, color, Brightness::Dim);
            proof {
                assert(self.lights.state.pads@ =~= spec_pads_cycled(op, i as int, 2));
                lemma_fundamental_div_mod_converse(3 * (i as int) + 2, 3, i as int, 2);
            }
            out.push(OutputReport::Lighting(self.lights.take_report()));
            i += 1;
        }
        proof {
            assert(self.lights.state.pads@ =~= spec_dim_pads());
        }
        let mut i: usize = 0;
        while i < NUM_SLIDER
            invariant
                self.wf(),
                i <= NUM_SLIDER,
                self.cfg == old(self).cfg,
                out@.len() == 169 + 3 * i,
                spec_selftest_outputs(out@, ob, op, os, base),
                self.lights.state.buttons@ == spec_dim_buttons(),
                self.lights.state.pads@ == spec_dim_pads(),
                self.lights.state.slider@.len() == NUM_SLIDER,
                forall|j: int| 0 <= j < i ==> self.lights.state.slider@[j]
                    == Brightness::Dim,
                forall|j: int| i <= j < NUM_SLIDER ==> self.lights.state.slider@[j]
                    == os[j],
            decreases NUM_SLIDER - i,
        {
            self.lights.set_slider(i, Brightness::Bright);
            proof {
                assert(self.lights.state.slider@ =~= spec_slider_cycled(os, i as int, 0));
                lemma_fundamental_div_mod_converse(3 * (i as int), 3, i as int, 0);
            }
            out.push(OutputReport::Lighting(self.lights.take_report()));
            self.lights.set_slider(i, Brightness::Normal);
            proof {
                assert(self.lights.state.slider@ =~= spec_slider_cycled(os, i as int, 1));
                lemma_fundamental_div_mod_converse(3 * (i as int) + 1, 3, i as int, 1);
            }
            out.push(OutputReport::Lighting(self.lights.take_report()));
            self.lights.set_slider(i, Brightness::Dim);
            proof {
                assert(self.lights.state.slider@ =~= spec_slider_cycled(os, i as int, 2));
                lemma_fundamental_div_mod_converse(3 * (i as int) + 2, 3, i as int, 2);
            }
            out.push(OutputReport::Lighting(self.lights.take_report()));
            i += 1;
        }
        self.lights.reset();
        out.push(OutputReport::Lighting(self.lights.take_report()));
        self.screen.reset();
        out.push(OutputReport::Display(self.screen.serialize()));
        out
    }
}

} // verus!
