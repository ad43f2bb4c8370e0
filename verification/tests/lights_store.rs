use maschine::controls::Buttons;
use maschine::lights::{Brightness, Lights, PadColors};

#[test]
fn report_layout_is_id_buttons_pads_slider() {
    let mut l = Lights::new();
    l.set_button(Buttons::Play, Brightness::Normal);
    l.set_pad(0, PadColors::Red, Brightness::Bright);
    l.set_pad(15, PadColors::White, Brightness::Dim);
    l.set_slider(0, Brightness::Dim);
    l.set_slider(24, Brightness::Bright);
    let rep = l.serialize();
    assert_eq!(rep.len(), 81);
    assert_eq!(rep[0], 0x80);
    assert_eq!(rep[1 + 8], 2); // Play sits at bit position 8, Normal = 2
    assert_eq!(rep[40], 1 * 4 + 3); // pad 0: Red, Bright
    assert_eq!(rep[55], 17 * 4 + 1); // pad 15: White, Dim
    assert_eq!(rep[56], 1); // slider segment 0: Dim
    assert_eq!(rep[80], 3); // slider segment 24: Bright
    // everything untouched stays dark
    assert_eq!(rep[2], 0);
    assert_eq!(rep[41], 0);
}

#[test]
fn identical_state_serializes_identically() {
    let mut a = Lights::new();
    let mut b = Lights::new();
    for (l, _) in [(&mut a, 0), (&mut b, 1)] {
        l.set_button(Buttons::Stop, Brightness::Bright);
        l.set_pad(3, PadColors::Cyan, Brightness::Normal);
        l.set_slider(7, Brightness::Dim);
    }
    assert_eq!(a.serialize(), b.serialize());
    // and serializing the same store twice is byte-for-byte identical
    assert_eq!(a.serialize(), a.serialize());
}

#[test]
fn no_net_change_triggers_no_write() {
    let mut l = Lights::new();
    assert!(l.take_report_if_changed().is_none());
    // a run of mutations that ends where it started
    l.set_pad(2, PadColors::Green, Brightness::Bright);
    l.set_button(Buttons::Rec, Brightness::Normal);
    l.set_pad(2, PadColors::Off, Brightness::Off);
    l.set_button(Buttons::Rec, Brightness::Off);
    assert!(l.take_report_if_changed().is_none());
}

#[test]
fn a_net_change_is_written_once() {
    let mut l = Lights::new();
    l.set_slider(10, Brightness::Normal);
    let rep = l.take_report_if_changed().expect("a change must be written");
    assert_eq!(rep[56 + 10], 2);
    // the same state again: nothing further to write
    assert!(l.take_report_if_changed().is_none());
    l.set_slider(10, Brightness::Normal);
    assert!(l.take_report_if_changed().is_none());
}

#[test]
fn getters_read_back_what_was_set() {
    let mut l = Lights::new();
    assert_eq!(l.get_button(Buttons::Shift), Brightness::Off);
    l.set_button(Buttons::Shift, Brightness::Dim);
    assert_eq!(l.get_button(Buttons::Shift), Brightness::Dim);
    l.set_pad(5, PadColors::Plum, Brightness::Bright);
    assert_eq!(l.get_pad(5), (PadColors::Plum, Brightness::Bright));
    l.set_slider(12, Brightness::Normal);
    assert_eq!(l.get_slider(12), Brightness::Normal);
}

#[test]
fn reset_blanks_everything() {
    let mut l = Lights::new();
    l.set_button(Buttons::Play, Brightness::Bright);
    l.set_pad(0, PadColors::Red, Brightness::Bright);
    l.set_slider(0, Brightness::Bright);
    let _ = l.take_report_if_changed();
    l.reset();
    let rep = l.take_report_if_changed().expect("reset after lit state is a change");
    for i in 1..81 {
        assert_eq!(rep[i], 0);
    }
    // already blank: a second reset changes nothing
    l.reset();
    assert!(l.take_report_if_changed().is_none());
}

#[test]
fn only_the_encoder_push_has_no_light() {
    let l = Lights::new();
    assert!(!l.button_has_light(Buttons::Encoder));
    assert!(l.button_has_light(Buttons::Play));
    assert!(l.button_has_light(Buttons::Shift));
    assert!(l.button_has_light(Buttons::Group));
}
