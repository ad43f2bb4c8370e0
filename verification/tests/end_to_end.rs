use maschine::config::ConfigValues;
use maschine::controls::Buttons;
use maschine::driver::{Controller, OutputReport};
use maschine::lights::{Brightness, PadColors};

fn report(kind: u8) -> Vec<u8> {
    let mut buf = vec![0u8; 64];
    buf[0] = kind;
    buf
}

fn default_controller() -> Controller {
    Controller::new(ConfigValues::defaults())
}

#[test]
fn note_on_for_pad_zero_with_zero_intensity() {
    // pad 0, event-type nibble 0x1 (note-on), intensity 0
    let mut c = default_controller();
    let mut buf = report(0x02);
    buf[1] = 0;
    buf[2] = 0x10;
    buf[3] = 0x00;
    let out = c.handle_report(&buf);
    // one note-on for pad 0's configured note; intensity 0 gives velocity 0
    assert_eq!(out.midi.len(), 1);
    assert_eq!(out.midi[0], vec![0x90, 49, 0]);
    // pad 0 lights at the configured note-on brightness in its colour
    assert_eq!(c.lights.get_pad(0), (PadColors::White, Brightness::Normal));
    let rep = out.light_report.expect("the pad light changed");
    assert_eq!(rep[40], 17 * 4 + 2);
}

#[test]
fn nonzero_intensity_scales_to_velocity() {
    let mut c = default_controller();
    let mut buf = report(0x02);
    buf[1] = 8; // pad 8: default note 36
    buf[2] = 0x18; // note-on, intensity high nibble 0x8
    buf[3] = 0x00; // intensity 0x800 = 2048
    let out = c.handle_report(&buf);
    assert_eq!(out.midi.len(), 1);
    assert_eq!(out.midi[0], vec![0x90, 36, 64]);
}

#[test]
fn note_off_emits_note_off_message() {
    let mut c = default_controller();
    let mut on = report(0x02);
    on[1] = 1;
    on[2] = 0x11;
    on[3] = 0x00;
    let _ = c.handle_report(&on);
    let mut off = report(0x02);
    off[1] = 1;
    off[2] = 0x20;
    off[3] = 0x00;
    let out = c.handle_report(&off);
    assert_eq!(out.midi.len(), 1);
    assert_eq!(out.midi[0], vec![0x80, 27, 0]);
    // the pad falls back to the note-off brightness
    assert_eq!(c.lights.get_pad(1), (PadColors::White, Brightness::Off));
}

#[test]
fn aftertouch_moves_the_light_but_emits_nothing() {
    let mut c = default_controller();
    let mut buf = report(0x02);
    buf[1] = 2;
    buf[2] = 0x51; // aftertouch, intensity 0x100
    buf[3] = 0x00;
    let out = c.handle_report(&buf);
    assert!(out.midi.is_empty());
    assert_eq!(c.lights.get_pad(2), (PadColors::White, Brightness::Normal));
    assert!(out.light_report.is_some());
}

#[test]
fn pad_index_beyond_the_surface_is_skipped() {
    let mut c = default_controller();
    let mut buf = report(0x02);
    buf[1] = 20; // no such pad
    buf[2] = 0x10;
    buf[3] = 0x40;
    let out = c.handle_report(&buf);
    assert!(out.midi.is_empty());
    assert!(out.light_report.is_none());
}

#[test]
fn button_press_and_release_feedback() {
    let mut c = default_controller();
    let mut press = report(0x01);
    press[1 + 8 / 8] = 1 << (8 % 8); // bit 8: Play
    let out = c.handle_report(&press);
    assert!(out.midi.is_empty());
    assert!(out.light_report.is_some());
    assert_eq!(c.lights.get_button(Buttons::Play), Brightness::Normal);
    let release = report(0x01);
    let out = c.handle_report(&release);
    assert!(out.light_report.is_some());
    assert_eq!(c.lights.get_button(Buttons::Play), Brightness::Dim);
}

#[test]
fn slider_zero_leaves_slider_state_unchanged() {
    let mut c = default_controller();
    let mut touch = report(0x01);
    touch[10] = 100;
    let out = c.handle_report(&touch);
    assert!(out.light_report.is_some());
    let before: Vec<Brightness> = (0..25).map(|i| c.lights.get_slider(i)).collect();
    assert_eq!(before[12], Brightness::Normal);
    assert_eq!(before[11], Brightness::Dim);
    assert_eq!(before[13], Brightness::Off);
    // slider byte 0 means "no touch": nothing moves, nothing is written
    let idle = report(0x01);
    let out = c.handle_report(&idle);
    assert!(out.light_report.is_none());
    let after: Vec<Brightness> = (0..25).map(|i| c.lights.get_slider(i)).collect();
    assert_eq!(before, after);
}

#[test]
fn unknown_report_type_changes_nothing() {
    let mut c = default_controller();
    let mut buf = report(0x7f);
    buf[1] = 0xff;
    let out = c.handle_report(&buf);
    assert!(out.midi.is_empty());
    assert!(out.light_report.is_none());
}

#[test]
fn at_most_one_light_write_per_report() {
    let mut c = default_controller();
    let mut buf = report(0x02);
    // three pads change in one report
    for (m, pad) in [0u8, 1, 2].iter().enumerate() {
        buf[1 + 3 * m] = *pad;
        buf[2 + 3 * m] = 0x11;
        buf[3 + 3 * m] = 0x00;
    }
    let out = c.handle_report(&buf);
    assert_eq!(out.midi.len(), 3);
    assert!(out.light_report.is_some());
    // the one report carries all three changes
    let rep = out.light_report.unwrap();
    assert_eq!(rep[40], 17 * 4 + 2);
    assert_eq!(rep[41], 17 * 4 + 2);
    assert_eq!(rep[42], 17 * 4 + 2);
}

#[test]
fn init_pads_paints_the_configured_idle_state() {
    let mut c = default_controller();
    c.init_pads();
    for i in 0..16 {
        assert_eq!(c.lights.get_pad(i), (PadColors::White, Brightness::Off));
    }
}

#[test]
fn self_test_runs_and_leaves_everything_blank() {
    let mut c = default_controller();
    let reports = c.self_test_reports();
    assert_eq!(reports.len(), 246);
    for r in &reports {
        match r {
            OutputReport::Lighting(v) => {
                assert_eq!(v.len(), 81);
                assert_eq!(v[0], 0x80);
            }
            OutputReport::Display(v) => {
                assert_eq!(v.len(), 513);
                assert_eq!(v[0], 0xe0);
            }
        }
    }
    // the first report is the digit 1 drawn at page 0, offset 0
    match &reports[0] {
        OutputReport::Display(v) => {
            assert_eq!(&v[1..5], &[0x12, 0x1f, 0x10, 0x00]);
        }
        _ => panic!("the first report is a display frame"),
    }
    // the fourth digit frame also holds the 7 at offset 96
    match &reports[3] {
        OutputReport::Display(v) => {
            assert_eq!(&v[1..5], &[0x12, 0x1f, 0x10, 0x00]);
            assert_eq!(&v[1 + 96..1 + 100], &[0x01, 0x01, 0x1f, 0x00]);
        }
        _ => panic!("the digit frames are display reports"),
    }
    // report 4 is button 0 at Bright; report 6 ends its cycle at Dim
    match &reports[4] {
        OutputReport::Lighting(v) => assert_eq!(v[1], 3),
        _ => panic!("the button cycle writes lighting reports"),
    }
    match &reports[6] {
        OutputReport::Lighting(v) => assert_eq!(v[1], 1),
        _ => panic!("the button cycle writes lighting reports"),
    }
    // report 121 is pad 0 at Bright in colour code 2
    match &reports[121] {
        OutputReport::Lighting(v) => assert_eq!(v[40], 2 * 4 + 3),
        _ => panic!("the pad cycle writes lighting reports"),
    }
    // report 169 is slider segment 0 at Bright, after every pad ended Dim
    match &reports[169] {
        OutputReport::Lighting(v) => {
            assert_eq!(v[56], 3);
            assert_eq!(v[40], 1 * 4 + 1);
        }
        _ => panic!("the slider cycle writes lighting reports"),
    }
    // the last two reports blank the lights and the display
    match &reports[244] {
        OutputReport::Lighting(v) => assert!(v.iter().skip(1).all(|b| *b == 0)),
        _ => panic!("the last lighting report is the reset"),
    }
    match &reports[245] {
        OutputReport::Display(v) => assert!(v.iter().skip(1).all(|b| *b == 0)),
        _ => panic!("the last report blanks the display"),
    }
    // and nothing is pending afterwards
    let idle = report(0x01);
    let out = c.handle_report(&idle);
    assert!(out.light_report.is_none());
}
