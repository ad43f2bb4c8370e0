use maschine::font::Font;
use maschine::screen::Screen;

#[test]
fn screen_report_is_id_then_pixels() {
    let mut s = Screen::new();
    s.set_column(1, 5, 0xab);
    let rep = s.serialize();
    assert_eq!(rep.len(), 513);
    assert_eq!(rep[0], 0xe0);
    assert_eq!(rep[1 + 128 + 5], 0xab);
    for (i, b) in rep.iter().enumerate().skip(1) {
        if i != 1 + 128 + 5 {
            assert_eq!(*b, 0);
        }
    }
}

#[test]
fn reset_blanks_the_framebuffer() {
    let mut s = Screen::new();
    s.set_column(0, 0, 0xff);
    s.set_column(3, 127, 0x01);
    s.reset();
    let rep = s.serialize();
    for b in rep.iter().skip(1) {
        assert_eq!(*b, 0);
    }
}

#[test]
fn digit_one_rasterizes_its_four_columns() {
    let mut s = Screen::new();
    Font::write_digit(&mut s, 0, 0, 1, 4);
    assert_eq!(s.get_column(0, 0), 0x12);
    assert_eq!(s.get_column(0, 1), 0x1f);
    assert_eq!(s.get_column(0, 2), 0x10);
    assert_eq!(s.get_column(0, 3), 0x00);
    // the rest of the framebuffer is untouched
    assert_eq!(s.get_column(0, 4), 0);
    assert_eq!(s.get_column(1, 0), 0);
}

#[test]
fn digits_at_offsets_do_not_overlap() {
    let mut s = Screen::new();
    Font::write_digit(&mut s, 0, 0, 1, 4);
    Font::write_digit(&mut s, 0, 32, 3, 4);
    Font::write_digit(&mut s, 0, 96, 7, 4);
    assert_eq!(s.get_column(0, 0), 0x12);
    assert_eq!(s.get_column(0, 32), 0x15);
    assert_eq!(s.get_column(0, 33), 0x15);
    assert_eq!(s.get_column(0, 34), 0x1f);
    assert_eq!(s.get_column(0, 96), 0x01);
    assert_eq!(s.get_column(0, 98), 0x1f);
    assert_eq!(s.get_column(0, 64), 0);
}

#[test]
fn every_digit_has_a_nonblank_glyph() {
    for d in 0..10u8 {
        let mut s = Screen::new();
        Font::write_digit(&mut s, 2, 10, d, 4);
        let mut lit = 0u32;
        for c in 0..4usize {
            lit += s.get_column(2, 10 + c).count_ones();
        }
        assert!(lit >= 5, "digit {} has too few lit pixels", d);
    }
}
