use maschine::config::{
    default_brightness_off, default_brightness_on, default_note_maps, default_pad_colors,
    string_to_brightness, string_to_pad_color, ConfigValues, DEFAULT_SENSITIVITY_MILLI,
};
use maschine::lights::{Brightness, PadColors};

#[test]
fn default_note_table() {
    assert_eq!(
        default_note_maps(),
        vec![49, 27, 31, 57, 48, 47, 43, 59, 36, 38, 46, 51, 36, 38, 42, 44]
    );
}

#[test]
fn default_brightness_names() {
    assert_eq!(default_brightness_off(), "off");
    assert_eq!(default_brightness_on(), "normal");
}

#[test]
fn default_pad_color_names() {
    let colors = default_pad_colors();
    assert_eq!(colors.len(), 16);
    for c in colors {
        assert_eq!(c, "white");
    }
}

#[test]
fn brightness_names_ignore_case_and_fall_back() {
    assert_eq!(string_to_brightness("off"), Brightness::Off);
    assert_eq!(string_to_brightness("OFF"), Brightness::Off);
    assert_eq!(string_to_brightness("Dim"), Brightness::Dim);
    assert_eq!(string_to_brightness("normal"), Brightness::Normal);
    assert_eq!(string_to_brightness("BrIgHt"), Brightness::Bright);
    assert_eq!(string_to_brightness("sunlit"), Brightness::Normal);
    assert_eq!(string_to_brightness(""), Brightness::Normal);
}

#[test]
fn color_names_ignore_case_and_fall_back() {
    assert_eq!(string_to_pad_color("red"), PadColors::Red);
    assert_eq!(string_to_pad_color("WHITE"), PadColors::White);
    assert_eq!(string_to_pad_color("LightOrange"), PadColors::LightOrange);
    assert_eq!(string_to_pad_color("turquoise"), PadColors::Turquoise);
    assert_eq!(string_to_pad_color("banana"), PadColors::White);
    assert_eq!(string_to_pad_color("off"), PadColors::Off);
}

#[test]
fn built_in_defaults() {
    let cfg = ConfigValues::defaults();
    assert_eq!(cfg.note_maps, default_note_maps());
    assert_eq!(cfg.sensitivity_milli, DEFAULT_SENSITIVITY_MILLI);
    assert_eq!(cfg.brightness_off, Brightness::Off);
    assert_eq!(cfg.brightness_on, Brightness::Normal);
    assert_eq!(cfg.pad_colors.len(), 16);
    for c in &cfg.pad_colors {
        assert_eq!(*c, PadColors::White);
    }
}

#[test]
fn note_numbers_are_masked_to_seven_bits() {
    let notes: Vec<u8> = vec![0, 127, 128, 255, 36, 200, 1, 2, 3, 4, 5, 6, 7, 8, 9, 10];
    let colors = vec![PadColors::White; 16];
    let cfg = ConfigValues::new(&notes, 1000, Brightness::Off, Brightness::Normal, &colors);
    assert_eq!(cfg.note_maps[0], 0);
    assert_eq!(cfg.note_maps[1], 127);
    assert_eq!(cfg.note_maps[2], 0);
    assert_eq!(cfg.note_maps[3], 127);
    assert_eq!(cfg.note_maps[5], 200 & 0x7f);
}
