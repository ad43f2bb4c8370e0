use maschine::controls::{
    button_from_index, decode_button_report, decode_pad_report, Buttons, PadEventType,
};

fn blank_report(kind: u8) -> Vec<u8> {
    let mut buf = vec![0u8; 64];
    buf[0] = kind;
    buf
}

#[test]
fn button_bits_decode_to_button_states() {
    let mut buf = blank_report(0x01);
    buf[1] = 0x01; // bit 0: Group
    buf[2] = 0x01; // bit 8: Play
    buf[6] = 0x40; // bit 46: unmapped
    let r = decode_button_report(&buf);
    assert_eq!(r.states.len(), 39);
    assert_eq!(r.states[0], (Buttons::Group, true));
    assert_eq!(r.states[8], (Buttons::Play, true));
    for (k, (_, pressed)) in r.states.iter().enumerate() {
        assert_eq!(*pressed, k == 0 || k == 8);
    }
}

#[test]
fn every_mapped_bit_yields_exactly_its_event() {
    for k in 0..48usize {
        let mut buf = blank_report(0x01);
        buf[1 + k / 8] = 1u8 << (k % 8);
        let r = decode_button_report(&buf);
        match button_from_index(k) {
            Some(b) => {
                assert_eq!(r.states[k], (b, true));
                for (j, (_, pressed)) in r.states.iter().enumerate() {
                    assert_eq!(*pressed, j == k);
                }
            }
            None => {
                // an unmapped position never produces an event
                assert!(r.states.iter().all(|(_, pressed)| !*pressed));
            }
        }
    }
}

#[test]
fn encoder_and_slider_bytes_are_extracted() {
    let mut buf = blank_report(0x01);
    buf[7] = 0x55;
    buf[10] = 200;
    let r = decode_button_report(&buf);
    assert_eq!(r.encoder, 0x55);
    assert_eq!(r.slider, 200);
}

#[test]
fn pad_record_fields_combine_nibbles() {
    let mut buf = blank_report(0x02);
    buf[1] = 3;
    buf[2] = 0x1a;
    buf[3] = 0xbc;
    let recs = decode_pad_report(&buf);
    assert_eq!(recs.len(), 1);
    assert_eq!(recs[0].pad, 3);
    assert_eq!(recs[0].event, PadEventType::NoteOn);
    assert_eq!(recs[0].value, 0x0abc);
}

#[test]
fn pad_decoding_stops_at_first_zero_record() {
    let mut buf = blank_report(0x02);
    // record 0: pad 3 note-on
    buf[1] = 3;
    buf[2] = 0x10;
    buf[3] = 0x20;
    // record 1: all zero -> terminator
    // record 2: pad 1 note-on, must never be decoded
    buf[7] = 1;
    buf[8] = 0x10;
    buf[9] = 0x7f;
    let recs = decode_pad_report(&buf);
    assert_eq!(recs.len(), 1);
    assert_eq!(recs[0].pad, 3);
}

#[test]
fn first_record_all_zero_is_not_a_terminator() {
    let mut buf = blank_report(0x02);
    // record 0 is all zero but position 0 is never read as a terminator;
    // its code 0x00 is unrecognized, so it is skipped.
    buf[4] = 5;
    buf[5] = 0x20;
    buf[6] = 0x01;
    let recs = decode_pad_report(&buf);
    assert_eq!(recs.len(), 1);
    assert_eq!(recs[0].pad, 5);
    assert_eq!(recs[0].event, PadEventType::NoteOff);
}

#[test]
fn unrecognized_event_code_is_skipped_not_fatal() {
    let mut buf = blank_report(0x02);
    // record 0: unknown code 0x70
    buf[1] = 2;
    buf[2] = 0x70;
    buf[3] = 0x10;
    // record 1: pad 4 press-on
    buf[4] = 4;
    buf[5] = 0x30;
    buf[6] = 0x02;
    let recs = decode_pad_report(&buf);
    assert_eq!(recs.len(), 1);
    assert_eq!(recs[0].pad, 4);
    assert_eq!(recs[0].event, PadEventType::PressOn);
}

#[test]
fn all_event_codes_decode() {
    let mut buf = blank_report(0x02);
    let codes = [0x10u8, 0x20, 0x30, 0x40, 0x50];
    for (m, c) in codes.iter().enumerate() {
        buf[1 + 3 * m] = m as u8;
        buf[2 + 3 * m] = *c;
        buf[3 + 3 * m] = 1;
    }
    let recs = decode_pad_report(&buf);
    assert_eq!(recs.len(), 5);
    assert_eq!(recs[0].event, PadEventType::NoteOn);
    assert_eq!(recs[1].event, PadEventType::NoteOff);
    assert_eq!(recs[2].event, PadEventType::PressOn);
    assert_eq!(recs[3].event, PadEventType::PressOff);
    assert_eq!(recs[4].event, PadEventType::Aftertouch);
}
