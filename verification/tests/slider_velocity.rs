use maschine::controls::{slider_target, velocity};

#[test]
fn slider_target_exact_values() {
    // (v + 4) * 25 / 200 - 1, clamped into 0..=24
    assert_eq!(slider_target(1), 0); // raw -1, clamped up
    assert_eq!(slider_target(4), 0); // first value whose raw is 0
    assert_eq!(slider_target(12), 1);
    assert_eq!(slider_target(100), 12);
    assert_eq!(slider_target(200), 24);
    assert_eq!(slider_target(255), 24); // raw 31, clamped down
}

#[test]
fn slider_target_is_monotonic_and_in_range() {
    let mut prev = slider_target(1);
    for v in 1..=255u8 {
        let c = slider_target(v);
        assert!(c < 25);
        assert!(c >= prev);
        prev = c;
    }
}

#[test]
fn velocity_zero_intensity_is_zero() {
    for milli in [0u32, 1, 500, 1000, 2000] {
        assert_eq!(velocity(0, milli), 0);
    }
}

#[test]
fn velocity_nonzero_intensity_is_at_least_one() {
    for val in [1u16, 2, 31, 32, 100, 4095] {
        for milli in [0u32, 1, 500, 1000, 2000] {
            let v = velocity(val, milli);
            assert!(v >= 1);
            assert!(v <= 127);
        }
    }
}

#[test]
fn velocity_exact_values_at_unit_sensitivity() {
    // floor(val / 32), clamped into 1..=127 for nonzero intensity
    assert_eq!(velocity(1, 1000), 1); // rounds to 0, clamped up
    assert_eq!(velocity(31, 1000), 1);
    assert_eq!(velocity(32, 1000), 1);
    assert_eq!(velocity(64, 1000), 2);
    assert_eq!(velocity(2048, 1000), 64);
    assert_eq!(velocity(4064, 1000), 127);
    assert_eq!(velocity(4095, 1000), 127);
}

#[test]
fn velocity_scales_with_sensitivity() {
    // half sensitivity halves the scaled value
    assert_eq!(velocity(2048, 500), 32);
    // high sensitivity saturates at 127
    assert_eq!(velocity(4095, 4000), 127);
}
