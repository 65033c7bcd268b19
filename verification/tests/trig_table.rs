//! Tests for the degree-based fixed-point trigonometry.

use sonic_platformer::trig::{cos_fx, sin_fx};

#[test]
fn cardinal_angles_are_exact() {
    assert_eq!(sin_fx(0), 0);
    assert_eq!(sin_fx(90), 65536);
    assert_eq!(sin_fx(180), 0);
    assert_eq!(sin_fx(270), -65536);
    assert_eq!(cos_fx(0), 65536);
    assert_eq!(cos_fx(90), 0);
    assert_eq!(cos_fx(180), -65536);
    assert_eq!(cos_fx(270), 0);
}

#[test]
fn known_table_values() {
    // sin 30 = 1/2 exactly in this scale; sin 45 rounds to 46341.
    assert_eq!(sin_fx(30), 32768);
    assert_eq!(sin_fx(45), 46341);
    assert_eq!(cos_fx(60), 32768);
}

#[test]
fn symmetry_across_the_circle() {
    for a in 0u16..90 {
        assert_eq!(sin_fx(180 - a), sin_fx(a));
        assert_eq!(sin_fx(180 + a), -sin_fx(a));
        if a > 0 {
            assert_eq!(sin_fx(360 - a), -sin_fx(a));
        }
        assert_eq!(cos_fx(a), sin_fx(a + 90));
    }
}

#[test]
fn sine_stays_within_one_unit() {
    for a in 0u16..360 {
        assert!(sin_fx(a).abs() <= 65536);
        assert!(cos_fx(a).abs() <= 65536);
    }
}
