use canvas_demos::{bits32, bits64};

const SINGLES: [f32; 12] = [
    0.0,
    -0.0,
    1.0,
    -1.0,
    0.001,
    -0.001,
    1e20,
    -1e20,
    f32::INFINITY,
    f32::NEG_INFINITY,
    f32::NAN,
    f32::MIN_POSITIVE,
];

const DOUBLES: [f64; 12] = [
    0.0,
    -0.0,
    1.0,
    -1.0,
    0.05,
    -0.05,
    1e300,
    -1e300,
    f64::INFINITY,
    f64::NEG_INFINITY,
    f64::NAN,
    f64::MIN_POSITIVE,
];

#[test]
fn single_patterns_compare_like_values() {
    for a in SINGLES {
        for b in SINGLES {
            assert_eq!(bits32::lt(a.to_bits(), b.to_bits()), a < b, "{} < {}", a, b);
            assert_eq!(bits32::le(a.to_bits(), b.to_bits()), a <= b, "{} <= {}", a, b);
            assert_eq!(bits32::eq(a.to_bits(), b.to_bits()), a == b, "{} == {}", a, b);
        }
    }
}

#[test]
fn double_patterns_compare_like_values() {
    for a in DOUBLES {
        for b in DOUBLES {
            assert_eq!(bits64::lt(a.to_bits(), b.to_bits()), a < b, "{} < {}", a, b);
            assert_eq!(bits64::le(a.to_bits(), b.to_bits()), a <= b, "{} <= {}", a, b);
            assert_eq!(bits64::eq(a.to_bits(), b.to_bits()), a == b, "{} == {}", a, b);
        }
    }
}

#[test]
fn smaller_and_larger_single() {
    for a in SINGLES {
        for b in SINGLES {
            let low = f32::from_bits(bits32::min(a.to_bits(), b.to_bits()));
            let high = f32::from_bits(bits32::max(a.to_bits(), b.to_bits()));
            assert!(low == a.min(b) || (a.is_nan() && b.is_nan() && low.is_nan()));
            assert!(high == a.max(b) || (a.is_nan() && b.is_nan() && high.is_nan()));
        }
    }
}

#[test]
fn smaller_and_larger_double() {
    for a in DOUBLES {
        for b in DOUBLES {
            let low = f64::from_bits(bits64::min(a.to_bits(), b.to_bits()));
            let high = f64::from_bits(bits64::max(a.to_bits(), b.to_bits()));
            assert!(low == a.min(b) || (a.is_nan() && b.is_nan() && low.is_nan()));
            assert!(high == a.max(b) || (a.is_nan() && b.is_nan() && high.is_nan()));
        }
    }
}

#[test]
fn signs_of_singles() {
    for a in SINGLES {
        assert_eq!(bits32::neg(a.to_bits()), (-a).to_bits());
        assert_eq!(bits32::abs(a.to_bits()), a.abs().to_bits());
        assert_eq!(bits32::nan(a.to_bits()), a.is_nan());
        if !a.is_nan() {
            assert_eq!(bits32::signum(a.to_bits()), a.signum().to_bits());
        }
    }
    assert!(bits32::nan(bits32::signum(f32::NAN.to_bits())));
}

#[test]
fn signs_of_doubles() {
    for a in DOUBLES {
        assert_eq!(bits64::neg(a.to_bits()), (-a).to_bits());
        assert_eq!(bits64::abs(a.to_bits()), a.abs().to_bits());
        assert_eq!(bits64::nan(a.to_bits()), a.is_nan());
    }
}

#[test]
fn clamped_values() {
    for a in SINGLES {
        let r = bits32::clamp(a.to_bits(), (-1.0f32).to_bits(), 1.0f32.to_bits());
        assert_eq!(r, a.clamp(-1.0, 1.0).to_bits());
    }
    for a in DOUBLES {
        let r = bits64::clamp(a.to_bits(), 0.0f64.to_bits(), 0.05f64.to_bits());
        assert_eq!(r, a.clamp(0.0, 0.05).to_bits());
    }
}

#[test]
fn flipping_turns_the_order_round() {
    for a in SINGLES {
        for b in SINGLES {
            let (a, b) = (a.to_bits(), b.to_bits());
            assert_eq!(bits32::lt(a, b), bits32::lt(bits32::neg(b), bits32::neg(a)));
            assert_eq!(bits32::neg(bits32::neg(a)), a);
        }
    }
}

#[test]
fn named_patterns() {
    assert_eq!(bits32::ONE, 1.0f32.to_bits());
    assert_eq!(bits32::MINUS_ONE, (-1.0f32).to_bits());
    assert_eq!(bits32::ZERO, 0.0f32.to_bits());
    assert_eq!(bits32::INFINITY, f32::INFINITY.to_bits());
    assert_eq!(bits64::ONE, 1.0f64.to_bits());
    assert_eq!(bits64::MINUS_ONE, (-1.0f64).to_bits());
    assert_eq!(bits64::ZERO, 0.0f64.to_bits());
    assert_eq!(bits64::INFINITY, f64::INFINITY.to_bits());
}
