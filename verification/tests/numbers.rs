use kepler::scalar::{Scalar, INFINITY_BITS, ONE_BITS, SIGN_BIT};
use kepler::text::same_text;

fn scalar(x: f64) -> Scalar {
    Scalar::from_bits(x.to_bits())
}

const SAMPLES: [f64; 22] = [
    0.0,
    -0.0,
    5e-324,
    -5e-324,
    2.2250738585072014e-308,
    1e-300,
    0.1,
    -0.1,
    0.9999999999999999,
    -0.9999999999999999,
    1.0,
    -1.0,
    1.0000000000000002,
    -1.0000000000000002,
    10.0,
    -1000.0,
    398600.4418E9,
    f64::MAX,
    f64::MIN,
    f64::INFINITY,
    f64::NEG_INFINITY,
    f64::NAN,
];

#[test]
fn patterns_are_kept() {
    assert_eq!(Scalar::from_bits(0x4024_0000_0000_0000).to_bits(), 0x4024_0000_0000_0000);
    assert_eq!(f64::from_bits(ONE_BITS), 1.0);
    assert_eq!(f64::from_bits(INFINITY_BITS), f64::INFINITY);
    assert_eq!(f64::from_bits(SIGN_BIT).to_bits(), (-0.0_f64).to_bits());
}

#[test]
fn classification_agrees_with_the_numbers() {
    for x in SAMPLES {
        let s = scalar(x);
        assert_eq!(s.is_nan(), x.is_nan());
        assert_eq!(s.is_finite(), x.is_finite());
        assert_eq!(s.is_zero(), x == 0.0);
        assert_eq!(s.is_positive(), x.is_finite() && x > 0.0);
        assert_eq!(s.is_negative(), x.is_finite() && x < 0.0);
        assert_eq!(s.is_within_one(), x.abs() < 1.0);
        assert_eq!(s.is_beyond_one(), x.is_finite() && x.abs() > 1.0);
    }
    assert!(Scalar::from_bits(0xfff8_0000_0000_0001).is_nan());
    assert!(Scalar::from_bits(0x7ff0_0000_0000_0001).is_nan());
    assert!(!Scalar::from_bits(0x7fef_ffff_ffff_ffff).is_nan());
}

#[test]
fn equality_agrees_with_the_numbers() {
    for x in SAMPLES {
        for y in SAMPLES {
            assert_eq!(scalar(x) == scalar(y), x == y);
        }
    }
}

#[test]
fn texts_compare_by_their_characters() {
    assert!(same_text("", ""));
    assert!(same_text("EARTH", "EARTH"));
    assert!(!same_text("EARTH", "EARTh"));
    assert!(!same_text("EARTH", "EART"));
    assert!(!same_text("", "E"));
    assert!(same_text("\u{e9}t\u{e9}", "\u{e9}t\u{e9}"));
    assert!(!same_text("\u{e9}", "e"));
}
