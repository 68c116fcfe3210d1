use motion_prims::binary32::{absolute, clamp_to, less, nan, negate, rank_of, ONE, ZERO};

fn b(x: f32) -> u32 {
    x.to_bits()
}

#[test]
fn constants_match_their_values() {
    assert_eq!(ZERO, b(0.0));
    assert_eq!(ONE, b(1.0));
}

#[test]
fn less_follows_numeric_order() {
    assert!(less(b(-2.0), b(-1.0)));
    assert!(less(b(-1.0), b(0.0)));
    assert!(less(b(0.25), b(0.5)));
    assert!(!less(b(0.5), b(0.25)));
    assert!(!less(b(-0.0), b(0.0)));
    assert!(!less(b(0.0), b(-0.0)));
    assert!(!less(b(f32::NAN), b(1.0)));
    assert!(!less(b(1.0), b(f32::NAN)));
    assert!(less(b(f32::NEG_INFINITY), b(f32::MIN)));
}

#[test]
fn rank_of_both_zeros_is_zero() {
    assert_eq!(rank_of(b(0.0)), 0);
    assert_eq!(rank_of(b(-0.0)), 0);
    assert!(rank_of(b(-1.0)) < 0);
}

#[test]
fn nan_is_detected() {
    assert!(nan(b(f32::NAN)));
    assert!(!nan(b(f32::INFINITY)));
    assert!(!nan(b(-3.5)));
}

#[test]
fn negate_and_absolute_match_float_ops() {
    assert_eq!(f32::from_bits(negate(b(2.5))), -2.5);
    assert_eq!(f32::from_bits(negate(b(-2.5))), 2.5);
    assert_eq!(f32::from_bits(absolute(b(-7.25))), 7.25);
    assert_eq!(f32::from_bits(absolute(b(7.25))), 7.25);
}

#[test]
fn clamp_matches_std_clamp() {
    let cases = [-3.0f32, -1.0, -0.0, 0.0, 0.3, 1.0, 1.5, f32::INFINITY];
    for x in cases {
        let got = f32::from_bits(clamp_to(b(x), b(-1.0), b(1.0)));
        assert_eq!(got.to_bits(), x.clamp(-1.0, 1.0).to_bits());
    }
    assert!(f32::from_bits(clamp_to(b(f32::NAN), b(0.0), b(1.0))).is_nan());
}
