use rust_tracer::ieee::Ieee32;

fn b(v: f32) -> Ieee32 {
    Ieee32::from_bits(v.to_bits())
}

const SAMPLES: [f32; 14] = [
    0.0,
    -0.0,
    1.0,
    -1.0,
    0.5,
    -2.5,
    1.0e-40,
    -1.0e-40,
    f32::MAX,
    f32::MIN,
    f32::INFINITY,
    f32::NEG_INFINITY,
    f32::NAN,
    1.0e-5,
];

#[test]
fn lt_matches_float_less_than() {
    for &a in SAMPLES.iter() {
        for &c in SAMPLES.iter() {
            assert_eq!(b(a).lt(&b(c)), a < c, "{} < {}", a, c);
        }
    }
    let negative_nan = f32::from_bits(0xffc0_0000);
    assert!(!b(negative_nan).lt(&b(1.0)));
    assert!(!b(-1.0).lt(&b(negative_nan)));
}

#[test]
fn num_eq_matches_float_equality() {
    for &a in SAMPLES.iter() {
        for &c in SAMPLES.iter() {
            assert_eq!(b(a).num_eq(&b(c)), a == c, "{} == {}", a, c);
        }
    }
    assert!(b(0.0).num_eq(&b(-0.0)));
    assert!(!b(f32::NAN).num_eq(&b(f32::NAN)));
}

#[test]
fn sign_and_nan_queries() {
    for &a in SAMPLES.iter() {
        assert_eq!(b(a).is_sign_negative(), a.is_sign_negative());
        assert_eq!(b(a).is_sign_positive(), a.is_sign_positive());
        assert_eq!(b(a).is_nan(), a.is_nan());
    }
    assert!(b(-0.0).is_sign_negative());
    assert!(b(f32::from_bits(0xffc0_0000)).is_nan());
}
