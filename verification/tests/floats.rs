use ftd_breadboard::float32::Float32;

fn f(x: f32) -> Float32 {
    Float32::from_bits(x.to_bits())
}

const SAMPLES: [f32; 19] = [
    0.0,
    -0.0,
    1.0,
    -1.0,
    0.5,
    99.999,
    100.0,
    100.001,
    -100.001,
    9999.999,
    10000.0,
    10000.001,
    -10000.001,
    20000.0,
    -20000.0,
    f32::MIN_POSITIVE,
    1.0e-45,
    f32::INFINITY,
    f32::NEG_INFINITY,
];

#[test]
fn clamp_agrees_with_the_hardware() {
    for x in SAMPLES {
        for (lo, hi) in [(-10000.0f32, 10000.0f32), (-100.0, 100.0), (0.0, 1.0), (-5.0, -5.0)] {
            let got = f(x).clamp(f(lo), f(hi));
            assert_eq!(got.to_bits(), x.clamp(lo, hi).to_bits(), "{} in {}..{}", x, lo, hi);
        }
    }
}

#[test]
fn clamp_keeps_a_nan() {
    let nan = f(f32::NAN);
    let got = nan.clamp(f(-1.0), f(1.0));
    assert_eq!(got.to_bits(), f32::NAN.to_bits());
    assert!(got.is_not_a_number());
}

#[test]
fn less_than_agrees_with_the_hardware() {
    for a in SAMPLES {
        for b in SAMPLES {
            assert_eq!(f(a).less_than(f(b)), a < b, "{} < {}", a, b);
        }
    }
}

#[test]
fn less_than_is_false_where_an_operand_is_a_nan() {
    let nans = [f32::NAN, f32::from_bits(0x7f80_0001), f32::from_bits(0xffff_ffff)];
    for nan in nans {
        for x in SAMPLES {
            assert_eq!(f(nan).less_than(f(x)), nan < x);
            assert_eq!(f(x).less_than(f(nan)), x < nan);
            assert!(!f(nan).less_than(f(x)));
            assert!(!f(x).less_than(f(nan)));
        }
        assert!(!f(nan).less_than(f(nan)));
    }
}

#[test]
fn is_not_a_number_tells_nans_from_numbers() {
    for x in SAMPLES {
        assert!(!f(x).is_not_a_number());
    }
    assert!(f(f32::NAN).is_not_a_number());
    assert!(Float32::from_bits(0x7f80_0001).is_not_a_number());
    assert!(Float32::from_bits(0xffff_ffff).is_not_a_number());
    assert!(!Float32::from_bits(0x7f80_0000).is_not_a_number());
}

#[test]
fn from_small_int_is_exact() {
    for n in [0u32, 1, 2, 3, 25, 100, 200, 255, 256, 10000, 65535, 6_553_400, 0x7f_ffff, 0x80_0000, 0xff_ffff] {
        assert_eq!(Float32::from_small_int(n).to_bits(), (n as f32).to_bits(), "{}", n);
    }
    for n in 0u32..5000 {
        assert_eq!(Float32::from_small_int(200 * n).to_bits(), (200.0 * n as f32).to_bits());
    }
}

#[test]
fn from_small_int_of_ten_thousand() {
    assert_eq!(Float32::from_small_int(10000).to_bits(), 0x461c_4000);
}

#[test]
fn negate_flips_the_sign() {
    assert_eq!(f(1.5).negate().to_bits(), (-1.5f32).to_bits());
    assert_eq!(f(-1.5).negate().to_bits(), 1.5f32.to_bits());
    assert_eq!(f(0.0).negate().to_bits(), (-0.0f32).to_bits());
}
