use cerena::scalar::{dec, one, zero, Scalar};

fn num(x: f32) -> Scalar {
    Scalar { bits: x.to_bits() }
}

#[test]
fn decimals_round_to_single_precision() {
    assert_eq!(dec(0, 0), num(0.0));
    assert_eq!(dec(1, 0), num(1.0));
    assert_eq!(dec(-1, 0), num(-1.0));
    assert_eq!(dec(5, 2), num(0.05));
    assert_eq!(dec(15, 3), num(0.015));
    assert_eq!(dec(8, 3), num(0.008));
    assert_eq!(dec(85, 2), num(0.85));
    assert_eq!(dec(-22_000, 3), num(-22.0));
    assert_eq!(dec(1, 4), num(1e-4));
    assert_eq!(dec(1, 6), num(1e-6));
    assert_eq!(dec(16_777_217, 0), num(16_777_217.0));
    assert_eq!(dec(i32::MAX, 0), num(2_147_483_647.0));
    assert_eq!(dec(i32::MIN, 0), num(-2_147_483_648.0));
    assert_eq!(dec(1, 9), num(1e-9));
    assert_eq!(dec(123_456_789, 5), num(1234.56789));
    assert_eq!(zero(), num(0.0));
    assert_eq!(one(), num(1.0));
}

#[test]
fn trailing_zeros_do_not_matter() {
    for n in [1, 3, 7, 12, 85, 450, 1_250, -30] {
        assert_eq!(dec(n, 1), dec(n * 100, 3));
        assert_eq!(dec(n, 0), dec(n * 1_000, 3));
    }
}

#[test]
fn every_thousandth_is_the_nearest_number() {
    for n in -3_000..3_000 {
        let text = format!("{}{}.{:03}", if n < 0 { "-" } else { "" }, i32::abs(n) / 1000, i32::abs(n) % 1000);
        let want: f32 = text.parse().unwrap();
        if n != 0 {
            assert_eq!(dec(n, 3), num(want), "{}", text);
        }
    }
}

#[test]
fn comparisons_are_those_of_the_numbers() {
    let samples = [
        f32::NEG_INFINITY, -5.5, -1.0, -1e-30, -0.0, 0.0, 1e-30, 0.25, 1.0, 7.0, f32::INFINITY, f32::NAN,
    ];
    for a in samples {
        for b in samples {
            assert_eq!(num(a).le(num(b)), a <= b);
            assert_eq!(num(a).lt(num(b)), a < b);
            assert_eq!(num(a).ge(num(b)), a >= b);
            let larger = a.max(b);
            let smaller = a.min(b);
            assert!(num(a).max(num(b)).is_nan() == larger.is_nan());
            assert!(larger.is_nan() || f32::from_bits(num(a).max(num(b)).bits) == larger);
            assert!(smaller.is_nan() || f32::from_bits(num(a).min(num(b)).bits) == smaller);
        }
        assert_eq!(num(a).is_nan(), a.is_nan());
        let clamped = f32::from_bits(num(a).clamp(zero(), one()).bits);
        assert!(clamped == a.clamp(0.0, 1.0) || (clamped.is_nan() && a.is_nan()));
    }
}

#[test]
fn clamping_lands_in_the_range() {
    for x in [-3.0, 0.0, 0.3, 1.0, 44.0] {
        let r = num(x).clamp(dec(1, 1), one());
        assert!(dec(1, 1).le(r) && r.le(one()));
    }
}
