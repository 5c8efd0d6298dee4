use gust_math::arithmetic::{apply, cos, divide, minus, plus, sin, sqrt, times, Op};
use gust_math::scalar::Scalar;

fn s(x: f32) -> Scalar {
    Scalar::from_bits(x.to_bits())
}

fn f(x: Scalar) -> f32 {
    f32::from_bits(x.to_bits())
}

fn ieee(op: Op, a: Scalar, b: Scalar) -> Scalar {
    let (x, y) = (f(a), f(b));
    s(match op {
        Op::Add => x + y,
        Op::Sub => x - y,
        Op::Mul => x * y,
        Op::Div => x / y,
        Op::Sqrt => x.sqrt(),
        Op::Sin => x.sin(),
        Op::Cos => x.cos(),
    })
}

#[test]
fn bits_round_trip() {
    assert_eq!(Scalar::from_bits(0x4049_0fdb).to_bits(), 0x4049_0fdb);
    assert_eq!(f(Scalar::from_bits(0x4049_0fdb)), std::f32::consts::PI);
}

#[test]
fn zero_and_one_are_the_numbers() {
    assert_eq!(Scalar::zero().to_bits(), 0);
    assert_eq!(Scalar::one().to_bits(), 0x3f80_0000);
    assert_eq!(f(Scalar::zero()), 0.0);
    assert!(f(Scalar::zero()).is_sign_positive());
    assert_eq!(f(Scalar::one()), 1.0);
}

#[test]
fn check_zero_accepts_both_signs_only() {
    assert!(s(0.0).check_zero());
    assert!(s(-0.0).check_zero());
    assert!(!s(1.0e-45).check_zero());
    assert!(!s(1.0).check_zero());
    assert!(!s(f32::NAN).check_zero());
    assert!(!s(f32::INFINITY).check_zero());
}

#[test]
fn check_nan_agrees_with_the_hardware() {
    assert!(s(f32::NAN).check_nan());
    assert!(s(-f32::NAN).check_nan());
    assert!(Scalar::from_bits(0x7f80_0001).check_nan());
    assert!(!s(f32::INFINITY).check_nan());
    assert!(!s(f32::NEG_INFINITY).check_nan());
    assert!(!s(f32::MAX).check_nan());
    assert!(!s(0.0).check_nan());
}

#[test]
fn neg_flips_the_sign_bit() {
    assert_eq!(f(s(1.5).neg()), -1.5);
    assert_eq!(f(s(-2.0).neg()), 2.0);
    assert_eq!(s(0.0).neg().to_bits(), 0x8000_0000);
    assert_eq!(s(f32::INFINITY).neg().to_bits(), f32::NEG_INFINITY.to_bits());
    assert_eq!(Scalar::from_bits(0x7fc0_1234).neg().to_bits(), 0xffc0_1234);
    for x in [0.0f32, -0.0, 1.0, -3.25, f32::MAX, f32::MIN_POSITIVE, f32::INFINITY] {
        assert_eq!(s(x).neg().to_bits(), (-x).to_bits());
        assert_eq!(s(x).neg().neg().to_bits(), x.to_bits());
    }
}

#[test]
fn equality_is_numeric() {
    assert!(s(1.0) == s(1.0));
    assert!(s(1.0) != s(2.0));
    assert!(s(0.0) == s(-0.0));
    assert!(s(-0.0) == s(0.0));
    assert!(s(f32::NAN) != s(f32::NAN));
    assert!(s(f32::NAN) != s(1.0));
    assert!(s(1.0) != s(f32::NAN));
    assert!(s(f32::INFINITY) == s(f32::INFINITY));
    assert!(s(f32::INFINITY) != s(f32::NEG_INFINITY));
    let samples = [0.0f32, -0.0, 1.0, -1.0, 0.1, f32::NAN, f32::INFINITY, f32::MIN_POSITIVE];
    for x in samples {
        for y in samples {
            assert_eq!(s(x) == s(y), x == y);
        }
    }
}

#[test]
fn helpers_ask_for_the_right_operation() {
    assert_eq!(f(plus(&ieee, s(1.5), s(2.25))), 3.75);
    assert_eq!(f(minus(&ieee, s(1.5), s(2.25))), -0.75);
    assert_eq!(f(times(&ieee, s(1.5), s(2.0))), 3.0);
    assert_eq!(f(divide(&ieee, s(1.0), s(4.0))), 0.25);
    assert_eq!(f(sqrt(&ieee, s(9.0))), 3.0);
    assert_eq!(f(sin(&ieee, s(0.0))), 0.0);
    assert_eq!(f(cos(&ieee, s(0.0))), 1.0);
    assert_eq!(f(apply(&ieee, Op::Div, s(9.0), s(3.0))), 3.0);
}

#[test]
fn unary_operations_get_zero_as_second_operand() {
    let seen = std::cell::Cell::new(1u32);
    let spy = |op: Op, a: Scalar, b: Scalar| {
        seen.set(b.to_bits());
        ieee(op, a, b)
    };
    assert_eq!(f(sqrt(&spy, s(4.0))), 2.0);
    assert_eq!(seen.get(), 0);
}
