use kafka_metrics::arith::{
    minus, narrow, of_int, over, plus, plus_single, run, sqrt, times, truncate, Op,
};
use kafka_metrics::ieee::{
    Double, Single, HALF, INFINITY, MAX, MIN, NAN, NEG_HALF, NEG_INFINITY, ONE, SIGN,
    SINGLE_INFINITY, SINGLE_ONE, SINGLE_SIGN, ZERO,
};

fn fpu(op: Op) -> u64 {
    match op {
        Op::Add(a, b) => (f64::from_bits(a.bits) + f64::from_bits(b.bits)).to_bits(),
        Op::Sub(a, b) => (f64::from_bits(a.bits) - f64::from_bits(b.bits)).to_bits(),
        Op::Mul(a, b) => (f64::from_bits(a.bits) * f64::from_bits(b.bits)).to_bits(),
        Op::Div(a, b) => (f64::from_bits(a.bits) / f64::from_bits(b.bits)).to_bits(),
        Op::Sqrt(a) => f64::from_bits(a.bits).sqrt().to_bits(),
        Op::FromInt(n) => (n as f64).to_bits(),
        Op::Truncate(a) => f64::from_bits(a.bits) as usize as u64,
        Op::Narrow(a) => (f64::from_bits(a.bits) as f32).to_bits() as u64,
        Op::AddSingle(a, b) => (f32::from_bits(a.bits) + f32::from_bits(b.bits)).to_bits() as u64,
    }
}

fn num(x: f64) -> Double {
    Double::from_bits(x.to_bits())
}

fn val(d: Double) -> f64 {
    f64::from_bits(d.to_bits())
}

fn single(x: f32) -> Single {
    Single::from_bits(x.to_bits())
}

fn doubles() -> Vec<f64> {
    vec![
        0.0,
        -0.0,
        1.0,
        -1.0,
        0.5,
        -0.5,
        9.9,
        10.0,
        10.1,
        -10.0,
        1e-320,
        -1e-320,
        f64::MIN_POSITIVE,
        -f64::MIN_POSITIVE,
        f64::EPSILON,
        1e300,
        -1e300,
        f64::MAX,
        f64::MIN,
        f64::INFINITY,
        f64::NEG_INFINITY,
        f64::NAN,
        -f64::NAN,
        f64::from_bits(0x7ff0_0000_0000_0001),
        f64::from_bits(0xffff_ffff_ffff_ffff),
    ]
}

fn singles() -> Vec<f32> {
    vec![
        0.0,
        -0.0,
        1.0,
        -1.0,
        2.5,
        -2.5,
        1e-45,
        -1e-45,
        16_777_216.0,
        f32::MAX,
        f32::MIN,
        f32::INFINITY,
        f32::NEG_INFINITY,
        f32::NAN,
        -f32::NAN,
    ]
}

#[test]
fn constants_are_the_patterns_of_their_numbers() {
    assert_eq!(ZERO, 0.0f64.to_bits());
    assert_eq!(ONE, 1.0f64.to_bits());
    assert_eq!(HALF, 0.5f64.to_bits());
    assert_eq!(NEG_HALF, (-0.5f64).to_bits());
    assert_eq!(MAX, f64::MAX.to_bits());
    assert_eq!(MIN, f64::MIN.to_bits());
    assert_eq!(INFINITY, f64::INFINITY.to_bits());
    assert_eq!(NEG_INFINITY, f64::NEG_INFINITY.to_bits());
    assert_eq!(SIGN, (-0.0f64).to_bits());
    assert!(f64::from_bits(NAN).is_nan());
    assert_eq!(NAN, f64::NAN.to_bits());
    assert_eq!(SINGLE_ONE, 1.0f32.to_bits());
    assert_eq!(SINGLE_INFINITY, f32::INFINITY.to_bits());
    assert_eq!(SINGLE_SIGN, (-0.0f32).to_bits());
}

#[test]
fn bits_round_trip() {
    assert_eq!(Double::from_bits(0x4024_0000_0000_0000).to_bits(), 0x4024_0000_0000_0000);
    assert_eq!(val(Double::from_bits(0x4024_0000_0000_0000)), 10.0);
    assert_eq!(Single::from_bits(0x4120_0000).to_bits(), 0x4120_0000);
    assert_eq!(f32::from_bits(Single::from_bits(0x4120_0000).to_bits()), 10.0);
}

#[test]
fn nan_and_zero_are_recognised() {
    for x in doubles() {
        assert_eq!(num(x).is_nan(), x.is_nan(), "is_nan of {:?}", x);
        assert_eq!(num(x).is_zero(), x == 0.0, "is_zero of {:?}", x);
    }
    for x in singles() {
        assert_eq!(single(x).is_nan(), x.is_nan(), "is_nan of {:?}", x);
    }
}

#[test]
fn comparisons_agree_with_the_hardware() {
    for a in doubles() {
        for b in doubles() {
            assert_eq!(num(a).le(num(b)), a <= b, "{:?} <= {:?}", a, b);
            assert_eq!(num(a).lt(num(b)), a < b, "{:?} < {:?}", a, b);
            assert_eq!(num(a).ge(num(b)), a >= b, "{:?} >= {:?}", a, b);
            assert_eq!(num(a).gt(num(b)), a > b, "{:?} > {:?}", a, b);
            assert_eq!(num(a).same(num(b)), a == b, "{:?} == {:?}", a, b);
        }
    }
}

#[test]
fn single_comparison_agrees_with_the_hardware() {
    for a in singles() {
        for b in singles() {
            assert_eq!(single(a).gt(single(b)), a > b, "{:?} > {:?}", a, b);
        }
    }
}

#[test]
fn extremes_agree_with_the_hardware() {
    for a in doubles() {
        for b in doubles() {
            let low = val(num(a).min(num(b)));
            let high = val(num(a).max(num(b)));
            let want_low = a.min(b);
            let want_high = a.max(b);
            if want_low.is_nan() {
                assert!(low.is_nan(), "min of {:?} and {:?}", a, b);
            } else {
                assert_eq!(low, want_low, "min of {:?} and {:?}", a, b);
            }
            if want_high.is_nan() {
                assert!(high.is_nan(), "max of {:?} and {:?}", a, b);
            } else {
                assert_eq!(high, want_high, "max of {:?} and {:?}", a, b);
            }
        }
    }
}

#[test]
fn extremes_pick_an_operand() {
    assert_eq!(num(3.0).min(num(7.0)), num(3.0));
    assert_eq!(num(7.0).min(num(3.0)), num(3.0));
    assert_eq!(num(3.0).max(num(7.0)), num(7.0));
    assert_eq!(num(f64::NAN).min(num(7.0)), num(7.0));
    assert_eq!(num(7.0).max(num(f64::NAN)), num(7.0));
    assert_eq!(num(f64::MAX).min(num(f64::INFINITY)), num(f64::MAX));
    assert_eq!(num(f64::MIN).max(num(f64::NEG_INFINITY)), num(f64::MIN));
}

#[test]
fn the_unit_is_asked_each_instruction() {
    assert_eq!(run(&fpu, Op::Add(num(1.5), num(2.25))), 3.75f64.to_bits());
    assert_eq!(val(plus(&fpu, num(2.0), num(3.0))), 5.0);
    assert_eq!(val(minus(&fpu, num(2.0), num(3.0))), -1.0);
    assert_eq!(val(times(&fpu, num(2.5), num(4.0))), 10.0);
    assert_eq!(val(over(&fpu, num(1.0), num(8.0))), 0.125);
    assert_eq!(val(sqrt(&fpu, num(81.0))), 9.0);
    assert_eq!(val(of_int(&fpu, 86_400_000)), 86_400_000.0);
    assert_eq!(val(of_int(&fpu, u128::MAX)), u128::MAX as f64);
    assert_eq!(truncate(&fpu, num(7.9)), 7);
    assert_eq!(truncate(&fpu, num(-3.0)), 0);
    assert_eq!(truncate(&fpu, num(f64::NAN)), 0);
    assert_eq!(truncate(&fpu, num(1e300)), usize::MAX);
    assert_eq!(narrow(&fpu, num(2.5)), single(2.5));
    assert_eq!(narrow(&fpu, num(1e300)), single(f32::INFINITY));
    assert_eq!(plus_single(&fpu, single(2.0), single(1.0)), single(3.0));
    assert_eq!(plus_single(&fpu, single(16_777_216.0), single(1.0)), single(16_777_216.0));
}
