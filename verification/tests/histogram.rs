use kafka_metrics::arith::Op;
use kafka_metrics::histogram::{BinScheme, Histogram};
use kafka_metrics::ieee::{Double, Single};

fn fpu(op: Op) -> u64 {
    match op {
        Op::Add(a, b) => (f64::from_bits(a.bits) + f64::from_bits(b.bits)).to_bits(),
        Op::Sub(a, b) => (f64::from_bits(a.bits) - f64::from_bits(b.bits)).to_bits(),
        Op::Mul(a, b) => (f64::from_bits(a.bits) * f64::from_bits(b.bits)).to_bits(),
        Op::Div(a, b) => (f64::from_bits(a.bits) / f64::from_bits(b.bits)).to_bits(),
        Op::Sqrt(a) => f64::from_bits(a.bits).sqrt().to_bits(),
        Op::FromInt(n) => (n as f64).to_bits(),
        Op::Truncate(a) => f64::from_bits(a.bits) as usize as u64,
        Op::Narrow(a) => (f64::from_bits(a.bits) as f32).to_bits() as u64,
        Op::AddSingle(a, b) => (f32::from_bits(a.bits) + f32::from_bits(b.bits)).to_bits() as u64,
    }
}

fn num(x: f64) -> Double {
    Double::from_bits(x.to_bits())
}

fn val(d: Double) -> f64 {
    f64::from_bits(d.to_bits())
}

fn counts(histogram: &Histogram) -> Vec<f32> {
    histogram.counts().iter().map(|c: &Single| f32::from_bits(c.to_bits())).collect()
}

#[test]
fn histogram_quantile_empty() {
    let histogram = Histogram::new(BinScheme::new_constant(10, num(0.0), num(100.0), &fpu));
    assert!(val(histogram.value(num(0.5), &fpu)).is_nan());
    assert!(val(histogram.value(num(2.0), &fpu)).is_nan());
    assert!(val(histogram.value(num(-1.0), &fpu)).is_nan());
}

#[test]
fn histogram_round_trip_constant() {
    let scheme = BinScheme::new_constant(10, num(0.0), num(100.0), &fpu);
    assert_eq!(scheme.to_bin(scheme.from_bin(5, &fpu), &fpu), 5);
    for bin in 1..9 {
        assert_eq!(scheme.to_bin(scheme.from_bin(bin, &fpu), &fpu), bin);
    }
    assert_eq!(scheme.to_bin(scheme.from_bin(0, &fpu), &fpu), 0);
    assert_eq!(scheme.to_bin(scheme.from_bin(9, &fpu), &fpu), 9);
    assert_eq!(scheme.to_bin(scheme.from_bin(10, &fpu), &fpu), 9);
}

#[test]
fn constant_scheme_is_built_from_its_range() {
    match BinScheme::new_constant(10, num(-20.0), num(100.0), &fpu) {
        BinScheme::Constant { bins, min, max, bucket_width, max_bin_number } => {
            assert_eq!(bins, 10);
            assert_eq!(val(min), -20.0);
            assert_eq!(val(max), 100.0);
            assert_eq!(val(bucket_width), 12.0);
            assert_eq!(max_bin_number, 9);
        },
        BinScheme::Linear { .. } => panic!("a constant scheme was asked for"),
    }
}

#[test]
fn linear_scheme_is_built_from_its_maximum() {
    match BinScheme::new_linear(10, num(90.0), &fpu) {
        BinScheme::Linear { bins, max, scale } => {
            assert_eq!(bins, 10);
            assert_eq!(val(max), 90.0);
            assert_eq!(val(scale), 2.0);
        },
        BinScheme::Constant { .. } => panic!("a linear scheme was asked for"),
    }
}

#[test]
fn constant_scheme_holds_values_to_its_bins() {
    let scheme = BinScheme::new_constant(10, num(0.0), num(100.0), &fpu);
    assert_eq!(scheme.to_bin(num(0.0), &fpu), 0);
    assert_eq!(scheme.to_bin(num(9.99), &fpu), 0);
    assert_eq!(scheme.to_bin(num(10.0), &fpu), 1);
    assert_eq!(scheme.to_bin(num(55.5), &fpu), 5);
    assert_eq!(scheme.to_bin(num(99.9), &fpu), 9);
    assert_eq!(scheme.to_bin(num(100.0), &fpu), 9);
    assert_eq!(scheme.to_bin(num(1e12), &fpu), 9);
    assert_eq!(scheme.to_bin(num(f64::INFINITY), &fpu), 9);
    assert_eq!(scheme.to_bin(num(-0.01), &fpu), 0);
    assert_eq!(scheme.to_bin(num(-1e12), &fpu), 0);
    assert_eq!(scheme.to_bin(num(f64::NAN), &fpu), 0);
}

#[test]
fn constant_scheme_gives_the_start_of_each_bin() {
    let scheme = BinScheme::new_constant(10, num(-20.0), num(100.0), &fpu);
    assert_eq!(val(scheme.from_bin(0, &fpu)), -20.0);
    assert_eq!(val(scheme.from_bin(1, &fpu)), -8.0);
    assert_eq!(val(scheme.from_bin(9, &fpu)), 88.0);
    assert_eq!(val(scheme.from_bin(10, &fpu)), f64::INFINITY);
    assert_eq!(val(scheme.from_bin(usize::MAX, &fpu)), f64::INFINITY);
}

#[test]
fn linear_scheme_widens_its_bins() {
    let scheme = BinScheme::new_linear(10, num(90.0), &fpu);
    let starts = [0.0, 2.0, 6.0, 12.0, 20.0, 30.0, 42.0, 56.0, 72.0, 90.0];
    for (bin, start) in starts.iter().enumerate() {
        assert_eq!(val(scheme.from_bin(bin, &fpu)), *start);
        assert_eq!(scheme.to_bin(num(*start), &fpu), bin);
    }
    assert_eq!(val(scheme.from_bin(10, &fpu)), f64::INFINITY);
    assert_eq!(scheme.to_bin(num(1.99), &fpu), 0);
    assert_eq!(scheme.to_bin(num(5.99), &fpu), 1);
    assert_eq!(scheme.to_bin(num(89.9), &fpu), 8);
    assert_eq!(scheme.to_bin(num(90.1), &fpu), 9);
    assert_eq!(scheme.to_bin(num(f64::INFINITY), &fpu), 9);
}

#[test]
fn new_histogram_counts_nothing() {
    let histogram = Histogram::new(BinScheme::new_linear(4, num(60.0), &fpu));
    assert_eq!(counts(&histogram), vec![0.0, 0.0, 0.0, 0.0]);
}

#[test]
fn record_counts_a_value_in_its_bin() {
    let mut histogram = Histogram::new(BinScheme::new_constant(5, num(0.0), num(50.0), &fpu));
    for v in [1.0, 12.0, 15.0, 49.0, 500.0, -3.0] {
        histogram.record(num(v), &fpu);
    }
    assert_eq!(counts(&histogram), vec![2.0, 2.0, 0.0, 0.0, 2.0]);
}

#[test]
fn value_finds_the_bin_where_the_running_count_crosses() {
    let mut histogram = Histogram::new(BinScheme::new_constant(10, num(0.0), num(100.0), &fpu));
    for v in [5.0, 15.0, 25.0, 35.0, 45.0, 55.0, 65.0, 75.0, 85.0, 95.0] {
        histogram.record(num(v), &fpu);
    }
    assert_eq!(val(histogram.value(num(0.0), &fpu)), 0.0);
    assert_eq!(val(histogram.value(num(0.05), &fpu)), 0.0);
    assert_eq!(val(histogram.value(num(0.1), &fpu)), 10.0);
    assert_eq!(val(histogram.value(num(0.5), &fpu)), 50.0);
    assert_eq!(val(histogram.value(num(0.95), &fpu)), 90.0);
    assert_eq!(val(histogram.value(num(1.0), &fpu)), 90.0);
}

#[test]
fn value_of_a_share_beyond_the_range_is_infinite() {
    let mut histogram = Histogram::new(BinScheme::new_constant(10, num(0.0), num(100.0), &fpu));
    histogram.record(num(42.0), &fpu);
    assert_eq!(val(histogram.value(num(1.5), &fpu)), f64::INFINITY);
    assert_eq!(val(histogram.value(num(-0.5), &fpu)), f64::NEG_INFINITY);
    assert_eq!(val(histogram.value(num(0.5), &fpu)), 40.0);
    assert_eq!(val(histogram.value(num(f64::NAN), &fpu)), 90.0);
}

#[test]
fn value_follows_the_linear_scheme() {
    let mut histogram = Histogram::new(BinScheme::new_linear(10, num(90.0), &fpu));
    for v in [1.0, 1.5, 3.0, 13.0, 80.0, 1000.0] {
        histogram.record(num(v), &fpu);
    }
    assert_eq!(counts(&histogram), vec![2.0, 1.0, 0.0, 1.0, 0.0, 0.0, 0.0, 0.0, 1.0, 1.0]);
    assert_eq!(val(histogram.value(num(0.3), &fpu)), 0.0);
    assert_eq!(val(histogram.value(num(0.4), &fpu)), 2.0);
    assert_eq!(val(histogram.value(num(0.5), &fpu)), 12.0);
    assert_eq!(val(histogram.value(num(0.9), &fpu)), 90.0);
}

#[test]
fn clear_forgets_every_value() {
    let mut histogram = Histogram::new(BinScheme::new_constant(4, num(0.0), num(40.0), &fpu));
    histogram.record(num(5.0), &fpu);
    histogram.record(num(35.0), &fpu);
    histogram.clear();
    assert_eq!(counts(&histogram), vec![0.0, 0.0, 0.0, 0.0]);
    assert!(val(histogram.value(num(0.5), &fpu)).is_nan());
    histogram.record(num(25.0), &fpu);
    assert_eq!(counts(&histogram), vec![0.0, 0.0, 1.0, 0.0]);
    assert_eq!(val(histogram.value(num(0.5), &fpu)), 20.0);
}
