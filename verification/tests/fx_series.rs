use neuron_modeler::fx::Fx;
use neuron_modeler::series::{exp_neg, sample_interval, sin_fx};

#[test]
fn fixed_point_add_and_saturation() {
    assert_eq!(Fx::from_int(2).add(Fx::from_int(3)).micros(), 5_000_000);
    assert_eq!(Fx::from_micros(i64::MAX).add(Fx::from_micros(1)).micros(), i64::MAX);
    assert_eq!(Fx::from_micros(i64::MIN).sub(Fx::from_micros(1)).micros(), i64::MIN);
    assert_eq!(Fx::from_micros(i64::MIN).neg().micros(), i64::MAX);
}

#[test]
fn fixed_point_mul_truncates_toward_zero() {
    assert_eq!(Fx::from_int(3).mul(Fx::from_int(2)).micros(), 6_000_000);
    assert_eq!(Fx::from_int(-3).mul(Fx::from_int(2)).micros(), -6_000_000);
    // 1.5 * 0.5 = 0.75
    assert_eq!(Fx::from_micros(1_500_000).mul(Fx::from_micros(500_000)).micros(), 750_000);
    // a product under one raw unit truncates toward zero
    assert_eq!(Fx::from_micros(-1).mul(Fx::from_micros(500_000)).micros(), 0);
}

#[test]
fn fixed_point_div_behaviour() {
    assert_eq!(Fx::from_int(1).div(Fx::from_int(3)).micros(), 333_333);
    assert_eq!(Fx::from_int(-1).div(Fx::from_int(3)).micros(), -333_333);
    assert_eq!(Fx::from_int(5).div(Fx::zero()).micros(), i64::MAX);
    assert_eq!(Fx::from_int(-5).div(Fx::zero()).micros(), i64::MIN);
    assert_eq!(Fx::zero().div(Fx::zero()).micros(), 0);
}

#[test]
fn fixed_point_rem_cycles() {
    assert_eq!(Fx::from_int(7).rem(Fx::from_int(2)).micros(), 1_000_000);
    assert_eq!(Fx::from_int(4).rem(Fx::from_int(2)).micros(), 0);
    assert_eq!(Fx::from_micros(2_500_000).rem(Fx::from_int(1)).micros(), 500_000);
}

#[test]
fn from_int_saturates() {
    assert_eq!(Fx::from_int(i64::MAX).micros(), i64::MAX);
    assert_eq!(Fx::from_int(1).micros(), 1_000_000);
    assert_eq!(Fx::from_int(-65).micros(), -65_000_000);
}

#[test]
fn sine_hits_known_points() {
    assert_eq!(sin_fx(Fx::zero()).micros(), 0);
    // quarter turn: close to one
    let quarter = sin_fx(Fx::from_micros(1_570_796)).micros();
    assert!((1_000_000 - quarter).abs() < 1_000, "sin(pi/2) = {quarter}");
    // three quarter turn: close to minus one
    let three_q = sin_fx(Fx::from_micros(4_712_389)).micros();
    assert!((-1_000_000 - three_q).abs() < 1_000, "sin(3pi/2) = {three_q}");
    // half turn: close to zero
    let half = sin_fx(Fx::from_micros(3_141_593)).micros();
    assert!(half.abs() < 1_000, "sin(pi) = {half}");
}

#[test]
fn exponential_known_points() {
    assert_eq!(exp_neg(Fx::zero()).micros(), 1_000_000);
    let e1 = exp_neg(Fx::from_int(1)).micros();
    assert!((e1 - 367_879).abs() < 50, "exp(-1) = {e1}");
    let e2 = exp_neg(Fx::from_int(2)).micros();
    assert!((e2 - 135_335).abs() < 50, "exp(-2) = {e2}");
    // a huge rate underflows to zero
    assert_eq!(exp_neg(Fx::from_int(40)).micros(), 0);
}

#[test]
fn interval_sampling_is_a_function_of_rate_and_draw() {
    let a = sample_interval(Fx::from_int(5), 123_456);
    let b = sample_interval(Fx::from_int(5), 123_456);
    assert_eq!(a, b);
}

#[test]
fn interval_sampling_zero_rate_never_pulses_again() {
    // with rate zero the first cumulative term is one, so the count is zero
    // and the spacing saturates
    assert_eq!(sample_interval(Fx::zero(), 999_999).micros(), i64::MAX);
}

#[test]
fn interval_sampling_high_draw_gives_finite_spacing() {
    // rate five, a draw near the top of the unit interval: several pulses
    // fit the window, so the spacing is finite and under one window
    let t = sample_interval(Fx::from_int(5), 999_999).micros();
    assert!(t >= 0 && t < 1_000_000_000, "spacing = {t}");
}

#[test]
fn sine_never_leaves_the_unit_range() {
    // near the quarter turn the raw series overshoots one by a few
    // millionths; the evaluation holds it to one
    let quarter = sin_fx(Fx::from_micros(1_570_796)).micros();
    assert!(quarter <= 1_000_000 && quarter >= 999_990, "sin(pi/2) = {quarter}");
    let three_q = sin_fx(Fx::from_micros(4_712_389)).micros();
    assert!(three_q >= -1_000_000 && three_q <= -999_990, "sin(3pi/2) = {three_q}");
    // a sweep of angles stays within one each way
    for i in 0..630 {
        let s = sin_fx(Fx::from_micros(i * 10_000)).micros();
        assert!((-1_000_000..=1_000_000).contains(&s), "sin at {i}: {s}");
    }
}
