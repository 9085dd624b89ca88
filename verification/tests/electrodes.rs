use neuron_modeler::electrode::{
    Electrode, PoissonElectrode, PulsatingElectrode, PulseElectrode, SinusoidalElectrode,
};
use neuron_modeler::fx::Fx;

#[test]
fn pulse_outputs_for_duration_then_self_deactivates() {
    let mut e = PulseElectrode::new(Fx::from_int(5), Fx::from_int(3));
    assert_eq!(e.voltage().micros(), 5_000_000);
    assert_eq!(e.duration().micros(), 3_000_000);
    assert_eq!(e.output().micros(), 0);
    // inactive: processing keeps the output at zero
    assert_eq!(e.process(Fx::from_int(1)).micros(), 0);
    e.on();
    let dt = Fx::from_int(1);
    // accumulated time runs 0,1,2,3 through the duration check
    for _ in 0..4 {
        assert_eq!(e.process(dt).micros(), 5_000_000);
    }
    // past the duration: output drops and the electrode switches itself off
    assert_eq!(e.process(dt).micros(), 0);
    assert!(!e.active);
    assert_eq!(e.process(dt).micros(), 0);
}

#[test]
fn pulse_off_clears_on_next_step() {
    let mut e = PulseElectrode::new(Fx::from_int(5), Fx::from_int(3));
    e.on();
    e.process(Fx::from_int(1));
    e.off();
    assert_eq!(e.process(Fx::from_int(1)).micros(), 0);
    assert_eq!(e.a.micros(), 0);
}

#[test]
fn pulsating_follows_its_duty_cycle() {
    let mut e = PulsatingElectrode::new(Fx::from_int(2), Fx::from_int(1), Fx::from_int(1));
    e.on();
    let dt = Fx::from_micros(500_000);
    // cycle length two: on while the cycle remainder is within the duration
    assert_eq!(e.process(dt).micros(), 2_000_000);  // a = 0.5
    assert_eq!(e.process(dt).micros(), 2_000_000);  // a = 1.0
    assert_eq!(e.process(dt).micros(), 0);  // a = 1.5
    assert_eq!(e.process(dt).micros(), 2_000_000);  // a = 2.0 wraps
    // switching off clears and stays silent
    e.off();
    assert_eq!(e.process(dt).micros(), 0);
    assert_eq!(e.a.micros(), 0);
}

#[test]
fn sinusoidal_tracks_the_wave() {
    let mut e = SinusoidalElectrode::new(Fx::from_int(2), Fx::from_int(4), Fx::zero());
    e.on();
    let dt = Fx::from_int(1);
    // a quarter period: the wave peaks near the full voltage
    let peak = e.process(dt).micros();
    assert!((peak - 2_000_000).abs() < 3_000, "peak = {peak}");
    // half period: near half voltage
    let mid = e.process(dt).micros();
    assert!((mid - 1_000_000).abs() < 3_000, "mid = {mid}");
    // three quarters: near zero
    let low = e.process(dt).micros();
    assert!(low.abs() < 3_000, "low = {low}");
}

#[test]
fn poisson_with_fixed_seed_is_deterministic() {
    let mut first: Vec<i64> = Vec::new();
    let mut second: Vec<i64> = Vec::new();
    for out in [&mut first, &mut second] {
        let mut e = PoissonElectrode::new(Fx::from_int(1), Fx::from_int(5), 42);
        e.on();
        for _ in 0..2500 {
            out.push(e.process(Fx::from_int(1)).micros());
        }
    }
    assert_eq!(first, second);
    // the train actually pulses and actually pauses
    assert!(first.iter().any(|&y| y == 1_000_000));
    assert!(first.iter().any(|&y| y == 0));
}

#[test]
fn poisson_inactive_is_silent() {
    let mut e = PoissonElectrode::new(Fx::from_int(1), Fx::from_int(5), 7);
    for _ in 0..10 {
        assert_eq!(e.process(Fx::from_int(1)).micros(), 0);
    }
    assert_eq!(e.state.a.micros(), 0);
}

#[test]
fn electrode_dispatch_matches_the_variant() {
    let mut e = Electrode::Pulse(PulseElectrode::new(Fx::from_int(3), Fx::from_int(1)));
    assert_eq!(e.voltage().micros(), 3_000_000);
    assert_eq!(e.duration().micros(), 1_000_000);
    e.on();
    assert_eq!(e.process(Fx::from_int(1)).micros(), 3_000_000);
    assert_eq!(e.output().micros(), 3_000_000);
    e.off();
    assert_eq!(e.process(Fx::from_int(1)).micros(), 0);

    let mut s = Electrode::Sinusoidal(SinusoidalElectrode::new(
        Fx::from_int(2),
        Fx::from_int(4),
        Fx::zero(),
    ));
    s.on();
    let peak = s.process(Fx::from_int(1)).micros();
    assert!((peak - 2_000_000).abs() < 3_000);
}

#[test]
fn sinusoidal_output_stays_within_its_peak() {
    // unit peak, period four, no phase: the first whole step lands on the
    // crest, where the raw series would overshoot the peak
    let mut e = SinusoidalElectrode::new(Fx::from_int(1), Fx::from_int(4), Fx::zero());
    e.on();
    let crest = e.process(Fx::from_int(1)).micros();
    assert!(crest <= 1_000_000 && crest >= 999_990, "crest = {crest}");
    // a fine sweep through several periods never leaves [0, v]
    let mut f = SinusoidalElectrode::new(Fx::from_int(1), Fx::from_int(4), Fx::zero());
    f.on();
    for _ in 0..200 {
        let y = f.process(Fx::from_micros(100_000)).micros();
        assert!((0..=1_000_000).contains(&y), "wave output {y}");
    }
}
