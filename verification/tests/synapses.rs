use neuron_modeler::fx::Fx;
use neuron_modeler::ids::{NeuriteID, SynapticID};
use neuron_modeler::plasticity::ShortTermPlasticity;
use neuron_modeler::synapse::{
    ExcitatorySynapse, GapJunctionSynapse, InhibitorySynapse, Modulation, NeuralModulatorySynapse,
    NeuriteModVar, PresynapticInput, ShuntingInhibitorySynapse, SynapseType,
    SynapticModulatorySynapse, SynapticModVar,
};

fn stp() -> ShortTermPlasticity {
    ShortTermPlasticity::new(Fx::from_int(2), Fx::from_int(2), Fx::from_micros(500_000))
}

#[test]
fn plasticity_silent_step_exact() {
    let mut s = stp();
    let y = s.learn(false);
    // facilitation loses half, depression recovers half of its headroom
    assert_eq!(s.f.micros(), 500_000);
    assert_eq!(s.d.micros(), 500_000);
    // the output uses the depression from before the step, which was zero
    assert_eq!(y.micros(), 0);
}

#[test]
fn plasticity_spike_step_exact() {
    let mut s = stp();
    s.learn(false);
    let y = s.learn(true);
    // f: 0.5 + 0.5 * (1 - 0.5) = 0.75; d: 0.5 - 0.75 * 0.5 = 0.125
    assert_eq!(s.f.micros(), 750_000);
    assert_eq!(s.d.micros(), 125_000);
    // y: fresh f times the depression before this step
    assert_eq!(y.micros(), 375_000);
    assert_eq!(s.y.micros(), 375_000);
}

#[test]
fn plasticity_silence_drives_f_down_and_d_up() {
    let mut s = stp();
    for _ in 0..200 {
        s.learn(false);
    }
    // facilitation bottoms out within one quantum of zero, depression within
    // one quantum of one
    assert_eq!(s.f.micros(), 1);
    assert_eq!(s.d.micros(), 999_999);
}

#[test]
fn excitatory_process_exact() {
    let post = NeuriteID { id: 7 };
    let mut syn = ExcitatorySynapse::new(
        PresynapticInput::Electrode(0),
        post,
        stp(),
        Fx::from_int(2),
        Fx::from_int(1),
    );
    syn.set_weight(Fx::from_int(1));
    assert_eq!(syn.syn_type(), SynapseType::Excitatory);
    assert_eq!(syn.input().micros(), 0);
    // one silent step primes depression, a spike then opens conductance
    let first = syn.process(Fx::zero(), None);
    assert_eq!(first.micros(), 0);
    let second = syn.process(Fx::from_int(1), None);
    assert_eq!(second.micros(), 375_000);
    assert_eq!(syn.input().micros(), 375_000);
}

#[test]
fn excitatory_weight_modulation_scales_input() {
    let post = NeuriteID { id: 7 };
    let mut syn = ExcitatorySynapse::new(
        PresynapticInput::Neurite(3),
        post,
        stp(),
        Fx::from_int(2),
        Fx::from_int(1),
    );
    syn.set_weight(Fx::from_int(1));
    let m = Some(Modulation { var: SynapticModVar::W, x: Fx::from_int(2) });
    syn.process(Fx::zero(), m);
    let got = syn.process(Fx::from_int(1), m);
    assert_eq!(got.micros(), 750_000);
}

#[test]
fn inhibitory_matches_excitatory_dynamics() {
    let post = NeuriteID { id: 9 };
    let mut syn = InhibitorySynapse::new(
        PresynapticInput::Sensor(1),
        post,
        stp(),
        Fx::from_int(2),
        Fx::from_int(1),
    );
    syn.set_weight(Fx::from_int(1));
    assert_eq!(syn.syn_type(), SynapseType::Inhibitory);
    syn.process(Fx::zero(), None);
    assert_eq!(syn.process(Fx::from_int(1), None).micros(), 375_000);
}

#[test]
fn shunting_scalar_is_clamped_not_rejected() {
    let post = NeuriteID { id: 1 };
    let high = ShuntingInhibitorySynapse::new(
        PresynapticInput::Electrode(0),
        post,
        stp(),
        Fx::from_int(5),
        Fx::from_int(2),
        Fx::from_int(1),
    );
    assert_eq!(high.shunt().micros(), 1_000_000);
    let low = ShuntingInhibitorySynapse::new(
        PresynapticInput::Electrode(0),
        post,
        stp(),
        Fx::from_int(-3),
        Fx::from_int(2),
        Fx::from_int(1),
    );
    assert_eq!(low.shunt().micros(), -2_000_000);
    let inside = ShuntingInhibitorySynapse::new(
        PresynapticInput::Electrode(0),
        post,
        stp(),
        Fx::from_micros(-500_000),
        Fx::from_int(2),
        Fx::from_int(1),
    );
    assert_eq!(inside.shunt().micros(), -500_000);
}

#[test]
fn synaptic_modulatory_output_and_tag() {
    let post = NeuriteID { id: 2 };
    let mut syn = SynapticModulatorySynapse::new(
        SynapticModVar::W,
        PresynapticInput::Electrode(0),
        post,
        stp(),
        Fx::from_int(2),
    );
    assert_eq!(syn.syn_type(), SynapseType::SynapticModulator(SynapticModVar::W));
    syn.process(Fx::zero(), None);
    // the gain is the bare plasticity output: no weight, no maximum
    assert_eq!(syn.process(Fx::from_int(1), None).micros(), 375_000);
    let m = syn.modulation();
    assert_eq!(m.var, SynapticModVar::W);
    assert_eq!(m.x.micros(), 375_000);
}

#[test]
fn neural_modulatory_output() {
    let post = NeuriteID { id: 2 };
    let mut syn = NeuralModulatorySynapse::new(
        NeuriteModVar::GCC,
        PresynapticInput::Neurite(0),
        post,
        stp(),
        Fx::from_int(2),
    );
    assert_eq!(syn.syn_type(), SynapseType::NeuralModulator(NeuriteModVar::GCC));
    syn.process(Fx::zero(), None);
    assert_eq!(syn.process(Fx::from_int(1), None).micros(), 375_000);
}

#[test]
fn gap_junction_is_symmetric_per_side() {
    let post = NeuriteID { id: 4 };
    let mut gap = GapJunctionSynapse::new(
        PresynapticInput::Neurite(0),
        post,
        stp(),
        Fx::from_int(1),
    );
    gap.set_weight(Fx::from_int(1));
    assert_eq!(gap.syn_type(), SynapseType::Gap);
    // prime plasticity with a silent step on both sides
    assert_eq!(gap.process(Fx::zero(), Fx::zero(), None).micros(), 0);
    // only side a active: the net input leans toward a
    let net = gap.process(Fx::from_int(1), Fx::zero(), None);
    assert_eq!(net.micros(), 375_000);
    assert_eq!(gap.ax.micros(), 375_000);
    assert_eq!(gap.bx.micros(), 0);
}

#[test]
fn gap_junction_both_sides_cancel() {
    let post = NeuriteID { id: 4 };
    let mut gap = GapJunctionSynapse::new(
        PresynapticInput::Neurite(0),
        post,
        stp(),
        Fx::from_int(1),
    );
    gap.set_weight(Fx::from_int(1));
    gap.process(Fx::zero(), Fx::zero(), None);
    let net = gap.process(Fx::from_int(1), Fx::from_int(1), None);
    assert_eq!(net.micros(), 0);
    assert_eq!(gap.ax.micros(), 375_000);
    assert_eq!(gap.bx.micros(), 375_000);
}

#[test]
fn synaptic_ids_are_distinct() {
    let a = SynapticID::new();
    let b = SynapticID::new();
    assert_ne!(a.id, b.id);
}
