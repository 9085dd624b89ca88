use neuron_modeler::fx::Fx;
use neuron_modeler::neurite::{Neurite, NeuriteType, SpikeModel, TreeError};
use neuron_modeler::synapse::NeuriteModVar;

#[test]
fn new_carries_the_preset() {
    let n = Neurite::new(NeuriteType::Soma, SpikeModel::RegularSpiking);
    assert_eq!(n.neurite_type(), NeuriteType::Soma);
    assert_eq!(n.spike_model(), SpikeModel::RegularSpiking);
    assert_eq!(n.u.micros(), -12_600_000);
    assert_eq!(n.potential().micros(), -63_000_000);
    assert_eq!(n.spike_output().micros(), 0);
    assert!(n.ext.is_none());
    assert_eq!(n.child_count(), 0);
    assert!(n.parent().is_none());

    let x = Neurite::new(NeuriteType::ApicalTrunk, SpikeModel::ChatteringII);
    assert!(x.ext.is_some());
    assert_eq!(x.u.micros(), 0);
    assert_eq!(x.potential().micros(), -60_000_000);
}

#[test]
fn reset_restores_preset_defaults() {
    let mut n = Neurite::new(NeuriteType::Soma, SpikeModel::RegularSpiking);
    n.set_coupling(Fx::from_int(10), Fx::zero());
    for _ in 0..50 {
        n.process(Fx::from_micros(250_000));
    }
    assert_ne!(n.potential().micros(), -63_000_000);
    n.reset();
    assert_eq!(n.u.micros(), -12_600_000);
    assert_eq!(n.potential().micros(), -63_000_000);
    assert_eq!(n.spike_output().micros(), 0);

    let mut x = Neurite::new(NeuriteType::Soma, SpikeModel::Thalamocortical);
    x.v = Fx::from_int(50);
    x.u = Fx::from_int(9);
    x.reset();
    assert_eq!(x.u.micros(), 0);
    assert_eq!(x.potential().micros(), -60_000_000);
    assert_eq!(x.spike_output().micros(), 0);
}

#[test]
fn simple_model_at_rest_never_spikes() {
    let mut n = Neurite::new(NeuriteType::Soma, SpikeModel::TonicSpiking);
    for _ in 0..10_000 {
        let (rep, y) = n.process(Fx::from_int(1));
        assert_eq!(y.micros(), 0);
        assert_eq!(rep.micros(), -70_000_000);
    }
    assert_eq!(n.potential().micros(), -70_000_000);
    assert_eq!(n.u.micros(), -14_000_000);
}

#[test]
fn regular_spiking_stays_silent_without_input() {
    let mut n = Neurite::new(NeuriteType::Soma, SpikeModel::RegularSpiking);
    for _ in 0..10_000 {
        let (_, y) = n.process(Fx::from_micros(250_000));
        assert_eq!(y.micros(), 0);
    }
}

#[test]
fn extended_model_fires_once_at_its_peak() {
    let mut n = Neurite::new(NeuriteType::Soma, SpikeModel::ChatteringII);
    // force the potential above the peak constant of twenty-five
    n.v = Fx::from_int(30);
    let (rep, y) = n.process(Fx::from_int(1));
    assert_eq!(y.micros(), 1_000_000);
    assert_eq!(rep.micros(), 25_000_000);
    // the potential resets to c and the recovery is bumped by d
    assert_eq!(n.potential().micros(), -40_000_000);
    assert_eq!(n.u.micros(), 158_370_000);
    // the pulse is one step long: the next step is silent
    let (rep2, y2) = n.process(Fx::from_int(1));
    assert_eq!(y2.micros(), 0);
    assert_eq!(rep2.micros(), -43_167_400);
}

#[test]
fn simple_model_fires_at_thirty() {
    let mut n = Neurite::new(NeuriteType::Soma, SpikeModel::TonicSpiking);
    n.v = Fx::from_int(31);
    let (rep, y) = n.process(Fx::from_micros(1));
    assert_eq!(y.micros(), 1_000_000);
    assert_eq!(rep.micros(), 30_000_000);
    assert_eq!(n.potential().micros(), -65_000_000);
}

#[test]
fn set_spike_model_swaps_the_whole_preset() {
    let mut n = Neurite::new(NeuriteType::Soma, SpikeModel::RegularSpiking);
    let id = n.neurite_id();
    n.set_spike_model(SpikeModel::Thalamocortical);
    assert_eq!(n.spike_model(), SpikeModel::Thalamocortical);
    assert_eq!(n.a.micros(), 100_000);
    assert_eq!(n.b.micros(), 15_000_000);
    assert_eq!(n.potential().micros(), -60_000_000);
    assert!(n.ext.is_some());
    assert_eq!(n.neurite_id(), id);
    n.set_spike_model(SpikeModel::RegularSpiking);
    assert!(n.ext.is_none());
    assert_eq!(n.u.micros(), -12_600_000);
}

#[test]
fn modulation_rescales_named_variables() {
    let mut n = Neurite::new(NeuriteType::Soma, SpikeModel::RegularSpiking);
    n.modulate(NeuriteModVar::A, Fx::from_int(2));
    assert_eq!(n.a.micros(), 40_000);
    // an extended constant on a simple model is untouched
    n.modulate(NeuriteModVar::GCC, Fx::from_int(2));
    assert!(n.ext.is_none());

    let mut x = Neurite::new(NeuriteType::Soma, SpikeModel::ChatteringII);
    x.modulate(NeuriteModVar::CAP, Fx::from_int(2));
    assert_eq!(x.ext.unwrap().cap.micros(), 100_000_000);
}

#[test]
fn soma_never_adopts_a_soma() {
    let mut soma = Neurite::new(NeuriteType::Soma, SpikeModel::RegularSpiking);
    let other = Neurite::new(NeuriteType::Soma, SpikeModel::RegularSpiking);
    match soma.add_child(other) {
        Err((e, _)) => assert_eq!(e, TreeError::IllegalChild),
        Ok(()) => panic!("a soma adopted a soma"),
    }
    assert_eq!(soma.child_count(), 0);
}

#[test]
fn soma_always_adopts_basal_proximal() {
    let mut soma = Neurite::new(NeuriteType::Soma, SpikeModel::RegularSpiking);
    for _ in 0..3 {
        let bp = Neurite::new(NeuriteType::BasalProximal, SpikeModel::RegularSpiking);
        assert!(soma.add_child(bp).is_ok());
    }
    assert_eq!(soma.child_count(), 3);
}

#[test]
fn soma_takes_exactly_one_apical_trunk() {
    let mut soma = Neurite::new(NeuriteType::Soma, SpikeModel::RegularSpiking);
    let first = Neurite::new(NeuriteType::ApicalTrunk, SpikeModel::RegularSpiking);
    assert!(soma.add_child(first).is_ok());
    let second = Neurite::new(NeuriteType::ApicalTrunk, SpikeModel::RegularSpiking);
    match soma.add_child(second) {
        Err((e, _)) => assert_eq!(e, TreeError::DuplicateApicalTrunk),
        Ok(()) => panic!("a soma adopted two apical trunks"),
    }
    assert_eq!(soma.child_count(), 1);
}

#[test]
fn soma_takes_exactly_one_axon() {
    let mut soma = Neurite::new(NeuriteType::Soma, SpikeModel::RegularSpiking);
    assert!(soma.add_child(Neurite::new(NeuriteType::Axon, SpikeModel::RegularSpiking)).is_ok());
    match soma.add_child(Neurite::new(NeuriteType::Axon, SpikeModel::RegularSpiking)) {
        Err((e, _)) => assert_eq!(e, TreeError::DuplicateAxon),
        Ok(()) => panic!("a soma adopted two axons"),
    }
}

#[test]
fn adjacency_rules_hold_down_the_tree() {
    let mut bp = Neurite::new(NeuriteType::BasalProximal, SpikeModel::RegularSpiking);
    assert!(bp.add_child(Neurite::new(NeuriteType::BasalDistal, SpikeModel::RegularSpiking))
        .is_ok());
    match bp.add_child(Neurite::new(NeuriteType::ApicalTuft, SpikeModel::RegularSpiking)) {
        Err((e, _)) => assert_eq!(e, TreeError::IllegalChild),
        Ok(()) => panic!("a basal proximal adopted an apical tuft"),
    }
    let mut bd = Neurite::new(NeuriteType::BasalDistal, SpikeModel::RegularSpiking);
    assert!(bd.add_child(Neurite::new(NeuriteType::BasalProximal, SpikeModel::RegularSpiking))
        .is_err());
    let mut trunk = Neurite::new(NeuriteType::ApicalTrunk, SpikeModel::RegularSpiking);
    assert!(trunk.add_child(Neurite::new(NeuriteType::ApicalTuft, SpikeModel::RegularSpiking))
        .is_ok());
}

#[test]
fn set_parent_enforces_the_same_table() {
    let soma = Neurite::new(NeuriteType::Soma, SpikeModel::RegularSpiking);
    let mut bp = Neurite::new(NeuriteType::BasalProximal, SpikeModel::RegularSpiking);
    assert!(bp.set_parent(&soma).is_ok());
    assert_eq!(bp.parent(), Some(soma.neurite_id()));

    let mut another_soma = Neurite::new(NeuriteType::Soma, SpikeModel::RegularSpiking);
    assert_eq!(another_soma.set_parent(&soma), Err(TreeError::IllegalParent));
    assert!(another_soma.parent().is_none());

    let mut tuft = Neurite::new(NeuriteType::ApicalTuft, SpikeModel::RegularSpiking);
    assert_eq!(tuft.set_parent(&soma), Err(TreeError::IllegalParent));
}

#[test]
fn remove_child_reparents_grandchildren() {
    let mut soma = Neurite::new(NeuriteType::Soma, SpikeModel::RegularSpiking);
    let soma_id = soma.neurite_id();
    let mut bp = Neurite::new(NeuriteType::BasalProximal, SpikeModel::RegularSpiking);
    assert!(bp.set_parent(&soma).is_ok());
    let g1 = Neurite::new(NeuriteType::BasalDistal, SpikeModel::RegularSpiking);
    let g2 = Neurite::new(NeuriteType::BasalDistal, SpikeModel::RegularSpiking);
    let g1_id = g1.neurite_id();
    let g2_id = g2.neurite_id();
    assert!(bp.add_child(g1).is_ok());
    assert!(bp.add_child(g2).is_ok());
    assert!(soma.add_child(bp).is_ok());

    assert!(soma.remove_child(0));
    // both grandchildren now sit under the soma, re-parented onto the
    // removed compartment's recorded parent
    assert_eq!(soma.child_count(), 2);
    assert_eq!(soma.child_at(0).neurite_id(), g1_id);
    assert_eq!(soma.child_at(1).neurite_id(), g2_id);
    assert_eq!(soma.child_at(0).parent(), Some(soma_id));
    assert_eq!(soma.child_at(1).parent(), Some(soma_id));
}

#[test]
fn prune_child_discards_the_subtree() {
    let mut soma = Neurite::new(NeuriteType::Soma, SpikeModel::RegularSpiking);
    let mut bp = Neurite::new(NeuriteType::BasalProximal, SpikeModel::RegularSpiking);
    assert!(bp.add_child(Neurite::new(NeuriteType::BasalDistal, SpikeModel::RegularSpiking))
        .is_ok());
    assert!(bp.add_child(Neurite::new(NeuriteType::BasalDistal, SpikeModel::RegularSpiking))
        .is_ok());
    assert!(soma.add_child(bp).is_ok());
    assert!(soma.prune_child(0));
    assert_eq!(soma.child_count(), 0);
}

#[test]
fn child_removal_rejects_out_of_range() {
    let mut soma = Neurite::new(NeuriteType::Soma, SpikeModel::RegularSpiking);
    assert!(!soma.remove_child(0));
    assert!(!soma.prune_child(3));
}

#[test]
fn synapse_list_is_kept() {
    let mut n = Neurite::new(NeuriteType::Soma, SpikeModel::RegularSpiking);
    let s = neuron_modeler::ids::SynapticID::new();
    n.attach_synapse(s);
    assert_eq!(n.synapse_count(), 1);
    assert_eq!(n.synapse_at(0), s);
}

#[test]
fn reticular_thalamic_rederives_sensitivity_and_fires_at_zero() {
    let mut n = Neurite::new(NeuriteType::Soma, SpikeModel::ReticularThalamicNeuron);
    // the preset starts at zero potential, above minus sixty-five, so the
    // sensitivity becomes two before the recovery update
    let (rep, y) = n.process(Fx::from_int(1));
    assert_eq!(n.b.micros(), 2_000_000);
    assert_eq!(y.micros(), 1_000_000);
    assert_eq!(rep.micros(), 0);
    assert_eq!(n.potential().micros(), -55_000_000);
    assert_eq!(n.u.micros(), 52_498_437);
}

#[test]
fn fast_spiking_basket_cubes_its_recovery_drive() {
    let mut n = Neurite::new(NeuriteType::Soma, SpikeModel::FastSpikingBasket);
    n.v = Fx::from_int(-40);
    let (rep, y) = n.process(Fx::from_int(1));
    assert_eq!(y.micros(), 0);
    assert_eq!(rep.micros(), -40_000_000);
    assert_eq!(n.u.micros(), 10_546);
}

#[test]
fn bursting_dendrite_weights_the_parent_coupling() {
    let mut n = Neurite::new(
        NeuriteType::ApicalTrunk,
        SpikeModel::IntrinsicallyBurstingPyramidalDendriteI,
    );
    n.set_coupling(Fx::zero(), Fx::from_int(10));
    let (rep, y) = n.process(Fx::from_int(1));
    // the parent coupling enters weighted by the peak constant against the
    // membrane, not as a plain summand
    assert_eq!(rep.micros(), -90_000_000);
    assert_eq!(y.micros(), 0);
    assert_eq!(n.u.micros(), -1_800_000_000);
}

#[test]
fn low_threshold_non_basket_caps_its_recovery() {
    let mut n = Neurite::new(NeuriteType::Soma, SpikeModel::LowThresholdSpikingNonBasket);
    n.u = Fx::from_int(700);
    n.v = Fx::from_int(100);
    let (rep, y) = n.process(Fx::from_int(1));
    assert_eq!(y.micros(), 1_000_000);
    // the peak and the reset both shift by a share of the recovery
    assert_eq!(rep.micros(), -47_425_440);
    assert_eq!(n.potential().micros(), -18_029_824);
    // the recovery bump is held at the model's ceiling
    assert_eq!(n.u.micros(), 670_000_000);
}
