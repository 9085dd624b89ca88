//! Neurites: the compartments of a neuron. Each carries one of the named
//! spiking models, integrates its membrane potential and recovery variable
//! once per step, and owns its child compartments under the dendritic
//! tree's typed connection rules.

use vstd::prelude::*;

use crate::fx::{abs_s, s_add, s_sub, s_neg, s_mul, s_div, tdiv_s, Fx, SCALE};
use crate::ids::{NeuriteID, SynapticID};
use crate::synapse::NeuriteModVar;

verus! {

/// The kinds of compartment a neuron is built from.
#[derive(Clone, Copy, PartialEq, Eq, Structural, Debug)]
pub enum NeuriteType {
    Soma,
    BasalProximal,
    BasalDistal,
    ApicalTrunk,
    ApicalTuft,
    Axon,
}

/// The named spiking models a compartment can carry.
#[derive(Clone, Copy, PartialEq, Eq, Structural, Debug)]
pub enum SpikeModel {
    Accommodation,
    Bistability,
    ChatteringI,
    ChatteringII,
    ClassI,
    ClassII,
    DepolarizingAfterPotential,
    EntorhinalStellate,
    FastSpiking,
    FastSpikingBasket,
    HippocampalCA1PyramidalHighThresholdBursting,
    HippocampalCA1PyramidalLowThresholdBurstingI,
    HippocampalCA1PyramidalLowThresholdBurstingII,
    HippocampalCA1PyramidalNonBursting,
    InhibitionInducedBursting,
    InhibitionInducedSpiking,
    Integrator,
    IntrinsicallyBurstingPyramidal,
    IntrinsicallyBurstingPyramidalDendriteI,
    IntrinsicallyBurstingPyramidalDendriteII,
    IntrinsicallyBurstingPyramidalSomaI,
    IntrinsicallyBurstingPyramidalSomaII,
    LatentSpikingNonBasket,
    LatentSpikingNonBasketDendrite,
    LowThresholdSpiking,
    LowThresholdSpikingNonBasket,
    MixedMode,
    PhasicBursting,
    PhasicSpiking,
    ReboundBurst,
    ReboundSpike,
    RegularSpiking,
    RegularSpikingPyramidalI,
    RegularSpikingPyramidalII,
    RegularSpikingPyramidalL2L3Dendrite,
    RegularSpikingPyramidalL4Dendrite,
    RegularSpikingPyramidalL5L6Dendrite,
    RegularSpikingSpinyStellate,
    RegularSpikingSpinyStellateDendrite,
    ResonatorI,
    ResonatorII,
    ReticularThalamicNeuron,
    SpikeFrequencyAdaptation,
    SpikeLatency,
    SpinyProjection,
    SubthresholdOscillation,
    ThalamicInterneuron,
    Thalamocortical,
    ThalamocorticalBursting,
    ThalamocorticalSpiking,
    ThresholdVariability,
    TonicBursting,
    TonicSpiking,
}

/// The extra physical constants of an extended spiking model.
#[derive(Clone, Copy, PartialEq, Eq, Structural, Debug)]
pub struct NeuriteExt {
    /// Gain of the quadratic membrane term.
    pub k: Fx,
    /// Conductance toward child compartments.
    pub gcc: Fx,
    /// Conductance toward the parent compartment.
    pub gpc: Fx,
    /// Resting membrane potential.
    pub vr: Fx,
    /// Instantaneous threshold potential.
    pub vt: Fx,
    /// Spike peak membrane potential.
    pub vp: Fx,
    /// Membrane capacitance.
    pub cap: Fx,
}

/// One model's preset: the four core constants, the starting state, and
/// the extended constants where the model has them.
#[derive(Clone, Copy, PartialEq, Eq, Structural, Debug)]
pub struct SpikeParams {
    /// Timescale of the recovery variable.
    pub a: Fx,
    /// Sensitivity of the recovery variable.
    pub b: Fx,
    /// After-spike reset of the membrane potential.
    pub c: Fx,
    /// After-spike increment of the recovery variable.
    pub d: Fx,
    /// Starting recovery value.
    pub u0: Fx,
    /// Starting membrane potential.
    pub v0: Fx,
    /// Extended constants, for the extended models only.
    pub ext: Option<NeuriteExt>,
}

/// A simple preset from raw units.
pub open spec fn sp_s(a: int, b: int, c: int, d: int, u0: int, v0: int) -> SpikeParams {
    SpikeParams {
        a: Fx { raw: a as i64 },
        b: Fx { raw: b as i64 },
        c: Fx { raw: c as i64 },
        d: Fx { raw: d as i64 },
        u0: Fx { raw: u0 as i64 },
        v0: Fx { raw: v0 as i64 },
        ext: None,
    }
}

/// An extended preset from raw units.
pub open spec fn xp_s(
    a: int,
    b: int,
    c: int,
    d: int,
    u0: int,
    v0: int,
    k: int,
    gcc: int,
    gpc: int,
    vr: int,
    vt: int,
    vp: int,
    cap: int,
) -> SpikeParams {
    SpikeParams {
        a: Fx { raw: a as i64 },
        b: Fx { raw: b as i64 },
        c: Fx { raw: c as i64 },
        d: Fx { raw: d as i64 },
        u0: Fx { raw: u0 as i64 },
        v0: Fx { raw: v0 as i64 },
        ext: Some(
            NeuriteExt {
                k: Fx { raw: k as i64 },
                gcc: Fx { raw: gcc as i64 },
                gpc: Fx { raw: gpc as i64 },
                vr: Fx { raw: vr as i64 },
                vt: Fx { raw: vt as i64 },
                vp: Fx { raw: vp as i64 },
                cap: Fx { raw: cap as i64 },
            },
        ),
    }
}

/// Executable form of [`sp_s`].
fn sp(a: i64, b: i64, c: i64, d: i64, u0: i64, v0: i64) -> (r: SpikeParams)
    ensures
        r == sp_s(a as int, b as int, c as int, d as int, u0 as int, v0 as int),
{
    SpikeParams {
        a: Fx::from_micros(a),
        b: Fx::from_micros(b),
        c: Fx::from_micros(c),
        d: Fx::from_micros(d),
        u0: Fx::from_micros(u0),
        v0: Fx::from_micros(v0),
        ext: None,
    }
}

/// Executable form of [`xp_s`].
fn xp(
    a: i64,
    b: i64,
    c: i64,
    d: i64,
    u0: i64,
    v0: i64,
    k: i64,
    gcc: i64,
    gpc: i64,
    vr: i64,
    vt: i64,
    vp: i64,
    cap: i64,
) -> (r: SpikeParams)
    ensures
        r == xp_s(a as int, b as int, c as int, d as int, u0 as int, v0 as int, k as int, gcc as int, gpc as int, vr as int, vt as int, vp as int, cap as int),
{
    SpikeParams {
        a: Fx::from_micros(a),
        b: Fx::from_micros(b),
        c: Fx::from_micros(c),
        d: Fx::from_micros(d),
        u0: Fx::from_micros(u0),
        v0: Fx::from_micros(v0),
        ext: Some(
            NeuriteExt {
                k: Fx::from_micros(k),
                gcc: Fx::from_micros(gcc),
                gpc: Fx::from_micros(gpc),
                vr: Fx::from_micros(vr),
                vt: Fx::from_micros(vt),
                vp: Fx::from_micros(vp),
                cap: Fx::from_micros(cap),
            },
        ),
    }
}

/// The preset table: each model's constants and starting state. One table
/// serves the constructor, the model change and the reset, so the three
/// can never drift apart. Rows that are easy to misread are deliberate:
/// ClassI and Integrator carry a negative sensitivity of a tenth; the
/// second intrinsically bursting pyramidal dendrite and soma variants use
/// coupling conductances of seven thousandths; and the thalamocortical
/// spiking preset starts at `(-15.75, -63)` where the bursting one starts
/// at `(-21.75, -87)`.
pub open spec fn preset_s(m: SpikeModel) -> SpikeParams {
    match m {
        SpikeModel::Accommodation => sp_s(20_000, 1_000_000, -55_000_000, 4_000_000, -16_000_000, -65_000_000),
        SpikeModel::Bistability => sp_s(100_000, 260_000, -60_000_000, 0, -15_860_000, -61_000_000),
        SpikeModel::ChatteringI | SpikeModel::TonicBursting => sp_s(20_000, 200_000, -50_000_000, 2_000_000, -14_000_000, -70_000_000),
        SpikeModel::ChatteringII => xp_s(30_000, 1_000_000, -40_000_000, 150_000_000, 0, -60_000_000, 1_500_000, 0, 0, -60_000_000, -40_000_000, 25_000_000, 50_000_000),
        SpikeModel::ClassI | SpikeModel::Integrator => sp_s(20_000, -100_000, -55_000_000, 6_000_000, 6_000_000, -60_000_000),
        SpikeModel::ClassII => sp_s(200_000, 260_000, -65_000_000, 0, -16_640_000, -64_000_000),
        SpikeModel::DepolarizingAfterPotential => sp_s(1_000_000, 200_000, -60_000_000, -21_000_000, -14_000_000, -70_000_000),
        SpikeModel::EntorhinalStellate => xp_s(10_000, 15_000_000, -50_000_000, 0, 0, -60_000_000, 750_000, 1_000_000, 1_000_000, -60_000_000, -45_000_000, 30_000_000, 200_000_000),
        SpikeModel::FastSpiking => sp_s(100_000, 200_000, -65_000_000, 2_000_000, -14_000_000, -70_000_000),
        SpikeModel::FastSpikingBasket => xp_s(200_000, 0, -55_000_000, 0, 0, -55_000_000, 1_000_000, 500_000, 1_000_000, -55_000_000, -40_000_000, 25_000_000, 20_000_000),
        SpikeModel::HippocampalCA1PyramidalHighThresholdBursting => xp_s(20_000, 500_000, -45_000_000, 50_000_000, 0, -60_000_000, 1_000_000, 1_000_000, 1_000_000, -60_000_000, -45_000_000, 40_000_000, 50_000_000),
        SpikeModel::HippocampalCA1PyramidalLowThresholdBurstingI => xp_s(20_000, 500_000, -40_000_000, 55_000_000, 0, -60_000_000, 1_000_000, 1_000_000, 1_000_000, -60_000_000, -45_000_000, 40_000_000, 50_000_000),
        SpikeModel::HippocampalCA1PyramidalLowThresholdBurstingII => xp_s(20_000, 500_000, -35_000_000, 60_000_000, 0, -60_000_000, 1_000_000, 1_000_000, 1_000_000, -60_000_000, -45_000_000, 40_000_000, 50_000_000),
        SpikeModel::HippocampalCA1PyramidalNonBursting => xp_s(20_000, 500_000, -50_000_000, 50_000_000, 0, -60_000_000, 1_000_000, 1_000_000, 1_000_000, -60_000_000, -45_000_000, 40_000_000, 50_000_000),
        SpikeModel::InhibitionInducedBursting => sp_s(26_000, -1_000_000, -45_000_000, -2_000_000, 63_800_000, -63_800_000),
        SpikeModel::InhibitionInducedSpiking => sp_s(20_000, -1_000_000, -60_000_000, 8_000_000, 63_800_000, -63_800_000),
        SpikeModel::IntrinsicallyBurstingPyramidal => xp_s(10_000, 5_000_000, -56_000_000, 130_000_000, 0, -75_000_000, 1_200_000, 1_000_000, 1_000_000, -75_000_000, -45_000_000, 50_000_000, 150_000_000),
        SpikeModel::IntrinsicallyBurstingPyramidalDendriteI => xp_s(3_000_000, 15_000_000, -20_000_000, 500_000_000, 0, -50_000_000, 1_000_000, 1_000_000, 1_000_000, -50_000_000, -50_000_000, 20_000_000, 30_000_000),
        SpikeModel::IntrinsicallyBurstingPyramidalDendriteII => xp_s(10_000, 5_000_000, -35_000_000, 1_000_000_000, 0, -60_000_000, 3_000_000, 7000, 7000, -60_000_000, -50_000_000, 10_000_000, 100_000_000),
        SpikeModel::IntrinsicallyBurstingPyramidalSomaI => xp_s(10_000, 5_000_000, -52_000_000, 240_000_000, 0, -70_000_000, 3_000_000, 1_000_000, 1_000_000, -70_000_000, -45_000_000, 50_000_000, 150_000_000),
        SpikeModel::IntrinsicallyBurstingPyramidalSomaII => xp_s(10_000, 5_000_000, -55_000_000, 500_000_000, 0, -60_000_000, 3_000_000, 7000, 7000, -60_000_000, -50_000_000, 50_000_000, 100_000_000),
        SpikeModel::LatentSpikingNonBasket => xp_s(170_000, 5_000_000, -45_000_000, 20_000_000, 0, -53_000_000, 300_000, 600_000, 2_500_000, -66_000_000, -40_000_000, 30_000_000, 20_000_000),
        SpikeModel::LatentSpikingNonBasketDendrite => xp_s(170_000, 5_000_000, -45_000_000, 20_000_000, 0, -53_000_000, 300_000, 600_000, 2_500_000, -66_000_000, -40_000_000, 100_000_000, 20_000_000),
        SpikeModel::LowThresholdSpiking => sp_s(20_000, 250_000, -65_000_000, 2_000_000, -15_750_000, -63_000_000),
        SpikeModel::LowThresholdSpikingNonBasket => xp_s(30_000, 8_000_000, -53_000_000, 20_000_000, 0, -53_000_000, 3_000_000, 1_000_000, 1_000_000, -56_000_000, -42_000_000, 40_000_000, 100_000_000),
        SpikeModel::MixedMode => sp_s(20_000, 200_000, -55_000_000, 4_000_000, -14_000_000, -70_000_000),
        SpikeModel::PhasicBursting => sp_s(20_000, 250_000, -55_000_000, 50_000, -16_000_000, -64_000_000),
        SpikeModel::PhasicSpiking => sp_s(20_000, 250_000, -65_000_000, 6_000_000, -16_000_000, -64_000_000),
        SpikeModel::ReboundBurst => sp_s(30_000, 250_000, -52_000_000, 0, -16_000_000, -64_000_000),
        SpikeModel::ReboundSpike | SpikeModel::ThresholdVariability => sp_s(30_000, 250_000, -60_000_000, 4_000_000, -16_000_000, -64_000_000),
        SpikeModel::RegularSpiking => sp_s(20_000, 200_000, -65_000_000, 8_000_000, -12_600_000, -63_000_000),
        SpikeModel::RegularSpikingPyramidalI => xp_s(30_000, -2_000_000, -50_000_000, 100_000_000, 0, -60_000_000, 700_000, 1_000_000, 1_000_000, -60_000_000, -40_000_000, 35_000_000, 100_000_000),
        SpikeModel::RegularSpikingPyramidalII | SpikeModel::RegularSpikingSpinyStellate => xp_s(10_000, 5_000_000, -60_000_000, 400_000_000, 0, -60_000_000, 3_000_000, 3_000_000, 5_000_000, -60_000_000, -50_000_000, 50_000_000, 100_000_000),
        SpikeModel::RegularSpikingPyramidalL2L3Dendrite => xp_s(10_000, 5_000_000, -55_000_000, 400_000_000, 0, -60_000_000, 3_000_000, 3_000_000, 5_000_000, -60_000_000, -50_000_000, 30_000_000, 100_000_000),
        SpikeModel::RegularSpikingPyramidalL4Dendrite => xp_s(10_000, 5_000_000, -50_000_000, 400_000_000, 0, -60_000_000, 3_000_000, 3_000_000, 5_000_000, -60_000_000, -50_000_000, 50_000_000, 100_000_000),
        SpikeModel::RegularSpikingPyramidalL5L6Dendrite | SpikeModel::RegularSpikingSpinyStellateDendrite => xp_s(10_000, 5_000_000, -50_000_000, 400_000_000, 0, -60_000_000, 3_000_000, 3_000_000, 5_000_000, -60_000_000, -50_000_000, 30_000_000, 100_000_000),
        SpikeModel::ResonatorI => sp_s(100_000, 260_000, -65_000_000, 2_000_000, -18_200_000, -70_000_000),
        SpikeModel::ResonatorII => sp_s(100_000, 260_000, -60_000_000, -1_000_000, -16_120_000, -62_000_000),
        SpikeModel::ReticularThalamicNeuron => xp_s(15_000, 10_000_000, -55_000_000, 50_000_000, 0, 0, 250_000, 5_000_000, 5_000_000, -65_000_000, -45_000_000, 0, 40_000_000),
        SpikeModel::SpikeFrequencyAdaptation => sp_s(10_000, 200_000, -65_000_000, 8_000_000, -14_000_000, -70_000_000),
        SpikeModel::SpikeLatency | SpikeModel::TonicSpiking => sp_s(20_000, 200_000, -65_000_000, 6_000_000, -14_000_000, -70_000_000),
        SpikeModel::SpinyProjection => xp_s(10_000, -20_000_000, -55_000_000, 150_000_000, 0, -80_000_000, 1_000_000, 1_000_000, 1_000_000, -80_000_000, -25_000_000, 40_000_000, 50_000_000),
        SpikeModel::SubthresholdOscillation => sp_s(50_000, 260_000, -60_000_000, 0, -16_120_000, -62_000_000),
        SpikeModel::ThalamicInterneuron => xp_s(50_000, 7_000_000, -65_000_000, 50_000_000, 0, -60_000_000, 500_000, 5_000_000, 5_000_000, -60_000_000, -50_000_000, 20_000_000, 20_000_000),
        SpikeModel::Thalamocortical => xp_s(100_000, 15_000_000, -60_000_000, 10_000_000, 0, -60_000_000, 1_600_000, 2_000_000, 2_000_000, -60_000_000, -50_000_000, 40_000_000, 200_000_000),
        SpikeModel::ThalamocorticalSpiking => sp_s(20_000, 250_000, -65_000_000, 50_000, -15_750_000, -63_000_000),
        SpikeModel::ThalamocorticalBursting => sp_s(20_000, 250_000, -65_000_000, 50_000, -21_750_000, -87_000_000),
    }
}

/// Looks a model's preset up; see [`preset_s`] for the table.
pub fn preset(m: SpikeModel) -> (r: SpikeParams)
    ensures
        r == preset_s(m),
{
    match m {
        SpikeModel::Accommodation => sp(20_000, 1_000_000, -55_000_000, 4_000_000, -16_000_000, -65_000_000),
        SpikeModel::Bistability => sp(100_000, 260_000, -60_000_000, 0, -15_860_000, -61_000_000),
        SpikeModel::ChatteringI | SpikeModel::TonicBursting => sp(20_000, 200_000, -50_000_000, 2_000_000, -14_000_000, -70_000_000),
        SpikeModel::ChatteringII => xp(30_000, 1_000_000, -40_000_000, 150_000_000, 0, -60_000_000, 1_500_000, 0, 0, -60_000_000, -40_000_000, 25_000_000, 50_000_000),
        SpikeModel::ClassI | SpikeModel::Integrator => sp(20_000, -100_000, -55_000_000, 6_000_000, 6_000_000, -60_000_000),
        SpikeModel::ClassII => sp(200_000, 260_000, -65_000_000, 0, -16_640_000, -64_000_000),
        SpikeModel::DepolarizingAfterPotential => sp(1_000_000, 200_000, -60_000_000, -21_000_000, -14_000_000, -70_000_000),
        SpikeModel::EntorhinalStellate => xp(10_000, 15_000_000, -50_000_000, 0, 0, -60_000_000, 750_000, 1_000_000, 1_000_000, -60_000_000, -45_000_000, 30_000_000, 200_000_000),
        SpikeModel::FastSpiking => sp(100_000, 200_000, -65_000_000, 2_000_000, -14_000_000, -70_000_000),
        SpikeModel::FastSpikingBasket => xp(200_000, 0, -55_000_000, 0, 0, -55_000_000, 1_000_000, 500_000, 1_000_000, -55_000_000, -40_000_000, 25_000_000, 20_000_000),
        SpikeModel::HippocampalCA1PyramidalHighThresholdBursting => xp(20_000, 500_000, -45_000_000, 50_000_000, 0, -60_000_000, 1_000_000, 1_000_000, 1_000_000, -60_000_000, -45_000_000, 40_000_000, 50_000_000),
        SpikeModel::HippocampalCA1PyramidalLowThresholdBurstingI => xp(20_000, 500_000, -40_000_000, 55_000_000, 0, -60_000_000, 1_000_000, 1_000_000, 1_000_000, -60_000_000, -45_000_000, 40_000_000, 50_000_000),
        SpikeModel::HippocampalCA1PyramidalLowThresholdBurstingII => xp(20_000, 500_000, -35_000_000, 60_000_000, 0, -60_000_000, 1_000_000, 1_000_000, 1_000_000, -60_000_000, -45_000_000, 40_000_000, 50_000_000),
        SpikeModel::HippocampalCA1PyramidalNonBursting => xp(20_000, 500_000, -50_000_000, 50_000_000, 0, -60_000_000, 1_000_000, 1_000_000, 1_000_000, -60_000_000, -45_000_000, 40_000_000, 50_000_000),
        SpikeModel::InhibitionInducedBursting => sp(26_000, -1_000_000, -45_000_000, -2_000_000, 63_800_000, -63_800_000),
        SpikeModel::InhibitionInducedSpiking => sp(20_000, -1_000_000, -60_000_000, 8_000_000, 63_800_000, -63_800_000),
        SpikeModel::IntrinsicallyBurstingPyramidal => xp(10_000, 5_000_000, -56_000_000, 130_000_000, 0, -75_000_000, 1_200_000, 1_000_000, 1_000_000, -75_000_000, -45_000_000, 50_000_000, 150_000_000),
        SpikeModel::IntrinsicallyBurstingPyramidalDendriteI => xp(3_000_000, 15_000_000, -20_000_000, 500_000_000, 0, -50_000_000, 1_000_000, 1_000_000, 1_000_000, -50_000_000, -50_000_000, 20_000_000, 30_000_000),
        SpikeModel::IntrinsicallyBurstingPyramidalDendriteII => xp(10_000, 5_000_000, -35_000_000, 1_000_000_000, 0, -60_000_000, 3_000_000, 7000, 7000, -60_000_000, -50_000_000, 10_000_000, 100_000_000),
        SpikeModel::IntrinsicallyBurstingPyramidalSomaI => xp(10_000, 5_000_000, -52_000_000, 240_000_000, 0, -70_000_000, 3_000_000, 1_000_000, 1_000_000, -70_000_000, -45_000_000, 50_000_000, 150_000_000),
        SpikeModel::IntrinsicallyBurstingPyramidalSomaII => xp(10_000, 5_000_000, -55_000_000, 500_000_000, 0, -60_000_000, 3_000_000, 7000, 7000, -60_000_000, -50_000_000, 50_000_000, 100_000_000),
        SpikeModel::LatentSpikingNonBasket => xp(170_000, 5_000_000, -45_000_000, 20_000_000, 0, -53_000_000, 300_000, 600_000, 2_500_000, -66_000_000, -40_000_000, 30_000_000, 20_000_000),
        SpikeModel::LatentSpikingNonBasketDendrite => xp(170_000, 5_000_000, -45_000_000, 20_000_000, 0, -53_000_000, 300_000, 600_000, 2_500_000, -66_000_000, -40_000_000, 100_000_000, 20_000_000),
        SpikeModel::LowThresholdSpiking => sp(20_000, 250_000, -65_000_000, 2_000_000, -15_750_000, -63_000_000),
        SpikeModel::LowThresholdSpikingNonBasket => xp(30_000, 8_000_000, -53_000_000, 20_000_000, 0, -53_000_000, 3_000_000, 1_000_000, 1_000_000, -56_000_000, -42_000_000, 40_000_000, 100_000_000),
        SpikeModel::MixedMode => sp(20_000, 200_000, -55_000_000, 4_000_000, -14_000_000, -70_000_000),
        SpikeModel::PhasicBursting => sp(20_000, 250_000, -55_000_000, 50_000, -16_000_000, -64_000_000),
        SpikeModel::PhasicSpiking => sp(20_000, 250_000, -65_000_000, 6_000_000, -16_000_000, -64_000_000),
        SpikeModel::ReboundBurst => sp(30_000, 250_000, -52_000_000, 0, -16_000_000, -64_000_000),
        SpikeModel::ReboundSpike | SpikeModel::ThresholdVariability => sp(30_000, 250_000, -60_000_000, 4_000_000, -16_000_000, -64_000_000),
        SpikeModel::RegularSpiking => sp(20_000, 200_000, -65_000_000, 8_000_000, -12_600_000, -63_000_000),
        SpikeModel::RegularSpikingPyramidalI => xp(30_000, -2_000_000, -50_000_000, 100_000_000, 0, -60_000_000, 700_000, 1_000_000, 1_000_000, -60_000_000, -40_000_000, 35_000_000, 100_000_000),
        SpikeModel::RegularSpikingPyramidalII | SpikeModel::RegularSpikingSpinyStellate => xp(10_000, 5_000_000, -60_000_000, 400_000_000, 0, -60_000_000, 3_000_000, 3_000_000, 5_000_000, -60_000_000, -50_000_000, 50_000_000, 100_000_000),
        SpikeModel::RegularSpikingPyramidalL2L3Dendrite => xp(10_000, 5_000_000, -55_000_000, 400_000_000, 0, -60_000_000, 3_000_000, 3_000_000, 5_000_000, -60_000_000, -50_000_000, 30_000_000, 100_000_000),
        SpikeModel::RegularSpikingPyramidalL4Dendrite => xp(10_000, 5_000_000, -50_000_000, 400_000_000, 0, -60_000_000, 3_000_000, 3_000_000, 5_000_000, -60_000_000, -50_000_000, 50_000_000, 100_000_000),
        SpikeModel::RegularSpikingPyramidalL5L6Dendrite | SpikeModel::RegularSpikingSpinyStellateDendrite => xp(10_000, 5_000_000, -50_000_000, 400_000_000, 0, -60_000_000, 3_000_000, 3_000_000, 5_000_000, -60_000_000, -50_000_000, 30_000_000, 100_000_000),
        SpikeModel::ResonatorI => sp(100_000, 260_000, -65_000_000, 2_000_000, -18_200_000, -70_000_000),
        SpikeModel::ResonatorII => sp(100_000, 260_000, -60_000_000, -1_000_000, -16_120_000, -62_000_000),
        SpikeModel::ReticularThalamicNeuron => xp(15_000, 10_000_000, -55_000_000, 50_000_000, 0, 0, 250_000, 5_000_000, 5_000_000, -65_000_000, -45_000_000, 0, 40_000_000),
        SpikeModel::SpikeFrequencyAdaptation => sp(10_000, 200_000, -65_000_000, 8_000_000, -14_000_000, -70_000_000),
        SpikeModel::SpikeLatency | SpikeModel::TonicSpiking => sp(20_000, 200_000, -65_000_000, 6_000_000, -14_000_000, -70_000_000),
        SpikeModel::SpinyProjection => xp(10_000, -20_000_000, -55_000_000, 150_000_000, 0, -80_000_000, 1_000_000, 1_000_000, 1_000_000, -80_000_000, -25_000_000, 40_000_000, 50_000_000),
        SpikeModel::SubthresholdOscillation => sp(50_000, 260_000, -60_000_000, 0, -16_120_000, -62_000_000),
        SpikeModel::ThalamicInterneuron => xp(50_000, 7_000_000, -65_000_000, 50_000_000, 0, -60_000_000, 500_000, 5_000_000, 5_000_000, -60_000_000, -50_000_000, 20_000_000, 20_000_000),
        SpikeModel::Thalamocortical => xp(100_000, 15_000_000, -60_000_000, 10_000_000, 0, -60_000_000, 1_600_000, 2_000_000, 2_000_000, -60_000_000, -50_000_000, 40_000_000, 200_000_000),
        SpikeModel::ThalamocorticalSpiking => sp(20_000, 250_000, -65_000_000, 50_000, -15_750_000, -63_000_000),
        SpikeModel::ThalamocorticalBursting => sp(20_000, 250_000, -65_000_000, 50_000, -21_750_000, -87_000_000),
    }
}

/// One compartment of a neuron: its identity, its kind, the constants and
/// state of its spiking model, its couplings, its attached synapses, and
/// the child compartments it owns.
#[derive(Debug)]
pub struct Neurite {
    /// The compartment's identifier.
    pub id: NeuriteID,
    /// The compartment's kind.
    pub neurite_type: NeuriteType,
    /// The spiking model in force.
    pub spike_model: SpikeModel,
    /// Timescale of the recovery variable.
    pub a: Fx,
    /// Sensitivity of the recovery variable.
    pub b: Fx,
    /// After-spike reset of the membrane potential.
    pub c: Fx,
    /// After-spike increment of the recovery variable.
    pub d: Fx,
    /// The recovery variable.
    pub u: Fx,
    /// The membrane potential.
    pub v: Fx,
    /// Summed potential of the child compartments, snapshotted by the
    /// caller before a step.
    pub vcc: Fx,
    /// Potential of the parent compartment, snapshotted by the caller
    /// before a step.
    pub vpc: Fx,
    /// Spike output of the last step: one on the firing step, else zero.
    pub y: Fx,
    /// Extended constants, present exactly for extended models.
    pub ext: Option<NeuriteExt>,
    /// Identifiers of the synapses attached to this compartment.
    pub syn: Vec<SynapticID>,
    /// The parent compartment, if one has been recorded.
    pub parent: Option<NeuriteID>,
    /// The owned child compartments.
    pub child: Vec<Neurite>,
}

/// The dynamic state a model change installs: the preset's constants and
/// starting state, with identity, tree position and synapses untouched.
pub open spec fn with_model_s(n: Neurite, m: SpikeModel) -> Neurite {
    let p = preset_s(m);
    Neurite {
        spike_model: m,
        a: p.a,
        b: p.b,
        c: p.c,
        d: p.d,
        u: p.u0,
        v: p.v0,
        y: Fx { raw: 0 },
        ext: p.ext,
        ..n
    }
}

impl Neurite {
    /// Whether the dynamic state matches the model in force: extended
    /// constants present exactly for extended models, and a spike flag of
    /// zero or one.
    pub open spec fn wf(self) -> bool {
        &&& (self.ext is Some <==> preset_s(self.spike_model).ext is Some)
        &&& (self.y.raw == 0 || self.y.raw == SCALE)
    }

    /// A fresh compartment of the given kind, carrying the given model's
    /// preset, with no couplings, synapses, parent or children.
    pub fn new(neurite_type: NeuriteType, spike_model: SpikeModel) -> (r: Neurite)
        ensures
            r.neurite_type == neurite_type,
            r.spike_model == spike_model,
            r.a == preset_s(spike_model).a,
            r.b == preset_s(spike_model).b,
            r.c == preset_s(spike_model).c,
            r.d == preset_s(spike_model).d,
            r.u == preset_s(spike_model).u0,
            r.v == preset_s(spike_model).v0,
            r.vcc == (Fx { raw: 0 }),
            r.vpc == (Fx { raw: 0 }),
            r.y == (Fx { raw: 0 }),
            r.ext == preset_s(spike_model).ext,
            r.syn@ == Seq::<SynapticID>::empty(),
            r.parent is None,
            r.child@ == Seq::<Neurite>::empty(),
            r.wf(),
    {
        let p = preset(spike_model);
        Neurite {
            id: NeuriteID::new(),
            neurite_type,
            spike_model,
            a: p.a,
            b: p.b,
            c: p.c,
            d: p.d,
            u: p.u0,
            v: p.v0,
            vcc: Fx::zero(),
            vpc: Fx::zero(),
            y: Fx::zero(),
            ext: p.ext,
            syn: Vec::new(),
            parent: None,
            child: Vec::new(),
        }
    }

    /// Restores the dynamic state `(u, v, y)` to the preset defaults of
    /// the model in force, leaving everything else untouched.
    pub fn reset(&mut self)
        ensures
            *final(self) == (Neurite {
                u: preset_s(old(self).spike_model).u0,
                v: preset_s(old(self).spike_model).v0,
                y: Fx { raw: 0 },
                ..*old(self)
            }),
    {
        let p = preset(self.spike_model);
        self.u = p.u0;
        self.v = p.v0;
        self.y = Fx::zero();
    }

    /// Replaces the spiking model: constants, state and extended constants
    /// all move to the new preset at once, while identity, couplings, tree
    /// position and synapses stay.
    pub fn set_spike_model(&mut self, spike_model: SpikeModel)
        ensures
            *final(self) == with_model_s(*old(self), spike_model),
            final(self).wf(),
    {
        let p = preset(spike_model);
        self.spike_model = spike_model;
        self.a = p.a;
        self.b = p.b;
        self.c = p.c;
        self.d = p.d;
        self.u = p.u0;
        self.v = p.v0;
        self.y = Fx::zero();
        self.ext = p.ext;
    }

    /// The compartment's identifier.
    pub fn neurite_id(&self) -> (r: NeuriteID)
        ensures
            r == self.id,
    {
        self.id
    }

    /// The compartment's kind.
    pub fn neurite_type(&self) -> (r: NeuriteType)
        ensures
            r == self.neurite_type,
    {
        self.neurite_type
    }

    /// The spiking model in force.
    pub fn spike_model(&self) -> (r: SpikeModel)
        ensures
            r == self.spike_model,
    {
        self.spike_model
    }

    /// The membrane potential.
    pub fn potential(&self) -> (r: Fx)
        ensures
            r == self.v,
    {
        self.v
    }

    /// The spike output of the last step.
    pub fn spike_output(&self) -> (r: Fx)
        ensures
            r == self.y,
    {
        self.y
    }

    /// The recorded parent, if any.
    pub fn parent(&self) -> (r: Option<NeuriteID>)
        ensures
            r == self.parent,
    {
        self.parent
    }

    /// How many child compartments this one owns.
    pub fn child_count(&self) -> (r: usize)
        ensures
            r == self.child@.len(),
    {
        self.child.len()
    }

    /// A view of the child at the given position.
    pub fn child_at(&self, i: usize) -> (r: &Neurite)
        requires
            i < self.child@.len(),
        ensures
            *r == self.child@[i as int],
    {
        &self.child[i]
    }

    /// Records an attached synapse.
    pub fn attach_synapse(&mut self, s: SynapticID)
        ensures
            final(self).syn@ == old(self).syn@.push(s),
            *final(self) == (Neurite { syn: final(self).syn, ..*old(self) }),
    {
        self.syn.push(s);
    }

    /// How many synapses are attached.
    pub fn synapse_count(&self) -> (r: usize)
        ensures
            r == self.syn@.len(),
    {
        self.syn.len()
    }

    /// The identifier of the attached synapse at the given position.
    pub fn synapse_at(&self, i: usize) -> (r: SynapticID)
        requires
            i < self.syn@.len(),
        ensures
            r == self.syn@[i as int],
    {
        self.syn[i]
    }

    /// Snapshots the coupling potentials for the coming step, as the
    /// two-phase stepping discipline asks of the caller.
    pub fn set_coupling(&mut self, vcc: Fx, vpc: Fx)
        ensures
            *final(self) == (Neurite { vcc, vpc, ..*old(self) }),
    {
        self.vcc = vcc;
        self.vpc = vpc;
    }
}

/// Law: a reset, a model change and a fresh build all read one preset
/// table, so each leaves the dynamic state `(u, v, y)` at that table's
/// defaults for the model in force, with the extended constants present
/// exactly as the table has them.
pub proof fn lemma_reset_restores_preset(n: Neurite, m: SpikeModel)
    ensures
        with_model_s(n, m).u == preset_s(m).u0,
        with_model_s(n, m).v == preset_s(m).v0,
        with_model_s(n, m).y == (Fx { raw: 0 }),
        with_model_s(n, m).ext == preset_s(m).ext,
        with_model_s(n, m).wf(),
{
}

/// The derivative factor of the simple model: the quadratic membrane law
/// less the recovery variable, with the child coupling counted twice — the
/// model sums `vcc` twice where `vcc + vpc` might be expected, and that is
/// preserved here as given.
pub open spec fn simple_drive_s(n: Neurite) -> Fx {
    s_add(
        s_add(
            s_sub(
                s_add(
                    s_add(
                        s_mul(s_mul(Fx { raw: 40_000 }, n.v), n.v),
                        s_mul(Fx { raw: 5_000_000 }, n.v),
                    ),
                    Fx { raw: 140_000_000 },
                ),
                n.u,
            ),
            n.vcc,
        ),
        n.vcc,
    )
}

/// The numerator of the extended derivative: the quadratic membrane term
/// less the recovery plus both couplings, except the two intrinsically
/// bursting pyramidal models that weight one coupling by the peak
/// potential against the other.
pub open spec fn ext_drive_s(n: Neurite, e: NeuriteExt) -> Fx {
    let quad = s_mul(s_mul(e.k, s_sub(n.v, e.vr)), s_sub(n.v, e.vt));
    match n.spike_model {
        SpikeModel::IntrinsicallyBurstingPyramidalDendriteI => s_add(
            s_sub(s_sub(quad, s_mul(e.vp, s_sub(n.vpc, n.v))), n.u),
            n.vcc,
        ),
        SpikeModel::IntrinsicallyBurstingPyramidalSomaI => s_add(
            s_sub(s_sub(quad, s_mul(e.vp, s_sub(n.vcc, n.v))), n.u),
            n.vpc,
        ),
        _ => s_add(s_add(s_sub(quad, n.u), n.vcc), n.vpc),
    }
}

/// The membrane potential after one step's integration: the extended
/// derivative is divided by the capacitance, the simple one is not.
pub open spec fn integrate_v_s(n: Neurite, dt: Fx) -> Fx {
    match n.ext {
        Some(e) => s_add(n.v, s_div(s_mul(dt, ext_drive_s(n, e)), e.cap)),
        None => s_add(n.v, s_mul(dt, simple_drive_s(n))),
    }
}

/// The recovery update of one step, on the integrated potential `v1`:
/// the sensitivity that was used and the new recovery value. The fast
/// spiking basket model drives recovery by a cubed fraction of the
/// distance to rest; the reticular thalamic and thalamocortical models
/// re-derive the sensitivity from the current potential first.
pub open spec fn recovery_s(n: Neurite, dt: Fx, v1: Fx) -> (Fx, Fx) {
    match n.ext {
        Some(e) => match n.spike_model {
            SpikeModel::FastSpikingBasket => (
                n.b,
                if v1.raw < e.vr.raw {
                    s_add(n.u, s_mul(s_mul(dt, n.a), s_neg(n.u)))
                } else {
                    let w = s_mul(Fx { raw: 25_000 }, s_sub(v1, e.vr));
                    s_add(n.u, s_mul(s_mul(dt, n.a), s_sub(s_mul(s_mul(w, w), w), n.u)))
                },
            ),
            SpikeModel::ReticularThalamicNeuron => {
                let b2 = if v1.raw > -65_000_000 {
                    Fx { raw: 2_000_000 }
                } else {
                    Fx { raw: 10_000_000 }
                };
                (b2, s_add(n.u, s_mul(s_mul(dt, n.a), s_sub(s_mul(b2, s_sub(v1, e.vr)), n.u))))
            },
            SpikeModel::Thalamocortical => {
                let b2 = if v1.raw > -65_000_000 {
                    Fx { raw: 0 }
                } else {
                    Fx { raw: 15_000_000 }
                };
                (b2, s_add(n.u, s_mul(s_mul(dt, n.a), s_sub(s_mul(b2, s_sub(v1, e.vr)), n.u))))
            },
            _ => (n.b, s_add(n.u, s_mul(s_mul(dt, n.a), s_sub(s_mul(n.b, s_sub(v1, e.vr)), n.u)))),
        },
        None => (n.b, s_add(n.u, s_mul(s_mul(dt, n.a), s_sub(s_mul(n.b, v1), n.u)))),
    }
}

/// The smaller of two scalars.
pub open spec fn min_fx_s(a: Fx, b: Fx) -> Fx {
    if a.raw <= b.raw {
        a
    } else {
        b
    }
}

/// The firing decision of one step, on the integrated potential `v1` and
/// updated recovery `u2`: whether the compartment fired, the reported
/// potential, and the potential and recovery after any reset. Simple
/// models fire at a fixed peak of thirty; extended models fire above their
/// peak constant, with the low-threshold, thalamic interneuron and
/// thalamocortical models shifting peak and reset by a share of the
/// recovery, the first two also capping recovery.
pub open spec fn fire_s(n: Neurite, v1: Fx, u2: Fx) -> (bool, Fx, Fx, Fx) {
    match n.ext {
        Some(e) => match n.spike_model {
            SpikeModel::EntorhinalStellate | SpikeModel::FastSpikingBasket => if v1.raw
                > e.vp.raw {
                (true, e.vp, n.c, u2)
            } else {
                (false, v1, v1, u2)
            },
            SpikeModel::LowThresholdSpikingNonBasket => {
                let peak = s_sub(e.vp, s_mul(Fx { raw: 100_000 }, u2));
                if v1.raw >= peak.raw {
                    (
                        true,
                        peak,
                        s_add(n.c, s_mul(Fx { raw: 40_000 }, u2)),
                        min_fx_s(s_add(u2, n.d), Fx { raw: 670_000_000 }),
                    )
                } else {
                    (false, v1, v1, u2)
                }
            },
            SpikeModel::ThalamicInterneuron => {
                let peak = s_sub(e.vp, s_mul(Fx { raw: 80_000 }, u2));
                if v1.raw >= peak.raw {
                    (
                        true,
                        peak,
                        s_add(n.c, s_mul(Fx { raw: 80_000 }, u2)),
                        min_fx_s(s_add(u2, n.d), Fx { raw: 530_000_000 }),
                    )
                } else {
                    (false, v1, v1, u2)
                }
            },
            SpikeModel::Thalamocortical => {
                let peak = s_add(e.vp, s_mul(Fx { raw: 100_000 }, u2));
                if v1.raw >= peak.raw {
                    (true, peak, s_sub(n.c, s_mul(Fx { raw: 100_000 }, u2)), s_add(u2, n.d))
                } else {
                    (false, v1, v1, u2)
                }
            },
            _ => if v1.raw > e.vp.raw {
                (true, e.vp, n.c, s_add(u2, n.d))
            } else {
                (false, v1, v1, u2)
            },
        },
        None => if v1.raw >= 30_000_000 {
            (true, Fx { raw: 30_000_000 }, n.c, s_add(u2, n.d))
        } else {
            (false, v1, v1, u2)
        },
    }
}

/// What one whole step does: the new compartment state and the reported
/// potential. The spike flag is one exactly on a firing step.
pub open spec fn step_s(n: Neurite, dt: Fx) -> (Neurite, Fx) {
    let v1 = integrate_v_s(n, dt);
    let bu = recovery_s(n, dt, v1);
    let f = fire_s(n, v1, bu.1);
    (
        Neurite {
            b: bu.0,
            u: f.3,
            v: f.2,
            y: if f.0 {
                Fx { raw: SCALE }
            } else {
                Fx { raw: 0 }
            },
            ..n
        },
        f.1,
    )
}

/// What rescaling a named neurite variable does: the variable is
/// multiplied by the modulatory conductance; a variable of the extended
/// constants is untouched on a simple model.
pub open spec fn modulate_s(n: Neurite, var: NeuriteModVar, m: Fx) -> Neurite {
    match var {
        NeuriteModVar::A => Neurite { a: s_mul(n.a, m), ..n },
        NeuriteModVar::B => Neurite { b: s_mul(n.b, m), ..n },
        NeuriteModVar::C => Neurite { c: s_mul(n.c, m), ..n },
        NeuriteModVar::D => Neurite { d: s_mul(n.d, m), ..n },
        NeuriteModVar::U => Neurite { u: s_mul(n.u, m), ..n },
        NeuriteModVar::V => Neurite { v: s_mul(n.v, m), ..n },
        NeuriteModVar::GCC => match n.ext {
            Some(e) => Neurite { ext: Some(NeuriteExt { gcc: s_mul(e.gcc, m), ..e }), ..n },
            None => n,
        },
        NeuriteModVar::GPC => match n.ext {
            Some(e) => Neurite { ext: Some(NeuriteExt { gpc: s_mul(e.gpc, m), ..e }), ..n },
            None => n,
        },
        NeuriteModVar::VR => match n.ext {
            Some(e) => Neurite { ext: Some(NeuriteExt { vr: s_mul(e.vr, m), ..e }), ..n },
            None => n,
        },
        NeuriteModVar::VT => match n.ext {
            Some(e) => Neurite { ext: Some(NeuriteExt { vt: s_mul(e.vt, m), ..e }), ..n },
            None => n,
        },
        NeuriteModVar::CAP => match n.ext {
            Some(e) => Neurite { ext: Some(NeuriteExt { cap: s_mul(e.cap, m), ..e }), ..n },
            None => n,
        },
    }
}

impl Neurite {
    /// Advances the compartment one step of the given length and returns
    /// the reported potential and the spike flag: the potential is
    /// integrated, the recovery variable follows, and a crossing of the
    /// model's peak reports the peak and applies the after-spike reset.
    pub fn process(&mut self, time: Fx) -> (r: (Fx, Fx))
        ensures
            *final(self) == step_s(*old(self), time).0,
            r.0 == step_s(*old(self), time).1,
            r.1 == final(self).y,
            old(self).wf() ==> final(self).wf(),
    {
        self.y = Fx::zero();
        let ext = self.ext;
        let model = self.spike_model;
        let rep: Fx;
        match ext {
            Some(e) => {
                let quad = e.k.mul(self.v.sub(e.vr)).mul(self.v.sub(e.vt));
                let drive = match model {
                    SpikeModel::IntrinsicallyBurstingPyramidalDendriteI => quad.sub(
                        e.vp.mul(self.vpc.sub(self.v)),
                    ).sub(self.u).add(self.vcc),
                    SpikeModel::IntrinsicallyBurstingPyramidalSomaI => quad.sub(
                        e.vp.mul(self.vcc.sub(self.v)),
                    ).sub(self.u).add(self.vpc),
                    _ => quad.sub(self.u).add(self.vcc).add(self.vpc),
                };
                self.v = self.v.add(time.mul(drive).div(e.cap));
                match model {
                    SpikeModel::FastSpikingBasket => {
                        if self.v.micros() < e.vr.micros() {
                            self.u = self.u.add(time.mul(self.a).mul(self.u.neg()));
                        } else {
                            let w = Fx::from_micros(25_000).mul(self.v.sub(e.vr));
                            self.u = self.u.add(time.mul(self.a).mul(w.mul(w).mul(w).sub(self.u)));
                        }
                    },
                    SpikeModel::ReticularThalamicNeuron => {
                        self.b = if self.v.micros() > -65_000_000 {
                            Fx::from_micros(2_000_000)
                        } else {
                            Fx::from_micros(10_000_000)
                        };
                        self.u = self.u.add(
                            time.mul(self.a).mul(self.b.mul(self.v.sub(e.vr)).sub(self.u)),
                        );
                    },
                    SpikeModel::Thalamocortical => {
                        self.b = if self.v.micros() > -65_000_000 {
                            Fx::zero()
                        } else {
                            Fx::from_micros(15_000_000)
                        };
                        self.u = self.u.add(
                            time.mul(self.a).mul(self.b.mul(self.v.sub(e.vr)).sub(self.u)),
                        );
                    },
                    _ => {
                        self.u = self.u.add(
                            time.mul(self.a).mul(self.b.mul(self.v.sub(e.vr)).sub(self.u)),
                        );
                    },
                }
                match model {
                    SpikeModel::EntorhinalStellate | SpikeModel::FastSpikingBasket => {
                        if self.v.micros() > e.vp.micros() {
                            self.v = self.c;
                            self.y = Fx::from_micros(SCALE);
                            rep = e.vp;
                        } else {
                            rep = self.v;
                        }
                    },
                    SpikeModel::LowThresholdSpikingNonBasket => {
                        let peak = e.vp.sub(Fx::from_micros(100_000).mul(self.u));
                        if self.v.micros() >= peak.micros() {
                            self.v = self.c.add(Fx::from_micros(40_000).mul(self.u));
                            let bumped = self.u.add(self.d);
                            self.u = if bumped.micros() <= 670_000_000 {
                                bumped
                            } else {
                                Fx::from_micros(670_000_000)
                            };
                            self.y = Fx::from_micros(SCALE);
                            rep = peak;
                        } else {
                            rep = self.v;
                        }
                    },
                    SpikeModel::ThalamicInterneuron => {
                        let peak = e.vp.sub(Fx::from_micros(80_000).mul(self.u));
                        if self.v.micros() >= peak.micros() {
                            self.v = self.c.add(Fx::from_micros(80_000).mul(self.u));
                            let bumped = self.u.add(self.d);
                            self.u = if bumped.micros() <= 530_000_000 {
                                bumped
                            } else {
                                Fx::from_micros(530_000_000)
                            };
                            self.y = Fx::from_micros(SCALE);
                            rep = peak;
                        } else {
                            rep = self.v;
                        }
                    },
                    SpikeModel::Thalamocortical => {
                        let peak = e.vp.add(Fx::from_micros(100_000).mul(self.u));
                        if self.v.micros() >= peak.micros() {
                            self.v = self.c.sub(Fx::from_micros(100_000).mul(self.u));
                            self.u = self.u.add(self.d);
                            self.y = Fx::from_micros(SCALE);
                            rep = peak;
                        } else {
                            rep = self.v;
                        }
                    },
                    _ => {
                        if self.v.micros() > e.vp.micros() {
                            self.v = self.c;
                            self.u = self.u.add(self.d);
                            self.y = Fx::from_micros(SCALE);
                            rep = e.vp;
                        } else {
                            rep = self.v;
                        }
                    },
                }
            },
            None => {
                let drive = Fx::from_micros(40_000).mul(self.v).mul(self.v).add(
                    Fx::from_micros(5_000_000).mul(self.v),
                ).add(Fx::from_micros(140_000_000)).sub(self.u).add(self.vcc).add(self.vcc);
                self.v = self.v.add(time.mul(drive));
                self.u = self.u.add(time.mul(self.a).mul(self.b.mul(self.v).sub(self.u)));
                if self.v.micros() >= 30_000_000 {
                    self.v = self.c;
                    self.u = self.u.add(self.d);
                    self.y = Fx::from_micros(SCALE);
                    rep = Fx::from_micros(30_000_000);
                } else {
                    rep = self.v;
                }
            },
        }
        (rep, self.y)
    }

    /// Rescales the named variable by a modulatory conductance; an
    /// extended constant on a simple model is left untouched.
    pub fn modulate(&mut self, var: NeuriteModVar, m: Fx)
        ensures
            *final(self) == modulate_s(*old(self), var, m),
            old(self).wf() ==> final(self).wf(),
    {
        match var {
            NeuriteModVar::A => {
                self.a = self.a.mul(m);
            },
            NeuriteModVar::B => {
                self.b = self.b.mul(m);
            },
            NeuriteModVar::C => {
                self.c = self.c.mul(m);
            },
            NeuriteModVar::D => {
                self.d = self.d.mul(m);
            },
            NeuriteModVar::U => {
                self.u = self.u.mul(m);
            },
            NeuriteModVar::V => {
                self.v = self.v.mul(m);
            },
            NeuriteModVar::GCC => {
                let ext = self.ext;
                match ext {
                    Some(e) => {
                        self.ext = Some(NeuriteExt { gcc: e.gcc.mul(m), ..e });
                    },
                    None => {},
                }
            },
            NeuriteModVar::GPC => {
                let ext = self.ext;
                match ext {
                    Some(e) => {
                        self.ext = Some(NeuriteExt { gpc: e.gpc.mul(m), ..e });
                    },
                    None => {},
                }
            },
            NeuriteModVar::VR => {
                let ext = self.ext;
                match ext {
                    Some(e) => {
                        self.ext = Some(NeuriteExt { vr: e.vr.mul(m), ..e });
                    },
                    None => {},
                }
            },
            NeuriteModVar::VT => {
                let ext = self.ext;
                match ext {
                    Some(e) => {
                        self.ext = Some(NeuriteExt { vt: e.vt.mul(m), ..e });
                    },
                    None => {},
                }
            },
            NeuriteModVar::CAP => {
                let ext = self.ext;
                match ext {
                    Some(e) => {
                        self.ext = Some(NeuriteExt { cap: e.cap.mul(m), ..e });
                    },
                    None => {},
                }
            },
        }
    }
}

/// The extended models whose firing rule is the plain one: crossing the
/// peak constant reports it and resets to `c`, bumping recovery by `d`.
pub open spec fn plain_extended_fire(m: SpikeModel) -> bool {
    !(m == SpikeModel::EntorhinalStellate || m == SpikeModel::FastSpikingBasket || m
        == SpikeModel::LowThresholdSpikingNonBasket || m == SpikeModel::ThalamicInterneuron || m
        == SpikeModel::Thalamocortical)
}

/// Law: for an extended model with the plain firing rule, a step whose
/// integrated potential crosses the peak fires exactly that step — spike
/// flag one, the peak reported, the potential reset to `c` and the
/// recovery bumped by `d` — and a step that stays at or under the peak
/// reports the integrated potential with a spike flag of zero.
pub proof fn lemma_extended_threshold(n: Neurite, dt: Fx)
    requires
        n.ext is Some,
        plain_extended_fire(n.spike_model),
    ensures
        ({
            let e = n.ext.unwrap();
            let v1 = integrate_v_s(n, dt);
            let u2 = recovery_s(n, dt, v1).1;
            &&& (v1.raw > e.vp.raw ==> step_s(n, dt).0.y == (Fx { raw: SCALE }) && step_s(n, dt).1
                == e.vp && step_s(n, dt).0.v == n.c && step_s(n, dt).0.u == s_add(u2, n.d))
            &&& (v1.raw <= e.vp.raw ==> step_s(n, dt).0.y == (Fx { raw: 0 }) && step_s(n, dt).1
                == v1 && step_s(n, dt).0.v == v1)
        }),
{
}

/// Law: a simple-model step fires exactly when the integrated potential
/// reaches thirty: that step reports the fixed peak of thirty, resets the
/// potential to `c` and bumps the recovery by `d`; any other step reports
/// the integrated potential with a spike flag of zero.
pub proof fn lemma_simple_threshold(n: Neurite, dt: Fx)
    requires
        n.ext is None,
    ensures
        ({
            let v1 = integrate_v_s(n, dt);
            let u2 = recovery_s(n, dt, v1).1;
            &&& (v1.raw >= 30_000_000 ==> step_s(n, dt).0.y == (Fx { raw: SCALE }) && step_s(
                n,
                dt,
            ).1 == (Fx { raw: 30_000_000 }) && step_s(n, dt).0.v == n.c && step_s(n, dt).0.u
                == s_add(u2, n.d))
            &&& (v1.raw < 30_000_000 ==> step_s(n, dt).0.y == (Fx { raw: 0 }) && step_s(n, dt).1
                == v1 && step_s(n, dt).0.v == v1)
        }),
{
}

/// Law: for the thalamocortical model the peak shifts up by a tenth of
/// the updated recovery and the after-spike potential falls below `c` by
/// the same share; crossing that shifted peak fires exactly one step, with
/// the shifted peak reported.
pub proof fn lemma_shifted_peak_threshold(n: Neurite, dt: Fx)
    requires
        n.ext is Some,
        n.spike_model == SpikeModel::Thalamocortical,
    ensures
        ({
            let e = n.ext.unwrap();
            let v1 = integrate_v_s(n, dt);
            let u2 = recovery_s(n, dt, v1).1;
            let peak = s_add(e.vp, s_mul(Fx { raw: 100_000 }, u2));
            &&& (v1.raw >= peak.raw ==> step_s(n, dt).0.y == (Fx { raw: SCALE }) && step_s(n, dt).1
                == peak && step_s(n, dt).0.v == s_sub(n.c, s_mul(Fx { raw: 100_000 }, u2))
                && step_s(n, dt).0.u == s_add(u2, n.d))
            &&& (v1.raw < peak.raw ==> step_s(n, dt).0.y == (Fx { raw: 0 }) && step_s(n, dt).1
                == v1 && step_s(n, dt).0.v == v1)
        }),
{
}

/// Whether a simple-model compartment stands at an exact rest point of its
/// dynamics under zero coupling: both update rules vanish and the
/// potential is under the firing peak.
pub open spec fn at_simple_rest(n: Neurite) -> bool {
    &&& n.ext is None
    &&& n.vcc.raw == 0
    &&& n.vpc.raw == 0
    &&& simple_drive_s(n).raw == 0
    &&& s_sub(s_mul(n.b, n.v), n.u).raw == 0
    &&& n.v.raw < 30_000_000
}

/// Law: a simple-model compartment at rest with zero coupling does not
/// spike and does not move, for any step length — so it stays silent over
/// any number of steps.
pub proof fn lemma_simple_rest_is_fixed(n: Neurite, dt: Fx)
    requires
        at_simple_rest(n),
    ensures
        step_s(n, dt).0.u == n.u,
        step_s(n, dt).0.v == n.v,
        step_s(n, dt).0.y == (Fx { raw: 0 }),
        step_s(n, dt).1 == n.v,
        at_simple_rest(step_s(n, dt).0),
{
    let zero = Fx { raw: 0 };
    assert(dt.raw * 0 == 0);
    assert(tdiv_s(0, SCALE as int) == 0);
    assert(s_mul(dt, Fx { raw: 0 }) == zero);
    assert(simple_drive_s(n) == zero);
    assert(integrate_v_s(n, dt) == n.v);
    let v1 = integrate_v_s(n, dt);
    assert(s_sub(s_mul(n.b, v1), n.u) == zero);
    assert(s_mul(s_mul(dt, n.a), zero) == zero);
    assert(recovery_s(n, dt, v1).1 == n.u);
}

/// Law: the simple presets that start at `(-14, -70)` with sensitivity
/// one-fifth begin exactly at a rest point, so by
/// [`lemma_simple_rest_is_fixed`] they never spike under zero input.
pub proof fn lemma_tonic_family_rest(n: Neurite)
    requires
        n.spike_model == SpikeModel::ChatteringI || n.spike_model == SpikeModel::TonicBursting
            || n.spike_model == SpikeModel::DepolarizingAfterPotential || n.spike_model
            == SpikeModel::FastSpiking || n.spike_model == SpikeModel::MixedMode || n.spike_model
            == SpikeModel::SpikeLatency || n.spike_model == SpikeModel::TonicSpiking
            || n.spike_model == SpikeModel::SpikeFrequencyAdaptation,
        n.ext is None,
        n.b == preset_s(n.spike_model).b,
        n.u == preset_s(n.spike_model).u0,
        n.v == preset_s(n.spike_model).v0,
        n.vcc.raw == 0,
        n.vpc.raw == 0,
    ensures
        at_simple_rest(n),
{
    assert(n.b == (Fx { raw: 200_000 }));
    assert(n.u == (Fx { raw: -14_000_000i64 }));
    assert(n.v == (Fx { raw: -70_000_000i64 }));
    assert(40_000 * (-70_000_000) == -2_800_000_000_000) by (nonlinear_arith);
    assert(abs_s(-2_800_000_000_000) == 2_800_000_000_000);
    assert(2_800_000_000_000int / 1_000_000int == 2_800_000int);
    assert(tdiv_s(-2_800_000_000_000, 1_000_000) == -2_800_000);
    assert(s_mul(Fx { raw: 40_000 }, n.v) == (Fx { raw: -2_800_000i64 }));
    assert(s_mul(s_mul(Fx { raw: 40_000 }, n.v), n.v) == (Fx { raw: 196_000_000 }));
    assert(s_mul(Fx { raw: 5_000_000 }, n.v) == (Fx { raw: -350_000_000i64 }));
    assert(s_mul(n.b, n.v) == (Fx { raw: -14_000_000i64 }));
    assert(simple_drive_s(n).raw == 0);
}

// ------------------------------------------------------------------------
// The dendritic tree: typed connection rules and structural mutation.

/// A structural violation of the dendritic tree rules.
#[derive(Clone, Copy, PartialEq, Eq, Structural, Debug)]
pub enum TreeError {
    /// The child's kind may never sit under the parent's kind.
    IllegalChild,
    /// A soma already has its one apical trunk child.
    DuplicateApicalTrunk,
    /// A soma already has its one axon child.
    DuplicateAxon,
    /// The parent's kind may never stand over this compartment's kind.
    IllegalParent,
}

/// The adjacency table of the dendritic tree: which child kinds may sit
/// under which parent kinds. A soma is never a legal child.
pub open spec fn child_type_ok(p: NeuriteType, c: NeuriteType) -> bool {
    match p {
        NeuriteType::Soma => c == NeuriteType::BasalProximal || c == NeuriteType::ApicalTrunk || c
            == NeuriteType::Axon,
        NeuriteType::BasalProximal => c == NeuriteType::BasalProximal || c
            == NeuriteType::BasalDistal,
        NeuriteType::BasalDistal => c == NeuriteType::BasalDistal,
        NeuriteType::ApicalTrunk => c == NeuriteType::ApicalTrunk || c == NeuriteType::ApicalTuft,
        NeuriteType::ApicalTuft => c == NeuriteType::ApicalTuft,
        NeuriteType::Axon => c == NeuriteType::Axon,
    }
}

/// A compartment with its recorded parent replaced, as re-parenting a
/// grandchild does.
pub open spec fn reparent_s(c: Neurite, p: Option<NeuriteID>) -> Neurite {
    Neurite { parent: p, ..c }
}

/// Whether the compartment already owns a child of the given kind.
pub open spec fn has_child_of_type(n: Neurite, t: NeuriteType) -> bool {
    exists|i: int| 0 <= i < n.child@.len() && n.child@[i].neurite_type == t
}

/// Whether adding the child is legal: the kinds must be adjacent in the
/// table, and a soma takes at most one apical trunk and one axon.
pub open spec fn add_child_ok(n: Neurite, c: Neurite) -> bool {
    &&& child_type_ok(n.neurite_type, c.neurite_type)
    &&& !(n.neurite_type == NeuriteType::Soma && c.neurite_type == NeuriteType::ApicalTrunk
        && has_child_of_type(n, NeuriteType::ApicalTrunk))
    &&& !(n.neurite_type == NeuriteType::Soma && c.neurite_type == NeuriteType::Axon
        && has_child_of_type(n, NeuriteType::Axon))
}

/// Which violation an illegal addition reports.
pub open spec fn add_child_err(n: Neurite, c: Neurite) -> TreeError {
    if !child_type_ok(n.neurite_type, c.neurite_type) {
        TreeError::IllegalChild
    } else if c.neurite_type == NeuriteType::ApicalTrunk {
        TreeError::DuplicateApicalTrunk
    } else {
        TreeError::DuplicateAxon
    }
}

/// Executable form of [`child_type_ok`].
fn legal_child(p: NeuriteType, c: NeuriteType) -> (r: bool)
    ensures
        r == child_type_ok(p, c),
{
    match p {
        NeuriteType::Soma => c == NeuriteType::BasalProximal || c == NeuriteType::ApicalTrunk || c
            == NeuriteType::Axon,
        NeuriteType::BasalProximal => c == NeuriteType::BasalProximal || c
            == NeuriteType::BasalDistal,
        NeuriteType::BasalDistal => c == NeuriteType::BasalDistal,
        NeuriteType::ApicalTrunk => c == NeuriteType::ApicalTrunk || c == NeuriteType::ApicalTuft,
        NeuriteType::ApicalTuft => c == NeuriteType::ApicalTuft,
        NeuriteType::Axon => c == NeuriteType::Axon,
    }
}

impl Neurite {
    /// Whether this compartment already owns a child of the given kind.
    fn has_child_typed(&self, t: NeuriteType) -> (r: bool)
        ensures
            r == has_child_of_type(*self, t),
    {
        let mut i: usize = 0;
        while i < self.child.len()
            invariant
                i <= self.child@.len(),
                forall|j: int| 0 <= j < i ==> self.child@[j].neurite_type != t,
            decreases self.child@.len() - i,
        {
            if self.child[i].neurite_type == t {
                return true;
            }
            i += 1;
        }
        false
    }

    /// Adopts the child if the connection is legal, and otherwise hands it
    /// back with the violation: a soma accepts any number of basal
    /// proximal children but at most one apical trunk and one axon, and
    /// every other pairing follows the adjacency table.
    pub fn add_child(&mut self, child: Neurite) -> (r: Result<(), (TreeError, Neurite)>)
        ensures
            r is Ok <==> add_child_ok(*old(self), child),
            add_child_ok(*old(self), child) ==> final(self).child@ == old(self).child@.push(child)
                && *final(self) == (Neurite { child: final(self).child, ..*old(self) }),
            !add_child_ok(*old(self), child) ==> *final(self) == *old(self) && (r matches Err(e)
                && e.0 == add_child_err(*old(self), child) && e.1 == child),
    {
        if !legal_child(self.neurite_type, child.neurite_type) {
            return Err((TreeError::IllegalChild, child));
        }
        if self.neurite_type == NeuriteType::Soma && child.neurite_type == NeuriteType::ApicalTrunk
        {
            if self.has_child_typed(NeuriteType::ApicalTrunk) {
                return Err((TreeError::DuplicateApicalTrunk, child));
            }
        }
        if self.neurite_type == NeuriteType::Soma && child.neurite_type == NeuriteType::Axon {
            if self.has_child_typed(NeuriteType::Axon) {
                return Err((TreeError::DuplicateAxon, child));
            }
        }
        self.child.push(child);
        Ok(())
    }

    /// Detaches the child at the given position and adopts that child's
    /// own children in its place, each re-parented onto the detached
    /// child's recorded parent; the rest of the tree is untouched. Fails
    /// only on an out-of-range position.
    pub fn remove_child(&mut self, index: usize) -> (r: bool)
        ensures
            r == (index < old(self).child@.len()),
            !r ==> *final(self) == *old(self),
            r ==> ({
                let removed = old(self).child@[index as int];
                let kept = (old(self).child@.len() - 1) as int;
                &&& final(self).child@.len() == kept + removed.child@.len()
                &&& (forall|i: int| 0 <= i < index ==> final(self).child@[i] == old(self).child@[i])
                &&& (forall|i: int|
                    index <= i < kept ==> final(self).child@[i] == old(self).child@[i + 1])
                &&& (forall|j: int|
                    0 <= j < removed.child@.len() ==> final(self).child@[kept + j] == reparent_s(
                        #[trigger] removed.child@[j],
                        removed.parent,
                    ))
                &&& *final(self) == (Neurite { child: final(self).child, ..*old(self) })
            }),
    {
        if index >= self.child.len() {
            return false;
        }
        let removed = self.child.remove(index);
        let adopted_parent = removed.parent;
        let mut grand = removed.child;
        let ghost g0 = grand@;
        let ghost kept = (old(self).child@.len() - 1) as int;
        while grand.len() > 0
            invariant
                grand@.len() <= g0.len(),
                forall|i: int|
                    0 <= i < grand@.len() ==> #[trigger] grand@[i] == g0[g0.len() - grand@.len()
                        + i],
                self.child@.len() == kept + (g0.len() - grand@.len()),
                forall|i: int| 0 <= i < index ==> self.child@[i] == old(self).child@[i],
                index < old(self).child@.len(),
                kept == old(self).child@.len() - 1,
                g0 == old(self).child@[index as int].child@,
                forall|i: int| index <= i < kept ==> self.child@[i] == old(self).child@[i + 1],
                forall|j: int|
                    0 <= j < g0.len() - grand@.len() ==> self.child@[kept + j] == reparent_s(
                        #[trigger] g0[j],
                        adopted_parent,
                    ),
                *self == (Neurite { child: self.child, ..*old(self) }),
            decreases grand@.len(),
        {
            let ghost done = (g0.len() - grand@.len()) as int;
            let ghost gpre = grand@;
            let mut g = grand.remove(0);
            proof {
                assert forall|i: int| 0 <= i < grand@.len() implies #[trigger] grand@[i] == g0[
                    g0.len() - grand@.len() + i] by {
                    assert(grand@[i] == gpre[i + 1]);
                    assert(gpre[i + 1] == g0[done + i + 1]);
                }
                assert(g == gpre[0]);
                assert(g == g0[done]);
            }
            g.parent = adopted_parent;
            self.child.push(g);
        }
        true
    }

    /// Detaches the child at the given position and discards its whole
    /// subtree. Fails only on an out-of-range position.
    pub fn prune_child(&mut self, index: usize) -> (r: bool)
        ensures
            r == (index < old(self).child@.len()),
            !r ==> *final(self) == *old(self),
            r ==> final(self).child@ == old(self).child@.remove(index as int) && *final(self)
                == (Neurite { child: final(self).child, ..*old(self) }),
    {
        if index >= self.child.len() {
            return false;
        }
        self.child.remove(index);
        true
    }

    /// Records the given compartment as this one's parent if the pairing
    /// is legal under the adjacency table, and reports the violation
    /// otherwise; a soma never takes a parent.
    pub fn set_parent(&mut self, parent: &Neurite) -> (r: Result<(), TreeError>)
        ensures
            r is Ok <==> child_type_ok(parent.neurite_type, old(self).neurite_type),
            r is Ok ==> *final(self) == (Neurite { parent: Some(parent.id), ..*old(self) }),
            !(r is Ok) ==> *final(self) == *old(self) && r == Err::<(), TreeError>(
                TreeError::IllegalParent,
            ),
    {
        if legal_child(parent.neurite_type, self.neurite_type) {
            self.parent = Some(parent.id);
            Ok(())
        } else {
            Err(TreeError::IllegalParent)
        }
    }
}

/// Law: a soma never adopts a soma; a soma always adopts a basal proximal
/// compartment; a soma adopts an apical trunk exactly while it has none.
pub proof fn lemma_tree_legality(n: Neurite, c: Neurite)
    ensures
        n.neurite_type == NeuriteType::Soma && c.neurite_type == NeuriteType::Soma
            ==> !add_child_ok(n, c),
        n.neurite_type == NeuriteType::Soma && c.neurite_type == NeuriteType::BasalProximal
            ==> add_child_ok(n, c),
        n.neurite_type == NeuriteType::Soma && c.neurite_type == NeuriteType::ApicalTrunk
            ==> (add_child_ok(n, c) <==> !has_child_of_type(n, NeuriteType::ApicalTrunk)),
        n.neurite_type == NeuriteType::Soma && c.neurite_type == NeuriteType::Axon ==> (
        add_child_ok(n, c) <==> !has_child_of_type(n, NeuriteType::Axon)),
{
}


} // verus!
