//! A discrete-time simulation engine for biologically inspired spiking
//! neurons: compartments ("neurites") integrating nonlinear spiking models,
//! a dendritic tree with typed connection rules, synapses with short-term
//! plasticity, and stimulus electrodes.
//!
//! All quantities are fixed-point scalars ([`fx::Fx`]) so that every update
//! rule is stated and proved exactly.

pub mod electrode;
pub mod fx;
pub mod ids;
pub mod neurite;
pub mod plasticity;
pub mod rng;
pub mod series;
pub mod synapse;
