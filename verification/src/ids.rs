//! Time-ordered identifiers for synapses and neurites, carried as plain
//! 128-bit values.

use vstd::prelude::*;

verus! {

/// Relies on uuid's `Uuid::new_v7` over the current system time for a fresh
/// time-ordered identifier, read out with `Uuid::as_u128`; of the drawn
/// value nothing is stated.
#[verifier::external_body]
fn fresh_id() -> (r: u128) {
    uuid::Uuid::new_v7(uuid::Timestamp::now(uuid::NoContext)).as_u128()
}

/// The identifier of a synapse.
#[derive(Clone, Copy, PartialEq, Eq, Structural, Debug)]
pub struct SynapticID {
    pub id: u128,
}

impl SynapticID {
    /// Draws a fresh time-ordered synapse identifier.
    pub fn new() -> SynapticID {
        SynapticID { id: fresh_id() }
    }
}

/// The identifier of a neurite.
#[derive(Clone, Copy, PartialEq, Eq, Structural, Debug)]
pub struct NeuriteID {
    pub id: u128,
}

impl NeuriteID {
    /// Draws a fresh time-ordered neurite identifier.
    pub fn new() -> NeuriteID {
        NeuriteID { id: fresh_id() }
    }
}

} // verus!
