//! Synapses: conductance-bearing excitatory and inhibitory couplings,
//! modulatory synapses that rescale a named variable of their target, and
//! gap junctions.
//!
//! A synapse is wired by handles: its presynaptic source and postsynaptic
//! neurite are identified, and the source's current output is handed to
//! `process` as a plain value each step, so one step is a pure function of
//! the synapse state and its inputs.

use vstd::prelude::*;

use crate::fx::{s_add, s_sub, s_neg, s_mul, s_div, Fx, SCALE};
use crate::ids::{NeuriteID, SynapticID};
use crate::plasticity::{learn_s, ShortTermPlasticity};

verus! {

/// The synaptic variables a modulatory synapse may rescale.
#[derive(Clone, Copy, PartialEq, Eq, Structural, Debug)]
pub enum SynapticModVar {
    G,
    X,
    P,
    TX,
    W,
}

/// The neurite variables a modulatory synapse may rescale.
#[derive(Clone, Copy, PartialEq, Eq, Structural, Debug)]
pub enum NeuriteModVar {
    A,
    B,
    C,
    D,
    GCC,
    GPC,
    U,
    V,
    VR,
    VT,
    CAP,
}

/// The kind of a synapse; modulatory kinds carry their target variable.
#[derive(Clone, Copy, PartialEq, Eq, Structural, Debug)]
pub enum SynapseType {
    Excitatory,
    Inhibitory,
    ShuntingInhibitory,
    SynapticModulator(SynapticModVar),
    NeuralModulator(NeuriteModVar),
    Gap,
}

/// The handle of a synapse's presynaptic source: an electrode, a sensor or
/// a neurite, by index in whatever collection the caller keeps.
#[derive(Clone, Copy, PartialEq, Eq, Structural, Debug)]
pub enum PresynapticInput {
    Electrode(usize),
    Sensor(usize),
    Neurite(usize),
}

/// The current output of a modulatory synapse, tagged with the variable it
/// rescales, as handed to the modulated synapse's step.
#[derive(Clone, Copy, PartialEq, Eq, Structural, Debug)]
pub struct Modulation {
    /// The rescaled variable.
    pub var: SynapticModVar,
    /// The modulatory synapse's current conductance.
    pub x: Fx,
}

/// The effective value of a parameter under an optional modulation: scaled
/// by the modulatory conductance when the tags agree, untouched otherwise.
pub open spec fn eff_param_s(base: Fx, m: Option<Modulation>, var: SynapticModVar) -> Fx {
    match m {
        Some(mo) => if mo.var == var {
            s_mul(base, mo.x)
        } else {
            base
        },
        None => base,
    }
}

/// Executable form of [`eff_param_s`].
fn eff_param(base: Fx, m: Option<Modulation>, var: SynapticModVar) -> (r: Fx)
    ensures
        r == eff_param_s(base, m, var),
{
    match m {
        Some(mo) => if mo.var == var {
            base.mul(mo.x)
        } else {
            base
        },
        None => base,
    }
}

/// One step of a conductance-bearing synapse: the conductance decays by its
/// share of the decay time, plasticity learns from the presynaptic spike
/// flag, and the conductance gains the plasticity-weighted maximal input.
/// Modulation rescales the decay time (`TX`), the decayed conductance
/// (`X`), the plasticity output (`P`), the maximal conductance (`G`) or the
/// weight (`W`).
pub open spec fn conductance_step_s(
    x: Fx,
    tx: Fx,
    stp: ShortTermPlasticity,
    w: Fx,
    x_max: Fx,
    pre_out: Fx,
    m: Option<Modulation>,
) -> (Fx, ShortTermPlasticity) {
    let x1 = eff_param_s(s_add(x, s_div(s_neg(x), eff_param_s(tx, m, SynapticModVar::TX))), m, SynapticModVar::X);
    let stp2 = learn_s(stp, pre_out.raw > 0);
    let x2 = s_add(
        x1,
        s_mul(
            s_mul(eff_param_s(x_max, m, SynapticModVar::G), eff_param_s(stp2.y, m, SynapticModVar::P)),
            eff_param_s(w, m, SynapticModVar::W),
        ),
    );
    (x2, stp2)
}

/// Executable form of [`conductance_step_s`].
fn conductance_step(
    x: Fx,
    tx: Fx,
    stp: ShortTermPlasticity,
    w: Fx,
    x_max: Fx,
    pre_out: Fx,
    m: Option<Modulation>,
) -> (r: (Fx, ShortTermPlasticity))
    ensures
        r == conductance_step_s(x, tx, stp, w, x_max, pre_out, m),
{
    let x1 = eff_param(x.add(x.neg().div(eff_param(tx, m, SynapticModVar::TX))), m, SynapticModVar::X);
    let mut stp2 = stp;
    let yw = stp2.learn(pre_out.micros() > 0);
    let x2 = x1.add(
        eff_param(x_max, m, SynapticModVar::G).mul(eff_param(yw, m, SynapticModVar::P)).mul(
            eff_param(w, m, SynapticModVar::W),
        ),
    );
    (x2, stp2)
}

/// One step of a modulatory synapse: the same decay and plasticity pattern,
/// but the gain is the bare plasticity output, since the synapse's own
/// output rescales a named target variable instead of driving current.
pub open spec fn modulatory_step_s(
    x: Fx,
    tx: Fx,
    stp: ShortTermPlasticity,
    pre_out: Fx,
    m: Option<Modulation>,
) -> (Fx, ShortTermPlasticity) {
    let x1 = eff_param_s(s_add(x, s_div(s_neg(x), eff_param_s(tx, m, SynapticModVar::TX))), m, SynapticModVar::X);
    let stp2 = learn_s(stp, pre_out.raw > 0);
    let x2 = s_add(x1, eff_param_s(stp2.y, m, SynapticModVar::P));
    (x2, stp2)
}

/// Executable form of [`modulatory_step_s`].
fn modulatory_step(
    x: Fx,
    tx: Fx,
    stp: ShortTermPlasticity,
    pre_out: Fx,
    m: Option<Modulation>,
) -> (r: (Fx, ShortTermPlasticity))
    ensures
        r == modulatory_step_s(x, tx, stp, pre_out, m),
{
    let x1 = eff_param(x.add(x.neg().div(eff_param(tx, m, SynapticModVar::TX))), m, SynapticModVar::X);
    let mut stp2 = stp;
    let yw = stp2.learn(pre_out.micros() > 0);
    let x2 = x1.add(eff_param(yw, m, SynapticModVar::P));
    (x2, stp2)
}

/// The shunting scalar held to `[-2, 1]`.
pub open spec fn clamp_shunt_s(s: Fx) -> Fx {
    if s.raw > SCALE {
        Fx { raw: SCALE }
    } else if s.raw < -2 * SCALE {
        Fx { raw: (-2 * SCALE) as i64 }
    } else {
        s
    }
}

// ------------------------------------------------------------------------

/// An excitatory synapse: its conductance drives its postsynaptic neurite
/// toward firing.
#[derive(Clone, Copy, PartialEq, Eq, Structural, Debug)]
pub struct ExcitatorySynapse {
    /// The synapse's identifier.
    pub id: SynapticID,
    /// The synapse's kind.
    pub syn_type: SynapseType,
    /// The presynaptic source handle.
    pub x_pre: PresynapticInput,
    /// The postsynaptic neurite.
    pub x_post: NeuriteID,
    /// The modulatory synapse attached to this one, if any.
    pub mod_syn: Option<SynapticID>,
    /// The running conductance (total input).
    pub x: Fx,
    /// Conductance decay time.
    pub tx: Fx,
    /// Short-term plasticity state.
    pub stp: ShortTermPlasticity,
    /// Synaptic weight.
    pub w: Fx,
    /// Maximal conductance.
    pub x_max: Fx,
}

impl ExcitatorySynapse {
    /// A fresh excitatory synapse with zero conductance and zero weight.
    pub fn new(
        x_pre: PresynapticInput,
        x_post: NeuriteID,
        stp: ShortTermPlasticity,
        tx: Fx,
        x_max: Fx,
    ) -> (r: ExcitatorySynapse)
        ensures
            r.syn_type == SynapseType::Excitatory,
            r.x_pre == x_pre,
            r.x_post == x_post,
            r.mod_syn is None,
            r.x == (Fx { raw: 0 }),
            r.tx == tx,
            r.stp == stp,
            r.w == (Fx { raw: 0 }),
            r.x_max == x_max,
    {
        ExcitatorySynapse {
            id: SynapticID::new(),
            syn_type: SynapseType::Excitatory,
            x_pre,
            x_post,
            mod_syn: None,
            x: Fx::zero(),
            tx,
            stp,
            w: Fx::zero(),
            x_max,
        }
    }

    /// The synapse's identifier.
    pub fn syn_id(&self) -> (r: SynapticID)
        ensures
            r == self.id,
    {
        self.id
    }

    /// The synapse's kind.
    pub fn syn_type(&self) -> (r: SynapseType)
        ensures
            r == self.syn_type,
    {
        self.syn_type
    }

    /// The presynaptic source handle.
    pub fn x_pre(&self) -> (r: PresynapticInput)
        ensures
            r == self.x_pre,
    {
        self.x_pre
    }

    /// The current total synaptic input.
    pub fn input(&self) -> (r: Fx)
        ensures
            r == self.x,
    {
        self.x
    }

    /// Assigns the externally chosen weight.
    pub fn set_weight(&mut self, w: Fx)
        ensures
            *final(self) == (ExcitatorySynapse { w, ..*old(self) }),
    {
        self.w = w;
    }

    /// Attaches or detaches a modulatory synapse.
    pub fn set_modulator(&mut self, m: Option<SynapticID>)
        ensures
            *final(self) == (ExcitatorySynapse { mod_syn: m, ..*old(self) }),
    {
        self.mod_syn = m;
    }

    /// Advances one step from the presynaptic output and an optional
    /// modulation, and returns the new total input.
    pub fn process(&mut self, pre_out: Fx, m: Option<Modulation>) -> (r: Fx)
        ensures
            *final(self) == (ExcitatorySynapse {
                x: conductance_step_s(
                    old(self).x,
                    old(self).tx,
                    old(self).stp,
                    old(self).w,
                    old(self).x_max,
                    pre_out,
                    m,
                ).0,
                stp: conductance_step_s(
                    old(self).x,
                    old(self).tx,
                    old(self).stp,
                    old(self).w,
                    old(self).x_max,
                    pre_out,
                    m,
                ).1,
                ..*old(self)
            }),
            r == final(self).x,
    {
        let (x2, stp2) = conductance_step(self.x, self.tx, self.stp, self.w, self.x_max, pre_out, m);
        self.x = x2;
        self.stp = stp2;
        self.x
    }
}

// ------------------------------------------------------------------------

/// An inhibitory synapse: the same conductance dynamics, integrated with an
/// inhibitory sign by the postsynaptic neurite.
#[derive(Clone, Copy, PartialEq, Eq, Structural, Debug)]
pub struct InhibitorySynapse {
    /// The synapse's identifier.
    pub id: SynapticID,
    /// The synapse's kind.
    pub syn_type: SynapseType,
    /// The presynaptic source handle.
    pub x_pre: PresynapticInput,
    /// The postsynaptic neurite.
    pub x_post: NeuriteID,
    /// The modulatory synapse attached to this one, if any.
    pub mod_syn: Option<SynapticID>,
    /// The running conductance (total input).
    pub x: Fx,
    /// Conductance decay time.
    pub tx: Fx,
    /// Short-term plasticity state.
    pub stp: ShortTermPlasticity,
    /// Synaptic weight.
    pub w: Fx,
    /// Maximal conductance.
    pub x_max: Fx,
}

impl InhibitorySynapse {
    /// A fresh inhibitory synapse with zero conductance and zero weight.
    pub fn new(
        x_pre: PresynapticInput,
        x_post: NeuriteID,
        stp: ShortTermPlasticity,
        tx: Fx,
        x_max: Fx,
    ) -> (r: InhibitorySynapse)
        ensures
            r.syn_type == SynapseType::Inhibitory,
            r.x_pre == x_pre,
            r.x_post == x_post,
            r.mod_syn is None,
            r.x == (Fx { raw: 0 }),
            r.tx == tx,
            r.stp == stp,
            r.w == (Fx { raw: 0 }),
            r.x_max == x_max,
    {
        InhibitorySynapse {
            id: SynapticID::new(),
            syn_type: SynapseType::Inhibitory,
            x_pre,
            x_post,
            mod_syn: None,
            x: Fx::zero(),
            tx,
            stp,
            w: Fx::zero(),
            x_max,
        }
    }

    /// The synapse's identifier.
    pub fn syn_id(&self) -> (r: SynapticID)
        ensures
            r == self.id,
    {
        self.id
    }

    /// The synapse's kind.
    pub fn syn_type(&self) -> (r: SynapseType)
        ensures
            r == self.syn_type,
    {
        self.syn_type
    }

    /// The presynaptic source handle.
    pub fn x_pre(&self) -> (r: PresynapticInput)
        ensures
            r == self.x_pre,
    {
        self.x_pre
    }

    /// The current total synaptic input.
    pub fn input(&self) -> (r: Fx)
        ensures
            r == self.x,
    {
        self.x
    }

    /// Assigns the externally chosen weight.
    pub fn set_weight(&mut self, w: Fx)
        ensures
            *final(self) == (InhibitorySynapse { w, ..*old(self) }),
    {
        self.w = w;
    }

    /// Attaches or detaches a modulatory synapse.
    pub fn set_modulator(&mut self, m: Option<SynapticID>)
        ensures
            *final(self) == (InhibitorySynapse { mod_syn: m, ..*old(self) }),
    {
        self.mod_syn = m;
    }

    /// Advances one step from the presynaptic output and an optional
    /// modulation, and returns the new total input.
    pub fn process(&mut self, pre_out: Fx, m: Option<Modulation>) -> (r: Fx)
        ensures
            *final(self) == (InhibitorySynapse {
                x: conductance_step_s(
                    old(self).x,
                    old(self).tx,
                    old(self).stp,
                    old(self).w,
                    old(self).x_max,
                    pre_out,
                    m,
                ).0,
                stp: conductance_step_s(
                    old(self).x,
                    old(self).tx,
                    old(self).stp,
                    old(self).w,
                    old(self).x_max,
                    pre_out,
                    m,
                ).1,
                ..*old(self)
            }),
            r == final(self).x,
    {
        let (x2, stp2) = conductance_step(self.x, self.tx, self.stp, self.w, self.x_max, pre_out, m);
        self.x = x2;
        self.stp = stp2;
        self.x
    }
}

// ------------------------------------------------------------------------

/// A shunting inhibitory synapse: the conductance dynamics plus a shunting
/// scalar, held to `[-2, 1]`, that the postsynaptic neurite applies when it
/// integrates this synapse's input.
#[derive(Clone, Copy, PartialEq, Eq, Structural, Debug)]
pub struct ShuntingInhibitorySynapse {
    /// The synapse's identifier.
    pub id: SynapticID,
    /// The synapse's kind.
    pub syn_type: SynapseType,
    /// The presynaptic source handle.
    pub x_pre: PresynapticInput,
    /// The postsynaptic neurite.
    pub x_post: NeuriteID,
    /// The modulatory synapse attached to this one, if any.
    pub mod_syn: Option<SynapticID>,
    /// The running conductance (total input).
    pub x: Fx,
    /// Conductance decay time.
    pub tx: Fx,
    /// The shunting scalar, within `[-2, 1]`.
    pub s: Fx,
    /// Short-term plasticity state.
    pub stp: ShortTermPlasticity,
    /// Synaptic weight.
    pub w: Fx,
    /// Maximal conductance.
    pub x_max: Fx,
}

impl ShuntingInhibitorySynapse {
    /// A fresh shunting inhibitory synapse; a shunting scalar outside
    /// `[-2, 1]` is silently clamped, not rejected.
    pub fn new(
        x_pre: PresynapticInput,
        x_post: NeuriteID,
        stp: ShortTermPlasticity,
        s: Fx,
        tx: Fx,
        x_max: Fx,
    ) -> (r: ShuntingInhibitorySynapse)
        ensures
            r.syn_type == SynapseType::ShuntingInhibitory,
            r.x_pre == x_pre,
            r.x_post == x_post,
            r.mod_syn is None,
            r.x == (Fx { raw: 0 }),
            r.tx == tx,
            r.s == clamp_shunt_s(s),
            r.stp == stp,
            r.w == (Fx { raw: 0 }),
            r.x_max == x_max,
    {
        let clamped = if s.micros() > SCALE {
            Fx::from_micros(SCALE)
        } else if s.micros() < -2 * SCALE {
            Fx::from_micros(-2 * SCALE)
        } else {
            s
        };
        ShuntingInhibitorySynapse {
            id: SynapticID::new(),
            syn_type: SynapseType::ShuntingInhibitory,
            x_pre,
            x_post,
            mod_syn: None,
            x: Fx::zero(),
            tx,
            s: clamped,
            stp,
            w: Fx::zero(),
            x_max,
        }
    }

    /// The synapse's identifier.
    pub fn syn_id(&self) -> (r: SynapticID)
        ensures
            r == self.id,
    {
        self.id
    }

    /// The synapse's kind.
    pub fn syn_type(&self) -> (r: SynapseType)
        ensures
            r == self.syn_type,
    {
        self.syn_type
    }

    /// The presynaptic source handle.
    pub fn x_pre(&self) -> (r: PresynapticInput)
        ensures
            r == self.x_pre,
    {
        self.x_pre
    }

    /// The current total synaptic input.
    pub fn input(&self) -> (r: Fx)
        ensures
            r == self.x,
    {
        self.x
    }

    /// The clamped shunting scalar.
    pub fn shunt(&self) -> (r: Fx)
        ensures
            r == self.s,
    {
        self.s
    }

    /// Assigns the externally chosen weight.
    pub fn set_weight(&mut self, w: Fx)
        ensures
            *final(self) == (ShuntingInhibitorySynapse { w, ..*old(self) }),
    {
        self.w = w;
    }

    /// Attaches or detaches a modulatory synapse.
    pub fn set_modulator(&mut self, m: Option<SynapticID>)
        ensures
            *final(self) == (ShuntingInhibitorySynapse { mod_syn: m, ..*old(self) }),
    {
        self.mod_syn = m;
    }

    /// Advances one step from the presynaptic output and an optional
    /// modulation, and returns the new total input.
    pub fn process(&mut self, pre_out: Fx, m: Option<Modulation>) -> (r: Fx)
        ensures
            *final(self) == (ShuntingInhibitorySynapse {
                x: conductance_step_s(
                    old(self).x,
                    old(self).tx,
                    old(self).stp,
                    old(self).w,
                    old(self).x_max,
                    pre_out,
                    m,
                ).0,
                stp: conductance_step_s(
                    old(self).x,
                    old(self).tx,
                    old(self).stp,
                    old(self).w,
                    old(self).x_max,
                    pre_out,
                    m,
                ).1,
                ..*old(self)
            }),
            r == final(self).x,
    {
        let (x2, stp2) = conductance_step(self.x, self.tx, self.stp, self.w, self.x_max, pre_out, m);
        self.x = x2;
        self.stp = stp2;
        self.x
    }
}

// ------------------------------------------------------------------------

/// A synaptic modulatory synapse: its conductance rescales the tagged
/// variable of a target synapse instead of driving current.
#[derive(Clone, Copy, PartialEq, Eq, Structural, Debug)]
pub struct SynapticModulatorySynapse {
    /// The synapse's identifier.
    pub id: SynapticID,
    /// The synapse's kind, carrying the rescaled variable.
    pub syn_type: SynapseType,
    /// The presynaptic source handle.
    pub x_pre: PresynapticInput,
    /// The postsynaptic neurite.
    pub x_post: NeuriteID,
    /// The modulatory synapse attached to this one, if any.
    pub mod_syn: Option<SynapticID>,
    /// The running conductance (total input).
    pub x: Fx,
    /// Conductance decay time.
    pub tx: Fx,
    /// Short-term plasticity state.
    pub stp: ShortTermPlasticity,
}

impl SynapticModulatorySynapse {
    /// A fresh synaptic modulatory synapse for the given target variable.
    pub fn new(
        var: SynapticModVar,
        x_pre: PresynapticInput,
        x_post: NeuriteID,
        stp: ShortTermPlasticity,
        tx: Fx,
    ) -> (r: SynapticModulatorySynapse)
        ensures
            r.syn_type == SynapseType::SynapticModulator(var),
            r.x_pre == x_pre,
            r.x_post == x_post,
            r.mod_syn is None,
            r.x == (Fx { raw: 0 }),
            r.tx == tx,
            r.stp == stp,
    {
        SynapticModulatorySynapse {
            id: SynapticID::new(),
            syn_type: SynapseType::SynapticModulator(var),
            x_pre,
            x_post,
            mod_syn: None,
            x: Fx::zero(),
            tx,
            stp,
        }
    }

    /// The synapse's identifier.
    pub fn syn_id(&self) -> (r: SynapticID)
        ensures
            r == self.id,
    {
        self.id
    }

    /// The synapse's kind.
    pub fn syn_type(&self) -> (r: SynapseType)
        ensures
            r == self.syn_type,
    {
        self.syn_type
    }

    /// The presynaptic source handle.
    pub fn x_pre(&self) -> (r: PresynapticInput)
        ensures
            r == self.x_pre,
    {
        self.x_pre
    }

    /// The current total synaptic input.
    pub fn input(&self) -> (r: Fx)
        ensures
            r == self.x,
    {
        self.x
    }

    /// Attaches or detaches a modulatory synapse.
    pub fn set_modulator(&mut self, m: Option<SynapticID>)
        ensures
            *final(self) == (SynapticModulatorySynapse { mod_syn: m, ..*old(self) }),
    {
        self.mod_syn = m;
    }

    /// Advances one step from the presynaptic output and an optional
    /// modulation, and returns the new conductance.
    pub fn process(&mut self, pre_out: Fx, m: Option<Modulation>) -> (r: Fx)
        ensures
            *final(self) == (SynapticModulatorySynapse {
                x: modulatory_step_s(old(self).x, old(self).tx, old(self).stp, pre_out, m).0,
                stp: modulatory_step_s(old(self).x, old(self).tx, old(self).stp, pre_out, m).1,
                ..*old(self)
            }),
            r == final(self).x,
    {
        let (x2, stp2) = modulatory_step(self.x, self.tx, self.stp, pre_out, m);
        self.x = x2;
        self.stp = stp2;
        self.x
    }

    /// This synapse's current contribution, ready to hand to the target
    /// synapse's step.
    pub fn modulation(&self) -> (r: Modulation)
        ensures
            (match self.syn_type {
                SynapseType::SynapticModulator(var) => r == (Modulation { var, x: self.x }),
                _ => r.x == self.x,
            }),
    {
        match self.syn_type {
            SynapseType::SynapticModulator(var) => Modulation { var, x: self.x },
            _ => Modulation { var: SynapticModVar::G, x: self.x },
        }
    }
}

// ------------------------------------------------------------------------

/// A neural modulatory synapse: its conductance rescales the tagged
/// variable of a target neurite instead of driving current.
#[derive(Clone, Copy, PartialEq, Eq, Structural, Debug)]
pub struct NeuralModulatorySynapse {
    /// The synapse's identifier.
    pub id: SynapticID,
    /// The synapse's kind, carrying the rescaled variable.
    pub syn_type: SynapseType,
    /// The presynaptic source handle.
    pub x_pre: PresynapticInput,
    /// The postsynaptic neurite.
    pub x_post: NeuriteID,
    /// The modulatory synapse attached to this one, if any.
    pub mod_syn: Option<SynapticID>,
    /// The running conductance (total input).
    pub x: Fx,
    /// Conductance decay time.
    pub tx: Fx,
    /// Short-term plasticity state.
    pub stp: ShortTermPlasticity,
}

impl NeuralModulatorySynapse {
    /// A fresh neural modulatory synapse for the given target variable.
    pub fn new(
        var: NeuriteModVar,
        x_pre: PresynapticInput,
        x_post: NeuriteID,
        stp: ShortTermPlasticity,
        tx: Fx,
    ) -> (r: NeuralModulatorySynapse)
        ensures
            r.syn_type == SynapseType::NeuralModulator(var),
            r.x_pre == x_pre,
            r.x_post == x_post,
            r.mod_syn is None,
            r.x == (Fx { raw: 0 }),
            r.tx == tx,
            r.stp == stp,
    {
        NeuralModulatorySynapse {
            id: SynapticID::new(),
            syn_type: SynapseType::NeuralModulator(var),
            x_pre,
            x_post,
            mod_syn: None,
            x: Fx::zero(),
            tx,
            stp,
        }
    }

    /// The synapse's identifier.
    pub fn syn_id(&self) -> (r: SynapticID)
        ensures
            r == self.id,
    {
        self.id
    }

    /// The synapse's kind.
    pub fn syn_type(&self) -> (r: SynapseType)
        ensures
            r == self.syn_type,
    {
        self.syn_type
    }

    /// The presynaptic source handle.
    pub fn x_pre(&self) -> (r: PresynapticInput)
        ensures
            r == self.x_pre,
    {
        self.x_pre
    }

    /// The current total synaptic input.
    pub fn input(&self) -> (r: Fx)
        ensures
            r == self.x,
    {
        self.x
    }

    /// Attaches or detaches a modulatory synapse.
    pub fn set_modulator(&mut self, m: Option<SynapticID>)
        ensures
            *final(self) == (NeuralModulatorySynapse { mod_syn: m, ..*old(self) }),
    {
        self.mod_syn = m;
    }

    /// Advances one step from the presynaptic output and an optional
    /// modulation, and returns the new conductance.
    pub fn process(&mut self, pre_out: Fx, m: Option<Modulation>) -> (r: Fx)
        ensures
            *final(self) == (NeuralModulatorySynapse {
                x: modulatory_step_s(old(self).x, old(self).tx, old(self).stp, pre_out, m).0,
                stp: modulatory_step_s(old(self).x, old(self).tx, old(self).stp, pre_out, m).1,
                ..*old(self)
            }),
            r == final(self).x,
    {
        let (x2, stp2) = modulatory_step(self.x, self.tx, self.stp, pre_out, m);
        self.x = x2;
        self.stp = stp2;
        self.x
    }
}

// ------------------------------------------------------------------------

/// One step of a gap junction: plasticity learns from side `a`, both
/// directions share the same plasticity-weighted increment, and each
/// direction's conductance grows only while its own side is active, keeping
/// the two directions symmetric.
pub open spec fn gap_step_s(
    ax: Fx,
    bx: Fx,
    stp: ShortTermPlasticity,
    w: Fx,
    x_max: Fx,
    a_out: Fx,
    b_out: Fx,
    m: Option<Modulation>,
) -> (Fx, Fx, ShortTermPlasticity) {
    let stp2 = learn_s(stp, a_out.raw > 0);
    let inc = s_mul(
        s_mul(eff_param_s(x_max, m, SynapticModVar::G), eff_param_s(stp2.y, m, SynapticModVar::P)),
        eff_param_s(w, m, SynapticModVar::W),
    );
    let ax2 = if a_out.raw > 0 {
        s_add(ax, inc)
    } else {
        ax
    };
    let bx2 = if b_out.raw > 0 {
        s_add(bx, inc)
    } else {
        bx
    };
    (ax2, bx2, stp2)
}

/// A gap junction: direct electrical coupling tracked by one conductance
/// per direction.
#[derive(Clone, Copy, PartialEq, Eq, Structural, Debug)]
pub struct GapJunctionSynapse {
    /// The synapse's identifier.
    pub id: SynapticID,
    /// The synapse's kind.
    pub syn_type: SynapseType,
    /// The presynaptic source handle (side `a`).
    pub x_pre: PresynapticInput,
    /// The postsynaptic neurite (side `b`).
    pub x_post: NeuriteID,
    /// The modulatory synapse attached to this one, if any.
    pub mod_syn: Option<SynapticID>,
    /// The conductance from side `a`.
    pub ax: Fx,
    /// The conductance from side `b`.
    pub bx: Fx,
    /// Short-term plasticity state.
    pub stp: ShortTermPlasticity,
    /// Synaptic weight.
    pub w: Fx,
    /// Maximal conductance.
    pub x_max: Fx,
}

impl GapJunctionSynapse {
    /// A fresh gap junction with zero conductances and zero weight.
    pub fn new(
        x_pre: PresynapticInput,
        x_post: NeuriteID,
        stp: ShortTermPlasticity,
        x_max: Fx,
    ) -> (r: GapJunctionSynapse)
        ensures
            r.syn_type == SynapseType::Gap,
            r.x_pre == x_pre,
            r.x_post == x_post,
            r.mod_syn is None,
            r.ax == (Fx { raw: 0 }),
            r.bx == (Fx { raw: 0 }),
            r.stp == stp,
            r.w == (Fx { raw: 0 }),
            r.x_max == x_max,
    {
        GapJunctionSynapse {
            id: SynapticID::new(),
            syn_type: SynapseType::Gap,
            x_pre,
            x_post,
            mod_syn: None,
            ax: Fx::zero(),
            bx: Fx::zero(),
            stp,
            w: Fx::zero(),
            x_max,
        }
    }

    /// The synapse's identifier.
    pub fn syn_id(&self) -> (r: SynapticID)
        ensures
            r == self.id,
    {
        self.id
    }

    /// The synapse's kind.
    pub fn syn_type(&self) -> (r: SynapseType)
        ensures
            r == self.syn_type,
    {
        self.syn_type
    }

    /// The presynaptic source handle.
    pub fn x_pre(&self) -> (r: PresynapticInput)
        ensures
            r == self.x_pre,
    {
        self.x_pre
    }

    /// The current total input: the net of the two directions.
    pub fn input(&self) -> (r: Fx)
        ensures
            r == s_sub(self.ax, self.bx),
    {
        self.ax.sub(self.bx)
    }

    /// Assigns the externally chosen weight.
    pub fn set_weight(&mut self, w: Fx)
        ensures
            *final(self) == (GapJunctionSynapse { w, ..*old(self) }),
    {
        self.w = w;
    }

    /// Attaches or detaches a modulatory synapse.
    pub fn set_modulator(&mut self, m: Option<SynapticID>)
        ensures
            *final(self) == (GapJunctionSynapse { mod_syn: m, ..*old(self) }),
    {
        self.mod_syn = m;
    }

    /// Advances one step from the outputs of the two coupled sides and
    /// returns the new net input.
    pub fn process(&mut self, a_out: Fx, b_out: Fx, m: Option<Modulation>) -> (r: Fx)
        ensures
            *final(self) == (GapJunctionSynapse {
                ax: gap_step_s(
                    old(self).ax,
                    old(self).bx,
                    old(self).stp,
                    old(self).w,
                    old(self).x_max,
                    a_out,
                    b_out,
                    m,
                ).0,
                bx: gap_step_s(
                    old(self).ax,
                    old(self).bx,
                    old(self).stp,
                    old(self).w,
                    old(self).x_max,
                    a_out,
                    b_out,
                    m,
                ).1,
                stp: gap_step_s(
                    old(self).ax,
                    old(self).bx,
                    old(self).stp,
                    old(self).w,
                    old(self).x_max,
                    a_out,
                    b_out,
                    m,
                ).2,
                ..*old(self)
            }),
            r == s_sub(final(self).ax, final(self).bx),
    {
        let mut stp2 = self.stp;
        let yw = stp2.learn(a_out.micros() > 0);
        let inc = eff_param(self.x_max, m, SynapticModVar::G).mul(
            eff_param(yw, m, SynapticModVar::P),
        ).mul(eff_param(self.w, m, SynapticModVar::W));
        if a_out.micros() > 0 {
            self.ax = self.ax.add(inc);
        }
        if b_out.micros() > 0 {
            self.bx = self.bx.add(inc);
        }
        self.stp = stp2;
        self.ax.sub(self.bx)
    }
}

} // verus!
