//! Short-term synaptic plasticity: a facilitation scalar and a depression
//! scalar driven once per simulation step by the presynaptic spike flag.
//!
//! The output weight of a step multiplies the freshly updated facilitation
//! by the depression value from before the step; that ordering is part of
//! the model and is pinned by [`learn_s`].

use vstd::prelude::*;

use crate::fx::{s_add, s_sub, s_mul, s_div, s_from_int, tdiv_s, Fx, SCALE};

verus! {

/// Facilitation/depression state of one synapse.
#[derive(Clone, Copy, PartialEq, Eq, Structural, Debug)]
pub struct ShortTermPlasticity {
    /// Short-term facilitation scalar.
    pub f: Fx,
    /// Facilitation recovery time constant.
    pub tf: Fx,
    /// Short-term depression scalar.
    pub d: Fx,
    /// Depression decay time constant.
    pub td: Fx,
    /// Facilitation increment on a spike.
    pub p: Fx,
    /// Weight output of the last step.
    pub y: Fx,
}

/// What one learning step does: on a spike, facilitation rises by `p` times
/// its headroom and depression loses a share set by the new facilitation;
/// on silence, facilitation relaxes toward zero and depression recovers
/// toward one. The output weight uses the depression value from before the
/// step.
pub open spec fn learn_s(s: ShortTermPlasticity, spike: bool) -> ShortTermPlasticity {
    let pd = s.d;
    let f2 = if spike {
        s_add(s.f, s_mul(s.p, s_sub(s_from_int(1), s.f)))
    } else {
        s_sub(s.f, s_div(s.f, s.tf))
    };
    let d2 = if spike {
        s_sub(s.d, s_mul(f2, s.d))
    } else {
        s_add(s.d, s_div(s_sub(s_from_int(1), s.d), s.td))
    };
    ShortTermPlasticity { f: f2, tf: s.tf, d: d2, td: s.td, p: s.p, y: s_mul(f2, pd) }
}

impl ShortTermPlasticity {
    /// Fresh plasticity state: full facilitation, no depression, no output.
    pub fn new(tf: Fx, td: Fx, p: Fx) -> (r: ShortTermPlasticity)
        ensures
            r == (ShortTermPlasticity {
                f: s_from_int(1),
                tf,
                d: Fx { raw: 0 },
                td,
                p,
                y: Fx { raw: 0 },
            }),
    {
        ShortTermPlasticity {
            f: Fx::from_int(1),
            tf,
            d: Fx::zero(),
            td,
            p,
            y: Fx::zero(),
        }
    }

    /// Advances the plasticity state one step for the given spike flag and
    /// returns the new weight output.
    pub fn learn(&mut self, spike: bool) -> (r: Fx)
        ensures
            *final(self) == learn_s(*old(self), spike),
            r == learn_s(*old(self), spike).y,
    {
        let pd = self.d;
        if spike {
            self.f = self.f.add(self.p.mul(Fx::from_int(1).sub(self.f)));
            self.d = self.d.sub(self.f.mul(self.d));
        } else {
            self.f = self.f.sub(self.f.div(self.tf));
            self.d = self.d.add(Fx::from_int(1).sub(self.d).div(self.td));
        }
        self.y = self.f.mul(pd);
        self.y
    }
}

/// Law: with no spikes, facilitation falls toward zero and depression
/// rises toward one. For time constants of at least one, a silent step
/// subtracts from facilitation exactly its share of the recovery time and
/// adds to depression exactly the matching share of its headroom, so it
/// keeps facilitation in `[0, f]` and depression in `[d, 1]`, shrinks both
/// distances geometrically up to one quantum of truncation, and makes
/// strict progress whenever a scalar is more than one quantum of its time
/// constant away from its limit.
pub proof fn lemma_silent_learn_converges(s: ShortTermPlasticity)
    requires
        s.tf.raw >= SCALE,
        s.td.raw >= SCALE,
        s.f.raw >= 0,
        0 <= s.d.raw <= SCALE,
    ensures
        learn_s(s, false).f.raw == s.f.raw - tdiv_s(s.f.raw * (SCALE as int), s.tf.raw as int),
        learn_s(s, false).d.raw == s.d.raw + tdiv_s(
            ((SCALE - s.d.raw) as int) * (SCALE as int),
            s.td.raw as int,
        ),
        0 <= learn_s(s, false).f.raw <= s.f.raw,
        s.d.raw <= learn_s(s, false).d.raw <= SCALE,
        learn_s(s, false).f.raw * s.tf.raw <= s.f.raw * (s.tf.raw - SCALE) + s.tf.raw,
        (SCALE - learn_s(s, false).d.raw) * s.td.raw <= ((SCALE - s.d.raw) as int) * (s.td.raw
            - SCALE) + s.td.raw,
        s.f.raw * (SCALE as int) >= s.tf.raw ==> learn_s(s, false).f.raw < s.f.raw,
        ((SCALE - s.d.raw) as int) * (SCALE as int) >= s.td.raw ==> learn_s(s, false).d.raw
            > s.d.raw,
{
    let f = s.f.raw as int;
    let tf = s.tf.raw as int;
    let d = s.d.raw as int;
    let td = s.td.raw as int;
    let sc = SCALE as int;
    let qf = (f * sc) / tf;
    assert(0 <= qf <= f && (f * sc >= tf ==> qf >= 1) && (f - qf) * tf <= f * (tf - sc) + tf)
        by (nonlinear_arith)
        requires
            f >= 0,
            tf >= sc,
            sc > 0,
            qf == (f * sc) / tf,
    ;
    let h = sc - d;
    let qd = (h * sc) / td;
    assert(0 <= qd <= h && (h * sc >= td ==> qd >= 1) && (h - qd) * td <= h * (td - sc) + td)
        by (nonlinear_arith)
        requires
            h >= 0,
            td >= sc,
            sc > 0,
            qd == (h * sc) / td,
    ;
}

} // verus!
