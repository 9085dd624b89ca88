//! Stimulus electrodes: pulse, pulsating, sinusoidal and Poisson
//! generators, each advanced one step at a time by an externally supplied
//! time increment.
//!
//! All variants share one shape: while inactive the elapsed-time
//! accumulator and the output are held at zero; while active the
//! accumulator grows by the time increment and the output follows the
//! variant's waveform.

use vstd::prelude::*;

use crate::fx::{
    lemma_mul_unit_factor, lemma_unit_times_bounded, s_add, s_sub, s_mul, s_div, s_rem,
    s_from_int, Fx, SCALE,
};
use crate::rng::RandomSource;
use crate::series::{lemma_sin_bounded, sample_interval_s, sin_s, sample_interval, sin_fx, TWO_PI_RAW};

verus! {

/// Whether the accumulated time falls in the "on" share of a repeating
/// cycle of `d` time units on and `t` units off. A cycle without positive
/// length is never on.
pub open spec fn cycle_on_s(a: Fx, d: Fx, t: Fx) -> bool {
    let p = s_add(d, t);
    p.raw > 0 && s_rem(a, p).raw <= d.raw
}

/// Executable form of [`cycle_on_s`].
fn cycle_on(a: Fx, d: Fx, t: Fx) -> (r: bool)
    ensures
        r == cycle_on_s(a, d, t),
{
    let p = d.add(t);
    if p.micros() > 0 {
        a.rem(p).micros() <= d.micros()
    } else {
        false
    }
}

// ------------------------------------------------------------------------

/// A single-shot electrode: outputs `v` for `d` time units once activated,
/// then deactivates itself.
#[derive(Clone, Copy, PartialEq, Eq, Structural, Debug)]
pub struct PulseElectrode {
    /// Active flag.
    pub active: bool,
    /// Accumulated active time.
    pub a: Fx,
    /// Voltage while the pulse is on.
    pub v: Fx,
    /// Duration of the pulse.
    pub d: Fx,
    /// Output of the last step.
    pub y: Fx,
}

/// What one step of the pulse electrode does: while the accumulator has not
/// passed the duration the electrode outputs its voltage, then it switches
/// itself off and clears; inactive it clears.
pub open spec fn pulse_step_s(e: PulseElectrode, dt: Fx) -> PulseElectrode {
    if e.active {
        if e.a.raw <= e.d.raw {
            PulseElectrode { active: true, a: s_add(e.a, dt), v: e.v, d: e.d, y: e.v }
        } else {
            PulseElectrode { active: false, a: Fx { raw: 0 }, v: e.v, d: e.d, y: Fx { raw: 0 } }
        }
    } else {
        PulseElectrode { active: false, a: Fx { raw: 0 }, v: e.v, d: e.d, y: Fx { raw: 0 } }
    }
}

impl PulseElectrode {
    /// A fresh, inactive pulse electrode.
    pub fn new(v: Fx, d: Fx) -> (r: PulseElectrode)
        ensures
            r == (PulseElectrode { active: false, a: Fx { raw: 0 }, v, d, y: Fx { raw: 0 } }),
    {
        PulseElectrode { active: false, a: Fx::zero(), v, d, y: Fx::zero() }
    }

    /// Activates the electrode.
    pub fn on(&mut self)
        ensures
            *final(self) == (PulseElectrode { active: true, ..*old(self) }),
    {
        self.active = true;
    }

    /// Deactivates the electrode.
    pub fn off(&mut self)
        ensures
            *final(self) == (PulseElectrode { active: false, ..*old(self) }),
    {
        self.active = false;
    }

    /// The electrode's voltage setting.
    pub fn voltage(&self) -> (r: Fx)
        ensures
            r == self.v,
    {
        self.v
    }

    /// The electrode's pulse duration.
    pub fn duration(&self) -> (r: Fx)
        ensures
            r == self.d,
    {
        self.d
    }

    /// The output of the last step.
    pub fn output(&self) -> (r: Fx)
        ensures
            r == self.y,
    {
        self.y
    }

    /// Advances one time step and returns the new output.
    pub fn process(&mut self, dt: Fx) -> (r: Fx)
        ensures
            *final(self) == pulse_step_s(*old(self), dt),
            r == pulse_step_s(*old(self), dt).y,
    {
        if self.active {
            if self.a.micros() <= self.d.micros() {
                self.a = self.a.add(dt);
                self.y = self.v;
            } else {
                self.active = false;
                self.a = Fx::zero();
                self.y = Fx::zero();
            }
        } else {
            self.a = Fx::zero();
            self.y = Fx::zero();
        }
        self.y
    }
}

// ------------------------------------------------------------------------

/// A repeating electrode: `d` time units of output `v`, then `t` units of
/// silence, for as long as it is active.
#[derive(Clone, Copy, PartialEq, Eq, Structural, Debug)]
pub struct PulsatingElectrode {
    /// Active flag.
    pub active: bool,
    /// Accumulated active time.
    pub a: Fx,
    /// Voltage while the pulse is on.
    pub v: Fx,
    /// Duration of each pulse.
    pub d: Fx,
    /// Silence between pulses.
    pub t: Fx,
    /// Output of the last step.
    pub y: Fx,
}

/// What one step of the pulsating electrode does: the accumulator grows and
/// the output follows the duty cycle; inactive it clears.
pub open spec fn pulsating_step_s(e: PulsatingElectrode, dt: Fx) -> PulsatingElectrode {
    if e.active {
        let a2 = s_add(e.a, dt);
        let y2 = if cycle_on_s(a2, e.d, e.t) {
            e.v
        } else {
            Fx { raw: 0 }
        };
        PulsatingElectrode { active: true, a: a2, v: e.v, d: e.d, t: e.t, y: y2 }
    } else {
        PulsatingElectrode {
            active: false,
            a: Fx { raw: 0 },
            v: e.v,
            d: e.d,
            t: e.t,
            y: Fx { raw: 0 },
        }
    }
}

impl PulsatingElectrode {
    /// A fresh, inactive pulsating electrode.
    pub fn new(v: Fx, d: Fx, t: Fx) -> (r: PulsatingElectrode)
        ensures
            r == (PulsatingElectrode {
                active: false,
                a: Fx { raw: 0 },
                v,
                d,
                t,
                y: Fx { raw: 0 },
            }),
    {
        PulsatingElectrode { active: false, a: Fx::zero(), v, d, t, y: Fx::zero() }
    }

    /// Activates the electrode.
    pub fn on(&mut self)
        ensures
            *final(self) == (PulsatingElectrode { active: true, ..*old(self) }),
    {
        self.active = true;
    }

    /// Deactivates the electrode.
    pub fn off(&mut self)
        ensures
            *final(self) == (PulsatingElectrode { active: false, ..*old(self) }),
    {
        self.active = false;
    }

    /// The electrode's voltage setting.
    pub fn voltage(&self) -> (r: Fx)
        ensures
            r == self.v,
    {
        self.v
    }

    /// The duration of each pulse.
    pub fn duration(&self) -> (r: Fx)
        ensures
            r == self.d,
    {
        self.d
    }

    /// The output of the last step.
    pub fn output(&self) -> (r: Fx)
        ensures
            r == self.y,
    {
        self.y
    }

    /// Advances one time step and returns the new output.
    pub fn process(&mut self, dt: Fx) -> (r: Fx)
        ensures
            *final(self) == pulsating_step_s(*old(self), dt),
            r == pulsating_step_s(*old(self), dt).y,
    {
        if self.active {
            self.a = self.a.add(dt);
            self.y = if cycle_on(self.a, self.d, self.t) {
                self.v
            } else {
                Fx::zero()
            };
        } else {
            self.a = Fx::zero();
            self.y = Fx::zero();
        }
        self.y
    }
}

// ------------------------------------------------------------------------

/// A continuous electrode: a sine wave of period `d`, phase shift `p`,
/// scaled into `[0, v]`.
#[derive(Clone, Copy, PartialEq, Eq, Structural, Debug)]
pub struct SinusoidalElectrode {
    /// Active flag.
    pub active: bool,
    /// Accumulated active time.
    pub a: Fx,
    /// Peak voltage of the wave.
    pub v: Fx,
    /// Period length of the wave.
    pub d: Fx,
    /// Phase shift of the wave.
    pub p: Fx,
    /// Output of the last step.
    pub y: Fx,
}

/// The sinusoidal waveform at accumulated time `a`: the sine of one turn
/// per period, shifted and scaled into `[0, v]`.
pub open spec fn sine_wave_s(v: Fx, d: Fx, p: Fx, a: Fx) -> Fx {
    let ang = s_mul(s_mul(Fx { raw: TWO_PI_RAW }, s_div(s_from_int(1), d)), s_sub(a, p));
    s_mul(v, s_add(s_mul(sin_s(ang), Fx { raw: 500_000 }), Fx { raw: 500_000 }))
}

/// Law: for a nonnegative peak voltage the sinusoidal waveform lies in
/// `[0, v]`: the sine factor is held within one each way, so the shifted
/// and scaled factor lies in `[0, 1]` and never stretches the peak.
pub proof fn lemma_sine_wave_in_range(v: Fx, d: Fx, p: Fx, a: Fx)
    requires
        v.raw >= 0,
    ensures
        0 <= sine_wave_s(v, d, p, a).raw <= v.raw,
{
    let ang = s_mul(s_mul(Fx { raw: TWO_PI_RAW }, s_div(s_from_int(1), d)), s_sub(a, p));
    let half = Fx { raw: 500_000 };
    lemma_sin_bounded(ang);
    lemma_unit_times_bounded(sin_s(ang), half);
    let factor = s_add(s_mul(sin_s(ang), half), half);
    assert(0 <= factor.raw <= SCALE);
    lemma_mul_unit_factor(v, factor);
}

/// What one step of the sinusoidal electrode does.
pub open spec fn sinusoidal_step_s(e: SinusoidalElectrode, dt: Fx) -> SinusoidalElectrode {
    if e.active {
        let a2 = s_add(e.a, dt);
        SinusoidalElectrode {
            active: true,
            a: a2,
            v: e.v,
            d: e.d,
            p: e.p,
            y: sine_wave_s(e.v, e.d, e.p, a2),
        }
    } else {
        SinusoidalElectrode {
            active: false,
            a: Fx { raw: 0 },
            v: e.v,
            d: e.d,
            p: e.p,
            y: Fx { raw: 0 },
        }
    }
}

/// Law: for a nonnegative peak voltage the sinusoidal electrode's output
/// after any step lies in `[0, v]`, whether the step ran the wave or
/// cleared an inactive electrode.
pub proof fn lemma_sinusoidal_output_in_range(e: SinusoidalElectrode, dt: Fx)
    requires
        e.v.raw >= 0,
    ensures
        0 <= sinusoidal_step_s(e, dt).y.raw <= e.v.raw,
{
    if e.active {
        lemma_sine_wave_in_range(e.v, e.d, e.p, s_add(e.a, dt));
    }
}

impl SinusoidalElectrode {
    /// A fresh, inactive sinusoidal electrode.
    pub fn new(v: Fx, d: Fx, p: Fx) -> (r: SinusoidalElectrode)
        ensures
            r == (SinusoidalElectrode {
                active: false,
                a: Fx { raw: 0 },
                v,
                d,
                p,
                y: Fx { raw: 0 },
            }),
    {
        SinusoidalElectrode { active: false, a: Fx::zero(), v, d, p, y: Fx::zero() }
    }

    /// Activates the electrode.
    pub fn on(&mut self)
        ensures
            *final(self) == (SinusoidalElectrode { active: true, ..*old(self) }),
    {
        self.active = true;
    }

    /// Deactivates the electrode.
    pub fn off(&mut self)
        ensures
            *final(self) == (SinusoidalElectrode { active: false, ..*old(self) }),
    {
        self.active = false;
    }

    /// The peak voltage of the wave.
    pub fn voltage(&self) -> (r: Fx)
        ensures
            r == self.v,
    {
        self.v
    }

    /// The period length of the wave.
    pub fn duration(&self) -> (r: Fx)
        ensures
            r == self.d,
    {
        self.d
    }

    /// The output of the last step.
    pub fn output(&self) -> (r: Fx)
        ensures
            r == self.y,
    {
        self.y
    }

    /// Advances one time step and returns the new output.
    pub fn process(&mut self, dt: Fx) -> (r: Fx)
        ensures
            *final(self) == sinusoidal_step_s(*old(self), dt),
            r == sinusoidal_step_s(*old(self), dt).y,
    {
        if self.active {
            self.a = self.a.add(dt);
            let ang = Fx::from_micros(TWO_PI_RAW).mul(Fx::from_int(1).div(self.d)).mul(
                self.a.sub(self.p),
            );
            let half = Fx::from_micros(500_000);
            self.y = self.v.mul(sin_fx(ang).mul(half).add(half));
        } else {
            self.a = Fx::zero();
            self.y = Fx::zero();
        }
        self.y
    }
}

// ------------------------------------------------------------------------

/// The waveform state of a Poisson electrode, separate from its random
/// source so that one step is a pure function of this state and one draw.
#[derive(Clone, Copy, PartialEq, Eq, Structural, Debug)]
pub struct PoissonState {
    /// Active flag.
    pub active: bool,
    /// Accumulated active time.
    pub a: Fx,
    /// Voltage while a pulse is on.
    pub v: Fx,
    /// Duration of each pulse.
    pub d: Fx,
    /// Average pulse rate per sampling window.
    pub f: Fx,
    /// Spacing until the next pulse, drawn each window.
    pub t: Fx,
    /// Output of the last step.
    pub y: Fx,
}

/// Length of the sampling window.
pub const WINDOW_RAW: i64 = 1_000_000_000;

/// Whether a step from accumulated time `prev` into `next` starts a new
/// sampling window: the first active step, or a wraparound of the
/// accumulated time within the window length.
pub open spec fn window_rollover_s(prev: Fx, next: Fx) -> bool {
    prev.raw == 0 || s_rem(next, Fx { raw: WINDOW_RAW }).raw < s_rem(prev, Fx { raw: WINDOW_RAW }).raw
}

/// What one step of the Poisson electrode does with the given draw: at each
/// window rollover a fresh inter-pulse spacing is sampled from the draw,
/// and the output then follows the duty cycle of `d` on and `t` off;
/// inactive it clears.
pub open spec fn poisson_step_s(s: PoissonState, draw: u64, dt: Fx) -> PoissonState {
    if s.active {
        let a2 = s_add(s.a, dt);
        let t2 = if window_rollover_s(s.a, a2) {
            sample_interval_s(s.f, draw)
        } else {
            s.t
        };
        let y2 = if cycle_on_s(a2, s.d, t2) {
            s.v
        } else {
            Fx { raw: 0 }
        };
        PoissonState { active: true, a: a2, v: s.v, d: s.d, f: s.f, t: t2, y: y2 }
    } else {
        PoissonState {
            active: false,
            a: Fx { raw: 0 },
            v: s.v,
            d: s.d,
            f: s.f,
            t: s.t,
            y: Fx { raw: 0 },
        }
    }
}

/// A stochastic electrode: pulses whose spacing is drawn each window from a
/// Poisson distribution with rate `f`, from a seedable random source.
pub struct PoissonElectrode {
    /// The waveform state.
    pub state: PoissonState,
    /// The isolated random source.
    pub src: RandomSource,
}

impl PoissonElectrode {
    /// A fresh, inactive Poisson electrode whose draws are fixed by `seed`.
    pub fn new(v: Fx, f: Fx, seed: u64) -> (r: PoissonElectrode)
        ensures
            r.state == (PoissonState {
                active: false,
                a: Fx { raw: 0 },
                v,
                d: s_from_int(1),
                f,
                t: Fx { raw: 0 },
                y: Fx { raw: 0 },
            }),
    {
        PoissonElectrode {
            state: PoissonState {
                active: false,
                a: Fx::zero(),
                v,
                d: Fx::from_int(1),
                f,
                t: Fx::zero(),
                y: Fx::zero(),
            },
            src: RandomSource::new(seed),
        }
    }

    /// Activates the electrode.
    pub fn on(&mut self)
        ensures
            final(self).state == (PoissonState { active: true, ..old(self).state }),
    {
        self.state.active = true;
    }

    /// Deactivates the electrode.
    pub fn off(&mut self)
        ensures
            final(self).state == (PoissonState { active: false, ..old(self).state }),
    {
        self.state.active = false;
    }

    /// The electrode's voltage setting.
    pub fn voltage(&self) -> (r: Fx)
        ensures
            r == self.state.v,
    {
        self.state.v
    }

    /// The duration of each pulse.
    pub fn duration(&self) -> (r: Fx)
        ensures
            r == self.state.d,
    {
        self.state.d
    }

    /// The output of the last step.
    pub fn output(&self) -> (r: Fx)
        ensures
            r == self.state.y,
    {
        self.state.y
    }

    /// Advances one time step with a draw from the electrode's own random
    /// source; every outcome is one of the draw-indexed steps of
    /// [`poisson_step_s`].
    pub fn process(&mut self, dt: Fx) -> (r: Fx)
        ensures
            exists|draw: u64|
                final(self).state == poisson_step_s(old(self).state, draw, dt) && r
                    == poisson_step_s(old(self).state, draw, dt).y,
    {
        let draw = self.src.next_draw();
        self.process_with_draw(draw, dt)
    }

    /// Advances one time step using the given draw; the random source is
    /// left untouched, so the step is a pure function of state and draw.
    pub fn process_with_draw(&mut self, draw: u64, dt: Fx) -> (r: Fx)
        ensures
            final(self).state == poisson_step_s(old(self).state, draw, dt),
            r == poisson_step_s(old(self).state, draw, dt).y,
    {
        if self.state.active {
            let prev_a = self.state.a;
            self.state.a = self.state.a.add(dt);
            let window = Fx::from_micros(WINDOW_RAW);
            if prev_a.micros() == 0 || self.state.a.rem(window).micros() < prev_a.rem(
                window,
            ).micros() {
                self.state.t = sample_interval(self.state.f, draw);
            }
            self.state.y = if cycle_on(self.state.a, self.state.d, self.state.t) {
                self.state.v
            } else {
                Fx::zero()
            };
        } else {
            self.state.a = Fx::zero();
            self.state.y = Fx::zero();
        }
        self.state.y
    }
}

/// Law: the Poisson electrode's evolution is fixed by its waveform state
/// and its draws alone. Two electrodes in the same state stepped with the
/// same draw agree on the next state and the next output, so a fixed seed,
/// which fixes the draw sequence, fixes the whole output sequence.
pub proof fn lemma_poisson_deterministic(s1: PoissonState, s2: PoissonState, draw: u64, dt: Fx)
    requires
        s1 == s2,
    ensures
        poisson_step_s(s1, draw, dt) == poisson_step_s(s2, draw, dt),
        poisson_step_s(s1, draw, dt).y == poisson_step_s(s2, draw, dt).y,
{
}

// ------------------------------------------------------------------------

/// Any electrode, dispatched by pattern match.
pub enum Electrode {
    Pulse(PulseElectrode),
    Pulsating(PulsatingElectrode),
    Sinusoidal(SinusoidalElectrode),
    Poisson(PoissonElectrode),
}

/// The last output of any electrode.
pub open spec fn electrode_output_s(e: Electrode) -> Fx {
    match e {
        Electrode::Pulse(p) => p.y,
        Electrode::Pulsating(p) => p.y,
        Electrode::Sinusoidal(p) => p.y,
        Electrode::Poisson(p) => p.state.y,
    }
}

/// The voltage setting of any electrode.
pub open spec fn electrode_voltage_s(e: Electrode) -> Fx {
    match e {
        Electrode::Pulse(p) => p.v,
        Electrode::Pulsating(p) => p.v,
        Electrode::Sinusoidal(p) => p.v,
        Electrode::Poisson(p) => p.state.v,
    }
}

/// The duration setting of any electrode.
pub open spec fn electrode_duration_s(e: Electrode) -> Fx {
    match e {
        Electrode::Pulse(p) => p.d,
        Electrode::Pulsating(p) => p.d,
        Electrode::Sinusoidal(p) => p.d,
        Electrode::Poisson(p) => p.state.d,
    }
}

/// The active flag of any electrode.
pub open spec fn electrode_active_s(e: Electrode) -> bool {
    match e {
        Electrode::Pulse(p) => p.active,
        Electrode::Pulsating(p) => p.active,
        Electrode::Sinusoidal(p) => p.active,
        Electrode::Poisson(p) => p.state.active,
    }
}

impl Electrode {
    /// Activates the electrode.
    pub fn on(&mut self)
        ensures
            electrode_active_s(*final(self)),
            electrode_output_s(*final(self)) == electrode_output_s(*old(self)),
            electrode_voltage_s(*final(self)) == electrode_voltage_s(*old(self)),
            electrode_duration_s(*final(self)) == electrode_duration_s(*old(self)),
    {
        match self {
            Electrode::Pulse(p) => p.on(),
            Electrode::Pulsating(p) => p.on(),
            Electrode::Sinusoidal(p) => p.on(),
            Electrode::Poisson(p) => p.on(),
        }
    }

    /// Deactivates the electrode.
    pub fn off(&mut self)
        ensures
            !electrode_active_s(*final(self)),
            electrode_output_s(*final(self)) == electrode_output_s(*old(self)),
            electrode_voltage_s(*final(self)) == electrode_voltage_s(*old(self)),
            electrode_duration_s(*final(self)) == electrode_duration_s(*old(self)),
    {
        match self {
            Electrode::Pulse(p) => p.off(),
            Electrode::Pulsating(p) => p.off(),
            Electrode::Sinusoidal(p) => p.off(),
            Electrode::Poisson(p) => p.off(),
        }
    }

    /// The voltage setting.
    pub fn voltage(&self) -> (r: Fx)
        ensures
            r == electrode_voltage_s(*self),
    {
        match self {
            Electrode::Pulse(p) => p.voltage(),
            Electrode::Pulsating(p) => p.voltage(),
            Electrode::Sinusoidal(p) => p.voltage(),
            Electrode::Poisson(p) => p.voltage(),
        }
    }

    /// The duration setting.
    pub fn duration(&self) -> (r: Fx)
        ensures
            r == electrode_duration_s(*self),
    {
        match self {
            Electrode::Pulse(p) => p.duration(),
            Electrode::Pulsating(p) => p.duration(),
            Electrode::Sinusoidal(p) => p.duration(),
            Electrode::Poisson(p) => p.duration(),
        }
    }

    /// The output of the last step.
    pub fn output(&self) -> (r: Fx)
        ensures
            r == electrode_output_s(*self),
    {
        match self {
            Electrode::Pulse(p) => p.output(),
            Electrode::Pulsating(p) => p.output(),
            Electrode::Sinusoidal(p) => p.output(),
            Electrode::Poisson(p) => p.output(),
        }
    }

    /// Advances one time step and returns the new output, by the stepping
    /// rule of the carried variant.
    pub fn process(&mut self, dt: Fx) -> (r: Fx)
        ensures
            r == electrode_output_s(*final(self)),
            (match *old(self) {
                Electrode::Pulse(p) => *final(self) == Electrode::Pulse(pulse_step_s(p, dt)),
                Electrode::Pulsating(p) => *final(self) == Electrode::Pulsating(
                    pulsating_step_s(p, dt),
                ),
                Electrode::Sinusoidal(p) => *final(self) == Electrode::Sinusoidal(
                    sinusoidal_step_s(p, dt),
                ),
                Electrode::Poisson(p) => exists|draw: u64|
                    *final(self) matches Electrode::Poisson(q) && q.state == #[trigger] poisson_step_s(
                        p.state,
                        draw,
                        dt,
                    ),
            }),
    {
        match self {
            Electrode::Pulse(p) => p.process(dt),
            Electrode::Pulsating(p) => p.process(dt),
            Electrode::Sinusoidal(p) => p.process(dt),
            Electrode::Poisson(p) => p.process(dt),
        }
    }
}

} // verus!
