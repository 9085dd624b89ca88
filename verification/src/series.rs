//! Fixed-point power series: the sine wave of the sinusoidal electrode and
//! the exponential behind the Poisson electrode's interval sampling.
//!
//! Each executable function computes exactly the value its spec function
//! describes, so callers' contracts compose without approximation claims.

use vstd::prelude::*;

use crate::fx::{s_add, s_sub, s_neg, s_mul, s_div, s_from_int, Fx, SCALE};

verus! {

/// One whole turn, in raw radians.
pub const TWO_PI_RAW: i64 = 6_283_185;

/// Half a turn, in raw radians.
pub const PI_RAW: i64 = 3_141_593;

/// A quarter turn, in raw radians.
pub const HALF_PI_RAW: i64 = 1_570_796;

/// The angle folded into one signed turn and then into a half turn each way.
pub open spec fn fold_angle_s(x: Fx) -> Fx {
    let r = crate::fx::s_rem(x, Fx { raw: TWO_PI_RAW });
    if r.raw > PI_RAW {
        s_sub(r, Fx { raw: TWO_PI_RAW })
    } else if r.raw < -PI_RAW {
        s_add(r, Fx { raw: TWO_PI_RAW })
    } else {
        r
    }
}

/// The folded angle reflected into the quarter-turn range where the power
/// series is sharp, using the sine's symmetry about the quarter turns.
pub open spec fn reflect_angle_s(r: Fx) -> Fx {
    if r.raw > HALF_PI_RAW {
        s_sub(Fx { raw: PI_RAW }, r)
    } else if r.raw < -HALF_PI_RAW {
        s_sub(Fx { raw: (-PI_RAW) as i64 }, r)
    } else {
        r
    }
}

/// A value held to one whole number each way, as a sine must be.
pub open spec fn unit_clamp_s(s: Fx) -> Fx {
    if s.raw > SCALE {
        Fx { raw: SCALE }
    } else if s.raw < -SCALE {
        Fx { raw: (-SCALE) as i64 }
    } else {
        s
    }
}

/// What the sine evaluation returns: the odd power series through the ninth
/// power, on the folded and reflected angle, held to one each way — the
/// truncated series can overshoot one by a few millionths near a quarter
/// turn, and a sine never may.
pub open spec fn sin_s(x: Fx) -> Fx {
    let r = reflect_angle_s(fold_angle_s(x));
    let r2 = s_mul(r, r);
    let r3 = s_mul(r2, r);
    let r5 = s_mul(r3, r2);
    let r7 = s_mul(r5, r2);
    let r9 = s_mul(r7, r2);
    let t3 = s_div(r3, s_from_int(6));
    let t5 = s_div(r5, s_from_int(120));
    let t7 = s_div(r7, s_from_int(5040));
    let t9 = s_div(r9, s_from_int(362880));
    unit_clamp_s(s_add(s_sub(s_add(s_sub(r, t3), t5), t7), t9))
}

/// Law: the sine evaluation lies within one whole number each way.
pub proof fn lemma_sin_bounded(x: Fx)
    ensures
        -SCALE <= sin_s(x).raw <= SCALE,
{
}

/// Sine of a fixed-point angle in radians; the result lies within one
/// whole number each way.
pub fn sin_fx(x: Fx) -> (r: Fx)
    ensures
        r == sin_s(x),
        -SCALE <= r.raw <= SCALE,
{
    let two_pi = Fx::from_micros(TWO_PI_RAW);
    let rem = x.rem(two_pi);
    let turn = if rem.micros() > PI_RAW {
        rem.sub(two_pi)
    } else if rem.micros() < -PI_RAW {
        rem.add(two_pi)
    } else {
        rem
    };
    let folded = if turn.micros() > HALF_PI_RAW {
        Fx::from_micros(PI_RAW).sub(turn)
    } else if turn.micros() < -HALF_PI_RAW {
        Fx::from_micros(-PI_RAW).sub(turn)
    } else {
        turn
    };
    let r2 = folded.mul(folded);
    let r3 = r2.mul(folded);
    let r5 = r3.mul(r2);
    let r7 = r5.mul(r2);
    let r9 = r7.mul(r2);
    let t3 = r3.div(Fx::from_int(6));
    let t5 = r5.div(Fx::from_int(120));
    let t7 = r7.div(Fx::from_int(5040));
    let t9 = r9.div(Fx::from_int(362880));
    let series = folded.sub(t3).add(t5).sub(t7).add(t9);
    if series.micros() > SCALE {
        Fx::from_micros(SCALE)
    } else if series.micros() < -SCALE {
        Fx::from_micros(-SCALE)
    } else {
        series
    }
}

/// The running term and partial sum of the exponential series after `n`
/// steps: term `0` and sum `0` are both one.
pub open spec fn exp_sum_s(x: Fx, n: nat) -> (Fx, Fx)
    decreases n,
{
    if n == 0 {
        (s_from_int(1), s_from_int(1))
    } else {
        let prev = exp_sum_s(x, (n - 1) as nat);
        let t = s_div(s_mul(prev.0, x), s_from_int(n as int));
        (t, s_add(prev.1, t))
    }
}

/// How many terms of the exponential series are summed.
pub const EXP_TERMS: u64 = 40;

/// What the exponential of a nonnegative argument returns.
pub open spec fn exp_pos_s(x: Fx) -> Fx {
    exp_sum_s(x, EXP_TERMS as nat).1
}

/// What `e` to the negated argument returns: the reciprocal of the series
/// for a nonnegative argument, the plain series for a negative one.
pub open spec fn exp_neg_s(x: Fx) -> Fx {
    if x.raw >= 0 {
        s_div(s_from_int(1), exp_pos_s(x))
    } else {
        exp_pos_s(s_neg(x))
    }
}

/// `e` raised to the negation of `x`.
pub fn exp_neg(x: Fx) -> (r: Fx)
    ensures
        r == exp_neg_s(x),
{
    if x.micros() >= 0 {
        Fx::from_int(1).div(exp_pos(x))
    } else {
        exp_pos(x.neg())
    }
}

/// `e` raised to `x`, by the truncated power series.
pub fn exp_pos(x: Fx) -> (r: Fx)
    ensures
        r == exp_pos_s(x),
{
    let one = Fx::from_int(1);
    let mut term: Fx = one;
    let mut sum: Fx = one;
    let mut n: u64 = 0;
    while n < EXP_TERMS
        invariant
            n <= EXP_TERMS,
            (term, sum) == exp_sum_s(x, n as nat),
        decreases EXP_TERMS - n,
    {
        n = n + 1;
        term = term.mul(x).div(Fx::from_int(n as i64));
        sum = sum.add(term);
    }
    sum
}

/// The unit-interval draw carried by the low decimals of a raw 64-bit draw.
pub open spec fn unit_draw_s(draw: u64) -> Fx {
    Fx { raw: ((draw as int) % 1_000_000) as i64 }
}

/// The most pulses one sampling window is read as holding.
pub const WINDOW_PULSE_CAP: u64 = 1000;

/// The smallest count whose running cumulative sum reaches the draw, built
/// from the running term of the Poisson distribution; the count stops at the
/// window cap.
pub open spec fn poisson_count_s(rate: Fx, r: Fx, term: Fx, p: Fx, k: int, fuel: nat) -> int
    decreases fuel,
{
    if r.raw <= p.raw {
        k
    } else if fuel == 0 {
        k
    } else {
        let t = s_div(s_mul(term, rate), s_from_int(k + 1));
        poisson_count_s(rate, r, t, s_add(p, t), k + 1, (fuel - 1) as nat)
    }
}

/// What interval sampling returns: for a zero count the pulse never recurs
/// within the window (a saturated interval), otherwise the window split by
/// the count, less one.
pub open spec fn sample_interval_s(rate: Fx, draw: u64) -> Fx {
    let r = unit_draw_s(draw);
    let p0 = exp_neg_s(rate);
    let k = poisson_count_s(rate, r, p0, p0, 0, WINDOW_PULSE_CAP as nat);
    if k == 0 {
        Fx { raw: i64::MAX }
    } else {
        s_sub(s_div(s_from_int(1000), s_from_int(k)), s_from_int(1))
    }
}

/// Draws the spacing until the next pulse of a Poisson pulse train with the
/// given average rate per window, from one uniform draw: the smallest pulse
/// count whose cumulative probability covers the draw fixes the spacing.
pub fn sample_interval(rate: Fx, draw: u64) -> (t: Fx)
    ensures
        t == sample_interval_s(rate, draw),
{
    let r = Fx::from_micros((draw % 1_000_000u64) as i64);
    let p0 = exp_neg(rate);
    let mut term: Fx = p0;
    let mut p: Fx = p0;
    let mut k: u64 = 0;
    while r.micros() > p.micros() && k < WINDOW_PULSE_CAP
        invariant
            k <= WINDOW_PULSE_CAP,
            poisson_count_s(rate, r, term, p, k as int, (WINDOW_PULSE_CAP - k) as nat)
                == poisson_count_s(
                rate,
                r,
                exp_neg_s(rate),
                exp_neg_s(rate),
                0,
                WINDOW_PULSE_CAP as nat,
            ),
            r == unit_draw_s(draw),
        decreases WINDOW_PULSE_CAP - k,
    {
        k = k + 1;
        term = term.mul(rate).div(Fx::from_int(k as i64));
        p = p.add(term);
    }
    if k == 0 {
        Fx::from_micros(i64::MAX)
    } else {
        Fx::from_int(1000).div(Fx::from_int(k as i64)).sub(Fx::from_int(1))
    }
}

} // verus!
