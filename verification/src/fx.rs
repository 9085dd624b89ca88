//! Saturating fixed-point scalars with `SCALE` units per whole number.
//!
//! Every dynamic quantity of the engine (voltages, conductances, times,
//! rates) is an `Fx`: an `i64` count of millionths. Arithmetic saturates at
//! the `i64` range and division truncates toward zero, so all operations are
//! total and are described exactly by the spec functions in this module.

use vstd::prelude::*;

verus! {

/// Number of raw units per whole number.
pub const SCALE: i64 = 1_000_000;

/// A saturating fixed-point number: `raw` millionths.
#[derive(Clone, Copy, PartialEq, Eq, Structural, Debug)]
pub struct Fx {
    pub raw: i64,
}

/// Magnitude of a mathematical integer.
pub open spec fn abs_s(a: int) -> int {
    if a >= 0 {
        a
    } else {
        -a
    }
}

/// Saturation of a mathematical integer into the `i64` range.
pub open spec fn sat_s(a: int) -> int {
    if a > i64::MAX {
        i64::MAX as int
    } else if a < i64::MIN {
        i64::MIN as int
    } else {
        a
    }
}

/// Division truncating toward zero, as machine division does.
pub open spec fn tdiv_s(a: int, b: int) -> int
    recommends
        b != 0,
{
    if (a >= 0) == (b >= 0) {
        abs_s(a) / abs_s(b)
    } else {
        -(abs_s(a) / abs_s(b))
    }
}

/// The fixed-point number standing for the integer `r` of raw units.
pub open spec fn fxr(r: int) -> Fx {
    Fx { raw: sat_s(r) as i64 }
}

/// What addition returns.
pub open spec fn s_add(a: Fx, b: Fx) -> Fx {
    fxr(a.raw + b.raw)
}

/// What subtraction returns.
pub open spec fn s_sub(a: Fx, b: Fx) -> Fx {
    fxr(a.raw - b.raw)
}

/// What negation returns.
pub open spec fn s_neg(a: Fx) -> Fx {
    fxr(-a.raw)
}

/// What multiplication returns: the product rescaled, truncated toward zero.
pub open spec fn s_mul(a: Fx, b: Fx) -> Fx {
    fxr(tdiv_s(a.raw * b.raw, SCALE as int))
}

/// What division returns. A zero divisor saturates to the sign of the
/// dividend, standing in for the infinities of real arithmetic.
pub open spec fn s_div(a: Fx, b: Fx) -> Fx {
    if b.raw == 0 {
        if a.raw > 0 {
            Fx { raw: i64::MAX }
        } else if a.raw < 0 {
            Fx { raw: i64::MIN }
        } else {
            Fx { raw: 0 }
        }
    } else {
        fxr(tdiv_s(a.raw * (SCALE as int), b.raw as int))
    }
}

/// What the cycle remainder returns: the remainder of `a` by a positive
/// period `b`, truncating toward zero (so it carries the sign of `a`).
pub open spec fn s_rem(a: Fx, b: Fx) -> Fx
    recommends
        b.raw > 0,
{
    fxr(a.raw - tdiv_s(a.raw as int, b.raw as int) * b.raw)
}

/// What the whole-number embedding returns.
pub open spec fn s_from_int(n: int) -> Fx {
    fxr(n * (SCALE as int))
}

impl Fx {
    /// The value of this scalar in raw units, as a mathematical integer.
    pub open spec fn val(self) -> int {
        self.raw as int
    }

    /// Builds a scalar directly from a count of raw units.
    pub fn from_micros(raw: i64) -> (r: Fx)
        ensures
            r.raw == raw,
    {
        Fx { raw }
    }

    /// The count of raw units.
    pub fn micros(self) -> (r: i64)
        ensures
            r == self.raw,
    {
        self.raw
    }

    /// Builds the scalar standing for the whole number `n`, saturating.
    pub fn from_int(n: i64) -> (r: Fx)
        ensures
            r == s_from_int(n as int),
    {
        proof {
            assert((n as int) * (SCALE as int) <= 9223372036854775807 * 1_000_000 && (n as int) * (
            SCALE as int) >= -9223372036854775808 * 1_000_000) by (nonlinear_arith)
                requires
                    -9223372036854775808 <= n as int <= 9223372036854775807,
            ;
        }
        let wide: i128 = (n as i128) * (SCALE as i128);
        sat128(wide)
    }

    /// The zero scalar.
    pub fn zero() -> (r: Fx)
        ensures
            r.raw == 0,
    {
        Fx { raw: 0 }
    }

    /// Saturating addition.
    pub fn add(self, o: Fx) -> (r: Fx)
        ensures
            r == s_add(self, o),
    {
        sat128((self.raw as i128) + (o.raw as i128))
    }

    /// Saturating subtraction.
    pub fn sub(self, o: Fx) -> (r: Fx)
        ensures
            r == s_sub(self, o),
    {
        sat128((self.raw as i128) - (o.raw as i128))
    }

    /// Saturating negation.
    pub fn neg(self) -> (r: Fx)
        ensures
            r == s_neg(self),
    {
        sat128(-(self.raw as i128))
    }

    /// Saturating fixed-point multiplication.
    pub fn mul(self, o: Fx) -> (r: Fx)
        ensures
            r == s_mul(self, o),
    {
        let ma: u128 = mag(self.raw);
        let mb: u128 = mag(o.raw);
        proof {
            lemma_abs_mul(self.raw as int, o.raw as int);
            assert(ma * mb <= 170141183460469231731687303715884105728u128) by (nonlinear_arith)
                requires
                    ma <= 9223372036854775808u128,
                    mb <= 9223372036854775808u128,
            ;
        }
        let p: u128 = ma * mb;
        let q: u128 = p / 1_000_000u128;
        let neg: bool = (self.raw < 0) != (o.raw < 0);
        proof {
            lemma_tdiv_by_mag(self.raw * o.raw, SCALE as int);
        }
        from_mag(neg, q)
    }

    /// Saturating fixed-point division; see [`s_div`] for the zero divisor.
    pub fn div(self, o: Fx) -> (r: Fx)
        ensures
            r == s_div(self, o),
    {
        if o.raw == 0 {
            if self.raw > 0 {
                Fx { raw: i64::MAX }
            } else if self.raw < 0 {
                Fx { raw: i64::MIN }
            } else {
                Fx { raw: 0 }
            }
        } else {
            let ma: u128 = mag(self.raw);
            let mb: u128 = mag(o.raw);
            let p: u128 = ma * 1_000_000u128;
            let q: u128 = p / mb;
            let neg: bool = (self.raw < 0) != (o.raw < 0);
            proof {
                lemma_abs_mul(self.raw as int, SCALE as int);
                lemma_tdiv_by_mag(self.raw * (SCALE as int), o.raw as int);
            }
            from_mag(neg, q)
        }
    }

    /// Remainder of `self` by the positive period `o`, truncating toward
    /// zero.
    pub fn rem(self, o: Fx) -> (r: Fx)
        requires
            o.raw > 0,
        ensures
            r == s_rem(self, o),
    {
        let m: u128 = mag(self.raw);
        let q: u128 = m % (o.raw as u128);
        proof {
            lemma_trem_by_mag(self.raw as int, o.raw as int);
        }
        from_mag(self.raw < 0, q)
    }
}

/// Magnitude of an `i64` as a `u128`.
fn mag(x: i64) -> (r: u128)
    ensures
        r == abs_s(x as int),
        r <= 9223372036854775808u128,
{
    if x >= 0 {
        x as u128
    } else {
        (-(x as i128)) as u128
    }
}

/// Saturates a wide intermediate into the `i64` range.
fn sat128(x: i128) -> (r: Fx)
    ensures
        r == fxr(x as int),
{
    if x > i64::MAX as i128 {
        Fx { raw: i64::MAX }
    } else if x < i64::MIN as i128 {
        Fx { raw: i64::MIN }
    } else {
        Fx { raw: x as i64 }
    }
}

/// Reassembles a signed saturated scalar from a sign and a magnitude.
fn from_mag(neg: bool, m: u128) -> (r: Fx)
    ensures
        r == (if neg {
            fxr(-(m as int))
        } else {
            fxr(m as int)
        }),
{
    if neg {
        if m >= 9223372036854775808u128 {
            Fx { raw: i64::MIN }
        } else {
            Fx { raw: -(m as i64) }
        }
    } else {
        if m > i64::MAX as u128 {
            Fx { raw: i64::MAX }
        } else {
            Fx { raw: m as i64 }
        }
    }
}

/// Law: scaling by a factor within `[0, 1]` never grows a nonnegative
/// value: the rescaled product stays within `[0, a]`.
pub proof fn lemma_mul_unit_factor(a: Fx, f: Fx)
    requires
        a.raw >= 0,
        0 <= f.raw <= SCALE,
    ensures
        0 <= s_mul(a, f).raw <= a.raw,
{
    let x = a.raw * f.raw;
    assert(0 <= x && x <= a.raw * (SCALE as int)) by (nonlinear_arith)
        requires
            a.raw >= 0,
            0 <= f.raw <= SCALE,
            x == a.raw * f.raw,
    ;
    assert(x / (SCALE as int) <= a.raw) by (nonlinear_arith)
        requires
            0 <= x,
            x <= a.raw * (SCALE as int),
            a.raw >= 0,
    ;
}

/// Law: a value within one whole number each way scales anything
/// nonnegative into that value's own range: the rescaled product lies in
/// `[-f, f]`.
pub proof fn lemma_unit_times_bounded(s: Fx, f: Fx)
    requires
        -SCALE <= s.raw <= SCALE,
        f.raw >= 0,
    ensures
        -f.raw <= s_mul(s, f).raw <= f.raw,
{
    lemma_abs_mul(s.raw as int, f.raw as int);
    let m = abs_s(s.raw * f.raw);
    assert(m <= (SCALE as int) * f.raw) by (nonlinear_arith)
        requires
            -SCALE <= s.raw <= SCALE,
            f.raw >= 0,
            m == abs_s(s.raw as int) * f.raw,
    ;
    assert(m / (SCALE as int) <= f.raw) by (nonlinear_arith)
        requires
            0 <= m,
            m <= (SCALE as int) * f.raw,
            f.raw >= 0,
    ;
}

/// The magnitude of a product is the product of the magnitudes, and its sign
/// follows the signs of the factors.
proof fn lemma_abs_mul(a: int, b: int)
    ensures
        abs_s(a * b) == abs_s(a) * abs_s(b),
        ((a < 0) != (b < 0)) ==> a * b <= 0,
        (!((a < 0) != (b < 0))) ==> a * b >= 0,
{
    assert(abs_s(a * b) == abs_s(a) * abs_s(b) && (((a < 0) != (b < 0)) ==> a * b <= 0) && ((!((a
        < 0) != (b < 0))) ==> a * b >= 0)) by (nonlinear_arith);
}

/// Truncating division written over magnitudes.
proof fn lemma_tdiv_by_mag(x: int, y: int)
    requires
        y != 0,
    ensures
        x >= 0 ==> tdiv_s(x, y) == if y > 0 {
            abs_s(x) / abs_s(y) as int
        } else {
            -(abs_s(x) / abs_s(y))
        },
        x < 0 ==> tdiv_s(x, y) == if y > 0 {
            -(abs_s(x) / abs_s(y))
        } else {
            abs_s(x) / abs_s(y) as int
        },
{
}

/// Truncating remainder written over magnitudes: for a positive period it is
/// the unsigned remainder of the magnitude, signed like the dividend.
proof fn lemma_trem_by_mag(a: int, b: int)
    requires
        b > 0,
    ensures
        a >= 0 ==> a - tdiv_s(a, b) * b == abs_s(a) % b,
        a < 0 ==> a - tdiv_s(a, b) * b == -(abs_s(a) % b),
{
    if a >= 0 {
        assert(a - (a / b) * b == a % b) by (nonlinear_arith)
            requires
                b > 0,
                a >= 0,
        ;
    } else {
        assert(a - (0 - ((0 - a) / b)) * b == 0 - ((0 - a) % b)) by (nonlinear_arith)
            requires
                b > 0,
                a < 0,
        ;
    }
}

} // verus!
