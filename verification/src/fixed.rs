//! Fixed-point scalars.
//!
//! A [`Fx`] value counts millionths of a unit in an `i64`. All operations
//! are total: instead of overflowing they saturate at the `i64` bounds, and
//! products are truncated toward zero after rescaling, exactly as the spec
//! functions here state.

use vstd::prelude::*;
use vstd::arithmetic::div_mod::lemma_div_nonincreasing;
use vstd::arithmetic::div_mod::lemma_div_of0;
use vstd::arithmetic::div_mod::lemma_fundamental_div_mod;
use vstd::arithmetic::div_mod::lemma_fundamental_div_mod_converse_mod;

verus! {

/// Number of fixed-point steps per whole unit: an [`Fx`] counts millionths.
pub const FX_SCALE: i64 = 1_000_000;

/// A fixed-point scalar; `bits` counts millionths of a unit.
#[derive(Clone, Copy, Debug, PartialEq, Eq, Structural)]
pub struct Fx {
    pub bits: i64,
}

/// Clamps a mathematical integer into the `i64` range.
pub open spec fn sat64(x: int) -> int {
    if x > i64::MAX as int {
        i64::MAX as int
    } else if x < i64::MIN as int {
        i64::MIN as int
    } else {
        x
    }
}

/// Division truncated toward zero, for a positive divisor.
pub open spec fn tdiv(a: int, b: int) -> int {
    if a >= 0 {
        a / b
    } else {
        -((-a) / b)
    }
}

/// Raw-count result of saturating fixed-point addition.
pub open spec fn add_bits(a: int, b: int) -> int {
    sat64(a + b)
}

/// Raw-count result of saturating fixed-point subtraction.
pub open spec fn sub_bits(a: int, b: int) -> int {
    sat64(a - b)
}

/// Raw-count result of saturating fixed-point multiplication: the full
/// product is rescaled by `FX_SCALE` with truncation toward zero, then
/// clamped into the `i64` range.
pub open spec fn mul_bits(a: int, b: int) -> int {
    sat64(tdiv(a * b, FX_SCALE as int))
}

/// A fixed-point product with a zero factor is zero.
pub proof fn lemma_mul_bits_zero(a: int)
    ensures
        mul_bits(a, 0) == 0,
        mul_bits(0, a) == 0,
{
    assert(a * 0 == 0 && 0 * a == 0) by (nonlinear_arith);
    lemma_div_of0(FX_SCALE as int);
}

/// The product of two values in the `i64` range stays well inside `i128`.
proof fn lemma_i64_product_in_i128(a: int, b: int)
    by (nonlinear_arith)
    requires
        i64::MIN <= a <= i64::MAX,
        i64::MIN <= b <= i64::MAX,
    ensures
        -0x4000_0000_0000_0000_0000_0000_0000_0000 <= a * b,
        a * b <= 0x4000_0000_0000_0000_0000_0000_0000_0000,
{
}

impl Fx {
    /// The zero scalar.
    pub fn zero() -> (r: Fx)
        ensures
            r.bits == 0,
    {
        Fx { bits: 0 }
    }

    /// The scalar one (one whole unit).
    pub fn one() -> (r: Fx)
        ensures
            r.bits == FX_SCALE,
    {
        Fx { bits: FX_SCALE }
    }

    /// Builds a scalar from a raw count of millionths.
    pub fn from_bits(bits: i64) -> (r: Fx)
        ensures
            r.bits == bits,
    {
        Fx { bits }
    }

    /// Saturating addition.
    pub fn sat_add(self, other: Fx) -> (r: Fx)
        ensures
            r.bits == add_bits(self.bits as int, other.bits as int),
    {
        let s: i128 = self.bits as i128 + other.bits as i128;
        if s > i64::MAX as i128 {
            Fx { bits: i64::MAX }
        } else if s < i64::MIN as i128 {
            Fx { bits: i64::MIN }
        } else {
            Fx { bits: s as i64 }
        }
    }

    /// Saturating subtraction.
    pub fn sat_sub(self, other: Fx) -> (r: Fx)
        ensures
            r.bits == sub_bits(self.bits as int, other.bits as int),
    {
        let s: i128 = self.bits as i128 - other.bits as i128;
        if s > i64::MAX as i128 {
            Fx { bits: i64::MAX }
        } else if s < i64::MIN as i128 {
            Fx { bits: i64::MIN }
        } else {
            Fx { bits: s as i64 }
        }
    }

    /// Saturating fixed-point multiplication: rescales the full product by
    /// `FX_SCALE`, truncating toward zero, and clamps it into `i64`.
    pub fn sat_mul(self, other: Fx) -> (r: Fx)
        ensures
            r.bits == mul_bits(self.bits as int, other.bits as int),
    {
        proof {
            lemma_i64_product_in_i128(self.bits as int, other.bits as int);
        }
        let p: i128 = self.bits as i128 * other.bits as i128;
        let q: i128 = if p >= 0 {
            let qu: u128 = (p as u128) / (FX_SCALE as u128);
            proof {
                lemma_div_nonincreasing(p as int, FX_SCALE as int);
            }
            qu as i128
        } else {
            let mag: u128 = (-p) as u128;
            let qu: u128 = mag / (FX_SCALE as u128);
            proof {
                lemma_div_nonincreasing(mag as int, FX_SCALE as int);
            }
            -(qu as i128)
        };
        if q > i64::MAX as i128 {
            Fx { bits: i64::MAX }
        } else if q < i64::MIN as i128 {
            Fx { bits: i64::MIN }
        } else {
            Fx { bits: q as i64 }
        }
    }
}

/// Remainder of `x` under a positive modulus `m`, always in `[0, m)`:
/// the floor-style remainder, which agrees with the mathematical `%`.
pub fn floor_rem(x: i64, m: i64) -> (r: i64)
    requires
        0 < m,
    ensures
        r == (x as int) % (m as int),
        0 <= r < m,
{
    if x >= 0 {
        let r: u64 = (x as u64) % (m as u64);
        r as i64
    } else {
        let mag: u128 = (-(x as i128)) as u128;
        let rem: u128 = mag % (m as u128);
        proof {
            let magi: int = mag as int;
            let mi: int = m as int;
            lemma_fundamental_div_mod(magi, mi);
            let q: int = magi / mi;
            let rr: int = magi % mi;
            if rr == 0 {
                assert(x as int == (-q) * mi + 0) by (nonlinear_arith)
                    requires
                        x as int == -magi,
                        magi == mi * q + rr,
                        rr == 0,
                ;
                lemma_fundamental_div_mod_converse_mod(x as int, mi, -q, 0);
            } else {
                assert(x as int == (-q - 1) * mi + (mi - rr)) by (nonlinear_arith)
                    requires
                        x as int == -magi,
                        magi == mi * q + rr,
                ;
                lemma_fundamental_div_mod_converse_mod(x as int, mi, -q - 1, mi - rr);
            }
        }
        if rem == 0 {
            0
        } else {
            m - (rem as i64)
        }
    }
}

} // verus!
