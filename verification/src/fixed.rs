//! Fixed-point scalars.
//!
//! All continuous quantities in this library (pixel coordinates, zoom
//! factors, light heights, intensities) are integers counted in units of
//! one millionth, so `1_000_000` stands for `1.0`. Arithmetic on them is
//! exact integer arithmetic with flooring division, which lets every
//! caller state precisely what it computes.

use vstd::prelude::*;
use vstd::arithmetic::div_mod::{
    lemma_fundamental_div_mod,
    lemma_fundamental_div_mod_converse,
    lemma_mod_bound,
};

verus! {

/// One whole unit (`1.0`) in fixed-point micro-units.
pub const UNIT: i64 = 1_000_000;

/// The magnitude of a fixed-point value, as a mathematical integer.
pub open spec fn abs_spec(a: int) -> int {
    if a >= 0 {
        a
    } else {
        -a
    }
}

/// The larger of two values.
pub open spec fn max_spec(a: int, b: int) -> int {
    if a >= b {
        a
    } else {
        b
    }
}

/// A value clamped into the closed interval `[lo, hi]`.
pub open spec fn clamp_spec(v: int, lo: int, hi: int) -> int {
    if v < lo {
        lo
    } else if v > hi {
        hi
    } else {
        v
    }
}

/// Clamps `v` into `[lo, hi]`.
pub fn clamp_i64(v: i64, lo: i64, hi: i64) -> (r: i64)
    requires
        lo <= hi,
    ensures
        r == clamp_spec(v as int, lo as int, hi as int),
{
    if v < lo {
        lo
    } else if v > hi {
        hi
    } else {
        v
    }
}

/// The magnitude of `a`, widened so that the smallest `i64` needs no
/// special case.
fn magnitude_u128(a: i64) -> (r: u128)
    ensures
        r as int == abs_spec(a as int),
{
    if a >= 0 {
        a as u128
    } else {
        let wide: i128 = a as i128;
        (-wide) as u128
    }
}

/// Computes `a * b / d` exactly, flooring the quotient, with the product
/// taken at full width so it cannot overflow on the way.
pub fn mul_div_floor(a: i64, b: i64, d: i64) -> (r: i64)
    requires
        d > 0,
        -0x7fff_ffff_ffff_ffff <= (a as int * b as int) / (d as int),
        (a as int * b as int) / (d as int) <= 0x7fff_ffff_ffff_ffff,
    ensures
        r as int == (a as int * b as int) / (d as int),
{
    let negative: bool = (a < 0) != (b < 0);
    let am: u128 = magnitude_u128(a);
    let bm: u128 = magnitude_u128(b);
    let dm: u128 = d as u128;
    proof {
        assert(am as int * bm as int <= 0x4000_0000_0000_0000_0000_0000_0000_0000)
            by (nonlinear_arith)
            requires
                0 <= am <= 0x8000_0000_0000_0000,
                0 <= bm <= 0x8000_0000_0000_0000,
        ;
    }
    let prod: u128 = am * bm;
    proof {
        if negative {
            assert(a as int * b as int == -(prod as int)) by (nonlinear_arith)
                requires
                    am as int == abs_spec(a as int),
                    bm as int == abs_spec(b as int),
                    prod as int == am as int * bm as int,
                    (a < 0) != (b < 0),
            ;
        } else {
            assert(a as int * b as int == prod as int) by (nonlinear_arith)
                requires
                    am as int == abs_spec(a as int),
                    bm as int == abs_spec(b as int),
                    prod as int == am as int * bm as int,
                    (a < 0) == (b < 0),
            ;
        }
    }
    let q: u128 = prod / dm;
    let rem: u128 = prod % dm;
    proof {
        lemma_fundamental_div_mod(prod as int, dm as int);
        lemma_mod_bound(prod as int, dm as int);
        let ab = a as int * b as int;
        let qi = q as int;
        let ri = rem as int;
        let di = d as int;
        if negative {
            if rem == 0 {
                assert(ab == (-qi) * di + 0) by (nonlinear_arith)
                    requires
                        ab == -(prod as int),
                        prod as int == di * qi + ri,
                        ri == 0,
                ;
                lemma_fundamental_div_mod_converse(ab, di, -qi, 0);
            } else {
                assert(ab == (-qi - 1) * di + (di - ri)) by (nonlinear_arith)
                    requires
                        ab == -(prod as int),
                        prod as int == di * qi + ri,
                ;
                lemma_fundamental_div_mod_converse(ab, di, -qi - 1, di - ri);
            }
        } else {
            assert(ab == qi * di + ri) by (nonlinear_arith)
                requires
                    ab == prod as int,
                    prod as int == di * qi + ri,
            ;
            lemma_fundamental_div_mod_converse(ab, di, qi, ri);
        }
    }
    if negative {
        if rem > 0 {
            -(q as i64) - 1
        } else {
            -(q as i64)
        }
    } else {
        q as i64
    }
}

/// Computes `a / d` exactly, flooring the quotient.
pub fn div_floor(a: i64, d: i64) -> (r: i64)
    requires
        d > 0,
        a > -0x8000_0000_0000_0000,
    ensures
        r as int == a as int / d as int,
{
    proof {
        lemma_div_floor_in_range(a as int, d as int);
    }
    mul_div_floor(a, 1, d)
}

/// A flooring quotient by a positive divisor is no larger in magnitude
/// than the dividend.
pub proof fn lemma_div_floor_in_range(a: int, d: int)
    requires
        d > 0,
    ensures
        abs_spec(a / d) <= abs_spec(a),
{
    lemma_fundamental_div_mod(a, d);
    lemma_mod_bound(a, d);
    assert(abs_spec(a / d) <= abs_spec(a)) by (nonlinear_arith)
        requires
            d > 0,
            a == d * (a / d) + a % d,
            0 <= a % d < d,
    ;
}

/// Flooring division by a positive divisor is monotone in the dividend.
pub proof fn lemma_div_floor_ordered(a: int, b: int, d: int)
    requires
        d > 0,
        a <= b,
    ensures
        a / d <= b / d,
{
    lemma_fundamental_div_mod(a, d);
    lemma_fundamental_div_mod(b, d);
    lemma_mod_bound(a, d);
    lemma_mod_bound(b, d);
    assert(a / d <= b / d) by (nonlinear_arith)
        requires
            d > 0,
            a <= b,
            a == d * (a / d) + a % d,
            b == d * (b / d) + b % d,
            0 <= a % d < d,
            0 <= b % d < d,
    ;
}

/// Dividing `m * d` by `d` gives back `m`.
pub proof fn lemma_div_floor_multiple(m: int, d: int)
    requires
        d > 0,
    ensures
        (m * d) / d == m,
{
    lemma_fundamental_div_mod_converse(m * d, d, m, 0);
}

} // verus!
