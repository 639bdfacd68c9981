//! Renormalizing the three global illumination weights.
//!
//! When a user edits one weight with normalization enabled, the other
//! two absorb the difference to `1.0` in proportion to their current
//! sizes. A ratio whose divisor would be a zero sum falls back to an
//! even split, and each ratio is floored so a weight at zero can still
//! recover.

use vstd::prelude::*;
use crate::fixed::{UNIT, max_spec, clamp_spec, clamp_i64, mul_div_floor};
use crate::coord::lemma_mul_div_range;

verus! {

/// The smallest share either balancing weight is given (`0.001`).
pub const RATIO_FLOOR: i64 = 1_000;

/// The share of the difference one weight absorbs: its fraction of the
/// two weights' sum, floored at `RATIO_FLOOR`; an even split when the
/// sum is zero, where the fraction would not be a number.
pub open spec fn balance_ratio_spec(x: int, sum: int) -> int {
    if sum == 0 {
        500_000
    } else {
        max_spec((x * UNIT as int) / sum, RATIO_FLOOR as int)
    }
}

/// One weight after balancing: moved by its share of the difference to
/// one, clamped back into `[0, 1]`.
pub open spec fn balanced_spec(x: int, sum: int, difference: int) -> int {
    clamp_spec(x + (difference * balance_ratio_spec(x, sum)) / UNIT as int, 0, UNIT as int)
}

/// The executable share computation behind `balance_ratio_spec`.
fn balance_ratio(x: i64, sum: i64) -> (r: i64)
    requires
        0 <= x <= UNIT,
        x <= sum <= 2 * UNIT,
    ensures
        r == balance_ratio_spec(x as int, sum as int),
        0 <= r <= 1_000_000_000_000,
{
    if sum == 0 {
        500_000
    } else {
        proof {
            lemma_mul_div_range(x as int, UNIT as int, sum as int, UNIT as int, UNIT as int, 1);
        }
        let q: i64 = mul_div_floor(x, UNIT, sum);
        if q > RATIO_FLOOR {
            q
        } else {
            RATIO_FLOOR
        }
    }
}

/// Normalizes a weight triple with one value held constant: the other
/// two absorb the difference to `1.0` in proportion to their sizes, as
/// `balanced_spec` states, and land back inside `[0, 1]`. The constant
/// comes back first, unchanged.
pub fn normalize_with_constant(constant: i64, a: i64, b: i64) -> (r: (i64, i64, i64))
    requires
        0 <= constant <= UNIT,
        0 <= a <= UNIT,
        0 <= b <= UNIT,
    ensures
        r.0 == constant,
        r.1 == balanced_spec(
            a as int,
            a as int + b as int,
            UNIT as int - (constant as int + a as int + b as int),
        ),
        r.2 == balanced_spec(
            b as int,
            a as int + b as int,
            UNIT as int - (constant as int + a as int + b as int),
        ),
        0 <= r.1 <= UNIT,
        0 <= r.2 <= UNIT,
{
    let sum: i64 = a + b;
    let difference: i64 = UNIT - (constant + a + b);
    let ratio_a: i64 = balance_ratio(a, sum);
    let ratio_b: i64 = balance_ratio(b, sum);
    proof {
        lemma_mul_div_range(
            difference as int,
            ratio_a as int,
            UNIT as int,
            2 * UNIT as int,
            1_000_000_000_000,
            UNIT as int,
        );
        lemma_mul_div_range(
            difference as int,
            ratio_b as int,
            UNIT as int,
            2 * UNIT as int,
            1_000_000_000_000,
            UNIT as int,
        );
    }
    let da: i64 = mul_div_floor(difference, ratio_a, UNIT);
    let db: i64 = mul_div_floor(difference, ratio_b, UNIT);
    let new_a: i64 = clamp_i64(a + da, 0, UNIT);
    let new_b: i64 = clamp_i64(b + db, 0, UNIT);
    (constant, new_a, new_b)
}

} // verus!
