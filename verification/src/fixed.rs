//! Fixed-point quantities.
//!
//! A quantity `q` is stored as the `i64` value `q * SCALE`. Intermediate
//! results that may leave the `i64` range are computed exactly in `i128` and
//! then brought back with [`saturate`].

use vstd::arithmetic::div_mod::{lemma_fundamental_div_mod, lemma_fundamental_div_mod_converse, lemma_mod_pos_bound};
use vstd::prelude::*;

verus! {

/// Number of stored units per whole unit.
pub const SCALE: i64 = 1_000_000;

/// The value of `x` brought into the `i64` range: values below the range become
/// `i64::MIN`, values above it `i64::MAX`.
pub open spec fn clamp(x: int) -> int {
    if x < i64::MIN {
        i64::MIN as int
    } else if x > i64::MAX {
        i64::MAX as int
    } else {
        x
    }
}

/// Brings an exact intermediate result back into the `i64` range.
pub fn saturate(x: i128) -> (r: i64)
    ensures
        r == clamp(x as int),
{
    if x < i64::MIN as i128 {
        i64::MIN
    } else if x > i64::MAX as i128 {
        i64::MAX
    } else {
        x as i64
    }
}

/// Floor division by a positive divisor: the greatest `q` with `q * d <= a`.
pub fn div_floor(a: i128, d: i128) -> (q: i128)
    requires
        d > 0,
    ensures
        q == a as int / d as int,
{
    if a >= 0 {
        a / d
    } else {
        let m: i128 = -(a + 1);
        let t: i128 = m / d;
        proof {
            let r = m as int % d as int;
            lemma_fundamental_div_mod(m as int, d as int);
            lemma_mod_pos_bound(m as int, d as int);
            assert(a as int == (-(t as int) - 1) * d as int + (d as int - r - 1)) by (nonlinear_arith)
                requires
                    m as int == d as int * t as int + r,
                    a as int == -(m as int) - 1,
            ;
            lemma_fundamental_div_mod_converse(a as int, d as int, -(t as int) - 1, d as int - r - 1);
        }
        -t - 1
    }
}

} // verus!
