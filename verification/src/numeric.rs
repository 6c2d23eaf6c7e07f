//! Fixed-point conventions and overflow-checked arithmetic helpers.
//!
//! Scores, thresholds and multipliers that are conceptually fractions are
//! stored as unsigned integers in parts per million (ppm): the value `v`
//! stands for the real number `v / 1_000_000`. A score in the unit interval
//! is therefore a ppm value between 0 and `PPM_SCALE`.

use vstd::prelude::*;

verus! {

/// One whole unit in parts per million.
pub const PPM_SCALE: u64 = 1_000_000;

/// Ceiling of the rational `a / b`, as a spec-level integer.
pub open spec fn ceil_div(a: int, b: int) -> int
    recommends
        b > 0,
{
    (a + b - 1) / b
}

/// Multiplies two `u128` values, reporting `None` on overflow.
pub fn mul_u128_checked(a: u128, b: u128) -> (r: Option<u128>)
    ensures
        r is Some <==> a * b <= u128::MAX,
        r is Some ==> r->0 == a * b,
{
    if b == 0 {
        Some(0)
    } else if a <= u128::MAX / b {
        proof {
            assert(a as int * b as int <= (u128::MAX as int / b as int) * b as int)
                by (nonlinear_arith)
                requires
                    a as int <= u128::MAX as int / b as int,
                    b as int > 0,
            ;
            assert((u128::MAX as int / b as int) * b as int <= u128::MAX as int)
                by (nonlinear_arith)
                requires
                    b as int > 0,
            ;
        }
        Some(a * b)
    } else {
        proof {
            assert(a as int * b as int > u128::MAX as int) by (nonlinear_arith)
                requires
                    a as int > u128::MAX as int / b as int,
                    b as int > 0,
            ;
        }
        None
    }
}

/// Adds two `u128` values, reporting `None` on overflow.
pub fn add_u128_checked(a: u128, b: u128) -> (r: Option<u128>)
    ensures
        r is Some <==> a + b <= u128::MAX,
        r is Some ==> r->0 == a + b,
{
    if a <= u128::MAX - b {
        Some(a + b)
    } else {
        None
    }
}

} // verus!
