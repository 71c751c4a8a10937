//! Exact fractions and the fixed-point unit of game quantities.
use vstd::prelude::*;

verus! {

/// One point in the library's unit: game quantities (scores, trust,
/// experience, embedding components) count billionths of a point.
pub const POINT: i64 = 1_000_000_000;

/// An exact fraction `numerator / denominator`, used where a quantity is a
/// quotient (averages, shares, ratios). It is kept as computed, not reduced.
#[derive(Debug, Clone, Copy, PartialEq, Eq, Structural)]
pub struct Ratio {
    pub numerator: i128,
    pub denominator: i128,
}

/// `x + y` clamped to the range of `i64`.
pub open spec fn clamp_i64(x: int) -> i64 {
    if x > i64::MAX {
        i64::MAX
    } else if x < i64::MIN {
        i64::MIN
    } else {
        x as i64
    }
}

/// `a + b`, clamped to the range of `i64`.
pub fn add_clamped(a: i64, b: i64) -> (r: i64)
    ensures
        r == clamp_i64(a + b),
{
    let s: i128 = a as i128 + b as i128;
    if s > i64::MAX as i128 {
        i64::MAX
    } else if s < i64::MIN as i128 {
        i64::MIN
    } else {
        s as i64
    }
}

} // verus!
