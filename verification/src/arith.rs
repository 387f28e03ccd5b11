//! Saturating `u32` arithmetic, as mathematical functions.
use vstd::prelude::*;

verus! {

/// `a.saturating_add(b)` on `u32`.
pub open spec fn sat_add(a: int, b: int) -> int {
    if a + b > u32::MAX { u32::MAX as int } else { a + b }
}

/// `a.saturating_sub(b)` on unsigned integers.
pub open spec fn sat_sub(a: int, b: int) -> int {
    if a - b < 0 { 0 } else { a - b }
}

/// The smaller of two integers.
pub open spec fn min(a: int, b: int) -> int {
    if a <= b { a } else { b }
}

/// The larger of two integers.
pub open spec fn max(a: int, b: int) -> int {
    if a >= b { a } else { b }
}

/// `v.clamp(lo, hi)` for `lo <= hi`.
pub open spec fn clamp(v: int, lo: int, hi: int) -> int {
    if v < lo { lo } else if v > hi { hi } else { v }
}

/// Smaller of two `u32`.
pub fn min_u32(a: u32, b: u32) -> (r: u32)
    ensures r == min(a as int, b as int),
{
    if a <= b { a } else { b }
}

/// Larger of two `u32`.
pub fn max_u32(a: u32, b: u32) -> (r: u32)
    ensures r == max(a as int, b as int),
{
    if a >= b { a } else { b }
}

} // verus!
