//! Fixed-point scale and arithmetic that stops at the ends of the 64-bit range.

use vstd::prelude::*;

verus! {

/// Steps in one whole unit: a value `v` stands for `v / UNIT`.
pub const UNIT: i64 = 1_000_000;

/// `v` brought into the range of `i64`: values beyond an end become that end.
pub open spec fn saturate(v: int) -> i64 {
    if v < i64::MIN {
        i64::MIN
    } else if v > i64::MAX {
        i64::MAX
    } else {
        v as i64
    }
}

/// The sum of `a` and `b`, stopped at the ends of the 64-bit range.
pub fn plus(a: i64, b: i64) -> (r: i64)
    ensures
        r == saturate(a + b),
{
    match a.checked_add(b) {
        Some(v) => v,
        None => if b > 0 { i64::MAX } else { i64::MIN },
    }
}

/// The difference of `a` and `b`, stopped at the ends of the 64-bit range.
pub fn minus(a: i64, b: i64) -> (r: i64)
    ensures
        r == saturate(a - b),
{
    match a.checked_sub(b) {
        Some(v) => v,
        None => if b < 0 { i64::MAX } else { i64::MIN },
    }
}

} // verus!
