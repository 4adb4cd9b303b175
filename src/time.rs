//! Arithmetic on timestamps.

use vstd::prelude::*;

verus! {

/// `x`, or the nearest bound of `i64` when it lies outside.
pub open spec fn clamp_i64(x: int) -> i64 {
    if x > i64::MAX {
        i64::MAX
    } else if x < i64::MIN {
        i64::MIN
    } else {
        x as i64
    }
}

/// The time `amount` units of `unit` after `now`, clamped to the range of `i64`.
pub fn shift(now: i64, amount: i64, unit: i64) -> (r: i64)
    requires
        0 < unit <= 86_400_000,
    ensures
        r == clamp_i64(now + amount * unit),
{
    let a = amount as i128;
    let u = unit as i128;
    assert(-0x8000_0000_0000_0000 * 86_400_000 <= a * u <= 0x7fff_ffff_ffff_ffff * 86_400_000) by (nonlinear_arith)
        requires
            0 < u <= 86_400_000,
            -0x8000_0000_0000_0000 <= a <= 0x7fff_ffff_ffff_ffff,
    {
    }
    let x: i128 = now as i128 + a * u;
    if x > i64::MAX as i128 {
        i64::MAX
    } else if x < i64::MIN as i128 {
        i64::MIN
    } else {
        x as i64
    }
}

} // verus!
