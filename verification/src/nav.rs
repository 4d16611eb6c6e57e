//! Navigation engine: pure computation of the next line index from the
//! current index, a signed skip amount, and the total line count.

use vstd::prelude::*;

verus! {

/// The next index: `i + d` constrained to the closed interval `[0, n]`.
/// A negative `d` saturates at 0, a positive `d` is capped at `n`.
pub open spec fn clamp_index(i: int, d: int, n: int) -> int {
    if i + d < 0 {
        0
    } else if i + d > n {
        n
    } else {
        i + d
    }
}

/// The clamped index always lies in `[0, n]`.
pub proof fn lemma_clamp_in_range(i: int, d: int, n: int)
    requires
        0 <= n,
    ensures
        0 <= clamp_index(i, d, n) <= n,
{
}

/// The clamped index is monotone in the skip amount: a larger skip never
/// yields a smaller index.  Read with `d1 <= d2 <= 0` this says moving
/// further backward never increases the index; with `0 <= d1 <= d2` that
/// moving further forward never decreases it.
pub proof fn lemma_clamp_monotone(i: int, d1: int, d2: int, n: int)
    requires
        d1 <= d2,
        0 <= n,
    ensures
        clamp_index(i, d1, n) <= clamp_index(i, d2, n),
{
}

/// Executable clamping over the machine types the state machine uses:
/// a `u32` current index, an `i32` skip, and a `u32` line count.
pub fn advance_index(i: u32, d: i32, n: u32) -> (r: u32)
    ensures
        r == clamp_index(i as int, d as int, n as int),
{
    let t: i64 = i as i64 + d as i64;
    if t < 0 {
        0
    } else if t > n as i64 {
        n
    } else {
        t as u32
    }
}

} // verus!
