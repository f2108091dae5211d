//! The integer scalar's square-root capability: a floor square root with an
//! exact contract, used by the vector magnitude operations.

use vstd::prelude::*;

verus! {

/// Floor square root: the greatest `r` with `r * r <= n`.
///
/// The search runs over `0 ..= 3037000499`, the largest `i64` whose square
/// still fits in an `i64`.
pub fn isqrt(n: i64) -> (r: i64)
    requires
        n >= 0,
    ensures
        0 <= r,
        r * r <= n,
        n < (r + 1) * (r + 1),
{
    let mut lo: i64 = 0;
    let mut hi: i64 = 3037000499;
    assert(n < 3037000500 * 3037000500);
    while lo < hi
        invariant
            0 <= lo <= hi <= 3037000499,
            lo * lo <= n,
            n < (hi + 1) * (hi + 1),
        decreases hi - lo,
    {
        let mid: i64 = lo + (hi - lo + 1) / 2;
        assert(mid * mid <= 3037000499 * 3037000499) by (nonlinear_arith)
            requires
                0 <= mid <= 3037000499,
        ;
        if mid * mid <= n {
            lo = mid;
        } else {
            hi = mid - 1;
        }
    }
    lo
}

} // verus!
