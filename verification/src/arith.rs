//! Exact integer square root, used to measure Euclidean step distances in
//! fixed-point milli-tiles.

use vstd::prelude::*;

verus! {

/// Floor of the square root of `n`, defined by counting up.
pub open spec fn sqrt_floor(n: nat) -> nat
    decreases n,
{
    if n == 0 {
        0
    } else {
        let r = sqrt_floor((n - 1) as nat);
        if (r + 1) * (r + 1) <= n {
            r + 1
        } else {
            r
        }
    }
}

/// `sqrt_floor(n)` really is the floor of the square root:
/// its square is at most `n`, and the next square is above `n`.
pub proof fn lemma_sqrt_floor_bounds(n: nat)
    ensures
        sqrt_floor(n) * sqrt_floor(n) <= n,
        n < (sqrt_floor(n) + 1) * (sqrt_floor(n) + 1),
    decreases n,
{
    if n > 0 {
        lemma_sqrt_floor_bounds((n - 1) as nat);
        let r = sqrt_floor((n - 1) as nat);
        assert(r * r <= n - 1);
        assert(n - 1 < (r + 1) * (r + 1));
        if (r + 1) * (r + 1) <= n {
            assert(sqrt_floor(n) == r + 1);
            assert(n < (r + 1 + 1) * (r + 1 + 1)) by (nonlinear_arith)
                requires
                    n <= (r + 1) * (r + 1),
                    0 <= r,
            ;
        } else {
            assert(sqrt_floor(n) == r);
        }
    } else {
        assert(sqrt_floor(0) == 0);
        assert((0 + 1) * (0 + 1) == 1) by (nonlinear_arith);
    }
}

/// Any value squeezed between consecutive squares is the floor square root.
pub proof fn lemma_sqrt_floor_unique(n: nat, r: nat)
    requires
        r * r <= n,
        n < (r + 1) * (r + 1),
    ensures
        r == sqrt_floor(n),
{
    lemma_sqrt_floor_bounds(n);
    let s = sqrt_floor(n);
    if r < s {
        assert(false) by (nonlinear_arith)
            requires r < s, s * s <= n, n < (r + 1) * (r + 1), 0 <= r, 0 <= s;
    }
    if s < r {
        assert(false) by (nonlinear_arith)
            requires s < r, r * r <= n, n < (s + 1) * (s + 1), 0 <= r, 0 <= s;
    }
}

/// Floor of the square root, by binary search over the root.
///
/// The bound on `n` keeps the upper end of the search range, squared, inside
/// `u128`; it is far above anything a grid distance produces.
pub fn isqrt(n: u128) -> (r: u64)
    requires
        n < 0x4000000000000000000000,
    ensures
        r == sqrt_floor(n as nat),
{
    let mut lo: u64 = 0;
    let mut hi: u64 = 0x80000000000;
    assert(0x80000000000u128 * 0x80000000000u128 == 0x4000000000000000000000u128)
        by (nonlinear_arith);
    while lo + 1 < hi
        invariant
            lo < hi,
            hi <= 0x80000000000,
            (lo as nat) * (lo as nat) <= n as nat,
            (n as nat) < (hi as nat) * (hi as nat),
        decreases hi - lo,
    {
        let mid: u64 = lo + (hi - lo) / 2;
        proof {
            assert((mid as int) * (mid as int) <= 0x4000000000000000000000int)
                by (nonlinear_arith)
                requires
                    0 <= mid <= 0x80000000000,
            ;
        }
        if (mid as u128) * (mid as u128) <= n {
            lo = mid;
        } else {
            hi = mid;
        }
    }
    proof {
        lemma_sqrt_floor_unique(n as nat, lo as nat);
    }
    lo
}

} // verus!
