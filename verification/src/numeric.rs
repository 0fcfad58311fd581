//! Exact integer helpers used throughout the toolpath core: a floor square
//! root (for Euclidean distances) and a floor division on signed values (for
//! fixed-point interpolation).

use vstd::prelude::*;
use vstd::arithmetic::div_mod::{lemma_fundamental_div_mod, lemma_fundamental_div_mod_converse_div};

verus! {

/// `r` is the floor of the (real) square root of `n`.
pub open spec fn is_sqrt_floor(n: int, r: int) -> bool {
    0 <= r && r * r <= n && n < (r + 1) * (r + 1)
}

/// The floor of the square root of a non-negative integer.
pub open spec fn sqrt_floor(n: int) -> int {
    choose|r: int| is_sqrt_floor(n, r)
}

/// The floor square root is unique, so any witness pins `sqrt_floor` down.
pub proof fn lemma_sqrt_floor_unique(n: int, r: int)
    requires
        is_sqrt_floor(n, r),
    ensures
        sqrt_floor(n) == r,
{
    assert(exists|q: int| is_sqrt_floor(n, q)) by {
        assert(is_sqrt_floor(n, r));
    }
    let q = choose|q: int| is_sqrt_floor(n, q);
    assert(q == r) by (nonlinear_arith)
        requires
            is_sqrt_floor(n, q),
            is_sqrt_floor(n, r),
    ;
}

/// Floor square root of a `u64`, by binary search on the root.
pub fn isqrt_u64(n: u64) -> (r: u64)
    ensures
        is_sqrt_floor(n as int, r as int),
        r == sqrt_floor(n as int),
{
    let mut lo: u128 = 0;
    let mut hi: u128 = 0x1_0000_0000;
    assert(hi * hi == 0x1_0000_0000_0000_0000);
    while hi - lo > 1
        invariant
            0 <= lo < hi <= 0x1_0000_0000,
            lo * lo <= n as int,
            (n as int) < hi * hi,
        decreases hi - lo,
    {
        let mid: u128 = lo + (hi - lo) / 2;
        assert(mid * mid <= 0x1_0000_0000_0000_0000) by (nonlinear_arith)
            requires
                0 <= mid <= 0x1_0000_0000,
        ;
        if mid * mid <= n as u128 {
            lo = mid;
        } else {
            hi = mid;
        }
    }
    proof {
        lemma_sqrt_floor_unique(n as int, lo as int);
    }
    lo as u64
}

/// Floor division of a signed numerator by a positive denominator, agreeing
/// with mathematical (Euclidean) division also for negative numerators.
pub fn div_floor_i64(num: i64, den: i64) -> (r: i64)
    requires
        0 < den,
        i64::MIN < num,
    ensures
        r == num as int / den as int,
{
    if num >= 0 {
        let q: u64 = (num as u64) / (den as u64);
        q as i64
    } else {
        let m: u64 = (-num) as u64;
        let q: u64 = m / (den as u64);
        let rem: u64 = m % (den as u64);
        proof {
            lemma_fundamental_div_mod(m as int, den as int);
        }
        if rem == 0 {
            proof {
                assert(num as int == (-(q as int)) * den as int + 0) by (nonlinear_arith)
                    requires
                        m as int == den as int * (q as int) + rem as int,
                        rem == 0,
                        num as int == -(m as int),
                ;
                lemma_fundamental_div_mod_converse_div(num as int, den as int, -(q as int), 0);
            }
            -(q as i64)
        } else {
            proof {
                assert(num as int == (-(q as int) - 1) * den as int + (den as int - rem as int))
                    by (nonlinear_arith)
                    requires
                        m as int == den as int * (q as int) + rem as int,
                        num as int == -(m as int),
                ;
                lemma_fundamental_div_mod_converse_div(
                    num as int,
                    den as int,
                    -(q as int) - 1,
                    den as int - rem as int,
                );
            }
            -(q as i64) - 1
        }
    }
}

} // verus!
