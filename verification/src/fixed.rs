//! Fixed-point scale and a verified integer square root.
//!
//! A stored value `v` denotes the real quantity `v / SCALE`. The square root
//! of a scaled quantity `x` is therefore `sqrt_floor(x * SCALE)`, since
//! `sqrt(x / SCALE) * SCALE == sqrt(x * SCALE)`.

use vstd::prelude::*;

verus! {

/// One unit of the fixed-point representation: all quantities carry six
/// fractional decimal digits.
pub const SCALE: i64 = 1_000_000;

/// `r` is the square root of `v`, rounded down to an integer.
pub open spec fn is_sqrt_floor(v: int, r: int) -> bool {
    0 <= r && r * r <= v && v < (r + 1) * (r + 1)
}

/// The square root of `v`, rounded down to an integer.
pub open spec fn sqrt_floor(v: int) -> int {
    choose|r: int| is_sqrt_floor(v, r)
}

/// Builds the rounded-down square root of `v` by induction on `v`.
proof fn sqrt_floor_witness(v: int) -> (r: int)
    requires
        0 <= v,
    ensures
        is_sqrt_floor(v, r),
    decreases v,
{
    if v == 0 {
        assert(is_sqrt_floor(0, 0));
        0
    } else {
        let p = sqrt_floor_witness(v - 1);
        if (p + 1) * (p + 1) <= v {
            assert(v == (p + 1) * (p + 1));
            assert(v < (p + 2) * (p + 2)) by (nonlinear_arith)
                requires
                    0 <= p,
                    v == (p + 1) * (p + 1),
            ;
            assert(is_sqrt_floor(v, p + 1));
            p + 1
        } else {
            assert(is_sqrt_floor(v, p));
            p
        }
    }
}

/// Every nonnegative integer has a rounded-down square root.
pub proof fn lemma_sqrt_floor_bounds(v: int)
    requires
        0 <= v,
    ensures
        is_sqrt_floor(v, sqrt_floor(v)),
{
    let w = sqrt_floor_witness(v);
    assert(exists|r: int| is_sqrt_floor(v, r));
}

/// Two rounded-down square roots of the same number are equal.
pub proof fn lemma_sqrt_floor_unique(v: int, r: int)
    requires
        0 <= v,
        is_sqrt_floor(v, r),
    ensures
        r == sqrt_floor(v),
{
    lemma_sqrt_floor_bounds(v);
    let s = sqrt_floor(v);
    assert(r == s) by (nonlinear_arith)
        requires
            0 <= r,
            r * r <= v,
            v < (r + 1) * (r + 1),
            0 <= s,
            s * s <= v,
            v < (s + 1) * (s + 1),
    ;
}

/// The rounded-down square root of a number below `(b + 1)^2` is at most `b`.
pub proof fn lemma_sqrt_floor_le(v: int, b: int)
    requires
        0 <= v,
        0 <= b,
        v < (b + 1) * (b + 1),
    ensures
        sqrt_floor(v) <= b,
{
    lemma_sqrt_floor_bounds(v);
    let s = sqrt_floor(v);
    assert(s <= b) by (nonlinear_arith)
        requires
            0 <= s,
            s * s <= v,
            0 <= b,
            v < (b + 1) * (b + 1),
    ;
}

/// The rounded-down square root of a number at least `b^2` is at least `b`.
pub proof fn lemma_sqrt_floor_ge(v: int, b: int)
    requires
        0 <= b,
        b * b <= v,
    ensures
        sqrt_floor(v) >= b,
{
    lemma_sqrt_floor_bounds(v);
    let s = sqrt_floor(v);
    assert(s >= b) by (nonlinear_arith)
        requires
            0 <= b,
            b * b <= v,
            0 <= s,
            v < (s + 1) * (s + 1),
    ;
}

/// Integer square root, rounded down, by bisection.
pub fn isqrt(v: u128) -> (r: u128)
    ensures
        r as int == sqrt_floor(v as int),
        is_sqrt_floor(v as int, r as int),
        r < 0x1_0000_0000_0000_0000,
{
    let mut lo: u128 = 0;
    let mut hi: u128 = 0x1_0000_0000_0000_0000;
    proof {
        assert((0x1_0000_0000_0000_0000 as int) * (0x1_0000_0000_0000_0000 as int)
            == 0x1_0000_0000_0000_0000_0000_0000_0000_0000);
    }
    while lo + 1 < hi
        invariant
            lo < hi,
            hi <= 0x1_0000_0000_0000_0000,
            lo * lo <= v as int,
            (v as int) < hi * hi,
        decreases hi - lo,
    {
        let mid: u128 = lo + (hi - lo) / 2;
        proof {
            assert(mid * mid < 0x1_0000_0000_0000_0000_0000_0000_0000_0000) by (nonlinear_arith)
                requires
                    0 <= mid < 0x1_0000_0000_0000_0000,
            ;
        }
        if mid * mid <= v {
            lo = mid;
        } else {
            hi = mid;
        }
    }
    proof {
        lemma_sqrt_floor_unique(v as int, lo as int);
    }
    lo
}

} // verus!
