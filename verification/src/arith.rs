//! Rounding divisions and extrema.

use vstd::prelude::*;

verus! {

/// `a / b`, rounded up.
pub open spec fn ceil_div(a: int, b: int) -> int {
    (a + b - 1) / b
}

/// The larger of two.
pub open spec fn larger(a: int, b: int) -> int {
    if a >= b {
        a
    } else {
        b
    }
}

/// The smaller of two.
pub open spec fn smaller(a: int, b: int) -> int {
    if a <= b {
        a
    } else {
        b
    }
}

/// `a / b`, rounded up.
pub fn div_ceil_u32(a: u32, b: u32) -> (q: u32)
    requires
        b > 0,
    ensures
        q == ceil_div(a as int, b as int),
{
    let q: u64 = div_ceil_u64(a as u64, b as u64);
    assert(ceil_div(a as int, b as int) <= a as int) by (nonlinear_arith)
        requires
            b > 0,
            a >= 0,
            ceil_div(a as int, b as int) == (a as int + b as int - 1) / b as int,
    ;
    q as u32
}

/// `a / b`, rounded up.
pub fn div_ceil_u64(a: u64, b: u64) -> (q: u64)
    requires
        b > 0,
    ensures
        q == ceil_div(a as int, b as int),
{
    let q: u64 = a / b;
    let r: u64 = a % b;
    proof {
        vstd::arithmetic::div_mod::lemma_fundamental_div_mod(a as int, b as int);
        vstd::arithmetic::mul::lemma_mul_is_commutative(b as int, q as int);
        if r == 0 {
            assert((a + b - 1) as int == (q as int) * (b as int) + (b - 1));
            vstd::arithmetic::div_mod::lemma_fundamental_div_mod_converse(
                (a + b - 1) as int,
                b as int,
                q as int,
                b - 1,
            );
        } else {
            assert((q + 1) * (b as int) == q * (b as int) + b) by (nonlinear_arith);
            assert((a + b - 1) as int == (q + 1) * (b as int) + (r - 1));
            vstd::arithmetic::div_mod::lemma_fundamental_div_mod_converse(
                (a + b - 1) as int,
                b as int,
                q + 1,
                r - 1,
            );
            assert(q < u64::MAX) by (nonlinear_arith)
                requires
                    q * (b as int) + r == a,
                    r > 0,
                    b > r,
                    a <= u64::MAX,
                    q >= 0,
            ;
        }
    }
    if r == 0 {
        q
    } else {
        q + 1
    }
}

/// Rounding up covers, and one fewer would not.
pub proof fn law_rounding_up_covers_with_none_to_spare(a: int, b: int)
    requires
        b > 0,
    ensures
        (ceil_div(a, b) - 1) * b < a <= ceil_div(a, b) * b,
{
    let q = ceil_div(a, b);
    vstd::arithmetic::div_mod::lemma_fundamental_div_mod(a + b - 1, b);
    vstd::arithmetic::div_mod::lemma_mod_bound(a + b - 1, b);
    assert((q - 1) * b < a <= q * b) by (nonlinear_arith)
        requires
            a + b - 1 == b * q + (a + b - 1) % b,
            0 <= (a + b - 1) % b < b,
    ;
}

/// An extremum is one of the two, and bounds both.
pub proof fn law_an_extremum_is_one_of_the_two(a: int, b: int)
    ensures
        larger(a, b) == a || larger(a, b) == b,
        larger(a, b) >= a && larger(a, b) >= b,
        smaller(a, b) == a || smaller(a, b) == b,
        smaller(a, b) <= a && smaller(a, b) <= b,
{
}

} // verus!
