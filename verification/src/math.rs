use crate::errors::Error;
use vstd::prelude::*;

verus! {

/// The floor of `a * b / d` over the natural numbers.
pub open spec fn mul_div_floor(a: nat, b: nat, d: nat) -> nat
    recommends
        d > 0,
{
    (a * b) / d
}

/// The smaller of two natural numbers.
pub open spec fn min_nat(a: nat, b: nat) -> nat {
    if a <= b {
        a
    } else {
        b
    }
}

/// `r` is the floor of the square root of `n`. For each `n` exactly one `r`
/// qualifies.
pub open spec fn is_floor_sqrt(n: nat, r: nat) -> bool {
    r * r <= n && n < (r + 1) * (r + 1)
}

/// The floor of the square root of `n`.
pub open spec fn floor_sqrt(n: nat) -> nat {
    choose|r: nat| is_floor_sqrt(n, r)
}

/// Every natural number has a floor square root, and it is no larger than
/// the number itself.
pub proof fn lemma_floor_sqrt_exists(n: nat)
    ensures
        is_floor_sqrt(n, floor_sqrt(n)),
        floor_sqrt(n) <= n,
        (floor_sqrt(n) == 0) == (n == 0),
    decreases n,
{
    if n == 0 {
        assert(is_floor_sqrt(0, 0)) by (nonlinear_arith);
    } else {
        lemma_floor_sqrt_exists((n - 1) as nat);
        let r = floor_sqrt((n - 1) as nat);
        if (r + 1) * (r + 1) <= n {
            assert(is_floor_sqrt(n, r + 1)) by (nonlinear_arith)
                requires
                    (r + 1) * (r + 1) <= n,
                    n - 1 < (r + 1) * (r + 1),
            ;
        } else {
            assert(is_floor_sqrt(n, r));
        }
    }
    let s = floor_sqrt(n);
    assert(s <= n && ((s == 0) == (n == 0))) by (nonlinear_arith)
        requires
            s * s <= n,
            n < (s + 1) * (s + 1),
    ;
}

/// A quotient of a product is at most the quotient of a larger product.
pub proof fn lemma_mul_div_monotonic(a: nat, a2: nat, b: nat, d: nat)
    by (nonlinear_arith)
    requires
        a <= a2,
        d > 0,
    ensures
        mul_div_floor(a, b, d) <= mul_div_floor(a2, b, d),
{
}

/// What the floor in `mul_div_floor` cuts off is less than one divisor.
pub proof fn lemma_mul_div_bounds(a: nat, b: nat, d: nat)
    by (nonlinear_arith)
    requires
        d > 0,
    ensures
        mul_div_floor(a, b, d) * d <= a * b,
        a * b < (mul_div_floor(a, b, d) + 1) * d,
{
}

/// The floor square root is unique.
pub proof fn lemma_floor_sqrt_unique(n: nat, r: nat, s: nat)
    by (nonlinear_arith)
    requires
        is_floor_sqrt(n, r),
        is_floor_sqrt(n, s),
    ensures
        r == s,
{
}

/// Sum of two amounts, or `Overflow` when it does not fit.
pub fn checked_sum(a: u128, b: u128) -> (r: Result<u128, Error>)
    ensures
        a + b <= u128::MAX ==> r == Ok::<u128, Error>((a + b) as u128),
        a + b > u128::MAX ==> r == Err::<u128, Error>(Error::Overflow),
{
    match a.checked_add(b) {
        Some(s) => Ok(s),
        None => Err(Error::Overflow),
    }
}

/// Product of two amounts, or `Overflow` when it does not fit.
pub fn checked_product(a: u128, b: u128) -> (r: Result<u128, Error>)
    ensures
        a * b <= u128::MAX ==> r == Ok::<u128, Error>((a * b) as u128),
        a * b > u128::MAX ==> r == Err::<u128, Error>(Error::Overflow),
{
    match a.checked_mul(b) {
        Some(p) => Ok(p),
        None => Err(Error::Overflow),
    }
}

/// Floor of `a * b / d`, or `Overflow` when the product does not fit.
pub fn mul_div(a: u128, b: u128, d: u128) -> (r: Result<u128, Error>)
    requires
        d > 0,
    ensures
        a * b <= u128::MAX ==> r == Ok::<u128, Error>(
            mul_div_floor(a as nat, b as nat, d as nat) as u128,
        ),
        a * b > u128::MAX ==> r == Err::<u128, Error>(Error::Overflow),
        r is Ok ==> r->Ok_0 == mul_div_floor(a as nat, b as nat, d as nat),
{
    match a.checked_mul(b) {
        Some(p) => {
            let q: u128 = p / d;
            assert(q == mul_div_floor(a as nat, b as nat, d as nat)) by {
                assert(p as nat == (a as nat) * (b as nat)) by (nonlinear_arith)
                    requires
                        p == a * b,
                ;
            }
            Ok(q)
        },
        None => Err(Error::Overflow),
    }
}

/// Floor of the square root of `n`.
pub fn integer_sqrt(n: u128) -> (r: u128)
    ensures
        r == floor_sqrt(n as nat),
        is_floor_sqrt(n as nat, r as nat),
        r <= u64::MAX,
{
    let mut lo: u128 = 0;
    let mut hi: u128 = 0x1_0000_0000_0000_0000;
    assert(hi * hi > u128::MAX) by (nonlinear_arith)
        requires
            hi == 0x1_0000_0000_0000_0000,
    ;
    while hi - lo > 1
        invariant
            lo < hi,
            hi <= 0x1_0000_0000_0000_0000,
            lo * lo <= n,
            n < hi * hi,
        decreases hi - lo,
    {
        let mid: u128 = lo + (hi - lo) / 2;
        assert(mid * mid <= u128::MAX) by (nonlinear_arith)
            requires
                mid <= 0xFFFF_FFFF_FFFF_FFFF,
        ;
        if mid * mid <= n {
            lo = mid;
        } else {
            hi = mid;
        }
    }
    assert(hi == lo + 1);
    proof {
        lemma_floor_sqrt_unique(n as nat, lo as nat, floor_sqrt(n as nat));
    }
    lo
}

} // verus!
