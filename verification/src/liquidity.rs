use crate::errors::Error;
use crate::math::{
    checked_product, checked_sum, floor_sqrt, integer_sqrt, lemma_floor_sqrt_exists,
    lemma_mul_div_bounds, lemma_mul_div_monotonic, min_nat, mul_div, mul_div_floor,
};
use vstd::prelude::*;

verus! {

/// What one deposit adds to a pool: the amounts of the two assets that are
/// consumed and the liquidity-provider shares issued for them.
#[derive(Clone, Copy, Debug, PartialEq, Eq, Structural)]
pub struct Provision {
    pub first_amount: u128,
    pub second_amount: u128,
    pub liquidity: u128,
}

/// A pool is either empty in all three of its numbers or in none.
pub open spec fn pool_wf(first_reserve: u128, second_reserve: u128, lp_supply: u128) -> bool {
    (first_reserve == 0 <==> lp_supply == 0) && (second_reserve == 0 <==> lp_supply == 0)
}

/// The pair of amounts that a deposit of `(paid1, paid2)` consumes from a pool with
/// reserves `(r1, r2)`: all of one side and the proportional amount of the
/// other, rounded down.
pub open spec fn optimal_amounts(paid1: nat, paid2: nat, r1: nat, r2: nat) -> (nat, nat)
    recommends
        r1 > 0,
        r2 > 0,
{
    if mul_div_floor(paid1, r2, r1) <= paid2 {
        (paid1, mul_div_floor(paid1, r2, r1))
    } else {
        (mul_div_floor(paid2, r1, r2), paid2)
    }
}

/// The shares issued for the amounts `(a1, a2)` added to a non-empty pool.
pub open spec fn shares_issued(a1: nat, a2: nat, r1: nat, r2: nat, supply: nat) -> nat
    recommends
        r1 > 0,
        r2 > 0,
{
    min_nat(mul_div_floor(a1, supply, r1), mul_div_floor(a2, supply, r2))
}

/// The outcome of a deposit into an empty pool.
pub open spec fn initial_outcome(paid1: u128, paid2: u128, min1: u128, min2: u128) -> Result<
    Provision,
    Error,
> {
    if paid1 < min1 || paid2 < min2 {
        Err(Error::SlippageExceeded)
    } else if paid1 * paid2 > u128::MAX {
        Err(Error::Overflow)
    } else if floor_sqrt((paid1 * paid2) as nat) == 0 {
        Err(Error::InsufficientLiquidity)
    } else {
        Ok(
            Provision {
                first_amount: paid1,
                second_amount: paid2,
                liquidity: floor_sqrt((paid1 * paid2) as nat) as u128,
            },
        )
    }
}

/// The outcome of a deposit into a pool that holds liquidity.
pub open spec fn proportional_outcome(
    r1: u128,
    r2: u128,
    supply: u128,
    paid1: u128,
    paid2: u128,
    min1: u128,
    min2: u128,
) -> Result<Provision, Error>
    recommends
        r1 > 0,
        r2 > 0,
{
    let (a1, a2) = optimal_amounts(paid1 as nat, paid2 as nat, r1 as nat, r2 as nat);
    let shares = shares_issued(a1, a2, r1 as nat, r2 as nat, supply as nat);
    if paid1 * r2 > u128::MAX {
        Err(Error::Overflow)
    } else if mul_div_floor(paid1 as nat, r2 as nat, r1 as nat) > paid2 && paid2 * r1 > u128::MAX {
        Err(Error::Overflow)
    } else if a1 < min1 || a2 < min2 {
        Err(Error::SlippageExceeded)
    } else if a1 * supply > u128::MAX || a2 * supply > u128::MAX {
        Err(Error::Overflow)
    } else if shares == 0 {
        Err(Error::InsufficientLiquidity)
    } else if r1 + a1 > u128::MAX || r2 + a2 > u128::MAX || supply + shares > u128::MAX {
        Err(Error::Overflow)
    } else {
        Ok(Provision { first_amount: a1 as u128, second_amount: a2 as u128, liquidity: shares as u128 })
    }
}

/// The outcome of a deposit of `(paid1, paid2)` with minimums `(min1, min2)` into a
/// pool with reserves `(r1, r2)` and `supply` shares outstanding.
pub open spec fn provision_outcome(
    r1: u128,
    r2: u128,
    supply: u128,
    paid1: u128,
    paid2: u128,
    min1: u128,
    min2: u128,
) -> Result<Provision, Error> {
    if supply == 0 {
        initial_outcome(paid1, paid2, min1, min2)
    } else {
        proportional_outcome(r1, r2, supply, paid1, paid2, min1, min2)
    }
}

/// The optimal pair never asks for more than was paid, takes one side whole,
/// and takes of the other side the exact proportional amount rounded down:
/// the ratio of the reserves after the deposit differs from the ratio before
/// by less than one unit of the rounded side.
pub proof fn lemma_ratio_preserved(paid1: nat, paid2: nat, r1: nat, r2: nat)
    requires
        r1 > 0,
        r2 > 0,
    ensures
        ({
            let (a1, a2) = optimal_amounts(paid1, paid2, r1, r2);
            &&& a1 <= paid1
            &&& a2 <= paid2
            &&& a1 == paid1 || a2 == paid2
            &&& mul_div_floor(paid1, r2, r1) <= paid2 ==> a1 == paid1 && 0 <= (r1 + a1) * r2 - r1 * (r2
                + a2) < r1
            &&& mul_div_floor(paid1, r2, r1) > paid2 ==> a2 == paid2 && 0 <= r1 * (r2 + a2) - (r1 + a1)
                * r2 < r2
        }),
{
    let (a1, a2) = optimal_amounts(paid1, paid2, r1, r2);
    lemma_mul_div_bounds(paid1, r2, r1);
    lemma_mul_div_bounds(paid2, r1, r2);
    let so = mul_div_floor(paid1, r2, r1);
    let fo = mul_div_floor(paid2, r1, r2);
    if so <= paid2 {
        assert((r1 + a1) * r2 - r1 * (r2 + a2) == paid1 * r2 - so * r1) by (nonlinear_arith)
            requires
                a1 == paid1,
                a2 == so,
        ;
        assert(paid1 * r2 - so * r1 < r1) by (nonlinear_arith)
            requires
                paid1 * r2 < (so + 1) * r1,
        ;
    } else {
        assert(fo < paid1) by (nonlinear_arith)
            requires
                so * r1 <= paid1 * r2,
                so > paid2,
                fo * r2 <= paid2 * r1,
                r1 > 0,
                r2 > 0,
        ;
        assert(r1 * (r2 + a2) - (r1 + a1) * r2 == paid2 * r1 - fo * r2) by (nonlinear_arith)
            requires
                a1 == fo,
                a2 == paid2,
        ;
        assert(paid2 * r1 - fo * r2 < r2) by (nonlinear_arith)
            requires
                paid2 * r1 < (fo + 1) * r2,
        ;
    }
}

/// The shares issued for the optimal amounts never exceed the shares that the
/// same formula gives for the amounts as they were paid.
pub proof fn lemma_no_value_donation(paid1: nat, paid2: nat, r1: nat, r2: nat, supply: nat)
    requires
        r1 > 0,
        r2 > 0,
    ensures
        ({
            let (a1, a2) = optimal_amounts(paid1, paid2, r1, r2);
            shares_issued(a1, a2, r1, r2, supply) <= shares_issued(paid1, paid2, r1, r2, supply)
        }),
{
    let (a1, a2) = optimal_amounts(paid1, paid2, r1, r2);
    lemma_ratio_preserved(paid1, paid2, r1, r2);
    lemma_mul_div_monotonic(a1, paid1, supply, r1);
    lemma_mul_div_monotonic(a2, paid2, supply, r2);
}

/// What is paid beyond the optimal amount earns no shares: on a side that is
/// over-supplied, the shares issued stay strictly below that side's exact,
/// unrounded quote for the amount as it was paid.
pub proof fn lemma_over_supply_earns_no_shares(
    paid1: nat,
    paid2: nat,
    r1: nat,
    r2: nat,
    supply: nat,
)
    requires
        r1 > 0,
        r2 > 0,
        supply > 0,
    ensures
        ({
            let (a1, a2) = optimal_amounts(paid1, paid2, r1, r2);
            &&& a1 < paid1 ==> shares_issued(a1, a2, r1, r2, supply) * r1 < paid1 * supply
            &&& a2 < paid2 ==> shares_issued(a1, a2, r1, r2, supply) * r2 < paid2 * supply
        }),
{
    let (a1, a2) = optimal_amounts(paid1, paid2, r1, r2);
    let shares = shares_issued(a1, a2, r1, r2, supply);
    lemma_mul_div_bounds(a1, supply, r1);
    lemma_mul_div_bounds(a2, supply, r2);
    let s1 = mul_div_floor(a1, supply, r1);
    let s2 = mul_div_floor(a2, supply, r2);
    assert(a1 < paid1 ==> shares * r1 < paid1 * supply) by (nonlinear_arith)
        requires
            shares <= s1,
            s1 * r1 <= a1 * supply,
            supply > 0,
    ;
    assert(a2 < paid2 ==> shares * r2 < paid2 * supply) by (nonlinear_arith)
        requires
            shares <= s2,
            s2 * r2 <= a2 * supply,
            supply > 0,
    ;
}

/// An accepted deposit keeps the pool well formed and leaves it non-empty.
pub proof fn lemma_provision_keeps_pool_wf(
    r1: u128,
    r2: u128,
    supply: u128,
    paid1: u128,
    paid2: u128,
    min1: u128,
    min2: u128,
)
    requires
        pool_wf(r1, r2, supply),
        provision_outcome(r1, r2, supply, paid1, paid2, min1, min2) is Ok,
    ensures
        ({
            let p = provision_outcome(r1, r2, supply, paid1, paid2, min1, min2)->Ok_0;
            &&& p.liquidity > 0
            &&& p.first_amount > 0
            &&& p.second_amount > 0
            &&& p.first_amount <= paid1
            &&& p.second_amount <= paid2
            &&& p.first_amount >= min1
            &&& p.second_amount >= min2
            &&& r1 + p.first_amount <= u128::MAX
            &&& r2 + p.second_amount <= u128::MAX
            &&& supply + p.liquidity <= u128::MAX
        }),
{
    let p = provision_outcome(r1, r2, supply, paid1, paid2, min1, min2)->Ok_0;
    if supply == 0 {
        lemma_floor_sqrt_exists((paid1 * paid2) as nat);
        assert(paid1 > 0 && paid2 > 0) by (nonlinear_arith)
            requires
                paid1 * paid2 != 0,
        ;
    } else {
        lemma_ratio_preserved(paid1 as nat, paid2 as nat, r1 as nat, r2 as nat);
        let (a1, a2) = optimal_amounts(paid1 as nat, paid2 as nat, r1 as nat, r2 as nat);
        assert(a1 > 0) by (nonlinear_arith)
            requires
                mul_div_floor(a1, supply as nat, r1 as nat) > 0,
                r1 > 0,
        ;
        assert(a2 > 0) by (nonlinear_arith)
            requires
                mul_div_floor(a2, supply as nat, r2 as nat) > 0,
                r2 > 0,
        ;
    }
}

/// Every accepted deposit into a pool that holds liquidity keeps the ratio of
/// the reserves within one unit of rounding: the cross product of the
/// reserves after the deposit with the reserves before it is off by less than
/// one reserve.
pub proof fn lemma_deposit_preserves_ratio(
    r1: u128,
    r2: u128,
    supply: u128,
    paid1: u128,
    paid2: u128,
    min1: u128,
    min2: u128,
)
    requires
        pool_wf(r1, r2, supply),
        supply > 0,
        provision_outcome(r1, r2, supply, paid1, paid2, min1, min2) is Ok,
    ensures
        ({
            let p = provision_outcome(r1, r2, supply, paid1, paid2, min1, min2)->Ok_0;
            -r2 < (r1 + p.first_amount) * r2 - r1 * (r2 + p.second_amount) < r1
        }),
{
    lemma_ratio_preserved(paid1 as nat, paid2 as nat, r1 as nat, r2 as nat);
}

/// Every accepted deposit into a pool that holds liquidity issues no more
/// shares than the share formula gives for the payments as they were made.
pub proof fn lemma_deposit_shares_within_raw_quote(
    r1: u128,
    r2: u128,
    supply: u128,
    paid1: u128,
    paid2: u128,
    min1: u128,
    min2: u128,
)
    requires
        pool_wf(r1, r2, supply),
        supply > 0,
        provision_outcome(r1, r2, supply, paid1, paid2, min1, min2) is Ok,
    ensures
        provision_outcome(r1, r2, supply, paid1, paid2, min1, min2)->Ok_0.liquidity
            <= shares_issued(paid1 as nat, paid2 as nat, r1 as nat, r2 as nat, supply as nat),
{
    lemma_no_value_donation(paid1 as nat, paid2 as nat, r1 as nat, r2 as nat, supply as nat);
}

/// Computes what a deposit adds to a pool, or the error that rejects it.
pub fn compute_provision(
    r1: u128,
    r2: u128,
    supply: u128,
    paid1: u128,
    paid2: u128,
    min1: u128,
    min2: u128,
) -> (r: Result<Provision, Error>)
    requires
        pool_wf(r1, r2, supply),
    ensures
        r == provision_outcome(r1, r2, supply, paid1, paid2, min1, min2),
{
    if supply == 0 {
        if paid1 < min1 || paid2 < min2 {
            return Err(Error::SlippageExceeded);
        }
        let product: u128 = match checked_product(paid1, paid2) {
            Ok(v) => v,
            Err(e) => {
                return Err(e);
            },
        };
        let liquidity: u128 = integer_sqrt(product);
        if liquidity == 0 {
            return Err(Error::InsufficientLiquidity);
        }
        return Ok(Provision { first_amount: paid1, second_amount: paid2, liquidity });
    }
    proof {
        lemma_ratio_preserved(paid1 as nat, paid2 as nat, r1 as nat, r2 as nat);
    }
    let second_optimal: u128 = match mul_div(paid1, r2, r1) {
        Ok(v) => v,
        Err(e) => {
            return Err(e);
        },
    };
    let first_amount: u128;
    let second_amount: u128;
    if second_optimal <= paid2 {
        first_amount = paid1;
        second_amount = second_optimal;
    } else {
        first_amount =
        match mul_div(paid2, r1, r2) {
            Ok(v) => v,
            Err(e) => {
                return Err(e);
            },
        };
        second_amount = paid2;
    }
    if first_amount < min1 || second_amount < min2 {
        return Err(Error::SlippageExceeded);
    }
    let first_share: u128 = match mul_div(first_amount, supply, r1) {
        Ok(v) => v,
        Err(e) => {
            return Err(e);
        },
    };
    let second_share: u128 = match mul_div(second_amount, supply, r2) {
        Ok(v) => v,
        Err(e) => {
            return Err(e);
        },
    };
    let liquidity: u128 = if first_share <= second_share {
        first_share
    } else {
        second_share
    };
    if liquidity == 0 {
        return Err(Error::InsufficientLiquidity);
    }
    if checked_sum(r1, first_amount).is_err() || checked_sum(r2, second_amount).is_err()
        || checked_sum(supply, liquidity).is_err() {
        return Err(Error::Overflow);
    }
    Ok(Provision { first_amount, second_amount, liquidity })
}

} // verus!
