use crate::errors::Error;
use crate::math::{checked_sum, mul_div, mul_div_floor};
use crate::types::{State, TokenIdentifier, TokenPayment};
use vstd::prelude::*;

verus! {

/// What a farm position records: the reward-per-share accumulator at its last
/// settlement, the epoch in which it was entered and the principal it stands
/// for.
#[derive(Clone, Copy, Debug, PartialEq, Eq, Structural)]
pub struct FarmTokenAttributes {
    pub reward_per_share: u128,
    pub entering_epoch: u64,
    pub current_farm_amount: u128,
}

/// A farm position: the payment that carries it and its attributes.
pub struct FarmToken {
    pub token_amount: TokenPayment,
    pub attributes: FarmTokenAttributes,
}

/// The ledger of one farm as an operation sees it.
///
/// `reward_per_share` is scaled by `division_safety_constant`, which is set
/// once and is positive in every farm that pays rewards.
pub struct StorageCache {
    pub contract_state: State,
    pub farm_token_id: TokenIdentifier,
    pub farming_token_id: TokenIdentifier,
    pub reward_token_id: TokenIdentifier,
    pub reward_per_share: u128,
    pub farm_token_supply: u128,
    pub division_safety_constant: u128,
    pub reward_reserve: u128,
}

impl Default for StorageCache {
    fn default() -> (r: Self)
        ensures
            r.contract_state == State::Inactive,
            r.farm_token_id@.len() == 0,
            r.farming_token_id@.len() == 0,
            r.reward_token_id@.len() == 0,
            r.reward_per_share == 0,
            r.farm_token_supply == 0,
            r.division_safety_constant == 0,
            r.reward_reserve == 0,
    {
        StorageCache {
            contract_state: State::Inactive,
            farm_token_id: TokenIdentifier::egld(),
            farming_token_id: TokenIdentifier::egld(),
            reward_token_id: TokenIdentifier::egld(),
            reward_per_share: 0,
            farm_token_supply: 0,
            division_safety_constant: 0,
            reward_reserve: 0,
        }
    }
}

/// By how much an injection of `amount` raises the reward per share of a
/// farm with `supply` staked: nothing while nothing is staked.
pub open spec fn reward_increase(amount: nat, dsc: nat, supply: nat) -> nat {
    if supply == 0 {
        0
    } else {
        mul_div_floor(amount, dsc, supply)
    }
}

/// The reward that a position of `principal` has earned since the
/// accumulator stood at `debt`.
pub open spec fn position_reward(principal: nat, reward_per_share: nat, debt: nat, dsc: nat) -> nat
    recommends
        dsc > 0,
        debt <= reward_per_share,
{
    mul_div_floor(principal, (reward_per_share - debt) as nat, dsc)
}

/// The reward per share after an injection, or the error that rejects it.
pub open spec fn accumulate_outcome(
    reward_per_share: u128,
    amount: u128,
    dsc: u128,
    supply: u128,
) -> Result<u128, Error> {
    if supply == 0 {
        Ok(reward_per_share)
    } else if amount * dsc > u128::MAX || reward_per_share + reward_increase(
        amount as nat,
        dsc as nat,
        supply as nat,
    ) > u128::MAX {
        Err(Error::Overflow)
    } else {
        Ok((reward_per_share + reward_increase(amount as nat, dsc as nat, supply as nat)) as u128)
    }
}

/// The reward of a position, or the error that rejects the computation: a
/// debt ahead of the accumulator, or a product that does not fit.
pub open spec fn reward_outcome(
    principal: u128,
    reward_per_share: u128,
    debt: u128,
    dsc: u128,
) -> Result<u128, Error>
    recommends
        dsc > 0,
{
    if debt > reward_per_share || principal * (reward_per_share - debt) > u128::MAX {
        Err(Error::Overflow)
    } else {
        Ok(position_reward(principal as nat, reward_per_share as nat, debt as nat, dsc as nat) as u128)
    }
}

/// The accumulator never decreases under an injection.
pub proof fn lemma_accumulate_monotonic(reward_per_share: u128, amount: u128, dsc: u128, supply: u128)
    requires
        accumulate_outcome(reward_per_share, amount, dsc, supply) is Ok,
    ensures
        accumulate_outcome(reward_per_share, amount, dsc, supply)->Ok_0 >= reward_per_share,
{
}

/// The accumulator after a run of injections into a farm with constant
/// stake, over the natural numbers.
pub open spec fn after_injections(reward_per_share: nat, amounts: Seq<nat>, dsc: nat, supply: nat) -> nat
    decreases amounts.len(),
{
    if amounts.len() == 0 {
        reward_per_share
    } else {
        after_injections(reward_per_share, amounts.drop_last(), dsc, supply) + reward_increase(
            amounts.last(),
            dsc,
            supply,
        )
    }
}

/// The accumulator never decreases across any run of injections, and a
/// longer run never leaves it lower than a prefix of it.
pub proof fn lemma_reward_per_share_monotonic(
    reward_per_share: nat,
    amounts: Seq<nat>,
    dsc: nat,
    supply: nat,
    prefix: nat,
)
    requires
        prefix <= amounts.len(),
    ensures
        reward_per_share <= after_injections(
            reward_per_share,
            amounts.subrange(0, prefix as int),
            dsc,
            supply,
        ) <= after_injections(reward_per_share, amounts, dsc, supply),
    decreases amounts.len(),
{
    if prefix == amounts.len() {
        assert(amounts.subrange(0, prefix as int) =~= amounts);
        if amounts.len() > 0 {
            lemma_reward_per_share_monotonic(
                reward_per_share,
                amounts.drop_last(),
                dsc,
                supply,
                (prefix - 1) as nat,
            );
        }
    } else {
        lemma_reward_per_share_monotonic(reward_per_share, amounts.drop_last(), dsc, supply, prefix);
        assert(amounts.drop_last().subrange(0, prefix as int) =~= amounts.subrange(
            0,
            prefix as int,
        ));
    }
}

/// The reward per share after `amount` is injected into a farm with `supply`
/// staked.
pub fn accumulate_reward(reward_per_share: u128, amount: u128, dsc: u128, supply: u128) -> (r:
    Result<u128, Error>)
    ensures
        r == accumulate_outcome(reward_per_share, amount, dsc, supply),
        r is Ok ==> r->Ok_0 >= reward_per_share,
{
    if supply == 0 {
        return Ok(reward_per_share);
    }
    let increase: u128 = match mul_div(amount, dsc, supply) {
        Ok(v) => v,
        Err(e) => {
            return Err(e);
        },
    };
    checked_sum(reward_per_share, increase)
}

/// The reward that a position of `principal` has earned since the
/// accumulator stood at `debt`.
pub fn calculate_reward(principal: u128, reward_per_share: u128, debt: u128, dsc: u128) -> (r:
    Result<u128, Error>)
    requires
        dsc > 0,
    ensures
        r == reward_outcome(principal, reward_per_share, debt, dsc),
{
    if debt > reward_per_share {
        return Err(Error::Overflow);
    }
    mul_div(principal, reward_per_share - debt, dsc)
}

/// The principal and the reward of a list of positions settled together at
/// `reward_per_share`, or the error that rejects the settlement.
pub open spec fn settlement_outcome(
    positions: Seq<FarmToken>,
    reward_per_share: u128,
    dsc: u128,
) -> Result<(u128, u128), Error>
    recommends
        dsc > 0,
    decreases positions.len(),
{
    if positions.len() == 0 {
        Ok((0, 0))
    } else {
        match settlement_outcome(positions.drop_last(), reward_per_share, dsc) {
            Err(e) => Err(e),
            Ok((principal, reward)) => match reward_outcome(
                positions.last().token_amount.amount,
                reward_per_share,
                positions.last().attributes.reward_per_share,
                dsc,
            ) {
                Err(e) => Err(e),
                Ok(earned) => if principal + positions.last().token_amount.amount > u128::MAX
                    || reward + earned > u128::MAX {
                    Err(Error::Overflow)
                } else {
                    Ok(
                        (
                            (principal + positions.last().token_amount.amount) as u128,
                            (reward + earned) as u128,
                        ),
                    )
                },
            },
        }
    }
}

/// The outcome of merging a list of positions against a farm ledger: the
/// merged principal and the reward paid, or the error that rejects the
/// merge.
pub open spec fn merge_outcome(cache: StorageCache, positions: Seq<FarmToken>) -> Result<
    (u128, u128),
    Error,
>
    recommends
        cache.division_safety_constant > 0,
{
    match settlement_outcome(positions, cache.reward_per_share, cache.division_safety_constant) {
        Err(e) => Err(e),
        Ok((principal, reward)) => if reward > cache.reward_reserve {
            Err(Error::InsufficientRewardReserve)
        } else {
            Ok((principal, reward))
        },
    }
}

/// A settlement that fails on the first positions of a list fails in the same
/// way on the whole list.
proof fn lemma_settlement_error_persists(
    positions: Seq<FarmToken>,
    reward_per_share: u128,
    dsc: u128,
    prefix: int,
)
    requires
        0 <= prefix <= positions.len(),
        settlement_outcome(positions.subrange(0, prefix), reward_per_share, dsc) is Err,
    ensures
        settlement_outcome(positions, reward_per_share, dsc) == settlement_outcome(
            positions.subrange(0, prefix),
            reward_per_share,
            dsc,
        ),
    decreases positions.len(),
{
    if prefix == positions.len() {
        assert(positions.subrange(0, prefix) =~= positions);
    } else {
        assert(positions.drop_last().subrange(0, prefix) =~= positions.subrange(0, prefix));
        lemma_settlement_error_persists(positions.drop_last(), reward_per_share, dsc, prefix);
    }
}

/// Merges positions into one: each is settled against the current reward
/// per share, the rewards leave the reserve together, and the merged
/// position stakes the sum of the principals with nothing pending. The
/// result holds the merged attributes and the reward paid. On any error the
/// ledger is unchanged.
pub fn merge_positions(farm: &mut StorageCache, positions: &Vec<FarmToken>, epoch: u64) -> (r:
    Result<(FarmTokenAttributes, u128), Error>)
    requires
        old(farm).division_safety_constant > 0,
    ensures
        match merge_outcome(*old(farm), positions@) {
            Ok((principal, reward)) => {
                &&& r == Ok::<(FarmTokenAttributes, u128), Error>(
                    (
                        FarmTokenAttributes {
                            reward_per_share: old(farm).reward_per_share,
                            entering_epoch: epoch,
                            current_farm_amount: principal,
                        },
                        reward,
                    ),
                )
                &&& reward <= old(farm).reward_reserve
                &&& *final(farm) == (StorageCache {
                    reward_reserve: (old(farm).reward_reserve - reward) as u128,
                    ..*old(farm)
                })
            },
            Err(e) => r == Err::<(FarmTokenAttributes, u128), Error>(e) && *final(farm) == *old(
                farm,
            ),
        },
{
    let rps: u128 = farm.reward_per_share;
    let dsc: u128 = farm.division_safety_constant;
    let mut principal: u128 = 0;
    let mut reward: u128 = 0;
    let mut i: usize = 0;
    while i < positions.len()
        invariant
            i <= positions@.len(),
            dsc > 0,
            *farm == *old(farm),
            rps == farm.reward_per_share,
            dsc == farm.division_safety_constant,
            settlement_outcome(positions@.subrange(0, i as int), rps, dsc) == Ok::<
                (u128, u128),
                Error,
            >((principal, reward)),
        decreases positions@.len() - i,
    {
        let position = &positions[i];
        proof {
            assert(positions@.subrange(0, i + 1).drop_last() =~= positions@.subrange(0, i as int));
            assert(positions@.subrange(0, i + 1).last() == positions@[i as int]);
            if settlement_outcome(positions@.subrange(0, i + 1), rps, dsc) is Err {
                lemma_settlement_error_persists(positions@, rps, dsc, i + 1);
            }
        }
        let earned: u128 = match calculate_reward(
            position.token_amount.amount,
            rps,
            position.attributes.reward_per_share,
            dsc,
        ) {
            Ok(v) => v,
            Err(e) => {
                return Err(e);
            },
        };
        let next_principal: u128 = match checked_sum(principal, position.token_amount.amount) {
            Ok(v) => v,
            Err(e) => {
                return Err(e);
            },
        };
        let next_reward: u128 = match checked_sum(reward, earned) {
            Ok(v) => v,
            Err(e) => {
                return Err(e);
            },
        };
        principal = next_principal;
        reward = next_reward;
        i = i + 1;
    }
    assert(positions@.subrange(0, i as int) =~= positions@);
    if reward > farm.reward_reserve {
        return Err(Error::InsufficientRewardReserve);
    }
    farm.reward_reserve = farm.reward_reserve - reward;
    Ok(
        (
            FarmTokenAttributes {
                reward_per_share: rps,
                entering_epoch: epoch,
                current_farm_amount: principal,
            },
            reward,
        ),
    )
}

} // verus!
