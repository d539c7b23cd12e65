use crate::claim_rewards::{claim_outcome, ClaimRewardsTxInput};
use crate::errors::Error;
use crate::farm::{position_reward, reward_increase, StorageCache};
use crate::math::lemma_mul_div_bounds;
use vstd::prelude::*;

verus! {

/// A farm position as the farm's history sees it.
pub struct PositionModel {
    pub principal: nat,
    pub debt: nat,
}

/// A farm together with every position that was ever entered into it. A
/// position that has left stays in the list with no principal.
pub struct FarmModel {
    pub reward_per_share: nat,
    pub reward_reserve: nat,
    pub supply: nat,
    pub dsc: nat,
    pub positions: Seq<PositionModel>,
}

/// What can happen to a farm.
pub enum FarmEvent {
    /// Reward is injected.
    Inject { amount: nat },
    /// A new position is entered.
    Enter { principal: nat },
    /// The position at `index` claims its reward and is settled.
    Claim { index: int },
    /// The position at `index` claims its reward and withdraws.
    Exit { index: int },
    /// The positions at `first` and `second` are settled and the principal
    /// of the second is folded into the first.
    Merge { first: int, second: int },
}

/// The principal staked by all positions.
pub open spec fn staked(ps: Seq<PositionModel>) -> nat
    decreases ps.len(),
{
    if ps.len() == 0 {
        0
    } else {
        staked(ps.drop_last()) + ps.last().principal
    }
}

/// The claims of all positions before division by the scaling constant.
pub open spec fn scaled_claims(ps: Seq<PositionModel>, rps: nat) -> int
    decreases ps.len(),
{
    if ps.len() == 0 {
        0
    } else {
        scaled_claims(ps.drop_last(), rps) + ps.last().principal * (rps - ps.last().debt)
    }
}

/// The sum of the rewards that the positions could claim now.
pub open spec fn realizable_rewards(ps: Seq<PositionModel>, rps: nat, dsc: nat) -> nat
    decreases ps.len(),
{
    if ps.len() == 0 {
        0
    } else {
        realizable_rewards(ps.drop_last(), rps, dsc) + position_reward(
            ps.last().principal,
            rps,
            ps.last().debt,
            dsc,
        )
    }
}

/// No position was settled ahead of the accumulator.
pub open spec fn settled_up_to(ps: Seq<PositionModel>, rps: nat) -> bool {
    forall|i: int| 0 <= i < ps.len() ==> (#[trigger] ps[i]).debt <= rps
}

/// The reserve backs every claim: the supply is what the positions stake, no
/// position is settled ahead of the accumulator, and the claims before
/// division do not exceed the scaled reserve.
pub open spec fn backed(m: FarmModel) -> bool {
    &&& m.dsc > 0
    &&& m.supply == staked(m.positions)
    &&& settled_up_to(m.positions, m.reward_per_share)
    &&& scaled_claims(m.positions, m.reward_per_share) <= m.reward_reserve * m.dsc
}

/// A farm in which nothing has happened yet.
pub open spec fn new_farm(dsc: nat) -> FarmModel {
    FarmModel { reward_per_share: 0, reward_reserve: 0, supply: 0, dsc, positions: Seq::empty() }
}

/// The position at `index` paid out and settled, staking `principal` from
/// now on.
pub open spec fn settle(m: FarmModel, index: int, principal: nat) -> FarmModel
    recommends
        0 <= index < m.positions.len(),
{
    let p = m.positions[index];
    FarmModel {
        reward_reserve: (m.reward_reserve - position_reward(
            p.principal,
            m.reward_per_share,
            p.debt,
            m.dsc,
        )) as nat,
        supply: (m.supply - p.principal + principal) as nat,
        positions: m.positions.update(
            index,
            PositionModel { principal, debt: m.reward_per_share },
        ),
        ..m
    }
}

/// The farm after one event. An event that names no position changes
/// nothing.
pub open spec fn step(m: FarmModel, e: FarmEvent) -> FarmModel {
    match e {
        FarmEvent::Inject { amount } => FarmModel {
            reward_reserve: m.reward_reserve + amount,
            reward_per_share: m.reward_per_share + reward_increase(amount, m.dsc, m.supply),
            ..m
        },
        FarmEvent::Enter { principal } => FarmModel {
            supply: m.supply + principal,
            positions: m.positions.push(PositionModel { principal, debt: m.reward_per_share }),
            ..m
        },
        FarmEvent::Claim { index } => if 0 <= index < m.positions.len() {
            settle(m, index, m.positions[index].principal)
        } else {
            m
        },
        FarmEvent::Exit { index } => if 0 <= index < m.positions.len() {
            settle(m, index, 0)
        } else {
            m
        },
        FarmEvent::Merge { first, second } => if 0 <= first < m.positions.len() && 0 <= second
            < m.positions.len() && first != second {
            settle(
                settle(m, second, 0),
                first,
                m.positions[first].principal + m.positions[second].principal,
            )
        } else {
            m
        },
    }
}

/// The farm after a history of events.
pub open spec fn replay(m: FarmModel, events: Seq<FarmEvent>) -> FarmModel
    decreases events.len(),
{
    if events.len() == 0 {
        m
    } else {
        step(replay(m, events.drop_last()), events.last())
    }
}

proof fn lemma_staked_update(ps: Seq<PositionModel>, i: int, q: PositionModel)
    requires
        0 <= i < ps.len(),
    ensures
        staked(ps.update(i, q)) == staked(ps) - ps[i].principal + q.principal,
    decreases ps.len(),
{
    if i == ps.len() - 1 {
        assert(ps.update(i, q).drop_last() =~= ps.drop_last());
    } else {
        assert(ps.update(i, q).drop_last() =~= ps.drop_last().update(i, q));
        lemma_staked_update(ps.drop_last(), i, q);
    }
}

proof fn lemma_scaled_update(ps: Seq<PositionModel>, rps: nat, i: int, q: PositionModel)
    requires
        0 <= i < ps.len(),
    ensures
        scaled_claims(ps.update(i, q), rps) == scaled_claims(ps, rps) - ps[i].principal * (rps
            - ps[i].debt) + q.principal * (rps - q.debt),
    decreases ps.len(),
{
    if i == ps.len() - 1 {
        assert(ps.update(i, q).drop_last() =~= ps.drop_last());
    } else {
        assert(ps.update(i, q).drop_last() =~= ps.drop_last().update(i, q));
        lemma_scaled_update(ps.drop_last(), rps, i, q);
    }
}

proof fn lemma_scaled_shift(ps: Seq<PositionModel>, rps: nat, delta: nat)
    ensures
        scaled_claims(ps, rps + delta) == scaled_claims(ps, rps) + delta * staked(ps),
    decreases ps.len(),
{
    if ps.len() == 0 {
        assert(delta * 0 == 0) by (nonlinear_arith);
    } else {
        lemma_scaled_shift(ps.drop_last(), rps, delta);
        let p = ps.last().principal;
        let d = ps.last().debt;
        let rest = staked(ps.drop_last());
        assert(p * (rps + delta - d) + delta * rest == p * (rps - d) + delta * (rest + p))
            by (nonlinear_arith);
    }
}

proof fn lemma_settled_prefix(ps: Seq<PositionModel>, rps: nat)
    requires
        settled_up_to(ps, rps),
        ps.len() > 0,
    ensures
        settled_up_to(ps.drop_last(), rps),
        ps.last().debt <= rps,
        ps.last().principal * (rps - ps.last().debt) >= 0,
{
    let p = ps.last().principal;
    let d = ps.last().debt;
    assert(ps.last() == ps[ps.len() - 1]);
    assert(p * (rps - d) >= 0) by (nonlinear_arith)
        requires
            d <= rps,
    ;
    assert forall|j: int| 0 <= j < ps.drop_last().len() implies (#[trigger] ps.drop_last()[j]).debt
        <= rps by {
        assert(ps.drop_last()[j] == ps[j]);
    }
}

proof fn lemma_scaled_nonnegative(ps: Seq<PositionModel>, rps: nat)
    requires
        settled_up_to(ps, rps),
    ensures
        0 <= scaled_claims(ps, rps),
    decreases ps.len(),
{
    if ps.len() > 0 {
        lemma_settled_prefix(ps, rps);
        lemma_scaled_nonnegative(ps.drop_last(), rps);
    }
}

proof fn lemma_scaled_covers_each(ps: Seq<PositionModel>, rps: nat, i: int)
    requires
        settled_up_to(ps, rps),
        0 <= i < ps.len(),
    ensures
        ps[i].principal * (rps - ps[i].debt) <= scaled_claims(ps, rps),
    decreases ps.len(),
{
    lemma_settled_prefix(ps, rps);
    lemma_scaled_nonnegative(ps.drop_last(), rps);
    if i < ps.len() - 1 {
        lemma_scaled_covers_each(ps.drop_last(), rps, i);
        assert(ps.drop_last()[i] == ps[i]);
    }
}

/// The rewards that the positions can claim, scaled up again, stay within
/// their claims before division.
pub proof fn lemma_realizable_within_scaled(ps: Seq<PositionModel>, rps: nat, dsc: nat)
    requires
        dsc > 0,
        settled_up_to(ps, rps),
    ensures
        realizable_rewards(ps, rps, dsc) * dsc <= scaled_claims(ps, rps),
    decreases ps.len(),
{
    if ps.len() == 0 {
        assert(0 * dsc == 0) by (nonlinear_arith);
    } else {
        let p = ps.last().principal;
        let d = ps.last().debt;
        lemma_settled_prefix(ps, rps);
        lemma_realizable_within_scaled(ps.drop_last(), rps, dsc);
        lemma_mul_div_bounds(p, (rps - d) as nat, dsc);
        let rest = realizable_rewards(ps.drop_last(), rps, dsc);
        let reward = position_reward(p, rps, d, dsc);
        assert((rest + reward) * dsc == rest * dsc + reward * dsc) by (nonlinear_arith);
    }
}

/// Settling a position of a backed farm pays a reward that the reserve
/// holds and leaves the farm backed, whatever principal the position stakes
/// afterwards.
pub proof fn lemma_settle_keeps_backed(m: FarmModel, index: int, principal: nat)
    requires
        backed(m),
        0 <= index < m.positions.len(),
    ensures
        position_reward(
            m.positions[index].principal,
            m.reward_per_share,
            m.positions[index].debt,
            m.dsc,
        ) <= m.reward_reserve,
        backed(settle(m, index, principal)),
        settle(m, index, principal).positions.len() == m.positions.len(),
{
    let p = m.positions[index];
    let rps = m.reward_per_share;
    let reward = position_reward(p.principal, rps, p.debt, m.dsc);
    let q = PositionModel { principal, debt: rps };
    let after = settle(m, index, principal);
    lemma_mul_div_bounds(p.principal, (rps - p.debt) as nat, m.dsc);
    lemma_scaled_covers_each(m.positions, rps, index);
    lemma_scaled_update(m.positions, rps, index, q);
    lemma_staked_update(m.positions, index, q);
    let claim = p.principal * (rps - p.debt);
    assert(reward * m.dsc <= claim) by (nonlinear_arith)
        requires
            reward * m.dsc <= p.principal * ((rps - p.debt) as nat),
            p.debt <= rps,
            claim == p.principal * (rps - p.debt),
    ;
    assert(reward <= m.reward_reserve) by (nonlinear_arith)
        requires
            reward * m.dsc <= m.reward_reserve * m.dsc,
            m.dsc > 0,
    ;
    assert(q.principal * (rps - q.debt) == 0) by (nonlinear_arith)
        requires
            q.debt == rps,
    ;
    assert((m.reward_reserve - reward) * m.dsc == m.reward_reserve * m.dsc - reward * m.dsc)
        by (nonlinear_arith);
    assert(staked(m.positions) >= p.principal) by {
        lemma_staked_covers_each(m.positions, index);
    }
    assert forall|j: int| 0 <= j < after.positions.len() implies (#[trigger] after.positions[j]).debt
        <= rps by {
        if j != index {
            assert(after.positions[j] == m.positions[j]);
        }
    }
}

proof fn lemma_staked_covers_each(ps: Seq<PositionModel>, i: int)
    requires
        0 <= i < ps.len(),
    ensures
        ps[i].principal <= staked(ps),
    decreases ps.len(),
{
    if i < ps.len() - 1 {
        lemma_staked_covers_each(ps.drop_last(), i);
        assert(ps.drop_last()[i] == ps[i]);
    }
}

/// Every event leaves a backed farm backed, and never lowers its reward per
/// share.
pub proof fn lemma_step_keeps_backed(m: FarmModel, e: FarmEvent)
    requires
        backed(m),
    ensures
        backed(step(m, e)),
        step(m, e).reward_per_share >= m.reward_per_share,
        step(m, e).dsc == m.dsc,
{
    let rps = m.reward_per_share;
    match e {
        FarmEvent::Inject { amount } => {
            let delta = reward_increase(amount, m.dsc, m.supply);
            lemma_scaled_shift(m.positions, rps, delta);
            if m.supply > 0 {
                lemma_mul_div_bounds(amount, m.dsc, m.supply);
            }
            assert(delta * m.supply <= amount * m.dsc) by (nonlinear_arith)
                requires
                    m.supply == 0 || delta * m.supply <= amount * m.dsc,
            ;
            assert((m.reward_reserve + amount) * m.dsc == m.reward_reserve * m.dsc + amount
                * m.dsc) by (nonlinear_arith);
        },
        FarmEvent::Enter { principal } => {
            let q = PositionModel { principal, debt: rps };
            assert(m.positions.push(q).drop_last() =~= m.positions);
            assert(principal * (rps - rps) == 0) by (nonlinear_arith);
        },
        FarmEvent::Claim { index } => {
            if 0 <= index < m.positions.len() {
                lemma_settle_keeps_backed(m, index, m.positions[index].principal);
            }
        },
        FarmEvent::Exit { index } => {
            if 0 <= index < m.positions.len() {
                lemma_settle_keeps_backed(m, index, 0);
            }
        },
        FarmEvent::Merge { first, second } => {
            if 0 <= first < m.positions.len() && 0 <= second < m.positions.len() && first
                != second {
                lemma_settle_keeps_backed(m, second, 0);
                lemma_settle_keeps_backed(
                    settle(m, second, 0),
                    first,
                    m.positions[first].principal + m.positions[second].principal,
                );
            }
        },
    }
}

/// Conservation: at every point of every history that starts from a new
/// farm, the farm is backed, and the rewards that all its positions could
/// claim together do not exceed the reward reserve. In particular no claim
/// in such a history finds the reserve short.
pub proof fn lemma_rewards_never_exceed_reserve(dsc: nat, events: Seq<FarmEvent>)
    requires
        dsc > 0,
    ensures
        backed(replay(new_farm(dsc), events)),
        replay(new_farm(dsc), events).dsc == dsc,
        realizable_rewards(
            replay(new_farm(dsc), events).positions,
            replay(new_farm(dsc), events).reward_per_share,
            dsc,
        ) <= replay(new_farm(dsc), events).reward_reserve,
    decreases events.len(),
{
    let m = replay(new_farm(dsc), events);
    if events.len() == 0 {
        assert(0 * dsc == 0) by (nonlinear_arith);
    } else {
        lemma_rewards_never_exceed_reserve(dsc, events.drop_last());
        lemma_step_keeps_backed(replay(new_farm(dsc), events.drop_last()), events.last());
    }
    lemma_realizable_within_scaled(m.positions, m.reward_per_share, dsc);
    let total = realizable_rewards(m.positions, m.reward_per_share, dsc);
    assert(total <= m.reward_reserve) by (nonlinear_arith)
        requires
            total * dsc <= m.reward_reserve * dsc,
            dsc > 0,
    ;
}

/// The reward per share never decreases along a history.
pub proof fn lemma_history_never_lowers_reward_per_share(m: FarmModel, events: Seq<FarmEvent>)
    requires
        backed(m),
    ensures
        backed(replay(m, events)),
        replay(m, events).reward_per_share >= m.reward_per_share,
    decreases events.len(),
{
    if events.len() > 0 {
        lemma_history_never_lowers_reward_per_share(m, events.drop_last());
        lemma_step_keeps_backed(replay(m, events.drop_last()), events.last());
    }
}

/// A claim by a position of a backed farm is never rejected for want of
/// reserve: where the ledger holds the farm's accumulator, reserve and
/// scaling constant and the input carries one of its positions, the claim
/// does not end in `InsufficientRewardReserve`.
pub proof fn lemma_claim_in_backed_farm_is_covered(
    m: FarmModel,
    index: int,
    cache: StorageCache,
    tx_input: ClaimRewardsTxInput,
)
    requires
        backed(m),
        0 <= index < m.positions.len(),
        cache.reward_per_share == m.reward_per_share,
        cache.reward_reserve == m.reward_reserve,
        cache.division_safety_constant == m.dsc,
        tx_input.attributes is Some,
        tx_input.attributes->Some_0.reward_per_share == m.positions[index].debt,
        tx_input.payments.first_payment.amount == m.positions[index].principal,
    ensures
        claim_outcome(cache, tx_input) != Err::<u128, Error>(Error::InsufficientRewardReserve),
{
    lemma_settle_keeps_backed(m, index, 0);
}

} // verus!
