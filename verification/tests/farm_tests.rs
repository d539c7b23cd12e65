use dex_core::claim_rewards::{
    claim_rewards, inject_reward, ClaimRewardsArgs, ClaimRewardsContext, ClaimRewardsPayments,
    ClaimRewardsTxInput,
};
use dex_core::context::Context;
use dex_core::errors::Error;
use dex_core::farm::{
    accumulate_reward, calculate_reward, merge_positions, FarmToken, FarmTokenAttributes,
    StorageCache,
};
use dex_core::types::{Address, State, TokenIdentifier, TokenPayment};

const DSC: u128 = 1_000_000_000_000;

fn token(name: &str) -> TokenIdentifier {
    TokenIdentifier::from_esdt_bytes(name.as_bytes().to_vec())
}

fn caller() -> Address {
    Address { bytes: [9u8; 32] }
}

fn farm(supply: u128, rps: u128, reserve: u128) -> StorageCache {
    StorageCache {
        contract_state: State::Active,
        farm_token_id: token("FARM-1"),
        farming_token_id: token("LP-1"),
        reward_token_id: token("MEX-1"),
        reward_per_share: rps,
        farm_token_supply: supply,
        division_safety_constant: DSC,
        reward_reserve: reserve,
    }
}

fn attrs(debt: u128, epoch: u64, amount: u128) -> FarmTokenAttributes {
    FarmTokenAttributes { reward_per_share: debt, entering_epoch: epoch, current_farm_amount: amount }
}

fn claim_input(amount: u128, debt: u128) -> ClaimRewardsTxInput {
    ClaimRewardsTxInput::with_attributes(
        ClaimRewardsArgs::new(None),
        ClaimRewardsPayments::new(TokenPayment::new(token("FARM-1"), 1, amount), Vec::new()),
        attrs(debt, 4, amount),
    )
}

#[test]
fn injection_without_stake_only_fills_the_reserve() {
    let mut f = farm(0, 123, 7);
    assert_eq!(inject_reward(&mut f, 500), Ok(()));
    assert_eq!(f.reward_per_share, 123);
    assert_eq!(f.reward_reserve, 507);
}

#[test]
fn injection_raises_reward_per_share_by_the_scaled_share() {
    let mut f = farm(3, 0, 0);
    assert_eq!(inject_reward(&mut f, 10), Ok(()));
    assert_eq!(f.reward_reserve, 10);
    assert_eq!(f.reward_per_share, 10 * DSC / 3);
    assert_eq!(f.reward_per_share, 3_333_333_333_333);
}

#[test]
fn reward_per_share_never_decreases() {
    let mut f = farm(1000, 0, 0);
    let mut last = f.reward_per_share;
    for amount in [0u128, 5, 1, 0, 1_000_000, 3] {
        inject_reward(&mut f, amount).unwrap();
        assert!(f.reward_per_share >= last);
        last = f.reward_per_share;
    }
    let before = f.reward_per_share;
    assert_eq!(inject_reward(&mut f, u128::MAX), Err(Error::Overflow));
    assert_eq!(f.reward_per_share, before);
}

#[test]
fn accumulate_and_calculate_values() {
    assert_eq!(accumulate_reward(5, 500, DSC, 0), Ok(5));
    assert_eq!(accumulate_reward(5, 500, DSC, 1000), Ok(5 + DSC / 2));
    assert_eq!(accumulate_reward(u128::MAX, 1, 1, 1), Err(Error::Overflow));
    assert_eq!(calculate_reward(1000, DSC / 2, 0, DSC), Ok(500));
    assert_eq!(calculate_reward(3, 3_333_333_333_333, 0, DSC), Ok(9));
    assert_eq!(calculate_reward(3, 5, 6, DSC), Err(Error::Overflow));
    assert_eq!(calculate_reward(u128::MAX, 2, 0, DSC), Err(Error::Overflow));
}

#[test]
fn claim_pays_the_floored_reward_and_settles_the_position() {
    let mut f = farm(3, 0, 0);
    inject_reward(&mut f, 10).unwrap();
    let (payment, new_attrs) = claim_rewards(&mut f, claim_input(3, 0), caller(), 50, 6).unwrap();
    assert_eq!(payment, TokenPayment::new(token("MEX-1"), 0, 9));
    assert_eq!(new_attrs, attrs(3_333_333_333_333, 4, 3));
    assert_eq!(f.reward_reserve, 1);
    assert_eq!(f.farm_token_supply, 3);
    let (again, _) =
        claim_rewards(&mut f, claim_input(3, new_attrs.reward_per_share), caller(), 51, 6).unwrap();
    assert_eq!(again.amount, 0);
    assert_eq!(f.reward_reserve, 1);
}

#[test]
fn rewards_of_all_positions_stay_within_the_reserve() {
    let mut f = farm(0, 0, 0);
    let mut positions: Vec<(u128, u128)> = Vec::new();
    let enter = |f: &mut StorageCache, positions: &mut Vec<(u128, u128)>, amount: u128| {
        f.farm_token_supply += amount;
        positions.push((amount, f.reward_per_share));
    };
    let pending = |f: &StorageCache, positions: &Vec<(u128, u128)>| -> u128 {
        positions
            .iter()
            .map(|(p, d)| calculate_reward(*p, f.reward_per_share, *d, DSC).unwrap())
            .sum()
    };
    inject_reward(&mut f, 500).unwrap();
    enter(&mut f, &mut positions, 7);
    inject_reward(&mut f, 100).unwrap();
    assert!(pending(&f, &positions) <= f.reward_reserve);
    enter(&mut f, &mut positions, 13);
    inject_reward(&mut f, 1).unwrap();
    inject_reward(&mut f, 999).unwrap();
    assert!(pending(&f, &positions) <= f.reward_reserve);
    let (paid, new_attrs) =
        claim_rewards(&mut f, claim_input(7, positions[0].1), caller(), 1, 1).unwrap();
    positions[0].1 = new_attrs.reward_per_share;
    // each injection floors its share per unit, so one unit of 100 + 350 is lost
    assert_eq!(paid.amount, 7 * (100 * DSC / 7 + DSC / 20 + 999 * DSC / 20) / DSC);
    assert_eq!(paid.amount, 449);
    assert!(pending(&f, &positions) <= f.reward_reserve);
    inject_reward(&mut f, 77).unwrap();
    assert!(pending(&f, &positions) <= f.reward_reserve);
}

#[test]
fn claim_beyond_the_reserve_is_rejected_loudly() {
    let mut f = farm(10, 5 * DSC, 49);
    let r = claim_rewards(&mut f, claim_input(10, 0), caller(), 1, 1);
    assert_eq!(r, Err(Error::InsufficientRewardReserve));
    assert_eq!(f.reward_reserve, 49);
    f.reward_reserve = 50;
    let (paid, _) = claim_rewards(&mut f, claim_input(10, 0), caller(), 1, 1).unwrap();
    assert_eq!(paid.amount, 50);
    assert_eq!(f.reward_reserve, 0);
}

#[test]
fn claim_with_a_debt_ahead_of_the_accumulator_fails() {
    let mut f = farm(10, 5, 100);
    let r = claim_rewards(&mut f, claim_input(10, 6), caller(), 1, 1);
    assert_eq!(r, Err(Error::Overflow));
}

#[test]
fn claim_on_an_inactive_farm_is_rejected() {
    let mut f = farm(10, 5, 100);
    f.contract_state = State::Inactive;
    let r = claim_rewards(&mut f, claim_input(10, 0), caller(), 1, 1);
    assert_eq!(r, Err(Error::InactiveContract));
}

#[test]
fn claim_with_a_wrong_payment_is_rejected() {
    let mut f = farm(10, 5, 100);
    let wrong_token = ClaimRewardsTxInput::with_attributes(
        ClaimRewardsArgs::new(None),
        ClaimRewardsPayments::new(TokenPayment::new(token("OTHER-1"), 1, 10), Vec::new()),
        attrs(0, 0, 10),
    );
    assert_eq!(claim_rewards(&mut f, wrong_token, caller(), 1, 1), Err(Error::InvalidPayment));
    let fungible = ClaimRewardsTxInput::with_attributes(
        ClaimRewardsArgs::new(None),
        ClaimRewardsPayments::new(TokenPayment::new(token("FARM-1"), 0, 10), Vec::new()),
        attrs(0, 0, 10),
    );
    assert_eq!(claim_rewards(&mut f, fungible, caller(), 1, 1), Err(Error::InvalidPayment));
    let unknown = ClaimRewardsTxInput::new(
        ClaimRewardsArgs::new(None),
        ClaimRewardsPayments::new(TokenPayment::new(token("FARM-1"), 1, 10), Vec::new()),
    );
    assert_eq!(claim_rewards(&mut f, unknown, caller(), 1, 1), Err(Error::InvalidPayment));
}

#[test]
fn accepted_payment_looks_at_every_payment() {
    let good = TokenPayment::new(token("FARM-1"), 1, 10);
    let make = |extra: Vec<TokenPayment>| {
        let tx = ClaimRewardsTxInput::new(
            ClaimRewardsArgs::new(None),
            ClaimRewardsPayments::new(good.clone(), extra),
        );
        let mut ctx = ClaimRewardsContext::new(tx, caller());
        ctx.set_farm_token_id(token("FARM-1"));
        ctx
    };
    assert!(make(vec![]).is_accepted_payment());
    assert!(make(vec![TokenPayment::new(token("FARM-1"), 2, 1)]).is_accepted_payment());
    assert!(!make(vec![
        TokenPayment::new(token("FARM-1"), 2, 1),
        TokenPayment::new(token("FARM-1"), 3, 0)
    ])
    .is_accepted_payment());
    assert!(!make(vec![TokenPayment::new(token("FARM-1"), 0, 1)]).is_accepted_payment());
    assert!(!make(vec![TokenPayment::new(token("LP-1"), 2, 1)]).is_accepted_payment());
    let mut wrong_first = make(vec![]);
    wrong_first.set_farm_token_id(token("FARM-2"));
    assert!(!wrong_first.is_accepted_payment());
}

#[test]
fn claim_context_starts_empty() {
    let tx = ClaimRewardsTxInput::new(
        ClaimRewardsArgs::new(Some(b"cb".to_vec())),
        ClaimRewardsPayments::new(TokenPayment::new(token("FARM-1"), 1, 10), Vec::new()),
    );
    assert!(tx.get_args().are_valid());
    assert!(tx.get_payments().are_valid());
    assert!(tx.is_valid());
    assert_eq!(tx.get_payments().get_first().amount, 10);
    assert_eq!(tx.get_payments().get_additional().unwrap().len(), 0);
    let ctx = ClaimRewardsContext::new(tx, caller());
    assert_eq!(*ctx.get_caller(), caller());
    assert_eq!(ctx.get_block_nonce(), 0);
    assert_eq!(ctx.get_block_epoch(), 0);
    assert_eq!(ctx.get_position_reward(), Some(&0));
    assert_eq!(ctx.get_initial_farming_amount(), Some(&0));
    assert_eq!(ctx.get_final_reward(), None);
    assert_eq!(ctx.get_output_attributes(), None);
    assert_eq!(ctx.get_input_attributes(), None);
    assert!(ctx.was_output_created_with_merge());
    assert!(ctx.get_output_payments().is_empty());
    assert_eq!(*ctx.get_opt_accept_funds_func(), Some(b"cb".to_vec()));
    assert_eq!(*ctx.get_contract_state(), State::Inactive);
    assert!(ctx.get_farm_token_id().is_egld());
    assert!(ctx.get_farming_token_id().is_egld());
    assert!(ctx.get_reward_token_id().is_egld());
    assert_eq!(*ctx.get_reward_per_share(), 0);
    assert_eq!(*ctx.get_farm_token_supply(), 0);
    assert_eq!(*ctx.get_division_safety_constant(), 0);
    assert_eq!(*ctx.get_reward_reserve(), 0);
    assert_eq!(ctx.get_storage_cache().reward_reserve, 0);
    assert_eq!(ctx.get_tx_input().get_payments().get_first().token_nonce, 1);
}

#[test]
fn claim_context_setters_stage_values() {
    let mut ctx = ClaimRewardsContext::new(claim_input(10, 0), caller());
    ctx.set_contract_state(State::Active);
    ctx.set_farm_token_id(token("FARM-1"));
    ctx.set_farming_token_id(token("LP-1"));
    ctx.set_reward_token_id(token("MEX-1"));
    ctx.set_block_nonce(11);
    ctx.set_block_epoch(12);
    ctx.set_reward_per_share(0);
    ctx.set_farm_token_supply(1000);
    ctx.set_division_safety_constant(DSC);
    ctx.set_reward_reserve(5);
    ctx.set_position_reward(3);
    ctx.set_initial_farming_amount(8);
    ctx.set_final_reward(TokenPayment::new(token("MEX-1"), 0, 3));
    ctx.set_input_attributes(attrs(99, 99, 99));
    assert_eq!(ctx.get_input_attributes(), Some(&attrs(0, 4, 10)));
    assert_eq!(ctx.get_block_nonce(), 11);
    assert_eq!(ctx.get_block_epoch(), 12);
    assert_eq!(*ctx.get_farming_token_id(), token("LP-1"));
    assert_eq!(ctx.get_final_reward().unwrap().amount, 3);
    assert_eq!(ctx.get_initial_farming_amount(), Some(&8));
    assert_eq!(ctx.increase_reward_reserve(&500), Ok(()));
    assert_eq!(*ctx.get_reward_reserve(), 505);
    assert_eq!(ctx.increase_reward_reserve(&u128::MAX), Err(Error::Overflow));
    assert_eq!(ctx.update_reward_per_share(&500), Ok(()));
    assert_eq!(*ctx.get_reward_per_share(), DSC / 2);
    assert_eq!(ctx.decrease_reward_reserve(), Ok(()));
    assert_eq!(*ctx.get_reward_reserve(), 502);
    ctx.set_position_reward(503);
    assert_eq!(ctx.decrease_reward_reserve(), Err(Error::InsufficientRewardReserve));
    assert_eq!(*ctx.get_reward_reserve(), 502);
    assert!(ctx.validate());
    assert_eq!(ctx.check(), Ok(()));
    ctx.set_output_position(
        FarmToken { token_amount: TokenPayment::new(token("FARM-1"), 2, 10), attributes: attrs(1, 2, 10) },
        false,
    );
    assert!(!ctx.was_output_created_with_merge());
    assert_eq!(ctx.get_output_attributes(), Some(&attrs(1, 2, 10)));
    assert_eq!(ctx.get_output_payments().len(), 1);
    ctx.set_output_payments(Vec::new());
    assert!(ctx.get_output_payments().is_empty());
}

#[test]
fn staged_claim_touches_the_ledger_only_on_commit() {
    let mut f = farm(10, 5 * DSC, 80);
    let mut ctx = ClaimRewardsContext::new(claim_input(10, 0), caller());
    ctx.load_state(&f, 3, 4);
    assert_eq!(ctx.inject_reward(20), Ok(()));
    assert_eq!(*ctx.get_reward_per_share(), 7 * DSC);
    let new_attrs = ctx.claim_rewards().unwrap();
    assert_eq!(new_attrs, attrs(7 * DSC, 4, 10));
    assert_eq!(ctx.get_position_reward(), Some(&70));
    assert_eq!(f.reward_reserve, 80);
    let out = ctx.commit(&mut f);
    assert_eq!(out.reward, Some(TokenPayment::new(token("MEX-1"), 0, 70)));
    assert_eq!(f.reward_reserve, 30);
    assert_eq!(f.reward_per_share, 7 * DSC);
}

#[test]
fn merge_settles_each_position_and_sums_the_principals() {
    let mut f = farm(30, 4 * DSC, 1000);
    let positions = vec![
        FarmToken { token_amount: TokenPayment::new(token("FARM-1"), 1, 10), attributes: attrs(DSC, 1, 10) },
        FarmToken { token_amount: TokenPayment::new(token("FARM-1"), 2, 20), attributes: attrs(3 * DSC + 1, 2, 20) },
    ];
    let (merged, reward) = merge_positions(&mut f, &positions, 9).unwrap();
    assert_eq!(merged, attrs(4 * DSC, 9, 30));
    assert_eq!(reward, 30 + 19);
    assert_eq!(f.reward_reserve, 1000 - 49);
    assert_eq!(calculate_reward(30, f.reward_per_share, merged.reward_per_share, DSC), Ok(0));
    let mut short = farm(30, 4 * DSC, 48);
    assert_eq!(merge_positions(&mut short, &positions, 9), Err(Error::InsufficientRewardReserve));
    assert_eq!(short.reward_reserve, 48);
    let mut empty = farm(30, 4 * DSC, 48);
    assert_eq!(merge_positions(&mut empty, &Vec::new(), 9), Ok((attrs(4 * DSC, 9, 0), 0)));
}

#[test]
fn default_cache_is_empty() {
    let c = StorageCache::default();
    assert_eq!(c.contract_state, State::Inactive);
    assert!(c.farm_token_id.is_egld());
    assert_eq!(c.reward_per_share, 0);
    assert_eq!(c.farm_token_supply, 0);
    assert_eq!(c.division_safety_constant, 0);
    assert_eq!(c.reward_reserve, 0);
}
