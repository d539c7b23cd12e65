use dex_core::add_liquidity::{
    add_liquidity, AddLiquidityArgs, AddLiquidityContext, AddLiquidityPayments,
    AddLiquidityTxInput, PairState,
};
use dex_core::context::Context;
use dex_core::errors::Error;
use dex_core::liquidity::{compute_provision, Provision};
use dex_core::math::{checked_product, checked_sum, integer_sqrt, mul_div};
use dex_core::types::{Address, State, TokenIdentifier, TokenPayment};

fn token(name: &str) -> TokenIdentifier {
    TokenIdentifier::from_esdt_bytes(name.as_bytes().to_vec())
}

fn caller() -> Address {
    Address { bytes: [7u8; 32] }
}

fn pool(first: u128, second: u128, supply: u128) -> PairState {
    let mut state = PairState::new(State::Active, token("LP-1"), token("AAA-1"), token("BBB-1"));
    state.first_reserve = first;
    state.second_reserve = second;
    state.lp_supply = supply;
    state
}

fn input(first: u128, second: u128, first_min: u128, second_min: u128) -> AddLiquidityTxInput {
    AddLiquidityTxInput::new(
        AddLiquidityArgs::new(first_min, second_min, None),
        AddLiquidityPayments::new(
            Some(TokenPayment::new(token("AAA-1"), 0, first)),
            Some(TokenPayment::new(token("BBB-1"), 0, second)),
        ),
    )
}

#[test]
fn deposit_into_unbalanced_offer_takes_the_fallback_pair() {
    let mut state = pool(1000, 2000, 1000);
    let out = add_liquidity(&mut state, input(100, 100, 50, 50), caller()).unwrap();
    assert_eq!(state.first_reserve, 1050);
    assert_eq!(state.second_reserve, 2100);
    assert_eq!(state.lp_supply, 1050);
    assert_eq!(out.len(), 3);
    assert_eq!(out[0], TokenPayment::new(token("LP-1"), 0, 50));
    assert_eq!(out[1], TokenPayment::new(token("AAA-1"), 0, 50));
    assert_eq!(out[2], TokenPayment::new(token("BBB-1"), 0, 0));
}

#[test]
fn provision_of_the_fallback_pair_is_exact() {
    assert_eq!(
        compute_provision(1000, 2000, 1000, 100, 100, 50, 50),
        Ok(Provision { first_amount: 50, second_amount: 100, liquidity: 50 })
    );
}

#[test]
fn provision_takes_first_side_whole_when_second_suffices() {
    assert_eq!(
        compute_provision(1000, 2000, 1000, 100, 500, 1, 1),
        Ok(Provision { first_amount: 100, second_amount: 200, liquidity: 100 })
    );
}

#[test]
fn provision_rounds_the_computed_side_down() {
    // 7 * 10 / 3 = 23.33.. -> 23; shares min(7*9/3, 23*9/10) = min(21, 20)
    assert_eq!(
        compute_provision(3, 10, 9, 7, 100, 1, 1),
        Ok(Provision { first_amount: 7, second_amount: 23, liquidity: 20 })
    );
}

#[test]
fn ratio_after_deposit_is_within_one_rounding_unit() {
    let (r1, r2, supply) = (3u128, 10u128, 9u128);
    let p = compute_provision(r1, r2, supply, 7, 100, 1, 1).unwrap();
    let before = (r1 + p.first_amount) * r2;
    let after = r1 * (r2 + p.second_amount);
    assert!(before >= after);
    assert!(before - after < r1);
}

#[test]
fn shares_never_exceed_the_quote_on_raw_payments() {
    let (r1, r2, supply) = (1000u128, 2000u128, 1000u128);
    for (paid1, paid2) in [(100u128, 100u128), (100, 500), (3, 7), (999, 1)] {
        if let Ok(p) = compute_provision(r1, r2, supply, paid1, paid2, 0, 0) {
            let naive = std::cmp::min(paid1 * supply / r1, paid2 * supply / r2);
            assert!(p.liquidity <= naive);
        }
    }
}

#[test]
fn first_deposit_issues_the_square_root_of_the_product() {
    let mut state = pool(0, 0, 0);
    let out = add_liquidity(&mut state, input(400, 900, 1, 1), caller()).unwrap();
    assert_eq!(state.first_reserve, 400);
    assert_eq!(state.second_reserve, 900);
    assert_eq!(state.lp_supply, 600);
    assert_eq!(out[0].amount, 600);
    assert_eq!(out[1].amount, 0);
    assert_eq!(out[2].amount, 0);
}

#[test]
fn first_deposit_floors_the_square_root() {
    assert_eq!(
        compute_provision(0, 0, 0, 2, 5, 1, 1),
        Ok(Provision { first_amount: 2, second_amount: 5, liquidity: 3 })
    );
}

#[test]
fn integer_sqrt_values() {
    assert_eq!(integer_sqrt(0), 0);
    assert_eq!(integer_sqrt(1), 1);
    assert_eq!(integer_sqrt(3), 1);
    assert_eq!(integer_sqrt(4), 2);
    assert_eq!(integer_sqrt(99), 9);
    assert_eq!(integer_sqrt(100), 10);
    assert_eq!(integer_sqrt(u128::MAX), u64::MAX as u128);
}

#[test]
fn checked_arithmetic_values() {
    assert_eq!(checked_sum(2, 3), Ok(5));
    assert_eq!(checked_sum(u128::MAX, 1), Err(Error::Overflow));
    assert_eq!(checked_product(6, 7), Ok(42));
    assert_eq!(checked_product(u128::MAX, 2), Err(Error::Overflow));
    assert_eq!(mul_div(100, 2000, 1000), Ok(200));
    assert_eq!(mul_div(7, 10, 3), Ok(23));
    assert_eq!(mul_div(u128::MAX, 2, 2), Err(Error::Overflow));
}

#[test]
fn zero_minimum_is_an_invalid_argument() {
    let mut state = pool(1000, 2000, 1000);
    let r = add_liquidity(&mut state, input(100, 100, 0, 50), caller());
    assert_eq!(r, Err(Error::InvalidArgument));
    assert_eq!(state.first_reserve, 1000);
    assert_eq!(state.second_reserve, 2000);
    assert_eq!(state.lp_supply, 1000);
}

#[test]
fn missing_payment_is_an_invalid_payment() {
    let mut state = pool(1000, 2000, 1000);
    let tx = AddLiquidityTxInput::new(
        AddLiquidityArgs::new(1, 1, None),
        AddLiquidityPayments::new(Some(TokenPayment::new(token("AAA-1"), 0, 10)), None),
    );
    assert_eq!(add_liquidity(&mut state, tx, caller()), Err(Error::InvalidPayment));
}

#[test]
fn empty_or_position_payment_is_an_invalid_payment() {
    let mut state = pool(1000, 2000, 1000);
    let tx = AddLiquidityTxInput::new(
        AddLiquidityArgs::new(1, 1, None),
        AddLiquidityPayments::new(
            Some(TokenPayment::new(token("AAA-1"), 0, 0)),
            Some(TokenPayment::new(token("BBB-1"), 0, 10)),
        ),
    );
    assert_eq!(add_liquidity(&mut state, tx, caller()), Err(Error::InvalidPayment));
    let tx = AddLiquidityTxInput::new(
        AddLiquidityArgs::new(1, 1, None),
        AddLiquidityPayments::new(
            Some(TokenPayment::new(token("AAA-1"), 0, 10)),
            Some(TokenPayment::new(token("BBB-1"), 3, 10)),
        ),
    );
    assert_eq!(add_liquidity(&mut state, tx, caller()), Err(Error::InvalidPayment));
}

#[test]
fn payment_of_another_asset_is_an_invalid_payment() {
    let mut state = pool(1000, 2000, 1000);
    let tx = AddLiquidityTxInput::new(
        AddLiquidityArgs::new(1, 1, None),
        AddLiquidityPayments::new(
            Some(TokenPayment::new(token("BBB-1"), 0, 10)),
            Some(TokenPayment::new(token("AAA-1"), 0, 10)),
        ),
    );
    assert_eq!(add_liquidity(&mut state, tx, caller()), Err(Error::InvalidPayment));
}

#[test]
fn minimum_above_payment_is_a_mismatch() {
    let mut state = pool(1000, 2000, 1000);
    let r = add_liquidity(&mut state, input(100, 100, 101, 50), caller());
    assert_eq!(r, Err(Error::ArgumentPaymentMismatch));
}

#[test]
fn inactive_contract_rejects_deposits() {
    let mut state = pool(1000, 2000, 1000);
    state.contract_state = State::Inactive;
    let r = add_liquidity(&mut state, input(100, 100, 50, 50), caller());
    assert_eq!(r, Err(Error::InactiveContract));
    state.contract_state = State::PartialActive;
    assert!(add_liquidity(&mut state, input(100, 100, 50, 50), caller()).is_ok());
}

#[test]
fn optimal_amount_below_minimum_is_slippage() {
    let mut state = pool(1000, 2000, 1000);
    let r = add_liquidity(&mut state, input(100, 100, 51, 50), caller());
    assert_eq!(r, Err(Error::SlippageExceeded));
    assert_eq!(state.first_reserve, 1000);
}

#[test]
fn zero_shares_is_insufficient_liquidity() {
    assert_eq!(
        compute_provision(1_000_000, 1_000_000, 10, 1, 1, 1, 1),
        Err(Error::InsufficientLiquidity)
    );
    assert_eq!(compute_provision(0, 0, 0, 0, 5, 0, 0), Err(Error::InsufficientLiquidity));
}

#[test]
fn products_that_do_not_fit_are_overflow() {
    assert_eq!(compute_provision(0, 0, 0, u128::MAX, 2, 1, 1), Err(Error::Overflow));
    assert_eq!(compute_provision(5, u128::MAX, 5, 2, 2, 1, 1), Err(Error::Overflow));
    assert_eq!(
        compute_provision(u128::MAX - 1, u128::MAX - 1, 1, 10, 10, 1, 1),
        Err(Error::Overflow)
    );
}

#[test]
fn context_starts_empty_and_inactive() {
    let ctx = AddLiquidityContext::new(input(1, 2, 1, 2), caller());
    assert_eq!(*ctx.get_contract_state(), State::Inactive);
    assert!(ctx.get_lp_token_id().is_egld());
    assert!(ctx.get_first_token_id().is_egld());
    assert!(ctx.get_second_token_id().is_egld());
    assert_eq!(*ctx.get_first_token_reserve(), 0);
    assert_eq!(*ctx.get_second_token_reserve(), 0);
    assert_eq!(*ctx.get_lp_token_supply(), 0);
    assert_eq!(*ctx.get_initial_k(), 0);
    assert_eq!(*ctx.get_first_amount_optimal(), 0);
    assert_eq!(*ctx.get_second_amount_optimal(), 0);
    assert_eq!(*ctx.get_liquidity_added(), 0);
    assert!(ctx.get_output_payments().is_empty());
    assert_eq!(*ctx.get_caller(), caller());
    assert_eq!(ctx.get_first_payment().amount, 1);
    assert_eq!(ctx.get_second_payment().amount, 2);
    assert_eq!(*ctx.get_first_token_amount_min(), 1);
    assert_eq!(*ctx.get_second_token_amount_min(), 2);
    assert_eq!(*ctx.get_opt_accept_funds_func(), None);
}

#[test]
fn context_setters_stage_values() {
    let mut ctx = AddLiquidityContext::new(input(10, 20, 1, 2), caller());
    ctx.set_contract_state(State::Active);
    ctx.set_lp_token_id(token("LP-1"));
    ctx.set_first_token_id(token("AAA-1"));
    ctx.set_second_token_id(token("BBB-1"));
    ctx.set_first_token_reserve(5);
    ctx.set_second_token_reserve(6);
    ctx.set_lp_token_supply(7);
    ctx.set_initial_k(30);
    ctx.set_first_amount_optimal(3);
    ctx.set_second_amount_optimal(4);
    ctx.set_liquidity_added(9);
    ctx.set_output_payments(vec![TokenPayment::new(token("LP-1"), 0, 9)]);
    assert_eq!(*ctx.get_contract_state(), State::Active);
    assert_eq!(*ctx.get_lp_token_id(), token("LP-1"));
    assert_eq!(*ctx.get_initial_k(), 30);
    assert_eq!(*ctx.get_liquidity_added(), 9);
    assert_eq!(ctx.get_output_payments().len(), 1);
    assert!(ctx.payment_tokens_match_pool_tokens());
    assert!(ctx.validate());
    assert_eq!(ctx.check(), Ok(()));
    ctx.set_contract_state(State::Inactive);
    assert!(ctx.validate());
    assert_eq!(ctx.check(), Err(Error::InactiveContract));
    assert_eq!(ctx.increase_reserves(), Ok(()));
    assert_eq!(*ctx.get_first_token_reserve(), 8);
    assert_eq!(*ctx.get_second_token_reserve(), 10);
    assert_eq!(ctx.increase_lp_token_supply(&9), Ok(()));
    assert_eq!(*ctx.get_lp_token_supply(), 16);
    assert_eq!(ctx.increase_lp_token_supply(&u128::MAX), Err(Error::Overflow));
    assert_eq!(*ctx.get_lp_token_supply(), 16);
}

#[test]
fn staged_deposit_touches_the_ledger_only_on_commit() {
    let mut state = pool(1000, 2000, 1000);
    let mut ctx = AddLiquidityContext::new(input(100, 100, 50, 50), caller());
    ctx.load_state(&state);
    assert_eq!(ctx.add_liquidity(), Ok(()));
    assert_eq!(state.first_reserve, 1000);
    assert_eq!(*ctx.get_first_amount_optimal(), 50);
    assert_eq!(*ctx.get_second_amount_optimal(), 100);
    assert_eq!(*ctx.get_liquidity_added(), 50);
    let out = ctx.commit(&mut state);
    assert_eq!(out.len(), 3);
    assert_eq!(state.first_reserve, 1050);
    assert_eq!(state.second_reserve, 2100);
    assert_eq!(state.lp_supply, 1050);
}

#[test]
fn input_parts_judge_themselves() {
    let tx = input(10, 20, 1, 2);
    assert!(tx.get_args().are_valid());
    assert!(tx.get_payments().are_valid());
    assert!(tx.is_valid());
    assert!(tx.args_match_payments());
    assert!(tx.min_leq_payment_amount(&10, &Some(TokenPayment::new(token("AAA-1"), 0, 10))));
    assert!(!tx.min_leq_payment_amount(&11, &Some(TokenPayment::new(token("AAA-1"), 0, 10))));
    assert!(!tx.min_leq_payment_amount(&0, &None));
    assert!(!tx.get_payments().is_valid_payment(&None));
    assert!(!AddLiquidityArgs::new(0, 1, None).are_valid());
    assert!(!AddLiquidityArgs::new(1, 0, None).are_valid());
}

#[test]
fn error_messages_differ() {
    assert_eq!(Error::Overflow.message(), "arithmetic overflow");
    assert_eq!(Error::ClockSkew.message(), "block index went backwards");
    assert_ne!(Error::InvalidArgument.message(), Error::InvalidPayment.message());
}

#[test]
fn token_identifiers_compare_by_content() {
    assert!(token("AAA-1").same_as(&token("AAA-1")));
    assert!(!token("AAA-1").same_as(&token("AAA-2")));
    assert!(!token("AAA-1").same_as(&token("AAA")));
    assert!(TokenIdentifier::egld().is_egld());
    assert!(!token("A").is_egld());
    assert_eq!(token("AAA-1").clone(), token("AAA-1"));
    assert!(State::Active.is_operational());
    assert!(State::PartialActive.is_operational());
    assert!(!State::Inactive.is_operational());
}

#[test]
fn lopsided_pool_keeps_the_cross_product_bound() {
    let (r1, r2, supply) = (1_000_000u128, 1u128, 1000u128);
    let p = compute_provision(r1, r2, supply, 1_999_999, 5, 1, 1).unwrap();
    assert_eq!(p, Provision { first_amount: 1_999_999, second_amount: 1, liquidity: 1000 });
    let after = (r1 + p.first_amount) * r2;
    let before = r1 * (r2 + p.second_amount);
    assert_eq!(after - before, 999_999);
    assert!(after - before < r1);
}
