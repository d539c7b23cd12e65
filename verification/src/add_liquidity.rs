use crate::context::Context;
use crate::errors::Error;
use crate::liquidity::{
    compute_provision, lemma_provision_keeps_pool_wf, pool_wf, provision_outcome, Provision,
};
use crate::types::{payment_views, Address, PaymentView, State, TokenIdentifier, TokenPayment};
use vstd::prelude::*;

verus! {

/// The ledger of one pool: its two reserves, the shares issued against them,
/// the identifiers of the three assets and the state that gates operations.
pub struct PairState {
    pub contract_state: State,
    pub lp_token_id: TokenIdentifier,
    pub first_token_id: TokenIdentifier,
    pub second_token_id: TokenIdentifier,
    pub first_reserve: u128,
    pub second_reserve: u128,
    pub lp_supply: u128,
}

impl PairState {
    /// The pool is either empty in both reserves and in shares, or in none.
    pub open spec fn wf(&self) -> bool {
        pool_wf(self.first_reserve, self.second_reserve, self.lp_supply)
    }

    /// An empty pool over the given assets.
    pub fn new(
        contract_state: State,
        lp_token_id: TokenIdentifier,
        first_token_id: TokenIdentifier,
        second_token_id: TokenIdentifier,
    ) -> (s: Self)
        ensures
            s.wf(),
            s.contract_state == contract_state,
            s.lp_token_id == lp_token_id,
            s.first_token_id == first_token_id,
            s.second_token_id == second_token_id,
            s.first_reserve == 0,
            s.second_reserve == 0,
            s.lp_supply == 0,
    {
        PairState {
            contract_state,
            lp_token_id,
            first_token_id,
            second_token_id,
            first_reserve: 0,
            second_reserve: 0,
            lp_supply: 0,
        }
    }
}

/// The arguments of a deposit: the least amount of each asset that the caller
/// accepts to have consumed, and an optional callback name that is carried
/// through.
pub struct AddLiquidityArgs {
    pub first_token_amount_min: u128,
    pub second_token_amount_min: u128,
    pub opt_accept_funds_func: Option<Vec<u8>>,
}

/// The two payments of a deposit.
pub struct AddLiquidityPayments {
    pub first_payment: Option<TokenPayment>,
    pub second_payment: Option<TokenPayment>,
}

/// The input of a deposit: its arguments and its payments.
pub struct AddLiquidityTxInput {
    pub args: AddLiquidityArgs,
    pub payments: AddLiquidityPayments,
}

/// The context of one deposit: the caller, the input, a staged copy of the
/// pool's ledger and the staged results.
pub struct AddLiquidityContext {
    pub caller: Address,
    pub tx_input: AddLiquidityTxInput,
    pub contract_state: State,
    pub lp_token_id: TokenIdentifier,
    pub first_token_id: TokenIdentifier,
    pub second_token_id: TokenIdentifier,
    pub first_token_reserve: u128,
    pub second_token_reserve: u128,
    pub lp_token_supply: u128,
    pub initial_k: u128,
    pub first_token_optimal: u128,
    pub second_token_optimal: u128,
    pub liquidity_added: u128,
    pub output_payments: Vec<TokenPayment>,
}

/// A payment is present, not empty, and of a fungible asset.
pub open spec fn is_fungible_payment(payment: Option<TokenPayment>) -> bool {
    payment is Some && payment->Some_0.amount != 0 && payment->Some_0.token_nonce == 0
}

/// A payment is present and covers the stated minimum.
pub open spec fn covers_minimum(min: u128, payment: Option<TokenPayment>) -> bool {
    payment is Some && min <= payment->Some_0.amount
}

/// A payment is present and of the asset whose identifier has the bytes
/// `token_id`.
pub open spec fn is_payment_of(token_id: Seq<u8>, payment: Option<TokenPayment>) -> bool {
    payment is Some && token_id == payment->Some_0.token_identifier@
}

/// The error with which a deposit is rejected before anything is computed,
/// if it is: the first of zero minimums, malformed payments, a minimum above
/// its payment, a contract that is not operational, and payments of assets
/// other than the pool's.
pub open spec fn deposit_rejection(
    contract_state: State,
    first_token_id: Seq<u8>,
    second_token_id: Seq<u8>,
    tx_input: AddLiquidityTxInput,
) -> Option<Error> {
    if !tx_input.args.valid() {
        Some(Error::InvalidArgument)
    } else if !tx_input.payments.valid() {
        Some(Error::InvalidPayment)
    } else if !tx_input.consistent() {
        Some(Error::ArgumentPaymentMismatch)
    } else if !contract_state.permits_operations() {
        Some(Error::InactiveContract)
    } else if !(is_payment_of(first_token_id, tx_input.payments.first_payment) && is_payment_of(
        second_token_id,
        tx_input.payments.second_payment,
    )) {
        Some(Error::InvalidPayment)
    } else {
        None
    }
}

/// The outcome of a deposit against a ledger with the given contract state,
/// asset identifiers, reserves and share supply.
pub open spec fn deposit_outcome(
    contract_state: State,
    first_token_id: Seq<u8>,
    second_token_id: Seq<u8>,
    first_reserve: u128,
    second_reserve: u128,
    lp_supply: u128,
    tx_input: AddLiquidityTxInput,
) -> Result<Provision, Error> {
    match deposit_rejection(contract_state, first_token_id, second_token_id, tx_input) {
        Some(e) => Err(e),
        None => provision_outcome(
            first_reserve,
            second_reserve,
            lp_supply,
            tx_input.payments.first_payment->Some_0.amount,
            tx_input.payments.second_payment->Some_0.amount,
            tx_input.args.first_token_amount_min,
            tx_input.args.second_token_amount_min,
        ),
    }
}

/// What an accepted deposit hands back: the shares issued, then what is left
/// of each payment after the optimal amount was consumed.
pub open spec fn deposit_outputs(
    lp_token_id: Seq<u8>,
    first_token_id: Seq<u8>,
    second_token_id: Seq<u8>,
    tx_input: AddLiquidityTxInput,
    p: Provision,
) -> Seq<PaymentView> {
    seq![
        PaymentView { token: lp_token_id, nonce: 0, amount: p.liquidity },
        PaymentView {
            token: first_token_id,
            nonce: 0,
            amount: (tx_input.payments.first_payment->Some_0.amount - p.first_amount) as u128,
        },
        PaymentView {
            token: second_token_id,
            nonce: 0,
            amount: (tx_input.payments.second_payment->Some_0.amount - p.second_amount) as u128,
        },
    ]
}

impl AddLiquidityArgs {
    /// Puts the parts together.
    pub fn new(
        first_token_amount_min: u128,
        second_token_amount_min: u128,
        opt_accept_funds_func: Option<Vec<u8>>,
    ) -> (r: Self)
        ensures
            r.first_token_amount_min == first_token_amount_min,
            r.second_token_amount_min == second_token_amount_min,
            r.opt_accept_funds_func == opt_accept_funds_func,
    {
        AddLiquidityArgs { first_token_amount_min, second_token_amount_min, opt_accept_funds_func }
    }

    /// Both minimums are non-zero.
    pub open spec fn valid(&self) -> bool {
        self.first_token_amount_min != 0 && self.second_token_amount_min != 0
    }

    /// Whether this part of the input is well formed in itself.
    pub fn are_valid(&self) -> (r: bool)
        ensures
            r == self.valid(),
    {
        self.first_token_amount_min != 0 && self.second_token_amount_min != 0
    }
}

impl AddLiquidityPayments {
    /// Puts the parts together.
    pub fn new(first_payment: Option<TokenPayment>, second_payment: Option<TokenPayment>) -> (r:
        Self)
        ensures
            r.first_payment == first_payment,
            r.second_payment == second_payment,
    {
        AddLiquidityPayments { first_payment, second_payment }
    }

    /// Both payments are present, non-empty and fungible.
    pub open spec fn valid(&self) -> bool {
        is_fungible_payment(self.first_payment) && is_fungible_payment(self.second_payment)
    }

    /// Whether this part of the input is well formed in itself.
    pub fn are_valid(&self) -> (r: bool)
        ensures
            r == self.valid(),
    {
        self.is_valid_payment(&self.first_payment) && self.is_valid_payment(&self.second_payment)
    }

    /// Whether a payment is present, not empty and fungible.
    pub fn is_valid_payment(&self, payment_opt: &Option<TokenPayment>) -> (r: bool)
        ensures
            r == is_fungible_payment(*payment_opt),
    {
        match payment_opt {
            Some(payment) => payment.amount != 0 && payment.token_nonce == 0,
            None => false,
        }
    }
}

impl AddLiquidityTxInput {
    /// Puts the parts together.
    pub fn new(args: AddLiquidityArgs, payments: AddLiquidityPayments) -> (r: Self)
        ensures
            r.args == args,
            r.payments == payments,
    {
        AddLiquidityTxInput { args, payments }
    }

    /// The arguments of the input.
    pub fn get_args(&self) -> (r: &AddLiquidityArgs)
        ensures
            *r == self.args,
    {
        &self.args
    }

    /// The payments of the input.
    pub fn get_payments(&self) -> (r: &AddLiquidityPayments)
        ensures
            *r == self.payments,
    {
        &self.payments
    }

    /// Each payment is present and covers its stated minimum.
    pub open spec fn consistent(&self) -> bool {
        covers_minimum(self.args.first_token_amount_min, self.payments.first_payment)
            && covers_minimum(self.args.second_token_amount_min, self.payments.second_payment)
    }

    /// Whether the arguments agree with the payments.
    pub fn is_valid(&self) -> (r: bool)
        ensures
            r == self.consistent(),
    {
        self.args_match_payments()
    }

    /// Whether each payment is present and covers its stated minimum.
    pub fn args_match_payments(&self) -> (r: bool)
        ensures
            r == self.consistent(),
    {
        self.min_leq_payment_amount(
            &self.args.first_token_amount_min,
            &self.payments.first_payment,
        ) && self.min_leq_payment_amount(
            &self.args.second_token_amount_min,
            &self.payments.second_payment,
        )
    }

    /// Whether a payment is present and at least `min`.
    pub fn min_leq_payment_amount(&self, min: &u128, payment_opt: &Option<TokenPayment>) -> (r:
        bool)
        ensures
            r == covers_minimum(*min, *payment_opt),
    {
        match payment_opt {
            Some(payment) => *min <= payment.amount,
            None => false,
        }
    }
}

impl AddLiquidityContext {
    /// A context for `tx_input` sent by `caller`, with an empty staged ledger:
    /// inactive, the native asset in all three identifiers, every amount
    /// zero, and no output.
    pub fn new(tx_input: AddLiquidityTxInput, caller: Address) -> (r: Self)
        ensures
            r.caller == caller,
            r.tx_input == tx_input,
            r.contract_state == State::Inactive,
            r.lp_token_id@.len() == 0,
            r.first_token_id@.len() == 0,
            r.second_token_id@.len() == 0,
            r.first_token_reserve == 0,
            r.second_token_reserve == 0,
            r.lp_token_supply == 0,
            r.initial_k == 0,
            r.first_token_optimal == 0,
            r.second_token_optimal == 0,
            r.liquidity_added == 0,
            r.output_payments@.len() == 0,
    {
        AddLiquidityContext {
            caller,
            tx_input,
            contract_state: State::Inactive,
            lp_token_id: TokenIdentifier::egld(),
            first_token_id: TokenIdentifier::egld(),
            second_token_id: TokenIdentifier::egld(),
            first_token_reserve: 0,
            second_token_reserve: 0,
            lp_token_supply: 0,
            initial_k: 0,
            first_token_optimal: 0,
            second_token_optimal: 0,
            liquidity_added: 0,
            output_payments: Vec::new(),
        }
    }

    /// Stages the contract state.
    pub fn set_contract_state(&mut self, value: State)
        ensures
            *final(self) == (AddLiquidityContext { contract_state: value, ..*old(self) }),
    {
        self.contract_state = value;
    }

    /// The staged contract state.
    pub fn get_contract_state(&self) -> (r: &State)
        ensures
            *r == self.contract_state,
    {
        &self.contract_state
    }

    /// Stages the share token identifier.
    pub fn set_lp_token_id(&mut self, value: TokenIdentifier)
        ensures
            *final(self) == (AddLiquidityContext { lp_token_id: value, ..*old(self) }),
    {
        self.lp_token_id = value;
    }

    /// The staged share token identifier.
    pub fn get_lp_token_id(&self) -> (r: &TokenIdentifier)
        ensures
            *r == self.lp_token_id,
    {
        &self.lp_token_id
    }

    /// Stages the first token identifier.
    pub fn set_first_token_id(&mut self, value: TokenIdentifier)
        ensures
            *final(self) == (AddLiquidityContext { first_token_id: value, ..*old(self) }),
    {
        self.first_token_id = value;
    }

    /// The staged first token identifier.
    pub fn get_first_token_id(&self) -> (r: &TokenIdentifier)
        ensures
            *r == self.first_token_id,
    {
        &self.first_token_id
    }

    /// Stages the second token identifier.
    pub fn set_second_token_id(&mut self, value: TokenIdentifier)
        ensures
            *final(self) == (AddLiquidityContext { second_token_id: value, ..*old(self) }),
    {
        self.second_token_id = value;
    }

    /// The staged second token identifier.
    pub fn get_second_token_id(&self) -> (r: &TokenIdentifier)
        ensures
            *r == self.second_token_id,
    {
        &self.second_token_id
    }

    /// Stages the first token reserve.
    pub fn set_first_token_reserve(&mut self, amount: u128)
        ensures
            *final(self) == (AddLiquidityContext { first_token_reserve: amount, ..*old(self) }),
    {
        self.first_token_reserve = amount;
    }

    /// The staged first token reserve.
    pub fn get_first_token_reserve(&self) -> (r: &u128)
        ensures
            *r == self.first_token_reserve,
    {
        &self.first_token_reserve
    }

    /// Stages the second token reserve.
    pub fn set_second_token_reserve(&mut self, amount: u128)
        ensures
            *final(self) == (AddLiquidityContext { second_token_reserve: amount, ..*old(self) }),
    {
        self.second_token_reserve = amount;
    }

    /// The staged second token reserve.
    pub fn get_second_token_reserve(&self) -> (r: &u128)
        ensures
            *r == self.second_token_reserve,
    {
        &self.second_token_reserve
    }

    /// Stages the share token supply.
    pub fn set_lp_token_supply(&mut self, amount: u128)
        ensures
            *final(self) == (AddLiquidityContext { lp_token_supply: amount, ..*old(self) }),
    {
        self.lp_token_supply = amount;
    }

    /// The staged share token supply.
    pub fn get_lp_token_supply(&self) -> (r: &u128)
        ensures
            *r == self.lp_token_supply,
    {
        &self.lp_token_supply
    }

    /// Stages the product of the reserves before the operation.
    pub fn set_initial_k(&mut self, amount: u128)
        ensures
            *final(self) == (AddLiquidityContext { initial_k: amount, ..*old(self) }),
    {
        self.initial_k = amount;
    }

    /// The staged product of the reserves before the operation.
    pub fn get_initial_k(&self) -> (r: &u128)
        ensures
            *r == self.initial_k,
    {
        &self.initial_k
    }

    /// Who sent the operation.
    pub fn get_caller(&self) -> (r: &Address)
        ensures
            *r == self.caller,
    {
        &self.caller
    }

    /// The input of the operation.
    pub fn get_tx_input(&self) -> (r: &AddLiquidityTxInput)
        ensures
            *r == self.tx_input,
    {
        &self.tx_input
    }

    /// Each payment is present and of the pool's asset on its side.
    pub open spec fn tokens_match(&self) -> bool {
        is_payment_of(self.first_token_id@, self.tx_input.payments.first_payment) && is_payment_of(
            self.second_token_id@,
            self.tx_input.payments.second_payment,
        )
    }

    /// Whether each payment is of the pool's asset on its side.
    pub fn payment_tokens_match_pool_tokens(&self) -> (r: bool)
        ensures
            r == self.tokens_match(),
    {
        self.payment_token_match_pool_token(
            &self.first_token_id,
            &self.tx_input.payments.first_payment,
        ) && self.payment_token_match_pool_token(
            &self.second_token_id,
            &self.tx_input.payments.second_payment,
        )
    }

    /// Whether a payment is present and of the asset `token_id`.
    pub fn payment_token_match_pool_token(
        &self,
        token_id: &TokenIdentifier,
        payment_opt: &Option<TokenPayment>,
    ) -> (r: bool)
        ensures
            r == is_payment_of(token_id@, *payment_opt),
    {
        match payment_opt {
            Some(payment) => token_id.same_as(&payment.token_identifier),
            None => false,
        }
    }

    /// The payment of the first asset, which must be present.
    pub fn get_first_payment(&self) -> (r: &TokenPayment)
        requires
            self.tx_input.payments.first_payment is Some,
        ensures
            *r == self.tx_input.payments.first_payment->Some_0,
    {
        self.tx_input.payments.first_payment.as_ref().unwrap()
    }

    /// The payment of the second asset, which must be present.
    pub fn get_second_payment(&self) -> (r: &TokenPayment)
        requires
            self.tx_input.payments.second_payment is Some,
        ensures
            *r == self.tx_input.payments.second_payment->Some_0,
    {
        self.tx_input.payments.second_payment.as_ref().unwrap()
    }

    /// Stages the liquidity added.
    pub fn set_liquidity_added(&mut self, amount: u128)
        ensures
            *final(self) == (AddLiquidityContext { liquidity_added: amount, ..*old(self) }),
    {
        self.liquidity_added = amount;
    }

    /// The staged liquidity added.
    pub fn get_liquidity_added(&self) -> (r: &u128)
        ensures
            *r == self.liquidity_added,
    {
        &self.liquidity_added
    }

    /// Adds `amount` to the staged share supply, or fails with `Overflow` and
    /// changes nothing.
    pub fn increase_lp_token_supply(&mut self, amount: &u128) -> (r: Result<(), Error>)
        ensures
            old(self).lp_token_supply + *amount <= u128::MAX ==> r is Ok && *final(self) == (
            AddLiquidityContext {
                lp_token_supply: (old(self).lp_token_supply + *amount) as u128,
                ..*old(self)
            }),
            old(self).lp_token_supply + *amount > u128::MAX ==> r == Err::<(), Error>(
                Error::Overflow,
            ) && *final(self) == *old(self),
    {
        match self.lp_token_supply.checked_add(*amount) {
            Some(v) => {
                self.lp_token_supply = v;
                Ok(())
            },
            None => Err(Error::Overflow),
        }
    }

    /// Adds the staged optimal amounts to the staged reserves, or fails with
    /// `Overflow` and changes nothing.
    pub fn increase_reserves(&mut self) -> (r: Result<(), Error>)
        ensures
            old(self).first_token_reserve + old(self).first_token_optimal <= u128::MAX && old(
                self,
            ).second_token_reserve + old(self).second_token_optimal <= u128::MAX ==> r is Ok
                && *final(self) == (AddLiquidityContext {
                first_token_reserve: (old(self).first_token_reserve + old(
                    self,
                ).first_token_optimal) as u128,
                second_token_reserve: (old(self).second_token_reserve + old(
                    self,
                ).second_token_optimal) as u128,
                ..*old(self)
            }),
            old(self).first_token_reserve + old(self).first_token_optimal > u128::MAX || old(
                self,
            ).second_token_reserve + old(self).second_token_optimal > u128::MAX ==> r == Err::<
                (),
                Error,
            >(Error::Overflow) && *final(self) == *old(self),
    {
        let first: u128 = match self.first_token_reserve.checked_add(self.first_token_optimal) {
            Some(v) => v,
            None => {
                return Err(Error::Overflow);
            },
        };
        let second: u128 = match self.second_token_reserve.checked_add(self.second_token_optimal) {
            Some(v) => v,
            None => {
                return Err(Error::Overflow);
            },
        };
        self.first_token_reserve = first;
        self.second_token_reserve = second;
        Ok(())
    }

    /// Stages the optimal amount of the first asset.
    pub fn set_first_amount_optimal(&mut self, amount: u128)
        ensures
            *final(self) == (AddLiquidityContext { first_token_optimal: amount, ..*old(self) }),
    {
        self.first_token_optimal = amount;
    }

    /// The staged optimal amount of the first asset.
    pub fn get_first_amount_optimal(&self) -> (r: &u128)
        ensures
            *r == self.first_token_optimal,
    {
        &self.first_token_optimal
    }

    /// Stages the optimal amount of the second asset.
    pub fn set_second_amount_optimal(&mut self, amount: u128)
        ensures
            *final(self) == (AddLiquidityContext { second_token_optimal: amount, ..*old(self) }),
    {
        self.second_token_optimal = amount;
    }

    /// The staged optimal amount of the second asset.
    pub fn get_second_amount_optimal(&self) -> (r: &u128)
        ensures
            *r == self.second_token_optimal,
    {
        &self.second_token_optimal
    }

    /// The least amount of the first asset that the caller accepts.
    pub fn get_first_token_amount_min(&self) -> (r: &u128)
        ensures
            *r == self.tx_input.args.first_token_amount_min,
    {
        &self.tx_input.args.first_token_amount_min
    }

    /// The least amount of the second asset that the caller accepts.
    pub fn get_second_token_amount_min(&self) -> (r: &u128)
        ensures
            *r == self.tx_input.args.second_token_amount_min,
    {
        &self.tx_input.args.second_token_amount_min
    }

    /// Stages the output payments.
    pub fn set_output_payments(&mut self, payments: Vec<TokenPayment>)
        ensures
            *final(self) == (AddLiquidityContext { output_payments: payments, ..*old(self) }),
    {
        self.output_payments = payments;
    }

    /// The staged output payments.
    pub fn get_output_payments(&self) -> (r: &Vec<TokenPayment>)
        ensures
            *r == self.output_payments,
    {
        &self.output_payments
    }

    /// The callback name that the caller asked for, if any.
    pub fn get_opt_accept_funds_func(&self) -> (r: &Option<Vec<u8>>)
        ensures
            *r == self.tx_input.args.opt_accept_funds_func,
    {
        &self.tx_input.args.opt_accept_funds_func
    }
}

impl AddLiquidityContext {
    /// The staged pool is either empty in both reserves and in shares, or in
    /// none.
    pub open spec fn pool_wf(&self) -> bool {
        pool_wf(self.first_token_reserve, self.second_token_reserve, self.lp_token_supply)
    }

    /// The outcome of this context's deposit against its staged ledger.
    pub open spec fn outcome(&self) -> Result<Provision, Error> {
        deposit_outcome(
            self.contract_state,
            self.first_token_id@,
            self.second_token_id@,
            self.first_token_reserve,
            self.second_token_reserve,
            self.lp_token_supply,
            self.tx_input,
        )
    }

    /// Copies the ledger into the staged fields.
    pub fn load_state(&mut self, state: &PairState)
        ensures
            final(self).contract_state == state.contract_state,
            final(self).lp_token_id@ == state.lp_token_id@,
            final(self).first_token_id@ == state.first_token_id@,
            final(self).second_token_id@ == state.second_token_id@,
            final(self).first_token_reserve == state.first_reserve,
            final(self).second_token_reserve == state.second_reserve,
            final(self).lp_token_supply == state.lp_supply,
            final(self).caller == old(self).caller,
            final(self).tx_input == old(self).tx_input,
            final(self).initial_k == old(self).initial_k,
            final(self).first_token_optimal == old(self).first_token_optimal,
            final(self).second_token_optimal == old(self).second_token_optimal,
            final(self).liquidity_added == old(self).liquidity_added,
            final(self).output_payments == old(self).output_payments,
    {
        self.contract_state = state.contract_state;
        self.lp_token_id = state.lp_token_id.clone();
        self.first_token_id = state.first_token_id.clone();
        self.second_token_id = state.second_token_id.clone();
        self.first_token_reserve = state.first_reserve;
        self.second_token_reserve = state.second_reserve;
        self.lp_token_supply = state.lp_supply;
    }

    /// Runs the deposit against the staged ledger: checks the input, finds
    /// the optimal amounts and the shares to issue, and stages the new
    /// reserves, the new supply and the output payments. A rejected deposit
    /// stages nothing.
    pub fn add_liquidity(&mut self) -> (r: Result<(), Error>)
        requires
            old(self).pool_wf(),
        ensures
            final(self).pool_wf(),
            match old(self).outcome() {
                Ok(p) => {
                    &&& r is Ok
                    &&& *final(self) == (AddLiquidityContext {
                        first_token_optimal: p.first_amount,
                        second_token_optimal: p.second_amount,
                        liquidity_added: p.liquidity,
                        first_token_reserve: (old(self).first_token_reserve
                            + p.first_amount) as u128,
                        second_token_reserve: (old(self).second_token_reserve
                            + p.second_amount) as u128,
                        lp_token_supply: (old(self).lp_token_supply + p.liquidity) as u128,
                        output_payments: final(self).output_payments,
                        ..*old(self)
                    })
                    &&& old(self).first_token_reserve + p.first_amount <= u128::MAX
                    &&& old(self).second_token_reserve + p.second_amount <= u128::MAX
                    &&& old(self).lp_token_supply + p.liquidity <= u128::MAX
                    &&& payment_views(final(self).output_payments@) == deposit_outputs(
                        old(self).lp_token_id@,
                        old(self).first_token_id@,
                        old(self).second_token_id@,
                        old(self).tx_input,
                        p,
                    )
                },
                Err(e) => r == Err::<(), Error>(e) && *final(self) == *old(self),
            },
    {
        match self.check() {
            Ok(()) => {},
            Err(e) => {
                return Err(e);
            },
        }
        let first_paid: u128 = self.get_first_payment().amount;
        let second_paid: u128 = self.get_second_payment().amount;
        let provision: Provision = match compute_provision(
            self.first_token_reserve,
            self.second_token_reserve,
            self.lp_token_supply,
            first_paid,
            second_paid,
            self.tx_input.args.first_token_amount_min,
            self.tx_input.args.second_token_amount_min,
        ) {
            Ok(p) => p,
            Err(e) => {
                return Err(e);
            },
        };
        proof {
            lemma_provision_keeps_pool_wf(
                self.first_token_reserve,
                self.second_token_reserve,
                self.lp_token_supply,
                first_paid,
                second_paid,
                self.tx_input.args.first_token_amount_min,
                self.tx_input.args.second_token_amount_min,
            );
        }
        let mut outputs: Vec<TokenPayment> = Vec::new();
        outputs.push(TokenPayment::new(self.lp_token_id.clone(), 0, provision.liquidity));
        outputs.push(
            TokenPayment::new(
                self.first_token_id.clone(),
                0,
                first_paid - provision.first_amount,
            ),
        );
        outputs.push(
            TokenPayment::new(
                self.second_token_id.clone(),
                0,
                second_paid - provision.second_amount,
            ),
        );
        assert(payment_views(outputs@) =~= deposit_outputs(
            self.lp_token_id@,
            self.first_token_id@,
            self.second_token_id@,
            self.tx_input,
            provision,
        ));
        self.first_token_optimal = provision.first_amount;
        self.second_token_optimal = provision.second_amount;
        self.liquidity_added = provision.liquidity;
        self.first_token_reserve = self.first_token_reserve + provision.first_amount;
        self.second_token_reserve = self.second_token_reserve + provision.second_amount;
        self.lp_token_supply = self.lp_token_supply + provision.liquidity;
        self.output_payments = outputs;
        Ok(())
    }
}

impl Context for AddLiquidityContext {
    type Ledger = PairState;

    type Output = Vec<TokenPayment>;

    /// The arguments are well formed, the payments are well formed and of the
    /// pool's assets, and each minimum is covered by its payment.
    open spec fn input_valid(&self) -> bool {
        self.tx_input.args.valid() && self.tx_input.payments.valid() && self.tx_input.consistent()
            && self.tokens_match()
    }

    open spec fn rejection(&self) -> Option<Error> {
        deposit_rejection(
            self.contract_state,
            self.first_token_id@,
            self.second_token_id@,
            self.tx_input,
        )
    }

    /// The staged reserves and supply replace the ledger's.
    open spec fn committed(&self, ledger: PairState) -> PairState {
        PairState {
            first_reserve: self.first_token_reserve,
            second_reserve: self.second_token_reserve,
            lp_supply: self.lp_token_supply,
            ..ledger
        }
    }

    open spec fn staged_output(&self) -> Vec<TokenPayment> {
        self.output_payments
    }

    fn validate(&self) -> (r: bool) {
        self.tx_input.args.are_valid() && self.tx_input.payments.are_valid()
            && self.tx_input.is_valid() && self.payment_tokens_match_pool_tokens()
    }

    fn check(&self) -> (r: Result<(), Error>) {
        if !self.tx_input.args.are_valid() {
            return Err(Error::InvalidArgument);
        }
        if !self.tx_input.payments.are_valid() {
            return Err(Error::InvalidPayment);
        }
        if !self.tx_input.is_valid() {
            return Err(Error::ArgumentPaymentMismatch);
        }
        if !self.contract_state.is_operational() {
            return Err(Error::InactiveContract);
        }
        if !self.payment_tokens_match_pool_tokens() {
            return Err(Error::InvalidPayment);
        }
        Ok(())
    }

    fn commit(self, state: &mut PairState) -> (outputs: Vec<TokenPayment>) {
        state.first_reserve = self.first_token_reserve;
        state.second_reserve = self.second_token_reserve;
        state.lp_supply = self.lp_token_supply;
        self.output_payments
    }
}

/// A deposit is rejected before anything is computed exactly when its input
/// is not valid or the contract is not operational.
pub proof fn lemma_deposit_rejected_iff_invalid(context: AddLiquidityContext)
    ensures
        context.rejection() is None <==> context.input_valid()
            && context.contract_state.permits_operations(),
{
}

/// Deposits into the pool `state`: builds the context, runs the deposit on
/// the staged copy and commits it. On success the reserves grow by the
/// optimal amounts, the supply by the shares issued, and the result holds
/// the shares and the unconsumed part of each payment. On any error the
/// ledger is unchanged.
pub fn add_liquidity(state: &mut PairState, tx_input: AddLiquidityTxInput, caller: Address) -> (r:
    Result<Vec<TokenPayment>, Error>)
    requires
        old(state).wf(),
    ensures
        final(state).wf(),
        match deposit_outcome(
            old(state).contract_state,
            old(state).first_token_id@,
            old(state).second_token_id@,
            old(state).first_reserve,
            old(state).second_reserve,
            old(state).lp_supply,
            tx_input,
        ) {
            Ok(p) => {
                &&& r is Ok
                &&& *final(state) == (PairState {
                    first_reserve: (old(state).first_reserve + p.first_amount) as u128,
                    second_reserve: (old(state).second_reserve + p.second_amount) as u128,
                    lp_supply: (old(state).lp_supply + p.liquidity) as u128,
                    ..*old(state)
                })
                &&& old(state).first_reserve + p.first_amount <= u128::MAX
                &&& old(state).second_reserve + p.second_amount <= u128::MAX
                &&& old(state).lp_supply + p.liquidity <= u128::MAX
                &&& payment_views(r->Ok_0@) == deposit_outputs(
                    old(state).lp_token_id@,
                    old(state).first_token_id@,
                    old(state).second_token_id@,
                    tx_input,
                    p,
                )
            },
            Err(e) => r is Err && r->Err_0 == e && *final(state) == *old(state),
        },
{
    let mut context = AddLiquidityContext::new(tx_input, caller);
    context.load_state(state);
    match context.add_liquidity() {
        Ok(()) => Ok(context.commit(state)),
        Err(e) => Err(e),
    }
}

} // verus!
