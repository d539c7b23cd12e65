use crate::context::Context;
use crate::errors::Error;
use crate::farm::{
    accumulate_outcome, accumulate_reward, calculate_reward, reward_outcome, FarmToken,
    FarmTokenAttributes, StorageCache,
};
use crate::types::{Address, PaymentView, State, TokenIdentifier, TokenPayment};
use vstd::prelude::*;

verus! {

/// The arguments of a claim: an optional callback name that is carried
/// through.
pub struct ClaimRewardsArgs {
    pub opt_accept_funds_func: Option<Vec<u8>>,
}

/// The payments of a claim: the position that claims, and further positions
/// to merge into it.
pub struct ClaimRewardsPayments {
    pub first_payment: TokenPayment,
    pub additional_payments: Vec<TokenPayment>,
}

/// The input of a claim: its arguments, its payments and, where known, the
/// attributes of the claiming position.
pub struct ClaimRewardsTxInput {
    pub args: ClaimRewardsArgs,
    pub payments: ClaimRewardsPayments,
    pub attributes: Option<FarmTokenAttributes>,
}

/// The context of one claim: the caller, the input, the block it runs in, a
/// staged copy of the farm's ledger and the staged results.
pub struct ClaimRewardsContext {
    pub caller: Address,
    pub tx_input: ClaimRewardsTxInput,
    pub block_nonce: u64,
    pub block_epoch: u64,
    pub position_reward: u128,
    pub storage_cache: StorageCache,
    pub initial_farming_amount: u128,
    pub final_reward: Option<TokenPayment>,
    pub output_attributes: Option<FarmTokenAttributes>,
    pub output_created_with_merge: bool,
    pub output_payments: Vec<TokenPayment>,
}

/// A payment carries a position of the farm whose token has the bytes
/// `farm_token_id`: it is of that token, has a nonce and is not empty.
pub open spec fn is_position_payment(farm_token_id: Seq<u8>, payment: TokenPayment) -> bool {
    payment.token_identifier@ == farm_token_id && payment.token_nonce != 0 && payment.amount != 0
}

/// Every payment of a claim carries a position of the farm.
pub open spec fn payments_accepted(farm_token_id: Seq<u8>, payments: ClaimRewardsPayments) -> bool {
    is_position_payment(farm_token_id, payments.first_payment) && forall|i: int|
        0 <= i < payments.additional_payments@.len() ==> is_position_payment(
            farm_token_id,
            #[trigger] payments.additional_payments@[i],
        )
}

/// The error with which a claim is rejected before anything is computed, if
/// it is: a contract that is not operational, a payment that carries no
/// position of the farm, or a position whose attributes are not known.
pub open spec fn claim_rejection(
    contract_state: State,
    farm_token_id: Seq<u8>,
    tx_input: ClaimRewardsTxInput,
) -> Option<Error> {
    if !contract_state.permits_operations() {
        Some(Error::InactiveContract)
    } else if !payments_accepted(farm_token_id, tx_input.payments) {
        Some(Error::InvalidPayment)
    } else if tx_input.attributes is None {
        Some(Error::InvalidPayment)
    } else {
        None
    }
}

/// The reward that a claim pays out of a farm ledger, or the error that
/// rejects it.
pub open spec fn claim_outcome(cache: StorageCache, tx_input: ClaimRewardsTxInput) -> Result<
    u128,
    Error,
>
    recommends
        cache.division_safety_constant > 0,
{
    match claim_rejection(cache.contract_state, cache.farm_token_id@, tx_input) {
        Some(e) => Err(e),
        None => match reward_outcome(
            tx_input.payments.first_payment.amount,
            cache.reward_per_share,
            tx_input.attributes->Some_0.reward_per_share,
            cache.division_safety_constant,
        ) {
            Err(e) => Err(e),
            Ok(reward) => if reward > cache.reward_reserve {
                Err(Error::InsufficientRewardReserve)
            } else {
                Ok(reward)
            },
        },
    }
}

/// The attributes of the position that replaces the claiming one: settled at
/// the current accumulator, with the principal and the entering epoch kept.
pub open spec fn settled_attributes(
    cache: StorageCache,
    tx_input: ClaimRewardsTxInput,
) -> FarmTokenAttributes {
    FarmTokenAttributes {
        reward_per_share: cache.reward_per_share,
        entering_epoch: tx_input.attributes->Some_0.entering_epoch,
        current_farm_amount: tx_input.payments.first_payment.amount,
    }
}

/// The farm ledger after an injection of `amount`, or the error that rejects
/// it: the reserve grows by the amount, and the accumulator by the amount's
/// share per staked unit unless nothing is staked.
pub open spec fn injection_outcome(cache: StorageCache, amount: u128) -> Result<StorageCache, Error> {
    if cache.reward_reserve + amount > u128::MAX {
        Err(Error::Overflow)
    } else {
        match accumulate_outcome(
            cache.reward_per_share,
            amount,
            cache.division_safety_constant,
            cache.farm_token_supply,
        ) {
            Err(e) => Err(e),
            Ok(rps) => Ok(
                StorageCache {
                    reward_reserve: (cache.reward_reserve + amount) as u128,
                    reward_per_share: rps,
                    ..cache
                },
            ),
        }
    }
}

impl ClaimRewardsArgs {
    /// Puts the parts together.
    pub fn new(opt_accept_funds_func: Option<Vec<u8>>) -> (r: Self)
        ensures
            r.opt_accept_funds_func == opt_accept_funds_func,
    {
        ClaimRewardsArgs { opt_accept_funds_func }
    }

    /// A claim has no argument that could be malformed.
    pub fn are_valid(&self) -> (r: bool)
        ensures
            r,
    {
        true
    }
}

impl ClaimRewardsPayments {
    /// Puts the parts together.
    pub fn new(first_payment: TokenPayment, additional_payments: Vec<TokenPayment>) -> (r: Self)
        ensures
            r.first_payment == first_payment,
            r.additional_payments == additional_payments,
    {
        ClaimRewardsPayments { first_payment, additional_payments }
    }

    /// The shape of the payments is judged against the farm's token, by the
    /// context; taken alone they are always in order.
    pub fn are_valid(&self) -> (r: bool)
        ensures
            r,
    {
        true
    }

    /// The payment that carries the claiming position.
    pub fn get_first(&self) -> (r: &TokenPayment)
        ensures
            *r == self.first_payment,
    {
        &self.first_payment
    }

    /// The payments that carry the positions to merge.
    pub fn get_additional(&self) -> (r: Option<&Vec<TokenPayment>>)
        ensures
            r == Some(&self.additional_payments),
    {
        Some(&self.additional_payments)
    }
}

impl ClaimRewardsTxInput {
    /// The input of a claim whose position attributes are not known.
    pub fn new(args: ClaimRewardsArgs, payments: ClaimRewardsPayments) -> (r: Self)
        ensures
            r.args == args,
            r.payments == payments,
            r.attributes is None,
    {
        ClaimRewardsTxInput { args, payments, attributes: None }
    }

    /// The input of a claim by a position with the given attributes.
    pub fn with_attributes(
        args: ClaimRewardsArgs,
        payments: ClaimRewardsPayments,
        attributes: FarmTokenAttributes,
    ) -> (r: Self)
        ensures
            r.args == args,
            r.payments == payments,
            r.attributes == Some(attributes),
    {
        ClaimRewardsTxInput { args, payments, attributes: Some(attributes) }
    }

    /// The arguments of the input.
    pub fn get_args(&self) -> (r: &ClaimRewardsArgs)
        ensures
            *r == self.args,
    {
        &self.args
    }

    /// The payments of the input.
    pub fn get_payments(&self) -> (r: &ClaimRewardsPayments)
        ensures
            *r == self.payments,
    {
        &self.payments
    }

    /// A claim has no argument that could contradict its payments.
    pub fn is_valid(&self) -> (r: bool)
        ensures
            r,
    {
        true
    }
}

impl ClaimRewardsContext {
    /// A context for `tx_input` sent by `caller`, with an empty staged
    /// ledger, block zero, no reward and no output.
    pub fn new(tx_input: ClaimRewardsTxInput, caller: Address) -> (r: Self)
        ensures
            r.caller == caller,
            r.tx_input == tx_input,
            r.block_nonce == 0,
            r.block_epoch == 0,
            r.position_reward == 0,
            r.storage_cache.contract_state == State::Inactive,
            r.storage_cache.farm_token_id@.len() == 0,
            r.storage_cache.farming_token_id@.len() == 0,
            r.storage_cache.reward_token_id@.len() == 0,
            r.storage_cache.reward_per_share == 0,
            r.storage_cache.farm_token_supply == 0,
            r.storage_cache.division_safety_constant == 0,
            r.storage_cache.reward_reserve == 0,
            r.initial_farming_amount == 0,
            r.final_reward is None,
            r.output_attributes is None,
            r.output_created_with_merge,
            r.output_payments@.len() == 0,
    {
        ClaimRewardsContext {
            caller,
            tx_input,
            block_nonce: 0,
            block_epoch: 0,
            position_reward: 0,
            storage_cache: StorageCache::default(),
            initial_farming_amount: 0,
            final_reward: None,
            output_attributes: None,
            output_created_with_merge: true,
            output_payments: Vec::new(),
        }
    }

    /// Stages the contract state.
    pub fn set_contract_state(&mut self, contract_state: State)
        ensures
            *final(self) == (ClaimRewardsContext {
                storage_cache: StorageCache { contract_state: contract_state, ..old(self).storage_cache },
                ..*old(self)
            }),
    {
        self.storage_cache.contract_state = contract_state;
    }

    /// The staged contract state.
    pub fn get_contract_state(&self) -> (r: &State)
        ensures
            *r == self.storage_cache.contract_state,
    {
        &self.storage_cache.contract_state
    }

    /// Who sent the operation.
    pub fn get_caller(&self) -> (r: &Address)
        ensures
            *r == self.caller,
    {
        &self.caller
    }

    /// Stages the output payments.
    pub fn set_output_payments(&mut self, payments: Vec<TokenPayment>)
        ensures
            *final(self) == (ClaimRewardsContext { output_payments: payments, ..*old(self) }),
    {
        self.output_payments = payments;
    }

    /// The staged output payments.
    pub fn get_output_payments(&self) -> (r: &Vec<TokenPayment>)
        ensures
            *r == self.output_payments,
    {
        &self.output_payments
    }

    /// The callback name that the caller asked for, if any.
    pub fn get_opt_accept_funds_func(&self) -> (r: &Option<Vec<u8>>)
        ensures
            *r == self.tx_input.args.opt_accept_funds_func,
    {
        &self.tx_input.args.opt_accept_funds_func
    }

    /// The input of the operation.
    pub fn get_tx_input(&self) -> (r: &ClaimRewardsTxInput)
        ensures
            *r == self.tx_input,
    {
        &self.tx_input
    }

    /// Stages the farm token identifier.
    pub fn set_farm_token_id(&mut self, farm_token_id: TokenIdentifier)
        ensures
            *final(self) == (ClaimRewardsContext {
                storage_cache: StorageCache { farm_token_id: farm_token_id, ..old(self).storage_cache },
                ..*old(self)
            }),
    {
        self.storage_cache.farm_token_id = farm_token_id;
    }

    /// The staged farm token identifier.
    pub fn get_farm_token_id(&self) -> (r: &TokenIdentifier)
        ensures
            *r == self.storage_cache.farm_token_id,
    {
        &self.storage_cache.farm_token_id
    }

    /// Stages the farming token identifier.
    pub fn set_farming_token_id(&mut self, farming_token_id: TokenIdentifier)
        ensures
            *final(self) == (ClaimRewardsContext {
                storage_cache: StorageCache { farming_token_id: farming_token_id, ..old(self).storage_cache },
                ..*old(self)
            }),
    {
        self.storage_cache.farming_token_id = farming_token_id;
    }

    /// The staged farming token identifier.
    pub fn get_farming_token_id(&self) -> (r: &TokenIdentifier)
        ensures
            *r == self.storage_cache.farming_token_id,
    {
        &self.storage_cache.farming_token_id
    }

    /// Stages the reward token identifier.
    pub fn set_reward_token_id(&mut self, reward_token_id: TokenIdentifier)
        ensures
            *final(self) == (ClaimRewardsContext {
                storage_cache: StorageCache { reward_token_id: reward_token_id, ..old(self).storage_cache },
                ..*old(self)
            }),
    {
        self.storage_cache.reward_token_id = reward_token_id;
    }

    /// The staged reward token identifier.
    pub fn get_reward_token_id(&self) -> (r: &TokenIdentifier)
        ensures
            *r == self.storage_cache.reward_token_id,
    {
        &self.storage_cache.reward_token_id
    }

    /// Records the block in which the operation runs.
    pub fn set_block_nonce(&mut self, nonce: u64)
        ensures
            *final(self) == (ClaimRewardsContext { block_nonce: nonce, ..*old(self) }),
    {
        self.block_nonce = nonce;
    }

    /// The block in which the operation runs.
    pub fn get_block_nonce(&self) -> (r: u64)
        ensures
            r == self.block_nonce,
    {
        self.block_nonce
    }

    /// Records the epoch in which the operation runs.
    pub fn set_block_epoch(&mut self, epoch: u64)
        ensures
            *final(self) == (ClaimRewardsContext { block_epoch: epoch, ..*old(self) }),
    {
        self.block_epoch = epoch;
    }

    /// The epoch in which the operation runs.
    pub fn get_block_epoch(&self) -> (r: u64)
        ensures
            r == self.block_epoch,
    {
        self.block_epoch
    }

    /// Stages the reward per share.
    pub fn set_reward_per_share(&mut self, rps: u128)
        ensures
            *final(self) == (ClaimRewardsContext {
                storage_cache: StorageCache { reward_per_share: rps, ..old(self).storage_cache },
                ..*old(self)
            }),
    {
        self.storage_cache.reward_per_share = rps;
    }

    /// The staged reward per share.
    pub fn get_reward_per_share(&self) -> (r: &u128)
        ensures
            *r == self.storage_cache.reward_per_share,
    {
        &self.storage_cache.reward_per_share
    }

    /// Stages the farm token supply.
    pub fn set_farm_token_supply(&mut self, supply: u128)
        ensures
            *final(self) == (ClaimRewardsContext {
                storage_cache: StorageCache { farm_token_supply: supply, ..old(self).storage_cache },
                ..*old(self)
            }),
    {
        self.storage_cache.farm_token_supply = supply;
    }

    /// The staged farm token supply.
    pub fn get_farm_token_supply(&self) -> (r: &u128)
        ensures
            *r == self.storage_cache.farm_token_supply,
    {
        &self.storage_cache.farm_token_supply
    }

    /// Stages the division safety constant.
    pub fn set_division_safety_constant(&mut self, dsc: u128)
        ensures
            *final(self) == (ClaimRewardsContext {
                storage_cache: StorageCache { division_safety_constant: dsc, ..old(self).storage_cache },
                ..*old(self)
            }),
    {
        self.storage_cache.division_safety_constant = dsc;
    }

    /// The staged division safety constant.
    pub fn get_division_safety_constant(&self) -> (r: &u128)
        ensures
            *r == self.storage_cache.division_safety_constant,
    {
        &self.storage_cache.division_safety_constant
    }

    /// Stages the reward reserve.
    pub fn set_reward_reserve(&mut self, rr: u128)
        ensures
            *final(self) == (ClaimRewardsContext {
                storage_cache: StorageCache { reward_reserve: rr, ..old(self).storage_cache },
                ..*old(self)
            }),
    {
        self.storage_cache.reward_reserve = rr;
    }

    /// The staged reward reserve.
    pub fn get_reward_reserve(&self) -> (r: &u128)
        ensures
            *r == self.storage_cache.reward_reserve,
    {
        &self.storage_cache.reward_reserve
    }

    /// Adds `amount` to the staged reward reserve, or fails with `Overflow`
    /// and changes nothing.
    pub fn increase_reward_reserve(&mut self, amount: &u128) -> (r: Result<(), Error>)
        ensures
            old(self).storage_cache.reward_reserve + *amount <= u128::MAX ==> r is Ok
                && *final(self) == (ClaimRewardsContext {
                storage_cache: StorageCache {
                    reward_reserve: (old(self).storage_cache.reward_reserve + *amount) as u128,
                    ..old(self).storage_cache
                },
                ..*old(self)
            }),
            old(self).storage_cache.reward_reserve + *amount > u128::MAX ==> r == Err::<(), Error>(
                Error::Overflow,
            ) && *final(self) == *old(self),
    {
        match self.storage_cache.reward_reserve.checked_add(*amount) {
            Some(v) => {
                self.storage_cache.reward_reserve = v;
                Ok(())
            },
            None => Err(Error::Overflow),
        }
    }

    /// Takes the staged position reward out of the staged reward reserve, or
    /// fails with `InsufficientRewardReserve` and changes nothing when the
    /// reserve does not hold it.
    pub fn decrease_reward_reserve(&mut self) -> (r: Result<(), Error>)
        ensures
            old(self).position_reward <= old(self).storage_cache.reward_reserve ==> r is Ok
                && *final(self) == (ClaimRewardsContext {
                storage_cache: StorageCache {
                    reward_reserve: (old(self).storage_cache.reward_reserve - old(
                        self,
                    ).position_reward) as u128,
                    ..old(self).storage_cache
                },
                ..*old(self)
            }),
            old(self).position_reward > old(self).storage_cache.reward_reserve ==> r == Err::<
                (),
                Error,
            >(Error::InsufficientRewardReserve) && *final(self) == *old(self),
    {
        if self.position_reward > self.storage_cache.reward_reserve {
            return Err(Error::InsufficientRewardReserve);
        }
        self.storage_cache.reward_reserve = self.storage_cache.reward_reserve
            - self.position_reward;
        Ok(())
    }

    /// Raises the staged reward per share by the share of `reward_added` per
    /// staked unit; while nothing is staked it stays as it is. The
    /// accumulator never decreases. Fails with `Overflow` and changes nothing
    /// when the exact result does not fit.
    pub fn update_reward_per_share(&mut self, reward_added: &u128) -> (r: Result<(), Error>)
        ensures
            match accumulate_outcome(
                old(self).storage_cache.reward_per_share,
                *reward_added,
                old(self).storage_cache.division_safety_constant,
                old(self).storage_cache.farm_token_supply,
            ) {
                Ok(rps) => r is Ok && *final(self) == (ClaimRewardsContext {
                    storage_cache: StorageCache {
                        reward_per_share: rps,
                        ..old(self).storage_cache
                    },
                    ..*old(self)
                }),
                Err(e) => r == Err::<(), Error>(e) && *final(self) == *old(self),
            },
            final(self).storage_cache.reward_per_share >= old(self).storage_cache.reward_per_share,
    {
        match accumulate_reward(
            self.storage_cache.reward_per_share,
            *reward_added,
            self.storage_cache.division_safety_constant,
            self.storage_cache.farm_token_supply,
        ) {
            Ok(rps) => {
                self.storage_cache.reward_per_share = rps;
                Ok(())
            },
            Err(e) => Err(e),
        }
    }

    /// The staged copy of the farm ledger.
    pub fn get_storage_cache(&self) -> (r: &StorageCache)
        ensures
            *r == self.storage_cache,
    {
        &self.storage_cache
    }

    /// The attributes of the claiming position are fixed when the input is
    /// built; this context takes no others.
    pub fn set_input_attributes(&mut self, _attr: FarmTokenAttributes)
        ensures
            *final(self) == *old(self),
    {
    }

    /// The attributes of the claiming position, where known.
    pub fn get_input_attributes(&self) -> (r: Option<&FarmTokenAttributes>)
        ensures
            r is Some == self.tx_input.attributes is Some,
            r is Some ==> *r->Some_0 == self.tx_input.attributes->Some_0,
    {
        self.tx_input.attributes.as_ref()
    }

    /// Stages the position reward.
    pub fn set_position_reward(&mut self, amount: u128)
        ensures
            *final(self) == (ClaimRewardsContext { position_reward: amount, ..*old(self) }),
    {
        self.position_reward = amount;
    }

    /// The staged position reward.
    pub fn get_position_reward(&self) -> (r: Option<&u128>)
        ensures
            r == Some(&self.position_reward),
    {
        Some(&self.position_reward)
    }

    /// Stages the initial farming amount.
    pub fn set_initial_farming_amount(&mut self, amount: u128)
        ensures
            *final(self) == (ClaimRewardsContext { initial_farming_amount: amount, ..*old(self) }),
    {
        self.initial_farming_amount = amount;
    }

    /// The staged initial farming amount.
    pub fn get_initial_farming_amount(&self) -> (r: Option<&u128>)
        ensures
            r == Some(&self.initial_farming_amount),
    {
        Some(&self.initial_farming_amount)
    }

    /// Stages the final reward.
    pub fn set_final_reward(&mut self, payment: TokenPayment)
        ensures
            *final(self) == (ClaimRewardsContext { final_reward: Some(payment), ..*old(self) }),
    {
        self.final_reward = Some(payment);
    }

    /// The staged final reward.
    pub fn get_final_reward(&self) -> (r: Option<&TokenPayment>)
        ensures
            r is Some == self.final_reward is Some,
            r is Some ==> *r->Some_0 == self.final_reward->Some_0,
    {
        self.final_reward.as_ref()
    }

    /// Whether the staged output position was made by a merge.
    pub fn was_output_created_with_merge(&self) -> (r: bool)
        ensures
            r == self.output_created_with_merge,
    {
        self.output_created_with_merge
    }

    /// The staged output attributes.
    pub fn get_output_attributes(&self) -> (r: Option<&FarmTokenAttributes>)
        ensures
            r is Some == self.output_attributes is Some,
            r is Some ==> *r->Some_0 == self.output_attributes->Some_0,
    {
        self.output_attributes.as_ref()
    }

    /// Stages the position that the claim hands out: its payment is appended
    /// to the output payments, and its attributes and the way it was made
    /// are recorded.
    pub fn set_output_position(&mut self, position: FarmToken, created_with_merge: bool)
        ensures
            *final(self) == (ClaimRewardsContext {
                output_payments: final(self).output_payments,
                output_created_with_merge: created_with_merge,
                output_attributes: Some(position.attributes),
                ..*old(self)
            }),
            final(self).output_payments@ == old(self).output_payments@.push(position.token_amount),
    {
        self.output_payments.push(position.token_amount);
        self.output_created_with_merge = created_with_merge;
        self.output_attributes = Some(position.attributes);
    }

    /// Whether every payment carries a position of the staged farm token.
    pub fn is_accepted_payment(&self) -> (r: bool)
        ensures
            r == payments_accepted(self.storage_cache.farm_token_id@, self.tx_input.payments),
    {
        let first_payment_pass = self.tx_input.payments.first_payment.token_identifier.same_as(
            &self.storage_cache.farm_token_id,
        ) && self.tx_input.payments.first_payment.token_nonce != 0
            && self.tx_input.payments.first_payment.amount != 0;
        if !first_payment_pass {
            return false;
        }
        let mut i: usize = 0;
        while i < self.tx_input.payments.additional_payments.len()
            invariant
                i <= self.tx_input.payments.additional_payments@.len(),
                forall|j: int|
                    0 <= j < i ==> is_position_payment(
                        self.storage_cache.farm_token_id@,
                        #[trigger] self.tx_input.payments.additional_payments@[j],
                    ),
            decreases self.tx_input.payments.additional_payments@.len() - i,
        {
            let payment = &self.tx_input.payments.additional_payments[i];
            let payment_pass = payment.token_identifier.same_as(&self.storage_cache.farm_token_id)
                && payment.token_nonce != 0 && payment.amount != 0;
            if !payment_pass {
                return false;
            }
            i = i + 1;
        }
        true
    }
}

/// What a committed claim hands to the transfer and minting layers.
pub struct ClaimOutput {
    pub payments: Vec<TokenPayment>,
    pub reward: Option<TokenPayment>,
    pub attributes: Option<FarmTokenAttributes>,
}

impl ClaimRewardsContext {
    /// Copies the farm ledger and the block into the staged fields.
    pub fn load_state(&mut self, farm: &StorageCache, block_nonce: u64, block_epoch: u64)
        ensures
            *final(self) == (ClaimRewardsContext {
                block_nonce,
                block_epoch,
                storage_cache: final(self).storage_cache,
                ..*old(self)
            }),
            final(self).storage_cache == (StorageCache {
                farm_token_id: final(self).storage_cache.farm_token_id,
                farming_token_id: final(self).storage_cache.farming_token_id,
                reward_token_id: final(self).storage_cache.reward_token_id,
                ..*farm
            }),
            final(self).storage_cache.farm_token_id@ == farm.farm_token_id@,
            final(self).storage_cache.farming_token_id@ == farm.farming_token_id@,
            final(self).storage_cache.reward_token_id@ == farm.reward_token_id@,
    {
        self.block_nonce = block_nonce;
        self.block_epoch = block_epoch;
        self.storage_cache.contract_state = farm.contract_state;
        self.storage_cache.farm_token_id = farm.farm_token_id.clone();
        self.storage_cache.farming_token_id = farm.farming_token_id.clone();
        self.storage_cache.reward_token_id = farm.reward_token_id.clone();
        self.storage_cache.reward_per_share = farm.reward_per_share;
        self.storage_cache.farm_token_supply = farm.farm_token_supply;
        self.storage_cache.division_safety_constant = farm.division_safety_constant;
        self.storage_cache.reward_reserve = farm.reward_reserve;
    }

    /// Injects `amount` of reward into the staged ledger: the reserve grows
    /// by it, and the reward per share by its share per staked unit unless
    /// nothing is staked. Fails with `Overflow` and changes nothing when an
    /// exact result does not fit.
    pub fn inject_reward(&mut self, amount: u128) -> (r: Result<(), Error>)
        ensures
            match injection_outcome(old(self).storage_cache, amount) {
                Ok(cache) => r is Ok && *final(self) == (ClaimRewardsContext {
                    storage_cache: cache,
                    ..*old(self)
                }),
                Err(e) => r == Err::<(), Error>(e) && *final(self) == *old(self),
            },
            final(self).storage_cache.reward_per_share >= old(self).storage_cache.reward_per_share,
    {
        let reserve: u128 = match self.storage_cache.reward_reserve.checked_add(amount) {
            Some(v) => v,
            None => {
                return Err(Error::Overflow);
            },
        };
        match self.update_reward_per_share(&amount) {
            Ok(()) => {},
            Err(e) => {
                return Err(e);
            },
        }
        self.storage_cache.reward_reserve = reserve;
        Ok(())
    }

    /// Settles the claiming position against the staged ledger: its reward
    /// is staged as the position reward and as the final reward payment and
    /// leaves the staged reserve; the result holds the attributes of the
    /// position that replaces it. A rejected claim stages nothing.
    pub fn claim_rewards(&mut self) -> (r: Result<FarmTokenAttributes, Error>)
        requires
            old(self).storage_cache.division_safety_constant > 0,
        ensures
            match claim_outcome(old(self).storage_cache, old(self).tx_input) {
                Ok(reward) => {
                    &&& r == Ok::<FarmTokenAttributes, Error>(
                        settled_attributes(old(self).storage_cache, old(self).tx_input),
                    )
                    &&& reward <= old(self).storage_cache.reward_reserve
                    &&& *final(self) == (ClaimRewardsContext {
                        position_reward: reward,
                        storage_cache: StorageCache {
                            reward_reserve: (old(self).storage_cache.reward_reserve
                                - reward) as u128,
                            ..old(self).storage_cache
                        },
                        final_reward: final(self).final_reward,
                        ..*old(self)
                    })
                    &&& final(self).final_reward is Some
                    &&& final(self).final_reward->Some_0@ == (PaymentView {
                        token: old(self).storage_cache.reward_token_id@,
                        nonce: 0,
                        amount: reward,
                    })
                },
                Err(e) => r == Err::<FarmTokenAttributes, Error>(e) && *final(self) == *old(self),
            },
    {
        match self.check() {
            Ok(()) => {},
            Err(e) => {
                return Err(e);
            },
        }
        let attributes: FarmTokenAttributes = match self.tx_input.attributes {
            Some(a) => a,
            None => {
                return Err(Error::InvalidPayment);
            },
        };
        let principal: u128 = self.tx_input.payments.first_payment.amount;
        let reward: u128 = match calculate_reward(
            principal,
            self.storage_cache.reward_per_share,
            attributes.reward_per_share,
            self.storage_cache.division_safety_constant,
        ) {
            Ok(v) => v,
            Err(e) => {
                return Err(e);
            },
        };
        if reward > self.storage_cache.reward_reserve {
            return Err(Error::InsufficientRewardReserve);
        }
        let payment = TokenPayment::new(self.storage_cache.reward_token_id.clone(), 0, reward);
        self.position_reward = reward;
        self.storage_cache.reward_reserve = self.storage_cache.reward_reserve - reward;
        self.final_reward = Some(payment);
        Ok(
            FarmTokenAttributes {
                reward_per_share: self.storage_cache.reward_per_share,
                entering_epoch: attributes.entering_epoch,
                current_farm_amount: principal,
            },
        )
    }
}

impl Context for ClaimRewardsContext {
    type Ledger = StorageCache;

    type Output = ClaimOutput;

    /// Every payment carries a position of the farm, and the attributes of
    /// the claiming position are known.
    open spec fn input_valid(&self) -> bool {
        payments_accepted(self.storage_cache.farm_token_id@, self.tx_input.payments)
            && self.tx_input.attributes is Some
    }

    open spec fn rejection(&self) -> Option<Error> {
        claim_rejection(
            self.storage_cache.contract_state,
            self.storage_cache.farm_token_id@,
            self.tx_input,
        )
    }

    /// The staged accumulator, supply and reserve replace the ledger's.
    open spec fn committed(&self, ledger: StorageCache) -> StorageCache {
        StorageCache {
            reward_per_share: self.storage_cache.reward_per_share,
            farm_token_supply: self.storage_cache.farm_token_supply,
            reward_reserve: self.storage_cache.reward_reserve,
            ..ledger
        }
    }

    open spec fn staged_output(&self) -> ClaimOutput {
        ClaimOutput {
            payments: self.output_payments,
            reward: self.final_reward,
            attributes: self.output_attributes,
        }
    }

    fn validate(&self) -> (r: bool) {
        self.tx_input.args.are_valid() && self.tx_input.payments.are_valid()
            && self.tx_input.is_valid() && self.is_accepted_payment()
            && self.tx_input.attributes.is_some()
    }

    fn check(&self) -> (r: Result<(), Error>) {
        if !self.storage_cache.contract_state.is_operational() {
            return Err(Error::InactiveContract);
        }
        if !self.is_accepted_payment() {
            return Err(Error::InvalidPayment);
        }
        if self.tx_input.attributes.is_none() {
            return Err(Error::InvalidPayment);
        }
        Ok(())
    }

    fn commit(self, farm: &mut StorageCache) -> (output: ClaimOutput) {
        farm.reward_per_share = self.storage_cache.reward_per_share;
        farm.farm_token_supply = self.storage_cache.farm_token_supply;
        farm.reward_reserve = self.storage_cache.reward_reserve;
        ClaimOutput {
            payments: self.output_payments,
            reward: self.final_reward,
            attributes: self.output_attributes,
        }
    }
}

/// A claim is rejected before anything is computed exactly when its input is
/// not valid or the contract is not operational.
pub proof fn lemma_claim_rejected_iff_invalid(context: ClaimRewardsContext)
    ensures
        context.rejection() is None <==> context.input_valid()
            && context.storage_cache.contract_state.permits_operations(),
{
}

/// Injects `amount` of reward into the farm ledger. On an error the ledger is
/// unchanged; in every case the reward per share does not decrease.
///
/// Reward injected while nothing is staked stays in the reserve and raises
/// no position's entitlement: nothing here distributes it later.
pub fn inject_reward(farm: &mut StorageCache, amount: u128) -> (r: Result<(), Error>)
    ensures
        match injection_outcome(*old(farm), amount) {
            Ok(cache) => r is Ok && *final(farm) == cache,
            Err(e) => r == Err::<(), Error>(e) && *final(farm) == *old(farm),
        },
        final(farm).reward_per_share >= old(farm).reward_per_share,
{
    let reserve: u128 = match farm.reward_reserve.checked_add(amount) {
        Some(v) => v,
        None => {
            return Err(Error::Overflow);
        },
    };
    let rps: u128 = match accumulate_reward(
        farm.reward_per_share,
        amount,
        farm.division_safety_constant,
        farm.farm_token_supply,
    ) {
        Ok(v) => v,
        Err(e) => {
            return Err(e);
        },
    };
    farm.reward_reserve = reserve;
    farm.reward_per_share = rps;
    Ok(())
}

/// Claims the reward of one position from the farm ledger: builds the
/// context, settles the position on the staged copy and commits it. On
/// success the reserve shrinks by the reward, and the result holds the
/// reward payment and the attributes of the replacing position. On any error
/// the ledger is unchanged.
pub fn claim_rewards(
    farm: &mut StorageCache,
    tx_input: ClaimRewardsTxInput,
    caller: Address,
    block_nonce: u64,
    block_epoch: u64,
) -> (r: Result<(TokenPayment, FarmTokenAttributes), Error>)
    requires
        old(farm).division_safety_constant > 0,
    ensures
        match claim_outcome(*old(farm), tx_input) {
            Ok(reward) => {
                &&& r is Ok
                &&& reward <= old(farm).reward_reserve
                &&& *final(farm) == (StorageCache {
                    reward_reserve: (old(farm).reward_reserve - reward) as u128,
                    ..*old(farm)
                })
                &&& r->Ok_0.0@ == (PaymentView {
                    token: old(farm).reward_token_id@,
                    nonce: 0,
                    amount: reward,
                })
                &&& r->Ok_0.1 == settled_attributes(*old(farm), tx_input)
            },
            Err(e) => r is Err && r->Err_0 == e && *final(farm) == *old(farm),
        },
{
    let mut context = ClaimRewardsContext::new(tx_input, caller);
    context.load_state(farm, block_nonce, block_epoch);
    match context.claim_rewards() {
        Ok(attributes) => {
            let output = context.commit(farm);
            match output.reward {
                Some(payment) => Ok((payment, attributes)),
                None => Err(Error::InsufficientRewardReserve),
            }
        },
        Err(e) => Err(e),
    }
}

} // verus!
