use crate::errors::Error;
use crate::math::{checked_product, checked_sum};
use vstd::prelude::*;

verus! {

/// Block-weighted cumulative average of a pool's liquidity and reserves.
///
/// `num_blocks` is the weight accumulated so far; zero means that nothing has
/// been recorded yet.
#[derive(Clone, Copy, Debug, PartialEq, Eq, Structural)]
pub struct SafeReserveState {
    pub last_block: u64,
    pub num_blocks: u64,
    pub safe_liquidity: u128,
    pub safe_reserve_first: u128,
    pub safe_reserve_second: u128,
}

/// Numerator of the weighted average: the old value at its weight plus the
/// instantaneous value at the weight of the blocks that passed.
pub open spec fn weighted_sum(safe: nat, weight: nat, instant: nat, blocks: nat) -> nat {
    safe * weight + instant * blocks
}

/// The floored weighted average of the old value and the instantaneous one.
pub open spec fn weighted_average(safe: nat, weight: nat, instant: nat, blocks: nat) -> nat
    recommends
        weight + blocks > 0,
{
    weighted_sum(safe, weight, instant, blocks) / (weight + blocks)
}

/// The tracker with its four averaged fields zeroed; `last_block` stays.
pub open spec fn reset_state(s: SafeReserveState) -> SafeReserveState {
    SafeReserveState {
        last_block: s.last_block,
        num_blocks: 0,
        safe_liquidity: 0,
        safe_reserve_first: 0,
        safe_reserve_second: 0,
    }
}

/// What one update does to a tracker: the next state, or the error with which
/// the update is rejected.
pub open spec fn update_outcome(
    s: SafeReserveState,
    current_block: u64,
    liquidity: u128,
    first_reserve: u128,
    second_reserve: u128,
) -> Result<SafeReserveState, Error> {
    let passed = (current_block - s.last_block) as nat;
    let weight = s.num_blocks as nat;
    if current_block == s.last_block {
        Ok(s)
    } else if s.num_blocks == 0 {
        Ok(
            SafeReserveState {
                last_block: current_block,
                num_blocks: 1,
                safe_liquidity: liquidity,
                safe_reserve_first: first_reserve,
                safe_reserve_second: second_reserve,
            },
        )
    } else if current_block < s.last_block {
        Err(Error::ClockSkew)
    } else if weight + passed > u64::MAX
        || weighted_sum(s.safe_liquidity as nat, weight, liquidity as nat, passed) > u128::MAX
        || weighted_sum(s.safe_reserve_first as nat, weight, first_reserve as nat, passed)
        > u128::MAX
        || weighted_sum(s.safe_reserve_second as nat, weight, second_reserve as nat, passed)
        > u128::MAX {
        Err(Error::Overflow)
    } else {
        Ok(
            SafeReserveState {
                last_block: current_block,
                num_blocks: (weight + passed) as u64,
                safe_liquidity: weighted_average(
                    s.safe_liquidity as nat,
                    weight,
                    liquidity as nat,
                    passed,
                ) as u128,
                safe_reserve_first: weighted_average(
                    s.safe_reserve_first as nat,
                    weight,
                    first_reserve as nat,
                    passed,
                ) as u128,
                safe_reserve_second: weighted_average(
                    s.safe_reserve_second as nat,
                    weight,
                    second_reserve as nat,
                    passed,
                ) as u128,
            },
        )
    }
}

/// The weighted average of one tracked quantity, or `Overflow` when its
/// numerator does not fit.
pub fn blend(safe: u128, weight: u64, instant: u128, blocks: u64) -> (r: Result<u128, Error>)
    requires
        0 < weight + blocks <= u64::MAX,
    ensures
        weighted_sum(safe as nat, weight as nat, instant as nat, blocks as nat) <= u128::MAX
            ==> r == Ok::<u128, Error>(
            weighted_average(safe as nat, weight as nat, instant as nat, blocks as nat) as u128,
        ),
        weighted_sum(safe as nat, weight as nat, instant as nat, blocks as nat) > u128::MAX ==> r
            == Err::<u128, Error>(Error::Overflow),
{
    assert((safe as nat) * (weight as nat) >= 0 && (instant as nat) * (blocks as nat) >= 0)
        by (nonlinear_arith);
    let old_part: u128 = match checked_product(safe, weight as u128) {
        Ok(p) => p,
        Err(e) => {
            return Err(e);
        },
    };
    let new_part: u128 = match checked_product(instant, blocks as u128) {
        Ok(p) => p,
        Err(e) => {
            return Err(e);
        },
    };
    let total: u128 = match checked_sum(old_part, new_part) {
        Ok(t) => t,
        Err(e) => {
            return Err(e);
        },
    };
    let divisor: u128 = weight as u128 + blocks as u128;
    Ok(total / divisor)
}

/// The operations of the time-weighted reserve tracker.
pub trait SafeReserveModule {
    /// The tracker that the operations read and write.
    spec fn tracker(&self) -> SafeReserveState;

    /// Folds the instantaneous liquidity and reserves at `current_block` into
    /// the tracked averages. At most one update takes effect per block; a
    /// rejected update changes nothing.
    fn update_safe_reserve(
        &mut self,
        current_block: u64,
        liquidity: u128,
        first_reserve: u128,
        second_reserve: u128,
    ) -> (r: Result<(), Error>)
        ensures
            match update_outcome(
                old(self).tracker(),
                current_block,
                liquidity,
                first_reserve,
                second_reserve,
            ) {
                Ok(next) => r is Ok && final(self).tracker() == next,
                Err(e) => r == Err::<(), Error>(e) && final(self).tracker() == old(self).tracker(),
            },
            final(self).tracker().num_blocks >= old(self).tracker().num_blocks,
    ;

    /// Zeroes the accumulated weight and the three averages.
    fn reset_safe_reserve(&mut self)
        ensures
            final(self).tracker() == reset_state(old(self).tracker()),
    ;
}

impl SafeReserveState {
    /// A tracker that has recorded nothing.
    pub fn new() -> (s: SafeReserveState)
        ensures
            s == (SafeReserveState {
                last_block: 0,
                num_blocks: 0,
                safe_liquidity: 0,
                safe_reserve_first: 0,
                safe_reserve_second: 0,
            }),
    {
        SafeReserveState {
            last_block: 0,
            num_blocks: 0,
            safe_liquidity: 0,
            safe_reserve_first: 0,
            safe_reserve_second: 0,
        }
    }
}

impl SafeReserveModule for SafeReserveState {
    open spec fn tracker(&self) -> SafeReserveState {
        *self
    }

    fn update_safe_reserve(
        &mut self,
        current_block: u64,
        liquidity: u128,
        first_reserve: u128,
        second_reserve: u128,
    ) -> (r: Result<(), Error>) {
        let last_block: u64 = self.last_block;
        if last_block == current_block {
            return Ok(());
        }
        let num_blocks: u64 = self.num_blocks;
        if num_blocks == 0 {
            self.last_block = current_block;
            self.num_blocks = 1;
            self.safe_liquidity = liquidity;
            self.safe_reserve_first = first_reserve;
            self.safe_reserve_second = second_reserve;
            return Ok(());
        }
        if current_block < last_block {
            return Err(Error::ClockSkew);
        }
        let blocks_passed: u64 = current_block - last_block;
        let new_num_blocks: u64 = match num_blocks.checked_add(blocks_passed) {
            Some(n) => n,
            None => {
                return Err(Error::Overflow);
            },
        };
        let new_safe_liquidity: u128 = match blend(
            self.safe_liquidity,
            num_blocks,
            liquidity,
            blocks_passed,
        ) {
            Ok(v) => v,
            Err(e) => {
                return Err(e);
            },
        };
        let new_safe_reserve_first: u128 = match blend(
            self.safe_reserve_first,
            num_blocks,
            first_reserve,
            blocks_passed,
        ) {
            Ok(v) => v,
            Err(e) => {
                return Err(e);
            },
        };
        let new_safe_reserve_second: u128 = match blend(
            self.safe_reserve_second,
            num_blocks,
            second_reserve,
            blocks_passed,
        ) {
            Ok(v) => v,
            Err(e) => {
                return Err(e);
            },
        };
        self.last_block = current_block;
        self.num_blocks = new_num_blocks;
        self.safe_liquidity = new_safe_liquidity;
        self.safe_reserve_first = new_safe_reserve_first;
        self.safe_reserve_second = new_safe_reserve_second;
        Ok(())
    }

    fn reset_safe_reserve(&mut self) {
        self.num_blocks = 0;
        self.safe_liquidity = 0;
        self.safe_reserve_first = 0;
        self.safe_reserve_second = 0;
    }
}

/// A second update in the same block changes nothing: once an update at
/// `current_block` has been accepted, any further update at that block,
/// whatever values it brings, is accepted and leaves the tracker as it is.
pub proof fn lemma_second_update_in_block_is_noop(
    s: SafeReserveState,
    current_block: u64,
    liquidity: u128,
    first_reserve: u128,
    second_reserve: u128,
    liquidity2: u128,
    first_reserve2: u128,
    second_reserve2: u128,
)
    requires
        update_outcome(s, current_block, liquidity, first_reserve, second_reserve) is Ok,
    ensures
        update_outcome(
            update_outcome(s, current_block, liquidity, first_reserve, second_reserve)->Ok_0,
            current_block,
            liquidity2,
            first_reserve2,
            second_reserve2,
        ) == update_outcome(s, current_block, liquidity, first_reserve, second_reserve),
{
}

/// The accumulated weight never shrinks under an update.
pub proof fn lemma_weight_never_shrinks(
    s: SafeReserveState,
    current_block: u64,
    liquidity: u128,
    first_reserve: u128,
    second_reserve: u128,
)
    requires
        update_outcome(s, current_block, liquidity, first_reserve, second_reserve) is Ok,
    ensures
        update_outcome(s, current_block, liquidity, first_reserve, second_reserve)->Ok_0.num_blocks
            >= s.num_blocks,
{
}

/// One step towards a constant: the average of a tracked value and a constant
/// instantaneous value `c` lies between the two, so it never moves away from
/// `c` and never passes it. From above the distance shrinks by the factor
/// `weight / (weight + blocks)`; from below it does so up to the one unit
/// that the floor cuts off.
pub proof fn lemma_average_moves_towards_constant(safe: nat, weight: nat, c: nat, blocks: nat)
    by (nonlinear_arith)
    requires
        weight + blocks > 0,
    ensures
        safe >= c ==> c <= weighted_average(safe, weight, c, blocks) <= safe,
        safe >= c ==> (weighted_average(safe, weight, c, blocks) - c) * (weight + blocks) <= (safe
            - c) * weight,
        safe <= c ==> safe <= weighted_average(safe, weight, c, blocks) <= c,
        safe <= c ==> (c - weighted_average(safe, weight, c, blocks)) * (weight + blocks) < (c
            - safe) * weight + (weight + blocks),
        safe == c ==> weighted_average(safe, weight, c, blocks) == c,
{
    let total = safe * weight + c * blocks;
    let d = weight + blocks;
    let q = total / d;
    assert(q * d <= total && total < (q + 1) * d);
    assert(c * d == c * weight + c * blocks);
    assert(safe * d == safe * weight + safe * blocks);
}

/// The tracked value after a run of updates that all bring the constant `c`,
/// the `i`-th of them `blocks[i]` blocks after the one before.
pub open spec fn after_constant_updates(safe: nat, weight: nat, c: nat, blocks: Seq<nat>) -> nat
    decreases blocks.len(),
{
    if blocks.len() == 0 {
        safe
    } else {
        after_constant_updates(
            weighted_average(safe, weight, c, blocks[0]),
            weight + blocks[0],
            c,
            blocks.drop_first(),
        )
    }
}

/// The weight accumulated after the same run of updates.
pub open spec fn weight_after_updates(weight: nat, blocks: Seq<nat>) -> nat
    decreases blocks.len(),
{
    if blocks.len() == 0 {
        weight
    } else {
        weight_after_updates(weight + blocks[0], blocks.drop_first())
    }
}

/// Convergence under a constant instantaneous value `c`: over any run of
/// updates the tracked value stays between where it started and `c`; started
/// above `c`, its distance to `c` times the accumulated weight never exceeds
/// the starting distance times the starting weight, so the distance falls to
/// zero as weight accumulates.
pub proof fn lemma_converges_to_constant(safe: nat, weight: nat, c: nat, blocks: Seq<nat>)
    requires
        weight > 0,
    ensures
        safe >= c ==> c <= after_constant_updates(safe, weight, c, blocks) <= safe,
        safe >= c ==> (after_constant_updates(safe, weight, c, blocks) - c) * weight_after_updates(
            weight,
            blocks,
        ) <= (safe - c) * weight,
        safe <= c ==> safe <= after_constant_updates(safe, weight, c, blocks) <= c,
        weight_after_updates(weight, blocks) >= weight,
    decreases blocks.len(),
{
    if blocks.len() > 0 {
        let next = weighted_average(safe, weight, c, blocks[0]);
        lemma_average_moves_towards_constant(safe, weight, c, blocks[0]);
        lemma_converges_to_constant(next, weight + blocks[0], c, blocks.drop_first());
    }
}

} // verus!
