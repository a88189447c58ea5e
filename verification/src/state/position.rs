//! The position entity: one liquidity provider's stake over a tick range,
//! with its fee and reward checkpoints and owed amounts.

use vstd::prelude::*;
use crate::address::Address;
use crate::errors::ErrorCode;
use crate::state::pool::{ElysiumPool, NUM_REWARDS};
use crate::state::tick::Tick;

verus! {

/// Per-reward-slot accounting of one position: the growth-inside value last
/// synchronized to, and the reward amount owed but not yet collected.
#[derive(Clone, Copy, Debug, PartialEq, Eq, Structural)]
pub struct PositionRewardInfo {
    /// Reward growth inside the position's range at the last sync, Q64.64.
    pub growth_inside_checkpoint: u128,
    /// Reward tokens owed to the position, wrapping on 64-bit overflow.
    pub amount_owed: u64,
}

/// One liquidity provider's stake over `[tick_lower, tick_upper)`.
#[derive(Clone, Copy, Debug, PartialEq, Eq)]
pub struct Position {
    /// The pool this position provides liquidity to.
    pub pool: Address,
    /// Mint of the token that represents ownership of this position.
    pub position_mint: Address,
    /// Liquidity of this position.
    pub liquidity: u128,
    /// Lower boundary tick index.
    pub tick_lower_index: i32,
    /// Upper boundary tick index.
    pub tick_upper_index: i32,
    /// Token-A fee growth inside the range at the last sync, Q64.64.
    pub fee_growth_checkpoint_a: u128,
    /// Token-A fees owed, wrapping on 64-bit overflow.
    pub fee_owed_a: u64,
    /// Token-B fee growth inside the range at the last sync, Q64.64.
    pub fee_growth_checkpoint_b: u128,
    /// Token-B fees owed, wrapping on 64-bit overflow.
    pub fee_owed_b: u64,
    /// Per-reward-slot checkpoints and owed amounts.
    pub reward_infos: [PositionRewardInfo; NUM_REWARDS],
}

/// A pre-computed update record for one position, produced by the liquidity
/// modification engine and applied atomically by `Position::update`.
#[derive(Clone, Copy, Debug, PartialEq, Eq)]
pub struct PositionUpdate {
    pub liquidity: u128,
    pub fee_growth_checkpoint_a: u128,
    pub fee_owed_a: u64,
    pub fee_growth_checkpoint_b: u128,
    pub fee_owed_b: u64,
    pub reward_infos: [PositionRewardInfo; NUM_REWARDS],
}

impl Position {
    /// Opens a position with zero liquidity over the given boundaries;
    /// fails with `InvalidTickIndex` unless both boundaries are usable ticks
    /// of the pool and the lower one lies strictly below the upper one.
    pub fn open_position(
        pool: &ElysiumPool,
        pool_address: Address,
        position_mint: Address,
        tick_lower_index: i32,
        tick_upper_index: i32,
    ) -> (r: Result<Position, ErrorCode>)
        requires
            pool.tick_spacing >= 1,
        ensures
            r is Ok <==> {
                &&& Tick::spec_is_usable_tick(tick_lower_index, pool.tick_spacing)
                &&& Tick::spec_is_usable_tick(tick_upper_index, pool.tick_spacing)
                &&& tick_lower_index < tick_upper_index
            },
            r is Err ==> r == Err::<Position, ErrorCode>(ErrorCode::InvalidTickIndex),
            r matches Ok(position) ==> {
                &&& position.pool == pool_address
                &&& position.position_mint == position_mint
                &&& position.liquidity == 0
                &&& position.tick_lower_index == tick_lower_index
                &&& position.tick_upper_index == tick_upper_index
                &&& position.fee_growth_checkpoint_a == 0
                &&& position.fee_owed_a == 0
                &&& position.fee_growth_checkpoint_b == 0
                &&& position.fee_owed_b == 0
                &&& forall|i: int|
                    0 <= i < NUM_REWARDS ==> position.reward_infos[i] == (PositionRewardInfo {
                        growth_inside_checkpoint: 0,
                        amount_owed: 0,
                    })
            },
    {
        if !Tick::check_is_usable_tick(tick_lower_index, pool.tick_spacing)
            || !Tick::check_is_usable_tick(tick_upper_index, pool.tick_spacing)
            || tick_lower_index >= tick_upper_index {
            return Err(ErrorCode::InvalidTickIndex);
        }
        let empty_slot = PositionRewardInfo { growth_inside_checkpoint: 0, amount_owed: 0 };
        Ok(
            Position {
                pool: pool_address,
                position_mint,
                liquidity: 0,
                tick_lower_index,
                tick_upper_index,
                fee_growth_checkpoint_a: 0,
                fee_owed_a: 0,
                fee_growth_checkpoint_b: 0,
                fee_owed_b: 0,
                reward_infos: [empty_slot, empty_slot, empty_slot],
            },
        )
    }

    /// Assigns all mutable fields from a pre-computed update record.
    pub fn update(&mut self, update: &PositionUpdate)
        ensures
            *final(self) == (Position {
                liquidity: update.liquidity,
                fee_growth_checkpoint_a: update.fee_growth_checkpoint_a,
                fee_owed_a: update.fee_owed_a,
                fee_growth_checkpoint_b: update.fee_growth_checkpoint_b,
                fee_owed_b: update.fee_owed_b,
                reward_infos: update.reward_infos,
                ..*old(self)
            }),
    {
        self.liquidity = update.liquidity;
        self.fee_growth_checkpoint_a = update.fee_growth_checkpoint_a;
        self.fee_owed_a = update.fee_owed_a;
        self.fee_growth_checkpoint_b = update.fee_growth_checkpoint_b;
        self.fee_owed_b = update.fee_owed_b;
        self.reward_infos = update.reward_infos;
    }
}

} // verus!
