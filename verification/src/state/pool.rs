//! The pool entity: one trading pair at a fixed tick spacing, with its active
//! liquidity, cumulative fee growth, reward-emission slots and fee rates.

use vstd::prelude::*;
use crate::address::Address;
use crate::errors::ErrorCode;

verus! {

/// Number of reward-emission slots of a pool.
pub const NUM_REWARDS: usize = 3;

/// Upper bound of a pool's fee rate, in hundredths of a basis point.
pub const MAX_FEE_RATE: u16 = 10_000;

/// Upper bound of a pool's protocol fee rate, in basis-point-like units.
pub const MAX_PROTOCOL_FEE_RATE: u16 = 10_000;

/// Lowest admissible square-root price, as a Q64.64 value.
pub const MIN_SQRT_PRICE_X64: u128 = 4295048016;

/// Highest admissible square-root price, as a Q64.64 value.
pub const MAX_SQRT_PRICE_X64: u128 = 79226673515401279992447579055;

/// One reward-emission slot: the reward token's identities, its emission
/// rate, and the cumulative growth of rewards per unit of active liquidity.
#[derive(Clone, Copy, Debug, PartialEq, Eq)]
pub struct ElysiumPoolRewardInfo {
    /// Reward token mint; the all-zero identifier marks an unset slot.
    pub mint: Address,
    /// Vault holding the reward tokens still to be distributed.
    pub vault: Address,
    /// Authority allowed to change this slot's emission rate.
    pub authority: Address,
    /// Emission rate in reward tokens per second, Q64.64.
    pub emissions_per_second_x64: u128,
    /// Cumulative reward growth per unit of active liquidity, Q64.64,
    /// wrapping on 128-bit overflow.
    pub growth_global_x64: u128,
}

impl ElysiumPoolRewardInfo {
    /// A slot is initialized once a reward mint has been assigned to it.
    pub open spec fn spec_initialized(self) -> bool {
        self.mint != Address::spec_zero()
    }

    /// Whether this reward slot has been initialized with a mint.
    pub fn initialized(&self) -> (r: bool)
        ensures
            r == self.spec_initialized(),
    {
        !(self.mint == Address::default())
    }

    /// Extracts the per-slot cumulative growth values from an array of slots.
    pub fn to_reward_growths(reward_infos: &[ElysiumPoolRewardInfo; NUM_REWARDS]) -> (r: [u128;
        NUM_REWARDS])
        ensures
            forall|i: int|
                0 <= i < NUM_REWARDS ==> r[i] == reward_infos[i].growth_global_x64,
    {
        let mut growths: [u128; NUM_REWARDS] = [0, 0, 0];
        let mut i: usize = 0;
        while i < NUM_REWARDS
            invariant
                i <= NUM_REWARDS,
                forall|j: int| 0 <= j < i ==> growths[j] == reward_infos[j].growth_global_x64,
            decreases NUM_REWARDS - i,
        {
            growths[i] = reward_infos[i].growth_global_x64;
            i = i + 1;
        }
        growths
    }
}

/// One trading pair at a fixed tick spacing, with its mutable accounting
/// state.
#[derive(Clone, Copy, Debug, PartialEq, Eq)]
pub struct ElysiumPool {
    /// The administrative configuration this pool belongs to.
    pub pools_config: Address,
    /// Storage bump seed of the pool account.
    pub bump: u8,
    /// Distance between usable tick indices.
    pub tick_spacing: u16,
    /// Fee rate taken on swaps, in hundredths of a basis point.
    pub fee_rate: u16,
    /// Portion of fees taken for the protocol, in basis-point-like units.
    pub protocol_fee_rate: u16,
    /// Liquidity currently active (in range).
    pub liquidity: u128,
    /// Current square-root price, Q64.64.
    pub sqrt_price: u128,
    /// Current tick index.
    pub tick_current_index: i32,
    /// Protocol fees collected in token A, not yet withdrawn.
    pub protocol_fee_owed_a: u64,
    /// Protocol fees collected in token B, not yet withdrawn.
    pub protocol_fee_owed_b: u64,
    /// Mint of token A.
    pub token_mint_a: Address,
    /// Vault of token A.
    pub token_vault_a: Address,
    /// Cumulative fee growth of token A per unit of active liquidity,
    /// Q64.64, wrapping on 128-bit overflow.
    pub fee_growth_global_a: u128,
    /// Mint of token B.
    pub token_mint_b: Address,
    /// Vault of token B.
    pub token_vault_b: Address,
    /// Cumulative fee growth of token B per unit of active liquidity,
    /// Q64.64, wrapping on 128-bit overflow.
    pub fee_growth_global_b: u128,
    /// Timestamp of the last reward-growth update, in seconds.
    pub reward_last_updated_timestamp: u64,
    /// The pool's reward-emission slots.
    pub reward_infos: [ElysiumPoolRewardInfo; NUM_REWARDS],
}

impl ElysiumPool {
    /// The empty reward slot every pool starts from.
    pub open spec fn spec_empty_reward_slot() -> ElysiumPoolRewardInfo {
        ElysiumPoolRewardInfo {
            mint: Address::spec_zero(),
            vault: Address::spec_zero(),
            authority: Address::spec_zero(),
            emissions_per_second_x64: 0,
            growth_global_x64: 0,
        }
    }

    /// Creates a pool with zero liquidity, zero accumulated growth and empty
    /// reward slots; fails with `SqrtPriceOutOfBounds` if the initial
    /// square-root price lies outside the admissible range. One-time-only
    /// semantics hold by construction: the pool state exists only once this
    /// call succeeds. The current tick index starts at zero; deriving it
    /// from the square-root price is price-curve math outside this engine.
    pub fn initialize(
        pools_config: Address,
        bump: u8,
        tick_spacing: u16,
        initial_sqrt_price: u128,
        default_fee_rate: u16,
        token_mint_a: Address,
        token_vault_a: Address,
        token_mint_b: Address,
        token_vault_b: Address,
    ) -> (r: Result<ElysiumPool, ErrorCode>)
        ensures
            (MIN_SQRT_PRICE_X64 <= initial_sqrt_price <= MAX_SQRT_PRICE_X64) <==> r is Ok,
            r matches Ok(pool) ==> {
                &&& pool.pools_config == pools_config
                &&& pool.bump == bump
                &&& pool.tick_spacing == tick_spacing
                &&& pool.fee_rate == default_fee_rate
                &&& pool.protocol_fee_rate == 0
                &&& pool.liquidity == 0
                &&& pool.sqrt_price == initial_sqrt_price
                &&& pool.tick_current_index == 0
                &&& pool.protocol_fee_owed_a == 0
                &&& pool.protocol_fee_owed_b == 0
                &&& pool.token_mint_a == token_mint_a
                &&& pool.token_vault_a == token_vault_a
                &&& pool.fee_growth_global_a == 0
                &&& pool.token_mint_b == token_mint_b
                &&& pool.token_vault_b == token_vault_b
                &&& pool.fee_growth_global_b == 0
                &&& pool.reward_last_updated_timestamp == 0
                &&& forall|i: int|
                    0 <= i < NUM_REWARDS ==> pool.reward_infos[i]
                        == ElysiumPool::spec_empty_reward_slot()
            },
            r is Err ==> r == Err::<ElysiumPool, ErrorCode>(ErrorCode::SqrtPriceOutOfBounds),
    {
        if initial_sqrt_price < MIN_SQRT_PRICE_X64 || initial_sqrt_price > MAX_SQRT_PRICE_X64 {
            return Err(ErrorCode::SqrtPriceOutOfBounds);
        }
        let empty_slot = ElysiumPoolRewardInfo {
            mint: Address::default(),
            vault: Address::default(),
            authority: Address::default(),
            emissions_per_second_x64: 0,
            growth_global_x64: 0,
        };
        Ok(
            ElysiumPool {
                pools_config,
                bump,
                tick_spacing,
                fee_rate: default_fee_rate,
                protocol_fee_rate: 0,
                liquidity: 0,
                sqrt_price: initial_sqrt_price,
                tick_current_index: 0,
                protocol_fee_owed_a: 0,
                protocol_fee_owed_b: 0,
                token_mint_a,
                token_vault_a,
                fee_growth_global_a: 0,
                token_mint_b,
                token_vault_b,
                fee_growth_global_b: 0,
                reward_last_updated_timestamp: 0,
                reward_infos: [empty_slot, empty_slot, empty_slot],
            },
        )
    }

    /// Applies a pre-computed reward-growth array together with the
    /// timestamp it was computed for.
    pub fn update_rewards(
        &mut self,
        reward_infos: [ElysiumPoolRewardInfo; NUM_REWARDS],
        reward_last_updated_timestamp: u64,
    )
        ensures
            *final(self) == (ElysiumPool {
                reward_infos,
                reward_last_updated_timestamp,
                ..*old(self)
            }),
    {
        self.reward_last_updated_timestamp = reward_last_updated_timestamp;
        self.reward_infos = reward_infos;
    }

    /// Applies a pre-computed reward-growth array and sets the emission rate
    /// of one slot; fails with `InvalidRewardIndex` if the slot index is out
    /// of range, leaving the pool unchanged.
    pub fn update_emissions(
        &mut self,
        index: usize,
        reward_infos: [ElysiumPoolRewardInfo; NUM_REWARDS],
        timestamp: u64,
        emissions_per_second_x64: u128,
    ) -> (r: Result<(), ErrorCode>)
        ensures
            r is Ok <==> index < NUM_REWARDS,
            r is Err ==> r == Err::<(), ErrorCode>(ErrorCode::InvalidRewardIndex) && *final(self)
                == *old(self),
            r is Ok ==> {
                &&& *final(self) == (ElysiumPool {
                    reward_infos: final(self).reward_infos,
                    reward_last_updated_timestamp: timestamp,
                    ..*old(self)
                })
                &&& forall|i: int|
                    0 <= i < NUM_REWARDS && i != index ==> final(self).reward_infos[i]
                        == reward_infos[i]
                &&& final(self).reward_infos[index as int] == (ElysiumPoolRewardInfo {
                    emissions_per_second_x64,
                    ..reward_infos[index as int]
                })
            },
    {
        if index >= NUM_REWARDS {
            return Err(ErrorCode::InvalidRewardIndex);
        }
        self.update_rewards(reward_infos, timestamp);
        let mut slot = self.reward_infos[index];
        slot.emissions_per_second_x64 = emissions_per_second_x64;
        self.reward_infos[index] = slot;
        Ok(())
    }

    /// Assigns a reward mint and vault to one slot; fails with
    /// `InvalidRewardIndex` if the index is out of range and with
    /// `AlreadyInitialized` if the slot already has a mint. The pool is
    /// unchanged on either error.
    pub fn initialize_reward(&mut self, index: usize, mint: Address, vault: Address) -> (r: Result<
        (),
        ErrorCode,
    >)
        ensures
            r is Ok <==> index < NUM_REWARDS && !old(self).reward_infos[index as int]
                .spec_initialized(),
            index >= NUM_REWARDS ==> r == Err::<(), ErrorCode>(ErrorCode::InvalidRewardIndex),
            index < NUM_REWARDS && old(self).reward_infos[index as int].spec_initialized() ==> r
                == Err::<(), ErrorCode>(ErrorCode::AlreadyInitialized),
            r is Err ==> *final(self) == *old(self),
            r is Ok ==> {
                &&& *final(self) == (ElysiumPool {
                    reward_infos: final(self).reward_infos,
                    ..*old(self)
                })
                &&& forall|i: int|
                    0 <= i < NUM_REWARDS && i != index ==> final(self).reward_infos[i] == old(
                        self,
                    ).reward_infos[i]
                &&& final(self).reward_infos[index as int] == (ElysiumPoolRewardInfo {
                    mint,
                    vault,
                    ..old(self).reward_infos[index as int]
                })
            },
    {
        if index >= NUM_REWARDS {
            return Err(ErrorCode::InvalidRewardIndex);
        }
        if self.reward_infos[index].initialized() {
            return Err(ErrorCode::AlreadyInitialized);
        }
        let mut slot = self.reward_infos[index];
        slot.mint = mint;
        slot.vault = vault;
        self.reward_infos[index] = slot;
        Ok(())
    }

    /// Sets the authority of one reward slot; fails with
    /// `InvalidRewardIndex` if the index is out of range, leaving the pool
    /// unchanged.
    pub fn update_reward_authority(&mut self, index: usize, authority: Address) -> (r: Result<
        (),
        ErrorCode,
    >)
        ensures
            r is Ok <==> index < NUM_REWARDS,
            r is Err ==> r == Err::<(), ErrorCode>(ErrorCode::InvalidRewardIndex) && *final(self)
                == *old(self),
            r is Ok ==> {
                &&& *final(self) == (ElysiumPool {
                    reward_infos: final(self).reward_infos,
                    ..*old(self)
                })
                &&& forall|i: int|
                    0 <= i < NUM_REWARDS && i != index ==> final(self).reward_infos[i] == old(
                        self,
                    ).reward_infos[i]
                &&& final(self).reward_infos[index as int] == (ElysiumPoolRewardInfo {
                    authority,
                    ..old(self).reward_infos[index as int]
                })
            },
    {
        if index >= NUM_REWARDS {
            return Err(ErrorCode::InvalidRewardIndex);
        }
        let mut slot = self.reward_infos[index];
        slot.authority = authority;
        self.reward_infos[index] = slot;
        Ok(())
    }

    /// Sets the pool's fee rate; fails with `FeeRateMaxExceeded` if the rate
    /// is above `MAX_FEE_RATE`, leaving the pool unchanged.
    pub fn update_fee_rate(&mut self, fee_rate: u16) -> (r: Result<(), ErrorCode>)
        ensures
            r is Ok <==> fee_rate <= MAX_FEE_RATE,
            r is Err ==> r == Err::<(), ErrorCode>(ErrorCode::FeeRateMaxExceeded) && *final(self)
                == *old(self),
            r is Ok ==> *final(self) == (ElysiumPool { fee_rate, ..*old(self) }),
    {
        if fee_rate > MAX_FEE_RATE {
            return Err(ErrorCode::FeeRateMaxExceeded);
        }
        self.fee_rate = fee_rate;
        Ok(())
    }

    /// Sets the pool's protocol fee rate; fails with
    /// `ProtocolFeeRateMaxExceeded` if the rate is above
    /// `MAX_PROTOCOL_FEE_RATE`, leaving the pool unchanged.
    pub fn update_protocol_fee_rate(&mut self, protocol_fee_rate: u16) -> (r: Result<
        (),
        ErrorCode,
    >)
        ensures
            r is Ok <==> protocol_fee_rate <= MAX_PROTOCOL_FEE_RATE,
            r is Err ==> r == Err::<(), ErrorCode>(ErrorCode::ProtocolFeeRateMaxExceeded)
                && *final(self) == *old(self),
            r is Ok ==> *final(self) == (ElysiumPool { protocol_fee_rate, ..*old(self) }),
    {
        if protocol_fee_rate > MAX_PROTOCOL_FEE_RATE {
            return Err(ErrorCode::ProtocolFeeRateMaxExceeded);
        }
        self.protocol_fee_rate = protocol_fee_rate;
        Ok(())
    }
}

} // verus!
