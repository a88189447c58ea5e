//! The tick entity: price-boundary state at one discrete tick index,
//! carrying the liquidity deltas and the "outside" growth snapshots that the
//! crossing engine flips.

use vstd::prelude::*;
use crate::errors::ErrorCode;
use crate::state::pool::NUM_REWARDS;

verus! {

/// Lowest usable tick index.
pub const MIN_TICK_INDEX: i32 = -443636;

/// Highest usable tick index.
pub const MAX_TICK_INDEX: i32 = 443636;

/// Price-boundary state at one discrete tick index.
#[derive(Clone, Copy, Debug, PartialEq, Eq)]
pub struct Tick {
    /// Whether a position currently references this tick as a boundary.
    pub initialized: bool,
    /// Signed liquidity delta applied to pool liquidity when price crosses
    /// this tick moving upward.
    pub liquidity_net: i128,
    /// Total liquidity referencing this tick as a boundary.
    pub liquidity_gross: u128,
    /// Snapshot of token-A fee growth accumulated on the side of this tick
    /// away from the current price, Q64.64, wrapping.
    pub fee_growth_outside_a: u128,
    /// Snapshot of token-B fee growth accumulated on the side of this tick
    /// away from the current price, Q64.64, wrapping.
    pub fee_growth_outside_b: u128,
    /// Per-reward-slot growth snapshots on the side of this tick away from
    /// the current price, Q64.64, wrapping.
    pub reward_growths_outside: [u128; NUM_REWARDS],
}

/// A pre-computed update record for one tick, produced by the tick engine
/// and applied atomically by `Tick::update`.
#[derive(Clone, Copy, Debug, PartialEq, Eq)]
pub struct TickUpdate {
    pub initialized: bool,
    pub liquidity_net: i128,
    pub liquidity_gross: u128,
    pub fee_growth_outside_a: u128,
    pub fee_growth_outside_b: u128,
    pub reward_growths_outside: [u128; NUM_REWARDS],
}

impl TickUpdate {
    /// The update that carries a tick over unchanged.
    pub open spec fn spec_from(tick: Tick) -> TickUpdate {
        TickUpdate {
            initialized: tick.initialized,
            liquidity_net: tick.liquidity_net,
            liquidity_gross: tick.liquidity_gross,
            fee_growth_outside_a: tick.fee_growth_outside_a,
            fee_growth_outside_b: tick.fee_growth_outside_b,
            reward_growths_outside: tick.reward_growths_outside,
        }
    }

    /// Copies a tick's current fields into an update record.
    pub fn from(tick: &Tick) -> (r: TickUpdate)
        ensures
            r == TickUpdate::spec_from(*tick),
    {
        TickUpdate {
            initialized: tick.initialized,
            liquidity_net: tick.liquidity_net,
            liquidity_gross: tick.liquidity_gross,
            fee_growth_outside_a: tick.fee_growth_outside_a,
            fee_growth_outside_b: tick.fee_growth_outside_b,
            reward_growths_outside: tick.reward_growths_outside,
        }
    }

    /// The update that clears a tick back to its uninitialized state.
    pub open spec fn spec_cleared() -> TickUpdate {
        TickUpdate {
            initialized: false,
            liquidity_net: 0,
            liquidity_gross: 0,
            fee_growth_outside_a: 0,
            fee_growth_outside_b: 0,
            reward_growths_outside: [0u128, 0u128, 0u128],
        }
    }

    /// Builds the cleared update record.
    pub fn cleared() -> (r: TickUpdate)
        ensures
            r == TickUpdate::spec_cleared(),
    {
        TickUpdate {
            initialized: false,
            liquidity_net: 0,
            liquidity_gross: 0,
            fee_growth_outside_a: 0,
            fee_growth_outside_b: 0,
            reward_growths_outside: [0u128, 0u128, 0u128],
        }
    }
}

impl Tick {
    /// A tick index is usable as a position boundary when it lies within the
    /// representable tick range and is aligned to the pool's tick spacing.
    pub open spec fn spec_is_usable_tick(tick_index: i32, tick_spacing: u16) -> bool {
        &&& MIN_TICK_INDEX <= tick_index <= MAX_TICK_INDEX
        &&& vstd::math::abs(tick_index as int) % (tick_spacing as nat) == 0
    }

    /// Checks that a tick index is in range and aligned to the tick spacing.
    pub fn check_is_usable_tick(tick_index: i32, tick_spacing: u16) -> (r: bool)
        requires
            tick_spacing >= 1,
        ensures
            r == Tick::spec_is_usable_tick(tick_index, tick_spacing),
    {
        if tick_index < MIN_TICK_INDEX || tick_index > MAX_TICK_INDEX {
            return false;
        }
        let abs_index: u64 = if tick_index >= 0 {
            tick_index as u64
        } else {
            (-(tick_index as i64)) as u64
        };
        abs_index % (tick_spacing as u64) == 0
    }

    /// Assigns all fields from a pre-computed update record.
    pub fn update(&mut self, update: &TickUpdate)
        ensures
            *final(self) == (Tick {
                initialized: update.initialized,
                liquidity_net: update.liquidity_net,
                liquidity_gross: update.liquidity_gross,
                fee_growth_outside_a: update.fee_growth_outside_a,
                fee_growth_outside_b: update.fee_growth_outside_b,
                reward_growths_outside: update.reward_growths_outside,
            }),
    {
        self.initialized = update.initialized;
        self.liquidity_net = update.liquidity_net;
        self.liquidity_gross = update.liquidity_gross;
        self.fee_growth_outside_a = update.fee_growth_outside_a;
        self.fee_growth_outside_b = update.fee_growth_outside_b;
        self.reward_growths_outside = update.reward_growths_outside;
    }
}

} // verus!
