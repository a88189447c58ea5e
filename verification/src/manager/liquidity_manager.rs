//! Liquidity modification engine: the central orchestration for any event
//! that changes a position's liquidity or synchronizes its owed fees and
//! rewards. It is a pure function from a state snapshot to an update bundle;
//! the caller applies the bundle atomically, all fields or none.

use vstd::prelude::*;
use crate::errors::ErrorCode;
use crate::manager::pool_manager::{next_pool_reward_infos, spec_next_slot, spec_reward_update_fails};
use crate::manager::position_manager::{
    next_position_modify_liquidity_update, spec_accrual_overflows, spec_next_amount_owed,
};
use crate::manager::tick_manager::{
    next_fee_growths_inside, next_reward_growths_inside, next_tick_modify_liquidity_update,
    spec_fee_growth_inside, spec_initial_outside, spec_next_liquidity_net,
    spec_reward_growth_inside_slot,
};
use crate::math::add_liquidity_delta;
use crate::state::pool::{ElysiumPool, ElysiumPoolRewardInfo, NUM_REWARDS};
use crate::state::position::{Position, PositionRewardInfo, PositionUpdate};
use crate::state::tick::{Tick, TickUpdate};

verus! {

/// The update bundle of one liquidity modification: new pool liquidity, new
/// pool reward slots, and the tick and position update sub-records. Nothing
/// is mutated while it is computed.
#[derive(Clone, Copy, Debug, PartialEq, Eq)]
pub struct ModifyLiquidityUpdate {
    pub pool_liquidity: u128,
    pub reward_infos: [ElysiumPoolRewardInfo; NUM_REWARDS],
    pub position_update: PositionUpdate,
    pub tick_lower_update: TickUpdate,
    pub tick_upper_update: TickUpdate,
}

/// Whether the pool's current tick index lies inside the position's range,
/// in which case a liquidity delta also applies to the pool's active
/// liquidity.
pub open spec fn spec_position_in_range(pool: ElysiumPool, position: Position) -> bool {
    position.tick_lower_index <= pool.tick_current_index < position.tick_upper_index
}

/// The reward growth inside the position's range for one slot, measured
/// against the pool's reward state advanced to the given timestamp.
pub open spec fn spec_reward_growth_inside_next(
    pool: ElysiumPool,
    position: Position,
    tick_lower: Tick,
    tick_upper: Tick,
    timestamp: u64,
    i: int,
) -> u128 {
    spec_reward_growth_inside_slot(
        pool.tick_current_index,
        tick_lower,
        position.tick_lower_index,
        tick_upper,
        position.tick_upper_index,
        spec_next_slot(pool, timestamp, i),
        i,
    )
}

/// The fee growth inside the position's range for token A.
pub open spec fn spec_fee_growth_inside_a(
    pool: ElysiumPool,
    position: Position,
    tick_lower: Tick,
    tick_upper: Tick,
) -> u128 {
    spec_fee_growth_inside(
        pool.tick_current_index,
        tick_lower,
        position.tick_lower_index,
        tick_upper,
        position.tick_upper_index,
        tick_lower.fee_growth_outside_a,
        tick_upper.fee_growth_outside_a,
        pool.fee_growth_global_a,
    )
}

/// The fee growth inside the position's range for token B.
pub open spec fn spec_fee_growth_inside_b(
    pool: ElysiumPool,
    position: Position,
    tick_lower: Tick,
    tick_upper: Tick,
) -> u128 {
    spec_fee_growth_inside(
        pool.tick_current_index,
        tick_lower,
        position.tick_lower_index,
        tick_upper,
        position.tick_upper_index,
        tick_lower.fee_growth_outside_b,
        tick_upper.fee_growth_outside_b,
        pool.fee_growth_global_b,
    )
}

/// Whether updating one boundary tick for the delta fails.
pub open spec fn spec_tick_update_fails(
    tick: Tick,
    liquidity_delta: i128,
    is_upper_tick: bool,
) -> bool {
    &&& liquidity_delta != 0
    &&& {
        ||| !(0 <= tick.liquidity_gross + liquidity_delta <= u128::MAX)
        ||| {
            &&& tick.liquidity_gross + liquidity_delta != 0
            &&& !(i128::MIN <= spec_next_liquidity_net(
                tick.liquidity_net,
                liquidity_delta,
                is_upper_tick,
            ) <= i128::MAX)
        }
    }
}

/// The error a failing boundary-tick update reports.
pub open spec fn spec_tick_update_error(
    tick: Tick,
    liquidity_delta: i128,
    is_upper_tick: bool,
) -> ErrorCode {
    if tick.liquidity_gross + liquidity_delta < 0 {
        ErrorCode::LiquidityUnderflow
    } else if tick.liquidity_gross + liquidity_delta > u128::MAX {
        ErrorCode::LiquidityOverflow
    } else {
        ErrorCode::ArithmeticOverflow
    }
}

/// Whether computing the position's update fails: an accrued-amount product
/// overflows, or the delta pushes the position's liquidity out of range.
pub open spec fn spec_position_update_fails(
    pool: ElysiumPool,
    position: Position,
    tick_lower: Tick,
    tick_upper: Tick,
    liquidity_delta: i128,
    timestamp: u64,
) -> bool {
    ||| spec_accrual_overflows(
        position.liquidity,
        spec_fee_growth_inside_a(pool, position, tick_lower, tick_upper),
        position.fee_growth_checkpoint_a,
    )
    ||| spec_accrual_overflows(
        position.liquidity,
        spec_fee_growth_inside_b(pool, position, tick_lower, tick_upper),
        position.fee_growth_checkpoint_b,
    )
    ||| exists|i: int|
        0 <= i < NUM_REWARDS && spec_accrual_overflows(
            position.liquidity,
            spec_reward_growth_inside_next(pool, position, tick_lower, tick_upper, timestamp, i),
            #[trigger] position.reward_infos[i].growth_inside_checkpoint,
        )
    ||| !(0 <= position.liquidity + liquidity_delta <= u128::MAX)
}

/// The error a failing position update reports.
pub open spec fn spec_position_update_error(
    pool: ElysiumPool,
    position: Position,
    tick_lower: Tick,
    tick_upper: Tick,
    liquidity_delta: i128,
    timestamp: u64,
) -> ErrorCode {
    if {
        ||| spec_accrual_overflows(
            position.liquidity,
            spec_fee_growth_inside_a(pool, position, tick_lower, tick_upper),
            position.fee_growth_checkpoint_a,
        )
        ||| spec_accrual_overflows(
            position.liquidity,
            spec_fee_growth_inside_b(pool, position, tick_lower, tick_upper),
            position.fee_growth_checkpoint_b,
        )
        ||| exists|i: int|
            0 <= i < NUM_REWARDS && spec_accrual_overflows(
                position.liquidity,
                spec_reward_growth_inside_next(
                    pool,
                    position,
                    tick_lower,
                    tick_upper,
                    timestamp,
                    i,
                ),
                #[trigger] position.reward_infos[i].growth_inside_checkpoint,
            )
    } {
        ErrorCode::ArithmeticOverflow
    } else if position.liquidity + liquidity_delta < 0 {
        ErrorCode::LiquidityUnderflow
    } else {
        ErrorCode::LiquidityOverflow
    }
}

/// The first failure a liquidity modification runs into, in the engine's
/// evaluation order, or `None` when the whole bundle can be computed.
pub open spec fn spec_modify_liquidity_error(
    pool: ElysiumPool,
    position: Position,
    tick_lower: Tick,
    tick_upper: Tick,
    liquidity_delta: i128,
    timestamp: u64,
) -> Option<ErrorCode> {
    if liquidity_delta == 0 && position.liquidity == 0 {
        Some(ErrorCode::LiquidityZero)
    } else if timestamp < pool.reward_last_updated_timestamp {
        Some(ErrorCode::InvalidTimestamp)
    } else if spec_reward_update_fails(pool, timestamp) {
        Some(ErrorCode::ArithmeticOverflow)
    } else if spec_position_in_range(pool, position) && !(0 <= pool.liquidity + liquidity_delta
        <= u128::MAX) {
        Some(
            if pool.liquidity + liquidity_delta < 0 {
                ErrorCode::LiquidityUnderflow
            } else {
                ErrorCode::LiquidityOverflow
            },
        )
    } else if spec_tick_update_fails(tick_lower, liquidity_delta, false) {
        Some(spec_tick_update_error(tick_lower, liquidity_delta, false))
    } else if spec_tick_update_fails(tick_upper, liquidity_delta, true) {
        Some(spec_tick_update_error(tick_upper, liquidity_delta, true))
    } else if spec_position_update_fails(
        pool,
        position,
        tick_lower,
        tick_upper,
        liquidity_delta,
        timestamp,
    ) {
        Some(
            spec_position_update_error(
                pool,
                position,
                tick_lower,
                tick_upper,
                liquidity_delta,
                timestamp,
            ),
        )
    } else {
        None
    }
}

/// What a successful modification's new pool liquidity is: the delta applies
/// only while the pool's current tick index lies inside the position's
/// range.
pub open spec fn spec_next_pool_liquidity(
    pool: ElysiumPool,
    position: Position,
    liquidity_delta: i128,
) -> int {
    if spec_position_in_range(pool, position) {
        pool.liquidity + liquidity_delta
    } else {
        pool.liquidity as int
    }
}

/// How a successful modification's boundary-tick update record relates to
/// the tick it was computed from.
pub open spec fn spec_tick_update_matches(
    u: TickUpdate,
    tick: Tick,
    tick_index: i32,
    pool: ElysiumPool,
    timestamp: u64,
    liquidity_delta: i128,
    is_upper_tick: bool,
) -> bool {
    if liquidity_delta == 0 {
        u == TickUpdate::spec_from(tick)
    } else if tick.liquidity_gross + liquidity_delta == 0 {
        u == TickUpdate::spec_cleared()
    } else {
        &&& u.initialized == true
        &&& u.liquidity_gross == tick.liquidity_gross + liquidity_delta
        &&& u.liquidity_net == spec_next_liquidity_net(
            tick.liquidity_net,
            liquidity_delta,
            is_upper_tick,
        )
        &&& u.fee_growth_outside_a == spec_initial_outside(
            tick.liquidity_gross,
            tick_index,
            pool.tick_current_index,
            pool.fee_growth_global_a,
            tick.fee_growth_outside_a,
        )
        &&& u.fee_growth_outside_b == spec_initial_outside(
            tick.liquidity_gross,
            tick_index,
            pool.tick_current_index,
            pool.fee_growth_global_b,
            tick.fee_growth_outside_b,
        )
        &&& forall|i: int|
            0 <= i < NUM_REWARDS ==> #[trigger] u.reward_growths_outside[i]
                == spec_initial_outside(
                tick.liquidity_gross,
                tick_index,
                pool.tick_current_index,
                spec_next_slot(pool, timestamp, i).growth_global_x64,
                tick.reward_growths_outside[i],
            )
    }
}

/// How a successful modification's position update record relates to the
/// snapshot it was computed from: checkpoints move to the growth inside the
/// range, owed amounts absorb the accrued deltas, and the liquidity absorbs
/// the delta.
pub open spec fn spec_position_update_matches(
    u: PositionUpdate,
    pool: ElysiumPool,
    position: Position,
    tick_lower: Tick,
    tick_upper: Tick,
    liquidity_delta: i128,
    timestamp: u64,
) -> bool {
    &&& u.liquidity == position.liquidity + liquidity_delta
    &&& u.fee_growth_checkpoint_a == spec_fee_growth_inside_a(pool, position, tick_lower, tick_upper)
    &&& u.fee_owed_a == spec_next_amount_owed(
        position.fee_owed_a,
        position.liquidity,
        spec_fee_growth_inside_a(pool, position, tick_lower, tick_upper),
        position.fee_growth_checkpoint_a,
    )
    &&& u.fee_growth_checkpoint_b == spec_fee_growth_inside_b(pool, position, tick_lower, tick_upper)
    &&& u.fee_owed_b == spec_next_amount_owed(
        position.fee_owed_b,
        position.liquidity,
        spec_fee_growth_inside_b(pool, position, tick_lower, tick_upper),
        position.fee_growth_checkpoint_b,
    )
    &&& forall|i: int|
        0 <= i < NUM_REWARDS ==> #[trigger] u.reward_infos[i] == (PositionRewardInfo {
            growth_inside_checkpoint: spec_reward_growth_inside_next(
                pool,
                position,
                tick_lower,
                tick_upper,
                timestamp,
                i,
            ),
            amount_owed: spec_next_amount_owed(
                position.reward_infos[i].amount_owed,
                position.liquidity,
                spec_reward_growth_inside_next(
                    pool,
                    position,
                    tick_lower,
                    tick_upper,
                    timestamp,
                    i,
                ),
                position.reward_infos[i].growth_inside_checkpoint,
            ),
        })
}

/// How a successful modification's whole bundle relates to the snapshot.
pub open spec fn spec_modify_liquidity_matches(
    u: ModifyLiquidityUpdate,
    pool: ElysiumPool,
    position: Position,
    tick_lower: Tick,
    tick_upper: Tick,
    liquidity_delta: i128,
    timestamp: u64,
) -> bool {
    &&& u.pool_liquidity == spec_next_pool_liquidity(pool, position, liquidity_delta)
    &&& forall|i: int|
        0 <= i < NUM_REWARDS ==> #[trigger] u.reward_infos[i] == spec_next_slot(
            pool,
            timestamp,
            i,
        )
    &&& spec_tick_update_matches(
        u.tick_lower_update,
        tick_lower,
        position.tick_lower_index,
        pool,
        timestamp,
        liquidity_delta,
        false,
    )
    &&& spec_tick_update_matches(
        u.tick_upper_update,
        tick_upper,
        position.tick_upper_index,
        pool,
        timestamp,
        liquidity_delta,
        true,
    )
    &&& spec_position_update_matches(
        u.position_update,
        pool,
        position,
        tick_lower,
        tick_upper,
        liquidity_delta,
        timestamp,
    )
}

/// Computes the full update bundle for a liquidity change or a pure sync
/// (`liquidity_delta == 0`) of one position.
///
/// A pure sync of a position with zero liquidity is rejected with
/// `LiquidityZero`. The pool's reward slots are first advanced to the given
/// timestamp; the fee and reward growth inside the position's range is then
/// derived from the boundary ticks' snapshots, the position's owed amounts
/// absorb the accrued deltas, and the delta is applied to the position, both
/// boundary ticks and — while the current tick index is in range — the
/// pool's active liquidity. Nothing is mutated: the caller applies the
/// returned bundle atomically.
pub fn calculate_modify_liquidity(
    pool: &ElysiumPool,
    position: &Position,
    tick_lower: &Tick,
    tick_upper: &Tick,
    liquidity_delta: i128,
    timestamp: u64,
) -> (r: Result<ModifyLiquidityUpdate, ErrorCode>)
    ensures
        r is Err <==> spec_modify_liquidity_error(
            *pool,
            *position,
            *tick_lower,
            *tick_upper,
            liquidity_delta,
            timestamp,
        ) is Some,
        r matches Err(e) ==> spec_modify_liquidity_error(
            *pool,
            *position,
            *tick_lower,
            *tick_upper,
            liquidity_delta,
            timestamp,
        ) == Some(e),
        r matches Ok(u) ==> spec_modify_liquidity_matches(
            u,
            *pool,
            *position,
            *tick_lower,
            *tick_upper,
            liquidity_delta,
            timestamp,
        ),
{
    if liquidity_delta == 0 && position.liquidity == 0 {
        return Err(ErrorCode::LiquidityZero);
    }
    let next_reward_infos = match next_pool_reward_infos(pool, timestamp) {
        Ok(infos) => infos,
        Err(e) => {
            return Err(e);
        }
    };
    let next_pool_liquidity = if position.tick_lower_index <= pool.tick_current_index
        && pool.tick_current_index < position.tick_upper_index {
        match add_liquidity_delta(pool.liquidity, liquidity_delta) {
            Ok(l) => l,
            Err(e) => {
                return Err(e);
            }
        }
    } else {
        pool.liquidity
    };
    let tick_lower_update = match next_tick_modify_liquidity_update(
        tick_lower,
        position.tick_lower_index,
        pool.tick_current_index,
        pool.fee_growth_global_a,
        pool.fee_growth_global_b,
        &next_reward_infos,
        liquidity_delta,
        false,
    ) {
        Ok(u) => u,
        Err(e) => {
            return Err(e);
        }
    };
    let tick_upper_update = match next_tick_modify_liquidity_update(
        tick_upper,
        position.tick_upper_index,
        pool.tick_current_index,
        pool.fee_growth_global_a,
        pool.fee_growth_global_b,
        &next_reward_infos,
        liquidity_delta,
        true,
    ) {
        Ok(u) => u,
        Err(e) => {
            return Err(e);
        }
    };
    let (fee_growth_inside_a, fee_growth_inside_b) = next_fee_growths_inside(
        pool.tick_current_index,
        tick_lower,
        position.tick_lower_index,
        tick_upper,
        position.tick_upper_index,
        pool.fee_growth_global_a,
        pool.fee_growth_global_b,
    );
    let reward_growths_inside = next_reward_growths_inside(
        pool.tick_current_index,
        tick_lower,
        position.tick_lower_index,
        tick_upper,
        position.tick_upper_index,
        &next_reward_infos,
    );
    proof {
        assert(fee_growth_inside_a == spec_fee_growth_inside_a(
            *pool,
            *position,
            *tick_lower,
            *tick_upper,
        ));
        assert(fee_growth_inside_b == spec_fee_growth_inside_b(
            *pool,
            *position,
            *tick_lower,
            *tick_upper,
        ));
        assert forall|i: int| 0 <= i < NUM_REWARDS implies #[trigger] reward_growths_inside[i]
            == spec_reward_growth_inside_next(
            *pool,
            *position,
            *tick_lower,
            *tick_upper,
            timestamp,
            i,
        ) by {
            assert(next_reward_infos[i] == spec_next_slot(*pool, timestamp, i));
        }
    }
    let position_update = match next_position_modify_liquidity_update(
        position,
        liquidity_delta,
        fee_growth_inside_a,
        fee_growth_inside_b,
        &reward_growths_inside,
    ) {
        Ok(u) => u,
        Err(e) => {
            return Err(e);
        }
    };
    Ok(
        ModifyLiquidityUpdate {
            pool_liquidity: next_pool_liquidity,
            reward_infos: next_reward_infos,
            position_update,
            tick_lower_update,
            tick_upper_update,
        },
    )
}

/// Computes the position update and advanced reward slots for a pure sync
/// of a position's owed fees and rewards, without any liquidity change.
pub fn calculate_fee_and_reward_growths(
    pool: &ElysiumPool,
    position: &Position,
    tick_lower: &Tick,
    tick_upper: &Tick,
    timestamp: u64,
) -> (r: Result<(PositionUpdate, [ElysiumPoolRewardInfo; NUM_REWARDS]), ErrorCode>)
    ensures
        r is Err <==> spec_modify_liquidity_error(
            *pool,
            *position,
            *tick_lower,
            *tick_upper,
            0,
            timestamp,
        ) is Some,
        r matches Err(e) ==> spec_modify_liquidity_error(
            *pool,
            *position,
            *tick_lower,
            *tick_upper,
            0,
            timestamp,
        ) == Some(e),
        r matches Ok(pair) ==> spec_position_update_matches(
            pair.0,
            *pool,
            *position,
            *tick_lower,
            *tick_upper,
            0,
            timestamp,
        ) && (forall|i: int|
            0 <= i < NUM_REWARDS ==> #[trigger] pair.1[i] == spec_next_slot(*pool, timestamp, i)),
{
    match calculate_modify_liquidity(pool, position, tick_lower, tick_upper, 0, timestamp) {
        Ok(update) => Ok((update.position_update, update.reward_infos)),
        Err(e) => Err(e),
    }
}

/// Synchronizes a position's owed fees and rewards with the pool's current
/// growth state: computes the pure-sync bundle and applies it to the pool
/// and the position. On any error neither is mutated.
pub fn update_fees_and_rewards(
    pool: &mut ElysiumPool,
    position: &mut Position,
    tick_lower: &Tick,
    tick_upper: &Tick,
    timestamp: u64,
) -> (r: Result<(), ErrorCode>)
    ensures
        r is Err <==> spec_modify_liquidity_error(
            *old(pool),
            *old(position),
            *tick_lower,
            *tick_upper,
            0,
            timestamp,
        ) is Some,
        r matches Err(e) ==> {
            &&& spec_modify_liquidity_error(
                *old(pool),
                *old(position),
                *tick_lower,
                *tick_upper,
                0,
                timestamp,
            ) == Some(e)
            &&& *final(pool) == *old(pool)
            &&& *final(position) == *old(position)
        },
        r is Ok ==> {
            &&& *final(pool) == (ElysiumPool {
                reward_infos: final(pool).reward_infos,
                reward_last_updated_timestamp: timestamp,
                ..*old(pool)
            })
            &&& forall|i: int|
                0 <= i < NUM_REWARDS ==> #[trigger] final(pool).reward_infos[i] == spec_next_slot(
                    *old(pool),
                    timestamp,
                    i,
                )
            &&& *final(position) == (Position {
                liquidity: final(position).liquidity,
                fee_growth_checkpoint_a: final(position).fee_growth_checkpoint_a,
                fee_owed_a: final(position).fee_owed_a,
                fee_growth_checkpoint_b: final(position).fee_growth_checkpoint_b,
                fee_owed_b: final(position).fee_owed_b,
                reward_infos: final(position).reward_infos,
                ..*old(position)
            })
            &&& spec_position_update_matches(
                PositionUpdate {
                    liquidity: final(position).liquidity,
                    fee_growth_checkpoint_a: final(position).fee_growth_checkpoint_a,
                    fee_owed_a: final(position).fee_owed_a,
                    fee_growth_checkpoint_b: final(position).fee_growth_checkpoint_b,
                    fee_owed_b: final(position).fee_owed_b,
                    reward_infos: final(position).reward_infos,
                },
                *old(pool),
                *old(position),
                *tick_lower,
                *tick_upper,
                0,
                timestamp,
            )
        },
{
    let (position_update, reward_infos) = match calculate_fee_and_reward_growths(
        pool,
        position,
        tick_lower,
        tick_upper,
        timestamp,
    ) {
        Ok(pair) => pair,
        Err(e) => {
            return Err(e);
        }
    };
    pool.update_rewards(reward_infos, timestamp);
    position.update(&position_update);
    Ok(())
}

} // verus!
