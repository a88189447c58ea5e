//! Tick crossing engine: flips a tick's "outside" growth snapshots when
//! price crosses it, derives the growth accumulated inside a tick range, and
//! computes a tick's update record for a liquidity modification.

use vstd::prelude::*;
use crate::errors::ErrorCode;
use crate::state::pool::{ElysiumPoolRewardInfo, NUM_REWARDS};
use crate::state::tick::{Tick, TickUpdate};

verus! {

/// An outside snapshot flipped against the global growth when the tick is
/// crossed: growth outside a tick measures growth accumulated on the side of
/// the tick away from the current price.
pub open spec fn spec_crossed_outside(outside: u128, global: u128) -> u128 {
    global.wrapping_sub(outside)
}

/// Growth accumulated below a position's lower boundary. A boundary no
/// position references yet follows the convention that all prior growth
/// happened below it.
pub open spec fn spec_growth_below(
    initialized: bool,
    outside: u128,
    global: u128,
    tick_current_index: i32,
    tick_index: i32,
) -> u128 {
    if !initialized {
        global
    } else if tick_current_index < tick_index {
        global.wrapping_sub(outside)
    } else {
        outside
    }
}

/// Growth accumulated above a position's upper boundary, under the same
/// convention for an unreferenced boundary.
pub open spec fn spec_growth_above(
    initialized: bool,
    outside: u128,
    global: u128,
    tick_current_index: i32,
    tick_index: i32,
) -> u128 {
    if !initialized {
        0
    } else if tick_current_index < tick_index {
        outside
    } else {
        global.wrapping_sub(outside)
    }
}

/// Growth accumulated inside a position's range: whatever part of the global
/// growth lies neither below nor above it, in wrapping arithmetic.
pub open spec fn spec_growth_inside(below: u128, above: u128, global: u128) -> u128 {
    global.wrapping_sub(below).wrapping_sub(above)
}

/// The per-slot outside snapshot after a crossing: flipped for a reward
/// slot the pool has initialized, untouched (still zero until first use)
/// otherwise.
pub open spec fn spec_crossed_slot(tick: Tick, info: ElysiumPoolRewardInfo, i: int) -> u128 {
    if info.spec_initialized() {
        spec_crossed_outside(tick.reward_growths_outside[i], info.growth_global_x64)
    } else {
        tick.reward_growths_outside[i]
    }
}

/// Crossing reversibility: flipping an outside snapshot twice against the
/// same global growth restores it bit-for-bit, even across 128-bit
/// wraparound. Crossing a tick upward then downward (or vice versa) flips
/// each of its growth quantities exactly twice.
pub proof fn lemma_crossing_reversible(outside: u128, global: u128)
    ensures
        spec_crossed_outside(spec_crossed_outside(outside, global), global) == outside,
{
}

/// Boundary containment: for any below/above decomposition against a global
/// accumulator — in particular the one derived from any valid
/// `tick_lower` / `tick_upper` / `current_tick` combination — the derived
/// inside growth satisfies
/// `growth_inside + growth_below + growth_above == global_growth`
/// modulo `2^128`.
pub proof fn lemma_boundary_containment(below: u128, above: u128, global: u128)
    ensures
        spec_growth_inside(below, above, global).wrapping_add(below).wrapping_add(above) == global,
{
}

/// Computes a crossed tick's update record: each tracked quantity's outside
/// snapshot is flipped against the current global growth. Reward slots the
/// pool has not initialized keep their (zero) snapshots until first use.
/// The caller applies the pool-liquidity delta separately.
pub fn next_tick_cross_update(
    tick: &Tick,
    fee_growth_global_a: u128,
    fee_growth_global_b: u128,
    reward_infos: &[ElysiumPoolRewardInfo; NUM_REWARDS],
) -> (r: Result<TickUpdate, ErrorCode>)
    ensures
        r is Ok,
        r matches Ok(u) ==> {
            &&& u.initialized == tick.initialized
            &&& u.liquidity_net == tick.liquidity_net
            &&& u.liquidity_gross == tick.liquidity_gross
            &&& u.fee_growth_outside_a == spec_crossed_outside(
                tick.fee_growth_outside_a,
                fee_growth_global_a,
            )
            &&& u.fee_growth_outside_b == spec_crossed_outside(
                tick.fee_growth_outside_b,
                fee_growth_global_b,
            )
            &&& forall|i: int|
                0 <= i < NUM_REWARDS ==> #[trigger] u.reward_growths_outside[i]
                    == spec_crossed_slot(*tick, reward_infos[i], i)
        },
{
    let mut update = TickUpdate::from(tick);
    update.fee_growth_outside_a = fee_growth_global_a.wrapping_sub(tick.fee_growth_outside_a);
    update.fee_growth_outside_b = fee_growth_global_b.wrapping_sub(tick.fee_growth_outside_b);
    let mut i: usize = 0;
    while i < NUM_REWARDS
        invariant
            0 <= i <= NUM_REWARDS,
            update.initialized == tick.initialized,
            update.liquidity_net == tick.liquidity_net,
            update.liquidity_gross == tick.liquidity_gross,
            update.fee_growth_outside_a == spec_crossed_outside(
                tick.fee_growth_outside_a,
                fee_growth_global_a,
            ),
            update.fee_growth_outside_b == spec_crossed_outside(
                tick.fee_growth_outside_b,
                fee_growth_global_b,
            ),
            forall|j: int|
                0 <= j < i ==> #[trigger] update.reward_growths_outside[j]
                    == spec_crossed_slot(*tick, reward_infos[j], j),
            forall|j: int|
                i <= j < NUM_REWARDS ==> #[trigger] update.reward_growths_outside[j]
                    == tick.reward_growths_outside[j],
        decreases NUM_REWARDS - i,
    {
        let info = reward_infos[i];
        if info.initialized() {
            update.reward_growths_outside[i] = info.growth_global_x64.wrapping_sub(
                tick.reward_growths_outside[i],
            );
        }
        i = i + 1;
    }
    Ok(update)
}

/// Fee growth accumulated inside a position's range for one token, derived
/// from the boundary ticks' outside snapshots and the global growth.
pub open spec fn spec_fee_growth_inside(
    tick_current_index: i32,
    tick_lower: Tick,
    tick_lower_index: i32,
    tick_upper: Tick,
    tick_upper_index: i32,
    outside_lower: u128,
    outside_upper: u128,
    global: u128,
) -> u128 {
    spec_growth_inside(
        spec_growth_below(
            tick_lower.initialized,
            outside_lower,
            global,
            tick_current_index,
            tick_lower_index,
        ),
        spec_growth_above(
            tick_upper.initialized,
            outside_upper,
            global,
            tick_current_index,
            tick_upper_index,
        ),
        global,
    )
}

/// Reward growth accumulated inside a position's range for one reward slot:
/// zero for a slot the pool has not initialized, the inside decomposition of
/// the slot's global growth otherwise.
pub open spec fn spec_reward_growth_inside_slot(
    tick_current_index: i32,
    tick_lower: Tick,
    tick_lower_index: i32,
    tick_upper: Tick,
    tick_upper_index: i32,
    info: ElysiumPoolRewardInfo,
    i: int,
) -> u128 {
    if info.spec_initialized() {
        spec_fee_growth_inside(
            tick_current_index,
            tick_lower,
            tick_lower_index,
            tick_upper,
            tick_upper_index,
            tick_lower.reward_growths_outside[i],
            tick_upper.reward_growths_outside[i],
            info.growth_global_x64,
        )
    } else {
        0
    }
}

/// Derives the fee growth accumulated inside a position's range for both
/// tokens, by the standard decomposition of the global growth into the
/// regions below, inside and above the range.
pub fn next_fee_growths_inside(
    tick_current_index: i32,
    tick_lower: &Tick,
    tick_lower_index: i32,
    tick_upper: &Tick,
    tick_upper_index: i32,
    fee_growth_global_a: u128,
    fee_growth_global_b: u128,
) -> (r: (u128, u128))
    ensures
        r.0 == spec_fee_growth_inside(
            tick_current_index,
            *tick_lower,
            tick_lower_index,
            *tick_upper,
            tick_upper_index,
            tick_lower.fee_growth_outside_a,
            tick_upper.fee_growth_outside_a,
            fee_growth_global_a,
        ),
        r.1 == spec_fee_growth_inside(
            tick_current_index,
            *tick_lower,
            tick_lower_index,
            *tick_upper,
            tick_upper_index,
            tick_lower.fee_growth_outside_b,
            tick_upper.fee_growth_outside_b,
            fee_growth_global_b,
        ),
{
    let (fee_growth_below_a, fee_growth_below_b) = if !tick_lower.initialized {
        (fee_growth_global_a, fee_growth_global_b)
    } else if tick_current_index < tick_lower_index {
        (
            fee_growth_global_a.wrapping_sub(tick_lower.fee_growth_outside_a),
            fee_growth_global_b.wrapping_sub(tick_lower.fee_growth_outside_b),
        )
    } else {
        (tick_lower.fee_growth_outside_a, tick_lower.fee_growth_outside_b)
    };
    let (fee_growth_above_a, fee_growth_above_b) = if !tick_upper.initialized {
        (0, 0)
    } else if tick_current_index < tick_upper_index {
        (tick_upper.fee_growth_outside_a, tick_upper.fee_growth_outside_b)
    } else {
        (
            fee_growth_global_a.wrapping_sub(tick_upper.fee_growth_outside_a),
            fee_growth_global_b.wrapping_sub(tick_upper.fee_growth_outside_b),
        )
    };
    (
        fee_growth_global_a.wrapping_sub(fee_growth_below_a).wrapping_sub(fee_growth_above_a),
        fee_growth_global_b.wrapping_sub(fee_growth_below_b).wrapping_sub(fee_growth_above_b),
    )
}

/// Derives the reward growth accumulated inside a position's range for each
/// reward slot, by the same decomposition as for fees.
pub fn next_reward_growths_inside(
    tick_current_index: i32,
    tick_lower: &Tick,
    tick_lower_index: i32,
    tick_upper: &Tick,
    tick_upper_index: i32,
    reward_infos: &[ElysiumPoolRewardInfo; NUM_REWARDS],
) -> (r: [u128; NUM_REWARDS])
    ensures
        forall|i: int|
            0 <= i < NUM_REWARDS ==> #[trigger] r[i] == spec_reward_growth_inside_slot(
                tick_current_index,
                *tick_lower,
                tick_lower_index,
                *tick_upper,
                tick_upper_index,
                reward_infos[i],
                i,
            ),
{
    let mut reward_growths_inside: [u128; NUM_REWARDS] = [0, 0, 0];
    let mut i: usize = 0;
    while i < NUM_REWARDS
        invariant
            0 <= i <= NUM_REWARDS,
            forall|j: int|
                0 <= j < i ==> #[trigger] reward_growths_inside[j]
                    == spec_reward_growth_inside_slot(
                    tick_current_index,
                    *tick_lower,
                    tick_lower_index,
                    *tick_upper,
                    tick_upper_index,
                    reward_infos[j],
                    j,
                ),
            forall|j: int| i <= j < NUM_REWARDS ==> #[trigger] reward_growths_inside[j] == 0,
        decreases NUM_REWARDS - i,
    {
        let info = reward_infos[i];
        if info.initialized() {
            let reward_growths_below = if !tick_lower.initialized {
                info.growth_global_x64
            } else if tick_current_index < tick_lower_index {
                info.growth_global_x64.wrapping_sub(tick_lower.reward_growths_outside[i])
            } else {
                tick_lower.reward_growths_outside[i]
            };
            let reward_growths_above = if !tick_upper.initialized {
                0
            } else if tick_current_index < tick_upper_index {
                tick_upper.reward_growths_outside[i]
            } else {
                info.growth_global_x64.wrapping_sub(tick_upper.reward_growths_outside[i])
            };
            reward_growths_inside[i] = info.growth_global_x64.wrapping_sub(
                reward_growths_below,
            ).wrapping_sub(reward_growths_above);
        }
        i = i + 1;
    }
    reward_growths_inside
}

/// The outside snapshots a boundary starts from when a position first
/// initializes it: by convention all prior growth happened below the tick,
/// so a boundary at or below the current price starts from the global
/// values and one above it starts from zero. A boundary that already has
/// liquidity keeps its existing snapshots.
pub open spec fn spec_initial_outside(
    prior_gross: u128,
    tick_index: i32,
    tick_current_index: i32,
    global: u128,
    existing: u128,
) -> u128 {
    if prior_gross != 0 {
        existing
    } else if tick_current_index >= tick_index {
        global
    } else {
        0
    }
}

/// The tick's new signed liquidity delta after a position change: a lower
/// boundary adds the delta to its net, an upper boundary subtracts it.
pub open spec fn spec_next_liquidity_net(
    liquidity_net: i128,
    liquidity_delta: i128,
    is_upper_tick: bool,
) -> int {
    if is_upper_tick {
        liquidity_net - liquidity_delta
    } else {
        liquidity_net + liquidity_delta
    }
}

/// Computes a boundary tick's update record for a position's liquidity
/// change.
///
/// A zero delta carries the tick over unchanged. Removing the last
/// liquidity referencing the tick clears it back to its uninitialized
/// state. Otherwise the gross liquidity absorbs the delta (failing with
/// `LiquidityUnderflow` / `LiquidityOverflow` when it leaves the unsigned
/// range), the net liquidity absorbs it with the boundary's sign (failing
/// with `ArithmeticOverflow` when it leaves the signed range), and a
/// boundary initialized by this change starts its outside snapshots by the
/// all-growth-below convention.
pub fn next_tick_modify_liquidity_update(
    tick: &Tick,
    tick_index: i32,
    tick_current_index: i32,
    fee_growth_global_a: u128,
    fee_growth_global_b: u128,
    reward_infos: &[ElysiumPoolRewardInfo; NUM_REWARDS],
    liquidity_delta: i128,
    is_upper_tick: bool,
) -> (r: Result<TickUpdate, ErrorCode>)
    ensures
        liquidity_delta == 0 ==> r == Ok::<TickUpdate, ErrorCode>(TickUpdate::spec_from(*tick)),
        liquidity_delta != 0 && tick.liquidity_gross + liquidity_delta < 0 ==> r == Err::<
            TickUpdate,
            ErrorCode,
        >(ErrorCode::LiquidityUnderflow),
        liquidity_delta != 0 && tick.liquidity_gross + liquidity_delta > u128::MAX ==> r == Err::<
            TickUpdate,
            ErrorCode,
        >(ErrorCode::LiquidityOverflow),
        liquidity_delta != 0 && tick.liquidity_gross + liquidity_delta == 0 ==> r == Ok::<
            TickUpdate,
            ErrorCode,
        >(TickUpdate::spec_cleared()),
        liquidity_delta != 0 && 0 < tick.liquidity_gross + liquidity_delta <= u128::MAX
            && !(i128::MIN <= spec_next_liquidity_net(
            tick.liquidity_net,
            liquidity_delta,
            is_upper_tick,
        ) <= i128::MAX) ==> r == Err::<TickUpdate, ErrorCode>(ErrorCode::ArithmeticOverflow),
        liquidity_delta != 0 && 0 < tick.liquidity_gross + liquidity_delta <= u128::MAX
            && i128::MIN <= spec_next_liquidity_net(
            tick.liquidity_net,
            liquidity_delta,
            is_upper_tick,
        ) <= i128::MAX ==> (r matches Ok(u) && {
            &&& u.initialized == true
            &&& u.liquidity_gross == tick.liquidity_gross + liquidity_delta
            &&& u.liquidity_net == spec_next_liquidity_net(
                tick.liquidity_net,
                liquidity_delta,
                is_upper_tick,
            )
            &&& u.fee_growth_outside_a == spec_initial_outside(
                tick.liquidity_gross,
                tick_index,
                tick_current_index,
                fee_growth_global_a,
                tick.fee_growth_outside_a,
            )
            &&& u.fee_growth_outside_b == spec_initial_outside(
                tick.liquidity_gross,
                tick_index,
                tick_current_index,
                fee_growth_global_b,
                tick.fee_growth_outside_b,
            )
            &&& forall|i: int|
                0 <= i < NUM_REWARDS ==> #[trigger] u.reward_growths_outside[i]
                    == spec_initial_outside(
                    tick.liquidity_gross,
                    tick_index,
                    tick_current_index,
                    reward_infos[i].growth_global_x64,
                    tick.reward_growths_outside[i],
                )
        }),
{
    if liquidity_delta == 0 {
        return Ok(TickUpdate::from(tick));
    }
    let liquidity_gross = match crate::math::add_liquidity_delta(
        tick.liquidity_gross,
        liquidity_delta,
    ) {
        Ok(g) => g,
        Err(e) => {
            return Err(e);
        }
    };
    if liquidity_gross == 0 {
        return Ok(TickUpdate::cleared());
    }
    let liquidity_net = if is_upper_tick {
        match tick.liquidity_net.checked_sub(liquidity_delta) {
            Some(n) => n,
            None => {
                return Err(ErrorCode::ArithmeticOverflow);
            }
        }
    } else {
        match tick.liquidity_net.checked_add(liquidity_delta) {
            Some(n) => n,
            None => {
                return Err(ErrorCode::ArithmeticOverflow);
            }
        }
    };
    let mut update = TickUpdate::from(tick);
    update.initialized = true;
    update.liquidity_gross = liquidity_gross;
    update.liquidity_net = liquidity_net;
    if tick.liquidity_gross == 0 {
        if tick_current_index >= tick_index {
            update.fee_growth_outside_a = fee_growth_global_a;
            update.fee_growth_outside_b = fee_growth_global_b;
            update.reward_growths_outside = crate::state::pool::ElysiumPoolRewardInfo::to_reward_growths(
                reward_infos,
            );
        } else {
            update.fee_growth_outside_a = 0;
            update.fee_growth_outside_b = 0;
            update.reward_growths_outside = [0, 0, 0];
        }
    }
    Ok(update)
}

/// Crossing a tick twice under unchanged global growth restores every one
/// of its growth-outside fields to its pre-crossing value bit-for-bit. The
/// two update records are related exactly as `next_tick_cross_update`
/// relates them to the tick states they were computed from.
pub proof fn lemma_tick_crossing_reversible(
    t0: Tick,
    u1: TickUpdate,
    t1: Tick,
    u2: TickUpdate,
    fee_growth_global_a: u128,
    fee_growth_global_b: u128,
    reward_infos: [ElysiumPoolRewardInfo; NUM_REWARDS],
)
    requires
        u1.fee_growth_outside_a == spec_crossed_outside(
            t0.fee_growth_outside_a,
            fee_growth_global_a,
        ),
        u1.fee_growth_outside_b == spec_crossed_outside(
            t0.fee_growth_outside_b,
            fee_growth_global_b,
        ),
        forall|i: int|
            0 <= i < NUM_REWARDS ==> #[trigger] u1.reward_growths_outside[i]
                == spec_crossed_slot(t0, reward_infos[i], i),
        t1.fee_growth_outside_a == u1.fee_growth_outside_a,
        t1.fee_growth_outside_b == u1.fee_growth_outside_b,
        t1.reward_growths_outside == u1.reward_growths_outside,
        u2.fee_growth_outside_a == spec_crossed_outside(
            t1.fee_growth_outside_a,
            fee_growth_global_a,
        ),
        u2.fee_growth_outside_b == spec_crossed_outside(
            t1.fee_growth_outside_b,
            fee_growth_global_b,
        ),
        forall|i: int|
            0 <= i < NUM_REWARDS ==> #[trigger] u2.reward_growths_outside[i]
                == spec_crossed_slot(t1, reward_infos[i], i),
    ensures
        u2.fee_growth_outside_a == t0.fee_growth_outside_a,
        u2.fee_growth_outside_b == t0.fee_growth_outside_b,
        forall|i: int|
            0 <= i < NUM_REWARDS ==> #[trigger] u2.reward_growths_outside[i]
                == t0.reward_growths_outside[i],
{
}

} // verus!
