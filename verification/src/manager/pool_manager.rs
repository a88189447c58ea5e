//! Reward schedule calculator: advances a pool's per-slot cumulative reward
//! growth for elapsed time, and the emissions-rate update built on it.

use vstd::prelude::*;
use crate::errors::ErrorCode;
use crate::math::{checked_mul_shift_right, pow2_128, Q64};
use crate::state::pool::{ElysiumPool, ElysiumPoolRewardInfo, NUM_REWARDS};

verus! {

/// Seconds in one day, the horizon of the emissions sufficiency check.
pub const DAY_IN_SECONDS: u128 = 60 * 60 * 24;

/// Reward growth accrued per unit of active liquidity over an interval:
/// `emissions_per_second_x64 * time_delta / liquidity`, a Q64.64 value.
pub open spec fn spec_reward_growth_delta(
    emissions_per_second_x64: u128,
    time_delta: u64,
    liquidity: u128,
) -> int
    recommends
        liquidity > 0,
{
    (emissions_per_second_x64 * time_delta) / (liquidity as int)
}

/// Whether advancing one reward slot overflows the 128-bit product of
/// emission rate and elapsed seconds.
pub open spec fn spec_slot_overflows(info: ElysiumPoolRewardInfo, time_delta: u64) -> bool {
    &&& info.spec_initialized()
    &&& info.emissions_per_second_x64 * time_delta > u128::MAX
}

/// One reward slot advanced by an interval: an initialized slot's growth is
/// wrapping-incremented by the accrued growth delta; an uninitialized slot
/// is untouched.
pub open spec fn spec_updated_slot(
    info: ElysiumPoolRewardInfo,
    time_delta: u64,
    liquidity: u128,
) -> ElysiumPoolRewardInfo
    recommends
        liquidity > 0,
        !spec_slot_overflows(info, time_delta),
{
    if info.spec_initialized() {
        ElysiumPoolRewardInfo {
            growth_global_x64: info.growth_global_x64.wrapping_add(
                spec_reward_growth_delta(info.emissions_per_second_x64, time_delta, liquidity)
                    as u128,
            ),
            ..info
        }
    } else {
        info
    }
}

/// What one slot of a successful reward update holds: unchanged when no time
/// elapsed or no liquidity is active (emissions over such an interval are
/// lost, not banked), advanced otherwise.
pub open spec fn spec_next_slot(
    pool: ElysiumPool,
    next_timestamp: u64,
    i: int,
) -> ElysiumPoolRewardInfo {
    if pool.liquidity == 0 || next_timestamp == pool.reward_last_updated_timestamp {
        pool.reward_infos[i]
    } else {
        spec_updated_slot(
            pool.reward_infos[i],
            (next_timestamp - pool.reward_last_updated_timestamp) as u64,
            pool.liquidity,
        )
    }
}

/// When a reward update fails: on a timestamp that moved backwards, or on a
/// slot whose emission-times-elapsed product overflows.
pub open spec fn spec_reward_update_fails(pool: ElysiumPool, next_timestamp: u64) -> bool {
    ||| next_timestamp < pool.reward_last_updated_timestamp
    ||| {
        &&& pool.liquidity != 0
        &&& next_timestamp > pool.reward_last_updated_timestamp
        &&& exists|i: int|
            0 <= i < NUM_REWARDS && spec_slot_overflows(
                #[trigger] pool.reward_infos[i],
                (next_timestamp - pool.reward_last_updated_timestamp) as u64,
            )
    }
}

/// Computes the pool's reward slots advanced to `next_timestamp`.
///
/// A timestamp behind the pool's last update is rejected with
/// `InvalidTimestamp`; an equal timestamp is a no-op returning the slots
/// unchanged. If the pool has no active liquidity the growth values are
/// unchanged regardless of emission rates: growth is per unit of active
/// liquidity and emissions over such an interval are dropped. Overflow of an
/// emission-times-elapsed product surfaces `ArithmeticOverflow`.
pub fn next_pool_reward_infos(pool: &ElysiumPool, next_timestamp: u64) -> (r: Result<
    [ElysiumPoolRewardInfo; NUM_REWARDS],
    ErrorCode,
>)
    ensures
        r is Err <==> spec_reward_update_fails(*pool, next_timestamp),
        next_timestamp < pool.reward_last_updated_timestamp ==> r == Err::<
            [ElysiumPoolRewardInfo; NUM_REWARDS],
            ErrorCode,
        >(ErrorCode::InvalidTimestamp),
        r is Err && next_timestamp >= pool.reward_last_updated_timestamp ==> r == Err::<
            [ElysiumPoolRewardInfo; NUM_REWARDS],
            ErrorCode,
        >(ErrorCode::ArithmeticOverflow),
        r matches Ok(next) ==> forall|i: int|
            0 <= i < NUM_REWARDS ==> #[trigger] next[i] == spec_next_slot(
                *pool,
                next_timestamp,
                i,
            ),
        pool.liquidity == 0 && next_timestamp >= pool.reward_last_updated_timestamp ==> r == Ok::<
            [ElysiumPoolRewardInfo; NUM_REWARDS],
            ErrorCode,
        >(pool.reward_infos),
{
    let curr_timestamp = pool.reward_last_updated_timestamp;
    if next_timestamp < curr_timestamp {
        return Err(ErrorCode::InvalidTimestamp);
    }
    if pool.liquidity == 0 || next_timestamp == curr_timestamp {
        return Ok(pool.reward_infos);
    }
    let time_delta: u64 = next_timestamp - curr_timestamp;
    let mut next_infos = pool.reward_infos;
    let mut i: usize = 0;
    while i < NUM_REWARDS
        invariant
            0 <= i <= NUM_REWARDS,
            pool.liquidity != 0,
            next_timestamp > pool.reward_last_updated_timestamp,
            time_delta == next_timestamp - pool.reward_last_updated_timestamp,
            forall|j: int|
                0 <= j < i ==> !spec_slot_overflows(#[trigger] pool.reward_infos[j], time_delta),
            forall|j: int|
                0 <= j < i ==> #[trigger] next_infos[j] == spec_updated_slot(
                    pool.reward_infos[j],
                    time_delta,
                    pool.liquidity,
                ),
            forall|j: int| i <= j < NUM_REWARDS ==> #[trigger] next_infos[j] == pool.reward_infos[j],
        decreases NUM_REWARDS - i,
    {
        let info = next_infos[i];
        if info.initialized() {
            let product = match info.emissions_per_second_x64.checked_mul(time_delta as u128) {
                Some(p) => p,
                None => {
                    return Err(ErrorCode::ArithmeticOverflow);
                }
            };
            let growth_delta = product / pool.liquidity;
            let mut slot = info;
            slot.growth_global_x64 = info.growth_global_x64.wrapping_add(growth_delta);
            next_infos[i] = slot;
        }
        i = i + 1;
    }
    Ok(next_infos)
}

/// The reward tokens one day of emissions promises, brought down from
/// Q64.64 to token units.
pub open spec fn spec_emissions_per_day(emissions_per_second_x64: u128) -> int {
    (DAY_IN_SECONDS * emissions_per_second_x64) / (Q64 as int)
}

/// Sets one reward slot's emission rate after checking that the reward
/// vault covers at least one day of emissions at the new rate, advancing
/// the pool's reward growth to the given timestamp in the same step.
///
/// Fails with `ArithmeticOverflow` if a day of emissions overflows the
/// 128-bit product, with `RewardVaultAmountInsufficient` if the vault
/// balance does not cover it, with `InvalidTimestamp` / `ArithmeticOverflow`
/// as the reward advance does, and with `InvalidRewardIndex` on an
/// out-of-range slot. The pool is unchanged on every error path.
pub fn set_reward_emissions(
    pool: &mut ElysiumPool,
    reward_index: usize,
    reward_vault_amount: u64,
    timestamp: u64,
    emissions_per_second_x64: u128,
) -> (r: Result<(), ErrorCode>)
    ensures
        r is Err ==> *final(pool) == *old(pool),
        r is Ok <==> {
            &&& DAY_IN_SECONDS * emissions_per_second_x64 <= u128::MAX
            &&& reward_vault_amount >= spec_emissions_per_day(emissions_per_second_x64)
            &&& !spec_reward_update_fails(*old(pool), timestamp)
            &&& reward_index < NUM_REWARDS
        },
        DAY_IN_SECONDS * emissions_per_second_x64 > u128::MAX ==> r == Err::<(), ErrorCode>(
            ErrorCode::ArithmeticOverflow,
        ),
        DAY_IN_SECONDS * emissions_per_second_x64 <= u128::MAX && reward_vault_amount
            < spec_emissions_per_day(emissions_per_second_x64) ==> r == Err::<(), ErrorCode>(
            ErrorCode::RewardVaultAmountInsufficient,
        ),
        DAY_IN_SECONDS * emissions_per_second_x64 <= u128::MAX && reward_vault_amount
            >= spec_emissions_per_day(emissions_per_second_x64) && timestamp < old(
            pool,
        ).reward_last_updated_timestamp ==> r == Err::<(), ErrorCode>(ErrorCode::InvalidTimestamp),
        DAY_IN_SECONDS * emissions_per_second_x64 <= u128::MAX && reward_vault_amount
            >= spec_emissions_per_day(emissions_per_second_x64) && timestamp >= old(
            pool,
        ).reward_last_updated_timestamp && spec_reward_update_fails(*old(pool), timestamp) ==> r
            == Err::<(), ErrorCode>(ErrorCode::ArithmeticOverflow),
        DAY_IN_SECONDS * emissions_per_second_x64 <= u128::MAX && reward_vault_amount
            >= spec_emissions_per_day(emissions_per_second_x64) && !spec_reward_update_fails(
            *old(pool),
            timestamp,
        ) && reward_index >= NUM_REWARDS ==> r == Err::<(), ErrorCode>(
            ErrorCode::InvalidRewardIndex,
        ),
        r is Ok ==> {
            &&& *final(pool) == (ElysiumPool {
                reward_infos: final(pool).reward_infos,
                reward_last_updated_timestamp: timestamp,
                ..*old(pool)
            })
            &&& forall|i: int|
                0 <= i < NUM_REWARDS && i != reward_index ==> #[trigger] final(pool).reward_infos[i]
                    == spec_next_slot(*old(pool), timestamp, i)
            &&& final(pool).reward_infos[reward_index as int] == (ElysiumPoolRewardInfo {
                emissions_per_second_x64,
                ..spec_next_slot(*old(pool), timestamp, reward_index as int)
            })
        },
{
    let emissions_per_day = match checked_mul_shift_right(
        DAY_IN_SECONDS,
        emissions_per_second_x64,
    ) {
        Ok(d) => d,
        Err(e) => {
            return Err(e);
        }
    };
    if reward_vault_amount < emissions_per_day {
        return Err(ErrorCode::RewardVaultAmountInsufficient);
    }
    let next_reward_infos = match next_pool_reward_infos(pool, timestamp) {
        Ok(infos) => infos,
        Err(e) => {
            return Err(e);
        }
    };
    let result = pool.update_emissions(
        reward_index,
        next_reward_infos,
        timestamp,
        emissions_per_second_x64,
    );
    proof {
        if result is Ok {
            assert forall|i: int| 0 <= i < NUM_REWARDS && i != reward_index implies #[trigger] pool
                .reward_infos[i] == spec_next_slot(*old(pool), timestamp, i) by {
                assert(pool.reward_infos[i] == next_reward_infos[i]);
                assert(next_reward_infos[i] == spec_next_slot(*old(pool), timestamp, i));
            }
        }
    }
    result
}

/// Monotonic growth under wraparound: wrapping-adding a growth delta never
/// decreases the accumulator except via the defined 128-bit wraparound, in
/// which case the result is exactly the true sum reduced by `2^128`.
pub proof fn lemma_growth_monotonic_under_wraparound(growth: u128, delta: u128)
    ensures
        growth + delta <= u128::MAX ==> growth.wrapping_add(delta) >= growth,
        growth + delta <= u128::MAX ==> growth.wrapping_add(delta) == growth + delta,
        growth + delta > u128::MAX ==> growth.wrapping_add(delta) == growth + delta - pow2_128(),
{
}

/// Wraparound is consistent between accumulation paths: two sequences of
/// growth deltas with the same total reach the same accumulator value, and
/// either order of the same two deltas does.
pub proof fn lemma_growth_accumulation_consistent(
    growth: u128,
    d1: u128,
    d2: u128,
    e1: u128,
    e2: u128,
)
    requires
        d1 + d2 == e1 + e2,
    ensures
        growth.wrapping_add(d1).wrapping_add(d2) == growth.wrapping_add(e1).wrapping_add(e2),
        growth.wrapping_add(d1).wrapping_add(d2) == ((growth + d1 + d2) % pow2_128()) as u128,
{
}

/// A growth accumulator after absorbing a whole sequence of growth deltas,
/// one wrapping addition per update.
pub open spec fn spec_growth_after_deltas(growth: u128, deltas: Seq<u128>) -> u128
    decreases deltas.len(),
{
    if deltas.len() == 0 {
        growth
    } else {
        spec_growth_after_deltas(growth.wrapping_add(deltas[0]), deltas.drop_first())
    }
}

/// The plain (unbounded) sum of a sequence of growth deltas.
pub open spec fn spec_growth_delta_sum(deltas: Seq<u128>) -> int
    decreases deltas.len(),
{
    if deltas.len() == 0 {
        0
    } else {
        deltas[0] + spec_growth_delta_sum(deltas.drop_first())
    }
}

/// Repeated reward-growth updates are consistent however the total is
/// split: any sequence of deltas leaves the accumulator at the starting
/// value plus the exact sum of all deltas, reduced modulo `2^128`. Two
/// independent accumulation paths whose deltas reach the same total
/// therefore reach the same accumulator value.
pub proof fn lemma_repeated_growth_updates_consistent(growth: u128, deltas: Seq<u128>)
    ensures
        spec_growth_after_deltas(growth, deltas) == ((growth + spec_growth_delta_sum(deltas))
            % pow2_128()) as u128,
    decreases deltas.len(),
{
    if deltas.len() == 0 {
        vstd::arithmetic::div_mod::lemma_small_mod(growth as nat, pow2_128() as nat);
    } else {
        let first = deltas[0];
        let rest = deltas.drop_first();
        lemma_repeated_growth_updates_consistent(growth.wrapping_add(first), rest);
        // fold the wrapped head back under one modulus:
        // ((x % m) + s) % m == (x + s) % m
        vstd::arithmetic::div_mod::lemma_mod_twice(growth + first, pow2_128());
        vstd::arithmetic::div_mod::lemma_add_mod_noop(
            (growth + first) % pow2_128(),
            spec_growth_delta_sum(rest),
            pow2_128(),
        );
        vstd::arithmetic::div_mod::lemma_add_mod_noop(
            growth + first,
            spec_growth_delta_sum(rest),
            pow2_128(),
        );
    }
}

} // verus!
