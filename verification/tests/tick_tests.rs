use elysium::address::Address;
use elysium::errors::ErrorCode;
use elysium::math::add_liquidity_delta;
use elysium::manager::tick_manager::{
    next_fee_growths_inside, next_reward_growths_inside, next_tick_cross_update,
    next_tick_modify_liquidity_update,
};
use elysium::state::pool::{ElysiumPoolRewardInfo, NUM_REWARDS};
use elysium::state::tick::{Tick, TickUpdate, MAX_TICK_INDEX, MIN_TICK_INDEX};

fn taddr(tag: u64) -> Address {
    Address::new(tag, 0, 0, 0)
}

fn tick(
    initialized: bool,
    liquidity_net: i128,
    liquidity_gross: u128,
    fee_a: u128,
    fee_b: u128,
    rewards: [u128; NUM_REWARDS],
) -> Tick {
    Tick {
        initialized,
        liquidity_net,
        liquidity_gross,
        fee_growth_outside_a: fee_a,
        fee_growth_outside_b: fee_b,
        reward_growths_outside: rewards,
    }
}

fn active_rewards(growths: [u128; NUM_REWARDS]) -> [ElysiumPoolRewardInfo; NUM_REWARDS] {
    let mut infos = [ElysiumPoolRewardInfo {
        mint: taddr(9),
        vault: taddr(10),
        authority: taddr(11),
        emissions_per_second_x64: 0,
        growth_global_x64: 0,
    }; NUM_REWARDS];
    for (info, growth) in infos.iter_mut().zip(growths.iter()) {
        info.growth_global_x64 = *growth;
    }
    infos
}

#[test]
fn usable_tick_checks_range_and_alignment() {
    assert!(Tick::check_is_usable_tick(0, 10));
    assert!(Tick::check_is_usable_tick(-120, 10));
    assert!(Tick::check_is_usable_tick(443630, 10));
    assert!(!Tick::check_is_usable_tick(-125, 10));
    assert!(!Tick::check_is_usable_tick(7, 10));
    assert!(!Tick::check_is_usable_tick(MAX_TICK_INDEX + 4, 2));
    assert!(!Tick::check_is_usable_tick(MIN_TICK_INDEX - 4, 2));
}

#[test]
fn tick_update_assigns_all_fields() {
    let mut t = tick(false, 0, 0, 0, 0, [0, 0, 0]);
    let update = TickUpdate {
        initialized: true,
        liquidity_net: -7,
        liquidity_gross: 11,
        fee_growth_outside_a: 13,
        fee_growth_outside_b: 17,
        reward_growths_outside: [19, 23, 29],
    };
    t.update(&update);
    assert_eq!(t, tick(true, -7, 11, 13, 17, [19, 23, 29]));
}

#[test]
fn crossing_flips_outside_snapshots() {
    let t = tick(true, 500, 500, 100, 200, [10, 20, 30]);
    let rewards = active_rewards([1000, 2000, 3000]);
    let update = next_tick_cross_update(&t, 1500, 2500, &rewards).unwrap();
    assert_eq!(update.fee_growth_outside_a, 1400);
    assert_eq!(update.fee_growth_outside_b, 2300);
    assert_eq!(update.reward_growths_outside, [990, 1980, 2970]);
    assert_eq!(update.liquidity_net, 500);
    assert_eq!(update.liquidity_gross, 500);
    assert!(update.initialized);
}

#[test]
fn crossing_wraps_when_outside_exceeds_global() {
    // outside > global: the flip wraps through 2^128
    let t = tick(true, 0, 1, 10, 0, [0, 0, 0]);
    let rewards = active_rewards([0, 0, 0]);
    let update = next_tick_cross_update(&t, 4, 0, &rewards).unwrap();
    assert_eq!(update.fee_growth_outside_a, u128::MAX - 5);
}

#[test]
fn crossing_twice_restores_outside_bit_for_bit() {
    let before_crossing = tick(true, 500, 500, 123456789, u128::MAX - 3, [7, u128::MAX, 0]);
    let rewards = active_rewards([55, 66, 77]);
    let global_a: u128 = 111111;
    let global_b: u128 = 5;

    let mut t = before_crossing;
    let up = next_tick_cross_update(&t, global_a, global_b, &rewards).unwrap();
    t.update(&up);
    assert_ne!(t.fee_growth_outside_a, before_crossing.fee_growth_outside_a);

    let down = next_tick_cross_update(&t, global_a, global_b, &rewards).unwrap();
    t.update(&down);
    assert_eq!(t, before_crossing);
}

#[test]
fn crossing_up_then_down_restores_pool_liquidity() {
    // the caller applies +liquidity_net moving up and −liquidity_net moving
    // down; a round trip cancels exactly
    let t = tick(true, 500, 500, 0, 0, [0, 0, 0]);
    let pool_liquidity: u128 = 1000;
    let after_up = add_liquidity_delta(pool_liquidity, t.liquidity_net).unwrap();
    assert_eq!(after_up, 1500);
    let after_down = add_liquidity_delta(after_up, -t.liquidity_net).unwrap();
    assert_eq!(after_down, pool_liquidity);
}

#[test]
fn crossing_skips_unset_reward_slots() {
    let t = tick(true, 0, 1, 0, 0, [10, 20, 30]);
    let mut rewards = active_rewards([1000, 2000, 3000]);
    rewards[1].mint = Address::default();
    let update = next_tick_cross_update(&t, 0, 0, &rewards).unwrap();
    assert_eq!(update.reward_growths_outside[0], 990);
    // the unset slot's snapshot is untouched
    assert_eq!(update.reward_growths_outside[1], 20);
    assert_eq!(update.reward_growths_outside[2], 2970);
}

#[test]
fn modify_with_zero_delta_keeps_tick() {
    let t = tick(true, 500, 500, 1, 2, [3, 4, 5]);
    let rewards = active_rewards([0, 0, 0]);
    let update = next_tick_modify_liquidity_update(&t, -100, 0, 9, 9, &rewards, 0, false).unwrap();
    assert_eq!(update, TickUpdate::from(&t));
}

#[test]
fn modify_removing_last_liquidity_clears_tick() {
    let t = tick(true, 500, 500, 1, 2, [3, 4, 5]);
    let rewards = active_rewards([0, 0, 0]);
    let update =
        next_tick_modify_liquidity_update(&t, -100, 0, 9, 9, &rewards, -500, false).unwrap();
    assert_eq!(update, TickUpdate::cleared());
    assert!(!update.initialized);
}

#[test]
fn modify_initializes_boundary_below_current_price() {
    // first liquidity on this boundary, current tick at or above it:
    // outside snapshots start from the global values
    let t = tick(false, 0, 0, 0, 0, [0, 0, 0]);
    let rewards = active_rewards([70, 80, 90]);
    let update =
        next_tick_modify_liquidity_update(&t, -100, 0, 11, 22, &rewards, 400, false).unwrap();
    assert!(update.initialized);
    assert_eq!(update.liquidity_gross, 400);
    assert_eq!(update.liquidity_net, 400);
    assert_eq!(update.fee_growth_outside_a, 11);
    assert_eq!(update.fee_growth_outside_b, 22);
    assert_eq!(update.reward_growths_outside, [70, 80, 90]);
}

#[test]
fn modify_initializes_boundary_above_current_price() {
    // first liquidity on this boundary, current tick below it: snapshots
    // start from zero; an upper boundary's net decreases
    let t = tick(false, 0, 0, 0, 0, [0, 0, 0]);
    let rewards = active_rewards([70, 80, 90]);
    let update =
        next_tick_modify_liquidity_update(&t, 100, 0, 11, 22, &rewards, 400, true).unwrap();
    assert!(update.initialized);
    assert_eq!(update.liquidity_gross, 400);
    assert_eq!(update.liquidity_net, -400);
    assert_eq!(update.fee_growth_outside_a, 0);
    assert_eq!(update.fee_growth_outside_b, 0);
    assert_eq!(update.reward_growths_outside, [0, 0, 0]);
}

#[test]
fn modify_keeps_existing_snapshots() {
    let t = tick(true, 100, 100, 5, 6, [7, 8, 9]);
    let rewards = active_rewards([70, 80, 90]);
    let update =
        next_tick_modify_liquidity_update(&t, -100, 0, 11, 22, &rewards, 50, false).unwrap();
    assert_eq!(update.liquidity_gross, 150);
    assert_eq!(update.liquidity_net, 150);
    assert_eq!(update.fee_growth_outside_a, 5);
    assert_eq!(update.fee_growth_outside_b, 6);
    assert_eq!(update.reward_growths_outside, [7, 8, 9]);
}

#[test]
fn modify_rejects_gross_underflow() {
    let t = tick(true, 100, 100, 0, 0, [0, 0, 0]);
    let rewards = active_rewards([0, 0, 0]);
    assert_eq!(
        next_tick_modify_liquidity_update(&t, -100, 0, 0, 0, &rewards, -101, false),
        Err(ErrorCode::LiquidityUnderflow)
    );
}

#[test]
fn modify_rejects_net_overflow() {
    let t = tick(true, i128::MAX, u128::MAX - 10, 0, 0, [0, 0, 0]);
    let rewards = active_rewards([0, 0, 0]);
    assert_eq!(
        next_tick_modify_liquidity_update(&t, -100, 0, 0, 0, &rewards, 5, false),
        Err(ErrorCode::ArithmeticOverflow)
    );
}

#[test]
fn fee_growth_inside_with_current_tick_in_range() {
    let lower = tick(true, 0, 1, 100, 10, [0, 0, 0]);
    let upper = tick(true, 0, 1, 200, 20, [0, 0, 0]);
    // current tick inside [−100, 100): below = lower.outside, above = upper.outside
    let (a, b) = next_fee_growths_inside(0, &lower, -100, &upper, 100, 1000, 2000);
    assert_eq!(a, 1000 - 100 - 200);
    assert_eq!(b, 2000 - 10 - 20);
}

#[test]
fn fee_growth_inside_with_current_tick_below_range() {
    let lower = tick(true, 0, 1, 100, 0, [0, 0, 0]);
    let upper = tick(true, 0, 1, 30, 0, [0, 0, 0]);
    // below = global − lower.outside, above = upper.outside
    let (a, _) = next_fee_growths_inside(-500, &lower, -100, &upper, 100, 1000, 0);
    assert_eq!(a, 1000u128.wrapping_sub(1000 - 100).wrapping_sub(30));
}

#[test]
fn fee_growth_inside_with_uninitialized_bounds() {
    let lower = tick(false, 0, 0, 0, 0, [0, 0, 0]);
    let upper = tick(false, 0, 0, 0, 0, [0, 0, 0]);
    // below defaults to the whole global growth, above to zero
    let (a, b) = next_fee_growths_inside(0, &lower, -100, &upper, 100, 1000, 2000);
    assert_eq!(a, 0);
    assert_eq!(b, 0);
}

#[test]
fn growth_regions_sum_to_global() {
    // growth_inside + growth_below + growth_above == global (mod 2^128),
    // including a case where the subtraction wraps
    let cases: [(u128, u128, u128); 4] = [
        (1000, 100, 200),
        (5, 10, 4),
        (u128::MAX, u128::MAX - 1, 3),
        (0, u128::MAX, u128::MAX),
    ];
    for (global, below, above) in cases.iter().copied() {
        let inside = global.wrapping_sub(below).wrapping_sub(above);
        assert_eq!(inside.wrapping_add(below).wrapping_add(above), global);
    }
    // and through the engine: current tick in range, initialized bounds
    let lower = tick(true, 0, 1, 100, 0, [0, 0, 0]);
    let upper = tick(true, 0, 1, 200, 0, [0, 0, 0]);
    let (inside, _) = next_fee_growths_inside(0, &lower, -100, &upper, 100, 1000, 0);
    let below = lower.fee_growth_outside_a;
    let above = upper.fee_growth_outside_a;
    assert_eq!(inside.wrapping_add(below).wrapping_add(above), 1000);
}

#[test]
fn reward_growth_inside_per_slot() {
    let lower = tick(true, 0, 1, 0, 0, [10, 20, 30]);
    let upper = tick(true, 0, 1, 0, 0, [1, 2, 3]);
    let mut rewards = active_rewards([100, 200, 300]);
    rewards[2].mint = Address::default();
    let growths = next_reward_growths_inside(0, &lower, -100, &upper, 100, &rewards);
    assert_eq!(growths[0], 100 - 10 - 1);
    assert_eq!(growths[1], 200 - 20 - 2);
    // an unset slot has no growth inside
    assert_eq!(growths[2], 0);
}
