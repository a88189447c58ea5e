use elysium::address::Address;
use elysium::errors::ErrorCode;
use elysium::state::config::ElysiumPoolsConfig;
use elysium::state::fee_tier::FeeTier;
use elysium::state::pool::{
    ElysiumPool, MAX_FEE_RATE, MAX_PROTOCOL_FEE_RATE, MAX_SQRT_PRICE_X64, MIN_SQRT_PRICE_X64,
    NUM_REWARDS,
};
use elysium::state::position::Position;

fn addr(tag: u64) -> Address {
    Address::new(tag, tag + 1, tag + 2, tag + 3)
}

fn test_pool(tick_spacing: u16) -> ElysiumPool {
    ElysiumPool::initialize(
        addr(1),
        255,
        tick_spacing,
        MIN_SQRT_PRICE_X64,
        300,
        addr(10),
        addr(20),
        addr(30),
        addr(40),
    )
    .unwrap()
}

#[test]
fn initialize_pool_sets_fields() {
    let pool = test_pool(10);
    assert_eq!(pool.pools_config, addr(1));
    assert_eq!(pool.bump, 255);
    assert_eq!(pool.tick_spacing, 10);
    assert_eq!(pool.fee_rate, 300);
    assert_eq!(pool.protocol_fee_rate, 0);
    assert_eq!(pool.liquidity, 0);
    assert_eq!(pool.sqrt_price, MIN_SQRT_PRICE_X64);
    assert_eq!(pool.tick_current_index, 0);
    assert_eq!(pool.token_mint_a, addr(10));
    assert_eq!(pool.token_vault_a, addr(20));
    assert_eq!(pool.token_mint_b, addr(30));
    assert_eq!(pool.token_vault_b, addr(40));
    assert_eq!(pool.fee_growth_global_a, 0);
    assert_eq!(pool.fee_growth_global_b, 0);
    assert_eq!(pool.reward_last_updated_timestamp, 0);
    for slot in pool.reward_infos.iter() {
        assert_eq!(slot.mint, Address::default());
        assert_eq!(slot.vault, Address::default());
        assert_eq!(slot.authority, Address::default());
        assert_eq!(slot.emissions_per_second_x64, 0);
        assert_eq!(slot.growth_global_x64, 0);
    }
}

#[test]
fn initialize_pool_rejects_out_of_bounds_sqrt_price() {
    let low = ElysiumPool::initialize(
        addr(1),
        0,
        10,
        MIN_SQRT_PRICE_X64 - 1,
        300,
        addr(10),
        addr(20),
        addr(30),
        addr(40),
    );
    assert_eq!(low.unwrap_err(), ErrorCode::SqrtPriceOutOfBounds);
    let high = ElysiumPool::initialize(
        addr(1),
        0,
        10,
        MAX_SQRT_PRICE_X64 + 1,
        300,
        addr(10),
        addr(20),
        addr(30),
        addr(40),
    );
    assert_eq!(high.unwrap_err(), ErrorCode::SqrtPriceOutOfBounds);
    assert!(ElysiumPool::initialize(
        addr(1),
        0,
        10,
        MAX_SQRT_PRICE_X64,
        300,
        addr(10),
        addr(20),
        addr(30),
        addr(40),
    )
    .is_ok());
}

#[test]
fn initialize_reward_assigns_slot_once() {
    let mut pool = test_pool(10);
    assert_eq!(pool.initialize_reward(0, addr(100), addr(110)), Ok(()));
    assert_eq!(pool.reward_infos[0].mint, addr(100));
    assert_eq!(pool.reward_infos[0].vault, addr(110));
    assert!(pool.reward_infos[0].initialized());
    assert!(!pool.reward_infos[1].initialized());
    assert_eq!(
        pool.initialize_reward(0, addr(200), addr(210)),
        Err(ErrorCode::AlreadyInitialized)
    );
    assert_eq!(pool.reward_infos[0].mint, addr(100));
}

#[test]
fn initialize_reward_rejects_out_of_range_index() {
    let mut pool = test_pool(10);
    let before = pool;
    assert_eq!(
        pool.initialize_reward(NUM_REWARDS, addr(100), addr(110)),
        Err(ErrorCode::InvalidRewardIndex)
    );
    assert_eq!(pool, before);
}

#[test]
fn update_reward_authority_checks_index() {
    let mut pool = test_pool(10);
    assert_eq!(pool.update_reward_authority(2, addr(77)), Ok(()));
    assert_eq!(pool.reward_infos[2].authority, addr(77));
    assert_eq!(
        pool.update_reward_authority(3, addr(88)),
        Err(ErrorCode::InvalidRewardIndex)
    );
}

#[test]
fn update_fee_rate_validates_max() {
    let mut pool = test_pool(10);
    assert_eq!(pool.update_fee_rate(MAX_FEE_RATE), Ok(()));
    assert_eq!(pool.fee_rate, MAX_FEE_RATE);
    assert_eq!(
        pool.update_fee_rate(MAX_FEE_RATE + 1),
        Err(ErrorCode::FeeRateMaxExceeded)
    );
    assert_eq!(pool.fee_rate, MAX_FEE_RATE);
}

#[test]
fn update_protocol_fee_rate_validates_max() {
    let mut pool = test_pool(10);
    assert_eq!(pool.update_protocol_fee_rate(2500), Ok(()));
    assert_eq!(pool.protocol_fee_rate, 2500);
    assert_eq!(
        pool.update_protocol_fee_rate(MAX_PROTOCOL_FEE_RATE + 1),
        Err(ErrorCode::ProtocolFeeRateMaxExceeded)
    );
    assert_eq!(pool.protocol_fee_rate, 2500);
}

#[test]
fn config_authority_updates() {
    let mut config = ElysiumPoolsConfig {
        fee_authority: addr(1),
        collect_protocol_fees_authority: addr(2),
        reward_emissions_super_authority: addr(3),
        default_protocol_fee_rate: 0,
    };
    config.update_fee_authority(addr(11));
    assert_eq!(config.fee_authority, addr(11));
    config.update_collect_protocol_fees_authority(addr(12));
    assert_eq!(config.collect_protocol_fees_authority, addr(12));
    config.update_reward_emissions_super_authority(addr(13));
    assert_eq!(config.reward_emissions_super_authority, addr(13));
    assert_eq!(config.update_default_protocol_fee_rate(700), Ok(()));
    assert_eq!(config.default_protocol_fee_rate, 700);
    assert_eq!(
        config.update_default_protocol_fee_rate(MAX_PROTOCOL_FEE_RATE + 1),
        Err(ErrorCode::ProtocolFeeRateMaxExceeded)
    );
    assert_eq!(config.default_protocol_fee_rate, 700);
}

#[test]
fn fee_tier_default_rate_validates_max() {
    let mut tier = FeeTier {
        pools_config: addr(1),
        tick_spacing: 64,
        default_fee_rate: 300,
    };
    assert_eq!(tier.update_default_fee_rate(500), Ok(()));
    assert_eq!(tier.default_fee_rate, 500);
    assert_eq!(
        tier.update_default_fee_rate(MAX_FEE_RATE + 1),
        Err(ErrorCode::FeeRateMaxExceeded)
    );
    assert_eq!(tier.default_fee_rate, 500);
}

#[test]
fn open_position_sets_bounds_and_zeroes() {
    let pool = test_pool(10);
    let position = Position::open_position(&pool, addr(50), addr(60), -100, 100).unwrap();
    assert_eq!(position.pool, addr(50));
    assert_eq!(position.position_mint, addr(60));
    assert_eq!(position.liquidity, 0);
    assert_eq!(position.tick_lower_index, -100);
    assert_eq!(position.tick_upper_index, 100);
    assert_eq!(position.fee_owed_a, 0);
    assert_eq!(position.fee_owed_b, 0);
    for slot in position.reward_infos.iter() {
        assert_eq!(slot.growth_inside_checkpoint, 0);
        assert_eq!(slot.amount_owed, 0);
    }
}

#[test]
fn open_position_rejects_bad_bounds() {
    let pool = test_pool(10);
    // misaligned to tick spacing
    assert_eq!(
        Position::open_position(&pool, addr(50), addr(60), -105, 100).unwrap_err(),
        ErrorCode::InvalidTickIndex
    );
    // reversed bounds
    assert_eq!(
        Position::open_position(&pool, addr(50), addr(60), 100, -100).unwrap_err(),
        ErrorCode::InvalidTickIndex
    );
    // equal bounds
    assert_eq!(
        Position::open_position(&pool, addr(50), addr(60), 0, 0).unwrap_err(),
        ErrorCode::InvalidTickIndex
    );
    // out of the representable tick range
    assert_eq!(
        Position::open_position(&pool, addr(50), addr(60), -443640, 100).unwrap_err(),
        ErrorCode::InvalidTickIndex
    );
}
