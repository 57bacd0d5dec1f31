use yeveswap::config::YevepoolsConfig;
use yeveswap::errors::ErrorCode;
use yeveswap::fee_tier::FeeTier;
use yeveswap::manager::set_reward_emissions;
use yeveswap::math::Q64_RESOLUTION;
use yeveswap::position::{Position, PositionRewardInfo};
use yeveswap::presale::{
    add_to_whitelist, check_mint_allowed, get_round_price, initialize, mint, update_presale_info,
    MintError, State, UserInfo,
};
use yeveswap::pubkey::Pubkey;
use yeveswap::settlement::{calculate_fee_and_reward_growths, update_fees_and_rewards};
use yeveswap::tick::{Tick, TickArray};
use yeveswap::tick_math::{MAX_SQRT_PRICE_X64, MIN_SQRT_PRICE_X64};
use yeveswap::yevepool::{Yevepool, YevepoolBuilder, YevepoolRewardInfo, MAX_FEE_RATE};

fn key(n: u8) -> Pubkey {
    let mut bytes = [0u8; 32];
    bytes[7] = n;
    Pubkey::new(bytes)
}

fn config() -> YevepoolsConfig {
    YevepoolsConfig {
        fee_authority: key(1),
        collect_protocol_fees_authority: key(2),
        reward_emissions_super_authority: key(3),
        default_protocol_fee_rate: 300,
    }
}

#[test]
fn initialize_pool_sets_price_and_tick() {
    let mut pool = Yevepool::default();
    let r = pool.initialize(key(9), &config(), 255, 64, 1u128 << 64, 3000, key(10), key(11), key(12), key(13));
    assert_eq!(r, Ok(()));
    assert_eq!(pool.sqrt_price, 1u128 << 64);
    assert_eq!(pool.tick_current_index, 0);
    assert_eq!(pool.tick_spacing, 64);
    assert_eq!(pool.fee_rate, 3000);
    assert_eq!(pool.protocol_fee_rate, 300);
    assert_eq!(pool.liquidity, 0);
    assert_eq!(pool.reward_infos[1].authority, key(3));
    assert!(!pool.reward_infos[1].initialized());
}

#[test]
fn initialize_pool_rejects_bad_inputs() {
    let mut pool = Yevepool::default();
    let before = pool;
    assert_eq!(
        pool.initialize(key(9), &config(), 1, 64, MIN_SQRT_PRICE_X64 - 1, 3000, key(10), key(11), key(12), key(13)),
        Err(ErrorCode::SqrtPriceOutOfBounds)
    );
    assert_eq!(
        pool.initialize(key(9), &config(), 1, 64, MAX_SQRT_PRICE_X64 + 1, 3000, key(10), key(11), key(12), key(13)),
        Err(ErrorCode::SqrtPriceOutOfBounds)
    );
    assert_eq!(
        pool.initialize(key(9), &config(), 1, 64, 1u128 << 64, MAX_FEE_RATE + 1, key(10), key(11), key(12), key(13)),
        Err(ErrorCode::FeeRateMaxExceeded)
    );
    let mut greedy = config();
    greedy.default_protocol_fee_rate = 2501;
    assert_eq!(
        pool.initialize(key(9), &greedy, 1, 64, 1u128 << 64, 3000, key(10), key(11), key(12), key(13)),
        Err(ErrorCode::ProtocolFeeRateMaxExceeded)
    );
    assert_eq!(pool, before);
}

#[test]
fn fee_rates_are_bounded() {
    let mut pool = Yevepool::default();
    assert_eq!(pool.update_fee_rate(30_000), Ok(()));
    assert_eq!(pool.update_fee_rate(30_001), Err(ErrorCode::FeeRateMaxExceeded));
    assert_eq!(pool.fee_rate, 30_000);
    assert_eq!(pool.update_protocol_fee_rate(2_501), Err(ErrorCode::ProtocolFeeRateMaxExceeded));
    let mut tier = FeeTier::new(key(1), 64, 3000).unwrap();
    assert_eq!(FeeTier::new(key(1), 64, 30_001), Err(ErrorCode::FeeRateMaxExceeded));
    assert_eq!(tier.update_default_fee_rate(500), Ok(()));
    assert_eq!(tier.default_fee_rate, 500);
    let mut cfg = config();
    assert_eq!(cfg.update_default_protocol_fee_rate(2_501), Err(ErrorCode::ProtocolFeeRateMaxExceeded));
    cfg.update_collect_protocol_fees_authority(key(40));
    assert_eq!(cfg.collect_protocol_fees_authority, key(40));
}

#[test]
fn rewards_register_in_order() {
    let mut pool = Yevepool::default();
    assert_eq!(pool.initialize_reward(1, key(20), key(21)), Err(ErrorCode::InvalidRewardIndex));
    assert_eq!(pool.initialize_reward(0, key(20), key(21)), Ok(()));
    assert!(pool.reward_infos[0].initialized());
    assert_eq!(pool.initialize_reward(0, key(22), key(23)), Err(ErrorCode::InvalidRewardIndex));
    assert_eq!(pool.initialize_reward(3, key(22), key(23)), Err(ErrorCode::InvalidRewardIndex));
    assert_eq!(pool.update_reward_authority(0, key(30)), Ok(()));
    assert_eq!(pool.reward_infos[0].authority, key(30));
    assert_eq!(pool.update_reward_authority(3, key(30)), Err(ErrorCode::InvalidRewardIndex));
}

#[test]
fn set_emissions_checks_slot_time_and_vault() {
    let mut pool = YevepoolBuilder::new().liquidity(100).reward_last_updated_timestamp(1000).build();
    let emissions = 1u128 << Q64_RESOLUTION; // one token a second
    assert_eq!(set_reward_emissions(&mut pool, 0, emissions, 86_400, 1000), Err(ErrorCode::InvalidRewardIndex));
    pool.initialize_reward(0, key(20), key(21)).unwrap();
    assert_eq!(set_reward_emissions(&mut pool, 0, emissions, 86_400, 999), Err(ErrorCode::InvalidTimestamp));
    assert_eq!(
        set_reward_emissions(&mut pool, 0, emissions, 86_399, 1000),
        Err(ErrorCode::RewardVaultAmountInsufficient)
    );
    assert_eq!(
        set_reward_emissions(&mut pool, 0, u128::MAX, u64::MAX, 1000),
        Err(ErrorCode::RewardVaultAmountInsufficient)
    );
    assert_eq!(set_reward_emissions(&mut pool, 0, emissions, 86_400, 1000), Ok(()));
    assert_eq!(pool.reward_infos[0].emissions_per_second_x64, emissions);
    // 300 seconds later over 100 liquidity: growth 3 per unit
    assert_eq!(set_reward_emissions(&mut pool, 0, 0, 0, 1300), Ok(()));
    assert_eq!(pool.reward_infos[0].growth_global_x64, 3 << Q64_RESOLUTION);
    assert_eq!(pool.reward_last_updated_timestamp, 1300);
}

#[test]
fn open_position_validates_range() {
    let pool = YevepoolBuilder::new().tick_spacing(64).build();
    let mut position = Position::default();
    assert_eq!(position.open_position(&pool, key(1), key(2), 64, 0), Err(ErrorCode::InvalidTickIndex));
    assert_eq!(position.open_position(&pool, key(1), key(2), 0, 100), Err(ErrorCode::InvalidTickIndex));
    assert_eq!(position.open_position(&pool, key(1), key(2), -443712, 0), Err(ErrorCode::InvalidTickIndex));
    assert_eq!(position, Position::default());
    assert_eq!(position.open_position(&pool, key(1), key(2), -128, 128), Ok(()));
    assert_eq!((position.tick_lower_index, position.tick_upper_index), (-128, 128));
    assert_eq!(position.yevepool, key(1));
    assert!(position.is_position_empty());
}

fn settled_setup() -> (Yevepool, Position, TickArray) {
    let pool = YevepoolBuilder::new()
        .tick_spacing(1)
        .tick_current_index(5)
        .liquidity(1000)
        .fee_growth_global(10 << Q64_RESOLUTION, 20 << Q64_RESOLUTION)
        .reward_last_updated_timestamp(100)
        .reward_info(
            0,
            YevepoolRewardInfo {
                mint: key(1),
                emissions_per_second_x64: 1000 << Q64_RESOLUTION,
                growth_global_x64: 0,
                ..Default::default()
            },
        )
        .build();
    let mut array = TickArray::new(0, key(1));
    let lower = Tick {
        initialized: true,
        liquidity_gross: 10,
        liquidity_net: 10,
        fee_growth_outside_a: 4 << Q64_RESOLUTION,
        fee_growth_outside_b: 0,
        reward_growths_outside: [0, 0, 0],
    };
    let upper = Tick { liquidity_net: -10, ..lower };
    let upper = Tick { fee_growth_outside_a: 1 << Q64_RESOLUTION, ..upper };
    array.update_tick(0, 1, lower).unwrap();
    array.update_tick(10, 1, upper).unwrap();
    let position = Position {
        yevepool: key(1),
        liquidity: 10,
        tick_lower_index: 0,
        tick_upper_index: 10,
        fee_growth_checkpoint_a: 2 << Q64_RESOLUTION,
        fee_owed_a: 7,
        ..Position::default()
    };
    (pool, position, array)
}

#[test]
fn settlement_accrues_fees_and_rewards() {
    let (pool, position, array) = settled_setup();
    let (update, infos) = calculate_fee_and_reward_growths(&pool, &position, &array, &array, 110).unwrap();
    // fee A inside: 10 - 4 - 1 = 5; since checkpoint 2: 3 per unit, 10 units => 30
    assert_eq!(update.fee_growth_checkpoint_a, 5 << Q64_RESOLUTION);
    assert_eq!(update.fee_owed_a, 37);
    // fee B inside: 20; from checkpoint 0 => 200
    assert_eq!(update.fee_owed_b, 200);
    // reward: 10 s * 1000 / 1000 liquidity = 10 per unit, all inside => 100
    assert_eq!(infos[0].growth_global_x64, 10 << Q64_RESOLUTION);
    assert_eq!(
        update.reward_infos[0],
        PositionRewardInfo { growth_inside_checkpoint: 10 << Q64_RESOLUTION, amount_owed: 100 }
    );
    assert_eq!(update.liquidity, 10);
}

#[test]
fn update_fees_and_rewards_writes_both_records() {
    let (mut pool, mut position, array) = settled_setup();
    assert_eq!(update_fees_and_rewards(&mut pool, &mut position, &array, &array, 110), Ok(()));
    assert_eq!(pool.reward_last_updated_timestamp, 110);
    assert_eq!(pool.reward_infos[0].growth_global_x64, 10 << Q64_RESOLUTION);
    assert_eq!(position.fee_owed_a, 37);
    assert_eq!(position.reward_infos[0].amount_owed, 100);
    // settling again at the same time accrues nothing more
    assert_eq!(update_fees_and_rewards(&mut pool, &mut position, &array, &array, 110), Ok(()));
    assert_eq!(position.fee_owed_a, 37);
    assert_eq!(position.reward_infos[0].amount_owed, 100);
}

#[test]
fn update_fees_and_rewards_errors_leave_records() {
    let (mut pool, mut position, array) = settled_setup();
    let (pool_before, position_before) = (pool, position);
    assert_eq!(
        update_fees_and_rewards(&mut pool, &mut position, &array, &array, -1),
        Err(ErrorCode::InvalidTimestampConversion)
    );
    assert_eq!(
        update_fees_and_rewards(&mut pool, &mut position, &array, &array, 99),
        Err(ErrorCode::InvalidTimestamp)
    );
    let elsewhere = TickArray::new(880, key(1));
    assert_eq!(
        update_fees_and_rewards(&mut pool, &mut position, &elsewhere, &array, 110),
        Err(ErrorCode::TickNotFound)
    );
    let mut huge = position;
    huge.liquidity = u128::MAX;
    assert_eq!(
        update_fees_and_rewards(&mut pool, &mut huge, &array, &array, 110),
        Err(ErrorCode::MultiplicationShiftRightOverflow)
    );
    assert_eq!((pool, position), (pool_before, position_before));
}

#[test]
fn presale_round_prices() {
    assert_eq!(get_round_price(0, 0, 0), Ok(10_000_000));
    assert_eq!(get_round_price(0, 0, 4_999), Ok(10_000_000));
    assert_eq!(get_round_price(0, 0, 5_000), Ok(15_000_000));
    assert_eq!(get_round_price(0, 0, 14_999), Ok(20_000_000));
    assert_eq!(get_round_price(0, 0, 19_999), Ok(25_000_000));
    assert_eq!(get_round_price(0, 0, 20_000), Err(MintError::MaxSupplyReached));
}

#[test]
fn presale_mint_gate() {
    assert_eq!(check_mint_allowed(20_000, 10_000, 0, true), Err(MintError::MaxSupplyReached));
    assert_eq!(check_mint_allowed(0, 10, 0, true), Ok(()));
    assert_eq!(check_mint_allowed(0, 10, 0, false), Err(MintError::Unauthorized));
    assert_eq!(check_mint_allowed(0, 3_601, 0, false), Ok(()));
    assert_eq!(check_mint_allowed(0, 0, 0, true), Err(MintError::Unauthorized));
    assert_eq!(check_mint_allowed(0, i64::MAX, i64::MAX, false), Err(MintError::Unauthorized));
}

fn presale_state() -> State {
    State {
        total_minted: 0,
        presale_start: 0,
        admin: Pubkey::zero(),
        collection: Pubkey::zero(),
        genesis_collection: Pubkey::zero(),
        nft_name: String::new(),
        nft_symbol: String::new(),
        nft_uri: String::new(),
    }
}

#[test]
fn presale_state_lifecycle() {
    let mut state = presale_state();
    initialize(&mut state, key(1), 1000, "Yeve".to_string(), "YV".to_string(), "uri".to_string());
    assert_eq!(state.admin, key(1));
    assert_eq!(state.nft_symbol, "YV");
    assert_eq!(
        update_presale_info(&mut state, key(2), key(3), key(4), 5, "a".to_string(), "b".to_string(), "c".to_string(), 9),
        Err(MintError::Unauthorized)
    );
    assert_eq!(state.presale_start, 1000);
    assert_eq!(
        update_presale_info(&mut state, key(1), key(3), key(4), 2000, "a".to_string(), "b".to_string(), "c".to_string(), 4_999),
        Ok(())
    );
    assert_eq!((state.presale_start, state.total_minted, state.genesis_collection), (2000, 4_999, key(4)));
    let mut user = UserInfo { is_whitelisted: false };
    add_to_whitelist(&mut user);
    assert!(user.is_whitelisted);
    assert_eq!(mint(&mut state, 2001, false), Err(MintError::Unauthorized));
    assert_eq!(mint(&mut state, 2001, user.is_whitelisted), Ok(10_000_000));
    assert_eq!(mint(&mut state, 2001, true), Ok(15_000_000));
    assert_eq!(state.total_minted, 5_001);
    state.total_minted = 20_000;
    assert_eq!(mint(&mut state, 9_999, true), Err(MintError::MaxSupplyReached));
}

#[test]
fn fresh_position_checkpoints_follow_stored_growth() {
    let mut pool = YevepoolBuilder::new()
        .tick_spacing(1)
        .tick_current_index(0)
        .fee_growth_global(5, 0)
        .build();
    let mut position = Position::default();
    position.open_position(&pool, key(1), key(2), 0, 1).unwrap();
    assert_eq!(position.fee_growth_checkpoint_a, 0);
    assert_eq!(position.reward_infos, [PositionRewardInfo::default(); 3]);
    let array = TickArray::new(0, key(1));
    assert_eq!(update_fees_and_rewards(&mut pool, &mut position, &array, &array, 0), Ok(()));
    assert_eq!(position.fee_growth_checkpoint_a, 5);
    assert_eq!(position.fee_owed_a, 0);
}

#[test]
fn genesis_collection_membership() {
    let mut state = presale_state();
    state.genesis_collection = key(8);
    assert!(yeveswap::presale::holds_genesis_collection(&state, Some(key(8))));
    assert!(!yeveswap::presale::holds_genesis_collection(&state, Some(key(9))));
    assert!(!yeveswap::presale::holds_genesis_collection(&state, None));
}
