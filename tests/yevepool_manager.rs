use yeveswap::manager::{next_yevepool_liquidity, next_yevepool_reward_infos};
use yeveswap::math::Q64_RESOLUTION;
use yeveswap::pubkey::Pubkey;
use yeveswap::yevepool::{Yevepool, YevepoolBuilder, YevepoolRewardInfo, NUM_REWARDS};

fn key(n: u8) -> Pubkey {
    let mut bytes = [0u8; 32];
    bytes[0] = n;
    bytes[31] = 0xAB;
    Pubkey::new(bytes)
}

// Initializes a yevepool for testing with all the rewards initialized
fn init_test_yevepool(liquidity: u128, reward_last_updated_timestamp: u64) -> Yevepool {
    YevepoolBuilder::new()
        .liquidity(liquidity)
        .reward_last_updated_timestamp(reward_last_updated_timestamp) // Jan 1 2021 EST
        .reward_infos([
            YevepoolRewardInfo {
                mint: key(1),
                emissions_per_second_x64: 10 << Q64_RESOLUTION,
                growth_global_x64: 100 << Q64_RESOLUTION,
                ..Default::default()
            },
            YevepoolRewardInfo {
                mint: key(2),
                emissions_per_second_x64: 0b11 << (Q64_RESOLUTION - 1), // 1.5
                growth_global_x64: 200 << Q64_RESOLUTION,
                ..Default::default()
            },
            YevepoolRewardInfo {
                mint: key(3),
                emissions_per_second_x64: 1 << (Q64_RESOLUTION - 1), // 0.5
                growth_global_x64: 300 << Q64_RESOLUTION,
                ..Default::default()
            },
        ])
        .build()
}

#[test]
fn test_next_yevepool_reward_infos_zero_liquidity_no_op() {
    let yevepool = init_test_yevepool(0, 1577854800);

    let result = next_yevepool_reward_infos(&yevepool, 1577855800);
    assert_eq!(
        YevepoolRewardInfo::to_reward_growths(&result.unwrap()),
        [
            100 << Q64_RESOLUTION,
            200 << Q64_RESOLUTION,
            300 << Q64_RESOLUTION
        ]
    );
}

#[test]
fn test_next_yevepool_reward_infos_same_timestamp_no_op() {
    let yevepool = init_test_yevepool(100, 1577854800);

    let result = next_yevepool_reward_infos(&yevepool, 1577854800);
    assert_eq!(
        YevepoolRewardInfo::to_reward_growths(&result.unwrap()),
        [
            100 << Q64_RESOLUTION,
            200 << Q64_RESOLUTION,
            300 << Q64_RESOLUTION
        ]
    );
}

#[test]
#[should_panic(expected = "InvalidTimestamp")]
fn test_next_yevepool_reward_infos_invalid_timestamp() {
    let yevepool = &YevepoolBuilder::new()
        .liquidity(100)
        .reward_last_updated_timestamp(1577854800) // Jan 1 2020 EST
        .build();

    // New timestamp is earlier than the last updated timestamp
    next_yevepool_reward_infos(yevepool, 1577768400).unwrap(); // Dec 31 2019 EST
}

#[test]
fn test_next_yevepool_reward_infos_no_initialized_rewards() {
    let yevepool = &YevepoolBuilder::new()
        .liquidity(100)
        .reward_last_updated_timestamp(1577854800) // Jan 1 2021 EST
        .build();

    let new_timestamp = 1577854800 + 300;
    let result = next_yevepool_reward_infos(yevepool, new_timestamp).unwrap();
    assert_eq!(YevepoolRewardInfo::to_reward_growths(&result), [0, 0, 0]);
}

#[test]
fn test_next_yevepool_reward_infos_some_initialized_rewards() {
    let yevepool = &YevepoolBuilder::new()
        .liquidity(100)
        .reward_last_updated_timestamp(1577854800) // Jan 1 2021 EST
        .reward_info(
            0,
            YevepoolRewardInfo {
                mint: key(1),
                emissions_per_second_x64: 1 << Q64_RESOLUTION,
                ..Default::default()
            },
        )
        .build();

    let new_timestamp = 1577854800 + 300;
    let result = next_yevepool_reward_infos(yevepool, new_timestamp).unwrap();
    assert_eq!(result[0].growth_global_x64, 3 << Q64_RESOLUTION);
    for i in 1..NUM_REWARDS {
        assert_eq!(yevepool.reward_infos[i].growth_global_x64, 0);
    }
}

#[test]
fn test_next_yevepool_reward_infos_delta_zero_on_overflow() {
    let yevepool = &YevepoolBuilder::new()
        .liquidity(100)
        .reward_last_updated_timestamp(0)
        .reward_info(
            0,
            YevepoolRewardInfo {
                mint: key(1),
                emissions_per_second_x64: u128::MAX,
                growth_global_x64: 100,
                ..Default::default()
            },
        )
        .build();

    let new_timestamp = i64::MAX as u64;
    let result = next_yevepool_reward_infos(yevepool, new_timestamp).unwrap();
    assert_eq!(result[0].growth_global_x64, 100);
}

#[test]
fn test_next_yevepool_reward_infos_all_initialized_rewards() {
    let yevepool = init_test_yevepool(100, 1577854800);

    let new_timestamp = 1577854800 + 300;
    let result = next_yevepool_reward_infos(&yevepool, new_timestamp).unwrap();
    assert_eq!(result[0].growth_global_x64, 130 << Q64_RESOLUTION);
    assert_eq!(
        result[1].growth_global_x64,
        0b110011001 << (Q64_RESOLUTION - 1) // 204.5
    );
    assert_eq!(
        result[2].growth_global_x64,
        0b1001011011 << (Q64_RESOLUTION - 1) // 301.5
    );
}

#[test]
fn zero_liquidity_later_timestamp_keeps_table() {
    let yevepool = init_test_yevepool(0, 10);
    let result = next_yevepool_reward_infos(&yevepool, 1_000_000).unwrap();
    assert_eq!(result, yevepool.reward_infos);
}

#[test]
fn unused_slots_stay_zero_while_used_ones_grow() {
    let yevepool = YevepoolBuilder::new()
        .liquidity(100)
        .reward_last_updated_timestamp(1577854800)
        .reward_info(
            0,
            YevepoolRewardInfo {
                mint: key(1),
                emissions_per_second_x64: 1 << Q64_RESOLUTION,
                ..Default::default()
            },
        )
        .build();
    let result = next_yevepool_reward_infos(&yevepool, 1577855100).unwrap();
    assert_eq!(result[0].growth_global_x64, 3 << Q64_RESOLUTION);
    assert_eq!(result[1].growth_global_x64, 0);
    assert_eq!(result[2].growth_global_x64, 0);
}

#[test]
fn overflowing_slot_halts_while_others_advance() {
    let yevepool = YevepoolBuilder::new()
        .liquidity(100)
        .reward_last_updated_timestamp(0)
        .reward_info(
            0,
            YevepoolRewardInfo {
                mint: key(1),
                emissions_per_second_x64: u128::MAX,
                growth_global_x64: 100,
                ..Default::default()
            },
        )
        .reward_info(
            1,
            YevepoolRewardInfo {
                mint: key(2),
                emissions_per_second_x64: 1 << Q64_RESOLUTION,
                growth_global_x64: 7,
                ..Default::default()
            },
        )
        .build();
    let result = next_yevepool_reward_infos(&yevepool, 300).unwrap();
    assert_eq!(result[0].growth_global_x64, 100);
    assert_eq!(result[1].growth_global_x64, 7 + (3 << Q64_RESOLUTION));
}

#[test]
fn reward_growth_wraps_modulo_2_128() {
    let yevepool = YevepoolBuilder::new()
        .liquidity(1)
        .reward_last_updated_timestamp(0)
        .reward_info(
            0,
            YevepoolRewardInfo {
                mint: key(1),
                emissions_per_second_x64: 5,
                growth_global_x64: u128::MAX - 1,
                ..Default::default()
            },
        )
        .build();
    let result = next_yevepool_reward_infos(&yevepool, 1).unwrap();
    assert_eq!(result[0].growth_global_x64, 3);
}

#[test]
fn liquidity_unchanged_outside_range() {
    let yevepool = YevepoolBuilder::new().liquidity(500).tick_current_index(10).build();
    assert_eq!(next_yevepool_liquidity(&yevepool, 10, 0, 100), Ok(500));
    assert_eq!(next_yevepool_liquidity(&yevepool, 30, 11, -600), Ok(500));
}

#[test]
fn liquidity_changes_inside_range() {
    let yevepool = YevepoolBuilder::new().liquidity(500).tick_current_index(10).build();
    assert_eq!(next_yevepool_liquidity(&yevepool, 11, 10, 100), Ok(600));
    assert_eq!(next_yevepool_liquidity(&yevepool, 20, -20, -500), Ok(0));
    assert_eq!(
        next_yevepool_liquidity(&yevepool, 20, -20, -501),
        Err(yeveswap::errors::ErrorCode::LiquidityUnderflow)
    );
    let full = YevepoolBuilder::new().liquidity(u128::MAX).build();
    assert_eq!(
        next_yevepool_liquidity(&full, 1, 0, 1),
        Err(yeveswap::errors::ErrorCode::LiquidityOverflow)
    );
}

#[test]
fn largest_emission_over_largest_elapsed_time_keeps_growth() {
    let yevepool = YevepoolBuilder::new()
        .liquidity(100)
        .reward_last_updated_timestamp(0)
        .reward_info(
            0,
            YevepoolRewardInfo {
                mint: key(1),
                emissions_per_second_x64: u128::MAX,
                growth_global_x64: 100,
                ..Default::default()
            },
        )
        .build();
    let result = next_yevepool_reward_infos(&yevepool, u64::MAX).unwrap();
    assert_eq!(result[0].growth_global_x64, 100);
}
