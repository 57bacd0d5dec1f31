use yeveswap::errors::ErrorCode;
use yeveswap::pubkey::Pubkey;
use yeveswap::settlement::next_growth_inside;
use yeveswap::swap_tick_sequence::SwapTickSequence;
use yeveswap::tick::{Tick, TickArray, MAX_TICK_INDEX, MIN_TICK_INDEX};
use yeveswap::tick_manager::{
    next_liquidity_after_cross, next_tick_cross_update, next_tick_modify_liquidity_update,
};
use yeveswap::yevepool::YevepoolRewardInfo;

fn used_tick() -> Tick {
    Tick { initialized: true, liquidity_gross: 1, liquidity_net: 1, ..Tick::default() }
}

fn used_reward() -> YevepoolRewardInfo {
    let mut bytes = [0u8; 32];
    bytes[5] = 9;
    YevepoolRewardInfo { mint: Pubkey::new(bytes), growth_global_x64: 50, ..Default::default() }
}

#[test]
fn usable_ticks() {
    assert!(Tick::check_is_usable_tick(64, 64));
    assert!(Tick::check_is_usable_tick(-128, 64));
    assert!(!Tick::check_is_usable_tick(-100, 64));
    assert!(!Tick::check_is_usable_tick(0, 0));
    assert!(!Tick::check_is_usable_tick(MAX_TICK_INDEX + 1, 1));
    assert!(Tick::check_is_out_of_bounds(MIN_TICK_INDEX - 1));
}

#[test]
fn tick_offsets_round_down() {
    let array = TickArray::new(-88 * 4, Pubkey::zero());
    assert_eq!(array.tick_offset(-88 * 4, 4), Ok(0));
    assert_eq!(array.tick_offset(-88 * 4 - 1, 4), Ok(-1));
    assert_eq!(array.tick_offset(-1, 4), Ok(87));
    assert_eq!(array.tick_offset(0, 0), Err(ErrorCode::InvalidTickSpacing));
}

#[test]
fn get_and_update_tick() {
    let mut array = TickArray::new(0, Pubkey::zero());
    assert_eq!(array.update_tick(8, 4, used_tick()), Ok(()));
    assert_eq!(array.get_tick(8, 4), Ok(used_tick()));
    assert_eq!(array.get_tick(4, 4), Ok(Tick::default()));
    assert_eq!(array.get_tick(6, 4), Err(ErrorCode::TickNotFound));
    assert_eq!(array.get_tick(88 * 4, 4), Err(ErrorCode::TickNotFound));
    assert_eq!(array.update_tick(-4, 4, used_tick()), Err(ErrorCode::TickNotFound));
}

#[test]
fn next_init_tick_in_array() {
    let mut array = TickArray::new(0, Pubkey::zero());
    array.update_tick(40, 4, used_tick()).unwrap();
    array.update_tick(80, 4, used_tick()).unwrap();
    assert_eq!(array.get_next_init_tick_index(60, 4, true), Ok(Some(40)));
    assert_eq!(array.get_next_init_tick_index(40, 4, true), Ok(Some(40)));
    assert_eq!(array.get_next_init_tick_index(39, 4, true), Ok(None));
    assert_eq!(array.get_next_init_tick_index(40, 4, false), Ok(Some(80)));
    assert_eq!(array.get_next_init_tick_index(80, 4, false), Ok(None));
    assert_eq!(array.get_next_init_tick_index(-5, 4, true), Err(ErrorCode::InvalidTickArraySequence));
}

#[test]
fn swap_sequence_walks_arrays() {
    let mut first = TickArray::new(0, Pubkey::zero());
    first.update_tick(40, 1, used_tick()).unwrap();
    let second = TickArray::new(-88, Pubkey::zero());
    let mut third = TickArray::new(-176, Pubkey::zero());
    third.update_tick(-100, 1, used_tick()).unwrap();
    let seq = SwapTickSequence::new(first, Some(second), Some(third));
    assert_eq!(seq.get_next_initialized_tick_index(50, 1, true, 0), Ok((0, 40)));
    assert_eq!(seq.get_next_initialized_tick_index(30, 1, true, 0), Ok((2, -100)));
    // the last array holds nothing further down and does not reach the range's bound
    assert_eq!(
        seq.get_next_initialized_tick_index(-101, 1, true, 2),
        Err(ErrorCode::InvalidTickArraySequence)
    );
}

#[test]
fn swap_sequence_detects_gap() {
    let first = TickArray::new(0, Pubkey::zero());
    let far = TickArray::new(-88 * 3, Pubkey::zero());
    let seq = SwapTickSequence::new(first, Some(far), None);
    assert_eq!(
        seq.get_next_initialized_tick_index(10, 1, true, 0),
        Err(ErrorCode::InvalidTickArraySequence)
    );
    assert_eq!(
        seq.get_next_initialized_tick_index(10, 1, true, 5),
        Err(ErrorCode::InvalidTickArraySequence)
    );
}

#[test]
fn swap_sequence_stops_at_range_bounds() {
    let top = TickArray::new(443600, Pubkey::zero());
    let seq = SwapTickSequence::new(top, None, None);
    assert_eq!(seq.get_next_initialized_tick_index(443610, 1, false, 0), Ok((0, MAX_TICK_INDEX)));
    let last = TickArray::new(443520, Pubkey::zero());
    let seq = SwapTickSequence::new(last, None, None);
    assert_eq!(
        seq.get_next_initialized_tick_index(443530, 1, false, 0),
        Err(ErrorCode::InvalidTickArraySequence)
    );
    let bottom = TickArray::new(-443696, Pubkey::zero());
    let seq = SwapTickSequence::new(bottom, None, None);
    assert_eq!(seq.get_next_initialized_tick_index(-443650, 1, true, 0), Ok((0, MIN_TICK_INDEX)));
}

#[test]
fn growth_inside_across_wraparound() {
    // Global growth has wrapped past 2^128; the outsides have not.
    let global = 10u128;
    let lower = u128::MAX - 4; // true value 2^128 - 5
    let upper = 3u128;
    // current tick inside the range: inside = G - X - Y modulo 2^128
    let inside = next_growth_inside(5, 0, lower, 10, upper, global);
    assert_eq!(inside, 12);
    // the same totals without a wrap give the same answer
    let inside_plain = next_growth_inside(5, 0, 100, 10, 3, 115);
    assert_eq!(inside_plain, 12);
    // G smaller than X + Y
    assert_eq!(next_growth_inside(5, 0, 4, 10, 3, 5), u128::MAX - 1);
}

#[test]
fn growth_inside_below_and_above() {
    // current tick below the range: below = G - outside(lower)
    assert_eq!(next_growth_inside(-5, 0, 40, 10, 30, 100), 10);
    // current tick above the range: above = G - outside(upper)
    assert_eq!(next_growth_inside(15, 0, 40, 10, 60, 100), 20);
    // blank bounds take part through their stored zeros: all growth lies inside
    assert_eq!(next_growth_inside(0, 0, 0, 1, 0, 5), 5);
}

#[test]
fn modify_liquidity_initializes_and_clears_ticks() {
    let rewards = [used_reward(), YevepoolRewardInfo::default(), YevepoolRewardInfo::default()];
    let blank = Tick::default();
    let t = next_tick_modify_liquidity_update(&blank, 0, 10, 7, 8, &rewards, 100, false).unwrap();
    assert!(t.initialized);
    assert_eq!(t.liquidity_gross, 100);
    assert_eq!(t.liquidity_net, 100);
    assert_eq!((t.fee_growth_outside_a, t.fee_growth_outside_b), (7, 8));
    assert_eq!(t.reward_growths_outside, [50, 0, 0]);
    let above = next_tick_modify_liquidity_update(&blank, 20, 10, 7, 8, &rewards, 100, true).unwrap();
    assert_eq!(above.liquidity_net, -100);
    assert_eq!(above.fee_growth_outside_a, 0);
    let cleared = next_tick_modify_liquidity_update(&t, 0, 10, 7, 8, &rewards, -100, false).unwrap();
    assert_eq!(cleared, Tick::default());
    assert_eq!(
        next_tick_modify_liquidity_update(&t, 0, 10, 7, 8, &rewards, -101, false),
        Err(ErrorCode::LiquidityUnderflow)
    );
    let extreme = Tick { initialized: true, liquidity_gross: 1, liquidity_net: i128::MAX, ..Tick::default() };
    assert_eq!(
        next_tick_modify_liquidity_update(&extreme, 0, 10, 7, 8, &rewards, 1, false),
        Err(ErrorCode::LiquidityNetError)
    );
}

#[test]
fn crossing_flips_growth_outside() {
    let rewards = [used_reward(), YevepoolRewardInfo::default(), YevepoolRewardInfo::default()];
    let tick = Tick {
        initialized: true,
        liquidity_gross: 5,
        liquidity_net: 5,
        fee_growth_outside_a: 30,
        fee_growth_outside_b: 200,
        reward_growths_outside: [20, 9, 9],
    };
    let crossed = next_tick_cross_update(&tick, 100, 100, &rewards);
    assert_eq!(crossed.fee_growth_outside_a, 70);
    assert_eq!(crossed.fee_growth_outside_b, u128::MAX - 99);
    assert_eq!(crossed.reward_growths_outside, [30, u128::MAX - 8, u128::MAX - 8]);
    assert_eq!(next_liquidity_after_cross(10, 5, false), Ok(15));
    assert_eq!(next_liquidity_after_cross(10, 5, true), Ok(5));
    assert_eq!(next_liquidity_after_cross(10, 11, true), Err(ErrorCode::LiquidityUnderflow));
    assert_eq!(next_liquidity_after_cross(0, i128::MIN, true), Ok(1u128 << 127));
}

#[test]
fn crossing_a_tick_in_the_sequence() {
    let rewards = [used_reward(), YevepoolRewardInfo::default(), YevepoolRewardInfo::default()];
    let mut array = TickArray::new(0, Pubkey::zero());
    let tick = Tick {
        initialized: true,
        liquidity_gross: 40,
        liquidity_net: 40,
        fee_growth_outside_a: 10,
        fee_growth_outside_b: 0,
        reward_growths_outside: [5, 0, 0],
    };
    array.update_tick(12, 1, tick).unwrap();
    let mut seq = SwapTickSequence::new(array, None, None);
    assert_eq!(seq.cross_tick(0, 12, 1, false, 100, 25, 0, &rewards), Ok(140));
    let crossed = seq.get_tick(0, 12, 1).unwrap();
    assert_eq!(crossed.fee_growth_outside_a, 15);
    assert_eq!(crossed.reward_growths_outside, [45, 0, 0]);
    assert_eq!(seq.cross_tick(0, 12, 1, true, 30, 25, 0, &rewards), Err(ErrorCode::LiquidityUnderflow));
    assert_eq!(seq.get_tick(0, 12, 1), Ok(crossed));
    assert_eq!(seq.cross_tick(1, 12, 1, true, 30, 25, 0, &rewards), Err(ErrorCode::InvalidTickArraySequence));
    assert_eq!(seq.cross_tick(0, 13, 2, true, 30, 25, 0, &rewards), Err(ErrorCode::TickNotFound));
}

#[test]
fn tick_array_start_must_be_aligned_and_in_range() {
    assert!(TickArray::initialize(-88 * 64, 64, Pubkey::zero()).is_ok());
    assert!(TickArray::initialize(88 * 64 * 3, 64, Pubkey::zero()).is_ok());
    assert_eq!(TickArray::initialize(64, 64, Pubkey::zero()), Err(ErrorCode::InvalidStartTick));
    assert_eq!(TickArray::initialize(0, 0, Pubkey::zero()), Err(ErrorCode::InvalidStartTick));
    // the array holding the least tick starts below it
    assert!(TickArray::initialize(-443696, 1, Pubkey::zero()).is_ok());
    assert_eq!(TickArray::initialize(-443784, 1, Pubkey::zero()), Err(ErrorCode::InvalidStartTick));
    assert_eq!(TickArray::initialize(443696, 1, Pubkey::zero()), Err(ErrorCode::InvalidStartTick));
    let array = TickArray::initialize(0, 8, Pubkey::zero()).unwrap();
    assert_eq!(array.ticks.len(), 88);
    assert_eq!(array.start_tick_index, 0);
}
