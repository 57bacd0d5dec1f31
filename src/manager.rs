use vstd::prelude::*;

use vstd::arithmetic::div_mod::lemma_div_is_ordered;

use crate::errors::ErrorCode;
use crate::math::{
    add_liquidity_delta, checked_mul_shift_right, growth_add, growth_modulus, mul_div_or_zero,
    mul_div_or_zero_spec, q64, wrap_growth,
};
use crate::yevepool::{Yevepool, YevepoolRewardInfo, NUM_REWARDS};

verus! {

/// A reward slot after `elapsed` seconds over `liquidity`: an unused slot stays as it is;
/// a used one grows by `elapsed * emissions / liquidity`, or by nothing where that quotient
/// cannot be computed, modulo 2^128.
pub open spec fn advanced_reward_info(
    info: YevepoolRewardInfo,
    elapsed: int,
    liquidity: int,
) -> YevepoolRewardInfo {
    if info.initialized_spec() {
        YevepoolRewardInfo {
            growth_global_x64: wrap_growth(
                info.growth_global_x64 + mul_div_or_zero_spec(
                    elapsed,
                    info.emissions_per_second_x64 as int,
                    liquidity,
                ),
            ) as u128,
            ..info
        }
    } else {
        info
    }
}

/// Slot `i` of the pool's reward table once advanced to `next_timestamp` (no earlier than
/// the last update): unchanged without active liquidity or elapsed time.
pub open spec fn reward_info_at(yevepool: Yevepool, next_timestamp: int, i: int) -> YevepoolRewardInfo {
    if yevepool.liquidity == 0 || next_timestamp == yevepool.reward_last_updated_timestamp {
        yevepool.reward_infos@[i]
    } else {
        advanced_reward_info(
            yevepool.reward_infos@[i],
            next_timestamp - yevepool.reward_last_updated_timestamp,
            yevepool.liquidity as int,
        )
    }
}

/// An unused reward slot is never advanced: its growth stays what it was (zero for a slot
/// that was never used), however much time elapses.
pub proof fn lemma_unused_slot_unchanged(info: YevepoolRewardInfo, elapsed: int, liquidity: int)
    requires
        !info.initialized_spec(),
    ensures
        advanced_reward_info(info, elapsed, liquidity) == info,
        info.growth_global_x64 == 0 ==> advanced_reward_info(info, elapsed, liquidity).growth_global_x64
            == 0,
{
}

/// Where `elapsed * emissions` does not fit in 128 bits, a used slot's growth stays as it
/// was: the emission halts instead of failing. Each slot is advanced on its own values
/// alone, so the other slots advance as usual.
pub proof fn lemma_overflowing_slot_unchanged(info: YevepoolRewardInfo, elapsed: int, liquidity: int)
    requires
        0 <= elapsed,
        elapsed * info.emissions_per_second_x64 > u128::MAX,
    ensures
        advanced_reward_info(info, elapsed, liquidity) == info,
{
    assert(wrap_growth(info.growth_global_x64 + 0) == info.growth_global_x64) by (nonlinear_arith)
        requires 0 <= info.growth_global_x64 <= u128::MAX;
}

/// The pool's reward slots advanced to `next_timestamp`.
///
/// Fails with `InvalidTimestamp` when `next_timestamp` lies before the time the slots were
/// last advanced to. With no active liquidity, or no time elapsed, the slots come back as
/// they are; else each used slot grows by its emissions over the elapsed time, divided by
/// the pool's liquidity.
pub fn next_yevepool_reward_infos(yevepool: &Yevepool, next_timestamp: u64) -> (r: Result<
    [YevepoolRewardInfo; NUM_REWARDS],
    ErrorCode,
>)
    ensures
        next_timestamp < yevepool.reward_last_updated_timestamp ==> r == Err::<
            [YevepoolRewardInfo; NUM_REWARDS],
            ErrorCode,
        >(ErrorCode::InvalidTimestamp),
        next_timestamp >= yevepool.reward_last_updated_timestamp && (yevepool.liquidity == 0
            || next_timestamp == yevepool.reward_last_updated_timestamp) ==> r == Ok::<
            [YevepoolRewardInfo; NUM_REWARDS],
            ErrorCode,
        >(yevepool.reward_infos),
        next_timestamp >= yevepool.reward_last_updated_timestamp ==> (r matches Ok(infos)
            && forall|i: int|
            0 <= i < NUM_REWARDS ==> #[trigger] infos@[i] == reward_info_at(
                *yevepool,
                next_timestamp as int,
                i,
            )),
        next_timestamp > yevepool.reward_last_updated_timestamp && yevepool.liquidity != 0 ==> (
        r matches Ok(infos) && forall|i: int|
            0 <= i < NUM_REWARDS ==> #[trigger] infos@[i] == advanced_reward_info(
                yevepool.reward_infos@[i],
                next_timestamp - yevepool.reward_last_updated_timestamp,
                yevepool.liquidity as int,
            )),
{
    let curr_timestamp = yevepool.reward_last_updated_timestamp;
    if next_timestamp < curr_timestamp {
        return Err(ErrorCode::InvalidTimestamp);
    }
    if yevepool.liquidity == 0 || next_timestamp == curr_timestamp {
        return Ok(yevepool.reward_infos);
    }
    let mut next_reward_infos = yevepool.reward_infos;
    let time_delta = (next_timestamp - curr_timestamp) as u128;
    let mut i: usize = 0;
    while i < NUM_REWARDS
        invariant
            0 <= i <= NUM_REWARDS,
            time_delta == next_timestamp - curr_timestamp,
            yevepool.liquidity != 0,
            forall|j: int|
                0 <= j < i ==> #[trigger] next_reward_infos@[j] == advanced_reward_info(
                    yevepool.reward_infos@[j],
                    time_delta as int,
                    yevepool.liquidity as int,
                ),
            forall|j: int| i <= j < NUM_REWARDS ==> #[trigger] next_reward_infos@[j] == yevepool.reward_infos@[j],
        decreases NUM_REWARDS - i,
    {
        let mut info = next_reward_infos[i];
        if info.initialized() {
            let reward_growth_delta = mul_div_or_zero(
                time_delta,
                info.emissions_per_second_x64,
                yevepool.liquidity,
            );
            info.growth_global_x64 = growth_add(info.growth_global_x64, reward_growth_delta);
        }
        next_reward_infos[i] = info;
        i = i + 1;
    }
    Ok(next_reward_infos)
}

/// The pool's liquidity after a position over `[tick_lower_index, tick_upper_index)`
/// changes by `liquidity_delta`: changed where the range holds the current tick, unchanged
/// otherwise. Fails as `add_liquidity_delta` does.
pub fn next_yevepool_liquidity(
    yevepool: &Yevepool,
    tick_upper_index: i32,
    tick_lower_index: i32,
    liquidity_delta: i128,
) -> (r: Result<u128, ErrorCode>)
    ensures
        !(tick_lower_index <= yevepool.tick_current_index < tick_upper_index) ==> r == Ok::<
            u128,
            ErrorCode,
        >(yevepool.liquidity),
        tick_lower_index <= yevepool.tick_current_index < tick_upper_index ==> {
            let sum = yevepool.liquidity + liquidity_delta;
            &&& sum < 0 ==> r == Err::<u128, ErrorCode>(ErrorCode::LiquidityUnderflow)
            &&& sum > u128::MAX ==> r == Err::<u128, ErrorCode>(ErrorCode::LiquidityOverflow)
            &&& 0 <= sum <= u128::MAX ==> r == Ok::<u128, ErrorCode>(sum as u128)
        },
{
    if yevepool.tick_current_index < tick_upper_index && yevepool.tick_current_index
        >= tick_lower_index {
        add_liquidity_delta(yevepool.liquidity, liquidity_delta)
    } else {
        Ok(yevepool.liquidity)
    }
}

/// Seconds in a day: the span that a reward vault must be able to pay for.
pub const DAY_IN_SECONDS: u128 = 86_400;

/// Tokens that `emissions_per_second_x64` emits in a day, rounded down.
pub open spec fn emissions_per_day(emissions_per_second_x64: int) -> int {
    DAY_IN_SECONDS * emissions_per_second_x64 / q64()
}

/// Advances the reward table to `timestamp` and sets slot `index` to emit
/// `emissions_per_second_x64`. Fails, changing nothing, with `InvalidRewardIndex` unless the
/// slot is in use, with `InvalidTimestamp` where `timestamp` lies before the last update,
/// and with `RewardVaultAmountInsufficient` where `vault_amount` cannot pay for a day of
/// the new rate.
pub fn set_reward_emissions(
    yevepool: &mut Yevepool,
    index: usize,
    emissions_per_second_x64: u128,
    vault_amount: u64,
    timestamp: u64,
) -> (r: Result<(), ErrorCode>)
    ensures
        old(yevepool).wf() ==> final(yevepool).wf(),
        index >= NUM_REWARDS || !old(yevepool).reward_infos@[index as int].initialized_spec()
            ==> r == Err::<(), ErrorCode>(ErrorCode::InvalidRewardIndex),
        index < NUM_REWARDS && old(yevepool).reward_infos@[index as int].initialized_spec()
            && timestamp < old(yevepool).reward_last_updated_timestamp ==> r == Err::<(), ErrorCode>(
            ErrorCode::InvalidTimestamp,
        ),
        index < NUM_REWARDS && old(yevepool).reward_infos@[index as int].initialized_spec()
            && timestamp >= old(yevepool).reward_last_updated_timestamp && vault_amount
            < emissions_per_day(emissions_per_second_x64 as int) ==> r == Err::<(), ErrorCode>(
            ErrorCode::RewardVaultAmountInsufficient,
        ),
        r is Err ==> *final(yevepool) == *old(yevepool),
        index < NUM_REWARDS && old(yevepool).reward_infos@[index as int].initialized_spec()
            && timestamp >= old(yevepool).reward_last_updated_timestamp && vault_amount
            >= emissions_per_day(emissions_per_second_x64 as int) ==> {
            &&& r is Ok
            &&& final(yevepool).reward_last_updated_timestamp == timestamp
            &&& forall|i: int|
                0 <= i < NUM_REWARDS && i != index ==> #[trigger] final(yevepool).reward_infos@[i]
                    == reward_info_at(*old(yevepool), timestamp as int, i)
            &&& final(yevepool).reward_infos@[index as int] == (YevepoolRewardInfo {
                emissions_per_second_x64,
                ..reward_info_at(*old(yevepool), timestamp as int, index as int)
            })
            &&& *final(yevepool) == (Yevepool {
                reward_infos: final(yevepool).reward_infos,
                reward_last_updated_timestamp: timestamp,
                ..*old(yevepool)
            })
        },
{
    if index >= NUM_REWARDS || !yevepool.reward_infos[index].initialized() {
        return Err(ErrorCode::InvalidRewardIndex);
    }
    let next_reward_infos = match next_yevepool_reward_infos(yevepool, timestamp) {
        Ok(v) => v,
        Err(e) => return Err(e),
    };
    let per_day = match checked_mul_shift_right(DAY_IN_SECONDS, emissions_per_second_x64) {
        Ok(v) => v,
        Err(_) => {
            proof {
                lemma_div_is_ordered(
                    growth_modulus(),
                    DAY_IN_SECONDS * emissions_per_second_x64,
                    q64(),
                );
                assert(growth_modulus() / q64() == q64());
            }
            return Err(ErrorCode::RewardVaultAmountInsufficient);
        },
    };
    if vault_amount < per_day {
        return Err(ErrorCode::RewardVaultAmountInsufficient);
    }
    yevepool.update_emissions(index, next_reward_infos, timestamp, emissions_per_second_x64)
}

} // verus!
