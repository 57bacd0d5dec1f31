use vstd::prelude::*;

use crate::errors::ErrorCode;
use crate::math::{add_liquidity_delta, growth_sub, wrap_growth};
use crate::tick::Tick;
use crate::yevepool::{YevepoolRewardInfo, NUM_REWARDS};

verus! {

/// The tick at `tick_index` after a position with a bound there changes its liquidity by
/// `liquidity_delta`.
///
/// With no change the tick stays as it is. When no liquidity is left the tick becomes
/// blank. A tick that comes into use records, by convention, all growth so far as lying
/// below it: the global growths where the current tick is at or above it, zero otherwise.
/// The net liquidity changes by `liquidity_delta`, negated for an upper bound. Fails with
/// `LiquidityUnderflow` or `LiquidityOverflow` where the gross liquidity leaves the range of
/// `u128`, and with `LiquidityNetError` where the net one leaves that of `i128`.
pub fn next_tick_modify_liquidity_update(
    tick: &Tick,
    tick_index: i32,
    tick_current_index: i32,
    fee_growth_global_a: u128,
    fee_growth_global_b: u128,
    reward_infos: &[YevepoolRewardInfo; NUM_REWARDS],
    liquidity_delta: i128,
    is_upper_tick: bool,
) -> (r: Result<Tick, ErrorCode>)
    ensures
        tick.wf() ==> (r matches Ok(t) ==> t.wf()),
        liquidity_delta == 0 ==> r == Ok::<Tick, ErrorCode>(*tick),
        liquidity_delta != 0 ==> {
            let gross = tick.liquidity_gross + liquidity_delta;
            let net = if is_upper_tick {
                tick.liquidity_net - liquidity_delta
            } else {
                tick.liquidity_net + liquidity_delta
            };
            let below = tick.liquidity_gross == 0 && tick_current_index >= tick_index;
            &&& gross < 0 ==> r == Err::<Tick, ErrorCode>(ErrorCode::LiquidityUnderflow)
            &&& gross > u128::MAX ==> r == Err::<Tick, ErrorCode>(ErrorCode::LiquidityOverflow)
            &&& gross == 0 ==> (r matches Ok(t) && t.is_blank())
            &&& 0 < gross <= u128::MAX && (net < i128::MIN || net > i128::MAX) ==> r == Err::<
                Tick,
                ErrorCode,
            >(ErrorCode::LiquidityNetError)
            &&& 0 < gross <= u128::MAX && i128::MIN <= net <= i128::MAX ==> (r matches Ok(t) && {
                &&& t.initialized
                &&& t.liquidity_gross == gross
                &&& t.liquidity_net == net
                &&& tick.liquidity_gross != 0 ==> t.fee_growth_outside_a == tick.fee_growth_outside_a
                    && t.fee_growth_outside_b == tick.fee_growth_outside_b
                    && t.reward_growths_outside == tick.reward_growths_outside
                &&& below ==> t.fee_growth_outside_a == fee_growth_global_a
                    && t.fee_growth_outside_b == fee_growth_global_b && forall|i: int|
                    0 <= i < NUM_REWARDS ==> #[trigger] t.reward_growths_outside@[i]
                        == reward_infos@[i].growth_global_x64
                &&& tick.liquidity_gross == 0 && tick_current_index < tick_index
                    ==> t.fee_growth_outside_a == 0 && t.fee_growth_outside_b == 0 && forall|
                    i: int,
                | 0 <= i < NUM_REWARDS ==> #[trigger] t.reward_growths_outside@[i] == 0
            })
        },
{
    if liquidity_delta == 0 {
        return Ok(*tick);
    }
    let liquidity_gross = match add_liquidity_delta(tick.liquidity_gross, liquidity_delta) {
        Ok(v) => v,
        Err(e) => return Err(e),
    };
    if liquidity_gross == 0 {
        return Ok(Tick::new());
    }
    let (fee_growth_outside_a, fee_growth_outside_b, reward_growths_outside) = if tick.liquidity_gross
        == 0 {
        if tick_current_index >= tick_index {
            (
                fee_growth_global_a,
                fee_growth_global_b,
                YevepoolRewardInfo::to_reward_growths(reward_infos),
            )
        } else {
            (0u128, 0u128, [0u128, 0u128, 0u128])
        }
    } else {
        (tick.fee_growth_outside_a, tick.fee_growth_outside_b, tick.reward_growths_outside)
    };
    let liquidity_net = if is_upper_tick {
        match tick.liquidity_net.checked_sub(liquidity_delta) {
            Some(v) => v,
            None => return Err(ErrorCode::LiquidityNetError),
        }
    } else {
        match tick.liquidity_net.checked_add(liquidity_delta) {
            Some(v) => v,
            None => return Err(ErrorCode::LiquidityNetError),
        }
    };
    Ok(
        Tick {
            initialized: true,
            liquidity_net,
            liquidity_gross,
            fee_growth_outside_a,
            fee_growth_outside_b,
            reward_growths_outside,
        },
    )
}

/// The tick after the price crosses it: each growth outside becomes the global growth less
/// what it was, modulo 2^128, so that it again measures the growth on the far side.
pub fn next_tick_cross_update(
    tick: &Tick,
    fee_growth_global_a: u128,
    fee_growth_global_b: u128,
    reward_infos: &[YevepoolRewardInfo; NUM_REWARDS],
) -> (r: Tick)
    ensures
        tick.wf() ==> r.wf(),
        r.initialized == tick.initialized,
        r.liquidity_net == tick.liquidity_net,
        r.liquidity_gross == tick.liquidity_gross,
        r.fee_growth_outside_a == wrap_growth(fee_growth_global_a - tick.fee_growth_outside_a),
        r.fee_growth_outside_b == wrap_growth(fee_growth_global_b - tick.fee_growth_outside_b),
        forall|i: int|
            0 <= i < NUM_REWARDS ==> #[trigger] r.reward_growths_outside@[i] == wrap_growth(
                reward_infos@[i].growth_global_x64 - tick.reward_growths_outside@[i],
            ),
{
    let mut outside = tick.reward_growths_outside;
    let mut i: usize = 0;
    while i < NUM_REWARDS
        invariant
            0 <= i <= NUM_REWARDS,
            forall|j: int|
                0 <= j < i ==> #[trigger] outside@[j] == wrap_growth(
                    reward_infos@[j].growth_global_x64 - tick.reward_growths_outside@[j],
                ),
            forall|j: int| i <= j < NUM_REWARDS ==> #[trigger] outside@[j] == tick.reward_growths_outside@[j],
        decreases NUM_REWARDS - i,
    {
        let flipped = growth_sub(reward_infos[i].growth_global_x64, outside[i]);
        outside[i] = flipped;
        i = i + 1;
    }
    Tick {
        initialized: tick.initialized,
        liquidity_net: tick.liquidity_net,
        liquidity_gross: tick.liquidity_gross,
        fee_growth_outside_a: growth_sub(fee_growth_global_a, tick.fee_growth_outside_a),
        fee_growth_outside_b: growth_sub(fee_growth_global_b, tick.fee_growth_outside_b),
        reward_growths_outside: outside,
    }
}

/// The pool's liquidity after the price crosses a tick of net liquidity `liquidity_net`:
/// the net is added when the price moves up and taken away when it moves down
/// (`a_to_b`). Fails as `add_liquidity_delta` does.
pub fn next_liquidity_after_cross(liquidity: u128, liquidity_net: i128, a_to_b: bool) -> (r: Result<
    u128,
    ErrorCode,
>)
    ensures
        ({
            let sum = if a_to_b {
                liquidity - liquidity_net
            } else {
                liquidity + liquidity_net
            };
            &&& sum < 0 ==> r == Err::<u128, ErrorCode>(ErrorCode::LiquidityUnderflow)
            &&& sum > u128::MAX ==> r == Err::<u128, ErrorCode>(ErrorCode::LiquidityOverflow)
            &&& 0 <= sum <= u128::MAX ==> r == Ok::<u128, ErrorCode>(sum as u128)
        }),
{
    if !a_to_b {
        return add_liquidity_delta(liquidity, liquidity_net);
    }
    if liquidity_net == i128::MIN {
        // The negation does not fit in i128: add its magnitude in two halves.
        let half: i128 = i128::MAX;
        return match add_liquidity_delta(liquidity, half) {
            Ok(v) => add_liquidity_delta(v, 1),
            Err(e) => Err(e),
        };
    }
    add_liquidity_delta(liquidity, -liquidity_net)
}

} // verus!
