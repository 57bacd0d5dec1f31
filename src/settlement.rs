use vstd::prelude::*;

use vstd::arithmetic::div_mod::{lemma_sub_mod_noop, lemma_sub_mod_noop_right};

use crate::errors::ErrorCode;
use crate::manager::{next_yevepool_reward_infos, reward_info_at};
use crate::math::{
    add_liquidity_delta, checked_mul_shift_right, growth_modulus, growth_sub, owed_add,
    owed_modulus, q64, wrap_growth,
};
use crate::position::{Position, PositionRewardInfo, PositionUpdate};
use crate::tick::{offset_in_array, Tick, TickArray};
use crate::util::to_timestamp_u64;
use crate::yevepool::{Yevepool, YevepoolRewardInfo, NUM_REWARDS};

verus! {

/// Growth outside a range's lower bound, that is below it, from the bound's stored growth
/// outside: the stored value itself while the current tick is at or above the bound, the
/// global growth less it while the current tick is below (the stored value then measures
/// the growth above the bound).
pub open spec fn growth_below(
    tick_current_index: int,
    tick_lower_index: int,
    lower_outside: int,
    global: int,
) -> int {
    if tick_current_index < tick_lower_index {
        global - lower_outside
    } else {
        lower_outside
    }
}

/// Growth outside a range's upper bound, that is above it, from the bound's stored growth
/// outside: the stored value itself while the current tick is below the bound, the global
/// growth less it while the current tick is at or above.
pub open spec fn growth_above(
    tick_current_index: int,
    tick_upper_index: int,
    upper_outside: int,
    global: int,
) -> int {
    if tick_current_index < tick_upper_index {
        upper_outside
    } else {
        global - upper_outside
    }
}

/// Growth inside `[tick_lower_index, tick_upper_index)`: the global growth less the growth
/// outside each bound, modulo 2^128. Ticks that no position uses take part through their
/// stored values like any other. While the current tick lies in the range this is
/// `global - lower_outside - upper_outside` modulo 2^128.
pub open spec fn growth_inside_spec(
    tick_current_index: int,
    tick_lower_index: int,
    lower_outside: int,
    tick_upper_index: int,
    upper_outside: int,
    global: int,
) -> int {
    wrap_growth(
        global - growth_below(
            tick_current_index,
            tick_lower_index,
            lower_outside,
            global,
        ) - growth_above(
            tick_current_index,
            tick_upper_index,
            upper_outside,
            global,
        ),
    )
}

/// Reducing the subtrahends modulo 2^128 first does not change `a - b - c` modulo 2^128.
proof fn lemma_wrap_sub_sub(a: int, b: int, c: int)
    ensures
        wrap_growth(wrap_growth(a - wrap_growth(b)) - wrap_growth(c)) == wrap_growth(a - b - c),
{
    let m = growth_modulus();
    lemma_sub_mod_noop_right(a, b, m);
    lemma_sub_mod_noop(a - b, c, m);
    lemma_sub_mod_noop(a - (b % m), c, m);
    vstd::arithmetic::div_mod::lemma_mod_twice(c, m);
    vstd::arithmetic::div_mod::lemma_mod_twice(a - (b % m), m);
}

/// A range's growth inside, taken from one accumulator.
pub fn next_growth_inside(
    tick_current_index: i32,
    tick_lower_index: i32,
    lower_outside: u128,
    tick_upper_index: i32,
    upper_outside: u128,
    global: u128,
) -> (r: u128)
    ensures
        r == growth_inside_spec(
            tick_current_index as int,
            tick_lower_index as int,
            lower_outside as int,
            tick_upper_index as int,
            upper_outside as int,
            global as int,
        ),
{
    let below = if tick_current_index < tick_lower_index {
        growth_sub(global, lower_outside)
    } else {
        lower_outside
    };
    let above = if tick_current_index < tick_upper_index {
        upper_outside
    } else {
        growth_sub(global, upper_outside)
    };
    let r = growth_sub(growth_sub(global, below), above);
    proof {
        let b = growth_below(
            tick_current_index as int,
            tick_lower_index as int,
            lower_outside as int,
            global as int,
        );
        let c = growth_above(
            tick_current_index as int,
            tick_upper_index as int,
            upper_outside as int,
            global as int,
        );
        lemma_wrap_sub_sub(global as int, b, c);
        vstd::arithmetic::div_mod::lemma_small_mod(global as nat, growth_modulus() as nat);
        vstd::arithmetic::div_mod::lemma_small_mod(lower_outside as nat, growth_modulus() as nat);
        vstd::arithmetic::div_mod::lemma_small_mod(upper_outside as nat, growth_modulus() as nat);
    }
    r
}

/// Growth inside a range is recovered exactly across a wraparound: where the accumulators
/// hold the true running totals `global`, `lower_outside` and `upper_outside` reduced
/// modulo 2^128, and the current tick lies in the range, the growth inside is
/// `global - lower_outside - upper_outside` modulo 2^128, whether or not any of the
/// totals has passed 2^128.
pub proof fn lemma_growth_inside_across_wrap(
    tick_current_index: int,
    tick_lower_index: int,
    tick_upper_index: int,
    global: int,
    lower_outside: int,
    upper_outside: int,
)
    requires
        tick_lower_index <= tick_current_index < tick_upper_index,
    ensures
        growth_inside_spec(
            tick_current_index,
            tick_lower_index,
            wrap_growth(lower_outside),
            tick_upper_index,
            wrap_growth(upper_outside),
            wrap_growth(global),
        ) == wrap_growth(global - lower_outside - upper_outside),
{
    let m = growth_modulus();
    lemma_sub_mod_noop(global, lower_outside, m);
    lemma_sub_mod_noop(global - lower_outside, upper_outside, m);
    lemma_sub_mod_noop(global % m - lower_outside % m, upper_outside, m);
    vstd::arithmetic::div_mod::lemma_mod_twice(upper_outside, m);
    vstd::arithmetic::div_mod::lemma_mod_twice(global % m - lower_outside % m, m);
    lemma_sub_mod_noop_right(global % m - lower_outside % m, upper_outside, m);
}

/// While the current tick lies in the range, the growth inside is the global growth less
/// the two stored growths outside, modulo 2^128, for any stored values.
pub proof fn lemma_growth_inside_in_range(
    tick_current_index: int,
    tick_lower_index: int,
    tick_upper_index: int,
    global: int,
    lower_outside: int,
    upper_outside: int,
)
    requires
        tick_lower_index <= tick_current_index < tick_upper_index,
    ensures
        growth_inside_spec(
            tick_current_index,
            tick_lower_index,
            lower_outside,
            tick_upper_index,
            upper_outside,
            global,
        ) == wrap_growth(global - lower_outside - upper_outside),
{
}

/// A range's growth inside for both fee tokens.
pub fn next_fee_growths_inside(
    tick_current_index: i32,
    tick_lower: &Tick,
    tick_lower_index: i32,
    tick_upper: &Tick,
    tick_upper_index: i32,
    fee_growth_global_a: u128,
    fee_growth_global_b: u128,
) -> (r: (u128, u128))
    ensures
        r.0 == growth_inside_spec(
            tick_current_index as int,
            tick_lower_index as int,
            tick_lower.fee_growth_outside_a as int,
            tick_upper_index as int,
            tick_upper.fee_growth_outside_a as int,
            fee_growth_global_a as int,
        ),
        r.1 == growth_inside_spec(
            tick_current_index as int,
            tick_lower_index as int,
            tick_lower.fee_growth_outside_b as int,
            tick_upper_index as int,
            tick_upper.fee_growth_outside_b as int,
            fee_growth_global_b as int,
        ),
{
    let a = next_growth_inside(
        tick_current_index,
        tick_lower_index,
        tick_lower.fee_growth_outside_a,
        tick_upper_index,
        tick_upper.fee_growth_outside_a,
        fee_growth_global_a,
    );
    let b = next_growth_inside(
        tick_current_index,
        tick_lower_index,
        tick_lower.fee_growth_outside_b,
        tick_upper_index,
        tick_upper.fee_growth_outside_b,
        fee_growth_global_b,
    );
    (a, b)
}

/// A range's growth inside of reward slot `i`, from the slot's global growth and the
/// bounds' stored growths outside, as for the fees.
pub open spec fn reward_growth_inside_spec(
    tick_current_index: int,
    tick_lower: Tick,
    tick_lower_index: int,
    tick_upper: Tick,
    tick_upper_index: int,
    reward_info: YevepoolRewardInfo,
    i: int,
) -> int {
    growth_inside_spec(
        tick_current_index,
        tick_lower_index,
        tick_lower.reward_growths_outside@[i] as int,
        tick_upper_index,
        tick_upper.reward_growths_outside@[i] as int,
        reward_info.growth_global_x64 as int,
    )
}

/// A range's growth inside for each reward slot.
pub fn next_reward_growths_inside(
    tick_current_index: i32,
    tick_lower: &Tick,
    tick_lower_index: i32,
    tick_upper: &Tick,
    tick_upper_index: i32,
    reward_infos: &[YevepoolRewardInfo; NUM_REWARDS],
) -> (r: [u128; NUM_REWARDS])
    ensures
        forall|i: int|
            0 <= i < NUM_REWARDS ==> #[trigger] r@[i] == reward_growth_inside_spec(
                tick_current_index as int,
                *tick_lower,
                tick_lower_index as int,
                *tick_upper,
                tick_upper_index as int,
                reward_infos@[i],
                i,
            ),
{
    let mut growths: [u128; NUM_REWARDS] = [0u128, 0u128, 0u128];
    let mut i: usize = 0;
    while i < NUM_REWARDS
        invariant
            0 <= i <= NUM_REWARDS,
            forall|j: int|
                0 <= j < i ==> #[trigger] growths@[j] == reward_growth_inside_spec(
                    tick_current_index as int,
                    *tick_lower,
                    tick_lower_index as int,
                    *tick_upper,
                    tick_upper_index as int,
                    reward_infos@[j],
                    j,
                ),
        decreases NUM_REWARDS - i,
    {
        let g = next_growth_inside(
            tick_current_index,
            tick_lower_index,
            tick_lower.reward_growths_outside[i],
            tick_upper_index,
            tick_upper.reward_growths_outside[i],
            reward_infos[i].growth_global_x64,
        );
        growths[i] = g;
        i = i + 1;
    }
    growths
}

/// What `liquidity` has earned, Q64.64, over an accumulator that moved from `checkpoint`
/// to `inside`.
pub open spec fn accrued(liquidity: int, inside: int, checkpoint: int) -> int {
    liquidity * wrap_growth(inside - checkpoint)
}

/// An owed amount after adding what was earned, in whole tokens, modulo 2^64.
pub open spec fn next_owed(owed: int, liquidity: int, inside: int, checkpoint: int) -> int {
    (owed + accrued(liquidity, inside, checkpoint) / q64()) % owed_modulus()
}

/// Whether every accrual of the position can be computed: each fits in 128 bits.
pub open spec fn accruals_fit(
    position: Position,
    fee_growth_inside_a: int,
    fee_growth_inside_b: int,
    reward_growths_inside: Seq<u128>,
) -> bool {
    &&& accrued(position.liquidity as int, fee_growth_inside_a, position.fee_growth_checkpoint_a as int)
        < growth_modulus()
    &&& accrued(position.liquidity as int, fee_growth_inside_b, position.fee_growth_checkpoint_b as int)
        < growth_modulus()
    &&& forall|i: int|
        0 <= i < NUM_REWARDS ==> accrued(
            position.liquidity as int,
            reward_growths_inside[i] as int,
            (#[trigger] position.reward_infos@[i]).growth_inside_checkpoint as int,
        ) < growth_modulus()
}

/// The position after settling at the given growths inside and changing its liquidity by
/// `liquidity_delta`.
pub open spec fn settled_position(
    position: Position,
    liquidity: int,
    fee_growth_inside_a: int,
    fee_growth_inside_b: int,
    reward_growths_inside: Seq<u128>,
    update: PositionUpdate,
) -> bool {
    &&& update.liquidity == liquidity
    &&& update.fee_growth_checkpoint_a == fee_growth_inside_a
    &&& update.fee_growth_checkpoint_b == fee_growth_inside_b
    &&& update.fee_owed_a == next_owed(
        position.fee_owed_a as int,
        position.liquidity as int,
        fee_growth_inside_a,
        position.fee_growth_checkpoint_a as int,
    )
    &&& update.fee_owed_b == next_owed(
        position.fee_owed_b as int,
        position.liquidity as int,
        fee_growth_inside_b,
        position.fee_growth_checkpoint_b as int,
    )
    &&& forall|i: int|
        0 <= i < NUM_REWARDS ==> {
            &&& (#[trigger] update.reward_infos@[i]).growth_inside_checkpoint
                == reward_growths_inside[i]
            &&& update.reward_infos@[i].amount_owed == next_owed(
                position.reward_infos@[i].amount_owed as int,
                position.liquidity as int,
                reward_growths_inside[i] as int,
                position.reward_infos@[i].growth_inside_checkpoint as int,
            )
        }
}

/// The owed amount after an accrual, or `MultiplicationShiftRightOverflow` where the
/// accrual does not fit in 128 bits.
fn accrue(owed: u64, liquidity: u128, inside: u128, checkpoint: u128) -> (r: Result<u64, ErrorCode>)
    ensures
        accrued(liquidity as int, inside as int, checkpoint as int) < growth_modulus() ==> r
            == Ok::<u64, ErrorCode>(
            next_owed(owed as int, liquidity as int, inside as int, checkpoint as int) as u64,
        ),
        accrued(liquidity as int, inside as int, checkpoint as int) >= growth_modulus() ==> r
            == Err::<u64, ErrorCode>(ErrorCode::MultiplicationShiftRightOverflow),
{
    let delta = match checked_mul_shift_right(liquidity, growth_sub(inside, checkpoint)) {
        Ok(v) => v,
        Err(e) => return Err(e),
    };
    Ok(owed_add(owed, delta))
}

/// Settles the position at the given growths inside its range and changes its liquidity by
/// `liquidity_delta`. Fails with `MultiplicationShiftRightOverflow` where an accrual does
/// not fit in 128 bits, and else as `add_liquidity_delta` does.
pub fn next_position_modify_liquidity_update(
    position: &Position,
    liquidity_delta: i128,
    fee_growth_inside_a: u128,
    fee_growth_inside_b: u128,
    reward_growths_inside: &[u128; NUM_REWARDS],
) -> (r: Result<PositionUpdate, ErrorCode>)
    ensures
        !accruals_fit(
            *position,
            fee_growth_inside_a as int,
            fee_growth_inside_b as int,
            reward_growths_inside@,
        ) ==> r == Err::<PositionUpdate, ErrorCode>(ErrorCode::MultiplicationShiftRightOverflow),
        accruals_fit(
            *position,
            fee_growth_inside_a as int,
            fee_growth_inside_b as int,
            reward_growths_inside@,
        ) ==> {
            let sum = position.liquidity + liquidity_delta;
            &&& sum < 0 ==> r == Err::<PositionUpdate, ErrorCode>(ErrorCode::LiquidityUnderflow)
            &&& sum > u128::MAX ==> r == Err::<PositionUpdate, ErrorCode>(
                ErrorCode::LiquidityOverflow,
            )
            &&& 0 <= sum <= u128::MAX ==> (r matches Ok(update) && settled_position(
                *position,
                sum,
                fee_growth_inside_a as int,
                fee_growth_inside_b as int,
                reward_growths_inside@,
                update,
            ))
        },
{
    let fee_owed_a = match accrue(
        position.fee_owed_a,
        position.liquidity,
        fee_growth_inside_a,
        position.fee_growth_checkpoint_a,
    ) {
        Ok(v) => v,
        Err(e) => return Err(e),
    };
    let fee_owed_b = match accrue(
        position.fee_owed_b,
        position.liquidity,
        fee_growth_inside_b,
        position.fee_growth_checkpoint_b,
    ) {
        Ok(v) => v,
        Err(e) => return Err(e),
    };
    let mut reward_infos = position.reward_infos;
    let mut i: usize = 0;
    while i < NUM_REWARDS
        invariant
            0 <= i <= NUM_REWARDS,
            forall|j: int|
                0 <= j < i ==> accrued(
                    position.liquidity as int,
                    reward_growths_inside@[j] as int,
                    (#[trigger] position.reward_infos@[j]).growth_inside_checkpoint as int,
                ) < growth_modulus(),
            forall|j: int|
                0 <= j < i ==> {
                    &&& (#[trigger] reward_infos@[j]).growth_inside_checkpoint
                        == reward_growths_inside@[j]
                    &&& reward_infos@[j].amount_owed == next_owed(
                        position.reward_infos@[j].amount_owed as int,
                        position.liquidity as int,
                        reward_growths_inside@[j] as int,
                        position.reward_infos@[j].growth_inside_checkpoint as int,
                    )
                },
        decreases NUM_REWARDS - i,
    {
        let curr = position.reward_infos[i];
        let amount_owed = match accrue(
            curr.amount_owed,
            position.liquidity,
            reward_growths_inside[i],
            curr.growth_inside_checkpoint,
        ) {
            Ok(v) => v,
            Err(e) => return Err(e),
        };
        reward_infos[i] = PositionRewardInfo {
            growth_inside_checkpoint: reward_growths_inside[i],
            amount_owed,
        };
        i = i + 1;
    }
    let liquidity = match add_liquidity_delta(position.liquidity, liquidity_delta) {
        Ok(v) => v,
        Err(e) => return Err(e),
    };
    Ok(PositionUpdate {
        liquidity,
        fee_growth_checkpoint_a: fee_growth_inside_a,
        fee_owed_a,
        fee_growth_checkpoint_b: fee_growth_inside_b,
        fee_owed_b,
        reward_infos,
    })
}

/// The tick of `tick_array` at `tick_index`, for a pool of `tick_spacing`.
pub open spec fn tick_at(tick_array: TickArray, tick_index: int, tick_spacing: int) -> Tick {
    tick_array.ticks@[offset_in_array(tick_index, tick_array.start_tick_index as int, tick_spacing)]
}

/// The growths inside the position's range of each reward slot, once the pool's reward
/// table is advanced to `timestamp`.
pub open spec fn position_reward_growths_inside(
    yevepool: Yevepool,
    position: Position,
    tick_lower: Tick,
    tick_upper: Tick,
    timestamp: int,
) -> Seq<u128> {
    Seq::new(
        NUM_REWARDS as nat,
        |i: int|
            reward_growth_inside_spec(
                yevepool.tick_current_index as int,
                tick_lower,
                position.tick_lower_index as int,
                tick_upper,
                position.tick_upper_index as int,
                reward_info_at(yevepool, timestamp, i),
                i,
            ) as u128,
    )
}

/// The growth inside the position's range of fee token A.
pub open spec fn position_fee_growth_inside_a(
    yevepool: Yevepool,
    position: Position,
    tick_lower: Tick,
    tick_upper: Tick,
) -> int {
    growth_inside_spec(
        yevepool.tick_current_index as int,
        position.tick_lower_index as int,
        tick_lower.fee_growth_outside_a as int,
        position.tick_upper_index as int,
        tick_upper.fee_growth_outside_a as int,
        yevepool.fee_growth_global_a as int,
    )
}

/// The growth inside the position's range of fee token B.
pub open spec fn position_fee_growth_inside_b(
    yevepool: Yevepool,
    position: Position,
    tick_lower: Tick,
    tick_upper: Tick,
) -> int {
    growth_inside_spec(
        yevepool.tick_current_index as int,
        position.tick_lower_index as int,
        tick_lower.fee_growth_outside_b as int,
        position.tick_upper_index as int,
        tick_upper.fee_growth_outside_b as int,
        yevepool.fee_growth_global_b as int,
    )
}

/// Whether settling `position` at `timestamp` succeeds: both bounds are held by the given
/// arrays, time has not gone back, and every accrual fits in 128 bits.
pub open spec fn settlement_succeeds(
    yevepool: Yevepool,
    position: Position,
    tick_array_lower: TickArray,
    tick_array_upper: TickArray,
    timestamp: int,
) -> bool {
    let spacing = yevepool.tick_spacing as int;
    let lower = tick_at(tick_array_lower, position.tick_lower_index as int, spacing);
    let upper = tick_at(tick_array_upper, position.tick_upper_index as int, spacing);
    &&& tick_array_lower.holds_tick(position.tick_lower_index as int, spacing)
    &&& tick_array_upper.holds_tick(position.tick_upper_index as int, spacing)
    &&& timestamp >= yevepool.reward_last_updated_timestamp
    &&& accruals_fit(
        position,
        position_fee_growth_inside_a(yevepool, position, lower, upper),
        position_fee_growth_inside_b(yevepool, position, lower, upper),
        position_reward_growths_inside(yevepool, position, lower, upper, timestamp),
    )
}

/// The error that settling reports where it does not succeed: the first check that fails.
pub open spec fn settlement_error(
    yevepool: Yevepool,
    position: Position,
    tick_array_lower: TickArray,
    tick_array_upper: TickArray,
    timestamp: int,
) -> ErrorCode {
    let spacing = yevepool.tick_spacing as int;
    if !tick_array_lower.holds_tick(position.tick_lower_index as int, spacing)
        || !tick_array_upper.holds_tick(position.tick_upper_index as int, spacing) {
        ErrorCode::TickNotFound
    } else if timestamp < yevepool.reward_last_updated_timestamp {
        ErrorCode::InvalidTimestamp
    } else {
        ErrorCode::MultiplicationShiftRightOverflow
    }
}

/// Settles what the position has earned up to `timestamp`, without changing its liquidity.
/// Returns the position's recomputed part and the pool's reward table advanced to
/// `timestamp`; fails with `settlement_error` unless `settlement_succeeds`.
pub fn calculate_fee_and_reward_growths(
    yevepool: &Yevepool,
    position: &Position,
    tick_array_lower: &TickArray,
    tick_array_upper: &TickArray,
    timestamp: u64,
) -> (r: Result<(PositionUpdate, [YevepoolRewardInfo; NUM_REWARDS]), ErrorCode>)
    requires
        tick_array_lower.wf(),
        tick_array_upper.wf(),
    ensures
        !settlement_succeeds(*yevepool, *position, *tick_array_lower, *tick_array_upper, timestamp as int)
            ==> r == Err::<(PositionUpdate, [YevepoolRewardInfo; NUM_REWARDS]), ErrorCode>(
            settlement_error(*yevepool, *position, *tick_array_lower, *tick_array_upper, timestamp as int),
        ),
        settlement_succeeds(*yevepool, *position, *tick_array_lower, *tick_array_upper, timestamp as int)
            ==> {
            let spacing = yevepool.tick_spacing as int;
            let lower = tick_at(*tick_array_lower, position.tick_lower_index as int, spacing);
            let upper = tick_at(*tick_array_upper, position.tick_upper_index as int, spacing);
            r matches Ok((update, infos)) && (forall|i: int|
                0 <= i < NUM_REWARDS ==> #[trigger] infos@[i] == reward_info_at(
                    *yevepool,
                    timestamp as int,
                    i,
                )) && settled_position(
                *position,
                position.liquidity as int,
                position_fee_growth_inside_a(*yevepool, *position, lower, upper),
                position_fee_growth_inside_b(*yevepool, *position, lower, upper),
                position_reward_growths_inside(*yevepool, *position, lower, upper, timestamp as int),
                update,
            )
        },
{
    let tick_lower = match tick_array_lower.get_tick(position.tick_lower_index, yevepool.tick_spacing) {
        Ok(t) => t,
        Err(e) => return Err(e),
    };
    let tick_upper = match tick_array_upper.get_tick(position.tick_upper_index, yevepool.tick_spacing) {
        Ok(t) => t,
        Err(e) => return Err(e),
    };
    let next_reward_infos = match next_yevepool_reward_infos(yevepool, timestamp) {
        Ok(v) => v,
        Err(e) => return Err(e),
    };
    let reward_growths_inside = next_reward_growths_inside(
        yevepool.tick_current_index,
        &tick_lower,
        position.tick_lower_index,
        &tick_upper,
        position.tick_upper_index,
        &next_reward_infos,
    );
    assert(reward_growths_inside@ =~= position_reward_growths_inside(
        *yevepool,
        *position,
        tick_lower,
        tick_upper,
        timestamp as int,
    ));
    let (fee_growth_inside_a, fee_growth_inside_b) = next_fee_growths_inside(
        yevepool.tick_current_index,
        &tick_lower,
        position.tick_lower_index,
        &tick_upper,
        position.tick_upper_index,
        yevepool.fee_growth_global_a,
        yevepool.fee_growth_global_b,
    );
    let update = match next_position_modify_liquidity_update(
        position,
        0,
        fee_growth_inside_a,
        fee_growth_inside_b,
        &reward_growths_inside,
    ) {
        Ok(u) => u,
        Err(e) => return Err(e),
    };
    Ok((update, next_reward_infos))
}

/// Settles `position` at the clock reading `unix_timestamp`: advances the pool's reward
/// table to that time and rolls the position's fees and rewards forward. Fails with
/// `InvalidTimestampConversion` for a time before the epoch and else as
/// `calculate_fee_and_reward_growths` does; on failure neither record changes.
pub fn update_fees_and_rewards(
    yevepool: &mut Yevepool,
    position: &mut Position,
    tick_array_lower: &TickArray,
    tick_array_upper: &TickArray,
    unix_timestamp: i64,
) -> (r: Result<(), ErrorCode>)
    requires
        tick_array_lower.wf(),
        tick_array_upper.wf(),
    ensures
        old(yevepool).wf() ==> final(yevepool).wf(),
        old(position).wf(old(yevepool).tick_spacing as int) ==> final(position).wf(
            final(yevepool).tick_spacing as int,
        ),
        unix_timestamp < 0 ==> r == Err::<(), ErrorCode>(ErrorCode::InvalidTimestampConversion),
        unix_timestamp >= 0 && !settlement_succeeds(
            *old(yevepool),
            *old(position),
            *tick_array_lower,
            *tick_array_upper,
            unix_timestamp as int,
        ) ==> r == Err::<(), ErrorCode>(
            settlement_error(
                *old(yevepool),
                *old(position),
                *tick_array_lower,
                *tick_array_upper,
                unix_timestamp as int,
            ),
        ),
        r is Err ==> *final(yevepool) == *old(yevepool) && *final(position) == *old(position),
        unix_timestamp >= 0 && settlement_succeeds(
            *old(yevepool),
            *old(position),
            *tick_array_lower,
            *tick_array_upper,
            unix_timestamp as int,
        ) ==> {
            let pool = *old(yevepool);
            let pos = *old(position);
            let spacing = pool.tick_spacing as int;
            let lower = tick_at(*tick_array_lower, pos.tick_lower_index as int, spacing);
            let upper = tick_at(*tick_array_upper, pos.tick_upper_index as int, spacing);
            &&& r is Ok
            &&& final(yevepool).reward_last_updated_timestamp == unix_timestamp
            &&& forall|i: int|
                0 <= i < NUM_REWARDS ==> #[trigger] final(yevepool).reward_infos@[i]
                    == reward_info_at(pool, unix_timestamp as int, i)
            &&& *final(yevepool) == (Yevepool {
                reward_infos: final(yevepool).reward_infos,
                reward_last_updated_timestamp: final(yevepool).reward_last_updated_timestamp,
                ..pool
            })
            &&& final(position).yevepool == pos.yevepool
            &&& final(position).position_mint == pos.position_mint
            &&& final(position).tick_lower_index == pos.tick_lower_index
            &&& final(position).tick_upper_index == pos.tick_upper_index
            &&& settled_position(
                pos,
                pos.liquidity as int,
                position_fee_growth_inside_a(pool, pos, lower, upper),
                position_fee_growth_inside_b(pool, pos, lower, upper),
                position_reward_growths_inside(pool, pos, lower, upper, unix_timestamp as int),
                PositionUpdate {
                    liquidity: final(position).liquidity,
                    fee_growth_checkpoint_a: final(position).fee_growth_checkpoint_a,
                    fee_owed_a: final(position).fee_owed_a,
                    fee_growth_checkpoint_b: final(position).fee_growth_checkpoint_b,
                    fee_owed_b: final(position).fee_owed_b,
                    reward_infos: final(position).reward_infos,
                },
            )
        },
{
    let timestamp = match to_timestamp_u64(unix_timestamp) {
        Ok(t) => t,
        Err(e) => return Err(e),
    };
    let (position_update, reward_infos) = match calculate_fee_and_reward_growths(
        yevepool,
        position,
        tick_array_lower,
        tick_array_upper,
        timestamp,
    ) {
        Ok(v) => v,
        Err(e) => return Err(e),
    };
    yevepool.update_rewards(reward_infos, timestamp);
    position.update(&position_update);
    Ok(())
}

} // verus!
