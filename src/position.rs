use vstd::prelude::*;

use crate::errors::ErrorCode;
use crate::pubkey::Pubkey;
use crate::tick::{usable_tick, Tick};
use crate::yevepool::{Yevepool, NUM_REWARDS};

verus! {

/// What a position has earned of one reward slot.
#[derive(Debug, Clone, Copy, PartialEq, Eq, Structural)]
pub struct PositionRewardInfo {
    /// The slot's growth inside the range when last settled, Q64.64, modulo 2^128.
    pub growth_inside_checkpoint: u128,
    /// Reward earned and not yet collected.
    pub amount_owed: u64,
}

impl Default for PositionRewardInfo {
    fn default() -> (r: PositionRewardInfo)
        ensures
            r.growth_inside_checkpoint == 0,
            r.amount_owed == 0,
    {
        PositionRewardInfo { growth_inside_checkpoint: 0, amount_owed: 0 }
    }
}

/// The part of a position that settlement and liquidity changes recompute.
#[derive(Debug, Clone, Copy, PartialEq, Eq)]
pub struct PositionUpdate {
    pub liquidity: u128,
    pub fee_growth_checkpoint_a: u128,
    pub fee_owed_a: u64,
    pub fee_growth_checkpoint_b: u128,
    pub fee_owed_b: u64,
    pub reward_infos: [PositionRewardInfo; NUM_REWARDS],
}

/// A liquidity provider's stake over the tick range `[tick_lower_index, tick_upper_index)`
/// of one pool, with what it has earned since it last settled.
#[derive(Debug, Clone, Copy, PartialEq, Eq)]
pub struct Position {
    /// The pool the position belongs to.
    pub yevepool: Pubkey,
    /// The token that represents ownership of the position.
    pub position_mint: Pubkey,
    pub liquidity: u128,
    pub tick_lower_index: i32,
    pub tick_upper_index: i32,
    /// Fee growth of token A inside the range when last settled, Q64.64, modulo 2^128.
    pub fee_growth_checkpoint_a: u128,
    pub fee_owed_a: u64,
    /// Fee growth of token B inside the range when last settled, Q64.64, modulo 2^128.
    pub fee_growth_checkpoint_b: u128,
    pub fee_owed_b: u64,
    pub reward_infos: [PositionRewardInfo; NUM_REWARDS],
}

/// Whether `[tick_lower_index, tick_upper_index)` is a range that a position can be opened
/// over in a pool of `tick_spacing`.
pub open spec fn valid_range(tick_lower_index: int, tick_upper_index: int, tick_spacing: int) -> bool {
    usable_tick(tick_lower_index, tick_spacing) && usable_tick(tick_upper_index, tick_spacing)
        && tick_lower_index < tick_upper_index
}

impl Position {
    /// An opened position: its range is valid for a pool of `tick_spacing`.
    pub open spec fn wf(&self, tick_spacing: int) -> bool {
        valid_range(self.tick_lower_index as int, self.tick_upper_index as int, tick_spacing)
    }

    /// A position that has not been opened: no range, no liquidity, nothing owed.
    pub fn new() -> (r: Position)
        ensures
            r.yevepool.is_default_spec(),
            r.position_mint.is_default_spec(),
            r.liquidity == 0,
            r.tick_lower_index == 0,
            r.tick_upper_index == 0,
            r.fee_growth_checkpoint_a == 0,
            r.fee_owed_a == 0,
            r.fee_growth_checkpoint_b == 0,
            r.fee_owed_b == 0,
            forall|i: int|
                0 <= i < NUM_REWARDS ==> (#[trigger] r.reward_infos@[i]).amount_owed == 0
                    && r.reward_infos@[i].growth_inside_checkpoint == 0,
    {
        Position {
            yevepool: Pubkey::zero(),
            position_mint: Pubkey::zero(),
            liquidity: 0,
            tick_lower_index: 0,
            tick_upper_index: 0,
            fee_growth_checkpoint_a: 0,
            fee_owed_a: 0,
            fee_growth_checkpoint_b: 0,
            fee_owed_b: 0,
            reward_infos: [
                PositionRewardInfo::default(),
                PositionRewardInfo::default(),
                PositionRewardInfo::default(),
            ],
        }
    }

    /// Whether nothing is owed on the position and it holds no liquidity, so that it may be
    /// closed.
    pub open spec fn is_empty_spec(&self) -> bool {
        &&& self.liquidity == 0
        &&& self.fee_owed_a == 0
        &&& self.fee_owed_b == 0
        &&& forall|i: int| 0 <= i < NUM_REWARDS ==> (#[trigger] self.reward_infos@[i]).amount_owed == 0
    }

    /// Whether nothing is owed on the position and it holds no liquidity.
    pub fn is_position_empty(&self) -> (r: bool)
        ensures
            r == self.is_empty_spec(),
    {
        self.liquidity == 0 && self.fee_owed_a == 0 && self.fee_owed_b == 0
            && self.reward_infos[0].amount_owed == 0 && self.reward_infos[1].amount_owed == 0
            && self.reward_infos[2].amount_owed == 0
    }

    /// Opens the position over `[tick_lower_index, tick_upper_index)` in `yevepool`, whose
    /// address is `yevepool_key`. Fails with `InvalidTickIndex`, changing nothing, unless
    /// both bounds are usable ticks of the pool's spacing and the lower lies below the upper.
    pub fn open_position(
        &mut self,
        yevepool: &Yevepool,
        yevepool_key: Pubkey,
        position_mint: Pubkey,
        tick_lower_index: i32,
        tick_upper_index: i32,
    ) -> (r: Result<(), ErrorCode>)
        ensures
            !valid_range(tick_lower_index as int, tick_upper_index as int, yevepool.tick_spacing as int)
                ==> r == Err::<(), ErrorCode>(ErrorCode::InvalidTickIndex) && *final(self) == *old(
                self),
            r is Ok ==> final(self).wf(yevepool.tick_spacing as int),
            valid_range(tick_lower_index as int, tick_upper_index as int, yevepool.tick_spacing as int)
                ==> r == Ok::<(), ErrorCode>(()) && *final(self) == (Position {
                yevepool: yevepool_key,
                position_mint,
                tick_lower_index,
                tick_upper_index,
                ..*old(self)
            }),
    {
        if !Tick::check_is_usable_tick(tick_lower_index, yevepool.tick_spacing)
            || !Tick::check_is_usable_tick(tick_upper_index, yevepool.tick_spacing)
            || tick_lower_index >= tick_upper_index {
            return Err(ErrorCode::InvalidTickIndex);
        }
        self.yevepool = yevepool_key;
        self.position_mint = position_mint;
        self.tick_lower_index = tick_lower_index;
        self.tick_upper_index = tick_upper_index;
        Ok(())
    }

    /// Writes the recomputed part of the position.
    pub fn update(&mut self, update: &PositionUpdate)
        ensures
            *final(self) == (Position {
                liquidity: update.liquidity,
                fee_growth_checkpoint_a: update.fee_growth_checkpoint_a,
                fee_owed_a: update.fee_owed_a,
                fee_growth_checkpoint_b: update.fee_growth_checkpoint_b,
                fee_owed_b: update.fee_owed_b,
                reward_infos: update.reward_infos,
                ..*old(self)
            }),
    {
        self.liquidity = update.liquidity;
        self.fee_growth_checkpoint_a = update.fee_growth_checkpoint_a;
        self.fee_owed_a = update.fee_owed_a;
        self.fee_growth_checkpoint_b = update.fee_growth_checkpoint_b;
        self.fee_owed_b = update.fee_owed_b;
        self.reward_infos = update.reward_infos;
    }
}

impl Default for Position {
    fn default() -> (r: Position)
        ensures
            r.is_empty_spec(),
            r.yevepool.is_default_spec(),
            r.position_mint.is_default_spec(),
            r.tick_lower_index == 0,
            r.tick_upper_index == 0,
            r.fee_growth_checkpoint_a == 0,
            r.fee_growth_checkpoint_b == 0,
            forall|i: int|
                0 <= i < NUM_REWARDS ==> (#[trigger] r.reward_infos@[i]).growth_inside_checkpoint == 0,
    {
        Position::new()
    }
}

} // verus!
