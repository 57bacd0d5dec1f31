use vstd::prelude::*;

use crate::config::YevepoolsConfig;
use crate::errors::ErrorCode;
use crate::pubkey::Pubkey;
use crate::tick::{MAX_TICK_INDEX, MIN_TICK_INDEX};
use crate::tick_math::{
    sqrt_price_at_tick, tick_index_from_sqrt_price, MAX_SQRT_PRICE_X64, MIN_SQRT_PRICE_X64,
};

verus! {

/// Number of reward slots of a pool.
pub const NUM_REWARDS: usize = 3;

/// Largest fee rate, in hundredths of a basis point (3%).
pub const MAX_FEE_RATE: u16 = 30_000;

/// Largest protocol fee rate, in basis points of the fee (25%).
pub const MAX_PROTOCOL_FEE_RATE: u16 = 2_500;

/// One reward slot of a pool: what it emits and how much it has emitted per unit of
/// liquidity so far.
#[derive(Debug, Clone, Copy, PartialEq, Eq)]
pub struct YevepoolRewardInfo {
    /// Mint of the reward token; the all-zero key while the slot is unused.
    pub mint: Pubkey,
    /// Vault that pays the reward out.
    pub vault: Pubkey,
    /// Authority that may change the emission rate.
    pub authority: Pubkey,
    /// Tokens emitted per second, Q64.64.
    pub emissions_per_second_x64: u128,
    /// Tokens emitted per unit of liquidity since the slot was set up, Q64.64, modulo 2^128.
    pub growth_global_x64: u128,
}

impl YevepoolRewardInfo {
    /// A slot is in use once a reward mint has been registered in it.
    pub open spec fn initialized_spec(&self) -> bool {
        !self.mint.is_default_spec()
    }

    /// An unused slot: every key zero and no emission or growth.
    pub open spec fn is_blank(&self) -> bool {
        &&& self.mint.is_default_spec()
        &&& self.vault.is_default_spec()
        &&& self.authority.is_default_spec()
        &&& self.emissions_per_second_x64 == 0
        &&& self.growth_global_x64 == 0
    }

    /// An unused slot.
    pub fn new() -> (r: YevepoolRewardInfo)
        ensures
            r.is_blank(),
            !r.initialized_spec(),
    {
        YevepoolRewardInfo {
            mint: Pubkey::zero(),
            vault: Pubkey::zero(),
            authority: Pubkey::zero(),
            emissions_per_second_x64: 0,
            growth_global_x64: 0,
        }
    }

    /// Whether a reward mint has been registered in this slot.
    pub fn initialized(&self) -> (r: bool)
        ensures
            r == self.initialized_spec(),
    {
        !self.mint.is_default()
    }

    /// The global growth of each slot, in slot order.
    pub fn to_reward_growths(reward_infos: &[YevepoolRewardInfo; NUM_REWARDS]) -> (r: [u128; NUM_REWARDS])
        ensures
            forall|i: int| 0 <= i < NUM_REWARDS ==> r@[i] == reward_infos@[i].growth_global_x64,
    {
        [
            reward_infos[0].growth_global_x64,
            reward_infos[1].growth_global_x64,
            reward_infos[2].growth_global_x64,
        ]
    }
}

impl Default for YevepoolRewardInfo {
    fn default() -> (r: YevepoolRewardInfo)
        ensures
            r.is_blank(),
            !r.initialized_spec(),
    {
        YevepoolRewardInfo::new()
    }
}

} // verus!

verus! {

/// A concentrated-liquidity pool: its price, its active liquidity and the global growth
/// accumulators from which positions work out what they have earned.
#[derive(Debug, Clone, Copy, PartialEq, Eq)]
pub struct Yevepool {
    /// The configuration account that the pool belongs to.
    pub yevepools_config: Pubkey,
    pub yevepool_bump: u8,
    /// Distance between usable ticks.
    pub tick_spacing: u16,
    /// Swap fee, in hundredths of a basis point.
    pub fee_rate: u16,
    /// Share of the swap fee kept by the protocol, in basis points.
    pub protocol_fee_rate: u16,
    /// Liquidity of the positions whose range holds the current tick.
    pub liquidity: u128,
    /// Square root of the price, Q64.64.
    pub sqrt_price: u128,
    /// The tick whose price is the greatest not above the current price.
    pub tick_current_index: i32,
    pub protocol_fee_owed_a: u64,
    pub protocol_fee_owed_b: u64,
    pub token_mint_a: Pubkey,
    pub token_vault_a: Pubkey,
    /// Fees of token A earned per unit of liquidity, Q64.64, modulo 2^128.
    pub fee_growth_global_a: u128,
    pub token_mint_b: Pubkey,
    pub token_vault_b: Pubkey,
    /// Fees of token B earned per unit of liquidity, Q64.64, modulo 2^128.
    pub fee_growth_global_b: u128,
    /// Time, in seconds, up to which the reward growths have been accrued.
    pub reward_last_updated_timestamp: u64,
    pub reward_infos: [YevepoolRewardInfo; NUM_REWARDS],
}

impl Yevepool {
    /// An empty pool: every number zero, every key zero and every reward slot unused.
    /// Whether every number of the pool is zero, every key the zero key and every reward
    /// slot unused and zero: the record before `initialize`.
    pub open spec fn is_blank(&self) -> bool {
        &&& self.yevepools_config.is_default_spec()
        &&& self.yevepool_bump == 0
        &&& self.tick_spacing == 0
        &&& self.fee_rate == 0
        &&& self.protocol_fee_rate == 0
        &&& self.liquidity == 0
        &&& self.sqrt_price == 0
        &&& self.tick_current_index == 0
        &&& self.protocol_fee_owed_a == 0
        &&& self.protocol_fee_owed_b == 0
        &&& self.token_mint_a.is_default_spec()
        &&& self.token_vault_a.is_default_spec()
        &&& self.fee_growth_global_a == 0
        &&& self.token_mint_b.is_default_spec()
        &&& self.token_vault_b.is_default_spec()
        &&& self.fee_growth_global_b == 0
        &&& self.reward_last_updated_timestamp == 0
        &&& forall|i: int| 0 <= i < NUM_REWARDS ==> (#[trigger] self.reward_infos@[i]).is_blank()
    }

    /// An empty pool: every number zero, every key zero and every reward slot unused.
    pub fn new() -> (r: Yevepool)
        ensures
            r.is_blank(),
    {
        Yevepool {
            yevepools_config: Pubkey::zero(),
            yevepool_bump: 0,
            tick_spacing: 0,
            fee_rate: 0,
            protocol_fee_rate: 0,
            liquidity: 0,
            sqrt_price: 0,
            tick_current_index: 0,
            protocol_fee_owed_a: 0,
            protocol_fee_owed_b: 0,
            token_mint_a: Pubkey::zero(),
            token_vault_a: Pubkey::zero(),
            fee_growth_global_a: 0,
            token_mint_b: Pubkey::zero(),
            token_vault_b: Pubkey::zero(),
            fee_growth_global_b: 0,
            reward_last_updated_timestamp: 0,
            reward_infos: [YevepoolRewardInfo::new(), YevepoolRewardInfo::new(), YevepoolRewardInfo::new()],
        }
    }
}

impl Yevepool {
    /// Records the reward table as advanced to `reward_last_updated_timestamp`.
    pub fn update_rewards(
        &mut self,
        reward_infos: [YevepoolRewardInfo; NUM_REWARDS],
        reward_last_updated_timestamp: u64,
    )
        ensures
            old(self).wf() ==> final(self).wf(),
            *final(self) == (Yevepool { reward_infos, reward_last_updated_timestamp, ..*old(self) }),
    {
        self.reward_last_updated_timestamp = reward_last_updated_timestamp;
        self.reward_infos = reward_infos;
    }
}

impl Yevepool {
    /// A pool in use: its price lies within the representable bounds, its current tick is
    /// the greatest tick whose price is at most that price, and its fee rates are within
    /// their maxima.
    pub open spec fn wf(&self) -> bool {
        let t = self.tick_current_index as int;
        &&& MIN_SQRT_PRICE_X64 <= self.sqrt_price <= MAX_SQRT_PRICE_X64
        &&& MIN_TICK_INDEX <= t <= MAX_TICK_INDEX
        &&& sqrt_price_at_tick(t) <= self.sqrt_price
        &&& t < MAX_TICK_INDEX ==> self.sqrt_price < sqrt_price_at_tick(t + 1)
        &&& self.fee_rate <= MAX_FEE_RATE
        &&& self.protocol_fee_rate <= MAX_PROTOCOL_FEE_RATE
    }

    /// Index of the lowest unused reward slot, or `NUM_REWARDS` when all are used.
    pub open spec fn lowest_unused_slot(&self) -> int {
        if !self.reward_infos@[0].initialized_spec() {
            0
        } else if !self.reward_infos@[1].initialized_spec() {
            1
        } else if !self.reward_infos@[2].initialized_spec() {
            2
        } else {
            3
        }
    }

    /// Sets the swap fee rate. Fails with `FeeRateMaxExceeded`, changing nothing, above
    /// `MAX_FEE_RATE`.
    pub fn update_fee_rate(&mut self, fee_rate: u16) -> (r: Result<(), ErrorCode>)
        ensures
            old(self).wf() ==> final(self).wf(),
            fee_rate > MAX_FEE_RATE ==> r == Err::<(), ErrorCode>(ErrorCode::FeeRateMaxExceeded)
                && *final(self) == *old(self),
            fee_rate <= MAX_FEE_RATE ==> r == Ok::<(), ErrorCode>(()) && *final(self) == (
            Yevepool { fee_rate, ..*old(self) }),
    {
        if fee_rate > MAX_FEE_RATE {
            return Err(ErrorCode::FeeRateMaxExceeded);
        }
        self.fee_rate = fee_rate;
        Ok(())
    }

    /// Sets the protocol's share of the fee. Fails with `ProtocolFeeRateMaxExceeded`,
    /// changing nothing, above `MAX_PROTOCOL_FEE_RATE`.
    pub fn update_protocol_fee_rate(&mut self, protocol_fee_rate: u16) -> (r: Result<(), ErrorCode>)
        ensures
            old(self).wf() ==> final(self).wf(),
            protocol_fee_rate > MAX_PROTOCOL_FEE_RATE ==> r == Err::<(), ErrorCode>(
                ErrorCode::ProtocolFeeRateMaxExceeded,
            ) && *final(self) == *old(self),
            protocol_fee_rate <= MAX_PROTOCOL_FEE_RATE ==> r == Ok::<(), ErrorCode>(())
                && *final(self) == (Yevepool { protocol_fee_rate, ..*old(self) }),
    {
        if protocol_fee_rate > MAX_PROTOCOL_FEE_RATE {
            return Err(ErrorCode::ProtocolFeeRateMaxExceeded);
        }
        self.protocol_fee_rate = protocol_fee_rate;
        Ok(())
    }

    /// Registers a reward `mint` paid from `vault` in slot `index`. Fails with
    /// `InvalidRewardIndex`, changing nothing, unless `index` is the lowest unused slot.
    pub fn initialize_reward(&mut self, index: usize, mint: Pubkey, vault: Pubkey) -> (r: Result<
        (),
        ErrorCode,
    >)
        ensures
            old(self).wf() ==> final(self).wf(),
            index != old(self).lowest_unused_slot() || index >= NUM_REWARDS ==> r == Err::<
                (),
                ErrorCode,
            >(ErrorCode::InvalidRewardIndex) && *final(self) == *old(self),
            index == old(self).lowest_unused_slot() && index < NUM_REWARDS ==> r == Ok::<
                (),
                ErrorCode,
            >(()) && final(self).reward_infos@ == old(self).reward_infos@.update(
                index as int,
                YevepoolRewardInfo { mint, vault, ..old(self).reward_infos@[index as int] },
            ) && *final(self) == (Yevepool { reward_infos: final(self).reward_infos, ..*old(self) }),
    {
        if index >= NUM_REWARDS {
            return Err(ErrorCode::InvalidRewardIndex);
        }
        let mut lowest: usize = 0;
        while lowest < NUM_REWARDS && self.reward_infos[lowest].initialized()
            invariant
                0 <= lowest <= NUM_REWARDS,
                forall|j: int| 0 <= j < lowest ==> (#[trigger] self.reward_infos@[j]).initialized_spec(),
            decreases NUM_REWARDS - lowest,
        {
            lowest = lowest + 1;
        }
        if lowest != index {
            return Err(ErrorCode::InvalidRewardIndex);
        }
        let mut info = self.reward_infos[index];
        info.mint = mint;
        info.vault = vault;
        self.reward_infos[index] = info;
        Ok(())
    }

    /// Records the reward table as advanced to `timestamp` and sets slot `index` to emit
    /// `emissions_per_second_x64`. Fails with `InvalidRewardIndex`, changing nothing, for
    /// an index past the table.
    pub fn update_emissions(
        &mut self,
        index: usize,
        reward_infos: [YevepoolRewardInfo; NUM_REWARDS],
        timestamp: u64,
        emissions_per_second_x64: u128,
    ) -> (r: Result<(), ErrorCode>)
        ensures
            old(self).wf() ==> final(self).wf(),
            index >= NUM_REWARDS ==> r == Err::<(), ErrorCode>(ErrorCode::InvalidRewardIndex)
                && *final(self) == *old(self),
            index < NUM_REWARDS ==> r == Ok::<(), ErrorCode>(()) && final(self).reward_infos@
                == reward_infos@.update(
                index as int,
                YevepoolRewardInfo { emissions_per_second_x64, ..reward_infos@[index as int] },
            ) && *final(self) == (Yevepool {
                reward_infos: final(self).reward_infos,
                reward_last_updated_timestamp: timestamp,
                ..*old(self)
            }),
    {
        if index >= NUM_REWARDS {
            return Err(ErrorCode::InvalidRewardIndex);
        }
        self.update_rewards(reward_infos, timestamp);
        let mut info = self.reward_infos[index];
        info.emissions_per_second_x64 = emissions_per_second_x64;
        self.reward_infos[index] = info;
        Ok(())
    }

    /// Hands the authority over slot `index` to `authority`. Fails with
    /// `InvalidRewardIndex`, changing nothing, for an index past the table.
    pub fn update_reward_authority(&mut self, index: usize, authority: Pubkey) -> (r: Result<
        (),
        ErrorCode,
    >)
        ensures
            old(self).wf() ==> final(self).wf(),
            index >= NUM_REWARDS ==> r == Err::<(), ErrorCode>(ErrorCode::InvalidRewardIndex)
                && *final(self) == *old(self),
            index < NUM_REWARDS ==> r == Ok::<(), ErrorCode>(()) && final(self).reward_infos@
                == old(self).reward_infos@.update(
                index as int,
                YevepoolRewardInfo { authority, ..old(self).reward_infos@[index as int] },
            ) && *final(self) == (Yevepool { reward_infos: final(self).reward_infos, ..*old(self) }),
    {
        if index >= NUM_REWARDS {
            return Err(ErrorCode::InvalidRewardIndex);
        }
        let mut info = self.reward_infos[index];
        info.authority = authority;
        self.reward_infos[index] = info;
        Ok(())
    }
}

impl Yevepool {
    /// Sets up a new pool of `tick_spacing` at `sqrt_price`, with no liquidity, no growth
    /// and every reward slot unused under the configuration's reward authority. Fails,
    /// changing nothing, with `SqrtPriceOutOfBounds` for a price outside
    /// `[MIN_SQRT_PRICE_X64, MAX_SQRT_PRICE_X64]`, then with `FeeRateMaxExceeded` or
    /// `ProtocolFeeRateMaxExceeded` for a fee rate above its maximum.
    pub fn initialize(
        &mut self,
        yevepools_config_key: Pubkey,
        yevepools_config: &YevepoolsConfig,
        bump: u8,
        tick_spacing: u16,
        sqrt_price: u128,
        default_fee_rate: u16,
        token_mint_a: Pubkey,
        token_vault_a: Pubkey,
        token_mint_b: Pubkey,
        token_vault_b: Pubkey,
    ) -> (r: Result<(), ErrorCode>)
        ensures
            sqrt_price < MIN_SQRT_PRICE_X64 || sqrt_price > MAX_SQRT_PRICE_X64 ==> r == Err::<
                (),
                ErrorCode,
            >(ErrorCode::SqrtPriceOutOfBounds),
            MIN_SQRT_PRICE_X64 <= sqrt_price <= MAX_SQRT_PRICE_X64 && default_fee_rate
                > MAX_FEE_RATE ==> r == Err::<(), ErrorCode>(ErrorCode::FeeRateMaxExceeded),
            MIN_SQRT_PRICE_X64 <= sqrt_price <= MAX_SQRT_PRICE_X64 && default_fee_rate
                <= MAX_FEE_RATE && yevepools_config.default_protocol_fee_rate
                > MAX_PROTOCOL_FEE_RATE ==> r == Err::<(), ErrorCode>(
                ErrorCode::ProtocolFeeRateMaxExceeded,
            ),
            r is Err ==> *final(self) == *old(self),
            r is Ok ==> final(self).wf(),
            MIN_SQRT_PRICE_X64 <= sqrt_price <= MAX_SQRT_PRICE_X64 && default_fee_rate
                <= MAX_FEE_RATE && yevepools_config.default_protocol_fee_rate
                <= MAX_PROTOCOL_FEE_RATE ==> {
                let t = final(self).tick_current_index as int;
                &&& r is Ok
                &&& final(self).yevepools_config == yevepools_config_key
                &&& final(self).yevepool_bump == bump
                &&& final(self).tick_spacing == tick_spacing
                &&& final(self).fee_rate == default_fee_rate
                &&& final(self).protocol_fee_rate == yevepools_config.default_protocol_fee_rate
                &&& final(self).liquidity == 0
                &&& final(self).sqrt_price == sqrt_price
                &&& MIN_TICK_INDEX <= t <= MAX_TICK_INDEX
                &&& sqrt_price_at_tick(t) <= sqrt_price
                &&& t < MAX_TICK_INDEX ==> sqrt_price < sqrt_price_at_tick(t + 1)
                &&& final(self).token_mint_a == token_mint_a
                &&& final(self).token_vault_a == token_vault_a
                &&& final(self).token_mint_b == token_mint_b
                &&& final(self).token_vault_b == token_vault_b
                &&& final(self).fee_growth_global_a == 0
                &&& final(self).fee_growth_global_b == 0
                &&& final(self).protocol_fee_owed_a == old(self).protocol_fee_owed_a
                &&& final(self).protocol_fee_owed_b == old(self).protocol_fee_owed_b
                &&& final(self).reward_last_updated_timestamp
                    == old(self).reward_last_updated_timestamp
                &&& forall|i: int|
                    0 <= i < NUM_REWARDS ==> {
                        let info = #[trigger] final(self).reward_infos@[i];
                        &&& !info.initialized_spec()
                        &&& info.vault.is_default_spec()
                        &&& info.authority == yevepools_config.reward_emissions_super_authority
                        &&& info.emissions_per_second_x64 == 0
                        &&& info.growth_global_x64 == 0
                    }
            },
    {
        if sqrt_price < MIN_SQRT_PRICE_X64 || sqrt_price > MAX_SQRT_PRICE_X64 {
            return Err(ErrorCode::SqrtPriceOutOfBounds);
        }
        if default_fee_rate > MAX_FEE_RATE {
            return Err(ErrorCode::FeeRateMaxExceeded);
        }
        if yevepools_config.default_protocol_fee_rate > MAX_PROTOCOL_FEE_RATE {
            return Err(ErrorCode::ProtocolFeeRateMaxExceeded);
        }
        let mut reward_info = YevepoolRewardInfo::new();
        reward_info.authority = yevepools_config.reward_emissions_super_authority;
        self.yevepools_config = yevepools_config_key;
        self.yevepool_bump = bump;
        self.tick_spacing = tick_spacing;
        self.fee_rate = default_fee_rate;
        self.protocol_fee_rate = yevepools_config.default_protocol_fee_rate;
        self.liquidity = 0;
        self.sqrt_price = sqrt_price;
        self.tick_current_index = tick_index_from_sqrt_price(sqrt_price);
        self.token_mint_a = token_mint_a;
        self.token_vault_a = token_vault_a;
        self.fee_growth_global_a = 0;
        self.token_mint_b = token_mint_b;
        self.token_vault_b = token_vault_b;
        self.fee_growth_global_b = 0;
        self.reward_infos = [reward_info, reward_info, reward_info];
        Ok(())
    }
}

impl Default for Yevepool {
    fn default() -> (r: Yevepool)
        ensures
            r.is_blank(),
    {
        Yevepool::new()
    }
}

} // verus!

verus! {

/// Builds a pool field by field, from an empty one.
#[derive(Debug, Clone, Copy)]
pub struct YevepoolBuilder {
    pub yevepool: Yevepool,
}

impl YevepoolBuilder {
    pub fn new() -> (r: YevepoolBuilder)
        ensures
            r.yevepool.is_blank(),
    {
        YevepoolBuilder { yevepool: Yevepool::new() }
    }

    pub fn liquidity(self, liquidity: u128) -> (r: YevepoolBuilder)
        ensures
            r.yevepool == (Yevepool { liquidity, ..self.yevepool }),
    {
        let mut b = self;
        b.yevepool.liquidity = liquidity;
        b
    }

    pub fn reward_last_updated_timestamp(self, reward_last_updated_timestamp: u64) -> (r:
        YevepoolBuilder)
        ensures
            r.yevepool == (Yevepool { reward_last_updated_timestamp, ..self.yevepool }),
    {
        let mut b = self;
        b.yevepool.reward_last_updated_timestamp = reward_last_updated_timestamp;
        b
    }

    pub fn tick_current_index(self, tick_current_index: i32) -> (r: YevepoolBuilder)
        ensures
            r.yevepool == (Yevepool { tick_current_index, ..self.yevepool }),
    {
        let mut b = self;
        b.yevepool.tick_current_index = tick_current_index;
        b
    }

    pub fn tick_spacing(self, tick_spacing: u16) -> (r: YevepoolBuilder)
        ensures
            r.yevepool == (Yevepool { tick_spacing, ..self.yevepool }),
    {
        let mut b = self;
        b.yevepool.tick_spacing = tick_spacing;
        b
    }

    pub fn fee_growth_global(self, fee_growth_global_a: u128, fee_growth_global_b: u128) -> (r:
        YevepoolBuilder)
        ensures
            r.yevepool == (Yevepool { fee_growth_global_a, fee_growth_global_b, ..self.yevepool }),
    {
        let mut b = self;
        b.yevepool.fee_growth_global_a = fee_growth_global_a;
        b.yevepool.fee_growth_global_b = fee_growth_global_b;
        b
    }

    pub fn reward_infos(self, reward_infos: [YevepoolRewardInfo; NUM_REWARDS]) -> (r: YevepoolBuilder)
        ensures
            r.yevepool == (Yevepool { reward_infos, ..self.yevepool }),
    {
        let mut b = self;
        b.yevepool.reward_infos = reward_infos;
        b
    }

    /// Puts `reward_info` in slot `index`; an index past the table changes nothing.
    pub fn reward_info(self, index: usize, reward_info: YevepoolRewardInfo) -> (r: YevepoolBuilder)
        ensures
            index < NUM_REWARDS ==> r.yevepool.reward_infos@ == self.yevepool.reward_infos@.update(
                index as int,
                reward_info,
            ) && r.yevepool == (Yevepool { reward_infos: r.yevepool.reward_infos, ..self.yevepool }),
            index >= NUM_REWARDS ==> r == self,
    {
        let mut b = self;
        if index < NUM_REWARDS {
            b.yevepool.reward_infos[index] = reward_info;
        }
        b
    }

    pub fn build(self) -> (r: Yevepool)
        ensures
            r == self.yevepool,
    {
        self.yevepool
    }
}

} // verus!
