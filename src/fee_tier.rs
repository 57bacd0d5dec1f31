use vstd::prelude::*;

use crate::errors::ErrorCode;
use crate::pubkey::Pubkey;
use crate::yevepool::MAX_FEE_RATE;

verus! {

/// The fee suggested for the pools of one tick spacing.
#[derive(Debug, Clone, Copy, PartialEq, Eq)]
pub struct FeeTier {
    /// The configuration that the tier belongs to.
    pub yevepools_config: Pubkey,
    pub tick_spacing: u16,
    /// Fee rate given to new pools of this spacing, in hundredths of a basis point.
    pub default_fee_rate: u16,
}

impl FeeTier {
    /// The default fee rate is within its maximum.
    pub open spec fn wf(&self) -> bool {
        self.default_fee_rate <= MAX_FEE_RATE
    }

    /// A fee tier for `tick_spacing` with `default_fee_rate`. Fails with
    /// `FeeRateMaxExceeded` above `MAX_FEE_RATE`.
    pub fn new(yevepools_config: Pubkey, tick_spacing: u16, default_fee_rate: u16) -> (r: Result<
        FeeTier,
        ErrorCode,
    >)
        ensures
            r matches Ok(tier) ==> tier.wf(),
            default_fee_rate > MAX_FEE_RATE ==> r == Err::<FeeTier, ErrorCode>(
                ErrorCode::FeeRateMaxExceeded,
            ),
            default_fee_rate <= MAX_FEE_RATE ==> r == Ok::<FeeTier, ErrorCode>(
                FeeTier { yevepools_config, tick_spacing, default_fee_rate },
            ),
    {
        if default_fee_rate > MAX_FEE_RATE {
            return Err(ErrorCode::FeeRateMaxExceeded);
        }
        Ok(FeeTier { yevepools_config, tick_spacing, default_fee_rate })
    }

    /// Sets the default fee rate. Fails with `FeeRateMaxExceeded`, changing nothing, above
    /// `MAX_FEE_RATE`.
    pub fn update_default_fee_rate(&mut self, default_fee_rate: u16) -> (r: Result<(), ErrorCode>)
        ensures
            old(self).wf() ==> final(self).wf(),
            default_fee_rate > MAX_FEE_RATE ==> r == Err::<(), ErrorCode>(
                ErrorCode::FeeRateMaxExceeded,
            ) && *final(self) == *old(self),
            default_fee_rate <= MAX_FEE_RATE ==> r == Ok::<(), ErrorCode>(()) && *final(self) == (
            FeeTier { default_fee_rate, ..*old(self) }),
    {
        if default_fee_rate > MAX_FEE_RATE {
            return Err(ErrorCode::FeeRateMaxExceeded);
        }
        self.default_fee_rate = default_fee_rate;
        Ok(())
    }
}

} // verus!
