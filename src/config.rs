use vstd::prelude::*;

use crate::errors::ErrorCode;
use crate::pubkey::Pubkey;
use crate::yevepool::MAX_PROTOCOL_FEE_RATE;

verus! {

/// Settings shared by the pools of one deployment.
#[derive(Debug, Clone, Copy, PartialEq, Eq)]
pub struct YevepoolsConfig {
    pub fee_authority: Pubkey,
    pub collect_protocol_fees_authority: Pubkey,
    pub reward_emissions_super_authority: Pubkey,
    /// Protocol fee rate given to new pools, in basis points of the fee.
    pub default_protocol_fee_rate: u16,
}

impl YevepoolsConfig {
    /// The default protocol fee rate is within its maximum.
    pub open spec fn wf(&self) -> bool {
        self.default_protocol_fee_rate <= MAX_PROTOCOL_FEE_RATE
    }

    /// Sets the default protocol fee rate. Fails with `ProtocolFeeRateMaxExceeded`,
    /// changing nothing, above `MAX_PROTOCOL_FEE_RATE`.
    pub fn update_default_protocol_fee_rate(&mut self, default_protocol_fee_rate: u16) -> (r:
        Result<(), ErrorCode>)
        ensures
            old(self).wf() ==> final(self).wf(),
            default_protocol_fee_rate > MAX_PROTOCOL_FEE_RATE ==> r == Err::<(), ErrorCode>(
                ErrorCode::ProtocolFeeRateMaxExceeded,
            ) && *final(self) == *old(self),
            default_protocol_fee_rate <= MAX_PROTOCOL_FEE_RATE ==> r == Ok::<(), ErrorCode>(())
                && *final(self) == (YevepoolsConfig { default_protocol_fee_rate, ..*old(self) }),
    {
        if default_protocol_fee_rate > MAX_PROTOCOL_FEE_RATE {
            return Err(ErrorCode::ProtocolFeeRateMaxExceeded);
        }
        self.default_protocol_fee_rate = default_protocol_fee_rate;
        Ok(())
    }

    /// Hands the authority to collect protocol fees to `authority`.
    pub fn update_collect_protocol_fees_authority(&mut self, authority: Pubkey)
        ensures
            *final(self) == (YevepoolsConfig {
                collect_protocol_fees_authority: authority,
                ..*old(self)
            }),
    {
        self.collect_protocol_fees_authority = authority;
    }

    /// Hands the authority over every pool's reward emissions to `authority`.
    pub fn update_reward_emissions_super_authority(&mut self, authority: Pubkey)
        ensures
            *final(self) == (YevepoolsConfig {
                reward_emissions_super_authority: authority,
                ..*old(self)
            }),
    {
        self.reward_emissions_super_authority = authority;
    }
}

} // verus!
