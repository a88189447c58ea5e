//! Administrative configuration shared by a family of pools: the acting
//! authorities and the default protocol fee rate.

use vstd::prelude::*;
use crate::address::Address;
use crate::errors::ErrorCode;
use crate::state::pool::MAX_PROTOCOL_FEE_RATE;

verus! {

/// Administrative configuration referenced by every pool of a deployment.
#[derive(Clone, Copy, Debug, PartialEq, Eq, Structural)]
pub struct ElysiumPoolsConfig {
    /// Authority allowed to change fee rates and fee tiers.
    pub fee_authority: Address,
    /// Authority allowed to collect accumulated protocol fees.
    pub collect_protocol_fees_authority: Address,
    /// Authority allowed to assign reward authorities on any pool.
    pub reward_emissions_super_authority: Address,
    /// Protocol fee rate newly created pools start from, in basis-point-like
    /// units.
    pub default_protocol_fee_rate: u16,
}

impl ElysiumPoolsConfig {
    /// Replaces the fee authority.
    pub fn update_fee_authority(&mut self, fee_authority: Address)
        ensures
            *final(self) == (ElysiumPoolsConfig { fee_authority, ..*old(self) }),
    {
        self.fee_authority = fee_authority;
    }

    /// Replaces the authority allowed to collect protocol fees.
    pub fn update_collect_protocol_fees_authority(
        &mut self,
        collect_protocol_fees_authority: Address,
    )
        ensures
            *final(self) == (ElysiumPoolsConfig {
                collect_protocol_fees_authority,
                ..*old(self)
            }),
    {
        self.collect_protocol_fees_authority = collect_protocol_fees_authority;
    }

    /// Replaces the reward-emissions super authority.
    pub fn update_reward_emissions_super_authority(
        &mut self,
        reward_emissions_super_authority: Address,
    )
        ensures
            *final(self) == (ElysiumPoolsConfig {
                reward_emissions_super_authority,
                ..*old(self)
            }),
    {
        self.reward_emissions_super_authority = reward_emissions_super_authority;
    }

    /// Sets the default protocol fee rate; fails with
    /// `ProtocolFeeRateMaxExceeded` if the rate is above
    /// `MAX_PROTOCOL_FEE_RATE`, leaving the configuration unchanged.
    pub fn update_default_protocol_fee_rate(&mut self, default_protocol_fee_rate: u16) -> (r:
        Result<(), ErrorCode>)
        ensures
            r is Ok <==> default_protocol_fee_rate <= MAX_PROTOCOL_FEE_RATE,
            r is Err ==> r == Err::<(), ErrorCode>(ErrorCode::ProtocolFeeRateMaxExceeded)
                && *final(self) == *old(self),
            r is Ok ==> *final(self) == (ElysiumPoolsConfig {
                default_protocol_fee_rate,
                ..*old(self)
            }),
    {
        if default_protocol_fee_rate > MAX_PROTOCOL_FEE_RATE {
            return Err(ErrorCode::ProtocolFeeRateMaxExceeded);
        }
        self.default_protocol_fee_rate = default_protocol_fee_rate;
        Ok(())
    }
}

} // verus!
