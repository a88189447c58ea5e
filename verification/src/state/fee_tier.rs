//! The fee-tier entity: the default fee rate that pools of one tick spacing
//! start from.

use vstd::prelude::*;
use crate::address::Address;
use crate::errors::ErrorCode;
use crate::state::pool::MAX_FEE_RATE;

verus! {

/// Default fee rate for pools created at one tick spacing.
#[derive(Clone, Copy, Debug, PartialEq, Eq, Structural)]
pub struct FeeTier {
    /// The administrative configuration this tier belongs to.
    pub pools_config: Address,
    /// Tick spacing this tier applies to.
    pub tick_spacing: u16,
    /// Fee rate newly created pools start from, in hundredths of a basis
    /// point.
    pub default_fee_rate: u16,
}

impl FeeTier {
    /// Sets the tier's default fee rate; fails with `FeeRateMaxExceeded` if
    /// the rate is above `MAX_FEE_RATE`, leaving the tier unchanged.
    pub fn update_default_fee_rate(&mut self, default_fee_rate: u16) -> (r: Result<(), ErrorCode>)
        ensures
            r is Ok <==> default_fee_rate <= MAX_FEE_RATE,
            r is Err ==> r == Err::<(), ErrorCode>(ErrorCode::FeeRateMaxExceeded) && *final(self)
                == *old(self),
            r is Ok ==> *final(self) == (FeeTier { default_fee_rate, ..*old(self) }),
    {
        if default_fee_rate > MAX_FEE_RATE {
            return Err(ErrorCode::FeeRateMaxExceeded);
        }
        self.default_fee_rate = default_fee_rate;
        Ok(())
    }
}

} // verus!
