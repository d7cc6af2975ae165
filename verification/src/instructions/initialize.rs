use vstd::prelude::*;

use crate::error::MarketErrorCode;
use crate::pubkey::Pubkey;
use crate::state::{fee_rate_accepted, MarketConfig};

verus! {

/// The bump seeds of the accounts that `Initialize` derives.
#[derive(Debug, Clone, Copy)]
pub struct InitializeBumps {
    pub market_config: u8,
    pub market_fee_vault: u8,
}

/// The accounts of the instruction that creates the market configuration.
#[derive(Debug, Clone, Copy)]
pub struct Initialize {
    /// The signer who becomes the market's authority.
    pub authority: Pubkey,
    /// The configuration account being created.
    pub market_config: MarketConfig,
    /// The address of the market's fee vault.
    pub market_fee_vault: Pubkey,
}

impl Initialize {
    /// The configuration that initializing with `fee` and `bumps` writes.
    pub open spec fn configured(self, fee: u16, bumps: InitializeBumps) -> MarketConfig {
        MarketConfig {
            authority: self.authority,
            fee_vault: self.market_fee_vault,
            bump: bumps.market_config,
            fee_vault_bump: bumps.market_fee_vault,
            fee,
        }
    }

    /// Writes the market configuration: the signer as authority, the fee vault's
    /// address, the bumps and the fee rate. A fee rate above 10 000 basis points is
    /// refused with `InvalidFee`, and nothing is written.
    pub fn handler(&mut self, fee: u16, bumps: &InitializeBumps) -> (r: Result<(), MarketErrorCode>)
        ensures
            fee_rate_accepted(fee) ==> r == Ok::<(), MarketErrorCode>(()) && *final(self)
                == (Initialize { market_config: old(self).configured(fee, *bumps), ..*old(self) }),
            !fee_rate_accepted(fee) ==> r == Err::<(), MarketErrorCode>(MarketErrorCode::InvalidFee)
                && *final(self) == *old(self),
    {
        match self.market_config.check_fee(fee) {
            Ok(()) => {},
            Err(e) => {
                return Err(e);
            },
        }
        self.market_config = MarketConfig {
            authority: self.authority,
            fee_vault: self.market_fee_vault,
            bump: bumps.market_config,
            fee_vault_bump: bumps.market_fee_vault,
            fee,
        };
        Ok(())
    }
}

} // verus!
