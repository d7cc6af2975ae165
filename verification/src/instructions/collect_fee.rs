use vstd::prelude::*;

use crate::actions::{PdaSigner, SolTransfer};
use crate::pubkey::Pubkey;
use crate::state::MarketConfig;

verus! {

/// The accounts of the instruction that sweeps the fee vault.
#[derive(Debug, Clone, Copy)]
pub struct CollectFee {
    /// The market's authority, who signs.
    pub authority: Pubkey,
    /// The address of the market configuration.
    pub market_config_key: Pubkey,
    /// The market configuration.
    pub market_config: MarketConfig,
    /// The address of the fee vault.
    pub market_fee_vault: Pubkey,
    /// The fee vault's balance in lamports.
    pub market_fee_vault_lamports: u64,
    /// Where the fees go.
    pub destination: Pubkey,
}

impl CollectFee {
    /// The transfer that sweeps the fee vault.
    pub open spec fn sweep(self) -> SolTransfer {
        SolTransfer {
            from: self.market_fee_vault,
            to: self.destination,
            amount: self.market_fee_vault_lamports,
            signer: Some(
                PdaSigner::FeeVault {
                    market_config: self.market_config_key,
                    bump: self.market_config.fee_vault_bump,
                },
            ),
        }
    }

    /// Moves the fee vault's whole balance to the destination, signed by the vault
    /// through its seeds.
    pub fn handler(&self) -> (r: SolTransfer)
        ensures
            r == self.sweep(),
    {
        SolTransfer {
            from: self.market_fee_vault,
            to: self.destination,
            amount: self.market_fee_vault_lamports,
            signer: Some(
                PdaSigner::FeeVault {
                    market_config: self.market_config_key,
                    bump: self.market_config.fee_vault_bump,
                },
            ),
        }
    }
}

} // verus!
