use vstd::prelude::*;

use crate::error::MarketErrorCode;
use crate::pubkey::Pubkey;

verus! {

/// The denominator of fee rates: a rate is a number of basis points.
pub const FEE_BASIS_POINTS: u16 = 10_000;

/// The market's configuration account.
#[derive(Debug, Clone, Copy)]
pub struct MarketConfig {
    pub authority: Pubkey,
    pub fee_vault: Pubkey,
    pub fee: u16,
    pub bump: u8,
    pub fee_vault_bump: u8,
}

/// A fee rate that the market accepts: at most the whole price.
pub open spec fn fee_rate_accepted(fee: u16) -> bool {
    fee <= FEE_BASIS_POINTS
}

impl MarketConfig {
    /// Accepts a fee rate of at most 10 000 basis points; rejects any other with
    /// `InvalidFee`.
    pub fn check_fee(&self, fee: u16) -> (r: Result<(), MarketErrorCode>)
        ensures
            r == (if fee_rate_accepted(fee) {
                Ok::<(), MarketErrorCode>(())
            } else {
                Err(MarketErrorCode::InvalidFee)
            }),
    {
        if fee <= FEE_BASIS_POINTS {
            Ok(())
        } else {
            Err(MarketErrorCode::InvalidFee)
        }
    }
}

/// A compressed NFT held by the program for sale at `price` lamports.
#[derive(Debug, Clone, Copy)]
pub struct CompressedListing {
    pub seller: Pubkey,
    pub merkle_tree: Pubkey,
    pub asset_id: Pubkey,
    pub price: u64,
    pub bump: u8,
}

/// The market's cut of a sale at `price` under `fee_rate` basis points, rounded down.
pub open spec fn market_fee(price: u64, fee_rate: u16) -> int {
    (price as int * fee_rate as int) / (FEE_BASIS_POINTS as int)
}

/// How a sale at `price` is split under `fee_rate`: `(lamports for the seller, fee)`,
/// or `MathError` where the product overflows 64 bits or the fee exceeds the price.
pub open spec fn fee_split(price: u64, fee_rate: u16) -> Result<(u64, u64), MarketErrorCode> {
    if price as int * fee_rate as int > u64::MAX as int {
        Err(MarketErrorCode::MathError)
    } else if market_fee(price, fee_rate) > price as int {
        Err(MarketErrorCode::MathError)
    } else {
        Ok(((price as int - market_fee(price, fee_rate)) as u64, market_fee(price, fee_rate) as u64))
    }
}

impl CompressedListing {
    /// Splits the listing's price into the seller's lamports and the market fee.
    pub fn calculate_fee(&self, fee_rate: u16) -> (r: Result<(u64, u64), MarketErrorCode>)
        ensures
            r == fee_split(self.price, fee_rate),
    {
        let product = match self.price.checked_mul(fee_rate as u64) {
            Some(p) => p,
            None => {
                return Err(MarketErrorCode::MathError);
            },
        };
        let fee = match product.checked_div(FEE_BASIS_POINTS as u64) {
            Some(f) => f,
            None => {
                return Err(MarketErrorCode::MathError);
            },
        };
        let lamports = match self.price.checked_sub(fee) {
            Some(l) => l,
            None => {
                return Err(MarketErrorCode::MathError);
            },
        };
        Ok((lamports, fee))
    }
}

/// An offer for a listed compressed NFT. No instruction of this program reads or
/// writes offers; the account type is kept for the program's clients.
#[derive(Debug, Clone, Copy)]
pub struct Offer {
    pub maker: Pubkey,
    pub seller: Pubkey,
    pub merkle_tree: Pubkey,
    pub asset_id: Pubkey,
    pub price: u64,
    pub bump: u8,
}

/// The leaf data that identifies a compressed NFT in its merkle tree.
#[derive(Clone, Debug, Eq, PartialEq)]
pub struct CnftArgs {
    pub root: [u8; 32],
    pub data_hash: [u8; 32],
    pub creator_hash: [u8; 32],
    pub nonce: u64,
    pub index: u32,
}

/// The arguments of a listing.
#[derive(Clone, Debug, Eq, PartialEq)]
pub struct ListingCnftArgs {
    pub asset_id: Pubkey,
    pub price: u64,
    pub cnft_args: CnftArgs,
}

/// The arguments of an unlisting. This program has no unlisting instruction; the
/// type is kept for the program's clients.
#[derive(Clone, Debug, Eq, PartialEq)]
pub struct UnlistCnftArgs {
    pub asset_id: Pubkey,
    pub cnft_args: CnftArgs,
}

/// The arguments of a purchase.
#[derive(Clone, Debug, Eq, PartialEq)]
pub struct BuyCnftArgs {
    pub asset_id: Pubkey,
    pub cnft_args: CnftArgs,
}

} // verus!
