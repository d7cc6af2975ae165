use vstd::prelude::*;

use crate::actions::{CnftTransfer, PdaSigner, SolTransfer};
use crate::asset::{asset_id_of, derived, get_asset_id};
use crate::error::MarketErrorCode;
use crate::pubkey::Pubkey;
use crate::state::{fee_split, BuyCnftArgs, CnftArgs, CompressedListing, MarketConfig};

verus! {

/// The accounts of the instruction that buys a listed compressed NFT.
///
/// The seller who is paid and the merkle tree that holds the NFT are those that the
/// listing records: the instruction's account constraints hold the seller and merkle
/// tree accounts equal to them.
#[derive(Debug, Clone, Copy)]
pub struct BuyCnft {
    /// The buyer, who signs and pays.
    pub buyer: Pubkey,
    /// The market configuration, which holds the fee rate.
    pub market_config: MarketConfig,
    /// The address of the market's fee vault.
    pub market_fee_vault: Pubkey,
    /// The address of the listing account, which holds the NFT.
    pub compressed_listing_key: Pubkey,
    /// The listing.
    pub compressed_listing: CompressedListing,
    /// The Bubblegum tree configuration of the merkle tree.
    pub tree_config: Pubkey,
}

/// What a purchase asks the host to do: pay the seller, pay the market fee where it
/// is positive, and move the NFT from the listing account to the buyer.
#[derive(Debug, Clone)]
pub struct BuyCnftActions {
    pub pay_seller: SolTransfer,
    pub pay_fee: Option<SolTransfer>,
    pub transfer_cnft: CnftTransfer,
}

impl BuyCnft {
    /// A payment of `amount` lamports by the buyer to `to`.
    pub open spec fn payment(self, to: Pubkey, amount: u64) -> SolTransfer {
        SolTransfer { from: self.buyer, to, amount, signer: None }
    }

    /// The transfer of the NFT from the listing account to the buyer, signed by the
    /// listing account through its seeds.
    pub open spec fn delivery(self, cnft: CnftArgs, asset_id: Pubkey) -> CnftTransfer {
        CnftTransfer {
            tree_config: self.tree_config,
            leaf_owner: self.compressed_listing_key,
            leaf_owner_is_signer: true,
            leaf_delegate: self.compressed_listing_key,
            leaf_delegate_is_signer: true,
            new_leaf_owner: self.buyer,
            merkle_tree: self.compressed_listing.merkle_tree,
            root: cnft.root,
            data_hash: cnft.data_hash,
            creator_hash: cnft.creator_hash,
            nonce: cnft.nonce,
            index: cnft.index,
            signer: Some(
                PdaSigner::CompressedListing {
                    seller: self.compressed_listing.seller,
                    merkle_tree: self.compressed_listing.merkle_tree,
                    asset_id,
                    bump: self.compressed_listing.bump,
                },
            ),
        }
    }

    /// What buying with `args` answers where the NFT's derived asset id is `asset_id`:
    /// the listing must be the one for the arguments' asset id
    /// (`InvalidCompressedListingAssetId`), that asset id must be `asset_id`, which
    /// must exist (`InvalidAssetId`), and the price must split under the market's fee rate
    /// (`MathError`); then the seller gets the price less the fee, the fee vault gets
    /// the fee if it is positive, and the buyer gets the NFT.
    pub open spec fn purchase_result(self, args: BuyCnftArgs, asset_id: Option<Seq<u8>>) -> Result<
        BuyCnftActions,
        MarketErrorCode,
    > {
        if self.compressed_listing.asset_id@ != args.asset_id@ {
            Err(MarketErrorCode::InvalidCompressedListingAssetId)
        } else if asset_id != Some(args.asset_id@) {
            Err(MarketErrorCode::InvalidAssetId)
        } else {
            match fee_split(self.compressed_listing.price, self.market_config.fee) {
                Err(e) => Err(e),
                Ok((lamports, fee)) => Ok(
                    BuyCnftActions {
                        pay_seller: self.payment(self.compressed_listing.seller, lamports),
                        pay_fee: if fee > 0 {
                            Some(self.payment(self.market_fee_vault, fee))
                        } else {
                            None
                        },
                        transfer_cnft: self.delivery(args.cnft_args, args.asset_id),
                    },
                ),
            }
        }
    }

    /// Buys the NFT whose derived asset id is `asset_id` (`None` where none could be
    /// derived), as `purchase_result` says.
    pub fn buy_with_asset_id(&self, args: BuyCnftArgs, asset_id: Option<Pubkey>) -> (r: Result<
        BuyCnftActions,
        MarketErrorCode,
    >)
        ensures
            r == self.purchase_result(args, derived(asset_id)),
    {
        if !(self.compressed_listing.asset_id == args.asset_id) {
            return Err(MarketErrorCode::InvalidCompressedListingAssetId);
        }
        match asset_id {
            Some(id) => {
                if !(args.asset_id == id) {
                    return Err(MarketErrorCode::InvalidAssetId);
                }
            },
            None => {
                return Err(MarketErrorCode::InvalidAssetId);
            },
        }
        let fee_rate = self.market_config.fee;
        let (lamports, fee) = match self.compressed_listing.calculate_fee(fee_rate) {
            Ok(split) => split,
            Err(e) => {
                return Err(e);
            },
        };
        let pay_seller = self.transfer_sol(self.compressed_listing.seller, lamports);
        let pay_fee = if fee > 0 {
            Some(self.transfer_sol(self.market_fee_vault, fee))
        } else {
            None
        };
        let transfer_cnft = self.transfer_cnft_to_buyer(args.cnft_args, args.asset_id);
        Ok(BuyCnftActions { pay_seller, pay_fee, transfer_cnft })
    }

    /// Buys a listed compressed NFT: derives its asset id from the listing's merkle
    /// tree and the nonce, then proceeds as `purchase_result` says.
    pub fn handler(&self, args: BuyCnftArgs) -> (r: Result<BuyCnftActions, MarketErrorCode>)
        ensures
            r == self.purchase_result(
                args,
                asset_id_of(self.compressed_listing.merkle_tree@, args.cnft_args.nonce),
            ),
    {
        let asset_id = get_asset_id(&self.compressed_listing.merkle_tree, args.cnft_args.nonce);
        self.buy_with_asset_id(args, asset_id)
    }

    /// A payment by the buyer.
    fn transfer_sol(&self, destination: Pubkey, amount: u64) -> (r: SolTransfer)
        ensures
            r == self.payment(destination, amount),
    {
        SolTransfer { from: self.buyer, to: destination, amount, signer: None }
    }

    /// The transfer of the NFT to the buyer.
    fn transfer_cnft_to_buyer(&self, args: CnftArgs, asset_id: Pubkey) -> (r: CnftTransfer)
        ensures
            r == self.delivery(args, asset_id),
    {
        CnftTransfer {
            tree_config: self.tree_config,
            leaf_owner: self.compressed_listing_key,
            leaf_owner_is_signer: true,
            leaf_delegate: self.compressed_listing_key,
            leaf_delegate_is_signer: true,
            new_leaf_owner: self.buyer,
            merkle_tree: self.compressed_listing.merkle_tree,
            root: args.root,
            data_hash: args.data_hash,
            creator_hash: args.creator_hash,
            nonce: args.nonce,
            index: args.index,
            signer: Some(
                PdaSigner::CompressedListing {
                    seller: self.compressed_listing.seller,
                    merkle_tree: self.compressed_listing.merkle_tree,
                    asset_id,
                    bump: self.compressed_listing.bump,
                },
            ),
        }
    }
}

} // verus!
