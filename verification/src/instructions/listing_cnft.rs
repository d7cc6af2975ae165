use vstd::prelude::*;

use crate::actions::CnftTransfer;
use crate::asset::{asset_id_of, derived, get_asset_id};
use crate::error::MarketErrorCode;
use crate::pubkey::Pubkey;
use crate::state::{CnftArgs, CompressedListing, ListingCnftArgs};

verus! {

/// The bump seed of the listing account that `ListingCnft` creates.
#[derive(Debug, Clone, Copy)]
pub struct ListingCnftBumps {
    pub compressed_listing: u8,
}

/// The accounts of the instruction that lists a compressed NFT for sale.
#[derive(Debug, Clone, Copy)]
pub struct ListingCnft {
    /// The seller, who signs and owns the NFT.
    pub seller: Pubkey,
    /// The address of the listing account being created.
    pub compressed_listing_key: Pubkey,
    /// The listing account being created.
    pub compressed_listing: CompressedListing,
    /// The Bubblegum tree configuration of the merkle tree.
    pub tree_config: Pubkey,
    /// The merkle tree that holds the NFT.
    pub merkle_tree: Pubkey,
}

impl ListingCnft {
    /// The listing that a successful listing writes.
    pub open spec fn listed(self, args: ListingCnftArgs, bump: u8) -> CompressedListing {
        CompressedListing {
            seller: self.seller,
            merkle_tree: self.merkle_tree,
            price: args.price,
            asset_id: args.asset_id,
            bump,
        }
    }

    /// The transfer that moves the NFT from the seller into the listing account.
    pub open spec fn vault_transfer(self, cnft: CnftArgs) -> CnftTransfer {
        CnftTransfer {
            tree_config: self.tree_config,
            leaf_owner: self.seller,
            leaf_owner_is_signer: false,
            leaf_delegate: self.seller,
            leaf_delegate_is_signer: true,
            new_leaf_owner: self.compressed_listing_key,
            merkle_tree: self.merkle_tree,
            root: cnft.root,
            data_hash: cnft.data_hash,
            creator_hash: cnft.creator_hash,
            nonce: cnft.nonce,
            index: cnft.index,
            signer: None,
        }
    }

    /// What listing with `args` answers, and the accounts afterwards, where the NFT's
    /// derived asset id is `asset_id`: the asset id of the arguments must be it, and
    /// must exist (`InvalidAssetId`); the price must be positive (`InvalidPrice`);
    /// then the listing is written and the NFT goes to the listing account.
    pub open spec fn listing_result(
        self,
        args: ListingCnftArgs,
        asset_id: Option<Seq<u8>>,
        bump: u8,
    ) -> (
        Result<CnftTransfer, MarketErrorCode>,
        ListingCnft,
    ) {
        if asset_id != Some(args.asset_id@) {
            (Err(MarketErrorCode::InvalidAssetId), self)
        } else if args.price == 0 {
            (Err(MarketErrorCode::InvalidPrice), self)
        } else {
            (
                Ok(self.vault_transfer(args.cnft_args)),
                ListingCnft { compressed_listing: self.listed(args, bump), ..self },
            )
        }
    }

    /// Lists the NFT whose derived asset id is `asset_id` (`None` where none could be
    /// derived), as `listing_result` says.
    pub fn list_with_asset_id(
        &mut self,
        args: ListingCnftArgs,
        asset_id: Option<Pubkey>,
        bumps: &ListingCnftBumps,
    ) -> (r: Result<CnftTransfer, MarketErrorCode>)
        ensures
            (r, *final(self)) == old(self).listing_result(
                args,
                derived(asset_id),
                bumps.compressed_listing,
            ),
    {
        match asset_id {
            Some(id) => {
                if !(args.asset_id == id) {
                    return Err(MarketErrorCode::InvalidAssetId);
                }
            },
            None => {
                return Err(MarketErrorCode::InvalidAssetId);
            },
        }
        if !(args.price > 0) {
            return Err(MarketErrorCode::InvalidPrice);
        }
        self.compressed_listing = CompressedListing {
            seller: self.seller,
            merkle_tree: self.merkle_tree,
            price: args.price,
            asset_id: args.asset_id,
            bump: bumps.compressed_listing,
        };
        Ok(self.transfer_to_vault(args.cnft_args))
    }

    /// Lists a compressed NFT: derives its asset id from the merkle tree and the
    /// nonce, then proceeds as `listing_result` says.
    pub fn handler(&mut self, args: ListingCnftArgs, bumps: &ListingCnftBumps) -> (r: Result<
        CnftTransfer,
        MarketErrorCode,
    >)
        ensures
            (r, *final(self)) == old(self).listing_result(
                args,
                asset_id_of(old(self).merkle_tree@, args.cnft_args.nonce),
                bumps.compressed_listing,
            ),
    {
        let asset_id = get_asset_id(&self.merkle_tree, args.cnft_args.nonce);
        self.list_with_asset_id(args, asset_id, bumps)
    }

    /// The transfer of the NFT from the seller into the listing account.
    fn transfer_to_vault(&self, args: CnftArgs) -> (r: CnftTransfer)
        ensures
            r == self.vault_transfer(args),
    {
        CnftTransfer {
            tree_config: self.tree_config,
            leaf_owner: self.seller,
            leaf_owner_is_signer: false,
            leaf_delegate: self.seller,
            leaf_delegate_is_signer: true,
            new_leaf_owner: self.compressed_listing_key,
            merkle_tree: self.merkle_tree,
            root: args.root,
            data_hash: args.data_hash,
            creator_hash: args.creator_hash,
            nonce: args.nonce,
            index: args.index,
            signer: None,
        }
    }
}

} // verus!
