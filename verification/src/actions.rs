use vstd::prelude::*;

use crate::pubkey::Pubkey;

verus! {

/// A program-derived account that signs a transfer, given by what its seeds hold.
#[derive(Debug, Clone, Copy)]
pub enum PdaSigner {
    /// The listing account, derived from the listing seed, the seller, the merkle
    /// tree, the asset id and the bump.
    CompressedListing { seller: Pubkey, merkle_tree: Pubkey, asset_id: Pubkey, bump: u8 },
    /// The market's fee vault, derived from the fee vault seed, the market
    /// configuration's address and the bump.
    FeeVault { market_config: Pubkey, bump: u8 },
}

/// A transfer of `amount` lamports from `from` to `to` through the system program.
#[derive(Debug, Clone, Copy)]
pub struct SolTransfer {
    pub from: Pubkey,
    pub to: Pubkey,
    pub amount: u64,
    pub signer: Option<PdaSigner>,
}

/// A transfer of a compressed NFT through the Bubblegum program.
#[derive(Debug, Clone)]
pub struct CnftTransfer {
    pub tree_config: Pubkey,
    pub leaf_owner: Pubkey,
    pub leaf_owner_is_signer: bool,
    pub leaf_delegate: Pubkey,
    pub leaf_delegate_is_signer: bool,
    pub new_leaf_owner: Pubkey,
    pub merkle_tree: Pubkey,
    pub root: [u8; 32],
    pub data_hash: [u8; 32],
    pub creator_hash: [u8; 32],
    pub nonce: u64,
    pub index: u32,
    pub signer: Option<PdaSigner>,
}

} // verus!
