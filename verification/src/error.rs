use vstd::prelude::*;

verus! {

/// The errors of the marketplace program.
#[derive(Debug, Clone, Copy, PartialEq, Eq, Structural)]
pub enum MarketErrorCode {
    Unauthorized,
    MathError,
    InvalidFee,
    InvalidAssetId,
    InvalidPrice,
    InvalidCompressedListingSeller,
    InvalidCompressedListingMerkleTree,
    InvalidCompressedListingAssetId,
}

} // verus!
