use vstd::prelude::*;

use crate::actions::PdaSigner;
use crate::asset::asset_id_of;
use crate::error::MarketErrorCode;
use crate::instructions::buy_cnft::BuyCnft;
use crate::instructions::collect_fee::CollectFee;
use crate::instructions::initialize::{Initialize, InitializeBumps};
use crate::instructions::listing_cnft::ListingCnft;
use crate::state::{fee_rate_accepted, fee_split, market_fee, BuyCnftArgs, ListingCnftArgs};

verus! {

/// A split of a price never creates or loses lamports: the seller's part and the fee
/// add up to the price, and the fee is the price times the rate in basis points,
/// rounded down.
pub proof fn lemma_fee_split_conserves_price(price: u64, fee_rate: u16)
    ensures
        fee_split(price, fee_rate) matches Ok((lamports, fee)) ==> {
            &&& lamports + fee == price
            &&& fee == market_fee(price, fee_rate)
        },
{
}

/// Under a fee rate that the market accepts the fee never exceeds the price, so a
/// price fails to split only where the product of price and rate overflows 64 bits.
pub proof fn lemma_accepted_rate_splits_unless_overflow(price: u64, fee_rate: u16)
    requires
        fee_rate_accepted(fee_rate),
    ensures
        0 <= market_fee(price, fee_rate) <= price,
        fee_split(price, fee_rate) is Ok <==> price as int * fee_rate as int <= u64::MAX as int,
        fee_split(price, fee_rate) matches Err(e) ==> e == MarketErrorCode::MathError,
{
    assert(0 <= (price as int * fee_rate as int) / 10_000 <= price) by (nonlinear_arith)
        requires
            fee_rate <= 10_000,
    ;
}

/// The fee never falls as the rate rises, and the seller's part never grows.
pub proof fn lemma_fee_grows_with_rate(price: u64, lower: u16, higher: u16)
    requires
        lower <= higher,
    ensures
        market_fee(price, lower) <= market_fee(price, higher),
        fee_split(price, lower) matches Ok((seller_low, fee_low)) ==> (fee_split(price, higher) matches Ok(
            (seller_high, fee_high),
        ) ==> fee_low <= fee_high && seller_high <= seller_low),
{
    assert(price as int * lower as int <= price as int * higher as int) by (nonlinear_arith)
        requires
            lower <= higher,
    ;
    let a = price as int * lower as int;
    let b = price as int * higher as int;
    assert(a / 10_000 <= b / 10_000) by (nonlinear_arith)
        requires
            0 <= a <= b,
    ;
}

/// The fee is the price times the rate in basis points rounded down: it is the
/// greatest amount whose 10 000-fold does not exceed price times rate.
pub proof fn lemma_fee_rounds_down(price: u64, fee_rate: u16)
    ensures
        fee_split(price, fee_rate) matches Ok((_lamports, fee)) ==> {
            &&& fee as int * 10_000 <= price as int * fee_rate as int
            &&& (price as int * fee_rate as int) < (fee as int + 1) * 10_000
        },
{
    let p = price as int * fee_rate as int;
    assert(p >= 0) by (nonlinear_arith)
        requires
            p == price as int * fee_rate as int,
    ;
    assert((p / 10_000) * 10_000 <= p && p < (p / 10_000 + 1) * 10_000) by (nonlinear_arith)
        requires
            p >= 0,
    ;
}

/// With no fee the seller receives the whole price.
pub proof fn lemma_zero_fee_rate_pays_seller_everything(price: u64)
    ensures
        fee_split(price, 0) == Ok::<(u64, u64), MarketErrorCode>((price, 0)),
{
}

/// A purchase that goes through charges the buyer exactly the listing's price: the
/// seller recorded in the listing gets the price less the fee, the fee vault gets the
/// fee (no payment is made where it is zero), and the NFT leaves the listing account
/// for the buyer.
pub proof fn lemma_purchase_charges_listing_price(
    b: BuyCnft,
    args: BuyCnftArgs,
    asset_id: Option<Seq<u8>>,
)
    ensures
        b.purchase_result(args, asset_id) matches Ok(acts) ==> {
            let fee = market_fee(b.compressed_listing.price, b.market_config.fee);
            &&& acts.pay_seller.from == b.buyer
            &&& acts.pay_seller.to == b.compressed_listing.seller
            &&& acts.pay_seller.amount == b.compressed_listing.price - fee
            &&& (fee > 0 ==> (acts.pay_fee matches Some(t) && t.from == b.buyer && t.to
                == b.market_fee_vault && t.amount == fee))
            &&& (fee == 0 ==> acts.pay_fee is None)
            &&& acts.transfer_cnft.leaf_owner == b.compressed_listing_key
            &&& acts.transfer_cnft.new_leaf_owner == b.buyer
        },
{
}

/// A market initialized with a fee rate holds an accepted rate, so its sales never
/// fail on the fee except where price times rate overflows 64 bits.
pub proof fn lemma_initialized_fee_is_accepted(
    init: Initialize,
    fee: u16,
    bumps: InitializeBumps,
    price: u64,
)
    requires
        fee_rate_accepted(fee),
    ensures
        fee_rate_accepted(init.configured(fee, bumps).fee),
        init.configured(fee, bumps).authority == init.authority,
        fee_split(price, init.configured(fee, bumps).fee) is Ok <==> price as int * fee as int
            <= u64::MAX as int,
{
    lemma_accepted_rate_splits_unless_overflow(price, fee);
}

/// A refused listing writes nothing, and a listing that goes through writes a
/// positive price.
pub proof fn lemma_listing_writes_only_positive_prices(
    l: ListingCnft,
    args: ListingCnftArgs,
    asset_id: Option<Seq<u8>>,
    bump: u8,
)
    ensures
        l.listing_result(args, asset_id, bump).0 is Err ==> l.listing_result(args, asset_id, bump).1
            == l,
        l.listing_result(args, asset_id, bump).0 is Ok ==> l.listing_result(
            args,
            asset_id,
            bump,
        ).1.compressed_listing.price > 0,
{
}

/// What is listed can be bought for its price. After a listing goes through, a
/// purchase of the same asset (same asset id, same nonce) from that listing, in a
/// market whose fee rate is accepted, goes through unless price times rate overflows
/// 64 bits; it pays the lister, and the NFT, which the listing moved from the seller
/// into the listing account, moves from that account to the buyer in the same tree.
pub proof fn lemma_listed_nft_can_be_bought(
    l: ListingCnft,
    largs: ListingCnftArgs,
    bump: u8,
    b: BuyCnft,
    bargs: BuyCnftArgs,
)
    requires
        l.listing_result(largs, asset_id_of(l.merkle_tree@, largs.cnft_args.nonce), bump).0 is Ok,
        b.compressed_listing == l.listing_result(
            largs,
            asset_id_of(l.merkle_tree@, largs.cnft_args.nonce),
            bump,
        ).1.compressed_listing,
        b.compressed_listing_key == l.compressed_listing_key,
        fee_rate_accepted(b.market_config.fee),
        bargs.asset_id == largs.asset_id,
        bargs.cnft_args.nonce == largs.cnft_args.nonce,
    ensures
        ({
            let listed = l.listing_result(
                largs,
                asset_id_of(l.merkle_tree@, largs.cnft_args.nonce),
                bump,
            );
            let bought = b.purchase_result(
                bargs,
                asset_id_of(b.compressed_listing.merkle_tree@, bargs.cnft_args.nonce),
            );
            &&& bought is Ok <==> largs.price as int * b.market_config.fee as int <= u64::MAX as int
            &&& listed.0 matches Ok(escrow) ==> escrow.leaf_owner == l.seller
                && escrow.new_leaf_owner == l.compressed_listing_key
            &&& bought matches Ok(acts) ==> {
                &&& acts.pay_seller.to == l.seller
                &&& acts.pay_seller.amount + market_fee(largs.price, b.market_config.fee)
                    == largs.price
                &&& acts.transfer_cnft.leaf_owner == l.compressed_listing_key
                &&& acts.transfer_cnft.new_leaf_owner == b.buyer
                &&& acts.transfer_cnft.merkle_tree == l.merkle_tree
            }
        }),
{
    lemma_accepted_rate_splits_unless_overflow(largs.price, b.market_config.fee);
}

/// The market accepts exactly the fee rates from 0 to 10 000 basis points: every
/// rate in that range, and none above it.
pub proof fn lemma_accepted_fee_rates_are_zero_to_ten_thousand(fee: u16)
    ensures
        fee_rate_accepted(fee) <==> fee <= 10_000,
{
}

/// Initializing writes what it is given: the signer as authority, the fee vault's
/// address, both bumps and the fee rate itself, and it goes through for every fee
/// rate of at most 10 000 basis points.
pub proof fn lemma_initialize_records_its_inputs(init: Initialize, fee: u16, bumps: InitializeBumps)
    ensures
        fee <= 10_000 ==> fee_rate_accepted(fee),
        fee > 10_000 ==> !fee_rate_accepted(fee),
        init.configured(fee, bumps).authority == init.authority,
        init.configured(fee, bumps).fee_vault == init.market_fee_vault,
        init.configured(fee, bumps).fee == fee,
        init.configured(fee, bumps).bump == bumps.market_config,
        init.configured(fee, bumps).fee_vault_bump == bumps.market_fee_vault,
{
}

/// A price splits exactly when price times rate fits in 64 bits and the rounded-down
/// fee does not exceed the price; every failure is `MathError`.
pub proof fn lemma_fee_split_succeeds_exactly(price: u64, fee_rate: u16)
    ensures
        fee_split(price, fee_rate) is Ok <==> (price as int * fee_rate as int <= u64::MAX as int
            && (price as int * fee_rate as int) / 10_000 <= price as int),
        fee_split(price, fee_rate) matches Err(e) ==> e == MarketErrorCode::MathError,
{
}

/// A listing that goes through moves exactly the leaf named in its arguments, from
/// the seller (as delegate signer) into the listing account, in the instruction's
/// merkle tree and tree configuration; and it writes a listing of that seller, tree,
/// asset id, price and bump.
pub proof fn lemma_listing_escrows_the_given_leaf(
    l: ListingCnft,
    args: ListingCnftArgs,
    asset_id: Option<Seq<u8>>,
    bump: u8,
)
    ensures
        l.listing_result(args, asset_id, bump).0 matches Ok(t) ==> {
            &&& t.root == args.cnft_args.root
            &&& t.data_hash == args.cnft_args.data_hash
            &&& t.creator_hash == args.cnft_args.creator_hash
            &&& t.nonce == args.cnft_args.nonce
            &&& t.index == args.cnft_args.index
            &&& t.tree_config == l.tree_config
            &&& t.merkle_tree == l.merkle_tree
            &&& t.leaf_owner == l.seller
            &&& !t.leaf_owner_is_signer
            &&& t.leaf_delegate == l.seller
            &&& t.leaf_delegate_is_signer
            &&& t.new_leaf_owner == l.compressed_listing_key
            &&& t.signer is None
        },
        l.listing_result(args, asset_id, bump).0 is Ok ==> {
            let listed = l.listing_result(args, asset_id, bump).1;
            &&& listed.compressed_listing.seller == l.seller
            &&& listed.compressed_listing.merkle_tree == l.merkle_tree
            &&& listed.compressed_listing.asset_id == args.asset_id
            &&& listed.compressed_listing.price == args.price
            &&& listed.compressed_listing.bump == bump
            &&& listed.seller == l.seller
            &&& listed.merkle_tree == l.merkle_tree
            &&& listed.tree_config == l.tree_config
            &&& listed.compressed_listing_key == l.compressed_listing_key
        },
        l.listing_result(args, asset_id, bump).0 is Ok <==> (asset_id == Some(args.asset_id@)
            && args.price > 0),
        l.listing_result(args, asset_id, bump).0 matches Err(e) ==> (e
            == MarketErrorCode::InvalidAssetId <==> asset_id != Some(args.asset_id@)),
{
}

/// A purchase that goes through moves exactly the leaf named in its arguments, from
/// the listing account (signing as owner and delegate through the listing's seeds:
/// its seller, tree, the asset id and its bump) to the buyer, through the
/// instruction's tree configuration and the listing's merkle tree.
pub proof fn lemma_purchase_delivers_the_given_leaf(
    b: BuyCnft,
    args: BuyCnftArgs,
    asset_id: Option<Seq<u8>>,
)
    ensures
        b.purchase_result(args, asset_id) matches Ok(acts) ==> {
            let t = acts.transfer_cnft;
            &&& t.root == args.cnft_args.root
            &&& t.data_hash == args.cnft_args.data_hash
            &&& t.creator_hash == args.cnft_args.creator_hash
            &&& t.nonce == args.cnft_args.nonce
            &&& t.index == args.cnft_args.index
            &&& t.tree_config == b.tree_config
            &&& t.merkle_tree == b.compressed_listing.merkle_tree
            &&& t.leaf_owner == b.compressed_listing_key
            &&& t.leaf_owner_is_signer
            &&& t.leaf_delegate == b.compressed_listing_key
            &&& t.leaf_delegate_is_signer
            &&& t.new_leaf_owner == b.buyer
            &&& t.signer == Some(
                PdaSigner::CompressedListing {
                    seller: b.compressed_listing.seller,
                    merkle_tree: b.compressed_listing.merkle_tree,
                    asset_id: args.asset_id,
                    bump: b.compressed_listing.bump,
                },
            )
            &&& acts.pay_seller.signer is None
            &&& (acts.pay_fee matches Some(f) ==> f.signer is None)
        },
{
}

/// Which purchases go through, and which error the others answer: first the listing
/// must be for the arguments' asset id, then that asset id must be the derived one,
/// then the price must split under the market's fee rate.
pub proof fn lemma_purchase_refusals(b: BuyCnft, args: BuyCnftArgs, asset_id: Option<Seq<u8>>)
    ensures
        b.compressed_listing.asset_id@ != args.asset_id@ ==> b.purchase_result(args, asset_id)
            == Err::<crate::instructions::buy_cnft::BuyCnftActions, MarketErrorCode>(
            MarketErrorCode::InvalidCompressedListingAssetId,
        ),
        b.compressed_listing.asset_id@ == args.asset_id@ && asset_id != Some(args.asset_id@)
            ==> b.purchase_result(args, asset_id) == Err::<
            crate::instructions::buy_cnft::BuyCnftActions,
            MarketErrorCode,
        >(MarketErrorCode::InvalidAssetId),
        b.compressed_listing.asset_id@ == args.asset_id@ && asset_id == Some(args.asset_id@) ==> (
        b.purchase_result(args, asset_id) is Ok <==> fee_split(
            b.compressed_listing.price,
            b.market_config.fee,
        ) is Ok),
{
}

/// Collecting fees moves the fee vault's whole balance, from the vault to the
/// destination, signed by the vault through its seeds (the market configuration's
/// address and the vault's bump).
pub proof fn lemma_collect_fee_sweeps_the_vault(c: CollectFee)
    ensures
        c.sweep().from == c.market_fee_vault,
        c.sweep().to == c.destination,
        c.sweep().amount == c.market_fee_vault_lamports,
        c.sweep().signer == Some(
            PdaSigner::FeeVault {
                market_config: c.market_config_key,
                bump: c.market_config.fee_vault_bump,
            },
        ),
{
}

} // verus!
