use agrotree_marketplace::actions::PdaSigner;
use agrotree_marketplace::asset::get_asset_id;
use agrotree_marketplace::error::MarketErrorCode;
use agrotree_marketplace::instructions::buy_cnft::BuyCnft;
use agrotree_marketplace::instructions::collect_fee::CollectFee;
use agrotree_marketplace::instructions::initialize::{Initialize, InitializeBumps};
use agrotree_marketplace::instructions::listing_cnft::{ListingCnft, ListingCnftBumps};
use agrotree_marketplace::pubkey::Pubkey;
use agrotree_marketplace::state::{
    BuyCnftArgs, CnftArgs, CompressedListing, ListingCnftArgs, MarketConfig, UnlistCnftArgs,
};

fn key(b: u8) -> Pubkey {
    Pubkey { bytes: [b; 32] }
}

fn bubblegum_asset_id(tree: &Pubkey, nonce: u64) -> Pubkey {
    let tree = anchor_lang::prelude::Pubkey::new_from_array(tree.bytes);
    Pubkey { bytes: mpl_bubblegum::utils::get_asset_id(&tree, nonce).to_bytes() }
}

fn cnft(nonce: u64) -> CnftArgs {
    CnftArgs { root: [1; 32], data_hash: [2; 32], creator_hash: [3; 32], nonce, index: 7 }
}

fn config(fee: u16) -> MarketConfig {
    MarketConfig { authority: key(1), fee_vault: key(2), fee, bump: 254, fee_vault_bump: 253 }
}

fn listing(price: u64, asset_id: Pubkey) -> CompressedListing {
    CompressedListing { seller: key(10), merkle_tree: key(11), asset_id, price, bump: 252 }
}

fn buy_accounts(fee: u16, price: u64, asset_id: Pubkey) -> BuyCnft {
    BuyCnft {
        buyer: key(20),
        market_config: config(fee),
        market_fee_vault: key(2),
        compressed_listing_key: key(12),
        compressed_listing: listing(price, asset_id),
        tree_config: key(13),
    }
}

fn listing_accounts() -> ListingCnft {
    ListingCnft {
        seller: key(10),
        compressed_listing_key: key(12),
        compressed_listing: CompressedListing {
            seller: key(0),
            merkle_tree: key(0),
            asset_id: key(0),
            price: 0,
            bump: 0,
        },
        tree_config: key(13),
        merkle_tree: key(11),
    }
}

#[test]
fn pubkey_equality_compares_all_bytes() {
    let a = key(5);
    let mut b = key(5);
    assert!(a == b);
    b.bytes[31] = 6;
    assert!(a != b);
    b.bytes[31] = 5;
    b.bytes[0] = 0;
    assert!(a != b);
}

#[test]
fn check_fee_accepts_up_to_ten_thousand() {
    let c = config(0);
    assert_eq!(c.check_fee(0), Ok(()));
    assert_eq!(c.check_fee(250), Ok(()));
    assert_eq!(c.check_fee(10_000), Ok(()));
}

#[test]
fn check_fee_refuses_above_ten_thousand() {
    let c = config(0);
    assert_eq!(c.check_fee(10_001), Err(MarketErrorCode::InvalidFee));
    assert_eq!(c.check_fee(u16::MAX), Err(MarketErrorCode::InvalidFee));
}

#[test]
fn calculate_fee_splits_price() {
    assert_eq!(listing(1_000, key(3)).calculate_fee(250), Ok((975, 25)));
    assert_eq!(listing(1_000_000_000, key(3)).calculate_fee(100), Ok((990_000_000, 10_000_000)));
}

#[test]
fn calculate_fee_rounds_fee_down() {
    assert_eq!(listing(3, key(3)).calculate_fee(3_333), Ok((3, 0)));
    assert_eq!(listing(19_999, key(3)).calculate_fee(1), Ok((19_998, 1)));
}

#[test]
fn calculate_fee_zero_and_full_rate() {
    assert_eq!(listing(12_345, key(3)).calculate_fee(0), Ok((12_345, 0)));
    assert_eq!(listing(12_345, key(3)).calculate_fee(10_000), Ok((0, 12_345)));
}

#[test]
fn calculate_fee_overflow_is_math_error() {
    assert_eq!(listing(u64::MAX, key(3)).calculate_fee(2), Err(MarketErrorCode::MathError));
    assert_eq!(listing(u64::MAX, key(3)).calculate_fee(1), Ok((u64::MAX - u64::MAX / 10_000, u64::MAX / 10_000)));
}

#[test]
fn calculate_fee_above_price_is_math_error() {
    assert_eq!(listing(1, key(3)).calculate_fee(20_000), Err(MarketErrorCode::MathError));
    assert_eq!(listing(10_000, key(3)).calculate_fee(10_001), Err(MarketErrorCode::MathError));
}

#[test]
fn initialize_writes_configuration() {
    let mut init = Initialize { authority: key(1), market_config: config(0), market_fee_vault: key(9) };
    init.market_config.authority = key(0);
    let r = init.handler(300, &InitializeBumps { market_config: 250, market_fee_vault: 251 });
    assert_eq!(r, Ok(()));
    assert!(init.market_config.authority == key(1));
    assert!(init.market_config.fee_vault == key(9));
    assert_eq!(init.market_config.fee, 300);
    assert_eq!(init.market_config.bump, 250);
    assert_eq!(init.market_config.fee_vault_bump, 251);
}

#[test]
fn initialize_refuses_invalid_fee_and_writes_nothing() {
    let mut init = Initialize { authority: key(1), market_config: config(7), market_fee_vault: key(9) };
    let r = init.handler(10_001, &InitializeBumps { market_config: 250, market_fee_vault: 251 });
    assert_eq!(r, Err(MarketErrorCode::InvalidFee));
    assert_eq!(init.market_config.fee, 7);
    assert!(init.market_config.fee_vault == key(2));
}

#[test]
fn listing_with_derived_asset_id_escrows_nft() {
    let mut acc = listing_accounts();
    let asset_id = bubblegum_asset_id(&key(11), 42);
    let args = ListingCnftArgs { asset_id, price: 5_000, cnft_args: cnft(42) };
    let t = acc.handler(args, &ListingCnftBumps { compressed_listing: 249 }).unwrap();
    assert!(acc.compressed_listing.seller == key(10));
    assert!(acc.compressed_listing.merkle_tree == key(11));
    assert!(acc.compressed_listing.asset_id == asset_id);
    assert_eq!(acc.compressed_listing.price, 5_000);
    assert_eq!(acc.compressed_listing.bump, 249);
    assert!(t.leaf_owner == key(10));
    assert!(!t.leaf_owner_is_signer);
    assert!(t.leaf_delegate == key(10));
    assert!(t.leaf_delegate_is_signer);
    assert!(t.new_leaf_owner == key(12));
    assert!(t.merkle_tree == key(11));
    assert!(t.tree_config == key(13));
    assert_eq!(t.root, [1; 32]);
    assert_eq!(t.data_hash, [2; 32]);
    assert_eq!(t.creator_hash, [3; 32]);
    assert_eq!(t.nonce, 42);
    assert_eq!(t.index, 7);
    assert!(t.signer.is_none());
}

#[test]
fn listing_refuses_asset_id_that_is_not_derived() {
    let mut acc = listing_accounts();
    // The tree's own address is not the asset id derived from it.
    let args = ListingCnftArgs { asset_id: key(11), price: 5_000, cnft_args: cnft(42) };
    let r = acc.handler(args, &ListingCnftBumps { compressed_listing: 249 });
    assert_eq!(r.err(), Some(MarketErrorCode::InvalidAssetId));
    assert_eq!(acc.compressed_listing.price, 0);
    // The asset id of another nonce is refused too.
    let args = ListingCnftArgs {
        asset_id: bubblegum_asset_id(&key(11), 41),
        price: 5_000,
        cnft_args: cnft(42),
    };
    let r = acc.handler(args, &ListingCnftBumps { compressed_listing: 249 });
    assert_eq!(r.err(), Some(MarketErrorCode::InvalidAssetId));
}

#[test]
fn listing_refuses_zero_price() {
    let mut acc = listing_accounts();
    let asset_id = bubblegum_asset_id(&key(11), 42);
    let args = ListingCnftArgs { asset_id, price: 0, cnft_args: cnft(42) };
    let r = acc.handler(args, &ListingCnftBumps { compressed_listing: 249 });
    assert_eq!(r.err(), Some(MarketErrorCode::InvalidPrice));
    assert!(acc.compressed_listing.asset_id == key(0));
}

#[test]
fn list_with_asset_id_checks_given_id() {
    let mut acc = listing_accounts();
    let args = ListingCnftArgs { asset_id: key(30), price: 1, cnft_args: cnft(1) };
    assert!(acc.list_with_asset_id(args.clone(), Some(key(30)), &ListingCnftBumps { compressed_listing: 1 }).is_ok());
    assert_eq!(acc.compressed_listing.price, 1);
    let mut acc = listing_accounts();
    let r = acc.list_with_asset_id(args.clone(), Some(key(31)), &ListingCnftBumps { compressed_listing: 1 });
    assert_eq!(r.err(), Some(MarketErrorCode::InvalidAssetId));
    let mut acc = listing_accounts();
    let r = acc.list_with_asset_id(args, None, &ListingCnftBumps { compressed_listing: 1 });
    assert_eq!(r.err(), Some(MarketErrorCode::InvalidAssetId));
    assert_eq!(acc.compressed_listing.price, 0);
}

#[test]
fn buying_pays_seller_and_fee_vault() {
    let asset_id = bubblegum_asset_id(&key(11), 42);
    let b = buy_accounts(250, 1_000, asset_id);
    let acts = b.handler(BuyCnftArgs { asset_id, cnft_args: cnft(42) }).unwrap();
    assert!(acts.pay_seller.from == key(20));
    assert!(acts.pay_seller.to == key(10));
    assert_eq!(acts.pay_seller.amount, 975);
    assert!(acts.pay_seller.signer.is_none());
    let fee = acts.pay_fee.unwrap();
    assert!(fee.from == key(20));
    assert!(fee.to == key(2));
    assert_eq!(fee.amount, 25);
    let t = acts.transfer_cnft;
    assert!(t.leaf_owner == key(12) && t.leaf_owner_is_signer);
    assert!(t.leaf_delegate == key(12) && t.leaf_delegate_is_signer);
    assert!(t.new_leaf_owner == key(20));
    assert!(t.merkle_tree == key(11));
    assert_eq!(t.nonce, 42);
    match t.signer {
        Some(PdaSigner::CompressedListing { seller, merkle_tree, asset_id: id, bump }) => {
            assert!(seller == key(10));
            assert!(merkle_tree == key(11));
            assert!(id == asset_id);
            assert_eq!(bump, 252);
        },
        _ => panic!("the listing account must sign"),
    }
}

#[test]
fn buying_without_fee_makes_no_fee_payment() {
    let asset_id = bubblegum_asset_id(&key(11), 42);
    let b = buy_accounts(0, 1_000, asset_id);
    let acts = b.handler(BuyCnftArgs { asset_id, cnft_args: cnft(42) }).unwrap();
    assert_eq!(acts.pay_seller.amount, 1_000);
    assert!(acts.pay_fee.is_none());
    // A fee that rounds down to zero is not paid either.
    let b = buy_accounts(9, 1_000, asset_id);
    let acts = b.handler(BuyCnftArgs { asset_id, cnft_args: cnft(42) }).unwrap();
    assert_eq!(acts.pay_seller.amount, 1_000);
    assert!(acts.pay_fee.is_none());
}

#[test]
fn buying_refuses_other_listing() {
    let asset_id = bubblegum_asset_id(&key(11), 42);
    let b = buy_accounts(250, 1_000, key(40));
    let r = b.handler(BuyCnftArgs { asset_id, cnft_args: cnft(42) });
    assert_eq!(r.err(), Some(MarketErrorCode::InvalidCompressedListingAssetId));
}

#[test]
fn buying_refuses_asset_id_that_is_not_derived() {
    let b = buy_accounts(250, 1_000, key(11));
    let r = b.handler(BuyCnftArgs { asset_id: key(11), cnft_args: cnft(42) });
    assert_eq!(r.err(), Some(MarketErrorCode::InvalidAssetId));
}

#[test]
fn buying_overflowing_price_is_math_error() {
    let asset_id = bubblegum_asset_id(&key(11), 42);
    let b = buy_accounts(10_000, u64::MAX, asset_id);
    let r = b.handler(BuyCnftArgs { asset_id, cnft_args: cnft(42) });
    assert_eq!(r.err(), Some(MarketErrorCode::MathError));
}

#[test]
fn buy_with_asset_id_checks_given_id() {
    let b = buy_accounts(500, 2_000, key(30));
    let acts = b.buy_with_asset_id(BuyCnftArgs { asset_id: key(30), cnft_args: cnft(1) }, Some(key(30))).unwrap();
    assert_eq!(acts.pay_seller.amount, 1_900);
    assert_eq!(acts.pay_fee.unwrap().amount, 100);
    let r = b.buy_with_asset_id(BuyCnftArgs { asset_id: key(30), cnft_args: cnft(1) }, Some(key(31)));
    assert_eq!(r.err(), Some(MarketErrorCode::InvalidAssetId));
    let r = b.buy_with_asset_id(BuyCnftArgs { asset_id: key(30), cnft_args: cnft(1) }, None);
    assert_eq!(r.err(), Some(MarketErrorCode::InvalidAssetId));
    let r = b.buy_with_asset_id(BuyCnftArgs { asset_id: key(31), cnft_args: cnft(1) }, None);
    assert_eq!(r.err(), Some(MarketErrorCode::InvalidCompressedListingAssetId));
}

#[test]
fn collect_fee_sweeps_whole_vault() {
    let c = CollectFee {
        authority: key(1),
        market_config_key: key(5),
        market_config: config(100),
        market_fee_vault: key(2),
        market_fee_vault_lamports: 123_456,
        destination: key(6),
    };
    let t = c.handler();
    assert!(t.from == key(2));
    assert!(t.to == key(6));
    assert_eq!(t.amount, 123_456);
    match t.signer {
        Some(PdaSigner::FeeVault { market_config, bump }) => {
            assert!(market_config == key(5));
            assert_eq!(bump, 253);
        },
        _ => panic!("the fee vault must sign"),
    }
}

#[test]
fn listed_nft_can_be_bought_for_its_price() {
    let mut init = Initialize { authority: key(1), market_config: config(0), market_fee_vault: key(2) };
    init.handler(250, &InitializeBumps { market_config: 254, market_fee_vault: 253 }).unwrap();
    let mut acc = listing_accounts();
    let asset_id = bubblegum_asset_id(&key(11), 9);
    let escrow = acc
        .handler(ListingCnftArgs { asset_id, price: 40_000, cnft_args: cnft(9) }, &ListingCnftBumps { compressed_listing: 251 })
        .unwrap();
    let b = BuyCnft {
        buyer: key(20),
        market_config: init.market_config,
        market_fee_vault: key(2),
        compressed_listing_key: acc.compressed_listing_key,
        compressed_listing: acc.compressed_listing,
        tree_config: key(13),
    };
    let acts = b.handler(BuyCnftArgs { asset_id, cnft_args: cnft(9) }).unwrap();
    let fee = acts.pay_fee.unwrap();
    assert_eq!(acts.pay_seller.amount + fee.amount, 40_000);
    assert_eq!(fee.amount, 1_000);
    assert!(acts.pay_seller.to == key(10));
    assert!(escrow.new_leaf_owner == acts.transfer_cnft.leaf_owner);
    assert!(acts.transfer_cnft.new_leaf_owner == key(20));
}

#[test]
fn unlist_args_hold_asset_and_leaf() {
    let a = UnlistCnftArgs { asset_id: key(3), cnft_args: cnft(4) };
    let b = a.clone();
    assert_eq!(a, b);
    assert_eq!(b.cnft_args.nonce, 4);
}

#[test]
fn asset_id_matches_bubblegum_derivation() {
    for (tree, nonce) in [(key(11), 0u64), (key(11), 42), (key(200), u64::MAX), (key(0), 7)] {
        assert!(get_asset_id(&tree, nonce).unwrap() == bubblegum_asset_id(&tree, nonce));
    }
    assert!(get_asset_id(&key(11), 1).unwrap() != get_asset_id(&key(11), 2).unwrap());
}

#[test]
fn bubblegum_program_id_bytes() {
    assert_eq!(
        mpl_bubblegum::ID.to_bytes(),
        [
            152, 139, 128, 235, 121, 53, 40, 105, 178, 36, 116, 95, 89, 221, 191, 138, 38, 88,
            202, 19, 220, 104, 129, 33, 38, 53, 28, 174, 7, 193, 165, 165,
        ]
    );
}
