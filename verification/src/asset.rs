use vstd::prelude::*;

use crate::pubkey::Pubkey;

verus! {

/// The program address that Solana derives from three seeds under `program_id`,
/// with the bump seed that gave it, or `None` where no bump seed gives an address
/// off the curve.
pub uninterp spec fn program_address(seeds: Seq<Seq<u8>>, program_id: Seq<u8>) -> Option<(Seq<u8>, u8)>;

/// The bytes of the Bubblegum program's address,
/// `BGUMAp9Gq7iTEuizy4pqaxsTyUCBK68MDfK752saRPUY`.
pub open spec fn bubblegum_id() -> Seq<u8> {
    seq![
        152u8, 139, 128, 235, 121, 53, 40, 105, 178, 36, 116, 95, 89, 221, 191, 138,
        38, 88, 202, 19, 220, 104, 129, 33, 38, 53, 28, 174, 7, 193, 165, 165,
    ]
}

/// The first seed of an asset id: the bytes of `"asset"`.
pub open spec fn asset_seed() -> Seq<u8> {
    seq![0x61u8, 0x73, 0x73, 0x65, 0x74]
}

/// The asset id of the compressed NFT with `nonce` in the merkle tree `tree`: the
/// Bubblegum program address of the seeds `"asset"`, the tree and the nonce's
/// little-endian bytes, or `None` where that address does not exist.
pub open spec fn asset_id_of(tree: Seq<u8>, nonce: u64) -> Option<Seq<u8>> {
    match program_address(
        seq![asset_seed(), tree, vstd::bytes::spec_u64_to_le_bytes(nonce)],
        bubblegum_id(),
    ) {
        Some((address, _bump)) => Some(address),
        None => None,
    }
}

/// The bytes of a derived address, where there is one.
pub open spec fn derived(key: Option<Pubkey>) -> Option<Seq<u8>> {
    match key {
        Some(k) => Some(k@),
        None => None,
    }
}

/// Calls `Pubkey::try_find_program_address` (solana-program, re-exported by
/// anchor-lang) on three seeds. The contract claims that the outcome depends on
/// the seeds and the program id alone (named `program_address`): the address and
/// bump where one is found, `None` where none is.
#[verifier::external_body]
fn try_find_program_address(
    seed_a: &[u8],
    seed_b: &[u8],
    seed_c: &[u8],
    program_id: &Pubkey,
) -> (r: Option<(Pubkey, u8)>)
    ensures
        match r {
            Some((k, bump)) => program_address(seq![seed_a@, seed_b@, seed_c@], program_id@)
                == Some((k@, bump)),
            None => program_address(seq![seed_a@, seed_b@, seed_c@], program_id@) is None,
        },
{
    let program_id = anchor_lang::prelude::Pubkey::new_from_array(program_id.bytes);
    match anchor_lang::prelude::Pubkey::try_find_program_address(&[seed_a, seed_b, seed_c], &program_id) {
        Some((k, bump)) => Some((Pubkey { bytes: k.to_bytes() }, bump)),
        None => None,
    }
}

/// Reads `mpl_bubblegum::ID`, the Bubblegum program's address. The contract states
/// its 32 bytes, the base-58 decoding of its published address.
#[verifier::external_body]
fn bubblegum_program_id() -> (r: Pubkey)
    ensures
        r@ == bubblegum_id(),
{
    Pubkey { bytes: mpl_bubblegum::ID.to_bytes() }
}

/// Computes the asset id of the compressed NFT with `nonce` in the merkle tree
/// `tree`, as Bubblegum derives it; `None` where no bump seed gives one.
pub fn get_asset_id(tree: &Pubkey, nonce: u64) -> (r: Option<Pubkey>)
    ensures
        derived(r) == asset_id_of(tree@, nonce),
{
    let seed = vec![0x61u8, 0x73, 0x73, 0x65, 0x74];
    let nonce_bytes = vstd::bytes::u64_to_le_bytes(nonce);
    let program_id = bubblegum_program_id();
    let tree_bytes = vstd::array::array_as_slice(&tree.bytes);
    assert(seed@ == asset_seed());
    match try_find_program_address(seed.as_slice(), tree_bytes, nonce_bytes.as_slice(), &program_id) {
        Some((address, _bump)) => Some(address),
        None => None,
    }
}

} // verus!
