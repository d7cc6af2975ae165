//! A verified model of the Agrotree marketplace program: sellers list compressed
//! tree NFTs for a price, buyers pay the price (split between the seller and the
//! market's fee vault by the market fee rate), and the market authority sweeps the
//! fee vault.
//!
//! The on-chain effects (lamport transfers, compressed NFT transfers) are described
//! by plain values in [`actions`]; the host performs them.
pub mod error;
pub mod pubkey;
pub mod state;
pub mod asset;
pub mod actions;
pub mod instructions;
pub mod laws;
