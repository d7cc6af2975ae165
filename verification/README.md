# agrotree_marketplace

A marketplace for compressed tree NFTs on Solana: a seller lists an NFT for a
price (the NFT moves into a listing account), a buyer pays the price (split
between the seller and the market's fee vault by the market's fee rate, in basis
points) and receives the NFT, and the market authority sweeps the fee vault.

- `src/` is the verified library (Verus). Each instruction is a struct of the
  account values it reads, with a `handler` whose contract says exactly what it
  answers and writes; the transfers it asks for are plain values (`actions`).
  `laws.rs` proves the properties that span instructions (a sale never creates or
  loses lamports, what is listed can be bought for its price, ...).
- `app/` is the Anchor program around it: account validation, conversions, and
  the cross-program invocations that perform the transfers.
- `tests/` runs the library with the real Bubblegum asset id derivation.
