pub mod buy_cnft;
pub mod collect_fee;
pub mod initialize;
pub mod listing_cnft;
