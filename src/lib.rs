//! Settlement engine of an item marketplace: the fee split, the marketplace
//! ledger, the listing lifecycle, all-or-nothing settlement of a purchase and
//! the program-derived addresses of the records.
pub mod address;
pub mod catalog;
pub mod error;
pub mod fee;
pub mod listing;
pub mod marketplace;
pub mod settlement;

pub use address::{game_address, listing_address, marketplace_address, Address};
pub use catalog::{register_game, Game};
pub use error::ErrorCode;
pub use fee::{split_price, FeeSplit, FEE_DENOMINATOR, MAX_FEE_BASIS_POINTS};
pub use listing::{create_listing, Listing};
pub use marketplace::{initialize_marketplace, Marketplace};
pub use settlement::{buy_nft, BuyAccounts, TokenHolding, Wallet};
