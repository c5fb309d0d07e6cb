//! An auction ledger entry: create an auction record, place a bid against it,
//! and finalize it, each instruction stated as a verified function over plain
//! values.

pub mod auction;
pub mod identity;
pub mod instructions;

pub use auction::{Auction, AuctionStatus, ErrorCode};
pub use identity::Identity;
pub use instructions::{
    create_auction, finalize_auction, place_bid, CreateAuction, FinalizeAuction, PlaceBid,
};
