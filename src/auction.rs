//! The stored auction record, its status, the errors of the instructions,
//! and the space a record takes on the ledger.

use vstd::prelude::*;
use crate::identity::{Identity, IDENTITY_LEN};

verus! {

/// Bytes of the account-type tag that prefixes a stored record.
pub const DISCRIMINATOR_LENGTH: usize = 8;

/// Bytes of one stored identity.
pub const PUBLIC_KEY_LENGTH: usize = IDENTITY_LEN;

/// Bytes of one stored bid amount.
pub const BID_AMOUNT_LENGTH: usize = 8;

/// Bytes reserved for the stored status tag.
pub const STATUS_LENGTH: usize = 8;

/// Space allocated for one auction record: the tag, three identities
/// (creator, token, highest bidder), two amounts and the status.
pub const AUCTION_LEN: usize = DISCRIMINATOR_LENGTH + 3 * PUBLIC_KEY_LENGTH + 2 * BID_AMOUNT_LENGTH
    + STATUS_LENGTH;

/// Where an auction stands in its life.
#[derive(Clone, Copy, Debug, PartialEq, Eq, Structural)]
pub enum AuctionStatus {
    Live,
    Cancelled,
    Sold,
}

/// Why an instruction was rejected.
#[derive(Clone, Copy, Debug, PartialEq, Eq, Structural)]
pub enum ErrorCode {
    /// The minimum bid given at creation is not positive.
    MinBidAmountTooSmall,
    /// The bid does not exceed the current highest bid.
    BidAmountTooSmall,
}

impl ErrorCode {
    /// The human-readable message of the error.
    pub fn message(&self) -> (r: &'static str)
        ensures
            *self == ErrorCode::MinBidAmountTooSmall ==> r@
                == "Minimum bid amount should be greater than zero."@,
            *self == ErrorCode::BidAmountTooSmall ==> r@
                == "Bid should be greater than the current highest bid."@,
    {
        match self {
            ErrorCode::MinBidAmountTooSmall => "Minimum bid amount should be greater than zero.",
            ErrorCode::BidAmountTooSmall => "Bid should be greater than the current highest bid.",
        }
    }
}

/// One auction, as stored on the ledger.
#[derive(Clone, Copy, Debug, PartialEq, Eq)]
pub struct Auction {
    pub creator: Identity,
    pub token_address: Identity,
    pub min_bid_amount: i64,
    pub highest_bid_amount: i64,
    pub highest_bidder: Identity,
    pub status: AuctionStatus,
}

impl Auction {
    /// Space allocated for one stored record.
    pub const LEN: usize = AUCTION_LEN;
}

} // verus!
