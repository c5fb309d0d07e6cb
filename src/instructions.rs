//! The three instructions of the program, each over the plain values of its
//! accounts and arguments.

use vstd::prelude::*;
use crate::auction::{Auction, AuctionStatus, ErrorCode};
use crate::identity::Identity;

verus! {

/// Accounts of the instruction that opens an auction: the signer who creates it.
#[derive(Clone, Copy, Debug, PartialEq, Eq)]
pub struct CreateAuction {
    pub creator: Identity,
}

/// Accounts of the instruction that bids on an auction.
#[derive(Clone, Copy, Debug, PartialEq, Eq)]
pub struct PlaceBid {
    pub auction: Auction,
    pub bidder: Identity,
}

/// Accounts of the instruction that closes an auction.
#[derive(Clone, Copy, Debug, PartialEq, Eq)]
pub struct FinalizeAuction {
    pub auction: Auction,
    pub creator: Identity,
}

/// The record that a successful creation yields: the given creator, token and
/// minimum bid, no bid yet (amount zero, empty bidder), and a live status.
pub open spec fn is_fresh_auction(a: Auction, creator: Identity, token_address: Identity, min_bid_amount: i64) -> bool {
    &&& a.creator == creator
    &&& a.token_address == token_address
    &&& a.min_bid_amount == min_bid_amount
    &&& a.highest_bid_amount == 0
    &&& a.highest_bidder.is_null()
    &&& a.status == AuctionStatus::Live
}

/// A bid is accepted exactly when it exceeds the current highest bid.
pub open spec fn bid_accepted(a: Auction, bid_amount: i64) -> bool {
    bid_amount > a.highest_bid_amount
}

/// Opens an auction of `token_address` with the given minimum bid, created by
/// the signer of `ctx`. A minimum bid that is not positive is rejected.
pub fn create_auction(ctx: &CreateAuction, token_address: Identity, min_bid_amount: i64) -> (r: Result<Auction, ErrorCode>)
    ensures
        match r {
            Ok(a) => min_bid_amount > 0 && is_fresh_auction(a, ctx.creator, token_address, min_bid_amount),
            Err(e) => min_bid_amount <= 0 && e == ErrorCode::MinBidAmountTooSmall,
        },
{
    if min_bid_amount <= 0 {
        return Err(ErrorCode::MinBidAmountTooSmall);
    }
    Ok(Auction {
        creator: ctx.creator,
        token_address,
        min_bid_amount,
        highest_bid_amount: 0,
        highest_bidder: Identity::null(),
        status: AuctionStatus::Live,
    })
}

/// Checks a bid of `bid_amount` by the signer of `ctx` against the auction's
/// highest bid. The record is left as it was, whether the bid is accepted or not.
pub fn place_bid(ctx: &mut PlaceBid, bid_amount: i64) -> (r: Result<(), ErrorCode>)
    ensures
        *final(ctx) == *old(ctx),
        match r {
            Ok(()) => bid_accepted(old(ctx).auction, bid_amount),
            Err(e) => !bid_accepted(old(ctx).auction, bid_amount) && e == ErrorCode::BidAmountTooSmall,
        },
{
    let auction = &ctx.auction;
    if bid_amount <= auction.highest_bid_amount {
        return Err(ErrorCode::BidAmountTooSmall);
    }
    Ok(())
}

/// Closes an auction. It always succeeds and leaves the record, its status
/// included, as it was.
pub fn finalize_auction(ctx: &mut FinalizeAuction) -> (r: Result<(), ErrorCode>)
    ensures
        r is Ok,
        *final(ctx) == *old(ctx),
{
    Ok(())
}

} // verus!
