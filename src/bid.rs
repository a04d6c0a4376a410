//! Bid records, the whitelist, and cancellation.

use vstd::prelude::*;

use crate::address::{bid_address, bid_seeds, program_address_of, Address};
use crate::auction::Auction;
use crate::error::LaunchpadError;

verus! {

#[derive(Clone, Copy, Debug, PartialEq, Eq, Structural)]
pub enum BidType {
    /// Immediate-or-cancel: fill what is available.
    Ioc,
    /// Fill-or-kill: fill the whole amount or nothing.
    Fok,
}

impl Default for BidType {
    fn default() -> (r: Self)
        ensures
            r == BidType::Ioc,
    {
        BidType::Ioc
    }
}

/// Why a bid is charged the invalid-bid fee instead of being filled.
#[derive(Clone, Copy, Debug, PartialEq, Eq, Structural)]
pub enum BadBidType {
    NoIssue,
    TooEarly,
    FillLimit,
}

impl Default for BadBidType {
    fn default() -> (r: Self)
        ensures
            r == BadBidType::NoIssue,
    {
        BadBidType::NoIssue
    }
}

/// A buyer's standing in one auction. A `bump` of zero marks a record that
/// was never initialised.
#[derive(Clone, Copy, Debug, Default)]
pub struct Bid {
    pub owner: Address,
    pub auction: Address,
    pub whitelisted: bool,
    pub seller_initialized: bool,
    pub bid_time: i64,
    pub bid_price: u64,
    pub bid_amount: u64,
    pub bid_type: BidType,
    pub filled: u64,
    pub fill_time: i64,
    pub fill_price: u64,
    pub fill_amount: u64,
    pub bump: u8,
}

impl Bid {
    /// The record after it is put on the whitelist of `auction` for `owner`.
    /// A new record (`bump == 0`) is created by the seller on the buyer's
    /// behalf.
    pub open spec fn spec_whitelisted(self, owner: Address, auction: Address, bump: u8) -> Bid {
        if self.bump == 0 {
            Bid { owner, auction, whitelisted: true, seller_initialized: true, bump, ..self }
        } else {
            Bid { whitelisted: true, ..self }
        }
    }
}

impl Bid {
    /// The record after a fill of `fill_amount` at `fill_price` for a bid
    /// `(price, amount, bid_type)` at `curtime`. A new record (`bump == 0`)
    /// becomes the buyer's; an existing one must already be.
    pub open spec fn spec_record_fill(
        self,
        buyer: Address,
        auction: Address,
        bump: u8,
        price: u64,
        amount: u64,
        bid_type: BidType,
        curtime: i64,
        fill_amount: u64,
        fill_price: u64,
    ) -> Result<Bid, LaunchpadError> {
        if self.bump != 0 && (self.owner@ != buyer@ || self.auction@ != auction@) {
            Err(LaunchpadError::InvalidBidAddress)
        } else if self.filled + fill_amount > u64::MAX {
            Err(LaunchpadError::MathOverflow)
        } else {
            let base = if self.bump == 0 {
                Bid { owner: buyer, auction, whitelisted: false, seller_initialized: false, bump, ..self }
            } else {
                self
            };
            Ok(
                Bid {
                    bid_time: curtime,
                    bid_price: price,
                    bid_amount: amount,
                    bid_type,
                    filled: (self.filled + fill_amount) as u64,
                    fill_time: curtime,
                    fill_price,
                    fill_amount,
                    ..base
                },
            )
        }
    }

    pub fn record_fill(
        &mut self,
        buyer: Address,
        auction: Address,
        bump: u8,
        price: u64,
        amount: u64,
        bid_type: BidType,
        curtime: i64,
        fill_amount: u64,
        fill_price: u64,
    ) -> (r: Result<(), LaunchpadError>)
        ensures
            match old(self).spec_record_fill(buyer, auction, bump, price, amount, bid_type, curtime, fill_amount, fill_price) {
                Ok(b) => r is Ok && *final(self) == b,
                Err(e) => r == Err::<(), LaunchpadError>(e) && *final(self) == *old(self),
            },
    {
        if self.bump != 0 && (self.owner != buyer || self.auction != auction) {
            return Err(LaunchpadError::InvalidBidAddress);
        }
        let filled = match self.filled.checked_add(fill_amount) {
            Some(v) => v,
            None => return Err(LaunchpadError::MathOverflow),
        };
        if self.bump == 0 {
            self.owner = buyer;
            self.auction = auction;
            self.whitelisted = false;
            self.seller_initialized = false;
            self.bump = bump;
        }
        self.bid_time = curtime;
        self.bid_price = price;
        self.bid_amount = amount;
        self.bid_type = bid_type;
        self.filled = filled;
        self.fill_time = curtime;
        self.fill_price = fill_price;
        self.fill_amount = fill_amount;
        Ok(())
    }
}

/// Puts each record on the whitelist; `owners[i]` and `bumps[i]` are used
/// for a record that is new. There must be one owner per record, and at
/// least one record.
pub fn whitelist_add(
    bids: &mut Vec<Bid>,
    owners: &Vec<Address>,
    bumps: &Vec<u8>,
    auction: Address,
) -> (r: Result<(), LaunchpadError>)
    ensures
        r is Err <==> (old(bids).len() == 0 || old(bids).len() != owners.len() || old(bids).len() != bumps.len()),
        r is Err ==> r == Err::<(), LaunchpadError>(LaunchpadError::NotEnoughAccountKeys) && final(bids)@ == old(bids)@,
        r is Ok ==> final(bids).len() == old(bids).len() && forall|i: int| 0 <= i < old(bids).len() ==>
            #[trigger] final(bids)@[i] == old(bids)@[i].spec_whitelisted(owners@[i], auction, bumps@[i]),
{
    if bids.len() == 0 || bids.len() != owners.len() || bids.len() != bumps.len() {
        return Err(LaunchpadError::NotEnoughAccountKeys);
    }
    let mut i: usize = 0;
    while i < bids.len()
        invariant
            bids.len() == old(bids).len(),
            owners.len() == old(bids).len(),
            bumps.len() == old(bids).len(),
            0 <= i <= bids.len(),
            forall|j: int| 0 <= j < i ==> #[trigger] bids@[j] == old(bids)@[j].spec_whitelisted(owners@[j], auction, bumps@[j]),
            forall|j: int| i <= j < bids.len() ==> #[trigger] bids@[j] == old(bids)@[j],
        decreases bids.len() - i,
    {
        let mut bid = bids[i];
        if bid.bump == 0 {
            bid.owner = owners[i];
            bid.auction = auction;
            bid.seller_initialized = true;
            bid.bump = bumps[i];
        }
        bid.whitelisted = true;
        bids.set(i, bid);
        i = i + 1;
    }
    Ok(())
}

/// Whether `key` is where the bid record of `bid.owner` in `auction` lives.
pub open spec fn spec_is_bid_address(bid: Bid, key: Address, auction: Address, program: Address) -> bool {
    program_address_of(bid_seeds(bid.owner@, auction@, bid.bump), program@) == Some(key@)
}

/// Takes each record off the whitelist of the auction at `auction`. Every
/// record must live at the address derived for its owner (`keys[i]`). Where
/// the auction has ended a record the seller created is to be closed
/// instead: the result tells, per record, whether to close it; the others
/// stay, no longer whitelisted.
pub fn whitelist_remove(
    bids: &mut Vec<Bid>,
    keys: &Vec<Address>,
    auction: Address,
    program: Address,
    auction_ended: bool,
) -> (r: Result<Vec<bool>, LaunchpadError>)
    ensures
        (old(bids).len() == 0 || old(bids).len() != keys.len()) ==> r == Err::<Vec<bool>, LaunchpadError>(
            LaunchpadError::NotEnoughAccountKeys),
        (old(bids).len() > 0 && old(bids).len() == keys.len()) ==> (r is Err <==> exists|i: int|
            0 <= i < old(bids).len() && !spec_is_bid_address(#[trigger] old(bids)@[i], keys@[i], auction, program)),
        r is Err ==> final(bids)@ == old(bids)@,
        r is Err && old(bids).len() > 0 && old(bids).len() == keys.len() ==> r == Err::<Vec<bool>, LaunchpadError>(
            LaunchpadError::InvalidBidAddress),
        match r {
            Ok(close) => {
                &&& close.len() == old(bids).len()
                &&& final(bids).len() == old(bids).len()
                &&& forall|i: int| 0 <= i < old(bids).len() ==> #[trigger] close@[i] == (auction_ended
                    && old(bids)@[i].seller_initialized)
                &&& forall|i: int| 0 <= i < old(bids).len() ==> #[trigger] final(bids)@[i] == (if close@[i] {
                    old(bids)@[i]
                } else {
                    Bid { whitelisted: false, ..old(bids)@[i] }
                })
            },
            Err(_) => true,
        },
{
    if bids.len() == 0 || bids.len() != keys.len() {
        return Err(LaunchpadError::NotEnoughAccountKeys);
    }
    let mut i: usize = 0;
    while i < bids.len()
        invariant
            bids@ == old(bids)@,
            keys.len() == bids.len(),
            0 <= i <= bids.len(),
            forall|j: int| 0 <= j < i ==> spec_is_bid_address(#[trigger] bids@[j], keys@[j], auction, program),
        decreases bids.len() - i,
    {
        let bid = bids[i];
        match bid_address(&bid.owner, &auction, bid.bump, &program) {
            Some(expected) => {
                if expected != keys[i] {
                    return Err(LaunchpadError::InvalidBidAddress);
                }
            },
            None => {
                return Err(LaunchpadError::InvalidBidAddress);
            },
        }
        i = i + 1;
    }
    let mut close: Vec<bool> = Vec::new();
    let mut k: usize = 0;
    while k < bids.len()
        invariant
            bids.len() == old(bids).len(),
            0 <= k <= bids.len(),
            close.len() == k,
            forall|j: int| 0 <= j < k ==> #[trigger] close@[j] == (auction_ended && old(bids)@[j].seller_initialized),
            forall|j: int| 0 <= j < k ==> #[trigger] bids@[j] == (if close@[j] {
                old(bids)@[j]
            } else {
                Bid { whitelisted: false, ..old(bids)@[j] }
            }),
            forall|j: int| k <= j < bids.len() ==> #[trigger] bids@[j] == old(bids)@[j],
        decreases bids.len() - k,
    {
        let mut bid = bids[k];
        let closing = auction_ended && bid.seller_initialized;
        if !closing {
            bid.whitelisted = false;
            bids.set(k, bid);
        }
        close.push(closing);
        k = k + 1;
    }
    Ok(close)
}

/// A bid may be cancelled once the auction is over for every cohort, by its
/// owner where the buyer created it, or by the seller where the seller did.
pub fn cancel_bid(auction: &Auction, bid: &Bid, initializer: &Address, curtime: i64) -> (r: Result<(), LaunchpadError>)
    ensures
        r == (if !auction.spec_is_ended(curtime, true) {
            Err(LaunchpadError::AuctionInProgress)
        } else if (!bid.seller_initialized && initializer@ == bid.owner@) || (bid.seller_initialized
            && initializer@ == auction.owner@) {
            Ok(())
        } else {
            Err(LaunchpadError::IllegalOwner)
        }),
{
    if !auction.is_ended(curtime, true) {
        return Err(LaunchpadError::AuctionInProgress);
    }
    if (!bid.seller_initialized && *initializer == bid.owner) || (bid.seller_initialized
        && *initializer == auction.owner) {
        Ok(())
    } else {
        Err(LaunchpadError::IllegalOwner)
    }
}

} // verus!
