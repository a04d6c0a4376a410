//! The decisions of the seller and admin instructions: what each checks and
//! what it writes. The host moves tokens and lamports as the results say.

use vstd::prelude::*;

use crate::address::Address;
use crate::auction::{utf8_len, Auction, AuctionToken, CommonParams, PaymentParams, PricingParams, AuctionStats, MAX_TOKENS};
use crate::error::LaunchpadError;
use crate::launchpad::{CollectedFees, Fee, Fees, Launchpad, Permissions};
use crate::custody::{Custody, OracleType};
use crate::place_bid::TokenAccount;
use crate::seller_balance::SellerBalance;

verus! {

#[derive(Clone, Debug)]
pub struct InitAuctionParams {
    pub enabled: bool,
    pub updatable: bool,
    pub fixed_amount: bool,
    pub common: CommonParams,
    pub payment: PaymentParams,
    pub pricing: PricingParams,
    pub token_ratios: [u64; 4],
}

#[derive(Clone, Debug)]
pub struct UpdateAuctionParams {
    pub common: CommonParams,
    pub payment: PaymentParams,
    pub pricing: PricingParams,
    pub token_ratios: [u64; 4],
}

/// The offered tokens: the first `dispensers.len()` get the given ratios
/// and dispensing accounts, the rest stay empty (a zero ratio and the zero
/// address).
pub open spec fn spec_tokens_set(tokens: Seq<AuctionToken>, ratios: [u64; 4], dispensers: Seq<Address>) -> bool {
    &&& tokens.len() == 4
    &&& forall|i: int| 0 <= i < 4 ==> (if i < dispensers.len() {
        #[trigger] tokens[i] == AuctionToken { ratio: ratios@[i], account: dispensers[i] }
    } else {
        tokens[i].ratio == 0 && tokens[i].account@ == Seq::new(32, |j: int| 0u8)
    })
}

/// No two of `accounts` are the same address.
pub open spec fn all_distinct(accounts: Seq<Address>) -> bool {
    forall|i: int, j: int| 0 <= i < j < accounts.len() ==> #[trigger] accounts[i]@ != #[trigger] accounts[j]@
}

/// Whether no two of `accounts` are the same address.
pub fn check_distinct(accounts: &Vec<Address>) -> (r: bool)
    ensures
        r == all_distinct(accounts@),
{
    let n = accounts.len();
    let mut i: usize = 0;
    while i < n
        invariant
            n == accounts.len(),
            i <= n,
            forall|a: int, b: int| 0 <= a < b < n && a < i ==> #[trigger] accounts@[a]@ != #[trigger] accounts@[b]@,
        decreases n - i,
    {
        let mut j: usize = i + 1;
        while j < n
            invariant
                n == accounts.len(),
                i < n,
                i + 1 <= j <= n,
                forall|a: int, b: int| 0 <= a < b < n && a < i ==> #[trigger] accounts@[a]@ != #[trigger] accounts@[b]@,
                forall|b: int| i < b < j ==> accounts@[i as int]@ != #[trigger] accounts@[b]@,
            decreases n - j,
        {
            if accounts[i] == accounts[j] {
                assert(accounts@[i as int]@ == accounts@[j as int]@);
                return false;
            }
            j = j + 1;
        }
        i = i + 1;
    }
    true
}

/// Creates an auction of `owner` that dispenses from `dispensers`, created
/// at `creation_time`. It charges the new-auction fee, which the result's
/// second part names for the host to transfer.
pub fn init_auction(
    launchpad: &mut Launchpad,
    owner: Address,
    params: &InitAuctionParams,
    dispensers: &Vec<Address>,
    pricing_custody: &Address,
    bump: u8,
    creation_time: i64,
) -> (r: Result<(Auction, u64), LaunchpadError>)
    ensures
        !old(launchpad).permissions.allow_new_auctions ==> r == Err::<(Auction, u64), LaunchpadError>(
            LaunchpadError::NewAuctionsNotAllowed),
        old(launchpad).permissions.allow_new_auctions && dispensers.len() == 0 ==> r == Err::<(Auction, u64), LaunchpadError>(
            LaunchpadError::NotEnoughAccountKeys),
        old(launchpad).permissions.allow_new_auctions && dispensers.len() > MAX_TOKENS ==> r == Err::<(Auction, u64), LaunchpadError>(
            LaunchpadError::TooManyAccountKeys),
        old(launchpad).permissions.allow_new_auctions && 0 < dispensers.len() <= MAX_TOKENS && pricing_custody@ != params.pricing.custody@
            ==> r == Err::<(Auction, u64), LaunchpadError>(LaunchpadError::InvalidPricingConfig),
        old(launchpad).permissions.allow_new_auctions && 0 < dispensers.len() <= MAX_TOKENS && pricing_custody@ == params.pricing.custody@
            && !all_distinct(dispensers@) ==> r == Err::<(Auction, u64), LaunchpadError>(LaunchpadError::InvalidDispenserAddress),
        r is Err ==> *final(launchpad) == *old(launchpad),
        match r {
            Ok((a, fee)) => {
                &&& old(launchpad).permissions.allow_new_auctions
                &&& 0 < dispensers.len() <= MAX_TOKENS
                &&& pricing_custody@ == params.pricing.custody@
                &&& all_distinct(dispensers@)
                &&& fee == old(launchpad).fees.new_auction
                &&& final(launchpad).collected_fees.new_auction_sol == (old(launchpad).collected_fees.new_auction_sol
                    + fee) % 0x1_0000_0000_0000_0000
                &&& *final(launchpad) == (Launchpad { collected_fees: CollectedFees {
                    new_auction_sol: final(launchpad).collected_fees.new_auction_sol, ..old(launchpad).collected_fees },
                    ..*old(launchpad) })
                &&& a.owner == owner
                &&& a.enabled == params.enabled
                &&& a.updatable == params.updatable
                &&& a.fixed_amount == params.fixed_amount
                &&& a.common == params.common
                &&& a.payment == params.payment
                &&& a.pricing == params.pricing
                &&& a.stats == AuctionStats::spec_new()
                &&& spec_tokens_set(a.tokens@, params.token_ratios, dispensers@)
                &&& a.num_tokens == dispensers.len()
                &&& a.bump == bump
                &&& a.creation_time == creation_time
                &&& a.update_time == creation_time
                &&& a.spec_validate(creation_time)
            },
            Err(e) => e == LaunchpadError::InvalidAuctionConfig ==> {
                &&& old(launchpad).permissions.allow_new_auctions
                &&& 0 < dispensers.len() <= MAX_TOKENS
                &&& pricing_custody@ == params.pricing.custody@
                &&& all_distinct(dispensers@)
                &&& !(utf8_len(params.common.name@) >= 6 && params.common.spec_validate(creation_time)
                    && params.payment.spec_validate() && params.pricing.spec_validate())
            },
        },
        r is Err && old(launchpad).permissions.allow_new_auctions && 0 < dispensers.len() <= MAX_TOKENS
            && pricing_custody@ == params.pricing.custody@ && all_distinct(dispensers@)
            ==> r == Err::<(Auction, u64), LaunchpadError>(LaunchpadError::InvalidAuctionConfig),
{
    if !launchpad.permissions.allow_new_auctions {
        return Err(LaunchpadError::NewAuctionsNotAllowed);
    }
    let fee = launchpad.fees.new_auction;
    if dispensers.len() == 0 {
        return Err(LaunchpadError::NotEnoughAccountKeys);
    }
    if dispensers.len() > MAX_TOKENS {
        return Err(LaunchpadError::TooManyAccountKeys);
    }
    if *pricing_custody != params.pricing.custody {
        return Err(LaunchpadError::InvalidPricingConfig);
    }
    if !check_distinct(dispensers) {
        return Err(LaunchpadError::InvalidDispenserAddress);
    }
    let empty = AuctionToken { ratio: 0, account: Address::zero() };
    let mut tokens = [empty, empty, empty, empty];
    let mut n: usize = 0;
    while n < dispensers.len()
        invariant
            dispensers.len() <= 4,
            n <= dispensers.len(),
            empty.ratio == 0,
            empty.account@ == Seq::new(32, |j: int| 0u8),
            forall|i: int| 0 <= i < 4 ==> #[trigger] tokens@[i] == (if i < n {
                AuctionToken { ratio: params.token_ratios@[i], account: dispensers@[i] }
            } else {
                empty
            }),
        decreases dispensers.len() - n,
    {
        tokens[n] = AuctionToken { ratio: params.token_ratios[n], account: dispensers[n] };
        n = n + 1;
    }
    assert(spec_tokens_set(tokens@, params.token_ratios, dispensers@));
    let auction = Auction {
        owner,
        enabled: params.enabled,
        updatable: params.updatable,
        fixed_amount: params.fixed_amount,
        common: params.common.duplicate(),
        payment: params.payment,
        pricing: params.pricing,
        stats: AuctionStats::new(),
        tokens,
        num_tokens: dispensers.len() as u8,
        creation_time,
        update_time: creation_time,
        bump,
    };
    if !auction.validate(creation_time) {
        return Err(LaunchpadError::InvalidAuctionConfig);
    }
    launchpad.collected_fees.new_auction_sol = launchpad.collected_fees.new_auction_sol.wrapping_add(fee);
    Ok((auction, fee))
}

/// The token ratios after an update: the first `num_tokens` take the new
/// ratios, the accounts and the other entries stay.
pub open spec fn spec_ratios_updated(before: Seq<AuctionToken>, after: Seq<AuctionToken>, ratios: [u64; 4], num_tokens: u8) -> bool {
    &&& after.len() == before.len()
    &&& forall|i: int| 0 <= i < before.len() ==> #[trigger] after[i] == (if i < num_tokens {
        AuctionToken { ratio: ratios@[i], ..before[i] }
    } else {
        before[i]
    })
}

/// Replaces the parameters of an updatable auction at `curtime`, where
/// updates are allowed; the auction must stay valid, else nothing changes.
pub fn update_auction(
    launchpad: &Launchpad,
    auction: &mut Auction,
    params: &UpdateAuctionParams,
    curtime: i64,
) -> (r: Result<(), LaunchpadError>)
    requires
        old(auction).num_tokens <= MAX_TOKENS,
    ensures
        !launchpad.permissions.allow_auction_updates ==> r == Err::<(), LaunchpadError>(
            LaunchpadError::AuctionUpdatesNotAllowed),
        launchpad.permissions.allow_auction_updates && !old(auction).updatable ==> r == Err::<(), LaunchpadError>(
            LaunchpadError::AuctionNotUpdatable),
        r is Err ==> *final(auction) == *old(auction),
        launchpad.permissions.allow_auction_updates && old(auction).updatable ==> (r is Ok <==> (utf8_len(
            params.common.name@) >= 6 && params.common.spec_validate(curtime) && params.payment.spec_validate()
            && params.pricing.spec_validate())),
        launchpad.permissions.allow_auction_updates && old(auction).updatable && r is Err ==> r == Err::<(), LaunchpadError>(
            LaunchpadError::InvalidAuctionConfig),
        r is Ok ==> {
            &&& final(auction).spec_validate(curtime)
            &&& final(auction).common == params.common
            &&& final(auction).payment == params.payment
            &&& final(auction).pricing == params.pricing
            &&& final(auction).update_time == curtime
            &&& spec_ratios_updated(old(auction).tokens@, final(auction).tokens@, params.token_ratios, old(auction).num_tokens)
            &&& final(auction).owner == old(auction).owner
            &&& final(auction).enabled == old(auction).enabled
            &&& final(auction).updatable == old(auction).updatable
            &&& final(auction).fixed_amount == old(auction).fixed_amount
            &&& final(auction).stats == old(auction).stats
            &&& final(auction).num_tokens == old(auction).num_tokens
            &&& final(auction).creation_time == old(auction).creation_time
            &&& final(auction).bump == old(auction).bump
        },
{
    if !launchpad.permissions.allow_auction_updates {
        return Err(LaunchpadError::AuctionUpdatesNotAllowed);
    }
    if !auction.updatable {
        return Err(LaunchpadError::AuctionNotUpdatable);
    }
    let mut tokens = auction.tokens;
    let n = auction.num_tokens as usize;
    let mut i: usize = 0;
    while i < n
        invariant
            n == auction.num_tokens,
            n <= 4,
            i <= n,
            tokens@.len() == 4,
            forall|j: int| 0 <= j < 4 ==> #[trigger] tokens@[j] == (if j < i {
                AuctionToken { ratio: params.token_ratios@[j], ..auction.tokens@[j] }
            } else {
                auction.tokens@[j]
            }),
        decreases n - i,
    {
        tokens[i] = AuctionToken { ratio: params.token_ratios[i], account: tokens[i].account };
        i = i + 1;
    }
    let updated = Auction {
        owner: auction.owner,
        enabled: auction.enabled,
        updatable: auction.updatable,
        fixed_amount: auction.fixed_amount,
        common: params.common.duplicate(),
        payment: params.payment,
        pricing: params.pricing,
        stats: auction.stats,
        tokens,
        num_tokens: auction.num_tokens,
        creation_time: auction.creation_time,
        update_time: curtime,
        bump: auction.bump,
    };
    if !updated.validate(curtime) {
        return Err(LaunchpadError::InvalidAuctionConfig);
    }
    *auction = updated;
    Ok(())
}

/// A refill of a started auction needs refills to be allowed; an auction
/// with a fixed amount takes no refills.
pub fn add_tokens(launchpad: &Launchpad, auction: &Auction, curtime: i64) -> (r: Result<(), LaunchpadError>)
    ensures
        r == (if auction.spec_is_started(curtime, true) && !launchpad.permissions.allow_auction_refills {
            Err(LaunchpadError::AuctionRefillsNotAllowed)
        } else if auction.fixed_amount {
            Err(LaunchpadError::AuctionWithFixedAmount)
        } else {
            Ok(())
        }),
{
    if auction.is_started(curtime, true) && !launchpad.permissions.allow_auction_refills {
        return Err(LaunchpadError::AuctionRefillsNotAllowed);
    }
    if auction.fixed_amount {
        return Err(LaunchpadError::AuctionWithFixedAmount);
    }
    Ok(())
}

/// A pull-out while the auction is running needs pull-outs to be allowed;
/// an auction with a fixed amount gives nothing back.
pub fn remove_tokens(launchpad: &Launchpad, auction: &Auction, curtime: i64) -> (r: Result<(), LaunchpadError>)
    ensures
        r == (if auction.spec_is_started(curtime, true) && !auction.spec_is_ended(curtime, true)
            && !launchpad.permissions.allow_auction_pullouts {
            Err(LaunchpadError::AuctionPullOutsNotAllowed)
        } else if auction.fixed_amount {
            Err(LaunchpadError::AuctionWithFixedAmount)
        } else {
            Ok(())
        }),
{
    if auction.is_started(curtime, true) && !auction.is_ended(curtime, true)
        && !launchpad.permissions.allow_auction_pullouts {
        return Err(LaunchpadError::AuctionPullOutsNotAllowed);
    }
    if auction.fixed_amount {
        return Err(LaunchpadError::AuctionWithFixedAmount);
    }
    Ok(())
}

/// Whether an auction with these dispensing accounts may be deleted: each
/// is held by `program` and is empty.
pub open spec fn spec_delete_check(dispensers: Seq<TokenAccount>, program: Address) -> Result<(), LaunchpadError> {
    if exists|i: int| 0 <= i < dispensers.len() && (#[trigger] dispensers[i]).owner@ != program@ {
        Err(LaunchpadError::IllegalOwner)
    } else if exists|i: int| 0 <= i < dispensers.len() && (#[trigger] dispensers[i]).amount > 0 {
        Err(LaunchpadError::AuctionNotEmpty)
    } else {
        Ok(())
    }
}

/// An auction may be deleted once each of its dispensing accounts is held
/// by `program` and is empty.
pub fn delete_auction(dispensers: &Vec<TokenAccount>, program: &Address) -> (r: Result<(), LaunchpadError>)
    ensures
        r == spec_delete_check(dispensers@, *program),
{
    let mut i: usize = 0;
    while i < dispensers.len()
        invariant
            i <= dispensers.len(),
            forall|j: int| 0 <= j < i ==> (#[trigger] dispensers@[j]).owner@ == program@,
        decreases dispensers.len() - i,
    {
        if dispensers[i].owner != *program {
            assert(dispensers@[i as int].owner@ != program@);
            return Err(LaunchpadError::IllegalOwner);
        }
        i = i + 1;
    }
    let mut k: usize = 0;
    while k < dispensers.len()
        invariant
            k <= dispensers.len(),
            forall|j: int| 0 <= j < dispensers.len() ==> (#[trigger] dispensers@[j]).owner@ == program@,
            forall|j: int| 0 <= j < k ==> (#[trigger] dispensers@[j]).amount == 0,
        decreases dispensers.len() - k,
    {
        if dispensers[k].amount > 0 {
            assert(dispensers@[k as int].amount > 0);
            return Err(LaunchpadError::AuctionNotEmpty);
        }
        k = k + 1;
    }
    Ok(())
}

/// Sets the time that stands for the current time under the test
/// configuration; refused otherwise.
pub fn set_test_time(auction: &mut Auction, test_mode: bool, time: i64) -> (r: Result<(), LaunchpadError>)
    ensures
        r == (if test_mode { Ok(()) } else { Err(LaunchpadError::InvalidEnvironment) }),
        *final(auction) == (if test_mode { Auction { creation_time: time, ..*old(auction) } } else { *old(auction) }),
{
    if !test_mode {
        return Err(LaunchpadError::InvalidEnvironment);
    }
    auction.creation_time = time;
    Ok(())
}

pub fn enable_auction(auction: &mut Auction)
    ensures
        *final(auction) == (Auction { enabled: true, ..*old(auction) }),
{
    auction.enabled = true;
}

pub fn disable_auction(auction: &mut Auction)
    ensures
        *final(auction) == (Auction { enabled: false, ..*old(auction) }),
{
    auction.enabled = false;
}

/// Takes `amount` out of the custody's collected fees, which must hold it. Returns
/// the amount to transfer out of the custody's token account.
pub fn withdraw_fees(custody: &mut Custody, amount: u64) -> (r: Result<u64, LaunchpadError>)
    ensures
        r == (if amount == 0 {
            Err(LaunchpadError::InvalidTokenAmount)
        } else if old(custody).collected_fees < amount {
            Err(LaunchpadError::InsufficientFunds)
        } else {
            Ok(amount)
        }),
        r is Ok ==> final(custody).collected_fees == old(custody).collected_fees - amount,
        *final(custody) == (Custody { collected_fees: final(custody).collected_fees, ..*old(custody) }),
        r is Err ==> final(custody).collected_fees == old(custody).collected_fees,
{
    if amount == 0 {
        return Err(LaunchpadError::InvalidTokenAmount);
    }
    if custody.collected_fees < amount {
        return Err(LaunchpadError::InsufficientFunds);
    }
    custody.collected_fees = custody.collected_fees - amount;
    Ok(amount)
}

/// Takes `amount` out of the seller's balance, where withdrawals are allowed and
/// the balance holds it. Returns the amount to transfer to the seller.
pub fn withdraw_funds(launchpad: &Launchpad, seller_balance: &mut SellerBalance, amount: u64) -> (r: Result<u64, LaunchpadError>)
    ensures
        r == (if !launchpad.permissions.allow_withdrawals {
            Err(LaunchpadError::WithdrawalsNotAllowed)
        } else if amount == 0 {
            Err(LaunchpadError::InvalidTokenAmount)
        } else if old(seller_balance).balance < amount {
            Err(LaunchpadError::InsufficientFunds)
        } else {
            Ok(amount)
        }),
        r is Ok ==> final(seller_balance).balance == old(seller_balance).balance - amount,
        r is Err ==> final(seller_balance).balance == old(seller_balance).balance,
        final(seller_balance).owner == old(seller_balance).owner,
        final(seller_balance).custody == old(seller_balance).custody,
        final(seller_balance).bump == old(seller_balance).bump,
{
    if !launchpad.permissions.allow_withdrawals {
        return Err(LaunchpadError::WithdrawalsNotAllowed);
    }
    if amount == 0 {
        return Err(LaunchpadError::InvalidTokenAmount);
    }
    if seller_balance.balance < amount {
        return Err(LaunchpadError::InsufficientFunds);
    }
    seller_balance.balance = seller_balance.balance - amount;
    Ok(amount)
}


/// Sets up a custody that was never set (its mint is the zero address)
/// for the token `mint`, held in `token_account`.
pub fn init_custody(
    custody: &mut Custody,
    mint: Address,
    token_account: Address,
    decimals: u8,
    oracle_type: OracleType,
    oracle_account: Address,
    max_oracle_price_error_bits: u64,
    max_oracle_price_age_sec: u32,
    bump: u8,
) -> (r: Result<(), LaunchpadError>)
    ensures
        r is Ok <==> old(custody).mint@ == Seq::new(32, |i: int| 0u8),
        r is Err ==> r == Err::<(), LaunchpadError>(LaunchpadError::AccountAlreadyInitialized)
            && *final(custody) == *old(custody),
        r is Ok ==> *final(custody) == (Custody {
            mint,
            token_account,
            decimals,
            oracle_type,
            oracle_account,
            max_oracle_price_error_bits,
            max_oracle_price_age_sec,
            collected_fees: 0,
            bump,
        }),
{
    if custody.mint != Address::zero() {
        return Err(LaunchpadError::AccountAlreadyInitialized);
    }
    *custody = Custody {
        mint,
        token_account,
        decimals,
        oracle_type,
        oracle_account,
        max_oracle_price_error_bits,
        max_oracle_price_age_sec,
        collected_fees: 0,
        bump,
    };
    Ok(())
}

#[derive(Clone, Copy, Debug)]
pub struct InitParams {
    pub allow_new_auctions: bool,
    pub allow_auction_updates: bool,
    pub allow_new_bids: bool,
    pub allow_withdrawals: bool,
    pub new_auction_fee: u64,
    pub auction_update_fee: u64,
    pub invalid_bid_fee: Fee,
    pub trade_fee: Fee,
}

#[derive(Clone, Copy, Debug)]
pub struct TestInitParams {
    pub allow_new_auctions: bool,
    pub allow_auction_updates: bool,
    pub allow_auction_refills: bool,
    pub allow_auction_pullouts: bool,
    pub allow_new_bids: bool,
    pub allow_withdrawals: bool,
    pub new_auction_fee: u64,
    pub auction_update_fee: u64,
    pub invalid_bid_fee: Fee,
    pub trade_fee: Fee,
}

pub open spec fn spec_init_permissions(p: InitParams) -> Permissions {
    Permissions {
        allow_new_auctions: p.allow_new_auctions,
        allow_auction_updates: p.allow_auction_updates,
        allow_auction_refills: false,
        allow_auction_pullouts: false,
        allow_new_bids: p.allow_new_bids,
        allow_withdrawals: p.allow_withdrawals,
    }
}

pub open spec fn spec_init_fees(new_auction: u64, auction_update: u64, invalid_bid: Fee, trade: Fee) -> Fees {
    Fees { new_auction, auction_update, invalid_bid, trade }
}

/// The launchpad as first set up: refills and pull-outs stay forbidden
/// until the permissions are set.
pub fn init(params: &InitParams, transfer_authority_bump: u8, launchpad_bump: u8) -> (r: Result<Launchpad, LaunchpadError>)
    ensures
        r == (if Launchpad::spec_new(spec_init_permissions(*params), spec_init_fees(params.new_auction_fee,
            params.auction_update_fee, params.invalid_bid_fee, params.trade_fee), transfer_authority_bump,
            launchpad_bump).spec_validate() {
            Ok(Launchpad::spec_new(spec_init_permissions(*params), spec_init_fees(params.new_auction_fee,
                params.auction_update_fee, params.invalid_bid_fee, params.trade_fee), transfer_authority_bump,
                launchpad_bump))
        } else {
            Err(LaunchpadError::InvalidLaunchpadConfig)
        }),
{
    let permissions = Permissions {
        allow_new_auctions: params.allow_new_auctions,
        allow_auction_updates: params.allow_auction_updates,
        allow_auction_refills: false,
        allow_auction_pullouts: false,
        allow_new_bids: params.allow_new_bids,
        allow_withdrawals: params.allow_withdrawals,
    };
    let fees = Fees {
        new_auction: params.new_auction_fee,
        auction_update: params.auction_update_fee,
        invalid_bid: params.invalid_bid_fee,
        trade: params.trade_fee,
    };
    Launchpad::new(permissions, fees, transfer_authority_bump, launchpad_bump)
}

/// The launchpad as set up under the test configuration, with every
/// permission given; refused otherwise.
pub fn test_init(test_mode: bool, params: &TestInitParams, transfer_authority_bump: u8, launchpad_bump: u8) -> (r: Result<Launchpad, LaunchpadError>)
    ensures
        !test_mode ==> r == Err::<Launchpad, LaunchpadError>(LaunchpadError::InvalidEnvironment),
        test_mode ==> r == (if Launchpad::spec_new(
            Permissions {
                allow_new_auctions: params.allow_new_auctions,
                allow_auction_updates: params.allow_auction_updates,
                allow_auction_refills: params.allow_auction_refills,
                allow_auction_pullouts: params.allow_auction_pullouts,
                allow_new_bids: params.allow_new_bids,
                allow_withdrawals: params.allow_withdrawals,
            },
            spec_init_fees(params.new_auction_fee, params.auction_update_fee, params.invalid_bid_fee, params.trade_fee),
            transfer_authority_bump, launchpad_bump).spec_validate() {
            Ok(Launchpad::spec_new(
                Permissions {
                    allow_new_auctions: params.allow_new_auctions,
                    allow_auction_updates: params.allow_auction_updates,
                    allow_auction_refills: params.allow_auction_refills,
                    allow_auction_pullouts: params.allow_auction_pullouts,
                    allow_new_bids: params.allow_new_bids,
                    allow_withdrawals: params.allow_withdrawals,
                },
                spec_init_fees(params.new_auction_fee, params.auction_update_fee, params.invalid_bid_fee, params.trade_fee),
                transfer_authority_bump, launchpad_bump))
        } else {
            Err(LaunchpadError::InvalidLaunchpadConfig)
        }),
{
    if !test_mode {
        return Err(LaunchpadError::InvalidEnvironment);
    }
    let permissions = Permissions {
        allow_new_auctions: params.allow_new_auctions,
        allow_auction_updates: params.allow_auction_updates,
        allow_auction_refills: params.allow_auction_refills,
        allow_auction_pullouts: params.allow_auction_pullouts,
        allow_new_bids: params.allow_new_bids,
        allow_withdrawals: params.allow_withdrawals,
    };
    let fees = Fees {
        new_auction: params.new_auction_fee,
        auction_update: params.auction_update_fee,
        invalid_bid: params.invalid_bid_fee,
        trade: params.trade_fee,
    };
    Launchpad::new(permissions, fees, transfer_authority_bump, launchpad_bump)
}

} // verus!
