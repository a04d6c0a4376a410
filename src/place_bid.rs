//! The bid-fill state machine.
//!
//! `place_bid` validates a bid against the auction, picks the token to
//! dispense, computes the fill and the payment, and updates the bid, the
//! seller's balance, the custody's fees and the auction's statistics. It
//! changes nothing when it fails. The host performs the transfers that the
//! returned `BidOutcome` names.

use vstd::prelude::*;

use crate::address::Address;
use crate::auction::{Auction, MAX_TOKENS};
use crate::bid::{BadBidType, Bid, BidType};
use crate::custody::Custody;
use crate::error::LaunchpadError;
use crate::launchpad::{CollectedFees, Launchpad};
use crate::math::{decimal_ceil_mul, checked_decimal_ceil_mul, checked_mul, checked_div};
use crate::oracle::OraclePrice;
use crate::seller_balance::SellerBalance;

verus! {

#[derive(Clone, Copy, Debug)]
pub struct PlaceBidParams {
    pub price: u64,
    pub amount: u64,
    pub bid_type: BidType,
}

/// A token account as the host reports it.
#[derive(Clone, Copy, Debug, Default)]
pub struct TokenAccount {
    pub address: Address,
    pub owner: Address,
    pub mint: Address,
    pub amount: u64,
}

/// What the host reports about the transaction and the accounts of a bid.
#[derive(Clone, Copy, Debug)]
pub struct BidEnvironment {
    pub buyer: Address,
    pub auction_address: Address,
    pub payment_custody_address: Address,
    pub pricing_custody_address: Address,
    pub pricing_decimals: u8,
    /// Position of this instruction in its transaction.
    pub instruction_index: u16,
    /// Whether the transaction holds an instruction after this one.
    pub has_next_instruction: bool,
    /// Balance of the buyer's funding account.
    pub funding_amount: u64,
    pub bid_bump: u8,
    pub seller_balance_bump: u8,
    pub curtime: i64,
    /// The decay of the reprice window at `curtime` (see `get_reprice_step`).
    pub decay_factor: u128,
}

/// What the host must transfer once a bid has been accepted.
#[derive(Clone, Copy, Debug, PartialEq, Eq, Structural)]
pub enum BidOutcome {
    /// The bid was invalid; `fee_amount` moves from the buyer's funding
    /// account to the payment custody (nothing where it is zero).
    Penalized { fee_amount: u64 },
    /// The bid was filled: `payment_amount + fee_amount` moves from the
    /// buyer to the payment custody, and `dispense_amount` raw units of
    /// token `token_num` from its dispensing account to the buyer.
    Filled {
        token_num: usize,
        fill_amount: u64,
        fill_price: u64,
        payment_amount: u64,
        fee_amount: u64,
        dispense_amount: u64,
    },
}

/// The bid must be the only instruction of its transaction, so that no
/// other instruction can observe the token draw and abort.
pub fn check_single_instruction(instruction_index: u16, has_next_instruction: bool) -> (r: Result<(), LaunchpadError>)
    ensures
        r == (if instruction_index == 0 && !has_next_instruction {
            Ok(())
        } else {
            Err(LaunchpadError::MustBeSingleInstruction)
        }),
{
    if instruction_index == 0 && !has_next_instruction {
        Ok(())
    } else {
        Err(LaunchpadError::MustBeSingleInstruction)
    }
}

/// As many receiving as dispensing accounts, one pair per offered token.
pub open spec fn spec_check_account_counts(num_tokens: u8, receiving: nat, dispensing: nat) -> Result<(), LaunchpadError> {
    if receiving == 0 || receiving != dispensing {
        Err(LaunchpadError::NotEnoughAccountKeys)
    } else if receiving > num_tokens {
        Err(LaunchpadError::TooManyAccountKeys)
    } else if receiving < num_tokens {
        Err(LaunchpadError::NotEnoughAccountKeys)
    } else {
        Ok(())
    }
}

pub fn check_account_counts(num_tokens: u8, receiving: usize, dispensing: usize) -> (r: Result<(), LaunchpadError>)
    ensures
        r == spec_check_account_counts(num_tokens, receiving as nat, dispensing as nat),
{
    if receiving == 0 || receiving != dispensing {
        Err(LaunchpadError::NotEnoughAccountKeys)
    } else if receiving > num_tokens as usize {
        Err(LaunchpadError::TooManyAccountKeys)
    } else if receiving < num_tokens as usize {
        Err(LaunchpadError::NotEnoughAccountKeys)
    } else {
        Ok(())
    }
}

/// The fault, if any, of the accounts of token `t`: the receiving account
/// must be the buyer's, the dispensing account the auction's, and both of
/// the same mint.
pub open spec fn token_account_fault(
    auction: Auction,
    buyer: Address,
    receiving: TokenAccount,
    dispensing: TokenAccount,
    t: int,
) -> Option<LaunchpadError> {
    if receiving.owner@ != buyer@ {
        Some(LaunchpadError::IllegalOwner)
    } else if dispensing.address@ != auction.tokens@[t].account@ {
        Some(LaunchpadError::InvalidDispenserAddress)
    } else if dispensing.mint@ != receiving.mint@ {
        Some(LaunchpadError::InvalidReceivingAddress)
    } else {
        None
    }
}

/// The first fault among the tokens from `i` on.
pub open spec fn spec_check_token_accounts(
    auction: Auction,
    buyer: Address,
    receiving: Seq<TokenAccount>,
    dispensing: Seq<TokenAccount>,
    i: int,
) -> Result<(), LaunchpadError>
    decreases auction.num_tokens - i,
{
    if i < 0 || i >= auction.num_tokens {
        Ok(())
    } else {
        match token_account_fault(auction, buyer, receiving[i], dispensing[i], i) {
            Some(e) => Err(e),
            None => spec_check_token_accounts(auction, buyer, receiving, dispensing, i + 1),
        }
    }
}

/// Checks every offered token's accounts, not only the one drawn, so that
/// a buyer cannot steer the draw with a bad account.
pub fn check_token_accounts(
    auction: &Auction,
    buyer: &Address,
    receiving: &Vec<TokenAccount>,
    dispensing: &Vec<TokenAccount>,
) -> (r: Result<(), LaunchpadError>)
    requires
        receiving.len() >= auction.num_tokens,
        dispensing.len() >= auction.num_tokens,
        auction.num_tokens <= 4,
    ensures
        r == spec_check_token_accounts(*auction, *buyer, receiving@, dispensing@, 0),
{
    let n = auction.num_tokens as usize;
    let mut t: usize = 0;
    while t < n
        invariant
            n == auction.num_tokens,
            n <= 4,
            t <= n,
            receiving.len() >= n,
            dispensing.len() >= n,
            spec_check_token_accounts(*auction, *buyer, receiving@, dispensing@, 0)
                == spec_check_token_accounts(*auction, *buyer, receiving@, dispensing@, t as int),
        decreases n - t,
    {
        if receiving[t].owner != *buyer {
            return Err(LaunchpadError::IllegalOwner);
        }
        if dispensing[t].address != auction.tokens[t].account {
            return Err(LaunchpadError::InvalidDispenserAddress);
        }
        if dispensing[t].mint != receiving[t].mint {
            return Err(LaunchpadError::InvalidReceivingAddress);
        }
        t = t + 1;
    }
    Ok(())
}

/// The unsigned integer that the bytes `s` encode, least significant first.
pub open spec fn le_value(s: Seq<u8>) -> nat
    decreases s.len(),
{
    if s.len() == 0 {
        0
    } else {
        s[0] as nat + 256 * le_value(s.drop_first())
    }
}

/// `256^n`.
pub open spec fn pow256(n: nat) -> nat
    decreases n,
{
    if n == 0 {
        1
    } else {
        256 * pow256((n - 1) as nat)
    }
}

proof fn lemma_le_value_bound(s: Seq<u8>)
    ensures
        le_value(s) < pow256(s.len()),
    decreases s.len(),
{
    if s.len() > 0 {
        lemma_le_value_bound(s.drop_first());
        let rest = le_value(s.drop_first());
        let p = pow256((s.len() - 1) as nat);
        assert(s[0] as nat + 256 * rest < 256 * p) by (nonlinear_arith)
            requires
                rest < p,
                s[0] < 256,
        ;
    }
}

/// Where the draw reads the recent-slot-hashes buffer.
pub const DRAW_OFFSET: usize = 12;

/// The index of the token to dispense: the only one where one is offered,
/// else the eight bytes at `DRAW_OFFSET` of the recent-slot-hashes buffer,
/// read as a little-endian integer, modulo the number of dispensers.
pub open spec fn spec_select_token(num_tokens: u8, slot_hashes: Seq<u8>, dispensers: nat) -> Result<usize, LaunchpadError> {
    if num_tokens == 1 {
        Ok(0)
    } else if slot_hashes.len() < 20 {
        Err(LaunchpadError::InvalidAccountData)
    } else {
        Ok((le_value(slot_hashes.subrange(12, 20)) % dispensers) as usize)
    }
}

pub fn select_token(num_tokens: u8, slot_hashes: &Vec<u8>, dispensers: usize) -> (r: Result<usize, LaunchpadError>)
    requires
        dispensers > 0,
    ensures
        r == spec_select_token(num_tokens, slot_hashes@, dispensers as nat),
        r is Ok ==> r->Ok_0 < dispensers,
{
    if num_tokens == 1 {
        return Ok(0);
    }
    if slot_hashes.len() < 20 {
        return Err(LaunchpadError::InvalidAccountData);
    }
    let ghost bytes = slot_hashes@.subrange(12, 20);
    let mut seed: u64 = 0;
    let mut k: usize = 8;
    assert(bytes.subrange(8, 8) =~= Seq::<u8>::empty());
    proof {
        lemma_pow256_seven();
    }
    while k > 0
        invariant
            k <= 8,
            slot_hashes.len() >= 20,
            bytes == slot_hashes@.subrange(12, 20),
            seed as nat == le_value(bytes.subrange(k as int, 8)),
            pow256(7) == 0x100_0000_0000_0000,
        decreases k,
    {
        let b = slot_hashes[DRAW_OFFSET + k - 1];
        proof {
            let tail = bytes.subrange(k as int, 8);
            let ext = bytes.subrange(k - 1, 8);
            assert(ext.drop_first() =~= tail);
            assert(ext[0] == b);
            lemma_le_value_bound(tail);
            lemma_pow256_monotone(tail.len(), 7);
            assert(seed * 256 + b < 0x1_0000_0000_0000_0000) by (nonlinear_arith)
                requires
                    seed < pow256(tail.len()),
                    pow256(tail.len()) <= pow256(7),
                    pow256(7) == 0x100_0000_0000_0000,
                    b < 256,
            ;
        }
        seed = seed * 256 + b as u64;
        k = k - 1;
    }
    assert(bytes.subrange(0, 8) =~= bytes);
    Ok((seed % dispensers as u64) as usize)
}

proof fn lemma_pow256_seven()
    ensures
        pow256(7) == 0x100_0000_0000_0000,
{
    assert(pow256(0) == 1);
    assert(pow256(1) == 0x100);
    assert(pow256(2) == 0x1_0000);
    assert(pow256(3) == 0x100_0000);
    assert(pow256(4) == 0x1_0000_0000);
    assert(pow256(5) == 0x100_0000_0000);
    assert(pow256(6) == 0x1_0000_0000_0000);
    assert(pow256(7) == 0x100_0000_0000_0000);
}

proof fn lemma_pow256_monotone(i: nat, n: nat)
    requires
        i <= n,
    ensures
        pow256(i) <= pow256(n),
    decreases n,
{
    if i < n {
        lemma_pow256_monotone(i, (n - 1) as nat);
    }
}

/// The limit of the bidder's cohort.
pub open spec fn cohort_limit(whitelisted: bool, wl_limit: u64, reg_limit: u64) -> u64 {
    if whitelisted { wl_limit } else { reg_limit }
}

/// The amount filled and its price, for a bid at `price` for `amount`
/// against `inventory` raw units of the drawn token.
pub open spec fn spec_compute_fill(
    auction: Auction,
    params: PlaceBidParams,
    inventory: u64,
    curtime: i64,
    factor: u128,
) -> Result<(u64, u64), LaunchpadError> {
    if auction.pricing.unit_size == 0 {
        Err(LaunchpadError::MathOverflow)
    } else {
        let max_dispense = inventory / auction.pricing.unit_size;
        match auction.spec_auction_amount(params.price, curtime, factor) {
            Err(e) => Err(e),
            Ok(offered) => {
                let avail = if offered < max_dispense { offered } else { max_dispense as u64 };
                if avail == 0 || (params.bid_type == BidType::Fok && avail < params.amount) {
                    Err(LaunchpadError::InsufficientAmount)
                } else {
                    let fill_amount = if avail < params.amount { avail } else { params.amount };
                    match auction.spec_auction_price(fill_amount, curtime, factor) {
                        Err(e) => Err(e),
                        Ok(fill_price) => if params.price < fill_price {
                            Err(LaunchpadError::PriceCalcError)
                        } else {
                            Ok((fill_amount, fill_price))
                        },
                    }
                }
            },
        }
    }
}

/// Fills what is available at the bid's price, up to what the drawn
/// dispenser holds in whole units: all of it or nothing for fill-or-kill.
pub fn compute_fill(
    auction: &Auction,
    params: &PlaceBidParams,
    inventory: u64,
    curtime: i64,
    factor: u128,
) -> (r: Result<(u64, u64), LaunchpadError>)
    ensures
        r == spec_compute_fill(*auction, *params, inventory, curtime, factor),
        r is Ok ==> r->Ok_0.0 <= params.amount && r->Ok_0.1 <= params.price,
        r is Ok && params.amount > 0 ==> r->Ok_0.0 > 0,
        r is Ok && params.bid_type == BidType::Fok ==> r->Ok_0.0 == params.amount,
{
    let max_dispense = checked_div(inventory, auction.pricing.unit_size)?;
    let offered = auction.get_auction_amount(params.price, curtime, factor)?;
    let avail = if offered < max_dispense { offered } else { max_dispense };
    if avail == 0 || (params.bid_type == BidType::Fok && avail < params.amount) {
        return Err(LaunchpadError::InsufficientAmount);
    }
    let fill_amount = if avail < params.amount { avail } else { params.amount };
    let fill_price = auction.get_auction_price(fill_amount, curtime, factor)?;
    if params.price < fill_price {
        return Err(LaunchpadError::PriceCalcError);
    }
    Ok((fill_amount, fill_price))
}

/// What the buyer pays, before fees, for `fill_amount` units at
/// `fill_price`. Where the payment currency is not the pricing currency the
/// price is converted through the two oracle prices, rounding up.
pub open spec fn spec_payment_amount(
    fill_price: u64,
    fill_amount: u64,
    same_custody: bool,
    pricing_price: Option<OraclePrice>,
    payment_price: Option<OraclePrice>,
    pricing_decimals: u8,
    payment_decimals: u8,
) -> Result<u64, LaunchpadError> {
    if fill_price == 0 {
        Ok(0)
    } else if same_custody {
        if fill_price * fill_amount > u64::MAX {
            Err(LaunchpadError::MathOverflow)
        } else {
            Ok((fill_price * fill_amount) as u64)
        }
    } else if pricing_price is None || payment_price is None {
        Err(LaunchpadError::InvalidOracleAccount)
    } else {
        match pricing_price->0.spec_checked_div(&payment_price->0) {
            Err(e) => Err(e),
            Ok(pair) => match decimal_ceil_mul(
                fill_price,
                (-(pricing_decimals as int)) as i32,
                pair.price,
                pair.exponent,
                (-(payment_decimals as int)) as i32,
            ) {
                Err(e) => Err(e),
                Ok(per_token) => if per_token * fill_amount > u64::MAX {
                    Err(LaunchpadError::MathOverflow)
                } else {
                    Ok((per_token * fill_amount) as u64)
                },
            },
        }
    }
}

pub fn payment_amount(
    fill_price: u64,
    fill_amount: u64,
    same_custody: bool,
    pricing_price: Option<OraclePrice>,
    payment_price: Option<OraclePrice>,
    pricing_decimals: u8,
    payment_decimals: u8,
) -> (r: Result<u64, LaunchpadError>)
    ensures
        r == spec_payment_amount(fill_price, fill_amount, same_custody, pricing_price, payment_price,
            pricing_decimals, payment_decimals),
{
    if fill_price == 0 {
        return Ok(0);
    }
    if same_custody {
        return checked_mul(fill_price, fill_amount);
    }
    match (pricing_price, payment_price) {
        (Some(pricing), Some(payment)) => {
            let pair = pricing.checked_div(&payment)?;
            let per_token = checked_decimal_ceil_mul(
                fill_price,
                -(pricing_decimals as i32),
                pair.price,
                pair.exponent,
                -(payment_decimals as i32),
            )?;
            checked_mul(per_token, fill_amount)
        },
        _ => Err(LaunchpadError::InvalidOracleAccount),
    }
}

/// The USD value, with six decimals, of `fee` raw units of the payment
/// token; `None` is refused where there is a fee to value.
pub open spec fn spec_fee_value_usd(fee: u64, price: Option<OraclePrice>, decimals: u8) -> Result<u64, LaunchpadError> {
    if fee == 0 {
        Ok(0)
    } else if price is None {
        Err(LaunchpadError::InvalidOracleAccount)
    } else {
        crate::math::decimal_mul(fee, (-(decimals as int)) as i32, price->0.price, price->0.exponent, -6i32)
    }
}

pub fn fee_value_usd(fee: u64, price: Option<OraclePrice>, decimals: u8) -> (r: Result<u64, LaunchpadError>)
    ensures
        r == spec_fee_value_usd(fee, price, decimals),
{
    if fee == 0 {
        return Ok(0);
    }
    match price {
        Some(p) => p.get_asset_value_usd(fee, decimals),
        None => Err(LaunchpadError::InvalidOracleAccount),
    }
}

/// The fee charged on a trade that paid `payment` at `fill_price`: none
/// where the fill was free.
pub open spec fn spec_trade_fee(launchpad: Launchpad, fill_price: u64, payment: u64) -> Result<u64, LaunchpadError> {
    if fill_price > 0 {
        launchpad.fees.trade.spec_fee_amount(payment)
    } else {
        Ok(0)
    }
}

/// `after` is `before` plus the value in `credit`, wrapping around.
pub open spec fn wrapping_credit(before: u64, after: u64, credit: Result<u64, LaunchpadError>) -> bool {
    credit is Ok && after == (before + credit->Ok_0) % 0x1_0000_0000_0000_0000
}

/// Seller balances and collected fees grow by exactly what was paid in.
pub open spec fn conserves(balance_before: int, fees_before: int, balance_after: int, fees_after: int, paid: int) -> bool {
    balance_after + fees_after == balance_before + fees_before + paid
}

/// The checks made before the token draw, in order: bids allowed, a
/// lone instruction, paired accounts, a positive amount within the
/// cohort's order limit, a price at least the minimum, a sale not over for
/// the cohort, and the accounts of every offered token.
pub open spec fn spec_bid_precheck(
    launchpad: Launchpad,
    auction: Auction,
    bid: Bid,
    env: BidEnvironment,
    receiving: Seq<TokenAccount>,
    dispensing: Seq<TokenAccount>,
    params: PlaceBidParams,
) -> Result<(), LaunchpadError> {
    if !launchpad.permissions.allow_new_bids {
        Err(LaunchpadError::BidsNotAllowed)
    } else if !(env.instruction_index == 0 && !env.has_next_instruction) {
        Err(LaunchpadError::MustBeSingleInstruction)
    } else if spec_check_account_counts(auction.num_tokens, receiving.len(), dispensing.len()) is Err {
        spec_check_account_counts(auction.num_tokens, receiving.len(), dispensing.len())
    } else if params.amount == 0 {
        Err(LaunchpadError::InvalidTokenAmount)
    } else if cohort_limit(bid.whitelisted, auction.common.order_limit_wl_address,
        auction.common.order_limit_reg_address) < params.amount {
        Err(LaunchpadError::BidAmountTooLarge)
    } else if params.price < auction.pricing.min_price {
        Err(LaunchpadError::BidPriceTooSmall)
    } else if auction.spec_is_ended(env.curtime, bid.whitelisted) {
        Err(LaunchpadError::AuctionEnded)
    } else {
        spec_check_token_accounts(auction, env.buyer, receiving, dispensing, 0)
    }
}

/// Whether the bid is to be charged instead of filled: it comes before the
/// cohort's sale starts, or from a buyer already over the fill limit.
pub open spec fn spec_is_bad_bid(auction: Auction, bid: Bid, curtime: i64) -> bool {
    !auction.spec_is_started(curtime, bid.whitelisted) || bid.filled > cohort_limit(bid.whitelisted,
        auction.common.fill_limit_wl_address, auction.common.fill_limit_reg_address)
}

/// The fill of the drawn token: its amount and price.
pub open spec fn spec_drawn_fill(
    auction: Auction,
    params: PlaceBidParams,
    env: BidEnvironment,
    dispensing: Seq<TokenAccount>,
    slot_hashes: Seq<u8>,
) -> Result<(u64, u64), LaunchpadError> {
    match spec_select_token(auction.num_tokens, slot_hashes, dispensing.len()) {
        Err(e) => Err(e),
        Ok(t) => if t < dispensing.len() {
            spec_compute_fill(auction, params, dispensing[t as int].amount, env.curtime, env.decay_factor)
        } else {
            Err(LaunchpadError::InvalidAccountData)
        },
    }
}

/// The first step that fails when a valid bid is filled with `fill_amount`
/// units at `fill_price`, in order: the payment, the trade fee, the sums
/// that move, its USD value, the bid record, the seller's balance, the
/// auction's statistics and the amount to dispense; `None` when all succeed.
pub open spec fn spec_fill_error(
    launchpad: Launchpad,
    auction: Auction,
    bid: Bid,
    seller_balance: SellerBalance,
    custody: Custody,
    env: BidEnvironment,
    params: PlaceBidParams,
    pricing_price: Option<OraclePrice>,
    payment_price: Option<OraclePrice>,
    fill_amount: u64,
    fill_price: u64,
) -> Option<LaunchpadError> {
    let payment = spec_payment_amount(fill_price, fill_amount, env.payment_custody_address@
        == env.pricing_custody_address@, pricing_price, payment_price, env.pricing_decimals, custody.decimals);
    let p = payment->Ok_0;
    let fee = spec_trade_fee(launchpad, fill_price, p);
    let f = fee->Ok_0;
    let record = bid.spec_record_fill(env.buyer, env.auction_address, env.bid_bump, params.price, params.amount,
        params.bid_type, env.curtime, fill_amount, fill_price);
    let credit = seller_balance.spec_credit(auction.owner, env.payment_custody_address, env.seller_balance_bump, p);
    if payment is Err {
        Some(payment->Err_0)
    } else if fee is Err {
        Some(fee->Err_0)
    } else if p + f > u64::MAX || custody.collected_fees + f > u64::MAX {
        Some(LaunchpadError::MathOverflow)
    } else if spec_fee_value_usd(f, payment_price, custody.decimals) is Err {
        Some(spec_fee_value_usd(f, payment_price, custody.decimals)->Err_0)
    } else if record is Err {
        Some(record->Err_0)
    } else if credit is Err {
        Some(credit->Err_0)
    } else if auction.stats.spec_record_trade(record->Ok_0.whitelisted, env.curtime, fill_amount, fill_price) is None {
        Some(LaunchpadError::MathOverflow)
    } else if fill_amount * auction.pricing.unit_size > u64::MAX {
        Some(LaunchpadError::MathOverflow)
    } else {
        None
    }
}

/// The first step that fails when a bad bid is charged the invalid-bid fee
/// on `min(fill_amount, funding)`: the fee, the custody's sum, or its USD
/// value; `None` when all succeed.
pub open spec fn spec_penalty_error(
    launchpad: Launchpad,
    custody: Custody,
    fill_amount: u64,
    funding: u64,
    payment_price: Option<OraclePrice>,
) -> Option<LaunchpadError> {
    let fee = launchpad.fees.invalid_bid.spec_fee_amount(if fill_amount < funding { fill_amount } else { funding });
    if fee is Err {
        Some(fee->Err_0)
    } else if custody.collected_fees + fee->Ok_0 > u64::MAX {
        Some(LaunchpadError::MathOverflow)
    } else if spec_fee_value_usd(fee->Ok_0, payment_price, custody.decimals) is Err {
        Some(spec_fee_value_usd(fee->Ok_0, payment_price, custody.decimals)->Err_0)
    } else {
        None
    }
}

/// Places a bid of `params` in `auction` for the buyer of `env`.
///
/// In order, it fails when new bids are not allowed, when the bid is not
/// alone in its transaction, when the accounts do not pair up with the
/// offered tokens, on a zero amount, an amount over the cohort's order
/// limit, a price under the minimum, an auction that is over for the
/// cohort, accounts that are not the buyer's or the auction's, and when the
/// fill cannot be computed. A bid that comes too early, or from a buyer who
/// is over the cohort's fill limit, is charged the invalid-bid fee instead
/// of being filled, or fails where that fee is zero. Otherwise the fill is
/// recorded in the bid, credited to the seller and counted in the auction's
/// statistics, and the trade fee is collected. Nothing changes on failure.
pub fn place_bid(
    launchpad: &mut Launchpad,
    auction: &mut Auction,
    bid: &mut Bid,
    seller_balance: &mut SellerBalance,
    payment_custody: &mut Custody,
    env: &BidEnvironment,
    receiving: &Vec<TokenAccount>,
    dispensing: &Vec<TokenAccount>,
    slot_hashes: &Vec<u8>,
    pricing_price: Option<OraclePrice>,
    payment_price: Option<OraclePrice>,
    params: &PlaceBidParams,
) -> (r: Result<BidOutcome, LaunchpadError>)
    requires
        old(auction).num_tokens <= MAX_TOKENS,
    ensures
        r is Err ==> {
            &&& *final(launchpad) == *old(launchpad)
            &&& *final(auction) == *old(auction)
            &&& *final(bid) == *old(bid)
            &&& *final(seller_balance) == *old(seller_balance)
            &&& *final(payment_custody) == *old(payment_custody)
        },
        !old(launchpad).permissions.allow_new_bids ==> r == Err::<BidOutcome, LaunchpadError>(
            LaunchpadError::BidsNotAllowed),
        old(launchpad).permissions.allow_new_bids && !(env.instruction_index == 0 && !env.has_next_instruction)
            ==> r == Err::<BidOutcome, LaunchpadError>(LaunchpadError::MustBeSingleInstruction),
        spec_bid_precheck(*old(launchpad), *old(auction), *old(bid), *env, receiving@, dispensing@, *params) is Err
            ==> r == Err::<BidOutcome, LaunchpadError>(spec_bid_precheck(*old(launchpad), *old(auction), *old(bid), *env,
            receiving@, dispensing@, *params)->Err_0),
        spec_bid_precheck(*old(launchpad), *old(auction), *old(bid), *env, receiving@, dispensing@, *params) is Ok
            && spec_select_token(old(auction).num_tokens, slot_hashes@, dispensing.len() as nat) is Err
            ==> r == Err::<BidOutcome, LaunchpadError>(spec_select_token(old(auction).num_tokens, slot_hashes@,
            dispensing.len() as nat)->Err_0),
        spec_bid_precheck(*old(launchpad), *old(auction), *old(bid), *env, receiving@, dispensing@, *params) is Ok
            && spec_select_token(old(auction).num_tokens, slot_hashes@, dispensing.len() as nat) is Ok
            && spec_select_token(old(auction).num_tokens, slot_hashes@, dispensing.len() as nat)->Ok_0 < dispensing.len()
            && spec_compute_fill(*old(auction), *params, dispensing@[spec_select_token(old(auction).num_tokens,
            slot_hashes@, dispensing.len() as nat)->Ok_0 as int].amount, env.curtime, env.decay_factor) is Err
            ==> r == Err::<BidOutcome, LaunchpadError>(spec_compute_fill(*old(auction), *params,
            dispensing@[spec_select_token(old(auction).num_tokens, slot_hashes@, dispensing.len() as nat)->Ok_0 as int].amount,
            env.curtime, env.decay_factor)->Err_0),
        spec_bid_precheck(*old(launchpad), *old(auction), *old(bid), *env, receiving@, dispensing@, *params) is Ok
            && spec_select_token(old(auction).num_tokens, slot_hashes@, dispensing.len() as nat) is Ok
            && spec_select_token(old(auction).num_tokens, slot_hashes@, dispensing.len() as nat)->Ok_0 < dispensing.len()
            && spec_compute_fill(*old(auction), *params, dispensing@[spec_select_token(old(auction).num_tokens,
            slot_hashes@, dispensing.len() as nat)->Ok_0 as int].amount, env.curtime, env.decay_factor) is Ok ==> {
            &&& spec_is_bad_bid(*old(auction), *old(bid), env.curtime) && old(launchpad).fees.invalid_bid.numerator == 0
                ==> r == Err::<BidOutcome, LaunchpadError>(if !old(auction).spec_is_started(env.curtime, old(bid).whitelisted)
                && !(old(bid).filled > cohort_limit(old(bid).whitelisted, old(auction).common.fill_limit_wl_address,
                old(auction).common.fill_limit_reg_address)) {
                LaunchpadError::AuctionNotStarted
            } else {
                LaunchpadError::FillAmountLimit
            })
            &&& spec_is_bad_bid(*old(auction), *old(bid), env.curtime) && old(launchpad).fees.invalid_bid.numerator != 0
                ==> !(r matches Ok(BidOutcome::Filled { .. }))
            &&& !spec_is_bad_bid(*old(auction), *old(bid), env.curtime) ==> !(r matches Ok(BidOutcome::Penalized { .. }))
        },
        spec_bid_precheck(*old(launchpad), *old(auction), *old(bid), *env, receiving@, dispensing@, *params) is Ok
            && spec_drawn_fill(*old(auction), *params, *env, dispensing@, slot_hashes@) is Ok
            && !spec_is_bad_bid(*old(auction), *old(bid), env.curtime) ==> match spec_fill_error(*old(launchpad),
            *old(auction), *old(bid), *old(seller_balance), *old(payment_custody), *env, *params, pricing_price,
            payment_price, spec_drawn_fill(*old(auction), *params, *env, dispensing@, slot_hashes@)->Ok_0.0,
            spec_drawn_fill(*old(auction), *params, *env, dispensing@, slot_hashes@)->Ok_0.1) {
            None => r matches Ok(BidOutcome::Filled { .. }),
            Some(e) => r == Err::<BidOutcome, LaunchpadError>(e),
        },
        spec_bid_precheck(*old(launchpad), *old(auction), *old(bid), *env, receiving@, dispensing@, *params) is Ok
            && spec_drawn_fill(*old(auction), *params, *env, dispensing@, slot_hashes@) is Ok
            && spec_is_bad_bid(*old(auction), *old(bid), env.curtime) && old(launchpad).fees.invalid_bid.numerator != 0
            ==> match spec_penalty_error(*old(launchpad), *old(payment_custody),
            spec_drawn_fill(*old(auction), *params, *env, dispensing@, slot_hashes@)->Ok_0.0, env.funding_amount,
            payment_price) {
            None => r matches Ok(BidOutcome::Penalized { .. }),
            Some(e) => r == Err::<BidOutcome, LaunchpadError>(e),
        },
        r is Ok ==> {
            &&& old(launchpad).permissions.allow_new_bids
            &&& env.instruction_index == 0 && !env.has_next_instruction
            &&& spec_check_account_counts(old(auction).num_tokens, receiving.len() as nat, dispensing.len() as nat) is Ok
            &&& params.amount > 0
            &&& params.amount <= cohort_limit(old(bid).whitelisted, old(auction).common.order_limit_wl_address,
                old(auction).common.order_limit_reg_address)
            &&& params.price >= old(auction).pricing.min_price
            &&& !old(auction).spec_is_ended(env.curtime, old(bid).whitelisted)
            &&& spec_check_token_accounts(*old(auction), env.buyer, receiving@, dispensing@, 0) is Ok
            &&& spec_select_token(old(auction).num_tokens, slot_hashes@, dispensing.len() as nat) is Ok
            &&& spec_select_token(old(auction).num_tokens, slot_hashes@, dispensing.len() as nat)->Ok_0 < dispensing.len()
            &&& spec_compute_fill(*old(auction), *params,
                dispensing@[spec_select_token(old(auction).num_tokens, slot_hashes@, dispensing.len() as nat)->Ok_0 as int].amount,
                env.curtime, env.decay_factor) is Ok
        },
        match r {
            Ok(BidOutcome::Filled { token_num, fill_amount, fill_price, payment_amount, fee_amount, dispense_amount }) => {
                &&& token_num == spec_select_token(old(auction).num_tokens, slot_hashes@, dispensing.len() as nat)->Ok_0
                &&& (fill_amount, fill_price) == spec_compute_fill(*old(auction), *params,
                    dispensing@[token_num as int].amount, env.curtime, env.decay_factor)->Ok_0
                &&& old(auction).spec_is_started(env.curtime, old(bid).whitelisted)
                &&& old(bid).filled <= cohort_limit(old(bid).whitelisted, old(auction).common.fill_limit_wl_address,
                    old(auction).common.fill_limit_reg_address)
                &&& Ok::<u64, LaunchpadError>(payment_amount) == spec_payment_amount(fill_price, fill_amount,
                    env.payment_custody_address@ == env.pricing_custody_address@, pricing_price, payment_price,
                    env.pricing_decimals, old(payment_custody).decimals)
                &&& Ok::<u64, LaunchpadError>(fee_amount) == spec_trade_fee(*old(launchpad), fill_price, payment_amount)
                &&& Ok::<Bid, LaunchpadError>(*final(bid)) == old(bid).spec_record_fill(env.buyer, env.auction_address,
                    env.bid_bump, params.price, params.amount, params.bid_type, env.curtime, fill_amount, fill_price)
                &&& Ok::<SellerBalance, LaunchpadError>(*final(seller_balance)) == old(seller_balance).spec_credit(
                    old(auction).owner, env.payment_custody_address, env.seller_balance_bump, payment_amount)
                &&& Some(final(auction).stats) == old(auction).stats.spec_record_trade(final(bid).whitelisted,
                    env.curtime, fill_amount, fill_price)
                &&& *final(auction) == (Auction { stats: final(auction).stats, ..*old(auction) })
                &&& final(payment_custody).collected_fees == old(payment_custody).collected_fees + fee_amount
                &&& *final(payment_custody) == (Custody { collected_fees: final(payment_custody).collected_fees, ..*old(payment_custody) })
                &&& wrapping_credit(old(launchpad).collected_fees.trade_usdc, final(launchpad).collected_fees.trade_usdc,
                    spec_fee_value_usd(fee_amount, payment_price, old(payment_custody).decimals))
                &&& *final(launchpad) == (Launchpad { collected_fees: CollectedFees {
                    trade_usdc: final(launchpad).collected_fees.trade_usdc, ..old(launchpad).collected_fees }, ..*old(launchpad) })
                &&& dispense_amount == fill_amount * old(auction).pricing.unit_size
                &&& conserves(old(seller_balance).balance as int, old(payment_custody).collected_fees as int,
                    final(seller_balance).balance as int, final(payment_custody).collected_fees as int,
                    payment_amount + fee_amount)
            },
            Ok(BidOutcome::Penalized { fee_amount }) => {
                &&& !old(auction).spec_is_started(env.curtime, old(bid).whitelisted)
                    || old(bid).filled > cohort_limit(old(bid).whitelisted, old(auction).common.fill_limit_wl_address,
                    old(auction).common.fill_limit_reg_address)
                &&& old(launchpad).fees.invalid_bid.numerator != 0
                &&& Ok::<u64, LaunchpadError>(fee_amount) == old(launchpad).fees.invalid_bid.spec_fee_amount(
                    if spec_compute_fill(*old(auction), *params, dispensing@[spec_select_token(old(auction).num_tokens,
                        slot_hashes@, dispensing.len() as nat)->Ok_0 as int].amount, env.curtime, env.decay_factor)->Ok_0.0
                        < env.funding_amount {
                        spec_compute_fill(*old(auction), *params, dispensing@[spec_select_token(old(auction).num_tokens,
                            slot_hashes@, dispensing.len() as nat)->Ok_0 as int].amount, env.curtime, env.decay_factor)->Ok_0.0
                    } else {
                        env.funding_amount
                    })
                &&& *final(auction) == *old(auction)
                &&& *final(bid) == *old(bid)
                &&& *final(seller_balance) == *old(seller_balance)
                &&& final(payment_custody).collected_fees == old(payment_custody).collected_fees + fee_amount
                &&& *final(payment_custody) == (Custody { collected_fees: final(payment_custody).collected_fees, ..*old(payment_custody) })
                &&& wrapping_credit(old(launchpad).collected_fees.invalid_bid_usdc, final(launchpad).collected_fees.invalid_bid_usdc,
                    spec_fee_value_usd(fee_amount, payment_price, old(payment_custody).decimals))
                &&& *final(launchpad) == (Launchpad { collected_fees: CollectedFees {
                    invalid_bid_usdc: final(launchpad).collected_fees.invalid_bid_usdc, ..old(launchpad).collected_fees },
                    ..*old(launchpad) })
                &&& conserves(old(seller_balance).balance as int, old(payment_custody).collected_fees as int,
                    final(seller_balance).balance as int, final(payment_custody).collected_fees as int, fee_amount as int)
            },
            Err(_) => true,
        },
{
    if !launchpad.permissions.allow_new_bids {
        return Err(LaunchpadError::BidsNotAllowed);
    }
    check_single_instruction(env.instruction_index, env.has_next_instruction)?;
    check_account_counts(auction.num_tokens, receiving.len(), dispensing.len())?;

    // validate inputs
    if params.amount == 0 {
        return Err(LaunchpadError::InvalidTokenAmount);
    }
    let whitelisted = bid.whitelisted;
    let order_limit = if whitelisted {
        auction.common.order_limit_wl_address
    } else {
        auction.common.order_limit_reg_address
    };
    if order_limit < params.amount {
        return Err(LaunchpadError::BidAmountTooLarge);
    }
    if params.price < auction.pricing.min_price {
        return Err(LaunchpadError::BidPriceTooSmall);
    }

    // check if the auction is active
    let curtime = env.curtime;
    let mut bad_bid_type = BadBidType::NoIssue;
    if !auction.is_started(curtime, whitelisted) {
        bad_bid_type = BadBidType::TooEarly;
    }
    if auction.is_ended(curtime, whitelisted) {
        return Err(LaunchpadError::AuctionEnded);
    }
    check_token_accounts(auction, &env.buyer, receiving, dispensing)?;

    // draw the token to dispense and compute the fill
    let token_num = select_token(auction.num_tokens, slot_hashes, dispensing.len())?;
    let (fill_amount, fill_price) = compute_fill(auction, params, dispensing[token_num].amount, curtime,
        env.decay_factor)?;

    // check for a bid over the fill limit
    let fill_limit = if whitelisted {
        auction.common.fill_limit_wl_address
    } else {
        auction.common.fill_limit_reg_address
    };
    if fill_limit < bid.filled {
        bad_bid_type = BadBidType::FillLimit;
    }

    if bad_bid_type != BadBidType::NoIssue {
        if launchpad.fees.invalid_bid.is_zero() {
            if bad_bid_type == BadBidType::TooEarly {
                return Err(LaunchpadError::AuctionNotStarted);
            } else {
                return Err(LaunchpadError::FillAmountLimit);
            }
        }
        let charged = if fill_amount < env.funding_amount { fill_amount } else { env.funding_amount };
        let fee_amount = launchpad.fees.invalid_bid.get_fee_amount(charged)?;
        let collected = match payment_custody.collected_fees.checked_add(fee_amount) {
            Some(v) => v,
            None => return Err(LaunchpadError::MathOverflow),
        };
        let fee_usd = fee_value_usd(fee_amount, payment_price, payment_custody.decimals)?;
        payment_custody.collected_fees = collected;
        launchpad.collected_fees.invalid_bid_usdc = launchpad.collected_fees.invalid_bid_usdc.wrapping_add(fee_usd);
        return Ok(BidOutcome::Penalized { fee_amount });
    }

    // compute the payment and the fee
    let same_custody = env.payment_custody_address == env.pricing_custody_address;
    let payment = payment_amount(fill_price, fill_amount, same_custody, pricing_price, payment_price,
        env.pricing_decimals, payment_custody.decimals)?;
    let fee_amount = if fill_price > 0 {
        launchpad.fees.trade.get_fee_amount(payment)?
    } else {
        0
    };
    if payment.checked_add(fee_amount).is_none() {
        return Err(LaunchpadError::MathOverflow);
    }
    let collected = match payment_custody.collected_fees.checked_add(fee_amount) {
        Some(v) => v,
        None => return Err(LaunchpadError::MathOverflow),
    };
    let fee_usd = fee_value_usd(fee_amount, payment_price, payment_custody.decimals)?;

    // update the records, committing only once every step has succeeded
    let mut new_bid = *bid;
    new_bid.record_fill(env.buyer, env.auction_address, env.bid_bump, params.price, params.amount,
        params.bid_type, curtime, fill_amount, fill_price)?;
    let mut new_balance = *seller_balance;
    new_balance.credit(auction.owner, env.payment_custody_address, env.seller_balance_bump, payment)?;
    let mut stats = auction.stats;
    stats.record_trade(new_bid.whitelisted, curtime, fill_amount, fill_price)?;
    let dispense_amount = checked_mul(fill_amount, auction.pricing.unit_size)?;

    *bid = new_bid;
    *seller_balance = new_balance;
    auction.stats = stats;
    payment_custody.collected_fees = collected;
    launchpad.collected_fees.trade_usdc = launchpad.collected_fees.trade_usdc.wrapping_add(fee_usd);

    Ok(BidOutcome::Filled {
        token_num,
        fill_amount,
        fill_price,
        payment_amount: payment,
        fee_amount,
        dispense_amount,
    })
}

/// The sum of `s`.
pub open spec fn total(s: Seq<int>) -> int
    decreases s.len(),
{
    if s.len() == 0 {
        0
    } else {
        total(s.drop_last()) + s.last()
    }
}

/// Over any run of accepted bids, where each step conserves value as
/// `place_bid` guarantees, the sellers' balances plus the collected fees
/// grow by exactly the payments transferred in; from empty balances and no
/// fees they never exceed that sum.
pub proof fn lemma_conservation(balances: Seq<int>, fees: Seq<int>, paid: Seq<int>)
    requires
        balances.len() == paid.len() + 1,
        fees.len() == paid.len() + 1,
        forall|i: int| 0 <= i < paid.len() ==> #[trigger] conserves(balances[i], fees[i], balances[i + 1], fees[i + 1], paid[i]),
    ensures
        balances.last() + fees.last() == balances[0] + fees[0] + total(paid),
        balances[0] == 0 && fees[0] == 0 ==> balances.last() + fees.last() <= total(paid),
    decreases paid.len(),
{
    if paid.len() > 0 {
        let n = paid.len() - 1;
        let b = balances.drop_last();
        let f = fees.drop_last();
        let p = paid.drop_last();
        assert forall|i: int| 0 <= i < p.len() implies #[trigger] conserves(b[i], f[i], b[i + 1], f[i + 1], p[i]) by {
            assert(conserves(balances[i], fees[i], balances[i + 1], fees[i + 1], paid[i]));
        }
        lemma_conservation(b, f, p);
        assert(conserves(balances[n], fees[n], balances[n + 1], fees[n + 1], paid[n]));
    }
}

} // verus!
