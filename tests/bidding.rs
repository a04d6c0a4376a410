use launchpad::address::Address;
use launchpad::auction::{AmountFunction, Auction, PricingModel, RepriceFunction};
use launchpad::bid::{Bid, BidType};
use launchpad::custody::Custody;
use launchpad::error::LaunchpadError;
use launchpad::launchpad::{Fee, Launchpad};
use launchpad::oracle::OraclePrice;
use launchpad::place_bid::{
    check_account_counts, check_single_instruction, compute_fill, payment_amount, place_bid,
    select_token, BidEnvironment, BidOutcome, PlaceBidParams, TokenAccount,
};
use launchpad::pricing::RepriceStep;
use launchpad::seller_balance::SellerBalance;

const BUYER: [u8; 32] = [1; 32];
const SELLER: [u8; 32] = [2; 32];
const AUCTION: [u8; 32] = [3; 32];
const DISPENSER: [u8; 32] = [4; 32];
const MINT: [u8; 32] = [5; 32];
const CUSTODY: [u8; 32] = [6; 32];

fn fixture() -> Auction {
    let mut auction = Auction {
        creation_time: 100,
        ..Default::default()
    };
    auction.owner = Address::new(SELLER);
    auction.common.name = "test_auction".to_string();
    auction.common.start_time = 350;
    auction.common.end_time = 500;
    auction.common.presale_start_time = 200;
    auction.common.presale_end_time = 300;
    auction.common.order_limit_reg_address = 1000;
    auction.common.fill_limit_reg_address = 1000;
    auction.pricing.pricing_model = PricingModel::DynamicDutchAuction;
    auction.pricing.start_price = 1000;
    auction.pricing.max_price = 2000;
    auction.pricing.min_price = 50;
    auction.pricing.reprice_delay = 10;
    auction.pricing.reprice_coef_bits = 0.05f64.to_bits();
    auction.pricing.reprice_function = RepriceFunction::Exponential;
    auction.pricing.amount_function = AmountFunction::Fixed;
    auction.pricing.amount_per_level = 20;
    auction.pricing.tick_size = 10;
    auction.pricing.unit_size = 100;
    auction.pricing.custody = Address::new(CUSTODY);
    auction.payment.accept_sol = true;
    auction.tokens[0].account = Address::new(DISPENSER);
    auction.num_tokens = 1;
    auction
}

fn decay_factor(auction: &Auction, curtime: i64) -> u128 {
    match auction.get_reprice_step(curtime).unwrap() {
        RepriceStep::Frozen { .. } => 0,
        RepriceStep::Decay { elapsed, duration, .. } => {
            let step = elapsed as f64 / duration as f64;
            let coef = f64::from_bits(auction.pricing.reprice_coef_bits);
            (f64::exp(-coef * (step * 100f64)) * 10000.0) as u128
        }
    }
}

fn launchpad_with_fees(trade: Fee, invalid_bid: Fee) -> Launchpad {
    let mut launchpad = Launchpad::default();
    launchpad.permissions.allow_new_bids = true;
    launchpad.fees.trade = trade;
    launchpad.fees.invalid_bid = invalid_bid;
    launchpad
}

fn env(auction: &Auction, curtime: i64) -> BidEnvironment {
    BidEnvironment {
        buyer: Address::new(BUYER),
        auction_address: Address::new(AUCTION),
        payment_custody_address: Address::new(CUSTODY),
        pricing_custody_address: Address::new(CUSTODY),
        pricing_decimals: 6,
        instruction_index: 0,
        has_next_instruction: false,
        funding_amount: 1_000_000,
        bid_bump: 7,
        seller_balance_bump: 8,
        curtime,
        decay_factor: decay_factor(auction, curtime),
    }
}

fn receiving() -> Vec<TokenAccount> {
    vec![TokenAccount {
        address: Address::new([9; 32]),
        owner: Address::new(BUYER),
        mint: Address::new(MINT),
        amount: 0,
    }]
}

fn dispensing(amount: u64) -> Vec<TokenAccount> {
    vec![TokenAccount {
        address: Address::new(DISPENSER),
        owner: Address::new(AUCTION),
        mint: Address::new(MINT),
        amount,
    }]
}

struct Records {
    launchpad: Launchpad,
    auction: Auction,
    bid: Bid,
    seller_balance: SellerBalance,
    custody: Custody,
}

fn records(launchpad: Launchpad) -> Records {
    Records {
        launchpad,
        auction: fixture(),
        bid: Bid::default(),
        seller_balance: SellerBalance::default(),
        custody: Custody { decimals: 6, ..Default::default() },
    }
}

fn bid_in(r: &mut Records, env: &BidEnvironment, params: &PlaceBidParams, inventory: u64) -> Result<BidOutcome, LaunchpadError> {
    place_bid(
        &mut r.launchpad,
        &mut r.auction,
        &mut r.bid,
        &mut r.seller_balance,
        &mut r.custody,
        env,
        &receiving(),
        &dispensing(inventory),
        &vec![0u8; 32],
        None,
        Some(OraclePrice::new(100_000_000, -8)),
        params,
    )
}

#[test]
fn fok_bid_over_available_fails_and_changes_nothing() {
    let mut r = records(launchpad_with_fees(Fee::new(1, 100), Fee::new(0, 1)));
    let e = env(&r.auction, 400);
    // at t=400 the best offer is 240 and one level (20 units) is available there
    let params = PlaceBidParams { price: 240, amount: 21, bid_type: BidType::Fok };
    let result = bid_in(&mut r, &e, &params, 100_000);
    assert_eq!(Err(LaunchpadError::InsufficientAmount), result);
    assert_eq!(0, r.bid.filled);
    assert_eq!(0, r.seller_balance.balance);
    assert_eq!(0, r.custody.collected_fees);
    assert_eq!(0, r.auction.stats.last_trade_time);
}

#[test]
fn ioc_bid_fills_what_is_available() {
    let mut r = records(launchpad_with_fees(Fee::new(1, 100), Fee::new(0, 1)));
    let e = env(&r.auction, 400);
    let params = PlaceBidParams { price: 240, amount: 21, bid_type: BidType::Ioc };
    let result = bid_in(&mut r, &e, &params, 100_000).unwrap();
    assert_eq!(
        BidOutcome::Filled {
            token_num: 0,
            fill_amount: 20,
            fill_price: 240,
            payment_amount: 4800,
            fee_amount: 48,
            dispense_amount: 2000,
        },
        result
    );
    assert_eq!(20, r.bid.filled);
    assert_eq!(20, r.bid.fill_amount);
    assert_eq!(240, r.bid.fill_price);
    assert_eq!(7, r.bid.bump);
    assert!(r.bid.owner == Address::new(BUYER));
    assert_eq!(4800, r.seller_balance.balance);
    assert!(r.seller_balance.owner == Address::new(SELLER));
    assert_eq!(48, r.custody.collected_fees);
    // everything paid in is held by the seller or collected as fees
    assert_eq!(4800 + 48, r.seller_balance.balance + r.custody.collected_fees);
    // 48 raw units with 6 decimals at 1 USD are 48 USD micro-units
    assert_eq!(48, r.launchpad.collected_fees.trade_usdc);
    assert_eq!(400, r.auction.stats.first_trade_time);
    assert_eq!(400, r.auction.stats.last_trade_time);
    assert_eq!(20, r.auction.stats.last_amount);
    assert_eq!(240, r.auction.stats.last_price);
    assert_eq!(20, r.auction.stats.reg_bidders.fills_volume);
    assert_eq!(4800, r.auction.stats.reg_bidders.weighted_fills_sum);
    assert_eq!(1, r.auction.stats.reg_bidders.num_trades);
    // a second fill continues from the last trade
    let e2 = env(&r.auction, 400);
    let params2 = PlaceBidParams { price: 240, amount: 5, bid_type: BidType::Ioc };
    bid_in(&mut r, &e2, &params2, 98_000).unwrap();
    assert_eq!(25, r.bid.filled);
    assert_eq!(4800 + 1200, r.seller_balance.balance);
}

#[test]
fn bids_not_allowed() {
    let mut launchpad = launchpad_with_fees(Fee::new(0, 1), Fee::new(0, 1));
    launchpad.permissions.allow_new_bids = false;
    let mut r = records(launchpad);
    let e = env(&r.auction, 400);
    let params = PlaceBidParams { price: 240, amount: 1, bid_type: BidType::Ioc };
    assert_eq!(Err(LaunchpadError::BidsNotAllowed), bid_in(&mut r, &e, &params, 100_000));
}

#[test]
fn bid_must_be_alone_in_its_transaction() {
    let mut r = records(launchpad_with_fees(Fee::new(0, 1), Fee::new(0, 1)));
    let mut e = env(&r.auction, 400);
    e.has_next_instruction = true;
    let params = PlaceBidParams { price: 240, amount: 1, bid_type: BidType::Ioc };
    assert_eq!(Err(LaunchpadError::MustBeSingleInstruction), bid_in(&mut r, &e, &params, 100_000));
    let mut e = env(&r.auction, 400);
    e.instruction_index = 1;
    assert_eq!(Err(LaunchpadError::MustBeSingleInstruction), bid_in(&mut r, &e, &params, 100_000));
    assert_eq!(Ok(()), check_single_instruction(0, false));
}

#[test]
fn bid_input_errors() {
    let mut r = records(launchpad_with_fees(Fee::new(0, 1), Fee::new(0, 1)));
    let e = env(&r.auction, 400);
    let zero = PlaceBidParams { price: 240, amount: 0, bid_type: BidType::Ioc };
    assert_eq!(Err(LaunchpadError::InvalidTokenAmount), bid_in(&mut r, &e, &zero, 100_000));
    let large = PlaceBidParams { price: 240, amount: 1001, bid_type: BidType::Ioc };
    assert_eq!(Err(LaunchpadError::BidAmountTooLarge), bid_in(&mut r, &e, &large, 100_000));
    let cheap = PlaceBidParams { price: 49, amount: 1, bid_type: BidType::Ioc };
    assert_eq!(Err(LaunchpadError::BidPriceTooSmall), bid_in(&mut r, &e, &cheap, 100_000));
    let low = PlaceBidParams { price: 230, amount: 1, bid_type: BidType::Ioc };
    assert_eq!(Err(LaunchpadError::InsufficientAmount), bid_in(&mut r, &e, &low, 100_000));
    let late = env(&r.auction, 500);
    let params = PlaceBidParams { price: 2000, amount: 1, bid_type: BidType::Ioc };
    assert_eq!(Err(LaunchpadError::AuctionEnded), bid_in(&mut r, &late, &params, 100_000));
    // an empty dispenser
    assert_eq!(Err(LaunchpadError::InsufficientAmount), bid_in(&mut r, &e, &params, 99));
}

#[test]
fn early_bid_without_fee_fails() {
    let mut r = records(launchpad_with_fees(Fee::new(0, 1), Fee::new(0, 1)));
    // the presale is for whitelisted bidders only
    let e = env(&r.auction, 250);
    let params = PlaceBidParams { price: 2000, amount: 1, bid_type: BidType::Ioc };
    assert_eq!(Err(LaunchpadError::AuctionNotStarted), bid_in(&mut r, &e, &params, 100_000));
}

#[test]
fn early_bid_with_fee_is_penalized() {
    let mut r = records(launchpad_with_fees(Fee::new(0, 1), Fee::new(1, 10)));
    let e = env(&r.auction, 250);
    let params = PlaceBidParams { price: 2000, amount: 15, bid_type: BidType::Ioc };
    assert_eq!(Ok(BidOutcome::Penalized { fee_amount: 2 }), bid_in(&mut r, &e, &params, 100_000));
    assert_eq!(2, r.custody.collected_fees);
    assert_eq!(2, r.launchpad.collected_fees.invalid_bid_usdc);
    assert_eq!(0, r.bid.filled);
    assert_eq!(0, r.seller_balance.balance);
    assert_eq!(0, r.auction.stats.reg_bidders.num_trades);
    assert_eq!(0, r.auction.stats.last_trade_time);
}

#[test]
fn bid_over_fill_limit() {
    let mut r = records(launchpad_with_fees(Fee::new(0, 1), Fee::new(0, 1)));
    r.bid.filled = 1001;
    r.bid.bump = 3;
    r.bid.owner = Address::new(BUYER);
    r.bid.auction = Address::new(AUCTION);
    let e = env(&r.auction, 400);
    let params = PlaceBidParams { price: 240, amount: 1, bid_type: BidType::Ioc };
    assert_eq!(Err(LaunchpadError::FillAmountLimit), bid_in(&mut r, &e, &params, 100_000));
}

#[test]
fn bid_record_of_another_buyer() {
    let mut r = records(launchpad_with_fees(Fee::new(0, 1), Fee::new(0, 1)));
    r.bid.bump = 3;
    r.bid.owner = Address::new([42; 32]);
    r.bid.auction = Address::new(AUCTION);
    let e = env(&r.auction, 400);
    let params = PlaceBidParams { price: 240, amount: 1, bid_type: BidType::Ioc };
    assert_eq!(Err(LaunchpadError::InvalidBidAddress), bid_in(&mut r, &e, &params, 100_000));
    assert_eq!(0, r.seller_balance.balance);
}

#[test]
fn seller_balance_of_another_custody() {
    let mut r = records(launchpad_with_fees(Fee::new(0, 1), Fee::new(0, 1)));
    r.seller_balance.bump = 3;
    r.seller_balance.owner = Address::new(SELLER);
    r.seller_balance.custody = Address::new([42; 32]);
    let e = env(&r.auction, 400);
    let params = PlaceBidParams { price: 240, amount: 1, bid_type: BidType::Ioc };
    assert_eq!(Err(LaunchpadError::InvalidSellerBalanceAddress), bid_in(&mut r, &e, &params, 100_000));
    assert_eq!(0, r.bid.filled);
}

#[test]
fn account_errors() {
    assert_eq!(Err(LaunchpadError::NotEnoughAccountKeys), check_account_counts(1, 0, 0));
    assert_eq!(Err(LaunchpadError::NotEnoughAccountKeys), check_account_counts(1, 1, 2));
    assert_eq!(Err(LaunchpadError::TooManyAccountKeys), check_account_counts(1, 2, 2));
    assert_eq!(Err(LaunchpadError::NotEnoughAccountKeys), check_account_counts(3, 2, 2));
    assert_eq!(Ok(()), check_account_counts(2, 2, 2));

    let mut r = records(launchpad_with_fees(Fee::new(0, 1), Fee::new(0, 1)));
    let e = env(&r.auction, 400);
    let params = PlaceBidParams { price: 240, amount: 1, bid_type: BidType::Ioc };
    let mut wrong_owner = receiving();
    wrong_owner[0].owner = Address::new([42; 32]);
    let result = place_bid(&mut r.launchpad, &mut r.auction, &mut r.bid, &mut r.seller_balance,
        &mut r.custody, &e, &wrong_owner, &dispensing(100_000), &vec![], None, None, &params);
    assert_eq!(Err(LaunchpadError::IllegalOwner), result);
    let mut wrong_dispenser = dispensing(100_000);
    wrong_dispenser[0].address = Address::new([42; 32]);
    let result = place_bid(&mut r.launchpad, &mut r.auction, &mut r.bid, &mut r.seller_balance,
        &mut r.custody, &e, &receiving(), &wrong_dispenser, &vec![], None, None, &params);
    assert_eq!(Err(LaunchpadError::InvalidDispenserAddress), result);
    let mut wrong_mint = dispensing(100_000);
    wrong_mint[0].mint = Address::new([42; 32]);
    let result = place_bid(&mut r.launchpad, &mut r.auction, &mut r.bid, &mut r.seller_balance,
        &mut r.custody, &e, &receiving(), &wrong_mint, &vec![], None, None, &params);
    assert_eq!(Err(LaunchpadError::InvalidReceivingAddress), result);
}

#[test]
fn token_draw() {
    assert_eq!(Ok(0), select_token(1, &vec![], 1));
    assert_eq!(Err(LaunchpadError::InvalidAccountData), select_token(2, &vec![0u8; 19], 2));
    let mut hashes = vec![0u8; 20];
    hashes[12] = 7;
    assert_eq!(Ok(1), select_token(3, &hashes, 3));
    hashes[12] = 0;
    hashes[13] = 1; // 256 % 3 == 1
    assert_eq!(Ok(1), select_token(3, &hashes, 3));
    hashes[19] = 0x80; // 2^63 + 256
    assert_eq!(Ok(((1u64 << 63) + 256) as usize % 5), select_token(4, &hashes, 5));
}

#[test]
fn fill_computation() {
    let auction = fixture();
    let f = decay_factor(&auction, 400);
    let fok = PlaceBidParams { price: 250, amount: 40, bid_type: BidType::Fok };
    assert_eq!(Ok((40, 250)), compute_fill(&auction, &fok, 100_000, 400, f));
    // only 30 whole units in the dispenser
    assert_eq!(Err(LaunchpadError::InsufficientAmount), compute_fill(&auction, &fok, 3_000, 400, f));
    let ioc = PlaceBidParams { price: 250, amount: 40, bid_type: BidType::Ioc };
    assert_eq!(Ok((30, 250)), compute_fill(&auction, &ioc, 3_000, 400, f));
}

#[test]
fn cross_currency_payment() {
    // pricing token at 2 USD with 6 decimals, payment token at 0.5 USD with 9 decimals
    let pricing = OraclePrice::new(200_000_000, -8);
    let payment = OraclePrice::new(50_000_000, -8);
    // 240 raw units (6 decimals) of a 2 USD token are worth 0.00096 of a 0.5 USD token:
    // 960_000 raw units with 9 decimals, for each of the 20 units filled
    assert_eq!(Ok(960_000 * 20), payment_amount(240, 20, false, Some(pricing), Some(payment), 6, 9));
    assert_eq!(Ok(4800), payment_amount(240, 20, true, None, None, 6, 9));
    assert_eq!(Ok(0), payment_amount(0, 20, false, None, None, 6, 9));
    assert_eq!(Err(LaunchpadError::InvalidOracleAccount), payment_amount(240, 20, false, None, Some(payment), 6, 9));
}

#[test]
fn whitelisted_bid_uses_its_cohort_limits() {
    let mut r = records(launchpad_with_fees(Fee::new(0, 1), Fee::new(0, 1)));
    r.auction.common.order_limit_wl_address = 5;
    r.auction.common.order_limit_reg_address = 10;
    r.bid.whitelisted = true;
    r.bid.seller_initialized = true;
    r.bid.bump = 3;
    r.bid.owner = Address::new(BUYER);
    r.bid.auction = Address::new(AUCTION);
    let e = env(&r.auction, 400);
    let params = PlaceBidParams { price: 240, amount: 7, bid_type: BidType::Ioc };
    assert_eq!(Err(LaunchpadError::BidAmountTooLarge), bid_in(&mut r, &e, &params, 100_000));
    let params = PlaceBidParams { price: 240, amount: 5, bid_type: BidType::Ioc };
    // the whitelisted fill limit is zero, under what was already filled
    r.bid.filled = 1;
    assert_eq!(Err(LaunchpadError::FillAmountLimit), bid_in(&mut r, &e, &params, 100_000));
    r.auction.common.fill_limit_wl_address = 100;
    let filled = bid_in(&mut r, &e, &params, 100_000).unwrap();
    assert!(matches!(filled, BidOutcome::Filled { fill_amount: 5, .. }));
    assert_eq!(1, r.auction.stats.wl_bidders.num_trades);
    assert_eq!(0, r.auction.stats.reg_bidders.num_trades);
}
