use launchpad::address::{bid_address, Address};
use launchpad::auction::{Auction, AuctionStats, BidderStats, CommonParams, PricingModel, PricingParams};
use launchpad::bid::{cancel_bid, whitelist_add, whitelist_remove, Bid};
use launchpad::custody::{Custody, OracleType};
use launchpad::error::LaunchpadError;
use launchpad::instructions::{
    add_tokens, delete_auction, disable_auction, enable_auction, init_auction, remove_tokens,
    init, init_custody, set_test_time, test_init, update_auction, withdraw_fees, withdraw_funds, InitAuctionParams, InitParams, TestInitParams, UpdateAuctionParams,
};
use launchpad::launchpad::{Fee, Fees, Launchpad, Permissions};
use launchpad::math::{
    checked_add, checked_as_u64, checked_ceil_div, checked_decimal_ceil_mul, checked_decimal_mul,
    checked_div, checked_mul, checked_pow10, checked_sub,
};
use launchpad::oracle::OraclePrice;
use launchpad::place_bid::TokenAccount;
use launchpad::seller_balance::SellerBalance;

fn common() -> CommonParams {
    CommonParams {
        name: "test_auction".to_string(),
        start_time: 350,
        end_time: 500,
        presale_start_time: 200,
        presale_end_time: 300,
        fill_limit_reg_address: 10,
        fill_limit_wl_address: 20,
        order_limit_reg_address: 5,
        order_limit_wl_address: 10,
        ..Default::default()
    }
}

fn pricing() -> PricingParams {
    PricingParams {
        pricing_model: PricingModel::DynamicDutchAuction,
        start_price: 1000,
        max_price: 2000,
        min_price: 50,
        reprice_delay: 10,
        amount_per_level: 20,
        tick_size: 10,
        unit_size: 100,
        custody: Address::new([6; 32]),
        ..Default::default()
    }
}

fn auction() -> Auction {
    let mut a = Auction::default();
    a.owner = Address::new([2; 32]);
    a.common = common();
    a.pricing = pricing();
    a.payment.accept_usdc = true;
    a
}

#[test]
fn checked_arithmetic() {
    assert_eq!(Ok(5), checked_add(2, 3));
    assert_eq!(Err(LaunchpadError::MathOverflow), checked_add(u64::MAX, 1));
    assert_eq!(Err(LaunchpadError::MathOverflow), checked_sub(2, 3));
    assert_eq!(Ok(6), checked_mul(2, 3));
    assert_eq!(Err(LaunchpadError::MathOverflow), checked_div(1, 0));
    assert_eq!(Ok(3), checked_ceil_div(7, 3));
    assert_eq!(Ok(2), checked_ceil_div(6, 3));
    assert_eq!(Ok(0), checked_ceil_div(0, 3));
    assert_eq!(Ok(u64::MAX / 20 + 1), checked_ceil_div(u64::MAX, 20));
    assert_eq!(Err(LaunchpadError::MathOverflow), checked_as_u64(u64::MAX as u128 + 1));
    assert_eq!(Ok(1000), checked_pow10(3));
    assert_eq!(Err(LaunchpadError::MathOverflow), checked_pow10(39));
}

#[test]
fn decimal_products() {
    // 1.5 * 2.25 = 3.375, to two decimals rounded up and down
    assert_eq!(Ok(338), checked_decimal_ceil_mul(15, -1, 225, -2, -2));
    assert_eq!(Ok(337), checked_decimal_mul(15, -1, 225, -2, -2));
    // positive target power scales up
    assert_eq!(Ok(15_000), checked_decimal_mul(15, 0, 10, 0, -2));
    assert_eq!(Ok(0), checked_decimal_ceil_mul(0, -1, 225, -2, -2));
    assert_eq!(Err(LaunchpadError::MathOverflow), checked_decimal_mul(u64::MAX, 0, u64::MAX, 0, 0));
}

#[test]
fn fee_amounts() {
    let fee = Fee::new(1, 3);
    assert_eq!(Ok(4), fee.get_fee_amount(10));
    assert_eq!(Ok(3), fee.get_fee_amount(9));
    assert_eq!(Ok(0), Fee::new(0, 0).get_fee_amount(10));
    assert!(Fee::new(0, 5).is_zero());
    assert!(!fee.is_zero());
    assert_eq!(Err(LaunchpadError::MathOverflow), Fee::new(1, 0).get_fee_amount(10));
    assert_eq!(Err(LaunchpadError::MathOverflow), Fee::new(u64::MAX, 1).get_fee_amount(2));
    // the product needs u128 but the fee fits
    assert_eq!(Ok(u64::MAX / 2 + 1), Fee::new(u64::MAX, u64::MAX).get_fee_amount(u64::MAX / 2 + 1));
}

#[test]
fn launchpad_config() {
    let fees = Fees { new_auction: 5, auction_update: 1, invalid_bid: Fee::new(1, 10), trade: Fee::new(1, 100) };
    let mut l = Launchpad::new(Permissions::default(), fees, 1, 2).unwrap();
    assert!(l.validate());
    assert_eq!(0, l.collected_fees.trade_usdc);
    let bad = Fees { trade: Fee::new(100, 100), ..fees };
    assert_eq!(Err(LaunchpadError::InvalidLaunchpadConfig), Launchpad::new(Permissions::default(), bad, 1, 2));
    assert_eq!(Err(LaunchpadError::InvalidLaunchpadConfig), l.set_fees(bad));
    assert!(l.fees == fees);
    let perms = Permissions { allow_new_bids: true, ..Default::default() };
    assert_eq!(Ok(()), l.set_permissions(perms));
    assert!(l.permissions.allow_new_bids);
    assert_eq!(32, Launchpad::id().bytes.len());
}

#[test]
fn validation_is_repeatable() {
    let a = auction();
    assert!(a.validate(100));
    assert!(a.validate(100));
    let mut short = auction();
    short.common.name = "abc".to_string();
    assert!(!short.validate(100));
    let mut limits = auction();
    limits.common.order_limit_reg_address = 11;
    assert!(!limits.common.validate(100));
    let mut presale = auction();
    presale.common.presale_end_time = 360;
    assert!(!presale.common.validate(100));
    assert!(!auction().validate(500));
    // a window that has already started is refused
    assert!(!auction().common.validate(250));
    assert!(!auction().common.validate(200));
    let mut prices = auction();
    prices.pricing.start_price = 10;
    assert!(!prices.pricing.validate());
    let mut fixed = auction();
    fixed.pricing.pricing_model = PricingModel::Fixed;
    assert!(!fixed.pricing.validate());
    fixed.pricing.min_price = 1000;
    fixed.pricing.max_price = 1000;
    assert!(fixed.pricing.validate());
    let mut payment = auction();
    payment.payment.accept_usdc = false;
    assert!(!payment.payment.validate());
}

#[test]
fn cohort_windows() {
    let a = auction();
    assert_eq!(200, a.get_start_time(true));
    assert_eq!(350, a.get_start_time(false));
    assert_eq!(500, a.get_end_time(true));
    assert!(a.is_started(250, true));
    assert!(!a.is_started(250, false));
    assert!(a.is_ended(500, false) && a.is_ended(500, true));
    let mut late_presale = auction();
    late_presale.common.presale_end_time = 600;
    assert!(late_presale.is_ended(550, false));
    assert!(!late_presale.is_ended(550, true));
    let mut unset = auction();
    unset.common.presale_start_time = 0;
    assert_eq!(350, unset.get_start_time(true));
}

#[test]
fn clock() {
    let a = auction();
    assert_eq!(Ok(0), a.get_time(true, 77));
    assert_eq!(Ok(77), a.get_time(false, 77));
    assert_eq!(Err(LaunchpadError::InvalidAccountData), a.get_time(false, 0));
}

#[test]
fn bidder_stats() {
    let mut s = AuctionStats::new();
    assert_eq!(u64::MAX, s.wl_bidders.min_fill_price);
    s.record_trade(true, 10, 5, 100).unwrap();
    s.record_trade(true, 20, 5, 80).unwrap();
    assert_eq!(10, s.first_trade_time);
    assert_eq!(20, s.last_trade_time);
    assert_eq!(80, s.wl_bidders.min_fill_price);
    assert_eq!(100, s.wl_bidders.max_fill_price);
    assert_eq!(900, s.wl_bidders.weighted_fills_sum);
    assert_eq!(2, s.wl_bidders.num_trades);
    assert_eq!(0, s.reg_bidders.num_trades);
    let mut saturated = BidderStats { num_trades: u64::MAX, ..Default::default() };
    saturated.record_fill(1, 1).unwrap();
    assert_eq!(u64::MAX, saturated.num_trades);
    let mut full = BidderStats { fills_volume: u64::MAX, ..Default::default() };
    assert_eq!(Err(LaunchpadError::MathOverflow), full.record_fill(1, 1));
}

#[test]
fn whitelist() {
    let auction_key = Address::new([3; 32]);
    let existing = Bid { owner: Address::new([8; 32]), bump: 5, ..Default::default() };
    let mut bids = vec![Bid::default(), existing];
    let owners = vec![Address::new([7; 32]), Address::new([8; 32])];
    assert_eq!(Err(LaunchpadError::NotEnoughAccountKeys), whitelist_add(&mut bids, &vec![], &vec![], auction_key));
    whitelist_add(&mut bids, &owners, &vec![9, 9], auction_key).unwrap();
    assert!(bids[0].whitelisted && bids[0].seller_initialized);
    assert!(bids[0].owner == owners[0]);
    assert_eq!(9, bids[0].bump);
    assert!(bids[1].whitelisted && !bids[1].seller_initialized);
    assert_eq!(5, bids[1].bump);
}

#[test]
fn whitelist_removal_checks_addresses() {
    let program = Launchpad::id();
    let auction_key = Address::new([3; 32]);
    let owner = Address::new([7; 32]);
    // find a bump under which the address is off the curve
    let mut found = None;
    for bump in (0..=255u8).rev() {
        if let Some(key) = bid_address(&owner, &auction_key, bump, &program) {
            found = Some((bump, key));
            break;
        }
    }
    let (bump, key) = found.unwrap();
    assert!(!(key == owner));
    let bid = Bid { owner, auction: auction_key, whitelisted: true, seller_initialized: true, bump, ..Default::default() };
    let mut bids = vec![bid];
    assert_eq!(Err(LaunchpadError::InvalidBidAddress), whitelist_remove(&mut bids, &vec![owner], auction_key, program, false));
    assert!(bids[0].whitelisted);
    assert_eq!(Ok(vec![false]), whitelist_remove(&mut bids, &vec![key], auction_key, program, false));
    assert!(!bids[0].whitelisted);
    let mut ended = vec![bid];
    assert_eq!(Ok(vec![true]), whitelist_remove(&mut ended, &vec![key], auction_key, program, true));
    assert_eq!(Err(LaunchpadError::NotEnoughAccountKeys), whitelist_remove(&mut vec![], &vec![], auction_key, program, true));
}

#[test]
fn cancelling_bids() {
    let a = auction();
    let buyer = Address::new([7; 32]);
    let bid = Bid { owner: buyer, ..Default::default() };
    assert_eq!(Err(LaunchpadError::AuctionInProgress), cancel_bid(&a, &bid, &buyer, 400));
    assert_eq!(Ok(()), cancel_bid(&a, &bid, &buyer, 500));
    assert_eq!(Err(LaunchpadError::IllegalOwner), cancel_bid(&a, &bid, &a.owner, 500));
    let seller_made = Bid { seller_initialized: true, ..bid };
    assert_eq!(Ok(()), cancel_bid(&a, &seller_made, &a.owner, 500));
    assert_eq!(Err(LaunchpadError::IllegalOwner), cancel_bid(&a, &seller_made, &buyer, 500));
}

#[test]
fn custody_and_seller_withdrawals() {
    let mut c = Custody::default();
    init_custody(&mut c, Address::new([5; 32]), Address::new([6; 32]), 6, OracleType::Test, Address::new([7; 32]), 0, 60, 1).unwrap();
    assert_eq!(Err(LaunchpadError::AccountAlreadyInitialized),
        init_custody(&mut c, Address::new([5; 32]), Address::new([6; 32]), 6, OracleType::Test, Address::new([7; 32]), 0, 60, 1));
    c.collected_fees = 10;
    assert_eq!(Err(LaunchpadError::InvalidTokenAmount), withdraw_fees(&mut c, 0));
    assert_eq!(Err(LaunchpadError::InsufficientFunds), withdraw_fees(&mut c, 11));
    assert_eq!(Ok(4), withdraw_fees(&mut c, 4));
    assert_eq!(6, c.collected_fees);

    let mut l = Launchpad::default();
    let mut s = SellerBalance { balance: 10, ..Default::default() };
    assert_eq!(Err(LaunchpadError::WithdrawalsNotAllowed), withdraw_funds(&l, &mut s, 1));
    l.permissions.allow_withdrawals = true;
    assert_eq!(Err(LaunchpadError::InsufficientFunds), withdraw_funds(&l, &mut s, 11));
    assert_eq!(Ok(10), withdraw_funds(&l, &mut s, 10));
    assert_eq!(0, s.balance);
    let mut fresh = SellerBalance::default();
    fresh.credit(Address::new([2; 32]), Address::new([6; 32]), 4, 50).unwrap();
    assert_eq!(50, fresh.balance);
    assert_eq!(Err(LaunchpadError::InvalidSellerBalanceAddress), fresh.credit(Address::new([1; 32]), Address::new([6; 32]), 4, 50));
}

#[test]
fn oracle_prices() {
    assert_eq!(Err(LaunchpadError::StaleOraclePrice), OraclePrice::new_from_sample(5, -2, 10, 5, 16));
    assert_eq!(Err(LaunchpadError::InvalidOraclePrice), OraclePrice::new_from_sample(0, -2, 10, 5, 15));
    assert_eq!(Ok(OraclePrice::new(5, -2)), OraclePrice::new_from_sample(5, -2, 10, 5, 15));
    let sol = OraclePrice::new(2_000_000_000, -8);
    let usdc = OraclePrice::new(100_000_000, -8);
    assert_eq!(Ok(OraclePrice::new(20_000_000, -6)), sol.checked_div(&usdc));
    assert_eq!(Err(LaunchpadError::MathOverflow), sol.checked_div(&OraclePrice::new(0, 0)));
    // 1.5 SOL (9 decimals) at 20 USD is 30 USD
    assert_eq!(Ok(30_000_000), sol.get_asset_value_usd(1_500_000_000, 9));
}

#[test]
fn auction_lifecycle() {
    let mut l = Launchpad::default();
    let params = InitAuctionParams {
        enabled: true,
        updatable: true,
        fixed_amount: false,
        common: common(),
        payment: Default::default(),
        pricing: pricing(),
        token_ratios: [3, 4, 0, 0],
    };
    let dispensers = vec![Address::new([10; 32]), Address::new([11; 32])];
    let custody = Address::new([6; 32]);
    assert_eq!(Err(LaunchpadError::NewAuctionsNotAllowed).map(|_: ()| ()),
        init_auction(&mut l, Address::new([2; 32]), &params, &dispensers, &custody, 1, 100).map(|_| ()));
    l.permissions.allow_new_auctions = true;
    l.fees.new_auction = 9;
    // no payment mode accepted
    assert_eq!(Err(LaunchpadError::InvalidAuctionConfig),
        init_auction(&mut l, Address::new([2; 32]), &params, &dispensers, &custody, 1, 100).map(|_| ()));
    assert_eq!(0, l.collected_fees.new_auction_sol);
    let mut p = params.clone();
    p.payment.accept_sol = true;
    assert_eq!(Err(LaunchpadError::InvalidPricingConfig),
        init_auction(&mut l, Address::new([2; 32]), &p, &dispensers, &Address::new([1; 32]), 1, 100).map(|_| ()));
    assert_eq!(Err(LaunchpadError::NotEnoughAccountKeys),
        init_auction(&mut l, Address::new([2; 32]), &p, &vec![], &custody, 1, 100).map(|_| ()));
    let twice = vec![Address::new([10; 32]), Address::new([11; 32]), Address::new([10; 32])];
    assert_eq!(Err(LaunchpadError::InvalidDispenserAddress),
        init_auction(&mut l, Address::new([2; 32]), &p, &twice, &custody, 1, 100).map(|_| ()));
    let five = vec![Address::new([10; 32]); 5];
    assert_eq!(Err(LaunchpadError::TooManyAccountKeys),
        init_auction(&mut l, Address::new([2; 32]), &p, &five, &custody, 1, 100).map(|_| ()));
    let (mut a, fee) = init_auction(&mut l, Address::new([2; 32]), &p, &dispensers, &custody, 1, 100).unwrap();
    assert_eq!(9, fee);
    assert_eq!(9, l.collected_fees.new_auction_sol);
    assert_eq!(2, a.num_tokens);
    assert_eq!(4, a.tokens[1].ratio);
    assert!(a.tokens[1].account == dispensers[1]);
    assert!(a.tokens[2].account == Address::zero());
    assert_eq!(u64::MAX, a.stats.reg_bidders.min_fill_price);

    disable_auction(&mut a);
    assert!(!a.enabled);
    enable_auction(&mut a);
    assert!(a.enabled);

    let update = UpdateAuctionParams { common: common(), payment: p.payment, pricing: pricing(), token_ratios: [1, 2, 3, 4] };
    assert_eq!(Err(LaunchpadError::AuctionUpdatesNotAllowed), update_auction(&l, &mut a, &update, 120));
    l.permissions.allow_auction_updates = true;
    assert_eq!(Ok(()), update_auction(&l, &mut a, &update, 120));
    assert_eq!(120, a.update_time);
    assert_eq!(2, a.tokens[1].ratio);
    assert_eq!(0, a.tokens[2].ratio);
    let mut bad = update.clone();
    bad.pricing.tick_size = 0;
    assert_eq!(Err(LaunchpadError::InvalidAuctionConfig), update_auction(&l, &mut a, &bad, 130));
    assert_eq!(120, a.update_time);
    a.updatable = false;
    assert_eq!(Err(LaunchpadError::AuctionNotUpdatable), update_auction(&l, &mut a, &update, 130));

    assert_eq!(Ok(()), add_tokens(&l, &a, 100));
    assert_eq!(Err(LaunchpadError::AuctionRefillsNotAllowed), add_tokens(&l, &a, 250));
    assert_eq!(Err(LaunchpadError::AuctionPullOutsNotAllowed), remove_tokens(&l, &a, 250));
    assert_eq!(Ok(()), remove_tokens(&l, &a, 500));
    a.fixed_amount = true;
    assert_eq!(Err(LaunchpadError::AuctionWithFixedAmount), add_tokens(&l, &a, 100));

    assert_eq!(Err(LaunchpadError::InvalidEnvironment), set_test_time(&mut a, false, 5));
    assert_eq!(Ok(()), set_test_time(&mut a, true, 5));
    assert_eq!(5, a.creation_time);
}

#[test]
fn auction_deletion() {
    let program = Launchpad::id();
    let empty = TokenAccount { owner: program, ..Default::default() };
    assert_eq!(Ok(()), delete_auction(&vec![empty, empty], &program));
    let full = TokenAccount { amount: 1, ..empty };
    assert_eq!(Err(LaunchpadError::AuctionNotEmpty), delete_auction(&vec![empty, full], &program));
    let foreign = TokenAccount { owner: Address::new([1; 32]), ..full };
    assert_eq!(Err(LaunchpadError::IllegalOwner), delete_auction(&vec![full, foreign], &program));
}

#[test]
fn error_messages() {
    assert_eq!("Fill limit exceeded", LaunchpadError::FillAmountLimit.message());
    assert_eq!("Overflow in arithmetic operation", LaunchpadError::MathOverflow.message());
}

#[test]
fn launchpad_initialisation() {
    let params = InitParams {
        allow_new_auctions: true,
        allow_auction_updates: true,
        allow_new_bids: true,
        allow_withdrawals: false,
        new_auction_fee: 100,
        auction_update_fee: 10,
        invalid_bid_fee: Fee::new(1, 100),
        trade_fee: Fee::new(5, 1000),
    };
    let l = init(&params, 254, 253).unwrap();
    assert!(l.permissions.allow_new_bids && !l.permissions.allow_auction_refills);
    assert_eq!(100, l.fees.new_auction);
    assert_eq!(254, l.transfer_authority_bump);
    let bad = InitParams { trade_fee: Fee::new(1, 1), ..params };
    assert_eq!(Err(LaunchpadError::InvalidLaunchpadConfig), init(&bad, 254, 253));

    let test_params = TestInitParams {
        allow_new_auctions: true,
        allow_auction_updates: true,
        allow_auction_refills: true,
        allow_auction_pullouts: true,
        allow_new_bids: true,
        allow_withdrawals: true,
        new_auction_fee: 100,
        auction_update_fee: 10,
        invalid_bid_fee: Fee::new(1, 100),
        trade_fee: Fee::new(5, 1000),
    };
    assert_eq!(Err(LaunchpadError::InvalidEnvironment), test_init(false, &test_params, 1, 2));
    let l = test_init(true, &test_params, 1, 2).unwrap();
    assert!(l.permissions.allow_auction_pullouts);
    assert_eq!(2, l.launchpad_bump);
}
