//! The auction record: its parameters, their validation, and its time window.

use vstd::prelude::*;

use crate::address::Address;
use crate::error::LaunchpadError;

verus! {

/// Fill statistics of one cohort of bidders (whitelisted or regular).
#[derive(Clone, Copy, Debug, Default, PartialEq, Eq, Structural)]
pub struct BidderStats {
    pub fills_volume: u64,
    pub weighted_fills_sum: u128,
    pub min_fill_price: u64,
    pub max_fill_price: u64,
    pub num_trades: u64,
}

/// Trading statistics of an auction.
#[derive(Clone, Copy, Debug, Default, PartialEq, Eq, Structural)]
pub struct AuctionStats {
    pub first_trade_time: i64,
    pub last_trade_time: i64,
    pub last_amount: u64,
    pub last_price: u64,
    pub wl_bidders: BidderStats,
    pub reg_bidders: BidderStats,
}

/// Descriptive parameters, the sale windows and the per-address limits.
#[derive(Clone, Debug, Default)]
pub struct CommonParams {
    pub name: String,
    pub description: String,
    pub about_seller: String,
    pub seller_link: String,
    pub start_time: i64,
    pub end_time: i64,
    pub presale_start_time: i64,
    pub presale_end_time: i64,
    pub fill_limit_reg_address: u64,
    pub fill_limit_wl_address: u64,
    pub order_limit_reg_address: u64,
    pub order_limit_wl_address: u64,
}

/// Which payment currencies an auction accepts.
#[derive(Clone, Copy, Debug, Default, PartialEq, Eq, Structural)]
pub struct PaymentParams {
    pub accept_sol: bool,
    pub accept_usdc: bool,
    pub accept_other_tokens: bool,
}

#[derive(Clone, Copy, Debug, PartialEq, Eq, Structural)]
pub enum PricingModel {
    Fixed,
    DynamicDutchAuction,
}

impl Default for PricingModel {
    fn default() -> (r: Self)
        ensures
            r == PricingModel::Fixed,
    {
        PricingModel::Fixed
    }
}

#[derive(Clone, Copy, Debug, PartialEq, Eq, Structural)]
pub enum RepriceFunction {
    Linear,
    Exponential,
}

impl Default for RepriceFunction {
    fn default() -> (r: Self)
        ensures
            r == RepriceFunction::Linear,
    {
        RepriceFunction::Linear
    }
}

#[derive(Clone, Copy, Debug, PartialEq, Eq, Structural)]
pub enum AmountFunction {
    Fixed,
}

impl Default for AmountFunction {
    fn default() -> (r: Self)
        ensures
            r == AmountFunction::Fixed,
    {
        AmountFunction::Fixed
    }
}

/// Parameters of the pricing curve.
///
/// `reprice_coef_bits` holds the bit pattern of the IEEE-754 double that
/// steers the exponential decay; only the decay step reads it.
#[derive(Clone, Copy, Debug, Default)]
pub struct PricingParams {
    pub custody: Address,
    pub pricing_model: PricingModel,
    pub start_price: u64,
    pub max_price: u64,
    pub min_price: u64,
    pub reprice_delay: i64,
    pub reprice_coef_bits: u64,
    pub reprice_function: RepriceFunction,
    pub amount_function: AmountFunction,
    pub amount_per_level: u64,
    pub tick_size: u64,
    pub unit_size: u64,
}

/// One dispensable token: its draw weight and its dispensing account.
#[derive(Clone, Copy, Debug, Default)]
pub struct AuctionToken {
    pub ratio: u64,
    pub account: Address,
}

/// Most tokens that one auction can offer.
pub const MAX_TOKENS: usize = 4;

#[derive(Clone, Debug, Default)]
pub struct Auction {
    pub owner: Address,
    pub enabled: bool,
    pub updatable: bool,
    pub fixed_amount: bool,
    pub common: CommonParams,
    pub payment: PaymentParams,
    pub pricing: PricingParams,
    pub stats: AuctionStats,
    pub tokens: [AuctionToken; 4],
    pub num_tokens: u8,
    /// Time of creation; under the test configuration it also stands for
    /// the current time.
    pub creation_time: i64,
    pub update_time: i64,
    pub bump: u8,
}

impl BidderStats {
    /// The cohort's statistics after a fill of `amount` at `price`; `None`
    /// where the volume or the weighted sum would overflow.
    pub open spec fn spec_record_fill(self, amount: u64, price: u64) -> Option<BidderStats> {
        if self.fills_volume + amount > u64::MAX || self.weighted_fills_sum + amount * price > u128::MAX {
            None
        } else {
            Some(
                BidderStats {
                    fills_volume: (self.fills_volume + amount) as u64,
                    weighted_fills_sum: (self.weighted_fills_sum + amount * price) as u128,
                    min_fill_price: if price < self.min_fill_price { price } else { self.min_fill_price },
                    max_fill_price: if price > self.max_fill_price { price } else { self.max_fill_price },
                    num_trades: if self.num_trades == u64::MAX { u64::MAX } else { (self.num_trades + 1) as u64 },
                },
            )
        }
    }

    /// Adds a fill of `amount` at `price`. The trade count saturates.
    pub fn record_fill(&mut self, amount: u64, price: u64) -> (r: Result<(), LaunchpadError>)
        ensures
            match old(self).spec_record_fill(amount, price) {
                Some(s) => r is Ok && *final(self) == s,
                None => r == Err::<(), LaunchpadError>(LaunchpadError::MathOverflow) && *final(self) == *old(self),
            },
    {
        let fills_volume = match self.fills_volume.checked_add(amount) {
            Some(v) => v,
            None => return Err(LaunchpadError::MathOverflow),
        };
        proof {
            vstd::arithmetic::mul::lemma_mul_upper_bound(amount as int, u64::MAX as int, price as int, u64::MAX as int);
        }
        let weighted = match self.weighted_fills_sum.checked_add(amount as u128 * price as u128) {
            Some(v) => v,
            None => return Err(LaunchpadError::MathOverflow),
        };
        self.fills_volume = fills_volume;
        self.weighted_fills_sum = weighted;
        if price < self.min_fill_price {
            self.min_fill_price = price;
        }
        if price > self.max_fill_price {
            self.max_fill_price = price;
        }
        self.num_trades = self.num_trades.saturating_add(1);
        Ok(())
    }
}

impl AuctionStats {
    pub open spec fn spec_new() -> AuctionStats {
        AuctionStats {
            first_trade_time: 0,
            last_trade_time: 0,
            last_amount: 0,
            last_price: 0,
            wl_bidders: BidderStats { fills_volume: 0, weighted_fills_sum: 0, min_fill_price: u64::MAX, max_fill_price: 0, num_trades: 0 },
            reg_bidders: BidderStats { fills_volume: 0, weighted_fills_sum: 0, min_fill_price: u64::MAX, max_fill_price: 0, num_trades: 0 },
        }
    }

    /// Statistics of an auction that has not traded: the lowest fill
    /// prices start at `u64::MAX` so that the first fill sets them.
    pub fn new() -> (r: AuctionStats)
        ensures
            r == AuctionStats::spec_new(),
    {
        let empty = BidderStats { fills_volume: 0, weighted_fills_sum: 0, min_fill_price: u64::MAX, max_fill_price: 0, num_trades: 0 };
        AuctionStats {
            first_trade_time: 0,
            last_trade_time: 0,
            last_amount: 0,
            last_price: 0,
            wl_bidders: empty,
            reg_bidders: empty,
        }
    }

    /// The statistics after a fill of `amount` at `price` at `curtime` by a
    /// bidder of the given cohort.
    pub open spec fn spec_record_trade(self, whitelisted: bool, curtime: i64, amount: u64, price: u64) -> Option<AuctionStats> {
        let cohort = if whitelisted { self.wl_bidders } else { self.reg_bidders };
        match cohort.spec_record_fill(amount, price) {
            None => None,
            Some(c) => Some(
                AuctionStats {
                    first_trade_time: if self.first_trade_time == 0 { curtime } else { self.first_trade_time },
                    last_trade_time: curtime,
                    last_amount: amount,
                    last_price: price,
                    wl_bidders: if whitelisted { c } else { self.wl_bidders },
                    reg_bidders: if whitelisted { self.reg_bidders } else { c },
                },
            ),
        }
    }

    pub fn record_trade(&mut self, whitelisted: bool, curtime: i64, amount: u64, price: u64) -> (r: Result<(), LaunchpadError>)
        ensures
            match old(self).spec_record_trade(whitelisted, curtime, amount, price) {
                Some(s) => r is Ok && *final(self) == s,
                None => r == Err::<(), LaunchpadError>(LaunchpadError::MathOverflow) && *final(self) == *old(self),
            },
    {
        let mut cohort = if whitelisted { self.wl_bidders } else { self.reg_bidders };
        cohort.record_fill(amount, price)?;
        if self.first_trade_time == 0 {
            self.first_trade_time = curtime;
        }
        self.last_trade_time = curtime;
        self.last_amount = amount;
        self.last_price = price;
        if whitelisted {
            self.wl_bidders = cohort;
        } else {
            self.reg_bidders = cohort;
        }
        Ok(())
    }
}

impl CommonParams {
    /// A copy of the parameters, strings included.
    pub fn duplicate(&self) -> (r: CommonParams)
        ensures
            r == *self,
    {
        CommonParams {
            name: self.name.clone(),
            description: self.description.clone(),
            about_seller: self.about_seller.clone(),
            seller_link: self.seller_link.clone(),
            ..*self
        }
    }

    pub open spec fn spec_validate(&self, curtime: i64) -> bool {
        &&& self.fill_limit_reg_address >= self.order_limit_reg_address
        &&& self.fill_limit_wl_address >= self.order_limit_wl_address
        &&& ((self.end_time == 0 && self.start_time == 0) || (self.end_time > self.start_time
            && self.start_time > curtime))
        &&& ((self.presale_end_time == 0 && self.presale_start_time == 0) || (
        self.presale_end_time > self.presale_start_time && self.presale_start_time > curtime && ((
        self.end_time == 0 && self.start_time == 0) || self.presale_end_time <= self.start_time)))
    }

    /// The limits are consistent and each window is either unset (both ends
    /// zero) or starts after `curtime` and ends after it starts; a presale
    /// ends no later than the main sale starts.
    pub fn validate(&self, curtime: i64) -> (r: bool)
        ensures
            r == self.spec_validate(curtime),
    {
        self.fill_limit_reg_address >= self.order_limit_reg_address
            && self.fill_limit_wl_address >= self.order_limit_wl_address
            && ((self.end_time == 0 && self.start_time == 0)
                || (self.end_time > self.start_time && self.start_time > curtime))
            && ((self.presale_end_time == 0 && self.presale_start_time == 0)
                || (self.presale_end_time > self.presale_start_time
                    && self.presale_start_time > curtime
                    && ((self.end_time == 0 && self.start_time == 0)
                        || self.presale_end_time <= self.start_time)))
    }
}

impl PaymentParams {
    pub open spec fn spec_validate(&self) -> bool {
        self.accept_sol || self.accept_usdc || self.accept_other_tokens
    }

    /// At least one payment mode is accepted.
    pub fn validate(&self) -> (r: bool)
        ensures
            r == self.spec_validate(),
    {
        self.accept_sol || self.accept_usdc || self.accept_other_tokens
    }
}

impl PricingParams {
    pub open spec fn spec_validate(&self) -> bool {
        &&& ((self.pricing_model == PricingModel::Fixed && self.min_price == self.start_price
            && self.max_price == self.start_price) || (self.pricing_model
            != PricingModel::Fixed && self.max_price >= self.start_price && self.max_price
            >= self.min_price && self.start_price >= self.min_price))
        &&& self.reprice_delay >= 0
        &&& (self.pricing_model == PricingModel::Fixed || (self.amount_per_level > 0
            && self.tick_size > 0))
        &&& self.unit_size > 0
    }

    /// `min_price <= start_price <= max_price` (all equal at a fixed price),
    /// a non-negative reprice delay, positive level and tick sizes for a
    /// Dutch auction, and a positive unit size.
    pub fn validate(&self) -> (r: bool)
        ensures
            r == self.spec_validate(),
    {
        ((self.pricing_model == PricingModel::Fixed && self.min_price == self.start_price
            && self.max_price == self.start_price) || (self.pricing_model
            != PricingModel::Fixed && self.max_price >= self.start_price && self.max_price
            >= self.min_price && self.start_price >= self.min_price)) && self.reprice_delay >= 0
            && (self.pricing_model == PricingModel::Fixed || (self.amount_per_level > 0
            && self.tick_size > 0)) && self.unit_size > 0
    }
}

/// Length in bytes of the UTF-8 encoding of `s`, as `str::len` reports it.
pub open spec fn utf8_len(s: Seq<char>) -> usize {
    vstd::utf8::encode_utf8(s).len() as usize
}

impl Auction {
    pub open spec fn spec_validate(&self, curtime: i64) -> bool {
        &&& utf8_len(self.common.name@) >= 6
        &&& self.common.spec_validate(curtime)
        &&& self.payment.spec_validate()
        &&& self.pricing.spec_validate()
    }

    /// The name has at least six bytes and every group of parameters is
    /// valid at `curtime`. It reads the auction only.
    pub fn validate(&self, curtime: i64) -> (r: bool)
        ensures
            r == self.spec_validate(curtime),
    {
        self.common.name.as_str().len() >= 6 && self.common.validate(curtime)
            && self.payment.validate() && self.pricing.validate()
    }

    /// The current time: the stored creation time under the test
    /// configuration, else the platform clock, which must be positive.
    pub fn get_time(&self, test_mode: bool, clock_time: i64) -> (r: Result<i64, LaunchpadError>)
        ensures
            r == (if test_mode {
                Ok(self.creation_time)
            } else if clock_time > 0 {
                Ok(clock_time)
            } else {
                Err(LaunchpadError::InvalidAccountData)
            }),
    {
        if test_mode {
            Ok(self.creation_time)
        } else if clock_time > 0 {
            Ok(clock_time)
        } else {
            Err(LaunchpadError::InvalidAccountData)
        }
    }

    pub open spec fn spec_start_time(&self, whitelisted: bool) -> i64 {
        if whitelisted && self.common.presale_start_time > 0 {
            self.common.presale_start_time
        } else {
            self.common.start_time
        }
    }

    pub open spec fn spec_end_time(&self, whitelisted: bool) -> i64 {
        if whitelisted && self.common.presale_end_time > self.common.end_time {
            self.common.presale_end_time
        } else {
            self.common.end_time
        }
    }

    pub open spec fn spec_is_started(&self, curtime: i64, whitelisted: bool) -> bool {
        self.spec_start_time(whitelisted) > 0 && curtime >= self.spec_start_time(whitelisted)
    }

    pub open spec fn spec_is_ended(&self, curtime: i64, whitelisted: bool) -> bool {
        curtime >= self.spec_end_time(whitelisted)
    }

    /// Start of the sale for a cohort: the presale start for whitelisted
    /// bidders where one is set, else the main start.
    pub fn get_start_time(&self, whitelisted: bool) -> (r: i64)
        ensures
            r == self.spec_start_time(whitelisted),
    {
        if whitelisted {
            if self.common.presale_start_time > 0 {
                self.common.presale_start_time
            } else {
                self.common.start_time
            }
        } else {
            self.common.start_time
        }
    }

    /// End of the sale for a cohort: the later of the two ends for
    /// whitelisted bidders, else the main end.
    pub fn get_end_time(&self, whitelisted: bool) -> (r: i64)
        ensures
            r == self.spec_end_time(whitelisted),
            whitelisted ==> r >= self.common.presale_end_time && r >= self.common.end_time,
    {
        if whitelisted {
            if self.common.presale_end_time > self.common.end_time {
                self.common.presale_end_time
            } else {
                self.common.end_time
            }
        } else {
            self.common.end_time
        }
    }

    /// Whether the sale has started for the cohort at `curtime`.
    pub fn is_started(&self, curtime: i64, whitelisted: bool) -> (r: bool)
        ensures
            r == self.spec_is_started(curtime, whitelisted),
    {
        let auction_start_time = self.get_start_time(whitelisted);
        auction_start_time > 0 && curtime >= auction_start_time
    }

    /// Whether the sale has ended for the cohort at `curtime`.
    pub fn is_ended(&self, curtime: i64, whitelisted: bool) -> (r: bool)
        ensures
            r == self.spec_is_ended(curtime, whitelisted),
    {
        curtime >= self.get_end_time(whitelisted)
    }
}

/// Validation has no side effects and depends only on the parameters and
/// the time: two auctions with the same parameters agree at every time,
/// and so do repeated validations of one auction.
pub proof fn lemma_validate_depends_on_params(a: Auction, b: Auction, curtime: i64)
    requires
        a.common == b.common,
        a.payment == b.payment,
        a.pricing == b.pricing,
    ensures
        a.spec_validate(curtime) == b.spec_validate(curtime),
{
}

/// The regular cohort's sale is over no later than the whitelisted one's at
/// every instant exactly when the presale ends no later than the main sale.
pub proof fn lemma_cohort_end_time(a: Auction)
    ensures
        (forall|t: i64| a.spec_is_ended(t, false) ==> #[trigger] a.spec_is_ended(t, true))
            <==> a.common.presale_end_time <= a.common.end_time,
{
    if a.common.presale_end_time > a.common.end_time {
        let t = a.common.end_time;
        assert(a.spec_is_ended(t, false) && !a.spec_is_ended(t, true));
    }
}

} // verus!
