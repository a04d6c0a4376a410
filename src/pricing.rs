//! The pricing curve of an auction: the best offer price over time and the
//! two reciprocal queries, amount at a price and price for an amount.
//!
//! The decay of a Dutch auction is a floating-point function of the elapsed
//! part of the reprice window. This module leaves that one step to the
//! caller: it reports the window (`get_reprice_step`) and takes the decay
//! factor, scaled by `DECAY_SCALE`, as an argument.

use vstd::prelude::*;

use crate::auction::{AmountFunction, Auction, PricingModel, PricingParams};
use crate::error::LaunchpadError;
use crate::math::{
    ceil_div, checked_add, checked_as_u64, checked_ceil_div, checked_div, checked_mul,
    checked_mul_u128, checked_sub, checked_sub_i64, checked_add_i64, lemma_ceil_div_bounds,
};

verus! {

/// The decay factor is a fraction of one in units of `1 / DECAY_SCALE`.
pub const DECAY_SCALE: u128 = 10000;

/// Where the pricing curve stands at a given time.
#[derive(Clone, Copy, Debug, PartialEq, Eq, Structural)]
pub enum RepriceStep {
    /// The curve does not move (before the reprice delay has passed, or once
    /// the sale is over): the price stands as it is.
    Frozen { price: u64 },
    /// The price decays from `last_price`; `elapsed` of the `duration`
    /// seconds of the reprice window have passed, with
    /// `0 < elapsed < duration`.
    Decay { last_price: u64, elapsed: i64, duration: i64 },
}

/// `v` bounded to `[lo, hi]`, taking the upper bound first.
pub open spec fn clamp(v: int, lo: int, hi: int) -> int {
    let capped = if v < hi { v } else { hi };
    if capped < lo { lo } else { capped }
}

/// `v` rounded up to a multiple of `tick`.
pub open spec fn round_up_to_tick(v: int, tick: int) -> int {
    ceil_div(v, tick) * tick
}

/// The price that decays from `last_price` by `factor / DECAY_SCALE`,
/// rounded up to the tick size and clamped to the price bounds.
pub open spec fn decayed_price(p: PricingParams, last_price: u64, factor: u128) -> Result<u64, LaunchpadError> {
    let raw = last_price * factor;
    let scaled = raw / (DECAY_SCALE as int);
    if raw > u128::MAX || scaled > u64::MAX || p.tick_size == 0 {
        Err(LaunchpadError::MathOverflow)
    } else if round_up_to_tick(scaled, p.tick_size as int) > u64::MAX {
        Err(LaunchpadError::MathOverflow)
    } else {
        Ok(clamp(round_up_to_tick(scaled, p.tick_size as int), p.min_price as int, p.max_price as int) as u64)
    }
}

/// A multiple of the tick stays where it is when rounded up to the tick.
pub proof fn lemma_round_up_aligned(v: int, tick: int)
    requires
        v >= 0,
        tick > 0,
    ensures
        round_up_to_tick(v, tick) >= v,
        round_up_to_tick(v, tick) % tick == 0,
        v % tick == 0 ==> round_up_to_tick(v, tick) == v,
{
    lemma_ceil_div_bounds(v, tick);
    let c = ceil_div(v, tick);
    vstd::arithmetic::div_mod::lemma_mod_multiples_basic(c, tick);
    if v % tick == 0 {
        vstd::arithmetic::div_mod::lemma_fundamental_div_mod(v, tick);
        let q = v / tick;
        assert(v == q * tick) by (nonlinear_arith)
            requires
                v == tick * q + v % tick,
                v % tick == 0,
        ;
        if v > 0 {
            assert(c == q) by (nonlinear_arith)
                requires
                    c * tick >= v,
                    (c - 1) * tick < v,
                    v == q * tick,
                    tick > 0,
            ;
        } else {
            assert(q == 0);
        }
    }
}

impl Auction {
    /// The price and time the curve starts from: the last trade if there was
    /// one, else the start price at the effective start of the sale.
    pub open spec fn spec_reprice_seed(&self, curtime: i64) -> (u64, i64) {
        if self.stats.last_trade_time > 0 {
            (self.stats.last_price, self.stats.last_trade_time)
        } else if self.common.start_time > 0 && curtime >= self.common.start_time {
            (self.pricing.start_price, self.common.start_time)
        } else {
            (self.pricing.start_price, self.spec_start_time(true))
        }
    }

    pub open spec fn spec_reprice_step(&self, curtime: i64) -> Result<RepriceStep, LaunchpadError> {
        let (last_price, seed_time) = self.spec_reprice_seed(curtime);
        let window_start = seed_time + self.pricing.reprice_delay;
        let end_time = self.spec_end_time(true);
        if window_start < i64::MIN || window_start > i64::MAX {
            Err(LaunchpadError::MathOverflow)
        } else if curtime <= window_start || curtime >= end_time {
            Ok(RepriceStep::Frozen { price: last_price })
        } else if curtime - window_start > i64::MAX || end_time - window_start > i64::MAX {
            Err(LaunchpadError::MathOverflow)
        } else {
            Ok(
                RepriceStep::Decay {
                    last_price,
                    elapsed: (curtime - window_start) as i64,
                    duration: (end_time - window_start) as i64,
                },
            )
        }
    }

    pub open spec fn spec_best_offer_price(&self, curtime: i64, factor: u128) -> Result<u64, LaunchpadError> {
        match self.spec_reprice_step(curtime) {
            Err(e) => Err(e),
            Ok(RepriceStep::Frozen { price }) => Ok(price),
            Ok(RepriceStep::Decay { last_price, .. }) => decayed_price(self.pricing, last_price, factor),
        }
    }

    /// The state of the reprice window at `curtime`. The window opens
    /// `reprice_delay` seconds after the last trade (or the effective start)
    /// and closes at the whitelisted cohort's end.
    pub fn get_reprice_step(&self, curtime: i64) -> (r: Result<RepriceStep, LaunchpadError>)
        ensures
            r == self.spec_reprice_step(curtime),
    {
        let (last_price, seed_time) = if self.stats.last_trade_time > 0 {
            (self.stats.last_price, self.stats.last_trade_time)
        } else {
            let start_time = if self.common.start_time > 0 && curtime >= self.common.start_time {
                self.common.start_time
            } else {
                self.get_start_time(true)
            };
            (self.pricing.start_price, start_time)
        };
        let window_start = checked_add_i64(seed_time, self.pricing.reprice_delay)?;
        let end_time = self.get_end_time(true);
        if curtime <= window_start || curtime >= end_time {
            return Ok(RepriceStep::Frozen { price: last_price });
        }
        let elapsed = checked_sub_i64(curtime, window_start)?;
        let duration = checked_sub_i64(end_time, window_start)?;
        Ok(RepriceStep::Decay { last_price, elapsed, duration })
    }

    /// The price that decays from `last_price` by `factor / DECAY_SCALE`,
    /// rounded up to a multiple of the tick size, then clamped to
    /// `[min_price, max_price]`.
    pub fn apply_decay(&self, last_price: u64, factor: u128) -> (r: Result<u64, LaunchpadError>)
        ensures
            r == decayed_price(self.pricing, last_price, factor),
    {
        let raw = checked_mul_u128(last_price as u128, factor)?;
        let scaled = checked_as_u64(raw / DECAY_SCALE)?;
        let tick = self.pricing.tick_size;
        if tick == 0 {
            return Err(LaunchpadError::MathOverflow);
        }
        proof {
            lemma_round_up_aligned(scaled as int, tick as int);
        }
        let mut best_offer_price = scaled;
        if scaled % tick != 0 {
            best_offer_price = checked_mul(checked_ceil_div(scaled, tick)?, tick)?;
        }
        if best_offer_price > self.pricing.max_price {
            best_offer_price = self.pricing.max_price;
        }
        if best_offer_price < self.pricing.min_price {
            best_offer_price = self.pricing.min_price;
        }
        Ok(best_offer_price)
    }

    /// The seller's current minimum accepted price. `factor` is the decay of
    /// the reprice window at `curtime` (see `get_reprice_step`); it is read
    /// only while the curve decays.
    pub fn get_best_offer_price(&self, curtime: i64, factor: u128) -> (r: Result<u64, LaunchpadError>)
        ensures
            r == self.spec_best_offer_price(curtime, factor),
    {
        match self.get_reprice_step(curtime)? {
            RepriceStep::Frozen { price } => Ok(price),
            RepriceStep::Decay { last_price, .. } => self.apply_decay(last_price, factor),
        }
    }

    pub open spec fn spec_offer_size(&self, price_levels: u64) -> Result<u64, LaunchpadError> {
        if price_levels * self.pricing.amount_per_level > u64::MAX {
            Err(LaunchpadError::MathOverflow)
        } else {
            Ok((price_levels * self.pricing.amount_per_level) as u64)
        }
    }

    /// The amount offered over `price_levels` price levels.
    pub fn get_offer_size(&self, price_levels: u64) -> (r: Result<u64, LaunchpadError>)
        ensures
            r == self.spec_offer_size(price_levels),
    {
        match self.pricing.amount_function {
            AmountFunction::Fixed => checked_mul(price_levels, self.pricing.amount_per_level),
        }
    }

    /// The amount a Dutch auction sells at `price` when its best offer is `bop`.
    pub open spec fn spec_amount_at(&self, price: u64, bop: u64) -> Result<u64, LaunchpadError> {
        if price < bop {
            Ok(0)
        } else if self.pricing.tick_size == 0 {
            Err(LaunchpadError::MathOverflow)
        } else {
            let levels = (price - bop) / (self.pricing.tick_size as int) + 1;
            if levels > u64::MAX {
                Err(LaunchpadError::MathOverflow)
            } else {
                self.spec_offer_size(levels as u64)
            }
        }
    }

    /// The price a Dutch auction asks for `amount` when its best offer is `bop`.
    pub open spec fn spec_price_for(&self, amount: u64, bop: u64) -> Result<u64, LaunchpadError> {
        if self.pricing.amount_per_level == 0 {
            Err(LaunchpadError::MathOverflow)
        } else {
            let levels = ceil_div(amount as int, self.pricing.amount_per_level as int) - 1;
            let price = bop + levels * self.pricing.tick_size;
            if levels * self.pricing.tick_size > u64::MAX || price > u64::MAX {
                Err(LaunchpadError::MathOverflow)
            } else if price < self.pricing.max_price {
                Ok(price as u64)
            } else {
                Ok(self.pricing.max_price)
            }
        }
    }

    pub open spec fn spec_auction_amount_dda(&self, price: u64, curtime: i64, factor: u128) -> Result<u64, LaunchpadError> {
        match self.spec_best_offer_price(curtime, factor) {
            Err(e) => Err(e),
            Ok(bop) => self.spec_amount_at(price, bop),
        }
    }

    pub open spec fn spec_auction_price_dda(&self, amount: u64, curtime: i64, factor: u128) -> Result<u64, LaunchpadError> {
        if amount == 0 {
            Ok(0)
        } else {
            match self.spec_best_offer_price(curtime, factor) {
                Err(e) => Err(e),
                Ok(bop) => self.spec_price_for(amount, bop),
            }
        }
    }

    pub open spec fn spec_auction_amount(&self, price: u64, curtime: i64, factor: u128) -> Result<u64, LaunchpadError> {
        match self.pricing.pricing_model {
            PricingModel::Fixed => Ok(u64::MAX),
            PricingModel::DynamicDutchAuction => self.spec_auction_amount_dda(price, curtime, factor),
        }
    }

    pub open spec fn spec_auction_price(&self, amount: u64, curtime: i64, factor: u128) -> Result<u64, LaunchpadError> {
        match self.pricing.pricing_model {
            PricingModel::Fixed => Ok(self.pricing.start_price),
            PricingModel::DynamicDutchAuction => self.spec_auction_price_dda(amount, curtime, factor),
        }
    }

    /// The most a bid at `price` can take at `curtime`: `u64::MAX` at a fixed
    /// price; in a Dutch auction nothing below the best offer, else one
    /// `amount_per_level` for each tick from the best offer up to `price`.
    pub fn get_auction_amount(&self, price: u64, curtime: i64, factor: u128) -> (r: Result<u64, LaunchpadError>)
        ensures
            r == self.spec_auction_amount(price, curtime, factor),
    {
        match self.pricing.pricing_model {
            PricingModel::Fixed => self.get_auction_amount_fixed(),
            PricingModel::DynamicDutchAuction => self.get_auction_amount_dda(price, curtime, factor),
        }
    }

    /// The price of `amount` at `curtime`: the start price at a fixed price;
    /// in a Dutch auction the best offer plus one tick for each further
    /// `amount_per_level`, capped at `max_price`.
    pub fn get_auction_price(&self, amount: u64, curtime: i64, factor: u128) -> (r: Result<u64, LaunchpadError>)
        ensures
            r == self.spec_auction_price(amount, curtime, factor),
    {
        match self.pricing.pricing_model {
            PricingModel::Fixed => self.get_auction_price_fixed(),
            PricingModel::DynamicDutchAuction => self.get_auction_price_dda(amount, curtime, factor),
        }
    }

    pub fn get_auction_amount_fixed(&self) -> (r: Result<u64, LaunchpadError>)
        ensures
            r == Ok::<u64, LaunchpadError>(u64::MAX),
    {
        Ok(u64::MAX)
    }

    pub fn get_auction_price_fixed(&self) -> (r: Result<u64, LaunchpadError>)
        ensures
            r == Ok::<u64, LaunchpadError>(self.pricing.start_price),
    {
        Ok(self.pricing.start_price)
    }

    pub fn get_auction_amount_dda(&self, price: u64, curtime: i64, factor: u128) -> (r: Result<u64, LaunchpadError>)
        ensures
            r == self.spec_auction_amount_dda(price, curtime, factor),
    {
        let best_offer_price = self.get_best_offer_price(curtime, factor)?;
        if price < best_offer_price {
            return Ok(0);
        }
        let price_levels = checked_add(
            checked_div(checked_sub(price, best_offer_price)?, self.pricing.tick_size)?,
            1,
        )?;
        self.get_offer_size(price_levels)
    }

    pub fn get_auction_price_dda(&self, amount: u64, curtime: i64, factor: u128) -> (r: Result<u64, LaunchpadError>)
        ensures
            r == self.spec_auction_price_dda(amount, curtime, factor),
    {
        if amount == 0 {
            return Ok(0);
        }
        let best_offer_price = self.get_best_offer_price(curtime, factor)?;
        let levels_up = checked_ceil_div(amount, self.pricing.amount_per_level)?;
        proof {
            {
                lemma_ceil_div_bounds(amount as int, self.pricing.amount_per_level as int);
                assert(ceil_div(amount as int, self.pricing.amount_per_level as int) >= 1)
                    by (nonlinear_arith)
                    requires
                        ceil_div(amount as int, self.pricing.amount_per_level as int) * self.pricing.amount_per_level >= amount,
                        amount > 0,
                        self.pricing.amount_per_level > 0,
                ;
            }
        }
        let price_levels = checked_sub(levels_up, 1)?;
        let price = checked_add(best_offer_price, checked_mul(price_levels, self.pricing.tick_size)?)?;
        if price < self.pricing.max_price {
            Ok(price)
        } else {
            Ok(self.pricing.max_price)
        }
    }
}

/// A decayed price only grows with the decay factor.
pub proof fn lemma_decayed_price_monotone(p: PricingParams, last_price: u64, f1: u128, f2: u128)
    requires
        f1 >= f2,
        decayed_price(p, last_price, f1) is Ok,
        decayed_price(p, last_price, f2) is Ok,
    ensures
        decayed_price(p, last_price, f1)->Ok_0 >= decayed_price(p, last_price, f2)->Ok_0,
{
    let raw1 = last_price * f1;
    let raw2 = last_price * f2;
    assert(raw1 >= raw2) by (nonlinear_arith)
        requires
            f1 >= f2,
            last_price >= 0,
            raw1 == last_price * f1,
            raw2 == last_price * f2,
    ;
    let s1 = raw1 / (DECAY_SCALE as int);
    let s2 = raw2 / (DECAY_SCALE as int);
    vstd::arithmetic::div_mod::lemma_div_is_ordered(raw2, raw1, DECAY_SCALE as int);
    let t = p.tick_size as int;
    vstd::arithmetic::div_mod::lemma_div_is_ordered(s2 + t - 1, s1 + t - 1, t);
    let c1 = ceil_div(s1, t);
    let c2 = ceil_div(s2, t);
    assert(c1 * t >= c2 * t) by (nonlinear_arith)
        requires
            c1 >= c2,
            t > 0,
    ;
}

/// The best offer price is a multiple of the tick size where the price it
/// starts from and both price bounds are.
pub proof fn lemma_best_offer_tick_aligned(a: Auction, curtime: i64, factor: u128)
    requires
        a.pricing.tick_size > 0,
        a.pricing.min_price % a.pricing.tick_size == 0,
        a.pricing.max_price % a.pricing.tick_size == 0,
        a.spec_reprice_seed(curtime).0 % a.pricing.tick_size == 0,
        a.spec_best_offer_price(curtime, factor) is Ok,
    ensures
        a.spec_best_offer_price(curtime, factor)->Ok_0 % a.pricing.tick_size == 0,
{
    match a.spec_reprice_step(curtime) {
        Ok(RepriceStep::Decay { last_price, .. }) => {
            let raw = last_price * factor;
            let scaled = raw / (DECAY_SCALE as int);
            lemma_round_up_aligned(scaled, a.pricing.tick_size as int);
        },
        _ => {},
    }
}

/// The best offer price stays within `[min_price, max_price]` where the
/// pricing parameters are valid and the price it starts from lies there.
pub proof fn lemma_best_offer_clamped(a: Auction, curtime: i64, factor: u128)
    requires
        a.pricing.spec_validate(),
        a.pricing.min_price <= a.spec_reprice_seed(curtime).0 <= a.pricing.max_price,
        a.spec_best_offer_price(curtime, factor) is Ok,
    ensures
        a.pricing.min_price <= a.spec_best_offer_price(curtime, factor)->Ok_0 <= a.pricing.max_price,
{
}

/// Within one reprice window the best offer price does not rise as time
/// passes, given a decay factor that does not rise either; outside the
/// window it is the price the curve starts from, whatever the factor.
pub proof fn lemma_best_offer_monotone(a: Auction, t1: i64, t2: i64, f1: u128, f2: u128)
    requires
        t1 <= t2,
        f1 >= f2,
        a.spec_reprice_seed(t1) == a.spec_reprice_seed(t2),
        a.spec_best_offer_price(t1, f1) is Ok,
        a.spec_best_offer_price(t2, f2) is Ok,
    ensures
        (a.spec_reprice_step(t1) matches Ok(RepriceStep::Decay { .. })
            && a.spec_reprice_step(t2) matches Ok(RepriceStep::Decay { .. }))
            ==> a.spec_best_offer_price(t1, f1)->Ok_0 >= a.spec_best_offer_price(t2, f2)->Ok_0,
        (a.spec_reprice_step(t1) matches Ok(RepriceStep::Frozen { .. }))
            ==> a.spec_best_offer_price(t1, f1) == Ok::<u64, LaunchpadError>(a.spec_reprice_seed(t1).0),
        (a.spec_reprice_step(t2) matches Ok(RepriceStep::Frozen { .. }))
            ==> a.spec_best_offer_price(t2, f2) == Ok::<u64, LaunchpadError>(a.spec_reprice_seed(t2).0),
{
    if a.spec_reprice_step(t1) matches Ok(RepriceStep::Decay { .. })
        && a.spec_reprice_step(t2) matches Ok(RepriceStep::Decay { .. }) {
        lemma_decayed_price_monotone(a.pricing, a.spec_reprice_seed(t1).0, f1, f2);
    }
}

/// Buying back: the amount available at the price quoted for `amount` is at
/// least `amount`, for every `amount` up to what the auction sells at its
/// maximum price.
pub proof fn lemma_reciprocity(a: Auction, amount: u64, curtime: i64, factor: u128)
    requires
        0 < amount,
        a.spec_auction_price(amount, curtime, factor) is Ok,
        a.spec_auction_amount(a.pricing.max_price, curtime, factor) is Ok,
        amount <= a.spec_auction_amount(a.pricing.max_price, curtime, factor)->Ok_0,
    ensures
        a.spec_auction_amount(a.spec_auction_price(amount, curtime, factor)->Ok_0, curtime, factor) is Ok,
        a.spec_auction_amount(a.spec_auction_price(amount, curtime, factor)->Ok_0, curtime, factor)->Ok_0
            >= amount,
{
    if a.pricing.pricing_model == PricingModel::DynamicDutchAuction {
        let bop = a.spec_best_offer_price(curtime, factor)->Ok_0;
        let p = a.spec_auction_price(amount, curtime, factor)->Ok_0;
        let max = a.pricing.max_price;
        let apl = a.pricing.amount_per_level as int;
        let tick = a.pricing.tick_size as int;
        let lv = ceil_div(amount as int, apl) - 1;
        lemma_ceil_div_bounds(amount as int, apl);
        assert(max >= bop);
        let max_levels = (max - bop) / tick + 1;
        if p < max {
            assert(p == bop + lv * tick);
            vstd::arithmetic::mul::lemma_mul_nonnegative(lv, tick);
            vstd::arithmetic::div_mod::lemma_div_multiples_vanish(lv, tick);
            assert((p - bop) / tick == lv) by {
                vstd::arithmetic::mul::lemma_mul_is_commutative(lv, tick);
            }
            vstd::arithmetic::div_mod::lemma_div_is_ordered(p - bop, max - bop, tick);
            assert((lv + 1) * apl <= max_levels * apl) by (nonlinear_arith)
                requires
                    lv + 1 <= max_levels,
                    apl > 0,
            ;
            assert((lv + 1) * apl >= amount);
        }
    }
}

/// Selling back: the price quoted for the amount available at an
/// acceptable price `price` is at most `price`. At a fixed price every
/// price from the start price up is acceptable.
pub proof fn lemma_reciprocity_price(a: Auction, price: u64, curtime: i64, factor: u128)
    requires
        a.spec_auction_amount(price, curtime, factor) is Ok,
        a.spec_auction_price(a.spec_auction_amount(price, curtime, factor)->Ok_0, curtime, factor) is Ok,
        a.pricing.pricing_model == PricingModel::Fixed ==> price >= a.pricing.start_price,
    ensures
        a.spec_auction_price(a.spec_auction_amount(price, curtime, factor)->Ok_0, curtime, factor)->Ok_0 <= price,
{
    if a.pricing.pricing_model == PricingModel::DynamicDutchAuction {
        let bop = a.spec_best_offer_price(curtime, factor)->Ok_0;
        let q = a.spec_auction_amount(price, curtime, factor)->Ok_0;
        if price >= bop && q > 0 {
            let tick = a.pricing.tick_size as int;
            let apl = a.pricing.amount_per_level as int;
            let k = (price - bop) / tick;
            assert(q == (k + 1) * apl);
            vstd::arithmetic::div_mod::lemma_div_multiples_vanish(k + 1, apl);
            assert(((k + 1) * apl) / apl == k + 1) by {
                vstd::arithmetic::mul::lemma_mul_is_commutative(k + 1, apl);
            }
            assert(apl > 0);
            vstd::arithmetic::div_mod::lemma_fundamental_div_mod(q - 1, apl);
            lemma_ceil_div_bounds(q as int, apl);
            assert(ceil_div(q as int, apl) == k + 1) by {
                vstd::arithmetic::div_mod::lemma_div_plus_one(q - 1, apl);
                assert(ceil_div(q as int, apl) == (apl + (q - 1)) / apl);
                assert((apl + (q - 1)) / apl == ((k + 1) * apl + apl - 1) / apl);
                vstd::arithmetic::div_mod::lemma_fundamental_div_mod_converse_div((k + 1) * apl + apl - 1, apl, k + 1, apl - 1);
                assert((k + 1) * apl + apl - 1 == apl * (k + 1) + (apl - 1)) by {
                    vstd::arithmetic::mul::lemma_mul_is_commutative(k + 1, apl);
                }
            }
            vstd::arithmetic::div_mod::lemma_fundamental_div_mod(price - bop, tick);
            vstd::arithmetic::div_mod::lemma_mod_bound(price - bop, tick);
            assert(k * tick <= price - bop) by (nonlinear_arith)
                requires
                    price - bop == tick * k + (price - bop) % tick,
                    (price - bop) % tick >= 0,
            ;
        }
    }
}

} // verus!
