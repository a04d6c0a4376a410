//! Oracle prices: a mantissa with a decimal exponent.

use vstd::prelude::*;

use crate::error::LaunchpadError;
use crate::math::{decimal_mul, checked_decimal_mul, checked_as_u64};

verus! {

/// Decimal digits kept when one price is divided by another.
pub const PRICE_DECIMALS: u32 = 6;

/// Decimal digits of amounts expressed in USD.
pub const USD_DECIMALS: u8 = 6;

/// The value `price * 10^exponent`.
#[derive(Clone, Copy, Debug, Default, PartialEq, Eq, Structural)]
pub struct OraclePrice {
    pub price: u64,
    pub exponent: i32,
}

impl OraclePrice {
    pub fn new(price: u64, exponent: i32) -> (r: OraclePrice)
        ensures
            r == (OraclePrice { price, exponent }),
    {
        OraclePrice { price, exponent }
    }

    /// A price reported by an oracle at `publish_time`, accepted at
    /// `curtime` when it is positive and at most `max_age_sec` seconds old.
    pub fn new_from_sample(
        price: i64,
        exponent: i32,
        publish_time: i64,
        max_age_sec: u32,
        curtime: i64,
    ) -> (r: Result<OraclePrice, LaunchpadError>)
        ensures
            r == (if publish_time < curtime - max_age_sec {
                Err(LaunchpadError::StaleOraclePrice)
            } else if price <= 0 {
                Err(LaunchpadError::InvalidOraclePrice)
            } else {
                Ok(OraclePrice { price: price as u64, exponent })
            }),
    {
        if (publish_time as i128) < curtime as i128 - max_age_sec as i128 {
            return Err(LaunchpadError::StaleOraclePrice);
        }
        if price <= 0 {
            return Err(LaunchpadError::InvalidOraclePrice);
        }
        Ok(OraclePrice { price: price as u64, exponent })
    }

    pub open spec fn spec_checked_div(&self, other: &OraclePrice) -> Result<OraclePrice, LaunchpadError> {
        let scaled = self.price * 1000000 / (other.price as int);
        let exponent = self.exponent - PRICE_DECIMALS - other.exponent;
        if other.price == 0 || scaled > u64::MAX || exponent < i32::MIN || exponent > i32::MAX {
            Err(LaunchpadError::MathOverflow)
        } else {
            Ok(OraclePrice { price: scaled as u64, exponent: exponent as i32 })
        }
    }

    /// The price of `self` in units of `other`, with `PRICE_DECIMALS` more
    /// digits in the mantissa, rounded down.
    pub fn checked_div(&self, other: &OraclePrice) -> (r: Result<OraclePrice, LaunchpadError>)
        ensures
            r == self.spec_checked_div(other),
    {
        if other.price == 0 {
            return Err(LaunchpadError::MathOverflow);
        }
        let numerator: u128 = self.price as u128 * 1000000u128;
        let price = checked_as_u64(numerator / other.price as u128)?;
        let exponent: i64 = self.exponent as i64 - PRICE_DECIMALS as i64 - other.exponent as i64;
        if exponent < i32::MIN as i64 || exponent > i32::MAX as i64 {
            return Err(LaunchpadError::MathOverflow);
        }
        Ok(OraclePrice { price, exponent: exponent as i32 })
    }

    /// The USD value, with `USD_DECIMALS` decimals and rounded down, of
    /// `amount` raw units of a token with `decimals` decimals.
    pub fn get_asset_value_usd(&self, amount: u64, decimals: u8) -> (r: Result<u64, LaunchpadError>)
        ensures
            r == decimal_mul(amount, (-(decimals as int)) as i32, self.price, self.exponent, (-(USD_DECIMALS as int)) as i32),
    {
        checked_decimal_mul(amount, -(decimals as i32), self.price, self.exponent, -(USD_DECIMALS as i32))
    }
}

} // verus!
