//! Custody of one payment or pricing token, shared by all auctions.

use vstd::prelude::*;

use crate::address::Address;

verus! {

#[derive(Clone, Copy, Debug, PartialEq, Eq, Structural)]
pub enum OracleType {
    NoOracle,
    Test,
    Pyth,
}

impl Default for OracleType {
    fn default() -> (r: Self)
        ensures
            r == OracleType::NoOracle,
    {
        OracleType::NoOracle
    }
}

/// `max_oracle_price_error_bits` holds the bit pattern of the IEEE-754
/// double bounding the relative confidence interval of an oracle price.
#[derive(Clone, Copy, Debug, Default)]
pub struct Custody {
    pub mint: Address,
    pub token_account: Address,
    pub decimals: u8,
    pub oracle_type: OracleType,
    pub oracle_account: Address,
    pub max_oracle_price_error_bits: u64,
    pub max_oracle_price_age_sec: u32,
    pub collected_fees: u64,
    pub bump: u8,
}

} // verus!
