//! The launchpad singleton: permissions, fee schedule and collected fees.

use vstd::prelude::*;

use crate::address::Address;
use crate::error::LaunchpadError;
use crate::math::{ceil_div, checked_as_u64, checked_ceil_div_u128};

verus! {

/// A proportional fee, `numerator / denominator` of an amount, rounded up.
#[derive(Clone, Copy, Debug, Default, PartialEq, Eq, Structural)]
pub struct Fee {
    pub numerator: u64,
    pub denominator: u64,
}

#[derive(Clone, Copy, Debug, Default, PartialEq, Eq, Structural)]
pub struct Fees {
    /// Native amount charged for creating an auction.
    pub new_auction: u64,
    /// Native amount charged for updating an auction.
    pub auction_update: u64,
    pub invalid_bid: Fee,
    pub trade: Fee,
}

#[derive(Clone, Copy, Debug, Default, PartialEq, Eq, Structural)]
pub struct CollectedFees {
    pub new_auction_sol: u64,
    pub auction_update_sol: u64,
    pub invalid_bid_usdc: u64,
    pub trade_usdc: u64,
}

#[derive(Clone, Copy, Debug, Default, PartialEq, Eq, Structural)]
pub struct Permissions {
    pub allow_new_auctions: bool,
    pub allow_auction_updates: bool,
    pub allow_auction_refills: bool,
    pub allow_auction_pullouts: bool,
    pub allow_new_bids: bool,
    pub allow_withdrawals: bool,
}

#[derive(Clone, Copy, Debug, Default, PartialEq, Eq, Structural)]
pub struct Launchpad {
    pub permissions: Permissions,
    pub fees: Fees,
    pub collected_fees: CollectedFees,
    pub transfer_authority_bump: u8,
    pub launchpad_bump: u8,
}

/// The fee on `amount` at `num / den`, rounded up.
pub open spec fn fee_ceiling(amount: int, num: int, den: int) -> int {
    ceil_div(amount * num, den)
}

impl Fee {
    pub fn new(numerator: u64, denominator: u64) -> (r: Fee)
        ensures
            r.numerator == numerator,
            r.denominator == denominator,
    {
        Fee { numerator, denominator }
    }

    pub open spec fn spec_fee_amount(&self, amount: u64) -> Result<u64, LaunchpadError> {
        if self.numerator == 0 {
            Ok(0)
        } else if self.denominator == 0 || fee_ceiling(amount as int, self.numerator as int, self.denominator as int) > u64::MAX {
            Err(LaunchpadError::MathOverflow)
        } else {
            Ok(fee_ceiling(amount as int, self.numerator as int, self.denominator as int) as u64)
        }
    }

    /// Whether the fee charges nothing.
    pub fn is_zero(&self) -> (r: bool)
        ensures
            r == (self.numerator == 0),
    {
        self.numerator == 0
    }

    /// `amount * numerator / denominator`, rounded up, computed on `u128`.
    pub fn get_fee_amount(&self, amount: u64) -> (r: Result<u64, LaunchpadError>)
        ensures
            r == self.spec_fee_amount(amount),
    {
        if self.is_zero() {
            return Ok(0);
        }
        proof {
            vstd::arithmetic::mul::lemma_mul_upper_bound(
                amount as int, u64::MAX as int, self.numerator as int, u64::MAX as int);
        }
        let product: u128 = amount as u128 * self.numerator as u128;
        checked_as_u64(checked_ceil_div_u128(product, self.denominator as u128)?)
    }
}

/// The fee charged is never less than the exact proportion, rounded up, and
/// is that rounded proportion whenever it is charged: the product
/// `amount * numerator` always fits in `u128`.
pub proof fn lemma_fee_ceiling(fee: Fee, amount: u64)
    requires
        fee.denominator > 0,
        fee.spec_fee_amount(amount) is Ok,
    ensures
        fee.spec_fee_amount(amount)->Ok_0 == fee_ceiling(amount as int, fee.numerator as int, fee.denominator as int),
        amount * fee.numerator <= u128::MAX,
{
    vstd::arithmetic::mul::lemma_mul_upper_bound(
        amount as int, u64::MAX as int, fee.numerator as int, u64::MAX as int);
    if fee.numerator == 0 {
        assert(amount as int * 0 == 0);
        vstd::arithmetic::div_mod::lemma_basic_div(fee.denominator - 1, fee.denominator as int);
    }
}

/// The launchpad program's address.
pub const PROGRAM_ID: [u8; 32] = [
    4, 247, 37, 20, 219, 128, 102, 123, 15, 150, 208, 28, 36, 188, 113, 53, 246, 183, 115, 217, 34,
    131, 154, 161, 19, 205, 229, 217, 118, 222, 227, 204,
];

impl Launchpad {
    /// The address of the launchpad program, which owns its records.
    pub fn id() -> (r: Address)
        ensures
            r@ == PROGRAM_ID@,
    {
        Address { bytes: PROGRAM_ID }
    }

    pub open spec fn spec_validate(&self) -> bool {
        self.fees.invalid_bid.numerator < self.fees.invalid_bid.denominator
            && self.fees.trade.numerator < self.fees.trade.denominator
    }

    /// Each proportional fee is less than the whole amount.
    pub fn validate(&self) -> (r: bool)
        ensures
            r == self.spec_validate(),
    {
        self.fees.invalid_bid.numerator < self.fees.invalid_bid.denominator
            && self.fees.trade.numerator < self.fees.trade.denominator
    }

    /// The launchpad with the given settings and nothing collected yet.
    pub open spec fn spec_new(permissions: Permissions, fees: Fees, transfer_authority_bump: u8, launchpad_bump: u8) -> Launchpad {
        Launchpad {
            permissions,
            fees,
            collected_fees: CollectedFees {
                new_auction_sol: 0,
                auction_update_sol: 0,
                invalid_bid_usdc: 0,
                trade_usdc: 0,
            },
            transfer_authority_bump,
            launchpad_bump,
        }
    }

    /// A new launchpad with nothing collected yet, if its fees are valid.
    pub fn new(
        permissions: Permissions,
        fees: Fees,
        transfer_authority_bump: u8,
        launchpad_bump: u8,
    ) -> (r: Result<Launchpad, LaunchpadError>)
        ensures
            r == (if Launchpad::spec_new(permissions, fees, transfer_authority_bump, launchpad_bump).spec_validate() {
                Ok(Launchpad::spec_new(permissions, fees, transfer_authority_bump, launchpad_bump))
            } else {
                Err(LaunchpadError::InvalidLaunchpadConfig)
            }),
    {
        let launchpad = Launchpad {
            permissions,
            fees,
            collected_fees: CollectedFees {
                new_auction_sol: 0,
                auction_update_sol: 0,
                invalid_bid_usdc: 0,
                trade_usdc: 0,
            },
            transfer_authority_bump,
            launchpad_bump,
        };
        if !launchpad.validate() {
            Err(LaunchpadError::InvalidLaunchpadConfig)
        } else {
            Ok(launchpad)
        }
    }

    /// Replaces the permissions; the launchpad must stay valid, else nothing
    /// changes.
    pub fn set_permissions(&mut self, permissions: Permissions) -> (r: Result<(), LaunchpadError>)
        ensures
            r is Ok <==> old(self).spec_validate(),
            r is Ok ==> *final(self) == (Launchpad { permissions, ..*old(self) }),
            r is Err ==> r == Err::<(), LaunchpadError>(LaunchpadError::InvalidLaunchpadConfig)
                && *final(self) == *old(self),
    {
        let updated = Launchpad { permissions, ..*self };
        if !updated.validate() {
            return Err(LaunchpadError::InvalidLaunchpadConfig);
        }
        *self = updated;
        Ok(())
    }

    /// Replaces the fee schedule; the proportional fees must stay below the
    /// whole amount, else nothing changes.
    pub fn set_fees(&mut self, fees: Fees) -> (r: Result<(), LaunchpadError>)
        ensures
            r is Ok <==> (Launchpad { fees, ..*old(self) }).spec_validate(),
            r is Ok ==> *final(self) == (Launchpad { fees, ..*old(self) }),
            r is Err ==> r == Err::<(), LaunchpadError>(LaunchpadError::InvalidLaunchpadConfig)
                && *final(self) == *old(self),
    {
        let updated = Launchpad { fees, ..*self };
        if !updated.validate() {
            return Err(LaunchpadError::InvalidLaunchpadConfig);
        }
        *self = updated;
        Ok(())
    }
}

} // verus!
