//! What each seller has earned in one payment currency.

use vstd::prelude::*;

use crate::address::Address;
use crate::error::LaunchpadError;

verus! {

#[derive(Clone, Copy, Debug, Default)]
pub struct SellerBalance {
    pub owner: Address,
    pub custody: Address,
    pub balance: u64,
    pub bump: u8,
}

impl SellerBalance {
    /// The balance after crediting `amount` from a sale of `seller` paid in
    /// the custody at `custody`. A new record (`bump == 0`) is set up for
    /// them; an existing one must already be theirs.
    pub open spec fn spec_credit(self, seller: Address, custody: Address, bump: u8, amount: u64) -> Result<SellerBalance, LaunchpadError> {
        if self.bump != 0 && (self.owner@ != seller@ || self.custody@ != custody@) {
            Err(LaunchpadError::InvalidSellerBalanceAddress)
        } else if self.balance + amount > u64::MAX {
            Err(LaunchpadError::MathOverflow)
        } else if self.bump == 0 {
            Ok(SellerBalance { owner: seller, custody, bump, balance: (self.balance + amount) as u64 })
        } else {
            Ok(SellerBalance { balance: (self.balance + amount) as u64, ..self })
        }
    }

    pub fn credit(&mut self, seller: Address, custody: Address, bump: u8, amount: u64) -> (r: Result<(), LaunchpadError>)
        ensures
            match old(self).spec_credit(seller, custody, bump, amount) {
                Ok(b) => r is Ok && *final(self) == b,
                Err(e) => r == Err::<(), LaunchpadError>(e) && *final(self) == *old(self),
            },
    {
        if self.bump != 0 && (self.owner != seller || self.custody != custody) {
            return Err(LaunchpadError::InvalidSellerBalanceAddress);
        }
        let balance = match self.balance.checked_add(amount) {
            Some(v) => v,
            None => return Err(LaunchpadError::MathOverflow),
        };
        if self.bump == 0 {
            self.owner = seller;
            self.custody = custody;
            self.bump = bump;
        }
        self.balance = balance;
        Ok(())
    }
}

} // verus!
