//! Admin operations behind the quorum.
//!
//! Each operation first records the admin's signature on the instruction's
//! hash. While signatures are still missing it returns their count and
//! changes nothing else; once none is missing it runs, and returns zero. An
//! operation that would fail leaves the quorum as it was.

use vstd::prelude::*;

use crate::address::Address;
use crate::custody::{Custody, OracleType};
use crate::error::LaunchpadError;
use crate::auction::Auction;
use crate::instructions::spec_delete_check;
use crate::launchpad::{Fees, Launchpad, Permissions};
use crate::multisig::{quorum_outcome, Multisig};
use crate::place_bid::TokenAccount;

verus! {

/// The error a change of the launchpad to `updated` would fail with.
pub open spec fn launchpad_blocked(updated: Launchpad) -> Option<LaunchpadError> {
    if updated.spec_validate() { None } else { Some(LaunchpadError::InvalidLaunchpadConfig) }
}

/// Sets the permissions once the quorum has signed.
pub fn set_permissions(
    multisig: &mut Multisig,
    admin: &Address,
    instruction_hash: u64,
    launchpad: &mut Launchpad,
    permissions: Permissions,
) -> (r: Result<u8, LaunchpadError>)
    requires
        old(multisig).well_formed(),
    ensures
        final(multisig).well_formed(),
        quorum_outcome(*old(multisig), *final(multisig), *admin, instruction_hash,
            launchpad_blocked(Launchpad { permissions, ..*old(launchpad) }), r),
        *final(launchpad) == (if r == Ok::<u8, LaunchpadError>(0) {
            Launchpad { permissions, ..*old(launchpad) }
        } else {
            *old(launchpad)
        }),
{
    let updated = Launchpad { permissions, ..*launchpad };
    let blocked = if updated.validate() { None } else { Some(LaunchpadError::InvalidLaunchpadConfig) };
    let k = multisig.approve(admin, instruction_hash, blocked)?;
    if k > 0 {
        return Ok(k);
    }
    *launchpad = updated;
    Ok(0)
}

/// Sets the fee schedule once the quorum has signed.
pub fn set_fees(
    multisig: &mut Multisig,
    admin: &Address,
    instruction_hash: u64,
    launchpad: &mut Launchpad,
    fees: Fees,
) -> (r: Result<u8, LaunchpadError>)
    requires
        old(multisig).well_formed(),
    ensures
        final(multisig).well_formed(),
        quorum_outcome(*old(multisig), *final(multisig), *admin, instruction_hash,
            launchpad_blocked(Launchpad { fees, ..*old(launchpad) }), r),
        *final(launchpad) == (if r == Ok::<u8, LaunchpadError>(0) {
            Launchpad { fees, ..*old(launchpad) }
        } else {
            *old(launchpad)
        }),
{
    let updated = Launchpad { fees, ..*launchpad };
    let blocked = if updated.validate() { None } else { Some(LaunchpadError::InvalidLaunchpadConfig) };
    let k = multisig.approve(admin, instruction_hash, blocked)?;
    if k > 0 {
        return Ok(k);
    }
    *launchpad = updated;
    Ok(0)
}

/// Takes `amount` out of the custody's collected fees once the quorum has
/// signed; the host then transfers it. A zero amount is refused before
/// signing.
pub fn withdraw_fees(
    multisig: &mut Multisig,
    admin: &Address,
    instruction_hash: u64,
    custody: &mut Custody,
    amount: u64,
) -> (r: Result<u8, LaunchpadError>)
    requires
        old(multisig).well_formed(),
    ensures
        final(multisig).well_formed(),
        amount == 0 ==> r == Err::<u8, LaunchpadError>(LaunchpadError::InvalidTokenAmount)
            && *final(multisig) == *old(multisig),
        amount > 0 ==> quorum_outcome(*old(multisig), *final(multisig), *admin, instruction_hash,
            if old(custody).collected_fees < amount { Some(LaunchpadError::InsufficientFunds) } else { None }, r),
        *final(custody) == (if r == Ok::<u8, LaunchpadError>(0) {
            Custody { collected_fees: (old(custody).collected_fees - amount) as u64, ..*old(custody) }
        } else {
            *old(custody)
        }),
{
    if amount == 0 {
        return Err(LaunchpadError::InvalidTokenAmount);
    }
    let blocked = if custody.collected_fees < amount { Some(LaunchpadError::InsufficientFunds) } else { None };
    let k = multisig.approve(admin, instruction_hash, blocked)?;
    if k > 0 {
        return Ok(k);
    }
    custody.collected_fees = custody.collected_fees - amount;
    Ok(0)
}

/// Approves deleting an auction once the quorum has signed and each of its
/// dispensing accounts is held by `program` and empty; at zero the host
/// closes the auction.
pub fn delete_auction(
    multisig: &mut Multisig,
    admin: &Address,
    instruction_hash: u64,
    dispensers: &Vec<TokenAccount>,
    program: &Address,
) -> (r: Result<u8, LaunchpadError>)
    requires
        old(multisig).well_formed(),
    ensures
        final(multisig).well_formed(),
        quorum_outcome(*old(multisig), *final(multisig), *admin, instruction_hash,
            match spec_delete_check(dispensers@, *program) {
                Ok(_) => None,
                Err(e) => Some(e),
            }, r),
{
    let blocked = match crate::instructions::delete_auction(dispensers, program) {
        Ok(_) => None,
        Err(e) => Some(e),
    };
    multisig.approve(admin, instruction_hash, blocked)
}

/// Sets up a custody once the quorum has signed; a custody that is already
/// set up stays as it is.
pub fn init_custody(
    multisig: &mut Multisig,
    admin: &Address,
    instruction_hash: u64,
    custody: &mut Custody,
    mint: Address,
    token_account: Address,
    decimals: u8,
    oracle_type: OracleType,
    oracle_account: Address,
    max_oracle_price_error_bits: u64,
    max_oracle_price_age_sec: u32,
    bump: u8,
) -> (r: Result<u8, LaunchpadError>)
    requires
        old(multisig).well_formed(),
    ensures
        final(multisig).well_formed(),
        quorum_outcome(*old(multisig), *final(multisig), *admin, instruction_hash,
            if old(custody).mint@ == Seq::new(32, |i: int| 0u8) {
                None
            } else {
                Some(LaunchpadError::AccountAlreadyInitialized)
            }, r),
        *final(custody) == (if r == Ok::<u8, LaunchpadError>(0) {
            Custody {
                mint,
                token_account,
                decimals,
                oracle_type,
                oracle_account,
                max_oracle_price_error_bits,
                max_oracle_price_age_sec,
                collected_fees: 0,
                bump,
            }
        } else {
            *old(custody)
        }),
{
    let blocked = if custody.mint != Address::zero() {
        Some(LaunchpadError::AccountAlreadyInitialized)
    } else {
        None
    };
    let k = multisig.approve(admin, instruction_hash, blocked)?;
    if k > 0 {
        return Ok(k);
    }
    let _ = crate::instructions::init_custody(custody, mint, token_account, decimals, oracle_type,
        oracle_account, max_oracle_price_error_bits, max_oracle_price_age_sec, bump);
    Ok(0)
}

/// Sets the time that stands for the current time under the test
/// configuration, once the quorum has signed; refused otherwise before
/// signing.
pub fn set_test_time(
    multisig: &mut Multisig,
    admin: &Address,
    instruction_hash: u64,
    auction: &mut Auction,
    test_mode: bool,
    time: i64,
) -> (r: Result<u8, LaunchpadError>)
    requires
        old(multisig).well_formed(),
    ensures
        final(multisig).well_formed(),
        !test_mode ==> r == Err::<u8, LaunchpadError>(LaunchpadError::InvalidEnvironment)
            && *final(multisig) == *old(multisig),
        test_mode ==> quorum_outcome(*old(multisig), *final(multisig), *admin, instruction_hash, None, r),
        *final(auction) == (if r == Ok::<u8, LaunchpadError>(0) {
            Auction { creation_time: time, ..*old(auction) }
        } else {
            *old(auction)
        }),
{
    if !test_mode {
        return Err(LaunchpadError::InvalidEnvironment);
    }
    let k = multisig.approve(admin, instruction_hash, None)?;
    if k > 0 {
        return Ok(k);
    }
    auction.creation_time = time;
    Ok(0)
}

} // verus!
