//! Errors reported by the launchpad.

use vstd::prelude::*;

verus! {

/// Every way an operation of the launchpad can fail.
#[derive(Clone, Copy, Debug, PartialEq, Eq, Structural)]
pub enum LaunchpadError {
    MultisigAccountNotAuthorized,
    MultisigAlreadySigned,
    MultisigAlreadyExecuted,
    InvalidLaunchpadConfig,
    InvalidCustodyConfig,
    InvalidAuctionConfig,
    InvalidPricingConfig,
    InvalidTokenAmount,
    TooManyAccountKeys,
    InvalidBidAddress,
    InvalidDispenserAddress,
    InvalidDispenserDecimals,
    InvalidSellerBalanceAddress,
    NewAuctionsNotAllowed,
    AuctionUpdatesNotAllowed,
    AuctionRefillsNotAllowed,
    AuctionPullOutsNotAllowed,
    BidsNotAllowed,
    WithdrawalsNotAllowed,
    InvalidEnvironment,
    AuctionNotStarted,
    AuctionEnded,
    AuctionEmpty,
    AuctionNotEmpty,
    AuctionNotUpdatable,
    AuctionWithFixedAmount,
    AuctionInProgress,
    MathOverflow,
    UnsupportedOracle,
    InvalidOracleAccount,
    InvalidOracleState,
    StaleOraclePrice,
    InvalidOraclePrice,
    InsufficientAmount,
    BidAmountTooLarge,
    BidPriceTooSmall,
    FillAmountLimit,
    PriceCalcError,
    MustBeSingleInstruction,
    /// A receiving account is not of the mint its dispenser holds.
    InvalidReceivingAddress,
    /// The host reported fewer accounts than the instruction needs.
    NotEnoughAccountKeys,
    /// An account is owned by a program other than the expected one.
    IllegalOwner,
    /// An account's data cannot be used (a short buffer, a non-positive clock).
    InvalidAccountData,
    /// A withdrawal asks for more than the balance holds.
    InsufficientFunds,
    /// A record that may be created only once already exists.
    AccountAlreadyInitialized,
}

impl LaunchpadError {
    /// The message shown for this error.
    pub fn message(&self) -> (r: &'static str) {
        match self {
            LaunchpadError::MultisigAccountNotAuthorized => "Account is not authorized to sign this instruction",
            LaunchpadError::MultisigAlreadySigned => "Account has already signed this instruction",
            LaunchpadError::MultisigAlreadyExecuted => "This instruction has already been executed",
            LaunchpadError::InvalidLaunchpadConfig => "Invalid launchpad config",
            LaunchpadError::InvalidCustodyConfig => "Invalid custody config",
            LaunchpadError::InvalidAuctionConfig => "Invalid auction config",
            LaunchpadError::InvalidPricingConfig => "Invalid pricing config",
            LaunchpadError::InvalidTokenAmount => "Invalid token amount",
            LaunchpadError::TooManyAccountKeys => "Too many remaining accounts",
            LaunchpadError::InvalidBidAddress => "Invalid bid account address",
            LaunchpadError::InvalidDispenserAddress => "Invalid dispensing account address",
            LaunchpadError::InvalidDispenserDecimals => "Dispensing accounts should have the same decimals",
            LaunchpadError::InvalidReceivingAddress => "Invalid receiving account address",
            LaunchpadError::InvalidSellerBalanceAddress => "Invalid seller's balance address",
            LaunchpadError::NewAuctionsNotAllowed => "New auctions are not allowed at this time",
            LaunchpadError::AuctionUpdatesNotAllowed => "Auction updates are not allowed at this time",
            LaunchpadError::AuctionRefillsNotAllowed => "Auction refills are not allowed at this time",
            LaunchpadError::AuctionPullOutsNotAllowed => "Auction pull-outs are not allowed at this time",
            LaunchpadError::BidsNotAllowed => "Bids are not allowed at this time",
            LaunchpadError::WithdrawalsNotAllowed => "Withdrawals are not allowed at this time",
            LaunchpadError::InvalidEnvironment => "Instruction is not allowed in production",
            LaunchpadError::AuctionNotStarted => "Auction hasn't started",
            LaunchpadError::AuctionEnded => "Auction has been ended",
            LaunchpadError::AuctionEmpty => "Auction is empty",
            LaunchpadError::AuctionNotEmpty => "Auction is not empty",
            LaunchpadError::AuctionNotUpdatable => "Auction is not updatable",
            LaunchpadError::AuctionWithFixedAmount => "Auction with fixed amount",
            LaunchpadError::AuctionInProgress => "Auction is still in progress",
            LaunchpadError::MathOverflow => "Overflow in arithmetic operation",
            LaunchpadError::UnsupportedOracle => "Unsupported price oracle",
            LaunchpadError::InvalidOracleAccount => "Invalid oracle account",
            LaunchpadError::InvalidOracleState => "Invalid oracle state",
            LaunchpadError::StaleOraclePrice => "Stale oracle price",
            LaunchpadError::InvalidOraclePrice => "Invalid oracle price",
            LaunchpadError::InsufficientAmount => "Insufficient amount available at the given price",
            LaunchpadError::BidAmountTooLarge => "Bid amount is too large",
            LaunchpadError::BidPriceTooSmall => "Bid price is too small",
            LaunchpadError::FillAmountLimit => "Fill limit exceeded",
            LaunchpadError::PriceCalcError => "Unexpected price calculation error",
            LaunchpadError::MustBeSingleInstruction => "This instruction must be all alone in the transaction",
            LaunchpadError::NotEnoughAccountKeys => "Not enough account keys given to the instruction",
            LaunchpadError::IllegalOwner => "Provided owner is not allowed",
            LaunchpadError::InvalidAccountData => "An account's data contents was invalid",
            LaunchpadError::InsufficientFunds => "An account's balance was too small to complete the instruction",
            LaunchpadError::AccountAlreadyInitialized => "An account is already initialized",
        }
    }
}

} // verus!
