//! A token-auction engine: a launchpad hosts auctions that sell tokens at
//! a fixed price or along a decaying Dutch-auction curve, fills bids
//! against the auctions' inventory, and collects fees.
//!
//! Every function here is verified: the pricing curve and its reciprocal
//! quotes, the fee and fixed-point arithmetic, the bid-fill state machine,
//! and the seller and admin operations. The host runtime reads accounts,
//! moves tokens, and computes the floating-point decay step.

pub mod address;
pub mod admin;
pub mod auction;
pub mod bid;
pub mod custody;
pub mod error;
pub mod instructions;
pub mod launchpad;
pub mod math;
pub mod multisig;
pub mod oracle;
pub mod place_bid;
pub mod pricing;
pub mod seller_balance;
