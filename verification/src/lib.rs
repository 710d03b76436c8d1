//! An on-ledger financial accounting engine made of three cooperating
//! services: a fungible-token ledger with immutable issuance rules, a
//! purchase flow that exchanges a stable asset for newly minted
//! participation tokens, and a vault that redeems those tokens for the
//! stable asset plus a fixed return.
//!
//! The hosting platform's concerns — persistent storage, signature
//! checking, event publication — are modelled at their interface:
//! contract state is held as plain values, the authorization oracle is
//! the `caller` argument of every mutating operation, and notifications
//! are returned to the caller as event values.

pub mod allowance;
pub mod balance;
pub mod contract;
pub mod error;
pub mod events;
pub mod metadata;
pub mod sale;
pub mod storage_types;
pub mod vault;
