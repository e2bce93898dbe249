//! A verified token-vesting escrow ("stream") state machine.
//!
//! A stream locks a deposit of a fungible token in an escrow account and
//! releases it to a recipient over time.  This crate holds the schedule
//! arithmetic, the persisted record and its byte codec, and the five
//! state-transition operations with their authorization checks.  The host
//! ledger plumbing (account storage, token transfers, clocks) stays outside;
//! the operations here compute exactly which transfers the host must make.

pub mod account;
pub mod codec;
pub mod error;
pub mod instruction;
pub mod pda;
pub mod state;
pub mod token;
pub mod utils;
