//! Failure codes surfaced to the caller.
//!
//! Every operation aborts on its first failed check and reports one of these
//! codes; no partial state is ever kept.

use vstd::prelude::*;

verus! {

/// The caller-visible error taxonomy.  Address-binding mismatches, cross-field
/// mismatches and malformed flags all surface as `InvalidAccountData`;
/// `InvalidArgument` covers bad timestamps, over-withdrawal and a zero top-up.
#[derive(Clone, Copy, Debug, PartialEq, Eq, Structural)]
pub enum StreamError {
    AlreadyInitialized,
    AccountsNotWritable,
    InvalidAccountData,
    MissingRequiredSignature,
    UninitializedAccount,
    InvalidMetadata,
    MintMismatch,
    InsufficientFunds,
    InvalidArgument,
    StreamClosed,
    InvalidInstruction,
    TransferNotAllowed,
}

} // verus!
