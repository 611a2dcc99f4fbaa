//! The ways in which a request is turned down.

use vstd::prelude::*;

verus! {

/// Why the token program refused a transfer.
#[derive(Clone, Copy, Debug, PartialEq, Eq, Structural)]
pub enum TransferError {
    /// The source account holds less than the amount.
    InsufficientFunds,
    /// The authority named may not move tokens out of the source account.
    Unauthorized,
    /// Source and destination hold tokens of different mints.
    AssetMismatch,
    /// The transfer failed for another reason.
    Other,
}

/// Why an operation on a check failed.
#[derive(Clone, Copy, Debug, PartialEq, Eq, Structural)]
pub enum ErrorCode {
    /// A check must be written for more than nothing.
    InvalidAmount,
    /// The seller's and the buyer's token accounts are of different mints.
    AssetMismatchError,
    /// The nonce derives no address, or not the address that was given as the
    /// check's signer.
    InvalidAuthorityDerivation,
    /// The check has been cashed or cancelled already.
    AlreadySettledError,
    /// The caller, or an account presented, is not the one the check names.
    AuthorizationError,
    /// The request was in order and the transfer itself was refused.
    TransferFailed(TransferError),
}

} // verus!
