//! Error taxonomy of the flash-loan core.
//!
//! Every failure is raised at the point of detection and propagates
//! unrecovered: the host discards the whole unit of work, so no partial
//! state is ever observable after an error.

use vstd::prelude::*;

verus! {

/// A malformed or out-of-range request or configuration.
#[derive(Clone, Copy, Debug, PartialEq, Eq, Structural)]
pub enum ValidationCause {
    /// A loan of zero was requested.
    ZeroAmount,
    /// No loan terms are configured for the requested asset.
    TokenNotConfigured,
    /// The requested amount is below the configured minimum.
    BelowMinimum,
    /// The requested amount is above the configured maximum.
    AboveMaximum,
    /// The asset identifier is not well formed.
    InvalidAssetIdentifier,
    /// The fee rate reaches or exceeds the parts-per-thousand base.
    FeePercentTooHigh,
    /// The configured maximum loan amount is zero.
    ZeroMaximumAmount,
    /// The configured minimum exceeds the configured maximum.
    MinimumAboveMaximum,
    /// A repayment arrived as a non-fungible instance (nonce not zero).
    NonFungibleInstance,
    /// A repayment's asset differs from the asset lent out.
    PaymentTokenMismatch,
}

/// A caller or the contract itself lacks a required capability.
#[derive(Clone, Copy, Debug, PartialEq, Eq, Structural)]
pub enum PermissionCause {
    /// A configuration change was attempted by a non-administrator.
    NotAdministrator,
    /// The contract holds no local mint capability for the asset.
    MissingLocalMintRole,
    /// The contract holds no local burn capability for the asset.
    MissingLocalBurnRole,
}

/// The loan-session state machine refuses the operation.
#[derive(Clone, Copy, Debug, PartialEq, Eq, Structural)]
pub enum StateCause {
    /// A flash loan was requested while one is already in progress.
    LoanAlreadyOngoing,
    /// A repayment arrived while no loan is in progress.
    LoanNotOngoing,
}

/// Everything a flash-loan operation can fail with.
#[derive(Clone, Copy, Debug, PartialEq, Eq, Structural)]
pub enum FlashMintError {
    /// A malformed or out-of-range request or configuration.
    ValidationError(ValidationCause),
    /// A missing administrator or mint/burn capability.
    PermissionError(PermissionCause),
    /// The operation does not fit the current loan-session state.
    StateError(StateCause),
    /// The accumulated repayment does not cover principal plus fee.
    InsufficientRepayment,
    /// The external action or the fee transfer failed.
    ExternalCallFailure,
}

} // verus!
