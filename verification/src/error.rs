//! The error taxonomy shared by every handler in the crate.

use vstd::prelude::*;

verus! {

/// Everything that can go wrong inside a handler.
///
/// Each variant is produced by exactly the inputs its handler's contract
/// names; no handler panics.
#[derive(Debug, PartialEq, Eq)]
pub enum ContractError {
    /// The contract cannot be instantiated directly; it only exists as a
    /// migration target of an older deployment.
    CannotInstantiate,
    /// The caller is neither whitelisted nor the manager.
    Unauthorized,
    /// A migration batch was requested before the configuration gate ran.
    NotConfigured,
    /// An account identifier is not syntactically well formed.
    InvalidAddress,
    /// A denomination failed validation; carries the offending denomination
    /// and a human-readable reason.
    InvalidDenom { denom: String, message: String },
    /// The aggregate supply counter would go negative.
    SupplyUnderflow,
    /// A conversion was requested without attaching any funds.
    NoFundsSent,
    /// The attached funds are unusable for the requested operation.
    InvalidFunds,
    /// No denomination was provided where at least one is required.
    NoDenomsProvided,
    /// A token return arrived from a contract other than the configured one.
    InvalidCW20Address,
    /// The requested record does not exist; carries the record's name.
    NotFound { what: String },
    /// An instantiation input failed validation; carries the reason.
    InvalidInput { message: String },
}

} // verus!
