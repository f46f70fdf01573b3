//! Reasons a bridge call is rejected.

use vstd::prelude::*;

verus! {

/// Why a bridge call was rejected. Every rejection undoes the whole call.
#[derive(Clone, Copy, Debug, PartialEq, Eq, Structural)]
pub enum Error {
    /// The token is absent from the registry or not whitelisted.
    TokenNotWhitelisted,
    /// The amount is below the token's minimum.
    AmountTooSmall,
    /// The amount is above the token's maximum.
    AmountTooLarge,
    /// The operation needs a canonical token.
    TokenNotCanonical,
    /// The operation needs a wrapped token.
    TokenNotWrapped,
    /// The fee rate is above 10000 basis points.
    FeeTooHigh,
    /// No fee receiver is configured.
    FeeReceiverNotSet,
    /// The remote event was already settled.
    EventAlreadyHandled,
    /// The caller lacks the capability the operation needs.
    MissingRole,
    /// The bridge must be paused first.
    PausedRequired,
    /// The bridge must be unpaused first.
    UnpausedRequired,
}

/// The numeric reason code of each error.
pub open spec fn error_code(e: Error) -> u16 {
    match e {
        Error::TokenNotWhitelisted => 10_000,
        Error::AmountTooSmall => 10_001,
        Error::AmountTooLarge => 10_002,
        Error::TokenNotCanonical => 10_003,
        Error::TokenNotWrapped => 10_004,
        Error::FeeTooHigh => 10_005,
        Error::FeeReceiverNotSet => 10_006,
        Error::EventAlreadyHandled => 10_007,
        Error::MissingRole => 20_003,
        Error::PausedRequired => 21_000,
        Error::UnpausedRequired => 21_001,
    }
}

impl Error {
    /// The numeric reason code reported to the caller.
    pub fn code(&self) -> (r: u16)
        ensures
            r == error_code(*self),
    {
        match self {
            Error::TokenNotWhitelisted => 10_000,
            Error::AmountTooSmall => 10_001,
            Error::AmountTooLarge => 10_002,
            Error::TokenNotCanonical => 10_003,
            Error::TokenNotWrapped => 10_004,
            Error::FeeTooHigh => 10_005,
            Error::FeeReceiverNotSet => 10_006,
            Error::EventAlreadyHandled => 10_007,
            Error::MissingRole => 20_003,
            Error::PausedRequired => 21_000,
            Error::UnpausedRequired => 21_001,
        }
    }
}

} // verus!
