//! The error taxonomy of the claim flow.
//!
//! Every backend- or chain-specific failure is mapped into these values
//! before it crosses the crate boundary; no raw backend error leaves the
//! core.

use vstd::prelude::*;
use crate::network::TypedChainId;

verus! {

/// Why a transfer submission failed, as reported by the dispatcher.
#[derive(Clone, Copy, Debug, PartialEq, Eq, Structural)]
pub enum DispatchError {
    /// The chain client rejected or failed the submission call.
    SubmitFailed,
    /// The transaction was submitted but no receipt came back.
    NoReceipt,
    /// A Substrate job asked for an asset transfer, which only native
    /// transfers are supported.
    AssetNotSupported,
    /// Scaling the token amount by the contract's decimals overflowed.
    AmountOverflow,
}

/// Everything that can go wrong with one claim request.
#[derive(Clone, Copy, Debug, PartialEq, Eq, Structural)]
pub enum FaucetError {
    /// The identity value lies outside the range the store can represent;
    /// rejected before any I/O.
    InvalidIdentity,
    /// The claim store backend failed; no side effect has occurred.
    StorageError,
    /// A stored record was corrupt or of a mismatched schema.
    SerializationError,
    /// The identity claimed within the cooldown window; wait the given
    /// number of milliseconds.
    CooldownActive { remaining_ms: u128 },
    /// The requested chain is not in the registry.
    UnsupportedChain,
    /// The dispatcher reported a submission or confirmation failure; no
    /// claim record was written.
    TransferFailed { reason: DispatchError },
    /// The transfer succeeded but recording the claim failed; operators
    /// must reconcile, since a retry risks a double claim.
    PaidButNotRecorded,
}

/// The stable numeric error codes of the HTTP surface.
#[derive(Clone, Copy, Debug, PartialEq, Eq, Structural)]
pub enum FaucetErrorCode {
    /// An error occurred during URI parsing or construction.
    Oauth2InvalidUri,
    /// A token exchange request failed.
    Oauth2ExchangeFailure,
    /// An unknown error occurred during token exchange.
    Oauth2Unknown,
    /// A database error occurred.
    DatabaseError,
    /// A data model serialization error occurred.
    DataSerializationError,
    /// An error occurred while communicating with the identity provider.
    TwitterApiError,
    /// An unknown error occurred.
    CustomError,
}

impl FaucetErrorCode {
    /// The numeric value of each code on the wire.
    pub open spec fn spec_code(&self) -> u64 {
        match self {
            FaucetErrorCode::Oauth2InvalidUri => 100000u64,
            FaucetErrorCode::Oauth2ExchangeFailure => 100001u64,
            FaucetErrorCode::Oauth2Unknown => 100002u64,
            FaucetErrorCode::DatabaseError => 200000u64,
            FaucetErrorCode::DataSerializationError => 200001u64,
            FaucetErrorCode::TwitterApiError => 300000u64,
            FaucetErrorCode::CustomError => 400000u64,
        }
    }

    /// The numeric value of this code on the wire.
    pub fn code(&self) -> (r: u64)
        ensures
            r == self.spec_code(),
    {
        match self {
            Self::Oauth2InvalidUri => 100000,
            Self::Oauth2ExchangeFailure => 100001,
            Self::Oauth2Unknown => 100002,
            Self::DatabaseError => 200000,
            Self::DataSerializationError => 200001,
            Self::TwitterApiError => 300000,
            Self::CustomError => 400000,
        }
    }
}

/// The error code each claim-flow error is reported under.
pub open spec fn spec_error_code(e: FaucetError) -> FaucetErrorCode {
    match e {
        FaucetError::StorageError => FaucetErrorCode::DatabaseError,
        FaucetError::SerializationError => FaucetErrorCode::DataSerializationError,
        FaucetError::InvalidIdentity => FaucetErrorCode::DataSerializationError,
        _ => FaucetErrorCode::CustomError,
    }
}

/// The HTTP status each claim-flow error is reported under: server errors
/// for the store, a client error otherwise.
pub open spec fn spec_error_status(e: FaucetError) -> u16 {
    match e {
        FaucetError::StorageError => 500u16,
        FaucetError::SerializationError => 500u16,
        FaucetError::InvalidIdentity => 500u16,
        _ => 400u16,
    }
}

/// The code and HTTP status one claim-flow error is reported under.
pub fn error_code_and_status(e: &FaucetError) -> (r: (FaucetErrorCode, u16))
    ensures
        r.0 == spec_error_code(*e),
        r.1 == spec_error_status(*e),
{
    match e {
        FaucetError::StorageError => (FaucetErrorCode::DatabaseError, 500),
        FaucetError::SerializationError => (FaucetErrorCode::DataSerializationError, 500),
        FaucetError::InvalidIdentity => (FaucetErrorCode::DataSerializationError, 500),
        FaucetError::CooldownActive { .. } => (FaucetErrorCode::CustomError, 400),
        FaucetError::UnsupportedChain => (FaucetErrorCode::CustomError, 400),
        FaucetError::TransferFailed { .. } => (FaucetErrorCode::CustomError, 400),
        FaucetError::PaidButNotRecorded => (FaucetErrorCode::CustomError, 400),
    }
}

/// The response body the HTTP layer serializes for a failed request.
#[derive(Clone, Debug, PartialEq, Eq)]
pub struct ErrorResponse {
    /// The stable numeric code.
    pub code: FaucetErrorCode,
    /// A human-readable description, built by the caller.
    pub message: String,
}

impl ErrorResponse {
    /// Packs a code and a prepared message into one response body.
    pub fn new(code: FaucetErrorCode, message: String) -> (r: ErrorResponse)
        ensures
            r.code == code,
            r.message@ == message@,
    {
        ErrorResponse { code, message }
    }
}

} // verus!
