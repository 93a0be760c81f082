//! Error taxonomy.
//!
//! Storage-level failures are distinct from the API-level taxonomy the
//! pipeline reports; a flow wraps a storage failure in its own response
//! while preserving the underlying kind for diagnostics.

use vstd::prelude::*;

verus! {

/// Failure of one storage-interface call.
#[derive(Clone, Copy, Debug, PartialEq, Eq, Structural)]
pub enum StorageError {
    /// The record's identity already exists, under either backend.
    DuplicateRecord,
    /// No record with the requested business key.
    NotFound,
    /// The cache write succeeded but the change-stream append failed: the
    /// row is cache-resident and unreplicated.
    StreamAppendFailed,
    /// The operation is not offered under the selected storage scheme.
    NotSupported,
}

/// Reason a request is rejected before any persistence.
#[derive(Clone, Copy, Debug, PartialEq, Eq, Structural)]
pub enum ValidationIssue {
    /// The merchant id in the request does not match the authenticated
    /// merchant.
    MerchantIdMismatch,
    /// A monetary amount is negative.
    NegativeAmount,
    /// A refund asks for more than the intent's remaining refundable amount.
    RefundExceedsRemaining,
    /// The requested status change is not a legal transition of the entity's
    /// state machine, or would leave a terminal status.
    IllegalStatusTransition,
    /// The request supplies both new-mandate data and an existing mandate
    /// id; a transaction sets up a new mandate or charges a recorded one,
    /// never both.
    AmbiguousMandate,
}

/// Failure of one pipeline run, as reported to the caller.
#[derive(Clone, Copy, Debug, PartialEq, Eq, Structural)]
pub enum ApiError {
    /// Malformed or inconsistent input, rejected before any persistence.
    Validation(ValidationIssue),
    /// A record the flow needs does not exist.
    NotFound,
    /// An identity collision, from either backend.
    DuplicateRecord,
    /// A change-stream append failed after a successful cache write; always
    /// surfaced, never silently retried.
    Consistency,
    /// A connector-side failure.
    Downstream,
    /// An unexpected backend fault.
    Internal,
    /// A verification flow's own failure response, wrapping the storage
    /// error kind that caused it.
    VerificationFailed(StorageError),
}

/// The API-level kind a bare storage failure maps to.
pub open spec fn spec_storage_to_api_error(e: StorageError) -> ApiError {
    match e {
        StorageError::DuplicateRecord => ApiError::DuplicateRecord,
        StorageError::NotFound => ApiError::NotFound,
        StorageError::StreamAppendFailed => ApiError::Consistency,
        StorageError::NotSupported => ApiError::Internal,
    }
}

/// Maps a storage failure to the API-level taxonomy.
pub fn storage_to_api_error(e: StorageError) -> (r: ApiError)
    ensures
        r == spec_storage_to_api_error(e),
{
    match e {
        StorageError::DuplicateRecord => ApiError::DuplicateRecord,
        StorageError::NotFound => ApiError::NotFound,
        StorageError::StreamAppendFailed => ApiError::Consistency,
        StorageError::NotSupported => ApiError::Internal,
    }
}

} // verus!
