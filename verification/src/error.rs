//! Outcomes that a call can end in, other than success.

use vstd::prelude::*;

verus! {

/// Why a cache operation did not produce its result.
#[derive(Clone, Copy, Debug, PartialEq, Eq, Structural)]
pub enum CacheError {
    /// A malformed identifier or options value, or options that exclude each other.
    InvalidArgument,
    /// Nothing is cached and the options forbid asking the ledger.
    StaleRequired,
    /// No state-proof parser is registered for the reply's transaction type.
    UnknownTransactionType,
    /// The reply's state proof did not validate against the signed root.
    StateProofVerificationFailed,
    /// Submitting to the ledger failed or timed out.
    TransportFailure,
    /// The wallet failed a read, a write or a delete.
    StorageFailure,
}

/// The wallet reported that a read, a write or a delete did not go through.
#[derive(Clone, Copy, Debug, PartialEq, Eq, Structural)]
pub struct StorageFailure;

/// The transport reported that a submission failed or timed out.
#[derive(Clone, Copy, Debug, PartialEq, Eq, Structural)]
pub struct TransportFailure;

/// Status codes of the call boundary.
#[derive(Clone, Copy, Debug, PartialEq, Eq, Structural)]
pub enum ErrorCode {
    Success,
    CommonInvalidParam1,
    CommonInvalidParam2,
    CommonInvalidParam3,
    CommonInvalidParam4,
    CommonInvalidParam5,
    CommonInvalidParam6,
    CommonInvalidParam7,
    CommonInvalidParam8,
    CommonInvalidParam9,
    CommonInvalidParam10,
    CommonInvalidParam11,
    CommonInvalidParam12,
    CommonInvalidState,
    CommonInvalidStructure,
    CommonIOError,
    CommonInvalidParam13,
    CommonInvalidParam14,
    WalletStorageError,
    LedgerNoConsensusError,
    LedgerInvalidTransaction,
    PoolLedgerTimeout,
    LedgerNotFound,
}

impl ErrorCode {
    /// The number that stands for this status on the wire.
    pub open spec fn spec_code(self) -> int {
        match self {
            ErrorCode::Success => 0,
            ErrorCode::CommonInvalidParam1 => 100,
            ErrorCode::CommonInvalidParam2 => 101,
            ErrorCode::CommonInvalidParam3 => 102,
            ErrorCode::CommonInvalidParam4 => 103,
            ErrorCode::CommonInvalidParam5 => 104,
            ErrorCode::CommonInvalidParam6 => 105,
            ErrorCode::CommonInvalidParam7 => 106,
            ErrorCode::CommonInvalidParam8 => 107,
            ErrorCode::CommonInvalidParam9 => 108,
            ErrorCode::CommonInvalidParam10 => 109,
            ErrorCode::CommonInvalidParam11 => 110,
            ErrorCode::CommonInvalidParam12 => 111,
            ErrorCode::CommonInvalidState => 112,
            ErrorCode::CommonInvalidStructure => 113,
            ErrorCode::CommonIOError => 114,
            ErrorCode::CommonInvalidParam13 => 115,
            ErrorCode::CommonInvalidParam14 => 116,
            ErrorCode::WalletStorageError => 210,
            ErrorCode::LedgerNoConsensusError => 303,
            ErrorCode::LedgerInvalidTransaction => 304,
            ErrorCode::PoolLedgerTimeout => 307,
            ErrorCode::LedgerNotFound => 309,
        }
    }

    /// The number that stands for this status on the wire.
    pub fn code(self) -> (n: i32)
        ensures
            n == self.spec_code(),
    {
        match self {
            ErrorCode::Success => 0,
            ErrorCode::CommonInvalidParam1 => 100,
            ErrorCode::CommonInvalidParam2 => 101,
            ErrorCode::CommonInvalidParam3 => 102,
            ErrorCode::CommonInvalidParam4 => 103,
            ErrorCode::CommonInvalidParam5 => 104,
            ErrorCode::CommonInvalidParam6 => 105,
            ErrorCode::CommonInvalidParam7 => 106,
            ErrorCode::CommonInvalidParam8 => 107,
            ErrorCode::CommonInvalidParam9 => 108,
            ErrorCode::CommonInvalidParam10 => 109,
            ErrorCode::CommonInvalidParam11 => 110,
            ErrorCode::CommonInvalidParam12 => 111,
            ErrorCode::CommonInvalidState => 112,
            ErrorCode::CommonInvalidStructure => 113,
            ErrorCode::CommonIOError => 114,
            ErrorCode::CommonInvalidParam13 => 115,
            ErrorCode::CommonInvalidParam14 => 116,
            ErrorCode::WalletStorageError => 210,
            ErrorCode::LedgerNoConsensusError => 303,
            ErrorCode::LedgerInvalidTransaction => 304,
            ErrorCode::PoolLedgerTimeout => 307,
            ErrorCode::LedgerNotFound => 309,
        }
    }
}

impl CacheError {
    /// The boundary status under which this outcome is reported.
    pub open spec fn spec_status(self) -> ErrorCode {
        match self {
            CacheError::InvalidArgument => ErrorCode::CommonInvalidStructure,
            CacheError::StaleRequired => ErrorCode::LedgerNotFound,
            CacheError::UnknownTransactionType => ErrorCode::LedgerInvalidTransaction,
            CacheError::StateProofVerificationFailed => ErrorCode::LedgerNoConsensusError,
            CacheError::TransportFailure => ErrorCode::PoolLedgerTimeout,
            CacheError::StorageFailure => ErrorCode::WalletStorageError,
        }
    }

    /// The boundary status under which this outcome is reported.
    pub fn status(self) -> (code: ErrorCode)
        ensures
            code == self.spec_status(),
    {
        match self {
            CacheError::InvalidArgument => ErrorCode::CommonInvalidStructure,
            CacheError::StaleRequired => ErrorCode::LedgerNotFound,
            CacheError::UnknownTransactionType => ErrorCode::LedgerInvalidTransaction,
            CacheError::StateProofVerificationFailed => ErrorCode::LedgerNoConsensusError,
            CacheError::TransportFailure => ErrorCode::PoolLedgerTimeout,
            CacheError::StorageFailure => ErrorCode::WalletStorageError,
        }
    }
}

} // verus!
