//! The status taxonomy: the closed set of rejection reasons the validator can
//! produce, the classification each carries, and what that classification
//! means for the ledger (discard without a trace, or keep and charge).

use vstd::prelude::*;

verus! {

/// The closed set of rejection reasons. Callers match on exact codes, so the
/// set is total: there is no open-ended or stringly-typed fallback.
#[derive(Clone, Copy, Debug, PartialEq, Eq, Structural)]
pub enum StatusCode {
    /// The transaction names a chain other than the executing ledger's.
    BadChainId,
    /// The transaction's expiration time is before the current ledger time.
    TransactionExpired,
    /// No account record exists under the sender address.
    SendingAccountDoesNotExist,
    /// The signature does not verify against the serialized transaction and
    /// the claimed public key.
    InvalidSignature,
    /// The hash of the claimed public key is not the account's current
    /// authentication key.
    InvalidAuthKey,
    /// The transaction's sequence number is below the account's.
    SequenceNumberTooOld,
    /// The transaction's sequence number is above the account's.
    SequenceNumberTooNew,
    /// The balance in the gas currency cannot cover the maximal gas fee.
    InsufficientBalanceForTransactionFee,
    /// The gas unit price is below the configured minimum.
    GasUnitPriceBelowMinBound,
    /// The gas unit price is above the configured maximum.
    GasUnitPriceAboveMaxBound,
    /// The gas allowance is below the floor any transaction needs.
    MaxGasUnitsBelowMinTransactionGasUnits,
    /// The gas allowance is above the ceiling.
    MaxGasUnitsExceedsMaxGasUnitsBound,
    /// The serialized transaction is larger than the size cap.
    ExceededMaxTransactionSize,
    /// Under a locked policy, the script's content hash is not whitelisted.
    UnknownScript,
    /// Under a policy that gates publishing, the sender may not publish code.
    InvalidModulePublisher,
    /// Under the open policy, the module declares an address other than the
    /// sender's.
    ModuleAddressDoesNotMatchSender,
    /// The payload's code bytes do not deserialize.
    CodeDeserializationError,
    /// The supplied arguments do not match the script's declared signature.
    TypeMismatch,
    /// A dependency reachable from the payload failed bytecode verification.
    InvalidResourceField,
}

/// The classification a status code carries. It decides whether a rejected
/// transaction is discarded (no ledger record, no cost) or kept (recorded,
/// sequence number advanced, gas debited).
#[derive(Clone, Copy, Debug, PartialEq, Eq, Structural)]
pub enum StatusType {
    Validation,
    Verification,
    Deserialization,
    InvariantViolation,
    Execution,
}

/// Each status code maps to exactly one status type.
pub open spec fn spec_status_type(code: StatusCode) -> StatusType {
    match code {
        StatusCode::BadChainId => StatusType::Validation,
        StatusCode::TransactionExpired => StatusType::Validation,
        StatusCode::SendingAccountDoesNotExist => StatusType::Validation,
        StatusCode::InvalidSignature => StatusType::Validation,
        StatusCode::InvalidAuthKey => StatusType::Validation,
        StatusCode::SequenceNumberTooOld => StatusType::Validation,
        StatusCode::SequenceNumberTooNew => StatusType::Validation,
        StatusCode::InsufficientBalanceForTransactionFee => StatusType::Validation,
        StatusCode::GasUnitPriceBelowMinBound => StatusType::Validation,
        StatusCode::GasUnitPriceAboveMaxBound => StatusType::Validation,
        StatusCode::MaxGasUnitsBelowMinTransactionGasUnits => StatusType::Validation,
        StatusCode::MaxGasUnitsExceedsMaxGasUnitsBound => StatusType::Validation,
        StatusCode::ExceededMaxTransactionSize => StatusType::Validation,
        StatusCode::UnknownScript => StatusType::Execution,
        StatusCode::InvalidModulePublisher => StatusType::Execution,
        StatusCode::ModuleAddressDoesNotMatchSender => StatusType::Execution,
        StatusCode::CodeDeserializationError => StatusType::Deserialization,
        StatusCode::TypeMismatch => StatusType::Execution,
        StatusCode::InvalidResourceField => StatusType::Verification,
    }
}

/// Validation failures (and invariant violations) are discarded: the
/// transaction leaves no ledger trace and costs nothing. Every other
/// classification is kept: recorded on the ledger, the sender's sequence
/// number advances and gas is debited.
pub open spec fn spec_type_is_discarded(t: StatusType) -> bool {
    t == StatusType::Validation || t == StatusType::InvariantViolation
}

impl StatusCode {
    /// The status type this code maps to.
    pub fn status_type(self) -> (t: StatusType)
        ensures
            t == spec_status_type(self),
    {
        match self {
            StatusCode::BadChainId => StatusType::Validation,
            StatusCode::TransactionExpired => StatusType::Validation,
            StatusCode::SendingAccountDoesNotExist => StatusType::Validation,
            StatusCode::InvalidSignature => StatusType::Validation,
            StatusCode::InvalidAuthKey => StatusType::Validation,
            StatusCode::SequenceNumberTooOld => StatusType::Validation,
            StatusCode::SequenceNumberTooNew => StatusType::Validation,
            StatusCode::InsufficientBalanceForTransactionFee => StatusType::Validation,
            StatusCode::GasUnitPriceBelowMinBound => StatusType::Validation,
            StatusCode::GasUnitPriceAboveMaxBound => StatusType::Validation,
            StatusCode::MaxGasUnitsBelowMinTransactionGasUnits => StatusType::Validation,
            StatusCode::MaxGasUnitsExceedsMaxGasUnitsBound => StatusType::Validation,
            StatusCode::ExceededMaxTransactionSize => StatusType::Validation,
            StatusCode::UnknownScript => StatusType::Execution,
            StatusCode::InvalidModulePublisher => StatusType::Execution,
            StatusCode::ModuleAddressDoesNotMatchSender => StatusType::Execution,
            StatusCode::CodeDeserializationError => StatusType::Deserialization,
            StatusCode::TypeMismatch => StatusType::Execution,
            StatusCode::InvalidResourceField => StatusType::Verification,
        }
    }

    /// Whether a rejection with this code is discarded rather than kept.
    pub fn is_discarded(self) -> (r: bool)
        ensures
            r == spec_type_is_discarded(spec_status_type(self)),
    {
        self.status_type().is_discarded()
    }
}

impl StatusType {
    /// Whether a rejection of this type is discarded rather than kept.
    pub fn is_discarded(self) -> (r: bool)
        ensures
            r == spec_type_is_discarded(self),
    {
        match self {
            StatusType::Validation => true,
            StatusType::InvariantViolation => true,
            StatusType::Verification => false,
            StatusType::Deserialization => false,
            StatusType::Execution => false,
        }
    }
}

/// The verdict of the validation pipeline: acceptance, or the first failing
/// check's status code together with its classification.
#[derive(Clone, Copy, Debug, PartialEq, Eq, Structural)]
pub enum ValidationOutcome {
    Accepted,
    Rejected(StatusCode, StatusType),
}

/// The rejection carrying the one status type its code maps to.
pub open spec fn spec_rejected(code: StatusCode) -> ValidationOutcome {
    ValidationOutcome::Rejected(code, spec_status_type(code))
}

impl ValidationOutcome {
    /// The rejection carrying the one status type its code maps to.
    pub fn rejected(code: StatusCode) -> (r: ValidationOutcome)
        ensures
            r == spec_rejected(code),
    {
        ValidationOutcome::Rejected(code, code.status_type())
    }

    pub fn is_accepted(&self) -> (r: bool)
        ensures
            r == (*self == ValidationOutcome::Accepted),
    {
        match self {
            ValidationOutcome::Accepted => true,
            ValidationOutcome::Rejected(_, _) => false,
        }
    }
}

/// The verdict the pipeline hands to the execution side: a terminal
/// execution status for the ledger.
#[derive(Clone, Copy, Debug, PartialEq, Eq, Structural)]
pub enum VMStatus {
    /// The prologue passed and the payload may run.
    Executed,
    Error(StatusCode),
}

/// What the ledger records for a transaction once the execution gate has
/// run: dropped without a trace, or kept with its effects.
#[derive(Clone, Copy, Debug, PartialEq, Eq, Structural)]
pub enum TransactionStatus {
    Discard(StatusCode),
    Keep(VMStatus),
}

} // verus!
