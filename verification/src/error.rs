//! The error taxonomy of the validator.
//!
//! Every rejection is one discriminated code; the host's result protocol is
//! tied to the small-integer value that `code` assigns to each variant.

use vstd::prelude::*;

verus! {

/// Every way a validation call can reject.  A value of this enum is the
/// whole user-visible outcome of a failed call.
#[derive(Debug, Clone, Copy, PartialEq, Eq, Structural)]
pub enum Error {
    // Host query-layer errors, mapped from the ledger interface.
    IndexOutOfBound,
    ItemMissing,
    LengthNotEnough,
    InvalidData,
    // Structural errors of the record itself.
    InvalidArgs,
    InvalidWitness,
    InvalidTransaction,
    InvalidTransactionStructure,
    TotalAmountChanged,
    InvalidBeneficiaryClaimedDelta,
    InvalidCreatorClaimedDelta,
    InvalidStateChange,
    // Vesting logic errors.
    InvalidAmount,
    InsufficientVested,
    AlreadyTerminated,
    InvalidEpoch,
    StaleHeader,
    Unauthorized,
    BlockNumberDecrease,
    BlockNumberMismatch,
    // Encoding errors.
    InvalidCellData,
    LoadCellDataFailed,
    WrongDataLength,
    NoMatchingInputCell,
    NoMatchingOutputCell,
    NoHeaderDependencies,
    // Transaction structure errors.
    MultipleInputsNotAllowed,
    CreatorOperationMissingOutput,
    AnonymousUpdateMissingOutput,
    InputDataWrongLength,
    OutputDataWrongLength,
    CreatorFullTerminationHasOutput,
    BeneficiaryFullClaimHasOutput,
    BeneficiaryPartialClaimMissingOutput,
    NothingToTerminate,
}

impl Error {
    /// The wire integer of each variant, fixed by the host's result protocol.
    pub open spec fn spec_code(self) -> i8 {
        match self {
            Error::IndexOutOfBound => 1,
            Error::ItemMissing => 2,
            Error::LengthNotEnough => 3,
            Error::InvalidData => 4,
            Error::InvalidArgs => 10,
            Error::InvalidWitness => 11,
            Error::InvalidTransaction => 12,
            Error::InvalidTransactionStructure => 13,
            Error::TotalAmountChanged => 14,
            Error::InvalidBeneficiaryClaimedDelta => 15,
            Error::InvalidCreatorClaimedDelta => 16,
            Error::InvalidStateChange => 17,
            Error::InvalidAmount => 20,
            Error::InsufficientVested => 21,
            Error::AlreadyTerminated => 22,
            Error::InvalidEpoch => 23,
            Error::StaleHeader => 24,
            Error::Unauthorized => 25,
            Error::BlockNumberDecrease => 26,
            Error::BlockNumberMismatch => 27,
            Error::InvalidCellData => 30,
            Error::LoadCellDataFailed => 31,
            Error::WrongDataLength => 32,
            Error::NoMatchingInputCell => 33,
            Error::NoMatchingOutputCell => 34,
            Error::NoHeaderDependencies => 35,
            Error::MultipleInputsNotAllowed => 36,
            Error::CreatorOperationMissingOutput => 37,
            Error::AnonymousUpdateMissingOutput => 38,
            Error::InputDataWrongLength => 39,
            Error::OutputDataWrongLength => 40,
            Error::CreatorFullTerminationHasOutput => 41,
            Error::BeneficiaryFullClaimHasOutput => 42,
            Error::BeneficiaryPartialClaimMissingOutput => 43,
            Error::NothingToTerminate => 44,
        }
    }

    /// Maps this error to the wire integer the host reports.
    pub fn code(&self) -> (c: i8)
        ensures
            c == self.spec_code(),
    {
        match self {
            Error::IndexOutOfBound => 1,
            Error::ItemMissing => 2,
            Error::LengthNotEnough => 3,
            Error::InvalidData => 4,
            Error::InvalidArgs => 10,
            Error::InvalidWitness => 11,
            Error::InvalidTransaction => 12,
            Error::InvalidTransactionStructure => 13,
            Error::TotalAmountChanged => 14,
            Error::InvalidBeneficiaryClaimedDelta => 15,
            Error::InvalidCreatorClaimedDelta => 16,
            Error::InvalidStateChange => 17,
            Error::InvalidAmount => 20,
            Error::InsufficientVested => 21,
            Error::AlreadyTerminated => 22,
            Error::InvalidEpoch => 23,
            Error::StaleHeader => 24,
            Error::Unauthorized => 25,
            Error::BlockNumberDecrease => 26,
            Error::BlockNumberMismatch => 27,
            Error::InvalidCellData => 30,
            Error::LoadCellDataFailed => 31,
            Error::WrongDataLength => 32,
            Error::NoMatchingInputCell => 33,
            Error::NoMatchingOutputCell => 34,
            Error::NoHeaderDependencies => 35,
            Error::MultipleInputsNotAllowed => 36,
            Error::CreatorOperationMissingOutput => 37,
            Error::AnonymousUpdateMissingOutput => 38,
            Error::InputDataWrongLength => 39,
            Error::OutputDataWrongLength => 40,
            Error::CreatorFullTerminationHasOutput => 41,
            Error::BeneficiaryFullClaimHasOutput => 42,
            Error::BeneficiaryPartialClaimMissingOutput => 43,
            Error::NothingToTerminate => 44,
        }
    }
}

} // verus!
