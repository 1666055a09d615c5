//! Why an invocation was aborted.

use vstd::prelude::*;
use crate::identity::Identity;
use solana_program::program_error::ProgramError;

verus! {

/// `solana_program::program_error::ProgramError`, the error value of the
/// ledger's programs. The library carries it through unread.
#[verifier::external_type_specification]
#[verifier::external_body]
pub struct ExProgramError(ProgramError);

/// The stage at which an invocation failed, with what that stage reports.
#[derive(Debug, PartialEq, Eq)]
pub enum BurnError {
    /// Fewer accounts were supplied than the stage reached had to read.
    NotEnoughAccountKeys,
    /// The owner account is not flagged as a signer.
    MissingSignature,
    /// The configured asset identifier does not parse.
    ConfigurationError,
    /// No associated token address exists for the owner and the asset.
    NoDerivedAddress,
    /// The supplied token account is not the one derived for the owner.
    AddressMismatch { expected: Identity, received: Identity },
    /// The supplied asset account is not the configured asset.
    AssetMismatch,
    /// The token account's data is too short to hold a balance record.
    InvalidAccountData,
    /// The ledger refused to build the burn instruction.
    InstructionBuildError(ProgramError),
    /// The ledger failed the dispatched instruction.
    InvocationFailure(ProgramError),
}

/// A [`BurnError`] with its identities as byte sequences.
pub enum Failure {
    NotEnoughAccountKeys,
    MissingSignature,
    ConfigurationError,
    NoDerivedAddress,
    AddressMismatch { expected: Seq<u8>, received: Seq<u8> },
    AssetMismatch,
    InvalidAccountData,
    InstructionBuildError(ProgramError),
    InvocationFailure(ProgramError),
}

impl View for BurnError {
    type V = Failure;

    open spec fn view(&self) -> Failure {
        match *self {
            BurnError::NotEnoughAccountKeys => Failure::NotEnoughAccountKeys,
            BurnError::MissingSignature => Failure::MissingSignature,
            BurnError::ConfigurationError => Failure::ConfigurationError,
            BurnError::NoDerivedAddress => Failure::NoDerivedAddress,
            BurnError::AddressMismatch { expected, received } => Failure::AddressMismatch {
                expected: expected@,
                received: received@,
            },
            BurnError::AssetMismatch => Failure::AssetMismatch,
            BurnError::InvalidAccountData => Failure::InvalidAccountData,
            BurnError::InstructionBuildError(error) => Failure::InstructionBuildError(error),
            BurnError::InvocationFailure(error) => Failure::InvocationFailure(error),
        }
    }
}

} // verus!
