//! The errors of the program.
use vstd::prelude::*;

verus! {

/// Why an invocation was aborted.
///
/// Every error ends the invocation: nothing is retried, and the host discards
/// whatever the invocation had done so far.
///
/// The first two variants are the program's own errors and reach the caller as
/// custom codes (see [`RoyaltyDistributorError::custom_code`]); the others stand
/// for the host's built-in program errors of the same meaning.
#[derive(Copy, Clone, Debug, PartialEq, Eq, Structural)]
pub enum RoyaltyDistributorError {
    /// The instruction bytes are empty, carry an unknown tag, or end before
    /// the payload is complete.
    InvalidInstruction,
    /// The state account does not hold the deposit that keeps it alive.
    NotRentExempt,
    /// Account data has the wrong length or does not decode.
    InvalidAccountData,
    /// The account that starts the operation did not sign the call.
    MissingRequiredSignature,
    /// The account that holds the pool is not owned by the token program.
    /// The host reports it as an incorrect program id.
    IncorrectOwnership,
    /// The state account was initialized before.
    AccountAlreadyInitialized,
    /// The account was expected to be initialized and is not.
    UninitializedAccount,
    /// The call came with fewer accounts than the instruction needs.
    NotEnoughAccountKeys,
    /// The account in the place of the rent sysvar is not that sysvar.
    InvalidArgument,
    /// The account in the place of the token program is not the token program.
    IncorrectProgramId,
    /// No authority address can be derived for this program.
    InvalidSeeds,
}

impl RoyaltyDistributorError {
    /// The custom code under which the host reports the error, for the
    /// program's own errors; `None` for those the host has a name for.
    pub open spec fn spec_custom_code(self) -> Option<u32> {
        match self {
            RoyaltyDistributorError::InvalidInstruction => Some(0u32),
            RoyaltyDistributorError::NotRentExempt => Some(1u32),
            _ => None,
        }
    }

    /// The custom code of the error, if it is one of the program's own.
    pub fn custom_code(&self) -> (code: Option<u32>)
        ensures
            code == self.spec_custom_code(),
    {
        match self {
            RoyaltyDistributorError::InvalidInstruction => Some(0),
            RoyaltyDistributorError::NotRentExempt => Some(1),
            _ => None,
        }
    }
}

} // verus!
