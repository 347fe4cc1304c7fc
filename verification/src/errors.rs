//! The errors that the accessors report, by the occasion on which they do.

use vstd::prelude::*;
use crate::error::ProgramError;

verus! {

/// The error for a mutable operation on an account that is not writable.
pub fn account_not_writable() -> (e: ProgramError)
    ensures
        e == ProgramError::InvalidAccountData,
{
    ProgramError::InvalidAccountData
}

/// The error for account data that is too short or of the wrong type.
pub fn invalid_account_data() -> (e: ProgramError)
    ensures
        e == ProgramError::InvalidAccountData,
{
    ProgramError::InvalidAccountData
}

/// The error for initializing an account a second time.
pub fn account_already_initialized() -> (e: ProgramError)
    ensures
        e == ProgramError::AccountAlreadyInitialized,
{
    ProgramError::AccountAlreadyInitialized
}

} // verus!
