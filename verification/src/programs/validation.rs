//! Checks of an account's identity that wrap nothing.

use vstd::prelude::*;
use crate::address::address_eq;
use crate::error::ProgramError;
use crate::handle::AccountHandle;
use crate::programs::ids::{
    CLOCK_SYSVAR_ID, RENT_SYSVAR_ID, SLOT_HASHES_SYSVAR_ID, SYSTEM_PROGRAM_ID,
    TOKEN_2022_PROGRAM_ID, TOKEN_PROGRAM_ID,
};
use crate::programs::traits::{address_check, either_address_check};

verus! {

/// Checks that an account is the token program or the extended token
/// program.
pub fn validate_token_program(account: &AccountHandle) -> (r: Result<(), ProgramError>)
    ensures
        r == either_address_check(account@, TOKEN_PROGRAM_ID@, TOKEN_2022_PROGRAM_ID@),
{
    if !address_eq(&account.address, &TOKEN_PROGRAM_ID) && !address_eq(
        &account.address,
        &TOKEN_2022_PROGRAM_ID,
    ) {
        return Err(ProgramError::IncorrectProgramId);
    }
    Ok(())
}

/// Checks that an account is the system program.
pub fn validate_system_program(account: &AccountHandle) -> (r: Result<(), ProgramError>)
    ensures
        r == address_check(account@, SYSTEM_PROGRAM_ID@),
{
    if !address_eq(&account.address, &SYSTEM_PROGRAM_ID) {
        return Err(ProgramError::IncorrectProgramId);
    }
    Ok(())
}

/// Checks that an account is the clock sysvar.
pub fn validate_clock_sysvar(account: &AccountHandle) -> (r: Result<(), ProgramError>)
    ensures
        r == address_check(account@, CLOCK_SYSVAR_ID@),
{
    if !address_eq(&account.address, &CLOCK_SYSVAR_ID) {
        return Err(ProgramError::IncorrectProgramId);
    }
    Ok(())
}

/// Checks that an account is the slot-hashes sysvar.
pub fn validate_slot_hashes_sysvar(account: &AccountHandle) -> (r: Result<(), ProgramError>)
    ensures
        r == address_check(account@, SLOT_HASHES_SYSVAR_ID@),
{
    if !address_eq(&account.address, &SLOT_HASHES_SYSVAR_ID) {
        return Err(ProgramError::IncorrectProgramId);
    }
    Ok(())
}

/// Checks that an account is the rent sysvar.
pub fn validate_rent_sysvar(account: &AccountHandle) -> (r: Result<(), ProgramError>)
    ensures
        r == address_check(account@, RENT_SYSVAR_ID@),
{
    if !address_eq(&account.address, &RENT_SYSVAR_ID) {
        return Err(ProgramError::IncorrectProgramId);
    }
    Ok(())
}

} // verus!
