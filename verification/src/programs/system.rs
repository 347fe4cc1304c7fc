//! The system program as an account of an instruction.

use vstd::prelude::*;
use crate::address::address_eq;
use crate::error::ProgramError;
use crate::handle::{AccountHandle, AccountState};
use crate::programs::ids::SYSTEM_PROGRAM_ID;
use crate::programs::traits::{address_check, ValidatedAccount};

verus! {

/// An account that is the system program.
pub struct SystemProgram<'a> {
    info: &'a AccountHandle,
}

impl<'a> SystemProgram<'a> {
    #[verifier::type_invariant]
    spec fn checked(self) -> bool {
        address_check(self.info@, SYSTEM_PROGRAM_ID@) is Ok
    }
}

impl<'a> ValidatedAccount<'a> for SystemProgram<'a> {
    /// The account's address is that of the system program; any other is refused with
    /// `IncorrectProgramId`.
    open spec fn admits(account: AccountState) -> Result<(), ProgramError> {
        address_check(account, SYSTEM_PROGRAM_ID@)
    }

    closed spec fn account(&self) -> AccountHandle {
        *self.info
    }

    fn wrap(info: &'a AccountHandle) -> (r: Result<Self, ProgramError>) {
        if !address_eq(&info.address, &SYSTEM_PROGRAM_ID) {
            return Err(ProgramError::IncorrectProgramId);
        }
        Ok(SystemProgram { info })
    }

    fn info(&self) -> (info: &'a AccountHandle) {
        proof {
            use_type_invariant(self);
            assert(Self::admits(self.info@) is Ok);
        }
        self.info
    }
}

} // verus!
