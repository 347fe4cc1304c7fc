//! The token programs as an account of an instruction.

use vstd::prelude::*;
use crate::address::address_eq;
use crate::error::ProgramError;
use crate::handle::{AccountHandle, AccountState};
use crate::programs::ids::{TOKEN_2022_PROGRAM_ID, TOKEN_PROGRAM_ID};
use crate::programs::traits::{either_address_check, ValidatedAccount};

verus! {

/// An account that is the token program or the extended token program.
pub struct TokenProgram<'a> {
    info: &'a AccountHandle,
}

impl<'a> TokenProgram<'a> {
    #[verifier::type_invariant]
    spec fn checked(self) -> bool {
        either_address_check(self.info@, TOKEN_PROGRAM_ID@, TOKEN_2022_PROGRAM_ID@) is Ok
    }

    /// Whether this is the extended token program.
    pub fn is_token_2022(&self) -> (extended: bool)
        ensures
            extended == (self.account().address@ == TOKEN_2022_PROGRAM_ID@),
            !extended ==> self.account().address@ == TOKEN_PROGRAM_ID@,
    {
        proof {
            use_type_invariant(self);
        }
        address_eq(&self.info.address, &TOKEN_2022_PROGRAM_ID)
    }
}

impl<'a> ValidatedAccount<'a> for TokenProgram<'a> {
    /// The account's address is that of the token program or of the extended
    /// token program; any other is refused with `IncorrectProgramId`.
    open spec fn admits(account: AccountState) -> Result<(), ProgramError> {
        either_address_check(account, TOKEN_PROGRAM_ID@, TOKEN_2022_PROGRAM_ID@)
    }

    closed spec fn account(&self) -> AccountHandle {
        *self.info
    }

    fn wrap(info: &'a AccountHandle) -> (r: Result<Self, ProgramError>) {
        if !address_eq(&info.address, &TOKEN_PROGRAM_ID) && !address_eq(
            &info.address,
            &TOKEN_2022_PROGRAM_ID,
        ) {
            return Err(ProgramError::IncorrectProgramId);
        }
        Ok(TokenProgram { info })
    }

    fn info(&self) -> (info: &'a AccountHandle) {
        proof {
            use_type_invariant(self);
            assert(Self::admits(self.info@) is Ok);
        }
        self.info
    }
}

} // verus!
