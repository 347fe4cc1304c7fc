//! What every role wrapper offers.

use vstd::prelude::*;
use crate::address::Address;
use crate::error::ProgramError;
use crate::handle::{AccountHandle, AccountState};

verus! {

/// A wrapper that admits a raw handle to one role after one check, without
/// reading the account's data as a type.
pub trait ValidatedAccount<'a>: Sized {
    /// What the check of this role finds in an account.
    open spec fn admits(account: AccountState) -> Result<(), ProgramError> {
        arbitrary()
    }

    /// The account that a wrapper holds.
    open spec fn account(&self) -> AccountHandle {
        arbitrary()
    }

    /// Checks the handle and wraps it.
    fn wrap(info: &'a AccountHandle) -> (r: Result<Self, ProgramError>)
        ensures
            match r {
                Ok(wrapped) => Self::admits(info@) is Ok && wrapped.account() == *info,
                Err(e) => Self::admits(info@) == Err::<(), ProgramError>(e),
            },
    ;

    /// The handle behind the wrapper. It passes the check of the role: no
    /// wrapper holds a handle that was not admitted.
    fn info(&self) -> (info: &'a AccountHandle)
        ensures
            *info == self.account(),
            Self::admits(info@) is Ok,
    ;

    /// The account's address.
    fn address(&self) -> (address: &'a Address)
        ensures
            *address == self.account().address,
    {
        &self.info().address
    }
}

/// The check that an account's address is `expected`.
pub open spec fn address_check(account: AccountState, expected: Seq<u8>) -> Result<
    (),
    ProgramError,
> {
    if account.address == expected {
        Ok(())
    } else {
        Err(ProgramError::IncorrectProgramId)
    }
}

/// The check that an account's address is one of two.
pub open spec fn either_address_check(
    account: AccountState,
    first: Seq<u8>,
    second: Seq<u8>,
) -> Result<(), ProgramError> {
    if account.address == first || account.address == second {
        Ok(())
    } else {
        Err(ProgramError::IncorrectProgramId)
    }
}

} // verus!
