//! Address-lookup-table accounts, created or not yet.

use vstd::prelude::*;
use crate::address::{address_eq, Address};
use crate::error::ProgramError;
use crate::handle::{AccountHandle, AccountState};
use crate::programs::ids::{ADDRESS_LOOKUP_TABLE_PROGRAM_ID, SYSTEM_PROGRAM_ID};

verus! {

/// What wrapping a lookup-table account finds: whether the table is
/// initialized, or `IllegalOwner`. An account of the system program is a
/// table not yet created; an account of the lookup-table program is
/// initialized when its data starts with 1.
pub open spec fn lut_state(account: AccountState) -> Result<bool, ProgramError> {
    if account.owner == SYSTEM_PROGRAM_ID@ {
        Ok(false)
    } else if account.owner == ADDRESS_LOOKUP_TABLE_PROGRAM_ID@ {
        Ok(account.data.len() > 0 && account.data[0] == 1)
    } else {
        Err(ProgramError::IllegalOwner)
    }
}

/// A lookup-table account, with what its owner and data say of its state.
pub struct Lut<'a> {
    info: &'a AccountHandle,
    initialized: bool,
}

impl<'a> Lut<'a> {
    #[verifier::type_invariant]
    spec fn checked(self) -> bool {
        lut_state(self.info@) == Ok::<bool, ProgramError>(self.initialized)
    }

    /// The account that the wrapper holds.
    pub closed spec fn account(&self) -> AccountHandle {
        *self.info
    }

    /// Wraps a lookup-table account and notes whether it is initialized.
    pub fn wrap(info: &'a AccountHandle) -> (r: Result<Self, ProgramError>)
        ensures
            match r {
                Ok(lut) => lut_state(info@) is Ok && lut.account() == *info,
                Err(e) => lut_state(info@) == Err::<bool, ProgramError>(e),
            },
    {
        if address_eq(&info.owner, &SYSTEM_PROGRAM_ID) {
            return Ok(Lut { info, initialized: false });
        }
        if address_eq(&info.owner, &ADDRESS_LOOKUP_TABLE_PROGRAM_ID) {
            let initialized = info.data.len() > 0 && info.data[0] == 1;
            return Ok(Lut { info, initialized });
        }
        Err(ProgramError::IllegalOwner)
    }

    /// The handle behind the wrapper.
    pub fn info(&self) -> (info: &'a AccountHandle)
        ensures
            *info == self.account(),
            lut_state(info@) is Ok,
    {
        proof {
            use_type_invariant(self);
        }
        self.info
    }

    /// The table's address.
    pub fn address(&self) -> (address: &'a Address)
        ensures
            *address == self.account().address,
    {
        &self.info.address
    }

    /// Whether the table is initialized.
    pub fn is_initialized(&self) -> (initialized: bool)
        ensures
            lut_state(self.account()@) == Ok::<bool, ProgramError>(initialized),
    {
        proof {
            use_type_invariant(self);
        }
        self.initialized
    }

    /// Whether the table has yet to be created or initialized.
    pub fn needs_init(&self) -> (needed: bool)
        ensures
            lut_state(self.account()@) == Ok::<bool, ProgramError>(!needed),
    {
        proof {
            use_type_invariant(self);
        }
        !self.initialized
    }
}

} // verus!
