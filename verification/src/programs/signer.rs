//! The wrappers that admit an account by its transaction flags.

use vstd::prelude::*;
use crate::address::Address;
use crate::error::ProgramError;
use crate::handle::{AccountHandle, AccountState};
use crate::programs::traits::ValidatedAccount;

verus! {

/// What `Signer` checks: the account signed.
pub open spec fn signer_check(account: AccountState) -> Result<(), ProgramError> {
    if !account.is_signer {
        Err(ProgramError::MissingRequiredSignature)
    } else {
        Ok(())
    }
}

/// What `MutSigner` checks: the account signed, then that it is writable.
pub open spec fn mut_signer_check(account: AccountState) -> Result<(), ProgramError> {
    if !account.is_signer {
        Err(ProgramError::MissingRequiredSignature)
    } else if !account.is_writable {
        Err(ProgramError::InvalidAccountData)
    } else {
        Ok(())
    }
}

/// What `Writable` checks: the account is writable.
pub open spec fn writable_check(account: AccountState) -> Result<(), ProgramError> {
    if !account.is_writable {
        Err(ProgramError::InvalidAccountData)
    } else {
        Ok(())
    }
}

/// What `ReadOnly` checks: nothing.
pub open spec fn read_only_check(account: AccountState) -> Result<(), ProgramError> {
    Ok(())
}

/// An account that signed the transaction.
pub struct Signer<'a> {
    info: &'a AccountHandle,
}

impl<'a> Signer<'a> {
    #[verifier::type_invariant]
    spec fn checked(self) -> bool {
        signer_check(self.info@) is Ok
    }

    /// The account's address.
    pub fn address(&self) -> (address: &Address)
        ensures
            *address == self.account().address,
    {
        &self.info.address
    }

    /// The account's address, as a key. No `Signer` holds an account that did not sign.
    pub fn key(&self) -> (address: &Address)
        ensures
            *address == self.account().address,
            signer_check(self.account()@) is Ok,
    {
        proof {
            use_type_invariant(self);
        }
        &self.info.address
    }
}

impl<'a> ValidatedAccount<'a> for Signer<'a> {
    open spec fn admits(account: AccountState) -> Result<(), ProgramError> {
        signer_check(account)
    }

    closed spec fn account(&self) -> AccountHandle {
        *self.info
    }

    fn wrap(info: &'a AccountHandle) -> (r: Result<Self, ProgramError>) {
        if !info.is_signer {
            return Err(ProgramError::MissingRequiredSignature);
        }
        Ok(Signer { info })
    }

    fn info(&self) -> (info: &'a AccountHandle) {
        proof {
            use_type_invariant(self);
            assert(Self::admits(self.info@) is Ok);
        }
        self.info
    }
}

/// The account that pays: a signer.
pub type Payer<'a> = Signer<'a>;

/// An account that signed the transaction and is writable.
pub struct MutSigner<'a> {
    info: &'a AccountHandle,
}

impl<'a> MutSigner<'a> {
    #[verifier::type_invariant]
    spec fn checked(self) -> bool {
        mut_signer_check(self.info@) is Ok
    }

    /// The account's address.
    pub fn address(&self) -> (address: &Address)
        ensures
            *address == self.account().address,
    {
        &self.info.address
    }

    /// The account's address, as a key. No `MutSigner` holds an account that did not sign or is
    /// not writable.
    pub fn key(&self) -> (address: &Address)
        ensures
            *address == self.account().address,
            mut_signer_check(self.account()@) is Ok,
    {
        proof {
            use_type_invariant(self);
        }
        &self.info.address
    }
}

impl<'a> ValidatedAccount<'a> for MutSigner<'a> {
    open spec fn admits(account: AccountState) -> Result<(), ProgramError> {
        mut_signer_check(account)
    }

    closed spec fn account(&self) -> AccountHandle {
        *self.info
    }

    fn wrap(info: &'a AccountHandle) -> (r: Result<Self, ProgramError>) {
        if !info.is_signer {
            return Err(ProgramError::MissingRequiredSignature);
        }
        if !info.is_writable {
            return Err(ProgramError::InvalidAccountData);
        }
        Ok(MutSigner { info })
    }

    fn info(&self) -> (info: &'a AccountHandle) {
        proof {
            use_type_invariant(self);
            assert(Self::admits(self.info@) is Ok);
        }
        self.info
    }
}

/// An account that is writable.
pub struct Writable<'a> {
    info: &'a AccountHandle,
}

impl<'a> Writable<'a> {
    #[verifier::type_invariant]
    spec fn checked(self) -> bool {
        writable_check(self.info@) is Ok
    }

    /// The account's address.
    pub fn address(&self) -> (address: &Address)
        ensures
            *address == self.account().address,
    {
        &self.info.address
    }

    /// The account's address, as a key. No `Writable` holds an account that is not writable.
    pub fn key(&self) -> (address: &Address)
        ensures
            *address == self.account().address,
            writable_check(self.account()@) is Ok,
    {
        proof {
            use_type_invariant(self);
        }
        &self.info.address
    }
}

impl<'a> ValidatedAccount<'a> for Writable<'a> {
    open spec fn admits(account: AccountState) -> Result<(), ProgramError> {
        writable_check(account)
    }

    closed spec fn account(&self) -> AccountHandle {
        *self.info
    }

    fn wrap(info: &'a AccountHandle) -> (r: Result<Self, ProgramError>) {
        if !info.is_writable {
            return Err(ProgramError::InvalidAccountData);
        }
        Ok(Writable { info })
    }

    fn info(&self) -> (info: &'a AccountHandle) {
        proof {
            use_type_invariant(self);
            assert(Self::admits(self.info@) is Ok);
        }
        self.info
    }
}

/// An account that is only read. Nothing is checked: the wrapper states an intent.
pub struct ReadOnly<'a> {
    info: &'a AccountHandle,
}

impl<'a> ReadOnly<'a> {
    #[verifier::type_invariant]
    spec fn checked(self) -> bool {
        read_only_check(self.info@) is Ok
    }

    /// The account's address.
    pub fn address(&self) -> (address: &Address)
        ensures
            *address == self.account().address,
    {
        &self.info.address
    }

    /// The account's address, as a key. 
    pub fn key(&self) -> (address: &Address)
        ensures
            *address == self.account().address,
            read_only_check(self.account()@) is Ok,
    {
        proof {
            use_type_invariant(self);
        }
        &self.info.address
    }
}

impl<'a> ValidatedAccount<'a> for ReadOnly<'a> {
    open spec fn admits(account: AccountState) -> Result<(), ProgramError> {
        read_only_check(account)
    }

    closed spec fn account(&self) -> AccountHandle {
        *self.info
    }

    fn wrap(info: &'a AccountHandle) -> (r: Result<Self, ProgramError>) {
        Ok(ReadOnly { info })
    }

    fn info(&self) -> (info: &'a AccountHandle) {
        proof {
            use_type_invariant(self);
            assert(Self::admits(self.info@) is Ok);
        }
        self.info
    }
}

} // verus!
