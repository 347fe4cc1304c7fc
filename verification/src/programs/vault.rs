//! Vaults: token accounts under a known authority, and accounts that hold
//! lamports.

use vstd::prelude::*;
use vstd::slice::slice_subrange;
use crate::address::{address_eq, Address};
use crate::bytes::{le_value, read_array, read_u64_le};
use crate::error::ProgramError;
use crate::handle::{AccountHandle, AccountState};
use crate::programs::ids::{SYSTEM_PROGRAM_ID, TOKEN_2022_PROGRAM_ID, TOKEN_PROGRAM_ID};

verus! {

/// What `Vault` checks: a token program owns the account, else
/// `IllegalOwner`; the data reaches past the token owner, which stands at
/// bytes 32 to 64 and is the expected authority, else `InvalidAccountData`.
pub open spec fn vault_check(account: AccountState, authority: Seq<u8>) -> Result<
    (),
    ProgramError,
> {
    if account.owner != TOKEN_PROGRAM_ID@ && account.owner != TOKEN_2022_PROGRAM_ID@ {
        Err(ProgramError::IllegalOwner)
    } else if account.data.len() < 64 {
        Err(ProgramError::InvalidAccountData)
    } else if account.data.subrange(32, 64) != authority {
        Err(ProgramError::InvalidAccountData)
    } else {
        Ok(())
    }
}

/// A token account that a known authority controls.
pub struct Vault<'a> {
    info: &'a AccountHandle,
}

impl<'a> Vault<'a> {
    #[verifier::type_invariant]
    spec fn checked(self) -> bool {
        vault_check(self.info@, self.info@.data.subrange(32, 64)) is Ok
    }

    /// The account that the wrapper holds.
    pub closed spec fn account(&self) -> AccountHandle {
        *self.info
    }

    /// Wraps a token account whose token owner is `expected_authority`.
    pub fn wrap(info: &'a AccountHandle, expected_authority: &Address) -> (r: Result<
        Self,
        ProgramError,
    >)
        ensures
            match r {
                Ok(vault) => vault_check(info@, expected_authority@) is Ok && vault.account()
                    == *info,
                Err(e) => vault_check(info@, expected_authority@) == Err::<(), ProgramError>(e),
            },
    {
        if !address_eq(&info.owner, &TOKEN_PROGRAM_ID) && !address_eq(
            &info.owner,
            &TOKEN_2022_PROGRAM_ID,
        ) {
            return Err(ProgramError::IllegalOwner);
        }
        if info.data.len() < 64 {
            return Err(ProgramError::InvalidAccountData);
        }
        let token_owner: Address = read_array::<32>(slice_subrange(info.data.as_slice(), 32, 64));
        if !address_eq(&token_owner, expected_authority) {
            return Err(ProgramError::InvalidAccountData);
        }
        Ok(Vault { info })
    }

    /// The handle behind the wrapper: an account of a token program whose
    /// data reaches past the token owner.
    pub fn info(&self) -> (info: &'a AccountHandle)
        ensures
            *info == self.account(),
            info@.data.len() >= 64,
            info@.owner == TOKEN_PROGRAM_ID@ || info@.owner == TOKEN_2022_PROGRAM_ID@,
    {
        proof {
            use_type_invariant(self);
        }
        self.info
    }

    /// The vault's address.
    pub fn address(&self) -> (address: &'a Address)
        ensures
            *address == self.account().address,
    {
        &self.info.address
    }

    /// The amount of tokens in the vault: the little-endian number at bytes
    /// 64 to 72 of the data.
    pub fn amount(&self) -> (amount: u64)
        requires
            self.account()@.data.len() >= 72,
        ensures
            amount == le_value(self.account()@.data.subrange(64, 72)),
    {
        read_u64_le(slice_subrange(self.info.data.as_slice(), 64, 72))
    }

    /// As `amount`, for any vault: `None` where the data ends before the
    /// amount does.
    pub fn try_amount(&self) -> (amount: Option<u64>)
        ensures
            amount == if self.account()@.data.len() >= 72 {
                Some(le_value(self.account()@.data.subrange(64, 72)) as u64)
            } else {
                None
            },
    {
        if self.info.data.len() >= 72 {
            Some(self.amount())
        } else {
            None
        }
    }
}

/// What `SolVault` checks: the system program owns the account.
pub open spec fn sol_vault_check(account: AccountState) -> Result<(), ProgramError> {
    if account.owner != SYSTEM_PROGRAM_ID@ {
        Err(ProgramError::IllegalOwner)
    } else {
        Ok(())
    }
}

/// An account of the system program that holds lamports.
pub struct SolVault<'a> {
    info: &'a AccountHandle,
}

impl<'a> SolVault<'a> {
    #[verifier::type_invariant]
    spec fn checked(self) -> bool {
        sol_vault_check(self.info@) is Ok
    }

    /// The account that the wrapper holds.
    pub closed spec fn account(&self) -> AccountHandle {
        *self.info
    }

    /// Wraps an account of the system program.
    pub fn wrap(info: &'a AccountHandle) -> (r: Result<Self, ProgramError>)
        ensures
            match r {
                Ok(vault) => sol_vault_check(info@) is Ok && vault.account() == *info,
                Err(e) => sol_vault_check(info@) == Err::<(), ProgramError>(e),
            },
    {
        if !address_eq(&info.owner, &SYSTEM_PROGRAM_ID) {
            return Err(ProgramError::IllegalOwner);
        }
        Ok(SolVault { info })
    }

    /// The handle behind the wrapper: an account of the system program.
    pub fn info(&self) -> (info: &'a AccountHandle)
        ensures
            *info == self.account(),
            sol_vault_check(info@) is Ok,
    {
        proof {
            use_type_invariant(self);
        }
        self.info
    }

    /// The vault's address.
    pub fn address(&self) -> (address: &'a Address)
        ensures
            *address == self.account().address,
    {
        &self.info.address
    }

    /// The vault's balance.
    pub fn lamports(&self) -> (lamports: u64)
        ensures
            lamports == self.account().lamports,
    {
        self.info.lamports
    }

    /// Whether the vault can receive or send lamports in this instruction.
    pub fn is_writable(&self) -> (writable: bool)
        ensures
            writable == self.account().is_writable,
    {
        self.info.is_writable
    }
}

} // verus!
