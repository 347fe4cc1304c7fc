//! The mutable typed accessor and the initialization of accounts.

use vstd::prelude::*;
use vstd::slice::slice_subrange;
use core::marker::PhantomData;
use crate::account::{create_account_invocation, create_pda_account, rent_exempt_balance};
use crate::address::{
    address_eq, is_pda_of, pda_match, program_address, seeds_view, try_find_program_address,
    Address,
};
use crate::bytes::write_prefix;
use crate::error::ProgramError;
use crate::errors::{account_already_initialized, account_not_writable, invalid_account_data};
use crate::handle::{AccountHandle, AccountState};
use crate::instruction::CpiInstruction;
use crate::programs::ids::SYSTEM_PROGRAM_ID;
use crate::traits::{Initializable, Loadable, Pod};
use crate::wrappers::rules::{
    check_data, data_check, init_if_needed_outcome, init_outcome, init_pda_outcome,
    is_uninitialized, load_mut_check, load_unchecked_mut_check, retyped, stamped, typed,
};
use crate::wrappers::traits::AsAccountRef;
use crate::Framework;

verus! {

/// Exclusive typed access to an account of the program `F` that holds a `T`.
///
/// The accessor borrows the handle for as long as it lives, so what it has
/// checked cannot change behind it. The buffer behind it is the account's
/// persisted state: a change made through the accessor is a change of the
/// account.
///
/// The fields are public because the contracts speak of the state in which
/// the borrow of `info` ends, which only the field itself names. What guards
/// the accessor is `wf`.
pub struct AccountRefMut<'a, T: Loadable, F: Framework> {
    /// The handle that this accessor holds.
    pub info: &'a mut AccountHandle,
    /// The type read from the buffer and the owning program.
    pub marker: PhantomData<(T, F)>,
}

impl<'a, T: Loadable, F: Framework> AccountRefMut<'a, T, F> {
    /// The account as this accessor holds it now.
    pub open spec fn handle(&self) -> AccountHandle {
        *self.info
    }

    /// What every constructor has checked and no method takes away: the
    /// account is writable, and its buffer has room for a `T`. Every method
    /// that reads or writes a `T` asks for it, so an accessor that no
    /// constructor made serves nothing until its holder has shown the same.
    /// `reload` and `data_mut` may change the size of the buffer, and leave
    /// it to the caller to show the room again.
    pub open spec fn wf(&self) -> bool {
        &&& self.handle().is_writable
        &&& self.handle().data@.len() >= T::LEN
    }

    /// Wraps a writable, initialized account of the program.
    ///
    /// Writability is checked first, then the owner, then the size and the
    /// discriminator of the buffer. The handle is left as it was.
    pub fn load(info: &'a mut AccountHandle) -> (r: Result<Self, ProgramError>)
        ensures
            match r {
                Ok(a) => load_mut_check::<T, F>(old(info)@) is Ok && *a.info == *old(info)
                    && *final(a.info) == *final(info) && a.wf(),
                Err(e) => load_mut_check::<T, F>(old(info)@) == Err::<(), ProgramError>(e)
                    && *final(info) == *old(info),
            },
    {
        if !info.is_writable {
            return Err(account_not_writable());
        }
        if !address_eq(&info.owner, &F::PROGRAM_ID) {
            return Err(ProgramError::IllegalOwner);
        }
        Self::load_unchecked(info)
    }

    /// As `load`, with every failure turned into `None`: for an account that
    /// may legitimately be absent.
    pub fn try_load(info: &'a mut AccountHandle) -> (r: Option<Self>)
        ensures
            r is Some <==> load_mut_check::<T, F>(old(info)@) is Ok,
            r matches Some(a) ==> *a.info == *old(info) && *final(a.info) == *final(info)
                && a.wf(),
            r is None ==> *final(info) == *old(info),
    {
        if !info.is_writable {
            return None;
        }
        if !address_eq(&info.owner, &F::PROGRAM_ID) {
            return None;
        }
        match Self::load_unchecked(info) {
            Ok(a) => Some(a),
            Err(_) => None,
        }
    }

    /// Wraps an account without looking at its owner, for the accounts of
    /// another program. Writability is still checked, and first; then the
    /// size and the discriminator of the buffer.
    pub fn load_unchecked(info: &'a mut AccountHandle) -> (r: Result<Self, ProgramError>)
        ensures
            match r {
                Ok(a) => load_unchecked_mut_check::<T>(old(info)@) is Ok && *a.info == *old(info)
                    && *final(a.info) == *final(info) && a.wf(),
                Err(e) => load_unchecked_mut_check::<T>(old(info)@) == Err::<(), ProgramError>(e)
                    && *final(info) == *old(info),
            },
    {
        if !info.is_writable {
            return Err(account_not_writable());
        }
        match check_data::<T>(info.data.as_slice()) {
            Ok(()) => Ok(AccountRefMut { info, marker: PhantomData }),
            Err(e) => Err(e),
        }
    }

    /// The account's address.
    pub fn address(&self) -> (address: &Address)
        ensures
            *address == self.handle().address,
    {
        &self.info.address
    }

    /// The value that the buffer holds.
    pub fn get(&self) -> (value: T)
        requires
            self.wf(),
        ensures
            value == typed::<T>(self.handle().data@),
    {
        T::from_bytes(slice_subrange(self.info.data.as_slice(), 0, T::LEN))
    }

    /// Changes the value that the buffer holds: `update` is given the
    /// current value, and what it returns is written over the first `LEN`
    /// bytes at once. Nothing else of the account changes.
    pub fn get_mut<G: FnOnce(T) -> T>(&mut self, update: G)
        requires
            old(self).wf(),
            update.requires((typed::<T>(old(self).handle().data@),)),
        ensures
            final(self).wf(),
            *final(final(self).info) == *final(old(self).info),
            exists|value: T| #[trigger]
                update.ensures((typed::<T>(old(self).handle().data@),), value)
                    && final(self).handle()@ == old(self).handle()@.with_data(
                    retyped::<T>(old(self).handle().data@, value),
                ),
    {
        let current = T::from_bytes(slice_subrange(self.info.data.as_slice(), 0, T::LEN));
        let next = update(current);
        let image = next.to_bytes();
        write_prefix(self.info.data.as_mut_slice(), image.as_slice());
    }

    /// The whole buffer.
    pub fn data(&self) -> (data: &[u8])
        ensures
            data@ == self.handle().data@,
    {
        self.info.data.as_slice()
    }

    /// The whole buffer, for writing.
    pub fn data_mut(&mut self) -> (data: &mut [u8])
        ensures
            data@ == old(self).handle().data@,
            final(data)@ == final(self).handle().data@,
            final(self).handle().address == old(self).handle().address,
            final(self).handle().owner == old(self).handle().owner,
            final(self).handle().is_signer == old(self).handle().is_signer,
            final(self).handle().is_writable == old(self).handle().is_writable,
            final(self).handle().lamports == old(self).handle().lamports,
            *final(final(self).info) == *final(old(self).info),
    {
        self.info.data.as_mut_slice()
    }

    /// Takes over the bytes that the host now holds for this account, after
    /// another program has been invoked on it. The accessor does not notice
    /// such a change by itself.
    pub fn reload(&mut self, data: Vec<u8>)
        ensures
            final(self).handle()@ == old(self).handle()@.with_data(data@),
            *final(final(self).info) == *final(old(self).info),
    {
        self.info.data = data;
    }

    /// Whether this account's address is the one that `seeds` derive under
    /// the program, beside the canonical bump seed.
    pub fn is_pda(&self, seeds: &[&[u8]]) -> (r: (bool, u8))
        requires
            program_address(seeds_view(seeds), F::PROGRAM_ID@) is Some,
        ensures
            r == pda_match(
                self.handle().address@,
                program_address(seeds_view(seeds), F::PROGRAM_ID@)->0,
            ),
    {
        is_pda_of(&self.info.address, &F::PROGRAM_ID, seeds)
    }

    /// As `is_pda`, for any seeds: `None` where they derive no address. The
    /// seeds are first tried and then handed to `is_pda`, which derives the
    /// address again; where the derivation counts, derive once with
    /// `try_is_pda_of` and keep the bump seed.
    pub fn try_is_pda(&self, seeds: &[&[u8]]) -> (r: Option<(bool, u8)>)
        ensures
            r == match program_address(seeds_view(seeds), F::PROGRAM_ID@) {
                Some(derived) => Some(pda_match(self.handle().address@, derived)),
                None => None,
            },
    {
        if try_find_program_address(seeds, &F::PROGRAM_ID).is_some() {
            Some(self.is_pda(seeds))
        } else {
            None
        }
    }

    /// Whether an account is uninitialized and may be initialized.
    pub fn is_uninit(info: &AccountHandle) -> (r: bool)
        ensures
            r == is_uninitialized::<F>(info@),
    {
        if address_eq(&info.owner, &SYSTEM_PROGRAM_ID) {
            return true;
        }
        if address_eq(&info.owner, &F::PROGRAM_ID) {
            return info.data.len() == 0 || info.data[0] == 0;
        }
        false
    }

    /// Writes the discriminator of `T` to the first byte of the buffer.
    fn stamp(info: &mut AccountHandle)
        requires
            old(info).data@.len() > 0,
        ensures
            final(info)@ == stamped::<T>(old(info)@),
    {
        info.data[0] = T::DISCRIMINATOR;
    }
}

impl<'a, T: Initializable, F: Framework> AccountRefMut<'a, T, F> {
    /// Initializes an uninitialized account as a `T` and wraps it.
    ///
    /// The account must be writable, uninitialized, and have room for a `T`;
    /// then the discriminator is written. An account that was initialized
    /// before is refused.
    pub fn init(info: &'a mut AccountHandle) -> (r: Result<Self, ProgramError>)
        ensures
            match r {
                Ok(a) => init_outcome::<T, F>(old(info)@) == Ok::<AccountState, ProgramError>(
                    a.info@,
                ) && *final(a.info) == *final(info) && a.wf(),
                Err(e) => init_outcome::<T, F>(old(info)@) == Err::<AccountState, ProgramError>(e)
                    && *final(info) == *old(info),
            },
    {
        if !info.is_writable {
            return Err(account_not_writable());
        }
        if !Self::is_uninit(info) {
            return Err(account_already_initialized());
        }
        if info.data.len() < T::LEN || info.data.len() == 0 {
            return Err(invalid_account_data());
        }
        Self::stamp(info);
        Self::load_unchecked(info)
    }

    /// Initializes the account if it is uninitialized, and wraps it either
    /// way. Calling this again changes nothing.
    pub fn init_if_needed(info: &'a mut AccountHandle) -> (r: Result<Self, ProgramError>)
        ensures
            match r {
                Ok(a) => init_if_needed_outcome::<T, F>(old(info)@) == Ok::<
                    AccountState,
                    ProgramError,
                >(a.info@) && *final(a.info) == *final(info) && a.wf(),
                Err(e) => init_if_needed_outcome::<T, F>(old(info)@) == Err::<
                    AccountState,
                    ProgramError,
                >(e) && *final(info) == *old(info),
            },
    {
        if !info.is_writable {
            return Err(account_not_writable());
        }
        if Self::is_uninit(info) {
            if info.data.len() < T::LEN || info.data.len() == 0 {
                return Err(invalid_account_data());
            }
            Self::stamp(info);
        }
        Self::load_unchecked(info)
    }

    /// The first step of creating a derived-address account and initializing
    /// it: the request to the system program that creates `info` with
    /// `space` bytes, owned by the program and paid for by `payer`. An
    /// account that is not writable is refused before anything is asked of
    /// the host. `init_pda` is the second step.
    pub fn init_pda_request(
        info: &AccountHandle,
        payer: &AccountHandle,
        seeds: &[&[u8]],
        space: usize,
    ) -> (r: Result<CpiInstruction, ProgramError>)
        requires
            rent_exempt_balance(space as nat) <= u64::MAX,
        ensures
            match r {
                Ok(request) => info.is_writable && request@ == create_account_invocation(
                    payer.address@,
                    info.address@,
                    F::PROGRAM_ID@,
                    space,
                    seeds_view(seeds),
                ),
                Err(e) => !info.is_writable && e == ProgramError::InvalidAccountData,
            },
    {
        if !info.is_writable {
            return Err(account_not_writable());
        }
        Ok(create_pda_account(payer, info, &F::PROGRAM_ID, space, seeds))
    }

    /// Completes the creation of a derived-address account: `info` is the
    /// account as the host holds it after the request to create it, and
    /// `created` is the host's answer to that request. A refusal of the host
    /// is handed on; otherwise the discriminator is written as `init` does.
    pub fn init_pda(info: &'a mut AccountHandle, created: Result<(), ProgramError>) -> (r: Result<
        Self,
        ProgramError,
    >)
        ensures
            match r {
                Ok(a) => init_pda_outcome::<T>(old(info)@, created) == Ok::<
                    AccountState,
                    ProgramError,
                >(a.info@) && *final(a.info) == *final(info) && a.wf(),
                Err(e) => init_pda_outcome::<T>(old(info)@, created) == Err::<
                    AccountState,
                    ProgramError,
                >(e) && *final(info) == *old(info),
            },
    {
        if !info.is_writable {
            return Err(account_not_writable());
        }
        match created {
            Err(e) => {
                return Err(e);
            },
            Ok(()) => {},
        }
        if info.data.len() < T::LEN || info.data.len() == 0 {
            return Err(invalid_account_data());
        }
        Self::stamp(info);
        Self::load_unchecked(info)
    }
}

impl<'a, T: Loadable, F: Framework> AsAccountRef<T, F> for AccountRefMut<'a, T, F> {
    open spec fn account(&self) -> AccountHandle {
        *self.info
    }

    fn info(&self) -> (info: &AccountHandle) {
        &*self.info
    }

    fn address(&self) -> (address: &Address) {
        &self.info.address
    }

    fn get(&self) -> (value: T) {
        T::from_bytes(slice_subrange(self.info.data.as_slice(), 0, T::LEN))
    }

    fn is_pda(&self, seeds: &[&[u8]]) -> (r: (bool, u8)) {
        is_pda_of(&self.info.address, &F::PROGRAM_ID, seeds)
    }
}

} // verus!
