//! The read-only typed accessor.

use vstd::prelude::*;
use vstd::slice::slice_subrange;
use core::marker::PhantomData;
use crate::address::{
    address_eq, is_pda_of, pda_match, program_address, seeds_view, try_find_program_address,
    Address,
};
use crate::error::ProgramError;
use crate::handle::AccountHandle;
use crate::traits::{Loadable, Pod};
use crate::wrappers::rules::{check_data, data_check, load_check, typed};
use crate::wrappers::traits::AsAccountRef;
use crate::Framework;

verus! {

/// Shared typed access to an account of the program `F` that holds a `T`.
///
/// An accessor comes from `load` or `load_unchecked` alone. It borrows the
/// handle for as long as it lives, so the room that was checked stays.
pub struct AccountRef<'a, T: Loadable, F: Framework> {
    info: &'a AccountHandle,
    marker: PhantomData<(T, F)>,
}

impl<'a, T: Loadable, F: Framework> AccountRef<'a, T, F> {
    #[verifier::type_invariant]
    spec fn sized(self) -> bool {
        self.info.data@.len() >= T::LEN
    }

    /// The account that this accessor holds.
    pub closed spec fn handle(&self) -> AccountHandle {
        *self.info
    }

    /// Wraps an initialized account of the program: the owner is checked,
    /// then the size and the discriminator of the buffer.
    pub fn load(info: &'a AccountHandle) -> (r: Result<Self, ProgramError>)
        ensures
            match r {
                Ok(a) => load_check::<T, F>(info@) is Ok && a.handle() == *info,
                Err(e) => load_check::<T, F>(info@) == Err::<(), ProgramError>(e),
            },
    {
        if !address_eq(&info.owner, &F::PROGRAM_ID) {
            return Err(ProgramError::IllegalOwner);
        }
        Self::load_unchecked(info)
    }

    /// Wraps an account without looking at its owner, for reading the
    /// accounts of another program; the size and the discriminator of the
    /// buffer are still checked.
    pub fn load_unchecked(info: &'a AccountHandle) -> (r: Result<Self, ProgramError>)
        ensures
            match r {
                Ok(a) => data_check::<T>(info@.data) is Ok && a.handle() == *info,
                Err(e) => data_check::<T>(info@.data) == Err::<(), ProgramError>(e),
            },
    {
        match check_data::<T>(info.data.as_slice()) {
            Ok(()) => Ok(AccountRef { info, marker: PhantomData }),
            Err(e) => Err(e),
        }
    }

    /// An accessor over an account that a shard context has loaded.
    pub(crate) fn over(info: &'a AccountHandle) -> (a: Self)
        requires
            info.data@.len() >= T::LEN,
        ensures
            a.handle() == *info,
    {
        AccountRef { info, marker: PhantomData }
    }

    /// The handle behind the accessor. Its buffer has room for a `T`: no
    /// accessor holds a handle that was not checked for it.
    pub fn info(&self) -> (info: &'a AccountHandle)
        ensures
            *info == self.handle(),
            info.data@.len() >= T::LEN,
    {
        proof {
            use_type_invariant(self);
        }
        self.info
    }

    /// The account's address.
    pub fn address(&self) -> (address: &Address)
        ensures
            *address == self.handle().address,
    {
        &self.info.address
    }

    /// The value that the buffer holds. This cannot fail: the size was
    /// checked when the accessor was made.
    pub fn get(&self) -> (value: T)
        ensures
            value == typed::<T>(self.handle().data@),
    {
        proof {
            use_type_invariant(self);
        }
        T::from_bytes(slice_subrange(self.info.data.as_slice(), 0, T::LEN))
    }

    /// Whether this account's address is the one that `seeds` derive under
    /// the program, beside the canonical bump seed.
    pub fn is_pda(&self, seeds: &[&[u8]]) -> (r: (bool, u8))
        requires
            program_address(seeds_view(seeds), F::PROGRAM_ID@) is Some,
        ensures
            r == pda_match(
                self.handle().address@,
                program_address(seeds_view(seeds), F::PROGRAM_ID@)->0,
            ),
    {
        is_pda_of(&self.info.address, &F::PROGRAM_ID, seeds)
    }

    /// As `is_pda`, for any seeds: `None` where they derive no address. The
    /// seeds are first tried and then handed to `is_pda`, which derives the
    /// address again; where the derivation counts, derive once with
    /// `try_is_pda_of` and keep the bump seed.
    pub fn try_is_pda(&self, seeds: &[&[u8]]) -> (r: Option<(bool, u8)>)
        ensures
            r == match program_address(seeds_view(seeds), F::PROGRAM_ID@) {
                Some(derived) => Some(pda_match(self.handle().address@, derived)),
                None => None,
            },
    {
        if try_find_program_address(seeds, &F::PROGRAM_ID).is_some() {
            Some(self.is_pda(seeds))
        } else {
            None
        }
    }
}

impl<'a, T: Loadable, F: Framework> AsAccountRef<T, F> for AccountRef<'a, T, F> {
    closed spec fn account(&self) -> AccountHandle {
        *self.info
    }

    fn info(&self) -> (info: &AccountHandle) {
        self.info
    }

    fn address(&self) -> (address: &Address) {
        &self.info.address
    }

    fn get(&self) -> (value: T) {
        T::from_bytes(slice_subrange(self.info.data.as_slice(), 0, T::LEN))
    }

    fn is_pda(&self, seeds: &[&[u8]]) -> (r: (bool, u8)) {
        is_pda_of(&self.info.address, &F::PROGRAM_ID, seeds)
    }
}

} // verus!
