//! What the accessors check, stated over the contents of an account.

use vstd::prelude::*;
use crate::error::ProgramError;
use crate::errors::invalid_account_data;
use crate::handle::AccountState;
use crate::programs::ids::SYSTEM_PROGRAM_ID;
use crate::traits::{buffer_check, check_discriminator, has_discriminator, Loadable};
use crate::Framework;

pub use crate::traits::{retyped, typed};

verus! {

/// The checks on a buffer that is to be read as a `T`: first its size, then
/// its discriminator.
pub open spec fn data_check<T: Loadable>(data: Seq<u8>) -> Result<(), ProgramError> {
    buffer_check(data, T::LEN as nat, T::DISCRIMINATOR)
}

/// The checks of a read-only load: the owner, then the buffer.
pub open spec fn load_check<T: Loadable, F: Framework>(account: AccountState) -> Result<
    (),
    ProgramError,
> {
    if account.owner != F::PROGRAM_ID@ {
        Err(ProgramError::IllegalOwner)
    } else {
        data_check::<T>(account.data)
    }
}

/// The checks of a mutable load: writability first, then those of a
/// read-only load.
pub open spec fn load_mut_check<T: Loadable, F: Framework>(account: AccountState) -> Result<
    (),
    ProgramError,
> {
    if !account.is_writable {
        Err(ProgramError::InvalidAccountData)
    } else {
        load_check::<T, F>(account)
    }
}

/// The checks of the mutable load that skips the owner: writability first,
/// then the buffer. Only the owner is left unlooked at; no mutable accessor
/// is built over an account that is not writable.
pub open spec fn load_unchecked_mut_check<T: Loadable>(account: AccountState) -> Result<
    (),
    ProgramError,
> {
    if !account.is_writable {
        Err(ProgramError::InvalidAccountData)
    } else {
        data_check::<T>(account.data)
    }
}

/// An account is uninitialized when the system program owns it, or when the
/// program itself owns it and its discriminator byte is absent or 0.
pub open spec fn is_uninitialized<F: Framework>(account: AccountState) -> bool {
    account.owner == SYSTEM_PROGRAM_ID@ || (account.owner == F::PROGRAM_ID@ && (account.data.len()
        == 0 || account.data[0] == 0))
}

/// Whether a buffer has room for a `T` and for the discriminator byte.
pub open spec fn has_room<T: Loadable>(data: Seq<u8>) -> bool {
    data.len() >= T::LEN && data.len() > 0
}

/// The account with the discriminator of `T` written to its first byte.
pub open spec fn stamped<T: Loadable>(account: AccountState) -> AccountState {
    account.with_data(account.data.update(0, T::DISCRIMINATOR))
}

/// What `init` does to an account: the account afterwards, or the error.
pub open spec fn init_outcome<T: Loadable, F: Framework>(account: AccountState) -> Result<
    AccountState,
    ProgramError,
> {
    if !account.is_writable {
        Err(ProgramError::InvalidAccountData)
    } else if !is_uninitialized::<F>(account) {
        Err(ProgramError::AccountAlreadyInitialized)
    } else if !has_room::<T>(account.data) {
        Err(ProgramError::InvalidAccountData)
    } else {
        Ok(stamped::<T>(account))
    }
}

/// What `init_if_needed` does to an account: the account afterwards, or the
/// error.
pub open spec fn init_if_needed_outcome<T: Loadable, F: Framework>(
    account: AccountState,
) -> Result<AccountState, ProgramError> {
    if !account.is_writable {
        Err(ProgramError::InvalidAccountData)
    } else if is_uninitialized::<F>(account) {
        if !has_room::<T>(account.data) {
            Err(ProgramError::InvalidAccountData)
        } else {
            Ok(stamped::<T>(account))
        }
    } else {
        match data_check::<T>(account.data) {
            Ok(()) => Ok(account),
            Err(e) => Err(e),
        }
    }
}

/// What `init_pda` does to an account once the host has answered the request
/// to create it: the account afterwards, or the error.
pub open spec fn init_pda_outcome<T: Loadable>(
    account: AccountState,
    created: Result<(), ProgramError>,
) -> Result<AccountState, ProgramError> {
    if !account.is_writable {
        Err(ProgramError::InvalidAccountData)
    } else if created is Err {
        Err(created->Err_0)
    } else if !has_room::<T>(account.data) {
        Err(ProgramError::InvalidAccountData)
    } else {
        Ok(stamped::<T>(account))
    }
}

/// Checks the size and the discriminator of a buffer.
pub fn check_data<T: Loadable>(data: &[u8]) -> (r: Result<(), ProgramError>)
    ensures
        r == data_check::<T>(data@),
{
    if data.len() < T::LEN {
        return Err(invalid_account_data());
    }
    if !check_discriminator(data, T::DISCRIMINATOR) {
        return Err(invalid_account_data());
    }
    Ok(())
}

/// A buffer shorter than `LEN` fails every load, and with the size error
/// wherever the checks reach the buffer.
pub proof fn lemma_short_buffer_is_refused<T: Loadable, F: Framework>(account: AccountState)
    requires
        account.data.len() < T::LEN,
    ensures
        data_check::<T>(account.data) == Err::<(), ProgramError>(ProgramError::InvalidAccountData),
        load_check::<T, F>(account) is Err,
        load_mut_check::<T, F>(account) is Err,
        account.owner == F::PROGRAM_ID@ ==> load_check::<T, F>(account) == Err::<(), ProgramError>(
            ProgramError::InvalidAccountData,
        ),
        load_mut_check::<T, F>(account) != Err::<(), ProgramError>(ProgramError::IllegalOwner)
            ==> load_mut_check::<T, F>(account) == Err::<(), ProgramError>(
            ProgramError::InvalidAccountData,
        ),
{
}

/// A buffer whose first byte is not the discriminator of `T` fails every
/// load, however long it is.
pub proof fn lemma_wrong_discriminator_is_refused<T: Loadable, F: Framework>(
    account: AccountState,
)
    requires
        account.data.len() == 0 || account.data[0] != T::DISCRIMINATOR,
    ensures
        data_check::<T>(account.data) == Err::<(), ProgramError>(ProgramError::InvalidAccountData),
        load_check::<T, F>(account) is Err,
        load_mut_check::<T, F>(account) is Err,
{
}

/// An account of another owner fails the checked load with `IllegalOwner`.
/// The unchecked loads leave out that one check and no other: the read-only
/// one judges the account by its buffer, the mutable one by its
/// writability and its buffer, and either comes out as the checked load
/// does on the same account under its rightful owner.
pub proof fn lemma_foreign_owner_is_refused<T: Loadable, F: Framework>(account: AccountState)
    requires
        account.owner != F::PROGRAM_ID@,
    ensures
        load_check::<T, F>(account) == Err::<(), ProgramError>(ProgramError::IllegalOwner),
        account.is_writable ==> load_mut_check::<T, F>(account) == Err::<(), ProgramError>(
            ProgramError::IllegalOwner,
        ),
        load_unchecked_mut_check::<T>(account) == load_mut_check::<T, F>(
            AccountState { owner: F::PROGRAM_ID@, ..account },
        ),
        data_check::<T>(account.data) == load_check::<T, F>(
            AccountState { owner: F::PROGRAM_ID@, ..account },
        ),
        data_check::<T>(account.data) is Ok <==> account.data.len() >= T::LEN && has_discriminator(
            account.data,
            T::DISCRIMINATOR,
        ),
{
}

/// An account that is not writable fails every mutable load, the one that
/// skips the owner too, before its owner or its buffer is looked at.
pub proof fn lemma_read_only_fails_first<T: Loadable, F: Framework>(account: AccountState)
    requires
        !account.is_writable,
    ensures
        load_mut_check::<T, F>(account) == Err::<(), ProgramError>(
            ProgramError::InvalidAccountData,
        ),
        load_unchecked_mut_check::<T>(account) == Err::<(), ProgramError>(
            ProgramError::InvalidAccountData,
        ),
        init_outcome::<T, F>(account) == Err::<AccountState, ProgramError>(
            ProgramError::InvalidAccountData,
        ),
        init_if_needed_outcome::<T, F>(account) == Err::<AccountState, ProgramError>(
            ProgramError::InvalidAccountData,
        ),
{
}

/// After `init` has succeeded on an account of the program, with a
/// discriminator other than 0, a second `init` fails with
/// `AccountAlreadyInitialized`.
pub proof fn lemma_init_once<T: Loadable, F: Framework>(account: AccountState)
    requires
        init_outcome::<T, F>(account) is Ok,
        account.owner != SYSTEM_PROGRAM_ID@,
        T::DISCRIMINATOR != 0,
    ensures
        init_outcome::<T, F>(init_outcome::<T, F>(account)->Ok_0) == Err::<
            AccountState,
            ProgramError,
        >(ProgramError::AccountAlreadyInitialized),
{
}

/// After `init_if_needed` has succeeded, a second call succeeds too and
/// leaves the account, and so its discriminator, as the first call left it.
pub proof fn lemma_init_if_needed_idempotent<T: Loadable, F: Framework>(account: AccountState)
    requires
        init_if_needed_outcome::<T, F>(account) is Ok,
    ensures
        init_if_needed_outcome::<T, F>(init_if_needed_outcome::<T, F>(account)->Ok_0)
            == init_if_needed_outcome::<T, F>(account),
        init_if_needed_outcome::<T, F>(account)->Ok_0.data[0] == T::DISCRIMINATOR,
{
    let first = init_if_needed_outcome::<T, F>(account)->Ok_0;
    assert(first.data.update(0, T::DISCRIMINATOR) =~= first.data);
}

/// An account that `init` has stamped passes the checked mutable load when
/// the program owns it.
pub proof fn lemma_init_then_load<T: Loadable, F: Framework>(account: AccountState)
    requires
        init_outcome::<T, F>(account) is Ok,
        account.owner == F::PROGRAM_ID@,
    ensures
        load_mut_check::<T, F>(init_outcome::<T, F>(account)->Ok_0) is Ok,
{
}

} // verus!
