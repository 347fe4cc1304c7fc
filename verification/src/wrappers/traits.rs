//! What the read-only and the mutable accessor have in common.

use vstd::prelude::*;
use crate::address::{pda_match, program_address, seeds_view, Address};
use crate::handle::AccountHandle;
use crate::traits::Loadable;
use crate::wrappers::rules::typed;
use crate::Framework;

verus! {

/// Read access to a typed account, whatever the accessor.
pub trait AsAccountRef<T: Loadable, F: Framework> {
    /// The account that the accessor holds.
    spec fn account(&self) -> AccountHandle;

    /// The handle behind the accessor.
    fn info(&self) -> (info: &AccountHandle)
        ensures
            *info == self.account(),
    ;

    /// The account's address.
    fn address(&self) -> (address: &Address)
        ensures
            *address == self.account().address,
    ;

    /// The value that the buffer holds.
    fn get(&self) -> (value: T)
        requires
            self.account().data@.len() >= T::LEN,
        ensures
            value == typed::<T>(self.account().data@),
    ;

    /// Whether the account's address is the one that `seeds` derive under the
    /// program, beside the canonical bump seed.
    fn is_pda(&self, seeds: &[&[u8]]) -> (r: (bool, u8))
        requires
            program_address(seeds_view(seeds), F::PROGRAM_ID@) is Some,
        ensures
            r == pda_match(
                self.account().address@,
                program_address(seeds_view(seeds), F::PROGRAM_ID@)->0,
            ),
    ;
}

} // verus!
