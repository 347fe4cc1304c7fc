//! The shard navigator over three separate accounts.

use vstd::prelude::*;
use crate::address::Address;
use crate::error::ProgramError;
use crate::handle::AccountHandle;
use crate::traits::{Loadable, Pod};
use crate::wrappers::account_ref_mut::AccountRefMut;
use crate::wrappers::rules::{load_mut_check, retyped, typed};
use crate::Framework;

verus! {

/// What building a triplet over three separate accounts checks: the mutable
/// load of the previous, the current and the next shard, in this order; the
/// first failure is the outcome.
pub open spec fn three_loads<T: Loadable, F: Framework>(
    prev: AccountHandle,
    current: AccountHandle,
    next: AccountHandle,
) -> Result<(), ProgramError> {
    if load_mut_check::<T, F>(prev@) is Err {
        load_mut_check::<T, F>(prev@)
    } else if load_mut_check::<T, F>(current@) is Err {
        load_mut_check::<T, F>(current@)
    } else {
        load_mut_check::<T, F>(next@)
    }
}

/// Three neighbouring shards of one structure, each an account of its own,
/// held for writing.
pub struct ShardRefContext<'a, T: Loadable, F: Framework> {
    /// The previous shard.
    pub prev: AccountRefMut<'a, T, F>,
    /// The shard that is worked on.
    pub current: AccountRefMut<'a, T, F>,
    /// The next shard.
    pub next: AccountRefMut<'a, T, F>,
}

impl<'a, T: Loadable, F: Framework> ShardRefContext<'a, T, F> {
    /// Each of the three accessors has room for a `T`.
    pub open spec fn wf(&self) -> bool {
        self.prev.wf() && self.current.wf() && self.next.wf()
    }

    /// Loads the three shards as `AccountRefMut::load` does, the previous
    /// first and the next last. The accounts are left as they were.
    pub fn new(
        prev_info: &'a mut AccountHandle,
        current_info: &'a mut AccountHandle,
        next_info: &'a mut AccountHandle,
    ) -> (r: Result<Self, ProgramError>)
        ensures
            match r {
                Ok(c) => three_loads::<T, F>(*old(prev_info), *old(current_info), *old(next_info))
                    is Ok && *c.prev.info == *old(prev_info)
                    && *c.current.info == *old(current_info)
                    && *c.next.info == *old(next_info) && *final(c.prev.info) == *final(prev_info)
                    && *final(c.current.info) == *final(current_info) && *final(c.next.info)
                    == *final(next_info) && c.wf(),
                Err(e) => three_loads::<T, F>(*old(prev_info), *old(current_info), *old(next_info))
                    == Err::<(), ProgramError>(e) && *final(prev_info) == *old(prev_info)
                    && *final(current_info) == *old(current_info)
                    && *final(next_info) == *old(next_info),
            },
    {
        let prev = match AccountRefMut::load(prev_info) {
            Ok(a) => a,
            Err(e) => {
                return Err(e);
            },
        };
        let current = match AccountRefMut::load(current_info) {
            Ok(a) => a,
            Err(e) => {
                return Err(e);
            },
        };
        let next = match AccountRefMut::load(next_info) {
            Ok(a) => a,
            Err(e) => {
                return Err(e);
            },
        };
        Ok(ShardRefContext { prev, current, next })
    }

    /// Combines three accessors that have been loaded already.
    pub fn from_loaded(
        prev: AccountRefMut<'a, T, F>,
        current: AccountRefMut<'a, T, F>,
        next: AccountRefMut<'a, T, F>,
    ) -> (c: Self)
        ensures
            c.prev == prev,
            c.current == current,
            c.next == next,
    {
        ShardRefContext { prev, current, next }
    }

    /// The address of the current shard.
    pub fn current_address(&self) -> (address: &Address)
        ensures
            *address == self.current.handle().address,
    {
        self.current.address()
    }

    /// The address of the previous shard.
    pub fn prev_address(&self) -> (address: &Address)
        ensures
            *address == self.prev.handle().address,
    {
        self.prev.address()
    }

    /// The address of the next shard.
    pub fn next_address(&self) -> (address: &Address)
        ensures
            *address == self.next.handle().address,
    {
        self.next.address()
    }

    /// Changes the value of the current shard: `update` is given the value,
    /// and what it returns is written to the account at once.
    pub fn current_mut<G: FnOnce(T) -> T>(&mut self, update: G)
        requires
            old(self).current.wf(),
            update.requires((typed::<T>(old(self).current.handle().data@),)),
        ensures
            final(self).current.wf(),
            final(self).prev == old(self).prev,
            final(self).next == old(self).next,
            *final(final(self).current.info) == *final(old(self).current.info),
            exists|value: T| #[trigger]
                update.ensures((typed::<T>(old(self).current.handle().data@),), value)
                    && final(self).current.handle()@ == old(self).current.handle()@.with_data(
                    retyped::<T>(old(self).current.handle().data@, value),
                ),
    {
        self.current.get_mut(update)
    }

    /// Changes the value of the previous shard, as `current_mut` does.
    pub fn prev_mut<G: FnOnce(T) -> T>(&mut self, update: G)
        requires
            old(self).prev.wf(),
            update.requires((typed::<T>(old(self).prev.handle().data@),)),
        ensures
            final(self).prev.wf(),
            final(self).current == old(self).current,
            final(self).next == old(self).next,
            *final(final(self).prev.info) == *final(old(self).prev.info),
            exists|value: T| #[trigger]
                update.ensures((typed::<T>(old(self).prev.handle().data@),), value)
                    && final(self).prev.handle()@ == old(self).prev.handle()@.with_data(
                    retyped::<T>(old(self).prev.handle().data@, value),
                ),
    {
        self.prev.get_mut(update)
    }

    /// Changes the value of the next shard, as `current_mut` does.
    pub fn next_mut<G: FnOnce(T) -> T>(&mut self, update: G)
        requires
            old(self).next.wf(),
            update.requires((typed::<T>(old(self).next.handle().data@),)),
        ensures
            final(self).next.wf(),
            final(self).prev == old(self).prev,
            final(self).current == old(self).current,
            *final(final(self).next.info) == *final(old(self).next.info),
            exists|value: T| #[trigger]
                update.ensures((typed::<T>(old(self).next.handle().data@),), value)
                    && final(self).next.handle()@ == old(self).next.handle()@.with_data(
                    retyped::<T>(old(self).next.handle().data@, value),
                ),
    {
        self.next.get_mut(update)
    }

    /// The three accessors at once, the previous first and the next last.
    pub fn all_mut(&mut self) -> (r: (
        &mut AccountRefMut<'a, T, F>,
        &mut AccountRefMut<'a, T, F>,
        &mut AccountRefMut<'a, T, F>,
    ))
        ensures
            *r.0 == old(self).prev,
            *r.1 == old(self).current,
            *r.2 == old(self).next,
            final(self).prev == *final(r.0),
            final(self).current == *final(r.1),
            final(self).next == *final(r.2),
    {
        (&mut self.prev, &mut self.current, &mut self.next)
    }
}

} // verus!
