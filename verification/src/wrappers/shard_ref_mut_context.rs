//! The shard navigator that tolerates one account in several positions.

use vstd::prelude::*;
use vstd::slice::slice_to_vec;
use core::marker::PhantomData;
use crate::address::Address;
use crate::error::ProgramError;
use crate::handle::{AccountHandle, AccountState};
use crate::traits::{Loadable, Pod};
use crate::wrappers::account_ref::AccountRef;
use crate::wrappers::account_ref_mut::AccountRefMut;
use crate::bytes::write_prefix;
use crate::wrappers::rules::{load_mut_check, retyped, typed};
use crate::Framework;

verus! {

/// The contents of a list of handles.
pub open spec fn states(accounts: Seq<AccountHandle>) -> Seq<AccountState> {
    Seq::new(accounts.len(), |i: int| accounts[i]@)
}

/// What building a triplet over the slots `low`, `current` and `high` of a
/// list checks: that the slots exist, then the mutable load of `low`, of
/// `current` unless it is `low`, and of `high` unless it is one of the two;
/// the first failure is the outcome. This states what is checked and what
/// comes of it, not how many loads are run: a slot that stands in two
/// positions contributes one check here, and `new` runs one load for it.
pub open spec fn triplet_check<T: Loadable, F: Framework>(
    accounts: Seq<AccountState>,
    low: int,
    current: int,
    high: int,
) -> Result<(), ProgramError> {
    if !(0 <= low < accounts.len() && 0 <= current < accounts.len() && 0 <= high
        < accounts.len()) {
        Err(ProgramError::NotEnoughAccountKeys)
    } else if load_mut_check::<T, F>(accounts[low]) is Err {
        load_mut_check::<T, F>(accounts[low])
    } else if current != low && load_mut_check::<T, F>(accounts[current]) is Err {
        load_mut_check::<T, F>(accounts[current])
    } else if high != low && high != current && load_mut_check::<T, F>(accounts[high]) is Err {
        load_mut_check::<T, F>(accounts[high])
    } else {
        Ok(())
    }
}

/// A triplet over one single slot checks what one mutable load checks.
pub proof fn lemma_single_slot_single_load<T: Loadable, F: Framework>(
    accounts: Seq<AccountState>,
    slot: int,
)
    requires
        0 <= slot < accounts.len(),
    ensures
        triplet_check::<T, F>(accounts, slot, slot, slot) == load_mut_check::<T, F>(
            accounts[slot],
        ),
{
}

/// Sharing a load between positions leaves no position unchecked: a
/// triplet is built exactly when its three slots exist and each of them
/// passes the mutable load.
pub proof fn lemma_every_position_is_loaded<T: Loadable, F: Framework>(
    accounts: Seq<AccountState>,
    low: int,
    current: int,
    high: int,
)
    ensures
        triplet_check::<T, F>(accounts, low, current, high) is Ok <==> 0 <= low < accounts.len()
            && 0 <= current < accounts.len() && 0 <= high < accounts.len() && load_mut_check::<
            T,
            F,
        >(accounts[low]) is Ok && load_mut_check::<T, F>(accounts[current]) is Ok
            && load_mut_check::<T, F>(accounts[high]) is Ok,
{
}

/// A list of accounts after a value has been written through one slot.
pub open spec fn written<T: Pod>(accounts: Seq<AccountState>, slot: int, value: T) -> Seq<
    AccountState,
> {
    accounts.update(slot, accounts[slot].with_data(retyped::<T>(accounts[slot].data, value)))
}

/// What is written through one position is what every position on the same
/// slot reads afterwards, and positions on other slots read what they read
/// before.
pub proof fn lemma_positions_share_their_slot<T: Pod>(
    accounts: Seq<AccountState>,
    writer: int,
    reader: int,
    value: T,
)
    requires
        0 <= writer < accounts.len(),
        0 <= reader < accounts.len(),
    ensures
        reader == writer ==> written(accounts, writer, value)[reader].data == retyped::<T>(
            accounts[writer].data,
            value,
        ),
        reader == writer && accounts[writer].data.len() >= T::LEN && T::decode(value.encode())
            == value && value.encode().len() == T::LEN ==> typed::<T>(
            written(accounts, writer, value)[reader].data,
        ) == value,
        reader != writer ==> written(accounts, writer, value)[reader] == accounts[reader],
{
    if reader == writer && value.encode().len() == T::LEN {
        let data = retyped::<T>(accounts[writer].data, value);
        assert(data.subrange(0, T::LEN as int) =~= value.encode());
    }
}

/// The slots that three positions name, each once, in the order low,
/// current, high.
pub open spec fn distinct_slots(low: int, current: int, high: int) -> Seq<int> {
    seq![low] + (if current != low {
        seq![current]
    } else {
        Seq::empty()
    }) + (if high != low && high != current {
        seq![high]
    } else {
        Seq::empty()
    })
}

/// Where the slot of the current position stands among the distinct slots.
pub open spec fn place_of_current(low: int, current: int) -> int {
    if current == low {
        0
    } else {
        1
    }
}

/// Where the slot of the high position stands among the distinct slots.
pub open spec fn place_of_high(low: int, current: int, high: int) -> int {
    if high == low {
        0
    } else if high == current {
        place_of_current(low, current)
    } else {
        distinct_slots(low, current, high).len() - 1
    }
}

/// The values of the distinct shards of a triplet, each held once, with the
/// place of each position among them. Positions on one account have one
/// place, so a change made through one of them is a change for all.
pub struct Shards<T> {
    /// The values of the distinct shards, at most three.
    pub values: Vec<T>,
    /// The place of the low shard in `values`.
    pub low: usize,
    /// The place of the current shard in `values`.
    pub current: usize,
    /// The place of the high shard in `values`.
    pub high: usize,
}

/// Whether `shards` holds the values of the distinct slots of a triplet
/// over `accounts`, with the places of the three positions.
pub open spec fn shards_of<T: Pod>(
    shards: Shards<T>,
    accounts: Seq<AccountState>,
    low: int,
    current: int,
    high: int,
) -> bool {
    let slots = distinct_slots(low, current, high);
    &&& shards.values@.len() == slots.len()
    &&& forall|k: int|
        0 <= k < slots.len() ==> #[trigger] shards.values@[k] == typed::<T>(
            accounts[slots[k]].data,
        )
    &&& shards.low == 0
    &&& shards.current == place_of_current(low, current)
    &&& shards.high == place_of_high(low, current, high)
}

/// A list of accounts after the first `n` of `values` have been written,
/// each through its slot.
pub open spec fn written_all<T: Pod>(
    accounts: Seq<AccountState>,
    slots: Seq<int>,
    values: Seq<T>,
    n: int,
) -> Seq<AccountState>
    decreases n,
{
    if n <= 0 {
        accounts
    } else {
        written::<T>(written_all(accounts, slots, values, n - 1), slots[n - 1], values[n - 1])
    }
}

/// The buffers of the distinct shards of a triplet, each held once, with
/// the place of each position among them.
pub struct ShardBuffers {
    /// The buffers of the distinct shards, at most three.
    pub buffers: Vec<Vec<u8>>,
    /// The place of the low shard in `buffers`.
    pub low: usize,
    /// The place of the current shard in `buffers`.
    pub current: usize,
    /// The place of the high shard in `buffers`.
    pub high: usize,
}

/// Whether `shards` holds the buffers of the distinct slots of a triplet
/// over `accounts`, with the places of the three positions.
pub open spec fn buffers_of(
    shards: ShardBuffers,
    accounts: Seq<AccountState>,
    low: int,
    current: int,
    high: int,
) -> bool {
    let slots = distinct_slots(low, current, high);
    &&& shards.buffers@.len() == slots.len()
    &&& forall|k: int|
        0 <= k < slots.len() ==> (#[trigger] shards.buffers@[k])@ == accounts[slots[k]].data
    &&& shards.low == 0
    &&& shards.current == place_of_current(low, current)
    &&& shards.high == place_of_high(low, current, high)
}

/// Whether `output` holds as many buffers as `input`, each of the length
/// that it had.
pub open spec fn same_sizes(input: ShardBuffers, output: ShardBuffers) -> bool {
    &&& output.buffers@.len() == input.buffers@.len()
    &&& forall|k: int|
        0 <= k < input.buffers@.len() ==> (#[trigger] output.buffers@[k])@.len()
            == input.buffers@[k]@.len()
}

/// A list of accounts after the first `n` of `buffers` have replaced the
/// data of their slots.
pub open spec fn replaced_all(
    accounts: Seq<AccountState>,
    slots: Seq<int>,
    buffers: Seq<Vec<u8>>,
    n: int,
) -> Seq<AccountState>
    decreases n,
{
    if n <= 0 {
        accounts
    } else {
        let before = replaced_all(accounts, slots, buffers, n - 1);
        before.update(slots[n - 1], before[slots[n - 1]].with_data(buffers[n - 1]@))
    }
}

/// Three shards of one structure, held for writing: the positions low,
/// current and high name slots of one list of handles, and positions that
/// name the same slot are the same account.
///
/// The fields are public because the contracts speak of the state in which
/// the borrow of `accounts` ends, which only the field itself names. What
/// guards the context is `wf`.
pub struct ShardRefMutContext<'a, T: Loadable, F: Framework> {
    /// The list that holds the shards.
    pub accounts: &'a mut [AccountHandle],
    /// The slot of the low shard.
    pub low: usize,
    /// The slot of the current shard.
    pub current: usize,
    /// The slot of the high shard.
    pub high: usize,
    /// The type of a shard and the owning program.
    pub marker: PhantomData<(T, F)>,
}

impl<'a, T: Loadable, F: Framework> ShardRefMutContext<'a, T, F> {
    /// The list of handles as the context holds it now.
    pub open spec fn list(&self) -> Seq<AccountHandle> {
        (*self.accounts)@
    }

    /// Whether one slot exists, is writable and has room for a `T`.
    pub open spec fn slot_wf(&self, slot: usize) -> bool {
        &&& slot < self.list().len()
        &&& self.list()[slot as int].is_writable
        &&& self.list()[slot as int].data@.len() >= T::LEN
    }

    /// What every constructor has checked and no method takes away: the
    /// three slots exist, and each is writable and has room for a `T`. Every
    /// method that reaches a shard asks for it, so a context that no
    /// constructor made serves nothing until its holder has shown the same.
    pub open spec fn wf(&self) -> bool {
        &&& self.slot_wf(self.low)
        &&& self.slot_wf(self.current)
        &&& self.slot_wf(self.high)
    }

    /// Builds the triplet over three slots of `accounts`, which may coincide.
    /// Each distinct slot is loaded once, as `AccountRefMut::load` does, and
    /// the first failure is handed on. The accounts are left as they were.
    pub fn new(accounts: &'a mut [AccountHandle], low: usize, current: usize, high: usize) -> (r:
        Result<Self, ProgramError>)
        ensures
            match r {
                Ok(c) => triplet_check::<T, F>(
                    states(old(accounts)@),
                    low as int,
                    current as int,
                    high as int,
                ) is Ok && c.list() == old(accounts)@ && final(c.accounts)@ == final(accounts)@
                    && c.low == low && c.current == current && c.high == high && c.wf(),
                Err(e) => triplet_check::<T, F>(
                    states(old(accounts)@),
                    low as int,
                    current as int,
                    high as int,
                ) == Err::<(), ProgramError>(e) && final(accounts)@ == old(accounts)@,
            },
    {
        let n = accounts.len();
        if low >= n || current >= n || high >= n {
            return Err(ProgramError::NotEnoughAccountKeys);
        }
        match AccountRefMut::<T, F>::load(&mut accounts[low]) {
            Ok(_) => {},
            Err(e) => {
                assert(accounts@ =~= old(accounts)@);
                return Err(e);
            },
        }
        assert(accounts@ =~= old(accounts)@);
        if current != low {
            match AccountRefMut::<T, F>::load(&mut accounts[current]) {
                Ok(_) => {},
                Err(e) => {
                    assert(accounts@ =~= old(accounts)@);
                    return Err(e);
                },
            }
            assert(accounts@ =~= old(accounts)@);
        }
        if high != low && high != current {
            match AccountRefMut::<T, F>::load(&mut accounts[high]) {
                Ok(_) => {},
                Err(e) => {
                    assert(accounts@ =~= old(accounts)@);
                    return Err(e);
                },
            }
            assert(accounts@ =~= old(accounts)@);
        }
        Ok(ShardRefMutContext { accounts, low, current, high, marker: PhantomData })
    }

    /// As `new`, with every failure turned into `None`: for neighbouring
    /// shards that may legitimately be absent.
    pub fn try_new(
        accounts: &'a mut [AccountHandle],
        low: usize,
        current: usize,
        high: usize,
    ) -> (r: Option<Self>)
        ensures
            r is Some <==> triplet_check::<T, F>(
                states(old(accounts)@),
                low as int,
                current as int,
                high as int,
            ) is Ok,
            r matches Some(c) ==> c.list() == old(accounts)@ && final(c.accounts)@ == final(
                accounts
            )@ && c.low == low && c.current == current && c.high == high && c.wf(),
            r is None ==> final(accounts)@ == old(accounts)@,
    {
        match Self::new(accounts, low, current, high) {
            Ok(c) => Some(c),
            Err(_) => None,
        }
    }

    /// Combines three slots that have been loaded already: nothing is
    /// loaded or compared again. The slots are ones over which `new` would
    /// build a triplet.
    pub fn from_loaded(
        accounts: &'a mut [AccountHandle],
        low: usize,
        current: usize,
        high: usize,
    ) -> (c: Self)
        requires
            triplet_check::<T, F>(
                states(old(accounts)@),
                low as int,
                current as int,
                high as int,
            ) is Ok,
        ensures
            c.list() == old(accounts)@,
            final(c.accounts)@ == final(accounts)@,
            c.low == low && c.current == current && c.high == high,
            c.wf(),
    {
        proof {
            lemma_every_position_is_loaded::<T, F>(
                states(old(accounts)@),
                low as int,
                current as int,
                high as int,
            );
        }
        ShardRefMutContext { accounts, low, current, high, marker: PhantomData }
    }

    /// A read-only accessor on one slot.
    fn slot_ref(&self, slot: usize) -> (r: AccountRef<'_, T, F>)
        requires
            self.slot_wf(slot),
        ensures
            r.handle() == self.list()[slot as int],
    {
        AccountRef::over(&self.accounts[slot])
    }

    /// A mutable accessor on one slot.
    fn slot_ref_mut(&mut self, slot: usize) -> (r: AccountRefMut<'_, T, F>)
        requires
            old(self).slot_wf(slot),
        ensures
            *r.info == old(self).list()[slot as int],
            r.wf(),
            final(self).list() == old(self).list().update(slot as int, *final(r.info)),
            final(self).low == old(self).low,
            final(self).current == old(self).current,
            final(self).high == old(self).high,
            final(final(self).accounts)@ == final(old(self).accounts)@,
    {
        AccountRefMut { info: &mut self.accounts[slot], marker: PhantomData }
    }

    /// The accessor of the low shard, for reading.
    pub fn low_ref(&self) -> (r: AccountRef<'_, T, F>)
        requires
            self.wf(),
        ensures
            r.handle() == self.list()[self.low as int],
    {
        self.slot_ref(self.low)
    }

    /// The accessor of the low shard, for writing.
    pub fn low_ref_mut(&mut self) -> (r: AccountRefMut<'_, T, F>)
        requires
            old(self).wf(),
        ensures
            *r.info == old(self).list()[old(self).low as int],
            r.wf(),
            final(self).list() == old(self).list().update(old(self).low as int, *final(r.info)),
            final(self).low == old(self).low,
            final(self).current == old(self).current,
            final(self).high == old(self).high,
            final(final(self).accounts)@ == final(old(self).accounts)@,
    {
        let slot = self.low;
        self.slot_ref_mut(slot)
    }

    /// The accessor of the current shard, for reading. It is that of the low
    /// shard where the two are one account.
    pub fn current_ref(&self) -> (r: AccountRef<'_, T, F>)
        requires
            self.wf(),
        ensures
            r.handle() == self.list()[self.current as int],
    {
        self.slot_ref(self.current)
    }

    /// The accessor of the current shard, for writing.
    pub fn current_ref_mut(&mut self) -> (r: AccountRefMut<'_, T, F>)
        requires
            old(self).wf(),
        ensures
            *r.info == old(self).list()[old(self).current as int],
            r.wf(),
            final(self).list() == old(self).list().update(
                old(self).current as int,
                *final(r.info),
            ),
            final(self).low == old(self).low,
            final(self).current == old(self).current,
            final(self).high == old(self).high,
            final(final(self).accounts)@ == final(old(self).accounts)@,
    {
        let slot = self.current;
        self.slot_ref_mut(slot)
    }

    /// The accessor of the high shard, for reading. It is that of the low or
    /// of the current shard where it is one account with either.
    pub fn high_ref(&self) -> (r: AccountRef<'_, T, F>)
        requires
            self.wf(),
        ensures
            r.handle() == self.list()[self.high as int],
    {
        self.slot_ref(self.high)
    }

    /// The accessor of the high shard, for writing.
    pub fn high_ref_mut(&mut self) -> (r: AccountRefMut<'_, T, F>)
        requires
            old(self).wf(),
        ensures
            *r.info == old(self).list()[old(self).high as int],
            r.wf(),
            final(self).list() == old(self).list().update(old(self).high as int, *final(r.info)),
            final(self).low == old(self).low,
            final(self).current == old(self).current,
            final(self).high == old(self).high,
            final(final(self).accounts)@ == final(old(self).accounts)@,
    {
        let slot = self.high;
        self.slot_ref_mut(slot)
    }

    /// The address of the current shard.
    pub fn current_address(&self) -> (address: &Address)
        requires
            self.wf(),
        ensures
            *address == self.list()[self.current as int].address,
    {
        &self.accounts[self.current].address
    }

    /// The address of the low shard.
    pub fn low_address(&self) -> (address: &Address)
        requires
            self.wf(),
        ensures
            *address == self.list()[self.low as int].address,
    {
        &self.accounts[self.low].address
    }

    /// The address of the high shard.
    pub fn high_address(&self) -> (address: &Address)
        requires
            self.wf(),
        ensures
            *address == self.list()[self.high as int].address,
    {
        &self.accounts[self.high].address
    }

    /// The value of the current shard.
    pub fn current(&self) -> (value: T)
        requires
            self.wf(),
        ensures
            value == typed::<T>(self.list()[self.current as int].data@),
    {
        self.slot_ref(self.current).get()
    }

    /// The value of the low shard.
    pub fn low(&self) -> (value: T)
        requires
            self.wf(),
        ensures
            value == typed::<T>(self.list()[self.low as int].data@),
    {
        self.slot_ref(self.low).get()
    }

    /// The value of the high shard.
    pub fn high(&self) -> (value: T)
        requires
            self.wf(),
        ensures
            value == typed::<T>(self.list()[self.high as int].data@),
    {
        self.slot_ref(self.high).get()
    }

    /// Changes the value held in one slot.
    fn update_slot<G: FnOnce(T) -> T>(&mut self, slot: usize, update: G)
        requires
            old(self).wf(),
            old(self).slot_wf(slot),
            update.requires((typed::<T>(old(self).list()[slot as int].data@),)),
        ensures
            final(self).wf(),
            final(self).low == old(self).low,
            final(self).current == old(self).current,
            final(self).high == old(self).high,
            final(final(self).accounts)@ == final(old(self).accounts)@,
            exists|value: T| #[trigger]
                update.ensures((typed::<T>(old(self).list()[slot as int].data@),), value)
                    && states(final(self).list()) == written::<T>(
                    states(old(self).list()),
                    slot as int,
                    value,
                ),
    {
        let ghost before = self.list();
        let mut accessor = self.slot_ref_mut(slot);
        accessor.get_mut(update);
        proof {
            let value = choose|value: T| #[trigger]
                update.ensures((typed::<T>(before[slot as int].data@),), value)
                    && accessor.handle()@ == before[slot as int]@.with_data(
                    retyped::<T>(before[slot as int].data@, value),
                );
            assert(states(self.list()) =~= written::<T>(states(before), slot as int, value));
        }
    }

    /// Changes the value of the current shard: `update` is given the value,
    /// and what it returns is written to the account at once. Every position
    /// on the same account sees the change.
    pub fn current_mut<G: FnOnce(T) -> T>(&mut self, update: G)
        requires
            old(self).wf(),
            update.requires((typed::<T>(old(self).list()[old(self).current as int].data@),)),
        ensures
            final(self).wf(),
            final(self).low == old(self).low,
            final(self).current == old(self).current,
            final(self).high == old(self).high,
            final(final(self).accounts)@ == final(old(self).accounts)@,
            exists|value: T| #[trigger]
                update.ensures(
                    (typed::<T>(old(self).list()[old(self).current as int].data@),),
                    value,
                ) && states(final(self).list()) == written::<T>(
                    states(old(self).list()),
                    old(self).current as int,
                    value,
                ),
    {
        let slot = self.current;
        self.update_slot(slot, update)
    }

    /// Changes the value of the low shard, as `current_mut` does.
    pub fn low_mut<G: FnOnce(T) -> T>(&mut self, update: G)
        requires
            old(self).wf(),
            update.requires((typed::<T>(old(self).list()[old(self).low as int].data@),)),
        ensures
            final(self).wf(),
            final(self).low == old(self).low,
            final(self).current == old(self).current,
            final(self).high == old(self).high,
            final(final(self).accounts)@ == final(old(self).accounts)@,
            exists|value: T| #[trigger]
                update.ensures((typed::<T>(old(self).list()[old(self).low as int].data@),), value)
                    && states(final(self).list()) == written::<T>(
                    states(old(self).list()),
                    old(self).low as int,
                    value,
                ),
    {
        let slot = self.low;
        self.update_slot(slot, update)
    }

    /// Changes the value of the high shard, as `current_mut` does.
    pub fn high_mut<G: FnOnce(T) -> T>(&mut self, update: G)
        requires
            old(self).wf(),
            update.requires((typed::<T>(old(self).list()[old(self).high as int].data@),)),
        ensures
            final(self).wf(),
            final(self).low == old(self).low,
            final(self).current == old(self).current,
            final(self).high == old(self).high,
            final(final(self).accounts)@ == final(old(self).accounts)@,
            exists|value: T| #[trigger]
                update.ensures((typed::<T>(old(self).list()[old(self).high as int].data@),), value)
                    && states(final(self).list()) == written::<T>(
                    states(old(self).list()),
                    old(self).high as int,
                    value,
                ),
    {
        let slot = self.high;
        self.update_slot(slot, update)
    }

    /// The list that holds the shards and the three positions in it: low,
    /// current, high. Positions that are equal are one account, so what is
    /// written through one of them is read through the others.
    pub fn all_refs_mut(&mut self) -> (r: (&mut [AccountHandle], usize, usize, usize))
        ensures
            r.0@ == old(self).list(),
            r.1 == old(self).low && r.2 == old(self).current && r.3 == old(self).high,
            final(self).list() == final(r.0)@,
            final(self).low == old(self).low,
            final(self).current == old(self).current,
            final(self).high == old(self).high,
            final(final(self).accounts)@ == final(old(self).accounts)@,
    {
        let low = self.low;
        let current = self.current;
        let high = self.high;
        (&mut *self.accounts, low, current, high)
    }

    /// Writes a value to one slot.
    fn write_slot(&mut self, slot: usize, value: &T)
        requires
            old(self).slot_wf(slot),
        ensures
            states(final(self).list()) == written::<T>(
                states(old(self).list()),
                slot as int,
                *value,
            ),
            final(self).list().len() == old(self).list().len(),
            forall|j: int|
                0 <= j < final(self).list().len() ==> (#[trigger] final(self).list()[j]).data@.len()
                    == old(self).list()[j].data@.len(),
            forall|j: int|
                0 <= j < final(self).list().len() ==> (#[trigger] final(self).list()[j]).is_writable
                    == old(self).list()[j].is_writable,
            final(self).low == old(self).low,
            final(self).current == old(self).current,
            final(self).high == old(self).high,
            final(final(self).accounts)@ == final(old(self).accounts)@,
    {
        let image = value.to_bytes();
        let ghost before = self.list();
        write_prefix(self.accounts[slot].data.as_mut_slice(), image.as_slice());
        assert(states(self.list()) =~= written::<T>(states(before), slot as int, *value));
    }

    /// Changes the values of all three shards at once: `update` is given
    /// the values of the distinct shards with the place of each position
    /// among them, and what it returns is written to the accounts, each
    /// distinct shard once. Positions on one account share one value, so
    /// what is changed through one of them is changed for the others.
    pub fn all_mut<G: FnOnce(Shards<T>) -> Shards<T>>(&mut self, update: G)
        requires
            old(self).wf(),
            forall|input: Shards<T>|
                shards_of(
                    input,
                    states(old(self).list()),
                    old(self).low as int,
                    old(self).current as int,
                    old(self).high as int,
                ) ==> update.requires((input,)),
            forall|input: Shards<T>, output: Shards<T>|
                shards_of(
                    input,
                    states(old(self).list()),
                    old(self).low as int,
                    old(self).current as int,
                    old(self).high as int,
                ) && update.ensures((input,), output) ==> output.values@.len()
                    == input.values@.len(),
        ensures
            final(self).wf(),
            final(self).low == old(self).low,
            final(self).current == old(self).current,
            final(self).high == old(self).high,
            final(final(self).accounts)@ == final(old(self).accounts)@,
            exists|input: Shards<T>, output: Shards<T>|
                shards_of(
                    input,
                    states(old(self).list()),
                    old(self).low as int,
                    old(self).current as int,
                    old(self).high as int,
                ) && #[trigger] update.ensures((input,), output) && states(final(self).list())
                    == written_all::<T>(
                    states(old(self).list()),
                    distinct_slots(
                        old(self).low as int,
                        old(self).current as int,
                        old(self).high as int,
                    ),
                    output.values@,
                    output.values@.len() as int,
                ),
    {
        let low = self.low;
        let current = self.current;
        let high = self.high;
        let ghost slots = distinct_slots(low as int, current as int, high as int);
        let ghost before = self.list();
        let mut slot_list: Vec<usize> = Vec::new();
        let mut values: Vec<T> = Vec::new();
        slot_list.push(low);
        values.push(self.slot_ref(low).get());
        let mut current_place: usize = 0;
        if current != low {
            slot_list.push(current);
            values.push(self.slot_ref(current).get());
            current_place = 1;
        }
        let mut high_place: usize = 0;
        if high == low {
        } else if high == current {
            high_place = current_place;
        } else {
            slot_list.push(high);
            values.push(self.slot_ref(high).get());
            high_place = slot_list.len() - 1;
        }
        let input = Shards { values, low: 0, current: current_place, high: high_place };
        assert(slot_list@.len() == slots.len());
        assert(forall|k: int| 0 <= k < slots.len() ==> slot_list@[k] as int == #[trigger] slots[k]);
        assert(shards_of(input, states(before), low as int, current as int, high as int));
        let ghost given = input;
        let output = update(input);
        let n = slot_list.len();
        let mut k: usize = 0;
        while k < n
            invariant
                k <= n == slot_list@.len() == output.values@.len() == slots.len(),
                forall|j: int| 0 <= j < n ==> slot_list@[j] as int == #[trigger] slots[j],
                forall|j: int| 0 <= j < n ==> 0 <= #[trigger] slots[j] < before.len(),
                self.list().len() == before.len(),
                forall|j: int|
                    0 <= j < before.len() ==> (#[trigger] self.list()[j]).data@.len()
                        == before[j].data@.len(),
                forall|j: int|
                    0 <= j < before.len() ==> (#[trigger] self.list()[j]).is_writable
                        == before[j].is_writable,
                forall|j: int|
                    0 <= j < n ==> before[#[trigger] slots[j]].data@.len() >= T::LEN
                        && before[slots[j]].is_writable,
                low < before.len() && current < before.len() && high < before.len(),
                before[low as int].data@.len() >= T::LEN && before[low as int].is_writable,
                before[current as int].data@.len() >= T::LEN && before[current as int].is_writable,
                before[high as int].data@.len() >= T::LEN && before[high as int].is_writable,
                states(self.list()) == written_all::<T>(
                    states(before),
                    slots,
                    output.values@,
                    k as int,
                ),
                self.low == low,
                self.current == current,
                self.high == high,
                final(self.accounts)@ == final(old(self).accounts)@,
            decreases n - k,
        {
            let slot = slot_list[k];
            assert(slot as int == slots[k as int]);
            self.write_slot(slot, &output.values[k]);
            k += 1;
        }
        assert(update.ensures((given,), output));
    }

    /// A copy of the buffer of one slot.
    fn read_buffer(&self, slot: usize) -> (buffer: Vec<u8>)
        requires
            slot < self.list().len(),
        ensures
            buffer@ == self.list()[slot as int].data@,
    {
        slice_to_vec(self.accounts[slot].data.as_slice())
    }

    /// Replaces the buffer of one slot by one of the same length.
    fn write_buffer(&mut self, slot: usize, buffer: &Vec<u8>)
        requires
            slot < old(self).list().len(),
            old(self).list()[slot as int].data@.len() == buffer@.len(),
        ensures
            states(final(self).list()) == states(old(self).list()).update(
                slot as int,
                old(self).list()[slot as int]@.with_data(buffer@),
            ),
            final(self).list().len() == old(self).list().len(),
            forall|j: int|
                0 <= j < final(self).list().len() ==> (#[trigger] final(self).list()[j]).data@.len()
                    == old(self).list()[j].data@.len(),
            forall|j: int|
                0 <= j < final(self).list().len() ==> (#[trigger] final(self).list()[j]).is_writable
                    == old(self).list()[j].is_writable,
            final(self).low == old(self).low,
            final(self).current == old(self).current,
            final(self).high == old(self).high,
            final(final(self).accounts)@ == final(old(self).accounts)@,
    {
        let ghost before = self.list();
        write_prefix(self.accounts[slot].data.as_mut_slice(), buffer.as_slice());
        assert(self.list()[slot as int].data@ =~= buffer@);
        assert(states(self.list()) =~= states(before).update(
            slot as int,
            before[slot as int]@.with_data(buffer@),
        ));
    }

    /// Changes the raw data of all three shards at once: `update` is given
    /// the buffers of the distinct shards with the place of each position
    /// among them, and the buffers that it returns, each of the length that
    /// it had, are written to the accounts. Positions on one account share
    /// one buffer.
    pub fn all_data_mut<G: FnOnce(ShardBuffers) -> ShardBuffers>(&mut self, update: G)
        requires
            old(self).wf(),
            forall|input: ShardBuffers|
                buffers_of(
                    input,
                    states(old(self).list()),
                    old(self).low as int,
                    old(self).current as int,
                    old(self).high as int,
                ) ==> update.requires((input,)),
            forall|input: ShardBuffers, output: ShardBuffers|
                buffers_of(
                    input,
                    states(old(self).list()),
                    old(self).low as int,
                    old(self).current as int,
                    old(self).high as int,
                ) && update.ensures((input,), output) ==> same_sizes(input, output),
        ensures
            final(self).wf(),
            final(self).low == old(self).low,
            final(self).current == old(self).current,
            final(self).high == old(self).high,
            final(final(self).accounts)@ == final(old(self).accounts)@,
            exists|input: ShardBuffers, output: ShardBuffers|
                buffers_of(
                    input,
                    states(old(self).list()),
                    old(self).low as int,
                    old(self).current as int,
                    old(self).high as int,
                ) && #[trigger] update.ensures((input,), output) && states(final(self).list())
                    == replaced_all(
                    states(old(self).list()),
                    distinct_slots(
                        old(self).low as int,
                        old(self).current as int,
                        old(self).high as int,
                    ),
                    output.buffers@,
                    output.buffers@.len() as int,
                ),
    {
        let low = self.low;
        let current = self.current;
        let high = self.high;
        let ghost slots = distinct_slots(low as int, current as int, high as int);
        let ghost before = self.list();
        let mut slot_list: Vec<usize> = Vec::new();
        let mut buffers: Vec<Vec<u8>> = Vec::new();
        slot_list.push(low);
        buffers.push(self.read_buffer(low));
        let mut current_place: usize = 0;
        if current != low {
            slot_list.push(current);
            buffers.push(self.read_buffer(current));
            current_place = 1;
        }
        let mut high_place: usize = 0;
        if high == low {
        } else if high == current {
            high_place = current_place;
        } else {
            slot_list.push(high);
            buffers.push(self.read_buffer(high));
            high_place = slot_list.len() - 1;
        }
        let input = ShardBuffers { buffers, low: 0, current: current_place, high: high_place };
        assert(slot_list@.len() == slots.len());
        assert(forall|k: int| 0 <= k < slots.len() ==> slot_list@[k] as int == #[trigger] slots[k]);
        assert(buffers_of(input, states(before), low as int, current as int, high as int));
        let ghost given = input;
        let output = update(input);
        assert(same_sizes(given, output));
        let n = slot_list.len();
        let mut k: usize = 0;
        while k < n
            invariant
                k <= n == slot_list@.len() == output.buffers@.len() == slots.len(),
                slots == distinct_slots(low as int, current as int, high as int),
                forall|j: int| 0 <= j < n ==> slot_list@[j] as int == #[trigger] slots[j],
                forall|j: int| 0 <= j < n ==> 0 <= #[trigger] slots[j] < before.len(),
                forall|i: int, j: int| 0 <= i < j < n ==> slots[i] != slots[j],
                self.list().len() == before.len(),
                forall|j: int|
                    0 <= j < before.len() ==> (#[trigger] self.list()[j]).data@.len()
                        == before[j].data@.len(),
                forall|j: int|
                    0 <= j < before.len() ==> (#[trigger] self.list()[j]).is_writable
                        == before[j].is_writable,
                forall|j: int|
                    0 <= j < n ==> (#[trigger] output.buffers@[j])@.len()
                        == before[slots[j]].data@.len(),
                low < before.len() && current < before.len() && high < before.len(),
                before[low as int].data@.len() >= T::LEN && before[low as int].is_writable,
                before[current as int].data@.len() >= T::LEN && before[current as int].is_writable,
                before[high as int].data@.len() >= T::LEN && before[high as int].is_writable,
                states(self.list()) == replaced_all(
                    states(before),
                    slots,
                    output.buffers@,
                    k as int,
                ),
                self.low == low,
                self.current == current,
                self.high == high,
                final(self.accounts)@ == final(old(self).accounts)@,
            decreases n - k,
        {
            let slot = slot_list[k];
            assert(slot as int == slots[k as int]);
            self.write_buffer(slot, &output.buffers[k]);
            k += 1;
        }
        assert(update.ensures((given,), output));
    }
}

} // verus!
