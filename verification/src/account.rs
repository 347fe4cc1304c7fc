//! Rent arithmetic, and the requests to the system program that move
//! lamports and create derived-address accounts.

use vstd::prelude::*;
use vstd::slice::slice_to_vec;
use crate::address::{seeds_view, Address};
use crate::bytes::{le_bytes, push_u32_le, push_u64_le};
use crate::handle::AccountHandle;
use crate::instruction::{meta, CpiInstruction, InstructionAccount, Invocation};
use crate::programs::ids::SYSTEM_PROGRAM_ID;

verus! {

/// The largest size of an account's data: 10 MiB.
pub const MAX_ACCOUNT_SIZE: usize = 10485760;

/// The lamports that one byte costs to be exempt from rent.
pub const LAMPORTS_PER_BYTE: u64 = 6960;

/// The bytes that the host keeps for every account beside its data.
pub const ACCOUNT_OVERHEAD: u64 = 128;

/// The most seeds that sign for a derived address.
pub const MAX_SIGNER_SEEDS: usize = 6;

/// The balance that exempts an account of `data_len` bytes from rent: a
/// fixed overhead per account and a linear rate per byte.
pub open spec fn rent_exempt_balance(data_len: nat) -> nat {
    (128 + data_len) * 6960
}

/// The least balance that exempts an account of `data_len` bytes from rent.
pub fn rent_exempt_minimum(data_len: usize) -> (lamports: u64)
    requires
        rent_exempt_balance(data_len as nat) <= u64::MAX,
    ensures
        lamports == rent_exempt_balance(data_len as nat),
{
    let total_bytes: u64 = ACCOUNT_OVERHEAD + data_len as u64;
    total_bytes * LAMPORTS_PER_BYTE
}

/// As `rent_exempt_minimum`, for any size: `None` where the balance does not
/// fit into 64 bits.
pub fn checked_rent_exempt_minimum(data_len: usize) -> (lamports: Option<u64>)
    ensures
        lamports == if rent_exempt_balance(data_len as nat) <= u64::MAX {
            Some(rent_exempt_balance(data_len as nat) as u64)
        } else {
            None
        },
{
    if data_len as u128 <= (u64::MAX / LAMPORTS_PER_BYTE - ACCOUNT_OVERHEAD) as u128 {
        Some(rent_exempt_minimum(data_len))
    } else {
        None
    }
}

/// The data of the system program's transfer instruction: its number, 2, in
/// four bytes, then the amount in eight, both little-endian.
pub open spec fn transfer_data(amount: u64) -> Seq<u8> {
    le_bytes(2, 4) + le_bytes(amount as nat, 8)
}

/// The invocation of the system program that moves `amount` lamports.
pub open spec fn transfer_invocation(
    from: Seq<u8>,
    to: Seq<u8>,
    system_program: Seq<u8>,
    amount: u64,
) -> Invocation {
    Invocation {
        program_id: SYSTEM_PROGRAM_ID@,
        accounts: seq![meta(from, true, true), meta(to, true, false)],
        data: transfer_data(amount),
        handles: seq![from, to, system_program],
        signer_seeds: Seq::empty(),
    }
}

/// The request to move `amount` lamports from `from` to `to`, or `None` for
/// an amount of 0, which needs no invocation.
pub fn transfer_lamports(
    from: &AccountHandle,
    to: &AccountHandle,
    system_program: &AccountHandle,
    amount: u64,
) -> (request: Option<CpiInstruction>)
    ensures
        amount == 0 <==> request is None,
        request matches Some(instruction) ==> instruction@ == transfer_invocation(
            from.address@,
            to.address@,
            system_program.address@,
            amount,
        ),
{
    if amount == 0 {
        return None;
    }
    let mut data: Vec<u8> = Vec::new();
    push_u32_le(&mut data, 2);
    push_u64_le(&mut data, amount);
    let mut accounts: Vec<InstructionAccount> = Vec::new();
    accounts.push(InstructionAccount { address: from.address, is_writable: true, is_signer: true });
    accounts.push(InstructionAccount { address: to.address, is_writable: true, is_signer: false });
    let mut handles: Vec<Address> = Vec::new();
    handles.push(from.address);
    handles.push(to.address);
    handles.push(system_program.address);
    let instruction = CpiInstruction {
        program_id: SYSTEM_PROGRAM_ID,
        accounts,
        data,
        handles,
        signer_seeds: Vec::new(),
    };
    proof {
        let want = transfer_invocation(
            from.address@,
            to.address@,
            system_program.address@,
            amount,
        );
        assert(instruction@.data =~= want.data);
        assert(instruction@.accounts =~= want.accounts);
        assert(instruction@.handles =~= want.handles);
        assert(instruction@.signer_seeds =~= want.signer_seeds);
    }
    Some(instruction)
}

/// The data of the system program's create-account instruction: its number,
/// 0, in four bytes, the lamports and the size in eight bytes each, all
/// little-endian, then the owner's identity.
pub open spec fn create_account_data(lamports: u64, space: u64, owner: Seq<u8>) -> Seq<u8> {
    le_bytes(0, 4) + le_bytes(lamports as nat, 8) + le_bytes(space as nat, 8) + owner
}

/// The seeds that sign: the first six, where there are more.
pub open spec fn signing_seeds(seeds: Seq<Seq<u8>>) -> Seq<Seq<u8>> {
    if seeds.len() <= 6 {
        seeds
    } else {
        seeds.subrange(0, 6)
    }
}

/// The invocation of the system program that creates a derived-address
/// account of `space` bytes, owned by `program_id` and exempt from rent.
pub open spec fn create_account_invocation(
    payer: Seq<u8>,
    new_account: Seq<u8>,
    program_id: Seq<u8>,
    space: usize,
    seeds: Seq<Seq<u8>>,
) -> Invocation {
    Invocation {
        program_id: SYSTEM_PROGRAM_ID@,
        accounts: seq![meta(payer, true, true), meta(new_account, true, true)],
        data: create_account_data(
            rent_exempt_balance(space as nat) as u64,
            space as u64,
            program_id,
        ),
        handles: seq![payer, new_account],
        signer_seeds: signing_seeds(seeds),
    }
}

/// Copies the seeds that sign.
fn copy_signing_seeds(seeds: &[&[u8]]) -> (copy: Vec<Vec<u8>>)
    ensures
        Seq::new(copy@.len(), |i: int| copy@[i]@) == signing_seeds(seeds_view(seeds)),
{
    let count: usize = if seeds.len() <= MAX_SIGNER_SEEDS {
        seeds.len()
    } else {
        MAX_SIGNER_SEEDS
    };
    let mut copy: Vec<Vec<u8>> = Vec::new();
    let mut i: usize = 0;
    while i < count
        invariant
            i <= count <= seeds@.len(),
            copy@.len() == i,
            forall|j: int| 0 <= j < i ==> copy@[j]@ == seeds@[j]@,
        decreases count - i,
    {
        copy.push(slice_to_vec(seeds[i]));
        i += 1;
    }
    assert(Seq::new(copy@.len(), |i: int| copy@[i]@) =~= signing_seeds(seeds_view(seeds)));
    copy
}

/// The request to create the derived-address account `new_account`, paid
/// for by `payer`: `space` bytes, owned by `program_id`, with the balance
/// that exempts it from rent. `seeds` are those of the address, bump seed
/// included; the address signs with the first six of them.
pub fn create_pda_account(
    payer: &AccountHandle,
    new_account: &AccountHandle,
    program_id: &Address,
    space: usize,
    seeds: &[&[u8]],
) -> (request: CpiInstruction)
    requires
        rent_exempt_balance(space as nat) <= u64::MAX,
    ensures
        request@ == create_account_invocation(
            payer.address@,
            new_account.address@,
            program_id@,
            space,
            seeds_view(seeds),
        ),
{
    let lamports = rent_exempt_minimum(space);
    let mut data: Vec<u8> = Vec::new();
    push_u32_le(&mut data, 0);
    push_u64_le(&mut data, lamports);
    push_u64_le(&mut data, space as u64);
    let ghost head = data@;
    let mut i: usize = 0;
    while i < 32
        invariant
            i <= 32,
            data@ == head + program_id@.subrange(0, i as int),
        decreases 32 - i,
    {
        data.push(program_id[i]);
        i += 1;
        assert(data@ =~= head + program_id@.subrange(0, i as int));
    }
    let mut accounts: Vec<InstructionAccount> = Vec::new();
    accounts.push(
        InstructionAccount { address: payer.address, is_writable: true, is_signer: true },
    );
    accounts.push(
        InstructionAccount { address: new_account.address, is_writable: true, is_signer: true },
    );
    let mut handles: Vec<Address> = Vec::new();
    handles.push(payer.address);
    handles.push(new_account.address);
    let instruction = CpiInstruction {
        program_id: SYSTEM_PROGRAM_ID,
        accounts,
        data,
        handles,
        signer_seeds: copy_signing_seeds(seeds),
    };
    proof {
        let want = create_account_invocation(
            payer.address@,
            new_account.address@,
            program_id@,
            space,
            seeds_view(seeds),
        );
        assert(program_id@.subrange(0, 32) =~= program_id@);
        assert(instruction@.data =~= want.data);
        assert(instruction@.accounts =~= want.accounts);
        assert(instruction@.handles =~= want.handles);
    }
    instruction
}

/// As `create_pda_account`, for any size: `None` where the balance that
/// exempts `space` bytes from rent does not fit into 64 bits.
pub fn try_create_pda_account(
    payer: &AccountHandle,
    new_account: &AccountHandle,
    program_id: &Address,
    space: usize,
    seeds: &[&[u8]],
) -> (request: Option<CpiInstruction>)
    ensures
        request is Some <==> rent_exempt_balance(space as nat) <= u64::MAX,
        request matches Some(instruction) ==> instruction@ == create_account_invocation(
            payer.address@,
            new_account.address@,
            program_id@,
            space,
            seeds_view(seeds),
        ),
{
    if checked_rent_exempt_minimum(space).is_some() {
        Some(create_pda_account(payer, new_account, program_id, space, seeds))
    } else {
        None
    }
}

} // verus!
