//! Token accounts: their layout, a writable accessor, and the request that
//! creates an associated token account.

use vstd::prelude::*;
use vstd::slice::slice_subrange;
use crate::address::{address_eq, Address};
use crate::bytes::{
    le_value, push_array, read_array, read_u32_le, read_u64_le, write_prefix,
};
use crate::error::ProgramError;
use crate::handle::{AccountHandle, AccountState};
use crate::instruction::{meta, CpiInstruction, InstructionAccount, Invocation};
use crate::programs::ids::{ASSOCIATED_TOKEN_PROGRAM_ID, TOKEN_2022_PROGRAM_ID, TOKEN_PROGRAM_ID};
use crate::traits::Pod;
use crate::wrappers::rules::{retyped, typed};

verus! {

/// The data of a token account, field by field as it lies in the account:
/// 165 bytes, every field a byte or an array of bytes, so that no byte of
/// the image is padding.
#[derive(Clone, Copy, Debug)]
pub struct TokenAccountData {
    /// The mint of the tokens.
    pub mint: Address,
    /// The owner of the tokens.
    pub owner: Address,
    /// The amount of tokens, little-endian.
    pub amount: [u8; 8],
    /// The tag of the delegate, little-endian; 0 for none.
    pub delegate_tag: [u8; 4],
    /// The delegate, where the tag is set.
    pub delegate: Address,
    /// The state: 0 uninitialized, 1 initialized, 2 frozen.
    pub state: u8,
    /// The tag of the native reserve, little-endian; 0 for none.
    pub is_native_tag: [u8; 4],
    /// The rent-exempt reserve of a native account, little-endian.
    pub is_native_val: [u8; 8],
    /// The amount that the delegate may move, little-endian.
    pub delegated_amount: [u8; 8],
    /// The tag of the close authority, little-endian; 0 for none.
    pub close_authority_tag: [u8; 4],
    /// The close authority, where the tag is set.
    pub close_authority: Address,
}

/// The byte image of two token accounts is the same only if they are the
/// same value.
pub proof fn lemma_token_account_image_injective(a: TokenAccountData, b: TokenAccountData)
    requires
        a.encode() == b.encode(),
    ensures
        a == b,
{
    let x = a.encode();
    let y = b.encode();
    assert(a.mint@ =~= x.subrange(0, 32));
    assert(b.mint@ =~= y.subrange(0, 32));
    assert(a.owner@ =~= x.subrange(32, 64));
    assert(b.owner@ =~= y.subrange(32, 64));
    assert(a.amount@ =~= x.subrange(64, 72));
    assert(b.amount@ =~= y.subrange(64, 72));
    assert(a.delegate_tag@ =~= x.subrange(72, 76));
    assert(b.delegate_tag@ =~= y.subrange(72, 76));
    assert(a.delegate@ =~= x.subrange(76, 108));
    assert(b.delegate@ =~= y.subrange(76, 108));
    assert(a.state == x[108]);
    assert(b.state == y[108]);
    assert(a.is_native_tag@ =~= x.subrange(109, 113));
    assert(b.is_native_tag@ =~= y.subrange(109, 113));
    assert(a.is_native_val@ =~= x.subrange(113, 121));
    assert(b.is_native_val@ =~= y.subrange(113, 121));
    assert(a.delegated_amount@ =~= x.subrange(121, 129));
    assert(b.delegated_amount@ =~= y.subrange(121, 129));
    assert(a.close_authority_tag@ =~= x.subrange(129, 133));
    assert(b.close_authority_tag@ =~= y.subrange(129, 133));
    assert(a.close_authority@ =~= x.subrange(133, 165));
    assert(b.close_authority@ =~= y.subrange(133, 165));
    assert(a.mint =~= b.mint);
    assert(a.owner =~= b.owner);
    assert(a.amount =~= b.amount);
    assert(a.delegate_tag =~= b.delegate_tag);
    assert(a.delegate =~= b.delegate);
    assert(a.is_native_tag =~= b.is_native_tag);
    assert(a.is_native_val =~= b.is_native_val);
    assert(a.delegated_amount =~= b.delegated_amount);
    assert(a.close_authority_tag =~= b.close_authority_tag);
    assert(a.close_authority =~= b.close_authority);
}

/// Reading back the image of a token account gives the same value.
pub proof fn lemma_token_account_round_trip(value: TokenAccountData)
    ensures
        value.encode().len() == 165,
        TokenAccountData::decode(value.encode()) == value,
{
    let found = TokenAccountData::decode(value.encode());
    assert(found.encode() == value.encode());
    lemma_token_account_image_injective(found, value);
}

impl Pod for TokenAccountData {
    const LEN: usize = 165;

    /// The value whose image the bytes are.
    open spec fn decode(bytes: Seq<u8>) -> Self {
        choose|value: TokenAccountData| value.encode() == bytes
    }

    /// The fields in their order, each as its bytes.
    open spec fn encode(&self) -> Seq<u8> {
        self.mint@ + self.owner@ + self.amount@ + self.delegate_tag@ + self.delegate@
            + seq![self.state] + self.is_native_tag@ + self.is_native_val@
            + self.delegated_amount@ + self.close_authority_tag@ + self.close_authority@
    }

    fn from_bytes(bytes: &[u8]) -> (value: Self) {
        let value = TokenAccountData {
            mint: read_array::<32>(slice_subrange(bytes, 0, 32)),
            owner: read_array::<32>(slice_subrange(bytes, 32, 64)),
            amount: read_array::<8>(slice_subrange(bytes, 64, 72)),
            delegate_tag: read_array::<4>(slice_subrange(bytes, 72, 76)),
            delegate: read_array::<32>(slice_subrange(bytes, 76, 108)),
            state: bytes[108],
            is_native_tag: read_array::<4>(slice_subrange(bytes, 109, 113)),
            is_native_val: read_array::<8>(slice_subrange(bytes, 113, 121)),
            delegated_amount: read_array::<8>(slice_subrange(bytes, 121, 129)),
            close_authority_tag: read_array::<4>(slice_subrange(bytes, 129, 133)),
            close_authority: read_array::<32>(slice_subrange(bytes, 133, 165)),
        };
        proof {
            assert(value.encode() =~= bytes@);
            lemma_token_account_image_injective(Self::decode(bytes@), value);
        }
        value
    }

    fn to_bytes(&self) -> (bytes: Vec<u8>) {
        let mut bytes: Vec<u8> = Vec::new();
        push_array(&mut bytes, &self.mint);
        push_array(&mut bytes, &self.owner);
        push_array(&mut bytes, &self.amount);
        push_array(&mut bytes, &self.delegate_tag);
        push_array(&mut bytes, &self.delegate);
        bytes.push(self.state);
        push_array(&mut bytes, &self.is_native_tag);
        push_array(&mut bytes, &self.is_native_val);
        push_array(&mut bytes, &self.delegated_amount);
        push_array(&mut bytes, &self.close_authority_tag);
        push_array(&mut bytes, &self.close_authority);
        assert(bytes@ =~= self.encode());
        bytes
    }
}

impl TokenAccountData {
    /// The size of a token account without extensions.
    pub const LEN: usize = 165;

    /// The amount of tokens.
    pub fn amount(&self) -> (amount: u64)
        ensures
            amount == le_value(self.amount@),
    {
        read_u64_le(self.amount.as_slice())
    }

    /// Whether a delegate is set.
    pub fn has_delegate(&self) -> (set: bool)
        ensures
            set == (le_value(self.delegate_tag@) != 0),
    {
        read_u32_le(self.delegate_tag.as_slice()) != 0
    }

    /// The rent-exempt reserve of a native account, which holds wrapped
    /// lamports; `None` for any other account.
    pub fn is_native(&self) -> (reserve: Option<u64>)
        ensures
            reserve == if le_value(self.is_native_tag@) != 0 {
                Some(le_value(self.is_native_val@) as u64)
            } else {
                None
            },
    {
        if read_u32_le(self.is_native_tag.as_slice()) != 0 {
            Some(read_u64_le(self.is_native_val.as_slice()))
        } else {
            None
        }
    }

    /// The amount that the delegate may move.
    pub fn delegated_amount(&self) -> (amount: u64)
        ensures
            amount == le_value(self.delegated_amount@),
    {
        read_u64_le(self.delegated_amount.as_slice())
    }

    /// Whether a close authority is set.
    pub fn has_close_authority(&self) -> (set: bool)
        ensures
            set == (le_value(self.close_authority_tag@) != 0),
    {
        read_u32_le(self.close_authority_tag.as_slice()) != 0
    }
}

/// What loading a token account checks: a token program owns it, else
/// `IllegalOwner`; it is writable and holds a whole token account, else
/// `InvalidAccountData`.
pub open spec fn token_account_check(account: AccountState) -> Result<(), ProgramError> {
    if account.owner != TOKEN_PROGRAM_ID@ && account.owner != TOKEN_2022_PROGRAM_ID@ {
        Err(ProgramError::IllegalOwner)
    } else if !account.is_writable {
        Err(ProgramError::InvalidAccountData)
    } else if account.data.len() < 165 {
        Err(ProgramError::InvalidAccountData)
    } else {
        Ok(())
    }
}

/// The request to the associated-token-account program to create the
/// account if it does not exist: instruction number 1.
pub open spec fn create_ata_invocation(
    account: Seq<u8>,
    payer: Seq<u8>,
    owner: Seq<u8>,
    mint: Seq<u8>,
    system_program: Seq<u8>,
    token_program: Seq<u8>,
) -> Invocation {
    Invocation {
        program_id: ASSOCIATED_TOKEN_PROGRAM_ID@,
        accounts: seq![
            meta(payer, true, true),
            meta(account, true, false),
            meta(owner, false, false),
            meta(mint, false, false),
            meta(system_program, false, false),
            meta(token_program, false, false),
        ],
        data: seq![1u8],
        handles: seq![payer, account, owner, mint, system_program, token_program],
        signer_seeds: Seq::empty(),
    }
}

/// Whether an address is that of one of the token programs.
pub open spec fn is_token_program(address: Seq<u8>) -> bool {
    address == TOKEN_PROGRAM_ID@ || address == TOKEN_2022_PROGRAM_ID@
}

/// What `init_ata` decides: nothing to do for an account that a token
/// program owns already; `IllegalOwner` for a token program that is none,
/// `IncorrectProgramId` for a program that is not the associated-token-account
/// program; else the request to create the account.
pub open spec fn init_ata_outcome(
    account: AccountState,
    payer: AccountState,
    owner: AccountState,
    mint: AccountState,
    system_program: AccountState,
    token_program: AccountState,
    ata_program: AccountState,
) -> Result<Option<Invocation>, ProgramError> {
    if is_token_program(account.owner) {
        Ok(None)
    } else if !is_token_program(token_program.address) {
        Err(ProgramError::IllegalOwner)
    } else if ata_program.address != ASSOCIATED_TOKEN_PROGRAM_ID@ {
        Err(ProgramError::IncorrectProgramId)
    } else {
        Ok(
            Some(
                create_ata_invocation(
                    account.address,
                    payer.address,
                    owner.address,
                    mint.address,
                    system_program.address,
                    token_program.address,
                ),
            ),
        )
    }
}

/// Exclusive access to a token account.
///
/// The field is public because the contracts speak of the state in which
/// the borrow of `info` ends, which only the field itself names. What guards
/// the accessor is `wf`.
pub struct TokenAccountRefMut<'a> {
    /// The handle that this accessor holds.
    pub info: &'a mut AccountHandle,
}

impl<'a> TokenAccountRefMut<'a> {
    /// The account as this accessor holds it now.
    pub open spec fn handle(&self) -> AccountHandle {
        *self.info
    }

    /// What `load` has checked and no method takes away: a token program
    /// owns the account, it is writable, and its buffer has room for a token
    /// account. Every method that reads or writes the token account asks for
    /// it. `reload` may change the size of the buffer, and leaves it to the
    /// caller to show the room again.
    pub open spec fn wf(&self) -> bool {
        &&& is_token_program(self.handle().owner@)
        &&& self.handle().is_writable
        &&& self.handle().data@.len() >= 165
    }

    /// Wraps a writable token account. The handle is left as it was.
    pub fn load(info: &'a mut AccountHandle) -> (r: Result<Self, ProgramError>)
        ensures
            match r {
                Ok(a) => token_account_check(old(info)@) is Ok && *a.info == *old(info)
                    && *final(a.info) == *final(info) && a.wf(),
                Err(e) => token_account_check(old(info)@) == Err::<(), ProgramError>(e)
                    && *final(info) == *old(info),
            },
    {
        if !address_eq(&info.owner, &TOKEN_PROGRAM_ID) && !address_eq(
            &info.owner,
            &TOKEN_2022_PROGRAM_ID,
        ) {
            return Err(ProgramError::IllegalOwner);
        }
        if !info.is_writable {
            return Err(ProgramError::InvalidAccountData);
        }
        if info.data.len() < TokenAccountData::LEN {
            return Err(ProgramError::InvalidAccountData);
        }
        Ok(TokenAccountRefMut { info })
    }

    /// The handle behind the accessor.
    pub fn info(&self) -> (info: &AccountHandle)
        ensures
            *info == self.handle(),
    {
        &*self.info
    }

    /// The account's address.
    pub fn address(&self) -> (address: &Address)
        ensures
            *address == self.handle().address,
    {
        &self.info.address
    }

    /// The token account that the buffer holds.
    pub fn get(&self) -> (value: TokenAccountData)
        requires
            self.wf(),
        ensures
            value == typed::<TokenAccountData>(self.handle().data@),
    {
        TokenAccountData::from_bytes(slice_subrange(self.info.data.as_slice(), 0, 165))
    }

    /// Changes the token account that the buffer holds: `update` is given
    /// the current value, and what it returns is written over the first 165
    /// bytes at once.
    pub fn get_mut<G: FnOnce(TokenAccountData) -> TokenAccountData>(&mut self, update: G)
        requires
            old(self).wf(),
            update.requires((typed::<TokenAccountData>(old(self).handle().data@),)),
        ensures
            final(self).wf(),
            *final(final(self).info) == *final(old(self).info),
            exists|value: TokenAccountData| #[trigger]
                update.ensures((typed::<TokenAccountData>(old(self).handle().data@),), value)
                    && final(self).handle()@ == old(self).handle()@.with_data(
                    retyped::<TokenAccountData>(old(self).handle().data@, value),
                ),
    {
        let current = TokenAccountData::from_bytes(
            slice_subrange(self.info.data.as_slice(), 0, 165),
        );
        let next = update(current);
        let image = next.to_bytes();
        write_prefix(self.info.data.as_mut_slice(), image.as_slice());
    }

    /// The mint of the tokens.
    pub fn mint(&self) -> (mint: Address)
        requires
            self.wf(),
        ensures
            mint == typed::<TokenAccountData>(self.handle().data@).mint,
    {
        self.get().mint
    }

    /// The owner of the tokens, who may move them. This is not the program
    /// that owns the account.
    pub fn token_owner(&self) -> (owner: Address)
        requires
            self.wf(),
        ensures
            owner == typed::<TokenAccountData>(self.handle().data@).owner,
    {
        self.get().owner
    }

    /// The amount of tokens.
    pub fn amount(&self) -> (amount: u64)
        requires
            self.wf(),
        ensures
            amount == le_value(typed::<TokenAccountData>(self.handle().data@).amount@),
    {
        self.get().amount()
    }

    /// Whether the extended token program owns this account.
    pub fn is_token_2022(&self) -> (extended: bool)
        ensures
            extended == (self.handle().owner@ == TOKEN_2022_PROGRAM_ID@),
    {
        address_eq(&self.info.owner, &TOKEN_2022_PROGRAM_ID)
    }

    /// Takes over the bytes that the host now holds for this account, after
    /// another program has been invoked on it.
    pub fn reload(&mut self, data: Vec<u8>)
        ensures
            final(self).handle()@ == old(self).handle()@.with_data(data@),
            *final(final(self).info) == *final(old(self).info),
    {
        self.info.data = data;
    }

    /// Decides how an associated token account comes to exist: `None` where
    /// a token program owns `account` already, and else the request to the
    /// associated-token-account program that creates it.
    pub fn init_ata(
        account: &AccountHandle,
        payer: &AccountHandle,
        owner: &AccountHandle,
        mint: &AccountHandle,
        system_program: &AccountHandle,
        token_program: &AccountHandle,
        ata_program: &AccountHandle,
    ) -> (r: Result<Option<CpiInstruction>, ProgramError>)
        ensures
            match r {
                Ok(Some(instruction)) => init_ata_outcome(
                    account@,
                    payer@,
                    owner@,
                    mint@,
                    system_program@,
                    token_program@,
                    ata_program@,
                ) == Ok::<Option<Invocation>, ProgramError>(Some(instruction@)),
                Ok(None) => init_ata_outcome(
                    account@,
                    payer@,
                    owner@,
                    mint@,
                    system_program@,
                    token_program@,
                    ata_program@,
                ) == Ok::<Option<Invocation>, ProgramError>(None),
                Err(e) => init_ata_outcome(
                    account@,
                    payer@,
                    owner@,
                    mint@,
                    system_program@,
                    token_program@,
                    ata_program@,
                ) == Err::<Option<Invocation>, ProgramError>(e),
            },
    {
        if address_eq(&account.owner, &TOKEN_PROGRAM_ID) || address_eq(
            &account.owner,
            &TOKEN_2022_PROGRAM_ID,
        ) {
            return Ok(None);
        }
        if !address_eq(&token_program.address, &TOKEN_PROGRAM_ID) && !address_eq(
            &token_program.address,
            &TOKEN_2022_PROGRAM_ID,
        ) {
            return Err(ProgramError::IllegalOwner);
        }
        if !address_eq(&ata_program.address, &ASSOCIATED_TOKEN_PROGRAM_ID) {
            return Err(ProgramError::IncorrectProgramId);
        }
        let mut data: Vec<u8> = Vec::new();
        data.push(1);
        let mut accounts: Vec<InstructionAccount> = Vec::new();
        accounts.push(
            InstructionAccount { address: payer.address, is_writable: true, is_signer: true },
        );
        accounts.push(
            InstructionAccount { address: account.address, is_writable: true, is_signer: false },
        );
        accounts.push(
            InstructionAccount { address: owner.address, is_writable: false, is_signer: false },
        );
        accounts.push(
            InstructionAccount { address: mint.address, is_writable: false, is_signer: false },
        );
        accounts.push(
            InstructionAccount {
                address: system_program.address,
                is_writable: false,
                is_signer: false,
            },
        );
        accounts.push(
            InstructionAccount {
                address: token_program.address,
                is_writable: false,
                is_signer: false,
            },
        );
        let mut handles: Vec<Address> = Vec::new();
        handles.push(payer.address);
        handles.push(account.address);
        handles.push(owner.address);
        handles.push(mint.address);
        handles.push(system_program.address);
        handles.push(token_program.address);
        let instruction = CpiInstruction {
            program_id: ASSOCIATED_TOKEN_PROGRAM_ID,
            accounts,
            data,
            handles,
            signer_seeds: Vec::new(),
        };
        proof {
            let want = create_ata_invocation(
                account.address@,
                payer.address@,
                owner.address@,
                mint.address@,
                system_program.address@,
                token_program.address@,
            );
            assert(instruction@.data =~= want.data);
            assert(instruction@.accounts =~= want.accounts);
            assert(instruction@.handles =~= want.handles);
            assert(instruction@.signer_seeds =~= want.signer_seeds);
        }
        Ok(Some(instruction))
    }
}

} // verus!
