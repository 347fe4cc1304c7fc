//! The raw account handle that the host hands to a program.

use vstd::prelude::*;
use crate::address::Address;

verus! {

/// One account as the host presents it for the duration of an instruction:
/// its identity, its owner, the flags of the transaction, its balance and its
/// byte buffer. The buffer is the account's persisted state.
#[derive(Debug)]
pub struct AccountHandle {
    /// The account's own identity.
    pub address: Address,
    /// The program that owns the account.
    pub owner: Address,
    /// Whether the account signed the transaction.
    pub is_signer: bool,
    /// Whether the instruction may change the account.
    pub is_writable: bool,
    /// The account's balance in lamports.
    pub lamports: u64,
    /// The account's data.
    pub data: Vec<u8>,
}

/// What an account holds, as mathematical values.
pub struct AccountState {
    /// The bytes of the account's identity.
    pub address: Seq<u8>,
    /// The bytes of the owner's identity.
    pub owner: Seq<u8>,
    /// Whether the account signed the transaction.
    pub is_signer: bool,
    /// Whether the instruction may change the account.
    pub is_writable: bool,
    /// The balance in lamports.
    pub lamports: u64,
    /// The data.
    pub data: Seq<u8>,
}

impl View for AccountHandle {
    type V = AccountState;

    open spec fn view(&self) -> AccountState {
        AccountState {
            address: self.address@,
            owner: self.owner@,
            is_signer: self.is_signer,
            is_writable: self.is_writable,
            lamports: self.lamports,
            data: self.data@,
        }
    }
}

impl AccountState {
    /// This account with other data.
    pub open spec fn with_data(self, data: Seq<u8>) -> AccountState {
        AccountState { data, ..self }
    }
}

impl AccountHandle {
    /// A handle with the given contents.
    pub fn new(
        address: Address,
        owner: Address,
        is_signer: bool,
        is_writable: bool,
        lamports: u64,
        data: Vec<u8>,
    ) -> (handle: AccountHandle)
        ensures
            handle@ == (AccountState {
                address: address@,
                owner: owner@,
                is_signer,
                is_writable,
                lamports,
                data: data@,
            }),
    {
        AccountHandle { address, owner, is_signer, is_writable, lamports, data }
    }
}

} // verus!
