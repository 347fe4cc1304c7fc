//! A request to the host to invoke another program.

use vstd::prelude::*;
use crate::address::Address;

verus! {

/// One account as an invoked program is told of it.
#[derive(Clone, Copy, Debug)]
pub struct InstructionAccount {
    /// The account's address.
    pub address: Address,
    /// Whether the invoked program may change the account.
    pub is_writable: bool,
    /// Whether the account signs the invocation.
    pub is_signer: bool,
}

/// An `InstructionAccount` as mathematical values.
pub struct AccountMeta {
    /// The bytes of the account's address.
    pub address: Seq<u8>,
    /// Whether the invoked program may change the account.
    pub is_writable: bool,
    /// Whether the account signs the invocation.
    pub is_signer: bool,
}

impl View for InstructionAccount {
    type V = AccountMeta;

    open spec fn view(&self) -> AccountMeta {
        AccountMeta {
            address: self.address@,
            is_writable: self.is_writable,
            is_signer: self.is_signer,
        }
    }
}

/// An invocation of another program, ready to be handed to the host: the
/// program, the accounts it is told of, its instruction data, the handles to
/// pass along, and the seeds of the derived address that signs, if one does.
#[derive(Debug)]
pub struct CpiInstruction {
    /// The program to invoke.
    pub program_id: Address,
    /// The accounts that the program is told of, in order.
    pub accounts: Vec<InstructionAccount>,
    /// The instruction data.
    pub data: Vec<u8>,
    /// The addresses of the handles to pass to the host, in order.
    pub handles: Vec<Address>,
    /// The seeds of the signing derived address; empty where none signs.
    pub signer_seeds: Vec<Vec<u8>>,
}

/// A `CpiInstruction` as mathematical values.
pub struct Invocation {
    /// The bytes of the invoked program's identity.
    pub program_id: Seq<u8>,
    /// The accounts that the program is told of.
    pub accounts: Seq<AccountMeta>,
    /// The instruction data.
    pub data: Seq<u8>,
    /// The addresses of the handles passed along.
    pub handles: Seq<Seq<u8>>,
    /// The seeds of the signing derived address.
    pub signer_seeds: Seq<Seq<u8>>,
}

impl View for CpiInstruction {
    type V = Invocation;

    open spec fn view(&self) -> Invocation {
        Invocation {
            program_id: self.program_id@,
            accounts: Seq::new(self.accounts@.len(), |i: int| self.accounts@[i]@),
            data: self.data@,
            handles: Seq::new(self.handles@.len(), |i: int| self.handles@[i]@),
            signer_seeds: Seq::new(self.signer_seeds@.len(), |i: int| self.signer_seeds@[i]@),
        }
    }
}

/// An account that the invoked program is told of.
pub open spec fn meta(address: Seq<u8>, is_writable: bool, is_signer: bool) -> AccountMeta {
    AccountMeta { address, is_writable, is_signer }
}

} // verus!
