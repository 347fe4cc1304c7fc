//! Account validation and typed access for on-chain programs, with the
//! three-phase instruction protocol that orders validation before mutation.
//!
//! A program is handed raw account handles and an instruction buffer. The
//! wrappers in `programs` admit a handle to a role after one check; the
//! accessors in `wrappers` read a handle's bytes as a typed structure after
//! checking owner, size and discriminator; `dispatch` routes the buffer to a
//! handler and runs its phases in order.

use vstd::prelude::*;

pub mod account;
pub mod address;
pub mod bytes;
pub mod dispatch;
pub mod error;
pub mod errors;
pub mod handle;
pub mod instruction;
pub mod meta;
pub mod programs;
pub mod traits;
pub mod wrappers;

pub use account::{
    create_pda_account, rent_exempt_minimum, transfer_lamports, LAMPORTS_PER_BYTE,
    MAX_ACCOUNT_SIZE,
};
pub use address::{address_eq, pda_matches, try_is_pda_of, Address};
pub use dispatch::{parse_params, route, Instruction, InstructionParams};
pub use error::ProgramError;
pub use handle::{AccountHandle, AccountState};
pub use instruction::{CpiInstruction, InstructionAccount};
pub use meta::{to_snake_case, ShankAccountMeta};
pub use programs::{
    validate_clock_sysvar, validate_rent_sysvar, validate_slot_hashes_sysvar,
    validate_system_program, validate_token_program, AltProgram, AtaProgram, ClockSysvar,
    InstructionsSysvar, LastRestartSlot, LastRestartSlotSysvar, Lut, Mint, MutSigner, Payer,
    ReadOnly, RecentBlockhashesSysvar, RentSysvar, Signer, SlotHashesSysvar, SolVault,
    SystemProgram, TokenAccountData, TokenAccountRefMut, TokenProgram, ValidatedAccount, Vault,
    Writable, ADDRESS_LOOKUP_TABLE_PROGRAM_ID, ASSOCIATED_TOKEN_PROGRAM_ID, CLOCK_SYSVAR_ID,
    INSTRUCTIONS_SYSVAR_ID, LAST_RESTART_SLOT_SYSVAR_ID, RECENT_BLOCKHASHES_SYSVAR_ID,
    RENT_SYSVAR_ID, SLOT_HASHES_SYSVAR_ID, SYSTEM_PROGRAM_ID, TOKEN_2022_PROGRAM_ID,
    TOKEN_PROGRAM_ID,
};
pub use traits::{check_discriminator, discriminator_bytes, Account, Initializable, Loadable, Pod};
pub use wrappers::{
    AccountRef, AccountRefMut, AsAccountRef, ShardBuffers, ShardRefContext,
    ShardRefMutContext, Shards,
};

verus! {

/// The program on whose behalf accounts are validated.
pub trait Framework {
    /// The identity that owned accounts must name as their owner.
    const PROGRAM_ID: Address;
}

} // verus!
