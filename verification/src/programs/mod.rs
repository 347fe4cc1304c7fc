//! Wrappers that admit a raw handle to one role, and the identities they
//! compare against.

pub mod alt;
pub mod ata;
pub mod ids;
pub mod lut;
pub mod mint;
pub mod signer;
pub mod system;
pub mod sysvars;
pub mod token_account;
pub mod token_program;
pub mod traits;
pub mod validation;
pub mod vault;

pub use alt::AltProgram;
pub use ata::AtaProgram;
pub use ids::{
    ADDRESS_LOOKUP_TABLE_PROGRAM_ID, ASSOCIATED_TOKEN_PROGRAM_ID, CLOCK_SYSVAR_ID,
    INSTRUCTIONS_SYSVAR_ID, LAST_RESTART_SLOT_SYSVAR_ID, RECENT_BLOCKHASHES_SYSVAR_ID,
    RENT_SYSVAR_ID, SLOT_HASHES_SYSVAR_ID, SYSTEM_PROGRAM_ID, TOKEN_2022_PROGRAM_ID,
    TOKEN_PROGRAM_ID,
};
pub use lut::Lut;
pub use mint::Mint;
pub use signer::{MutSigner, Payer, ReadOnly, Signer, Writable};
pub use system::SystemProgram;
pub use sysvars::{
    ClockSysvar, InstructionsSysvar, LastRestartSlot, LastRestartSlotSysvar,
    RecentBlockhashesSysvar, RentSysvar, SlotHashesSysvar,
};
pub use token_account::{TokenAccountData, TokenAccountRefMut};
pub use token_program::TokenProgram;
pub use traits::ValidatedAccount;
pub use vault::{SolVault, Vault};
pub use validation::{
    validate_clock_sysvar, validate_rent_sysvar, validate_slot_hashes_sysvar,
    validate_system_program, validate_token_program,
};
