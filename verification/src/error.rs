//! The error kinds that account validation and instruction dispatch report.

use vstd::prelude::*;

verus! {

/// Why an instruction was refused.
///
/// Every failure is a value handed back at the first check that fails; nothing
/// is retried or recovered inside this crate.
#[derive(Clone, Copy, Debug, PartialEq, Eq, Structural)]
pub enum ProgramError {
    /// The account is not owned by the program that was expected to own it.
    IllegalOwner,
    /// The account's address is not that of the expected program or sysvar.
    IncorrectProgramId,
    /// The account did not sign the transaction.
    MissingRequiredSignature,
    /// The account's data is too short, carries the wrong discriminator, or
    /// the account is not writable.
    InvalidAccountData,
    /// The account has been initialized before.
    AccountAlreadyInitialized,
    /// The instruction buffer is empty, too short, or names no handler.
    InvalidInstructionData,
    /// The account holds data whose own initialization flag is not set.
    UninitializedAccount,
    /// The host does not offer the sysvar that was asked for.
    UnsupportedSysvar,
    /// The instruction was given fewer accounts than it reads.
    NotEnoughAccountKeys,
    /// An account holds less than the instruction needs.
    InsufficientFunds,
    /// A failure that a program defines for itself.
    Custom(u32),
    /// Any other outcome of the host, by its numeric code.
    Host(u64),
}

} // verus!
