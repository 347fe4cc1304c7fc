//! The sysvars as accounts of an instruction.

use vstd::prelude::*;
use crate::address::address_eq;
use crate::error::ProgramError;
use crate::handle::{AccountHandle, AccountState};
use vstd::slice::slice_subrange;
use crate::bytes::{le_value, read_u64_le};
use crate::programs::ids::{
    CLOCK_SYSVAR_ID, INSTRUCTIONS_SYSVAR_ID, LAST_RESTART_SLOT_SYSVAR_ID,
    RECENT_BLOCKHASHES_SYSVAR_ID, RENT_SYSVAR_ID, SLOT_HASHES_SYSVAR_ID,
};
use crate::programs::traits::{address_check, ValidatedAccount};

verus! {

/// An account that is the clock sysvar, which tells the slot, the epoch and the time.
pub struct ClockSysvar<'a> {
    info: &'a AccountHandle,
}

impl<'a> ClockSysvar<'a> {
    #[verifier::type_invariant]
    spec fn checked(self) -> bool {
        address_check(self.info@, CLOCK_SYSVAR_ID@) is Ok
    }
}

impl<'a> ValidatedAccount<'a> for ClockSysvar<'a> {
    /// The account's address is that of the clock sysvar; any other is refused with
    /// `IncorrectProgramId`.
    open spec fn admits(account: AccountState) -> Result<(), ProgramError> {
        address_check(account, CLOCK_SYSVAR_ID@)
    }

    closed spec fn account(&self) -> AccountHandle {
        *self.info
    }

    fn wrap(info: &'a AccountHandle) -> (r: Result<Self, ProgramError>) {
        if !address_eq(&info.address, &CLOCK_SYSVAR_ID) {
            return Err(ProgramError::IncorrectProgramId);
        }
        Ok(ClockSysvar { info })
    }

    fn info(&self) -> (info: &'a AccountHandle) {
        proof {
            use_type_invariant(self);
            assert(Self::admits(self.info@) is Ok);
        }
        self.info
    }
}

/// An account that is the rent sysvar, which holds the parameters of rent.
pub struct RentSysvar<'a> {
    info: &'a AccountHandle,
}

impl<'a> RentSysvar<'a> {
    #[verifier::type_invariant]
    spec fn checked(self) -> bool {
        address_check(self.info@, RENT_SYSVAR_ID@) is Ok
    }
}

impl<'a> ValidatedAccount<'a> for RentSysvar<'a> {
    /// The account's address is that of the rent sysvar; any other is refused with
    /// `IncorrectProgramId`.
    open spec fn admits(account: AccountState) -> Result<(), ProgramError> {
        address_check(account, RENT_SYSVAR_ID@)
    }

    closed spec fn account(&self) -> AccountHandle {
        *self.info
    }

    fn wrap(info: &'a AccountHandle) -> (r: Result<Self, ProgramError>) {
        if !address_eq(&info.address, &RENT_SYSVAR_ID) {
            return Err(ProgramError::IncorrectProgramId);
        }
        Ok(RentSysvar { info })
    }

    fn info(&self) -> (info: &'a AccountHandle) {
        proof {
            use_type_invariant(self);
            assert(Self::admits(self.info@) is Ok);
        }
        self.info
    }
}

/// An account that is the slot-hashes sysvar, which holds the hashes of recent slots.
pub struct SlotHashesSysvar<'a> {
    info: &'a AccountHandle,
}

impl<'a> SlotHashesSysvar<'a> {
    #[verifier::type_invariant]
    spec fn checked(self) -> bool {
        address_check(self.info@, SLOT_HASHES_SYSVAR_ID@) is Ok
    }
}

impl<'a> ValidatedAccount<'a> for SlotHashesSysvar<'a> {
    /// The account's address is that of the slot-hashes sysvar; any other is refused with
    /// `IncorrectProgramId`.
    open spec fn admits(account: AccountState) -> Result<(), ProgramError> {
        address_check(account, SLOT_HASHES_SYSVAR_ID@)
    }

    closed spec fn account(&self) -> AccountHandle {
        *self.info
    }

    fn wrap(info: &'a AccountHandle) -> (r: Result<Self, ProgramError>) {
        if !address_eq(&info.address, &SLOT_HASHES_SYSVAR_ID) {
            return Err(ProgramError::IncorrectProgramId);
        }
        Ok(SlotHashesSysvar { info })
    }

    fn info(&self) -> (info: &'a AccountHandle) {
        proof {
            use_type_invariant(self);
            assert(Self::admits(self.info@) is Ok);
        }
        self.info
    }
}

/// An account that is the instructions sysvar, through which a program reads the instructions
/// of its transaction.
pub struct InstructionsSysvar<'a> {
    info: &'a AccountHandle,
}

impl<'a> InstructionsSysvar<'a> {
    #[verifier::type_invariant]
    spec fn checked(self) -> bool {
        address_check(self.info@, INSTRUCTIONS_SYSVAR_ID@) is Ok
    }
}

impl<'a> ValidatedAccount<'a> for InstructionsSysvar<'a> {
    /// The account's address is that of the instructions sysvar; any other is refused with
    /// `IncorrectProgramId`.
    open spec fn admits(account: AccountState) -> Result<(), ProgramError> {
        address_check(account, INSTRUCTIONS_SYSVAR_ID@)
    }

    closed spec fn account(&self) -> AccountHandle {
        *self.info
    }

    fn wrap(info: &'a AccountHandle) -> (r: Result<Self, ProgramError>) {
        if !address_eq(&info.address, &INSTRUCTIONS_SYSVAR_ID) {
            return Err(ProgramError::IncorrectProgramId);
        }
        Ok(InstructionsSysvar { info })
    }

    fn info(&self) -> (info: &'a AccountHandle) {
        proof {
            use_type_invariant(self);
            assert(Self::admits(self.info@) is Ok);
        }
        self.info
    }
}

/// An account that is the recent-blockhashes sysvar.
pub struct RecentBlockhashesSysvar<'a> {
    info: &'a AccountHandle,
}

impl<'a> RecentBlockhashesSysvar<'a> {
    #[verifier::type_invariant]
    spec fn checked(self) -> bool {
        address_check(self.info@, RECENT_BLOCKHASHES_SYSVAR_ID@) is Ok
    }
}

impl<'a> ValidatedAccount<'a> for RecentBlockhashesSysvar<'a> {
    /// The account's address is that of the recent-blockhashes sysvar; any other is refused with
    /// `IncorrectProgramId`.
    open spec fn admits(account: AccountState) -> Result<(), ProgramError> {
        address_check(account, RECENT_BLOCKHASHES_SYSVAR_ID@)
    }

    closed spec fn account(&self) -> AccountHandle {
        *self.info
    }

    fn wrap(info: &'a AccountHandle) -> (r: Result<Self, ProgramError>) {
        if !address_eq(&info.address, &RECENT_BLOCKHASHES_SYSVAR_ID) {
            return Err(ProgramError::IncorrectProgramId);
        }
        Ok(RecentBlockhashesSysvar { info })
    }

    fn info(&self) -> (info: &'a AccountHandle) {
        proof {
            use_type_invariant(self);
            assert(Self::admits(self.info@) is Ok);
        }
        self.info
    }
}

/// The slot at which the cluster was last restarted, or 0 if it never was.
#[derive(Clone, Copy, Debug, PartialEq, Eq, Structural)]
pub struct LastRestartSlot {
    /// The slot of the last restart.
    pub last_restart_slot: u64,
}

impl Default for LastRestartSlot {
    fn default() -> (slot: LastRestartSlot)
        ensures
            slot.last_restart_slot == 0,
    {
        LastRestartSlot { last_restart_slot: 0 }
    }
}

/// What the data of the last-restart-slot sysvar tells: the number in its
/// first eight bytes, or `InvalidAccountData` where it is shorter.
pub open spec fn last_restart_slot_of(data: Seq<u8>) -> Result<LastRestartSlot, ProgramError> {
    if data.len() < 8 {
        Err(ProgramError::InvalidAccountData)
    } else {
        Ok(LastRestartSlot { last_restart_slot: le_value(data.subrange(0, 8)) as u64 })
    }
}

/// An account that is the last-restart-slot sysvar.
pub struct LastRestartSlotSysvar<'a> {
    info: &'a AccountHandle,
}

impl<'a> LastRestartSlotSysvar<'a> {
    #[verifier::type_invariant]
    spec fn checked(self) -> bool {
        address_check(self.info@, LAST_RESTART_SLOT_SYSVAR_ID@) is Ok
    }

    /// The slot of the last restart as this account's data tells it: the
    /// little-endian number in its first eight bytes.
    pub fn get(&self) -> (r: Result<LastRestartSlot, ProgramError>)
        ensures
            r == last_restart_slot_of(self.account()@.data),
    {
        let data = self.info.data.as_slice();
        if data.len() < 8 {
            return Err(ProgramError::InvalidAccountData);
        }
        Ok(LastRestartSlot { last_restart_slot: read_u64_le(slice_subrange(data, 0, 8)) })
    }

    /// The slot of the last restart from what the host's call for it
    /// answered: `status` is the call's result, 0 for success, and
    /// `last_restart_slot` the slot that it wrote.
    pub fn get_via_syscall(status: u64, last_restart_slot: u64) -> (r: Result<
        LastRestartSlot,
        ProgramError,
    >)
        ensures
            r == if status == 0 {
                Ok::<LastRestartSlot, ProgramError>(LastRestartSlot { last_restart_slot })
            } else {
                Err::<LastRestartSlot, ProgramError>(ProgramError::UnsupportedSysvar)
            },
    {
        if status == 0 {
            Ok(LastRestartSlot { last_restart_slot })
        } else {
            Err(ProgramError::UnsupportedSysvar)
        }
    }
}

impl<'a> ValidatedAccount<'a> for LastRestartSlotSysvar<'a> {
    /// The account's address is that of the last-restart-slot sysvar; any other is refused with
    /// `IncorrectProgramId`.
    open spec fn admits(account: AccountState) -> Result<(), ProgramError> {
        address_check(account, LAST_RESTART_SLOT_SYSVAR_ID@)
    }

    closed spec fn account(&self) -> AccountHandle {
        *self.info
    }

    fn wrap(info: &'a AccountHandle) -> (r: Result<Self, ProgramError>) {
        if !address_eq(&info.address, &LAST_RESTART_SLOT_SYSVAR_ID) {
            return Err(ProgramError::IncorrectProgramId);
        }
        Ok(LastRestartSlotSysvar { info })
    }

    fn info(&self) -> (info: &'a AccountHandle) {
        proof {
            use_type_invariant(self);
            assert(Self::admits(self.info@) is Ok);
        }
        self.info
    }
}

} // verus!
