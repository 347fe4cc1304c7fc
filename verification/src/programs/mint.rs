//! Token mints.

use vstd::prelude::*;
use vstd::slice::slice_subrange;
use crate::address::{address_eq, Address};
use crate::bytes::{le_value, read_array, read_u32_le, read_u64_le};
use crate::error::ProgramError;
use crate::handle::{AccountHandle, AccountState};
use crate::programs::ids::{TOKEN_2022_PROGRAM_ID, TOKEN_PROGRAM_ID};
use crate::programs::traits::ValidatedAccount;

verus! {

/// The size of a mint without extensions.
pub const MINT_LEN: usize = 82;

/// Where the initialization flag of a mint stands.
pub const MINT_IS_INITIALIZED_OFFSET: usize = 45;

/// What `Mint` checks: a token program owns the account, else
/// `IllegalOwner`; the data holds a whole mint whose initialization flag is
/// set, else `UninitializedAccount`.
pub open spec fn mint_check(account: AccountState) -> Result<(), ProgramError> {
    if account.owner != TOKEN_PROGRAM_ID@ && account.owner != TOKEN_2022_PROGRAM_ID@ {
        Err(ProgramError::IllegalOwner)
    } else if account.data.len() < 82 {
        Err(ProgramError::UninitializedAccount)
    } else if account.data[45] == 0 {
        Err(ProgramError::UninitializedAccount)
    } else {
        Ok(())
    }
}

/// An optional address in a mint: four bytes of a little-endian tag at
/// `tag`, then the 32 bytes of the address, which counts when the tag is
/// not 0.
pub open spec fn optional_address(data: Seq<u8>, tag: int) -> Option<Seq<u8>> {
    if le_value(data.subrange(tag, tag + 4)) != 0 {
        Some(data.subrange(tag + 4, tag + 36))
    } else {
        None
    }
}

/// An initialized mint of one of the token programs.
pub struct Mint<'a> {
    info: &'a AccountHandle,
}

impl<'a> Mint<'a> {
    /// Where the tag of the mint authority stands.
    pub const MINT_AUTHORITY_OPTION_OFFSET: usize = 0;

    /// Where the mint authority stands.
    pub const MINT_AUTHORITY_OFFSET: usize = 4;

    /// Where the supply stands.
    pub const SUPPLY_OFFSET: usize = 36;

    /// Where the number of decimals stands.
    pub const DECIMALS_OFFSET: usize = 44;

    /// Where the tag of the freeze authority stands.
    pub const FREEZE_AUTHORITY_OPTION_OFFSET: usize = 46;

    /// Where the freeze authority stands.
    pub const FREEZE_AUTHORITY_OFFSET: usize = 50;

    #[verifier::type_invariant]
    spec fn checked(self) -> bool {
        mint_check(self.info@) is Ok
    }

    /// Reads an optional address.
    fn read_optional_address(&self, tag: usize) -> (r: Option<Address>)
        requires
            tag <= 46,
            tag + 36 <= self.account()@.data.len(),
        ensures
            match r {
                Some(address) => optional_address(self.account()@.data, tag as int) == Some(
                    address@,
                ),
                None => optional_address(self.account()@.data, tag as int) is None,
            },
    {
        let data = self.info.data.as_slice();
        if read_u32_le(slice_subrange(data, tag, tag + 4)) != 0 {
            Some(read_array::<32>(slice_subrange(data, tag + 4, tag + 36)))
        } else {
            None
        }
    }

    /// The authority that may mint, if there is one.
    pub fn mint_authority(&self) -> (r: Option<Address>)
        ensures
            match r {
                Some(address) => optional_address(self.account()@.data, 0) == Some(address@),
                None => optional_address(self.account()@.data, 0) is None,
            },
    {
        proof {
            use_type_invariant(self);
        }
        self.read_optional_address(0)
    }

    /// The authority that may freeze token accounts, if there is one.
    pub fn freeze_authority(&self) -> (r: Option<Address>)
        ensures
            match r {
                Some(address) => optional_address(self.account()@.data, 46) == Some(address@),
                None => optional_address(self.account()@.data, 46) is None,
            },
    {
        proof {
            use_type_invariant(self);
        }
        self.read_optional_address(46)
    }

    /// The tokens in existence.
    pub fn supply(&self) -> (supply: u64)
        ensures
            self.account()@.data.len() >= 82,
            supply == le_value(self.account()@.data.subrange(36, 44)),
    {
        proof {
            use_type_invariant(self);
        }
        read_u64_le(slice_subrange(self.info.data.as_slice(), 36, 44))
    }

    /// The number of decimal places of an amount.
    pub fn decimals(&self) -> (decimals: u8)
        ensures
            self.account()@.data.len() >= 82,
            decimals == self.account()@.data[44],
    {
        proof {
            use_type_invariant(self);
        }
        self.info.data[44]
    }

    /// Whether the extended token program owns this mint.
    pub fn is_token_2022(&self) -> (extended: bool)
        ensures
            extended == (self.account().owner@ == TOKEN_2022_PROGRAM_ID@),
            !extended ==> self.account().owner@ == TOKEN_PROGRAM_ID@,
    {
        proof {
            use_type_invariant(self);
        }
        address_eq(&self.info.owner, &TOKEN_2022_PROGRAM_ID)
    }
}

impl<'a> ValidatedAccount<'a> for Mint<'a> {
    open spec fn admits(account: AccountState) -> Result<(), ProgramError> {
        mint_check(account)
    }

    closed spec fn account(&self) -> AccountHandle {
        *self.info
    }

    fn wrap(info: &'a AccountHandle) -> (r: Result<Self, ProgramError>) {
        if !address_eq(&info.owner, &TOKEN_PROGRAM_ID) && !address_eq(
            &info.owner,
            &TOKEN_2022_PROGRAM_ID,
        ) {
            return Err(ProgramError::IllegalOwner);
        }
        if info.data.len() < MINT_LEN {
            return Err(ProgramError::UninitializedAccount);
        }
        if info.data[MINT_IS_INITIALIZED_OFFSET] == 0 {
            return Err(ProgramError::UninitializedAccount);
        }
        Ok(Mint { info })
    }

    fn info(&self) -> (info: &'a AccountHandle) {
        proof {
            use_type_invariant(self);
            assert(Self::admits(self.info@) is Ok);
        }
        self.info
    }
}

} // verus!
