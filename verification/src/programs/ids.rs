//! The identities of the well-known programs and sysvars.

use vstd::prelude::*;
use crate::address::Address;

verus! {

/// The system program, which allocates accounts and owns fresh ones. Its base58 form is
/// `11111111111111111111111111111111`.
pub const SYSTEM_PROGRAM_ID: Address = [
    0, 0, 0, 0, 0, 0, 0, 0,
    0, 0, 0, 0, 0, 0, 0, 0,
    0, 0, 0, 0, 0, 0, 0, 0,
    0, 0, 0, 0, 0, 0, 0, 0,
];

/// The token program. Its base58 form is `TokenkegQfeZyiNwAJbNbGKPFXCWuBvf9Ss623VQ5DA`.
pub const TOKEN_PROGRAM_ID: Address = [
    6, 221, 246, 225, 215, 101, 161, 147,
    217, 203, 225, 70, 206, 235, 121, 172,
    28, 180, 133, 237, 95, 91, 55, 145,
    58, 140, 245, 133, 126, 255, 0, 169,
];

/// The extended token program. Its base58 form is `TokenzQdBNbLqP5VEhdkAS6EPFLC1PHnBqCXEpPxuEb`.
pub const TOKEN_2022_PROGRAM_ID: Address = [
    6, 221, 246, 225, 238, 117, 143, 222,
    24, 66, 93, 188, 228, 108, 205, 218,
    182, 26, 252, 77, 131, 185, 13, 39,
    254, 189, 249, 40, 216, 161, 139, 252,
];

/// The associated-token-account program. Its base58 form is
/// `ATokenGPvbdGVxr1b2hvZbsiqW5xWH25efTNsLJA8knL`.
pub const ASSOCIATED_TOKEN_PROGRAM_ID: Address = [
    140, 151, 37, 143, 78, 36, 137, 241,
    187, 61, 16, 41, 20, 142, 13, 131,
    11, 90, 19, 153, 218, 255, 16, 132,
    4, 142, 123, 216, 219, 233, 248, 89,
];

/// The address-lookup-table program. Its base58 form is
/// `AddressLookupTab1e1111111111111111111111111`.
pub const ADDRESS_LOOKUP_TABLE_PROGRAM_ID: Address = [
    2, 119, 166, 175, 151, 51, 155, 122,
    200, 141, 24, 146, 201, 4, 70, 245,
    0, 2, 48, 146, 102, 246, 46, 83,
    193, 24, 36, 73, 130, 0, 0, 0,
];

/// The clock sysvar. Its base58 form is `SysvarC1ock11111111111111111111111111111111`.
pub const CLOCK_SYSVAR_ID: Address = [
    6, 167, 213, 23, 24, 199, 116, 201,
    40, 86, 99, 152, 105, 29, 94, 182,
    139, 94, 184, 163, 155, 75, 109, 92,
    115, 85, 91, 33, 0, 0, 0, 0,
];

/// The rent sysvar. Its base58 form is `SysvarRent111111111111111111111111111111111`.
pub const RENT_SYSVAR_ID: Address = [
    6, 167, 213, 23, 25, 44, 92, 81,
    33, 140, 201, 76, 61, 74, 241, 127,
    88, 218, 238, 8, 155, 161, 253, 68,
    227, 219, 217, 138, 0, 0, 0, 0,
];

/// The slot-hashes sysvar. Its base58 form is `SysvarS1otHashes111111111111111111111111111`.
pub const SLOT_HASHES_SYSVAR_ID: Address = [
    6, 167, 213, 23, 25, 47, 10, 175,
    198, 242, 101, 227, 251, 119, 204, 122,
    218, 130, 197, 41, 208, 190, 59, 19,
    110, 45, 0, 85, 32, 0, 0, 0,
];

/// The instructions sysvar. Its base58 form is `Sysvar1nstructions1111111111111111111111111`.
pub const INSTRUCTIONS_SYSVAR_ID: Address = [
    6, 167, 213, 23, 24, 123, 209, 102,
    53, 218, 212, 4, 85, 253, 194, 192,
    193, 36, 198, 143, 33, 86, 117, 165,
    219, 186, 203, 95, 8, 0, 0, 0,
];

/// The recent-blockhashes sysvar. Its base58 form is `SysvarRecentB1ockHashes11111111111111111111`.
pub const RECENT_BLOCKHASHES_SYSVAR_ID: Address = [
    6, 167, 213, 23, 25, 44, 86, 142,
    224, 138, 132, 95, 115, 210, 151, 136,
    207, 3, 92, 49, 69, 178, 26, 179,
    68, 216, 6, 46, 169, 64, 0, 0,
];

/// The last-restart-slot sysvar. Its base58 form is `SysvarLastRestartS1ot1111111111111111111111`.
pub const LAST_RESTART_SLOT_SYSVAR_ID: Address = [
    6, 167, 213, 23, 25, 6, 221, 225,
    205, 63, 148, 125, 202, 180, 200, 244,
    244, 245, 27, 173, 15, 152, 19, 184,
    0, 210, 137, 71, 31, 192, 0, 0,
];

} // verus!
