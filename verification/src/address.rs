//! Account and program identities, and the derivation of program addresses.

use vstd::prelude::*;

verus! {

/// The 32-byte identity of an account or a program.
pub type Address = [u8; 32];

/// Whether two identities hold the same bytes.
///
/// Calls `solana_address::address_eq`, which compares the two 32-byte arrays
/// in four 8-byte chunks and answers whether all of them agree.
#[verifier::external_body]
pub(crate) fn bytes_agree(a: &Address, b: &Address) -> (same: bool)
    ensures
        same == (a@ == b@),
{
    solana_address::address_eq(
        &solana_address::Address::new_from_array(*a),
        &solana_address::Address::new_from_array(*b),
    )
}

/// Whether two identities are equal.
pub fn address_eq(a: &Address, b: &Address) -> (same: bool)
    ensures
        same == (a@ == b@),
        same == (*a == *b),
{
    proof {
        if a@ == b@ {
            assert(*a =~= *b);
        }
    }
    bytes_agree(a, b)
}

/// The seeds of a derivation as sequences of bytes.
pub open spec fn seeds_view(seeds: &[&[u8]]) -> Seq<Seq<u8>> {
    Seq::new(seeds@.len(), |i: int| seeds@[i]@)
}

/// The address that `seeds` derive under `program_id`, with the canonical
/// bump seed, where the derivation finds one.
pub uninterp spec fn program_address(seeds: Seq<Seq<u8>>, program_id: Seq<u8>) -> Option<
    (Seq<u8>, u8),
>;

/// Derives the program address of `seeds` under `program_id`.
///
/// Calls `solana_address::Address::try_find_program_address`: it hashes the
/// seeds, one candidate bump seed, the program identity and a fixed marker,
/// from bump 255 downwards, and answers with the first hash that is no point
/// of the curve. It answers `None` where there are 16 seeds or more, where a
/// seed is longer than 32 bytes, or where no bump seed does. The result
/// depends on the arguments alone.
#[verifier::external_body]
pub(crate) fn try_find_program_address(seeds: &[&[u8]], program_id: &Address) -> (found: Option<
    (Address, u8),
>)
    ensures
        found matches Some(pair) ==> program_address(seeds_view(seeds), program_id@) == Some(
            (pair.0@, pair.1),
        ),
        found is None ==> program_address(seeds_view(seeds), program_id@) is None,
{
    solana_address::Address::try_find_program_address(
        seeds,
        &solana_address::Address::new_from_array(*program_id),
    ).map(|pair| (pair.0.to_bytes(), pair.1))
}

/// Whether `address` is the derived one, beside the bump seed of the derivation.
pub open spec fn pda_match(address: Seq<u8>, derived: (Seq<u8>, u8)) -> (bool, u8) {
    (address == derived.0, derived.1)
}

/// Compares an account's address with a derived address and hands the bump
/// seed on.
pub fn pda_matches(address: &Address, derived: &(Address, u8)) -> (r: (bool, u8))
    ensures
        r == pda_match(address@, (derived.0@, derived.1)),
{
    (address_eq(address, &derived.0), derived.1)
}

/// Whether `address` is the program address of `seeds` under `program_id`,
/// with the canonical bump seed, for seeds that derive an address.
pub(crate) fn is_pda_of(address: &Address, program_id: &Address, seeds: &[&[u8]]) -> (r: (bool, u8))
    requires
        program_address(seeds_view(seeds), program_id@) is Some,
    ensures
        r == pda_match(address@, program_address(seeds_view(seeds), program_id@)->0),
{
    let derived = try_find_program_address(seeds, program_id).unwrap();
    pda_matches(address, &derived)
}

/// Whether `address` is the program address of `seeds` under `program_id`,
/// or `None` where the seeds derive no address. The address is derived
/// once.
pub fn try_is_pda_of(address: &Address, program_id: &Address, seeds: &[&[u8]]) -> (r: Option<
    (bool, u8),
>)
    ensures
        r == match program_address(seeds_view(seeds), program_id@) {
            Some(derived) => Some(pda_match(address@, derived)),
            None => None,
        },
{
    match try_find_program_address(seeds, program_id) {
        Some(derived) => Some(pda_matches(address, &derived)),
        None => None,
    }
}

} // verus!
