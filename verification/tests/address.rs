use solzempic::address::{pda_matches, try_is_pda_of};
use solzempic::{address_eq, AccountHandle, AccountRef, Address, Framework, Loadable, Pod};

const PROGRAM: Address = [7u8; 32];

struct Program;

impl Framework for Program {
    const PROGRAM_ID: Address = PROGRAM;
}

#[derive(Clone, Copy, Debug, PartialEq)]
struct Marker {
    discriminator: u8,
}

impl Pod for Marker {
    const LEN: usize = 1;

    fn from_bytes(bytes: &[u8]) -> Self {
        Marker { discriminator: bytes[0] }
    }

    fn to_bytes(&self) -> Vec<u8> {
        vec![self.discriminator]
    }
}

impl Loadable for Marker {
    const DISCRIMINATOR: u8 = 1;
}

#[test]
fn address_eq_compares_all_bytes() {
    let a: Address = [3u8; 32];
    assert!(address_eq(&a, &[3u8; 32]));
    for i in 0..32 {
        let mut b = a;
        b[i] ^= 1;
        assert!(!address_eq(&a, &b), "byte {}", i);
        assert!(!address_eq(&b, &a), "byte {}", i);
    }
}

#[test]
fn pda_matches_hands_the_bump_on() {
    assert_eq!(pda_matches(&[1u8; 32], &([1u8; 32], 250)), (true, 250));
    assert_eq!(pda_matches(&[1u8; 32], &([2u8; 32], 249)), (false, 249));
}

#[test]
fn derivation_is_that_of_the_address_crate() {
    let seeds: [&[u8]; 2] = [b"vault", &[1, 2, 3]];
    let (expected, bump) = solana_address::Address::find_program_address(
        &seeds,
        &solana_address::Address::new_from_array(PROGRAM),
    );
    let derived: Address = expected.to_bytes();
    assert_ne!(derived, PROGRAM);
    assert_eq!(try_is_pda_of(&derived, &PROGRAM, &seeds), Some((true, bump)));
    assert_eq!(try_is_pda_of(&[0u8; 32], &PROGRAM, &seeds), Some((false, bump)));
    // Another program derives another address from the same seeds.
    assert!(matches!(try_is_pda_of(&derived, &[8u8; 32], &seeds), Some((false, _))));
}

#[test]
fn is_pda_of_an_accessor() {
    let seeds: [&[u8]; 1] = [b"marker"];
    let (expected, bump) = solana_address::Address::find_program_address(
        &seeds,
        &solana_address::Address::new_from_array(PROGRAM),
    );
    let account = AccountHandle::new(expected.to_bytes(), PROGRAM, false, false, 0, vec![1]);
    let marker = AccountRef::<Marker, Program>::load(&account).unwrap();
    assert_eq!(marker.is_pda(&seeds), (true, bump));
    assert_eq!(marker.try_is_pda(&seeds), Some((true, bump)));
    let other: [&[u8]; 1] = [b"other"];
    let (matches, _) = marker.is_pda(&other);
    assert!(!matches);
    assert!(matches!(marker.try_is_pda(&other), Some((false, _))));
}

#[test]
fn seeds_that_derive_nothing_give_none() {
    let long = [0u8; 33];
    let too_long: [&[u8]; 1] = [&long];
    assert_eq!(try_is_pda_of(&[1u8; 32], &PROGRAM, &too_long), None);
    let many: [&[u8]; 16] = [b"s"; 16];
    assert_eq!(try_is_pda_of(&[1u8; 32], &PROGRAM, &many), None);
    let account = AccountHandle::new([1u8; 32], PROGRAM, false, false, 0, vec![1]);
    let marker = AccountRef::<Marker, Program>::load(&account).unwrap();
    assert_eq!(marker.try_is_pda(&too_long), None);
}
