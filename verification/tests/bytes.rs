use solzempic::bytes::{push_array, push_u32_le, push_u64_le, read_u32_le, read_u64_le, write_prefix};
use solzempic::errors::{account_already_initialized, account_not_writable, invalid_account_data};
use solzempic::{check_discriminator, discriminator_bytes, ProgramError};

#[test]
fn little_endian_reads() {
    assert_eq!(read_u64_le(&[232, 3, 0, 0, 0, 0, 0, 0]), 1000);
    assert_eq!(read_u64_le(&[1, 2, 3, 4, 5, 6, 7, 8]), 0x0807_0605_0403_0201);
    assert_eq!(read_u64_le(&[0xFF; 8]), u64::MAX);
    assert_eq!(read_u64_le(&[0; 8]), 0);
    assert_eq!(read_u32_le(&[1, 0, 0, 0]), 1);
    assert_eq!(read_u32_le(&[0x78, 0x56, 0x34, 0x12]), 0x1234_5678);
    assert_eq!(read_u32_le(&[0xFF; 4]), u32::MAX);
}

#[test]
fn little_endian_writes() {
    let mut out = vec![9u8];
    push_u32_le(&mut out, 2);
    push_u64_le(&mut out, 1000);
    assert_eq!(out, vec![9, 2, 0, 0, 0, 232, 3, 0, 0, 0, 0, 0, 0]);
    let mut out = Vec::new();
    push_u64_le(&mut out, u64::MAX);
    push_u32_le(&mut out, 0x1234_5678);
    assert_eq!(&out[..8], &[0xFF; 8]);
    assert_eq!(&out[8..], &[0x78, 0x56, 0x34, 0x12]);
    for value in [0u64, 1, 255, 256, 0xDEAD_BEEF, u64::MAX - 1] {
        let mut out = Vec::new();
        push_u64_le(&mut out, value);
        assert_eq!(out, value.to_le_bytes());
        assert_eq!(read_u64_le(&out), value);
    }
}

#[test]
fn arrays_and_prefixes() {
    let mut out = vec![1u8];
    push_array(&mut out, &[2u8, 3, 4]);
    push_array::<0>(&mut out, &[]);
    assert_eq!(out, vec![1, 2, 3, 4]);
    let mut data = vec![0u8, 1, 2, 3, 4];
    write_prefix(&mut data, &[9, 8]);
    assert_eq!(data, vec![9, 8, 2, 3, 4]);
    write_prefix(&mut data, &[]);
    assert_eq!(data, vec![9, 8, 2, 3, 4]);
    write_prefix(&mut data, &[5, 5, 5, 5, 5]);
    assert_eq!(data, vec![5; 5]);
}

#[test]
fn discriminators() {
    assert!(check_discriminator(&[3, 0], 3));
    assert!(check_discriminator(&[0], 0));
    assert!(!check_discriminator(&[], 0));
    assert!(!check_discriminator(&[], 3));
    assert!(!check_discriminator(&[2, 3], 3));
    assert_eq!(discriminator_bytes(7), [7, 0, 0, 0, 0, 0, 0, 0]);
    assert_eq!(discriminator_bytes(0), [0; 8]);
}

#[test]
fn errors_by_occasion() {
    assert_eq!(account_not_writable(), ProgramError::InvalidAccountData);
    assert_eq!(invalid_account_data(), ProgramError::InvalidAccountData);
    assert_eq!(account_already_initialized(), ProgramError::AccountAlreadyInitialized);
}
