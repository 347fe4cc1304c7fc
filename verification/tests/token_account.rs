use solzempic::{
    AccountHandle, Address, Pod, ProgramError, TokenAccountData, TokenAccountRefMut,
    ASSOCIATED_TOKEN_PROGRAM_ID, SYSTEM_PROGRAM_ID, TOKEN_2022_PROGRAM_ID, TOKEN_PROGRAM_ID,
};

fn image() -> Vec<u8> {
    (0..165u32).map(|i| (i % 251) as u8 + 1).collect()
}

fn token_account(owner: Address, writable: bool, data: Vec<u8>) -> AccountHandle {
    AccountHandle::new([4u8; 32], owner, false, writable, 5, data)
}

#[test]
fn layout_of_a_token_account() {
    let bytes = image();
    let data = TokenAccountData::from_bytes(&bytes);
    assert_eq!(&data.mint[..], &bytes[0..32]);
    assert_eq!(&data.owner[..], &bytes[32..64]);
    assert_eq!(&data.amount[..], &bytes[64..72]);
    assert_eq!(&data.delegate_tag[..], &bytes[72..76]);
    assert_eq!(&data.delegate[..], &bytes[76..108]);
    assert_eq!(data.state, bytes[108]);
    assert_eq!(&data.is_native_tag[..], &bytes[109..113]);
    assert_eq!(&data.is_native_val[..], &bytes[113..121]);
    assert_eq!(&data.delegated_amount[..], &bytes[121..129]);
    assert_eq!(&data.close_authority_tag[..], &bytes[129..133]);
    assert_eq!(&data.close_authority[..], &bytes[133..165]);
    assert_eq!(data.to_bytes(), bytes);
    assert_eq!(<TokenAccountData as Pod>::LEN, 165);
    assert_eq!(TokenAccountData::LEN, 165);
}

#[test]
fn fields_of_a_token_account() {
    let mut bytes = vec![0u8; 165];
    bytes[64..72].copy_from_slice(&123_456_789_012u64.to_le_bytes());
    bytes[121..129].copy_from_slice(&77u64.to_le_bytes());
    let data = TokenAccountData::from_bytes(&bytes);
    assert_eq!(data.amount(), 123_456_789_012);
    assert_eq!(data.delegated_amount(), 77);
    assert!(!data.has_delegate());
    assert!(!data.has_close_authority());
    assert_eq!(data.is_native(), None);
    bytes[75] = 1;
    bytes[109] = 1;
    bytes[113..121].copy_from_slice(&2_039_280u64.to_le_bytes());
    bytes[130] = 2;
    let data = TokenAccountData::from_bytes(&bytes);
    assert!(data.has_delegate());
    assert!(data.has_close_authority());
    assert_eq!(data.is_native(), Some(2_039_280));
}

#[test]
fn load_checks_owner_then_writability_then_size() {
    let mut account = token_account(SYSTEM_PROGRAM_ID, false, vec![]);
    assert_eq!(TokenAccountRefMut::load(&mut account).err(), Some(ProgramError::IllegalOwner));
    let mut account = token_account(TOKEN_PROGRAM_ID, false, vec![]);
    assert_eq!(
        TokenAccountRefMut::load(&mut account).err(),
        Some(ProgramError::InvalidAccountData)
    );
    let mut account = token_account(TOKEN_2022_PROGRAM_ID, true, vec![0u8; 164]);
    assert_eq!(
        TokenAccountRefMut::load(&mut account).err(),
        Some(ProgramError::InvalidAccountData)
    );
    let mut account = token_account(TOKEN_2022_PROGRAM_ID, true, vec![0u8; 165]);
    assert!(TokenAccountRefMut::load(&mut account).unwrap().is_token_2022());
}

#[test]
fn accessor_reads_and_writes() {
    let mut bytes = image();
    bytes[64..72].copy_from_slice(&900u64.to_le_bytes());
    bytes.extend_from_slice(&[7, 7]);
    let mut account = token_account(TOKEN_PROGRAM_ID, true, bytes.clone());
    {
        let mut tokens = TokenAccountRefMut::load(&mut account).unwrap();
        assert!(!tokens.is_token_2022());
        assert_eq!(*tokens.address(), [4u8; 32]);
        assert_eq!(tokens.info().lamports, 5);
        assert_eq!(&tokens.mint()[..], &bytes[0..32]);
        assert_eq!(&tokens.token_owner()[..], &bytes[32..64]);
        assert_eq!(tokens.amount(), 900);
        tokens.get_mut(|mut t| {
            t.amount = 901u64.to_le_bytes();
            t.state = 2;
            t
        });
        assert_eq!(tokens.amount(), 901);
        assert_eq!(tokens.get().state, 2);
        let mut fresh = vec![0u8; 165];
        fresh[64] = 3;
        tokens.reload(fresh);
        assert_eq!(tokens.amount(), 3);
    }
    assert_eq!(account.data.len(), 165);
}

#[test]
fn writes_keep_the_rest_of_the_buffer() {
    let mut bytes = image();
    bytes.extend_from_slice(&[7, 8]);
    let mut account = token_account(TOKEN_PROGRAM_ID, true, bytes.clone());
    {
        let mut tokens = TokenAccountRefMut::load(&mut account).unwrap();
        tokens.get_mut(|mut t| {
            t.state = 0;
            t
        });
    }
    let mut expected = bytes;
    expected[108] = 0;
    assert_eq!(account.data, expected);
}

fn at(id: u8, address: Address, owner: Address) -> AccountHandle {
    let _ = id;
    AccountHandle::new(address, owner, false, false, 0, vec![])
}

#[test]
fn init_ata_decides_in_order() {
    let payer = at(0, [1u8; 32], SYSTEM_PROGRAM_ID);
    let owner = at(0, [2u8; 32], SYSTEM_PROGRAM_ID);
    let mint = at(0, [3u8; 32], TOKEN_PROGRAM_ID);
    let system = at(0, SYSTEM_PROGRAM_ID, [0u8; 32]);
    let token = at(0, TOKEN_2022_PROGRAM_ID, [0u8; 32]);
    let ata = at(0, ASSOCIATED_TOKEN_PROGRAM_ID, [0u8; 32]);
    let nothing = at(0, [9u8; 32], [0u8; 32]);

    // An account of a token program exists already, whatever the other accounts are.
    let existing = at(0, [8u8; 32], TOKEN_PROGRAM_ID);
    let r = TokenAccountRefMut::init_ata(&existing, &payer, &owner, &mint, &system, &nothing, &nothing);
    assert!(matches!(r, Ok(None)));
    let existing = at(0, [8u8; 32], TOKEN_2022_PROGRAM_ID);
    let r = TokenAccountRefMut::init_ata(&existing, &payer, &owner, &mint, &system, &token, &ata);
    assert!(matches!(r, Ok(None)));

    let fresh = at(0, [8u8; 32], SYSTEM_PROGRAM_ID);
    let r = TokenAccountRefMut::init_ata(&fresh, &payer, &owner, &mint, &system, &nothing, &nothing);
    assert_eq!(r.err(), Some(ProgramError::IllegalOwner));
    let r = TokenAccountRefMut::init_ata(&fresh, &payer, &owner, &mint, &system, &token, &nothing);
    assert_eq!(r.err(), Some(ProgramError::IncorrectProgramId));

    let request = TokenAccountRefMut::init_ata(&fresh, &payer, &owner, &mint, &system, &token, &ata)
        .unwrap()
        .unwrap();
    assert_eq!(request.program_id, ASSOCIATED_TOKEN_PROGRAM_ID);
    assert_eq!(request.data, vec![1]);
    let told: Vec<(Address, bool, bool)> =
        request.accounts.iter().map(|a| (a.address, a.is_writable, a.is_signer)).collect();
    assert_eq!(
        told,
        vec![
            ([1u8; 32], true, true),
            ([8u8; 32], true, false),
            ([2u8; 32], false, false),
            ([3u8; 32], false, false),
            (SYSTEM_PROGRAM_ID, false, false),
            (TOKEN_2022_PROGRAM_ID, false, false),
        ]
    );
    assert_eq!(
        request.handles,
        vec![[1u8; 32], [8u8; 32], [2u8; 32], [3u8; 32], SYSTEM_PROGRAM_ID, TOKEN_2022_PROGRAM_ID]
    );
    assert!(request.signer_seeds.is_empty());
}
