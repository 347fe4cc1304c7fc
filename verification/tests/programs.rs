use solzempic::programs::sysvars::LastRestartSlot;
use solzempic::{
    validate_clock_sysvar, validate_rent_sysvar, validate_slot_hashes_sysvar,
    validate_system_program, validate_token_program, AccountHandle, Address, AltProgram,
    AtaProgram, ClockSysvar, InstructionsSysvar, LastRestartSlotSysvar, Lut, Mint, MutSigner,
    Payer, ProgramError, ReadOnly, RecentBlockhashesSysvar, RentSysvar, Signer,
    SlotHashesSysvar, SolVault, SystemProgram, TokenProgram, ValidatedAccount, Vault, Writable,
    ADDRESS_LOOKUP_TABLE_PROGRAM_ID, ASSOCIATED_TOKEN_PROGRAM_ID, CLOCK_SYSVAR_ID,
    INSTRUCTIONS_SYSVAR_ID, LAST_RESTART_SLOT_SYSVAR_ID, RECENT_BLOCKHASHES_SYSVAR_ID,
    RENT_SYSVAR_ID, SLOT_HASHES_SYSVAR_ID, SYSTEM_PROGRAM_ID, TOKEN_2022_PROGRAM_ID,
    TOKEN_PROGRAM_ID,
};

fn flags(signer: bool, writable: bool) -> AccountHandle {
    AccountHandle::new([5u8; 32], [6u8; 32], signer, writable, 42, vec![])
}

fn at(address: Address) -> AccountHandle {
    AccountHandle::new(address, [6u8; 32], false, false, 0, vec![])
}

fn owned(owner: Address, data: Vec<u8>) -> AccountHandle {
    AccountHandle::new([5u8; 32], owner, false, true, 77, data)
}

#[test]
fn identities_are_those_of_their_base58_forms() {
    let pairs: [(&str, Address); 11] = [
        ("11111111111111111111111111111111", SYSTEM_PROGRAM_ID),
        ("TokenkegQfeZyiNwAJbNbGKPFXCWuBvf9Ss623VQ5DA", TOKEN_PROGRAM_ID),
        ("TokenzQdBNbLqP5VEhdkAS6EPFLC1PHnBqCXEpPxuEb", TOKEN_2022_PROGRAM_ID),
        ("ATokenGPvbdGVxr1b2hvZbsiqW5xWH25efTNsLJA8knL", ASSOCIATED_TOKEN_PROGRAM_ID),
        ("AddressLookupTab1e1111111111111111111111111", ADDRESS_LOOKUP_TABLE_PROGRAM_ID),
        ("SysvarC1ock11111111111111111111111111111111", CLOCK_SYSVAR_ID),
        ("SysvarRent111111111111111111111111111111111", RENT_SYSVAR_ID),
        ("SysvarS1otHashes111111111111111111111111111", SLOT_HASHES_SYSVAR_ID),
        ("Sysvar1nstructions1111111111111111111111111", INSTRUCTIONS_SYSVAR_ID),
        ("SysvarRecentB1ockHashes11111111111111111111", RECENT_BLOCKHASHES_SYSVAR_ID),
        ("SysvarLastRestartS1ot1111111111111111111111", LAST_RESTART_SLOT_SYSVAR_ID),
    ];
    for (text, identity) in pairs {
        assert_eq!(pinocchio_pubkey::from_str(text), identity, "{}", text);
    }
}

#[test]
fn signer_needs_a_signature() {
    assert_eq!(Signer::wrap(&flags(false, true)).err(), Some(ProgramError::MissingRequiredSignature));
    let account = flags(true, false);
    let signer = Signer::wrap(&account).unwrap();
    assert_eq!(*signer.key(), [5u8; 32]);
    assert_eq!(*signer.address(), [5u8; 32]);
    assert_eq!(signer.info().lamports, 42);
    let payer: Payer = Payer::wrap(&account).unwrap();
    assert_eq!(*ValidatedAccount::address(&payer), [5u8; 32]);
}

#[test]
fn mut_signer_checks_the_signature_first() {
    assert_eq!(
        MutSigner::wrap(&flags(false, false)).err(),
        Some(ProgramError::MissingRequiredSignature)
    );
    assert_eq!(
        MutSigner::wrap(&flags(false, true)).err(),
        Some(ProgramError::MissingRequiredSignature)
    );
    assert_eq!(MutSigner::wrap(&flags(true, false)).err(), Some(ProgramError::InvalidAccountData));
    let account = flags(true, true);
    let signer = MutSigner::wrap(&account).unwrap();
    assert_eq!(*signer.key(), [5u8; 32]);
    assert_eq!(*signer.address(), [5u8; 32]);
}

#[test]
fn writable_and_read_only() {
    assert_eq!(Writable::wrap(&flags(true, false)).err(), Some(ProgramError::InvalidAccountData));
    let account = flags(false, true);
    assert_eq!(*Writable::wrap(&account).unwrap().key(), [5u8; 32]);
    for (s, w) in [(false, false), (false, true), (true, false), (true, true)] {
        let account = flags(s, w);
        let wrapped = ReadOnly::wrap(&account).unwrap();
        assert_eq!(*wrapped.address(), [5u8; 32]);
        assert_eq!(*wrapped.key(), [5u8; 32]);
        assert_eq!(wrapped.info().is_signer, s);
    }
}

#[test]
fn program_wrappers_compare_the_address() {
    assert!(SystemProgram::wrap(&at(SYSTEM_PROGRAM_ID)).is_ok());
    assert_eq!(
        SystemProgram::wrap(&at(TOKEN_PROGRAM_ID)).err(),
        Some(ProgramError::IncorrectProgramId)
    );
    assert!(AtaProgram::wrap(&at(ASSOCIATED_TOKEN_PROGRAM_ID)).is_ok());
    assert_eq!(
        AtaProgram::wrap(&at(SYSTEM_PROGRAM_ID)).err(),
        Some(ProgramError::IncorrectProgramId)
    );
    assert!(AltProgram::wrap(&at(ADDRESS_LOOKUP_TABLE_PROGRAM_ID)).is_ok());
    assert_eq!(
        AltProgram::wrap(&at(ASSOCIATED_TOKEN_PROGRAM_ID)).err(),
        Some(ProgramError::IncorrectProgramId)
    );
    // An account owned by the system program is not the system program.
    assert_eq!(
        SystemProgram::wrap(&owned(SYSTEM_PROGRAM_ID, vec![])).err(),
        Some(ProgramError::IncorrectProgramId)
    );
    let account = at(SYSTEM_PROGRAM_ID);
    let program = SystemProgram::wrap(&account).unwrap();
    assert_eq!(*program.address(), SYSTEM_PROGRAM_ID);
    assert_eq!(program.info().address, SYSTEM_PROGRAM_ID);
}

#[test]
fn token_program_is_either_of_two() {
    let legacy = at(TOKEN_PROGRAM_ID);
    let extended = at(TOKEN_2022_PROGRAM_ID);
    assert!(!TokenProgram::wrap(&legacy).unwrap().is_token_2022());
    assert!(TokenProgram::wrap(&extended).unwrap().is_token_2022());
    assert_eq!(
        TokenProgram::wrap(&at(ASSOCIATED_TOKEN_PROGRAM_ID)).err(),
        Some(ProgramError::IncorrectProgramId)
    );
    assert_eq!(validate_token_program(&legacy), Ok(()));
    assert_eq!(validate_token_program(&extended), Ok(()));
    assert_eq!(
        validate_token_program(&at(SYSTEM_PROGRAM_ID)),
        Err(ProgramError::IncorrectProgramId)
    );
}

#[test]
fn sysvar_wrappers_compare_the_address() {
    assert!(ClockSysvar::wrap(&at(CLOCK_SYSVAR_ID)).is_ok());
    assert!(RentSysvar::wrap(&at(RENT_SYSVAR_ID)).is_ok());
    assert!(SlotHashesSysvar::wrap(&at(SLOT_HASHES_SYSVAR_ID)).is_ok());
    assert!(InstructionsSysvar::wrap(&at(INSTRUCTIONS_SYSVAR_ID)).is_ok());
    assert!(RecentBlockhashesSysvar::wrap(&at(RECENT_BLOCKHASHES_SYSVAR_ID)).is_ok());
    assert!(LastRestartSlotSysvar::wrap(&at(LAST_RESTART_SLOT_SYSVAR_ID)).is_ok());
    let wrong = at(RENT_SYSVAR_ID);
    assert_eq!(ClockSysvar::wrap(&wrong).err(), Some(ProgramError::IncorrectProgramId));
    assert_eq!(SlotHashesSysvar::wrap(&wrong).err(), Some(ProgramError::IncorrectProgramId));
    assert_eq!(InstructionsSysvar::wrap(&wrong).err(), Some(ProgramError::IncorrectProgramId));
    assert_eq!(RecentBlockhashesSysvar::wrap(&wrong).err(), Some(ProgramError::IncorrectProgramId));
    assert_eq!(LastRestartSlotSysvar::wrap(&wrong).err(), Some(ProgramError::IncorrectProgramId));
    assert_eq!(
        RentSysvar::wrap(&at(CLOCK_SYSVAR_ID)).err(),
        Some(ProgramError::IncorrectProgramId)
    );
}

#[test]
fn validators_compare_the_address() {
    assert_eq!(validate_system_program(&at(SYSTEM_PROGRAM_ID)), Ok(()));
    assert_eq!(validate_clock_sysvar(&at(CLOCK_SYSVAR_ID)), Ok(()));
    assert_eq!(validate_slot_hashes_sysvar(&at(SLOT_HASHES_SYSVAR_ID)), Ok(()));
    assert_eq!(validate_rent_sysvar(&at(RENT_SYSVAR_ID)), Ok(()));
    let other = at([1u8; 32]);
    assert_eq!(validate_system_program(&other), Err(ProgramError::IncorrectProgramId));
    assert_eq!(validate_clock_sysvar(&other), Err(ProgramError::IncorrectProgramId));
    assert_eq!(validate_slot_hashes_sysvar(&other), Err(ProgramError::IncorrectProgramId));
    assert_eq!(validate_rent_sysvar(&other), Err(ProgramError::IncorrectProgramId));
}

#[test]
fn last_restart_slot_is_read_little_endian() {
    let mut account = at(LAST_RESTART_SLOT_SYSVAR_ID);
    account.data = vec![0x39, 0x30, 0, 0, 0, 0, 0, 1, 0xFF];
    let sysvar = LastRestartSlotSysvar::wrap(&account).unwrap();
    assert_eq!(
        sysvar.get(),
        Ok(LastRestartSlot { last_restart_slot: 12345 + (1u64 << 56) })
    );
    let mut short = at(LAST_RESTART_SLOT_SYSVAR_ID);
    short.data = vec![1, 2, 3, 4, 5, 6, 7];
    let sysvar = LastRestartSlotSysvar::wrap(&short).unwrap();
    assert_eq!(sysvar.get(), Err(ProgramError::InvalidAccountData));
    assert_eq!(
        LastRestartSlotSysvar::get_via_syscall(0, 9),
        Ok(LastRestartSlot { last_restart_slot: 9 })
    );
    assert_eq!(
        LastRestartSlotSysvar::get_via_syscall(1, 9),
        Err(ProgramError::UnsupportedSysvar)
    );
    assert_eq!(LastRestartSlot::default().last_restart_slot, 0);
}

#[test]
fn lut_tells_its_state() {
    let fresh = owned(SYSTEM_PROGRAM_ID, vec![1]);
    let lut = Lut::wrap(&fresh).unwrap();
    assert!(!lut.is_initialized());
    assert!(lut.needs_init());
    assert_eq!(*lut.address(), [5u8; 32]);
    assert_eq!(lut.info().lamports, 77);
    let active = owned(ADDRESS_LOOKUP_TABLE_PROGRAM_ID, vec![1, 0, 0]);
    let lut = Lut::wrap(&active).unwrap();
    assert!(lut.is_initialized());
    assert!(!lut.needs_init());
    for data in [vec![], vec![0u8], vec![2u8, 1]] {
        let allocated = owned(ADDRESS_LOOKUP_TABLE_PROGRAM_ID, data);
        assert!(Lut::wrap(&allocated).unwrap().needs_init());
    }
    assert_eq!(
        Lut::wrap(&owned(TOKEN_PROGRAM_ID, vec![1])).err(),
        Some(ProgramError::IllegalOwner)
    );
}

fn mint_data() -> Vec<u8> {
    let mut data = vec![0u8; 82];
    data[0] = 1;
    for i in 0..32 {
        data[4 + i] = 100 + i as u8;
    }
    data[36..44].copy_from_slice(&1_000_000_007u64.to_le_bytes());
    data[44] = 6;
    data[45] = 1;
    data
}

#[test]
fn mint_reads_its_fields() {
    let account = owned(TOKEN_PROGRAM_ID, mint_data());
    let mint = Mint::wrap(&account).unwrap();
    let mut authority = [0u8; 32];
    for i in 0..32 {
        authority[i] = 100 + i as u8;
    }
    assert_eq!(mint.mint_authority(), Some(authority));
    assert_eq!(mint.freeze_authority(), None);
    assert_eq!(mint.supply(), 1_000_000_007);
    assert_eq!(mint.decimals(), 6);
    assert!(!mint.is_token_2022());
    assert_eq!(mint.info().data.len(), 82);

    let mut data = mint_data();
    data[0] = 0;
    data[49] = 1; // the tag is a number of four bytes
    data[50..82].copy_from_slice(&[8u8; 32]);
    data.extend_from_slice(&[1, 2, 3]);
    let account = owned(TOKEN_2022_PROGRAM_ID, data);
    let mint = Mint::wrap(&account).unwrap();
    assert_eq!(mint.mint_authority(), None);
    assert_eq!(mint.freeze_authority(), Some([8u8; 32]));
    assert!(mint.is_token_2022());
}

#[test]
fn mint_refuses_what_is_no_initialized_mint() {
    assert_eq!(
        Mint::wrap(&owned(SYSTEM_PROGRAM_ID, mint_data())).err(),
        Some(ProgramError::IllegalOwner)
    );
    assert_eq!(
        Mint::wrap(&owned(TOKEN_PROGRAM_ID, mint_data()[..81].to_vec())).err(),
        Some(ProgramError::UninitializedAccount)
    );
    let mut data = mint_data();
    data[45] = 0;
    assert_eq!(
        Mint::wrap(&owned(TOKEN_PROGRAM_ID, data)).err(),
        Some(ProgramError::UninitializedAccount)
    );
    // The owner is looked at first.
    assert_eq!(Mint::wrap(&owned([1u8; 32], vec![])).err(), Some(ProgramError::IllegalOwner));
}

fn vault_data(authority: Address, amount: u64) -> Vec<u8> {
    let mut data = vec![0u8; 165];
    data[32..64].copy_from_slice(&authority);
    data[64..72].copy_from_slice(&amount.to_le_bytes());
    data
}

#[test]
fn vault_checks_owner_and_authority() {
    let authority = [11u8; 32];
    let account = owned(TOKEN_PROGRAM_ID, vault_data(authority, 5_000));
    let vault = Vault::wrap(&account, &authority).unwrap();
    assert_eq!(vault.amount(), 5_000);
    assert_eq!(vault.try_amount(), Some(5_000));
    assert_eq!(*vault.address(), [5u8; 32]);
    assert_eq!(vault.info().lamports, 77);
    assert!(Vault::wrap(&owned(TOKEN_2022_PROGRAM_ID, vault_data(authority, 1)), &authority).is_ok());
    assert_eq!(
        Vault::wrap(&account, &[12u8; 32]).err(),
        Some(ProgramError::InvalidAccountData)
    );
    assert_eq!(
        Vault::wrap(&owned(SYSTEM_PROGRAM_ID, vault_data(authority, 1)), &authority).err(),
        Some(ProgramError::IllegalOwner)
    );
    assert_eq!(
        Vault::wrap(&owned(TOKEN_PROGRAM_ID, vault_data(authority, 1)[..63].to_vec()), &authority)
            .err(),
        Some(ProgramError::InvalidAccountData)
    );
    let short = owned(TOKEN_PROGRAM_ID, vault_data(authority, 1)[..64].to_vec());
    let vault = Vault::wrap(&short, &authority).unwrap();
    assert_eq!(vault.try_amount(), None);
}

#[test]
fn sol_vault_is_owned_by_the_system_program() {
    let account = owned(SYSTEM_PROGRAM_ID, vec![]);
    let vault = SolVault::wrap(&account).unwrap();
    assert_eq!(vault.lamports(), 77);
    assert!(vault.is_writable());
    assert_eq!(*vault.address(), [5u8; 32]);
    assert_eq!(vault.info().owner, SYSTEM_PROGRAM_ID);
    assert_eq!(
        SolVault::wrap(&owned(TOKEN_PROGRAM_ID, vec![])).err(),
        Some(ProgramError::IllegalOwner)
    );
}
