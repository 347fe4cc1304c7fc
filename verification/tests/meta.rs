use solzempic::meta::{
    analyze_field_type, expand_field, instruction_accounts, parse_constraint,
    parse_discriminator, shank_accounts, shank_attribute, type_to_string, TypeShape,
};
use solzempic::{to_snake_case, ShankAccountMeta};

#[test]
fn snake_case_of_pascal_case() {
    assert_eq!(to_snake_case("Transfer"), "transfer");
    assert_eq!(to_snake_case("PlaceLimitOrder"), "place_limit_order");
    assert_eq!(to_snake_case("initialize"), "initialize");
    assert_eq!(to_snake_case(""), "");
    assert_eq!(to_snake_case("A"), "a");
    assert_eq!(to_snake_case("ABC"), "a_b_c");
    assert_eq!(to_snake_case("init2Fa"), "init2_fa");
    assert_eq!(to_snake_case("already_snake"), "already_snake");
    // Only ASCII letters are made lowercase; the underscore is set all the same.
    assert_eq!(to_snake_case("aÉb"), "a_Éb");
}

#[test]
fn attribute_of_an_account() {
    let meta = ShankAccountMeta {
        index: 0,
        name: "source",
        is_signer: false,
        is_writable: true,
        is_program: false,
    };
    assert_eq!(meta.to_shank_attribute(), "#[account(0, writable, name=\"source\")]");
    let meta = ShankAccountMeta {
        index: 12,
        name: "owner",
        is_signer: true,
        is_writable: false,
        is_program: false,
    };
    assert_eq!(meta.to_shank_attribute(), "#[account(12, signer, name=\"owner\")]");
    let meta = ShankAccountMeta {
        index: 305,
        name: "payer",
        is_signer: true,
        is_writable: true,
        is_program: false,
    };
    assert_eq!(meta.to_shank_attribute(), "#[account(305, writable, signer, name=\"payer\")]");
    let meta = ShankAccountMeta {
        index: 7,
        name: "system_program",
        is_signer: false,
        is_writable: false,
        is_program: true,
    };
    assert_eq!(meta.to_shank_attribute(), "#[account(7, name=\"system_program\")]");
    assert_eq!(
        shank_attribute(usize::MAX, "x", false, false),
        format!("#[account({}, name=\"x\")]", usize::MAX)
    );
    assert_eq!(shank_attribute(10, "", false, false), "#[account(10, name=\"\")]");
}

#[test]
fn constraints_of_field_types() {
    assert_eq!(analyze_field_type("Signer"), (true, false, false, 1));
    assert_eq!(analyze_field_type("MutSigner"), (true, true, false, 1));
    assert_eq!(analyze_field_type("Payer"), (true, true, false, 1));
    for name in ["AccountRefMut", "TokenAccountRefMut", "Writable", "Lut"] {
        assert_eq!(analyze_field_type(name), (false, true, false, 1), "{}", name);
    }
    for name in [
        "AccountRef",
        "TokenAccountRef",
        "Mint",
        "Vault",
        "SolVault",
        "ValidatedAccount",
        "ReadOnly",
        "Unknown",
        "",
        "signer",
    ] {
        assert_eq!(analyze_field_type(name), (false, false, false, 1), "{}", name);
    }
    for name in ["SystemProgram", "TokenProgram", "AtaProgram", "AltProgram", "Token2022Program"] {
        assert_eq!(analyze_field_type(name), (false, false, true, 1), "{}", name);
    }
    assert_eq!(analyze_field_type("ShardRefContext"), (false, false, false, 3));
    assert_eq!(analyze_field_type("ShardRefMutContext"), (false, true, false, 3));
}

#[test]
fn constraints_written_beside_a_name() {
    assert_eq!(parse_constraint("signer"), (true, false, false));
    assert_eq!(parse_constraint("mut"), (false, true, false));
    assert_eq!(parse_constraint("mut_signer"), (true, true, false));
    assert_eq!(parse_constraint("program"), (false, false, true));
    assert_eq!(parse_constraint(""), (false, false, false));
    assert_eq!(parse_constraint("Signer"), (false, false, false));
    assert_eq!(parse_constraint("mut signer"), (false, false, false));
}

#[test]
fn a_shard_context_stands_for_three_accounts() {
    let entries = expand_field("bids", "ShardRefMutContext", 4);
    assert_eq!(entries.len(), 3);
    assert_eq!(
        entries.iter().map(|e| (e.index, e.name.as_str())).collect::<Vec<_>>(),
        vec![(4, "bids_low_shard"), (5, "bids_current_shard"), (6, "bids_high_shard")]
    );
    assert!(entries.iter().all(|e| e.is_writable && !e.is_signer && !e.is_program));
    let entries = expand_field("asks", "ShardRefContext", 0);
    assert_eq!(entries.len(), 3);
    assert!(entries.iter().all(|e| e.is_writable));
    let entries = expand_field("payer", "Payer", 9);
    assert_eq!(entries.len(), 1);
    assert_eq!((entries[0].index, entries[0].name.as_str()), (9, "payer"));
    assert!(entries[0].is_signer && entries[0].is_writable && !entries[0].is_program);
}

#[test]
fn accounts_of_an_instruction() {
    let fields = [
        ("market", "AccountRefMut"),
        ("bids", "ShardRefMutContext"),
        ("owner", "Signer"),
        ("token_program", "TokenProgram"),
    ];
    let entries = instruction_accounts(&fields, 0);
    assert_eq!(
        entries.iter().map(|e| (e.index, e.name.clone())).collect::<Vec<_>>(),
        vec![
            (0, "market".to_string()),
            (1, "bids_low_shard".to_string()),
            (2, "bids_current_shard".to_string()),
            (3, "bids_high_shard".to_string()),
            (4, "owner".to_string()),
            (5, "token_program".to_string()),
        ]
    );
    assert!(entries[5].is_program);
    assert_eq!(
        shank_accounts(&entries),
        "#[account(0, writable, name=\"market\")]\n    \
         #[account(1, writable, name=\"bids_low_shard\")]\n    \
         #[account(2, writable, name=\"bids_current_shard\")]\n    \
         #[account(3, writable, name=\"bids_high_shard\")]\n    \
         #[account(4, signer, name=\"owner\")]\n    \
         #[account(5, name=\"token_program\")]"
    );
    let shifted = instruction_accounts(&fields[2..], 10);
    assert_eq!(shifted.iter().map(|e| e.index).collect::<Vec<_>>(), vec![10, 11]);
    assert!(instruction_accounts(&[], 3).is_empty());
    assert_eq!(shank_accounts(&Vec::new()), "");
}

#[test]
fn discriminator_from_digits() {
    assert_eq!(parse_discriminator("1"), Some(1));
    assert_eq!(parse_discriminator("0"), Some(0));
    assert_eq!(parse_discriminator("255"), Some(255));
    assert_eq!(parse_discriminator("007"), Some(7));
    assert_eq!(parse_discriminator("256"), None);
    assert_eq!(parse_discriminator("1000"), None);
    assert_eq!(parse_discriminator("99999999999999999999999"), None);
    assert_eq!(parse_discriminator(""), None);
    assert_eq!(parse_discriminator("1a"), None);
    assert_eq!(parse_discriminator("-1"), None);
    assert_eq!(parse_discriminator("2560x"), None);
    assert_eq!(parse_discriminator("٣"), None);
}

#[test]
fn types_as_text() {
    let path = |segments: &[&str]| TypeShape::Path(segments.iter().map(|s| s.to_string()).collect());
    assert_eq!(type_to_string(&path(&["u64"])), "u64");
    assert_eq!(type_to_string(&path(&["solana_address", "Address"])), "solana_address::Address");
    assert_eq!(type_to_string(&path(&[])), "");
    assert_eq!(
        type_to_string(&TypeShape::Array(Box::new(path(&["u8"])), "7".to_string())),
        "[u8; 7]"
    );
    assert_eq!(
        type_to_string(&TypeShape::Reference(true, Box::new(path(&["Wallet"])))),
        "&mut Wallet"
    );
    assert_eq!(
        type_to_string(&TypeShape::Reference(
            false,
            Box::new(TypeShape::Array(
                Box::new(TypeShape::Array(Box::new(path(&["a", "b", "C"])), "2".to_string())),
                "N + 1".to_string()
            ))
        )),
        "&[[a::b::C; 2]; N + 1]"
    );
    assert_eq!(type_to_string(&TypeShape::Other("(u8, u16)".to_string())), "(u8, u16)");
}
