use roast_core::records::{ROAST_CONTENT_LIMIT, ROAST_DATA_SPACE, TOKEN_METADATA_SPACE};
use roast_core::table::Record;
use roast_core::{
    Address,
    AuthorityKind,
    CertificateMetadata,
    Creator,
    ErrorKind,
    Instruction,
    Ledger,
    Mint,
    RoastData,
    RoastError,
    TokenAccount,
    TokenMetadata,
};

fn address(fill: u8) -> Address {
    Address::new([fill; 32])
}

fn roast(content: Vec<u8>) -> RoastData {
    RoastData {
        mint: address(1),
        owner: address(2),
        content,
        score: 80,
        is_executive_order: false,
        timestamp: 1_700_000_000,
    }
}

fn metadata_for(authority: Address) -> CertificateMetadata {
    CertificateMetadata {
        name: b"Presidential Roast #80".to_vec(),
        symbol: b"PROAST".to_vec(),
        uri: b"https://example.org/80.json".to_vec(),
        description: b"a roast".to_vec(),
        seller_fee_basis_points: 500,
        creators: vec![Creator { address: authority, verified: true, share: 100 }],
        is_mutable: true,
        update_authority: authority,
    }
}

fn token_metadata(name: &[u8], symbol: &[u8], uri: &[u8]) -> TokenMetadata {
    TokenMetadata {
        name: name.to_vec(),
        symbol: symbol.to_vec(),
        uri: uri.to_vec(),
        mint: address(1),
        authority: address(3),
        verified: true,
    }
}

#[test]
fn new_ledger_is_empty() {
    let ledger = Ledger::new(42);
    assert_eq!(ledger.unix_timestamp(), 42);
    assert_eq!(ledger.mint(&address(1)), None);
    assert_eq!(ledger.token_account(&address(1)), None);
    assert!(ledger.certificate(&address(1)).is_none());
    assert!(ledger.roast_data(&address(1)).is_none());
    assert!(ledger.token_metadata(&address(1)).is_none());
    assert_eq!(ledger.balance(&address(1)), 0);
}

#[test]
fn clock_can_be_moved() {
    let mut ledger = Ledger::new(1);
    ledger.set_unix_timestamp(-5);
    assert_eq!(ledger.unix_timestamp(), -5);
}

#[test]
fn layout_constants() {
    assert_eq!(ROAST_DATA_SPACE, 586);
    assert_eq!(TOKEN_METADATA_SPACE, 332);
    assert_eq!(ROAST_CONTENT_LIMIT, 500);
}

#[test]
fn initialize_mint_sets_both_authorities() {
    let mut ledger = Ledger::new(0);
    assert_eq!(ledger.initialize_mint(&address(1), 9, &address(3), Some(address(3))), Ok(()));
    assert_eq!(
        ledger.mint(&address(1)),
        Some(Mint {
            decimals: 9,
            supply: 0,
            mint_authority: Some(address(3)),
            freeze_authority: Some(address(3)),
        })
    );
    assert!(ledger.has_authority(&address(1), AuthorityKind::MintTokens, &address(3)));
    assert!(ledger.has_authority(&address(1), AuthorityKind::FreezeAccount, &address(3)));
    assert!(!ledger.has_authority(&address(1), AuthorityKind::MintTokens, &address(4)));
    assert!(!ledger.has_authority(&address(2), AuthorityKind::MintTokens, &address(3)));
}

#[test]
fn initialize_mint_twice_fails() {
    let mut ledger = Ledger::new(0);
    ledger.initialize_mint(&address(1), 9, &address(3), None).unwrap();
    assert_eq!(
        ledger.initialize_mint(&address(1), 0, &address(4), Some(address(4))),
        Err(RoastError::SupplyInitFailed)
    );
    assert_eq!(
        ledger.mint(&address(1)),
        Some(Mint { decimals: 9, supply: 0, mint_authority: Some(address(3)), freeze_authority: None })
    );
}

#[test]
fn create_token_account_needs_a_supply_and_a_free_slot() {
    let mut ledger = Ledger::new(0);
    assert_eq!(
        ledger.create_token_account(&address(10), &address(2), &address(1)),
        Err(RoastError::OwnershipAccountFailed)
    );
    ledger.initialize_mint(&address(1), 0, &address(3), None).unwrap();
    assert_eq!(ledger.create_token_account(&address(10), &address(2), &address(1)), Ok(()));
    assert_eq!(
        ledger.token_account(&address(10)),
        Some(TokenAccount { mint: address(1), owner: address(2), amount: 0 })
    );
    assert_eq!(
        ledger.create_token_account(&address(10), &address(2), &address(1)),
        Err(RoastError::OwnershipAccountFailed)
    );
}

#[test]
fn create_token_account_if_absent_is_idempotent() {
    let mut ledger = Ledger::new(0);
    ledger.initialize_mint(&address(1), 0, &address(3), None).unwrap();
    assert_eq!(
        ledger.create_token_account_if_absent(&address(10), &address(2), &address(1)),
        Ok(())
    );
    ledger.mint_to(&address(1), &address(10), &address(3), 7).unwrap();
    assert_eq!(
        ledger.create_token_account_if_absent(&address(10), &address(2), &address(1)),
        Ok(())
    );
    assert_eq!(ledger.balance(&address(10)), 7);
    assert_eq!(
        ledger.create_token_account_if_absent(&address(10), &address(4), &address(1)),
        Err(RoastError::OwnershipAccountFailed)
    );
    assert_eq!(ledger.balance(&address(10)), 7);
}

#[test]
fn mint_to_adds_to_supply_and_balance() {
    let mut ledger = Ledger::new(0);
    ledger.initialize_mint(&address(1), 9, &address(3), None).unwrap();
    ledger.create_token_account(&address(10), &address(2), &address(1)).unwrap();
    assert_eq!(ledger.mint_to(&address(1), &address(10), &address(3), 5), Ok(()));
    assert_eq!(ledger.mint_to(&address(1), &address(10), &address(3), 6), Ok(()));
    assert_eq!(ledger.balance(&address(10)), 11);
    assert_eq!(ledger.mint(&address(1)).unwrap().supply, 11);
}

#[test]
fn mint_to_fails_for_the_wrong_authority_account_or_supply() {
    let mut ledger = Ledger::new(0);
    ledger.initialize_mint(&address(1), 9, &address(3), None).unwrap();
    ledger.initialize_mint(&address(5), 9, &address(3), None).unwrap();
    ledger.create_token_account(&address(10), &address(2), &address(1)).unwrap();
    assert_eq!(
        ledger.mint_to(&address(1), &address(10), &address(4), 5),
        Err(RoastError::MintFailed)
    );
    assert_eq!(
        ledger.mint_to(&address(1), &address(11), &address(3), 5),
        Err(RoastError::MintFailed)
    );
    assert_eq!(
        ledger.mint_to(&address(5), &address(10), &address(3), 5),
        Err(RoastError::MintFailed)
    );
    assert_eq!(
        ledger.mint_to(&address(6), &address(10), &address(3), 5),
        Err(RoastError::MintFailed)
    );
    assert_eq!(ledger.balance(&address(10)), 0);
    assert_eq!(ledger.mint(&address(1)).unwrap().supply, 0);
}

#[test]
fn mint_to_fails_where_a_count_would_overflow() {
    let mut ledger = Ledger::new(0);
    ledger.initialize_mint(&address(1), 9, &address(3), None).unwrap();
    ledger.create_token_account(&address(10), &address(2), &address(1)).unwrap();
    ledger.create_token_account(&address(11), &address(4), &address(1)).unwrap();
    ledger.mint_to(&address(1), &address(10), &address(3), u64::MAX - 1).unwrap();
    assert_eq!(
        ledger.mint_to(&address(1), &address(11), &address(3), 2),
        Err(RoastError::MintFailed)
    );
    assert_eq!(ledger.mint_to(&address(1), &address(11), &address(3), 1), Ok(()));
    assert_eq!(ledger.mint(&address(1)).unwrap().supply, u64::MAX);
    assert_eq!(ledger.balance(&address(10)), u64::MAX - 1);
    assert_eq!(ledger.balance(&address(11)), 1);
    assert_eq!(
        ledger.mint_to(&address(1), &address(11), &address(3), 1),
        Err(RoastError::MintFailed)
    );
}

#[test]
fn revoked_mint_authority_never_mints_again() {
    let mut ledger = Ledger::new(0);
    ledger.initialize_mint(&address(1), 0, &address(3), Some(address(3))).unwrap();
    ledger.create_token_account(&address(10), &address(2), &address(1)).unwrap();
    assert_eq!(
        ledger.revoke_authority(&address(1), AuthorityKind::MintTokens, &address(4)),
        Err(RoastError::AuthorityRevokeFailed)
    );
    assert_eq!(ledger.revoke_authority(&address(1), AuthorityKind::MintTokens, &address(3)), Ok(()));
    assert_eq!(ledger.mint(&address(1)).unwrap().mint_authority, None);
    assert_eq!(ledger.mint(&address(1)).unwrap().freeze_authority, Some(address(3)));
    let failed = ledger.mint_to(&address(1), &address(10), &address(3), 1);
    assert_eq!(failed, Err(RoastError::MintFailed));
    assert_eq!(failed.unwrap_err().kind(), ErrorKind::PrimitiveFailure);
    assert_eq!(
        ledger.revoke_authority(&address(1), AuthorityKind::MintTokens, &address(3)),
        Err(RoastError::AuthorityRevokeFailed)
    );
    assert_eq!(
        ledger.revoke_authority(&address(9), AuthorityKind::MintTokens, &address(3)),
        Err(RoastError::AuthorityRevokeFailed)
    );
}

#[test]
fn revoking_the_freeze_authority_leaves_the_mint_authority() {
    let mut ledger = Ledger::new(0);
    ledger.initialize_mint(&address(1), 0, &address(3), Some(address(4))).unwrap();
    assert_eq!(
        ledger.revoke_authority(&address(1), AuthorityKind::FreezeAccount, &address(3)),
        Err(RoastError::AuthorityRevokeFailed)
    );
    assert_eq!(
        ledger.revoke_authority(&address(1), AuthorityKind::FreezeAccount, &address(4)),
        Ok(())
    );
    let mint = ledger.mint(&address(1)).unwrap();
    assert_eq!(mint.freeze_authority, None);
    assert_eq!(mint.mint_authority, Some(address(3)));
}

#[test]
fn certificate_metadata_is_written_once_per_supply() {
    let mut ledger = Ledger::new(0);
    assert_eq!(
        ledger.write_certificate_metadata(&address(1), metadata_for(address(3))),
        Err(RoastError::MetadataWriteFailed)
    );
    ledger.initialize_mint(&address(1), 0, &address(3), None).unwrap();
    assert_eq!(ledger.write_certificate_metadata(&address(1), metadata_for(address(3))), Ok(()));
    assert_eq!(ledger.certificate(&address(1)), Some(&metadata_for(address(3))));
    assert_eq!(
        ledger.write_certificate_metadata(&address(1), metadata_for(address(4))),
        Err(RoastError::MetadataWriteFailed)
    );
    assert_eq!(ledger.certificate(&address(1)), Some(&metadata_for(address(3))));
}

#[test]
fn roast_data_needs_room_and_a_free_slot() {
    let mut ledger = Ledger::new(0);
    assert_eq!(
        ledger.store_roast_data(&address(20), roast(vec![b'r'; 501])),
        Err(RoastError::ProvenanceWriteFailed)
    );
    assert!(ledger.roast_data(&address(20)).is_none());
    assert_eq!(ledger.store_roast_data(&address(20), roast(vec![b'r'; 500])), Ok(()));
    assert_eq!(ledger.roast_data(&address(20)), Some(&roast(vec![b'r'; 500])));
    assert_eq!(
        ledger.store_roast_data(&address(20), roast(vec![b's'; 3])),
        Err(RoastError::ProvenanceWriteFailed)
    );
    assert_eq!(ledger.roast_data(&address(20)), Some(&roast(vec![b'r'; 500])));
}

#[test]
fn roast_data_fits_up_to_five_hundred_bytes() {
    assert!(roast(Vec::new()).fits());
    assert!(roast(vec![0; 500]).fits());
    assert!(!roast(vec![0; 501]).fits());
}

#[test]
fn token_metadata_fits_while_its_encoding_has_room() {
    // 85 bytes are fixed; 247 are left for the three texts together.
    assert!(token_metadata(b"ROAST", b"RST", b"https://example.org").fits());
    assert!(token_metadata(&[b'n'; 10], &[b's'; 5], &[b'u'; 200]).fits());
    assert!(token_metadata(&[b'n'; 47], &[], &[b'u'; 200]).fits());
    assert!(!token_metadata(&[b'n'; 48], &[], &[b'u'; 200]).fits());
    assert!(token_metadata(&[], &[], &[b'u'; 247]).fits());
    assert!(!token_metadata(&[], &[], &[b'u'; 248]).fits());
    assert!(!token_metadata(&[b'n'; 248], &[], &[]).fits());
    assert!(!token_metadata(&[b'n'; 100], &[b's'; 100], &[b'u'; 100]).fits());
}

#[test]
fn token_metadata_needs_room_and_a_free_slot() {
    let mut ledger = Ledger::new(0);
    assert_eq!(
        ledger.store_token_metadata(&address(30), token_metadata(&[b'n'; 300], b"", b"")),
        Err(RoastError::MetadataWriteFailed)
    );
    assert_eq!(
        ledger.store_token_metadata(&address(30), token_metadata(b"ROAST", b"RST", b"uri")),
        Ok(())
    );
    assert_eq!(
        ledger.token_metadata(&address(30)),
        Some(&token_metadata(b"ROAST", b"RST", b"uri"))
    );
    assert_eq!(
        ledger.store_token_metadata(&address(30), token_metadata(b"OTHER", b"OTH", b"uri")),
        Err(RoastError::MetadataWriteFailed)
    );
}

#[test]
fn duplicate_is_independent_of_its_source() {
    let mut ledger = Ledger::new(5);
    ledger.initialize_mint(&address(1), 0, &address(3), None).unwrap();
    ledger.store_roast_data(&address(20), roast(b"first".to_vec())).unwrap();
    let copy = ledger.duplicate();
    ledger.initialize_mint(&address(2), 0, &address(3), None).unwrap();
    assert_eq!(copy.unix_timestamp(), 5);
    assert!(copy.mint(&address(1)).is_some());
    assert!(copy.mint(&address(2)).is_none());
    assert_eq!(copy.roast_data(&address(20)), Some(&roast(b"first".to_vec())));
}

#[test]
fn records_are_copied_whole() {
    let record = roast(b"a roast".to_vec());
    assert_eq!(record.duplicate(), record);
    assert_eq!(record.clone(), record);
    let metadata = metadata_for(address(3));
    assert_eq!(metadata.duplicate(), metadata);
    assert_eq!(metadata.clone(), metadata);
    let token = token_metadata(b"ROAST", b"RST", b"uri");
    assert_eq!(token.duplicate(), token);
    assert_eq!(token.clone(), token);
}

#[test]
fn execute_carries_out_the_step_it_names() {
    let mut ledger = Ledger::new(0);
    let steps = vec![
        Instruction::InitializeMint {
            mint: address(1),
            decimals: 2,
            mint_authority: address(3),
            freeze_authority: None,
        },
        Instruction::CreateTokenAccount { account: address(10), owner: address(2), mint: address(1) },
        Instruction::CreateTokenAccountIfAbsent {
            account: address(10),
            owner: address(2),
            mint: address(1),
        },
        Instruction::MintTo {
            mint: address(1),
            destination: address(10),
            authority: address(3),
            amount: 4,
        },
        Instruction::WriteCertificateMetadata {
            mint: address(1),
            account: address(40),
            metadata: metadata_for(address(3)),
        },
        Instruction::StoreRoastData { at: address(20), record: roast(b"a roast".to_vec()) },
        Instruction::StoreTokenMetadata {
            at: address(30),
            record: token_metadata(b"ROAST", b"RST", b"uri"),
        },
        Instruction::RevokeAuthority {
            mint: address(1),
            kind: AuthorityKind::MintTokens,
            current: address(3),
        },
    ];
    for step in &steps {
        assert_eq!(ledger.execute(step), Ok(()));
    }
    assert_eq!(
        ledger.mint(&address(1)),
        Some(Mint { decimals: 2, supply: 4, mint_authority: None, freeze_authority: None })
    );
    assert_eq!(ledger.balance(&address(10)), 4);
    assert_eq!(ledger.certificate(&address(1)), Some(&metadata_for(address(3))));
    assert_eq!(ledger.roast_data(&address(20)), Some(&roast(b"a roast".to_vec())));
    assert!(ledger.token_metadata(&address(30)).is_some());
    // Run again, each step but the idempotent one fails with its own failure.
    for step in &steps {
        match step {
            Instruction::CreateTokenAccountIfAbsent { .. } => {
                assert_eq!(ledger.execute(step), Ok(()))
            }
            _ => assert_eq!(ledger.execute(step), Err(step.failure())),
        }
    }
}

#[test]
fn failures_of_the_steps() {
    let mint_to = Instruction::MintTo {
        mint: address(1),
        destination: address(10),
        authority: address(3),
        amount: 4,
    };
    assert_eq!(mint_to.failure(), RoastError::MintFailed);
    let store = Instruction::StoreRoastData { at: address(20), record: roast(Vec::new()) };
    assert_eq!(store.failure(), RoastError::ProvenanceWriteFailed);
    let create =
        Instruction::CreateTokenAccount { account: address(10), owner: address(2), mint: address(1) };
    assert_eq!(create.failure(), RoastError::OwnershipAccountFailed);
}

#[test]
fn transact_is_all_or_nothing() {
    let mut ledger = Ledger::new(0);
    let plan = vec![
        Instruction::InitializeMint {
            mint: address(1),
            decimals: 0,
            mint_authority: address(3),
            freeze_authority: None,
        },
        Instruction::CreateTokenAccount { account: address(10), owner: address(2), mint: address(1) },
        Instruction::MintTo {
            mint: address(1),
            destination: address(10),
            authority: address(4),
            amount: 1,
        },
    ];
    assert_eq!(ledger.transact(&plan), Err(RoastError::MintFailed));
    assert_eq!(ledger.mint(&address(1)), None);
    assert_eq!(ledger.token_account(&address(10)), None);

    let plan = vec![
        Instruction::InitializeMint {
            mint: address(1),
            decimals: 0,
            mint_authority: address(3),
            freeze_authority: None,
        },
        Instruction::CreateTokenAccount { account: address(10), owner: address(2), mint: address(1) },
        Instruction::MintTo {
            mint: address(1),
            destination: address(10),
            authority: address(3),
            amount: 1,
        },
    ];
    assert_eq!(ledger.transact(&plan), Ok(()));
    assert_eq!(ledger.balance(&address(10)), 1);
    assert_eq!(ledger.transact(&Vec::new()), Ok(()));
    assert_eq!(ledger.balance(&address(10)), 1);
}

#[test]
fn kinds_of_failures() {
    assert_eq!(RoastError::AuthorityMismatch.kind(), ErrorKind::PreconditionViolation);
    assert_eq!(RoastError::AccountMismatch.kind(), ErrorKind::PreconditionViolation);
    assert_eq!(RoastError::AlreadyInitialized.kind(), ErrorKind::AlreadyInitialized);
    for failure in [
        RoastError::SupplyInitFailed,
        RoastError::OwnershipAccountFailed,
        RoastError::MintFailed,
        RoastError::MetadataWriteFailed,
        RoastError::ProvenanceWriteFailed,
        RoastError::AuthorityRevokeFailed,
    ] {
        assert_eq!(failure.kind(), ErrorKind::PrimitiveFailure);
    }
}
