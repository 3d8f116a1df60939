use anchor_lang::solana_program::hash::hash;
use anchor_lang::AnchorSerialize;
use roast_core::records::{ROAST_DATA_SPACE, TOKEN_METADATA_SPACE};
use roast_core::{Address, RoastData, TokenMetadata};

fn address(fill: u8) -> Address {
    Address::new([fill; 32])
}

fn roast(content: &[u8], timestamp: i64) -> RoastData {
    RoastData {
        mint: address(1),
        owner: address(2),
        content: content.to_vec(),
        score: 95,
        is_executive_order: true,
        timestamp,
    }
}

#[test]
fn roast_data_is_stored_field_by_field() {
    let stored = roast(b"hey", 0x0102_0304_0506_0708).encode().unwrap();
    let mut expected: Vec<u8> = vec![253, 82, 59, 8, 6, 72, 75, 6];
    expected.extend_from_slice(&[1; 32]);
    expected.extend_from_slice(&[2; 32]);
    expected.extend_from_slice(&[3, 0, 0, 0]);
    expected.extend_from_slice(b"hey");
    expected.push(95);
    expected.push(1);
    expected.extend_from_slice(&[8, 7, 6, 5, 4, 3, 2, 1]);
    assert_eq!(stored, expected);
    assert_eq!(stored.len(), 8 + 32 + 32 + 4 + 3 + 1 + 1 + 8);
}

#[test]
fn roast_data_header_is_the_digest_of_its_name() {
    let stored = roast(b"", 0).encode().unwrap();
    assert_eq!(&stored[..8], &hash(b"account:RoastData").to_bytes()[..8]);
}

#[test]
fn roast_data_agrees_with_borsh() {
    for timestamp in [0i64, 1, -1, 1_700_000_000, i64::MAX, i64::MIN, -1_700_000_000] {
        let content: Vec<u8> = (0..300u32).map(|i| (i % 251) as u8).collect();
        let record = RoastData {
            mint: address(7),
            owner: address(8),
            content: content.clone(),
            score: 42,
            is_executive_order: false,
            timestamp,
        };
        let body = ([7u8; 32], [8u8; 32], content, 42u8, false, timestamp).try_to_vec().unwrap();
        let stored = record.encode().unwrap();
        assert_eq!(&stored[8..], &body[..]);
    }
}

#[test]
fn roast_data_of_five_hundred_bytes_fills_its_slot() {
    let stored = roast(&[b'r'; 500], 5).encode().unwrap();
    assert_eq!(stored.len(), ROAST_DATA_SPACE);
    assert_eq!(&stored[72..76], &[0xf4, 0x01, 0, 0]);
    assert_eq!(roast(&[b'r'; 501], 5).encode(), None);
}

#[test]
fn negative_time_is_stored_in_twos_complement() {
    let stored = roast(b"", -2).encode().unwrap();
    assert_eq!(&stored[stored.len() - 8..], &[0xfe, 0xff, 0xff, 0xff, 0xff, 0xff, 0xff, 0xff]);
    let stored = roast(b"", i64::MIN).encode().unwrap();
    assert_eq!(&stored[stored.len() - 8..], &[0, 0, 0, 0, 0, 0, 0, 0x80]);
}

#[test]
fn token_metadata_is_stored_field_by_field() {
    let record = TokenMetadata {
        name: b"ROAST".to_vec(),
        symbol: b"RST".to_vec(),
        uri: b"u".to_vec(),
        mint: address(1),
        authority: address(3),
        verified: true,
    };
    let mut expected: Vec<u8> = vec![237, 215, 132, 182, 24, 127, 175, 173];
    expected.extend_from_slice(&[5, 0, 0, 0]);
    expected.extend_from_slice(b"ROAST");
    expected.extend_from_slice(&[3, 0, 0, 0]);
    expected.extend_from_slice(b"RST");
    expected.extend_from_slice(&[1, 0, 0, 0]);
    expected.extend_from_slice(b"u");
    expected.extend_from_slice(&[1; 32]);
    expected.extend_from_slice(&[3; 32]);
    expected.push(1);
    assert_eq!(record.encode(), Some(expected));
}

#[test]
fn token_metadata_agrees_with_borsh_and_its_header_with_the_digest() {
    let record = TokenMetadata {
        name: b"Presidential".to_vec(),
        symbol: b"PRES".to_vec(),
        uri: vec![b'u'; 200],
        mint: address(9),
        authority: address(10),
        verified: false,
    };
    let stored = record.encode().unwrap();
    let body = (
        b"Presidential".to_vec(),
        b"PRES".to_vec(),
        vec![b'u'; 200],
        [9u8; 32],
        [10u8; 32],
        false,
    )
        .try_to_vec()
        .unwrap();
    assert_eq!(&stored[..8], &hash(b"account:TokenMetadata").to_bytes()[..8]);
    assert_eq!(&stored[8..], &body[..]);
}

#[test]
fn token_metadata_that_fills_its_slot() {
    let record = TokenMetadata {
        name: vec![b'n'; 47],
        symbol: Vec::new(),
        uri: vec![b'u'; 200],
        mint: address(9),
        authority: address(10),
        verified: true,
    };
    assert_eq!(record.encode().unwrap().len(), TOKEN_METADATA_SPACE);
    let too_long = TokenMetadata { name: vec![b'n'; 48], ..record };
    assert_eq!(too_long.encode(), None);
}
