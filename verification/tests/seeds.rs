use anchor_lang::prelude::Pubkey;
use roast_core::seeds::{
    associated_token_address,
    derive_address,
    roast_data_address,
    token_metadata_address,
};
use roast_core::{Address, ProgramIds};

fn address(fill: u8) -> Address {
    Address::new([fill; 32])
}

fn programs(program: Address) -> ProgramIds {
    ProgramIds {
        program,
        token_program: Address::new(anchor_spl::token::ID.to_bytes()),
        associated_token_program: Address::new(anchor_spl::associated_token::ID.to_bytes()),
        token_metadata_program: Address::new(anchor_spl::metadata::ID.to_bytes()),
        system_program: Address::new(anchor_lang::system_program::ID.to_bytes()),
        rent: Address::new(anchor_lang::solana_program::sysvar::rent::ID.to_bytes()),
    }
}

#[test]
fn address_equality_is_by_bytes() {
    let mut bytes = [3u8; 32];
    assert!(Address::new(bytes) == address(3));
    bytes[31] = 4;
    assert!(Address::new(bytes) != address(3));
    bytes[31] = 3;
    bytes[0] = 0;
    assert!(Address::new(bytes) != address(3));
}

#[test]
fn address_to_vec_gives_its_bytes() {
    let mut bytes = [0u8; 32];
    for (i, byte) in bytes.iter_mut().enumerate() {
        *byte = i as u8;
    }
    assert_eq!(Address::new(bytes).to_vec(), bytes.to_vec());
}

#[test]
fn address_is_derived_only_for_the_same_address() {
    assert!(address(1).is_derived(&Some(address(1))));
    assert!(!address(1).is_derived(&Some(address(2))));
    assert!(!address(1).is_derived(&None));
}

#[test]
fn roast_data_address_is_the_program_address_of_its_seeds() {
    let program = address(9);
    let mint = address(1);
    let (expected, _) = Pubkey::find_program_address(
        &[b"roast", &mint.bytes],
        &Pubkey::new_from_array(program.bytes),
    );
    let derived = roast_data_address(&program, &mint).unwrap();
    assert_eq!(derived.bytes, expected.to_bytes());
    assert!(derived != mint);
    assert!(derived != program);
}

#[test]
fn token_metadata_address_is_the_program_address_of_its_seeds() {
    let program = address(9);
    let mint = address(1);
    let (expected, _) = Pubkey::find_program_address(
        &[b"metadata", &mint.bytes],
        &Pubkey::new_from_array(program.bytes),
    );
    let derived = token_metadata_address(&program, &mint).unwrap();
    assert_eq!(derived.bytes, expected.to_bytes());
    assert!(derived != roast_data_address(&program, &mint).unwrap());
}

#[test]
fn associated_token_address_is_that_of_the_token_programs() {
    let owner = address(5);
    let mint = address(6);
    let expected = anchor_spl::associated_token::get_associated_token_address(
        &Pubkey::new_from_array(owner.bytes),
        &Pubkey::new_from_array(mint.bytes),
    );
    let derived = associated_token_address(&programs(address(9)), &owner, &mint).unwrap();
    assert_eq!(derived.bytes, expected.to_bytes());
}

#[test]
fn derived_addresses_are_stable_and_tell_supplies_apart() {
    let program = address(9);
    let first = roast_data_address(&program, &address(1)).unwrap();
    let again = roast_data_address(&program, &address(1)).unwrap();
    let other = roast_data_address(&program, &address(2)).unwrap();
    assert!(first == again);
    assert!(first != other);
    let elsewhere = roast_data_address(&address(8), &address(1)).unwrap();
    assert!(first != elsewhere);
}

#[test]
fn derive_address_refuses_a_seed_that_is_too_long() {
    let seeds = vec![vec![0u8; 33]];
    assert!(derive_address(&seeds, &address(9)).is_none());
    let seeds = vec![vec![0u8; 32]];
    assert!(derive_address(&seeds, &address(9)).is_some());
}

#[test]
fn derive_address_agrees_with_the_runtime_on_plain_seeds() {
    let program = address(7);
    let seeds = vec![b"vault".to_vec(), vec![1, 2, 3]];
    let (expected, _) = Pubkey::find_program_address(
        &[b"vault", &[1, 2, 3]],
        &Pubkey::new_from_array(program.bytes),
    );
    assert_eq!(derive_address(&seeds, &program).unwrap().bytes, expected.to_bytes());
}
