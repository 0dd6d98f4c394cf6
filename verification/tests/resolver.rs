use amm::address::Address;
use amm::resolver::{
    control_address, resolve_pool, share_mint_address, vault_address, PoolAddresses,
    ASSOCIATED_TOKEN_PROGRAM, TOKEN_PROGRAM,
};
use anchor_lang::prelude::Pubkey;
use anchor_spl::associated_token::get_associated_token_address;
use std::str::FromStr;

fn program() -> Address {
    Address::new([7u8; 32])
}

fn pubkey(address: &Address) -> Pubkey {
    Pubkey::new_from_array(address.to_bytes())
}

fn address(key: &Pubkey) -> Address {
    Address::new(key.to_bytes())
}

#[test]
fn control_address_is_the_program_address_of_the_seed() {
    let seed = 123456789u64;
    let (expected, bump) = Pubkey::find_program_address(
        &[b"config".as_slice(), seed.to_le_bytes().as_ref()],
        &pubkey(&program()),
    );
    assert_eq!(control_address(&program(), seed), Some((address(&expected), bump)));
}

#[test]
fn share_mint_address_is_the_program_address_of_the_control_record() {
    let control = Address::new([9u8; 32]);
    let (expected, bump) =
        Pubkey::find_program_address(&[b"lp".as_slice(), &[9u8; 32]], &pubkey(&program()));
    assert_eq!(share_mint_address(&program(), &control), Some((address(&expected), bump)));
}

#[test]
fn vault_address_is_the_associated_token_account() {
    let owner = Address::new([3u8; 32]);
    let asset = Address::new([5u8; 32]);
    let expected = get_associated_token_address(&pubkey(&owner), &pubkey(&asset));
    let (vault, _) = vault_address(&owner, &asset).unwrap();
    assert_eq!(vault, address(&expected));
}

#[test]
fn token_programs_are_the_known_ones() {
    let token = Pubkey::from_str("TokenkegQfeZyiNwAJbNbGKPFXCWuBvf9Ss623VQ5DA").unwrap();
    let associated = Pubkey::from_str("ATokenGPvbdGVxr1b2hvZbsiqW5xWH25efTNsLJA8knL").unwrap();
    assert_eq!(TOKEN_PROGRAM, token.to_bytes());
    assert_eq!(ASSOCIATED_TOKEN_PROGRAM, associated.to_bytes());
}

#[test]
fn derived_addresses_are_no_signing_keys() {
    let (control, _) = control_address(&program(), 1).unwrap();
    let (share_mint, _) = share_mint_address(&program(), &control).unwrap();
    let (vault, _) = vault_address(&control, &Address::new([5u8; 32])).unwrap();
    assert!(!pubkey(&control).is_on_curve());
    assert!(!pubkey(&share_mint).is_on_curve());
    assert!(!pubkey(&vault).is_on_curve());
}

#[test]
fn derivation_is_repeatable_and_tells_seeds_apart() {
    assert_eq!(control_address(&program(), 1), control_address(&program(), 1));
    assert_ne!(control_address(&program(), 1), control_address(&program(), 2));
    assert_ne!(control_address(&program(), 1), control_address(&Address::new([8u8; 32]), 1));
}

#[test]
fn pool_addresses_hang_on_the_control_record() {
    let mint_x = Address::new([1u8; 32]);
    let mint_y = Address::new([2u8; 32]);
    let (control, _) = control_address(&program(), 77).unwrap();
    let (share_mint, _) = share_mint_address(&program(), &control).unwrap();
    let (vault_x, _) = vault_address(&control, &mint_x).unwrap();
    let (vault_y, _) = vault_address(&control, &mint_y).unwrap();
    assert_eq!(
        resolve_pool(&program(), 77, &mint_x, &mint_y),
        Some(PoolAddresses { control, share_mint, vault_x, vault_y })
    );
    assert_ne!(vault_x, vault_y);
}
