use anchor_lang::prelude::Pubkey;
use plinko_burner::address::{find_state_address, find_vault_address, vault_address};
use plinko_burner::Address;
use std::str::FromStr;

fn program_id() -> Pubkey {
    Pubkey::from_str("Cz4m7mpWX6nSUZxfKp2vjnHgYdF5rx9fmEwe9fWrabXd").unwrap()
}

fn addr(key: &Pubkey) -> Address {
    Address::new(key.to_bytes())
}

#[test]
fn address_equality_is_by_bytes() {
    let a = Address::new([7u8; 32]);
    let b = Address::new([7u8; 32]);
    let mut other = [7u8; 32];
    other[31] = 8;
    let c = Address::new(other);
    assert_eq!(a, b);
    assert_ne!(a, c);
    assert_eq!(a.to_vec(), vec![7u8; 32]);
    assert_eq!(c.to_vec()[31], 8);
}

#[test]
fn found_vault_address_is_the_canonical_one() {
    let pid = program_id();
    let user = Pubkey::new_from_array([3u8; 32]);
    let (expected, expected_bump) =
        Pubkey::find_program_address(&[b"vault", user.as_ref()], &pid);
    let found = find_vault_address(&addr(&pid), &addr(&user));
    assert_eq!(found, Some((addr(&expected), expected_bump)));
    let (address, _) = found.unwrap();
    assert_ne!(address, addr(&user));
    assert_ne!(address, addr(&pid));
}

#[test]
fn vault_address_recomputes_from_the_stored_bump() {
    let pid = program_id();
    let user = Pubkey::new_from_array([9u8; 32]);
    let (address, bump) = find_vault_address(&addr(&pid), &addr(&user)).unwrap();
    assert_eq!(vault_address(&addr(&pid), &addr(&user), bump), Some(address));
    let expected =
        Pubkey::create_program_address(&[b"vault", user.as_ref(), &[bump]], &pid).unwrap();
    assert_eq!(address, addr(&expected));
    assert_ne!(address, addr(&user));
}

#[test]
fn vault_address_under_another_bump_is_another_address_or_none() {
    let pid = program_id();
    let user = Pubkey::new_from_array([9u8; 32]);
    let (address, bump) = find_vault_address(&addr(&pid), &addr(&user)).unwrap();
    let other_bump = bump.wrapping_sub(1);
    let expected = Pubkey::create_program_address(&[b"vault", user.as_ref(), &[other_bump]], &pid)
        .ok()
        .map(|k| addr(&k));
    let derived = vault_address(&addr(&pid), &addr(&user), other_bump);
    assert_eq!(derived, expected);
    assert_ne!(derived, Some(address));
}

#[test]
fn vault_addresses_of_two_users_differ() {
    let pid = program_id();
    let first = Pubkey::new_from_array([1u8; 32]);
    let second = Pubkey::new_from_array([2u8; 32]);
    let a = find_vault_address(&addr(&pid), &addr(&first)).unwrap();
    let b = find_vault_address(&addr(&pid), &addr(&second)).unwrap();
    assert_ne!(a.0, b.0);
}

#[test]
fn found_state_address_is_the_canonical_one() {
    let pid = program_id();
    let (expected, expected_bump) = Pubkey::find_program_address(&[b"state"], &pid);
    let found = find_state_address(&addr(&pid));
    assert_eq!(found, Some((addr(&expected), expected_bump)));
    assert_ne!(found.unwrap().0, addr(&pid));
}

#[test]
fn state_address_depends_on_the_program() {
    let pid = program_id();
    let other = Pubkey::new_from_array([5u8; 32]);
    let a = find_state_address(&addr(&pid)).unwrap();
    let b = find_state_address(&addr(&other)).unwrap();
    assert_ne!(a.0, b.0);
}
