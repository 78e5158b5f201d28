use anchor_lang::prelude::Pubkey;
use events_manager::collections::Event;
use events_manager::deriver::verify;
use events_manager::deriver::Address;
use events_manager::id;
use std::str::FromStr;

fn key(seed: u8) -> Address {
    Address { bytes: [seed; 32] }
}

#[test]
fn id_is_the_declared_identity() {
    let declared = Pubkey::from_str("FaVJjaBbAR5nQvXmkLkVRKxf5B1TXFRDSh6Be7vwN95s").unwrap();
    assert_eq!(id().bytes, declared.to_bytes());
}

#[test]
fn same_compares_every_byte() {
    let a = key(7);
    let mut b = key(7);
    assert!(a.same(&b));
    b.bytes[31] = 8;
    assert!(!a.same(&b));
    b.bytes[31] = 7;
    b.bytes[0] = 0;
    assert!(!a.same(&b));
}

#[test]
fn derive_agrees_with_the_host_derivation() {
    let organizer = key(1);
    let program = Pubkey::new_from_array(id().bytes);
    let (expected, nonce) =
        Pubkey::find_program_address(&[b"event", &organizer.bytes], &program);
    let (address, found) = events_manager::deriver::derive(Event::SEED_EVENT, &organizer).unwrap();
    assert_eq!(address.bytes, expected.to_bytes());
    assert_eq!(found, nonce);
    assert_ne!(address.bytes, organizer.bytes);
}

#[test]
fn derive_is_deterministic_and_separates_labels() {
    let parent = key(9);
    let first = events_manager::deriver::derive(Event::SEED_TREASURY_VAULT, &parent).unwrap();
    let again = events_manager::deriver::derive(Event::SEED_TREASURY_VAULT, &parent).unwrap();
    let other = events_manager::deriver::derive(Event::SEED_GAIN_VAULT, &parent).unwrap();
    assert_eq!(first, again);
    assert_ne!(first.0, other.0);
}

#[test]
fn derive_fails_on_a_label_that_is_too_long() {
    let parent = key(9);
    let label = "a-label-of-more-than-thirty-two-bytes";
    assert!(label.len() > 32);
    assert_eq!(events_manager::deriver::derive(label, &parent), None);
}

#[test]
fn verify_accepts_the_derived_address_only() {
    let parent = key(3);
    let (address, nonce) =
        events_manager::deriver::derive(Event::SEED_EVENT_MINT, &parent).unwrap();
    assert!(verify(Event::SEED_EVENT_MINT, &parent, nonce, &address));
    assert!(!verify(Event::SEED_EVENT_MINT, &parent, nonce, &parent));
    assert!(!verify(Event::SEED_GAIN_VAULT, &parent, nonce, &address));
    assert!(!verify(Event::SEED_EVENT_MINT, &key(4), nonce, &address));
    assert!(!verify(Event::SEED_EVENT_MINT, &parent, nonce.wrapping_sub(1), &address));
}

#[test]
fn seeds_are_the_four_labels() {
    assert_eq!(Event::SEED_EVENT, "event");
    assert_eq!(Event::SEED_EVENT_MINT, "event_mint");
    assert_eq!(Event::SEED_TREASURY_VAULT, "treasury_vault");
    assert_eq!(Event::SEED_GAIN_VAULT, "gain_vault");
    assert_eq!(Event::MAX_NAME_LEN, 40);
}
