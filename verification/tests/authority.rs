use anchor_lang::prelude::Pubkey;
use grpx_dprotocols::{offer_authority, offer_signer_seed_bytes};
use grpx_dprotocols::AccountId;

const PROGRAM: [u8; 32] = [7u8; 32];

#[test]
fn derivation_matches_the_chain_sdk() {
    let producer: u64 = 42;
    let id: u64 = 9;
    let derived = offer_authority(&PROGRAM, AccountId(producer), id)
        .expect("a valid derivation exists for these seeds");
    let expected = Pubkey::try_find_program_address(
        &[b"offer", &producer.to_le_bytes(), &id.to_le_bytes()],
        &Pubkey::new_from_array(PROGRAM),
    )
    .expect("a valid derivation exists for these seeds");
    assert_eq!(derived.0, expected.0.to_bytes());
    assert_eq!(derived.1, expected.1);
}

#[test]
fn derivation_is_deterministic() {
    let first = offer_authority(&PROGRAM, AccountId(1), 1).unwrap();
    let second = offer_authority(&PROGRAM, AccountId(1), 1).unwrap();
    assert_eq!(first, second);
}

#[test]
fn distinct_offers_derive_distinct_authorities() {
    let a = offer_authority(&PROGRAM, AccountId(1), 1).unwrap();
    let b = offer_authority(&PROGRAM, AccountId(1), 2).unwrap();
    let c = offer_authority(&PROGRAM, AccountId(2), 1).unwrap();
    assert_ne!(a.0, b.0);
    assert_ne!(a.0, c.0);
    assert_ne!(b.0, c.0);
}

#[test]
fn the_authority_differs_from_its_own_seeds() {
    let producer: u64 = 1;
    let (address, _) = offer_authority(&PROGRAM, AccountId(producer), 1).unwrap();
    assert_ne!(address, PROGRAM);
    assert_ne!(&address[..8], producer.to_le_bytes().as_slice());
}

#[test]
fn the_signer_seeds_rebuild_the_derived_authority() {
    let producer: u64 = 42;
    let id: u64 = 9;
    let (address, bump) = offer_authority(&PROGRAM, AccountId(producer), id)
        .expect("a valid derivation exists for these seeds");
    let seeds = offer_signer_seed_bytes(AccountId(producer), id, bump);
    assert_eq!(seeds.len(), 4);
    assert_eq!(seeds[0], b"offer".to_vec());
    assert_eq!(seeds[1], producer.to_le_bytes().to_vec());
    assert_eq!(seeds[2], id.to_le_bytes().to_vec());
    assert_eq!(seeds[3], vec![bump]);
    let seed_slices: Vec<&[u8]> = seeds.iter().map(|s| s.as_slice()).collect();
    let rebuilt = Pubkey::create_program_address(&seed_slices, &Pubkey::new_from_array(PROGRAM))
        .expect("the stored salt makes the derivation valid");
    assert_eq!(rebuilt.to_bytes(), address);
}
