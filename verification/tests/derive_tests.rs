use std::str::FromStr;

use grass_claim::address::Address;
use grass_claim::derive::{
    associated_token_program_id, claim_program_id, close_operator, derive_ata, derive_claim_status,
    derive_merkle_distributor, grass_mint, system_program_id, token_program_id,
};
use solana_sdk::pubkey::Pubkey;

fn addr(fill: u8) -> Address {
    Address::from_bytes(vec![fill; 32])
}

#[test]
fn program_id_constants_match_their_base58_forms() {
    let cases: Vec<(Vec<u8>, &str)> = vec![
        (system_program_id().to_bytes(), "11111111111111111111111111111111"),
        (grass_mint().to_bytes(), "Grass7B4RdKfBCjTKgSqnXkqjwiGvQyFbuSCUJr3XXjs"),
        (claim_program_id().to_bytes(), "Eohp5jrnGQgP74oD7ij9EuCSYnQDLLHgsuAmtSTuxABk"),
        (token_program_id().to_bytes(), "TokenkegQfeZyiNwAJbNbGKPFXCWuBvf9Ss623VQ5DA"),
        (
            associated_token_program_id().to_bytes(),
            "ATokenGPvbdGVxr1b2hvZbsiqW5xWH25efTNsLJA8knL",
        ),
    ];
    for (bytes, text) in cases {
        assert_eq!(bytes, Pubkey::from_str(text).unwrap().to_bytes().to_vec());
    }
}

#[test]
fn close_operator_is_the_fixed_array() {
    assert_eq!(
        close_operator().to_bytes(),
        vec![
            156u8, 194, 179, 36, 147, 69, 5, 154, 187, 52, 104, 42, 42, 191, 111, 230, 84, 196,
            250, 181, 2, 30, 228, 228, 148, 3, 135, 142, 129, 86, 251, 163,
        ]
    );
}

#[test]
fn derive_ata_is_deterministic() {
    let user = addr(1);
    let mint = grass_mint();
    let prog = token_program_id();
    let (a1, b1) = derive_ata(&user, &mint, &prog).unwrap();
    let (a2, b2) = derive_ata(&user, &mint, &prog).unwrap();
    assert_eq!(a1.to_bytes(), a2.to_bytes());
    assert_eq!(b1, b2);
    assert_eq!(a1.to_bytes().len(), 32);
}

#[test]
fn derive_ata_changes_with_any_seed_byte() {
    let user = addr(1);
    let mut other_bytes = vec![1u8; 32];
    other_bytes[31] = 2;
    let other_user = Address::from_bytes(other_bytes);
    let mint = grass_mint();
    let prog = token_program_id();
    let (a1, _) = derive_ata(&user, &mint, &prog).unwrap();
    let (a2, _) = derive_ata(&other_user, &mint, &prog).unwrap();
    assert_ne!(a1.to_bytes(), a2.to_bytes());
    assert_ne!(a1.to_bytes(), user.to_bytes());
}

#[test]
fn derive_ata_matches_the_chain_sdk_derivation() {
    let user = addr(9);
    let mint = grass_mint();
    let prog = token_program_id();
    let (a, bump) = derive_ata(&user, &mint, &prog).unwrap();
    let user_pk = Pubkey::new_from_array([9u8; 32]);
    let mint_pk = Pubkey::from_str("Grass7B4RdKfBCjTKgSqnXkqjwiGvQyFbuSCUJr3XXjs").unwrap();
    let token_pk = Pubkey::from_str("TokenkegQfeZyiNwAJbNbGKPFXCWuBvf9Ss623VQ5DA").unwrap();
    let ata_pk = Pubkey::from_str("ATokenGPvbdGVxr1b2hvZbsiqW5xWH25efTNsLJA8knL").unwrap();
    let (expected, expected_bump) = Pubkey::find_program_address(
        &[&user_pk.to_bytes(), &token_pk.to_bytes(), &mint_pk.to_bytes()],
        &ata_pk,
    );
    assert_eq!(a.to_bytes(), expected.to_bytes().to_vec());
    assert_eq!(bump, expected_bump);
}

#[test]
fn derive_merkle_distributor_matches_the_chain_sdk_derivation() {
    let (a, bump) = derive_merkle_distributor(3).unwrap();
    let mint_pk = Pubkey::from_str("Grass7B4RdKfBCjTKgSqnXkqjwiGvQyFbuSCUJr3XXjs").unwrap();
    let claim_pk = Pubkey::from_str("Eohp5jrnGQgP74oD7ij9EuCSYnQDLLHgsuAmtSTuxABk").unwrap();
    let (expected, expected_bump) = Pubkey::find_program_address(
        &[b"MerkleDistributor", &mint_pk.to_bytes(), &3u32.to_le_bytes()],
        &claim_pk,
    );
    assert_eq!(a.to_bytes(), expected.to_bytes().to_vec());
    assert_eq!(bump, expected_bump);
}

#[test]
fn derive_claim_status_matches_the_chain_sdk_derivation() {
    let user = addr(4);
    let (distributor, _) = derive_merkle_distributor(0).unwrap();
    let (a, bump) = derive_claim_status(&user, &distributor).unwrap();
    let claim_pk = Pubkey::from_str("Eohp5jrnGQgP74oD7ij9EuCSYnQDLLHgsuAmtSTuxABk").unwrap();
    let mut dist_bytes = [0u8; 32];
    dist_bytes.copy_from_slice(&distributor.to_bytes());
    let (expected, expected_bump) = Pubkey::find_program_address(
        &[b"ClaimStatus", &[4u8; 32], &dist_bytes],
        &claim_pk,
    );
    assert_eq!(a.to_bytes(), expected.to_bytes().to_vec());
    assert_eq!(bump, expected_bump);
}

#[test]
fn address_equality_and_copies() {
    let a = addr(7);
    let b = a.dup();
    assert!(a.same_as(&b));
    let c = addr(8);
    assert!(!a.same_as(&c));
    assert_eq!(a.as_bytes(), b.to_bytes().as_slice());
}
