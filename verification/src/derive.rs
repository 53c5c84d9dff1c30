//! Fixed program ids and the three program-derived addresses the claim
//! flow uses: the associated token account, the distributor, and the
//! per-wallet claim-status account.

use vstd::prelude::*;

use crate::address::{derive_program_address, pda_of, Address};

verus! {

/// The system program id: 32 zero bytes.
pub open spec fn spec_system_program_id() -> Seq<u8> {
    seq![
        0u8, 0, 0, 0, 0, 0, 0, 0, 0, 0, 0, 0, 0, 0, 0, 0, 0, 0, 0, 0, 0, 0, 0, 0, 0, 0, 0, 0, 0,
        0, 0, 0,
    ]
}

/// The token mint being claimed.
pub open spec fn spec_grass_mint() -> Seq<u8> {
    seq![
        235u8, 147, 17, 127, 16, 221, 46, 63, 249, 108, 18, 193, 18, 103, 248, 101, 78, 177, 5,
        13, 5, 165, 94, 170, 8, 171, 128, 167, 124, 64, 157, 30,
    ]
}

/// The claim (merkle distributor) program id.
pub open spec fn spec_claim_program_id() -> Seq<u8> {
    seq![
        205u8, 30, 203, 18, 226, 28, 131, 231, 236, 18, 154, 227, 35, 151, 154, 34, 212, 0, 241,
        253, 18, 55, 125, 179, 126, 188, 57, 8, 237, 83, 74, 139,
    ]
}

/// The token program id.
pub open spec fn spec_token_program_id() -> Seq<u8> {
    seq![
        6u8, 221, 246, 225, 215, 101, 161, 147, 217, 203, 225, 70, 206, 235, 121, 172, 28, 180,
        133, 237, 95, 91, 55, 145, 58, 140, 245, 133, 126, 255, 0, 169,
    ]
}

/// The associated-token-account program id.
pub open spec fn spec_associated_token_program_id() -> Seq<u8> {
    seq![
        140u8, 151, 37, 143, 78, 36, 137, 241, 187, 61, 16, 41, 20, 142, 13, 131, 11, 90, 19, 153,
        218, 255, 16, 132, 4, 142, 123, 216, 219, 233, 248, 89,
    ]
}

/// The fixed operator address that receives the rent skim when a token
/// account is closed.
pub open spec fn spec_close_operator() -> Seq<u8> {
    seq![
        156u8, 194, 179, 36, 147, 69, 5, 154, 187, 52, 104, 42, 42, 191, 111, 230, 84, 196, 250,
        181, 2, 30, 228, 228, 148, 3, 135, 142, 129, 86, 251, 163,
    ]
}

pub fn system_program_id() -> (r: Address)
    ensures
        r@ == spec_system_program_id(),
        r.wf(),
{
    let b: Vec<u8> = vec![
        0u8, 0, 0, 0, 0, 0, 0, 0, 0, 0, 0, 0, 0, 0, 0, 0, 0, 0, 0, 0, 0, 0, 0, 0, 0, 0, 0, 0, 0,
        0, 0, 0,
    ];
    proof {
        assert(b@ =~= spec_system_program_id());
    }
    Address::from_bytes(b)
}

pub fn grass_mint() -> (r: Address)
    ensures
        r@ == spec_grass_mint(),
        r.wf(),
{
    let b: Vec<u8> = vec![
        235u8, 147, 17, 127, 16, 221, 46, 63, 249, 108, 18, 193, 18, 103, 248, 101, 78, 177, 5,
        13, 5, 165, 94, 170, 8, 171, 128, 167, 124, 64, 157, 30,
    ];
    proof {
        assert(b@ =~= spec_grass_mint());
    }
    Address::from_bytes(b)
}

pub fn claim_program_id() -> (r: Address)
    ensures
        r@ == spec_claim_program_id(),
        r.wf(),
{
    let b: Vec<u8> = vec![
        205u8, 30, 203, 18, 226, 28, 131, 231, 236, 18, 154, 227, 35, 151, 154, 34, 212, 0, 241,
        253, 18, 55, 125, 179, 126, 188, 57, 8, 237, 83, 74, 139,
    ];
    proof {
        assert(b@ =~= spec_claim_program_id());
    }
    Address::from_bytes(b)
}

pub fn token_program_id() -> (r: Address)
    ensures
        r@ == spec_token_program_id(),
        r.wf(),
{
    let b: Vec<u8> = vec![
        6u8, 221, 246, 225, 215, 101, 161, 147, 217, 203, 225, 70, 206, 235, 121, 172, 28, 180,
        133, 237, 95, 91, 55, 145, 58, 140, 245, 133, 126, 255, 0, 169,
    ];
    proof {
        assert(b@ =~= spec_token_program_id());
    }
    Address::from_bytes(b)
}

pub fn associated_token_program_id() -> (r: Address)
    ensures
        r@ == spec_associated_token_program_id(),
        r.wf(),
{
    let b: Vec<u8> = vec![
        140u8, 151, 37, 143, 78, 36, 137, 241, 187, 61, 16, 41, 20, 142, 13, 131, 11, 90, 19,
        153, 218, 255, 16, 132, 4, 142, 123, 216, 219, 233, 248, 89,
    ];
    proof {
        assert(b@ =~= spec_associated_token_program_id());
    }
    Address::from_bytes(b)
}

pub fn close_operator() -> (r: Address)
    ensures
        r@ == spec_close_operator(),
        r.wf(),
{
    let b: Vec<u8> = vec![
        156u8, 194, 179, 36, 147, 69, 5, 154, 187, 52, 104, 42, 42, 191, 111, 230, 84, 196, 250,
        181, 2, 30, 228, 228, 148, 3, 135, 142, 129, 86, 251, 163,
    ];
    proof {
        assert(b@ =~= spec_close_operator());
    }
    Address::from_bytes(b)
}

/// ASCII bytes of the distributor seed tag.
pub open spec fn spec_distributor_tag() -> Seq<u8> {
    seq![
        77u8, 101, 114, 107, 108, 101, 68, 105, 115, 116, 114, 105, 98, 117, 116, 111, 114,
    ]
}

/// ASCII bytes of the claim-status seed tag.
pub open spec fn spec_claim_status_tag() -> Seq<u8> {
    seq![67u8, 108, 97, 105, 109, 83, 116, 97, 116, 117, 115]
}

/// The seed list for an associated token account: owner, token program,
/// token mint, owned by the associated-token-account program.
pub open spec fn spec_ata_seeds(user: Seq<u8>, token_mint: Seq<u8>, token_program: Seq<u8>) -> Seq<
    Seq<u8>,
> {
    seq![user, token_program, token_mint]
}

/// The seed list for the distributor account: tag, mint, version number as
/// four little-endian bytes, owned by the claim program.
pub open spec fn spec_distributor_seeds(version_number: u32) -> Seq<Seq<u8>> {
    seq![
        spec_distributor_tag(),
        spec_grass_mint(),
        vstd::bytes::spec_u32_to_le_bytes(version_number),
    ]
}

/// The seed list for a wallet's claim-status account: tag, wallet,
/// distributor, owned by the claim program.
pub open spec fn spec_claim_status_seeds(user: Seq<u8>, distributor: Seq<u8>) -> Seq<Seq<u8>> {
    seq![spec_claim_status_tag(), user, distributor]
}

/// Derive a wallet's associated token account for a mint.
pub fn derive_ata(user: &Address, token_mint: &Address, token_program_id: &Address) -> (r: Option<
    (Address, u8),
>)
    ensures
        match r {
            Some((a, bump)) => pda_of(
                spec_ata_seeds(user@, token_mint@, token_program_id@),
                spec_associated_token_program_id(),
            ) == Some((a@, bump)) && a.wf(),
            None => pda_of(
                spec_ata_seeds(user@, token_mint@, token_program_id@),
                spec_associated_token_program_id(),
            ) is None,
        },
{
    let mut seeds: Vec<Vec<u8>> = Vec::new();
    seeds.push(user.to_bytes());
    seeds.push(token_program_id.to_bytes());
    seeds.push(token_mint.to_bytes());
    proof {
        assert(seeds.deep_view() =~~= spec_ata_seeds(user@, token_mint@, token_program_id@));
    }
    let owner = associated_token_program_id();
    derive_program_address(&seeds, &owner)
}

/// Derive the distributor account for a distribution version.
pub fn derive_merkle_distributor(version_number: u32) -> (r: Option<(Address, u8)>)
    ensures
        match r {
            Some((a, bump)) => pda_of(
                spec_distributor_seeds(version_number),
                spec_claim_program_id(),
            ) == Some((a@, bump)) && a.wf(),
            None => pda_of(spec_distributor_seeds(version_number), spec_claim_program_id())
                is None,
        },
{
    let tag: Vec<u8> = vec![
        77u8, 101, 114, 107, 108, 101, 68, 105, 115, 116, 114, 105, 98, 117, 116, 111, 114,
    ];
    proof {
        assert(tag@ =~= spec_distributor_tag());
    }
    let mut seeds: Vec<Vec<u8>> = Vec::new();
    seeds.push(tag);
    seeds.push(grass_mint().to_bytes());
    seeds.push(vstd::bytes::u32_to_le_bytes(version_number));
    proof {
        assert(seeds.deep_view() =~~= spec_distributor_seeds(version_number));
    }
    let owner = claim_program_id();
    derive_program_address(&seeds, &owner)
}

/// Derive a wallet's claim-status account under a distributor.
pub fn derive_claim_status(user: &Address, merkle_distributor: &Address) -> (r: Option<(
    Address,
    u8,
)>)
    ensures
        match r {
            Some((a, bump)) => pda_of(
                spec_claim_status_seeds(user@, merkle_distributor@),
                spec_claim_program_id(),
            ) == Some((a@, bump)) && a.wf(),
            None => pda_of(
                spec_claim_status_seeds(user@, merkle_distributor@),
                spec_claim_program_id(),
            ) is None,
        },
{
    let tag: Vec<u8> = vec![67u8, 108, 97, 105, 109, 83, 116, 97, 116, 117, 115];
    proof {
        assert(tag@ =~= spec_claim_status_tag());
    }
    let mut seeds: Vec<Vec<u8>> = Vec::new();
    seeds.push(tag);
    seeds.push(user.to_bytes());
    seeds.push(merkle_distributor.to_bytes());
    proof {
        assert(seeds.deep_view() =~~= spec_claim_status_seeds(user@, merkle_distributor@));
    }
    let owner = claim_program_id();
    derive_program_address(&seeds, &owner)
}

} // verus!
