//! Byte-level encodings: the 8-byte method discriminator and the
//! little-endian serialization of the claim payload.

use vstd::prelude::*;

use crate::address::copy_bytes;

verus! {

/// The SHA-256 digest of a byte string. The digest depends on the bytes
/// alone; no contract here states what it is on any given input.
pub uninterp spec fn sha256_of(data: Seq<u8>) -> Seq<u8>;

/// Relies on solana_program::hash::hash: the SHA-256 digest of the input,
/// 32 bytes long, a function of the input bytes alone.
#[verifier::external_body]
fn sha256(data: &Vec<u8>) -> (r: Vec<u8>)
    ensures
        r@ == sha256_of(data@),
        r@.len() == 32,
{
    solana_program::hash::hash(data.as_slice()).to_bytes().to_vec()
}

/// ASCII bytes of the instruction namespace prefix, "global:".
pub open spec fn spec_namespace_prefix() -> Seq<u8> {
    seq![103u8, 108, 111, 98, 97, 108, 58]
}

/// ASCII bytes of the claim method name.
pub open spec fn spec_claim_method_name() -> Seq<u8> {
    seq![99u8, 108, 97, 105, 109]
}

/// The 8-byte discriminator of a program method: the first 8 bytes of the
/// SHA-256 digest of "global:" followed by the method name.
pub open spec fn spec_discriminator(method_name: Seq<u8>) -> Seq<u8> {
    sha256_of(spec_namespace_prefix() + method_name).take(8)
}

/// Compute the 8-byte discriminator for a method name.
pub fn discriminator(method_name: &Vec<u8>) -> (r: Vec<u8>)
    ensures
        r@ == spec_discriminator(method_name@),
        r@.len() == 8,
{
    let mut preimage: Vec<u8> = vec![103u8, 108, 111, 98, 97, 108, 58];
    proof {
        assert(preimage@ =~= spec_namespace_prefix());
    }
    let mut i: usize = 0;
    while i < method_name.len()
        invariant
            i <= method_name.len(),
            preimage@ == spec_namespace_prefix() + method_name@.take(i as int),
        decreases method_name.len() - i,
    {
        preimage.push(method_name[i]);
        proof {
            assert(spec_namespace_prefix() + method_name@.take(i + 1 as int) =~= (
            spec_namespace_prefix() + method_name@.take(i as int)).push(method_name@[i as int]));
        }
        i = i + 1;
    }
    proof {
        assert(method_name@.take(method_name@.len() as int) =~= method_name@);
    }
    let digest = sha256(&preimage);
    let mut r: Vec<u8> = Vec::new();
    let mut j: usize = 0;
    while j < 8
        invariant
            j <= 8,
            digest@.len() == 32,
            digest@ == sha256_of(spec_namespace_prefix() + method_name@),
            r@ == digest@.take(j as int),
        decreases 8 - j,
    {
        r.push(digest[j]);
        proof {
            assert(digest@.take(j + 1 as int) =~= digest@.take(j as int).push(digest@[j as int]));
        }
        j = j + 1;
    }
    r
}

/// The concatenation of a sequence of byte strings, in order.
pub open spec fn spec_concat_bytes(chunks: Seq<Seq<u8>>) -> Seq<u8>
    decreases chunks.len(),
{
    if chunks.len() == 0 {
        seq![]
    } else {
        spec_concat_bytes(chunks.drop_last()) + chunks.last()
    }
}

/// The borsh-style serialization of the claim payload body: the allocation
/// as 8 little-endian bytes, then the proof node count as 4 little-endian
/// bytes, then each 32-byte node in order.
pub open spec fn spec_claim_input_bytes(allocation: u64, proof: Seq<Seq<u8>>) -> Seq<u8> {
    vstd::bytes::spec_u64_to_le_bytes(allocation) + vstd::bytes::spec_u32_to_le_bytes(
        proof.len() as u32,
    ) + spec_concat_bytes(proof)
}

/// Serialize the claim payload body.
pub fn claim_input_bytes(allocation: u64, proof: &Vec<Vec<u8>>) -> (r: Vec<u8>)
    requires
        proof@.len() <= u32::MAX,
    ensures
        r@ == spec_claim_input_bytes(allocation, proof.deep_view()),
{
    let mut r: Vec<u8> = vstd::bytes::u64_to_le_bytes(allocation);
    let mut len_bytes = vstd::bytes::u32_to_le_bytes(proof.len() as u32);
    r.append(&mut len_bytes);
    proof {
        assert(proof.deep_view().len() == proof@.len());
    }
    let ghost prefix: Seq<u8> = r@;
    let mut i: usize = 0;
    while i < proof.len()
        invariant
            i <= proof.len(),
            r@ == prefix + spec_concat_bytes(proof.deep_view().take(i as int)),
        decreases proof.len() - i,
    {
        let mut chunk = copy_bytes(&proof[i]);
        proof {
            assert(proof.deep_view().take(i + 1 as int).drop_last() =~= proof.deep_view().take(
                i as int,
            ));
            assert(proof.deep_view().take(i + 1 as int).last() == proof@[i as int]@);
        }
        r.append(&mut chunk);
        i = i + 1;
    }
    proof {
        assert(proof.deep_view().take(proof@.len() as int) =~= proof.deep_view());
    }
    r
}

} // verus!
