//! Addresses on the chain, held as their raw 32 bytes.
//!
//! The rest of the crate works on these plain byte values; deriving a
//! program address from seeds is the one operation delegated to the
//! chain SDK, behind a trusted wrapper.

use vstd::prelude::*;

verus! {

/// A 32-byte account address.
#[derive(Debug)]
pub struct Address {
    bytes: Vec<u8>,
}

impl View for Address {
    type V = Seq<u8>;

    closed spec fn view(&self) -> Seq<u8> {
        self.bytes@
    }
}

impl Address {
    /// A well-formed address holds exactly 32 bytes.
    pub open spec fn wf(&self) -> bool {
        self@.len() == 32
    }

    pub fn from_bytes(bytes: Vec<u8>) -> (r: Address)
        requires
            bytes@.len() == 32,
        ensures
            r@ == bytes@,
            r.wf(),
    {
        Address { bytes }
    }

    pub fn as_bytes(&self) -> (r: &[u8])
        ensures
            r@ == self@,
    {
        self.bytes.as_slice()
    }

    pub fn to_bytes(&self) -> (r: Vec<u8>)
        ensures
            r@ == self@,
    {
        copy_bytes(&self.bytes)
    }

    pub fn dup(&self) -> (r: Address)
        ensures
            r@ == self@,
    {
        Address { bytes: copy_bytes(&self.bytes) }
    }

    pub fn same_as(&self, other: &Address) -> (r: bool)
        ensures
            r == (self@ == other@),
    {
        bytes_eq(&self.bytes, &other.bytes)
    }
}

/// Copy a byte vector, element by element.
pub(crate) fn copy_bytes(v: &Vec<u8>) -> (r: Vec<u8>)
    ensures
        r@ == v@,
{
    let mut r: Vec<u8> = Vec::new();
    let mut i: usize = 0;
    while i < v.len()
        invariant
            i <= v.len(),
            r@ == v@.take(i as int),
        decreases v.len() - i,
    {
        r.push(v[i]);
        proof {
            assert(v@.take(i + 1 as int) =~= v@.take(i as int).push(v@[i as int]));
        }
        i = i + 1;
    }
    proof {
        assert(v@.take(v@.len() as int) =~= v@);
    }
    r
}

/// Compare two byte vectors for equality of contents.
pub(crate) fn bytes_eq(a: &Vec<u8>, b: &Vec<u8>) -> (r: bool)
    ensures
        r == (a@ == b@),
{
    if a.len() != b.len() {
        return false;
    }
    let mut i: usize = 0;
    while i < a.len()
        invariant
            a@.len() == b@.len(),
            i <= a.len(),
            forall|j: int| 0 <= j < i ==> a@[j] == b@[j],
        decreases a.len() - i,
    {
        if a[i] != b[i] {
            return false;
        }
        i = i + 1;
    }
    proof {
        assert(a@ =~= b@);
    }
    true
}

/// What the chain SDK derives from a seed list and an owning program id:
/// the derived address (as its 32 bytes) and the bump byte, or nothing when
/// no bump yields a valid off-curve address. The result is a function of the
/// seeds and the program id alone.
pub uninterp spec fn pda_of(seeds: Seq<Seq<u8>>, program_id: Seq<u8>) -> Option<(Seq<u8>, u8)>;

/// Relies on solana_program::pubkey::Pubkey::try_find_program_address: a
/// deterministic search over bump bytes, returning the first derived address
/// not on the ed25519 curve, or None when the search is exhausted. It never
/// panics and its result depends only on the seeds and the program id.
#[verifier::external_body]
fn try_find_pda(seeds: &Vec<Vec<u8>>, program_id: &Address) -> (r: Option<(Address, u8)>)
    requires
        program_id@.len() == 32,
    ensures
        match r {
            Some((a, bump)) => pda_of(seeds.deep_view(), program_id@) == Some((a@, bump))
                && a@.len() == 32,
            None => pda_of(seeds.deep_view(), program_id@) is None,
        },
{
    let seed_refs: Vec<&[u8]> = seeds.iter().map(|s| s.as_slice()).collect();
    let mut id_bytes = [0u8; 32];
    id_bytes.copy_from_slice(&program_id.bytes);
    let pid = solana_program::pubkey::Pubkey::new_from_array(id_bytes);
    solana_program::pubkey::Pubkey::try_find_program_address(&seed_refs, &pid)
        .map(|(pk, bump)| (Address { bytes: pk.to_bytes().to_vec() }, bump))
}

/// Derive a program address from a seed list and the owning program id.
pub fn derive_program_address(seeds: &Vec<Vec<u8>>, program_id: &Address) -> (r: Option<(
    Address,
    u8,
)>)
    requires
        program_id@.len() == 32,
    ensures
        match r {
            Some((a, bump)) => pda_of(seeds.deep_view(), program_id@) == Some((a@, bump))
                && a.wf(),
            None => pda_of(seeds.deep_view(), program_id@) is None,
        },
{
    try_find_pda(seeds, program_id)
}

/// Program-address derivation is a pure function: the same seeds and the
/// same owning program always yield the same address and bump.
pub proof fn lemma_pda_deterministic(
    r1: Option<(Seq<u8>, u8)>,
    r2: Option<(Seq<u8>, u8)>,
    seeds: Seq<Seq<u8>>,
    program_id: Seq<u8>,
)
    requires
        r1 == pda_of(seeds, program_id),
        r2 == pda_of(seeds, program_id),
    ensures
        r1 == r2,
{
}

} // verus!
