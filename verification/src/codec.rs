//! Decoding of the eligibility receipt: the API response shapes, the
//! merkle-proof decoding policy, and the extraction of the fields a claim
//! needs.
//!
//! The proof arrives as a JSON string holding an array of typed-buffer
//! entries. Only entries tagged "Buffer" whose payload is exactly 32 bytes
//! are kept, in order; anything else is dropped without error, and an
//! input that does not parse at all yields an empty proof. Sufficiency of
//! the proof is judged on-chain, not here.

use vstd::prelude::*;
use vstd::string::StringExecFns;

verus! {

/// A response envelope from the eligibility API.
pub struct GrassApiResponse<T> {
    pub result: Option<T>,
}

/// The receipt payload: all fields optional, each missing one a validation
/// failure for the attempt.
pub struct ReceiptData {
    pub version_number: Option<u32>,
    pub claim_proof: Option<String>,
    pub allocation: Option<u64>,
}

/// The receipt wrapper around its data.
pub struct Receipt {
    pub data: Option<ReceiptData>,
}

/// One entry of the decoded claim-proof array.
pub struct ClaimProofEntry {
    pub position: Option<String>,
    pub data: BufferData,
}

/// A typed buffer: a tag naming the kind and the raw bytes.
pub struct BufferData {
    pub type_: String,
    pub data: Vec<u8>,
}

/// The string-wrapped entry payload one historical shape of the API used.
pub struct InnerData {
    pub data: String,
}

/// What the JSON parser extracts from a claim-proof string: for each entry,
/// the buffer's tag and its bytes, in order; or nothing when the string
/// does not parse as such an array. A function of the string alone.
pub uninterp spec fn parsed_claim_proof(s: Seq<char>) -> Option<Seq<(Seq<char>, Seq<u8>)>>;

/// Relies on serde_json: parses the claim-proof string as an array of
/// entries, each an object whose "data" object holds a "type" string and a
/// "data" byte array, with an optional "position" string beside it. Any
/// deviation makes the whole parse fail. The result depends on the string
/// alone.
#[verifier::external_body]
fn parse_claim_proof(s: &str) -> (r: Option<Vec<ClaimProofEntry>>)
    ensures
        match r {
            Some(es) => {
                &&& parsed_claim_proof(s@) matches Some(ps)
                &&& ps.len() == es@.len()
                &&& forall|i: int|
                    0 <= i < es@.len() ==> es@[i].data.type_@ == ps[i].0 && es@[i].data.data@
                        == ps[i].1
            },
            None => parsed_claim_proof(s@) is None,
        },
{
    let vals: Vec<serde_json::Value> = serde_json::from_str(s).ok()?;
    let mut out: Vec<ClaimProofEntry> = Vec::new();
    for v in vals {
        let d = v.get("data")?;
        let type_ = d.get("type")?.as_str()?.to_string();
        let data: Vec<u8> = serde_json::from_value(d.get("data")?.clone()).ok()?;
        let position = v.get("position").and_then(|p| p.as_str()).map(|p| p.to_string());
        out.push(ClaimProofEntry { position, data: BufferData { type_, data } });
    }
    Some(out)
}

/// The nodes kept from a parsed entry list: those tagged "Buffer" whose
/// payload is exactly 32 bytes, in order.
pub open spec fn spec_kept_nodes(ps: Seq<(Seq<char>, Seq<u8>)>) -> Seq<Seq<u8>>
    decreases ps.len(),
{
    if ps.len() == 0 {
        seq![]
    } else {
        let rest = spec_kept_nodes(ps.drop_last());
        if ps.last().0 == "Buffer"@ && ps.last().1.len() == 32 {
            rest.push(ps.last().1)
        } else {
            rest
        }
    }
}

/// The proof decoded from a claim-proof string: the kept nodes of the
/// parsed entries, or the empty sequence when the string does not parse.
pub open spec fn spec_prepare_proof(s: Seq<char>) -> Seq<Seq<u8>> {
    match parsed_claim_proof(s) {
        Some(ps) => spec_kept_nodes(ps),
        None => seq![],
    }
}

/// Decode a claim-proof string into its ordered 32-byte nodes.
pub fn prepare_proof(claim_proof_json: &str) -> (r: Vec<Vec<u8>>)
    ensures
        r.deep_view() == spec_prepare_proof(claim_proof_json@),
        forall|i: int| 0 <= i < r@.len() ==> (#[trigger] r@[i])@.len() == 32,
{
    let parsed = parse_claim_proof(claim_proof_json);
    match parsed {
        None => {
            let r: Vec<Vec<u8>> = Vec::new();
            proof {
                assert(r.deep_view() =~= spec_prepare_proof(claim_proof_json@));
            }
            r
        },
        Some(entries) => {
            let ghost ps = parsed_claim_proof(claim_proof_json@).unwrap();
            let buffer_tag: String = String::from_str("Buffer");
            let mut r: Vec<Vec<u8>> = Vec::new();
            let mut i: usize = 0;
            while i < entries.len()
                invariant
                    i <= entries.len(),
                    ps.len() == entries@.len(),
                    buffer_tag@ == "Buffer"@,
                    forall|j: int|
                        0 <= j < entries@.len() ==> entries@[j].data.type_@ == ps[j].0
                            && entries@[j].data.data@ == ps[j].1,
                    r.deep_view() == spec_kept_nodes(ps.take(i as int)),
                    forall|j: int| 0 <= j < r@.len() ==> (#[trigger] r@[j])@.len() == 32,
                decreases entries.len() - i,
            {
                proof {
                    assert(ps.take(i + 1 as int).drop_last() =~= ps.take(i as int));
                    assert(ps.take(i + 1 as int).last() == ps[i as int]);
                }
                let entry = &entries[i];
                if entry.data.type_ == buffer_tag && entry.data.data.len() == 32 {
                    let node = crate::address::copy_bytes(&entry.data.data);
                    r.push(node);
                    proof {
                        assert(r.deep_view() =~~= spec_kept_nodes(ps.take(i + 1 as int)));
                    }
                } else {
                    proof {
                        assert(r.deep_view() =~~= spec_kept_nodes(ps.take(i + 1 as int)));
                    }
                }
                i = i + 1;
            }
            proof {
                assert(ps.take(ps.len() as int) =~= ps);
            }
            r
        },
    }
}

/// Why a receipt failed validation.
#[derive(Clone, Copy, Debug, PartialEq, Eq, Structural)]
pub enum ReceiptError {
    MissingResult,
    MissingData,
    MissingVersionNumber,
    MissingClaimProof,
    MissingAllocation,
}

impl ReceiptError {
    /// A fixed description of the failure.
    pub fn message(&self) -> (r: &'static str)
        ensures
            match self {
                ReceiptError::MissingResult => r@ == "Receipt result is missing"@,
                ReceiptError::MissingData => r@ == "Data is missing in the receipt result"@,
                ReceiptError::MissingVersionNumber => r@
                    == "Version number is missing in the receipt data"@,
                ReceiptError::MissingClaimProof => r@
                    == "Claim proof is missing in the receipt data"@,
                ReceiptError::MissingAllocation => r@
                    == "Allocation is missing in the receipt data"@,
            },
    {
        match self {
            ReceiptError::MissingResult => "Receipt result is missing",
            ReceiptError::MissingData => "Data is missing in the receipt result",
            ReceiptError::MissingVersionNumber => "Version number is missing in the receipt data",
            ReceiptError::MissingClaimProof => "Claim proof is missing in the receipt data",
            ReceiptError::MissingAllocation => "Allocation is missing in the receipt data",
        }
    }
}

/// Pull the distribution version, the decoded proof, and the allocation out
/// of a receipt response; each absent field is the matching error.
pub fn extract_version_and_proof(receipt: &GrassApiResponse<Receipt>) -> (r: Result<
    (u32, Vec<Vec<u8>>, u64),
    ReceiptError,
>)
    ensures
        match receipt.result {
            None => r == Err::<(u32, Vec<Vec<u8>>, u64), ReceiptError>(ReceiptError::MissingResult),
            Some(res) => match res.data {
                None => r == Err::<(u32, Vec<Vec<u8>>, u64), ReceiptError>(
                    ReceiptError::MissingData,
                ),
                Some(data) => match data.version_number {
                    None => r == Err::<(u32, Vec<Vec<u8>>, u64), ReceiptError>(
                        ReceiptError::MissingVersionNumber,
                    ),
                    Some(v) => match data.claim_proof {
                        None => r == Err::<(u32, Vec<Vec<u8>>, u64), ReceiptError>(
                            ReceiptError::MissingClaimProof,
                        ),
                        Some(cp) => match data.allocation {
                            None => r == Err::<(u32, Vec<Vec<u8>>, u64), ReceiptError>(
                                ReceiptError::MissingAllocation,
                            ),
                            Some(alloc) => {
                                &&& r matches Ok(t)
                                &&& t.0 == v
                                &&& t.1.deep_view() == spec_prepare_proof(cp@)
                                &&& t.2 == alloc
                            },
                        },
                    },
                },
            },
        },
{
    let res = match &receipt.result {
        None => {
            return Err(ReceiptError::MissingResult);
        },
        Some(res) => res,
    };
    let data = match &res.data {
        None => {
            return Err(ReceiptError::MissingData);
        },
        Some(data) => data,
    };
    let version_number = match &data.version_number {
        None => {
            return Err(ReceiptError::MissingVersionNumber);
        },
        Some(v) => *v,
    };
    let claim_proof = match &data.claim_proof {
        None => {
            return Err(ReceiptError::MissingClaimProof);
        },
        Some(cp) => cp,
    };
    let allocation = match &data.allocation {
        None => {
            return Err(ReceiptError::MissingAllocation);
        },
        Some(a) => *a,
    };
    let proof = prepare_proof(claim_proof.as_str());
    Ok((version_number, proof, allocation))
}

} // verus!
