//! The query strings the eligibility API takes: a JSON object carried in
//! one URL parameter. Wallet addresses are base58 text, which JSON string
//! encoding carries unchanged, so the encoding is plain concatenation;
//! the contracts ask callers for such text.

use vstd::prelude::*;
use vstd::string::StringExecFns;

verus! {

/// The chain cluster a receipt is asked for.
#[derive(Clone, Copy, Debug, PartialEq, Eq, Structural)]
pub enum Cluster {
    Mainnet,
}

impl Cluster {
    /// The cluster's wire name.
    pub open spec fn spec_name(self) -> Seq<char> {
        match self {
            Cluster::Mainnet => "mainnet"@,
        }
    }

    pub fn as_str(&self) -> (r: &'static str)
        ensures
            r@ == self.spec_name(),
    {
        match self {
            Cluster::Mainnet => "mainnet",
        }
    }
}

/// Text that JSON string encoding carries unchanged: no quote, no
/// backslash, no control character.
pub open spec fn spec_json_plain(s: Seq<char>) -> bool {
    forall|i: int|
        0 <= i < s.len() ==> #[trigger] s[i] != '"' && s[i] != '\\' && (s[i] as u32) >= 32
}

/// The allocation query: the wallet address alone.
pub struct AllocationQuery {
    pub wallet_address: String,
}

impl AllocationQuery {
    /// The query's JSON encoding.
    pub open spec fn spec_to_string(wallet_address: Seq<char>) -> Seq<char> {
        "{\"walletAddress\":\""@ + wallet_address + "\"}"@
    }

    /// Encode an allocation query for a wallet address. The address must
    /// carry no characters that JSON string encoding would escape.
    pub fn to_string(wallet_address: &str) -> (r: String)
        requires
            spec_json_plain(wallet_address@),
        ensures
            r@ == Self::spec_to_string(wallet_address@),
    {
        let query = AllocationQuery { wallet_address: wallet_address.to_owned() };
        let mut s = String::from_str("{\"walletAddress\":\"");
        s.append(query.wallet_address.as_str());
        s.append("\"}");
        s
    }
}

/// The receipt query: the wallet address and the cluster.
pub struct ReceiptQuery {
    pub wallet_address: String,
    pub cluster: String,
}

impl ReceiptQuery {
    /// The query's JSON encoding.
    pub open spec fn spec_to_string(wallet_address: Seq<char>, cluster: Cluster) -> Seq<char> {
        "{\"walletAddress\":\""@ + wallet_address + "\",\"cluster\":\""@ + cluster.spec_name()
            + "\"}"@
    }

    /// Encode a receipt query for a wallet address on a cluster. The
    /// address must carry no characters that JSON string encoding would
    /// escape.
    pub fn to_string(wallet_address: &str, cluster: Cluster) -> (r: String)
        requires
            spec_json_plain(wallet_address@),
        ensures
            r@ == Self::spec_to_string(wallet_address@, cluster),
    {
        let query = ReceiptQuery {
            wallet_address: wallet_address.to_owned(),
            cluster: cluster.as_str().to_owned(),
        };
        let mut s = String::from_str("{\"walletAddress\":\"");
        s.append(query.wallet_address.as_str());
        s.append("\",\"cluster\":\"");
        s.append(query.cluster.as_str());
        s.append("\"}");
        s
    }
}

} // verus!
