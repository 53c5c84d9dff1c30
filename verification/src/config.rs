//! The run configuration, as plain values. Loading it from disk is the
//! caller's business; the library only reads these fields.

use vstd::prelude::*;

verus! {

/// Everything a run is configured with.
pub struct Config {
    /// The node RPC endpoint.
    pub solana_rpc_url: String,
    /// Whether transactions go through the relay-bundle path instead of
    /// the node directly.
    pub use_bundles: bool,
    /// The relay endpoint, when the bundle path is on.
    pub block_engine_url: String,
    /// The address residual balances are swept to.
    pub collector_pubkey: String,
    /// Whether claimed tokens are forwarded to the wallet's external
    /// destination address.
    pub withdraw_to_cex: bool,
    /// Whether the IP rotation endpoint is called before each wallet.
    pub mobile_proxies: bool,
    /// The IP rotation endpoint.
    pub swap_ip_link: String,
    /// Inclusive bounds, in seconds, of the random delay between wallets.
    pub claim_sleep_range: [u64; 2],
    /// The priority-fee unit price attached to transactions.
    pub compute_unit_price: u64,
    /// Whether a configured external key pays fees and rent.
    pub use_external_fee_pay: bool,
    /// The external fee payer's key material, when enabled.
    pub external_fee_payer_pk: String,
}

} // verus!
