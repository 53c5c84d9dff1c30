//! Transaction assembly and confirmation for a fixed-allocation token
//! airdrop claim: program-address derivation, merkle-proof decoding,
//! byte-exact instruction building, per-wallet planning against observed
//! chain state, the bounded relay-bundle confirmation wait, and the
//! selection loop over the wallet store.
//!
//! Everything here is pure: callers read the chain and the eligibility
//! API, hand the observed values in, and sign and submit what comes back.

pub mod address;
pub mod bundle;
pub mod codec;
pub mod config;
pub mod derive;
pub mod encode;
pub mod ixs;
pub mod orchestrator;
pub mod planner;
pub mod query;
