//! Client-side toolkit for a token ledger: decodes token accounts from the
//! query layer's encodings, aggregates holdings, resolves asset metadata, and
//! reconstructs transfer activity from balance snapshots.
use vstd::prelude::*;

pub mod entries;
pub mod keys;
pub mod text;
pub mod json;
pub mod account;
pub mod holdings;
pub mod transfer;
pub mod history;
pub mod asset;
pub mod payment;
pub mod identity;

verus! {

/// Where the client sends its queries, and at which commitment.
#[derive(Clone, Debug)]
pub struct FinternetConfig {
    pub rpc_url: String,
    pub commitment_level: String,
}

impl Default for FinternetConfig {
    /// The public development cluster, at the confirmed commitment.
    fn default() -> (r: Self)
        ensures
            r.rpc_url@ == "https://api.devnet.solana.com"@,
            r.commitment_level@ == "confirmed"@,
    {
        FinternetConfig {
            rpc_url: String::from_str("https://api.devnet.solana.com"),
            commitment_level: String::from_str("confirmed"),
        }
    }
}

/// The client: an immutable value that every operation takes by reference.
/// The operations take what the query layer returned as arguments.
#[derive(Clone, Debug)]
pub struct FinternetClient {
    pub config: FinternetConfig,
}

impl FinternetClient {
    pub fn new(config: FinternetConfig) -> (r: FinternetClient)
        ensures
            r.config == config,
    {
        FinternetClient { config }
    }

    pub fn new_devnet() -> (r: FinternetClient)
        ensures
            r.config.rpc_url@ == "https://api.devnet.solana.com"@,
            r.config.commitment_level@ == "confirmed"@,
    {
        FinternetClient::new(FinternetConfig::default())
    }
}

} // verus!
