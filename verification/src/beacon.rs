//! The records that a beacon chain publishes.

use vstd::prelude::*;

verus! {

/// One published round: its number, the randomness, the signature
/// that the randomness is the digest of, and for a chained scheme the
/// signature of the round before. The three texts are hex.
#[derive(Debug, Clone)]
pub struct DrandBeacon {
    pub round: u64,
    pub randomness: String,
    pub signature: String,
    pub previous_signature: Option<String>,
}

/// What a chain says of itself.
#[derive(Debug, Clone)]
pub struct ChainInfo {
    pub public_key: String,
    pub period: u64,
    pub genesis_time: u64,
    pub hash: String,
    pub group_hash: String,
    pub scheme_id: String,
    pub metadata: ChainMetadata,
}

/// The part of a chain's description that names the beacon.
#[derive(Debug, Clone)]
pub struct ChainMetadata {
    pub beacon_id: String,
}

/// The text of an optional string, if there is one.
pub open spec fn optional_text(text: Option<String>) -> Option<Seq<char>> {
    match text {
        Some(t) => Some(t@),
        None => None,
    }
}

} // verus!
