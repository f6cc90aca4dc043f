//! The settings a client is built from.

use vstd::prelude::*;
use crate::scheme::SignatureScheme;

verus! {

/// Everything that is configured: the chains, the tags and the
/// transport.
#[derive(Debug, Clone)]
pub struct Settings {
    pub drand: DrandConfig,
    pub crypto: CryptoConfig,
    pub http: HttpConfig,
}

/// Where beacons are fetched from, and the two chains.
#[derive(Debug, Clone)]
pub struct DrandConfig {
    pub base_url: String,
    pub fallback_urls: Option<Vec<String>>,
    pub quicknet: ChainConfig,
    pub mainnet: ChainConfig,
}

/// The constants of one chain. The key and the chain hash are hex;
/// the times are in seconds.
#[derive(Debug, Clone)]
pub struct ChainConfig {
    pub chain_hash: String,
    pub public_key: String,
    pub genesis_time: u64,
    pub period: u64,
    pub scheme_id: String,
}

/// The domain-separation tags, one for each signature scheme.
#[derive(Debug, Clone)]
pub struct CryptoConfig {
    pub quicknet_dst: String,
    pub mainnet_dst: String,
}

/// How beacons are fetched.
#[derive(Debug, Clone)]
pub struct HttpConfig {
    pub timeout_seconds: u64,
    pub max_retries: Option<u32>,
    pub retry_delay_ms: Option<u64>,
}

impl CryptoConfig {
    /// The tag under which messages of `scheme` are hashed onto the
    /// curve.
    pub open spec fn spec_dst_for(&self, scheme: SignatureScheme) -> Seq<char> {
        tag_for(scheme, self.quicknet_dst@, self.mainnet_dst@)
    }

    /// The tag under which messages of `scheme` are hashed onto the
    /// curve.
    pub fn dst_for(&self, scheme: SignatureScheme) -> (tag: &str)
        ensures
            tag@ == self.spec_dst_for(scheme),
    {
        match scheme {
            SignatureScheme::MinSig => self.quicknet_dst.as_str(),
            SignatureScheme::MinPk => self.mainnet_dst.as_str(),
        }
    }
}

/// The tag of `scheme` among the two that are configured: the first
/// for signatures in G1, the second for signatures in G2.
pub open spec fn tag_for(
    scheme: SignatureScheme,
    quicknet_dst: Seq<char>,
    mainnet_dst: Seq<char>,
) -> Seq<char> {
    match scheme {
        SignatureScheme::MinSig => quicknet_dst,
        SignatureScheme::MinPk => mainnet_dst,
    }
}

} // verus!
