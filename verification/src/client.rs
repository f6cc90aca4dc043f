//! The client of one chain: its constants, its public key, and the
//! verification of the beacons it is handed.

use vstd::prelude::*;
use vstd::utf8::encode_utf8;
use crate::beacon::DrandBeacon;
use crate::clock::{next_round, round_at, round_at_time};
use crate::config::{tag_for, ChainConfig, CryptoConfig, Settings};
use crate::error::DrandError;
use crate::hexcode::hex_decoded;
use crate::key::{is_public_key, KeyMaterial};
use crate::message::build_signed_message;
use crate::scheme::SignatureScheme;
use crate::signature::{check_randomness, verify_signature};
use crate::url::{latest_url, latest_url_text, round_url, round_url_text};
use crate::verdict::{beacon_verdict, decode_signature};

verus! {

/// What a client is, as plain values.
pub struct ClientModel {
    pub chain_hash: Seq<char>,
    pub scheme_id: Seq<char>,
    pub genesis_time: u64,
    pub period: u64,
    pub scheme: SignatureScheme,
    pub public_key: Seq<u8>,
    pub base_url: Seq<char>,
    pub timeout_seconds: u64,
    pub quicknet_dst: Seq<char>,
    pub mainnet_dst: Seq<char>,
}

impl ClientModel {
    /// The bytes of the domain-separation tag of the client's scheme.
    pub open spec fn dst(self) -> Seq<u8> {
        encode_utf8(tag_for(self.scheme, self.quicknet_dst, self.mainnet_dst))
    }
}

/// Why no client can be built from a chain's constants, if anything:
/// a period of zero, or a public key that is none of the scheme.
pub open spec fn construction_error(
    chain_config: ChainConfig,
    scheme: SignatureScheme,
) -> Option<DrandError> {
    if chain_config.period == 0 {
        Some(DrandError::InvalidPeriod)
    } else if !is_public_key(chain_config.public_key@, scheme) {
        Some(DrandError::InvalidKeyEncoding)
    } else {
        None
    }
}

/// The client that is built from a chain's constants and the rest of
/// what is configured.
pub open spec fn constructed(
    chain_config: ChainConfig,
    base_url: Seq<char>,
    timeout_seconds: u64,
    scheme: SignatureScheme,
    quicknet_dst: Seq<char>,
    mainnet_dst: Seq<char>,
) -> ClientModel {
    ClientModel {
        chain_hash: chain_config.chain_hash@,
        scheme_id: chain_config.scheme_id@,
        genesis_time: chain_config.genesis_time,
        period: chain_config.period,
        scheme,
        public_key: hex_decoded(chain_config.public_key@),
        base_url,
        timeout_seconds,
        quicknet_dst,
        mainnet_dst,
    }
}

/// Whether `r` is the outcome of building a client: the error where
/// there is one, else a client with the constructed model.
pub open spec fn is_construction(
    r: Result<DrandClient, DrandError>,
    chain_config: ChainConfig,
    base_url: Seq<char>,
    timeout_seconds: u64,
    scheme: SignatureScheme,
    quicknet_dst: Seq<char>,
    mainnet_dst: Seq<char>,
) -> bool {
    match construction_error(chain_config, scheme) {
        Some(error) => r matches Err(e) && e == error,
        None => r matches Ok(client) && client@ == constructed(
            chain_config,
            base_url,
            timeout_seconds,
            scheme,
            quicknet_dst,
            mainnet_dst,
        ),
    }
}

/// No chain's constants build a client under both schemes: where one
/// scheme takes the public key, the other refuses it as an invalid
/// key encoding.
pub proof fn key_builds_one_scheme_only(chain_config: ChainConfig, scheme: SignatureScheme)
    requires
        construction_error(chain_config, scheme) is None,
    ensures
        construction_error(chain_config, scheme.other()) == Some(
            DrandError::InvalidKeyEncoding,
        ),
{
}

/// A client of one chain. It holds the chain's constants and its
/// public key, decoded once; nothing in it changes afterwards.
pub struct DrandClient {
    chain_config: ChainConfig,
    key: KeyMaterial,
    base_url: String,
    timeout_seconds: u64,
    crypto: CryptoConfig,
}

impl View for DrandClient {
    type V = ClientModel;

    closed spec fn view(&self) -> ClientModel {
        ClientModel {
            chain_hash: self.chain_config.chain_hash@,
            scheme_id: self.chain_config.scheme_id@,
            genesis_time: self.chain_config.genesis_time,
            period: self.chain_config.period,
            scheme: self.key.spec_scheme(),
            public_key: self.key.encoding(),
            base_url: self.base_url@,
            timeout_seconds: self.timeout_seconds,
            quicknet_dst: self.crypto.quicknet_dst@,
            mainnet_dst: self.crypto.mainnet_dst@,
        }
    }
}

impl DrandClient {
    #[verifier::type_invariant]
    spec fn well_formed(&self) -> bool {
        self.chain_config.period > 0
    }

    /// Builds a client from a chain's constants. `use_quicknet` asks
    /// for the scheme with signatures in G1; without it the scheme
    /// with signatures in G2 is used. A period of zero is refused,
    /// and so is a public key that is none of the scheme.
    pub fn new(
        chain_config: ChainConfig,
        base_url: String,
        timeout_seconds: u64,
        use_quicknet: bool,
        quicknet_dst: String,
        mainnet_dst: String,
    ) -> (r: Result<DrandClient, DrandError>)
        ensures
            is_construction(
                r,
                chain_config,
                base_url@,
                timeout_seconds,
                SignatureScheme::spec_from_quicknet_flag(use_quicknet),
                quicknet_dst@,
                mainnet_dst@,
            ),
    {
        if chain_config.period == 0 {
            return Err(DrandError::InvalidPeriod);
        }
        let scheme = SignatureScheme::from_quicknet_flag(use_quicknet);
        match KeyMaterial::decode(chain_config.public_key.as_str(), scheme) {
            Ok(key) => Ok(
                DrandClient {
                    chain_config,
                    key,
                    base_url,
                    timeout_seconds,
                    crypto: CryptoConfig { quicknet_dst, mainnet_dst },
                },
            ),
            Err(e) => Err(e),
        }
    }

    /// Builds the client of the quicknet chain from the settings.
    pub fn new_quicknet(settings: Settings) -> (r: Result<DrandClient, DrandError>)
        ensures
            is_construction(
                r,
                settings.drand.quicknet,
                settings.drand.base_url@,
                settings.http.timeout_seconds,
                SignatureScheme::MinSig,
                settings.crypto.quicknet_dst@,
                settings.crypto.mainnet_dst@,
            ),
    {
        Self::new(
            settings.drand.quicknet,
            settings.drand.base_url,
            settings.http.timeout_seconds,
            true,
            settings.crypto.quicknet_dst,
            settings.crypto.mainnet_dst,
        )
    }

    /// Builds the client of the mainnet chain from the settings.
    pub fn new_mainnet(settings: Settings) -> (r: Result<DrandClient, DrandError>)
        ensures
            is_construction(
                r,
                settings.drand.mainnet,
                settings.drand.base_url@,
                settings.http.timeout_seconds,
                SignatureScheme::MinPk,
                settings.crypto.quicknet_dst@,
                settings.crypto.mainnet_dst@,
            ),
    {
        Self::new(
            settings.drand.mainnet,
            settings.drand.base_url,
            settings.http.timeout_seconds,
            false,
            settings.crypto.quicknet_dst,
            settings.crypto.mainnet_dst,
        )
    }

    /// The address below which the chain's beacons are published.
    pub fn base_url(&self) -> (url: &str)
        ensures
            url@ == self@.base_url,
    {
        self.base_url.as_str()
    }

    /// How many seconds a fetch may take.
    pub fn timeout_seconds(&self) -> (seconds: u64)
        ensures
            seconds == self@.timeout_seconds,
    {
        self.timeout_seconds
    }

    /// The signature scheme of the chain.
    pub fn scheme(&self) -> (scheme: SignatureScheme)
        ensures
            scheme == self@.scheme,
    {
        self.key.scheme()
    }

    /// The domain-separation tag of the client's scheme.
    pub fn dst(&self) -> (tag: &[u8])
        ensures
            tag@ == self@.dst(),
    {
        self.crypto.dst_for(self.key.scheme()).as_bytes()
    }

    /// The address of the chain's latest beacon.
    pub fn latest_url(&self) -> (url: String)
        ensures
            url@ == latest_url_text(self@.base_url, self@.chain_hash),
    {
        latest_url(self.base_url.as_str(), self.chain_config.chain_hash.as_str())
    }

    /// The address of the chain's beacon of round `round`.
    pub fn round_url(&self, round: u64) -> (url: String)
        ensures
            url@ == round_url_text(self@.base_url, self@.chain_hash, round),
    {
        round_url(self.base_url.as_str(), self.chain_config.chain_hash.as_str(), round)
    }

    /// The round that is current at `timestamp`: round 1 at the
    /// genesis time and before it, and one more for every full period
    /// after it.
    pub fn round_at_timestamp(&self, timestamp: u64) -> (round: u64)
        requires
            round_at(self@.genesis_time, self@.period, timestamp) <= u64::MAX,
        ensures
            round == round_at(self@.genesis_time, self@.period, timestamp),
            timestamp <= self@.genesis_time ==> round == 1,
            timestamp > self@.genesis_time ==> round == (timestamp - self@.genesis_time) / (
            self@.period as int) + 1,
    {
        proof {
            use_type_invariant(self);
        }
        round_at_time(self.chain_config.genesis_time, self.chain_config.period, timestamp)
    }

    /// The round after the one that is current at `timestamp`.
    pub fn next_round_after(&self, timestamp: u64) -> (round: u64)
        requires
            next_round(self@.genesis_time, self@.period, timestamp) <= u64::MAX,
        ensures
            round == next_round(self@.genesis_time, self@.period, timestamp),
            round == round_at(self@.genesis_time, self@.period, timestamp) + 1,
    {
        self.round_at_timestamp(timestamp) + 1
    }

    /// Verifies a beacon of the chain. The verdict depends on the
    /// client and the beacon alone, so the same beacon always gets the
    /// same verdict. The randomness of an accepted beacon is 64 hex
    /// digits long.
    pub fn verify_beacon(&self, beacon: &DrandBeacon) -> (verdict: Result<(), DrandError>)
        ensures
            verdict == beacon_verdict(self@, *beacon),
            verdict is Ok ==> beacon.randomness@.len() == 64,
    {
        let scheme = self.key.scheme();
        let signature = match decode_signature(scheme, beacon.signature.as_str()) {
            Ok(bytes) => bytes,
            Err(e) => {
                return Err(e);
            },
        };
        let message = match build_signed_message(self.chain_config.scheme_id.as_str(), beacon) {
            Ok(digest) => digest,
            Err(e) => {
                return Err(e);
            },
        };
        if !verify_signature(&self.key, signature.as_slice(), message.as_slice(), self.dst()) {
            return Err(DrandError::SignatureInvalid { scheme });
        }
        if !check_randomness(signature.as_slice(), beacon.randomness.as_str()) {
            return Err(DrandError::RandomnessMismatch);
        }
        Ok(())
    }
}

} // verus!
