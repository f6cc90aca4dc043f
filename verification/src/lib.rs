//! Verification of drand randomness beacons over BLS12-381, and the
//! round schedule of a beacon chain.

pub mod beacon;
pub mod client;
pub mod clock;
pub mod config;
pub mod curve;
pub mod digest;
pub mod error;
pub mod hexcode;
pub mod key;
pub mod message;
pub mod scheme;
pub mod signature;
pub mod url;
pub mod verdict;

pub use beacon::{ChainInfo, ChainMetadata, DrandBeacon};
pub use client::{ClientModel, DrandClient};
pub use config::{ChainConfig, CryptoConfig, DrandConfig, HttpConfig, Settings};
pub use curve::{fast_pairing_equality, hash_to_g1, hash_to_g2, G1Point, G2Point};
pub use error::DrandError;
pub use hexcode::decode_hex;
pub use key::KeyMaterial;
pub use scheme::{CurveGroup, SignatureScheme};
