//! The two checks that a beacon must pass: its signature proves the
//! signed message under the chain's public key, and its randomness is
//! the digest of its signature.

use vstd::prelude::*;
use crate::curve::{
    fast_pairing_equality, g1_generator_encoding, g1_hashed, g2_generator_encoding, g2_hashed,
    hash_to_g1, hash_to_g2, is_g1_encoding, is_g2_encoding, pairings_agree, G1Point, G2Point,
};
use crate::digest::{sha256, sha256_digest};
use crate::hexcode::{hex_encode, hex_encoded};
use crate::key::KeyMaterial;
use crate::scheme::SignatureScheme;

verus! {

/// Whether `signature` proves `message` under `public_key`.
///
/// With signatures in G1 the signature must encode a point of G1 and
/// `e(signature, g2) == e(H(message), public_key)`, where `g2` is the
/// generator of G2 and `H` hashes onto G1. With signatures in G2 the
/// signature must encode a point of G2 and
/// `e(g1, signature) == e(public_key, H(message))`, where `g1` is the
/// generator of G1 and `H` hashes onto G2.
pub open spec fn signature_holds(
    scheme: SignatureScheme,
    public_key: Seq<u8>,
    signature: Seq<u8>,
    message: Seq<u8>,
    dst: Seq<u8>,
) -> bool {
    match scheme {
        SignatureScheme::MinSig => {
            &&& signature.len() == 48
            &&& is_g1_encoding(signature)
            &&& pairings_agree(
                signature,
                g2_generator_encoding(),
                g1_hashed(message, dst),
                public_key,
            )
        },
        SignatureScheme::MinPk => {
            &&& signature.len() == 96
            &&& is_g2_encoding(signature)
            &&& pairings_agree(
                g1_generator_encoding(),
                signature,
                public_key,
                g2_hashed(message, dst),
            )
        },
    }
}

/// Whether `randomness` is the lower-case hex text of `digest`.
pub open spec fn randomness_is(digest: Seq<u8>, randomness: Seq<char>) -> bool {
    hex_encoded(digest) == randomness
}

/// Checks a signature over `message`, hashed onto the curve under the
/// tag `dst`, against a public key.
pub fn verify_signature(key: &KeyMaterial, signature: &[u8], message: &[u8], dst: &[u8]) -> (ok:
    bool)
    ensures
        ok == signature_holds(key.spec_scheme(), key.encoding(), signature@, message@, dst@),
{
    match key {
        KeyMaterial::MinSig(public_key) => {
            match G1Point::from_compressed(signature) {
                Some(point) => {
                    let hashed = hash_to_g1(message, dst);
                    let generator = G2Point::generator();
                    fast_pairing_equality(&point, &generator, &hashed, public_key)
                },
                None => false,
            }
        },
        KeyMaterial::MinPk(public_key) => {
            match G2Point::from_compressed(signature) {
                Some(point) => {
                    let hashed = hash_to_g2(message, dst);
                    let generator = G1Point::generator();
                    fast_pairing_equality(&generator, &point, public_key, &hashed)
                },
                None => false,
            }
        },
    }
}

/// Whether the claimed randomness is, letter for letter, the
/// lower-case hex text of a digest.
pub fn randomness_matches(digest: &[u8], randomness: &str) -> (ok: bool)
    ensures
        ok == randomness_is(digest@, randomness@),
{
    hex_encode(digest) == randomness.to_owned()
}

/// Whether the claimed randomness is the SHA-256 digest of the
/// signature, as lower-case hex. Randomness that passes is 64 digits
/// long.
pub fn check_randomness(signature: &[u8], randomness: &str) -> (ok: bool)
    ensures
        ok == randomness_is(sha256(signature@), randomness@),
        ok ==> randomness@.len() == 64,
{
    let digest = sha256_digest(signature);
    randomness_matches(digest.as_slice(), randomness)
}

} // verus!
