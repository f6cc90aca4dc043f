//! The message that a beacon's signature signs.
//!
//! The signed message is the SHA-256 digest of the bytes of the
//! previous signature, where the scheme chains beacons, followed by
//! the round number as eight big-endian bytes.

use vstd::prelude::*;
use crate::beacon::{optional_text, DrandBeacon};
use crate::digest::{sha256, sha256_digest};
use crate::error::DrandError;
use crate::hexcode::{hex_decode, hex_decoded, is_hex_string};

verus! {

/// The scheme identifier of chained beacons.
pub open spec fn chained_scheme_id() -> Seq<char> {
    "pedersen-bls-chained"@
}

/// Whether `scheme_id` is one of the three known identifiers of
/// unchained beacons.
pub open spec fn is_unchained_scheme_id(scheme_id: Seq<char>) -> bool {
    ||| scheme_id == "bls-unchained-g1-rfc9380"@
    ||| scheme_id == "pedersen-bls-unchained"@
    ||| scheme_id == "bls-unchained-on-g1"@
}

/// Whether the previous signature is part of what is signed. A
/// chained scheme always includes it and a known unchained scheme
/// never does; under any other identifier it is included where the
/// beacon carries one that is not empty.
pub open spec fn includes_previous(scheme_id: Seq<char>, previous: Option<Seq<char>>) -> bool {
    if scheme_id == chained_scheme_id() {
        true
    } else if is_unchained_scheme_id(scheme_id) {
        false
    } else {
        match previous {
            Some(text) => text.len() > 0,
            None => false,
        }
    }
}

/// The round number as eight bytes, most significant first.
pub open spec fn round_be_bytes(round: u64) -> Seq<u8> {
    seq![
        ((round as int / 0x1_00_0000_0000_0000) % 256) as u8,
        ((round as int / 0x1_0000_0000_0000) % 256) as u8,
        ((round as int / 0x1_00_0000_0000) % 256) as u8,
        ((round as int / 0x1_0000_0000) % 256) as u8,
        ((round as int / 0x1_00_0000) % 256) as u8,
        ((round as int / 0x1_0000) % 256) as u8,
        ((round as int / 0x1_00) % 256) as u8,
        (round as int % 256) as u8,
    ]
}

/// The text of the previous signature that is signed over: the
/// beacon's own where it is included and present, else the empty text.
pub open spec fn chained_text(scheme_id: Seq<char>, previous: Option<Seq<char>>) -> Seq<char> {
    match previous {
        Some(text) => if includes_previous(scheme_id, previous) {
            text
        } else {
            Seq::empty()
        },
        None => Seq::empty(),
    }
}

/// The bytes that are hashed into the signed message, or `None`
/// where the previous signature belongs to them and is not hex. A
/// previous signature that is absent or empty contributes nothing,
/// whatever the scheme.
pub open spec fn message_preimage(
    scheme_id: Seq<char>,
    previous: Option<Seq<char>>,
    round: u64,
) -> Option<Seq<u8>> {
    let text = chained_text(scheme_id, previous);
    if text.len() == 0 {
        Some(round_be_bytes(round))
    } else if is_hex_string(text) {
        Some(hex_decoded(text) + round_be_bytes(round))
    } else {
        None
    }
}

/// The signed message of a beacon: the SHA-256 digest of its
/// preimage.
pub open spec fn signed_message(
    scheme_id: Seq<char>,
    previous: Option<Seq<char>>,
    round: u64,
) -> Option<Seq<u8>> {
    match message_preimage(scheme_id, previous, round) {
        Some(bytes) => Some(sha256(bytes)),
        None => None,
    }
}

/// Whether two texts are the same.
fn same_text(a: &str, b: &str) -> (same: bool)
    ensures
        same == (a@ == b@),
{
    a.to_owned() == b.to_owned()
}

/// Whether the previous signature is part of what a beacon of the
/// scheme `scheme_id` signs.
pub fn includes_previous_signature(scheme_id: &str, previous_signature: &Option<String>) -> (r: bool)
    ensures
        r == includes_previous(scheme_id@, optional_text(*previous_signature)),
{
    if same_text(scheme_id, "pedersen-bls-chained") {
        true
    } else if same_text(scheme_id, "bls-unchained-g1-rfc9380") || same_text(
        scheme_id,
        "pedersen-bls-unchained",
    ) || same_text(scheme_id, "bls-unchained-on-g1") {
        false
    } else {
        match previous_signature {
            Some(text) => !text.as_str().is_empty(),
            None => false,
        }
    }
}

/// The round number as eight bytes, most significant first.
pub fn round_to_be_bytes(round: u64) -> (bytes: Vec<u8>)
    ensures
        bytes@ == round_be_bytes(round),
{
    let b0: u8 = ((round >> 56) & 0xff) as u8;
    let b1: u8 = ((round >> 48) & 0xff) as u8;
    let b2: u8 = ((round >> 40) & 0xff) as u8;
    let b3: u8 = ((round >> 32) & 0xff) as u8;
    let b4: u8 = ((round >> 24) & 0xff) as u8;
    let b5: u8 = ((round >> 16) & 0xff) as u8;
    let b6: u8 = ((round >> 8) & 0xff) as u8;
    let b7: u8 = (round & 0xff) as u8;
    assert(((round >> 56) & 0xff) == (round / 0x1_00_0000_0000_0000) % 256) by (bit_vector);
    assert(((round >> 48) & 0xff) == (round / 0x1_0000_0000_0000) % 256) by (bit_vector);
    assert(((round >> 40) & 0xff) == (round / 0x1_00_0000_0000) % 256) by (bit_vector);
    assert(((round >> 32) & 0xff) == (round / 0x1_0000_0000) % 256) by (bit_vector);
    assert(((round >> 24) & 0xff) == (round / 0x1_00_0000) % 256) by (bit_vector);
    assert(((round >> 16) & 0xff) == (round / 0x1_0000) % 256) by (bit_vector);
    assert(((round >> 8) & 0xff) == (round / 0x1_00) % 256) by (bit_vector);
    assert((round & 0xff) == round % 256) by (bit_vector);
    let bytes = vec![b0, b1, b2, b3, b4, b5, b6, b7];
    assert(bytes@ =~= round_be_bytes(round));
    bytes
}

/// Builds the bytes that are hashed into the signed message of a
/// beacon of the scheme `scheme_id`.
pub fn build_message_preimage(scheme_id: &str, beacon: &DrandBeacon) -> (r: Result<
    Vec<u8>,
    DrandError,
>)
    ensures
        match message_preimage(scheme_id@, optional_text(beacon.previous_signature), beacon.round) {
            Some(bytes) => r matches Ok(built) && built@ == bytes,
            None => r == Err::<Vec<u8>, DrandError>(DrandError::InvalidPreviousSignatureEncoding),
        },
{
    let mut bytes: Vec<u8> = Vec::new();
    if includes_previous_signature(scheme_id, &beacon.previous_signature) {
        if let Some(previous) = &beacon.previous_signature {
            if !previous.as_str().is_empty() {
                match hex_decode(previous.as_str()) {
                    Ok(decoded) => {
                        bytes = decoded;
                    },
                    Err(_) => {
                        return Err(DrandError::InvalidPreviousSignatureEncoding);
                    },
                }
            }
        }
    }
    let round_bytes = round_to_be_bytes(beacon.round);
    bytes.extend_from_slice(round_bytes.as_slice());
    assert(bytes@ =~= message_preimage(
        scheme_id@,
        optional_text(beacon.previous_signature),
        beacon.round,
    ).unwrap());
    Ok(bytes)
}

/// Builds the signed message of a beacon of the scheme `scheme_id`:
/// the SHA-256 digest of its preimage.
pub fn build_signed_message(scheme_id: &str, beacon: &DrandBeacon) -> (r: Result<
    Vec<u8>,
    DrandError,
>)
    ensures
        match signed_message(scheme_id@, optional_text(beacon.previous_signature), beacon.round) {
            Some(digest) => r matches Ok(built) && built@ == digest,
            None => r == Err::<Vec<u8>, DrandError>(DrandError::InvalidPreviousSignatureEncoding),
        },
{
    match build_message_preimage(scheme_id, beacon) {
        Ok(bytes) => Ok(sha256_digest(bytes.as_slice())),
        Err(e) => Err(e),
    }
}

} // verus!
