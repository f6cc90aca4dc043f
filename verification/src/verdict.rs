//! The verdict on a beacon, and what holds of every verdict.

use vstd::prelude::*;
use crate::beacon::{optional_text, DrandBeacon};
use crate::client::ClientModel;
use crate::digest::sha256;
use crate::error::DrandError;
use crate::hexcode::{hex_decode, hex_decoded, is_hex_string};
use crate::message::signed_message;
use crate::scheme::SignatureScheme;
use crate::signature::{randomness_is, signature_holds};

verus! {

/// The signature bytes of a beacon, where its signature is hex for as
/// many bytes as a signature of `scheme` has.
pub open spec fn decoded_signature(scheme: SignatureScheme, signature: Seq<char>) -> Option<
    Seq<u8>,
> {
    if is_hex_string(signature) && hex_decoded(signature).len()
        == scheme.spec_signature_group().spec_compressed_len() {
        Some(hex_decoded(signature))
    } else {
        None
    }
}

/// The verdict on a beacon. The stages run in this order and the
/// first that fails decides: the signature is decoded, the signed
/// message is built, the signature is checked against the public key,
/// and the randomness is checked against the signature.
pub open spec fn beacon_verdict(client: ClientModel, beacon: DrandBeacon) -> Result<(), DrandError> {
    match decoded_signature(client.scheme, beacon.signature@) {
        None => Err(DrandError::InvalidSignatureEncoding),
        Some(signature) => match signed_message(
            client.scheme_id,
            optional_text(beacon.previous_signature),
            beacon.round,
        ) {
            None => Err(DrandError::InvalidPreviousSignatureEncoding),
            Some(message) => if !signature_holds(
                client.scheme,
                client.public_key,
                signature,
                message,
                client.dst(),
            ) {
                Err(DrandError::SignatureInvalid { scheme: client.scheme })
            } else if !randomness_is(sha256(signature), beacon.randomness@) {
                Err(DrandError::RandomnessMismatch)
            } else {
                Ok(())
            },
        },
    }
}

/// Whether a beacon gets as far as its randomness: its signature
/// decodes, its signed message can be built, and the signature proves
/// the message under the client's public key.
pub open spec fn signature_accepted(client: ClientModel, beacon: DrandBeacon) -> bool {
    match decoded_signature(client.scheme, beacon.signature@) {
        None => false,
        Some(signature) => match signed_message(
            client.scheme_id,
            optional_text(beacon.previous_signature),
            beacon.round,
        ) {
            None => false,
            Some(message) => signature_holds(
                client.scheme,
                client.public_key,
                signature,
                message,
                client.dst(),
            ),
        },
    }
}

/// Whether the randomness of a beacon is the SHA-256 digest of the
/// bytes that its signature is hex for.
pub open spec fn randomness_accepted(beacon: DrandBeacon) -> bool {
    randomness_is(sha256(hex_decoded(beacon.signature@)), beacon.randomness@)
}

/// The verdict depends on what a beacon says, not on the value that
/// says it: two beacons with the same round and the same texts get
/// the same verdict from the same client.
pub proof fn verdict_depends_on_content(client: ClientModel, a: DrandBeacon, b: DrandBeacon)
    requires
        a.round == b.round,
        a.randomness@ == b.randomness@,
        a.signature@ == b.signature@,
        optional_text(a.previous_signature) == optional_text(b.previous_signature),
    ensures
        beacon_verdict(client, a) == beacon_verdict(client, b),
{
}

/// A beacon is accepted exactly where its signature is accepted and
/// its randomness is the digest of its signature.
pub proof fn accepted_means_both_checks_pass(client: ClientModel, beacon: DrandBeacon)
    ensures
        beacon_verdict(client, beacon) is Ok <==> signature_accepted(client, beacon)
            && randomness_accepted(beacon),
{
}

/// The signature of an accepted beacon has two hex digits for every
/// byte of a point of the scheme's signature group: 96 digits with
/// signatures in G1, 192 with signatures in G2.
pub proof fn accepted_signature_has_the_length_of_its_scheme(
    client: ClientModel,
    beacon: DrandBeacon,
)
    requires
        beacon_verdict(client, beacon) is Ok,
    ensures
        beacon.signature@.len() == 2 * client.scheme.spec_signature_group().spec_compressed_len(),
        client.scheme == SignatureScheme::MinSig ==> beacon.signature@.len() == 96,
        client.scheme == SignatureScheme::MinPk ==> beacon.signature@.len() == 192,
{
    let text = beacon.signature@;
    assert(hex_decoded(text).len() == text.len() / 2);
}

/// A beacon whose signature decodes and whose signed message can be
/// built, but whose signature does not prove the message, is refused
/// as having an invalid signature, whatever its randomness says.
pub proof fn unproved_signature_is_invalid(client: ClientModel, beacon: DrandBeacon)
    requires
        decoded_signature(client.scheme, beacon.signature@) is Some,
        signed_message(
            client.scheme_id,
            optional_text(beacon.previous_signature),
            beacon.round,
        ) is Some,
        !signature_accepted(client, beacon),
    ensures
        beacon_verdict(client, beacon) == Err::<(), DrandError>(
            DrandError::SignatureInvalid { scheme: client.scheme },
        ),
{
}

/// A beacon whose signature is accepted but whose randomness is not
/// the digest of that signature is refused for its randomness.
pub proof fn wrong_randomness_is_a_mismatch(client: ClientModel, beacon: DrandBeacon)
    requires
        signature_accepted(client, beacon),
        !randomness_accepted(beacon),
    ensures
        beacon_verdict(client, beacon) == Err::<(), DrandError>(DrandError::RandomnessMismatch),
{
}

/// A signature of one scheme never decodes as a signature of the
/// other, so a client refuses every beacon of the other scheme for
/// its signature encoding.
pub proof fn other_scheme_beacon_is_refused(client: ClientModel, beacon: DrandBeacon)
    requires
        decoded_signature(client.scheme.other(), beacon.signature@) is Some,
    ensures
        beacon_verdict(client, beacon) == Err::<(), DrandError>(
            DrandError::InvalidSignatureEncoding,
        ),
{
}

/// Decodes the signature of a beacon of `scheme`: hex for exactly as
/// many bytes as a signature of the scheme has.
pub fn decode_signature(scheme: SignatureScheme, signature: &str) -> (r: Result<Vec<u8>, DrandError>)
    ensures
        match decoded_signature(scheme, signature@) {
            Some(bytes) => r matches Ok(decoded) && decoded@ == bytes,
            None => r == Err::<Vec<u8>, DrandError>(DrandError::InvalidSignatureEncoding),
        },
{
    match hex_decode(signature) {
        Ok(bytes) => {
            if bytes.len() == scheme.signature_group().compressed_len() {
                Ok(bytes)
            } else {
                Err(DrandError::InvalidSignatureEncoding)
            }
        },
        Err(_) => Err(DrandError::InvalidSignatureEncoding),
    }
}

} // verus!
