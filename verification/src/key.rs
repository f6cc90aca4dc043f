//! The public key of a chain, decoded into the group that its
//! scheme assigns.

use vstd::prelude::*;
use crate::curve::{is_g1_encoding, is_g2_encoding, G1Point, G2Point};
use crate::error::DrandError;
use crate::hexcode::{hex_decode, hex_decoded, is_hex_string};
use crate::scheme::{CurveGroup, SignatureScheme};

verus! {

/// Whether `bytes` are the compressed encoding of a point of `group`:
/// of the group's length, on the curve and in the subgroup.
pub open spec fn is_point_encoding(group: CurveGroup, bytes: Seq<u8>) -> bool {
    &&& bytes.len() == group.spec_compressed_len()
    &&& match group {
        CurveGroup::G1 => is_g1_encoding(bytes),
        CurveGroup::G2 => is_g2_encoding(bytes),
    }
}

/// Whether hex text is a public key of `scheme`: hex that decodes to
/// the encoding of a point of the scheme's public-key group.
pub open spec fn is_public_key(text: Seq<char>, scheme: SignatureScheme) -> bool {
    &&& is_hex_string(text)
    &&& is_point_encoding(scheme.spec_public_key_group(), hex_decoded(text))
}

/// A public key, tagged by the scheme it belongs to, so that no later
/// stage has to work out which group is in play.
pub enum KeyMaterial {
    /// A key of the scheme with signatures in G1: a point of G2.
    MinSig(G2Point),
    /// A key of the scheme with signatures in G2: a point of G1.
    MinPk(G1Point),
}

impl KeyMaterial {
    /// The scheme that the key belongs to.
    pub open spec fn spec_scheme(&self) -> SignatureScheme {
        match self {
            KeyMaterial::MinSig(_) => SignatureScheme::MinSig,
            KeyMaterial::MinPk(_) => SignatureScheme::MinPk,
        }
    }

    /// The compressed encoding of the key's point.
    pub open spec fn encoding(&self) -> Seq<u8> {
        match self {
            KeyMaterial::MinSig(point) => point@,
            KeyMaterial::MinPk(point) => point@,
        }
    }

    /// The scheme that the key belongs to.
    #[verifier::when_used_as_spec(spec_scheme)]
    pub fn scheme(&self) -> (scheme: SignatureScheme)
        ensures
            scheme == self.spec_scheme(),
    {
        match self {
            KeyMaterial::MinSig(_) => SignatureScheme::MinSig,
            KeyMaterial::MinPk(_) => SignatureScheme::MinPk,
        }
    }

    /// The compressed encoding of the key's point.
    pub fn to_compressed(&self) -> (bytes: Vec<u8>)
        ensures
            bytes@ == self.encoding(),
    {
        match self {
            KeyMaterial::MinSig(point) => point.to_compressed(),
            KeyMaterial::MinPk(point) => point.to_compressed(),
        }
    }

    /// Decodes the hex text of a public key of `scheme`. The key is
    /// accepted exactly where the text is hex for the encoding of a
    /// point of the scheme's public-key group; every other text is an
    /// invalid key encoding.
    pub fn decode(public_key: &str, scheme: SignatureScheme) -> (r: Result<KeyMaterial, DrandError>)
        ensures
            match r {
                Ok(key) => {
                    &&& is_public_key(public_key@, scheme)
                    &&& key.spec_scheme() == scheme
                    &&& key.encoding() == hex_decoded(public_key@)
                },
                Err(e) => e == DrandError::InvalidKeyEncoding && !is_public_key(public_key@, scheme),
            },
    {
        let bytes = match hex_decode(public_key) {
            Ok(bytes) => bytes,
            Err(_) => {
                return Err(DrandError::InvalidKeyEncoding);
            },
        };
        match scheme {
            SignatureScheme::MinSig => match G2Point::from_compressed(bytes.as_slice()) {
                Some(point) => Ok(KeyMaterial::MinSig(point)),
                None => Err(DrandError::InvalidKeyEncoding),
            },
            SignatureScheme::MinPk => match G1Point::from_compressed(bytes.as_slice()) {
                Some(point) => Ok(KeyMaterial::MinPk(point)),
                None => Err(DrandError::InvalidKeyEncoding),
            },
        }
    }
}

/// A public key of one scheme is never a public key of the other:
/// the two schemes keep their keys in groups whose encodings differ
/// in length.
pub proof fn public_key_fits_one_scheme(text: Seq<char>)
    ensures
        !(is_public_key(text, SignatureScheme::MinSig) && is_public_key(
            text,
            SignatureScheme::MinPk,
        )),
{
}

} // verus!
