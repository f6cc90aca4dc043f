//! Points of the two groups of BLS12-381 as their compressed
//! encodings, hashing onto the groups, and the pairing equality.
//!
//! A point is held as the bytes that encode it, so that every
//! statement about points is one about byte strings. The curve
//! arithmetic itself is done by the `bls12_381` crate.

use vstd::prelude::*;
use vstd::slice::slice_to_vec;
use bls12_381::hash_to_curve::{ExpandMsgXmd, HashToCurve};
use bls12_381::{Bls12, G1Affine, G1Projective, G2Affine, G2Prepared, G2Projective};
use group::{Curve, Group};
use pairing::MultiMillerLoop;
use sha2::Sha256;

verus! {

/// Length of a compressed G1 point.
pub const G1_COMPRESSED_LEN: usize = 48;

/// Length of a compressed G2 point.
pub const G2_COMPRESSED_LEN: usize = 96;

/// Whether 48 bytes are the compressed encoding of a point of G1:
/// on the curve and in the prime-order subgroup.
pub uninterp spec fn is_g1_encoding(bytes: Seq<u8>) -> bool;

/// Whether 96 bytes are the compressed encoding of a point of G2:
/// on the curve and in the prime-order subgroup.
pub uninterp spec fn is_g2_encoding(bytes: Seq<u8>) -> bool;

/// The encoding of the G1 point that a message hashes to under a
/// domain-separation tag (expand-message-XMD with SHA-256).
pub uninterp spec fn g1_hashed(message: Seq<u8>, dst: Seq<u8>) -> Seq<u8>;

/// The encoding of the G2 point that a message hashes to under a
/// domain-separation tag (expand-message-XMD with SHA-256).
pub uninterp spec fn g2_hashed(message: Seq<u8>, dst: Seq<u8>) -> Seq<u8>;

/// The encoding of the negation of an encoded G1 point.
pub uninterp spec fn g1_negation(point: Seq<u8>) -> Seq<u8>;

/// Whether the product of the two pairings `e(a, b) * e(c, d)` of
/// encoded points is the identity of the target group.
pub uninterp spec fn pairing_product_is_identity(
    a: Seq<u8>,
    b: Seq<u8>,
    c: Seq<u8>,
    d: Seq<u8>,
) -> bool;

/// The compressed encoding of the fixed generator of G1.
pub open spec fn g1_generator_encoding() -> Seq<u8> {
    seq![
        0x97u8, 0xf1u8, 0xd3u8, 0xa7u8, 0x31u8, 0x97u8, 0xd7u8, 0x94u8, 0x26u8, 0x95u8, 0x63u8, 0x8cu8,
        0x4fu8, 0xa9u8, 0xacu8, 0x0fu8, 0xc3u8, 0x68u8, 0x8cu8, 0x4fu8, 0x97u8, 0x74u8, 0xb9u8, 0x05u8,
        0xa1u8, 0x4eu8, 0x3au8, 0x3fu8, 0x17u8, 0x1bu8, 0xacu8, 0x58u8, 0x6cu8, 0x55u8, 0xe8u8, 0x3fu8,
        0xf9u8, 0x7au8, 0x1au8, 0xefu8, 0xfbu8, 0x3au8, 0xf0u8, 0x0au8, 0xdbu8, 0x22u8, 0xc6u8, 0xbbu8,
    ]
}

/// The compressed encoding of the fixed generator of G2.
pub open spec fn g2_generator_encoding() -> Seq<u8> {
    seq![
        0x93u8, 0xe0u8, 0x2bu8, 0x60u8, 0x52u8, 0x71u8, 0x9fu8, 0x60u8, 0x7du8, 0xacu8, 0xd3u8, 0xa0u8,
        0x88u8, 0x27u8, 0x4fu8, 0x65u8, 0x59u8, 0x6bu8, 0xd0u8, 0xd0u8, 0x99u8, 0x20u8, 0xb6u8, 0x1au8,
        0xb5u8, 0xdau8, 0x61u8, 0xbbu8, 0xdcu8, 0x7fu8, 0x50u8, 0x49u8, 0x33u8, 0x4cu8, 0xf1u8, 0x12u8,
        0x13u8, 0x94u8, 0x5du8, 0x57u8, 0xe5u8, 0xacu8, 0x7du8, 0x05u8, 0x5du8, 0x04u8, 0x2bu8, 0x7eu8,
        0x02u8, 0x4au8, 0xa2u8, 0xb2u8, 0xf0u8, 0x8fu8, 0x0au8, 0x91u8, 0x26u8, 0x08u8, 0x05u8, 0x27u8,
        0x2du8, 0xc5u8, 0x10u8, 0x51u8, 0xc6u8, 0xe4u8, 0x7au8, 0xd4u8, 0xfau8, 0x40u8, 0x3bu8, 0x02u8,
        0xb4u8, 0x51u8, 0x0bu8, 0x64u8, 0x7au8, 0xe3u8, 0xd1u8, 0x77u8, 0x0bu8, 0xacu8, 0x03u8, 0x26u8,
        0xa8u8, 0x05u8, 0xbbu8, 0xefu8, 0xd4u8, 0x80u8, 0x56u8, 0xc8u8, 0xc1u8, 0x21u8, 0xbdu8, 0xb8u8,
    ]
}

/// Whether `e(p, q) == e(r, s)` for encoded points `p`, `r` of G1 and
/// `q`, `s` of G2: the pairing of the negated `p` with `q`, times the
/// pairing of `r` with `s`, is the identity.
pub open spec fn pairings_agree(p: Seq<u8>, q: Seq<u8>, r: Seq<u8>, s: Seq<u8>) -> bool {
    pairing_product_is_identity(g1_negation(p), q, r, s)
}

/// `G1Affine::from_compressed`, asked only whether it accepts: it does
/// so exactly for the encodings of points on the curve that lie in
/// the subgroup.
#[verifier::external_body]
fn g1_from_compressed_accepts(bytes: &[u8]) -> (ok: bool)
    requires
        bytes@.len() == 48,
    ensures
        ok == is_g1_encoding(bytes@),
{
    let repr: [u8; 48] = bytes.try_into().unwrap();
    G1Affine::from_compressed(&repr).is_some().into()
}

/// `G2Affine::from_compressed`, asked only whether it accepts: it does
/// so exactly for the encodings of points on the curve that lie in
/// the subgroup.
#[verifier::external_body]
fn g2_from_compressed_accepts(bytes: &[u8]) -> (ok: bool)
    requires
        bytes@.len() == 96,
    ensures
        ok == is_g2_encoding(bytes@),
{
    let repr: [u8; 96] = bytes.try_into().unwrap();
    G2Affine::from_compressed(&repr).is_some().into()
}

/// `G1Affine::generator`, compressed. The encoding is the second
/// entry of the table of compressed G1 test vectors that `bls12_381`
/// ships with.
#[verifier::external_body]
fn g1_generator_compressed() -> (out: Vec<u8>)
    ensures
        out@ == g1_generator_encoding(),
        is_g1_encoding(out@),
{
    G1Affine::generator().to_compressed().to_vec()
}

/// `G2Affine::generator`, compressed. The encoding is the second
/// entry of the table of compressed G2 test vectors that `bls12_381`
/// ships with.
#[verifier::external_body]
fn g2_generator_compressed() -> (out: Vec<u8>)
    ensures
        out@ == g2_generator_encoding(),
        is_g2_encoding(out@),
{
    G2Affine::generator().to_compressed().to_vec()
}

/// `hash_to_curve` of `G1Projective` with `ExpandMsgXmd<Sha256>`, made
/// affine and compressed. The result depends on the message and the
/// tag alone and is a point of G1; no input makes the call fail.
#[verifier::external_body]
fn g1_hash_to_curve(message: &[u8], dst: &[u8]) -> (out: Vec<u8>)
    ensures
        out@ == g1_hashed(message@, dst@),
        out@.len() == 48,
        is_g1_encoding(out@),
{
    let point = <G1Projective as HashToCurve<ExpandMsgXmd<Sha256>>>::hash_to_curve(message, dst);
    point.to_affine().to_compressed().to_vec()
}

/// `hash_to_curve` of `G2Projective` with `ExpandMsgXmd<Sha256>`, made
/// affine and compressed. The result depends on the message and the
/// tag alone and is a point of G2; no input makes the call fail.
#[verifier::external_body]
fn g2_hash_to_curve(message: &[u8], dst: &[u8]) -> (out: Vec<u8>)
    ensures
        out@ == g2_hashed(message@, dst@),
        out@.len() == 96,
        is_g2_encoding(out@),
{
    let point = <G2Projective as HashToCurve<ExpandMsgXmd<Sha256>>>::hash_to_curve(message, dst);
    point.to_affine().to_compressed().to_vec()
}

/// Negation of a `G1Affine`, from encoding to encoding. The negation
/// of a point of G1 is a point of G1.
#[verifier::external_body]
fn g1_negate(point: &[u8]) -> (out: Vec<u8>)
    requires
        point@.len() == 48,
        is_g1_encoding(point@),
    ensures
        out@ == g1_negation(point@),
        out@.len() == 48,
        is_g1_encoding(out@),
{
    let repr: [u8; 48] = point.try_into().unwrap();
    (-G1Affine::from_compressed(&repr).unwrap()).to_compressed().to_vec()
}

/// `Bls12::multi_miller_loop` over the two pairs `(a, b)` and
/// `(c, d)`, then `final_exponentiation` of its result, then
/// `is_identity` of that: whether the product of the two pairings is
/// the identity. The values in between have no encoding as bytes, so
/// the three calls stand together. The answer depends on the four
/// points alone.
#[verifier::external_body]
fn miller_loop_is_identity(a: &[u8], b: &[u8], c: &[u8], d: &[u8]) -> (ok: bool)
    requires
        a@.len() == 48 && is_g1_encoding(a@),
        b@.len() == 96 && is_g2_encoding(b@),
        c@.len() == 48 && is_g1_encoding(c@),
        d@.len() == 96 && is_g2_encoding(d@),
    ensures
        ok == pairing_product_is_identity(a@, b@, c@, d@),
{
    let a = G1Affine::from_compressed(&a.try_into().unwrap()).unwrap();
    let b = G2Prepared::from(G2Affine::from_compressed(&b.try_into().unwrap()).unwrap());
    let c = G1Affine::from_compressed(&c.try_into().unwrap()).unwrap();
    let d = G2Prepared::from(G2Affine::from_compressed(&d.try_into().unwrap()).unwrap());
    let looped = Bls12::multi_miller_loop(&[(&a, &b), (&c, &d)]);
    looped.final_exponentiation().is_identity().into()
}

/// A point of G1, held as its compressed encoding.
pub struct G1Point {
    bytes: Vec<u8>,
}

/// A point of G2, held as its compressed encoding.
pub struct G2Point {
    bytes: Vec<u8>,
}

impl View for G1Point {
    type V = Seq<u8>;

    closed spec fn view(&self) -> Seq<u8> {
        self.bytes@
    }
}

impl View for G2Point {
    type V = Seq<u8>;

    closed spec fn view(&self) -> Seq<u8> {
        self.bytes@
    }
}

impl G1Point {
    #[verifier::type_invariant]
    spec fn well_formed(&self) -> bool {
        &&& self.bytes@.len() == 48
        &&& is_g1_encoding(self.bytes@)
    }

    /// The point that `bytes` encode, or `None` where they are not 48
    /// bytes that encode a point of G1.
    pub fn from_compressed(bytes: &[u8]) -> (r: Option<G1Point>)
        ensures
            r.is_some() == (bytes@.len() == 48 && is_g1_encoding(bytes@)),
            r matches Some(point) ==> point@ == bytes@,
    {
        if bytes.len() != G1_COMPRESSED_LEN {
            return None;
        }
        if g1_from_compressed_accepts(bytes) {
            Some(G1Point { bytes: slice_to_vec(bytes) })
        } else {
            None
        }
    }

    /// The fixed generator of G1.
    pub fn generator() -> (g: G1Point)
        ensures
            g@ == g1_generator_encoding(),
    {
        G1Point { bytes: g1_generator_compressed() }
    }

    /// The compressed encoding of the point.
    pub fn to_compressed(&self) -> (bytes: Vec<u8>)
        ensures
            bytes@ == self@,
    {
        slice_to_vec(self.bytes.as_slice())
    }

    /// The negation of the point.
    pub fn negated(&self) -> (n: G1Point)
        ensures
            n@ == g1_negation(self@),
    {
        proof {
            use_type_invariant(self);
        }
        G1Point { bytes: g1_negate(self.bytes.as_slice()) }
    }
}

impl G2Point {
    #[verifier::type_invariant]
    spec fn well_formed(&self) -> bool {
        &&& self.bytes@.len() == 96
        &&& is_g2_encoding(self.bytes@)
    }

    /// The point that `bytes` encode, or `None` where they are not 96
    /// bytes that encode a point of G2.
    pub fn from_compressed(bytes: &[u8]) -> (r: Option<G2Point>)
        ensures
            r.is_some() == (bytes@.len() == 96 && is_g2_encoding(bytes@)),
            r matches Some(point) ==> point@ == bytes@,
    {
        if bytes.len() != G2_COMPRESSED_LEN {
            return None;
        }
        if g2_from_compressed_accepts(bytes) {
            Some(G2Point { bytes: slice_to_vec(bytes) })
        } else {
            None
        }
    }

    /// The fixed generator of G2.
    pub fn generator() -> (g: G2Point)
        ensures
            g@ == g2_generator_encoding(),
    {
        G2Point { bytes: g2_generator_compressed() }
    }

    /// The compressed encoding of the point.
    pub fn to_compressed(&self) -> (bytes: Vec<u8>)
        ensures
            bytes@ == self@,
    {
        slice_to_vec(self.bytes.as_slice())
    }
}

/// Hashes a message onto G1 under a domain-separation tag.
pub fn hash_to_g1(message: &[u8], dst: &[u8]) -> (point: G1Point)
    ensures
        point@ == g1_hashed(message@, dst@),
{
    G1Point { bytes: g1_hash_to_curve(message, dst) }
}

/// Hashes a message onto G2 under a domain-separation tag.
pub fn hash_to_g2(message: &[u8], dst: &[u8]) -> (point: G2Point)
    ensures
        point@ == g2_hashed(message@, dst@),
{
    G2Point { bytes: g2_hash_to_curve(message, dst) }
}

/// Whether `e(p, q) == e(r, s)`. One point of G1 is negated, one
/// Miller loop runs over both pairs, and a single final
/// exponentiation is tested against the identity.
pub fn fast_pairing_equality(p: &G1Point, q: &G2Point, r: &G1Point, s: &G2Point) -> (ok: bool)
    ensures
        ok == pairings_agree(p@, q@, r@, s@),
{
    let minus_p = p.negated();
    proof {
        use_type_invariant(&minus_p);
        use_type_invariant(q);
        use_type_invariant(r);
        use_type_invariant(s);
    }
    miller_loop_is_identity(
        minus_p.bytes.as_slice(),
        q.bytes.as_slice(),
        r.bytes.as_slice(),
        s.bytes.as_slice(),
    )
}

} // verus!
