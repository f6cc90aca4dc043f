//! The two signature schemes and the groups they assign.

use vstd::prelude::*;

verus! {

/// One of the two groups of BLS12-381 that carry points.
#[derive(Debug, Clone, Copy, PartialEq, Eq, Structural)]
pub enum CurveGroup {
    G1,
    G2,
}

impl CurveGroup {
    /// Length in bytes of a compressed point of the group.
    pub open spec fn spec_compressed_len(self) -> usize {
        match self {
            CurveGroup::G1 => 48,
            CurveGroup::G2 => 96,
        }
    }

    /// Length in bytes of a compressed point of the group.
    #[verifier::when_used_as_spec(spec_compressed_len)]
    pub fn compressed_len(self) -> (len: usize)
        ensures
            len == self.spec_compressed_len(),
    {
        match self {
            CurveGroup::G1 => 48,
            CurveGroup::G2 => 96,
        }
    }
}

/// Which group carries the signatures and which the public keys.
/// The two choices are never independent: the scheme fixes both.
#[derive(Debug, Clone, Copy, PartialEq, Eq, Structural)]
pub enum SignatureScheme {
    /// Signatures in G1, public keys in G2.
    MinSig,
    /// Signatures in G2, public keys in G1.
    MinPk,
}

impl SignatureScheme {
    /// The scheme of a client that was asked for by the flag
    /// "use quicknet".
    pub open spec fn spec_from_quicknet_flag(use_quicknet: bool) -> SignatureScheme {
        if use_quicknet {
            SignatureScheme::MinSig
        } else {
            SignatureScheme::MinPk
        }
    }

    /// The scheme of a client that was asked for by the flag
    /// "use quicknet".
    #[verifier::when_used_as_spec(spec_from_quicknet_flag)]
    pub fn from_quicknet_flag(use_quicknet: bool) -> (scheme: SignatureScheme)
        ensures
            scheme == Self::spec_from_quicknet_flag(use_quicknet),
    {
        if use_quicknet {
            SignatureScheme::MinSig
        } else {
            SignatureScheme::MinPk
        }
    }

    /// The scheme that this one is not.
    pub open spec fn other(self) -> SignatureScheme {
        match self {
            SignatureScheme::MinSig => SignatureScheme::MinPk,
            SignatureScheme::MinPk => SignatureScheme::MinSig,
        }
    }

    /// The group that signatures of this scheme lie in.
    pub open spec fn spec_signature_group(self) -> CurveGroup {
        match self {
            SignatureScheme::MinSig => CurveGroup::G1,
            SignatureScheme::MinPk => CurveGroup::G2,
        }
    }

    /// The group that signatures of this scheme lie in.
    #[verifier::when_used_as_spec(spec_signature_group)]
    pub fn signature_group(self) -> (group: CurveGroup)
        ensures
            group == self.spec_signature_group(),
    {
        match self {
            SignatureScheme::MinSig => CurveGroup::G1,
            SignatureScheme::MinPk => CurveGroup::G2,
        }
    }

    /// The group that public keys of this scheme lie in.
    pub open spec fn spec_public_key_group(self) -> CurveGroup {
        match self {
            SignatureScheme::MinSig => CurveGroup::G2,
            SignatureScheme::MinPk => CurveGroup::G1,
        }
    }

    /// The group that public keys of this scheme lie in.
    #[verifier::when_used_as_spec(spec_public_key_group)]
    pub fn public_key_group(self) -> (group: CurveGroup)
        ensures
            group == self.spec_public_key_group(),
    {
        match self {
            SignatureScheme::MinSig => CurveGroup::G2,
            SignatureScheme::MinPk => CurveGroup::G1,
        }
    }
}

} // verus!
