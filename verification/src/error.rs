//! The ways in which building a client or verifying a beacon fails.

use vstd::prelude::*;
use crate::scheme::SignatureScheme;

verus! {

/// A typed failure. Nothing is retried and nothing is recovered from
/// silently: each failure is handed to the caller as one of these.
#[derive(Debug, Clone, PartialEq, Eq)]
pub enum DrandError {
    /// The chain's period is zero, so no round schedule exists.
    InvalidPeriod,
    /// The public key is not hex, has the wrong length for its group,
    /// or is not a point of the group.
    InvalidKeyEncoding,
    /// The signature is not hex or has the wrong length for the scheme.
    InvalidSignatureEncoding,
    /// The previous signature is to be signed over but is not hex.
    InvalidPreviousSignatureEncoding,
    /// The signature does not prove the message under the public key.
    SignatureInvalid { scheme: SignatureScheme },
    /// The randomness is not the SHA-256 digest of the signature.
    RandomnessMismatch,
}

impl DrandError {
    /// What went wrong, in words.
    pub open spec fn spec_message(self) -> Seq<char> {
        match self {
            DrandError::InvalidPeriod => "the period of the chain is zero"@,
            DrandError::InvalidKeyEncoding => "invalid public key encoding"@,
            DrandError::InvalidSignatureEncoding => "invalid signature encoding"@,
            DrandError::InvalidPreviousSignatureEncoding => "invalid previous signature encoding"@,
            DrandError::SignatureInvalid { scheme: SignatureScheme::MinSig } =>
                "signature verification failed (signatures in G1)"@,
            DrandError::SignatureInvalid { scheme: SignatureScheme::MinPk } =>
                "signature verification failed (signatures in G2)"@,
            DrandError::RandomnessMismatch => "randomness doesn't match signature hash"@,
        }
    }

    /// What went wrong, in words.
    pub fn message(&self) -> (text: String)
        ensures
            text@ == self.spec_message(),
    {
        match self {
            DrandError::InvalidPeriod => "the period of the chain is zero".to_owned(),
            DrandError::InvalidKeyEncoding => "invalid public key encoding".to_owned(),
            DrandError::InvalidSignatureEncoding => "invalid signature encoding".to_owned(),
            DrandError::InvalidPreviousSignatureEncoding =>
                "invalid previous signature encoding".to_owned(),
            DrandError::SignatureInvalid { scheme: SignatureScheme::MinSig } =>
                "signature verification failed (signatures in G1)".to_owned(),
            DrandError::SignatureInvalid { scheme: SignatureScheme::MinPk } =>
                "signature verification failed (signatures in G2)".to_owned(),
            DrandError::RandomnessMismatch => "randomness doesn't match signature hash".to_owned(),
        }
    }
}

} // verus!
