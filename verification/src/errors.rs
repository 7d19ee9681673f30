use vstd::prelude::*;

verus! {

/// Every failure is terminal for the signature under evaluation: a value of
/// this type is a hard rejection, never a transient condition.
#[derive(Clone, Copy, Debug, PartialEq, Eq, Structural)]
pub enum ZkIdError {
    /// The token structure is malformed (bad base64url, bad UTF-8, bad JSON,
    /// or a missing required claim).
    ClaimsParseError,
    /// The token is structurally valid but violates identity or claim policy.
    ClaimsPolicyError,
    /// An input to the identity-commitment hash exceeds its fixed size bound.
    HashingError,
    /// The ephemeral public key's byte encoding exceeds its fixed size bound.
    EncodingError,
    /// The provider's signature over the token did not verify.
    SignatureInvalid,
    /// The zero-knowledge proof did not verify.
    ProofInvalid,
    /// The signature's expiry timestamp lies in the past.
    Expired,
    /// Canonical bytes at the boundary are malformed.
    DeserializationError,
}

impl ZkIdError {
    /// A short human-readable description of the failure.
    pub fn message(&self) -> (r: &'static str)
        ensures r@.len() > 0,
    {
        let r = match self {
            ZkIdError::ClaimsParseError => "malformed token structure",
            ZkIdError::ClaimsPolicyError => "claim policy violation",
            ZkIdError::HashingError => "commitment input exceeds its size bound",
            ZkIdError::EncodingError => "ephemeral key encoding exceeds its size bound",
            ZkIdError::SignatureInvalid => "provider signature did not verify",
            ZkIdError::ProofInvalid => "zero-knowledge proof did not verify",
            ZkIdError::Expired => "signature is expired",
            ZkIdError::DeserializationError => "malformed canonical bytes",
        };
        proof {
            reveal_strlit("malformed token structure");
            reveal_strlit("claim policy violation");
            reveal_strlit("commitment input exceeds its size bound");
            reveal_strlit("ephemeral key encoding exceeds its size bound");
            reveal_strlit("provider signature did not verify");
            reveal_strlit("zero-knowledge proof did not verify");
            reveal_strlit("signature is expired");
            reveal_strlit("malformed canonical bytes");
        }
        r
    }
}

} // verus!
