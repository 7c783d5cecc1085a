//! The closed set of reasons for which a validation call is rejected.

use vstd::prelude::*;

verus! {

/// A terminal failure of one validation call.  Every variant aborts the
/// whole call: no partial output is ever produced beside one of these.
#[derive(Clone, Copy, Debug, PartialEq, Eq, Structural)]
pub enum ValidationError {
    /// The token does not have exactly three segments, a segment is not
    /// base64url, or a decoded segment is not a JSON document.
    MalformedToken,
    /// The header declares an algorithm that is not on the allow-list
    /// (only RSA-SHA256 is accepted), or declares none.
    UnsupportedAlgorithm,
    /// No key of the set matches the token's key id, or the token has no
    /// key id and no key of the set verifies its signature.
    KeyNotFound,
    /// The selected key does not verify the signature.
    SignatureInvalid,
    /// The issuer claim is absent or differs from the provider's trusted
    /// issuer.
    IssuerMismatch,
    /// The audience claim is absent, and neither equals nor contains the
    /// provider's trusted audience.
    AudienceMismatch,
    /// The designated subject claim is absent or empty.
    MissingSubjectClaim,
    /// The designated address claim is not a checksummed 20-byte address.
    MalformedAddressClaim,
    /// The provider selector is not in the closed set.
    UnsupportedProvider,
    /// The supplied key material does not parse as a JSON Web Key Set.
    MalformedKeySet,
}

impl ValidationError {
    /// A short description, in place of a `Display` impl.
    pub fn message(&self) -> &'static str {
        match self {
            ValidationError::MalformedToken => "malformed token",
            ValidationError::UnsupportedAlgorithm => "unsupported algorithm",
            ValidationError::KeyNotFound => "key not found",
            ValidationError::SignatureInvalid => "signature invalid",
            ValidationError::IssuerMismatch => "issuer mismatch",
            ValidationError::AudienceMismatch => "audience mismatch",
            ValidationError::MissingSubjectClaim => "missing subject claim",
            ValidationError::MalformedAddressClaim => "malformed address claim",
            ValidationError::UnsupportedProvider => "unsupported provider",
            ValidationError::MalformedKeySet => "malformed key set",
        }
    }
}

} // verus!
