//! Semantic claim checks against a provider's trust policy.

use vstd::prelude::*;

use crate::errors::ValidationError;
use crate::json::json_str_field;
use crate::json::json_str_list_field;
use crate::json::json_get_str;
use crate::json::json_get_str_list;
use crate::jwk::bytes_eq;

verus! {

/// The trust parameters of one identity provider: its trusted issuer and
/// audience values, and the names of the claims that carry the subject
/// and the destination address.
pub struct ProviderPolicy {
    pub issuer: Vec<u8>,
    pub audience: Vec<u8>,
    pub subject_claim: String,
    pub address_claim: String,
}

/// The model of a policy: issuer and audience as UTF-8 bytes, claim names
/// as text.
pub ghost struct PolicyModel {
    pub issuer: Seq<u8>,
    pub audience: Seq<u8>,
    pub subject_claim: Seq<char>,
    pub address_claim: Seq<char>,
}

impl View for ProviderPolicy {
    type V = PolicyModel;

    open spec fn view(&self) -> PolicyModel {
        PolicyModel {
            issuer: self.issuer@,
            audience: self.audience@,
            subject_claim: self.subject_claim@,
            address_claim: self.address_claim@,
        }
    }
}

/// The two claims that a successful validation extracts.
#[derive(Debug, PartialEq, Eq)]
pub struct ValidationResult {
    /// The subject claim's value; the claim identifier is its digest.
    pub subject_claim: Vec<u8>,
    /// The claim value naming the destination address.
    pub signer_address_claim: Vec<u8>,
}

/// The model of a validation result.
pub ghost struct ClaimsModel {
    pub subject_claim: Seq<u8>,
    pub signer_address_claim: Seq<u8>,
}

impl View for ValidationResult {
    type V = ClaimsModel;

    open spec fn view(&self) -> ClaimsModel {
        ClaimsModel {
            subject_claim: self.subject_claim@,
            signer_address_claim: self.signer_address_claim@,
        }
    }
}

/// Whether the payload's audience claim equals the trusted audience, or
/// is an array of strings containing it.
pub open spec fn spec_aud_ok(payload: Seq<u8>, audience: Seq<u8>) -> bool {
    ||| json_str_field(payload, "aud"@) == Some(audience)
    ||| match json_str_list_field(payload, "aud"@) {
        Some(l) => l.contains(audience),
        None => false,
    }
}

/// The claims a payload yields under a policy: its issuer claim must
/// equal the trusted issuer, its audience claim must equal or contain the
/// trusted audience, its subject claim must be present and non-empty, and
/// its address claim must be present.  The first failing check names the
/// error.
pub open spec fn spec_claims_result(payload: Seq<u8>, policy: PolicyModel) -> Result<
    ClaimsModel,
    ValidationError,
> {
    if json_str_field(payload, "iss"@) != Some(policy.issuer) {
        Err(ValidationError::IssuerMismatch)
    } else if !spec_aud_ok(payload, policy.audience) {
        Err(ValidationError::AudienceMismatch)
    } else {
        match json_str_field(payload, policy.subject_claim) {
            Some(subject) => if subject.len() == 0 {
                Err(ValidationError::MissingSubjectClaim)
            } else {
                match json_str_field(payload, policy.address_claim) {
                    Some(address) => Ok(
                        ClaimsModel { subject_claim: subject, signer_address_claim: address },
                    ),
                    None => Err(ValidationError::MalformedAddressClaim),
                }
            },
            None => Err(ValidationError::MissingSubjectClaim),
        }
    }
}

/// Whether `needle` is among the byte strings of `hay`.
fn contains_bytes(hay: &Vec<Vec<u8>>, needle: &[u8]) -> (r: bool)
    ensures
        r == hay.deep_view().contains(needle@),
{
    let n = hay.len();
    let mut i: usize = 0;
    while i < n
        invariant
            i <= n,
            n == hay@.len(),
            hay.deep_view().len() == n,
            forall|k: int| 0 <= k < i ==> hay.deep_view()[k] != needle@,
        decreases n - i,
    {
        assert(hay.deep_view()[i as int] == hay@[i as int]@);
        if bytes_eq(hay[i].as_slice(), needle) {
            return true;
        }
        i = i + 1;
    }
    false
}

/// Checks the payload's claims against a policy and extracts the subject
/// and address claims.
pub fn validate_claims(payload: &[u8], policy: &ProviderPolicy) -> (r: Result<
    ValidationResult,
    ValidationError,
>)
    ensures
        match r {
            Ok(v) => spec_claims_result(payload@, policy@) == Ok::<ClaimsModel, ValidationError>(
                v@,
            ),
            Err(e) => spec_claims_result(payload@, policy@) == Err::<
                ClaimsModel,
                ValidationError,
            >(e),
        },
{
    let iss_ok = match json_get_str(payload, "iss") {
        Some(iss) => bytes_eq(iss.as_slice(), policy.issuer.as_slice()),
        None => false,
    };
    if !iss_ok {
        return Err(ValidationError::IssuerMismatch);
    }
    let aud_ok = match json_get_str(payload, "aud") {
        Some(aud) => bytes_eq(aud.as_slice(), policy.audience.as_slice()),
        None => false,
    };
    let aud_ok = aud_ok || match json_get_str_list(payload, "aud") {
        Some(l) => contains_bytes(&l, policy.audience.as_slice()),
        None => false,
    };
    if !aud_ok {
        return Err(ValidationError::AudienceMismatch);
    }
    let subject = match json_get_str(payload, policy.subject_claim.as_str()) {
        Some(s) => s,
        None => {
            return Err(ValidationError::MissingSubjectClaim);
        },
    };
    if subject.len() == 0 {
        return Err(ValidationError::MissingSubjectClaim);
    }
    let address = match json_get_str(payload, policy.address_claim.as_str()) {
        Some(a) => a,
        None => {
            return Err(ValidationError::MalformedAddressClaim);
        },
    };
    Ok(ValidationResult { subject_claim: subject, signer_address_claim: address })
}

} // verus!
