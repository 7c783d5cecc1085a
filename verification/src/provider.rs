//! The closed set of identity providers and the validation pipeline.
//!
//! Each provider carries its trusted issuer and audience, the names of
//! the claims it extracts, and an embedded key set used when the caller
//! supplies none.  Validation runs decode, key selection, signature
//! verification and claim checks in that fixed order, stopping at the
//! first failure.

use vstd::prelude::*;

use vstd::utf8::encode_utf8;
use vstd::slice::slice_to_vec;
use vstd::string::StringSliceAdditionalSpecFns;

use crate::claims::ClaimsModel;
use crate::claims::PolicyModel;
use crate::claims::ProviderPolicy;
use crate::claims::ValidationResult;
use crate::claims::spec_claims_result;
use crate::claims::validate_claims;
use crate::crypto::rs256_verifies;
use crate::crypto::rs256_verify;
use crate::errors::ValidationError;
use crate::json::json_str_field;
use crate::json::json_get_str;
use crate::jwk::JwkKeys;
use crate::jwk::JwkModel;
use crate::jwk::spec_find_kid;
use crate::jwk::spec_find_verifying;
use crate::jwk::spec_parse_keys;
use crate::jwk::bytes_eq;
use crate::token::DecodedToken;
use crate::token::spec_decode_token;

verus! {

/// One supported identity provider.
#[derive(Clone, Copy, Debug, PartialEq, Eq, Structural)]
pub enum IdentityProvider {
    Google,
    Test,
}

/// The embedded key set snapshot of the Google provider.
pub closed spec fn spec_google_doc() -> Seq<u8> {
    encode_utf8("{\"keys\":[{\"alg\":\"RS256\",\"kty\":\"RSA\",\"use\":\"sig\",\"kid\":\"4529c409f77a106fb67ee1a85d168fd2cfb7c0b7\",\"e\":\"AQAB\",\"n\":\"1crrYmsX8OVzrN9BTDD4RlVJDqSQIEbRby9ELqTmCpW1Qtt7y-pdmLPqlYG1ND5mprkTA83S7g_dcsxuV4wxK4_Vv5a8IBn86HfAX4VfCCOzqBYgACN6hlaffzPIWL1QA8yZ4w-D0fnN3xC5ULhtmtBG23qi__4yEo_FIY6irvbHrpRNI_-vjxFokm2X3ENP2ZOwgNhDIthwJo8l1KNbZa1riAJVcF86zWILQTy756hh8eH1Kt05wsGB3DeGPNV55zYv6sB2bzxARsVYAtCRJ8c28FYWwU8dCRJ70eJEmY4aKFOBO5g4fwYJlvMm9Le7qgAUH5-7wO52BayqXmqAOQ\"},{\"use\":\"sig\",\"n\":\"onV5tzUbqyPfkM6MwUqCtrqun9x20hEUbIUlmAYYuPuMhsaNHJqs1AVzRt2TzaNjmPVddEbU7VMDmeFWUt7vgDi7Xu0leevuIN4VSPbAMGBa0oj9Qopqkn9ePO_7DvIN13ktHgfQqatNBu6uXH6zkUl3VtXnubXrUhx7uyF22dARDc1-pJoj2NnsvgxDRElPMyDkU-siVv3c6cgIEwLEZZPWOcwplPTUB4qeTK6prrPBGQshuE1PWK2ZrYpIvXfzHyEbkGdPnrhcxgCzbKBUFvr8n_sfSurLRoDBLjkURKmgB8T8iRzLyXsCu9D3Hw61LKuex1aeSQLdwOFLuUEBdw\",\"kid\":\"d2d444cf8c5e3ae8386d66a13a316976aa369991\",\"kty\":\"RSA\",\"e\":\"AQAB\",\"alg\":\"RS256\"}]}"@)
}

/// The embedded key set of the Test provider.
pub closed spec fn spec_test_doc() -> Seq<u8> {
    encode_utf8("{\"keys\":[{\"alg\":\"RS256\",\"e\":\"AQAB\",\"kty\":\"RSA\",\"n\":\"y-jiMQRB9zDOYbIaCoA4ppJ4prXbLhsM6upxCiip_6niQM_LHcCZxt_cFe88yi29Rgj1iEkOIJgXosydJLAtiOJHh1n7-FdSWEgKn3EfzI_VSncT2jnW6r3TtApzmHdDQnZmRKLB4mGXvnkwK-xzkpTRRM8r-m2A9dAylx0mGMqUabYYNg0n8x3EFG9ciFI5c3JwmMm8bHDw8BkhiHtG09nr7FkrEpn4tbhX9d7OeL-rbYLb2_H49BSX9L4O1vCOqf0cQMpSfhWiw7UjLjECzKlo0HNtELrpubBQbgZc9UbNlfCiaK4QO_fLog_YhY5Taxu05MViQvV_rxCi4ZwddQ\",\"use\":\"sig\",\"kid\":\"8792e7c2a2b7c1ab924e158a4ec4cf51\"}]}"@)
}

/// The embedded key set document of a provider.
pub open spec fn spec_default_doc(p: IdentityProvider) -> Seq<u8> {
    match p {
        IdentityProvider::Google => spec_google_doc(),
        IdentityProvider::Test => spec_test_doc(),
    }
}

/// The trust policy of a provider.
pub open spec fn spec_policy(p: IdentityProvider) -> PolicyModel {
    match p {
        IdentityProvider::Google => PolicyModel {
            issuer: encode_utf8("https://accounts.google.com"@),
            audience: encode_utf8("example-client-id.apps.googleusercontent.com"@),
            subject_claim: "email"@,
            address_claim: "nonce"@,
        },
        IdentityProvider::Test => PolicyModel {
            issuer: encode_utf8("test-issuer"@),
            audience: encode_utf8("test-audience"@),
            subject_claim: "sub"@,
            address_claim: "sub"@,
        },
    }
}

/// The provider selected by a 256-bit provider code, or `None` when the
/// code is outside the closed set.
pub open spec fn spec_provider_of(lo: u128, hi: u128) -> Option<IdentityProvider> {
    if hi == 0 && lo == 0 {
        Some(IdentityProvider::Google)
    } else if hi == 0 && lo == 1 {
        Some(IdentityProvider::Test)
    } else {
        None
    }
}

/// The algorithm allow-list: the one accepted value of the header's
/// algorithm claim.
pub open spec fn spec_allowed_alg() -> Seq<u8> {
    encode_utf8("RS256"@)
}

/// The outcome of validating a token against a key set under a policy:
/// decode, algorithm allow-list, key selection, signature verification
/// and claim checks, in that fixed order, stopping at the first failure.
/// A token with a key id claim selects the first key of that id; one
/// without falls back to the first key that verifies the signature.
pub open spec fn spec_validate(jwt: Seq<u8>, keys: Seq<JwkModel>, policy: PolicyModel) -> Result<
    ClaimsModel,
    ValidationError,
> {
    match spec_decode_token(jwt) {
        None => Err(ValidationError::MalformedToken),
        Some(t) => {
            if json_str_field(t.header, "alg"@) != Some(spec_allowed_alg()) {
                Err(ValidationError::UnsupportedAlgorithm)
            } else {
                match json_str_field(t.header, "kid"@) {
                    Some(kid) => match spec_find_kid(keys, kid) {
                        None => Err(ValidationError::KeyNotFound),
                        Some(i) => if rs256_verifies(
                            keys[i].modulus,
                            keys[i].exponent,
                            t.signing_input,
                            t.signature,
                        ) {
                            spec_claims_result(t.payload, policy)
                        } else {
                            Err(ValidationError::SignatureInvalid)
                        },
                    },
                    None => match spec_find_verifying(keys, t.signing_input, t.signature) {
                        None => Err(ValidationError::KeyNotFound),
                        Some(i) => spec_claims_result(t.payload, policy),
                    },
                }
            }
        },
    }
}

/// Whether an executable validation outcome carries exactly the modelled
/// outcome.
pub open spec fn spec_outcome_matches(
    r: Result<ValidationResult, ValidationError>,
    m: Result<ClaimsModel, ValidationError>,
) -> bool {
    match (r, m) {
        (Ok(v), Ok(c)) => v@ == c,
        (Err(e1), Err(e2)) => e1 == e2,
        _ => false,
    }
}

impl IdentityProvider {
    /// The provider selected by a 256-bit provider code.
    pub fn from_selector(lo: u128, hi: u128) -> (r: Result<IdentityProvider, ValidationError>)
        ensures
            match r {
                Ok(p) => spec_provider_of(lo, hi) == Some(p),
                Err(e) => e == ValidationError::UnsupportedProvider && spec_provider_of(lo, hi)
                    is None,
            },
    {
        if hi == 0 && lo == 0 {
            Ok(IdentityProvider::Google)
        } else if hi == 0 && lo == 1 {
            Ok(IdentityProvider::Test)
        } else {
            Err(ValidationError::UnsupportedProvider)
        }
    }

    /// The provider's trust policy.
    pub fn policy(&self) -> (r: ProviderPolicy)
        ensures
            r@ == spec_policy(*self),
    {
        match self {
            IdentityProvider::Google => ProviderPolicy {
                issuer: slice_to_vec("https://accounts.google.com".as_bytes()),
                audience: slice_to_vec("example-client-id.apps.googleusercontent.com".as_bytes()),
                subject_claim: "email".to_owned(),
                address_claim: "nonce".to_owned(),
            },
            IdentityProvider::Test => ProviderPolicy {
                issuer: slice_to_vec("test-issuer".as_bytes()),
                audience: slice_to_vec("test-audience".as_bytes()),
                subject_claim: "sub".to_owned(),
                address_claim: "sub".to_owned(),
            },
        }
    }

    /// The provider's embedded key set document.
    pub fn default_doc(&self) -> (r: &'static str)
        ensures
            r.spec_bytes() == spec_default_doc(*self),
    {
        match self {
            IdentityProvider::Google => "{\"keys\":[{\"alg\":\"RS256\",\"kty\":\"RSA\",\"use\":\"sig\",\"kid\":\"4529c409f77a106fb67ee1a85d168fd2cfb7c0b7\",\"e\":\"AQAB\",\"n\":\"1crrYmsX8OVzrN9BTDD4RlVJDqSQIEbRby9ELqTmCpW1Qtt7y-pdmLPqlYG1ND5mprkTA83S7g_dcsxuV4wxK4_Vv5a8IBn86HfAX4VfCCOzqBYgACN6hlaffzPIWL1QA8yZ4w-D0fnN3xC5ULhtmtBG23qi__4yEo_FIY6irvbHrpRNI_-vjxFokm2X3ENP2ZOwgNhDIthwJo8l1KNbZa1riAJVcF86zWILQTy756hh8eH1Kt05wsGB3DeGPNV55zYv6sB2bzxARsVYAtCRJ8c28FYWwU8dCRJ70eJEmY4aKFOBO5g4fwYJlvMm9Le7qgAUH5-7wO52BayqXmqAOQ\"},{\"use\":\"sig\",\"n\":\"onV5tzUbqyPfkM6MwUqCtrqun9x20hEUbIUlmAYYuPuMhsaNHJqs1AVzRt2TzaNjmPVddEbU7VMDmeFWUt7vgDi7Xu0leevuIN4VSPbAMGBa0oj9Qopqkn9ePO_7DvIN13ktHgfQqatNBu6uXH6zkUl3VtXnubXrUhx7uyF22dARDc1-pJoj2NnsvgxDRElPMyDkU-siVv3c6cgIEwLEZZPWOcwplPTUB4qeTK6prrPBGQshuE1PWK2ZrYpIvXfzHyEbkGdPnrhcxgCzbKBUFvr8n_sfSurLRoDBLjkURKmgB8T8iRzLyXsCu9D3Hw61LKuex1aeSQLdwOFLuUEBdw\",\"kid\":\"d2d444cf8c5e3ae8386d66a13a316976aa369991\",\"kty\":\"RSA\",\"e\":\"AQAB\",\"alg\":\"RS256\"}]}",
            IdentityProvider::Test => "{\"keys\":[{\"alg\":\"RS256\",\"e\":\"AQAB\",\"kty\":\"RSA\",\"n\":\"y-jiMQRB9zDOYbIaCoA4ppJ4prXbLhsM6upxCiip_6niQM_LHcCZxt_cFe88yi29Rgj1iEkOIJgXosydJLAtiOJHh1n7-FdSWEgKn3EfzI_VSncT2jnW6r3TtApzmHdDQnZmRKLB4mGXvnkwK-xzkpTRRM8r-m2A9dAylx0mGMqUabYYNg0n8x3EFG9ciFI5c3JwmMm8bHDw8BkhiHtG09nr7FkrEpn4tbhX9d7OeL-rbYLb2_H49BSX9L4O1vCOqf0cQMpSfhWiw7UjLjECzKlo0HNtELrpubBQbgZc9UbNlfCiaK4QO_fLog_YhY5Taxu05MViQvV_rxCi4ZwddQ\",\"use\":\"sig\",\"kid\":\"8792e7c2a2b7c1ab924e158a4ec4cf51\"}]}",
        }
    }

    /// Validates a token against an explicit key set.
    fn validate_with(&self, jwt: &[u8], keys: &JwkKeys) -> (r: Result<
        ValidationResult,
        ValidationError,
    >)
        ensures
            spec_outcome_matches(r, spec_validate(jwt@, keys@, spec_policy(*self))),
    {
        let token = match DecodedToken::decode(jwt) {
            Ok(t) => t,
            Err(e) => {
                return Err(e);
            },
        };
        let alg_ok = match json_get_str(token.header.as_slice(), "alg") {
            Some(alg) => bytes_eq(alg.as_slice(), "RS256".as_bytes()),
            None => false,
        };
        if !alg_ok {
            return Err(ValidationError::UnsupportedAlgorithm);
        }
        let policy = self.policy();
        match json_get_str(token.header.as_slice(), "kid") {
            Some(kid) => {
                let i = match keys.find_by_kid(kid.as_slice()) {
                    Some(i) => i,
                    None => {
                        return Err(ValidationError::KeyNotFound);
                    },
                };
                let key = &keys.keys[i];
                assert(key@ == keys@[i as int]);
                if rs256_verify(
                    key.base.modulus.as_slice(),
                    key.base.exponent.as_slice(),
                    token.signing_input.as_slice(),
                    token.signature.as_slice(),
                ) {
                    validate_claims(token.payload.as_slice(), &policy)
                } else {
                    Err(ValidationError::SignatureInvalid)
                }
            },
            None => {
                match keys.find_verifying(
                    token.signing_input.as_slice(),
                    token.signature.as_slice(),
                ) {
                    Some(_i) => validate_claims(token.payload.as_slice(), &policy),
                    None => Err(ValidationError::KeyNotFound),
                }
            },
        }
    }

    /// Validates a token.  A supplied key set overrides the provider's
    /// embedded one; with none supplied the embedded document is parsed
    /// and used.
    pub fn validate(&self, jwt: &[u8], keys: Option<&JwkKeys>) -> (r: Result<
        ValidationResult,
        ValidationError,
    >)
        ensures
            keys is Some ==> spec_outcome_matches(
                r,
                spec_validate(jwt@, keys->0@, spec_policy(*self)),
            ),
            keys is None ==> match spec_parse_keys(spec_default_doc(*self)) {
                Some(ks) => spec_outcome_matches(r, spec_validate(jwt@, ks, spec_policy(*self))),
                None => r == Err::<ValidationResult, ValidationError>(
                    ValidationError::MalformedKeySet,
                ),
            },
    {
        match keys {
            Some(ks) => self.validate_with(jwt, ks),
            None => {
                let doc = self.default_doc();
                let owned = match JwkKeys::parse(doc.as_bytes()) {
                    Ok(ks) => ks,
                    Err(e) => {
                        return Err(e);
                    },
                };
                self.validate_with(jwt, &owned)
            },
        }
    }
}

} // verus!
