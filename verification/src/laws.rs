//! Laws of the validation pipeline: properties that relate whole runs,
//! proved from the specifications the pipeline's contracts are stated
//! over.

use vstd::prelude::*;

use crate::abi::OutputsModel;
use crate::claims::ClaimsModel;
use crate::claims::PolicyModel;
use crate::claims::spec_claims_result;
use crate::crypto::rs256_verifies;
use crate::errors::ValidationError;
use crate::json::json_str_field;
use crate::jwk::JwkModel;
use crate::jwk::lemma_find_kid_miss;
use crate::jwk::lemma_find_verifying_iff_exists;
use crate::jwk::spec_find_kid;
use crate::jwk::spec_find_verifying;
use crate::provider::spec_allowed_alg;
use crate::provider::spec_validate;
use crate::spec_build_outputs;
use crate::token::spec_decode_token;

verus! {

/// An accepting configuration on the key-id path: the token decodes, its
/// header declares the allowed algorithm and a key id that selects a key
/// of the set, that key verifies the signature, and the claims pass the
/// policy.
pub open spec fn spec_accepting_with_kid(
    jwt: Seq<u8>,
    keys: Seq<JwkModel>,
    policy: PolicyModel,
) -> bool {
    &&& spec_decode_token(jwt) is Some
    &&& {
        let t = spec_decode_token(jwt)->Some_0;
        &&& json_str_field(t.header, "alg"@) == Some(spec_allowed_alg())
        &&& json_str_field(t.header, "kid"@) is Some
        &&& spec_find_kid(keys, json_str_field(t.header, "kid"@)->Some_0) is Some
        &&& rs256_verifies(
            keys[spec_find_kid(keys, json_str_field(t.header, "kid"@)->Some_0)->Some_0].modulus,
            keys[spec_find_kid(keys, json_str_field(t.header, "kid"@)->Some_0)->Some_0].exponent,
            t.signing_input,
            t.signature,
        )
        &&& spec_claims_result(t.payload, policy) is Ok
    }
}

/// A well-formed token signed by a key of the set, with claims matching
/// the policy, validates successfully, and its result is exactly what the
/// claims yield.
pub proof fn lemma_accepting_token_validates(
    jwt: Seq<u8>,
    keys: Seq<JwkModel>,
    policy: PolicyModel,
)
    requires
        spec_accepting_with_kid(jwt, keys, policy),
    ensures
        spec_validate(jwt, keys, policy) is Ok,
        spec_validate(jwt, keys, policy) == spec_claims_result(
            spec_decode_token(jwt)->Some_0.payload,
            policy,
        ),
{
}

/// The claim identifier is a function of the subject claim alone: two
/// successful output builds over equal subjects commit equal claim
/// identifiers, whatever else differs.
pub proof fn lemma_claim_id_deterministic(
    c1: ClaimsModel,
    c2: ClaimsModel,
    m1: Option<Seq<u8>>,
    m2: Option<Seq<u8>>,
)
    requires
        c1.subject_claim == c2.subject_claim,
        spec_build_outputs(c1, m1) is Ok,
        spec_build_outputs(c2, m2) is Ok,
    ensures
        spec_build_outputs(c1, m1)->Ok_0.claim_id == spec_build_outputs(c2, m2)->Ok_0.claim_id,
{
}

/// A token that validates, reissued with the same header, payload and
/// signing input but a signature that no key of the set verifies, is
/// rejected as `SignatureInvalid`.
pub proof fn lemma_tampered_signature_rejected(
    jwt1: Seq<u8>,
    jwt2: Seq<u8>,
    keys: Seq<JwkModel>,
    policy: PolicyModel,
)
    requires
        spec_validate(jwt1, keys, policy) is Ok,
        spec_decode_token(jwt2) is Some,
        spec_decode_token(jwt2)->Some_0.header == spec_decode_token(jwt1)->Some_0.header,
        spec_decode_token(jwt2)->Some_0.payload == spec_decode_token(jwt1)->Some_0.payload,
        spec_decode_token(jwt2)->Some_0.signing_input == spec_decode_token(
            jwt1,
        )->Some_0.signing_input,
        json_str_field(spec_decode_token(jwt1)->Some_0.header, "kid"@) is Some,
        forall|k: int|
            0 <= k < keys.len() ==> !rs256_verifies(
                keys[k].modulus,
                keys[k].exponent,
                spec_decode_token(jwt2)->Some_0.signing_input,
                spec_decode_token(jwt2)->Some_0.signature,
            ),
    ensures
        spec_validate(jwt2, keys, policy) == Err::<ClaimsModel, ValidationError>(
            ValidationError::SignatureInvalid,
        ),
{
    let t1 = spec_decode_token(jwt1)->Some_0;
    let kid = json_str_field(t1.header, "kid"@)->Some_0;
    assert(spec_find_kid(keys, kid) is Some);
    let i = spec_find_kid(keys, kid)->Some_0;
    assert(0 <= i < keys.len()) by {
        lemma_find_kid_in_range(keys, kid);
    }
}

proof fn lemma_find_kid_in_range(keys: Seq<JwkModel>, kid: Seq<u8>)
    requires
        spec_find_kid(keys, kid) is Some,
    ensures
        0 <= spec_find_kid(keys, kid)->Some_0 < keys.len(),
    decreases keys.len(),
{
    if keys.len() > 0 && keys[0].key_id != kid {
        lemma_find_kid_in_range(keys.drop_first(), kid);
    }
}

/// A token whose header declares an algorithm other than the allowed one
/// is rejected as `UnsupportedAlgorithm`, whatever its signature.
pub proof fn lemma_wrong_algorithm_rejected(
    jwt: Seq<u8>,
    keys: Seq<JwkModel>,
    policy: PolicyModel,
)
    requires
        spec_decode_token(jwt) is Some,
        json_str_field(spec_decode_token(jwt)->Some_0.header, "alg"@) != Some(spec_allowed_alg()),
    ensures
        spec_validate(jwt, keys, policy) == Err::<ClaimsModel, ValidationError>(
            ValidationError::UnsupportedAlgorithm,
        ),
{
}

/// A token carrying a key id that no key of the set carries is rejected
/// as `KeyNotFound`.
pub proof fn lemma_unknown_kid_rejected(jwt: Seq<u8>, keys: Seq<JwkModel>, policy: PolicyModel)
    requires
        spec_decode_token(jwt) is Some,
        json_str_field(spec_decode_token(jwt)->Some_0.header, "alg"@) == Some(spec_allowed_alg()),
        json_str_field(spec_decode_token(jwt)->Some_0.header, "kid"@) is Some,
        forall|k: int|
            0 <= k < keys.len() ==> keys[k].key_id != json_str_field(
                spec_decode_token(jwt)->Some_0.header,
                "kid"@,
            )->Some_0,
    ensures
        spec_validate(jwt, keys, policy) == Err::<ClaimsModel, ValidationError>(
            ValidationError::KeyNotFound,
        ),
{
    lemma_find_kid_miss(
        keys,
        json_str_field(spec_decode_token(jwt)->Some_0.header, "kid"@)->Some_0,
    );
}

/// A token without a key id falls back to trying all keys: with claims
/// that pass the policy, it validates exactly when some key of the set
/// verifies its signature, and is rejected as `KeyNotFound` when none
/// does.
pub proof fn lemma_fallback_accepts_iff(jwt: Seq<u8>, keys: Seq<JwkModel>, policy: PolicyModel)
    requires
        spec_decode_token(jwt) is Some,
        json_str_field(spec_decode_token(jwt)->Some_0.header, "alg"@) == Some(spec_allowed_alg()),
        json_str_field(spec_decode_token(jwt)->Some_0.header, "kid"@) is None,
        spec_claims_result(spec_decode_token(jwt)->Some_0.payload, policy) is Ok,
    ensures
        spec_validate(jwt, keys, policy) is Ok <==> exists|k: int|
            0 <= k < keys.len() && rs256_verifies(
                keys[k].modulus,
                keys[k].exponent,
                spec_decode_token(jwt)->Some_0.signing_input,
                spec_decode_token(jwt)->Some_0.signature,
            ),
        spec_find_verifying(
            keys,
            spec_decode_token(jwt)->Some_0.signing_input,
            spec_decode_token(jwt)->Some_0.signature,
        ) is None ==> spec_validate(jwt, keys, policy) == Err::<ClaimsModel, ValidationError>(
            ValidationError::KeyNotFound,
        ),
{
    let t = spec_decode_token(jwt)->Some_0;
    lemma_find_verifying_iff_exists(keys, t.signing_input, t.signature);
}

/// Trust parameters decide acceptance: a token that validates under one
/// policy is rejected as `IssuerMismatch` under any policy with another
/// trusted issuer, though keys and signature are unchanged.
pub proof fn lemma_policy_swap_rejects(
    jwt: Seq<u8>,
    keys: Seq<JwkModel>,
    pa: PolicyModel,
    pb: PolicyModel,
)
    requires
        spec_validate(jwt, keys, pa) is Ok,
        pb.issuer != pa.issuer,
    ensures
        spec_validate(jwt, keys, pb) == Err::<ClaimsModel, ValidationError>(
            ValidationError::IssuerMismatch,
        ),
{
    let t = spec_decode_token(jwt)->Some_0;
    assert(spec_claims_result(t.payload, pa) is Ok);
    assert(json_str_field(t.payload, "iss"@) == Some(pa.issuer));
}

} // verus!
