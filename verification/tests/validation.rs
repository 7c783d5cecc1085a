//! End-to-end validation: tokens signed with freshly generated RSA keys,
//! checked through the providers' public entry points.

use base64::Engine;
use base64::engine::general_purpose::URL_SAFE_NO_PAD;
use rsa::traits::PublicKeyParts;
use sha2::Digest;

use oidc_validator::ProofInputs;
use oidc_validator::Uint256;
use oidc_validator::abi::ProofOutputs;
use oidc_validator::build_outputs;
use oidc_validator::errors::ValidationError;
use oidc_validator::jwk::JwkKeys;
use oidc_validator::provider::IdentityProvider;
use oidc_validator::run;

/// A freshly generated RSA key pair for signing test tokens.
fn make_key() -> rsa::RsaPrivateKey {
    let mut rng = rand::thread_rng();
    rsa::RsaPrivateKey::new(&mut rng, 1024).expect("key generation")
}

/// The JWKS document publishing the key under the given key id.
fn jwks_json(key: &rsa::RsaPrivateKey, kid: &str) -> Vec<u8> {
    let public = key.to_public_key();
    let n = URL_SAFE_NO_PAD.encode(public.n().to_bytes_be());
    let e = URL_SAFE_NO_PAD.encode(public.e().to_bytes_be());
    format!(
        "{{\"keys\":[{{\"kty\":\"RSA\",\"use\":\"sig\",\"alg\":\"RS256\",\"kid\":\"{}\",\"n\":\"{}\",\"e\":\"{}\"}}]}}",
        kid, n, e
    )
    .into_bytes()
}

/// A compact JWT over the given header and payload, signed RS256.
fn sign_token(key: &rsa::RsaPrivateKey, header: &str, payload: &str) -> String {
    let h = URL_SAFE_NO_PAD.encode(header.as_bytes());
    let p = URL_SAFE_NO_PAD.encode(payload.as_bytes());
    let signing_input = format!("{}.{}", h, p);
    let digest = sha2::Sha256::digest(signing_input.as_bytes());
    let sig = key
        .sign(rsa::Pkcs1v15Sign::new::<sha2::Sha256>(), &digest)
        .expect("signing");
    format!("{}.{}", signing_input, URL_SAFE_NO_PAD.encode(sig))
}

const ADDRESS: &str = "0xd8dA6BF26964aF9D7eEd9e03E53415D37aA96045";

/// A payload accepted by the Test provider's policy, carrying the
/// checksummed address as its subject.
fn good_payload() -> String {
    format!(
        "{{\"iss\":\"test-issuer\",\"aud\":\"test-audience\",\"sub\":\"{}\"}}",
        ADDRESS
    )
}

#[test]
fn known_key_and_matching_claims_validate() {
    let key = make_key();
    let keys = JwkKeys::parse(&jwks_json(&key, "abc")).expect("key set parses");
    let jwt = sign_token(&key, "{\"alg\":\"RS256\",\"kid\":\"abc\"}", &good_payload());

    let result = IdentityProvider::Test
        .validate(jwt.as_bytes(), Some(&keys))
        .expect("validation succeeds");
    assert_eq!(result.subject_claim, ADDRESS.as_bytes());
    assert_eq!(result.signer_address_claim, ADDRESS.as_bytes());

    // The claim identifier is the digest of the subject claim's bytes.
    let outputs = build_outputs(&result, None).expect("output build succeeds");
    let expected: Vec<u8> = sha2::Sha256::digest(ADDRESS.as_bytes()).to_vec();
    assert_eq!(outputs.claim_id, expected);
    assert_eq!(
        hex::encode(&outputs.msg_sender),
        "d8da6bf26964af9d7eed9e03e53415d37aa96045"
    );
}

#[test]
fn claim_id_is_deterministic_across_runs() {
    let key = make_key();
    let keys = JwkKeys::parse(&jwks_json(&key, "abc")).expect("key set parses");
    let jwt = sign_token(&key, "{\"alg\":\"RS256\",\"kid\":\"abc\"}", &good_payload());

    let other_key = make_key();
    let other_keys = JwkKeys::parse(&jwks_json(&other_key, "xyz")).expect("key set parses");
    let other_jwt = sign_token(
        &other_key,
        "{\"alg\":\"RS256\",\"kid\":\"xyz\"}",
        &good_payload(),
    );

    let r1 = IdentityProvider::Test
        .validate(jwt.as_bytes(), Some(&keys))
        .unwrap();
    let r2 = IdentityProvider::Test
        .validate(other_jwt.as_bytes(), Some(&other_keys))
        .unwrap();
    let o1 = build_outputs(&r1, None).unwrap();
    let o2 = build_outputs(&r2, Some(b"x")).unwrap();
    assert_eq!(o1.claim_id, o2.claim_id);
}

#[test]
fn flipped_signature_bit_is_rejected() {
    let key = make_key();
    let keys = JwkKeys::parse(&jwks_json(&key, "abc")).expect("key set parses");
    let jwt = sign_token(&key, "{\"alg\":\"RS256\",\"kid\":\"abc\"}", &good_payload());

    let (head, sig_segment) = jwt.rsplit_once('.').unwrap();
    let mut sig = URL_SAFE_NO_PAD.decode(sig_segment).unwrap();
    sig[0] ^= 0x01;
    let tampered = format!("{}.{}", head, URL_SAFE_NO_PAD.encode(sig));

    assert_eq!(
        IdentityProvider::Test.validate(tampered.as_bytes(), Some(&keys)),
        Err(ValidationError::SignatureInvalid)
    );
}

#[test]
fn foreign_algorithm_is_rejected() {
    let key = make_key();
    let keys = JwkKeys::parse(&jwks_json(&key, "abc")).expect("key set parses");
    // The signature is technically valid; the declared algorithm decides.
    let jwt = sign_token(&key, "{\"alg\":\"RS512\",\"kid\":\"abc\"}", &good_payload());
    assert_eq!(
        IdentityProvider::Test.validate(jwt.as_bytes(), Some(&keys)),
        Err(ValidationError::UnsupportedAlgorithm)
    );

    let jwt = sign_token(&key, "{\"alg\":\"none\",\"kid\":\"abc\"}", &good_payload());
    assert_eq!(
        IdentityProvider::Test.validate(jwt.as_bytes(), Some(&keys)),
        Err(ValidationError::UnsupportedAlgorithm)
    );
}

#[test]
fn unknown_key_id_is_rejected() {
    let key = make_key();
    let keys = JwkKeys::parse(&jwks_json(&key, "abc")).expect("key set parses");
    let jwt = sign_token(&key, "{\"alg\":\"RS256\",\"kid\":\"zzz\"}", &good_payload());
    assert_eq!(
        IdentityProvider::Test.validate(jwt.as_bytes(), Some(&keys)),
        Err(ValidationError::KeyNotFound)
    );
}

#[test]
fn missing_key_id_falls_back_to_trying_all_keys() {
    let key = make_key();
    let keys = JwkKeys::parse(&jwks_json(&key, "abc")).expect("key set parses");
    let jwt = sign_token(&key, "{\"alg\":\"RS256\"}", &good_payload());

    // The signing key is in the set: fallback selection succeeds.
    let result = IdentityProvider::Test
        .validate(jwt.as_bytes(), Some(&keys))
        .expect("fallback validation succeeds");
    assert_eq!(result.subject_claim, ADDRESS.as_bytes());

    // The signing key is absent: no key verifies.
    let other = make_key();
    let other_keys = JwkKeys::parse(&jwks_json(&other, "abc")).expect("key set parses");
    assert_eq!(
        IdentityProvider::Test.validate(jwt.as_bytes(), Some(&other_keys)),
        Err(ValidationError::KeyNotFound)
    );
}

#[test]
fn first_key_of_duplicated_id_is_selected() {
    let key = make_key();
    let decoy = make_key();
    let good = jwks_json(&key, "abc");
    let bad = jwks_json(&decoy, "abc");
    let strip = |doc: &[u8]| {
        let text = String::from_utf8(doc.to_vec()).unwrap();
        text["{\"keys\":[".len()..text.len() - "]}".len()].to_string()
    };
    let jwt = sign_token(&key, "{\"alg\":\"RS256\",\"kid\":\"abc\"}", &good_payload());

    // The signing key first: selection takes it and verification passes.
    let doc = format!("{{\"keys\":[{},{}]}}", strip(&good), strip(&bad));
    let keys = JwkKeys::parse(doc.as_bytes()).expect("key set parses");
    assert!(IdentityProvider::Test.validate(jwt.as_bytes(), Some(&keys)).is_ok());

    // The decoy first: selection takes it and verification fails.
    let doc = format!("{{\"keys\":[{},{}]}}", strip(&bad), strip(&good));
    let keys = JwkKeys::parse(doc.as_bytes()).expect("key set parses");
    assert_eq!(
        IdentityProvider::Test.validate(jwt.as_bytes(), Some(&keys)),
        Err(ValidationError::SignatureInvalid)
    );
}

#[test]
fn issuer_and_audience_policy_decide_acceptance() {
    let key = make_key();
    let keys = JwkKeys::parse(&jwks_json(&key, "abc")).expect("key set parses");
    let header = "{\"alg\":\"RS256\",\"kid\":\"abc\"}";

    // Valid under the Test policy, rejected under Google's: the same
    // token and the same signature validity.
    let jwt = sign_token(&key, header, &good_payload());
    assert!(IdentityProvider::Test.validate(jwt.as_bytes(), Some(&keys)).is_ok());
    assert_eq!(
        IdentityProvider::Google.validate(jwt.as_bytes(), Some(&keys)),
        Err(ValidationError::IssuerMismatch)
    );

    let payload = format!(
        "{{\"iss\":\"other-issuer\",\"aud\":\"test-audience\",\"sub\":\"{}\"}}",
        ADDRESS
    );
    let jwt = sign_token(&key, header, &payload);
    assert_eq!(
        IdentityProvider::Test.validate(jwt.as_bytes(), Some(&keys)),
        Err(ValidationError::IssuerMismatch)
    );

    let payload = format!(
        "{{\"iss\":\"test-issuer\",\"aud\":\"other-audience\",\"sub\":\"{}\"}}",
        ADDRESS
    );
    let jwt = sign_token(&key, header, &payload);
    assert_eq!(
        IdentityProvider::Test.validate(jwt.as_bytes(), Some(&keys)),
        Err(ValidationError::AudienceMismatch)
    );
}

#[test]
fn audience_may_be_an_array_containing_the_trusted_value() {
    let key = make_key();
    let keys = JwkKeys::parse(&jwks_json(&key, "abc")).expect("key set parses");
    let header = "{\"alg\":\"RS256\",\"kid\":\"abc\"}";

    let payload = format!(
        "{{\"iss\":\"test-issuer\",\"aud\":[\"other\",\"test-audience\"],\"sub\":\"{}\"}}",
        ADDRESS
    );
    let jwt = sign_token(&key, header, &payload);
    assert!(IdentityProvider::Test.validate(jwt.as_bytes(), Some(&keys)).is_ok());

    let payload = format!(
        "{{\"iss\":\"test-issuer\",\"aud\":[\"other\",\"third\"],\"sub\":\"{}\"}}",
        ADDRESS
    );
    let jwt = sign_token(&key, header, &payload);
    assert_eq!(
        IdentityProvider::Test.validate(jwt.as_bytes(), Some(&keys)),
        Err(ValidationError::AudienceMismatch)
    );
}

#[test]
fn missing_or_empty_subject_is_rejected() {
    let key = make_key();
    let keys = JwkKeys::parse(&jwks_json(&key, "abc")).expect("key set parses");
    let header = "{\"alg\":\"RS256\",\"kid\":\"abc\"}";

    let payload = "{\"iss\":\"test-issuer\",\"aud\":\"test-audience\"}";
    let jwt = sign_token(&key, header, payload);
    assert_eq!(
        IdentityProvider::Test.validate(jwt.as_bytes(), Some(&keys)),
        Err(ValidationError::MissingSubjectClaim)
    );

    let payload = "{\"iss\":\"test-issuer\",\"aud\":\"test-audience\",\"sub\":\"\"}";
    let jwt = sign_token(&key, header, payload);
    assert_eq!(
        IdentityProvider::Test.validate(jwt.as_bytes(), Some(&keys)),
        Err(ValidationError::MissingSubjectClaim)
    );
}

#[test]
fn malformed_tokens_are_rejected() {
    let key = make_key();
    let keys = JwkKeys::parse(&jwks_json(&key, "abc")).expect("key set parses");
    for bad in [
        "",
        "onesegment",
        "two.segments",
        "too.many.dots.here",
        "a.b.c",
        "!!!.???.###",
    ] {
        assert_eq!(
            IdentityProvider::Test.validate(bad.as_bytes(), Some(&keys)),
            Err(ValidationError::MalformedToken),
            "token {:?}",
            bad
        );
    }
}

#[test]
fn malformed_key_sets_are_rejected() {
    assert_eq!(JwkKeys::parse(b"not json").unwrap_err(), ValidationError::MalformedKeySet);
    assert_eq!(JwkKeys::parse(b"{}").unwrap_err(), ValidationError::MalformedKeySet);
    assert_eq!(
        JwkKeys::parse(b"{\"keys\":[{\"kid\":\"a\"}]}").unwrap_err(),
        ValidationError::MalformedKeySet
    );
    assert_eq!(
        JwkKeys::parse(b"{\"keys\":[{\"kid\":\"a\",\"n\":\"!!\",\"e\":\"AQAB\"}]}").unwrap_err(),
        ValidationError::MalformedKeySet
    );
}

#[test]
fn embedded_key_sets_parse() {
    // The embedded documents are real key material: they parse, and a
    // malformed token is still rejected early against them.
    let google = JwkKeys::parse(IdentityProvider::Google.default_doc().as_bytes()).unwrap();
    assert_eq!(google.keys.len(), 2);
    let test = JwkKeys::parse(IdentityProvider::Test.default_doc().as_bytes()).unwrap();
    assert_eq!(test.keys.len(), 1);
    assert_eq!(
        IdentityProvider::Test.validate(b"garbage", None),
        Err(ValidationError::MalformedToken)
    );
}

#[test]
fn whole_run_commits_the_expected_encoding() {
    let key = make_key();
    let cert = jwks_json(&key, "abc");
    let jwt = sign_token(&key, "{\"alg\":\"RS256\",\"kid\":\"abc\"}", &good_payload());

    let inputs = ProofInputs {
        identity_provider: Uint256 { lo: 1, hi: 0 },
        jwt,
        cert: cert.clone(),
    };
    let encoded = run(&inputs).expect("run succeeds");

    let outputs = ProofOutputs::abi_decode(&encoded).expect("output decodes");
    assert_eq!(
        hex::encode(&outputs.msg_sender),
        "d8da6bf26964af9d7eed9e03e53415d37aa96045"
    );
    let expected: Vec<u8> = sha2::Sha256::digest(ADDRESS.as_bytes()).to_vec();
    assert_eq!(outputs.claim_id, expected);
    assert_eq!(outputs.jwk_material, Some(cert));
}

#[test]
fn whole_run_rejections() {
    let key = make_key();
    let cert = jwks_json(&key, "abc");
    let header = "{\"alg\":\"RS256\",\"kid\":\"abc\"}";
    let jwt = sign_token(&key, header, &good_payload());

    // A selector outside the closed set.
    let inputs = ProofInputs {
        identity_provider: Uint256 { lo: 99, hi: 0 },
        jwt: jwt.clone(),
        cert: cert.clone(),
    };
    assert_eq!(run(&inputs), Err(ValidationError::UnsupportedProvider));
    let inputs = ProofInputs {
        identity_provider: Uint256 { lo: 1, hi: 7 },
        jwt: jwt.clone(),
        cert: cert.clone(),
    };
    assert_eq!(run(&inputs), Err(ValidationError::UnsupportedProvider));

    // Key material that does not parse.
    let inputs = ProofInputs {
        identity_provider: Uint256 { lo: 1, hi: 0 },
        jwt: jwt.clone(),
        cert: b"][".to_vec(),
    };
    assert_eq!(run(&inputs), Err(ValidationError::MalformedKeySet));

    // A subject that is not a checksummed address.
    let payload = "{\"iss\":\"test-issuer\",\"aud\":\"test-audience\",\"sub\":\"someone\"}";
    let jwt = sign_token(&key, header, payload);
    let inputs = ProofInputs {
        identity_provider: Uint256 { lo: 1, hi: 0 },
        jwt,
        cert,
    };
    assert_eq!(run(&inputs), Err(ValidationError::MalformedAddressClaim));
}

#[test]
fn error_messages_name_the_failure() {
    assert_eq!(ValidationError::SignatureInvalid.message(), "signature invalid");
    assert_eq!(ValidationError::KeyNotFound.message(), "key not found");
    assert_eq!(ValidationError::UnsupportedProvider.message(), "unsupported provider");
}
