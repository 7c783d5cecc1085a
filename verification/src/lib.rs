//! OIDC JSON Web Token validation and claim extraction.
//!
//! Given a compact JWT, a set of trusted RSA signing keys, and the trust
//! policy of a closed set of identity providers, this crate decides token
//! authenticity, extracts a stable claim identifier, and packages the
//! result into a fixed positional binary encoding for a downstream
//! settlement contract.  The engine is a pure function of its inputs: it
//! performs no I/O, keeps no state across calls, and never commits a
//! partial result.

use vstd::prelude::*;

pub mod abi;
pub mod address;
pub mod b64;
pub mod claims;
pub mod crypto;
pub mod errors;
pub mod jwk;
pub mod laws;
pub mod provider;
pub mod token;
pub mod json;

use vstd::utf8::encode_utf8;

use crate::abi::OutputsModel;
use crate::abi::ProofOutputs;
use crate::abi::spec_abi_encode;
use crate::address::spec_parse_checksummed;
use crate::address::parse_checksummed_address;
use crate::claims::ClaimsModel;
use crate::claims::ValidationResult;
use crate::crypto::sha256_of;
use crate::crypto::sha256;
use crate::errors::ValidationError;
use crate::jwk::JwkKeys;
use crate::jwk::spec_parse_keys;
use crate::provider::IdentityProvider;
use crate::provider::spec_default_doc;
use crate::provider::spec_policy;
use crate::provider::spec_provider_of;
use crate::provider::spec_validate;

verus! {

/// An unsigned 256-bit integer, as two 128-bit halves.
#[derive(Clone, Copy, Debug, PartialEq, Eq, Structural)]
pub struct Uint256 {
    pub lo: u128,
    pub hi: u128,
}

/// The sole entry record of the engine: a provider selector, the token,
/// and optional caller-supplied key material (empty for none).
pub struct ProofInputs {
    /// The provider code selecting one variant of the closed set.
    pub identity_provider: Uint256,
    /// The compact JWT.
    pub jwt: String,
    /// A JWKS JSON document overriding the provider's embedded one, or
    /// empty to use the embedded one.
    pub cert: Vec<u8>,
}

/// The outputs a validation result commits to: the address parsed from
/// the address claim, the digest of the subject claim, and the supplied
/// key material where there is any.
pub open spec fn spec_build_outputs(c: ClaimsModel, material: Option<Seq<u8>>) -> Result<
    OutputsModel,
    ValidationError,
> {
    match spec_parse_checksummed(c.signer_address_claim) {
        Some(addr) => Ok(
            OutputsModel {
                msg_sender: addr,
                claim_id: sha256_of(c.subject_claim),
                jwk_material: material,
            },
        ),
        None => Err(ValidationError::MalformedAddressClaim),
    }
}

/// Packages a validation result into the committed output: parses the
/// address claim as a checksummed address and digests the subject claim
/// into the claim identifier.
pub fn build_outputs(v: &ValidationResult, material: Option<&[u8]>) -> (r: Result<
    ProofOutputs,
    ValidationError,
>)
    requires
        material matches Some(m) ==> m@.len() < 0x1_0000_0000,
    ensures
        ({
            let m = match material {
                Some(m) => Some(m@),
                None => None,
            };
            match r {
                Ok(o) => spec_build_outputs(v@, m) == Ok::<OutputsModel, ValidationError>(o@)
                    && o.wf(),
                Err(e) => spec_build_outputs(v@, m) == Err::<OutputsModel, ValidationError>(e),
            }
        }),
{
    let msg_sender = match parse_checksummed_address(v.signer_address_claim.as_slice()) {
        Some(addr) => addr,
        None => {
            return Err(ValidationError::MalformedAddressClaim);
        },
    };
    let claim_id = sha256(v.subject_claim.as_slice());
    let jwk_material = match material {
        Some(m) => Some(vstd::slice::slice_to_vec(m)),
        None => None,
    };
    Ok(ProofOutputs { msg_sender, claim_id, jwk_material })
}

/// The committed bytes of one whole invocation, or its failure: provider
/// dispatch, key resolution, token validation, output building and
/// encoding, in that order.
pub open spec fn spec_run(sel_lo: u128, sel_hi: u128, jwt: Seq<char>, cert: Seq<u8>) -> Result<
    Seq<u8>,
    ValidationError,
> {
    match spec_provider_of(sel_lo, sel_hi) {
        None => Err(ValidationError::UnsupportedProvider),
        Some(p) => {
            let keys_model = if cert.len() == 0 {
                spec_parse_keys(spec_default_doc(p))
            } else {
                spec_parse_keys(cert)
            };
            let material = if cert.len() == 0 {
                None
            } else {
                Some(cert)
            };
            match keys_model {
                None => Err(ValidationError::MalformedKeySet),
                Some(ks) => match spec_validate(encode_utf8(jwt), ks, spec_policy(p)) {
                    Err(e) => Err(e),
                    Ok(c) => match spec_build_outputs(c, material) {
                        Err(e) => Err(e),
                        Ok(o) => Ok(spec_abi_encode(o.msg_sender, o.claim_id, o.jwk_material)),
                    },
                },
            }
        },
    }
}

/// Runs one whole validation: decodes nothing outside the inputs, writes
/// nothing but the returned encoding, and fails as a whole on the first
/// rejected step.
pub fn run(inputs: &ProofInputs) -> (r: Result<Vec<u8>, ValidationError>)
    requires
        inputs.cert@.len() < 0x1_0000_0000,
    ensures
        match r {
            Ok(b) => spec_run(
                inputs.identity_provider.lo,
                inputs.identity_provider.hi,
                inputs.jwt@,
                inputs.cert@,
            ) == Ok::<Seq<u8>, ValidationError>(b@),
            Err(e) => spec_run(
                inputs.identity_provider.lo,
                inputs.identity_provider.hi,
                inputs.jwt@,
                inputs.cert@,
            ) == Err::<Seq<u8>, ValidationError>(e),
        },
{
    let provider = match IdentityProvider::from_selector(
        inputs.identity_provider.lo,
        inputs.identity_provider.hi,
    ) {
        Ok(p) => p,
        Err(e) => {
            return Err(e);
        },
    };
    let jwt_bytes = inputs.jwt.as_str().as_bytes();
    let supplied = inputs.cert.len() > 0;
    let outcome = if !supplied {
        provider.validate(jwt_bytes, None)
    } else {
        let keys = match JwkKeys::parse(inputs.cert.as_slice()) {
            Ok(ks) => ks,
            Err(e) => {
                return Err(e);
            },
        };
        provider.validate(jwt_bytes, Some(&keys))
    };
    let result = match outcome {
        Ok(v) => v,
        Err(e) => {
            return Err(e);
        },
    };
    let material = if supplied {
        Some(inputs.cert.as_slice())
    } else {
        None
    };
    let outputs = match build_outputs(&result, material) {
        Ok(o) => o,
        Err(e) => {
            return Err(e);
        },
    };
    Ok(outputs.abi_encode())
}

} // verus!
