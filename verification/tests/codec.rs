//! Decoding and encoding: base64url, hex, checksummed addresses, and the
//! ABI output layout, cross-checked against independent implementations.

use base64::Engine;
use base64::engine::general_purpose::URL_SAFE_NO_PAD;

use oidc_validator::abi::ProofOutputs;
use oidc_validator::address::hex_decode;
use oidc_validator::address::parse_checksummed_address;
use oidc_validator::b64::b64u_decode;
use oidc_validator::crypto::keccak256;
use oidc_validator::crypto::sha256;
use alloy_sol_types::SolValue;

#[test]
fn b64u_decodes_known_vectors() {
    assert_eq!(b64u_decode(b""), Some(vec![]));
    assert_eq!(b64u_decode(b"QQ"), Some(vec![b'A']));
    assert_eq!(b64u_decode(b"QUJD"), Some(b"ABC".to_vec()));
    assert_eq!(b64u_decode(b"QUJDRA"), Some(b"ABCD".to_vec()));
    assert_eq!(b64u_decode(b"-_8"), Some(vec![0xfb, 0xff]));
}

#[test]
fn b64u_rejects_malformed_text() {
    // A length leaving a remainder of one.
    assert_eq!(b64u_decode(b"A"), None);
    assert_eq!(b64u_decode(b"QUJDR"), None);
    // A byte outside the alphabet.
    assert_eq!(b64u_decode(b"Q!"), None);
    assert_eq!(b64u_decode(b"QUJ+"), None);
    // Non-zero trailing bits.
    assert_eq!(b64u_decode(b"QR"), None);
    assert_eq!(b64u_decode(b"QUJEE"), None);
}

#[test]
fn b64u_agrees_with_reference_codec() {
    let samples: Vec<Vec<u8>> = vec![
        vec![],
        vec![0],
        vec![255],
        vec![1, 2],
        vec![1, 2, 3],
        vec![251, 239, 190, 0, 17],
        (0u8..=255).collect(),
    ];
    for bytes in samples {
        let text = URL_SAFE_NO_PAD.encode(&bytes);
        assert_eq!(b64u_decode(text.as_bytes()), Some(bytes.clone()));
    }
    // And in the other direction, on text the reference accepts.
    for text in ["dG9rZW4", "eyJhbGciOiJSUzI1NiJ9", "AA", "_-A"] {
        let reference = URL_SAFE_NO_PAD.decode(text).ok();
        assert_eq!(b64u_decode(text.as_bytes()), reference);
    }
}

#[test]
fn hex_decodes_both_cases() {
    assert_eq!(hex_decode(b""), Some(vec![]));
    assert_eq!(hex_decode(b"00ff10"), Some(vec![0, 255, 16]));
    assert_eq!(hex_decode(b"00FF10"), Some(vec![0, 255, 16]));
    assert_eq!(hex_decode(b"aAbBcC"), Some(vec![0xaa, 0xbb, 0xcc]));
    assert_eq!(hex_decode(b"0"), None);
    assert_eq!(hex_decode(b"0g"), None);
}

#[test]
fn hex_agrees_with_reference_codec() {
    for bytes in [vec![0u8, 1, 2], vec![0xde, 0xad, 0xbe, 0xef], (0u8..=255).collect::<Vec<u8>>()]
    {
        let text = hex::encode(&bytes);
        assert_eq!(hex_decode(text.as_bytes()), Some(bytes));
    }
}

#[test]
fn sha256_matches_known_vector() {
    let digest = sha256(b"abc");
    assert_eq!(
        hex::encode(&digest),
        "ba7816bf8f01cfea414140de5dae2223b00361a396177a9cb410ff61f20015ad"
    );
}

#[test]
fn keccak256_matches_known_vector() {
    let digest = keccak256(b"");
    assert_eq!(
        hex::encode(&digest),
        "c5d2460186f7233c927e7db2dcc703c0e500b653ca82273b7bfad8045d85a470"
    );
}

#[test]
fn checksummed_address_parses_to_raw_bytes() {
    let text = "0xd8dA6BF26964aF9D7eEd9e03E53415D37aA96045";
    let parsed = parse_checksummed_address(text.as_bytes()).expect("valid checksummed address");
    assert_eq!(hex::encode(&parsed), "d8da6bf26964af9d7eed9e03e53415d37aa96045");

    let reference = alloy_primitives::Address::parse_checksummed(text, None).unwrap();
    assert_eq!(parsed.as_slice(), reference.as_slice());
}

#[test]
fn miscased_address_is_rejected() {
    let lower = "0xd8da6bf26964af9d7eed9e03e53415d37aa96045";
    assert_eq!(parse_checksummed_address(lower.as_bytes()), None);
    assert!(alloy_primitives::Address::parse_checksummed(lower, None).is_err());

    let flipped = "0xD8dA6BF26964aF9D7eEd9e03E53415D37aA96045";
    assert_eq!(parse_checksummed_address(flipped.as_bytes()), None);
    assert!(alloy_primitives::Address::parse_checksummed(flipped, None).is_err());
}

#[test]
fn malformed_address_is_rejected() {
    assert_eq!(parse_checksummed_address(b"d8dA6BF26964aF9D7eEd9e03E53415D37aA96045"), None);
    assert_eq!(parse_checksummed_address(b"0xd8dA6BF2"), None);
    assert_eq!(parse_checksummed_address(b"0xg8dA6BF26964aF9D7eEd9e03E53415D37aA96045"), None);
    assert_eq!(parse_checksummed_address(b""), None);
}

fn sample_outputs() -> ProofOutputs {
    ProofOutputs {
        msg_sender: (1u8..=20).collect(),
        claim_id: (100u8..=131).collect(),
        jwk_material: Some(b"{\"keys\":[]}".to_vec()),
    }
}

#[test]
fn abi_encoding_matches_reference_encoder() {
    let outputs = sample_outputs();
    let encoded = outputs.abi_encode();

    let addr = alloy_primitives::Address::from_slice(&outputs.msg_sender);
    let claim = alloy_primitives::FixedBytes::<32>::from_slice(&outputs.claim_id);
    let material = alloy_primitives::Bytes::from(outputs.jwk_material.clone().unwrap());
    let reference = (addr, claim, material).abi_encode_params();
    assert_eq!(encoded, reference);

    // The shape without auxiliary material is the plain two-word tuple.
    let outputs = ProofOutputs { jwk_material: None, ..sample_outputs() };
    let encoded = outputs.abi_encode();
    let reference = (addr, claim).abi_encode_params();
    assert_eq!(encoded, reference);
}

#[test]
fn abi_round_trip_recovers_the_record() {
    let outputs = sample_outputs();
    let encoded = outputs.abi_encode();
    let decoded = ProofOutputs::abi_decode(&encoded).expect("round trip");
    assert_eq!(decoded.msg_sender, outputs.msg_sender);
    assert_eq!(decoded.claim_id, outputs.claim_id);
    assert_eq!(decoded.jwk_material, outputs.jwk_material);
}

#[test]
fn abi_round_trip_without_material() {
    let outputs = ProofOutputs {
        msg_sender: vec![0xaa; 20],
        claim_id: vec![0xbb; 32],
        jwk_material: None,
    };
    let encoded = outputs.abi_encode();
    assert_eq!(encoded.len(), 64);
    let decoded = ProofOutputs::abi_decode(&encoded).expect("round trip");
    assert_eq!(decoded.msg_sender, outputs.msg_sender);
    assert_eq!(decoded.claim_id, outputs.claim_id);
    assert_eq!(decoded.jwk_material, None);
}

#[test]
fn abi_round_trip_with_empty_material() {
    let outputs = ProofOutputs {
        msg_sender: vec![0xaa; 20],
        claim_id: vec![0xbb; 32],
        jwk_material: Some(vec![]),
    };
    let encoded = outputs.abi_encode();
    assert_eq!(encoded.len(), 128);
    let decoded = ProofOutputs::abi_decode(&encoded).expect("round trip");
    assert_eq!(decoded.msg_sender, outputs.msg_sender);
    assert_eq!(decoded.claim_id, outputs.claim_id);
    assert_eq!(decoded.jwk_material, outputs.jwk_material);
}

#[test]
fn abi_decode_rejects_mangled_bytes() {
    assert!(ProofOutputs::abi_decode(b"").is_none());
    assert!(ProofOutputs::abi_decode(&[0u8; 63]).is_none());
    assert!(ProofOutputs::abi_decode(&[0u8; 65]).is_none());
    // A two-word record whose address word is not left-padded.
    let mut pair = [0u8; 64];
    pair[0] = 1;
    assert!(ProofOutputs::abi_decode(&pair).is_none());
    let outputs = sample_outputs();
    let mut encoded = outputs.abi_encode();
    // A corrupted tail offset.
    encoded[95] = 0x40;
    assert!(ProofOutputs::abi_decode(&encoded).is_none());
    // A truncated tail.
    let encoded = outputs.abi_encode();
    assert!(ProofOutputs::abi_decode(&encoded[..encoded.len() - 1]).is_none());
}
