//! Tests of the content hash and the HMAC signature against fixed vectors.

use acs_email::signing::{compute_content_sha256, compute_signature, SignError};
use base64::Engine;

#[test]
fn content_hash_of_empty_body() {
    // SHA-256 of the empty string, base64 encoded.
    assert_eq!(
        compute_content_sha256(""),
        "47DEQpj8HBSa+/TImW+5JCeuQeRkm5NMpJWZG3hSuFU="
    );
}

#[test]
fn content_hash_of_known_body() {
    assert_eq!(
        compute_content_sha256("hello"),
        "LPJNul+wow4m6DsqxbninhsWHlwfp0JecwQzYpOLmCQ="
    );
}

#[test]
fn content_hash_decodes_to_thirty_two_bytes() {
    for body in ["x", "hello", "{\"a\":1}", "a longer request body with spaces"] {
        let hash = compute_content_sha256(body);
        let decoded = base64::engine::general_purpose::STANDARD
            .decode(&hash)
            .expect("content hash must be valid base64");
        assert_eq!(decoded.len(), 32);
    }
}

#[test]
fn signature_matches_known_vector() {
    // Twenty 0x0b bytes as the key, "Hi There" as the message.
    let secret = "CwsLCwsLCwsLCwsLCwsLCwsLCws=";
    let sig = compute_signature("Hi There", secret).unwrap();
    assert_eq!(sig, "sDRMYdjbOFNcqK/OrwvxK4gdwgDJgz2nJuk3bC4yz/c=");
}

#[test]
fn signature_is_deterministic() {
    let secret = "CwsLCwsLCwsLCwsLCwsLCwsLCws=";
    let a = compute_signature("Hi There", secret).unwrap();
    let b = compute_signature("Hi There", secret).unwrap();
    assert_eq!(a, b);
}

#[test]
fn signature_changes_when_one_byte_changes() {
    let secret = "CwsLCwsLCwsLCwsLCwsLCwsLCws=";
    let a = compute_signature("Hi There", secret).unwrap();
    let b = compute_signature("Hi Thera", secret).unwrap();
    assert_ne!(a, b);
    assert_eq!(b, "DENkdgwSkpmJ7apnGrsrWABvWDvIjjQssPSgF8UI+CY=");
}

#[test]
fn signature_rejects_secret_that_is_not_base64() {
    let r = compute_signature("anything", "not valid base64!!");
    assert!(matches!(r, Err(SignError::InvalidCredential)));
}
