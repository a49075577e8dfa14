//! Content hashing and request signing for shared-key authentication.
//!
//! A request body is hashed with SHA-256 and the digest carried base64
//! encoded; a canonical string-to-sign is authenticated with HMAC-SHA256
//! under the base64-decoded access key.  The hash, the tag, and the two
//! base64 directions are outside computations whose results are named by
//! uninterpreted functions, so every contract above them is exact in those
//! names.

use base64::Engine;
use hmac::Mac;
use sha2::Digest;
use vstd::prelude::*;
use vstd::string::StringSliceAdditionalSpecFns;

verus! {

/// The 32-byte SHA-256 digest of a byte string.
pub uninterp spec fn sha256_of(data: Seq<u8>) -> Seq<u8>;

/// The standard base64 encoding (with padding) of a byte string.
pub uninterp spec fn base64_of(data: Seq<u8>) -> Seq<char>;

/// What standard base64 decoding yields for a character string: the decoded
/// bytes, or nothing when the string is not valid base64.
pub uninterp spec fn base64_decoded(s: Seq<char>) -> Option<Seq<u8>>;

/// The 32-byte HMAC-SHA256 tag of a message under a key.
pub uninterp spec fn hmac_sha256_of(key: Seq<u8>, msg: Seq<u8>) -> Seq<u8>;

/// Relies on sha2::Sha256: the digest is a function of the input alone and
/// is always 32 bytes long.
#[verifier::external_body]
fn sha256_digest(data: &[u8]) -> (r: Vec<u8>)
    ensures
        r@ == sha256_of(data@),
        r@.len() == 32,
{
    let mut hasher = sha2::Sha256::new();
    hasher.update(data);
    hasher.finalize().to_vec()
}

/// Relies on base64::engine::general_purpose::STANDARD.encode: the standard
/// alphabet with padding, four output characters for every three input
/// bytes, and decoding the result restores the input exactly.
#[verifier::external_body]
fn base64_encode(data: &[u8]) -> (r: String)
    requires
        data@.len() <= usize::MAX / 2,
    ensures
        r@ == base64_of(data@),
        r@.len() == 4 * ((data@.len() + 2) / 3),
        base64_decoded(r@) == Some(data@),
{
    base64::engine::general_purpose::STANDARD.encode(data)
}

/// Relies on base64::engine::general_purpose::STANDARD.decode: decoding
/// succeeds or fails as a function of the input alone.
#[verifier::external_body]
fn base64_decode(s: &str) -> (r: Option<Vec<u8>>)
    ensures
        r is Some <==> base64_decoded(s@) is Some,
        r matches Some(b) ==> base64_decoded(s@) == Some(b@),
{
    match base64::engine::general_purpose::STANDARD.decode(s) {
        Ok(v) => Some(v),
        Err(_) => None,
    }
}

/// Relies on hmac::Hmac over sha2::Sha256: the tag is a function of key and
/// message alone and is always 32 bytes long; keys of any length are
/// accepted (long keys are hashed, short keys padded, inside the crate).
#[verifier::external_body]
fn hmac_sha256(key: &[u8], msg: &[u8]) -> (r: Vec<u8>)
    ensures
        r@ == hmac_sha256_of(key@, msg@),
        r@.len() == 32,
{
    let mut mac = <hmac::Hmac<sha2::Sha256> as hmac::KeyInit>::new_from_slice(key).expect(
        "HMAC accepts keys of any length",
    );
    mac.update(msg);
    mac.finalize().into_bytes().to_vec()
}

/// The base64-encoded SHA-256 digest of a request body.
pub open spec fn spec_content_hash(body: Seq<u8>) -> Seq<char> {
    base64_of(sha256_of(body))
}

/// Why a signature could not be produced.
#[derive(Clone, Copy, Debug, PartialEq, Eq, Structural)]
pub enum SignError {
    /// The access key is not valid base64.
    InvalidCredential,
}

/// The signature for a message under a base64-encoded secret: the
/// base64-encoded HMAC-SHA256 tag of the message keyed with the decoded
/// secret, or nothing when the secret does not decode.
pub open spec fn spec_signature(msg: Seq<u8>, secret: Seq<char>) -> Option<Seq<char>> {
    match base64_decoded(secret) {
        Some(key) => Some(base64_of(hmac_sha256_of(key, msg))),
        None => None,
    }
}

/// The base64-encoded SHA-256 hash of a request body.
///
/// For every body — empty or not — the result is the base64 encoding of the
/// body's 32-byte digest, so decoding the result yields exactly those 32
/// bytes.
pub fn compute_content_sha256(content: &str) -> (r: String)
    ensures
        r@ == spec_content_hash(content.spec_bytes()),
        base64_decoded(r@) == Some(sha256_of(content.spec_bytes())),
        sha256_of(content.spec_bytes()).len() == 32,
{
    let digest = sha256_digest(content.as_bytes());
    base64_encode(digest.as_slice())
}

/// The base64-encoded HMAC-SHA256 signature of `string_to_sign` under the
/// base64-encoded `secret`.
///
/// Succeeds exactly when the secret is valid base64; a secret that does not
/// decode yields `InvalidCredential`.  Signing is pure: the outcome is a
/// function of the two arguments alone.
pub fn compute_signature(string_to_sign: &str, secret: &str) -> (r: Result<String, SignError>)
    ensures
        r is Ok <==> base64_decoded(secret@) is Some,
        r matches Ok(sig) ==> Some(sig@) == spec_signature(string_to_sign.spec_bytes(), secret@),
        r matches Err(e) ==> e == SignError::InvalidCredential,
{
    match base64_decode(secret) {
        Some(key) => {
            let tag = hmac_sha256(key.as_slice(), string_to_sign.as_bytes());
            Ok(base64_encode(tag.as_slice()))
        },
        None => Err(SignError::InvalidCredential),
    }
}

/// Signing is deterministic: the signature — when one exists — is fixed by
/// the string to sign and the secret, so two calls over equal inputs agree.
pub proof fn lemma_sign_deterministic(
    msg1: Seq<u8>,
    secret1: Seq<char>,
    msg2: Seq<u8>,
    secret2: Seq<char>,
)
    requires
        msg1 == msg2,
        secret1 == secret2,
    ensures
        spec_signature(msg1, secret1) == spec_signature(msg2, secret2),
{
}

} // verus!
