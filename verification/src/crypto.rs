//! Trusted boundary to the cryptographic primitives of openssl and jwt, and
//! to the wall clock and the random source.

use vstd::prelude::*;
use crate::encode::all_b64url_chars;
use crate::errors::TokenError;

verus! {

/// The DER form of a PEM-encoded X.509 certificate, as openssl parses and
/// re-encodes it: a function of the PEM bytes alone.
pub uninterp spec fn x509_der_of(pem: Seq<u8>) -> Seq<u8>;

/// The SHA-1 digest of a byte string: a function of the input alone.
pub uninterp spec fn sha1_of(data: Seq<u8>) -> Seq<u8>;

/// The base64url (no padding) encoding of the RSA-SHA256 PKCS#1 v1.5
/// signature over `<header>.<claims>`, made with the PEM-encoded private
/// key. PKCS#1 v1.5 signing is deterministic, so the result is a function of
/// the key bytes and the two segments alone.
pub uninterp spec fn rs256_signature_of(
    key_pem: Seq<u8>,
    header_b64: Seq<char>,
    claims_b64: Seq<char>,
) -> Seq<char>;

/// Whether the bytes parse as a PEM-encoded X.509 certificate (and so
/// re-encode as DER): a function of the bytes alone.
pub uninterp spec fn cert_pem_parses(pem: Seq<u8>) -> bool;

/// Relies on openssl's `X509::from_pem` and `X509::to_der`: whether a PEM
/// certificate parses, and the DER it re-encodes to, are deterministic
/// functions of the PEM bytes; an input that does not parse gives an error.
#[verifier::external_body]
pub(crate) fn cert_to_der(pem: &[u8]) -> (r: Result<Vec<u8>, TokenError>)
    ensures
        r is Ok <==> cert_pem_parses(pem@),
        r matches Ok(d) ==> d@ == x509_der_of(pem@),
        r matches Err(e) ==> e == TokenError::CertificateParseError,
{
    match openssl::x509::X509::from_pem(pem).and_then(|c| c.to_der()) {
        Ok(d) => Ok(d),
        Err(_) => Err(TokenError::CertificateParseError),
    }
}

/// Relies on openssl's `sha::sha1`: the 20-byte SHA-1 digest of the input,
/// a function of the input alone.
#[verifier::external_body]
pub(crate) fn sha1_digest(data: &[u8]) -> (r: Vec<u8>)
    ensures
        r@ == sha1_of(data@),
        r@.len() == 20,
{
    openssl::sha::sha1(data).to_vec()
}

/// Whether the bytes parse as a PEM-encoded RSA private key that the
/// RSA-SHA256 signing primitive accepts: a function of the bytes alone.
pub uninterp spec fn rsa_key_pem_ok(key_pem: Seq<u8>) -> bool;

/// Relies on openssl's `PKey::private_key_from_pem` and `PKey::id`, and on
/// jwt's `PKeyWithDigest::sign`: for an RSA key, the signature is RSA-SHA256
/// PKCS#1 v1.5 over `<header>.<claims>` and therefore deterministic, and it
/// comes back base64url-encoded without padding, so non-empty (an RSA
/// signature is as long as the modulus) and over the base64url alphabet
/// only. Every failure is a property of the key bytes alone — they do not
/// parse, the key is not RSA, or the primitive rejects the key (one too
/// small to carry the digest) — so each is reported as the key error.
#[verifier::external_body]
pub(crate) fn sign_rs256(key_pem: &[u8], header_b64: &str, claims_b64: &str) -> (r: Result<
    String,
    TokenError,
>)
    ensures
        r is Ok <==> rsa_key_pem_ok(key_pem@),
        r matches Ok(s) ==> s@ == rs256_signature_of(key_pem@, header_b64@, claims_b64@),
        r matches Ok(s) ==> s@.len() > 0 && all_b64url_chars(s@),
        r matches Err(e) ==> e == TokenError::KeyParseError,
{
    let key = match openssl::pkey::PKey::private_key_from_pem(key_pem) {
        Ok(k) => k,
        Err(_) => return Err(TokenError::KeyParseError),
    };
    if key.id() != openssl::pkey::Id::RSA {
        return Err(TokenError::KeyParseError);
    }
    let alg = jwt::algorithm::openssl::PKeyWithDigest {
        digest: openssl::hash::MessageDigest::sha256(),
        key,
    };
    match jwt::algorithm::SigningAlgorithm::sign(&alg, header_b64, claims_b64) {
        Ok(s) => Ok(s),
        Err(_) => Err(TokenError::KeyParseError),
    }
}

/// Relies on openssl's `rand::rand_bytes`: fills a 16-byte buffer from the
/// cryptographic random source. Nothing is promised of the values.
#[verifier::external_body]
pub(crate) fn random_bytes_16() -> (r: Result<Vec<u8>, TokenError>)
    ensures
        r matches Ok(v) ==> v@.len() == 16,
        r matches Err(e) ==> e == TokenError::SigningError,
{
    let mut buf = vec![0u8; 16];
    match openssl::rand::rand_bytes(&mut buf) {
        Ok(()) => Ok(buf),
        Err(_) => Err(TokenError::SigningError),
    }
}

/// Relies on std's `SystemTime`: the wall clock, in seconds since the Unix
/// epoch. Nothing is promised of the value.
#[verifier::external_body]
pub(crate) fn unix_now() -> u64 {
    match std::time::SystemTime::now().duration_since(std::time::UNIX_EPOCH) {
        Ok(d) => d.as_secs(),
        Err(_) => 0,
    }
}

} // verus!
