//! The JWT client assertion: JOSE header, claims payload, and the signed
//! compact serialization `<header>.<payload>.<signature>`.

use vstd::prelude::*;
use vstd::string::StringExecFns;
use vstd::utf8::{encode_scalar, encode_utf8};
use crate::ASSERTION_LIFETIME_SECS;
use crate::crypto::{
    cert_pem_parses, cert_to_der, random_bytes_16, rs256_signature_of, rsa_key_pem_ok,
    sha1_digest, sha1_of, sign_rs256, unix_now, x509_der_of,
};
use crate::encode::{
    all_b64url_chars, b64url_encode, b64url_of, lemma_b64url_of_nonempty, lemma_b64url_of_valid,
};
use crate::endpoint::{audience_of, AudienceResolver};
use crate::errors::TokenError;
use crate::json::{append_json_escaped, json_escaped};
use crate::text::{bytes_to_hex, dec_str_of, hex_str_of, push_char, u64_to_dec};

verus! {

/// The certificate thumbprint `x5t`: base64url of the SHA-1 digest of the
/// certificate's DER form.
pub open spec fn x5t_of(cert_pem: Seq<u8>) -> Seq<char> {
    b64url_of(sha1_of(x509_der_of(cert_pem)))
}

/// The JOSE header JSON for a thumbprint, fields in alphabetical order.
pub open spec fn header_json_of(x5t: Seq<char>) -> Seq<char> {
    "{\"alg\":\"RS256\",\"typ\":\"JWT\",\"x5t\":\""@ + json_escaped(x5t) + "\"}"@
}

/// The claims JSON, fields in alphabetical order.
pub open spec fn payload_json_of(
    aud: Seq<char>,
    exp: nat,
    iss: Seq<char>,
    jti: Seq<char>,
    nbf: nat,
    sub: Seq<char>,
) -> Seq<char> {
    "{\"aud\":\""@ + json_escaped(aud) + "\",\"exp\":"@ + dec_str_of(exp) + ",\"iss\":\""@
        + json_escaped(iss) + "\",\"jti\":\""@ + json_escaped(jti) + "\",\"nbf\":"@ + dec_str_of(
        nbf,
    ) + ",\"sub\":\""@ + json_escaped(sub) + "\"}"@
}

/// The first segment: base64url of the UTF-8 bytes of the header JSON.
pub open spec fn header_segment_of(cert_pem: Seq<u8>) -> Seq<char> {
    b64url_of(encode_utf8(header_json_of(x5t_of(cert_pem))))
}

/// The second segment: base64url of the UTF-8 bytes of the claims JSON,
/// with the audience derived from the tenant, the issuer and subject both
/// the client id, and an expiry one lifetime after `nbf`.
pub open spec fn payload_segment_of(
    tenant: Seq<char>,
    client: Seq<char>,
    now: u64,
    jti: Seq<char>,
) -> Seq<char> {
    b64url_of(
        encode_utf8(
            payload_json_of(
                audience_of(tenant),
                (now + ASSERTION_LIFETIME_SECS) as nat,
                client,
                jti,
                now as nat,
                client,
            ),
        ),
    )
}

/// The compact serialization of the signed assertion.
pub open spec fn compact_jwt_of(
    cert_pem: Seq<u8>,
    key_pem: Seq<u8>,
    tenant: Seq<char>,
    client: Seq<char>,
    now: u64,
    jti: Seq<char>,
) -> Seq<char> {
    let h = header_segment_of(cert_pem);
    let p = payload_segment_of(tenant, client, now, jti);
    h + seq!['.'] + p + seq!['.'] + rs256_signature_of(key_pem, h, p)
}

/// `s` splits into these three non-empty base64url segments joined by dots.
pub open spec fn compact_parts(s: Seq<char>, h: Seq<char>, p: Seq<char>, g: Seq<char>) -> bool {
    &&& s == h + seq!['.'] + p + seq!['.'] + g
    &&& h.len() > 0 && p.len() > 0 && g.len() > 0
    &&& all_b64url_chars(h) && all_b64url_chars(p) && all_b64url_chars(g)
}

/// `s` consists of three non-empty base64url segments joined by two dots.
pub open spec fn is_compact_jwt_shape(s: Seq<char>) -> bool {
    exists|h: Seq<char>, p: Seq<char>, g: Seq<char>| compact_parts(s, h, p, g)
}

/// The number of occurrences of a character in a sequence.
pub open spec fn count_char(s: Seq<char>, c: char) -> nat
    decreases s.len(),
{
    if s.len() == 0 {
        0
    } else {
        (if s[0] == c {
            1nat
        } else {
            0nat
        }) + count_char(s.drop_first(), c)
    }
}

proof fn lemma_count_char_concat(a: Seq<char>, b: Seq<char>, c: char)
    ensures
        count_char(a + b, c) == count_char(a, c) + count_char(b, c),
    decreases a.len(),
{
    if a.len() == 0 {
        assert(a + b =~= b);
    } else {
        assert((a + b).drop_first() =~= a.drop_first() + b);
        assert((a + b)[0] == a[0]);
        lemma_count_char_concat(a.drop_first(), b, c);
    }
}

proof fn lemma_count_char_none(s: Seq<char>, c: char)
    requires
        forall|i: int| 0 <= i < s.len() ==> s[i] != c,
    ensures
        count_char(s, c) == 0,
    decreases s.len(),
{
    if s.len() > 0 {
        lemma_count_char_none(s.drop_first(), c);
    }
}

/// A string of compact-JWT shape holds exactly two dots: the two segment
/// separators, and none inside a segment.
pub proof fn lemma_compact_shape_two_dots(s: Seq<char>)
    requires
        is_compact_jwt_shape(s),
    ensures
        count_char(s, '.') == 2,
{
    let (h, p, g) = choose|h: Seq<char>, p: Seq<char>, g: Seq<char>| compact_parts(s, h, p, g);
    let dot = seq!['.'];
    assert forall|i: int| 0 <= i < h.len() implies h[i] != '.' by {
        assert(crate::encode::is_b64url_char(h[i]));
    }
    assert forall|i: int| 0 <= i < p.len() implies p[i] != '.' by {
        assert(crate::encode::is_b64url_char(p[i]));
    }
    assert forall|i: int| 0 <= i < g.len() implies g[i] != '.' by {
        assert(crate::encode::is_b64url_char(g[i]));
    }
    lemma_count_char_none(h, '.');
    lemma_count_char_none(p, '.');
    lemma_count_char_none(g, '.');
    assert(dot.drop_first() =~= Seq::<char>::empty());
    assert(dot[0] == '.');
    assert(count_char(Seq::<char>::empty(), '.') == 0);
    assert(count_char(dot.drop_first(), '.') == 0);
    assert(count_char(dot, '.') == 1);
    lemma_count_char_concat(h, dot, '.');
    lemma_count_char_concat(h + dot, p, '.');
    lemma_count_char_concat(h + dot + p, dot, '.');
    lemma_count_char_concat(h + dot + p + dot, g, '.');
}

/// A non-empty character sequence has non-empty UTF-8 bytes.
proof fn lemma_encode_utf8_nonempty(s: Seq<char>)
    requires
        s.len() > 0,
    ensures
        encode_utf8(s).len() > 0,
{
    assert(encode_scalar(s[0] as u32).len() >= 1);
}

/// The JWT JOSE header: fixed `alg` RS256 and `typ` JWT, plus the
/// certificate thumbprint the identity provider locates the public key by.
pub struct Header {
    pub x5t: String,
}

impl Header {
    /// Computes the thumbprint of a PEM certificate; succeeds exactly when
    /// the certificate parses.
    pub fn new(cert_pem: &[u8]) -> (r: Result<Header, TokenError>)
        ensures
            r is Ok <==> cert_pem_parses(cert_pem@),
            r matches Ok(h) ==> h.x5t@ == x5t_of(cert_pem@),
            r matches Err(e) ==> e == TokenError::CertificateParseError,
    {
        let der = match cert_to_der(cert_pem) {
            Ok(d) => d,
            Err(e) => { return Err(e) },
        };
        let digest = sha1_digest(der.as_slice());
        let x5t = b64url_encode(digest.as_slice());
        Ok(Header { x5t })
    }

    /// Serializes the header to its JSON form.
    pub fn to_json(&self) -> (r: String)
        ensures
            r@ == header_json_of(self.x5t@),
    {
        let mut s = "{\"alg\":\"RS256\",\"typ\":\"JWT\",\"x5t\":\"".to_owned();
        append_json_escaped(&mut s, self.x5t.as_str());
        s.append("\"}");
        s
    }
}

/// The JWT claims: audience, expiry, issuer, assertion id, not-before, and
/// subject. Issuer and subject are both the client id (a self-issued
/// assertion); the expiry lies one lifetime after the not-before time.
pub struct Payload {
    pub aud: String,
    pub exp: u64,
    pub iss: String,
    pub jti: String,
    pub nbf: u64,
    pub sub: String,
}

impl Payload {
    /// Builds the claims for a tenant and client at a given time.
    pub fn new(tenant_id: &str, client_id: &str, now: u64, jti: String) -> (p: Payload)
        requires
            now + ASSERTION_LIFETIME_SECS <= u64::MAX,
        ensures
            p.aud@ == audience_of(tenant_id@),
            p.exp == now + ASSERTION_LIFETIME_SECS,
            p.iss@ == client_id@,
            p.jti@ == jti@,
            p.nbf == now,
            p.sub@ == client_id@,
    {
        Payload {
            aud: AudienceResolver::resolve(tenant_id),
            exp: now + ASSERTION_LIFETIME_SECS,
            iss: client_id.to_owned(),
            jti,
            nbf: now,
            sub: client_id.to_owned(),
        }
    }

    /// Serializes the claims to their JSON form.
    pub fn to_json(&self) -> (r: String)
        ensures
            r@ == payload_json_of(
                self.aud@,
                self.exp as nat,
                self.iss@,
                self.jti@,
                self.nbf as nat,
                self.sub@,
            ),
    {
        let mut s = "{\"aud\":\"".to_owned();
        append_json_escaped(&mut s, self.aud.as_str());
        s.append("\",\"exp\":");
        let exp_dec = u64_to_dec(self.exp);
        s.append(exp_dec.as_str());
        s.append(",\"iss\":\"");
        append_json_escaped(&mut s, self.iss.as_str());
        s.append("\",\"jti\":\"");
        append_json_escaped(&mut s, self.jti.as_str());
        s.append("\",\"nbf\":");
        let nbf_dec = u64_to_dec(self.nbf);
        s.append(nbf_dec.as_str());
        s.append(",\"sub\":\"");
        append_json_escaped(&mut s, self.sub.as_str());
        s.append("\"}");
        s
    }
}

/// Produces a compact, signed JWT client assertion.
pub struct AssertionBuilder;

impl AssertionBuilder {
    /// The deterministic core: builds and signs the assertion for a given
    /// not-before time and assertion id. Succeeds exactly when the
    /// certificate parses and the key is a usable RSA private key; a bad
    /// certificate and a bad key each surface as their own error.
    pub fn build_with(
        cert_pem: &[u8],
        key_pem: &[u8],
        tenant_id: &str,
        client_id: &str,
        now: u64,
        jti: &str,
    ) -> (r: Result<String, TokenError>)
        requires
            now + ASSERTION_LIFETIME_SECS <= u64::MAX,
        ensures
            r is Ok <==> cert_pem_parses(cert_pem@) && rsa_key_pem_ok(key_pem@),
            r == Err::<String, TokenError>(TokenError::CertificateParseError) <==> !cert_pem_parses(
                cert_pem@,
            ),
            cert_pem_parses(cert_pem@) && !rsa_key_pem_ok(key_pem@) ==> r == Err::<
                String,
                TokenError,
            >(TokenError::KeyParseError),
            r matches Ok(s) ==> s@ == compact_jwt_of(
                cert_pem@,
                key_pem@,
                tenant_id@,
                client_id@,
                now,
                jti@,
            ),
            r matches Ok(s) ==> is_compact_jwt_shape(s@),
            r matches Err(e) ==> e == TokenError::CertificateParseError || e
                == TokenError::KeyParseError,
    {
        let header = match Header::new(cert_pem) {
            Ok(h) => h,
            Err(e) => { return Err(e) },
        };
        let payload = Payload::new(tenant_id, client_id, now, jti.to_owned());
        let header_json = header.to_json();
        let payload_json = payload.to_json();
        let h64 = b64url_encode(header_json.as_str().as_bytes());
        let p64 = b64url_encode(payload_json.as_str().as_bytes());
        let sig = match sign_rs256(key_pem, h64.as_str(), p64.as_str()) {
            Ok(s) => s,
            Err(e) => { return Err(e) },
        };
        let ghost hv = h64@;
        let ghost pv = p64@;
        let ghost gv = sig@;
        proof {
            reveal_strlit("\"}");
            assert(header_json@.len() > 0);
            assert(payload_json@.len() > 0);
            lemma_encode_utf8_nonempty(header_json@);
            lemma_encode_utf8_nonempty(payload_json@);
            lemma_b64url_of_nonempty(encode_utf8(header_json@));
            lemma_b64url_of_nonempty(encode_utf8(payload_json@));
            lemma_b64url_of_valid(encode_utf8(header_json@));
            lemma_b64url_of_valid(encode_utf8(payload_json@));
        }
        let mut out = h64;
        push_char(&mut out, '.');
        out.append(p64.as_str());
        push_char(&mut out, '.');
        out.append(sig.as_str());
        proof {
            assert(out@ =~= hv + seq!['.'] + pv + seq!['.'] + gv);
            assert(compact_parts(out@, hv, pv, gv));
            assert(hv == header_segment_of(cert_pem@));
            assert(pv == payload_segment_of(tenant_id@, client_id@, now, jti@));
            assert(out@ =~= compact_jwt_of(cert_pem@, key_pem@, tenant_id@, client_id@, now, jti@));
        }
        Ok(out)
    }

    /// Builds a signed client assertion with the current wall-clock time and
    /// a fresh assertion id: the lower-case hex of 16 bytes drawn from the
    /// random source.
    pub fn build(cert_pem: &[u8], key_pem: &[u8], tenant_id: &str, client_id: &str) -> (r: Result<
        String,
        TokenError,
    >)
        ensures
            r is Ok ==> cert_pem_parses(cert_pem@) && rsa_key_pem_ok(key_pem@),
            r matches Ok(s) ==> is_compact_jwt_shape(s@),
            r matches Ok(s) ==> exists|now: u64, rnd: Seq<u8>|
                rnd.len() == 16 && s@ == compact_jwt_of(
                    cert_pem@,
                    key_pem@,
                    tenant_id@,
                    client_id@,
                    now,
                    hex_str_of(rnd),
                ),
            r matches Err(e) ==> e == TokenError::CertificateParseError || e
                == TokenError::KeyParseError || e == TokenError::SigningError,
    {
        let now_raw = unix_now();
        let max_now = u64::MAX - ASSERTION_LIFETIME_SECS;
        let now = if now_raw > max_now {
            max_now
        } else {
            now_raw
        };
        let rb = match random_bytes_16() {
            Ok(v) => v,
            Err(e) => { return Err(e) },
        };
        let jti = bytes_to_hex(rb.as_slice());
        match Self::build_with(cert_pem, key_pem, tenant_id, client_id, now, jti.as_str()) {
            Ok(s) => {
                proof {
                    assert(rb@.len() == 16 && s@ == compact_jwt_of(
                        cert_pem@,
                        key_pem@,
                        tenant_id@,
                        client_id@,
                        now,
                        hex_str_of(rb@),
                    ));
                }
                Ok(s)
            },
            Err(e) => Err(e),
        }
    }
}

} // verus!
