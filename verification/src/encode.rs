//! Base64url encoding (RFC 4648 section 5, no padding), as JWT compact
//! serialization uses for its three segments.
//!
//! Some deployed token generators emit the standard padded base64 alphabet
//! for the header and payload segments instead. The unpadded base64url form
//! here is deliberate: it is what the JWS compact serialization (RFC 7515)
//! prescribes and what the identity provider's verifier expects.

use vstd::prelude::*;

verus! {

/// The 64 characters of the base64url alphabet, in value order.
pub open spec fn b64url_alphabet() -> Seq<char> {
    seq![
        'A', 'B', 'C', 'D', 'E', 'F', 'G', 'H', 'I', 'J', 'K', 'L', 'M', 'N', 'O', 'P',
        'Q', 'R', 'S', 'T', 'U', 'V', 'W', 'X', 'Y', 'Z', 'a', 'b', 'c', 'd', 'e', 'f',
        'g', 'h', 'i', 'j', 'k', 'l', 'm', 'n', 'o', 'p', 'q', 'r', 's', 't', 'u', 'v',
        'w', 'x', 'y', 'z', '0', '1', '2', '3', '4', '5', '6', '7', '8', '9', '-', '_',
    ]
}

/// The alphabet character for a 6-bit value.
pub open spec fn b64url_char(v: int) -> char
    recommends
        0 <= v < 64,
{
    b64url_alphabet()[v]
}

/// The base64url encoding of a byte sequence, without padding: groups of
/// three bytes become four characters; a final group of one or two bytes
/// becomes two or three characters.
pub open spec fn b64url_of(bytes: Seq<u8>) -> Seq<char>
    decreases bytes.len(),
{
    if bytes.len() == 0 {
        seq![]
    } else if bytes.len() == 1 {
        seq![
            b64url_char((bytes[0] >> 2) as int),
            b64url_char(((bytes[0] & 0x03) << 4) as int),
        ]
    } else if bytes.len() == 2 {
        seq![
            b64url_char((bytes[0] >> 2) as int),
            b64url_char((((bytes[0] & 0x03) << 4) | (bytes[1] >> 4)) as int),
            b64url_char(((bytes[1] & 0x0f) << 2) as int),
        ]
    } else {
        seq![
            b64url_char((bytes[0] >> 2) as int),
            b64url_char((((bytes[0] & 0x03) << 4) | (bytes[1] >> 4)) as int),
            b64url_char((((bytes[1] & 0x0f) << 2) | (bytes[2] >> 6)) as int),
            b64url_char((bytes[2] & 0x3f) as int),
        ] + b64url_of(bytes.skip(3))
    }
}

/// Whether a character belongs to the base64url alphabet.
pub open spec fn is_b64url_char(c: char) -> bool {
    ||| 'A' as u32 <= c as u32 <= 'Z' as u32
    ||| 'a' as u32 <= c as u32 <= 'z' as u32
    ||| '0' as u32 <= c as u32 <= '9' as u32
    ||| c == '-'
    ||| c == '_'
}

/// Whether every character of a sequence belongs to the base64url alphabet.
pub open spec fn all_b64url_chars(s: Seq<char>) -> bool {
    forall|i: int| 0 <= i < s.len() ==> is_b64url_char(s[i])
}

proof fn lemma_b64url_char_valid(v: int)
    requires
        0 <= v < 64,
    ensures
        is_b64url_char(b64url_char(v)),
{
    assert forall|u: int| 0 <= u < 64 implies is_b64url_char(b64url_alphabet()[u]) by {
        if u < 26 {
        } else if u < 52 {
        } else if u < 62 {
        } else {
        }
    }
}

/// Every character of a base64url encoding belongs to the alphabet.
pub proof fn lemma_b64url_of_valid(bytes: Seq<u8>)
    ensures
        all_b64url_chars(b64url_of(bytes)),
    decreases bytes.len(),
{
    if bytes.len() == 0 {
    } else if bytes.len() == 1 {
        let b0 = bytes[0];
        assert(b0 >> 2 < 64 && (b0 & 0x03) << 4 < 64) by (bit_vector);
        lemma_b64url_char_valid((b0 >> 2) as int);
        lemma_b64url_char_valid(((b0 & 0x03) << 4) as int);
    } else if bytes.len() == 2 {
        let b0 = bytes[0];
        let b1 = bytes[1];
        assert(b0 >> 2 < 64 && ((b0 & 0x03) << 4) | (b1 >> 4) < 64 && (b1 & 0x0f) << 2 < 64)
            by (bit_vector);
        lemma_b64url_char_valid((b0 >> 2) as int);
        lemma_b64url_char_valid((((b0 & 0x03) << 4) | (b1 >> 4)) as int);
        lemma_b64url_char_valid(((b1 & 0x0f) << 2) as int);
    } else {
        let b0 = bytes[0];
        let b1 = bytes[1];
        let b2 = bytes[2];
        assert(b0 >> 2 < 64 && ((b0 & 0x03) << 4) | (b1 >> 4) < 64
            && ((b1 & 0x0f) << 2) | (b2 >> 6) < 64 && b2 & 0x3f < 64) by (bit_vector);
        lemma_b64url_char_valid((b0 >> 2) as int);
        lemma_b64url_char_valid((((b0 & 0x03) << 4) | (b1 >> 4)) as int);
        lemma_b64url_char_valid((((b1 & 0x0f) << 2) | (b2 >> 6)) as int);
        lemma_b64url_char_valid((b2 & 0x3f) as int);
        lemma_b64url_of_valid(bytes.skip(3));
    }
}

/// The length of a base64url encoding: four characters for every full group
/// of three bytes, plus two or three for a trailing group of one or two.
pub proof fn lemma_b64url_of_len(bytes: Seq<u8>)
    ensures
        b64url_of(bytes).len() == 4 * (bytes.len() / 3) + (
        if bytes.len() % 3 == 0 {
            0int
        } else {
            bytes.len() % 3 + 1int
        }),
    decreases bytes.len(),
{
    if bytes.len() >= 3 {
        lemma_b64url_of_len(bytes.skip(3));
    }
}

/// A non-empty byte sequence has a non-empty base64url encoding.
pub proof fn lemma_b64url_of_nonempty(bytes: Seq<u8>)
    requires
        bytes.len() > 0,
    ensures
        b64url_of(bytes).len() > 0,
{
    lemma_b64url_of_len(bytes);
}

/// Relies on base64's `BASE64_URL_SAFE_NO_PAD` engine: base64url (RFC 4648
/// section 5) encoding without padding, a function of the input bytes alone.
#[verifier::external_body]
pub(crate) fn b64url_encode(bytes: &[u8]) -> (r: String)
    ensures
        r@ == b64url_of(bytes@),
{
    base64::Engine::encode(&base64::prelude::BASE64_URL_SAFE_NO_PAD, bytes)
}

} // verus!
