//! The primitives behind sign-in tokens: base64url without padding, SHA-256,
//! HMAC-SHA256, constant-time comparison, UTF-8 decoding and randomness.

use base64::engine::general_purpose::URL_SAFE_NO_PAD;
use base64::Engine;
use hmac::{Hmac, Mac};
use sha2::{Digest, Sha256};
use subtle::ConstantTimeEq;
use vstd::prelude::*;

verus! {

// ───────────────────────────── base64url ─────────────────────────────────────

/// The character of the base64url alphabet (RFC 4648 §5) for a 6-bit value.
pub open spec fn b64url_char(v: int) -> char {
    if v < 26 {
        (v + 'A' as int) as char
    } else if v < 52 {
        (v - 26 + 'a' as int) as char
    } else if v < 62 {
        (v - 52 + '0' as int) as char
    } else if v == 62 {
        '-'
    } else {
        '_'
    }
}

/// Base64url of `b` without padding: every 3 bytes become 4 characters, a
/// final 1 or 2 bytes become 2 or 3 characters.
pub open spec fn b64url(b: Seq<u8>) -> Seq<char>
    decreases b.len(),
{
    if b.len() == 0 {
        seq![]
    } else if b.len() == 1 {
        seq![b64url_char(b[0] as int / 4), b64url_char((b[0] as int % 4) * 16)]
    } else if b.len() == 2 {
        seq![
            b64url_char(b[0] as int / 4),
            b64url_char((b[0] as int % 4) * 16 + b[1] as int / 16),
            b64url_char((b[1] as int % 16) * 4),
        ]
    } else {
        seq![
            b64url_char(b[0] as int / 4),
            b64url_char((b[0] as int % 4) * 16 + b[1] as int / 16),
            b64url_char((b[1] as int % 16) * 4 + b[2] as int / 64),
            b64url_char(b[2] as int % 64),
        ] + b64url(b.skip(3))
    }
}

/// The bytes whose base64url encoding is `s`, if there are any.
pub open spec fn b64url_decoded(s: Seq<char>) -> Option<Seq<u8>> {
    if exists|b: Seq<u8>| b64url(b) == s {
        Some(choose|b: Seq<u8>| b64url(b) == s)
    } else {
        None
    }
}

/// A character of the base64url alphabet.
pub open spec fn is_b64url_char(c: char) -> bool {
    ||| ('A' <= c && c <= 'Z')
    ||| ('a' <= c && c <= 'z')
    ||| ('0' <= c && c <= '9')
    ||| c == '-'
    ||| c == '_'
}

proof fn lemma_b64url_char(v: int, w: int)
    requires
        0 <= v < 64,
        0 <= w < 64,
    ensures
        is_b64url_char(b64url_char(v)),
        b64url_char(v) == b64url_char(w) ==> v == w,
{
}

/// Every character of an encoding is in the base64url alphabet.
pub proof fn lemma_b64url_alphabet(b: Seq<u8>)
    ensures
        forall|i: int| 0 <= i < b64url(b).len() ==> is_b64url_char(#[trigger] b64url(b)[i]),
    decreases b.len(),
{
    let e = b64url(b);
    if b.len() >= 1 {
        lemma_b64url_char(b[0] as int / 4, 0);
        if b.len() == 1 {
            lemma_b64url_char((b[0] as int % 4) * 16, 0);
        } else {
            lemma_b64url_char((b[0] as int % 4) * 16 + b[1] as int / 16, 0);
            if b.len() == 2 {
                lemma_b64url_char((b[1] as int % 16) * 4, 0);
            } else {
                lemma_b64url_char((b[1] as int % 16) * 4 + b[2] as int / 64, 0);
                lemma_b64url_char(b[2] as int % 64, 0);
                lemma_b64url_alphabet(b.skip(3));
                assert forall|i: int| 0 <= i < e.len() implies is_b64url_char(#[trigger] e[i]) by {
                    if i >= 4 {
                        assert(e[i] == b64url(b.skip(3))[i - 4]);
                    }
                }
            }
        }
    }
}

/// The length of an encoding: four characters per three bytes, plus two or
/// three for a final one or two bytes.
pub proof fn lemma_b64url_len(b: Seq<u8>)
    ensures
        b64url(b).len() == 4 * (b.len() / 3) + (if b.len() % 3 == 0 {
            0int
        } else {
            b.len() % 3 + 1int
        }),
    decreases b.len(),
{
    if b.len() >= 3 {
        lemma_b64url_len(b.skip(3));
    }
}

proof fn lemma_byte_split(x: u8, y: u8)
    ensures
        (x as int % 4) * 16 + y as int / 16 < 64,
        (x as int % 16) * 4 + y as int / 64 < 64,
{
}

proof fn lemma_digit_pair(p: int, q: int, p2: int, q2: int, m: int)
    by (nonlinear_arith)
    requires
        0 <= q < m,
        0 <= q2 < m,
        p * m + q == p2 * m + q2,
        m > 0,
    ensures
        p == p2,
        q == q2,
{
}

/// Distinct byte strings have distinct encodings.
pub proof fn lemma_b64url_injective(a: Seq<u8>, b: Seq<u8>)
    requires
        b64url(a) == b64url(b),
    ensures
        a == b,
    decreases a.len(),
{
    lemma_b64url_len(a);
    lemma_b64url_len(b);
    let ea = b64url(a);
    let eb = b64url(b);
    assert(a.len() == b.len());
    if a.len() >= 1 {
        lemma_byte_split(a[0], 0);
        lemma_byte_split(b[0], 0);
        assert(ea[0] == eb[0]);
        assert(ea[0] == b64url_char(a[0] as int / 4));
        assert(eb[0] == b64url_char(b[0] as int / 4));
        lemma_b64url_char(a[0] as int / 4, b[0] as int / 4);
        if a.len() == 1 {
            assert(ea[1] == eb[1]);
            lemma_b64url_char((a[0] as int % 4) * 16, (b[0] as int % 4) * 16);
            assert(a =~= b);
        } else {
            assert(ea[1] == eb[1]);
            assert(ea[1] == b64url_char((a[0] as int % 4) * 16 + a[1] as int / 16));
            assert(eb[1] == b64url_char((b[0] as int % 4) * 16 + b[1] as int / 16));
            lemma_byte_split(a[0], a[1]);
            lemma_byte_split(b[0], b[1]);
            lemma_b64url_char(
                (a[0] as int % 4) * 16 + a[1] as int / 16,
                (b[0] as int % 4) * 16 + b[1] as int / 16,
            );
            lemma_digit_pair(a[0] as int % 4, a[1] as int / 16, b[0] as int % 4, b[1] as int / 16, 16);
            assert(a[0] as int == 4 * (a[0] as int / 4) + a[0] as int % 4);
            assert(b[0] as int == 4 * (b[0] as int / 4) + b[0] as int % 4);
            assert(a[0] == b[0]);
            if a.len() == 2 {
                assert(ea[2] == eb[2]);
                assert(ea[2] == b64url_char((a[1] as int % 16) * 4));
                assert(eb[2] == b64url_char((b[1] as int % 16) * 4));
                lemma_b64url_char((a[1] as int % 16) * 4, (b[1] as int % 16) * 4);
                lemma_digit_pair(a[1] as int % 16, 0, b[1] as int % 16, 0, 4);
                assert(a[1] == b[1]);
                assert(a =~= b);
            } else {
                assert(ea[2] == eb[2]);
                assert(ea[3] == eb[3]);
                assert(ea[2] == b64url_char((a[1] as int % 16) * 4 + a[2] as int / 64));
                assert(eb[2] == b64url_char((b[1] as int % 16) * 4 + b[2] as int / 64));
                assert(ea[3] == b64url_char(a[2] as int % 64));
                assert(eb[3] == b64url_char(b[2] as int % 64));
                lemma_byte_split(a[1], a[2]);
                lemma_byte_split(b[1], b[2]);
                lemma_b64url_char(
                    (a[1] as int % 16) * 4 + a[2] as int / 64,
                    (b[1] as int % 16) * 4 + b[2] as int / 64,
                );
                lemma_b64url_char(a[2] as int % 64, b[2] as int % 64);
                lemma_digit_pair(a[1] as int % 16, a[2] as int / 64, b[1] as int % 16, b[2] as int / 64, 4);
                assert(a[1] == b[1]);
                assert(a[2] == b[2]);
                assert(b64url(a.skip(3)) =~= ea.skip(4));
                assert(b64url(b.skip(3)) =~= eb.skip(4));
                lemma_b64url_injective(a.skip(3), b.skip(3));
                assert(a =~= b) by {
                    assert forall|i: int| 0 <= i < a.len() implies a[i] == b[i] by {
                        if i >= 3 {
                            assert(a[i] == a.skip(3)[i - 3]);
                            assert(b[i] == b.skip(3)[i - 3]);
                        }
                    }
                }
            }
        }
    } else {
        assert(a =~= b);
    }
}

/// Decoding gives back what was encoded.
pub proof fn lemma_b64url_round_trip(b: Seq<u8>)
    ensures
        b64url_decoded(b64url(b)) == Some(b),
{
    let s = b64url(b);
    assert(exists|c: Seq<u8>| b64url(c) == s);
    let c = choose|c: Seq<u8>| b64url(c) == s;
    lemma_b64url_injective(c, b);
}

/// `URL_SAFE_NO_PAD.encode`: base64url, without padding.
#[verifier::external_body]
pub(crate) fn b64url_encode(bytes: &[u8]) -> (s: String)
    ensures
        s@ == b64url(bytes@),
{
    URL_SAFE_NO_PAD.encode(bytes)
}

/// `URL_SAFE_NO_PAD.decode`: succeeds exactly on the encodings of byte
/// strings (no padding, no stray trailing bits), with the bytes encoded.
#[verifier::external_body]
pub(crate) fn b64url_decode(s: &str) -> (r: Option<Vec<u8>>)
    ensures
        r matches Some(v) ==> b64url(v@) == s@,
        r is None ==> forall|b: Seq<u8>| b64url(b) != s@,
{
    match URL_SAFE_NO_PAD.decode(s) {
        Ok(v) => Some(v),
        Err(_) => None,
    }
}

/// Decodes base64url text.
pub fn decode_b64url(s: &str) -> (r: Option<Vec<u8>>)
    ensures
        match b64url_decoded(s@) {
            Some(b) => r matches Some(v) && v@ == b,
            None => r is None,
        },
{
    let r = b64url_decode(s);
    proof {
        if r is Some {
            let v = r->0;
            let c = choose|c: Seq<u8>| b64url(c) == s@;
            lemma_b64url_injective(c, v@);
        }
    }
    r
}

// ───────────────────────────── Digests ───────────────────────────────────────

/// The SHA-256 digest of a message.
pub uninterp spec fn sha256(msg: Seq<u8>) -> Seq<u8>;

/// `Sha256::digest`: the 32-byte SHA-256 digest of `msg`.
#[verifier::external_body]
pub(crate) fn sha256_digest(msg: &[u8]) -> (d: Vec<u8>)
    ensures
        d@ == sha256(msg@),
        d@.len() == 32,
{
    let mut h = Sha256::new();
    h.update(msg);
    h.finalize().to_vec()
}

/// The HMAC-SHA256 tag of a message under a key.
pub uninterp spec fn hmac_sha256(key: Seq<u8>, msg: Seq<u8>) -> Seq<u8>;

/// `Hmac::<Sha256>`: the 32-byte tag of `msg` under `key`. HMAC accepts
/// keys of every length, so construction never fails.
#[verifier::external_body]
pub(crate) fn hmac_sha256_tag(key: &[u8], msg: &[u8]) -> (t: Vec<u8>)
    ensures
        t@ == hmac_sha256(key@, msg@),
        t@.len() == 32,
{
    let mut mac = Hmac::<Sha256>::new_from_slice(key).expect("HMAC accepts any key length");
    mac.update(msg);
    mac.finalize().into_bytes().to_vec()
}

/// `ConstantTimeEq` on byte slices: equal lengths and equal bytes.
#[verifier::external_body]
pub(crate) fn ct_equal(a: &[u8], b: &[u8]) -> (r: bool)
    ensures
        r == (a@ == b@),
{
    bool::from(a.ct_eq(b))
}

// ───────────────────────────── Text and randomness ───────────────────────────

/// `String::from_utf8`: the text the bytes encode, when they are valid UTF-8.
#[verifier::external_body]
pub(crate) fn utf8_text(bytes: Vec<u8>) -> (r: Option<String>)
    ensures
        r matches Some(s) ==> vstd::utf8::valid_utf8(bytes@) && s@ == vstd::utf8::decode_utf8(bytes@),
        r is None ==> !vstd::utf8::valid_utf8(bytes@),
{
    match String::from_utf8(bytes) {
        Ok(s) => Some(s),
        Err(_) => None,
    }
}

/// `rand::random`: `N` bytes from the thread-local generator. Nothing is
/// known of them.
#[verifier::external_body]
pub(crate) fn random_bytes<const N: usize>() -> (r: [u8; N]) {
    rand::random()
}

} // verus!
