//! Magic-link tokens for the email sign-in flow.
//!
//! A token is `{base64url(payload)}.{base64url(hmac)}`, where `payload` is
//! the UTF-8 text `"{email}|{expires_at_unix}|{nonce}"` and `hmac` is its
//! HMAC-SHA256 under the deployment's key. Checking a token splits it at the
//! first `.`, decodes both halves, compares the recomputed tag in constant
//! time, parses the payload and refuses it once its expiry has come. The
//! single-use nonce is consumed by the store afterwards.

use vstd::prelude::*;
use vstd::string::StringSliceAdditionalSpecFns;
use vstd::utf8::{decode_utf8, encode_utf8, encode_utf8_decode_utf8, encode_utf8_valid_utf8, valid_utf8};

use crate::accounts::clock::{now_utc, timestamp_in_range, representable_second};
use crate::accounts::crypto::{
    b64url, b64url_decoded, b64url_encode, ct_equal, decode_b64url, hmac_sha256, hmac_sha256_tag,
    is_b64url_char, lemma_b64url_alphabet, lemma_b64url_round_trip, random_bytes, utf8_text,
};
use crate::accounts::player::{first_at, lemma_first_at_unique, split_once};
use crate::number::{
    hex_pair, all_digits, decimal_string, is_digit, lemma_decimal_string_value, lemma_parse_i64_decimal,
    parse_i64, push_signed_decimal, signed_decimal_string, spec_parse_i64,
};
use crate::text::{chars_of, extend_str, string_of};

verus! {

/// Default magic-link lifetime: 15 minutes, in seconds.
pub const DEFAULT_TTL_SECS: i64 = 900;

/// Why a magic link was refused.
#[derive(Debug)]
pub enum MagicLinkError {
    /// Not `payload.signature`, not base64url, not UTF-8, or a payload
    /// without its three fields.
    Malformed,
    /// The signature is not the payload's tag under this key.
    BadSignature,
    /// The expiry has come.
    Expired,
    /// The nonce was already consumed, or never recorded.
    Reused,
    /// The nonce store failed.
    Store(sqlx::Error),
    /// The signing key could not be loaded.
    Key(std::io::Error),
}

/// Holds the deployment's 32-byte HMAC key.
#[derive(Clone)]
pub struct MagicLinkSigner {
    key: [u8; 32],
}

impl View for MagicLinkSigner {
    type V = Seq<u8>;

    closed spec fn view(&self) -> Seq<u8> {
        self.key@
    }
}

/// A freshly minted token with what the caller logs and records.
#[derive(Debug, Clone)]
pub struct MintedToken {
    /// The whole `payload.signature` text to put in the link.
    pub token: String,
    /// The nonce inside the token, to record before the link is sent.
    pub nonce: String,
    /// The expiry, in Unix seconds (the token carries these).
    pub expires_at: i64,
    /// The nanoseconds past that second (the recorded nonce keeps these).
    pub expires_nanos: u32,
    /// The address the token was minted for.
    pub email: String,
}

/// The signed text: `email|expires_at|nonce`.
pub open spec fn payload_text(email: Seq<char>, expires_at: int, nonce: Seq<char>) -> Seq<char> {
    email + seq!['|'] + signed_decimal_string(expires_at) + seq!['|'] + nonce
}

/// The token for a payload under `key`.
pub open spec fn token_text(key: Seq<u8>, payload: Seq<char>) -> Seq<char> {
    b64url(encode_utf8(payload)) + seq!['.'] + b64url(hmac_sha256(key, encode_utf8(payload)))
}

/// A nonce as minted: the base64url text of 16 bytes.
pub open spec fn is_nonce_text(n: Seq<char>) -> bool {
    exists|b: Seq<u8>| b.len() == 16 && n == b64url(b)
}

/// The fields of a payload, split at its first two `|` (the nonce keeps any
/// later `|`): the email, an expiry that parses as `i64` and is a
/// representable instant, and the nonce.
pub open spec fn payload_fields(s: Seq<char>) -> Option<(Seq<char>, int, Seq<char>)> {
    if exists|i: int| first_at(s, '|', i) {
        let i = choose|i: int| first_at(s, '|', i);
        let rest = s.skip(i + 1);
        if exists|j: int| first_at(rest, '|', j) {
            let j = choose|j: int| first_at(rest, '|', j);
            match spec_parse_i64(rest.take(j)) {
                Some(e) => if timestamp_in_range(e as int) {
                    Some((s.take(i), e as int, rest.skip(j + 1)))
                } else {
                    None
                },
                None => None,
            }
        } else {
            None
        }
    } else {
        None
    }
}

/// What checking `token` at Unix second `now` under `key` gives: the email
/// and nonce, or why the token is refused.
pub open spec fn token_verdict(key: Seq<u8>, token: Seq<char>, now: int) -> Result<
    (Seq<char>, Seq<char>),
    MagicLinkError,
> {
    if exists|i: int| first_at(token, '.', i) {
        let i = choose|i: int| first_at(token, '.', i);
        match (b64url_decoded(token.take(i)), b64url_decoded(token.skip(i + 1))) {
            (Some(payload), Some(sig)) => if hmac_sha256(key, payload) != sig {
                Err(MagicLinkError::BadSignature)
            } else if !valid_utf8(payload) {
                Err(MagicLinkError::Malformed)
            } else {
                match payload_fields(decode_utf8(payload)) {
                    Some((email, expires_at, nonce)) => if now >= expires_at {
                        Err(MagicLinkError::Expired)
                    } else {
                        Ok((email, nonce))
                    },
                    None => Err(MagicLinkError::Malformed),
                }
            },
            _ => Err(MagicLinkError::Malformed),
        }
    } else {
        Err(MagicLinkError::Malformed)
    }
}

/// `r` is the outcome `v` describes.
pub open spec fn gives(r: Result<(String, String), MagicLinkError>, v: Result<(Seq<char>, Seq<char>), MagicLinkError>) -> bool {
    match v {
        Ok((email, nonce)) => r matches Ok((e, n)) && e@ == email && n@ == nonce,
        Err(err) => r == Err::<(String, String), MagicLinkError>(err),
    }
}

impl MagicLinkSigner {
    /// A signer holding `key`.
    pub fn new(key: [u8; 32]) -> (s: Self)
        ensures
            s@ == key@,
    {
        MagicLinkSigner { key }
    }

    /// A signer from the contents of a key file: exactly 32 bytes are the
    /// key; any other length is refused.
    pub fn from_key_bytes(bytes: &[u8]) -> (r: Option<Self>)
        ensures
            bytes@.len() == 32 ==> (r matches Some(s) && s@ == bytes@),
            bytes@.len() != 32 ==> r is None,
    {
        if bytes.len() != 32 {
            return None;
        }
        let mut key = [0u8; 32];
        let mut i: usize = 0;
        while i < 32
            invariant
                bytes@.len() == 32,
                i <= 32,
                forall|k: int| 0 <= k < i ==> key@[k] == bytes@[k],
            decreases 32 - i,
        {
            key[i] = bytes[i];
            i += 1;
        }
        assert(key@ =~= bytes@);
        Some(MagicLinkSigner { key })
    }

    /// The tag of `payload` under this key.
    fn sign(&self, payload: &[u8]) -> (t: Vec<u8>)
        ensures
            t@ == hmac_sha256(self@, payload@),
    {
        hmac_sha256_tag(&self.key, payload)
    }

    /// The token for `email` expiring at the whole second `expires_at`,
    /// carrying `nonce`.
    pub fn mint_at(&self, email: &str, expires_at: i64, nonce: String) -> (m: MintedToken)
        ensures
            m.token@ == token_text(self@, payload_text(email@, expires_at as int, nonce@)),
            m.nonce == nonce,
            m.expires_at == expires_at,
            m.expires_nanos == 0,
            m.email@ == email@,
    {
        let payload = encode_payload(email, expires_at, nonce.as_str());
        let bytes = payload.as_str().as_bytes();
        let signature = self.sign(bytes);
        let head = b64url_encode(bytes);
        let tail = b64url_encode(signature.as_slice());
        let mut t = chars_of(head.as_str());
        t.push('.');
        extend_str(&mut t, tail.as_str());
        let token = string_of(&t);
        MintedToken { token, nonce, expires_at, expires_nanos: 0, email: email.to_owned() }
    }

    /// The token for `email` minted at the instant `now` (second and
    /// nanoseconds), valid for `ttl_secs` seconds and carrying `nonce`;
    /// `None` when the expiry second leaves the representable instants.
    pub fn mint_from(&self, email: &str, now: (i64, u32), ttl_secs: i64, nonce: String) -> (r: Option<
        MintedToken,
    >)
        ensures
            timestamp_in_range(now.0 + ttl_secs) ==> (r matches Some(m) && {
                &&& m.token@ == token_text(self@, payload_text(email@, now.0 + ttl_secs, nonce@))
                &&& m.nonce == nonce
                &&& m.expires_at == now.0 + ttl_secs
                &&& m.expires_nanos == now.1
                &&& m.email@ == email@
            }),
            !timestamp_in_range(now.0 + ttl_secs) ==> r is None,
    {
        let expires_at = match now.0.checked_add(ttl_secs) {
            Some(e) => e,
            None => return None,
        };
        let expires_at = match representable_second(expires_at) {
            Some(e) => e,
            None => return None,
        };
        let mut m = self.mint_at(email, expires_at, nonce);
        m.expires_nanos = now.1;
        Some(m)
    }

    /// Mints a token for `email` valid for `ttl_secs` from now, with a fresh
    /// random nonce: what `mint_from` gives for the instant the clock read
    /// and the nonce drawn.
    pub fn mint(&self, email: &str, ttl_secs: i64) -> (r: Option<MintedToken>)
        ensures
            exists|now: (int, int), nonce: Seq<char>|
                #![trigger timestamp_in_range(now.0), is_nonce_text(nonce)]
                0 <= now.0 && timestamp_in_range(now.0) && 0 <= now.1 < 1_000_000_000 && is_nonce_text(nonce) && (
                timestamp_in_range(now.0 + ttl_secs) ==> (r matches Some(m) && {
                    &&& m.token@ == token_text(self@, payload_text(email@, now.0 + ttl_secs, nonce))
                    &&& m.nonce@ == nonce
                    &&& m.expires_at == now.0 + ttl_secs
                    &&& m.expires_nanos == now.1
                    &&& m.email@ == email@
                })) && (!timestamp_in_range(now.0 + ttl_secs) ==> r is None),
    {
        let now = now_utc();
        let nonce = random_nonce();
        let r = self.mint_from(email, now, ttl_secs, nonce);
        proof {
            assert(timestamp_in_range(now.0 as int));
        }
        r
    }

    /// Checks `token` at Unix second `now`: the email and nonce it carries,
    /// or why it is refused.
    pub fn check_token(&self, token: &str, now: i64) -> (r: Result<(String, String), MagicLinkError>)
        ensures
            gives(r, token_verdict(self@, token@, now as int)),
    {
        let (head, tail) = match split_once(token, '.') {
            Some(p) => p,
            None => return Err(MagicLinkError::Malformed),
        };
        let ghost i = choose|i: int| first_at(token@, '.', i);
        proof {
            let k = choose|k: int| first_at(token@, '.', k) && head@ == token@.take(k) && tail@ == token@.skip(k + 1);
            lemma_first_at_unique(token@, '.', i, k);
        }
        let payload = match decode_b64url(head.as_str()) {
            Some(p) => p,
            None => return Err(MagicLinkError::Malformed),
        };
        let supplied = match decode_b64url(tail.as_str()) {
            Some(s) => s,
            None => return Err(MagicLinkError::Malformed),
        };
        let expected = self.sign(payload.as_slice());
        if !ct_equal(expected.as_slice(), supplied.as_slice()) {
            return Err(MagicLinkError::BadSignature);
        }
        let ghost payload_bytes = payload@;
        let text = match utf8_text(payload) {
            Some(t) => t,
            None => return Err(MagicLinkError::Malformed),
        };
        let (email, expires_at, nonce) = match decode_payload(text.as_str()) {
            Ok(f) => f,
            Err(e) => return Err(e),
        };
        if now >= expires_at {
            return Err(MagicLinkError::Expired);
        }
        Ok((email, nonce))
    }

    /// Checks `token` against the current time.
    pub fn check_token_now(&self, token: &str) -> (r: Result<(String, String), MagicLinkError>)
        ensures
            exists|now: int| timestamp_in_range(now) && gives(r, token_verdict(self@, token@, now)),
    {
        let (now, _) = now_utc();
        self.check_token(token, now)
    }
}

/// The outcome of consuming a checked token's nonce: the email when the
/// store marked a row, `Reused` when it marked none.
pub fn consume_outcome(email: String, rows_affected: u64) -> (r: Result<String, MagicLinkError>)
    ensures
        rows_affected == 0 ==> r matches Err(MagicLinkError::Reused),
        rows_affected != 0 ==> r == Ok::<String, MagicLinkError>(email),
{
    if rows_affected == 0 {
        Err(MagicLinkError::Reused)
    } else {
        Ok(email)
    }
}

/// A fresh nonce: 16 random bytes in base64url.
fn random_nonce() -> (n: String)
    ensures
        is_nonce_text(n@),
{
    let bytes: [u8; 16] = random_bytes();
    let n = b64url_encode(&bytes);
    assert(bytes@.len() == 16);
    n
}

/// `email|expires_at|nonce`.
fn encode_payload(email: &str, expires_at: i64, nonce: &str) -> (s: String)
    ensures
        s@ == payload_text(email@, expires_at as int, nonce@),
{
    let mut v = chars_of(email);
    v.push('|');
    push_signed_decimal(&mut v, expires_at);
    v.push('|');
    extend_str(&mut v, nonce);
    string_of(&v)
}

/// The email, expiry and nonce of a payload.
fn decode_payload(s: &str) -> (r: Result<(String, i64, String), MagicLinkError>)
    ensures
        match payload_fields(s@) {
            Some((email, expires_at, nonce)) => r matches Ok((e, x, n)) && e@ == email && x == expires_at
                && n@ == nonce,
            None => r matches Err(MagicLinkError::Malformed),
        },
{
    let (email, rest) = match split_once(s, '|') {
        Some(p) => p,
        None => return Err(MagicLinkError::Malformed),
    };
    proof {
        let i = choose|i: int| first_at(s@, '|', i);
        let k = choose|k: int| first_at(s@, '|', k) && email@ == s@.take(k) && rest@ == s@.skip(k + 1);
        lemma_first_at_unique(s@, '|', i, k);
    }
    let (exp_text, nonce) = match split_once(rest.as_str(), '|') {
        Some(p) => p,
        None => return Err(MagicLinkError::Malformed),
    };
    proof {
        let j = choose|j: int| first_at(rest@, '|', j);
        let k = choose|k: int| first_at(rest@, '|', k) && exp_text@ == rest@.take(k) && nonce@ == rest@.skip(k + 1);
        lemma_first_at_unique(rest@, '|', j, k);
    }
    let digits = chars_of(exp_text.as_str());
    let expires_at = match parse_i64(&digits) {
        Some(e) => e,
        None => return Err(MagicLinkError::Malformed),
    };
    let expires_at = match representable_second(expires_at) {
        Some(e) => e,
        None => return Err(MagicLinkError::Malformed),
    };
    Ok((email, expires_at, nonce))
}

// ───────────────────────────── Key text ──────────────────────────────────────

/// The 32 bytes a text of 64 ASCII hex digits stands for, pair by pair;
/// `None` for any other text.
pub open spec fn hex_key(b: Seq<u8>) -> Option<Seq<u8>> {
    if b.len() == 64 && forall|i: int| 0 <= i < 32 ==> (#[trigger] hex_pair(b[2 * i], b[2 * i + 1])) is Some {
        Some(Seq::new(32, |i: int| hex_pair(b[2 * i], b[2 * i + 1])->0))
    } else {
        None
    }
}

/// Cutting a 64-byte text into two-byte pieces cuts at character boundaries.
pub open spec fn pairs_cuttable(s: &str) -> bool {
    s.spec_bytes().len() == 64 ==> forall|i: int|
        0 <= i <= 32 ==> #[trigger] vstd::utf8::is_char_boundary(s.spec_bytes(), 2 * i)
}

/// The 32-byte key a 64-character hex text gives (`OPEN4X_LOBBY_HMAC_KEY`).
pub fn hex_decode_32(s: &str) -> (r: Option<[u8; 32]>)
    requires
        pairs_cuttable(s),
    ensures
        match hex_key(s.spec_bytes()) {
            Some(k) => r matches Some(a) && a@ == k,
            None => r is None,
        },
{
    let b = s.as_bytes();
    if b.len() != 64 {
        return None;
    }
    let mut out = [0u8; 32];
    let mut i: usize = 0;
    while i < 32
        invariant
            b@ == s.spec_bytes(),
            b@.len() == 64,
            i <= 32,
            forall|k: int| 0 <= k < i ==> (#[trigger] hex_pair(b@[2 * k], b@[2 * k + 1])) is Some && out@[k]
                == hex_pair(b@[2 * k], b@[2 * k + 1])->0,
        decreases 32 - i,
    {
        let x = b[2 * i];
        let y = b[2 * i + 1];
        let xd = (0x30 <= x && x <= 0x39) || (0x61 <= x && x <= 0x66) || (0x41 <= x && x <= 0x46);
        let yd = (0x30 <= y && y <= 0x39) || (0x61 <= y && y <= 0x66) || (0x41 <= y && y <= 0x46);
        if !yd {
            assert(hex_pair(b@[2 * i as int], b@[2 * i as int + 1]) is None);
            return None;
        }
        let yv: u8 = if y <= 0x39 {
            y - 0x30
        } else if y >= 0x61 {
            y - 0x61 + 10
        } else {
            y - 0x41 + 10
        };
        if !xd {
            assert(hex_pair(b@[2 * i as int], b@[2 * i as int + 1]) is None);
            return None;
        }
        let xv: u8 = if x <= 0x39 {
            x - 0x30
        } else if x >= 0x61 {
            x - 0x61 + 10
        } else {
            x - 0x41 + 10
        };
        let v: u8 = xv * 16 + yv;
        out[i] = v;
        i += 1;
    }
    assert(out@ =~= hex_key(b@)->0);
    Some(out)
}

// ───────────────────────────── Laws ──────────────────────────────────────────

/// The fields of a payload built from an email without `|`.
proof fn lemma_payload_fields(email: Seq<char>, expires_at: i64, nonce: Seq<char>)
    requires
        forall|i: int| 0 <= i < email.len() ==> email[i] != '|',
        timestamp_in_range(expires_at as int),
    ensures
        payload_fields(payload_text(email, expires_at as int, nonce)) == Some((email, expires_at as int, nonce)),
{
    let d = signed_decimal_string(expires_at as int);
    let p = payload_text(email, expires_at as int, nonce);
    assert(first_at(p, '|', email.len() as int));
    let i = choose|i: int| first_at(p, '|', i);
    lemma_first_at_unique(p, '|', i, email.len() as int);
    let rest = p.skip(i + 1);
    assert(rest =~= d + seq!['|'] + nonce);
    assert forall|k: int| 0 <= k < d.len() implies d[k] != '|' by {
        if expires_at < 0 {
            let m = decimal_string((-expires_at) as nat);
            lemma_decimal_string_value((-expires_at) as nat);
            if k > 0 {
                assert(d[k] == m[k - 1]);
                assert(is_digit(m[k - 1]));
            }
        } else {
            lemma_decimal_string_value(expires_at as nat);
            assert(is_digit(d[k]));
        }
    }
    assert(first_at(rest, '|', d.len() as int));
    let j = choose|j: int| first_at(rest, '|', j);
    lemma_first_at_unique(rest, '|', j, d.len() as int);
    assert(rest.take(j) =~= d);
    lemma_parse_i64_decimal(expires_at);
    assert(p.take(i) =~= email);
    assert(rest.skip(j + 1) =~= nonce);
}

/// A minted token checks out: before its expiry it gives back the email and
/// nonce it was minted with; from its expiry on it is refused as expired.
pub proof fn minted_token_checks_out(
    key: Seq<u8>,
    email: Seq<char>,
    expires_at: i64,
    nonce: Seq<char>,
    now: int,
)
    requires
        forall|i: int| 0 <= i < email.len() ==> email[i] != '|',
        timestamp_in_range(expires_at as int),
    ensures
        token_verdict(key, token_text(key, payload_text(email, expires_at as int, nonce)), now) == (if now
            >= expires_at {
            Err::<(Seq<char>, Seq<char>), MagicLinkError>(MagicLinkError::Expired)
        } else {
            Ok((email, nonce))
        }),
{
    let p = payload_text(email, expires_at as int, nonce);
    let pb = encode_utf8(p);
    let head = b64url(pb);
    let tag = hmac_sha256(key, pb);
    let token = token_text(key, p);
    lemma_b64url_alphabet(pb);
    assert forall|j: int| 0 <= j < head.len() implies token[j] != '.' by {
        assert(token[j] == head[j]);
        assert(is_b64url_char(head[j]));
    }
    assert(first_at(token, '.', head.len() as int));
    let i = choose|i: int| first_at(token, '.', i);
    lemma_first_at_unique(token, '.', i, head.len() as int);
    assert(token.take(i) =~= head);
    assert(token.skip(i + 1) =~= b64url(tag));
    lemma_b64url_round_trip(pb);
    lemma_b64url_round_trip(tag);
    encode_utf8_valid_utf8(p);
    encode_utf8_decode_utf8(p);
    lemma_payload_fields(email, expires_at, nonce);
}

/// A token whose signature half is not the base64url of the payload's tag
/// under the key is refused, as a bad signature or as malformed.
pub proof fn forged_token_refused(key: Seq<u8>, payload: Seq<u8>, sig: Seq<char>, now: int)
    requires
        sig != b64url(hmac_sha256(key, payload)),
    ensures
        token_verdict(key, b64url(payload) + seq!['.'] + sig, now) matches Err(MagicLinkError::BadSignature)
            || token_verdict(key, b64url(payload) + seq!['.'] + sig, now) matches Err(
            MagicLinkError::Malformed,
        ),
{
    let head = b64url(payload);
    let token = head + seq!['.'] + sig;
    lemma_b64url_alphabet(payload);
    assert forall|j: int| 0 <= j < head.len() implies token[j] != '.' by {
        assert(token[j] == head[j]);
        assert(is_b64url_char(head[j]));
    }
    assert(first_at(token, '.', head.len() as int));
    let i = choose|i: int| first_at(token, '.', i);
    lemma_first_at_unique(token, '.', i, head.len() as int);
    assert(token.take(i) =~= head);
    assert(token.skip(i + 1) =~= sig);
    lemma_b64url_round_trip(payload);
}

} // verus!
