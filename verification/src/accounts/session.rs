//! Session tokens: mint, look up, resolve.
//!
//! A bearer is `lobby_` followed by the base64url of 48 random bytes. It is
//! shown to its owner once; the store keeps only the lowercase hex of its
//! SHA-256, so the stored rows cannot be used to sign in.

use vstd::prelude::*;
use vstd::string::StringSliceAdditionalSpecFns;
use vstd::utf8::encode_utf8;

use crate::accounts::clock::{
    format_rfc3339, four_digit_year, instant_le, now_utc, parse_rfc3339, rfc3339_instant, rfc3339_text,
    timestamp_in_range, representable_second,
};
use crate::accounts::crypto::{b64url, b64url_encode, random_bytes, sha256, sha256_digest};
use crate::accounts::player::{player_id_key, player_id_text, player_id_text_round_trip, PlayerId};
use crate::number::{hex_lower_bytes, parse_hex_u64, push_hex_bytes, spec_parse_hex_u64};
use crate::text::{chars_of, extend_str, string_of};

verus! {

/// Default session lifetime: 30 days, in seconds.
pub const DEFAULT_TTL_SECS: i64 = 2_592_000;

/// Why a session lookup failed.
#[derive(Debug)]
pub enum SessionError {
    /// The store failed.
    Sqlx(sqlx::Error),
    /// A stored field did not parse; names the field.
    Invalid(&'static str),
}

/// A freshly minted bearer. It has no `Display`: hand it to a cookie or
/// header helper rather than logging it.
#[derive(Debug, Clone)]
pub struct RawToken(String);

impl View for RawToken {
    type V = Seq<char>;

    closed spec fn view(&self) -> Seq<char> {
        self.0@
    }
}

impl RawToken {
    /// The bearer text.
    pub fn as_str(&self) -> (s: &str)
        ensures
            s@ == self@,
    {
        self.0.as_str()
    }

    /// The bearer text, by value.
    pub fn into_string(self) -> (s: String)
        ensures
            s@ == self@,
    {
        self.0
    }
}

/// The bearer prefix, `lobby_`.
pub open spec fn token_prefix() -> Seq<char> {
    seq!['l', 'o', 'b', 'b', 'y', '_']
}

/// The bearer for the random bytes `b`.
pub open spec fn session_token_text(b: Seq<u8>) -> Seq<char> {
    token_prefix() + b64url(b)
}

/// The store's key for a bearer: lowercase hex of the SHA-256 of its UTF-8.
pub open spec fn token_hash_text(raw: Seq<char>) -> Seq<char> {
    hex_lower_bytes(sha256(encode_utf8(raw)))
}

/// A minted bearer carries the prefix, so looking it up uses the key its
/// row was stored under: the lookup key of `session_token_text(b)` is
/// `token_hash_text` of it, the `token_hash` that `session_row` writes.
pub proof fn minted_bearer_is_looked_up(b: Seq<u8>)
    ensures
        session_token_text(b).len() >= 6,
        session_token_text(b).take(6) == token_prefix(),
{
    assert(session_token_text(b).take(6) =~= token_prefix());
}

/// The bearer for the given random bytes.
pub fn token_from_bytes(bytes: &[u8]) -> (t: RawToken)
    ensures
        t@ == session_token_text(bytes@),
{
    let body = b64url_encode(bytes);
    let mut v: Vec<char> = Vec::new();
    v.push('l');
    v.push('o');
    v.push('b');
    v.push('b');
    v.push('y');
    v.push('_');
    extend_str(&mut v, body.as_str());
    RawToken(string_of(&v))
}

/// A fresh bearer from 48 random bytes.
pub fn new_session_token() -> (t: RawToken)
    ensures
        exists|b: Seq<u8>| b.len() == 48 && t@ == session_token_text(b),
{
    let bytes: [u8; 48] = random_bytes();
    let t = token_from_bytes(&bytes);
    assert(bytes@.len() == 48);
    t
}

/// Lowercase hex of the SHA-256 of `bytes`.
pub fn sha256_hex(bytes: &[u8]) -> (s: String)
    ensures
        s@ == hex_lower_bytes(sha256(bytes@)),
{
    let digest = sha256_digest(bytes);
    let mut v: Vec<char> = Vec::new();
    push_hex_bytes(&mut v, digest.as_slice());
    string_of(&v)
}

/// Whether `raw` starts with `lobby_`.
fn has_token_prefix(raw: &str) -> (b: bool)
    ensures
        b == (raw@.len() >= 6 && raw@.take(6) == token_prefix()),
{
    let v = chars_of(raw);
    if v.len() < 6 {
        return false;
    }
    let ok = v[0] == 'l' && v[1] == 'o' && v[2] == 'b' && v[3] == 'b' && v[4] == 'y' && v[5] == '_';
    proof {
        if ok {
            assert(raw@.take(6) =~= token_prefix());
        } else {
            assert(raw@.take(6)[0] == v@[0]);
            assert(token_prefix()[0] == 'l');
            if raw@.take(6) == token_prefix() {
                assert(raw@.take(6)[1] == token_prefix()[1]);
                assert(raw@.take(6)[2] == token_prefix()[2]);
                assert(raw@.take(6)[3] == token_prefix()[3]);
                assert(raw@.take(6)[4] == token_prefix()[4]);
                assert(raw@.take(6)[5] == token_prefix()[5]);
            }
        }
    }
    ok
}

/// The store key to look a bearer up by, or `None` for a text without the
/// `lobby_` prefix, which is refused without a lookup.
pub fn token_lookup_key(raw: &str) -> (r: Option<String>)
    ensures
        (raw@.len() >= 6 && raw@.take(6) == token_prefix()) ==> (r matches Some(k) && k@ == token_hash_text(
            raw@,
        )),
        !(raw@.len() >= 6 && raw@.take(6) == token_prefix()) ==> r is None,
{
    if !has_token_prefix(raw) {
        return None;
    }
    Some(sha256_hex(raw.as_bytes()))
}

/// The row a new session is stored as.
#[derive(Debug, Clone)]
pub struct SessionRow {
    /// The bearer's store key.
    pub token_hash: String,
    /// The owner's storage key (`{:016X}`).
    pub player_id: String,
    /// RFC 3339 of the minting instant.
    pub created_at: String,
    /// RFC 3339 of the expiry.
    pub expires_at: String,
}

/// The row for bearer `raw` of `player_id`, minted at `now` (second and
/// nanoseconds) for `ttl_secs`; `None` when the expiry is not representable.
pub fn session_row(player_id: PlayerId, raw: &RawToken, now: (i64, u32), ttl_secs: i64) -> (r: Option<SessionRow>)
    requires
        timestamp_in_range(now.0 as int),
        now.1 < 1_000_000_000,
    ensures
        timestamp_in_range(now.0 + ttl_secs) ==> (r matches Some(row) && {
            &&& row.token_hash@ == token_hash_text(raw@)
            &&& row.player_id@ == player_id_key(player_id.0)
            &&& row.created_at@ == rfc3339_text(now.0 as int, now.1 as int)
            &&& row.expires_at@ == rfc3339_text(now.0 + ttl_secs, now.1 as int)
            &&& forall|later: (int, int)|
                #[trigger] session_verdict(row.player_id@, row.expires_at@, false, later) == (if !four_digit_year(
                    now.0 + ttl_secs,
                ) {
                    Err::<Option<PlayerId>, SessionError>(SessionError::Invalid("expires_at"))
                } else if instant_le((now.0 + ttl_secs, now.1 as int), later) {
                    Ok::<Option<PlayerId>, SessionError>(None)
                } else {
                    Ok(Some(player_id))
                })
        }),
        !timestamp_in_range(now.0 + ttl_secs) ==> r is None,
{
    let exp = match now.0.checked_add(ttl_secs) {
        Some(e) => e,
        None => return None,
    };
    let exp = match representable_second(exp) {
        Some(e) => e,
        None => return None,
    };
    proof {
        player_id_text_round_trip(player_id);
    }
    Some(SessionRow {
        token_hash: sha256_hex(raw.as_str().as_bytes()),
        player_id: player_id_text(&player_id),
        created_at: format_rfc3339(now.0, now.1),
        expires_at: format_rfc3339(exp, now.1),
    })
}

/// Mints a bearer for `player_id` valid for `ttl_secs` from now, with the
/// row to store for it; `None` when the expiry is not representable.
pub fn mint_session_row(player_id: PlayerId, ttl_secs: i64) -> (r: Option<(RawToken, SessionRow)>)
    ensures
        r matches Some((t, row)) ==> {
            &&& exists|b: Seq<u8>| b.len() == 48 && t@ == session_token_text(b)
            &&& row.token_hash@ == token_hash_text(t@)
            &&& row.player_id@ == player_id_key(player_id.0)
            &&& exists|secs: int, nanos: int|
                timestamp_in_range(secs) && timestamp_in_range(secs + ttl_secs) && 0 <= nanos < 1_000_000_000
                    && row.created_at@ == #[trigger] rfc3339_text(secs, nanos) && row.expires_at@ == rfc3339_text(
                    secs + ttl_secs,
                    nanos,
                )
        },
        r is None ==> exists|secs: int| #[trigger] timestamp_in_range(secs) && !timestamp_in_range(secs + ttl_secs),
{
    let t = new_session_token();
    let now = now_utc();
    match session_row(player_id, &t, now, ttl_secs) {
        Some(row) => Some((t, row)),
        None => None,
    }
}

/// What a stored session row says at `now`: revoked or expired rows give
/// no player; an unreadable expiry or owner key is an error.
pub open spec fn session_verdict(player_id: Seq<char>, expires_at: Seq<char>, revoked: bool, now: (int, int)) -> Result<
    Option<PlayerId>,
    SessionError,
> {
    if revoked {
        Ok(None)
    } else {
        match rfc3339_instant(expires_at) {
            None => Err(SessionError::Invalid("expires_at")),
            Some(exp) => if instant_le(exp, now) {
                Ok(None)
            } else {
                match spec_parse_hex_u64(player_id) {
                    Some(v) => Ok(Some(PlayerId(v))),
                    None => Err(SessionError::Invalid("player_id")),
                }
            },
        }
    }
}

/// Resolves the row a lookup found (`player_id, expires_at, revoked_at`) at
/// `now`; no row gives no player.
pub fn resolve_session_row(row: Option<(String, String, Option<String>)>, now: (i64, u32)) -> (r: Result<
    Option<PlayerId>,
    SessionError,
>)
    ensures
        match row {
            None => r matches Ok(None),
            Some((p, e, rev)) => r == session_verdict(p@, e@, rev is Some, (now.0 as int, now.1 as int)),
        },
{
    let (player_id_text, expires_at, revoked_at) = match row {
        None => return Ok(None),
        Some(t) => t,
    };
    if revoked_at.is_some() {
        return Ok(None);
    }
    let exp = match parse_rfc3339(expires_at.as_str()) {
        Some(e) => e,
        None => return Err(SessionError::Invalid("expires_at")),
    };
    if exp.0 < now.0 || (exp.0 == now.0 && exp.1 <= now.1) {
        return Ok(None);
    }
    match parse_hex_u64(&chars_of(player_id_text.as_str())) {
        Some(v) => Ok(Some(PlayerId::new(v))),
        None => Err(SessionError::Invalid("player_id")),
    }
}

/// Resolves a found row against the current time.
pub fn resolve_session_row_now(row: Option<(String, String, Option<String>)>) -> (r: Result<
    Option<PlayerId>,
    SessionError,
>)
    ensures
        exists|now: (int, int)|
            timestamp_in_range(now.0) && match row {
                None => r matches Ok(None),
                Some((p, e, rev)) => r == session_verdict(p@, e@, rev is Some, now),
            },
{
    let now = now_utc();
    resolve_session_row(row, now)
}

} // verus!
