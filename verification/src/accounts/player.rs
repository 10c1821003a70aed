//! Player ids, identities and account rows.

use vstd::prelude::*;
use vstd::string::StringSliceAdditionalSpecFns;
use vstd::utf8::{decode_utf8, encode_utf8, encode_utf8_decode_utf8, is_char_boundary};

use crate::number::{
    all_hex_digits, hex_digits_value, hex_lower_fixed, hex_upper_fixed, is_hex_digit, lemma_hex_fixed_mod, lemma_hex_fixed_split,
    lemma_hex_lower_fixed, lemma_hex_upper_fixed, parse_hex_u64, pow16, push_hex_upper, spec_parse_hex_u64, unsigned_body,
};
use crate::text::{
    chars_of, is_word, chars_start_with, extend_chars, extend_str, spec_to_lowercase, starts_with, string_of,
    to_lowercase,
};

verus! {

// ─────────────────────────── Player identity ──────────────────────────────────

/// Stable, opaque identifier for a single platform user: 64 bits, shown as
/// `0xA9C3·7F12·EE04·ABCD`.
#[derive(Debug, Clone, Copy, PartialEq, Eq, Hash, Default)]
pub struct PlayerId(pub u64);

/// The 16-bit group `k` of `raw`, counting from the least significant.
pub open spec fn group16(raw: u64, k: nat) -> nat {
    (raw as nat / pow16(4 * k)) % 0x10000
}


/// `0xAAAA·BBBB·CCCC·DDDD`, the groups from the most significant down.
pub open spec fn player_id_display(raw: u64) -> Seq<char> {
    "0x"@ + hex_upper_fixed(group16(raw, 3), 4) + seq!['·'] + hex_upper_fixed(group16(raw, 2), 4) + seq!['·']
        + hex_upper_fixed(group16(raw, 1), 4) + seq!['·'] + hex_upper_fixed(group16(raw, 0), 4)
}

/// The 16-digit uppercase hexadecimal form used as the storage key.
pub open spec fn player_id_key(raw: u64) -> Seq<char> {
    hex_upper_fixed(raw as nat, 16)
}

impl PlayerId {
    pub fn new(raw: u64) -> (p: PlayerId)
        ensures
            p.0 == raw,
    {
        PlayerId(raw)
    }

    /// Pretty-print as `0xAAAA·BBBB·CCCC·DDDD`.
    pub fn display(&self) -> (s: String)
        ensures
            s@ == player_id_display(self.0),
    {
        let raw = self.0;
        let mut v: Vec<char> = Vec::new();
        extend_str(&mut v, "0x");
        push_hex_upper(&mut v, raw / 0x1_0000_0000_0000 % 0x10000, 4);
        v.push('·');
        push_hex_upper(&mut v, raw / 0x1_0000_0000 % 0x10000, 4);
        v.push('·');
        push_hex_upper(&mut v, raw / 0x1_0000 % 0x10000, 4);
        v.push('·');
        push_hex_upper(&mut v, raw % 0x10000, 4);
        proof {
            reveal_with_fuel(pow16, 13);
            assert("0x"@ =~= seq!['0', 'x']) by {
                reveal_strlit("0x");
            }
        }
        string_of(&v)
    }
}

/// The storage key of a player id (`{:016X}`).
pub fn player_id_text(id: &PlayerId) -> (s: String)
    ensures
        s@ == player_id_key(id.0),
{
    let mut v: Vec<char> = Vec::new();
    push_hex_upper(&mut v, id.0, 16);
    string_of(&v)
}

/// Read a storage key back (`u64::from_str_radix(s, 16)`); `None` when it
/// is not a hexadecimal `u64`.
pub fn parse_player_id_text(s: &str) -> (r: Option<PlayerId>)
    ensures
        r == (match spec_parse_hex_u64(s@) {
            Some(v) => Some(PlayerId(v)),
            None => None,
        }),
{
    match parse_hex_u64(&chars_of(s)) {
        Some(v) => Some(PlayerId(v)),
        None => None,
    }
}

// ───────────────────────────── Id queries ────────────────────────────────────

/// `s` without a leading `0x` or `0X`.
pub open spec fn strip_hex_prefix(s: Seq<char>) -> Seq<char> {
    if starts_with(s, "0x"@) || starts_with(s, "0X"@) {
        s.skip(2)
    } else {
        s
    }
}

/// The hexadecimal digits of `s`, in order.
pub open spec fn hex_only(s: Seq<char>) -> Seq<char>
    decreases s.len(),
{
    if s.len() == 0 {
        s
    } else if is_hex_digit(s.last()) {
        hex_only(s.drop_last()).push(s.last())
    } else {
        hex_only(s.drop_last())
    }
}

/// A player id typed into a search box: after an optional `0x`/`0X`, the
/// hexadecimal digits (separators are ignored) must number exactly 16.
pub open spec fn spec_parse_player_id_query(s: Seq<char>) -> Option<PlayerId> {
    let d = hex_only(strip_hex_prefix(s));
    if d.len() != 16 {
        None
    } else {
        match spec_parse_hex_u64(d) {
            Some(v) => Some(PlayerId(v)),
            None => None,
        }
    }
}

/// Resolve a search query that names a player id, canonical
/// (`0xA9C3·7F12·EE04·ABCD`) or bare (`A9C37F12EE04ABCD`).
pub fn parse_player_id_query(s: &str) -> (r: Option<PlayerId>)
    ensures
        r == spec_parse_player_id_query(s@),
{
    let v = chars_of(s);
    let p1 = chars_of("0x");
    let p2 = chars_of("0X");
    let from: usize = if chars_start_with(&v, &p1) || chars_start_with(&v, &p2) {
        2
    } else {
        0
    };
    proof {
        reveal_strlit("0x");
        reveal_strlit("0X");
    }
    let ghost body = strip_hex_prefix(s@);
    assert(body =~= v@.skip(from as int));
    let mut d: Vec<char> = Vec::new();
    let mut i = from;
    while i < v.len()
        invariant
            from <= i <= v@.len(),
            body =~= v@.skip(from as int),
            d@ == hex_only(body.take(i - from)),
        decreases v.len() - i,
    {
        assert(body.take(i + 1 - from).drop_last() =~= body.take(i - from));
        assert(body.take(i + 1 - from).last() == v@[i as int]);
        let c = v[i];
        if ('0' <= c && c <= '9') || ('a' <= c && c <= 'f') || ('A' <= c && c <= 'F') {
            d.push(c);
        }
        i += 1;
    }
    assert(body.take(v@.len() - from) =~= body);
    if d.len() != 16 {
        return None;
    }
    match parse_hex_u64(&d) {
        Some(x) => Some(PlayerId(x)),
        None => None,
    }
}

proof fn lemma_hex_only_concat(a: Seq<char>, b: Seq<char>)
    ensures
        hex_only(a + b) == hex_only(a) + hex_only(b),
    decreases b.len(),
{
    if b.len() == 0 {
        assert(a + b =~= a);
        assert(hex_only(a) + hex_only(b) =~= hex_only(a));
    } else {
        lemma_hex_only_concat(a, b.drop_last());
        assert((a + b).drop_last() =~= a + b.drop_last());
        assert((a + b).last() == b.last());
        if is_hex_digit(b.last()) {
            assert(hex_only(a) + hex_only(b) =~= (hex_only(a) + hex_only(b.drop_last())).push(b.last()));
        }
    }
}

proof fn lemma_hex_only_all(s: Seq<char>)
    requires
        all_hex_digits(s),
    ensures
        hex_only(s) == s,
    decreases s.len(),
{
    if s.len() > 0 {
        lemma_hex_only_all(s.drop_last());
        assert(s.drop_last().push(s.last()) =~= s);
    }
}

proof fn lemma_key_parses(raw: u64)
    ensures
        spec_parse_hex_u64(player_id_key(raw)) == Some(raw),
        all_hex_digits(player_id_key(raw)),
        player_id_key(raw).len() == 16,
{
    let f = player_id_key(raw);
    lemma_hex_upper_fixed(raw as nat, 16);
    assert(pow16(16) == 0x1_0000_0000_0000_0000) by {
        reveal_with_fuel(pow16, 17);
    }
    assert(f[0] != '+') by {
        assert(is_hex_digit(f[0]));
    }
    assert(unsigned_body(f) == f);
}

/// Reading a storage key back gives the id it was made from.
pub proof fn player_id_text_round_trip(id: PlayerId)
    ensures
        spec_parse_hex_u64(player_id_key(id.0)) == Some(id.0),
{
    lemma_key_parses(id.0);
}

proof fn lemma_display_digits(raw: u64)
    ensures
        hex_only(strip_hex_prefix(player_id_display(raw))) == player_id_key(raw),
{
    let g3 = hex_upper_fixed(group16(raw, 3), 4);
    let g2 = hex_upper_fixed(group16(raw, 2), 4);
    let g1 = hex_upper_fixed(group16(raw, 1), 4);
    let g0 = hex_upper_fixed(group16(raw, 0), 4);
    let dot = seq!['·'];
    let disp = player_id_display(raw);
    assert("0x"@ =~= seq!['0', 'x']) by {
        reveal_strlit("0x");
    }
    assert(disp =~= "0x"@ + (g3 + dot + g2 + dot + g1 + dot + g0));
    assert(starts_with(disp, "0x"@)) by {
        assert(disp.take(2) =~= "0x"@);
    }
    assert(strip_hex_prefix(disp) =~= g3 + dot + g2 + dot + g1 + dot + g0);
    lemma_hex_upper_fixed(group16(raw, 3), 4);
    lemma_hex_upper_fixed(group16(raw, 2), 4);
    lemma_hex_upper_fixed(group16(raw, 1), 4);
    lemma_hex_upper_fixed(group16(raw, 0), 4);
    lemma_hex_only_all(g3);
    lemma_hex_only_all(g2);
    lemma_hex_only_all(g1);
    lemma_hex_only_all(g0);
    assert(hex_only(dot) =~= Seq::<char>::empty()) by {
        assert(dot.drop_last() =~= Seq::<char>::empty());
        assert(hex_only(Seq::<char>::empty()) =~= Seq::<char>::empty());
        assert(!is_hex_digit('·'));
    }
    lemma_hex_only_concat(g3, dot);
    lemma_hex_only_concat(g3 + dot, g2);
    lemma_hex_only_concat(g3 + dot + g2, dot);
    lemma_hex_only_concat(g3 + dot + g2 + dot, g1);
    lemma_hex_only_concat(g3 + dot + g2 + dot + g1, dot);
    lemma_hex_only_concat(g3 + dot + g2 + dot + g1 + dot, g0);
    assert(hex_only(strip_hex_prefix(disp)) =~= g3 + g2 + g1 + g0);
    // The four groups are the fixed-width form of the whole id.
    let v = raw as nat;
    assert(pow16(4) == 0x10000 && pow16(8) == 0x1_0000_0000 && pow16(12) == 0x1_0000_0000_0000) by {
        reveal_with_fuel(pow16, 13);
    }
    assert(group16(raw, 3) == v / pow16(12) % pow16(4)) by {
        reveal_with_fuel(pow16, 13);
    }
    assert(group16(raw, 2) == v / pow16(8) % pow16(4)) by {
        reveal_with_fuel(pow16, 13);
    }
    assert(group16(raw, 1) == v / pow16(4) % pow16(4)) by {
        reveal_with_fuel(pow16, 13);
    }
    assert(group16(raw, 0) == v % pow16(4)) by {
        reveal_with_fuel(pow16, 13);
        assert(pow16(4 * 0) == 1);
        assert(v / 1 == v) by (nonlinear_arith);
    }
    lemma_hex_fixed_mod(v / pow16(12), 4);
    lemma_hex_fixed_mod(v / pow16(8), 4);
    lemma_hex_fixed_mod(v / pow16(4), 4);
    lemma_hex_fixed_mod(v, 4);
    lemma_hex_fixed_split(v, 4, 12);
    lemma_hex_fixed_split(v, 4, 8);
    lemma_hex_fixed_split(v, 4, 4);
    assert(player_id_key(raw) =~= g3 + g2 + g1 + g0);
}

/// The id written as `0x` and sixteen lowercase hexadecimal digits, typed
/// into the friend search, finds that player.
pub proof fn player_id_lowercase_query_finds_id(id: PlayerId)
    ensures
        spec_parse_player_id_query("0x"@ + hex_lower_fixed(id.0 as nat, 16)) == Some(id),
{
    let f = hex_lower_fixed(id.0 as nat, 16);
    lemma_hex_lower_fixed(id.0 as nat, 16);
    assert(pow16(16) == 0x1_0000_0000_0000_0000) by {
        reveal_with_fuel(pow16, 17);
    }
    let q = "0x"@ + f;
    assert("0x"@ =~= seq!['0', 'x']) by {
        reveal_strlit("0x");
    }
    assert(starts_with(q, "0x"@)) by {
        assert(q.take(2) =~= "0x"@);
    }
    assert(strip_hex_prefix(q) =~= f);
    lemma_hex_only_all(f);
    assert(f[0] != '+') by {
        assert(is_hex_digit(f[0]));
    }
    assert(unsigned_body(f) == f);
}

/// A player id's display form, typed into the friend search, finds that
/// player; so does its bare 16-digit storage key.
pub proof fn player_id_query_finds_displayed_id(id: PlayerId)
    ensures
        spec_parse_player_id_query(player_id_display(id.0)) == Some(id),
        spec_parse_player_id_query(player_id_key(id.0)) == Some(id),
{
    lemma_display_digits(id.0);
    lemma_key_parses(id.0);
    let k = player_id_key(id.0);
    assert(!starts_with(k, "0x"@) && !starts_with(k, "0X"@)) by {
        reveal_strlit("0x");
        reveal_strlit("0X");
        assert(is_hex_digit(k[1]));
        if starts_with(k, "0x"@) {
            assert(k.take(2)[1] == 'x');
        }
        if starts_with(k, "0X"@) {
            assert(k.take(2)[1] == 'X');
        }
    }
    lemma_hex_only_all(k);
}

// ────────────────────────────── Identities ────────────────────────────────────

/// One way the user can prove they own a `PlayerId`. An account may have
/// many; any of them resolves the same player on sign-in.
#[derive(Debug, Clone, PartialEq, Eq)]
pub enum Identity {
    /// Email + magic link.
    Email { address: String, verified: bool, primary: bool },
    /// OpenID Connect: `issuer` is the discovery URL, `subject` the `sub`
    /// claim of the ID token, `label` the display label.
    OpenId { issuer: String, subject: String, label: String },
    /// atproto: `did:plc:…` plus the handle.
    Atproto { did: String, handle: String },
    /// Ed25519 public key as lowercase hex, plus a display label.
    PublicKey { ed25519_hex: String, label: String },
}

/// `first8…last4` of a public key given as hex, or the whole string when it
/// has at most 12 bytes.
pub open spec fn fingerprint_of(s: Seq<char>) -> Seq<char> {
    let b = encode_utf8(s);
    if b.len() <= 12 {
        s
    } else {
        decode_utf8(b.subrange(0, 8)) + seq!['…'] + decode_utf8(b.subrange(b.len() - 4, b.len() as int))
    }
}

/// The byte offsets the fingerprint cuts at are character boundaries.
pub open spec fn fingerprint_cuttable(s: Seq<char>) -> bool {
    let b = encode_utf8(s);
    b.len() <= 12 || (is_char_boundary(b, 8) && is_char_boundary(b, b.len() - 4))
}

/// Short human-readable fingerprint for an Ed25519 public key given as
/// lowercase hex: `first8…last4`. Falls back to the whole string when it is
/// too short to abbreviate.
pub fn pubkey_fingerprint(ed25519_hex: &str) -> (r: String)
    requires
        fingerprint_cuttable(ed25519_hex@),
    ensures
        r@ == fingerprint_of(ed25519_hex@),
{
    let n = ed25519_hex.as_bytes().len();
    if n <= 12 {
        return ed25519_hex.to_owned();
    }
    let (head, _) = ed25519_hex.split_at(8);
    let (_, tail) = ed25519_hex.split_at(n - 4);
    proof {
        encode_utf8_decode_utf8(head@);
        encode_utf8_decode_utf8(tail@);
    }
    let mut v = chars_of(head);
    v.push('…');
    extend_str(&mut v, tail);
    string_of(&v)
}

/// The display label of an identity.
pub open spec fn identity_label(i: Identity) -> Seq<char> {
    match i {
        Identity::Email { address, .. } => address@,
        Identity::OpenId { label, .. } => label@,
        Identity::Atproto { did, handle } => handle@ + " ("@ + did@ + ")"@,
        Identity::PublicKey { ed25519_hex, label } => if label@.len() > 0 {
            label@
        } else {
            fingerprint_of(ed25519_hex@)
        },
    }
}

/// The identity can be labelled without cutting a character in half.
pub open spec fn identity_labelable(i: Identity) -> bool {
    match i {
        Identity::PublicKey { ed25519_hex, label } => label@.len() > 0 || fingerprint_cuttable(ed25519_hex@),
        _ => true,
    }
}

impl Identity {
    pub fn label(&self) -> (r: String)
        requires
            identity_labelable(*self),
        ensures
            r@ == identity_label(*self),
    {
        match self {
            Identity::Email { address, .. } => address.clone(),
            Identity::OpenId { label, .. } => label.clone(),
            Identity::Atproto { handle, did } => {
                let mut v = chars_of(handle.as_str());
                extend_str(&mut v, " (");
                extend_str(&mut v, did.as_str());
                extend_str(&mut v, ")");
                string_of(&v)
            },
            Identity::PublicKey { ed25519_hex, label } => {
                if !label.as_str().is_empty() {
                    label.clone()
                } else {
                    pubkey_fingerprint(ed25519_hex.as_str())
                }
            },
        }
    }

    pub fn type_label(&self) -> (r: &'static str)
        ensures
            r@ == (match *self {
                Identity::Email { .. } => "EMAIL"@,
                Identity::OpenId { .. } => "OPENID"@,
                Identity::Atproto { .. } => "ATPROTO"@,
                Identity::PublicKey { .. } => "PUBKEY"@,
            }),
    {
        match self {
            Identity::Email { .. } => "EMAIL",
            Identity::OpenId { .. } => "OPENID",
            Identity::Atproto { .. } => "ATPROTO",
            Identity::PublicKey { .. } => "PUBKEY",
        }
    }
}

// ────────────────────────────── Account row ──────────────────────────────────

/// A user account: its `PlayerId`, linked identities and profile.
#[derive(Debug, Clone, Default)]
pub struct Account {
    pub player_id: PlayerId,
    pub preferred_name: String,
    pub pronouns: String,
    pub bio: String,
    pub identities: Vec<Identity>,
    pub prefs: Preferences,
}

#[derive(Debug, Clone, Copy, PartialEq, Eq)]
pub struct Preferences {
    pub density: Density,
    pub color_scheme: ColorScheme,
    pub keyboard_nav: bool,
    pub turn_notifications: bool,
    pub discoverable_by_id: bool,
}

impl Default for Preferences {
    fn default() -> (p: Self)
        ensures
            p == (Preferences {
                density: Density::Comfortable,
                color_scheme: ColorScheme::Paper,
                keyboard_nav: true,
                turn_notifications: true,
                discoverable_by_id: true,
            }),
    {
        Preferences {
            density: Density::Comfortable,
            color_scheme: ColorScheme::Paper,
            keyboard_nav: true,
            turn_notifications: true,
            discoverable_by_id: true,
        }
    }
}

#[derive(Debug, Clone, Copy, PartialEq, Eq)]
pub enum Density {
    Compact,
    Comfortable,
    Spacious,
}

#[derive(Debug, Clone, Copy, PartialEq, Eq)]
pub enum ColorScheme {
    Paper,
    Ink,
    Auto,
}

/// Opaque single-use token mailed to the user during the email login flow.
#[derive(Debug, Clone)]
pub struct MagicLinkToken(pub String);

// ───────────────────────────── Identity storage ──────────────────────────────

/// The stored key of an identity: its kind and its primary key. Email
/// addresses and public keys are compared lowercased.
pub open spec fn identity_key_of(i: Identity) -> (Seq<char>, Seq<char>) {
    match i {
        Identity::Email { address, .. } => ("email"@, spec_to_lowercase(address@)),
        Identity::OpenId { issuer, subject, .. } => ("oidc"@, issuer@ + "|"@ + subject@),
        Identity::Atproto { did, .. } => ("atproto"@, did@),
        Identity::PublicKey { ed25519_hex, .. } => ("pubkey"@, spec_to_lowercase(ed25519_hex@)),
    }
}

/// The `(kind, primary_key)` pair an identity is stored and looked up by.
pub fn identity_key(identity: &Identity) -> (r: (&'static str, String))
    ensures
        (r.0@, r.1@) == identity_key_of(*identity),
{
    match identity {
        Identity::Email { address, .. } => ("email", to_lowercase(address.as_str())),
        Identity::OpenId { issuer, subject, .. } => {
            let mut v = chars_of(issuer.as_str());
            extend_str(&mut v, "|");
            extend_str(&mut v, subject.as_str());
            ("oidc", string_of(&v))
        },
        Identity::Atproto { did, .. } => ("atproto", did.clone()),
        Identity::PublicKey { ed25519_hex, .. } => ("pubkey", to_lowercase(ed25519_hex.as_str())),
    }
}

/// The `is_primary` and `verified` flags stored with a new identity row:
/// an email identity keeps its own, every other kind is stored as
/// verified and not primary.
pub fn identity_flags(identity: &Identity) -> (r: (i64, i64))
    ensures
        r == (match *identity {
            Identity::Email { primary, verified, .. } => (
                if primary {
                    1i64
                } else {
                    0i64
                },
                if verified {
                    1i64
                } else {
                    0i64
                },
            ),
            _ => (0i64, 1i64),
        }),
{
    match identity {
        Identity::Email { primary, verified, .. } => (
            if *primary {
                1
            } else {
                0
            },
            if *verified {
                1
            } else {
                0
            },
        ),
        _ => (0, 1),
    }
}

/// One stored identity row.
#[derive(Debug, Clone)]
pub struct IdentityRow {
    pub id: String,
    pub player_id: String,
    pub kind: String,
    pub primary_key: String,
    pub label: String,
    pub is_primary: i64,
    pub verified: i64,
}

/// `i` is the first position of `c` in `s`.
pub open spec fn first_at(s: Seq<char>, c: char, i: int) -> bool {
    0 <= i < s.len() && s[i] == c && forall|j: int| 0 <= j < i ==> s[j] != c
}

/// There is only one first position.
pub proof fn lemma_first_at_unique(s: Seq<char>, c: char, i: int, j: int)
    requires
        first_at(s, c, i),
        first_at(s, c, j),
    ensures
        i == j,
{
}

/// `str::split_once(c)`: the parts before and after the first `c`.
pub fn split_once(s: &str, c: char) -> (r: Option<(String, String)>)
    ensures
        match r {
            Some((a, b)) => exists|i: int| first_at(s@, c, i) && a@ == s@.take(i) && b@ == s@.skip(i + 1),
            None => forall|j: int| 0 <= j < s@.len() ==> s@[j] != c,
        },
{
    let v = chars_of(s);
    let mut i: usize = 0;
    while i < v.len()
        invariant
            i <= v@.len(),
            v@ == s@,
            forall|j: int| 0 <= j < i ==> v@[j] != c,
        decreases v.len() - i,
    {
        if v[i] == c {
            let mut a: Vec<char> = Vec::new();
            let mut k: usize = 0;
            while k < i
                invariant
                    k <= i < v@.len(),
                    a@ == v@.take(k as int),
                decreases i - k,
            {
                a.push(v[k]);
                assert(v@.take(k + 1) =~= v@.take(k as int).push(v@[k as int]));
                k += 1;
            }
            let mut b: Vec<char> = Vec::new();
            let mut k2: usize = i + 1;
            while k2 < v.len()
                invariant
                    i + 1 <= k2 <= v@.len(),
                    b@ == v@.subrange(i + 1, k2 as int),
                decreases v.len() - k2,
            {
                b.push(v[k2]);
                assert(v@.subrange(i + 1, k2 + 1) =~= v@.subrange(i + 1, k2 as int).push(v@[k2 as int]));
                k2 += 1;
            }
            assert(first_at(s@, c, i as int));
            assert(b@ =~= s@.skip(i + 1));
            return Some((string_of(&a), string_of(&b)));
        }
        i += 1;
    }
    None
}

/// The identity a stored row describes. An `oidc` key is `issuer|subject`
/// (the whole key is the issuer when it holds no `|`); unknown kinds are
/// read as email.
pub open spec fn row_identity_ok(r: IdentityRow, i: Identity) -> bool {
    let pk = r.primary_key@;
    if r.kind@ == "oidc"@ {
        i matches Identity::OpenId { issuer, subject, label } && label@ == r.label@ && (if exists|k: int|
            first_at(pk, '|', k) {
            exists|k: int| first_at(pk, '|', k) && issuer@ == pk.take(k) && subject@ == pk.skip(k + 1)
        } else {
            issuer@ == pk && subject@.len() == 0
        })
    } else if r.kind@ == "atproto"@ {
        i matches Identity::Atproto { did, handle } && did@ == pk && handle@ == r.label@
    } else if r.kind@ == "pubkey"@ {
        i matches Identity::PublicKey { ed25519_hex, label } && ed25519_hex@ == pk && label@ == r.label@
    } else {
        i matches Identity::Email { address, verified, primary } && address@ == pk && verified == (r.verified
            != 0) && primary == (r.is_primary != 0)
    }
}

/// Rebuild an identity from its stored row.
pub fn row_to_identity(r: &IdentityRow) -> (i: Identity)
    ensures
        row_identity_ok(*r, i),
{
    let kind = chars_of(r.kind.as_str());
    if is_word(&kind, "oidc") {
        let (issuer, subject) = match split_once(r.primary_key.as_str(), '|') {
            Some((a, b)) => (a, b),
            None => (r.primary_key.clone(), String::new()),
        };
        Identity::OpenId { issuer, subject, label: r.label.clone() }
    } else if is_word(&kind, "atproto") {
        Identity::Atproto { did: r.primary_key.clone(), handle: r.label.clone() }
    } else if is_word(&kind, "pubkey") {
        Identity::PublicKey { ed25519_hex: r.primary_key.clone(), label: r.label.clone() }
    } else {
        Identity::Email { address: r.primary_key.clone(), verified: r.verified != 0, primary: r.is_primary != 0 }
    }
}

} // verus!
