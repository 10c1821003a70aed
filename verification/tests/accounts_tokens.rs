use base64::engine::general_purpose::URL_SAFE_NO_PAD;
use base64::Engine;
use open4x::accounts::magic_link::{consume_outcome, hex_decode_32, MagicLinkError, MagicLinkSigner, DEFAULT_TTL_SECS};
use open4x::accounts::player::PlayerId;
use open4x::accounts::session::{
    new_session_token, resolve_session_row, session_row, sha256_hex, token_from_bytes, token_lookup_key,
    SessionError, DEFAULT_TTL_SECS as SESSION_TTL_SECS,
};

const NOW: i64 = 1_700_000_000;

fn signer() -> MagicLinkSigner {
    MagicLinkSigner::new([7u8; 32])
}

#[test]
fn minted_token_checks_out_before_expiry() {
    let s = signer();
    let m = s.mint_at("alice@example.com", NOW + DEFAULT_TTL_SECS, "n0nce".to_string());
    let (email, nonce) = s.check_token(&m.token, NOW).unwrap();
    assert_eq!(email, "alice@example.com");
    assert_eq!(nonce, "n0nce");
    assert_eq!(m.expires_at, NOW + 900);
    assert_eq!(m.email, "alice@example.com");
}

#[test]
fn token_payload_is_email_expiry_nonce() {
    let s = signer();
    let m = s.mint_at("a@b.c", -5, "x|y".to_string());
    let head = m.token.split('.').next().unwrap();
    let payload = URL_SAFE_NO_PAD.decode(head).unwrap();
    assert_eq!(String::from_utf8(payload).unwrap(), "a@b.c|-5|x|y");
    // The nonce keeps its own `|`.
    let (email, nonce) = s.check_token(&m.token, -6).unwrap();
    assert_eq!((email.as_str(), nonce.as_str()), ("a@b.c", "x|y"));
}

#[test]
fn token_is_refused_from_its_expiry_on() {
    let s = signer();
    let m = s.mint_at("alice@example.com", NOW, "n".to_string());
    assert!(matches!(s.check_token(&m.token, NOW), Err(MagicLinkError::Expired)));
    assert!(matches!(s.check_token(&m.token, NOW + 1), Err(MagicLinkError::Expired)));
    assert!(s.check_token(&m.token, NOW - 1).is_ok());
}

#[test]
fn tampered_token_is_refused() {
    let s = signer();
    let m = s.mint_at("alice@example.com", NOW + 900, "n".to_string());
    let mut t = m.token.clone();
    let last = t.pop().unwrap();
    t.push(if last == 'A' { 'B' } else { 'A' });
    let err = s.check_token(&t, NOW).unwrap_err();
    assert!(matches!(err, MagicLinkError::BadSignature | MagicLinkError::Malformed), "got {err:?}");
}

#[test]
fn other_key_gives_bad_signature() {
    let m = signer().mint_at("alice@example.com", NOW + 900, "n".to_string());
    let other = MagicLinkSigner::new([8u8; 32]);
    assert!(matches!(other.check_token(&m.token, NOW), Err(MagicLinkError::BadSignature)));
}

#[test]
fn malformed_tokens_are_refused() {
    let s = signer();
    assert!(matches!(s.check_token("no-dot-here", NOW), Err(MagicLinkError::Malformed)));
    assert!(matches!(s.check_token("!!.??", NOW), Err(MagicLinkError::Malformed)));
    assert!(matches!(s.check_token("", NOW), Err(MagicLinkError::Malformed)));
}

#[test]
fn mint_uses_a_fresh_nonce_and_checks_now() {
    let s = signer();
    let a = s.mint("alice@example.com", DEFAULT_TTL_SECS).unwrap();
    let b = s.mint("alice@example.com", DEFAULT_TTL_SECS).unwrap();
    assert_ne!(a.nonce, b.nonce);
    assert_eq!(a.nonce.len(), 22);
    let (email, nonce) = s.check_token_now(&a.token).unwrap();
    assert_eq!(email, "alice@example.com");
    assert_eq!(nonce, a.nonce);
    let expired = s.mint("alice@example.com", -1).unwrap();
    assert!(matches!(s.check_token_now(&expired.token), Err(MagicLinkError::Expired)));
    assert!(s.mint("alice@example.com", i64::MAX).is_none());
}

#[test]
fn mint_from_adds_the_lifetime_to_the_reading() {
    let s = signer();
    let m = s.mint_from("bob@example.com", (NOW, 250), 900, "abc".to_string()).unwrap();
    assert_eq!(m.expires_at, NOW + 900);
    assert_eq!(m.expires_nanos, 250);
    assert_eq!(m.nonce, "abc");
    assert_eq!(m.email, "bob@example.com");
    assert_eq!(m.token, s.mint_at("bob@example.com", NOW + 900, "abc".to_string()).token);
    assert!(s.mint_from("bob@example.com", (NOW, 0), i64::MAX, "abc".to_string()).is_none());
    assert!(s.mint_from("bob@example.com", (8210266876799, 0), 1, "abc".to_string()).is_none());
    assert!(s.mint_from("bob@example.com", (8210266876798, 0), 1, "abc".to_string()).is_some());
}

#[test]
fn key_file_must_hold_32_bytes() {
    assert!(MagicLinkSigner::from_key_bytes(&[7u8; 32]).is_some());
    assert!(MagicLinkSigner::from_key_bytes(&[7u8; 31]).is_none());
    assert!(MagicLinkSigner::from_key_bytes(&[7u8; 33]).is_none());
    let s = MagicLinkSigner::from_key_bytes(&[7u8; 32]).unwrap();
    let m = s.mint_at("a@b.c", NOW + 60, "n".to_string());
    assert!(signer().check_token(&m.token, NOW).is_ok());
}

#[test]
fn consuming_no_row_is_reuse() {
    assert!(matches!(consume_outcome("a".into(), 0), Err(MagicLinkError::Reused)));
    assert_eq!(consume_outcome("a".into(), 1).unwrap(), "a");
}

#[test]
fn key_hex_decodes_pairwise() {
    let zeros = "00".repeat(32);
    assert_eq!(hex_decode_32(&zeros), Some([0u8; 32]));
    let mut key = "ff".repeat(31);
    key.push_str("0A");
    let k = hex_decode_32(&key).unwrap();
    assert_eq!(k[0], 255);
    assert_eq!(k[31], 10);
    let mut signed = "ff".repeat(31);
    signed.push_str("+a");
    assert_eq!(hex_decode_32(&signed), None);
    let mut lower = "Ab".repeat(31);
    lower.push_str("c9");
    assert_eq!(hex_decode_32(&lower).unwrap()[31], 0xc9);
    assert_eq!(hex_decode_32("00"), None);
    let bad = format!("{}zz", "00".repeat(31));
    assert_eq!(hex_decode_32(&bad), None);
}

#[test]
fn session_token_shape() {
    let t = token_from_bytes(&[0u8; 48]);
    assert_eq!(t.as_str(), format!("lobby_{}", "A".repeat(64)));
    let fresh = new_session_token();
    assert!(fresh.as_str().starts_with("lobby_"));
    assert_eq!(fresh.clone().into_string().len(), 70);
}

#[test]
fn sha256_hex_is_lowercase_digest() {
    assert_eq!(
        sha256_hex(b"abc"),
        "ba7816bf8f01cfea414140de5dae2223b00361a396177a9cb410ff61f20015ad"
    );
}

#[test]
fn lookup_key_needs_the_prefix() {
    assert_eq!(token_lookup_key("bearer_other"), None);
    assert_eq!(token_lookup_key("lobby"), None);
    let raw = "lobby_does_not_exist_at_all";
    assert_eq!(token_lookup_key(raw), Some(sha256_hex(raw.as_bytes())));
}

#[test]
fn session_row_fields() {
    let pid = PlayerId::new(0xCAFEF00DCAFEF00D);
    let t = token_from_bytes(&[1u8; 48]);
    let row = session_row(pid, &t, (NOW, 0), SESSION_TTL_SECS).unwrap();
    assert_eq!(row.player_id, "CAFEF00DCAFEF00D");
    assert_eq!(row.token_hash, sha256_hex(t.as_str().as_bytes()));
    assert_eq!(row.created_at, "2023-11-14T22:13:20+00:00");
    assert_eq!(row.expires_at, "2023-12-14T22:13:20+00:00");
    assert!(session_row(pid, &t, (NOW, 0), i64::MAX).is_none());
}

#[test]
fn resolving_session_rows() {
    let pid = PlayerId::new(0xCAFEF00DCAFEF00D);
    let t = token_from_bytes(&[2u8; 48]);
    let row = session_row(pid, &t, (NOW, 5), 60).unwrap();
    let found = Some((row.player_id.clone(), row.expires_at.clone(), None));
    assert_eq!(resolve_session_row(found.clone(), (NOW + 59, 0)).unwrap(), Some(pid));
    assert_eq!(resolve_session_row(found.clone(), (NOW + 60, 5)).unwrap(), None);
    assert_eq!(resolve_session_row(found, (NOW + 60, 4)).unwrap(), Some(pid));
    let revoked = Some((row.player_id.clone(), row.expires_at.clone(), Some("x".to_string())));
    assert_eq!(resolve_session_row(revoked, (NOW, 0)).unwrap(), None);
    assert_eq!(resolve_session_row(None, (NOW, 0)).unwrap(), None);
    let bad_time = Some((row.player_id.clone(), "tomorrow".to_string(), None));
    assert!(matches!(resolve_session_row(bad_time, (NOW, 0)), Err(SessionError::Invalid("expires_at"))));
    let bad_id = Some(("zz".to_string(), row.expires_at.clone(), None));
    assert!(matches!(resolve_session_row(bad_id, (NOW, 0)), Err(SessionError::Invalid("player_id"))));
}

#[test]
fn expiry_past_year_9999_is_unreadable() {
    let pid = PlayerId::new(7);
    let t = token_from_bytes(&[3u8; 48]);
    let start: i64 = 253402300800 - 10;
    let row = session_row(pid, &t, (start, 0), 10).unwrap();
    assert!(row.expires_at.starts_with("+10000-01-01T00:00:00"));
    let found = Some((row.player_id.clone(), row.expires_at.clone(), None));
    assert!(matches!(resolve_session_row(found, (start + 5, 0)), Err(SessionError::Invalid("expires_at"))));
    let row = session_row(pid, &t, (start, 0), 9).unwrap();
    assert!(row.expires_at.starts_with("9999-12-31T23:59:59"));
    let found = Some((row.player_id.clone(), row.expires_at.clone(), None));
    assert_eq!(resolve_session_row(found, (start + 5, 0)).unwrap(), Some(pid));
}
