use open4x::accounts::audit::{parse_kind, AuditEventKind};
use open4x::accounts::clock::{now_text, rfc3339_of_instant, MAX_TIMESTAMP, MIN_TIMESTAMP};
use open4x::accounts::friends::{
    accept_outcome, friend_rows_for, request_conflict, request_precheck, FriendLink, FriendStatus, FriendsError,
};
use open4x::accounts::games::GameStatus;
use open4x::accounts::mailer::{magic_link_body, SmtpConfig};
use open4x::accounts::player::{
    parse_player_id_query, parse_player_id_text, player_id_text, pubkey_fingerprint, Account, Identity, PlayerId,
    Preferences,
};
use open4x::accounts::presets::{delete_outcome, validate_preset, PresetsError};
use open4x::accounts::search::{hit_by_id, hit_by_identity, search_plan, SearchPlan};
use open4x::accounts::storage::is_unique_violation;

fn account(discoverable: bool) -> Account {
    let mut prefs = Preferences::default();
    prefs.discoverable_by_id = discoverable;
    Account {
        player_id: PlayerId::new(0xABCD),
        preferred_name: "Bob".into(),
        pronouns: String::new(),
        bio: String::new(),
        identities: Vec::new(),
        prefs,
    }
}

#[test]
fn audit_kinds_round_trip() {
    for k in [
        AuditEventKind::MagicLinkMint,
        AuditEventKind::SignIn,
        AuditEventKind::SignInFailed,
        AuditEventKind::SignOut,
        AuditEventKind::IdentityLinked,
        AuditEventKind::IdentityUnlinked,
        AuditEventKind::AccountDeleted,
        AuditEventKind::NewGameCreated,
        AuditEventKind::AuthEmailStartFailed,
    ] {
        assert_eq!(parse_kind(k.as_str()), k);
    }
    assert_eq!(parse_kind("something_else"), AuditEventKind::SignInFailed);
}

#[test]
fn game_status_names() {
    for s in [GameStatus::YourTurn, GameStatus::Waiting, GameStatus::Completed, GameStatus::Archived] {
        assert_eq!(GameStatus::parse(s.as_db_str()), s);
    }
    assert_eq!(GameStatus::parse("bogus"), GameStatus::Waiting);
}

#[test]
fn friend_rows_are_oriented() {
    let me = PlayerId::new(1);
    let other = PlayerId::new(2);
    let link = |a: PlayerId, b: PlayerId, st: &str| FriendLink {
        a_player_id: player_id_text(&a),
        b_player_id: player_id_text(&b),
        status: st.into(),
        created_at: "t".into(),
    };
    let rows = friend_rows_for(
        me,
        vec![
            link(me, other, "pending"),
            link(other, me, "pending"),
            link(other, me, "blocked"),
            link(me, other, "blocked"),
            link(other, me, "accepted"),
        ],
    );
    let st: Vec<FriendStatus> = rows.iter().map(|r| r.status).collect();
    assert_eq!(
        st,
        vec![FriendStatus::PendingOutgoing, FriendStatus::PendingIncoming, FriendStatus::Blocked, FriendStatus::Accepted]
    );
    assert!(rows.iter().all(|r| r.other_player_id == other));
    assert_eq!(FriendStatus::Accepted.as_str(), "accepted");
}

#[test]
fn player_id_texts() {
    let id = PlayerId::new(0xA9C37F12EE04ABCD);
    assert_eq!(player_id_text(&id), "A9C37F12EE04ABCD");
    assert_eq!(parse_player_id_text("A9C37F12EE04ABCD"), Some(id));
    assert_eq!(parse_player_id_text("xyz"), None);
    assert_eq!(parse_player_id_query(&id.display()), Some(id));
    assert_eq!(parse_player_id_query("0xa9c37f12ee04abcd"), Some(id));
    assert_eq!(parse_player_id_query("0xABC"), None);
}

#[test]
fn pubkey_labels() {
    assert_eq!(pubkey_fingerprint("0123456789abcdef0123"), "01234567…0123");
    assert_eq!(pubkey_fingerprint("abc"), "abc");
    let k = Identity::PublicKey { ed25519_hex: "0123456789abcdef0123".into(), label: String::new() };
    assert_eq!(k.label(), "01234567…0123");
    assert_eq!(k.type_label(), "PUBKEY");
    let a = Identity::Atproto { did: "did:plc:x".into(), handle: "al.bsky".into() };
    assert_eq!(a.label(), "al.bsky (did:plc:x)");
}

#[test]
fn preset_validation() {
    assert_eq!(validate_preset("  Standard prince ", "{\"diff\":\"prince\"}").unwrap(), "Standard prince");
    assert!(matches!(validate_preset("  ", "{}"), Err(PresetsError::Invalid("name is required"))));
    assert!(matches!(validate_preset("valid", "not json"), Err(PresetsError::Invalid("body must be valid JSON"))));
    let long = "x".repeat(65);
    assert!(matches!(validate_preset(&long, "{}"), Err(PresetsError::Invalid("name capped at 64 chars"))));
}

#[test]
fn friend_search_plans() {
    assert!(matches!(search_plan("   "), SearchPlan::Nothing));
    match search_plan(" 0xA9C3·7F12·EE04·ABCD ") {
        SearchPlan::ById(id) => assert_eq!(id, PlayerId::new(0xA9C37F12EE04ABCD)),
        other => panic!("unexpected {other:?}"),
    }
    match search_plan(" Alice@Example.com ") {
        SearchPlan::ByKey { exact, lower } => {
            assert_eq!(exact, "Alice@Example.com");
            assert_eq!(lower, "alice@example.com");
        }
        other => panic!("unexpected {other:?}"),
    }
}

#[test]
fn search_hits_respect_discoverability() {
    assert!(hit_by_id(&account(false)).is_none());
    let h = hit_by_id(&account(true)).unwrap();
    assert_eq!(h.kind, "player_id");
    assert_eq!(h.label, "0x0000·0000·0000·ABCD");
    assert!(hit_by_identity(&account(false), "email".into(), "bob@x".into()).is_none());
    let h = hit_by_identity(&account(true), "email".into(), "bob@x".into()).unwrap();
    assert_eq!((h.kind.as_str(), h.label.as_str()), ("email", "bob@x"));
}

#[test]
fn smtp_settings() {
    let s = |v: &str| Some(v.to_string());
    let c = SmtpConfig::from_settings(s("h"), s("u"), s("p"), s("f"), None).unwrap();
    assert_eq!(c.port, 465);
    let c = SmtpConfig::from_settings(s("h"), s("u"), s("p"), s("f"), s("587")).unwrap();
    assert_eq!(c.port, 587);
    let c = SmtpConfig::from_settings(s("h"), s("u"), s("p"), s("f"), s("70000")).unwrap();
    assert_eq!(c.port, 465);
    assert!(SmtpConfig::from_settings(s(""), s("u"), s("p"), s("f"), None).is_none());
    assert!(SmtpConfig::from_settings(s("h"), None, s("p"), s("f"), None).is_none());
}

#[test]
fn magic_link_email_body() {
    let b = magic_link_body("https://l/x");
    assert!(b.starts_with("Hi,\n\nClick the link below"));
    assert!(b.contains("(valid for 15 minutes):\n\nhttps://l/x\n\nIf you didn't"));
}

#[test]
fn friend_request_decisions() {
    let a = PlayerId::new(1);
    assert!(matches!(request_precheck(a, a), Err(FriendsError::Invalid("cannot friend yourself"))));
    assert!(request_precheck(a, PlayerId::new(2)).is_ok());
    assert!(matches!(request_conflict(1), Err(FriendsError::AlreadyExists)));
    assert!(request_conflict(0).is_ok());
    assert!(matches!(accept_outcome(0), Err(FriendsError::NotFound)));
    assert!(accept_outcome(1).is_ok());
}

#[test]
fn preset_deletion_outcome() {
    assert!(matches!(delete_outcome(0), Err(PresetsError::NotFound)));
    assert!(delete_outcome(2).is_ok());
}

#[test]
fn rfc3339_texts() {
    assert_eq!(rfc3339_of_instant(0, 0).unwrap(), "1970-01-01T00:00:00+00:00");
    assert!(rfc3339_of_instant(MAX_TIMESTAMP, 0).is_some());
    assert!(rfc3339_of_instant(MAX_TIMESTAMP + 1, 0).is_none());
    assert!(rfc3339_of_instant(MIN_TIMESTAMP, 0).is_some());
    assert!(rfc3339_of_instant(MIN_TIMESTAMP - 1, 0).is_none());
    assert_eq!(rfc3339_of_instant(0, 500_000_000).unwrap(), "1970-01-01T00:00:00.500+00:00");
    assert!(chrono::DateTime::parse_from_rfc3339(&now_text()).is_ok());
}

#[test]
fn unique_violations_by_code_or_message() {
    assert!(is_unique_violation(Some("2067"), "constraint failed"));
    assert!(is_unique_violation(Some("1555"), ""));
    assert!(is_unique_violation(None, "UNIQUE constraint failed: identities.kind, identities.primary_key"));
    assert!(is_unique_violation(Some("787"), "UNIQUE constraint failed"));
    assert!(!is_unique_violation(Some("787"), "FOREIGN KEY constraint failed"));
    assert!(!is_unique_violation(None, "unique constraint failed"));
    assert!(!is_unique_violation(Some("20670"), ""));
}
