use base64::engine::general_purpose::URL_SAFE_NO_PAD;
use base64::Engine;
use open4x::accounts::oidc::{
    authorization_request_with, build_authorization_request, url_encode, OidcConfig, OidcError, OidcProvider,
    Pkce,
};
use open4x::accounts::player::{Identity, PlayerId};
use sha2::{Digest, Sha256};

#[test]
fn player_id_format() {
    let id = PlayerId::new(0xA9C37F12EE04ABCDu64);
    assert_eq!(id.display(), "0xA9C3·7F12·EE04·ABCD");
}

#[test]
fn identity_labels() {
    let e = Identity::Email {
        address: "alice@example.com".into(),
        verified: true,
        primary: true,
    };
    assert_eq!(e.type_label(), "EMAIL");
    assert!(e.label().contains("alice"));
}

#[test]
fn known_issuers() {
    assert_eq!(OidcProvider::Google.issuer().unwrap(), "https://accounts.google.com");
    assert_eq!(OidcProvider::GitLab.issuer().unwrap(), "https://gitlab.com");
    assert_eq!(
        OidcProvider::Microsoft.issuer().unwrap(),
        "https://login.microsoftonline.com/common/v2.0"
    );
    assert_eq!(
        OidcProvider::Custom {
            issuer: "https://auth.example.com".into()
        }
        .issuer()
        .unwrap(),
        "https://auth.example.com"
    );
}

#[test]
fn empty_custom_issuer_errors() {
    let err = OidcProvider::Custom {
        issuer: String::new(),
    }
    .issuer()
    .unwrap_err();
    assert!(matches!(err, OidcError::MissingIssuer));
}

#[test]
fn discovery_url_strips_trailing_slash() {
    let cfg = OidcConfig::custom(
        "https://auth.example.com/".into(),
        "id".into(),
        None,
        "https://lobby.example/cb".into(),
    );
    assert_eq!(
        cfg.discovery_url().unwrap(),
        "https://auth.example.com/.well-known/openid-configuration"
    );
}

#[test]
fn pkce_challenge_is_b64url_sha256_of_verifier() {
    let p = Pkce::new();
    assert!(!p.verifier.is_empty());
    let mut h = Sha256::new();
    h.update(p.verifier.as_bytes());
    let expected = URL_SAFE_NO_PAD.encode(h.finalize());
    assert_eq!(p.challenge, expected);
}

#[test]
fn authorization_url_carries_required_params() {
    let cfg = OidcConfig::google(
        "client-123".into(),
        "secret".into(),
        "https://lobby.example/auth/oidc/google/callback".into(),
    );
    let req = build_authorization_request(&cfg).unwrap();
    assert!(req.url.starts_with("https://accounts.google.com/o/oauth2/v2/auth?"));
    assert!(req.url.contains("client_id=client-123"));
    assert!(req.url.contains("response_type=code"));
    assert!(req.url.contains("code_challenge_method=S256"));
    assert!(req.url.contains(&format!("state={}", url_encode(&req.state))));
    assert!(req.url.contains(&format!("nonce={}", url_encode(&req.nonce))));
    assert!(req.url.contains("scope=openid%20email%20profile"));
}

#[test]
fn empty_scopes_errors() {
    let mut cfg = OidcConfig::google("id".into(), "secret".into(), "https://lobby.example/cb".into());
    cfg.scopes.clear();
    let err = build_authorization_request(&cfg).unwrap_err();
    assert!(matches!(err, OidcError::NoScopes));
}

#[test]
fn url_encode_handles_special_chars() {
    assert_eq!(url_encode("https://x.com/cb"), "https%3A%2F%2Fx.com%2Fcb");
    assert_eq!(url_encode("hello world"), "hello%20world");
    assert_eq!(url_encode("a-b_c.d~e"), "a-b_c.d~e");
}

#[test]
fn url_encode_escapes_utf8_bytes_in_uppercase_hex() {
    assert_eq!(url_encode("é+"), "%C3%A9%2B");
    assert_eq!(url_encode(""), "");
}

#[test]
fn provider_labels() {
    assert_eq!(OidcProvider::Google.label(), "Google");
    assert_eq!(OidcProvider::GitLab.label(), "GitLab");
    assert_eq!(OidcProvider::Microsoft.label(), "Microsoft");
    assert_eq!(OidcProvider::Custom { issuer: "x".into() }.label(), "OpenID");
}

#[test]
fn discovery_url_of_empty_custom_issuer_errors() {
    let cfg = OidcConfig::custom(String::new(), "id".into(), None, "cb".into());
    assert!(matches!(cfg.discovery_url(), Err(OidcError::MissingIssuer)));
}

#[test]
fn discovery_url_strips_every_trailing_slash() {
    let cfg = OidcConfig::custom("https://a.example//".into(), "id".into(), None, "cb".into());
    assert_eq!(cfg.discovery_url().unwrap(), "https://a.example/.well-known/openid-configuration");
    let g = OidcConfig::gitlab("id".into(), "s".into(), "cb".into());
    assert_eq!(g.discovery_url().unwrap(), "https://gitlab.com/.well-known/openid-configuration");
}

#[test]
fn pkce_from_known_bytes() {
    let p = Pkce::from_bytes(&[0u8; 32]);
    assert_eq!(p.verifier, "AAAAAAAAAAAAAAAAAAAAAAAAAAAAAAAAAAAAAAAAAAA");
    assert_eq!(p.verifier.len(), 43);
    let mut h = Sha256::new();
    h.update(p.verifier.as_bytes());
    assert_eq!(p.challenge, URL_SAFE_NO_PAD.encode(h.finalize()));
}

#[test]
fn authorization_url_is_exact_for_fixed_inputs() {
    let cfg = OidcConfig::custom(
        "https://auth.example.com/".into(),
        "my id".into(),
        None,
        "https://lobby.example/cb".into(),
    );
    let pkce = Pkce { verifier: "v".into(), challenge: "c+h".into() };
    let req = authorization_request_with(&cfg, pkce, "st".into(), "no".into()).unwrap();
    assert_eq!(
        req.url,
        "https://auth.example.com/oauth2/authorize?response_type=code&client_id=my%20id\
         &redirect_uri=https%3A%2F%2Flobby.example%2Fcb&scope=openid%20email%20profile\
         &state=st&nonce=no&code_challenge=c%2Bh&code_challenge_method=S256"
    );
    assert_eq!(req.state, "st");
    assert_eq!(req.nonce, "no");
}

#[test]
fn microsoft_and_gitlab_endpoints() {
    let m = OidcConfig::microsoft("id".into(), "s".into(), "cb".into());
    let req = build_authorization_request(&m).unwrap();
    assert!(req.url.starts_with("https://login.microsoftonline.com/common/oauth2/v2.0/authorize?"));
    let g = OidcConfig::gitlab("id".into(), "s".into(), "cb".into());
    let req = build_authorization_request(&g).unwrap();
    assert!(req.url.starts_with("https://gitlab.com/oauth/authorize?"));
    assert_eq!(req.state.len(), 22);
    assert_eq!(req.nonce.len(), 22);
}
