//! OpenID Connect client configuration and the authorization URL.
//!
//! The deterministic half of the code flow: provider configuration, scope,
//! PKCE, nonce and state, and the URL the lobby redirects the browser to.
//! GitHub is absent on purpose: it speaks OAuth2 with a REST user-info call,
//! not OIDC.

use vstd::prelude::*;
use vstd::string::StringSliceAdditionalSpecFns;
use vstd::utf8::encode_utf8;

use crate::accounts::crypto::{b64url, b64url_encode, random_bytes, sha256, sha256_digest};
use crate::number::{hex_upper_fixed, push_hex_upper};
use crate::text::{chars_of, extend_chars, extend_str, join_spaced, string_of};

verus! {

/// Why an authorization request could not be built.
#[derive(Debug)]
pub enum OidcError {
    /// A malformed redirect URI or issuer URL.
    BadUrl,
    /// A custom provider without an issuer URL.
    MissingIssuer,
    /// No scope requested.
    NoScopes,
}

/// The pre-configured providers, and any other OIDC issuer.
#[derive(Debug, Clone, PartialEq, Eq)]
pub enum OidcProvider {
    Google,
    GitLab,
    /// The Azure AD `common` tenant.
    Microsoft,
    Custom { issuer: String },
}

/// The issuer URL of a provider; `None` for a custom provider without one.
pub open spec fn issuer_of(p: OidcProvider) -> Option<Seq<char>> {
    match p {
        OidcProvider::Google => Some("https://accounts.google.com"@),
        OidcProvider::GitLab => Some("https://gitlab.com"@),
        OidcProvider::Microsoft => Some("https://login.microsoftonline.com/common/v2.0"@),
        OidcProvider::Custom { issuer } => if issuer@.len() == 0 {
            None
        } else {
            Some(issuer@)
        },
    }
}

/// The display label of a provider.
pub open spec fn provider_label(p: OidcProvider) -> Seq<char> {
    match p {
        OidcProvider::Google => "Google"@,
        OidcProvider::GitLab => "GitLab"@,
        OidcProvider::Microsoft => "Microsoft"@,
        OidcProvider::Custom { .. } => "OpenID"@,
    }
}

impl OidcProvider {
    /// The issuer URL; a custom provider needs a non-empty one.
    pub fn issuer(&self) -> (r: Result<String, OidcError>)
        ensures
            match issuer_of(*self) {
                Some(u) => r matches Ok(s) && s@ == u,
                None => r matches Err(OidcError::MissingIssuer),
            },
    {
        match self {
            OidcProvider::Google => Ok("https://accounts.google.com".to_owned()),
            OidcProvider::GitLab => Ok("https://gitlab.com".to_owned()),
            OidcProvider::Microsoft => Ok("https://login.microsoftonline.com/common/v2.0".to_owned()),
            OidcProvider::Custom { issuer } => {
                if issuer.as_str().is_empty() {
                    return Err(OidcError::MissingIssuer);
                }
                Ok(issuer.clone())
            },
        }
    }

    /// The label shown on the sign-in button.
    pub fn label(&self) -> (r: &str)
        ensures
            r@ == provider_label(*self),
    {
        match self {
            OidcProvider::Google => "Google",
            OidcProvider::GitLab => "GitLab",
            OidcProvider::Microsoft => "Microsoft",
            OidcProvider::Custom { .. } => "OpenID",
        }
    }
}

/// One client registration with a provider.
#[derive(Debug, Clone)]
pub struct OidcConfig {
    pub provider: OidcProvider,
    pub client_id: String,
    pub client_secret: Option<String>,
    pub redirect_uri: String,
    pub scopes: Vec<String>,
}

/// The scopes every configuration starts with: `openid email profile`.
pub open spec fn default_scopes(v: Seq<String>) -> bool {
    &&& v.len() == 3
    &&& v[0]@ == "openid"@
    &&& v[1]@ == "email"@
    &&& v[2]@ == "profile"@
}

fn standard_scopes() -> (v: Vec<String>)
    ensures
        default_scopes(v@),
{
    let mut v: Vec<String> = Vec::new();
    v.push("openid".to_owned());
    v.push("email".to_owned());
    v.push("profile".to_owned());
    v
}

impl OidcConfig {
    /// A Google registration.
    pub fn google(client_id: String, client_secret: String, redirect_uri: String) -> (c: Self)
        ensures
            c.provider == OidcProvider::Google,
            c.client_id == client_id,
            c.client_secret == Some(client_secret),
            c.redirect_uri == redirect_uri,
            default_scopes(c.scopes@),
    {
        OidcConfig {
            provider: OidcProvider::Google,
            client_id,
            client_secret: Some(client_secret),
            redirect_uri,
            scopes: standard_scopes(),
        }
    }

    /// A GitLab registration.
    pub fn gitlab(client_id: String, client_secret: String, redirect_uri: String) -> (c: Self)
        ensures
            c.provider == OidcProvider::GitLab,
            c.client_id == client_id,
            c.client_secret == Some(client_secret),
            c.redirect_uri == redirect_uri,
            default_scopes(c.scopes@),
    {
        OidcConfig {
            provider: OidcProvider::GitLab,
            client_id,
            client_secret: Some(client_secret),
            redirect_uri,
            scopes: standard_scopes(),
        }
    }

    /// A Microsoft registration.
    pub fn microsoft(client_id: String, client_secret: String, redirect_uri: String) -> (c: Self)
        ensures
            c.provider == OidcProvider::Microsoft,
            c.client_id == client_id,
            c.client_secret == Some(client_secret),
            c.redirect_uri == redirect_uri,
            default_scopes(c.scopes@),
    {
        OidcConfig {
            provider: OidcProvider::Microsoft,
            client_id,
            client_secret: Some(client_secret),
            redirect_uri,
            scopes: standard_scopes(),
        }
    }

    /// A registration with any other issuer.
    pub fn custom(issuer: String, client_id: String, client_secret: Option<String>, redirect_uri: String) -> (c: Self)
        ensures
            c.provider == (OidcProvider::Custom { issuer }),
            c.client_id == client_id,
            c.client_secret == client_secret,
            c.redirect_uri == redirect_uri,
            default_scopes(c.scopes@),
    {
        OidcConfig {
            provider: OidcProvider::Custom { issuer },
            client_id,
            client_secret,
            redirect_uri,
            scopes: standard_scopes(),
        }
    }

    /// The provider's discovery document: the issuer without trailing `/`,
    /// then `/.well-known/openid-configuration`.
    pub fn discovery_url(&self) -> (r: Result<String, OidcError>)
        ensures
            match issuer_of(self.provider) {
                Some(u) => r matches Ok(s) && s@ == trim_end_slashes(u) + "/.well-known/openid-configuration"@,
                None => r matches Err(OidcError::MissingIssuer),
            },
    {
        let issuer = match self.provider.issuer() {
            Ok(i) => i,
            Err(e) => return Err(e),
        };
        let mut v = trim_slashes(issuer.as_str());
        extend_str(&mut v, "/.well-known/openid-configuration");
        Ok(string_of(&v))
    }
}

/// `s` without its trailing `/` characters (`trim_end_matches('/')`).
pub open spec fn trim_end_slashes(s: Seq<char>) -> Seq<char>
    decreases s.len(),
{
    if s.len() > 0 && s.last() == '/' {
        trim_end_slashes(s.drop_last())
    } else {
        s
    }
}

fn trim_slashes(s: &str) -> (r: Vec<char>)
    ensures
        r@ == trim_end_slashes(s@),
{
    let mut v = chars_of(s);
    while v.len() > 0 && v[v.len() - 1] == '/'
        invariant
            trim_end_slashes(v@) == trim_end_slashes(s@),
        decreases v.len(),
    {
        v.pop();
    }
    v
}

// ───────────────────────────── PKCE ──────────────────────────────────────────

/// A PKCE pair: the verifier stays with the lobby, the URL carries
/// `code_challenge = base64url(SHA-256(verifier))`.
#[derive(Debug, Clone)]
pub struct Pkce {
    pub verifier: String,
    pub challenge: String,
}

/// The challenge belonging to a verifier.
pub open spec fn pkce_challenge(verifier: Seq<char>) -> Seq<char> {
    b64url(sha256(encode_utf8(verifier)))
}

/// A well-formed pair: the verifier is the base64url of 32 bytes (43
/// characters of the URL-safe alphabet), the challenge belongs to it.
pub open spec fn pkce_pair(p: Pkce) -> bool {
    &&& exists|b: Seq<u8>| b.len() == 32 && p.verifier@ == b64url(b)
    &&& p.challenge@ == pkce_challenge(p.verifier@)
}

impl Pkce {
    /// The pair whose verifier is the base64url of `bytes`.
    pub fn from_bytes(bytes: &[u8]) -> (p: Self)
        ensures
            p.verifier@ == b64url(bytes@),
            p.challenge@ == pkce_challenge(p.verifier@),
    {
        let verifier = b64url_encode(bytes);
        let digest = sha256_digest(verifier.as_str().as_bytes());
        let challenge = b64url_encode(digest.as_slice());
        Pkce { verifier, challenge }
    }

    /// A fresh pair from 32 random bytes.
    pub fn new() -> (p: Self)
        ensures
            pkce_pair(p),
    {
        let bytes: [u8; 32] = random_bytes();
        let p = Pkce::from_bytes(&bytes);
        assert(bytes@.len() == 32);
        p
    }
}

impl Default for Pkce {
    fn default() -> (p: Self)
        ensures
            pkce_pair(p),
    {
        Pkce::new()
    }
}

// ───────────────────────────── Authorization request ─────────────────────────

/// What the lobby keeps of one sign-in attempt, with the URL to redirect to.
#[derive(Debug, Clone)]
pub struct AuthorizationRequest {
    /// Where to send the browser.
    pub url: String,
    /// Guards against request forgery: the callback's `state` must match.
    pub state: String,
    /// Guards against replay: the ID token's `nonce` claim must match.
    pub nonce: String,
    /// The PKCE pair; the verifier goes with the code exchange.
    pub pkce: Pkce,
}

/// The authorization endpoint of a provider.
pub open spec fn authorize_endpoint(p: OidcProvider) -> Seq<char> {
    match p {
        OidcProvider::Google => "https://accounts.google.com/o/oauth2/v2/auth"@,
        OidcProvider::GitLab => "https://gitlab.com/oauth/authorize"@,
        OidcProvider::Microsoft => "https://login.microsoftonline.com/common/oauth2/v2.0/authorize"@,
        OidcProvider::Custom { issuer } => trim_end_slashes(issuer@) + "/oauth2/authorize"@,
    }
}

/// The scopes of a configuration joined by spaces.
pub open spec fn scope_text(scopes: Seq<String>) -> Seq<char> {
    join_spaced(scopes.map_values(|s: String| s@))
}

/// The authorization URL for `config` with the given challenge, state and
/// nonce: the endpoint, then `response_type=code`, the client id, redirect
/// URI, scope, state, nonce, challenge (each percent-encoded) and
/// `code_challenge_method=S256`.
pub open spec fn authorization_url(config: OidcConfig, challenge: Seq<char>, state: Seq<char>, nonce: Seq<char>) -> Seq<
    char,
> {
    authorize_endpoint(config.provider) + "?response_type=code&client_id="@ + url_encoded_text(config.client_id@)
        + "&redirect_uri="@ + url_encoded_text(config.redirect_uri@) + "&scope="@ + url_encoded_text(
        scope_text(config.scopes@),
    ) + "&state="@ + url_encoded_text(state) + "&nonce="@ + url_encoded_text(nonce) + "&code_challenge="@
        + url_encoded_text(challenge) + "&code_challenge_method=S256"@
}

/// An opaque per-request id: the base64url of 16 bytes.
pub open spec fn is_request_id(s: Seq<char>) -> bool {
    exists|b: Seq<u8>| b.len() == 16 && s == b64url(b)
}

fn join_scopes(scopes: &Vec<String>) -> (r: Vec<char>)
    ensures
        r@ == scope_text(scopes@),
{
    let ghost ws = scopes@.map_values(|s: String| s@);
    let mut r: Vec<char> = Vec::new();
    for i in 0..scopes.len()
        invariant
            ws == scopes@.map_values(|s: String| s@),
            r@ == join_spaced(ws.take(i as int)),
    {
        assert(ws.take(i + 1).drop_last() =~= ws.take(i as int));
        if i > 0 {
            r.push(' ');
        }
        extend_str(&mut r, scopes[i].as_str());
    }
    assert(ws.take(scopes.len() as int) =~= ws);
    r
}

fn push_encoded(out: &mut Vec<char>, s: &str)
    ensures
        final(out)@ == old(out)@ + url_encoded_text(s@),
{
    let e = url_encode(s);
    extend_str(out, e.as_str());
}

/// The authorization request for `config` with the given PKCE pair, state
/// and nonce; `NoScopes` when the configuration requests no scope.
pub fn authorization_request_with(config: &OidcConfig, pkce: Pkce, state: String, nonce: String) -> (r: Result<
    AuthorizationRequest,
    OidcError,
>)
    ensures
        config.scopes@.len() == 0 ==> r matches Err(OidcError::NoScopes),
        config.scopes@.len() > 0 ==> (r matches Ok(req) && {
            &&& req.url@ == authorization_url(*config, pkce.challenge@, state@, nonce@)
            &&& req.state == state
            &&& req.nonce == nonce
            &&& req.pkce == pkce
        }),
{
    if config.scopes.len() == 0 {
        return Err(OidcError::NoScopes);
    }
    let scope = string_of(&join_scopes(&config.scopes));
    let mut url: Vec<char> = match &config.provider {
        OidcProvider::Google => chars_of("https://accounts.google.com/o/oauth2/v2/auth"),
        OidcProvider::GitLab => chars_of("https://gitlab.com/oauth/authorize"),
        OidcProvider::Microsoft => chars_of("https://login.microsoftonline.com/common/oauth2/v2.0/authorize"),
        OidcProvider::Custom { issuer } => {
            let mut v = trim_slashes(issuer.as_str());
            extend_str(&mut v, "/oauth2/authorize");
            v
        },
    };
    extend_str(&mut url, "?response_type=code&client_id=");
    push_encoded(&mut url, config.client_id.as_str());
    extend_str(&mut url, "&redirect_uri=");
    push_encoded(&mut url, config.redirect_uri.as_str());
    extend_str(&mut url, "&scope=");
    push_encoded(&mut url, scope.as_str());
    extend_str(&mut url, "&state=");
    push_encoded(&mut url, state.as_str());
    extend_str(&mut url, "&nonce=");
    push_encoded(&mut url, nonce.as_str());
    extend_str(&mut url, "&code_challenge=");
    push_encoded(&mut url, pkce.challenge.as_str());
    extend_str(&mut url, "&code_challenge_method=S256");
    Ok(AuthorizationRequest { url: string_of(&url), state, nonce, pkce })
}

/// Builds the authorization URL to redirect to, with a fresh PKCE pair,
/// state and nonce. Nothing is fetched: the endpoints are fixed per
/// provider.
pub fn build_authorization_request(config: &OidcConfig) -> (r: Result<AuthorizationRequest, OidcError>)
    ensures
        config.scopes@.len() == 0 ==> r matches Err(OidcError::NoScopes),
        config.scopes@.len() > 0 ==> (r matches Ok(req) && {
            &&& req.url@ == authorization_url(*config, req.pkce.challenge@, req.state@, req.nonce@)
            &&& pkce_pair(req.pkce)
            &&& is_request_id(req.state@)
            &&& is_request_id(req.nonce@)
        }),
{
    if config.scopes.len() == 0 {
        return Err(OidcError::NoScopes);
    }
    let pkce = Pkce::new();
    let state = random_id();
    let nonce = random_id();
    authorization_request_with(config, pkce, state, nonce)
}

/// A fresh request id: 16 random bytes in base64url.
fn random_id() -> (s: String)
    ensures
        is_request_id(s@),
{
    let bytes: [u8; 16] = random_bytes();
    let s = b64url_encode(&bytes);
    assert(bytes@.len() == 16);
    s
}

// ───────────────────────────── Percent-encoding ──────────────────────────────

/// A byte that passes unencoded: RFC 3986 §2.3 unreserved characters.
pub open spec fn is_unreserved(b: u8) -> bool {
    ||| (0x41 <= b && b <= 0x5a)
    ||| (0x61 <= b && b <= 0x7a)
    ||| (0x30 <= b && b <= 0x39)
    ||| b == 0x2d
    ||| b == 0x5f
    ||| b == 0x2e
    ||| b == 0x7e
}

/// One byte, percent-encoded: itself when unreserved, else `%` and two
/// uppercase hex digits.
pub open spec fn percent_escape(b: u8) -> Seq<char> {
    if is_unreserved(b) {
        seq![b as char]
    } else {
        seq!['%'] + hex_upper_fixed(b as nat, 2)
    }
}

/// The percent-encoding of a byte string.
pub open spec fn url_encoded(b: Seq<u8>) -> Seq<char>
    decreases b.len(),
{
    if b.len() == 0 {
        seq![]
    } else {
        url_encoded(b.drop_last()) + percent_escape(b.last())
    }
}

/// The percent-encoding of the UTF-8 of a text.
pub open spec fn url_encoded_text(s: Seq<char>) -> Seq<char> {
    url_encoded(encode_utf8(s))
}

/// Percent-encodes every byte of `s` outside the unreserved set
/// `A-Z a-z 0-9 - _ . ~`.
pub fn url_encode(s: &str) -> (r: String)
    ensures
        r@ == url_encoded_text(s@),
{
    let b = s.as_bytes();
    let mut out: Vec<char> = Vec::new();
    for i in 0..b.len()
        invariant
            b@ == encode_utf8(s@),
            out@ == url_encoded(b@.take(i as int)),
    {
        let x = b[i];
        assert(b@.take(i + 1).drop_last() =~= b@.take(i as int));
        if (0x41 <= x && x <= 0x5a) || (0x61 <= x && x <= 0x7a) || (0x30 <= x && x <= 0x39) || x == 0x2d
            || x == 0x5f || x == 0x2e || x == 0x7e {
            out.push(x as char);
        } else {
            out.push('%');
            push_hex_upper(&mut out, x as u64, 2);
        }
    }
    assert(b@.take(b.len() as int) =~= b@);
    string_of(&out)
}

} // verus!
