//! Mail transport configuration, errors, and the sign-in message text.

use vstd::prelude::*;

use crate::number::{parse_usize, spec_parse_usize};
use crate::text::{chars_of, extend_str, string_of};

verus! {

/// Why sending mail failed.
#[derive(Debug, Clone, PartialEq, Eq)]
pub enum MailerError {
    Transport(String),
    Recipient(String),
    NotConfigured,
}

/// The development mailer: writes each message to the error stream.
#[derive(Debug, Clone, Copy, PartialEq, Eq, Default)]
pub struct LogMailer;

/// Static configuration of an SMTP mailer.
#[derive(Debug, Clone)]
pub struct SmtpConfig {
    pub host: String,
    pub port: u16,
    pub username: String,
    pub password: String,
    pub from: String,
}

/// The default SMTP port (implicit TLS).
pub const DEFAULT_SMTP_PORT: u16 = 465;

/// The port a `SMTP_PORT` setting gives: its `u16` value, or 465 when it is
/// absent or does not parse.
pub open spec fn smtp_port_of(text: Option<Seq<char>>) -> u16 {
    match text {
        Some(t) => match spec_parse_usize(t) {
            Some(v) => if v <= u16::MAX {
                v as u16
            } else {
                DEFAULT_SMTP_PORT
            },
            None => DEFAULT_SMTP_PORT,
        },
        None => DEFAULT_SMTP_PORT,
    }
}

/// A setting that is present and not empty.
pub open spec fn filled(s: Option<String>) -> bool {
    s matches Some(v) && v@.len() > 0
}

impl SmtpConfig {
    /// The configuration the `SMTP_HOST`, `SMTP_USER`, `SMTP_PASS`,
    /// `SMTP_FROM` and `SMTP_PORT` settings give; `None` when one of the
    /// first four is missing or empty, so the caller falls back to logging.
    pub fn from_settings(
        host: Option<String>,
        username: Option<String>,
        password: Option<String>,
        from: Option<String>,
        port: Option<String>,
    ) -> (r: Option<SmtpConfig>)
        ensures
            !(filled(host) && filled(username) && filled(password) && filled(from)) ==> r is None,
            (filled(host) && filled(username) && filled(password) && filled(from)) ==> r == Some(
                SmtpConfig {
                    host: host->0,
                    port: smtp_port_of(
                        match port {
                            Some(p) => Some(p@),
                            None => None,
                        },
                    ),
                    username: username->0,
                    password: password->0,
                    from: from->0,
                },
            ),
    {
        let host = match host {
            Some(h) if !h.as_str().is_empty() => h,
            _ => return None,
        };
        let username = match username {
            Some(u) if !u.as_str().is_empty() => u,
            _ => return None,
        };
        let password = match password {
            Some(p) if !p.as_str().is_empty() => p,
            _ => return None,
        };
        let from = match from {
            Some(f) if !f.as_str().is_empty() => f,
            _ => return None,
        };
        let port: u16 = match port {
            Some(p) => match parse_usize(&chars_of(p.as_str())) {
                Some(v) => if v <= 65535 {
                    v as u16
                } else {
                    DEFAULT_SMTP_PORT
                },
                None => DEFAULT_SMTP_PORT,
            },
            None => DEFAULT_SMTP_PORT,
        };
        Some(SmtpConfig { host, port, username, password, from })
    }
}

/// The body of the sign-in email around the link.
pub open spec fn magic_link_body_text(link: Seq<char>) -> Seq<char> {
    "Hi,\n\nClick the link below to sign in to Open4X (valid for 15 minutes):\n\n"@ + link
        + "\n\nIf you didn't request this, ignore this email.\n"@
}

/// The body of the sign-in email carrying `link`.
pub fn magic_link_body(link: &str) -> (r: String)
    ensures
        r@ == magic_link_body_text(link@),
{
    let mut v = chars_of("Hi,\n\nClick the link below to sign in to Open4X (valid for 15 minutes):\n\n");
    extend_str(&mut v, link);
    extend_str(&mut v, "\n\nIf you didn't request this, ignore this email.\n");
    string_of(&v)
}

} // verus!
