//! Append-only audit log: event kinds and the rows the log stores.

use vstd::prelude::*;

use crate::accounts::player::PlayerId;
use crate::number::spec_parse_hex_u64;
use crate::accounts::player::parse_player_id_text;
use crate::text::{chars_of, is_word};

verus! {

/// The kinds of security-relevant event the audit log records.
#[derive(Debug, Clone, Copy, PartialEq, Eq)]
pub enum AuditEventKind {
    /// Magic link minted (no claim of who used it yet).
    MagicLinkMint,
    /// Token verified, session minted.
    SignIn,
    /// Verify failed (bad token, reused, expired).
    SignInFailed,
    SignOut,
    IdentityLinked,
    IdentityUnlinked,
    AccountDeleted,
    NewGameCreated,
    /// Starting an email sign-in failed before a mint could happen.
    AuthEmailStartFailed,
}

/// The stored name of an event kind.
pub open spec fn kind_name(k: AuditEventKind) -> Seq<char> {
    match k {
        AuditEventKind::MagicLinkMint => "magic_link_mint"@,
        AuditEventKind::SignIn => "sign_in"@,
        AuditEventKind::SignInFailed => "sign_in_failed"@,
        AuditEventKind::SignOut => "sign_out"@,
        AuditEventKind::IdentityLinked => "identity_linked"@,
        AuditEventKind::IdentityUnlinked => "identity_unlinked"@,
        AuditEventKind::AccountDeleted => "account_deleted"@,
        AuditEventKind::NewGameCreated => "new_game_created"@,
        AuditEventKind::AuthEmailStartFailed => "auth_email_start_failed"@,
    }
}

/// The kind a stored name reads back as; unknown names read as
/// `SignInFailed`, so the schema can grow without breaking old reads.
pub open spec fn kind_of_name(s: Seq<char>) -> AuditEventKind {
    if s == "magic_link_mint"@ {
        AuditEventKind::MagicLinkMint
    } else if s == "sign_in"@ {
        AuditEventKind::SignIn
    } else if s == "sign_in_failed"@ {
        AuditEventKind::SignInFailed
    } else if s == "sign_out"@ {
        AuditEventKind::SignOut
    } else if s == "identity_linked"@ {
        AuditEventKind::IdentityLinked
    } else if s == "identity_unlinked"@ {
        AuditEventKind::IdentityUnlinked
    } else if s == "account_deleted"@ {
        AuditEventKind::AccountDeleted
    } else if s == "new_game_created"@ {
        AuditEventKind::NewGameCreated
    } else if s == "auth_email_start_failed"@ {
        AuditEventKind::AuthEmailStartFailed
    } else {
        AuditEventKind::SignInFailed
    }
}

impl AuditEventKind {
    pub fn as_str(self) -> (r: &'static str)
        ensures
            r@ == kind_name(self),
    {
        match self {
            AuditEventKind::MagicLinkMint => "magic_link_mint",
            AuditEventKind::SignIn => "sign_in",
            AuditEventKind::SignInFailed => "sign_in_failed",
            AuditEventKind::SignOut => "sign_out",
            AuditEventKind::IdentityLinked => "identity_linked",
            AuditEventKind::IdentityUnlinked => "identity_unlinked",
            AuditEventKind::AccountDeleted => "account_deleted",
            AuditEventKind::NewGameCreated => "new_game_created",
            AuditEventKind::AuthEmailStartFailed => "auth_email_start_failed",
        }
    }
}

/// Read a stored kind name.
pub fn parse_kind(s: &str) -> (k: AuditEventKind)
    ensures
        k == kind_of_name(s@),
{
    let v = chars_of(s);
    if is_word(&v, "magic_link_mint") {
        AuditEventKind::MagicLinkMint
    } else if is_word(&v, "sign_in") {
        AuditEventKind::SignIn
    } else if is_word(&v, "sign_in_failed") {
        AuditEventKind::SignInFailed
    } else if is_word(&v, "sign_out") {
        AuditEventKind::SignOut
    } else if is_word(&v, "identity_linked") {
        AuditEventKind::IdentityLinked
    } else if is_word(&v, "identity_unlinked") {
        AuditEventKind::IdentityUnlinked
    } else if is_word(&v, "account_deleted") {
        AuditEventKind::AccountDeleted
    } else if is_word(&v, "new_game_created") {
        AuditEventKind::NewGameCreated
    } else if is_word(&v, "auth_email_start_failed") {
        AuditEventKind::AuthEmailStartFailed
    } else {
        AuditEventKind::SignInFailed
    }
}

/// Every event kind reads back from its stored name as itself.
pub proof fn audit_kind_round_trip(k: AuditEventKind)
    ensures
        kind_of_name(kind_name(k)) == k,
{
    reveal_strlit("magic_link_mint");
    reveal_strlit("sign_in");
    reveal_strlit("sign_in_failed");
    reveal_strlit("sign_out");
    reveal_strlit("identity_linked");
    reveal_strlit("identity_unlinked");
    reveal_strlit("account_deleted");
    reveal_strlit("new_game_created");
    reveal_strlit("auth_email_start_failed");
    match k {
        AuditEventKind::MagicLinkMint => {
        },
        AuditEventKind::SignIn => {
            assert("sign_in"@ != "magic_link_mint"@) by {
                if "sign_in"@ == "magic_link_mint"@ {
                    assert("sign_in"@.len() == "magic_link_mint"@.len());
                }
            }
        },
        AuditEventKind::SignInFailed => {
            assert("sign_in_failed"@ != "magic_link_mint"@) by {
                if "sign_in_failed"@ == "magic_link_mint"@ {
                    assert("sign_in_failed"@.len() == "magic_link_mint"@.len());
                }
            }
            assert("sign_in_failed"@ != "sign_in"@) by {
                if "sign_in_failed"@ == "sign_in"@ {
                    assert("sign_in_failed"@.len() == "sign_in"@.len());
                }
            }
        },
        AuditEventKind::SignOut => {
            assert("sign_out"@ != "magic_link_mint"@) by {
                if "sign_out"@ == "magic_link_mint"@ {
                    assert("sign_out"@.len() == "magic_link_mint"@.len());
                }
            }
            assert("sign_out"@ != "sign_in"@) by {
                if "sign_out"@ == "sign_in"@ {
                    assert("sign_out"@.len() == "sign_in"@.len());
                }
            }
            assert("sign_out"@ != "sign_in_failed"@) by {
                if "sign_out"@ == "sign_in_failed"@ {
                    assert("sign_out"@.len() == "sign_in_failed"@.len());
                }
            }
        },
        AuditEventKind::IdentityLinked => {
            assert("identity_linked"@ != "magic_link_mint"@) by {
                if "identity_linked"@ == "magic_link_mint"@ {
                    assert("identity_linked"@.len() == "magic_link_mint"@.len());
                    assert("identity_linked"@[0] == "magic_link_mint"@[0]);
                }
            }
            assert("identity_linked"@ != "sign_in"@) by {
                if "identity_linked"@ == "sign_in"@ {
                    assert("identity_linked"@.len() == "sign_in"@.len());
                }
            }
            assert("identity_linked"@ != "sign_in_failed"@) by {
                if "identity_linked"@ == "sign_in_failed"@ {
                    assert("identity_linked"@.len() == "sign_in_failed"@.len());
                }
            }
            assert("identity_linked"@ != "sign_out"@) by {
                if "identity_linked"@ == "sign_out"@ {
                    assert("identity_linked"@.len() == "sign_out"@.len());
                }
            }
        },
        AuditEventKind::IdentityUnlinked => {
            assert("identity_unlinked"@ != "magic_link_mint"@) by {
                if "identity_unlinked"@ == "magic_link_mint"@ {
                    assert("identity_unlinked"@.len() == "magic_link_mint"@.len());
                }
            }
            assert("identity_unlinked"@ != "sign_in"@) by {
                if "identity_unlinked"@ == "sign_in"@ {
                    assert("identity_unlinked"@.len() == "sign_in"@.len());
                }
            }
            assert("identity_unlinked"@ != "sign_in_failed"@) by {
                if "identity_unlinked"@ == "sign_in_failed"@ {
                    assert("identity_unlinked"@.len() == "sign_in_failed"@.len());
                }
            }
            assert("identity_unlinked"@ != "sign_out"@) by {
                if "identity_unlinked"@ == "sign_out"@ {
                    assert("identity_unlinked"@.len() == "sign_out"@.len());
                }
            }
            assert("identity_unlinked"@ != "identity_linked"@) by {
                if "identity_unlinked"@ == "identity_linked"@ {
                    assert("identity_unlinked"@.len() == "identity_linked"@.len());
                }
            }
        },
        AuditEventKind::AccountDeleted => {
            assert("account_deleted"@ != "magic_link_mint"@) by {
                if "account_deleted"@ == "magic_link_mint"@ {
                    assert("account_deleted"@.len() == "magic_link_mint"@.len());
                    assert("account_deleted"@[0] == "magic_link_mint"@[0]);
                }
            }
            assert("account_deleted"@ != "sign_in"@) by {
                if "account_deleted"@ == "sign_in"@ {
                    assert("account_deleted"@.len() == "sign_in"@.len());
                }
            }
            assert("account_deleted"@ != "sign_in_failed"@) by {
                if "account_deleted"@ == "sign_in_failed"@ {
                    assert("account_deleted"@.len() == "sign_in_failed"@.len());
                }
            }
            assert("account_deleted"@ != "sign_out"@) by {
                if "account_deleted"@ == "sign_out"@ {
                    assert("account_deleted"@.len() == "sign_out"@.len());
                }
            }
            assert("account_deleted"@ != "identity_linked"@) by {
                if "account_deleted"@ == "identity_linked"@ {
                    assert("account_deleted"@.len() == "identity_linked"@.len());
                    assert("account_deleted"@[0] == "identity_linked"@[0]);
                }
            }
            assert("account_deleted"@ != "identity_unlinked"@) by {
                if "account_deleted"@ == "identity_unlinked"@ {
                    assert("account_deleted"@.len() == "identity_unlinked"@.len());
                }
            }
        },
        AuditEventKind::NewGameCreated => {
            assert("new_game_created"@ != "magic_link_mint"@) by {
                if "new_game_created"@ == "magic_link_mint"@ {
                    assert("new_game_created"@.len() == "magic_link_mint"@.len());
                }
            }
            assert("new_game_created"@ != "sign_in"@) by {
                if "new_game_created"@ == "sign_in"@ {
                    assert("new_game_created"@.len() == "sign_in"@.len());
                }
            }
            assert("new_game_created"@ != "sign_in_failed"@) by {
                if "new_game_created"@ == "sign_in_failed"@ {
                    assert("new_game_created"@.len() == "sign_in_failed"@.len());
                }
            }
            assert("new_game_created"@ != "sign_out"@) by {
                if "new_game_created"@ == "sign_out"@ {
                    assert("new_game_created"@.len() == "sign_out"@.len());
                }
            }
            assert("new_game_created"@ != "identity_linked"@) by {
                if "new_game_created"@ == "identity_linked"@ {
                    assert("new_game_created"@.len() == "identity_linked"@.len());
                }
            }
            assert("new_game_created"@ != "identity_unlinked"@) by {
                if "new_game_created"@ == "identity_unlinked"@ {
                    assert("new_game_created"@.len() == "identity_unlinked"@.len());
                }
            }
            assert("new_game_created"@ != "account_deleted"@) by {
                if "new_game_created"@ == "account_deleted"@ {
                    assert("new_game_created"@.len() == "account_deleted"@.len());
                }
            }
        },
        AuditEventKind::AuthEmailStartFailed => {
            assert("auth_email_start_failed"@ != "magic_link_mint"@) by {
                if "auth_email_start_failed"@ == "magic_link_mint"@ {
                    assert("auth_email_start_failed"@.len() == "magic_link_mint"@.len());
                }
            }
            assert("auth_email_start_failed"@ != "sign_in"@) by {
                if "auth_email_start_failed"@ == "sign_in"@ {
                    assert("auth_email_start_failed"@.len() == "sign_in"@.len());
                }
            }
            assert("auth_email_start_failed"@ != "sign_in_failed"@) by {
                if "auth_email_start_failed"@ == "sign_in_failed"@ {
                    assert("auth_email_start_failed"@.len() == "sign_in_failed"@.len());
                }
            }
            assert("auth_email_start_failed"@ != "sign_out"@) by {
                if "auth_email_start_failed"@ == "sign_out"@ {
                    assert("auth_email_start_failed"@.len() == "sign_out"@.len());
                }
            }
            assert("auth_email_start_failed"@ != "identity_linked"@) by {
                if "auth_email_start_failed"@ == "identity_linked"@ {
                    assert("auth_email_start_failed"@.len() == "identity_linked"@.len());
                }
            }
            assert("auth_email_start_failed"@ != "identity_unlinked"@) by {
                if "auth_email_start_failed"@ == "identity_unlinked"@ {
                    assert("auth_email_start_failed"@.len() == "identity_unlinked"@.len());
                }
            }
            assert("auth_email_start_failed"@ != "account_deleted"@) by {
                if "auth_email_start_failed"@ == "account_deleted"@ {
                    assert("auth_email_start_failed"@.len() == "account_deleted"@.len());
                }
            }
            assert("auth_email_start_failed"@ != "new_game_created"@) by {
                if "auth_email_start_failed"@ == "new_game_created"@ {
                    assert("auth_email_start_failed"@.len() == "new_game_created"@.len());
                }
            }
        },
    }
}

/// One audit-log row, as listed.
#[derive(Debug, Clone)]
pub struct AuditEvent {
    pub id: String,
    pub ts: String,
    pub kind: AuditEventKind,
    pub player_id: Option<PlayerId>,
    pub ip: Option<String>,
    pub detail: String,
}

/// Input for recording an event: the row without its generated id and time.
#[derive(Debug, Clone)]
pub struct NewAuditEvent {
    pub kind: AuditEventKind,
    pub player_id: Option<PlayerId>,
    pub ip: Option<String>,
    pub detail: String,
}

/// An audit row as stored: kind and player id as text.
#[derive(Debug, Clone)]
pub struct AuditRow {
    pub id: String,
    pub ts: String,
    pub kind: String,
    pub player_id: Option<String>,
    pub ip: Option<String>,
    pub detail: String,
}

/// A listed event from its stored row: the kind is read by `parse_kind`, a
/// player id that is not a hexadecimal `u64` is dropped.
pub fn event_from_row(r: AuditRow) -> (e: AuditEvent)
    ensures
        e.id == r.id,
        e.ts == r.ts,
        e.kind == kind_of_name(r.kind@),
        e.player_id == (match r.player_id {
            Some(p) => match spec_parse_hex_u64(p@) {
                Some(v) => Some(PlayerId(v)),
                None => None,
            },
            None => None,
        }),
        e.ip == r.ip,
        e.detail == r.detail,
{
    let kind = parse_kind(r.kind.as_str());
    let player_id = match &r.player_id {
        Some(p) => parse_player_id_text(p.as_str()),
        None => None,
    };
    AuditEvent { id: r.id, ts: r.ts, kind, player_id, ip: r.ip, detail: r.detail }
}

/// A `COUNT(*)` result as an event count: negative counts read as zero.
pub fn event_count(raw: i64) -> (n: u64)
    ensures
        n == (if raw < 0 {
            0
        } else {
            raw
        }),
{
    if raw < 0 {
        0
    } else {
        raw as u64
    }
}

} // verus!
