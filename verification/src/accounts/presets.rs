//! User-saved wizard presets: a name and an opaque JSON body.

use vstd::prelude::*;
use vstd::utf8::encode_utf8;

use crate::text::{chars_of, string_of, trim, trim_chars};

verus! {

/// One saved preset.
#[derive(Debug, Clone)]
pub struct PresetRow {
    pub id: String,
    pub name: String,
    pub body_json: String,
    pub created_at: String,
    pub updated_at: String,
}

/// Why a presets call failed.
#[derive(Debug)]
pub enum PresetsError {
    Sqlx(sqlx::Error),
    NotFound,
    Invalid(&'static str),
}

/// Whether `s` parses as a JSON document (`serde_json`'s grammar).
pub uninterp spec fn spec_is_valid_json(s: Seq<char>) -> bool;

/// `serde_json::from_str::<serde_json::Value>` succeeds on `s`: whether it
/// does depends on the characters of `s` alone; the JSON grammar is not
/// restated here.
#[verifier::external_body]
fn is_valid_json(s: &str) -> (b: bool)
    ensures
        b == spec_is_valid_json(s@),
{
    serde_json::from_str::<serde_json::Value>(s).is_ok()
}

/// What saving a preset named `name` with body `body` is answered: the
/// trimmed name, or the message of the first rule it breaks.
pub open spec fn preset_check(name: Seq<char>, body: Seq<char>) -> Result<Seq<char>, Seq<char>> {
    let t = trim(name);
    if t.len() == 0 {
        Err("name is required"@)
    } else if encode_utf8(t).len() > 64 {
        Err("name capped at 64 chars"@)
    } else if encode_utf8(body).len() > 32 * 1024 {
        Err("body capped at 32 KiB"@)
    } else if !spec_is_valid_json(body) {
        Err("body must be valid JSON"@)
    } else {
        Ok(t)
    }
}

/// Check a preset before it is stored: the name is trimmed and must be
/// non-empty and at most 64 bytes; the body at most 32 KiB of valid JSON.
pub fn validate_preset(name: &str, body_json: &str) -> (r: Result<String, PresetsError>)
    ensures
        match preset_check(name@, body_json@) {
            Ok(t) => r matches Ok(s) && s@ == t,
            Err(msg) => r matches Err(PresetsError::Invalid(m)) && m@ == msg,
        },
{
    let t = string_of(&trim_chars(&chars_of(name)));
    if t.as_str().is_empty() {
        return Err(PresetsError::Invalid("name is required"));
    }
    if t.as_str().as_bytes().len() > 64 {
        return Err(PresetsError::Invalid("name capped at 64 chars"));
    }
    if body_json.as_bytes().len() > 32 * 1024 {
        return Err(PresetsError::Invalid("body capped at 32 KiB"));
    }
    if !is_valid_json(body_json) {
        return Err(PresetsError::Invalid("body must be valid JSON"));
    }
    Ok(t)
}

/// Deleting a preset succeeds when a row of that player went; `NotFound`
/// when none did.
pub fn delete_outcome(rows_affected: u64) -> (r: Result<(), PresetsError>)
    ensures
        rows_affected == 0 ==> r matches Err(PresetsError::NotFound),
        rows_affected != 0 ==> r is Ok,
{
    if rows_affected == 0 {
        return Err(PresetsError::NotFound);
    }
    Ok(())
}

} // verus!
