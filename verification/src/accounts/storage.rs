//! Outside error types carried through the library's results: the storage
//! backend's and the operating system's; and how a refused insert is told
//! from other database failures.

use vstd::prelude::*;

use crate::text::{chars_of, contains_chars, contains_text, is_word};

verus! {

/// `sqlx::Error`: every way a storage call can fail. Carried, never read.
#[verifier::external_type_specification]
#[verifier::external_body]
pub struct ExSqlxError(sqlx::Error);

/// `std::io::Error`: a failed read or write of the key file. Carried,
/// never read.
#[verifier::external_type_specification]
#[verifier::external_body]
pub struct ExIoError(std::io::Error);

/// A database failure with this code and message is a broken uniqueness
/// rule: SQLite's unique or primary-key constraint codes, or a message that
/// says `UNIQUE`.
pub open spec fn unique_violation(code: Option<Seq<char>>, message: Seq<char>) -> bool {
    code == Some("2067"@) || code == Some("1555"@) || contains_text(message, "UNIQUE"@)
}

/// Whether a database failure (its code, if it has one, and its message)
/// is a broken uniqueness rule.
pub fn is_unique_violation(code: Option<&str>, message: &str) -> (r: bool)
    ensures
        r == unique_violation(
            match code {
                Some(c) => Some(c@),
                None => None,
            },
            message@,
        ),
{
    let by_code = match code {
        Some(c) => {
            let v = chars_of(c);
            is_word(&v, "2067") || is_word(&v, "1555")
        },
        None => false,
    };
    by_code || contains_chars(&chars_of(message), &chars_of("UNIQUE"))
}

} // verus!
