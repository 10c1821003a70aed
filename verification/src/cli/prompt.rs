//! The REPL prompt: a format string with `{placeholder}` tokens.
//!
//! | Placeholder | Expands to |
//! |-------------|------------|
//! | `{turn}`    | Current turn number |
//! | `{civ}`     | Civilization name |
//! | `{gold}`    | Current gold |
//! | `{score}`   | Current score |
//! | `{city}`    | Selected city name (or empty) |
//! | `{unit}`    | Selected unit short id and type (or empty) |
//! | `{district}`| Selected district name (or empty) |
//!
//! The placeholders are expanded in that order, then runs of spaces left by
//! empty placeholders collapse into one.

use vstd::prelude::*;

use crate::text::{chars_of, extend_chars, extend_str, string_of};

verus! {

/// The default prompt format.
pub const DEFAULT_PROMPT: &'static str = "T{turn} {city} {unit}> ";

/// The REPL prompt's configuration.
#[derive(Debug, Clone)]
pub struct PromptConfig {
    pub format: String,
}

impl Default for PromptConfig {
    fn default() -> (c: Self)
        ensures
            c.format@ == DEFAULT_PROMPT@,
    {
        PromptConfig { format: DEFAULT_PROMPT.to_owned() }
    }
}

/// The text each placeholder expands to.
#[derive(Debug, Clone)]
pub struct PromptFields {
    pub turn: String,
    pub civ: String,
    pub gold: String,
    pub score: String,
    pub city: String,
    pub unit: String,
    pub district: String,
}

/// `s` with every occurrence of `pat` replaced by `w`, scanning from the
/// left without overlaps (`str::replace` for a non-empty pattern).
pub open spec fn replace_all(s: Seq<char>, pat: Seq<char>, w: Seq<char>) -> Seq<char>
    decreases s.len(),
{
    if pat.len() == 0 || s.len() < pat.len() {
        s
    } else if s.take(pat.len() as int) == pat {
        w + replace_all(s.skip(pat.len() as int), pat, w)
    } else {
        seq![s[0]] + replace_all(s.skip(1), pat, w)
    }
}

/// `s` with every space that follows a space removed.
pub open spec fn collapse_spaces(s: Seq<char>) -> Seq<char>
    decreases s.len(),
{
    if s.len() == 0 {
        seq![]
    } else if s.last() == ' ' && s.len() >= 2 && s[s.len() - 2] == ' ' {
        collapse_spaces(s.drop_last())
    } else {
        collapse_spaces(s.drop_last()).push(s.last())
    }
}

/// The prompt a format gives with the placeholder texts of `f`.
pub open spec fn prompt_text(format: Seq<char>, f: PromptFields) -> Seq<char> {
    let s1 = replace_all(format, "{turn}"@, f.turn@);
    let s2 = replace_all(s1, "{civ}"@, f.civ@);
    let s3 = replace_all(s2, "{gold}"@, f.gold@);
    let s4 = replace_all(s3, "{score}"@, f.score@);
    let s5 = replace_all(s4, "{city}"@, f.city@);
    let s6 = replace_all(s5, "{unit}"@, f.unit@);
    let s7 = replace_all(s6, "{district}"@, f.district@);
    collapse_spaces(s7)
}

/// Whether `pat` occurs in `s` at `i`.
fn occurs_at(s: &Vec<char>, i: usize, pat: &Vec<char>) -> (b: bool)
    requires
        i + pat@.len() <= s@.len(),
    ensures
        b == (s@.subrange(i as int, i + pat@.len()) == pat@),
{
    let mut k: usize = 0;
    while k < pat.len()
        invariant
            i + pat@.len() <= s@.len(),
            k <= pat@.len(),
            forall|j: int| 0 <= j < k ==> s@[i + j] == pat@[j],
        decreases pat.len() - k,
    {
        assert(i + k < s.len());
        if s[i + k] != pat[k] {
            assert(s@.subrange(i as int, i + pat@.len())[k as int] != pat@[k as int]);
            return false;
        }
        k += 1;
    }
    assert(s@.subrange(i as int, i + pat@.len()) =~= pat@);
    true
}

/// Replaces every occurrence of the non-empty `pat` in `s` by `w`.
pub fn replace_chars(s: &Vec<char>, pat: &str, w: &str) -> (r: Vec<char>)
    requires
        pat@.len() > 0,
    ensures
        r@ == replace_all(s@, pat@, w@),
{
    let p = chars_of(pat);
    let wv = chars_of(w);
    let mut out: Vec<char> = Vec::new();
    let mut i: usize = 0;
    assert(s@.skip(0) =~= s@);
    while i < s.len()
        invariant
            p@ == pat@,
            wv@ == w@,
            p@.len() > 0,
            i <= s@.len(),
            out@ + replace_all(s@.skip(i as int), pat@, w@) == replace_all(s@, pat@, w@),
        decreases s.len() - i,
    {
        let ghost rest = s@.skip(i as int);
        if s.len() - i >= p.len() && occurs_at(s, i, &p) {
            assert(rest.take(p@.len() as int) =~= s@.subrange(i as int, i + p@.len()));
            assert(rest.skip(p@.len() as int) =~= s@.skip(i + p@.len()));
            assert(out@ + (w@ + replace_all(rest.skip(p@.len() as int), pat@, w@)) =~= out@ + w@
                + replace_all(rest.skip(p@.len() as int), pat@, w@));
            extend_chars(&mut out, &wv);
            i = i + p.len();
        } else {
            proof {
                if rest.len() >= p@.len() {
                    assert(rest.take(p@.len() as int) =~= s@.subrange(i as int, i + p@.len()));
                }
            }
            assert(rest.skip(1) =~= s@.skip(i + 1));
            if s.len() - i < p.len() {
                assert(out@ + rest =~= out@.push(s@[i as int]) + rest.skip(1));
                assert(replace_all(rest.skip(1), pat@, w@) == rest.skip(1));
            } else {
                assert(out@ + (seq![s@[i as int]] + replace_all(rest.skip(1), pat@, w@)) =~= out@.push(
                    s@[i as int],
                ) + replace_all(rest.skip(1), pat@, w@));
            }
            out.push(s[i]);
            i += 1;
        }
    }
    assert(s@.skip(i as int) =~= Seq::<char>::empty());
    assert(out@ + Seq::<char>::empty() =~= out@);
    out
}

/// Drops every space that follows a space.
pub fn collapse_space_runs(s: &Vec<char>) -> (r: Vec<char>)
    ensures
        r@ == collapse_spaces(s@),
{
    let mut out: Vec<char> = Vec::new();
    let mut prev_space = false;
    for i in 0..s.len()
        invariant
            out@ == collapse_spaces(s@.take(i as int)),
            prev_space == (i > 0 && s@[i - 1] == ' '),
    {
        let c = s[i];
        assert(s@.take(i + 1).drop_last() =~= s@.take(i as int));
        if c == ' ' {
            if !prev_space {
                out.push(c);
            }
            prev_space = true;
        } else {
            out.push(c);
            prev_space = false;
        }
    }
    assert(s@.take(s.len() as int) =~= s@);
    out
}

/// Renders the prompt: expands the placeholders in order, then collapses
/// runs of spaces.
pub fn render_prompt_text(config: &PromptConfig, fields: &PromptFields) -> (r: String)
    ensures
        r@ == prompt_text(config.format@, *fields),
{
    let s0 = chars_of(config.format.as_str());
    proof {
        reveal_strlit("{turn}");
        reveal_strlit("{civ}");
        reveal_strlit("{gold}");
        reveal_strlit("{score}");
        reveal_strlit("{city}");
        reveal_strlit("{unit}");
        reveal_strlit("{district}");
    }
    let s1 = replace_chars(&s0, "{turn}", fields.turn.as_str());
    let s2 = replace_chars(&s1, "{civ}", fields.civ.as_str());
    let s3 = replace_chars(&s2, "{gold}", fields.gold.as_str());
    let s4 = replace_chars(&s3, "{score}", fields.score.as_str());
    let s5 = replace_chars(&s4, "{city}", fields.city.as_str());
    let s6 = replace_chars(&s5, "{unit}", fields.unit.as_str());
    let s7 = replace_chars(&s6, "{district}", fields.district.as_str());
    string_of(&collapse_space_runs(&s7))
}

/// The `{unit}` text of a selected unit: `[short type]`.
pub fn unit_label(short: &str, kind_name: &str) -> (r: String)
    ensures
        r@ == seq!['['] + short@ + seq![' '] + kind_name@ + seq![']'],
{
    let mut v: Vec<char> = Vec::new();
    v.push('[');
    extend_str(&mut v, short);
    v.push(' ');
    extend_str(&mut v, kind_name);
    v.push(']');
    string_of(&v)
}

} // verus!
