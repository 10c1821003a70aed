//! What the command-line client reports: game-over details, diplomacy rows,
//! display casing of names, and the boxed headings of its screens.

use vstd::prelude::*;

use crate::text::{chars_of, extend_chars, extend_str, spec_to_uppercase, string_of, to_uppercase};

verus! {

/// Minimal game-over details of an action's JSON result.
#[derive(Debug, Clone)]
pub struct GameOverInfo {
    pub winner: String,
    pub condition: String,
    pub turn: u32,
}

/// One row of a player's diplomacy view: another civilization and where
/// relations stand.
#[derive(Debug, Clone)]
pub struct DiplomacyView {
    pub civ_name: String,
    pub status: String,
}

/// `s` with its first character upper-cased (by the Unicode mapping, which
/// may give several characters); empty text stays empty.
pub open spec fn capitalized(s: Seq<char>) -> Seq<char> {
    if s.len() == 0 {
        seq![]
    } else {
        spec_to_uppercase(seq![s[0]]) + s.skip(1)
    }
}

/// Upper-cases the first character of `s`.
pub fn capitalize(s: &str) -> (r: String)
    ensures
        r@ == capitalized(s@),
{
    let c = chars_of(s);
    if c.len() == 0 {
        return String::new();
    }
    let first = string_of(&vec![c[0]]);
    assert(first@ =~= seq![s@[0]]);
    let up = to_uppercase(first.as_str());
    let mut v = chars_of(up.as_str());
    let mut rest: Vec<char> = Vec::new();
    for i in 1..c.len()
        invariant
            c@ == s@,
            rest@ == c@.subrange(1, i as int),
    {
        rest.push(c[i]);
        assert(c@.subrange(1, i + 1) =~= rest@);
    }
    extend_chars(&mut v, &rest);
    assert(rest@ =~= s@.skip(1));
    string_of(&v)
}

/// `n` dashes.
pub open spec fn dashes(n: nat) -> Seq<char> {
    Seq::new(n, |_i: int| '-')
}

fn push_dashes(v: &mut Vec<char>, n: usize)
    ensures
        final(v)@ == old(v)@ + dashes(n as nat),
{
    for i in 0..n
        invariant
            v@ == old(v)@ + dashes(i as nat),
    {
        v.push('-');
        assert(old(v)@ + dashes((i + 1) as nat) =~= (old(v)@ + dashes(i as nat)).push('-'));
    }
}

/// The length of `s` in bytes, as `str::len` counts it.
pub open spec fn byte_len(s: &str) -> nat {
    vstd::utf8::encode_utf8(s@).len()
}

/// The three lines of a boxed title: a border of the title's byte length
/// plus four dashes, the title with two spaces on each side, the border
/// again.
pub open spec fn banner_text(title: &str) -> Seq<Seq<char>> {
    let border = "+"@ + dashes(byte_len(title) + 4) + "+"@;
    seq![border, "|  "@ + title@ + "  |"@, border]
}

/// The lines of a boxed screen title.
pub fn banner_lines(title: &str) -> (r: Vec<String>)
    requires
        byte_len(title) + 4 <= usize::MAX,
    ensures
        r@.len() == 3,
        forall|i: int| 0 <= i < 3 ==> #[trigger] r@[i]@ == banner_text(title)[i],
{
    let w = title.len() + 4;
    let mut border: Vec<char> = Vec::new();
    border.push('+');
    push_dashes(&mut border, w);
    border.push('+');
    assert(border@ =~= "+"@ + dashes(byte_len(title) + 4) + "+"@) by {
        reveal_strlit("+");
    }
    let mut mid: Vec<char> = Vec::new();
    extend_str(&mut mid, "|  ");
    extend_str(&mut mid, title);
    extend_str(&mut mid, "  |");
    assert(mid@ =~= "|  "@ + title@ + "  |"@);
    let top = string_of(&border);
    let bottom = string_of(&border);
    let mut r: Vec<String> = Vec::new();
    r.push(top);
    r.push(string_of(&mid));
    r.push(bottom);
    r
}

/// A section heading: `  +-- <title> ` and a rule that fills the line to
/// forty bytes of title, never shorter than four dashes.
pub open spec fn heading_text(title: &str) -> Seq<char> {
    let fill: int = if byte_len(title) >= 36 { 4 } else { 40 - byte_len(title) };
    "  +-- "@ + title@ + " "@ + dashes(fill as nat)
}

/// The text of a section heading.
pub fn hline_text(title: &str) -> (r: String)
    requires
        byte_len(title) <= usize::MAX,
    ensures
        r@ == heading_text(title),
{
    let n = title.len();
    let fill: usize = if n >= 36 { 4 } else { 40 - n };
    let mut v: Vec<char> = Vec::new();
    extend_str(&mut v, "  +-- ");
    extend_str(&mut v, title);
    extend_str(&mut v, " ");
    push_dashes(&mut v, fill);
    assert(v@ =~= heading_text(title));
    string_of(&v)
}

} // verus!
