//! Resolving what a command names: ULID texts, civilizations by name, and
//! whether a seat is played by a human.

use ulid::Ulid;
use vstd::prelude::*;
use vstd::string::StringSliceAdditionalSpecFns;

use crate::text::{chars_of, extend_str, string_of};

verus! {

/// The value of a Crockford base32 digit byte (either case; `I`, `L`, `O`
/// and `U` are not digits).
pub open spec fn crockford_digit(c: u8) -> Option<int> {
    let u = if 0x61 <= c && c <= 0x7a {
        c - 32
    } else {
        c as int
    };
    if 0x30 <= c && c <= 0x39 {
        Some(c - 0x30)
    } else if 0x41 <= u && u <= 0x48 {
        Some(u - 0x41 + 10)
    } else if u == 0x4a || u == 0x4b {
        Some(u - 0x4a + 18)
    } else if u == 0x4d || u == 0x4e {
        Some(u - 0x4d + 20)
    } else if 0x50 <= u && u <= 0x54 {
        Some(u - 0x50 + 22)
    } else if 0x56 <= u && u <= 0x5a {
        Some(u - 0x56 + 27)
    } else {
        None
    }
}

/// The number the digits spell in base 32.
pub open spec fn crockford_number(b: Seq<u8>) -> int
    decreases b.len(),
{
    if b.len() == 0 {
        0
    } else {
        crockford_number(b.drop_last()) * 32 + match crockford_digit(b.last()) {
            Some(v) => v,
            None => 0,
        }
    }
}

/// What `Ulid::from_string` makes of a text's bytes: 26 base32 digits give
/// their number modulo 2^128; otherwise the error's text.
pub open spec fn ulid_decoded(b: Seq<u8>) -> Result<u128, Seq<char>> {
    if b.len() != 26 {
        Err("invalid length"@)
    } else if exists|i: int| 0 <= i < 26 && crockford_digit(#[trigger] b[i]) is None {
        Err("invalid character"@)
    } else {
        Ok((crockford_number(b) % (u128::MAX as int + 1)) as u128)
    }
}

/// `Ulid::from_string`: the ULID's 128 bits, or the decode error's text.
#[verifier::external_body]
fn ulid_from_text(text: &str) -> (r: Result<u128, String>)
    ensures
        match ulid_decoded(text.spec_bytes()) {
            Ok(v) => r == Ok::<u128, String>(v),
            Err(m) => r matches Err(e) && e@ == m,
        },
{
    match Ulid::from_string(text) {
        Ok(u) => Ok(u.0),
        Err(e) => Err(e.to_string()),
    }
}

/// The position of the first `c` in `s`.
#[verifier::opaque]
pub open spec fn first_index(s: Seq<char>, c: char) -> Option<int> {
    if exists|i: int| 0 <= i < s.len() && s[i] == c {
        Some(choose|i: int| 0 <= i < s.len() && s[i] == c && forall|j: int| 0 <= j < i ==> s[j] != c)
    } else {
        None
    }
}

/// The ULID text inside `TypeName(ULID)`, or the whole text: from after the
/// first `(` to the first `)` (or the end).
pub open spec fn ulid_part(s: Seq<char>) -> Seq<char> {
    match first_index(s, '(') {
        Some(start) => match first_index(s, ')') {
            Some(end) => s.subrange(start + 1, end),
            None => s.subrange(start + 1, s.len() as int),
        },
        None => s,
    }
}

/// A `(` is not preceded by the first `)` (cutting the text would fail).
pub open spec fn parens_ordered(s: Seq<char>) -> bool {
    match (first_index(s, '('), first_index(s, ')')) {
        (Some(start), Some(end)) => start < end,
        _ => true,
    }
}

fn first_pos(v: &Vec<char>, c: char) -> (r: Option<usize>)
    ensures
        match r {
            Some(i) => first_index(v@, c) == Some(i as int) && i < v@.len() && v@[i as int] == c,
            None => first_index(v@, c) is None,
        },
{
    proof {
        reveal(first_index);
    }
    let mut i: usize = 0;
    while i < v.len()
        invariant
            i <= v@.len(),
            forall|j: int| 0 <= j < i ==> v@[j] != c,
        decreases v.len() - i,
    {
        if v[i] == c {
            proof {
                reveal(first_index);
                let k = choose|k: int| 0 <= k < v@.len() && v@[k] == c && forall|j: int| 0 <= j < k ==> v@[j] != c;
                if k < i {
                    assert(v@[k] != c);
                } else if k > i {
                    assert(v@[i as int] != c);
                }
            }
            return Some(i);
        }
        i += 1;
    }
    None
}

/// The ULID text of `s`, raw or inside `TypeName(...)`.
fn ulid_text(v: &Vec<char>) -> (r: Vec<char>)
    requires
        parens_ordered(v@),
    ensures
        r@ == ulid_part(v@),
{
    match first_pos(v, '(') {
        Some(start) => {
            let close = first_pos(v, ')');
            let end = match close {
                Some(e) => e,
                None => v.len(),
            };
            assert(start < v.len());
            assert(start < end) by {
                match close {
                    Some(e) => {
                        assert(first_index(v@, ')') == Some(e as int));
                        assert(first_index(v@, '(') == Some(start as int));
                    },
                    None => {},
                }
            }
            let mut r: Vec<char> = Vec::new();
            let mut k = start + 1;
            while k < end
                invariant
                    start + 1 <= k <= end <= v@.len(),
                    r@ == v@.subrange(start + 1, k as int),
                decreases end - k,
            {
                r.push(v[k]);
                assert(v@.subrange(start + 1, k + 1) =~= r@);
                k += 1;
            }
            r
        },
        None => v.clone(),
    }
}

/// Parses a ULID given raw (26 Crockford base32 characters) or in the
/// `TypeName(ULID)` display form; gives its 128 bits.
pub fn parse_ulid(s: &str) -> (r: Result<u128, String>)
    requires
        parens_ordered(s@),
    ensures
        match ulid_decoded(vstd::utf8::encode_utf8(ulid_part(s@))) {
            Ok(v) => r == Ok::<u128, String>(v),
            Err(m) => r matches Err(e) && e@ == "invalid ULID '"@ + s@ + "': "@ + m,
        },
{
    let v = chars_of(s);
    let raw_text = string_of(&ulid_text(&v));
    match ulid_from_text(raw_text.as_str()) {
        Ok(bits) => Ok(bits),
        Err(e) => {
            let mut m = chars_of("invalid ULID '");
            extend_str(&mut m, s);
            extend_str(&mut m, "': ");
            extend_str(&mut m, e.as_str());
            Err(string_of(&m))
        },
    }
}

/// A seat of the game: the civilization's name, and whether the AI plays it.
#[derive(Debug, Clone)]
pub struct PlayerSlot {
    pub civ_name: String,
    pub is_ai: bool,
}

/// Whether `player` may act: a human seat is fine, an AI seat or an unknown
/// name is refused with its message; a game without seats lets anyone act.
pub fn validate_human(slots: &Vec<PlayerSlot>, player: &str) -> (r: Result<(), String>)
    ensures
        slots@.len() == 0 ==> r is Ok,
        match first_seat(slots@, player@) {
            Some(i) => if slots@[i].is_ai {
                r matches Err(m) && m@ == "'"@ + player@ + "' is an AI player"@
            } else {
                r is Ok
            },
            None => slots@.len() > 0 ==> (r matches Err(m) && m@ == "'"@ + player@
                + "' is not a registered player"@),
        },
{
    let mut i: usize = 0;
    while i < slots.len()
        invariant
            i <= slots@.len(),
            forall|j: int| 0 <= j < i ==> slots@[j].civ_name@ != player@,
        decreases slots.len() - i,
    {
        if crate::text::is_word(&chars_of(slots[i].civ_name.as_str()), player) {
            proof {
                lemma_first_seat(slots@, player@, i as int);
            }
            if slots[i].is_ai {
                let mut m = chars_of("'");
                extend_str(&mut m, player);
                extend_str(&mut m, "' is an AI player");
                return Err(string_of(&m));
            }
            return Ok(());
        }
        i += 1;
    }
    if slots.len() == 0 {
        return Ok(());
    }
    let mut m = chars_of("'");
    extend_str(&mut m, player);
    extend_str(&mut m, "' is not a registered player");
    Err(string_of(&m))
}

/// The first seat whose civilization is named `name`.
pub open spec fn first_seat(slots: Seq<PlayerSlot>, name: Seq<char>) -> Option<int> {
    if exists|i: int| 0 <= i < slots.len() && slots[i].civ_name@ == name {
        Some(
            choose|i: int|
                0 <= i < slots.len() && slots[i].civ_name@ == name && forall|j: int|
                    0 <= j < i ==> slots[j].civ_name@ != name,
        )
    } else {
        None
    }
}

proof fn lemma_first_seat(slots: Seq<PlayerSlot>, name: Seq<char>, i: int)
    requires
        0 <= i < slots.len(),
        slots[i].civ_name@ == name,
        forall|j: int| 0 <= j < i ==> slots[j].civ_name@ != name,
    ensures
        first_seat(slots, name) == Some(i),
{
    let k = choose|k: int|
        0 <= k < slots.len() && slots[k].civ_name@ == name && forall|j: int| 0 <= j < k ==> slots[j].civ_name@ != name;
    if k < i {
        assert(slots[k].civ_name@ != name);
    } else if k > i {
        assert(slots[i].civ_name@ != name);
    }
}

/// The id of the first civilization named `name` among `(name, id)` pairs,
/// or the message naming the missing civilization.
pub fn find_civ_by_name(civs: &Vec<(String, u128)>, name: &str) -> (r: Result<u128, String>)
    ensures
        match r {
            Ok(id) => exists|i: int|
                0 <= i < civs@.len() && civs@[i].0@ == name@ && civs@[i].1 == id && forall|j: int|
                    0 <= j < i ==> civs@[j].0@ != name@,
            Err(m) => m@ == "no civilization named '"@ + name@ + "'"@ && forall|j: int|
                0 <= j < civs@.len() ==> civs@[j].0@ != name@,
        },
{
    let mut i: usize = 0;
    while i < civs.len()
        invariant
            i <= civs@.len(),
            forall|j: int| 0 <= j < i ==> civs@[j].0@ != name@,
        decreases civs.len() - i,
    {
        if crate::text::is_word(&chars_of(civs[i].0.as_str()), name) {
            return Ok(civs[i].1);
        }
        i += 1;
    }
    let mut m = chars_of("no civilization named '");
    extend_str(&mut m, name);
    extend_str(&mut m, "'");
    Err(string_of(&m))
}

} // verus!
