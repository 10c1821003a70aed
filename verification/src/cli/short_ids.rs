//! Compact, unique id display for REPL entities.
//!
//! Given entity ids with the text of their ULIDs, each entity gets the
//! shortest trailing piece of its ULID text (at least three bytes) that no
//! other entity's text ends with; that piece is highlighted on display.
//! Texts are compared byte by byte, as `str::ends_with` does; a suffix
//! search matches the whole ULID text, leading zeros included.

use std::collections::HashMap;

use vstd::prelude::*;
use vstd::string::StringSliceAdditionalSpecFns;
use vstd::utf8::{
    decode_utf8, decode_utf8_encode_utf8, encode_utf8, encode_utf8_decode_utf8, encode_utf8_valid_utf8,
    is_char_boundary, is_char_boundary_iff_not_is_continuation_byte, is_char_boundary_start_end_of_seq,
    is_ascii_chars, is_ascii_chars_encode_utf8, is_continuation_byte, valid_utf8, valid_utf8_split,
};

use crate::accounts::crypto::utf8_text;
use crate::text::{ascii_lowercased, ascii_uppercased, spec_to_uppercase, string_of, to_uppercase};

verus! {

/// The shortest unique piece considered, in bytes.
pub const MIN_SUFFIX_LEN: usize = 3;

/// One entity's display: its ULID text without leading zeros, the byte
/// offset where its unique piece starts, and the whole ULID text that
/// suffix searches match against.
struct ShortIdEntry {
    display: String,
    unique_start: usize,
    full: String,
}

/// Display strings of a set of entities, keyed by id.
pub struct ShortIds {
    entries: HashMap<u128, ShortIdEntry>,
}

// ───────────────────────────── Specification ─────────────────────────────────

/// `b` without its leading `0` bytes.
pub open spec fn trim_zeros(b: Seq<u8>) -> Seq<u8>
    decreases b.len(),
{
    if b.len() > 0 && b[0] == 0x30 {
        trim_zeros(b.skip(1))
    } else {
        b
    }
}

/// The display text of a ULID text: without leading zeros, `0` when
/// nothing is left.
pub open spec fn display_bytes(full: Seq<u8>) -> Seq<u8> {
    if trim_zeros(full).len() == 0 {
        seq![0x30u8]
    } else {
        trim_zeros(full)
    }
}

/// `s` ends with `suf`.
pub open spec fn ends_with_bytes(s: Seq<u8>, suf: Seq<u8>) -> bool {
    suf.len() <= s.len() && s.skip(s.len() - suf.len()) == suf
}

/// How many of the texts end with `suf` (an entity counts itself).
pub open spec fn count_ending(items: Seq<(u128, Seq<u8>)>, suf: Seq<u8>) -> nat
    decreases items.len(),
{
    if items.len() == 0 {
        0
    } else {
        count_ending(items.drop_last(), suf) + (if ends_with_bytes(items.last().1, suf) {
            1nat
        } else {
            0
        })
    }
}

/// The first length from `k` on whose trailing piece of `full` only one
/// text ends with, or the whole length of `full` when there is none.
pub open spec fn suffix_len_from(items: Seq<(u128, Seq<u8>)>, full: Seq<u8>, k: nat) -> nat
    decreases full.len() - k,
{
    if k >= full.len() {
        k
    } else if count_ending(items, full.skip(full.len() - k)) == 1 {
        k
    } else {
        suffix_len_from(items, full, k + 1)
    }
}

/// The shortest length considered for `full`: three bytes, or all of it.
pub open spec fn start_len(full: Seq<u8>) -> nat {
    if full.len() < 3 {
        full.len()
    } else {
        3
    }
}

/// The length of `full`'s unique trailing piece among `items`.
pub open spec fn unique_suffix_len(items: Seq<(u128, Seq<u8>)>, full: Seq<u8>) -> nat {
    suffix_len_from(items, full, start_len(full))
}

/// The display entry of `full` among `items`: display text, the offset
/// where its unique piece starts, and the text itself.
pub open spec fn short_entry(items: Seq<(u128, Seq<u8>)>, full: Seq<u8>) -> (Seq<u8>, nat, Seq<u8>) {
    let d = display_bytes(full);
    let k = unique_suffix_len(items, full);
    (d, if d.len() >= k {
        (d.len() - k) as nat
    } else {
        0
    }, full)
}

/// The entries of the first `n` items; a later item with the same id
/// replaces an earlier one.
pub open spec fn entries_upto(items: Seq<(u128, Seq<u8>)>, n: int) -> Map<u128, (Seq<u8>, nat, Seq<u8>)>
    decreases n,
{
    if n <= 0 {
        Map::empty()
    } else {
        entries_upto(items, n - 1).insert(items[n - 1].0, short_entry(items, items[n - 1].1))
    }
}

/// The entries of all items.
pub open spec fn short_entries(items: Seq<(u128, Seq<u8>)>) -> Map<u128, (Seq<u8>, nat, Seq<u8>)> {
    entries_upto(items, items.len() as int)
}

/// The text a suffix query is matched as: its ASCII uppercase when it is
/// ASCII, otherwise its Unicode uppercase.
pub open spec fn upper_query(s: Seq<char>) -> Seq<char> {
    if is_ascii_chars(s) {
        ascii_uppercased(s)
    } else {
        spec_to_uppercase(s)
    }
}

/// The ids with their texts as bytes.
pub open spec fn items_of(ids: Seq<(u128, String)>) -> Seq<(u128, Seq<u8>)> {
    ids.map_values(|p: (u128, String)| (p.0, encode_utf8(p.1@)))
}

/// Every cut the construction makes falls on a character boundary: each
/// trailing piece it compares, for each text.
pub open spec fn pieces_cuttable(items: Seq<(u128, Seq<u8>)>) -> bool {
    forall|i: int, k: nat|
        0 <= i < items.len() && start_len(items[i].1) <= k <= unique_suffix_len(items, items[i].1) && k
            < items[i].1.len() ==> #[trigger] is_char_boundary(items[i].1, items[i].1.len() - k)
}

/// The part of a display before the unique piece, highlighted piece
/// (bold), and the reset code.
pub open spec fn bold_text(d: Seq<u8>, start: nat) -> Seq<char> {
    decode_utf8(d.take(start as int)) + "\x1b[1m"@ + decode_utf8(d.skip(start as int)) + "\x1b[0m"@
}

spec fn entry_view(e: ShortIdEntry) -> (Seq<u8>, nat, Seq<u8>) {
    (encode_utf8(e.display@), e.unique_start as nat, encode_utf8(e.full@))
}

/// The unique piece starts on a character boundary of the display.
spec fn entry_ok(e: ShortIdEntry) -> bool {
    let (d, s, _) = entry_view(e);
    s <= d.len() && is_char_boundary(d, s as int)
}

impl ShortIds {
    #[verifier::type_invariant]
    spec fn wf(self) -> bool {
        forall|k: u128| #[trigger] self.entries@.contains_key(k) ==> entry_ok(self.entries@[k])
    }
}

impl View for ShortIds {
    type V = Map<u128, (Seq<u8>, nat, Seq<u8>)>;

    closed spec fn view(&self) -> Map<u128, (Seq<u8>, nat, Seq<u8>)> {
        Map::new(|k: u128| self.entries@.contains_key(k), |k: u128| entry_view(self.entries@[k]))
    }
}

// ───────────────────────────── Byte lemmas ───────────────────────────────────

proof fn lemma_trim_zeros(b: Seq<u8>) -> (z: int)
    ensures
        0 <= z <= b.len(),
        trim_zeros(b) == b.skip(z),
        forall|j: int| 0 <= j < z ==> b[j] == 0x30,
        z < b.len() ==> b[z] != 0x30,
    decreases b.len(),
{
    if b.len() > 0 && b[0] == 0x30 {
        let z1 = lemma_trim_zeros(b.skip(1));
        assert(b.skip(1).skip(z1) =~= b.skip(z1 + 1));
        assert forall|j: int| 0 <= j < z1 + 1 implies b[j] == 0x30 by {
            if j > 0 {
                assert(b[j] == b.skip(1)[j - 1]);
            }
        }
        if z1 + 1 < b.len() {
            assert(b[z1 + 1] == b.skip(1)[z1]);
        }
        z1 + 1
    } else {
        assert(b.skip(0) =~= b);
        0
    }
}

proof fn lemma_zero_prefix_boundary(b: Seq<u8>, z: int)
    requires
        valid_utf8(b),
        0 <= z <= b.len(),
        forall|j: int| 0 <= j < z ==> b[j] == 0x30,
    ensures
        is_char_boundary(b, z),
        valid_utf8(b.skip(z)),
    decreases z,
{
    is_char_boundary_start_end_of_seq(b);
    if z > 0 {
        if z < b.len() {
            is_char_boundary_iff_not_is_continuation_byte(b, z - 1);
            lemma_zero_prefix_boundary(b, z - 1);
            is_char_boundary_iff_not_is_continuation_byte(b, z);
            assert(!is_continuation_byte(b[z])) by {
                valid_utf8_split(b, z - 1);
                assert(b.skip(z - 1)[0] == 0x30);
                is_char_boundary_iff_not_is_continuation_byte(b.skip(z - 1), 1);
                reveal_with_fuel(is_char_boundary, 3);
                reveal_with_fuel(valid_utf8, 2);
                assert(b.skip(z - 1)[1] == b[z]);
            }
        }
    }
    valid_utf8_split(b, z);
    assert(b.subrange(z, b.len() as int) =~= b.skip(z));
}

proof fn lemma_boundary_shift(b: Seq<u8>, z: int, p: int)
    requires
        valid_utf8(b),
        0 <= z <= p <= b.len(),
        is_char_boundary(b, z),
        is_char_boundary(b, p),
    ensures
        valid_utf8(b.skip(z)),
        is_char_boundary(b.skip(z), p - z),
{
    valid_utf8_split(b, z);
    assert(b.subrange(z, b.len() as int) =~= b.skip(z));
    let t = b.skip(z);
    is_char_boundary_start_end_of_seq(t);
    if p < b.len() {
        is_char_boundary_iff_not_is_continuation_byte(b, p);
        is_char_boundary_iff_not_is_continuation_byte(t, p - z);
        assert(t[p - z] == b[p]);
    }
}

/// With two entries whose texts end with `u`, none is the only one.
proof fn lemma_two_matches(m: Map<u128, (Seq<u8>, nat, Seq<u8>)>, a: u128, b: u128, u: Seq<u8>)
    requires
        a != b,
        m.dom().contains(a),
        m.dom().contains(b),
        ends_with_bytes(m[a].2, u),
        ends_with_bytes(m[b].2, u),
    ensures
        forall|id: u128|
            #![trigger m.dom().contains(id)]
            m.dom().contains(id) && ends_with_bytes(m[id].2, u) ==> exists|o: u128|
                o != id && m.dom().contains(o) && ends_with_bytes(m[o].2, u),
{
    assert forall|id: u128|
        #![trigger m.dom().contains(id)]
        m.dom().contains(id) && ends_with_bytes(m[id].2, u) implies exists|o: u128|
        o != id && m.dom().contains(o) && ends_with_bytes(m[o].2, u) by {
        if id == a {
            assert(b != id && m.dom().contains(b) && ends_with_bytes(m[b].2, u));
        } else {
            assert(a != id && m.dom().contains(a) && ends_with_bytes(m[a].2, u));
        }
    }
}

impl ShortIds {
    /// Two entries of the map's entry sequence whose texts end with `u`
    /// make every match ambiguous.
    proof fn lemma_two_texts(&self, v: Seq<(&u128, &ShortIdEntry)>, a: int, b: int, u: Seq<u8>)
        requires
            v.no_duplicates(),
            0 <= a < v.len(),
            0 <= b < v.len(),
            a != b,
            forall|i: int|
                #![trigger v[i]]
                0 <= i < v.len() ==> self.entries@.contains_key(*v[i].0) && self.entries@[*v[i].0] == *v[i].1,
            text_ends(*v[a].1, u),
            text_ends(*v[b].1, u),
        ensures
            forall|id: u128|
                #![trigger self@.dom().contains(id)]
                self@.dom().contains(id) && ends_with_bytes(self@[id].2, u) ==> exists|o: u128|
                    o != id && self@.dom().contains(o) && ends_with_bytes(self@[o].2, u),
    {
        lemma_distinct_keys(v, self.entries@, a, b);
        let m = self@;
        assert(m.dom().contains(*v[a].0) && m[*v[a].0] == entry_view(*v[a].1));
        assert(m.dom().contains(*v[b].0) && m[*v[b].0] == entry_view(*v[b].1));
        lemma_two_matches(m, *v[a].0, *v[b].0, u);
    }
}

/// The entry's ULID text ends with `u`.
spec fn text_ends(e: ShortIdEntry, u: Seq<u8>) -> bool {
    ends_with_bytes(encode_utf8(e.full@), u)
}

/// Two places of a map's entry sequence without repeats hold two keys.
proof fn lemma_distinct_keys(v: Seq<(&u128, &ShortIdEntry)>, m: Map<u128, ShortIdEntry>, a: int, b: int)
    requires
        v.no_duplicates(),
        0 <= a < v.len(),
        0 <= b < v.len(),
        a != b,
        forall|i: int| #![trigger v[i]] 0 <= i < v.len() ==> m.contains_key(*v[i].0) && m[*v[i].0] == *v[i].1,
    ensures
        *v[a].0 != *v[b].0,
{
    if *v[a].0 == *v[b].0 {
        assert(v[a] == v[b]);
    }
}

// ───────────────────────────── Construction ──────────────────────────────────

/// Whether `s` ends with the trailing `k` bytes of `full`.
fn ends_with_tail(s: &[u8], full: &[u8], k: usize) -> (r: bool)
    requires
        k <= full@.len(),
    ensures
        r == ends_with_bytes(s@, full@.skip(full@.len() - k)),
{
    if k > s.len() {
        return false;
    }
    let off_s = s.len() - k;
    let off_f = full.len() - k;
    let ghost a = s@.skip(off_s as int);
    let ghost b = full@.skip(off_f as int);
    let mut j: usize = 0;
    while j < k
        invariant
            k <= s@.len(),
            k <= full@.len(),
            off_s == s@.len() - k,
            off_f == full@.len() - k,
            off_s + k == s.len(),
            off_f + k == full.len(),
            a == s@.skip(off_s as int),
            b == full@.skip(off_f as int),
            j <= k,
            forall|m: int| 0 <= m < j ==> a[m] == b[m],
        decreases k - j,
    {
        assert(a[j as int] == s@[off_s + j]);
        assert(b[j as int] == full@[off_f + j]);
        if s[off_s + j] != full[off_f + j] {
            return false;
        }
        j += 1;
    }
    assert(s@.skip(s@.len() - k) =~= full@.skip(full@.len() - k));
    true
}

/// How many of the texts end with the trailing `k` bytes of `full`.
fn count_tail(ids: &Vec<(u128, String)>, full: &[u8], k: usize) -> (n: usize)
    requires
        k <= full@.len(),
    ensures
        n == count_ending(items_of(ids@), full@.skip(full@.len() - k)),
{
    let ghost items = items_of(ids@);
    let mut n: usize = 0;
    for j in 0..ids.len()
        invariant
            items == items_of(ids@),
            k <= full@.len(),
            n == count_ending(items.take(j as int), full@.skip(full@.len() - k)),
            n <= j,
    {
        assert(items.take(j + 1).drop_last() =~= items.take(j as int));
        assert(items.take(j + 1).last() == items[j as int]);
        if ends_with_tail(ids[j].1.as_str().as_bytes(), full, k) {
            n = n + 1;
        }
    }
    assert(items.take(ids.len() as int) =~= items);
    n
}

proof fn lemma_suffix_len_bounds(items: Seq<(u128, Seq<u8>)>, full: Seq<u8>, k: nat)
    requires
        k <= full.len(),
    ensures
        k <= suffix_len_from(items, full, k) <= full.len(),
    decreases full.len() - k,
{
    if k < full.len() && count_ending(items, full.skip(full.len() - k)) != 1 {
        lemma_suffix_len_bounds(items, full, k + 1);
    }
}

/// The display entry of item `n`.
fn make_entry(ids: &Vec<(u128, String)>, n: usize) -> (e: ShortIdEntry)
    requires
        n < ids@.len(),
        pieces_cuttable(items_of(ids@)),
    ensures
        entry_view(e) == short_entry(items_of(ids@), items_of(ids@)[n as int].1),
        entry_ok(e),
{
    let ghost items = items_of(ids@);
    let full = ids[n].1.as_str().as_bytes();
    let ghost fb = full@;
    assert(fb == items[n as int].1);
    let len = full.len();
    // The leading zeros.
    let mut z: usize = 0;
    while z < len && full[z] == 0x30
        invariant
            z <= len == fb.len(),
            full@ == fb,
            forall|j: int| 0 <= j < z ==> fb[j] == 0x30,
        decreases len - z,
    {
        z += 1;
    }
    let ghost z0 = lemma_trim_zeros(fb);
    assert(z == z0) by {
        if z < z0 {
            assert(fb[z as int] == 0x30);
        } else if z > z0 {
            assert(fb[z0] == 0x30);
        }
    }
    proof {
        encode_utf8_valid_utf8(ids@[n as int].1@);
        lemma_zero_prefix_boundary(fb, z as int);
    }
    let mut dbytes: Vec<u8> = Vec::new();
    if z == len {
        dbytes.push(0x30);
    } else {
        let mut j: usize = z;
        while j < len
            invariant
                z <= j <= len == fb.len(),
                full@ == fb,
                dbytes@ == fb.subrange(z as int, j as int),
            decreases len - j,
        {
            dbytes.push(full[j]);
            assert(fb.subrange(z as int, j + 1) =~= dbytes@);
            j += 1;
        }
        assert(dbytes@ =~= fb.skip(z as int));
    }
    let ghost d = dbytes@;
    assert(d == display_bytes(fb));
    proof {
        if z == len {
            reveal_with_fuel(valid_utf8, 2);
            assert(valid_utf8(d));
        }
    }
    // The unique trailing piece.
    let mut k: usize = if len < MIN_SUFFIX_LEN {
        len
    } else {
        MIN_SUFFIX_LEN
    };
    proof {
        lemma_suffix_len_bounds(items, fb, start_len(fb));
    }
    let mut done = false;
    while k < len && !done
        invariant
            full@ == fb,
            len == fb.len(),
            start_len(fb) <= k <= len,
            suffix_len_from(items, fb, k as nat) == unique_suffix_len(items, fb),
            done ==> k < len && count_ending(items, fb.skip(len - k)) == 1,
            items == items_of(ids@),
        decreases len - k + (if done {
            0int
        } else {
            1int
        }),
    {
        if count_tail(ids, full, k) == 1 {
            done = true;
        } else {
            k += 1;
        }
    }
    assert(k as nat == unique_suffix_len(items, fb));
    let ghost dl = d.len();
    let unique_start: usize = if dbytes.len() >= k {
        dbytes.len() - k
    } else {
        0
    };
    proof {
        is_char_boundary_start_end_of_seq(d);
        if 0 < unique_start < dbytes.len() {
            // The piece starts inside the display, at the cut made in the text.
            assert(k < dbytes.len());
            assert(z < len);
            assert(k < len);
            assert(is_char_boundary(items[n as int].1, items[n as int].1.len() - k));
            lemma_boundary_shift(fb, z as int, len - k);
            assert(fb.skip(z as int) == d);
        }
    }
    let display = match utf8_text(dbytes) {
        Some(s) => s,
        None => {
            assert(false);
            String::new()
        },
    };
    proof {
        decode_utf8_encode_utf8(d);
    }
    let full_text = ids[n].1.clone();
    ShortIdEntry { display, unique_start, full: full_text }
}

impl ShortIds {
    /// Builds the display strings of `(id, ULID text)` pairs. A later pair
    /// with the same id replaces an earlier one.
    pub fn new(ids: Vec<(u128, String)>) -> (s: Self)
        requires
            pieces_cuttable(items_of(ids@)),
        ensures
            s@ == short_entries(items_of(ids@)),
    {
        let ghost items = items_of(ids@);
        let mut entries: HashMap<u128, ShortIdEntry> = HashMap::new();
        let mut n: usize = 0;
        while n < ids.len()
            invariant
                n <= ids@.len(),
                items == items_of(ids@),
                pieces_cuttable(items),
                forall|k: u128|
                    #![trigger entries@.contains_key(k)]
                    entries@.contains_key(k) <==> entries_upto(items, n as int).dom().contains(k),
                forall|k: u128|
                    #![trigger entries@.contains_key(k)]
                    entries@.contains_key(k) ==> entry_ok(entries@[k]) && entry_view(entries@[k])
                        == entries_upto(items, n as int)[k],
            decreases ids.len() - n,
        {
            let id = ids[n].0;
            let e = make_entry(&ids, n);
            assert(items[n as int].0 == id);
            entries.insert(id, e);
            proof {
                let m = entries_upto(items, n + 1);
                assert(m == entries_upto(items, n as int).insert(id, short_entry(items, items[n as int].1)));
            }
            n += 1;
        }
        proof {
            assert(items.len() == ids@.len());
        }
        let s = ShortIds { entries };
        proof {
            let m = short_entries(items);
            assert(m == entries_upto(items, ids@.len() as int));
            assert forall|k: u128| #[trigger] s@.dom().contains(k) <==> m.dom().contains(k) by {
                if s.entries@.contains_key(k) {
                }
            }
            assert forall|k: u128| #[trigger] s@.dom().contains(k) implies s@[k] == m[k] by {
                assert(s.entries@.contains_key(k));
            }
            assert(s@ =~= m);
        }
        s
    }

    /// The display text with its unique piece in bold (ANSI); `?` for an
    /// unknown id.
    pub fn format_bold(&self, id: u128) -> (r: String)
        ensures
            match self@.get(id) {
                Some((d, start, _)) => r@ == bold_text(d, start) && decode_utf8(d.take(start as int))
                    + decode_utf8(d.skip(start as int)) == decode_utf8(d) && encode_utf8(r@).len() == d.len() + 8,
                None => r@ == "?"@,
            },
    {
        proof {
            use_type_invariant(self);
        }
        match self.entries.get(&id) {
            Some(e) => {
                proof {
                    assert(self.entries@.contains_key(id));
                    assert(entry_ok(*e));
                }
                let (head, tail) = e.display.as_str().split_at(e.unique_start);
                proof {
                    encode_utf8_decode_utf8(head@);
                    encode_utf8_decode_utf8(tail@);
                    let d = encode_utf8(e.display@);
                    encode_utf8_valid_utf8(e.display@);
                    bold_text_shows_display(d, e.unique_start as nat);
                    assert(head.spec_bytes() =~= d.take(e.unique_start as int));
                    assert(tail.spec_bytes() =~= d.skip(e.unique_start as int));
                }
                let mut v: Vec<char> = Vec::new();
                crate::text::extend_str(&mut v, head);
                crate::text::extend_str(&mut v, "\x1b[1m");
                crate::text::extend_str(&mut v, tail);
                crate::text::extend_str(&mut v, "\x1b[0m");
                string_of(&v)
            },
            None => "?".to_owned(),
        }
    }

    /// Just the unique piece, for prompts and short references; `?` for an
    /// unknown id.
    pub fn short(&self, id: u128) -> (r: &str)
        ensures
            match self@.get(id) {
                Some((d, start, _)) => r@ == decode_utf8(d.skip(start as int)),
                None => r@ == "?"@,
            },
    {
        proof {
            use_type_invariant(self);
        }
        match self.entries.get(&id) {
            Some(e) => {
                proof {
                    assert(self.entries@.contains_key(id));
                    assert(entry_ok(*e));
                }
                let (_, tail) = e.display.as_str().split_at(e.unique_start);
                proof {
                    encode_utf8_decode_utf8(tail@);
                    assert(tail.spec_bytes() =~= encode_utf8(e.display@).skip(e.unique_start as int));
                }
                tail
            },
            None => "?",
        }
    }

    /// The display length in bytes (without ANSI codes), for column
    /// alignment; 1 for an unknown id.
    pub fn display_len(&self, id: u128) -> (n: usize)
        ensures
            match self@.get(id) {
                Some((d, _, _)) => n == d.len(),
                None => n == 1,
            },
    {
        match self.entries.get(&id) {
            Some(e) => e.display.as_str().as_bytes().len(),
            None => 1,
        }
    }

    /// The entity whose ULID text ends with `suffix` (upper-cased); `None`
    /// when no entity or more than one does.
    pub fn find_by_suffix(&self, suffix: &str) -> (r: Option<u128>)
        ensures
            match r {
                Some(id) => self@.dom().contains(id) && ends_with_bytes(
                    self@[id].2,
                    encode_utf8(upper_query(suffix@)),
                ) && forall|o: u128|
                    #![trigger self@.dom().contains(o)]
                    self@.dom().contains(o) && ends_with_bytes(self@[o].2, encode_utf8(upper_query(suffix@)))
                        ==> o == id,
                None => forall|id: u128|
                    #![trigger self@.dom().contains(id)]
                    self@.dom().contains(id) && ends_with_bytes(
                        self@[id].2,
                        encode_utf8(upper_query(suffix@)),
                    ) ==> exists|o: u128|
                        o != id && self@.dom().contains(o) && ends_with_bytes(
                            self@[o].2,
                            encode_utf8(upper_query(suffix@)),
                        ),
            },
    {
        let upper = to_uppercase(suffix);
        let u = upper.as_str().as_bytes();
        let ghost ub = encode_utf8(upper_query(suffix@));
        assert(u@ == ub);
        let ghost m = self@;
        let ghost v = vstd::std_specs::iter::IteratorSpec::remaining(
            &vstd::std_specs::hash::spec_hash_map_iter(&self.entries),
        );
        let ghost mut seen: int = 0;
        let ghost mut fj: int = 0;
        let mut first: Option<u128> = None;
        for (k, e) in it: self.entries.iter()
            invariant
                u@ == ub,
                ub == encode_utf8(upper_query(suffix@)),
                it.seq() == v,
                seen == it.index(),
                v.no_duplicates(),
                forall|i: int|
                    #![trigger v[i]]
                    0 <= i < v.len() ==> self.entries@.contains_key(*v[i].0) && self.entries@[*v[i].0] == *v[i].1,
                first matches Some(f) ==> 0 <= fj < it.index() && *v[fj].0 == f && text_ends(*v[fj].1, ub),
                forall|i: int|
                    #![trigger v[i]]
                    0 <= i < it.index() && (first is None || i != fj) ==> !text_ends(*v[i].1, ub),
        {
            proof {
                assert(v[seen] == (k, e));
            }
            let t = e.full.as_str().as_bytes();
            let hit = ends_with_tail(t, u, u.len());
            proof {
                assert(u@.skip(u@.len() - u@.len()) =~= u@);
                assert(hit == text_ends(*e, ub));
            }
            if hit {
                match first {
                    Some(f) => {
                        proof {
                            self.lemma_two_texts(v, fj, seen, ub);
                        }
                        return None;
                    },
                    None => {
                        first = Some(*k);
                        proof {
                            fj = seen;
                        }
                    },
                }
            }
            proof {
                seen = seen + 1;
            }
        }
        proof {
            assert(seen == v.len());
            assert forall|o: u128| #[trigger] m.dom().contains(o) implies exists|j: int|
                0 <= j < v.len() && *v[j].0 == o by {
                assert(self.entries@.contains_key(o));
                assert(v.contains((&o, &self.entries@[o])));
            }
        }
        match first {
            Some(f) => {
                proof {
                    assert forall|o: u128|
                        #![trigger m.dom().contains(o)]
                        m.dom().contains(o) && ends_with_bytes(m[o].2, ub) implies o == f by {
                        let j = choose|j: int| 0 <= j < v.len() && *v[j].0 == o;
                        assert(m[o] == entry_view(*v[j].1));
                        if j != fj {
                            assert(!text_ends(*v[j].1, ub));
                        }
                    }
                }
                Some(f)
            },
            None => {
                proof {
                    assert forall|id: u128|
                        #![trigger m.dom().contains(id)]
                        m.dom().contains(id) && ends_with_bytes(m[id].2, ub) implies false by {
                        let j = choose|j: int| 0 <= j < v.len() && *v[j].0 == id;
                        assert(m[id] == entry_view(*v[j].1));
                        assert(!text_ends(*v[j].1, ub));
                    }
                }
                None
            },
        }
    }
}

// ───────────────────────────── Laws ──────────────────────────────────────────

/// The piece an entry highlights: its display from the unique start on.
pub open spec fn unique_piece(e: (Seq<u8>, nat, Seq<u8>)) -> Seq<u8> {
    e.0.skip(e.1 as int)
}

proof fn lemma_suffix_len_found(items: Seq<(u128, Seq<u8>)>, full: Seq<u8>, k: nat)
    requires
        k <= full.len(),
    ensures
        suffix_len_from(items, full, k) < full.len() ==> count_ending(
            items,
            full.skip(full.len() - suffix_len_from(items, full, k)),
        ) == 1,
    decreases full.len() - k,
{
    if k < full.len() && count_ending(items, full.skip(full.len() - k)) != 1 {
        lemma_suffix_len_found(items, full, k + 1);
    }
}

proof fn lemma_count_two(items: Seq<(u128, Seq<u8>)>, a: int, b: int, suf: Seq<u8>)
    requires
        0 <= a < items.len(),
        0 <= b < items.len(),
        a != b,
        ends_with_bytes(items[a].1, suf),
        ends_with_bytes(items[b].1, suf),
    ensures
        count_ending(items, suf) >= 2,
    decreases items.len(),
{
    let last = items.len() - 1;
    let rest = items.drop_last();
    if a == last || b == last {
        let other = if a == last {
            b
        } else {
            a
        };
        assert(rest[other] == items[other]);
        lemma_count_one(rest, other, suf);
    } else {
        assert(rest[a] == items[a]);
        assert(rest[b] == items[b]);
        lemma_count_two(rest, a, b, suf);
    }
}

proof fn lemma_count_one(items: Seq<(u128, Seq<u8>)>, a: int, suf: Seq<u8>)
    requires
        0 <= a < items.len(),
        ends_with_bytes(items[a].1, suf),
    ensures
        count_ending(items, suf) >= 1,
    decreases items.len(),
{
    if a < items.len() - 1 {
        assert(items.drop_last()[a] == items[a]);
        lemma_count_one(items.drop_last(), a, suf);
    }
}

proof fn lemma_entries_upto(items: Seq<(u128, Seq<u8>)>, n: int, o: u128)
    requires
        0 <= n <= items.len(),
        entries_upto(items, n).dom().contains(o),
    ensures
        exists|j: int|
            0 <= j < n && items[j].0 == o && entries_upto(items, n)[o] == short_entry(items, #[trigger] items[j].1),
    decreases n,
{
    if items[n - 1].0 != o {
        lemma_entries_upto(items, n - 1, o);
        let j = choose|j: int|
            0 <= j < n - 1 && items[j].0 == o && entries_upto(items, n - 1)[o] == short_entry(items, #[trigger] items[j].1);
        assert(items[j].1 == items[j].1);
    } else {
        assert(items[n - 1].1 == items[n - 1].1);
    }
}

proof fn lemma_display_suffix(full: Seq<u8>, suf: Seq<u8>)
    requires
        suf.len() >= 3,
        ends_with_bytes(display_bytes(full), suf),
    ensures
        ends_with_bytes(full, suf),
{
    let z = lemma_trim_zeros(full);
    let d = full.skip(z);
    assert(d.skip(d.len() - suf.len()) =~= full.skip(full.len() - suf.len()));
}

/// The highlighted piece names its entity: when the ids are distinct and a
/// piece that only one text ends with was found within the display, the
/// entity's display and ULID text end with that piece, and no other
/// entity's display or ULID text does.
pub proof fn unique_piece_names_its_entity(items: Seq<(u128, Seq<u8>)>, i: int, o: u128)
    requires
        0 <= i < items.len(),
        forall|a: int, b: int| 0 <= a < b < items.len() ==> #[trigger] items[a].0 != #[trigger] items[b].0,
        unique_suffix_len(items, items[i].1) < items[i].1.len(),
        unique_suffix_len(items, items[i].1) <= display_bytes(items[i].1).len(),
        short_entries(items).dom().contains(o),
        o != items[i].0,
    ensures
        ends_with_bytes(
            short_entries(items)[items[i].0].0,
            unique_piece(short_entries(items)[items[i].0]),
        ),
        !ends_with_bytes(short_entries(items)[o].0, unique_piece(short_entries(items)[items[i].0])),
        ends_with_bytes(
            short_entries(items)[items[i].0].2,
            unique_piece(short_entries(items)[items[i].0]),
        ),
        !ends_with_bytes(short_entries(items)[o].2, unique_piece(short_entries(items)[items[i].0])),
{
    let n = items.len() as int;
    let full = items[i].1;
    let k = unique_suffix_len(items, full);
    let suf = full.skip(full.len() - k);
    lemma_suffix_len_bounds(items, full, start_len(full));
    lemma_suffix_len_found(items, full, start_len(full));
    // The entity's own entry.
    assert(entries_upto(items, n).dom().contains(items[i].0)) by {
        lemma_entries_upto_dom(items, n, i);
    }
    lemma_entries_upto(items, n, items[i].0);
    let ji = choose|j: int|
        0 <= j < n && items[j].0 == items[i].0 && entries_upto(items, n)[items[i].0] == short_entry(items, #[trigger] items[j].1);
    assert(ji == i) by {
        if ji < i {
            assert(items[ji].0 != items[i].0);
        } else if ji > i {
            assert(items[i].0 != items[ji].0);
        }
    }
    let d = display_bytes(full);
    let piece = d.skip(d.len() - k);
    assert(unique_piece(short_entries(items)[items[i].0]) == piece);
    // The piece is the suffix the search found unique.
    let z = lemma_trim_zeros(full);
    assert(trim_zeros(full).len() > 0);
    assert(piece =~= suf);
    assert(ends_with_bytes(d, piece)) by {
        assert(d.skip(d.len() - piece.len()) =~= piece);
    }
    // Any other entity ending with it would make two texts end with it.
    lemma_entries_upto(items, n, o);
    let jo = choose|j: int|
        0 <= j < n && items[j].0 == o && entries_upto(items, n)[o] == short_entry(items, #[trigger] items[j].1);
    assert(ends_with_bytes(full, suf)) by {
        assert(full.skip(full.len() - suf.len()) =~= suf);
    }
    if ends_with_bytes(short_entries(items)[o].0, piece) {
        lemma_display_suffix(items[jo].1, piece);
        assert(jo != i);
        lemma_count_two(items, i, jo, suf);
    }
    if ends_with_bytes(short_entries(items)[o].2, piece) {
        assert(jo != i);
        lemma_count_two(items, i, jo, suf);
    }
}

proof fn lemma_suffix_len_least(items: Seq<(u128, Seq<u8>)>, full: Seq<u8>, k: nat)
    requires
        k <= full.len(),
    ensures
        forall|m: nat|
            k <= m < suffix_len_from(items, full, k) ==> #[trigger] count_ending(items, full.skip(full.len() - m))
                != 1,
    decreases full.len() - k,
{
    if k < full.len() && count_ending(items, full.skip(full.len() - k)) != 1 {
        lemma_suffix_len_least(items, full, k + 1);
    }
}

/// The unique piece's length is the shortest that works: at least three
/// bytes (or the whole text when it is shorter), the first length from
/// there whose trailing piece only one text ends with, or the whole text
/// when no length short of it is.
pub proof fn unique_suffix_is_shortest(items: Seq<(u128, Seq<u8>)>, full: Seq<u8>)
    ensures
        start_len(full) <= unique_suffix_len(items, full) <= full.len(),
        unique_suffix_len(items, full) < full.len() ==> count_ending(
            items,
            full.skip(full.len() - unique_suffix_len(items, full)),
        ) == 1,
        forall|m: nat|
            start_len(full) <= m < unique_suffix_len(items, full) ==> #[trigger] count_ending(
                items,
                full.skip(full.len() - m),
            ) != 1,
{
    lemma_suffix_len_bounds(items, full, start_len(full));
    lemma_suffix_len_found(items, full, start_len(full));
    lemma_suffix_len_least(items, full, start_len(full));
}

proof fn lemma_encode_concat(a: Seq<char>, b: Seq<char>)
    ensures
        encode_utf8(a + b) == encode_utf8(a) + encode_utf8(b),
    decreases a.len(),
{
    if a.len() == 0 {
        assert(a + b =~= b);
    } else {
        lemma_encode_concat(a.drop_first(), b);
        assert((a + b).drop_first() =~= a.drop_first() + b);
    }
}

/// The bold text of a display cut at a character boundary shows the
/// display: the two parts decode to the display's text, and its bytes are
/// the display's bytes plus the two four-byte escape codes.
pub proof fn bold_text_shows_display(d: Seq<u8>, start: nat)
    requires
        valid_utf8(d),
        start <= d.len(),
        is_char_boundary(d, start as int),
    ensures
        decode_utf8(d.take(start as int)) + decode_utf8(d.skip(start as int)) == decode_utf8(d),
        encode_utf8(bold_text(d, start)).len() == d.len() + 8,
{
    vstd::utf8::decode_utf8_split(d, start as int);
    assert(d.subrange(0, start as int) =~= d.take(start as int));
    assert(d.subrange(start as int, d.len() as int) =~= d.skip(start as int));
    valid_utf8_split(d, start as int);
    let h = decode_utf8(d.take(start as int));
    let tl = decode_utf8(d.skip(start as int));
    decode_utf8_encode_utf8(d.take(start as int));
    decode_utf8_encode_utf8(d.skip(start as int));
    reveal_strlit("\x1b[1m");
    reveal_strlit("\x1b[0m");
    let b1 = "\x1b[1m"@;
    let b0 = "\x1b[0m"@;
    assert(encode_utf8(b1).len() == 4) by {
        reveal_with_fuel(encode_utf8, 5);
    }
    assert(encode_utf8(b0).len() == 4) by {
        reveal_with_fuel(encode_utf8, 5);
    }
    lemma_encode_concat(h, b1);
    lemma_encode_concat(h + b1, tl);
    lemma_encode_concat(h + b1 + tl, b0);
}

/// The unique piece of a text among `items`: the last `min(n, |d|)` bytes of
/// its display `d`, `n` being its unique suffix length.
pub open spec fn piece_of(items: Seq<(u128, Seq<u8>)>, full: Seq<u8>) -> Seq<u8> {
    let d = display_bytes(full);
    let n = unique_suffix_len(items, full);
    d.skip(d.len() - (if n <= d.len() {
        n
    } else {
        d.len()
    }))
}

/// With distinct ids, the entries are exactly the items' ids; each id's
/// entry is made from its own text (display, unique start, the text itself),
/// and its unique piece is the last `min(n, |d|)` bytes of its display.
pub proof fn short_entries_of_distinct_ids(items: Seq<(u128, Seq<u8>)>)
    requires
        forall|a: int, b: int| 0 <= a < b < items.len() ==> #[trigger] items[a].0 != #[trigger] items[b].0,
    ensures
        forall|k: u128|
            #[trigger] short_entries(items).dom().contains(k) <==> exists|i: int|
                0 <= i < items.len() && items[i].0 == k,
        forall|i: int|
            0 <= i < items.len() ==> #[trigger] short_entries(items)[items[i].0] == short_entry(items, items[i].1),
        forall|i: int|
            0 <= i < items.len() ==> #[trigger] unique_piece(short_entries(items)[items[i].0]) == piece_of(
                items,
                items[i].1,
            ),
{
    let n = items.len() as int;
    assert forall|i: int| 0 <= i < n implies #[trigger] short_entries(items)[items[i].0] == short_entry(
        items,
        items[i].1,
    ) by {
        lemma_entries_upto_dom(items, n, i);
        lemma_entries_upto(items, n, items[i].0);
        let j = choose|j: int|
            0 <= j < n && items[j].0 == items[i].0 && entries_upto(items, n)[items[i].0] == short_entry(
                items,
                #[trigger] items[j].1,
            );
        if j < i {
            assert(items[j].0 != items[i].0);
        } else if j > i {
            assert(items[i].0 != items[j].0);
        }
    }
    assert forall|k: u128| #[trigger] short_entries(items).dom().contains(k) <==> exists|i: int|
        0 <= i < items.len() && items[i].0 == k by {
        if short_entries(items).dom().contains(k) {
            lemma_entries_upto(items, n, k);
        }
        if exists|i: int| 0 <= i < items.len() && items[i].0 == k {
            let i = choose|i: int| 0 <= i < items.len() && items[i].0 == k;
            lemma_entries_upto_dom(items, n, i);
        }
    }
    assert forall|i: int| 0 <= i < n implies #[trigger] unique_piece(short_entries(items)[items[i].0])
        == piece_of(items, items[i].1) by {
        let e = short_entries(items)[items[i].0];
        assert(e == short_entry(items, items[i].1));
    }
}

/// With distinct ids, an entity is the one match of a query's bytes `u`
/// among the entries exactly when its own text is the only item text that
/// ends with `u`: what `find_by_suffix` answers for a `ShortIds` built from
/// `items`.
pub proof fn suffix_match_over_items(items: Seq<(u128, Seq<u8>)>, u: Seq<u8>, i: int)
    requires
        forall|a: int, b: int| 0 <= a < b < items.len() ==> #[trigger] items[a].0 != #[trigger] items[b].0,
        0 <= i < items.len(),
    ensures
        (ends_with_bytes(short_entries(items)[items[i].0].2, u) && forall|o: u128|
            #![trigger short_entries(items).dom().contains(o)]
            short_entries(items).dom().contains(o) && ends_with_bytes(short_entries(items)[o].2, u) ==> o
                == items[i].0) <==> (ends_with_bytes(items[i].1, u) && forall|j: int|
            0 <= j < items.len() && j != i ==> !ends_with_bytes(#[trigger] items[j].1, u)),
{
    short_entries_of_distinct_ids(items);
    let m = short_entries(items);
    assert(m[items[i].0].2 == items[i].1);
    if ends_with_bytes(items[i].1, u) && forall|j: int|
        0 <= j < items.len() && j != i ==> !ends_with_bytes(#[trigger] items[j].1, u) {
        assert forall|o: u128|
            #![trigger m.dom().contains(o)]
            m.dom().contains(o) && ends_with_bytes(m[o].2, u) implies o == items[i].0 by {
            let j = choose|j: int| 0 <= j < items.len() && items[j].0 == o;
            assert(m[items[j].0].2 == items[j].1);
            if j != i {
                assert(!ends_with_bytes(items[j].1, u));
            }
        }
    }
    if ends_with_bytes(m[items[i].0].2, u) && forall|o: u128|
        #![trigger m.dom().contains(o)]
        m.dom().contains(o) && ends_with_bytes(m[o].2, u) ==> o == items[i].0 {
        assert forall|j: int| 0 <= j < items.len() && j != i implies !ends_with_bytes(#[trigger] items[j].1, u) by {
            assert(m.dom().contains(items[j].0));
            assert(m[items[j].0].2 == items[j].1);
            if ends_with_bytes(items[j].1, u) {
                if j < i {
                    assert(items[j].0 != items[i].0);
                } else {
                    assert(items[i].0 != items[j].0);
                }
            }
        }
    }
}

proof fn lemma_short_entry_ok(items: Seq<(u128, Seq<u8>)>, i: int)
    requires
        0 <= i < items.len(),
        pieces_cuttable(items),
        valid_utf8(items[i].1),
    ensures
        valid_utf8(short_entry(items, items[i].1).0),
        short_entry(items, items[i].1).1 <= short_entry(items, items[i].1).0.len(),
        is_char_boundary(short_entry(items, items[i].1).0, short_entry(items, items[i].1).1 as int),
{
    let full = items[i].1;
    let len = full.len() as int;
    let z = lemma_trim_zeros(full);
    lemma_zero_prefix_boundary(full, z);
    let k = unique_suffix_len(items, full);
    lemma_suffix_len_bounds(items, full, start_len(full));
    let (d, s, _) = short_entry(items, full);
    if z == len {
        assert(d == seq![0x30u8]);
        reveal_with_fuel(valid_utf8, 2);
        assert(valid_utf8(d));
    } else {
        assert(d == full.skip(z));
    }
    is_char_boundary_start_end_of_seq(d);
    if 0 < s < d.len() {
        assert(z < len);
        assert(k < d.len());
        assert(is_char_boundary(full, len - k));
        lemma_boundary_shift(full, z, len - k);
    }
}

/// The bold form of an item's entry shows its display: the parts before
/// and from the unique piece decode to the display's text, and the bold
/// text's bytes are the display's bytes plus the two four-byte codes.
pub proof fn bold_form_of_item(items: Seq<(u128, Seq<u8>)>, i: int)
    requires
        forall|a: int, b: int| 0 <= a < b < items.len() ==> #[trigger] items[a].0 != #[trigger] items[b].0,
        pieces_cuttable(items),
        0 <= i < items.len(),
        valid_utf8(items[i].1),
    ensures
        short_entries(items)[items[i].0].0 == display_bytes(items[i].1),
        decode_utf8(short_entries(items)[items[i].0].0.take(short_entries(items)[items[i].0].1 as int))
            + decode_utf8(short_entries(items)[items[i].0].0.skip(short_entries(items)[items[i].0].1 as int))
            == decode_utf8(display_bytes(items[i].1)),
        encode_utf8(bold_text(short_entries(items)[items[i].0].0, short_entries(items)[items[i].0].1)).len()
            == display_bytes(items[i].1).len() + 8,
{
    short_entries_of_distinct_ids(items);
    assert(short_entries(items)[items[i].0] == short_entry(items, items[i].1));
    lemma_short_entry_ok(items, i);
    let e = short_entry(items, items[i].1);
    bold_text_shows_display(e.0, e.1);
}

/// Bytes that are ASCII with no lowercase letter.
pub open spec fn upper_ascii_bytes(b: Seq<u8>) -> bool {
    forall|j: int| 0 <= j < b.len() ==> #[trigger] b[j] < 0x80 && !(0x61 <= b[j] <= 0x7a)
}

/// The unique piece finds its entity again: when the piece was found within
/// the display and the entity's text is ASCII without lowercase letters,
/// the piece as a query (as `short` gives it), and its lowercase form, are
/// matched as the piece's own bytes, which the entity's ULID text ends with
/// and no other entity's text does.
pub proof fn short_piece_finds_its_entity(items: Seq<(u128, Seq<u8>)>, i: int, o: u128)
    requires
        0 <= i < items.len(),
        forall|a: int, b: int| 0 <= a < b < items.len() ==> #[trigger] items[a].0 != #[trigger] items[b].0,
        unique_suffix_len(items, items[i].1) < items[i].1.len(),
        unique_suffix_len(items, items[i].1) <= display_bytes(items[i].1).len(),
        upper_ascii_bytes(items[i].1),
        short_entries(items).dom().contains(o),
        o != items[i].0,
    ensures
        encode_utf8(upper_query(decode_utf8(unique_piece(short_entries(items)[items[i].0])))) == unique_piece(
            short_entries(items)[items[i].0],
        ),
        encode_utf8(upper_query(ascii_lowercased(decode_utf8(unique_piece(short_entries(items)[items[i].0])))))
            == unique_piece(short_entries(items)[items[i].0]),
        ends_with_bytes(short_entries(items)[items[i].0].2, unique_piece(short_entries(items)[items[i].0])),
        !ends_with_bytes(short_entries(items)[o].2, unique_piece(short_entries(items)[items[i].0])),
{
    unique_piece_names_its_entity(items, i, o);
    short_entries_of_distinct_ids(items);
    let full = items[i].1;
    let piece = unique_piece(short_entries(items)[items[i].0]);
    assert(short_entries(items)[items[i].0].2 == full);
    let off = full.len() - piece.len();
    assert(full.skip(off) == piece);
    assert forall|j: int| 0 <= j < piece.len() implies #[trigger] piece[j] < 0x80 && !(0x61 <= piece[j] <= 0x7a) by {
        assert(piece[j] == full[off + j]);
    }
    let q = Seq::new(piece.len(), |j: int| piece[j] as char);
    assert(is_ascii_chars(q));
    is_ascii_chars_encode_utf8(q);
    assert(encode_utf8(q) =~= piece);
    encode_utf8_decode_utf8(q);
    assert(decode_utf8(piece) == q);
    assert(ascii_uppercased(q) =~= q);
    let l = ascii_lowercased(q);
    assert(is_ascii_chars(l));
    assert(ascii_uppercased(l) =~= q);
}

proof fn lemma_entries_upto_dom(items: Seq<(u128, Seq<u8>)>, n: int, i: int)
    requires
        0 <= i < n <= items.len(),
    ensures
        entries_upto(items, n).dom().contains(items[i].0),
    decreases n,
{
    if i < n - 1 {
        lemma_entries_upto_dom(items, n - 1, i);
    }
}

} // verus!
