//! Character-level helpers shared by the parsers and formatters: whitespace
//! trimming and splitting, joining, decimal and hexadecimal number syntax.

use vstd::prelude::*;

verus! {

// ───────────────────────────── Strings and chars ─────────────────────────────

/// Appends one character (`String::push`).
#[verifier::external_body]
pub(crate) fn push_char(s: &mut String, c: char)
    ensures
        final(s)@ == old(s)@.push(c),
{
    s.push(c);
}

/// The characters of `s`, in order.
pub fn chars_of(s: &str) -> (v: Vec<char>)
    ensures
        v@ == s@,
{
    let mut v: Vec<char> = Vec::new();
    for c in it: s.chars()
        invariant
            it.seq() == s@,
            v@ == it.seq().take(it.index() as int),
    {
        v.push(c);
    }
    v
}

/// A `String` holding exactly the characters of `v`.
pub fn string_of(v: &Vec<char>) -> (s: String)
    ensures
        s@ == v@,
{
    let mut s = String::new();
    for i in 0..v.len()
        invariant
            s@ == v@.take(i as int),
    {
        push_char(&mut s, v[i]);
        assert(v@.take(i as int).push(v@[i as int]) =~= v@.take(i + 1));
    }
    assert(v@.take(v.len() as int) =~= v@);
    s
}

/// Appends every character of `w` to `v`.
pub fn extend_str(v: &mut Vec<char>, w: &str)
    ensures
        final(v)@ == old(v)@ + w@,
{
    for c in it: w.chars()
        invariant
            it.seq() == w@,
            v@ == old(v)@ + it.seq().take(it.index() as int),
    {
        v.push(c);
        assert(it.seq().take(it.index() + 1) =~= it.seq().take(it.index() as int).push(c));
    }
    assert(w@.take(w@.len() as int) =~= w@);
}

/// Appends every character of `w` to `v`.
pub fn extend_chars(v: &mut Vec<char>, w: &Vec<char>)
    ensures
        final(v)@ == old(v)@ + w@,
{
    for i in 0..w.len()
        invariant
            v@ == old(v)@ + w@.take(i as int),
    {
        v.push(w[i]);
        assert(w@.take(i + 1) =~= w@.take(i as int).push(w@[i as int]));
    }
    assert(w@.take(w.len() as int) =~= w@);
}

/// Whether the characters of `t` are exactly those of `w`.
pub fn is_word(t: &Vec<char>, w: &str) -> (b: bool)
    ensures
        b == (t@ == w@),
{
    let wv = chars_of(w);
    chars_eq(t, &wv)
}

/// Character-wise equality of two vectors.
pub fn chars_eq(a: &Vec<char>, b: &Vec<char>) -> (r: bool)
    ensures
        r == (a@ == b@),
{
    if a.len() != b.len() {
        return false;
    }
    for i in 0..a.len()
        invariant
            a@.len() == b@.len(),
            forall|j: int| 0 <= j < i ==> a@[j] == b@[j],
    {
        if a[i] != b[i] {
            return false;
        }
    }
    assert(a@ =~= b@);
    true
}

/// Whether `t` ends with `suffix`.
pub open spec fn ends_with(t: Seq<char>, suffix: Seq<char>) -> bool {
    suffix.len() <= t.len() && t.subrange(t.len() - suffix.len(), t.len() as int) == suffix
}

/// Whether `t` starts with `prefix`.
pub open spec fn starts_with(t: Seq<char>, prefix: Seq<char>) -> bool {
    prefix.len() <= t.len() && t.take(prefix.len() as int) == prefix
}

/// Executable `ends_with`.
pub fn chars_end_with(t: &Vec<char>, suffix: &Vec<char>) -> (r: bool)
    ensures
        r == ends_with(t@, suffix@),
{
    if suffix.len() > t.len() {
        return false;
    }
    let off = t.len() - suffix.len();
    let n = suffix.len();
    let mut i: usize = 0;
    while i < n
        invariant
            i <= n,
            n == suffix@.len(),
            off + n == t@.len(),
            t@.len() <= usize::MAX,
            forall|j: int| 0 <= j < i ==> t@[off + j] == suffix@[j],
        decreases n - i,
    {
        if t[off + i] != suffix[i] {
            assert(t@.subrange(off as int, t@.len() as int)[i as int] != suffix@[i as int]);
            return false;
        }
        i += 1;
    }
    assert(t@.subrange(off as int, t@.len() as int) =~= suffix@);
    true
}

/// Executable `starts_with`.
pub fn chars_start_with(t: &Vec<char>, prefix: &Vec<char>) -> (r: bool)
    ensures
        r == starts_with(t@, prefix@),
{
    if prefix.len() > t.len() {
        return false;
    }
    for i in 0..prefix.len()
        invariant
            prefix@.len() <= t@.len(),
            forall|j: int| 0 <= j < i ==> t@[j] == prefix@[j],
    {
        if t[i] != prefix[i] {
            assert(t@.take(prefix@.len() as int)[i as int] != prefix@[i as int]);
            return false;
        }
    }
    assert(t@.take(prefix@.len() as int) =~= prefix@);
    true
}

/// The characters `v[from..to]`.
pub fn slice_chars(v: &Vec<char>, from: usize, to: usize) -> (r: Vec<char>)
    requires
        from <= to <= v@.len(),
    ensures
        r@ == v@.subrange(from as int, to as int),
{
    let mut r: Vec<char> = Vec::new();
    for i in from..to
        invariant
            from <= i <= to <= v@.len(),
            r@ == v@.subrange(from as int, i as int),
    {
        r.push(v[i]);
        assert(v@.subrange(from as int, i + 1) =~= v@.subrange(from as int, i as int).push(v@[i as int]));
    }
    r
}

// ───────────────────────────── Whitespace ────────────────────────────────────

/// Unicode `White_Space` (the set `char::is_whitespace` documents).
pub open spec fn is_white_space(c: char) -> bool {
    ||| ('\u{9}' <= c && c <= '\u{d}')
    ||| c == ' '
    ||| c == '\u{85}'
    ||| c == '\u{a0}'
    ||| c == '\u{1680}'
    ||| ('\u{2000}' <= c && c <= '\u{200a}')
    ||| c == '\u{2028}'
    ||| c == '\u{2029}'
    ||| c == '\u{202f}'
    ||| c == '\u{205f}'
    ||| c == '\u{3000}'
}

/// Executable `is_white_space`.
pub fn white_space(c: char) -> (b: bool)
    ensures
        b == is_white_space(c),
{
    ('\u{9}' <= c && c <= '\u{d}') || c == ' ' || c == '\u{85}' || c == '\u{a0}' || c == '\u{1680}'
        || ('\u{2000}' <= c && c <= '\u{200a}') || c == '\u{2028}' || c == '\u{2029}' || c
        == '\u{202f}' || c == '\u{205f}' || c == '\u{3000}'
}

/// `s` without its leading white space.
pub open spec fn trim_start(s: Seq<char>) -> Seq<char>
    decreases s.len(),
{
    if s.len() > 0 && is_white_space(s[0]) {
        trim_start(s.drop_first())
    } else {
        s
    }
}

/// `s` without its trailing white space.
pub open spec fn trim_end(s: Seq<char>) -> Seq<char>
    decreases s.len(),
{
    if s.len() > 0 && is_white_space(s.last()) {
        trim_end(s.drop_last())
    } else {
        s
    }
}

/// `s` without leading and trailing white space (`str::trim`).
pub open spec fn trim(s: Seq<char>) -> Seq<char> {
    trim_end(trim_start(s))
}

proof fn lemma_trim_start_skip(s: Seq<char>, i: int)
    requires
        0 <= i <= s.len(),
        forall|j: int| 0 <= j < i ==> is_white_space(s[j]),
    ensures
        trim_start(s) == trim_start(s.skip(i)),
    decreases i,
{
    if i > 0 {
        lemma_trim_start_skip(s.drop_first(), i - 1);
        assert(s.drop_first().skip(i - 1) =~= s.skip(i));
    } else {
        assert(s.skip(0) =~= s);
    }
}

proof fn lemma_trim_end_take(s: Seq<char>, i: int)
    requires
        0 <= i <= s.len(),
        forall|j: int| i <= j < s.len() ==> is_white_space(s[j]),
    ensures
        trim_end(s) == trim_end(s.take(i)),
    decreases s.len() - i,
{
    if i < s.len() {
        lemma_trim_end_take(s.drop_last(), i);
        assert(s.drop_last().take(i) =~= s.take(i));
    } else {
        assert(s.take(i) =~= s);
    }
}

/// `s` with leading and trailing white space removed.
pub fn trim_chars(s: &Vec<char>) -> (r: Vec<char>)
    ensures
        r@ == trim(s@),
{
    let mut i: usize = 0;
    while i < s.len() && white_space(s[i])
        invariant
            i <= s@.len(),
            forall|j: int| 0 <= j < i ==> is_white_space(s@[j]),
        decreases s.len() - i,
    {
        i += 1;
    }
    proof {
        lemma_trim_start_skip(s@, i as int);
    }
    let mut j: usize = s.len();
    while j > i && white_space(s[j - 1])
        invariant
            i <= j <= s@.len(),
            forall|k: int| j <= k < s@.len() ==> is_white_space(s@[k]),
        decreases j,
    {
        j -= 1;
    }
    let r = slice_chars(s, i, j);
    proof {
        let t = s@.skip(i as int);
        assert(i == s@.len() || !is_white_space(s@[i as int]));
        assert(trim_start(t) == t);
        lemma_trim_end_take(t, j - i);
        assert(t.take(j - i) =~= s@.subrange(i as int, j as int));
        assert(j == i || !is_white_space(t.take(j - i).last()));
        assert(trim_end(t.take(j - i)) == t.take(j - i));
    }
    r
}


proof fn lemma_trim_start_head(s: Seq<char>)
    ensures
        trim_start(s).len() == 0 || !is_white_space(trim_start(s)[0]),
    decreases s.len(),
{
    if s.len() > 0 && is_white_space(s[0]) {
        lemma_trim_start_head(s.drop_first());
    }
}

proof fn lemma_trim_end_prefix(u: Seq<char>)
    ensures
        trim_end(u).len() <= u.len(),
        trim_end(u) == u.take(trim_end(u).len() as int),
    decreases u.len(),
{
    if u.len() > 0 && is_white_space(u.last()) {
        lemma_trim_end_prefix(u.drop_last());
        assert(u.drop_last().take(trim_end(u).len() as int) =~= u.take(trim_end(u).len() as int));
    } else {
        assert(u.take(u.len() as int) =~= u);
    }
}

proof fn lemma_ws_run_collects(s: Seq<char>, i: int)
    requires
        0 <= i < s.len(),
        !is_white_space(s[i]),
    ensures
        ws_run(s).0.len() > 0 || ws_run(s).1.len() > 0,
    decreases s.len(),
{
    if i < s.len() - 1 {
        lemma_ws_run_collects(s.drop_last(), i);
    }
}

/// A string that is not blank after trimming has at least one word.
pub proof fn lemma_trimmed_has_word(s: Seq<char>)
    requires
        trim(s).len() > 0,
    ensures
        words(trim(s)).len() >= 1,
{
    lemma_trim_start_head(s);
    lemma_trim_end_prefix(trim_start(s));
    let t = trim(s);
    assert(t[0] == trim_start(s)[0]);
    lemma_ws_run_collects(t, 0);
}

/// One step of splitting on white space: the finished words and the word
/// being read.
pub open spec fn ws_step(st: (Seq<Seq<char>>, Seq<char>), c: char) -> (Seq<Seq<char>>, Seq<char>) {
    if is_white_space(c) {
        if st.1.len() > 0 {
            (st.0.push(st.1), Seq::empty())
        } else {
            (st.0, Seq::empty())
        }
    } else {
        (st.0, st.1.push(c))
    }
}

/// The splitting state after reading all of `s`.
pub open spec fn ws_run(s: Seq<char>) -> (Seq<Seq<char>>, Seq<char>)
    decreases s.len(),
{
    if s.len() == 0 {
        (Seq::empty(), Seq::empty())
    } else {
        ws_step(ws_run(s.drop_last()), s.last())
    }
}

/// The maximal runs of non-white-space characters of `s`, in order
/// (`str::split_whitespace`).
pub open spec fn words(s: Seq<char>) -> Seq<Seq<char>> {
    let st = ws_run(s);
    if st.1.len() > 0 {
        st.0.push(st.1)
    } else {
        st.0
    }
}

/// Splits `s` on white space.
pub fn split_whitespace(s: &Vec<char>) -> (r: Vec<Vec<char>>)
    ensures
        r@.len() == words(s@).len(),
        forall|k: int| 0 <= k < r@.len() ==> #[trigger] r@[k]@ == words(s@)[k],
{
    let mut done: Vec<Vec<char>> = Vec::new();
    let mut cur: Vec<char> = Vec::new();
    for i in 0..s.len()
        invariant
            done@.len() == ws_run(s@.take(i as int)).0.len(),
            forall|k: int| 0 <= k < done@.len() ==> #[trigger] done@[k]@ == ws_run(s@.take(i as int)).0[k],
            cur@ == ws_run(s@.take(i as int)).1,
    {
        assert(s@.take(i + 1).drop_last() =~= s@.take(i as int));
        let c = s[i];
        if white_space(c) {
            if cur.len() > 0 {
                let w = cur;
                done.push(w);
                cur = Vec::new();
            } else {
                cur = Vec::new();
            }
        } else {
            cur.push(c);
        }
    }
    assert(s@.take(s.len() as int) =~= s@);
    if cur.len() > 0 {
        done.push(cur);
    }
    done
}

/// The words of `w` joined by single spaces (`[&str]::join(" ")`).
pub open spec fn join_spaced(w: Seq<Seq<char>>) -> Seq<char>
    decreases w.len(),
{
    if w.len() == 0 {
        Seq::empty()
    } else if w.len() == 1 {
        w[0]
    } else {
        join_spaced(w.drop_last()) + seq![' '] + w.last()
    }
}

/// Joins `parts[from..]` with single spaces.
pub fn join_from(parts: &Vec<Vec<char>>, from: usize) -> (r: Vec<char>)
    requires
        from <= parts@.len(),
    ensures
        r@ == join_spaced(parts@.skip(from as int).map_values(|p: Vec<char>| p@)),
{
    let ghost ws = parts@.skip(from as int).map_values(|p: Vec<char>| p@);
    let mut r: Vec<char> = Vec::new();
    for i in from..parts.len()
        invariant
            from <= i <= parts@.len(),
            ws == parts@.skip(from as int).map_values(|p: Vec<char>| p@),
            r@ == join_spaced(ws.take(i - from)),
    {
        assert(ws.take(i + 1 - from).drop_last() =~= ws.take(i - from));
        if i > from {
            r.push(' ');
        }
        extend_chars(&mut r, &parts[i]);
    }
    assert(ws.take(parts@.len() - from) =~= ws);
    r
}

// ───────────────────────────── Case mapping ──────────────────────────────────

/// The Unicode lowercase mapping of a string (`str::to_lowercase`).
pub uninterp spec fn spec_to_lowercase(s: Seq<char>) -> Seq<char>;

/// The Unicode uppercase mapping of a string (`str::to_uppercase`).
pub uninterp spec fn spec_to_uppercase(s: Seq<char>) -> Seq<char>;

/// The ASCII uppercase of one character: `a`-`z` become `A`-`Z`, every
/// other character stays.
pub open spec fn ascii_upper_char(c: char) -> char {
    if 'a' <= c && c <= 'z' {
        ((c as int) - 32) as char
    } else {
        c
    }
}

/// The ASCII lowercase of one character: `A`-`Z` become `a`-`z`, every
/// other character stays.
pub open spec fn ascii_lower_char(c: char) -> char {
    if 'A' <= c && c <= 'Z' {
        ((c as int) + 32) as char
    } else {
        c
    }
}

/// Each character of `s` in ASCII uppercase.
pub open spec fn ascii_uppercased(s: Seq<char>) -> Seq<char> {
    Seq::new(s.len(), |i: int| ascii_upper_char(s[i]))
}

/// Each character of `s` in ASCII lowercase.
pub open spec fn ascii_lowercased(s: Seq<char>) -> Seq<char> {
    Seq::new(s.len(), |i: int| ascii_lower_char(s[i]))
}

/// What `to_lowercase` gives: the ASCII lowercase of ASCII text, the
/// Unicode lowercase mapping otherwise.
pub open spec fn lowercase_text(s: Seq<char>) -> Seq<char> {
    if vstd::utf8::is_ascii_chars(s) {
        ascii_lowercased(s)
    } else {
        spec_to_lowercase(s)
    }
}

/// `str::to_lowercase`: its result depends on the characters of `s` alone;
/// the Unicode case tables are not restated here. On ASCII text it maps
/// `A`-`Z` to `a`-`z` and keeps every other character: the Unicode
/// lowercase mapping of an ASCII character is its ASCII lowercase (std
/// documents `to_lowercase` as lowercasing ASCII characters in addition to
/// non-ASCII ones, where `to_ascii_lowercase` maps `A`-`Z` only).
#[verifier::external_body]
pub(crate) fn to_lowercase(s: &str) -> (r: String)
    ensures
        r@ == spec_to_lowercase(s@),
        vstd::utf8::is_ascii_chars(s@) ==> r@ == ascii_lowercased(s@),
{
    s.to_lowercase()
}

/// `str::to_uppercase`: its result depends on the characters of `s` alone;
/// the Unicode case tables are not restated here. On ASCII text it maps
/// `a`-`z` to `A`-`Z` and keeps every other character: the Unicode
/// uppercase mapping of an ASCII character is its ASCII uppercase (std
/// documents `to_uppercase` as uppercasing ASCII characters in addition to
/// non-ASCII ones, where `to_ascii_uppercase` maps `a`-`z` only).
#[verifier::external_body]
pub(crate) fn to_uppercase(s: &str) -> (r: String)
    ensures
        r@ == spec_to_uppercase(s@),
        vstd::utf8::is_ascii_chars(s@) ==> r@ == ascii_uppercased(s@),
{
    s.to_uppercase()
}

/// The code point of the ASCII lowercase of one character.
pub open spec fn ascii_lower(c: char) -> int {
    if 'A' <= c && c <= 'Z' {
        (c as int) + 32
    } else {
        c as int
    }
}

/// ASCII-case-insensitive equality (`str::eq_ignore_ascii_case`).
pub open spec fn eq_ignore_ascii_case(a: Seq<char>, b: Seq<char>) -> bool {
    a.len() == b.len() && forall|i: int| 0 <= i < a.len() ==> ascii_lower(#[trigger] a[i]) == ascii_lower(b[i])
}

/// Executable `ascii_lower`.
pub fn lower_ascii_char(c: char) -> (r: u32)
    ensures
        r == ascii_lower(c),
{
    if 'A' <= c && c <= 'Z' {
        (c as u32) + 32
    } else {
        c as u32
    }
}

/// Executable `eq_ignore_ascii_case` against a literal.
pub fn word_eq_ignore_ascii_case(t: &Vec<char>, w: &str) -> (r: bool)
    ensures
        r == eq_ignore_ascii_case(t@, w@),
{
    let wv = chars_of(w);
    if t.len() != wv.len() {
        return false;
    }
    for i in 0..t.len()
        invariant
            t@.len() == wv@.len(),
            wv@ == w@,
            forall|j: int| 0 <= j < i ==> ascii_lower(#[trigger] t@[j]) == ascii_lower(wv@[j]),
    {
        if lower_ascii_char(t[i]) != lower_ascii_char(wv[i]) {
            return false;
        }
    }
    true
}

/// `w` stands in `s` from position `i` on.
pub open spec fn occurs_at(s: Seq<char>, w: Seq<char>, i: int) -> bool {
    0 <= i && i + w.len() <= s.len() && s.subrange(i, i + w.len()) == w
}

/// `w` stands somewhere in `s`.
pub open spec fn contains_text(s: Seq<char>, w: Seq<char>) -> bool {
    exists|i: int| occurs_at(s, w, i)
}

fn occurs_at_exec(s: &Vec<char>, w: &Vec<char>, i: usize) -> (r: bool)
    requires
        i + w@.len() <= s@.len(),
    ensures
        r == occurs_at(s@, w@, i as int),
{
    let slen = s.len();
    let mut k: usize = 0;
    while k < w.len()
        invariant
            slen == s@.len(),
            i + w@.len() <= s@.len(),
            k <= w@.len(),
            forall|j: int| 0 <= j < k ==> s@[i + j] == w@[j],
        decreases w.len() - k,
    {
        if s[i + k] != w[k] {
            assert(s@.subrange(i as int, i + w@.len())[k as int] != w@[k as int]);
            return false;
        }
        k += 1;
    }
    assert(s@.subrange(i as int, i + w@.len()) =~= w@);
    true
}

/// Whether `w` stands somewhere in `s`.
pub fn contains_chars(s: &Vec<char>, w: &Vec<char>) -> (r: bool)
    ensures
        r == contains_text(s@, w@),
{
    if s.len() < w.len() {
        assert forall|j: int| !occurs_at(s@, w@, j) by {}
        return false;
    }
    let last = s.len() - w.len();
    let mut i: usize = 0;
    while i <= last
        invariant
            last + w@.len() == s@.len(),
            s@.len() <= usize::MAX,
            forall|j: int| 0 <= j < i ==> !occurs_at(s@, w@, j),
        decreases last + 1 - i,
    {
        if occurs_at_exec(s, w, i) {
            return true;
        }
        if i == last {
            assert forall|j: int| !occurs_at(s@, w@, j) by {
                if 0 <= j <= i {
                }
            }
            return false;
        }
        i += 1;
    }
    assert forall|j: int| !occurs_at(s@, w@, j) by {
        if 0 <= j < i {
        }
    }
    false
}

/// A word: at least one character and no white space.
pub open spec fn is_plain_word(w: Seq<char>) -> bool {
    w.len() > 0 && forall|i: int| 0 <= i < w.len() ==> !is_white_space(#[trigger] w[i])
}

/// Three words with single spaces between them.
pub open spec fn spaced3(a: Seq<char>, b: Seq<char>, c: Seq<char>) -> Seq<char> {
    a + seq![' '] + b + seq![' '] + c
}

proof fn lemma_ws_run_word(p: Seq<char>, w: Seq<char>)
    requires
        ws_run(p).1.len() == 0,
        is_plain_word(w),
    ensures
        ws_run(p + w) == (ws_run(p).0, w),
    decreases w.len(),
{
    if w.len() == 1 {
        assert((p + w).drop_last() =~= p);
        assert(Seq::<char>::empty().push(w[0]) =~= w);
    } else {
        let w1 = w.drop_last();
        assert forall|i: int| 0 <= i < w1.len() implies !is_white_space(#[trigger] w1[i]) by {
            assert(w1[i] == w[i]);
        }
        lemma_ws_run_word(p, w1);
        assert((p + w).drop_last() =~= p + w1);
        assert(w1.push(w.last()) =~= w);
    }
}

proof fn lemma_ws_run_word_space(p: Seq<char>, w: Seq<char>)
    requires
        ws_run(p).1.len() == 0,
        is_plain_word(w),
    ensures
        ws_run(p + w + seq![' ']) == (ws_run(p).0.push(w), Seq::<char>::empty()),
{
    lemma_ws_run_word(p, w);
    assert((p + w + seq![' ']).drop_last() =~= p + w);
}

/// Three words with single spaces between them trim to themselves and
/// split back into the three words.
pub proof fn spaced3_words(a: Seq<char>, b: Seq<char>, c: Seq<char>)
    requires
        is_plain_word(a),
        is_plain_word(b),
        is_plain_word(c),
    ensures
        trim(spaced3(a, b, c)) == spaced3(a, b, c),
        words(trim(spaced3(a, b, c))) == seq![a, b, c],
{
    let s = spaced3(a, b, c);
    assert(s[0] == a[0]);
    assert(!is_white_space(s[0]));
    assert(trim_start(s) == s);
    assert(s.last() == c.last());
    assert(!is_white_space(c[c.len() - 1]));
    assert(trim_end(s) == s);
    let e = Seq::<char>::empty();
    assert(ws_run(e) == (Seq::<Seq<char>>::empty(), e));
    lemma_ws_run_word_space(e, a);
    assert(e + a =~= a);
    let p1 = a + seq![' '];
    assert(ws_run(p1) == (seq![a], e)) by {
        assert(e + a + seq![' '] =~= p1);
        assert(Seq::<Seq<char>>::empty().push(a) =~= seq![a]);
    }
    lemma_ws_run_word_space(p1, b);
    let p2 = p1 + b + seq![' '];
    assert(seq![a].push(b) =~= seq![a, b]);
    lemma_ws_run_word(p2, c);
    assert(p2 + c =~= s);
    assert(seq![a, b].push(c) =~= seq![a, b, c]);
}

/// One word trims to itself and splits into just that word.
pub proof fn one_word(w: Seq<char>)
    requires
        is_plain_word(w),
    ensures
        trim(w) == w,
        words(trim(w)) == seq![w],
{
    assert(!is_white_space(w[0]));
    assert(trim_start(w) == w);
    assert(!is_white_space(w[w.len() - 1]));
    assert(trim_end(w) == w);
    let e = Seq::<char>::empty();
    lemma_ws_run_word(e, w);
    assert(e + w =~= w);
    assert(Seq::<Seq<char>>::empty().push(w) =~= seq![w]);
}

} // verus!
