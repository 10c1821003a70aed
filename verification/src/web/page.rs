//! Page text: thousands separators, and the session token a page URL
//! carries in its query.

use vstd::prelude::*;
use vstd::string::StringSliceAdditionalSpecFns;
use vstd::utf8::{encode_utf8, is_ascii_chars, is_ascii_chars_encode_utf8};

use crate::accounts::oidc::{is_unreserved, percent_escape, url_encoded, url_encoded_text};
use crate::number::{decimal_string, hex_pair, hex_upper_digit, hex_upper_fixed, push_decimal};
use crate::text::{chars_of, string_of};

verus! {

/// `digits` with a comma before every digit that has a positive multiple of
/// three digits after it, built digit by digit from the left (the first
/// `k` digits).
pub open spec fn grouped_prefix(digits: Seq<char>, k: int) -> Seq<char>
    decreases k,
{
    if k <= 0 {
        seq![]
    } else {
        grouped_prefix(digits, k - 1) + (if k - 1 > 0 && (digits.len() - (k - 1)) % 3 == 0 {
            seq![',']
        } else {
            seq![]
        }) + seq![digits[k - 1]]
    }
}

/// An integer with thousands separators (`1234` is `1,234`).
pub open spec fn thousands_text(n: int) -> Seq<char> {
    let digits = decimal_string(if n < 0 {
        (-n) as nat
    } else {
        n as nat
    });
    let body = grouped_prefix(digits, digits.len() as int);
    if n < 0 {
        seq!['-'] + body
    } else {
        body
    }
}

/// Pretty-prints an integer with thousands separators.
pub fn format_thousands(n: i32) -> (s: String)
    ensures
        s@ == thousands_text(n as int),
{
    let neg = n < 0;
    let m: u64 = if neg {
        (0i64 - n as i64) as u64
    } else {
        n as u64
    };
    let mut digits: Vec<char> = Vec::new();
    push_decimal(&mut digits, m);
    assert(digits@ =~= decimal_string(m as nat));
    let mut out: Vec<char> = Vec::new();
    if neg {
        out.push('-');
    }
    let ghost start = out@;
    for i in 0..digits.len()
        invariant
            out@ == start + grouped_prefix(digits@, i as int),
    {
        if i > 0 && (digits.len() - i) % 3 == 0 {
            out.push(',');
        }
        out.push(digits[i]);
        assert(start + grouped_prefix(digits@, i + 1) =~= out@);
    }
    proof {
        if neg {
            assert(start =~= seq!['-']);
        } else {
            assert(start =~= Seq::<char>::empty());
        }
    }
    string_of(&out)
}

/// What `decodeURIComponent` (as the page implements it) makes of bytes:
/// `%` and two hex digits is that byte, `+` is a space, any other byte
/// stands for the character of that code.
pub open spec fn uri_decoded(b: Seq<u8>) -> Seq<char>
    decreases b.len(),
{
    if b.len() == 0 {
        seq![]
    } else if b[0] == 0x25 && b.len() > 2 && hex_pair(b[1], b[2]) is Some {
        seq![(hex_pair(b[1], b[2])->0) as char] + uri_decoded(b.skip(3))
    } else if b[0] == 0x2b {
        seq![' '] + uri_decoded(b.skip(1))
    } else {
        seq![b[0] as char] + uri_decoded(b.skip(1))
    }
}

/// Decodes `%XX` escapes and `+` in a URL component.
pub fn decode_uri_component(s: &str) -> (r: String)
    ensures
        r@ == uri_decoded(s.spec_bytes()),
{
    let bytes = s.as_bytes();
    let mut out: Vec<char> = Vec::new();
    let mut i: usize = 0;
    assert(bytes@.skip(0) =~= bytes@);
    assert(out@ + uri_decoded(bytes@) =~= uri_decoded(bytes@));
    while i < bytes.len()
        invariant
            bytes@ == s.spec_bytes(),
            i <= bytes@.len(),
            out@ + uri_decoded(bytes@.skip(i as int)) == uri_decoded(bytes@),
        decreases bytes.len() - i,
    {
        let rest = Ghost(bytes@.skip(i as int));
        let b = bytes[i];
        if b == 0x25 && bytes.len() - i > 2 {
            let x = bytes[i + 1];
            let y = bytes[i + 2];
            let xd = (0x30 <= x && x <= 0x39) || (0x61 <= x && x <= 0x66) || (0x41 <= x && x <= 0x46);
            let yd = (0x30 <= y && y <= 0x39) || (0x61 <= y && y <= 0x66) || (0x41 <= y && y <= 0x46);
            if xd && yd {
                let yv: u8 = if y <= 0x39 {
                    y - 0x30
                } else if y >= 0x61 {
                    y - 0x61 + 10
                } else {
                    y - 0x41 + 10
                };
                let xv: u8 = if x <= 0x39 {
                    x - 0x30
                } else if x >= 0x61 {
                    x - 0x61 + 10
                } else {
                    x - 0x41 + 10
                };
                let v: u8 = xv * 16 + yv;
                assert(rest@[1] == x && rest@[2] == y);
                assert(hex_pair(x, y) == Some(v));
                out.push(v as char);
                assert(rest@.skip(3) =~= bytes@.skip(i + 3));
                i += 3;
                continue;
            }
            assert(rest@[1] == x && rest@[2] == y);
            assert(hex_pair(x, y) is None);
        }
        if b == 0x2b {
            out.push(' ');
        } else {
            out.push(b as char);
        }
        assert(rest@.skip(1) =~= bytes@.skip(i + 1));
        i += 1;
    }
    proof {
        assert(bytes@.skip(i as int) =~= Seq::<u8>::empty());
        assert(out@ + Seq::<char>::empty() =~= out@);
    }
    string_of(&out)
}

/// The length of the text before the first `&` (all of it when there is
/// none).
pub open spec fn first_piece_len(q: Seq<char>) -> nat
    decreases q.len(),
{
    if q.len() == 0 || q[0] == '&' {
        0
    } else {
        1 + first_piece_len(q.skip(1))
    }
}

proof fn lemma_first_piece_len(q: Seq<char>, k: int)
    requires
        0 <= k <= q.len(),
        k == q.len() || q[k] == '&',
        forall|j: int| 0 <= j < k ==> q[j] != '&',
    ensures
        first_piece_len(q) == k,
    decreases k,
{
    if k > 0 {
        lemma_first_piece_len(q.skip(1), k - 1);
    }
}

proof fn lemma_first_piece_bound(q: Seq<char>)
    ensures
        first_piece_len(q) <= q.len(),
    decreases q.len(),
{
    if q.len() > 0 && q[0] != '&' {
        lemma_first_piece_bound(q.skip(1));
    }
}

/// A query piece naming the token: it starts with `token=`.
pub open spec fn is_token_piece(piece: Seq<char>) -> bool {
    piece.len() >= 6 && piece.take(6) == seq!['t', 'o', 'k', 'e', 'n', '=']
}

/// The `token=` value of a query text (without its `?`): the first of the
/// `&`-separated pieces that starts with `token=`, the rest of it decoded.
pub open spec fn query_token(q: Seq<char>) -> Option<Seq<char>>
    decreases q.len(),
{
    let n = first_piece_len(q);
    let piece = q.take(n as int);
    if is_token_piece(piece) {
        Some(uri_decoded(encode_utf8(piece.skip(6))))
    } else if n < q.len() {
        query_token(q.skip(n as int + 1))
    } else {
        None
    }
}

/// The query text without a leading `?`.
pub open spec fn query_body(search: Seq<char>) -> Seq<char> {
    if search.len() > 0 && search[0] == '?' {
        search.skip(1)
    } else {
        search
    }
}

/// The session token a page's query string (`location.search`) carries.
pub fn token_from_query(search: &str) -> (r: Option<String>)
    ensures
        match query_token(query_body(search@)) {
            Some(t) => r matches Some(s) && s@ == t,
            None => r is None,
        },
{
    let all = chars_of(search);
    let from: usize = if all.len() > 0 && all[0] == '?' {
        1
    } else {
        0
    };
    let ghost q = query_body(search@);
    proof {
        if from == 1 {
            assert(q =~= all@.skip(1));
        } else {
            assert(q =~= all@.skip(0));
        }
    }
    let mut st: usize = from;
    let mut i: usize = from;
    while i <= all.len()
        invariant
            q == query_body(search@),
            q == all@.skip(from as int),
            all@ == search@,
            from <= st <= i <= all@.len(),
            forall|j: int| st <= j < i ==> all@[j] != '&',
            query_token(q) == query_token(all@.skip(st as int)),
        decreases all.len() + 1 - i,
    {
        if i == all.len() || all[i] == '&' {
            let ghost rest = all@.skip(st as int);
            proof {
                assert forall|j: int| 0 <= j < i - st implies rest[j] != '&' by {
                    assert(rest[j] == all@[st + j]);
                }
                if i < all.len() {
                    assert(rest[i - st] == all@[i as int]);
                }
                lemma_first_piece_len(rest, i - st);
                assert(rest.take(i - st) =~= all@.subrange(st as int, i as int));
            }
            let mut piece: Vec<char> = Vec::new();
            let mut k: usize = st;
            while k < i
                invariant
                    st <= k <= i <= all@.len(),
                    piece@ == all@.subrange(st as int, k as int),
                decreases i - k,
            {
                piece.push(all[k]);
                assert(all@.subrange(st as int, k + 1) =~= piece@);
                k += 1;
            }
            if piece.len() >= 6 && piece[0] == 't' && piece[1] == 'o' && piece[2] == 'k' && piece[3] == 'e'
                && piece[4] == 'n' && piece[5] == '=' {
                let mut tail: Vec<char> = Vec::new();
                let mut m: usize = 6;
                while m < piece.len()
                    invariant
                        6 <= m <= piece@.len(),
                        tail@ == piece@.subrange(6, m as int),
                    decreases piece.len() - m,
                {
                    tail.push(piece[m]);
                    assert(piece@.subrange(6, m + 1) =~= tail@);
                    m += 1;
                }
                assert(piece@.take(6) =~= seq!['t', 'o', 'k', 'e', 'n', '=']);
                assert(tail@ =~= piece@.skip(6));
                let t = string_of(&tail);
                assert(rest.take(first_piece_len(rest) as int) == piece@);
                return Some(decode_uri_component(t.as_str()));
            }
            proof {
                if piece@.len() >= 6 && piece@.take(6) == seq!['t', 'o', 'k', 'e', 'n', '='] {
                    assert(piece@.take(6)[0] == 't');
                    assert(piece@.take(6)[1] == 'o');
                    assert(piece@.take(6)[2] == 'k');
                    assert(piece@.take(6)[3] == 'e');
                    assert(piece@.take(6)[4] == 'n');
                    assert(piece@.take(6)[5] == '=');
                }
            }
            if i == all.len() {
                assert(rest.take(first_piece_len(rest) as int) == piece@);
                return None;
            }
            proof {
                assert(rest.skip(i - st + 1) =~= all@.skip(i + 1));
            }
            st = i + 1;
        }
        i += 1;
    }
    None
}

// ───────────────────────────── Round trip ────────────────────────────────────

/// The bytes of an ASCII text.
spec fn ascii_bytes(s: Seq<char>) -> Seq<u8> {
    Seq::new(s.len(), |i: int| s[i] as u8)
}

proof fn lemma_url_encoded_front(b: Seq<u8>)
    requires
        b.len() > 0,
    ensures
        url_encoded(b) == percent_escape(b[0]) + url_encoded(b.skip(1)),
    decreases b.len(),
{
    if b.len() == 1 {
        assert(b.drop_last() =~= Seq::<u8>::empty());
        assert(b.skip(1) =~= Seq::<u8>::empty());
        assert(percent_escape(b[0]) + Seq::<char>::empty() =~= percent_escape(b[0]));
    } else {
        lemma_url_encoded_front(b.drop_last());
        assert(b.drop_last().skip(1) =~= b.skip(1).drop_last());
        assert(b.skip(1).last() == b.last());
        assert(b.drop_last()[0] == b[0]);
    }
}

proof fn lemma_escape_ascii(x: u8)
    ensures
        is_ascii_chars(percent_escape(x)),
        percent_escape(x).len() >= 1,
{
    reveal_with_fuel(hex_upper_fixed, 3);
}

proof fn lemma_url_encoded_ascii(b: Seq<u8>)
    ensures
        is_ascii_chars(url_encoded(b)),
    decreases b.len(),
{
    if b.len() > 0 {
        lemma_url_encoded_ascii(b.drop_last());
        lemma_escape_ascii(b.last());
        let x = url_encoded(b.drop_last());
        let y = percent_escape(b.last());
        assert forall|i: int| 0 <= i < (x + y).len() implies '\0' <= #[trigger] (x + y)[i] <= '\u{7f}' by {
            if i < x.len() {
                assert((x + y)[i] == x[i]);
            } else {
                assert((x + y)[i] == y[i - x.len()]);
            }
        }
    }
}

/// Decoding what encoding one byte gave, followed by anything, gives that
/// byte's character first.
proof fn lemma_decode_escape(x: u8, rest: Seq<u8>)
    ensures
        uri_decoded(ascii_bytes(percent_escape(x)) + rest) == seq![x as char] + uri_decoded(rest),
{
    reveal_with_fuel(hex_upper_fixed, 3);
    let e = ascii_bytes(percent_escape(x));
    let t = e + rest;
    if is_unreserved(x) {
        assert(e[0] == x);
        assert(t[0] == x);
        assert(t.skip(1) =~= rest);
    } else {
        let hi = hex_upper_digit(x as int / 16);
        let lo = hex_upper_digit(x as int % 16);
        assert(percent_escape(x) =~= seq!['%', hi, lo]);
        assert(t[0] == 0x25u8);
        assert(t[1] == hi as u8);
        assert(t[2] == lo as u8);
        assert(hex_pair(hi as u8, lo as u8) == Some(x));
        assert(t.skip(3) =~= rest);
    }
}

proof fn lemma_decode_encoded(b: Seq<u8>)
    ensures
        uri_decoded(ascii_bytes(url_encoded(b))) == Seq::new(b.len(), |i: int| b[i] as char),
    decreases b.len(),
{
    if b.len() == 0 {
        assert(ascii_bytes(url_encoded(b)) =~= Seq::<u8>::empty());
        assert(Seq::new(b.len(), |i: int| b[i] as char) =~= Seq::<char>::empty());
    } else {
        lemma_url_encoded_front(b);
        let rest = b.skip(1);
        lemma_decode_encoded(rest);
        let e0 = percent_escape(b[0]);
        let er = url_encoded(rest);
        assert(ascii_bytes(e0 + er) =~= ascii_bytes(e0) + ascii_bytes(er));
        lemma_decode_escape(b[0], ascii_bytes(er));
        assert(Seq::new(b.len(), |i: int| b[i] as char) =~= seq![b[0] as char] + Seq::new(
            rest.len(),
            |i: int| rest[i] as char,
        ));
    }
}

/// Decoding the percent-encoding of any bytes gives back each byte, as the
/// character of that code.
pub proof fn url_encoding_round_trips_bytes(b: Seq<u8>)
    ensures
        uri_decoded(encode_utf8(url_encoded(b))) == Seq::new(b.len(), |i: int| b[i] as char),
        is_ascii_chars(url_encoded(b)),
{
    lemma_decode_encoded(b);
    lemma_url_encoded_ascii(b);
    is_ascii_chars_encode_utf8(url_encoded(b));
    assert(encode_utf8(url_encoded(b)) =~= ascii_bytes(url_encoded(b)));
}

/// How many bytes percent-encoding escapes.
pub open spec fn escaped_count(b: Seq<u8>) -> nat
    decreases b.len(),
{
    if b.len() == 0 {
        0
    } else {
        escaped_count(b.drop_last()) + (if is_unreserved(b.last()) {
            0nat
        } else {
            1nat
        })
    }
}

/// Percent-encoding keeps each unreserved byte and writes three characters
/// for every other one.
pub proof fn url_encoding_length(b: Seq<u8>)
    ensures
        url_encoded(b).len() == b.len() + 2 * escaped_count(b),
    decreases b.len(),
{
    reveal_with_fuel(hex_upper_fixed, 3);
    if b.len() > 0 {
        url_encoding_length(b.drop_last());
    }
}

/// Decoding a percent-encoded ASCII text gives the text back.
pub proof fn url_encoding_round_trips(s: Seq<char>)
    requires
        is_ascii_chars(s),
    ensures
        uri_decoded(encode_utf8(url_encoded_text(s))) == s,
{
    let b = encode_utf8(s);
    is_ascii_chars_encode_utf8(s);
    assert forall|i: int| 0 <= i < b.len() implies #[trigger] b[i] < 0x80 by {
        assert(s[i] as u8 == b[i]);
        assert('\0' <= s[i] <= '\u{7f}');
    }
    lemma_url_encoded_ascii(b);
    let e = url_encoded(b);
    is_ascii_chars_encode_utf8(e);
    assert(encode_utf8(e) =~= ascii_bytes(e));
    lemma_decode_encoded(b);
    assert forall|i: int| 0 <= i < s.len() implies s[i] == (b[i] as char) by {
        assert(s[i] as u8 == b[i]);
        assert('\0' <= s[i] <= '\u{7f}');
    }
    assert(Seq::new(b.len(), |i: int| b[i] as char) =~= s);
}

} // verus!
