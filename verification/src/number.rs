//! Decimal and hexadecimal number syntax: what `str::parse`,
//! `from_str_radix(_, 16)` and the `{}` / `{:0NX}` formats accept and print.

use vstd::prelude::*;

use crate::text::{is_plain_word, is_white_space};

verus! {

// ───────────────────────────── Digits ────────────────────────────────────────

/// An ASCII decimal digit.
pub open spec fn is_digit(c: char) -> bool {
    '0' <= c && c <= '9'
}

/// An ASCII hexadecimal digit, either case.
pub open spec fn is_hex_digit(c: char) -> bool {
    ||| ('0' <= c && c <= '9')
    ||| ('a' <= c && c <= 'f')
    ||| ('A' <= c && c <= 'F')
}

/// The value of a hexadecimal digit.
pub open spec fn hex_value(c: char) -> int {
    if '0' <= c && c <= '9' {
        c as int - '0' as int
    } else if 'a' <= c && c <= 'f' {
        c as int - 'a' as int + 10
    } else {
        c as int - 'A' as int + 10
    }
}

/// The value of a string of decimal digits.
pub open spec fn decimal_value(s: Seq<char>) -> int
    decreases s.len(),
{
    if s.len() == 0 {
        0
    } else {
        decimal_value(s.drop_last()) * 10 + (s.last() as int - '0' as int)
    }
}

/// The value of a string of hexadecimal digits.
pub open spec fn hex_digits_value(s: Seq<char>) -> int
    decreases s.len(),
{
    if s.len() == 0 {
        0
    } else {
        hex_digits_value(s.drop_last()) * 16 + hex_value(s.last())
    }
}

pub open spec fn all_digits(s: Seq<char>) -> bool {
    forall|i: int| 0 <= i < s.len() ==> is_digit(#[trigger] s[i])
}

pub open spec fn all_hex_digits(s: Seq<char>) -> bool {
    forall|i: int| 0 <= i < s.len() ==> is_hex_digit(#[trigger] s[i])
}

/// The digits after an optional leading `+` (the unsigned-integer syntax of
/// `str::parse` and `from_str_radix`).
pub open spec fn unsigned_body(s: Seq<char>) -> Seq<char> {
    if s.len() > 0 && s[0] == '+' {
        s.drop_first()
    } else {
        s
    }
}

/// An ASCII hexadecimal digit, as a byte.
pub open spec fn is_hex_byte(c: u8) -> bool {
    ||| (0x30 <= c && c <= 0x39)
    ||| (0x61 <= c && c <= 0x66)
    ||| (0x41 <= c && c <= 0x46)
}

/// The value of a hexadecimal digit byte.
pub open spec fn hex_byte_value(c: u8) -> int {
    if c <= 0x39 {
        c - 0x30
    } else if c >= 0x61 {
        c - 0x61 + 10
    } else {
        c - 0x41 + 10
    }
}

/// The byte two ASCII hexadecimal digits spell, high digit first; `None`
/// unless both bytes are hex digits.
pub open spec fn hex_pair(a: u8, b: u8) -> Option<u8> {
    if is_hex_byte(a) && is_hex_byte(b) {
        Some((hex_byte_value(a) * 16 + hex_byte_value(b)) as u8)
    } else {
        None
    }
}

/// `str::parse::<i32>`: an optional sign, then at least one ASCII digit,
/// with the value in range.
pub open spec fn spec_parse_i32(s: Seq<char>) -> Option<i32> {
    let neg = s.len() > 0 && s[0] == '-';
    let body = if s.len() > 0 && (s[0] == '-' || s[0] == '+') {
        s.drop_first()
    } else {
        s
    };
    let v = if neg {
        -decimal_value(body)
    } else {
        decimal_value(body)
    };
    if body.len() > 0 && all_digits(body) && i32::MIN <= v <= i32::MAX {
        Some(v as i32)
    } else {
        None
    }
}

/// `str::parse::<i64>`: an optional sign, then at least one ASCII digit,
/// with the value in range.
pub open spec fn spec_parse_i64(s: Seq<char>) -> Option<i64> {
    let neg = s.len() > 0 && s[0] == '-';
    let body = if s.len() > 0 && (s[0] == '-' || s[0] == '+') {
        s.drop_first()
    } else {
        s
    };
    let v = if neg {
        -decimal_value(body)
    } else {
        decimal_value(body)
    };
    if body.len() > 0 && all_digits(body) && i64::MIN <= v <= i64::MAX {
        Some(v as i64)
    } else {
        None
    }
}

/// `str::parse::<usize>`: an optional `+`, then at least one ASCII digit,
/// with the value in range.
pub open spec fn spec_parse_usize(s: Seq<char>) -> Option<usize> {
    let body = unsigned_body(s);
    if body.len() > 0 && all_digits(body) && decimal_value(body) <= usize::MAX {
        Some(decimal_value(body) as usize)
    } else {
        None
    }
}

/// `u64::from_str_radix(s, 16)`: an optional `+`, then at least one
/// hexadecimal digit of either case, with the value in range.
pub open spec fn spec_parse_hex_u64(s: Seq<char>) -> Option<u64> {
    let body = unsigned_body(s);
    if body.len() > 0 && all_hex_digits(body) && hex_digits_value(body) <= u64::MAX {
        Some(hex_digits_value(body) as u64)
    } else {
        None
    }
}


/// `16^e`.
pub open spec fn pow16(e: nat) -> nat
    decreases e,
{
    if e == 0 {
        1
    } else {
        16 * pow16((e - 1) as nat)
    }
}

pub proof fn lemma_pow16_pos(e: nat)
    ensures
        pow16(e) > 0,
    decreases e,
{
    if e > 0 {
        lemma_pow16_pos((e - 1) as nat);
    }
}

pub proof fn lemma_pow16_add(a: nat, b: nat)
    ensures
        pow16(a + b) == pow16(a) * pow16(b),
    decreases b,
{
    if b == 0 {
        assert(pow16(0) == 1);
        assert(a + b == a);
        assert(pow16(a) * 1 == pow16(a));
    } else {
        lemma_pow16_add(a, (b - 1) as nat);
        assert(pow16(a + b) == 16 * pow16((a + b - 1) as nat));
        assert((a + b - 1) as nat == a + (b - 1) as nat);
        assert(pow16(a) * pow16(b) == pow16(a) * (16 * pow16((b - 1) as nat)));
        assert(pow16(a) * (16 * pow16((b - 1) as nat)) == 16 * (pow16(a) * pow16((b - 1) as nat))) by (nonlinear_arith);
    }
}

proof fn lemma_hex_digit_char(d: int)
    requires
        0 <= d < 16,
    ensures
        is_hex_digit(hex_upper_digit(d)),
        hex_value(hex_upper_digit(d)) == d,
        hex_upper_digit(d) != '+',
{
}

/// The fixed-width uppercase form has `width` hexadecimal digits whose
/// value is `v` modulo `16^width`.
pub proof fn lemma_hex_upper_fixed(v: nat, width: nat)
    ensures
        hex_upper_fixed(v, width).len() == width,
        all_hex_digits(hex_upper_fixed(v, width)),
        hex_digits_value(hex_upper_fixed(v, width)) == v % pow16(width),
    decreases width,
{
    if width > 0 {
        let w1 = (width - 1) as nat;
        lemma_hex_upper_fixed(v / 16, w1);
        lemma_hex_digit_char((v % 16) as int);
        let f = hex_upper_fixed(v, width);
        assert(f.drop_last() =~= hex_upper_fixed(v / 16, w1));
        assert forall|i: int| 0 <= i < f.len() implies is_hex_digit(#[trigger] f[i]) by {
            if i < f.len() - 1 {
                assert(f[i] == hex_upper_fixed(v / 16, w1)[i]);
            }
        }
        lemma_pow16_pos(w1);
        vstd::arithmetic::div_mod::lemma_mod_breakdown(v as int, 16, pow16(w1) as int);
    }
}

proof fn lemma_hex_lower_digit_char(d: int)
    requires
        0 <= d < 16,
    ensures
        is_hex_digit(hex_lower_digit(d)),
        hex_value(hex_lower_digit(d)) == d,
{
}

/// The fixed-width lowercase form has `width` hexadecimal digits whose
/// value is `v` modulo `16^width`.
pub proof fn lemma_hex_lower_fixed(v: nat, width: nat)
    ensures
        hex_lower_fixed(v, width).len() == width,
        all_hex_digits(hex_lower_fixed(v, width)),
        hex_digits_value(hex_lower_fixed(v, width)) == v % pow16(width),
    decreases width,
{
    if width > 0 {
        let w1 = (width - 1) as nat;
        lemma_hex_lower_fixed(v / 16, w1);
        lemma_hex_lower_digit_char((v % 16) as int);
        let f = hex_lower_fixed(v, width);
        assert(f.drop_last() =~= hex_lower_fixed(v / 16, w1));
        assert forall|i: int| 0 <= i < f.len() implies is_hex_digit(#[trigger] f[i]) by {
            if i < f.len() - 1 {
                assert(f[i] == hex_lower_fixed(v / 16, w1)[i]);
            }
        }
        lemma_pow16_pos(w1);
        vstd::arithmetic::div_mod::lemma_mod_breakdown(v as int, 16, pow16(w1) as int);
    }
}

/// Splitting the fixed-width form: the front digits are those of the
/// shifted value.
pub proof fn lemma_hex_fixed_split(v: nat, a: nat, b: nat)
    ensures
        hex_upper_fixed(v, a + b) == hex_upper_fixed(v / pow16(b), a) + hex_upper_fixed(v, b),
    decreases b,
{
    if b == 0 {
        assert(pow16(0) == 1);
        assert(v / 1 == v);
        assert(hex_upper_fixed(v, 0) =~= Seq::<char>::empty());
        assert(hex_upper_fixed(v, a) + Seq::<char>::empty() =~= hex_upper_fixed(v, a));
    } else {
        let b1 = (b - 1) as nat;
        lemma_hex_fixed_split(v / 16, a, b1);
        lemma_pow16_pos(b1);
        vstd::arithmetic::div_mod::lemma_div_denominator(v as int, 16, pow16(b1) as int);
        assert(pow16(b) == 16 * pow16(b1));
        assert((a + b - 1) as nat == a + b1);
        assert(hex_upper_fixed(v, a + b) =~= hex_upper_fixed(v / 16, a + b1).push(hex_upper_digit((v % 16) as int)));
        assert(hex_upper_fixed(v, b) =~= hex_upper_fixed(v / 16, b1).push(hex_upper_digit((v % 16) as int)));
        assert(hex_upper_fixed(v / pow16(b), a) + hex_upper_fixed(v, b) =~= (hex_upper_fixed((v / 16) / pow16(b1), a)
            + hex_upper_fixed(v / 16, b1)).push(hex_upper_digit((v % 16) as int)));
    }
}

/// Only the last `width` digits of the value show.
pub proof fn lemma_hex_fixed_mod(v: nat, width: nat)
    ensures
        hex_upper_fixed(v % pow16(width), width) == hex_upper_fixed(v, width),
    decreases width,
{
    if width > 0 {
        let w1 = (width - 1) as nat;
        lemma_pow16_pos(w1);
        let m = pow16(w1);
        vstd::arithmetic::div_mod::lemma_mod_breakdown(v as int, 16, m as int);
        let x = v % pow16(width);
        assert(x == 16 * ((v / 16) % m) + v % 16);
        assert(x / 16 == (v / 16) % m && x % 16 == v % 16) by {
            vstd::arithmetic::div_mod::lemma_fundamental_div_mod(x as int, 16);
            assert(0 <= v % 16 < 16);
            assert(0 <= x % 16 < 16);
            assert(x == 16 * ((v / 16) % m) + v % 16);
            assert(x == 16 * (x / 16) + x % 16);
            assert(16 * ((v / 16) % m - x / 16) == x % 16 - v % 16);
            assert(((v / 16) % m - x / 16) == 0) by (nonlinear_arith)
                requires
                    16 * ((v / 16) % m - x / 16) == x % 16 - v % 16,
                    -16 < x % 16 - v % 16 < 16,
            ;
        }
        lemma_hex_fixed_mod(v / 16, w1);
    }
}

/// Concatenated digit strings: the value of the front part shifts by the
/// length of the back part.
pub proof fn lemma_hex_value_concat(a: Seq<char>, b: Seq<char>)
    ensures
        hex_digits_value(a + b) == hex_digits_value(a) * pow16(b.len()) + hex_digits_value(b),
    decreases b.len(),
{
    if b.len() == 0 {
        assert(a + b =~= a);
        assert(pow16(0) == 1);
        assert(hex_digits_value(a) * 1 == hex_digits_value(a));
    } else {
        lemma_hex_value_concat(a, b.drop_last());
        assert(pow16(b.len()) == 16 * pow16((b.len() - 1) as nat));
        assert((a + b).drop_last() =~= a + b.drop_last());
        let x = hex_digits_value(a);
        let y = hex_digits_value(b.drop_last());
        let p = pow16((b.len() - 1) as nat);
        assert((x * p + y) * 16 + hex_value(b.last()) == x * (16 * p) + (y * 16 + hex_value(b.last())))
            by (nonlinear_arith);
    }
}

pub proof fn lemma_decimal_prefix(s: Seq<char>, k: int)
    requires
        all_digits(s),
        0 <= k <= s.len(),
    ensures
        0 <= decimal_value(s.take(k)) <= decimal_value(s),
    decreases s.len(),
{
    if s.len() > 0 {
        if k == s.len() {
            assert(s.take(k) =~= s);
            lemma_decimal_prefix(s.drop_last(), k - 1);
            assert(s.drop_last().take(k - 1) =~= s.drop_last());
        } else {
            lemma_decimal_prefix(s.drop_last(), k);
            assert(s.drop_last().take(k) =~= s.take(k));
        }
    } else {
        assert(s.take(k) =~= s);
    }
}

pub proof fn lemma_hex_prefix(s: Seq<char>, k: int)
    requires
        all_hex_digits(s),
        0 <= k <= s.len(),
    ensures
        0 <= hex_digits_value(s.take(k)) <= hex_digits_value(s),
    decreases s.len(),
{
    if s.len() > 0 {
        if k == s.len() {
            assert(s.take(k) =~= s);
            lemma_hex_prefix(s.drop_last(), k - 1);
            assert(s.drop_last().take(k - 1) =~= s.drop_last());
        } else {
            lemma_hex_prefix(s.drop_last(), k);
            assert(s.drop_last().take(k) =~= s.take(k));
        }
    } else {
        assert(s.take(k) =~= s);
    }
}

/// The decimal value of `s[from..]`, saturating at `cap + 1`: `None` when
/// some character is not a digit.
fn decimal_capped(s: &Vec<char>, from: usize, cap: u128) -> (r: Option<u128>)
    requires
        from <= s@.len(),
        cap < u128::MAX / 16,
    ensures
        match r {
            Some(v) => all_digits(s@.skip(from as int)) && (v <= cap ==> v == decimal_value(
                s@.skip(from as int),
            )) && (v > cap ==> decimal_value(s@.skip(from as int)) > cap),
            None => !all_digits(s@.skip(from as int)),
        },
{
    let ghost body = s@.skip(from as int);
    let mut acc: u128 = 0;
    let mut i = from;
    while i < s.len()
        invariant
            from <= i <= s@.len(),
            body == s@.skip(from as int),
            all_digits(body.take(i - from)),
            acc <= cap ==> acc == decimal_value(body.take(i - from)),
            acc > cap ==> decimal_value(body.take(i - from)) > cap && acc == cap + 1,
            cap < u128::MAX / 16,
        decreases s.len() - i,
    {
        let c = s[i];
        assert(body[i - from] == c);
        if !('0' <= c && c <= '9') {
            assert(!is_digit(body[i - from]));
            return None;
        }
        assert(body.take(i + 1 - from).drop_last() =~= body.take(i - from));
        proof {
            lemma_decimal_prefix(body.take(i + 1 - from), i - from);
        }
        if acc <= cap {
            let d = (c as u32 - '0' as u32) as u128;
            acc = acc * 10 + d;
            if acc > cap {
                acc = cap + 1;
            }
        }
        i += 1;
    }
    assert(body.take(s@.len() - from) =~= body);
    Some(acc)
}

/// The hexadecimal value of `s[from..]`, saturating at `cap + 1`: `None`
/// when some character is not a hexadecimal digit.
fn hex_capped(s: &Vec<char>, from: usize, cap: u128) -> (r: Option<u128>)
    requires
        from <= s@.len(),
        cap < u128::MAX / 32,
    ensures
        match r {
            Some(v) => all_hex_digits(s@.skip(from as int)) && (v <= cap ==> v == hex_digits_value(
                s@.skip(from as int),
            )) && (v > cap ==> hex_digits_value(s@.skip(from as int)) > cap),
            None => !all_hex_digits(s@.skip(from as int)),
        },
{
    let ghost body = s@.skip(from as int);
    let mut acc: u128 = 0;
    let mut i = from;
    while i < s.len()
        invariant
            from <= i <= s@.len(),
            body == s@.skip(from as int),
            all_hex_digits(body.take(i - from)),
            acc <= cap ==> acc == hex_digits_value(body.take(i - from)),
            acc > cap ==> hex_digits_value(body.take(i - from)) > cap && acc == cap + 1,
            cap < u128::MAX / 32,
        decreases s.len() - i,
    {
        let c = s[i];
        assert(body[i - from] == c);
        let d: u128 = if '0' <= c && c <= '9' {
            (c as u32 - '0' as u32) as u128
        } else if 'a' <= c && c <= 'f' {
            (c as u32 - 'a' as u32 + 10) as u128
        } else if 'A' <= c && c <= 'F' {
            (c as u32 - 'A' as u32 + 10) as u128
        } else {
            assert(!is_hex_digit(body[i - from]));
            return None;
        };
        assert(body.take(i + 1 - from).drop_last() =~= body.take(i - from));
        proof {
            lemma_hex_prefix(body.take(i + 1 - from), i - from);
        }
        if acc <= cap {
            acc = acc * 16 + d;
            if acc > cap {
                acc = cap + 1;
            }
        }
        i += 1;
    }
    assert(body.take(s@.len() - from) =~= body);
    Some(acc)
}

/// `str::parse::<i32>`.
pub fn parse_i32(s: &Vec<char>) -> (r: Option<i32>)
    ensures
        r == spec_parse_i32(s@),
{
    let signed = s.len() > 0 && (s[0] == '-' || s[0] == '+');
    let neg = s.len() > 0 && s[0] == '-';
    let from: usize = if signed {
        1
    } else {
        0
    };
    proof {
        if signed {
            assert(s@.skip(1) =~= s@.drop_first());
        } else {
            assert(s@.skip(0) =~= s@);
        }
    }
    if from == s.len() {
        return None;
    }
    match decimal_capped(s, from, 0x8000_0000) {
        None => None,
        Some(m) => {
            if m > 0x8000_0000 {
                None
            } else if neg {
                let v = 0i64 - (m as i64);
                Some(v as i32)
            } else if m == 0x8000_0000 {
                None
            } else {
                Some(m as i32)
            }
        },
    }
}

/// `str::parse::<i64>`.
pub fn parse_i64(s: &Vec<char>) -> (r: Option<i64>)
    ensures
        r == spec_parse_i64(s@),
{
    let signed = s.len() > 0 && (s[0] == '-' || s[0] == '+');
    let neg = s.len() > 0 && s[0] == '-';
    let from: usize = if signed {
        1
    } else {
        0
    };
    proof {
        if signed {
            assert(s@.skip(1) =~= s@.drop_first());
        } else {
            assert(s@.skip(0) =~= s@);
        }
    }
    if from == s.len() {
        return None;
    }
    match decimal_capped(s, from, 0x8000_0000_0000_0000) {
        None => None,
        Some(m) => {
            if m > 0x8000_0000_0000_0000 {
                None
            } else if neg {
                let v = 0i128 - (m as i128);
                Some(v as i64)
            } else if m == 0x8000_0000_0000_0000 {
                None
            } else {
                Some(m as i64)
            }
        },
    }
}

/// `str::parse::<usize>`.
pub fn parse_usize(s: &Vec<char>) -> (r: Option<usize>)
    ensures
        r == spec_parse_usize(s@),
{
    let from: usize = if s.len() > 0 && s[0] == '+' {
        1
    } else {
        0
    };
    proof {
        if from == 1 {
            assert(s@.skip(1) =~= s@.drop_first());
        } else {
            assert(s@.skip(0) =~= s@);
        }
    }
    if from == s.len() {
        return None;
    }
    match decimal_capped(s, from, usize::MAX as u128) {
        None => None,
        Some(m) => {
            if m > usize::MAX as u128 {
                None
            } else {
                Some(m as usize)
            }
        },
    }
}

/// `u64::from_str_radix(s, 16)`.
pub fn parse_hex_u64(s: &Vec<char>) -> (r: Option<u64>)
    ensures
        r == spec_parse_hex_u64(s@),
{
    let from: usize = if s.len() > 0 && s[0] == '+' {
        1
    } else {
        0
    };
    proof {
        if from == 1 {
            assert(s@.skip(1) =~= s@.drop_first());
        } else {
            assert(s@.skip(0) =~= s@);
        }
    }
    if from == s.len() {
        return None;
    }
    match hex_capped(s, from, u64::MAX as u128) {
        None => None,
        Some(m) => {
            if m > u64::MAX as u128 {
                None
            } else {
                Some(m as u64)
            }
        },
    }
}

// ───────────────────────────── Printing ──────────────────────────────────────

/// The uppercase hexadecimal digit for `d < 16`.
pub open spec fn hex_upper_digit(d: int) -> char {
    if d < 10 {
        (d + '0' as int) as char
    } else {
        (d - 10 + 'A' as int) as char
    }
}

/// The lowercase hexadecimal digit for `d < 16`.
pub open spec fn hex_lower_digit(d: int) -> char {
    if d < 10 {
        (d + '0' as int) as char
    } else {
        (d - 10 + 'a' as int) as char
    }
}

/// The last `width` uppercase hexadecimal digits of `v`, zero-padded
/// (`{:0<width>X}` for a value below `16^width`).
pub open spec fn hex_upper_fixed(v: nat, width: nat) -> Seq<char>
    decreases width,
{
    if width == 0 {
        Seq::empty()
    } else {
        hex_upper_fixed(v / 16, (width - 1) as nat).push(hex_upper_digit((v % 16) as int))
    }
}

/// The last `width` lowercase hexadecimal digits of `v`, zero-padded.
pub open spec fn hex_lower_fixed(v: nat, width: nat) -> Seq<char>
    decreases width,
{
    if width == 0 {
        Seq::empty()
    } else {
        hex_lower_fixed(v / 16, (width - 1) as nat).push(hex_lower_digit((v % 16) as int))
    }
}

/// The decimal representation of `n` without leading zeros (`{}`).
pub open spec fn decimal_string(n: nat) -> Seq<char>
    decreases n,
{
    if n < 10 {
        seq![(n + '0' as int) as char]
    } else {
        decimal_string(n / 10).push(((n % 10) + '0' as int) as char)
    }
}

/// The decimal representation of a signed integer (`{}`).
pub open spec fn signed_decimal_string(n: int) -> Seq<char> {
    if n < 0 {
        seq!['-'] + decimal_string((-n) as nat)
    } else {
        decimal_string(n as nat)
    }
}

/// The uppercase hexadecimal digit for `d < 16`.
pub fn hex_upper(d: u64) -> (c: char)
    requires
        d < 16,
    ensures
        c == hex_upper_digit(d as int),
{
    let table: [char; 16] = ['0', '1', '2', '3', '4', '5', '6', '7', '8', '9', 'A', 'B', 'C', 'D', 'E', 'F'];
    table[d as usize]
}

/// The lowercase hexadecimal digit for `d < 16`.
pub fn hex_lower(d: u64) -> (c: char)
    requires
        d < 16,
    ensures
        c == hex_lower_digit(d as int),
{
    let table: [char; 16] = ['0', '1', '2', '3', '4', '5', '6', '7', '8', '9', 'a', 'b', 'c', 'd', 'e', 'f'];
    table[d as usize]
}

/// Appends `{:0<width>X}` of `v` to `out`.
pub fn push_hex_upper(out: &mut Vec<char>, v: u64, width: usize)
    requires
        width <= 16,
    ensures
        final(out)@ == old(out)@ + hex_upper_fixed(v as nat, width as nat),
    decreases width,
{
    if width > 0 {
        push_hex_upper(out, v / 16, width - 1);
        out.push(hex_upper(v % 16));
    }
}

/// Appends `{:0<width>x}` of `v` to `out`.
pub fn push_hex_lower(out: &mut Vec<char>, v: u64, width: usize)
    requires
        width <= 16,
    ensures
        final(out)@ == old(out)@ + hex_lower_fixed(v as nat, width as nat),
    decreases width,
{
    if width > 0 {
        push_hex_lower(out, v / 16, width - 1);
        out.push(hex_lower(v % 16));
    }
}

/// Lowercase hex of a byte string, two digits per byte (`{:02x}` each).
pub open spec fn hex_lower_bytes(b: Seq<u8>) -> Seq<char>
    decreases b.len(),
{
    if b.len() == 0 {
        seq![]
    } else {
        hex_lower_bytes(b.drop_last()) + hex_lower_fixed(b.last() as nat, 2)
    }
}

/// Appends `{:02x}` of every byte of `b` to `out`.
pub fn push_hex_bytes(out: &mut Vec<char>, b: &[u8])
    ensures
        final(out)@ == old(out)@ + hex_lower_bytes(b@),
{
    for i in 0..b.len()
        invariant
            out@ == old(out)@ + hex_lower_bytes(b@.take(i as int)),
    {
        push_hex_lower(out, b[i] as u64, 2);
        assert(b@.take(i + 1).drop_last() =~= b@.take(i as int));
    }
    assert(b@.take(b.len() as int) =~= b@);
}

/// Appends the decimal representation of `n` to `out`.
pub fn push_decimal(out: &mut Vec<char>, n: u64)
    ensures
        final(out)@ == old(out)@ + decimal_string(n as nat),
    decreases n,
{
    if n >= 10 {
        push_decimal(out, n / 10);
    }
    let d = n % 10;
    let table: [char; 10] = ['0', '1', '2', '3', '4', '5', '6', '7', '8', '9'];
    out.push(table[d as usize]);
}

/// Appends the decimal representation of the signed `n` to `out`.
pub fn push_signed_decimal(out: &mut Vec<char>, n: i64)
    ensures
        final(out)@ == old(out)@ + signed_decimal_string(n as int),
{
    if n < 0 {
        out.push('-');
        let m: u64 = if n == i64::MIN {
            0x8000_0000_0000_0000
        } else {
            (0 - n) as u64
        };
        push_decimal(out, m);
        assert(old(out)@ + signed_decimal_string(n as int) =~= old(out)@.push('-') + decimal_string(m as nat));
    } else {
        push_decimal(out, n as u64);
    }
}

/// The decimal representation of `n` is a non-empty run of digits whose
/// value is `n`.
pub proof fn lemma_decimal_string_value(n: nat)
    ensures
        decimal_string(n).len() > 0,
        all_digits(decimal_string(n)),
        decimal_value(decimal_string(n)) == n,
    decreases n,
{
    let s = decimal_string(n);
    if n < 10 {
        assert(s.drop_last() =~= Seq::<char>::empty());
        assert(s.last() as int == n + '0' as int);
        assert(decimal_value(s) == decimal_value(s.drop_last()) * 10 + (s.last() as int - '0' as int));
        assert(decimal_value(s.drop_last()) == 0);
    } else {
        lemma_decimal_string_value(n / 10);
        assert(s.drop_last() =~= decimal_string(n / 10));
        assert(s.last() as int == (n % 10) + '0' as int);
        assert((n / 10) * 10 + n % 10 == n);
        assert(decimal_value(s) == decimal_value(s.drop_last()) * 10 + (s.last() as int - '0' as int));
        assert(decimal_value(s.drop_last()) == n / 10);
        assert forall|i: int| 0 <= i < s.len() implies is_digit(#[trigger] s[i]) by {
            if i < s.len() - 1 {
                assert(s[i] == decimal_string(n / 10)[i]);
            }
        }
    }
}

/// `str::parse::<i64>` reads back what `{}` prints for an `i64`.
pub proof fn lemma_parse_i64_decimal(n: i64)
    ensures
        spec_parse_i64(signed_decimal_string(n as int)) == Some(n),
{
    let s = signed_decimal_string(n as int);
    if n < 0 {
        lemma_decimal_string_value((-n) as nat);
        assert(s.drop_first() =~= decimal_string((-n) as nat));
    } else {
        lemma_decimal_string_value(n as nat);
        let d = decimal_string(n as nat);
        assert(d[0] != '-' && d[0] != '+') by {
            assert(is_digit(d[0]));
        }
    }
}

/// The decimal text of an `i32` reads back as it (`str::parse::<i32>`), and
/// is one word: no white space in it.
pub proof fn lemma_parse_i32_decimal(n: i32)
    ensures
        spec_parse_i32(signed_decimal_string(n as int)) == Some(n),
        is_plain_word(signed_decimal_string(n as int)),
{
    let s = signed_decimal_string(n as int);
    if n < 0 {
        lemma_decimal_string_value((-n) as nat);
        assert(s.drop_first() =~= decimal_string((-n) as nat));
        assert forall|i: int| 0 <= i < s.len() implies !is_white_space(#[trigger] s[i]) by {
            if i > 0 {
                assert(s[i] == decimal_string((-n) as nat)[i - 1]);
                assert(is_digit(decimal_string((-n) as nat)[i - 1]));
            }
        }
    } else {
        lemma_decimal_string_value(n as nat);
        let d = decimal_string(n as nat);
        assert(d[0] != '-' && d[0] != '+') by {
            assert(is_digit(d[0]));
        }
        assert forall|i: int| 0 <= i < s.len() implies !is_white_space(#[trigger] s[i]) by {
            assert(is_digit(d[i]));
        }
    }
}

} // verus!
