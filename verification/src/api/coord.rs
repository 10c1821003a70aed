//! Axial hex coordinates of the wire protocol.

use vstd::prelude::*;

use crate::number::{push_signed_decimal, signed_decimal_string};
use crate::text::string_of;

verus! {

/// Axial hex coordinate (cube coordinates with `q + r + s == 0`).
#[derive(Debug, Clone, Copy, PartialEq, Eq, Hash, PartialOrd, Ord)]
pub struct HexCoord {
    pub q: i32,
    pub r: i32,
    pub s: i32,
}

impl HexCoord {
    /// The coordinate with axial parts `q` and `r`; `s` is `-q - r`.
    pub fn from_qr(q: i32, r: i32) -> (c: HexCoord)
        requires
            q != i32::MIN,
            i32::MIN <= -q - r <= i32::MAX,
        ensures
            c.q == q,
            c.r == r,
            c.s == -q - r,
            c.q + c.r + c.s == 0,
    {
        HexCoord { q, r, s: -q - r }
    }

    /// The text form `(q, r)`.
    pub fn to_text(&self) -> (t: String)
        ensures
            t@ == seq!['('] + signed_decimal_string(self.q as int) + seq![',', ' '] + signed_decimal_string(
                self.r as int,
            ) + seq![')'],
    {
        let mut v: Vec<char> = Vec::new();
        v.push('(');
        push_signed_decimal(&mut v, self.q as i64);
        v.push(',');
        v.push(' ');
        push_signed_decimal(&mut v, self.r as i64);
        v.push(')');
        string_of(&v)
    }

    /// The origin.
    pub fn zero() -> (c: HexCoord)
        ensures
            c.q == 0 && c.r == 0 && c.s == 0,
    {
        HexCoord { q: 0, r: 0, s: 0 }
    }
}

/// The six neighbour directions of a hex.
#[derive(Debug, Clone, Copy, PartialEq, Eq, Hash)]
pub enum HexDir {
    E,
    NE,
    NW,
    W,
    SW,
    SE,
}

} // verus!
