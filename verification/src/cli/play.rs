//! Command parser of the legacy interactive play mode: one line of input
//! becomes one `Cmd`.

use vstd::prelude::*;

use crate::number::{
    lemma_parse_i32_decimal, parse_i32, parse_usize, signed_decimal_string, spec_parse_i32, spec_parse_usize,
};
use crate::text::{
    chars_of, extend_chars, is_plain_word, is_word, one_word, join_from, join_spaced, spaced3, spaced3_words, split_whitespace,
    string_of, trim, trim_chars, words,
};

verus! {

/// A command of the legacy play mode.
#[derive(Debug, Clone, PartialEq, Eq)]
pub enum Cmd {
    Move(i32, i32),
    Board,
    Status,
    EndTurn,
    Quit,
    Help,
    Tile(i32, i32),
    City,
    Cities,
    Assign(i32, i32),
    Lock(i32, i32),
    Unassign(i32, i32),
    Build(String),
    Cancel,
    Queue,
    Yields,
    Units,
    Select(i32, i32),
    Settle(String),
    Attack(i32, i32),
    Techs,
    Civics,
    Switch(usize),
    Improve(String),
    Research(String),
    Trade(i32, i32),
    Routes,
    Scores,
    District(String, i32, i32),
    Road(i32, i32),
    War(String),
    Peace(String),
    Government(String),
    Pantheon(String),
    Religion(String, String, String),
    GreatPeople,
    Recruit(String),
    GovernorAssign(String, usize),
    GovernorPromote(String, String),
    Diplomacy,
    Policy(String),
    Spread,
    TheoCombat(i32, i32),
    Bombard(i32, i32),
    Retire(String),
    GreatWork(String),
    RecruitFaith(String),
    Evangelize(String),
    Inquisition,
    RemoveHeresy,
    GuruHeal,
    ClaimTile(i32, i32),
    ReassignTile(i32, i32, usize),
    SendTrader(i32, i32),
    BarbHire(i32, i32),
    BarbBribe(i32, i32),
    BarbIncite(i32, i32, String),
    FaithBuy(String),
    Congress,
    Perform,
    Unknown(String),
}

/// Both words are `i32` numbers.
pub open spec fn two_ints(t: Seq<Seq<char>>, i: int, j: int) -> bool {
    spec_parse_i32(t[i]) is Some && spec_parse_i32(t[j]) is Some
}

/// The `i32` that the word `t[i]` spells.
pub open spec fn int_at(t: Seq<Seq<char>>, i: int) -> i32 {
    spec_parse_i32(t[i])->0
}

/// The coordinate pair `(q, r)` parsed from two strings (`None` unless both
/// are `i32` numbers).
pub open spec fn spec_parse_coord(q: Seq<char>, r: Seq<char>) -> Option<(i32, i32)> {
    if spec_parse_i32(q) is Some && spec_parse_i32(r) is Some {
        Some((spec_parse_i32(q)->0, spec_parse_i32(r)->0))
    } else {
        None
    }
}

/// Commands 1 to 15 of the command table.
pub open spec fn cmd_group0_spec(w: Seq<char>, t: Seq<Seq<char>>, unk: bool, r: Cmd) -> bool {
    let n = t.len();
    if w == "move"@ || w == "m"@ || w == "go"@ {
        if n == 3 && two_ints(t, 1, 2) { r == Cmd::Move(int_at(t, 1), int_at(t, 2)) } else { unk }
    } else if w == "board"@ {
        if n == 1 { r == Cmd::Board } else { unk }
    } else if w == "status"@ || w == "s"@ {
        if n == 1 { r == Cmd::Status } else { unk }
    } else if w == "end"@ || w == "e"@ || w == "next"@ || w == "n"@ {
        if n == 1 { r == Cmd::EndTurn } else { unk }
    } else if w == "quit"@ || w == "exit"@ {
        if n == 1 { r == Cmd::Quit } else { unk }
    } else if w == "help"@ || w == "h"@ || w == "?"@ {
        if n == 1 { r == Cmd::Help } else { unk }
    } else if w == "tile"@ || w == "t"@ {
        if n == 3 && two_ints(t, 1, 2) { r == Cmd::Tile(int_at(t, 1), int_at(t, 2)) } else { unk }
    } else if w == "city"@ || w == "c"@ {
        if n == 1 { r == Cmd::City } else { unk }
    } else if w == "cities"@ || w == "cs"@ {
        if n == 1 { r == Cmd::Cities } else { unk }
    } else if w == "assign"@ || w == "a"@ {
        if n == 3 && two_ints(t, 1, 2) { r == Cmd::Assign(int_at(t, 1), int_at(t, 2)) } else { unk }
    } else if w == "lock"@ {
        if n == 3 && two_ints(t, 1, 2) { r == Cmd::Lock(int_at(t, 1), int_at(t, 2)) } else { unk }
    } else if w == "unassign"@ || w == "ua"@ {
        if n == 3 && two_ints(t, 1, 2) { r == Cmd::Unassign(int_at(t, 1), int_at(t, 2)) } else { unk }
    } else if w == "build"@ || w == "b"@ {
        if n >= 2 { r matches Cmd::Build(x) && x@ == join_spaced(t.skip(1)) } else { unk }
    } else if w == "cancel"@ {
        if n == 1 { r == Cmd::Cancel } else { unk }
    } else if w == "queue"@ || w == "q"@ {
        if n == 1 { r == Cmd::Queue } else { unk }
    } else {
        false
    }
}

pub open spec fn in_cmd_group0(w: Seq<char>) -> bool {
    w == "move"@ || w == "m"@ || w == "go"@ || w == "board"@ || w == "status"@ || w == "s"@ || w == "end"@ || w == "e"@ || w == "next"@ || w == "n"@ || w == "quit"@ || w == "exit"@ || w == "help"@ || w == "h"@ || w == "?"@ || w == "tile"@ || w == "t"@ || w == "city"@ || w == "c"@ || w == "cities"@ || w == "cs"@ || w == "assign"@ || w == "a"@ || w == "lock"@ || w == "unassign"@ || w == "ua"@ || w == "build"@ || w == "b"@ || w == "cancel"@ || w == "queue"@ || w == "q"@
}

/// Commands 16 to 30 of the command table.
pub open spec fn cmd_group1_spec(w: Seq<char>, t: Seq<Seq<char>>, unk: bool, r: Cmd) -> bool {
    let n = t.len();
    if w == "yields"@ || w == "y"@ {
        if n == 1 { r == Cmd::Yields } else { unk }
    } else if w == "units"@ || w == "u"@ {
        if n == 1 { r == Cmd::Units } else { unk }
    } else if w == "select"@ || w == "sel"@ {
        if n == 3 && two_ints(t, 1, 2) { r == Cmd::Select(int_at(t, 1), int_at(t, 2)) } else { unk }
    } else if w == "settle"@ || w == "found"@ {
        r matches Cmd::Settle(x) && x@ == join_spaced(t.skip(1))
    } else if w == "attack"@ || w == "atk"@ {
        if n == 3 && two_ints(t, 1, 2) { r == Cmd::Attack(int_at(t, 1), int_at(t, 2)) } else { unk }
    } else if w == "techs"@ {
        if n == 1 { r == Cmd::Techs } else { unk }
    } else if w == "civics"@ {
        if n == 1 { r == Cmd::Civics } else { unk }
    } else if w == "switch"@ {
        if n == 2 && spec_parse_usize(t[1]) is Some { r == Cmd::Switch(spec_parse_usize(t[1])->0) } else { unk }
    } else if w == "improve"@ || w == "imp"@ {
        if n >= 2 { r matches Cmd::Improve(x) && x@ == join_spaced(t.skip(1)) } else { unk }
    } else if w == "research"@ || w == "res"@ {
        if n >= 2 { r matches Cmd::Research(x) && x@ == join_spaced(t.skip(1)) } else { unk }
    } else if w == "trade"@ || w == "tr"@ {
        if n == 3 && two_ints(t, 1, 2) { r == Cmd::Trade(int_at(t, 1), int_at(t, 2)) } else { unk }
    } else if w == "routes"@ || w == "rt"@ {
        if n == 1 { r == Cmd::Routes } else { unk }
    } else if w == "scores"@ || w == "sc"@ {
        if n == 1 { r == Cmd::Scores } else { unk }
    } else if w == "congress"@ || w == "wc"@ {
        if n == 1 { r == Cmd::Congress } else { unk }
    } else if w == "perform"@ {
        if n == 1 { r == Cmd::Perform } else { unk }
    } else {
        false
    }
}

pub open spec fn in_cmd_group1(w: Seq<char>) -> bool {
    w == "yields"@ || w == "y"@ || w == "units"@ || w == "u"@ || w == "select"@ || w == "sel"@ || w == "settle"@ || w == "found"@ || w == "attack"@ || w == "atk"@ || w == "techs"@ || w == "civics"@ || w == "switch"@ || w == "improve"@ || w == "imp"@ || w == "research"@ || w == "res"@ || w == "trade"@ || w == "tr"@ || w == "routes"@ || w == "rt"@ || w == "scores"@ || w == "sc"@ || w == "congress"@ || w == "wc"@ || w == "perform"@
}

/// Commands 31 to 45 of the command table.
pub open spec fn cmd_group2_spec(w: Seq<char>, t: Seq<Seq<char>>, unk: bool, r: Cmd) -> bool {
    let n = t.len();
    if w == "district"@ || w == "dist"@ {
        if n == 4 && two_ints(t, 2, 3) { r matches Cmd::District(x, q, rr) && x@ == t[1] && q == int_at(t, 2) && rr == int_at(t, 3) } else { unk }
    } else if w == "road"@ {
        if n == 3 && two_ints(t, 1, 2) { r == Cmd::Road(int_at(t, 1), int_at(t, 2)) } else { unk }
    } else if w == "war"@ {
        if n >= 2 { r matches Cmd::War(x) && x@ == join_spaced(t.skip(1)) } else { unk }
    } else if w == "peace"@ {
        if n >= 2 { r matches Cmd::Peace(x) && x@ == join_spaced(t.skip(1)) } else { unk }
    } else if w == "government"@ || w == "gov"@ {
        if n >= 2 { r matches Cmd::Government(x) && x@ == join_spaced(t.skip(1)) } else { unk }
    } else if w == "pantheon"@ {
        if n >= 2 { r matches Cmd::Pantheon(x) && x@ == join_spaced(t.skip(1)) } else { unk }
    } else if w == "religion"@ || w == "rel"@ {
        if n == 4 { r matches Cmd::Religion(a, b, c) && a@ == t[1] && b@ == t[2] && c@ == t[3] } else { unk }
    } else if w == "great-people"@ || w == "gp"@ {
        if n == 1 { r == Cmd::GreatPeople } else { unk }
    } else if w == "recruit"@ {
        if n >= 2 { r matches Cmd::Recruit(x) && x@ == join_spaced(t.skip(1)) } else { unk }
    } else if w == "governor"@ {
        if n == 3 && spec_parse_usize(t[2]) is Some { r matches Cmd::GovernorAssign(a, i) && a@ == t[1] && i == spec_parse_usize(t[2])->0 } else { unk }
    } else if w == "diplomacy"@ || w == "diplo"@ {
        if n == 1 { r == Cmd::Diplomacy } else { unk }
    } else if w == "policy"@ {
        if n >= 2 { r matches Cmd::Policy(x) && x@ == join_spaced(t.skip(1)) } else { unk }
    } else if w == "spread"@ {
        if n == 1 { r == Cmd::Spread } else { unk }
    } else if w == "theo-combat"@ || w == "tc"@ {
        if n == 3 && two_ints(t, 1, 2) { r == Cmd::TheoCombat(int_at(t, 1), int_at(t, 2)) } else { unk }
    } else if w == "bombard"@ {
        if n == 3 && two_ints(t, 1, 2) { r == Cmd::Bombard(int_at(t, 1), int_at(t, 2)) } else { unk }
    } else {
        false
    }
}

pub open spec fn in_cmd_group2(w: Seq<char>) -> bool {
    w == "district"@ || w == "dist"@ || w == "road"@ || w == "war"@ || w == "peace"@ || w == "government"@ || w == "gov"@ || w == "pantheon"@ || w == "religion"@ || w == "rel"@ || w == "great-people"@ || w == "gp"@ || w == "recruit"@ || w == "governor"@ || w == "diplomacy"@ || w == "diplo"@ || w == "policy"@ || w == "spread"@ || w == "theo-combat"@ || w == "tc"@ || w == "bombard"@
}

/// Commands 46 to 60 of the command table.
pub open spec fn cmd_group3_spec(w: Seq<char>, t: Seq<Seq<char>>, unk: bool, r: Cmd) -> bool {
    let n = t.len();
    if w == "retire"@ {
        if n >= 2 { r matches Cmd::Retire(x) && x@ == join_spaced(t.skip(1)) } else { unk }
    } else if w == "great-work"@ || w == "gw"@ {
        if n >= 2 { r matches Cmd::GreatWork(x) && x@ == join_spaced(t.skip(1)) } else { unk }
    } else if w == "recruit-faith"@ || w == "rf"@ {
        if n >= 2 { r matches Cmd::RecruitFaith(x) && x@ == join_spaced(t.skip(1)) } else { unk }
    } else if w == "evangelize"@ {
        if n >= 2 { r matches Cmd::Evangelize(x) && x@ == join_spaced(t.skip(1)) } else { unk }
    } else if w == "inquisition"@ {
        if n == 1 { r == Cmd::Inquisition } else { unk }
    } else if w == "remove-heresy"@ || w == "rh"@ {
        if n == 1 { r == Cmd::RemoveHeresy } else { unk }
    } else if w == "guru-heal"@ || w == "gh"@ {
        if n == 1 { r == Cmd::GuruHeal } else { unk }
    } else if w == "claim"@ {
        if n == 3 && two_ints(t, 1, 2) { r == Cmd::ClaimTile(int_at(t, 1), int_at(t, 2)) } else { unk }
    } else if w == "reassign"@ {
        if n == 4 && two_ints(t, 1, 2) && spec_parse_usize(t[3]) is Some { r == Cmd::ReassignTile(int_at(t, 1), int_at(t, 2), spec_parse_usize(t[3])->0) } else { unk }
    } else if w == "send-trader"@ || w == "st"@ {
        if n == 3 && two_ints(t, 1, 2) { r == Cmd::SendTrader(int_at(t, 1), int_at(t, 2)) } else { unk }
    } else if w == "barb-hire"@ || w == "bh"@ {
        if n == 3 && two_ints(t, 1, 2) { r == Cmd::BarbHire(int_at(t, 1), int_at(t, 2)) } else { unk }
    } else if w == "barb-bribe"@ || w == "bb"@ {
        if n == 3 && two_ints(t, 1, 2) { r == Cmd::BarbBribe(int_at(t, 1), int_at(t, 2)) } else { unk }
    } else if w == "barb-incite"@ || w == "bi"@ {
        if n >= 4 && two_ints(t, 1, 2) { r matches Cmd::BarbIncite(q, rr, x) && q == int_at(t, 1) && rr == int_at(t, 2) && x@ == join_spaced(t.skip(3)) } else { unk }
    } else if w == "faith-buy"@ || w == "fb"@ {
        if n >= 2 { r matches Cmd::FaithBuy(x) && x@ == join_spaced(t.skip(1)) } else { unk }
    } else if w == "governor-promote"@ || w == "gp-promote"@ {
        if n == 3 { r matches Cmd::GovernorPromote(a, b) && a@ == t[1] && b@ == t[2] } else { unk }
    } else {
        false
    }
}

pub open spec fn in_cmd_group3(w: Seq<char>) -> bool {
    w == "retire"@ || w == "great-work"@ || w == "gw"@ || w == "recruit-faith"@ || w == "rf"@ || w == "evangelize"@ || w == "inquisition"@ || w == "remove-heresy"@ || w == "rh"@ || w == "guru-heal"@ || w == "gh"@ || w == "claim"@ || w == "reassign"@ || w == "send-trader"@ || w == "st"@ || w == "barb-hire"@ || w == "bh"@ || w == "barb-bribe"@ || w == "bb"@ || w == "barb-incite"@ || w == "bi"@ || w == "faith-buy"@ || w == "fb"@ || w == "governor-promote"@ || w == "gp-promote"@
}

/// What `parse_cmd` answers for the line `raw`: the first word picks the
/// command, the number of words and their syntax pick between it and
/// `Unknown`, which carries the trimmed line.
pub open spec fn parse_cmd_spec(raw: Seq<char>, r: Cmd) -> bool {
    let s = trim(raw);
    let t = words(s);
    let unk = r matches Cmd::Unknown(x) && x@ == s;
    if t.len() == 0 {
        unk
    } else if in_cmd_group0(t[0]) {
        cmd_group0_spec(t[0], t, unk, r)
    } else if in_cmd_group1(t[0]) {
        cmd_group1_spec(t[0], t, unk, r)
    } else if in_cmd_group2(t[0]) {
        cmd_group2_spec(t[0], t, unk, r)
    } else if in_cmd_group3(t[0]) {
        cmd_group3_spec(t[0], t, unk, r)
    } else {
        unk
    }
}

/// The character sequences of a vector of words.
pub open spec fn views(t: Seq<Vec<char>>) -> Seq<Seq<char>> {
    t.map_values(|p: Vec<char>| p@)
}

fn word(t: &Vec<Vec<char>>, k: usize) -> (r: String)
    requires
        k < t@.len(),
    ensures
        r@ == views(t@)[k as int],
{
    string_of(&t[k])
}

fn rest(t: &Vec<Vec<char>>, k: usize) -> (r: String)
    requires
        k <= t@.len(),
    ensures
        r@ == join_spaced(views(t@).skip(k as int)),
{
    let j = join_from(t, k);
    assert(t@.skip(k as int).map_values(|p: Vec<char>| p@) =~= views(t@).skip(k as int));
    string_of(&j)
}

fn unknown_of(s: &Vec<char>) -> (r: Cmd)
    ensures
        r matches Cmd::Unknown(x) && x@ == s@,
{
    Cmd::Unknown(string_of(s))
}

/// `t[i]` and `t[i + 1]` as a coordinate pair.
fn coord_at(t: &Vec<Vec<char>>, i: usize) -> (r: Option<(i32, i32)>)
    requires
        i + 1 < t@.len(),
    ensures
        r == spec_parse_coord(views(t@)[i as int], views(t@)[i + 1]),
{
    assert(i + 1 < t.len());
    let q = parse_i32(&t[i]);
    let r = parse_i32(&t[i + 1]);
    match (q, r) {
        (Some(q), Some(r)) => Some((q, r)),
        _ => None,
    }
}

/// Parse a coordinate pair (`None` unless both strings are `i32` numbers).
pub fn parse_coord(q: &str, r: &str) -> (c: Option<(i32, i32)>)
    ensures
        c == spec_parse_coord(q@, r@),
{
    let a = parse_i32(&chars_of(q));
    let b = parse_i32(&chars_of(r));
    match (a, b) {
        (Some(a), Some(b)) => Some((a, b)),
        _ => None,
    }
}

fn in_group0(w: &Vec<char>) -> (b: bool)
    ensures
        b == in_cmd_group0(w@),
{
    is_word(w, "move") || is_word(w, "m") || is_word(w, "go") || is_word(w, "board") || is_word(w, "status") || is_word(w, "s") || is_word(w, "end") || is_word(w, "e") || is_word(w, "next") || is_word(w, "n") || is_word(w, "quit") || is_word(w, "exit") || is_word(w, "help") || is_word(w, "h") || is_word(w, "?") || is_word(w, "tile") || is_word(w, "t") || is_word(w, "city") || is_word(w, "c") || is_word(w, "cities") || is_word(w, "cs") || is_word(w, "assign") || is_word(w, "a") || is_word(w, "lock") || is_word(w, "unassign") || is_word(w, "ua") || is_word(w, "build") || is_word(w, "b") || is_word(w, "cancel") || is_word(w, "queue") || is_word(w, "q")
}

fn parse_group0(w: &Vec<char>, t: &Vec<Vec<char>>, s: &Vec<char>) -> (r: Cmd)
    requires
        in_cmd_group0(w@),
        t@.len() >= 1,
    ensures
        cmd_group0_spec(w@, views(t@), r matches Cmd::Unknown(x) && x@ == s@, r),
{
    let n = t.len();
    if is_word(w, "move") || is_word(w, "m") || is_word(w, "go") {
        if n == 3 { match coord_at(t, 1) { Some((q, r)) => Cmd::Move(q, r), None => unknown_of(s) } } else { unknown_of(s) }
    } else if is_word(w, "board") {
        if n == 1 { Cmd::Board } else { unknown_of(s) }
    } else if is_word(w, "status") || is_word(w, "s") {
        if n == 1 { Cmd::Status } else { unknown_of(s) }
    } else if is_word(w, "end") || is_word(w, "e") || is_word(w, "next") || is_word(w, "n") {
        if n == 1 { Cmd::EndTurn } else { unknown_of(s) }
    } else if is_word(w, "quit") || is_word(w, "exit") {
        if n == 1 { Cmd::Quit } else { unknown_of(s) }
    } else if is_word(w, "help") || is_word(w, "h") || is_word(w, "?") {
        if n == 1 { Cmd::Help } else { unknown_of(s) }
    } else if is_word(w, "tile") || is_word(w, "t") {
        if n == 3 { match coord_at(t, 1) { Some((q, r)) => Cmd::Tile(q, r), None => unknown_of(s) } } else { unknown_of(s) }
    } else if is_word(w, "city") || is_word(w, "c") {
        if n == 1 { Cmd::City } else { unknown_of(s) }
    } else if is_word(w, "cities") || is_word(w, "cs") {
        if n == 1 { Cmd::Cities } else { unknown_of(s) }
    } else if is_word(w, "assign") || is_word(w, "a") {
        if n == 3 { match coord_at(t, 1) { Some((q, r)) => Cmd::Assign(q, r), None => unknown_of(s) } } else { unknown_of(s) }
    } else if is_word(w, "lock") {
        if n == 3 { match coord_at(t, 1) { Some((q, r)) => Cmd::Lock(q, r), None => unknown_of(s) } } else { unknown_of(s) }
    } else if is_word(w, "unassign") || is_word(w, "ua") {
        if n == 3 { match coord_at(t, 1) { Some((q, r)) => Cmd::Unassign(q, r), None => unknown_of(s) } } else { unknown_of(s) }
    } else if is_word(w, "build") || is_word(w, "b") {
        if n >= 2 { Cmd::Build(rest(t, 1)) } else { unknown_of(s) }
    } else if is_word(w, "cancel") {
        if n == 1 { Cmd::Cancel } else { unknown_of(s) }
    } else if is_word(w, "queue") || is_word(w, "q") {
        if n == 1 { Cmd::Queue } else { unknown_of(s) }
    } else {
        unknown_of(s)
    }
}

fn in_group1(w: &Vec<char>) -> (b: bool)
    ensures
        b == in_cmd_group1(w@),
{
    is_word(w, "yields") || is_word(w, "y") || is_word(w, "units") || is_word(w, "u") || is_word(w, "select") || is_word(w, "sel") || is_word(w, "settle") || is_word(w, "found") || is_word(w, "attack") || is_word(w, "atk") || is_word(w, "techs") || is_word(w, "civics") || is_word(w, "switch") || is_word(w, "improve") || is_word(w, "imp") || is_word(w, "research") || is_word(w, "res") || is_word(w, "trade") || is_word(w, "tr") || is_word(w, "routes") || is_word(w, "rt") || is_word(w, "scores") || is_word(w, "sc") || is_word(w, "congress") || is_word(w, "wc") || is_word(w, "perform")
}

fn parse_group1(w: &Vec<char>, t: &Vec<Vec<char>>, s: &Vec<char>) -> (r: Cmd)
    requires
        in_cmd_group1(w@),
        t@.len() >= 1,
    ensures
        cmd_group1_spec(w@, views(t@), r matches Cmd::Unknown(x) && x@ == s@, r),
{
    let n = t.len();
    if is_word(w, "yields") || is_word(w, "y") {
        if n == 1 { Cmd::Yields } else { unknown_of(s) }
    } else if is_word(w, "units") || is_word(w, "u") {
        if n == 1 { Cmd::Units } else { unknown_of(s) }
    } else if is_word(w, "select") || is_word(w, "sel") {
        if n == 3 { match coord_at(t, 1) { Some((q, r)) => Cmd::Select(q, r), None => unknown_of(s) } } else { unknown_of(s) }
    } else if is_word(w, "settle") || is_word(w, "found") {
        Cmd::Settle(rest(t, 1))
    } else if is_word(w, "attack") || is_word(w, "atk") {
        if n == 3 { match coord_at(t, 1) { Some((q, r)) => Cmd::Attack(q, r), None => unknown_of(s) } } else { unknown_of(s) }
    } else if is_word(w, "techs") {
        if n == 1 { Cmd::Techs } else { unknown_of(s) }
    } else if is_word(w, "civics") {
        if n == 1 { Cmd::Civics } else { unknown_of(s) }
    } else if is_word(w, "switch") {
        if n == 2 { match parse_usize(&t[1]) { Some(i) => Cmd::Switch(i), None => unknown_of(s) } } else { unknown_of(s) }
    } else if is_word(w, "improve") || is_word(w, "imp") {
        if n >= 2 { Cmd::Improve(rest(t, 1)) } else { unknown_of(s) }
    } else if is_word(w, "research") || is_word(w, "res") {
        if n >= 2 { Cmd::Research(rest(t, 1)) } else { unknown_of(s) }
    } else if is_word(w, "trade") || is_word(w, "tr") {
        if n == 3 { match coord_at(t, 1) { Some((q, r)) => Cmd::Trade(q, r), None => unknown_of(s) } } else { unknown_of(s) }
    } else if is_word(w, "routes") || is_word(w, "rt") {
        if n == 1 { Cmd::Routes } else { unknown_of(s) }
    } else if is_word(w, "scores") || is_word(w, "sc") {
        if n == 1 { Cmd::Scores } else { unknown_of(s) }
    } else if is_word(w, "congress") || is_word(w, "wc") {
        if n == 1 { Cmd::Congress } else { unknown_of(s) }
    } else if is_word(w, "perform") {
        if n == 1 { Cmd::Perform } else { unknown_of(s) }
    } else {
        unknown_of(s)
    }
}

fn in_group2(w: &Vec<char>) -> (b: bool)
    ensures
        b == in_cmd_group2(w@),
{
    is_word(w, "district") || is_word(w, "dist") || is_word(w, "road") || is_word(w, "war") || is_word(w, "peace") || is_word(w, "government") || is_word(w, "gov") || is_word(w, "pantheon") || is_word(w, "religion") || is_word(w, "rel") || is_word(w, "great-people") || is_word(w, "gp") || is_word(w, "recruit") || is_word(w, "governor") || is_word(w, "diplomacy") || is_word(w, "diplo") || is_word(w, "policy") || is_word(w, "spread") || is_word(w, "theo-combat") || is_word(w, "tc") || is_word(w, "bombard")
}

fn parse_group2(w: &Vec<char>, t: &Vec<Vec<char>>, s: &Vec<char>) -> (r: Cmd)
    requires
        in_cmd_group2(w@),
        t@.len() >= 1,
    ensures
        cmd_group2_spec(w@, views(t@), r matches Cmd::Unknown(x) && x@ == s@, r),
{
    let n = t.len();
    if is_word(w, "district") || is_word(w, "dist") {
        if n == 4 { match coord_at(t, 2) { Some((q, r)) => Cmd::District(word(t, 1), q, r), None => unknown_of(s) } } else { unknown_of(s) }
    } else if is_word(w, "road") {
        if n == 3 { match coord_at(t, 1) { Some((q, r)) => Cmd::Road(q, r), None => unknown_of(s) } } else { unknown_of(s) }
    } else if is_word(w, "war") {
        if n >= 2 { Cmd::War(rest(t, 1)) } else { unknown_of(s) }
    } else if is_word(w, "peace") {
        if n >= 2 { Cmd::Peace(rest(t, 1)) } else { unknown_of(s) }
    } else if is_word(w, "government") || is_word(w, "gov") {
        if n >= 2 { Cmd::Government(rest(t, 1)) } else { unknown_of(s) }
    } else if is_word(w, "pantheon") {
        if n >= 2 { Cmd::Pantheon(rest(t, 1)) } else { unknown_of(s) }
    } else if is_word(w, "religion") || is_word(w, "rel") {
        if n == 4 { Cmd::Religion(word(t, 1), word(t, 2), word(t, 3)) } else { unknown_of(s) }
    } else if is_word(w, "great-people") || is_word(w, "gp") {
        if n == 1 { Cmd::GreatPeople } else { unknown_of(s) }
    } else if is_word(w, "recruit") {
        if n >= 2 { Cmd::Recruit(rest(t, 1)) } else { unknown_of(s) }
    } else if is_word(w, "governor") {
        if n == 3 { match parse_usize(&t[2]) { Some(i) => Cmd::GovernorAssign(word(t, 1), i), None => unknown_of(s) } } else { unknown_of(s) }
    } else if is_word(w, "diplomacy") || is_word(w, "diplo") {
        if n == 1 { Cmd::Diplomacy } else { unknown_of(s) }
    } else if is_word(w, "policy") {
        if n >= 2 { Cmd::Policy(rest(t, 1)) } else { unknown_of(s) }
    } else if is_word(w, "spread") {
        if n == 1 { Cmd::Spread } else { unknown_of(s) }
    } else if is_word(w, "theo-combat") || is_word(w, "tc") {
        if n == 3 { match coord_at(t, 1) { Some((q, r)) => Cmd::TheoCombat(q, r), None => unknown_of(s) } } else { unknown_of(s) }
    } else if is_word(w, "bombard") {
        if n == 3 { match coord_at(t, 1) { Some((q, r)) => Cmd::Bombard(q, r), None => unknown_of(s) } } else { unknown_of(s) }
    } else {
        unknown_of(s)
    }
}

fn in_group3(w: &Vec<char>) -> (b: bool)
    ensures
        b == in_cmd_group3(w@),
{
    is_word(w, "retire") || is_word(w, "great-work") || is_word(w, "gw") || is_word(w, "recruit-faith") || is_word(w, "rf") || is_word(w, "evangelize") || is_word(w, "inquisition") || is_word(w, "remove-heresy") || is_word(w, "rh") || is_word(w, "guru-heal") || is_word(w, "gh") || is_word(w, "claim") || is_word(w, "reassign") || is_word(w, "send-trader") || is_word(w, "st") || is_word(w, "barb-hire") || is_word(w, "bh") || is_word(w, "barb-bribe") || is_word(w, "bb") || is_word(w, "barb-incite") || is_word(w, "bi") || is_word(w, "faith-buy") || is_word(w, "fb") || is_word(w, "governor-promote") || is_word(w, "gp-promote")
}

fn parse_group3(w: &Vec<char>, t: &Vec<Vec<char>>, s: &Vec<char>) -> (r: Cmd)
    requires
        in_cmd_group3(w@),
        t@.len() >= 1,
    ensures
        cmd_group3_spec(w@, views(t@), r matches Cmd::Unknown(x) && x@ == s@, r),
{
    let n = t.len();
    if is_word(w, "retire") {
        if n >= 2 { Cmd::Retire(rest(t, 1)) } else { unknown_of(s) }
    } else if is_word(w, "great-work") || is_word(w, "gw") {
        if n >= 2 { Cmd::GreatWork(rest(t, 1)) } else { unknown_of(s) }
    } else if is_word(w, "recruit-faith") || is_word(w, "rf") {
        if n >= 2 { Cmd::RecruitFaith(rest(t, 1)) } else { unknown_of(s) }
    } else if is_word(w, "evangelize") {
        if n >= 2 { Cmd::Evangelize(rest(t, 1)) } else { unknown_of(s) }
    } else if is_word(w, "inquisition") {
        if n == 1 { Cmd::Inquisition } else { unknown_of(s) }
    } else if is_word(w, "remove-heresy") || is_word(w, "rh") {
        if n == 1 { Cmd::RemoveHeresy } else { unknown_of(s) }
    } else if is_word(w, "guru-heal") || is_word(w, "gh") {
        if n == 1 { Cmd::GuruHeal } else { unknown_of(s) }
    } else if is_word(w, "claim") {
        if n == 3 { match coord_at(t, 1) { Some((q, r)) => Cmd::ClaimTile(q, r), None => unknown_of(s) } } else { unknown_of(s) }
    } else if is_word(w, "reassign") {
        if n == 4 { match (coord_at(t, 1), parse_usize(&t[3])) { (Some((q, r)), Some(i)) => Cmd::ReassignTile(q, r, i), _ => unknown_of(s) } } else { unknown_of(s) }
    } else if is_word(w, "send-trader") || is_word(w, "st") {
        if n == 3 { match coord_at(t, 1) { Some((q, r)) => Cmd::SendTrader(q, r), None => unknown_of(s) } } else { unknown_of(s) }
    } else if is_word(w, "barb-hire") || is_word(w, "bh") {
        if n == 3 { match coord_at(t, 1) { Some((q, r)) => Cmd::BarbHire(q, r), None => unknown_of(s) } } else { unknown_of(s) }
    } else if is_word(w, "barb-bribe") || is_word(w, "bb") {
        if n == 3 { match coord_at(t, 1) { Some((q, r)) => Cmd::BarbBribe(q, r), None => unknown_of(s) } } else { unknown_of(s) }
    } else if is_word(w, "barb-incite") || is_word(w, "bi") {
        if n >= 4 { match coord_at(t, 1) { Some((q, r)) => Cmd::BarbIncite(q, r, rest(t, 3)), None => unknown_of(s) } } else { unknown_of(s) }
    } else if is_word(w, "faith-buy") || is_word(w, "fb") {
        if n >= 2 { Cmd::FaithBuy(rest(t, 1)) } else { unknown_of(s) }
    } else if is_word(w, "governor-promote") || is_word(w, "gp-promote") {
        if n == 3 { Cmd::GovernorPromote(word(t, 1), word(t, 2)) } else { unknown_of(s) }
    } else {
        unknown_of(s)
    }
}

/// Parse one line of play-mode input.
pub fn parse_cmd(raw: &str) -> (r: Cmd)
    ensures
        parse_cmd_spec(raw@, r),
{
    let s = trim_chars(&chars_of(raw));
    let t = split_whitespace(&s);
    assert(views(t@) =~= words(trim(raw@)));
    if t.len() == 0 {
        return unknown_of(&s);
    }
    let w = &t[0];
    if in_group0(w) {
        parse_group0(w, &t, &s)
    } else if in_group1(w) {
        parse_group1(w, &t, &s)
    } else if in_group2(w) {
        parse_group2(w, &t, &s)
    } else if in_group3(w) {
        parse_group3(w, &t, &s)
    } else {
        unknown_of(&s)
    }
}

// ───────────────────────────── Laws ──────────────────────────────────────────

/// A command word followed by two `i32` numbers, spaced: the words, and the
/// numbers they read as.
proof fn lemma_coord_line(w: Seq<char>, q: i32, r: i32)
    requires
        is_plain_word(w),
    ensures
        words(trim(spaced3(w, signed_decimal_string(q as int), signed_decimal_string(r as int))))
            == seq![w, signed_decimal_string(q as int), signed_decimal_string(r as int)],
        trim(spaced3(w, signed_decimal_string(q as int), signed_decimal_string(r as int))) == spaced3(
            w,
            signed_decimal_string(q as int),
            signed_decimal_string(r as int),
        ),
{
    lemma_parse_i32_decimal(q);
    lemma_parse_i32_decimal(r);
    spaced3_words(w, signed_decimal_string(q as int), signed_decimal_string(r as int));
}


/// `move q r` or `m q r` or `go q r` names the tile `(q, r)` in the order typed: the first number
/// is `q`, the second `r`, whatever the numbers.
pub proof fn move_keeps_coordinate_order(q: i32, r: i32, cmd: Cmd)
    ensures
        parse_cmd_spec(spaced3("move"@, signed_decimal_string(q as int), signed_decimal_string(r as int)), cmd)
            ==> cmd == Cmd::Move(q, r),
        parse_cmd_spec(spaced3("m"@, signed_decimal_string(q as int), signed_decimal_string(r as int)), cmd)
            ==> cmd == Cmd::Move(q, r),
        parse_cmd_spec(spaced3("go"@, signed_decimal_string(q as int), signed_decimal_string(r as int)), cmd)
            ==> cmd == Cmd::Move(q, r),
{
    reveal_strlit("move");
    reveal_strlit("m");
    reveal_strlit("go");
    reveal_strlit("board");
    reveal_strlit("status");
    reveal_strlit("s");
    reveal_strlit("end");
    reveal_strlit("e");
    reveal_strlit("next");
    reveal_strlit("n");
    reveal_strlit("quit");
    reveal_strlit("exit");
    reveal_strlit("help");
    reveal_strlit("h");
    reveal_strlit("?");
    reveal_strlit("tile");
    reveal_strlit("t");
    reveal_strlit("city");
    reveal_strlit("c");
    reveal_strlit("cities");
    reveal_strlit("cs");
    reveal_strlit("assign");
    reveal_strlit("a");
    reveal_strlit("lock");
    reveal_strlit("unassign");
    reveal_strlit("ua");
    reveal_strlit("build");
    reveal_strlit("b");
    reveal_strlit("cancel");
    reveal_strlit("queue");
    reveal_strlit("q");
    reveal_strlit("yields");
    reveal_strlit("y");
    reveal_strlit("units");
    reveal_strlit("u");
    reveal_strlit("select");
    reveal_strlit("sel");
    reveal_strlit("settle");
    reveal_strlit("found");
    reveal_strlit("attack");
    reveal_strlit("atk");
    reveal_strlit("techs");
    reveal_strlit("civics");
    reveal_strlit("switch");
    reveal_strlit("improve");
    reveal_strlit("imp");
    reveal_strlit("research");
    reveal_strlit("res");
    reveal_strlit("trade");
    reveal_strlit("tr");
    reveal_strlit("routes");
    reveal_strlit("rt");
    reveal_strlit("scores");
    reveal_strlit("sc");
    reveal_strlit("congress");
    reveal_strlit("wc");
    reveal_strlit("perform");
    reveal_strlit("district");
    reveal_strlit("dist");
    reveal_strlit("road");
    reveal_strlit("war");
    reveal_strlit("peace");
    reveal_strlit("government");
    reveal_strlit("gov");
    reveal_strlit("pantheon");
    reveal_strlit("religion");
    reveal_strlit("rel");
    reveal_strlit("great-people");
    reveal_strlit("gp");
    reveal_strlit("recruit");
    reveal_strlit("governor");
    reveal_strlit("diplomacy");
    reveal_strlit("diplo");
    reveal_strlit("policy");
    reveal_strlit("spread");
    reveal_strlit("theo-combat");
    reveal_strlit("tc");
    reveal_strlit("bombard");
    reveal_strlit("retire");
    reveal_strlit("great-work");
    reveal_strlit("gw");
    reveal_strlit("recruit-faith");
    reveal_strlit("rf");
    reveal_strlit("evangelize");
    reveal_strlit("inquisition");
    reveal_strlit("remove-heresy");
    reveal_strlit("rh");
    reveal_strlit("guru-heal");
    reveal_strlit("gh");
    reveal_strlit("claim");
    reveal_strlit("reassign");
    reveal_strlit("send-trader");
    reveal_strlit("st");
    reveal_strlit("barb-hire");
    reveal_strlit("bh");
    reveal_strlit("barb-bribe");
    reveal_strlit("bb");
    reveal_strlit("barb-incite");
    reveal_strlit("bi");
    reveal_strlit("faith-buy");
    reveal_strlit("fb");
    reveal_strlit("governor-promote");
    reveal_strlit("gp-promote");
    assert("move"@[0] != "next"@[0]);
    assert("move"@[0] != "quit"@[0]);
    assert("move"@[0] != "exit"@[0]);
    assert("move"@[0] != "help"@[0]);
    assert("move"@[0] != "tile"@[0]);
    assert("move"@[0] != "city"@[0]);
    assert("move"@[0] != "lock"@[0]);
    assert("move"@[0] != "dist"@[0]);
    assert("move"@[0] != "road"@[0]);
    assert("m"@[0] != "s"@[0]);
    assert("m"@[0] != "e"@[0]);
    assert("m"@[0] != "n"@[0]);
    assert("m"@[0] != "h"@[0]);
    assert("m"@[0] != "?"@[0]);
    assert("m"@[0] != "t"@[0]);
    assert("m"@[0] != "c"@[0]);
    assert("m"@[0] != "a"@[0]);
    assert("m"@[0] != "b"@[0]);
    assert("m"@[0] != "q"@[0]);
    assert("m"@[0] != "y"@[0]);
    assert("m"@[0] != "u"@[0]);
    assert("go"@[0] != "cs"@[0]);
    assert("go"@[0] != "ua"@[0]);
    assert("go"@[0] != "tr"@[0]);
    assert("go"@[0] != "rt"@[0]);
    assert("go"@[0] != "sc"@[0]);
    assert("go"@[0] != "wc"@[0]);
    assert("go"@[1] != "gp"@[1]);
    assert("go"@[0] != "tc"@[0]);
    assert("go"@[1] != "gw"@[1]);
    assert("go"@[0] != "rf"@[0]);
    assert("go"@[0] != "rh"@[0]);
    assert("go"@[1] != "gh"@[1]);
    assert("go"@[0] != "st"@[0]);
    assert("go"@[0] != "bh"@[0]);
    assert("go"@[0] != "bb"@[0]);
    assert("go"@[0] != "bi"@[0]);
    assert("go"@[0] != "fb"@[0]);
    lemma_parse_i32_decimal(q);
    lemma_parse_i32_decimal(r);
    assert(is_plain_word("move"@));
    lemma_coord_line("move"@, q, r);
    assert(in_cmd_group0("move"@));
    assert(is_plain_word("m"@));
    lemma_coord_line("m"@, q, r);
    assert(in_cmd_group0("m"@));
    assert(is_plain_word("go"@));
    lemma_coord_line("go"@, q, r);
    assert(in_cmd_group0("go"@));
}

/// `tile q r` or `t q r` names the tile `(q, r)` in the order typed: the first number
/// is `q`, the second `r`, whatever the numbers.
pub proof fn tile_keeps_coordinate_order(q: i32, r: i32, cmd: Cmd)
    ensures
        parse_cmd_spec(spaced3("tile"@, signed_decimal_string(q as int), signed_decimal_string(r as int)), cmd)
            ==> cmd == Cmd::Tile(q, r),
        parse_cmd_spec(spaced3("t"@, signed_decimal_string(q as int), signed_decimal_string(r as int)), cmd)
            ==> cmd == Cmd::Tile(q, r),
{
    reveal_strlit("move");
    reveal_strlit("m");
    reveal_strlit("go");
    reveal_strlit("board");
    reveal_strlit("status");
    reveal_strlit("s");
    reveal_strlit("end");
    reveal_strlit("e");
    reveal_strlit("next");
    reveal_strlit("n");
    reveal_strlit("quit");
    reveal_strlit("exit");
    reveal_strlit("help");
    reveal_strlit("h");
    reveal_strlit("?");
    reveal_strlit("tile");
    reveal_strlit("t");
    reveal_strlit("city");
    reveal_strlit("c");
    reveal_strlit("cities");
    reveal_strlit("cs");
    reveal_strlit("assign");
    reveal_strlit("a");
    reveal_strlit("lock");
    reveal_strlit("unassign");
    reveal_strlit("ua");
    reveal_strlit("build");
    reveal_strlit("b");
    reveal_strlit("cancel");
    reveal_strlit("queue");
    reveal_strlit("q");
    reveal_strlit("yields");
    reveal_strlit("y");
    reveal_strlit("units");
    reveal_strlit("u");
    reveal_strlit("select");
    reveal_strlit("sel");
    reveal_strlit("settle");
    reveal_strlit("found");
    reveal_strlit("attack");
    reveal_strlit("atk");
    reveal_strlit("techs");
    reveal_strlit("civics");
    reveal_strlit("switch");
    reveal_strlit("improve");
    reveal_strlit("imp");
    reveal_strlit("research");
    reveal_strlit("res");
    reveal_strlit("trade");
    reveal_strlit("tr");
    reveal_strlit("routes");
    reveal_strlit("rt");
    reveal_strlit("scores");
    reveal_strlit("sc");
    reveal_strlit("congress");
    reveal_strlit("wc");
    reveal_strlit("perform");
    reveal_strlit("district");
    reveal_strlit("dist");
    reveal_strlit("road");
    reveal_strlit("war");
    reveal_strlit("peace");
    reveal_strlit("government");
    reveal_strlit("gov");
    reveal_strlit("pantheon");
    reveal_strlit("religion");
    reveal_strlit("rel");
    reveal_strlit("great-people");
    reveal_strlit("gp");
    reveal_strlit("recruit");
    reveal_strlit("governor");
    reveal_strlit("diplomacy");
    reveal_strlit("diplo");
    reveal_strlit("policy");
    reveal_strlit("spread");
    reveal_strlit("theo-combat");
    reveal_strlit("tc");
    reveal_strlit("bombard");
    reveal_strlit("retire");
    reveal_strlit("great-work");
    reveal_strlit("gw");
    reveal_strlit("recruit-faith");
    reveal_strlit("rf");
    reveal_strlit("evangelize");
    reveal_strlit("inquisition");
    reveal_strlit("remove-heresy");
    reveal_strlit("rh");
    reveal_strlit("guru-heal");
    reveal_strlit("gh");
    reveal_strlit("claim");
    reveal_strlit("reassign");
    reveal_strlit("send-trader");
    reveal_strlit("st");
    reveal_strlit("barb-hire");
    reveal_strlit("bh");
    reveal_strlit("barb-bribe");
    reveal_strlit("bb");
    reveal_strlit("barb-incite");
    reveal_strlit("bi");
    reveal_strlit("faith-buy");
    reveal_strlit("fb");
    reveal_strlit("governor-promote");
    reveal_strlit("gp-promote");
    assert("tile"@[0] != "move"@[0]);
    assert("tile"@[0] != "next"@[0]);
    assert("tile"@[0] != "quit"@[0]);
    assert("tile"@[0] != "exit"@[0]);
    assert("tile"@[0] != "help"@[0]);
    assert("tile"@[0] != "city"@[0]);
    assert("tile"@[0] != "lock"@[0]);
    assert("tile"@[0] != "dist"@[0]);
    assert("tile"@[0] != "road"@[0]);
    assert("t"@[0] != "m"@[0]);
    assert("t"@[0] != "s"@[0]);
    assert("t"@[0] != "e"@[0]);
    assert("t"@[0] != "n"@[0]);
    assert("t"@[0] != "h"@[0]);
    assert("t"@[0] != "?"@[0]);
    assert("t"@[0] != "c"@[0]);
    assert("t"@[0] != "a"@[0]);
    assert("t"@[0] != "b"@[0]);
    assert("t"@[0] != "q"@[0]);
    assert("t"@[0] != "y"@[0]);
    assert("t"@[0] != "u"@[0]);
    lemma_parse_i32_decimal(q);
    lemma_parse_i32_decimal(r);
    assert(is_plain_word("tile"@));
    lemma_coord_line("tile"@, q, r);
    assert(in_cmd_group0("tile"@));
    assert(is_plain_word("t"@));
    lemma_coord_line("t"@, q, r);
    assert(in_cmd_group0("t"@));
}

/// `assign q r` or `a q r` names the tile `(q, r)` in the order typed: the first number
/// is `q`, the second `r`, whatever the numbers.
pub proof fn assign_keeps_coordinate_order(q: i32, r: i32, cmd: Cmd)
    ensures
        parse_cmd_spec(spaced3("assign"@, signed_decimal_string(q as int), signed_decimal_string(r as int)), cmd)
            ==> cmd == Cmd::Assign(q, r),
        parse_cmd_spec(spaced3("a"@, signed_decimal_string(q as int), signed_decimal_string(r as int)), cmd)
            ==> cmd == Cmd::Assign(q, r),
{
    reveal_strlit("move");
    reveal_strlit("m");
    reveal_strlit("go");
    reveal_strlit("board");
    reveal_strlit("status");
    reveal_strlit("s");
    reveal_strlit("end");
    reveal_strlit("e");
    reveal_strlit("next");
    reveal_strlit("n");
    reveal_strlit("quit");
    reveal_strlit("exit");
    reveal_strlit("help");
    reveal_strlit("h");
    reveal_strlit("?");
    reveal_strlit("tile");
    reveal_strlit("t");
    reveal_strlit("city");
    reveal_strlit("c");
    reveal_strlit("cities");
    reveal_strlit("cs");
    reveal_strlit("assign");
    reveal_strlit("a");
    reveal_strlit("lock");
    reveal_strlit("unassign");
    reveal_strlit("ua");
    reveal_strlit("build");
    reveal_strlit("b");
    reveal_strlit("cancel");
    reveal_strlit("queue");
    reveal_strlit("q");
    reveal_strlit("yields");
    reveal_strlit("y");
    reveal_strlit("units");
    reveal_strlit("u");
    reveal_strlit("select");
    reveal_strlit("sel");
    reveal_strlit("settle");
    reveal_strlit("found");
    reveal_strlit("attack");
    reveal_strlit("atk");
    reveal_strlit("techs");
    reveal_strlit("civics");
    reveal_strlit("switch");
    reveal_strlit("improve");
    reveal_strlit("imp");
    reveal_strlit("research");
    reveal_strlit("res");
    reveal_strlit("trade");
    reveal_strlit("tr");
    reveal_strlit("routes");
    reveal_strlit("rt");
    reveal_strlit("scores");
    reveal_strlit("sc");
    reveal_strlit("congress");
    reveal_strlit("wc");
    reveal_strlit("perform");
    reveal_strlit("district");
    reveal_strlit("dist");
    reveal_strlit("road");
    reveal_strlit("war");
    reveal_strlit("peace");
    reveal_strlit("government");
    reveal_strlit("gov");
    reveal_strlit("pantheon");
    reveal_strlit("religion");
    reveal_strlit("rel");
    reveal_strlit("great-people");
    reveal_strlit("gp");
    reveal_strlit("recruit");
    reveal_strlit("governor");
    reveal_strlit("diplomacy");
    reveal_strlit("diplo");
    reveal_strlit("policy");
    reveal_strlit("spread");
    reveal_strlit("theo-combat");
    reveal_strlit("tc");
    reveal_strlit("bombard");
    reveal_strlit("retire");
    reveal_strlit("great-work");
    reveal_strlit("gw");
    reveal_strlit("recruit-faith");
    reveal_strlit("rf");
    reveal_strlit("evangelize");
    reveal_strlit("inquisition");
    reveal_strlit("remove-heresy");
    reveal_strlit("rh");
    reveal_strlit("guru-heal");
    reveal_strlit("gh");
    reveal_strlit("claim");
    reveal_strlit("reassign");
    reveal_strlit("send-trader");
    reveal_strlit("st");
    reveal_strlit("barb-hire");
    reveal_strlit("bh");
    reveal_strlit("barb-bribe");
    reveal_strlit("bb");
    reveal_strlit("barb-incite");
    reveal_strlit("bi");
    reveal_strlit("faith-buy");
    reveal_strlit("fb");
    reveal_strlit("governor-promote");
    reveal_strlit("gp-promote");
    assert("assign"@[0] != "status"@[0]);
    assert("assign"@[0] != "cities"@[0]);
    assert("assign"@[0] != "cancel"@[0]);
    assert("assign"@[0] != "yields"@[0]);
    assert("assign"@[0] != "select"@[0]);
    assert("assign"@[0] != "settle"@[0]);
    assert("assign"@[1] != "attack"@[1]);
    assert("assign"@[0] != "civics"@[0]);
    assert("assign"@[0] != "switch"@[0]);
    assert("assign"@[0] != "routes"@[0]);
    assert("assign"@[0] != "scores"@[0]);
    assert("assign"@[0] != "policy"@[0]);
    assert("assign"@[0] != "spread"@[0]);
    assert("assign"@[0] != "retire"@[0]);
    assert("a"@[0] != "m"@[0]);
    assert("a"@[0] != "s"@[0]);
    assert("a"@[0] != "e"@[0]);
    assert("a"@[0] != "n"@[0]);
    assert("a"@[0] != "h"@[0]);
    assert("a"@[0] != "?"@[0]);
    assert("a"@[0] != "t"@[0]);
    assert("a"@[0] != "c"@[0]);
    assert("a"@[0] != "b"@[0]);
    assert("a"@[0] != "q"@[0]);
    assert("a"@[0] != "y"@[0]);
    assert("a"@[0] != "u"@[0]);
    lemma_parse_i32_decimal(q);
    lemma_parse_i32_decimal(r);
    assert(is_plain_word("assign"@));
    lemma_coord_line("assign"@, q, r);
    assert(in_cmd_group0("assign"@));
    assert(is_plain_word("a"@));
    lemma_coord_line("a"@, q, r);
    assert(in_cmd_group0("a"@));
}

/// `lock q r` names the tile `(q, r)` in the order typed: the first number
/// is `q`, the second `r`, whatever the numbers.
pub proof fn lock_keeps_coordinate_order(q: i32, r: i32, cmd: Cmd)
    ensures
        parse_cmd_spec(spaced3("lock"@, signed_decimal_string(q as int), signed_decimal_string(r as int)), cmd)
            ==> cmd == Cmd::Lock(q, r),
{
    reveal_strlit("move");
    reveal_strlit("m");
    reveal_strlit("go");
    reveal_strlit("board");
    reveal_strlit("status");
    reveal_strlit("s");
    reveal_strlit("end");
    reveal_strlit("e");
    reveal_strlit("next");
    reveal_strlit("n");
    reveal_strlit("quit");
    reveal_strlit("exit");
    reveal_strlit("help");
    reveal_strlit("h");
    reveal_strlit("?");
    reveal_strlit("tile");
    reveal_strlit("t");
    reveal_strlit("city");
    reveal_strlit("c");
    reveal_strlit("cities");
    reveal_strlit("cs");
    reveal_strlit("assign");
    reveal_strlit("a");
    reveal_strlit("lock");
    reveal_strlit("unassign");
    reveal_strlit("ua");
    reveal_strlit("build");
    reveal_strlit("b");
    reveal_strlit("cancel");
    reveal_strlit("queue");
    reveal_strlit("q");
    reveal_strlit("yields");
    reveal_strlit("y");
    reveal_strlit("units");
    reveal_strlit("u");
    reveal_strlit("select");
    reveal_strlit("sel");
    reveal_strlit("settle");
    reveal_strlit("found");
    reveal_strlit("attack");
    reveal_strlit("atk");
    reveal_strlit("techs");
    reveal_strlit("civics");
    reveal_strlit("switch");
    reveal_strlit("improve");
    reveal_strlit("imp");
    reveal_strlit("research");
    reveal_strlit("res");
    reveal_strlit("trade");
    reveal_strlit("tr");
    reveal_strlit("routes");
    reveal_strlit("rt");
    reveal_strlit("scores");
    reveal_strlit("sc");
    reveal_strlit("congress");
    reveal_strlit("wc");
    reveal_strlit("perform");
    reveal_strlit("district");
    reveal_strlit("dist");
    reveal_strlit("road");
    reveal_strlit("war");
    reveal_strlit("peace");
    reveal_strlit("government");
    reveal_strlit("gov");
    reveal_strlit("pantheon");
    reveal_strlit("religion");
    reveal_strlit("rel");
    reveal_strlit("great-people");
    reveal_strlit("gp");
    reveal_strlit("recruit");
    reveal_strlit("governor");
    reveal_strlit("diplomacy");
    reveal_strlit("diplo");
    reveal_strlit("policy");
    reveal_strlit("spread");
    reveal_strlit("theo-combat");
    reveal_strlit("tc");
    reveal_strlit("bombard");
    reveal_strlit("retire");
    reveal_strlit("great-work");
    reveal_strlit("gw");
    reveal_strlit("recruit-faith");
    reveal_strlit("rf");
    reveal_strlit("evangelize");
    reveal_strlit("inquisition");
    reveal_strlit("remove-heresy");
    reveal_strlit("rh");
    reveal_strlit("guru-heal");
    reveal_strlit("gh");
    reveal_strlit("claim");
    reveal_strlit("reassign");
    reveal_strlit("send-trader");
    reveal_strlit("st");
    reveal_strlit("barb-hire");
    reveal_strlit("bh");
    reveal_strlit("barb-bribe");
    reveal_strlit("bb");
    reveal_strlit("barb-incite");
    reveal_strlit("bi");
    reveal_strlit("faith-buy");
    reveal_strlit("fb");
    reveal_strlit("governor-promote");
    reveal_strlit("gp-promote");
    assert("lock"@[0] != "move"@[0]);
    assert("lock"@[0] != "next"@[0]);
    assert("lock"@[0] != "quit"@[0]);
    assert("lock"@[0] != "exit"@[0]);
    assert("lock"@[0] != "help"@[0]);
    assert("lock"@[0] != "tile"@[0]);
    assert("lock"@[0] != "city"@[0]);
    assert("lock"@[0] != "dist"@[0]);
    assert("lock"@[0] != "road"@[0]);
    lemma_parse_i32_decimal(q);
    lemma_parse_i32_decimal(r);
    assert(is_plain_word("lock"@));
    lemma_coord_line("lock"@, q, r);
    assert(in_cmd_group0("lock"@));
}

/// `unassign q r` or `ua q r` names the tile `(q, r)` in the order typed: the first number
/// is `q`, the second `r`, whatever the numbers.
pub proof fn unassign_keeps_coordinate_order(q: i32, r: i32, cmd: Cmd)
    ensures
        parse_cmd_spec(spaced3("unassign"@, signed_decimal_string(q as int), signed_decimal_string(r as int)), cmd)
            ==> cmd == Cmd::Unassign(q, r),
        parse_cmd_spec(spaced3("ua"@, signed_decimal_string(q as int), signed_decimal_string(r as int)), cmd)
            ==> cmd == Cmd::Unassign(q, r),
{
    reveal_strlit("move");
    reveal_strlit("m");
    reveal_strlit("go");
    reveal_strlit("board");
    reveal_strlit("status");
    reveal_strlit("s");
    reveal_strlit("end");
    reveal_strlit("e");
    reveal_strlit("next");
    reveal_strlit("n");
    reveal_strlit("quit");
    reveal_strlit("exit");
    reveal_strlit("help");
    reveal_strlit("h");
    reveal_strlit("?");
    reveal_strlit("tile");
    reveal_strlit("t");
    reveal_strlit("city");
    reveal_strlit("c");
    reveal_strlit("cities");
    reveal_strlit("cs");
    reveal_strlit("assign");
    reveal_strlit("a");
    reveal_strlit("lock");
    reveal_strlit("unassign");
    reveal_strlit("ua");
    reveal_strlit("build");
    reveal_strlit("b");
    reveal_strlit("cancel");
    reveal_strlit("queue");
    reveal_strlit("q");
    reveal_strlit("yields");
    reveal_strlit("y");
    reveal_strlit("units");
    reveal_strlit("u");
    reveal_strlit("select");
    reveal_strlit("sel");
    reveal_strlit("settle");
    reveal_strlit("found");
    reveal_strlit("attack");
    reveal_strlit("atk");
    reveal_strlit("techs");
    reveal_strlit("civics");
    reveal_strlit("switch");
    reveal_strlit("improve");
    reveal_strlit("imp");
    reveal_strlit("research");
    reveal_strlit("res");
    reveal_strlit("trade");
    reveal_strlit("tr");
    reveal_strlit("routes");
    reveal_strlit("rt");
    reveal_strlit("scores");
    reveal_strlit("sc");
    reveal_strlit("congress");
    reveal_strlit("wc");
    reveal_strlit("perform");
    reveal_strlit("district");
    reveal_strlit("dist");
    reveal_strlit("road");
    reveal_strlit("war");
    reveal_strlit("peace");
    reveal_strlit("government");
    reveal_strlit("gov");
    reveal_strlit("pantheon");
    reveal_strlit("religion");
    reveal_strlit("rel");
    reveal_strlit("great-people");
    reveal_strlit("gp");
    reveal_strlit("recruit");
    reveal_strlit("governor");
    reveal_strlit("diplomacy");
    reveal_strlit("diplo");
    reveal_strlit("policy");
    reveal_strlit("spread");
    reveal_strlit("theo-combat");
    reveal_strlit("tc");
    reveal_strlit("bombard");
    reveal_strlit("retire");
    reveal_strlit("great-work");
    reveal_strlit("gw");
    reveal_strlit("recruit-faith");
    reveal_strlit("rf");
    reveal_strlit("evangelize");
    reveal_strlit("inquisition");
    reveal_strlit("remove-heresy");
    reveal_strlit("rh");
    reveal_strlit("guru-heal");
    reveal_strlit("gh");
    reveal_strlit("claim");
    reveal_strlit("reassign");
    reveal_strlit("send-trader");
    reveal_strlit("st");
    reveal_strlit("barb-hire");
    reveal_strlit("bh");
    reveal_strlit("barb-bribe");
    reveal_strlit("bb");
    reveal_strlit("barb-incite");
    reveal_strlit("bi");
    reveal_strlit("faith-buy");
    reveal_strlit("fb");
    reveal_strlit("governor-promote");
    reveal_strlit("gp-promote");
    assert("unassign"@[0] != "research"@[0]);
    assert("unassign"@[0] != "congress"@[0]);
    assert("unassign"@[0] != "district"@[0]);
    assert("unassign"@[0] != "pantheon"@[0]);
    assert("unassign"@[0] != "religion"@[0]);
    assert("unassign"@[0] != "governor"@[0]);
    assert("unassign"@[0] != "reassign"@[0]);
    assert("ua"@[0] != "go"@[0]);
    assert("ua"@[0] != "cs"@[0]);
    assert("ua"@[0] != "tr"@[0]);
    assert("ua"@[0] != "rt"@[0]);
    assert("ua"@[0] != "sc"@[0]);
    assert("ua"@[0] != "wc"@[0]);
    assert("ua"@[0] != "gp"@[0]);
    assert("ua"@[0] != "tc"@[0]);
    assert("ua"@[0] != "gw"@[0]);
    assert("ua"@[0] != "rf"@[0]);
    assert("ua"@[0] != "rh"@[0]);
    assert("ua"@[0] != "gh"@[0]);
    assert("ua"@[0] != "st"@[0]);
    assert("ua"@[0] != "bh"@[0]);
    assert("ua"@[0] != "bb"@[0]);
    assert("ua"@[0] != "bi"@[0]);
    assert("ua"@[0] != "fb"@[0]);
    lemma_parse_i32_decimal(q);
    lemma_parse_i32_decimal(r);
    assert(is_plain_word("unassign"@));
    lemma_coord_line("unassign"@, q, r);
    assert(in_cmd_group0("unassign"@));
    assert(is_plain_word("ua"@));
    lemma_coord_line("ua"@, q, r);
    assert(in_cmd_group0("ua"@));
}

/// `select q r` or `sel q r` names the tile `(q, r)` in the order typed: the first number
/// is `q`, the second `r`, whatever the numbers.
pub proof fn select_keeps_coordinate_order(q: i32, r: i32, cmd: Cmd)
    ensures
        parse_cmd_spec(spaced3("select"@, signed_decimal_string(q as int), signed_decimal_string(r as int)), cmd)
            ==> cmd == Cmd::Select(q, r),
        parse_cmd_spec(spaced3("sel"@, signed_decimal_string(q as int), signed_decimal_string(r as int)), cmd)
            ==> cmd == Cmd::Select(q, r),
{
    reveal_strlit("move");
    reveal_strlit("m");
    reveal_strlit("go");
    reveal_strlit("board");
    reveal_strlit("status");
    reveal_strlit("s");
    reveal_strlit("end");
    reveal_strlit("e");
    reveal_strlit("next");
    reveal_strlit("n");
    reveal_strlit("quit");
    reveal_strlit("exit");
    reveal_strlit("help");
    reveal_strlit("h");
    reveal_strlit("?");
    reveal_strlit("tile");
    reveal_strlit("t");
    reveal_strlit("city");
    reveal_strlit("c");
    reveal_strlit("cities");
    reveal_strlit("cs");
    reveal_strlit("assign");
    reveal_strlit("a");
    reveal_strlit("lock");
    reveal_strlit("unassign");
    reveal_strlit("ua");
    reveal_strlit("build");
    reveal_strlit("b");
    reveal_strlit("cancel");
    reveal_strlit("queue");
    reveal_strlit("q");
    reveal_strlit("yields");
    reveal_strlit("y");
    reveal_strlit("units");
    reveal_strlit("u");
    reveal_strlit("select");
    reveal_strlit("sel");
    reveal_strlit("settle");
    reveal_strlit("found");
    reveal_strlit("attack");
    reveal_strlit("atk");
    reveal_strlit("techs");
    reveal_strlit("civics");
    reveal_strlit("switch");
    reveal_strlit("improve");
    reveal_strlit("imp");
    reveal_strlit("research");
    reveal_strlit("res");
    reveal_strlit("trade");
    reveal_strlit("tr");
    reveal_strlit("routes");
    reveal_strlit("rt");
    reveal_strlit("scores");
    reveal_strlit("sc");
    reveal_strlit("congress");
    reveal_strlit("wc");
    reveal_strlit("perform");
    reveal_strlit("district");
    reveal_strlit("dist");
    reveal_strlit("road");
    reveal_strlit("war");
    reveal_strlit("peace");
    reveal_strlit("government");
    reveal_strlit("gov");
    reveal_strlit("pantheon");
    reveal_strlit("religion");
    reveal_strlit("rel");
    reveal_strlit("great-people");
    reveal_strlit("gp");
    reveal_strlit("recruit");
    reveal_strlit("governor");
    reveal_strlit("diplomacy");
    reveal_strlit("diplo");
    reveal_strlit("policy");
    reveal_strlit("spread");
    reveal_strlit("theo-combat");
    reveal_strlit("tc");
    reveal_strlit("bombard");
    reveal_strlit("retire");
    reveal_strlit("great-work");
    reveal_strlit("gw");
    reveal_strlit("recruit-faith");
    reveal_strlit("rf");
    reveal_strlit("evangelize");
    reveal_strlit("inquisition");
    reveal_strlit("remove-heresy");
    reveal_strlit("rh");
    reveal_strlit("guru-heal");
    reveal_strlit("gh");
    reveal_strlit("claim");
    reveal_strlit("reassign");
    reveal_strlit("send-trader");
    reveal_strlit("st");
    reveal_strlit("barb-hire");
    reveal_strlit("bh");
    reveal_strlit("barb-bribe");
    reveal_strlit("bb");
    reveal_strlit("barb-incite");
    reveal_strlit("bi");
    reveal_strlit("faith-buy");
    reveal_strlit("fb");
    reveal_strlit("governor-promote");
    reveal_strlit("gp-promote");
    assert("select"@[1] != "status"@[1]);
    assert("select"@[0] != "cities"@[0]);
    assert("select"@[0] != "assign"@[0]);
    assert("select"@[0] != "cancel"@[0]);
    assert("select"@[0] != "yields"@[0]);
    assert("select"@[2] != "settle"@[2]);
    assert("select"@[0] != "attack"@[0]);
    assert("select"@[0] != "civics"@[0]);
    assert("select"@[1] != "switch"@[1]);
    assert("select"@[0] != "routes"@[0]);
    assert("select"@[1] != "scores"@[1]);
    assert("select"@[0] != "policy"@[0]);
    assert("select"@[1] != "spread"@[1]);
    assert("select"@[0] != "retire"@[0]);
    assert("sel"@[0] != "end"@[0]);
    assert("sel"@[0] != "atk"@[0]);
    assert("sel"@[0] != "imp"@[0]);
    assert("sel"@[0] != "res"@[0]);
    assert("sel"@[0] != "war"@[0]);
    assert("sel"@[0] != "gov"@[0]);
    assert("sel"@[0] != "rel"@[0]);
    lemma_parse_i32_decimal(q);
    lemma_parse_i32_decimal(r);
    assert(is_plain_word("select"@));
    lemma_coord_line("select"@, q, r);
    assert(!in_cmd_group0("select"@) && in_cmd_group1("select"@));
    assert(is_plain_word("sel"@));
    lemma_coord_line("sel"@, q, r);
    assert(!in_cmd_group0("sel"@) && in_cmd_group1("sel"@));
}

/// `attack q r` or `atk q r` names the tile `(q, r)` in the order typed: the first number
/// is `q`, the second `r`, whatever the numbers.
pub proof fn attack_keeps_coordinate_order(q: i32, r: i32, cmd: Cmd)
    ensures
        parse_cmd_spec(spaced3("attack"@, signed_decimal_string(q as int), signed_decimal_string(r as int)), cmd)
            ==> cmd == Cmd::Attack(q, r),
        parse_cmd_spec(spaced3("atk"@, signed_decimal_string(q as int), signed_decimal_string(r as int)), cmd)
            ==> cmd == Cmd::Attack(q, r),
{
    reveal_strlit("move");
    reveal_strlit("m");
    reveal_strlit("go");
    reveal_strlit("board");
    reveal_strlit("status");
    reveal_strlit("s");
    reveal_strlit("end");
    reveal_strlit("e");
    reveal_strlit("next");
    reveal_strlit("n");
    reveal_strlit("quit");
    reveal_strlit("exit");
    reveal_strlit("help");
    reveal_strlit("h");
    reveal_strlit("?");
    reveal_strlit("tile");
    reveal_strlit("t");
    reveal_strlit("city");
    reveal_strlit("c");
    reveal_strlit("cities");
    reveal_strlit("cs");
    reveal_strlit("assign");
    reveal_strlit("a");
    reveal_strlit("lock");
    reveal_strlit("unassign");
    reveal_strlit("ua");
    reveal_strlit("build");
    reveal_strlit("b");
    reveal_strlit("cancel");
    reveal_strlit("queue");
    reveal_strlit("q");
    reveal_strlit("yields");
    reveal_strlit("y");
    reveal_strlit("units");
    reveal_strlit("u");
    reveal_strlit("select");
    reveal_strlit("sel");
    reveal_strlit("settle");
    reveal_strlit("found");
    reveal_strlit("attack");
    reveal_strlit("atk");
    reveal_strlit("techs");
    reveal_strlit("civics");
    reveal_strlit("switch");
    reveal_strlit("improve");
    reveal_strlit("imp");
    reveal_strlit("research");
    reveal_strlit("res");
    reveal_strlit("trade");
    reveal_strlit("tr");
    reveal_strlit("routes");
    reveal_strlit("rt");
    reveal_strlit("scores");
    reveal_strlit("sc");
    reveal_strlit("congress");
    reveal_strlit("wc");
    reveal_strlit("perform");
    reveal_strlit("district");
    reveal_strlit("dist");
    reveal_strlit("road");
    reveal_strlit("war");
    reveal_strlit("peace");
    reveal_strlit("government");
    reveal_strlit("gov");
    reveal_strlit("pantheon");
    reveal_strlit("religion");
    reveal_strlit("rel");
    reveal_strlit("great-people");
    reveal_strlit("gp");
    reveal_strlit("recruit");
    reveal_strlit("governor");
    reveal_strlit("diplomacy");
    reveal_strlit("diplo");
    reveal_strlit("policy");
    reveal_strlit("spread");
    reveal_strlit("theo-combat");
    reveal_strlit("tc");
    reveal_strlit("bombard");
    reveal_strlit("retire");
    reveal_strlit("great-work");
    reveal_strlit("gw");
    reveal_strlit("recruit-faith");
    reveal_strlit("rf");
    reveal_strlit("evangelize");
    reveal_strlit("inquisition");
    reveal_strlit("remove-heresy");
    reveal_strlit("rh");
    reveal_strlit("guru-heal");
    reveal_strlit("gh");
    reveal_strlit("claim");
    reveal_strlit("reassign");
    reveal_strlit("send-trader");
    reveal_strlit("st");
    reveal_strlit("barb-hire");
    reveal_strlit("bh");
    reveal_strlit("barb-bribe");
    reveal_strlit("bb");
    reveal_strlit("barb-incite");
    reveal_strlit("bi");
    reveal_strlit("faith-buy");
    reveal_strlit("fb");
    reveal_strlit("governor-promote");
    reveal_strlit("gp-promote");
    assert("attack"@[0] != "status"@[0]);
    assert("attack"@[0] != "cities"@[0]);
    assert("attack"@[1] != "assign"@[1]);
    assert("attack"@[0] != "cancel"@[0]);
    assert("attack"@[0] != "yields"@[0]);
    assert("attack"@[0] != "select"@[0]);
    assert("attack"@[0] != "settle"@[0]);
    assert("attack"@[0] != "civics"@[0]);
    assert("attack"@[0] != "switch"@[0]);
    assert("attack"@[0] != "routes"@[0]);
    assert("attack"@[0] != "scores"@[0]);
    assert("attack"@[0] != "policy"@[0]);
    assert("attack"@[0] != "spread"@[0]);
    assert("attack"@[0] != "retire"@[0]);
    assert("atk"@[0] != "end"@[0]);
    assert("atk"@[0] != "sel"@[0]);
    assert("atk"@[0] != "imp"@[0]);
    assert("atk"@[0] != "res"@[0]);
    assert("atk"@[0] != "war"@[0]);
    assert("atk"@[0] != "gov"@[0]);
    assert("atk"@[0] != "rel"@[0]);
    lemma_parse_i32_decimal(q);
    lemma_parse_i32_decimal(r);
    assert(is_plain_word("attack"@));
    lemma_coord_line("attack"@, q, r);
    assert(!in_cmd_group0("attack"@) && in_cmd_group1("attack"@));
    assert(is_plain_word("atk"@));
    lemma_coord_line("atk"@, q, r);
    assert(!in_cmd_group0("atk"@) && in_cmd_group1("atk"@));
}

/// `trade q r` or `tr q r` names the tile `(q, r)` in the order typed: the first number
/// is `q`, the second `r`, whatever the numbers.
pub proof fn trade_keeps_coordinate_order(q: i32, r: i32, cmd: Cmd)
    ensures
        parse_cmd_spec(spaced3("trade"@, signed_decimal_string(q as int), signed_decimal_string(r as int)), cmd)
            ==> cmd == Cmd::Trade(q, r),
        parse_cmd_spec(spaced3("tr"@, signed_decimal_string(q as int), signed_decimal_string(r as int)), cmd)
            ==> cmd == Cmd::Trade(q, r),
{
    reveal_strlit("move");
    reveal_strlit("m");
    reveal_strlit("go");
    reveal_strlit("board");
    reveal_strlit("status");
    reveal_strlit("s");
    reveal_strlit("end");
    reveal_strlit("e");
    reveal_strlit("next");
    reveal_strlit("n");
    reveal_strlit("quit");
    reveal_strlit("exit");
    reveal_strlit("help");
    reveal_strlit("h");
    reveal_strlit("?");
    reveal_strlit("tile");
    reveal_strlit("t");
    reveal_strlit("city");
    reveal_strlit("c");
    reveal_strlit("cities");
    reveal_strlit("cs");
    reveal_strlit("assign");
    reveal_strlit("a");
    reveal_strlit("lock");
    reveal_strlit("unassign");
    reveal_strlit("ua");
    reveal_strlit("build");
    reveal_strlit("b");
    reveal_strlit("cancel");
    reveal_strlit("queue");
    reveal_strlit("q");
    reveal_strlit("yields");
    reveal_strlit("y");
    reveal_strlit("units");
    reveal_strlit("u");
    reveal_strlit("select");
    reveal_strlit("sel");
    reveal_strlit("settle");
    reveal_strlit("found");
    reveal_strlit("attack");
    reveal_strlit("atk");
    reveal_strlit("techs");
    reveal_strlit("civics");
    reveal_strlit("switch");
    reveal_strlit("improve");
    reveal_strlit("imp");
    reveal_strlit("research");
    reveal_strlit("res");
    reveal_strlit("trade");
    reveal_strlit("tr");
    reveal_strlit("routes");
    reveal_strlit("rt");
    reveal_strlit("scores");
    reveal_strlit("sc");
    reveal_strlit("congress");
    reveal_strlit("wc");
    reveal_strlit("perform");
    reveal_strlit("district");
    reveal_strlit("dist");
    reveal_strlit("road");
    reveal_strlit("war");
    reveal_strlit("peace");
    reveal_strlit("government");
    reveal_strlit("gov");
    reveal_strlit("pantheon");
    reveal_strlit("religion");
    reveal_strlit("rel");
    reveal_strlit("great-people");
    reveal_strlit("gp");
    reveal_strlit("recruit");
    reveal_strlit("governor");
    reveal_strlit("diplomacy");
    reveal_strlit("diplo");
    reveal_strlit("policy");
    reveal_strlit("spread");
    reveal_strlit("theo-combat");
    reveal_strlit("tc");
    reveal_strlit("bombard");
    reveal_strlit("retire");
    reveal_strlit("great-work");
    reveal_strlit("gw");
    reveal_strlit("recruit-faith");
    reveal_strlit("rf");
    reveal_strlit("evangelize");
    reveal_strlit("inquisition");
    reveal_strlit("remove-heresy");
    reveal_strlit("rh");
    reveal_strlit("guru-heal");
    reveal_strlit("gh");
    reveal_strlit("claim");
    reveal_strlit("reassign");
    reveal_strlit("send-trader");
    reveal_strlit("st");
    reveal_strlit("barb-hire");
    reveal_strlit("bh");
    reveal_strlit("barb-bribe");
    reveal_strlit("bb");
    reveal_strlit("barb-incite");
    reveal_strlit("bi");
    reveal_strlit("faith-buy");
    reveal_strlit("fb");
    reveal_strlit("governor-promote");
    reveal_strlit("gp-promote");
    assert("trade"@[0] != "board"@[0]);
    assert("trade"@[0] != "build"@[0]);
    assert("trade"@[0] != "queue"@[0]);
    assert("trade"@[0] != "units"@[0]);
    assert("trade"@[0] != "found"@[0]);
    assert("trade"@[1] != "techs"@[1]);
    assert("trade"@[0] != "peace"@[0]);
    assert("trade"@[0] != "diplo"@[0]);
    assert("trade"@[0] != "claim"@[0]);
    assert("tr"@[0] != "go"@[0]);
    assert("tr"@[0] != "cs"@[0]);
    assert("tr"@[0] != "ua"@[0]);
    assert("tr"@[0] != "rt"@[0]);
    assert("tr"@[0] != "sc"@[0]);
    assert("tr"@[0] != "wc"@[0]);
    assert("tr"@[0] != "gp"@[0]);
    assert("tr"@[1] != "tc"@[1]);
    assert("tr"@[0] != "gw"@[0]);
    assert("tr"@[0] != "rf"@[0]);
    assert("tr"@[0] != "rh"@[0]);
    assert("tr"@[0] != "gh"@[0]);
    assert("tr"@[0] != "st"@[0]);
    assert("tr"@[0] != "bh"@[0]);
    assert("tr"@[0] != "bb"@[0]);
    assert("tr"@[0] != "bi"@[0]);
    assert("tr"@[0] != "fb"@[0]);
    lemma_parse_i32_decimal(q);
    lemma_parse_i32_decimal(r);
    assert(is_plain_word("trade"@));
    lemma_coord_line("trade"@, q, r);
    assert(!in_cmd_group0("trade"@) && in_cmd_group1("trade"@));
    assert(is_plain_word("tr"@));
    lemma_coord_line("tr"@, q, r);
    assert(!in_cmd_group0("tr"@) && in_cmd_group1("tr"@));
}

/// `road q r` names the tile `(q, r)` in the order typed: the first number
/// is `q`, the second `r`, whatever the numbers.
pub proof fn road_keeps_coordinate_order(q: i32, r: i32, cmd: Cmd)
    ensures
        parse_cmd_spec(spaced3("road"@, signed_decimal_string(q as int), signed_decimal_string(r as int)), cmd)
            ==> cmd == Cmd::Road(q, r),
{
    reveal_strlit("move");
    reveal_strlit("m");
    reveal_strlit("go");
    reveal_strlit("board");
    reveal_strlit("status");
    reveal_strlit("s");
    reveal_strlit("end");
    reveal_strlit("e");
    reveal_strlit("next");
    reveal_strlit("n");
    reveal_strlit("quit");
    reveal_strlit("exit");
    reveal_strlit("help");
    reveal_strlit("h");
    reveal_strlit("?");
    reveal_strlit("tile");
    reveal_strlit("t");
    reveal_strlit("city");
    reveal_strlit("c");
    reveal_strlit("cities");
    reveal_strlit("cs");
    reveal_strlit("assign");
    reveal_strlit("a");
    reveal_strlit("lock");
    reveal_strlit("unassign");
    reveal_strlit("ua");
    reveal_strlit("build");
    reveal_strlit("b");
    reveal_strlit("cancel");
    reveal_strlit("queue");
    reveal_strlit("q");
    reveal_strlit("yields");
    reveal_strlit("y");
    reveal_strlit("units");
    reveal_strlit("u");
    reveal_strlit("select");
    reveal_strlit("sel");
    reveal_strlit("settle");
    reveal_strlit("found");
    reveal_strlit("attack");
    reveal_strlit("atk");
    reveal_strlit("techs");
    reveal_strlit("civics");
    reveal_strlit("switch");
    reveal_strlit("improve");
    reveal_strlit("imp");
    reveal_strlit("research");
    reveal_strlit("res");
    reveal_strlit("trade");
    reveal_strlit("tr");
    reveal_strlit("routes");
    reveal_strlit("rt");
    reveal_strlit("scores");
    reveal_strlit("sc");
    reveal_strlit("congress");
    reveal_strlit("wc");
    reveal_strlit("perform");
    reveal_strlit("district");
    reveal_strlit("dist");
    reveal_strlit("road");
    reveal_strlit("war");
    reveal_strlit("peace");
    reveal_strlit("government");
    reveal_strlit("gov");
    reveal_strlit("pantheon");
    reveal_strlit("religion");
    reveal_strlit("rel");
    reveal_strlit("great-people");
    reveal_strlit("gp");
    reveal_strlit("recruit");
    reveal_strlit("governor");
    reveal_strlit("diplomacy");
    reveal_strlit("diplo");
    reveal_strlit("policy");
    reveal_strlit("spread");
    reveal_strlit("theo-combat");
    reveal_strlit("tc");
    reveal_strlit("bombard");
    reveal_strlit("retire");
    reveal_strlit("great-work");
    reveal_strlit("gw");
    reveal_strlit("recruit-faith");
    reveal_strlit("rf");
    reveal_strlit("evangelize");
    reveal_strlit("inquisition");
    reveal_strlit("remove-heresy");
    reveal_strlit("rh");
    reveal_strlit("guru-heal");
    reveal_strlit("gh");
    reveal_strlit("claim");
    reveal_strlit("reassign");
    reveal_strlit("send-trader");
    reveal_strlit("st");
    reveal_strlit("barb-hire");
    reveal_strlit("bh");
    reveal_strlit("barb-bribe");
    reveal_strlit("bb");
    reveal_strlit("barb-incite");
    reveal_strlit("bi");
    reveal_strlit("faith-buy");
    reveal_strlit("fb");
    reveal_strlit("governor-promote");
    reveal_strlit("gp-promote");
    assert("road"@[0] != "move"@[0]);
    assert("road"@[0] != "next"@[0]);
    assert("road"@[0] != "quit"@[0]);
    assert("road"@[0] != "exit"@[0]);
    assert("road"@[0] != "help"@[0]);
    assert("road"@[0] != "tile"@[0]);
    assert("road"@[0] != "city"@[0]);
    assert("road"@[0] != "lock"@[0]);
    assert("road"@[0] != "dist"@[0]);
    lemma_parse_i32_decimal(q);
    lemma_parse_i32_decimal(r);
    assert(is_plain_word("road"@));
    lemma_coord_line("road"@, q, r);
    assert(!in_cmd_group0("road"@) && !in_cmd_group1("road"@) && in_cmd_group2("road"@));
}

/// `theo-combat q r` or `tc q r` names the tile `(q, r)` in the order typed: the first number
/// is `q`, the second `r`, whatever the numbers.
pub proof fn theo_combat_keeps_coordinate_order(q: i32, r: i32, cmd: Cmd)
    ensures
        parse_cmd_spec(spaced3("theo-combat"@, signed_decimal_string(q as int), signed_decimal_string(r as int)), cmd)
            ==> cmd == Cmd::TheoCombat(q, r),
        parse_cmd_spec(spaced3("tc"@, signed_decimal_string(q as int), signed_decimal_string(r as int)), cmd)
            ==> cmd == Cmd::TheoCombat(q, r),
{
    reveal_strlit("move");
    reveal_strlit("m");
    reveal_strlit("go");
    reveal_strlit("board");
    reveal_strlit("status");
    reveal_strlit("s");
    reveal_strlit("end");
    reveal_strlit("e");
    reveal_strlit("next");
    reveal_strlit("n");
    reveal_strlit("quit");
    reveal_strlit("exit");
    reveal_strlit("help");
    reveal_strlit("h");
    reveal_strlit("?");
    reveal_strlit("tile");
    reveal_strlit("t");
    reveal_strlit("city");
    reveal_strlit("c");
    reveal_strlit("cities");
    reveal_strlit("cs");
    reveal_strlit("assign");
    reveal_strlit("a");
    reveal_strlit("lock");
    reveal_strlit("unassign");
    reveal_strlit("ua");
    reveal_strlit("build");
    reveal_strlit("b");
    reveal_strlit("cancel");
    reveal_strlit("queue");
    reveal_strlit("q");
    reveal_strlit("yields");
    reveal_strlit("y");
    reveal_strlit("units");
    reveal_strlit("u");
    reveal_strlit("select");
    reveal_strlit("sel");
    reveal_strlit("settle");
    reveal_strlit("found");
    reveal_strlit("attack");
    reveal_strlit("atk");
    reveal_strlit("techs");
    reveal_strlit("civics");
    reveal_strlit("switch");
    reveal_strlit("improve");
    reveal_strlit("imp");
    reveal_strlit("research");
    reveal_strlit("res");
    reveal_strlit("trade");
    reveal_strlit("tr");
    reveal_strlit("routes");
    reveal_strlit("rt");
    reveal_strlit("scores");
    reveal_strlit("sc");
    reveal_strlit("congress");
    reveal_strlit("wc");
    reveal_strlit("perform");
    reveal_strlit("district");
    reveal_strlit("dist");
    reveal_strlit("road");
    reveal_strlit("war");
    reveal_strlit("peace");
    reveal_strlit("government");
    reveal_strlit("gov");
    reveal_strlit("pantheon");
    reveal_strlit("religion");
    reveal_strlit("rel");
    reveal_strlit("great-people");
    reveal_strlit("gp");
    reveal_strlit("recruit");
    reveal_strlit("governor");
    reveal_strlit("diplomacy");
    reveal_strlit("diplo");
    reveal_strlit("policy");
    reveal_strlit("spread");
    reveal_strlit("theo-combat");
    reveal_strlit("tc");
    reveal_strlit("bombard");
    reveal_strlit("retire");
    reveal_strlit("great-work");
    reveal_strlit("gw");
    reveal_strlit("recruit-faith");
    reveal_strlit("rf");
    reveal_strlit("evangelize");
    reveal_strlit("inquisition");
    reveal_strlit("remove-heresy");
    reveal_strlit("rh");
    reveal_strlit("guru-heal");
    reveal_strlit("gh");
    reveal_strlit("claim");
    reveal_strlit("reassign");
    reveal_strlit("send-trader");
    reveal_strlit("st");
    reveal_strlit("barb-hire");
    reveal_strlit("bh");
    reveal_strlit("barb-bribe");
    reveal_strlit("bb");
    reveal_strlit("barb-incite");
    reveal_strlit("bi");
    reveal_strlit("faith-buy");
    reveal_strlit("fb");
    reveal_strlit("governor-promote");
    reveal_strlit("gp-promote");
    assert("theo-combat"@[0] != "inquisition"@[0]);
    assert("theo-combat"@[0] != "send-trader"@[0]);
    assert("theo-combat"@[0] != "barb-incite"@[0]);
    assert("tc"@[0] != "go"@[0]);
    assert("tc"@[0] != "cs"@[0]);
    assert("tc"@[0] != "ua"@[0]);
    assert("tc"@[1] != "tr"@[1]);
    assert("tc"@[0] != "rt"@[0]);
    assert("tc"@[0] != "sc"@[0]);
    assert("tc"@[0] != "wc"@[0]);
    assert("tc"@[0] != "gp"@[0]);
    assert("tc"@[0] != "gw"@[0]);
    assert("tc"@[0] != "rf"@[0]);
    assert("tc"@[0] != "rh"@[0]);
    assert("tc"@[0] != "gh"@[0]);
    assert("tc"@[0] != "st"@[0]);
    assert("tc"@[0] != "bh"@[0]);
    assert("tc"@[0] != "bb"@[0]);
    assert("tc"@[0] != "bi"@[0]);
    assert("tc"@[0] != "fb"@[0]);
    lemma_parse_i32_decimal(q);
    lemma_parse_i32_decimal(r);
    assert(is_plain_word("theo-combat"@));
    lemma_coord_line("theo-combat"@, q, r);
    assert(!in_cmd_group0("theo-combat"@) && !in_cmd_group1("theo-combat"@) && in_cmd_group2("theo-combat"@));
    assert(is_plain_word("tc"@));
    lemma_coord_line("tc"@, q, r);
    assert(!in_cmd_group0("tc"@) && !in_cmd_group1("tc"@) && in_cmd_group2("tc"@));
}

/// `bombard q r` names the tile `(q, r)` in the order typed: the first number
/// is `q`, the second `r`, whatever the numbers.
pub proof fn bombard_keeps_coordinate_order(q: i32, r: i32, cmd: Cmd)
    ensures
        parse_cmd_spec(spaced3("bombard"@, signed_decimal_string(q as int), signed_decimal_string(r as int)), cmd)
            ==> cmd == Cmd::Bombard(q, r),
{
    reveal_strlit("move");
    reveal_strlit("m");
    reveal_strlit("go");
    reveal_strlit("board");
    reveal_strlit("status");
    reveal_strlit("s");
    reveal_strlit("end");
    reveal_strlit("e");
    reveal_strlit("next");
    reveal_strlit("n");
    reveal_strlit("quit");
    reveal_strlit("exit");
    reveal_strlit("help");
    reveal_strlit("h");
    reveal_strlit("?");
    reveal_strlit("tile");
    reveal_strlit("t");
    reveal_strlit("city");
    reveal_strlit("c");
    reveal_strlit("cities");
    reveal_strlit("cs");
    reveal_strlit("assign");
    reveal_strlit("a");
    reveal_strlit("lock");
    reveal_strlit("unassign");
    reveal_strlit("ua");
    reveal_strlit("build");
    reveal_strlit("b");
    reveal_strlit("cancel");
    reveal_strlit("queue");
    reveal_strlit("q");
    reveal_strlit("yields");
    reveal_strlit("y");
    reveal_strlit("units");
    reveal_strlit("u");
    reveal_strlit("select");
    reveal_strlit("sel");
    reveal_strlit("settle");
    reveal_strlit("found");
    reveal_strlit("attack");
    reveal_strlit("atk");
    reveal_strlit("techs");
    reveal_strlit("civics");
    reveal_strlit("switch");
    reveal_strlit("improve");
    reveal_strlit("imp");
    reveal_strlit("research");
    reveal_strlit("res");
    reveal_strlit("trade");
    reveal_strlit("tr");
    reveal_strlit("routes");
    reveal_strlit("rt");
    reveal_strlit("scores");
    reveal_strlit("sc");
    reveal_strlit("congress");
    reveal_strlit("wc");
    reveal_strlit("perform");
    reveal_strlit("district");
    reveal_strlit("dist");
    reveal_strlit("road");
    reveal_strlit("war");
    reveal_strlit("peace");
    reveal_strlit("government");
    reveal_strlit("gov");
    reveal_strlit("pantheon");
    reveal_strlit("religion");
    reveal_strlit("rel");
    reveal_strlit("great-people");
    reveal_strlit("gp");
    reveal_strlit("recruit");
    reveal_strlit("governor");
    reveal_strlit("diplomacy");
    reveal_strlit("diplo");
    reveal_strlit("policy");
    reveal_strlit("spread");
    reveal_strlit("theo-combat");
    reveal_strlit("tc");
    reveal_strlit("bombard");
    reveal_strlit("retire");
    reveal_strlit("great-work");
    reveal_strlit("gw");
    reveal_strlit("recruit-faith");
    reveal_strlit("rf");
    reveal_strlit("evangelize");
    reveal_strlit("inquisition");
    reveal_strlit("remove-heresy");
    reveal_strlit("rh");
    reveal_strlit("guru-heal");
    reveal_strlit("gh");
    reveal_strlit("claim");
    reveal_strlit("reassign");
    reveal_strlit("send-trader");
    reveal_strlit("st");
    reveal_strlit("barb-hire");
    reveal_strlit("bh");
    reveal_strlit("barb-bribe");
    reveal_strlit("bb");
    reveal_strlit("barb-incite");
    reveal_strlit("bi");
    reveal_strlit("faith-buy");
    reveal_strlit("fb");
    reveal_strlit("governor-promote");
    reveal_strlit("gp-promote");
    assert("bombard"@[0] != "improve"@[0]);
    assert("bombard"@[0] != "perform"@[0]);
    assert("bombard"@[0] != "recruit"@[0]);
    lemma_parse_i32_decimal(q);
    lemma_parse_i32_decimal(r);
    assert(is_plain_word("bombard"@));
    lemma_coord_line("bombard"@, q, r);
    assert(!in_cmd_group0("bombard"@) && !in_cmd_group1("bombard"@) && in_cmd_group2("bombard"@));
}

/// `claim q r` names the tile `(q, r)` in the order typed: the first number
/// is `q`, the second `r`, whatever the numbers.
pub proof fn claim_tile_keeps_coordinate_order(q: i32, r: i32, cmd: Cmd)
    ensures
        parse_cmd_spec(spaced3("claim"@, signed_decimal_string(q as int), signed_decimal_string(r as int)), cmd)
            ==> cmd == Cmd::ClaimTile(q, r),
{
    reveal_strlit("move");
    reveal_strlit("m");
    reveal_strlit("go");
    reveal_strlit("board");
    reveal_strlit("status");
    reveal_strlit("s");
    reveal_strlit("end");
    reveal_strlit("e");
    reveal_strlit("next");
    reveal_strlit("n");
    reveal_strlit("quit");
    reveal_strlit("exit");
    reveal_strlit("help");
    reveal_strlit("h");
    reveal_strlit("?");
    reveal_strlit("tile");
    reveal_strlit("t");
    reveal_strlit("city");
    reveal_strlit("c");
    reveal_strlit("cities");
    reveal_strlit("cs");
    reveal_strlit("assign");
    reveal_strlit("a");
    reveal_strlit("lock");
    reveal_strlit("unassign");
    reveal_strlit("ua");
    reveal_strlit("build");
    reveal_strlit("b");
    reveal_strlit("cancel");
    reveal_strlit("queue");
    reveal_strlit("q");
    reveal_strlit("yields");
    reveal_strlit("y");
    reveal_strlit("units");
    reveal_strlit("u");
    reveal_strlit("select");
    reveal_strlit("sel");
    reveal_strlit("settle");
    reveal_strlit("found");
    reveal_strlit("attack");
    reveal_strlit("atk");
    reveal_strlit("techs");
    reveal_strlit("civics");
    reveal_strlit("switch");
    reveal_strlit("improve");
    reveal_strlit("imp");
    reveal_strlit("research");
    reveal_strlit("res");
    reveal_strlit("trade");
    reveal_strlit("tr");
    reveal_strlit("routes");
    reveal_strlit("rt");
    reveal_strlit("scores");
    reveal_strlit("sc");
    reveal_strlit("congress");
    reveal_strlit("wc");
    reveal_strlit("perform");
    reveal_strlit("district");
    reveal_strlit("dist");
    reveal_strlit("road");
    reveal_strlit("war");
    reveal_strlit("peace");
    reveal_strlit("government");
    reveal_strlit("gov");
    reveal_strlit("pantheon");
    reveal_strlit("religion");
    reveal_strlit("rel");
    reveal_strlit("great-people");
    reveal_strlit("gp");
    reveal_strlit("recruit");
    reveal_strlit("governor");
    reveal_strlit("diplomacy");
    reveal_strlit("diplo");
    reveal_strlit("policy");
    reveal_strlit("spread");
    reveal_strlit("theo-combat");
    reveal_strlit("tc");
    reveal_strlit("bombard");
    reveal_strlit("retire");
    reveal_strlit("great-work");
    reveal_strlit("gw");
    reveal_strlit("recruit-faith");
    reveal_strlit("rf");
    reveal_strlit("evangelize");
    reveal_strlit("inquisition");
    reveal_strlit("remove-heresy");
    reveal_strlit("rh");
    reveal_strlit("guru-heal");
    reveal_strlit("gh");
    reveal_strlit("claim");
    reveal_strlit("reassign");
    reveal_strlit("send-trader");
    reveal_strlit("st");
    reveal_strlit("barb-hire");
    reveal_strlit("bh");
    reveal_strlit("barb-bribe");
    reveal_strlit("bb");
    reveal_strlit("barb-incite");
    reveal_strlit("bi");
    reveal_strlit("faith-buy");
    reveal_strlit("fb");
    reveal_strlit("governor-promote");
    reveal_strlit("gp-promote");
    assert("claim"@[0] != "board"@[0]);
    assert("claim"@[0] != "build"@[0]);
    assert("claim"@[0] != "queue"@[0]);
    assert("claim"@[0] != "units"@[0]);
    assert("claim"@[0] != "found"@[0]);
    assert("claim"@[0] != "techs"@[0]);
    assert("claim"@[0] != "trade"@[0]);
    assert("claim"@[0] != "peace"@[0]);
    assert("claim"@[0] != "diplo"@[0]);
    lemma_parse_i32_decimal(q);
    lemma_parse_i32_decimal(r);
    assert(is_plain_word("claim"@));
    lemma_coord_line("claim"@, q, r);
    assert(!in_cmd_group0("claim"@) && !in_cmd_group1("claim"@) && !in_cmd_group2("claim"@) && in_cmd_group3("claim"@));
}

/// `send-trader q r` or `st q r` names the tile `(q, r)` in the order typed: the first number
/// is `q`, the second `r`, whatever the numbers.
pub proof fn send_trader_keeps_coordinate_order(q: i32, r: i32, cmd: Cmd)
    ensures
        parse_cmd_spec(spaced3("send-trader"@, signed_decimal_string(q as int), signed_decimal_string(r as int)), cmd)
            ==> cmd == Cmd::SendTrader(q, r),
        parse_cmd_spec(spaced3("st"@, signed_decimal_string(q as int), signed_decimal_string(r as int)), cmd)
            ==> cmd == Cmd::SendTrader(q, r),
{
    reveal_strlit("move");
    reveal_strlit("m");
    reveal_strlit("go");
    reveal_strlit("board");
    reveal_strlit("status");
    reveal_strlit("s");
    reveal_strlit("end");
    reveal_strlit("e");
    reveal_strlit("next");
    reveal_strlit("n");
    reveal_strlit("quit");
    reveal_strlit("exit");
    reveal_strlit("help");
    reveal_strlit("h");
    reveal_strlit("?");
    reveal_strlit("tile");
    reveal_strlit("t");
    reveal_strlit("city");
    reveal_strlit("c");
    reveal_strlit("cities");
    reveal_strlit("cs");
    reveal_strlit("assign");
    reveal_strlit("a");
    reveal_strlit("lock");
    reveal_strlit("unassign");
    reveal_strlit("ua");
    reveal_strlit("build");
    reveal_strlit("b");
    reveal_strlit("cancel");
    reveal_strlit("queue");
    reveal_strlit("q");
    reveal_strlit("yields");
    reveal_strlit("y");
    reveal_strlit("units");
    reveal_strlit("u");
    reveal_strlit("select");
    reveal_strlit("sel");
    reveal_strlit("settle");
    reveal_strlit("found");
    reveal_strlit("attack");
    reveal_strlit("atk");
    reveal_strlit("techs");
    reveal_strlit("civics");
    reveal_strlit("switch");
    reveal_strlit("improve");
    reveal_strlit("imp");
    reveal_strlit("research");
    reveal_strlit("res");
    reveal_strlit("trade");
    reveal_strlit("tr");
    reveal_strlit("routes");
    reveal_strlit("rt");
    reveal_strlit("scores");
    reveal_strlit("sc");
    reveal_strlit("congress");
    reveal_strlit("wc");
    reveal_strlit("perform");
    reveal_strlit("district");
    reveal_strlit("dist");
    reveal_strlit("road");
    reveal_strlit("war");
    reveal_strlit("peace");
    reveal_strlit("government");
    reveal_strlit("gov");
    reveal_strlit("pantheon");
    reveal_strlit("religion");
    reveal_strlit("rel");
    reveal_strlit("great-people");
    reveal_strlit("gp");
    reveal_strlit("recruit");
    reveal_strlit("governor");
    reveal_strlit("diplomacy");
    reveal_strlit("diplo");
    reveal_strlit("policy");
    reveal_strlit("spread");
    reveal_strlit("theo-combat");
    reveal_strlit("tc");
    reveal_strlit("bombard");
    reveal_strlit("retire");
    reveal_strlit("great-work");
    reveal_strlit("gw");
    reveal_strlit("recruit-faith");
    reveal_strlit("rf");
    reveal_strlit("evangelize");
    reveal_strlit("inquisition");
    reveal_strlit("remove-heresy");
    reveal_strlit("rh");
    reveal_strlit("guru-heal");
    reveal_strlit("gh");
    reveal_strlit("claim");
    reveal_strlit("reassign");
    reveal_strlit("send-trader");
    reveal_strlit("st");
    reveal_strlit("barb-hire");
    reveal_strlit("bh");
    reveal_strlit("barb-bribe");
    reveal_strlit("bb");
    reveal_strlit("barb-incite");
    reveal_strlit("bi");
    reveal_strlit("faith-buy");
    reveal_strlit("fb");
    reveal_strlit("governor-promote");
    reveal_strlit("gp-promote");
    assert("send-trader"@[0] != "theo-combat"@[0]);
    assert("send-trader"@[0] != "inquisition"@[0]);
    assert("send-trader"@[0] != "barb-incite"@[0]);
    assert("st"@[0] != "go"@[0]);
    assert("st"@[0] != "cs"@[0]);
    assert("st"@[0] != "ua"@[0]);
    assert("st"@[0] != "tr"@[0]);
    assert("st"@[0] != "rt"@[0]);
    assert("st"@[1] != "sc"@[1]);
    assert("st"@[0] != "wc"@[0]);
    assert("st"@[0] != "gp"@[0]);
    assert("st"@[0] != "tc"@[0]);
    assert("st"@[0] != "gw"@[0]);
    assert("st"@[0] != "rf"@[0]);
    assert("st"@[0] != "rh"@[0]);
    assert("st"@[0] != "gh"@[0]);
    assert("st"@[0] != "bh"@[0]);
    assert("st"@[0] != "bb"@[0]);
    assert("st"@[0] != "bi"@[0]);
    assert("st"@[0] != "fb"@[0]);
    lemma_parse_i32_decimal(q);
    lemma_parse_i32_decimal(r);
    assert(is_plain_word("send-trader"@));
    lemma_coord_line("send-trader"@, q, r);
    assert(!in_cmd_group0("send-trader"@) && !in_cmd_group1("send-trader"@) && !in_cmd_group2("send-trader"@) && in_cmd_group3("send-trader"@));
    assert(is_plain_word("st"@));
    lemma_coord_line("st"@, q, r);
    assert(!in_cmd_group0("st"@) && !in_cmd_group1("st"@) && !in_cmd_group2("st"@) && in_cmd_group3("st"@));
}

/// `barb-hire q r` or `bh q r` names the tile `(q, r)` in the order typed: the first number
/// is `q`, the second `r`, whatever the numbers.
pub proof fn barb_hire_keeps_coordinate_order(q: i32, r: i32, cmd: Cmd)
    ensures
        parse_cmd_spec(spaced3("barb-hire"@, signed_decimal_string(q as int), signed_decimal_string(r as int)), cmd)
            ==> cmd == Cmd::BarbHire(q, r),
        parse_cmd_spec(spaced3("bh"@, signed_decimal_string(q as int), signed_decimal_string(r as int)), cmd)
            ==> cmd == Cmd::BarbHire(q, r),
{
    reveal_strlit("move");
    reveal_strlit("m");
    reveal_strlit("go");
    reveal_strlit("board");
    reveal_strlit("status");
    reveal_strlit("s");
    reveal_strlit("end");
    reveal_strlit("e");
    reveal_strlit("next");
    reveal_strlit("n");
    reveal_strlit("quit");
    reveal_strlit("exit");
    reveal_strlit("help");
    reveal_strlit("h");
    reveal_strlit("?");
    reveal_strlit("tile");
    reveal_strlit("t");
    reveal_strlit("city");
    reveal_strlit("c");
    reveal_strlit("cities");
    reveal_strlit("cs");
    reveal_strlit("assign");
    reveal_strlit("a");
    reveal_strlit("lock");
    reveal_strlit("unassign");
    reveal_strlit("ua");
    reveal_strlit("build");
    reveal_strlit("b");
    reveal_strlit("cancel");
    reveal_strlit("queue");
    reveal_strlit("q");
    reveal_strlit("yields");
    reveal_strlit("y");
    reveal_strlit("units");
    reveal_strlit("u");
    reveal_strlit("select");
    reveal_strlit("sel");
    reveal_strlit("settle");
    reveal_strlit("found");
    reveal_strlit("attack");
    reveal_strlit("atk");
    reveal_strlit("techs");
    reveal_strlit("civics");
    reveal_strlit("switch");
    reveal_strlit("improve");
    reveal_strlit("imp");
    reveal_strlit("research");
    reveal_strlit("res");
    reveal_strlit("trade");
    reveal_strlit("tr");
    reveal_strlit("routes");
    reveal_strlit("rt");
    reveal_strlit("scores");
    reveal_strlit("sc");
    reveal_strlit("congress");
    reveal_strlit("wc");
    reveal_strlit("perform");
    reveal_strlit("district");
    reveal_strlit("dist");
    reveal_strlit("road");
    reveal_strlit("war");
    reveal_strlit("peace");
    reveal_strlit("government");
    reveal_strlit("gov");
    reveal_strlit("pantheon");
    reveal_strlit("religion");
    reveal_strlit("rel");
    reveal_strlit("great-people");
    reveal_strlit("gp");
    reveal_strlit("recruit");
    reveal_strlit("governor");
    reveal_strlit("diplomacy");
    reveal_strlit("diplo");
    reveal_strlit("policy");
    reveal_strlit("spread");
    reveal_strlit("theo-combat");
    reveal_strlit("tc");
    reveal_strlit("bombard");
    reveal_strlit("retire");
    reveal_strlit("great-work");
    reveal_strlit("gw");
    reveal_strlit("recruit-faith");
    reveal_strlit("rf");
    reveal_strlit("evangelize");
    reveal_strlit("inquisition");
    reveal_strlit("remove-heresy");
    reveal_strlit("rh");
    reveal_strlit("guru-heal");
    reveal_strlit("gh");
    reveal_strlit("claim");
    reveal_strlit("reassign");
    reveal_strlit("send-trader");
    reveal_strlit("st");
    reveal_strlit("barb-hire");
    reveal_strlit("bh");
    reveal_strlit("barb-bribe");
    reveal_strlit("bb");
    reveal_strlit("barb-incite");
    reveal_strlit("bi");
    reveal_strlit("faith-buy");
    reveal_strlit("fb");
    reveal_strlit("governor-promote");
    reveal_strlit("gp-promote");
    assert("barb-hire"@[0] != "diplomacy"@[0]);
    assert("barb-hire"@[0] != "guru-heal"@[0]);
    assert("barb-hire"@[0] != "faith-buy"@[0]);
    assert("bh"@[0] != "go"@[0]);
    assert("bh"@[0] != "cs"@[0]);
    assert("bh"@[0] != "ua"@[0]);
    assert("bh"@[0] != "tr"@[0]);
    assert("bh"@[0] != "rt"@[0]);
    assert("bh"@[0] != "sc"@[0]);
    assert("bh"@[0] != "wc"@[0]);
    assert("bh"@[0] != "gp"@[0]);
    assert("bh"@[0] != "tc"@[0]);
    assert("bh"@[0] != "gw"@[0]);
    assert("bh"@[0] != "rf"@[0]);
    assert("bh"@[0] != "rh"@[0]);
    assert("bh"@[0] != "gh"@[0]);
    assert("bh"@[0] != "st"@[0]);
    assert("bh"@[1] != "bb"@[1]);
    assert("bh"@[1] != "bi"@[1]);
    assert("bh"@[0] != "fb"@[0]);
    lemma_parse_i32_decimal(q);
    lemma_parse_i32_decimal(r);
    assert(is_plain_word("barb-hire"@));
    lemma_coord_line("barb-hire"@, q, r);
    assert(!in_cmd_group0("barb-hire"@) && !in_cmd_group1("barb-hire"@) && !in_cmd_group2("barb-hire"@) && in_cmd_group3("barb-hire"@));
    assert(is_plain_word("bh"@));
    lemma_coord_line("bh"@, q, r);
    assert(!in_cmd_group0("bh"@) && !in_cmd_group1("bh"@) && !in_cmd_group2("bh"@) && in_cmd_group3("bh"@));
}

/// `barb-bribe q r` or `bb q r` names the tile `(q, r)` in the order typed: the first number
/// is `q`, the second `r`, whatever the numbers.
pub proof fn barb_bribe_keeps_coordinate_order(q: i32, r: i32, cmd: Cmd)
    ensures
        parse_cmd_spec(spaced3("barb-bribe"@, signed_decimal_string(q as int), signed_decimal_string(r as int)), cmd)
            ==> cmd == Cmd::BarbBribe(q, r),
        parse_cmd_spec(spaced3("bb"@, signed_decimal_string(q as int), signed_decimal_string(r as int)), cmd)
            ==> cmd == Cmd::BarbBribe(q, r),
{
    reveal_strlit("move");
    reveal_strlit("m");
    reveal_strlit("go");
    reveal_strlit("board");
    reveal_strlit("status");
    reveal_strlit("s");
    reveal_strlit("end");
    reveal_strlit("e");
    reveal_strlit("next");
    reveal_strlit("n");
    reveal_strlit("quit");
    reveal_strlit("exit");
    reveal_strlit("help");
    reveal_strlit("h");
    reveal_strlit("?");
    reveal_strlit("tile");
    reveal_strlit("t");
    reveal_strlit("city");
    reveal_strlit("c");
    reveal_strlit("cities");
    reveal_strlit("cs");
    reveal_strlit("assign");
    reveal_strlit("a");
    reveal_strlit("lock");
    reveal_strlit("unassign");
    reveal_strlit("ua");
    reveal_strlit("build");
    reveal_strlit("b");
    reveal_strlit("cancel");
    reveal_strlit("queue");
    reveal_strlit("q");
    reveal_strlit("yields");
    reveal_strlit("y");
    reveal_strlit("units");
    reveal_strlit("u");
    reveal_strlit("select");
    reveal_strlit("sel");
    reveal_strlit("settle");
    reveal_strlit("found");
    reveal_strlit("attack");
    reveal_strlit("atk");
    reveal_strlit("techs");
    reveal_strlit("civics");
    reveal_strlit("switch");
    reveal_strlit("improve");
    reveal_strlit("imp");
    reveal_strlit("research");
    reveal_strlit("res");
    reveal_strlit("trade");
    reveal_strlit("tr");
    reveal_strlit("routes");
    reveal_strlit("rt");
    reveal_strlit("scores");
    reveal_strlit("sc");
    reveal_strlit("congress");
    reveal_strlit("wc");
    reveal_strlit("perform");
    reveal_strlit("district");
    reveal_strlit("dist");
    reveal_strlit("road");
    reveal_strlit("war");
    reveal_strlit("peace");
    reveal_strlit("government");
    reveal_strlit("gov");
    reveal_strlit("pantheon");
    reveal_strlit("religion");
    reveal_strlit("rel");
    reveal_strlit("great-people");
    reveal_strlit("gp");
    reveal_strlit("recruit");
    reveal_strlit("governor");
    reveal_strlit("diplomacy");
    reveal_strlit("diplo");
    reveal_strlit("policy");
    reveal_strlit("spread");
    reveal_strlit("theo-combat");
    reveal_strlit("tc");
    reveal_strlit("bombard");
    reveal_strlit("retire");
    reveal_strlit("great-work");
    reveal_strlit("gw");
    reveal_strlit("recruit-faith");
    reveal_strlit("rf");
    reveal_strlit("evangelize");
    reveal_strlit("inquisition");
    reveal_strlit("remove-heresy");
    reveal_strlit("rh");
    reveal_strlit("guru-heal");
    reveal_strlit("gh");
    reveal_strlit("claim");
    reveal_strlit("reassign");
    reveal_strlit("send-trader");
    reveal_strlit("st");
    reveal_strlit("barb-hire");
    reveal_strlit("bh");
    reveal_strlit("barb-bribe");
    reveal_strlit("bb");
    reveal_strlit("barb-incite");
    reveal_strlit("bi");
    reveal_strlit("faith-buy");
    reveal_strlit("fb");
    reveal_strlit("governor-promote");
    reveal_strlit("gp-promote");
    assert("barb-bribe"@[0] != "government"@[0]);
    assert("barb-bribe"@[0] != "great-work"@[0]);
    assert("barb-bribe"@[0] != "evangelize"@[0]);
    assert("barb-bribe"@[0] != "gp-promote"@[0]);
    assert("bb"@[0] != "go"@[0]);
    assert("bb"@[0] != "cs"@[0]);
    assert("bb"@[0] != "ua"@[0]);
    assert("bb"@[0] != "tr"@[0]);
    assert("bb"@[0] != "rt"@[0]);
    assert("bb"@[0] != "sc"@[0]);
    assert("bb"@[0] != "wc"@[0]);
    assert("bb"@[0] != "gp"@[0]);
    assert("bb"@[0] != "tc"@[0]);
    assert("bb"@[0] != "gw"@[0]);
    assert("bb"@[0] != "rf"@[0]);
    assert("bb"@[0] != "rh"@[0]);
    assert("bb"@[0] != "gh"@[0]);
    assert("bb"@[0] != "st"@[0]);
    assert("bb"@[1] != "bh"@[1]);
    assert("bb"@[1] != "bi"@[1]);
    assert("bb"@[0] != "fb"@[0]);
    lemma_parse_i32_decimal(q);
    lemma_parse_i32_decimal(r);
    assert(is_plain_word("barb-bribe"@));
    lemma_coord_line("barb-bribe"@, q, r);
    assert(!in_cmd_group0("barb-bribe"@) && !in_cmd_group1("barb-bribe"@) && !in_cmd_group2("barb-bribe"@) && in_cmd_group3("barb-bribe"@));
    assert(is_plain_word("bb"@));
    lemma_coord_line("bb"@, q, r);
    assert(!in_cmd_group0("bb"@) && !in_cmd_group1("bb"@) && !in_cmd_group2("bb"@) && in_cmd_group3("bb"@));
}

/// The word of each command that takes no arguments.
pub open spec fn plain_command_word(c: Cmd) -> Seq<char> {
    match c {
        Cmd::Board => "board"@,
        Cmd::Status => "status"@,
        Cmd::EndTurn => "end"@,
        Cmd::Quit => "quit"@,
        Cmd::Help => "help"@,
        Cmd::City => "city"@,
        Cmd::Cities => "cities"@,
        Cmd::Cancel => "cancel"@,
        Cmd::Queue => "queue"@,
        Cmd::Yields => "yields"@,
        Cmd::Units => "units"@,
        Cmd::Techs => "techs"@,
        Cmd::Civics => "civics"@,
        Cmd::Routes => "routes"@,
        Cmd::Scores => "scores"@,
        Cmd::Congress => "congress"@,
        Cmd::Perform => "perform"@,
        Cmd::GreatPeople => "great-people"@,
        Cmd::Diplomacy => "diplomacy"@,
        Cmd::Spread => "spread"@,
        Cmd::Inquisition => "inquisition"@,
        Cmd::RemoveHeresy => "remove-heresy"@,
        Cmd::GuruHeal => "guru-heal"@,
        _ => Seq::empty(),
    }
}

/// Typing a command's word alone gives that command, so no two commands
/// share a word.
pub proof fn plain_commands_read_back(c: Cmd, cmd: Cmd)
    requires
        plain_command_word(c).len() > 0,
    ensures
        parse_cmd_spec(plain_command_word(c), cmd) ==> cmd == c,
{
    reveal_strlit("move");
    reveal_strlit("m");
    reveal_strlit("go");
    reveal_strlit("board");
    reveal_strlit("status");
    reveal_strlit("s");
    reveal_strlit("end");
    reveal_strlit("e");
    reveal_strlit("next");
    reveal_strlit("n");
    reveal_strlit("quit");
    reveal_strlit("exit");
    reveal_strlit("help");
    reveal_strlit("h");
    reveal_strlit("?");
    reveal_strlit("tile");
    reveal_strlit("t");
    reveal_strlit("city");
    reveal_strlit("c");
    reveal_strlit("cities");
    reveal_strlit("cs");
    reveal_strlit("assign");
    reveal_strlit("a");
    reveal_strlit("lock");
    reveal_strlit("unassign");
    reveal_strlit("ua");
    reveal_strlit("build");
    reveal_strlit("b");
    reveal_strlit("cancel");
    reveal_strlit("queue");
    reveal_strlit("q");
    reveal_strlit("yields");
    reveal_strlit("y");
    reveal_strlit("units");
    reveal_strlit("u");
    reveal_strlit("select");
    reveal_strlit("sel");
    reveal_strlit("settle");
    reveal_strlit("found");
    reveal_strlit("attack");
    reveal_strlit("atk");
    reveal_strlit("techs");
    reveal_strlit("civics");
    reveal_strlit("switch");
    reveal_strlit("improve");
    reveal_strlit("imp");
    reveal_strlit("research");
    reveal_strlit("res");
    reveal_strlit("trade");
    reveal_strlit("tr");
    reveal_strlit("routes");
    reveal_strlit("rt");
    reveal_strlit("scores");
    reveal_strlit("sc");
    reveal_strlit("congress");
    reveal_strlit("wc");
    reveal_strlit("perform");
    reveal_strlit("district");
    reveal_strlit("dist");
    reveal_strlit("road");
    reveal_strlit("war");
    reveal_strlit("peace");
    reveal_strlit("government");
    reveal_strlit("gov");
    reveal_strlit("pantheon");
    reveal_strlit("religion");
    reveal_strlit("rel");
    reveal_strlit("great-people");
    reveal_strlit("gp");
    reveal_strlit("recruit");
    reveal_strlit("governor");
    reveal_strlit("diplomacy");
    reveal_strlit("diplo");
    reveal_strlit("policy");
    reveal_strlit("spread");
    reveal_strlit("theo-combat");
    reveal_strlit("tc");
    reveal_strlit("bombard");
    reveal_strlit("retire");
    reveal_strlit("great-work");
    reveal_strlit("gw");
    reveal_strlit("recruit-faith");
    reveal_strlit("rf");
    reveal_strlit("evangelize");
    reveal_strlit("inquisition");
    reveal_strlit("remove-heresy");
    reveal_strlit("rh");
    reveal_strlit("guru-heal");
    reveal_strlit("gh");
    reveal_strlit("claim");
    reveal_strlit("reassign");
    reveal_strlit("send-trader");
    reveal_strlit("st");
    reveal_strlit("barb-hire");
    reveal_strlit("bh");
    reveal_strlit("barb-bribe");
    reveal_strlit("bb");
    reveal_strlit("barb-incite");
    reveal_strlit("bi");
    reveal_strlit("faith-buy");
    reveal_strlit("fb");
    reveal_strlit("governor-promote");
    reveal_strlit("gp-promote");
    assert("move"@.len() == 4);
    assert("m"@.len() == 1);
    assert("go"@.len() == 2);
    assert("board"@.len() == 5);
    assert("status"@.len() == 6);
    assert("s"@.len() == 1);
    assert("end"@.len() == 3);
    assert("e"@.len() == 1);
    assert("next"@.len() == 4);
    assert("n"@.len() == 1);
    assert("quit"@.len() == 4);
    assert("exit"@.len() == 4);
    assert("help"@.len() == 4);
    assert("h"@.len() == 1);
    assert("?"@.len() == 1);
    assert("tile"@.len() == 4);
    assert("t"@.len() == 1);
    assert("city"@.len() == 4);
    assert("c"@.len() == 1);
    assert("cities"@.len() == 6);
    assert("cs"@.len() == 2);
    assert("assign"@.len() == 6);
    assert("a"@.len() == 1);
    assert("lock"@.len() == 4);
    assert("unassign"@.len() == 8);
    assert("ua"@.len() == 2);
    assert("build"@.len() == 5);
    assert("b"@.len() == 1);
    assert("cancel"@.len() == 6);
    assert("queue"@.len() == 5);
    assert("q"@.len() == 1);
    assert("yields"@.len() == 6);
    assert("y"@.len() == 1);
    assert("units"@.len() == 5);
    assert("u"@.len() == 1);
    assert("select"@.len() == 6);
    assert("sel"@.len() == 3);
    assert("settle"@.len() == 6);
    assert("found"@.len() == 5);
    assert("attack"@.len() == 6);
    assert("atk"@.len() == 3);
    assert("techs"@.len() == 5);
    assert("civics"@.len() == 6);
    assert("switch"@.len() == 6);
    assert("improve"@.len() == 7);
    assert("imp"@.len() == 3);
    assert("research"@.len() == 8);
    assert("res"@.len() == 3);
    assert("trade"@.len() == 5);
    assert("tr"@.len() == 2);
    assert("routes"@.len() == 6);
    assert("rt"@.len() == 2);
    assert("scores"@.len() == 6);
    assert("sc"@.len() == 2);
    assert("congress"@.len() == 8);
    assert("wc"@.len() == 2);
    assert("perform"@.len() == 7);
    assert("district"@.len() == 8);
    assert("dist"@.len() == 4);
    assert("road"@.len() == 4);
    assert("war"@.len() == 3);
    assert("peace"@.len() == 5);
    assert("government"@.len() == 10);
    assert("gov"@.len() == 3);
    assert("pantheon"@.len() == 8);
    assert("religion"@.len() == 8);
    assert("rel"@.len() == 3);
    assert("great-people"@.len() == 12);
    assert("gp"@.len() == 2);
    assert("recruit"@.len() == 7);
    assert("governor"@.len() == 8);
    assert("diplomacy"@.len() == 9);
    assert("diplo"@.len() == 5);
    assert("policy"@.len() == 6);
    assert("spread"@.len() == 6);
    assert("theo-combat"@.len() == 11);
    assert("tc"@.len() == 2);
    assert("bombard"@.len() == 7);
    assert("retire"@.len() == 6);
    assert("great-work"@.len() == 10);
    assert("gw"@.len() == 2);
    assert("recruit-faith"@.len() == 13);
    assert("rf"@.len() == 2);
    assert("evangelize"@.len() == 10);
    assert("inquisition"@.len() == 11);
    assert("remove-heresy"@.len() == 13);
    assert("rh"@.len() == 2);
    assert("guru-heal"@.len() == 9);
    assert("gh"@.len() == 2);
    assert("claim"@.len() == 5);
    assert("reassign"@.len() == 8);
    assert("send-trader"@.len() == 11);
    assert("st"@.len() == 2);
    assert("barb-hire"@.len() == 9);
    assert("bh"@.len() == 2);
    assert("barb-bribe"@.len() == 10);
    assert("bb"@.len() == 2);
    assert("barb-incite"@.len() == 11);
    assert("bi"@.len() == 2);
    assert("faith-buy"@.len() == 9);
    assert("fb"@.len() == 2);
    assert("governor-promote"@.len() == 16);
    assert("gp-promote"@.len() == 10);
    match c {
        Cmd::Board => {
            assert("board"@[1] != "build"@[1]);
            assert("board"@[0] != "queue"@[0]);
            assert("board"@[0] != "units"@[0]);
            assert("board"@[0] != "found"@[0]);
            assert("board"@[0] != "techs"@[0]);
            assert("board"@[0] != "trade"@[0]);
            assert("board"@[0] != "peace"@[0]);
            assert("board"@[0] != "diplo"@[0]);
            assert("board"@[0] != "claim"@[0]);
            assert(is_plain_word("board"@));
            one_word("board"@);
            assert(in_cmd_group0("board"@));
        },
        Cmd::Status => {
            assert("status"@[0] != "cities"@[0]);
            assert("status"@[0] != "assign"@[0]);
            assert("status"@[0] != "cancel"@[0]);
            assert("status"@[0] != "yields"@[0]);
            assert("status"@[1] != "select"@[1]);
            assert("status"@[1] != "settle"@[1]);
            assert("status"@[0] != "attack"@[0]);
            assert("status"@[0] != "civics"@[0]);
            assert("status"@[1] != "switch"@[1]);
            assert("status"@[0] != "routes"@[0]);
            assert("status"@[1] != "scores"@[1]);
            assert("status"@[0] != "policy"@[0]);
            assert("status"@[1] != "spread"@[1]);
            assert("status"@[0] != "retire"@[0]);
            assert(is_plain_word("status"@));
            one_word("status"@);
            assert(in_cmd_group0("status"@));
        },
        Cmd::EndTurn => {
            assert("end"@[0] != "sel"@[0]);
            assert("end"@[0] != "atk"@[0]);
            assert("end"@[0] != "imp"@[0]);
            assert("end"@[0] != "res"@[0]);
            assert("end"@[0] != "war"@[0]);
            assert("end"@[0] != "gov"@[0]);
            assert("end"@[0] != "rel"@[0]);
            assert(is_plain_word("end"@));
            one_word("end"@);
            assert(in_cmd_group0("end"@));
        },
        Cmd::Quit => {
            assert("quit"@[0] != "move"@[0]);
            assert("quit"@[0] != "next"@[0]);
            assert("quit"@[0] != "exit"@[0]);
            assert("quit"@[0] != "help"@[0]);
            assert("quit"@[0] != "tile"@[0]);
            assert("quit"@[0] != "city"@[0]);
            assert("quit"@[0] != "lock"@[0]);
            assert("quit"@[0] != "dist"@[0]);
            assert("quit"@[0] != "road"@[0]);
            assert(is_plain_word("quit"@));
            one_word("quit"@);
            assert(in_cmd_group0("quit"@));
        },
        Cmd::Help => {
            assert("help"@[0] != "move"@[0]);
            assert("help"@[0] != "next"@[0]);
            assert("help"@[0] != "quit"@[0]);
            assert("help"@[0] != "exit"@[0]);
            assert("help"@[0] != "tile"@[0]);
            assert("help"@[0] != "city"@[0]);
            assert("help"@[0] != "lock"@[0]);
            assert("help"@[0] != "dist"@[0]);
            assert("help"@[0] != "road"@[0]);
            assert(is_plain_word("help"@));
            one_word("help"@);
            assert(in_cmd_group0("help"@));
        },
        Cmd::City => {
            assert("city"@[0] != "move"@[0]);
            assert("city"@[0] != "next"@[0]);
            assert("city"@[0] != "quit"@[0]);
            assert("city"@[0] != "exit"@[0]);
            assert("city"@[0] != "help"@[0]);
            assert("city"@[0] != "tile"@[0]);
            assert("city"@[0] != "lock"@[0]);
            assert("city"@[0] != "dist"@[0]);
            assert("city"@[0] != "road"@[0]);
            assert(is_plain_word("city"@));
            one_word("city"@);
            assert(in_cmd_group0("city"@));
        },
        Cmd::Cities => {
            assert("cities"@[0] != "status"@[0]);
            assert("cities"@[0] != "assign"@[0]);
            assert("cities"@[1] != "cancel"@[1]);
            assert("cities"@[0] != "yields"@[0]);
            assert("cities"@[0] != "select"@[0]);
            assert("cities"@[0] != "settle"@[0]);
            assert("cities"@[0] != "attack"@[0]);
            assert("cities"@[2] != "civics"@[2]);
            assert("cities"@[0] != "switch"@[0]);
            assert("cities"@[0] != "routes"@[0]);
            assert("cities"@[0] != "scores"@[0]);
            assert("cities"@[0] != "policy"@[0]);
            assert("cities"@[0] != "spread"@[0]);
            assert("cities"@[0] != "retire"@[0]);
            assert(is_plain_word("cities"@));
            one_word("cities"@);
            assert(in_cmd_group0("cities"@));
        },
        Cmd::Cancel => {
            assert("cancel"@[0] != "status"@[0]);
            assert("cancel"@[1] != "cities"@[1]);
            assert("cancel"@[0] != "assign"@[0]);
            assert("cancel"@[0] != "yields"@[0]);
            assert("cancel"@[0] != "select"@[0]);
            assert("cancel"@[0] != "settle"@[0]);
            assert("cancel"@[0] != "attack"@[0]);
            assert("cancel"@[1] != "civics"@[1]);
            assert("cancel"@[0] != "switch"@[0]);
            assert("cancel"@[0] != "routes"@[0]);
            assert("cancel"@[0] != "scores"@[0]);
            assert("cancel"@[0] != "policy"@[0]);
            assert("cancel"@[0] != "spread"@[0]);
            assert("cancel"@[0] != "retire"@[0]);
            assert(is_plain_word("cancel"@));
            one_word("cancel"@);
            assert(in_cmd_group0("cancel"@));
        },
        Cmd::Queue => {
            assert("queue"@[0] != "board"@[0]);
            assert("queue"@[0] != "build"@[0]);
            assert("queue"@[0] != "units"@[0]);
            assert("queue"@[0] != "found"@[0]);
            assert("queue"@[0] != "techs"@[0]);
            assert("queue"@[0] != "trade"@[0]);
            assert("queue"@[0] != "peace"@[0]);
            assert("queue"@[0] != "diplo"@[0]);
            assert("queue"@[0] != "claim"@[0]);
            assert(is_plain_word("queue"@));
            one_word("queue"@);
            assert(in_cmd_group0("queue"@));
        },
        Cmd::Yields => {
            assert("yields"@[0] != "status"@[0]);
            assert("yields"@[0] != "cities"@[0]);
            assert("yields"@[0] != "assign"@[0]);
            assert("yields"@[0] != "cancel"@[0]);
            assert("yields"@[0] != "select"@[0]);
            assert("yields"@[0] != "settle"@[0]);
            assert("yields"@[0] != "attack"@[0]);
            assert("yields"@[0] != "civics"@[0]);
            assert("yields"@[0] != "switch"@[0]);
            assert("yields"@[0] != "routes"@[0]);
            assert("yields"@[0] != "scores"@[0]);
            assert("yields"@[0] != "policy"@[0]);
            assert("yields"@[0] != "spread"@[0]);
            assert("yields"@[0] != "retire"@[0]);
            assert(is_plain_word("yields"@));
            one_word("yields"@);
            assert(!in_cmd_group0("yields"@) && in_cmd_group1("yields"@));
        },
        Cmd::Units => {
            assert("units"@[0] != "board"@[0]);
            assert("units"@[0] != "build"@[0]);
            assert("units"@[0] != "queue"@[0]);
            assert("units"@[0] != "found"@[0]);
            assert("units"@[0] != "techs"@[0]);
            assert("units"@[0] != "trade"@[0]);
            assert("units"@[0] != "peace"@[0]);
            assert("units"@[0] != "diplo"@[0]);
            assert("units"@[0] != "claim"@[0]);
            assert(is_plain_word("units"@));
            one_word("units"@);
            assert(!in_cmd_group0("units"@) && in_cmd_group1("units"@));
        },
        Cmd::Techs => {
            assert("techs"@[0] != "board"@[0]);
            assert("techs"@[0] != "build"@[0]);
            assert("techs"@[0] != "queue"@[0]);
            assert("techs"@[0] != "units"@[0]);
            assert("techs"@[0] != "found"@[0]);
            assert("techs"@[1] != "trade"@[1]);
            assert("techs"@[0] != "peace"@[0]);
            assert("techs"@[0] != "diplo"@[0]);
            assert("techs"@[0] != "claim"@[0]);
            assert(is_plain_word("techs"@));
            one_word("techs"@);
            assert(!in_cmd_group0("techs"@) && in_cmd_group1("techs"@));
        },
        Cmd::Civics => {
            assert("civics"@[0] != "status"@[0]);
            assert("civics"@[2] != "cities"@[2]);
            assert("civics"@[0] != "assign"@[0]);
            assert("civics"@[1] != "cancel"@[1]);
            assert("civics"@[0] != "yields"@[0]);
            assert("civics"@[0] != "select"@[0]);
            assert("civics"@[0] != "settle"@[0]);
            assert("civics"@[0] != "attack"@[0]);
            assert("civics"@[0] != "switch"@[0]);
            assert("civics"@[0] != "routes"@[0]);
            assert("civics"@[0] != "scores"@[0]);
            assert("civics"@[0] != "policy"@[0]);
            assert("civics"@[0] != "spread"@[0]);
            assert("civics"@[0] != "retire"@[0]);
            assert(is_plain_word("civics"@));
            one_word("civics"@);
            assert(!in_cmd_group0("civics"@) && in_cmd_group1("civics"@));
        },
        Cmd::Routes => {
            assert("routes"@[0] != "status"@[0]);
            assert("routes"@[0] != "cities"@[0]);
            assert("routes"@[0] != "assign"@[0]);
            assert("routes"@[0] != "cancel"@[0]);
            assert("routes"@[0] != "yields"@[0]);
            assert("routes"@[0] != "select"@[0]);
            assert("routes"@[0] != "settle"@[0]);
            assert("routes"@[0] != "attack"@[0]);
            assert("routes"@[0] != "civics"@[0]);
            assert("routes"@[0] != "switch"@[0]);
            assert("routes"@[0] != "scores"@[0]);
            assert("routes"@[0] != "policy"@[0]);
            assert("routes"@[0] != "spread"@[0]);
            assert("routes"@[1] != "retire"@[1]);
            assert(is_plain_word("routes"@));
            one_word("routes"@);
            assert(!in_cmd_group0("routes"@) && in_cmd_group1("routes"@));
        },
        Cmd::Scores => {
            assert("scores"@[1] != "status"@[1]);
            assert("scores"@[0] != "cities"@[0]);
            assert("scores"@[0] != "assign"@[0]);
            assert("scores"@[0] != "cancel"@[0]);
            assert("scores"@[0] != "yields"@[0]);
            assert("scores"@[1] != "select"@[1]);
            assert("scores"@[1] != "settle"@[1]);
            assert("scores"@[0] != "attack"@[0]);
            assert("scores"@[0] != "civics"@[0]);
            assert("scores"@[1] != "switch"@[1]);
            assert("scores"@[0] != "routes"@[0]);
            assert("scores"@[0] != "policy"@[0]);
            assert("scores"@[1] != "spread"@[1]);
            assert("scores"@[0] != "retire"@[0]);
            assert(is_plain_word("scores"@));
            one_word("scores"@);
            assert(!in_cmd_group0("scores"@) && in_cmd_group1("scores"@));
        },
        Cmd::Congress => {
            assert("congress"@[0] != "unassign"@[0]);
            assert("congress"@[0] != "research"@[0]);
            assert("congress"@[0] != "district"@[0]);
            assert("congress"@[0] != "pantheon"@[0]);
            assert("congress"@[0] != "religion"@[0]);
            assert("congress"@[0] != "governor"@[0]);
            assert("congress"@[0] != "reassign"@[0]);
            assert(is_plain_word("congress"@));
            one_word("congress"@);
            assert(!in_cmd_group0("congress"@) && in_cmd_group1("congress"@));
        },
        Cmd::Perform => {
            assert("perform"@[0] != "improve"@[0]);
            assert("perform"@[0] != "recruit"@[0]);
            assert("perform"@[0] != "bombard"@[0]);
            assert(is_plain_word("perform"@));
            one_word("perform"@);
            assert(!in_cmd_group0("perform"@) && in_cmd_group1("perform"@));
        },
        Cmd::GreatPeople => {

            assert(is_plain_word("great-people"@));
            one_word("great-people"@);
            assert(!in_cmd_group0("great-people"@) && !in_cmd_group1("great-people"@) && in_cmd_group2("great-people"@));
        },
        Cmd::Diplomacy => {
            assert("diplomacy"@[0] != "guru-heal"@[0]);
            assert("diplomacy"@[0] != "barb-hire"@[0]);
            assert("diplomacy"@[0] != "faith-buy"@[0]);
            assert(is_plain_word("diplomacy"@));
            one_word("diplomacy"@);
            assert(!in_cmd_group0("diplomacy"@) && !in_cmd_group1("diplomacy"@) && in_cmd_group2("diplomacy"@));
        },
        Cmd::Spread => {
            assert("spread"@[1] != "status"@[1]);
            assert("spread"@[0] != "cities"@[0]);
            assert("spread"@[0] != "assign"@[0]);
            assert("spread"@[0] != "cancel"@[0]);
            assert("spread"@[0] != "yields"@[0]);
            assert("spread"@[1] != "select"@[1]);
            assert("spread"@[1] != "settle"@[1]);
            assert("spread"@[0] != "attack"@[0]);
            assert("spread"@[0] != "civics"@[0]);
            assert("spread"@[1] != "switch"@[1]);
            assert("spread"@[0] != "routes"@[0]);
            assert("spread"@[1] != "scores"@[1]);
            assert("spread"@[0] != "policy"@[0]);
            assert("spread"@[0] != "retire"@[0]);
            assert(is_plain_word("spread"@));
            one_word("spread"@);
            assert(!in_cmd_group0("spread"@) && !in_cmd_group1("spread"@) && in_cmd_group2("spread"@));
        },
        Cmd::Inquisition => {
            assert("inquisition"@[0] != "theo-combat"@[0]);
            assert("inquisition"@[0] != "send-trader"@[0]);
            assert("inquisition"@[0] != "barb-incite"@[0]);
            assert(is_plain_word("inquisition"@));
            one_word("inquisition"@);
            assert(!in_cmd_group0("inquisition"@) && !in_cmd_group1("inquisition"@) && !in_cmd_group2("inquisition"@) && in_cmd_group3("inquisition"@));
        },
        Cmd::RemoveHeresy => {
            assert("remove-heresy"@[2] != "recruit-faith"@[2]);
            assert(is_plain_word("remove-heresy"@));
            one_word("remove-heresy"@);
            assert(!in_cmd_group0("remove-heresy"@) && !in_cmd_group1("remove-heresy"@) && !in_cmd_group2("remove-heresy"@) && in_cmd_group3("remove-heresy"@));
        },
        Cmd::GuruHeal => {
            assert("guru-heal"@[0] != "diplomacy"@[0]);
            assert("guru-heal"@[0] != "barb-hire"@[0]);
            assert("guru-heal"@[0] != "faith-buy"@[0]);
            assert(is_plain_word("guru-heal"@));
            one_word("guru-heal"@);
            assert(!in_cmd_group0("guru-heal"@) && !in_cmd_group1("guru-heal"@) && !in_cmd_group2("guru-heal"@) && in_cmd_group3("guru-heal"@));
        },
        _ => {},
    }
}

} // verus!
