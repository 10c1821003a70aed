//! Text command parser for the interactive REPL: one line of input becomes
//! one `ReplCommand`.

use vstd::prelude::*;

use crate::api::coord::HexDir;
use crate::cli::args::ActionKind;
use crate::number::{
    decimal_string, is_digit, lemma_decimal_string_value, lemma_parse_i32_decimal, parse_i32, signed_decimal_string,
    spec_parse_i32,
};
use crate::text::{
    ascii_lowercased, chars_of, eq_ignore_ascii_case, is_plain_word, one_word, join_from, spaced3, spaced3_words, join_spaced, lowercase_text, spec_to_lowercase, split_whitespace, string_of,
    to_lowercase, trim, trim_chars, lemma_trimmed_has_word, word_eq_ignore_ascii_case, words, is_word, extend_chars, extend_str,
};

verus! {

/// A parsed REPL command.
#[derive(Debug, Clone, PartialEq, Eq)]
pub enum ReplCommand {
    /// Delegate to the action dispatcher with the constructed `ActionKind`.
    Action(ActionKind),
    /// Read-only query; printed inline.
    Query(QueryKind),
    /// End the current turn (run AI, advance, save).
    EndTurn,
    /// Redraw the board.
    Board,
    /// Select a unit at the given (q, r) coordinate.
    SelectUnit(i32, i32),
    /// Move the selected unit in a hex direction.
    MoveDirection(HexDir),
    /// Select a unit by ID suffix and show its details.
    UnitSelect(String),
    /// Select a city by name or ID suffix and show its details.
    CitySelect(String),
    /// Save the game state to disk.
    Save,
    /// Print the help text.
    Help,
    /// Quit (save and exit).
    Quit,
    /// Unrecognized input.
    Unknown(String),
}

/// Read-only query variants.
#[derive(Debug, Clone, Copy, PartialEq, Eq)]
pub enum QueryKind {
    Units,
    Cities,
    Yields,
    Techs,
    Civics,
    Scores,
    Diplomacy,
    Tile(i32, i32),
    BuildList,
    ResearchList,
    CivicsList,
}

// ───────────────────────────── Specification ─────────────────────────────────

/// The direction a lowercased word names.
pub open spec fn direction_word(w: Seq<char>) -> Option<HexDir> {
    if w == "e"@ || w == "east"@ {
        Some(HexDir::E)
    } else if w == "w"@ || w == "west"@ {
        Some(HexDir::W)
    } else if w == "ne"@ || w == "northeast"@ {
        Some(HexDir::NE)
    } else if w == "nw"@ || w == "northwest"@ {
        Some(HexDir::NW)
    } else if w == "se"@ || w == "southeast"@ {
        Some(HexDir::SE)
    } else if w == "sw"@ || w == "southwest"@ {
        Some(HexDir::SW)
    } else {
        None
    }
}

/// The direction `s` names, in any case.
pub open spec fn spec_parse_direction(s: Seq<char>) -> Option<HexDir> {
    direction_word(lowercase_text(s))
}

/// `w` is one of the literal words of a `list` sub-query.
pub open spec fn is_list_word(w: Seq<char>) -> bool {
    eq_ignore_ascii_case(w, "list"@) || eq_ignore_ascii_case(w, "ls"@)
}

/// `r` is `Unknown` carrying exactly `msg`.
pub open spec fn unknown_is(r: ReplCommand, msg: Seq<char>) -> bool {
    r matches ReplCommand::Unknown(m) && m@ == msg
}

/// The words joined by spaces from index `k` on.
pub open spec fn rest_from(t: Seq<Seq<char>>, k: int) -> Seq<char> {
    join_spaced(t.skip(k))
}

/// Both of `t[i]` and `t[j]` are `i32` numbers.
pub open spec fn two_ints(t: Seq<Seq<char>>, i: int, j: int) -> bool {
    spec_parse_i32(t[i]) is Some && spec_parse_i32(t[j]) is Some
}

/// Movement, combat and founding commands.
pub open spec fn move_group_spec(cmd: Seq<char>, t: Seq<Seq<char>>, unit: Seq<char>, r: ReplCommand) -> bool {
    let n = t.len();
    if cmd == "move"@ || cmd == "m"@ || cmd == "go"@ {
        if n >= 2 && spec_parse_direction(t[1]) is Some {
            r == ReplCommand::MoveDirection(spec_parse_direction(t[1])->0)
        } else if n >= 3 && two_ints(t, n - 2, n - 1) {
            r matches ReplCommand::Action(ActionKind::Move { unit: u, to_q, to_r }) && u@ == (if n >= 4 {
                t[1]
            } else {
                unit
            }) && to_q == spec_parse_i32(t[n - 2])->0 && to_r == spec_parse_i32(t[n - 1])->0
        } else {
            unknown_is(r, "Usage: move <dir> | move [unit] <q> <r>"@)
        }
    } else if spec_parse_direction(cmd) is Some {
        r == ReplCommand::MoveDirection(spec_parse_direction(cmd)->0)
    } else if cmd == "attack"@ || cmd == "atk"@ {
        if n >= 2 {
            r matches ReplCommand::Action(ActionKind::Attack { unit: u, target }) && u@ == (if n >= 3 {
                t[1]
            } else {
                unit
            }) && target@ == (if n >= 3 {
                t[2]
            } else {
                t[1]
            })
        } else {
            unknown_is(r, "Usage: attack [unit] <target>"@)
        }
    } else {
        r matches ReplCommand::Action(ActionKind::FoundCity { unit: u, name }) && u@ == (if n >= 3 {
            t[1]
        } else {
            unit
        }) && name@ == (if n >= 3 {
            rest_from(t, 2)
        } else if n == 2 {
            t[1]
        } else {
            "New City"@
        })
    }
}

/// Is `cmd` handled by `move_group_spec`.
pub open spec fn is_move_group(cmd: Seq<char>) -> bool {
    ||| cmd == "move"@ || cmd == "m"@ || cmd == "go"@
    ||| spec_parse_direction(cmd) is Some
    ||| cmd == "attack"@ || cmd == "atk"@
    ||| cmd == "settle"@ || cmd == "found-city"@ || cmd == "found"@
}

/// Production, research and civic commands.
pub open spec fn production_group_spec(cmd: Seq<char>, t: Seq<Seq<char>>, city: Seq<char>, r: ReplCommand) -> bool {
    let n = t.len();
    if cmd == "build"@ || cmd == "b"@ {
        if n >= 2 && is_list_word(t[1]) {
            r == ReplCommand::Query(QueryKind::BuildList)
        } else if n >= 2 {
            r matches ReplCommand::Action(ActionKind::Build { city: c, item }) && c@ == city && item@ == rest_from(t, 1)
        } else {
            unknown_is(r, "Usage: build <item> | build list"@)
        }
    } else if cmd == "cancel-production"@ || cmd == "cancel"@ {
        r matches ReplCommand::Action(ActionKind::CancelProduction { city: c }) && c@ == city
    } else if cmd == "research"@ || cmd == "res"@ {
        if n >= 2 && is_list_word(t[1]) {
            r == ReplCommand::Query(QueryKind::ResearchList)
        } else if n >= 2 {
            r matches ReplCommand::Action(ActionKind::Research { tech }) && tech@ == rest_from(t, 1)
        } else {
            unknown_is(r, "Usage: research <tech> | research list"@)
        }
    } else {
        if n >= 2 && is_list_word(t[1]) {
            r == ReplCommand::Query(QueryKind::CivicsList)
        } else if n >= 2 {
            r matches ReplCommand::Action(ActionKind::StudyCivic { civic }) && civic@ == rest_from(t, 1)
        } else {
            unknown_is(r, "Usage: culture <civic> | culture list"@)
        }
    }
}

pub open spec fn is_production_group(cmd: Seq<char>) -> bool {
    ||| cmd == "build"@ || cmd == "b"@
    ||| cmd == "cancel-production"@ || cmd == "cancel"@
    ||| cmd == "research"@ || cmd == "res"@
    ||| cmd == "culture"@ || cmd == "civic"@
}

/// Improvement, road, district and diplomacy commands.
pub open spec fn map_group_spec(cmd: Seq<char>, t: Seq<Seq<char>>, unit: Seq<char>, city: Seq<char>, r: ReplCommand) -> bool {
    let n = t.len();
    if cmd == "improve"@ || cmd == "imp"@ {
        if n >= 2 {
            r matches ReplCommand::Action(
                ActionKind::PlaceImprovement { coord_q, coord_r, improvement, builder: Some(b) },
            ) && coord_q == 0 && coord_r == 0 && improvement@ == rest_from(t, 1) && b@ == unit
        } else {
            unknown_is(r, "Usage: improve <type>"@)
        }
    } else if cmd == "road"@ {
        if n >= 3 && two_ints(t, n - 2, n - 1) {
            r matches ReplCommand::Action(ActionKind::PlaceRoad { unit: u, q, r: rr }) && u@ == (if n >= 4 {
                t[1]
            } else {
                unit
            }) && q == spec_parse_i32(t[n - 2])->0 && rr == spec_parse_i32(t[n - 1])->0
        } else {
            unknown_is(r, "Usage: road [unit] <q> <r>"@)
        }
    } else if cmd == "district"@ || cmd == "dist"@ {
        if n >= 4 && two_ints(t, 2, 3) {
            r matches ReplCommand::Action(ActionKind::PlaceDistrict { city: c, district, q, r: rr }) && c@ == city
                && district@ == t[1] && q == spec_parse_i32(t[2])->0 && rr == spec_parse_i32(t[3])->0
        } else {
            unknown_is(r, "Usage: district <type> <q> <r>"@)
        }
    } else if cmd == "declare-war"@ || cmd == "war"@ {
        if n >= 2 {
            r matches ReplCommand::Action(ActionKind::DeclareWar { target }) && target@ == rest_from(t, 1)
        } else {
            unknown_is(r, "Usage: declare-war <civ>"@)
        }
    } else if cmd == "make-peace"@ || cmd == "peace"@ {
        if n >= 2 {
            r matches ReplCommand::Action(ActionKind::MakePeace { target }) && target@ == rest_from(t, 1)
        } else {
            unknown_is(r, "Usage: make-peace <civ>"@)
        }
    } else {
        if n >= 3 {
            r matches ReplCommand::Action(ActionKind::FormAlliance { target, alliance_type }) && target@ == t[1]
                && alliance_type@ == t[2]
        } else {
            unknown_is(r, "Usage: form-alliance <civ> <type>"@)
        }
    }
}

pub open spec fn is_map_group(cmd: Seq<char>) -> bool {
    ||| cmd == "improve"@ || cmd == "imp"@
    ||| cmd == "road"@
    ||| cmd == "district"@ || cmd == "dist"@
    ||| cmd == "declare-war"@ || cmd == "war"@
    ||| cmd == "make-peace"@ || cmd == "peace"@
    ||| cmd == "form-alliance"@ || cmd == "alliance"@
}

/// Government, trade, religion, great-people, governor and promotion
/// commands.
pub open spec fn civ_group_spec(cmd: Seq<char>, t: Seq<Seq<char>>, unit: Seq<char>, r: ReplCommand) -> bool {
    let n = t.len();
    if cmd == "assign-policy"@ || cmd == "policy"@ {
        if n >= 2 {
            r matches ReplCommand::Action(ActionKind::AssignPolicy { policy }) && policy@ == rest_from(t, 1)
        } else {
            unknown_is(r, "Usage: assign-policy <policy>"@)
        }
    } else if cmd == "adopt-government"@ || cmd == "gov"@ {
        if n >= 2 {
            r matches ReplCommand::Action(ActionKind::AdoptGovernment { name }) && name@ == rest_from(t, 1)
        } else {
            unknown_is(r, "Usage: adopt-government <name>"@)
        }
    } else if cmd == "trade"@ {
        if n >= 2 {
            r matches ReplCommand::Action(ActionKind::EstablishTradeRoute { unit: u, dest_city }) && u@ == (if n
                >= 3 {
                t[1]
            } else {
                unit
            }) && dest_city@ == (if n >= 3 {
                t[2]
            } else {
                t[1]
            })
        } else {
            unknown_is(r, "Usage: trade [unit] <dest_city>"@)
        }
    } else if cmd == "found-pantheon"@ || cmd == "pantheon"@ {
        if n >= 2 {
            r matches ReplCommand::Action(ActionKind::FoundPantheon { belief }) && belief@ == t[1]
        } else {
            unknown_is(r, "Usage: found-pantheon <belief>"@)
        }
    } else if cmd == "found-religion"@ || cmd == "religion"@ {
        if n >= 4 {
            r matches ReplCommand::Action(ActionKind::FoundReligion { prophet, name, beliefs }) && prophet@ == t[1]
                && name@ == t[2] && beliefs@.len() == n - 3 && forall|k: int|
                0 <= k < n - 3 ==> (#[trigger] beliefs@[k])@ == t[k + 3]
        } else {
            unknown_is(r, "Usage: found-religion <prophet> <name> <belief1> [belief2...]"@)
        }
    } else if cmd == "spread"@ {
        r matches ReplCommand::Action(ActionKind::SpreadReligion { unit: u }) && u@ == (if n >= 2 {
            t[1]
        } else {
            unit
        })
    } else if cmd == "recruit-gp"@ || cmd == "recruit"@ {
        if n >= 2 {
            r matches ReplCommand::Action(ActionKind::RecruitGreatPerson { person_type }) && person_type@ == t[1]
        } else {
            unknown_is(r, "Usage: recruit-gp <type>"@)
        }
    } else if cmd == "assign-governor"@ || cmd == "governor"@ {
        if n >= 3 {
            r matches ReplCommand::Action(ActionKind::AssignGovernor { governor, city: c }) && governor@ == t[1]
                && c@ == t[2]
        } else {
            unknown_is(r, "Usage: assign-governor <governor> <city>"@)
        }
    } else {
        if n >= 2 {
            r matches ReplCommand::Action(ActionKind::PromoteUnit { unit: u, promotion }) && u@ == (if n >= 3 {
                t[1]
            } else {
                unit
            }) && promotion@ == (if n >= 3 {
                rest_from(t, 2)
            } else {
                t[1]
            })
        } else {
            unknown_is(r, "Usage: promote [unit] <promotion>"@)
        }
    }
}

pub open spec fn is_civ_group(cmd: Seq<char>) -> bool {
    ||| cmd == "assign-policy"@ || cmd == "policy"@
    ||| cmd == "adopt-government"@ || cmd == "gov"@
    ||| cmd == "trade"@
    ||| cmd == "found-pantheon"@ || cmd == "pantheon"@
    ||| cmd == "found-religion"@ || cmd == "religion"@
    ||| cmd == "spread"@
    ||| cmd == "recruit-gp"@ || cmd == "recruit"@
    ||| cmd == "assign-governor"@ || cmd == "governor"@
    ||| cmd == "promote-unit"@ || cmd == "promote"@
}

/// Turn, selection, query and session commands; anything else is unknown.
pub open spec fn session_group_spec(cmd: Seq<char>, t: Seq<Seq<char>>, r: ReplCommand) -> bool {
    let n = t.len();
    if cmd == "end-turn"@ || cmd == "end"@ || cmd == "n"@ || cmd == "next"@ {
        r == ReplCommand::EndTurn
    } else if cmd == "select"@ || cmd == "sel"@ {
        if n >= 3 && two_ints(t, 1, 2) {
            r == ReplCommand::SelectUnit(spec_parse_i32(t[1])->0, spec_parse_i32(t[2])->0)
        } else {
            unknown_is(r, "Usage: select <q> <r>"@)
        }
    } else if cmd == "units"@ || cmd == "u"@ {
        r == ReplCommand::Query(QueryKind::Units)
    } else if cmd == "cities"@ || cmd == "cs"@ {
        r == ReplCommand::Query(QueryKind::Cities)
    } else if cmd == "yields"@ || cmd == "y"@ {
        r == ReplCommand::Query(QueryKind::Yields)
    } else if cmd == "techs"@ {
        r == ReplCommand::Query(QueryKind::Techs)
    } else if cmd == "civics"@ {
        r == ReplCommand::Query(QueryKind::Civics)
    } else if cmd == "scores"@ || cmd == "sc"@ {
        r == ReplCommand::Query(QueryKind::Scores)
    } else if cmd == "diplomacy"@ || cmd == "diplo"@ {
        r == ReplCommand::Query(QueryKind::Diplomacy)
    } else if cmd == "tile"@ || cmd == "t"@ {
        if n >= 3 && two_ints(t, 1, 2) {
            r == ReplCommand::Query(QueryKind::Tile(spec_parse_i32(t[1])->0, spec_parse_i32(t[2])->0))
        } else {
            unknown_is(r, "Usage: tile <q> <r>"@)
        }
    } else if cmd == "city"@ {
        if n >= 2 {
            r matches ReplCommand::CitySelect(c) && c@ == rest_from(t, 1)
        } else {
            unknown_is(r, "Usage: city <name_or_suffix>"@)
        }
    } else if cmd == "unit"@ {
        if n >= 2 {
            r matches ReplCommand::UnitSelect(u) && u@ == t[1]
        } else {
            unknown_is(r, "Usage: unit <id>"@)
        }
    } else if cmd == "board"@ || cmd == "map"@ {
        r == ReplCommand::Board
    } else if cmd == "save"@ {
        r == ReplCommand::Save
    } else if cmd == "help"@ || cmd == "h"@ || cmd == "?"@ {
        r == ReplCommand::Help
    } else if cmd == "quit"@ || cmd == "exit"@ || cmd == "q"@ {
        r == ReplCommand::Quit
    } else {
        unknown_is(r, "Unknown command: '"@ + t[0] + "'"@)
    }
}

/// What `parse_command` answers for the line `line`, with `unit` and `city`
/// the strings that stand for the selected unit and the current city.
pub open spec fn command_spec(line: Seq<char>, unit: Seq<char>, city: Seq<char>, r: ReplCommand) -> bool {
    let t = words(trim(line));
    if trim(line).len() == 0 {
        unknown_is(r, Seq::empty())
    } else {
        let cmd = lowercase_text(t[0]);
        if is_move_group(cmd) {
            move_group_spec(cmd, t, unit, r)
        } else if is_production_group(cmd) {
            production_group_spec(cmd, t, city, r)
        } else if is_map_group(cmd) {
            map_group_spec(cmd, t, unit, city, r)
        } else if is_civ_group(cmd) {
            civ_group_spec(cmd, t, unit, r)
        } else {
            session_group_spec(cmd, t, r)
        }
    }
}

/// The string standing for an optional selection.
pub open spec fn selection_text(sel: Option<&str>, placeholder: Seq<char>) -> Seq<char> {
    match sel {
        Some(s) => s@,
        None => placeholder,
    }
}

// ───────────────────────────── Parsing ───────────────────────────────────────

/// The character sequences of a vector of words.
pub open spec fn views(t: Seq<Vec<char>>) -> Seq<Seq<char>> {
    t.map_values(|p: Vec<char>| p@)
}

/// A fresh `String` with the characters of the literal `s`.
fn lit(s: &str) -> (r: String)
    ensures
        r@ == s@,
{
    s.to_owned()
}

/// The word `t[k]` as a `String`.
fn word(t: &Vec<Vec<char>>, k: usize) -> (r: String)
    requires
        k < t@.len(),
    ensures
        r@ == views(t@)[k as int],
{
    string_of(&t[k])
}

/// The words from index `k` on, joined by spaces.
fn rest(t: &Vec<Vec<char>>, k: usize) -> (r: String)
    requires
        k <= t@.len(),
    ensures
        r@ == rest_from(views(t@), k as int),
{
    let j = join_from(t, k);
    assert(t@.skip(k as int).map_values(|p: Vec<char>| p@) =~= views(t@).skip(k as int));
    string_of(&j)
}

/// The lowercase of a word.
fn lower_word(w: &Vec<char>) -> (r: Vec<char>)
    ensures
        r@ == lowercase_text(w@),
        r@ == spec_to_lowercase(w@),
{
    let s = string_of(w);
    let l = to_lowercase(s.as_str());
    chars_of(l.as_str())
}

/// The direction an already-lowercased word names.
fn direction_of_word(w: &Vec<char>) -> (r: Option<HexDir>)
    ensures
        r == direction_word(w@),
{
    if is_word(w, "e") || is_word(w, "east") {
        Some(HexDir::E)
    } else if is_word(w, "w") || is_word(w, "west") {
        Some(HexDir::W)
    } else if is_word(w, "ne") || is_word(w, "northeast") {
        Some(HexDir::NE)
    } else if is_word(w, "nw") || is_word(w, "northwest") {
        Some(HexDir::NW)
    } else if is_word(w, "se") || is_word(w, "southeast") {
        Some(HexDir::SE)
    } else if is_word(w, "sw") || is_word(w, "southwest") {
        Some(HexDir::SW)
    } else {
        None
    }
}

/// Parse a direction word (any case) into a `HexDir`.
pub fn parse_direction(s: &str) -> (r: Option<HexDir>)
    ensures
        r == spec_parse_direction(s@),
        lowercase_text(s@) == spec_to_lowercase(s@),
{
    let l = to_lowercase(s);
    direction_of_word(&chars_of(l.as_str()))
}

fn direction_of(w: &Vec<char>) -> (r: Option<HexDir>)
    ensures
        r == spec_parse_direction(w@),
{
    direction_of_word(&lower_word(w))
}

/// The selected unit's id string, or the placeholder that makes the action
/// dispatcher report that no unit is selected.
fn selection_or(sel: Option<&str>, placeholder: &str) -> (r: Vec<char>)
    ensures
        r@ == selection_text(sel, placeholder@),
{
    match sel {
        Some(s) => chars_of(s),
        None => chars_of(placeholder),
    }
}

fn unknown(msg: &str) -> (r: ReplCommand)
    ensures
        unknown_is(r, msg@),
{
    ReplCommand::Unknown(lit(msg))
}

fn parse_move_group(cmd: &Vec<char>, t: &Vec<Vec<char>>, unit: &Vec<char>) -> (r: ReplCommand)
    requires
        is_move_group(cmd@),
        t@.len() >= 1,
    ensures
        move_group_spec(cmd@, views(t@), unit@, r),
{
    let ghost tv = views(t@);
    let n = t.len();
    if is_word(cmd, "move") || is_word(cmd, "m") || is_word(cmd, "go") {
        if n >= 2 {
            if let Some(d) = direction_of(&t[1]) {
                return ReplCommand::MoveDirection(d);
            }
        }
        if n >= 3 {
            let q = parse_i32(&t[n - 2]);
            let r = parse_i32(&t[n - 1]);
            if q.is_some() && r.is_some() {
                let u = if n >= 4 {
                    word(t, 1)
                } else {
                    string_of(unit)
                };
                return ReplCommand::Action(ActionKind::Move { unit: u, to_q: q.unwrap(), to_r: r.unwrap() });
            }
        }
        unknown("Usage: move <dir> | move [unit] <q> <r>")
    } else if direction_of(cmd).is_some() {
        ReplCommand::MoveDirection(direction_of(cmd).unwrap())
    } else if is_word(cmd, "attack") || is_word(cmd, "atk") {
        if n >= 2 {
            let (u, target) = if n >= 3 {
                (word(t, 1), word(t, 2))
            } else {
                (string_of(unit), word(t, 1))
            };
            return ReplCommand::Action(ActionKind::Attack { unit: u, target });
        }
        unknown("Usage: attack [unit] <target>")
    } else {
        let (u, name) = if n >= 3 {
            (word(t, 1), rest(t, 2))
        } else if n == 2 {
            (string_of(unit), word(t, 1))
        } else {
            (string_of(unit), lit("New City"))
        };
        ReplCommand::Action(ActionKind::FoundCity { unit: u, name })
    }
}

fn is_list(w: &Vec<char>) -> (b: bool)
    ensures
        b == is_list_word(w@),
{
    word_eq_ignore_ascii_case(w, "list") || word_eq_ignore_ascii_case(w, "ls")
}

fn parse_production_group(cmd: &Vec<char>, t: &Vec<Vec<char>>, city: &Vec<char>) -> (r: ReplCommand)
    requires
        is_production_group(cmd@),
        t@.len() >= 1,
    ensures
        production_group_spec(cmd@, views(t@), city@, r),
{
    let n = t.len();
    if is_word(cmd, "build") || is_word(cmd, "b") {
        if n >= 2 {
            if is_list(&t[1]) {
                return ReplCommand::Query(QueryKind::BuildList);
            }
            return ReplCommand::Action(ActionKind::Build { city: string_of(city), item: rest(t, 1) });
        }
        unknown("Usage: build <item> | build list")
    } else if is_word(cmd, "cancel-production") || is_word(cmd, "cancel") {
        ReplCommand::Action(ActionKind::CancelProduction { city: string_of(city) })
    } else if is_word(cmd, "research") || is_word(cmd, "res") {
        if n >= 2 {
            if is_list(&t[1]) {
                return ReplCommand::Query(QueryKind::ResearchList);
            }
            return ReplCommand::Action(ActionKind::Research { tech: rest(t, 1) });
        }
        unknown("Usage: research <tech> | research list")
    } else {
        if n >= 2 {
            if is_list(&t[1]) {
                return ReplCommand::Query(QueryKind::CivicsList);
            }
            return ReplCommand::Action(ActionKind::StudyCivic { civic: rest(t, 1) });
        }
        unknown("Usage: culture <civic> | culture list")
    }
}

fn parse_map_group(cmd: &Vec<char>, t: &Vec<Vec<char>>, unit: &Vec<char>, city: &Vec<char>) -> (r: ReplCommand)
    requires
        is_map_group(cmd@),
        t@.len() >= 1,
    ensures
        map_group_spec(cmd@, views(t@), unit@, city@, r),
{
    let n = t.len();
    if is_word(cmd, "improve") || is_word(cmd, "imp") {
        if n >= 2 {
            return ReplCommand::Action(
                ActionKind::PlaceImprovement {
                    coord_q: 0,
                    coord_r: 0,
                    improvement: rest(t, 1),
                    builder: Some(string_of(unit)),
                },
            );
        }
        unknown("Usage: improve <type>")
    } else if is_word(cmd, "road") {
        if n >= 3 {
            let q = parse_i32(&t[n - 2]);
            let r = parse_i32(&t[n - 1]);
            if q.is_some() && r.is_some() {
                let u = if n >= 4 {
                    word(t, 1)
                } else {
                    string_of(unit)
                };
                return ReplCommand::Action(ActionKind::PlaceRoad { unit: u, q: q.unwrap(), r: r.unwrap() });
            }
        }
        unknown("Usage: road [unit] <q> <r>")
    } else if is_word(cmd, "district") || is_word(cmd, "dist") {
        if n >= 4 {
            let q = parse_i32(&t[2]);
            let r = parse_i32(&t[3]);
            if q.is_some() && r.is_some() {
                return ReplCommand::Action(
                    ActionKind::PlaceDistrict {
                        city: string_of(city),
                        district: word(t, 1),
                        q: q.unwrap(),
                        r: r.unwrap(),
                    },
                );
            }
        }
        unknown("Usage: district <type> <q> <r>")
    } else if is_word(cmd, "declare-war") || is_word(cmd, "war") {
        if n >= 2 {
            return ReplCommand::Action(ActionKind::DeclareWar { target: rest(t, 1) });
        }
        unknown("Usage: declare-war <civ>")
    } else if is_word(cmd, "make-peace") || is_word(cmd, "peace") {
        if n >= 2 {
            return ReplCommand::Action(ActionKind::MakePeace { target: rest(t, 1) });
        }
        unknown("Usage: make-peace <civ>")
    } else {
        if n >= 3 {
            return ReplCommand::Action(
                ActionKind::FormAlliance { target: word(t, 1), alliance_type: word(t, 2) },
            );
        }
        unknown("Usage: form-alliance <civ> <type>")
    }
}

/// The words `t[from..]` as strings.
fn words_from(t: &Vec<Vec<char>>, from: usize) -> (r: Vec<String>)
    requires
        from <= t@.len(),
    ensures
        r@.len() == t@.len() - from,
        forall|k: int| 0 <= k < r@.len() ==> (#[trigger] r@[k])@ == views(t@)[k + from],
{
    let mut r: Vec<String> = Vec::new();
    for i in from..t.len()
        invariant
            from <= i <= t@.len(),
            r@.len() == i - from,
            forall|k: int| 0 <= k < r@.len() ==> (#[trigger] r@[k])@ == views(t@)[k + from],
    {
        r.push(word(t, i));
    }
    r
}

fn parse_civ_group(cmd: &Vec<char>, t: &Vec<Vec<char>>, unit: &Vec<char>) -> (r: ReplCommand)
    requires
        is_civ_group(cmd@),
        t@.len() >= 1,
    ensures
        civ_group_spec(cmd@, views(t@), unit@, r),
{
    let n = t.len();
    if is_word(cmd, "assign-policy") || is_word(cmd, "policy") {
        if n >= 2 {
            return ReplCommand::Action(ActionKind::AssignPolicy { policy: rest(t, 1) });
        }
        unknown("Usage: assign-policy <policy>")
    } else if is_word(cmd, "adopt-government") || is_word(cmd, "gov") {
        if n >= 2 {
            return ReplCommand::Action(ActionKind::AdoptGovernment { name: rest(t, 1) });
        }
        unknown("Usage: adopt-government <name>")
    } else if is_word(cmd, "trade") {
        if n >= 3 {
            return ReplCommand::Action(
                ActionKind::EstablishTradeRoute { unit: word(t, 1), dest_city: word(t, 2) },
            );
        } else if n == 2 {
            return ReplCommand::Action(
                ActionKind::EstablishTradeRoute { unit: string_of(unit), dest_city: word(t, 1) },
            );
        }
        unknown("Usage: trade [unit] <dest_city>")
    } else if is_word(cmd, "found-pantheon") || is_word(cmd, "pantheon") {
        if n >= 2 {
            return ReplCommand::Action(ActionKind::FoundPantheon { belief: word(t, 1) });
        }
        unknown("Usage: found-pantheon <belief>")
    } else if is_word(cmd, "found-religion") || is_word(cmd, "religion") {
        if n >= 4 {
            let prophet = word(t, 1);
            let name = word(t, 2);
            let beliefs = words_from(t, 3);
            return ReplCommand::Action(ActionKind::FoundReligion { prophet, name, beliefs });
        }
        unknown("Usage: found-religion <prophet> <name> <belief1> [belief2...]")
    } else if is_word(cmd, "spread") {
        let u = if n >= 2 {
            word(t, 1)
        } else {
            string_of(unit)
        };
        ReplCommand::Action(ActionKind::SpreadReligion { unit: u })
    } else if is_word(cmd, "recruit-gp") || is_word(cmd, "recruit") {
        if n >= 2 {
            return ReplCommand::Action(ActionKind::RecruitGreatPerson { person_type: word(t, 1) });
        }
        unknown("Usage: recruit-gp <type>")
    } else if is_word(cmd, "assign-governor") || is_word(cmd, "governor") {
        if n >= 3 {
            return ReplCommand::Action(ActionKind::AssignGovernor { governor: word(t, 1), city: word(t, 2) });
        }
        unknown("Usage: assign-governor <governor> <city>")
    } else {
        if n >= 2 {
            let (u, promo) = if n >= 3 {
                (word(t, 1), rest(t, 2))
            } else {
                (string_of(unit), word(t, 1))
            };
            return ReplCommand::Action(ActionKind::PromoteUnit { unit: u, promotion: promo });
        }
        unknown("Usage: promote [unit] <promotion>")
    }
}

fn parse_session_group(cmd: &Vec<char>, t: &Vec<Vec<char>>) -> (r: ReplCommand)
    requires
        t@.len() >= 1,
    ensures
        session_group_spec(cmd@, views(t@), r),
{
    let n = t.len();
    if is_word(cmd, "end-turn") || is_word(cmd, "end") || is_word(cmd, "n") || is_word(cmd, "next") {
        ReplCommand::EndTurn
    } else if is_word(cmd, "select") || is_word(cmd, "sel") {
        if n >= 3 {
            let q = parse_i32(&t[1]);
            let r = parse_i32(&t[2]);
            if q.is_some() && r.is_some() {
                return ReplCommand::SelectUnit(q.unwrap(), r.unwrap());
            }
        }
        unknown("Usage: select <q> <r>")
    } else if is_word(cmd, "units") || is_word(cmd, "u") {
        ReplCommand::Query(QueryKind::Units)
    } else if is_word(cmd, "cities") || is_word(cmd, "cs") {
        ReplCommand::Query(QueryKind::Cities)
    } else if is_word(cmd, "yields") || is_word(cmd, "y") {
        ReplCommand::Query(QueryKind::Yields)
    } else if is_word(cmd, "techs") {
        ReplCommand::Query(QueryKind::Techs)
    } else if is_word(cmd, "civics") {
        ReplCommand::Query(QueryKind::Civics)
    } else if is_word(cmd, "scores") || is_word(cmd, "sc") {
        ReplCommand::Query(QueryKind::Scores)
    } else if is_word(cmd, "diplomacy") || is_word(cmd, "diplo") {
        ReplCommand::Query(QueryKind::Diplomacy)
    } else if is_word(cmd, "tile") || is_word(cmd, "t") {
        if n >= 3 {
            let q = parse_i32(&t[1]);
            let r = parse_i32(&t[2]);
            if q.is_some() && r.is_some() {
                return ReplCommand::Query(QueryKind::Tile(q.unwrap(), r.unwrap()));
            }
        }
        unknown("Usage: tile <q> <r>")
    } else if is_word(cmd, "city") {
        if n >= 2 {
            return ReplCommand::CitySelect(rest(t, 1));
        }
        unknown("Usage: city <name_or_suffix>")
    } else if is_word(cmd, "unit") {
        if n >= 2 {
            return ReplCommand::UnitSelect(word(t, 1));
        }
        unknown("Usage: unit <id>")
    } else if is_word(cmd, "board") || is_word(cmd, "map") {
        ReplCommand::Board
    } else if is_word(cmd, "save") {
        ReplCommand::Save
    } else if is_word(cmd, "help") || is_word(cmd, "h") || is_word(cmd, "?") {
        ReplCommand::Help
    } else if is_word(cmd, "quit") || is_word(cmd, "exit") || is_word(cmd, "q") {
        ReplCommand::Quit
    } else {
        let mut m: Vec<char> = Vec::new();
        extend_str(&mut m, "Unknown command: '");
        extend_chars(&mut m, &t[0]);
        extend_str(&mut m, "'");
        ReplCommand::Unknown(string_of(&m))
    }
}

/// Parse a line of REPL input into a `ReplCommand`. `selected_unit` and
/// `current_city` are the id strings of the current selections; commands
/// that need a unit or a city and are given none use them.
pub fn parse_command(line: &str, selected_unit: Option<&str>, current_city: Option<&str>) -> (r: ReplCommand)
    ensures
        command_spec(
            line@,
            selection_text(selected_unit, "no-unit-selected"@),
            selection_text(current_city, "no-city-selected"@),
            r,
        ),
        trim(line@).len() > 0 ==> lowercase_text(words(trim(line@))[0]) == spec_to_lowercase(words(trim(line@))[0]),
{
    let trimmed = trim_chars(&chars_of(line));
    if trimmed.len() == 0 {
        return ReplCommand::Unknown(String::new());
    }
    let t = split_whitespace(&trimmed);
    assert(views(t@) =~= words(trim(line@)));
    proof {
        lemma_trimmed_has_word(line@);
    }
    let unit = selection_or(selected_unit, "no-unit-selected");
    let city = selection_or(current_city, "no-city-selected");
    let cmd = lower_word(&t[0]);
    if is_move_cmd(&cmd) {
        parse_move_group(&cmd, &t, &unit)
    } else if is_production_cmd(&cmd) {
        parse_production_group(&cmd, &t, &city)
    } else if is_map_cmd(&cmd) {
        parse_map_group(&cmd, &t, &unit, &city)
    } else if is_civ_cmd(&cmd) {
        parse_civ_group(&cmd, &t, &unit)
    } else {
        parse_session_group(&cmd, &t)
    }
}

fn is_move_cmd(cmd: &Vec<char>) -> (b: bool)
    ensures
        b == is_move_group(cmd@),
{
    is_word(cmd, "move") || is_word(cmd, "m") || is_word(cmd, "go") || direction_of(cmd).is_some() || is_word(
        cmd,
        "attack",
    ) || is_word(cmd, "atk") || is_word(cmd, "settle") || is_word(cmd, "found-city") || is_word(cmd, "found")
}

fn is_production_cmd(cmd: &Vec<char>) -> (b: bool)
    ensures
        b == is_production_group(cmd@),
{
    is_word(cmd, "build") || is_word(cmd, "b") || is_word(cmd, "cancel-production") || is_word(cmd, "cancel")
        || is_word(cmd, "research") || is_word(cmd, "res") || is_word(cmd, "culture") || is_word(cmd, "civic")
}

fn is_map_cmd(cmd: &Vec<char>) -> (b: bool)
    ensures
        b == is_map_group(cmd@),
{
    is_word(cmd, "improve") || is_word(cmd, "imp") || is_word(cmd, "road") || is_word(cmd, "district")
        || is_word(cmd, "dist") || is_word(cmd, "declare-war") || is_word(cmd, "war") || is_word(
        cmd,
        "make-peace",
    ) || is_word(cmd, "peace") || is_word(cmd, "form-alliance") || is_word(cmd, "alliance")
}

fn is_civ_cmd(cmd: &Vec<char>) -> (b: bool)
    ensures
        b == is_civ_group(cmd@),
{
    is_word(cmd, "assign-policy") || is_word(cmd, "policy") || is_word(cmd, "adopt-government") || is_word(
        cmd,
        "gov",
    ) || is_word(cmd, "trade") || is_word(cmd, "found-pantheon") || is_word(cmd, "pantheon") || is_word(
        cmd,
        "found-religion",
    ) || is_word(cmd, "religion") || is_word(cmd, "spread") || is_word(cmd, "recruit-gp") || is_word(
        cmd,
        "recruit",
    ) || is_word(cmd, "assign-governor") || is_word(cmd, "governor") || is_word(cmd, "promote-unit")
        || is_word(cmd, "promote")
}

// ───────────────────────────── Laws ──────────────────────────────────────────

/// A number word is no direction.
proof fn lemma_number_word_is_no_direction(n: i32)
    ensures
        lowercase_text(signed_decimal_string(n as int)) == signed_decimal_string(n as int),
        spec_parse_direction(signed_decimal_string(n as int)) is None,
{
    let s = signed_decimal_string(n as int);
    lemma_parse_i32_decimal(n);
    if n < 0 {
        lemma_decimal_string_value((-n) as nat);
    } else {
        lemma_decimal_string_value(n as nat);
    }
    assert forall|i: int| 0 <= i < s.len() implies s[i] == '-' || is_digit(#[trigger] s[i]) by {
        if n < 0 && i > 0 {
            assert(s[i] == decimal_string((-n) as nat)[i - 1]);
        }
    }
    assert(vstd::utf8::is_ascii_chars(s));
    assert(ascii_lowercased(s) =~= s);
    reveal_strlit("e");
    reveal_strlit("east");
    reveal_strlit("w");
    reveal_strlit("west");
    reveal_strlit("ne");
    reveal_strlit("northeast");
    reveal_strlit("nw");
    reveal_strlit("northwest");
    reveal_strlit("se");
    reveal_strlit("southeast");
    reveal_strlit("sw");
    reveal_strlit("southwest");
    assert(s[0] == '-' || is_digit(s[0]));
}

/// A command word and two `i32` numbers, spaced: trimmed, split, and the
/// numbers read back.
proof fn lemma_coord_line(w: Seq<char>, q: i32, r: i32)
    requires
        is_plain_word(w),
    ensures
        trim(spaced3(w, signed_decimal_string(q as int), signed_decimal_string(r as int))) == spaced3(w, signed_decimal_string(q as int), signed_decimal_string(r as int)),
        words(trim(spaced3(w, signed_decimal_string(q as int), signed_decimal_string(r as int)))) == seq![w, signed_decimal_string(q as int), signed_decimal_string(r as int)],
        spec_parse_i32(signed_decimal_string(q as int)) == Some(q),
        spec_parse_i32(signed_decimal_string(r as int)) == Some(r),
{
    lemma_parse_i32_decimal(q);
    lemma_parse_i32_decimal(r);
    spaced3_words(w, signed_decimal_string(q as int), signed_decimal_string(r as int));
}

/// `tile q r` asks about the tile `(q, r)`: the first number typed is `q`, the second `r`, whatever the
/// numbers (with either spelling of the command).
pub proof fn tile_query_keeps_coordinate_order(q: i32, r: i32, unit: Seq<char>, city: Seq<char>, cmd: ReplCommand)
    ensures
        command_spec(spaced3("tile"@, signed_decimal_string(q as int), signed_decimal_string(r as int)), unit, city, cmd) ==> cmd == ReplCommand::Query(QueryKind::Tile(q, r)),
        command_spec(spaced3("t"@, signed_decimal_string(q as int), signed_decimal_string(r as int)), unit, city, cmd) ==> cmd == ReplCommand::Query(QueryKind::Tile(q, r)),
{
    reveal_strlit("e");
    reveal_strlit("east");
    reveal_strlit("w");
    reveal_strlit("west");
    reveal_strlit("ne");
    reveal_strlit("northeast");
    reveal_strlit("nw");
    reveal_strlit("northwest");
    reveal_strlit("se");
    reveal_strlit("southeast");
    reveal_strlit("sw");
    reveal_strlit("southwest");
    reveal_strlit("list");
    reveal_strlit("ls");
    reveal_strlit("move");
    reveal_strlit("m");
    reveal_strlit("go");
    reveal_strlit("Usage: move <dir> | move [unit] <q> <r>");
    reveal_strlit("attack");
    reveal_strlit("atk");
    reveal_strlit("Usage: attack [unit] <target>");
    reveal_strlit("New City");
    reveal_strlit("settle");
    reveal_strlit("found-city");
    reveal_strlit("found");
    reveal_strlit("build");
    reveal_strlit("b");
    reveal_strlit("Usage: build <item> | build list");
    reveal_strlit("cancel-production");
    reveal_strlit("cancel");
    reveal_strlit("research");
    reveal_strlit("res");
    reveal_strlit("Usage: research <tech> | research list");
    reveal_strlit("Usage: culture <civic> | culture list");
    reveal_strlit("culture");
    reveal_strlit("civic");
    reveal_strlit("improve");
    reveal_strlit("imp");
    reveal_strlit("Usage: improve <type>");
    reveal_strlit("road");
    reveal_strlit("Usage: road [unit] <q> <r>");
    reveal_strlit("district");
    reveal_strlit("dist");
    reveal_strlit("Usage: district <type> <q> <r>");
    reveal_strlit("declare-war");
    reveal_strlit("war");
    reveal_strlit("Usage: declare-war <civ>");
    reveal_strlit("make-peace");
    reveal_strlit("peace");
    reveal_strlit("Usage: make-peace <civ>");
    reveal_strlit("Usage: form-alliance <civ> <type>");
    reveal_strlit("form-alliance");
    reveal_strlit("alliance");
    reveal_strlit("assign-policy");
    reveal_strlit("policy");
    reveal_strlit("Usage: assign-policy <policy>");
    reveal_strlit("adopt-government");
    reveal_strlit("gov");
    reveal_strlit("Usage: adopt-government <name>");
    reveal_strlit("trade");
    reveal_strlit("Usage: trade [unit] <dest_city>");
    reveal_strlit("found-pantheon");
    reveal_strlit("pantheon");
    reveal_strlit("Usage: found-pantheon <belief>");
    reveal_strlit("found-religion");
    reveal_strlit("religion");
    reveal_strlit("Usage: found-religion <prophet> <name> <belief1> [belief2...]");
    reveal_strlit("spread");
    reveal_strlit("recruit-gp");
    reveal_strlit("recruit");
    reveal_strlit("Usage: recruit-gp <type>");
    reveal_strlit("assign-governor");
    reveal_strlit("governor");
    reveal_strlit("Usage: assign-governor <governor> <city>");
    reveal_strlit("Usage: promote [unit] <promotion>");
    reveal_strlit("promote-unit");
    reveal_strlit("promote");
    reveal_strlit("end-turn");
    reveal_strlit("end");
    reveal_strlit("n");
    reveal_strlit("next");
    reveal_strlit("select");
    reveal_strlit("sel");
    reveal_strlit("Usage: select <q> <r>");
    reveal_strlit("units");
    reveal_strlit("u");
    reveal_strlit("cities");
    reveal_strlit("cs");
    reveal_strlit("yields");
    reveal_strlit("y");
    reveal_strlit("techs");
    reveal_strlit("civics");
    reveal_strlit("scores");
    reveal_strlit("sc");
    reveal_strlit("diplomacy");
    reveal_strlit("diplo");
    reveal_strlit("tile");
    reveal_strlit("t");
    reveal_strlit("Usage: tile <q> <r>");
    reveal_strlit("city");
    reveal_strlit("Usage: city <name_or_suffix>");
    reveal_strlit("unit");
    reveal_strlit("Usage: unit <id>");
    reveal_strlit("board");
    reveal_strlit("map");
    reveal_strlit("save");
    reveal_strlit("help");
    reveal_strlit("h");
    reveal_strlit("?");
    reveal_strlit("quit");
    reveal_strlit("exit");
    reveal_strlit("q");
    reveal_strlit("Unknown command: '");
    reveal_strlit("'");
    assert("tile"@[0] != "east"@[0]);
    assert("tile"@[0] != "west"@[0]);
    assert("tile"@[0] != "list"@[0]);
    assert("tile"@[0] != "move"@[0]);
    assert("tile"@[0] != "road"@[0]);
    assert("tile"@[0] != "dist"@[0]);
    assert("tile"@[0] != "next"@[0]);
    assert("tile"@[0] != "city"@[0]);
    assert("tile"@[0] != "unit"@[0]);
    assert("tile"@[0] != "save"@[0]);
    assert("tile"@[0] != "help"@[0]);
    assert("tile"@[0] != "quit"@[0]);
    assert("tile"@[0] != "exit"@[0]);
    assert("t"@[0] != "e"@[0]);
    assert("t"@[0] != "w"@[0]);
    assert("t"@[0] != "m"@[0]);
    assert("t"@[0] != "b"@[0]);
    assert("t"@[0] != "n"@[0]);
    assert("t"@[0] != "u"@[0]);
    assert("t"@[0] != "y"@[0]);
    assert("t"@[0] != "h"@[0]);
    assert("t"@[0] != "?"@[0]);
    assert("t"@[0] != "q"@[0]);
    assert("t"@[0] != "'"@[0]);
    lemma_number_word_is_no_direction(q);
    lemma_number_word_is_no_direction(r);
    assert(is_plain_word("tile"@));
    assert(vstd::utf8::is_ascii_chars("tile"@));
    assert(ascii_lowercased("tile"@) =~= "tile"@);
    assert(spec_parse_direction("tile"@) is None);
    lemma_coord_line("tile"@, q, r);
    assert(!is_move_group("tile"@) && !is_production_group("tile"@) && !is_map_group("tile"@) && !is_civ_group("tile"@));
    assert(is_plain_word("t"@));
    assert(vstd::utf8::is_ascii_chars("t"@));
    assert(ascii_lowercased("t"@) =~= "t"@);
    assert(spec_parse_direction("t"@) is None);
    lemma_coord_line("t"@, q, r);
    assert(!is_move_group("t"@) && !is_production_group("t"@) && !is_map_group("t"@) && !is_civ_group("t"@));
}

/// `select q r` selects the unit on `(q, r)`: the first number typed is `q`, the second `r`, whatever the
/// numbers (with either spelling of the command).
pub proof fn select_keeps_coordinate_order(q: i32, r: i32, unit: Seq<char>, city: Seq<char>, cmd: ReplCommand)
    ensures
        command_spec(spaced3("select"@, signed_decimal_string(q as int), signed_decimal_string(r as int)), unit, city, cmd) ==> cmd == ReplCommand::SelectUnit(q, r),
        command_spec(spaced3("sel"@, signed_decimal_string(q as int), signed_decimal_string(r as int)), unit, city, cmd) ==> cmd == ReplCommand::SelectUnit(q, r),
{
    reveal_strlit("e");
    reveal_strlit("east");
    reveal_strlit("w");
    reveal_strlit("west");
    reveal_strlit("ne");
    reveal_strlit("northeast");
    reveal_strlit("nw");
    reveal_strlit("northwest");
    reveal_strlit("se");
    reveal_strlit("southeast");
    reveal_strlit("sw");
    reveal_strlit("southwest");
    reveal_strlit("list");
    reveal_strlit("ls");
    reveal_strlit("move");
    reveal_strlit("m");
    reveal_strlit("go");
    reveal_strlit("Usage: move <dir> | move [unit] <q> <r>");
    reveal_strlit("attack");
    reveal_strlit("atk");
    reveal_strlit("Usage: attack [unit] <target>");
    reveal_strlit("New City");
    reveal_strlit("settle");
    reveal_strlit("found-city");
    reveal_strlit("found");
    reveal_strlit("build");
    reveal_strlit("b");
    reveal_strlit("Usage: build <item> | build list");
    reveal_strlit("cancel-production");
    reveal_strlit("cancel");
    reveal_strlit("research");
    reveal_strlit("res");
    reveal_strlit("Usage: research <tech> | research list");
    reveal_strlit("Usage: culture <civic> | culture list");
    reveal_strlit("culture");
    reveal_strlit("civic");
    reveal_strlit("improve");
    reveal_strlit("imp");
    reveal_strlit("Usage: improve <type>");
    reveal_strlit("road");
    reveal_strlit("Usage: road [unit] <q> <r>");
    reveal_strlit("district");
    reveal_strlit("dist");
    reveal_strlit("Usage: district <type> <q> <r>");
    reveal_strlit("declare-war");
    reveal_strlit("war");
    reveal_strlit("Usage: declare-war <civ>");
    reveal_strlit("make-peace");
    reveal_strlit("peace");
    reveal_strlit("Usage: make-peace <civ>");
    reveal_strlit("Usage: form-alliance <civ> <type>");
    reveal_strlit("form-alliance");
    reveal_strlit("alliance");
    reveal_strlit("assign-policy");
    reveal_strlit("policy");
    reveal_strlit("Usage: assign-policy <policy>");
    reveal_strlit("adopt-government");
    reveal_strlit("gov");
    reveal_strlit("Usage: adopt-government <name>");
    reveal_strlit("trade");
    reveal_strlit("Usage: trade [unit] <dest_city>");
    reveal_strlit("found-pantheon");
    reveal_strlit("pantheon");
    reveal_strlit("Usage: found-pantheon <belief>");
    reveal_strlit("found-religion");
    reveal_strlit("religion");
    reveal_strlit("Usage: found-religion <prophet> <name> <belief1> [belief2...]");
    reveal_strlit("spread");
    reveal_strlit("recruit-gp");
    reveal_strlit("recruit");
    reveal_strlit("Usage: recruit-gp <type>");
    reveal_strlit("assign-governor");
    reveal_strlit("governor");
    reveal_strlit("Usage: assign-governor <governor> <city>");
    reveal_strlit("Usage: promote [unit] <promotion>");
    reveal_strlit("promote-unit");
    reveal_strlit("promote");
    reveal_strlit("end-turn");
    reveal_strlit("end");
    reveal_strlit("n");
    reveal_strlit("next");
    reveal_strlit("select");
    reveal_strlit("sel");
    reveal_strlit("Usage: select <q> <r>");
    reveal_strlit("units");
    reveal_strlit("u");
    reveal_strlit("cities");
    reveal_strlit("cs");
    reveal_strlit("yields");
    reveal_strlit("y");
    reveal_strlit("techs");
    reveal_strlit("civics");
    reveal_strlit("scores");
    reveal_strlit("sc");
    reveal_strlit("diplomacy");
    reveal_strlit("diplo");
    reveal_strlit("tile");
    reveal_strlit("t");
    reveal_strlit("Usage: tile <q> <r>");
    reveal_strlit("city");
    reveal_strlit("Usage: city <name_or_suffix>");
    reveal_strlit("unit");
    reveal_strlit("Usage: unit <id>");
    reveal_strlit("board");
    reveal_strlit("map");
    reveal_strlit("save");
    reveal_strlit("help");
    reveal_strlit("h");
    reveal_strlit("?");
    reveal_strlit("quit");
    reveal_strlit("exit");
    reveal_strlit("q");
    reveal_strlit("Unknown command: '");
    reveal_strlit("'");
    assert("select"@[0] != "attack"@[0]);
    assert("select"@[2] != "settle"@[2]);
    assert("select"@[0] != "cancel"@[0]);
    assert("select"@[0] != "policy"@[0]);
    assert("select"@[1] != "spread"@[1]);
    assert("select"@[0] != "cities"@[0]);
    assert("select"@[0] != "yields"@[0]);
    assert("select"@[0] != "civics"@[0]);
    assert("select"@[1] != "scores"@[1]);
    assert("sel"@[0] != "atk"@[0]);
    assert("sel"@[0] != "res"@[0]);
    assert("sel"@[0] != "imp"@[0]);
    assert("sel"@[0] != "war"@[0]);
    assert("sel"@[0] != "gov"@[0]);
    assert("sel"@[0] != "end"@[0]);
    assert("sel"@[0] != "map"@[0]);
    lemma_number_word_is_no_direction(q);
    lemma_number_word_is_no_direction(r);
    assert(is_plain_word("select"@));
    assert(vstd::utf8::is_ascii_chars("select"@));
    assert(ascii_lowercased("select"@) =~= "select"@);
    assert(spec_parse_direction("select"@) is None);
    lemma_coord_line("select"@, q, r);
    assert(!is_move_group("select"@) && !is_production_group("select"@) && !is_map_group("select"@) && !is_civ_group("select"@));
    assert(is_plain_word("sel"@));
    assert(vstd::utf8::is_ascii_chars("sel"@));
    assert(ascii_lowercased("sel"@) =~= "sel"@);
    assert(spec_parse_direction("sel"@) is None);
    lemma_coord_line("sel"@, q, r);
    assert(!is_move_group("sel"@) && !is_production_group("sel"@) && !is_map_group("sel"@) && !is_civ_group("sel"@));
}

/// `move q r` moves the selected unit to `(q, r)`: the first number typed is `q`, the second `r`, whatever the
/// numbers (with either spelling of the command).
pub proof fn move_to_keeps_coordinate_order(q: i32, r: i32, unit: Seq<char>, city: Seq<char>, cmd: ReplCommand)
    ensures
        command_spec(spaced3("move"@, signed_decimal_string(q as int), signed_decimal_string(r as int)), unit, city, cmd) ==> (cmd matches ReplCommand::Action(ActionKind::Move { unit: u, to_q, to_r }) && u@ == unit && to_q == q && to_r == r),
        command_spec(spaced3("m"@, signed_decimal_string(q as int), signed_decimal_string(r as int)), unit, city, cmd) ==> (cmd matches ReplCommand::Action(ActionKind::Move { unit: u, to_q, to_r }) && u@ == unit && to_q == q && to_r == r),
        command_spec(spaced3("go"@, signed_decimal_string(q as int), signed_decimal_string(r as int)), unit, city, cmd) ==> (cmd matches ReplCommand::Action(ActionKind::Move { unit: u, to_q, to_r }) && u@ == unit && to_q == q && to_r == r),
{
    reveal_strlit("e");
    reveal_strlit("east");
    reveal_strlit("w");
    reveal_strlit("west");
    reveal_strlit("ne");
    reveal_strlit("northeast");
    reveal_strlit("nw");
    reveal_strlit("northwest");
    reveal_strlit("se");
    reveal_strlit("southeast");
    reveal_strlit("sw");
    reveal_strlit("southwest");
    reveal_strlit("list");
    reveal_strlit("ls");
    reveal_strlit("move");
    reveal_strlit("m");
    reveal_strlit("go");
    reveal_strlit("Usage: move <dir> | move [unit] <q> <r>");
    reveal_strlit("attack");
    reveal_strlit("atk");
    reveal_strlit("Usage: attack [unit] <target>");
    reveal_strlit("New City");
    reveal_strlit("settle");
    reveal_strlit("found-city");
    reveal_strlit("found");
    reveal_strlit("build");
    reveal_strlit("b");
    reveal_strlit("Usage: build <item> | build list");
    reveal_strlit("cancel-production");
    reveal_strlit("cancel");
    reveal_strlit("research");
    reveal_strlit("res");
    reveal_strlit("Usage: research <tech> | research list");
    reveal_strlit("Usage: culture <civic> | culture list");
    reveal_strlit("culture");
    reveal_strlit("civic");
    reveal_strlit("improve");
    reveal_strlit("imp");
    reveal_strlit("Usage: improve <type>");
    reveal_strlit("road");
    reveal_strlit("Usage: road [unit] <q> <r>");
    reveal_strlit("district");
    reveal_strlit("dist");
    reveal_strlit("Usage: district <type> <q> <r>");
    reveal_strlit("declare-war");
    reveal_strlit("war");
    reveal_strlit("Usage: declare-war <civ>");
    reveal_strlit("make-peace");
    reveal_strlit("peace");
    reveal_strlit("Usage: make-peace <civ>");
    reveal_strlit("Usage: form-alliance <civ> <type>");
    reveal_strlit("form-alliance");
    reveal_strlit("alliance");
    reveal_strlit("assign-policy");
    reveal_strlit("policy");
    reveal_strlit("Usage: assign-policy <policy>");
    reveal_strlit("adopt-government");
    reveal_strlit("gov");
    reveal_strlit("Usage: adopt-government <name>");
    reveal_strlit("trade");
    reveal_strlit("Usage: trade [unit] <dest_city>");
    reveal_strlit("found-pantheon");
    reveal_strlit("pantheon");
    reveal_strlit("Usage: found-pantheon <belief>");
    reveal_strlit("found-religion");
    reveal_strlit("religion");
    reveal_strlit("Usage: found-religion <prophet> <name> <belief1> [belief2...]");
    reveal_strlit("spread");
    reveal_strlit("recruit-gp");
    reveal_strlit("recruit");
    reveal_strlit("Usage: recruit-gp <type>");
    reveal_strlit("assign-governor");
    reveal_strlit("governor");
    reveal_strlit("Usage: assign-governor <governor> <city>");
    reveal_strlit("Usage: promote [unit] <promotion>");
    reveal_strlit("promote-unit");
    reveal_strlit("promote");
    reveal_strlit("end-turn");
    reveal_strlit("end");
    reveal_strlit("n");
    reveal_strlit("next");
    reveal_strlit("select");
    reveal_strlit("sel");
    reveal_strlit("Usage: select <q> <r>");
    reveal_strlit("units");
    reveal_strlit("u");
    reveal_strlit("cities");
    reveal_strlit("cs");
    reveal_strlit("yields");
    reveal_strlit("y");
    reveal_strlit("techs");
    reveal_strlit("civics");
    reveal_strlit("scores");
    reveal_strlit("sc");
    reveal_strlit("diplomacy");
    reveal_strlit("diplo");
    reveal_strlit("tile");
    reveal_strlit("t");
    reveal_strlit("Usage: tile <q> <r>");
    reveal_strlit("city");
    reveal_strlit("Usage: city <name_or_suffix>");
    reveal_strlit("unit");
    reveal_strlit("Usage: unit <id>");
    reveal_strlit("board");
    reveal_strlit("map");
    reveal_strlit("save");
    reveal_strlit("help");
    reveal_strlit("h");
    reveal_strlit("?");
    reveal_strlit("quit");
    reveal_strlit("exit");
    reveal_strlit("q");
    reveal_strlit("Unknown command: '");
    reveal_strlit("'");
    assert("move"@[0] != "east"@[0]);
    assert("move"@[0] != "west"@[0]);
    assert("move"@[0] != "list"@[0]);
    assert("move"@[0] != "road"@[0]);
    assert("move"@[0] != "dist"@[0]);
    assert("move"@[0] != "next"@[0]);
    assert("move"@[0] != "tile"@[0]);
    assert("move"@[0] != "city"@[0]);
    assert("move"@[0] != "unit"@[0]);
    assert("move"@[0] != "save"@[0]);
    assert("move"@[0] != "help"@[0]);
    assert("move"@[0] != "quit"@[0]);
    assert("move"@[0] != "exit"@[0]);
    assert("m"@[0] != "e"@[0]);
    assert("m"@[0] != "w"@[0]);
    assert("m"@[0] != "b"@[0]);
    assert("m"@[0] != "n"@[0]);
    assert("m"@[0] != "u"@[0]);
    assert("m"@[0] != "y"@[0]);
    assert("m"@[0] != "t"@[0]);
    assert("m"@[0] != "h"@[0]);
    assert("m"@[0] != "?"@[0]);
    assert("m"@[0] != "q"@[0]);
    assert("m"@[0] != "'"@[0]);
    assert("go"@[0] != "ne"@[0]);
    assert("go"@[0] != "nw"@[0]);
    assert("go"@[0] != "se"@[0]);
    assert("go"@[0] != "sw"@[0]);
    assert("go"@[0] != "ls"@[0]);
    assert("go"@[0] != "cs"@[0]);
    assert("go"@[0] != "sc"@[0]);
    lemma_number_word_is_no_direction(q);
    lemma_number_word_is_no_direction(r);
    assert(is_plain_word("move"@));
    assert(vstd::utf8::is_ascii_chars("move"@));
    assert(ascii_lowercased("move"@) =~= "move"@);
    assert(spec_parse_direction("move"@) is None);
    lemma_coord_line("move"@, q, r);
    assert(is_move_group("move"@));
    assert(is_plain_word("m"@));
    assert(vstd::utf8::is_ascii_chars("m"@));
    assert(ascii_lowercased("m"@) =~= "m"@);
    assert(spec_parse_direction("m"@) is None);
    lemma_coord_line("m"@, q, r);
    assert(is_move_group("m"@));
    assert(is_plain_word("go"@));
    assert(vstd::utf8::is_ascii_chars("go"@));
    assert(ascii_lowercased("go"@) =~= "go"@);
    assert(spec_parse_direction("go"@) is None);
    lemma_coord_line("go"@, q, r);
    assert(is_move_group("go"@));
}

/// `road q r` has the selected unit build a road on `(q, r)`: the first number typed is `q`, the second `r`, whatever the
/// numbers (with either spelling of the command).
pub proof fn road_keeps_coordinate_order(q: i32, r: i32, unit: Seq<char>, city: Seq<char>, cmd: ReplCommand)
    ensures
        command_spec(spaced3("road"@, signed_decimal_string(q as int), signed_decimal_string(r as int)), unit, city, cmd) ==> (cmd matches ReplCommand::Action(ActionKind::PlaceRoad { unit: u, q: qq, r: rr }) && u@ == unit && qq == q && rr == r),
{
    reveal_strlit("e");
    reveal_strlit("east");
    reveal_strlit("w");
    reveal_strlit("west");
    reveal_strlit("ne");
    reveal_strlit("northeast");
    reveal_strlit("nw");
    reveal_strlit("northwest");
    reveal_strlit("se");
    reveal_strlit("southeast");
    reveal_strlit("sw");
    reveal_strlit("southwest");
    reveal_strlit("list");
    reveal_strlit("ls");
    reveal_strlit("move");
    reveal_strlit("m");
    reveal_strlit("go");
    reveal_strlit("Usage: move <dir> | move [unit] <q> <r>");
    reveal_strlit("attack");
    reveal_strlit("atk");
    reveal_strlit("Usage: attack [unit] <target>");
    reveal_strlit("New City");
    reveal_strlit("settle");
    reveal_strlit("found-city");
    reveal_strlit("found");
    reveal_strlit("build");
    reveal_strlit("b");
    reveal_strlit("Usage: build <item> | build list");
    reveal_strlit("cancel-production");
    reveal_strlit("cancel");
    reveal_strlit("research");
    reveal_strlit("res");
    reveal_strlit("Usage: research <tech> | research list");
    reveal_strlit("Usage: culture <civic> | culture list");
    reveal_strlit("culture");
    reveal_strlit("civic");
    reveal_strlit("improve");
    reveal_strlit("imp");
    reveal_strlit("Usage: improve <type>");
    reveal_strlit("road");
    reveal_strlit("Usage: road [unit] <q> <r>");
    reveal_strlit("district");
    reveal_strlit("dist");
    reveal_strlit("Usage: district <type> <q> <r>");
    reveal_strlit("declare-war");
    reveal_strlit("war");
    reveal_strlit("Usage: declare-war <civ>");
    reveal_strlit("make-peace");
    reveal_strlit("peace");
    reveal_strlit("Usage: make-peace <civ>");
    reveal_strlit("Usage: form-alliance <civ> <type>");
    reveal_strlit("form-alliance");
    reveal_strlit("alliance");
    reveal_strlit("assign-policy");
    reveal_strlit("policy");
    reveal_strlit("Usage: assign-policy <policy>");
    reveal_strlit("adopt-government");
    reveal_strlit("gov");
    reveal_strlit("Usage: adopt-government <name>");
    reveal_strlit("trade");
    reveal_strlit("Usage: trade [unit] <dest_city>");
    reveal_strlit("found-pantheon");
    reveal_strlit("pantheon");
    reveal_strlit("Usage: found-pantheon <belief>");
    reveal_strlit("found-religion");
    reveal_strlit("religion");
    reveal_strlit("Usage: found-religion <prophet> <name> <belief1> [belief2...]");
    reveal_strlit("spread");
    reveal_strlit("recruit-gp");
    reveal_strlit("recruit");
    reveal_strlit("Usage: recruit-gp <type>");
    reveal_strlit("assign-governor");
    reveal_strlit("governor");
    reveal_strlit("Usage: assign-governor <governor> <city>");
    reveal_strlit("Usage: promote [unit] <promotion>");
    reveal_strlit("promote-unit");
    reveal_strlit("promote");
    reveal_strlit("end-turn");
    reveal_strlit("end");
    reveal_strlit("n");
    reveal_strlit("next");
    reveal_strlit("select");
    reveal_strlit("sel");
    reveal_strlit("Usage: select <q> <r>");
    reveal_strlit("units");
    reveal_strlit("u");
    reveal_strlit("cities");
    reveal_strlit("cs");
    reveal_strlit("yields");
    reveal_strlit("y");
    reveal_strlit("techs");
    reveal_strlit("civics");
    reveal_strlit("scores");
    reveal_strlit("sc");
    reveal_strlit("diplomacy");
    reveal_strlit("diplo");
    reveal_strlit("tile");
    reveal_strlit("t");
    reveal_strlit("Usage: tile <q> <r>");
    reveal_strlit("city");
    reveal_strlit("Usage: city <name_or_suffix>");
    reveal_strlit("unit");
    reveal_strlit("Usage: unit <id>");
    reveal_strlit("board");
    reveal_strlit("map");
    reveal_strlit("save");
    reveal_strlit("help");
    reveal_strlit("h");
    reveal_strlit("?");
    reveal_strlit("quit");
    reveal_strlit("exit");
    reveal_strlit("q");
    reveal_strlit("Unknown command: '");
    reveal_strlit("'");
    assert("road"@[0] != "east"@[0]);
    assert("road"@[0] != "west"@[0]);
    assert("road"@[0] != "list"@[0]);
    assert("road"@[0] != "move"@[0]);
    assert("road"@[0] != "dist"@[0]);
    assert("road"@[0] != "next"@[0]);
    assert("road"@[0] != "tile"@[0]);
    assert("road"@[0] != "city"@[0]);
    assert("road"@[0] != "unit"@[0]);
    assert("road"@[0] != "save"@[0]);
    assert("road"@[0] != "help"@[0]);
    assert("road"@[0] != "quit"@[0]);
    assert("road"@[0] != "exit"@[0]);
    lemma_number_word_is_no_direction(q);
    lemma_number_word_is_no_direction(r);
    assert(is_plain_word("road"@));
    assert(vstd::utf8::is_ascii_chars("road"@));
    assert(ascii_lowercased("road"@) =~= "road"@);
    assert(spec_parse_direction("road"@) is None);
    lemma_coord_line("road"@, q, r);
    assert(!is_move_group("road"@) && !is_production_group("road"@) && is_map_group("road"@));
}

/// The compass name of each hex direction.
pub open spec fn direction_long_name(d: HexDir) -> Seq<char> {
    match d {
        HexDir::E => "east"@,
        HexDir::NE => "northeast"@,
        HexDir::NW => "northwest"@,
        HexDir::W => "west"@,
        HexDir::SW => "southwest"@,
        HexDir::SE => "southeast"@,
    }
}

/// The short name of each hex direction.
pub open spec fn direction_short_name(d: HexDir) -> Seq<char> {
    match d {
        HexDir::E => "e"@,
        HexDir::NE => "ne"@,
        HexDir::NW => "nw"@,
        HexDir::W => "w"@,
        HexDir::SW => "sw"@,
        HexDir::SE => "se"@,
    }
}

/// Each direction's compass name and short name read as that direction,
/// so no two directions share a name.
pub proof fn direction_names_read_back(d: HexDir)
    ensures
        spec_parse_direction(direction_long_name(d)) == Some(d),
        spec_parse_direction(direction_short_name(d)) == Some(d),
{
    reveal_strlit("e");
    reveal_strlit("east");
    reveal_strlit("w");
    reveal_strlit("west");
    reveal_strlit("ne");
    reveal_strlit("northeast");
    reveal_strlit("nw");
    reveal_strlit("northwest");
    reveal_strlit("se");
    reveal_strlit("southeast");
    reveal_strlit("sw");
    reveal_strlit("southwest");
    assert("e"@.len() == 1);
    assert("east"@.len() == 4);
    assert("w"@.len() == 1);
    assert("west"@.len() == 4);
    assert("ne"@.len() == 2);
    assert("northeast"@.len() == 9);
    assert("nw"@.len() == 2);
    assert("northwest"@.len() == 9);
    assert("se"@.len() == 2);
    assert("southeast"@.len() == 9);
    assert("sw"@.len() == 2);
    assert("southwest"@.len() == 9);
    match d {
        HexDir::E => {
            assert(vstd::utf8::is_ascii_chars("east"@) && vstd::utf8::is_ascii_chars("e"@));
            assert(ascii_lowercased("east"@) =~= "east"@);
            assert(ascii_lowercased("e"@) =~= "e"@);
            assert("east"@[0] != "west"@[0]);
            assert("e"@[0] != "w"@[0]);
        },
        HexDir::NE => {
            assert(vstd::utf8::is_ascii_chars("northeast"@) && vstd::utf8::is_ascii_chars("ne"@));
            assert(ascii_lowercased("northeast"@) =~= "northeast"@);
            assert(ascii_lowercased("ne"@) =~= "ne"@);
            assert("northeast"@[5] != "northwest"@[5]);
            assert("northeast"@[0] != "southeast"@[0]);
            assert("northeast"@[0] != "southwest"@[0]);
            assert("ne"@[1] != "nw"@[1]);
            assert("ne"@[0] != "se"@[0]);
            assert("ne"@[0] != "sw"@[0]);
        },
        HexDir::NW => {
            assert(vstd::utf8::is_ascii_chars("northwest"@) && vstd::utf8::is_ascii_chars("nw"@));
            assert(ascii_lowercased("northwest"@) =~= "northwest"@);
            assert(ascii_lowercased("nw"@) =~= "nw"@);
            assert("northwest"@[5] != "northeast"@[5]);
            assert("northwest"@[0] != "southeast"@[0]);
            assert("northwest"@[0] != "southwest"@[0]);
            assert("nw"@[1] != "ne"@[1]);
            assert("nw"@[0] != "se"@[0]);
            assert("nw"@[0] != "sw"@[0]);
        },
        HexDir::W => {
            assert(vstd::utf8::is_ascii_chars("west"@) && vstd::utf8::is_ascii_chars("w"@));
            assert(ascii_lowercased("west"@) =~= "west"@);
            assert(ascii_lowercased("w"@) =~= "w"@);
            assert("west"@[0] != "east"@[0]);
            assert("w"@[0] != "e"@[0]);
        },
        HexDir::SW => {
            assert(vstd::utf8::is_ascii_chars("southwest"@) && vstd::utf8::is_ascii_chars("sw"@));
            assert(ascii_lowercased("southwest"@) =~= "southwest"@);
            assert(ascii_lowercased("sw"@) =~= "sw"@);
            assert("southwest"@[0] != "northeast"@[0]);
            assert("southwest"@[0] != "northwest"@[0]);
            assert("southwest"@[5] != "southeast"@[5]);
            assert("sw"@[0] != "ne"@[0]);
            assert("sw"@[0] != "nw"@[0]);
            assert("sw"@[1] != "se"@[1]);
        },
        HexDir::SE => {
            assert(vstd::utf8::is_ascii_chars("southeast"@) && vstd::utf8::is_ascii_chars("se"@));
            assert(ascii_lowercased("southeast"@) =~= "southeast"@);
            assert(ascii_lowercased("se"@) =~= "se"@);
            assert("southeast"@[0] != "northeast"@[0]);
            assert("southeast"@[0] != "northwest"@[0]);
            assert("southeast"@[5] != "southwest"@[5]);
            assert("se"@[0] != "ne"@[0]);
            assert("se"@[0] != "nw"@[0]);
            assert("se"@[1] != "sw"@[1]);
        },
    }
}

/// A word reads as a direction only when, lower-cased, it is that
/// direction's compass name or short name.
pub proof fn directions_only_by_name(w: Seq<char>)
    ensures
        spec_parse_direction(w) matches Some(d) ==> lowercase_text(w) == direction_long_name(d) || lowercase_text(w)
            == direction_short_name(d),
{
}

/// The word that asks each plain query.
pub open spec fn query_word(k: QueryKind) -> Seq<char> {
    match k {
        QueryKind::Units => "units"@,
        QueryKind::Cities => "cities"@,
        QueryKind::Yields => "yields"@,
        QueryKind::Techs => "techs"@,
        QueryKind::Civics => "civics"@,
        QueryKind::Scores => "scores"@,
        QueryKind::Diplomacy => "diplomacy"@,
        _ => Seq::empty(),
    }
}

/// Typing a query's word alone asks that query, so no two queries share a
/// word.
pub proof fn queries_read_back(k: QueryKind, unit: Seq<char>, city: Seq<char>, cmd: ReplCommand)
    requires
        query_word(k).len() > 0,
    ensures
        command_spec(query_word(k), unit, city, cmd) ==> cmd == ReplCommand::Query(k),
{
    reveal_strlit("e");
    reveal_strlit("east");
    reveal_strlit("w");
    reveal_strlit("west");
    reveal_strlit("ne");
    reveal_strlit("northeast");
    reveal_strlit("nw");
    reveal_strlit("northwest");
    reveal_strlit("se");
    reveal_strlit("southeast");
    reveal_strlit("sw");
    reveal_strlit("southwest");
    reveal_strlit("list");
    reveal_strlit("ls");
    reveal_strlit("move");
    reveal_strlit("m");
    reveal_strlit("go");
    reveal_strlit("Usage: move <dir> | move [unit] <q> <r>");
    reveal_strlit("attack");
    reveal_strlit("atk");
    reveal_strlit("Usage: attack [unit] <target>");
    reveal_strlit("New City");
    reveal_strlit("settle");
    reveal_strlit("found-city");
    reveal_strlit("found");
    reveal_strlit("build");
    reveal_strlit("b");
    reveal_strlit("Usage: build <item> | build list");
    reveal_strlit("cancel-production");
    reveal_strlit("cancel");
    reveal_strlit("research");
    reveal_strlit("res");
    reveal_strlit("Usage: research <tech> | research list");
    reveal_strlit("Usage: culture <civic> | culture list");
    reveal_strlit("culture");
    reveal_strlit("civic");
    reveal_strlit("improve");
    reveal_strlit("imp");
    reveal_strlit("Usage: improve <type>");
    reveal_strlit("road");
    reveal_strlit("Usage: road [unit] <q> <r>");
    reveal_strlit("district");
    reveal_strlit("dist");
    reveal_strlit("Usage: district <type> <q> <r>");
    reveal_strlit("declare-war");
    reveal_strlit("war");
    reveal_strlit("Usage: declare-war <civ>");
    reveal_strlit("make-peace");
    reveal_strlit("peace");
    reveal_strlit("Usage: make-peace <civ>");
    reveal_strlit("Usage: form-alliance <civ> <type>");
    reveal_strlit("form-alliance");
    reveal_strlit("alliance");
    reveal_strlit("assign-policy");
    reveal_strlit("policy");
    reveal_strlit("Usage: assign-policy <policy>");
    reveal_strlit("adopt-government");
    reveal_strlit("gov");
    reveal_strlit("Usage: adopt-government <name>");
    reveal_strlit("trade");
    reveal_strlit("Usage: trade [unit] <dest_city>");
    reveal_strlit("found-pantheon");
    reveal_strlit("pantheon");
    reveal_strlit("Usage: found-pantheon <belief>");
    reveal_strlit("found-religion");
    reveal_strlit("religion");
    reveal_strlit("Usage: found-religion <prophet> <name> <belief1> [belief2...]");
    reveal_strlit("spread");
    reveal_strlit("recruit-gp");
    reveal_strlit("recruit");
    reveal_strlit("Usage: recruit-gp <type>");
    reveal_strlit("assign-governor");
    reveal_strlit("governor");
    reveal_strlit("Usage: assign-governor <governor> <city>");
    reveal_strlit("Usage: promote [unit] <promotion>");
    reveal_strlit("promote-unit");
    reveal_strlit("promote");
    reveal_strlit("end-turn");
    reveal_strlit("end");
    reveal_strlit("n");
    reveal_strlit("next");
    reveal_strlit("select");
    reveal_strlit("sel");
    reveal_strlit("Usage: select <q> <r>");
    reveal_strlit("units");
    reveal_strlit("u");
    reveal_strlit("cities");
    reveal_strlit("cs");
    reveal_strlit("yields");
    reveal_strlit("y");
    reveal_strlit("techs");
    reveal_strlit("civics");
    reveal_strlit("scores");
    reveal_strlit("sc");
    reveal_strlit("diplomacy");
    reveal_strlit("diplo");
    reveal_strlit("tile");
    reveal_strlit("t");
    reveal_strlit("Usage: tile <q> <r>");
    reveal_strlit("city");
    reveal_strlit("Usage: city <name_or_suffix>");
    reveal_strlit("unit");
    reveal_strlit("Usage: unit <id>");
    reveal_strlit("board");
    reveal_strlit("map");
    reveal_strlit("save");
    reveal_strlit("help");
    reveal_strlit("h");
    reveal_strlit("?");
    reveal_strlit("quit");
    reveal_strlit("exit");
    reveal_strlit("q");
    reveal_strlit("Unknown command: '");
    reveal_strlit("'");
    assert("e"@.len() == 1);
    assert("east"@.len() == 4);
    assert("w"@.len() == 1);
    assert("west"@.len() == 4);
    assert("ne"@.len() == 2);
    assert("northeast"@.len() == 9);
    assert("nw"@.len() == 2);
    assert("northwest"@.len() == 9);
    assert("se"@.len() == 2);
    assert("southeast"@.len() == 9);
    assert("sw"@.len() == 2);
    assert("southwest"@.len() == 9);
    assert("list"@.len() == 4);
    assert("ls"@.len() == 2);
    assert("move"@.len() == 4);
    assert("m"@.len() == 1);
    assert("go"@.len() == 2);
    assert("Usage: move <dir> | move [unit] <q> <r>"@.len() == 39);
    assert("attack"@.len() == 6);
    assert("atk"@.len() == 3);
    assert("Usage: attack [unit] <target>"@.len() == 29);
    assert("New City"@.len() == 8);
    assert("settle"@.len() == 6);
    assert("found-city"@.len() == 10);
    assert("found"@.len() == 5);
    assert("build"@.len() == 5);
    assert("b"@.len() == 1);
    assert("Usage: build <item> | build list"@.len() == 32);
    assert("cancel-production"@.len() == 17);
    assert("cancel"@.len() == 6);
    assert("research"@.len() == 8);
    assert("res"@.len() == 3);
    assert("Usage: research <tech> | research list"@.len() == 38);
    assert("Usage: culture <civic> | culture list"@.len() == 37);
    assert("culture"@.len() == 7);
    assert("civic"@.len() == 5);
    assert("improve"@.len() == 7);
    assert("imp"@.len() == 3);
    assert("Usage: improve <type>"@.len() == 21);
    assert("road"@.len() == 4);
    assert("Usage: road [unit] <q> <r>"@.len() == 26);
    assert("district"@.len() == 8);
    assert("dist"@.len() == 4);
    assert("Usage: district <type> <q> <r>"@.len() == 30);
    assert("declare-war"@.len() == 11);
    assert("war"@.len() == 3);
    assert("Usage: declare-war <civ>"@.len() == 24);
    assert("make-peace"@.len() == 10);
    assert("peace"@.len() == 5);
    assert("Usage: make-peace <civ>"@.len() == 23);
    assert("Usage: form-alliance <civ> <type>"@.len() == 33);
    assert("form-alliance"@.len() == 13);
    assert("alliance"@.len() == 8);
    assert("assign-policy"@.len() == 13);
    assert("policy"@.len() == 6);
    assert("Usage: assign-policy <policy>"@.len() == 29);
    assert("adopt-government"@.len() == 16);
    assert("gov"@.len() == 3);
    assert("Usage: adopt-government <name>"@.len() == 30);
    assert("trade"@.len() == 5);
    assert("Usage: trade [unit] <dest_city>"@.len() == 31);
    assert("found-pantheon"@.len() == 14);
    assert("pantheon"@.len() == 8);
    assert("Usage: found-pantheon <belief>"@.len() == 30);
    assert("found-religion"@.len() == 14);
    assert("religion"@.len() == 8);
    assert("Usage: found-religion <prophet> <name> <belief1> [belief2...]"@.len() == 61);
    assert("spread"@.len() == 6);
    assert("recruit-gp"@.len() == 10);
    assert("recruit"@.len() == 7);
    assert("Usage: recruit-gp <type>"@.len() == 24);
    assert("assign-governor"@.len() == 15);
    assert("governor"@.len() == 8);
    assert("Usage: assign-governor <governor> <city>"@.len() == 40);
    assert("Usage: promote [unit] <promotion>"@.len() == 33);
    assert("promote-unit"@.len() == 12);
    assert("promote"@.len() == 7);
    assert("end-turn"@.len() == 8);
    assert("end"@.len() == 3);
    assert("n"@.len() == 1);
    assert("next"@.len() == 4);
    assert("select"@.len() == 6);
    assert("sel"@.len() == 3);
    assert("Usage: select <q> <r>"@.len() == 21);
    assert("units"@.len() == 5);
    assert("u"@.len() == 1);
    assert("cities"@.len() == 6);
    assert("cs"@.len() == 2);
    assert("yields"@.len() == 6);
    assert("y"@.len() == 1);
    assert("techs"@.len() == 5);
    assert("civics"@.len() == 6);
    assert("scores"@.len() == 6);
    assert("sc"@.len() == 2);
    assert("diplomacy"@.len() == 9);
    assert("diplo"@.len() == 5);
    assert("tile"@.len() == 4);
    assert("t"@.len() == 1);
    assert("Usage: tile <q> <r>"@.len() == 19);
    assert("city"@.len() == 4);
    assert("Usage: city <name_or_suffix>"@.len() == 28);
    assert("unit"@.len() == 4);
    assert("Usage: unit <id>"@.len() == 16);
    assert("board"@.len() == 5);
    assert("map"@.len() == 3);
    assert("save"@.len() == 4);
    assert("help"@.len() == 4);
    assert("h"@.len() == 1);
    assert("?"@.len() == 1);
    assert("quit"@.len() == 4);
    assert("exit"@.len() == 4);
    assert("q"@.len() == 1);
    assert("Unknown command: '"@.len() == 18);
    assert("'"@.len() == 1);
    match k {
        QueryKind::Units => {
            assert("units"@[0] != "found"@[0]);
            assert("units"@[0] != "build"@[0]);
            assert("units"@[0] != "civic"@[0]);
            assert("units"@[0] != "peace"@[0]);
            assert("units"@[0] != "trade"@[0]);
            assert("units"@[0] != "techs"@[0]);
            assert("units"@[0] != "diplo"@[0]);
            assert("units"@[0] != "board"@[0]);
            assert(is_plain_word("units"@));
            assert(vstd::utf8::is_ascii_chars("units"@));
            assert(ascii_lowercased("units"@) =~= "units"@);
            assert(spec_parse_direction("units"@) is None);
            one_word("units"@);
            assert(!is_move_group("units"@) && !is_production_group("units"@) && !is_map_group("units"@) && !is_civ_group("units"@));
        },
        QueryKind::Cities => {
            assert("cities"@[0] != "attack"@[0]);
            assert("cities"@[0] != "settle"@[0]);
            assert("cities"@[1] != "cancel"@[1]);
            assert("cities"@[0] != "policy"@[0]);
            assert("cities"@[0] != "spread"@[0]);
            assert("cities"@[0] != "select"@[0]);
            assert("cities"@[0] != "yields"@[0]);
            assert("cities"@[2] != "civics"@[2]);
            assert("cities"@[0] != "scores"@[0]);
            assert(is_plain_word("cities"@));
            assert(vstd::utf8::is_ascii_chars("cities"@));
            assert(ascii_lowercased("cities"@) =~= "cities"@);
            assert(spec_parse_direction("cities"@) is None);
            one_word("cities"@);
            assert(!is_move_group("cities"@) && !is_production_group("cities"@) && !is_map_group("cities"@) && !is_civ_group("cities"@));
        },
        QueryKind::Yields => {
            assert("yields"@[0] != "attack"@[0]);
            assert("yields"@[0] != "settle"@[0]);
            assert("yields"@[0] != "cancel"@[0]);
            assert("yields"@[0] != "policy"@[0]);
            assert("yields"@[0] != "spread"@[0]);
            assert("yields"@[0] != "select"@[0]);
            assert("yields"@[0] != "cities"@[0]);
            assert("yields"@[0] != "civics"@[0]);
            assert("yields"@[0] != "scores"@[0]);
            assert(is_plain_word("yields"@));
            assert(vstd::utf8::is_ascii_chars("yields"@));
            assert(ascii_lowercased("yields"@) =~= "yields"@);
            assert(spec_parse_direction("yields"@) is None);
            one_word("yields"@);
            assert(!is_move_group("yields"@) && !is_production_group("yields"@) && !is_map_group("yields"@) && !is_civ_group("yields"@));
        },
        QueryKind::Techs => {
            assert("techs"@[0] != "found"@[0]);
            assert("techs"@[0] != "build"@[0]);
            assert("techs"@[0] != "civic"@[0]);
            assert("techs"@[0] != "peace"@[0]);
            assert("techs"@[1] != "trade"@[1]);
            assert("techs"@[0] != "units"@[0]);
            assert("techs"@[0] != "diplo"@[0]);
            assert("techs"@[0] != "board"@[0]);
            assert(is_plain_word("techs"@));
            assert(vstd::utf8::is_ascii_chars("techs"@));
            assert(ascii_lowercased("techs"@) =~= "techs"@);
            assert(spec_parse_direction("techs"@) is None);
            one_word("techs"@);
            assert(!is_move_group("techs"@) && !is_production_group("techs"@) && !is_map_group("techs"@) && !is_civ_group("techs"@));
        },
        QueryKind::Civics => {
            assert("civics"@[0] != "attack"@[0]);
            assert("civics"@[0] != "settle"@[0]);
            assert("civics"@[1] != "cancel"@[1]);
            assert("civics"@[0] != "policy"@[0]);
            assert("civics"@[0] != "spread"@[0]);
            assert("civics"@[0] != "select"@[0]);
            assert("civics"@[2] != "cities"@[2]);
            assert("civics"@[0] != "yields"@[0]);
            assert("civics"@[0] != "scores"@[0]);
            assert(is_plain_word("civics"@));
            assert(vstd::utf8::is_ascii_chars("civics"@));
            assert(ascii_lowercased("civics"@) =~= "civics"@);
            assert(spec_parse_direction("civics"@) is None);
            one_word("civics"@);
            assert(!is_move_group("civics"@) && !is_production_group("civics"@) && !is_map_group("civics"@) && !is_civ_group("civics"@));
        },
        QueryKind::Scores => {
            assert("scores"@[0] != "attack"@[0]);
            assert("scores"@[1] != "settle"@[1]);
            assert("scores"@[0] != "cancel"@[0]);
            assert("scores"@[0] != "policy"@[0]);
            assert("scores"@[1] != "spread"@[1]);
            assert("scores"@[1] != "select"@[1]);
            assert("scores"@[0] != "cities"@[0]);
            assert("scores"@[0] != "yields"@[0]);
            assert("scores"@[0] != "civics"@[0]);
            assert(is_plain_word("scores"@));
            assert(vstd::utf8::is_ascii_chars("scores"@));
            assert(ascii_lowercased("scores"@) =~= "scores"@);
            assert(spec_parse_direction("scores"@) is None);
            one_word("scores"@);
            assert(!is_move_group("scores"@) && !is_production_group("scores"@) && !is_map_group("scores"@) && !is_civ_group("scores"@));
        },
        QueryKind::Diplomacy => {
            assert("diplomacy"@[0] != "northeast"@[0]);
            assert("diplomacy"@[0] != "northwest"@[0]);
            assert("diplomacy"@[0] != "southeast"@[0]);
            assert("diplomacy"@[0] != "southwest"@[0]);
            assert(is_plain_word("diplomacy"@));
            assert(vstd::utf8::is_ascii_chars("diplomacy"@));
            assert(ascii_lowercased("diplomacy"@) =~= "diplomacy"@);
            assert(spec_parse_direction("diplomacy"@) is None);
            one_word("diplomacy"@);
            assert(!is_move_group("diplomacy"@) && !is_production_group("diplomacy"@) && !is_map_group("diplomacy"@) && !is_civ_group("diplomacy"@));
        },
        _ => {},
    }
}

/// The word of each session command.
pub open spec fn session_word(c: ReplCommand) -> Seq<char> {
    match c {
        ReplCommand::EndTurn => "end-turn"@,
        ReplCommand::Board => "board"@,
        ReplCommand::Save => "save"@,
        ReplCommand::Help => "help"@,
        ReplCommand::Quit => "quit"@,
        _ => Seq::empty(),
    }
}

/// Typing a session command's word alone gives that command.
pub proof fn session_commands_read_back(c: ReplCommand, unit: Seq<char>, city: Seq<char>, cmd: ReplCommand)
    requires
        session_word(c).len() > 0,
    ensures
        command_spec(session_word(c), unit, city, cmd) ==> cmd == c,
{
    reveal_strlit("e");
    reveal_strlit("east");
    reveal_strlit("w");
    reveal_strlit("west");
    reveal_strlit("ne");
    reveal_strlit("northeast");
    reveal_strlit("nw");
    reveal_strlit("northwest");
    reveal_strlit("se");
    reveal_strlit("southeast");
    reveal_strlit("sw");
    reveal_strlit("southwest");
    reveal_strlit("list");
    reveal_strlit("ls");
    reveal_strlit("move");
    reveal_strlit("m");
    reveal_strlit("go");
    reveal_strlit("Usage: move <dir> | move [unit] <q> <r>");
    reveal_strlit("attack");
    reveal_strlit("atk");
    reveal_strlit("Usage: attack [unit] <target>");
    reveal_strlit("New City");
    reveal_strlit("settle");
    reveal_strlit("found-city");
    reveal_strlit("found");
    reveal_strlit("build");
    reveal_strlit("b");
    reveal_strlit("Usage: build <item> | build list");
    reveal_strlit("cancel-production");
    reveal_strlit("cancel");
    reveal_strlit("research");
    reveal_strlit("res");
    reveal_strlit("Usage: research <tech> | research list");
    reveal_strlit("Usage: culture <civic> | culture list");
    reveal_strlit("culture");
    reveal_strlit("civic");
    reveal_strlit("improve");
    reveal_strlit("imp");
    reveal_strlit("Usage: improve <type>");
    reveal_strlit("road");
    reveal_strlit("Usage: road [unit] <q> <r>");
    reveal_strlit("district");
    reveal_strlit("dist");
    reveal_strlit("Usage: district <type> <q> <r>");
    reveal_strlit("declare-war");
    reveal_strlit("war");
    reveal_strlit("Usage: declare-war <civ>");
    reveal_strlit("make-peace");
    reveal_strlit("peace");
    reveal_strlit("Usage: make-peace <civ>");
    reveal_strlit("Usage: form-alliance <civ> <type>");
    reveal_strlit("form-alliance");
    reveal_strlit("alliance");
    reveal_strlit("assign-policy");
    reveal_strlit("policy");
    reveal_strlit("Usage: assign-policy <policy>");
    reveal_strlit("adopt-government");
    reveal_strlit("gov");
    reveal_strlit("Usage: adopt-government <name>");
    reveal_strlit("trade");
    reveal_strlit("Usage: trade [unit] <dest_city>");
    reveal_strlit("found-pantheon");
    reveal_strlit("pantheon");
    reveal_strlit("Usage: found-pantheon <belief>");
    reveal_strlit("found-religion");
    reveal_strlit("religion");
    reveal_strlit("Usage: found-religion <prophet> <name> <belief1> [belief2...]");
    reveal_strlit("spread");
    reveal_strlit("recruit-gp");
    reveal_strlit("recruit");
    reveal_strlit("Usage: recruit-gp <type>");
    reveal_strlit("assign-governor");
    reveal_strlit("governor");
    reveal_strlit("Usage: assign-governor <governor> <city>");
    reveal_strlit("Usage: promote [unit] <promotion>");
    reveal_strlit("promote-unit");
    reveal_strlit("promote");
    reveal_strlit("end-turn");
    reveal_strlit("end");
    reveal_strlit("n");
    reveal_strlit("next");
    reveal_strlit("select");
    reveal_strlit("sel");
    reveal_strlit("Usage: select <q> <r>");
    reveal_strlit("units");
    reveal_strlit("u");
    reveal_strlit("cities");
    reveal_strlit("cs");
    reveal_strlit("yields");
    reveal_strlit("y");
    reveal_strlit("techs");
    reveal_strlit("civics");
    reveal_strlit("scores");
    reveal_strlit("sc");
    reveal_strlit("diplomacy");
    reveal_strlit("diplo");
    reveal_strlit("tile");
    reveal_strlit("t");
    reveal_strlit("Usage: tile <q> <r>");
    reveal_strlit("city");
    reveal_strlit("Usage: city <name_or_suffix>");
    reveal_strlit("unit");
    reveal_strlit("Usage: unit <id>");
    reveal_strlit("board");
    reveal_strlit("map");
    reveal_strlit("save");
    reveal_strlit("help");
    reveal_strlit("h");
    reveal_strlit("?");
    reveal_strlit("quit");
    reveal_strlit("exit");
    reveal_strlit("q");
    reveal_strlit("Unknown command: '");
    reveal_strlit("'");
    assert("e"@.len() == 1);
    assert("east"@.len() == 4);
    assert("w"@.len() == 1);
    assert("west"@.len() == 4);
    assert("ne"@.len() == 2);
    assert("northeast"@.len() == 9);
    assert("nw"@.len() == 2);
    assert("northwest"@.len() == 9);
    assert("se"@.len() == 2);
    assert("southeast"@.len() == 9);
    assert("sw"@.len() == 2);
    assert("southwest"@.len() == 9);
    assert("list"@.len() == 4);
    assert("ls"@.len() == 2);
    assert("move"@.len() == 4);
    assert("m"@.len() == 1);
    assert("go"@.len() == 2);
    assert("Usage: move <dir> | move [unit] <q> <r>"@.len() == 39);
    assert("attack"@.len() == 6);
    assert("atk"@.len() == 3);
    assert("Usage: attack [unit] <target>"@.len() == 29);
    assert("New City"@.len() == 8);
    assert("settle"@.len() == 6);
    assert("found-city"@.len() == 10);
    assert("found"@.len() == 5);
    assert("build"@.len() == 5);
    assert("b"@.len() == 1);
    assert("Usage: build <item> | build list"@.len() == 32);
    assert("cancel-production"@.len() == 17);
    assert("cancel"@.len() == 6);
    assert("research"@.len() == 8);
    assert("res"@.len() == 3);
    assert("Usage: research <tech> | research list"@.len() == 38);
    assert("Usage: culture <civic> | culture list"@.len() == 37);
    assert("culture"@.len() == 7);
    assert("civic"@.len() == 5);
    assert("improve"@.len() == 7);
    assert("imp"@.len() == 3);
    assert("Usage: improve <type>"@.len() == 21);
    assert("road"@.len() == 4);
    assert("Usage: road [unit] <q> <r>"@.len() == 26);
    assert("district"@.len() == 8);
    assert("dist"@.len() == 4);
    assert("Usage: district <type> <q> <r>"@.len() == 30);
    assert("declare-war"@.len() == 11);
    assert("war"@.len() == 3);
    assert("Usage: declare-war <civ>"@.len() == 24);
    assert("make-peace"@.len() == 10);
    assert("peace"@.len() == 5);
    assert("Usage: make-peace <civ>"@.len() == 23);
    assert("Usage: form-alliance <civ> <type>"@.len() == 33);
    assert("form-alliance"@.len() == 13);
    assert("alliance"@.len() == 8);
    assert("assign-policy"@.len() == 13);
    assert("policy"@.len() == 6);
    assert("Usage: assign-policy <policy>"@.len() == 29);
    assert("adopt-government"@.len() == 16);
    assert("gov"@.len() == 3);
    assert("Usage: adopt-government <name>"@.len() == 30);
    assert("trade"@.len() == 5);
    assert("Usage: trade [unit] <dest_city>"@.len() == 31);
    assert("found-pantheon"@.len() == 14);
    assert("pantheon"@.len() == 8);
    assert("Usage: found-pantheon <belief>"@.len() == 30);
    assert("found-religion"@.len() == 14);
    assert("religion"@.len() == 8);
    assert("Usage: found-religion <prophet> <name> <belief1> [belief2...]"@.len() == 61);
    assert("spread"@.len() == 6);
    assert("recruit-gp"@.len() == 10);
    assert("recruit"@.len() == 7);
    assert("Usage: recruit-gp <type>"@.len() == 24);
    assert("assign-governor"@.len() == 15);
    assert("governor"@.len() == 8);
    assert("Usage: assign-governor <governor> <city>"@.len() == 40);
    assert("Usage: promote [unit] <promotion>"@.len() == 33);
    assert("promote-unit"@.len() == 12);
    assert("promote"@.len() == 7);
    assert("end-turn"@.len() == 8);
    assert("end"@.len() == 3);
    assert("n"@.len() == 1);
    assert("next"@.len() == 4);
    assert("select"@.len() == 6);
    assert("sel"@.len() == 3);
    assert("Usage: select <q> <r>"@.len() == 21);
    assert("units"@.len() == 5);
    assert("u"@.len() == 1);
    assert("cities"@.len() == 6);
    assert("cs"@.len() == 2);
    assert("yields"@.len() == 6);
    assert("y"@.len() == 1);
    assert("techs"@.len() == 5);
    assert("civics"@.len() == 6);
    assert("scores"@.len() == 6);
    assert("sc"@.len() == 2);
    assert("diplomacy"@.len() == 9);
    assert("diplo"@.len() == 5);
    assert("tile"@.len() == 4);
    assert("t"@.len() == 1);
    assert("Usage: tile <q> <r>"@.len() == 19);
    assert("city"@.len() == 4);
    assert("Usage: city <name_or_suffix>"@.len() == 28);
    assert("unit"@.len() == 4);
    assert("Usage: unit <id>"@.len() == 16);
    assert("board"@.len() == 5);
    assert("map"@.len() == 3);
    assert("save"@.len() == 4);
    assert("help"@.len() == 4);
    assert("h"@.len() == 1);
    assert("?"@.len() == 1);
    assert("quit"@.len() == 4);
    assert("exit"@.len() == 4);
    assert("q"@.len() == 1);
    assert("Unknown command: '"@.len() == 18);
    assert("'"@.len() == 1);
    match c {
        ReplCommand::EndTurn => {
            assert("end-turn"@[0] != "New City"@[0]);
            assert("end-turn"@[0] != "research"@[0]);
            assert("end-turn"@[0] != "district"@[0]);
            assert("end-turn"@[0] != "alliance"@[0]);
            assert("end-turn"@[0] != "pantheon"@[0]);
            assert("end-turn"@[0] != "religion"@[0]);
            assert("end-turn"@[0] != "governor"@[0]);
            assert(is_plain_word("end-turn"@));
            assert(vstd::utf8::is_ascii_chars("end-turn"@));
            assert(ascii_lowercased("end-turn"@) =~= "end-turn"@);
            assert(spec_parse_direction("end-turn"@) is None);
            one_word("end-turn"@);
            assert(!is_move_group("end-turn"@) && !is_production_group("end-turn"@) && !is_map_group("end-turn"@) && !is_civ_group("end-turn"@));
        },
        ReplCommand::Board => {
            assert("board"@[0] != "found"@[0]);
            assert("board"@[1] != "build"@[1]);
            assert("board"@[0] != "civic"@[0]);
            assert("board"@[0] != "peace"@[0]);
            assert("board"@[0] != "trade"@[0]);
            assert("board"@[0] != "units"@[0]);
            assert("board"@[0] != "techs"@[0]);
            assert("board"@[0] != "diplo"@[0]);
            assert(is_plain_word("board"@));
            assert(vstd::utf8::is_ascii_chars("board"@));
            assert(ascii_lowercased("board"@) =~= "board"@);
            assert(spec_parse_direction("board"@) is None);
            one_word("board"@);
            assert(!is_move_group("board"@) && !is_production_group("board"@) && !is_map_group("board"@) && !is_civ_group("board"@));
        },
        ReplCommand::Save => {
            assert("save"@[0] != "east"@[0]);
            assert("save"@[0] != "west"@[0]);
            assert("save"@[0] != "list"@[0]);
            assert("save"@[0] != "move"@[0]);
            assert("save"@[0] != "road"@[0]);
            assert("save"@[0] != "dist"@[0]);
            assert("save"@[0] != "next"@[0]);
            assert("save"@[0] != "tile"@[0]);
            assert("save"@[0] != "city"@[0]);
            assert("save"@[0] != "unit"@[0]);
            assert("save"@[0] != "help"@[0]);
            assert("save"@[0] != "quit"@[0]);
            assert("save"@[0] != "exit"@[0]);
            assert(is_plain_word("save"@));
            assert(vstd::utf8::is_ascii_chars("save"@));
            assert(ascii_lowercased("save"@) =~= "save"@);
            assert(spec_parse_direction("save"@) is None);
            one_word("save"@);
            assert(!is_move_group("save"@) && !is_production_group("save"@) && !is_map_group("save"@) && !is_civ_group("save"@));
        },
        ReplCommand::Help => {
            assert("help"@[0] != "east"@[0]);
            assert("help"@[0] != "west"@[0]);
            assert("help"@[0] != "list"@[0]);
            assert("help"@[0] != "move"@[0]);
            assert("help"@[0] != "road"@[0]);
            assert("help"@[0] != "dist"@[0]);
            assert("help"@[0] != "next"@[0]);
            assert("help"@[0] != "tile"@[0]);
            assert("help"@[0] != "city"@[0]);
            assert("help"@[0] != "unit"@[0]);
            assert("help"@[0] != "save"@[0]);
            assert("help"@[0] != "quit"@[0]);
            assert("help"@[0] != "exit"@[0]);
            assert(is_plain_word("help"@));
            assert(vstd::utf8::is_ascii_chars("help"@));
            assert(ascii_lowercased("help"@) =~= "help"@);
            assert(spec_parse_direction("help"@) is None);
            one_word("help"@);
            assert(!is_move_group("help"@) && !is_production_group("help"@) && !is_map_group("help"@) && !is_civ_group("help"@));
        },
        ReplCommand::Quit => {
            assert("quit"@[0] != "east"@[0]);
            assert("quit"@[0] != "west"@[0]);
            assert("quit"@[0] != "list"@[0]);
            assert("quit"@[0] != "move"@[0]);
            assert("quit"@[0] != "road"@[0]);
            assert("quit"@[0] != "dist"@[0]);
            assert("quit"@[0] != "next"@[0]);
            assert("quit"@[0] != "tile"@[0]);
            assert("quit"@[0] != "city"@[0]);
            assert("quit"@[0] != "unit"@[0]);
            assert("quit"@[0] != "save"@[0]);
            assert("quit"@[0] != "help"@[0]);
            assert("quit"@[0] != "exit"@[0]);
            assert(is_plain_word("quit"@));
            assert(vstd::utf8::is_ascii_chars("quit"@));
            assert(ascii_lowercased("quit"@) =~= "quit"@);
            assert(spec_parse_direction("quit"@) is None);
            one_word("quit"@);
            assert(!is_move_group("quit"@) && !is_production_group("quit"@) && !is_map_group("quit"@) && !is_civ_group("quit"@));
        },
        _ => {},
    }
}

} // verus!
