//! How the snapshot map and the notifications list draw things: a terrain
//! name such as `Plains+Hills` gives a fill colour and a one-letter glyph
//! from its base part, and a notification category gives a symbol.

use vstd::prelude::*;

use crate::accounts::player::{first_at, lemma_first_at_unique, split_once};
use crate::text::{chars_of, contains_chars, contains_text, is_word};

verus! {

/// The part of a terrain name before its first `+` (all of it when it has
/// none).
pub open spec fn base_terrain_of(s: Seq<char>) -> Seq<char> {
    if exists|i: int| first_at(s, '+', i) {
        s.take(choose|i: int| first_at(s, '+', i))
    } else {
        s
    }
}

/// The base terrain of a terrain name: `Plains+Hills` gives `Plains`.
pub fn base_terrain(s: &str) -> (r: String)
    ensures
        r@ == base_terrain_of(s@),
{
    match split_once(s, '+') {
        Some((b, _)) => {
            proof {
                let i = choose|i: int| first_at(s@, '+', i) && b@ == s@.take(i);
                let j = choose|j: int| first_at(s@, '+', j);
                lemma_first_at_unique(s@, '+', i, j);
            }
            b
        },
        None => {
            proof {
                assert(!exists|i: int| first_at(s@, '+', i));
            }
            s.to_string()
        },
    }
}

/// The tile has hills: its terrain name holds `Hills`.
pub fn is_hills(s: &str) -> (r: bool)
    ensures
        r == contains_text(s@, "Hills"@),
{
    contains_chars(&chars_of(s), &chars_of("Hills"))
}

/// The fill colour of a base terrain.
pub open spec fn fill_of(base: Seq<char>) -> Seq<char> {
    if base == "Grassland"@ {
        "#3a6b45"@
    } else if base == "Plains"@ {
        "#8a7d3a"@
    } else if base == "Desert"@ {
        "#c8a84b"@
    } else if base == "Tundra"@ {
        "#6b7a5e"@
    } else if base == "Snow"@ {
        "#d8e0e8"@
    } else if base == "Coast"@ {
        "#3a7a9e"@
    } else if base == "Ocean"@ {
        "#1a3a5e"@
    } else if base == "Mountain"@ {
        "#5e5e5e"@
    } else {
        "#444"@
    }
}

/// The fill colour of a tile, from its base terrain; unknown ones are grey.
pub fn terrain_fill(s: &str) -> (r: &'static str)
    ensures
        r@ == fill_of(base_terrain_of(s@)),
{
    let b = base_terrain(s);
    let n = chars_of(b.as_str());
    if is_word(&n, "Grassland") {
        "#3a6b45"
    } else if is_word(&n, "Plains") {
        "#8a7d3a"
    } else if is_word(&n, "Desert") {
        "#c8a84b"
    } else if is_word(&n, "Tundra") {
        "#6b7a5e"
    } else if is_word(&n, "Snow") {
        "#d8e0e8"
    } else if is_word(&n, "Coast") {
        "#3a7a9e"
    } else if is_word(&n, "Ocean") {
        "#1a3a5e"
    } else if is_word(&n, "Mountain") {
        "#5e5e5e"
    } else {
        "#444"
    }
}

/// The letter drawn on a base terrain.
pub open spec fn glyph_of(base: Seq<char>) -> Seq<char> {
    if base == "Grassland"@ {
        "G"@
    } else if base == "Plains"@ {
        "P"@
    } else if base == "Desert"@ {
        "D"@
    } else if base == "Tundra"@ {
        "T"@
    } else if base == "Snow"@ {
        "S"@
    } else if base == "Coast"@ {
        "C"@
    } else if base == "Ocean"@ {
        "~"@
    } else if base == "Mountain"@ {
        "M"@
    } else {
        "?"@
    }
}

/// The letter drawn on a tile, from its base terrain; unknown ones get `?`.
pub fn terrain_glyph(s: &str) -> (r: &'static str)
    ensures
        r@ == glyph_of(base_terrain_of(s@)),
{
    let b = base_terrain(s);
    let n = chars_of(b.as_str());
    if is_word(&n, "Grassland") {
        "G"
    } else if is_word(&n, "Plains") {
        "P"
    } else if is_word(&n, "Desert") {
        "D"
    } else if is_word(&n, "Tundra") {
        "T"
    } else if is_word(&n, "Snow") {
        "S"
    } else if is_word(&n, "Coast") {
        "C"
    } else if is_word(&n, "Ocean") {
        "~"
    } else if is_word(&n, "Mountain") {
        "M"
    } else {
        "?"
    }
}

/// The symbol shown beside a notification of a category.
pub open spec fn category_symbol(c: Seq<char>) -> Seq<char> {
    if c == "research"@ {
        "\u{1F52C}"@
    } else if c == "environment"@ {
        "\u{2248}"@
    } else if c == "military"@ {
        "\u{2694}"@
    } else if c == "builder"@ {
        "\u{2713}"@
    } else if c == "diplomacy"@ {
        "\u{25CA}"@
    } else if c == "civic"@ {
        "\u{25A6}"@
    } else if c == "city"@ {
        "\u{25A0}"@
    } else if c == "production"@ {
        "\u{25A5}"@
    } else if c == "religion"@ {
        "\u{2726}"@
    } else if c == "economy"@ {
        "$"@
    } else if c == "era"@ {
        "\u{0394}"@
    } else {
        "\u{2022}"@
    }
}

/// The symbol of a notification category; unknown categories get a bullet.
pub fn category_glyph(category: &str) -> (r: &'static str)
    ensures
        r@ == category_symbol(category@),
{
    let n = chars_of(category);
    if is_word(&n, "research") {
        "\u{1F52C}"
    } else if is_word(&n, "environment") {
        "\u{2248}"
    } else if is_word(&n, "military") {
        "\u{2694}"
    } else if is_word(&n, "builder") {
        "\u{2713}"
    } else if is_word(&n, "diplomacy") {
        "\u{25CA}"
    } else if is_word(&n, "civic") {
        "\u{25A6}"
    } else if is_word(&n, "city") {
        "\u{25A0}"
    } else if is_word(&n, "production") {
        "\u{25A5}"
    } else if is_word(&n, "religion") {
        "\u{2726}"
    } else if is_word(&n, "economy") {
        "$"
    } else if is_word(&n, "era") {
        "\u{0394}"
    } else {
        "\u{2022}"
    }
}

// ───────────────────────────── Laws ──────────────────────────────────────────

/// The base terrains the snapshot map knows, in table order.
pub open spec fn snapshot_terrain(i: int) -> Seq<char> {
    if i == 0 {
        "Grassland"@
    } else if i == 1 {
        "Plains"@
    } else if i == 2 {
        "Desert"@
    } else if i == 3 {
        "Tundra"@
    } else if i == 4 {
        "Snow"@
    } else if i == 5 {
        "Coast"@
    } else if i == 6 {
        "Ocean"@
    } else if i == 7 {
        "Mountain"@
    } else {
        Seq::empty()
    }
}
/// The glyph of each known base terrain.
proof fn lemma_glyph_values()
    ensures
        glyph_of(snapshot_terrain(0)) == "G"@,
        glyph_of(snapshot_terrain(1)) == "P"@,
        glyph_of(snapshot_terrain(2)) == "D"@,
        glyph_of(snapshot_terrain(3)) == "T"@,
        glyph_of(snapshot_terrain(4)) == "S"@,
        glyph_of(snapshot_terrain(5)) == "C"@,
        glyph_of(snapshot_terrain(6)) == "~"@,
        glyph_of(snapshot_terrain(7)) == "M"@,
{
    reveal_strlit("Grassland");
    reveal_strlit("G");
    reveal_strlit("Plains");
    reveal_strlit("P");
    reveal_strlit("Desert");
    reveal_strlit("D");
    reveal_strlit("Tundra");
    reveal_strlit("T");
    reveal_strlit("Snow");
    reveal_strlit("S");
    reveal_strlit("Coast");
    reveal_strlit("C");
    reveal_strlit("Ocean");
    reveal_strlit("~");
    reveal_strlit("Mountain");
    reveal_strlit("M");
    reveal_strlit("?");
    assert("Grassland"@.len() == 9);
    assert("G"@.len() == 1);
    assert("Plains"@.len() == 6);
    assert("P"@.len() == 1);
    assert("Desert"@.len() == 6);
    assert("D"@.len() == 1);
    assert("Tundra"@.len() == 6);
    assert("T"@.len() == 1);
    assert("Snow"@.len() == 4);
    assert("S"@.len() == 1);
    assert("Coast"@.len() == 5);
    assert("C"@.len() == 1);
    assert("Ocean"@.len() == 5);
    assert("~"@.len() == 1);
    assert("Mountain"@.len() == 8);
    assert("M"@.len() == 1);
    assert("?"@.len() == 1);
    assert(glyph_of("Grassland"@) == "G"@);
    assert("Plains"@[0] != "Desert"@[0]);
    assert("Plains"@[0] != "Tundra"@[0]);
    assert(glyph_of("Plains"@) == "P"@);
    assert("Desert"@[0] != "Plains"@[0]);
    assert("Desert"@[0] != "Tundra"@[0]);
    assert(glyph_of("Desert"@) == "D"@);
    assert("Tundra"@[0] != "Plains"@[0]);
    assert("Tundra"@[0] != "Desert"@[0]);
    assert(glyph_of("Tundra"@) == "T"@);
    assert(glyph_of("Snow"@) == "S"@);
    assert("Coast"@[0] != "Ocean"@[0]);
    assert(glyph_of("Coast"@) == "C"@);
    assert("Ocean"@[0] != "Coast"@[0]);
    assert(glyph_of("Ocean"@) == "~"@);
    assert(glyph_of("Mountain"@) == "M"@);
}
/// The fill of each known base terrain.
proof fn lemma_fill_values()
    ensures
        fill_of(snapshot_terrain(0)) == "#3a6b45"@,
        fill_of(snapshot_terrain(1)) == "#8a7d3a"@,
        fill_of(snapshot_terrain(2)) == "#c8a84b"@,
        fill_of(snapshot_terrain(3)) == "#6b7a5e"@,
        fill_of(snapshot_terrain(4)) == "#d8e0e8"@,
        fill_of(snapshot_terrain(5)) == "#3a7a9e"@,
        fill_of(snapshot_terrain(6)) == "#1a3a5e"@,
        fill_of(snapshot_terrain(7)) == "#5e5e5e"@,
{
    reveal_strlit("Grassland");
    reveal_strlit("#3a6b45");
    reveal_strlit("Plains");
    reveal_strlit("#8a7d3a");
    reveal_strlit("Desert");
    reveal_strlit("#c8a84b");
    reveal_strlit("Tundra");
    reveal_strlit("#6b7a5e");
    reveal_strlit("Snow");
    reveal_strlit("#d8e0e8");
    reveal_strlit("Coast");
    reveal_strlit("#3a7a9e");
    reveal_strlit("Ocean");
    reveal_strlit("#1a3a5e");
    reveal_strlit("Mountain");
    reveal_strlit("#5e5e5e");
    reveal_strlit("#444");
    assert("Grassland"@.len() == 9);
    assert("#3a6b45"@.len() == 7);
    assert("Plains"@.len() == 6);
    assert("#8a7d3a"@.len() == 7);
    assert("Desert"@.len() == 6);
    assert("#c8a84b"@.len() == 7);
    assert("Tundra"@.len() == 6);
    assert("#6b7a5e"@.len() == 7);
    assert("Snow"@.len() == 4);
    assert("#d8e0e8"@.len() == 7);
    assert("Coast"@.len() == 5);
    assert("#3a7a9e"@.len() == 7);
    assert("Ocean"@.len() == 5);
    assert("#1a3a5e"@.len() == 7);
    assert("Mountain"@.len() == 8);
    assert("#5e5e5e"@.len() == 7);
    assert("#444"@.len() == 4);
    assert(fill_of("Grassland"@) == "#3a6b45"@);
    assert("Plains"@[0] != "Desert"@[0]);
    assert("Plains"@[0] != "Tundra"@[0]);
    assert(fill_of("Plains"@) == "#8a7d3a"@);
    assert("Desert"@[0] != "Plains"@[0]);
    assert("Desert"@[0] != "Tundra"@[0]);
    assert(fill_of("Desert"@) == "#c8a84b"@);
    assert("Tundra"@[0] != "Plains"@[0]);
    assert("Tundra"@[0] != "Desert"@[0]);
    assert(fill_of("Tundra"@) == "#6b7a5e"@);
    assert("Snow"@[0] != "#444"@[0]);
    assert(fill_of("Snow"@) == "#d8e0e8"@);
    assert("Coast"@[0] != "Ocean"@[0]);
    assert(fill_of("Coast"@) == "#3a7a9e"@);
    assert("Ocean"@[0] != "Coast"@[0]);
    assert(fill_of("Ocean"@) == "#1a3a5e"@);
    assert(fill_of("Mountain"@) == "#5e5e5e"@);
}

/// A known base terrain is drawn with its own initial (the ocean with
/// `~`), so distinct terrains get distinct glyphs, and each gets its own
/// fill colour, never the grey of unknown terrain.
pub proof fn known_terrains_drawn_apart(i: int, j: int)
    requires
        0 <= i < 8,
        0 <= j < 8,
    ensures
        glyph_of(snapshot_terrain(i)) == (if snapshot_terrain(i) == "Ocean"@ {
            "~"@
        } else {
            snapshot_terrain(i).take(1)
        }),
        i != j ==> glyph_of(snapshot_terrain(i)) != glyph_of(snapshot_terrain(j)),
        i != j ==> fill_of(snapshot_terrain(i)) != fill_of(snapshot_terrain(j)),
        fill_of(snapshot_terrain(i)) != "#444"@,
{
    lemma_glyph_values();
    lemma_fill_values();
    reveal_strlit("G");
    reveal_strlit("P");
    reveal_strlit("D");
    reveal_strlit("T");
    reveal_strlit("S");
    reveal_strlit("C");
    reveal_strlit("~");
    reveal_strlit("M");
    reveal_strlit("Grassland");
    reveal_strlit("Plains");
    reveal_strlit("Desert");
    reveal_strlit("Tundra");
    reveal_strlit("Snow");
    reveal_strlit("Coast");
    reveal_strlit("Ocean");
    reveal_strlit("Mountain");
    reveal_strlit("#3a6b45");
    reveal_strlit("#8a7d3a");
    reveal_strlit("#c8a84b");
    reveal_strlit("#6b7a5e");
    reveal_strlit("#d8e0e8");
    reveal_strlit("#3a7a9e");
    reveal_strlit("#1a3a5e");
    reveal_strlit("#5e5e5e");
    reveal_strlit("#444");
    assert("G"@.len() == 1);
    assert("P"@.len() == 1);
    assert("D"@.len() == 1);
    assert("T"@.len() == 1);
    assert("S"@.len() == 1);
    assert("C"@.len() == 1);
    assert("~"@.len() == 1);
    assert("M"@.len() == 1);
    assert("Grassland"@.len() == 9);
    assert("Plains"@.len() == 6);
    assert("Desert"@.len() == 6);
    assert("Tundra"@.len() == 6);
    assert("Snow"@.len() == 4);
    assert("Coast"@.len() == 5);
    assert("Ocean"@.len() == 5);
    assert("Mountain"@.len() == 8);
    assert("#3a6b45"@.len() == 7);
    assert("#8a7d3a"@.len() == 7);
    assert("#c8a84b"@.len() == 7);
    assert("#6b7a5e"@.len() == 7);
    assert("#d8e0e8"@.len() == 7);
    assert("#3a7a9e"@.len() == 7);
    assert("#1a3a5e"@.len() == 7);
    assert("#5e5e5e"@.len() == 7);
    assert("#444"@.len() == 4);
    assert("G"@[0] != "P"@[0]);
    assert("G"@[0] != "D"@[0]);
    assert("G"@[0] != "T"@[0]);
    assert("G"@[0] != "S"@[0]);
    assert("G"@[0] != "C"@[0]);
    assert("G"@[0] != "~"@[0]);
    assert("G"@[0] != "M"@[0]);
    assert("P"@[0] != "D"@[0]);
    assert("P"@[0] != "T"@[0]);
    assert("P"@[0] != "S"@[0]);
    assert("P"@[0] != "C"@[0]);
    assert("P"@[0] != "~"@[0]);
    assert("P"@[0] != "M"@[0]);
    assert("D"@[0] != "T"@[0]);
    assert("D"@[0] != "S"@[0]);
    assert("D"@[0] != "C"@[0]);
    assert("D"@[0] != "~"@[0]);
    assert("D"@[0] != "M"@[0]);
    assert("T"@[0] != "S"@[0]);
    assert("T"@[0] != "C"@[0]);
    assert("T"@[0] != "~"@[0]);
    assert("T"@[0] != "M"@[0]);
    assert("S"@[0] != "C"@[0]);
    assert("S"@[0] != "~"@[0]);
    assert("S"@[0] != "M"@[0]);
    assert("C"@[0] != "~"@[0]);
    assert("C"@[0] != "M"@[0]);
    assert("~"@[0] != "M"@[0]);
    assert("#3a6b45"@[1] != "#8a7d3a"@[1]);
    assert("#3a6b45"@[1] != "#c8a84b"@[1]);
    assert("#3a6b45"@[1] != "#6b7a5e"@[1]);
    assert("#3a6b45"@[1] != "#d8e0e8"@[1]);
    assert("#3a6b45"@[3] != "#3a7a9e"@[3]);
    assert("#3a6b45"@[1] != "#1a3a5e"@[1]);
    assert("#3a6b45"@[1] != "#5e5e5e"@[1]);
    assert("#8a7d3a"@[1] != "#c8a84b"@[1]);
    assert("#8a7d3a"@[1] != "#6b7a5e"@[1]);
    assert("#8a7d3a"@[1] != "#d8e0e8"@[1]);
    assert("#8a7d3a"@[1] != "#3a7a9e"@[1]);
    assert("#8a7d3a"@[1] != "#1a3a5e"@[1]);
    assert("#8a7d3a"@[1] != "#5e5e5e"@[1]);
    assert("#c8a84b"@[1] != "#6b7a5e"@[1]);
    assert("#c8a84b"@[1] != "#d8e0e8"@[1]);
    assert("#c8a84b"@[1] != "#3a7a9e"@[1]);
    assert("#c8a84b"@[1] != "#1a3a5e"@[1]);
    assert("#c8a84b"@[1] != "#5e5e5e"@[1]);
    assert("#6b7a5e"@[1] != "#d8e0e8"@[1]);
    assert("#6b7a5e"@[1] != "#3a7a9e"@[1]);
    assert("#6b7a5e"@[1] != "#1a3a5e"@[1]);
    assert("#6b7a5e"@[1] != "#5e5e5e"@[1]);
    assert("#d8e0e8"@[1] != "#3a7a9e"@[1]);
    assert("#d8e0e8"@[1] != "#1a3a5e"@[1]);
    assert("#d8e0e8"@[1] != "#5e5e5e"@[1]);
    assert("#3a7a9e"@[1] != "#1a3a5e"@[1]);
    assert("#3a7a9e"@[1] != "#5e5e5e"@[1]);
    assert("#1a3a5e"@[1] != "#5e5e5e"@[1]);
    if i == 0 {
        assert(snapshot_terrain(i) == "Grassland"@);
        assert("Grassland"@.take(1) =~= "G"@);
    }
    if i == 1 {
        assert(snapshot_terrain(i) == "Plains"@);
        assert("Plains"@.take(1) =~= "P"@);
    }
    if i == 2 {
        assert(snapshot_terrain(i) == "Desert"@);
        assert("Desert"@.take(1) =~= "D"@);
    }
    if i == 3 {
        assert(snapshot_terrain(i) == "Tundra"@);
        assert("Tundra"@.take(1) =~= "T"@);
    }
    if i == 4 {
        assert(snapshot_terrain(i) == "Snow"@);
        assert("Snow"@.take(1) =~= "S"@);
    }
    if i == 5 {
        assert(snapshot_terrain(i) == "Coast"@);
        assert("Coast"@.take(1) =~= "C"@);
    }
    if i == 6 {
        assert(snapshot_terrain(i) == "Ocean"@);
    }
    if i == 7 {
        assert(snapshot_terrain(i) == "Mountain"@);
        assert("Mountain"@.take(1) =~= "M"@);
    }
}

/// Only the known base terrains get a glyph other than `?` or a fill
/// other than grey.
pub proof fn unknown_terrains_are_grey(b: Seq<char>)
    ensures
        glyph_of(b) != "?"@ ==> exists|i: int| 0 <= i < 8 && b == snapshot_terrain(i),
        fill_of(b) != "#444"@ ==> exists|i: int| 0 <= i < 8 && b == snapshot_terrain(i),
{
    assert(snapshot_terrain(0) == "Grassland"@);
    assert(snapshot_terrain(1) == "Plains"@);
    assert(snapshot_terrain(2) == "Desert"@);
    assert(snapshot_terrain(3) == "Tundra"@);
    assert(snapshot_terrain(4) == "Snow"@);
    assert(snapshot_terrain(5) == "Coast"@);
    assert(snapshot_terrain(6) == "Ocean"@);
    assert(snapshot_terrain(7) == "Mountain"@);
}

/// A base terrain is the part before the first `+`: a name without `+`
/// followed by `+` and anything is that name, and a name without `+` is
/// itself, so `Desert+Hills` is drawn as `Desert`.
pub proof fn base_terrain_is_the_name(name: Seq<char>, rest: Seq<char>)
    requires
        forall|i: int| 0 <= i < name.len() ==> name[i] != '+',
    ensures
        base_terrain_of(name + seq!['+'] + rest) == name,
        base_terrain_of(name) == name,
{
    let s = name + seq!['+'] + rest;
    assert(first_at(s, '+', name.len() as int));
    let c = choose|c: int| first_at(s, '+', c);
    lemma_first_at_unique(s, '+', c, name.len() as int);
    assert(s.take(name.len() as int) =~= name);
    assert(!exists|c: int| first_at(name, '+', c));
}
/// The notification categories that have a symbol of their own.
pub open spec fn notification_category(i: int) -> Seq<char> {
    if i == 0 {
        "research"@
    } else if i == 1 {
        "environment"@
    } else if i == 2 {
        "military"@
    } else if i == 3 {
        "builder"@
    } else if i == 4 {
        "diplomacy"@
    } else if i == 5 {
        "civic"@
    } else if i == 6 {
        "city"@
    } else if i == 7 {
        "production"@
    } else if i == 8 {
        "religion"@
    } else if i == 9 {
        "economy"@
    } else if i == 10 {
        "era"@
    } else {
        Seq::empty()
    }
}
/// The symbol of each category.
proof fn lemma_category_values()
    ensures
        category_symbol(notification_category(0)) == "\u{1F52C}"@,
        category_symbol(notification_category(1)) == "\u{2248}"@,
        category_symbol(notification_category(2)) == "\u{2694}"@,
        category_symbol(notification_category(3)) == "\u{2713}"@,
        category_symbol(notification_category(4)) == "\u{25CA}"@,
        category_symbol(notification_category(5)) == "\u{25A6}"@,
        category_symbol(notification_category(6)) == "\u{25A0}"@,
        category_symbol(notification_category(7)) == "\u{25A5}"@,
        category_symbol(notification_category(8)) == "\u{2726}"@,
        category_symbol(notification_category(9)) == "$"@,
        category_symbol(notification_category(10)) == "\u{0394}"@,
{
    reveal_strlit("research");
    reveal_strlit("\u{1F52C}");
    reveal_strlit("environment");
    reveal_strlit("\u{2248}");
    reveal_strlit("military");
    reveal_strlit("\u{2694}");
    reveal_strlit("builder");
    reveal_strlit("\u{2713}");
    reveal_strlit("diplomacy");
    reveal_strlit("\u{25CA}");
    reveal_strlit("civic");
    reveal_strlit("\u{25A6}");
    reveal_strlit("city");
    reveal_strlit("\u{25A0}");
    reveal_strlit("production");
    reveal_strlit("\u{25A5}");
    reveal_strlit("religion");
    reveal_strlit("\u{2726}");
    reveal_strlit("economy");
    reveal_strlit("$");
    reveal_strlit("era");
    reveal_strlit("\u{0394}");
    reveal_strlit("\u{2022}");
    assert("research"@.len() == 8);
    assert("\u{1F52C}"@.len() == 1);
    assert("environment"@.len() == 11);
    assert("\u{2248}"@.len() == 1);
    assert("military"@.len() == 8);
    assert("\u{2694}"@.len() == 1);
    assert("builder"@.len() == 7);
    assert("\u{2713}"@.len() == 1);
    assert("diplomacy"@.len() == 9);
    assert("\u{25CA}"@.len() == 1);
    assert("civic"@.len() == 5);
    assert("\u{25A6}"@.len() == 1);
    assert("city"@.len() == 4);
    assert("\u{25A0}"@.len() == 1);
    assert("production"@.len() == 10);
    assert("\u{25A5}"@.len() == 1);
    assert("religion"@.len() == 8);
    assert("\u{2726}"@.len() == 1);
    assert("economy"@.len() == 7);
    assert("$"@.len() == 1);
    assert("era"@.len() == 3);
    assert("\u{0394}"@.len() == 1);
    assert("\u{2022}"@.len() == 1);
    assert("research"@[0] != "\u{2248}"@[0]);
    assert("research"@[0] != "military"@[0]);
    assert("research"@[0] != "\u{2694}"@[0]);
    assert("research"@[0] != "\u{2713}"@[0]);
    assert("research"@[0] != "\u{25CA}"@[0]);
    assert("research"@[0] != "\u{25A6}"@[0]);
    assert("research"@[0] != "\u{25A0}"@[0]);
    assert("research"@[0] != "\u{25A5}"@[0]);
    assert("research"@[2] != "religion"@[2]);
    assert("research"@[0] != "\u{2726}"@[0]);
    assert("research"@[0] != "\u{0394}"@[0]);
    assert("research"@[0] != "\u{2022}"@[0]);
    assert(category_symbol("research"@) == "\u{1F52C}"@);
    assert(category_symbol("environment"@) == "\u{2248}"@);
    assert("military"@[0] != "research"@[0]);
    assert("military"@[0] != "\u{2248}"@[0]);
    assert("military"@[0] != "\u{2694}"@[0]);
    assert("military"@[0] != "\u{2713}"@[0]);
    assert("military"@[0] != "\u{25CA}"@[0]);
    assert("military"@[0] != "\u{25A6}"@[0]);
    assert("military"@[0] != "\u{25A0}"@[0]);
    assert("military"@[0] != "\u{25A5}"@[0]);
    assert("military"@[0] != "religion"@[0]);
    assert("military"@[0] != "\u{2726}"@[0]);
    assert("military"@[0] != "\u{0394}"@[0]);
    assert("military"@[0] != "\u{2022}"@[0]);
    assert(category_symbol("military"@) == "\u{2694}"@);
    assert("builder"@[0] != "economy"@[0]);
    assert(category_symbol("builder"@) == "\u{2713}"@);
    assert("diplomacy"@[0] != "\u{1F52C}"@[0]);
    assert(category_symbol("diplomacy"@) == "\u{25CA}"@);
    assert(category_symbol("civic"@) == "\u{25A6}"@);
    assert(category_symbol("city"@) == "\u{25A0}"@);
    assert(category_symbol("production"@) == "\u{25A5}"@);
    assert("religion"@[2] != "research"@[2]);
    assert("religion"@[0] != "\u{2248}"@[0]);
    assert("religion"@[0] != "military"@[0]);
    assert("religion"@[0] != "\u{2694}"@[0]);
    assert("religion"@[0] != "\u{2713}"@[0]);
    assert("religion"@[0] != "\u{25CA}"@[0]);
    assert("religion"@[0] != "\u{25A6}"@[0]);
    assert("religion"@[0] != "\u{25A0}"@[0]);
    assert("religion"@[0] != "\u{25A5}"@[0]);
    assert("religion"@[0] != "\u{2726}"@[0]);
    assert("religion"@[0] != "\u{0394}"@[0]);
    assert("religion"@[0] != "\u{2022}"@[0]);
    assert(category_symbol("religion"@) == "\u{2726}"@);
    assert("economy"@[0] != "builder"@[0]);
    assert(category_symbol("economy"@) == "$"@);
    assert(category_symbol("era"@) == "\u{0394}"@);
}

/// Each category with a symbol has its own, different from every other
/// category's and from the bullet an unknown category gets; only those
/// categories get something other than the bullet.
pub proof fn categories_drawn_apart(i: int, j: int, c: Seq<char>)
    requires
        0 <= i < 11,
        0 <= j < 11,
    ensures
        i != j ==> category_symbol(notification_category(i)) != category_symbol(notification_category(j)),
        category_symbol(notification_category(i)) != "\u{2022}"@,
        category_symbol(c) != "\u{2022}"@ ==> exists|k: int| 0 <= k < 11 && c == notification_category(k),
{
    lemma_category_values();
    reveal_strlit("\u{1F52C}");
    reveal_strlit("\u{2248}");
    reveal_strlit("\u{2694}");
    reveal_strlit("\u{2713}");
    reveal_strlit("\u{25CA}");
    reveal_strlit("\u{25A6}");
    reveal_strlit("\u{25A0}");
    reveal_strlit("\u{25A5}");
    reveal_strlit("\u{2726}");
    reveal_strlit("$");
    reveal_strlit("\u{0394}");
    reveal_strlit("\u{2022}");
    assert("\u{1F52C}"@.len() == 1);
    assert("\u{2248}"@.len() == 1);
    assert("\u{2694}"@.len() == 1);
    assert("\u{2713}"@.len() == 1);
    assert("\u{25CA}"@.len() == 1);
    assert("\u{25A6}"@.len() == 1);
    assert("\u{25A0}"@.len() == 1);
    assert("\u{25A5}"@.len() == 1);
    assert("\u{2726}"@.len() == 1);
    assert("$"@.len() == 1);
    assert("\u{0394}"@.len() == 1);
    assert("\u{2022}"@.len() == 1);
    assert("\u{1F52C}"@[0] != "\u{2248}"@[0]);
    assert("\u{1F52C}"@[0] != "\u{2694}"@[0]);
    assert("\u{1F52C}"@[0] != "\u{2713}"@[0]);
    assert("\u{1F52C}"@[0] != "\u{25CA}"@[0]);
    assert("\u{1F52C}"@[0] != "\u{25A6}"@[0]);
    assert("\u{1F52C}"@[0] != "\u{25A0}"@[0]);
    assert("\u{1F52C}"@[0] != "\u{25A5}"@[0]);
    assert("\u{1F52C}"@[0] != "\u{2726}"@[0]);
    assert("\u{1F52C}"@[0] != "$"@[0]);
    assert("\u{1F52C}"@[0] != "\u{0394}"@[0]);
    assert("\u{1F52C}"@[0] != "\u{2022}"@[0]);
    assert("\u{2248}"@[0] != "\u{2694}"@[0]);
    assert("\u{2248}"@[0] != "\u{2713}"@[0]);
    assert("\u{2248}"@[0] != "\u{25CA}"@[0]);
    assert("\u{2248}"@[0] != "\u{25A6}"@[0]);
    assert("\u{2248}"@[0] != "\u{25A0}"@[0]);
    assert("\u{2248}"@[0] != "\u{25A5}"@[0]);
    assert("\u{2248}"@[0] != "\u{2726}"@[0]);
    assert("\u{2248}"@[0] != "$"@[0]);
    assert("\u{2248}"@[0] != "\u{0394}"@[0]);
    assert("\u{2248}"@[0] != "\u{2022}"@[0]);
    assert("\u{2694}"@[0] != "\u{2713}"@[0]);
    assert("\u{2694}"@[0] != "\u{25CA}"@[0]);
    assert("\u{2694}"@[0] != "\u{25A6}"@[0]);
    assert("\u{2694}"@[0] != "\u{25A0}"@[0]);
    assert("\u{2694}"@[0] != "\u{25A5}"@[0]);
    assert("\u{2694}"@[0] != "\u{2726}"@[0]);
    assert("\u{2694}"@[0] != "$"@[0]);
    assert("\u{2694}"@[0] != "\u{0394}"@[0]);
    assert("\u{2694}"@[0] != "\u{2022}"@[0]);
    assert("\u{2713}"@[0] != "\u{25CA}"@[0]);
    assert("\u{2713}"@[0] != "\u{25A6}"@[0]);
    assert("\u{2713}"@[0] != "\u{25A0}"@[0]);
    assert("\u{2713}"@[0] != "\u{25A5}"@[0]);
    assert("\u{2713}"@[0] != "\u{2726}"@[0]);
    assert("\u{2713}"@[0] != "$"@[0]);
    assert("\u{2713}"@[0] != "\u{0394}"@[0]);
    assert("\u{2713}"@[0] != "\u{2022}"@[0]);
    assert("\u{25CA}"@[0] != "\u{25A6}"@[0]);
    assert("\u{25CA}"@[0] != "\u{25A0}"@[0]);
    assert("\u{25CA}"@[0] != "\u{25A5}"@[0]);
    assert("\u{25CA}"@[0] != "\u{2726}"@[0]);
    assert("\u{25CA}"@[0] != "$"@[0]);
    assert("\u{25CA}"@[0] != "\u{0394}"@[0]);
    assert("\u{25CA}"@[0] != "\u{2022}"@[0]);
    assert("\u{25A6}"@[0] != "\u{25A0}"@[0]);
    assert("\u{25A6}"@[0] != "\u{25A5}"@[0]);
    assert("\u{25A6}"@[0] != "\u{2726}"@[0]);
    assert("\u{25A6}"@[0] != "$"@[0]);
    assert("\u{25A6}"@[0] != "\u{0394}"@[0]);
    assert("\u{25A6}"@[0] != "\u{2022}"@[0]);
    assert("\u{25A0}"@[0] != "\u{25A5}"@[0]);
    assert("\u{25A0}"@[0] != "\u{2726}"@[0]);
    assert("\u{25A0}"@[0] != "$"@[0]);
    assert("\u{25A0}"@[0] != "\u{0394}"@[0]);
    assert("\u{25A0}"@[0] != "\u{2022}"@[0]);
    assert("\u{25A5}"@[0] != "\u{2726}"@[0]);
    assert("\u{25A5}"@[0] != "$"@[0]);
    assert("\u{25A5}"@[0] != "\u{0394}"@[0]);
    assert("\u{25A5}"@[0] != "\u{2022}"@[0]);
    assert("\u{2726}"@[0] != "$"@[0]);
    assert("\u{2726}"@[0] != "\u{0394}"@[0]);
    assert("\u{2726}"@[0] != "\u{2022}"@[0]);
    assert("$"@[0] != "\u{0394}"@[0]);
    assert("$"@[0] != "\u{2022}"@[0]);
    assert("\u{0394}"@[0] != "\u{2022}"@[0]);
    assert(notification_category(0) == "research"@);
    assert(notification_category(1) == "environment"@);
    assert(notification_category(2) == "military"@);
    assert(notification_category(3) == "builder"@);
    assert(notification_category(4) == "diplomacy"@);
    assert(notification_category(5) == "civic"@);
    assert(notification_category(6) == "city"@);
    assert(notification_category(7) == "production"@);
    assert(notification_category(8) == "religion"@);
    assert(notification_category(9) == "economy"@);
    assert(notification_category(10) == "era"@);
}

} // verus!
