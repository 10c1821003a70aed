//! Map rendering helpers: terrain and unit indices, column wrapping, and
//! the packed per-tile word the map shader reads.

use vstd::prelude::*;

use crate::text::{chars_of, is_word};

verus! {

/// The terrain slot of a tile's terrain name; unknown names get 15.
pub open spec fn terrain_index(name: Seq<char>) -> u32 {
    if name == "Ocean"@ {
        0
    } else if name == "Coast"@ {
        1
    } else if name == "Plains"@ {
        2
    } else if name == "Grass"@ {
        3
    } else if name == "Hills"@ {
        4
    } else if name == "Forest"@ {
        5
    } else if name == "Desert"@ {
        6
    } else if name == "Tundra"@ {
        7
    } else if name == "Mtn"@ || name == "Mountain"@ {
        8
    } else if name == "Floodpl"@ || name == "Floodplain"@ {
        9
    } else if name == "Jungle"@ {
        10
    } else if name == "Marsh"@ {
        11
    } else if name == "River"@ {
        12
    } else if name == "Snow"@ {
        13
    } else if name == "Reef"@ {
        14
    } else {
        15
    }
}

/// The terrain slot of a terrain name.
pub fn terrain_to_idx(name: &str) -> (r: u32)
    ensures
        r == terrain_index(name@),
{
    let n = chars_of(name);
    if is_word(&n, "Ocean") {
        0
    } else if is_word(&n, "Coast") {
        1
    } else if is_word(&n, "Plains") {
        2
    } else if is_word(&n, "Grass") {
        3
    } else if is_word(&n, "Hills") {
        4
    } else if is_word(&n, "Forest") {
        5
    } else if is_word(&n, "Desert") {
        6
    } else if is_word(&n, "Tundra") {
        7
    } else if is_word(&n, "Mtn") || is_word(&n, "Mountain") {
        8
    } else if is_word(&n, "Floodpl") || is_word(&n, "Floodplain") {
        9
    } else if is_word(&n, "Jungle") {
        10
    } else if is_word(&n, "Marsh") {
        11
    } else if is_word(&n, "River") {
        12
    } else if is_word(&n, "Snow") {
        13
    } else if is_word(&n, "Reef") {
        14
    } else {
        15
    }
}

/// The marker slot of a unit kind; unknown kinds get 8.
pub open spec fn unit_kind_index(k: Seq<char>) -> u32 {
    if k == "Warrior"@ {
        0
    } else if k == "Archer"@ {
        1
    } else if k == "Horseman"@ {
        2
    } else if k == "Settler"@ {
        3
    } else if k == "Scout"@ {
        4
    } else if k == "Worker"@ {
        5
    } else if k == "Spearman"@ {
        6
    } else if k == "Crossbow"@ {
        7
    } else {
        8
    }
}

/// The marker slot of a unit kind.
pub fn unit_kind_id(k: &str) -> (r: u32)
    ensures
        r == unit_kind_index(k@),
{
    let n = chars_of(k);
    if is_word(&n, "Warrior") {
        0
    } else if is_word(&n, "Archer") {
        1
    } else if is_word(&n, "Horseman") {
        2
    } else if is_word(&n, "Settler") {
        3
    } else if is_word(&n, "Scout") {
        4
    } else if is_word(&n, "Worker") {
        5
    } else if is_word(&n, "Spearman") {
        6
    } else if is_word(&n, "Crossbow") {
        7
    } else {
        8
    }
}

/// Rust's remainder `q % w`, which takes the sign of `q`.
pub open spec fn trunc_rem(q: int, w: int) -> int {
    if q >= 0 {
        q % w
    } else {
        -((-q) % w)
    }
}

proof fn lemma_wrap_mod(q: int, w: int)
    requires
        w > 0,
    ensures
        (trunc_rem(q, w) + w) % w == q % w,
{
    let m = trunc_rem(q, w);
    let k: int = if q >= 0 {
        q / w
    } else {
        -((-q) / w)
    };
    if q >= 0 {
        vstd::arithmetic::div_mod::lemma_fundamental_div_mod(q, w);
    } else {
        vstd::arithmetic::div_mod::lemma_fundamental_div_mod(-q, w);
        assert(w * (-((-q) / w)) == -(w * ((-q) / w))) by (nonlinear_arith);
    }
    assert(q == w * k + m);
    assert(m + w == w * (1 - k) + q) by (nonlinear_arith)
        requires
            q == w * k + m,
    ;
    vstd::arithmetic::div_mod::lemma_mod_multiples_vanish(1 - k, q, w);
}

/// The column a map column `q` shows at on a world `world_w` columns wide:
/// wrapped into `0..world_w` on a cylindrical world, else `None` off the
/// edge. Worlds without columns show nothing.
pub fn wrap(q: i32, world_w: i32, wrap_x: bool) -> (r: Option<i32>)
    requires
        world_w > 0 && wrap_x ==> trunc_rem(q as int, world_w as int) + world_w <= i32::MAX,
    ensures
        world_w <= 0 ==> r is None,
        world_w > 0 && wrap_x ==> r == Some((q as int % world_w as int) as i32),
        world_w > 0 && !wrap_x ==> r == (if q < 0 || q >= world_w {
            None
        } else {
            Some(q)
        }),
{
    if world_w <= 0 {
        return None;
    }
    if wrap_x {
        let m = q % world_w;
        assert(m == trunc_rem(q as int, world_w as int));
        proof {
            lemma_wrap_mod(q as int, world_w as int);
        }
        Some((m + world_w) % world_w)
    } else if q < 0 || q >= world_w {
        None
    } else {
        Some(q)
    }
}

/// The packed word of a tile outside the world: terrain slot 15, bit 4.
pub fn oob_packed() -> (r: u32)
    ensures
        r == 15 + 16,
{
    15 + 16
}

/// The packed word of a tile not loaded yet: terrain slot 15, bit 5.
pub fn unloaded_packed() -> (r: u32)
    ensures
        r == 15 + 32,
{
    15 + 32
}

/// The packed word of a tile: the terrain slot in bits 0-3, fog in bit 6,
/// ownership in bit 7, a city in bit 8, the flood level (clamped to 0..3)
/// in bits 9-10.
pub open spec fn packed_tile(terrain: Seq<char>, fog: bool, owned: bool, has_city: bool, flood: int) -> int {
    terrain_index(terrain) % 16 + (if fog {
        64int
    } else {
        0
    }) + (if owned {
        128int
    } else {
        0
    }) + (if has_city {
        256int
    } else {
        0
    }) + 512 * (if flood < 0 {
        0
    } else if flood > 3 {
        3
    } else {
        flood
    })
}

/// Packs one tile for the map shader.
pub fn pack_tile(terrain: &str, fog: bool, owned: bool, has_city: bool, flood: i32) -> (r: u32)
    ensures
        r == packed_tile(terrain@, fog, owned, has_city, flood as int),
{
    let mut p = terrain_to_idx(terrain) % 16;
    if fog {
        p = p + 64;
    }
    if owned {
        p = p + 128;
    }
    if has_city {
        p = p + 256;
    }
    let f: u32 = if flood < 0 {
        0
    } else if flood > 3 {
        3
    } else {
        flood as u32
    };
    p + 512 * f
}

/// Wrapping lands every column inside the world, on the column it stands
/// for.
pub proof fn wrapped_column_in_world(q: int, world_w: int)
    requires
        world_w > 0,
    ensures
        0 <= q % world_w < world_w,
        (q - q % world_w) % world_w == 0,
{
    vstd::arithmetic::div_mod::lemma_fundamental_div_mod(q, world_w);
    vstd::arithmetic::div_mod::lemma_mod_multiples_basic(q / world_w, world_w);
    vstd::arithmetic::mul::lemma_mul_is_commutative(world_w, q / world_w);
}

// ───────────────────────────── Slot laws ─────────────────────────────────────

/// The terrain each shader slot draws, by the slot's number.
pub open spec fn terrain_slot_name(i: int) -> Seq<char> {
    if i == 0 {
        "Ocean"@
    } else if i == 1 {
        "Coast"@
    } else if i == 2 {
        "Plains"@
    } else if i == 3 {
        "Grass"@
    } else if i == 4 {
        "Hills"@
    } else if i == 5 {
        "Forest"@
    } else if i == 6 {
        "Desert"@
    } else if i == 7 {
        "Tundra"@
    } else if i == 8 {
        "Mountain"@
    } else if i == 9 {
        "Floodplain"@
    } else if i == 10 {
        "Jungle"@
    } else if i == 11 {
        "Marsh"@
    } else if i == 12 {
        "River"@
    } else if i == 13 {
        "Snow"@
    } else if i == 14 {
        "Reef"@
    } else {
        Seq::empty()
    }
}

/// Each terrain slot's name reads back as that slot, so distinct terrains
/// get distinct slots; the short names `Mtn` and `Floodpl` read as their
/// long forms do.
pub proof fn terrain_slots_read_back(i: int)
    requires
        0 <= i < 15,
    ensures
        terrain_index(terrain_slot_name(i)) == i,
        terrain_index("Mtn"@) == terrain_index("Mountain"@),
        terrain_index("Floodpl"@) == terrain_index("Floodplain"@),
{
    reveal_strlit("Ocean");
    reveal_strlit("Coast");
    reveal_strlit("Plains");
    reveal_strlit("Grass");
    reveal_strlit("Hills");
    reveal_strlit("Forest");
    reveal_strlit("Desert");
    reveal_strlit("Tundra");
    reveal_strlit("Mtn");
    reveal_strlit("Mountain");
    reveal_strlit("Floodpl");
    reveal_strlit("Floodplain");
    reveal_strlit("Jungle");
    reveal_strlit("Marsh");
    reveal_strlit("River");
    reveal_strlit("Snow");
    reveal_strlit("Reef");
    assert("Ocean"@.len() == 5);
    assert("Coast"@.len() == 5);
    assert("Plains"@.len() == 6);
    assert("Grass"@.len() == 5);
    assert("Hills"@.len() == 5);
    assert("Forest"@.len() == 6);
    assert("Desert"@.len() == 6);
    assert("Tundra"@.len() == 6);
    assert("Mtn"@.len() == 3);
    assert("Mountain"@.len() == 8);
    assert("Floodpl"@.len() == 7);
    assert("Floodplain"@.len() == 10);
    assert("Jungle"@.len() == 6);
    assert("Marsh"@.len() == 5);
    assert("River"@.len() == 5);
    assert("Snow"@.len() == 4);
    assert("Reef"@.len() == 4);
    if i == 0 {
        assert(terrain_slot_name(i) == "Ocean"@);
        assert("Ocean"@[0] != "Coast"@[0]);
        assert("Ocean"@[0] != "Grass"@[0]);
        assert("Ocean"@[0] != "Hills"@[0]);
        assert("Ocean"@[0] != "Marsh"@[0]);
        assert("Ocean"@[0] != "River"@[0]);
        assert(terrain_index("Ocean"@) == 0);
    } else if i == 1 {
        assert(terrain_slot_name(i) == "Coast"@);
        assert("Coast"@[0] != "Ocean"@[0]);
        assert("Coast"@[0] != "Grass"@[0]);
        assert("Coast"@[0] != "Hills"@[0]);
        assert("Coast"@[0] != "Marsh"@[0]);
        assert("Coast"@[0] != "River"@[0]);
        assert(terrain_index("Coast"@) == 1);
    } else if i == 2 {
        assert(terrain_slot_name(i) == "Plains"@);
        assert("Plains"@[0] != "Forest"@[0]);
        assert("Plains"@[0] != "Desert"@[0]);
        assert("Plains"@[0] != "Tundra"@[0]);
        assert("Plains"@[0] != "Jungle"@[0]);
        assert(terrain_index("Plains"@) == 2);
    } else if i == 3 {
        assert(terrain_slot_name(i) == "Grass"@);
        assert("Grass"@[0] != "Ocean"@[0]);
        assert("Grass"@[0] != "Coast"@[0]);
        assert("Grass"@[0] != "Hills"@[0]);
        assert("Grass"@[0] != "Marsh"@[0]);
        assert("Grass"@[0] != "River"@[0]);
        assert(terrain_index("Grass"@) == 3);
    } else if i == 4 {
        assert(terrain_slot_name(i) == "Hills"@);
        assert("Hills"@[0] != "Ocean"@[0]);
        assert("Hills"@[0] != "Coast"@[0]);
        assert("Hills"@[0] != "Grass"@[0]);
        assert("Hills"@[0] != "Marsh"@[0]);
        assert("Hills"@[0] != "River"@[0]);
        assert(terrain_index("Hills"@) == 4);
    } else if i == 5 {
        assert(terrain_slot_name(i) == "Forest"@);
        assert("Forest"@[0] != "Plains"@[0]);
        assert("Forest"@[0] != "Desert"@[0]);
        assert("Forest"@[0] != "Tundra"@[0]);
        assert("Forest"@[0] != "Jungle"@[0]);
        assert(terrain_index("Forest"@) == 5);
    } else if i == 6 {
        assert(terrain_slot_name(i) == "Desert"@);
        assert("Desert"@[0] != "Plains"@[0]);
        assert("Desert"@[0] != "Forest"@[0]);
        assert("Desert"@[0] != "Tundra"@[0]);
        assert("Desert"@[0] != "Jungle"@[0]);
        assert(terrain_index("Desert"@) == 6);
    } else if i == 7 {
        assert(terrain_slot_name(i) == "Tundra"@);
        assert("Tundra"@[0] != "Plains"@[0]);
        assert("Tundra"@[0] != "Forest"@[0]);
        assert("Tundra"@[0] != "Desert"@[0]);
        assert("Tundra"@[0] != "Jungle"@[0]);
        assert(terrain_index("Tundra"@) == 7);
    } else if i == 8 {
        assert(terrain_slot_name(i) == "Mountain"@);

        assert(terrain_index("Mountain"@) == 8);
    } else if i == 9 {
        assert(terrain_slot_name(i) == "Floodplain"@);

        assert(terrain_index("Floodplain"@) == 9);
    } else if i == 10 {
        assert(terrain_slot_name(i) == "Jungle"@);
        assert("Jungle"@[0] != "Plains"@[0]);
        assert("Jungle"@[0] != "Forest"@[0]);
        assert("Jungle"@[0] != "Desert"@[0]);
        assert("Jungle"@[0] != "Tundra"@[0]);
        assert(terrain_index("Jungle"@) == 10);
    } else if i == 11 {
        assert(terrain_slot_name(i) == "Marsh"@);
        assert("Marsh"@[0] != "Ocean"@[0]);
        assert("Marsh"@[0] != "Coast"@[0]);
        assert("Marsh"@[0] != "Grass"@[0]);
        assert("Marsh"@[0] != "Hills"@[0]);
        assert("Marsh"@[0] != "River"@[0]);
        assert(terrain_index("Marsh"@) == 11);
    } else if i == 12 {
        assert(terrain_slot_name(i) == "River"@);
        assert("River"@[0] != "Ocean"@[0]);
        assert("River"@[0] != "Coast"@[0]);
        assert("River"@[0] != "Grass"@[0]);
        assert("River"@[0] != "Hills"@[0]);
        assert("River"@[0] != "Marsh"@[0]);
        assert(terrain_index("River"@) == 12);
    } else if i == 13 {
        assert(terrain_slot_name(i) == "Snow"@);
        assert("Snow"@[0] != "Reef"@[0]);
        assert(terrain_index("Snow"@) == 13);
    } else if i == 14 {
        assert(terrain_slot_name(i) == "Reef"@);
        assert("Reef"@[0] != "Snow"@[0]);
        assert(terrain_index("Reef"@) == 14);
    }




    assert(terrain_index("Mtn"@) == 8);
    assert(terrain_index("Mountain"@) == 8);
    assert(terrain_index("Floodpl"@) == 9);
    assert(terrain_index("Floodplain"@) == 9);
}

/// A name given a slot below 15 is that slot's name, or one of the short
/// names `Mtn` and `Floodpl` of slots 8 and 9; every other name gets 15.
pub proof fn terrain_slot_names_only(name: Seq<char>)
    ensures
        terrain_index(name) <= 15,
        terrain_index(name) < 15 ==> name == terrain_slot_name(terrain_index(name) as int) || (terrain_index(name)
            == 8 && name == "Mtn"@) || (terrain_index(name) == 9 && name == "Floodpl"@),
{
}

/// A packed tile keeps its terrain's slot in its low four bits and each
/// flag in its own bit: fog 64, ownership 128, a city 256, and the clamped
/// flood level from 512 on.
pub proof fn packed_tile_fields(terrain: Seq<char>, fog: bool, owned: bool, has_city: bool, flood: int)
    ensures
        packed_tile(terrain, fog, owned, has_city, flood) % 16 == terrain_index(terrain),
        (packed_tile(terrain, fog, owned, has_city, flood) / 64) % 2 == (if fog {
            1int
        } else {
            0
        }),
        (packed_tile(terrain, fog, owned, has_city, flood) / 128) % 2 == (if owned {
            1int
        } else {
            0
        }),
        (packed_tile(terrain, fog, owned, has_city, flood) / 256) % 2 == (if has_city {
            1int
        } else {
            0
        }),
        packed_tile(terrain, fog, owned, has_city, flood) / 512 == (if flood < 0 {
            0
        } else if flood > 3 {
            3
        } else {
            flood
        }),
{
    let f: int = if fog { 1 } else { 0 };
    let o: int = if owned { 1 } else { 0 };
    let c: int = if has_city { 1 } else { 0 };
    let fl: int = if flood < 0 { 0 } else if flood > 3 { 3 } else { flood };
    let s = terrain_index(terrain) as int;
    assert(s < 16);
    assert(packed_tile(terrain, fog, owned, has_city, flood) == s + 64 * f + 128 * o + 256 * c + 512 * fl);
    let p = s + 64 * f + 128 * o + 256 * c + 512 * fl;
    assert(p % 16 == s) by (nonlinear_arith)
        requires p == s + 64 * f + 128 * o + 256 * c + 512 * fl, 0 <= s < 16, 0 <= f <= 1, 0 <= o <= 1, 0 <= c <= 1, 0 <= fl <= 3;
    assert((p / 64) % 2 == f) by (nonlinear_arith)
        requires p == s + 64 * f + 128 * o + 256 * c + 512 * fl, 0 <= s < 16, 0 <= f <= 1, 0 <= o <= 1, 0 <= c <= 1, 0 <= fl <= 3;
    assert((p / 128) % 2 == o) by (nonlinear_arith)
        requires p == s + 64 * f + 128 * o + 256 * c + 512 * fl, 0 <= s < 16, 0 <= f <= 1, 0 <= o <= 1, 0 <= c <= 1, 0 <= fl <= 3;
    assert((p / 256) % 2 == c) by (nonlinear_arith)
        requires p == s + 64 * f + 128 * o + 256 * c + 512 * fl, 0 <= s < 16, 0 <= f <= 1, 0 <= o <= 1, 0 <= c <= 1, 0 <= fl <= 3;
    assert(p / 512 == fl) by (nonlinear_arith)
        requires p == s + 64 * f + 128 * o + 256 * c + 512 * fl, 0 <= s < 16, 0 <= f <= 1, 0 <= o <= 1, 0 <= c <= 1, 0 <= fl <= 3;
}

/// The unit kind each marker slot draws, by the slot's number.
pub open spec fn unit_kind_name(i: int) -> Seq<char> {
    if i == 0 {
        "Warrior"@
    } else if i == 1 {
        "Archer"@
    } else if i == 2 {
        "Horseman"@
    } else if i == 3 {
        "Settler"@
    } else if i == 4 {
        "Scout"@
    } else if i == 5 {
        "Worker"@
    } else if i == 6 {
        "Spearman"@
    } else if i == 7 {
        "Crossbow"@
    } else {
        Seq::empty()
    }
}

/// Each unit kind's name reads back as its marker slot, so distinct kinds
/// get distinct slots.
pub proof fn unit_kinds_read_back(i: int)
    requires
        0 <= i < 8,
    ensures
        unit_kind_index(unit_kind_name(i)) == i,
{
    reveal_strlit("Warrior");
    reveal_strlit("Archer");
    reveal_strlit("Horseman");
    reveal_strlit("Settler");
    reveal_strlit("Scout");
    reveal_strlit("Worker");
    reveal_strlit("Spearman");
    reveal_strlit("Crossbow");
    assert("Warrior"@.len() == 7);
    assert("Archer"@.len() == 6);
    assert("Horseman"@.len() == 8);
    assert("Settler"@.len() == 7);
    assert("Scout"@.len() == 5);
    assert("Worker"@.len() == 6);
    assert("Spearman"@.len() == 8);
    assert("Crossbow"@.len() == 8);
    if i == 0 {
        assert("Warrior"@[0] != "Settler"@[0]);
        assert(unit_kind_name(i) == "Warrior"@);
        assert(unit_kind_index("Warrior"@) == 0);
    } else if i == 1 {
        assert("Archer"@[0] != "Worker"@[0]);
        assert(unit_kind_name(i) == "Archer"@);
        assert(unit_kind_index("Archer"@) == 1);
    } else if i == 2 {
        assert("Horseman"@[0] != "Spearman"@[0]);
        assert("Horseman"@[0] != "Crossbow"@[0]);
        assert(unit_kind_name(i) == "Horseman"@);
        assert(unit_kind_index("Horseman"@) == 2);
    } else if i == 3 {
        assert("Settler"@[0] != "Warrior"@[0]);
        assert(unit_kind_name(i) == "Settler"@);
        assert(unit_kind_index("Settler"@) == 3);
    } else if i == 4 {

        assert(unit_kind_name(i) == "Scout"@);
        assert(unit_kind_index("Scout"@) == 4);
    } else if i == 5 {
        assert("Worker"@[0] != "Archer"@[0]);
        assert(unit_kind_name(i) == "Worker"@);
        assert(unit_kind_index("Worker"@) == 5);
    } else if i == 6 {
        assert("Spearman"@[0] != "Horseman"@[0]);
        assert("Spearman"@[0] != "Crossbow"@[0]);
        assert(unit_kind_name(i) == "Spearman"@);
        assert(unit_kind_index("Spearman"@) == 6);
    } else if i == 7 {
        assert("Crossbow"@[0] != "Horseman"@[0]);
        assert("Crossbow"@[0] != "Spearman"@[0]);
        assert(unit_kind_name(i) == "Crossbow"@);
        assert(unit_kind_index("Crossbow"@) == 7);
    }
}

/// A unit kind given a slot below 8 is that slot's kind; every other name
/// gets 8.
pub proof fn unit_kind_names_only(name: Seq<char>)
    ensures
        unit_kind_index(name) <= 8,
        unit_kind_index(name) < 8 ==> name == unit_kind_name(unit_kind_index(name) as int),
{
}

} // verus!
