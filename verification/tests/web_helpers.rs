use open4x::web::hud::{oob_packed, pack_tile, terrain_to_idx, unit_kind_id, unloaded_packed, wrap};
use open4x::web::page::{decode_uri_component, format_thousands, token_from_query};
use open4x::web::tabs::Tab;
use open4x::accounts::oidc::url_encode;

#[test]
fn tab_shortcuts_select_their_tab() {
    for (i, t) in Tab::all().into_iter().enumerate() {
        assert_eq!(t.shortcut() as usize, i + 1);
        let d = char::from(b'0' + t.shortcut());
        assert_eq!(Tab::from_digit(d), Some(t));
    }
    assert_eq!(Tab::from_digit('0'), None);
    assert_eq!(Tab::from_digit('x'), None);
    assert_eq!(Tab::Hud.label(), "Map");
    assert_eq!(Tab::Empire.key(), "overview");
    assert_eq!(Tab::Diplomacy.key(), "dipl");
}

#[test]
fn terrain_and_unit_slots() {
    assert_eq!(terrain_to_idx("Ocean"), 0);
    assert_eq!(terrain_to_idx("Mountain"), 8);
    assert_eq!(terrain_to_idx("Mtn"), 8);
    assert_eq!(terrain_to_idx("Floodplain"), 9);
    assert_eq!(terrain_to_idx("Lava"), 15);
    assert_eq!(unit_kind_id("Crossbow"), 7);
    assert_eq!(unit_kind_id("Tank"), 8);
}

#[test]
fn wrapping_columns() {
    assert_eq!(wrap(-1, 10, true), Some(9));
    assert_eq!(wrap(23, 10, true), Some(3));
    assert_eq!(wrap(-1, 10, false), None);
    assert_eq!(wrap(10, 10, false), None);
    assert_eq!(wrap(4, 10, false), Some(4));
    assert_eq!(wrap(4, 0, true), None);
}

#[test]
fn packed_tiles() {
    assert_eq!(oob_packed(), 31);
    assert_eq!(unloaded_packed(), 47);
    assert_eq!(pack_tile("Coast", false, false, false, 0), 1);
    assert_eq!(pack_tile("Plains", true, true, true, 7), 2 | 1 << 6 | 1 << 7 | 1 << 8 | 3 << 9);
    assert_eq!(pack_tile("Lava", false, true, false, -2), 15 | 1 << 7);
}

#[test]
fn thousands_separators() {
    assert_eq!(format_thousands(1234), "1,234");
    assert_eq!(format_thousands(0), "0");
    assert_eq!(format_thousands(-1234567), "-1,234,567");
    assert_eq!(format_thousands(999), "999");
    assert_eq!(format_thousands(i32::MIN), "-2,147,483,648");
}

#[test]
fn uri_component_decoding() {
    assert_eq!(decode_uri_component("a%20b+c"), "a b c");
    assert_eq!(decode_uri_component("%4"), "%4");
    assert_eq!(decode_uri_component("%+1x"), "% 1x");
    assert_eq!(decode_uri_component("%zz"), "%zz");
    assert_eq!(decode_uri_component("%2B"), "+");
    let s = "lobby_abc-_~ x+y/z";
    assert_eq!(decode_uri_component(&url_encode(s)), s);
}

#[test]
fn token_from_page_query() {
    assert_eq!(token_from_query("?token=lobby_x%2By"), Some("lobby_x+y".to_string()));
    assert_eq!(token_from_query("a=1&token=t&token=u"), Some("t".to_string()));
    assert_eq!(token_from_query("?a=1&b=2"), None);
    assert_eq!(token_from_query(""), None);
    assert_eq!(token_from_query("?tokens=1"), None);
}
