use open4x::accounts::oidc::url_encode;
use open4x::cli::short_ids::ShortIds;
use open4x::web::page::decode_uri_component;
use open4x::cli::output::{banner_lines, hline_text};
use open4x::web::terrain::{base_terrain, category_glyph, is_hills, terrain_fill, terrain_glyph};

#[test]
fn base_terrain_cuts_at_the_first_plus() {
    assert_eq!(base_terrain("Plains+Hills"), "Plains");
    assert_eq!(base_terrain("Grassland"), "Grassland");
    assert_eq!(base_terrain("Tundra+Hills+Forest"), "Tundra");
    assert_eq!(base_terrain("+Hills"), "");
}

#[test]
fn hills_are_found_anywhere_in_the_name() {
    assert!(is_hills("Plains+Hills"));
    assert!(is_hills("Hills"));
    assert!(!is_hills("Hill"));
    assert!(!is_hills(""));
    assert!(!is_hills("Plains+hills"));
}

#[test]
fn terrain_fill_and_glyph_follow_the_base_terrain() {
    assert_eq!(terrain_fill("Plains+Hills"), "#8a7d3a");
    assert_eq!(terrain_fill("Ocean"), "#1a3a5e");
    assert_eq!(terrain_fill("Jungle"), "#444");
    assert_eq!(terrain_glyph("Ocean"), "~");
    assert_eq!(terrain_glyph("Grassland+Hills"), "G");
    assert_eq!(terrain_glyph("Marsh"), "?");
}

#[test]
fn category_glyphs() {
    assert_eq!(category_glyph("research"), "\u{1F52C}");
    assert_eq!(category_glyph("economy"), "$");
    assert_eq!(category_glyph("era"), "\u{0394}");
    assert_eq!(category_glyph("Research"), "\u{2022}");
    assert_eq!(category_glyph(""), "\u{2022}");
}

#[test]
fn banner_boxes_the_title() {
    let lines = banner_lines("Turn 5");
    assert_eq!(lines, vec!["+----------+".to_string(), "|  Turn 5  |".to_string(), "+----------+".to_string()]);
    let empty = banner_lines("");
    assert_eq!(empty, vec!["+----+".to_string(), "|    |".to_string(), "+----+".to_string()]);
}

#[test]
fn banner_counts_bytes_not_characters() {
    let lines = banner_lines("é");
    assert_eq!(lines[0], format!("+{}+", "-".repeat(6)));
    assert_eq!(lines[1], "|  é  |");
}

#[test]
fn section_heading_fills_to_forty() {
    assert_eq!(hline_text("Cities"), format!("  +-- Cities {}", "-".repeat(34)));
    assert_eq!(hline_text(""), format!("  +--  {}", "-".repeat(40)));
    let long = "x".repeat(50);
    assert_eq!(hline_text(&long), format!("  +-- {long} ----"));
    assert_eq!(hline_text(&"y".repeat(36)), format!("  +-- {} ----", "y".repeat(36)));
    assert_eq!(hline_text(&"y".repeat(35)), format!("  +-- {} -----", "y".repeat(35)));
}

#[test]
fn percent_encoding_of_any_bytes_decodes_back() {
    let s = "é a/b~";
    let e = url_encode(s);
    assert_eq!(e, "%C3%A9%20a%2Fb~");
    assert_eq!(e.len(), s.len() + 2 * 4);
    let back = decode_uri_component(&e);
    let codes: Vec<u32> = back.chars().map(|c| c as u32).collect();
    let bytes: Vec<u32> = s.bytes().map(|b| b as u32).collect();
    assert_eq!(codes, bytes);
}

#[test]
fn bold_text_is_the_display_with_two_codes() {
    let s = ShortIds::new(vec![(1, "01HPQR000000000000000000AB".to_string()), (2, "01HPQR000000000000000000CB".to_string())]);
    let b = s.format_bold(1);
    assert_eq!(b.len(), s.display_len(1) + 8);
    assert_eq!(b.replace("\x1b[1m", "").replace("\x1b[0m", ""), "1HPQR000000000000000000AB");
}
