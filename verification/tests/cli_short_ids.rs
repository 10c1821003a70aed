use open4x::cli::short_ids::ShortIds;

fn ids(v: &[(u128, &str)]) -> Vec<(u128, String)> {
    v.iter().map(|(i, s)| (*i, s.to_string())).collect()
}

#[test]
fn unique_suffixes_are_short_and_bold() {
    let s = ShortIds::new(ids(&[
        (1, "01HPQR000000000000000000AB"),
        (2, "01HPQR000000000000000000CB"),
        (3, "01HPQR0000000000000000X0CB"),
    ]));
    assert_eq!(s.short(1), "0AB");
    assert_eq!(s.short(2), "00CB");
    assert_eq!(s.short(3), "X0CB");
    assert_eq!(s.display_len(1), 25);
    let d = "1HPQR000000000000000000AB";
    assert_eq!(s.format_bold(1), format!("{}\x1b[1m{}\x1b[0m", &d[..22], &d[22..]));
    assert_eq!(s.short(99), "?");
    assert_eq!(s.format_bold(99), "?");
    assert_eq!(s.display_len(99), 1);
}

#[test]
fn suffix_lookup_is_case_insensitive_and_unambiguous() {
    let s = ShortIds::new(ids(&[(1, "01HPQR000000000000000000AB"), (2, "01HPQR000000000000000000CB")]));
    assert_eq!(s.find_by_suffix("0ab"), Some(1));
    assert_eq!(s.find_by_suffix("CB"), Some(2));
    assert_eq!(s.find_by_suffix("B"), None);
    assert_eq!(s.find_by_suffix("zzz"), None);
    assert_eq!(s.find_by_suffix(s.short(2)), Some(2));
}

#[test]
fn indistinct_texts_keep_the_whole_text() {
    let s = ShortIds::new(ids(&[(1, "AAAB"), (2, "AAAB"), (3, "000")]));
    assert_eq!(s.short(1), "AAAB");
    assert_eq!(s.format_bold(1), "\x1b[1mAAAB\x1b[0m");
    assert_eq!(s.short(3), "0");
    assert_eq!(s.display_len(3), 1);
}

#[test]
fn later_pairs_replace_earlier_ones() {
    let s = ShortIds::new(ids(&[(1, "XYZ1"), (1, "XYZ2")]));
    assert_eq!(s.find_by_suffix("XYZ2"), Some(1));
    assert_eq!(s.find_by_suffix("XYZ1"), None);
}

#[test]
fn suffix_lookup_matches_the_whole_ulid_text() {
    let s = ShortIds::new(ids(&[(1, "01ABCDEF"), (2, "01XYZDEF")]));
    assert_eq!(s.find_by_suffix("01ABCDEF"), Some(1));
    assert_eq!(s.find_by_suffix("01xyzdef"), Some(2));
    assert_eq!(s.find_by_suffix("def"), None);
    let z = ShortIds::new(ids(&[(7, "000"), (8, "0AB")]));
    assert_eq!(z.find_by_suffix("000"), Some(7));
    assert_eq!(z.find_by_suffix("0AB"), Some(8));
    assert_eq!(z.find_by_suffix("0"), Some(7));
    assert_eq!(z.find_by_suffix(""), None);
}

#[test]
fn short_piece_finds_its_entity_in_either_case() {
    let s = ShortIds::new(ids(&[
        (1, "01HPQR000000000000000000AB"),
        (2, "01HPQR000000000000000000CB"),
        (3, "01HPQR0000000000000000X0CB"),
    ]));
    for k in [1u128, 2, 3] {
        let piece = s.short(k).to_string();
        assert_eq!(s.find_by_suffix(&piece), Some(k));
        assert_eq!(s.find_by_suffix(&piece.to_lowercase()), Some(k));
        assert_eq!(s.format_bold(k).len(), s.display_len(k) + 8);
    }
}
