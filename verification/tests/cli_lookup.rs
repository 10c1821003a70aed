use open4x::cli::lookup::{find_civ_by_name, parse_ulid, validate_human, PlayerSlot};

const RAW: &str = "01ARZ3NDEKTSV4RRFFQ69G5FAV";

#[test]
fn ulid_raw_and_display_forms() {
    let bits = ulid::Ulid::from_string(RAW).unwrap().0;
    assert_eq!(parse_ulid(RAW), Ok(bits));
    assert_eq!(parse_ulid(&format!("UnitId({RAW})")), Ok(bits));
    assert_eq!(parse_ulid(&RAW.to_lowercase()), Ok(bits));
    assert_eq!(parse_ulid("00000000000000000000000001"), Ok(1));
}

#[test]
fn ulid_errors_name_the_input() {
    assert_eq!(parse_ulid("x"), Err("invalid ULID 'x': invalid length".to_string()));
    assert_eq!(
        parse_ulid("01ARZ3NDEKTSV4RRFFQ69G5FAU"),
        Err("invalid ULID '01ARZ3NDEKTSV4RRFFQ69G5FAU': invalid character".to_string())
    );
    assert_eq!(parse_ulid("Id(abc"), Err("invalid ULID 'Id(abc': invalid length".to_string()));
}

#[test]
fn seats_and_civ_names() {
    let slots = vec![
        PlayerSlot { civ_name: "Rome".into(), is_ai: false },
        PlayerSlot { civ_name: "Babylon".into(), is_ai: true },
    ];
    assert_eq!(validate_human(&slots, "Rome"), Ok(()));
    assert_eq!(validate_human(&slots, "Babylon"), Err("'Babylon' is an AI player".to_string()));
    assert_eq!(validate_human(&slots, "Gaul"), Err("'Gaul' is not a registered player".to_string()));
    assert_eq!(validate_human(&Vec::new(), "Anyone"), Ok(()));
    let civs = vec![("Rome".to_string(), 7u128), ("Babylon".to_string(), 9u128)];
    assert_eq!(find_civ_by_name(&civs, "Babylon"), Ok(9));
    assert_eq!(find_civ_by_name(&civs, "Gaul"), Err("no civilization named 'Gaul'".to_string()));
}
