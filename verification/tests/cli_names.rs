use open4x::cli::names::{
    parse_alliance_type, parse_district, parse_great_person_type, parse_improvement, AllianceType,
    DistrictKind, GreatPersonType, ImprovementKind,
};

#[test]
fn improvement_names_ignore_case_and_accept_three_spellings() {
    assert_eq!(parse_improvement("Farm"), Ok(ImprovementKind::Farm));
    assert_eq!(parse_improvement("lumbermill"), Ok(ImprovementKind::LumberMill));
    assert_eq!(parse_improvement("Lumber_Mill"), Ok(ImprovementKind::LumberMill));
    assert_eq!(parse_improvement("LUMBER MILL"), Ok(ImprovementKind::LumberMill));
    assert_eq!(parse_improvement("offshore oil rig"), Ok(ImprovementKind::OffshoreOilRig));
    assert_eq!(parse_improvement("Kurgan"), Ok(ImprovementKind::Kurgan));
}

#[test]
fn unknown_improvement_is_refused_with_the_input() {
    assert_eq!(parse_improvement("Castle"), Err("unknown improvement 'Castle'".to_string()));
    assert_eq!(parse_improvement(""), Err("unknown improvement ''".to_string()));
}

#[test]
fn district_names_drop_spaces() {
    assert_eq!(parse_district("Theater Square"), Ok(DistrictKind::TheaterSquare));
    assert_eq!(parse_district("holy_site"), Ok(DistrictKind::HolySite));
    assert_eq!(parse_district(" Campus "), Ok(DistrictKind::Campus));
    assert_eq!(parse_district("Royal Navy Dockyard"), Ok(DistrictKind::RoyalNavyDockyard));
    assert_eq!(parse_district("City_Center"), Ok(DistrictKind::CityCenter));
}

#[test]
fn unknown_district_is_refused_with_the_input() {
    assert_eq!(parse_district("Space Elevator"), Err("unknown district 'Space Elevator'".to_string()));
}

#[test]
fn alliance_types_ignore_case() {
    assert_eq!(parse_alliance_type("Research"), Ok(AllianceType::Research));
    assert_eq!(parse_alliance_type("RELIGIOUS"), Ok(AllianceType::Religious));
    assert_eq!(parse_alliance_type("trade"), Err("unknown alliance type 'trade'".to_string()));
}

#[test]
fn great_person_types_ignore_case() {
    assert_eq!(parse_great_person_type("Scientist"), Ok(GreatPersonType::Scientist));
    assert_eq!(parse_great_person_type("admiral"), Ok(GreatPersonType::Admiral));
    assert_eq!(parse_great_person_type("Poet"), Err("unknown great person type 'Poet'".to_string()));
}
