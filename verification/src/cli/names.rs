//! Names a player types for improvements, districts, alliances and great
//! people: matched case-insensitively, refused with a message naming the
//! input.

use vstd::prelude::*;

use crate::text::{
    ascii_lowercased, chars_of, extend_str, is_word, lowercase_text, spec_to_lowercase, string_of, to_lowercase,
};

verus! {

/// A tile improvement a builder can place.
#[derive(Debug, Clone, Copy, PartialEq, Eq, Structural)]
pub enum ImprovementKind {
    Farm,
    Mine,
    LumberMill,
    TradingPost,
    Fort,
    Airstrip,
    MissileSilo,
    Quarry,
    Plantation,
    Camp,
    FishingBoats,
    Pasture,
    Sphinx,
    Stepwell,
    OilWell,
    OffshoreOilRig,
    BeachResort,
    Chateau,
    ColossalHead,
    GreatWall,
    Kurgan,
}

/// The improvement a lower-cased name gives.
pub open spec fn improvement_named(l: Seq<char>) -> Option<ImprovementKind> {
    if l == "farm"@ {
        Some(ImprovementKind::Farm)
    } else if l == "mine"@ {
        Some(ImprovementKind::Mine)
    } else if l == "lumbermill"@ || l == "lumber_mill"@ || l == "lumber mill"@ {
        Some(ImprovementKind::LumberMill)
    } else if l == "tradingpost"@ || l == "trading_post"@ || l == "trading post"@ {
        Some(ImprovementKind::TradingPost)
    } else if l == "fort"@ {
        Some(ImprovementKind::Fort)
    } else if l == "airstrip"@ {
        Some(ImprovementKind::Airstrip)
    } else if l == "missilesilo"@ || l == "missile_silo"@ || l == "missile silo"@ {
        Some(ImprovementKind::MissileSilo)
    } else if l == "quarry"@ {
        Some(ImprovementKind::Quarry)
    } else if l == "plantation"@ {
        Some(ImprovementKind::Plantation)
    } else if l == "camp"@ {
        Some(ImprovementKind::Camp)
    } else if l == "fishingboats"@ || l == "fishing_boats"@ || l == "fishing boats"@ {
        Some(ImprovementKind::FishingBoats)
    } else if l == "pasture"@ {
        Some(ImprovementKind::Pasture)
    } else if l == "sphinx"@ {
        Some(ImprovementKind::Sphinx)
    } else if l == "stepwell"@ {
        Some(ImprovementKind::Stepwell)
    } else if l == "oilwell"@ || l == "oil_well"@ || l == "oil well"@ {
        Some(ImprovementKind::OilWell)
    } else if l == "offshoreoilrig"@ || l == "offshore_oil_rig"@ || l == "offshore oil rig"@ {
        Some(ImprovementKind::OffshoreOilRig)
    } else if l == "beachresort"@ || l == "beach_resort"@ || l == "beach resort"@ {
        Some(ImprovementKind::BeachResort)
    } else if l == "chateau"@ {
        Some(ImprovementKind::Chateau)
    } else if l == "colossalhead"@ || l == "colossal_head"@ || l == "colossal head"@ {
        Some(ImprovementKind::ColossalHead)
    } else if l == "greatwall"@ || l == "great_wall"@ || l == "great wall"@ {
        Some(ImprovementKind::GreatWall)
    } else if l == "kurgan"@ {
        Some(ImprovementKind::Kurgan)
    } else {
        None
    }
}

/// A city district.
#[derive(Debug, Clone, Copy, PartialEq, Eq, Structural)]
pub enum DistrictKind {
    Campus,
    TheaterSquare,
    CommercialHub,
    Harbor,
    HolySite,
    Encampment,
    IndustrialZone,
    EntertainmentComplex,
    WaterPark,
    Aqueduct,
    Dam,
    Canal,
    Aerodrome,
    Neighborhood,
    Spaceport,
    CityCenter,
    Lavra,
    Mbanza,
    StreetCarnival,
    RoyalNavyDockyard,
}

/// The district a lower-cased name gives.
pub open spec fn district_named(l: Seq<char>) -> Option<DistrictKind> {
    if l == "campus"@ {
        Some(DistrictKind::Campus)
    } else if l == "theatersquare"@ || l == "theater_square"@ {
        Some(DistrictKind::TheaterSquare)
    } else if l == "commercialhub"@ || l == "commercial_hub"@ {
        Some(DistrictKind::CommercialHub)
    } else if l == "harbor"@ {
        Some(DistrictKind::Harbor)
    } else if l == "holysite"@ || l == "holy_site"@ {
        Some(DistrictKind::HolySite)
    } else if l == "encampment"@ {
        Some(DistrictKind::Encampment)
    } else if l == "industrialzone"@ || l == "industrial_zone"@ {
        Some(DistrictKind::IndustrialZone)
    } else if l == "entertainmentcomplex"@ || l == "entertainment_complex"@ {
        Some(DistrictKind::EntertainmentComplex)
    } else if l == "waterpark"@ || l == "water_park"@ {
        Some(DistrictKind::WaterPark)
    } else if l == "aqueduct"@ {
        Some(DistrictKind::Aqueduct)
    } else if l == "dam"@ {
        Some(DistrictKind::Dam)
    } else if l == "canal"@ {
        Some(DistrictKind::Canal)
    } else if l == "aerodrome"@ {
        Some(DistrictKind::Aerodrome)
    } else if l == "neighborhood"@ {
        Some(DistrictKind::Neighborhood)
    } else if l == "spaceport"@ {
        Some(DistrictKind::Spaceport)
    } else if l == "citycenter"@ || l == "city_center"@ {
        Some(DistrictKind::CityCenter)
    } else if l == "lavra"@ {
        Some(DistrictKind::Lavra)
    } else if l == "mbanza"@ {
        Some(DistrictKind::Mbanza)
    } else if l == "streetcarnival"@ || l == "street_carnival"@ {
        Some(DistrictKind::StreetCarnival)
    } else if l == "royalnavydockyard"@ || l == "royal_navy_dockyard"@ {
        Some(DistrictKind::RoyalNavyDockyard)
    } else {
        None
    }
}

/// The kind of an alliance between two civilizations.
#[derive(Debug, Clone, Copy, PartialEq, Eq, Structural)]
pub enum AllianceType {
    Research,
    Military,
    Economic,
    Cultural,
    Religious,
}

/// The alliance type a lower-cased name gives.
pub open spec fn alliance_named(l: Seq<char>) -> Option<AllianceType> {
    if l == "research"@ {
        Some(AllianceType::Research)
    } else if l == "military"@ {
        Some(AllianceType::Military)
    } else if l == "economic"@ {
        Some(AllianceType::Economic)
    } else if l == "cultural"@ {
        Some(AllianceType::Cultural)
    } else if l == "religious"@ {
        Some(AllianceType::Religious)
    } else {
        None
    }
}

/// The class of a great person.
#[derive(Debug, Clone, Copy, PartialEq, Eq, Structural)]
pub enum GreatPersonType {
    General,
    Admiral,
    Engineer,
    Merchant,
    Musician,
    Artist,
    Writer,
    Prophet,
    Scientist,
}

/// The great person type a lower-cased name gives.
pub open spec fn great_person_named(l: Seq<char>) -> Option<GreatPersonType> {
    if l == "general"@ {
        Some(GreatPersonType::General)
    } else if l == "admiral"@ {
        Some(GreatPersonType::Admiral)
    } else if l == "engineer"@ {
        Some(GreatPersonType::Engineer)
    } else if l == "merchant"@ {
        Some(GreatPersonType::Merchant)
    } else if l == "musician"@ {
        Some(GreatPersonType::Musician)
    } else if l == "artist"@ {
        Some(GreatPersonType::Artist)
    } else if l == "writer"@ {
        Some(GreatPersonType::Writer)
    } else if l == "prophet"@ {
        Some(GreatPersonType::Prophet)
    } else if l == "scientist"@ {
        Some(GreatPersonType::Scientist)
    } else {
        None
    }
}

/// `s` without its spaces.
pub open spec fn without_spaces(s: Seq<char>) -> Seq<char>
    decreases s.len(),
{
    if s.len() == 0 {
        seq![]
    } else if s.last() == ' ' {
        without_spaces(s.drop_last())
    } else {
        without_spaces(s.drop_last()).push(s.last())
    }
}

fn drop_spaces(v: &Vec<char>) -> (r: Vec<char>)
    ensures
        r@ == without_spaces(v@),
{
    let mut r: Vec<char> = Vec::new();
    for i in 0..v.len()
        invariant
            r@ == without_spaces(v@.take(i as int)),
    {
        assert(v@.take(i + 1).drop_last() =~= v@.take(i as int));
        if v[i] != ' ' {
            r.push(v[i]);
        }
    }
    assert(v@.take(v.len() as int) =~= v@);
    r
}

/// The message refusing an unknown name: `unknown <what> '<s>'`.
pub open spec fn unknown_message(what: Seq<char>, s: Seq<char>) -> Seq<char> {
    "unknown "@ + what + " '"@ + s + "'"@
}

fn unknown(what: &str, s: &str) -> (m: String)
    ensures
        m@ == unknown_message(what@, s@),
{
    let mut v = chars_of("unknown ");
    extend_str(&mut v, what);
    extend_str(&mut v, " '");
    extend_str(&mut v, s);
    extend_str(&mut v, "'");
    string_of(&v)
}

/// The improvement `s` names (case-insensitively).
pub fn parse_improvement(s: &str) -> (r: Result<ImprovementKind, String>)
    ensures
        lowercase_text(s@) == spec_to_lowercase(s@),
        match improvement_named(lowercase_text(s@)) {
            Some(k) => r == Ok::<ImprovementKind, String>(k),
            None => r matches Err(m) && m@ == unknown_message("improvement"@, s@),
        },
{
    let lower = to_lowercase(s);
    let l = chars_of(lower.as_str());
    let r = if is_word(&l, "farm") {
        Some(ImprovementKind::Farm)
    } else if is_word(&l, "mine") {
        Some(ImprovementKind::Mine)
    } else if is_word(&l, "lumbermill") || is_word(&l, "lumber_mill") || is_word(&l, "lumber mill") {
        Some(ImprovementKind::LumberMill)
    } else if is_word(&l, "tradingpost") || is_word(&l, "trading_post") || is_word(&l, "trading post") {
        Some(ImprovementKind::TradingPost)
    } else if is_word(&l, "fort") {
        Some(ImprovementKind::Fort)
    } else if is_word(&l, "airstrip") {
        Some(ImprovementKind::Airstrip)
    } else if is_word(&l, "missilesilo") || is_word(&l, "missile_silo") || is_word(&l, "missile silo") {
        Some(ImprovementKind::MissileSilo)
    } else if is_word(&l, "quarry") {
        Some(ImprovementKind::Quarry)
    } else if is_word(&l, "plantation") {
        Some(ImprovementKind::Plantation)
    } else if is_word(&l, "camp") {
        Some(ImprovementKind::Camp)
    } else if is_word(&l, "fishingboats") || is_word(&l, "fishing_boats") || is_word(&l, "fishing boats") {
        Some(ImprovementKind::FishingBoats)
    } else if is_word(&l, "pasture") {
        Some(ImprovementKind::Pasture)
    } else if is_word(&l, "sphinx") {
        Some(ImprovementKind::Sphinx)
    } else if is_word(&l, "stepwell") {
        Some(ImprovementKind::Stepwell)
    } else if is_word(&l, "oilwell") || is_word(&l, "oil_well") || is_word(&l, "oil well") {
        Some(ImprovementKind::OilWell)
    } else if is_word(&l, "offshoreoilrig") || is_word(&l, "offshore_oil_rig") || is_word(&l, "offshore oil rig") {
        Some(ImprovementKind::OffshoreOilRig)
    } else if is_word(&l, "beachresort") || is_word(&l, "beach_resort") || is_word(&l, "beach resort") {
        Some(ImprovementKind::BeachResort)
    } else if is_word(&l, "chateau") {
        Some(ImprovementKind::Chateau)
    } else if is_word(&l, "colossalhead") || is_word(&l, "colossal_head") || is_word(&l, "colossal head") {
        Some(ImprovementKind::ColossalHead)
    } else if is_word(&l, "greatwall") || is_word(&l, "great_wall") || is_word(&l, "great wall") {
        Some(ImprovementKind::GreatWall)
    } else if is_word(&l, "kurgan") {
        Some(ImprovementKind::Kurgan)
    } else {
        None
    };
    match r {
        Some(k) => Ok(k),
        None => Err(unknown("improvement", s)),
    }
}

/// The district `s` names (case-insensitively, spaces ignored).
pub fn parse_district(s: &str) -> (r: Result<DistrictKind, String>)
    ensures
        lowercase_text(s@) == spec_to_lowercase(s@),
        match district_named(without_spaces(lowercase_text(s@))) {
            Some(k) => r == Ok::<DistrictKind, String>(k),
            None => r matches Err(m) && m@ == unknown_message("district"@, s@),
        },
{
    let lower = to_lowercase(s);
    let l = drop_spaces(&chars_of(lower.as_str()));
    let r = if is_word(&l, "campus") {
        Some(DistrictKind::Campus)
    } else if is_word(&l, "theatersquare") || is_word(&l, "theater_square") {
        Some(DistrictKind::TheaterSquare)
    } else if is_word(&l, "commercialhub") || is_word(&l, "commercial_hub") {
        Some(DistrictKind::CommercialHub)
    } else if is_word(&l, "harbor") {
        Some(DistrictKind::Harbor)
    } else if is_word(&l, "holysite") || is_word(&l, "holy_site") {
        Some(DistrictKind::HolySite)
    } else if is_word(&l, "encampment") {
        Some(DistrictKind::Encampment)
    } else if is_word(&l, "industrialzone") || is_word(&l, "industrial_zone") {
        Some(DistrictKind::IndustrialZone)
    } else if is_word(&l, "entertainmentcomplex") || is_word(&l, "entertainment_complex") {
        Some(DistrictKind::EntertainmentComplex)
    } else if is_word(&l, "waterpark") || is_word(&l, "water_park") {
        Some(DistrictKind::WaterPark)
    } else if is_word(&l, "aqueduct") {
        Some(DistrictKind::Aqueduct)
    } else if is_word(&l, "dam") {
        Some(DistrictKind::Dam)
    } else if is_word(&l, "canal") {
        Some(DistrictKind::Canal)
    } else if is_word(&l, "aerodrome") {
        Some(DistrictKind::Aerodrome)
    } else if is_word(&l, "neighborhood") {
        Some(DistrictKind::Neighborhood)
    } else if is_word(&l, "spaceport") {
        Some(DistrictKind::Spaceport)
    } else if is_word(&l, "citycenter") || is_word(&l, "city_center") {
        Some(DistrictKind::CityCenter)
    } else if is_word(&l, "lavra") {
        Some(DistrictKind::Lavra)
    } else if is_word(&l, "mbanza") {
        Some(DistrictKind::Mbanza)
    } else if is_word(&l, "streetcarnival") || is_word(&l, "street_carnival") {
        Some(DistrictKind::StreetCarnival)
    } else if is_word(&l, "royalnavydockyard") || is_word(&l, "royal_navy_dockyard") {
        Some(DistrictKind::RoyalNavyDockyard)
    } else {
        None
    };
    match r {
        Some(k) => Ok(k),
        None => Err(unknown("district", s)),
    }
}

/// The alliance type `s` names (case-insensitively).
pub fn parse_alliance_type(s: &str) -> (r: Result<AllianceType, String>)
    ensures
        lowercase_text(s@) == spec_to_lowercase(s@),
        match alliance_named(lowercase_text(s@)) {
            Some(k) => r == Ok::<AllianceType, String>(k),
            None => r matches Err(m) && m@ == unknown_message("alliance type"@, s@),
        },
{
    let lower = to_lowercase(s);
    let l = chars_of(lower.as_str());
    let r = if is_word(&l, "research") {
        Some(AllianceType::Research)
    } else if is_word(&l, "military") {
        Some(AllianceType::Military)
    } else if is_word(&l, "economic") {
        Some(AllianceType::Economic)
    } else if is_word(&l, "cultural") {
        Some(AllianceType::Cultural)
    } else if is_word(&l, "religious") {
        Some(AllianceType::Religious)
    } else {
        None
    };
    match r {
        Some(k) => Ok(k),
        None => Err(unknown("alliance type", s)),
    }
}

/// The great person type `s` names (case-insensitively).
pub fn parse_great_person_type(s: &str) -> (r: Result<GreatPersonType, String>)
    ensures
        lowercase_text(s@) == spec_to_lowercase(s@),
        match great_person_named(lowercase_text(s@)) {
            Some(k) => r == Ok::<GreatPersonType, String>(k),
            None => r matches Err(m) && m@ == unknown_message("great person type"@, s@),
        },
{
    let lower = to_lowercase(s);
    let l = chars_of(lower.as_str());
    let r = if is_word(&l, "general") {
        Some(GreatPersonType::General)
    } else if is_word(&l, "admiral") {
        Some(GreatPersonType::Admiral)
    } else if is_word(&l, "engineer") {
        Some(GreatPersonType::Engineer)
    } else if is_word(&l, "merchant") {
        Some(GreatPersonType::Merchant)
    } else if is_word(&l, "musician") {
        Some(GreatPersonType::Musician)
    } else if is_word(&l, "artist") {
        Some(GreatPersonType::Artist)
    } else if is_word(&l, "writer") {
        Some(GreatPersonType::Writer)
    } else if is_word(&l, "prophet") {
        Some(GreatPersonType::Prophet)
    } else if is_word(&l, "scientist") {
        Some(GreatPersonType::Scientist)
    } else {
        None
    };
    match r {
        Some(k) => Ok(k),
        None => Err(unknown("great person type", s)),
    }
}

// ───────────────────────────── Laws ──────────────────────────────────────────

/// A text without spaces is its own `without_spaces`.
proof fn lemma_without_spaces_none(s: Seq<char>)
    requires
        forall|i: int| 0 <= i < s.len() ==> s[i] != ' ',
    ensures
        without_spaces(s) == s,
    decreases s.len(),
{
    if s.len() > 0 {
        lemma_without_spaces_none(s.drop_last());
        assert(s.drop_last().push(s.last()) =~= s);
    }
}

/// The name of each improvement as the game spells it.
pub open spec fn improvement_kind_name(k: ImprovementKind) -> Seq<char> {
    match k {
        ImprovementKind::Farm => "Farm"@,
        ImprovementKind::Mine => "Mine"@,
        ImprovementKind::LumberMill => "LumberMill"@,
        ImprovementKind::TradingPost => "TradingPost"@,
        ImprovementKind::Fort => "Fort"@,
        ImprovementKind::Airstrip => "Airstrip"@,
        ImprovementKind::MissileSilo => "MissileSilo"@,
        ImprovementKind::Quarry => "Quarry"@,
        ImprovementKind::Plantation => "Plantation"@,
        ImprovementKind::Camp => "Camp"@,
        ImprovementKind::FishingBoats => "FishingBoats"@,
        ImprovementKind::Pasture => "Pasture"@,
        ImprovementKind::Sphinx => "Sphinx"@,
        ImprovementKind::Stepwell => "Stepwell"@,
        ImprovementKind::OilWell => "OilWell"@,
        ImprovementKind::OffshoreOilRig => "OffshoreOilRig"@,
        ImprovementKind::BeachResort => "BeachResort"@,
        ImprovementKind::Chateau => "Chateau"@,
        ImprovementKind::ColossalHead => "ColossalHead"@,
        ImprovementKind::GreatWall => "GreatWall"@,
        ImprovementKind::Kurgan => "Kurgan"@,
    }
}

/// Typing a improvement's own name, in any letter case the game writes it,
/// gives that improvement: `improvement_named` undoes `improvement_kind_name`, so no two improvements share a
/// name and each name gives its own kind.
pub proof fn improvement_names_read_back(k: ImprovementKind)
    ensures
        improvement_named(lowercase_text(improvement_kind_name(k))) == Some(k),
{
    reveal_strlit("farm");
    reveal_strlit("mine");
    reveal_strlit("lumbermill");
    reveal_strlit("lumber_mill");
    reveal_strlit("lumber mill");
    reveal_strlit("tradingpost");
    reveal_strlit("trading_post");
    reveal_strlit("trading post");
    reveal_strlit("fort");
    reveal_strlit("airstrip");
    reveal_strlit("missilesilo");
    reveal_strlit("missile_silo");
    reveal_strlit("missile silo");
    reveal_strlit("quarry");
    reveal_strlit("plantation");
    reveal_strlit("camp");
    reveal_strlit("fishingboats");
    reveal_strlit("fishing_boats");
    reveal_strlit("fishing boats");
    reveal_strlit("pasture");
    reveal_strlit("sphinx");
    reveal_strlit("stepwell");
    reveal_strlit("oilwell");
    reveal_strlit("oil_well");
    reveal_strlit("oil well");
    reveal_strlit("offshoreoilrig");
    reveal_strlit("offshore_oil_rig");
    reveal_strlit("offshore oil rig");
    reveal_strlit("beachresort");
    reveal_strlit("beach_resort");
    reveal_strlit("beach resort");
    reveal_strlit("chateau");
    reveal_strlit("colossalhead");
    reveal_strlit("colossal_head");
    reveal_strlit("colossal head");
    reveal_strlit("greatwall");
    reveal_strlit("great_wall");
    reveal_strlit("great wall");
    reveal_strlit("kurgan");
    match k {
        ImprovementKind::Farm => {
            reveal_strlit("Farm");
            assert(vstd::utf8::is_ascii_chars("Farm"@));
            assert(ascii_lowercased("Farm"@) =~= "farm"@);
            assert("farm"@[0] != "mine"@[0]);
            assert("farm"@[1] != "fort"@[1]);
            assert("farm"@[0] != "camp"@[0]);
        },
        ImprovementKind::Mine => {
            reveal_strlit("Mine");
            assert(vstd::utf8::is_ascii_chars("Mine"@));
            assert(ascii_lowercased("Mine"@) =~= "mine"@);
            assert("mine"@[0] != "farm"@[0]);
            assert("mine"@[0] != "fort"@[0]);
            assert("mine"@[0] != "camp"@[0]);
        },
        ImprovementKind::LumberMill => {
            reveal_strlit("LumberMill");
            assert(vstd::utf8::is_ascii_chars("LumberMill"@));
            assert(ascii_lowercased("LumberMill"@) =~= "lumbermill"@);
            assert("lumbermill"@[0] != "plantation"@[0]);
            assert("lumbermill"@[0] != "great_wall"@[0]);
            assert("lumbermill"@[0] != "great wall"@[0]);
        },
        ImprovementKind::TradingPost => {
            reveal_strlit("TradingPost");
            assert(vstd::utf8::is_ascii_chars("TradingPost"@));
            assert(ascii_lowercased("TradingPost"@) =~= "tradingpost"@);
            assert("tradingpost"@[0] != "lumber_mill"@[0]);
            assert("tradingpost"@[0] != "lumber mill"@[0]);
            assert("tradingpost"@[0] != "missilesilo"@[0]);
            assert("tradingpost"@[0] != "beachresort"@[0]);
        },
        ImprovementKind::Fort => {
            reveal_strlit("Fort");
            assert(vstd::utf8::is_ascii_chars("Fort"@));
            assert(ascii_lowercased("Fort"@) =~= "fort"@);
            assert("fort"@[1] != "farm"@[1]);
            assert("fort"@[0] != "mine"@[0]);
            assert("fort"@[0] != "camp"@[0]);
        },
        ImprovementKind::Airstrip => {
            reveal_strlit("Airstrip");
            assert(vstd::utf8::is_ascii_chars("Airstrip"@));
            assert(ascii_lowercased("Airstrip"@) =~= "airstrip"@);
            assert("airstrip"@[0] != "stepwell"@[0]);
            assert("airstrip"@[0] != "oil_well"@[0]);
            assert("airstrip"@[0] != "oil well"@[0]);
        },
        ImprovementKind::MissileSilo => {
            reveal_strlit("MissileSilo");
            assert(vstd::utf8::is_ascii_chars("MissileSilo"@));
            assert(ascii_lowercased("MissileSilo"@) =~= "missilesilo"@);
            assert("missilesilo"@[0] != "lumber_mill"@[0]);
            assert("missilesilo"@[0] != "lumber mill"@[0]);
            assert("missilesilo"@[0] != "tradingpost"@[0]);
            assert("missilesilo"@[0] != "beachresort"@[0]);
        },
        ImprovementKind::Quarry => {
            reveal_strlit("Quarry");
            assert(vstd::utf8::is_ascii_chars("Quarry"@));
            assert(ascii_lowercased("Quarry"@) =~= "quarry"@);
            assert("quarry"@[0] != "sphinx"@[0]);
            assert("quarry"@[0] != "kurgan"@[0]);
        },
        ImprovementKind::Plantation => {
            reveal_strlit("Plantation");
            assert(vstd::utf8::is_ascii_chars("Plantation"@));
            assert(ascii_lowercased("Plantation"@) =~= "plantation"@);
            assert("plantation"@[0] != "lumbermill"@[0]);
            assert("plantation"@[0] != "great_wall"@[0]);
            assert("plantation"@[0] != "great wall"@[0]);
        },
        ImprovementKind::Camp => {
            reveal_strlit("Camp");
            assert(vstd::utf8::is_ascii_chars("Camp"@));
            assert(ascii_lowercased("Camp"@) =~= "camp"@);
            assert("camp"@[0] != "farm"@[0]);
            assert("camp"@[0] != "mine"@[0]);
            assert("camp"@[0] != "fort"@[0]);
        },
        ImprovementKind::FishingBoats => {
            reveal_strlit("FishingBoats");
            assert(vstd::utf8::is_ascii_chars("FishingBoats"@));
            assert(ascii_lowercased("FishingBoats"@) =~= "fishingboats"@);
            assert("fishingboats"@[0] != "trading_post"@[0]);
            assert("fishingboats"@[0] != "trading post"@[0]);
            assert("fishingboats"@[0] != "missile_silo"@[0]);
            assert("fishingboats"@[0] != "missile silo"@[0]);
            assert("fishingboats"@[0] != "beach_resort"@[0]);
            assert("fishingboats"@[0] != "beach resort"@[0]);
            assert("fishingboats"@[0] != "colossalhead"@[0]);
        },
        ImprovementKind::Pasture => {
            reveal_strlit("Pasture");
            assert(vstd::utf8::is_ascii_chars("Pasture"@));
            assert(ascii_lowercased("Pasture"@) =~= "pasture"@);
            assert("pasture"@[0] != "oilwell"@[0]);
            assert("pasture"@[0] != "chateau"@[0]);
        },
        ImprovementKind::Sphinx => {
            reveal_strlit("Sphinx");
            assert(vstd::utf8::is_ascii_chars("Sphinx"@));
            assert(ascii_lowercased("Sphinx"@) =~= "sphinx"@);
            assert("sphinx"@[0] != "quarry"@[0]);
            assert("sphinx"@[0] != "kurgan"@[0]);
        },
        ImprovementKind::Stepwell => {
            reveal_strlit("Stepwell");
            assert(vstd::utf8::is_ascii_chars("Stepwell"@));
            assert(ascii_lowercased("Stepwell"@) =~= "stepwell"@);
            assert("stepwell"@[0] != "airstrip"@[0]);
            assert("stepwell"@[0] != "oil_well"@[0]);
            assert("stepwell"@[0] != "oil well"@[0]);
        },
        ImprovementKind::OilWell => {
            reveal_strlit("OilWell");
            assert(vstd::utf8::is_ascii_chars("OilWell"@));
            assert(ascii_lowercased("OilWell"@) =~= "oilwell"@);
            assert("oilwell"@[0] != "pasture"@[0]);
            assert("oilwell"@[0] != "chateau"@[0]);
        },
        ImprovementKind::OffshoreOilRig => {
            reveal_strlit("OffshoreOilRig");
            assert(vstd::utf8::is_ascii_chars("OffshoreOilRig"@));
            assert(ascii_lowercased("OffshoreOilRig"@) =~= "offshoreoilrig"@);
        },
        ImprovementKind::BeachResort => {
            reveal_strlit("BeachResort");
            assert(vstd::utf8::is_ascii_chars("BeachResort"@));
            assert(ascii_lowercased("BeachResort"@) =~= "beachresort"@);
            assert("beachresort"@[0] != "lumber_mill"@[0]);
            assert("beachresort"@[0] != "lumber mill"@[0]);
            assert("beachresort"@[0] != "tradingpost"@[0]);
            assert("beachresort"@[0] != "missilesilo"@[0]);
        },
        ImprovementKind::Chateau => {
            reveal_strlit("Chateau");
            assert(vstd::utf8::is_ascii_chars("Chateau"@));
            assert(ascii_lowercased("Chateau"@) =~= "chateau"@);
            assert("chateau"@[0] != "pasture"@[0]);
            assert("chateau"@[0] != "oilwell"@[0]);
        },
        ImprovementKind::ColossalHead => {
            reveal_strlit("ColossalHead");
            assert(vstd::utf8::is_ascii_chars("ColossalHead"@));
            assert(ascii_lowercased("ColossalHead"@) =~= "colossalhead"@);
            assert("colossalhead"@[0] != "trading_post"@[0]);
            assert("colossalhead"@[0] != "trading post"@[0]);
            assert("colossalhead"@[0] != "missile_silo"@[0]);
            assert("colossalhead"@[0] != "missile silo"@[0]);
            assert("colossalhead"@[0] != "fishingboats"@[0]);
            assert("colossalhead"@[0] != "beach_resort"@[0]);
            assert("colossalhead"@[0] != "beach resort"@[0]);
        },
        ImprovementKind::GreatWall => {
            reveal_strlit("GreatWall");
            assert(vstd::utf8::is_ascii_chars("GreatWall"@));
            assert(ascii_lowercased("GreatWall"@) =~= "greatwall"@);
        },
        ImprovementKind::Kurgan => {
            reveal_strlit("Kurgan");
            assert(vstd::utf8::is_ascii_chars("Kurgan"@));
            assert(ascii_lowercased("Kurgan"@) =~= "kurgan"@);
            assert("kurgan"@[0] != "quarry"@[0]);
            assert("kurgan"@[0] != "sphinx"@[0]);
        },
    }
}

/// The name of each district as the game spells it.
pub open spec fn district_kind_name(k: DistrictKind) -> Seq<char> {
    match k {
        DistrictKind::Campus => "Campus"@,
        DistrictKind::TheaterSquare => "TheaterSquare"@,
        DistrictKind::CommercialHub => "CommercialHub"@,
        DistrictKind::Harbor => "Harbor"@,
        DistrictKind::HolySite => "HolySite"@,
        DistrictKind::Encampment => "Encampment"@,
        DistrictKind::IndustrialZone => "IndustrialZone"@,
        DistrictKind::EntertainmentComplex => "EntertainmentComplex"@,
        DistrictKind::WaterPark => "WaterPark"@,
        DistrictKind::Aqueduct => "Aqueduct"@,
        DistrictKind::Dam => "Dam"@,
        DistrictKind::Canal => "Canal"@,
        DistrictKind::Aerodrome => "Aerodrome"@,
        DistrictKind::Neighborhood => "Neighborhood"@,
        DistrictKind::Spaceport => "Spaceport"@,
        DistrictKind::CityCenter => "CityCenter"@,
        DistrictKind::Lavra => "Lavra"@,
        DistrictKind::Mbanza => "Mbanza"@,
        DistrictKind::StreetCarnival => "StreetCarnival"@,
        DistrictKind::RoyalNavyDockyard => "RoyalNavyDockyard"@,
    }
}

/// Typing a district's own name, in any letter case the game writes it,
/// gives that district: `district_named` undoes `district_kind_name`, so no two districts share a
/// name and each name gives its own kind.
pub proof fn district_names_read_back(k: DistrictKind)
    ensures
        district_named(without_spaces(lowercase_text(district_kind_name(k)))) == Some(k),
{
    reveal_strlit("campus");
    reveal_strlit("theatersquare");
    reveal_strlit("theater_square");
    reveal_strlit("commercialhub");
    reveal_strlit("commercial_hub");
    reveal_strlit("harbor");
    reveal_strlit("holysite");
    reveal_strlit("holy_site");
    reveal_strlit("encampment");
    reveal_strlit("industrialzone");
    reveal_strlit("industrial_zone");
    reveal_strlit("entertainmentcomplex");
    reveal_strlit("entertainment_complex");
    reveal_strlit("waterpark");
    reveal_strlit("water_park");
    reveal_strlit("aqueduct");
    reveal_strlit("dam");
    reveal_strlit("canal");
    reveal_strlit("aerodrome");
    reveal_strlit("neighborhood");
    reveal_strlit("spaceport");
    reveal_strlit("citycenter");
    reveal_strlit("city_center");
    reveal_strlit("lavra");
    reveal_strlit("mbanza");
    reveal_strlit("streetcarnival");
    reveal_strlit("street_carnival");
    reveal_strlit("royalnavydockyard");
    reveal_strlit("royal_navy_dockyard");
    match k {
        DistrictKind::Campus => {
            reveal_strlit("Campus");
            assert(vstd::utf8::is_ascii_chars("Campus"@));
            assert(ascii_lowercased("Campus"@) =~= "campus"@);
            lemma_without_spaces_none("campus"@);
            assert("campus"@[0] != "harbor"@[0]);
            assert("campus"@[0] != "mbanza"@[0]);
        },
        DistrictKind::TheaterSquare => {
            reveal_strlit("TheaterSquare");
            assert(vstd::utf8::is_ascii_chars("TheaterSquare"@));
            assert(ascii_lowercased("TheaterSquare"@) =~= "theatersquare"@);
            lemma_without_spaces_none("theatersquare"@);
            assert("theatersquare"@[0] != "commercialhub"@[0]);
        },
        DistrictKind::CommercialHub => {
            reveal_strlit("CommercialHub");
            assert(vstd::utf8::is_ascii_chars("CommercialHub"@));
            assert(ascii_lowercased("CommercialHub"@) =~= "commercialhub"@);
            lemma_without_spaces_none("commercialhub"@);
            assert("commercialhub"@[0] != "theatersquare"@[0]);
        },
        DistrictKind::Harbor => {
            reveal_strlit("Harbor");
            assert(vstd::utf8::is_ascii_chars("Harbor"@));
            assert(ascii_lowercased("Harbor"@) =~= "harbor"@);
            lemma_without_spaces_none("harbor"@);
            assert("harbor"@[0] != "campus"@[0]);
            assert("harbor"@[0] != "mbanza"@[0]);
        },
        DistrictKind::HolySite => {
            reveal_strlit("HolySite");
            assert(vstd::utf8::is_ascii_chars("HolySite"@));
            assert(ascii_lowercased("HolySite"@) =~= "holysite"@);
            lemma_without_spaces_none("holysite"@);
            assert("holysite"@[0] != "aqueduct"@[0]);
        },
        DistrictKind::Encampment => {
            reveal_strlit("Encampment");
            assert(vstd::utf8::is_ascii_chars("Encampment"@));
            assert(ascii_lowercased("Encampment"@) =~= "encampment"@);
            lemma_without_spaces_none("encampment"@);
            assert("encampment"@[0] != "water_park"@[0]);
            assert("encampment"@[0] != "citycenter"@[0]);
        },
        DistrictKind::IndustrialZone => {
            reveal_strlit("IndustrialZone");
            assert(vstd::utf8::is_ascii_chars("IndustrialZone"@));
            assert(ascii_lowercased("IndustrialZone"@) =~= "industrialzone"@);
            lemma_without_spaces_none("industrialzone"@);
            assert("industrialzone"@[0] != "theater_square"@[0]);
            assert("industrialzone"@[0] != "commercial_hub"@[0]);
            assert("industrialzone"@[0] != "streetcarnival"@[0]);
        },
        DistrictKind::EntertainmentComplex => {
            reveal_strlit("EntertainmentComplex");
            assert(vstd::utf8::is_ascii_chars("EntertainmentComplex"@));
            assert(ascii_lowercased("EntertainmentComplex"@) =~= "entertainmentcomplex"@);
            lemma_without_spaces_none("entertainmentcomplex"@);
        },
        DistrictKind::WaterPark => {
            reveal_strlit("WaterPark");
            assert(vstd::utf8::is_ascii_chars("WaterPark"@));
            assert(ascii_lowercased("WaterPark"@) =~= "waterpark"@);
            lemma_without_spaces_none("waterpark"@);
            assert("waterpark"@[0] != "holy_site"@[0]);
            assert("waterpark"@[0] != "aerodrome"@[0]);
            assert("waterpark"@[0] != "spaceport"@[0]);
        },
        DistrictKind::Aqueduct => {
            reveal_strlit("Aqueduct");
            assert(vstd::utf8::is_ascii_chars("Aqueduct"@));
            assert(ascii_lowercased("Aqueduct"@) =~= "aqueduct"@);
            lemma_without_spaces_none("aqueduct"@);
            assert("aqueduct"@[0] != "holysite"@[0]);
        },
        DistrictKind::Dam => {
            reveal_strlit("Dam");
            assert(vstd::utf8::is_ascii_chars("Dam"@));
            assert(ascii_lowercased("Dam"@) =~= "dam"@);
            lemma_without_spaces_none("dam"@);
        },
        DistrictKind::Canal => {
            reveal_strlit("Canal");
            assert(vstd::utf8::is_ascii_chars("Canal"@));
            assert(ascii_lowercased("Canal"@) =~= "canal"@);
            lemma_without_spaces_none("canal"@);
            assert("canal"@[0] != "lavra"@[0]);
        },
        DistrictKind::Aerodrome => {
            reveal_strlit("Aerodrome");
            assert(vstd::utf8::is_ascii_chars("Aerodrome"@));
            assert(ascii_lowercased("Aerodrome"@) =~= "aerodrome"@);
            lemma_without_spaces_none("aerodrome"@);
            assert("aerodrome"@[0] != "holy_site"@[0]);
            assert("aerodrome"@[0] != "waterpark"@[0]);
            assert("aerodrome"@[0] != "spaceport"@[0]);
        },
        DistrictKind::Neighborhood => {
            reveal_strlit("Neighborhood");
            assert(vstd::utf8::is_ascii_chars("Neighborhood"@));
            assert(ascii_lowercased("Neighborhood"@) =~= "neighborhood"@);
            lemma_without_spaces_none("neighborhood"@);
        },
        DistrictKind::Spaceport => {
            reveal_strlit("Spaceport");
            assert(vstd::utf8::is_ascii_chars("Spaceport"@));
            assert(ascii_lowercased("Spaceport"@) =~= "spaceport"@);
            lemma_without_spaces_none("spaceport"@);
            assert("spaceport"@[0] != "holy_site"@[0]);
            assert("spaceport"@[0] != "waterpark"@[0]);
            assert("spaceport"@[0] != "aerodrome"@[0]);
        },
        DistrictKind::CityCenter => {
            reveal_strlit("CityCenter");
            assert(vstd::utf8::is_ascii_chars("CityCenter"@));
            assert(ascii_lowercased("CityCenter"@) =~= "citycenter"@);
            lemma_without_spaces_none("citycenter"@);
            assert("citycenter"@[0] != "encampment"@[0]);
            assert("citycenter"@[0] != "water_park"@[0]);
        },
        DistrictKind::Lavra => {
            reveal_strlit("Lavra");
            assert(vstd::utf8::is_ascii_chars("Lavra"@));
            assert(ascii_lowercased("Lavra"@) =~= "lavra"@);
            lemma_without_spaces_none("lavra"@);
            assert("lavra"@[0] != "canal"@[0]);
        },
        DistrictKind::Mbanza => {
            reveal_strlit("Mbanza");
            assert(vstd::utf8::is_ascii_chars("Mbanza"@));
            assert(ascii_lowercased("Mbanza"@) =~= "mbanza"@);
            lemma_without_spaces_none("mbanza"@);
            assert("mbanza"@[0] != "campus"@[0]);
            assert("mbanza"@[0] != "harbor"@[0]);
        },
        DistrictKind::StreetCarnival => {
            reveal_strlit("StreetCarnival");
            assert(vstd::utf8::is_ascii_chars("StreetCarnival"@));
            assert(ascii_lowercased("StreetCarnival"@) =~= "streetcarnival"@);
            lemma_without_spaces_none("streetcarnival"@);
            assert("streetcarnival"@[0] != "theater_square"@[0]);
            assert("streetcarnival"@[0] != "commercial_hub"@[0]);
            assert("streetcarnival"@[0] != "industrialzone"@[0]);
        },
        DistrictKind::RoyalNavyDockyard => {
            reveal_strlit("RoyalNavyDockyard");
            assert(vstd::utf8::is_ascii_chars("RoyalNavyDockyard"@));
            assert(ascii_lowercased("RoyalNavyDockyard"@) =~= "royalnavydockyard"@);
            lemma_without_spaces_none("royalnavydockyard"@);
        },
    }
}

/// The name of each alliance type as the game spells it.
pub open spec fn alliance_type_name(k: AllianceType) -> Seq<char> {
    match k {
        AllianceType::Research => "Research"@,
        AllianceType::Military => "Military"@,
        AllianceType::Economic => "Economic"@,
        AllianceType::Cultural => "Cultural"@,
        AllianceType::Religious => "Religious"@,
    }
}

/// Typing a alliance type's own name, in any letter case the game writes it,
/// gives that alliance type: `alliance_named` undoes `alliance_type_name`, so no two alliance types share a
/// name and each name gives its own kind.
pub proof fn alliance_names_read_back(k: AllianceType)
    ensures
        alliance_named(lowercase_text(alliance_type_name(k))) == Some(k),
{
    reveal_strlit("research");
    reveal_strlit("military");
    reveal_strlit("economic");
    reveal_strlit("cultural");
    reveal_strlit("religious");
    match k {
        AllianceType::Research => {
            reveal_strlit("Research");
            assert(vstd::utf8::is_ascii_chars("Research"@));
            assert(ascii_lowercased("Research"@) =~= "research"@);
            assert("research"@[0] != "military"@[0]);
            assert("research"@[0] != "economic"@[0]);
            assert("research"@[0] != "cultural"@[0]);
        },
        AllianceType::Military => {
            reveal_strlit("Military");
            assert(vstd::utf8::is_ascii_chars("Military"@));
            assert(ascii_lowercased("Military"@) =~= "military"@);
            assert("military"@[0] != "research"@[0]);
            assert("military"@[0] != "economic"@[0]);
            assert("military"@[0] != "cultural"@[0]);
        },
        AllianceType::Economic => {
            reveal_strlit("Economic");
            assert(vstd::utf8::is_ascii_chars("Economic"@));
            assert(ascii_lowercased("Economic"@) =~= "economic"@);
            assert("economic"@[0] != "research"@[0]);
            assert("economic"@[0] != "military"@[0]);
            assert("economic"@[0] != "cultural"@[0]);
        },
        AllianceType::Cultural => {
            reveal_strlit("Cultural");
            assert(vstd::utf8::is_ascii_chars("Cultural"@));
            assert(ascii_lowercased("Cultural"@) =~= "cultural"@);
            assert("cultural"@[0] != "research"@[0]);
            assert("cultural"@[0] != "military"@[0]);
            assert("cultural"@[0] != "economic"@[0]);
        },
        AllianceType::Religious => {
            reveal_strlit("Religious");
            assert(vstd::utf8::is_ascii_chars("Religious"@));
            assert(ascii_lowercased("Religious"@) =~= "religious"@);
        },
    }
}

/// The name of each great person type as the game spells it.
pub open spec fn great_person_type_name(k: GreatPersonType) -> Seq<char> {
    match k {
        GreatPersonType::General => "General"@,
        GreatPersonType::Admiral => "Admiral"@,
        GreatPersonType::Engineer => "Engineer"@,
        GreatPersonType::Merchant => "Merchant"@,
        GreatPersonType::Musician => "Musician"@,
        GreatPersonType::Artist => "Artist"@,
        GreatPersonType::Writer => "Writer"@,
        GreatPersonType::Prophet => "Prophet"@,
        GreatPersonType::Scientist => "Scientist"@,
    }
}

/// Typing a great person type's own name, in any letter case the game writes it,
/// gives that great person type: `great_person_named` undoes `great_person_type_name`, so no two great person types share a
/// name and each name gives its own kind.
pub proof fn great_person_names_read_back(k: GreatPersonType)
    ensures
        great_person_named(lowercase_text(great_person_type_name(k))) == Some(k),
{
    reveal_strlit("general");
    reveal_strlit("admiral");
    reveal_strlit("engineer");
    reveal_strlit("merchant");
    reveal_strlit("musician");
    reveal_strlit("artist");
    reveal_strlit("writer");
    reveal_strlit("prophet");
    reveal_strlit("scientist");
    match k {
        GreatPersonType::General => {
            reveal_strlit("General");
            assert(vstd::utf8::is_ascii_chars("General"@));
            assert(ascii_lowercased("General"@) =~= "general"@);
            assert("general"@[0] != "admiral"@[0]);
            assert("general"@[0] != "prophet"@[0]);
        },
        GreatPersonType::Admiral => {
            reveal_strlit("Admiral");
            assert(vstd::utf8::is_ascii_chars("Admiral"@));
            assert(ascii_lowercased("Admiral"@) =~= "admiral"@);
            assert("admiral"@[0] != "general"@[0]);
            assert("admiral"@[0] != "prophet"@[0]);
        },
        GreatPersonType::Engineer => {
            reveal_strlit("Engineer");
            assert(vstd::utf8::is_ascii_chars("Engineer"@));
            assert(ascii_lowercased("Engineer"@) =~= "engineer"@);
            assert("engineer"@[0] != "merchant"@[0]);
            assert("engineer"@[0] != "musician"@[0]);
        },
        GreatPersonType::Merchant => {
            reveal_strlit("Merchant");
            assert(vstd::utf8::is_ascii_chars("Merchant"@));
            assert(ascii_lowercased("Merchant"@) =~= "merchant"@);
            assert("merchant"@[0] != "engineer"@[0]);
            assert("merchant"@[1] != "musician"@[1]);
        },
        GreatPersonType::Musician => {
            reveal_strlit("Musician");
            assert(vstd::utf8::is_ascii_chars("Musician"@));
            assert(ascii_lowercased("Musician"@) =~= "musician"@);
            assert("musician"@[0] != "engineer"@[0]);
            assert("musician"@[1] != "merchant"@[1]);
        },
        GreatPersonType::Artist => {
            reveal_strlit("Artist");
            assert(vstd::utf8::is_ascii_chars("Artist"@));
            assert(ascii_lowercased("Artist"@) =~= "artist"@);
            assert("artist"@[0] != "writer"@[0]);
        },
        GreatPersonType::Writer => {
            reveal_strlit("Writer");
            assert(vstd::utf8::is_ascii_chars("Writer"@));
            assert(ascii_lowercased("Writer"@) =~= "writer"@);
            assert("writer"@[0] != "artist"@[0]);
        },
        GreatPersonType::Prophet => {
            reveal_strlit("Prophet");
            assert(vstd::utf8::is_ascii_chars("Prophet"@));
            assert(ascii_lowercased("Prophet"@) =~= "prophet"@);
            assert("prophet"@[0] != "general"@[0]);
            assert("prophet"@[0] != "admiral"@[0]);
        },
        GreatPersonType::Scientist => {
            reveal_strlit("Scientist");
            assert(vstd::utf8::is_ascii_chars("Scientist"@));
            assert(ascii_lowercased("Scientist"@) =~= "scientist"@);
        },
    }
}

/// `s` without its spaces and underscores.
pub open spec fn without_separators(s: Seq<char>) -> Seq<char>
    decreases s.len(),
{
    if s.len() == 0 {
        seq![]
    } else if s.last() == ' ' || s.last() == '_' {
        without_separators(s.drop_last())
    } else {
        without_separators(s.drop_last()).push(s.last())
    }
}

proof fn lemma_without_separators_concat(a: Seq<char>, b: Seq<char>)
    ensures
        without_separators(a + b) == without_separators(a) + without_separators(b),
    decreases b.len(),
{
    if b.len() == 0 {
        assert(a + b =~= a);
        assert(without_separators(a) + Seq::<char>::empty() =~= without_separators(a));
    } else {
        lemma_without_separators_concat(a, b.drop_last());
        assert((a + b).drop_last() =~= a + b.drop_last());
        if !(b.last() == ' ' || b.last() == '_') {
            assert((without_separators(a) + without_separators(b.drop_last())).push(b.last()) =~= without_separators(
                a,
            ) + without_separators(b.drop_last()).push(b.last()));
        }
    }
}

proof fn lemma_without_separators_free(s: Seq<char>)
    requires
        forall|i: int| 0 <= i < s.len() ==> s[i] != ' ' && s[i] != '_',
    ensures
        without_separators(s) == s,
    decreases s.len(),
{
    if s.len() > 0 {
        lemma_without_separators_free(s.drop_last());
        assert(s.drop_last().push(s.last()) =~= s);
    }
}

proof fn lemma_without_separators_one(c: char)
    requires
        c == ' ' || c == '_',
    ensures
        without_separators(seq![c]) == Seq::<char>::empty(),
{
    let s = seq![c];
    assert(s.len() == 1);
    assert(s.last() == c);
    assert(s.drop_last() =~= Seq::<char>::empty());
    assert(without_separators(s) == without_separators(s.drop_last()));
}

proof fn improvement_spelling_0()
    ensures
        without_separators("farm"@) == "farm"@,
{
    reveal_strlit("farm");
    reveal_strlit("farm");
    lemma_without_separators_free("farm"@);
}

proof fn improvement_spelling_1()
    ensures
        without_separators("mine"@) == "mine"@,
{
    reveal_strlit("mine");
    reveal_strlit("mine");
    lemma_without_separators_free("mine"@);
}

proof fn improvement_spelling_2()
    ensures
        without_separators("lumbermill"@) == "lumbermill"@,
{
    reveal_strlit("lumbermill");
    reveal_strlit("lumbermill");
    lemma_without_separators_free("lumbermill"@);
}

proof fn improvement_spelling_3()
    ensures
        without_separators("lumber_mill"@) == "lumbermill"@,
{
    reveal_strlit("lumber_mill");
    reveal_strlit("lumbermill");
    lemma_without_separators_free("lumber_mill"@.subrange(0, 6));
    lemma_without_separators_free("lumber_mill"@.subrange(7, 11));
    assert("lumber_mill"@.subrange(6, 7) =~= seq!["lumber_mill"@[6]]);
    lemma_without_separators_one("lumber_mill"@[6]);
    lemma_without_separators_concat("lumber_mill"@.subrange(0, 6), "lumber_mill"@.subrange(6, 7));
    lemma_without_separators_concat("lumber_mill"@.subrange(0, 6) + "lumber_mill"@.subrange(6, 7), "lumber_mill"@.subrange(7, 11));
    assert("lumber_mill"@.subrange(0, 6) + "lumber_mill"@.subrange(6, 7) + "lumber_mill"@.subrange(7, 11) =~= "lumber_mill"@);
    assert("lumber_mill"@.subrange(0, 6) + "lumber_mill"@.subrange(7, 11) =~= "lumbermill"@);
}

proof fn improvement_spelling_4()
    ensures
        without_separators("lumber mill"@) == "lumbermill"@,
{
    reveal_strlit("lumber mill");
    reveal_strlit("lumbermill");
    lemma_without_separators_free("lumber mill"@.subrange(0, 6));
    lemma_without_separators_free("lumber mill"@.subrange(7, 11));
    assert("lumber mill"@.subrange(6, 7) =~= seq!["lumber mill"@[6]]);
    lemma_without_separators_one("lumber mill"@[6]);
    lemma_without_separators_concat("lumber mill"@.subrange(0, 6), "lumber mill"@.subrange(6, 7));
    lemma_without_separators_concat("lumber mill"@.subrange(0, 6) + "lumber mill"@.subrange(6, 7), "lumber mill"@.subrange(7, 11));
    assert("lumber mill"@.subrange(0, 6) + "lumber mill"@.subrange(6, 7) + "lumber mill"@.subrange(7, 11) =~= "lumber mill"@);
    assert("lumber mill"@.subrange(0, 6) + "lumber mill"@.subrange(7, 11) =~= "lumbermill"@);
}

proof fn improvement_spelling_5()
    ensures
        without_separators("tradingpost"@) == "tradingpost"@,
{
    reveal_strlit("tradingpost");
    reveal_strlit("tradingpost");
    lemma_without_separators_free("tradingpost"@);
}

proof fn improvement_spelling_6()
    ensures
        without_separators("trading_post"@) == "tradingpost"@,
{
    reveal_strlit("trading_post");
    reveal_strlit("tradingpost");
    lemma_without_separators_free("trading_post"@.subrange(0, 7));
    lemma_without_separators_free("trading_post"@.subrange(8, 12));
    assert("trading_post"@.subrange(7, 8) =~= seq!["trading_post"@[7]]);
    lemma_without_separators_one("trading_post"@[7]);
    lemma_without_separators_concat("trading_post"@.subrange(0, 7), "trading_post"@.subrange(7, 8));
    lemma_without_separators_concat("trading_post"@.subrange(0, 7) + "trading_post"@.subrange(7, 8), "trading_post"@.subrange(8, 12));
    assert("trading_post"@.subrange(0, 7) + "trading_post"@.subrange(7, 8) + "trading_post"@.subrange(8, 12) =~= "trading_post"@);
    assert("trading_post"@.subrange(0, 7) + "trading_post"@.subrange(8, 12) =~= "tradingpost"@);
}

proof fn improvement_spelling_7()
    ensures
        without_separators("trading post"@) == "tradingpost"@,
{
    reveal_strlit("trading post");
    reveal_strlit("tradingpost");
    lemma_without_separators_free("trading post"@.subrange(0, 7));
    lemma_without_separators_free("trading post"@.subrange(8, 12));
    assert("trading post"@.subrange(7, 8) =~= seq!["trading post"@[7]]);
    lemma_without_separators_one("trading post"@[7]);
    lemma_without_separators_concat("trading post"@.subrange(0, 7), "trading post"@.subrange(7, 8));
    lemma_without_separators_concat("trading post"@.subrange(0, 7) + "trading post"@.subrange(7, 8), "trading post"@.subrange(8, 12));
    assert("trading post"@.subrange(0, 7) + "trading post"@.subrange(7, 8) + "trading post"@.subrange(8, 12) =~= "trading post"@);
    assert("trading post"@.subrange(0, 7) + "trading post"@.subrange(8, 12) =~= "tradingpost"@);
}

proof fn improvement_spelling_8()
    ensures
        without_separators("fort"@) == "fort"@,
{
    reveal_strlit("fort");
    reveal_strlit("fort");
    lemma_without_separators_free("fort"@);
}

proof fn improvement_spelling_9()
    ensures
        without_separators("airstrip"@) == "airstrip"@,
{
    reveal_strlit("airstrip");
    reveal_strlit("airstrip");
    lemma_without_separators_free("airstrip"@);
}

proof fn improvement_spelling_10()
    ensures
        without_separators("missilesilo"@) == "missilesilo"@,
{
    reveal_strlit("missilesilo");
    reveal_strlit("missilesilo");
    lemma_without_separators_free("missilesilo"@);
}

proof fn improvement_spelling_11()
    ensures
        without_separators("missile_silo"@) == "missilesilo"@,
{
    reveal_strlit("missile_silo");
    reveal_strlit("missilesilo");
    lemma_without_separators_free("missile_silo"@.subrange(0, 7));
    lemma_without_separators_free("missile_silo"@.subrange(8, 12));
    assert("missile_silo"@.subrange(7, 8) =~= seq!["missile_silo"@[7]]);
    lemma_without_separators_one("missile_silo"@[7]);
    lemma_without_separators_concat("missile_silo"@.subrange(0, 7), "missile_silo"@.subrange(7, 8));
    lemma_without_separators_concat("missile_silo"@.subrange(0, 7) + "missile_silo"@.subrange(7, 8), "missile_silo"@.subrange(8, 12));
    assert("missile_silo"@.subrange(0, 7) + "missile_silo"@.subrange(7, 8) + "missile_silo"@.subrange(8, 12) =~= "missile_silo"@);
    assert("missile_silo"@.subrange(0, 7) + "missile_silo"@.subrange(8, 12) =~= "missilesilo"@);
}

proof fn improvement_spelling_12()
    ensures
        without_separators("missile silo"@) == "missilesilo"@,
{
    reveal_strlit("missile silo");
    reveal_strlit("missilesilo");
    lemma_without_separators_free("missile silo"@.subrange(0, 7));
    lemma_without_separators_free("missile silo"@.subrange(8, 12));
    assert("missile silo"@.subrange(7, 8) =~= seq!["missile silo"@[7]]);
    lemma_without_separators_one("missile silo"@[7]);
    lemma_without_separators_concat("missile silo"@.subrange(0, 7), "missile silo"@.subrange(7, 8));
    lemma_without_separators_concat("missile silo"@.subrange(0, 7) + "missile silo"@.subrange(7, 8), "missile silo"@.subrange(8, 12));
    assert("missile silo"@.subrange(0, 7) + "missile silo"@.subrange(7, 8) + "missile silo"@.subrange(8, 12) =~= "missile silo"@);
    assert("missile silo"@.subrange(0, 7) + "missile silo"@.subrange(8, 12) =~= "missilesilo"@);
}

proof fn improvement_spelling_13()
    ensures
        without_separators("quarry"@) == "quarry"@,
{
    reveal_strlit("quarry");
    reveal_strlit("quarry");
    lemma_without_separators_free("quarry"@);
}

proof fn improvement_spelling_14()
    ensures
        without_separators("plantation"@) == "plantation"@,
{
    reveal_strlit("plantation");
    reveal_strlit("plantation");
    lemma_without_separators_free("plantation"@);
}

proof fn improvement_spelling_15()
    ensures
        without_separators("camp"@) == "camp"@,
{
    reveal_strlit("camp");
    reveal_strlit("camp");
    lemma_without_separators_free("camp"@);
}

proof fn improvement_spelling_16()
    ensures
        without_separators("fishingboats"@) == "fishingboats"@,
{
    reveal_strlit("fishingboats");
    reveal_strlit("fishingboats");
    lemma_without_separators_free("fishingboats"@);
}

proof fn improvement_spelling_17()
    ensures
        without_separators("fishing_boats"@) == "fishingboats"@,
{
    reveal_strlit("fishing_boats");
    reveal_strlit("fishingboats");
    lemma_without_separators_free("fishing_boats"@.subrange(0, 7));
    lemma_without_separators_free("fishing_boats"@.subrange(8, 13));
    assert("fishing_boats"@.subrange(7, 8) =~= seq!["fishing_boats"@[7]]);
    lemma_without_separators_one("fishing_boats"@[7]);
    lemma_without_separators_concat("fishing_boats"@.subrange(0, 7), "fishing_boats"@.subrange(7, 8));
    lemma_without_separators_concat("fishing_boats"@.subrange(0, 7) + "fishing_boats"@.subrange(7, 8), "fishing_boats"@.subrange(8, 13));
    assert("fishing_boats"@.subrange(0, 7) + "fishing_boats"@.subrange(7, 8) + "fishing_boats"@.subrange(8, 13) =~= "fishing_boats"@);
    assert("fishing_boats"@.subrange(0, 7) + "fishing_boats"@.subrange(8, 13) =~= "fishingboats"@);
}

proof fn improvement_spelling_18()
    ensures
        without_separators("fishing boats"@) == "fishingboats"@,
{
    reveal_strlit("fishing boats");
    reveal_strlit("fishingboats");
    lemma_without_separators_free("fishing boats"@.subrange(0, 7));
    lemma_without_separators_free("fishing boats"@.subrange(8, 13));
    assert("fishing boats"@.subrange(7, 8) =~= seq!["fishing boats"@[7]]);
    lemma_without_separators_one("fishing boats"@[7]);
    lemma_without_separators_concat("fishing boats"@.subrange(0, 7), "fishing boats"@.subrange(7, 8));
    lemma_without_separators_concat("fishing boats"@.subrange(0, 7) + "fishing boats"@.subrange(7, 8), "fishing boats"@.subrange(8, 13));
    assert("fishing boats"@.subrange(0, 7) + "fishing boats"@.subrange(7, 8) + "fishing boats"@.subrange(8, 13) =~= "fishing boats"@);
    assert("fishing boats"@.subrange(0, 7) + "fishing boats"@.subrange(8, 13) =~= "fishingboats"@);
}

proof fn improvement_spelling_19()
    ensures
        without_separators("pasture"@) == "pasture"@,
{
    reveal_strlit("pasture");
    reveal_strlit("pasture");
    lemma_without_separators_free("pasture"@);
}

proof fn improvement_spelling_20()
    ensures
        without_separators("sphinx"@) == "sphinx"@,
{
    reveal_strlit("sphinx");
    reveal_strlit("sphinx");
    lemma_without_separators_free("sphinx"@);
}

proof fn improvement_spelling_21()
    ensures
        without_separators("stepwell"@) == "stepwell"@,
{
    reveal_strlit("stepwell");
    reveal_strlit("stepwell");
    lemma_without_separators_free("stepwell"@);
}

proof fn improvement_spelling_22()
    ensures
        without_separators("oilwell"@) == "oilwell"@,
{
    reveal_strlit("oilwell");
    reveal_strlit("oilwell");
    lemma_without_separators_free("oilwell"@);
}

proof fn improvement_spelling_23()
    ensures
        without_separators("oil_well"@) == "oilwell"@,
{
    reveal_strlit("oil_well");
    reveal_strlit("oilwell");
    lemma_without_separators_free("oil_well"@.subrange(0, 3));
    lemma_without_separators_free("oil_well"@.subrange(4, 8));
    assert("oil_well"@.subrange(3, 4) =~= seq!["oil_well"@[3]]);
    lemma_without_separators_one("oil_well"@[3]);
    lemma_without_separators_concat("oil_well"@.subrange(0, 3), "oil_well"@.subrange(3, 4));
    lemma_without_separators_concat("oil_well"@.subrange(0, 3) + "oil_well"@.subrange(3, 4), "oil_well"@.subrange(4, 8));
    assert("oil_well"@.subrange(0, 3) + "oil_well"@.subrange(3, 4) + "oil_well"@.subrange(4, 8) =~= "oil_well"@);
    assert("oil_well"@.subrange(0, 3) + "oil_well"@.subrange(4, 8) =~= "oilwell"@);
}

proof fn improvement_spelling_24()
    ensures
        without_separators("oil well"@) == "oilwell"@,
{
    reveal_strlit("oil well");
    reveal_strlit("oilwell");
    lemma_without_separators_free("oil well"@.subrange(0, 3));
    lemma_without_separators_free("oil well"@.subrange(4, 8));
    assert("oil well"@.subrange(3, 4) =~= seq!["oil well"@[3]]);
    lemma_without_separators_one("oil well"@[3]);
    lemma_without_separators_concat("oil well"@.subrange(0, 3), "oil well"@.subrange(3, 4));
    lemma_without_separators_concat("oil well"@.subrange(0, 3) + "oil well"@.subrange(3, 4), "oil well"@.subrange(4, 8));
    assert("oil well"@.subrange(0, 3) + "oil well"@.subrange(3, 4) + "oil well"@.subrange(4, 8) =~= "oil well"@);
    assert("oil well"@.subrange(0, 3) + "oil well"@.subrange(4, 8) =~= "oilwell"@);
}

proof fn improvement_spelling_25()
    ensures
        without_separators("offshoreoilrig"@) == "offshoreoilrig"@,
{
    reveal_strlit("offshoreoilrig");
    reveal_strlit("offshoreoilrig");
    lemma_without_separators_free("offshoreoilrig"@);
}

proof fn improvement_spelling_26()
    ensures
        without_separators("offshore_oil_rig"@) == "offshoreoilrig"@,
{
    reveal_strlit("offshore_oil_rig");
    reveal_strlit("offshoreoilrig");
    lemma_without_separators_free("offshore_oil_rig"@.subrange(0, 8));
    lemma_without_separators_free("offshore_oil_rig"@.subrange(9, 12));
    lemma_without_separators_free("offshore_oil_rig"@.subrange(13, 16));
    assert("offshore_oil_rig"@.subrange(8, 9) =~= seq!["offshore_oil_rig"@[8]]);
    lemma_without_separators_one("offshore_oil_rig"@[8]);
    assert("offshore_oil_rig"@.subrange(12, 13) =~= seq!["offshore_oil_rig"@[12]]);
    lemma_without_separators_one("offshore_oil_rig"@[12]);
    lemma_without_separators_concat("offshore_oil_rig"@.subrange(0, 8), "offshore_oil_rig"@.subrange(8, 9));
    lemma_without_separators_concat("offshore_oil_rig"@.subrange(0, 8) + "offshore_oil_rig"@.subrange(8, 9), "offshore_oil_rig"@.subrange(9, 12));
    lemma_without_separators_concat("offshore_oil_rig"@.subrange(0, 8) + "offshore_oil_rig"@.subrange(8, 9) + "offshore_oil_rig"@.subrange(9, 12), "offshore_oil_rig"@.subrange(12, 13));
    lemma_without_separators_concat("offshore_oil_rig"@.subrange(0, 8) + "offshore_oil_rig"@.subrange(8, 9) + "offshore_oil_rig"@.subrange(9, 12) + "offshore_oil_rig"@.subrange(12, 13), "offshore_oil_rig"@.subrange(13, 16));
    assert("offshore_oil_rig"@.subrange(0, 8) + "offshore_oil_rig"@.subrange(8, 9) + "offshore_oil_rig"@.subrange(9, 12) + "offshore_oil_rig"@.subrange(12, 13) + "offshore_oil_rig"@.subrange(13, 16) =~= "offshore_oil_rig"@);
    assert("offshore_oil_rig"@.subrange(0, 8) + "offshore_oil_rig"@.subrange(9, 12) + "offshore_oil_rig"@.subrange(13, 16) =~= "offshoreoilrig"@);
}

proof fn improvement_spelling_27()
    ensures
        without_separators("offshore oil rig"@) == "offshoreoilrig"@,
{
    reveal_strlit("offshore oil rig");
    reveal_strlit("offshoreoilrig");
    lemma_without_separators_free("offshore oil rig"@.subrange(0, 8));
    lemma_without_separators_free("offshore oil rig"@.subrange(9, 12));
    lemma_without_separators_free("offshore oil rig"@.subrange(13, 16));
    assert("offshore oil rig"@.subrange(8, 9) =~= seq!["offshore oil rig"@[8]]);
    lemma_without_separators_one("offshore oil rig"@[8]);
    assert("offshore oil rig"@.subrange(12, 13) =~= seq!["offshore oil rig"@[12]]);
    lemma_without_separators_one("offshore oil rig"@[12]);
    lemma_without_separators_concat("offshore oil rig"@.subrange(0, 8), "offshore oil rig"@.subrange(8, 9));
    lemma_without_separators_concat("offshore oil rig"@.subrange(0, 8) + "offshore oil rig"@.subrange(8, 9), "offshore oil rig"@.subrange(9, 12));
    lemma_without_separators_concat("offshore oil rig"@.subrange(0, 8) + "offshore oil rig"@.subrange(8, 9) + "offshore oil rig"@.subrange(9, 12), "offshore oil rig"@.subrange(12, 13));
    lemma_without_separators_concat("offshore oil rig"@.subrange(0, 8) + "offshore oil rig"@.subrange(8, 9) + "offshore oil rig"@.subrange(9, 12) + "offshore oil rig"@.subrange(12, 13), "offshore oil rig"@.subrange(13, 16));
    assert("offshore oil rig"@.subrange(0, 8) + "offshore oil rig"@.subrange(8, 9) + "offshore oil rig"@.subrange(9, 12) + "offshore oil rig"@.subrange(12, 13) + "offshore oil rig"@.subrange(13, 16) =~= "offshore oil rig"@);
    assert("offshore oil rig"@.subrange(0, 8) + "offshore oil rig"@.subrange(9, 12) + "offshore oil rig"@.subrange(13, 16) =~= "offshoreoilrig"@);
}

proof fn improvement_spelling_28()
    ensures
        without_separators("beachresort"@) == "beachresort"@,
{
    reveal_strlit("beachresort");
    reveal_strlit("beachresort");
    lemma_without_separators_free("beachresort"@);
}

proof fn improvement_spelling_29()
    ensures
        without_separators("beach_resort"@) == "beachresort"@,
{
    reveal_strlit("beach_resort");
    reveal_strlit("beachresort");
    lemma_without_separators_free("beach_resort"@.subrange(0, 5));
    lemma_without_separators_free("beach_resort"@.subrange(6, 12));
    assert("beach_resort"@.subrange(5, 6) =~= seq!["beach_resort"@[5]]);
    lemma_without_separators_one("beach_resort"@[5]);
    lemma_without_separators_concat("beach_resort"@.subrange(0, 5), "beach_resort"@.subrange(5, 6));
    lemma_without_separators_concat("beach_resort"@.subrange(0, 5) + "beach_resort"@.subrange(5, 6), "beach_resort"@.subrange(6, 12));
    assert("beach_resort"@.subrange(0, 5) + "beach_resort"@.subrange(5, 6) + "beach_resort"@.subrange(6, 12) =~= "beach_resort"@);
    assert("beach_resort"@.subrange(0, 5) + "beach_resort"@.subrange(6, 12) =~= "beachresort"@);
}

proof fn improvement_spelling_30()
    ensures
        without_separators("beach resort"@) == "beachresort"@,
{
    reveal_strlit("beach resort");
    reveal_strlit("beachresort");
    lemma_without_separators_free("beach resort"@.subrange(0, 5));
    lemma_without_separators_free("beach resort"@.subrange(6, 12));
    assert("beach resort"@.subrange(5, 6) =~= seq!["beach resort"@[5]]);
    lemma_without_separators_one("beach resort"@[5]);
    lemma_without_separators_concat("beach resort"@.subrange(0, 5), "beach resort"@.subrange(5, 6));
    lemma_without_separators_concat("beach resort"@.subrange(0, 5) + "beach resort"@.subrange(5, 6), "beach resort"@.subrange(6, 12));
    assert("beach resort"@.subrange(0, 5) + "beach resort"@.subrange(5, 6) + "beach resort"@.subrange(6, 12) =~= "beach resort"@);
    assert("beach resort"@.subrange(0, 5) + "beach resort"@.subrange(6, 12) =~= "beachresort"@);
}

proof fn improvement_spelling_31()
    ensures
        without_separators("chateau"@) == "chateau"@,
{
    reveal_strlit("chateau");
    reveal_strlit("chateau");
    lemma_without_separators_free("chateau"@);
}

proof fn improvement_spelling_32()
    ensures
        without_separators("colossalhead"@) == "colossalhead"@,
{
    reveal_strlit("colossalhead");
    reveal_strlit("colossalhead");
    lemma_without_separators_free("colossalhead"@);
}

proof fn improvement_spelling_33()
    ensures
        without_separators("colossal_head"@) == "colossalhead"@,
{
    reveal_strlit("colossal_head");
    reveal_strlit("colossalhead");
    lemma_without_separators_free("colossal_head"@.subrange(0, 8));
    lemma_without_separators_free("colossal_head"@.subrange(9, 13));
    assert("colossal_head"@.subrange(8, 9) =~= seq!["colossal_head"@[8]]);
    lemma_without_separators_one("colossal_head"@[8]);
    lemma_without_separators_concat("colossal_head"@.subrange(0, 8), "colossal_head"@.subrange(8, 9));
    lemma_without_separators_concat("colossal_head"@.subrange(0, 8) + "colossal_head"@.subrange(8, 9), "colossal_head"@.subrange(9, 13));
    assert("colossal_head"@.subrange(0, 8) + "colossal_head"@.subrange(8, 9) + "colossal_head"@.subrange(9, 13) =~= "colossal_head"@);
    assert("colossal_head"@.subrange(0, 8) + "colossal_head"@.subrange(9, 13) =~= "colossalhead"@);
}

proof fn improvement_spelling_34()
    ensures
        without_separators("colossal head"@) == "colossalhead"@,
{
    reveal_strlit("colossal head");
    reveal_strlit("colossalhead");
    lemma_without_separators_free("colossal head"@.subrange(0, 8));
    lemma_without_separators_free("colossal head"@.subrange(9, 13));
    assert("colossal head"@.subrange(8, 9) =~= seq!["colossal head"@[8]]);
    lemma_without_separators_one("colossal head"@[8]);
    lemma_without_separators_concat("colossal head"@.subrange(0, 8), "colossal head"@.subrange(8, 9));
    lemma_without_separators_concat("colossal head"@.subrange(0, 8) + "colossal head"@.subrange(8, 9), "colossal head"@.subrange(9, 13));
    assert("colossal head"@.subrange(0, 8) + "colossal head"@.subrange(8, 9) + "colossal head"@.subrange(9, 13) =~= "colossal head"@);
    assert("colossal head"@.subrange(0, 8) + "colossal head"@.subrange(9, 13) =~= "colossalhead"@);
}

proof fn improvement_spelling_35()
    ensures
        without_separators("greatwall"@) == "greatwall"@,
{
    reveal_strlit("greatwall");
    reveal_strlit("greatwall");
    lemma_without_separators_free("greatwall"@);
}

proof fn improvement_spelling_36()
    ensures
        without_separators("great_wall"@) == "greatwall"@,
{
    reveal_strlit("great_wall");
    reveal_strlit("greatwall");
    lemma_without_separators_free("great_wall"@.subrange(0, 5));
    lemma_without_separators_free("great_wall"@.subrange(6, 10));
    assert("great_wall"@.subrange(5, 6) =~= seq!["great_wall"@[5]]);
    lemma_without_separators_one("great_wall"@[5]);
    lemma_without_separators_concat("great_wall"@.subrange(0, 5), "great_wall"@.subrange(5, 6));
    lemma_without_separators_concat("great_wall"@.subrange(0, 5) + "great_wall"@.subrange(5, 6), "great_wall"@.subrange(6, 10));
    assert("great_wall"@.subrange(0, 5) + "great_wall"@.subrange(5, 6) + "great_wall"@.subrange(6, 10) =~= "great_wall"@);
    assert("great_wall"@.subrange(0, 5) + "great_wall"@.subrange(6, 10) =~= "greatwall"@);
}

proof fn improvement_spelling_37()
    ensures
        without_separators("great wall"@) == "greatwall"@,
{
    reveal_strlit("great wall");
    reveal_strlit("greatwall");
    lemma_without_separators_free("great wall"@.subrange(0, 5));
    lemma_without_separators_free("great wall"@.subrange(6, 10));
    assert("great wall"@.subrange(5, 6) =~= seq!["great wall"@[5]]);
    lemma_without_separators_one("great wall"@[5]);
    lemma_without_separators_concat("great wall"@.subrange(0, 5), "great wall"@.subrange(5, 6));
    lemma_without_separators_concat("great wall"@.subrange(0, 5) + "great wall"@.subrange(5, 6), "great wall"@.subrange(6, 10));
    assert("great wall"@.subrange(0, 5) + "great wall"@.subrange(5, 6) + "great wall"@.subrange(6, 10) =~= "great wall"@);
    assert("great wall"@.subrange(0, 5) + "great wall"@.subrange(6, 10) =~= "greatwall"@);
}

proof fn improvement_spelling_38()
    ensures
        without_separators("kurgan"@) == "kurgan"@,
{
    reveal_strlit("kurgan");
    reveal_strlit("kurgan");
    lemma_without_separators_free("kurgan"@);
}

proof fn improvement_spelling_39()
    ensures
        lowercase_text("Farm"@) == "farm"@,
{
    reveal_strlit("Farm");
    reveal_strlit("farm");
    assert(vstd::utf8::is_ascii_chars("Farm"@));
    assert(ascii_lowercased("Farm"@) =~= "farm"@);
}

proof fn improvement_spelling_40()
    ensures
        lowercase_text("Mine"@) == "mine"@,
{
    reveal_strlit("Mine");
    reveal_strlit("mine");
    assert(vstd::utf8::is_ascii_chars("Mine"@));
    assert(ascii_lowercased("Mine"@) =~= "mine"@);
}

proof fn improvement_spelling_41()
    ensures
        lowercase_text("LumberMill"@) == "lumbermill"@,
{
    reveal_strlit("LumberMill");
    reveal_strlit("lumbermill");
    assert(vstd::utf8::is_ascii_chars("LumberMill"@));
    assert(ascii_lowercased("LumberMill"@) =~= "lumbermill"@);
}

proof fn improvement_spelling_42()
    ensures
        lowercase_text("TradingPost"@) == "tradingpost"@,
{
    reveal_strlit("TradingPost");
    reveal_strlit("tradingpost");
    assert(vstd::utf8::is_ascii_chars("TradingPost"@));
    assert(ascii_lowercased("TradingPost"@) =~= "tradingpost"@);
}

proof fn improvement_spelling_43()
    ensures
        lowercase_text("Fort"@) == "fort"@,
{
    reveal_strlit("Fort");
    reveal_strlit("fort");
    assert(vstd::utf8::is_ascii_chars("Fort"@));
    assert(ascii_lowercased("Fort"@) =~= "fort"@);
}

proof fn improvement_spelling_44()
    ensures
        lowercase_text("Airstrip"@) == "airstrip"@,
{
    reveal_strlit("Airstrip");
    reveal_strlit("airstrip");
    assert(vstd::utf8::is_ascii_chars("Airstrip"@));
    assert(ascii_lowercased("Airstrip"@) =~= "airstrip"@);
}

proof fn improvement_spelling_45()
    ensures
        lowercase_text("MissileSilo"@) == "missilesilo"@,
{
    reveal_strlit("MissileSilo");
    reveal_strlit("missilesilo");
    assert(vstd::utf8::is_ascii_chars("MissileSilo"@));
    assert(ascii_lowercased("MissileSilo"@) =~= "missilesilo"@);
}

proof fn improvement_spelling_46()
    ensures
        lowercase_text("Quarry"@) == "quarry"@,
{
    reveal_strlit("Quarry");
    reveal_strlit("quarry");
    assert(vstd::utf8::is_ascii_chars("Quarry"@));
    assert(ascii_lowercased("Quarry"@) =~= "quarry"@);
}

proof fn improvement_spelling_47()
    ensures
        lowercase_text("Plantation"@) == "plantation"@,
{
    reveal_strlit("Plantation");
    reveal_strlit("plantation");
    assert(vstd::utf8::is_ascii_chars("Plantation"@));
    assert(ascii_lowercased("Plantation"@) =~= "plantation"@);
}

proof fn improvement_spelling_48()
    ensures
        lowercase_text("Camp"@) == "camp"@,
{
    reveal_strlit("Camp");
    reveal_strlit("camp");
    assert(vstd::utf8::is_ascii_chars("Camp"@));
    assert(ascii_lowercased("Camp"@) =~= "camp"@);
}

proof fn improvement_spelling_49()
    ensures
        lowercase_text("FishingBoats"@) == "fishingboats"@,
{
    reveal_strlit("FishingBoats");
    reveal_strlit("fishingboats");
    assert(vstd::utf8::is_ascii_chars("FishingBoats"@));
    assert(ascii_lowercased("FishingBoats"@) =~= "fishingboats"@);
}

proof fn improvement_spelling_50()
    ensures
        lowercase_text("Pasture"@) == "pasture"@,
{
    reveal_strlit("Pasture");
    reveal_strlit("pasture");
    assert(vstd::utf8::is_ascii_chars("Pasture"@));
    assert(ascii_lowercased("Pasture"@) =~= "pasture"@);
}

proof fn improvement_spelling_51()
    ensures
        lowercase_text("Sphinx"@) == "sphinx"@,
{
    reveal_strlit("Sphinx");
    reveal_strlit("sphinx");
    assert(vstd::utf8::is_ascii_chars("Sphinx"@));
    assert(ascii_lowercased("Sphinx"@) =~= "sphinx"@);
}

proof fn improvement_spelling_52()
    ensures
        lowercase_text("Stepwell"@) == "stepwell"@,
{
    reveal_strlit("Stepwell");
    reveal_strlit("stepwell");
    assert(vstd::utf8::is_ascii_chars("Stepwell"@));
    assert(ascii_lowercased("Stepwell"@) =~= "stepwell"@);
}

proof fn improvement_spelling_53()
    ensures
        lowercase_text("OilWell"@) == "oilwell"@,
{
    reveal_strlit("OilWell");
    reveal_strlit("oilwell");
    assert(vstd::utf8::is_ascii_chars("OilWell"@));
    assert(ascii_lowercased("OilWell"@) =~= "oilwell"@);
}

proof fn improvement_spelling_54()
    ensures
        lowercase_text("OffshoreOilRig"@) == "offshoreoilrig"@,
{
    reveal_strlit("OffshoreOilRig");
    reveal_strlit("offshoreoilrig");
    assert(vstd::utf8::is_ascii_chars("OffshoreOilRig"@));
    assert(ascii_lowercased("OffshoreOilRig"@) =~= "offshoreoilrig"@);
}

proof fn improvement_spelling_55()
    ensures
        lowercase_text("BeachResort"@) == "beachresort"@,
{
    reveal_strlit("BeachResort");
    reveal_strlit("beachresort");
    assert(vstd::utf8::is_ascii_chars("BeachResort"@));
    assert(ascii_lowercased("BeachResort"@) =~= "beachresort"@);
}

proof fn improvement_spelling_56()
    ensures
        lowercase_text("Chateau"@) == "chateau"@,
{
    reveal_strlit("Chateau");
    reveal_strlit("chateau");
    assert(vstd::utf8::is_ascii_chars("Chateau"@));
    assert(ascii_lowercased("Chateau"@) =~= "chateau"@);
}

proof fn improvement_spelling_57()
    ensures
        lowercase_text("ColossalHead"@) == "colossalhead"@,
{
    reveal_strlit("ColossalHead");
    reveal_strlit("colossalhead");
    assert(vstd::utf8::is_ascii_chars("ColossalHead"@));
    assert(ascii_lowercased("ColossalHead"@) =~= "colossalhead"@);
}

proof fn improvement_spelling_58()
    ensures
        lowercase_text("GreatWall"@) == "greatwall"@,
{
    reveal_strlit("GreatWall");
    reveal_strlit("greatwall");
    assert(vstd::utf8::is_ascii_chars("GreatWall"@));
    assert(ascii_lowercased("GreatWall"@) =~= "greatwall"@);
}

proof fn improvement_spelling_59()
    ensures
        lowercase_text("Kurgan"@) == "kurgan"@,
{
    reveal_strlit("Kurgan");
    reveal_strlit("kurgan");
    assert(vstd::utf8::is_ascii_chars("Kurgan"@));
    assert(ascii_lowercased("Kurgan"@) =~= "kurgan"@);
}

proof fn district_spelling_0()
    ensures
        without_separators("campus"@) == "campus"@,
{
    reveal_strlit("campus");
    reveal_strlit("campus");
    lemma_without_separators_free("campus"@);
}

proof fn district_spelling_1()
    ensures
        without_separators("theatersquare"@) == "theatersquare"@,
{
    reveal_strlit("theatersquare");
    reveal_strlit("theatersquare");
    lemma_without_separators_free("theatersquare"@);
}

proof fn district_spelling_2()
    ensures
        without_separators("theater_square"@) == "theatersquare"@,
{
    reveal_strlit("theater_square");
    reveal_strlit("theatersquare");
    lemma_without_separators_free("theater_square"@.subrange(0, 7));
    lemma_without_separators_free("theater_square"@.subrange(8, 14));
    assert("theater_square"@.subrange(7, 8) =~= seq!["theater_square"@[7]]);
    lemma_without_separators_one("theater_square"@[7]);
    lemma_without_separators_concat("theater_square"@.subrange(0, 7), "theater_square"@.subrange(7, 8));
    lemma_without_separators_concat("theater_square"@.subrange(0, 7) + "theater_square"@.subrange(7, 8), "theater_square"@.subrange(8, 14));
    assert("theater_square"@.subrange(0, 7) + "theater_square"@.subrange(7, 8) + "theater_square"@.subrange(8, 14) =~= "theater_square"@);
    assert("theater_square"@.subrange(0, 7) + "theater_square"@.subrange(8, 14) =~= "theatersquare"@);
}

proof fn district_spelling_3()
    ensures
        without_separators("commercialhub"@) == "commercialhub"@,
{
    reveal_strlit("commercialhub");
    reveal_strlit("commercialhub");
    lemma_without_separators_free("commercialhub"@);
}

proof fn district_spelling_4()
    ensures
        without_separators("commercial_hub"@) == "commercialhub"@,
{
    reveal_strlit("commercial_hub");
    reveal_strlit("commercialhub");
    lemma_without_separators_free("commercial_hub"@.subrange(0, 10));
    lemma_without_separators_free("commercial_hub"@.subrange(11, 14));
    assert("commercial_hub"@.subrange(10, 11) =~= seq!["commercial_hub"@[10]]);
    lemma_without_separators_one("commercial_hub"@[10]);
    lemma_without_separators_concat("commercial_hub"@.subrange(0, 10), "commercial_hub"@.subrange(10, 11));
    lemma_without_separators_concat("commercial_hub"@.subrange(0, 10) + "commercial_hub"@.subrange(10, 11), "commercial_hub"@.subrange(11, 14));
    assert("commercial_hub"@.subrange(0, 10) + "commercial_hub"@.subrange(10, 11) + "commercial_hub"@.subrange(11, 14) =~= "commercial_hub"@);
    assert("commercial_hub"@.subrange(0, 10) + "commercial_hub"@.subrange(11, 14) =~= "commercialhub"@);
}

proof fn district_spelling_5()
    ensures
        without_separators("harbor"@) == "harbor"@,
{
    reveal_strlit("harbor");
    reveal_strlit("harbor");
    lemma_without_separators_free("harbor"@);
}

proof fn district_spelling_6()
    ensures
        without_separators("holysite"@) == "holysite"@,
{
    reveal_strlit("holysite");
    reveal_strlit("holysite");
    lemma_without_separators_free("holysite"@);
}

proof fn district_spelling_7()
    ensures
        without_separators("holy_site"@) == "holysite"@,
{
    reveal_strlit("holy_site");
    reveal_strlit("holysite");
    lemma_without_separators_free("holy_site"@.subrange(0, 4));
    lemma_without_separators_free("holy_site"@.subrange(5, 9));
    assert("holy_site"@.subrange(4, 5) =~= seq!["holy_site"@[4]]);
    lemma_without_separators_one("holy_site"@[4]);
    lemma_without_separators_concat("holy_site"@.subrange(0, 4), "holy_site"@.subrange(4, 5));
    lemma_without_separators_concat("holy_site"@.subrange(0, 4) + "holy_site"@.subrange(4, 5), "holy_site"@.subrange(5, 9));
    assert("holy_site"@.subrange(0, 4) + "holy_site"@.subrange(4, 5) + "holy_site"@.subrange(5, 9) =~= "holy_site"@);
    assert("holy_site"@.subrange(0, 4) + "holy_site"@.subrange(5, 9) =~= "holysite"@);
}

proof fn district_spelling_8()
    ensures
        without_separators("encampment"@) == "encampment"@,
{
    reveal_strlit("encampment");
    reveal_strlit("encampment");
    lemma_without_separators_free("encampment"@);
}

proof fn district_spelling_9()
    ensures
        without_separators("industrialzone"@) == "industrialzone"@,
{
    reveal_strlit("industrialzone");
    reveal_strlit("industrialzone");
    lemma_without_separators_free("industrialzone"@);
}

proof fn district_spelling_10()
    ensures
        without_separators("industrial_zone"@) == "industrialzone"@,
{
    reveal_strlit("industrial_zone");
    reveal_strlit("industrialzone");
    lemma_without_separators_free("industrial_zone"@.subrange(0, 10));
    lemma_without_separators_free("industrial_zone"@.subrange(11, 15));
    assert("industrial_zone"@.subrange(10, 11) =~= seq!["industrial_zone"@[10]]);
    lemma_without_separators_one("industrial_zone"@[10]);
    lemma_without_separators_concat("industrial_zone"@.subrange(0, 10), "industrial_zone"@.subrange(10, 11));
    lemma_without_separators_concat("industrial_zone"@.subrange(0, 10) + "industrial_zone"@.subrange(10, 11), "industrial_zone"@.subrange(11, 15));
    assert("industrial_zone"@.subrange(0, 10) + "industrial_zone"@.subrange(10, 11) + "industrial_zone"@.subrange(11, 15) =~= "industrial_zone"@);
    assert("industrial_zone"@.subrange(0, 10) + "industrial_zone"@.subrange(11, 15) =~= "industrialzone"@);
}

proof fn district_spelling_11()
    ensures
        without_separators("entertainmentcomplex"@) == "entertainmentcomplex"@,
{
    reveal_strlit("entertainmentcomplex");
    reveal_strlit("entertainmentcomplex");
    lemma_without_separators_free("entertainmentcomplex"@);
}

proof fn district_spelling_12()
    ensures
        without_separators("entertainment_complex"@) == "entertainmentcomplex"@,
{
    reveal_strlit("entertainment_complex");
    reveal_strlit("entertainmentcomplex");
    lemma_without_separators_free("entertainment_complex"@.subrange(0, 13));
    lemma_without_separators_free("entertainment_complex"@.subrange(14, 21));
    assert("entertainment_complex"@.subrange(13, 14) =~= seq!["entertainment_complex"@[13]]);
    lemma_without_separators_one("entertainment_complex"@[13]);
    lemma_without_separators_concat("entertainment_complex"@.subrange(0, 13), "entertainment_complex"@.subrange(13, 14));
    lemma_without_separators_concat("entertainment_complex"@.subrange(0, 13) + "entertainment_complex"@.subrange(13, 14), "entertainment_complex"@.subrange(14, 21));
    assert("entertainment_complex"@.subrange(0, 13) + "entertainment_complex"@.subrange(13, 14) + "entertainment_complex"@.subrange(14, 21) =~= "entertainment_complex"@);
    assert("entertainment_complex"@.subrange(0, 13) + "entertainment_complex"@.subrange(14, 21) =~= "entertainmentcomplex"@);
}

proof fn district_spelling_13()
    ensures
        without_separators("waterpark"@) == "waterpark"@,
{
    reveal_strlit("waterpark");
    reveal_strlit("waterpark");
    lemma_without_separators_free("waterpark"@);
}

proof fn district_spelling_14()
    ensures
        without_separators("water_park"@) == "waterpark"@,
{
    reveal_strlit("water_park");
    reveal_strlit("waterpark");
    lemma_without_separators_free("water_park"@.subrange(0, 5));
    lemma_without_separators_free("water_park"@.subrange(6, 10));
    assert("water_park"@.subrange(5, 6) =~= seq!["water_park"@[5]]);
    lemma_without_separators_one("water_park"@[5]);
    lemma_without_separators_concat("water_park"@.subrange(0, 5), "water_park"@.subrange(5, 6));
    lemma_without_separators_concat("water_park"@.subrange(0, 5) + "water_park"@.subrange(5, 6), "water_park"@.subrange(6, 10));
    assert("water_park"@.subrange(0, 5) + "water_park"@.subrange(5, 6) + "water_park"@.subrange(6, 10) =~= "water_park"@);
    assert("water_park"@.subrange(0, 5) + "water_park"@.subrange(6, 10) =~= "waterpark"@);
}

proof fn district_spelling_15()
    ensures
        without_separators("aqueduct"@) == "aqueduct"@,
{
    reveal_strlit("aqueduct");
    reveal_strlit("aqueduct");
    lemma_without_separators_free("aqueduct"@);
}

proof fn district_spelling_16()
    ensures
        without_separators("dam"@) == "dam"@,
{
    reveal_strlit("dam");
    reveal_strlit("dam");
    lemma_without_separators_free("dam"@);
}

proof fn district_spelling_17()
    ensures
        without_separators("canal"@) == "canal"@,
{
    reveal_strlit("canal");
    reveal_strlit("canal");
    lemma_without_separators_free("canal"@);
}

proof fn district_spelling_18()
    ensures
        without_separators("aerodrome"@) == "aerodrome"@,
{
    reveal_strlit("aerodrome");
    reveal_strlit("aerodrome");
    lemma_without_separators_free("aerodrome"@);
}

proof fn district_spelling_19()
    ensures
        without_separators("neighborhood"@) == "neighborhood"@,
{
    reveal_strlit("neighborhood");
    reveal_strlit("neighborhood");
    lemma_without_separators_free("neighborhood"@);
}

proof fn district_spelling_20()
    ensures
        without_separators("spaceport"@) == "spaceport"@,
{
    reveal_strlit("spaceport");
    reveal_strlit("spaceport");
    lemma_without_separators_free("spaceport"@);
}

proof fn district_spelling_21()
    ensures
        without_separators("citycenter"@) == "citycenter"@,
{
    reveal_strlit("citycenter");
    reveal_strlit("citycenter");
    lemma_without_separators_free("citycenter"@);
}

proof fn district_spelling_22()
    ensures
        without_separators("city_center"@) == "citycenter"@,
{
    reveal_strlit("city_center");
    reveal_strlit("citycenter");
    lemma_without_separators_free("city_center"@.subrange(0, 4));
    lemma_without_separators_free("city_center"@.subrange(5, 11));
    assert("city_center"@.subrange(4, 5) =~= seq!["city_center"@[4]]);
    lemma_without_separators_one("city_center"@[4]);
    lemma_without_separators_concat("city_center"@.subrange(0, 4), "city_center"@.subrange(4, 5));
    lemma_without_separators_concat("city_center"@.subrange(0, 4) + "city_center"@.subrange(4, 5), "city_center"@.subrange(5, 11));
    assert("city_center"@.subrange(0, 4) + "city_center"@.subrange(4, 5) + "city_center"@.subrange(5, 11) =~= "city_center"@);
    assert("city_center"@.subrange(0, 4) + "city_center"@.subrange(5, 11) =~= "citycenter"@);
}

proof fn district_spelling_23()
    ensures
        without_separators("lavra"@) == "lavra"@,
{
    reveal_strlit("lavra");
    reveal_strlit("lavra");
    lemma_without_separators_free("lavra"@);
}

proof fn district_spelling_24()
    ensures
        without_separators("mbanza"@) == "mbanza"@,
{
    reveal_strlit("mbanza");
    reveal_strlit("mbanza");
    lemma_without_separators_free("mbanza"@);
}

proof fn district_spelling_25()
    ensures
        without_separators("streetcarnival"@) == "streetcarnival"@,
{
    reveal_strlit("streetcarnival");
    reveal_strlit("streetcarnival");
    lemma_without_separators_free("streetcarnival"@);
}

proof fn district_spelling_26()
    ensures
        without_separators("street_carnival"@) == "streetcarnival"@,
{
    reveal_strlit("street_carnival");
    reveal_strlit("streetcarnival");
    lemma_without_separators_free("street_carnival"@.subrange(0, 6));
    lemma_without_separators_free("street_carnival"@.subrange(7, 15));
    assert("street_carnival"@.subrange(6, 7) =~= seq!["street_carnival"@[6]]);
    lemma_without_separators_one("street_carnival"@[6]);
    lemma_without_separators_concat("street_carnival"@.subrange(0, 6), "street_carnival"@.subrange(6, 7));
    lemma_without_separators_concat("street_carnival"@.subrange(0, 6) + "street_carnival"@.subrange(6, 7), "street_carnival"@.subrange(7, 15));
    assert("street_carnival"@.subrange(0, 6) + "street_carnival"@.subrange(6, 7) + "street_carnival"@.subrange(7, 15) =~= "street_carnival"@);
    assert("street_carnival"@.subrange(0, 6) + "street_carnival"@.subrange(7, 15) =~= "streetcarnival"@);
}

proof fn district_spelling_27()
    ensures
        without_separators("royalnavydockyard"@) == "royalnavydockyard"@,
{
    reveal_strlit("royalnavydockyard");
    reveal_strlit("royalnavydockyard");
    lemma_without_separators_free("royalnavydockyard"@);
}

proof fn district_spelling_28()
    ensures
        without_separators("royal_navy_dockyard"@) == "royalnavydockyard"@,
{
    reveal_strlit("royal_navy_dockyard");
    reveal_strlit("royalnavydockyard");
    lemma_without_separators_free("royal_navy_dockyard"@.subrange(0, 5));
    lemma_without_separators_free("royal_navy_dockyard"@.subrange(6, 10));
    lemma_without_separators_free("royal_navy_dockyard"@.subrange(11, 19));
    assert("royal_navy_dockyard"@.subrange(5, 6) =~= seq!["royal_navy_dockyard"@[5]]);
    lemma_without_separators_one("royal_navy_dockyard"@[5]);
    assert("royal_navy_dockyard"@.subrange(10, 11) =~= seq!["royal_navy_dockyard"@[10]]);
    lemma_without_separators_one("royal_navy_dockyard"@[10]);
    lemma_without_separators_concat("royal_navy_dockyard"@.subrange(0, 5), "royal_navy_dockyard"@.subrange(5, 6));
    lemma_without_separators_concat("royal_navy_dockyard"@.subrange(0, 5) + "royal_navy_dockyard"@.subrange(5, 6), "royal_navy_dockyard"@.subrange(6, 10));
    lemma_without_separators_concat("royal_navy_dockyard"@.subrange(0, 5) + "royal_navy_dockyard"@.subrange(5, 6) + "royal_navy_dockyard"@.subrange(6, 10), "royal_navy_dockyard"@.subrange(10, 11));
    lemma_without_separators_concat("royal_navy_dockyard"@.subrange(0, 5) + "royal_navy_dockyard"@.subrange(5, 6) + "royal_navy_dockyard"@.subrange(6, 10) + "royal_navy_dockyard"@.subrange(10, 11), "royal_navy_dockyard"@.subrange(11, 19));
    assert("royal_navy_dockyard"@.subrange(0, 5) + "royal_navy_dockyard"@.subrange(5, 6) + "royal_navy_dockyard"@.subrange(6, 10) + "royal_navy_dockyard"@.subrange(10, 11) + "royal_navy_dockyard"@.subrange(11, 19) =~= "royal_navy_dockyard"@);
    assert("royal_navy_dockyard"@.subrange(0, 5) + "royal_navy_dockyard"@.subrange(6, 10) + "royal_navy_dockyard"@.subrange(11, 19) =~= "royalnavydockyard"@);
}

proof fn district_spelling_29()
    ensures
        lowercase_text("Campus"@) == "campus"@,
{
    reveal_strlit("Campus");
    reveal_strlit("campus");
    assert(vstd::utf8::is_ascii_chars("Campus"@));
    assert(ascii_lowercased("Campus"@) =~= "campus"@);
}

proof fn district_spelling_30()
    ensures
        lowercase_text("TheaterSquare"@) == "theatersquare"@,
{
    reveal_strlit("TheaterSquare");
    reveal_strlit("theatersquare");
    assert(vstd::utf8::is_ascii_chars("TheaterSquare"@));
    assert(ascii_lowercased("TheaterSquare"@) =~= "theatersquare"@);
}

proof fn district_spelling_31()
    ensures
        lowercase_text("CommercialHub"@) == "commercialhub"@,
{
    reveal_strlit("CommercialHub");
    reveal_strlit("commercialhub");
    assert(vstd::utf8::is_ascii_chars("CommercialHub"@));
    assert(ascii_lowercased("CommercialHub"@) =~= "commercialhub"@);
}

proof fn district_spelling_32()
    ensures
        lowercase_text("Harbor"@) == "harbor"@,
{
    reveal_strlit("Harbor");
    reveal_strlit("harbor");
    assert(vstd::utf8::is_ascii_chars("Harbor"@));
    assert(ascii_lowercased("Harbor"@) =~= "harbor"@);
}

proof fn district_spelling_33()
    ensures
        lowercase_text("HolySite"@) == "holysite"@,
{
    reveal_strlit("HolySite");
    reveal_strlit("holysite");
    assert(vstd::utf8::is_ascii_chars("HolySite"@));
    assert(ascii_lowercased("HolySite"@) =~= "holysite"@);
}

proof fn district_spelling_34()
    ensures
        lowercase_text("Encampment"@) == "encampment"@,
{
    reveal_strlit("Encampment");
    reveal_strlit("encampment");
    assert(vstd::utf8::is_ascii_chars("Encampment"@));
    assert(ascii_lowercased("Encampment"@) =~= "encampment"@);
}

proof fn district_spelling_35()
    ensures
        lowercase_text("IndustrialZone"@) == "industrialzone"@,
{
    reveal_strlit("IndustrialZone");
    reveal_strlit("industrialzone");
    assert(vstd::utf8::is_ascii_chars("IndustrialZone"@));
    assert(ascii_lowercased("IndustrialZone"@) =~= "industrialzone"@);
}

proof fn district_spelling_36()
    ensures
        lowercase_text("EntertainmentComplex"@) == "entertainmentcomplex"@,
{
    reveal_strlit("EntertainmentComplex");
    reveal_strlit("entertainmentcomplex");
    assert(vstd::utf8::is_ascii_chars("EntertainmentComplex"@));
    assert(ascii_lowercased("EntertainmentComplex"@) =~= "entertainmentcomplex"@);
}

proof fn district_spelling_37()
    ensures
        lowercase_text("WaterPark"@) == "waterpark"@,
{
    reveal_strlit("WaterPark");
    reveal_strlit("waterpark");
    assert(vstd::utf8::is_ascii_chars("WaterPark"@));
    assert(ascii_lowercased("WaterPark"@) =~= "waterpark"@);
}

proof fn district_spelling_38()
    ensures
        lowercase_text("Aqueduct"@) == "aqueduct"@,
{
    reveal_strlit("Aqueduct");
    reveal_strlit("aqueduct");
    assert(vstd::utf8::is_ascii_chars("Aqueduct"@));
    assert(ascii_lowercased("Aqueduct"@) =~= "aqueduct"@);
}

proof fn district_spelling_39()
    ensures
        lowercase_text("Dam"@) == "dam"@,
{
    reveal_strlit("Dam");
    reveal_strlit("dam");
    assert(vstd::utf8::is_ascii_chars("Dam"@));
    assert(ascii_lowercased("Dam"@) =~= "dam"@);
}

proof fn district_spelling_40()
    ensures
        lowercase_text("Canal"@) == "canal"@,
{
    reveal_strlit("Canal");
    reveal_strlit("canal");
    assert(vstd::utf8::is_ascii_chars("Canal"@));
    assert(ascii_lowercased("Canal"@) =~= "canal"@);
}

proof fn district_spelling_41()
    ensures
        lowercase_text("Aerodrome"@) == "aerodrome"@,
{
    reveal_strlit("Aerodrome");
    reveal_strlit("aerodrome");
    assert(vstd::utf8::is_ascii_chars("Aerodrome"@));
    assert(ascii_lowercased("Aerodrome"@) =~= "aerodrome"@);
}

proof fn district_spelling_42()
    ensures
        lowercase_text("Neighborhood"@) == "neighborhood"@,
{
    reveal_strlit("Neighborhood");
    reveal_strlit("neighborhood");
    assert(vstd::utf8::is_ascii_chars("Neighborhood"@));
    assert(ascii_lowercased("Neighborhood"@) =~= "neighborhood"@);
}

proof fn district_spelling_43()
    ensures
        lowercase_text("Spaceport"@) == "spaceport"@,
{
    reveal_strlit("Spaceport");
    reveal_strlit("spaceport");
    assert(vstd::utf8::is_ascii_chars("Spaceport"@));
    assert(ascii_lowercased("Spaceport"@) =~= "spaceport"@);
}

proof fn district_spelling_44()
    ensures
        lowercase_text("CityCenter"@) == "citycenter"@,
{
    reveal_strlit("CityCenter");
    reveal_strlit("citycenter");
    assert(vstd::utf8::is_ascii_chars("CityCenter"@));
    assert(ascii_lowercased("CityCenter"@) =~= "citycenter"@);
}

proof fn district_spelling_45()
    ensures
        lowercase_text("Lavra"@) == "lavra"@,
{
    reveal_strlit("Lavra");
    reveal_strlit("lavra");
    assert(vstd::utf8::is_ascii_chars("Lavra"@));
    assert(ascii_lowercased("Lavra"@) =~= "lavra"@);
}

proof fn district_spelling_46()
    ensures
        lowercase_text("Mbanza"@) == "mbanza"@,
{
    reveal_strlit("Mbanza");
    reveal_strlit("mbanza");
    assert(vstd::utf8::is_ascii_chars("Mbanza"@));
    assert(ascii_lowercased("Mbanza"@) =~= "mbanza"@);
}

proof fn district_spelling_47()
    ensures
        lowercase_text("StreetCarnival"@) == "streetcarnival"@,
{
    reveal_strlit("StreetCarnival");
    reveal_strlit("streetcarnival");
    assert(vstd::utf8::is_ascii_chars("StreetCarnival"@));
    assert(ascii_lowercased("StreetCarnival"@) =~= "streetcarnival"@);
}

proof fn district_spelling_48()
    ensures
        lowercase_text("RoyalNavyDockyard"@) == "royalnavydockyard"@,
{
    reveal_strlit("RoyalNavyDockyard");
    reveal_strlit("royalnavydockyard");
    assert(vstd::utf8::is_ascii_chars("RoyalNavyDockyard"@));
    assert(ascii_lowercased("RoyalNavyDockyard"@) =~= "royalnavydockyard"@);
}

/// Every spelling an improvement is accepted under is its own name,
/// lower-cased, with spaces or underscores between the words.
pub proof fn improvement_spellings_name_their_kind(l: Seq<char>)
    ensures
        improvement_named(l) matches Some(k) ==> without_separators(l) == lowercase_text(improvement_kind_name(k)),
{
    improvement_spelling_0();
    improvement_spelling_1();
    improvement_spelling_2();
    improvement_spelling_3();
    improvement_spelling_4();
    improvement_spelling_5();
    improvement_spelling_6();
    improvement_spelling_7();
    improvement_spelling_8();
    improvement_spelling_9();
    improvement_spelling_10();
    improvement_spelling_11();
    improvement_spelling_12();
    improvement_spelling_13();
    improvement_spelling_14();
    improvement_spelling_15();
    improvement_spelling_16();
    improvement_spelling_17();
    improvement_spelling_18();
    improvement_spelling_19();
    improvement_spelling_20();
    improvement_spelling_21();
    improvement_spelling_22();
    improvement_spelling_23();
    improvement_spelling_24();
    improvement_spelling_25();
    improvement_spelling_26();
    improvement_spelling_27();
    improvement_spelling_28();
    improvement_spelling_29();
    improvement_spelling_30();
    improvement_spelling_31();
    improvement_spelling_32();
    improvement_spelling_33();
    improvement_spelling_34();
    improvement_spelling_35();
    improvement_spelling_36();
    improvement_spelling_37();
    improvement_spelling_38();
    improvement_spelling_39();
    improvement_spelling_40();
    improvement_spelling_41();
    improvement_spelling_42();
    improvement_spelling_43();
    improvement_spelling_44();
    improvement_spelling_45();
    improvement_spelling_46();
    improvement_spelling_47();
    improvement_spelling_48();
    improvement_spelling_49();
    improvement_spelling_50();
    improvement_spelling_51();
    improvement_spelling_52();
    improvement_spelling_53();
    improvement_spelling_54();
    improvement_spelling_55();
    improvement_spelling_56();
    improvement_spelling_57();
    improvement_spelling_58();
    improvement_spelling_59();
}

/// Every spelling a district is accepted under is its own name,
/// lower-cased, with spaces or underscores between the words.
pub proof fn district_spellings_name_their_kind(l: Seq<char>)
    ensures
        district_named(l) matches Some(k) ==> without_separators(l) == lowercase_text(district_kind_name(k)),
{
    district_spelling_0();
    district_spelling_1();
    district_spelling_2();
    district_spelling_3();
    district_spelling_4();
    district_spelling_5();
    district_spelling_6();
    district_spelling_7();
    district_spelling_8();
    district_spelling_9();
    district_spelling_10();
    district_spelling_11();
    district_spelling_12();
    district_spelling_13();
    district_spelling_14();
    district_spelling_15();
    district_spelling_16();
    district_spelling_17();
    district_spelling_18();
    district_spelling_19();
    district_spelling_20();
    district_spelling_21();
    district_spelling_22();
    district_spelling_23();
    district_spelling_24();
    district_spelling_25();
    district_spelling_26();
    district_spelling_27();
    district_spelling_28();
    district_spelling_29();
    district_spelling_30();
    district_spelling_31();
    district_spelling_32();
    district_spelling_33();
    district_spelling_34();
    district_spelling_35();
    district_spelling_36();
    district_spelling_37();
    district_spelling_38();
    district_spelling_39();
    district_spelling_40();
    district_spelling_41();
    district_spelling_42();
    district_spelling_43();
    district_spelling_44();
    district_spelling_45();
    district_spelling_46();
    district_spelling_47();
    district_spelling_48();
}

proof fn alliance_spelling_0()
    ensures
        without_separators("research"@) == "research"@,
{
    reveal_strlit("research");
    lemma_without_separators_free("research"@);
}

proof fn alliance_spelling_1()
    ensures
        without_separators("military"@) == "military"@,
{
    reveal_strlit("military");
    lemma_without_separators_free("military"@);
}

proof fn alliance_spelling_2()
    ensures
        without_separators("economic"@) == "economic"@,
{
    reveal_strlit("economic");
    lemma_without_separators_free("economic"@);
}

proof fn alliance_spelling_3()
    ensures
        without_separators("cultural"@) == "cultural"@,
{
    reveal_strlit("cultural");
    lemma_without_separators_free("cultural"@);
}

proof fn alliance_spelling_4()
    ensures
        without_separators("religious"@) == "religious"@,
{
    reveal_strlit("religious");
    lemma_without_separators_free("religious"@);
}

proof fn alliance_spelling_5()
    ensures
        lowercase_text("Research"@) == "research"@,
{
    reveal_strlit("Research");
    reveal_strlit("research");
    assert(vstd::utf8::is_ascii_chars("Research"@));
    assert(ascii_lowercased("Research"@) =~= "research"@);
}

proof fn alliance_spelling_6()
    ensures
        lowercase_text("Military"@) == "military"@,
{
    reveal_strlit("Military");
    reveal_strlit("military");
    assert(vstd::utf8::is_ascii_chars("Military"@));
    assert(ascii_lowercased("Military"@) =~= "military"@);
}

proof fn alliance_spelling_7()
    ensures
        lowercase_text("Economic"@) == "economic"@,
{
    reveal_strlit("Economic");
    reveal_strlit("economic");
    assert(vstd::utf8::is_ascii_chars("Economic"@));
    assert(ascii_lowercased("Economic"@) =~= "economic"@);
}

proof fn alliance_spelling_8()
    ensures
        lowercase_text("Cultural"@) == "cultural"@,
{
    reveal_strlit("Cultural");
    reveal_strlit("cultural");
    assert(vstd::utf8::is_ascii_chars("Cultural"@));
    assert(ascii_lowercased("Cultural"@) =~= "cultural"@);
}

proof fn alliance_spelling_9()
    ensures
        lowercase_text("Religious"@) == "religious"@,
{
    reveal_strlit("Religious");
    reveal_strlit("religious");
    assert(vstd::utf8::is_ascii_chars("Religious"@));
    assert(ascii_lowercased("Religious"@) =~= "religious"@);
}

/// Every spelling a alliance type is accepted under is its own name, lower-cased.
pub proof fn alliance_spellings_name_their_kind(l: Seq<char>)
    ensures
        alliance_named(l) matches Some(k) ==> without_separators(l) == lowercase_text(alliance_type_name(k)),
{
    alliance_spelling_0();
    alliance_spelling_1();
    alliance_spelling_2();
    alliance_spelling_3();
    alliance_spelling_4();
    alliance_spelling_5();
    alliance_spelling_6();
    alliance_spelling_7();
    alliance_spelling_8();
    alliance_spelling_9();
}
proof fn great_person_spelling_0()
    ensures
        without_separators("general"@) == "general"@,
{
    reveal_strlit("general");
    lemma_without_separators_free("general"@);
}

proof fn great_person_spelling_1()
    ensures
        without_separators("admiral"@) == "admiral"@,
{
    reveal_strlit("admiral");
    lemma_without_separators_free("admiral"@);
}

proof fn great_person_spelling_2()
    ensures
        without_separators("engineer"@) == "engineer"@,
{
    reveal_strlit("engineer");
    lemma_without_separators_free("engineer"@);
}

proof fn great_person_spelling_3()
    ensures
        without_separators("merchant"@) == "merchant"@,
{
    reveal_strlit("merchant");
    lemma_without_separators_free("merchant"@);
}

proof fn great_person_spelling_4()
    ensures
        without_separators("musician"@) == "musician"@,
{
    reveal_strlit("musician");
    lemma_without_separators_free("musician"@);
}

proof fn great_person_spelling_5()
    ensures
        without_separators("artist"@) == "artist"@,
{
    reveal_strlit("artist");
    lemma_without_separators_free("artist"@);
}

proof fn great_person_spelling_6()
    ensures
        without_separators("writer"@) == "writer"@,
{
    reveal_strlit("writer");
    lemma_without_separators_free("writer"@);
}

proof fn great_person_spelling_7()
    ensures
        without_separators("prophet"@) == "prophet"@,
{
    reveal_strlit("prophet");
    lemma_without_separators_free("prophet"@);
}

proof fn great_person_spelling_8()
    ensures
        without_separators("scientist"@) == "scientist"@,
{
    reveal_strlit("scientist");
    lemma_without_separators_free("scientist"@);
}

proof fn great_person_spelling_9()
    ensures
        lowercase_text("General"@) == "general"@,
{
    reveal_strlit("General");
    reveal_strlit("general");
    assert(vstd::utf8::is_ascii_chars("General"@));
    assert(ascii_lowercased("General"@) =~= "general"@);
}

proof fn great_person_spelling_10()
    ensures
        lowercase_text("Admiral"@) == "admiral"@,
{
    reveal_strlit("Admiral");
    reveal_strlit("admiral");
    assert(vstd::utf8::is_ascii_chars("Admiral"@));
    assert(ascii_lowercased("Admiral"@) =~= "admiral"@);
}

proof fn great_person_spelling_11()
    ensures
        lowercase_text("Engineer"@) == "engineer"@,
{
    reveal_strlit("Engineer");
    reveal_strlit("engineer");
    assert(vstd::utf8::is_ascii_chars("Engineer"@));
    assert(ascii_lowercased("Engineer"@) =~= "engineer"@);
}

proof fn great_person_spelling_12()
    ensures
        lowercase_text("Merchant"@) == "merchant"@,
{
    reveal_strlit("Merchant");
    reveal_strlit("merchant");
    assert(vstd::utf8::is_ascii_chars("Merchant"@));
    assert(ascii_lowercased("Merchant"@) =~= "merchant"@);
}

proof fn great_person_spelling_13()
    ensures
        lowercase_text("Musician"@) == "musician"@,
{
    reveal_strlit("Musician");
    reveal_strlit("musician");
    assert(vstd::utf8::is_ascii_chars("Musician"@));
    assert(ascii_lowercased("Musician"@) =~= "musician"@);
}

proof fn great_person_spelling_14()
    ensures
        lowercase_text("Artist"@) == "artist"@,
{
    reveal_strlit("Artist");
    reveal_strlit("artist");
    assert(vstd::utf8::is_ascii_chars("Artist"@));
    assert(ascii_lowercased("Artist"@) =~= "artist"@);
}

proof fn great_person_spelling_15()
    ensures
        lowercase_text("Writer"@) == "writer"@,
{
    reveal_strlit("Writer");
    reveal_strlit("writer");
    assert(vstd::utf8::is_ascii_chars("Writer"@));
    assert(ascii_lowercased("Writer"@) =~= "writer"@);
}

proof fn great_person_spelling_16()
    ensures
        lowercase_text("Prophet"@) == "prophet"@,
{
    reveal_strlit("Prophet");
    reveal_strlit("prophet");
    assert(vstd::utf8::is_ascii_chars("Prophet"@));
    assert(ascii_lowercased("Prophet"@) =~= "prophet"@);
}

proof fn great_person_spelling_17()
    ensures
        lowercase_text("Scientist"@) == "scientist"@,
{
    reveal_strlit("Scientist");
    reveal_strlit("scientist");
    assert(vstd::utf8::is_ascii_chars("Scientist"@));
    assert(ascii_lowercased("Scientist"@) =~= "scientist"@);
}

/// Every spelling a great person type is accepted under is its own name, lower-cased.
pub proof fn great_person_spellings_name_their_kind(l: Seq<char>)
    ensures
        great_person_named(l) matches Some(k) ==> without_separators(l) == lowercase_text(great_person_type_name(k)),
{
    great_person_spelling_0();
    great_person_spelling_1();
    great_person_spelling_2();
    great_person_spelling_3();
    great_person_spelling_4();
    great_person_spelling_5();
    great_person_spelling_6();
    great_person_spelling_7();
    great_person_spelling_8();
    great_person_spelling_9();
    great_person_spelling_10();
    great_person_spelling_11();
    great_person_spelling_12();
    great_person_spelling_13();
    great_person_spelling_14();
    great_person_spelling_15();
    great_person_spelling_16();
    great_person_spelling_17();
}

} // verus!
