//! Typed identifiers of game entities, each a ULID.

use ulid::Ulid;
use vstd::prelude::*;

verus! {

/// `ulid::Ulid`: a 128-bit lexicographically sortable identifier. Carried,
/// never read.
#[verifier::external_type_specification]
#[verifier::external_body]
pub struct ExUlid(Ulid);

/// The id of a city.
#[derive(Debug, Clone, Copy, PartialEq, Eq, Hash, PartialOrd, Ord)]
pub struct CityId(pub Ulid);

impl CityId {
    /// The id holding `ulid`.
    pub fn from_ulid(ulid: Ulid) -> (id: Self)
        ensures
            id.0 == ulid,
    {
        CityId(ulid)
    }

    /// The ULID inside.
    pub fn as_ulid(&self) -> (u: Ulid)
        ensures
            u == self.0,
    {
        self.0
    }
}

/// The id of an unit.
#[derive(Debug, Clone, Copy, PartialEq, Eq, Hash, PartialOrd, Ord)]
pub struct UnitId(pub Ulid);

impl UnitId {
    /// The id holding `ulid`.
    pub fn from_ulid(ulid: Ulid) -> (id: Self)
        ensures
            id.0 == ulid,
    {
        UnitId(ulid)
    }

    /// The ULID inside.
    pub fn as_ulid(&self) -> (u: Ulid)
        ensures
            u == self.0,
    {
        self.0
    }
}

/// The id of a civ.
#[derive(Debug, Clone, Copy, PartialEq, Eq, Hash, PartialOrd, Ord)]
pub struct CivId(pub Ulid);

impl CivId {
    /// The id holding `ulid`.
    pub fn from_ulid(ulid: Ulid) -> (id: Self)
        ensures
            id.0 == ulid,
    {
        CivId(ulid)
    }

    /// The ULID inside.
    pub fn as_ulid(&self) -> (u: Ulid)
        ensures
            u == self.0,
    {
        self.0
    }
}

/// The id of a tech.
#[derive(Debug, Clone, Copy, PartialEq, Eq, Hash, PartialOrd, Ord)]
pub struct TechId(pub Ulid);

impl TechId {
    /// The id holding `ulid`.
    pub fn from_ulid(ulid: Ulid) -> (id: Self)
        ensures
            id.0 == ulid,
    {
        TechId(ulid)
    }

    /// The ULID inside.
    pub fn as_ulid(&self) -> (u: Ulid)
        ensures
            u == self.0,
    {
        self.0
    }
}

/// The id of a civic.
#[derive(Debug, Clone, Copy, PartialEq, Eq, Hash, PartialOrd, Ord)]
pub struct CivicId(pub Ulid);

impl CivicId {
    /// The id holding `ulid`.
    pub fn from_ulid(ulid: Ulid) -> (id: Self)
        ensures
            id.0 == ulid,
    {
        CivicId(ulid)
    }

    /// The ULID inside.
    pub fn as_ulid(&self) -> (u: Ulid)
        ensures
            u == self.0,
    {
        self.0
    }
}

/// The id of a government.
#[derive(Debug, Clone, Copy, PartialEq, Eq, Hash, PartialOrd, Ord)]
pub struct GovernmentId(pub Ulid);

impl GovernmentId {
    /// The id holding `ulid`.
    pub fn from_ulid(ulid: Ulid) -> (id: Self)
        ensures
            id.0 == ulid,
    {
        GovernmentId(ulid)
    }

    /// The ULID inside.
    pub fn as_ulid(&self) -> (u: Ulid)
        ensures
            u == self.0,
    {
        self.0
    }
}

/// The id of a policy.
#[derive(Debug, Clone, Copy, PartialEq, Eq, Hash, PartialOrd, Ord)]
pub struct PolicyId(pub Ulid);

impl PolicyId {
    /// The id holding `ulid`.
    pub fn from_ulid(ulid: Ulid) -> (id: Self)
        ensures
            id.0 == ulid,
    {
        PolicyId(ulid)
    }

    /// The ULID inside.
    pub fn as_ulid(&self) -> (u: Ulid)
        ensures
            u == self.0,
    {
        self.0
    }
}

/// The id of a religion.
#[derive(Debug, Clone, Copy, PartialEq, Eq, Hash, PartialOrd, Ord)]
pub struct ReligionId(pub Ulid);

impl ReligionId {
    /// The id holding `ulid`.
    pub fn from_ulid(ulid: Ulid) -> (id: Self)
        ensures
            id.0 == ulid,
    {
        ReligionId(ulid)
    }

    /// The ULID inside.
    pub fn as_ulid(&self) -> (u: Ulid)
        ensures
            u == self.0,
    {
        self.0
    }
}

/// The id of a wonder.
#[derive(Debug, Clone, Copy, PartialEq, Eq, Hash, PartialOrd, Ord)]
pub struct WonderId(pub Ulid);

impl WonderId {
    /// The id holding `ulid`.
    pub fn from_ulid(ulid: Ulid) -> (id: Self)
        ensures
            id.0 == ulid,
    {
        WonderId(ulid)
    }

    /// The ULID inside.
    pub fn as_ulid(&self) -> (u: Ulid)
        ensures
            u == self.0,
    {
        self.0
    }
}

/// The id of a great person.
#[derive(Debug, Clone, Copy, PartialEq, Eq, Hash, PartialOrd, Ord)]
pub struct GreatPersonId(pub Ulid);

impl GreatPersonId {
    /// The id holding `ulid`.
    pub fn from_ulid(ulid: Ulid) -> (id: Self)
        ensures
            id.0 == ulid,
    {
        GreatPersonId(ulid)
    }

    /// The ULID inside.
    pub fn as_ulid(&self) -> (u: Ulid)
        ensures
            u == self.0,
    {
        self.0
    }
}

/// The id of a promotion.
#[derive(Debug, Clone, Copy, PartialEq, Eq, Hash, PartialOrd, Ord)]
pub struct PromotionId(pub Ulid);

impl PromotionId {
    /// The id holding `ulid`.
    pub fn from_ulid(ulid: Ulid) -> (id: Self)
        ensures
            id.0 == ulid,
    {
        PromotionId(ulid)
    }

    /// The ULID inside.
    pub fn as_ulid(&self) -> (u: Ulid)
        ensures
            u == self.0,
    {
        self.0
    }
}

/// The id of an improvement.
#[derive(Debug, Clone, Copy, PartialEq, Eq, Hash, PartialOrd, Ord)]
pub struct ImprovementId(pub Ulid);

impl ImprovementId {
    /// The id holding `ulid`.
    pub fn from_ulid(ulid: Ulid) -> (id: Self)
        ensures
            id.0 == ulid,
    {
        ImprovementId(ulid)
    }

    /// The ULID inside.
    pub fn as_ulid(&self) -> (u: Ulid)
        ensures
            u == self.0,
    {
        self.0
    }
}

/// The id of a resource.
#[derive(Debug, Clone, Copy, PartialEq, Eq, Hash, PartialOrd, Ord)]
pub struct ResourceId(pub Ulid);

impl ResourceId {
    /// The id holding `ulid`.
    pub fn from_ulid(ulid: Ulid) -> (id: Self)
        ensures
            id.0 == ulid,
    {
        ResourceId(ulid)
    }

    /// The ULID inside.
    pub fn as_ulid(&self) -> (u: Ulid)
        ensures
            u == self.0,
    {
        self.0
    }
}

/// The id of a road.
#[derive(Debug, Clone, Copy, PartialEq, Eq, Hash, PartialOrd, Ord)]
pub struct RoadId(pub Ulid);

impl RoadId {
    /// The id holding `ulid`.
    pub fn from_ulid(ulid: Ulid) -> (id: Self)
        ensures
            id.0 == ulid,
    {
        RoadId(ulid)
    }

    /// The ULID inside.
    pub fn as_ulid(&self) -> (u: Ulid)
        ensures
            u == self.0,
    {
        self.0
    }
}

/// The id of an agreement.
#[derive(Debug, Clone, Copy, PartialEq, Eq, Hash, PartialOrd, Ord)]
pub struct AgreementId(pub Ulid);

impl AgreementId {
    /// The id holding `ulid`.
    pub fn from_ulid(ulid: Ulid) -> (id: Self)
        ensures
            id.0 == ulid,
    {
        AgreementId(ulid)
    }

    /// The ULID inside.
    pub fn as_ulid(&self) -> (u: Ulid)
        ensures
            u == self.0,
    {
        self.0
    }
}

/// The id of a grievance.
#[derive(Debug, Clone, Copy, PartialEq, Eq, Hash, PartialOrd, Ord)]
pub struct GrievanceId(pub Ulid);

impl GrievanceId {
    /// The id holding `ulid`.
    pub fn from_ulid(ulid: Ulid) -> (id: Self)
        ensures
            id.0 == ulid,
    {
        GrievanceId(ulid)
    }

    /// The ULID inside.
    pub fn as_ulid(&self) -> (u: Ulid)
        ensures
            u == self.0,
    {
        self.0
    }
}

/// The id of a governor.
#[derive(Debug, Clone, Copy, PartialEq, Eq, Hash, PartialOrd, Ord)]
pub struct GovernorId(pub Ulid);

impl GovernorId {
    /// The id holding `ulid`.
    pub fn from_ulid(ulid: Ulid) -> (id: Self)
        ensures
            id.0 == ulid,
    {
        GovernorId(ulid)
    }

    /// The ULID inside.
    pub fn as_ulid(&self) -> (u: Ulid)
        ensures
            u == self.0,
    {
        self.0
    }
}

/// The id of a belief.
#[derive(Debug, Clone, Copy, PartialEq, Eq, Hash, PartialOrd, Ord)]
pub struct BeliefId(pub Ulid);

impl BeliefId {
    /// The id holding `ulid`.
    pub fn from_ulid(ulid: Ulid) -> (id: Self)
        ensures
            id.0 == ulid,
    {
        BeliefId(ulid)
    }

    /// The ULID inside.
    pub fn as_ulid(&self) -> (u: Ulid)
        ensures
            u == self.0,
    {
        self.0
    }
}

/// The id of a victory.
#[derive(Debug, Clone, Copy, PartialEq, Eq, Hash, PartialOrd, Ord)]
pub struct VictoryId(pub Ulid);

impl VictoryId {
    /// The id holding `ulid`.
    pub fn from_ulid(ulid: Ulid) -> (id: Self)
        ensures
            id.0 == ulid,
    {
        VictoryId(ulid)
    }

    /// The ULID inside.
    pub fn as_ulid(&self) -> (u: Ulid)
        ensures
            u == self.0,
    {
        self.0
    }
}

/// The id of an unit type.
#[derive(Debug, Clone, Copy, PartialEq, Eq, Hash, PartialOrd, Ord)]
pub struct UnitTypeId(pub Ulid);

impl UnitTypeId {
    /// The id holding `ulid`.
    pub fn from_ulid(ulid: Ulid) -> (id: Self)
        ensures
            id.0 == ulid,
    {
        UnitTypeId(ulid)
    }

    /// The ULID inside.
    pub fn as_ulid(&self) -> (u: Ulid)
        ensures
            u == self.0,
    {
        self.0
    }
}

/// The id of a district type.
#[derive(Debug, Clone, Copy, PartialEq, Eq, Hash, PartialOrd, Ord)]
pub struct DistrictTypeId(pub Ulid);

impl DistrictTypeId {
    /// The id holding `ulid`.
    pub fn from_ulid(ulid: Ulid) -> (id: Self)
        ensures
            id.0 == ulid,
    {
        DistrictTypeId(ulid)
    }

    /// The ULID inside.
    pub fn as_ulid(&self) -> (u: Ulid)
        ensures
            u == self.0,
    {
        self.0
    }
}

/// The id of a building.
#[derive(Debug, Clone, Copy, PartialEq, Eq, Hash, PartialOrd, Ord)]
pub struct BuildingId(pub Ulid);

impl BuildingId {
    /// The id holding `ulid`.
    pub fn from_ulid(ulid: Ulid) -> (id: Self)
        ensures
            id.0 == ulid,
    {
        BuildingId(ulid)
    }

    /// The ULID inside.
    pub fn as_ulid(&self) -> (u: Ulid)
        ensures
            u == self.0,
    {
        self.0
    }
}

/// The id of a trade route.
#[derive(Debug, Clone, Copy, PartialEq, Eq, Hash, PartialOrd, Ord)]
pub struct TradeRouteId(pub Ulid);

impl TradeRouteId {
    /// The id holding `ulid`.
    pub fn from_ulid(ulid: Ulid) -> (id: Self)
        ensures
            id.0 == ulid,
    {
        TradeRouteId(ulid)
    }

    /// The ULID inside.
    pub fn as_ulid(&self) -> (u: Ulid)
        ensures
            u == self.0,
    {
        self.0
    }
}

/// The id of an era.
#[derive(Debug, Clone, Copy, PartialEq, Eq, Hash, PartialOrd, Ord)]
pub struct EraId(pub Ulid);

impl EraId {
    /// The id holding `ulid`.
    pub fn from_ulid(ulid: Ulid) -> (id: Self)
        ensures
            id.0 == ulid,
    {
        EraId(ulid)
    }

    /// The ULID inside.
    pub fn as_ulid(&self) -> (u: Ulid)
        ensures
            u == self.0,
    {
        self.0
    }
}

/// The id of a terrain.
#[derive(Debug, Clone, Copy, PartialEq, Eq, Hash, PartialOrd, Ord)]
pub struct TerrainId(pub Ulid);

impl TerrainId {
    /// The id holding `ulid`.
    pub fn from_ulid(ulid: Ulid) -> (id: Self)
        ensures
            id.0 == ulid,
    {
        TerrainId(ulid)
    }

    /// The ULID inside.
    pub fn as_ulid(&self) -> (u: Ulid)
        ensures
            u == self.0,
    {
        self.0
    }
}

/// The id of a feature.
#[derive(Debug, Clone, Copy, PartialEq, Eq, Hash, PartialOrd, Ord)]
pub struct FeatureId(pub Ulid);

impl FeatureId {
    /// The id holding `ulid`.
    pub fn from_ulid(ulid: Ulid) -> (id: Self)
        ensures
            id.0 == ulid,
    {
        FeatureId(ulid)
    }

    /// The ULID inside.
    pub fn as_ulid(&self) -> (u: Ulid)
        ensures
            u == self.0,
    {
        self.0
    }
}

/// The id of an edge feature.
#[derive(Debug, Clone, Copy, PartialEq, Eq, Hash, PartialOrd, Ord)]
pub struct EdgeFeatureId(pub Ulid);

impl EdgeFeatureId {
    /// The id holding `ulid`.
    pub fn from_ulid(ulid: Ulid) -> (id: Self)
        ensures
            id.0 == ulid,
    {
        EdgeFeatureId(ulid)
    }

    /// The ULID inside.
    pub fn as_ulid(&self) -> (u: Ulid)
        ensures
            u == self.0,
    {
        self.0
    }
}

/// The id of a natural wonder.
#[derive(Debug, Clone, Copy, PartialEq, Eq, Hash, PartialOrd, Ord)]
pub struct NaturalWonderId(pub Ulid);

impl NaturalWonderId {
    /// The id holding `ulid`.
    pub fn from_ulid(ulid: Ulid) -> (id: Self)
        ensures
            id.0 == ulid,
    {
        NaturalWonderId(ulid)
    }

    /// The ULID inside.
    pub fn as_ulid(&self) -> (u: Ulid)
        ensures
            u == self.0,
    {
        self.0
    }
}

/// The id of a game.
#[derive(Debug, Clone, Copy, PartialEq, Eq, Hash, PartialOrd, Ord)]
pub struct GameId(pub Ulid);

impl GameId {
    /// The id holding `ulid`.
    pub fn from_ulid(ulid: Ulid) -> (id: Self)
        ensures
            id.0 == ulid,
    {
        GameId(ulid)
    }

    /// The ULID inside.
    pub fn as_ulid(&self) -> (u: Ulid)
        ensures
            u == self.0,
    {
        self.0
    }
}

/// The id of a civ template.
#[derive(Debug, Clone, Copy, PartialEq, Eq, Hash, PartialOrd, Ord)]
pub struct CivTemplateId(pub Ulid);

impl CivTemplateId {
    /// The id holding `ulid`.
    pub fn from_ulid(ulid: Ulid) -> (id: Self)
        ensures
            id.0 == ulid,
    {
        CivTemplateId(ulid)
    }

    /// The ULID inside.
    pub fn as_ulid(&self) -> (u: Ulid)
        ensures
            u == self.0,
    {
        self.0
    }
}

} // verus!
