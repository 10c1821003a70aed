//! Command-line surface of the game client: the subcommands and the
//! arguments each one takes. Paths are carried as strings.

use vstd::prelude::*;

verus! {


// ── Top-level CLI ────────────────────────────────────────────────────────────

#[derive(Debug, Clone, PartialEq, Eq)]
pub struct Cli {
    pub command: Command,
}

#[derive(Debug, Clone, PartialEq, Eq)]
pub enum Command {
    /// Create a new game and write initial state to disk
    NewGame {
        /// Path to write the new game file
        game_file: String,
        /// RNG seed
        seed: u64,
        /// Map width
        width: u32,
        /// Map height
        height: u32,
        /// Human player civ names (can specify multiple)
        player: Vec<String>,
        /// AI player civ names (can specify multiple)
        ai: Vec<String>,
        /// Victory types to enable (score, culture, domination, religious, science, diplomatic)
        victory: Vec<String>,
    },
    /// Perform a single game action
    Action {
        /// Path to the game state file
        game_file: String,
        /// Player performing the action
        player: String,
        action: ActionKind,
    },
    /// End a player's turn
    EndTurn {
        /// Path to the game state file
        game_file: String,
        /// Player ending their turn
        player: String,
    },
    /// Export player-visible state (fog-of-war filtered)
    View {
        /// Path to the game state file
        game_file: String,
        /// Player whose view to export
        player: String,
    },
    /// Read-only queries against the game state
    Status {
        /// Path to the game state file
        game_file: String,
        /// Player perspective (for fog-of-war filtering)
        player: String,
        kind: StatusKind,
    },
    /// List available items
    List {
        /// Path to the game state file
        game_file: String,
        /// Player whose available items to list
        player: String,
        kind: ListKind,
    },
    /// Interactive REPL for an existing game file
    Repl {
        /// Path to the game state file
        game_file: String,
        /// Human player name
        player: String,
    },
    /// Legacy interactive REPL (backward compat)
    Play,
    /// Legacy demo mode
    Demo,
    /// Legacy AI demo mode
    AiDemo {
        /// Number of turns to simulate
        turns: u32,
        /// RNG seed for terrain generation
        seed: u64,
        /// Print the board every N turns; 0 = only at start and end
        board_every: u32,
    },
}

// ── Action subcommands ───────────────────────────────────────────────────────

#[derive(Debug, Clone, PartialEq, Eq)]
pub enum ActionKind {
    // ── Movement & Combat ────────────────────────────────────────────────

    /// Move a unit to a hex coordinate
    Move {
        unit: String,
        to_q: i32,
        to_r: i32,
    },
    /// Attack a target unit
    Attack {
        unit: String,
        target: String,
    },
    /// Bombard a target unit from a city
    CityBombard {
        city: String,
        target: String,
    },
    /// Theological combat between religious units
    TheologicalCombat {
        attacker: String,
        defender: String,
    },
    /// Promote a unit
    PromoteUnit {
        unit: String,
        promotion: String,
    },
    /// Perform with a Rock Band unit
    RockBandPerform {
        unit: String,
    },

    // ── City & Production ────────────────────────────────────────────────

    /// Found a city with a settler unit
    FoundCity {
        unit: String,
        name: String,
    },
    /// Queue a production item in a city
    Build {
        city: String,
        item: String,
    },
    /// Cancel the current production in a city
    CancelProduction {
        city: String,
    },
    /// Place a district at a hex coordinate
    PlaceDistrict {
        city: String,
        district: String,
        q: i32,
        r: i32,
    },
    /// Place an improvement at a hex coordinate
    PlaceImprovement {
        coord_q: i32,
        coord_r: i32,
        improvement: String,
        builder: Option<String>,
    },
    /// Place a road at a hex coordinate using a builder unit
    PlaceRoad {
        unit: String,
        q: i32,
        r: i32,
    },
    /// Assign a citizen to work a tile in a city
    AssignCitizen {
        city: String,
        q: i32,
        r: i32,
        lock: bool,
    },
    /// Unassign a citizen from a tile in a city
    UnassignCitizen {
        city: String,
        q: i32,
        r: i32,
    },
    /// Claim a tile for a city
    ClaimTile {
        city: String,
        q: i32,
        r: i32,
        force: bool,
    },
    /// Reassign a tile from one city to another
    ReassignTile {
        from_city: String,
        to_city: String,
        q: i32,
        r: i32,
    },

    // ── Tech & Civics ────────────────────────────────────────────────────

    /// Queue a technology for research
    Research {
        tech: String,
    },
    /// Set the current civic to research
    StudyCivic {
        civic: String,
    },
    /// Adopt a government
    AdoptGovernment {
        name: String,
    },
    /// Assign a policy card
    AssignPolicy {
        policy: String,
    },

    // ── Diplomacy ────────────────────────────────────────────────────────

    /// Declare war on another civilization
    DeclareWar {
        target: String,
    },
    /// Make peace with another civilization
    MakePeace {
        target: String,
    },
    /// Form an alliance with another civilization
    FormAlliance {
        target: String,
        alliance_type: String,
    },

    // ── Trade ────────────────────────────────────────────────────────────

    /// Assign a trade route via a trader unit
    AssignTradeRoute {
        unit: String,
        dest_city: String,
    },
    /// Establish a trade route via a trader unit
    EstablishTradeRoute {
        unit: String,
        dest_city: String,
    },

    // ── Religion ─────────────────────────────────────────────────────────

    /// Found a pantheon with a chosen belief
    FoundPantheon {
        belief: String,
    },
    /// Found a religion with a Great Prophet
    FoundReligion {
        prophet: String,
        name: String,
        beliefs: Vec<String>,
    },
    /// Spread religion with a missionary or apostle
    SpreadReligion {
        unit: String,
    },
    /// Evangelize a belief with an apostle
    EvangelizeBelief {
        apostle: String,
        belief: String,
    },
    /// Launch an inquisition with an apostle
    LaunchInquisition {
        apostle: String,
    },
    /// Remove heresy with an inquisitor
    RemoveHeresy {
        inquisitor: String,
    },
    /// Heal nearby units with a guru
    GuruHeal {
        guru: String,
    },
    /// Purchase an item with faith in a city
    PurchaseWithFaith {
        city: String,
        item: String,
    },

    // ── Great People ─────────────────────────────────────────────────────

    /// Retire a Great Person for their unique ability
    RetireGreatPerson {
        person: String,
    },
    /// Create a Great Work with a Great Person
    CreateGreatWork {
        person: String,
    },
    /// Recruit a Great Person with gold/points
    RecruitGreatPerson {
        person_type: String,
    },
    /// Recruit a Great Person with faith
    RecruitGreatPersonFaith {
        person_type: String,
    },

    // ── Governors ────────────────────────────────────────────────────────

    /// Assign a governor to a city
    AssignGovernor {
        governor: String,
        city: String,
    },
    /// Promote a governor with a specific promotion
    PromoteGovernor {
        governor: String,
        promotion: String,
    },

    // ── Victory ──────────────────────────────────────────────────────────

    /// Complete a science victory milestone
    CompleteScienceMilestone,

    // ── Barbarians ───────────────────────────────────────────────────────

    /// Hire a barbarian from a camp
    HireBarbarian {
        camp_q: i32,
        camp_r: i32,
    },
    /// Bribe a barbarian camp
    BribeBarbarian {
        camp_q: i32,
        camp_r: i32,
    },
    /// Incite a barbarian camp against a target civilization
    InciteBarbarian {
        camp_q: i32,
        camp_r: i32,
        target: String,
    },
    /// Raid a barbarian camp with a unit
    RaidBarbarian {
        unit: String,
        camp_q: i32,
        camp_r: i32,
    },
    /// Clear a barbarian camp
    ClearBarbarian {
        camp_q: i32,
        camp_r: i32,
    },
}

// ── Status subcommands ───────────────────────────────────────────────────────

#[derive(Debug, Clone, PartialEq, Eq)]
pub enum StatusKind {
    /// Show scores for all civilizations
    Scores,
    /// Show details for a specific city
    City {
        id: String,
    },
    /// Show details for a specific unit
    Unit {
        id: String,
    },
    /// Show details for a specific tile
    Tile {
        q: i32,
        r: i32,
    },
    /// Show diplomatic relations
    Diplomacy,
    /// Show World Congress state
    Congress,
    /// Show yield summary
    Yields,
    /// Show researched and available technologies
    Techs,
    /// Show researched and available civics
    Civics,
}

// ── List subcommands ─────────────────────────────────────────────────────────

#[derive(Debug, Clone, PartialEq, Eq)]
pub enum ListKind {
    /// List all units
    Units,
    /// List all cities
    Cities,
    /// List available production items for a city
    Production {
        city: String,
    },
    /// List available Great People
    GreatPeople,
    /// List active trade routes
    Routes,
    /// List governors and their assignments
    Governors,
    /// List buildings
    Buildings,
    /// List improvements
    Improvements,
}
} // verus!
