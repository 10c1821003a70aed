//! Games index: the durable record of every game a player owns or joined.

use vstd::prelude::*;

use crate::accounts::player::{parse_player_id_text, PlayerId};
use crate::number::spec_parse_hex_u64;
use crate::text::{chars_of, is_word};

verus! {

/// Why a games-index call failed.
#[derive(Debug)]
pub enum GameStoreError {
    /// The storage backend failed.
    Sqlx(sqlx::Error),
    /// No such game (or its stored owner id is unreadable).
    NotFound,
    /// The caller is not a member of this game.
    Forbidden,
}

/// Where a game stands, as the lobby lists it.
#[derive(Debug, Clone, Copy, PartialEq, Eq)]
pub enum GameStatus {
    YourTurn,
    Waiting,
    Completed,
    Archived,
}

/// The stored name of a status.
pub open spec fn status_db_name(s: GameStatus) -> Seq<char> {
    match s {
        GameStatus::YourTurn => "your_turn"@,
        GameStatus::Waiting => "waiting"@,
        GameStatus::Completed => "completed"@,
        GameStatus::Archived => "archived"@,
    }
}

/// The status a stored name reads back as; anything unknown is `Waiting`.
pub open spec fn status_of_db_name(s: Seq<char>) -> GameStatus {
    if s == "your_turn"@ {
        GameStatus::YourTurn
    } else if s == "completed"@ {
        GameStatus::Completed
    } else if s == "archived"@ {
        GameStatus::Archived
    } else {
        GameStatus::Waiting
    }
}

impl GameStatus {
    pub fn as_db_str(self) -> (r: &'static str)
        ensures
            r@ == status_db_name(self),
    {
        match self {
            GameStatus::YourTurn => "your_turn",
            GameStatus::Waiting => "waiting",
            GameStatus::Completed => "completed",
            GameStatus::Archived => "archived",
        }
    }

    pub fn parse(s: &str) -> (r: Self)
        ensures
            r == status_of_db_name(s@),
    {
        let v = chars_of(s);
        if is_word(&v, "your_turn") {
            GameStatus::YourTurn
        } else if is_word(&v, "completed") {
            GameStatus::Completed
        } else if is_word(&v, "archived") {
            GameStatus::Archived
        } else {
            GameStatus::Waiting
        }
    }
}

/// Every status reads back from its stored name as itself.
pub proof fn game_status_round_trip(s: GameStatus)
    ensures
        status_of_db_name(status_db_name(s)) == s,
{
    reveal_strlit("your_turn");
    reveal_strlit("waiting");
    reveal_strlit("completed");
    reveal_strlit("archived");
    match s {
        GameStatus::YourTurn => {},
        GameStatus::Waiting => {
            assert("waiting"@ != "your_turn"@) by {
                if "waiting"@ == "your_turn"@ {
                    assert("waiting"@.len() == "your_turn"@.len());
                }
            }
            assert("waiting"@ != "completed"@) by {
                if "waiting"@ == "completed"@ {
                    assert("waiting"@.len() == "completed"@.len());
                }
            }
            assert("waiting"@ != "archived"@) by {
                if "waiting"@ == "archived"@ {
                    assert("waiting"@.len() == "archived"@.len());
                }
            }
        },
        GameStatus::Completed => {
            assert("completed"@ != "your_turn"@) by {
                if "completed"@ == "your_turn"@ {
                    assert("completed"@[0] == "your_turn"@[0]);
                }
            }
        },
        GameStatus::Archived => {
            assert("archived"@ != "your_turn"@) by {
                if "archived"@ == "your_turn"@ {
                    assert("archived"@.len() == "your_turn"@.len());
                }
            }
            assert("archived"@ != "completed"@) by {
                if "archived"@ == "completed"@ {
                    assert("archived"@.len() == "completed"@.len());
                }
            }
        },
    }
}

/// The durable game record.
#[derive(Debug, Clone)]
pub struct GameRecord {
    pub game_id: String,
    pub owner_player_id: PlayerId,
    pub name: String,
    pub leader: String,
    pub civ_id: String,
    pub difficulty: String,
    pub players_human: u32,
    pub players_ai: u32,
    pub map_type: String,
    pub map_size: String,
    pub seed: String,
    pub turn: u32,
    pub era: String,
    pub score: i32,
    pub status: GameStatus,
    pub server_url: String,
    /// Bearer token the lobby hands to the in-game server; never sent to the
    /// browser.
    pub server_token: String,
    pub last_played_at: Option<String>,
    pub created_at: String,
    pub notes: String,
}

/// Every column the new-game wizard fixes at creation time.
#[derive(Debug, Clone)]
pub struct NewGame {
    pub owner_player_id: PlayerId,
    pub name: String,
    pub leader: String,
    pub civ_id: String,
    pub difficulty: String,
    pub players_human: u32,
    pub players_ai: u32,
    pub map_type: String,
    pub map_size: String,
    pub seed: String,
    pub server_url: String,
    pub server_token: String,
}

/// A stored games row: ids as text, counts as 64-bit integers.
#[derive(Debug, Clone)]
pub struct GameRow {
    pub game_id: String,
    pub owner_player_id: String,
    pub name: String,
    pub leader: String,
    pub civ_id: String,
    pub difficulty: String,
    pub players_human: i64,
    pub players_ai: i64,
    pub map_type: String,
    pub map_size: String,
    pub seed: String,
    pub turn: i64,
    pub era: String,
    pub score: i64,
    pub status: String,
    pub server_url: String,
    pub server_token: String,
    pub last_played_at: Option<String>,
    pub created_at: String,
    pub deleted_at: Option<String>,
    pub notes: String,
}

/// A game record from its stored row. The owner id must be a hexadecimal
/// `u64` (else `NotFound`); the counts are narrowed as `as` casts narrow;
/// the status is read by `GameStatus::parse`.
pub fn game_record_from_row(r: GameRow) -> (res: Result<GameRecord, GameStoreError>)
    ensures
        match spec_parse_hex_u64(r.owner_player_id@) {
            None => res matches Err(GameStoreError::NotFound),
            Some(owner) => res matches Ok(g) && g.owner_player_id == PlayerId(owner) && g.game_id == r.game_id
                && g.name == r.name && g.leader == r.leader && g.civ_id == r.civ_id && g.difficulty
                == r.difficulty && g.players_human == r.players_human as u32 && g.players_ai
                == r.players_ai as u32 && g.map_type == r.map_type && g.map_size == r.map_size && g.seed
                == r.seed && g.turn == r.turn as u32 && g.era == r.era && g.score == r.score as i32 && g.status
                == status_of_db_name(r.status@) && g.server_url == r.server_url && g.server_token
                == r.server_token && g.last_played_at == r.last_played_at && g.created_at == r.created_at
                && g.notes == r.notes,
        },
{
    let owner = match parse_player_id_text(r.owner_player_id.as_str()) {
        Some(p) => p,
        None => return Err(GameStoreError::NotFound),
    };
    let status = GameStatus::parse(r.status.as_str());
    Ok(
        GameRecord {
            game_id: r.game_id,
            owner_player_id: owner,
            name: r.name,
            leader: r.leader,
            civ_id: r.civ_id,
            difficulty: r.difficulty,
            players_human: r.players_human as u32,
            players_ai: r.players_ai as u32,
            map_type: r.map_type,
            map_size: r.map_size,
            seed: r.seed,
            turn: r.turn as u32,
            era: r.era,
            score: r.score as i32,
            status,
            server_url: r.server_url,
            server_token: r.server_token,
            last_played_at: r.last_played_at,
            created_at: r.created_at,
            notes: r.notes,
        },
    )
}

/// A soft delete that changed no row: `Forbidden` when the game exists
/// (someone else owns it), `NotFound` when it does not.
pub fn soft_delete_refusal(game_exists: bool) -> (e: GameStoreError)
    ensures
        if game_exists {
            e is Forbidden
        } else {
            e is NotFound
        },
{
    if game_exists {
        GameStoreError::Forbidden
    } else {
        GameStoreError::NotFound
    }
}

/// The outcome of a notes update: `NotFound` when no live game took it.
pub fn notes_update_result(rows_affected: u64) -> (r: Result<(), GameStoreError>)
    ensures
        r is Ok <==> rows_affected > 0,
        r matches Err(e) ==> e is NotFound,
{
    if rows_affected == 0 {
        Err(GameStoreError::NotFound)
    } else {
        Ok(())
    }
}

} // verus!
