//! Friends graph: one row per directed (requester, target) pair; reads
//! orient each row from the reader's side.

use vstd::prelude::*;

use crate::accounts::player::{parse_player_id_text, player_id_key, player_id_text, PlayerId};
use crate::number::spec_parse_hex_u64;
use crate::text::{chars_of, chars_eq, is_word};

verus! {

#[derive(Debug, Clone, Copy, PartialEq, Eq)]
pub enum FriendStatus {
    /// I sent a request, the other party hasn't responded yet.
    PendingOutgoing,
    /// They sent a request, I haven't accepted yet.
    PendingIncoming,
    /// Mutual.
    Accepted,
    /// I blocked them. They never see this row.
    Blocked,
}

pub open spec fn status_name(s: FriendStatus) -> Seq<char> {
    match s {
        FriendStatus::PendingOutgoing => "pending_outgoing"@,
        FriendStatus::PendingIncoming => "pending_incoming"@,
        FriendStatus::Accepted => "accepted"@,
        FriendStatus::Blocked => "blocked"@,
    }
}

impl FriendStatus {
    pub fn as_str(self) -> (r: &'static str)
        ensures
            r@ == status_name(self),
    {
        match self {
            FriendStatus::PendingOutgoing => "pending_outgoing",
            FriendStatus::PendingIncoming => "pending_incoming",
            FriendStatus::Accepted => "accepted",
            FriendStatus::Blocked => "blocked",
        }
    }
}

/// A relationship seen from one player's side.
#[derive(Debug, Clone)]
pub struct FriendRow {
    pub other_player_id: PlayerId,
    pub status: FriendStatus,
    pub created_at: String,
}

/// A stored relationship: `a` asked `b`; `status` is `pending`,
/// `accepted` or `blocked`.
#[derive(Debug, Clone)]
pub struct FriendLink {
    pub a_player_id: String,
    pub b_player_id: String,
    pub status: String,
    pub created_at: String,
}

/// The row `link` shows to the player whose storage key is `me`: the other
/// side's id and the status oriented from `me`. A player blocked by the
/// other side, an unknown status, or an unreadable id shows nothing.
pub open spec fn oriented(me: Seq<char>, link: FriendLink) -> Option<(PlayerId, FriendStatus)> {
    let i_am_a = link.a_player_id@ == me;
    let other = if i_am_a {
        link.b_player_id@
    } else {
        link.a_player_id@
    };
    let st = link.status@;
    let status = if st == "pending"@ && i_am_a {
        Some(FriendStatus::PendingOutgoing)
    } else if st == "pending"@ {
        Some(FriendStatus::PendingIncoming)
    } else if st == "accepted"@ {
        Some(FriendStatus::Accepted)
    } else if st == "blocked"@ && i_am_a {
        Some(FriendStatus::Blocked)
    } else {
        None
    };
    match (spec_parse_hex_u64(other), status) {
        (Some(v), Some(s)) => Some((PlayerId(v), s)),
        _ => None,
    }
}

/// The rows the links show to `me`, in the links' order.
pub open spec fn oriented_all(me: Seq<char>, links: Seq<FriendLink>) -> Seq<(PlayerId, FriendStatus, Seq<char>)>
    decreases links.len(),
{
    if links.len() == 0 {
        Seq::empty()
    } else {
        let rest = oriented_all(me, links.drop_last());
        match oriented(me, links.last()) {
            Some((p, s)) => rest.push((p, s, links.last().created_at@)),
            None => rest,
        }
    }
}

fn orient(me: &Vec<char>, link: &FriendLink) -> (r: Option<(PlayerId, FriendStatus)>)
    ensures
        r == oriented(me@, *link),
{
    let a = chars_of(link.a_player_id.as_str());
    let i_am_a = chars_eq(&a, me);
    let other = if i_am_a {
        parse_player_id_text(link.b_player_id.as_str())
    } else {
        parse_player_id_text(link.a_player_id.as_str())
    };
    let st = chars_of(link.status.as_str());
    let status = if is_word(&st, "pending") && i_am_a {
        Some(FriendStatus::PendingOutgoing)
    } else if is_word(&st, "pending") {
        Some(FriendStatus::PendingIncoming)
    } else if is_word(&st, "accepted") {
        Some(FriendStatus::Accepted)
    } else if is_word(&st, "blocked") && i_am_a {
        Some(FriendStatus::Blocked)
    } else {
        None
    };
    match (other, status) {
        (Some(p), Some(s)) => Some((p, s)),
        _ => None,
    }
}

/// Every relationship touching `me`, oriented from `me`'s side.
pub fn friend_rows_for(me: PlayerId, links: Vec<FriendLink>) -> (rows: Vec<FriendRow>)
    ensures
        rows@.len() == oriented_all(player_id_key(me.0), links@).len(),
        forall|k: int|
            0 <= k < rows@.len() ==> {
                let e = #[trigger] oriented_all(player_id_key(me.0), links@)[k];
                rows@[k].other_player_id == e.0 && rows@[k].status == e.1 && rows@[k].created_at@ == e.2
            },
{
    let me_text = player_id_text(&me);
    let me_v = chars_of(me_text.as_str());
    let ghost key = player_id_key(me.0);
    let mut rows: Vec<FriendRow> = Vec::new();
    let mut i: usize = 0;
    while i < links.len()
        invariant
            i <= links@.len(),
            me_v@ == key,
            key == player_id_key(me.0),
            rows@.len() == oriented_all(key, links@.take(i as int)).len(),
            forall|k: int|
                0 <= k < rows@.len() ==> {
                    let e = #[trigger] oriented_all(key, links@.take(i as int))[k];
                    rows@[k].other_player_id == e.0 && rows@[k].status == e.1 && rows@[k].created_at@ == e.2
                },
        decreases links.len() - i,
    {
        let ghost prev = oriented_all(key, links@.take(i as int));
        assert(links@.take(i + 1).drop_last() =~= links@.take(i as int));
        assert(links@.take(i + 1).last() == links@[i as int]);
        let link = &links[i];
        match orient(&me_v, link) {
            Some((p, s)) => {
                rows.push(FriendRow { other_player_id: p, status: s, created_at: link.created_at.clone() });
                assert(oriented_all(key, links@.take(i + 1)) == prev.push((p, s, link.created_at@)));
            },
            None => {
                assert(oriented_all(key, links@.take(i + 1)) == prev);
            },
        }
        i += 1;
    }
    assert(links@.take(links@.len() as int) =~= links@);
    rows
}

/// Why a friends-store call failed.
#[derive(Debug)]
pub enum FriendsError {
    /// The store failed.
    Sqlx(sqlx::Error),
    /// The request is not allowed; says why.
    Invalid(&'static str),
    /// No pending request to accept.
    NotFound,
    /// A relationship between the two players exists already.
    AlreadyExists,
}

/// Whether `from` may ask `to`: nobody befriends themselves.
pub fn request_precheck(from: PlayerId, to: PlayerId) -> (r: Result<(), FriendsError>)
    ensures
        from == to ==> (r matches Err(FriendsError::Invalid(m)) && m@ == "cannot friend yourself"@),
        from != to ==> r is Ok,
{
    if from.0 == to.0 {
        return Err(FriendsError::Invalid("cannot friend yourself"));
    }
    Ok(())
}

/// A request is refused when the pair already has a relationship, in
/// either direction (`existing` counts those rows).
pub fn request_conflict(existing: i64) -> (r: Result<(), FriendsError>)
    ensures
        existing > 0 ==> r matches Err(FriendsError::AlreadyExists),
        existing <= 0 ==> r is Ok,
{
    if existing > 0 {
        return Err(FriendsError::AlreadyExists);
    }
    Ok(())
}

/// Accepting succeeds when the store turned a pending request into a
/// friendship; `NotFound` when there was none.
pub fn accept_outcome(rows_affected: u64) -> (r: Result<(), FriendsError>)
    ensures
        rows_affected == 0 ==> r matches Err(FriendsError::NotFound),
        rows_affected != 0 ==> r is Ok,
{
    if rows_affected == 0 {
        return Err(FriendsError::NotFound);
    }
    Ok(())
}

} // verus!
