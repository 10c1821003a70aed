//! Friend search: how a query is read, and which accounts it may show.
//!
//! A query that reads as a player id looks that one account up; any other
//! query is matched against identity keys, verbatim and lower-cased. Only
//! accounts that let themselves be found by id are returned.

use vstd::prelude::*;

use crate::accounts::player::{
    parse_player_id_query, player_id_display, spec_parse_player_id_query, Account, PlayerId,
};
use crate::text::{chars_of, spec_to_lowercase, string_of, to_lowercase, trim, trim_chars};

verus! {

/// One search result.
#[derive(Debug, Clone)]
pub struct SearchHit {
    pub player_id: PlayerId,
    /// `email`, `oidc`, `atproto` or `player_id`.
    pub kind: String,
    pub label: String,
}

/// How a search query is answered.
#[derive(Debug, Clone)]
pub enum SearchPlan {
    /// A blank query finds nothing.
    Nothing,
    /// The query names a player id: look that account up.
    ById(PlayerId),
    /// Match identity keys equal to either text (the trimmed query, and its
    /// lower-case form).
    ByKey { exact: String, lower: String },
}

/// The plan for a query, given by its characters.
pub open spec fn search_plan_ok(query: Seq<char>, plan: SearchPlan) -> bool {
    let q = trim(query);
    if q.len() == 0 {
        plan is Nothing
    } else {
        match spec_parse_player_id_query(q) {
            Some(id) => plan == SearchPlan::ById(id),
            None => plan matches SearchPlan::ByKey { exact, lower } && exact@ == q && lower@
                == spec_to_lowercase(q),
        }
    }
}

/// Reads a friend-search query.
pub fn search_plan(query: &str) -> (plan: SearchPlan)
    ensures
        search_plan_ok(query@, plan),
{
    let q = string_of(&trim_chars(&chars_of(query)));
    if q.as_str().is_empty() {
        return SearchPlan::Nothing;
    }
    match parse_player_id_query(q.as_str()) {
        Some(id) => SearchPlan::ById(id),
        None => {
            let lower = to_lowercase(q.as_str());
            SearchPlan::ByKey { exact: q, lower }
        },
    }
}

/// The hit an account found by id gives: none when it opted out of being
/// found.
pub fn hit_by_id(account: &Account) -> (r: Option<SearchHit>)
    ensures
        !account.prefs.discoverable_by_id ==> r is None,
        account.prefs.discoverable_by_id ==> (r matches Some(h) && h.player_id == account.player_id
            && h.kind@ == "player_id"@ && h.label@ == player_id_display(account.player_id.0)),
{
    if !account.prefs.discoverable_by_id {
        return None;
    }
    Some(SearchHit {
        player_id: account.player_id,
        kind: "player_id".to_owned(),
        label: account.player_id.display(),
    })
}

/// The hit an identity row of `account` gives: its kind and label, none
/// when the account opted out of being found.
pub fn hit_by_identity(account: &Account, kind: String, label: String) -> (r: Option<SearchHit>)
    ensures
        !account.prefs.discoverable_by_id ==> r is None,
        account.prefs.discoverable_by_id ==> r == Some(
            SearchHit { player_id: account.player_id, kind, label },
        ),
{
    if !account.prefs.discoverable_by_id {
        return None;
    }
    Some(SearchHit { player_id: account.player_id, kind, label })
}

} // verus!
