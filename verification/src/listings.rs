//! What the listings of a user's teams and workspaces answer: each entry
//! with the user's role in it, its member count and whether it is current,
//! and the default workspace recorded for a user who has none selected.

use vstd::prelude::*;
use crate::queries::param_clause;
use crate::sql::{binds_view, pieces_view, SqlPieceView, SqlQuery, SqlValue, SqlValueView};
use crate::teams::{opt_view, shown_role, team_role};

verus! {

pub const SET_CURRENT_WORKSPACE: &'static str = "UPDATE user_infos SET current_workspace_uuid = ";
pub const OF_USER: &'static str = " WHERE user_uuid = ";

/// A team of the user, as the team table gives it.
#[derive(Clone, Debug, PartialEq, Eq)]
pub struct TeamSummary {
    pub uuid: u128,
    pub name: String,
    pub description: Option<String>,
    pub owner_uuid: u128,
}

/// An entry of the user's team listing.
#[derive(Clone, Debug, PartialEq, Eq)]
pub struct TeamItem {
    pub uuid: u128,
    pub name: String,
    pub description: Option<String>,
    pub role: String,
    pub members_count: i64,
    pub is_current: bool,
}

/// A workspace of the user.
#[derive(Clone, Debug, PartialEq, Eq)]
pub struct WorkspaceSummary {
    pub uuid: u128,
    pub name: String,
    pub workspace_type: String,
}

/// An entry of the user's workspace listing.
#[derive(Clone, Debug, PartialEq, Eq)]
pub struct WorkspaceItem {
    pub uuid: u128,
    pub name: String,
    pub workspace_type: String,
    pub is_current: bool,
}

fn copy_text(s: &String) -> (r: String)
    ensures
        r@ == s@,
{
    s.clone()
}

fn copy_opt_text(s: &Option<String>) -> (r: Option<String>)
    ensures
        opt_view(r) == opt_view(*s),
{
    match s {
        Some(t) => Some(t.clone()),
        None => None,
    }
}

/// The team listing of `user`: for each team, its identifier, name and
/// description; the role `shown_role` gives from `memberships[i]` (the
/// user's membership role there, when one was found); the member count, 0
/// when it could not be read; and whether it is the `current` team.
pub fn team_items(
    teams: &Vec<TeamSummary>,
    memberships: &Vec<Option<String>>,
    counts: &Vec<Option<i64>>,
    current: Option<u128>,
    user: u128,
) -> (items: Vec<TeamItem>)
    requires
        memberships@.len() == teams@.len(),
        counts@.len() == teams@.len(),
    ensures
        items@.len() == teams@.len(),
        forall|i: int| #![trigger items@[i]] 0 <= i < teams@.len() ==> {
            &&& items@[i].uuid == teams@[i].uuid
            &&& items@[i].name@ == teams@[i].name@
            &&& opt_view(items@[i].description) == opt_view(teams@[i].description)
            &&& items@[i].role@ == shown_role(teams@[i].owner_uuid, user, opt_view(memberships@[i]))
            &&& items@[i].members_count == match counts@[i] {
                Some(c) => c,
                None => 0i64,
            }
            &&& items@[i].is_current == (current == Some(teams@[i].uuid))
        },
{
    let mut items: Vec<TeamItem> = Vec::new();
    let mut i: usize = 0;
    while i < teams.len()
        invariant
            i <= teams@.len(),
            memberships@.len() == teams@.len(),
            counts@.len() == teams@.len(),
            items@.len() == i,
            forall|j: int| #![trigger items@[j]] 0 <= j < i ==> {
                &&& items@[j].uuid == teams@[j].uuid
                &&& items@[j].name@ == teams@[j].name@
                &&& opt_view(items@[j].description) == opt_view(teams@[j].description)
                &&& items@[j].role@ == shown_role(teams@[j].owner_uuid, user, opt_view(memberships@[j]))
                &&& items@[j].members_count == match counts@[j] {
                    Some(c) => c,
                    None => 0i64,
                }
                &&& items@[j].is_current == (current == Some(teams@[j].uuid))
            },
        decreases teams@.len() - i,
    {
        let t = &teams[i];
        let role = team_role(t.owner_uuid, user, copy_opt_text(&memberships[i]));
        let members_count = match counts[i] {
            Some(c) => c,
            None => 0,
        };
        let item = TeamItem {
            uuid: t.uuid,
            name: copy_text(&t.name),
            description: copy_opt_text(&t.description),
            role,
            members_count,
            is_current: current == Some(t.uuid),
        };
        items.push(item);
        i = i + 1;
    }
    items
}

/// The workspace listing: each workspace with whether it is `current`.
pub fn workspace_items(workspaces: &Vec<WorkspaceSummary>, current: Option<u128>) -> (items: Vec<WorkspaceItem>)
    ensures
        items@.len() == workspaces@.len(),
        forall|i: int| #![trigger items@[i]] 0 <= i < workspaces@.len() ==> {
            &&& items@[i].uuid == workspaces@[i].uuid
            &&& items@[i].name@ == workspaces@[i].name@
            &&& items@[i].workspace_type@ == workspaces@[i].workspace_type@
            &&& items@[i].is_current == (current == Some(workspaces@[i].uuid))
        },
{
    let mut items: Vec<WorkspaceItem> = Vec::new();
    let mut i: usize = 0;
    while i < workspaces.len()
        invariant
            i <= workspaces@.len(),
            items@.len() == i,
            forall|j: int| #![trigger items@[j]] 0 <= j < i ==> {
                &&& items@[j].uuid == workspaces@[j].uuid
                &&& items@[j].name@ == workspaces@[j].name@
                &&& items@[j].workspace_type@ == workspaces@[j].workspace_type@
                &&& items@[j].is_current == (current == Some(workspaces@[j].uuid))
            },
        decreases workspaces@.len() - i,
    {
        let w = &workspaces[i];
        items.push(WorkspaceItem {
            uuid: w.uuid,
            name: copy_text(&w.name),
            workspace_type: copy_text(&w.workspace_type),
            is_current: current == Some(w.uuid),
        });
        i = i + 1;
    }
    items
}

/// The statement recording workspace `workspace` as `user`'s current one.
pub open spec fn set_workspace_stmt(user: u128, workspace: u128) -> (Seq<SqlPieceView>, Seq<SqlValueView>) {
    (
        param_clause(SET_CURRENT_WORKSPACE@, 1) + param_clause(OF_USER@, 2),
        seq![SqlValueView::Uuid(workspace), SqlValueView::Uuid(user)],
    )
}

/// For a user without a current workspace who has workspaces: the first of
/// them and the statement that records it as current; `None` otherwise.
pub fn default_workspace_write(user: u128, current: Option<u128>, workspaces: &Vec<WorkspaceSummary>) -> (r: Option<(u128, SqlQuery)>)
    ensures
        current is None && workspaces@.len() > 0 ==> (r matches Some((w, q)) && w == workspaces@[0].uuid
            && (pieces_view(q), binds_view(q)) == set_workspace_stmt(user, w)),
        !(current is None && workspaces@.len() > 0) ==> r is None,
{
    if current.is_none() && workspaces.len() > 0 {
        let w = workspaces[0].uuid;
        let mut q = SqlQuery::new();
        q.push_param(SET_CURRENT_WORKSPACE, SqlValue::Uuid(w));
        q.push_param(OF_USER, SqlValue::Uuid(user));
        assert(pieces_view(q) =~= set_workspace_stmt(user, w).0);
        assert(binds_view(q) =~= set_workspace_stmt(user, w).1);
        Some((w, q))
    } else {
        None
    }
}

/// The current workspace the listing shows: the recorded default when its
/// write succeeded, else the one the user had.
pub fn shown_current_workspace(current: Option<u128>, default: Option<u128>, written: bool) -> (r: Option<u128>)
    ensures
        r == match default {
            Some(w) => if written { Some(w) } else { current },
            None => current,
        },
{
    match default {
        Some(w) => if written { Some(w) } else { current },
        None => current,
    }
}

} // verus!
