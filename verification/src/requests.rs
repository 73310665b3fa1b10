//! Rules the request handlers share: which workspace and team a request acts
//! in, and what a listing marks as current.

use vstd::prelude::*;
use crate::text::{chars_of, equals};

verus! {

/// Why a request cannot be served; each has the message the client is shown.
#[derive(Clone, Copy, Debug, PartialEq, Eq, Structural)]
pub enum RequestError {
    /// No workspace is selected.
    NoWorkspace,
    /// No team is selected.
    NoTeam,
    /// The user has no current team to leave.
    NoCurrentTeam,
    /// A team-scoped request without a team.
    NoTeamSpecified,
    /// Neither the request nor the context names a workspace.
    NoWorkspaceGiven,
}

impl RequestError {
    /// The message the client is shown.
    pub fn message(&self) -> (m: &'static str)
        ensures
            *self == RequestError::NoWorkspace ==> m@ == "请先选择工作空间"@,
            *self == RequestError::NoTeam ==> m@ == "请先选择团队"@,
            *self == RequestError::NoCurrentTeam ==> m@ == "当前没有选择团队"@,
            *self == RequestError::NoTeamSpecified ==> m@ == "未指定团队"@,
            *self == RequestError::NoWorkspaceGiven ==> m@ == "未提供工作空间 UUID"@,
    {
        match self {
            RequestError::NoWorkspace => "请先选择工作空间",
            RequestError::NoTeam => "请先选择团队",
            RequestError::NoCurrentTeam => "当前没有选择团队",
            RequestError::NoTeamSpecified => "未指定团队",
            RequestError::NoWorkspaceGiven => "未提供工作空间 UUID",
        }
    }
}

/// The workspace a workspace-scoped request acts in: the selected one.
pub fn require_workspace(current: Option<u128>) -> (r: Result<u128, RequestError>)
    ensures
        match current {
            Some(w) => r == Ok::<u128, RequestError>(w),
            None => r == Err::<u128, RequestError>(RequestError::NoWorkspace),
        },
{
    match current {
        Some(w) => Ok(w),
        None => Err(RequestError::NoWorkspace),
    }
}

/// The team a team-scoped request acts in: the selected one.
pub fn require_team(current: Option<u128>) -> (r: Result<u128, RequestError>)
    ensures
        match current {
            Some(t) => r == Ok::<u128, RequestError>(t),
            None => r == Err::<u128, RequestError>(RequestError::NoTeam),
        },
{
    match current {
        Some(t) => Ok(t),
        None => Err(RequestError::NoTeam),
    }
}

/// The team a user leaves: the user's current team.
pub fn require_current_team(current: Option<u128>) -> (r: Result<u128, RequestError>)
    ensures
        match current {
            Some(t) => r == Ok::<u128, RequestError>(t),
            None => r == Err::<u128, RequestError>(RequestError::NoCurrentTeam),
        },
{
    match current {
        Some(t) => Ok(t),
        None => Err(RequestError::NoCurrentTeam),
    }
}

/// The workspace whose quota is asked for: the one the request names, else
/// the selected one.
pub fn quota_workspace(requested: Option<u128>, current: Option<u128>) -> (r: Result<u128, RequestError>)
    ensures
        match requested {
            Some(w) => r == Ok::<u128, RequestError>(w),
            None => match current {
                Some(w) => r == Ok::<u128, RequestError>(w),
                None => r == Err::<u128, RequestError>(RequestError::NoWorkspaceGiven),
            },
        },
{
    match requested {
        Some(w) => Ok(w),
        None => match current {
            Some(w) => Ok(w),
            None => Err(RequestError::NoWorkspaceGiven),
        },
    }
}

/// The workspace to record as current when a user lists workspaces without
/// having one selected: the first of the list, if any.
pub fn default_workspace(current: Option<u128>, workspaces: &Vec<u128>) -> (r: Option<u128>)
    ensures
        current is None && workspaces@.len() > 0 ==> r == Some(workspaces@[0]),
        !(current is None && workspaces@.len() > 0) ==> r is None,
{
    if current.is_none() && workspaces.len() > 0 {
        Some(workspaces[0])
    } else {
        None
    }
}

/// For each listed identifier, whether it is the current one.
pub fn current_flags(uuids: &Vec<u128>, current: Option<u128>) -> (flags: Vec<bool>)
    ensures
        flags@.len() == uuids@.len(),
        forall|i: int| 0 <= i < uuids@.len() ==> #[trigger] flags@[i] == (current == Some(uuids@[i])),
{
    let mut flags: Vec<bool> = Vec::new();
    let mut i: usize = 0;
    while i < uuids.len()
        invariant
            i <= uuids@.len(),
            flags@.len() == i,
            forall|j: int| 0 <= j < i ==> #[trigger] flags@[j] == (current == Some(uuids@[j])),
        decreases uuids@.len() - i,
    {
        let is_current = match current {
            Some(c) => c == uuids[i],
            None => false,
        };
        flags.push(is_current);
        i = i + 1;
    }
    flags
}

/// At most one entry of a listing of distinct identifiers is marked current.
pub proof fn law_at_most_one_current(uuids: Seq<u128>, current: Option<u128>, i: int, j: int)
    requires
        0 <= i < uuids.len(),
        0 <= j < uuids.len(),
        i != j,
        uuids[i] != uuids[j],
    ensures
        !((current == Some(uuids[i])) && (current == Some(uuids[j]))),
{
}

/// Which installed extensions a listing shows.
#[derive(Clone, Copy, Debug, PartialEq, Eq, Structural)]
pub enum InstalledScope {
    /// The user's own extensions only.
    UserOnly,
    /// This team's extensions only.
    TeamOnly(u128),
    /// The user's extensions, and the team's when there is a current team.
    Everything(Option<u128>),
}

/// The scope of an installed-extensions listing: `user` or `personal` is the
/// user's own, `team` is the current team's (which must exist), anything
/// else is both.
pub fn installed_scope(scope: &str, current_team: Option<u128>) -> (r: Result<InstalledScope, RequestError>)
    ensures
        (scope@ == "user"@ || scope@ == "personal"@) ==> r == Ok::<InstalledScope, RequestError>(InstalledScope::UserOnly),
        !(scope@ == "user"@ || scope@ == "personal"@) && scope@ == "team"@ ==> match current_team {
            Some(t) => r == Ok::<InstalledScope, RequestError>(InstalledScope::TeamOnly(t)),
            None => r == Err::<InstalledScope, RequestError>(RequestError::NoTeamSpecified),
        },
        !(scope@ == "user"@ || scope@ == "personal"@ || scope@ == "team"@)
            ==> r == Ok::<InstalledScope, RequestError>(InstalledScope::Everything(current_team)),
{
    let s = chars_of(scope);
    if equals(&s, "user") || equals(&s, "personal") {
        Ok(InstalledScope::UserOnly)
    } else if equals(&s, "team") {
        match current_team {
            Some(t) => Ok(InstalledScope::TeamOnly(t)),
            None => Err(RequestError::NoTeamSpecified),
        }
    } else {
        Ok(InstalledScope::Everything(current_team))
    }
}

/// The offset of a 1-based page: `(page - 1) * page_size`.
pub fn page_offset(page: i64, page_size: i64) -> (o: i64)
    requires
        i64::MIN <= (page - 1) * page_size <= i64::MAX,
        page - 1 >= i64::MIN,
    ensures
        o == (page - 1) * page_size,
{
    (page - 1) * page_size
}

} // verus!
