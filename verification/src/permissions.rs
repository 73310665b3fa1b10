//! Access rules: group permissions (read, write, manage) and workspace quotas.

use vstd::prelude::*;
use crate::sql::{binds_view, pieces_view, well_numbered, SqlPieceView, SqlQuery, SqlValue, SqlValueView};
use crate::teams::opt_view;
use crate::text::{chars_of, equals};

verus! {

/// Whether a granted permission of type `granted` satisfies a request for
/// `required`: `read` is satisfied by any grant, `write` by `write` or
/// `manage`, `manage` only by `manage`; any other request by nothing.
pub open spec fn grant_satisfies(granted: Seq<char>, required: Seq<char>) -> bool {
    if required == "read"@ {
        true
    } else if required == "write"@ {
        granted == "write"@ || granted == "manage"@
    } else if required == "manage"@ {
        granted == "manage"@
    } else {
        false
    }
}

/// A stronger permission satisfies every request a weaker one satisfies:
/// `manage` implies `write`, which implies `read`.
pub proof fn law_permissions_nest(granted: Seq<char>)
    ensures
        grant_satisfies(granted, "manage"@) ==> grant_satisfies(granted, "write"@),
        grant_satisfies(granted, "write"@) ==> grant_satisfies(granted, "read"@),
{
    reveal_strlit("read");
    reveal_strlit("write");
    reveal_strlit("manage");
    assert("manage"@.len() != "read"@.len());
    assert("manage"@.len() != "write"@.len());
    assert("write"@.len() != "read"@.len());
}

/// The permission requests that a grant can satisfy.
pub open spec fn known_request(required: Seq<char>) -> bool {
    required == "read"@ || required == "write"@ || required == "manage"@
}

pub const PROBE_READ: &'static str = "SELECT EXISTS (SELECT 1 FROM group_member_permissions WHERE group_uuid = ";
pub const PROBE_WORKSPACE: &'static str = " AND workspace_uuid = ";
pub const PROBE_USER: &'static str = " AND user_uuid = ";
pub const PROBE_ANY: &'static str = ")";
pub const PROBE_WRITE: &'static str = " AND permission_type IN ('write', 'manage'))";
pub const PROBE_MANAGE: &'static str = " AND permission_type = 'manage')";

/// What deciding a group permission takes.
#[derive(Clone, Debug, PartialEq, Eq)]
pub enum GroupPermissionStep {
    /// Decided without further lookup.
    Decided(bool),
    /// Decided by whether this existence check finds a grant.
    Probe(SqlQuery),
}

/// The existence check for a grant satisfying `required`, bound to group
/// `$1`, workspace `$2`, user `$3`.
pub open spec fn probe_pieces(required: Seq<char>) -> Seq<SqlPieceView> {
    seq![
        SqlPieceView::Text(PROBE_READ@),
        SqlPieceView::Param(1),
        SqlPieceView::Text(PROBE_WORKSPACE@),
        SqlPieceView::Param(2),
        SqlPieceView::Text(PROBE_USER@),
        SqlPieceView::Param(3),
        SqlPieceView::Text(
            if required == "read"@ {
                PROBE_ANY@
            } else if required == "write"@ {
                PROBE_WRITE@
            } else {
                PROBE_MANAGE@
            },
        ),
    ]
}

/// A row of the group permission table: a grant of `permission_type` to
/// `user` on `group` in `workspace`.
pub struct GrantRow {
    pub group: u128,
    pub workspace: u128,
    pub user: u128,
    pub permission_type: Seq<char>,
}

/// The permission types a probe's closing text admits: the bare close admits
/// every row, the `IN ('write', 'manage')` tail those two types, the
/// `= 'manage'` tail only `manage`.
pub open spec fn tail_admits(tail: Seq<char>, permission_type: Seq<char>) -> bool {
    if tail == ")"@ {
        true
    } else if tail == " AND permission_type IN ('write', 'manage'))"@ {
        permission_type == "write"@ || permission_type == "manage"@
    } else if tail == " AND permission_type = 'manage')"@ {
        permission_type == "manage"@
    } else {
        false
    }
}

/// What an existence check built by `group_permission_step` finds in the
/// table `rows`: a row of the group, workspace and user bound to `$1`, `$2`,
/// `$3` whose type its closing text admits.
pub open spec fn probe_finds(pieces: Seq<SqlPieceView>, binds: Seq<SqlValueView>, rows: Seq<GrantRow>) -> bool {
    &&& pieces.len() == 7
    &&& binds.len() == 3
    &&& pieces[6] matches SqlPieceView::Text(tail)
    &&& binds[0] matches SqlValueView::Uuid(g)
    &&& binds[1] matches SqlValueView::Uuid(w)
    &&& binds[2] matches SqlValueView::Uuid(u)
    &&& exists|i: int| #![trigger rows[i]] 0 <= i < rows.len() && rows[i].group == g && rows[i].workspace == w
        && rows[i].user == u && tail_admits(tail, rows[i].permission_type)
}

/// The answer a step gives over the table `rows`: a decided answer as it is,
/// a probe by what it finds.
pub open spec fn step_answer(s: GroupPermissionStep, rows: Seq<GrantRow>) -> bool {
    match s {
        GroupPermissionStep::Decided(b) => b,
        GroupPermissionStep::Probe(q) => probe_finds(pieces_view(q), binds_view(q), rows),
    }
}

/// Whether `user` holds `required` on `group` in `workspace`: as an owner or
/// admin of the group's team, or by a grant in `rows` that satisfies it.
pub open spec fn holds_group_permission(
    is_owner_or_admin: bool,
    group: u128,
    workspace: u128,
    user: u128,
    required: Seq<char>,
    rows: Seq<GrantRow>,
) -> bool {
    is_owner_or_admin || (known_request(required) && exists|i: int| #![trigger rows[i]] 0 <= i < rows.len()
        && rows[i].group == group && rows[i].workspace == workspace && rows[i].user == user
        && grant_satisfies(rows[i].permission_type, required))
}

/// Each probe tail admits exactly the grants that satisfy its request.
pub proof fn lemma_probe_tail_meaning(required: Seq<char>, permission_type: Seq<char>)
    requires
        known_request(required),
    ensures
        probe_pieces(required)[6] matches SqlPieceView::Text(tail)
            && tail_admits(tail, permission_type) == grant_satisfies(permission_type, required),
{
    reveal_strlit("read");
    reveal_strlit("write");
    reveal_strlit("manage");
    reveal_strlit(")");
    reveal_strlit(" AND permission_type IN ('write', 'manage'))");
    reveal_strlit(" AND permission_type = 'manage')");
    assert(PROBE_ANY@.len() != PROBE_WRITE@.len());
    assert(PROBE_ANY@.len() != PROBE_MANAGE@.len());
    assert(PROBE_WRITE@.len() != PROBE_MANAGE@.len());
    assert("manage"@.len() != "read"@.len());
    assert("manage"@.len() != "write"@.len());
    assert("write"@.len() != "read"@.len());
}

/// Over any table of grants, group permissions nest: holding `manage` implies
/// holding `write`, which implies holding `read`; an owner or admin of the
/// group's team holds every permission.
pub proof fn law_group_permissions_nest(
    is_owner_or_admin: bool,
    group: u128,
    workspace: u128,
    user: u128,
    rows: Seq<GrantRow>,
)
    ensures
        holds_group_permission(is_owner_or_admin, group, workspace, user, "manage"@, rows)
            ==> holds_group_permission(is_owner_or_admin, group, workspace, user, "write"@, rows),
        holds_group_permission(is_owner_or_admin, group, workspace, user, "write"@, rows)
            ==> holds_group_permission(is_owner_or_admin, group, workspace, user, "read"@, rows),
        is_owner_or_admin ==> forall|required: Seq<char>|
            #[trigger] holds_group_permission(is_owner_or_admin, group, workspace, user, required, rows),
{
    assert forall|i: int| 0 <= i < rows.len() implies
        (grant_satisfies(#[trigger] rows[i].permission_type, "manage"@) ==> grant_satisfies(rows[i].permission_type, "write"@))
        && (grant_satisfies(rows[i].permission_type, "write"@) ==> grant_satisfies(rows[i].permission_type, "read"@)) by {
        law_permissions_nest(rows[i].permission_type);
    }
}

pub const ROLE_PROBE: &'static str = "SELECT EXISTS (SELECT 1 FROM team_members tm INNER JOIN groups g ON tm.team_uuid = g.team_uuid AND tm.workspace_uuid = g.workspace_uuid WHERE g.uuid = ";
pub const ROLE_GROUP_WORKSPACE: &'static str = " AND g.workspace_uuid = ";
pub const ROLE_MEMBER_WORKSPACE: &'static str = " AND tm.workspace_uuid = ";
pub const ROLE_USER: &'static str = " AND tm.user_uuid = ";
pub const ROLE_END: &'static str = " AND tm.role IN ('owner', 'admin') AND tm.deleted_at IS NULL)";

/// The check whether `$3` is a live owner or admin of the team of group
/// `$1`, in workspace `$2` (the group's and the membership's).
pub open spec fn owner_or_admin_pieces() -> Seq<SqlPieceView> {
    seq![
        SqlPieceView::Text(ROLE_PROBE@),
        SqlPieceView::Param(1),
        SqlPieceView::Text(ROLE_GROUP_WORKSPACE@),
        SqlPieceView::Param(2),
        SqlPieceView::Text(ROLE_MEMBER_WORKSPACE@),
        SqlPieceView::Param(2),
        SqlPieceView::Text(ROLE_USER@),
        SqlPieceView::Param(3),
        SqlPieceView::Text(ROLE_END@),
    ]
}

/// The first lookup of `check_group_permission`: whether the user is an
/// owner or admin of the group's team; its answer is `group_permission_step`'s
/// `is_owner_or_admin`.
pub fn owner_or_admin_query(group: u128, workspace: u128, user: u128) -> (q: SqlQuery)
    ensures
        well_numbered(q),
        pieces_view(q) == owner_or_admin_pieces(),
        binds_view(q) == seq![SqlValueView::Uuid(group), SqlValueView::Uuid(workspace), SqlValueView::Uuid(user)],
{
    let mut q = SqlQuery::new();
    q.push_param(ROLE_PROBE, SqlValue::Uuid(group));
    q.push_param(ROLE_GROUP_WORKSPACE, SqlValue::Uuid(workspace));
    q.push_repeat(ROLE_MEMBER_WORKSPACE);
    q.push_param(ROLE_USER, SqlValue::Uuid(user));
    q.push_text(ROLE_END);
    assert(pieces_view(q) =~= owner_or_admin_pieces());
    assert(binds_view(q) =~= seq![SqlValueView::Uuid(group), SqlValueView::Uuid(workspace), SqlValueView::Uuid(user)]);
    q
}

/// `check_group_permission`: owners and admins of the group's team hold
/// every permission; otherwise a known request is decided by the existence
/// check of a satisfying grant, and any other request is refused.
pub fn group_permission_step(
    is_owner_or_admin: bool,
    group: u128,
    workspace: u128,
    user: u128,
    required: &str,
) -> (s: GroupPermissionStep)
    ensures
        is_owner_or_admin ==> s == GroupPermissionStep::Decided(true),
        !is_owner_or_admin && !known_request(required@) ==> s == GroupPermissionStep::Decided(false),
        !is_owner_or_admin && known_request(required@) ==> (s matches GroupPermissionStep::Probe(q)
            && well_numbered(q) && pieces_view(q) == probe_pieces(required@)
            && binds_view(q) == seq![SqlValueView::Uuid(group), SqlValueView::Uuid(workspace), SqlValueView::Uuid(user)]),
        forall|rows: Seq<GrantRow>| #[trigger] step_answer(s, rows)
            == holds_group_permission(is_owner_or_admin, group, workspace, user, required@, rows),
{
    if is_owner_or_admin {
        return GroupPermissionStep::Decided(true);
    }
    let r = chars_of(required);
    let tail = if equals(&r, "read") {
        PROBE_ANY
    } else if equals(&r, "write") {
        PROBE_WRITE
    } else if equals(&r, "manage") {
        PROBE_MANAGE
    } else {
        return GroupPermissionStep::Decided(false);
    };
    let mut q = SqlQuery::new();
    q.push_param(PROBE_READ, SqlValue::Uuid(group));
    q.push_param(PROBE_WORKSPACE, SqlValue::Uuid(workspace));
    q.push_param(PROBE_USER, SqlValue::Uuid(user));
    q.push_text(tail);
    assert(pieces_view(q) =~= probe_pieces(required@));
    assert(binds_view(q) =~= seq![SqlValueView::Uuid(group), SqlValueView::Uuid(workspace), SqlValueView::Uuid(user)]);
    assert forall|rows: Seq<GrantRow>| #[trigger] step_answer(GroupPermissionStep::Probe(q), rows)
        == holds_group_permission(is_owner_or_admin, group, workspace, user, required@, rows) by {
        assert forall|i: int| 0 <= i < rows.len() implies
            (tail_admits(tail@, #[trigger] rows[i].permission_type) == grant_satisfies(rows[i].permission_type, required@)) by {
            lemma_probe_tail_meaning(required@, rows[i].permission_type);
        }
    }
    GroupPermissionStep::Probe(q)
}

/// The permission echoed back by a permission check: the requested one when
/// it is held, none otherwise.
pub fn checked_permission_type(has_permission: bool, requested: &String) -> (r: Option<String>)
    ensures
        has_permission ==> (r matches Some(t) && t@ == requested@),
        !has_permission ==> r is None,
{
    if has_permission {
        Some(requested.clone())
    } else {
        None
    }
}

/// A workspace's quota: limits and current usage.
#[derive(Clone, Copy, Debug, PartialEq, Eq, Structural)]
pub struct WorkspaceQuota {
    pub max_environments: i32,
    pub used_environments: i32,
    pub max_team_members: i32,
    pub used_team_members: i32,
    pub max_proxies: i32,
    pub used_proxies: i32,
    pub max_rpa_tasks: i32,
    pub used_rpa_tasks: i32,
}

/// Whether one more resource of `kind` fits in the quota: usage below the
/// limit. Unknown kinds and workspaces without a quota never have room.
pub open spec fn quota_has_room(q: Option<WorkspaceQuota>, kind: Seq<char>) -> bool {
    match q {
        None => false,
        Some(q) => if kind == "environments"@ {
            q.used_environments < q.max_environments
        } else if kind == "proxies"@ {
            q.used_proxies < q.max_proxies
        } else if kind == "team_members"@ {
            q.used_team_members < q.max_team_members
        } else if kind == "rpa_tasks"@ {
            q.used_rpa_tasks < q.max_rpa_tasks
        } else {
            false
        },
    }
}

/// Decides `quota_has_room`: `check_quota`.
pub fn check_quota(q: Option<WorkspaceQuota>, kind: &str) -> (b: bool)
    ensures
        b == quota_has_room(q, kind@),
{
    let k = chars_of(kind);
    match q {
        None => false,
        Some(q) => if equals(&k, "environments") {
            q.used_environments < q.max_environments
        } else if equals(&k, "proxies") {
            q.used_proxies < q.max_proxies
        } else if equals(&k, "team_members") {
            q.used_team_members < q.max_team_members
        } else if equals(&k, "rpa_tasks") {
            q.used_rpa_tasks < q.max_rpa_tasks
        } else {
            false
        },
    }
}

/// What the permission listing shows of a grantee: their nickname and
/// e-mail address, when their record was found.
#[derive(Clone, Debug, PartialEq, Eq)]
pub struct UserContact {
    pub nickname: Option<String>,
    pub email: String,
}

/// The grantee fields of a listed permission: the nickname (when the record
/// was found and has one) as the user name, and the e-mail address (when the
/// record was found).
pub fn grantee_fields(contact: &Option<UserContact>) -> (r: (Option<String>, Option<String>))
    ensures
        match *contact {
            Some(c) => opt_view(r.0) == opt_view(c.nickname) && opt_view(r.1) == Some(c.email@),
            None => r.0 is None && r.1 is None,
        },
{
    match contact {
        Some(c) => {
            let name = match &c.nickname {
                Some(n) => Some(n.clone()),
                None => None,
            };
            (name, Some(c.email.clone()))
        },
        None => (None, None),
    }
}

/// Each kind of resource has room exactly when its own usage is below its
/// own limit, whatever the other kinds' figures are; an unknown kind, or a
/// workspace without a quota, has no room.
pub proof fn law_quota_room_per_kind(q: WorkspaceQuota, other: WorkspaceQuota, kind: Seq<char>)
    ensures
        quota_has_room(Some(q), seq!['e', 'n', 'v', 'i', 'r', 'o', 'n', 'm', 'e', 'n', 't', 's'])
            <==> q.used_environments < q.max_environments,
        quota_has_room(Some(q), seq!['p', 'r', 'o', 'x', 'i', 'e', 's']) <==> q.used_proxies < q.max_proxies,
        quota_has_room(Some(q), seq!['t', 'e', 'a', 'm', '_', 'm', 'e', 'm', 'b', 'e', 'r', 's'])
            <==> q.used_team_members < q.max_team_members,
        quota_has_room(Some(q), seq!['r', 'p', 'a', '_', 't', 'a', 's', 'k', 's']) <==> q.used_rpa_tasks < q.max_rpa_tasks,
        !quota_has_room(None, kind),
        (kind == seq!['t', 'e', 'a', 'm', '_', 'm', 'e', 'm', 'b', 'e', 'r', 's'] && other.used_team_members
            == q.used_team_members && other.max_team_members == q.max_team_members)
            ==> quota_has_room(Some(other), kind) == quota_has_room(Some(q), kind),
{
    reveal_strlit("environments");
    reveal_strlit("proxies");
    reveal_strlit("team_members");
    reveal_strlit("rpa_tasks");
    assert("environments"@ =~= seq!['e', 'n', 'v', 'i', 'r', 'o', 'n', 'm', 'e', 'n', 't', 's']);
    assert("proxies"@ =~= seq!['p', 'r', 'o', 'x', 'i', 'e', 's']);
    assert("team_members"@ =~= seq!['t', 'e', 'a', 'm', '_', 'm', 'e', 'm', 'b', 'e', 'r', 's']);
    assert("rpa_tasks"@ =~= seq!['r', 'p', 'a', '_', 't', 'a', 's', 'k', 's']);
}

} // verus!
