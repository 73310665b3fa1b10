//! Team rules: the member listing statements, the team update statement,
//! invitation answers and the role a user is shown with.

use vstd::prelude::*;
use crate::clock::utc_now_micros;
use crate::queries::{
    keyword_value, one_if, page_clause, param_clause, push_opt_param, push_opt_param_twice,
    twice_clause, present_if, like_pattern, push_page, CLOSE, condition_binds, lacks, lemma_lacks_add,
};
use crate::sql::{binds_view, pieces_view, well_numbered, SqlPieceView, SqlQuery, SqlValue, SqlValueView};
use crate::text::chars_of;

verus! {

pub const MEMBER_COUNT: &'static str = "SELECT COUNT(*) FROM team_members tm LEFT JOIN user_infos ui ON tm.user_uuid = ui.user_uuid";
pub const MEMBER_COLUMNS: &'static str = "SELECT tm.id, tm.team_uuid, tm.workspace_uuid, tm.user_uuid, tm.role, tm.joined_at, tm.invited_by, tm.status, tm.created_at, tm.updated_at, tm.deleted_at, ui.nickname AS name, ui.email AS email, ui.avatar_hash AS avatar FROM team_members tm LEFT JOIN user_infos ui ON tm.user_uuid = ui.user_uuid";
pub const MEMBER_WHERE_TEAM: &'static str = " WHERE tm.team_uuid = ";
pub const MEMBER_LIVE: &'static str = " AND tm.deleted_at IS NULL";
pub const MEMBER_STATUS: &'static str = " AND tm.status = ";
pub const MEMBER_ACTIVE: &'static str = " AND tm.status = 'active'";
pub const MEMBER_ROLE: &'static str = " AND tm.role = ";
pub const MEMBER_KEYWORD_1: &'static str = " AND (ui.nickname ILIKE ";
pub const MEMBER_KEYWORD_2: &'static str = " OR ui.email ILIKE ";
pub const MEMBER_PAGE: &'static str = " ORDER BY CASE tm.role WHEN 'owner' THEN 1 WHEN 'admin' THEN 2 WHEN 'editor' THEN 3 ELSE 4 END, tm.joined_at LIMIT ";

/// The filters of a member listing.
#[derive(Clone, Debug, PartialEq, Eq)]
pub struct MemberFilter {
    pub team_uuid: u128,
    pub keyword: Option<String>,
    pub role: Option<String>,
    pub status: Option<String>,
}

/// Scope and conditions of a member statement: team `$1`, live rows; the
/// given status, or only active members when none is given; role; keyword
/// on nickname or e-mail.
pub open spec fn member_where(head: Seq<char>, f: MemberFilter) -> Seq<SqlPieceView> {
    let i_role = 2 + one_if(f.status is Some);
    let i_keyword = i_role + one_if(f.role is Some);
    seq![SqlPieceView::Text(head)] + param_clause(MEMBER_WHERE_TEAM@, 1) + seq![SqlPieceView::Text(MEMBER_LIVE@)]
        + (if f.status is Some {
            param_clause(MEMBER_STATUS@, 2)
        } else {
            seq![SqlPieceView::Text(MEMBER_ACTIVE@)]
        })
        + present_if(f.role is Some, param_clause(MEMBER_ROLE@, i_role))
        + present_if(f.keyword is Some, twice_clause(MEMBER_KEYWORD_1@, MEMBER_KEYWORD_2@, CLOSE@, i_keyword))
}

/// The values bound to a member statement before its page.
pub open spec fn member_binds(f: MemberFilter) -> Seq<SqlValueView> {
    seq![SqlValueView::Uuid(f.team_uuid)]
        + present_if(f.status is Some, seq![SqlValueView::Text(f.status->0@)])
        + present_if(f.role is Some, seq![SqlValueView::Text(f.role->0@)])
        + present_if(f.keyword is Some, seq![SqlValueView::Text(like_pattern(f.keyword->0@))])
}

/// The optional text filter as a bound value.
fn text_value(t: &Option<String>) -> (v: Option<SqlValue>)
    ensures
        v is Some == t is Some,
        t is Some ==> v->0@ == SqlValueView::Text(t->0@),
{
    match t {
        Some(t) => Some(SqlValue::Text(t.clone())),
        None => None,
    }
}

/// Scope and conditions of a member statement.
fn push_member_where(q: &mut SqlQuery, head: &'static str, f: &MemberFilter)
    requires
        well_numbered(*old(q)),
        old(q).binds@.len() == 0,
        pieces_view(*old(q)) == Seq::<SqlPieceView>::empty(),
    ensures
        well_numbered(*final(q)),
        pieces_view(*final(q)) == member_where(head@, *f),
        binds_view(*final(q)) == member_binds(*f),
        final(q).binds@.len() == 1 + one_if(f.status is Some) + one_if(f.role is Some) + one_if(f.keyword is Some),
{
    q.push_text(head);
    q.push_param(MEMBER_WHERE_TEAM, SqlValue::Uuid(f.team_uuid));
    q.push_text(MEMBER_LIVE);
    let ghost p0 = pieces_view(*q);
    let ghost b0 = binds_view(*q);
    match &f.status {
        Some(st) => q.push_param(MEMBER_STATUS, SqlValue::Text(st.clone())),
        None => q.push_text(MEMBER_ACTIVE),
    }
    let ghost p1 = pieces_view(*q);
    assert(p1 =~= p0 + (if f.status is Some {
        param_clause(MEMBER_STATUS@, 2)
    } else {
        seq![SqlPieceView::Text(MEMBER_ACTIVE@)]
    }));
    push_opt_param(q, MEMBER_ROLE, text_value(&f.role));
    push_opt_param_twice(q, MEMBER_KEYWORD_1, MEMBER_KEYWORD_2, CLOSE, keyword_value(&f.keyword));
    assert(pieces_view(*q) =~= member_where(head@, *f));
    assert(binds_view(*q) =~= member_binds(*f));
}

/// The number of members matching the filters: `fetch_team_member_count`.
pub fn team_member_count_query(f: &MemberFilter) -> (q: SqlQuery)
    ensures
        well_numbered(q),
        pieces_view(q) == member_where(MEMBER_COUNT@, *f),
        binds_view(q) == member_binds(*f),
{
    let mut q = SqlQuery::new();
    push_member_where(&mut q, MEMBER_COUNT, f);
    q
}

/// A page of members, owners first, then admins, editors and the rest, each
/// by joining date: `fetch_team_members`.
pub fn team_members_query(f: &MemberFilter, offset: i64, limit: i64) -> (q: SqlQuery)
    ensures
        well_numbered(q),
        pieces_view(q) == member_where(MEMBER_COLUMNS@, *f) + page_clause(
            MEMBER_PAGE@,
            2 + one_if(f.status is Some) + one_if(f.role is Some) + one_if(f.keyword is Some),
        ),
        binds_view(q) == member_binds(*f) + seq![SqlValueView::Int(limit), SqlValueView::Int(offset)],
{
    let mut q = SqlQuery::new();
    push_member_where(&mut q, MEMBER_COLUMNS, f);
    push_page(&mut q, MEMBER_PAGE, offset, limit);
    q
}

pub const TEAM_SET_ALL: &'static str = "UPDATE teams SET name = ";
pub const TEAM_SET_DESCRIPTION: &'static str = ", description = ";
pub const TEAM_SET_AVATAR: &'static str = ", avatar_hash = ";
pub const TEAM_SET_END: &'static str = ", updated_at = NOW() WHERE uuid = ";

/// The statement a team update runs. With name, description and avatar all
/// given it sets the three; with name and description it sets those two; with
/// a name but no description it sets the name alone (an avatar given then is
/// ignored); without a name no statement runs. Every statement also stamps
/// `updated_at` and selects the team by its uuid, the last placeholder.
pub open spec fn team_update(
    team: u128,
    name: Option<Seq<char>>,
    description: Option<Seq<char>>,
    avatar: Option<Seq<char>>,
) -> Option<(Seq<SqlPieceView>, Seq<SqlValueView>)> {
    match name {
        None => None,
        Some(n) => match description {
            Some(d) => match avatar {
                Some(a) => Some((
                    param_clause(TEAM_SET_ALL@, 1) + param_clause(TEAM_SET_DESCRIPTION@, 2)
                        + param_clause(TEAM_SET_AVATAR@, 3) + param_clause(TEAM_SET_END@, 4),
                    seq![SqlValueView::Text(n), SqlValueView::Text(d), SqlValueView::Text(a), SqlValueView::Uuid(team)],
                )),
                None => Some((
                    param_clause(TEAM_SET_ALL@, 1) + param_clause(TEAM_SET_DESCRIPTION@, 2)
                        + param_clause(TEAM_SET_END@, 3),
                    seq![SqlValueView::Text(n), SqlValueView::Text(d), SqlValueView::Uuid(team)],
                )),
            },
            None => Some((
                param_clause(TEAM_SET_ALL@, 1) + param_clause(TEAM_SET_END@, 2),
                seq![SqlValueView::Text(n), SqlValueView::Uuid(team)],
            )),
        },
    }
}

/// The view of an optional string.
pub open spec fn opt_view(s: Option<String>) -> Option<Seq<char>> {
    match s {
        Some(t) => Some(t@),
        None => None,
    }
}

/// The statement that updates a team's name, description and avatar, chosen
/// as `team_update` describes; `None` where no statement runs.
pub fn update_team_query(
    team: u128,
    name: Option<String>,
    description: Option<String>,
    avatar: Option<String>,
) -> (r: Option<SqlQuery>)
    ensures
        match team_update(team, opt_view(name), opt_view(description), opt_view(avatar)) {
            None => r is None,
            Some((ps, bs)) => r matches Some(q) && well_numbered(q) && pieces_view(q) == ps
                && binds_view(q) == bs,
        },
{
    let n = match name {
        Some(n) => n,
        None => return None,
    };
    let mut q = SqlQuery::new();
    q.push_param(TEAM_SET_ALL, SqlValue::Text(n));
    match description {
        Some(d) => {
            q.push_param(TEAM_SET_DESCRIPTION, SqlValue::Text(d));
            match avatar {
                Some(a) => {
                    q.push_param(TEAM_SET_AVATAR, SqlValue::Text(a));
                },
                None => {},
            }
        },
        None => {},
    }
    q.push_param(TEAM_SET_END, SqlValue::Uuid(team));
    proof {
        match team_update(team, opt_view(name), opt_view(description), opt_view(avatar)) {
            Some((ps, bs)) => {
                assert(pieces_view(q) =~= ps);
                assert(binds_view(q) =~= bs);
            },
            None => {},
        }
    }
    Some(q)
}

/// An invitation can be answered only while it is pending.
pub open spec fn invitation_pending(status: Seq<char>) -> bool {
    status == "pending"@
}

/// An invitation can be accepted while it is pending and not expired at `now`.
pub open spec fn invitation_acceptable(status: Seq<char>, expires_at: i64, now: i64) -> bool {
    invitation_pending(status) && !(expires_at < now)
}

/// Whether an invitation may be rejected: pending, expired or not.
pub fn can_reject_invitation(status: &str) -> (b: bool)
    ensures
        b == invitation_pending(status@),
{
    crate::text::equals(&chars_of(status), "pending")
}

/// Whether an invitation may be accepted at `now` (microseconds, UTC).
pub fn can_accept_invitation(status: &str, expires_at: i64, now: i64) -> (b: bool)
    ensures
        b == invitation_acceptable(status@, expires_at, now),
{
    can_reject_invitation(status) && !(expires_at < now)
}

/// Whether an invitation may be accepted now; the instant read from the
/// clock is returned with the answer.
pub fn can_accept_invitation_now(status: &str, expires_at: i64) -> (r: (bool, i64))
    ensures
        r.0 == invitation_acceptable(status@, expires_at, r.1),
{
    let now = utc_now_micros();
    (can_accept_invitation(status, expires_at, now), now)
}

/// Every invitation that can be accepted can also be rejected.
pub proof fn law_acceptable_is_rejectable(status: Seq<char>, expires_at: i64, now: i64)
    ensures
        invitation_acceptable(status, expires_at, now) ==> invitation_pending(status),
{
}

/// The role a user is shown with in a team: `owner` for the team's owner,
/// otherwise the membership's role, `member` when there is none.
pub open spec fn shown_role(owner: u128, user: u128, membership: Option<Seq<char>>) -> Seq<char> {
    if owner == user {
        "owner"@
    } else {
        match membership {
            Some(r) => r,
            None => "member"@,
        }
    }
}

/// Builds `shown_role`.
pub fn team_role(owner: u128, user: u128, membership: Option<String>) -> (r: String)
    ensures
        r@ == shown_role(owner, user, opt_view(membership)),
{
    if owner == user {
        "owner".to_owned()
    } else {
        match membership {
            Some(r) => r,
            None => "member".to_owned(),
        }
    }
}

/// The lengths of a member statement's texts, all different.
proof fn lemma_member_texts()
    ensures
        MEMBER_WHERE_TEAM@.len() == 22, MEMBER_LIVE@.len() == 26, MEMBER_STATUS@.len() == 17,
        MEMBER_ACTIVE@.len() == 25, MEMBER_ROLE@.len() == 15, MEMBER_KEYWORD_1@.len() == 24,
        MEMBER_KEYWORD_2@.len() == 19, CLOSE@.len() == 1,
        MEMBER_COLUMNS@.len() > 26, MEMBER_COUNT@.len() > 26,
{
    reveal_strlit(" WHERE tm.team_uuid = ");
    reveal_strlit(" AND tm.deleted_at IS NULL");
    reveal_strlit(" AND tm.status = ");
    reveal_strlit(" AND tm.status = 'active'");
    reveal_strlit(" AND tm.role = ");
    reveal_strlit(" AND (ui.nickname ILIKE ");
    reveal_strlit(" OR ui.email ILIKE ");
    reveal_strlit(")");
    reveal_strlit("SELECT COUNT(*) FROM team_members tm LEFT JOIN user_infos ui ON tm.user_uuid = ui.user_uuid");
    reveal_strlit("SELECT tm.id, tm.team_uuid, tm.workspace_uuid, tm.user_uuid, tm.role, tm.joined_at, tm.invited_by, tm.status, tm.created_at, tm.updated_at, tm.deleted_at, ui.nickname AS name, ui.email AS email, ui.avatar_hash AS avatar FROM team_members tm LEFT JOIN user_infos ui ON tm.user_uuid = ui.user_uuid");
}

#[verifier::rlimit(60)]
proof fn lemma_member_conditions(head: Seq<char>, f: MemberFilter)
    requires
        head.len() > 26,
    ensures
        condition_binds(member_where(head, f), member_binds(f), MEMBER_WHERE_TEAM@, SqlValueView::Uuid(f.team_uuid)),
        match f.status {
            Some(st) => condition_binds(member_where(head, f), member_binds(f), MEMBER_STATUS@, SqlValueView::Text(st@))
                && lacks(member_where(head, f), MEMBER_ACTIVE@),
            None => lacks(member_where(head, f), MEMBER_STATUS@) && !lacks(member_where(head, f), MEMBER_ACTIVE@),
        },
        match f.role {
            Some(r) => condition_binds(member_where(head, f), member_binds(f), MEMBER_ROLE@, SqlValueView::Text(r@)),
            None => lacks(member_where(head, f), MEMBER_ROLE@),
        },
        match f.keyword {
            Some(k) => condition_binds(member_where(head, f), member_binds(f), MEMBER_KEYWORD_1@, SqlValueView::Text(like_pattern(k@)))
                && condition_binds(member_where(head, f), member_binds(f), MEMBER_KEYWORD_2@, SqlValueView::Text(like_pattern(k@))),
            None => lacks(member_where(head, f), MEMBER_KEYWORD_1@) && lacks(member_where(head, f), MEMBER_KEYWORD_2@),
        },
{
    lemma_member_texts();
    let st: int = one_if(f.status is Some) as int;
    let r: int = one_if(f.role is Some) as int;
    let i_role = 2 + one_if(f.status is Some);
    let i_keyword = i_role + one_if(f.role is Some);
    let c0 = seq![SqlPieceView::Text(head), SqlPieceView::Text(MEMBER_WHERE_TEAM@), SqlPieceView::Param(1),
        SqlPieceView::Text(MEMBER_LIVE@)];
    let c1 = if f.status is Some {
        seq![SqlPieceView::Text(MEMBER_STATUS@), SqlPieceView::Param(2)]
    } else {
        seq![SqlPieceView::Text(MEMBER_ACTIVE@)]
    };
    let c2 = present_if(f.role is Some, param_clause(MEMBER_ROLE@, i_role));
    let c3 = present_if(f.keyword is Some, twice_clause(MEMBER_KEYWORD_1@, MEMBER_KEYWORD_2@, CLOSE@, i_keyword));
    let p = member_where(head, f);
    assert(p =~= c0 + c1 + c2 + c3);
    let b = member_binds(f);
    let b1 = present_if(f.status is Some, seq![SqlValueView::Text(f.status->0@)]);
    let b2 = present_if(f.role is Some, seq![SqlValueView::Text(f.role->0@)]);
    let b3 = present_if(f.keyword is Some, seq![SqlValueView::Text(like_pattern(f.keyword->0@))]);
    assert(b =~= seq![SqlValueView::Uuid(f.team_uuid)] + b1 + b2 + b3);
    assert(c1.len() == 1 + st && c2.len() == 2 * r && b1.len() == st && b2.len() == r);
    if f.role is Some {
        assert(c2 =~= seq![SqlPieceView::Text(MEMBER_ROLE@), SqlPieceView::Param(i_role as u32)]);
    }
    if f.keyword is Some {
        assert(c3 =~= seq![SqlPieceView::Text(MEMBER_KEYWORD_1@), SqlPieceView::Param(i_keyword as u32),
            SqlPieceView::Text(MEMBER_KEYWORD_2@), SqlPieceView::Param(i_keyword as u32), SqlPieceView::Text(CLOSE@)]);
    }
    assert(p[1] == SqlPieceView::Text(MEMBER_WHERE_TEAM@) && p[2] == SqlPieceView::Param(1));
    match f.status {
        Some(sv) => {
            assert(p[4] == SqlPieceView::Text(MEMBER_STATUS@) && p[5] == SqlPieceView::Param(2));
            assert(b[1] == SqlValueView::Text(sv@));
            lemma_lacks_add(c0, c1, MEMBER_ACTIVE@);
            lemma_lacks_add(c0 + c1, c2, MEMBER_ACTIVE@);
            lemma_lacks_add(c0 + c1 + c2, c3, MEMBER_ACTIVE@);
        },
        None => {
            assert(p[4] == SqlPieceView::Text(MEMBER_ACTIVE@));
            lemma_lacks_add(c0, c1, MEMBER_STATUS@);
            lemma_lacks_add(c0 + c1, c2, MEMBER_STATUS@);
            lemma_lacks_add(c0 + c1 + c2, c3, MEMBER_STATUS@);
        },
    }
    match f.role {
        Some(rv) => {
            assert(p[5 + st] == SqlPieceView::Text(MEMBER_ROLE@));
            assert(p[6 + st] == SqlPieceView::Param((2 + st) as u32));
            assert(b[1 + st] == SqlValueView::Text(rv@));
        },
        None => {
            lemma_lacks_add(c0, c1, MEMBER_ROLE@);
            lemma_lacks_add(c0 + c1, c2, MEMBER_ROLE@);
            lemma_lacks_add(c0 + c1 + c2, c3, MEMBER_ROLE@);
        },
    }
    match f.keyword {
        Some(kv) => {
            let i = 5 + st + 2 * r;
            assert(p[i] == SqlPieceView::Text(MEMBER_KEYWORD_1@));
            assert(p[i + 1] == SqlPieceView::Param((2 + st + r) as u32));
            assert(p[i + 2] == SqlPieceView::Text(MEMBER_KEYWORD_2@));
            assert(p[i + 3] == SqlPieceView::Param((2 + st + r) as u32));
            assert(b[1 + st + r] == SqlValueView::Text(like_pattern(kv@)));
        },
        None => {
            lemma_lacks_add(c0, c1, MEMBER_KEYWORD_1@);
            lemma_lacks_add(c0 + c1, c2, MEMBER_KEYWORD_1@);
            lemma_lacks_add(c0 + c1 + c2, c3, MEMBER_KEYWORD_1@);
            lemma_lacks_add(c0, c1, MEMBER_KEYWORD_2@);
            lemma_lacks_add(c0 + c1, c2, MEMBER_KEYWORD_2@);
            lemma_lacks_add(c0 + c1 + c2, c3, MEMBER_KEYWORD_2@);
        },
    }
}

/// Every filter of a member listing (and of its count) filters on its own
/// column: the team is the scope; a given status is bound to the
/// `tm.status` condition, and without one only active members are listed;
/// role and keyword pattern (on nickname and e-mail) are bound to their own
/// conditions; a role or keyword that is not given adds no condition.
pub proof fn law_member_filters_on_their_columns(f: MemberFilter)
    ensures
        forall|head: Seq<char>| #![trigger member_where(head, f)] head == MEMBER_COLUMNS@ || head == MEMBER_COUNT@ ==> {
            &&& condition_binds(member_where(head, f), member_binds(f), " WHERE tm.team_uuid = "@, SqlValueView::Uuid(f.team_uuid))
            &&& match f.status {
                Some(st) => condition_binds(member_where(head, f), member_binds(f), " AND tm.status = "@, SqlValueView::Text(st@))
                    && lacks(member_where(head, f), " AND tm.status = 'active'"@),
                None => lacks(member_where(head, f), " AND tm.status = "@) && !lacks(member_where(head, f), " AND tm.status = 'active'"@),
            }
            &&& match f.role {
                Some(r) => condition_binds(member_where(head, f), member_binds(f), " AND tm.role = "@, SqlValueView::Text(r@)),
                None => lacks(member_where(head, f), " AND tm.role = "@),
            }
            &&& match f.keyword {
                Some(k) => condition_binds(member_where(head, f), member_binds(f), " AND (ui.nickname ILIKE "@, SqlValueView::Text(like_pattern(k@)))
                    && condition_binds(member_where(head, f), member_binds(f), " OR ui.email ILIKE "@, SqlValueView::Text(like_pattern(k@))),
                None => lacks(member_where(head, f), " AND (ui.nickname ILIKE "@) && lacks(member_where(head, f), " OR ui.email ILIKE "@),
            }
        },
{
    lemma_member_texts();
    lemma_member_conditions(MEMBER_COLUMNS@, f);
    lemma_member_conditions(MEMBER_COUNT@, f);
}

/// The role a user is shown with: `owner` in a team they own, whatever
/// their membership says; elsewhere their membership's role, `member` when
/// none was found.
pub proof fn law_shown_role(owner: u128, user: u128, membership: Option<Seq<char>>)
    ensures
        shown_role(user, user, membership) == "owner"@,
        owner != user ==> shown_role(owner, user, Some(membership->0)) == membership->0,
        owner != user ==> shown_role(owner, user, None) == "member"@,
{
}
} // verus!
