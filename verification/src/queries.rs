//! The statements whose text depends on the filters a listing is asked for:
//! environments, the recycle bin, team members and user messages. Each
//! optional filter adds one condition with the next placeholder number.

use vstd::prelude::*;
use crate::sql::{
    binds_view, pieces_view, well_numbered, SqlPieceView, SqlQuery, SqlValue,
    SqlValueView,
};
use crate::text::push_char;

verus! {

/// `s` when `b` holds, the empty sequence otherwise.
pub open spec fn present_if<A>(b: bool, s: Seq<A>) -> Seq<A> {
    if b {
        s
    } else {
        Seq::empty()
    }
}

/// 1 when `b` holds, 0 otherwise.
pub open spec fn one_if(b: bool) -> nat {
    if b {
        1
    } else {
        0
    }
}

/// Literal text `t` followed by placeholder `k`.
pub open spec fn param_clause(t: Seq<char>, k: nat) -> Seq<SqlPieceView> {
    seq![SqlPieceView::Text(t), SqlPieceView::Param(k as u32)]
}

/// `t1 $k t2 $k t3`.
pub open spec fn twice_clause(t1: Seq<char>, t2: Seq<char>, t3: Seq<char>, k: nat) -> Seq<SqlPieceView> {
    seq![
        SqlPieceView::Text(t1),
        SqlPieceView::Param(k as u32),
        SqlPieceView::Text(t2),
        SqlPieceView::Param(k as u32),
        SqlPieceView::Text(t3),
    ]
}

/// `%keyword%`, the `ILIKE` pattern of a keyword search.
pub open spec fn like_pattern(k: Seq<char>) -> Seq<char> {
    seq!['%'] + k + seq!['%']
}

/// Builds `like_pattern(k@)`.
pub fn make_like_pattern(k: &str) -> (s: String)
    ensures
        s@ == like_pattern(k@),
{
    let mut s = String::new();
    push_char(&mut s, '%');
    s.append(k);
    push_char(&mut s, '%');
    assert(s@ =~= like_pattern(k@));
    s
}

pub const ENV_COLUMNS: &'static str = "SELECT DISTINCT e.id, e.uuid, e.workspace_uuid, e.user_uuid, e.team_uuid, e.name, e.description, e.status, e.system_info, e.kernel_info, e.fingerprint_summary, e.group_uuid, e.proxy_uuid, e.last_opened_at, e.created_at, e.updated_at FROM environments e";
pub const ENV_COUNT: &'static str = "SELECT COUNT(DISTINCT e.id) FROM environments e";
pub const ENV_TAG_JOIN: &'static str = " LEFT JOIN environment_tags et ON e.uuid = et.environment_uuid";
pub const ENV_WHERE_WORKSPACE: &'static str = " WHERE e.workspace_uuid = ";
pub const ENV_AND_TEAM: &'static str = " AND e.team_uuid = ";
pub const ENV_LIVE: &'static str = " AND e.deleted_at IS NULL";
pub const ENV_GROUP: &'static str = " AND e.group_uuid = ";
pub const ENV_STATUS: &'static str = " AND e.status = ";
pub const ENV_KEYWORD_1: &'static str = " AND (e.name ILIKE ";
pub const ENV_KEYWORD_2: &'static str = " OR e.uuid::text ILIKE ";
pub const CLOSE: &'static str = ")";
pub const ENV_TAGS: &'static str = " AND et.tag_uuid = ANY(";
pub const ENV_PAGE: &'static str = " ORDER BY e.created_at DESC LIMIT ";
pub const OFFSET: &'static str = " OFFSET ";

/// The filters of an environment listing.
#[derive(Clone, Debug, PartialEq, Eq)]
pub struct EnvironmentFilter {
    pub workspace_uuid: u128,
    pub team_uuid: u128,
    pub group_uuid: Option<u128>,
    pub status: Option<String>,
    pub keyword: Option<String>,
    pub tag_uuids: Option<Vec<u128>>,
}

/// Whether the listing filters by at least one tag.
pub open spec fn filters_tags(f: EnvironmentFilter) -> bool {
    f.tag_uuids matches Some(t) && t@.len() > 0
}

/// The optional conditions of an environment listing, numbered from `$3`:
/// group, status, keyword (on name or identifier), tags.
pub open spec fn environment_conditions(f: EnvironmentFilter) -> Seq<SqlPieceView> {
    let i_group = 3nat;
    let i_status = i_group + one_if(f.group_uuid is Some);
    let i_keyword = i_status + one_if(f.status is Some);
    let i_tags = i_keyword + one_if(f.keyword is Some);
    present_if(f.group_uuid is Some, param_clause(ENV_GROUP@, i_group))
        + present_if(f.status is Some, param_clause(ENV_STATUS@, i_status))
        + present_if(f.keyword is Some, twice_clause(ENV_KEYWORD_1@, ENV_KEYWORD_2@, CLOSE@, i_keyword))
        + present_if(filters_tags(f), param_clause(ENV_TAGS@, i_tags) + seq![SqlPieceView::Text(CLOSE@)])
}

/// The values bound to the optional conditions, in order.
pub open spec fn environment_condition_binds(f: EnvironmentFilter) -> Seq<SqlValueView> {
    present_if(f.group_uuid is Some, seq![SqlValueView::Uuid(f.group_uuid->0)])
        + present_if(f.status is Some, seq![SqlValueView::Text(f.status->0@)])
        + present_if(f.keyword is Some, seq![SqlValueView::Text(like_pattern(f.keyword->0@))])
        + present_if(filters_tags(f), seq![SqlValueView::UuidList(f.tag_uuids->0@)])
}

/// Number of optional conditions present.
pub open spec fn environment_condition_count(f: EnvironmentFilter) -> nat {
    one_if(f.group_uuid is Some) + one_if(f.status is Some) + one_if(f.keyword is Some)
        + one_if(filters_tags(f))
}

/// The scope of every environment statement: the selection `head`, the tag
/// join when tags are given (even an empty list), workspace `$1`, team `$2`,
/// and the live-rows condition.
pub open spec fn environment_scope(head: Seq<char>, f: EnvironmentFilter) -> Seq<SqlPieceView> {
    seq![SqlPieceView::Text(head)]
        + present_if(f.tag_uuids is Some, seq![SqlPieceView::Text(ENV_TAG_JOIN@)])
        + param_clause(ENV_WHERE_WORKSPACE@, 1) + param_clause(ENV_AND_TEAM@, 2)
        + seq![SqlPieceView::Text(ENV_LIVE@)]
}

/// Appends `t $k` bound to `v` when `v` is given.
pub fn push_opt_param(q: &mut SqlQuery, t: &'static str, v: Option<SqlValue>)
    requires
        well_numbered(*old(q)),
        old(q).binds@.len() < u32::MAX,
    ensures
        well_numbered(*final(q)),
        pieces_view(*final(q)) == pieces_view(*old(q)) + present_if(
            v is Some,
            param_clause(t@, (old(q).binds@.len() + 1) as nat),
        ),
        binds_view(*final(q)) == binds_view(*old(q)) + present_if(v is Some, seq![v->0@]),
        final(q).binds@.len() == old(q).binds@.len() + one_if(v is Some),
{
    let ghost p0 = pieces_view(*q);
    let ghost b0 = binds_view(*q);
    match v {
        Some(value) => {
            q.push_param(t, value);
        },
        None => {},
    }
    assert(pieces_view(*q) =~= p0 + present_if(v is Some, param_clause(t@, (old(q).binds@.len() + 1) as nat)));
    assert(binds_view(*q) =~= b0 + present_if(v is Some, seq![v->0@]));
}

/// Appends `t1 $k t2 $k t3` bound to `v` when `v` is given.
pub fn push_opt_param_twice(q: &mut SqlQuery, t1: &'static str, t2: &'static str, t3: &'static str, v: Option<SqlValue>)
    requires
        well_numbered(*old(q)),
        old(q).binds@.len() < u32::MAX,
    ensures
        well_numbered(*final(q)),
        pieces_view(*final(q)) == pieces_view(*old(q)) + present_if(
            v is Some,
            twice_clause(t1@, t2@, t3@, (old(q).binds@.len() + 1) as nat),
        ),
        binds_view(*final(q)) == binds_view(*old(q)) + present_if(v is Some, seq![v->0@]),
        final(q).binds@.len() == old(q).binds@.len() + one_if(v is Some),
{
    let ghost p0 = pieces_view(*q);
    let ghost b0 = binds_view(*q);
    match v {
        Some(value) => {
            q.push_param_twice(t1, t2, t3, value);
        },
        None => {},
    }
    assert(pieces_view(*q) =~= p0 + present_if(v is Some, twice_clause(t1@, t2@, t3@, (old(q).binds@.len() + 1) as nat)));
    assert(binds_view(*q) =~= b0 + present_if(v is Some, seq![v->0@]));
}

/// The keyword search value, when a keyword is given.
pub fn keyword_value(k: &Option<String>) -> (v: Option<SqlValue>)
    ensures
        v is Some == k is Some,
        k is Some ==> v->0@ == SqlValueView::Text(like_pattern(k->0@)),
{
    match k {
        Some(k) => Some(SqlValue::Text(make_like_pattern(k.as_str()))),
        None => None,
    }
}

/// The scope of an environment statement.
fn push_environment_scope(q: &mut SqlQuery, head: &'static str, f: &EnvironmentFilter)
    requires
        well_numbered(*old(q)),
        old(q).binds@.len() == 0,
        pieces_view(*old(q)) == Seq::<SqlPieceView>::empty(),
    ensures
        well_numbered(*final(q)),
        pieces_view(*final(q)) == environment_scope(head@, *f),
        binds_view(*final(q)) == seq![SqlValueView::Uuid(f.workspace_uuid), SqlValueView::Uuid(f.team_uuid)],
        final(q).binds@.len() == 2,
{
    let ghost b0 = binds_view(*q);
    q.push_text(head);
    if f.tag_uuids.is_some() {
        q.push_text(ENV_TAG_JOIN);
    }
    q.push_param(ENV_WHERE_WORKSPACE, SqlValue::Uuid(f.workspace_uuid));
    q.push_param(ENV_AND_TEAM, SqlValue::Uuid(f.team_uuid));
    q.push_text(ENV_LIVE);
    assert(pieces_view(*q) =~= environment_scope(head@, *f));
    assert(binds_view(*q) =~= seq![SqlValueView::Uuid(f.workspace_uuid), SqlValueView::Uuid(f.team_uuid)]);
}

/// The tag filter value, when at least one tag is given.
fn tags_value(f: &EnvironmentFilter) -> (v: Option<SqlValue>)
    ensures
        v is Some == filters_tags(*f),
        filters_tags(*f) ==> v->0@ == SqlValueView::UuidList(f.tag_uuids->0@),
{
    match &f.tag_uuids {
        Some(tags) => if tags.len() > 0 {
            Some(SqlValue::UuidList(tags.clone()))
        } else {
            None
        },
        None => None,
    }
}

/// The conditions of an environment statement.
fn push_environment_conditions(q: &mut SqlQuery, f: &EnvironmentFilter)
    requires
        well_numbered(*old(q)),
        old(q).binds@.len() == 2,
    ensures
        well_numbered(*final(q)),
        pieces_view(*final(q)) == pieces_view(*old(q)) + environment_conditions(*f),
        binds_view(*final(q)) == binds_view(*old(q)) + environment_condition_binds(*f),
        final(q).binds@.len() == 2 + environment_condition_count(*f),
{
    let ghost p0 = pieces_view(*q);
    let ghost b0 = binds_view(*q);
    let group = match f.group_uuid {
        Some(g) => Some(SqlValue::Uuid(g)),
        None => None,
    };
    push_opt_param(q, ENV_GROUP, group);
    let status = match &f.status {
        Some(st) => Some(SqlValue::Text(st.clone())),
        None => None,
    };
    push_opt_param(q, ENV_STATUS, status);
    push_opt_param_twice(q, ENV_KEYWORD_1, ENV_KEYWORD_2, CLOSE, keyword_value(&f.keyword));
    let tags = tags_value(f);
    let has_tags = tags.is_some();
    push_opt_param(q, ENV_TAGS, tags);
    let ghost p4 = pieces_view(*q);
    if has_tags {
        q.push_text(CLOSE);
    }
    assert(pieces_view(*q) =~= p4 + present_if(filters_tags(*f), seq![SqlPieceView::Text(CLOSE@)]));
    assert(pieces_view(*q) =~= p0 + environment_conditions(*f));
    assert(binds_view(*q) =~= b0 + environment_condition_binds(*f));
}


/// Appends `LIMIT $n OFFSET $n+1` (after `page_text`) bound to `limit` and `offset`.
pub fn push_page(q: &mut SqlQuery, page_text: &'static str, offset: i64, limit: i64)
    requires
        well_numbered(*old(q)),
        old(q).binds@.len() + 1 < u32::MAX,
    ensures
        well_numbered(*final(q)),
        pieces_view(*final(q)) == pieces_view(*old(q)) + page_clause(page_text@, (old(q).binds@.len() + 1) as nat),
        binds_view(*final(q)) == binds_view(*old(q)) + seq![SqlValueView::Int(limit), SqlValueView::Int(offset)],
{
    let ghost p0 = pieces_view(*q);
    let ghost b0 = binds_view(*q);
    q.push_param(page_text, SqlValue::Int(limit));
    q.push_param(OFFSET, SqlValue::Int(offset));
    assert(pieces_view(*q) =~= p0 + page_clause(page_text@, (old(q).binds@.len() + 1) as nat));
    assert(binds_view(*q) =~= b0 + seq![SqlValueView::Int(limit), SqlValueView::Int(offset)]);
}

/// `page_text $k OFFSET $k+1`.
pub open spec fn page_clause(page_text: Seq<char>, k: nat) -> Seq<SqlPieceView> {
    param_clause(page_text, k) + param_clause(OFFSET@, k + 1)
}

/// A page of live environments, newest first: `fetch_environments_base`.
pub fn environments_base_query(f: &EnvironmentFilter, offset: i64, limit: i64) -> (q: SqlQuery)
    ensures
        well_numbered(q),
        pieces_view(q) == environment_scope(ENV_COLUMNS@, *f) + environment_conditions(*f)
            + page_clause(ENV_PAGE@, 3 + environment_condition_count(*f)),
        binds_view(q) == seq![SqlValueView::Uuid(f.workspace_uuid), SqlValueView::Uuid(f.team_uuid)]
            + environment_condition_binds(*f) + seq![SqlValueView::Int(limit), SqlValueView::Int(offset)],
{
    let mut q = SqlQuery::new();
    push_environment_scope(&mut q, ENV_COLUMNS, f);
    push_environment_conditions(&mut q, f);
    push_page(&mut q, ENV_PAGE, offset, limit);
    q
}

/// The number of live environments matching the filters: `fetch_environments_count`.
pub fn environments_count_query(f: &EnvironmentFilter) -> (q: SqlQuery)
    ensures
        well_numbered(q),
        pieces_view(q) == environment_scope(ENV_COUNT@, *f) + environment_conditions(*f),
        binds_view(q) == seq![SqlValueView::Uuid(f.workspace_uuid), SqlValueView::Uuid(f.team_uuid)]
            + environment_condition_binds(*f),
{
    let mut q = SqlQuery::new();
    push_environment_scope(&mut q, ENV_COUNT, f);
    push_environment_conditions(&mut q, f);
    q
}

pub const BIN_COLUMNS: &'static str = "SELECT DISTINCT e.id, e.uuid, e.workspace_uuid, e.user_uuid, e.team_uuid, e.name, e.description, e.status, e.system_info, e.kernel_info, e.fingerprint_summary, e.group_uuid, e.proxy_uuid, e.last_opened_at, e.created_at, e.updated_at, e.deleted_at FROM environments e";
pub const BIN_COUNT: &'static str = "SELECT COUNT(DISTINCT e.id) FROM environments e";
pub const BIN_DELETED: &'static str = " AND e.deleted_at IS NOT NULL";
pub const BIN_PAGE: &'static str = " ORDER BY e.deleted_at DESC LIMIT ";

/// The filters of a recycle-bin listing.
#[derive(Clone, Debug, PartialEq, Eq)]
pub struct RecycleBinFilter {
    pub workspace_uuid: u128,
    pub team_uuid: u128,
    pub group_uuid: Option<u128>,
    pub keyword: Option<String>,
}

/// Scope and conditions of a recycle-bin statement: workspace `$1`, team
/// `$2`, deleted rows only, then group and keyword from `$3`.
pub open spec fn recycle_bin_where(head: Seq<char>, f: RecycleBinFilter) -> Seq<SqlPieceView> {
    seq![SqlPieceView::Text(head)] + param_clause(ENV_WHERE_WORKSPACE@, 1) + param_clause(ENV_AND_TEAM@, 2)
        + seq![SqlPieceView::Text(BIN_DELETED@)]
        + present_if(f.group_uuid is Some, param_clause(ENV_GROUP@, 3))
        + present_if(f.keyword is Some, twice_clause(ENV_KEYWORD_1@, ENV_KEYWORD_2@, CLOSE@, 3 + one_if(f.group_uuid is Some)))
}

/// The values bound to a recycle-bin statement before its page.
pub open spec fn recycle_bin_binds(f: RecycleBinFilter) -> Seq<SqlValueView> {
    seq![SqlValueView::Uuid(f.workspace_uuid), SqlValueView::Uuid(f.team_uuid)]
        + present_if(f.group_uuid is Some, seq![SqlValueView::Uuid(f.group_uuid->0)])
        + present_if(f.keyword is Some, seq![SqlValueView::Text(like_pattern(f.keyword->0@))])
}

/// Scope and conditions of a recycle-bin statement.
fn push_recycle_bin_where(q: &mut SqlQuery, head: &'static str, f: &RecycleBinFilter)
    requires
        well_numbered(*old(q)),
        old(q).binds@.len() == 0,
        pieces_view(*old(q)) == Seq::<SqlPieceView>::empty(),
    ensures
        well_numbered(*final(q)),
        pieces_view(*final(q)) == recycle_bin_where(head@, *f),
        binds_view(*final(q)) == recycle_bin_binds(*f),
        final(q).binds@.len() == 2 + one_if(f.group_uuid is Some) + one_if(f.keyword is Some),
{
    q.push_text(head);
    q.push_param(ENV_WHERE_WORKSPACE, SqlValue::Uuid(f.workspace_uuid));
    q.push_param(ENV_AND_TEAM, SqlValue::Uuid(f.team_uuid));
    q.push_text(BIN_DELETED);
    let ghost p0 = pieces_view(*q);
    let ghost b0 = binds_view(*q);
    let group = match f.group_uuid {
        Some(g) => Some(SqlValue::Uuid(g)),
        None => None,
    };
    push_opt_param(q, ENV_GROUP, group);
    push_opt_param_twice(q, ENV_KEYWORD_1, ENV_KEYWORD_2, CLOSE, keyword_value(&f.keyword));
    assert(pieces_view(*q) =~= recycle_bin_where(head@, *f));
    assert(binds_view(*q) =~= recycle_bin_binds(*f));
}

/// A page of the recycle bin, most recently deleted first:
/// `fetch_deleted_environments_base`.
pub fn deleted_environments_base_query(f: &RecycleBinFilter, offset: i64, limit: i64) -> (q: SqlQuery)
    ensures
        well_numbered(q),
        pieces_view(q) == recycle_bin_where(BIN_COLUMNS@, *f) + page_clause(
            BIN_PAGE@,
            3 + one_if(f.group_uuid is Some) + one_if(f.keyword is Some),
        ),
        binds_view(q) == recycle_bin_binds(*f) + seq![SqlValueView::Int(limit), SqlValueView::Int(offset)],
{
    let mut q = SqlQuery::new();
    push_recycle_bin_where(&mut q, BIN_COLUMNS, f);
    push_page(&mut q, BIN_PAGE, offset, limit);
    q
}

/// The number of environments in the recycle bin matching the filters:
/// `fetch_deleted_environments_count`.
pub fn deleted_environments_count_query(f: &RecycleBinFilter) -> (q: SqlQuery)
    ensures
        well_numbered(q),
        pieces_view(q) == recycle_bin_where(BIN_COUNT@, *f),
        binds_view(q) == recycle_bin_binds(*f),
{
    let mut q = SqlQuery::new();
    push_recycle_bin_where(&mut q, BIN_COUNT, f);
    q
}

/// Condition text `c` appears in `pieces`, followed by a placeholder whose
/// bound value in `binds` is `v`.
pub open spec fn condition_binds(pieces: Seq<SqlPieceView>, binds: Seq<SqlValueView>, c: Seq<char>, v: SqlValueView) -> bool {
    exists|i: int| #![trigger pieces[i]] 0 <= i && i + 1 < pieces.len() && pieces[i] == SqlPieceView::Text(c)
        && (pieces[i + 1] matches SqlPieceView::Param(k) && 1 <= k <= binds.len() && binds[k - 1] == v)
}

/// Condition text `c` appears nowhere in `pieces`.
pub open spec fn lacks(pieces: Seq<SqlPieceView>, c: Seq<char>) -> bool {
    forall|i: int| 0 <= i < pieces.len() ==> pieces[i] != SqlPieceView::Text(c)
}

pub proof fn lemma_lacks_add(a: Seq<SqlPieceView>, b: Seq<SqlPieceView>, c: Seq<char>)
    requires
        lacks(a, c),
        lacks(b, c),
    ensures
        lacks(a + b, c),
{
    assert forall|i: int| 0 <= i < (a + b).len() implies (a + b)[i] != SqlPieceView::Text(c) by {
        if i < a.len() {
            assert((a + b)[i] == a[i]);
        } else {
            assert((a + b)[i] == b[i - a.len()]);
        }
    }
}

/// The lengths of the texts of an environment statement; the two pairs of
/// equal length differ in a character.
proof fn lemma_environment_texts_distinct()
    ensures
        ENV_COLUMNS@.len() > 62, ENV_COUNT@.len() > 29, BIN_COLUMNS@.len() > 62, BIN_COUNT@.len() > 29,
        ENV_COUNT@.len() != 62, BIN_COUNT@.len() != 62,
        ENV_GROUP@.len() == 20, ENV_STATUS@.len() == 16, ENV_KEYWORD_1@.len() == 19, ENV_KEYWORD_2@.len() == 23,
        ENV_TAGS@.len() == 23, ENV_WHERE_WORKSPACE@.len() == 26, ENV_AND_TEAM@.len() == 19,
        ENV_LIVE@.len() == 25, CLOSE@.len() == 1, ENV_TAG_JOIN@.len() == 62, BIN_DELETED@.len() == 29,
        ENV_KEYWORD_1@ != ENV_AND_TEAM@,
        ENV_KEYWORD_2@ != ENV_TAGS@,
{
    reveal_strlit(" LEFT JOIN environment_tags et ON e.uuid = et.environment_uuid");
    reveal_strlit(" WHERE e.workspace_uuid = ");
    reveal_strlit(" AND e.team_uuid = ");
    reveal_strlit(" AND e.deleted_at IS NULL");
    reveal_strlit(" AND e.group_uuid = ");
    reveal_strlit(" AND e.status = ");
    reveal_strlit(" AND (e.name ILIKE ");
    reveal_strlit(" OR e.uuid::text ILIKE ");
    reveal_strlit(")");
    reveal_strlit(" AND et.tag_uuid = ANY(");
    reveal_strlit(" AND e.deleted_at IS NOT NULL");
    reveal_strlit("SELECT COUNT(DISTINCT e.id) FROM environments e");
    reveal_strlit("SELECT DISTINCT e.id, e.uuid, e.workspace_uuid, e.user_uuid, e.team_uuid, e.name, e.description, e.status, e.system_info, e.kernel_info, e.fingerprint_summary, e.group_uuid, e.proxy_uuid, e.last_opened_at, e.created_at, e.updated_at FROM environments e");
    reveal_strlit("SELECT DISTINCT e.id, e.uuid, e.workspace_uuid, e.user_uuid, e.team_uuid, e.name, e.description, e.status, e.system_info, e.kernel_info, e.fingerprint_summary, e.group_uuid, e.proxy_uuid, e.last_opened_at, e.created_at, e.updated_at, e.deleted_at FROM environments e");
    assert(ENV_KEYWORD_1@[5] != ENV_AND_TEAM@[5]);
    assert(ENV_KEYWORD_2@[1] != ENV_TAGS@[1]);
}

/// The statement of an environment listing before its page.
pub open spec fn environment_statement(head: Seq<char>, f: EnvironmentFilter) -> Seq<SqlPieceView> {
    environment_scope(head, f) + environment_conditions(f)
}

/// The values bound to it.
pub open spec fn environment_values(f: EnvironmentFilter) -> Seq<SqlValueView> {
    seq![SqlValueView::Uuid(f.workspace_uuid), SqlValueView::Uuid(f.team_uuid)] + environment_condition_binds(f)
}

spec fn env_group_seg(f: EnvironmentFilter) -> Seq<SqlPieceView> {
    present_if(f.group_uuid is Some, param_clause(ENV_GROUP@, 3))
}

spec fn env_status_seg(f: EnvironmentFilter) -> Seq<SqlPieceView> {
    present_if(f.status is Some, param_clause(ENV_STATUS@, 3nat + one_if(f.group_uuid is Some)))
}

spec fn env_keyword_seg(f: EnvironmentFilter) -> Seq<SqlPieceView> {
    present_if(f.keyword is Some, twice_clause(ENV_KEYWORD_1@, ENV_KEYWORD_2@, CLOSE@,
        3nat + one_if(f.group_uuid is Some) + one_if(f.status is Some)))
}

spec fn env_tags_seg(f: EnvironmentFilter) -> Seq<SqlPieceView> {
    present_if(filters_tags(f), param_clause(ENV_TAGS@,
        3nat + one_if(f.group_uuid is Some) + one_if(f.status is Some) + one_if(f.keyword is Some))
        + seq![SqlPieceView::Text(CLOSE@)])
}

/// Each optional segment holds only its own condition texts.
proof fn lemma_env_segments_lack(f: EnvironmentFilter, c: Seq<char>)
    requires
        c == ENV_GROUP@ || c == ENV_STATUS@ || c == ENV_KEYWORD_1@ || c == ENV_KEYWORD_2@ || c == ENV_TAGS@,
    ensures
        (c != ENV_GROUP@ || f.group_uuid is None) ==> lacks(env_group_seg(f), c),
        (c != ENV_STATUS@ || f.status is None) ==> lacks(env_status_seg(f), c),
        ((c != ENV_KEYWORD_1@ && c != ENV_KEYWORD_2@) || f.keyword is None) ==> lacks(env_keyword_seg(f), c),
        (c != ENV_TAGS@ || !filters_tags(f)) ==> lacks(env_tags_seg(f), c),
{
    lemma_environment_texts_distinct();
    if f.group_uuid is Some {
        assert(env_group_seg(f) =~= seq![SqlPieceView::Text(ENV_GROUP@), SqlPieceView::Param(3)]);
    }
    if f.status is Some {
        assert(env_status_seg(f) =~= seq![SqlPieceView::Text(ENV_STATUS@),
            SqlPieceView::Param((3nat + one_if(f.group_uuid is Some)) as u32)]);
    }
    if f.keyword is Some {
        let k = (3nat + one_if(f.group_uuid is Some) + one_if(f.status is Some)) as u32;
        assert(env_keyword_seg(f) =~= seq![SqlPieceView::Text(ENV_KEYWORD_1@), SqlPieceView::Param(k),
            SqlPieceView::Text(ENV_KEYWORD_2@), SqlPieceView::Param(k), SqlPieceView::Text(CLOSE@)]);
    }
    if filters_tags(f) {
        let k = (3nat + one_if(f.group_uuid is Some) + one_if(f.status is Some) + one_if(f.keyword is Some)) as u32;
        assert(env_tags_seg(f) =~= seq![SqlPieceView::Text(ENV_TAGS@), SqlPieceView::Param(k), SqlPieceView::Text(CLOSE@)]);
    }
}

/// A condition text absent from every segment of the statement is absent
/// from the statement.
proof fn lemma_env_lacks(head: Seq<char>, f: EnvironmentFilter, c: Seq<char>)
    requires
        head.len() > 29,
        head.len() != 62,
        c == ENV_GROUP@ || c == ENV_STATUS@ || c == ENV_KEYWORD_1@ || c == ENV_KEYWORD_2@ || c == ENV_TAGS@,
        lacks(env_group_seg(f), c),
        lacks(env_status_seg(f), c),
        lacks(env_keyword_seg(f), c),
        lacks(env_tags_seg(f), c),
    ensures
        lacks(environment_statement(head, f), c),
{
    lemma_environment_texts_distinct();
    let c0 = environment_scope(head, f);
    assert(lacks(c0, c)) by {
        if f.tag_uuids is Some {
            assert(c0 =~= seq![SqlPieceView::Text(head), SqlPieceView::Text(ENV_TAG_JOIN@), SqlPieceView::Text(ENV_WHERE_WORKSPACE@),
                SqlPieceView::Param(1), SqlPieceView::Text(ENV_AND_TEAM@), SqlPieceView::Param(2), SqlPieceView::Text(ENV_LIVE@)]);
        } else {
            assert(c0 =~= seq![SqlPieceView::Text(head), SqlPieceView::Text(ENV_WHERE_WORKSPACE@),
                SqlPieceView::Param(1), SqlPieceView::Text(ENV_AND_TEAM@), SqlPieceView::Param(2), SqlPieceView::Text(ENV_LIVE@)]);
        }
    }
    let (c1, c2, c3, c4) = (env_group_seg(f), env_status_seg(f), env_keyword_seg(f), env_tags_seg(f));
    assert(environment_statement(head, f) =~= c0 + c1 + c2 + c3 + c4);
    lemma_lacks_add(c0, c1, c);
    lemma_lacks_add(c0 + c1, c2, c);
    lemma_lacks_add(c0 + c1 + c2, c3, c);
    lemma_lacks_add(c0 + c1 + c2 + c3, c4, c);
}

/// The absent filters of an environment statement add no condition.
proof fn lemma_environment_absent(head: Seq<char>, f: EnvironmentFilter)
    requires
        head.len() > 29,
        head.len() != 62,
    ensures
        f.group_uuid is None ==> lacks(environment_statement(head, f), ENV_GROUP@),
        f.status is None ==> lacks(environment_statement(head, f), ENV_STATUS@),
        f.keyword is None ==> lacks(environment_statement(head, f), ENV_KEYWORD_1@)
            && lacks(environment_statement(head, f), ENV_KEYWORD_2@),
        !filters_tags(f) ==> lacks(environment_statement(head, f), ENV_TAGS@),
{
    lemma_environment_texts_distinct();
    if f.group_uuid is None {
        lemma_env_segments_lack(f, ENV_GROUP@);
        lemma_env_lacks(head, f, ENV_GROUP@);
    }
    if f.status is None {
        lemma_env_segments_lack(f, ENV_STATUS@);
        lemma_env_lacks(head, f, ENV_STATUS@);
    }
    if f.keyword is None {
        lemma_env_segments_lack(f, ENV_KEYWORD_1@);
        lemma_env_lacks(head, f, ENV_KEYWORD_1@);
        lemma_env_segments_lack(f, ENV_KEYWORD_2@);
        lemma_env_lacks(head, f, ENV_KEYWORD_2@);
    }
    if !filters_tags(f) {
        lemma_env_segments_lack(f, ENV_TAGS@);
        lemma_env_lacks(head, f, ENV_TAGS@);
    }
}

/// The given filters of an environment statement bind their own values.
#[verifier::rlimit(60)]
proof fn lemma_environment_present(head: Seq<char>, f: EnvironmentFilter)
    ensures
        condition_binds(environment_statement(head, f), environment_values(f), ENV_WHERE_WORKSPACE@, SqlValueView::Uuid(f.workspace_uuid)),
        condition_binds(environment_statement(head, f), environment_values(f), ENV_AND_TEAM@, SqlValueView::Uuid(f.team_uuid)),
        f.group_uuid matches Some(g) ==> condition_binds(environment_statement(head, f), environment_values(f), ENV_GROUP@, SqlValueView::Uuid(g)),
        f.status matches Some(s) ==> condition_binds(environment_statement(head, f), environment_values(f), ENV_STATUS@, SqlValueView::Text(s@)),
        f.keyword matches Some(k) ==> condition_binds(environment_statement(head, f), environment_values(f), ENV_KEYWORD_1@, SqlValueView::Text(like_pattern(k@)))
            && condition_binds(environment_statement(head, f), environment_values(f), ENV_KEYWORD_2@, SqlValueView::Text(like_pattern(k@))),
        filters_tags(f) ==> condition_binds(environment_statement(head, f), environment_values(f), ENV_TAGS@, SqlValueView::UuidList(f.tag_uuids->0@)),
{
    let j: int = one_if(f.tag_uuids is Some) as int;
    let g: int = one_if(f.group_uuid is Some) as int;
    let s: int = one_if(f.status is Some) as int;
    let k: int = one_if(f.keyword is Some) as int;
    let c0 = environment_scope(head, f);
    let (c1, c2, c3, c4) = (env_group_seg(f), env_status_seg(f), env_keyword_seg(f), env_tags_seg(f));
    let p = environment_statement(head, f);
    assert(p =~= c0 + c1 + c2 + c3 + c4);
    let b1 = present_if(f.group_uuid is Some, seq![SqlValueView::Uuid(f.group_uuid->0)]);
    let b2 = present_if(f.status is Some, seq![SqlValueView::Text(f.status->0@)]);
    let b3 = present_if(f.keyword is Some, seq![SqlValueView::Text(like_pattern(f.keyword->0@))]);
    let b4 = present_if(filters_tags(f), seq![SqlValueView::UuidList(f.tag_uuids->0@)]);
    let b = environment_values(f);
    assert(b =~= seq![SqlValueView::Uuid(f.workspace_uuid), SqlValueView::Uuid(f.team_uuid)] + b1 + b2 + b3 + b4);
    assert(c0.len() == 6 + j);
    assert(c1.len() == 2 * g && c2.len() == 2 * s && c3.len() == 5 * k);
    assert(b1.len() == g && b2.len() == s && b3.len() == k);
    assert(p[1 + j] == SqlPieceView::Text(ENV_WHERE_WORKSPACE@));
    assert(p[2 + j] == SqlPieceView::Param(1));
    assert(p[3 + j] == SqlPieceView::Text(ENV_AND_TEAM@));
    assert(p[4 + j] == SqlPieceView::Param(2));
    if let Some(gv) = f.group_uuid {
        assert(p[6 + j] == SqlPieceView::Text(ENV_GROUP@));
        assert(p[7 + j] == SqlPieceView::Param(3));
        assert(b[2] == SqlValueView::Uuid(gv));
    }
    if let Some(sv) = f.status {
        assert(p[6 + j + 2 * g] == SqlPieceView::Text(ENV_STATUS@));
        assert(p[7 + j + 2 * g] == SqlPieceView::Param((3 + g) as u32));
        assert(b[2 + g] == SqlValueView::Text(sv@));
    }
    if let Some(kv) = f.keyword {
        let i = 6 + j + 2 * g + 2 * s;
        assert(p[i] == SqlPieceView::Text(ENV_KEYWORD_1@));
        assert(p[i + 1] == SqlPieceView::Param((3 + g + s) as u32));
        assert(p[i + 2] == SqlPieceView::Text(ENV_KEYWORD_2@));
        assert(p[i + 3] == SqlPieceView::Param((3 + g + s) as u32));
        assert(b[2 + g + s] == SqlValueView::Text(like_pattern(kv@)));
    }
    if filters_tags(f) {
        let i = 6 + j + 2 * g + 2 * s + 5 * k;
        assert(p[i] == SqlPieceView::Text(ENV_TAGS@));
        assert(p[i + 1] == SqlPieceView::Param((3 + g + s + k) as u32));
        assert(b[2 + g + s + k] == SqlValueView::UuidList(f.tag_uuids->0@));
    }
}

/// Every filter of an environment listing (and of its count) filters on its
/// own column: workspace and team are the scope, and each given filter's
/// value is bound to the placeholder of its own condition (`e.group_uuid`,
/// `e.status`, the keyword pattern on both name and identifier, the tag
/// list); a filter that is not given (tags: or an empty list) adds no
/// condition on its column.
pub proof fn law_environment_filters_on_their_columns(f: EnvironmentFilter)
    ensures
        forall|head: Seq<char>| #![trigger environment_statement(head, f)] head == ENV_COLUMNS@ || head == ENV_COUNT@ ==> {
            &&& condition_binds(environment_statement(head, f), environment_values(f), " WHERE e.workspace_uuid = "@, SqlValueView::Uuid(f.workspace_uuid))
            &&& condition_binds(environment_statement(head, f), environment_values(f), " AND e.team_uuid = "@, SqlValueView::Uuid(f.team_uuid))
            &&& match f.group_uuid {
                Some(g) => condition_binds(environment_statement(head, f), environment_values(f), " AND e.group_uuid = "@, SqlValueView::Uuid(g)),
                None => lacks(environment_statement(head, f), " AND e.group_uuid = "@),
            }
            &&& match f.status {
                Some(s) => condition_binds(environment_statement(head, f), environment_values(f), " AND e.status = "@, SqlValueView::Text(s@)),
                None => lacks(environment_statement(head, f), " AND e.status = "@),
            }
            &&& match f.keyword {
                Some(k) => condition_binds(environment_statement(head, f), environment_values(f), " AND (e.name ILIKE "@, SqlValueView::Text(like_pattern(k@)))
                    && condition_binds(environment_statement(head, f), environment_values(f), " OR e.uuid::text ILIKE "@, SqlValueView::Text(like_pattern(k@))),
                None => lacks(environment_statement(head, f), " AND (e.name ILIKE "@) && lacks(environment_statement(head, f), " OR e.uuid::text ILIKE "@),
            }
            &&& if filters_tags(f) {
                condition_binds(environment_statement(head, f), environment_values(f), " AND et.tag_uuid = ANY("@, SqlValueView::UuidList(f.tag_uuids->0@))
            } else {
                lacks(environment_statement(head, f), " AND et.tag_uuid = ANY("@)
            }
        },
{
    lemma_environment_texts_distinct();
    lemma_environment_present(ENV_COLUMNS@, f);
    lemma_environment_absent(ENV_COLUMNS@, f);
    lemma_environment_present(ENV_COUNT@, f);
    lemma_environment_absent(ENV_COUNT@, f);
}

/// The values of a recycle-bin statement, with its texts, segment by segment.
spec fn bin_group_seg(f: RecycleBinFilter) -> Seq<SqlPieceView> {
    present_if(f.group_uuid is Some, param_clause(ENV_GROUP@, 3))
}

spec fn bin_keyword_seg(f: RecycleBinFilter) -> Seq<SqlPieceView> {
    present_if(f.keyword is Some, twice_clause(ENV_KEYWORD_1@, ENV_KEYWORD_2@, CLOSE@, 3 + one_if(f.group_uuid is Some)))
}

spec fn bin_scope(head: Seq<char>) -> Seq<SqlPieceView> {
    seq![SqlPieceView::Text(head)] + param_clause(ENV_WHERE_WORKSPACE@, 1) + param_clause(ENV_AND_TEAM@, 2)
        + seq![SqlPieceView::Text(BIN_DELETED@)]
}

#[verifier::rlimit(60)]
proof fn lemma_recycle_bin_conditions(head: Seq<char>, f: RecycleBinFilter)
    requires
        head.len() > 29,
        head.len() != 62,
    ensures
        condition_binds(recycle_bin_where(head, f), recycle_bin_binds(f), ENV_WHERE_WORKSPACE@, SqlValueView::Uuid(f.workspace_uuid)),
        condition_binds(recycle_bin_where(head, f), recycle_bin_binds(f), ENV_AND_TEAM@, SqlValueView::Uuid(f.team_uuid)),
        match f.group_uuid {
            Some(g) => condition_binds(recycle_bin_where(head, f), recycle_bin_binds(f), ENV_GROUP@, SqlValueView::Uuid(g)),
            None => lacks(recycle_bin_where(head, f), ENV_GROUP@),
        },
        match f.keyword {
            Some(k) => condition_binds(recycle_bin_where(head, f), recycle_bin_binds(f), ENV_KEYWORD_1@, SqlValueView::Text(like_pattern(k@)))
                && condition_binds(recycle_bin_where(head, f), recycle_bin_binds(f), ENV_KEYWORD_2@, SqlValueView::Text(like_pattern(k@))),
            None => lacks(recycle_bin_where(head, f), ENV_KEYWORD_1@) && lacks(recycle_bin_where(head, f), ENV_KEYWORD_2@),
        },
{
    lemma_environment_texts_distinct();
    let g: int = one_if(f.group_uuid is Some) as int;
    let c0 = bin_scope(head);
    let c1 = bin_group_seg(f);
    let c2 = bin_keyword_seg(f);
    let p = recycle_bin_where(head, f);
    assert(p =~= c0 + c1 + c2);
    let b = recycle_bin_binds(f);
    let b1 = present_if(f.group_uuid is Some, seq![SqlValueView::Uuid(f.group_uuid->0)]);
    let b2 = present_if(f.keyword is Some, seq![SqlValueView::Text(like_pattern(f.keyword->0@))]);
    assert(b =~= seq![SqlValueView::Uuid(f.workspace_uuid), SqlValueView::Uuid(f.team_uuid)] + b1 + b2);
    assert(c0 =~= seq![SqlPieceView::Text(head), SqlPieceView::Text(ENV_WHERE_WORKSPACE@), SqlPieceView::Param(1),
        SqlPieceView::Text(ENV_AND_TEAM@), SqlPieceView::Param(2), SqlPieceView::Text(BIN_DELETED@)]);
    assert(c1.len() == 2 * g && b1.len() == g);
    assert(p[1] == SqlPieceView::Text(ENV_WHERE_WORKSPACE@) && p[2] == SqlPieceView::Param(1));
    assert(p[3] == SqlPieceView::Text(ENV_AND_TEAM@) && p[4] == SqlPieceView::Param(2));
    if f.group_uuid is Some {
        assert(c1 =~= seq![SqlPieceView::Text(ENV_GROUP@), SqlPieceView::Param(3)]);
    }
    if f.keyword is Some {
        let k = (3 + g) as u32;
        assert(c2 =~= seq![SqlPieceView::Text(ENV_KEYWORD_1@), SqlPieceView::Param(k),
            SqlPieceView::Text(ENV_KEYWORD_2@), SqlPieceView::Param(k), SqlPieceView::Text(CLOSE@)]);
    }
    match f.group_uuid {
        Some(gv) => {
            assert(p[6] == SqlPieceView::Text(ENV_GROUP@) && p[7] == SqlPieceView::Param(3));
            assert(b[2] == SqlValueView::Uuid(gv));
        },
        None => {
            lemma_lacks_add(c0, c1, ENV_GROUP@);
            lemma_lacks_add(c0 + c1, c2, ENV_GROUP@);
        },
    }
    match f.keyword {
        Some(kv) => {
            assert(p[6 + 2 * g] == SqlPieceView::Text(ENV_KEYWORD_1@));
            assert(p[7 + 2 * g] == SqlPieceView::Param((3 + g) as u32));
            assert(p[8 + 2 * g] == SqlPieceView::Text(ENV_KEYWORD_2@));
            assert(p[9 + 2 * g] == SqlPieceView::Param((3 + g) as u32));
            assert(b[2 + g] == SqlValueView::Text(like_pattern(kv@)));
        },
        None => {
            lemma_lacks_add(c0, c1, ENV_KEYWORD_1@);
            lemma_lacks_add(c0 + c1, c2, ENV_KEYWORD_1@);
            lemma_lacks_add(c0, c1, ENV_KEYWORD_2@);
            lemma_lacks_add(c0 + c1, c2, ENV_KEYWORD_2@);
        },
    }
}

/// Every filter of a recycle-bin listing (and of its count) filters on its
/// own column: workspace and team are the scope, the group and the keyword
/// pattern (on name and identifier) are bound to their own conditions, and
/// a filter that is not given adds no condition.
pub proof fn law_recycle_bin_filters_on_their_columns(f: RecycleBinFilter)
    ensures
        forall|head: Seq<char>| #![trigger recycle_bin_where(head, f)] head == BIN_COLUMNS@ || head == BIN_COUNT@ ==> {
            &&& condition_binds(recycle_bin_where(head, f), recycle_bin_binds(f), " WHERE e.workspace_uuid = "@, SqlValueView::Uuid(f.workspace_uuid))
            &&& condition_binds(recycle_bin_where(head, f), recycle_bin_binds(f), " AND e.team_uuid = "@, SqlValueView::Uuid(f.team_uuid))
            &&& match f.group_uuid {
                Some(g) => condition_binds(recycle_bin_where(head, f), recycle_bin_binds(f), " AND e.group_uuid = "@, SqlValueView::Uuid(g)),
                None => lacks(recycle_bin_where(head, f), " AND e.group_uuid = "@),
            }
            &&& match f.keyword {
                Some(k) => condition_binds(recycle_bin_where(head, f), recycle_bin_binds(f), " AND (e.name ILIKE "@, SqlValueView::Text(like_pattern(k@)))
                    && condition_binds(recycle_bin_where(head, f), recycle_bin_binds(f), " OR e.uuid::text ILIKE "@, SqlValueView::Text(like_pattern(k@))),
                None => lacks(recycle_bin_where(head, f), " AND (e.name ILIKE "@) && lacks(recycle_bin_where(head, f), " OR e.uuid::text ILIKE "@),
            }
        },
{
    lemma_environment_texts_distinct();
    lemma_recycle_bin_conditions(BIN_COLUMNS@, f);
    lemma_recycle_bin_conditions(BIN_COUNT@, f);
}

} // verus!
