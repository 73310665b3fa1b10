//! Message rules: the inbox listing statements and the answer a message
//! action records.

use vstd::prelude::*;
use crate::queries::{
    condition_binds, lacks, lemma_lacks_add, one_if, page_clause, param_clause, present_if, push_opt_param, push_page,
};
use crate::sql::{binds_view, pieces_view, well_numbered, SqlPieceView, SqlQuery, SqlValue, SqlValueView};
use crate::text::{chars_of, equals};

verus! {

pub const INBOX_COLUMNS: &'static str = "SELECT m.uuid AS message_uuid, m.message_type, m.title, m.content, m.sender_uuid, m.related_type, m.related_uuid, m.metadata, m.priority, m.created_at AS message_created_at, um.is_read, um.read_at, um.action_status, um.action_at, ui.nickname AS sender_name, ui.email AS sender_email FROM user_messages um INNER JOIN messages m ON um.message_uuid = m.uuid LEFT JOIN user_infos ui ON m.sender_uuid = ui.user_uuid";
pub const INBOX_COUNT: &'static str = "SELECT COUNT(*) FROM user_messages um INNER JOIN messages m ON um.message_uuid = m.uuid";
pub const INBOX_WHERE_USER: &'static str = " WHERE um.user_uuid = ";
pub const INBOX_LIVE: &'static str = " AND m.deleted_at IS NULL";
pub const INBOX_TYPE: &'static str = " AND m.message_type = ";
pub const INBOX_READ: &'static str = " AND um.is_read = ";
pub const INBOX_ACTION: &'static str = " AND um.action_status = ";
pub const INBOX_PRIORITY: &'static str = " AND m.priority = ";
pub const INBOX_PAGE: &'static str = " ORDER BY m.created_at DESC LIMIT ";

/// The filters of an inbox listing.
#[derive(Clone, Debug, PartialEq, Eq)]
pub struct InboxFilter {
    pub user_uuid: u128,
    pub message_type: Option<String>,
    pub is_read: Option<bool>,
    pub action_status: Option<String>,
    pub priority: Option<String>,
}

/// Number of optional inbox conditions present.
pub open spec fn inbox_condition_count(f: InboxFilter) -> nat {
    one_if(f.message_type is Some) + one_if(f.is_read is Some) + one_if(f.action_status is Some)
        + one_if(f.priority is Some)
}

/// Scope and conditions of an inbox statement: user `$1`, live messages,
/// then type, read flag, action status and priority from `$2`.
pub open spec fn inbox_where(head: Seq<char>, f: InboxFilter) -> Seq<SqlPieceView> {
    let i_type = 2nat;
    let i_read = i_type + one_if(f.message_type is Some);
    let i_action = i_read + one_if(f.is_read is Some);
    let i_priority = i_action + one_if(f.action_status is Some);
    seq![SqlPieceView::Text(head)] + param_clause(INBOX_WHERE_USER@, 1) + seq![SqlPieceView::Text(INBOX_LIVE@)]
        + present_if(f.message_type is Some, param_clause(INBOX_TYPE@, i_type))
        + present_if(f.is_read is Some, param_clause(INBOX_READ@, i_read))
        + present_if(f.action_status is Some, param_clause(INBOX_ACTION@, i_action))
        + present_if(f.priority is Some, param_clause(INBOX_PRIORITY@, i_priority))
}

/// The values bound to an inbox statement before its page.
pub open spec fn inbox_binds(f: InboxFilter) -> Seq<SqlValueView> {
    seq![SqlValueView::Uuid(f.user_uuid)]
        + present_if(f.message_type is Some, seq![SqlValueView::Text(f.message_type->0@)])
        + present_if(f.is_read is Some, seq![SqlValueView::Bool(f.is_read->0)])
        + present_if(f.action_status is Some, seq![SqlValueView::Text(f.action_status->0@)])
        + present_if(f.priority is Some, seq![SqlValueView::Text(f.priority->0@)])
}

/// The optional text filter as a bound value.
fn text_value(t: &Option<String>) -> (v: Option<SqlValue>)
    ensures
        v is Some == t is Some,
        t is Some ==> v->0@ == SqlValueView::Text(t->0@),
{
    match t {
        Some(t) => Some(SqlValue::Text(t.clone())),
        None => None,
    }
}

/// Scope and conditions of an inbox statement.
fn push_inbox_where(q: &mut SqlQuery, head: &'static str, f: &InboxFilter)
    requires
        well_numbered(*old(q)),
        old(q).binds@.len() == 0,
        pieces_view(*old(q)) == Seq::<SqlPieceView>::empty(),
    ensures
        well_numbered(*final(q)),
        pieces_view(*final(q)) == inbox_where(head@, *f),
        binds_view(*final(q)) == inbox_binds(*f),
        final(q).binds@.len() == 1 + inbox_condition_count(*f),
{
    q.push_text(head);
    q.push_param(INBOX_WHERE_USER, SqlValue::Uuid(f.user_uuid));
    q.push_text(INBOX_LIVE);
    push_opt_param(q, INBOX_TYPE, text_value(&f.message_type));
    let read = match f.is_read {
        Some(b) => Some(SqlValue::Bool(b)),
        None => None,
    };
    push_opt_param(q, INBOX_READ, read);
    push_opt_param(q, INBOX_ACTION, text_value(&f.action_status));
    push_opt_param(q, INBOX_PRIORITY, text_value(&f.priority));
    assert(pieces_view(*q) =~= inbox_where(head@, *f));
    assert(binds_view(*q) =~= inbox_binds(*f));
}

/// A page of a user's messages, newest first: `fetch_user_messages`.
pub fn user_messages_query(f: &InboxFilter, offset: i64, limit: i64) -> (q: SqlQuery)
    ensures
        well_numbered(q),
        pieces_view(q) == inbox_where(INBOX_COLUMNS@, *f) + page_clause(INBOX_PAGE@, 2 + inbox_condition_count(*f)),
        binds_view(q) == inbox_binds(*f) + seq![SqlValueView::Int(limit), SqlValueView::Int(offset)],
{
    let mut q = SqlQuery::new();
    push_inbox_where(&mut q, INBOX_COLUMNS, f);
    push_page(&mut q, INBOX_PAGE, offset, limit);
    q
}

/// The number of a user's messages matching the filters: `fetch_user_messages_count`.
pub fn user_messages_count_query(f: &InboxFilter) -> (q: SqlQuery)
    ensures
        well_numbered(q),
        pieces_view(q) == inbox_where(INBOX_COUNT@, *f),
        binds_view(q) == inbox_binds(*f),
{
    let mut q = SqlQuery::new();
    push_inbox_where(&mut q, INBOX_COUNT, f);
    q
}

/// The status a message action records: `accept` is `accepted`, `reject`
/// is `rejected`; any other action is refused.
pub open spec fn action_status_of(action: Seq<char>) -> Option<Seq<char>> {
    if action == "accept"@ {
        Some("accepted"@)
    } else if action == "reject"@ {
        Some("rejected"@)
    } else {
        None
    }
}

/// Builds `action_status_of(action@)`: the status `handle_message` records.
pub fn message_action_status(action: &str) -> (r: Option<&'static str>)
    ensures
        match action_status_of(action@) {
            Some(s) => r matches Some(t) && t@ == s,
            None => r is None,
        },
{
    let a = chars_of(action);
    if equals(&a, "accept") {
        Some("accepted")
    } else if equals(&a, "reject") {
        Some("rejected")
    } else {
        None
    }
}

/// The texts of an inbox statement's scope and conditions are distinct.
proof fn lemma_inbox_texts_distinct()
    ensures
        INBOX_TYPE@ != INBOX_WHERE_USER@, INBOX_TYPE@ != INBOX_LIVE@, INBOX_TYPE@ != INBOX_READ@,
        INBOX_TYPE@ != INBOX_ACTION@, INBOX_TYPE@ != INBOX_PRIORITY@,
        INBOX_READ@ != INBOX_WHERE_USER@, INBOX_READ@ != INBOX_LIVE@, INBOX_READ@ != INBOX_ACTION@,
        INBOX_READ@ != INBOX_PRIORITY@,
        INBOX_ACTION@ != INBOX_WHERE_USER@, INBOX_ACTION@ != INBOX_LIVE@, INBOX_ACTION@ != INBOX_PRIORITY@,
        INBOX_PRIORITY@ != INBOX_WHERE_USER@, INBOX_PRIORITY@ != INBOX_LIVE@,
        INBOX_COLUMNS@.len() > 25, INBOX_COUNT@.len() > 25,
        INBOX_TYPE@.len() == 22, INBOX_READ@.len() == 18, INBOX_ACTION@.len() == 24, INBOX_PRIORITY@.len() == 18,
{
    reveal_strlit(" WHERE um.user_uuid = ");
    reveal_strlit(" AND m.deleted_at IS NULL");
    reveal_strlit(" AND m.message_type = ");
    reveal_strlit(" AND um.is_read = ");
    reveal_strlit(" AND um.action_status = ");
    reveal_strlit(" AND m.priority = ");
    reveal_strlit("SELECT COUNT(*) FROM user_messages um INNER JOIN messages m ON um.message_uuid = m.uuid");
    reveal_strlit("SELECT m.uuid AS message_uuid, m.message_type, m.title, m.content, m.sender_uuid, m.related_type, m.related_uuid, m.metadata, m.priority, m.created_at AS message_created_at, um.is_read, um.read_at, um.action_status, um.action_at, ui.nickname AS sender_name, ui.email AS sender_email FROM user_messages um INNER JOIN messages m ON um.message_uuid = m.uuid LEFT JOIN user_infos ui ON m.sender_uuid = ui.user_uuid");
    assert(INBOX_TYPE@[1] != INBOX_WHERE_USER@[1]);
    assert(INBOX_LIVE@.len() == 25);
    assert(INBOX_TYPE@.len() != INBOX_LIVE@.len());
    assert(INBOX_TYPE@.len() != INBOX_ACTION@.len());
    assert(INBOX_READ@[5] != INBOX_PRIORITY@[5]);
}

/// An inbox statement's scope and conditions for head `head`.
proof fn lemma_inbox_where_conditions(head: Seq<char>, f: InboxFilter)
    requires
        head.len() > 25,
    ensures
        condition_binds(inbox_where(head, f), inbox_binds(f), INBOX_WHERE_USER@, SqlValueView::Uuid(f.user_uuid)),
        match f.message_type {
            Some(t) => condition_binds(inbox_where(head, f), inbox_binds(f), INBOX_TYPE@, SqlValueView::Text(t@)),
            None => lacks(inbox_where(head, f), INBOX_TYPE@),
        },
        match f.is_read {
            Some(r) => condition_binds(inbox_where(head, f), inbox_binds(f), INBOX_READ@, SqlValueView::Bool(r)),
            None => lacks(inbox_where(head, f), INBOX_READ@),
        },
        match f.action_status {
            Some(a) => condition_binds(inbox_where(head, f), inbox_binds(f), INBOX_ACTION@, SqlValueView::Text(a@)),
            None => lacks(inbox_where(head, f), INBOX_ACTION@),
        },
        match f.priority {
            Some(p) => condition_binds(inbox_where(head, f), inbox_binds(f), INBOX_PRIORITY@, SqlValueView::Text(p@)),
            None => lacks(inbox_where(head, f), INBOX_PRIORITY@),
        },
{
    lemma_inbox_texts_distinct();
    let t: int = one_if(f.message_type is Some) as int;
    let r: int = one_if(f.is_read is Some) as int;
    let a: int = one_if(f.action_status is Some) as int;
    let i_type = 2nat;
    let i_read = i_type + one_if(f.message_type is Some);
    let i_action = i_read + one_if(f.is_read is Some);
    let i_priority = i_action + one_if(f.action_status is Some);
    let s0 = seq![SqlPieceView::Text(head)] + param_clause(INBOX_WHERE_USER@, 1) + seq![SqlPieceView::Text(INBOX_LIVE@)];
    let s1 = present_if(f.message_type is Some, param_clause(INBOX_TYPE@, i_type));
    let s2 = present_if(f.is_read is Some, param_clause(INBOX_READ@, i_read));
    let s3 = present_if(f.action_status is Some, param_clause(INBOX_ACTION@, i_action));
    let s4 = present_if(f.priority is Some, param_clause(INBOX_PRIORITY@, i_priority));
    let p = inbox_where(head, f);
    let b = inbox_binds(f);
    assert(p =~= s0 + s1 + s2 + s3 + s4);
    let b1 = present_if(f.message_type is Some, seq![SqlValueView::Text(f.message_type->0@)]);
    let b2 = present_if(f.is_read is Some, seq![SqlValueView::Bool(f.is_read->0)]);
    let b3 = present_if(f.action_status is Some, seq![SqlValueView::Text(f.action_status->0@)]);
    let b4 = present_if(f.priority is Some, seq![SqlValueView::Text(f.priority->0@)]);
    assert(b =~= seq![SqlValueView::Uuid(f.user_uuid)] + b1 + b2 + b3 + b4);
    assert(s0.len() == 4);
    assert(s1.len() == 2 * t);
    assert(s2.len() == 2 * r);
    assert(s3.len() == 2 * a);
    assert(b1.len() == t && b2.len() == r && b3.len() == a);
    // the scope
    assert(p[1] == SqlPieceView::Text(INBOX_WHERE_USER@));
    assert(p[2] == SqlPieceView::Param(1));
    assert(b[0] == SqlValueView::Uuid(f.user_uuid));
    // each segment lacks the texts of the others
    assert forall|c: Seq<char>| c == INBOX_TYPE@ || c == INBOX_READ@ || c == INBOX_ACTION@ || c == INBOX_PRIORITY@
        implies #[trigger] lacks(s0, c) by {
        assert(s0 =~= seq![SqlPieceView::Text(head), SqlPieceView::Text(INBOX_WHERE_USER@), SqlPieceView::Param(1), SqlPieceView::Text(INBOX_LIVE@)]);
        assert(head.len() != c.len());
    }
    // message type
    match f.message_type {
        Some(tv) => {
            assert(p[4] == SqlPieceView::Text(INBOX_TYPE@));
            assert(p[5] == SqlPieceView::Param(2));
            assert(b[1] == SqlValueView::Text(tv@));
        },
        None => {
            assert(lacks(s0, INBOX_TYPE@));
            assert(lacks(s1, INBOX_TYPE@));
            assert(lacks(s2, INBOX_TYPE@));
            assert(lacks(s3, INBOX_TYPE@));
            assert(lacks(s4, INBOX_TYPE@));
            lemma_lacks_add(s0, s1, INBOX_TYPE@);
            lemma_lacks_add(s0 + s1, s2, INBOX_TYPE@);
            lemma_lacks_add(s0 + s1 + s2, s3, INBOX_TYPE@);
            lemma_lacks_add(s0 + s1 + s2 + s3, s4, INBOX_TYPE@);
        },
    }
    match f.is_read {
        Some(rv) => {
            let i = 4 + 2 * t;
            assert(p[i] == SqlPieceView::Text(INBOX_READ@));
            assert(p[i + 1] == SqlPieceView::Param((2 + t) as u32));
            assert(b[1 + t] == SqlValueView::Bool(rv));
        },
        None => {
            assert(lacks(s0, INBOX_READ@));
            assert(lacks(s1, INBOX_READ@));
            assert(lacks(s2, INBOX_READ@));
            assert(lacks(s3, INBOX_READ@));
            assert(lacks(s4, INBOX_READ@));
            lemma_lacks_add(s0, s1, INBOX_READ@);
            lemma_lacks_add(s0 + s1, s2, INBOX_READ@);
            lemma_lacks_add(s0 + s1 + s2, s3, INBOX_READ@);
            lemma_lacks_add(s0 + s1 + s2 + s3, s4, INBOX_READ@);
        },
    }
    match f.action_status {
        Some(av) => {
            let i = 4 + 2 * t + 2 * r;
            assert(p[i] == SqlPieceView::Text(INBOX_ACTION@));
            assert(p[i + 1] == SqlPieceView::Param((2 + t + r) as u32));
            assert(b[1 + t + r] == SqlValueView::Text(av@));
        },
        None => {
            assert(lacks(s0, INBOX_ACTION@));
            assert(lacks(s1, INBOX_ACTION@));
            assert(lacks(s2, INBOX_ACTION@));
            assert(lacks(s3, INBOX_ACTION@));
            assert(lacks(s4, INBOX_ACTION@));
            lemma_lacks_add(s0, s1, INBOX_ACTION@);
            lemma_lacks_add(s0 + s1, s2, INBOX_ACTION@);
            lemma_lacks_add(s0 + s1 + s2, s3, INBOX_ACTION@);
            lemma_lacks_add(s0 + s1 + s2 + s3, s4, INBOX_ACTION@);
        },
    }
    match f.priority {
        Some(pv) => {
            let i = 4 + 2 * t + 2 * r + 2 * a;
            assert(p[i] == SqlPieceView::Text(INBOX_PRIORITY@));
            assert(p[i + 1] == SqlPieceView::Param((2 + t + r + a) as u32));
            assert(b[1 + t + r + a] == SqlValueView::Text(pv@));
        },
        None => {
            assert(lacks(s0, INBOX_PRIORITY@));
            assert(lacks(s1, INBOX_PRIORITY@));
            assert(lacks(s2, INBOX_PRIORITY@));
            assert(lacks(s3, INBOX_PRIORITY@));
            assert(lacks(s4, INBOX_PRIORITY@));
            lemma_lacks_add(s0, s1, INBOX_PRIORITY@);
            lemma_lacks_add(s0 + s1, s2, INBOX_PRIORITY@);
            lemma_lacks_add(s0 + s1 + s2, s3, INBOX_PRIORITY@);
            lemma_lacks_add(s0 + s1 + s2 + s3, s4, INBOX_PRIORITY@);
        },
    }
}

/// Every filter of an inbox listing (and of its count) filters on its own
/// column: the user is the `um.user_uuid` scope, and each given filter's
/// value is bound to the placeholder of that filter's condition
/// (`m.message_type`, `um.is_read`, `um.action_status`, `m.priority`); a
/// filter that is not given adds no condition on its column.
pub proof fn law_inbox_filters_on_their_columns(f: InboxFilter)
    ensures
        forall|head: Seq<char>| #![trigger inbox_where(head, f)] head == INBOX_COLUMNS@ || head == INBOX_COUNT@ ==> {
            &&& condition_binds(inbox_where(head, f), inbox_binds(f), " WHERE um.user_uuid = "@, SqlValueView::Uuid(f.user_uuid))
            &&& match f.message_type {
                Some(t) => condition_binds(inbox_where(head, f), inbox_binds(f), " AND m.message_type = "@, SqlValueView::Text(t@)),
                None => lacks(inbox_where(head, f), " AND m.message_type = "@),
            }
            &&& match f.is_read {
                Some(r) => condition_binds(inbox_where(head, f), inbox_binds(f), " AND um.is_read = "@, SqlValueView::Bool(r)),
                None => lacks(inbox_where(head, f), " AND um.is_read = "@),
            }
            &&& match f.action_status {
                Some(a) => condition_binds(inbox_where(head, f), inbox_binds(f), " AND um.action_status = "@, SqlValueView::Text(a@)),
                None => lacks(inbox_where(head, f), " AND um.action_status = "@),
            }
            &&& match f.priority {
                Some(p) => condition_binds(inbox_where(head, f), inbox_binds(f), " AND m.priority = "@, SqlValueView::Text(p@)),
                None => lacks(inbox_where(head, f), " AND m.priority = "@),
            }
        },
{
    lemma_inbox_texts_distinct();
    lemma_inbox_where_conditions(INBOX_COLUMNS@, f);
    lemma_inbox_where_conditions(INBOX_COUNT@, f);
}

} // verus!
