//! Answering a team invitation: the invitation is read and locked, checked,
//! and on acceptance the membership is upserted and the invitation marked
//! accepted; on rejection it is marked rejected. A missing invitation, or
//! one that cannot be answered so, is refused as not found.

use vstd::prelude::*;
use crate::queries::param_clause;
use crate::sql::{
    binds_view, listed_pieces, listed_statement, pieces_view, values_view, SqlPieceView, SqlQuery, SqlValue,
    SqlValueView,
};
use crate::teams::{can_accept_invitation, can_reject_invitation, invitation_acceptable, invitation_pending};

verus! {

pub const FIND_INVITATION: &'static str = "SELECT id, uuid, team_uuid, email, role, invited_by, token, expires_at, status, accepted_at, created_at, updated_at FROM team_invitations WHERE uuid = ";
pub const LOCK_INVITATION: &'static str = " AND deleted_at IS NULL FOR UPDATE";
pub const UPSERT_MEMBER: &'static str = "INSERT INTO team_members (team_uuid, workspace_uuid, user_uuid, role, invited_by, status) VALUES (";
pub const UPSERT_MEMBER_END: &'static str = ", 'active') ON CONFLICT (team_uuid, user_uuid, workspace_uuid) DO UPDATE SET role = EXCLUDED.role, invited_by = EXCLUDED.invited_by, status = 'active', deleted_at = NULL, updated_at = NOW()";
pub const MARK_ACCEPTED: &'static str = "UPDATE team_invitations SET status = 'accepted', accepted_at = NOW() WHERE uuid = ";
pub const MARK_REJECTED: &'static str = "UPDATE team_invitations SET status = 'rejected', updated_at = NOW() WHERE uuid = ";

/// A statement as pieces and bound values.
pub open spec fn stmt_view(q: SqlQuery) -> (Seq<SqlPieceView>, Seq<SqlValueView>) {
    (pieces_view(q), binds_view(q))
}

/// What an answer reads of an invitation.
#[derive(Clone, Debug, PartialEq, Eq)]
pub struct InvitationRecord {
    pub team_uuid: u128,
    pub role: String,
    pub invited_by: u128,
    pub status: String,
    /// Expiry instant, microseconds since the epoch (UTC).
    pub expires_at: i64,
}

/// The statement that reads and locks a live invitation.
pub open spec fn lookup_stmt(invitation: u128) -> (Seq<SqlPieceView>, Seq<SqlValueView>) {
    (param_clause(FIND_INVITATION@, 1) + seq![SqlPieceView::Text(LOCK_INVITATION@)], seq![SqlValueView::Uuid(invitation)])
}

/// The membership upsert of an accepted invitation: the invitation's team,
/// role and inviter, the given workspace and user, status `active`, not
/// deleted.
pub open spec fn upsert_member_stmt(inv: InvitationRecord, workspace: u128, user: u128) -> (Seq<SqlPieceView>, Seq<SqlValueView>) {
    (
        listed_pieces(UPSERT_MEMBER@, 5, UPSERT_MEMBER_END@),
        seq![
            SqlValueView::Uuid(inv.team_uuid),
            SqlValueView::Uuid(workspace),
            SqlValueView::Uuid(user),
            SqlValueView::Text(inv.role@),
            SqlValueView::Uuid(inv.invited_by),
        ],
    )
}

/// `head $1` with the invitation bound to `$1`.
pub open spec fn mark_stmt(head: Seq<char>, invitation: u128) -> (Seq<SqlPieceView>, Seq<SqlValueView>) {
    (param_clause(head, 1), seq![SqlValueView::Uuid(invitation)])
}

/// Builds `lookup_stmt(invitation)`.
pub fn invitation_lookup_query(invitation: u128) -> (q: SqlQuery)
    ensures
        stmt_view(q) == lookup_stmt(invitation),
{
    let mut q = SqlQuery::new();
    q.push_param(FIND_INVITATION, SqlValue::Uuid(invitation));
    q.push_text(LOCK_INVITATION);
    assert(pieces_view(q) =~= lookup_stmt(invitation).0);
    assert(binds_view(q) =~= lookup_stmt(invitation).1);
    q
}

fn mark_query(head: &'static str, invitation: u128) -> (q: SqlQuery)
    ensures
        stmt_view(q) == mark_stmt(head@, invitation),
{
    let mut q = SqlQuery::new();
    q.push_param(head, SqlValue::Uuid(invitation));
    assert(pieces_view(q) =~= mark_stmt(head@, invitation).0);
    assert(binds_view(q) =~= mark_stmt(head@, invitation).1);
    q
}

/// Accepting invitation `invitation` (read as `inv`, `None` when there is no
/// live one) for `user` in `workspace` at `now`. `None`, the not-found
/// refusal, when it is missing, not pending or expired; otherwise the team
/// joined and the two writes in order: the membership upsert, then the
/// invitation marked accepted.
pub fn accept_invitation_writes(
    inv: &Option<InvitationRecord>,
    invitation: u128,
    workspace: u128,
    user: u128,
    now: i64,
) -> (r: Option<(u128, Vec<SqlQuery>)>)
    ensures
        match *inv {
            None => r is None,
            Some(i) => if invitation_acceptable(i.status@, i.expires_at, now) {
                r matches Some((team, w)) && team == i.team_uuid && w@.len() == 2
                    && stmt_view(w@[0]) == upsert_member_stmt(i, workspace, user)
                    && stmt_view(w@[1]) == mark_stmt(MARK_ACCEPTED@, invitation)
            } else {
                r is None
            },
        },
{
    match inv {
        None => None,
        Some(i) => {
            if !can_accept_invitation(i.status.as_str(), i.expires_at, now) {
                return None;
            }
            let mut vals: Vec<SqlValue> = Vec::new();
            vals.push(SqlValue::Uuid(i.team_uuid));
            vals.push(SqlValue::Uuid(workspace));
            vals.push(SqlValue::Uuid(user));
            vals.push(SqlValue::Text(i.role.clone()));
            vals.push(SqlValue::Uuid(i.invited_by));
            let upsert = listed_statement(UPSERT_MEMBER, vals, UPSERT_MEMBER_END);
            assert(values_view(vals@) =~= upsert_member_stmt(*i, workspace, user).1);
            let mut w: Vec<SqlQuery> = Vec::new();
            w.push(upsert);
            w.push(mark_query(MARK_ACCEPTED, invitation));
            Some((i.team_uuid, w))
        },
    }
}

/// Rejecting invitation `invitation` (read as `inv`): `None`, the not-found
/// refusal, when it is missing or not pending (an expired one may be
/// rejected); otherwise the one write that marks it rejected.
pub fn reject_invitation_writes(inv: &Option<InvitationRecord>, invitation: u128) -> (r: Option<SqlQuery>)
    ensures
        match *inv {
            None => r is None,
            Some(i) => if invitation_pending(i.status@) {
                r matches Some(q) && stmt_view(q) == mark_stmt(MARK_REJECTED@, invitation)
            } else {
                r is None
            },
        },
{
    match inv {
        None => None,
        Some(i) => if can_reject_invitation(i.status.as_str()) {
            Some(mark_query(MARK_REJECTED, invitation))
        } else {
            None
        },
    }
}

/// An invitation can be accepted exactly while its status is `pending` and
/// the instant is not past its expiry, and rejected exactly while it is
/// pending; accepting upserts the membership with the invitation's team,
/// the accepting user's workspace and identifier, the invitation's role and
/// inviter (in that column order), active, then marks the invitation
/// accepted by its identifier.
pub proof fn law_invitation_answers(inv: InvitationRecord, invitation: u128, workspace: u128, user: u128, now: i64)
    ensures
        invitation_acceptable(inv.status@, inv.expires_at, now) <==> (inv.status@ == "pending"@ && now <= inv.expires_at),
        invitation_pending(inv.status@) <==> inv.status@ == "pending"@,
        upsert_member_stmt(inv, workspace, user).0[0] == SqlPieceView::Text(
            "INSERT INTO team_members (team_uuid, workspace_uuid, user_uuid, role, invited_by, status) VALUES ("@,
        ),
        upsert_member_stmt(inv, workspace, user).1 == seq![
            SqlValueView::Uuid(inv.team_uuid),
            SqlValueView::Uuid(workspace),
            SqlValueView::Uuid(user),
            SqlValueView::Text(inv.role@),
            SqlValueView::Uuid(inv.invited_by),
        ],
        mark_stmt(MARK_ACCEPTED@, invitation) == (
            seq![SqlPieceView::Text("UPDATE team_invitations SET status = 'accepted', accepted_at = NOW() WHERE uuid = "@),
                SqlPieceView::Param(1)],
            seq![SqlValueView::Uuid(invitation)],
        ),
        mark_stmt(MARK_REJECTED@, invitation) == (
            seq![SqlPieceView::Text("UPDATE team_invitations SET status = 'rejected', updated_at = NOW() WHERE uuid = "@),
                SqlPieceView::Param(1)],
            seq![SqlValueView::Uuid(invitation)],
        ),
{
    reveal_with_fuel(crate::sql::listed_params, 6);
    assert(mark_stmt(MARK_ACCEPTED@, invitation).0 =~= seq![SqlPieceView::Text(MARK_ACCEPTED@), SqlPieceView::Param(1)]);
    assert(mark_stmt(MARK_REJECTED@, invitation).0 =~= seq![SqlPieceView::Text(MARK_REJECTED@), SqlPieceView::Param(1)]);
}
} // verus!
