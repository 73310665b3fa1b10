//! Referral links and points: which links are unlocked (every link is first
//! locked, then the links of the unlocked tiers are unlocked again), which
//! link is current, and spending points.

use vstd::prelude::*;
use crate::queries::param_clause;
use crate::sql::{binds_view, pieces_view, well_numbered, SqlPieceView, SqlQuery, SqlValue, SqlValueView};

verus! {

pub const LOCK_ALL_LINKS: &'static str = "UPDATE referral_links SET unlocked = FALSE WHERE user_uuid = ";
pub const UNLOCK_LINKS: &'static str = "UPDATE referral_links SET unlocked = TRUE WHERE user_uuid = ";
pub const UNLOCK_TIERS: &'static str = " AND tier_uuid = ANY(";
pub const UNLOCK_END: &'static str = "::uuid[])";

/// The statements that set which links of `user` are unlocked: lock them
/// all; then, when some tiers are unlocked, unlock the links of those tiers.
pub open spec fn unlock_plan(user: u128, tiers: Seq<u128>) -> Seq<(Seq<SqlPieceView>, Seq<SqlValueView>)> {
    let lock = (param_clause(LOCK_ALL_LINKS@, 1), seq![SqlValueView::Uuid(user)]);
    let unlock = (
        param_clause(UNLOCK_LINKS@, 1) + param_clause(UNLOCK_TIERS@, 2) + seq![SqlPieceView::Text(UNLOCK_END@)],
        seq![SqlValueView::Uuid(user), SqlValueView::UuidList(tiers)],
    );
    if tiers.len() == 0 {
        seq![lock]
    } else {
        seq![lock, unlock]
    }
}

/// The statements of `unlock_plan`, in order.
pub fn unlock_statements(user: u128, tiers: &Vec<u128>) -> (r: Vec<SqlQuery>)
    ensures
        r@.len() == unlock_plan(user, tiers@).len(),
        forall|i: int| #![trigger r@[i]] 0 <= i < r@.len() ==> well_numbered(r@[i])
            && pieces_view(r@[i]) == unlock_plan(user, tiers@)[i].0
            && binds_view(r@[i]) == unlock_plan(user, tiers@)[i].1,
{
    let mut r: Vec<SqlQuery> = Vec::new();
    let mut lock = SqlQuery::new();
    lock.push_param(LOCK_ALL_LINKS, SqlValue::Uuid(user));
    r.push(lock);
    if tiers.len() > 0 {
        let mut unlock = SqlQuery::new();
        unlock.push_param(UNLOCK_LINKS, SqlValue::Uuid(user));
        unlock.push_param(UNLOCK_TIERS, SqlValue::UuidList(tiers.clone()));
        unlock.push_text(UNLOCK_END);
        r.push(unlock);
    }
    r
}

pub const CLEAR_CURRENT: &'static str = "UPDATE referral_links SET is_current = false WHERE user_uuid = ";
pub const SET_CURRENT: &'static str = "UPDATE referral_links SET is_current = true WHERE uuid = ";
pub const AND_USER: &'static str = " AND user_uuid = ";

/// Making `link` the current referral link of `user`: clear the current
/// flag of every link of the user, then set it on `link` if it is the
/// user's.
pub open spec fn switch_plan(user: u128, link: u128) -> Seq<(Seq<SqlPieceView>, Seq<SqlValueView>)> {
    seq![
        (param_clause(CLEAR_CURRENT@, 1), seq![SqlValueView::Uuid(user)]),
        (param_clause(SET_CURRENT@, 1) + param_clause(AND_USER@, 2), seq![SqlValueView::Uuid(link), SqlValueView::Uuid(user)]),
    ]
}

/// The statements of `switch_plan`, in order.
pub fn switch_link_statements(user: u128, link: u128) -> (r: Vec<SqlQuery>)
    ensures
        r@.len() == 2,
        forall|i: int| #![trigger r@[i]] 0 <= i < 2 ==> well_numbered(r@[i])
            && pieces_view(r@[i]) == switch_plan(user, link)[i].0
            && binds_view(r@[i]) == switch_plan(user, link)[i].1,
{
    let mut clear = SqlQuery::new();
    clear.push_param(CLEAR_CURRENT, SqlValue::Uuid(user));
    let mut set = SqlQuery::new();
    set.push_param(SET_CURRENT, SqlValue::Uuid(link));
    set.push_param(AND_USER, SqlValue::Uuid(user));
    let mut r: Vec<SqlQuery> = Vec::new();
    r.push(clear);
    r.push(set);
    assert(pieces_view(r@[0]) =~= switch_plan(user, link)[0].0);
    assert(pieces_view(r@[1]) =~= switch_plan(user, link)[1].0);
    assert(binds_view(r@[0]) =~= switch_plan(user, link)[0].1);
    assert(binds_view(r@[1]) =~= switch_plan(user, link)[1].1);
    r
}

pub const DEDUCT_POINTS: &'static str = "UPDATE user_referral_points SET available_points = available_points - ";
pub const ADD_USED: &'static str = ", used_points = used_points + ";
pub const DEDUCT_WHERE: &'static str = ", updated_at = CURRENT_TIMESTAMP WHERE user_uuid = ";
pub const ENOUGH_POINTS: &'static str = " AND available_points >= ";

/// Spending `points` of `user`'s available points: they move to the used
/// points, and only when at least that many are available.
pub open spec fn deduct_pieces() -> Seq<SqlPieceView> {
    seq![
        SqlPieceView::Text(DEDUCT_POINTS@),
        SqlPieceView::Param(1),
        SqlPieceView::Text(ADD_USED@),
        SqlPieceView::Param(1),
        SqlPieceView::Text(DEDUCT_WHERE@),
        SqlPieceView::Param(2),
        SqlPieceView::Text(ENOUGH_POINTS@),
        SqlPieceView::Param(1),
    ]
}

/// The statement of `deduct_pieces`, with `points` bound to `$1` and the
/// user to `$2`.
pub fn deduct_points_query(user: u128, points: i32) -> (q: SqlQuery)
    ensures
        well_numbered(q),
        pieces_view(q) == deduct_pieces(),
        binds_view(q) == seq![SqlValueView::Int32(points), SqlValueView::Uuid(user)],
{
    let mut q = SqlQuery::new();
    q.push_param(DEDUCT_POINTS, SqlValue::Int32(points));
    q.push_repeat(ADD_USED);
    q.push_param(DEDUCT_WHERE, SqlValue::Uuid(user));
    q.push_again(ENOUGH_POINTS, 1);
    assert(pieces_view(q) =~= deduct_pieces());
    assert(binds_view(q) =~= seq![SqlValueView::Int32(points), SqlValueView::Uuid(user)]);
    q
}

/// Unlocking first locks every link of the user, then (only when some tiers
/// are unlocked) unlocks the user's links of exactly those tiers; switching
/// clears the current flag of every link of the user before setting it on
/// the chosen link of that user.
pub proof fn law_referral_link_updates(user: u128, tiers: Seq<u128>, link: u128)
    ensures
        unlock_plan(user, tiers)[0] == (
            seq![SqlPieceView::Text("UPDATE referral_links SET unlocked = FALSE WHERE user_uuid = "@), SqlPieceView::Param(1)],
            seq![SqlValueView::Uuid(user)],
        ),
        unlock_plan(user, tiers).len() == (if tiers.len() == 0 { 1nat } else { 2nat }),
        tiers.len() > 0 ==> unlock_plan(user, tiers)[1] == (
            seq![
                SqlPieceView::Text("UPDATE referral_links SET unlocked = TRUE WHERE user_uuid = "@),
                SqlPieceView::Param(1),
                SqlPieceView::Text(" AND tier_uuid = ANY("@),
                SqlPieceView::Param(2),
                SqlPieceView::Text("::uuid[])"@),
            ],
            seq![SqlValueView::Uuid(user), SqlValueView::UuidList(tiers)],
        ),
        switch_plan(user, link)[0] == (
            seq![SqlPieceView::Text("UPDATE referral_links SET is_current = false WHERE user_uuid = "@), SqlPieceView::Param(1)],
            seq![SqlValueView::Uuid(user)],
        ),
        switch_plan(user, link)[1] == (
            seq![
                SqlPieceView::Text("UPDATE referral_links SET is_current = true WHERE uuid = "@),
                SqlPieceView::Param(1),
                SqlPieceView::Text(" AND user_uuid = "@),
                SqlPieceView::Param(2),
            ],
            seq![SqlValueView::Uuid(link), SqlValueView::Uuid(user)],
        ),
{
    let u = unlock_plan(user, tiers);
    assert(u[0].0 =~= seq![SqlPieceView::Text(LOCK_ALL_LINKS@), SqlPieceView::Param(1)]);
    if tiers.len() > 0 {
        reveal_with_fuel(crate::sql::listed_params, 3);
        assert(u[1].0 =~= seq![
            SqlPieceView::Text(UNLOCK_LINKS@),
            SqlPieceView::Param(1),
            SqlPieceView::Text(UNLOCK_TIERS@),
            SqlPieceView::Param(2),
            SqlPieceView::Text(UNLOCK_END@),
        ]);
    }
    assert(switch_plan(user, link)[0].0 =~= seq![SqlPieceView::Text(CLEAR_CURRENT@), SqlPieceView::Param(1)]);
    assert(switch_plan(user, link)[1].0 =~= seq![
        SqlPieceView::Text(SET_CURRENT@), SqlPieceView::Param(1), SqlPieceView::Text(AND_USER@), SqlPieceView::Param(2)]);
}
} // verus!
