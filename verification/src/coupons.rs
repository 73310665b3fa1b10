//! The coupon wallet listing: a page of a user's coupons with their details,
//! optionally of one status, and their total.

use vstd::prelude::*;
use crate::queries::{one_if, page_clause, param_clause, present_if, push_opt_param, push_page};
use crate::queries::{condition_binds, lacks, OFFSET};
use crate::requests::page_offset;
use crate::teams::opt_view;
use crate::sql::{binds_view, pieces_view, well_numbered, SqlPieceView, SqlQuery, SqlValue, SqlValueView};

verus! {

pub const WALLET_COLUMNS: &'static str = "SELECT uc.id, uc.user_uuid, uc.coupon_uuid, uc.status, uc.issued_at, uc.used_at, uc.expires_at, c.code, c.name, c.description, c.discount_type, c.discount_value, c.min_amount, c.max_discount FROM user_coupons uc INNER JOIN coupons c ON uc.coupon_uuid = c.uuid WHERE uc.user_uuid = ";
pub const WALLET_STATUS: &'static str = " AND uc.status = ";
pub const WALLET_PAGE: &'static str = " ORDER BY uc.issued_at DESC LIMIT ";
pub const WALLET_COUNT: &'static str = "SELECT COUNT(*) FROM user_coupons WHERE user_uuid = ";
pub const WALLET_COUNT_STATUS: &'static str = " AND status = ";

/// The optional status as a bound value.
fn status_value(s: &Option<String>) -> (v: Option<SqlValue>)
    ensures
        v is Some == s is Some,
        s is Some ==> v->0@ == SqlValueView::Text(s->0@),
{
    match s {
        Some(t) => Some(SqlValue::Text(t.clone())),
        None => None,
    }
}

/// The pieces of the coupon page: the user `$1`, the status `$2` when
/// given, then the page.
pub open spec fn coupon_page_pieces(status_given: bool) -> Seq<SqlPieceView> {
    param_clause(WALLET_COLUMNS@, 1) + present_if(status_given, param_clause(WALLET_STATUS@, 2))
        + page_clause(WALLET_PAGE@, 2 + one_if(status_given))
}

/// The values of the coupon page: user, status when given, page size, offset.
pub open spec fn coupon_page_binds(user: u128, status: Option<Seq<char>>, page_size: i64, offset: int) -> Seq<SqlValueView> {
    seq![SqlValueView::Uuid(user)] + present_if(status is Some, seq![SqlValueView::Text(status->0)])
        + seq![SqlValueView::Int(page_size), SqlValueView::Int(offset as i64)]
}

/// The pieces of the coupon total: the user `$1`, the status `$2` when given.
pub open spec fn coupon_count_pieces(status_given: bool) -> Seq<SqlPieceView> {
    param_clause(WALLET_COUNT@, 1) + present_if(status_given, param_clause(WALLET_COUNT_STATUS@, 2))
}

/// The values of the coupon total: user, status when given.
pub open spec fn coupon_count_binds(user: u128, status: Option<Seq<char>>) -> Seq<SqlValueView> {
    seq![SqlValueView::Uuid(user)] + present_if(status is Some, seq![SqlValueView::Text(status->0)])
}

/// The page and the total of a user's coupons (`fetch_user_coupons`): the
/// page of size `page_size` starting at `(page - 1) * page_size`, newest
/// first, restricted to `status` when given.
pub fn user_coupons_queries(user: u128, status: &Option<String>, page: i64, page_size: i64) -> (r: (SqlQuery, SqlQuery))
    requires
        i64::MIN <= (page - 1) * page_size <= i64::MAX,
        page - 1 >= i64::MIN,
    ensures
        well_numbered(r.0),
        well_numbered(r.1),
        pieces_view(r.0) == coupon_page_pieces(status is Some),
        binds_view(r.0) == coupon_page_binds(user, opt_view(*status), page_size, (page - 1) * page_size),
        pieces_view(r.1) == coupon_count_pieces(status is Some),
        binds_view(r.1) == coupon_count_binds(user, opt_view(*status)),
{
    let offset = page_offset(page, page_size);
    let mut list = SqlQuery::new();
    list.push_param(WALLET_COLUMNS, SqlValue::Uuid(user));
    push_opt_param(&mut list, WALLET_STATUS, status_value(status));
    push_page(&mut list, WALLET_PAGE, offset, page_size);
    let mut count = SqlQuery::new();
    count.push_param(WALLET_COUNT, SqlValue::Uuid(user));
    push_opt_param(&mut count, WALLET_COUNT_STATUS, status_value(status));
    assert(pieces_view(list) =~= param_clause(WALLET_COLUMNS@, 1)
        + present_if(status is Some, param_clause(WALLET_STATUS@, 2))
        + page_clause(WALLET_PAGE@, 2 + one_if(status is Some)));
    assert(binds_view(list) =~= seq![SqlValueView::Uuid(user)]
        + present_if(status is Some, seq![SqlValueView::Text(status->0@)])
        + seq![SqlValueView::Int(page_size), SqlValueView::Int(offset)]);
    assert(pieces_view(count) =~= param_clause(WALLET_COUNT@, 1)
        + present_if(status is Some, param_clause(WALLET_COUNT_STATUS@, 2)));
    assert(binds_view(count) =~= seq![SqlValueView::Uuid(user)]
        + present_if(status is Some, seq![SqlValueView::Text(status->0@)]));
    (list, count)
}

/// The coupon listing filters and pages as asked: the user is bound after
/// `WHERE uc.user_uuid =` (`WHERE user_uuid =` in the total), a given status
/// after the status condition of both statements and no status condition
/// without one, the page size after `LIMIT` and `(page - 1) * page_size`
/// after `OFFSET`.
pub proof fn law_coupon_listing(user: u128, status: Option<Seq<char>>, page_size: i64, offset: int)
    ensures
        condition_binds(coupon_page_pieces(status is Some), coupon_page_binds(user, status, page_size, offset),
            WALLET_COLUMNS@, SqlValueView::Uuid(user)),
        condition_binds(coupon_count_pieces(status is Some), coupon_count_binds(user, status),
            "SELECT COUNT(*) FROM user_coupons WHERE user_uuid = "@, SqlValueView::Uuid(user)),
        condition_binds(coupon_page_pieces(status is Some), coupon_page_binds(user, status, page_size, offset),
            " ORDER BY uc.issued_at DESC LIMIT "@, SqlValueView::Int(page_size)),
        condition_binds(coupon_page_pieces(status is Some), coupon_page_binds(user, status, page_size, offset),
            " OFFSET "@, SqlValueView::Int(offset as i64)),
        match status {
            Some(st) => condition_binds(coupon_page_pieces(true), coupon_page_binds(user, status, page_size, offset),
                " AND uc.status = "@, SqlValueView::Text(st))
                && condition_binds(coupon_count_pieces(true), coupon_count_binds(user, status), " AND status = "@,
                SqlValueView::Text(st)),
            None => lacks(coupon_page_pieces(false), " AND uc.status = "@)
                && lacks(coupon_count_pieces(false), " AND status = "@),
        },
{
    reveal_strlit(" AND uc.status = ");
    reveal_strlit(" AND status = ");
    reveal_strlit(" ORDER BY uc.issued_at DESC LIMIT ");
    reveal_strlit(" OFFSET ");
    reveal_strlit("SELECT COUNT(*) FROM user_coupons WHERE user_uuid = ");
    let g = status is Some;
    let p = coupon_page_pieces(g);
    let b = coupon_page_binds(user, status, page_size, offset);
    let c = coupon_count_pieces(g);
    let cb = coupon_count_binds(user, status);
    assert(p[0] == SqlPieceView::Text(WALLET_COLUMNS@) && p[1] == SqlPieceView::Param(1));
    assert(c[0] == SqlPieceView::Text(WALLET_COUNT@) && c[1] == SqlPieceView::Param(1));
    if g {
        assert(p =~= seq![SqlPieceView::Text(WALLET_COLUMNS@), SqlPieceView::Param(1), SqlPieceView::Text(WALLET_STATUS@),
            SqlPieceView::Param(2), SqlPieceView::Text(WALLET_PAGE@), SqlPieceView::Param(3), SqlPieceView::Text(OFFSET@),
            SqlPieceView::Param(4)]);
        assert(p[2] == SqlPieceView::Text(WALLET_STATUS@) && p[3] == SqlPieceView::Param(2));
        assert(p[4] == SqlPieceView::Text(WALLET_PAGE@) && p[5] == SqlPieceView::Param(3));
        assert(p[6] == SqlPieceView::Text(OFFSET@) && p[7] == SqlPieceView::Param(4));
        assert(c =~= seq![SqlPieceView::Text(WALLET_COUNT@), SqlPieceView::Param(1), SqlPieceView::Text(WALLET_COUNT_STATUS@),
            SqlPieceView::Param(2)]);
        assert(c[2] == SqlPieceView::Text(WALLET_COUNT_STATUS@) && c[3] == SqlPieceView::Param(2));
    } else {
        assert(p =~= seq![SqlPieceView::Text(WALLET_COLUMNS@), SqlPieceView::Param(1), SqlPieceView::Text(WALLET_PAGE@),
            SqlPieceView::Param(2), SqlPieceView::Text(OFFSET@), SqlPieceView::Param(3)]);
        assert(p[2] == SqlPieceView::Text(WALLET_PAGE@) && p[3] == SqlPieceView::Param(2));
        assert(p[4] == SqlPieceView::Text(OFFSET@) && p[5] == SqlPieceView::Param(3));
        assert(c =~= seq![SqlPieceView::Text(WALLET_COUNT@), SqlPieceView::Param(1)]);
        reveal_strlit("SELECT uc.id, uc.user_uuid, uc.coupon_uuid, uc.status, uc.issued_at, uc.used_at, uc.expires_at, c.code, c.name, c.description, c.discount_type, c.discount_value, c.min_amount, c.max_discount FROM user_coupons uc INNER JOIN coupons c ON uc.coupon_uuid = c.uuid WHERE uc.user_uuid = ");
        reveal_strlit(" ORDER BY uc.issued_at DESC LIMIT ");
        assert(WALLET_COLUMNS@.len() != WALLET_STATUS@.len());
        assert(WALLET_PAGE@.len() != WALLET_STATUS@.len());
        assert(OFFSET@.len() != WALLET_STATUS@.len());
        assert(WALLET_COUNT@.len() != WALLET_COUNT_STATUS@.len());
    }
}

} // verus!
