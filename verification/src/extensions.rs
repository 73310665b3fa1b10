//! The extension catalogue listing: its ordering and its statement.

use vstd::prelude::*;
use crate::queries::{param_clause, OFFSET};
use crate::sql::{binds_view, pieces_view, well_numbered, SqlPieceView, SqlQuery, SqlValue, SqlValueView};
use crate::queries::condition_binds;
use crate::text::{chars_of, equals, has_prefix};

verus! {

/// The lower-case form of an ASCII letter; other characters are unchanged.
pub open spec fn ascii_lower(c: char) -> char {
    if 'A' <= c && c <= 'Z' {
        ((c as int) + 32) as char
    } else {
        c
    }
}

/// Builds `s@` with `ascii_lower` applied to each character.
pub fn to_ascii_lowercase(s: &str) -> (r: Vec<char>)
    ensures
        r@ == s@.map_values(|c: char| ascii_lower(c)),
{
    let cs = chars_of(s);
    let mut r: Vec<char> = Vec::new();
    let mut i: usize = 0;
    while i < cs.len()
        invariant
            cs@ == s@,
            i <= cs@.len(),
            r@ == cs@.subrange(0, i as int).map_values(|c: char| ascii_lower(c)),
        decreases cs@.len() - i,
    {
        let c = cs[i];
        let l = if 'A' <= c && c <= 'Z' { ((c as u8) + 32) as char } else { c };
        r.push(l);
        assert(cs@.subrange(0, i + 1).map_values(|c: char| ascii_lower(c))
            =~= cs@.subrange(0, i as int).map_values(|c: char| ascii_lower(c)).push(ascii_lower(cs@[i as int])));
        i = i + 1;
    }
    assert(cs@.subrange(0, cs@.len() as int) =~= cs@);
    r
}

pub const BY_RATING_ASC: &'static str = "rating ASC NULLS LAST, created_at DESC";
pub const BY_RATING_DESC: &'static str = "rating DESC NULLS LAST, created_at DESC";
pub const BY_NAME_ASC: &'static str = "name ASC, created_at DESC";
pub const BY_NAME_DESC: &'static str = "name DESC, created_at DESC";
pub const BY_NEWEST_ASC: &'static str = "updated_at ASC NULLS LAST, created_at ASC";
pub const BY_NEWEST_DESC: &'static str = "updated_at DESC NULLS LAST, created_at DESC";
pub const BY_DOWNLOADS_ASC: &'static str = "downloads_count ASC NULLS LAST, created_at DESC";
pub const BY_DOWNLOADS_DESC: &'static str = "downloads_count DESC NULLS LAST, created_at DESC";

/// The ordering of the catalogue. The key defaults to `downloads` and the
/// direction to `desc`; the direction is compared in ASCII lower case and
/// only `asc` is ascending; an unknown key orders by downloads, descending.
pub open spec fn order_clause(sort_by: Option<Seq<char>>, sort_order: Option<Seq<char>>) -> Seq<char> {
    let key = match sort_by {
        Some(k) => k,
        None => "downloads"@,
    };
    let asc = match sort_order {
        Some(o) => o.map_values(|c: char| ascii_lower(c)) == "asc"@,
        None => false,
    };
    if key == "rating"@ {
        if asc { BY_RATING_ASC@ } else { BY_RATING_DESC@ }
    } else if key == "name"@ {
        if asc { BY_NAME_ASC@ } else { BY_NAME_DESC@ }
    } else if key == "newest"@ {
        if asc { BY_NEWEST_ASC@ } else { BY_NEWEST_DESC@ }
    } else if key == "downloads"@ && asc {
        BY_DOWNLOADS_ASC@
    } else {
        BY_DOWNLOADS_DESC@
    }
}

/// The view of an optional string slice.
pub open spec fn opt_str_view(s: Option<&str>) -> Option<Seq<char>> {
    match s {
        Some(t) => Some(t@),
        None => None,
    }
}

/// Chooses `order_clause`.
pub fn extension_order_clause(sort_by: Option<&str>, sort_order: Option<&str>) -> (c: &'static str)
    ensures
        c@ == order_clause(opt_str_view(sort_by), opt_str_view(sort_order)),
{
    proof {
        reveal_strlit("desc");
        reveal_strlit("asc");
        assert("desc"@.map_values(|c: char| ascii_lower(c)) =~= "desc"@);
    }
    let key = chars_of(match sort_by {
        Some(k) => k,
        None => "downloads",
    });
    let lowered = to_ascii_lowercase(match sort_order {
        Some(o) => o,
        None => "desc",
    });
    let asc = equals(&lowered, "asc");
    if equals(&key, "rating") {
        if asc { BY_RATING_ASC } else { BY_RATING_DESC }
    } else if equals(&key, "name") {
        if asc { BY_NAME_ASC } else { BY_NAME_DESC }
    } else if equals(&key, "newest") {
        if asc { BY_NEWEST_ASC } else { BY_NEWEST_DESC }
    } else if equals(&key, "downloads") && asc {
        BY_DOWNLOADS_ASC
    } else {
        BY_DOWNLOADS_DESC
    }
}

pub const CATALOGUE_HEAD: &'static str = "SELECT id, uuid, extension_id, name, description, version, category, browser, developer, homepage, icon_url, download_url, file_size, downloads_count, rating, permissions, status, changelog, published_at, hash, created_at, updated_at FROM extensions WHERE status = 'active' AND (";
pub const CATALOGUE_KEYWORD_NULL: &'static str = "::varchar IS NULL OR name ILIKE '%' || ";
pub const CATALOGUE_KEYWORD_DESCRIPTION: &'static str = " || '%' OR description ILIKE '%' || ";
pub const CATALOGUE_CATEGORY: &'static str = " || '%') AND (";
pub const CATALOGUE_CATEGORY_MATCH: &'static str = "::varchar IS NULL OR category = ";
pub const CATALOGUE_ORDER: &'static str = ") ORDER BY ";
pub const CATALOGUE_LIMIT: &'static str = " LIMIT ";

/// An optional text bound as itself, or as `NULL` when absent.
pub open spec fn nullable_text(t: Option<Seq<char>>) -> SqlValueView {
    match t {
        Some(s) => SqlValueView::Text(s),
        None => SqlValueView::Null,
    }
}

/// The catalogue statement: active extensions whose name or description
/// contains the keyword (`$1`, when given) and of the category (`$2`, when
/// given), in the chosen order, one page (`$3`, `$4`).
pub open spec fn catalogue_pieces(order: Seq<char>) -> Seq<SqlPieceView> {
    param_clause(CATALOGUE_HEAD@, 1) + param_clause(CATALOGUE_KEYWORD_NULL@, 1)
        + param_clause(CATALOGUE_KEYWORD_DESCRIPTION@, 1) + param_clause(CATALOGUE_CATEGORY@, 2)
        + param_clause(CATALOGUE_CATEGORY_MATCH@, 2)
        + seq![SqlPieceView::Text(CATALOGUE_ORDER@), SqlPieceView::Text(order)]
        + param_clause(CATALOGUE_LIMIT@, 3) + param_clause(OFFSET@, 4)
}

/// The values bound to the catalogue statement: keyword, category, page
/// size, offset.
pub open spec fn catalogue_binds(keyword: Option<Seq<char>>, category: Option<Seq<char>>, limit: i64, offset: i64) -> Seq<SqlValueView> {
    seq![nullable_text(keyword), nullable_text(category), SqlValueView::Int(limit), SqlValueView::Int(offset)]
}

/// An optional text as a bound value.
fn nullable_value(t: Option<&str>) -> (v: SqlValue)
    ensures
        v@ == nullable_text(opt_str_view(t)),
{
    match t {
        Some(s) => SqlValue::Text(s.to_owned()),
        None => SqlValue::Null,
    }
}

/// The catalogue page statement: `fetch_extensions`.
pub fn extensions_query(
    keyword: Option<&str>,
    category: Option<&str>,
    sort_by: Option<&str>,
    sort_order: Option<&str>,
    offset: i64,
    limit: i64,
) -> (q: SqlQuery)
    ensures
        well_numbered(q),
        pieces_view(q) == catalogue_pieces(order_clause(opt_str_view(sort_by), opt_str_view(sort_order))),
        binds_view(q) == catalogue_binds(opt_str_view(keyword), opt_str_view(category), limit, offset),
{
    let order = extension_order_clause(sort_by, sort_order);
    let mut q = SqlQuery::new();
    q.push_param(CATALOGUE_HEAD, nullable_value(keyword));
    q.push_repeat(CATALOGUE_KEYWORD_NULL);
    q.push_repeat(CATALOGUE_KEYWORD_DESCRIPTION);
    q.push_param(CATALOGUE_CATEGORY, nullable_value(category));
    q.push_repeat(CATALOGUE_CATEGORY_MATCH);
    q.push_text(CATALOGUE_ORDER);
    q.push_text(order);
    q.push_param(CATALOGUE_LIMIT, SqlValue::Int(limit));
    q.push_param(OFFSET, SqlValue::Int(offset));
    assert(pieces_view(q) =~= catalogue_pieces(order_clause(opt_str_view(sort_by), opt_str_view(sort_order))));
    assert(binds_view(q) =~= seq![
        nullable_text(opt_str_view(keyword)),
        nullable_text(opt_str_view(category)),
        SqlValueView::Int(limit),
        SqlValueView::Int(offset),
    ]);
    q
}

/// Whether a requested direction is ascending: `asc` in any letter case.
pub open spec fn ascending(sort_order: Option<Seq<char>>) -> bool {
    match sort_order {
        Some(o) => o.map_values(|c: char| ascii_lower(c)) == "asc"@,
        None => false,
    }
}

/// The sort key alone chooses the column the catalogue is ordered by, in
/// either direction: `rating`, `name`, `newest` (the update time) or, for
/// `downloads`, no key or any other key, the download count; and the
/// direction alone chooses ascending or descending for the keys that have
/// both (an unknown key is always descending).
pub proof fn law_order_column_follows_key(dir: Option<Seq<char>>, other: Seq<char>)
    ensures
        has_prefix(order_clause(Some("rating"@), dir), "rating "@),
        has_prefix(order_clause(Some("name"@), dir), "name "@),
        has_prefix(order_clause(Some("newest"@), dir), "updated_at "@),
        has_prefix(order_clause(Some("downloads"@), dir), "downloads_count "@),
        has_prefix(order_clause(None, dir), "downloads_count "@),
        (other != "rating"@ && other != "name"@ && other != "newest"@)
            ==> has_prefix(order_clause(Some(other), dir), "downloads_count "@),
        has_prefix(order_clause(Some("newest"@), dir), "updated_at ASC"@) <==> ascending(dir),
        has_prefix(order_clause(Some("rating"@), dir), "rating ASC"@) <==> ascending(dir),
        has_prefix(order_clause(Some("name"@), dir), "name ASC"@) <==> ascending(dir),
        has_prefix(order_clause(Some("downloads"@), dir), "downloads_count ASC"@) <==> ascending(dir),
        (other != "rating"@ && other != "name"@ && other != "newest"@ && other != "downloads"@)
            ==> !has_prefix(order_clause(Some(other), dir), "downloads_count ASC"@),
{
    reveal_strlit("rating");
    reveal_strlit("name");
    reveal_strlit("newest");
    reveal_strlit("downloads");
    reveal_strlit("rating ");
    reveal_strlit("name ");
    reveal_strlit("updated_at ");
    reveal_strlit("downloads_count ");
    reveal_strlit("updated_at ASC");
    reveal_strlit("rating ASC");
    reveal_strlit("name ASC");
    reveal_strlit("downloads_count ASC");
    reveal_strlit("rating ASC NULLS LAST, created_at DESC");
    reveal_strlit("rating DESC NULLS LAST, created_at DESC");
    reveal_strlit("name ASC, created_at DESC");
    reveal_strlit("name DESC, created_at DESC");
    reveal_strlit("updated_at ASC NULLS LAST, created_at ASC");
    reveal_strlit("updated_at DESC NULLS LAST, created_at DESC");
    reveal_strlit("downloads_count ASC NULLS LAST, created_at DESC");
    reveal_strlit("downloads_count DESC NULLS LAST, created_at DESC");
    assert(BY_RATING_ASC@.subrange(0, 7) =~= "rating "@);
    assert(BY_RATING_DESC@.subrange(0, 7) =~= "rating "@);
    assert(BY_RATING_ASC@.subrange(0, 10) =~= "rating ASC"@);
    assert(BY_RATING_DESC@.subrange(0, 10) != "rating ASC"@) by { assert(BY_RATING_DESC@.subrange(0, 10)[7] == 'D'); assert("rating ASC"@[7] == 'A'); }
    assert(BY_NAME_ASC@.subrange(0, 5) =~= "name "@);
    assert(BY_NAME_DESC@.subrange(0, 5) =~= "name "@);
    assert(BY_NAME_ASC@.subrange(0, 8) =~= "name ASC"@);
    assert(BY_NAME_DESC@.subrange(0, 8) != "name ASC"@) by { assert(BY_NAME_DESC@.subrange(0, 8)[5] == 'D'); assert("name ASC"@[5] == 'A'); }
    assert(BY_NEWEST_ASC@.subrange(0, 11) =~= "updated_at "@);
    assert(BY_NEWEST_DESC@.subrange(0, 11) =~= "updated_at "@);
    assert(BY_NEWEST_ASC@.subrange(0, 14) =~= "updated_at ASC"@);
    assert(BY_NEWEST_DESC@.subrange(0, 14) != "updated_at ASC"@) by { assert(BY_NEWEST_DESC@.subrange(0, 14)[11] == 'D'); assert("updated_at ASC"@[11] == 'A'); }
    assert(BY_DOWNLOADS_ASC@.subrange(0, 16) =~= "downloads_count "@);
    assert(BY_DOWNLOADS_DESC@.subrange(0, 16) =~= "downloads_count "@);
    assert(BY_DOWNLOADS_ASC@.subrange(0, 19) =~= "downloads_count ASC"@);
    assert(BY_DOWNLOADS_DESC@.subrange(0, 19) != "downloads_count ASC"@) by { assert(BY_DOWNLOADS_DESC@.subrange(0, 19)[16] == 'D'); assert("downloads_count ASC"@[16] == 'A'); }
    assert("rating"@ != "newest"@) by { assert("rating"@[0] != "newest"@[0]); }
    assert("rating"@ != "name"@) by { assert("rating"@.len() != "name"@.len()); }
    assert("name"@ != "newest"@) by { assert("name"@.len() != "newest"@.len()); }
    assert("downloads"@ != "rating"@) by { assert("downloads"@.len() != "rating"@.len()); }
    assert("downloads"@ != "name"@) by { assert("downloads"@.len() != "name"@.len()); }
    assert("downloads"@ != "newest"@) by { assert("downloads"@.len() != "newest"@.len()); }
}

/// Each value of the catalogue statement is bound where its column is
/// compared: the keyword (or NULL) in the name and in the description
/// search, the category (or NULL) in the category match, the page size after
/// `LIMIT` and the offset after `OFFSET`; the chosen order stands after
/// `ORDER BY`.
pub proof fn law_catalogue_binds_each_column(
    keyword: Option<Seq<char>>,
    category: Option<Seq<char>>,
    order: Seq<char>,
    limit: i64,
    offset: i64,
)
    ensures
        condition_binds(catalogue_pieces(order), catalogue_binds(keyword, category, limit, offset),
            "::varchar IS NULL OR name ILIKE '%' || "@, nullable_text(keyword)),
        condition_binds(catalogue_pieces(order), catalogue_binds(keyword, category, limit, offset),
            " || '%' OR description ILIKE '%' || "@, nullable_text(keyword)),
        condition_binds(catalogue_pieces(order), catalogue_binds(keyword, category, limit, offset),
            "::varchar IS NULL OR category = "@, nullable_text(category)),
        condition_binds(catalogue_pieces(order), catalogue_binds(keyword, category, limit, offset),
            " LIMIT "@, SqlValueView::Int(limit)),
        condition_binds(catalogue_pieces(order), catalogue_binds(keyword, category, limit, offset),
            " OFFSET "@, SqlValueView::Int(offset)),
        catalogue_pieces(order)[10] == SqlPieceView::Text(") ORDER BY "@),
        catalogue_pieces(order)[11] == SqlPieceView::Text(order),
{
    let p = catalogue_pieces(order);
    let b = catalogue_binds(keyword, category, limit, offset);
    assert(p =~= seq![
        SqlPieceView::Text(CATALOGUE_HEAD@), SqlPieceView::Param(1),
        SqlPieceView::Text(CATALOGUE_KEYWORD_NULL@), SqlPieceView::Param(1),
        SqlPieceView::Text(CATALOGUE_KEYWORD_DESCRIPTION@), SqlPieceView::Param(1),
        SqlPieceView::Text(CATALOGUE_CATEGORY@), SqlPieceView::Param(2),
        SqlPieceView::Text(CATALOGUE_CATEGORY_MATCH@), SqlPieceView::Param(2),
        SqlPieceView::Text(CATALOGUE_ORDER@), SqlPieceView::Text(order),
        SqlPieceView::Text(CATALOGUE_LIMIT@), SqlPieceView::Param(3),
        SqlPieceView::Text(OFFSET@), SqlPieceView::Param(4),
    ]);
    assert(p[2] == SqlPieceView::Text(CATALOGUE_KEYWORD_NULL@) && p[3] == SqlPieceView::Param(1));
    assert(p[4] == SqlPieceView::Text(CATALOGUE_KEYWORD_DESCRIPTION@) && p[5] == SqlPieceView::Param(1));
    assert(p[8] == SqlPieceView::Text(CATALOGUE_CATEGORY_MATCH@) && p[9] == SqlPieceView::Param(2));
    assert(p[12] == SqlPieceView::Text(CATALOGUE_LIMIT@) && p[13] == SqlPieceView::Param(3));
    assert(p[14] == SqlPieceView::Text(OFFSET@) && p[15] == SqlPieceView::Param(4));
}

} // verus!
