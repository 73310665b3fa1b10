use simprint_server::coupons::user_coupons_queries;
use simprint_server::extensions::{extension_order_clause, extensions_query};
use simprint_server::messages::{message_action_status, user_messages_count_query, user_messages_query, InboxFilter};
use simprint_server::queries::{
    deleted_environments_base_query, deleted_environments_count_query, environments_base_query,
    environments_count_query, EnvironmentFilter, RecycleBinFilter,
};
use simprint_server::sql::{SqlQuery, SqlValue};
use simprint_server::teams::{team_member_count_query, team_members_query, update_team_query, MemberFilter};

fn env_filter() -> EnvironmentFilter {
    EnvironmentFilter {
        workspace_uuid: 1,
        team_uuid: 2,
        group_uuid: None,
        status: None,
        keyword: None,
        tag_uuids: None,
    }
}

fn placeholders(sql: &str) -> Vec<u32> {
    let mut out = vec![];
    let b = sql.as_bytes();
    let mut i = 0;
    while i < b.len() {
        if b[i] == b'$' {
            let mut j = i + 1;
            let mut n = 0u32;
            while j < b.len() && b[j].is_ascii_digit() {
                n = n * 10 + (b[j] - b'0') as u32;
                j += 1;
            }
            out.push(n);
            i = j;
        } else {
            i += 1;
        }
    }
    out
}

fn assert_numbered(q: &SqlQuery) {
    let mut used = placeholders(&q.render());
    used.sort();
    used.dedup();
    let expected: Vec<u32> = (1..=q.binds.len() as u32).collect();
    assert_eq!(used, expected);
}

#[test]
fn environment_listing_without_filters() {
    let q = environments_base_query(&env_filter(), 40, 20);
    let sql = q.render();
    assert!(sql.starts_with("SELECT DISTINCT e.id"));
    assert!(sql.ends_with(" WHERE e.workspace_uuid = $1 AND e.team_uuid = $2 AND e.deleted_at IS NULL ORDER BY e.created_at DESC LIMIT $3 OFFSET $4"));
    assert!(!sql.contains("environment_tags"));
    assert_eq!(q.binds, vec![SqlValue::Uuid(1), SqlValue::Uuid(2), SqlValue::Int(20), SqlValue::Int(40)]);
    assert_numbered(&q);
}

#[test]
fn environment_listing_with_every_filter() {
    let f = EnvironmentFilter {
        group_uuid: Some(3),
        status: Some("running".to_string()),
        keyword: Some("shop".to_string()),
        tag_uuids: Some(vec![8, 9]),
        ..env_filter()
    };
    let q = environments_base_query(&f, 0, 10);
    let sql = q.render();
    assert!(sql.contains(" LEFT JOIN environment_tags et ON e.uuid = et.environment_uuid WHERE"));
    assert!(sql.ends_with(" AND e.group_uuid = $3 AND e.status = $4 AND (e.name ILIKE $5 OR e.uuid::text ILIKE $5) AND et.tag_uuid = ANY($6) ORDER BY e.created_at DESC LIMIT $7 OFFSET $8"));
    assert_eq!(
        q.binds,
        vec![
            SqlValue::Uuid(1),
            SqlValue::Uuid(2),
            SqlValue::Uuid(3),
            SqlValue::Text("running".to_string()),
            SqlValue::Text("%shop%".to_string()),
            SqlValue::UuidList(vec![8, 9]),
            SqlValue::Int(10),
            SqlValue::Int(0),
        ]
    );
    assert_numbered(&q);
}

#[test]
fn environment_listing_with_empty_tag_list_joins_without_condition() {
    let f = EnvironmentFilter { keyword: Some("x".to_string()), tag_uuids: Some(vec![]), ..env_filter() };
    let q = environments_count_query(&f);
    let sql = q.render();
    assert!(sql.starts_with("SELECT COUNT(DISTINCT e.id) FROM environments e LEFT JOIN environment_tags"));
    assert!(sql.ends_with("AND (e.name ILIKE $3 OR e.uuid::text ILIKE $3)"));
    assert_eq!(q.binds.len(), 3);
    assert_numbered(&q);
}

#[test]
fn recycle_bin_statements() {
    let f = RecycleBinFilter { workspace_uuid: 1, team_uuid: 2, group_uuid: None, keyword: Some("a".to_string()) };
    let q = deleted_environments_base_query(&f, 5, 6);
    assert!(q.render().ends_with(" AND e.deleted_at IS NOT NULL AND (e.name ILIKE $3 OR e.uuid::text ILIKE $3) ORDER BY e.deleted_at DESC LIMIT $4 OFFSET $5"));
    assert_eq!(q.binds[2], SqlValue::Text("%a%".to_string()));
    assert_numbered(&q);
    let c = deleted_environments_count_query(&RecycleBinFilter { group_uuid: Some(4), ..f });
    assert!(c.render().ends_with(" AND e.group_uuid = $3 AND (e.name ILIKE $4 OR e.uuid::text ILIKE $4)"));
    assert_numbered(&c);
}

#[test]
fn member_statements_default_to_active_members() {
    let f = MemberFilter { team_uuid: 5, keyword: None, role: None, status: None };
    let c = team_member_count_query(&f);
    assert!(c.render().ends_with(" WHERE tm.team_uuid = $1 AND tm.deleted_at IS NULL AND tm.status = 'active'"));
    assert_eq!(c.binds, vec![SqlValue::Uuid(5)]);
    let f = MemberFilter { team_uuid: 5, keyword: Some("bo".to_string()), role: Some("admin".to_string()), status: Some("invited".to_string()) };
    let q = team_members_query(&f, 0, 20);
    let sql = q.render();
    assert!(sql.contains(" AND tm.status = $2 AND tm.role = $3 AND (ui.nickname ILIKE $4 OR ui.email ILIKE $4) ORDER BY CASE tm.role"));
    assert!(sql.ends_with("LIMIT $5 OFFSET $6"));
    assert_numbered(&q);
}

#[test]
fn inbox_statements() {
    let f = InboxFilter {
        user_uuid: 3,
        message_type: None,
        is_read: Some(false),
        action_status: None,
        priority: Some("high".to_string()),
    };
    let q = user_messages_query(&f, 10, 5);
    let sql = q.render();
    assert!(sql.ends_with(" AND m.deleted_at IS NULL AND um.is_read = $2 AND m.priority = $3 ORDER BY m.created_at DESC LIMIT $4 OFFSET $5"));
    assert_eq!(q.binds[1], SqlValue::Bool(false));
    assert_numbered(&q);
    let c = user_messages_count_query(&f);
    assert!(c.render().starts_with("SELECT COUNT(*) FROM user_messages um"));
    assert_eq!(c.binds.len(), 3);
}

#[test]
fn message_actions() {
    assert_eq!(message_action_status("accept"), Some("accepted"));
    assert_eq!(message_action_status("reject"), Some("rejected"));
    assert_eq!(message_action_status("ignore"), None);
}

#[test]
fn catalogue_ordering() {
    assert_eq!(extension_order_clause(None, None), "downloads_count DESC NULLS LAST, created_at DESC");
    assert_eq!(extension_order_clause(Some("rating"), Some("ASC")), "rating ASC NULLS LAST, created_at DESC");
    assert_eq!(extension_order_clause(Some("name"), None), "name DESC, created_at DESC");
    assert_eq!(extension_order_clause(Some("newest"), Some("asc")), "updated_at ASC NULLS LAST, created_at ASC");
    assert_eq!(extension_order_clause(Some("downloads"), Some("Asc")), "downloads_count ASC NULLS LAST, created_at DESC");
    assert_eq!(extension_order_clause(Some("size"), Some("asc")), "downloads_count DESC NULLS LAST, created_at DESC");
}

#[test]
fn catalogue_statement() {
    let q = extensions_query(Some("proxy"), None, Some("name"), Some("asc"), 0, 20);
    let sql = q.render();
    assert!(sql.contains("AND ($1::varchar IS NULL OR name ILIKE '%' || $1 || '%' OR description ILIKE '%' || $1 || '%') AND ($2::varchar IS NULL OR category = $2) ORDER BY name ASC, created_at DESC LIMIT $3 OFFSET $4"));
    assert_eq!(q.binds, vec![SqlValue::Text("proxy".to_string()), SqlValue::Null, SqlValue::Int(20), SqlValue::Int(0)]);
    assert_numbered(&q);
}

#[test]
fn team_update_statements() {
    let s = |x: &str| Some(x.to_string());
    let all = update_team_query(7, s("n"), s("d"), s("a")).unwrap();
    assert_eq!(all.render(), "UPDATE teams SET name = $1, description = $2, avatar_hash = $3, updated_at = NOW() WHERE uuid = $4");
    let nd = update_team_query(7, s("n"), s("d"), None).unwrap();
    assert_eq!(nd.render(), "UPDATE teams SET name = $1, description = $2, updated_at = NOW() WHERE uuid = $3");
    let n = update_team_query(7, s("n"), None, s("a")).unwrap();
    assert_eq!(n.render(), "UPDATE teams SET name = $1, updated_at = NOW() WHERE uuid = $2");
    assert_eq!(n.binds, vec![SqlValue::Text("n".to_string()), SqlValue::Uuid(7)]);
    assert!(update_team_query(7, None, s("d"), s("a")).is_none());
}

#[test]
fn coupon_wallet_statements() {
    let (list, count) = user_coupons_queries(4, &Some("unused".to_string()), 3, 10);
    assert!(list.render().ends_with("WHERE uc.user_uuid = $1 AND uc.status = $2 ORDER BY uc.issued_at DESC LIMIT $3 OFFSET $4"));
    assert_eq!(list.binds, vec![SqlValue::Uuid(4), SqlValue::Text("unused".to_string()), SqlValue::Int(10), SqlValue::Int(20)]);
    assert_eq!(count.render(), "SELECT COUNT(*) FROM user_coupons WHERE user_uuid = $1 AND status = $2");
    let (list, count) = user_coupons_queries(4, &None, 1, 10);
    assert!(list.render().ends_with("WHERE uc.user_uuid = $1 ORDER BY uc.issued_at DESC LIMIT $2 OFFSET $3"));
    assert_eq!(list.binds[2], SqlValue::Int(0));
    assert_eq!(count.binds, vec![SqlValue::Uuid(4)]);
    assert_numbered(&list);
}
