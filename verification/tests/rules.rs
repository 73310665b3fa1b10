use simprint_server::ingress::{
    check_api_secret, forwarded_client_ip, is_json_content_type, proxied_request_context, require_encrypted,
    ApiSecretField, BodyFailure,
};
use simprint_server::local_api::HeaderField;
use simprint_server::permissions::{
    check_quota, checked_permission_type, group_permission_step, GroupPermissionStep, WorkspaceQuota,
};
use simprint_server::records::{account_keyword_pattern, cookie_record, referral_counts, tag_color, url_records, CookieInput};
use simprint_server::requests::{
    current_flags, default_workspace, installed_scope, page_offset, quota_workspace, require_current_team,
    require_team, require_workspace, InstalledScope, RequestError,
};
use simprint_server::routes::{MetaRoute, RequestMethod, RouteGroup, RouteItem};
use simprint_server::sql::SqlValue;
use simprint_server::teams::{can_accept_invitation, can_reject_invitation, team_role};

fn text(s: &str) -> HeaderField {
    HeaderField::Text(s.to_string())
}

#[test]
fn owners_and_admins_hold_every_permission() {
    assert_eq!(group_permission_step(true, 1, 2, 3, "manage"), GroupPermissionStep::Decided(true));
    assert_eq!(group_permission_step(true, 1, 2, 3, "anything"), GroupPermissionStep::Decided(true));
    assert_eq!(group_permission_step(false, 1, 2, 3, "delete"), GroupPermissionStep::Decided(false));
}

#[test]
fn permission_probes() {
    let probe = |r| match group_permission_step(false, 1, 2, 3, r) {
        GroupPermissionStep::Probe(q) => q,
        other => panic!("unexpected {:?}", other),
    };
    let read = probe("read");
    assert_eq!(read.render(), "SELECT EXISTS (SELECT 1 FROM group_member_permissions WHERE group_uuid = $1 AND workspace_uuid = $2 AND user_uuid = $3)");
    assert_eq!(read.binds, vec![SqlValue::Uuid(1), SqlValue::Uuid(2), SqlValue::Uuid(3)]);
    assert!(probe("write").render().ends_with(" AND permission_type IN ('write', 'manage'))"));
    assert!(probe("manage").render().ends_with(" AND permission_type = 'manage')"));
}

#[test]
fn permission_echo() {
    assert_eq!(checked_permission_type(true, &"write".to_string()), Some("write".to_string()));
    assert_eq!(checked_permission_type(false, &"write".to_string()), None);
}

#[test]
fn quota_room() {
    let q = WorkspaceQuota {
        max_environments: 5,
        used_environments: 5,
        max_team_members: 3,
        used_team_members: 2,
        max_proxies: 1,
        used_proxies: 0,
        max_rpa_tasks: 0,
        used_rpa_tasks: 0,
    };
    assert!(!check_quota(Some(q), "environments"));
    assert!(check_quota(Some(q), "team_members"));
    assert!(check_quota(Some(q), "proxies"));
    assert!(!check_quota(Some(q), "rpa_tasks"));
    assert!(!check_quota(Some(q), "storage"));
    assert!(!check_quota(None, "proxies"));
}

#[test]
fn invitations() {
    assert!(can_accept_invitation("pending", 100, 100));
    assert!(!can_accept_invitation("pending", 99, 100));
    assert!(!can_accept_invitation("accepted", 200, 100));
    assert!(can_reject_invitation("pending"));
    assert!(!can_reject_invitation("rejected"));
    // An expired invitation can still be rejected.
    assert!(!can_accept_invitation("pending", 1, 100) && can_reject_invitation("pending"));
}

#[test]
fn shown_team_roles() {
    assert_eq!(team_role(1, 1, Some("admin".to_string())), "owner");
    assert_eq!(team_role(1, 2, Some("admin".to_string())), "admin");
    assert_eq!(team_role(1, 2, None), "member");
}

#[test]
fn request_scopes() {
    assert_eq!(require_workspace(Some(4)), Ok(4));
    assert_eq!(require_workspace(None), Err(RequestError::NoWorkspace));
    assert_eq!(require_team(None), Err(RequestError::NoTeam));
    assert_eq!(require_current_team(None), Err(RequestError::NoCurrentTeam));
    assert_eq!(quota_workspace(Some(1), Some(2)), Ok(1));
    assert_eq!(quota_workspace(None, Some(2)), Ok(2));
    assert_eq!(quota_workspace(None, None), Err(RequestError::NoWorkspaceGiven));
    assert_eq!(RequestError::NoWorkspace.message(), "请先选择工作空间");
    assert_eq!(RequestError::NoTeam.message(), "请先选择团队");
    assert_eq!(RequestError::NoCurrentTeam.message(), "当前没有选择团队");
    assert_eq!(RequestError::NoTeamSpecified.message(), "未指定团队");
    assert_eq!(RequestError::NoWorkspaceGiven.message(), "未提供工作空间 UUID");
}

#[test]
fn installed_extension_scopes() {
    assert_eq!(installed_scope("user", Some(1)), Ok(InstalledScope::UserOnly));
    assert_eq!(installed_scope("personal", None), Ok(InstalledScope::UserOnly));
    assert_eq!(installed_scope("team", Some(1)), Ok(InstalledScope::TeamOnly(1)));
    assert_eq!(installed_scope("team", None), Err(RequestError::NoTeamSpecified));
    assert_eq!(installed_scope("all", None), Ok(InstalledScope::Everything(None)));
}

#[test]
fn listing_marks_current() {
    assert_eq!(current_flags(&vec![1, 2, 3], Some(2)), vec![false, true, false]);
    assert_eq!(current_flags(&vec![1, 2], None), vec![false, false]);
    assert_eq!(default_workspace(None, &vec![7, 8]), Some(7));
    assert_eq!(default_workspace(Some(8), &vec![7, 8]), None);
    assert_eq!(default_workspace(None, &vec![]), None);
}

#[test]
fn page_offsets() {
    assert_eq!(page_offset(1, 20), 0);
    assert_eq!(page_offset(3, 20), 40);
    assert_eq!(page_offset(0, 10), -10);
}

#[test]
fn client_address_behind_proxy() {
    assert_eq!(forwarded_client_ip(&text(" 10.0.0.1 , 10.0.0.2"), &text("9.9.9.9")), Some("10.0.0.1".to_string()));
    assert_eq!(forwarded_client_ip(&HeaderField::Absent, &text(" 9.9.9.9")), Some(" 9.9.9.9".to_string()));
    assert_eq!(forwarded_client_ip(&HeaderField::Opaque, &HeaderField::Absent), None);
    assert!(proxied_request_context(Some(false), &HeaderField::Absent, &HeaderField::Absent).is_none());
    let c = proxied_request_context(Some(true), &text("1.1.1.1"), &HeaderField::Absent).unwrap();
    assert_eq!(c.current_ip.as_deref(), Some("1.1.1.1"));
    assert!(c.current_user.is_none());
    assert!(proxied_request_context(None, &HeaderField::Absent, &HeaderField::Absent).unwrap().current_ip.is_none());
}

#[test]
fn encrypted_bodies() {
    assert!(is_json_content_type(&text("application/json; charset=utf-8")));
    assert!(!is_json_content_type(&text("text/plain")));
    assert!(!is_json_content_type(&HeaderField::Absent));
    assert_eq!(require_encrypted(false), Err(BodyFailure::BadRequest));
    assert_eq!(require_encrypted(true), Ok(()));
    assert_eq!(check_api_secret(&ApiSecretField::Text("s3".to_string()), "s3"), Ok(()));
    assert_eq!(check_api_secret(&ApiSecretField::Text("x".to_string()), "s3"), Err(BodyFailure::Unauthorized));
    assert_eq!(check_api_secret(&ApiSecretField::Other, "s3"), Err(BodyFailure::Unauthorized));
    assert_eq!(check_api_secret(&ApiSecretField::Missing, "s3"), Err(BodyFailure::BadRequest));
}

#[test]
fn route_table_counts() {
    let mut g1: RouteGroup<u8> = RouteGroup::new("/teams");
    g1.add_route_item(RouteItem::post("/create", 1));
    g1.add_route_item(RouteItem::get("/list", 2));
    let mut g2: RouteGroup<u8> = RouteGroup::new("/users");
    g2.add_route_item(RouteItem::delete("/remove", 3));
    let mut m = MetaRoute::new("/api/v1".to_string());
    assert_eq!(m.count(), 0);
    m.add_route_group(g1);
    m.add_route_group(g2);
    assert_eq!(m.count(), 3);
    assert_eq!(m.routes[0].routes[1].method, RequestMethod::GET);
    assert_eq!(RouteItem::put("/a", 0u8).method, RequestMethod::PUT);
    assert_eq!(RouteItem::patch("/a", 0u8).method, RequestMethod::PATCH);
}

#[test]
fn record_defaults() {
    let c = cookie_record(&CookieInput {
        site_input: "shop.example".to_string(),
        domain: ".example".to_string(),
        name: "sid".to_string(),
        value: "1".to_string(),
        path: None,
        http_only: None,
        secure: Some(true),
        same_site: None,
    });
    assert_eq!(c.path, "/");
    assert!(!c.http_only);
    assert!(c.secure);
    assert_eq!(c.same_site, "Lax");
    assert_eq!(tag_color(None), "gray");
    assert_eq!(tag_color(Some("red")), "red");
    let urls = url_records(&vec![("a".to_string(), None), ("b".to_string(), Some("B".to_string()))]);
    assert_eq!(urls[1].sort_order, 1);
    assert_eq!(urls[1].title.as_deref(), Some("B"));
    assert_eq!(account_keyword_pattern("  gmail "), "%gmail%");
    assert_eq!(referral_counts(3, 1), (3, 1));
    assert_eq!(referral_counts(1i64 << 32, -1), (0, -1));
}
