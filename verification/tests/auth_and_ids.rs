use simprint_server::auth::{auth_decision, token_user, workspace_source, AuthDecision, RequestContext, WorkspaceSource};
use simprint_server::registration::{generate_local_api_key, make_base_invite_code};
use simprint_server::teams::can_accept_invitation_now;
use simprint_server::local_api::{HeaderField, LocalApiHeaders};

fn no_local() -> LocalApiHeaders {
    LocalApiHeaders { auth: HeaderField::Absent, key: HeaderField::Absent, permission: HeaderField::Absent }
}

fn bearer(s: &str) -> HeaderField {
    HeaderField::Text(s.to_string())
}

const SAMPLE: u128 = 0x550e8400_e29b_41d4_a716_446655440000;

#[test]
fn options_and_authenticated_requests_pass() {
    let wl = vec![];
    assert_eq!(auth_decision("OPTIONS", "/api/v1/teams", false, &no_local(), &wl, &HeaderField::Absent), AuthDecision::PassThrough);
    assert_eq!(auth_decision("GET", "/api/v1/teams", true, &no_local(), &wl, &HeaderField::Absent), AuthDecision::PassThrough);
}

#[test]
fn local_api_requests_pass_outside_management_routes() {
    let wl = vec![];
    let local = LocalApiHeaders { auth: bearer("k:p"), key: HeaderField::Absent, permission: HeaderField::Absent };
    assert_eq!(auth_decision("GET", "/api/v1/environments", false, &local, &wl, &HeaderField::Absent), AuthDecision::PassThrough);
    assert_eq!(auth_decision("GET", "/api/v1/local-api/config", false, &local, &wl, &HeaderField::Absent), AuthDecision::Unauthorized);
}

#[test]
fn whitelisted_routes_pass() {
    let wl = vec!["POST+/api/v1/users/login".to_string()];
    assert_eq!(auth_decision("POST", "/api/v1/users/login", false, &no_local(), &wl, &HeaderField::Absent), AuthDecision::PassThrough);
    assert_eq!(auth_decision("GET", "/api/v1/users/login", false, &no_local(), &wl, &HeaderField::Absent), AuthDecision::Unauthorized);
}

#[test]
fn bearer_tokens_are_extracted() {
    let wl = vec![];
    assert_eq!(
        auth_decision("GET", "/api/v1/teams", false, &no_local(), &wl, &bearer("Bearer abc.def")),
        AuthDecision::VerifyToken("abc.def".to_string())
    );
    assert_eq!(auth_decision("GET", "/api/v1/teams", false, &no_local(), &wl, &bearer("Basic abc")), AuthDecision::Unauthorized);
    assert_eq!(auth_decision("GET", "/api/v1/teams", false, &no_local(), &wl, &bearer("Bearer")), AuthDecision::Unauthorized);
    assert_eq!(auth_decision("GET", "/api/v1/teams", false, &no_local(), &wl, &HeaderField::Opaque), AuthDecision::Unauthorized);
}

#[test]
fn token_subjects_must_be_identifiers() {
    assert_eq!(token_user(Some("550e8400-e29b-41d4-a716-446655440000")), Some(SAMPLE));
    assert_eq!(token_user(Some("not-a-uuid")), None);
    assert_eq!(token_user(None), None);
}

#[test]
fn identifier_renderings() {
    // the simple, hyphenated, braced and URN forms all read back
    assert_eq!(token_user(Some("550e8400e29b41d4a716446655440000")), Some(SAMPLE));
    assert_eq!(token_user(Some("{550e8400-e29b-41d4-a716-446655440000}")), Some(SAMPLE));
    assert_eq!(token_user(Some("urn:uuid:550e8400-e29b-41d4-a716-446655440000")), Some(SAMPLE));
    // the hyphenated rendering, through the invite code made of it
    assert_eq!(make_base_invite_code(7), "INV00000000");
    assert_eq!(make_base_invite_code(SAMPLE), "INV550E8400");
    // the simple rendering, through a local API key
    let (key, _) = generate_local_api_key();
    assert_eq!(key.len(), 41);
}

#[test]
fn random_identifiers_are_version_four() {
    for _ in 0..8 {
        let (key, _) = generate_local_api_key();
        let u = u128::from_str_radix(&key[9..], 16).unwrap();
        assert_eq!((u >> 76) & 0xf, 4);
        assert_eq!((u >> 62) & 0x3, 2);
    }
}

#[test]
fn invitations_are_checked_against_the_clock() {
    let (ok, now) = can_accept_invitation_now("pending", i64::MAX);
    assert!(ok);
    // 2024-01-01T00:00:00Z, in microseconds
    assert!(now > 1_704_067_200_000_000);
    let (ok, _) = can_accept_invitation_now("pending", 1_704_067_200_000_000);
    assert!(!ok);
    let (ok, _) = can_accept_invitation_now("accepted", i64::MAX);
    assert!(!ok);
}

#[test]
fn authenticated_context() {
    let mut c = RequestContext::new();
    c.current_ip = Some("1.2.3.4".to_string());
    c.current_team_uuid = Some(1);
    c.authenticate(9, "GET", "/api/v1/environments");
    assert_eq!(c.current_user, Some(9));
    assert_eq!(c.current_team_uuid, None);
    assert_eq!(c.current_workspace_uuid, None);
    assert_eq!(c.current_ip.as_deref(), Some("1.2.3.4"));
    assert_eq!(c.resource_identifier.as_deref(), Some("GET+/environments"));
}

#[test]
fn workspace_resolution() {
    assert_eq!(workspace_source(Some(1), Some(2)), WorkspaceSource::Known(Some(1)));
    assert_eq!(workspace_source(None, Some(2)), WorkspaceSource::TeamOf(2));
    assert_eq!(workspace_source(None, None), WorkspaceSource::Known(None));
}
