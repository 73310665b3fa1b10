use simprint_server::authorization::{
    start, step, ApiKeyRecord, AuthAction, AuthEvent, AuthFailure, AuthOutcome, AuthState,
    PermissionRecord, RateWindow,
};
use simprint_server::local_api::{
    has_local_api_auth_headers, local_api_decision, parse_local_api_auth, HeaderField,
    LocalApiDecision, LocalApiHeaders,
};

fn text(s: &str) -> HeaderField {
    HeaderField::Text(s.to_string())
}

fn headers(auth: HeaderField, key: HeaderField, permission: HeaderField) -> LocalApiHeaders {
    LocalApiHeaders { auth, key, permission }
}

const NOW: i64 = 1_704_164_645_000_000; // 2024-01-02 03:04:05 UTC

fn key(active: bool, expires_at: Option<i64>) -> ApiKeyRecord {
    ApiKeyRecord { id: 7, user_uuid: 42, is_active: active, expires_at, daily_limit: 1000 }
}

fn permission(enabled: bool) -> PermissionRecord {
    PermissionRecord { is_enabled: enabled, rate_limit_per_minute: 10, rate_limit_per_hour: 100 }
}

fn run(events: &[AuthEvent]) -> (AuthState, Vec<AuthAction>) {
    let (mut s, a) = start();
    let mut actions = vec![a];
    for e in events {
        let (s2, a2) = step(s, *e, NOW);
        s = s2;
        actions.push(a2);
    }
    (s, actions)
}

#[test]
fn credential_headers_are_detected() {
    assert!(has_local_api_auth_headers(&headers(text("k:p"), HeaderField::Absent, HeaderField::Absent)));
    assert!(has_local_api_auth_headers(&headers(HeaderField::Opaque, HeaderField::Absent, HeaderField::Absent)));
    assert!(has_local_api_auth_headers(&headers(HeaderField::Absent, text("k"), text("p"))));
    assert!(!has_local_api_auth_headers(&headers(HeaderField::Absent, text("k"), HeaderField::Absent)));
    assert!(!has_local_api_auth_headers(&headers(HeaderField::Absent, HeaderField::Absent, HeaderField::Absent)));
}

#[test]
fn combined_header_is_split_and_trimmed() {
    let h = headers(text(" sk_local_1 : env.read "), HeaderField::Absent, HeaderField::Absent);
    assert_eq!(parse_local_api_auth(&h), Some(("sk_local_1".to_string(), "env.read".to_string())));
    let h = headers(text("a:b:c"), HeaderField::Absent, HeaderField::Absent);
    assert_eq!(parse_local_api_auth(&h), Some(("a".to_string(), "b:c".to_string())));
}

#[test]
fn combined_header_without_colon_refuses() {
    let h = headers(text("nocolon"), text("k"), text("p"));
    assert_eq!(parse_local_api_auth(&h), None);
}

#[test]
fn combined_header_with_empty_half_falls_back() {
    let h = headers(text("key: "), text(" k "), text(" p "));
    assert_eq!(parse_local_api_auth(&h), Some(("k".to_string(), "p".to_string())));
    let h = headers(text(":p"), HeaderField::Absent, text("p"));
    assert_eq!(parse_local_api_auth(&h), None);
}

#[test]
fn separate_headers_must_be_non_empty() {
    assert_eq!(parse_local_api_auth(&headers(HeaderField::Absent, text("  "), text("p"))), None);
    assert_eq!(parse_local_api_auth(&headers(HeaderField::Absent, HeaderField::Opaque, text("p"))), None);
    assert_eq!(
        parse_local_api_auth(&headers(HeaderField::Opaque, text("k"), text("p"))),
        Some(("k".to_string(), "p".to_string()))
    );
}

#[test]
fn local_api_decision_passes_options_and_management() {
    let h = headers(text("k:p"), HeaderField::Absent, HeaderField::Absent);
    assert_eq!(local_api_decision("OPTIONS", "/api/v1/environments", &h), LocalApiDecision::PassThrough);
    assert_eq!(local_api_decision("GET", "/api/v1/local-api/config", &h), LocalApiDecision::PassThrough);
    assert_eq!(
        local_api_decision("GET", "/api/v1/environments", &h),
        LocalApiDecision::Authorize { api_key: "k".to_string(), permission_code: "p".to_string() }
    );
    let none = headers(HeaderField::Absent, HeaderField::Absent, HeaderField::Absent);
    assert_eq!(local_api_decision("GET", "/api/v1/environments", &none), LocalApiDecision::PassThrough);
}

#[test]
fn authorization_grants_after_all_checks() {
    let (s, actions) = run(&[
        AuthEvent::KeyFound(key(true, None)),
        AuthEvent::DefinitionFound,
        AuthEvent::PermissionFound(permission(true)),
        AuthEvent::Count(999),
        AuthEvent::Count(9),
        AuthEvent::Count(99),
        AuthEvent::Stored,
        AuthEvent::Stored,
        AuthEvent::Stored,
    ]);
    assert_eq!(s, AuthState::Done(AuthOutcome::Granted(42)));
    assert_eq!(actions[0], AuthAction::ReadKeyCache);
    assert_eq!(actions[1], AuthAction::ReadDefinitionCache);
    assert_eq!(actions[2], AuthAction::ReadPermissionCache(7));
    match &actions[3] {
        AuthAction::ReadCount(b) => {
            assert_eq!(b.window, RateWindow::Day);
            assert!(!b.per_permission);
            assert_eq!(b.bucket, "20240102");
            assert_eq!(b.api_key_id, 7);
        }
        other => panic!("unexpected {:?}", other),
    }
    match &actions[4] {
        AuthAction::ReadCount(b) => {
            assert_eq!(b.window, RateWindow::Minute);
            assert!(b.per_permission);
            assert_eq!(b.bucket, "202401020304");
        }
        other => panic!("unexpected {:?}", other),
    }
    match &actions[5] {
        AuthAction::ReadCount(b) => assert_eq!(b.bucket, "2024010203"),
        other => panic!("unexpected {:?}", other),
    }
    match (&actions[6], &actions[7], &actions[8]) {
        (AuthAction::Increment(m), AuthAction::Increment(h), AuthAction::Increment(d)) => {
            assert_eq!(m.window, RateWindow::Minute);
            assert_eq!(h.window, RateWindow::Hour);
            assert_eq!(d.window, RateWindow::Day);
        }
        other => panic!("unexpected {:?}", other),
    }
    assert_eq!(actions[9], AuthAction::Respond(AuthOutcome::Granted(42)));
}

#[test]
fn authorization_refills_caches_from_database() {
    let (s, actions) = run(&[
        AuthEvent::KeyMissing,
        AuthEvent::KeyFound(key(true, Some(NOW + 1))),
        AuthEvent::Stored,
        AuthEvent::DefinitionMissing,
        AuthEvent::DefinitionFound,
        AuthEvent::Stored,
        AuthEvent::PermissionMissing,
        AuthEvent::PermissionFound(permission(true)),
        AuthEvent::Stored,
    ]);
    assert_eq!(actions[1], AuthAction::ReadKeyDb);
    assert_eq!(actions[2], AuthAction::StoreKeyCache(key(true, Some(NOW + 1))));
    assert_eq!(actions[4], AuthAction::ReadDefinitionDb);
    assert_eq!(actions[5], AuthAction::StoreDefinitionCache);
    assert_eq!(actions[7], AuthAction::ReadPermissionDb(7));
    assert_eq!(actions[8], AuthAction::StorePermissionCache(7, permission(true)));
    assert!(matches!(s, AuthState::AwaitDayCount(_)));
}

#[test]
fn authorization_refusals() {
    let denied = |f| AuthState::Done(AuthOutcome::Denied(f));
    assert_eq!(run(&[AuthEvent::KeyMissing, AuthEvent::KeyMissing]).0, denied(AuthFailure::Unauthorized));
    assert_eq!(run(&[AuthEvent::KeyFound(key(false, None))]).0, denied(AuthFailure::Unauthorized));
    assert_eq!(run(&[AuthEvent::KeyFound(key(true, Some(NOW - 1)))]).0, denied(AuthFailure::Unauthorized));
    assert_eq!(
        run(&[AuthEvent::KeyFound(key(true, Some(NOW))), AuthEvent::DefinitionFound]).0,
        AuthState::AwaitPermissionCache(simprint_server::authorization::KeyGrant { key: key(true, Some(NOW)), checked_at: NOW })
    );
    assert_eq!(
        run(&[AuthEvent::KeyFound(key(true, None)), AuthEvent::DefinitionMissing, AuthEvent::DefinitionMissing]).0,
        denied(AuthFailure::Forbidden)
    );
    assert_eq!(
        run(&[AuthEvent::KeyFound(key(true, None)), AuthEvent::DefinitionFound, AuthEvent::PermissionMissing, AuthEvent::PermissionMissing]).0,
        denied(AuthFailure::Forbidden)
    );
    assert_eq!(
        run(&[AuthEvent::KeyFound(key(true, None)), AuthEvent::DefinitionFound, AuthEvent::PermissionFound(permission(false))]).0,
        denied(AuthFailure::Forbidden)
    );
    assert_eq!(run(&[AuthEvent::Failed]).0, denied(AuthFailure::InternalError));
}

#[test]
fn authorization_rate_limits() {
    let prefix = [
        AuthEvent::KeyFound(key(true, None)),
        AuthEvent::DefinitionFound,
        AuthEvent::PermissionFound(permission(true)),
    ];
    let mut day = prefix.to_vec();
    day.push(AuthEvent::Count(1000));
    assert_eq!(run(&day).0, AuthState::Done(AuthOutcome::Denied(AuthFailure::TooManyRequests)));
    let mut minute = prefix.to_vec();
    minute.extend([AuthEvent::Count(0), AuthEvent::Count(10)]);
    assert_eq!(run(&minute).0, AuthState::Done(AuthOutcome::Denied(AuthFailure::TooManyRequests)));
    let mut hour = prefix.to_vec();
    hour.extend([AuthEvent::Count(0), AuthEvent::Count(0), AuthEvent::Count(100)]);
    assert_eq!(run(&hour).0, AuthState::Done(AuthOutcome::Denied(AuthFailure::TooManyRequests)));
    let mut failing_increment = prefix.to_vec();
    failing_increment.extend([AuthEvent::Count(0), AuthEvent::Count(0), AuthEvent::Count(0), AuthEvent::Failed]);
    assert_eq!(run(&failing_increment).0, AuthState::Done(AuthOutcome::Denied(AuthFailure::InternalError)));
}

#[test]
fn finished_authorization_stays_finished() {
    let done = AuthState::Done(AuthOutcome::Granted(5));
    assert_eq!(step(done, AuthEvent::KeyMissing, NOW), (done, AuthAction::Respond(AuthOutcome::Granted(5))));
}

fn run_at(events: &[AuthEvent], now: i64) -> (AuthState, Vec<AuthAction>) {
    let (mut s, a) = start();
    let mut actions = vec![a];
    for e in events {
        let (s2, a2) = step(s, *e, now);
        s = s2;
        actions.push(a2);
    }
    (s, actions)
}

#[test]
fn far_future_clock_within_chrono_range_is_granted() {
    // about year 258,000: later than any earlier bound, within chrono's range
    let now = 8_100_000_000_000_000_000i64;
    let (s, _) = run_at(
        &[
            AuthEvent::KeyFound(key(true, None)),
            AuthEvent::DefinitionFound,
            AuthEvent::PermissionFound(permission(true)),
            AuthEvent::Count(0),
            AuthEvent::Count(0),
            AuthEvent::Count(0),
            AuthEvent::Stored,
            AuthEvent::Stored,
            AuthEvent::Stored,
        ],
        now,
    );
    assert_eq!(s, AuthState::Done(AuthOutcome::Granted(42)));
}

#[test]
fn filled_and_empty_caches_decide_alike() {
    let counts = [AuthEvent::Count(3), AuthEvent::Count(2), AuthEvent::Count(1), AuthEvent::Stored, AuthEvent::Stored, AuthEvent::Stored];
    let mut filled = vec![
        AuthEvent::KeyFound(key(true, None)),
        AuthEvent::DefinitionFound,
        AuthEvent::PermissionFound(permission(true)),
    ];
    filled.extend_from_slice(&counts);
    let mut empty = vec![
        AuthEvent::KeyMissing,
        AuthEvent::KeyFound(key(true, None)),
        AuthEvent::Stored,
        AuthEvent::DefinitionMissing,
        AuthEvent::DefinitionFound,
        AuthEvent::Stored,
        AuthEvent::PermissionMissing,
        AuthEvent::PermissionFound(permission(true)),
        AuthEvent::Stored,
    ];
    empty.extend_from_slice(&counts);
    let (sa, aa) = run(&filled);
    let (sb, ab) = run(&empty);
    assert_eq!(sa, sb);
    assert_eq!(sa, AuthState::Done(AuthOutcome::Granted(42)));
    assert_eq!(aa[3..], ab[9..]);
}
