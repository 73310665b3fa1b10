use simprint_server::paths::{extract_resource_path, is_local_api_management_path, join_plus, resource_identifier};
use simprint_server::text::{chars_of, equals, starts_with, string_from_chars, trim_bounds};

#[test]
fn resource_path_strips_versioned_prefix() {
    assert_eq!(extract_resource_path("/api/v1/environments"), "/environments");
    assert_eq!(extract_resource_path("/api/v12/teams/members"), "/teams/members");
}

#[test]
fn resource_path_keeps_other_paths() {
    assert_eq!(extract_resource_path("/health"), "/health");
    assert_eq!(extract_resource_path("/api/v1"), "/api/v1");
    assert_eq!(extract_resource_path(""), "");
    assert_eq!(extract_resource_path("/api/x/y"), "/api/x/y");
}

#[test]
fn resource_path_cuts_at_first_slash_after_prefix() {
    assert_eq!(extract_resource_path("/api/version/x"), "/x");
    assert_eq!(extract_resource_path("/api/v1//double"), "//double");
}

#[test]
fn resource_path_is_a_suffix() {
    for p in ["/api/v1/a/b", "/x", "/api/v", "/api/v9/"] {
        let r = extract_resource_path(p);
        assert!(p.ends_with(r));
    }
}

#[test]
fn local_api_management_paths() {
    assert!(is_local_api_management_path("/api/v1/local-api/config"));
    assert!(is_local_api_management_path("/local-api/keys"));
    assert!(!is_local_api_management_path("/api/v1/environments"));
    assert!(!is_local_api_management_path("/api/v1/local"));
}

#[test]
fn identifiers_join_method_and_business_path() {
    assert_eq!(resource_identifier("GET", "/api/v1/teams"), "GET+/teams");
    assert_eq!(resource_identifier("POST", "/health"), "POST+/health");
    assert_eq!(join_plus("GET", "/api/v1/teams"), "GET+/api/v1/teams");
}

#[test]
fn trimming_removes_unicode_whitespace() {
    let cs = chars_of("\u{3000} \tkey\u{A0}\n");
    let (a, b) = trim_bounds(&cs);
    assert_eq!(string_from_chars(&cs, a, b), "key");
    let blank = chars_of(" \t ");
    let (a, b) = trim_bounds(&blank);
    assert_eq!(a, b);
}

#[test]
fn trimming_twice_changes_nothing_more() {
    let cs = chars_of("  a b  ");
    let (a, b) = trim_bounds(&cs);
    let once = string_from_chars(&cs, a, b);
    let cs2 = chars_of(&once);
    let (a2, b2) = trim_bounds(&cs2);
    assert_eq!(string_from_chars(&cs2, a2, b2), once);
}

#[test]
fn prefix_and_equality_tests() {
    let cs = chars_of("Bearer abc");
    assert!(starts_with(&cs, "Bearer "));
    assert!(!starts_with(&cs, "bearer "));
    assert!(equals(&chars_of("OPTIONS"), "OPTIONS"));
    assert!(!equals(&chars_of("OPTION"), "OPTIONS"));
}
