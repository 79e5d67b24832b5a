use web_ui::auth::{
    auth_outcome, bearer_resolution, bearer_token, extract_cookie, logout_cookie_header,
    parse_host_from_url, require_same_origin_mutation, session_cookie_header, session_display_name,
    AuthOutcome, BearerSource, SESSION_COOKIE,
};

#[test]
fn test_extract_cookie() {
    let cookies = "foo=bar; assistant_session=abc123; other=val";
    assert_eq!(extract_cookie(cookies, "assistant_session"), Some("abc123"));
    assert_eq!(extract_cookie(cookies, "foo"), Some("bar"));
    assert_eq!(extract_cookie(cookies, "missing"), None);
}

#[test]
fn test_extract_cookie_single() {
    assert_eq!(
        extract_cookie("assistant_session=xyz", "assistant_session"),
        Some("xyz")
    );
}

#[test]
fn extract_cookie_tolerates_spaces_around_equals() {
    assert_eq!(extract_cookie("  a = 1 ;b=2", "a"), Some("1"));
    assert_eq!(extract_cookie("a", "a"), None);
    assert_eq!(extract_cookie("", "a"), None);
    assert_eq!(extract_cookie("ab=1; a=2", "a"), Some("2"));
}

#[test]
fn parse_host_from_url_reads_http_and_https() {
    assert_eq!(parse_host_from_url("https://example.com/page"), Some("example.com".to_string()));
    assert_eq!(parse_host_from_url("  http://a.b:8080  "), Some("a.b:8080".to_string()));
    assert_eq!(parse_host_from_url("ftp://example.com"), None);
    assert_eq!(parse_host_from_url("https:///x"), None);
}

#[test]
fn bearer_token_strips_prefix_and_trims() {
    assert_eq!(bearer_token("Bearer  abc "), Some("abc"));
    assert_eq!(bearer_token("Basic abc"), None);
}

#[test]
fn csrf_allows_safe_methods() {
    assert!(require_same_origin_mutation("GET", None, None, None, None));
    assert!(require_same_origin_mutation("HEAD", None, None, None, None));
    assert!(require_same_origin_mutation("OPTIONS", None, None, None, None));
}

#[test]
fn csrf_allows_bearer_auth() {
    assert!(require_same_origin_mutation("POST", Some("Bearer some-token"), None, None, None));
}

#[test]
fn csrf_allows_matching_origin() {
    assert!(require_same_origin_mutation(
        "POST",
        None,
        Some("example.com"),
        Some("https://example.com"),
        None
    ));
}

#[test]
fn csrf_blocks_mismatched_origin() {
    assert!(!require_same_origin_mutation(
        "POST",
        None,
        Some("example.com"),
        Some("https://evil.com"),
        None
    ));
}

#[test]
fn csrf_allows_mixed_case_origin() {
    assert!(require_same_origin_mutation(
        "POST",
        None,
        Some("Example.COM"),
        Some("https://example.com"),
        None
    ));
}

#[test]
fn csrf_blocks_missing_origin_on_mutation() {
    assert!(!require_same_origin_mutation("POST", None, Some("example.com"), None, None));
}

#[test]
fn csrf_falls_back_to_referer() {
    assert!(require_same_origin_mutation(
        "POST",
        None,
        Some("example.com"),
        None,
        Some("https://example.com/page")
    ));
}

#[test]
fn bearer_resolution_order() {
    assert_eq!(bearer_resolution("x", true, true, Some("x"), true), BearerSource::Jwt);
    assert_eq!(bearer_resolution("ask_live_1", false, true, None, false), BearerSource::ApiKey);
    assert_eq!(bearer_resolution("other", false, true, None, false), BearerSource::Unresolved);
    assert_eq!(bearer_resolution("legacy", false, false, Some("legacy"), true), BearerSource::Legacy);
    assert_eq!(bearer_resolution("legacy", false, false, Some("legacy"), false), BearerSource::Unresolved);
}

#[test]
fn missing_auth_redirects_browsers_and_refuses_api() {
    assert_eq!(auth_outcome(false, false, Some("text/html,application/xhtml+xml")), AuthOutcome::RedirectToLogin);
    assert_eq!(auth_outcome(false, false, Some("application/json")), AuthOutcome::Unauthorized);
    assert_eq!(auth_outcome(false, false, None), AuthOutcome::Unauthorized);
    assert_eq!(auth_outcome(true, false, None), AuthOutcome::Bearer);
    assert_eq!(auth_outcome(false, true, None), AuthOutcome::SessionCookie);
}

#[test]
fn session_cookie_headers() {
    assert_eq!(
        session_cookie_header("jwt", 3600, true),
        "assistant_session=jwt; HttpOnly; SameSite=Lax; Path=/; Max-Age=3600; Secure"
    );
    assert_eq!(
        logout_cookie_header(false),
        "assistant_session=; HttpOnly; SameSite=Lax; Path=/; Max-Age=0"
    );
    assert_eq!(SESSION_COOKIE, "assistant_session");
    assert_eq!(session_display_name("", "u1"), "u1");
    assert_eq!(session_display_name("a@b", "u1"), "a@b");
}
