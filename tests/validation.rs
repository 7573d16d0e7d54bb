use cms_auth_gate::{
    check_reference, extract_token, get_session_id, validate_token, AuthError, CmsTokenCache,
    SessionScope, Step, AUTH_CMS_TOKEN_IDENTIFIER, TOKEN_COOKIE_NAME,
};

/// Runs a whole validation, counting store lookups.
fn run(
    cache: &mut CmsTokenCache,
    session: &str,
    cookie: Option<&str>,
    authorization: Option<&str>,
    store: &Result<String, String>,
    lookups: &mut u32,
) -> Result<(), AuthError> {
    match cache.begin(session, cookie, authorization) {
        Step::Decided(r) => r,
        Step::FetchReference(presented) => {
            *lookups += 1;
            cache.complete(session, &presented, store.clone())
        }
    }
}

fn abc_store() -> Result<String, String> {
    Ok("abc123".to_string())
}

#[test]
fn missing_when_no_cookie_and_no_header() {
    assert!(matches!(extract_token(None, None), Err(AuthError::TokenMissing)));
}

#[test]
fn bearer_header_presents_its_value() {
    assert_eq!(extract_token(None, Some("Bearer xyz")).unwrap(), "xyz");
    assert_eq!(extract_token(None, Some("Bearer ")).unwrap(), "");
}

#[test]
fn header_without_bearer_prefix_is_missing() {
    assert!(matches!(extract_token(None, Some("bearer xyz")), Err(AuthError::TokenMissing)));
    assert!(matches!(extract_token(None, Some("Bearerxyz")), Err(AuthError::TokenMissing)));
    assert!(matches!(extract_token(None, Some("Basic xyz")), Err(AuthError::TokenMissing)));
}

#[test]
fn cookie_takes_precedence_over_header() {
    assert_eq!(extract_token(Some("from-cookie"), Some("Bearer from-header")).unwrap(), "from-cookie");
    assert_eq!(extract_token(Some(""), Some("Bearer x")).unwrap(), "");
}

#[test]
fn validate_token_is_exact_equality() {
    assert!(validate_token("abc123", "abc123").is_ok());
    assert!(matches!(validate_token("abc123", "abc12"), Err(AuthError::TokenInvalid)));
    assert!(matches!(validate_token("abc123", "ABC123"), Err(AuthError::TokenInvalid)));
}

#[test]
fn scenario_allowed_with_matching_bearer() {
    let mut cache = CmsTokenCache::new();
    let mut lookups = 0;
    let r = run(&mut cache, "s", None, Some("Bearer abc123"), &abc_store(), &mut lookups);
    assert!(r.is_ok());
    assert_eq!(lookups, 1);
}

#[test]
fn scenario_invalid_with_wrong_bearer() {
    let mut cache = CmsTokenCache::new();
    let mut lookups = 0;
    let r = run(&mut cache, "s", None, Some("Bearer wrong"), &abc_store(), &mut lookups);
    let e = r.unwrap_err();
    assert!(matches!(e, AuthError::TokenInvalid));
    assert_eq!(e.status_code(), 401);
    assert_eq!(e.message(), "please provide valid token");
}

#[test]
fn scenario_missing_credential() {
    let mut cache = CmsTokenCache::new();
    let mut lookups = 0;
    let r = run(&mut cache, "s", None, None, &abc_store(), &mut lookups);
    let e = r.unwrap_err();
    assert!(matches!(e, AuthError::TokenMissing));
    assert_eq!(e.status_code(), 401);
    assert_eq!(e.message(), "please provide token");
    assert_eq!(lookups, 0);
}

#[test]
fn scenario_store_failure() {
    let mut cache = CmsTokenCache::new();
    let mut lookups = 0;
    let store = Err("connection refused".to_string());
    let e = run(&mut cache, "s", None, Some("Bearer abc123"), &store, &mut lookups).unwrap_err();
    assert!(matches!(e, AuthError::DatabaseError(ref d) if d == "connection refused"));
    assert_eq!(e.status_code(), 500);
    assert!(!e.message().is_empty());
    assert!(cache.get("s").is_none());
}

#[test]
fn store_failure_without_detail_still_has_a_message() {
    let e = check_reference(Err(String::new())).unwrap_err();
    assert_eq!(e.status_code(), 500);
    assert_eq!(e.message(), "configuration store lookup failed");
}

#[test]
fn empty_reference_is_store_failure_even_for_empty_credential() {
    let mut cache = CmsTokenCache::new();
    let mut lookups = 0;
    let store = Ok(String::new());
    let e = run(&mut cache, "s", Some(""), None, &store, &mut lookups).unwrap_err();
    assert!(matches!(e, AuthError::DatabaseError(_)));
    assert_eq!(e.message(), "credential not configured");
    assert_eq!(e.status_code(), 500);
    assert!(cache.get("s").is_none());
}

#[test]
fn empty_cached_value_is_store_failure() {
    let mut cache = CmsTokenCache::new();
    cache.put("s".to_string(), String::new());
    match cache.begin("s", Some(""), None) {
        Step::Decided(Err(AuthError::DatabaseError(_))) => {}
        _ => panic!("an empty cached reference must not allow"),
    }
}

#[test]
fn second_validation_is_a_cache_hit_with_same_outcome() {
    let mut cache = CmsTokenCache::new();
    let mut lookups = 0;
    let first = run(&mut cache, "s", None, Some("Bearer abc123"), &abc_store(), &mut lookups);
    let second = run(&mut cache, "s", None, Some("Bearer abc123"), &abc_store(), &mut lookups);
    assert!(first.is_ok() && second.is_ok());
    assert_eq!(lookups, 1);
    let third = run(&mut cache, "s", None, Some("Bearer wrong"), &abc_store(), &mut lookups);
    assert!(matches!(third, Err(AuthError::TokenInvalid)));
    assert_eq!(lookups, 1);
}

#[test]
fn failed_lookup_is_retried_next_time() {
    let mut cache = CmsTokenCache::new();
    let mut lookups = 0;
    let store = Err("timeout".to_string());
    let first = run(&mut cache, "s", None, Some("Bearer abc123"), &store, &mut lookups);
    let second = run(&mut cache, "s", None, Some("Bearer abc123"), &store, &mut lookups);
    assert!(matches!(first, Err(AuthError::DatabaseError(_))));
    assert!(matches!(second, Err(AuthError::DatabaseError(_))));
    assert_eq!(lookups, 2);
}

#[test]
fn cache_returns_fetched_value() {
    let mut cache = CmsTokenCache::new();
    assert!(cache.complete("s", "x", abc_store()).is_err());
    assert_eq!(cache.get("s").unwrap(), "abc123");
    assert!(cache.get("other").is_none());
}

#[test]
fn cache_put_overwrites_last_write_wins() {
    let mut cache = CmsTokenCache::new();
    cache.put("s".to_string(), "one".to_string());
    cache.put("s".to_string(), "two".to_string());
    cache.put("t".to_string(), "three".to_string());
    assert_eq!(cache.get("s").unwrap(), "two");
    assert_eq!(cache.get("t").unwrap(), "three");
}

#[test]
fn sessions_are_cached_separately() {
    let mut cache = CmsTokenCache::new();
    let mut lookups = 0;
    assert!(run(&mut cache, "a", None, Some("Bearer abc123"), &abc_store(), &mut lookups).is_ok());
    assert!(run(&mut cache, "b", None, Some("Bearer abc123"), &abc_store(), &mut lookups).is_ok());
    assert_eq!(lookups, 2);
}

#[test]
fn session_id_joins_debug_texts() {
    let scope = SessionScope { ns: Some("avored".to_string()), db: Some("cms".to_string()) };
    assert_eq!(get_session_id(&scope), "Some(\"avored\")-Some(\"cms\")");
    let none = SessionScope { ns: None, db: Some("cms".to_string()) };
    assert_eq!(get_session_id(&none), "None-Some(\"cms\")");
}

#[test]
fn well_known_names() {
    assert_eq!(TOKEN_COOKIE_NAME, "token");
    assert_eq!(AUTH_CMS_TOKEN_IDENTIFIER, "auth_cms_token");
}
