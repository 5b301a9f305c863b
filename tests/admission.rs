use paracord_gateway::admission::{
    allowed_methods, build_cors_policy, client_key, AdmissionState, CorsPolicy, OriginGrant,
    RATE_LIMIT_PER_SECOND,
};

#[test]
fn client_key_is_first_forwarded_hop_trimmed() {
    assert_eq!(client_key(Some(" 203.0.113.7 , 10.0.0.1")), "203.0.113.7");
    assert_eq!(client_key(Some("198.51.100.2")), "198.51.100.2");
}

#[test]
fn client_key_falls_back_to_local() {
    assert_eq!(client_key(None), "local");
    assert_eq!(client_key(Some("")), "local");
    assert_eq!(client_key(Some("  ,10.0.0.1")), "local");
}

#[test]
fn window_admits_ceiling_then_refuses_then_restarts() {
    let mut state = AdmissionState::new();
    for _ in 0..300 {
        assert!(state.check_request(Some("203.0.113.7"), 1_700_000_000));
    }
    assert!(!state.check_request(Some("203.0.113.7"), 1_700_000_000));
    assert!(state.check_request(Some("203.0.113.7"), 1_700_000_001));
    assert_eq!(state.buckets.get("203.0.113.7"), Some(&(1_700_000_001, 1)));
    assert_eq!(state.requests, 302);
    assert_eq!(state.rate_limited, 1);
    assert_eq!(RATE_LIMIT_PER_SECOND, 300);
}

#[test]
fn windows_are_kept_per_key() {
    let mut state = AdmissionState::new();
    for _ in 0..300 {
        assert!(state.check_request(Some("10.0.0.1"), 5));
    }
    assert!(!state.check_request(Some("10.0.0.1"), 5));
    assert!(state.check_request(Some("10.0.0.2"), 5));
    assert!(state.check_request(None, 5));
    assert_eq!(state.buckets.get("local"), Some(&(5, 1)));
}

#[test]
fn check_request_now_counts_the_request() {
    let mut state = AdmissionState::new();
    assert!(state.check_request_now(Some("192.0.2.1")));
    assert_eq!(state.requests, 1);
    assert_eq!(state.buckets.get("192.0.2.1").map(|b| b.1), Some(1));
    assert!(state.buckets.get("192.0.2.1").unwrap().0 > 1_600_000_000);
}

#[test]
fn metrics_text_shows_both_counters() {
    let mut state = AdmissionState::new();
    for _ in 0..301 {
        state.check_request(None, 9);
    }
    assert_eq!(
        state.metrics_text(),
        "paracord_up 1\nparacord_http_requests_total 301\nparacord_http_rate_limited_total 1\n"
    );
    assert_eq!(
        AdmissionState::new().metrics_text(),
        "paracord_up 1\nparacord_http_requests_total 0\nparacord_http_rate_limited_total 0\n"
    );
}

#[test]
fn no_configuration_allows_any_origin_without_credentials() {
    let policy = build_cors_policy(&vec![], None);
    assert_eq!(policy, CorsPolicy::Permissive);
    assert_eq!(policy.grant("https://evil.example"), OriginGrant::AnyOrigin);
    assert_eq!(policy.grant("tauri://localhost"), OriginGrant::AnyOrigin);
    assert_eq!(policy.allowed_headers(), None);
}

#[test]
fn one_configured_origin_allows_it_and_desktop_origins_only() {
    let policy = build_cors_policy(&vec!["https://chat.example".to_string()], None);
    assert_eq!(policy.grant("https://chat.example"), OriginGrant::Credentialed);
    assert_eq!(policy.grant("tauri://localhost"), OriginGrant::Credentialed);
    assert_eq!(policy.grant("http://tauri.localhost"), OriginGrant::Credentialed);
    assert_eq!(policy.grant("https://other.example"), OriginGrant::Denied);
    assert_eq!(policy.grant("https://chat.example/"), OriginGrant::Denied);
    assert_eq!(
        policy.allowed_headers(),
        Some(vec!["authorization".to_string(), "content-type".to_string(), "accept".to_string()])
    );
}

#[test]
fn public_url_gives_the_origin_without_trailing_slashes() {
    let policy = build_cors_policy(&vec![], Some("https://chat.example//"));
    assert_eq!(
        policy,
        CorsPolicy::Restrictive(vec![
            "https://chat.example".to_string(),
            "tauri://localhost".to_string(),
            "http://tauri.localhost".to_string(),
        ])
    );
}

#[test]
fn explicit_origins_win_over_public_url_and_are_not_repeated() {
    let policy = build_cors_policy(
        &vec!["tauri://localhost".to_string(), "https://a.example".to_string()],
        Some("https://b.example"),
    );
    assert_eq!(
        policy,
        CorsPolicy::Restrictive(vec![
            "tauri://localhost".to_string(),
            "https://a.example".to_string(),
            "http://tauri.localhost".to_string(),
        ])
    );
    assert_eq!(policy.grant("https://b.example"), OriginGrant::Denied);
}

#[test]
fn methods_are_the_five_rest_verbs() {
    assert_eq!(allowed_methods(), vec!["GET", "POST", "PUT", "PATCH", "DELETE"]);
}
