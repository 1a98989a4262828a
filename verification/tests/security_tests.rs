use worker_fullstack::cors::{Cors, CorsConfig};
use worker_fullstack::errors::AppError;
use worker_fullstack::http::Method;
use worker_fullstack::rate_limit::{RateLimitConfig, RateLimitResult, RateLimitStep, RateLimiter};
use worker_fullstack::security_headers::{FrameOptions, HstsConfig, SecurityHeaders};
use worker_fullstack::types::Header;
use worker_fullstack::validation::{is_valid_id, sanitize_string, RequestValidator};

fn pairs(hs: &[Header]) -> Vec<(String, String)> {
    hs.iter().map(|h| (h.name.clone(), h.value.clone())).collect()
}

fn p(a: &str, b: &str) -> (String, String) {
    (a.to_string(), b.to_string())
}

#[test]
fn cors_wildcard_preflight() {
    let cors = Cors::with_defaults();
    assert!(cors.is_preflight(Method::Options));
    assert!(!cors.is_preflight(Method::Get));
    assert!(cors.is_origin_allowed("https://example.com"));
    let r = cors.preflight_response(Some("https://example.com".into()));
    assert_eq!(r.status, 200);
    assert_eq!(r.body, "");
    assert_eq!(
        pairs(&r.headers),
        vec![
            p("Access-Control-Allow-Origin", "*"),
            p("Access-Control-Allow-Methods", "GET, POST, PUT, DELETE, OPTIONS"),
            p("Access-Control-Allow-Headers", "Content-Type, Authorization, X-Requested-With"),
            p("Access-Control-Max-Age", "86400"),
        ]
    );
    assert_eq!(pairs(&cors.apply_headers(None)), vec![p("Access-Control-Allow-Origin", "*")]);
}

#[test]
fn cors_listed_origins() {
    let cors = Cors::new(CorsConfig {
        allowed_origins: vec!["https://a.example".into()],
        allowed_methods: vec!["GET".into()],
        allowed_headers: vec![],
        max_age: 60,
        allow_credentials: true,
    });
    let r = cors.preflight_response(Some("https://a.example".into()));
    assert_eq!(
        pairs(&r.headers),
        vec![
            p("Access-Control-Allow-Origin", "https://a.example"),
            p("Access-Control-Allow-Methods", "GET"),
            p("Access-Control-Allow-Headers", ""),
            p("Access-Control-Max-Age", "60"),
            p("Access-Control-Allow-Credentials", "true"),
        ]
    );
    let refused = cors.preflight_response(Some("https://b.example".into()));
    assert_eq!((refused.status, refused.body.as_str(), refused.headers.len()), (403, "Origin not allowed", 0));
    let refused = cors.preflight_response(None);
    assert_eq!(refused.status, 403);
    assert!(cors.apply_headers(Some("https://b.example".into())).is_empty());
    assert_eq!(
        pairs(&cors.apply_headers(Some("https://a.example".into()))),
        vec![p("Access-Control-Allow-Origin", "https://a.example"), p("Access-Control-Allow-Credentials", "true")]
    );
}

#[test]
fn security_header_sets() {
    let all = SecurityHeaders::new();
    assert_eq!(
        pairs(&all.apply()),
        vec![
            p("X-Content-Type-Options", "nosniff"),
            p("X-Frame-Options", "DENY"),
            p("X-XSS-Protection", "1; mode=block"),
            p("Referrer-Policy", "strict-origin-when-cross-origin"),
            p("Content-Security-Policy", "default-src 'self'"),
            p("Strict-Transport-Security", "max-age=31536000; includeSubDomains"),
            p("Permissions-Policy", "geolocation=(), microphone=(), camera=()"),
        ]
    );
    let api = SecurityHeaders::api_defaults();
    assert_eq!(
        pairs(&api.apply()),
        vec![
            p("X-Content-Type-Options", "nosniff"),
            p("X-Frame-Options", "DENY"),
            p("X-XSS-Protection", "1; mode=block"),
            p("Referrer-Policy", "strict-origin-when-cross-origin"),
            p("Strict-Transport-Security", "max-age=31536000; includeSubDomains"),
        ]
    );
    let custom = SecurityHeaders {
        content_type_options: false,
        frame_options: FrameOptions::SameOrigin,
        xss_protection: false,
        referrer_policy: "no-referrer".into(),
        content_security_policy: None,
        strict_transport_security: Some(HstsConfig { max_age: 5, include_subdomains: false, preload: true }),
        permissions_policy: None,
    };
    assert_eq!(
        pairs(&custom.apply()),
        vec![
            p("X-Frame-Options", "SAMEORIGIN"),
            p("Referrer-Policy", "no-referrer"),
            p("Strict-Transport-Security", "max-age=5; preload"),
        ]
    );
    let none = SecurityHeaders { frame_options: FrameOptions::Unset, strict_transport_security: None, ..SecurityHeaders::api_defaults() };
    assert_eq!(pairs(&none.apply()).len(), 3);
}

#[test]
fn rate_limit_window_sequence() {
    let limiter = RateLimiter::new((), RateLimitConfig { requests_per_window: 3, window_seconds: 60 });
    let mut stored: Option<String> = None;
    let mut outcomes = Vec::new();
    for _ in 0..5 {
        match limiter.decide(stored.clone()) {
            RateLimitStep::Reject(r) => outcomes.push(r),
            RateLimitStep::Record { count, ttl_seconds, result } => {
                assert_eq!(ttl_seconds, 60);
                stored = Some(count);
                outcomes.push(result);
            }
        }
    }
    assert_eq!(
        outcomes,
        vec![
            RateLimitResult::Allowed { limit: 3, remaining: 2, reset_seconds: 60 },
            RateLimitResult::Allowed { limit: 3, remaining: 1, reset_seconds: 60 },
            RateLimitResult::Allowed { limit: 3, remaining: 0, reset_seconds: 60 },
            RateLimitResult::Exceeded { limit: 3, remaining: 0, reset_seconds: 60 },
            RateLimitResult::Exceeded { limit: 3, remaining: 0, reset_seconds: 60 },
        ]
    );
    assert_eq!(stored.as_deref(), Some("3"));
}

#[test]
fn rate_limit_unreadable_count_starts_over() {
    let limiter = RateLimiter::with_defaults(());
    assert_eq!(limiter.config().requests_per_window, 100);
    match limiter.decide(Some("garbage".into())) {
        RateLimitStep::Record { count, result, .. } => {
            assert_eq!(count, "1");
            assert_eq!(result, RateLimitResult::Allowed { limit: 100, remaining: 99, reset_seconds: 60 });
        }
        other => panic!("unexpected {:?}", other),
    }
    assert!(matches!(limiter.decide(Some("100".into())), RateLimitStep::Reject(_)));
}

#[test]
fn rate_limit_client_key_and_headers() {
    let limiter = RateLimiter::with_defaults(());
    assert_eq!(limiter.get_client_ip(Some("1.2.3.4".into()), Some("5.6.7.8".into())), "1.2.3.4");
    assert_eq!(limiter.get_client_ip(None, Some("5.6.7.8".into())), "5.6.7.8");
    assert_eq!(limiter.get_client_ip(None, None), "unknown");
    assert_eq!(limiter.key_for("1.2.3.4"), "ratelimit:1.2.3.4");
    let r = RateLimitResult::Exceeded { limit: 100, remaining: 0, reset_seconds: 60 };
    assert!(r.is_exceeded());
    let e = r.to_error_response();
    assert_eq!((e.status, e.body.as_str()), (429, "Too Many Requests"));
    assert_eq!(
        pairs(&e.headers),
        vec![p("X-RateLimit-Limit", "100"), p("X-RateLimit-Remaining", "0"), p("X-RateLimit-Reset", "60")]
    );
    assert!(!RateLimitResult::Allowed { limit: 1, remaining: 0, reset_seconds: 1 }.is_exceeded());
}

#[test]
fn request_validation() {
    let v = RequestValidator::new(10);
    assert!(v.validate_content_length(Some("10".into())).is_ok());
    assert!(v.validate_content_length(Some("junk".into())).is_ok());
    assert!(v.validate_content_length(None).is_ok());
    match v.validate_content_length(Some("11".into())) {
        Err(AppError::BadRequest(m)) => assert_eq!(m, "Request body too large. Maximum size is 10 bytes"),
        other => panic!("unexpected {:?}", other),
    }
    assert!(v.validate_content_type(Method::Get, Some("text/plain".into())).is_ok());
    assert!(v.validate_content_type(Method::Delete, Some("text/plain".into())).is_ok());
    assert!(v.validate_content_type(Method::Post, None).is_ok());
    assert!(v.validate_content_type(Method::Post, Some("".into())).is_ok());
    assert!(v.validate_content_type(Method::Post, Some(" application/json ; charset=utf-8".into())).is_ok());
    match v.validate_content_type(Method::Put, Some("text/plain; charset=utf-8".into())) {
        Err(AppError::BadRequest(m)) => assert_eq!(m, "Content-Type 'text/plain' not allowed"),
        other => panic!("unexpected {:?}", other),
    }
    assert!(matches!(v.validate(Method::Post, Some("11".into()), Some("application/json".into())), Err(AppError::BadRequest(_))));
    assert!(v.validate(Method::Post, Some("3".into()), Some("application/x-www-form-urlencoded".into())).is_ok());
    let d = RequestValidator::default();
    assert_eq!(d.max_body_size, 1024 * 1024);
}

#[test]
fn sanitizing_text() {
    assert_eq!(sanitize_string("a\u{0}b\nc\td\u{7f}e\u{85}"), "ab\nc\tde");
    let long: String = std::iter::repeat('x').take(10005).collect();
    assert_eq!(sanitize_string(&long).chars().count(), 10000);
    let s = sanitize_string("x\u{1}y");
    assert_eq!(sanitize_string(&s), s);
    let mixed: String = std::iter::repeat("\u{1}a").take(10002).collect();
    let once = sanitize_string(&mixed);
    assert_eq!(once.chars().count(), 10000);
    assert_eq!(sanitize_string(&once), once);
}

#[test]
fn valid_ids() {
    assert!(is_valid_id(1));
    assert!(!is_valid_id(0));
    assert!(!is_valid_id(-5));
}

#[test]
fn sanitized_text_is_a_subsequence() {
    let input = "a\u{1}b\u{2}\nc";
    let out = sanitize_string(input);
    let mut rest = input.chars();
    for c in out.chars() {
        assert!(rest.any(|d| d == c));
    }
    assert_eq!(out, "ab\nc");
}
