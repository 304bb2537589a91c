use onedsixapi::server::auth::AuthChecker;
use onedsixapi::server::cache::Cache;
use onedsixapi::server::cdns::{allowed_cdns, check_url};
use onedsixapi::server::errors::ApiErrors;
use onedsixapi::server::ratelimit::{default_ratelimit, limit_request, rate_limit_decision, RateLimitCheck, RateLimitDecision};
use onedsixapi::server::responses::not_found;
use onedsixapi::server::stats::Stats;
use onedsixapi::server::telemetry::{is_gdpr, screen_telemetry, some_tag_gdpr};
use onedsixapi::server::validation::user::{PasswordResult, UsernameResult};

fn all_server_errors() -> Vec<ApiErrors> {
    vec![
        ApiErrors::UnknownError("x".to_string()),
        ApiErrors::Validation("bad".to_string()),
        ApiErrors::NotFound("/x".to_string()),
        ApiErrors::DatabaseError("db down".to_string()),
        ApiErrors::InvalidCredentials("x".to_string()),
        ApiErrors::UnavailableUsername("x".to_string()),
        ApiErrors::DisallowedUsername("x".to_string()),
        ApiErrors::UnhashedPassword("x".to_string()),
        ApiErrors::AuthenticationCookieError("x".to_string()),
        ApiErrors::RateLimitError(250, 5),
        ApiErrors::CustomAuthentication("who".to_string()),
        ApiErrors::Unauthorized,
    ]
}

#[test]
fn server_error_answers() {
    let expected = [
        ("unknown_error", "An unknown error occurred.", 500u16),
        ("invalid_input", "Error while validating input: bad", 400),
        ("not_found", "Could not find: /x", 404),
        ("database_error", "db down", 500),
        ("invalid_credentials", "Invalid Username/Password Combo", 401),
        ("unavailable_username", "This username is taken", 400),
        ("disallowed_username", "This username is disallowed", 400),
        ("unhashed_password", "Sent an unhashed password", 400),
        ("auth_cookie_error", "Error with Authentication Cookie", 400),
        ("rate_limited", "You are being rate-limited. Please wait 250 milliseconds. 0/5 remaining.", 429),
        ("custom_auth", "Authentication Error: who", 401),
        ("unauthorized", "You are unauthorized to access this content.", 401),
    ];
    for (e, (name, msg, status)) in all_server_errors().iter().zip(expected.iter()) {
        let a = e.as_api_error();
        assert_eq!(a.error, *name);
        assert_eq!(a.description, *msg);
        assert_eq!(e.status_code(), *status);
    }
}

#[test]
fn server_error_names_distinct() {
    let errors = all_server_errors();
    let mut names: Vec<&str> = errors.iter().map(|e| e.error_name()).collect();
    names.sort();
    names.dedup();
    assert_eq!(names.len(), errors.len());
}

#[test]
fn passwords_by_hash_kind() {
    let sha1 = "a".repeat(40);
    let sha256 = "0123456789abcdefABCDEF0123456789abcdefABCDEF0123456789abcdef0123".to_string();
    let sha512 = "F".repeat(128);
    assert_eq!(sha256.len(), 64);
    assert_eq!(PasswordResult::password_check(sha1), Ok(PasswordResult::SHA1));
    assert_eq!(PasswordResult::password_check(sha256), Ok(PasswordResult::SHA256));
    assert_eq!(PasswordResult::password_check(sha512), Ok(PasswordResult::SHA512));
    assert_eq!(PasswordResult::password_check("hunter2".to_string()), Ok(PasswordResult::UnknownHash));
    assert_eq!(PasswordResult::password_check("g".repeat(40)), Ok(PasswordResult::UnknownHash));
    assert_eq!(PasswordResult::password_check("a".repeat(41)), Ok(PasswordResult::UnknownHash));
    assert_eq!(PasswordResult::password_check(String::new()), Ok(PasswordResult::UnknownHash));
    assert_eq!(PasswordResult::password_check("é".repeat(20)), Ok(PasswordResult::UnknownHash));
}

#[test]
fn hex_check() {
    assert!(PasswordResult::is_valid_hex(&"0123456789abcdefABCDEF".to_string()));
    assert!(PasswordResult::is_valid_hex(&String::new()));
    assert!(!PasswordResult::is_valid_hex(&"12 34".to_string()));
    assert!(!PasswordResult::is_valid_hex(&"xyz".to_string()));
}

#[test]
fn usernames_checked_in_order() {
    assert!(matches!(UsernameResult::username_check("bob", Some(true)), Err(UsernameResult::Taken)));
    assert!(matches!(UsernameResult::username_check("bob", Some(false)), Ok(UsernameResult::Passed)));
    assert!(matches!(UsernameResult::username_check("bob", None), Ok(UsernameResult::Passed)));
    assert!(matches!(UsernameResult::username_check("fuck", Some(false)), Err(UsernameResult::FowlLanguage)));
    assert!(matches!(UsernameResult::username_check("select1", None), Err(UsernameResult::SqlInjection)));
    assert!(matches!(UsernameResult::username_check("DROPZONE", None), Err(UsernameResult::SqlInjection)));
    assert!(matches!(UsernameResult::username_check("george", None), Err(UsernameResult::SqlInjection)));
    assert!(matches!(UsernameResult::username_check("select1", Some(true)), Err(UsernameResult::Taken)));
}

#[test]
fn username_result_from_error() {
    match UsernameResult::from(ApiErrors::DatabaseError("gone".to_string())) {
        UsernameResult::DatabaseError(m) => assert_eq!(m, "gone"),
        _ => panic!("expected a database error"),
    }
    assert!(matches!(UsernameResult::from(ApiErrors::Unauthorized), UsernameResult::UnhandledResult));
}

#[test]
fn rate_limit_decisions() {
    match rate_limit_decision(None) {
        RateLimitDecision::NoAddress(ApiErrors::CustomAuthentication(m)) => {
            assert_eq!(m, "Unable to obtain user IP address!")
        },
        _ => panic!("expected a missing address"),
    }
    match rate_limit_decision(Some(RateLimitCheck::Allowed { burst_size: 5, remaining: 3, replenished_in_secs: 1 })) {
        RateLimitDecision::Forward(h) => assert_eq!((h.limit, h.remaining, h.reset), (5, 3, 1)),
        _ => panic!("expected to pass"),
    }
    match rate_limit_decision(Some(RateLimitCheck::Denied { burst_size: 5, wait_millis: 1200, wait_secs: 1 })) {
        RateLimitDecision::Reject(e, h) => {
            assert_eq!((h.limit, h.remaining, h.reset), (5, 0, 1));
            assert_eq!(e.status_code(), 429);
            assert_eq!(e.message(), "You are being rate-limited. Please wait 1200 milliseconds. 0/5 remaining.");
        },
        _ => panic!("expected a refusal"),
    }
}

#[test]
fn server_cache_lifecycle() {
    let now: i128 = 1_700_000_000_000_000_000;
    let hour: i128 = 3_600_000_000_000;
    let mut c: Cache<u32> = Cache::new_full_at(7, 2, now);
    assert_eq!(*c.data(), Some(7));
    assert_eq!(c.max_age(), 2);
    assert_eq!(c.last_updated(), now - 3 * hour);
    assert!(c.is_expired_at(now));
    c.set_expiration(10);
    assert_eq!(c.max_age(), 10);
    assert!(!c.is_expired_at(now));
    c.update_at(9, now + 5);
    assert!(!c.is_expired_at(now + 5 + 10 * hour - 1));
    assert!(c.is_expired_at(now + 5 + 10 * hour));
    assert_eq!(*c.data(), Some(9));
    assert_eq!(c.last_updated(), now + 5);
    let e: Cache<u32> = Cache::new_at(now);
    assert_eq!(*e.data(), None);
    assert_eq!(e.max_age(), 3);
    assert!(e.is_expired_at(now));
}

#[test]
fn server_cache_with_clock() {
    let mut c: Cache<u32> = Cache::new();
    assert!(c.is_expired());
    let f: Cache<u32> = Cache::new_full(1, 5);
    assert!(f.is_expired());
    c.update(3);
    assert!(!c.is_expired());
    assert_eq!(*c.data(), Some(3));
}

#[test]
fn server_stats() {
    let s = Stats::from_counts(12, 34, 56);
    assert_eq!(s.totals.users, Some(12));
    assert_eq!(s.totals.mods, Some(34));
    assert_eq!(s.totals.servers, Some(0));
    assert_eq!(s.totals.authors, Some(0));
    assert_eq!(s.online.users, Some(0));
    assert_eq!(s.online.servers, Some(0));
    assert_eq!(s.refresh_in, 56);
}

#[test]
fn telemetry_any_language() {
    assert!(is_gdpr(Some("en-US,de;q=0.5")));
    assert!(is_gdpr(Some("ru")));
    assert!(!is_gdpr(Some("en-US,ja;q=0.5")));
    assert!(!is_gdpr(None));
    assert!(screen_telemetry(Some("en,fr")).is_err());
    assert!(screen_telemetry(Some("en")).is_ok());
}

#[test]
fn auth_without_identity() {
    assert!(matches!(AuthChecker::check_auth(None), Err(AuthChecker::NoLI)));
}

#[test]
fn cdns_listed() {
    assert_eq!(allowed_cdns(), vec!["example.com".to_string(), "rust-lang.org".to_string(), "docs.rs".to_string()]);
    check_url();
}

#[test]
fn not_found_answer() {
    let a = not_found();
    assert_eq!(a.error, "not_found");
    assert_eq!(a.description, "the requested route does not exist");
}

use onedsixapi::server::user::{login_check, signed_in_name, signup_refusal, unhashed_password};

#[test]
fn signed_in_names() {
    assert_eq!(signed_in_name(None).unwrap(), "NoLI");
    assert_eq!(signed_in_name(Some(Ok("alice".to_string()))).unwrap(), "alice");
    match signed_in_name(Some(Err("bad cookie".to_string()))) {
        Err(ApiErrors::AuthenticationCookieError(m)) => assert_eq!(m, "bad cookie"),
        _ => panic!("expected a cookie error"),
    }
}

#[test]
fn signup_refusals() {
    assert!(signup_refusal(&Ok(UsernameResult::Passed)).is_none());
    match signup_refusal(&Err(UsernameResult::DatabaseError("timeout".to_string()))) {
        Some(ApiErrors::DatabaseError(m)) => assert_eq!(m, "Error while checking username availability: timeout"),
        _ => panic!("expected a database error"),
    }
    match signup_refusal(&Err(UsernameResult::SqlInjection)) {
        Some(ApiErrors::DisallowedUsername(m)) => assert_eq!(m, "This username is disallowed"),
        _ => panic!("expected a disallowed name"),
    }
    assert!(matches!(signup_refusal(&Err(UsernameResult::FowlLanguage)), Some(ApiErrors::DisallowedUsername(_))));
    match signup_refusal(&Err(UsernameResult::Taken)) {
        Some(ApiErrors::UnavailableUsername(m)) => assert_eq!(m, "This username is unavailable"),
        _ => panic!("expected an unavailable name"),
    }
    assert!(matches!(signup_refusal(&Ok(UsernameResult::Taken)), Some(ApiErrors::UnknownError(_))));
    assert!(matches!(signup_refusal(&Err(UsernameResult::UnhandledResult)), Some(ApiErrors::UnknownError(_))));
    match unhashed_password() {
        ApiErrors::UnhashedPassword(m) => assert_eq!(m, "The password you sent was either unhashed or not supported"),
        _ => panic!("expected an unhashed password"),
    }
}

#[test]
fn login_checks() {
    assert!(login_check("abc", "abc").is_ok());
    assert!(matches!(login_check("abc", "abd"), Err(ApiErrors::InvalidCredentials(_))));
    assert!(login_check("", "").is_ok());
}

#[test]
fn limiter_passes_a_burst_then_refuses() {
    let limiter = default_ratelimit();
    for left in (0..5u32).rev() {
        match limit_request(&limiter, Some("10.0.0.1")) {
            RateLimitDecision::Forward(h) => {
                assert_eq!(h.limit, 5);
                assert_eq!(h.remaining, left);
                assert_eq!(h.reset, 1);
            },
            other => panic!("expected the request to pass, got {:?}", other),
        }
    }
    match limit_request(&limiter, Some("10.0.0.1")) {
        RateLimitDecision::Reject(ApiErrors::RateLimitError(wait, limit), h) => {
            assert_eq!(limit, 5);
            assert!(wait <= 1000);
            assert_eq!(h.limit, 5);
            assert_eq!(h.remaining, 0);
            assert_eq!(u128::from(h.reset), wait / 1000);
        },
        other => panic!("expected a refusal, got {:?}", other),
    }
    // Another client has its own burst.
    match limit_request(&limiter, Some("10.0.0.2")) {
        RateLimitDecision::Forward(h) => assert_eq!(h.remaining, 4),
        other => panic!("expected the request to pass, got {:?}", other),
    }
}

#[test]
fn limiter_without_address() {
    let limiter = default_ratelimit();
    match limit_request(&limiter, None) {
        RateLimitDecision::NoAddress(ApiErrors::CustomAuthentication(m)) => {
            assert_eq!(m, "Unable to obtain user IP address!");
        },
        other => panic!("expected the missing-address answer, got {:?}", other),
    }
}

#[test]
fn any_captured_tag_screens() {
    let caps = vec![Some("en".to_string()), None, Some("pl".to_string())];
    assert!(some_tag_gdpr(&caps));
    let caps = vec![Some("en".to_string()), Some("ja".to_string())];
    assert!(!some_tag_gdpr(&caps));
    assert!(!some_tag_gdpr(&vec![]));
}
