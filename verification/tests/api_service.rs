use onedsixapi::api::cache::{seconds_of_span, Cache, Caching, MultiCache, NANOS_PER_HOUR, NANOS_PER_SEC};
use onedsixapi::api::dates::SpecialDates;
use onedsixapi::api::defaults::{default_ratelimit, index_answer, index_get, DOCS_LINK};
use onedsixapi::server::ratelimit::{limit_request, RateLimitDecision};
use onedsixapi::api::env::check_env_vars;
use onedsixapi::api::errors::ApiErrors;
use onedsixapi::api::gdpr::{first_tag_gdpr, gdpr_gate, is_gdpr};
use onedsixapi::api::mods::{may_edit_mod, mod_creator};
use onedsixapi::api::online::{activity_change, OnlineGlobal, OnlineKind};
use onedsixapi::api::stats::{StatCache, Stats};
use onedsixapi::api::telemetry::recorded_user_agent;

fn all_api_errors(dummy: &String) -> Vec<ApiErrors<'_>> {
    vec![
        ApiErrors::DummyError(dummy),
        ApiErrors::UnknownError("boom".to_string()),
        ApiErrors::Validation("bad".to_string()),
        ApiErrors::NotFound("/x".to_string(), "GET".to_string()),
        ApiErrors::DatabaseError("db down".to_string()),
        ApiErrors::InvalidCredentials,
        ApiErrors::UnavailableUsername("bob".to_string()),
        ApiErrors::DisallowedUsername("bob".to_string()),
        ApiErrors::UnhashedPassword,
        ApiErrors::AuthenticationCookieError,
        ApiErrors::RateLimitError(1500, 60),
        ApiErrors::AuthenticationError("no".to_string()),
        ApiErrors::Unauthorized,
        ApiErrors::WebhookError("hook".to_string()),
        ApiErrors::GDPRRegion,
    ]
}

#[test]
fn online_starts_at_zero() {
    let o = OnlineGlobal::new();
    assert_eq!((o.proxies, o.clients, o.servers, o.launchers, o.unknown), (0, 0, 0, 0, 0));
}

#[test]
fn online_changes_move_one_count() {
    let mut o = OnlineGlobal::new();
    o.change_proxies(1);
    o.change_client(2);
    o.change_servers(3);
    o.change_launchers(4);
    o.change_unknown(-5);
    assert_eq!((o.proxies, o.clients, o.servers, o.launchers, o.unknown), (1, 2, 3, 4, -5));
}

#[test]
fn activity_startup_and_shutdown() {
    assert_eq!(activity_change("startup", "proxy"), Some((OnlineKind::Proxies, 1)));
    assert_eq!(activity_change("startup", "client"), Some((OnlineKind::Clients, 1)));
    assert_eq!(activity_change("shutdown", "server"), Some((OnlineKind::Servers, -1)));
    assert_eq!(activity_change("shutdown", "launcher"), Some((OnlineKind::Launchers, -1)));
    assert_eq!(activity_change("startup", "gamepad"), Some((OnlineKind::Unknown, 1)));
    assert_eq!(activity_change("heartbeat", "client"), None);
    assert_eq!(activity_change("Startup", "client"), None);
}

#[test]
fn startup_then_shutdown_cancel() {
    for t in ["proxy", "client", "server", "launcher", "other"] {
        let (k1, d1) = activity_change("startup", t).unwrap();
        let (k2, d2) = activity_change("shutdown", t).unwrap();
        assert_eq!(k1, k2);
        assert_eq!(d1 + d2, 0);
    }
}

#[test]
fn api_error_names_and_statuses() {
    let dummy = "d".to_string();
    let expected = [
        ("dummy_error", 500u16),
        ("unknown_error", 500),
        ("invalid_input", 400),
        ("not_found", 404),
        ("database_error", 500),
        ("invalid_credentials", 401),
        ("unavailable_username", 400),
        ("disallowed_username", 400),
        ("unhashed_password", 400),
        ("auth_cookie_error", 400),
        ("rate_limited", 429),
        ("custom_auth", 401),
        ("unauthorized", 401),
        ("webhook_error", 400),
        ("gdpr_region", 451),
    ];
    for (e, (name, status)) in all_api_errors(&dummy).iter().zip(expected.iter()) {
        assert_eq!(e.as_api_error().error, *name);
        assert_eq!(e.status_code(), *status);
    }
}

#[test]
fn api_error_names_distinct_and_statuses_are_errors() {
    let dummy = "d".to_string();
    let errors = all_api_errors(&dummy);
    let mut names: Vec<&str> = errors.iter().map(|e| e.error_name()).collect();
    names.sort();
    names.dedup();
    assert_eq!(names.len(), errors.len());
    for e in errors.iter() {
        let s = e.status_code();
        assert!((400..=599).contains(&s));
    }
}

#[test]
fn api_error_messages() {
    let dummy = "d".to_string();
    let expected = [
        "A dummy error to make sure this enum has a lifetime",
        "An unknown error occurred: boom",
        "Error while validating input: bad",
        "Could not find /x with method GET",
        "db down",
        "Invalid Username/Password Combo",
        "This username is taken: bob",
        "This username is disallowed: bob",
        "You sent an unhashed password, bad!",
        "Error with Authentication Cookie",
        "You are being rate-limited. Please wait 1500 milliseconds. 0/60 remaining.",
        "Authentication Error: no",
        "You are unauthorized to access this content.",
        "Webhook Error: hook",
        "This request came from a region with GDPR or GDPR-Adjacent legislation. We're not taking an risks with telemetry in the EU, sorry! :(",
    ];
    for (e, msg) in all_api_errors(&dummy).iter().zip(expected.iter()) {
        assert_eq!(e.as_api_error().description, *msg);
    }
}

#[test]
fn rate_limit_message_renders_extremes() {
    let e = ApiErrors::RateLimitError(0, 0);
    assert_eq!(e.message(), "You are being rate-limited. Please wait 0 milliseconds. 0/0 remaining.");
    let e = ApiErrors::RateLimitError(u128::MAX, u32::MAX);
    assert_eq!(
        e.message(),
        format!("You are being rate-limited. Please wait {} milliseconds. 0/{} remaining.", u128::MAX, u32::MAX)
    );
}

const HOUR: i128 = NANOS_PER_HOUR;
const SEC: i128 = NANOS_PER_SEC;

#[test]
fn cache_fresh_is_expired() {
    let now: i128 = 1_700_000_000 * SEC + 250_000_000;
    let c: Cache<u32> = Cache::new_at(now);
    assert!(c.cache_data.is_none());
    assert_eq!(c.max_age, 3);
    assert_eq!(c.last_updated, now - 4 * HOUR);
    assert!(c.is_expired_at(now));
    assert!(c.is_expired_at(now + 10 * HOUR));
    assert_eq!(c.get_expiration_at(now), 3600);
}

#[test]
fn cache_refresh_window() {
    let now: i128 = 1_700_000_000 * SEC;
    let mut c: Cache<u32> = Cache::new_at(now);
    c.unsafe_update_at(7, now);
    assert_eq!(c.cache_data, Some(7));
    assert_eq!(c.last_updated, now);
    assert!(!c.is_expired_at(now + 3 * HOUR - 1));
    assert!(c.is_expired_at(now + 3 * HOUR));
    assert_eq!(c.get_expiration_at(now), -3 * 3600);
    assert_eq!(c.get_expiration_at(now + 3 * HOUR), 0);
}

#[test]
fn cache_expiration_rounds_toward_zero() {
    let now: i128 = 1_700_000_000 * SEC;
    let mut c: Cache<u32> = Cache::new_at(now);
    c.unsafe_update_at(1, now);
    // Half a second before expiry: not expired, and no whole second left.
    assert!(!c.is_expired_at(now + 3 * HOUR - SEC / 2));
    assert_eq!(c.get_expiration_at(now + 3 * HOUR - SEC / 2), 0);
    // A second and a half before and after.
    assert_eq!(c.get_expiration_at(now + 3 * HOUR - 3 * SEC / 2), -1);
    assert_eq!(c.get_expiration_at(now + 3 * HOUR + 3 * SEC / 2), 1);
    for t in [now, now + SEC, now + 3 * HOUR - SEC, now + 3 * HOUR, now + 3 * HOUR + SEC, now + 100 * HOUR] {
        assert_eq!(c.is_expired_at(t), c.get_expiration_at(t) >= 0);
    }
}

#[test]
fn span_seconds() {
    assert_eq!(seconds_of_span(0), 0);
    assert_eq!(seconds_of_span(999_999_999), 0);
    assert_eq!(seconds_of_span(-999_999_999), 0);
    assert_eq!(seconds_of_span(2_500_000_000), 2);
    assert_eq!(seconds_of_span(-2_500_000_000), -2);
    assert_eq!(seconds_of_span(-3_000_000_000), -3);
}

#[test]
fn cache_update_once_per_window() {
    let now: i128 = 1_700_000_000 * SEC;
    let mut c: Cache<u32> = Cache::new_at(now);
    c.update_at(1, now);
    assert_eq!(c.cache_data, Some(1));
    c.update_at(2, now);
    assert_eq!(c.cache_data, Some(1));
    assert_eq!(c.last_updated, now);
    c.update_at(3, now + 3 * HOUR);
    assert_eq!(c.cache_data, Some(3));
    assert_eq!(c.last_updated, now + 3 * HOUR);
}

#[test]
fn cache_with_clock() {
    let mut c: Cache<u32> = Cache::new();
    assert!(c.is_expired());
    assert!(c.get_expiration() >= 3600);
    c.update(5);
    assert_eq!(c.cache_data, Some(5));
    assert!(!c.is_expired());
    c.update(6);
    assert_eq!(c.cache_data, Some(5));
    c.unsafe_update(8);
    assert_eq!(c.cache_data, Some(8));
}

#[test]
fn multi_cache_overwrites() {
    let now: i128 = 1_700_000_000 * SEC;
    let mut c: MultiCache<u32> = MultiCache::new_at(now);
    assert!(c.cache_data.is_empty());
    assert!(c.is_expired_at(now));
    c.update_at(1, now);
    c.update_at(2, now);
    assert_eq!(c.cache_data, vec![1]);
    c.unsafe_update_at(3, now + SEC);
    assert_eq!(c.cache_data, vec![3]);
    assert_eq!(c.last_updated, now + SEC);
    c.update_at(4, now + SEC + 3 * HOUR);
    assert_eq!(c.cache_data, vec![4]);
    assert_eq!(c.last_updated, now + SEC + 3 * HOUR);
    c.expire_all();
    assert!(c.cache_data.is_empty());
    assert_eq!(c.get_expiration_at(now + SEC + 3 * HOUR), -3 * 3600);
}

#[test]
fn multi_cache_expires_only_when_expired() {
    let now: i128 = 1_700_000_000 * SEC;
    let mut c: MultiCache<u32> = MultiCache::new_at(now);
    c.unsafe_update_at(7, now);
    c.expire_expired_at(now + 3 * HOUR - 1);
    assert_eq!(c.cache_data, vec![7]);
    c.expire_expired_at(now + 3 * HOUR);
    assert!(c.cache_data.is_empty());
    assert_eq!(c.last_updated, now);
    assert_eq!(c.max_age, 3);
}

#[test]
fn multi_cache_with_clock() {
    let mut c: MultiCache<u32> = MultiCache::new();
    assert!(c.is_expired());
    c.update(4);
    c.update(5);
    assert_eq!(c.cache_data, vec![4]);
    c.expire_expired();
    assert_eq!(c.cache_data, vec![4]);
    c.unsafe_update(6);
    assert_eq!(c.cache_data, vec![6]);
    // Dated long ago, so expired now.
    c.unsafe_update_at(8, 1_000 * SEC);
    c.expire_expired();
    assert!(c.cache_data.is_empty());
}

#[test]
fn stats_from_counts() {
    let mut o = OnlineGlobal::new();
    o.launchers = 2;
    let s = Stats::from_counts(10, 20, 30, &o, -5);
    assert_eq!(
        (s.totals.users, s.totals.servers, s.totals.authors, s.totals.projects),
        (10, 20, 0, 30)
    );
    assert_eq!(s.online.launchers, 2);
    assert_eq!(s.online.proxies, 0);
    assert_eq!(s.refresh_in, -5);
}

#[test]
fn stat_cache_first_record_always_stores() {
    let now: i128 = 1_700_000_000 * SEC;
    let o = OnlineGlobal::new();
    let mut sc = StatCache::new_at(now);
    assert!(!sc.done_first_cache);
    sc.stat_cacher.unsafe_update_at(Stats::from_counts(0, 0, 0, &o, 0), now);
    sc.record_at(Stats::from_counts(1, 1, 1, &o, 0), now);
    assert!(sc.done_first_cache);
    assert_eq!(sc.stat_cacher.cache_data.as_ref().unwrap().totals.users, 1);
    sc.record_at(Stats::from_counts(2, 2, 2, &o, 0), now + 10 * SEC);
    assert_eq!(sc.stat_cacher.cache_data.as_ref().unwrap().totals.users, 1);
    sc.record_at(Stats::from_counts(3, 3, 3, &o, 0), now + 3 * HOUR);
    assert_eq!(sc.stat_cacher.cache_data.as_ref().unwrap().totals.users, 3);
    sc.record(Stats::from_counts(4, 4, 4, &o, 0));
    assert!(sc.stat_cacher.cache_data.is_some());
}

#[test]
fn special_dates() {
    assert_eq!(SpecialDates::from_month_day(1, 24), SpecialDates::OneDSixBirthday);
    assert_eq!(SpecialDates::from_month_day(4, 1), SpecialDates::AprilFools);
    assert_eq!(SpecialDates::from_month_day(10, 31), SpecialDates::Halloween);
    assert_eq!(SpecialDates::from_month_day(12, 24), SpecialDates::Christmas);
    assert_eq!(SpecialDates::from_month_day(12, 25), SpecialDates::Christmas);
    assert_eq!(SpecialDates::from_month_day(12, 31), SpecialDates::NewYears);
    assert_eq!(SpecialDates::from_month_day(1, 1), SpecialDates::NewYears);
    assert_eq!(SpecialDates::from_month_day(7, 4), SpecialDates::NotSpecial);
    assert_eq!(SpecialDates::from_month_day(4, 2), SpecialDates::NotSpecial);
}

#[test]
fn index_page_answers() {
    let a = index_answer(SpecialDates::AprilFools, SpecialDates::AprilFools);
    assert_eq!(a.status, 418);
    assert_eq!(a.message, "April Fools :P");
    assert_eq!(a.api_version, "1");
    assert_eq!(a.documentation, DOCS_LINK);
    let b = index_answer(SpecialDates::NotSpecial, SpecialDates::NotSpecial);
    assert_eq!(b.status, 200);
    assert_eq!(b.message, "Welcome traveler!");
    assert_eq!(index_answer(SpecialDates::Halloween, SpecialDates::Halloween).message, "BOO.");
    assert_eq!(index_answer(SpecialDates::Christmas, SpecialDates::Christmas).message, "Merry Christmas...");
    assert_eq!(index_answer(SpecialDates::NewYears, SpecialDates::NewYears).message, "...and a Happy New Year!");
    assert_eq!(
        index_answer(SpecialDates::OneDSixBirthday, SpecialDates::OneDSixBirthday).message,
        "Happy Birthday 1D6!"
    );
    let now = index_get();
    assert!(now.status == 200 || now.status == 418);
    let today = SpecialDates::is_special();
    assert!(matches!(
        today,
        SpecialDates::OneDSixBirthday
            | SpecialDates::AprilFools
            | SpecialDates::Halloween
            | SpecialDates::Christmas
            | SpecialDates::NewYears
            | SpecialDates::NotSpecial
    ));
}

#[test]
fn gdpr_by_first_language() {
    assert!(is_gdpr(Some("de-DE,en;q=0.5")));
    assert!(is_gdpr(Some("fr")));
    assert!(is_gdpr(Some("ca-ES")));
    assert!(!is_gdpr(Some("en-US,de;q=0.5")));
    assert!(!is_gdpr(Some("ja")));
    assert!(!is_gdpr(Some("")));
    assert!(!is_gdpr(Some("EN-US")));
    assert!(!is_gdpr(None));
}

#[test]
fn env_vars_present_or_missing() {
    let with_key: shuttle_runtime::SecretStore =
        serde_json::from_str(r#"{"ANALYTICS_KEY":"abc","OTHER":"x"}"#).unwrap();
    assert_eq!(check_env_vars(&with_key), Ok(()));
    let without_key: shuttle_runtime::SecretStore = serde_json::from_str(r#"{"OTHER":"x"}"#).unwrap();
    assert_eq!(check_env_vars(&without_key), Err(vec!["ANALYTICS_KEY"]));
}

#[test]
fn api_limiter_allows_three_a_second() {
    let limiter = default_ratelimit();
    for left in (0..3u32).rev() {
        match limit_request(&limiter, Some("192.0.2.7")) {
            RateLimitDecision::Forward(h) => {
                assert_eq!(h.limit, 3);
                assert_eq!(h.remaining, left);
                assert_eq!(h.reset, 0);
            },
            other => panic!("expected the request to pass, got {:?}", other),
        }
    }
    match limit_request(&limiter, Some("192.0.2.7")) {
        RateLimitDecision::Reject(_, h) => {
            assert_eq!(h.limit, 3);
            assert_eq!(h.remaining, 0);
        },
        other => panic!("expected a refusal, got {:?}", other),
    }
}

#[test]
fn first_captured_tag_decides() {
    let caps = vec![None, Some("it".to_string()), Some("en".to_string())];
    assert!(first_tag_gdpr(&caps));
    let caps = vec![Some("en".to_string()), Some("de".to_string())];
    assert!(!first_tag_gdpr(&caps));
    assert!(!first_tag_gdpr(&vec![None]));
}

#[test]
fn cache_dates_in_range() {
    let now: i128 = 1_700_000_000 * SEC;
    let mut c: Cache<u32> = Cache::new_at(now);
    assert!(c.dates_in_range());
    c.max_age = i64::MAX;
    assert!(!c.dates_in_range());
    c.max_age = 3;
    c.last_updated = i128::MAX;
    assert!(!c.dates_in_range());
    c.last_updated = 8_210_266_876_799_999_999_999 - 2 * HOUR;
    assert!(!c.dates_in_range());
    c.last_updated = 8_210_266_876_799_999_999_999 - 3 * HOUR;
    assert!(c.dates_in_range());
}

#[test]
fn mod_creation_needs_a_readable_identity() {
    match mod_creator(Some(Ok("alice".to_string()))) {
        Ok(owner) => assert_eq!(owner, "alice"),
        Err(e) => panic!("expected the owner, got {:?}", e),
    }
    assert!(matches!(mod_creator(None), Err(ApiErrors::Unauthorized)));
    assert!(matches!(mod_creator(Some(Err("bad cookie".to_string()))), Err(ApiErrors::Unauthorized)));
}

#[test]
fn only_the_owner_edits_a_mod() {
    assert!(may_edit_mod(Some(Ok("alice".to_string())), "alice").is_ok());
    assert!(matches!(may_edit_mod(Some(Ok("bob".to_string())), "alice"), Err(ApiErrors::Unauthorized)));
    assert!(matches!(may_edit_mod(None, "alice"), Err(ApiErrors::Unauthorized)));
    assert!(matches!(may_edit_mod(Some(Err("bad".to_string())), "alice"), Err(ApiErrors::Unauthorized)));
}

#[test]
fn website_user_agent() {
    assert_eq!(recorded_user_agent(None).unwrap(), "User Agent Not Received");
    assert_eq!(recorded_user_agent(Some(Ok("Mozilla/5.0"))).unwrap(), "Mozilla/5.0");
    match recorded_user_agent(Some(Err("failed to convert header to a str".to_string()))) {
        Err(ApiErrors::UnknownError(m)) => assert_eq!(m, "failed to convert header to a str"),
        other => panic!("expected an unknown error, got {:?}", other.map(|s| s.to_string())),
    }
}

#[test]
fn gdpr_gate_refuses_first_tag_regions() {
    assert!(matches!(gdpr_gate(Some("de-DE,en;q=0.5")), Err(ApiErrors::GDPRRegion)));
    assert!(gdpr_gate(Some("en-US,de;q=0.5")).is_ok());
    assert!(gdpr_gate(None).is_ok());
}

#[test]
fn online_counts_by_kind() {
    let mut o = OnlineGlobal::new();
    o.servers = 7;
    o.unknown = -2;
    assert_eq!(o.count(OnlineKind::Servers), 7);
    assert_eq!(o.count(OnlineKind::Unknown), -2);
    assert_eq!(o.count(OnlineKind::Proxies), 0);
    o.change_count(OnlineKind::Servers, 1);
    assert_eq!(o.count(OnlineKind::Servers), 8);
    assert_eq!(o.count(OnlineKind::Unknown), -2);
    // A startup and a shutdown of the same client type cancel out.
    for reason in ["startup", "shutdown"] {
        let (kind, delta) = activity_change(reason, "launcher").unwrap();
        o.change_count(kind, delta);
        if reason == "startup" {
            assert_eq!(o.launchers, 1);
        }
    }
    assert_eq!((o.proxies, o.clients, o.servers, o.launchers, o.unknown), (0, 0, 8, 0, -2));
}
