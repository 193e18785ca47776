use usage_segment::cache::{parse_cache_record, CacheRecord, UsageSnapshot};
use usage_segment::client::{
    accept_response, build_usage_request, choose_proxy, parse_usage_response,
    proxy_from_settings_text, user_agent_of,
};
use usage_segment::render::{
    cache_is_fresh, conclude, render_segment, resolve_options, select_reset, SegmentOptions,
};
use usage_segment::segment::{ResetFormat, ResetPeriod, UsageSegment};

fn snapshot(five: u64, seven: u64, five_r: Option<&str>, seven_r: Option<&str>) -> UsageSnapshot {
    UsageSnapshot {
        five_hour_utilization: five,
        seven_day_utilization: seven,
        five_hour_resets_at: five_r.map(|s| s.to_owned()),
        seven_day_resets_at: seven_r.map(|s| s.to_owned()),
    }
}

fn meta<'a>(d: &'a usage_segment::render::SegmentData, key: &str) -> Option<&'a str> {
    d.metadata
        .iter()
        .find(|(k, _)| k == key)
        .map(|(_, v)| v.as_str())
}

#[test]
fn segment_identity() {
    let seg = UsageSegment::new();
    assert_eq!(seg.id(), "usage");
}

#[test]
fn user_agent_variants() {
    assert_eq!(user_agent_of(None), "ccline");
    assert_eq!(user_agent_of(Some("")), "ccline");
    assert_eq!(user_agent_of(Some("1.2.3")), "ccline/1.2.3");
}

#[test]
fn request_assembly() {
    let req = build_usage_request(
        "https://api.anthropic.com",
        "tok-123",
        user_agent_of(Some("9.9")),
        Some("http://proxy:8080".to_owned()),
    );
    assert_eq!(req.url, "https://api.anthropic.com/api/oauth/usage");
    assert_eq!(req.authorization, "Bearer tok-123");
    assert_eq!(req.beta_header, "oauth-2025-04-20");
    assert_eq!(req.user_agent, "ccline/9.9");
    assert_eq!(req.proxy.as_deref(), Some("http://proxy:8080"));
}

#[test]
fn proxy_preference() {
    assert_eq!(
        choose_proxy(Some("https-p".to_owned()), Some("http-p".to_owned())).as_deref(),
        Some("https-p")
    );
    assert_eq!(choose_proxy(None, Some("http-p".to_owned())).as_deref(), Some("http-p"));
    assert_eq!(choose_proxy(None, None), None);
}

#[test]
fn proxy_from_settings() {
    let both = "{\"env\": {\"HTTPS_PROXY\": \"https-p\", \"HTTP_PROXY\": \"http-p\"}}";
    assert_eq!(proxy_from_settings_text(Some(both)).as_deref(), Some("https-p"));

    let only_http = "{\"env\": {\"HTTP_PROXY\": \"http-p\"}}";
    assert_eq!(proxy_from_settings_text(Some(only_http)).as_deref(), Some("http-p"));

    assert_eq!(proxy_from_settings_text(Some("{}")), None);
    assert_eq!(proxy_from_settings_text(Some("not json")), None);
    assert_eq!(proxy_from_settings_text(None), None);
}

#[test]
fn response_parsing() {
    let body = "{\"five_hour\": {\"utilization\": 42.0, \"resets_at\": \"F\"}, \"seven_day\": {\"utilization\": 10.0}}";
    let snap = parse_usage_response(body).expect("body should parse");
    assert_eq!(snap.five_hour_utilization, 4200);
    assert_eq!(snap.seven_day_utilization, 1000);
    assert_eq!(snap.five_hour_resets_at.as_deref(), Some("F"));
    assert_eq!(snap.seven_day_resets_at, None);

    assert!(parse_usage_response("{\"five_hour\": {\"utilization\": 1.0}}").is_none());
    assert!(parse_usage_response("[]").is_none());
    assert!(parse_usage_response("").is_none());
}

#[test]
fn only_http_200_is_accepted() {
    let body = "{\"five_hour\": {\"utilization\": 42.0}, \"seven_day\": {\"utilization\": 10.0}}";
    assert!(accept_response(200, body).is_some());
    assert!(accept_response(401, body).is_none());
    assert!(accept_response(500, body).is_none());
    assert!(accept_response(200, "oops").is_none());
}

#[test]
fn option_defaults() {
    let r = resolve_options(SegmentOptions {
        api_base_url: None,
        cache_duration: None,
        timeout: None,
        reset_period: None,
        reset_format: None,
    });
    assert_eq!(r.api_base_url, "https://api.anthropic.com");
    assert_eq!(r.cache_duration, 300);
    assert_eq!(r.timeout, 2);
    assert!(matches!(r.reset_period, ResetPeriod::Session));
    assert!(matches!(r.reset_format, ResetFormat::Time));
    assert_eq!(r.invalid_reset_period, None);
    assert_eq!(r.invalid_reset_format, None);
}

#[test]
fn invalid_option_text_is_kept_aside() {
    let r = resolve_options(SegmentOptions {
        api_base_url: Some("http://localhost:1".to_owned()),
        cache_duration: Some(60),
        timeout: Some(5),
        reset_period: Some("monthly".to_owned()),
        reset_format: Some("DURATION".to_owned()),
    });
    assert_eq!(r.api_base_url, "http://localhost:1");
    assert_eq!(r.cache_duration, 60);
    assert_eq!(r.timeout, 5);
    assert!(matches!(r.reset_period, ResetPeriod::Session));
    assert_eq!(r.invalid_reset_period.as_deref(), Some("monthly"));
    assert!(matches!(r.reset_format, ResetFormat::Duration));
    assert_eq!(r.invalid_reset_format, None);
}

#[test]
fn reset_selection_prefers_configured_window() {
    let f = Some("F".to_owned());
    let s = Some("S".to_owned());
    let none: Option<String> = None;
    assert_eq!(select_reset(ResetPeriod::Session, &f, &s).map(|x| x.as_str()), Some("F"));
    assert_eq!(select_reset(ResetPeriod::Session, &none, &s).map(|x| x.as_str()), Some("S"));
    assert_eq!(select_reset(ResetPeriod::Weekly, &f, &s).map(|x| x.as_str()), Some("S"));
    assert_eq!(select_reset(ResetPeriod::Weekly, &f, &none).map(|x| x.as_str()), Some("F"));
    assert_eq!(select_reset(ResetPeriod::Weekly, &none, &none), None);
}

#[test]
fn rendered_segment_output() {
    let snap = snapshot(4200, 1000, None, None);
    let d = render_segment(&snap, ResetPeriod::Session, ResetFormat::Time, &None, &None);
    assert_eq!(d.primary, "42%");
    assert_eq!(d.secondary, "\u{c2}\u{b7} ?");
    assert_eq!(meta(&d, "dynamic_icon"), Some("\u{f0a9e}"));
    assert_eq!(meta(&d, "five_hour_utilization"), Some("42"));
    assert_eq!(meta(&d, "seven_day_utilization"), Some("10"));
    assert_eq!(meta(&d, "reset_period"), Some("session"));
    assert_eq!(meta(&d, "reset_format"), Some("time"));
    assert_eq!(meta(&d, "invalid_reset_period"), None);
    assert_eq!(meta(&d, "invalid_reset_format"), None);
    assert_eq!(d.metadata.len(), 5);
}

#[test]
fn rendered_segment_reports_invalid_configuration() {
    let snap = snapshot(9999, 8800, None, None);
    let d = render_segment(
        &snap,
        ResetPeriod::Session,
        ResetFormat::Duration,
        &Some("monthly".to_owned()),
        &Some("clock".to_owned()),
    );
    // 99.99 rounds to 100; 88 truncated lands in the top bucket
    assert_eq!(d.primary, "100%");
    assert_eq!(meta(&d, "dynamic_icon"), Some("\u{f0aa5}"));
    assert_eq!(meta(&d, "five_hour_utilization"), Some("99.99"));
    assert_eq!(meta(&d, "invalid_reset_period"), Some("monthly"));
    assert_eq!(meta(&d, "invalid_reset_format"), Some("clock"));
    assert_eq!(d.metadata.len(), 7);
}

fn cached_record() -> CacheRecord {
    CacheRecord {
        five_hour_utilization: 1200,
        seven_day_utilization: 3400,
        five_hour_resets_at: Some("2025-01-01T00:00:00Z".to_owned()),
        seven_day_resets_at: None,
        legacy_resets_at: None,
        cached_at: "2025-01-01T00:00:00Z".to_owned(),
    }
}

#[test]
fn fresh_cache_is_used_verbatim_and_nothing_is_written() {
    let out = conclude(
        Some(cached_record()),
        true,
        None,
        ResetPeriod::Session,
        ResetFormat::Time,
        None,
        None,
    );
    let d = out.data.expect("cache should render");
    assert_eq!(d.primary, "12%");
    assert!(out.cache_write.is_none());
}

#[test]
fn successful_fetch_renders_and_writes_back() {
    let out = conclude(
        None,
        false,
        Some(snapshot(4200, 1000, Some("F"), None)),
        ResetPeriod::Session,
        ResetFormat::Time,
        None,
        None,
    );
    let d = out.data.expect("fetch should render");
    assert_eq!(d.primary, "42%");
    let text = out.cache_write.expect("fetch should be persisted");
    let back = parse_cache_record(&text).expect("persisted record should load");
    assert_eq!(back.five_hour_utilization, 4200);
    assert_eq!(back.seven_day_utilization, 1000);
    assert_eq!(back.five_hour_resets_at.as_deref(), Some("F"));
    assert_eq!(back.seven_day_resets_at, None);
    assert!(usage_segment::cache::is_cache_valid(&back, 300));
}

#[test]
fn failed_fetch_falls_back_to_stale_cache() {
    let out = conclude(
        Some(cached_record()),
        false,
        None,
        ResetPeriod::Weekly,
        ResetFormat::Time,
        None,
        None,
    );
    let d = out.data.expect("stale cache should still render");
    assert_eq!(d.primary, "12%");
    assert!(out.cache_write.is_none());
}

#[test]
fn nothing_available_renders_nothing_and_writes_nothing() {
    let out = conclude(
        None,
        false,
        None,
        ResetPeriod::Session,
        ResetFormat::Time,
        None,
        None,
    );
    assert!(out.data.is_none());
    assert!(out.cache_write.is_none());
}

#[test]
fn freshness_gate_needs_a_record() {
    assert!(!cache_is_fresh(&None, 300));
    let broken = CacheRecord {
        cached_at: "nonsense".to_owned(),
        ..cached_record()
    };
    assert!(!cache_is_fresh(&Some(broken), 300));
}
