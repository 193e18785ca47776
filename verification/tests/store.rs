use chrono::{Duration, Utc};
use usage_segment::cache::{
    cache_age_valid, cache_path_of, is_cache_valid, migrate_legacy, parse_cache_record,
    render_cache_record, resolve_cache_path, settings_path_of, snapshot_of_cache, CacheRecord,
};

fn record(
    five: u64,
    seven: u64,
    five_r: Option<&str>,
    seven_r: Option<&str>,
    legacy: Option<&str>,
    cached_at: &str,
) -> CacheRecord {
    CacheRecord {
        five_hour_utilization: five,
        seven_day_utilization: seven,
        five_hour_resets_at: five_r.map(|s| s.to_owned()),
        seven_day_resets_at: seven_r.map(|s| s.to_owned()),
        legacy_resets_at: legacy.map(|s| s.to_owned()),
        cached_at: cached_at.to_owned(),
    }
}

#[test]
fn freshness_boundary() {
    let now = 1_000_000i64;
    assert!(cache_age_valid(now - 299, now, 300));
    assert!(!cache_age_valid(now - 300, now, 300));
    assert!(cache_age_valid(now, now, 1));
    assert!(!cache_age_valid(now - 1, now, 1));
}

#[test]
fn validity_against_real_clock() {
    let fresh = record(0, 0, None, None, None, &(Utc::now() - Duration::seconds(100)).to_rfc3339());
    assert!(is_cache_valid(&fresh, 300));

    let stale = record(0, 0, None, None, None, &(Utc::now() - Duration::seconds(300)).to_rfc3339());
    assert!(!is_cache_valid(&stale, 300));

    let broken = record(0, 0, None, None, None, "yesterday-ish");
    assert!(!is_cache_valid(&broken, 300));
}

#[test]
fn legacy_only_record_backfills_both_windows() {
    let content = "{\"five_hour_utilization\": 42.0, \"seven_day_utilization\": 10.0, \"resets_at\": \"2025-01-01T00:00:00Z\", \"cached_at\": \"2025-01-01T00:00:00Z\"}";
    let rec = parse_cache_record(content).expect("record should load");
    assert_eq!(rec.five_hour_resets_at.as_deref(), Some("2025-01-01T00:00:00Z"));
    assert_eq!(rec.seven_day_resets_at.as_deref(), Some("2025-01-01T00:00:00Z"));
}

#[test]
fn migration_fills_only_missing_fields() {
    let rec = record(0, 0, Some("A"), None, Some("L"), "t");
    let m = migrate_legacy(rec);
    assert_eq!(m.five_hour_resets_at.as_deref(), Some("A"));
    assert_eq!(m.seven_day_resets_at.as_deref(), Some("L"));

    let rec = record(0, 0, Some("A"), Some("B"), Some("L"), "t");
    let m = migrate_legacy(rec);
    assert_eq!(m.five_hour_resets_at.as_deref(), Some("A"));
    assert_eq!(m.seven_day_resets_at.as_deref(), Some("B"));

    let rec = record(0, 0, None, None, None, "t");
    let m = migrate_legacy(rec);
    assert_eq!(m.five_hour_resets_at, None);
    assert_eq!(m.seven_day_resets_at, None);
}

#[test]
fn parse_full_schema() {
    let content = "{\"five_hour_utilization\": 42.5, \"seven_day_utilization\": 7, \"five_hour_resets_at\": \"F\", \"seven_day_resets_at\": null, \"cached_at\": \"2025-01-01T00:00:00Z\"}";
    let rec = parse_cache_record(content).expect("record should load");
    assert_eq!(rec.five_hour_utilization, 4250);
    assert_eq!(rec.seven_day_utilization, 700);
    assert_eq!(rec.five_hour_resets_at.as_deref(), Some("F"));
    assert_eq!(rec.seven_day_resets_at, None);
    assert_eq!(rec.cached_at, "2025-01-01T00:00:00Z");
}

#[test]
fn parse_rejects_bad_records() {
    assert!(parse_cache_record("").is_none());
    assert!(parse_cache_record("not json").is_none());
    assert!(parse_cache_record("{}").is_none());
    // missing cached_at
    assert!(parse_cache_record(
        "{\"five_hour_utilization\": 1, \"seven_day_utilization\": 2}"
    )
    .is_none());
    // utilization of the wrong shape
    assert!(parse_cache_record(
        "{\"five_hour_utilization\": \"1\", \"seven_day_utilization\": 2, \"cached_at\": \"t\"}"
    )
    .is_none());
    // reset field of the wrong shape
    assert!(parse_cache_record("{\"five_hour_utilization\": 1, \"seven_day_utilization\": 2, \"five_hour_resets_at\": 5, \"cached_at\": \"t\"}")
    .is_none());
}

#[test]
fn rendered_record_text_is_stable() {
    let rec = record(4250, 700, Some("F"), None, None, "2025-01-01T00:00:00Z");
    let text = render_cache_record(&rec);
    let expected = "{\n  \"five_hour_utilization\": 42.5,\n  \"seven_day_utilization\": 7,\n  \"five_hour_resets_at\": \"F\",\n  \"seven_day_resets_at\": null,\n  \"cached_at\": \"2025-01-01T00:00:00Z\"\n}";
    assert_eq!(text, expected);
}

#[test]
fn rendered_record_omits_legacy_field() {
    let rec = record(100, 200, Some("F"), Some("S"), Some("L"), "t");
    let text = render_cache_record(&rec);
    assert!(!text.contains("resets_at\": \"L\""));
    assert!(!text.contains("\"L\""));
}

#[test]
fn record_round_trip_through_real_json() {
    let rec = record(
        4255,
        5,
        Some("with \"quotes\" and \\slashes\\"),
        Some("ctrl\u{1}char\ttab"),
        None,
        "2025-06-30T10:00:00+00:00",
    );
    let text = render_cache_record(&rec);
    let back = parse_cache_record(&text).expect("rendered record should parse");
    assert_eq!(back.five_hour_utilization, 4255);
    assert_eq!(back.seven_day_utilization, 5);
    assert_eq!(back.five_hour_resets_at.as_deref(), Some("with \"quotes\" and \\slashes\\"));
    assert_eq!(back.seven_day_resets_at.as_deref(), Some("ctrl\u{1}char\ttab"));
    assert_eq!(back.cached_at, "2025-06-30T10:00:00+00:00");
}

#[test]
fn snapshot_reads_record_fields() {
    let rec = record(1, 2, Some("F"), None, None, "t");
    let snap = snapshot_of_cache(&rec);
    assert_eq!(snap.five_hour_utilization, 1);
    assert_eq!(snap.seven_day_utilization, 2);
    assert_eq!(snap.five_hour_resets_at.as_deref(), Some("F"));
    assert_eq!(snap.seven_day_resets_at, None);
}

#[test]
fn paths_are_fixed_spots_under_home() {
    if let Some(p) = resolve_cache_path() {
        assert!(p.ends_with("/.ccline/.api_usage_cache.json"));
    }
    assert_eq!(cache_path_of("/home/u"), "/home/u/.ccline/.api_usage_cache.json");
    assert_eq!(settings_path_of("/home/u"), "/home/u/.ccline/settings.json");
}
