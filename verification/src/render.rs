//! The orchestrator's decision and rendering logic: resolving options to
//! their defaults, selecting the snapshot per the fallback order, choosing
//! the reset timestamp, and assembling the segment's output.
//!
//! The caller performs the surrounding I/O — credential lookup, the cache
//! file, the HTTP call — and hands the outcomes in as plain values.
use crate::cache::{
    opt_view, render_cache_record, cache_json_text, is_cache_valid, CacheRecord, UsageSnapshot,
};
use crate::numtext::{
    centi_text, dec_str_of, render_centi, round_percent, spec_round_percent, trunc_percent,
    u64_to_string,
};
use crate::segment::{
    bucket_glyph, eq_ignore_ascii_case, icon_bucket, ResetFormat, ResetPeriod, UsageSegment,
};
use crate::timefmt::{clock_label, duration_text, now_rfc3339, rfc3339_epoch};
use vstd::prelude::*;
use vstd::string::StringExecFns;

verus! {

/// What the segment hands the rendering framework: a primary text (the
/// five-hour percentage), a secondary text (the reset indicator) and
/// key/value metadata.
#[derive(Debug)]
pub struct SegmentData {
    pub primary: String,
    pub secondary: String,
    pub metadata: Vec<(String, String)>,
}

/// One render call's result: the segment data, if any, and the cache file
/// text to persist, if a fresh fetch succeeded.
#[derive(Debug)]
pub struct Outcome {
    pub data: Option<SegmentData>,
    pub cache_write: Option<String>,
}

pub open spec fn period_text(p: ResetPeriod) -> Seq<char> {
    match p {
        ResetPeriod::Session => "session"@,
        ResetPeriod::Weekly => "weekly"@,
    }
}

pub open spec fn format_text(f: ResetFormat) -> Seq<char> {
    match f {
        ResetFormat::Time => "time"@,
        ResetFormat::Duration => "duration"@,
    }
}

/// The reset timestamp the configured period selects, with the other window
/// as fallback when the preferred one is absent.
pub open spec fn chosen_reset(
    period: ResetPeriod,
    fr: Option<Seq<char>>,
    sr: Option<Seq<char>>,
) -> Option<Seq<char>> {
    match period {
        ResetPeriod::Session => if fr is Some {
            fr
        } else {
            sr
        },
        ResetPeriod::Weekly => if sr is Some {
            sr
        } else {
            fr
        },
    }
}

/// Selects the reset timestamp, matching `chosen_reset`.
pub fn select_reset<'a>(period: ResetPeriod, fr: &'a Option<String>, sr: &'a Option<String>) -> (r:
    Option<&'a String>)
    ensures
        (match r {
            Some(s) => Some(s@),
            None => None::<Seq<char>>,
        }) == chosen_reset(period, opt_view(*fr), opt_view(*sr)),
{
    match period {
        ResetPeriod::Session => match fr {
            Some(s) => Some(s),
            None => sr.as_ref(),
        },
        ResetPeriod::Weekly => match sr {
            Some(s) => Some(s),
            None => fr.as_ref(),
        },
    }
}

/// What the reset text can be: the placeholder exactly when the chosen
/// timestamp is absent or unreadable, else a countdown or clock label for
/// some reading of the clock in the configured style.
pub open spec fn plausible_reset_text(
    format: ResetFormat,
    chosen: Option<Seq<char>>,
    txt: Seq<char>,
) -> bool {
    match chosen {
        None => txt == "?"@,
        Some(ts) => match rfc3339_epoch(ts) {
            None => txt == "?"@,
            Some(e) => match format {
                ResetFormat::Duration => exists|now: int| txt == #[trigger] duration_text(e - now),
                ResetFormat::Time => exists|m: int, dd: int, h: int|
                    1 <= m <= 12 && 1 <= dd <= 31 && 0 <= h <= 23 && txt == #[trigger] clock_label(
                        m,
                        dd,
                        h,
                    ),
            },
        },
    }
}

fn reset_text_for(format: ResetFormat, chosen: Option<&String>) -> (r: String)
    ensures
        plausible_reset_text(
            format,
            match chosen {
                Some(s) => Some(s@),
                None => None::<Seq<char>>,
            },
            r@,
        ),
{
    let arg: Option<&str> = match chosen {
        Some(s) => Some(s.as_str()),
        None => None,
    };
    match format {
        ResetFormat::Duration => UsageSegment::format_reset_duration(arg),
        ResetFormat::Time => UsageSegment::format_reset_time(arg),
    }
}

/// The metadata pairs, in order: the icon bucketed from the truncated
/// seven-day percentage, both utilizations as text, the resolved period and
/// format names, and — only for configured text that failed to parse — the
/// rejected raw text under a distinct key.
pub open spec fn spec_metadata(
    five: int,
    seven: int,
    period: ResetPeriod,
    format: ResetFormat,
    ip: Option<Seq<char>>,
    ifm: Option<Seq<char>>,
) -> Seq<(Seq<char>, Seq<char>)> {
    let base = seq![
        ("dynamic_icon"@, bucket_glyph(icon_bucket(seven / 100))),
        ("five_hour_utilization"@, centi_text(five)),
        ("seven_day_utilization"@, centi_text(seven)),
        ("reset_period"@, period_text(period)),
        ("reset_format"@, format_text(format)),
    ];
    let with_p = match ip {
        Some(t) => base.push(("invalid_reset_period"@, t)),
        None => base,
    };
    match ifm {
        Some(t) => with_p.push(("invalid_reset_format"@, t)),
        None => with_p,
    }
}

/// The metadata as text pairs.
pub open spec fn meta_view(m: Seq<(String, String)>) -> Seq<(Seq<char>, Seq<char>)> {
    Seq::new(m.len(), |i: int| (m[i].0@, m[i].1@))
}

/// The full output contract of one render: the primary text is the rounded
/// five-hour percentage, the secondary a fixed separator plus a plausible
/// reset text for the chosen timestamp, and the metadata is exact.
pub open spec fn rendered(
    d: SegmentData,
    five: int,
    seven: int,
    fr: Option<Seq<char>>,
    sr: Option<Seq<char>>,
    period: ResetPeriod,
    format: ResetFormat,
    ip: Option<Seq<char>>,
    ifm: Option<Seq<char>>,
) -> bool {
    &&& d.primary@ == dec_str_of(spec_round_percent(five) as nat) + "%"@
    &&& exists|txt: Seq<char>|
        d.secondary@ == #[trigger] ("\u{c2}\u{b7} "@ + txt) && plausible_reset_text(
            format,
            chosen_reset(period, fr, sr),
            txt,
        )
    &&& meta_view(d.metadata@) == spec_metadata(five, seven, period, format, ip, ifm)
}

/// Renders a snapshot into segment output, matching `rendered`.
pub fn render_segment(
    snap: &UsageSnapshot,
    period: ResetPeriod,
    format: ResetFormat,
    invalid_period: &Option<String>,
    invalid_format: &Option<String>,
) -> (r: SegmentData)
    ensures
        rendered(
            r,
            snap.five_hour_utilization as int,
            snap.seven_day_utilization as int,
            opt_view(snap.five_hour_resets_at),
            opt_view(snap.seven_day_resets_at),
            period,
            format,
            opt_view(*invalid_period),
            opt_view(*invalid_format),
        ),
{
    let mut primary = u64_to_string(round_percent(snap.five_hour_utilization) as u64);
    primary.append("%");
    let chosen = select_reset(period, &snap.five_hour_resets_at, &snap.seven_day_resets_at);
    let txt = reset_text_for(format, chosen);
    let mut secondary = "\u{c2}\u{b7} ".to_owned();
    secondary.append(txt.as_str());
    proof {
        assert(exists|t: Seq<char>|
            secondary@ == #[trigger] ("\u{c2}\u{b7} "@ + t) && plausible_reset_text(
                format,
                chosen_reset(
                    period,
                    opt_view(snap.five_hour_resets_at),
                    opt_view(snap.seven_day_resets_at),
                ),
                t,
            )) by {
            assert(secondary@ == "\u{c2}\u{b7} "@ + txt@);
        }
    }
    let mut metadata: Vec<(String, String)> = Vec::new();
    metadata.push(
        (
            "dynamic_icon".to_owned(),
            UsageSegment::get_circle_icon(trunc_percent(snap.seven_day_utilization)),
        ),
    );
    metadata.push(("five_hour_utilization".to_owned(), render_centi(snap.five_hour_utilization)));
    metadata.push(("seven_day_utilization".to_owned(), render_centi(snap.seven_day_utilization)));
    metadata.push(("reset_period".to_owned(), period.as_str().to_owned()));
    metadata.push(("reset_format".to_owned(), format.as_str().to_owned()));
    match invalid_period {
        Some(t) => {
            metadata.push(("invalid_reset_period".to_owned(), t.clone()));
        },
        None => {},
    }
    match invalid_format {
        Some(t) => {
            metadata.push(("invalid_reset_format".to_owned(), t.clone()));
        },
        None => {},
    }
    proof {
        assert(meta_view(metadata@) =~~= spec_metadata(
            snap.five_hour_utilization as int,
            snap.seven_day_utilization as int,
            period,
            format,
            opt_view(*invalid_period),
            opt_view(*invalid_format),
        ));
    }
    SegmentData { primary, secondary, metadata }
}

/// The per-segment configuration options, each absent where unconfigured.
pub struct SegmentOptions {
    pub api_base_url: Option<String>,
    pub cache_duration: Option<u64>,
    pub timeout: Option<u64>,
    pub reset_period: Option<String>,
    pub reset_format: Option<String>,
}

/// The options after defaulting, with any rejected enum text kept aside.
pub struct ResolvedOptions {
    pub api_base_url: String,
    pub cache_duration: u64,
    pub timeout: u64,
    pub reset_period: ResetPeriod,
    pub reset_format: ResetFormat,
    pub invalid_reset_period: Option<String>,
    pub invalid_reset_format: Option<String>,
}

/// Applies the documented defaults, parses the enum options ignoring case,
/// and keeps rejected text aside rather than dropping it.
pub fn resolve_options(opts: SegmentOptions) -> (r: ResolvedOptions)
    ensures
        r.api_base_url@ == (match opts.api_base_url {
            Some(u) => u@,
            None => "https://api.anthropic.com"@,
        }),
        r.cache_duration == (match opts.cache_duration {
            Some(d) => d,
            None => 300u64,
        }),
        r.timeout == (match opts.timeout {
            Some(t) => t,
            None => 2u64,
        }),
        opts.reset_period is None ==> r.reset_period == ResetPeriod::Session
            && r.invalid_reset_period is None,
        opts.reset_period matches Some(t) ==> {
            &&& eq_ignore_ascii_case(t@, "session"@) ==> r.reset_period == ResetPeriod::Session
                && r.invalid_reset_period is None
            &&& !eq_ignore_ascii_case(t@, "session"@) && eq_ignore_ascii_case(t@, "weekly"@)
                ==> r.reset_period == ResetPeriod::Weekly && r.invalid_reset_period is None
            &&& !eq_ignore_ascii_case(t@, "session"@) && !eq_ignore_ascii_case(t@, "weekly"@)
                ==> r.reset_period == ResetPeriod::Session && opt_view(r.invalid_reset_period)
                == Some(t@)
        },
        opts.reset_format is None ==> r.reset_format == ResetFormat::Time
            && r.invalid_reset_format is None,
        opts.reset_format matches Some(t) ==> {
            &&& eq_ignore_ascii_case(t@, "time"@) ==> r.reset_format == ResetFormat::Time
                && r.invalid_reset_format is None
            &&& !eq_ignore_ascii_case(t@, "time"@) && eq_ignore_ascii_case(t@, "duration"@)
                ==> r.reset_format == ResetFormat::Duration && r.invalid_reset_format is None
            &&& !eq_ignore_ascii_case(t@, "time"@) && !eq_ignore_ascii_case(t@, "duration"@)
                ==> r.reset_format == ResetFormat::Time && opt_view(r.invalid_reset_format) == Some(
                t@,
            )
        },
{
    let api_base_url = match opts.api_base_url {
        Some(u) => u,
        None => "https://api.anthropic.com".to_owned(),
    };
    let cache_duration = match opts.cache_duration {
        Some(d) => d,
        None => 300,
    };
    let timeout = match opts.timeout {
        Some(t) => t,
        None => 2,
    };
    let (reset_period, invalid_reset_period) = match opts.reset_period {
        None => (ResetPeriod::Session, None),
        Some(t) => match ResetPeriod::try_from(t.as_str()) {
            Ok(p) => (p, None),
            Err(_) => (ResetPeriod::Session, Some(t)),
        },
    };
    let (reset_format, invalid_reset_format) = match opts.reset_format {
        None => (ResetFormat::Time, None),
        Some(t) => match ResetFormat::try_from(t.as_str()) {
            Ok(f) => (f, None),
            Err(_) => (ResetFormat::Time, Some(t)),
        },
    };
    ResolvedOptions {
        api_base_url,
        cache_duration,
        timeout,
        reset_period,
        reset_format,
        invalid_reset_period,
        invalid_reset_format,
    }
}

/// Whether the loaded cache may be used without a fetch: no record or an
/// unreadable fetch instant never counts; a readable one is the freshness
/// comparison against some reading of the clock.
pub fn cache_is_fresh(cached: &Option<CacheRecord>, cache_duration: u64) -> (r: bool)
    ensures
        cached is None ==> !r,
        cached matches Some(c) ==> (rfc3339_epoch(c.cached_at@) is None ==> !r),
        cached matches Some(c) ==> (rfc3339_epoch(c.cached_at@) matches Some(e) ==> exists|
            now: int,
        |
            r == #[trigger] crate::cache::age_valid(e, now, cache_duration as int)),
{
    match cached {
        None => false,
        Some(c) => is_cache_valid(c, cache_duration),
    }
}

/// The fallback order of one render, over the outcomes the caller collected:
/// a fresh cache is used as it stands; else a successful fetch is used and
/// queued for writing back; else any stale cache is used; else there is no
/// output, and nothing is written.
pub fn conclude(
    cached: Option<CacheRecord>,
    use_cached: bool,
    fetched: Option<UsageSnapshot>,
    period: ResetPeriod,
    format: ResetFormat,
    invalid_period: Option<String>,
    invalid_format: Option<String>,
) -> (r: Outcome)
    ensures
        use_cached && cached is Some ==> r.cache_write is None && (r.data matches Some(d)
            && rendered(
            d,
            cached->Some_0.five_hour_utilization as int,
            cached->Some_0.seven_day_utilization as int,
            opt_view(cached->Some_0.five_hour_resets_at),
            opt_view(cached->Some_0.seven_day_resets_at),
            period,
            format,
            opt_view(invalid_period),
            opt_view(invalid_format),
        )),
        !(use_cached && cached is Some) && fetched is Some ==> (r.data matches Some(d) && rendered(
            d,
            fetched->Some_0.five_hour_utilization as int,
            fetched->Some_0.seven_day_utilization as int,
            opt_view(fetched->Some_0.five_hour_resets_at),
            opt_view(fetched->Some_0.seven_day_resets_at),
            period,
            format,
            opt_view(invalid_period),
            opt_view(invalid_format),
        )) && (r.cache_write matches Some(w) && exists|at: Seq<char>|
            rfc3339_epoch(at) is Some && w@ == #[trigger] cache_json_text(
                fetched->Some_0.five_hour_utilization as int,
                fetched->Some_0.seven_day_utilization as int,
                opt_view(fetched->Some_0.five_hour_resets_at),
                opt_view(fetched->Some_0.seven_day_resets_at),
                at,
            )),
        !(use_cached && cached is Some) && fetched is None && cached is Some ==> r.cache_write
            is None && (r.data matches Some(d) && rendered(
            d,
            cached->Some_0.five_hour_utilization as int,
            cached->Some_0.seven_day_utilization as int,
            opt_view(cached->Some_0.five_hour_resets_at),
            opt_view(cached->Some_0.seven_day_resets_at),
            period,
            format,
            opt_view(invalid_period),
            opt_view(invalid_format),
        )),
        r.data is None <==> cached is None && fetched is None,
        r.cache_write is Some <==> !(use_cached && cached is Some) && fetched is Some,
{
    if use_cached {
        match &cached {
            Some(c) => {
                let snap = crate::cache::snapshot_of_cache(c);
                let d = render_segment(&snap, period, format, &invalid_period, &invalid_format);
                return Outcome { data: Some(d), cache_write: None };
            },
            None => {},
        }
    }
    match fetched {
        Some(snap) => {
            let d = render_segment(&snap, period, format, &invalid_period, &invalid_format);
            let at = now_rfc3339();
            let ghost gat = at@;
            let rec = CacheRecord {
                five_hour_utilization: snap.five_hour_utilization,
                seven_day_utilization: snap.seven_day_utilization,
                five_hour_resets_at: snap.five_hour_resets_at,
                seven_day_resets_at: snap.seven_day_resets_at,
                legacy_resets_at: None,
                cached_at: at,
            };
            let w = render_cache_record(&rec);
            proof {
                assert(exists|a: Seq<char>|
                    rfc3339_epoch(a) is Some && w@ == #[trigger] cache_json_text(
                        rec.five_hour_utilization as int,
                        rec.seven_day_utilization as int,
                        opt_view(rec.five_hour_resets_at),
                        opt_view(rec.seven_day_resets_at),
                        a,
                    )) by {
                    assert(rfc3339_epoch(gat) is Some && w@ == cache_json_text(
                        rec.five_hour_utilization as int,
                        rec.seven_day_utilization as int,
                        opt_view(rec.five_hour_resets_at),
                        opt_view(rec.seven_day_resets_at),
                        gat,
                    ));
                }
            }
            Outcome { data: Some(d), cache_write: Some(w) }
        },
        None => {
            match cached {
                Some(c) => {
                    let snap = crate::cache::snapshot_of_cache(&c);
                    let d = render_segment(&snap, period, format, &invalid_period, &invalid_format);
                    Outcome { data: Some(d), cache_write: None }
                },
                None => Outcome { data: None, cache_write: None },
            }
        },
    }
}

} // verus!
