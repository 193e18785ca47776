//! Reset-time rendering: a countdown ("1h 30m") or a compact local clock
//! label ("10-21-17"), both derived from an RFC 3339 timestamp.
//!
//! Instant arithmetic, time-zone conversion and the current time come from
//! the `chrono` crate through the trusted items below; everything done with
//! the plain values they return is verified.
use crate::numtext::dec_str_of;
use chrono::{Datelike, Timelike};
use vstd::prelude::*;
use vstd::string::StringExecFns;

verus! {

/// Seconds since the Unix epoch of the instant a timestamp text denotes,
/// `None` where the text is rejected. The name stands for exactly what
/// `chrono::DateTime::parse_from_rfc3339` accepts — all valid RFC 3339
/// instants, plus a few lenient forms such as a space for the `T` — and what
/// its `timestamp` then reports; a function of the text alone.
pub uninterp spec fn rfc3339_epoch(s: Seq<char>) -> Option<int>;

/// Relies on `chrono::DateTime::parse_from_rfc3339` and
/// `DateTime::timestamp` (seconds since the epoch), which define
/// `rfc3339_epoch`.
#[verifier::external_body]
pub fn rfc3339_to_epoch(s: &str) -> (r: Option<i64>)
    ensures
        r is Some <==> rfc3339_epoch(s@) is Some,
        r matches Some(e) ==> rfc3339_epoch(s@) == Some(e as int),
{
    chrono::DateTime::parse_from_rfc3339(s).ok().map(|dt| dt.timestamp())
}

/// Month, day, hour and minute of the instant on the local wall clock.
/// Relies on `chrono::DateTime::parse_from_rfc3339`, `with_timezone` with
/// `chrono::Local`, and the `Datelike`/`Timelike` accessors, whose documented
/// ranges the contract repeats; the fields themselves depend on the machine's
/// time zone, so nothing more is promised of them.
#[verifier::external_body]
fn local_clock_fields(s: &str) -> (r: Option<(u32, u32, u32, u32)>)
    ensures
        r is Some <==> rfc3339_epoch(s@) is Some,
        r matches Some(f) ==> 1 <= f.0 <= 12 && 1 <= f.1 <= 31 && f.2 <= 23 && f.3 <= 59,
{
    let dt = chrono::DateTime::parse_from_rfc3339(s).ok()?;
    let local = dt.with_timezone(&chrono::Local);
    Some((local.month(), local.day(), local.hour(), local.minute()))
}

/// Month, day and hour of the instant one hour later, on the local wall
/// clock. Relies on the same `chrono` items as `local_clock_fields` plus
/// `DateTime::checked_add_signed` and `TimeDelta::hours`; `None` also covers
/// the far-end overflow of that addition.
#[verifier::external_body]
fn local_clock_fields_plus_hour(s: &str) -> (r: Option<(u32, u32, u32)>)
    ensures
        r is Some ==> rfc3339_epoch(s@) is Some,
        r matches Some(f) ==> 1 <= f.0 <= 12 && 1 <= f.1 <= 31 && f.2 <= 23,
{
    let dt = chrono::DateTime::parse_from_rfc3339(s).ok()?;
    let later = dt.checked_add_signed(chrono::TimeDelta::hours(1))?;
    let local = later.with_timezone(&chrono::Local);
    Some((local.month(), local.day(), local.hour()))
}

/// Relies on `chrono::Utc::now` and `DateTime::timestamp`: the current time,
/// of which nothing can be promised. `Utc::now` itself panics on a system
/// clock set before the Unix epoch — an environmental condition no
/// `requires` can exclude.
#[verifier::external_body]
pub fn now_epoch_seconds() -> i64 {
    chrono::Utc::now().timestamp()
}

/// Relies on `chrono::Utc::now` and `DateTime::to_rfc3339`, whose output is
/// an RFC 3339 instant and so parses back. The same pre-epoch clock caveat
/// as `now_epoch_seconds` applies.
#[verifier::external_body]
pub fn now_rfc3339() -> (r: String)
    ensures
        rfc3339_epoch(r@) is Some,
{
    chrono::Utc::now().to_rfc3339()
}

/// The countdown text for `rem` seconds remaining: "now" under a minute,
/// else the two largest applicable units among days, hours and minutes.
pub open spec fn duration_text(rem: int) -> Seq<char> {
    if rem < 60 {
        "now"@
    } else {
        let tm = rem / 60;
        let days = tm / 1440;
        let hours = (tm % 1440) / 60;
        let mins = tm % 60;
        if days > 0 {
            dec_str_of(days as nat) + "d "@ + dec_str_of(hours as nat) + "h"@
        } else if hours > 0 {
            dec_str_of(hours as nat) + "h "@ + dec_str_of(mins as nat) + "m"@
        } else {
            dec_str_of(mins as nat) + "m"@
        }
    }
}

/// Renders the time remaining until `reset_epoch`, seen from `now_epoch`,
/// matching `duration_text`.
pub fn format_duration_from(reset_epoch: i64, now_epoch: i64) -> (r: String)
    ensures
        r@ == duration_text(reset_epoch - now_epoch),
{
    let rem128: i128 = reset_epoch as i128 - now_epoch as i128;
    if rem128 < 60 {
        proof {
            reveal_strlit("now");
        }
        "now".to_owned()
    } else {
        let rem: u64 = rem128 as u64;
        proof {
            assert(rem == reset_epoch - now_epoch);
        }
        let tm = rem / 60;
        let days = tm / 1440;
        let hours = (tm % 1440) / 60;
        let mins = tm % 60;
        if days > 0 {
            let mut s = crate::numtext::u64_to_string(days);
            s.append("d ");
            let h = crate::numtext::u64_to_string(hours);
            s.append(h.as_str());
            s.append("h");
            proof {
                assert(s@ =~= duration_text(reset_epoch - now_epoch));
            }
            s
        } else if hours > 0 {
            let mut s = crate::numtext::u64_to_string(hours);
            s.append("h ");
            let m = crate::numtext::u64_to_string(mins);
            s.append(m.as_str());
            s.append("m");
            proof {
                assert(s@ =~= duration_text(reset_epoch - now_epoch));
            }
            s
        } else {
            let mut s = crate::numtext::u64_to_string(mins);
            s.append("m");
            proof {
                assert(s@ =~= duration_text(reset_epoch - now_epoch));
            }
            s
        }
    }
}

/// A clock label `month-day-hour`, all in decimal without leading zeroes.
pub open spec fn clock_label(month: int, day: int, hour: int) -> Seq<char> {
    dec_str_of(month as nat) + "-"@ + dec_str_of(day as nat) + "-"@ + dec_str_of(hour as nat)
}

fn render_clock_label(month: u32, day: u32, hour: u32) -> (r: String)
    ensures
        r@ == clock_label(month as int, day as int, hour as int),
{
    let mut s = crate::numtext::u64_to_string(month as u64);
    s.append("-");
    let d = crate::numtext::u64_to_string(day as u64);
    s.append(d.as_str());
    s.append("-");
    let h = crate::numtext::u64_to_string(hour as u64);
    s.append(h.as_str());
    proof {
        assert(s@ =~= clock_label(month as int, day as int, hour as int));
    }
    s
}

/// The displayed clock label: past 45 minutes into the hour the label rounds
/// up to the fields of the next hour, else it shows the hour as it stands.
pub open spec fn spec_clock_choice(
    minute: int,
    month: int,
    day: int,
    hour: int,
    month2: int,
    day2: int,
    hour2: int,
) -> Seq<char> {
    if minute > 45 {
        clock_label(month2, day2, hour2)
    } else {
        clock_label(month, day, hour)
    }
}

/// Picks and renders the clock label from the local fields of the reset
/// instant (`month`..`minute`) and of the instant an hour later (`month2`..).
pub fn clock_label_from_fields(
    month: u32,
    day: u32,
    hour: u32,
    minute: u32,
    month2: u32,
    day2: u32,
    hour2: u32,
) -> (r: String)
    ensures
        r@ == spec_clock_choice(
            minute as int,
            month as int,
            day as int,
            hour as int,
            month2 as int,
            day2 as int,
            hour2 as int,
        ),
{
    if minute > 45 {
        render_clock_label(month2, day2, hour2)
    } else {
        render_clock_label(month, day, hour)
    }
}

/// The placeholder shown when a reset timestamp is absent or unreadable.
pub fn unknown_marker() -> (r: String)
    ensures
        r@ == "?"@,
{
    "?".to_owned()
}

/// Renders a reset timestamp as a countdown from the current time.
/// Absent or unparsable input yields `"?"`; otherwise the text is the
/// countdown for some reading of the clock.
pub fn format_reset_duration_text(reset_time_str: Option<&str>) -> (r: String)
    ensures
        reset_time_str is None ==> r@ == "?"@,
        reset_time_str matches Some(s) ==> (rfc3339_epoch(s@) is None ==> r@ == "?"@),
        reset_time_str matches Some(s) ==> (rfc3339_epoch(s@) matches Some(e) ==> exists|now: int|
            r@ == #[trigger] duration_text(e - now)),
{
    match reset_time_str {
        None => unknown_marker(),
        Some(ts) => {
            match rfc3339_to_epoch(ts) {
                None => unknown_marker(),
                Some(e) => {
                    let now = now_epoch_seconds();
                    let r = format_duration_from(e, now);
                    proof {
                        let ge = rfc3339_epoch(ts@)->Some_0;
                        assert(exists|nw: int| r@ == #[trigger] duration_text(ge - nw)) by {
                            assert(r@ == duration_text(ge - (now as int)));
                        }
                    }
                    r
                },
            }
        },
    }
}

/// Renders a reset timestamp as a local clock label, rounding to the next
/// hour past minute 45. Absent or unparsable input yields `"?"`; otherwise
/// the text is `month-day-hour` for fields within calendar ranges.
pub fn format_reset_time_text(reset_time_str: Option<&str>) -> (r: String)
    ensures
        reset_time_str is None ==> r@ == "?"@,
        reset_time_str matches Some(s) ==> (rfc3339_epoch(s@) is None ==> r@ == "?"@),
        reset_time_str matches Some(s) ==> (rfc3339_epoch(s@) is Some ==> exists|m: int, d: int, h: int|
            1 <= m <= 12 && 1 <= d <= 31 && 0 <= h <= 23 && r@ == #[trigger] clock_label(m, d, h)),
{
    match reset_time_str {
        None => unknown_marker(),
        Some(ts) => {
            match local_clock_fields(ts) {
                None => unknown_marker(),
                Some(f) => {
                    let rolled = if f.3 > 45 {
                        local_clock_fields_plus_hour(ts)
                    } else {
                        None
                    };
                    match rolled {
                        Some(g) => clock_label_from_fields(f.0, f.1, f.2, f.3, g.0, g.1, g.2),
                        // past the rounding threshold this is unreachable
                        // short of the calendar's far end; show the hour as
                        // it stands
                        None => clock_label_from_fields(f.0, f.1, f.2, f.3, f.0, f.1, f.2),
                    }
                },
            }
        },
    }
}

} // verus!
