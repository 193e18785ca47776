//! The usage segment's configuration enums, icon bucketing and entry type.
use vstd::prelude::*;

verus! {

/// ASCII lowercasing of a single character; everything else is untouched.
pub open spec fn lower_char(c: char) -> char {
    if 65 <= c as u32 <= 90 {
        (((c as u32) + 32) as u32) as char
    } else {
        c
    }
}

/// Texts equal up to ASCII case.
pub open spec fn eq_ignore_ascii_case(a: Seq<char>, b: Seq<char>) -> bool {
    a.len() == b.len() && (forall|i: int|
        0 <= i < a.len() ==> lower_char(#[trigger] a[i]) == lower_char(b[i]))
}

fn lower_u32(c: char) -> (r: u32)
    ensures
        r == lower_char(c) as u32,
{
    let u = c as u32;
    if 65 <= u && u <= 90 {
        u + 32
    } else {
        u
    }
}

fn chars_eq_ci(a: char, b: char) -> (r: bool)
    ensures
        r == (lower_char(a) == lower_char(b)),
{
    lower_u32(a) == lower_u32(b)
}

/// Compares two texts ignoring ASCII case, matching `eq_ignore_ascii_case`.
pub fn str_eq_ignore_ascii_case(a: &str, b: &str) -> (r: bool)
    ensures
        r == eq_ignore_ascii_case(a@, b@),
{
    let na = a.unicode_len();
    let nb = b.unicode_len();
    if na != nb {
        return false;
    }
    let mut i: usize = 0;
    while i < na
        invariant
            na == a@.len(),
            na == b@.len(),
            0 <= i <= na,
            forall|k: int| 0 <= k < i ==> lower_char(#[trigger] a@[k]) == lower_char(b@[k]),
        decreases na - i,
    {
        if !chars_eq_ci(a.get_char(i), b.get_char(i)) {
            return false;
        }
        i = i + 1;
    }
    true
}

/// Which reset window the secondary text reflects.
#[derive(Debug, Clone, Copy, PartialEq, Eq, Structural)]
pub enum ResetPeriod {
    Session,
    Weekly,
}

impl ResetPeriod {
    pub fn as_str(self) -> (r: &'static str)
        ensures
            self == ResetPeriod::Session ==> r@ == "session"@,
            self == ResetPeriod::Weekly ==> r@ == "weekly"@,
    {
        match self {
            ResetPeriod::Session => "session",
            ResetPeriod::Weekly => "weekly",
        }
    }

    /// Parses configuration text, ignoring ASCII case; anything that is not
    /// `session` or `weekly` is rejected.
    pub fn try_from(value: &str) -> (r: Result<ResetPeriod, ()>)
        ensures
            eq_ignore_ascii_case(value@, "session"@) ==> r == Ok::<ResetPeriod, ()>(
                ResetPeriod::Session,
            ),
            !eq_ignore_ascii_case(value@, "session"@) && eq_ignore_ascii_case(value@, "weekly"@)
                ==> r == Ok::<ResetPeriod, ()>(ResetPeriod::Weekly),
            !eq_ignore_ascii_case(value@, "session"@) && !eq_ignore_ascii_case(value@, "weekly"@)
                ==> r == Err::<ResetPeriod, ()>(()),
    {
        if str_eq_ignore_ascii_case(value, "session") {
            Ok(ResetPeriod::Session)
        } else if str_eq_ignore_ascii_case(value, "weekly") {
            Ok(ResetPeriod::Weekly)
        } else {
            Err(())
        }
    }
}

/// How the chosen reset timestamp is rendered.
#[derive(Debug, Clone, Copy, PartialEq, Eq, Structural)]
pub enum ResetFormat {
    Time,
    Duration,
}

impl ResetFormat {
    pub fn as_str(self) -> (r: &'static str)
        ensures
            self == ResetFormat::Time ==> r@ == "time"@,
            self == ResetFormat::Duration ==> r@ == "duration"@,
    {
        match self {
            ResetFormat::Time => "time",
            ResetFormat::Duration => "duration",
        }
    }

    /// Parses configuration text, ignoring ASCII case; anything that is not
    /// `time` or `duration` is rejected.
    pub fn try_from(value: &str) -> (r: Result<ResetFormat, ()>)
        ensures
            eq_ignore_ascii_case(value@, "time"@) ==> r == Ok::<ResetFormat, ()>(ResetFormat::Time),
            !eq_ignore_ascii_case(value@, "time"@) && eq_ignore_ascii_case(value@, "duration"@)
                ==> r == Ok::<ResetFormat, ()>(ResetFormat::Duration),
            !eq_ignore_ascii_case(value@, "time"@) && !eq_ignore_ascii_case(value@, "duration"@)
                ==> r == Err::<ResetFormat, ()>(()),
    {
        if str_eq_ignore_ascii_case(value, "time") {
            Ok(ResetFormat::Time)
        } else if str_eq_ignore_ascii_case(value, "duration") {
            Ok(ResetFormat::Duration)
        } else {
            Err(())
        }
    }
}

/// Bucket index of a whole utilization percentage: eight equal-width steps,
/// everything at or beyond 88 in the top one.
pub open spec fn icon_bucket(percent: int) -> int {
    if percent <= 12 {
        0
    } else if percent <= 25 {
        1
    } else if percent <= 37 {
        2
    } else if percent <= 50 {
        3
    } else if percent <= 62 {
        4
    } else if percent <= 75 {
        5
    } else if percent <= 87 {
        6
    } else {
        7
    }
}

/// The glyph drawn for each bucket: circle slices, from nearly empty to full.
pub open spec fn bucket_glyph(b: int) -> Seq<char> {
    if b == 0 {
        "\u{f0a9e}"@
    } else if b == 1 {
        "\u{f0a9f}"@
    } else if b == 2 {
        "\u{f0aa0}"@
    } else if b == 3 {
        "\u{f0aa1}"@
    } else if b == 4 {
        "\u{f0aa2}"@
    } else if b == 5 {
        "\u{f0aa3}"@
    } else if b == 6 {
        "\u{f0aa4}"@
    } else {
        "\u{f0aa5}"@
    }
}

/// A fuller utilization never maps to an emptier icon, and every value lands
/// in one of the eight buckets.
pub proof fn lemma_icon_bucket_monotonic(p1: int, p2: int)
    requires
        p1 <= p2,
    ensures
        icon_bucket(p1) <= icon_bucket(p2),
        0 <= icon_bucket(p1) < 8,
        0 <= icon_bucket(p2) < 8,
{
}

/// The status-line segment reporting API usage.
#[derive(Debug)]
pub struct UsageSegment;

impl Default for UsageSegment {
    fn default() -> (r: Self)
        ensures
            r == (UsageSegment {  }),
    {
        UsageSegment
    }
}

impl UsageSegment {
    pub fn new() -> (r: Self) {
        UsageSegment
    }

    /// The segment's identifier within the status line.
    pub fn id(&self) -> (r: &'static str)
        ensures
            r@ == "usage"@,
    {
        "usage"
    }

    /// The icon for a whole utilization percentage (truncated, not rounded).
    pub fn get_circle_icon(percent: u64) -> (r: String)
        ensures
            r@ == bucket_glyph(icon_bucket(percent as int)),
    {
        if percent <= 12 {
            "\u{f0a9e}".to_owned()
        } else if percent <= 25 {
            "\u{f0a9f}".to_owned()
        } else if percent <= 37 {
            "\u{f0aa0}".to_owned()
        } else if percent <= 50 {
            "\u{f0aa1}".to_owned()
        } else if percent <= 62 {
            "\u{f0aa2}".to_owned()
        } else if percent <= 75 {
            "\u{f0aa3}".to_owned()
        } else if percent <= 87 {
            "\u{f0aa4}".to_owned()
        } else {
            "\u{f0aa5}".to_owned()
        }
    }

    /// Countdown text for an optional reset timestamp; see
    /// `timefmt::format_reset_duration_text`.
    pub fn format_reset_duration(reset_time_str: Option<&str>) -> (r: String)
        ensures
            reset_time_str is None ==> r@ == "?"@,
            reset_time_str matches Some(s) ==> (crate::timefmt::rfc3339_epoch(s@) is None ==> r@
                == "?"@),
            reset_time_str matches Some(s) ==> (crate::timefmt::rfc3339_epoch(s@) matches Some(e)
                ==> exists|now: int| r@ == #[trigger] crate::timefmt::duration_text(e - now)),
    {
        crate::timefmt::format_reset_duration_text(reset_time_str)
    }

    /// Local clock label for an optional reset timestamp; see
    /// `timefmt::format_reset_time_text`.
    pub fn format_reset_time(reset_time_str: Option<&str>) -> (r: String)
        ensures
            reset_time_str is None ==> r@ == "?"@,
            reset_time_str matches Some(s) ==> (crate::timefmt::rfc3339_epoch(s@) is None ==> r@
                == "?"@),
            reset_time_str matches Some(s) ==> (crate::timefmt::rfc3339_epoch(s@) is Some
                ==> exists|m: int, d: int, h: int|
                1 <= m <= 12 && 1 <= d <= 31 && 0 <= h <= 23 && r@
                    == #[trigger] crate::timefmt::clock_label(m, d, h)),
    {
        crate::timefmt::format_reset_time_text(reset_time_str)
    }
}

} // verus!
