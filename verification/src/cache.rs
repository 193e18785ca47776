//! The cache store: the persisted usage snapshot, its JSON text form, the
//! legacy-schema migration, staleness evaluation and path resolution.
//!
//! Reading and writing the file itself is I/O and stays with the caller; this
//! module turns file text into records and records into file text.
use crate::jsonval::{
    centi_entry, json_as_str, json_get, json_model_of_text, json_parse, opt_text_entry,
    read_centi_field, read_opt_string_field, text_entry, JsonModel,
};
use crate::numtext::{centi_text, digit_char, render_centi};
use crate::timefmt::rfc3339_epoch;
use vstd::prelude::*;
use vstd::string::StringExecFns;
use vstd::string::StrSliceExecFns;

verus! {

/// A usage snapshot as assembled from the endpoint's response or the cache:
/// both utilizations in centi-percent and both optional reset timestamps.
pub struct UsageSnapshot {
    pub five_hour_utilization: u64,
    pub seven_day_utilization: u64,
    pub five_hour_resets_at: Option<String>,
    pub seven_day_resets_at: Option<String>,
}

/// The persisted form of a snapshot: the snapshot plus the instant it was
/// fetched, and possibly the shared reset field of the older schema.
pub struct CacheRecord {
    pub five_hour_utilization: u64,
    pub seven_day_utilization: u64,
    pub five_hour_resets_at: Option<String>,
    pub seven_day_resets_at: Option<String>,
    pub legacy_resets_at: Option<String>,
    pub cached_at: String,
}

/// The text of an optional string, for writing contracts over such fields.
pub open spec fn opt_view(o: Option<String>) -> Option<Seq<char>> {
    match o {
        Some(s) => Some(s@),
        None => None,
    }
}

fn clone_opt(o: &Option<String>) -> (r: Option<String>)
    ensures
        r == *o,
{
    match o {
        None => None,
        Some(s) => Some(s.clone()),
    }
}

/// The snapshot a cache record carries, fetch instant and legacy field left
/// aside.
pub fn snapshot_of_cache(c: &CacheRecord) -> (r: UsageSnapshot)
    ensures
        r.five_hour_utilization == c.five_hour_utilization,
        r.seven_day_utilization == c.seven_day_utilization,
        r.five_hour_resets_at == c.five_hour_resets_at,
        r.seven_day_resets_at == c.seven_day_resets_at,
{
    UsageSnapshot {
        five_hour_utilization: c.five_hour_utilization,
        seven_day_utilization: c.seven_day_utilization,
        five_hour_resets_at: clone_opt(&c.five_hour_resets_at),
        seven_day_resets_at: clone_opt(&c.seven_day_resets_at),
    }
}

/// The legacy migration as a value transform: a missing typed reset field is
/// backfilled from the shared legacy field, everything else is kept.
pub open spec fn migrated(rec: CacheRecord) -> CacheRecord {
    CacheRecord {
        five_hour_resets_at: if rec.five_hour_resets_at is None && rec.legacy_resets_at is Some {
            rec.legacy_resets_at
        } else {
            rec.five_hour_resets_at
        },
        seven_day_resets_at: if rec.seven_day_resets_at is None && rec.legacy_resets_at is Some {
            rec.legacy_resets_at
        } else {
            rec.seven_day_resets_at
        },
        ..rec
    }
}

/// Backfills the typed reset fields from the legacy shared one.
pub fn migrate_legacy(rec: CacheRecord) -> (r: CacheRecord)
    ensures
        r == migrated(rec),
{
    let CacheRecord {
        five_hour_utilization,
        seven_day_utilization,
        five_hour_resets_at,
        seven_day_resets_at,
        legacy_resets_at,
        cached_at,
    } = rec;
    let five = if five_hour_resets_at.is_none() && legacy_resets_at.is_some() {
        clone_opt(&legacy_resets_at)
    } else {
        five_hour_resets_at
    };
    let seven = if seven_day_resets_at.is_none() && legacy_resets_at.is_some() {
        clone_opt(&legacy_resets_at)
    } else {
        seven_day_resets_at
    };
    CacheRecord {
        five_hour_utilization,
        seven_day_utilization,
        five_hour_resets_at: five,
        seven_day_resets_at: seven,
        legacy_resets_at,
        cached_at,
    }
}

/// A record loaded from only the legacy shared reset field carries it in both
/// typed fields afterwards.
pub proof fn lemma_legacy_backfill(rec: CacheRecord)
    requires
        rec.legacy_resets_at is Some,
        rec.five_hour_resets_at is None,
        rec.seven_day_resets_at is None,
    ensures
        migrated(rec).five_hour_resets_at == rec.legacy_resets_at,
        migrated(rec).seven_day_resets_at == rec.legacy_resets_at,
{
}

/// Freshness of a cache entry: strictly younger than the allowed age.
pub open spec fn age_valid(cached_at_epoch: int, now: int, max_age: int) -> bool {
    now - cached_at_epoch < max_age
}

/// A cache written `max_age - 1` seconds ago is still fresh; one written
/// exactly `max_age` seconds ago is already stale.
pub proof fn lemma_cache_freshness_boundary(now: int, max_age: int)
    requires
        max_age >= 1,
    ensures
        age_valid(now - (max_age - 1), now, max_age),
        !age_valid(now - max_age, now, max_age),
{
}

/// Compares a cache timestamp against the clock, matching `age_valid`.
pub fn cache_age_valid(cached_at_epoch: i64, now: i64, max_age_seconds: u64) -> (r: bool)
    ensures
        r == age_valid(cached_at_epoch as int, now as int, max_age_seconds as int),
{
    (now as i128 - cached_at_epoch as i128) < max_age_seconds as i128
}

/// Whether a loaded record is still fresh enough to use without a fetch.
/// An unreadable `cached_at` never counts as fresh; a readable one is held
/// against the clock by `age_valid`.
pub fn is_cache_valid(cache: &CacheRecord, cache_duration: u64) -> (r: bool)
    ensures
        rfc3339_epoch(cache.cached_at@) is None ==> !r,
        rfc3339_epoch(cache.cached_at@) matches Some(e) ==> exists|now: int|
            r == #[trigger] age_valid(e, now, cache_duration as int),
{
    match crate::timefmt::rfc3339_to_epoch(cache.cached_at.as_str()) {
        None => false,
        Some(cached) => {
            let now = crate::timefmt::now_epoch_seconds();
            let r = cache_age_valid(cached, now, cache_duration);
            proof {
                let e = rfc3339_epoch(cache.cached_at@)->Some_0;
                assert(exists|nw: int| r == #[trigger] age_valid(e, nw, cache_duration as int)) by {
                    assert(r == age_valid(e, now as int, cache_duration as int));
                }
            }
            r
        },
    }
}

/// Relies on `dirs::home_dir`: the user's home directory, an
/// environment-dependent lookup of which nothing further can be promised;
/// `None` also covers a path that is not Unicode.
#[verifier::external_body]
fn home_dir_string() -> (r: Option<String>) {
    dirs::home_dir().and_then(|p| p.to_str().map(|s| s.to_owned()))
}

/// Where the cache file lives, under a given home directory.
pub fn cache_path_of(home: &str) -> (r: String)
    ensures
        r@ == home@ + "/.ccline/.api_usage_cache.json"@,
{
    let mut p = home.to_owned();
    p.append("/.ccline/.api_usage_cache.json");
    p
}

/// Where the cache file lives: the fixed spot of `cache_path_of` under the
/// looked-up home directory, or nowhere when no home directory is known
/// (caching is then silently off).
pub fn resolve_cache_path() -> (r: Option<String>)
    ensures
        r matches Some(p) ==> exists|h: Seq<char>|
            p@ == #[trigger] (h + "/.ccline/.api_usage_cache.json"@),
{
    match home_dir_string() {
        None => None,
        Some(home) => {
            let p = cache_path_of(home.as_str());
            proof {
                assert(p@ == home@ + "/.ccline/.api_usage_cache.json"@);
            }
            Some(p)
        },
    }
}

/// Where the proxy settings file lives, under a given home directory.
pub fn settings_path_of(home: &str) -> (r: String)
    ensures
        r@ == home@ + "/.ccline/settings.json"@,
{
    let mut p = home.to_owned();
    p.append("/.ccline/settings.json");
    p
}

// --- writing a record as JSON text ---
/// A hexadecimal digit, lower case.
pub open spec fn hex_char(d: int) -> char {
    if d < 10 {
        digit_char(d)
    } else if d == 10 {
        'a'
    } else if d == 11 {
        'b'
    } else if d == 12 {
        'c'
    } else if d == 13 {
        'd'
    } else if d == 14 {
        'e'
    } else {
        'f'
    }
}

/// How one character appears inside a JSON string literal.
pub open spec fn esc_char(c: char) -> Seq<char> {
    if c == '"' {
        seq!['\\', '"']
    } else if c == '\\' {
        seq!['\\', '\\']
    } else if (c as u32) < 32 {
        seq!['\\', 'u', '0', '0', hex_char(c as u32 as int / 16), hex_char(c as u32 as int % 16)]
    } else {
        seq![c]
    }
}

pub open spec fn json_escaped_from(s: Seq<char>, i: int) -> Seq<char>
    decreases s.len() - i when 0 <= i <= s.len()
{
    if i >= s.len() {
        Seq::<char>::empty()
    } else {
        esc_char(s[i]) + json_escaped_from(s, i + 1)
    }
}

/// The body of the JSON string literal that denotes `s`.
pub open spec fn json_escaped(s: Seq<char>) -> Seq<char> {
    json_escaped_from(s, 0)
}

fn hex_digit_str(d: u64) -> (r: &'static str)
    requires
        d < 16,
    ensures
        r@ == seq![hex_char(d as int)],
{
    if d < 10 {
        let r = crate::numtext::digit_str(d);
        proof {
            assert(r@ =~= seq![hex_char(d as int)]);
        }
        r
    } else {
        proof {
            reveal_strlit("a");
            reveal_strlit("b");
            reveal_strlit("c");
            reveal_strlit("d");
            reveal_strlit("e");
            reveal_strlit("f");
        }
        let r: &'static str = if d == 10 {
            "a"
        } else if d == 11 {
            "b"
        } else if d == 12 {
            "c"
        } else if d == 13 {
            "d"
        } else if d == 14 {
            "e"
        } else {
            "f"
        };
        proof {
            assert(r@ =~= seq![hex_char(d as int)]);
        }
        r
    }
}

/// Appends `s` to `out` in JSON string-literal form (without the quotes),
/// escaping quotes, backslashes and control characters.
fn append_json_escaped(out: &mut String, s: &str)
    ensures
        final(out)@ == old(out)@ + json_escaped(s@),
{
    let n = s.unicode_len();
    let mut i: usize = 0;
    while i < n
        invariant
            n == s@.len(),
            0 <= i <= n,
            out@ + json_escaped_from(s@, i as int) == old(out)@ + json_escaped(s@),
        decreases n - i,
    {
        proof {
            reveal_strlit("\\\"");
            reveal_strlit("\\\\");
            reveal_strlit("\\u00");
        }
        let c = s.get_char(i);
        let u = c as u32;
        if c == '"' {
            out.append("\\\"");
            proof {
                assert("\\\""@ =~= esc_char(c));
            }
        } else if c == '\\' {
            out.append("\\\\");
            proof {
                assert("\\\\"@ =~= esc_char(c));
            }
        } else if u < 32 {
            let ghost before = out@;
            out.append("\\u00");
            out.append(hex_digit_str((u / 16) as u64));
            out.append(hex_digit_str((u % 16) as u64));
            proof {
                assert(out@ =~= before + esc_char(c));
            }
        } else {
            let piece = s.substring_char(i, i + 1);
            out.append(piece);
            proof {
                assert(piece@ =~= esc_char(c));
            }
        }
        i = i + 1;
        proof {
            assert(out@ + json_escaped_from(s@, i as int) =~= old(out)@ + json_escaped(s@));
        }
    }
    proof {
        assert(out@ =~= old(out)@ + json_escaped(s@));
    }
}

/// A full JSON string literal for `s`.
pub open spec fn json_string_text(s: Seq<char>) -> Seq<char> {
    seq!['"'] + json_escaped(s) + seq!['"']
}

/// An optional string field's value: a string literal or `null`.
pub open spec fn opt_string_json(o: Option<Seq<char>>) -> Seq<char> {
    match o {
        Some(s) => json_string_text(s),
        None => "null"@,
    }
}

fn append_json_string(out: &mut String, s: &str)
    ensures
        final(out)@ == old(out)@ + json_string_text(s@),
{
    proof {
        reveal_strlit("\"");
    }
    let ghost before = out@;
    out.append("\"");
    append_json_escaped(out, s);
    out.append("\"");
    proof {
        assert("\""@ =~= seq!['"']);
        assert(out@ =~= before + json_string_text(s@));
    }
}

fn append_opt_json_string(out: &mut String, o: &Option<String>)
    ensures
        final(out)@ == old(out)@ + opt_string_json(opt_view(*o)),
{
    match o {
        None => {
            out.append("null");
        },
        Some(s) => {
            append_json_string(out, s.as_str());
        },
    }
}

/// The stable, human-readable JSON text a cache record is written as; the
/// legacy field is never written back.
pub open spec fn cache_json_text(
    five: int,
    seven: int,
    fr: Option<Seq<char>>,
    sr: Option<Seq<char>>,
    at: Seq<char>,
) -> Seq<char> {
    "{\n  \"five_hour_utilization\": "@ + centi_text(five) + ",\n  \"seven_day_utilization\": "@
        + centi_text(seven) + ",\n  \"five_hour_resets_at\": "@ + opt_string_json(fr)
        + ",\n  \"seven_day_resets_at\": "@ + opt_string_json(sr) + ",\n  \"cached_at\": "@
        + json_string_text(at) + "\n}"@
}

/// Renders a record as the cache file's JSON text, matching
/// `cache_json_text`; the legacy field is dropped.
pub fn render_cache_record(rec: &CacheRecord) -> (r: String)
    ensures
        r@ == cache_json_text(
            rec.five_hour_utilization as int,
            rec.seven_day_utilization as int,
            opt_view(rec.five_hour_resets_at),
            opt_view(rec.seven_day_resets_at),
            rec.cached_at@,
        ),
{
    let mut out = String::new();
    out.append("{\n  \"five_hour_utilization\": ");
    let five = render_centi(rec.five_hour_utilization);
    out.append(five.as_str());
    out.append(",\n  \"seven_day_utilization\": ");
    let seven = render_centi(rec.seven_day_utilization);
    out.append(seven.as_str());
    out.append(",\n  \"five_hour_resets_at\": ");
    append_opt_json_string(&mut out, &rec.five_hour_resets_at);
    out.append(",\n  \"seven_day_resets_at\": ");
    append_opt_json_string(&mut out, &rec.seven_day_resets_at);
    out.append(",\n  \"cached_at\": ");
    append_json_string(&mut out, rec.cached_at.as_str());
    out.append("\n}");
    proof {
        assert(out@ =~= cache_json_text(
            rec.five_hour_utilization as int,
            rec.seven_day_utilization as int,
            opt_view(rec.five_hour_resets_at),
            opt_view(rec.seven_day_resets_at),
            rec.cached_at@,
        ));
    }
    out
}

// --- reading a record out of the cache file's JSON text ---
/// The raw field values a cache file's model carries, in schema order
/// (five-hour and seven-day utilization, both typed reset fields, the legacy
/// shared one, the fetch instant); `None` where any required field is
/// missing or of the wrong shape.
pub open spec fn cache_model_fields(o: Map<Seq<char>, JsonModel>) -> Option<
    (int, int, Option<Seq<char>>, Option<Seq<char>>, Option<Seq<char>>, Seq<char>),
> {
    let five = centi_entry(o, "five_hour_utilization"@);
    let seven = centi_entry(o, "seven_day_utilization"@);
    let fr = opt_text_entry(o, "five_hour_resets_at"@);
    let sr = opt_text_entry(o, "seven_day_resets_at"@);
    let lg = opt_text_entry(o, "resets_at"@);
    let at = text_entry(o, "cached_at"@);
    if five is Some && seven is Some && fr is Some && sr is Some && lg is Some && at is Some {
        Some((five->Some_0, seven->Some_0, fr->Some_0, sr->Some_0, lg->Some_0, at->Some_0))
    } else {
        None
    }
}

/// Whether a text is a loadable cache record: a JSON object whose fields the
/// schema accepts.
pub open spec fn loadable_cache_text(s: Seq<char>) -> bool {
    json_model_of_text(s) matches Some(JsonModel::Obj(o)) && cache_model_fields(o) is Some
}

/// Reads a cache record from the file's JSON text and applies the legacy
/// migration. A record comes back exactly for text the schema accepts, its
/// fields those of the text after the backfill; anything else — not JSON, not
/// an object, a required field missing or ill-shaped — yields `None`.
pub fn parse_cache_record(content: &str) -> (r: Option<CacheRecord>)
    ensures
        r is Some <==> loadable_cache_text(content@),
        r matches Some(c) ==> {
            let o = json_model_of_text(content@)->Some_0->Obj_0;
            let f = cache_model_fields(o)->Some_0;
            &&& c.five_hour_utilization as int == f.0
            &&& c.seven_day_utilization as int == f.1
            &&& opt_view(c.five_hour_resets_at) == (if f.2 is None && f.4 is Some {
                f.4
            } else {
                f.2
            })
            &&& opt_view(c.seven_day_resets_at) == (if f.3 is None && f.4 is Some {
                f.4
            } else {
                f.3
            })
            &&& opt_view(c.legacy_resets_at) == f.4
            &&& c.cached_at@ == f.5
        },
        r matches Some(c) ==> (c.legacy_resets_at is Some ==> c.five_hour_resets_at is Some
            && c.seven_day_resets_at is Some),
{
    let v = match json_parse(content) {
        None => {
            return None;
        },
        Some(v) => v,
    };
    let five = match read_centi_field(&v, "five_hour_utilization") {
        None => {
            return None;
        },
        Some(x) => x,
    };
    let seven = match read_centi_field(&v, "seven_day_utilization") {
        None => {
            return None;
        },
        Some(x) => x,
    };
    let five_r = match read_opt_string_field(&v, "five_hour_resets_at") {
        Err(_) => {
            return None;
        },
        Ok(x) => x,
    };
    let seven_r = match read_opt_string_field(&v, "seven_day_resets_at") {
        Err(_) => {
            return None;
        },
        Ok(x) => x,
    };
    let legacy = match read_opt_string_field(&v, "resets_at") {
        Err(_) => {
            return None;
        },
        Ok(x) => x,
    };
    let cached_at = match json_get(&v, "cached_at") {
        None => {
            return None;
        },
        Some(f) => {
            match json_as_str(f) {
                None => {
                    return None;
                },
                Some(s) => s,
            }
        },
    };
    let raw = CacheRecord {
        five_hour_utilization: five,
        seven_day_utilization: seven,
        five_hour_resets_at: five_r,
        seven_day_resets_at: seven_r,
        legacy_resets_at: legacy,
        cached_at,
    };
    let ghost graw = raw;
    let rec = migrate_legacy(raw);
    proof {
        assert(rec == migrated(graw));
    }
    Some(rec)
}

} // verus!
