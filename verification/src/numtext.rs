//! Decimal text: rendering unsigned integers, and parsing/rendering the
//! utilization percentages the usage endpoint reports.
//!
//! A utilization is held as a whole number of *centi-percent* (hundredths of
//! a percent), so `4250` stands for `42.5%`. That keeps two decimal digits of
//! the server-reported value, which is all the segment ever displays.
use vstd::prelude::*;
use vstd::string::StringExecFns;

verus! {

/// The single decimal digit `d` as a character.
pub open spec fn digit_char(d: int) -> char {
    if d == 0 {
        '0'
    } else if d == 1 {
        '1'
    } else if d == 2 {
        '2'
    } else if d == 3 {
        '3'
    } else if d == 4 {
        '4'
    } else if d == 5 {
        '5'
    } else if d == 6 {
        '6'
    } else if d == 7 {
        '7'
    } else if d == 8 {
        '8'
    } else {
        '9'
    }
}

/// The usual decimal rendering of `n`, without leading zeroes.
pub open spec fn dec_str_of(n: nat) -> Seq<char>
    decreases n,
{
    if n < 10 {
        seq![digit_char(n as int)]
    } else {
        dec_str_of(n / 10) + seq![digit_char((n % 10) as int)]
    }
}

pub open spec fn is_digit(c: char) -> bool {
    48 <= c as u32 <= 57
}

pub open spec fn digit_val(c: char) -> int {
    c as u32 - 48
}

pub open spec fn all_digits(s: Seq<char>) -> bool {
    forall|i: int| 0 <= i < s.len() ==> is_digit(#[trigger] s[i])
}

/// The value of a digit string read left to right.
pub open spec fn dec_val(s: Seq<char>) -> int
    decreases s.len(),
{
    if s.len() == 0 {
        0
    } else {
        dec_val(s.drop_last()) * 10 + digit_val(s.last())
    }
}

pub(crate) fn digit_str(d: u64) -> (r: &'static str)
    requires
        d < 10,
    ensures
        r@ == seq![digit_char(d as int)],
{
    proof {
        reveal_strlit("0");
        reveal_strlit("1");
        reveal_strlit("2");
        reveal_strlit("3");
        reveal_strlit("4");
        reveal_strlit("5");
        reveal_strlit("6");
        reveal_strlit("7");
        reveal_strlit("8");
        reveal_strlit("9");
    }
    let r: &'static str = if d == 0 {
        "0"
    } else if d == 1 {
        "1"
    } else if d == 2 {
        "2"
    } else if d == 3 {
        "3"
    } else if d == 4 {
        "4"
    } else if d == 5 {
        "5"
    } else if d == 6 {
        "6"
    } else if d == 7 {
        "7"
    } else if d == 8 {
        "8"
    } else {
        "9"
    };
    proof {
        assert(r@ =~= seq![digit_char(d as int)]);
    }
    r
}

proof fn lemma_dec_val_step(s: Seq<char>, i: int)
    requires
        0 <= i < s.len(),
    ensures
        dec_val(s.subrange(0, i + 1)) == dec_val(s.subrange(0, i)) * 10 + digit_val(s[i]),
{
    let t = s.subrange(0, i + 1);
    assert(t.drop_last() =~= s.subrange(0, i));
    assert(t.last() == s[i]);
}

proof fn lemma_dec_val_nonneg(s: Seq<char>)
    requires
        all_digits(s),
    ensures
        dec_val(s) >= 0,
    decreases s.len(),
{
    if s.len() > 0 {
        assert(all_digits(s.drop_last())) by {
            assert(forall|i: int|
                0 <= i < s.drop_last().len() ==> #[trigger] s.drop_last()[i] == s[i]);
        }
        lemma_dec_val_nonneg(s.drop_last());
    }
}

/// Renders `n` in decimal, matching `dec_str_of`.
pub fn u64_to_string(n: u64) -> (r: String)
    ensures
        r@ == dec_str_of(n as nat),
    decreases n,
{
    if n < 10 {
        digit_str(n).to_owned()
    } else {
        let mut s = u64_to_string(n / 10);
        s.append(digit_str(n % 10));
        proof {
            assert(s@ =~= dec_str_of(n as nat));
        }
        s
    }
}

/// Largest integer part a utilization text may carry; keeps
/// `units * 100 + 99` within `u64`.
pub const UNITS_CAP: u64 = 184467440737095515;

/// Position of the first `'.'` at or after `i`, or `s.len()` when none.
pub open spec fn first_dot_from(s: Seq<char>, i: int) -> int
    decreases s.len() - i when 0 <= i <= s.len()
{
    if i >= s.len() {
        i
    } else if s[i] == '.' {
        i
    } else {
        first_dot_from(s, i + 1)
    }
}

proof fn lemma_first_dot_bounds(s: Seq<char>, i: int)
    requires
        0 <= i <= s.len(),
    ensures
        i <= first_dot_from(s, i) <= s.len(),
    decreases s.len() - i,
{
    if i < s.len() && s[i] != '.' {
        lemma_first_dot_bounds(s, i + 1);
    }
}

/// Centi-percent contributed by the fractional digits: only the first two
/// count, further precision is dropped.
pub open spec fn frac_centi(fp: Seq<char>) -> int {
    if fp.len() == 0 {
        0
    } else if fp.len() == 1 {
        digit_val(fp[0]) * 10
    } else {
        digit_val(fp[0]) * 10 + digit_val(fp[1])
    }
}

/// An unsigned decimal with an optional fractional part, small enough to hold.
pub open spec fn valid_utilization_text(s: Seq<char>) -> bool {
    let d = first_dot_from(s, 0);
    &&& d > 0
    &&& all_digits(s.subrange(0, d))
    &&& (d < s.len() ==> all_digits(s.subrange(d + 1, s.len() as int)))
    &&& dec_val(s.subrange(0, d)) <= UNITS_CAP
}

/// What `parse_decimal_centi` yields: the text's value in centi-percent.
pub open spec fn spec_parse_centi(s: Seq<char>) -> Option<int> {
    if valid_utilization_text(s) {
        let d = first_dot_from(s, 0);
        let fp = if d < s.len() {
            s.subrange(d + 1, s.len() as int)
        } else {
            Seq::<char>::empty()
        };
        Some(dec_val(s.subrange(0, d)) * 100 + frac_centi(fp))
    } else {
        None
    }
}

fn digit_of(c: char) -> (r: Option<u64>)
    ensures
        match r {
            Some(v) => is_digit(c) && v == digit_val(c) && v <= 9,
            None => !is_digit(c),
        },
{
    let u = c as u32;
    if 48 <= u && u <= 57 {
        Some((u - 48) as u64)
    } else {
        None
    }
}

/// Parses a server-reported utilization percentage (digits, optionally a dot
/// and more digits) into centi-percent, truncating past two decimals.
pub fn parse_decimal_centi(s: &str) -> (r: Option<u64>)
    ensures
        match r {
            Some(v) => spec_parse_centi(s@) == Some(v as int),
            None => spec_parse_centi(s@) is None,
        },
{
    let n = s.unicode_len();
    let ghost sq = s@;
    let mut i: usize = 0;
    let mut units: u64 = 0;
    let mut over: bool = false;
    loop
        invariant
            n == sq.len(),
            sq == s@,
            0 <= i <= n,
            first_dot_from(sq, 0) == first_dot_from(sq, i as int),
            all_digits(sq.subrange(0, i as int)),
            !over ==> units == dec_val(sq.subrange(0, i as int)) && units <= UNITS_CAP,
            over ==> dec_val(sq.subrange(0, i as int)) > UNITS_CAP,
        ensures
            0 <= i <= n,
            first_dot_from(sq, 0) == i as int,
            all_digits(sq.subrange(0, i as int)),
            !over ==> units == dec_val(sq.subrange(0, i as int)) && units <= UNITS_CAP,
            over ==> dec_val(sq.subrange(0, i as int)) > UNITS_CAP,
        decreases n - i,
    {
        if i >= n {
            break ;
        }
        let c = s.get_char(i);
        if c == '.' {
            break ;
        }
        match digit_of(c) {
            None => {
                // A stray character makes the whole text invalid.
                proof {
                    lemma_first_dot_bounds(sq, i + 1);
                    assert(first_dot_from(sq, i as int) == first_dot_from(sq, i + 1));
                    let d = first_dot_from(sq, 0);
                    assert(sq.subrange(0, d)[i as int] == sq[i as int]);
                }
                return None;
            },
            Some(dv) => {
                proof {
                    lemma_dec_val_step(sq, i as int);
                    lemma_dec_val_nonneg(sq.subrange(0, i as int));
                    assert(first_dot_from(sq, i as int) == first_dot_from(sq, i + 1));
                }
                if over {
                    // already too large; further digits keep it too large
                } else {
                    let nu = units * 10 + dv;
                    if nu > UNITS_CAP {
                        over = true;
                    } else {
                        units = nu;
                    }
                }
                i = i + 1;
            },
        }
    }
    // `i` is now the position of the first dot, or the end of the text.
    if i == 0 {
        return None;
    }
    if over {
        return None;
    }
    let d = i;
    let ghost fp: Seq<char> = if d < n {
        sq.subrange(d + 1, n as int)
    } else {
        Seq::<char>::empty()
    };
    // validate the fractional digits
    let mut j: usize = if d < n {
        d + 1
    } else {
        n
    };
    loop
        invariant
            n == sq.len(),
            sq == s@,
            d < n ==> d + 1 <= j <= n && fp == sq.subrange(d + 1, n as int),
            d >= n ==> j == n && d == n && fp == Seq::<char>::empty(),
            d < n ==> all_digits(sq.subrange(d + 1, j as int)),
            d == first_dot_from(sq, 0),
            0 < d <= n,
        ensures
            d < n ==> all_digits(sq.subrange(d + 1, n as int)),
        decreases n - j,
    {
        if j >= n {
            break ;
        }
        let c = s.get_char(j);
        match digit_of(c) {
            None => {
                proof {
                    assert(fp[j - d - 1] == sq[j as int]);
                }
                return None;
            },
            Some(_) => {
                proof {
                    assert forall|k: int| 0 <= k < j + 1 - (d + 1) implies is_digit(
                        #[trigger] sq.subrange(d + 1, j as int + 1)[k],
                    ) by {
                        assert(sq.subrange(d + 1, j as int + 1)[k] == sq[d + 1 + k]);
                        if k < j - (d + 1) {
                            assert(sq.subrange(d + 1, j as int)[k] == sq[d + 1 + k]);
                        }
                    }
                }
                j = j + 1;
            },
        }
    }
    proof {
        if d < n {
            assert(fp =~= sq.subrange(d + 1, n as int));
        }
    }
    // first two fractional digits, if present
    let mut frac: u64 = 0;
    if n - d > 1 {
        let c0 = s.get_char(d + 1);
        proof {
            assert(fp[0] == sq[d + 1]);
        }
        match digit_of(c0) {
            Some(v0) => {
                frac = v0 * 10;
            },
            None => {
                proof {
                    assert(is_digit(fp[0]));
                }
                return None;
            },
        }
        if n - d > 2 {
            let c1 = s.get_char(d + 2);
            proof {
                assert(fp[1] == sq[d + 2]);
            }
            match digit_of(c1) {
                Some(v1) => {
                    frac = frac + v1;
                },
                None => {
                    proof {
                        assert(is_digit(fp[1]));
                    }
                    return None;
                },
            }
        }
    }
    proof {
        lemma_dec_val_nonneg(sq.subrange(0, d as int));
    }
    let v = units * 100 + frac;
    proof {
        assert(frac == frac_centi(fp));
        assert(valid_utilization_text(sq));
    }
    Some(v)
}

/// Text form of a centi-percent value, with trailing zeroes dropped, the way
/// the metadata reports a utilization (`4250` renders as `42.5`).
pub open spec fn centi_text(c: int) -> Seq<char> {
    let units = c / 100;
    let frac = c % 100;
    if frac == 0 {
        dec_str_of(units as nat)
    } else if frac % 10 == 0 {
        dec_str_of(units as nat) + seq!['.'] + seq![digit_char(frac / 10)]
    } else if frac < 10 {
        dec_str_of(units as nat) + seq!['.', '0'] + seq![digit_char(frac)]
    } else {
        dec_str_of(units as nat) + seq!['.'] + dec_str_of(frac as nat)
    }
}

/// Renders a centi-percent utilization, matching `centi_text`.
pub fn render_centi(c: u64) -> (r: String)
    ensures
        r@ == centi_text(c as int),
{
    proof {
        reveal_strlit(".");
        reveal_strlit(".0");
    }
    let units = c / 100;
    let frac = c % 100;
    if frac == 0 {
        u64_to_string(units)
    } else if frac % 10 == 0 {
        let mut s = u64_to_string(units);
        s.append(".");
        s.append(digit_str(frac / 10));
        proof {
            assert(s@ =~= centi_text(c as int));
        }
        s
    } else if frac < 10 {
        let mut s = u64_to_string(units);
        s.append(".0");
        s.append(digit_str(frac));
        proof {
            assert(".0"@ =~= seq!['.', '0']);
            assert(s@ =~= centi_text(c as int));
        }
        s
    } else {
        let mut s = u64_to_string(units);
        s.append(".");
        let f = u64_to_string(frac);
        s.append(f.as_str());
        proof {
            assert(s@ =~= centi_text(c as int));
        }
        s
    }
}

proof fn lemma_digit_char_val(d: int)
    requires
        0 <= d <= 9,
    ensures
        is_digit(digit_char(d)),
        digit_val(digit_char(d)) == d,
{
}

proof fn lemma_dec_str_all_digits(n: nat)
    ensures
        all_digits(dec_str_of(n)),
        dec_str_of(n).len() >= 1,
    decreases n,
{
    if n < 10 {
        lemma_digit_char_val(n as int);
    } else {
        lemma_dec_str_all_digits(n / 10);
        lemma_digit_char_val((n % 10) as int);
        let s = dec_str_of(n);
        assert forall|i: int| 0 <= i < s.len() implies is_digit(#[trigger] s[i]) by {
            if i < dec_str_of(n / 10).len() {
                assert(s[i] == dec_str_of(n / 10)[i]);
            } else {
                assert(s[i] == digit_char((n % 10) as int));
            }
        }
    }
}

proof fn lemma_dec_str_value(n: nat)
    ensures
        dec_val(dec_str_of(n)) == n,
    decreases n,
{
    if n < 10 {
        lemma_digit_char_val(n as int);
        let s = dec_str_of(n);
        assert(s.drop_last() =~= Seq::<char>::empty());
        assert(dec_val(s) == dec_val(s.drop_last()) * 10 + digit_val(s.last()));
    } else {
        lemma_dec_str_value(n / 10);
        lemma_digit_char_val((n % 10) as int);
        vstd::arithmetic::div_mod::lemma_fundamental_div_mod(n as int, 10);
        let s = dec_str_of(n);
        assert(s.drop_last() =~= dec_str_of(n / 10));
        assert(s.last() == digit_char((n % 10) as int));
    }
}

proof fn lemma_first_dot_at(s: Seq<char>, i: int, j: int)
    requires
        0 <= i <= j <= s.len(),
        forall|k: int| i <= k < j ==> s[k] != '.',
        j == s.len() || s[j] == '.',
    ensures
        first_dot_from(s, i) == j,
    decreases j - i,
{
    if i < j {
        lemma_first_dot_at(s, i + 1, j);
    }
}

/// Rendering a utilization and parsing the text back is the identity, for
/// every value the parser itself could have produced.
pub proof fn lemma_centi_text_round_trip(c: int)
    requires
        0 <= c <= UNITS_CAP * 100 + 99,
    ensures
        spec_parse_centi(centi_text(c)) == Some(c),
{
    let units = c / 100;
    let frac = c % 100;
    vstd::arithmetic::div_mod::lemma_fundamental_div_mod(c, 100);
    assert(units <= UNITS_CAP) by {
        vstd::arithmetic::div_mod::lemma_div_is_ordered(c, UNITS_CAP * 100 + 99, 100);
        assert((UNITS_CAP * 100 + 99) / 100 == UNITS_CAP as int);
    }
    lemma_dec_str_all_digits(units as nat);
    lemma_dec_str_value(units as nat);
    let us = dec_str_of(units as nat);
    let s = centi_text(c);
    if frac == 0 {
        assert forall|k: int| 0 <= k < s.len() implies s[k] != '.' by {
            assert(is_digit(s[k]));
        }
        lemma_first_dot_at(s, 0, s.len() as int);
        assert(s.subrange(0, s.len() as int) =~= s);
        assert(valid_utilization_text(s));
    } else {
        let fp = s.subrange(us.len() as int + 1, s.len() as int);
        assert(s[us.len() as int] == '.');
        assert forall|k: int| 0 <= k < us.len() implies s[k] != '.' by {
            assert(s[k] == us[k]);
            assert(is_digit(us[k]));
        }
        lemma_first_dot_at(s, 0, us.len() as int);
        assert(s.subrange(0, us.len() as int) =~= us);
        vstd::arithmetic::div_mod::lemma_fundamental_div_mod(frac, 10);
        if frac % 10 == 0 {
            lemma_digit_char_val(frac / 10);
            assert(fp =~= seq![digit_char(frac / 10)]);
            assert(valid_utilization_text(s));
            assert(frac_centi(fp) == frac);
        } else if frac < 10 {
            lemma_digit_char_val(frac);
            lemma_digit_char_val(0);
            assert(fp =~= seq!['0', digit_char(frac)]);
            assert(valid_utilization_text(s));
            assert(frac_centi(fp) == frac);
        } else {
            lemma_dec_str_all_digits(frac as nat);
            lemma_digit_char_val(frac / 10);
            lemma_digit_char_val(frac % 10);
            assert(dec_str_of((frac / 10) as nat) =~= seq![digit_char(frac / 10)]);
            assert(dec_str_of(frac as nat) =~= seq![digit_char(frac / 10), digit_char(frac % 10)]);
            assert(fp =~= seq![digit_char(frac / 10), digit_char(frac % 10)]);
            assert(valid_utilization_text(s));
            assert(frac_centi(fp) == frac);
        }
    }
}

/// The displayed whole percentage: round half up, saturating at 255 the way
/// a narrowing float cast would.
pub open spec fn spec_round_percent(c: int) -> int {
    if c >= 25500 {
        255
    } else {
        (c + 50) / 100
    }
}

pub fn round_percent(c: u64) -> (r: u8)
    ensures
        r as int == spec_round_percent(c as int),
{
    if c >= 25500 {
        255
    } else {
        ((c + 50) / 100) as u8
    }
}

/// Truncated whole percentage, as the icon bucketing reads it.
pub fn trunc_percent(c: u64) -> (r: u64)
    ensures
        r as int == c as int / 100,
{
    c / 100
}

} // verus!
