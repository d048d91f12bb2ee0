//! Time arithmetic on Unix seconds: the WIB (UTC+7) calendar day, relative
//! ages, and the calendar readings that `chrono` gives.
use vstd::prelude::*;
use vstd::string::*;
use crate::auth_utils::opt_string;
use crate::text::{decimal, push_decimal};
use vstd::arithmetic::div_mod::lemma_fundamental_div_mod_converse;

verus! {

broadcast use vstd::string::group_string_axioms;

/// The offset of WIB from UTC, in seconds.
pub const WIB_OFFSET: i64 = 25200;

/// Seconds in a day.
pub const DAY_SECONDS: i64 = 86400;

/// The first second, in UTC, of the WIB calendar day that holds `now`.
pub open spec fn wib_day_start(now: int) -> int {
    now - (now + WIB_OFFSET) % (DAY_SECONDS as int)
}

/// The UTC bounds of the WIB calendar day that holds `now`: from its
/// midnight to its 23:59:59.
pub fn wib_day_window(now: i64) -> (r: (i64, i64))
    requires
        i64::MIN + DAY_SECONDS <= now <= i64::MAX - DAY_SECONDS,
    ensures
        r.0 == wib_day_start(now as int),
        r.1 == r.0 + (DAY_SECONDS - 1),
{
    let shift: i128 = 86400 * 106751991167301;
    let x: i128 = now as i128 + 25200;
    let shifted: u128 = (x + shift) as u128;
    let m: u128 = shifted % 86400;
    proof {
        vstd::arithmetic::div_mod::lemma_mod_multiples_vanish(
            106751991167301,
            x as int,
            86400,
        );
    }
    let start: i64 = now - (m as i64);
    (start, start + 86399)
}

/// A WIB calendar date, read from its midnight as if it were UTC, turned
/// into the UTC bounds of that WIB day.
pub open spec fn wib_date_window(midnight: int) -> (int, int) {
    (midnight - WIB_OFFSET, midnight + (DAY_SECONDS - 1) - WIB_OFFSET)
}

/// The midnight, in Unix seconds read as UTC, of a `YYYY-MM-DD` date,
/// as `chrono::NaiveDate::parse_from_str` reads it.
pub uninterp spec fn parsed_date_midnight(text: Seq<char>) -> Option<int>;

/// Reads a `%Y-%m-%d` date with `chrono::NaiveDate::parse_from_str` and gives
/// the Unix seconds of its midnight read as UTC. Claimed: the result is a
/// function of the text, a midnight is a whole number of days, and it lies
/// within chrono's calendar (years -262143 to 262142, under 9 * 10^12 seconds
/// from the epoch either way).
#[verifier::external_body]
fn parse_date_midnight(text: &str) -> (r: Option<i64>)
    ensures
        match r {
            Some(s) => parsed_date_midnight(text@) == Some(s as int) && s % 86400 == 0
                && -9_000_000_000_000 <= s <= 9_000_000_000_000,
            None => parsed_date_midnight(text@) is None,
        },
{
    match chrono::NaiveDate::parse_from_str(text, "%Y-%m-%d") {
        Ok(d) => Some(d.and_time(chrono::NaiveTime::MIN).and_utc().timestamp()),
        Err(_) => None,
    }
}

/// The UTC bounds of the WIB day a `YYYY-MM-DD` text names, or `None` when
/// the text is not such a date.
pub fn wib_date_bounds(date: &str) -> (r: Option<(i64, i64)>)
    ensures
        match parsed_date_midnight(date@) {
            Some(m) => r matches Some(b) && b.0 == wib_date_window(m).0 && b.1 == wib_date_window(
                m,
            ).1,
            None => r is None,
        },
{
    match parse_date_midnight(date) {
        Some(m) => Some((m - 25200, m + 86399 - 25200)),
        None => None,
    }
}

/// The date and time, in Unix seconds read as UTC, of a form's
/// `%Y-%m-%dT%H:%M` text, as `chrono::NaiveDateTime::parse_from_str` reads it.
pub uninterp spec fn parsed_form_datetime(text: Seq<char>) -> Option<int>;

/// Reads a `%Y-%m-%dT%H:%M` date and time with
/// `chrono::NaiveDateTime::parse_from_str`, as Unix seconds read as UTC.
/// Claimed: the result is a function of the text.
#[verifier::external_body]
pub(crate) fn parse_form_datetime(text: &str) -> (r: Option<i64>)
    ensures
        match r {
            Some(s) => parsed_form_datetime(text@) == Some(s as int),
            None => parsed_form_datetime(text@) is None,
        },
{
    match chrono::NaiveDateTime::parse_from_str(text, "%Y-%m-%dT%H:%M") {
        Ok(d) => Some(d.and_utc().timestamp()),
        Err(_) => None,
    }
}

/// The calendar reading that `chrono` formats for a Unix second, with a
/// `strftime` pattern; `None` when the second is beyond chrono's calendar.
pub uninterp spec fn formatted_utc(secs: int, pattern: Seq<char>) -> Option<Seq<char>>;

/// The full date-and-time pattern of the pages and exports.
pub open spec fn datetime_pattern() -> Seq<char> {
    "%Y-%m-%d %H:%M:%S"@
}

/// The time-of-day pattern of the audit page.
pub open spec fn clock_pattern() -> Seq<char> {
    "%H:%M:%S"@
}

/// Formats a Unix second read as UTC with `chrono`'s `format`. Claimed: the
/// result is a function of the second and the pattern.
#[verifier::external_body]
fn format_utc_seconds(secs: i64, pattern: &str) -> (r: Option<String>)
    requires
        pattern@ == datetime_pattern() || pattern@ == clock_pattern(),
    ensures
        opt_string(r) == formatted_utc(secs as int, pattern@),
{
    match chrono::DateTime::from_timestamp(secs, 0) {
        Some(t) => Some(t.naive_utc().format(pattern).to_string()),
        None => None,
    }
}

/// The WIB date and time of a UTC second, as `YYYY-MM-DD HH:MM:SS`.
pub fn wib_datetime_text(utc_secs: i64) -> (r: Option<String>)
    ensures
        utc_secs <= i64::MAX - WIB_OFFSET ==> opt_string(r) == formatted_utc(
            utc_secs + WIB_OFFSET,
            datetime_pattern(),
        ),
        utc_secs > i64::MAX - WIB_OFFSET ==> r is None,
{
    if utc_secs > i64::MAX - 25200 {
        return None;
    }
    format_utc_seconds(utc_secs + 25200, "%Y-%m-%d %H:%M:%S")
}

/// The WIB time of day of a UTC second, as `HH:MM:SS`.
pub fn wib_clock_text(utc_secs: i64) -> (r: Option<String>)
    ensures
        utc_secs <= i64::MAX - WIB_OFFSET ==> opt_string(r) == formatted_utc(
            utc_secs + WIB_OFFSET,
            clock_pattern(),
        ),
        utc_secs > i64::MAX - WIB_OFFSET ==> r is None,
{
    if utc_secs > i64::MAX - 25200 {
        return None;
    }
    format_utc_seconds(utc_secs + 25200, "%H:%M:%S")
}

/// A moment as the database gives it: Unix seconds and nanoseconds, read
/// as UTC.
#[derive(Clone, Copy, Debug)]
pub struct Stamp {
    pub secs: i64,
    pub nanos: u32,
}

/// How `chrono` displays a moment read as UTC (`YYYY-MM-DD HH:MM:SS`, with
/// the fraction of a second when there is one); `None` when the moment is
/// beyond chrono's calendar.
pub uninterp spec fn displayed_stamp(secs: int, nanos: int) -> Option<Seq<char>>;

/// The display of a moment: `chrono::DateTime::from_timestamp`, then the
/// `Display` of its `NaiveDateTime`. Claimed: the result is a function of
/// the seconds and nanoseconds.
#[verifier::external_body]
fn display_utc(secs: i64, nanos: u32) -> (r: Option<String>)
    ensures
        opt_string(r) == displayed_stamp(secs as int, nanos as int),
{
    match chrono::DateTime::from_timestamp(secs, nanos) {
        Some(t) => Some(t.naive_utc().to_string()),
        None => None,
    }
}

/// The display of a moment, as the car export prints it.
pub fn stamp_text(s: Stamp) -> (r: Option<String>)
    ensures
        opt_string(r) == displayed_stamp(s.secs as int, s.nanos as int),
{
    display_utc(s.secs, s.nanos)
}

/// Division rounding toward zero, as `chrono` counts whole seconds of a
/// span.
pub open spec fn div_toward_zero(x: int, d: int) -> int {
    if x >= 0 {
        x / d
    } else {
        -((-x) / d)
    }
}

/// The whole seconds from `then` to `now`, counted toward zero from the
/// exact span in nanoseconds.
pub open spec fn elapsed_secs(now: Stamp, then: Stamp) -> int {
    div_toward_zero(
        (now.secs - then.secs) * 1_000_000_000 + (now.nanos - then.nanos),
        1_000_000_000,
    )
}

/// Whether the span from `then` to `now` can be counted in seconds.
pub open spec fn span_fits(now: Stamp, then: Stamp) -> bool {
    i64::MIN + 5 <= now.secs - then.secs <= i64::MAX - 5
}

/// The whole seconds from `then` to `now`, toward zero.
pub fn elapsed_seconds(now: Stamp, then: Stamp) -> (s: i64)
    requires
        span_fits(now, then),
    ensures
        s == elapsed_secs(now, then),
{
    let ds: i128 = now.secs as i128 - then.secs as i128;
    let dn: i128 = now.nanos as i128 - then.nanos as i128;
    let d: i128 = ds * 1_000_000_000 + dn;
    let q: i128 = if d >= 0 {
        d / 1_000_000_000
    } else {
        -((-d) / 1_000_000_000)
    };
    proof {
        let g = 1_000_000_000int;
        assert(-5000000000 < dn < 5000000000);
        if d >= 0 {
            vstd::arithmetic::div_mod::lemma_fundamental_div_mod(d as int, g);
            assert(q * g <= d);
            assert(d < (ds + 5) * g) by (nonlinear_arith)
                requires
                    d == ds * g + dn,
                    dn < 5000000000,
                    g == 1_000_000_000,
            ;
            assert(q < ds + 5) by (nonlinear_arith)
                requires
                    q * g <= d,
                    d < (ds + 5) * g,
                    g > 0,
            ;
        } else {
            let e = -d;
            vstd::arithmetic::div_mod::lemma_fundamental_div_mod(e as int, g);
            assert((e / g) * g <= e);
            assert(e < (-ds + 5) * g) by (nonlinear_arith)
                requires
                    e == -(ds * g + dn),
                    dn > -5000000000,
                    g == 1_000_000_000,
            ;
            assert(e / g < -ds + 5) by (nonlinear_arith)
                requires
                    (e / g) * g <= e,
                    e < (-ds + 5) * g,
                    g > 0,
            ;
        }
    }
    q as i64
}

/// How long ago something happened, in words, from the seconds elapsed since.
pub open spec fn relative_time_text(elapsed: int) -> Seq<char> {
    if elapsed < 60 {
        "Just now"@
    } else if elapsed / 60 < 60 {
        if elapsed / 60 == 1 {
            "1 min ago"@
        } else {
            decimal((elapsed / 60) as nat) + " mins ago"@
        }
    } else if elapsed / 3600 < 24 {
        if elapsed / 3600 == 1 {
            "1 hour ago"@
        } else {
            decimal((elapsed / 3600) as nat) + " hours ago"@
        }
    } else if elapsed / 86400 == 1 {
        "1 day ago"@
    } else {
        decimal((elapsed / 86400) as nat) + " days ago"@
    }
}

/// How long ago something happened, in words: under a minute (or in the
/// future) is "Just now", then whole minutes, hours, or days.
pub fn format_relative_time(elapsed_secs: i64) -> (r: String)
    ensures
        r@ == relative_time_text(elapsed_secs as int),
{
    if elapsed_secs < 60 {
        return String::from_str("Just now");
    }
    let mins = elapsed_secs / 60;
    if mins < 60 {
        if mins == 1 {
            return String::from_str("1 min ago");
        }
        let mut s = String::new();
        push_decimal(&mut s, mins as u64);
        s.append(" mins ago");
        return s;
    }
    let hours = elapsed_secs / 3600;
    if hours < 24 {
        if hours == 1 {
            return String::from_str("1 hour ago");
        }
        let mut s = String::new();
        push_decimal(&mut s, hours as u64);
        s.append(" hours ago");
        return s;
    }
    let days = elapsed_secs / 86400;
    if days == 1 {
        return String::from_str("1 day ago");
    }
    let mut s = String::new();
    push_decimal(&mut s, days as u64);
    s.append(" days ago");
    s
}


/// Ages read in whole units: under a minute is "Just now"; a span of `m`
/// whole minutes, under an hour, reads as `m` minutes ago; one of `h` whole
/// hours, under a day, as `h` hours ago; and one of `d` whole days as `d`
/// days ago, the unit singular for one.
pub proof fn law_relative_time_units(elapsed: int, m: int, h: int, d: int)
    ensures
        elapsed < 60 ==> relative_time_text(elapsed) == "Just now"@,
        60 <= elapsed < 120 ==> relative_time_text(elapsed) == "1 min ago"@,
        (2 <= m < 60 && 60 * m <= elapsed < 60 * m + 60) ==> relative_time_text(elapsed) == decimal(
            m as nat,
        ) + " mins ago"@,
        3600 <= elapsed < 7200 ==> relative_time_text(elapsed) == "1 hour ago"@,
        (2 <= h < 24 && 3600 * h <= elapsed < 3600 * h + 3600) ==> relative_time_text(elapsed)
            == decimal(h as nat) + " hours ago"@,
        86400 <= elapsed < 172800 ==> relative_time_text(elapsed) == "1 day ago"@,
        (2 <= d && 86400 * d <= elapsed < 86400 * d + 86400) ==> relative_time_text(elapsed)
            == decimal(d as nat) + " days ago"@,
{
    if elapsed >= 60 {
        if elapsed < 3600 {
            lemma_fundamental_div_mod_converse(elapsed, 60, elapsed / 60, elapsed % 60);
        }
        if elapsed < 86400 {
            lemma_fundamental_div_mod_converse(elapsed, 3600, elapsed / 3600, elapsed % 3600);
        }
        if 2 <= m < 60 && 60 * m <= elapsed < 60 * m + 60 {
            lemma_fundamental_div_mod_converse(elapsed, 60, m, elapsed - 60 * m);
        }
        if 2 <= h < 24 && 3600 * h <= elapsed < 3600 * h + 3600 {
            lemma_fundamental_div_mod_converse(elapsed, 3600, h, elapsed - 3600 * h);
            lemma_fundamental_div_mod_converse(elapsed, 60, elapsed / 60, elapsed % 60);
        }
        if 86400 <= elapsed < 172800 {
            lemma_fundamental_div_mod_converse(elapsed, 86400, 1, elapsed - 86400);
            lemma_fundamental_div_mod_converse(elapsed, 3600, elapsed / 3600, elapsed % 3600);
            lemma_fundamental_div_mod_converse(elapsed, 60, elapsed / 60, elapsed % 60);
        }
        if 2 <= d && 86400 * d <= elapsed < 86400 * d + 86400 {
            lemma_fundamental_div_mod_converse(elapsed, 86400, d, elapsed - 86400 * d);
            lemma_fundamental_div_mod_converse(elapsed, 3600, elapsed / 3600, elapsed % 3600);
            lemma_fundamental_div_mod_converse(elapsed, 60, elapsed / 60, elapsed % 60);
        }
    }
}

/// A span counts its whole seconds toward zero: a span forward in time
/// counts the whole seconds it has passed, and one backward the negative of
/// the whole seconds it goes back.
pub proof fn law_elapsed_whole_seconds(now: Stamp, then: Stamp)
    ensures
        ({
            let span = (now.secs - then.secs) * 1_000_000_000 + (now.nanos - then.nanos);
            let s = elapsed_secs(now, then);
            &&& span >= 0 ==> s >= 0 && s * 1_000_000_000 <= span < (s + 1) * 1_000_000_000
            &&& span < 0 ==> s <= 0 && (s - 1) * 1_000_000_000 < span <= s * 1_000_000_000
        }),
{
    let span = (now.secs - then.secs) * 1_000_000_000 + (now.nanos - then.nanos);
    let g = 1_000_000_000int;
    if span >= 0 {
        vstd::arithmetic::div_mod::lemma_fundamental_div_mod(span, g);
        vstd::arithmetic::div_mod::lemma_div_pos_is_pos(span, g);
    } else {
        vstd::arithmetic::div_mod::lemma_fundamental_div_mod(-span, g);
        vstd::arithmetic::div_mod::lemma_div_pos_is_pos(-span, g);
    }
}

/// The WIB day of a moment holds it: the day starts at a WIB midnight no
/// later than the moment, and the moment comes before the next midnight.
pub proof fn law_wib_day_holds_now(now: int)
    ensures
        wib_day_start(now) <= now < wib_day_start(now) + DAY_SECONDS,
        (wib_day_start(now) + WIB_OFFSET) % (DAY_SECONDS as int) == 0,
{
    let d = DAY_SECONDS as int;
    let x = now + WIB_OFFSET;
    vstd::arithmetic::div_mod::lemma_fundamental_div_mod(x, d);
    assert(wib_day_start(now) + WIB_OFFSET == d * (x / d));
    vstd::arithmetic::div_mod::lemma_mod_multiples_basic(x / d, d);
    vstd::arithmetic::mul::lemma_mul_is_commutative(d, x / d);
}

/// The dashboard's today and the audit page's window for today's date are
/// the same bounds: the WIB date of a moment, read back at its midnight,
/// gives the WIB day that holds the moment.
pub proof fn law_today_is_todays_date(now: int)
    ensures
        wib_date_window(wib_day_start(now) + WIB_OFFSET) == (
            wib_day_start(now),
            wib_day_start(now) + (DAY_SECONDS - 1),
        ),
{
}

} // verus!
