use vstd::prelude::*;
use crate::opt_view;
use vstd::string::*;

verus! {

/// Default lookback, in seconds, when no start expression applies.
pub const ONE_HOUR_IN_SECONDS: i64 = 3600;

/// The value in milliseconds that `ms_converter::ms` gives for a duration
/// expression, or `None` where the expression does not parse.
pub uninterp spec fn ms_value(s: Seq<char>) -> Option<i64>;

/// Relies on `ms_converter::ms`: parses a human duration ("2 hours", "1d")
/// into milliseconds; its result depends on the text alone.
#[verifier::external_body]
fn parse_ms(s: &String) -> (r: Option<i64>)
    ensures
        r == ms_value(s@),
{
    ms_converter::ms(s.as_str()).ok()
}

/// Integer division rounding toward zero, as Rust's `/` does.
pub open spec fn div_toward_zero(a: int, b: int) -> int {
    if a >= 0 {
        a / b
    } else {
        -((-a) / b)
    }
}

/// Whole seconds in a parsed number of milliseconds, or `default` where
/// nothing was parsed.
pub open spec fn seconds_or(parsed: Option<i64>, default: int) -> int {
    match parsed {
        Some(m) => div_toward_zero(m as int, 1000),
        None => default,
    }
}

/// Seconds that an expression stands for, or `default` where it is absent
/// or does not parse.
pub open spec fn lookback_spec(expr: Option<Seq<char>>, default: int) -> int {
    match expr {
        None => default,
        Some(s) => seconds_or(ms_value(s), default),
    }
}

/// Whole seconds, rounded toward zero, in a parsed number of milliseconds;
/// `default` where the expression did not parse.
pub fn seconds_from_ms(parsed: Option<i64>, default: i64) -> (r: i64)
    ensures
        r == seconds_or(parsed, default as int),
{
    match parsed {
        Some(m) => m / 1000,
        None => default,
    }
}

/// How many seconds before now an optional duration expression points;
/// an absent or unreadable expression stands for `default`.
pub fn lookback_seconds(expr: &Option<String>, default: i64) -> (r: i64)
    ensures
        r == lookback_spec(opt_view(*expr), default as int),
{
    match expr {
        None => default,
        Some(s) => seconds_from_ms(parse_ms(s), default),
    }
}

/// An absolute time range in epoch seconds. `start <= end` is not enforced:
/// the expressions it comes from are taken as given.
#[derive(PartialEq, Eq, Structural, Clone, Copy, Debug)]
pub struct TimeWindow {
    pub start: i64,
    pub end: i64,
}

/// The window that `start` and `end` expressions give at instant `now`:
/// `None` where an end of it does not fit in an `i64`.
pub open spec fn window_spec(now: int, start: Option<Seq<char>>, end: Option<Seq<char>>) -> Option<TimeWindow> {
    let s = now - lookback_spec(start, ONE_HOUR_IN_SECONDS as int);
    let e = now - lookback_spec(end, 0);
    if i64::MIN <= s <= i64::MAX && i64::MIN <= e <= i64::MAX {
        Some(TimeWindow { start: s as i64, end: e as i64 })
    } else {
        None
    }
}

/// Resolves the window at instant `now`: the start lies `start` before now
/// (an hour where it is absent or unreadable), the end lies `end` before now
/// (now itself where it is absent or unreadable).
pub fn resolve_window(now: i64, start: &Option<String>, end: &Option<String>) -> (r: Option<TimeWindow>)
    ensures
        r == window_spec(now as int, opt_view(*start), opt_view(*end)),
{
    let back = lookback_seconds(start, ONE_HOUR_IN_SECONDS);
    let ahead = lookback_seconds(end, 0);
    match (now.checked_sub(back), now.checked_sub(ahead)) {
        (Some(s), Some(e)) => Some(TimeWindow { start: s, end: e }),
        _ => None,
    }
}

/// With neither expression given, the window is the hour up to now.
pub proof fn lemma_default_window(now: i64)
    requires
        now - 3600 >= i64::MIN,
    ensures
        window_spec(now as int, None, None) == Some(TimeWindow { start: (now - 3600) as i64, end: now }),
{
}

/// An expression that does not parse resolves exactly as an absent one, at
/// either end of the window.
pub proof fn lemma_unreadable_is_absent(now: i64, s: Seq<char>, other: Option<Seq<char>>)
    ensures
        ms_value(s) is None ==> window_spec(now as int, Some(s), other) == window_spec(now as int, None, other),
        ms_value(s) is None ==> window_spec(now as int, other, Some(s)) == window_spec(now as int, other, None),
        ms_value(s) is None && window_spec(now as int, Some(s), other) is Some ==> {
            let w = window_spec(now as int, Some(s), other)->Some_0;
            &&& w.start == now - 3600
            &&& w.end == now - lookback_spec(other, 0)
        },
{
}

/// Relies on `chrono::Utc::now` and `DateTime::timestamp`: the current
/// instant in epoch seconds, never before 1970 (chrono panics on a clock that
/// reads earlier).
#[verifier::external_body]
fn now_seconds() -> (r: i64)
    ensures
        r >= 0,
{
    chrono::Utc::now().timestamp()
}

/// Captures the current instant once and resolves the window against it;
/// returns the instant with the window.
pub fn window_now(start: &Option<String>, end: &Option<String>) -> (r: (i64, Option<TimeWindow>))
    ensures
        r.0 >= 0,
        r.1 == window_spec(r.0 as int, opt_view(*start), opt_view(*end)),
{
    let now = now_seconds();
    (now, resolve_window(now, start, end))
}

/// The text that chrono gives an instant of epoch seconds as a UTC date and
/// time, or `None` where the instant is out of its range.
pub uninterp spec fn utc_text(secs: int) -> Option<Seq<char>>;

/// Relies on `chrono::NaiveDateTime::from_timestamp_opt` and the `Display`
/// of `NaiveDateTime`: the instant as a date and time, `None` out of range.
#[verifier::external_body]
#[allow(deprecated)]
fn utc_text_of(secs: i64) -> (r: Option<String>)
    ensures
        opt_view(r) == utc_text(secs as int),
{
    match chrono::NaiveDateTime::from_timestamp_opt(secs, 0) {
        Some(d) => Some(d.to_string()),
        None => None,
    }
}

/// The diagnostic line that reports a window and the instant it was
/// resolved at.
pub open spec fn report_spec(now: int, w: TimeWindow) -> Option<Seq<char>> {
    match (utc_text(w.start as int), utc_text(w.end as int), utc_text(now)) {
        (Some(a), Some(b), Some(c)) => Some(report_text(a, b, c)),
        _ => None,
    }
}

/// The diagnostic line for a window from `start` to `end`, resolved at
/// `now`, each given as a date text.
pub open spec fn report_text(start: Seq<char>, end: Seq<char>, now: Seq<char>) -> Seq<char> {
    "Listing events between "@ + start + " GMT and "@ + end + " GMT and now is "@ + now + " GMT"@
}

/// Writes the diagnostic line from the three date texts.
pub fn report_line(start: &String, end: &String, now: &String) -> (r: String)
    ensures
        r@ == report_text(start@, end@, now@),
{
    let mut line = String::from_str("Listing events between ");
    line.append(start.as_str());
    line.append(" GMT and ");
    line.append(end.as_str());
    line.append(" GMT and now is ");
    line.append(now.as_str());
    line.append(" GMT");
    line
}

/// Writes the diagnostic line for a window; `None` where an instant cannot
/// be written as a date.
pub fn window_report(now: i64, w: TimeWindow) -> (r: Option<String>)
    ensures
        opt_view(r) == report_spec(now as int, w),
{
    match (utc_text_of(w.start), utc_text_of(w.end), utc_text_of(now)) {
        (Some(a), Some(b), Some(c)) => Some(report_line(&a, &b, &c)),
        _ => None,
    }
}

} // verus!
