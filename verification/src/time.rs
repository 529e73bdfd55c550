//! Points in time and their RFC 3339 text.

use vstd::prelude::*;

verus! {

/// A point in time: the whole seconds since 1970-01-01T00:00:00Z, negative
/// before it, and the nanoseconds that have passed of the next second.
#[derive(Clone, Copy, Debug, PartialEq, Eq)]
pub struct Timestamp {
    pub secs: i64,
    pub nanos: u32,
}

/// The RFC 3339 text, in UTC, of the point in time that lies `secs` seconds
/// and `nanos` nanoseconds after 1970-01-01T00:00:00Z; `None` for numbers
/// that stand for no date and time, the seconds being out of range or the
/// nanoseconds invalid.
pub uninterp spec fn rfc3339_utc(secs: int, nanos: int) -> Option<Seq<char>>;

/// Renders a point in time with `chrono`: `DateTime::from_timestamp` makes
/// the UTC date and time from the two numbers, and gives none where the
/// seconds are out of its range or the nanoseconds are invalid;
/// `DateTime::to_rfc3339` writes it as text. The text is a function of the
/// two numbers alone, and it is named `rfc3339_utc`.
#[verifier::external_body]
fn format_rfc3339(secs: i64, nanos: u32) -> (out: Option<String>)
    ensures
        out matches Some(text) ==> rfc3339_utc(secs as int, nanos as int) == Some(text@),
        out is None ==> rfc3339_utc(secs as int, nanos as int) is None,
{
    match chrono::DateTime::from_timestamp(secs, nanos) {
        Some(instant) => Some(instant.to_rfc3339()),
        None => None,
    }
}

/// Reads the clock with `chrono`: `Utc::now` gives the current date and time
/// in UTC, of which `DateTime::timestamp` and
/// `DateTime::timestamp_subsec_nanos` give the two numbers. Nothing is said
/// of the result: it is whatever the clock of the machine shows. `Utc::now`
/// returns wherever that clock is not set before the year 1970.
#[verifier::external_body]
fn current_time() -> Timestamp {
    let now = chrono::Utc::now();
    Timestamp { secs: now.timestamp(), nanos: now.timestamp_subsec_nanos() }
}

/// The text of a time that may be unknown or beyond rendering.
pub open spec fn rendered(time: Option<Timestamp>) -> Option<Seq<char>> {
    match time {
        Some(t) => rfc3339_utc(t.secs as int, t.nanos as int),
        None => None,
    }
}

/// The text that stands for a time: its rendering, or `fallback` where
/// there is none.
pub open spec fn text_or_fallback(text: Option<Seq<char>>, fallback: Seq<char>) -> Seq<char> {
    match text {
        Some(t) => t,
        None => fallback,
    }
}

/// Renders `time` as RFC 3339 text, where it is known and can be rendered.
pub fn render_time(time: Option<Timestamp>) -> (out: Option<String>)
    ensures
        out matches Some(text) ==> rendered(time) == Some(text@),
        out is None ==> rendered(time) is None,
{
    match time {
        Some(t) => format_rfc3339(t.secs, t.nanos),
        None => None,
    }
}

/// The text of a clock that shows `now`: the rendering of that time, and no
/// text at all for a time beyond rendering.
pub open spec fn clock_text(now: Timestamp) -> Seq<char> {
    text_or_fallback(rendered(Some(now)), Seq::empty())
}

/// The current time as RFC 3339 text: the text of the clock, whatever it
/// shows.
pub fn current_time_text() -> (out: String)
    ensures
        exists|now: Timestamp| out@ == clock_text(now),
{
    let now = current_time();
    proof {
        reveal_strlit("");
    }
    let out = time_text(render_time(Some(now)), "");
    assert(out@ == clock_text(now));
    out
}

/// Picks the text of a time: `text` itself, or `fallback` where the time
/// could not be had.
pub fn time_text(text: Option<String>, fallback: &str) -> (out: String)
    ensures
        out@ == (match text {
            Some(t) => t@,
            None => fallback@,
        }),
{
    match text {
        Some(t) => t,
        None => fallback.to_owned(),
    }
}

} // verus!
