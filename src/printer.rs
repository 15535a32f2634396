//! Rendering returned log events as lines of text.
use vstd::prelude::*;

verus! {

/// One event as the log service returns it.
pub struct LogEvent {
    pub message: Option<String>,
    /// Epoch milliseconds.
    pub timestamp: Option<i64>,
}

pub open spec fn opt_view(s: Option<String>) -> Option<Seq<char>> {
    match s {
        Some(m) => Some(m@),
        None => None,
    }
}

/// The RFC 3339 text, in UTC, of the instant `secs` seconds after the Unix
/// epoch; `None` where that instant lies outside the calendar's range.
pub uninterp spec fn utc_rfc3339(secs: int) -> Option<Seq<char>>;

/// Relies on chrono's `DateTime::<Utc>::from_timestamp(secs, 0)`, which
/// returns `None` on an out-of-range number of seconds, and on
/// `DateTime::to_rfc3339` for the text of the instant it returns.
#[verifier::external_body]
fn rfc3339_from_seconds(secs: i64) -> (r: Option<String>)
    ensures
        opt_view(r) == utc_rfc3339(secs as int),
{
    chrono::DateTime::<chrono::Utc>::from_timestamp(secs, 0).map(|d| d.to_rfc3339())
}

/// Whole seconds in a count of milliseconds, rounded toward zero.
pub open spec fn whole_seconds(millis: int) -> int {
    if millis >= 0 {
        millis / 1000
    } else {
        -((-millis) / 1000)
    }
}

/// Whole seconds in `millis`, the sub-second part dropped (toward zero).
pub fn millis_to_seconds(millis: i64) -> (r: i64)
    ensures
        r == whole_seconds(millis as int),
{
    if millis >= 0 {
        millis / 1000
    } else {
        let magnitude: u64 = (-(millis + 1)) as u64 + 1;
        -((magnitude / 1000) as i64)
    }
}

/// The label of an event stamped `millis`: its RFC 3339 text at second
/// resolution, or `fallback` where the instant cannot be represented.
pub open spec fn stamp_label(millis: int, fallback: Seq<char>) -> Seq<char> {
    match utc_rfc3339(whole_seconds(millis)) {
        Some(t) => t,
        None => fallback,
    }
}

pub open spec fn stamped_text(label: Seq<char>, message: Seq<char>) -> Seq<char> {
    "["@ + label + "] "@ + message
}

pub open spec fn unstamped_text(message: Seq<char>) -> Seq<char> {
    "[No Timestamp] "@ + message
}

/// The line printed for an event, if any: none without a message.
pub open spec fn event_text(message: Option<Seq<char>>, timestamp: Option<i64>, fallback: Seq<char>) -> Option<Seq<char>> {
    match message {
        None => None,
        Some(m) => match timestamp {
            Some(t) => Some(stamped_text(stamp_label(t as int, fallback), m)),
            None => Some(unstamped_text(m)),
        },
    }
}

/// The lines printed for a sequence of events, in the order received.
pub open spec fn event_texts(events: Seq<LogEvent>, fallback: Seq<char>) -> Seq<Seq<char>>
    decreases events.len(),
{
    if events.len() == 0 {
        Seq::empty()
    } else {
        let before = event_texts(events.drop_last(), fallback);
        match event_text(opt_view(events.last().message), events.last().timestamp, fallback) {
            Some(line) => before.push(line),
            None => before,
        }
    }
}

/// `[label] message`.
pub fn stamped_line(label: &str, message: &str) -> (r: String)
    ensures
        r@ == stamped_text(label@, message@),
{
    let mut line = String::from_str("[");
    line.append(label);
    line.append("] ");
    line.append(message);
    line
}

/// `[No Timestamp] message`.
pub fn unstamped_line(message: &str) -> (r: String)
    ensures
        r@ == unstamped_text(message@),
{
    let mut line = String::from_str("[No Timestamp] ");
    line.append(message);
    line
}

/// The label for a formatted instant: the formatted text where there is one,
/// else `fallback`.
pub fn label_or_fallback(formatted: Option<String>, fallback: &str) -> (r: String)
    ensures
        r@ == match opt_view(formatted) {
            Some(t) => t,
            None => fallback@,
        },
{
    match formatted {
        Some(t) => t,
        None => String::from_str(fallback),
    }
}

/// The label of an event stamped `millis`: the RFC 3339 text of its whole
/// second in UTC, or `fallback` where that instant cannot be represented.
pub fn timestamp_label(millis: i64, fallback: &str) -> (r: String)
    ensures
        r@ == stamp_label(millis as int, fallback@),
{
    let formatted = rfc3339_from_seconds(millis_to_seconds(millis));
    label_or_fallback(formatted, fallback)
}

/// The line for one event, or `None` for an event without a message.
pub fn event_line(event: &LogEvent, fallback: &str) -> (r: Option<String>)
    ensures
        opt_view(r) == event_text(opt_view(event.message), event.timestamp, fallback@),
{
    match &event.message {
        None => None,
        Some(m) => match event.timestamp {
            Some(t) => {
                let label = timestamp_label(t, fallback);
                Some(stamped_line(label.as_str(), m.as_str()))
            },
            None => Some(unstamped_line(m.as_str())),
        },
    }
}

/// The lines for the events, in the order received; events without a
/// message give none. `fallback` labels an instant that cannot be represented.
pub fn render_events(events: &Vec<LogEvent>, fallback: &str) -> (r: Vec<String>)
    ensures
        r@.map_values(|s: String| s@) == event_texts(events@, fallback@),
{
    let mut lines: Vec<String> = Vec::new();
    let mut i: usize = 0;
    while i < events.len()
        invariant
            i <= events@.len(),
            lines@.map_values(|s: String| s@) == event_texts(events@.subrange(0, i as int), fallback@),
        decreases events@.len() - i,
    {
        let ghost before = lines@.map_values(|s: String| s@);
        let line = event_line(&events[i], fallback);
        proof {
            let prefix = events@.subrange(0, i as int + 1);
            assert(prefix.drop_last() =~= events@.subrange(0, i as int));
            assert(prefix.last() == events@[i as int]);
        }
        match line {
            Some(l) => {
                lines.push(l);
                assert(lines@.map_values(|s: String| s@) =~= before.push(l@));
            },
            None => {},
        }
        i = i + 1;
    }
    assert(events@.subrange(0, events@.len() as int) =~= events@);
    lines
}

} // verus!
