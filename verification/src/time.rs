use vstd::prelude::*;

verus! {

/// Earliest whole second (since the Unix epoch) that chrono can represent:
/// the first second of January 1 of year -262143.
pub const MIN_TIMESTAMP: i64 = -8334601228800i64;

/// Latest whole second (since the Unix epoch) that chrono can represent:
/// the last second of December 31 of year 262142.
pub const MAX_TIMESTAMP: i64 = 8210266876799i64;

/// A point on the UTC time line: whole seconds since the Unix epoch and the
/// nanoseconds into that second (a leap second carries up to 1_999_999_999).
#[derive(Clone, Copy, Debug, PartialEq, Eq, Structural)]
pub struct UtcInstant {
    pub secs: i64,
    pub nanos: u32,
}

impl UtcInstant {
    /// Nanoseconds since the Unix epoch.
    pub open spec fn total_nanos(self) -> int {
        self.secs * 1_000_000_000 + self.nanos
    }

    /// Nanoseconds since the Unix epoch, as a machine integer.
    pub fn nanos_since_epoch(&self) -> (r: i128)
        ensures
            r == self.total_nanos(),
    {
        (self.secs as i128) * 1_000_000_000i128 + (self.nanos as i128)
    }
}

/// What `chrono::DateTime::<chrono::Utc>::from_str` makes of a text:
/// the whole seconds and the nanoseconds of the parsed instant, or `None`
/// when the text is not a date and time with an offset.
pub uninterp spec fn parsed_utc_instant(text: Seq<char>) -> Option<(i64, u32)>;

/// What `chrono::Utc.timestamp_millis_opt(millis)` formatted with `pattern`
/// gives, or `None` when the instant lies outside chrono's range.
pub uninterp spec fn utc_millis_text(millis: i64, pattern: Seq<char>) -> Option<Seq<char>>;

/// Reads the clock through `chrono::Utc::now()`. The value depends on the
/// clock, so nothing is said of it but what chrono's source shows of every
/// value it returns: the seconds since the epoch of the system clock, which
/// are not negative (it panics for a clock before 1970) and lie within
/// chrono's range, and the nanoseconds within that second.
#[verifier::external_body]
pub(crate) fn utc_now() -> (r: UtcInstant)
    ensures
        0 <= r.secs <= MAX_TIMESTAMP,
        r.nanos < 1_000_000_000,
{
    let t = chrono::Utc::now();
    UtcInstant { secs: t.timestamp(), nanos: t.timestamp_subsec_nanos() }
}

/// Parses `text` with `<chrono::DateTime<chrono::Utc> as FromStr>::from_str`
/// and reads back the timestamp and its sub-second nanoseconds. The result is
/// named, not described: chrono's accepted formats take pages to state.
#[verifier::external_body]
pub(crate) fn parse_utc(text: &str) -> (r: Option<(i64, u32)>)
    ensures
        r == parsed_utc_instant(text@),
{
    match text.parse::<chrono::DateTime<chrono::Utc>>() {
        Ok(t) => Some((t.timestamp(), t.timestamp_subsec_nanos())),
        Err(_) => None,
    }
}

/// The formatting patterns the library hands to chrono, all made of
/// directives chrono knows: with an unknown directive or a trailing `%`,
/// chrono's formatted value fails to display and `to_string` panics.
pub open spec fn known_date_pattern(pattern: Seq<char>) -> bool {
    pattern == "%Y-%m-%d %H:%M:%S"@
}

/// Turns a count of milliseconds since the Unix epoch into a UTC date and time
/// with `chrono::Utc.timestamp_millis_opt` and formats it with `pattern`, one
/// of the patterns known to format. chrono's source gives a value exactly
/// when the second lies within its range; the text itself is named, not
/// described.
#[verifier::external_body]
pub(crate) fn format_utc_millis(millis: i64, pattern: &str) -> (r: Option<String>)
    requires
        known_date_pattern(pattern@),
    ensures
        match r {
            Some(s) => utc_millis_text(millis, pattern@) == Some(s@),
            None => utc_millis_text(millis, pattern@) is None,
        },
        r is Some <==> (MIN_TIMESTAMP * 1000 <= millis <= MAX_TIMESTAMP * 1000 + 999),
{
    match chrono::TimeZone::timestamp_millis_opt(&chrono::Utc, millis) {
        chrono::LocalResult::Single(t) => Some(t.format(pattern).to_string()),
        chrono::LocalResult::Ambiguous(t, _) => Some(t.format(pattern).to_string()),
        chrono::LocalResult::None => None,
    }
}

} // verus!
