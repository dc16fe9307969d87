//! Points in time, read from the feed's timestamps and written out for
//! readers.

use vstd::prelude::*;

verus! {

/// The earliest second, counted from 1970-01-01T00:00:00Z, that a calendar
/// date can be given for (January 1 of 262144 BCE).
pub const EARLIEST_SECOND: i64 = -8334601228800;

/// The latest second, counted from 1970-01-01T00:00:00Z, that a calendar date
/// can be given for (December 31 of 262142 CE, 23:59:59).
pub const LATEST_SECOND: i64 = 8210266876799;

/// Whether `secs`, counted from 1970-01-01T00:00:00Z, has a calendar date.
pub open spec fn in_calendar(secs: int) -> bool {
    EARLIEST_SECOND <= secs <= LATEST_SECOND
}

/// A point in time, in whole seconds from 1970-01-01T00:00:00Z, within the
/// range that has calendar dates.
pub struct Instant {
    secs: i64,
}

impl Instant {
    #[verifier::type_invariant]
    spec fn inv(self) -> bool {
        in_calendar(self.secs as int)
    }

    /// The seconds from 1970-01-01T00:00:00Z.
    pub closed spec fn seconds(self) -> int {
        self.secs as int
    }

    /// The instant `secs` seconds after 1970-01-01T00:00:00Z, if it has a
    /// calendar date.
    pub fn from_unix_seconds(secs: i64) -> (r: Option<Instant>)
        ensures
            r is Some <==> in_calendar(secs as int),
            r matches Some(t) ==> t.seconds() == secs,
    {
        if EARLIEST_SECOND <= secs && secs <= LATEST_SECOND {
            Some(Instant { secs })
        } else {
            None
        }
    }

    /// The seconds from 1970-01-01T00:00:00Z.
    pub fn unix_seconds(&self) -> (r: i64)
        ensures
            r as int == self.seconds(),
            in_calendar(r as int),
    {
        proof {
            use_type_invariant(self);
        }
        self.secs
    }
}

/// The instant that an RFC 3339 timestamp (a space may stand for the `T`)
/// names, in seconds from 1970-01-01T00:00:00Z; `None` where the text is not
/// such a timestamp.
pub uninterp spec fn instant_of(s: Seq<char>) -> Option<int>;

/// Relies on chrono's `FromStr` for `DateTime<Utc>` and on
/// `DateTime::timestamp`: the parsed instant depends on the text alone, and
/// every `DateTime<Utc>` lies in the calendar range.
#[verifier::external_body]
fn parse_timestamp(s: &str) -> (r: Option<i64>)
    ensures
        r matches Some(t) ==> (instant_of(s@) == Some(t as int) && in_calendar(t as int)),
        r is None ==> instant_of(s@) is None,
{
    s.parse::<chrono::DateTime<chrono::Utc>>().ok().map(|d| d.timestamp())
}

/// The reader-facing form of an instant, such as `Sun Jul  8 00:34:59 2001`:
/// weekday, month, day padded to two columns, time of day, year.
pub uninterp spec fn date_text(secs: int) -> Seq<char>;

/// Relies on chrono's `DateTime::from_timestamp`, which gives a value for
/// every second in the calendar range, and on its `format` with
/// `%a %b %e %T %Y`: the text depends on the instant alone.
#[verifier::external_body]
fn format_timestamp(secs: i64) -> (r: String)
    requires
        in_calendar(secs as int),
    ensures
        r@ == date_text(secs as int),
{
    let d = chrono::DateTime::from_timestamp(secs, 0).unwrap();
    d.format("%a %b %e %T %Y").to_string()
}

/// The reader-facing form of an instant.
pub fn format_instant(t: &Instant) -> (r: String)
    ensures
        r@ == date_text(t.seconds()),
{
    format_timestamp(t.unix_seconds())
}

/// The instant that a story or a comment is dated: its timestamp where that
/// parses, else the current time handed in.
pub open spec fn dated(created_at: Seq<char>, now: Instant) -> int {
    match instant_of(created_at) {
        Some(t) => t,
        None => now.seconds(),
    }
}

/// The reader-facing date of a timestamp; where the timestamp does not parse,
/// the date of `now`.
pub fn pretty_date(created_at: &str, now: &Instant) -> (r: String)
    ensures
        r@ == date_text(dated(created_at@, *now)),
        instant_of(created_at@) is None ==> r@ == date_text(now.seconds()),
{
    match parse_timestamp(created_at) {
        Some(t) => format_timestamp(t),
        None => format_instant(now),
    }
}

} // verus!
