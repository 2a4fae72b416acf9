//! The instant at which a track was added, and its passage to and from the
//! RFC 3339 text that manifests carry.

use vstd::prelude::*;

verus! {

/// What chrono prints for the instant `secs` seconds and `nanos` nanoseconds
/// after the Unix epoch: `DateTime::from_timestamp`, then
/// `DateTime::to_rfc3339_opts` with `SecondsFormat::AutoSi` and `Z` for UTC.
/// Nothing where chrono has no date for these numbers.
pub uninterp spec fn rfc3339_text(secs: int, nanos: int) -> Option<Seq<char>>;

/// What chrono reads from a text with `str::parse::<DateTime<Utc>>`: seconds
/// and nanoseconds after the Unix epoch, or nothing where the text is no
/// date and time.
pub uninterp spec fn rfc3339_parsed(text: Seq<char>) -> Option<(int, int)>;

/// An instant as a pair of numbers.
pub struct Instant {
    pub secs: int,
    pub nanos: int,
}

/// The RFC 3339 text of an instant, where it has one.
pub open spec fn spec_instant_text(instant: Instant) -> Option<Seq<char>> {
    rfc3339_text(instant.secs, instant.nanos)
}

/// The instant that a text denotes, where it denotes one.
pub open spec fn spec_parse_instant(text: Seq<char>) -> Option<Instant> {
    match rfc3339_parsed(text) {
        Some(pair) => Some(Instant { secs: pair.0, nanos: pair.1 }),
        None => None,
    }
}

/// An instant in UTC that can be written as RFC 3339 text.
#[derive(Debug, Clone, Copy, PartialEq, Eq, Hash)]
pub struct Timestamp {
    secs: i64,
    nanos: u32,
}

impl View for Timestamp {
    type V = Instant;

    closed spec fn view(&self) -> Instant {
        Instant { secs: self.secs as int, nanos: self.nanos as int }
    }
}

/// Calls `DateTime::from_timestamp` and, on the date it gives,
/// `DateTime::to_rfc3339_opts(SecondsFormat::AutoSi, true)`. The contract
/// gives the outcome its name, [`rfc3339_text`].
#[verifier::external_body]
fn format_instant(secs: i64, nanos: u32) -> (r: Option<String>)
    ensures
        r matches Some(text) ==> rfc3339_text(secs as int, nanos as int) == Some(text@),
        r is None ==> rfc3339_text(secs as int, nanos as int) is None,
{
    chrono::DateTime::from_timestamp(secs, nanos).map(
        |date| date.to_rfc3339_opts(chrono::SecondsFormat::AutoSi, true),
    )
}

/// Calls `str::parse::<DateTime<Utc>>` and takes the date apart with
/// `DateTime::timestamp` and `DateTime::timestamp_subsec_nanos`. The
/// contract gives the outcome its name, [`rfc3339_parsed`], and adds what
/// chrono documents of these two numbers: `DateTime::from_timestamp` accepts
/// them again, so the instant has a text.
#[verifier::external_body]
fn parse_instant(text: &str) -> (r: Option<(i64, u32)>)
    ensures
        r matches Some(pair) ==> rfc3339_parsed(text@) == Some((pair.0 as int, pair.1 as int))
            && rfc3339_text(pair.0 as int, pair.1 as int) is Some,
        r is None ==> rfc3339_parsed(text@) is None,
{
    text.parse::<chrono::DateTime<chrono::Utc>>().ok().map(
        |date| (date.timestamp(), date.timestamp_subsec_nanos()),
    )
}

/// Calls `Utc::now` and takes the date apart with `DateTime::timestamp` and
/// `DateTime::timestamp_subsec_nanos`. Which instant comes back is open; the
/// contract states only what chrono documents of these two numbers:
/// `DateTime::from_timestamp` accepts them again, so the instant has a text.
/// chrono gives up where the system clock stands before 1970.
#[verifier::external_body]
fn current_instant() -> (r: (i64, u32))
    ensures
        rfc3339_text(r.0 as int, r.1 as int) is Some,
{
    let date = chrono::Utc::now();
    (date.timestamp(), date.timestamp_subsec_nanos())
}

impl Timestamp {
    #[verifier::type_invariant]
    spec fn has_text(self) -> bool {
        rfc3339_text(self.secs as int, self.nanos as int) is Some
    }

    /// The instant `secs` seconds and `nanos` nanoseconds after the Unix
    /// epoch, where it can be written as RFC 3339 text.
    pub fn new(secs: i64, nanos: u32) -> (r: Option<Timestamp>)
        ensures
            match r {
                Some(t) => t@ == (Instant { secs: secs as int, nanos: nanos as int })
                    && spec_instant_text(t@) is Some,
                None => rfc3339_text(secs as int, nanos as int) is None,
            },
    {
        match format_instant(secs, nanos) {
            Some(_) => Some(Timestamp { secs, nanos }),
            None => None,
        }
    }

    /// The current instant.
    pub fn now() -> (r: Timestamp)
        ensures
            spec_instant_text(r@) is Some,
    {
        let pair = current_instant();
        Timestamp { secs: pair.0, nanos: pair.1 }
    }

    /// The instant that an RFC 3339 text denotes.
    pub fn parse(text: &str) -> (r: Option<Timestamp>)
        ensures
            match r {
                Some(t) => spec_parse_instant(text@) == Some(t@),
                None => spec_parse_instant(text@) is None,
            },
    {
        match parse_instant(text) {
            Some(pair) => Some(Timestamp { secs: pair.0, nanos: pair.1 }),
            None => None,
        }
    }

    /// The RFC 3339 text of the instant.
    pub fn to_text(&self) -> (r: String)
        ensures
            spec_instant_text(self@) == Some(r@),
    {
        proof {
            use_type_invariant(self);
        }
        match format_instant(self.secs, self.nanos) {
            Some(text) => text,
            None => String::new(),
        }
    }

    /// Whole seconds since the Unix epoch.
    pub fn secs(&self) -> (r: i64)
        ensures
            r == self@.secs,
    {
        self.secs
    }

    /// Nanoseconds since the last whole second.
    pub fn nanos(&self) -> (r: u32)
        ensures
            r == self@.nanos,
    {
        self.nanos
    }
}

/// The content of an optional timestamp.
pub open spec fn date_view(date: Option<Timestamp>) -> Option<Instant> {
    match date {
        Some(t) => Some(t@),
        None => None,
    }
}

} // verus!
