//! Instants: points in time, counted in seconds and nanoseconds from the
//! Unix epoch, and the calendar that tells which of them name a date.

use vstd::prelude::*;
use crate::record::text;

verus! {

/// A point in time: whole seconds since the Unix epoch and the nanoseconds
/// after them.
#[derive(Clone, Copy, Debug, PartialEq, Eq, Structural)]
pub struct Instant {
    pub seconds: i64,
    pub nanos: u32,
}

/// A point in time as a request carries it.
#[derive(Clone, Copy, Debug, PartialEq, Eq, Structural)]
pub struct Timestamp {
    pub seconds: i64,
    pub nanos: i32,
}

/// The date and time of an instant as chrono prints them, or `None` where
/// chrono has no date and time for the instant.
pub uninterp spec fn calendar_text(seconds: i64, nanos: u32) -> Option<Seq<char>>;

/// Makes a date and time with `chrono::DateTime::from_timestamp`, takes its
/// `naive_utc` and renders that with the `Display` impl of
/// `chrono::NaiveDateTime`. Trusted: the result is a function of the two
/// numbers alone. `from_timestamp` returns `None` where the seconds are out
/// of the range of chrono's dates or the nanoseconds are no valid fraction.
#[verifier::external_body]
fn chrono_text(seconds: i64, nanos: u32) -> (rendered: Option<String>)
    ensures
        text(rendered) == calendar_text(seconds, nanos),
{
    match chrono::DateTime::from_timestamp(seconds, nanos) {
        Some(at) => Some(at.naive_utc().to_string()),
        None => None,
    }
}

/// Whether `a` is `b` or comes after it.
pub open spec fn not_before(a: Instant, b: Instant) -> bool {
    a.seconds > b.seconds || (a.seconds == b.seconds && a.nanos >= b.nanos)
}

/// The instant of the whole seconds of a timestamp.
pub open spec fn to_the_second(stamp: Timestamp) -> Instant {
    Instant { seconds: stamp.seconds, nanos: 0 }
}

/// The instant of a timestamp, if its nanoseconds are not negative.
pub open spec fn exact(stamp: Timestamp) -> Option<Instant> {
    if stamp.nanos >= 0 {
        Some(Instant { seconds: stamp.seconds, nanos: stamp.nanos as u32 })
    } else {
        None
    }
}

/// The date and time of an optional instant.
pub open spec fn reading(at: Option<Instant>) -> Option<Seq<char>> {
    match at {
        Some(at) => calendar_text(at.seconds, at.nanos),
        None => None,
    }
}

/// The date and time of the whole seconds of an optional timestamp.
pub open spec fn reading_to_the_second(stamp: Option<Timestamp>) -> Option<Seq<char>> {
    match stamp {
        Some(stamp) => reading(Some(to_the_second(stamp))),
        None => None,
    }
}

/// The date and time of an optional timestamp with its nanoseconds.
pub open spec fn exact_reading(stamp: Option<Timestamp>) -> Option<Seq<char>> {
    match stamp {
        Some(stamp) => reading(exact(stamp)),
        None => None,
    }
}

impl Instant {
    /// The date and time of the instant, where the calendar has it.
    pub fn rendered(&self) -> (rendered: Option<String>)
        ensures
            text(rendered) == calendar_text(self.seconds, self.nanos),
    {
        chrono_text(self.seconds, self.nanos)
    }

    /// Whether this instant is `other` or comes after it.
    pub fn is_not_before(&self, other: &Instant) -> (later: bool)
        ensures
            later == not_before(*self, *other),
    {
        self.seconds > other.seconds || (self.seconds == other.seconds && self.nanos >= other.nanos)
    }
}

impl Timestamp {
    /// The instant of the whole seconds of this timestamp.
    pub fn to_the_second(&self) -> (at: Instant)
        ensures
            at == to_the_second(*self),
    {
        Instant { seconds: self.seconds, nanos: 0 }
    }

    /// The instant of this timestamp, if its nanoseconds are not negative.
    pub fn exact(&self) -> (at: Option<Instant>)
        ensures
            at == exact(*self),
    {
        if self.nanos >= 0 {
            Some(Instant { seconds: self.seconds, nanos: self.nanos as u32 })
        } else {
            None
        }
    }
}

/// Reads the date and time of an optional instant off the calendar.
pub fn read(at: &Option<Instant>) -> (rendered: Option<String>)
    ensures
        text(rendered) == reading(*at),
{
    match at {
        Some(at) => at.rendered(),
        None => None,
    }
}

/// Reads the date and time of the whole seconds of an optional timestamp
/// off the calendar.
pub fn read_to_the_second(stamp: &Option<Timestamp>) -> (rendered: Option<String>)
    ensures
        text(rendered) == reading_to_the_second(*stamp),
{
    match stamp {
        Some(stamp) => stamp.to_the_second().rendered(),
        None => None,
    }
}

/// Reads the date and time of an optional timestamp, with its nanoseconds,
/// off the calendar.
pub fn read_exact(stamp: &Option<Timestamp>) -> (rendered: Option<String>)
    ensures
        text(rendered) == exact_reading(*stamp),
{
    match stamp {
        Some(stamp) => read(&stamp.exact()),
        None => None,
    }
}

} // verus!
