//! The timestamp type of the persisted rows.

use vstd::prelude::*;
use vstd::string::StringExecFns;
use crate::utils::{decimal, u64_to_string};

verus! {

/// Earliest instant a timestamp can denote: midnight of 1 January 262144 BCE.
pub const MIN_TIMESTAMP_MILLIS: i64 = -8_334_601_315_200_000;

/// Latest instant a timestamp can denote: the last millisecond of the year
/// 262142 CE.
pub const MAX_TIMESTAMP_MILLIS: i64 = 8_210_266_876_799_999;

/// Largest number of whole seconds that a duration may span.
pub const MAX_DURATION_SECONDS: i64 = 9_223_372_036_854_775;

/// An instant in UTC, counted in milliseconds since the Unix epoch.
#[derive(Clone, Copy, Debug, PartialEq, Eq, Structural)]
pub struct DbDateTime(pub i64);

impl DbDateTime {
    /// The instant lies in the range of dates that the calendar can name.
    pub open spec fn wf(&self) -> bool {
        MIN_TIMESTAMP_MILLIS <= self.0 <= MAX_TIMESTAMP_MILLIS
    }

    /// The instant `seconds` later, as a number.
    pub open spec fn spec_plus_seconds(&self, seconds: i64) -> int {
        self.0 + seconds * 1000
    }

    /// Reads the system clock.
    ///
    /// Trusted: calls `chrono::Utc::now` and takes `timestamp_millis` of it.
    /// The clock decides the value; all that is claimed is that it lies in
    /// the range that a `DateTime<Utc>` can hold.
    #[verifier::external_body]
    pub fn now() -> (r: Self)
        ensures
            r.wf(),
    {
        DbDateTime(chrono::Utc::now().timestamp_millis())
    }

    /// The instant with the given count of milliseconds, if the calendar can
    /// name it.
    pub fn from_millis(millis: i64) -> (r: Option<Self>)
        ensures
            r == (if MIN_TIMESTAMP_MILLIS <= millis <= MAX_TIMESTAMP_MILLIS {
                Some(DbDateTime(millis))
            } else {
                None
            }),
    {
        if MIN_TIMESTAMP_MILLIS <= millis && millis <= MAX_TIMESTAMP_MILLIS {
            Some(DbDateTime(millis))
        } else {
            None
        }
    }

    /// Milliseconds since the Unix epoch.
    pub fn millis(&self) -> (r: i64)
        ensures
            r == self.0,
    {
        self.0
    }

    /// The instant `seconds` later.
    pub fn plus_seconds(&self, seconds: i64) -> (r: Self)
        requires
            0 <= seconds <= MAX_DURATION_SECONDS,
            self.wf(),
            self.spec_plus_seconds(seconds) <= MAX_TIMESTAMP_MILLIS,
        ensures
            r.0 == self.spec_plus_seconds(seconds),
            r.wf(),
    {
        DbDateTime(self.0 + seconds * 1000)
    }

    /// The text under which an instant is stored: the date and the time of
    /// day to the second, a dot, and the whole milliseconds of the second,
    /// written without leading zeros.
    pub open spec fn spec_sql_text(date_time: Seq<char>, nanoseconds: u32) -> Seq<char> {
        date_time + "."@ + decimal((nanoseconds / 1_000_000) as nat)
    }

    /// The text under which an instant is stored, made from its date and
    /// time of day to the second, as text, and the nanoseconds of its
    /// second.
    pub fn sql_text(date_time: &str, nanoseconds: u32) -> (r: String)
        ensures
            r@ == Self::spec_sql_text(date_time@, nanoseconds),
    {
        let milliseconds = u64_to_string((nanoseconds / 1_000_000) as u64);
        let mut text = String::from_str(date_time);
        text.append(".");
        text.append(milliseconds.as_str());
        text
    }

    /// Whether this instant is strictly earlier than `other`.
    pub fn is_before(&self, other: &DbDateTime) -> (r: bool)
        ensures
            r == (self.0 < other.0),
    {
        self.0 < other.0
    }
}

} // verus!
