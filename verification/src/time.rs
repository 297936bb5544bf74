//! Points in time, as plain integers, and their rendering in UTC.

use std::fmt::Write;
use vstd::prelude::*;

verus! {

/// A point in time: whole seconds since the Unix epoch and the nanoseconds
/// past that second.
#[derive(Clone, Copy, Debug, PartialEq, Eq, Hash, Structural)]
pub struct Timestamp {
    pub secs: i64,
    pub nanos: u32,
}

/// The text that `chrono` renders for the UTC time `secs`/`nanos` under the
/// strftime pattern `fmt`; `None` where the time is out of `chrono`'s range
/// or the pattern is not one it accepts.
pub uninterp spec fn utc_text(secs: int, nanos: int, fmt: Seq<char>) -> Option<Seq<char>>;

/// Calls `chrono::Utc::now` and takes the result apart with
/// `DateTime::timestamp` and `DateTime::timestamp_subsec_nanos`. Nothing is
/// claimed of the value: it is whatever the system clock says. `chrono`
/// aborts where the clock is set before the Unix epoch.
#[verifier::external_body]
pub(crate) fn utc_now() -> (now: Timestamp) {
    let t = chrono::Utc::now();
    Timestamp { secs: t.timestamp(), nanos: t.timestamp_subsec_nanos() }
}

/// Calls `chrono::DateTime::from_timestamp` and writes the result of
/// `DateTime::format` into a string. The contract names the text: it depends
/// on the three arguments alone, since the time zone is fixed to UTC and no
/// locale is involved. `None` stands for a time that `from_timestamp` refuses
/// or a pattern whose rendering reports an error.
#[verifier::external_body]
fn utc_format(secs: i64, nanos: u32, fmt: &str) -> (out: Option<String>)
    ensures
        match out {
            Some(s) => utc_text(secs as int, nanos as int, fmt@) == Some(s@),
            None => utc_text(secs as int, nanos as int, fmt@) is None,
        },
{
    let t = chrono::DateTime::from_timestamp(secs, nanos)?;
    let mut s = String::new();
    match write!(s, "{}", t.format(fmt)) {
        Ok(()) => Some(s),
        Err(_) => None,
    }
}

impl Timestamp {
    /// The time `secs` seconds and `nanos` nanoseconds after the Unix epoch.
    pub fn new(secs: i64, nanos: u32) -> (out: Timestamp)
        ensures
            out == (Timestamp { secs, nanos }),
    {
        Timestamp { secs, nanos }
    }

    /// The text of this time under `fmt`, as a specification value.
    pub open spec fn text(self, fmt: Seq<char>) -> Option<Seq<char>> {
        utc_text(self.secs as int, self.nanos as int, fmt)
    }

    /// Renders this time in UTC under the strftime pattern `fmt`.
    pub fn format(&self, fmt: &str) -> (out: Option<String>)
        ensures
            match out {
                Some(s) => self.text(fmt@) == Some(s@),
                None => self.text(fmt@) is None,
            },
    {
        utc_format(self.secs, self.nanos, fmt)
    }

    /// The text of this time under `fmt`, or the empty text where there is
    /// none.
    pub open spec fn text_or_empty(self, fmt: Seq<char>) -> Seq<char> {
        match self.text(fmt) {
            Some(s) => s,
            None => Seq::empty(),
        }
    }

    /// Renders this time under `fmt`; a time or pattern that cannot be
    /// rendered gives the empty string.
    pub fn format_or_empty(&self, fmt: &str) -> (out: String)
        ensures
            out@ == self.text_or_empty(fmt@),
    {
        match self.format(fmt) {
            Some(s) => s,
            None => String::new(),
        }
    }
}

} // verus!
