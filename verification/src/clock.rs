//! The moment of generation, and how it is written.

use vstd::prelude::*;
use vstd::string::*;

verus! {

/// The pattern of the time in a document's heading.
pub const DATE_TIME: &'static str = "%Y-%m-%d %H:%M:%S";

/// The pattern of the time in a document's file name.
pub const COMPACT: &'static str = "%Y%m%d_%H%M%S";

/// A moment as the host's clock gave it: seconds since the start of 1970 in
/// universal time, and how many seconds local time is ahead of it.
#[derive(Debug, Clone, Copy, PartialEq, Eq, Structural)]
pub struct Moment {
    pub seconds: i64,
    pub offset: i32,
}

/// The text that chrono writes for the moment `seconds` in the zone
/// `offset` seconds east of universal time, after `pattern`; `None` where
/// chrono has no date for the moment or no zone for the offset.
pub uninterp spec fn time_text(seconds: int, offset: int, pattern: Seq<char>) -> Option<Seq<char>>;

/// Writes a moment with chrono: `chrono::DateTime::from_timestamp` makes the
/// moment, `chrono::FixedOffset::east_opt` the zone, `DateTime::with_timezone`
/// moves the one into the other and `DateTime::format` writes it. Trusted:
/// what comes back depends on the three arguments alone, so that it is
/// `time_text` of them. Nothing is claimed of what the text holds. Only the
/// two patterns of this module are admitted: they hold no specifier that
/// chrono does not know, on which writing would panic.
#[verifier::external_body]
fn write_time(seconds: i64, offset: i32, pattern: &str) -> (text: Option<String>)
    requires
        pattern@ == DATE_TIME@ || pattern@ == COMPACT@,
    ensures
        text.deep_view() == time_text(seconds as int, offset as int, pattern@),
{
    let utc = chrono::DateTime::from_timestamp(seconds, 0)?;
    let zone = chrono::FixedOffset::east_opt(offset)?;
    Some(utc.with_timezone(&zone).format(pattern).to_string())
}

impl Moment {
    /// The moment as a document's heading shows it.
    pub fn heading_text(&self) -> (text: Option<String>)
        ensures
            text.deep_view() == time_text(self.seconds as int, self.offset as int, DATE_TIME@),
    {
        write_time(self.seconds, self.offset, DATE_TIME)
    }

    /// The moment as a document's file name shows it.
    pub fn stamp(&self) -> (text: Option<String>)
        ensures
            text.deep_view() == time_text(self.seconds as int, self.offset as int, COMPACT@),
    {
        write_time(self.seconds, self.offset, COMPACT)
    }
}

} // verus!
