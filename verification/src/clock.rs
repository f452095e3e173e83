//! The wall clock, read through `chrono`.

use vstd::prelude::*;

verus! {

/// One second in nanoseconds.
pub const NANOS_PER_SECOND: u32 = 1_000_000_000;

/// An instant in UTC: whole seconds since 1970-01-01 00:00:00, and the
/// nanoseconds into that second.
#[derive(Clone, Copy, Debug, PartialEq, Eq, Structural)]
pub struct Timestamp {
    pub seconds: i64,
    pub nanos: u32,
}

impl Timestamp {
    /// The nanosecond part stays within its second.
    pub open spec fn wf(self) -> bool {
        self.nanos < NANOS_PER_SECOND
    }

    /// An instant from its two parts; `None` where the nanoseconds do not
    /// fit into one second.
    pub fn new(seconds: i64, nanos: u32) -> (made: Option<Timestamp>)
        ensures
            made == if nanos < NANOS_PER_SECOND {
                Some(Timestamp { seconds, nanos })
            } else {
                None
            },
    {
        if nanos < NANOS_PER_SECOND {
            Some(Timestamp { seconds, nanos })
        } else {
            None
        }
    }
}

/// Reads the system clock with `chrono::Utc::now` and takes the instant apart
/// with `DateTime::timestamp` and `DateTime::timestamp_subsec_nanos`.
///
/// Not proved: that the nanosecond part is below one second. `Utc::now`
/// builds its value from a `std::time::Duration` since the Unix epoch, whose
/// sub-second part is below one second by std's documentation, so no leap
/// second is ever represented. Nothing is claimed of the seconds: they are
/// whatever the clock says. `Utc::now` itself fails on a clock that is set
/// before the Unix epoch.
#[verifier::external_body]
pub(crate) fn read_clock() -> (now: Timestamp)
    ensures
        now.wf(),
{
    let now = chrono::Utc::now();
    Timestamp { seconds: now.timestamp(), nanos: now.timestamp_subsec_nanos() }
}

} // verus!
