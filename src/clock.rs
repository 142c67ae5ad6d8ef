use vstd::prelude::*;

use chrono::{DateTime, Utc};

verus! {

/// The earliest whole second a chrono date-time can hold, counted from the
/// Unix epoch: January 1, 262144 BCE, 00:00:00 UTC.
pub const EARLIEST_SECS: i64 = -8_334_601_228_800;

/// The latest whole second a chrono date-time can hold, counted from the
/// Unix epoch: December 31, 262142 CE, 23:59:59 UTC.
pub const LATEST_SECS: i64 = 8_210_266_876_799;

/// Nanoseconds in one second.
pub const NANOS_PER_SEC: u32 = 1_000_000_000;

/// An instant in UTC: whole seconds since the Unix epoch, and the
/// nanoseconds within that second. Leap seconds are not represented.
#[derive(Clone, Copy, Debug, PartialEq, Eq, Structural)]
pub struct UtcInstant {
    pub secs: i64,
    pub nanos: u32,
}

/// The RFC 3339 text that chrono writes for an instant in UTC: date, time,
/// as many fractional digits as the nanoseconds need (none, 3, 6 or 9), and
/// the offset `+00:00`.
pub uninterp spec fn rfc3339_of(secs: int, nanos: int) -> Seq<char>;

impl UtcInstant {
    /// The seconds lie in chrono's range and the nanoseconds within one second.
    pub open spec fn wf(&self) -> bool {
        &&& EARLIEST_SECS <= self.secs <= LATEST_SECS
        &&& self.nanos < NANOS_PER_SEC
    }

    /// Whether this instant can be written out (see `wf`).
    pub fn is_valid(&self) -> (r: bool)
        ensures
            r == self.wf(),
    {
        EARLIEST_SECS <= self.secs && self.secs <= LATEST_SECS && self.nanos < NANOS_PER_SEC
    }

    /// The instant as an RFC 3339 date-time in UTC.
    pub fn to_rfc3339(&self) -> (r: String)
        requires
            self.wf(),
        ensures
            r@ == rfc3339_of(self.secs as int, self.nanos as int),
    {
        format_rfc3339(self)
    }
}

/// Relies on `chrono::Utc::now`, read back with `DateTime::timestamp` and
/// `DateTime::timestamp_subsec_nanos`. Every chrono date-time lies between
/// `NaiveDate::MIN` and `NaiveDate::MAX`, whose seconds are the two bounds
/// above; `Utc::now` builds its value from `Duration::subsec_nanos`, which is
/// below one billion. `Utc::now` panics when the system clock reads a time
/// before the Unix epoch, a state of the machine that no argument can exclude.
#[verifier::external_body]
pub(crate) fn clock_now() -> (r: UtcInstant)
    ensures
        r.wf(),
{
    let now = Utc::now();
    UtcInstant { secs: now.timestamp(), nanos: now.timestamp_subsec_nanos() }
}

/// Relies on `DateTime::from_timestamp`, which returns a date-time for every
/// second between `NaiveDate::MIN` and `NaiveDate::MAX` with fewer than one
/// billion nanoseconds, and on `DateTime::to_rfc3339`, whose text depends on
/// the instant alone.
#[verifier::external_body]
fn format_rfc3339(t: &UtcInstant) -> (r: String)
    requires
        t.wf(),
    ensures
        r@ == rfc3339_of(t.secs as int, t.nanos as int),
{
    DateTime::<Utc>::from_timestamp(t.secs, t.nanos).expect("instant within chrono's range").to_rfc3339()
}

} // verus!
