use vstd::prelude::*;

use crate::clock::{rfc3339_of, UtcInstant};
use crate::json::{json_object, members_view, object_text};

verus! {

/// The `status` of every health report.
pub const HEALTHY: &'static str = "healthy";

/// The `message` of every health report.
pub const HEALTH_MESSAGE: &'static str = "Portfolio backend is running!";

/// The members of a health report in the order they are written (keys
/// sorted, as serde_json orders an object's keys).
pub open spec fn health_members(status: Seq<char>, message: Seq<char>, timestamp: Seq<char>) -> Seq<
    (Seq<char>, Seq<char>),
> {
    seq![("message"@, message), ("status"@, status), ("timestamp"@, timestamp)]
}

/// The JSON text of a health report.
pub open spec fn health_json(status: Seq<char>, message: Seq<char>, timestamp: Seq<char>) -> Seq<
    char,
> {
    object_text(health_members(status, message, timestamp))
}

/// The body of a reply to the health check, for a report made at `timestamp`.
pub open spec fn health_body(timestamp: Seq<char>) -> Seq<char> {
    health_json(HEALTHY@, HEALTH_MESSAGE@, timestamp)
}

/// What the health check reports: a fixed status and message, and the time
/// at which the report was made.
#[derive(Debug)]
pub struct HealthStatus {
    pub status: String,
    pub message: String,
    pub timestamp: String,
}

impl HealthStatus {
    /// The report made at the instant `now`.
    pub fn at(now: &UtcInstant) -> (r: HealthStatus)
        requires
            now.wf(),
        ensures
            r.status@ == HEALTHY@,
            r.message@ == HEALTH_MESSAGE@,
            r.timestamp@ == rfc3339_of(now.secs as int, now.nanos as int),
    {
        HealthStatus {
            status: HEALTHY.to_string(),
            message: HEALTH_MESSAGE.to_string(),
            timestamp: now.to_rfc3339(),
        }
    }

    /// The report as a JSON object with the keys `message`, `status` and
    /// `timestamp`, each with a string value.
    pub fn to_json(&self) -> (r: String)
        ensures
            r@ == health_json(self.status@, self.message@, self.timestamp@),
    {
        let members = vec![
            ("message", self.message.as_str()),
            ("status", self.status.as_str()),
            ("timestamp", self.timestamp.as_str()),
        ];
        let r = json_object(&members);
        assert(members_view(members@) =~= health_members(
            self.status@,
            self.message@,
            self.timestamp@,
        ));
        r
    }
}

} // verus!
