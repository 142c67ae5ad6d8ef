use vstd::prelude::*;

use crate::clock::{clock_now, rfc3339_of, UtcInstant};
use crate::health::{health_body, HealthStatus};
use crate::routes::{route, route_of, Route};

verus! {

/// The address the server listens on.
pub const BIND_ADDRESS: &'static str = "0.0.0.0:3000";

/// The body of the greeting at the root.
pub const GREETING: &'static str = "Nathan's Portfolio Backend 🦀";

/// `Content-Type` of a plain-text reply.
pub const TEXT_PLAIN: &'static str = "text/plain; charset=utf-8";

/// `Content-Type` of a JSON reply.
pub const APPLICATION_JSON: &'static str = "application/json";

/// Status code of a reply that was handled.
pub const STATUS_OK: u16 = 200;

/// Status code of a request that no route takes.
pub const STATUS_NOT_FOUND: u16 = 404;

/// The kind of body a reply carries.
#[derive(Clone, Copy, Debug, PartialEq, Eq, Structural)]
pub enum ContentKind {
    PlainText,
    Json,
}

/// The `Content-Type` header value of a kind of body.
pub open spec fn content_type_of(kind: ContentKind) -> Seq<char> {
    match kind {
        ContentKind::PlainText => TEXT_PLAIN@,
        ContentKind::Json => APPLICATION_JSON@,
    }
}

impl ContentKind {
    /// The `Content-Type` header value of this kind of body.
    pub fn header_value(&self) -> (r: &'static str)
        ensures
            r@ == content_type_of(*self),
    {
        match self {
            ContentKind::PlainText => TEXT_PLAIN,
            ContentKind::Json => APPLICATION_JSON,
        }
    }
}

/// A reply: status code, the kind of body (none for an empty reply), body.
#[derive(Debug)]
pub struct Reply {
    pub status: u16,
    pub content: Option<ContentKind>,
    pub body: String,
}

impl Reply {
    /// The reply as plain values.
    pub open spec fn parts(&self) -> (u16, Option<ContentKind>, Seq<char>) {
        (self.status, self.content, self.body@)
    }
}

/// The reply owed to a route; `timestamp` is the time of the health report
/// and matters for that route only.
pub open spec fn reply_for(route: Route, timestamp: Seq<char>) -> (u16, Option<ContentKind>, Seq<
    char,
>) {
    match route {
        Route::Root => (STATUS_OK, Some(ContentKind::PlainText), GREETING@),
        Route::Health => (STATUS_OK, Some(ContentKind::Json), health_body(timestamp)),
        Route::NotFound => (STATUS_NOT_FOUND, None, Seq::empty()),
    }
}

/// The text of an instant, as the health report writes it.
pub open spec fn instant_text(t: UtcInstant) -> Seq<char> {
    rfc3339_of(t.secs as int, t.nanos as int)
}

/// The greeting: whatever the request held, the same text.
pub fn root() -> (r: Reply)
    ensures
        r.parts() == reply_for(Route::Root, Seq::empty()),
{
    Reply { status: STATUS_OK, content: Some(ContentKind::PlainText), body: GREETING.to_string() }
}

/// The health report made at the instant `now`.
pub fn health_check_at(now: &UtcInstant) -> (r: Reply)
    requires
        now.wf(),
    ensures
        r.parts() == reply_for(Route::Health, instant_text(*now)),
{
    let report = HealthStatus::at(now);
    Reply { status: STATUS_OK, content: Some(ContentKind::Json), body: report.to_json() }
}

/// The health report, made at the moment of the call.
pub fn health_check() -> (r: Reply)
    ensures
        exists|t: UtcInstant| t.wf() && r.parts() == reply_for(Route::Health, instant_text(t)),
{
    let now = clock_now();
    health_check_at(&now)
}

/// The empty reply to a request that no route takes.
pub fn not_found() -> (r: Reply)
    ensures
        r.parts() == reply_for(Route::NotFound, Seq::empty()),
{
    Reply { status: STATUS_NOT_FOUND, content: None, body: String::new() }
}

/// The reply to a request with this method and path, where a health report
/// would be made at the instant `now`.
pub fn respond_at(method: &str, path: &str, now: &UtcInstant) -> (r: Reply)
    requires
        now.wf(),
    ensures
        r.parts() == reply_for(route_of(method@, path@), instant_text(*now)),
{
    match route(method, path) {
        Route::Root => root(),
        Route::Health => health_check_at(now),
        Route::NotFound => not_found(),
    }
}

/// The reply to a request with this method and path. The clock is read only
/// for the health report, at the moment the request is handled.
pub fn respond(method: &str, path: &str) -> (r: Reply)
    ensures
        exists|t: UtcInstant|
            t.wf() && r.parts() == reply_for(route_of(method@, path@), instant_text(t)),
{
    let ghost epoch = UtcInstant { secs: 0, nanos: 0 };
    let r = match route(method, path) {
        Route::Root => root(),
        Route::Health => health_check(),
        Route::NotFound => not_found(),
    };
    proof {
        if route_of(method@, path@) != Route::Health {
            assert(epoch.wf());
            assert(r.parts() == reply_for(route_of(method@, path@), instant_text(epoch)));
        }
    }
    r
}

} // verus!
