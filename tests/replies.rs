use backend::clock::{UtcInstant, EARLIEST_SECS, LATEST_SECS};
use backend::health::{HealthStatus, HEALTHY, HEALTH_MESSAGE};
use backend::json::{json_object, json_string};
use backend::routes::{route, Route};
use backend::service::{
    health_check, health_check_at, not_found, respond, respond_at, root, ContentKind, Reply,
    APPLICATION_JSON, GREETING, TEXT_PLAIN,
};
use chrono::DateTime;

fn keys_of(body: &str) -> Vec<String> {
    let value: serde_json::Value = serde_json::from_str(body).expect("body is JSON");
    let object = value.as_object().expect("body is a JSON object");
    let mut keys: Vec<String> = object.keys().cloned().collect();
    keys.sort();
    keys
}

fn field(body: &str, key: &str) -> String {
    let value: serde_json::Value = serde_json::from_str(body).expect("body is JSON");
    value[key].as_str().expect("string field").to_string()
}

fn assert_not_found(reply: &Reply) {
    assert_eq!(reply.status, 404);
    assert_eq!(reply.content, None);
    assert_eq!(reply.body, "");
}

#[test]
fn root_replies_with_the_greeting() {
    let reply = respond("GET", "/");
    assert_eq!(reply.status, 200);
    assert_eq!(reply.content, Some(ContentKind::PlainText));
    assert_eq!(reply.body, GREETING);
    let direct = root();
    assert_eq!(direct.status, 200);
    assert_eq!(direct.body, "Nathan's Portfolio Backend 🦀");
}

#[test]
fn health_reply_is_json_with_three_keys() {
    let reply = respond("GET", "/api/health");
    assert_eq!(reply.status, 200);
    assert_eq!(reply.content, Some(ContentKind::Json));
    assert_eq!(reply.content.unwrap().header_value(), "application/json");
    assert_eq!(keys_of(&reply.body), vec!["message", "status", "timestamp"]);
    assert_eq!(field(&reply.body, "status"), "healthy");
    assert_eq!(field(&reply.body, "message"), "Portfolio backend is running!");
    let stamp = field(&reply.body, "timestamp");
    assert!(DateTime::parse_from_rfc3339(&stamp).is_ok());
    assert!(stamp.ends_with("+00:00"));
}

#[test]
fn health_reply_at_the_epoch_is_exact() {
    let reply = health_check_at(&UtcInstant { secs: 0, nanos: 0 });
    assert_eq!(reply.status, 200);
    assert_eq!(
        reply.body,
        "{\"message\":\"Portfolio backend is running!\",\"status\":\"healthy\",\"timestamp\":\"1970-01-01T00:00:00+00:00\"}"
    );
}

#[test]
fn respond_at_uses_the_given_instant() {
    let now = UtcInstant { secs: 1_500_000_000, nanos: 500_000_000 };
    let reply = respond_at("GET", "/api/health", &now);
    assert_eq!(field(&reply.body, "timestamp"), "2017-07-14T02:40:00.500+00:00");
    let greeting = respond_at("GET", "/", &now);
    assert_eq!(greeting.body, GREETING);
    assert_not_found(&respond_at("POST", "/api/health", &now));
}

#[test]
fn health_status_and_message_are_fixed() {
    let first = HealthStatus::at(&UtcInstant { secs: 10, nanos: 0 });
    let second = HealthStatus::at(&UtcInstant { secs: 99_999, nanos: 1 });
    assert_eq!(first.status, HEALTHY);
    assert_eq!(second.status, "healthy");
    assert_eq!(first.message, HEALTH_MESSAGE);
    assert_eq!(second.message, first.message);
    assert_ne!(first.timestamp, second.timestamp);
    assert_eq!(keys_of(&second.to_json()), vec!["message", "status", "timestamp"]);
}

#[test]
fn consecutive_health_checks_do_not_go_back() {
    let first = field(&health_check().body, "timestamp");
    let second = field(&health_check().body, "timestamp");
    let a = DateTime::parse_from_rfc3339(&first).expect("valid RFC 3339");
    let b = DateTime::parse_from_rfc3339(&second).expect("valid RFC 3339");
    assert!(a <= b);
}

#[test]
fn instants_a_second_apart_have_different_text() {
    let earlier = UtcInstant { secs: 1_700_000_000, nanos: 250_000_000 };
    let later = UtcInstant { secs: 1_700_000_001, nanos: 250_000_000 };
    let a = earlier.to_rfc3339();
    let b = later.to_rfc3339();
    assert_ne!(a, b);
    assert_eq!(a, "2023-11-14T22:13:20.250+00:00");
    assert_eq!(b, "2023-11-14T22:13:21.250+00:00");
    assert!(DateTime::parse_from_rfc3339(&a).unwrap() < DateTime::parse_from_rfc3339(&b).unwrap());
}

#[test]
fn fractional_digits_follow_the_nanoseconds() {
    assert_eq!(UtcInstant { secs: 0, nanos: 123_456_789 }.to_rfc3339(), "1970-01-01T00:00:00.123456789+00:00");
    assert_eq!(UtcInstant { secs: 0, nanos: 1_000 }.to_rfc3339(), "1970-01-01T00:00:00.000001+00:00");
    assert_eq!(UtcInstant { secs: -1, nanos: 0 }.to_rfc3339(), "1969-12-31T23:59:59+00:00");
}

#[test]
fn range_bounds_are_chronos() {
    let latest = UtcInstant { secs: LATEST_SECS, nanos: 999_999_999 };
    let earliest = UtcInstant { secs: EARLIEST_SECS, nanos: 0 };
    assert!(latest.is_valid());
    assert!(earliest.is_valid());
    assert_eq!(latest.to_rfc3339(), "+262142-12-31T23:59:59.999999999+00:00");
    assert_eq!(earliest.to_rfc3339(), "-262143-01-01T00:00:00+00:00");
    assert!(!UtcInstant { secs: LATEST_SECS + 1, nanos: 0 }.is_valid());
    assert!(!UtcInstant { secs: EARLIEST_SECS - 1, nanos: 0 }.is_valid());
    assert!(!UtcInstant { secs: 0, nanos: 1_000_000_000 }.is_valid());
    assert!(DateTime::from_timestamp(LATEST_SECS + 1, 0).is_none());
    assert!(DateTime::from_timestamp(EARLIEST_SECS - 1, 0).is_none());
}

#[test]
fn unlisted_requests_are_not_found() {
    assert_not_found(&respond("POST", "/"));
    assert_not_found(&respond("GET", "/unknown"));
    assert_not_found(&respond("DELETE", "/api/health"));
    assert_not_found(&respond("HEAD", "/"));
    assert_not_found(&respond("get", "/"));
    assert_not_found(&respond("GET", "/api/health/"));
    assert_not_found(&respond("GET", ""));
    assert_not_found(&not_found());
}

#[test]
fn routing_table_is_exact() {
    assert_eq!(route("GET", "/"), Route::Root);
    assert_eq!(route("GET", "/api/health"), Route::Health);
    assert_eq!(route("GET", "/api"), Route::NotFound);
    assert_eq!(route("PUT", "/api/health"), Route::NotFound);
    assert_eq!(route("GET", "/API/HEALTH"), Route::NotFound);
}

#[test]
fn server_scenario() {
    let greeting = respond("GET", "/");
    assert_eq!((greeting.status, greeting.body.as_str()), (200, GREETING));
    let health = respond("GET", "/api/health");
    assert_eq!(health.status, 200);
    assert_eq!(keys_of(&health.body), vec!["message", "status", "timestamp"]);
    let deleted = respond("DELETE", "/api/health");
    assert_eq!(deleted.status, 404);
}

#[test]
fn content_types() {
    assert_eq!(ContentKind::PlainText.header_value(), TEXT_PLAIN);
    assert_eq!(ContentKind::PlainText.header_value(), "text/plain; charset=utf-8");
    assert_eq!(ContentKind::Json.header_value(), APPLICATION_JSON);
}

#[test]
fn json_strings_are_quoted_and_escaped() {
    assert_eq!(json_string("healthy"), "\"healthy\"");
    assert_eq!(json_string("a\"b\\c\n"), "\"a\\\"b\\\\c\\n\"");
    assert_eq!(json_string(""), "\"\"");
}

#[test]
fn json_objects_keep_member_order() {
    assert_eq!(json_object(&vec![]), "{}");
    assert_eq!(json_object(&vec![("k", "v")]), "{\"k\":\"v\"}");
    assert_eq!(json_object(&vec![("b", "1"), ("a", "\"")]), "{\"b\":\"1\",\"a\":\"\\\"\"}");
}
