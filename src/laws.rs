use vstd::prelude::*;

use crate::health::{health_members, HEALTHY, HEALTH_MESSAGE};
use crate::routes::{route_of, GET, HEALTH_PATH, ROOT_PATH};
use crate::service::{
    content_type_of, reply_for, ContentKind, GREETING, STATUS_NOT_FOUND, STATUS_OK,
};

verus! {

/// A `GET /` is always answered with status 200 and the greeting as plain
/// text; nothing but the method and the path takes part in the decision.
pub proof fn root_always_greets(timestamp: Seq<char>)
    ensures
        reply_for(route_of(GET@, ROOT_PATH@), timestamp) == (
            STATUS_OK,
            Some(ContentKind::PlainText),
            GREETING@,
        ),
{
}

/// A `GET /api/health` is answered with status 200 and a JSON body; the
/// report's keys are exactly `status`, `message` and `timestamp`, each once,
/// with the fixed status `healthy`, the fixed message, and the timestamp.
pub proof fn health_report_shape(timestamp: Seq<char>)
    ensures
        reply_for(route_of(GET@, HEALTH_PATH@), timestamp).0 == STATUS_OK,
        reply_for(route_of(GET@, HEALTH_PATH@), timestamp).1 == Some(ContentKind::Json),
        content_type_of(ContentKind::Json) == "application/json"@,
        health_members(HEALTHY@, HEALTH_MESSAGE@, timestamp).map_values(
            |m: (Seq<char>, Seq<char>)| m.0,
        ).to_set() == set!["status"@, "message"@, "timestamp"@],
        health_members(HEALTHY@, HEALTH_MESSAGE@, timestamp).map_values(
            |m: (Seq<char>, Seq<char>)| m.0,
        ).no_duplicates(),
        health_members(HEALTHY@, HEALTH_MESSAGE@, timestamp).contains(
            ("status"@, "healthy"@),
        ),
        health_members(HEALTHY@, HEALTH_MESSAGE@, timestamp).contains(
            ("message"@, HEALTH_MESSAGE@),
        ),
        health_members(HEALTHY@, HEALTH_MESSAGE@, timestamp).contains(("timestamp"@, timestamp)),
{
    reveal_strlit("status");
    reveal_strlit("message");
    reveal_strlit("timestamp");
    reveal_strlit("healthy");
    reveal_strlit("application/json");
    reveal_strlit("/");
    reveal_strlit("/api/health");
    assert(ROOT_PATH@.len() != HEALTH_PATH@.len());
    let ms = health_members(HEALTHY@, HEALTH_MESSAGE@, timestamp);
    let keys = ms.map_values(|m: (Seq<char>, Seq<char>)| m.0);
    assert(keys =~= seq!["message"@, "status"@, "timestamp"@]);
    assert(keys.to_set() =~= set!["status"@, "message"@, "timestamp"@]) by {
        assert(keys[0] == "message"@);
        assert(keys[1] == "status"@);
        assert(keys[2] == "timestamp"@);
    }
    assert("message"@.len() == 7 && "status"@.len() == 6 && "timestamp"@.len() == 9);
    assert(keys.no_duplicates()) by {
        assert forall|i: int, j: int| 0 <= i < keys.len() && 0 <= j < keys.len() && i != j implies keys[i]
            != keys[j] by {
            assert(keys[i].len() != keys[j].len());
        }
    }
    assert(ms[0] == ("message"@, HEALTH_MESSAGE@));
    assert(ms[1] == ("status"@, "healthy"@));
    assert(ms[2] == ("timestamp"@, timestamp));
}

/// Every request whose method and path are not in the routing table is
/// answered with status 404 and an empty body; the listed ones with 200.
pub proof fn unlisted_requests_not_found(method: Seq<char>, path: Seq<char>, timestamp: Seq<char>)
    ensures
        !(method == GET@ && (path == ROOT_PATH@ || path == HEALTH_PATH@)) ==> reply_for(
            route_of(method, path),
            timestamp,
        ) == (STATUS_NOT_FOUND, None::<ContentKind>, Seq::<char>::empty()),
        (method == GET@ && (path == ROOT_PATH@ || path == HEALTH_PATH@)) ==> reply_for(
            route_of(method, path),
            timestamp,
        ).0 == STATUS_OK,
{
}

} // verus!
