use vstd::prelude::*;

use crate::text::same_text;

verus! {

/// The only request method the service answers.
pub const GET: &'static str = "GET";

/// Path of the greeting.
pub const ROOT_PATH: &'static str = "/";

/// Path of the health report.
pub const HEALTH_PATH: &'static str = "/api/health";

/// Where a request goes: one of the two handlers, or nowhere.
#[derive(Clone, Copy, Debug, PartialEq, Eq, Structural)]
pub enum Route {
    Root,
    Health,
    NotFound,
}

/// The routing table: an exact match on method and path, nothing else.
pub open spec fn route_of(method: Seq<char>, path: Seq<char>) -> Route {
    if method == GET@ && path == ROOT_PATH@ {
        Route::Root
    } else if method == GET@ && path == HEALTH_PATH@ {
        Route::Health
    } else {
        Route::NotFound
    }
}

/// Picks the route for a request method and a path (without its query).
pub fn route(method: &str, path: &str) -> (r: Route)
    ensures
        r == route_of(method@, path@),
{
    if !same_text(method, GET) {
        Route::NotFound
    } else if same_text(path, ROOT_PATH) {
        Route::Root
    } else if same_text(path, HEALTH_PATH) {
        Route::Health
    } else {
        Route::NotFound
    }
}

} // verus!
