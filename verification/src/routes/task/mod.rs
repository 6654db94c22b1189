//! Tasks, mounted at `/api/task`.
//!
//! The group also names a handler for deleting a task (`delete`), but that
//! handler's source does not exist: neither its path nor what it does is
//! defined anywhere, so it has no endpoint here and is not mounted.
pub mod post;
pub mod put;
pub mod update_state;

use vstd::prelude::*;
use crate::http::{Method, RouteInfo, add_route, routes_view};

verus! {

/// The endpoints of this group, as method and path.
///
/// The group also names a handler for deleting a task (`delete`), but
/// that handler's source does not exist: neither its path nor what it does
/// is defined anywhere, so it has no endpoint here and is not mounted.
pub open spec fn endpoints() -> Seq<(Method, Seq<char>)> {
    seq![
        (Method::Post, "/"@),
        (Method::Put, "/<id>"@),
        (Method::Put, "/state/<id>"@),
    ]
}

/// The task endpoints: create, edit and move to the next state.
///
/// The group also names a handler for deleting a task (`delete`), but
/// that handler's source does not exist: neither its path nor what it does
/// is defined anywhere, so it has no endpoint here and is not mounted.
pub fn all_routes() -> (routes: Vec<RouteInfo>)
    ensures
        routes_view(routes@) == endpoints(),
{
    let mut routes: Vec<RouteInfo> = Vec::new();
    add_route(&mut routes, Method::Post, "/");
    add_route(&mut routes, Method::Put, "/<id>");
    add_route(&mut routes, Method::Put, "/state/<id>");
    assert(routes_view(routes@) =~= endpoints());
    routes
}

} // verus!
