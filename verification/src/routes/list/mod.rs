//! Lists, mounted at `/api/list`.
//!
//! The group also names a handler for deleting a list (`delete`), but that
//! handler's source does not exist: neither its path nor what it does is
//! defined anywhere, so it has no endpoint here and is not mounted.
pub mod post;
pub mod put;

use vstd::prelude::*;
use crate::http::{Method, RouteInfo, add_route, routes_view};

verus! {

/// The endpoints of this group, as method and path.
///
/// The group also names a handler for deleting a list (`delete`), but
/// that handler's source does not exist: neither its path nor what it does
/// is defined anywhere, so it has no endpoint here and is not mounted.
pub open spec fn endpoints() -> Seq<(Method, Seq<char>)> {
    seq![
        (Method::Post, "/"@),
        (Method::Put, "/<id>"@),
    ]
}

/// The list endpoints: create and rename.
///
/// The group also names a handler for deleting a list (`delete`), but
/// that handler's source does not exist: neither its path nor what it does
/// is defined anywhere, so it has no endpoint here and is not mounted.
pub fn all_routes() -> (routes: Vec<RouteInfo>)
    ensures
        routes_view(routes@) == endpoints(),
{
    let mut routes: Vec<RouteInfo> = Vec::new();
    add_route(&mut routes, Method::Post, "/");
    add_route(&mut routes, Method::Put, "/<id>");
    assert(routes_view(routes@) =~= endpoints());
    routes
}

} // verus!
