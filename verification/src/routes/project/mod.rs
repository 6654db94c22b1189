//! Projects, mounted at `/api/project`.
//!
//! The group also names a handler for editing a project (`put`), but that
//! handler's source does not exist: neither its path nor what it does is
//! defined anywhere, so it has no endpoint here and is not mounted.
pub mod post;
pub mod get;
pub mod get_mines;
pub mod delete;
pub mod kick;

use vstd::prelude::*;
use crate::http::{Method, RouteInfo, add_route, routes_view};

verus! {

/// The endpoints of this group, as method and path.
///
/// The group also names a handler for editing a project (`put`), but
/// that handler's source does not exist: neither its path nor what it does
/// is defined anywhere, so it has no endpoint here and is not mounted.
pub open spec fn endpoints() -> Seq<(Method, Seq<char>)> {
    seq![
        (Method::Post, "/"@),
        (Method::Get, "/<id>"@),
        (Method::Get, "/mines"@),
        (Method::Delete, "/<id_project>"@),
        (Method::Delete, "/<id>/kick/<email>"@),
    ]
}

/// The project endpoints: create, read one, read one's own, delete, and
/// remove a member.
///
/// The group also names a handler for editing a project (`put`), but
/// that handler's source does not exist: neither its path nor what it does
/// is defined anywhere, so it has no endpoint here and is not mounted.
pub fn all_routes() -> (routes: Vec<RouteInfo>)
    ensures
        routes_view(routes@) == endpoints(),
{
    let mut routes: Vec<RouteInfo> = Vec::new();
    add_route(&mut routes, Method::Post, "/");
    add_route(&mut routes, Method::Get, "/<id>");
    add_route(&mut routes, Method::Get, "/mines");
    add_route(&mut routes, Method::Delete, "/<id_project>");
    add_route(&mut routes, Method::Delete, "/<id>/kick/<email>");
    assert(routes_view(routes@) =~= endpoints());
    routes
}

} // verus!
