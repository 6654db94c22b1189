//! Accounts, mounted at `/api/user`.
pub mod get;
pub mod put;
pub mod delete;

use vstd::prelude::*;
use crate::http::{Method, RouteInfo, add_route, routes_view};

verus! {

/// The endpoints of this group, as method and path.
pub open spec fn endpoints() -> Seq<(Method, Seq<char>)> {
    seq![
        (Method::Get, "/<email>"@),
        (Method::Put, "/"@),
        (Method::Delete, "/"@),
    ]
}

/// The account endpoints: read an account, edit and delete one's own.
pub fn all_routes() -> (routes: Vec<RouteInfo>)
    ensures
        routes_view(routes@) == endpoints(),
{
    let mut routes: Vec<RouteInfo> = Vec::new();
    add_route(&mut routes, Method::Get, "/<email>");
    add_route(&mut routes, Method::Put, "/");
    add_route(&mut routes, Method::Delete, "/");
    assert(routes_view(routes@) =~= endpoints());
    routes
}

} // verus!
