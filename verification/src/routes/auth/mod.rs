//! Accounts and sessions, mounted at `/api/auth`.
pub mod signin;
pub mod login;
pub mod edit_pwd;

use vstd::prelude::*;
use crate::http::{Method, RouteInfo, add_route, routes_view};

verus! {

/// The endpoints of this group, as method and path.
pub open spec fn endpoints() -> Seq<(Method, Seq<char>)> {
    seq![
        (Method::Post, "/signin"@),
        (Method::Post, "/login"@),
        (Method::Put, "/pwd"@),
    ]
}

/// The account and session endpoints: sign in, log in and change the
/// password.
pub fn all_routes() -> (routes: Vec<RouteInfo>)
    ensures
        routes_view(routes@) == endpoints(),
{
    let mut routes: Vec<RouteInfo> = Vec::new();
    add_route(&mut routes, Method::Post, "/signin");
    add_route(&mut routes, Method::Post, "/login");
    add_route(&mut routes, Method::Put, "/pwd");
    assert(routes_view(routes@) =~= endpoints());
    routes
}

} // verus!
