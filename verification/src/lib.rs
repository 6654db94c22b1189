//! Verified core of a small project/list/task board web service.
//!
//! The HTTP server, the SQLite database and the logs live outside this
//! crate; here stand the decisions the service takes on every request:
//! which statements it sends to the database, in which order, and which
//! answer it gives for each outcome of those statements.
pub mod http;
pub mod catchers;
pub mod text;
pub mod crypto;
pub mod bearer;
pub mod db;
pub mod guard;
pub mod routes;
pub mod handler;
pub mod laws;
pub mod write_laws;

use vstd::prelude::*;
use crate::http::{RouteInfo, routes_view};

verus! {

/// The endpoints mounted from the top-level route table: the account
/// endpoints.
pub fn all_routes() -> (routes: Vec<RouteInfo>)
    ensures
        routes_view(routes@) == routes::user::endpoints(),
{
    routes::user::all_routes()
}

} // verus!
