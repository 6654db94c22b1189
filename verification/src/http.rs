//! HTTP statuses and the error helper shared by every route.
use vstd::prelude::*;

verus! {

/// An HTTP status, identified by its numeric code.
#[derive(PartialEq, Eq, Structural, Clone, Copy, Debug)]
pub struct Status {
    pub code: u16,
}

/// The codes for which the web framework knows a canonical status.
pub open spec fn is_standard_status(code: u16) -> bool {
    ||| 100 <= code <= 102
    ||| 200 <= code <= 208
    ||| code == 226
    ||| 300 <= code <= 305
    ||| code == 307 || code == 308
    ||| 400 <= code <= 418
    ||| 421 <= code <= 424
    ||| code == 426 || code == 428 || code == 429 || code == 431 || code == 451
    ||| 500 <= code <= 508
    ||| code == 510 || code == 511
}

/// Calls `rocket::http::Status::from_code`: it yields the status of `code`
/// when `code` is one of the codes in the framework's status table, and
/// nothing otherwise.
#[verifier::external_body]
fn status_from_code(code: u16) -> (r: Option<u16>)
    ensures
        r == (if is_standard_status(code) { Some(code) } else { None::<u16> }),
{
    rocket::http::Status::from_code(code).map(|s| s.code)
}

/// How loudly a failure is reported in the service log.
#[derive(PartialEq, Eq, Structural, Clone, Copy, Debug)]
pub enum Severity {
    /// A server fault (code 500).
    Error,
    /// A refused or failed request caused by the client.
    Oops,
}

/// The status a failed request is answered with, and how it is logged.
#[derive(PartialEq, Eq, Structural, Clone, Copy, Debug)]
pub struct Failure {
    pub status: Status,
    pub severity: Severity,
}

/// The failure a route reports for `code`.
pub open spec fn failure_of(code: u16) -> Failure {
    Failure {
        status: Status { code: if is_standard_status(code) { code } else { 500 } },
        severity: if code == 500 { Severity::Error } else { Severity::Oops },
    }
}

/// Turns an error code into the status sent back to the client: the code
/// itself when it is a known status, otherwise 500. Code 500 is logged as
/// an error, every other code as a client mistake.
pub fn send_error(code: u16) -> (r: Failure)
    ensures
        r == failure_of(code),
{
    let status = match status_from_code(code) {
        Some(c) => Status { code: c },
        None => Status { code: 500 },
    };
    let severity = if code == 500 { Severity::Error } else { Severity::Oops };
    Failure { status, severity }
}

/// The HTTP methods the service answers.
#[derive(PartialEq, Eq, Structural, Clone, Copy, Debug)]
pub enum Method {
    Get,
    Put,
    Post,
    Delete,
}

/// One endpoint of the service: a method and a path relative to the
/// mount point of its group (`<name>` marks a path parameter).
#[derive(Clone, Copy, Debug)]
pub struct RouteInfo {
    pub method: Method,
    pub path: &'static str,
}

/// The endpoints of a route table, as method and path.
pub open spec fn routes_view(routes: Seq<RouteInfo>) -> Seq<(Method, Seq<char>)> {
    routes.map_values(|r: RouteInfo| (r.method, r.path@))
}

/// Adds an endpoint to a route table.
pub fn add_route(routes: &mut Vec<RouteInfo>, method: Method, path: &'static str)
    ensures
        routes_view(final(routes)@) == routes_view(old(routes)@).push((method, path@)),
{
    routes.push(RouteInfo { method, path });
    assert(routes_view(routes@) =~= routes_view(old(routes)@).push((method, path@)));
}

} // verus!
