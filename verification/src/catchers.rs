//! Bodies the service sends back for the error statuses it raises.
use vstd::prelude::*;
use crate::http::Status;

verus! {

/// A status together with a fixed response body.
#[derive(Clone, Copy, Debug)]
pub struct Custom(pub Status, pub &'static str);

/// The answer sent for a request that ended with status 401.
pub fn unauthorized() -> (r: Custom)
    ensures
        r.0.code == 401,
        r.1@ == Seq::<char>::empty(),
{
    proof { reveal_strlit(""); }
    Custom(Status { code: 401 }, "")
}

/// The answer sent for a request that ended with status 403.
pub fn forbidden() -> (r: Custom)
    ensures
        r.0.code == 403,
        r.1@ == Seq::<char>::empty(),
{
    proof { reveal_strlit(""); }
    Custom(Status { code: 403 }, "")
}

/// The answer sent for a request that ended with status 404.
pub fn not_found() -> (r: Custom)
    ensures
        r.0.code == 404,
        r.1@ == Seq::<char>::empty(),
{
    proof { reveal_strlit(""); }
    Custom(Status { code: 404 }, "")
}

/// The answer sent for a request that ended with status 409.
pub fn conflict() -> (r: Custom)
    ensures
        r.0.code == 409,
        r.1@ == Seq::<char>::empty(),
{
    proof { reveal_strlit(""); }
    Custom(Status { code: 409 }, "")
}

/// The answer sent for a request that ended with status 500.
pub fn internal_server_error() -> (r: Custom)
    ensures
        r.0.code == 500,
        r.1@ == Seq::<char>::empty(),
{
    proof { reveal_strlit(""); }
    Custom(Status { code: 500 }, "")
}

} // verus!
