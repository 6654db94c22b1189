//! The bearer token a request carries in its `Authorization` header.
use vstd::prelude::*;
use vstd::string::*;
use crate::http::Status;

verus! {

/// The token found after `Bearer ` in the `Authorization` header.
#[derive(Debug)]
pub struct BearerToken {
    pub value: String,
}

/// The reason a request carries no usable bearer token.
#[derive(Debug, Clone, Copy)]
pub struct BearerError;

/// The prefix that introduces a bearer token.
pub open spec fn bearer_prefix() -> Seq<char> {
    seq!['B', 'e', 'a', 'r', 'e', 'r', ' ']
}

/// Whether a header value is a bearer token: it starts with `Bearer `.
pub open spec fn is_bearer(header: Seq<char>) -> bool {
    header.len() >= 7 && header.subrange(0, 7) == bearer_prefix()
}

/// Whether a request with this `Authorization` header is let through.
pub open spec fn accepts_header(header: Option<&str>) -> bool {
    header is Some && is_bearer(header->0@)
}

/// A header made of `Bearer ` and a token is let through, and the token
/// read from it is that token.
pub proof fn law_bearer_header_roundtrip(token: Seq<char>, header: Seq<char>)
    requires
        header == bearer_prefix() + token,
    ensures
        is_bearer(header),
        header.subrange(7, header.len() as int) == token,
{
    assert(header.subrange(0, 7) =~= bearer_prefix());
    assert(header.subrange(7, header.len() as int) =~= token);
}

impl BearerToken {
    /// Reads the token out of the `Authorization` header, if the request has
    /// one that starts with `Bearer `; otherwise the request is refused with
    /// status 401.
    pub fn from_header(header: Option<&str>) -> (r: Result<BearerToken, (Status, BearerError)>)
        ensures
            accepts_header(header) ==> (r matches Ok(t) && t.value@ == header->0@.subrange(
                7,
                header->0@.len() as int,
            )),
            !accepts_header(header) ==> (r matches Err((s, _)) && s.code == 401),
    {
        match header {
            Some(h) => {
                let prefix = "Bearer ";
                proof {
                    reveal_strlit("Bearer ");
                    assert(prefix@ == bearer_prefix());
                }
                let len = h.unicode_len();
                if len < 7 {
                    return Err((Status { code: 401 }, BearerError));
                }
                let mut i: usize = 0;
                while i < 7
                    invariant
                        0 <= i <= 7,
                        header == Some(h),
                        len == h@.len(),
                        len >= 7,
                        prefix@ == bearer_prefix(),
                        forall|j: int| 0 <= j < i ==> h@[j] == bearer_prefix()[j],
                    decreases 7 - i,
                {
                    if h.get_char(i) != prefix.get_char(i) {
                        assert(h@.subrange(0, 7)[i as int] == h@[i as int]);
                        assert(h@[i as int] != bearer_prefix()[i as int]);
                        assert(!is_bearer(h@));
                        return Err((Status { code: 401 }, BearerError));
                    }
                    i = i + 1;
                }
                assert(h@.subrange(0, 7) =~= bearer_prefix());
                let rest = h.substring_char(7, len);
                Ok(BearerToken { value: rest.to_owned() })
            },
            None => Err((Status { code: 401 }, BearerError)),
        }
    }
}

} // verus!
