//! The capability announcement: which protocol revisions the server speaks.

use vstd::prelude::*;

use crate::HttpResponse;

verus! {

/// The body of the version announcement.
pub open spec fn versions_body_json() -> Seq<char> {
    "{\"versions\":[\"r0.3.0\"]}"@
}

/// Returns the versions of the specification supported by the server.
pub fn versions() -> (r: HttpResponse)
    ensures
        r@.status == 200,
        r@.body == versions_body_json(),
{
    HttpResponse { status: 200, body: "{\"versions\":[\"r0.3.0\"]}".to_owned() }
}

} // verus!
