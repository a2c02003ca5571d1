//! The decision logic of the REST lookup step: where a request goes,
//! and what each response status means. The HTTP transfer itself is
//! an external collaborator and stays outside the library.

use vstd::prelude::*;
use crate::common::RequestError;

verus! {

/// The lookup service's base location.
pub open spec fn api_base() -> Seq<char> {
    "https://mixer.com/api/v1/"@
}

/// The full location of a lookup call.
pub fn mixer_endpoint(path: &str) -> (r: String)
    ensures
        r@ == api_base() + path@,
{
    let mut out = String::new();
    out.append("https://mixer.com/api/v1/");
    out.append(path);
    out
}

/// How the bootstrap step reads a lookup response status: 200 carries
/// a usable body; 401 and 403 name their own failures; anything else
/// is an unknown status.
pub fn classify_status(status: u16) -> (r: Result<(), RequestError>)
    ensures
        (status == 200) <==> r is Ok,
        status == 401 ==> r matches Err(RequestError::Unauthorized),
        status == 403 ==> r matches Err(RequestError::BadOauth),
        (status != 200 && status != 401 && status != 403) ==> r matches Err(
            RequestError::UnknownStatusCode,
        ),
{
    if status == 200 {
        Ok(())
    } else if status == 401 {
        Err(RequestError::Unauthorized)
    } else if status == 403 {
        Err(RequestError::BadOauth)
    } else {
        Err(RequestError::UnknownStatusCode)
    }
}

} // verus!
