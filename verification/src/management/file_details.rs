//! The details of a file: where the request goes and which answer carries
//! them.

use crate::client::FILES_ENDPOINT;
use vstd::prelude::*;
use vstd::string::*;

verus! {

/// The status of an answer that carries what was asked for.
pub const FOUND: u16 = 200;

/// The address of the details of the file `id`: the files endpoint, a
/// slash, the identifier as it stands, and `/details`.
pub open spec fn details_url(id: Seq<char>) -> Seq<char> {
    FILES_ENDPOINT@ + "/"@ + id + "/details"@
}

/// The address to which the request for the details of `id` goes.
pub fn endpoint(id: &str) -> (url: String)
    ensures
        url@ == details_url(id@),
{
    let mut url = String::from_str(FILES_ENDPOINT);
    url.append("/");
    url.append(id);
    url.append("/details");
    url
}

/// Whether an answer with this status carries the details.
pub fn is_found(status: u16) -> (found: bool)
    ensures
        found == (status == FOUND),
{
    status == FOUND
}

} // verus!
