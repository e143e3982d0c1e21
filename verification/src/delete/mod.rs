//! Deleting a file: where the request goes and which answer means that the
//! file is gone.

use crate::client::FILES_ENDPOINT;
use vstd::prelude::*;
use vstd::string::*;

verus! {

/// The status with which the service confirms a deletion.
pub const DELETED: u16 = 204;

/// The address of the file `file_id`: the files endpoint, a slash, and the
/// identifier as it stands.
pub open spec fn file_url(file_id: Seq<char>) -> Seq<char> {
    FILES_ENDPOINT@ + "/"@ + file_id
}

/// The address to which the request that deletes `file_id` goes.
pub fn endpoint(file_id: &str) -> (url: String)
    ensures
        url@ == file_url(file_id@),
{
    let mut url = String::from_str(FILES_ENDPOINT);
    url.append("/");
    url.append(file_id);
    url
}

/// Whether an answer with this status confirms the deletion.
pub fn is_deleted(status: u16) -> (deleted: bool)
    ensures
        deleted == (status == DELETED),
{
    status == DELETED
}

} // verus!
