//! The exchange with the link service: what is sent to it, and what its
//! reply means.

use vstd::prelude::*;
use vstd::string::StringExecFns;

verus! {

/// What the link service says of a file.
#[derive(Clone, Debug, PartialEq, Eq)]
pub struct Metadata {
    pub name: String,
    pub path_lower: String,
    pub path_display: String,
    pub id: String,
    pub client_modified: String,
    pub server_modified: String,
    pub rev: String,
    pub size: i64,
    pub is_downloadable: bool,
    pub content_hash: String,
}

/// The reply of the link service to a request that it accepted.
#[derive(Clone, Debug, PartialEq, Eq)]
pub struct DropboxResponse {
    pub metadata: Metadata,
    pub link: String,
}

/// Why no link was had.
#[derive(Clone, Debug, PartialEq, Eq)]
pub enum ResolveError {
    /// The service refused; the body of its reply, as it came.
    Rejected(String),
    /// The service accepted, but its reply could not be read.
    Unreadable,
}

/// Whether an HTTP status reports success.
pub open spec fn is_success(status: u16) -> bool {
    200 <= status < 300
}

/// The value of the authorization header for a bearer token.
pub fn bearer(token: &str) -> (value: String)
    ensures
        value@ == "Bearer "@ + token@,
{
    let mut value = String::from_str("Bearer ");
    value.append(token);
    value
}

/// What a reply of the link service means: on success the link that it
/// holds, on any other status the body as the error, word for word.
pub fn resolved_link(status: u16, reply: Option<DropboxResponse>, body: String) -> (link: Result<
    String,
    ResolveError,
>)
    ensures
        is_success(status) && reply is Some ==> link == Ok::<String, ResolveError>(reply->0.link),
        is_success(status) && reply is None ==> link matches Err(ResolveError::Unreadable),
        !is_success(status) ==> link == Err::<String, ResolveError>(ResolveError::Rejected(body)),
{
    if 200 <= status && status < 300 {
        match reply {
            Some(response) => Ok(response.link),
            None => Err(ResolveError::Unreadable),
        }
    } else {
        Err(ResolveError::Rejected(body))
    }
}

} // verus!
