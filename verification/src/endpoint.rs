//! Where the operations are served, and how a client addresses them.

use vstd::prelude::*;

verus! {

/// The path segment under which readings are submitted.
pub const SUBMIT_PATH: &'static str = "submit";

/// The path segment under which the window is reset.
pub const RESET_PATH: &'static str = "reset";

/// The path segment under which the window is read.
pub const GET_DATA_PATH: &'static str = "get_data";

/// The milliseconds between two reads of a polling client.
pub const POLL_INTERVAL_MS: u32 = 15_000;

/// The origin of a page, from its protocol with the colon (`http:`) and its
/// host.
pub open spec fn spec_origin(protocol: Seq<char>, host: Seq<char>) -> Seq<char> {
    protocol + "//"@ + host
}

/// The address of the operation served under `path` at `origin`.
pub open spec fn spec_address(origin: Seq<char>, path: Seq<char>) -> Seq<char> {
    origin + "/"@ + path
}

/// Writes the origin of a page from its protocol and its host.
pub fn origin(protocol: &str, host: &str) -> (url: String)
    ensures
        url@ == spec_origin(protocol@, host@),
{
    let mut url = String::from_str(protocol);
    url.append("//");
    url.append(host);
    url
}

/// Writes the address of the operation served under `path` at `origin`.
pub fn address(origin: &str, path: &str) -> (url: String)
    ensures
        url@ == spec_address(origin@, path@),
{
    let mut url = String::from_str(origin);
    url.append("/");
    url.append(path);
    url
}

} // verus!
