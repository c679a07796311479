//! The JSON answers of the error page and of an unknown address.

use vstd::prelude::*;

verus! {

/// A status and the reason for it.
#[derive(Debug, Clone, PartialEq, Eq, Hash)]
pub struct StatusResponse {
    pub status: String,
    pub reason: String,
}

/// The answer of the error page, where failed searches lead.
pub fn error() -> (r: StatusResponse)
    ensures
        r.status@ == "error"@,
        r.reason@ == "There was an error while searching the provided values."@,
{
    StatusResponse {
        status: String::from_str("error"),
        reason: String::from_str("There was an error while searching the provided values."),
    }
}

/// The answer to a request for an address that the explorer does not serve.
pub fn not_found() -> (r: StatusResponse)
    ensures
        r.status@ == "error"@,
        r.reason@ == "Resource was not found."@,
{
    StatusResponse {
        status: String::from_str("error"),
        reason: String::from_str("Resource was not found."),
    }
}

} // verus!
