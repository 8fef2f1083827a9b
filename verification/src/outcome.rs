//! What a request to one of the two remote sources came back with, and the
//! ways in which a step of a run can fail.

use vstd::prelude::*;

verus! {

/// The outcome of one HTTP GET.
#[derive(Debug, PartialEq, Eq)]
pub enum HttpReply {
    /// A response with a success status, and its body.
    Body(String),
    /// A response with any other status.
    Rejected,
    /// No response: the request could not be sent, or the body not read.
    Failed,
}

/// Why one record could not be enriched. It is the failure of that record,
/// never of the run.
#[derive(Debug, Clone, Copy, PartialEq, Eq, Structural)]
pub enum EnrichmentError {
    /// The remote source could not be had.
    Network,
    /// The reference page has no second anchor in its title block.
    StructureNotFound,
    /// The reference page is longer than a page that can be searched.
    PageTooLong,
    /// The catalog's answer is not a JSON document.
    MalformedAnswer,
}

/// Why the catalog could not be loaded.
#[derive(Debug, Clone, Copy, PartialEq, Eq, Structural)]
pub enum LoadFailure {
    /// The input could not be read.
    Io,
    /// The input does not have the shape of a catalog.
    Format,
}

/// Whether `status` is an HTTP status of success: one of 200 to 299.
pub open spec fn is_success(status: u16) -> bool {
    200 <= status <= 299
}

/// Whether a probe found the remote catalog: a response came, and its
/// status is one of success.
pub open spec fn is_online(status: Option<u16>) -> bool {
    match status {
        Some(code) => is_success(code),
        None => false,
    }
}

/// Whether `status` is an HTTP status of success.
pub fn is_success_status(status: u16) -> (yes: bool)
    ensures
        yes == is_success(status),
{
    200 <= status && status <= 299
}

/// Whether a probe found the remote catalog; `status` is the status of the
/// response, and `None` where no response came.
pub fn probe_found(status: Option<u16>) -> (yes: bool)
    ensures
        yes == is_online(status),
{
    match status {
        Some(code) => is_success_status(code),
        None => false,
    }
}

} // verus!
