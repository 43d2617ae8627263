//! The failures that the light client reports to its callers.

use crate::primitives::BlockId;
use vstd::prelude::*;

verus! {

/// Why a request could not be served.
#[derive(Clone, Debug, PartialEq, Eq)]
pub enum ClientError {
    /// The identifier names no block that the header store knows.
    UnknownBlock(BlockId),
    /// The request needs something that a light client does not have:
    /// full state, or a live connection to the nodes that hold it.
    NotAvailableOnLightClient,
    /// The remote read did not bring a usable answer.
    RemoteFetchFailed,
    /// The header store failed; the text is its own account of the failure.
    Backend(String),
}

} // verus!
