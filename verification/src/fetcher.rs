//! The network side of the light client: what a remote read asks for, and
//! the capability that carries it out.

use crate::error::ClientError;
use crate::primitives::{H256, Header};
use vstd::prelude::*;
use vstd::slice::slice_to_vec;

verus! {

/// One read of remote state: the value under `key` in the state of `block`.
#[derive(Clone, Debug, PartialEq, Eq)]
pub struct RemoteReadRequest {
    /// The hash of the block whose state is read.
    pub block: H256,
    /// The header of that block; its state root lets the answer be checked.
    pub header: Header,
    /// The storage key.
    pub key: Vec<u8>,
    /// How often to try again; `None` leaves it to the fetcher.
    pub retry_count: Option<usize>,
}

impl RemoteReadRequest {
    /// Whether this is the request that a state view sends for `key` in
    /// `block`: the block's hash and header, the key, and no retry count.
    pub open spec fn reads(self, block: H256, header: Header, key: Seq<u8>) -> bool {
        &&& self.block == block
        &&& self.header == header
        &&& self.key@ == key
        &&& self.retry_count is None
    }

    /// The request for `key` in the state of `block`, with the retry count
    /// left to the fetcher.
    pub fn for_key(block: H256, header: Header, key: &[u8]) -> (r: RemoteReadRequest)
        ensures
            r.reads(block, header, key@),
    {
        RemoteReadRequest { block, header, key: slice_to_vec(key), retry_count: None }
    }
}

/// Reads state from full nodes.
///
/// An implementation decides how to reach them and how long to wait; the
/// call returns when the answer is there, and holds up the calling thread
/// until then. `Ok(None)` says that the key has no value in that state.
/// A fetcher is shared between threads, and each read stands for itself.
pub trait Fetcher: Send + Sync {
    fn remote_read(&self, request: RemoteReadRequest) -> Result<Option<Vec<u8>>, ClientError>;
}

} // verus!
