//! The header store of the light client and the blockchain built on it.

use crate::error::ClientError;
use crate::handle::{downgrade, duplicate, WeakRef};
use crate::primitives::{AuthorityId, BlockId, H256, Header};
use std::sync::Arc;
use vstd::prelude::*;

verus! {

/// Keeps headers and authority sets, and finds them again.
///
/// The store is free in what it answers: the light client states what it
/// asks and what it makes of each answer, not what the answer is. It is
/// shared between threads and keeps its own order among their calls.
pub trait BlockchainStorage: Send + Sync {
    /// Stores `header` with the authority set that comes into force with
    /// it, and makes the block the best one if `is_new_best`.
    fn import_header(
        &self,
        is_new_best: bool,
        header: Header,
        authorities: Option<Vec<AuthorityId>>,
    ) -> Result<(), ClientError>;

    /// The header of the block, or `None` if the store has none for it.
    fn header(&self, id: BlockId) -> Result<Option<Header>, ClientError>;

    /// The hash of the block at height `number`, or `None` if the store has
    /// no block there.
    fn hash(&self, number: u64) -> Result<Option<H256>, ClientError>;
}

/// What a header lookup means to a caller that needs the header: a store
/// without one for `id` makes the block unknown, and a failure of the store
/// is passed on.
pub open spec fn spec_header_or_unknown(
    id: BlockId,
    lookup: Result<Option<Header>, ClientError>,
) -> Result<Header, ClientError> {
    match lookup {
        Ok(Some(header)) => Ok(header),
        Ok(None) => Err(ClientError::UnknownBlock(id)),
        Err(e) => Err(e),
    }
}

/// The header that `lookup` found for `id`, or the reason why there is none.
#[verifier::when_used_as_spec(spec_header_or_unknown)]
pub fn header_or_unknown(id: BlockId, lookup: Result<Option<Header>, ClientError>) -> (r: Result<
    Header,
    ClientError,
>)
    ensures
        r == spec_header_or_unknown(id, lookup),
{
    match lookup {
        Ok(Some(header)) => Ok(header),
        Ok(None) => Err(ClientError::UnknownBlock(id)),
        Err(e) => Err(e),
    }
}

/// What a lookup by height means to a caller that needs the hash: any
/// answer but a hash, a failure of the store too, makes the block unknown.
pub open spec fn spec_hash_or_unknown(
    number: u64,
    lookup: Result<Option<H256>, ClientError>,
) -> Result<H256, ClientError> {
    match lookup {
        Ok(Some(hash)) => Ok(hash),
        _ => Err(ClientError::UnknownBlock(BlockId::Number(number))),
    }
}

/// The hash that `lookup` found for the block at height `number`, or the
/// error that names the block as unknown.
#[verifier::when_used_as_spec(spec_hash_or_unknown)]
pub fn hash_or_unknown(number: u64, lookup: Result<Option<H256>, ClientError>) -> (r: Result<
    H256,
    ClientError,
>)
    ensures
        r == spec_hash_or_unknown(number, lookup),
{
    match lookup {
        Ok(Some(hash)) => Ok(hash),
        _ => Err(ClientError::UnknownBlock(BlockId::Number(number))),
    }
}

/// A height that the store does not resolve to a hash, whether it has no
/// block there or fails, names an unknown block.
pub proof fn lemma_unresolved_number_is_unknown(
    number: u64,
    lookup: Result<Option<H256>, ClientError>,
)
    requires
        !(lookup matches Ok(Some(_))),
    ensures
        spec_hash_or_unknown(number, lookup) == Err::<H256, ClientError>(
            ClientError::UnknownBlock(BlockId::Number(number)),
        ),
{
}

/// The light client's blockchain: a header store, and a handle to the
/// fetcher that reads everything else from full nodes.
#[verifier::reject_recursive_types(F)]
pub struct Blockchain<S, F> {
    fetcher: WeakRef<F>,
    storage: S,
}

impl<S, F> Blockchain<S, F> {
    /// The header store.
    pub closed spec fn spec_storage(&self) -> &S {
        &self.storage
    }

    /// A blockchain over `storage` that reads remote state through
    /// `fetcher`. It does not keep the fetcher alive.
    pub fn new(storage: S, fetcher: &Arc<F>) -> (r: Self)
        ensures
            *r.spec_storage() == storage,
    {
        Blockchain { fetcher: downgrade(fetcher), storage }
    }

    /// The header store.
    #[verifier::when_used_as_spec(spec_storage)]
    pub fn storage(&self) -> (r: &S)
        ensures
            r == self.spec_storage(),
    {
        &self.storage
    }

    /// The handle by which the blockchain reaches its fetcher.
    pub closed spec fn spec_fetcher(&self) -> WeakRef<F> {
        self.fetcher
    }

    /// A handle to the fetcher: the one that the blockchain itself holds,
    /// handed out once more. It owns nothing, and the fetcher may be gone
    /// by the time it is used.
    #[verifier::when_used_as_spec(spec_fetcher)]
    pub fn fetcher(&self) -> (r: WeakRef<F>)
        ensures
            r == self.spec_fetcher(),
    {
        duplicate(&self.fetcher)
    }
}

impl<S: BlockchainStorage, F> Blockchain<S, F> {
    /// Whether the store may answer `lookup` when asked for the header of
    /// `id`.
    pub open spec fn finds_header(&self, id: BlockId, lookup: Result<Option<Header>, ClientError>) -> bool {
        call_ensures(S::header, (self.spec_storage(), id), lookup)
    }

    /// Whether the store may answer `lookup` when asked for the hash of the
    /// block at height `number`.
    pub open spec fn finds_hash(&self, number: u64, lookup: Result<Option<H256>, ClientError>) -> bool {
        call_ensures(S::hash, (self.spec_storage(), number), lookup)
    }

    /// Whether `answer` may come back when the header of `id` is demanded:
    /// it is what some answer of the store means to such a caller.
    pub open spec fn expects_header(&self, id: BlockId, answer: Result<Header, ClientError>) -> bool {
        exists|lookup: Result<Option<Header>, ClientError>| #[trigger]
            self.finds_header(id, lookup) && answer == spec_header_or_unknown(id, lookup)
    }

    /// The store's answer to a lookup of the header of `id`.
    pub fn header(&self, id: BlockId) -> (r: Result<Option<Header>, ClientError>)
        ensures
            self.finds_header(id, r),
    {
        self.storage.header(id)
    }

    /// The store's answer to a lookup of the hash of the block at height
    /// `number`.
    pub fn hash(&self, number: u64) -> (r: Result<Option<H256>, ClientError>)
        ensures
            self.finds_hash(number, r),
    {
        self.storage.hash(number)
    }

    /// The header of `id`; a block without one in the store is unknown.
    pub fn expect_header(&self, id: BlockId) -> (r: Result<Header, ClientError>)
        ensures
            self.expects_header(id, r),
    {
        let lookup = self.storage.header(id);
        assert(self.finds_header(id, lookup));
        header_or_unknown(id, lookup)
    }
}

} // verus!
