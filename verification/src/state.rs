//! The state of one block as a light client sees it: nothing is held
//! locally, and every read is a request to a full node.

use crate::blockchain::{Blockchain, BlockchainStorage};
use crate::cache::{held, keep_first, lock_cell, made_with, new_cell, read_cell};
use crate::error::ClientError;
use crate::fetcher::{Fetcher, RemoteReadRequest};
use crate::handle::{downgrade, upgrade, WeakRef};
use crate::primitives::{BlockId, H256, Header};
use crate::trie::TrieBackend;
use parking_lot::RwLock;
use std::sync::Arc;
use vstd::prelude::*;

verus! {

/// What one read met on its way: the collaborators' part in its result.
pub struct Met {
    /// What the read found in the cache at its start.
    pub cached: Option<Header>,
    /// What the blockchain answered when the header was demanded of it;
    /// `None` if the blockchain was gone. Only a read that found the cache
    /// empty asks.
    pub resolved: Option<Result<Header, ClientError>>,
    /// What the read found in the cache when it came to keep the header
    /// that the blockchain gave: another read may have filled the cache by
    /// then. Only a read that was given a header looks.
    pub found: Option<Header>,
    /// What the fetcher answered; `None` if the fetcher was gone. Only a
    /// read that has the header asks.
    pub fetched: Option<Result<Option<Vec<u8>>, ClientError>>,
}

/// What the blockchain's part means to a read of `block` that found the
/// cache empty: without a blockchain the block is unknown, and with one its
/// answer stands.
pub open spec fn spec_resolved_header(
    block: H256,
    answer: Option<Result<Header, ClientError>>,
) -> Result<Header, ClientError> {
    match answer {
        Some(resolved) => resolved,
        None => Err(ClientError::UnknownBlock(BlockId::Hash(block))),
    }
}

/// The header for a read of `block` that found the cache empty, or the
/// reason why there is none.
#[verifier::when_used_as_spec(spec_resolved_header)]
pub fn resolved_header(block: H256, answer: Option<Result<Header, ClientError>>) -> (r: Result<
    Header,
    ClientError,
>)
    ensures
        r == spec_resolved_header(block, answer),
{
    match answer {
        Some(resolved) => resolved,
        None => Err(ClientError::UnknownBlock(BlockId::Hash(block))),
    }
}

/// What the fetcher's part means to a read: without a fetcher the value is
/// not available, and with one its answer stands, a failure as much as a
/// value or the news that there is none.
pub open spec fn spec_fetched_value(
    answer: Option<Result<Option<Vec<u8>>, ClientError>>,
) -> Result<Option<Vec<u8>>, ClientError> {
    match answer {
        Some(fetched) => fetched,
        None => Err(ClientError::NotAvailableOnLightClient),
    }
}

/// The result of a read that has its header and turned to the fetcher.
#[verifier::when_used_as_spec(spec_fetched_value)]
pub fn fetched_value(answer: Option<Result<Option<Vec<u8>>, ClientError>>) -> (r: Result<
    Option<Vec<u8>>,
    ClientError,
>)
    ensures
        r == spec_fetched_value(answer),
{
    match answer {
        Some(fetched) => fetched,
        None => Err(ClientError::NotAvailableOnLightClient),
    }
}

/// The header that a read of `block` settles on once it has found the
/// cache empty and turned to the blockchain. Without a header from the
/// blockchain there is none, whatever the cache holds by then. With one,
/// the read keeps it, unless it finds the cache filled when it comes to do
/// so: then the header in the cache is the one.
pub open spec fn settled_header(
    block: H256,
    answer: Option<Result<Header, ClientError>>,
    found: Option<Header>,
) -> Result<Header, ClientError> {
    match spec_resolved_header(block, answer) {
        Ok(resolved) => Ok(
            match found {
                Some(first) => first,
                None => resolved,
            },
        ),
        Err(e) => Err(e),
    }
}

/// The header that a read of `block` works with: the cached one if the
/// read found one at its start, else the one it settles on with the
/// blockchain's answer.
pub open spec fn read_header(block: H256, met: Met) -> Result<Header, ClientError> {
    match met.cached {
        Some(header) => Ok(header),
        None => settled_header(block, met.resolved, met.found),
    }
}

/// The result of a read of `block`, given what it met: first the header is
/// needed, then the fetcher.
pub open spec fn read_outcome(block: H256, met: Met) -> Result<Option<Vec<u8>>, ClientError> {
    match read_header(block, met) {
        Ok(_) => spec_fetched_value(met.fetched),
        Err(e) => Err(e),
    }
}

/// A read without a fetcher fails as not available, whether its header
/// came from the cache or from the blockchain.
pub proof fn lemma_read_without_fetcher(block: H256, met: Met)
    requires
        met.fetched is None,
        met.cached is Some || met.resolved matches Some(Ok(_)),
    ensures
        read_outcome(block, met) == Err::<Option<Vec<u8>>, ClientError>(
            ClientError::NotAvailableOnLightClient,
        ),
{
}

/// A read that finds the cache empty and the blockchain gone fails with
/// the block as unknown, whatever the fetcher would have said.
pub proof fn lemma_read_without_blockchain(block: H256, met: Met)
    requires
        met.cached is None,
        met.resolved is None,
    ensures
        read_outcome(block, met) == Err::<Option<Vec<u8>>, ClientError>(
            ClientError::UnknownBlock(BlockId::Hash(block)),
        ),
{
}

/// A read that has its header returns what the fetcher found, unchanged: a
/// value as that value, and a key without a value as `None`, not as an
/// error.
pub proof fn lemma_read_returns_fetched(block: H256, met: Met, found: Option<Vec<u8>>)
    requires
        read_header(block, met) is Ok,
        met.fetched == Some(Ok::<Option<Vec<u8>>, ClientError>(found)),
    ensures
        read_outcome(block, met) == Ok::<Option<Vec<u8>>, ClientError>(found),
{
}

/// The state of one block, read on demand from full nodes.
///
/// The view owns neither the blockchain nor the fetcher. It remembers the
/// block's header once it has been resolved.
#[verifier::reject_recursive_types(S)]
#[verifier::reject_recursive_types(F)]
pub struct OnDemandState<S, F> {
    fetcher: WeakRef<F>,
    blockchain: WeakRef<Blockchain<S, F>>,
    block: H256,
    cached_header: RwLock<Option<Header>>,
}

impl<S, F> OnDemandState<S, F> {
    /// The hash of the block whose state this is.
    pub closed spec fn spec_block(&self) -> H256 {
        self.block
    }

    /// The handle by which the view reaches the fetcher.
    pub closed spec fn spec_fetcher(&self) -> WeakRef<F> {
        self.fetcher
    }

    /// Whether the view was made with an empty header cache, so that it
    /// has a header only once one of its own reads has resolved it.
    pub closed spec fn made_empty(&self) -> bool {
        made_with(self.cached_header) is None
    }

    /// The hash of the block whose state this is.
    #[verifier::when_used_as_spec(spec_block)]
    pub fn block(&self) -> (r: H256)
        ensures
            r == self.spec_block(),
    {
        self.block
    }

    /// The state of `block` as `blockchain` and its fetcher give it: the
    /// view reaches the fetcher by the blockchain's own handle, owns
    /// neither of the two, and is made with a cache of its own that holds
    /// no header yet.
    pub(crate) fn bound_to(blockchain: &Arc<Blockchain<S, F>>, block: H256) -> (r: Self)
        ensures
            r.spec_block() == block,
            r.spec_fetcher() == blockchain.spec_fetcher(),
            r.made_empty(),
    {
        OnDemandState {
            fetcher: blockchain.fetcher(),
            blockchain: downgrade(blockchain),
            block,
            cached_header: new_cell(None),
        }
    }

    /// Visits the keys that start with `prefix`. The whole state is not at
    /// hand on a light client, so no key is visited.
    pub fn for_keys_with_prefix<A: FnMut(&[u8])>(&self, prefix: &[u8], action: A) {
    }

    /// The root of the state after `delta`, with the changes to the trie
    /// that lead to it. A light client computes neither: the root is the
    /// zero hash and the changes are empty.
    pub fn storage_root<I: Iterator<Item = (Vec<u8>, Option<Vec<u8>>)>>(&self, delta: I) -> (r: (
        H256,
        (),
    ))
        ensures
            r.0.is_zero(),
    {
        (H256::zero(), ())
    }

    /// All pairs of the state. The whole state is not at hand on a light
    /// client, so there are none.
    pub fn pairs(&self) -> (r: Vec<(Vec<u8>, Vec<u8>)>)
        ensures
            r@ == Seq::<(Vec<u8>, Vec<u8>)>::empty(),
    {
        Vec::new()
    }

    /// The state as a trie held locally, which a light client never has.
    pub fn try_into_trie_backend(self) -> (r: Option<TrieBackend>)
        ensures
            r is None,
    {
        None
    }
}

impl<S: BlockchainStorage, F: Fetcher> OnDemandState<S, F> {
    /// Whether a blockchain that was asked for the header of `block` by
    /// its hash may have given `answer`; `None` stands for a blockchain
    /// that was gone, which is always possible.
    pub open spec fn may_resolve(block: H256, answer: Option<Result<Header, ClientError>>) -> bool {
        answer matches Some(given) ==> exists|chain: Blockchain<S, F>| #[trigger]
            chain.expects_header(BlockId::Hash(block), given)
    }

    /// Whether a fetcher that was sent the request for `key` in `block`
    /// with `header` and no retry count may have given `answer`; `None`
    /// stands for a fetcher that was gone, which is always possible.
    pub open spec fn may_fetch(
        block: H256,
        header: Header,
        key: Seq<u8>,
        answer: Option<Result<Option<Vec<u8>>, ClientError>>,
    ) -> bool {
        answer matches Some(given) ==> exists|fetcher: F, request: RemoteReadRequest|
            request.reads(block, header, key) && #[trigger] call_ensures(
                F::remote_read,
                (&fetcher, request),
                given,
            )
    }

    /// Whether the collaborators of a read of `key` in `block` may have
    /// given what `met` records: a read that found the cache empty got its
    /// answer from a blockchain, and a read that has its header got its
    /// value from a fetcher that was sent the request with that header.
    pub open spec fn may_meet(block: H256, key: Seq<u8>, met: Met) -> bool {
        &&& met.cached is None ==> Self::may_resolve(block, met.resolved)
        &&& read_header(block, met) matches Ok(header) ==> Self::may_fetch(
            block,
            header,
            key,
            met.fetched,
        )
    }

    /// The header that a read works with, given what the read found in the
    /// cache.
    ///
    /// A cached header is the answer, and nothing is asked of anyone: a
    /// view that has its header reads on when the blockchain is gone. With
    /// an empty cache the blockchain is asked for the header of this block
    /// by its hash; the block is unknown if the blockchain is gone, and the
    /// blockchain's answer stands otherwise. A header that was resolved is
    /// kept for later reads, unless the cache has been filled in the
    /// meantime: then the cached one is the answer. No header comes from
    /// anywhere else.
    pub fn header_for_read(&self, cached: Option<Header>) -> (r: Result<Header, ClientError>)
        ensures
            cached matches Some(header) ==> r == Ok::<Header, ClientError>(header),
            cached is None ==> exists|
                answer: Option<Result<Header, ClientError>>,
                found: Option<Header>,
            |
                Self::may_resolve(self.spec_block(), answer) && r == #[trigger] settled_header(
                    self.spec_block(),
                    answer,
                    found,
                ),
    {
        match cached {
            Some(header) => Ok(header),
            None => {
                let answer = match upgrade(&self.blockchain) {
                    Some(chain) => Some(chain.expect_header(BlockId::Hash(self.block))),
                    None => None,
                };
                let ghost given = answer;
                match resolved_header(self.block, answer) {
                    Ok(resolved) => {
                        let mut guard = lock_cell(&self.cached_header);
                        let ghost found = held(guard);
                        let kept = keep_first(&mut guard, resolved);
                        assert(Ok::<Header, ClientError>(kept) == settled_header(
                            self.spec_block(),
                            given,
                            found,
                        ));
                        Ok(kept)
                    },
                    Err(e) => {
                        assert(Err::<Header, ClientError>(e) == settled_header(
                            self.spec_block(),
                            given,
                            None,
                        ));
                        Err(e)
                    },
                }
            },
        }
    }

    /// The value under `key`, read through the fetcher for a read that
    /// works with `header`.
    ///
    /// Without a fetcher the value is not available. With one, it is sent
    /// the request for `key` in this block with `header` and no retry
    /// count, the calling thread is held up until the answer is there, and
    /// the answer is returned as it came.
    pub fn fetch_with(&self, header: Header, key: &[u8]) -> (r: Result<Option<Vec<u8>>, ClientError>)
        ensures
            exists|answer: Option<Result<Option<Vec<u8>>, ClientError>>|
                Self::may_fetch(self.spec_block(), header, key@, answer) && r
                    == #[trigger] spec_fetched_value(answer),
    {
        let answer = match upgrade(&self.fetcher) {
            Some(fetcher) => Some(
                fetcher.remote_read(RemoteReadRequest::for_key(self.block, header, key)),
            ),
            None => None,
        };
        fetched_value(answer)
    }

    /// The value under `key` for a read that found `cached` in the cache.
    ///
    /// First the header is had as `header_for_read` says, so a read that
    /// found a header works with it and asks no blockchain. Only then, and
    /// only with a header, the value is read as `fetch_with` says. What the
    /// read met on the way determines the result, as `read_outcome` says.
    pub fn read_with(&self, cached: Option<Header>, key: &[u8]) -> (r: Result<
        Option<Vec<u8>>,
        ClientError,
    >)
        ensures
            exists|met: Met| #[trigger]
                Self::may_meet(self.spec_block(), key@, met) && met.cached == cached && r
                    == read_outcome(self.spec_block(), met),
    {
        let settled = self.header_for_read(cached);
        let ghost (resolved, found) = if cached is None {
            choose|answer: Option<Result<Header, ClientError>>, found: Option<Header>|
                Self::may_resolve(self.spec_block(), answer) && settled == #[trigger] settled_header(
                    self.spec_block(),
                    answer,
                    found,
                )
        } else {
            (None, None)
        };
        match settled {
            Ok(header) => {
                let r = self.fetch_with(header, key);
                proof {
                    let fetched = choose|answer: Option<Result<Option<Vec<u8>>, ClientError>>|
                        Self::may_fetch(self.spec_block(), header, key@, answer) && r
                            == #[trigger] spec_fetched_value(answer);
                    let met = Met { cached, resolved, found, fetched };
                    assert(Self::may_meet(self.spec_block(), key@, met));
                }
                r
            },
            Err(e) => {
                proof {
                    let met = Met { cached, resolved, found, fetched: None };
                    assert(Self::may_meet(self.spec_block(), key@, met));
                }
                Err(e)
            },
        }
    }

    /// The value under `key` in the state of this block.
    ///
    /// The read looks into the cache and goes on as `read_with` says. The
    /// result is determined by what the read meets on the way, as
    /// `read_outcome` says: an unknown block where the header cannot be
    /// had, not available where the fetcher is gone, and else the
    /// fetcher's own answer.
    pub fn storage(&self, key: &[u8]) -> (r: Result<Option<Vec<u8>>, ClientError>)
        ensures
            exists|met: Met| #[trigger]
                Self::may_meet(self.spec_block(), key@, met) && r == read_outcome(
                    self.spec_block(),
                    met,
                ),
    {
        let cached = read_cell(&self.cached_header);
        self.read_with(cached, key)
    }
}

} // verus!
