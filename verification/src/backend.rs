//! The backend of a light client: it stores headers through the
//! blockchain's header store, and hands out views of state that read from
//! full nodes.

use crate::blockchain::{hash_or_unknown, spec_hash_or_unknown, Blockchain, BlockchainStorage};
use crate::error::ClientError;
use crate::fetcher::Fetcher;
use crate::import::{ImportOperation, Staged};
use crate::primitives::{BlockId, H256};
use crate::state::OnDemandState;
use crate::trie::ChangesTrieStorage;
use std::sync::Arc;
use vstd::prelude::*;

verus! {

/// Light client backend.
#[verifier::reject_recursive_types(S)]
#[verifier::reject_recursive_types(F)]
pub struct Backend<S, F> {
    blockchain: Arc<Blockchain<S, F>>,
}

impl<S, F> Backend<S, F> {
    /// The blockchain that the backend shares.
    pub closed spec fn spec_blockchain(&self) -> &Arc<Blockchain<S, F>> {
        &self.blockchain
    }

    /// Whether `r` is the outcome of asking this backend for the state of
    /// a block that `resolved` stands for. For a hash it is a new view of
    /// the block with that hash: it reaches the fetcher by the handle of
    /// this backend's blockchain, and is made with an empty header cache.
    /// For an error it is that error.
    pub open spec fn binds(
        &self,
        r: Result<OnDemandState<S, F>, ClientError>,
        resolved: Result<H256, ClientError>,
    ) -> bool {
        match resolved {
            Ok(hash) => {
                &&& r matches Ok(state)
                &&& state.spec_block() == hash
                &&& state.spec_fetcher() == self.spec_blockchain().spec_fetcher()
                &&& state.made_empty()
            },
            Err(e) => r matches Err(err) && err == e,
        }
    }

    /// Whether blocks can be reverted. They never can: a light client has
    /// no earlier state to go back to.
    pub open spec fn can_revert(&self) -> bool {
        false
    }

    /// Create new light backend.
    pub fn new(blockchain: Arc<Blockchain<S, F>>) -> (r: Self)
        ensures
            *r.spec_blockchain() == blockchain,
    {
        Backend { blockchain }
    }

    /// Get shared blockchain reference.
    #[verifier::when_used_as_spec(spec_blockchain)]
    pub fn blockchain(&self) -> (r: &Arc<Blockchain<S, F>>)
        ensures
            r == self.spec_blockchain(),
    {
        &self.blockchain
    }

    /// Opens the import of a block on top of `block`. The operation starts
    /// with nothing staged, whatever `block` is: a light client needs no
    /// earlier state to import a header.
    pub fn begin_operation(&self, block: BlockId) -> (r: Result<ImportOperation<S, F>, ClientError>)
        ensures
            r matches Ok(operation) && operation@ == Staged::fresh(),
    {
        Ok(ImportOperation::new())
    }

    /// The storage of the changes tries. A light client keeps none.
    pub fn changes_trie_storage(&self) -> (r: Option<&ChangesTrieStorage>)
        ensures
            r is None,
    {
        None
    }

    /// Takes the chain back by `n` blocks. A light client cannot, so no
    /// caller may ask.
    pub fn revert(&self, n: u64) -> (r: Result<u64, ClientError>)
        requires
            self.can_revert(),
    {
        vstd::pervasive::unreached()
    }
}

impl<S: BlockchainStorage, F: Fetcher> Backend<S, F> {
    /// Hands what was staged in `operation` to the header store, once, and
    /// returns the store's answer.
    pub fn commit_operation(&self, operation: ImportOperation<S, F>) -> (r: Result<(), ClientError>)
        requires
            operation@.is_ready(),
        ensures
            call_ensures(
                S::import_header,
                (
                    self.spec_blockchain().spec_storage(),
                    operation@.import_arguments().0,
                    operation@.import_arguments().1,
                    operation@.import_arguments().2,
                ),
                r,
            ),
    {
        let (is_new_best, header, authorities) = operation.into_import_arguments();
        self.blockchain.storage().import_header(is_new_best, header, authorities)
    }

    /// Commits `operation` if it has been given its block data, and says
    /// whether it did. An operation without a header is not committed:
    /// nothing is handed to the header store, and `None` comes back. For
    /// one with a header the store's answer comes back, as
    /// `commit_operation` gives it.
    pub fn commit_if_ready(&self, operation: ImportOperation<S, F>) -> (r: Option<
        Result<(), ClientError>,
    >)
        ensures
            r is Some <==> operation@.is_ready(),
            r matches Some(answer) ==> call_ensures(
                S::import_header,
                (
                    self.spec_blockchain().spec_storage(),
                    operation@.import_arguments().0,
                    operation@.import_arguments().1,
                    operation@.import_arguments().2,
                ),
                answer,
            ),
    {
        if operation.is_ready() {
            Some(self.commit_operation(operation))
        } else {
            None
        }
    }

    /// The state of `block`, to be read on demand.
    ///
    /// A block named by its hash is taken as it is: the view is bound to
    /// that hash, and whether the block is known shows at the first read.
    /// A block named by its height is looked up in the header store, and is
    /// unknown unless the store answers with a hash. Each view is new: it
    /// has a header cache of its own, empty at first, and reaches the
    /// blockchain and its fetcher without owning them.
    pub fn state_at(&self, block: BlockId) -> (r: Result<OnDemandState<S, F>, ClientError>)
        ensures
            match block {
                BlockId::Hash(hash) => self.binds(r, Ok(hash)),
                BlockId::Number(number) => exists|lookup: Result<Option<H256>, ClientError>|
                    #[trigger] self.spec_blockchain().finds_hash(number, lookup) && self.binds(
                        r,
                        spec_hash_or_unknown(number, lookup),
                    ),
            },
    {
        let resolved = match block {
            BlockId::Hash(hash) => Ok(hash),
            BlockId::Number(number) => {
                let lookup = self.blockchain.hash(number);
                assert(self.spec_blockchain().finds_hash(number, lookup));
                hash_or_unknown(number, lookup)
            },
        };
        match resolved {
            Ok(hash) => Ok(OnDemandState::bound_to(&self.blockchain, hash)),
            Err(e) => Err(e),
        }
    }
}

} // verus!
