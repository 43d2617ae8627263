//! Trie data as full nodes hold it. A light client holds none of it; these
//! types give a name to what it is offered and to what it cannot offer.

use crate::primitives::H256;
use vstd::prelude::*;

verus! {

/// Trie nodes held in memory, each under its hash.
#[derive(Debug, PartialEq, Eq)]
pub struct MemoryDb {
    pub nodes: Vec<(H256, Vec<u8>)>,
}

/// State stored as a trie: the nodes, and the root that commits to them.
#[derive(Debug, PartialEq, Eq)]
pub struct TrieBackend {
    pub storage: MemoryDb,
    pub root: H256,
}

/// The tries that record which keys each block changed.
#[derive(Debug, PartialEq, Eq)]
pub struct ChangesTrieStorage {
    pub storage: MemoryDb,
}

} // verus!
