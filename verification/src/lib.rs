//! State access for a light client: a node that keeps block headers only
//! and asks full nodes for everything else when it is needed.

pub mod backend;
pub mod blockchain;
pub mod cache;
pub mod error;
pub mod fetcher;
pub mod handle;
pub mod import;
pub mod primitives;
pub mod state;
pub mod trie;
