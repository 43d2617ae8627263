//! Plain block data that the light client passes around: hashes, headers,
//! block identifiers and the bundles of trie nodes that full nodes work with.

use vstd::prelude::*;

verus! {

/// A 32-byte hash.
#[derive(Clone, Copy, Debug, PartialEq, Eq, Hash)]
pub struct H256(pub [u8; 32]);

impl H256 {
    /// Whether every byte of the hash is zero.
    pub open spec fn is_zero(self) -> bool {
        forall|i: int| 0 <= i < 32 ==> self.0[i] == 0u8
    }

    /// The hash whose bytes are all zero.
    pub fn zero() -> (r: H256)
        ensures
            r.is_zero(),
    {
        H256([0u8; 32])
    }
}

impl Default for H256 {
    fn default() -> (r: H256)
        ensures
            r.is_zero(),
    {
        H256::zero()
    }
}

/// The public key by which an authority is known.
#[derive(Clone, Copy, Debug, PartialEq, Eq, Hash)]
pub struct AuthorityId(pub [u8; 32]);

/// The metadata of one block. The state root is the commitment against
/// which a fetched value can be checked.
#[derive(Clone, Copy, Debug, PartialEq, Eq)]
pub struct Header {
    pub parent_hash: H256,
    pub number: u64,
    pub state_root: H256,
    pub extrinsics_root: H256,
}

/// The two ways to name a block.
#[derive(Clone, Copy, Debug, PartialEq, Eq)]
pub enum BlockId {
    /// By the hash of its header.
    Hash(H256),
    /// By its height in the chain.
    Number(u64),
}

/// The signed agreement of the authorities on one block.
#[derive(Clone, Debug, PartialEq, Eq)]
pub struct Justification {
    /// The round of the agreement in which the block was accepted.
    pub round_number: u32,
    /// The hash of the block that was accepted.
    pub hash: H256,
    /// Who signed, each with the signature.
    pub signatures: Vec<(AuthorityId, Vec<u8>)>,
}

} // verus!
