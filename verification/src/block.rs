//! Block identifiers as requests name them: by hash, by height, or by tag.

use alloy_primitives::B256;
use vstd::prelude::*;

verus! {

/// A block Number (or tag - "latest", "earliest", "pending").
#[derive(Clone, Copy, PartialEq, Eq, Debug)]
pub enum BlockNumberOrTag {
    /// Latest block
    Latest,
    /// Finalized block accepted as canonical
    Finalized,
    /// Safe head block
    Safe,
    /// Earliest block (genesis)
    Earliest,
    /// Pending block (not yet part of the blockchain)
    Pending,
    /// Block by number from canonical chain
    Number(u64),
}

impl BlockNumberOrTag {
    /// The height that the identifier states, if it states one; a tag states none.
    pub open spec fn number(self) -> Option<u64> {
        match self {
            BlockNumberOrTag::Number(num) => Some(num),
            _ => None,
        }
    }

    /// Returns the numeric block number if explicitly set.
    pub fn as_number(&self) -> (number: Option<u64>)
        ensures
            number == self.number(),
    {
        match *self {
            BlockNumberOrTag::Number(num) => Some(num),
            _ => None,
        }
    }
}

/// A block hash which may have a boolean `requireCanonical` field.
#[derive(Clone, Copy, PartialEq, Eq, Debug)]
pub struct RpcBlockHash {
    /// A block hash
    pub block_hash: B256,
    /// Whether the block must be a canonical block
    pub require_canonical: Option<bool>,
}

/// A Block Identifier.
#[derive(Clone, Copy, PartialEq, Eq, Debug)]
pub enum BlockId {
    /// A block hash and an optional bool that defines if it's canonical
    Hash(RpcBlockHash),
    /// A block number
    Number(BlockNumberOrTag),
}

} // verus!
