//! Decides whether a block predates the Bedrock fork of an Optimism chain, in
//! which case its state is to be asked of a historical archive endpoint.

use crate::block::BlockId;
use alloy_primitives::B256;
use vstd::prelude::*;

verus! {

/// What the routing rule reads of a chain's hardfork configuration.
#[derive(Clone, Copy, PartialEq, Eq, Structural, Debug)]
pub struct ChainForks {
    /// Whether the chain is an Optimism rollup.
    pub optimism: bool,
    /// The height at which Bedrock activates; `None` where the chain activates
    /// it at no height.
    pub bedrock_block: Option<u64>,
}

impl ChainForks {
    /// Whether Bedrock is active at `block_number`: an activation height is
    /// set and the block has reached it.
    pub open spec fn bedrock_active_at(self, block_number: u64) -> bool {
        match self.bedrock_block {
            Some(activation) => block_number >= activation,
            None => false,
        }
    }

    /// Whether the chain is an Optimism rollup.
    pub fn is_optimism(&self) -> (optimism: bool)
        ensures
            optimism == self.optimism,
    {
        self.optimism
    }

    /// Returns `true` if Bedrock is active at the given block height.
    pub fn is_bedrock_active_at_block(&self, block_number: u64) -> (active: bool)
        ensures
            active == self.bedrock_active_at(block_number),
    {
        match self.bedrock_block {
            Some(activation) => block_number >= activation,
            None => false,
        }
    }
}

/// The height that a provider's answer to a lookup by hash resolves to: the
/// height of the block it found, and none where it found no block or failed.
pub open spec fn found_height<E>(found: Result<Option<u64>, E>) -> Option<u64> {
    match found {
        Ok(Some(block_number)) => Some(block_number),
        _ => None,
    }
}

/// The height of the block that `block_id` names, given the provider's answer
/// `found` to a lookup of its hash where it names one by hash.
pub open spec fn resolved_height<E>(block_id: BlockId, found: Result<Option<u64>, E>) -> Option<u64> {
    match block_id {
        BlockId::Hash(_) => found_height(found),
        BlockId::Number(block_num_or_tag) => block_num_or_tag.number(),
    }
}

/// The routing rule: a block is before Bedrock if its height is resolved, the
/// chain is an Optimism rollup, and Bedrock is not active at that height.
pub open spec fn pre_bedrock(chain: ChainForks, height: Option<u64>) -> bool {
    match height {
        Some(block_number) => chain.optimism && !chain.bedrock_active_at(block_number),
        None => false,
    }
}

/// Applies the routing rule to a height that has been resolved, or to none.
pub fn is_pre_bedrock_at(chain: &ChainForks, height: Option<u64>) -> (pre: bool)
    ensures
        pre == pre_bedrock(*chain, height),
{
    match height {
        Some(block_number) => chain.is_optimism() && !chain.is_bedrock_active_at_block(block_number),
        None => false,
    }
}

/// The height that a provider's answer to a lookup by hash resolves to. The
/// provider's error, if it gave one, is dropped here.
pub fn lookup_height<E>(found: Result<Option<u64>, E>) -> (height: Option<u64>)
    ensures
        height == found_height(found),
{
    match found {
        Ok(Some(block_number)) => Some(block_number),
        _ => None,
    }
}

/// Whether the block that `block_id` names predates Bedrock on `chain`.
///
/// A block named by hash is looked up with `block_by_hash`, which answers with
/// the height of the block, with `Ok(None)` if there is none, or with an error.
/// The rule fails open: a block that cannot be resolved counts as not before
/// Bedrock, and no error is passed on.
pub fn is_optimism_pre_bedrock<E, F>(
    chain: &ChainForks,
    block_id: BlockId,
    block_by_hash: F,
) -> (pre: bool) where F: FnOnce(B256) -> Result<Option<u64>, E>
    requires
        block_id matches BlockId::Hash(hash) ==> block_by_hash.requires((hash.block_hash,)),
    ensures
        block_id matches BlockId::Number(block_num_or_tag) ==> pre == pre_bedrock(
            *chain,
            block_num_or_tag.number(),
        ),
        block_id matches BlockId::Hash(hash) ==> exists|found: Result<Option<u64>, E>|
            #[trigger] block_by_hash.ensures((hash.block_hash,), found) && pre == pre_bedrock(
                *chain,
                found_height(found),
            ),
        !chain.optimism ==> !pre,
{
    let block_number = match block_id {
        BlockId::Hash(hash) => lookup_height(block_by_hash(hash.block_hash)),
        BlockId::Number(block_num_or_tag) => block_num_or_tag.as_number(),
    };
    is_pre_bedrock_at(chain, block_number)
}

/// The rule fails open: a block that cannot be resolved is never before
/// Bedrock, whatever the chain. A block named by hash is unresolved where the
/// provider found none or failed; one named by tag, where the tag states no
/// height.
pub proof fn lemma_unresolved_block_is_not_pre_bedrock<E>(
    chain: ChainForks,
    block_id: BlockId,
    found: Result<Option<u64>, E>,
)
    requires
        match block_id {
            BlockId::Hash(_) => !(found matches Ok(Some(_))),
            BlockId::Number(block_num_or_tag) => block_num_or_tag.number() is None,
        },
    ensures
        resolved_height(block_id, found) is None,
        !pre_bedrock(chain, resolved_height(block_id, found)),
{
}

/// On a chain that is no Optimism rollup no block is before Bedrock, at
/// whatever height it stands and whether or not it was resolved.
pub proof fn lemma_other_chain_has_no_pre_bedrock(chain: ChainForks, height: Option<u64>)
    requires
        !chain.optimism,
    ensures
        !pre_bedrock(chain, height),
{
}

/// On an Optimism rollup a resolved block is before Bedrock exactly if its
/// height lies below the height at which Bedrock activates, or Bedrock
/// activates at no height.
pub proof fn lemma_pre_bedrock_is_below_activation(chain: ChainForks, block_number: u64)
    requires
        chain.optimism,
    ensures
        pre_bedrock(chain, Some(block_number)) <==> (chain.bedrock_block matches Some(activation)
            ==> block_number < activation),
{
}

} // verus!
