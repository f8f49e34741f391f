//! The capabilities that an `eth_` API is composed of.
//!
//! Each capability is a trait, and what it needs of other capabilities is
//! written as its supertraits: an API offers a capability only if it offers
//! all that the capability builds on.

use crate::block::BlockId;
use crate::node::OpNodeCore;
use crate::router::ChainForks;
use alloy_primitives::{Address, Bytes, B256, U256};
use jsonrpsee_core::client::Error;
use parking_lot::RwLock;
use vstd::prelude::*;

verus! {

/// The types that an API answers with.
pub trait EthApiTypes {
    /// The one error type that every capability of the API fails with.
    type Error;

    /// The builder of transaction responses.
    type TransactionCompat;

    /// Returns the builder of transaction responses.
    fn tx_resp_builder(&self) -> &Self::TransactionCompat;
}

/// Access to the cache of recent blocks and receipts.
pub trait RpcNodeCoreExt: OpNodeCore {
    /// Returns the cache of recent blocks and receipts.
    fn cache(&self) -> &Self::Cache;
}

/// What the API reports of the node itself.
pub trait EthApiSpec: OpNodeCore {
    /// Returns the height of the chain when the API was started.
    fn starting_block(&self) -> U256;

    /// Returns the lock around the registry of signers. Requests take it for
    /// reading; only the installation of development signers writes.
    fn signers(&self) -> &RwLock<Vec<Self::Signer>>;
}

/// Runs work off the request path: IO-bound tasks on a spawner, CPU-heavy
/// tasks on a bounded pool behind an admission guard.
pub trait SpawnBlocking: OpNodeCore {
    /// Returns the spawner of IO-bound tasks.
    fn io_task_spawner(&self) -> &Self::TaskSpawner;

    /// Returns the pool on which CPU-heavy tasks run.
    fn tracing_task_pool(&self) -> &Self::TaskPool;

    /// Returns the guard that bounds how many CPU-heavy tasks run at once.
    fn tracing_task_guard(&self) -> &Self::TaskGuard;
}

/// Resolves blocks by hash, height and tag.
pub trait LoadBlock: OpNodeCore {

}

/// Serves gas-price and fee-history queries. Builds on [`LoadBlock`].
pub trait LoadFee: LoadBlock {
    /// Returns the gas-price oracle.
    fn gas_oracle(&self) -> &Self::GasOracle;

    /// Returns the fee-history cache.
    fn fee_history_cache(&self) -> &Self::FeeHistoryCache;
}

/// Serves the balance, code and storage of accounts as of a block.
pub trait LoadState: OpNodeCore {

}

/// Where the code of an account is to be read.
#[allow(inconsistent_fields)]
#[derive(Clone, Copy, PartialEq, Eq, Debug)]
pub enum CodeRequest {
    /// Ask the historical endpoint for the code of `address` as of `block_id`,
    /// and wait no longer than `timeout_secs` seconds for the answer.
    Historical { address: Address, block_id: BlockId, timeout_secs: u64 },
    /// Read the code of `address` as of `block_id` from the node's own state.
    Local { address: Address, block_id: Option<BlockId> },
}

/// What came of reading the code of an account, over the error `E` of the
/// node's own state.
#[derive(Debug)]
pub enum CodeReply<E> {
    /// The node's own state answered.
    Local(Result<Bytes, E>),
    /// The historical endpoint answered within the time allowed.
    Historical(Result<Bytes, Error>),
    /// The historical endpoint did not answer within the time allowed.
    HistoricalTimedOut,
}

/// The state queries that users reach. Builds on [`LoadState`] and
/// [`SpawnBlocking`].
pub trait EthState: LoadState + SpawnBlocking {
    /// Returns how many blocks behind the tip a proof may be asked for.
    fn max_proof_window(&self) -> u64;

    /// Decides where the code of `address` as of `block_id` is to be read.
    /// A block named by hash is looked up with `block_by_hash`.
    fn get_code<E, F>(
        &self,
        address: Address,
        block_id: Option<BlockId>,
        chain: &ChainForks,
        block_by_hash: F,
    ) -> CodeRequest where F: FnOnce(B256) -> Result<Option<u64>, E>
        requires
            block_id matches Some(BlockId::Hash(hash)) ==> block_by_hash.requires(
                (hash.block_hash,),
            ),
    ;
}

/// The fee queries that users reach. Builds on [`LoadFee`].
pub trait EthFees: LoadFee {

}

/// Tracing and simulation, which run on the pool for blocking tasks. Builds on
/// [`LoadState`].
pub trait Trace: LoadState {

}

/// Gives a development node its signers.
pub trait AddDevSigners: OpNodeCore {
    /// Replaces the registry of signers with newly made development signers,
    /// each one a result of `new_signer`.
    fn with_dev_accounts<F: Fn() -> Self::Signer>(&self, new_signer: &F)
        requires
            new_signer.requires(()),
    ;
}

} // verus!
