//! The facilities that a node supplies to its `eth_` API.

use vstd::prelude::*;

verus! {

/// The bundle of facilities that a node hands to the API, named by their types.
///
/// Four of them are the node's core components: the chain-state provider, the
/// transaction pool, the network and the EVM configuration. The others are the
/// services that the API backend is assembled from.
pub trait OpNodeCore {
    /// The provider of blocks and state.
    type Provider;

    /// The transaction pool.
    type Pool;

    /// The network API.
    type Network;

    /// The EVM configuration.
    type Evm;

    /// The cache of recent blocks and receipts.
    type Cache;

    /// The oracle that suggests gas prices.
    type GasOracle;

    /// The cache behind fee-history queries.
    type FeeHistoryCache;

    /// The spawner of short, IO-bound tasks.
    type TaskSpawner;

    /// The bounded pool on which CPU-heavy tasks run.
    type TaskPool;

    /// The admission guard that bounds how many CPU-heavy tasks run at once.
    type TaskGuard;

    /// A signer of transactions.
    type Signer;

    /// The error of the node's provider, pool and EVM.
    type Error;

    /// Returns the transaction pool of the node.
    fn pool(&self) -> &Self::Pool;

    /// Returns the node's EVM configuration.
    fn evm_config(&self) -> &Self::Evm;

    /// Returns the handle to the network.
    fn network(&self) -> &Self::Network;

    /// Returns the provider of the node.
    fn provider(&self) -> &Self::Provider;
}

/// A provider that finds blocks by hash, by height and by tag.
pub trait BlockReaderIdExt {

}

/// A provider that opens the state as of a block.
pub trait StateProviderFactory {

}

/// A pool that holds the pending transactions.
pub trait TransactionPool {

}

/// An EVM configuration that executes the headers and transactions of the
/// provider `P`.
pub trait ConfigureEvm<P> {

}

} // verus!
