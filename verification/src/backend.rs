//! The state that every clone of the API shares.

use crate::node::OpNodeCore;
use crate::signers::new_signer_registry;
use alloy_primitives::U256;
use parking_lot::RwLock;
use vstd::prelude::*;

verus! {

/// The limits that the API is configured with.
#[derive(Clone, Copy, PartialEq, Eq, Structural, Debug)]
pub struct EthConfig {
    /// Maximum gas that a call or an estimate may use.
    pub rpc_gas_cap: u64,
    /// Maximum number of blocks that one simulation may span.
    pub rpc_max_simulate_blocks: u64,
    /// How many blocks behind the tip a proof may be asked for.
    pub eth_proof_window: u64,
    /// How many proof requests may run at once.
    pub proof_permits: usize,
}

/// Holds all the data required to serve the core `eth_` API.
///
/// Everything in it is fixed when it is made, but for the registry of signers,
/// which sits behind a lock of its own. A backend owns its registry: two
/// backends never share one.
pub struct EthApiNodeBackend<N: OpNodeCore> {
    provider: N::Provider,
    pool: N::Pool,
    network: N::Network,
    evm_config: N::Evm,
    cache: N::Cache,
    gas_oracle: N::GasOracle,
    fee_history_cache: N::FeeHistoryCache,
    task_spawner: N::TaskSpawner,
    blocking_task_pool: N::TaskPool,
    blocking_task_guard: N::TaskGuard,
    signers: RwLock<Vec<N::Signer>>,
    starting_block: U256,
    config: EthConfig,
}

impl<N: OpNodeCore> EthApiNodeBackend<N> {
    /// The provider that the backend was made with.
    pub closed spec fn spec_provider(&self) -> N::Provider {
        self.provider
    }

    /// The transaction pool that the backend was made with.
    pub closed spec fn spec_pool(&self) -> N::Pool {
        self.pool
    }

    /// The network handle that the backend was made with.
    pub closed spec fn spec_network(&self) -> N::Network {
        self.network
    }

    /// The EVM configuration that the backend was made with.
    pub closed spec fn spec_evm_config(&self) -> N::Evm {
        self.evm_config
    }

    /// The state cache that the backend was made with.
    pub closed spec fn spec_cache(&self) -> N::Cache {
        self.cache
    }

    /// The gas-price oracle that the backend was made with.
    pub closed spec fn spec_gas_oracle(&self) -> N::GasOracle {
        self.gas_oracle
    }

    /// The fee-history cache that the backend was made with.
    pub closed spec fn spec_fee_history_cache(&self) -> N::FeeHistoryCache {
        self.fee_history_cache
    }

    /// The task spawner that the backend was made with.
    pub closed spec fn spec_task_spawner(&self) -> N::TaskSpawner {
        self.task_spawner
    }

    /// The pool for blocking tasks that the backend was made with.
    pub closed spec fn spec_blocking_task_pool(&self) -> N::TaskPool {
        self.blocking_task_pool
    }

    /// The admission guard that the backend was made with.
    pub closed spec fn spec_blocking_task_guard(&self) -> N::TaskGuard {
        self.blocking_task_guard
    }

    /// The lock around the backend's registry of signers.
    pub closed spec fn spec_signers(&self) -> RwLock<Vec<N::Signer>> {
        self.signers
    }

    /// The height of the chain when the backend was made.
    pub closed spec fn spec_starting_block(&self) -> U256 {
        self.starting_block
    }

    /// The limits that the backend was made with.
    pub closed spec fn spec_config(&self) -> EthConfig {
        self.config
    }

    /// Creates a new backend from the node's components, the services that
    /// serve requests, and the configured limits. Its registry of signers is
    /// new and empty.
    pub fn new(
        provider: N::Provider,
        pool: N::Pool,
        network: N::Network,
        evm_config: N::Evm,
        cache: N::Cache,
        gas_oracle: N::GasOracle,
        fee_history_cache: N::FeeHistoryCache,
        task_spawner: N::TaskSpawner,
        blocking_task_pool: N::TaskPool,
        blocking_task_guard: N::TaskGuard,
        starting_block: U256,
        config: EthConfig,
    ) -> (backend: Self)
        ensures
            backend.spec_provider() == provider,
            backend.spec_pool() == pool,
            backend.spec_network() == network,
            backend.spec_evm_config() == evm_config,
            backend.spec_cache() == cache,
            backend.spec_gas_oracle() == gas_oracle,
            backend.spec_fee_history_cache() == fee_history_cache,
            backend.spec_task_spawner() == task_spawner,
            backend.spec_blocking_task_pool() == blocking_task_pool,
            backend.spec_blocking_task_guard() == blocking_task_guard,
            backend.spec_starting_block() == starting_block,
            backend.spec_config() == config,
    {
        Self {
            provider,
            pool,
            network,
            evm_config,
            cache,
            gas_oracle,
            fee_history_cache,
            task_spawner,
            blocking_task_pool,
            blocking_task_guard,
            signers: new_signer_registry(Vec::new()),
            starting_block,
            config,
        }
    }

    /// Returns the provider of blocks and state.
    pub fn provider(&self) -> (provider: &N::Provider)
        ensures
            *provider == self.spec_provider(),
    {
        &self.provider
    }

    /// Returns the transaction pool.
    pub fn pool(&self) -> (pool: &N::Pool)
        ensures
            *pool == self.spec_pool(),
    {
        &self.pool
    }

    /// Returns the handle to the network.
    pub fn network(&self) -> (network: &N::Network)
        ensures
            *network == self.spec_network(),
    {
        &self.network
    }

    /// Returns the EVM configuration.
    pub fn evm_config(&self) -> (evm_config: &N::Evm)
        ensures
            *evm_config == self.spec_evm_config(),
    {
        &self.evm_config
    }

    /// Returns the cache of recent blocks and receipts.
    pub fn cache(&self) -> (cache: &N::Cache)
        ensures
            *cache == self.spec_cache(),
    {
        &self.cache
    }

    /// Returns the gas-price oracle.
    pub fn gas_oracle(&self) -> (gas_oracle: &N::GasOracle)
        ensures
            *gas_oracle == self.spec_gas_oracle(),
    {
        &self.gas_oracle
    }

    /// Returns the fee-history cache.
    pub fn fee_history_cache(&self) -> (fee_history_cache: &N::FeeHistoryCache)
        ensures
            *fee_history_cache == self.spec_fee_history_cache(),
    {
        &self.fee_history_cache
    }

    /// Returns the spawner of IO-bound tasks.
    pub fn task_spawner(&self) -> (task_spawner: &N::TaskSpawner)
        ensures
            *task_spawner == self.spec_task_spawner(),
    {
        &self.task_spawner
    }

    /// Returns the pool on which CPU-heavy tasks run.
    pub fn blocking_task_pool(&self) -> (blocking_task_pool: &N::TaskPool)
        ensures
            *blocking_task_pool == self.spec_blocking_task_pool(),
    {
        &self.blocking_task_pool
    }

    /// Returns the guard that admits CPU-heavy tasks.
    pub fn blocking_task_guard(&self) -> (blocking_task_guard: &N::TaskGuard)
        ensures
            *blocking_task_guard == self.spec_blocking_task_guard(),
    {
        &self.blocking_task_guard
    }

    /// Returns the lock around the registry of signers.
    pub fn signers(&self) -> (signers: &RwLock<Vec<N::Signer>>)
        ensures
            *signers == self.spec_signers(),
    {
        &self.signers
    }

    /// Returns the height of the chain when the backend was made.
    pub fn starting_block(&self) -> (starting_block: U256)
        ensures
            starting_block == self.spec_starting_block(),
    {
        self.starting_block
    }

    /// Returns the maximum gas that a call or an estimate may use.
    pub fn gas_cap(&self) -> (gas_cap: u64)
        ensures
            gas_cap == self.spec_config().rpc_gas_cap,
    {
        self.config.rpc_gas_cap
    }

    /// Returns the maximum number of blocks that one simulation may span.
    pub fn max_simulate_blocks(&self) -> (max_simulate_blocks: u64)
        ensures
            max_simulate_blocks == self.spec_config().rpc_max_simulate_blocks,
    {
        self.config.rpc_max_simulate_blocks
    }

    /// Returns how many blocks behind the tip a proof may be asked for.
    pub fn eth_proof_window(&self) -> (eth_proof_window: u64)
        ensures
            eth_proof_window == self.spec_config().eth_proof_window,
    {
        self.config.eth_proof_window
    }

    /// Returns how many proof requests may run at once.
    pub fn proof_permits(&self) -> (proof_permits: usize)
        ensures
            proof_permits == self.spec_config().proof_permits,
    {
        self.config.proof_permits
    }
}

} // verus!
