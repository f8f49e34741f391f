//! The `eth_` endpoint of an Optimism node.

use crate::backend::EthApiNodeBackend;
use crate::block::BlockId;
use crate::builder::OpEthApiBuilder;
use crate::capabilities::{
    AddDevSigners, CodeReply, CodeRequest, EthApiSpec, EthApiTypes, EthFees, EthState, LoadBlock,
    LoadFee, LoadState, RpcNodeCoreExt, SpawnBlocking, Trace,
};
use crate::error::OpEthApiError;
use crate::node::{
    BlockReaderIdExt, ConfigureEvm, OpNodeCore, StateProviderFactory, TransactionPool,
};
use crate::router::{found_height, is_optimism_pre_bedrock, pre_bedrock, ChainForks};
use crate::sequencer::SequencerClient;
use crate::signers::{dev_signers, replace_signers};
use alloy_primitives::{Address, Bytes, B256, U256};
use jsonrpsee::http_client::HttpClient;
use parking_lot::RwLock;
use std::sync::Arc;
use vstd::prelude::*;

verus! {

/// Seconds that a request proxied to the historical endpoint may take.
pub const HISTORICAL_REQUEST_TIMEOUT_SECS: u64 = 5;

/// The JSON-RPC method that asks an endpoint for the code of an account.
pub const GET_CODE_METHOD: &'static str = "eth_getCode";

/// Where the code of `address` as of `block_id` is to be read: at the
/// historical endpoint if a block is named, that block is before Bedrock, and
/// an endpoint is configured; in the node's own state otherwise.
pub open spec fn code_request(
    address: Address,
    block_id: Option<BlockId>,
    before_bedrock: bool,
    has_historical: bool,
) -> CodeRequest {
    if block_id is Some && before_bedrock && has_historical {
        CodeRequest::Historical {
            address,
            block_id: block_id->0,
            timeout_secs: HISTORICAL_REQUEST_TIMEOUT_SECS,
        }
    } else {
        CodeRequest::Local { address, block_id }
    }
}

/// A request for code goes to the historical endpoint only if it names a
/// block, an endpoint is configured, the chain is an Optimism rollup, and the
/// block was resolved to a height at which Bedrock is not yet active.
pub proof fn lemma_historical_request_is_before_bedrock(
    address: Address,
    block_id: Option<BlockId>,
    chain: ChainForks,
    height: Option<u64>,
    has_historical: bool,
)
    requires
        code_request(address, block_id, pre_bedrock(chain, height), has_historical) is Historical,
    ensures
        block_id is Some,
        has_historical,
        chain.optimism,
        height matches Some(block_number) && !chain.bedrock_active_at(block_number),
{
}

/// What a request for code returns, given what came of reading it: the code
/// that was read, the node's own error wrapped, or the failure of the
/// historical endpoint as an error of its own.
pub open spec fn code_of_reply<E>(reply: CodeReply<E>) -> Result<Bytes, OpEthApiError<E>> {
    match reply {
        CodeReply::Local(Ok(code)) => Ok(code),
        CodeReply::Local(Err(error)) => Err(OpEthApiError::Eth(error)),
        CodeReply::Historical(Ok(code)) => Ok(code),
        CodeReply::Historical(Err(error)) => Err(OpEthApiError::HistoricalEndpoint(error)),
        CodeReply::HistoricalTimedOut => Err(OpEthApiError::HistoricalTimeout),
    }
}

/// Turns what came of reading the code of an account into the answer to the
/// request. A failure of the historical endpoint is passed on as an error: it
/// never becomes empty code.
pub fn code_from_reply<E>(reply: CodeReply<E>) -> (code: Result<Bytes, OpEthApiError<E>>)
    ensures
        code == code_of_reply(reply),
{
    match reply {
        CodeReply::Local(Ok(code)) => Ok(code),
        CodeReply::Local(Err(error)) => Err(OpEthApiError::Eth(error)),
        CodeReply::Historical(Ok(code)) => Ok(code),
        CodeReply::Historical(Err(error)) => Err(OpEthApiError::HistoricalEndpoint(error)),
        CodeReply::HistoricalTimedOut => Err(OpEthApiError::HistoricalTimeout),
    }
}

/// Container type `OpEthApi`
struct OpEthApiInner<N: OpNodeCore> {
    /// Gateway to node's core components.
    eth_api: EthApiNodeBackend<N>,
    /// Sequencer client, configured to forward submitted transactions to sequencer of given OP
    /// network.
    sequencer_client: Option<SequencerClient>,
    /// Client of the endpoint that serves the state of blocks from before Bedrock.
    historical_rpc_provider: Option<HttpClient>,
}

impl<N: OpNodeCore> OpEthApiInner<N> {
    /// Returns a reference to the [`EthApiNodeBackend`].
    fn eth_api(&self) -> (eth_api: &EthApiNodeBackend<N>)
        ensures
            *eth_api == self.eth_api,
    {
        &self.eth_api
    }

    /// Returns the configured sequencer client, if any.
    fn sequencer_client(&self) -> (client: Option<&SequencerClient>)
        ensures
            client is Some <==> self.sequencer_client is Some,
            client matches Some(sequencer) ==> Some(*sequencer) == self.sequencer_client,
    {
        self.sequencer_client.as_ref()
    }

    /// Returns the historical rpc provider, if any.
    fn historical_rpc_provider(&self) -> (client: Option<&HttpClient>)
        ensures
            client is Some <==> self.historical_rpc_provider is Some,
            client matches Some(historical) ==> Some(*historical) == self.historical_rpc_provider,
    {
        self.historical_rpc_provider.as_ref()
    }
}

/// Calls `Arc::clone` of std, which makes another handle to the same value.
#[verifier::external_body]
fn share<T>(handle: &Arc<T>) -> (shared: Arc<T>)
    ensures
        shared == *handle,
{
    Arc::clone(handle)
}

/// The `Eth` API of an Optimism node.
///
/// This type provides the functionality for handling `eth_` related requests.
///
/// It holds the backend of the core `eth_` API, and what Optimism adds to it:
/// the sequencer that submitted transactions are forwarded to, and the
/// historical endpoint that serves the state of blocks from before Bedrock.
/// A clone is another handle to the same backend and configuration.
pub struct OpEthApi<N: OpNodeCore> {
    /// Gateway to node's core components.
    inner: Arc<OpEthApiInner<N>>,
}

impl<N: OpNodeCore> Clone for OpEthApi<N> {
    fn clone(&self) -> (api: Self)
        ensures
            api == *self,
    {
        Self { inner: share(&self.inner) }
    }
}

impl<N: OpNodeCore> OpEthApi<N> {
    /// The backend that every clone of this API shares.
    pub closed spec fn spec_eth_api(&self) -> EthApiNodeBackend<N> {
        self.inner.eth_api
    }

    /// The sequencer that the API was built with, if any.
    pub closed spec fn spec_sequencer_client(&self) -> Option<SequencerClient> {
        self.inner.sequencer_client
    }

    /// The client of the historical endpoint that the API was built with, if any.
    pub closed spec fn spec_historical_rpc_provider(&self) -> Option<HttpClient> {
        self.inner.historical_rpc_provider
    }

    /// Puts the parts of an API behind one shared handle.
    pub(crate) fn from_parts(
        eth_api: EthApiNodeBackend<N>,
        sequencer_client: Option<SequencerClient>,
        historical_rpc_provider: Option<HttpClient>,
    ) -> (api: Self)
        ensures
            api.spec_eth_api() == eth_api,
            api.spec_sequencer_client() == sequencer_client,
            api.spec_historical_rpc_provider() == historical_rpc_provider,
    {
        Self {
            inner: Arc::new(OpEthApiInner { eth_api, sequencer_client, historical_rpc_provider }),
        }
    }

    /// Returns a reference to the [`EthApiNodeBackend`].
    pub fn eth_api(&self) -> (eth_api: &EthApiNodeBackend<N>)
        ensures
            *eth_api == self.spec_eth_api(),
    {
        self.inner.eth_api()
    }

    /// Returns the configured sequencer client, if any.
    pub fn sequencer_client(&self) -> (client: Option<&SequencerClient>)
        ensures
            client is Some <==> self.spec_sequencer_client() is Some,
            client matches Some(sequencer) ==> Some(*sequencer) == self.spec_sequencer_client(),
    {
        self.inner.sequencer_client()
    }

    /// Returns the historical rpc provider, if any.
    pub fn historical_rpc_provider(&self) -> (client: Option<&HttpClient>)
        ensures
            client is Some <==> self.spec_historical_rpc_provider() is Some,
            client matches Some(historical) ==> Some(*historical)
                == self.spec_historical_rpc_provider(),
    {
        self.inner.historical_rpc_provider()
    }

    /// Build a [`OpEthApi`] using [`OpEthApiBuilder`].
    pub fn builder() -> (builder: OpEthApiBuilder)
        ensures
            builder.spec_sequencer_client() is None,
    {
        OpEthApiBuilder::new()
    }
}

impl<N: OpNodeCore> EthApiTypes for OpEthApi<N> {
    type Error = OpEthApiError<N::Error>;

    type TransactionCompat = Self;

    fn tx_resp_builder(&self) -> (builder: &Self)
        ensures
            *builder == *self,
    {
        self
    }
}

impl<N: OpNodeCore> OpNodeCore for OpEthApi<N> {
    type Provider = N::Provider;

    type Pool = N::Pool;

    type Network = N::Network;

    type Evm = N::Evm;

    type Cache = N::Cache;

    type GasOracle = N::GasOracle;

    type FeeHistoryCache = N::FeeHistoryCache;

    type TaskSpawner = N::TaskSpawner;

    type TaskPool = N::TaskPool;

    type TaskGuard = N::TaskGuard;

    type Signer = N::Signer;

    type Error = N::Error;

    fn pool(&self) -> (pool: &N::Pool)
        ensures
            *pool == self.spec_eth_api().spec_pool(),
    {
        self.inner.eth_api.pool()
    }

    fn evm_config(&self) -> (evm_config: &N::Evm)
        ensures
            *evm_config == self.spec_eth_api().spec_evm_config(),
    {
        self.inner.eth_api.evm_config()
    }

    fn network(&self) -> (network: &N::Network)
        ensures
            *network == self.spec_eth_api().spec_network(),
    {
        self.inner.eth_api.network()
    }

    fn provider(&self) -> (provider: &N::Provider)
        ensures
            *provider == self.spec_eth_api().spec_provider(),
    {
        self.inner.eth_api.provider()
    }
}

impl<N: OpNodeCore> RpcNodeCoreExt for OpEthApi<N> {
    fn cache(&self) -> (cache: &N::Cache)
        ensures
            *cache == self.spec_eth_api().spec_cache(),
    {
        self.inner.eth_api.cache()
    }
}

impl<N: OpNodeCore> EthApiSpec for OpEthApi<N> {
    fn starting_block(&self) -> (starting_block: U256)
        ensures
            starting_block == self.spec_eth_api().spec_starting_block(),
    {
        self.inner.eth_api.starting_block()
    }

    fn signers(&self) -> (signers: &RwLock<Vec<N::Signer>>)
        ensures
            *signers == self.spec_eth_api().spec_signers(),
    {
        self.inner.eth_api.signers()
    }
}

impl<N: OpNodeCore> SpawnBlocking for OpEthApi<N> {
    fn io_task_spawner(&self) -> (spawner: &N::TaskSpawner)
        ensures
            *spawner == self.spec_eth_api().spec_task_spawner(),
    {
        self.inner.eth_api.task_spawner()
    }

    fn tracing_task_pool(&self) -> (pool: &N::TaskPool)
        ensures
            *pool == self.spec_eth_api().spec_blocking_task_pool(),
    {
        self.inner.eth_api.blocking_task_pool()
    }

    fn tracing_task_guard(&self) -> (guard: &N::TaskGuard)
        ensures
            *guard == self.spec_eth_api().spec_blocking_task_guard(),
    {
        self.inner.eth_api.blocking_task_guard()
    }
}

impl<N: OpNodeCore> LoadBlock for OpEthApi<N> where N::Provider: BlockReaderIdExt {

}

impl<N: OpNodeCore> LoadFee for OpEthApi<N> where
    N::Provider: BlockReaderIdExt + StateProviderFactory,
 {
    fn gas_oracle(&self) -> (gas_oracle: &N::GasOracle)
        ensures
            *gas_oracle == self.spec_eth_api().spec_gas_oracle(),
    {
        self.inner.eth_api.gas_oracle()
    }

    fn fee_history_cache(&self) -> (fee_history_cache: &N::FeeHistoryCache)
        ensures
            *fee_history_cache == self.spec_eth_api().spec_fee_history_cache(),
    {
        self.inner.eth_api.fee_history_cache()
    }
}

impl<N: OpNodeCore> LoadState for OpEthApi<N> where
    N::Provider: StateProviderFactory,
    N::Pool: TransactionPool,
 {

}

impl<N: OpNodeCore> EthState for OpEthApi<N> where
    N::Provider: BlockReaderIdExt + StateProviderFactory,
    N::Pool: TransactionPool,
 {
    fn max_proof_window(&self) -> (window: u64)
        ensures
            window == self.spec_eth_api().spec_config().eth_proof_window,
    {
        self.inner.eth_api.eth_proof_window()
    }

    /// A request that names a block from before Bedrock goes to the historical
    /// endpoint, if one is configured; every other request is served from the
    /// node's own state. A block that cannot be resolved counts as not before
    /// Bedrock.
    fn get_code<E, F>(
        &self,
        address: Address,
        block_id: Option<BlockId>,
        chain: &ChainForks,
        block_by_hash: F,
    ) -> (request: CodeRequest) where F: FnOnce(B256) -> Result<Option<u64>, E>
        ensures
            block_id is None ==> request == (CodeRequest::Local { address, block_id }),
            block_id matches Some(BlockId::Number(block_num_or_tag)) ==> request == code_request(
                address,
                block_id,
                pre_bedrock(*chain, block_num_or_tag.number()),
                self.spec_historical_rpc_provider() is Some,
            ),
            block_id matches Some(BlockId::Hash(hash)) ==> exists|found: Result<Option<u64>, E>|
                #[trigger] block_by_hash.ensures((hash.block_hash,), found) && request
                    == code_request(
                    address,
                    block_id,
                    pre_bedrock(*chain, found_height(found)),
                    self.spec_historical_rpc_provider() is Some,
                ),
            request is Historical ==> chain.optimism && self.spec_historical_rpc_provider() is Some,
    {
        match block_id {
            Some(block_id) => {
                if is_optimism_pre_bedrock(chain, block_id, block_by_hash) {
                    if self.historical_rpc_provider().is_some() {
                        return CodeRequest::Historical {
                            address,
                            block_id,
                            timeout_secs: HISTORICAL_REQUEST_TIMEOUT_SECS,
                        };
                    }
                }
            },
            None => {},
        }
        CodeRequest::Local { address, block_id }
    }
}

impl<N: OpNodeCore> AddDevSigners for OpEthApi<N> {
    fn with_dev_accounts<F: Fn() -> N::Signer>(&self, new_signer: &F) {
        replace_signers(self.inner.eth_api.signers(), dev_signers(new_signer))
    }
}

impl<N: OpNodeCore> EthFees for OpEthApi<N> where Self: LoadFee {

}

impl<N: OpNodeCore> Trace for OpEthApi<N> where
    Self: LoadState,
    N::Evm: ConfigureEvm<N::Provider>,
 {

}

} // verus!
