//! Assembles the `eth_` endpoint of an Optimism node.

use crate::backend::{EthApiNodeBackend, EthConfig};
use crate::error::OpEthApiBuildError;
use crate::eth::OpEthApi;
use crate::historical::{build_http_client, http_client_builds, HISTORICAL_CLIENT_TIMEOUT_SECS};
use crate::node::OpNodeCore;
use crate::sequencer::SequencerClient;
use alloy_primitives::U256;
use jsonrpsee::http_client::HttpClient;
use jsonrpsee_core::client::Error;
use vstd::prelude::*;

verus! {

/// What a node hands to the builder of its `eth_` API: its components, the
/// services that serve requests, and its configuration.
pub struct EthApiBuilderCtx<N: OpNodeCore> {
    /// The provider of blocks and state.
    pub provider: N::Provider,
    /// The transaction pool.
    pub pool: N::Pool,
    /// The network API.
    pub network: N::Network,
    /// The EVM configuration.
    pub evm_config: N::Evm,
    /// The cache of recent blocks and receipts.
    pub cache: N::Cache,
    /// The gas-price oracle, newly made for this API.
    pub gas_oracle: N::GasOracle,
    /// The fee-history cache, newly made for this API.
    pub fee_history_cache: N::FeeHistoryCache,
    /// The executor that IO-bound tasks are spawned on.
    pub executor: N::TaskSpawner,
    /// The pool for blocking tasks, newly built; `None` where it could not be built.
    pub blocking_task_pool: Option<N::TaskPool>,
    /// The guard that admits blocking tasks.
    pub blocking_task_guard: N::TaskGuard,
    /// The height of the chain as the node starts.
    pub starting_block: U256,
    /// The configured limits.
    pub config: EthConfig,
    /// The address of the historical endpoint; `None` where none is configured.
    pub historical_rpc_url: Option<String>,
}

/// A type that knows how to build a [`OpEthApi`].
#[derive(Debug)]
pub struct OpEthApiBuilder {
    /// Sequencer client, configured to forward submitted transactions to sequencer of given OP
    /// network.
    sequencer_client: Option<SequencerClient>,
}

impl Default for OpEthApiBuilder {
    fn default() -> (builder: Self)
        ensures
            builder.spec_sequencer_client() is None,
    {
        Self::new()
    }
}

/// Whether `api` holds exactly what `builder` and `ctx` hold, with `pool` as
/// its pool for blocking tasks and `historical` as the client of its
/// historical endpoint.
pub open spec fn assembled_from<N: OpNodeCore>(
    api: OpEthApi<N>,
    builder: OpEthApiBuilder,
    ctx: EthApiBuilderCtx<N>,
    pool: N::TaskPool,
    historical: Option<HttpClient>,
) -> bool {
    &&& api.spec_sequencer_client() == builder.spec_sequencer_client()
    &&& api.spec_historical_rpc_provider() == historical
    &&& api.spec_eth_api().spec_provider() == ctx.provider
    &&& api.spec_eth_api().spec_pool() == ctx.pool
    &&& api.spec_eth_api().spec_network() == ctx.network
    &&& api.spec_eth_api().spec_evm_config() == ctx.evm_config
    &&& api.spec_eth_api().spec_cache() == ctx.cache
    &&& api.spec_eth_api().spec_gas_oracle() == ctx.gas_oracle
    &&& api.spec_eth_api().spec_fee_history_cache() == ctx.fee_history_cache
    &&& api.spec_eth_api().spec_task_spawner() == ctx.executor
    &&& api.spec_eth_api().spec_blocking_task_pool() == pool
    &&& api.spec_eth_api().spec_blocking_task_guard() == ctx.blocking_task_guard
    &&& api.spec_eth_api().spec_starting_block() == ctx.starting_block
    &&& api.spec_eth_api().spec_config() == ctx.config
}

/// What assembling gives, from what the builder and the context hold and from
/// what came of building the client of the historical endpoint (`None` where
/// none was to be built). Without a pool for blocking tasks there is no API,
/// whatever else holds; with a pool, the API fails on a client that could not be
/// built, and else holds all it was given.
pub open spec fn assembled<N: OpNodeCore>(
    built: Result<OpEthApi<N>, OpEthApiBuildError>,
    builder: OpEthApiBuilder,
    ctx: EthApiBuilderCtx<N>,
    historical: Option<Result<HttpClient, Error>>,
) -> bool {
    match (ctx.blocking_task_pool, historical) {
        (None, _) => built == Err::<OpEthApi<N>, _>(OpEthApiBuildError::BlockingTaskPool),
        (Some(_), Some(Err(error))) => built == Err::<OpEthApi<N>, _>(
            OpEthApiBuildError::HistoricalEndpoint(error),
        ),
        (Some(pool), Some(Ok(client))) => built matches Ok(api) && assembled_from(
            api,
            builder,
            ctx,
            pool,
            Some(client),
        ),
        (Some(pool), None) => built matches Ok(api) && assembled_from(api, builder, ctx, pool, None),
    }
}

/// An API that was built reports the sequencer of its builder: none where the
/// builder was given none, and else exactly the one it was given.
pub proof fn lemma_built_api_reports_sequencer<N: OpNodeCore>(
    built: Result<OpEthApi<N>, OpEthApiBuildError>,
    builder: OpEthApiBuilder,
    ctx: EthApiBuilderCtx<N>,
    historical: Option<Result<HttpClient, Error>>,
)
    requires
        assembled(built, builder, ctx, historical),
        built is Ok,
    ensures
        built->Ok_0.spec_sequencer_client() == builder.spec_sequencer_client(),
{
}

/// An API that was built without the address of a historical endpoint has no
/// historical endpoint.
pub proof fn lemma_built_api_without_url_has_no_historical<N: OpNodeCore>(
    built: Result<OpEthApi<N>, OpEthApiBuildError>,
    builder: OpEthApiBuilder,
    ctx: EthApiBuilderCtx<N>,
)
    requires
        assembled(built, builder, ctx, None),
        built is Ok,
    ensures
        built->Ok_0.spec_historical_rpc_provider() is None,
{
}

impl OpEthApiBuilder {
    /// The sequencer that the builder was given, if any.
    pub closed spec fn spec_sequencer_client(&self) -> Option<SequencerClient> {
        self.sequencer_client
    }

    /// Creates a [`OpEthApiBuilder`] instance that knows of no sequencer.
    pub fn new() -> (builder: Self)
        ensures
            builder.spec_sequencer_client() is None,
    {
        Self { sequencer_client: None }
    }

    /// With a [`SequencerClient`].
    pub fn with_sequencer(self, sequencer_client: Option<SequencerClient>) -> (builder: Self)
        ensures
            builder.spec_sequencer_client() == sequencer_client,
    {
        Self { sequencer_client }
    }

    /// Assembles an [`OpEthApi`] from what the builder and `ctx` hold, given
    /// what came of building the client of the historical endpoint:
    /// `historical` is `None` where no client was to be built.
    pub fn assemble<N: OpNodeCore>(
        self,
        ctx: EthApiBuilderCtx<N>,
        historical: Option<Result<HttpClient, Error>>,
    ) -> (built: Result<OpEthApi<N>, OpEthApiBuildError>)
        ensures
            assembled(built, self, ctx, historical),
    {
        let blocking_task_pool = match ctx.blocking_task_pool {
            Some(blocking_task_pool) => blocking_task_pool,
            None => return Err(OpEthApiBuildError::BlockingTaskPool),
        };
        let eth_api = EthApiNodeBackend::new(
            ctx.provider,
            ctx.pool,
            ctx.network,
            ctx.evm_config,
            ctx.cache,
            ctx.gas_oracle,
            ctx.fee_history_cache,
            ctx.executor,
            blocking_task_pool,
            ctx.blocking_task_guard,
            ctx.starting_block,
            ctx.config,
        );
        let historical_rpc_client = match historical {
            Some(Ok(client)) => Some(client),
            Some(Err(error)) => return Err(OpEthApiBuildError::HistoricalEndpoint(error)),
            None => None,
        };
        Ok(OpEthApi::from_parts(eth_api, self.sequencer_client, historical_rpc_client))
    }

    /// Builds an instance of [`OpEthApi`].
    ///
    /// The API fails to build where the node has no pool for blocking tasks.
    /// Where the address of a historical endpoint is configured, a client for
    /// it is built, with a request timeout of sixty seconds, and the API fails
    /// to build exactly where the client does; where none is configured, the
    /// API has no historical endpoint.
    pub fn build<N: OpNodeCore>(self, ctx: EthApiBuilderCtx<N>) -> (built: Result<
        OpEthApi<N>,
        OpEthApiBuildError,
    >)
        ensures
            ctx.blocking_task_pool is None || ctx.historical_rpc_url is None ==> assembled(
                built,
                self,
                ctx,
                None,
            ),
            ctx.blocking_task_pool is Some && ctx.historical_rpc_url is Some ==> exists|
                client: Result<HttpClient, Error>,
            | #[trigger] assembled(built, self, ctx, Some(client)),
            ctx.historical_rpc_url matches Some(url) ==> (ctx.blocking_task_pool is Some ==> (built is Ok
                <==> http_client_builds(url@, HISTORICAL_CLIENT_TIMEOUT_SECS))),
            ctx.blocking_task_pool is Some && ctx.historical_rpc_url is Some && built is Ok
                ==> built->Ok_0.spec_historical_rpc_provider() is Some,
    {
        let historical = match &ctx.historical_rpc_url {
            Some(url) => {
                if ctx.blocking_task_pool.is_some() {
                    Some(build_http_client(url.as_str(), HISTORICAL_CLIENT_TIMEOUT_SECS))
                } else {
                    None
                }
            },
            None => None,
        };
        self.assemble(ctx, historical)
    }
}

} // verus!
