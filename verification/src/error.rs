//! The errors that the API hands to its callers.

use jsonrpsee_core::client::Error;
use vstd::prelude::*;

verus! {

/// The one error type of the Optimism `eth_` API, over the error `E` of the
/// node's provider, pool and EVM.
#[derive(Debug)]
pub enum OpEthApiError<E> {
    /// An error of the node's own components, passed on as it came.
    Eth(E),
    /// The historical endpoint did not answer within the time allowed.
    HistoricalTimeout,
    /// The historical endpoint failed: in transport, or with an error response.
    HistoricalEndpoint(Error),
}

/// Why the API could not be assembled when the node started.
#[derive(Debug)]
pub enum OpEthApiBuildError {
    /// The pool for blocking tasks could not be built.
    BlockingTaskPool,
    /// The client of the historical endpoint could not be built.
    HistoricalEndpoint(Error),
}

} // verus!
