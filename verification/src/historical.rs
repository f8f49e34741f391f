//! The client of the historical archive endpoint, which serves the state of
//! blocks from before Bedrock.

use jsonrpsee::http_client::{HttpClient, HttpClientBuilder};
use jsonrpsee_core::client::Error;
use std::time::Duration;
use vstd::prelude::*;

verus! {

/// Seconds after which a request of the historical client is given up.
pub const HISTORICAL_CLIENT_TIMEOUT_SECS: u64 = 60;

/// `jsonrpsee::http_client::HttpClient`, a JSON-RPC client over HTTP.
#[verifier::external_type_specification]
#[verifier::external_body]
#[verifier::reject_recursive_types(S)]
pub struct ExHttpClient<S>(jsonrpsee::http_client::HttpClient<S>);

/// `jsonrpsee::http_client::RpcLogger`, the logging layer of the default client.
#[verifier::external_type_specification]
#[verifier::external_body]
#[verifier::reject_recursive_types(S)]
pub struct ExRpcLogger<S>(jsonrpsee::http_client::RpcLogger<S>);

/// `jsonrpsee::http_client::RpcService`, the service layer of the default client.
#[verifier::external_type_specification]
#[verifier::external_body]
#[verifier::reject_recursive_types(HttpMiddleware)]
pub struct ExRpcService<HttpMiddleware>(jsonrpsee::http_client::RpcService<HttpMiddleware>);

/// `jsonrpsee::http_client::HttpBackend`, the HTTP transport of the default client.
#[verifier::external_type_specification]
#[verifier::external_body]
#[verifier::reject_recursive_types(B)]
pub struct ExHttpBackend<B>(jsonrpsee::http_client::HttpBackend<B>);

/// `jsonrpsee::http_client::HttpBody`, the body of the default client's requests.
#[verifier::external_type_specification]
#[verifier::external_body]
pub struct ExHttpBody(jsonrpsee::http_client::HttpBody);

/// `jsonrpsee_core::client::Error`, the error of a JSON-RPC client.
#[verifier::external_type_specification]
#[verifier::external_body]
pub struct ExClientError(jsonrpsee_core::client::Error);

/// Whether jsonrpsee's `HttpClientBuilder`, with its request timeout set to
/// `timeout_secs` seconds, builds a client for the address `url`. It does so
/// where `url` parses as a URL, names a host, and has the scheme `http` or
/// `https`; what parses as a URL is left to the builder.
pub uninterp spec fn http_client_builds(url: Seq<char>, timeout_secs: u64) -> bool;

/// Calls `HttpClientBuilder::build` of jsonrpsee on a default builder whose
/// request timeout is set to `timeout_secs` seconds. The builder parses `url`
/// and connects to nothing. Trusted: whether it gives a client or an error
/// depends on `url` and `timeout_secs` alone. Nothing is claimed of the client
/// or of the error.
#[verifier::external_body]
pub(crate) fn build_http_client(url: &str, timeout_secs: u64) -> (client: Result<HttpClient, Error>)
    ensures
        client is Ok <==> http_client_builds(url@, timeout_secs),
{
    HttpClientBuilder::default().request_timeout(Duration::from_secs(timeout_secs)).build(url)
}

} // verus!
