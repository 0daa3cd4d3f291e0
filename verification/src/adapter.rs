//! What every provider's adapter offers to the gateway.

use vstd::prelude::*;
use crate::error::{ErrorModel, GatewayError};
use crate::provider::Provider;
use crate::speech::{ProcessedSpeechOptions, ProcessedSpeechRequest};
use crate::upstream::{
    exchange_view, request_view, Exchange, ExchangeModel, RequestModel, UpstreamRequest,
};

verus! {

/// The exchange with `provider` that the outcome of planning a request
/// leads to.
pub open spec fn exchange_with(
    provider: Provider,
    request: Result<RequestModel, ErrorModel>,
) -> Result<ExchangeModel, ErrorModel> {
    match request {
        Ok(request) => Ok(ExchangeModel { provider, request }),
        Err(e) => Err(e),
    }
}

/// An adapter turns a resolved request into the call that its
/// provider understands. Adapters hold no state.
pub trait ProviderAdapter {
    /// The provider that the adapter serves.
    spec fn serves() -> Provider;

    /// The request that the adapter sends for `options`, or its rejection
    /// of `options`.
    spec fn request_for(options: ProcessedSpeechRequest, token: Seq<char>) -> Result<
        RequestModel,
        ErrorModel,
    >;

    /// Plans the exchange with the provider for `options`.
    fn plan(options: ProcessedSpeechOptions, token: &str) -> (r: Result<Exchange, GatewayError>)
        ensures
            exchange_view(r) == exchange_with(
                Self::serves(),
                Self::request_for(options@, token@),
            ),
    ;
}

/// Wraps a planned request into an exchange with `provider`.
pub fn exchange_of(provider: Provider, request: Result<UpstreamRequest, GatewayError>) -> (r:
    Result<Exchange, GatewayError>)
    ensures
        exchange_view(r) == exchange_with(provider, request_view(request)),
{
    match request {
        Ok(request) => Ok(Exchange { provider, request }),
        Err(e) => Err(e),
    }
}

} // verus!
