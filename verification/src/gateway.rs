//! The way of a request through the gateway, up to the call that is to be
//! made for it.

use vstd::prelude::*;
use crate::adapter::{exchange_with, ProviderAdapter};
use crate::elevenlabs::ElevenLabsAdapter;
use crate::error::{ErrorModel, GatewayError};
use crate::openai::OpenAiAdapter;
use crate::provider::Provider;
use crate::speech::{
    process_speech_options, resolve, ProcessedSpeechOptions, ProcessedSpeechRequest, SpeechOptions,
    SpeechRequest,
};
use crate::upstream::{exchange_view, Exchange, ExchangeModel};

verus! {

/// The exchange that a resolved request leads to: the call that the
/// adapter of its provider plans, or that adapter's rejection; for a
/// provider without an adapter, the refusal of the provider.
pub open spec fn dispatched(options: ProcessedSpeechRequest, token: Seq<char>) -> Result<
    ExchangeModel,
    ErrorModel,
> {
    match Provider::registered(options.provider) {
        Some(Provider::OpenAi) => exchange_with(
            Provider::OpenAi,
            OpenAiAdapter::request_for(options, token),
        ),
        Some(Provider::ElevenLabs) => exchange_with(
            Provider::ElevenLabs,
            ElevenLabsAdapter::request_for(options, token),
        ),
        None => Err(ErrorModel::UnsupportedProvider { provider: options.provider }),
    }
}

/// The exchange that a request leads to: its model identifier is
/// resolved, then the resolved request is dispatched.
pub open spec fn planned(raw: SpeechRequest, token: Seq<char>) -> Result<
    ExchangeModel,
    ErrorModel,
> {
    match resolve(raw) {
        Ok(options) => dispatched(options, token),
        Err(e) => Err(e),
    }
}

/// Hands a resolved request to the adapter of its provider. The token is
/// passed on as the credential for the provider.
pub fn dispatch(options: ProcessedSpeechOptions, token: &str) -> (r: Result<Exchange, GatewayError>)
    ensures
        exchange_view(r) == dispatched(options@, token@),
{
    match Provider::lookup(options.provider.as_str()) {
        Some(Provider::OpenAi) => OpenAiAdapter::plan(options, token),
        Some(Provider::ElevenLabs) => ElevenLabsAdapter::plan(options, token),
        None => Err(GatewayError::UnsupportedProvider { provider: options.provider }),
    }
}

/// Plans the upstream call for a speech request.
pub fn speech(body: SpeechOptions, token: &str) -> (r: Result<Exchange, GatewayError>)
    ensures
        exchange_view(r) == planned(body@, token@),
{
    match process_speech_options(body) {
        Ok(options) => dispatch(options, token),
        Err(e) => Err(e),
    }
}

/// A request for a provider that is not registered is refused, whatever
/// else it holds.
pub proof fn lemma_unregistered_provider_is_refused(
    options: ProcessedSpeechRequest,
    token: Seq<char>,
)
    requires
        options.provider != "openai"@,
        options.provider != "elevenlabs"@,
    ensures
        dispatched(options, token) == Err::<ExchangeModel, ErrorModel>(
            ErrorModel::UnsupportedProvider { provider: options.provider },
        ),
{
}

} // verus!
