use unspeech::adapter::{exchange_of, ProviderAdapter};
use unspeech::elevenlabs::{handle as elevenlabs_handle, ElevenLabsAdapter};
use unspeech::error::{AppError, GatewayError};
use unspeech::openai::{handle as openai_handle, OpenAiAdapter};
use unspeech::gateway::{dispatch, speech};
use unspeech::json::{JsonNumber, JsonObject, JsonValue};
use unspeech::provider::Provider;
use unspeech::speech::{ProcessedSpeechOptions, SpeechOptions};
use unspeech::upstream::Credential;

fn processed(provider: &str) -> ProcessedSpeechOptions {
    let mut extra = JsonObject::new();
    extra.put("seed", JsonValue::Number(JsonNumber::from_bits(1.0f64.to_bits()).unwrap()));
    ProcessedSpeechOptions {
        input: "Hello".to_string(),
        model: "model".to_string(),
        voice: "voice".to_string(),
        instructions: Some("calm".to_string()),
        response_format: Some("mp3".to_string()),
        speed: JsonNumber::from_bits(1.0f64.to_bits()),
        extra,
        provider: provider.to_string(),
    }
}

fn raw(model: &str) -> SpeechOptions {
    SpeechOptions {
        input: "Hello".to_string(),
        model: model.to_string(),
        voice: "voice".to_string(),
        instructions: None,
        response_format: None,
        speed: None,
        extra: JsonObject::new(),
    }
}

#[test]
fn unknown_provider_is_refused() {
    for provider in ["acme", "OpenAI", "openai2", "", "eleven labs", "ELEVENLABS"] {
        assert_eq!(
            dispatch(processed(provider), "token"),
            Err(GatewayError::UnsupportedProvider { provider: provider.to_string() })
        );
    }
}

#[test]
fn unknown_provider_is_refused_whatever_the_request_holds() {
    let mut options = processed("acme");
    options.input = String::new();
    options.extra = JsonObject::new();
    options.speed = None;
    assert_eq!(
        dispatch(options, ""),
        Err(GatewayError::UnsupportedProvider { provider: "acme".to_string() })
    );
    let rendered = AppError::from(GatewayError::UnsupportedProvider { provider: "acme".to_string() });
    assert_eq!(rendered.status.as_u16(), 400);
    assert_eq!(rendered.error, "Unsupported provider: acme");
}

#[test]
fn openai_requests_go_to_the_openai_adapter() {
    let exchange = dispatch(processed("openai"), "token").unwrap();
    assert_eq!(exchange.provider, Provider::OpenAi);
    assert_eq!(exchange.request.url, "https://api.openai.com/v1/audio/speech");
    assert_eq!(exchange.request.credential, Credential::Bearer { token: "token".to_string() });
}

#[test]
fn elevenlabs_requests_go_to_the_elevenlabs_adapter() {
    let exchange = dispatch(processed("elevenlabs"), "token").unwrap();
    assert_eq!(exchange.provider, Provider::ElevenLabs);
    assert_eq!(
        exchange.request.url,
        "https://api.elevenlabs.io/v1/text-to-speech/voice?output_format=mp3"
    );
    assert_eq!(
        exchange.request.credential,
        Credential::Header { name: "xi-api-key".to_string(), value: "token".to_string() }
    );
}

#[test]
fn speech_resolves_then_dispatches() {
    let exchange = speech(raw("openai/tts-1"), "token").unwrap();
    assert_eq!(exchange.provider, Provider::OpenAi);
    let body = exchange.request.body.as_object().unwrap();
    assert_eq!(body.get("model"), Some(&JsonValue::String("tts-1".to_string())));

    let exchange = speech(raw("elevenlabs/eleven_v3"), "token").unwrap();
    assert_eq!(exchange.provider, Provider::ElevenLabs);
    let body = exchange.request.body.as_object().unwrap();
    assert_eq!(body.get("model_id"), Some(&JsonValue::String("eleven_v3".to_string())));
}

#[test]
fn speech_reports_a_malformed_model() {
    assert_eq!(
        speech(raw("tts-1"), "token"),
        Err(GatewayError::Validation { message: "Invalid model: tts-1".to_string() })
    );
}

#[test]
fn speech_reports_an_unknown_provider() {
    assert_eq!(
        speech(raw("acme/tts-1"), "token"),
        Err(GatewayError::UnsupportedProvider { provider: "acme".to_string() })
    );
}

#[test]
fn adapters_plan_the_exchange_with_their_provider() {
    let exchange = OpenAiAdapter::plan(processed("anything"), "token").unwrap();
    assert_eq!(exchange.provider, Provider::OpenAi);
    assert_eq!(exchange.request, openai_handle(processed("anything"), "token").unwrap());

    let exchange = ElevenLabsAdapter::plan(processed("anything"), "token").unwrap();
    assert_eq!(exchange.provider, Provider::ElevenLabs);
    assert_eq!(exchange.request, elevenlabs_handle(processed("anything"), "token").unwrap());
}

#[test]
fn exchange_of_keeps_request_or_error() {
    let request = openai_handle(processed("openai"), "token");
    let exchange = exchange_of(Provider::ElevenLabs, request).unwrap();
    assert_eq!(exchange.provider, Provider::ElevenLabs);
    assert_eq!(exchange.request.url, "https://api.openai.com/v1/audio/speech");
    let error = GatewayError::Validation { message: "Invalid voice: v".to_string() };
    assert_eq!(
        exchange_of(Provider::OpenAi, Err(GatewayError::Validation { message: "Invalid voice: v".to_string() })),
        Err(error)
    );
}
