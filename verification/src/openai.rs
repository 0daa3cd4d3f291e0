//! The adapter for OpenAI's speech endpoint.

use vstd::prelude::*;
use crate::adapter::{exchange_of, ProviderAdapter};
use crate::error::{ErrorModel, GatewayError};
use crate::provider::Provider;
use crate::json::{
    bits_of, chars_of, member, number_json, number_value, string_value, text_json, with_member,
    Json, JsonNumber, JsonObject, JsonValue,
};
use crate::speech::{ProcessedSpeechOptions, ProcessedSpeechRequest};
use crate::upstream::{
    request_view, Credential, CredentialModel, Exchange, RequestModel, UpstreamRequest,
};

verus! {

/// The body that OpenAI's speech endpoint takes.
#[derive(Clone, Debug, PartialEq)]
pub struct OpenAISpeechOptions {
    /// The text to generate audio for.
    pub input: String,
    /// One of the available TTS models.
    pub model: String,
    /// The voice to use when generating the audio.
    pub voice: String,
    /// Additional instructions that control the voice.
    pub instructions: Option<String>,
    /// The format of the audio.
    pub response_format: Option<String>,
    /// The speed of the generated audio.
    pub speed: Option<JsonNumber>,
}

/// The JSON object that OpenAI is sent: `input`, `model` and `voice`
/// always; `instructions`, `response_format` and `speed` where they are
/// set, and no member where they are not.
pub open spec fn openai_body(
    input: Seq<char>,
    model: Seq<char>,
    voice: Seq<char>,
    instructions: Option<Seq<char>>,
    response_format: Option<Seq<char>>,
    speed: Option<u64>,
) -> Json {
    let required = Map::<Seq<char>, Json>::empty().insert("input"@, Json::String(input)).insert(
        "model"@,
        Json::String(model),
    ).insert("voice"@, Json::String(voice));
    Json::Object(
        with_member(
            with_member(
                with_member(required, "instructions"@, text_json(instructions)),
                "response_format"@,
                text_json(response_format),
            ),
            "speed"@,
            number_json(speed),
        ),
    )
}

impl View for OpenAISpeechOptions {
    type V = Json;

    open spec fn view(&self) -> Json {
        openai_body(
            self.input@,
            self.model@,
            self.voice@,
            chars_of(self.instructions),
            chars_of(self.response_format),
            bits_of(self.speed),
        )
    }
}

/// The request that OpenAI is sent for `options`: a POST to the speech
/// endpoint, with the token as bearer token.
pub open spec fn openai_request(options: ProcessedSpeechRequest, token: Seq<char>) -> RequestModel {
    RequestModel {
        url: "https://api.openai.com/v1/audio/speech"@,
        credential: CredentialModel::Bearer { token },
        body: openai_body(
            options.input,
            options.model,
            options.voice,
            options.instructions,
            options.response_format,
            options.speed,
        ),
    }
}

impl OpenAISpeechOptions {
    /// The body as JSON.
    pub fn to_json(self) -> (r: JsonValue)
        ensures
            r@ == self@,
            r matches JsonValue::Object(o) && o.names_distinct(),
    {
        let mut body = JsonObject::new();
        body.put("input", JsonValue::String(self.input));
        body.put("model", JsonValue::String(self.model));
        body.put("voice", JsonValue::String(self.voice));
        body.put_opt("instructions", string_value(self.instructions));
        body.put_opt("response_format", string_value(self.response_format));
        body.put_opt("speed", number_value(self.speed));
        JsonValue::Object(body)
    }
}

/// Plans the call to OpenAI for `options`. Fields that OpenAI does not
/// know are left out.
pub fn handle(options: ProcessedSpeechOptions, token: &str) -> (r: Result<
    UpstreamRequest,
    GatewayError,
>)
    ensures
        request_view(r) == Ok::<RequestModel, ErrorModel>(openai_request(options@, token@)),
{
    let body = OpenAISpeechOptions {
        input: options.input,
        model: options.model,
        voice: options.voice,
        instructions: options.instructions,
        response_format: options.response_format,
        speed: options.speed,
    };
    Ok(
        UpstreamRequest {
            url: "https://api.openai.com/v1/audio/speech".to_owned(),
            credential: Credential::Bearer { token: token.to_owned() },
            body: body.to_json(),
        },
    )
}

/// The body has `input`, `model` and `voice`, and a member for each of
/// `instructions`, `response_format` and `speed` exactly where it is set:
/// what is not set is left out, not sent as null.
pub proof fn lemma_openai_body_members(
    input: Seq<char>,
    model: Seq<char>,
    voice: Seq<char>,
    instructions: Option<Seq<char>>,
    response_format: Option<Seq<char>>,
    speed: Option<u64>,
)
    ensures
        openai_body(input, model, voice, instructions, response_format, speed) matches Json::Object(
            m,
        ) && {
            &&& member(m, "input"@) == Some(Json::String(input))
            &&& member(m, "model"@) == Some(Json::String(model))
            &&& member(m, "voice"@) == Some(Json::String(voice))
            &&& member(m, "instructions"@) == text_json(instructions)
            &&& member(m, "response_format"@) == text_json(response_format)
            &&& member(m, "speed"@) == number_json(speed)
        },
{
    reveal_strlit("input");
    reveal_strlit("model");
    reveal_strlit("voice");
    reveal_strlit("instructions");
    reveal_strlit("response_format");
    reveal_strlit("speed");
    assert("input"@.len() == 5 && "model"@.len() == 5 && "voice"@.len() == 5 && "speed"@.len()
        == 5);
    assert("input"@[0] == 'i' && "model"@[0] == 'm' && "voice"@[0] == 'v' && "speed"@[0] == 's');
    assert("instructions"@.len() == 12 && "response_format"@.len() == 15);
}

/// The adapter for OpenAI.
pub struct OpenAiAdapter;

impl ProviderAdapter for OpenAiAdapter {
    open spec fn serves() -> Provider {
        Provider::OpenAi
    }

    open spec fn request_for(options: ProcessedSpeechRequest, token: Seq<char>) -> Result<
        RequestModel,
        ErrorModel,
    > {
        Ok(openai_request(options, token))
    }

    fn plan(options: ProcessedSpeechOptions, token: &str) -> (r: Result<Exchange, GatewayError>) {
        exchange_of(Provider::OpenAi, handle(options, token))
    }
}

} // verus!
