//! The canonical speech request and the resolution of its model identifier.

use vstd::prelude::*;
use vstd::string::*;
use crate::error::{ErrorModel, GatewayError};
use crate::json::{bits_of, chars_of, Json, JsonNumber, JsonObject};
use crate::text::{
    find_char, first_index, join, lemma_first_index_none, lemma_first_index_unique,
};

verus! {

/// A speech request as it is received.
#[derive(Clone, Debug, PartialEq)]
pub struct SpeechOptions {
    /// The text to generate audio for.
    pub input: String,
    /// The provider and one of its models, as `provider/model`.
    pub model: String,
    /// The voice to use when generating the audio.
    pub voice: String,
    /// Additional instructions that control the voice.
    pub instructions: Option<String>,
    /// The format of the audio.
    pub response_format: Option<String>,
    /// The speed of the generated audio.
    pub speed: Option<JsonNumber>,
    /// Every other field of the request, as the provider defines it.
    pub extra: JsonObject,
}

/// A speech request whose model identifier has been resolved.
#[derive(Clone, Debug, PartialEq)]
pub struct ProcessedSpeechOptions {
    /// The text to generate audio for.
    pub input: String,
    /// The model, under the name the provider knows it by.
    pub model: String,
    /// The voice to use when generating the audio.
    pub voice: String,
    /// Additional instructions that control the voice.
    pub instructions: Option<String>,
    /// The format of the audio.
    pub response_format: Option<String>,
    /// The speed of the generated audio.
    pub speed: Option<JsonNumber>,
    /// Every other field of the request, as the provider defines it.
    pub extra: JsonObject,
    /// The provider that is to serve the request.
    pub provider: String,
}

/// The content of a `SpeechOptions`.
pub struct SpeechRequest {
    pub input: Seq<char>,
    pub model: Seq<char>,
    pub voice: Seq<char>,
    pub instructions: Option<Seq<char>>,
    pub response_format: Option<Seq<char>>,
    pub speed: Option<u64>,
    pub extra: Map<Seq<char>, Json>,
}

/// The content of a `ProcessedSpeechOptions`.
pub struct ProcessedSpeechRequest {
    pub input: Seq<char>,
    pub model: Seq<char>,
    pub voice: Seq<char>,
    pub instructions: Option<Seq<char>>,
    pub response_format: Option<Seq<char>>,
    pub speed: Option<u64>,
    pub extra: Map<Seq<char>, Json>,
    pub provider: Seq<char>,
}

impl View for SpeechOptions {
    type V = SpeechRequest;

    open spec fn view(&self) -> SpeechRequest {
        SpeechRequest {
            input: self.input@,
            model: self.model@,
            voice: self.voice@,
            instructions: chars_of(self.instructions),
            response_format: chars_of(self.response_format),
            speed: bits_of(self.speed),
            extra: self.extra@,
        }
    }
}

impl View for ProcessedSpeechOptions {
    type V = ProcessedSpeechRequest;

    open spec fn view(&self) -> ProcessedSpeechRequest {
        ProcessedSpeechRequest {
            input: self.input@,
            model: self.model@,
            voice: self.voice@,
            instructions: chars_of(self.instructions),
            response_format: chars_of(self.response_format),
            speed: bits_of(self.speed),
            extra: self.extra@,
            provider: self.provider@,
        }
    }
}

/// The two halves of a model identifier: what stands before its first `/`
/// and what stands after it. There are none where the identifier has no
/// `/`, or where either half is empty.
pub open spec fn split_model(model: Seq<char>) -> Option<(Seq<char>, Seq<char>)> {
    match first_index(model, '/') {
        Some(i) => if 0 < i && i + 1 < model.len() {
            Some((model.subrange(0, i), model.subrange(i + 1, model.len() as int)))
        } else {
            None
        },
        None => None,
    }
}

/// The outcome of resolving `raw`: the request with its model identifier
/// split into provider and model and every other field as it was, or the
/// rejection of the identifier.
pub open spec fn resolve(raw: SpeechRequest) -> Result<ProcessedSpeechRequest, ErrorModel> {
    match split_model(raw.model) {
        Some((provider, model)) => Ok(
            ProcessedSpeechRequest {
                input: raw.input,
                model,
                voice: raw.voice,
                instructions: raw.instructions,
                response_format: raw.response_format,
                speed: raw.speed,
                extra: raw.extra,
                provider,
            },
        ),
        None => Err(ErrorModel::Validation { message: "Invalid model: "@ + raw.model }),
    }
}

/// The content of an outcome of resolution.
pub open spec fn resolution_view(r: Result<ProcessedSpeechOptions, GatewayError>) -> Result<
    ProcessedSpeechRequest,
    ErrorModel,
> {
    match r {
        Ok(p) => Ok(p@),
        Err(e) => Err(e@),
    }
}

/// Splits a model identifier at its first `/`.
pub fn split_model_identifier(model: &str) -> (r: Option<(String, String)>)
    ensures
        match r {
            Some((provider, native)) => split_model(model@) == Some((provider@, native@)),
            None => split_model(model@) is None,
        },
{
    let n: usize = model.unicode_len();
    match find_char(model, '/') {
        Some(i) => {
            if 0 < i && i + 1 < n {
                let provider = model.substring_char(0, i).to_owned();
                let native = model.substring_char(i + 1, n).to_owned();
                Some((provider, native))
            } else {
                None
            }
        },
        None => None,
    }
}

/// Resolves the model identifier of a request into provider and model.
/// Every other field is handed on unchanged.
pub fn process_speech_options(options: SpeechOptions) -> (r: Result<
    ProcessedSpeechOptions,
    GatewayError,
>)
    ensures
        resolution_view(r) == resolve(options@),
        r matches Ok(p) ==> p.input == options.input && p.voice == options.voice
            && p.instructions == options.instructions && p.response_format
            == options.response_format && p.speed == options.speed && p.extra == options.extra,
{
    match split_model_identifier(options.model.as_str()) {
        Some((provider, model)) => Ok(
            ProcessedSpeechOptions {
                input: options.input,
                model,
                voice: options.voice,
                instructions: options.instructions,
                response_format: options.response_format,
                speed: options.speed,
                extra: options.extra,
                provider,
            },
        ),
        None => Err(
            GatewayError::Validation { message: join("Invalid model: ", options.model.as_str()) },
        ),
    }
}

/// An identifier made of a non-empty provider without `/`, a `/` and a
/// non-empty model resolves to that provider and that model.
pub proof fn lemma_resolve_well_formed(raw: SpeechRequest, provider: Seq<char>, model: Seq<char>)
    requires
        raw.model == provider + seq!['/'] + model,
        provider.len() > 0,
        model.len() > 0,
        !provider.contains('/'),
    ensures
        resolve(raw) == Ok::<ProcessedSpeechRequest, ErrorModel>(
            ProcessedSpeechRequest {
                input: raw.input,
                model,
                voice: raw.voice,
                instructions: raw.instructions,
                response_format: raw.response_format,
                speed: raw.speed,
                extra: raw.extra,
                provider,
            },
        ),
{
    let i: int = provider.len() as int;
    assert forall|j: int| 0 <= j < i implies raw.model[j] != '/' by {
        assert(raw.model[j] == provider[j]);
    }
    assert(raw.model[i] == '/');
    lemma_first_index_unique(raw.model, '/', i);
    assert(raw.model.subrange(0, i) =~= provider);
    assert(raw.model.subrange(i + 1, raw.model.len() as int) =~= model);
}

/// An identifier without `/` is rejected.
pub proof fn lemma_resolve_without_separator(raw: SpeechRequest)
    requires
        !raw.model.contains('/'),
    ensures
        resolve(raw) == Err::<ProcessedSpeechRequest, ErrorModel>(
            ErrorModel::Validation { message: "Invalid model: "@ + raw.model },
        ),
{
    lemma_first_index_none(raw.model, '/');
}

/// An identifier with nothing before its first `/`, or nothing after it,
/// is rejected.
pub proof fn lemma_resolve_empty_half(raw: SpeechRequest, rest: Seq<char>)
    requires
        raw.model == seq!['/'] + rest || (raw.model == rest + seq!['/'] && !rest.contains('/')),
    ensures
        resolve(raw) == Err::<ProcessedSpeechRequest, ErrorModel>(
            ErrorModel::Validation { message: "Invalid model: "@ + raw.model },
        ),
{
    if raw.model == seq!['/'] + rest {
        assert(raw.model[0] == '/');
        lemma_first_index_unique(raw.model, '/', 0);
    } else {
        let i: int = rest.len() as int;
        assert forall|j: int| 0 <= j < i implies raw.model[j] != '/' by {
            assert(raw.model[j] == rest[j]);
        }
        assert(raw.model[i] == '/');
        lemma_first_index_unique(raw.model, '/', i);
    }
}

/// Resolution adds nothing of its own: two runs on requests of the same
/// content end in outcomes of the same content.
pub proof fn lemma_resolution_is_repeatable(
    a: SpeechOptions,
    b: SpeechOptions,
    ra: Result<ProcessedSpeechOptions, GatewayError>,
    rb: Result<ProcessedSpeechOptions, GatewayError>,
)
    requires
        a@ == b@,
        resolution_view(ra) == resolve(a@),
        resolution_view(rb) == resolve(b@),
    ensures
        resolution_view(ra) == resolution_view(rb),
{
}

} // verus!
