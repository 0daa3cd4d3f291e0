//! The adapter for ElevenLabs' text-to-speech endpoint.

use vstd::prelude::*;
use vstd::string::*;
use crate::adapter::{exchange_of, ProviderAdapter};
use crate::error::{ErrorModel, GatewayError};
use crate::provider::Provider;
use crate::json::{
    bits_of, bool_json, bool_value, chars_of, items_model, lemma_array_model, lemma_items_model,
    member, member_bool, member_number, member_optional_bool, member_optional_number,
    member_optional_text, member_text, member_texts, number_json, number_value, opt_texts_json,
    opt_texts_of, string_value, strings_value, text_json, with_member, Json, JsonNumber,
    JsonObject, JsonValue,
};
use crate::speech::{ProcessedSpeechOptions, ProcessedSpeechRequest};
use crate::text::join;
use crate::upstream::{
    request_view, Credential, CredentialModel, Exchange, RequestModel, UpstreamRequest,
};
use crate::web::{form_encode, form_urlencoded, pairs_of, parse_url, url_normal_form};

verus! {

/// The query parameters of the endpoint.
#[derive(Clone, Debug, PartialEq)]
pub struct ElevenLabsSpeechQuery {
    pub enable_logging: Option<bool>,
    pub output_format: Option<String>,
}

/// The body that the endpoint takes.
#[derive(Clone, Debug, PartialEq)]
pub struct ElevenLabsSpeechOptions {
    pub text: String,
    pub model_id: String,
    pub language_code: Option<String>,
    pub voice_settings: ElevenLabsSpeechVoiceSettings,
    pub pronunciation_dictionary_locators: Option<
        Vec<ElevenLabsSpeechPronunciationDictionaryLocator>,
    >,
    pub seed: Option<JsonNumber>,
    pub previous_text: Option<String>,
    pub next_text: Option<String>,
    pub previous_request_ids: Option<Vec<String>>,
    pub next_request_ids: Option<Vec<String>>,
    pub apply_text_normalization: Option<String>,
    pub apply_language_text_normalization: Option<bool>,
}

/// How the voice is tuned.
#[derive(Clone, Copy, Debug, PartialEq)]
pub struct ElevenLabsSpeechVoiceSettings {
    pub stability: Option<JsonNumber>,
    pub similarity_boost: Option<JsonNumber>,
    pub style: Option<JsonNumber>,
    pub use_speaker_boost: Option<bool>,
    pub speed: Option<JsonNumber>,
}

/// Where a pronunciation dictionary is found.
#[derive(Clone, Debug, PartialEq)]
pub struct ElevenLabsSpeechPronunciationDictionaryLocator {
    pub pronunciation_dictionary_id: String,
    pub version_id: Option<String>,
}

/// The content of an `ElevenLabsSpeechVoiceSettings`.
pub struct VoiceSettings {
    pub stability: Option<u64>,
    pub similarity_boost: Option<u64>,
    pub style: Option<u64>,
    pub use_speaker_boost: Option<bool>,
    pub speed: Option<u64>,
}

/// The content of an `ElevenLabsSpeechPronunciationDictionaryLocator`.
pub struct Locator {
    pub pronunciation_dictionary_id: Seq<char>,
    pub version_id: Option<Seq<char>>,
}

/// The content of an `ElevenLabsSpeechOptions`.
pub struct SpeechBody {
    pub text: Seq<char>,
    pub model_id: Seq<char>,
    pub language_code: Option<Seq<char>>,
    pub voice_settings: VoiceSettings,
    pub pronunciation_dictionary_locators: Option<Seq<Locator>>,
    pub seed: Option<u64>,
    pub previous_text: Option<Seq<char>>,
    pub next_text: Option<Seq<char>>,
    pub previous_request_ids: Option<Seq<Seq<char>>>,
    pub next_request_ids: Option<Seq<Seq<char>>>,
    pub apply_text_normalization: Option<Seq<char>>,
    pub apply_language_text_normalization: Option<bool>,
}

impl View for ElevenLabsSpeechVoiceSettings {
    type V = VoiceSettings;

    open spec fn view(&self) -> VoiceSettings {
        VoiceSettings {
            stability: bits_of(self.stability),
            similarity_boost: bits_of(self.similarity_boost),
            style: bits_of(self.style),
            use_speaker_boost: self.use_speaker_boost,
            speed: bits_of(self.speed),
        }
    }
}

impl View for ElevenLabsSpeechPronunciationDictionaryLocator {
    type V = Locator;

    open spec fn view(&self) -> Locator {
        Locator {
            pronunciation_dictionary_id: self.pronunciation_dictionary_id@,
            version_id: chars_of(self.version_id),
        }
    }
}

/// The content of each locator of a list.
pub open spec fn locators_of(v: Vec<ElevenLabsSpeechPronunciationDictionaryLocator>) -> Seq<
    Locator,
> {
    Seq::new(v.len() as nat, |i: int| v[i]@)
}

/// The content of each locator of an optional list.
pub open spec fn opt_locators_of(
    v: Option<Vec<ElevenLabsSpeechPronunciationDictionaryLocator>>,
) -> Option<Seq<Locator>> {
    match v {
        Some(v) => Some(locators_of(v)),
        None => None,
    }
}

impl View for ElevenLabsSpeechOptions {
    type V = SpeechBody;

    open spec fn view(&self) -> SpeechBody {
        SpeechBody {
            text: self.text@,
            model_id: self.model_id@,
            language_code: chars_of(self.language_code),
            voice_settings: self.voice_settings@,
            pronunciation_dictionary_locators: opt_locators_of(
                self.pronunciation_dictionary_locators,
            ),
            seed: bits_of(self.seed),
            previous_text: chars_of(self.previous_text),
            next_text: chars_of(self.next_text),
            previous_request_ids: opt_texts_of(self.previous_request_ids),
            next_request_ids: opt_texts_of(self.next_request_ids),
            apply_text_normalization: chars_of(self.apply_text_normalization),
            apply_language_text_normalization: self.apply_language_text_normalization,
        }
    }
}

impl View for ElevenLabsSpeechQuery {
    type V = Seq<(Seq<char>, Seq<char>)>;

    open spec fn view(&self) -> Seq<(Seq<char>, Seq<char>)> {
        query_pairs(self.enable_logging, chars_of(self.output_format))
    }
}

/// Voice settings with nothing set.
pub open spec fn unset_voice_settings() -> VoiceSettings {
    VoiceSettings {
        stability: None,
        similarity_boost: None,
        style: None,
        use_speaker_boost: None,
        speed: None,
    }
}

/// The voice settings that a JSON value holds. The value has to be an
/// object; each setting is read from the member of its name, which may be
/// left out or null; members of other names are passed over. A member of
/// the wrong kind leaves the whole value without a reading.
pub open spec fn decode_voice_settings(j: Json) -> Option<VoiceSettings> {
    match j {
        Json::Object(m) => match (
            member_optional_number(m, "stability"@),
            member_optional_number(m, "similarity_boost"@),
            member_optional_number(m, "style"@),
            member_optional_bool(m, "use_speaker_boost"@),
            member_optional_number(m, "speed"@),
        ) {
            (
                Some(stability),
                Some(similarity_boost),
                Some(style),
                Some(use_speaker_boost),
                Some(speed),
            ) => Some(
                VoiceSettings { stability, similarity_boost, style, use_speaker_boost, speed },
            ),
            _ => None,
        },
        _ => None,
    }
}

/// The voice settings of a request: those that `voice_settings` holds
/// among the provider-defined fields, or none where it is missing or has
/// no reading; and for the speed, whatever they say, the speed of the
/// request itself.
pub open spec fn voice_settings_for(
    extra: Map<Seq<char>, Json>,
    speed: Option<u64>,
) -> VoiceSettings {
    let given = match member(extra, "voice_settings"@) {
        Some(j) => match decode_voice_settings(j) {
            Some(settings) => settings,
            None => unset_voice_settings(),
        },
        None => unset_voice_settings(),
    };
    VoiceSettings {
        stability: given.stability,
        similarity_boost: given.similarity_boost,
        style: given.style,
        use_speaker_boost: given.use_speaker_boost,
        speed,
    }
}

/// The locator that a JSON value holds: an object with a string
/// `pronunciation_dictionary_id` and a string `version_id` that may be
/// left out or null.
pub open spec fn decode_locator(j: Json) -> Option<Locator> {
    match j {
        Json::Object(m) => match (
            member_text(m, "pronunciation_dictionary_id"@),
            member_optional_text(m, "version_id"@),
        ) {
            (Some(pronunciation_dictionary_id), Some(version_id)) => Some(
                Locator { pronunciation_dictionary_id, version_id },
            ),
            _ => None,
        },
        _ => None,
    }
}

/// The locators that a JSON value holds: an array of locators. One item
/// without a reading leaves the whole array without one.
pub open spec fn decode_locators(j: Json) -> Option<Seq<Locator>> {
    match j {
        Json::Array(items) => if forall|i: int|
            0 <= i < items.len() ==> (#[trigger] decode_locator(items[i])) is Some {
            Some(Seq::new(items.len(), |i: int| decode_locator(items[i])->0))
        } else {
            None
        },
        _ => None,
    }
}

/// The locators bound to `key`, if it is bound to any.
pub open spec fn member_locators(m: Map<Seq<char>, Json>, key: Seq<char>) -> Option<
    Seq<Locator>,
> {
    match member(m, key) {
        Some(j) => decode_locators(j),
        None => None,
    }
}

/// The body for a request: text and model from the request itself, the
/// voice settings merged, and each further field from the provider-defined
/// field of its name, left out where that is missing or of the wrong kind.
pub open spec fn payload_for(
    input: Seq<char>,
    model: Seq<char>,
    speed: Option<u64>,
    extra: Map<Seq<char>, Json>,
) -> SpeechBody {
    SpeechBody {
        text: input,
        model_id: model,
        language_code: member_text(extra, "language_code"@),
        voice_settings: voice_settings_for(extra, speed),
        pronunciation_dictionary_locators: member_locators(
            extra,
            "pronunciation_dictionary_locators"@,
        ),
        seed: member_number(extra, "seed"@),
        previous_text: member_text(extra, "previous_text"@),
        next_text: member_text(extra, "next_text"@),
        previous_request_ids: member_texts(extra, "previous_request_ids"@),
        next_request_ids: member_texts(extra, "next_request_ids"@),
        apply_text_normalization: member_text(extra, "apply_text_normalization"@),
        apply_language_text_normalization: member_bool(
            extra,
            "apply_language_text_normalization"@,
        ),
    }
}

/// Voice settings as JSON: an object with a member for each setting that
/// is set.
pub open spec fn voice_settings_json(v: VoiceSettings) -> Json {
    Json::Object(
        with_member(
            with_member(
                with_member(
                    with_member(
                        with_member(Map::empty(), "stability"@, number_json(v.stability)),
                        "similarity_boost"@,
                        number_json(v.similarity_boost),
                    ),
                    "style"@,
                    number_json(v.style),
                ),
                "use_speaker_boost"@,
                bool_json(v.use_speaker_boost),
            ),
            "speed"@,
            number_json(v.speed),
        ),
    )
}

/// A locator as JSON: an object with both members, the version null
/// where there is none.
pub open spec fn locator_json(l: Locator) -> Json {
    Json::Object(
        Map::<Seq<char>, Json>::empty().insert(
            "pronunciation_dictionary_id"@,
            Json::String(l.pronunciation_dictionary_id),
        ).insert(
            "version_id"@,
            match l.version_id {
                Some(v) => Json::String(v),
                None => Json::Null,
            },
        ),
    )
}

/// A list of locators as a JSON array.
pub open spec fn locators_json(ls: Seq<Locator>) -> Json {
    Json::Array(Seq::new(ls.len(), |i: int| locator_json(ls[i])))
}

/// An optional list of locators as an optional JSON array.
pub open spec fn opt_locators_json(ls: Option<Seq<Locator>>) -> Option<Json> {
    match ls {
        Some(ls) => Some(locators_json(ls)),
        None => None,
    }
}

/// The body as JSON: `text`, `model_id` and `voice_settings` always, and a
/// member for each further field that is set.
pub open spec fn body_json(b: SpeechBody) -> Json {
    let m0 = Map::<Seq<char>, Json>::empty().insert("text"@, Json::String(b.text)).insert(
        "model_id"@,
        Json::String(b.model_id),
    );
    let m1 = with_member(m0, "language_code"@, text_json(b.language_code));
    let m2 = m1.insert("voice_settings"@, voice_settings_json(b.voice_settings));
    let m3 = with_member(
        m2,
        "pronunciation_dictionary_locators"@,
        opt_locators_json(b.pronunciation_dictionary_locators),
    );
    let m4 = with_member(m3, "seed"@, number_json(b.seed));
    let m5 = with_member(m4, "previous_text"@, text_json(b.previous_text));
    let m6 = with_member(m5, "next_text"@, text_json(b.next_text));
    let m7 = with_member(m6, "previous_request_ids"@, opt_texts_json(b.previous_request_ids));
    let m8 = with_member(m7, "next_request_ids"@, opt_texts_json(b.next_request_ids));
    let m9 = with_member(m8, "apply_text_normalization"@, text_json(b.apply_text_normalization));
    Json::Object(
        with_member(
            m9,
            "apply_language_text_normalization"@,
            bool_json(b.apply_language_text_normalization),
        ),
    )
}

/// The query parameters as pairs of name and value, in the order
/// `enable_logging`, `output_format`; a parameter that is not set has no
/// pair.
pub open spec fn query_pairs(enable_logging: Option<bool>, output_format: Option<Seq<char>>) -> Seq<
    (Seq<char>, Seq<char>),
> {
    let logging = match enable_logging {
        Some(b) => seq![("enable_logging"@, if b { "true"@ } else { "false"@ })],
        None => Seq::empty(),
    };
    let format = match output_format {
        Some(f) => seq![("output_format"@, f)],
        None => Seq::empty(),
    };
    logging + format
}

/// The address of the endpoint for a voice, before it is parsed: the
/// voice stands in the path, the encoded query behind `?`.
pub open spec fn endpoint_text(voice: Seq<char>, query: Seq<char>) -> Seq<char> {
    "https://api.elevenlabs.io/v1/text-to-speech/"@ + voice + "?"@ + query
}

/// The request with the given body for the given address: where the
/// address was parsed, a POST to it with the token in the `xi-api-key`
/// header; where it was not, the rejection of the voice.
pub open spec fn assembled(
    body: SpeechBody,
    token: Seq<char>,
    voice: Seq<char>,
    url: Option<Seq<char>>,
) -> Result<RequestModel, ErrorModel> {
    match url {
        Some(url) => Ok(
            RequestModel {
                url,
                credential: CredentialModel::Header { name: "xi-api-key"@, value: token },
                body: body_json(body),
            },
        ),
        None => Err(ErrorModel::Validation { message: "Invalid voice: "@ + voice }),
    }
}

/// The request that ElevenLabs is sent for `options`, or the rejection of
/// `options`.
pub open spec fn elevenlabs_request(options: ProcessedSpeechRequest, token: Seq<char>) -> Result<
    RequestModel,
    ErrorModel,
> {
    let pairs = query_pairs(member_bool(options.extra, "enable_logging"@), options.response_format);
    match form_urlencoded(pairs) {
        Some(query) => assembled(
            payload_for(options.input, options.model, options.speed, options.extra),
            token,
            options.voice,
            url_normal_form(endpoint_text(options.voice, query)),
        ),
        None => Err(ErrorModel::Validation { message: "Invalid query"@ }),
    }
}

impl ElevenLabsSpeechVoiceSettings {
    /// Voice settings with nothing set.
    pub fn unset() -> (r: ElevenLabsSpeechVoiceSettings)
        ensures
            r@ == unset_voice_settings(),
    {
        ElevenLabsSpeechVoiceSettings {
            stability: None,
            similarity_boost: None,
            style: None,
            use_speaker_boost: None,
            speed: None,
        }
    }

    /// Reads voice settings from a JSON value.
    pub fn from_json(value: &JsonValue) -> (r: Option<ElevenLabsSpeechVoiceSettings>)
        ensures
            match r {
                Some(settings) => decode_voice_settings(value@) == Some(settings@),
                None => decode_voice_settings(value@) is None,
            },
    {
        let object = value.as_object()?;
        let stability = object.optional_number("stability")?;
        let similarity_boost = object.optional_number("similarity_boost")?;
        let style = object.optional_number("style")?;
        let use_speaker_boost = object.optional_bool("use_speaker_boost")?;
        let speed = object.optional_number("speed")?;
        Some(
            ElevenLabsSpeechVoiceSettings {
                stability,
                similarity_boost,
                style,
                use_speaker_boost,
                speed,
            },
        )
    }

    /// The voice settings of a request: what `voice_settings` among the
    /// provider-defined fields holds, with the speed of the request itself
    /// in place of its speed.
    pub fn merged(extra: &JsonObject, speed: Option<JsonNumber>) -> (r:
        ElevenLabsSpeechVoiceSettings)
        ensures
            r@ == voice_settings_for(extra@, bits_of(speed)),
    {
        let given = match extra.get("voice_settings") {
            Some(value) => match ElevenLabsSpeechVoiceSettings::from_json(value) {
                Some(settings) => settings,
                None => ElevenLabsSpeechVoiceSettings::unset(),
            },
            None => ElevenLabsSpeechVoiceSettings::unset(),
        };
        ElevenLabsSpeechVoiceSettings {
            stability: given.stability,
            similarity_boost: given.similarity_boost,
            style: given.style,
            use_speaker_boost: given.use_speaker_boost,
            speed,
        }
    }

    /// The settings as JSON.
    pub fn to_json(&self) -> (r: JsonValue)
        ensures
            r@ == voice_settings_json(self@),
            r matches JsonValue::Object(o) && o.names_distinct(),
    {
        let mut object = JsonObject::new();
        object.put_opt("stability", number_value(self.stability));
        object.put_opt("similarity_boost", number_value(self.similarity_boost));
        object.put_opt("style", number_value(self.style));
        object.put_opt("use_speaker_boost", bool_value(self.use_speaker_boost));
        object.put_opt("speed", number_value(self.speed));
        JsonValue::Object(object)
    }
}

impl ElevenLabsSpeechPronunciationDictionaryLocator {
    /// Reads a locator from a JSON value.
    pub fn from_json(value: &JsonValue) -> (r: Option<
        ElevenLabsSpeechPronunciationDictionaryLocator,
    >)
        ensures
            match r {
                Some(locator) => decode_locator(value@) == Some(locator@),
                None => decode_locator(value@) is None,
            },
    {
        let object = value.as_object()?;
        let pronunciation_dictionary_id = object.try_get_string("pronunciation_dictionary_id")?;
        let version_id = object.optional_string("version_id")?;
        Some(
            ElevenLabsSpeechPronunciationDictionaryLocator {
                pronunciation_dictionary_id,
                version_id,
            },
        )
    }

    /// Reads a list of locators from a JSON value.
    pub fn list_from_json(value: &JsonValue) -> (r: Option<
        Vec<ElevenLabsSpeechPronunciationDictionaryLocator>,
    >)
        ensures
            opt_locators_of(r) == decode_locators(value@),
    {
        match value {
            JsonValue::Array(items) => {
                let n: usize = items.len();
                let ghost model = items_model(*items, n as nat);
                proof {
                    lemma_items_model(*items, n as nat);
                }
                let mut out: Vec<ElevenLabsSpeechPronunciationDictionaryLocator> = Vec::new();
                let mut i: usize = 0;
                while i < n
                    invariant
                        i <= n,
                        n == items.len(),
                        value@ == Json::Array(model),
                        model.len() == n,
                        forall|j: int| 0 <= j < n ==> #[trigger] model[j] == items[j].model(),
                        out.len() == i,
                        forall|j: int|
                            0 <= j < i ==> #[trigger] decode_locator(model[j]) == Some(out[j]@),
                    decreases n - i,
                {
                    match ElevenLabsSpeechPronunciationDictionaryLocator::from_json(&items[i]) {
                        Some(locator) => {
                            out.push(locator);
                        },
                        None => {
                            assert(decode_locator(model[i as int]) is None);
                            return None;
                        },
                    }
                    i += 1;
                }
                assert(locators_of(out) =~= Seq::new(
                    model.len(),
                    |i: int| decode_locator(model[i])->0,
                ));
                Some(out)
            },
            _ => None,
        }
    }

    /// The locator as JSON.
    pub fn to_json(&self) -> (r: JsonValue)
        ensures
            r@ == locator_json(self@),
            r matches JsonValue::Object(o) && o.names_distinct(),
    {
        let mut object = JsonObject::new();
        object.put(
            "pronunciation_dictionary_id",
            JsonValue::String(self.pronunciation_dictionary_id.clone()),
        );
        object.put(
            "version_id",
            match &self.version_id {
                Some(version) => JsonValue::String(version.clone()),
                None => JsonValue::Null,
            },
        );
        JsonValue::Object(object)
    }

    /// A list of locators as a JSON array.
    pub fn list_to_json(list: &Vec<ElevenLabsSpeechPronunciationDictionaryLocator>) -> (r:
        JsonValue)
        ensures
            r@ == locators_json(locators_of(*list)),
    {
        let n: usize = list.len();
        let mut items: Vec<JsonValue> = Vec::new();
        let mut i: usize = 0;
        while i < n
            invariant
                i <= n,
                n == list.len(),
                items.len() == i,
                forall|j: int| 0 <= j < i ==> (#[trigger] items[j])@ == locator_json(list[j]@),
            decreases n - i,
        {
            items.push(list[i].to_json());
            i += 1;
        }
        proof {
            lemma_array_model(
                items,
                Seq::new(locators_of(*list).len(), |i: int| locator_json(locators_of(*list)[i])),
            );
        }
        JsonValue::Array(items)
    }
}

impl ElevenLabsSpeechOptions {
    /// The body for a request.
    pub fn for_request(
        input: String,
        model: String,
        speed: Option<JsonNumber>,
        extra: &JsonObject,
    ) -> (r: ElevenLabsSpeechOptions)
        ensures
            r@ == payload_for(input@, model@, bits_of(speed), extra@),
    {
        let pronunciation_dictionary_locators = match extra.get(
            "pronunciation_dictionary_locators",
        ) {
            Some(value) => ElevenLabsSpeechPronunciationDictionaryLocator::list_from_json(value),
            None => None,
        };
        ElevenLabsSpeechOptions {
            text: input,
            model_id: model,
            language_code: extra.try_get_string("language_code"),
            voice_settings: ElevenLabsSpeechVoiceSettings::merged(extra, speed),
            pronunciation_dictionary_locators,
            seed: extra.try_get_number("seed"),
            previous_text: extra.try_get_string("previous_text"),
            next_text: extra.try_get_string("next_text"),
            previous_request_ids: extra.try_get_strings("previous_request_ids"),
            next_request_ids: extra.try_get_strings("next_request_ids"),
            apply_text_normalization: extra.try_get_string("apply_text_normalization"),
            apply_language_text_normalization: extra.try_get_bool(
                "apply_language_text_normalization",
            ),
        }
    }

    /// The body as JSON.
    pub fn to_json(self) -> (r: JsonValue)
        ensures
            r@ == body_json(self@),
            r matches JsonValue::Object(o) && o.names_distinct(),
    {
        let locators = match &self.pronunciation_dictionary_locators {
            Some(list) => Some(ElevenLabsSpeechPronunciationDictionaryLocator::list_to_json(list)),
            None => None,
        };
        let previous_request_ids = strings_value(&self.previous_request_ids);
        let next_request_ids = strings_value(&self.next_request_ids);
        let mut object = JsonObject::new();
        object.put("text", JsonValue::String(self.text));
        object.put("model_id", JsonValue::String(self.model_id));
        object.put_opt("language_code", string_value(self.language_code));
        object.put("voice_settings", self.voice_settings.to_json());
        object.put_opt("pronunciation_dictionary_locators", locators);
        object.put_opt("seed", number_value(self.seed));
        object.put_opt("previous_text", string_value(self.previous_text));
        object.put_opt("next_text", string_value(self.next_text));
        object.put_opt("previous_request_ids", previous_request_ids);
        object.put_opt("next_request_ids", next_request_ids);
        object.put_opt("apply_text_normalization", string_value(self.apply_text_normalization));
        object.put_opt(
            "apply_language_text_normalization",
            bool_value(self.apply_language_text_normalization),
        );
        JsonValue::Object(object)
    }
}

impl ElevenLabsSpeechQuery {
    /// The parameters that are set, as pairs of name and value.
    pub fn to_pairs(self) -> (r: Vec<(String, String)>)
        ensures
            pairs_of(r) == self@,
    {
        let mut pairs: Vec<(String, String)> = Vec::new();
        match self.enable_logging {
            Some(b) => {
                let value = if b {
                    "true"
                } else {
                    "false"
                };
                pairs.push(("enable_logging".to_owned(), value.to_owned()));
            },
            None => {},
        }
        match self.output_format {
            Some(format) => {
                pairs.push(("output_format".to_owned(), format));
            },
            None => {},
        }
        assert(pairs_of(pairs) =~= query_pairs(self.enable_logging, chars_of(self.output_format)));
        pairs
    }
}

/// The address of the endpoint for a voice, before it is parsed.
pub fn endpoint(voice: &str, query: &str) -> (r: String)
    ensures
        r@ == endpoint_text(voice@, query@),
{
    let mut address = join("https://api.elevenlabs.io/v1/text-to-speech/", voice);
    address.append("?");
    address.append(query);
    address
}

/// Puts the request together once the address has been parsed, or
/// rejects the voice where it has not.
pub fn assemble(body: ElevenLabsSpeechOptions, token: &str, voice: &str, url: Option<String>) -> (r:
    Result<UpstreamRequest, GatewayError>)
    ensures
        request_view(r) == assembled(body@, token@, voice@, chars_of(url)),
{
    match url {
        Some(url) => Ok(
            UpstreamRequest {
                url,
                credential: Credential::Header {
                    name: "xi-api-key".to_owned(),
                    value: token.to_owned(),
                },
                body: body.to_json(),
            },
        ),
        None => Err(GatewayError::Validation { message: join("Invalid voice: ", voice) }),
    }
}

/// Plans the call to ElevenLabs for `options`.
pub fn handle(options: ProcessedSpeechOptions, token: &str) -> (r: Result<
    UpstreamRequest,
    GatewayError,
>)
    ensures
        request_view(r) == elevenlabs_request(options@, token@),
{
    let enable_logging = options.extra.try_get_bool("enable_logging");
    let body = ElevenLabsSpeechOptions::for_request(
        options.input,
        options.model,
        options.speed,
        &options.extra,
    );
    let query = ElevenLabsSpeechQuery { enable_logging, output_format: options.response_format };
    match form_encode(&query.to_pairs()) {
        Ok(encoded) => {
            let address = endpoint(options.voice.as_str(), encoded.as_str());
            let url = match parse_url(address.as_str()) {
                Ok(url) => Some(url),
                Err(_) => None,
            };
            assemble(body, token, options.voice.as_str(), url)
        },
        Err(_) => Err(GatewayError::Validation { message: "Invalid query".to_owned() }),
    }
}

/// The adapter for ElevenLabs.
pub struct ElevenLabsAdapter;

impl ProviderAdapter for ElevenLabsAdapter {
    open spec fn serves() -> Provider {
        Provider::ElevenLabs
    }

    open spec fn request_for(options: ProcessedSpeechRequest, token: Seq<char>) -> Result<
        RequestModel,
        ErrorModel,
    > {
        elevenlabs_request(options, token)
    }

    fn plan(options: ProcessedSpeechOptions, token: &str) -> (r: Result<Exchange, GatewayError>) {
        exchange_of(Provider::ElevenLabs, handle(options, token))
    }
}

/// Reveals what the names of the voice settings are.
proof fn lemma_setting_names()
    ensures
        "stability"@.len() == 9,
        "similarity_boost"@.len() == 16,
        "style"@.len() == 5,
        "use_speaker_boost"@.len() == 17,
        "speed"@.len() == 5,
        "style"@[1] == 't',
        "speed"@[1] == 'p',
{
    reveal_strlit("stability");
    reveal_strlit("similarity_boost");
    reveal_strlit("style");
    reveal_strlit("use_speaker_boost");
    reveal_strlit("speed");
}

/// The speed of the request itself always wins: whatever the
/// provider-defined fields hold, the voice settings that are sent carry
/// the request's speed, and no speed where the request has none.
pub proof fn lemma_request_speed_wins(extra: Map<Seq<char>, Json>, speed: Option<u64>)
    ensures
        voice_settings_for(extra, speed).speed == speed,
        voice_settings_json(voice_settings_for(extra, speed)) matches Json::Object(m)
            && member(m, "speed"@) == number_json(speed),
{
    lemma_setting_names();
}

/// Each voice setting has a member exactly where it is set, and no
/// member is null.
pub proof fn lemma_voice_settings_members(v: VoiceSettings)
    ensures
        voice_settings_json(v) matches Json::Object(m) && {
            &&& member(m, "stability"@) == number_json(v.stability)
            &&& member(m, "similarity_boost"@) == number_json(v.similarity_boost)
            &&& member(m, "style"@) == number_json(v.style)
            &&& member(m, "use_speaker_boost"@) == bool_json(v.use_speaker_boost)
            &&& member(m, "speed"@) == number_json(v.speed)
        },
{
    lemma_setting_names();
}

/// Reveals what the names of the body's members are.
proof fn lemma_body_names()
    ensures
        "text"@.len() == 4,
        "model_id"@.len() == 8,
        "language_code"@.len() == 13,
        "voice_settings"@.len() == 14,
        "pronunciation_dictionary_locators"@.len() == 33,
        "seed"@.len() == 4,
        "previous_text"@.len() == 13,
        "next_text"@.len() == 9,
        "previous_request_ids"@.len() == 20,
        "next_request_ids"@.len() == 16,
        "apply_text_normalization"@.len() == 24,
        "apply_language_text_normalization"@.len() == 33,
        "text"@[0] == 't',
        "seed"@[0] == 's',
        "language_code"@[0] == 'l',
        "previous_text"@[0] == 'p',
        "similarity_boost"@[0] == 's',
        "next_request_ids"@[0] == 'n',
        "pronunciation_dictionary_locators"@[0] == 'p',
        "apply_language_text_normalization"@[0] == 'a',
{
    reveal_strlit("text");
    reveal_strlit("model_id");
    reveal_strlit("language_code");
    reveal_strlit("voice_settings");
    reveal_strlit("pronunciation_dictionary_locators");
    reveal_strlit("seed");
    reveal_strlit("previous_text");
    reveal_strlit("next_text");
    reveal_strlit("previous_request_ids");
    reveal_strlit("next_request_ids");
    reveal_strlit("apply_text_normalization");
    reveal_strlit("apply_language_text_normalization");
    reveal_strlit("similarity_boost");
}

/// The body has `text`, `model_id` and `voice_settings`, and a member for
/// each further field exactly where the field is set: what is not set is
/// left out, not sent as null.
pub proof fn lemma_body_members(b: SpeechBody)
    ensures
        body_json(b) matches Json::Object(m) && {
            &&& member(m, "text"@) == Some(Json::String(b.text))
            &&& member(m, "model_id"@) == Some(Json::String(b.model_id))
            &&& member(m, "language_code"@) == text_json(b.language_code)
            &&& member(m, "voice_settings"@) == Some(voice_settings_json(b.voice_settings))
            &&& member(m, "pronunciation_dictionary_locators"@) == opt_locators_json(
                b.pronunciation_dictionary_locators,
            )
            &&& member(m, "seed"@) == number_json(b.seed)
            &&& member(m, "previous_text"@) == text_json(b.previous_text)
            &&& member(m, "next_text"@) == text_json(b.next_text)
            &&& member(m, "previous_request_ids"@) == opt_texts_json(b.previous_request_ids)
            &&& member(m, "next_request_ids"@) == opt_texts_json(b.next_request_ids)
            &&& member(m, "apply_text_normalization"@) == text_json(b.apply_text_normalization)
            &&& member(m, "apply_language_text_normalization"@) == bool_json(
                b.apply_language_text_normalization,
            )
        },
{
    lemma_body_names();
}

/// A provider-defined field of the wrong kind is passed over: the body
/// carries a seed exactly where `seed` is bound to a number.
pub proof fn lemma_seed_needs_a_number(
    input: Seq<char>,
    model: Seq<char>,
    speed: Option<u64>,
    extra: Map<Seq<char>, Json>,
)
    ensures
        body_json(payload_for(input, model, speed, extra)) matches Json::Object(m) && member(
            m,
            "seed"@,
        ) == number_json(member_number(extra, "seed"@)),
{
    lemma_body_members(payload_for(input, model, speed, extra));
}

} // verus!
