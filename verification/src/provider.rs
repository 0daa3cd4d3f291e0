//! The providers that the gateway can forward a request to.

use vstd::prelude::*;
use crate::text::same;

verus! {

/// A provider with an adapter of its own.
#[derive(Clone, Copy, Debug, PartialEq, Eq)]
pub enum Provider {
    OpenAi,
    ElevenLabs,
}

impl Provider {
    /// The provider registered under `key`. Keys are matched exactly, with
    /// regard to case.
    pub open spec fn registered(key: Seq<char>) -> Option<Provider> {
        if key == "openai"@ {
            Some(Provider::OpenAi)
        } else if key == "elevenlabs"@ {
            Some(Provider::ElevenLabs)
        } else {
            None
        }
    }

    /// The content type of the audio that the provider returns.
    pub open spec fn audio_type(self) -> Seq<char> {
        match self {
            Provider::OpenAi => "audio/mpeg"@,
            Provider::ElevenLabs => "audio/mpeg"@,
        }
    }

    /// Looks a provider up by its key.
    pub fn lookup(key: &str) -> (r: Option<Provider>)
        ensures
            r == Provider::registered(key@),
    {
        if same(key, "openai") {
            Some(Provider::OpenAi)
        } else if same(key, "elevenlabs") {
            Some(Provider::ElevenLabs)
        } else {
            None
        }
    }

    /// The content type of the audio that the provider returns.
    pub fn content_type(&self) -> (r: String)
        ensures
            r@ == self.audio_type(),
    {
        match self {
            Provider::OpenAi => "audio/mpeg".to_owned(),
            Provider::ElevenLabs => "audio/mpeg".to_owned(),
        }
    }
}

} // verus!
