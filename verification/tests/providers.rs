use unspeech::provider::Provider;

#[test]
fn registered_providers_are_found_by_key() {
    assert_eq!(Provider::lookup("openai"), Some(Provider::OpenAi));
    assert_eq!(Provider::lookup("elevenlabs"), Some(Provider::ElevenLabs));
}

#[test]
fn keys_are_matched_exactly() {
    assert_eq!(Provider::lookup("OpenAI"), None);
    assert_eq!(Provider::lookup("openai "), None);
    assert_eq!(Provider::lookup("eleven"), None);
    assert_eq!(Provider::lookup(""), None);
    assert_eq!(Provider::lookup("azure"), None);
}

#[test]
fn audio_is_mpeg() {
    assert_eq!(Provider::OpenAi.content_type(), "audio/mpeg");
    assert_eq!(Provider::ElevenLabs.content_type(), "audio/mpeg");
}
