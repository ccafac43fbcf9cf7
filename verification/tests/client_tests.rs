use eleven_tts::{
    classify_response, AudioFormat, SpeechClient, TextNormalization, TtsError, TtsModel, Voice,
    VoiceSettings,
};

fn client() -> SpeechClient {
    SpeechClient::new("test-key".to_string())
}

#[test]
fn empty_text_fails_with_missing_input() {
    let r = client().synthesize().prepare();
    assert_eq!(r.unwrap_err(), TtsError::MissingInput);
}

#[test]
fn empty_input_alias_fails_with_missing_input() {
    let r = client().synthesize().input(String::new()).prepare();
    assert_eq!(r.unwrap_err(), TtsError::MissingInput);
}

#[test]
fn overlong_text_fails_with_exact_length() {
    let text = "a".repeat(5001);
    let r = client().synthesize().text(text).prepare();
    assert_eq!(r.unwrap_err(), TtsError::InputTooLong(5001));
}

#[test]
fn text_of_exactly_5000_characters_is_accepted() {
    let text = "a".repeat(5000);
    let r = client().synthesize().text(text).prepare();
    assert!(r.is_ok());
}

#[test]
fn length_is_counted_in_characters_not_bytes() {
    // 2500 two-byte characters: 5000 bytes would also pass, but 2500
    // characters must pass even when doubled in bytes.
    let text = "é".repeat(5000);
    assert_eq!(text.len(), 10000);
    let r = client().synthesize().text(text).prepare();
    assert!(r.is_ok());
}

#[test]
fn negative_stability_fails_naming_field_and_value() {
    let r = client().synthesize().text("hi".to_string()).stability(-100).prepare();
    assert_eq!(
        r.unwrap_err(),
        TtsError::InvalidVoiceSettings { field: "stability".to_string(), value: -100 },
    );
}

#[test]
fn oversized_similarity_boost_fails_naming_field_and_value() {
    let r = client().synthesize().text("hi".to_string()).similarity_boost(1500).prepare();
    assert_eq!(
        r.unwrap_err(),
        TtsError::InvalidVoiceSettings { field: "similarity_boost".to_string(), value: 1500 },
    );
}

#[test]
fn oversized_style_fails_naming_field_and_value() {
    let r = client().synthesize().text("hi".to_string()).style(1001).prepare();
    assert_eq!(
        r.unwrap_err(),
        TtsError::InvalidVoiceSettings { field: "style".to_string(), value: 1001 },
    );
}

#[test]
fn boundary_settings_are_accepted() {
    let r = client()
        .synthesize()
        .text("hi".to_string())
        .stability(0)
        .similarity_boost(1000)
        .style(0)
        .prepare();
    assert!(r.is_ok());
}

#[test]
fn stability_is_checked_before_similarity_boost() {
    let r = client()
        .synthesize()
        .text("hi".to_string())
        .stability(-1)
        .similarity_boost(2000)
        .prepare();
    assert_eq!(
        r.unwrap_err(),
        TtsError::InvalidVoiceSettings { field: "stability".to_string(), value: -1 },
    );
}

#[test]
fn empty_api_key_fails_with_missing_api_key() {
    let r = SpeechClient::new(String::new()).synthesize().text("hi".to_string()).prepare();
    assert_eq!(r.unwrap_err(), TtsError::MissingApiKey);
}

#[test]
fn empty_text_is_reported_before_empty_api_key() {
    let r = SpeechClient::new(String::new()).synthesize().prepare();
    assert_eq!(r.unwrap_err(), TtsError::MissingInput);
}

#[test]
fn rachel_voice_id_appears_in_url_path() {
    let p = client().synthesize().text("hi".to_string()).voice(Voice::Rachel).prepare().unwrap();
    assert_eq!(
        p.url,
        "https://api.elevenlabs.io/v1/text-to-speech/21m00Tcm4TlvDq8ikWAM?output_format=mp3_44100_128",
    );
}

#[test]
fn rachel_is_the_default_voice() {
    assert_eq!(Voice::Rachel.as_voice_id(), "21m00Tcm4TlvDq8ikWAM");
    let p = client().synthesize().text("hi".to_string()).prepare().unwrap();
    assert!(p.url.contains("/v1/text-to-speech/21m00Tcm4TlvDq8ikWAM"));
}

#[test]
fn unset_output_format_serializes_as_default_mp3() {
    let p = client().synthesize().text("hi".to_string()).prepare().unwrap();
    assert!(p.url.ends_with("?output_format=mp3_44100_128"));
    assert_eq!(p.format, AudioFormat::Mp3_44100_128);
}

#[test]
fn chosen_output_format_reaches_url_and_response_format() {
    let p = client()
        .synthesize()
        .text("hi".to_string())
        .output_format(AudioFormat::Pcm16000)
        .prepare()
        .unwrap();
    assert!(p.url.ends_with("?output_format=pcm_16000"));
    assert_eq!(p.format, AudioFormat::Pcm16000);
}

#[test]
fn response_format_is_an_alias_of_output_format() {
    let a = client()
        .synthesize()
        .text("hi".to_string())
        .output_format(AudioFormat::Ulaw8000)
        .prepare()
        .unwrap();
    let b = client()
        .synthesize()
        .text("hi".to_string())
        .response_format(AudioFormat::Ulaw8000)
        .prepare()
        .unwrap();
    assert_eq!(a.url, b.url);
    assert_eq!(a.body, b.body);
}

#[test]
fn custom_base_url_and_timeout_are_used() {
    let p = SpeechClient::new("k".to_string())
        .with_base_url("https://example.test".to_string())
        .with_timeout(1234)
        .synthesize()
        .text("hi".to_string())
        .prepare()
        .unwrap();
    assert!(p.url.starts_with("https://example.test/v1/text-to-speech/"));
    assert_eq!(p.timeout, 1234);
}

#[test]
fn malformed_base_url_is_a_client_error() {
    let r = SpeechClient::new("k".to_string())
        .with_base_url("not a url".to_string())
        .synthesize()
        .text("hi".to_string())
        .prepare();
    assert!(matches!(r.unwrap_err(), TtsError::HttpClient(_)));
}

#[test]
fn headers_carry_api_key_and_content_type() {
    let p = client().synthesize().text("hi".to_string()).prepare().unwrap();
    let h = p.headers();
    assert_eq!(h.len(), 2);
    assert_eq!(h[0], ("xi-api-key".to_string(), "test-key".to_string()));
    assert_eq!(h[1], ("Content-Type".to_string(), "application/json".to_string()));
}

#[test]
fn success_response_wraps_audio_with_request_format() {
    let r = classify_response(200, vec![1, 2, 3], AudioFormat::Mp3_44100_128).unwrap();
    assert_eq!(r.audio_data, vec![1, 2, 3]);
    assert_eq!(r.format, AudioFormat::Mp3_44100_128);
}

#[test]
fn success_response_keeps_chosen_format() {
    let r = classify_response(204, vec![], AudioFormat::Pcm44100).unwrap();
    assert_eq!(r.audio_data, Vec::<u8>::new());
    assert_eq!(r.format, AudioFormat::Pcm44100);
}

#[test]
fn error_401_with_envelope_yields_its_message() {
    let body = br#"{"error":{"message":"invalid key"}}"#.to_vec();
    let e = classify_response(401, body, AudioFormat::Mp3_44100_128).unwrap_err();
    assert_eq!(e, TtsError::ApiError { status: 401, message: "invalid key".to_string() });
}

#[test]
fn error_500_with_plain_body_yields_the_body_text() {
    let body = b"oops".to_vec();
    let e = classify_response(500, body, AudioFormat::Mp3_44100_128).unwrap_err();
    assert_eq!(e, TtsError::ApiError { status: 500, message: "oops".to_string() });
}

#[test]
fn error_with_invalid_utf8_body_is_replaced_not_dropped() {
    let body = vec![0xff, 0xfe];
    let e = classify_response(500, body, AudioFormat::Mp3_44100_128).unwrap_err();
    match e {
        TtsError::ApiError { status, message } => {
            assert_eq!(status, 500);
            assert_eq!(message, "\u{fffd}\u{fffd}");
        },
        other => panic!("unexpected error: {:?}", other),
    }
}

#[test]
fn model_wire_names_are_exact() {
    assert_eq!(TtsModel::ElevenV3.as_str(), "eleven_v3");
    assert_eq!(TtsModel::ElevenMultilingualV2.as_str(), "eleven_multilingual_v2");
    assert_eq!(TtsModel::ElevenFlashV25.as_str(), "eleven_flash_v2_5");
    assert_eq!(TtsModel::ElevenTurboV25.as_str(), "eleven_turbo_v2_5");
}

#[test]
fn voice_ids_are_exact() {
    assert_eq!(Voice::Drew.as_voice_id(), "29vD33N1CtxCmqQRPOHJ");
    assert_eq!(Voice::Clyde.as_voice_id(), "2EiwWnXFnvU5JabPnv8n");
    assert_eq!(Voice::Paul.as_voice_id(), "5Q0t7uMcjvnagumLfvZi");
    assert_eq!(Voice::Aria.as_voice_id(), "9BWtsMINqrJLrRacOk9x");
    assert_eq!(Voice::Domi.as_voice_id(), "AZnzlk1XvdvUeBnXmlld");
    assert_eq!(Voice::Dave.as_voice_id(), "CYw3kZ02Hs0563khs1Fj");
    assert_eq!(Voice::Roger.as_voice_id(), "CwhRBWXzGAHq8TQ4Fs17");
    assert_eq!(Voice::Fin.as_voice_id(), "D38z5RcWu1voky8WS1ja");
    assert_eq!(Voice::Sarah.as_voice_id(), "EXAVITQu4vr4xnSDxMaL");
}

#[test]
fn format_wire_names_are_exact() {
    assert_eq!(AudioFormat::Mp3_22050_32.as_str(), "mp3_22050_32");
    assert_eq!(AudioFormat::Mp3_44100_192.as_str(), "mp3_44100_192");
    assert_eq!(AudioFormat::Pcm22050.as_str(), "pcm_22050");
    assert_eq!(AudioFormat::Pcm24000.as_str(), "pcm_24000");
    assert_eq!(AudioFormat::Ulaw8000.as_str(), "ulaw_8000");
}

#[test]
fn defaults_match_the_provider_defaults() {
    assert_eq!(TtsModel::default().as_str(), "eleven_multilingual_v2");
    assert_eq!(Voice::default().as_voice_id(), "21m00Tcm4TlvDq8ikWAM");
    assert_eq!(AudioFormat::default().as_str(), "mp3_44100_128");
    assert_eq!(TextNormalization::default().as_str(), "auto");
    let vs = VoiceSettings::default();
    assert!(vs.stability.is_none());
    assert!(vs.similarity_boost.is_none());
    assert!(vs.style.is_none());
    assert!(vs.use_speaker_boost.is_none());
}
