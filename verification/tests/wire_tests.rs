use eleven_tts::wire::serialize_request;
use eleven_tts::{AudioFormat, SpeechClient, SpeechRequest, TextNormalization, TtsModel, Voice};

fn body_of(req: &SpeechRequest) -> String {
    String::from_utf8(serialize_request(req)).unwrap()
}

#[test]
fn minimal_request_serializes_to_text_and_model_only() {
    let req = SpeechRequest::default();
    assert_eq!(body_of(&req), r#"{"text":"","model_id":"eleven_multilingual_v2"}"#);
}

#[test]
fn built_request_carries_exactly_the_set_fields() {
    let b = SpeechClient::new("k".to_string())
        .synthesize()
        .text("Hello".to_string())
        .model(TtsModel::ElevenFlashV25)
        .stability(500)
        .seed(42);
    let body = String::from_utf8(serialize_request(&b.request)).unwrap();
    assert_eq!(
        body,
        r#"{"text":"Hello","model_id":"eleven_flash_v2_5","voice_settings":{"stability":0.5},"seed":42}"#,
    );
}

#[test]
fn every_field_set_appears_in_wire_order() {
    let b = SpeechClient::new("k".to_string())
        .synthesize()
        .text("T".to_string())
        .model(TtsModel::ElevenV3)
        .voice(Voice::Sarah)
        .language_code("en".to_string())
        .stability(100)
        .similarity_boost(200)
        .style(300)
        .use_speaker_boost(true)
        .seed(7)
        .previous_text("p".to_string())
        .next_text("n".to_string())
        .previous_request_ids(vec!["a".to_string(), "b".to_string()])
        .next_request_ids(vec!["c".to_string()])
        .apply_text_normalization(TextNormalization::On)
        .apply_language_text_normalization(false)
        .output_format(AudioFormat::Pcm16000);
    let body = String::from_utf8(serialize_request(&b.request)).unwrap();
    let expected = [
        r#"{"text":"T","model_id":"eleven_v3","language_code":"en","#,
        r#""voice_settings":{"stability":0.1,"similarity_boost":0.2,"style":0.3,"use_speaker_boost":true},"#,
        r#""seed":7,"previous_text":"p","next_text":"n","#,
        r#""previous_request_ids":["a","b"],"next_request_ids":["c"],"#,
        r#""apply_text_normalization":"on","apply_language_text_normalization":false}"#,
    ]
    .join("");
    assert_eq!(body, expected);
}

#[test]
fn voice_and_output_format_stay_off_the_body() {
    let b = SpeechClient::new("k".to_string())
        .synthesize()
        .text("x".to_string())
        .voice(Voice::Fin)
        .output_format(AudioFormat::Pcm44100);
    let body = String::from_utf8(serialize_request(&b.request)).unwrap();
    assert_eq!(body, r#"{"text":"x","model_id":"eleven_multilingual_v2"}"#);
}

#[test]
fn text_is_json_escaped() {
    let mut req = SpeechRequest::default();
    req.text = "say \"hi\"\nback\\slash\ttab".to_string();
    assert_eq!(
        body_of(&req),
        r#"{"text":"say \"hi\"\nback\\slash\ttab","model_id":"eleven_multilingual_v2"}"#,
    );
}

#[test]
fn control_characters_escape_as_hex() {
    let mut req = SpeechRequest::default();
    req.text = "\u{1}".to_string();
    assert_eq!(body_of(&req), r#"{"text":"\u0001","model_id":"eleven_multilingual_v2"}"#);
}

#[test]
fn multibyte_text_passes_through_unescaped() {
    let mut req = SpeechRequest::default();
    req.text = "héllo ☺".to_string();
    assert_eq!(body_of(&req), "{\"text\":\"héllo ☺\",\"model_id\":\"eleven_multilingual_v2\"}");
}

#[test]
fn setting_knobs_render_as_trimmed_decimals() {
    let b = SpeechClient::new("k".to_string())
        .synthesize()
        .text("x".to_string())
        .stability(0)
        .similarity_boost(1000)
        .style(125);
    let body = String::from_utf8(serialize_request(&b.request)).unwrap();
    let expected = [
        r#"{"text":"x","model_id":"eleven_multilingual_v2","#,
        r#""voice_settings":{"stability":0,"similarity_boost":1,"style":0.125}}"#,
    ]
    .join("");
    assert_eq!(body, expected);
}

#[test]
fn small_fractions_keep_leading_zeros() {
    let mut req = SpeechRequest::default();
    req.text = "x".to_string();
    req.voice_settings = Some(eleven_tts::VoiceSettings {
        stability: Some(5),
        similarity_boost: Some(50),
        style: Some(-100),
        use_speaker_boost: None,
    });
    let expected = [
        r#"{"text":"x","model_id":"eleven_multilingual_v2","#,
        r#""voice_settings":{"stability":0.005,"similarity_boost":0.05,"style":-0.1}}"#,
    ]
    .join("");
    assert_eq!(body_of(&req), expected);
}

#[test]
fn empty_request_id_list_serializes_as_empty_array() {
    let mut req = SpeechRequest::default();
    req.text = "x".to_string();
    req.previous_request_ids = Some(Vec::new());
    assert_eq!(
        body_of(&req),
        r#"{"text":"x","model_id":"eleven_multilingual_v2","previous_request_ids":[]}"#,
    );
}

#[test]
fn later_setter_of_same_field_wins() {
    let b = SpeechClient::new("k".to_string())
        .synthesize()
        .text("first".to_string())
        .input("second".to_string());
    let body = String::from_utf8(serialize_request(&b.request)).unwrap();
    assert_eq!(body, r#"{"text":"second","model_id":"eleven_multilingual_v2"}"#);
}

#[test]
fn sub_field_setters_preserve_other_settings() {
    let b = SpeechClient::new("k".to_string())
        .synthesize()
        .text("x".to_string())
        .stability(100)
        .use_speaker_boost(true)
        .stability(900);
    let vs = b.request.voice_settings.unwrap();
    assert_eq!(vs.stability, Some(900));
    assert_eq!(vs.use_speaker_boost, Some(true));
    assert_eq!(vs.similarity_boost, None);
    assert_eq!(vs.style, None);
}

#[test]
fn wire_body_is_valid_json_with_expected_members() {
    let b = SpeechClient::new("k".to_string())
        .synthesize()
        .text("Hello \"world\"".to_string())
        .seed(9)
        .apply_text_normalization(TextNormalization::Auto);
    let bytes = serialize_request(&b.request);
    let v: serde_json::Value = serde_json::from_slice(&bytes).unwrap();
    assert_eq!(v.get("text").unwrap().as_str().unwrap(), "Hello \"world\"");
    assert_eq!(v.get("model_id").unwrap().as_str().unwrap(), "eleven_multilingual_v2");
    assert_eq!(v.get("seed").unwrap().as_u64().unwrap(), 9);
    assert_eq!(v.get("apply_text_normalization").unwrap().as_str().unwrap(), "auto");
    assert!(v.get("language_code").is_none());
    assert!(v.get("voice_settings").is_none());
}

#[test]
fn knob_values_survive_a_json_round_trip() {
    let b = SpeechClient::new("k".to_string())
        .synthesize()
        .text("x".to_string())
        .stability(333)
        .similarity_boost(750);
    let bytes = serialize_request(&b.request);
    let v: serde_json::Value = serde_json::from_slice(&bytes).unwrap();
    let vs = v.get("voice_settings").unwrap();
    assert_eq!(vs.get("stability").unwrap().as_f64().unwrap(), 0.333);
    assert_eq!(vs.get("similarity_boost").unwrap().as_f64().unwrap(), 0.75);
}
