//! Request and response data types for the speech synthesis API.
//!
//! Voice setting knobs (stability, similarity boost, style) are carried as
//! integer thousandths: the wire value `0.5` is stored as `500`. A value is
//! in range exactly when it lies in `[0, 1000]`.

use vstd::prelude::*;

verus! {

/// Named synthesis engine variants offered by the provider.
#[derive(Clone, Copy, Debug, PartialEq, Eq)]
pub enum TtsModel {
    ElevenV3,
    ElevenMultilingualV2,
    ElevenFlashV25,
    ElevenTurboV25,
}

/// The wire identifier of a model, as the provider expects it.
pub open spec fn model_str(m: TtsModel) -> Seq<char> {
    match m {
        TtsModel::ElevenV3 => "eleven_v3"@,
        TtsModel::ElevenMultilingualV2 => "eleven_multilingual_v2"@,
        TtsModel::ElevenFlashV25 => "eleven_flash_v2_5"@,
        TtsModel::ElevenTurboV25 => "eleven_turbo_v2_5"@,
    }
}

impl TtsModel {
    pub fn as_str(&self) -> (r: &'static str)
        ensures
            r@ == model_str(*self),
    {
        match self {
            TtsModel::ElevenV3 => "eleven_v3",
            TtsModel::ElevenMultilingualV2 => "eleven_multilingual_v2",
            TtsModel::ElevenFlashV25 => "eleven_flash_v2_5",
            TtsModel::ElevenTurboV25 => "eleven_turbo_v2_5",
        }
    }
}

impl Default for TtsModel {
    fn default() -> (r: Self)
        ensures
            r == TtsModel::ElevenMultilingualV2,
    {
        TtsModel::ElevenMultilingualV2
    }
}

/// Named voice presets, each bound to a fixed external speaker identifier.
#[derive(Clone, Copy, Debug, PartialEq, Eq)]
pub enum Voice {
    Rachel,
    Drew,
    Clyde,
    Paul,
    Aria,
    Domi,
    Dave,
    Roger,
    Fin,
    Sarah,
}

/// The opaque external identifier of a voice preset.
pub open spec fn voice_id_str(v: Voice) -> Seq<char> {
    match v {
        Voice::Rachel => "21m00Tcm4TlvDq8ikWAM"@,
        Voice::Drew => "29vD33N1CtxCmqQRPOHJ"@,
        Voice::Clyde => "2EiwWnXFnvU5JabPnv8n"@,
        Voice::Paul => "5Q0t7uMcjvnagumLfvZi"@,
        Voice::Aria => "9BWtsMINqrJLrRacOk9x"@,
        Voice::Domi => "AZnzlk1XvdvUeBnXmlld"@,
        Voice::Dave => "CYw3kZ02Hs0563khs1Fj"@,
        Voice::Roger => "CwhRBWXzGAHq8TQ4Fs17"@,
        Voice::Fin => "D38z5RcWu1voky8WS1ja"@,
        Voice::Sarah => "EXAVITQu4vr4xnSDxMaL"@,
    }
}

impl Voice {
    pub fn as_voice_id(&self) -> (r: &'static str)
        ensures
            r@ == voice_id_str(*self),
    {
        match self {
            Voice::Rachel => "21m00Tcm4TlvDq8ikWAM",
            Voice::Drew => "29vD33N1CtxCmqQRPOHJ",
            Voice::Clyde => "2EiwWnXFnvU5JabPnv8n",
            Voice::Paul => "5Q0t7uMcjvnagumLfvZi",
            Voice::Aria => "9BWtsMINqrJLrRacOk9x",
            Voice::Domi => "AZnzlk1XvdvUeBnXmlld",
            Voice::Dave => "CYw3kZ02Hs0563khs1Fj",
            Voice::Roger => "CwhRBWXzGAHq8TQ4Fs17",
            Voice::Fin => "D38z5RcWu1voky8WS1ja",
            Voice::Sarah => "EXAVITQu4vr4xnSDxMaL",
        }
    }
}

impl Default for Voice {
    fn default() -> (r: Self)
        ensures
            r == Voice::Rachel,
    {
        Voice::Rachel
    }
}

/// Named audio encoding / sample-rate / bitrate combinations.
#[derive(Clone, Copy, Debug, PartialEq, Eq)]
pub enum AudioFormat {
    Mp3_22050_32,
    Mp3_44100_32,
    Mp3_44100_64,
    Mp3_44100_96,
    Mp3_44100_128,
    Mp3_44100_192,
    Pcm16000,
    Pcm22050,
    Pcm24000,
    Pcm44100,
    Ulaw8000,
}

/// The wire name of an audio format, used as the `output_format` query value.
pub open spec fn format_str(f: AudioFormat) -> Seq<char> {
    match f {
        AudioFormat::Mp3_22050_32 => "mp3_22050_32"@,
        AudioFormat::Mp3_44100_32 => "mp3_44100_32"@,
        AudioFormat::Mp3_44100_64 => "mp3_44100_64"@,
        AudioFormat::Mp3_44100_96 => "mp3_44100_96"@,
        AudioFormat::Mp3_44100_128 => "mp3_44100_128"@,
        AudioFormat::Mp3_44100_192 => "mp3_44100_192"@,
        AudioFormat::Pcm16000 => "pcm_16000"@,
        AudioFormat::Pcm22050 => "pcm_22050"@,
        AudioFormat::Pcm24000 => "pcm_24000"@,
        AudioFormat::Pcm44100 => "pcm_44100"@,
        AudioFormat::Ulaw8000 => "ulaw_8000"@,
    }
}

impl AudioFormat {
    pub fn as_str(&self) -> (r: &'static str)
        ensures
            r@ == format_str(*self),
    {
        match self {
            AudioFormat::Mp3_22050_32 => "mp3_22050_32",
            AudioFormat::Mp3_44100_32 => "mp3_44100_32",
            AudioFormat::Mp3_44100_64 => "mp3_44100_64",
            AudioFormat::Mp3_44100_96 => "mp3_44100_96",
            AudioFormat::Mp3_44100_128 => "mp3_44100_128",
            AudioFormat::Mp3_44100_192 => "mp3_44100_192",
            AudioFormat::Pcm16000 => "pcm_16000",
            AudioFormat::Pcm22050 => "pcm_22050",
            AudioFormat::Pcm24000 => "pcm_24000",
            AudioFormat::Pcm44100 => "pcm_44100",
            AudioFormat::Ulaw8000 => "ulaw_8000",
        }
    }
}

impl Default for AudioFormat {
    fn default() -> (r: Self)
        ensures
            r == AudioFormat::Mp3_44100_128,
    {
        AudioFormat::Mp3_44100_128
    }
}

/// Tunable synthesis knobs. The three numeric knobs are thousandths of the
/// provider's `[0.0, 1.0]` scale; validation admits exactly `[0, 1000]`.
#[derive(Clone, Copy, Debug, PartialEq, Eq)]
pub struct VoiceSettings {
    pub stability: Option<i32>,
    pub similarity_boost: Option<i32>,
    pub style: Option<i32>,
    pub use_speaker_boost: Option<bool>,
}

impl Default for VoiceSettings {
    fn default() -> (r: Self)
        ensures
            r.stability is None,
            r.similarity_boost is None,
            r.style is None,
            r.use_speaker_boost is None,
    {
        VoiceSettings {
            stability: None,
            similarity_boost: None,
            style: None,
            use_speaker_boost: None,
        }
    }
}

/// Provider-side text preprocessing mode.
#[derive(Clone, Copy, Debug, PartialEq, Eq)]
pub enum TextNormalization {
    Auto,
    On,
    Off,
}

/// The wire name of a text normalization mode.
pub open spec fn normalization_str(n: TextNormalization) -> Seq<char> {
    match n {
        TextNormalization::Auto => "auto"@,
        TextNormalization::On => "on"@,
        TextNormalization::Off => "off"@,
    }
}

impl TextNormalization {
    pub fn as_str(&self) -> (r: &'static str)
        ensures
            r@ == normalization_str(*self),
    {
        match self {
            TextNormalization::Auto => "auto",
            TextNormalization::On => "on",
            TextNormalization::Off => "off",
        }
    }
}

impl Default for TextNormalization {
    fn default() -> (r: Self)
        ensures
            r == TextNormalization::Auto,
    {
        TextNormalization::Auto
    }
}

/// One fully assembled synthesis request. Immutable once the builder hands
/// it over: it is a plain value, consumed by a single execution.
#[derive(Clone, Debug)]
pub struct SpeechRequest {
    pub text: String,
    pub model: TtsModel,
    pub voice: Voice,
    pub voice_settings: Option<VoiceSettings>,
    pub output_format: Option<AudioFormat>,
    pub language_code: Option<String>,
    pub seed: Option<u32>,
    pub previous_text: Option<String>,
    pub next_text: Option<String>,
    pub previous_request_ids: Option<Vec<String>>,
    pub next_request_ids: Option<Vec<String>>,
    pub apply_text_normalization: Option<TextNormalization>,
    pub apply_language_text_normalization: Option<bool>,
}

/// The default request: empty text, default model and voice, every optional
/// field absent.
pub open spec fn is_default_request(r: SpeechRequest) -> bool {
    &&& r.text@ == Seq::<char>::empty()
    &&& r.model == TtsModel::ElevenMultilingualV2
    &&& r.voice == Voice::Rachel
    &&& r.voice_settings is None
    &&& r.output_format is None
    &&& r.language_code is None
    &&& r.seed is None
    &&& r.previous_text is None
    &&& r.next_text is None
    &&& r.previous_request_ids is None
    &&& r.next_request_ids is None
    &&& r.apply_text_normalization is None
    &&& r.apply_language_text_normalization is None
}

impl Default for SpeechRequest {
    fn default() -> (r: Self)
        ensures
            is_default_request(r),
    {
        SpeechRequest {
            text: String::new(),
            model: TtsModel::ElevenMultilingualV2,
            voice: Voice::Rachel,
            voice_settings: None,
            output_format: None,
            language_code: None,
            seed: None,
            previous_text: None,
            next_text: None,
            previous_request_ids: None,
            next_request_ids: None,
            apply_text_normalization: None,
            apply_language_text_normalization: None,
        }
    }
}

/// A successful synthesis outcome: the raw audio bytes and the format they
/// were produced in.
#[derive(Clone, Debug, PartialEq, Eq)]
pub struct SpeechResponse {
    pub audio_data: Vec<u8>,
    pub format: AudioFormat,
}

/// The provider's structured error envelope: `{ "error": { ... } }`.
#[derive(Clone, Debug, PartialEq, Eq)]
pub struct ApiErrorResponse {
    pub error: ApiErrorDetail,
}

/// The inner member of the provider's error envelope.
#[derive(Clone, Debug, PartialEq, Eq)]
pub struct ApiErrorDetail {
    pub message: String,
    pub error_type: Option<String>,
    pub code: Option<String>,
}

} // verus!
