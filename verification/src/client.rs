//! The client, the fluent request builder, validation, and response
//! classification.
//!
//! Execution is split at the transport boundary: [`SpeechRequestBuilder::prepare`]
//! validates the request and yields a [`PreparedRequest`] holding everything
//! an HTTP transport needs (URL, headers, body, timeout), and
//! [`classify_response`] turns the status and body the transport got back
//! into the typed result.

use vstd::prelude::*;
use vstd::string::StrSliceExecFns;

use crate::envelope::envelope_of;
use crate::error::TtsError;
use crate::outside::{bytes_to_text, check_url, lossy_text, url_parses};
use crate::types::{AudioFormat, SpeechRequest, SpeechResponse, TextNormalization, TtsModel, Voice, VoiceSettings};
use crate::wire::{build_request_url, request_url_chars, serialize_request, wire_body};

verus! {

/// The longest accepted request text, in characters.
pub const MAX_INPUT_LENGTH: usize = 5000;

/// The smallest accepted voice setting, in thousandths.
pub const MIN_VOICE_SETTING: i32 = 0;

/// The largest accepted voice setting, in thousandths.
pub const MAX_VOICE_SETTING: i32 = 1000;

/// Whether a voice setting knob lies in the accepted range.
pub open spec fn setting_in_range(v: i32) -> bool {
    MIN_VOICE_SETTING <= v <= MAX_VOICE_SETTING
}

/// Whether every present numeric knob lies in the accepted range.
pub open spec fn settings_valid(vs: VoiceSettings) -> bool {
    &&& (vs.stability matches Some(v) ==> setting_in_range(v))
    &&& (vs.similarity_boost matches Some(v) ==> setting_in_range(v))
    &&& (vs.style matches Some(v) ==> setting_in_range(v))
}

/// Whether validation lets a request through: non-empty text of at most
/// `MAX_INPUT_LENGTH` characters, every present knob in range, and a
/// non-empty API key.
pub open spec fn request_accepted(req: SpeechRequest, api_key: Seq<char>) -> bool {
    &&& req.text@.len() > 0
    &&& req.text@.len() <= MAX_INPUT_LENGTH
    &&& (req.voice_settings matches Some(vs) ==> settings_valid(vs))
    &&& api_key.len() > 0
}

/// Whether a set stability knob is out of range.
pub open spec fn bad_stability(req: SpeechRequest) -> bool {
    req.voice_settings matches Some(vs) && vs.stability matches Some(v) && !setting_in_range(v)
}

/// Whether a set similarity-boost knob is out of range.
pub open spec fn bad_similarity(req: SpeechRequest) -> bool {
    req.voice_settings matches Some(vs) && vs.similarity_boost matches Some(v)
        && !setting_in_range(v)
}

/// Whether a set style knob is out of range.
pub open spec fn bad_style(req: SpeechRequest) -> bool {
    req.voice_settings matches Some(vs) && vs.style matches Some(v) && !setting_in_range(v)
}

/// The error that validation signals for a rejected request: the checks run
/// in a fixed order — empty text, text length, stability, similarity boost,
/// style, API key — and the first to fail names the error.
pub open spec fn validation_error_for(req: SpeechRequest, api_key: Seq<char>, e: TtsError) -> bool {
    if req.text@.len() == 0 {
        e == TtsError::MissingInput
    } else if req.text@.len() > MAX_INPUT_LENGTH {
        e matches TtsError::InputTooLong(n) && n == req.text@.len()
    } else if bad_stability(req) {
        e matches TtsError::InvalidVoiceSettings { field, value } && field@ == "stability"@
            && value == req.voice_settings->Some_0.stability->Some_0
    } else if bad_similarity(req) {
        e matches TtsError::InvalidVoiceSettings { field, value } && field@ == "similarity_boost"@
            && value == req.voice_settings->Some_0.similarity_boost->Some_0
    } else if bad_style(req) {
        e matches TtsError::InvalidVoiceSettings { field, value } && field@ == "style"@ && value
            == req.voice_settings->Some_0.style->Some_0
    } else if api_key.len() == 0 {
        e == TtsError::MissingApiKey
    } else {
        false
    }
}

/// Runs the validation checks in order and reports the first failure.
pub fn validate_request(req: &SpeechRequest, api_key: &String) -> (r: Result<(), TtsError>)
    ensures
        r is Ok <==> request_accepted(*req, api_key@),
        r matches Err(e) ==> validation_error_for(*req, api_key@, e),
{
    if req.text.as_str().is_empty() {
        return Err(TtsError::MissingInput);
    }
    let len = req.text.as_str().unicode_len();
    if len > MAX_INPUT_LENGTH {
        return Err(TtsError::InputTooLong(len));
    }
    if let Some(settings) = &req.voice_settings {
        if let Some(v) = settings.stability {
            if v < MIN_VOICE_SETTING || v > MAX_VOICE_SETTING {
                return Err(TtsError::InvalidVoiceSettings { field: "stability".to_owned(), value: v });
            }
        }
        if let Some(v) = settings.similarity_boost {
            if v < MIN_VOICE_SETTING || v > MAX_VOICE_SETTING {
                return Err(TtsError::InvalidVoiceSettings {
                    field: "similarity_boost".to_owned(),
                    value: v,
                });
            }
        }
        if let Some(v) = settings.style {
            if v < MIN_VOICE_SETTING || v > MAX_VOICE_SETTING {
                return Err(TtsError::InvalidVoiceSettings { field: "style".to_owned(), value: v });
            }
        }
    }
    if api_key.as_str().is_empty() {
        return Err(TtsError::MissingApiKey);
    }
    Ok(())
}

/// The format the audio will come back in: the chosen one, or the default
/// MP3 encoding when none was set.
pub open spec fn effective_format(req: SpeechRequest) -> AudioFormat {
    match req.output_format {
        Some(f) => f,
        None => AudioFormat::Mp3_44100_128,
    }
}

/// Everything an HTTP transport needs for one synthesis call: where to
/// POST, what to send, and how long to wait. The response format rides
/// along so the transport's answer can be classified.
#[derive(Clone, Debug)]
pub struct PreparedRequest {
    pub url: String,
    pub api_key: String,
    pub timeout: u64,
    pub body: Vec<u8>,
    pub format: AudioFormat,
}

impl PreparedRequest {
    /// The two request headers: the API key under the provider's header
    /// name, and the JSON content type.
    pub fn headers(&self) -> (h: Vec<(String, String)>)
        ensures
            h@.len() == 2,
            h@[0].0@ == "xi-api-key"@,
            h@[0].1@ == self.api_key@,
            h@[1].0@ == "Content-Type"@,
            h@[1].1@ == "application/json"@,
    {
        let mut h: Vec<(String, String)> = Vec::new();
        h.push(("xi-api-key".to_owned(), self.api_key.clone()));
        h.push(("Content-Type".to_owned(), "application/json".to_owned()));
        h
    }
}

/// What preparing a request guarantees: success exactly when validation
/// passes and the URL parses; the prepared pieces pinned on success; the
/// first failing validation check named on rejection; and the offending URL
/// carried when only the URL was at fault.
pub open spec fn prepare_post(
    c: SpeechClient,
    req: SpeechRequest,
    r: Result<PreparedRequest, TtsError>,
) -> bool {
    let url = request_url_chars(c.base_url@, req.voice, effective_format(req));
    &&& (r is Ok <==> request_accepted(req, c.api_key@) && url_parses(url))
    &&& (r matches Ok(p) ==> p.url@ == url && p.body@ == wire_body(req) && p.api_key@
        == c.api_key@ && p.timeout == c.timeout && p.format == effective_format(req))
    &&& (!request_accepted(req, c.api_key@) ==> (r matches Err(e) && validation_error_for(
        req,
        c.api_key@,
        e,
    )))
    &&& (request_accepted(req, c.api_key@) && !url_parses(url) ==> (r matches Err(e) && e matches
        TtsError::HttpClient(m) && m@ == url))
}

/// A configured client: API key, base URL and timeout, immutable after
/// construction.
pub struct SpeechClient {
    pub api_key: String,
    pub base_url: String,
    pub timeout: u64,
}

impl SpeechClient {
    /// A client for the provider's production endpoint with a one-minute
    /// timeout.
    pub fn new(api_key: String) -> (r: Self)
        ensures
            r.api_key@ == api_key@,
            r.base_url@ == "https://api.elevenlabs.io"@,
            r.timeout == 60000,
    {
        SpeechClient { api_key, base_url: "https://api.elevenlabs.io".to_owned(), timeout: 60000 }
    }

    /// The same client against another base URL.
    pub fn with_base_url(self, base_url: String) -> (r: Self)
        ensures
            r.api_key@ == self.api_key@,
            r.base_url@ == base_url@,
            r.timeout == self.timeout,
    {
        SpeechClient { base_url, ..self }
    }

    /// The same client with another timeout, in milliseconds.
    pub fn with_timeout(self, timeout: u64) -> (r: Self)
        ensures
            r.api_key@ == self.api_key@,
            r.base_url@ == self.base_url@,
            r.timeout == timeout,
    {
        SpeechClient { timeout, ..self }
    }

    /// Starts building a request against this client.
    pub fn synthesize(&self) -> (b: SpeechRequestBuilder)
        ensures
            b.client.api_key@ == self.api_key@,
            b.client.base_url@ == self.base_url@,
            b.client.timeout == self.timeout,
            crate::types::is_default_request(b.request),
    {
        SpeechRequestBuilder {
            client: SpeechClient {
                api_key: self.api_key.clone(),
                base_url: self.base_url.clone(),
                timeout: self.timeout,
            },
            request: SpeechRequest::default(),
        }
    }

    /// Validates a request and assembles everything the transport needs.
    pub fn prepare(&self, request: SpeechRequest) -> (r: Result<PreparedRequest, TtsError>)
        ensures
            prepare_post(*self, request, r),
    {
        match validate_request(&request, &self.api_key) {
            Err(e) => Err(e),
            Ok(()) => {
                let format = match request.output_format {
                    Some(f) => f,
                    None => AudioFormat::Mp3_44100_128,
                };
                let url = build_request_url(&self.base_url, request.voice, format);
                if !check_url(url.as_str()) {
                    return Err(TtsError::HttpClient(url));
                }
                let body = serialize_request(&request);
                Ok(PreparedRequest {
                    url,
                    api_key: self.api_key.clone(),
                    timeout: self.timeout,
                    body,
                    format,
                })
            },
        }
    }
}

/// The empty settings value that a sub-field setter starts from when none
/// was set yet.
pub open spec fn settings_or_empty(o: Option<VoiceSettings>) -> VoiceSettings {
    match o {
        Some(s) => s,
        None => VoiceSettings {
            stability: None,
            similarity_boost: None,
            style: None,
            use_speaker_boost: None,
        },
    }
}

/// A fluent, single-shot request builder. Each setter returns the builder;
/// no setter validates — validation runs when the request is prepared.
pub struct SpeechRequestBuilder {
    pub client: SpeechClient,
    pub request: SpeechRequest,
}

impl SpeechRequestBuilder {
    /// Sets the text to synthesize.
    pub fn text(self, text: String) -> (r: Self)
        ensures
            r.client == self.client,
            r.request == (SpeechRequest { text, ..self.request }),
    {
        let mut b = self;
        b.request.text = text;
        b
    }

    /// Sets the text to synthesize; an alias of [`Self::text`].
    pub fn input(self, text: String) -> (r: Self)
        ensures
            r.client == self.client,
            r.request == (SpeechRequest { text, ..self.request }),
    {
        self.text(text)
    }

    /// Chooses the synthesis model.
    pub fn model(self, model: TtsModel) -> (r: Self)
        ensures
            r.client == self.client,
            r.request == (SpeechRequest { model, ..self.request }),
    {
        let mut b = self;
        b.request.model = model;
        b
    }

    /// Chooses the voice preset.
    pub fn voice(self, voice: Voice) -> (r: Self)
        ensures
            r.client == self.client,
            r.request == (SpeechRequest { voice, ..self.request }),
    {
        let mut b = self;
        b.request.voice = voice;
        b
    }

    /// Replaces the voice settings wholesale.
    pub fn voice_settings(self, settings: VoiceSettings) -> (r: Self)
        ensures
            r.client == self.client,
            r.request == (SpeechRequest { voice_settings: Some(settings), ..self.request }),
    {
        let mut b = self;
        b.request.voice_settings = Some(settings);
        b
    }

    /// Sets the stability knob, in thousandths, keeping the other knobs.
    pub fn stability(self, stability: i32) -> (r: Self)
        ensures
            r.client == self.client,
            r.request == (SpeechRequest {
                voice_settings: Some(
                    (VoiceSettings {
                        stability: Some(stability),
                        ..settings_or_empty(self.request.voice_settings)
                    }),
                ),
                ..self.request
            }),
    {
        let mut b = self;
        let mut settings = match b.request.voice_settings {
            Some(s) => s,
            None => VoiceSettings::default(),
        };
        settings.stability = Some(stability);
        b.request.voice_settings = Some(settings);
        b
    }

    /// Sets the similarity-boost knob, in thousandths, keeping the other
    /// knobs.
    pub fn similarity_boost(self, similarity_boost: i32) -> (r: Self)
        ensures
            r.client == self.client,
            r.request == (SpeechRequest {
                voice_settings: Some(
                    (VoiceSettings {
                        similarity_boost: Some(similarity_boost),
                        ..settings_or_empty(self.request.voice_settings)
                    }),
                ),
                ..self.request
            }),
    {
        let mut b = self;
        let mut settings = match b.request.voice_settings {
            Some(s) => s,
            None => VoiceSettings::default(),
        };
        settings.similarity_boost = Some(similarity_boost);
        b.request.voice_settings = Some(settings);
        b
    }

    /// Sets the style knob, in thousandths, keeping the other knobs.
    pub fn style(self, style: i32) -> (r: Self)
        ensures
            r.client == self.client,
            r.request == (SpeechRequest {
                voice_settings: Some(
                    (VoiceSettings {
                        style: Some(style),
                        ..settings_or_empty(self.request.voice_settings)
                    }),
                ),
                ..self.request
            }),
    {
        let mut b = self;
        let mut settings = match b.request.voice_settings {
            Some(s) => s,
            None => VoiceSettings::default(),
        };
        settings.style = Some(style);
        b.request.voice_settings = Some(settings);
        b
    }

    /// Sets the speaker-boost flag, keeping the other knobs.
    pub fn use_speaker_boost(self, use_speaker_boost: bool) -> (r: Self)
        ensures
            r.client == self.client,
            r.request == (SpeechRequest {
                voice_settings: Some(
                    (VoiceSettings {
                        use_speaker_boost: Some(use_speaker_boost),
                        ..settings_or_empty(self.request.voice_settings)
                    }),
                ),
                ..self.request
            }),
    {
        let mut b = self;
        let mut settings = match b.request.voice_settings {
            Some(s) => s,
            None => VoiceSettings::default(),
        };
        settings.use_speaker_boost = Some(use_speaker_boost);
        b.request.voice_settings = Some(settings);
        b
    }

    /// Chooses the audio output format.
    pub fn output_format(self, format: AudioFormat) -> (r: Self)
        ensures
            r.client == self.client,
            r.request == (SpeechRequest { output_format: Some(format), ..self.request }),
    {
        let mut b = self;
        b.request.output_format = Some(format);
        b
    }

    /// Chooses the audio output format; an alias of [`Self::output_format`].
    pub fn response_format(self, format: AudioFormat) -> (r: Self)
        ensures
            r.client == self.client,
            r.request == (SpeechRequest { output_format: Some(format), ..self.request }),
    {
        self.output_format(format)
    }

    /// Sets the language code.
    pub fn language_code(self, code: String) -> (r: Self)
        ensures
            r.client == self.client,
            r.request == (SpeechRequest { language_code: Some(code), ..self.request }),
    {
        let mut b = self;
        b.request.language_code = Some(code);
        b
    }

    /// Sets the random seed.
    pub fn seed(self, seed: u32) -> (r: Self)
        ensures
            r.client == self.client,
            r.request == (SpeechRequest { seed: Some(seed), ..self.request }),
    {
        let mut b = self;
        b.request.seed = Some(seed);
        b
    }

    /// Sets the text preceding this request, for prosodic continuity.
    pub fn previous_text(self, text: String) -> (r: Self)
        ensures
            r.client == self.client,
            r.request == (SpeechRequest { previous_text: Some(text), ..self.request }),
    {
        let mut b = self;
        b.request.previous_text = Some(text);
        b
    }

    /// Sets the text following this request, for prosodic continuity.
    pub fn next_text(self, text: String) -> (r: Self)
        ensures
            r.client == self.client,
            r.request == (SpeechRequest { next_text: Some(text), ..self.request }),
    {
        let mut b = self;
        b.request.next_text = Some(text);
        b
    }

    /// Links this request to the requests synthesized before it.
    pub fn previous_request_ids(self, ids: Vec<String>) -> (r: Self)
        ensures
            r.client == self.client,
            r.request == (SpeechRequest { previous_request_ids: Some(ids), ..self.request }),
    {
        let mut b = self;
        b.request.previous_request_ids = Some(ids);
        b
    }

    /// Links this request to the requests synthesized after it.
    pub fn next_request_ids(self, ids: Vec<String>) -> (r: Self)
        ensures
            r.client == self.client,
            r.request == (SpeechRequest { next_request_ids: Some(ids), ..self.request }),
    {
        let mut b = self;
        b.request.next_request_ids = Some(ids);
        b
    }

    /// Chooses the text normalization mode.
    pub fn apply_text_normalization(self, mode: TextNormalization) -> (r: Self)
        ensures
            r.client == self.client,
            r.request == (SpeechRequest { apply_text_normalization: Some(mode), ..self.request }),
    {
        let mut b = self;
        b.request.apply_text_normalization = Some(mode);
        b
    }

    /// Switches language-aware text normalization on or off.
    pub fn apply_language_text_normalization(self, enabled: bool) -> (r: Self)
        ensures
            r.client == self.client,
            r.request == (SpeechRequest {
                apply_language_text_normalization: Some(enabled),
                ..self.request
            }),
    {
        let mut b = self;
        b.request.apply_language_text_normalization = Some(enabled);
        b
    }

    /// Consumes the builder: validates the assembled request and yields the
    /// prepared call for the transport.
    pub fn prepare(self) -> (r: Result<PreparedRequest, TtsError>)
        ensures
            prepare_post(self.client, self.request, r),
    {
        self.client.prepare(self.request)
    }
}

/// Whether an HTTP status lies in the success range.
pub open spec fn success_status(status: u16) -> bool {
    200 <= status < 300
}

/// The message an error response carries: the envelope's message when the
/// body is the provider's error envelope, else the whole body as text.
pub open spec fn classify_message(b: Seq<u8>) -> Seq<char> {
    match envelope_of(b) {
        Some(t) => lossy_text(t.0),
        None => lossy_text(b),
    }
}

/// Classifies a transport outcome: a success status wraps the body as audio
/// in the request's format; any other status becomes an API error carrying
/// the status and the decoded message.
pub fn classify_response(status: u16, body: Vec<u8>, format: AudioFormat) -> (r: Result<
    SpeechResponse,
    TtsError,
>)
    ensures
        success_status(status) ==> (r matches Ok(resp) && resp.audio_data@ == body@ && resp.format
            == format),
        !success_status(status) ==> (r matches Err(e) && e matches TtsError::ApiError {
            status: st,
            message,
        } && st == status && message@ == classify_message(body@)),
{
    if 200 <= status && status < 300 {
        Ok(SpeechResponse { audio_data: body, format })
    } else {
        match crate::envelope::parse_error_body(&body) {
            Some(resp) => Err(TtsError::ApiError { status, message: resp.error.message }),
            None => Err(TtsError::ApiError { status, message: bytes_to_text(&body) }),
        }
    }
}

} // verus!

