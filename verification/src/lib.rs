//! A typed client library for a third-party text-to-speech HTTP service.
//!
//! The library builds validated requests through a fluent builder, frames
//! them into their JSON wire form, constructs the target URL, and classifies
//! the transport outcome into a typed success or a typed error. The HTTP
//! transport itself is left to the caller: [`client::SpeechRequestBuilder::prepare`]
//! yields everything a transport needs, and [`client::classify_response`]
//! turns the raw status and body it got back into the typed result.

pub mod client;
pub mod envelope;
pub mod error;
pub mod outside;
pub mod types;
pub mod wire;

pub use client::{classify_response, PreparedRequest, SpeechClient, SpeechRequestBuilder};
pub use error::TtsError;
pub use types::{
    ApiErrorDetail, ApiErrorResponse, AudioFormat, SpeechRequest, SpeechResponse,
    TextNormalization, TtsModel, Voice, VoiceSettings,
};
