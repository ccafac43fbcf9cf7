//! The error type shared by every fallible operation of the library.

use vstd::prelude::*;

verus! {

/// Why a synthesis call failed. Every variant carries the structured data a
/// caller needs to branch on the failure programmatically.
///
/// The `InvalidVoiceSettings` value is in thousandths, as the settings are
/// stored (see [`crate::types::VoiceSettings`]).
#[derive(Clone, Debug, PartialEq, Eq)]
pub enum TtsError {
    /// The request text was empty.
    MissingInput,
    /// The request text had more characters than the provider accepts; the
    /// payload is the exact character count.
    InputTooLong(usize),
    /// A numeric voice setting lay outside the accepted range; the payload
    /// names the field and carries the offending value in thousandths.
    InvalidVoiceSettings { field: String, value: i32 },
    /// The client was built with an empty API key.
    MissingApiKey,
    /// The provider answered with a status outside the success range.
    ApiError { status: u16, message: String },
    /// The transport layer failed before a response arrived, or the request
    /// URL did not parse.
    HttpClient(String),
    /// Encoding the request body failed.
    SerializationError(String),
    /// Decoding a response body failed.
    DeserializationError(String),
    /// A seed outside the accepted range was supplied.
    InvalidSeed(u32),
}

} // verus!
