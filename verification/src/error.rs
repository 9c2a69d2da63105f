//! The error taxonomy of a transcription call, and its surfaced messages.

use vstd::prelude::*;
use vstd::string::*;
use crate::text::{decimal_rep, u16_decimal};

verus! {

/// Why the credential could not be resolved.
#[derive(Clone, Copy, Debug, PartialEq, Eq, Structural)]
pub enum ConfigFault {
    /// The environment variable is not set at all.
    Missing,
    /// The variable is set, but empty or whitespace-only.
    Empty,
}

/// A classified failure of one transcription call.
#[derive(Debug)]
pub enum TranscriptionError {
    /// The credential is missing or unusable; nothing was sent.
    Configuration(ConfigFault),
    /// The request could not be sent or no response arrived; the carried
    /// string is the transport's own description.
    Network(String),
    /// The provider answered with a non-success status; the fields carry the
    /// status code and the response body text.
    Remote(u16, String),
    /// The response body is not valid JSON.
    Parse,
    /// The response is valid JSON but holds no usable transcript.
    NoTranscript,
}

/// The mathematical shadow of [`TranscriptionError`].
pub enum ErrView {
    Configuration(ConfigFault),
    Network(Seq<char>),
    Remote(u16, Seq<char>),
    Parse,
    NoTranscript,
}

impl View for TranscriptionError {
    type V = ErrView;

    open spec fn view(&self) -> ErrView {
        match self {
            TranscriptionError::Configuration(f) => ErrView::Configuration(*f),
            TranscriptionError::Network(m) => ErrView::Network(m@),
            TranscriptionError::Remote(c, b) => ErrView::Remote(*c, b@),
            TranscriptionError::Parse => ErrView::Parse,
            TranscriptionError::NoTranscript => ErrView::NoTranscript,
        }
    }
}

/// A call's outcome, seen at the level of views.
pub open spec fn result_view(r: Result<String, TranscriptionError>) -> Result<
    Seq<char>,
    ErrView,
> {
    match r {
        Ok(s) => Ok(s@),
        Err(e) => Err(e@),
    }
}

/// The message that each failure surfaces to the caller.
pub open spec fn message_view(e: ErrView) -> Seq<char> {
    match e {
        ErrView::Configuration(ConfigFault::Missing) => (
        "Missing DEEPGRAM_API_KEY environment variable. Please create a .env file with: DEEPGRAM_API_KEY=your_key_here")@,
        ErrView::Configuration(ConfigFault::Empty) => (
        "DEEPGRAM_API_KEY is empty. Please set a valid API key in your .env file.")@,
        ErrView::Network(m) => "Request failed: "@ + m,
        ErrView::Remote(c, b) => "Deepgram API error ("@ + decimal_rep(c as nat) + "): "@ + b,
        ErrView::Parse => "Failed to parse JSON: invalid JSON"@,
        ErrView::NoTranscript => "No transcript found in response"@,
    }
}

impl TranscriptionError {
    /// The human-readable description of the failure. The credential itself
    /// never appears in it.
    pub fn message(&self) -> (r: String)
        ensures
            r@ == message_view(self@),
    {
        match self {
            TranscriptionError::Configuration(ConfigFault::Missing) => (
            "Missing DEEPGRAM_API_KEY environment variable. Please create a .env file with: DEEPGRAM_API_KEY=your_key_here").to_owned(),
            TranscriptionError::Configuration(ConfigFault::Empty) => (
            "DEEPGRAM_API_KEY is empty. Please set a valid API key in your .env file.").to_owned(),
            TranscriptionError::Network(m) => {
                let mut s = "Request failed: ".to_owned();
                s.append(m.as_str());
                s
            },
            TranscriptionError::Remote(c, b) => {
                let mut s = "Deepgram API error (".to_owned();
                let code = u16_decimal(*c);
                s.append(code.as_str());
                s.append("): ");
                s.append(b.as_str());
                s
            },
            TranscriptionError::Parse => "Failed to parse JSON: invalid JSON".to_owned(),
            TranscriptionError::NoTranscript => "No transcript found in response".to_owned(),
        }
    }
}

} // verus!
