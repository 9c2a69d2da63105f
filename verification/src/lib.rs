//! Client-side core of a speech transcription pipeline.
//!
//! The library resolves and validates an API credential, builds the fixed
//! request that carries an audio clip to the remote recognition service,
//! and turns the service's HTTP response into either a transcript or a
//! classified error. All decision logic is verified; the surrounding I/O
//! (process environment, HTTP transport, application shell) is left to the
//! embedding application, which hands plain values in and out.

pub mod credential;
pub mod error;
pub mod json;
pub mod request;
pub mod response;
pub mod text;
