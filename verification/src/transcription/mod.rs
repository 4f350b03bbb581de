//! Transcription backends. Only the generic HTTP ASR sidecar lives here; its
//! network round trip is made by the daemon.

use vstd::prelude::*;

pub mod asr_sidecar;

verus! {

/// Per-request transcription settings.
#[derive(Debug, Clone)]
pub struct TranscriptionConfig {
    /// Language code, or `auto` to let the model detect it.
    pub language: String,
    /// Model name passed to the backend.
    pub model: String,
    /// Optional vocabulary hint.
    pub prompt: Option<String>,
}

} // verus!
