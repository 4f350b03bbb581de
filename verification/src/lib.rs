//! Verified core of whisrs: the recording-hook bookkeeping, MPRIS player
//! selection, init-system control decisions, window-class resolution and the
//! HTTP ASR sidecar request rules.

pub mod text;
pub mod state;
pub mod mpris;
pub mod hooks;
pub mod service;
pub mod window;
pub mod transcription;
pub mod cli;

pub use service::{RestartOutcome, ServiceManager};
pub use state::State;
