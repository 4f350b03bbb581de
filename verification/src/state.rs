//! The daemon's lifecycle states, as broadcast to the hook dispatcher.

use vstd::prelude::*;

verus! {

/// What the daemon is doing right now.
#[derive(Debug, Clone, Copy, PartialEq, Eq, Structural)]
pub enum State {
    /// Waiting for a command.
    Idle,
    /// Capturing audio from the microphone.
    Recording,
    /// Turning the captured audio into text.
    Transcribing,
    /// Producing speech for the read-aloud feature.
    Synthesizing,
    /// Playing synthesized speech.
    Speaking,
}

impl State {
    /// The lower-case name shown to users (`whisrs status`).
    pub fn as_str(self) -> (r: &'static str)
        ensures
            r@ == state_name(self),
    {
        match self {
            State::Idle => "idle",
            State::Recording => "recording",
            State::Transcribing => "transcribing",
            State::Synthesizing => "synthesizing",
            State::Speaking => "speaking",
        }
    }
}

/// The user-facing name of each state.
pub open spec fn state_name(s: State) -> Seq<char> {
    match s {
        State::Idle => "idle"@,
        State::Recording => "recording"@,
        State::Transcribing => "transcribing"@,
        State::Synthesizing => "synthesizing"@,
        State::Speaking => "speaking"@,
    }
}

} // verus!
