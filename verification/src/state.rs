//! Public states of playback.
use vstd::prelude::*;

verus! {

/// State of playback.
#[derive(Debug, Clone, Copy, PartialEq, Eq, Structural)]
pub enum PlaybackState {
    /// No media is open.
    Idle,
    /// Media is being opened.
    Opening,
    /// Media plays.
    Playing,
    /// Media is paused.
    Paused,
    /// Playback was stopped.
    Stopped,
    /// Media has played to its end.
    Ended,
}

/// What happens after a seek.
#[derive(Debug, Clone, Copy, PartialEq, Eq, Structural)]
pub enum PlaybackResumeIntent {
    /// Playback continues.
    Play,
    /// Playback stays paused.
    Pause,
}

} // verus!
