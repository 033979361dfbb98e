//! Events that the player hands to its shell.
use crate::command::{MediaOpenRequest, QualitySelection, ScrubCommitPolicy, SeekRequest};
use crate::error::PlayerError;
use crate::media::TrackId;
use crate::state::{PlaybackResumeIntent, PlaybackState};
use crate::time::Duration;
use vstd::prelude::*;

verus! {

/// What is known of opened media.
#[derive(Debug, Clone, PartialEq, Eq)]
pub struct MediaSummary {
    /// Title.
    pub title: Option<String>,
    /// Label of the source.
    pub source_label: String,
    /// Length.
    pub duration: Option<Duration>,
}

/// A frame that is ready to be shown.
#[derive(Debug, Clone, Copy, PartialEq, Eq, Structural)]
pub struct FramePresentationInfo {
    /// Handle of the frame at the render boundary.
    pub handle: u64,
    /// Timestamp.
    pub pts: Duration,
    /// Number of the frame in the session.
    pub sequence_number: u64,
}

/// Whether playback waits for data.
#[derive(Debug, Clone, PartialEq, Eq)]
pub struct BufferingState {
    /// Whether it waits now.
    pub active: bool,
    /// Why.
    pub reason: Option<String>,
}

/// The target frame of a seek that is now shown.
#[derive(Debug, Clone, Copy, PartialEq, Eq, Structural)]
pub struct SeekTargetFramePresentation {
    /// Target of the seek.
    pub target_position: Duration,
    /// Timestamp of the frame.
    pub frame_pts: Duration,
}

/// A seek that is complete.
#[derive(Debug, Clone, Copy, PartialEq, Eq, Structural)]
pub struct SeekCommitInfo {
    /// Target of the seek.
    pub target_position: Duration,
    /// Position that the container landed on.
    pub actual_position: Duration,
    /// What happens next.
    pub resume_intent: PlaybackResumeIntent,
}

/// Audio that runs again after a seek.
#[derive(Debug, Clone, Copy, PartialEq, Eq, Structural)]
pub struct SeekAudioResumeInfo {
    /// Target of the seek.
    pub target_position: Duration,
}

/// Where the position of a released scrub comes from.
#[derive(Debug, Clone, Copy, PartialEq, Eq, Structural)]
pub enum ScrubReleaseCommitSource {
    /// The preview that was shown.
    VisiblePreview,
    /// The last target of the pointer.
    LatestTarget,
    /// A preview that became the final seek.
    PromotedPreview,
}

/// How a scrub was released.
#[derive(Debug, Clone, Copy, PartialEq, Eq, Structural)]
pub struct ScrubReleaseCommitInfo {
    /// Policy of the release.
    pub release_policy: ScrubCommitPolicy,
    /// Where the position comes from.
    pub committed_from: ScrubReleaseCommitSource,
    /// Position that was kept.
    pub committed_position: Duration,
    /// Last target of the pointer.
    pub latest_target: Duration,
}

/// What the system can do.
#[derive(Debug, Clone, PartialEq, Eq)]
pub struct CapabilitySummary {
    /// Text for displays and logs.
    pub summary: String,
}

/// An event of the player.
#[derive(Debug, Clone, PartialEq, Eq)]
pub enum PlayerEvent {
    /// A request to open media was accepted.
    MediaOpenRequested(MediaOpenRequest),
    /// Media is open.
    MediaOpened(MediaSummary),
    /// The state changed.
    PlaybackStateChanged(PlaybackState),
    /// The position changed.
    PositionChanged(Duration),
    /// A seek was accepted.
    SeekRequested(SeekRequest),
    /// The target frame is shown.
    SeekTargetFramePresented(SeekTargetFramePresentation),
    /// A seek is complete.
    SeekCommitted(SeekCommitInfo),
    /// Audio runs again.
    AudioResumedAfterSeek(SeekAudioResumeInfo),
    /// A scrub was released.
    ScrubReleaseCommitted(ScrubReleaseCommitInfo),
    /// A frame is ready.
    VideoFrameReady(FramePresentationInfo),
    /// Waiting for data began or ended.
    BufferingStateChanged(BufferingState),
    /// The system was probed.
    CapabilityScanCompleted(CapabilitySummary),
    /// A video track was selected.
    VideoTrackSelected(TrackId),
    /// An audio track was selected.
    AudioTrackSelected(TrackId),
    /// A subtitle track was selected, or none.
    SubtitleTrackSelected(Option<TrackId>),
    /// A quality was selected.
    QualitySelectionChanged(QualitySelection),
    /// The configuration has to be read again.
    ConfigReloadRequested,
    /// The session ends.
    ShutdownRequested,
    /// An error after which the player goes on.
    RecoverableError(PlayerError),
    /// An error that ends the media or the session.
    FatalError(PlayerError),
}

} // verus!
