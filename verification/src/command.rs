//! Commands that a user interface sends to the player.
use crate::path::{characters, clone_path, display};
use std::path::PathBuf;
use crate::media::{MediaTime, TrackId};
use crate::playback_rate::PlaybackRate;
use crate::state::PlaybackState;
use crate::time::{saturated, Duration};
use vstd::prelude::*;

verus! {

/// Identity of a quality or a stream variant.
#[derive(Debug, Clone, PartialEq, Eq, Hash)]
pub struct QualityId(pub String);

impl QualityId {
    /// An identity that is not tied to any service.
    pub fn new(raw_quality_id: String) -> (r: Self)
        ensures
            r.0 == raw_quality_id,
    {
        QualityId(raw_quality_id)
    }

    /// The text of the identity.
    pub fn as_str(&self) -> (r: &str)
        ensures
            r@ == self.0@,
    {
        self.0.as_str()
    }
}

/// The source that is to be opened.
#[derive(Debug, PartialEq, Eq)]
pub enum MediaSource {
    /// A local file.
    LocalFile(PathBuf),
    /// A network address.
    Url(String),
    /// A prepared source with a readable label.
    ExternalLabel(String),
}

impl Clone for MediaSource {
    fn clone(&self) -> (r: Self)
        ensures
            r == *self,
    {
        match self {
            MediaSource::LocalFile(path) => MediaSource::LocalFile(clone_path(path)),
            MediaSource::Url(url) => MediaSource::Url(url.clone()),
            MediaSource::ExternalLabel(label) => MediaSource::ExternalLabel(label.clone()),
        }
    }
}

impl MediaSource {
    /// The label of the source: that by which its path is shown, or the text that it carries.
    pub open spec fn spec_label(self) -> Seq<char> {
        match self {
            MediaSource::LocalFile(path) => characters(path),
            MediaSource::Url(url) => url@,
            MediaSource::ExternalLabel(label) => label@,
        }
    }

    /// A label of the source for displays and events.
    pub fn label(&self) -> (r: String)
        ensures
            r@ == self.spec_label(),
    {
        match self {
            MediaSource::LocalFile(path) => display(path),
            MediaSource::Url(url) => url.clone(),
            MediaSource::ExternalLabel(label) => label.clone(),
        }
    }
}

/// A request to open a source.
#[derive(Debug, Clone, PartialEq, Eq)]
pub struct MediaOpenRequest {
    /// What to open.
    pub source: MediaSource,
    /// Whether playback starts by itself.
    pub autoplay: bool,
}

impl MediaOpenRequest {
    /// A request with an explicit autoplay flag.
    pub fn new(source: MediaSource, autoplay: bool) -> (r: Self)
        ensures
            r == (MediaOpenRequest { source, autoplay }),
    {
        MediaOpenRequest { source, autoplay }
    }
}

/// How exact a seek has to be.
#[derive(Debug, Clone, Copy, PartialEq, Eq, Structural)]
pub enum SeekMode {
    /// Playback continues at the target or later, wherever decoding starts.
    Accurate,
    /// The nearest keyframe before the target.
    KeyframeBefore,
    /// The nearest keyframe after the target.
    KeyframeAfter,
}

impl Default for SeekMode {
    fn default() -> (r: Self)
        ensures
            r is Accurate,
    {
        SeekMode::Accurate
    }
}

/// Where a seek goes.
#[derive(Debug, Clone, Copy, PartialEq, Eq, Structural)]
pub enum SeekTarget {
    /// A position on the timeline.
    Absolute(MediaTime),
    /// A step from the current position.
    Relative(Duration),
}

impl SeekTarget {
    /// The position on the timeline, given the current one.
    pub fn resolve(self, current_position: MediaTime) -> (r: MediaTime)
        ensures
            self matches SeekTarget::Absolute(position) ==> r == position,
            self matches SeekTarget::Relative(delta) ==> r@ == saturated(
                current_position@ + delta@,
            ),
    {
        match self {
            SeekTarget::Absolute(position) => position,
            SeekTarget::Relative(delta) => MediaTime(current_position.0.saturating_add(delta)),
        }
    }
}

/// A request to seek inside the current media.
#[derive(Debug, Clone, Copy, PartialEq, Eq, Structural)]
pub struct SeekRequest {
    /// Where to go.
    pub target: SeekTarget,
    /// How exact to be.
    pub mode: SeekMode,
}

impl SeekRequest {
    /// An exact seek to a distance from the start.
    pub fn accurate(position: Duration) -> (r: Self)
        ensures
            r == (SeekRequest {
                target: SeekTarget::Absolute(MediaTime(position)),
                mode: SeekMode::Accurate,
            }),
    {
        SeekRequest { target: SeekTarget::Absolute(MediaTime(position)), mode: SeekMode::Accurate }
    }

    /// An exact seek to a position on the timeline.
    pub fn absolute(position: MediaTime) -> (r: Self)
        ensures
            r == (SeekRequest {
                target: SeekTarget::Absolute(position),
                mode: SeekMode::Accurate,
            }),
    {
        SeekRequest { target: SeekTarget::Absolute(position), mode: SeekMode::Accurate }
    }

    /// An exact seek by a step forward.
    pub fn relative(delta: Duration) -> (r: Self)
        ensures
            r == (SeekRequest { target: SeekTarget::Relative(delta), mode: SeekMode::Accurate }),
    {
        SeekRequest { target: SeekTarget::Relative(delta), mode: SeekMode::Accurate }
    }
}

/// How a scrub gesture ends.
#[derive(Debug, Clone, Copy, PartialEq, Eq, Structural)]
pub enum ScrubCommitPolicy {
    /// Seek to the last target of the gesture.
    CommitLatestTarget,
    /// Keep the preview that is visible.
    CommitVisiblePreview,
}

impl ScrubCommitPolicy {
    /// The policy for a pointer that is released on the timeline.
    pub fn default_timeline_release() -> (r: Self)
        ensures
            r is CommitVisiblePreview,
    {
        ScrubCommitPolicy::CommitVisiblePreview
    }
}

/// Choice of a stream's quality.
#[derive(Debug, Clone, PartialEq, Eq)]
pub enum QualitySelection {
    /// The player chooses.
    Auto,
    /// A given variant.
    Specific(QualityId),
}

/// Result of a command.
#[derive(Debug, Clone, Copy, PartialEq, Eq, Structural)]
pub enum PlayerCommandOutcome {
    /// The command took effect.
    Applied,
    /// The command is not available now.
    Rejected(PlayerCommandReject),
}

/// Why a command is not available.
#[derive(Debug, Clone, Copy, PartialEq, Eq, Structural)]
pub enum PlayerCommandReject {
    /// The rate changes only while playback runs or is paused.
    PlaybackRateUnavailableForState {
        /// The state that stands against it.
        state: PlaybackState,
    },
    /// The audio path could not prepare the new tempo.
    PlaybackRateAudioTempoUnavailable {
        /// What stands against it.
        reason: PlaybackRateAudioTempoRejectReason,
    },
}

/// Why the audio path keeps its tempo.
#[derive(Debug, Clone, Copy, PartialEq, Eq, Structural)]
pub enum PlaybackRateAudioTempoRejectReason {
    /// The output or its clock is not there.
    AudioOutputUnavailable,
    /// The decoder has not reported a sample format.
    PcmFormatNotReady,
    /// The tempo processor refused.
    BackendRejected,
}

/// A command to the player. Live scrub commands carry the diagnostics `L` of the gesture.
#[derive(Debug, Clone, PartialEq, Eq)]
pub enum PlayerCommand<L> {
    /// Open a source.
    OpenMedia(MediaOpenRequest),
    /// Start or continue.
    Play,
    /// Pause.
    Pause,
    /// Change between playing and paused.
    TogglePlayback,
    /// Seek inside the current media.
    Seek(SeekRequest),
    /// Start a scrub gesture.
    BeginScrub {
        /// Diagnostics of a live gesture.
        live_scrub: Option<L>,
    },
    /// Remember the target of a light scrub.
    UpdateScrub(SeekRequest),
    /// Show a preview of a live scrub.
    PreviewScrub {
        /// Target of the preview.
        request: SeekRequest,
        /// Diagnostics of a live gesture.
        live_scrub: Option<L>,
    },
    /// End a scrub gesture.
    EndScrub {
        /// How the gesture ends.
        policy: ScrubCommitPolicy,
        /// Diagnostics of a live gesture.
        live_scrub: Option<L>,
    },
    /// Stop the current media.
    Stop,
    /// Change the playback rate.
    SetPlaybackRate(PlaybackRate),
    /// Change the volume, by the bit pattern of the single-precision level.
    SetVolume(u32),
    /// Mute, or restore the last audible volume.
    ToggleMute {
        /// Bit pattern of the level to take where none was audible before.
        fallback_volume: u32,
    },
    /// Select a video track.
    SelectVideoTrack(TrackId),
    /// Select an audio track.
    SelectAudioTrack(TrackId),
    /// Select a subtitle track, or none.
    SelectSubtitleTrack(Option<TrackId>),
    /// Select a quality.
    SelectQuality(QualitySelection),
    /// Read the configuration again.
    ReloadConfig,
    /// End the session.
    Shutdown,
}

impl<L> PlayerCommand<L> {
    /// The start of a scrub without diagnostics.
    pub fn begin_scrub() -> (r: Self)
        ensures
            r == (PlayerCommand::BeginScrub { live_scrub: None::<L> }),
    {
        PlayerCommand::BeginScrub { live_scrub: None }
    }

    /// The start of a live scrub with its diagnostics.
    pub fn begin_live_scrub(live_scrub: L) -> (r: Self)
        ensures
            r == (PlayerCommand::BeginScrub { live_scrub: Some(live_scrub) }),
    {
        PlayerCommand::BeginScrub { live_scrub: Some(live_scrub) }
    }

    /// The preview of a scrub without diagnostics.
    pub fn preview_scrub(request: SeekRequest) -> (r: Self)
        ensures
            r == (PlayerCommand::PreviewScrub { request, live_scrub: None::<L> }),
    {
        PlayerCommand::PreviewScrub { request, live_scrub: None }
    }

    /// The preview of a live scrub with its diagnostics.
    pub fn preview_live_scrub(request: SeekRequest, live_scrub: L) -> (r: Self)
        ensures
            r == (PlayerCommand::PreviewScrub { request, live_scrub: Some(live_scrub) }),
    {
        PlayerCommand::PreviewScrub { request, live_scrub: Some(live_scrub) }
    }

    /// The end of a scrub without diagnostics.
    pub fn end_scrub(policy: ScrubCommitPolicy) -> (r: Self)
        ensures
            r == (PlayerCommand::EndScrub { policy, live_scrub: None::<L> }),
    {
        PlayerCommand::EndScrub { policy, live_scrub: None }
    }

    /// The end of a live scrub with its diagnostics.
    pub fn end_live_scrub(policy: ScrubCommitPolicy, live_scrub: L) -> (r: Self)
        ensures
            r == (PlayerCommand::EndScrub { policy, live_scrub: Some(live_scrub) }),
    {
        PlayerCommand::EndScrub { policy, live_scrub: Some(live_scrub) }
    }
}

/// A seek to a position goes there, whatever the current one is; a seek by a step goes on from the
/// current position by it, or to the last position that there is.
pub proof fn law_seek_goes_to_its_target(
    current: MediaTime,
    position: MediaTime,
    step: Duration,
    absolute: SeekRequest,
    relative: SeekRequest,
    there: MediaTime,
    further: MediaTime,
)
    requires
        call_ensures(SeekRequest::absolute, (position,), absolute),
        call_ensures(SeekRequest::relative, (step,), relative),
        call_ensures(SeekTarget::resolve, (absolute.target, current), there),
        call_ensures(SeekTarget::resolve, (relative.target, current), further),
    ensures
        there == position,
        current@ + step@ <= 18_446_744_073_709_551_615_999_999_999 ==> further@ == current@
            + step@,
        current@ + step@ > 18_446_744_073_709_551_615_999_999_999 ==> further@
            == 18_446_744_073_709_551_615_999_999_999,
        absolute.mode is Accurate && relative.mode is Accurate,
{
}

/// A source is labelled by the text that it carries; a file is labelled as its path is shown.
pub proof fn law_source_is_labelled_by_what_it_carries(source: MediaSource, label: String)
    requires
        call_ensures(MediaSource::label, (&source,), label),
    ensures
        source matches MediaSource::Url(url) ==> label@ == url@,
        source matches MediaSource::ExternalLabel(text) ==> label@ == text@,
        source matches MediaSource::LocalFile(path) ==> label@ == characters(path),
{
}

} // verus!
