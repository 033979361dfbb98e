//! Restoring the state of one exact installed instance.
use super::{MediaInstallRequestId, MediaInstanceId};
use crate::channel::{
    is_attempted, is_awaited, receive, try_receive, ReceiveError, TryReceiveError,
};
use crate::error::PlayerError;
use crate::media::{TimelineRange, TrackId};
use crate::time::Duration;
use vstd::prelude::*;

verus! {

/// What to do with a video or audio track.
#[derive(Debug, Clone, Copy, PartialEq, Eq, Structural)]
pub enum InstalledTrackRestore {
    /// Keep what the new media selected.
    KeepDefault,
    /// Select a track.
    Select(TrackId),
}

/// What to do with a subtitle track.
#[derive(Debug, Clone, Copy, PartialEq, Eq, Structural)]
pub enum InstalledSubtitleRestore {
    /// Keep what the new media selected.
    KeepDefault,
    /// Show no subtitles.
    Disabled,
    /// Select a track.
    Select(TrackId),
}

/// What to do with the position.
#[derive(Debug, Clone, Copy, PartialEq, Eq, Structural)]
pub enum InstalledPositionRestore {
    /// Stay at the start.
    KeepStart,
    /// Seek to a position.
    SeekTo(Duration),
    /// Go back to a live position, or to the live edge where it is gone.
    RestoreLiveSameItemPosition {
        /// The position before the switch.
        previous_absolute_position: Duration,
    },
    /// Take the position that was prepared before the commit.
    AdoptPreparedSameLineagePosition,
}

/// Why the live edge was taken.
#[derive(Debug, Clone, Copy, PartialEq, Eq, Structural)]
pub enum InstalledLiveEdgeAdjustmentReason {
    /// The stream cannot be rewound.
    DvrWindowUnavailable,
    /// The position is outside of what is available.
    PreviousPositionOutsideDvr {
        /// The range that is available.
        available_range: TimelineRange,
    },
    /// The timeline moved on since the position was prepared.
    PreparedAnchorUnavailableAfterTimelineAdvance {
        /// The range that is available.
        available_range: TimelineRange,
    },
}

/// What to do with the volume.
#[derive(Debug, Clone, Copy, PartialEq, Eq, Structural)]
pub enum InstalledVolumeRestore {
    /// Keep it.
    KeepCurrent,
    /// Set it, by the bit pattern of the single-precision level.
    SetTo(u32),
}

/// Everything that is restored of an installed instance.
#[derive(Debug, Clone, Copy, PartialEq, Eq, Structural)]
pub struct InstalledMediaStateRestore {
    /// The request that installed it.
    pub request_id: MediaInstallRequestId,
    /// The instance.
    pub media_instance_id: MediaInstanceId,
    /// Video track.
    pub video_track: InstalledTrackRestore,
    /// Audio track.
    pub audio_track: InstalledTrackRestore,
    /// Subtitle track.
    pub subtitle_track: InstalledSubtitleRestore,
    /// Volume.
    pub volume: InstalledVolumeRestore,
    /// Position.
    pub position: InstalledPositionRestore,
}

/// A restore that waits for its seek.
#[derive(Debug)]
pub struct PendingInstalledPositionRestore {
    /// The request that installed the instance.
    pub request_id: MediaInstallRequestId,
    /// The instance.
    pub media_instance_id: MediaInstanceId,
    /// Generation of the seek.
    pub seek_generation: u64,
    /// Whether the prepared position has to stay inside the live range.
    pub requires_live_anchor_retention: bool,
    /// Channel of the outcome.
    pub outcome_tx: crossbeam_channel::Sender<InstalledMediaStateRestoreOutcome>,
}

/// A part of the restore that can fail.
#[derive(Debug, Clone, Copy, PartialEq, Eq, Structural)]
pub enum InstalledMediaRestoreFailureStage {
    /// Video track.
    VideoTrack,
    /// Audio track.
    AudioTrack,
    /// Subtitle track.
    SubtitleTrack,
    /// Volume.
    Volume,
    /// Position.
    Position,
}

/// Why a position is not available.
#[derive(Debug, Clone, Copy, PartialEq, Eq, Structural)]
pub enum InstalledPositionUnavailableReason {
    /// The source cannot seek.
    SourceNotSeekable,
}

/// What the owner did.
#[derive(Debug, Clone, PartialEq, Eq)]
pub enum InstalledMediaStateRestoreOutcome {
    /// Everything was restored.
    Applied {
        /// The instance.
        media_instance_id: MediaInstanceId,
    },
    /// The live edge was taken.
    AdjustedToLiveEdge {
        /// The instance.
        media_instance_id: MediaInstanceId,
        /// The position that was asked for.
        requested_position: Duration,
        /// The live edge.
        live_edge: Duration,
        /// Why it was taken.
        reason: InstalledLiveEdgeAdjustmentReason,
    },
    /// The position is not available.
    PositionUnavailable {
        /// The instance.
        media_instance_id: MediaInstanceId,
        /// The position that was asked for.
        requested_position: Duration,
        /// The position that is there.
        available_position: Duration,
        /// Why.
        reason: InstalledPositionUnavailableReason,
    },
    /// The request is staged and not installed.
    NotInstalledYet,
    /// The request is not known.
    UnknownOrSupersededRequest,
    /// The instance is not current.
    StaleInstance,
    /// A part failed.
    Failed {
        /// The part that failed.
        stage: InstalledMediaRestoreFailureStage,
        /// The error.
        error: PlayerError,
    },
}

/// Why no outcome comes.
#[derive(Debug, Clone, Copy, PartialEq, Eq, Structural)]
pub enum InstalledMediaStateRestoreReceiptError {
    /// The owner is gone.
    MissingOwnerOutcome,
}

impl InstalledMediaStateRestoreReceiptError {
    /// The text of the error.
    pub open spec fn spec_message(self) -> Seq<char> {
        match self {
            InstalledMediaStateRestoreReceiptError::MissingOwnerOutcome => "player owner завершился без installed media restore outcome"@,
        }
    }

    /// The text of the error.
    pub fn message(&self) -> (r: String)
        ensures
            r@ == self.spec_message(),
    {
        match self {
            InstalledMediaStateRestoreReceiptError::MissingOwnerOutcome => "player owner завершился без installed media restore outcome".to_owned(),
        }
    }
}

/// Receipt of a restore request. That the request was sent is no outcome.
#[derive(Debug)]
pub struct InstalledMediaStateRestoreReceipt {
    /// Identity that the receipt is for.
    pub request_id: MediaInstallRequestId,
    /// Channel of the outcome.
    pub outcome_rx: crossbeam_channel::Receiver<InstalledMediaStateRestoreOutcome>,
}

impl InstalledMediaStateRestoreReceipt {
    /// A receipt whose outcome comes through the channel.
    pub fn new(request_id: MediaInstallRequestId, outcome_rx: crossbeam_channel::Receiver<InstalledMediaStateRestoreOutcome>) -> (r: Self)
        ensures
            r == (InstalledMediaStateRestoreReceipt { request_id, outcome_rx }),
    {
        InstalledMediaStateRestoreReceipt { request_id, outcome_rx }
    }

    /// Identity that the receipt is for.
    pub fn request_id(&self) -> (r: MediaInstallRequestId)
        ensures
            r == self.request_id,
    {
        self.request_id
    }

    /// Takes the outcome without waiting. Whether it is there depends on the owner.
    pub fn try_take_outcome(&self) -> (r: Result<Option<InstalledMediaStateRestoreOutcome>, InstalledMediaStateRestoreReceiptError>)
        ensures
            exists|received: Result<InstalledMediaStateRestoreOutcome, TryReceiveError>| #[trigger]
                is_attempted(self.outcome_rx, received) && r == Self::attempt_outcome(received),
    {
        Self::outcome_of_attempt(try_receive(&self.outcome_rx))
    }

    /// What an attempt to receive means for the receipt.
    pub open spec fn attempt_outcome(received: Result<InstalledMediaStateRestoreOutcome, TryReceiveError>) -> Result<
        Option<InstalledMediaStateRestoreOutcome>,
        InstalledMediaStateRestoreReceiptError,
    > {
        match received {
            Ok(outcome) => Ok::<Option<InstalledMediaStateRestoreOutcome>, InstalledMediaStateRestoreReceiptError>(Some(outcome)),
            Err(TryReceiveError::Empty) => Ok(None),
            Err(TryReceiveError::Disconnected) => Err(InstalledMediaStateRestoreReceiptError::MissingOwnerOutcome),
        }
    }

    /// What an attempt to receive means for the receipt.
    pub fn outcome_of_attempt(received: Result<InstalledMediaStateRestoreOutcome, TryReceiveError>) -> (r: Result<
        Option<InstalledMediaStateRestoreOutcome>,
        InstalledMediaStateRestoreReceiptError,
    >)
        ensures
            r == Self::attempt_outcome(received),
    {
        match received {
            Ok(outcome) => Ok(Some(outcome)),
            Err(TryReceiveError::Empty) => Ok(None),
            Err(TryReceiveError::Disconnected) => Err(InstalledMediaStateRestoreReceiptError::MissingOwnerOutcome),
        }
    }

    /// Waits for the outcome. It fails only where the owner is gone.
    pub fn wait_for_outcome(&self) -> (r: Result<InstalledMediaStateRestoreOutcome, InstalledMediaStateRestoreReceiptError>)
        ensures
            exists|received: Result<InstalledMediaStateRestoreOutcome, ReceiveError>| #[trigger]
                is_awaited(self.outcome_rx, received) && r == Self::wait_outcome(received),
    {
        Self::outcome_of_wait(receive(&self.outcome_rx))
    }

    /// What a wait means for the receipt.
    pub open spec fn wait_outcome(received: Result<InstalledMediaStateRestoreOutcome, ReceiveError>) -> Result<
        InstalledMediaStateRestoreOutcome,
        InstalledMediaStateRestoreReceiptError,
    > {
        match received {
            Ok(outcome) => Ok::<InstalledMediaStateRestoreOutcome, InstalledMediaStateRestoreReceiptError>(outcome),
            Err(_) => Err(InstalledMediaStateRestoreReceiptError::MissingOwnerOutcome),
        }
    }

    /// What a wait means for the receipt.
    pub fn outcome_of_wait(received: Result<InstalledMediaStateRestoreOutcome, ReceiveError>) -> (r: Result<
        InstalledMediaStateRestoreOutcome,
        InstalledMediaStateRestoreReceiptError,
    >)
        ensures
            r == Self::wait_outcome(received),
    {
        match received {
            Ok(outcome) => Ok(outcome),
            Err(_) => Err(InstalledMediaStateRestoreReceiptError::MissingOwnerOutcome),
        }
    }
}

/// How a request and an instance match what is installed.
#[derive(Debug, Clone, Copy, PartialEq, Eq, Structural)]
pub enum InstalledMediaTargetMatch {
    /// Both match.
    Matching,
    /// The request is staged and not installed.
    NotInstalledYet,
    /// The request is not known.
    UnknownOrSupersededRequest,
    /// The instance is not current.
    StaleInstance,
}

/// What came through the channel is what the receipt tells, and nothing else: an outcome as it is,
/// and an owner that is gone as an error. What has not come yet is no error.
pub proof fn law_restore_outcome_is_what_came(
    tried: Result<InstalledMediaStateRestoreOutcome, TryReceiveError>,
    taken: Result<Option<InstalledMediaStateRestoreOutcome>, InstalledMediaStateRestoreReceiptError>,
    waited: Result<InstalledMediaStateRestoreOutcome, ReceiveError>,
    came: Result<InstalledMediaStateRestoreOutcome, InstalledMediaStateRestoreReceiptError>,
)
    requires
        call_ensures(InstalledMediaStateRestoreReceipt::outcome_of_attempt, (tried,), taken),
        call_ensures(InstalledMediaStateRestoreReceipt::outcome_of_wait, (waited,), came),
    ensures
        tried is Ok <==> taken is Ok && taken->Ok_0 is Some,
        tried is Ok ==> taken->Ok_0 == Some(tried->Ok_0),
        tried == Err::<InstalledMediaStateRestoreOutcome, TryReceiveError>(TryReceiveError::Empty) <==> taken is Ok && taken->Ok_0
            is None,
        tried == Err::<InstalledMediaStateRestoreOutcome, TryReceiveError>(TryReceiveError::Disconnected) <==> taken is Err,
        taken is Err ==> taken->Err_0 is MissingOwnerOutcome,
        waited is Ok <==> came is Ok,
        waited is Ok ==> came->Ok_0 == waited->Ok_0,
{
}

/// A receipt takes its outcome from the channel that it was made with.
pub proof fn law_restore_receipt_listens_to_its_channel(
    request_id: MediaInstallRequestId,
    channel: crossbeam_channel::Receiver<InstalledMediaStateRestoreOutcome>,
    receipt: InstalledMediaStateRestoreReceipt,
    taken: Result<Option<InstalledMediaStateRestoreOutcome>, InstalledMediaStateRestoreReceiptError>,
    came: Result<InstalledMediaStateRestoreOutcome, InstalledMediaStateRestoreReceiptError>,
)
    requires
        call_ensures(InstalledMediaStateRestoreReceipt::new, (request_id, channel), receipt),
        call_ensures(InstalledMediaStateRestoreReceipt::try_take_outcome, (&receipt,), taken),
        call_ensures(InstalledMediaStateRestoreReceipt::wait_for_outcome, (&receipt,), came),
    ensures
        exists|tried: Result<InstalledMediaStateRestoreOutcome, TryReceiveError>| #[trigger]
            is_attempted(channel, tried) && (tried is Ok ==> taken is Ok && taken->Ok_0 == Some(
                tried->Ok_0,
            )) && (tried is Err && tried->Err_0 is Empty ==> taken is Ok && taken->Ok_0 is None) && (
            tried is Err && tried->Err_0 is Disconnected ==> taken is Err),
        exists|waited: Result<InstalledMediaStateRestoreOutcome, ReceiveError>| #[trigger]
            is_awaited(channel, waited) && (waited is Ok <==> came is Ok) && (waited is Ok ==> came->Ok_0
                == waited->Ok_0),
{
}

/// The texts of the errors of a receipt.
pub proof fn law_restore_errors_are_told(error: InstalledMediaStateRestoreReceiptError, text: String)
    requires
        call_ensures(InstalledMediaStateRestoreReceiptError::message, (&error,), text),
    ensures
        error is MissingOwnerOutcome ==> text@ == "player owner завершился без installed media restore outcome"@,
{
}

} // verus!
