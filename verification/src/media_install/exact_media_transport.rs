//! Transport of one exact installed instance.
use super::playback_intent::PlaybackIntent;
use super::MediaInstanceId;
use crate::channel::{
    is_attempted, is_awaited, receive, try_receive, ReceiveError, TryReceiveError,
};
use crate::error::PlayerError;
use vstd::prelude::*;

verus! {

/// What to do with installed media.
#[derive(Debug, Clone, Copy, PartialEq, Eq, Structural)]
pub enum ExactMediaTransportAction {
    /// Play or pause where it is.
    SetPlaybackIntent {
        /// Play or pause.
        intent: PlaybackIntent,
    },
    /// Go to the start, then play or pause.
    RestartFromBeginning {
        /// Play or pause.
        intent: PlaybackIntent,
    },
    /// Pause, then go to the start; the media stays installed.
    NeutralStop,
}

/// A request for one exact instance.
#[derive(Debug, Clone, Copy, PartialEq, Eq, Structural)]
pub struct ExactMediaTransportRequest {
    /// The instance.
    pub media_instance_id: MediaInstanceId,
    /// What to do.
    pub action: ExactMediaTransportAction,
}

/// A step that can fail.
#[derive(Debug, Clone, Copy, PartialEq, Eq, Structural)]
pub enum ExactMediaTransportFailureStage {
    /// Pausing.
    Pause,
    /// Going to the start.
    SeekToBeginning,
    /// Playing.
    Play,
}

/// What the owner did.
#[derive(Debug, Clone, PartialEq, Eq)]
pub enum ExactMediaTransportOutcome {
    /// Everything was done.
    Applied {
        /// The instance.
        media_instance_id: MediaInstanceId,
    },
    /// The instance is not current.
    StaleInstance {
        /// The instance that was asked for.
        requested_media_instance_id: MediaInstanceId,
        /// The current instance.
        current_media_instance_id: Option<MediaInstanceId>,
    },
    /// Nothing was done.
    Failed {
        /// The instance.
        media_instance_id: MediaInstanceId,
        /// The step that failed.
        stage: ExactMediaTransportFailureStage,
        /// The error.
        error: PlayerError,
    },
    /// A step was done, and the next one failed.
    PartiallyApplied {
        /// The instance.
        media_instance_id: MediaInstanceId,
        /// The step that was done.
        completed_stage: ExactMediaTransportFailureStage,
        /// The step that failed.
        failed_stage: ExactMediaTransportFailureStage,
        /// The error.
        error: PlayerError,
    },
}

/// Why no outcome comes.
#[derive(Debug, Clone, Copy, PartialEq, Eq, Structural)]
pub enum ExactMediaTransportReceiptError {
    /// The owner is gone.
    MissingOwnerOutcome,
}

impl ExactMediaTransportReceiptError {
    /// The text of the error.
    pub open spec fn spec_message(self) -> Seq<char> {
        match self {
            ExactMediaTransportReceiptError::MissingOwnerOutcome => "player owner завершился без exact media transport outcome"@,
        }
    }

    /// The text of the error.
    pub fn message(&self) -> (r: String)
        ensures
            r@ == self.spec_message(),
    {
        match self {
            ExactMediaTransportReceiptError::MissingOwnerOutcome => "player owner завершился без exact media transport outcome".to_owned(),
        }
    }
}

/// Receipt of a transport request. That the request was sent is no outcome.
#[derive(Debug)]
pub struct ExactMediaTransportReceipt {
    /// Identity that the receipt is for.
    pub media_instance_id: MediaInstanceId,
    /// Channel of the outcome.
    pub outcome_rx: crossbeam_channel::Receiver<ExactMediaTransportOutcome>,
}

impl ExactMediaTransportReceipt {
    /// A receipt whose outcome comes through the channel.
    pub fn new(media_instance_id: MediaInstanceId, outcome_rx: crossbeam_channel::Receiver<ExactMediaTransportOutcome>) -> (r: Self)
        ensures
            r == (ExactMediaTransportReceipt { media_instance_id, outcome_rx }),
    {
        ExactMediaTransportReceipt { media_instance_id, outcome_rx }
    }

    /// Identity that the receipt is for.
    pub fn media_instance_id(&self) -> (r: MediaInstanceId)
        ensures
            r == self.media_instance_id,
    {
        self.media_instance_id
    }

    /// Takes the outcome without waiting. Whether it is there depends on the owner.
    pub fn try_take_outcome(&self) -> (r: Result<Option<ExactMediaTransportOutcome>, ExactMediaTransportReceiptError>)
        ensures
            exists|received: Result<ExactMediaTransportOutcome, TryReceiveError>| #[trigger]
                is_attempted(self.outcome_rx, received) && r == Self::attempt_outcome(received),
    {
        Self::outcome_of_attempt(try_receive(&self.outcome_rx))
    }

    /// What an attempt to receive means for the receipt.
    pub open spec fn attempt_outcome(received: Result<ExactMediaTransportOutcome, TryReceiveError>) -> Result<
        Option<ExactMediaTransportOutcome>,
        ExactMediaTransportReceiptError,
    > {
        match received {
            Ok(outcome) => Ok::<Option<ExactMediaTransportOutcome>, ExactMediaTransportReceiptError>(Some(outcome)),
            Err(TryReceiveError::Empty) => Ok(None),
            Err(TryReceiveError::Disconnected) => Err(ExactMediaTransportReceiptError::MissingOwnerOutcome),
        }
    }

    /// What an attempt to receive means for the receipt.
    pub fn outcome_of_attempt(received: Result<ExactMediaTransportOutcome, TryReceiveError>) -> (r: Result<
        Option<ExactMediaTransportOutcome>,
        ExactMediaTransportReceiptError,
    >)
        ensures
            r == Self::attempt_outcome(received),
    {
        match received {
            Ok(outcome) => Ok(Some(outcome)),
            Err(TryReceiveError::Empty) => Ok(None),
            Err(TryReceiveError::Disconnected) => Err(ExactMediaTransportReceiptError::MissingOwnerOutcome),
        }
    }

    /// Waits for the outcome. It fails only where the owner is gone.
    pub fn wait_for_outcome(&self) -> (r: Result<ExactMediaTransportOutcome, ExactMediaTransportReceiptError>)
        ensures
            exists|received: Result<ExactMediaTransportOutcome, ReceiveError>| #[trigger]
                is_awaited(self.outcome_rx, received) && r == Self::wait_outcome(received),
    {
        Self::outcome_of_wait(receive(&self.outcome_rx))
    }

    /// What a wait means for the receipt.
    pub open spec fn wait_outcome(received: Result<ExactMediaTransportOutcome, ReceiveError>) -> Result<
        ExactMediaTransportOutcome,
        ExactMediaTransportReceiptError,
    > {
        match received {
            Ok(outcome) => Ok::<ExactMediaTransportOutcome, ExactMediaTransportReceiptError>(outcome),
            Err(_) => Err(ExactMediaTransportReceiptError::MissingOwnerOutcome),
        }
    }

    /// What a wait means for the receipt.
    pub fn outcome_of_wait(received: Result<ExactMediaTransportOutcome, ReceiveError>) -> (r: Result<
        ExactMediaTransportOutcome,
        ExactMediaTransportReceiptError,
    >)
        ensures
            r == Self::wait_outcome(received),
    {
        match received {
            Ok(outcome) => Ok(outcome),
            Err(_) => Err(ExactMediaTransportReceiptError::MissingOwnerOutcome),
        }
    }
}

/// What came through the channel is what the receipt tells, and nothing else: an outcome as it is,
/// and an owner that is gone as an error. What has not come yet is no error.
pub proof fn law_transport_outcome_is_what_came(
    tried: Result<ExactMediaTransportOutcome, TryReceiveError>,
    taken: Result<Option<ExactMediaTransportOutcome>, ExactMediaTransportReceiptError>,
    waited: Result<ExactMediaTransportOutcome, ReceiveError>,
    came: Result<ExactMediaTransportOutcome, ExactMediaTransportReceiptError>,
)
    requires
        call_ensures(ExactMediaTransportReceipt::outcome_of_attempt, (tried,), taken),
        call_ensures(ExactMediaTransportReceipt::outcome_of_wait, (waited,), came),
    ensures
        tried is Ok <==> taken is Ok && taken->Ok_0 is Some,
        tried is Ok ==> taken->Ok_0 == Some(tried->Ok_0),
        tried == Err::<ExactMediaTransportOutcome, TryReceiveError>(TryReceiveError::Empty) <==> taken is Ok && taken->Ok_0
            is None,
        tried == Err::<ExactMediaTransportOutcome, TryReceiveError>(TryReceiveError::Disconnected) <==> taken is Err,
        taken is Err ==> taken->Err_0 is MissingOwnerOutcome,
        waited is Ok <==> came is Ok,
        waited is Ok ==> came->Ok_0 == waited->Ok_0,
{
}

/// A receipt takes its outcome from the channel that it was made with.
pub proof fn law_transport_receipt_listens_to_its_channel(
    media_instance_id: MediaInstanceId,
    channel: crossbeam_channel::Receiver<ExactMediaTransportOutcome>,
    receipt: ExactMediaTransportReceipt,
    taken: Result<Option<ExactMediaTransportOutcome>, ExactMediaTransportReceiptError>,
    came: Result<ExactMediaTransportOutcome, ExactMediaTransportReceiptError>,
)
    requires
        call_ensures(ExactMediaTransportReceipt::new, (media_instance_id, channel), receipt),
        call_ensures(ExactMediaTransportReceipt::try_take_outcome, (&receipt,), taken),
        call_ensures(ExactMediaTransportReceipt::wait_for_outcome, (&receipt,), came),
    ensures
        exists|tried: Result<ExactMediaTransportOutcome, TryReceiveError>| #[trigger]
            is_attempted(channel, tried) && (tried is Ok ==> taken is Ok && taken->Ok_0 == Some(
                tried->Ok_0,
            )) && (tried is Err && tried->Err_0 is Empty ==> taken is Ok && taken->Ok_0 is None) && (
            tried is Err && tried->Err_0 is Disconnected ==> taken is Err),
        exists|waited: Result<ExactMediaTransportOutcome, ReceiveError>| #[trigger]
            is_awaited(channel, waited) && (waited is Ok <==> came is Ok) && (waited is Ok ==> came->Ok_0
                == waited->Ok_0),
{
}

/// The texts of the errors of a receipt.
pub proof fn law_transport_errors_are_told(error: ExactMediaTransportReceiptError, text: String)
    requires
        call_ensures(ExactMediaTransportReceiptError::message, (&error,), text),
    ensures
        error is MissingOwnerOutcome ==> text@ == "player owner завершился без exact media transport outcome"@,
{
}

} // verus!
