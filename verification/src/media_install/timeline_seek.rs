//! Seeking one exact installed instance.
use super::MediaInstanceId;
use crate::channel::{
    is_attempted, is_awaited_until, receive_until, try_receive, ReceiveUntilError, TryReceiveError,
};
use crate::error::PlayerError;
use crate::media::{MediaTime, TimelineRange};
use vstd::prelude::*;

verus! {

/// Identity of one seek, never zero.
#[derive(Debug, Clone, Copy, PartialEq, Eq, Structural, Hash)]
pub struct TimelineSeekRequestId {
    raw: u64,
}

impl View for TimelineSeekRequestId {
    type V = u64;

    closed spec fn view(&self) -> u64 {
        self.raw
    }
}

impl TimelineSeekRequestId {
    #[verifier::type_invariant]
    pub closed spec fn is_non_zero(self) -> bool {
        self.raw != 0
    }

    /// The identity with the given number.
    pub fn new(value: u64) -> (r: Self)
        requires
            value != 0,
        ensures
            r@ == value,
    {
        TimelineSeekRequestId { raw: value }
    }

    /// The number of the identity.
    pub fn get(self) -> (r: u64)
        ensures
            r == self@,
            r != 0,
    {
        proof {
            use_type_invariant(&self);
        }
        self.raw
    }
}

/// Identities of seeks are equal exactly where their numbers are.
pub proof fn law_seek_id_is_its_number(a: TimelineSeekRequestId, b: TimelineSeekRequestId)
    ensures
        (a == b) <==> (a@ == b@),
{
}

/// Kind of a seek.
#[derive(Debug, Clone, Copy, PartialEq, Eq, Structural)]
pub enum TimelineSeekKind {
    /// To a position inside the range.
    SetPosition,
    /// By a step, which may lead beyond the end.
    Relative,
}

/// A seek of one exact instance.
#[derive(Debug, Clone, Copy, PartialEq, Eq, Structural)]
pub struct ExactTimelineSeekRequest {
    /// The request.
    pub request_id: TimelineSeekRequestId,
    /// The instance.
    pub media_instance_id: MediaInstanceId,
    /// Where to go.
    pub target: MediaTime,
    /// Kind of the seek.
    pub kind: TimelineSeekKind,
}

/// What the owner did.
#[derive(Debug, Clone, PartialEq, Eq)]
pub enum ExactTimelineSeekOutcome {
    /// The position was reached.
    Applied {
        /// The request.
        request_id: TimelineSeekRequestId,
        /// The instance.
        media_instance_id: MediaInstanceId,
        /// The position.
        position: MediaTime,
    },
    /// The position is outside of the range.
    InvalidRange {
        /// The request.
        request_id: TimelineSeekRequestId,
        /// The instance.
        media_instance_id: MediaInstanceId,
    },
    /// The step leads beyond the end.
    BeyondEnd {
        /// The request.
        request_id: TimelineSeekRequestId,
        /// The instance.
        media_instance_id: MediaInstanceId,
    },
    /// The instance is not current.
    StaleInstance {
        /// The request.
        request_id: TimelineSeekRequestId,
        /// The instance.
        media_instance_id: MediaInstanceId,
    },
    /// The media cannot seek.
    NotSeekable {
        /// The request.
        request_id: TimelineSeekRequestId,
        /// The instance.
        media_instance_id: MediaInstanceId,
    },
    /// The position is not available any more.
    Expired {
        /// The request.
        request_id: TimelineSeekRequestId,
        /// The instance.
        media_instance_id: MediaInstanceId,
        /// The position that was asked for.
        requested_position: MediaTime,
        /// The range that is available.
        available_range: Option<TimelineRange>,
    },
    /// The seek failed.
    Failed {
        /// The request.
        request_id: TimelineSeekRequestId,
        /// The instance.
        media_instance_id: MediaInstanceId,
        /// The error.
        error: PlayerError,
    },
}

/// Why no outcome comes.
#[derive(Debug, Clone, Copy, PartialEq, Eq, Structural)]
pub enum ExactTimelineSeekReceiptError {
    /// The deadline passed.
    DeadlineElapsed,
    /// The owner is gone.
    MissingOwnerOutcome,
}

impl ExactTimelineSeekReceiptError {
    /// The text of the error.
    pub open spec fn spec_message(self) -> Seq<char> {
        match self {
            ExactTimelineSeekReceiptError::DeadlineElapsed => "deadline ожидания exact timeline seek outcome истёк"@,
            ExactTimelineSeekReceiptError::MissingOwnerOutcome => "player owner завершился без exact timeline seek outcome"@,
        }
    }

    /// The text of the error.
    pub fn message(&self) -> (r: String)
        ensures
            r@ == self.spec_message(),
    {
        match self {
            ExactTimelineSeekReceiptError::DeadlineElapsed => "deadline ожидания exact timeline seek outcome истёк".to_owned(),
            ExactTimelineSeekReceiptError::MissingOwnerOutcome => "player owner завершился без exact timeline seek outcome".to_owned(),
        }
    }
}

/// Receipt of a seek. That the request was sent is no outcome.
#[derive(Debug)]
pub struct ExactTimelineSeekReceipt {
    /// Identity that the receipt is for.
    pub request_id: TimelineSeekRequestId,
    /// Identity that the receipt is for.
    pub media_instance_id: MediaInstanceId,
    /// Channel of the outcome.
    pub outcome_rx: crossbeam_channel::Receiver<ExactTimelineSeekOutcome>,
}

impl ExactTimelineSeekReceipt {
    /// A receipt whose outcome comes through the channel.
    pub fn new(request_id: TimelineSeekRequestId, media_instance_id: MediaInstanceId, outcome_rx: crossbeam_channel::Receiver<ExactTimelineSeekOutcome>) -> (r: Self)
        ensures
            r == (ExactTimelineSeekReceipt { request_id, media_instance_id, outcome_rx }),
    {
        ExactTimelineSeekReceipt { request_id, media_instance_id, outcome_rx }
    }

    /// Identity that the receipt is for.
    pub fn request_id(&self) -> (r: TimelineSeekRequestId)
        ensures
            r == self.request_id,
    {
        self.request_id
    }

    /// Identity that the receipt is for.
    pub fn media_instance_id(&self) -> (r: MediaInstanceId)
        ensures
            r == self.media_instance_id,
    {
        self.media_instance_id
    }

    /// Takes the outcome without waiting. Whether it is there depends on the owner.
    pub fn try_take_outcome(&self) -> (r: Result<Option<ExactTimelineSeekOutcome>, ExactTimelineSeekReceiptError>)
        ensures
            exists|received: Result<ExactTimelineSeekOutcome, TryReceiveError>| #[trigger]
                is_attempted(self.outcome_rx, received) && r == Self::attempt_outcome(received),
    {
        Self::outcome_of_attempt(try_receive(&self.outcome_rx))
    }

    /// What an attempt to receive means for the receipt.
    pub open spec fn attempt_outcome(received: Result<ExactTimelineSeekOutcome, TryReceiveError>) -> Result<
        Option<ExactTimelineSeekOutcome>,
        ExactTimelineSeekReceiptError,
    > {
        match received {
            Ok(outcome) => Ok::<Option<ExactTimelineSeekOutcome>, ExactTimelineSeekReceiptError>(Some(outcome)),
            Err(TryReceiveError::Empty) => Ok(None),
            Err(TryReceiveError::Disconnected) => Err(ExactTimelineSeekReceiptError::MissingOwnerOutcome),
        }
    }

    /// What an attempt to receive means for the receipt.
    pub fn outcome_of_attempt(received: Result<ExactTimelineSeekOutcome, TryReceiveError>) -> (r: Result<
        Option<ExactTimelineSeekOutcome>,
        ExactTimelineSeekReceiptError,
    >)
        ensures
            r == Self::attempt_outcome(received),
    {
        match received {
            Ok(outcome) => Ok(Some(outcome)),
            Err(TryReceiveError::Empty) => Ok(None),
            Err(TryReceiveError::Disconnected) => Err(ExactTimelineSeekReceiptError::MissingOwnerOutcome),
        }
    }

    /// Waits for the outcome until a deadline. Requests that share a deadline share the
    /// time that is left.
    pub fn wait_for_outcome_until(&self, deadline: std::time::Instant) -> (r: Result<
        ExactTimelineSeekOutcome,
        ExactTimelineSeekReceiptError,
    >)
        ensures
            exists|received: Result<ExactTimelineSeekOutcome, ReceiveUntilError>| #[trigger]
                is_awaited_until(self.outcome_rx, deadline, received) && r == Self::wait_outcome(
                    received,
                ),
    {
        Self::outcome_of_wait(receive_until(&self.outcome_rx, deadline))
    }

    /// What a wait with a deadline means for the receipt.
    pub open spec fn wait_outcome(received: Result<ExactTimelineSeekOutcome, ReceiveUntilError>) -> Result<
        ExactTimelineSeekOutcome,
        ExactTimelineSeekReceiptError,
    > {
        match received {
            Ok(outcome) => Ok::<ExactTimelineSeekOutcome, ExactTimelineSeekReceiptError>(outcome),
            Err(ReceiveUntilError::Timeout) => Err(ExactTimelineSeekReceiptError::DeadlineElapsed),
            Err(ReceiveUntilError::Disconnected) => Err(ExactTimelineSeekReceiptError::MissingOwnerOutcome),
        }
    }

    /// What a wait with a deadline means for the receipt.
    pub fn outcome_of_wait(received: Result<ExactTimelineSeekOutcome, ReceiveUntilError>) -> (r: Result<
        ExactTimelineSeekOutcome,
        ExactTimelineSeekReceiptError,
    >)
        ensures
            r == Self::wait_outcome(received),
    {
        match received {
            Ok(outcome) => Ok(outcome),
            Err(ReceiveUntilError::Timeout) => Err(ExactTimelineSeekReceiptError::DeadlineElapsed),
            Err(ReceiveUntilError::Disconnected) => Err(ExactTimelineSeekReceiptError::MissingOwnerOutcome),
        }
    }
}

/// A seek that waits for its commit.
#[derive(Debug)]
pub struct PendingExactTimelineSeek {
    /// The request.
    pub request: ExactTimelineSeekRequest,
    /// Channel of the outcome.
    pub outcome_tx: crossbeam_channel::Sender<ExactTimelineSeekOutcome>,
}

/// What came through the channel is what the receipt tells, and nothing else: an outcome as it is,
/// and an owner that is gone as an error. What has not come yet is no error.
pub proof fn law_seek_outcome_is_what_came(
    tried: Result<ExactTimelineSeekOutcome, TryReceiveError>,
    taken: Result<Option<ExactTimelineSeekOutcome>, ExactTimelineSeekReceiptError>,
    waited: Result<ExactTimelineSeekOutcome, ReceiveUntilError>,
    came: Result<ExactTimelineSeekOutcome, ExactTimelineSeekReceiptError>,
)
    requires
        call_ensures(ExactTimelineSeekReceipt::outcome_of_attempt, (tried,), taken),
        call_ensures(ExactTimelineSeekReceipt::outcome_of_wait, (waited,), came),
    ensures
        tried is Ok <==> taken is Ok && taken->Ok_0 is Some,
        tried is Ok ==> taken->Ok_0 == Some(tried->Ok_0),
        tried == Err::<ExactTimelineSeekOutcome, TryReceiveError>(TryReceiveError::Empty) <==> taken is Ok && taken->Ok_0
            is None,
        tried == Err::<ExactTimelineSeekOutcome, TryReceiveError>(TryReceiveError::Disconnected) <==> taken is Err,
        taken is Err ==> taken->Err_0 is MissingOwnerOutcome,
        waited is Ok <==> came is Ok,
        waited is Ok ==> came->Ok_0 == waited->Ok_0,
        waited is Err && waited->Err_0 is Timeout <==> came is Err && came->Err_0 is DeadlineElapsed,
        waited is Err && waited->Err_0 is Disconnected <==> came is Err && came->Err_0
            is MissingOwnerOutcome,
{
}

/// A receipt takes its outcome from the channel that it was made with.
pub proof fn law_seek_receipt_listens_to_its_channel(
    request_id: TimelineSeekRequestId,
    media_instance_id: MediaInstanceId,
    channel: crossbeam_channel::Receiver<ExactTimelineSeekOutcome>,
    receipt: ExactTimelineSeekReceipt,
    taken: Result<Option<ExactTimelineSeekOutcome>, ExactTimelineSeekReceiptError>,
    came: Result<ExactTimelineSeekOutcome, ExactTimelineSeekReceiptError>,
    deadline: std::time::Instant,
)
    requires
        call_ensures(ExactTimelineSeekReceipt::new, (request_id, media_instance_id, channel), receipt),
        call_ensures(ExactTimelineSeekReceipt::try_take_outcome, (&receipt,), taken),
        call_ensures(ExactTimelineSeekReceipt::wait_for_outcome_until, (&receipt, deadline), came),
    ensures
        exists|tried: Result<ExactTimelineSeekOutcome, TryReceiveError>| #[trigger]
            is_attempted(channel, tried) && (tried is Ok ==> taken is Ok && taken->Ok_0 == Some(
                tried->Ok_0,
            )) && (tried is Err && tried->Err_0 is Empty ==> taken is Ok && taken->Ok_0 is None) && (
            tried is Err && tried->Err_0 is Disconnected ==> taken is Err),
        exists|waited: Result<ExactTimelineSeekOutcome, ReceiveUntilError>| #[trigger]
            is_awaited_until(channel, deadline, waited) && (waited is Ok <==> came is Ok) && (waited is Ok ==> came->Ok_0
                == waited->Ok_0),
{
}

/// The texts of the errors of a receipt.
pub proof fn law_seek_errors_are_told(error: ExactTimelineSeekReceiptError, text: String)
    requires
        call_ensures(ExactTimelineSeekReceiptError::message, (&error,), text),
    ensures
        error is DeadlineElapsed ==> text@ == "deadline ожидания exact timeline seek outcome истёк"@,
        error is MissingOwnerOutcome ==> text@ == "player owner завершился без exact timeline seek outcome"@,
{
}

} // verus!
