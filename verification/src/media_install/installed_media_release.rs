//! Release of one exact installed instance.
use super::{MediaInstallRequestId, MediaInstanceId};
use crate::channel::{
    is_attempted, is_awaited, receive, try_receive, ReceiveError, TryReceiveError,
};
use crate::error::PlayerError;
use vstd::prelude::*;

verus! {

/// A request to release installed media.
#[derive(Debug, Clone, Copy, PartialEq, Eq, Structural)]
pub struct InstalledMediaRelease {
    /// The request that installed it.
    pub request_id: MediaInstallRequestId,
    /// The instance.
    pub media_instance_id: MediaInstanceId,
}

/// What the owner did.
#[derive(Debug, Clone, PartialEq, Eq)]
pub enum InstalledMediaReleaseOutcome {
    /// The instance was current and is released.
    Applied {
        /// The instance.
        media_instance_id: MediaInstanceId,
    },
    /// The request has installed nothing, or the owner knows it no more.
    Absent,
    /// The instance is not current.
    StaleInstance,
    /// The release failed.
    Failed {
        /// The error.
        error: PlayerError,
    },
}

/// Why no outcome comes.
#[derive(Debug, Clone, Copy, PartialEq, Eq, Structural)]
pub enum InstalledMediaReleaseReceiptError {
    /// The owner is gone.
    MissingOwnerOutcome,
}

impl InstalledMediaReleaseReceiptError {
    /// The text of the error.
    pub open spec fn spec_message(self) -> Seq<char> {
        match self {
            InstalledMediaReleaseReceiptError::MissingOwnerOutcome => "player worker завершился без authoritative installed-media release outcome"@,
        }
    }

    /// The text of the error.
    pub fn message(&self) -> (r: String)
        ensures
            r@ == self.spec_message(),
    {
        match self {
            InstalledMediaReleaseReceiptError::MissingOwnerOutcome => "player worker завершился без authoritative installed-media release outcome".to_owned(),
        }
    }
}

/// Receipt of a release request. That the request was sent is no outcome.
#[derive(Debug)]
pub struct InstalledMediaReleaseReceipt {
    /// Identity that the receipt is for.
    pub request_id: MediaInstallRequestId,
    /// Channel of the outcome.
    pub outcome_rx: crossbeam_channel::Receiver<InstalledMediaReleaseOutcome>,
}

impl InstalledMediaReleaseReceipt {
    /// A receipt whose outcome comes through the channel.
    pub fn new(request_id: MediaInstallRequestId, outcome_rx: crossbeam_channel::Receiver<InstalledMediaReleaseOutcome>) -> (r: Self)
        ensures
            r == (InstalledMediaReleaseReceipt { request_id, outcome_rx }),
    {
        InstalledMediaReleaseReceipt { request_id, outcome_rx }
    }

    /// Identity that the receipt is for.
    pub fn request_id(&self) -> (r: MediaInstallRequestId)
        ensures
            r == self.request_id,
    {
        self.request_id
    }

    /// Takes the outcome without waiting. Whether it is there depends on the owner.
    pub fn try_take_outcome(&self) -> (r: Result<Option<InstalledMediaReleaseOutcome>, InstalledMediaReleaseReceiptError>)
        ensures
            exists|received: Result<InstalledMediaReleaseOutcome, TryReceiveError>| #[trigger]
                is_attempted(self.outcome_rx, received) && r == Self::attempt_outcome(received),
    {
        Self::outcome_of_attempt(try_receive(&self.outcome_rx))
    }

    /// What an attempt to receive means for the receipt.
    pub open spec fn attempt_outcome(received: Result<InstalledMediaReleaseOutcome, TryReceiveError>) -> Result<
        Option<InstalledMediaReleaseOutcome>,
        InstalledMediaReleaseReceiptError,
    > {
        match received {
            Ok(outcome) => Ok::<Option<InstalledMediaReleaseOutcome>, InstalledMediaReleaseReceiptError>(Some(outcome)),
            Err(TryReceiveError::Empty) => Ok(None),
            Err(TryReceiveError::Disconnected) => Err(InstalledMediaReleaseReceiptError::MissingOwnerOutcome),
        }
    }

    /// What an attempt to receive means for the receipt.
    pub fn outcome_of_attempt(received: Result<InstalledMediaReleaseOutcome, TryReceiveError>) -> (r: Result<
        Option<InstalledMediaReleaseOutcome>,
        InstalledMediaReleaseReceiptError,
    >)
        ensures
            r == Self::attempt_outcome(received),
    {
        match received {
            Ok(outcome) => Ok(Some(outcome)),
            Err(TryReceiveError::Empty) => Ok(None),
            Err(TryReceiveError::Disconnected) => Err(InstalledMediaReleaseReceiptError::MissingOwnerOutcome),
        }
    }

    /// Waits for the outcome. It fails only where the owner is gone.
    pub fn wait_for_outcome(&self) -> (r: Result<InstalledMediaReleaseOutcome, InstalledMediaReleaseReceiptError>)
        ensures
            exists|received: Result<InstalledMediaReleaseOutcome, ReceiveError>| #[trigger]
                is_awaited(self.outcome_rx, received) && r == Self::wait_outcome(received),
    {
        Self::outcome_of_wait(receive(&self.outcome_rx))
    }

    /// What a wait means for the receipt.
    pub open spec fn wait_outcome(received: Result<InstalledMediaReleaseOutcome, ReceiveError>) -> Result<
        InstalledMediaReleaseOutcome,
        InstalledMediaReleaseReceiptError,
    > {
        match received {
            Ok(outcome) => Ok::<InstalledMediaReleaseOutcome, InstalledMediaReleaseReceiptError>(outcome),
            Err(_) => Err(InstalledMediaReleaseReceiptError::MissingOwnerOutcome),
        }
    }

    /// What a wait means for the receipt.
    pub fn outcome_of_wait(received: Result<InstalledMediaReleaseOutcome, ReceiveError>) -> (r: Result<
        InstalledMediaReleaseOutcome,
        InstalledMediaReleaseReceiptError,
    >)
        ensures
            r == Self::wait_outcome(received),
    {
        match received {
            Ok(outcome) => Ok(outcome),
            Err(_) => Err(InstalledMediaReleaseReceiptError::MissingOwnerOutcome),
        }
    }
}

/// What came through the channel is what the receipt tells, and nothing else: an outcome as it is,
/// and an owner that is gone as an error. What has not come yet is no error.
pub proof fn law_release_outcome_is_what_came(
    tried: Result<InstalledMediaReleaseOutcome, TryReceiveError>,
    taken: Result<Option<InstalledMediaReleaseOutcome>, InstalledMediaReleaseReceiptError>,
    waited: Result<InstalledMediaReleaseOutcome, ReceiveError>,
    came: Result<InstalledMediaReleaseOutcome, InstalledMediaReleaseReceiptError>,
)
    requires
        call_ensures(InstalledMediaReleaseReceipt::outcome_of_attempt, (tried,), taken),
        call_ensures(InstalledMediaReleaseReceipt::outcome_of_wait, (waited,), came),
    ensures
        tried is Ok <==> taken is Ok && taken->Ok_0 is Some,
        tried is Ok ==> taken->Ok_0 == Some(tried->Ok_0),
        tried == Err::<InstalledMediaReleaseOutcome, TryReceiveError>(TryReceiveError::Empty) <==> taken is Ok && taken->Ok_0
            is None,
        tried == Err::<InstalledMediaReleaseOutcome, TryReceiveError>(TryReceiveError::Disconnected) <==> taken is Err,
        taken is Err ==> taken->Err_0 is MissingOwnerOutcome,
        waited is Ok <==> came is Ok,
        waited is Ok ==> came->Ok_0 == waited->Ok_0,
{
}

/// A receipt takes its outcome from the channel that it was made with.
pub proof fn law_release_receipt_listens_to_its_channel(
    request_id: MediaInstallRequestId,
    channel: crossbeam_channel::Receiver<InstalledMediaReleaseOutcome>,
    receipt: InstalledMediaReleaseReceipt,
    taken: Result<Option<InstalledMediaReleaseOutcome>, InstalledMediaReleaseReceiptError>,
    came: Result<InstalledMediaReleaseOutcome, InstalledMediaReleaseReceiptError>,
)
    requires
        call_ensures(InstalledMediaReleaseReceipt::new, (request_id, channel), receipt),
        call_ensures(InstalledMediaReleaseReceipt::try_take_outcome, (&receipt,), taken),
        call_ensures(InstalledMediaReleaseReceipt::wait_for_outcome, (&receipt,), came),
    ensures
        exists|tried: Result<InstalledMediaReleaseOutcome, TryReceiveError>| #[trigger]
            is_attempted(channel, tried) && (tried is Ok ==> taken is Ok && taken->Ok_0 == Some(
                tried->Ok_0,
            )) && (tried is Err && tried->Err_0 is Empty ==> taken is Ok && taken->Ok_0 is None) && (
            tried is Err && tried->Err_0 is Disconnected ==> taken is Err),
        exists|waited: Result<InstalledMediaReleaseOutcome, ReceiveError>| #[trigger]
            is_awaited(channel, waited) && (waited is Ok <==> came is Ok) && (waited is Ok ==> came->Ok_0
                == waited->Ok_0),
{
}

/// The texts of the errors of a receipt.
pub proof fn law_release_errors_are_told(error: InstalledMediaReleaseReceiptError, text: String)
    requires
        call_ensures(InstalledMediaReleaseReceiptError::message, (&error,), text),
    ensures
        error is MissingOwnerOutcome ==> text@ == "player worker завершился без authoritative installed-media release outcome"@,
{
}

} // verus!
