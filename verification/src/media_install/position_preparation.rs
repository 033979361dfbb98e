//! Preparing the position of media that continues another instance.
use super::{
    MediaInstallPhase, MediaInstallPhaseCompletionPort, MediaInstallProtocol,
    MediaInstallRequestId, MediaInstallSignalSlots, MediaInstanceId,
};
use vstd::prelude::*;

verus! {

/// Whether the position has to be prepared before the commit.
#[derive(Debug, Clone, Copy, PartialEq, Eq, Structural)]
pub enum MediaInstallPositionPreparation {
    /// The request is ready to commit without it.
    NotRequired,
    /// The candidate continues an instance and has to confirm its position.
    SameLineage {
        /// The instance that has to be active until the commit.
        expected_old_media_instance_id: MediaInstanceId,
    },
}

/// Command to prepare the position of one request.
#[derive(Debug, Clone, Copy, PartialEq, Eq, Structural)]
pub struct PrepareMediaInstallPosition {
    /// The request.
    pub request_id: MediaInstallRequestId,
}

/// Phase of a request.
#[derive(Debug, Clone, Copy, PartialEq, Eq, Structural)]
pub enum MediaInstallProtocolState {
    /// The request is accepted.
    Accepted,
    /// The position can be prepared.
    ReadyForPositionPreparation,
    /// The position is being prepared.
    PositionPreparing,
    /// Nothing can fail any more.
    ReadyToCommit,
    /// The request has ended.
    Terminal,
}

impl<P: MediaInstallPhaseCompletionPort> MediaInstallProtocol<P> {
    /// Publishes that the position can be prepared.
    pub fn mark_ready_for_position_preparation(&mut self)
        requires
            old(self).wf(),
            old(self).state is Accepted,
        ensures
            final(self).wf(),
            final(self).request_id == old(self).request_id,
            final(self).state is ReadyForPositionPreparation,
            final(self).port.published() == (MediaInstallSignalSlots {
                ready_to_commit: Some(
                    MediaInstallPhase::ReadyForPositionPreparation {
                        request_id: old(self).request_id,
                    },
                ),
                ..old(self).port.published()
            }),
            exists|port: &mut P|
                *port == old(self).port && *final(port) == final(self).port
                    && #[trigger] call_ensures(
                    <P as MediaInstallPhaseCompletionPort>::publish_ready_to_commit,
                    (
                        port,
                        MediaInstallPhase::ReadyForPositionPreparation {
                            request_id: old(self).request_id,
                        },
                    ),
                    (),
                ),
    {
        self.port.publish_ready_to_commit(
            MediaInstallPhase::ReadyForPositionPreparation { request_id: self.request_id },
        );
        self.state = MediaInstallProtocolState::ReadyForPositionPreparation;
    }

    /// Starts the preparation of the position where it is due.
    pub fn begin_position_preparation(&mut self) -> (r: bool)
        requires
            old(self).wf(),
        ensures
            final(self).wf(),
            r == (old(self).state is ReadyForPositionPreparation),
            *final(self) == if r {
                MediaInstallProtocol {
                    state: MediaInstallProtocolState::PositionPreparing,
                    ..*old(self)
                }
            } else {
                *old(self)
            },
    {
        match self.state {
            MediaInstallProtocolState::ReadyForPositionPreparation => {
                self.state = MediaInstallProtocolState::PositionPreparing;
                true
            },
            _ => false,
        }
    }
}

} // verus!
