//! Installing media.
//!
//! The order of an installation is fixed: a request is accepted, everything that can fail is
//! prepared, the request is ready to commit, a matching authorization is accepted, and one
//! turn of the owner replaces the active media and publishes that the new media is installed.
//! Until the authorization is accepted a cancellation can win.
pub mod exact_media_transport;
pub mod installed_media_release;
pub mod installed_state_restore;
pub mod playback_intent;
pub mod position_preparation;
pub mod timeline_seek;
pub mod video_resource;

use crate::channel::{
    channel, clone_receiver, is_awaited, is_channel, is_woken, receive, wake, ReceiveError,
};
use crate::error::PlayerError;
use crate::text::{concat, decimal, decimal_digits, lemma_digits, number_of};
use playback_intent::{AcceptedPlaybackIntent, PlaybackIntent, PlaybackIntentRevision};
use core::cmp::Ordering;
use position_preparation::MediaInstallProtocolState;
use vstd::std_specs::cmp::PartialOrdSpec;
use vstd::prelude::*;

verus! {

/// Hands out identities in ascending order, starting with one.
#[derive(Debug)]
pub struct IdentityAllocator {
    next: u64,
}

impl View for IdentityAllocator {
    type V = u64;

    /// The identity that is handed out next.
    closed spec fn view(&self) -> u64 {
        self.next
    }
}

impl IdentityAllocator {
    #[verifier::type_invariant]
    pub closed spec fn is_non_zero(self) -> bool {
        self.next != 0
    }

    /// An allocator that has handed out nothing.
    pub fn new() -> (r: Self)
        ensures
            r@ == 1,
    {
        IdentityAllocator { next: 1 }
    }

    /// Whether no identity is left to hand out.
    pub fn is_exhausted(&self) -> (r: bool)
        ensures
            r == (self@ == u64::MAX),
    {
        self.next == u64::MAX
    }

    /// Hands out the next identity.
    pub fn allocate_process_identity(&mut self) -> (r: u64)
        requires
            old(self)@ < u64::MAX,
        ensures
            r == old(self)@,
            r != 0,
            final(self)@ == r + 1,
    {
        proof {
            use_type_invariant(&*self);
        }
        let identity: u64 = self.next;
        self.next = identity + 1;
        identity
    }
}

/// Identity of one install request, never zero.
#[derive(Debug, Clone, Copy, PartialEq, Eq, Structural, Ord, Hash)]
pub struct MediaInstallRequestId {
    raw: u64,
}

impl PartialOrd for MediaInstallRequestId {
    fn partial_cmp(&self, other: &Self) -> (r: Option<Ordering>) {
        if self.raw < other.raw {
            Some(Ordering::Less)
        } else if self.raw > other.raw {
            Some(Ordering::Greater)
        } else {
            Some(Ordering::Equal)
        }
    }
}

impl vstd::std_specs::cmp::PartialOrdSpecImpl for MediaInstallRequestId {
    open spec fn obeys_partial_cmp_spec() -> bool {
        true
    }

    open spec fn partial_cmp_spec(&self, other: &Self) -> Option<Ordering> {
        if self@ < other@ {
            Some(Ordering::Less)
        } else if self@ > other@ {
            Some(Ordering::Greater)
        } else {
            Some(Ordering::Equal)
        }
    }
}

/// Identities of install requests are equal, and one comes before another, exactly as their numbers do.
pub proof fn law_request_id_is_its_number(a: MediaInstallRequestId, b: MediaInstallRequestId)
    ensures
        (a == b) <==> (a@ == b@),
        (a.partial_cmp_spec(&b) == Some(Ordering::Less)) <==> (a@ < b@),
        (a.partial_cmp_spec(&b) == Some(Ordering::Equal)) <==> (a == b),
        (a.partial_cmp_spec(&b) == Some(Ordering::Greater)) <==> (a@ > b@),
{
}

impl View for MediaInstallRequestId {
    type V = u64;

    closed spec fn view(&self) -> u64 {
        self.raw
    }
}

impl MediaInstallRequestId {
    #[verifier::type_invariant]
    pub closed spec fn is_non_zero(self) -> bool {
        self.raw != 0
    }

    /// A new identity.
    pub fn new_unique(allocator: &mut IdentityAllocator) -> (r: Self)
        requires
            old(allocator)@ < u64::MAX,
        ensures
            r@ == old(allocator)@,
            final(allocator)@ == r@ + 1,
    {
        MediaInstallRequestId { raw: allocator.allocate_process_identity() }
    }

    /// The identity with the given number.
    pub fn from_non_zero(raw_identity: u64) -> (r: Self)
        requires
            raw_identity != 0,
        ensures
            r@ == raw_identity,
    {
        MediaInstallRequestId { raw: raw_identity }
    }

    /// The number of the identity.
    pub fn get(self) -> (r: u64)
        ensures
            r == self@,
            r != 0,
    {
        proof {
            use_type_invariant(&self);
        }
        self.raw
    }

    /// The identity as text.
    pub fn display(&self) -> (r: String)
        ensures
            r@ == decimal_digits(self@ as nat),
    {
        decimal(self.raw)
    }
}

/// Identity of one installed media instance, never zero. Media that is opened again has
/// another one.
#[derive(Debug, Clone, Copy, PartialEq, Eq, Structural, Ord, Hash)]
pub struct MediaInstanceId {
    raw: u64,
}

impl PartialOrd for MediaInstanceId {
    fn partial_cmp(&self, other: &Self) -> (r: Option<Ordering>) {
        if self.raw < other.raw {
            Some(Ordering::Less)
        } else if self.raw > other.raw {
            Some(Ordering::Greater)
        } else {
            Some(Ordering::Equal)
        }
    }
}

impl vstd::std_specs::cmp::PartialOrdSpecImpl for MediaInstanceId {
    open spec fn obeys_partial_cmp_spec() -> bool {
        true
    }

    open spec fn partial_cmp_spec(&self, other: &Self) -> Option<Ordering> {
        if self@ < other@ {
            Some(Ordering::Less)
        } else if self@ > other@ {
            Some(Ordering::Greater)
        } else {
            Some(Ordering::Equal)
        }
    }
}

/// Identities of instances are equal, and one comes before another, exactly as their numbers do.
pub proof fn law_instance_id_is_its_number(a: MediaInstanceId, b: MediaInstanceId)
    ensures
        (a == b) <==> (a@ == b@),
        (a.partial_cmp_spec(&b) == Some(Ordering::Less)) <==> (a@ < b@),
        (a.partial_cmp_spec(&b) == Some(Ordering::Equal)) <==> (a == b),
        (a.partial_cmp_spec(&b) == Some(Ordering::Greater)) <==> (a@ > b@),
{
}

impl View for MediaInstanceId {
    type V = u64;

    closed spec fn view(&self) -> u64 {
        self.raw
    }
}

impl MediaInstanceId {
    #[verifier::type_invariant]
    pub closed spec fn is_non_zero(self) -> bool {
        self.raw != 0
    }

    /// A new identity.
    pub fn new_unique(allocator: &mut IdentityAllocator) -> (r: Self)
        requires
            old(allocator)@ < u64::MAX,
        ensures
            r@ == old(allocator)@,
            final(allocator)@ == r@ + 1,
    {
        MediaInstanceId { raw: allocator.allocate_process_identity() }
    }

    /// The identity with the given number.
    pub fn from_non_zero(raw_identity: u64) -> (r: Self)
        requires
            raw_identity != 0,
        ensures
            r@ == raw_identity,
    {
        MediaInstanceId { raw: raw_identity }
    }

    /// The number of the identity.
    pub fn get(self) -> (r: u64)
        ensures
            r == self@,
            r != 0,
    {
        proof {
            use_type_invariant(&self);
        }
        self.raw
    }

    /// The identity as text.
    pub fn display(&self) -> (r: String)
        ensures
            r@ == decimal_digits(self@ as nat),
    {
        decimal(self.raw)
    }
}

/// Why a request was cancelled before an authorization was accepted.
#[derive(Debug, Clone, Copy, PartialEq, Eq, Structural)]
pub enum MediaInstallCancellationCause {
    /// The user cancelled it.
    UserCancelled,
    /// Another request took its place.
    Superseded,
    /// Playback was stopped.
    TransportStop,
    /// The structure it belongs to changed.
    StructuralInvalidation,
    /// The player was suspended.
    LifecycleSuspended,
    /// The player shuts down.
    LifecycleShutdown,
}

/// A stage of an installation that can fail.
#[derive(Debug, Clone, Copy, PartialEq, Eq, Structural)]
pub enum MediaInstallFailureStage {
    /// Clearing the decoder's seek floor.
    LegacyResetSeekFloor,
    /// Flushing the decoder.
    LegacyResetDecoderFlush,
    /// Clearing the decoder's stream.
    LegacyResetDecoderStream,
    /// Accepting the request to open.
    OpenTransition,
    /// Planning the audio track.
    AudioTrackPlanning,
    /// Configuring the video stream.
    VideoStreamConfiguration,
    /// Waiting for the first video packet.
    VideoPreflightTimeout,
    /// Preparing the playback window.
    PlaybackWindowPreparation,
    /// Preparing the position.
    PositionPreparation,
    /// Acquiring a video backend.
    CandidateVideoResourceAcquisition,
    /// Matching the video backend against the plan.
    CandidateVideoBackendMatching,
    /// Configuring the video backend.
    CandidateVideoBackendConfiguration,
    /// Publishing the status of the video backend.
    CandidateVideoStatusPublication,
    /// Publishing that media is open.
    LegacyMediaOpenedTransition,
}

impl MediaInstallFailureStage {
    /// The number of stages before this one.
    pub open spec fn rank(self) -> int {
        match self {
            MediaInstallFailureStage::LegacyResetSeekFloor => 0,
            MediaInstallFailureStage::LegacyResetDecoderFlush => 1,
            MediaInstallFailureStage::LegacyResetDecoderStream => 2,
            MediaInstallFailureStage::OpenTransition => 3,
            MediaInstallFailureStage::AudioTrackPlanning => 4,
            MediaInstallFailureStage::VideoStreamConfiguration => 5,
            MediaInstallFailureStage::VideoPreflightTimeout => 6,
            MediaInstallFailureStage::PlaybackWindowPreparation => 7,
            MediaInstallFailureStage::PositionPreparation => 8,
            MediaInstallFailureStage::CandidateVideoResourceAcquisition => 9,
            MediaInstallFailureStage::CandidateVideoBackendMatching => 10,
            MediaInstallFailureStage::CandidateVideoBackendConfiguration => 11,
            MediaInstallFailureStage::CandidateVideoStatusPublication => 12,
            MediaInstallFailureStage::LegacyMediaOpenedTransition => 13,
        }
    }

    /// All stages in their order.
    pub fn all() -> (r: [Self; 14])
        ensures
            forall|stage: Self| r@[#[trigger] stage.rank()] == stage,
            forall|i: int| 0 <= i < 14 ==> (#[trigger] r@[i]).rank() == i,
    {
        [
            MediaInstallFailureStage::LegacyResetSeekFloor,
            MediaInstallFailureStage::LegacyResetDecoderFlush,
            MediaInstallFailureStage::LegacyResetDecoderStream,
            MediaInstallFailureStage::OpenTransition,
            MediaInstallFailureStage::AudioTrackPlanning,
            MediaInstallFailureStage::VideoStreamConfiguration,
            MediaInstallFailureStage::VideoPreflightTimeout,
            MediaInstallFailureStage::PlaybackWindowPreparation,
            MediaInstallFailureStage::PositionPreparation,
            MediaInstallFailureStage::CandidateVideoResourceAcquisition,
            MediaInstallFailureStage::CandidateVideoBackendMatching,
            MediaInstallFailureStage::CandidateVideoBackendConfiguration,
            MediaInstallFailureStage::CandidateVideoStatusPublication,
            MediaInstallFailureStage::LegacyMediaOpenedTransition,
        ]
    }
}

/// The point at which an installation becomes final.
#[derive(Debug, Clone, Copy, PartialEq, Eq, Structural)]
pub enum MediaInstallCommitPoint {
    /// One turn of the owner replaces the active media and publishes the instance.
    ReplaceActiveOwnershipAndPublishInstalled,
}

/// A failure of an accepted request.
#[derive(Debug, Clone, PartialEq, Eq)]
pub struct MediaInstallFailure {
    /// Stage that failed.
    pub stage: MediaInstallFailureStage,
    /// The error.
    pub error: PlayerError,
}

impl MediaInstallFailure {
    /// A failure of a stage.
    pub fn new(stage: MediaInstallFailureStage, error: PlayerError) -> (r: Self)
        ensures
            r == (MediaInstallFailure { stage, error }),
    {
        MediaInstallFailure { stage, error }
    }
}

/// A phase that is published before the end.
#[derive(Debug, Clone, Copy, PartialEq, Eq, Structural)]
pub enum MediaInstallPhase {
    /// The candidate waits for its position to be prepared.
    ReadyForPositionPreparation {
        /// The request.
        request_id: MediaInstallRequestId,
    },
    /// Nothing can fail any more; an authorization is awaited.
    ReadyToCommit {
        /// The request.
        request_id: MediaInstallRequestId,
    },
}

/// The end of an accepted request.
#[derive(Debug, Clone, PartialEq, Eq)]
pub enum MediaInstallCompletion {
    /// The authorization was accepted and the media is installed.
    Installed {
        /// The request.
        request_id: MediaInstallRequestId,
        /// The new instance.
        media_instance_id: MediaInstanceId,
        /// Revision of the intent that was applied.
        applied_intent_revision: PlaybackIntentRevision,
        /// Intent that was applied.
        applied_intent: PlaybackIntent,
    },
    /// A stage failed.
    Failed {
        /// The request.
        request_id: MediaInstallRequestId,
        /// What failed.
        failure: MediaInstallFailure,
    },
    /// A cancellation won.
    Cancelled {
        /// The request.
        request_id: MediaInstallRequestId,
        /// Why it was cancelled.
        cause: MediaInstallCancellationCause,
    },
}

impl MediaInstallCompletion {
    /// The request that ended.
    pub open spec fn spec_request_id(self) -> MediaInstallRequestId {
        match self {
            MediaInstallCompletion::Installed { request_id, .. } => request_id,
            MediaInstallCompletion::Failed { request_id, .. } => request_id,
            MediaInstallCompletion::Cancelled { request_id, .. } => request_id,
        }
    }

    /// The request that ended.
    pub fn request_id(&self) -> (r: MediaInstallRequestId)
        ensures
            r == self.spec_request_id(),
    {
        match self {
            MediaInstallCompletion::Installed { request_id, .. } => *request_id,
            MediaInstallCompletion::Failed { request_id, .. } => *request_id,
            MediaInstallCompletion::Cancelled { request_id, .. } => *request_id,
        }
    }
}

/// A breach of what an accepted authorization guarantees.
#[derive(Debug, Clone, PartialEq, Eq)]
pub enum AcceptedMediaInstallTerminalError {
    /// The end of the request was not published.
    MissingInstalled {
        /// The request.
        request_id: MediaInstallRequestId,
    },
    /// Another request was installed.
    InstalledRequestMismatch {
        /// The request of the receipt.
        expected_request_id: MediaInstallRequestId,
        /// The request that was installed.
        installed_request_id: MediaInstallRequestId,
    },
    /// The request ended in another way.
    UnexpectedCompletion(MediaInstallCompletion),
}

impl AcceptedMediaInstallTerminalError {
    /// The text of the error, where `completion_text` describes an unexpected completion.
    pub open spec fn spec_message(self, completion_text: Seq<char>) -> Seq<char> {
        match self {
            AcceptedMediaInstallTerminalError::MissingInstalled { request_id } => {
                "accepted media install request "@ + decimal_digits(request_id@ as nat)
                    + " не содержит обязательный Installed terminal"@
            },
            AcceptedMediaInstallTerminalError::InstalledRequestMismatch {
                expected_request_id,
                installed_request_id,
            } => {
                "Installed terminal request "@ + decimal_digits(installed_request_id@ as nat)
                    + " не совпал с expected request "@ + decimal_digits(
                    expected_request_id@ as nat,
                )
            },
            AcceptedMediaInstallTerminalError::UnexpectedCompletion(_) => {
                "accepted authorization завершилась unexpected terminal: "@ + completion_text
            },
        }
    }

    /// The text of the error, where `completion_text` describes an unexpected completion.
    pub fn message(&self, completion_text: &str) -> (r: String)
        ensures
            r@ == self.spec_message(completion_text@),
    {
        match self {
            AcceptedMediaInstallTerminalError::MissingInstalled { request_id } => {
                let head = concat("accepted media install request ", request_id.display().as_str());
                concat(head.as_str(), " не содержит обязательный Installed terminal")
            },
            AcceptedMediaInstallTerminalError::InstalledRequestMismatch {
                expected_request_id,
                installed_request_id,
            } => {
                let head = concat(
                    "Installed terminal request ",
                    installed_request_id.display().as_str(),
                );
                let middle = concat(head.as_str(), " не совпал с expected request ");
                concat(middle.as_str(), expected_request_id.display().as_str())
            },
            AcceptedMediaInstallTerminalError::UnexpectedCompletion(_) => {
                concat("accepted authorization завершилась unexpected terminal: ", completion_text)
            },
        }
    }
}

/// Permission to commit one request.
#[derive(Debug, Clone, Copy, PartialEq, Eq, Structural)]
pub struct AuthorizeInstallCommit {
    /// The request.
    pub request_id: MediaInstallRequestId,
}

/// Cancellation of one request.
#[derive(Debug, Clone, Copy, PartialEq, Eq, Structural)]
pub struct CancelMediaInstall {
    /// The request.
    pub request_id: MediaInstallRequestId,
    /// Why it is cancelled.
    pub cause: MediaInstallCancellationCause,
}

/// A control message. Messages are applied in the order in which they arrive.
#[derive(Debug, Clone, Copy, PartialEq, Eq, Structural)]
pub enum MediaInstallControl {
    /// Permission to commit.
    Authorize(AuthorizeInstallCommit),
    /// Cancellation.
    Cancel(CancelMediaInstall),
}

impl MediaInstallControl {
    /// The request that a message is for.
    pub open spec fn request_id(self) -> MediaInstallRequestId {
        match self {
            MediaInstallControl::Authorize(authorization) => authorization.request_id,
            MediaInstallControl::Cancel(cancellation) => cancellation.request_id,
        }
    }
}

/// What became of a control message.
#[derive(Debug, Clone, Copy, PartialEq, Eq, Structural)]
pub enum MediaInstallControlOutcome {
    /// The media is installed.
    AuthorizationAccepted,
    /// The request is cancelled.
    CancellationAccepted,
    /// The message is for another request.
    StaleRequest,
    /// The request is not ready to commit.
    NotReady,
    /// The request has ended before.
    AlreadyTerminal,
}

/// What a request shows of its progress.
#[derive(Debug, Clone)]
pub struct MediaInstallSignalSlots {
    /// The last phase, until it is taken.
    pub ready_to_commit: Option<MediaInstallPhase>,
    /// The end, until it is taken.
    pub terminal: Option<MediaInstallCompletion>,
}

impl Default for MediaInstallSignalSlots {
    fn default() -> (r: Self)
        ensures
            r.ready_to_commit is None,
            r.terminal is None,
    {
        MediaInstallSignalSlots { ready_to_commit: None, terminal: None }
    }
}

/// The next thing a request shows.
#[derive(Debug, Clone, PartialEq, Eq)]
pub enum MediaInstallReceiptSignal {
    /// A phase before the end.
    ReadyToCommit(MediaInstallPhase),
    /// The end. Only an installation is a success.
    Terminal(MediaInstallCompletion),
}

impl MediaInstallSignalSlots {
    /// Takes the phase.
    pub fn take_ready_to_commit(&mut self) -> (r: Option<MediaInstallPhase>)
        ensures
            r == old(self).ready_to_commit,
            *final(self) == (MediaInstallSignalSlots { ready_to_commit: None, ..*old(self) }),
    {
        self.ready_to_commit.take()
    }

    /// Takes the end.
    pub fn take_terminal(&mut self) -> (r: Option<MediaInstallCompletion>)
        ensures
            r == old(self).terminal,
            *final(self) == (MediaInstallSignalSlots { terminal: None, ..*old(self) }),
    {
        self.terminal.take()
    }

    /// Whether there is anything to take.
    pub fn has_signal(&self) -> (r: bool)
        ensures
            r == (self.ready_to_commit is Some || self.terminal is Some),
    {
        self.terminal.is_some() || self.ready_to_commit.is_some()
    }

    /// Takes the phase, or the end where no phase is there.
    pub fn take_signal(&mut self) -> (r: Option<MediaInstallReceiptSignal>)
        ensures
            match old(self).ready_to_commit {
                Some(phase) => {
                    &&& r == Some(MediaInstallReceiptSignal::ReadyToCommit(phase))
                    &&& *final(self) == (MediaInstallSignalSlots {
                        ready_to_commit: None,
                        ..*old(self)
                    })
                },
                None => {
                    &&& r == match old(self).terminal {
                        Some(completion) => Some(MediaInstallReceiptSignal::Terminal(completion)),
                        None => None,
                    }
                    &&& *final(self) == (MediaInstallSignalSlots { terminal: None, ..*old(self) })
                },
            },
    {
        match self.take_ready_to_commit() {
            Some(phase) => Some(MediaInstallReceiptSignal::ReadyToCommit(phase)),
            None => match self.take_terminal() {
                Some(completion) => Some(MediaInstallReceiptSignal::Terminal(completion)),
                None => None,
            },
        }
    }
}

/// The place to which the owner publishes the progress of a request.
pub trait MediaInstallPhaseCompletionPort: Sized {
    /// What is published and not taken.
    spec fn published(&self) -> MediaInstallSignalSlots;

    /// Publishes a phase before the end.
    fn publish_ready_to_commit(&mut self, phase: MediaInstallPhase)
        requires
            old(self).published().ready_to_commit is None,
            old(self).published().terminal is None,
        ensures
            final(self).published() == (MediaInstallSignalSlots {
                ready_to_commit: Some(phase),
                ..old(self).published()
            }),
    ;

    /// Publishes the end.
    fn publish_terminal(&mut self, completion: MediaInstallCompletion)
        requires
            old(self).published().terminal is None,
        ensures
            final(self).published() == (MediaInstallSignalSlots {
                terminal: Some(completion),
                ..old(self).published()
            }),
    ;
}

/// Room in the channel of wakeups: one that waits is as good as many.
pub const MEDIA_INSTALL_WAKEUP_CAPACITY: usize = 1;

/// The owner's end of the channel of wakeups. While it lives a receipt has something to wait for.
#[derive(Debug)]
pub struct MediaInstallWaker {
    signal_tx: crossbeam_channel::Sender<()>,
}

impl MediaInstallWaker {
    /// The end of the channel.
    pub closed spec fn sender(self) -> crossbeam_channel::Sender<()> {
        self.signal_tx
    }

    /// Shows a phase before the end in the slots, wherever they are kept, and wakes the receipt.
    pub fn publish_ready_to_commit(
        &self,
        slots: &mut MediaInstallSignalSlots,
        phase: MediaInstallPhase,
    )
        requires
            old(slots).ready_to_commit is None,
            old(slots).terminal is None,
        ensures
            *final(slots) == (MediaInstallSignalSlots {
                ready_to_commit: Some(phase),
                ..*old(slots)
            }),
            is_woken(self.sender()),
    {
        slots.ready_to_commit = Some(phase);
        wake(&self.signal_tx);
    }

    /// Shows the end in the slots, wherever they are kept, and wakes the receipt.
    pub fn publish_terminal(
        &self,
        slots: &mut MediaInstallSignalSlots,
        completion: MediaInstallCompletion,
    )
        requires
            old(slots).terminal is None,
        ensures
            *final(slots) == (MediaInstallSignalSlots {
                terminal: Some(completion),
                ..*old(slots)
            }),
            is_woken(self.sender()),
    {
        slots.terminal = Some(completion);
        wake(&self.signal_tx);
    }
}

/// A place that belongs to one request and wakes its receipt.
#[derive(Debug)]
pub struct RequestOwnedMediaInstallPort {
    slots: MediaInstallSignalSlots,
    waker: MediaInstallWaker,
}

impl RequestOwnedMediaInstallPort {
    /// The channel through which the receipt is woken.
    pub closed spec fn waker(self) -> crossbeam_channel::Sender<()> {
        self.waker.sender()
    }

    /// What is published and the owner's end of the channel, for an owner that keeps them apart.
    pub fn into_parts(self) -> (r: (MediaInstallSignalSlots, MediaInstallWaker))
        ensures
            r.0 == self.published(),
            r.1.sender() == self.waker(),
    {
        (self.slots, self.waker)
    }

    /// What is published, for a receipt to take.
    pub fn slots_mut(&mut self) -> (r: &mut MediaInstallSignalSlots)
        ensures
            *r == old(self).published(),
            final(self).published() == *final(r),
            final(self).waker() == old(self).waker(),
    {
        &mut self.slots
    }
}

impl MediaInstallPhaseCompletionPort for RequestOwnedMediaInstallPort {
    closed spec fn published(&self) -> MediaInstallSignalSlots {
        self.slots
    }

    fn publish_ready_to_commit(&mut self, phase: MediaInstallPhase)
        ensures
            final(self).waker() == old(self).waker(),
            is_woken(final(self).waker()),
    {
        self.waker.publish_ready_to_commit(&mut self.slots, phase);
    }

    fn publish_terminal(&mut self, completion: MediaInstallCompletion)
        ensures
            final(self).waker() == old(self).waker(),
            is_woken(final(self).waker()),
    {
        self.waker.publish_terminal(&mut self.slots, completion);
    }
}

/// The owner of a request is gone without an end.
#[derive(Debug, Clone, Copy, PartialEq, Eq, Structural)]
pub enum MediaInstallReceiptWaitError {
    /// Nobody can publish any more.
    MissingOwnerOutcome,
}

impl MediaInstallReceiptWaitError {
    /// The text of the error.
    pub fn message(&self) -> (r: String)
        ensures
            r@ == "player owner завершился без media install phase outcome"@,
    {
        "player owner завершился без media install phase outcome".to_owned()
    }
}

/// Receipt of an accepted request. It stands for no success: the phases and the end are
/// taken separately.
#[derive(Debug)]
pub struct MediaInstallReceipt {
    /// The request.
    pub request_id: MediaInstallRequestId,
    /// Wakeups that the owner leaves.
    pub signal_rx: crossbeam_channel::Receiver<()>,
}

impl Clone for MediaInstallReceipt {
    fn clone(&self) -> (r: Self)
        ensures
            r == *self,
    {
        MediaInstallReceipt {
            request_id: self.request_id,
            signal_rx: clone_receiver(&self.signal_rx),
        }
    }
}

impl MediaInstallReceipt {
    /// A receipt with the place to which the owner publishes. The receipt waits at the channel
    /// through which the place wakes.
    pub fn new(request_id: MediaInstallRequestId) -> (r: (Self, RequestOwnedMediaInstallPort))
        ensures
            r.0.request_id == request_id,
            r.1.published().ready_to_commit is None,
            r.1.published().terminal is None,
            is_channel(r.1.waker(), r.0.signal_rx, MEDIA_INSTALL_WAKEUP_CAPACITY),
    {
        let (signal_tx, signal_rx) = channel(MEDIA_INSTALL_WAKEUP_CAPACITY);
        let port = RequestOwnedMediaInstallPort {
            slots: MediaInstallSignalSlots::default(),
            waker: MediaInstallWaker { signal_tx },
        };
        (MediaInstallReceipt { request_id, signal_rx }, port)
    }

    /// The request.
    pub fn request_id(&self) -> (r: MediaInstallRequestId)
        ensures
            r == self.request_id,
    {
        self.request_id
    }

    /// Takes the phase, once.
    pub fn try_take_ready_to_commit(&self, slots: &mut MediaInstallSignalSlots) -> (r: Option<
        MediaInstallPhase,
    >)
        ensures
            r == old(slots).ready_to_commit,
            *final(slots) == (MediaInstallSignalSlots { ready_to_commit: None, ..*old(slots) }),
    {
        slots.take_ready_to_commit()
    }

    /// Takes the end, once.
    pub fn try_take_completion(&self, slots: &mut MediaInstallSignalSlots) -> (r: Option<
        MediaInstallCompletion,
    >)
        ensures
            r == old(slots).terminal,
            *final(slots) == (MediaInstallSignalSlots { terminal: None, ..*old(slots) }),
    {
        slots.take_terminal()
    }

    /// Takes the end after an authorization was accepted. Then it has to be an installation
    /// of this request.
    pub fn take_required_installed_after_authorization(
        &self,
        slots: &mut MediaInstallSignalSlots,
    ) -> (r: Result<MediaInstanceId, AcceptedMediaInstallTerminalError>)
        ensures
            *final(slots) == (MediaInstallSignalSlots { terminal: None, ..*old(slots) }),
            r == match old(slots).terminal {
                None => Err(
                    AcceptedMediaInstallTerminalError::MissingInstalled {
                        request_id: self.request_id,
                    },
                ),
                Some(completion) => match completion {
                    MediaInstallCompletion::Installed { request_id, media_instance_id, .. } => {
                        if request_id == self.request_id {
                            Ok(media_instance_id)
                        } else {
                            Err(
                                AcceptedMediaInstallTerminalError::InstalledRequestMismatch {
                                    expected_request_id: self.request_id,
                                    installed_request_id: request_id,
                                },
                            )
                        }
                    },
                    _ => Err(AcceptedMediaInstallTerminalError::UnexpectedCompletion(completion)),
                },
            },
    {
        match slots.take_terminal() {
            None => Err(
                AcceptedMediaInstallTerminalError::MissingInstalled { request_id: self.request_id },
            ),
            Some(completion) => {
                if let MediaInstallCompletion::Installed { request_id, media_instance_id, .. } =
                    &completion {
                    if *request_id == self.request_id {
                        return Ok(*media_instance_id);
                    }
                    return Err(
                        AcceptedMediaInstallTerminalError::InstalledRequestMismatch {
                            expected_request_id: self.request_id,
                            installed_request_id: *request_id,
                        },
                    );
                }
                Err(AcceptedMediaInstallTerminalError::UnexpectedCompletion(completion))
            },
        }
    }

    /// Takes the next signal: the phase before the end.
    pub fn try_take_signal(&self, slots: &mut MediaInstallSignalSlots) -> (r: Option<
        MediaInstallReceiptSignal,
    >)
        ensures
            match old(slots).ready_to_commit {
                Some(phase) => {
                    &&& r == Some(MediaInstallReceiptSignal::ReadyToCommit(phase))
                    &&& *final(slots) == (MediaInstallSignalSlots {
                        ready_to_commit: None,
                        ..*old(slots)
                    })
                },
                None => {
                    &&& r == match old(slots).terminal {
                        Some(completion) => Some(MediaInstallReceiptSignal::Terminal(completion)),
                        None => None,
                    }
                    &&& *final(slots) == (MediaInstallSignalSlots { terminal: None, ..*old(slots) })
                },
            },
    {
        slots.take_signal()
    }

    /// Waits for the next wakeup of the owner. What comes back depends on the owner; without
    /// one the wait fails.
    pub fn wait_for_wakeup(&self) -> (r: Result<(), MediaInstallReceiptWaitError>)
        ensures
            exists|received: Result<(), ReceiveError>| #[trigger]
                is_awaited(self.signal_rx, received) && r == Self::wakeup(received),
    {
        Self::wakeup_of(receive(&self.signal_rx))
    }

    /// What the result of a wait means for the receipt.
    pub open spec fn wakeup(received: Result<(), ReceiveError>) -> Result<
        (),
        MediaInstallReceiptWaitError,
    > {
        match received {
            Ok(()) => Ok(()),
            Err(_) => Err(MediaInstallReceiptWaitError::MissingOwnerOutcome),
        }
    }

    /// What the result of a wait means for the receipt.
    pub fn wakeup_of(received: Result<(), ReceiveError>) -> (r: Result<
        (),
        MediaInstallReceiptWaitError,
    >)
        ensures
            r == Self::wakeup(received),
    {
        match received {
            Ok(()) => Ok(()),
            Err(_) => Err(MediaInstallReceiptWaitError::MissingOwnerOutcome),
        }
    }
}

/// The owner's side of one request.
#[derive(Debug)]
pub struct MediaInstallProtocol<P> {
    /// The request.
    pub request_id: MediaInstallRequestId,
    /// Place of publication.
    pub port: P,
    /// Phase of the request.
    pub state: MediaInstallProtocolState,
}

impl<P: MediaInstallPhaseCompletionPort> MediaInstallProtocol<P> {
    /// The end is published in the terminal state only, and no phase before the first.
    pub open spec fn wf(self) -> bool {
        &&& !(self.state is Terminal) ==> self.port.published().terminal is None
        &&& self.state is Accepted ==> self.port.published().ready_to_commit is None
    }

    /// Accepts a request without publishing anything.
    pub fn accept(request_id: MediaInstallRequestId, port: P) -> (r: Self)
        requires
            port.published().ready_to_commit is None,
            port.published().terminal is None,
        ensures
            r.wf(),
            r.request_id == request_id,
            r.port == port,
            r.state is Accepted,
    {
        MediaInstallProtocol { request_id, port, state: MediaInstallProtocolState::Accepted }
    }

    /// Publishes that nothing can fail any more.
    pub fn mark_ready_to_commit(&mut self)
        requires
            old(self).wf(),
            old(self).state is Accepted || old(self).state is PositionPreparing,
            old(self).port.published().ready_to_commit is None,
        ensures
            final(self).wf(),
            final(self).request_id == old(self).request_id,
            final(self).state is ReadyToCommit,
            final(self).port.published() == (MediaInstallSignalSlots {
                ready_to_commit: Some(
                    MediaInstallPhase::ReadyToCommit { request_id: old(self).request_id },
                ),
                ..old(self).port.published()
            }),
            exists|port: &mut P|
                *port == old(self).port && *final(port) == final(self).port
                    && #[trigger] call_ensures(
                    <P as MediaInstallPhaseCompletionPort>::publish_ready_to_commit,
                    (port, MediaInstallPhase::ReadyToCommit { request_id: old(self).request_id }),
                    (),
                ),
    {
        self.port.publish_ready_to_commit(
            MediaInstallPhase::ReadyToCommit { request_id: self.request_id },
        );
        self.state = MediaInstallProtocolState::ReadyToCommit;
    }

    /// Whether an authorization would be accepted.
    pub fn is_ready_to_commit(&self) -> (r: bool)
        ensures
            r == (self.state is ReadyToCommit),
    {
        match self.state {
            MediaInstallProtocolState::ReadyToCommit => true,
            _ => false,
        }
    }

    /// Publishes a failure of the preparation.
    pub fn complete_failed(&mut self, failure: MediaInstallFailure)
        requires
            old(self).wf(),
            old(self).state is Accepted || old(self).state is ReadyForPositionPreparation || old(
                self,
            ).state is PositionPreparing,
        ensures
            final(self).wf(),
            final(self).request_id == old(self).request_id,
            final(self).state is Terminal,
            final(self).port.published() == (MediaInstallSignalSlots {
                terminal: Some(
                    MediaInstallCompletion::Failed { request_id: old(self).request_id, failure },
                ),
                ..old(self).port.published()
            }),
            exists|port: &mut P|
                *port == old(self).port && *final(port) == final(self).port
                    && #[trigger] call_ensures(
                    <P as MediaInstallPhaseCompletionPort>::publish_terminal,
                    (
                        port,
                        MediaInstallCompletion::Failed { request_id: old(self).request_id, failure },
                    ),
                    (),
                ),
    {
        self.port.publish_terminal(
            MediaInstallCompletion::Failed { request_id: self.request_id, failure },
        );
        self.state = MediaInstallProtocolState::Terminal;
    }

    /// What becomes of a control message.
    pub open spec fn control_outcome(
        self,
        control: MediaInstallControl,
    ) -> MediaInstallControlOutcome {
        if control.request_id() != self.request_id {
            MediaInstallControlOutcome::StaleRequest
        } else if self.state is Terminal {
            MediaInstallControlOutcome::AlreadyTerminal
        } else if control is Cancel {
            MediaInstallControlOutcome::CancellationAccepted
        } else if self.state is ReadyToCommit {
            MediaInstallControlOutcome::AuthorizationAccepted
        } else {
            MediaInstallControlOutcome::NotReady
        }
    }

    /// Applies the next control message. Only an accepted authorization calls
    /// `commit_media_instance`, and what it returns is published before the next message.
    pub fn apply_control<F: FnOnce() -> (MediaInstanceId, AcceptedPlaybackIntent)>(
        &mut self,
        control: MediaInstallControl,
        commit_media_instance: F,
    ) -> (r: MediaInstallControlOutcome)
        requires
            old(self).wf(),
            old(self).control_outcome(control) is AuthorizationAccepted ==> call_requires(
                commit_media_instance,
                (),
            ),
        ensures
            final(self).wf(),
            r == old(self).control_outcome(control),
            final(self).request_id == old(self).request_id,
            match r {
                MediaInstallControlOutcome::AuthorizationAccepted => {
                    &&& final(self).state is Terminal
                    &&& exists|committed: (MediaInstanceId, AcceptedPlaybackIntent)|
                        {
                            &&& #[trigger] call_ensures(commit_media_instance, (), committed)
                            &&& final(self).port.published() == (MediaInstallSignalSlots {
                                terminal: Some(
                                    MediaInstallCompletion::Installed {
                                        request_id: old(self).request_id,
                                        media_instance_id: committed.0,
                                        applied_intent_revision: committed.1.revision,
                                        applied_intent: committed.1.intent,
                                    },
                                ),
                                ..old(self).port.published()
                            })
                            &&& exists|port: &mut P|
                                *port == old(self).port && *final(port) == final(self).port
                                    && #[trigger] call_ensures(
                                    <P as MediaInstallPhaseCompletionPort>::publish_terminal,
                                    (
                                        port,
                                        MediaInstallCompletion::Installed {
                                            request_id: old(self).request_id,
                                            media_instance_id: committed.0,
                                            applied_intent_revision: committed.1.revision,
                                            applied_intent: committed.1.intent,
                                        },
                                    ),
                                    (),
                                )
                        }
                },
                MediaInstallControlOutcome::CancellationAccepted => {
                    &&& final(self).state is Terminal
                    &&& final(self).port.published() == (MediaInstallSignalSlots {
                        terminal: Some(
                            MediaInstallCompletion::Cancelled {
                                request_id: old(self).request_id,
                                cause: control->Cancel_0.cause,
                            },
                        ),
                        ..old(self).port.published()
                    })
                    &&& exists|port: &mut P|
                        *port == old(self).port && *final(port) == final(self).port
                            && #[trigger] call_ensures(
                            <P as MediaInstallPhaseCompletionPort>::publish_terminal,
                            (
                                port,
                                MediaInstallCompletion::Cancelled {
                                    request_id: old(self).request_id,
                                    cause: control->Cancel_0.cause,
                                },
                            ),
                            (),
                        )
                },
                _ => *final(self) == *old(self),
            },
    {
        let control_request_id = match control {
            MediaInstallControl::Authorize(authorization) => authorization.request_id,
            MediaInstallControl::Cancel(cancellation) => cancellation.request_id,
        };
        if control_request_id != self.request_id {
            return MediaInstallControlOutcome::StaleRequest;
        }
        if let MediaInstallProtocolState::Terminal = self.state {
            return MediaInstallControlOutcome::AlreadyTerminal;
        }
        match control {
            MediaInstallControl::Authorize(_) => {
                if !self.is_ready_to_commit() {
                    return MediaInstallControlOutcome::NotReady;
                }
                let (media_instance_id, applied_intent) = commit_media_instance();
                self.port.publish_terminal(
                    MediaInstallCompletion::Installed {
                        request_id: self.request_id,
                        media_instance_id,
                        applied_intent_revision: applied_intent.revision,
                        applied_intent: applied_intent.intent,
                    },
                );
                self.state = MediaInstallProtocolState::Terminal;
                assert(call_ensures(commit_media_instance, (), (media_instance_id, applied_intent)));
                MediaInstallControlOutcome::AuthorizationAccepted
            },
            MediaInstallControl::Cancel(cancellation) => {
                self.port.publish_terminal(
                    MediaInstallCompletion::Cancelled {
                        request_id: self.request_id,
                        cause: cancellation.cause,
                    },
                );
                self.state = MediaInstallProtocolState::Terminal;
                MediaInstallControlOutcome::CancellationAccepted
            },
        }
    }

    /// The place of publication, to change.
    pub fn port_mut(&mut self) -> (r: &mut P)
        ensures
            *r == old(self).port,
            *final(self) == (MediaInstallProtocol { port: *final(r), ..*old(self) }),
    {
        &mut self.port
    }
}

/// Every publication of an owner wakes the receipt that was made with its place: the place goes on
/// waking through the same channel.
pub proof fn law_publication_wakes_the_receipt(
    before: RequestOwnedMediaInstallPort,
    after: RequestOwnedMediaInstallPort,
    receipt: MediaInstallReceipt,
)
    requires
        is_channel(before.waker(), receipt.signal_rx, MEDIA_INSTALL_WAKEUP_CAPACITY),
        (exists|port: &mut RequestOwnedMediaInstallPort, phase: MediaInstallPhase|
            *port == before && *final(port) == after && #[trigger] call_ensures(
                <RequestOwnedMediaInstallPort as MediaInstallPhaseCompletionPort>::publish_ready_to_commit,
                (port, phase),
                (),
            )) || (exists|
            port: &mut RequestOwnedMediaInstallPort,
            completion: MediaInstallCompletion,
        |
            *port == before && *final(port) == after && #[trigger] call_ensures(
                <RequestOwnedMediaInstallPort as MediaInstallPhaseCompletionPort>::publish_terminal,
                (port, completion),
                (),
            )),
    ensures
        is_woken(after.waker()),
        is_channel(after.waker(), receipt.signal_rx, MEDIA_INSTALL_WAKEUP_CAPACITY),
{
}

/// After the end of a request no control message is accepted any more.
pub proof fn law_terminal_is_final<P: MediaInstallPhaseCompletionPort>(
    protocol: MediaInstallProtocol<P>,
    control: MediaInstallControl,
)
    requires
        protocol.state is Terminal,
    ensures
        protocol.control_outcome(control) is StaleRequest || protocol.control_outcome(
            control,
        ) is AlreadyTerminal,
{
}

/// An authorization is accepted exactly for the request that is ready to commit.
pub proof fn law_authorization_needs_the_ready_request<P: MediaInstallPhaseCompletionPort>(
    protocol: MediaInstallProtocol<P>,
    authorization: AuthorizeInstallCommit,
)
    ensures
        protocol.control_outcome(MediaInstallControl::Authorize(authorization))
            is AuthorizationAccepted <==> protocol.state is ReadyToCommit
            && authorization.request_id == protocol.request_id,
{
}

/// A cancellation is accepted in every phase before the end.
pub proof fn law_cancellation_wins_before_the_end<P: MediaInstallPhaseCompletionPort>(
    protocol: MediaInstallProtocol<P>,
    cancellation: CancelMediaInstall,
)
    ensures
        protocol.control_outcome(MediaInstallControl::Cancel(cancellation))
            is CancellationAccepted <==> !(protocol.state is Terminal) && cancellation.request_id
            == protocol.request_id,
{
}

/// Taking what was published keeps the protocol in order.
pub proof fn law_taking_keeps_the_protocol_in_order<P: MediaInstallPhaseCompletionPort>(
    before: MediaInstallProtocol<P>,
    after: MediaInstallProtocol<P>,
)
    requires
        before.wf(),
        after.state == before.state,
        after.port.published().ready_to_commit == before.port.published().ready_to_commit
            || after.port.published().ready_to_commit is None,
        after.port.published().terminal == before.port.published().terminal
            || after.port.published().terminal is None,
    ensures
        after.wf(),
{
}

/// The stages of an installation in the order in which they are gone through.
pub proof fn law_stages_are_told_in_order(stages: [MediaInstallFailureStage; 14])
    requires
        call_ensures(MediaInstallFailureStage::all, (), stages),
    ensures
        stages@[0] is LegacyResetSeekFloor,
        stages@[1] is LegacyResetDecoderFlush,
        stages@[2] is LegacyResetDecoderStream,
        stages@[3] is OpenTransition,
        stages@[4] is AudioTrackPlanning,
        stages@[5] is VideoStreamConfiguration,
        stages@[6] is VideoPreflightTimeout,
        stages@[7] is PlaybackWindowPreparation,
        stages@[8] is PositionPreparation,
        stages@[9] is CandidateVideoResourceAcquisition,
        stages@[10] is CandidateVideoBackendMatching,
        stages@[11] is CandidateVideoBackendConfiguration,
        stages@[12] is CandidateVideoStatusPublication,
        stages@[13] is LegacyMediaOpenedTransition,
{
    assert(MediaInstallFailureStage::LegacyResetSeekFloor.rank() == 0);
    assert(MediaInstallFailureStage::LegacyResetDecoderFlush.rank() == 1);
    assert(MediaInstallFailureStage::LegacyResetDecoderStream.rank() == 2);
    assert(MediaInstallFailureStage::OpenTransition.rank() == 3);
    assert(MediaInstallFailureStage::AudioTrackPlanning.rank() == 4);
    assert(MediaInstallFailureStage::VideoStreamConfiguration.rank() == 5);
    assert(MediaInstallFailureStage::VideoPreflightTimeout.rank() == 6);
    assert(MediaInstallFailureStage::PlaybackWindowPreparation.rank() == 7);
    assert(MediaInstallFailureStage::PositionPreparation.rank() == 8);
    assert(MediaInstallFailureStage::CandidateVideoResourceAcquisition.rank() == 9);
    assert(MediaInstallFailureStage::CandidateVideoBackendMatching.rank() == 10);
    assert(MediaInstallFailureStage::CandidateVideoBackendConfiguration.rank() == 11);
    assert(MediaInstallFailureStage::CandidateVideoStatusPublication.rank() == 12);
    assert(MediaInstallFailureStage::LegacyMediaOpenedTransition.rank() == 13);
}

/// An authorization installs the medium exactly where it is for the request and the request is
/// ready to commit. What is committed then is published as the end, for that request; nothing else
/// changes anything.
pub proof fn law_authorization_commits_the_ready_request<
    P: MediaInstallPhaseCompletionPort,
    F: FnOnce() -> (MediaInstanceId, AcceptedPlaybackIntent),
>(
    before: MediaInstallProtocol<P>,
    after: MediaInstallProtocol<P>,
    authorization: AuthorizeInstallCommit,
    commit: F,
    outcome: MediaInstallControlOutcome,
)
    requires
        exists|protocol: &mut MediaInstallProtocol<P>|
            *protocol == before && *final(protocol) == after && #[trigger] call_ensures(
                MediaInstallProtocol::<P>::apply_control::<F>,
                (protocol, MediaInstallControl::Authorize(authorization), commit),
                outcome,
            ),
    ensures
        outcome is StaleRequest <==> authorization.request_id != before.request_id,
        outcome is AlreadyTerminal <==> authorization.request_id == before.request_id
            && before.state is Terminal,
        outcome is AuthorizationAccepted <==> authorization.request_id == before.request_id
            && before.state is ReadyToCommit,
        outcome is NotReady <==> authorization.request_id == before.request_id && !(before.state
            is Terminal) && !(before.state is ReadyToCommit),
        !(outcome is AuthorizationAccepted) ==> after == before,
        outcome is AuthorizationAccepted ==> after.state is Terminal && exists|
            committed: (MediaInstanceId, AcceptedPlaybackIntent),
        |
            {
                &&& #[trigger] call_ensures(commit, (), committed)
                &&& after.port.published().terminal == Some(
                    MediaInstallCompletion::Installed {
                        request_id: before.request_id,
                        media_instance_id: committed.0,
                        applied_intent_revision: committed.1.revision,
                        applied_intent: committed.1.intent,
                    },
                )
            },
        after.port.published().ready_to_commit == before.port.published().ready_to_commit,
{
}

/// A cancellation ends the request that it is for, in every phase before the end, and the end tells
/// its cause.
pub proof fn law_cancellation_ends_its_request<
    P: MediaInstallPhaseCompletionPort,
    F: FnOnce() -> (MediaInstanceId, AcceptedPlaybackIntent),
>(
    before: MediaInstallProtocol<P>,
    after: MediaInstallProtocol<P>,
    cancellation: CancelMediaInstall,
    commit: F,
    outcome: MediaInstallControlOutcome,
)
    requires
        exists|protocol: &mut MediaInstallProtocol<P>|
            *protocol == before && *final(protocol) == after && #[trigger] call_ensures(
                MediaInstallProtocol::<P>::apply_control::<F>,
                (protocol, MediaInstallControl::Cancel(cancellation), commit),
                outcome,
            ),
    ensures
        outcome is StaleRequest <==> cancellation.request_id != before.request_id,
        outcome is AlreadyTerminal <==> cancellation.request_id == before.request_id
            && before.state is Terminal,
        outcome is CancellationAccepted <==> cancellation.request_id == before.request_id
            && !(before.state is Terminal),
        outcome is CancellationAccepted ==> after.state is Terminal
            && after.port.published().terminal == Some(
            MediaInstallCompletion::Cancelled {
                request_id: before.request_id,
                cause: cancellation.cause,
            },
        ),
        !(outcome is CancellationAccepted) ==> after == before,
{
}

/// A request goes from its acceptance to its commit in order: it is not ready before it was marked,
/// and what is published then names the request.
pub proof fn law_request_is_ready_once_it_was_marked<P: MediaInstallPhaseCompletionPort>(
    request_id: MediaInstallRequestId,
    port: P,
    accepted: MediaInstallProtocol<P>,
    positioned: MediaInstallProtocol<P>,
    begun: MediaInstallProtocol<P>,
    begun_twice: MediaInstallProtocol<P>,
    ready_at_first: bool,
    early: bool,
    due: bool,
    due_twice: bool,
    not_begun: MediaInstallProtocol<P>,
)
    requires
        call_ensures(MediaInstallProtocol::<P>::accept, (request_id, port), accepted),
        call_ensures(MediaInstallProtocol::<P>::is_ready_to_commit, (&accepted,), ready_at_first),
        exists|protocol: &mut MediaInstallProtocol<P>|
            *protocol == accepted && *final(protocol) == not_begun && #[trigger] call_ensures(
                MediaInstallProtocol::<P>::begin_position_preparation,
                (protocol,),
                early,
            ),
        exists|protocol: &mut MediaInstallProtocol<P>|
            *protocol == accepted && *final(protocol) == positioned && #[trigger] call_ensures(
                MediaInstallProtocol::<P>::mark_ready_for_position_preparation,
                (protocol,),
                (),
            ),
        exists|protocol: &mut MediaInstallProtocol<P>|
            *protocol == positioned && *final(protocol) == begun && #[trigger] call_ensures(
                MediaInstallProtocol::<P>::begin_position_preparation,
                (protocol,),
                due,
            ),
        exists|protocol: &mut MediaInstallProtocol<P>|
            *protocol == begun && *final(protocol) == begun_twice && #[trigger] call_ensures(
                MediaInstallProtocol::<P>::begin_position_preparation,
                (protocol,),
                due_twice,
            ),
    ensures
        !ready_at_first && !early && due && !due_twice,
        not_begun == accepted,
        begun_twice == begun,
        positioned.port.published().ready_to_commit == Some(
            MediaInstallPhase::ReadyForPositionPreparation { request_id },
        ),
        begun.state is PositionPreparing,
{
}

/// The end of a request names it, however it ended.
pub proof fn law_completion_names_its_request(
    completion: MediaInstallCompletion,
    named: MediaInstallRequestId,
)
    requires
        call_ensures(MediaInstallCompletion::request_id, (&completion,), named),
    ensures
        completion is Installed ==> named == completion->Installed_request_id,
        completion is Failed ==> named == completion->Failed_request_id,
        completion is Cancelled ==> named == completion->Cancelled_request_id,
{
}

/// After an accepted authorization the receipt tells the instance exactly where its own request was
/// installed, and tells every other end apart.
pub proof fn law_receipt_tells_the_installed_instance(
    receipt: MediaInstallReceipt,
    before: MediaInstallSignalSlots,
    after: MediaInstallSignalSlots,
    result: Result<MediaInstanceId, AcceptedMediaInstallTerminalError>,
)
    requires
        exists|slots: &mut MediaInstallSignalSlots|
            *slots == before && *final(slots) == after && #[trigger] call_ensures(
                MediaInstallReceipt::take_required_installed_after_authorization,
                (&receipt, slots),
                result,
            ),
    ensures
        result is Ok <==> before.terminal is Some && before.terminal->0 is Installed
            && before.terminal->0->Installed_request_id == receipt.request_id,
        result is Ok ==> result->Ok_0 == before.terminal->0->media_instance_id,
        before.terminal is None <==> result is Err && result->Err_0 is MissingInstalled,
        result is Err && result->Err_0 is InstalledRequestMismatch <==> before.terminal is Some
            && before.terminal->0 is Installed && before.terminal->0->Installed_request_id
            != receipt.request_id,
        after.terminal is None,
        after.ready_to_commit == before.ready_to_commit,
{
}

/// A phase is taken before the end, each once.
pub proof fn law_phase_is_taken_before_the_end(
    before: MediaInstallSignalSlots,
    one: MediaInstallSignalSlots,
    two: MediaInstallSignalSlots,
    three: MediaInstallSignalSlots,
    first: Option<MediaInstallReceiptSignal>,
    second: Option<MediaInstallReceiptSignal>,
    third: Option<MediaInstallReceiptSignal>,
)
    requires
        before.ready_to_commit is Some,
        before.terminal is Some,
        exists|slots: &mut MediaInstallSignalSlots|
            *slots == before && *final(slots) == one && #[trigger] call_ensures(
                MediaInstallSignalSlots::take_signal,
                (slots,),
                first,
            ),
        exists|slots: &mut MediaInstallSignalSlots|
            *slots == one && *final(slots) == two && #[trigger] call_ensures(
                MediaInstallSignalSlots::take_signal,
                (slots,),
                second,
            ),
        exists|slots: &mut MediaInstallSignalSlots|
            *slots == two && *final(slots) == three && #[trigger] call_ensures(
                MediaInstallSignalSlots::take_signal,
                (slots,),
                third,
            ),
    ensures
        first == Some(MediaInstallReceiptSignal::ReadyToCommit(before.ready_to_commit->0)),
        second == Some(MediaInstallReceiptSignal::Terminal(before.terminal->0)),
        third is None,
{
}

/// A wait for a wakeup fails exactly where the owner is gone.
pub proof fn law_wait_fails_where_the_owner_is_gone(
    received: Result<(), ReceiveError>,
    woken: Result<(), MediaInstallReceiptWaitError>,
)
    requires
        call_ensures(MediaInstallReceipt::wakeup_of, (received,), woken),
    ensures
        received is Ok <==> woken is Ok,
        woken is Err ==> woken->Err_0 is MissingOwnerOutcome,
{
}

/// A receipt and its place share a channel with room for one wakeup, and nothing is published yet.
pub proof fn law_receipt_and_place_share_a_channel(
    request_id: MediaInstallRequestId,
    made: (MediaInstallReceipt, RequestOwnedMediaInstallPort),
)
    requires
        call_ensures(MediaInstallReceipt::new, (request_id,), made),
    ensures
        made.0.request_id == request_id,
        is_channel(made.1.waker(), made.0.signal_rx, 1),
        made.1.published().ready_to_commit is None,
        made.1.published().terminal is None,
{
}

/// Identities are handed out from one on, each once, and an identity is the number that was handed
/// out.
pub proof fn law_identities_are_handed_out_in_turn(
    made: IdentityAllocator,
    one: IdentityAllocator,
    two: IdentityAllocator,
    first: MediaInstanceId,
    second: MediaInstanceId,
    first_number: u64,
    second_number: u64,
)
    requires
        call_ensures(IdentityAllocator::new, (), made),
        exists|allocator: &mut IdentityAllocator|
            *allocator == made && *final(allocator) == one && #[trigger] call_ensures(
                MediaInstanceId::new_unique,
                (allocator,),
                first,
            ),
        exists|allocator: &mut IdentityAllocator|
            *allocator == one && *final(allocator) == two && #[trigger] call_ensures(
                MediaInstanceId::new_unique,
                (allocator,),
                second,
            ),
        call_ensures(MediaInstanceId::get, (first,), first_number),
        call_ensures(MediaInstanceId::get, (second,), second_number),
    ensures
        first_number == 1,
        second_number == 2,
        first != second,
{
}

/// The texts of what breaches an accepted authorization.
pub proof fn law_breaches_are_told(
    error: AcceptedMediaInstallTerminalError,
    described: &str,
    text: String,
    expected: MediaInstallRequestId,
    expected_text: String,
    installed: MediaInstallRequestId,
    installed_text: String,
)
    requires
        call_ensures(AcceptedMediaInstallTerminalError::message, (&error, described), text),
        call_ensures(MediaInstallRequestId::display, (&expected,), expected_text),
        call_ensures(MediaInstallRequestId::display, (&installed,), installed_text),
    ensures
        error == (AcceptedMediaInstallTerminalError::MissingInstalled { request_id: expected })
            ==> text@ == "accepted media install request "@ + expected_text@
            + " не содержит обязательный Installed terminal"@,
        error == (AcceptedMediaInstallTerminalError::InstalledRequestMismatch {
            expected_request_id: expected,
            installed_request_id: installed,
        }) ==> text@ == "Installed terminal request "@ + installed_text@
            + " не совпал с expected request "@ + expected_text@,
        error is UnexpectedCompletion ==> text@
            == "accepted authorization завершилась unexpected terminal: "@ + described@,
{
}

/// An identity is shown by the digits of its number.
pub proof fn law_identity_is_shown_by_its_number(
    instance: MediaInstanceId,
    text: String,
    request: MediaInstallRequestId,
    request_text: String,
)
    requires
        call_ensures(MediaInstanceId::display, (&instance,), text),
        call_ensures(MediaInstallRequestId::display, (&request,), request_text),
    ensures
        number_of(text@) == instance@,
        number_of(request_text@) == request@,
        forall|i: int| 0 <= i < text@.len() ==> '0' <= #[trigger] text@[i] <= '9',
        text@.len() > 1 ==> text@[0] != '0',
{
    lemma_digits(instance@ as nat);
    lemma_digits(request@ as nat);
}

} // verus!
