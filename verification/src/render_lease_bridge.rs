//! Frames on their way to the renderer and back.
//!
//! The worker publishes the latest frame in a slot, from which the renderer takes it. When the
//! renderer lets go of a frame, an acknowledgement goes back through a bounded queue. Where it
//! cannot get through, the texture is released at once, past the worker's account.
use crate::channel::{
    is_offered, is_offered_within, is_reported, report, send_within, try_send, SendFailure,
};
use crate::diagnostics::{
    bumped, PipelineLatencySampleSnapshot, PipelineLatencyStage, PipelineQueueDepthSnapshot,
    PlaybackDiagnostics, PlaybackDiagnosticsSnapshot,
};
use crate::media::{DecodedFrame, FrameMemoryPath, FrameResourceHandle};
use crate::time::{Duration, Instant};
use vstd::prelude::*;

verus! {

/// Room for acknowledgements of released frames.
pub const RENDER_RELEASE_CHANNEL_CAPACITY: usize = 512;

/// Room for samples of how long the renderer waited for a frame.
pub const RENDER_ACQUIRE_DIAGNOSTIC_CHANNEL_CAPACITY: usize = 256;

/// Room for samples of how long presentation took.
pub const RENDER_TIMING_DIAGNOSTIC_CHANNEL_CAPACITY: usize = 256;

/// Room for samples of how long the renderer waited for the resource pool.
pub const RENDER_RESOURCE_DIAGNOSTIC_CHANNEL_CAPACITY: usize = 256;

/// Room for samples of reused frames.
pub const RENDER_RESOURCE_REUSE_DIAGNOSTIC_CHANNEL_CAPACITY: usize = 256;

/// How long the renderer waits for room for an acknowledgement, in milliseconds.
pub const RENDER_RELEASE_SEND_TIMEOUT_MILLIS: u64 = 2;

/// What tells one published frame from another.
#[derive(Debug, Clone, Copy, PartialEq, Eq, Structural)]
pub struct PresentFrameIdentity {
    /// Generation of render resources.
    pub render_generation: u64,
    /// Seek generation of the frame.
    pub decoded_generation: u64,
    /// Timestamp of the frame.
    pub pts: Duration,
    /// Texture of the frame.
    pub resource_handle: FrameResourceHandle,
}

impl PresentFrameIdentity {
    /// The identity of a frame in a generation of render resources.
    pub open spec fn of<M>(render_generation: u64, frame: DecodedFrame<M>) -> Self {
        PresentFrameIdentity {
            render_generation,
            decoded_generation: frame.generation,
            pts: frame.pts,
            resource_handle: frame.resource_handle,
        }
    }

    /// The identity of a frame in a generation of render resources.
    pub fn from_decoded_frame<M>(render_generation: u64, frame: &DecodedFrame<M>) -> (r: Self)
        ensures
            r == Self::of(render_generation, *frame),
    {
        PresentFrameIdentity {
            render_generation,
            decoded_generation: frame.generation,
            pts: frame.pts,
            resource_handle: frame.resource_handle,
        }
    }
}

/// What a provider of textures answers.
#[derive(Debug, PartialEq, Eq)]
pub enum PresentFrameResourceProviderLookup<T> {
    /// The texture.
    Ready {
        /// Texture.
        resource: T,
        /// Wait for the lock of the resource pool.
        resource_pool_lock_wait: Duration,
    },
    /// There is no such texture.
    Missing {
        /// Wait for the lock of the resource pool.
        resource_pool_lock_wait: Duration,
    },
    /// The lock of the resource pool is taken.
    Busy {
        /// Wait for the lock of the resource pool.
        resource_pool_lock_wait: Duration,
    },
    /// The resource pool is beyond repair.
    Fatal {
        /// Wait for the lock of the resource pool.
        resource_pool_lock_wait: Duration,
    },
}

/// What a lookup of a frame's texture gives.
#[derive(Debug, PartialEq, Eq)]
pub enum VideoPresentFrameResourceLookup<T> {
    /// The texture.
    Ready(T),
    /// There is no such texture.
    Missing,
    /// The lock of the resource pool is taken.
    Busy,
    /// The resource pool is beyond repair.
    Fatal,
}

/// Access to the textures of a decoder. What it answers depends on the machine, so nothing is
/// promised of it.
pub trait PresentFrameResourceProvider {
    /// A texture.
    type Resource;

    /// Looks a texture up without waiting.
    fn try_resource_lookup(&self, handle: FrameResourceHandle) -> PresentFrameResourceProviderLookup<
        Self::Resource,
    >;

    /// Gives a texture back.
    fn release_frame(&self, handle: FrameResourceHandle);
}

/// How long the renderer waited for a frame.
#[derive(Debug, Clone, Copy, PartialEq, Eq, Structural)]
pub struct RenderAcquireSample {
    /// Wait.
    pub wait: Duration,
}

/// How long presentation took.
#[derive(Debug, Clone, Copy, PartialEq, Eq, Structural)]
pub struct RenderTimingSample {
    /// From submission to the end of presentation.
    pub submit_present_elapsed: Duration,
}

/// How long the renderer waited for the resource pool.
#[derive(Debug, Clone, Copy, PartialEq, Eq, Structural)]
pub struct RenderResourceLockSample {
    /// Wait.
    pub wait: Duration,
    /// Whether the lock was taken.
    pub lookup_was_busy: bool,
    /// Timestamp of the frame.
    pub pts: Option<Duration>,
    /// Way of the frame to the renderer.
    pub memory_path: Option<FrameMemoryPath>,
}

/// The renderer showed the former frame again.
#[derive(Debug, Clone, Copy, PartialEq, Eq, Structural)]
pub struct RenderResourcePreviousFrameReuseSample;

/// The wait that a provider reports.
pub open spec fn lookup_wait<T>(lookup: PresentFrameResourceProviderLookup<T>) -> Duration {
    match lookup {
        PresentFrameResourceProviderLookup::Ready { resource_pool_lock_wait, .. } => {
            resource_pool_lock_wait
        },
        PresentFrameResourceProviderLookup::Missing { resource_pool_lock_wait } => {
            resource_pool_lock_wait
        },
        PresentFrameResourceProviderLookup::Busy { resource_pool_lock_wait } => {
            resource_pool_lock_wait
        },
        PresentFrameResourceProviderLookup::Fatal { resource_pool_lock_wait } => {
            resource_pool_lock_wait
        },
    }
}

/// What a provider's answer gives the renderer.
pub open spec fn lookup_result<T>(
    lookup: PresentFrameResourceProviderLookup<T>,
) -> VideoPresentFrameResourceLookup<T> {
    match lookup {
        PresentFrameResourceProviderLookup::Ready { resource, .. } => {
            VideoPresentFrameResourceLookup::Ready(resource)
        },
        PresentFrameResourceProviderLookup::Missing { .. } => {
            VideoPresentFrameResourceLookup::Missing
        },
        PresentFrameResourceProviderLookup::Busy { .. } => VideoPresentFrameResourceLookup::Busy,
        PresentFrameResourceProviderLookup::Fatal { .. } => VideoPresentFrameResourceLookup::Fatal,
    }
}

/// What a provider's answer gives the renderer, and the sample that goes to the worker. Only a
/// lock that was taken counts as busy: an error is not.
pub fn observed_lookup<T>(
    lookup: PresentFrameResourceProviderLookup<T>,
    pts: Option<Duration>,
    memory_path: Option<FrameMemoryPath>,
) -> (r: (VideoPresentFrameResourceLookup<T>, RenderResourceLockSample))
    ensures
        r.0 == lookup_result(lookup),
        r.1 == (RenderResourceLockSample {
            wait: lookup_wait(lookup),
            lookup_was_busy: lookup is Busy,
            pts,
            memory_path,
        }),
{
    match lookup {
        PresentFrameResourceProviderLookup::Ready { resource, resource_pool_lock_wait } => (
            VideoPresentFrameResourceLookup::Ready(resource),
            RenderResourceLockSample {
                wait: resource_pool_lock_wait,
                lookup_was_busy: false,
                pts,
                memory_path,
            },
        ),
        PresentFrameResourceProviderLookup::Missing { resource_pool_lock_wait } => (
            VideoPresentFrameResourceLookup::Missing,
            RenderResourceLockSample {
                wait: resource_pool_lock_wait,
                lookup_was_busy: false,
                pts,
                memory_path,
            },
        ),
        PresentFrameResourceProviderLookup::Busy { resource_pool_lock_wait } => (
            VideoPresentFrameResourceLookup::Busy,
            RenderResourceLockSample {
                wait: resource_pool_lock_wait,
                lookup_was_busy: true,
                pts,
                memory_path,
            },
        ),
        PresentFrameResourceProviderLookup::Fatal { resource_pool_lock_wait } => (
            VideoPresentFrameResourceLookup::Fatal,
            RenderResourceLockSample {
                wait: resource_pool_lock_wait,
                lookup_was_busy: false,
                pts,
                memory_path,
            },
        ),
    }
}

/// A frame that the session leases to the renderer.
#[derive(Debug)]
pub struct LeasedPresentFrame<P, M> {
    /// Generation of render resources.
    pub render_generation: u64,
    /// Frame.
    pub frame: DecodedFrame<M>,
    /// Access to its texture.
    pub resource_provider: P,
    /// Whether the frame lies off the current timeline.
    pub stale: bool,
}

/// How the renderer gets at a frame's texture.
#[derive(Debug, Clone, Copy, PartialEq, Eq, Structural)]
pub enum VideoPresentFrameResourceKind {
    /// The decoder's surface is imported without a copy.
    DmaBufZeroCopy,
    /// The frame was uploaded from host memory.
    HostUpload,
}

/// What the renderer has to know of a frame's texture.
#[derive(Debug, Clone, Copy, PartialEq, Eq, Structural)]
pub struct PresentFrameResourceDescriptor {
    /// Generation of render resources.
    pub render_generation: u64,
    /// Texture.
    pub resource_handle: FrameResourceHandle,
    /// Way of the frame to the renderer.
    pub memory_path: FrameMemoryPath,
}

impl PresentFrameResourceDescriptor {
    /// How the renderer gets at the texture: by the way that the frame took.
    pub fn kind(&self) -> (r: VideoPresentFrameResourceKind)
        ensures
            r == match self.memory_path {
                FrameMemoryPath::DmaBufZeroCopy => VideoPresentFrameResourceKind::DmaBufZeroCopy,
                FrameMemoryPath::HostUpload => VideoPresentFrameResourceKind::HostUpload,
            },
    {
        match self.memory_path {
            FrameMemoryPath::DmaBufZeroCopy => VideoPresentFrameResourceKind::DmaBufZeroCopy,
            FrameMemoryPath::HostUpload => VideoPresentFrameResourceKind::HostUpload,
        }
    }
}

/// A frame in the hands of the renderer.
#[derive(Debug)]
pub struct VideoFrameLease<P, M> {
    /// Generation of render resources.
    pub render_generation: u64,
    /// Frame.
    pub frame: DecodedFrame<M>,
    /// Access to its texture, where there is one.
    pub resource_provider: Option<P>,
    /// Whether the frame lies off the current timeline.
    pub stale: bool,
    /// Whether the renderer has used the frame.
    pub submitted_to_renderer: bool,
}

impl<P, M> VideoFrameLease<P, M> {
    /// A lease of a frame that the renderer has not used yet.
    pub fn new(
        render_generation: u64,
        frame: DecodedFrame<M>,
        resource_provider: Option<P>,
    ) -> (r: Self)
        ensures
            r == (VideoFrameLease {
                render_generation,
                frame,
                resource_provider,
                stale: false,
                submitted_to_renderer: false,
            }),
    {
        VideoFrameLease {
            render_generation,
            frame,
            resource_provider,
            stale: false,
            submitted_to_renderer: false,
        }
    }

    /// The lease of a frame that the session hands out.
    pub fn from_leased_frame(leased_frame: LeasedPresentFrame<P, M>) -> (r: Self)
        ensures
            r == (VideoFrameLease {
                render_generation: leased_frame.render_generation,
                frame: leased_frame.frame,
                resource_provider: Some(leased_frame.resource_provider),
                stale: leased_frame.stale,
                submitted_to_renderer: false,
            }),
    {
        VideoFrameLease {
            render_generation: leased_frame.render_generation,
            frame: leased_frame.frame,
            resource_provider: Some(leased_frame.resource_provider),
            stale: leased_frame.stale,
            submitted_to_renderer: false,
        }
    }

    /// What tells the frame from others.
    pub fn identity(&self) -> (r: PresentFrameIdentity)
        ensures
            r == PresentFrameIdentity::of(self.render_generation, self.frame),
    {
        PresentFrameIdentity::from_decoded_frame(self.render_generation, &self.frame)
    }

    /// What the renderer has to know of the frame's texture.
    pub fn resource_descriptor(&self) -> (r: PresentFrameResourceDescriptor)
        ensures
            r == (PresentFrameResourceDescriptor {
                render_generation: self.render_generation,
                resource_handle: self.frame.resource_handle,
                memory_path: self.frame.memory_path,
            }),
    {
        PresentFrameResourceDescriptor {
            render_generation: self.render_generation,
            resource_handle: self.frame.resource_handle,
            memory_path: self.frame.memory_path,
        }
    }

    /// The renderer has used the frame.
    pub fn mark_submitted_to_renderer(&mut self)
        ensures
            *final(self) == (VideoFrameLease { submitted_to_renderer: true, ..*old(self) }),
    {
        self.submitted_to_renderer = true;
    }

    /// The sample of a lookup that the renderer itself made.
    pub fn resource_lookup_sample(&self, wait: Duration, lookup_was_busy: bool) -> (r:
        RenderResourceLockSample)
        ensures
            r == (RenderResourceLockSample {
                wait,
                lookup_was_busy,
                pts: Some(self.frame.pts),
                memory_path: Some(self.frame.memory_path),
            }),
    {
        RenderResourceLockSample {
            wait,
            lookup_was_busy,
            pts: Some(self.frame.pts),
            memory_path: Some(self.frame.memory_path),
        }
    }

    /// Reports a lookup that the renderer itself made.
    pub fn report_resource_lookup_sample(
        &self,
        diagnostics_sink: &RenderLeaseDiagnosticsSink,
        wait: Duration,
        lookup_was_busy: bool,
    )
        ensures
            is_reported(
                diagnostics_sink.queue(),
                (RenderResourceLockSample {
                    wait,
                    lookup_was_busy,
                    pts: Some(self.frame.pts),
                    memory_path: Some(self.frame.memory_path),
                }),
            ),
    {
        let sample = self.resource_lookup_sample(wait, lookup_was_busy);
        diagnostics_sink.report_resource_lookup_sample(sample);
    }

    /// Ends the lease.
    pub fn into_release(self, released_at: Instant) -> (r: RenderLeaseRelease<P>)
        ensures
            r == (RenderLeaseRelease {
                render_generation: self.render_generation,
                resource_handle: self.frame.resource_handle,
                resource_provider: self.resource_provider,
                submitted_to_renderer: self.submitted_to_renderer,
                released_at,
            }),
    {
        RenderLeaseRelease {
            render_generation: self.render_generation,
            resource_handle: self.frame.resource_handle,
            resource_provider: self.resource_provider,
            submitted_to_renderer: self.submitted_to_renderer,
            released_at,
        }
    }
}

impl<P: PresentFrameResourceProvider, M> VideoFrameLease<P, M> {
    /// Looks the frame's texture up. Without access to it there is none, and no sample.
    pub fn try_resource_lookup(&self) -> (r: (
        VideoPresentFrameResourceLookup<P::Resource>,
        Option<RenderResourceLockSample>,
    ))
        ensures
            match self.resource_provider {
                None => r.0 is Missing && r.1 is None,
                Some(provider) => exists|lookup: PresentFrameResourceProviderLookup<P::Resource>|
                    #[trigger] call_ensures(
                        <P as PresentFrameResourceProvider>::try_resource_lookup,
                        (&provider, self.frame.resource_handle),
                        lookup,
                    ) && r.0 == lookup_result(lookup) && r.1 == Some(
                        RenderResourceLockSample {
                            wait: lookup_wait(lookup),
                            lookup_was_busy: lookup is Busy,
                            pts: Some(self.frame.pts),
                            memory_path: Some(self.frame.memory_path),
                        },
                    ),
            },
    {
        match &self.resource_provider {
            None => (VideoPresentFrameResourceLookup::Missing, None),
            Some(provider) => {
                let lookup = provider.try_resource_lookup(self.frame.resource_handle);
                let observed = observed_lookup(
                    lookup,
                    Some(self.frame.pts),
                    Some(self.frame.memory_path),
                );
                (observed.0, Some(observed.1))
            },
        }
    }
}

/// What came of an attempt to take the latest frame.
#[derive(Debug)]
pub enum LatestPresentFrameAcquire<L> {
    /// The frame.
    Acquired(L),
    /// There is none.
    Empty,
    /// The worker is at the slot.
    Busy,
}

impl<L> LatestPresentFrameAcquire<L> {
    /// What was found in the slot, or nothing where the slot could not be entered.
    pub fn from_slot(slot: Option<Option<L>>) -> (r: Self)
        ensures
            r == match slot {
                None => LatestPresentFrameAcquire::Busy,
                Some(None) => LatestPresentFrameAcquire::Empty,
                Some(Some(frame)) => LatestPresentFrameAcquire::Acquired(frame),
            },
    {
        match slot {
            None => LatestPresentFrameAcquire::Busy,
            Some(None) => LatestPresentFrameAcquire::Empty,
            Some(Some(frame)) => LatestPresentFrameAcquire::Acquired(frame),
        }
    }

    /// The frame, where one was taken. Otherwise the renderer keeps what it has.
    pub fn frame(self) -> (r: Option<L>)
        ensures
            r == match self {
                LatestPresentFrameAcquire::Acquired(frame) => Some(frame),
                _ => None,
            },
    {
        match self {
            LatestPresentFrameAcquire::Acquired(frame) => Some(frame),
            LatestPresentFrameAcquire::Empty | LatestPresentFrameAcquire::Busy => None,
        }
    }

    /// The name of the outcome for traces.
    pub fn label(&self) -> (r: &'static str)
        ensures
            r@ == match self {
                LatestPresentFrameAcquire::Acquired(_) => "acquired"@,
                LatestPresentFrameAcquire::Empty => "empty"@,
                LatestPresentFrameAcquire::Busy => "busy"@,
            },
    {
        match self {
            LatestPresentFrameAcquire::Acquired(_) => "acquired",
            LatestPresentFrameAcquire::Empty => "empty",
            LatestPresentFrameAcquire::Busy => "busy",
        }
    }
}

/// A frame that the worker has published. `L` is its lease.
#[derive(Debug)]
pub struct PublishedFrame<L> {
    /// What tells it from other frames.
    pub identity: PresentFrameIdentity,
    /// Its lease.
    pub lease: L,
}

/// The slot in which the worker publishes the latest frame. `L` is the lease of a frame.
#[derive(Debug)]
pub struct LatestPresentFrameSlot<L> {
    /// Frame, with its lease.
    pub latest_frame: Option<PublishedFrame<L>>,
}

/// What the worker does to the slot.
#[derive(Debug, Clone, Copy, PartialEq, Eq, Structural)]
pub enum PublishDecision {
    /// Empty it.
    ClearSlot,
    /// Leave it: the same frame is there.
    KeepPublished,
    /// Put a new lease there.
    PublishNew,
}

impl<L> LatestPresentFrameSlot<L> {
    /// An empty slot.
    pub fn new() -> (r: Self)
        ensures
            r.latest_frame is None,
    {
        LatestPresentFrameSlot { latest_frame: None }
    }

    /// The identity of the published frame.
    pub open spec fn published(self) -> Option<PresentFrameIdentity> {
        match self.latest_frame {
            Some(published) => Some(published.identity),
            None => None,
        }
    }

    /// Publishes a frame in the place of another one, which is returned and released by the
    /// caller.
    pub fn publish(&mut self, frame: Option<PublishedFrame<L>>) -> (r: Option<PublishedFrame<L>>)
        ensures
            r == old(self).latest_frame,
            final(self).latest_frame == frame,
    {
        let previous = self.latest_frame.take();
        self.latest_frame = frame;
        previous
    }

    /// Empties the slot and returns what was there.
    pub fn clear(&mut self) -> (r: Option<PublishedFrame<L>>)
        ensures
            r == old(self).latest_frame,
            final(self).latest_frame is None,
    {
        self.publish(None)
    }

    /// The identity of the published frame.
    pub fn current_identity(&self) -> (r: Option<PresentFrameIdentity>)
        ensures
            r == self.published(),
    {
        match &self.latest_frame {
            Some(published) => Some(published.identity),
            None => None,
        }
    }

    /// What the worker does to the slot for its own present frame.
    pub open spec fn decision_for(
        self,
        current_identity: Option<PresentFrameIdentity>,
    ) -> PublishDecision {
        if current_identity is None {
            PublishDecision::ClearSlot
        } else if self.published() == current_identity {
            PublishDecision::KeepPublished
        } else {
            PublishDecision::PublishNew
        }
    }

    /// What the worker does to the slot for its own present frame.
    pub fn publish_decision(&self, current_identity: Option<PresentFrameIdentity>) -> (r:
        PublishDecision)
        ensures
            r == self.decision_for(current_identity),
    {
        match current_identity {
            None => PublishDecision::ClearSlot,
            Some(current) => {
                let is_published = match self.current_identity() {
                    Some(published) => published == current,
                    None => false,
                };
                if is_published {
                    PublishDecision::KeepPublished
                } else {
                    PublishDecision::PublishNew
                }
            },
        }
    }
}

/// The renderer has let go of a frame.
#[derive(Debug)]
pub struct RenderLeaseRelease<P> {
    /// Generation of render resources.
    pub render_generation: u64,
    /// Texture.
    pub resource_handle: FrameResourceHandle,
    /// Access to the texture.
    pub resource_provider: Option<P>,
    /// Whether the renderer has used the frame.
    pub submitted_to_renderer: bool,
    /// When it let go.
    pub released_at: Instant,
}

/// Why an acknowledgement did not get through.
#[derive(Debug, Clone, Copy, PartialEq, Eq, Structural)]
pub enum VideoFrameReleaseFallbackReason {
    /// The queue stayed full.
    Backpressure,
    /// The worker is gone.
    Disconnected,
}

/// What became of a frame that the renderer let go of.
#[derive(Debug, Clone, Copy, PartialEq, Eq, Structural)]
pub enum VideoFrameReleaseOutcome {
    /// The acknowledgement is on its way to the worker.
    Accepted,
    /// The texture was released past the worker.
    FallbackReleased {
        /// Why.
        reason: VideoFrameReleaseFallbackReason,
    },
    /// The texture could not be released.
    FallbackUnavailable {
        /// Why the worker could not be asked.
        reason: VideoFrameReleaseFallbackReason,
    },
}

impl<P> RenderLeaseRelease<P> {
    /// What becomes of the texture where the worker cannot be asked.
    pub open spec fn fallback_outcome(
        self,
        reason: VideoFrameReleaseFallbackReason,
    ) -> VideoFrameReleaseOutcome {
        if self.resource_provider is Some {
            VideoFrameReleaseOutcome::FallbackReleased { reason }
        } else {
            VideoFrameReleaseOutcome::FallbackUnavailable { reason }
        }
    }
}

impl<P: PresentFrameResourceProvider> RenderLeaseRelease<P> {
    /// Whether the texture was released with the access to it, where there is one.
    pub open spec fn released_past_worker(self) -> bool {
        self.resource_provider matches Some(provider) ==> call_ensures(
            <P as PresentFrameResourceProvider>::release_frame,
            (&provider, self.resource_handle),
            (),
        )
    }

    /// Releases the texture past the worker, where there is access to it.
    pub fn release_without_worker(self, reason: VideoFrameReleaseFallbackReason) -> (r:
        VideoFrameReleaseOutcome)
        ensures
            r == self.fallback_outcome(reason),
            self.released_past_worker(),
    {
        match &self.resource_provider {
            Some(resource_provider) => {
                resource_provider.release_frame(self.resource_handle);
                VideoFrameReleaseOutcome::FallbackReleased { reason }
            },
            None => VideoFrameReleaseOutcome::FallbackUnavailable { reason },
        }
    }
}

/// The way of acknowledgements back to the worker.
#[derive(Debug)]
#[verifier::reject_recursive_types(P)]
pub struct RenderLeaseReleaseSink<P> {
    release_tx: crossbeam_channel::Sender<RenderLeaseRelease<P>>,
}

impl<P: PresentFrameResourceProvider> RenderLeaseReleaseSink<P> {
    /// The queue.
    pub closed spec fn queue(self) -> crossbeam_channel::Sender<RenderLeaseRelease<P>> {
        self.release_tx
    }

    /// The way through a queue.
    pub fn new(release_tx: crossbeam_channel::Sender<RenderLeaseRelease<P>>) -> (r: Self)
        ensures
            r.queue() == release_tx,
    {
        RenderLeaseReleaseSink { release_tx }
    }

    /// Whether an outcome can come of a frame with or without access to its texture: nothing is
    /// dropped silently, and the texture is released past the worker exactly where there is
    /// access to it.
    pub open spec fn is_outcome(provided: bool, outcome: VideoFrameReleaseOutcome) -> bool {
        match outcome {
            VideoFrameReleaseOutcome::Accepted => true,
            VideoFrameReleaseOutcome::FallbackReleased { .. } => provided,
            VideoFrameReleaseOutcome::FallbackUnavailable { .. } => !provided,
        }
    }

    /// What becomes of a frame whose acknowledgement was sent, or came back.
    pub open spec fn send_outcome(sent: Result<(), SendFailure<RenderLeaseRelease<P>>>) ->
        VideoFrameReleaseOutcome {
        match sent {
            Ok(()) => VideoFrameReleaseOutcome::Accepted,
            Err(SendFailure::Full(release)) => release.fallback_outcome(
                VideoFrameReleaseFallbackReason::Backpressure,
            ),
            Err(SendFailure::Disconnected(release)) => release.fallback_outcome(
                VideoFrameReleaseFallbackReason::Disconnected,
            ),
        }
    }

    /// What becomes of a frame whose acknowledgement was sent, or came back: its texture is
    /// released past the worker.
    pub fn outcome_of_send(sent: Result<(), SendFailure<RenderLeaseRelease<P>>>) -> (r:
        VideoFrameReleaseOutcome)
        ensures
            r == Self::send_outcome(sent),
            match sent {
                Ok(()) => true,
                Err(SendFailure::Full(release)) => release.released_past_worker(),
                Err(SendFailure::Disconnected(release)) => release.released_past_worker(),
            },
    {
        match sent {
            Ok(()) => VideoFrameReleaseOutcome::Accepted,
            Err(SendFailure::Full(release)) => release.release_without_worker(
                VideoFrameReleaseFallbackReason::Backpressure,
            ),
            Err(SendFailure::Disconnected(release)) => release.release_without_worker(
                VideoFrameReleaseFallbackReason::Disconnected,
            ),
        }
    }

    /// Sends an acknowledgement, waits a short while for room where the queue is full, and
    /// releases the texture past the worker where that does not help.
    pub fn release_frame(&self, release: RenderLeaseRelease<P>) -> (r: VideoFrameReleaseOutcome)
        ensures
            exists|sent: Result<(), SendFailure<RenderLeaseRelease<P>>>| #[trigger]
                is_offered(self.queue(), release, sent) && if sent matches Err(SendFailure::Full(_)) {
                    exists|sent_late: Result<(), SendFailure<RenderLeaseRelease<P>>>| #[trigger]
                        is_offered_within(
                            self.queue(),
                            release,
                            RENDER_RELEASE_SEND_TIMEOUT_MILLIS,
                            sent_late,
                        ) && r == Self::send_outcome(sent_late)
                } else {
                    r == Self::send_outcome(sent)
                },
            Self::is_outcome(release.resource_provider is Some, r),
            !(r is Accepted) ==> release.released_past_worker(),
    {
        let sent = try_send(&self.release_tx, release);
        assert(is_offered(self.queue(), release, sent));
        match sent {
            Err(SendFailure::Full(release)) => Self::outcome_of_send(
                send_within(&self.release_tx, release, RENDER_RELEASE_SEND_TIMEOUT_MILLIS),
            ),
            sent => Self::outcome_of_send(sent),
        }
    }
}

/// The way of a lease's lookup samples to the worker. A sample that finds no room is dropped.
#[derive(Debug)]
pub struct RenderLeaseDiagnosticsSink {
    resource_lock_sample_tx: crossbeam_channel::Sender<RenderResourceLockSample>,
}

impl RenderLeaseDiagnosticsSink {
    /// The queue.
    pub closed spec fn queue(self) -> crossbeam_channel::Sender<RenderResourceLockSample> {
        self.resource_lock_sample_tx
    }

    /// The way through a queue.
    pub fn new(resource_lock_sample_tx: crossbeam_channel::Sender<RenderResourceLockSample>) -> (r:
        Self)
        ensures
            r.queue() == resource_lock_sample_tx,
    {
        RenderLeaseDiagnosticsSink { resource_lock_sample_tx }
    }

    /// Offers a sample to the worker without waiting.
    pub fn report_resource_lookup_sample(&self, sample: RenderResourceLockSample)
        ensures
            is_reported(self.queue(), sample),
    {
        report(&self.resource_lock_sample_tx, sample);
    }
}

/// The renderer's ways to report to the worker. Nothing is waited for, and a sample that finds no
/// room is dropped.
#[derive(Debug)]
pub struct RenderSampleReporter {
    acquire_sample_tx: crossbeam_channel::Sender<RenderAcquireSample>,
    timing_sample_tx: crossbeam_channel::Sender<RenderTimingSample>,
    reuse_sample_tx: crossbeam_channel::Sender<RenderResourcePreviousFrameReuseSample>,
}

impl RenderSampleReporter {
    /// The queue of waits for a frame.
    pub closed spec fn acquire_queue(self) -> crossbeam_channel::Sender<RenderAcquireSample> {
        self.acquire_sample_tx
    }

    /// The queue of presentation times.
    pub closed spec fn timing_queue(self) -> crossbeam_channel::Sender<RenderTimingSample> {
        self.timing_sample_tx
    }

    /// The queue of reused frames.
    pub closed spec fn reuse_queue(self) -> crossbeam_channel::Sender<
        RenderResourcePreviousFrameReuseSample,
    > {
        self.reuse_sample_tx
    }

    /// The ways through three queues.
    pub fn new(
        acquire_sample_tx: crossbeam_channel::Sender<RenderAcquireSample>,
        timing_sample_tx: crossbeam_channel::Sender<RenderTimingSample>,
        reuse_sample_tx: crossbeam_channel::Sender<RenderResourcePreviousFrameReuseSample>,
    ) -> (r: Self)
        ensures
            r.acquire_queue() == acquire_sample_tx,
            r.timing_queue() == timing_sample_tx,
            r.reuse_queue() == reuse_sample_tx,
    {
        RenderSampleReporter { acquire_sample_tx, timing_sample_tx, reuse_sample_tx }
    }

    /// Reports how long the renderer waited for a frame.
    pub fn report_render_acquire_sample(&self, wait: Duration)
        ensures
            is_reported(self.acquire_queue(), RenderAcquireSample { wait }),
    {
        report(&self.acquire_sample_tx, RenderAcquireSample { wait });
    }

    /// Reports how long presentation took.
    pub fn report_gpu_submit_present_latency(&self, submit_present_elapsed: Duration)
        ensures
            is_reported(self.timing_queue(), RenderTimingSample { submit_present_elapsed }),
    {
        report(&self.timing_sample_tx, RenderTimingSample { submit_present_elapsed });
    }

    /// Reports that the former frame was shown again.
    pub fn report_resource_previous_frame_reuse(&self)
        ensures
            is_reported(self.reuse_queue(), RenderResourcePreviousFrameReuseSample),
    {
        report(&self.reuse_sample_tx, RenderResourcePreviousFrameReuseSample);
    }
}

/// Takes note of how long the renderer waited for a frame.
pub fn record_acquire_sample(
    diagnostics: &mut PlaybackDiagnostics,
    sample: RenderAcquireSample,
    queues: PipelineQueueDepthSnapshot,
)
    requires
        old(diagnostics).wf(),
    ensures
        final(diagnostics).wf(),
        final(diagnostics).history() == old(diagnostics).history().recorded(
            PipelineLatencySampleSnapshot {
                stage: PipelineLatencyStage::RenderAcquire,
                duration: sample.wait,
                pts: None,
                memory_path: None,
                queues,
            },
        ),
        final(diagnostics).snapshot == (PlaybackDiagnosticsSnapshot {
            worst_latencies: final(diagnostics).latency_counters.shown(),
            queues,
            ..old(diagnostics).snapshot
        }),
{
    diagnostics.record_latency(
        PipelineLatencyStage::RenderAcquire,
        sample.wait,
        None,
        None,
        queues,
    );
}

/// Takes note of how long presentation took.
pub fn record_timing_sample(
    diagnostics: &mut PlaybackDiagnostics,
    sample: RenderTimingSample,
    queues: PipelineQueueDepthSnapshot,
)
    requires
        old(diagnostics).wf(),
    ensures
        final(diagnostics).wf(),
        final(diagnostics).history() == old(diagnostics).history().recorded(
            PipelineLatencySampleSnapshot {
                stage: PipelineLatencyStage::GpuSubmitPresent,
                duration: sample.submit_present_elapsed,
                pts: None,
                memory_path: None,
                queues,
            },
        ),
        final(diagnostics).snapshot == (PlaybackDiagnosticsSnapshot {
            worst_latencies: final(diagnostics).latency_counters.shown(),
            queues,
            ..old(diagnostics).snapshot
        }),
{
    diagnostics.record_latency(
        PipelineLatencyStage::GpuSubmitPresent,
        sample.submit_present_elapsed,
        None,
        None,
        queues,
    );
}

/// Takes note of how long the renderer waited for the resource pool, and of a lock that was
/// taken.
pub fn record_resource_lock_sample(
    diagnostics: &mut PlaybackDiagnostics,
    sample: RenderResourceLockSample,
    queues: PipelineQueueDepthSnapshot,
)
    requires
        old(diagnostics).wf(),
    ensures
        final(diagnostics).wf(),
        final(diagnostics).history() == old(diagnostics).history().recorded(
            PipelineLatencySampleSnapshot {
                stage: PipelineLatencyStage::RenderResourceLockWait,
                duration: sample.wait,
                pts: sample.pts,
                memory_path: sample.memory_path,
                queues,
            },
        ),
        final(diagnostics).snapshot == (PlaybackDiagnosticsSnapshot {
            worst_latencies: final(diagnostics).latency_counters.shown(),
            render_resource_lock_busy_count: if sample.lookup_was_busy {
                bumped(old(diagnostics).snapshot.render_resource_lock_busy_count)
            } else {
                old(diagnostics).snapshot.render_resource_lock_busy_count
            },
            queues,
            ..old(diagnostics).snapshot
        }),
{
    diagnostics.record_latency(
        PipelineLatencyStage::RenderResourceLockWait,
        sample.wait,
        sample.pts,
        sample.memory_path,
        queues,
    );
    if sample.lookup_was_busy {
        diagnostics.record_render_resource_lock_busy(queues);
    }
}

/// Takes note of how long an acknowledgement was on its way.
pub fn record_release_ack_latency(
    diagnostics: &mut PlaybackDiagnostics,
    released_at: Instant,
    now: Instant,
    queues: PipelineQueueDepthSnapshot,
)
    requires
        old(diagnostics).wf(),
    ensures
        final(diagnostics).wf(),
        exists|latency: Duration|
            latency@ == (if now@ > released_at@ {
                now@ - released_at@
            } else {
                0
            }) && final(diagnostics).history() == #[trigger] old(diagnostics).history().recorded(
                PipelineLatencySampleSnapshot {
                    stage: PipelineLatencyStage::ReleaseAcknowledgement,
                    duration: latency,
                    pts: None,
                    memory_path: None,
                    queues,
                },
            ),
        final(diagnostics).snapshot == (PlaybackDiagnosticsSnapshot {
            worst_latencies: final(diagnostics).latency_counters.shown(),
            queues,
            ..old(diagnostics).snapshot
        }),
{
    let latency = now.saturating_duration_since(released_at);
    diagnostics.record_latency(
        PipelineLatencyStage::ReleaseAcknowledgement,
        latency,
        None,
        None,
        queues,
    );
}

/// Publishing what the decision asks for leaves the worker's present frame published: nothing
/// where there is none, and otherwise the frame with its identity.
pub proof fn law_slot_follows_the_present_frame<L>(
    slot: LatestPresentFrameSlot<L>,
    present: Option<PresentFrameIdentity>,
    published: LatestPresentFrameSlot<L>,
    decision: PublishDecision,
)
    requires
        decision == slot.decision_for(present),
        match decision {
            PublishDecision::ClearSlot => published.latest_frame is None,
            PublishDecision::KeepPublished => published == slot,
            PublishDecision::PublishNew => published.latest_frame matches Some(frame)
                && Some(frame.identity) == present,
        },
    ensures
        published.published() == present,
{
}

/// Two frames have one identity exactly where their generations, timestamps and textures agree.
pub proof fn law_identity_tells_frames_apart<M>(
    generation: u64,
    frame: DecodedFrame<M>,
    other_generation: u64,
    other: DecodedFrame<M>,
    identity: PresentFrameIdentity,
    other_identity: PresentFrameIdentity,
)
    requires
        call_ensures(
            PresentFrameIdentity::from_decoded_frame::<M>,
            (generation, &frame),
            identity,
        ),
        call_ensures(
            PresentFrameIdentity::from_decoded_frame::<M>,
            (other_generation, &other),
            other_identity,
        ),
    ensures
        identity == other_identity <==> generation == other_generation && frame.generation
            == other.generation && frame.pts == other.pts && frame.resource_handle
            == other.resource_handle,
        identity.render_generation == generation,
{
}

/// A provider's answer is passed on: the texture itself where there is one, and every other answer
/// as what it is. The wait that it reports becomes the sample's, and only a lock that was taken
/// counts as busy.
pub proof fn law_lookup_is_passed_on_and_timed<T>(
    lookup: PresentFrameResourceProviderLookup<T>,
    pts: Option<Duration>,
    path: Option<FrameMemoryPath>,
    observed: (VideoPresentFrameResourceLookup<T>, RenderResourceLockSample),
)
    requires
        call_ensures(observed_lookup::<T>, (lookup, pts, path), observed),
    ensures
        observed.0 is Ready <==> lookup is Ready,
        observed.0 is Missing <==> lookup is Missing,
        observed.0 is Busy <==> lookup is Busy,
        observed.0 is Fatal <==> lookup is Fatal,
        observed.1.lookup_was_busy <==> lookup is Busy,
        observed.1.pts == pts && observed.1.memory_path == path,
        lookup matches PresentFrameResourceProviderLookup::Ready {
            resource,
            resource_pool_lock_wait,
        } ==> observed.0 == VideoPresentFrameResourceLookup::Ready(resource) && observed.1.wait
            == resource_pool_lock_wait,
        lookup matches PresentFrameResourceProviderLookup::Missing { resource_pool_lock_wait }
            ==> observed.1.wait == resource_pool_lock_wait,
        lookup matches PresentFrameResourceProviderLookup::Busy { resource_pool_lock_wait }
            ==> observed.1.wait == resource_pool_lock_wait,
        lookup matches PresentFrameResourceProviderLookup::Fatal { resource_pool_lock_wait }
            ==> observed.1.wait == resource_pool_lock_wait,
{
}

/// The slot is emptied exactly where there is no present frame, kept exactly where it holds the
/// present frame already, and filled anew otherwise. What was published is what the slot tells.
pub proof fn law_slot_changes_only_for_another_frame<L>(
    before: LatestPresentFrameSlot<L>,
    slot: LatestPresentFrameSlot<L>,
    frame: PublishedFrame<L>,
    former: Option<PublishedFrame<L>>,
    told: Option<PresentFrameIdentity>,
    present: Option<PresentFrameIdentity>,
    decision: PublishDecision,
)
    requires
        exists|published: &mut LatestPresentFrameSlot<L>|
            *published == before && *final(published) == slot && #[trigger] call_ensures(
                LatestPresentFrameSlot::<L>::publish,
                (published, Some(frame)),
                former,
            ),
        call_ensures(LatestPresentFrameSlot::<L>::current_identity, (&slot,), told),
        call_ensures(LatestPresentFrameSlot::<L>::publish_decision, (&slot, present), decision),
    ensures
        former == before.latest_frame,
        told == Some(frame.identity),
        decision is ClearSlot <==> present is None,
        decision is KeepPublished <==> present == Some(frame.identity),
        decision is PublishNew <==> present is Some && present != Some(frame.identity),
{
}

/// An empty slot tells no frame and never keeps one.
pub proof fn law_empty_slot_keeps_nothing<L>(
    before: LatestPresentFrameSlot<L>,
    slot: LatestPresentFrameSlot<L>,
    former: Option<PublishedFrame<L>>,
    told: Option<PresentFrameIdentity>,
    present: Option<PresentFrameIdentity>,
    decision: PublishDecision,
)
    requires
        exists|published: &mut LatestPresentFrameSlot<L>|
            *published == before && *final(published) == slot && #[trigger] call_ensures(
                LatestPresentFrameSlot::<L>::clear,
                (published,),
                former,
            ),
        call_ensures(LatestPresentFrameSlot::<L>::current_identity, (&slot,), told),
        call_ensures(LatestPresentFrameSlot::<L>::publish_decision, (&slot, present), decision),
    ensures
        former == before.latest_frame,
        told is None,
        decision is PublishNew <==> present is Some,
        decision is ClearSlot <==> present is None,
{
}

/// A texture whose acknowledgement did not get through is released with the access to it, exactly
/// where there is one. The outcome tells why the worker could not be asked.
pub proof fn law_texture_is_released_past_the_worker<P: PresentFrameResourceProvider>(
    release: RenderLeaseRelease<P>,
    reason: VideoFrameReleaseFallbackReason,
    past: VideoFrameReleaseOutcome,
    full: VideoFrameReleaseOutcome,
    gone: VideoFrameReleaseOutcome,
    accepted: VideoFrameReleaseOutcome,
)
    requires
        call_ensures(RenderLeaseRelease::<P>::release_without_worker, (release, reason), past),
        call_ensures(
            RenderLeaseReleaseSink::<P>::outcome_of_send,
            (Err::<(), SendFailure<RenderLeaseRelease<P>>>(SendFailure::Full(release)),),
            full,
        ),
        call_ensures(
            RenderLeaseReleaseSink::<P>::outcome_of_send,
            (Err::<(), SendFailure<RenderLeaseRelease<P>>>(SendFailure::Disconnected(release)),),
            gone,
        ),
        call_ensures(
            RenderLeaseReleaseSink::<P>::outcome_of_send,
            (Ok::<(), SendFailure<RenderLeaseRelease<P>>>(()),),
            accepted,
        ),
    ensures
        accepted is Accepted,
        release.resource_provider matches Some(provider) ==> {
            &&& past == (VideoFrameReleaseOutcome::FallbackReleased { reason })
            &&& full == (VideoFrameReleaseOutcome::FallbackReleased {
                reason: VideoFrameReleaseFallbackReason::Backpressure,
            })
            &&& gone == (VideoFrameReleaseOutcome::FallbackReleased {
                reason: VideoFrameReleaseFallbackReason::Disconnected,
            })
            &&& call_ensures(
                <P as PresentFrameResourceProvider>::release_frame,
                (&provider, release.resource_handle),
                (),
            )
        },
        release.resource_provider is None ==> {
            &&& past == (VideoFrameReleaseOutcome::FallbackUnavailable { reason })
            &&& full == (VideoFrameReleaseOutcome::FallbackUnavailable {
                reason: VideoFrameReleaseFallbackReason::Backpressure,
            })
            &&& gone == (VideoFrameReleaseOutcome::FallbackUnavailable {
                reason: VideoFrameReleaseFallbackReason::Disconnected,
            })
        },
{
}

/// An acknowledgement is offered to the worker's own queue, once without waiting and, where there is
/// no room, once more for two milliseconds. It is accepted, or its texture is released exactly where
/// there is access to it.
pub proof fn law_acknowledgement_is_offered_to_the_worker<P: PresentFrameResourceProvider>(
    queue: crossbeam_channel::Sender<RenderLeaseRelease<P>>,
    sink: RenderLeaseReleaseSink<P>,
    release: RenderLeaseRelease<P>,
    outcome: VideoFrameReleaseOutcome,
)
    requires
        call_ensures(RenderLeaseReleaseSink::<P>::new, (queue,), sink),
        call_ensures(RenderLeaseReleaseSink::<P>::release_frame, (&sink, release), outcome),
    ensures
        outcome is FallbackReleased ==> release.resource_provider is Some,
        outcome is FallbackUnavailable ==> release.resource_provider is None,
        exists|sent: Result<(), SendFailure<RenderLeaseRelease<P>>>| #[trigger]
            is_offered(queue, release, sent) && {
                &&& sent is Ok ==> outcome is Accepted
                &&& sent matches Err(SendFailure::Full(_)) ==> exists|
                    late: Result<(), SendFailure<RenderLeaseRelease<P>>>,
                | #[trigger]
                    is_offered_within(queue, release, 2, late) && (late is Ok <==> outcome
                        is Accepted)
                &&& sent matches Err(SendFailure::Disconnected(_)) ==> !(outcome is Accepted)
            },
{
}

/// A wait of the renderer for a frame counts as one acquisition.
pub proof fn law_wait_for_a_frame_counts_as_acquisition(
    before: PlaybackDiagnostics,
    after: PlaybackDiagnostics,
    sample: RenderAcquireSample,
    queues: PipelineQueueDepthSnapshot,
)
    requires
        before.wf(),
        before.latency_counters.render_acquire.samples < u64::MAX,
        exists|diagnostics: &mut PlaybackDiagnostics|
            *diagnostics == before && *final(diagnostics) == after && #[trigger] call_ensures(
                record_acquire_sample,
                (diagnostics, sample, queues),
                (),
            ),
    ensures
        after.latency_counters.render_acquire.samples == before.latency_counters.render_acquire.samples + 1,
        after.latency_counters.render_acquire.worst is Some,
        after.latency_counters.render_acquire.worst->0.duration@ >= sample.wait@,
        before.latency_counters.render_acquire.worst is None
            ==> after.latency_counters.render_acquire.worst->0.duration@ == sample.wait@,
        after.snapshot.render_resource_lock_busy_count
            == before.snapshot.render_resource_lock_busy_count,
{
}

/// A presentation counts as one submission.
pub proof fn law_presentation_counts_as_submission(
    before: PlaybackDiagnostics,
    after: PlaybackDiagnostics,
    sample: RenderTimingSample,
    queues: PipelineQueueDepthSnapshot,
)
    requires
        before.wf(),
        before.latency_counters.gpu_submit_present.samples < u64::MAX,
        exists|diagnostics: &mut PlaybackDiagnostics|
            *diagnostics == before && *final(diagnostics) == after && #[trigger] call_ensures(
                record_timing_sample,
                (diagnostics, sample, queues),
                (),
            ),
    ensures
        after.latency_counters.gpu_submit_present.samples == before.latency_counters.gpu_submit_present.samples + 1,
        after.latency_counters.gpu_submit_present.worst is Some,
        after.latency_counters.gpu_submit_present.worst->0.duration@ >= sample.submit_present_elapsed@,
        before.latency_counters.gpu_submit_present.worst is None
            ==> after.latency_counters.gpu_submit_present.worst->0.duration@ == sample.submit_present_elapsed@,
        after.snapshot.render_resource_lock_busy_count
            == before.snapshot.render_resource_lock_busy_count,
{
}

/// A wait for the resource pool counts once, and a lock that was taken counts as busy.
pub proof fn law_wait_for_the_pool_counts_and_a_taken_lock_too(
    before: PlaybackDiagnostics,
    after: PlaybackDiagnostics,
    sample: RenderResourceLockSample,
    queues: PipelineQueueDepthSnapshot,
)
    requires
        before.wf(),
        before.latency_counters.render_resource_lock_wait.samples < u64::MAX,
        exists|diagnostics: &mut PlaybackDiagnostics|
            *diagnostics == before && *final(diagnostics) == after && #[trigger] call_ensures(
                record_resource_lock_sample,
                (diagnostics, sample, queues),
                (),
            ),
    ensures
        after.latency_counters.render_resource_lock_wait.samples == before.latency_counters.render_resource_lock_wait.samples + 1,
        after.latency_counters.render_resource_lock_wait.worst is Some,
        after.latency_counters.render_resource_lock_wait.worst->0.duration@ >= sample.wait@,
        before.latency_counters.render_resource_lock_wait.worst is None
            ==> after.latency_counters.render_resource_lock_wait.worst->0.duration@ == sample.wait@,
        !sample.lookup_was_busy ==> after.snapshot.render_resource_lock_busy_count
            == before.snapshot.render_resource_lock_busy_count,
        sample.lookup_was_busy && before.snapshot.render_resource_lock_busy_count < u64::MAX
            ==> after.snapshot.render_resource_lock_busy_count
            == before.snapshot.render_resource_lock_busy_count + 1,
{
}

/// An acknowledgement counts with the time that it was on its way.
pub proof fn law_acknowledgement_counts_with_its_way(
    before: PlaybackDiagnostics,
    after: PlaybackDiagnostics,
    released_at: Instant,
    now: Instant,
    queues: PipelineQueueDepthSnapshot,
)
    requires
        before.wf(),
        before.latency_counters.release_acknowledgement.samples < u64::MAX,
        exists|diagnostics: &mut PlaybackDiagnostics|
            *diagnostics == before && *final(diagnostics) == after && #[trigger] call_ensures(
                record_release_ack_latency,
                (diagnostics, released_at, now, queues),
                (),
            ),
    ensures
        after.latency_counters.release_acknowledgement.samples == before.latency_counters.release_acknowledgement.samples + 1,
        after.latency_counters.release_acknowledgement.worst is Some,
        after.latency_counters.release_acknowledgement.worst->0.duration@ >= (if now@ > released_at@ {
            now@ - released_at@
        } else {
            0
        }),
        before.latency_counters.release_acknowledgement.worst is None
            ==> after.latency_counters.release_acknowledgement.worst->0.duration@ == (if now@ > released_at@ {
            now@ - released_at@
        } else {
            0
        }),
        after.snapshot.render_resource_lock_busy_count
            == before.snapshot.render_resource_lock_busy_count,
{
}

} // verus!
