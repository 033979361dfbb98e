//! What the pipeline observes of itself: latencies, drops, pauses and queue depths.
//!
//! All counters saturate. The worst samples are kept in a ring of at most
//! [`RECENT_WORST_SAMPLE_LIMIT`] entries.
use crate::command::SeekMode;
use crate::media::{DecodedFrame, FrameMemoryPath, PacketKeyframe, TrackId};
use crate::time::{
    duration, lemma_duration_ext, lemma_duration_in_range, lemma_duration_is_not_negative,
    lemma_duration_of_nanos, saturated, Duration,
};
use std::collections::VecDeque;
use vstd::prelude::*;

verus! {

broadcast use {lemma_duration_in_range, lemma_duration_of_nanos, lemma_duration_ext};

/// The largest number of recent worst samples that are kept.
pub const RECENT_WORST_SAMPLE_LIMIT: usize = 16;

/// A counter after one more event.
pub open spec fn bumped(count: u64) -> u64 {
    if count == u64::MAX {
        u64::MAX
    } else {
        (count + 1) as u64
    }
}

/// A counter after an event that it counts only under a condition.
pub open spec fn bumped_if(counts: bool, count: u64) -> u64 {
    if counts {
        bumped(count)
    } else {
        count
    }
}

/// A stage of the pipeline to which latency is attributed.
#[derive(Debug, Clone, Copy, PartialEq, Eq, Structural)]
pub enum PipelineLatencyStage {
    /// Reading a packet from the source.
    DemuxRead,
    /// Wait of a packet in the bounded decoder channel.
    DecoderPacketReceive,
    /// Submission of an encoded packet to the decoder.
    DecoderSubmit,
    /// Draining of decoder events and the ready queue.
    DecoderEventDrain,
    /// Wait for a hardware decoded surface.
    HardwareSync,
    /// Export of a decoded surface to external memory.
    DmaBufExport,
    /// Import of external memory into a renderer resource.
    DmaBufImport,
    /// Publication of a decoded frame to the worker.
    DecodedFramePublish,
    /// Decision of the worker's scheduler.
    WorkerScheduler,
    /// Wait of the render thread for the present frame.
    RenderAcquire,
    /// Wait for the lock of the backend's resource pool.
    RenderResourceLockWait,
    /// Submission and presentation of render work.
    GpuSubmitPresent,
    /// Delay of a release acknowledgement.
    ReleaseAcknowledgement,
}

impl PipelineLatencyStage {
    /// The stable name of the stage.
    pub open spec fn spec_metric_name(self) -> Seq<char> {
        match self {
            PipelineLatencyStage::DemuxRead => "demux.read"@,
            PipelineLatencyStage::DecoderPacketReceive => "decoder.packet_receive"@,
            PipelineLatencyStage::DecoderSubmit => "decoder.submit"@,
            PipelineLatencyStage::DecoderEventDrain => "decoder.event_drain"@,
            PipelineLatencyStage::HardwareSync => "decoder.hardware_sync"@,
            PipelineLatencyStage::DmaBufExport => "zero_copy.export"@,
            PipelineLatencyStage::DmaBufImport => "zero_copy.import"@,
            PipelineLatencyStage::DecodedFramePublish => "decoder.frame_publish"@,
            PipelineLatencyStage::WorkerScheduler => "worker.scheduler"@,
            PipelineLatencyStage::RenderAcquire => "render.acquire"@,
            PipelineLatencyStage::RenderResourceLockWait => "render.resource_lock_wait"@,
            PipelineLatencyStage::GpuSubmitPresent => "gpu.submit_present"@,
            PipelineLatencyStage::ReleaseAcknowledgement => "release.ack"@,
        }
    }

    /// The stable name of the stage for logs and displays.
    pub fn metric_name(self) -> (r: &'static str)
        ensures
            r@ == self.spec_metric_name(),
    {
        match self {
            PipelineLatencyStage::DemuxRead => "demux.read",
            PipelineLatencyStage::DecoderPacketReceive => "decoder.packet_receive",
            PipelineLatencyStage::DecoderSubmit => "decoder.submit",
            PipelineLatencyStage::DecoderEventDrain => "decoder.event_drain",
            PipelineLatencyStage::HardwareSync => "decoder.hardware_sync",
            PipelineLatencyStage::DmaBufExport => "zero_copy.export",
            PipelineLatencyStage::DmaBufImport => "zero_copy.import",
            PipelineLatencyStage::DecodedFramePublish => "decoder.frame_publish",
            PipelineLatencyStage::WorkerScheduler => "worker.scheduler",
            PipelineLatencyStage::RenderAcquire => "render.acquire",
            PipelineLatencyStage::RenderResourceLockWait => "render.resource_lock_wait",
            PipelineLatencyStage::GpuSubmitPresent => "gpu.submit_present",
            PipelineLatencyStage::ReleaseAcknowledgement => "release.ack",
        }
    }
}

/// Why a video frame or packet was removed.
#[derive(Debug, Clone, Copy, PartialEq, Eq, Structural)]
pub enum VideoDropReason {
    /// The frame is behind the media clock.
    Late,
    /// A bounded queue displaced the frame.
    QueueOverflow,
    /// The item belongs to an earlier generation.
    StaleGeneration,
    /// The item lies before the target of a seek.
    SeekPreroll,
    /// A render request was not answered in time.
    RenderAcquisitionTimeout,
    /// No decoded frame was there when one was expected.
    DecoderStarvation,
    /// The frame arrived after playback was paused.
    Paused,
}

impl VideoDropReason {
    /// The stable name of the reason.
    pub open spec fn spec_metric_name(self) -> Seq<char> {
        match self {
            VideoDropReason::Late => "late"@,
            VideoDropReason::QueueOverflow => "queue_overflow"@,
            VideoDropReason::StaleGeneration => "stale_generation"@,
            VideoDropReason::SeekPreroll => "seek_preroll"@,
            VideoDropReason::RenderAcquisitionTimeout => "render_acquisition_timeout"@,
            VideoDropReason::DecoderStarvation => "decoder_starvation"@,
            VideoDropReason::Paused => "paused"@,
        }
    }

    /// The stable name of the reason for logs and displays.
    pub fn metric_name(self) -> (r: &'static str)
        ensures
            r@ == self.spec_metric_name(),
    {
        match self {
            VideoDropReason::Late => "late",
            VideoDropReason::QueueOverflow => "queue_overflow",
            VideoDropReason::StaleGeneration => "stale_generation",
            VideoDropReason::SeekPreroll => "seek_preroll",
            VideoDropReason::RenderAcquisitionTimeout => "render_acquisition_timeout",
            VideoDropReason::DecoderStarvation => "decoder_starvation",
            VideoDropReason::Paused => "paused",
        }
    }
}

impl VideoDropReason {
    /// Whether the removal belongs to a seek or a generation boundary.
    pub open spec fn is_seek_discard(self) -> bool {
        self is StaleGeneration || self is SeekPreroll
    }
}

/// Why the pipeline paused without removing a frame.
#[derive(Debug, Clone, Copy, PartialEq, Eq, Structural)]
pub enum PipelinePauseReason {
    /// Reading is held back by what follows it.
    DemuxBackpressure,
    /// Decoding waits for a surface or import slot.
    WaitingForFreeSurface,
    /// Decoding waits for room in the presentation queue.
    WaitingForPresentQueue,
    /// A surface waits for the renderer to release it.
    WaitingForGpuRelease,
    /// Video gives way to audio that has to catch up.
    WaitingForDemuxAudioPriority,
    /// The decoder's packet channel is full.
    DecoderPacketQueueFull,
    /// The decoder's control channel is full.
    DecoderControlQueueFull,
    /// The queue of frames ready for host upload is full.
    HostUploadReadyQueueFull,
    /// All slots for host upload are taken.
    HostUploadSlotsExhausted,
    /// The decoder gave no frame for the render request.
    DecoderStarvation,
    /// The scheduler waits for the media time of an early frame.
    SyncWaiting,
    /// A render request was not answered in time.
    RenderAcquireTimeout,
}

/// Pressure on texture slots.
#[derive(Debug, Clone, Copy, PartialEq, Eq, Structural)]
pub struct TextureSlotPressureSnapshot {
    /// The largest number of slots.
    pub capacity: usize,
    /// Slots that exist.
    pub slots: usize,
    /// Slots held by live frames.
    pub in_use: usize,
    /// Imports that can be reused.
    pub free_surfaces: usize,
    /// Releases that wait for the renderer.
    pub waiting_gpu_completion: usize,
    /// Releases that wait for the decoder.
    pub waiting_decoder_reuse: usize,
    /// Imports that failed.
    pub import_failures: u64,
    /// Imports that were made.
    pub imports_created: u64,
    /// Imports that were reused.
    pub imports_reused: u64,
    /// Free imports that were replaced.
    pub imports_replaced: u64,
}

impl TextureSlotPressureSnapshot {
    /// Nothing has been observed yet.
    pub open spec fn is_default(self) -> bool {
        &&& self.capacity == 0
        &&& self.slots == 0
        &&& self.in_use == 0
        &&& self.free_surfaces == 0
        &&& self.waiting_gpu_completion == 0
        &&& self.waiting_decoder_reuse == 0
        &&& self.import_failures == 0
        &&& self.imports_created == 0
        &&& self.imports_reused == 0
        &&& self.imports_replaced == 0
    }
}

impl Default for TextureSlotPressureSnapshot {
    fn default() -> (r: Self)
        ensures
            r.is_default(),
    {
        TextureSlotPressureSnapshot {
            capacity: 0,
            slots: 0,
            in_use: 0,
            free_surfaces: 0,
            waiting_gpu_completion: 0,
            waiting_decoder_reuse: 0,
            import_failures: 0,
            imports_created: 0,
            imports_reused: 0,
            imports_replaced: 0,
        }
    }
}

impl TextureSlotPressureSnapshot {
    /// The number of free slots, nothing where more are in use than the capacity.
    pub fn available_slots(self) -> (r: usize)
        ensures
            r == if self.capacity > self.in_use {
                self.capacity - self.in_use
            } else {
                0
            },
    {
        self.capacity.saturating_sub(self.in_use)
    }
}

/// Pressure on the decoder's bounded control channel.
#[derive(Debug, Clone, Copy, PartialEq, Eq, Structural)]
pub struct DecoderControlChannelPressureSnapshot {
    /// Messages in the channel.
    pub control_channel_len: usize,
    /// Room of the channel.
    pub control_channel_capacity: usize,
    /// Times the channel was full.
    pub control_channel_full_count: u64,
    /// Release messages that were not sent.
    pub release_control_send_fail_count: u64,
    /// Flush messages that were not sent.
    pub flush_control_send_fail_count: u64,
}

impl DecoderControlChannelPressureSnapshot {
    /// Nothing has been observed yet.
    pub open spec fn is_default(self) -> bool {
        &&& self.control_channel_len == 0
        &&& self.control_channel_capacity == 0
        &&& self.control_channel_full_count == 0
        &&& self.release_control_send_fail_count == 0
        &&& self.flush_control_send_fail_count == 0
    }
}

impl Default for DecoderControlChannelPressureSnapshot {
    fn default() -> (r: Self)
        ensures
            r.is_default(),
    {
        DecoderControlChannelPressureSnapshot {
            control_channel_len: 0,
            control_channel_capacity: 0,
            control_channel_full_count: 0,
            release_control_send_fail_count: 0,
            flush_control_send_fail_count: 0,
        }
    }
}

/// Depths of the queues near an observation.
#[derive(Debug, Clone, Copy, PartialEq, Eq, Structural)]
pub struct PipelineQueueDepthSnapshot {
    /// Audio packets before the decoder.
    pub pending_audio_packets: usize,
    /// Video packets before the decoder.
    pub pending_video_packets: usize,
    /// Video packets held by a recovery scan.
    pub staged_video_backlog_recovery_packets: usize,
    /// Payload held by a recovery scan.
    pub staged_video_backlog_recovery_bytes: usize,
    /// Frames in the presentation queue.
    pub present_queue_depth: usize,
    /// Packets in the decoder's send queue.
    pub decoder_send_queue_depth: usize,
    /// Packets inside the decoder.
    pub decoder_in_flight_packets: usize,
    /// Frames in the decoder's ready queue.
    pub decoder_ready_queue_depth: Option<usize>,
    /// Leases held by the renderer.
    pub active_render_leases: usize,
    /// Releases that wait for a lease.
    pub deferred_render_releases: usize,
    /// Pressure on texture slots.
    pub texture_slots: Option<TextureSlotPressureSnapshot>,
    /// Pressure on the control channel.
    pub decoder_control_channel: Option<DecoderControlChannelPressureSnapshot>,
}

impl PipelineQueueDepthSnapshot {
    /// Nothing has been observed yet.
    pub open spec fn is_default(self) -> bool {
        &&& self.pending_audio_packets == 0
        &&& self.pending_video_packets == 0
        &&& self.staged_video_backlog_recovery_packets == 0
        &&& self.staged_video_backlog_recovery_bytes == 0
        &&& self.present_queue_depth == 0
        &&& self.decoder_send_queue_depth == 0
        &&& self.decoder_in_flight_packets == 0
        &&& self.decoder_ready_queue_depth is None
        &&& self.active_render_leases == 0
        &&& self.deferred_render_releases == 0
        &&& self.texture_slots is None
        &&& self.decoder_control_channel is None
    }
}

impl Default for PipelineQueueDepthSnapshot {
    fn default() -> (r: Self)
        ensures
            r.is_default(),
    {
        PipelineQueueDepthSnapshot {
            pending_audio_packets: 0,
            pending_video_packets: 0,
            staged_video_backlog_recovery_packets: 0,
            staged_video_backlog_recovery_bytes: 0,
            present_queue_depth: 0,
            decoder_send_queue_depth: 0,
            decoder_in_flight_packets: 0,
            decoder_ready_queue_depth: None,
            active_render_leases: 0,
            deferred_render_releases: 0,
            texture_slots: None,
            decoder_control_channel: None,
        }
    }
}

/// One measured latency.
#[derive(Debug, Clone, Copy, PartialEq, Eq, Structural)]
pub struct PipelineLatencySampleSnapshot {
    /// Stage that was measured.
    pub stage: PipelineLatencyStage,
    /// Measured latency.
    pub duration: Duration,
    /// Timestamp of the item.
    pub pts: Option<Duration>,
    /// Way of the frame to the renderer.
    pub memory_path: Option<FrameMemoryPath>,
    /// Depths of the queues.
    pub queues: PipelineQueueDepthSnapshot,
}

/// Worst and average latency of one stage.
#[derive(Debug, Clone, Copy, PartialEq, Eq, Structural)]
pub struct LatencyCounterSnapshot {
    /// Number of samples.
    pub samples: u64,
    /// Average latency.
    pub average: Duration,
    /// Worst sample.
    pub worst: Option<PipelineLatencySampleSnapshot>,
}

impl LatencyCounterSnapshot {
    /// Nothing has been observed yet.
    pub open spec fn is_default(self) -> bool {
        &&& self.samples == 0
        &&& self.average@ == 0
        &&& self.worst is None
    }
}

impl Default for LatencyCounterSnapshot {
    fn default() -> (r: Self)
        ensures
            r.is_default(),
    {
        LatencyCounterSnapshot {
            samples: 0,
            average: Duration::zero(),
            worst: None,
        }
    }
}

/// Latency counters of all stages.
#[derive(Debug, Clone, Copy, PartialEq, Eq, Structural)]
pub struct PipelineLatencyCountersSnapshot {
    /// Reading a packet from the source.
    pub demux_read: LatencyCounterSnapshot,
    /// Wait of a packet in the bounded decoder channel.
    pub decoder_packet_receive: LatencyCounterSnapshot,
    /// Submission of an encoded packet to the decoder.
    pub decoder_submit: LatencyCounterSnapshot,
    /// Draining of decoder events and the ready queue.
    pub decoder_event_drain: LatencyCounterSnapshot,
    /// Wait for a hardware decoded surface.
    pub hardware_sync: LatencyCounterSnapshot,
    /// Export of a decoded surface to external memory.
    pub dma_buf_export: LatencyCounterSnapshot,
    /// Import of external memory into a renderer resource.
    pub dma_buf_import: LatencyCounterSnapshot,
    /// Publication of a decoded frame to the worker.
    pub decoded_frame_publish: LatencyCounterSnapshot,
    /// Decision of the worker's scheduler.
    pub worker_scheduler: LatencyCounterSnapshot,
    /// Wait of the render thread for the present frame.
    pub render_acquire: LatencyCounterSnapshot,
    /// Wait for the lock of the backend's resource pool.
    pub render_resource_lock_wait: LatencyCounterSnapshot,
    /// Submission and presentation of render work.
    pub gpu_submit_present: LatencyCounterSnapshot,
    /// Delay of a release acknowledgement.
    pub release_acknowledgement: LatencyCounterSnapshot,
}

impl PipelineLatencyCountersSnapshot {
    /// Nothing has been observed yet.
    pub open spec fn is_default(self) -> bool {
        &&& self.demux_read.is_default()
        &&& self.decoder_packet_receive.is_default()
        &&& self.decoder_submit.is_default()
        &&& self.decoder_event_drain.is_default()
        &&& self.hardware_sync.is_default()
        &&& self.dma_buf_export.is_default()
        &&& self.dma_buf_import.is_default()
        &&& self.decoded_frame_publish.is_default()
        &&& self.worker_scheduler.is_default()
        &&& self.render_acquire.is_default()
        &&& self.render_resource_lock_wait.is_default()
        &&& self.gpu_submit_present.is_default()
        &&& self.release_acknowledgement.is_default()
    }
}

impl Default for PipelineLatencyCountersSnapshot {
    fn default() -> (r: Self)
        ensures
            r.is_default(),
    {
        PipelineLatencyCountersSnapshot {
            demux_read: LatencyCounterSnapshot::default(),
            decoder_packet_receive: LatencyCounterSnapshot::default(),
            decoder_submit: LatencyCounterSnapshot::default(),
            decoder_event_drain: LatencyCounterSnapshot::default(),
            hardware_sync: LatencyCounterSnapshot::default(),
            dma_buf_export: LatencyCounterSnapshot::default(),
            dma_buf_import: LatencyCounterSnapshot::default(),
            decoded_frame_publish: LatencyCounterSnapshot::default(),
            worker_scheduler: LatencyCounterSnapshot::default(),
            render_acquire: LatencyCounterSnapshot::default(),
            render_resource_lock_wait: LatencyCounterSnapshot::default(),
            gpu_submit_present: LatencyCounterSnapshot::default(),
            release_acknowledgement: LatencyCounterSnapshot::default(),
        }
    }
}

/// The last removal of a video item.
#[derive(Debug, Clone, Copy, PartialEq, Eq, Structural)]
pub struct VideoDropAttributionSnapshot {
    /// Timestamp of the item.
    pub pts: Option<Duration>,
    /// Why it was removed.
    pub reason: VideoDropReason,
    /// Depths of the queues.
    pub queues: PipelineQueueDepthSnapshot,
}

/// Counters of removed video items.
#[derive(Debug, Clone, Copy, PartialEq, Eq, Structural)]
pub struct VideoDropCountersSnapshot {
    /// All removals.
    pub total: u64,
    /// Removals that belong to no seek.
    pub playback_or_render: u64,
    /// Removals around a seek or a generation boundary.
    pub seek_discard: u64,
    /// The frame is behind the media clock.
    pub late: u64,
    /// A bounded queue displaced the frame.
    pub queue_overflow: u64,
    /// The item belongs to an earlier generation.
    pub stale_generation: u64,
    /// The item lies before the target of a seek.
    pub seek_preroll: u64,
    /// A render request was not answered in time.
    pub render_acquisition_timeout: u64,
    /// No decoded frame was there when one was expected.
    pub decoder_starvation: u64,
    /// The frame arrived after playback was paused.
    pub paused: u64,
    /// The last removal.
    pub last: Option<VideoDropAttributionSnapshot>,
}

impl VideoDropCountersSnapshot {
    /// Nothing has been observed yet.
    pub open spec fn is_default(self) -> bool {
        &&& self.total == 0
        &&& self.playback_or_render == 0
        &&& self.seek_discard == 0
        &&& self.late == 0
        &&& self.queue_overflow == 0
        &&& self.stale_generation == 0
        &&& self.seek_preroll == 0
        &&& self.render_acquisition_timeout == 0
        &&& self.decoder_starvation == 0
        &&& self.paused == 0
        &&& self.last is None
    }
}

impl Default for VideoDropCountersSnapshot {
    fn default() -> (r: Self)
        ensures
            r.is_default(),
    {
        VideoDropCountersSnapshot {
            total: 0,
            playback_or_render: 0,
            seek_discard: 0,
            late: 0,
            queue_overflow: 0,
            stale_generation: 0,
            seek_preroll: 0,
            render_acquisition_timeout: 0,
            decoder_starvation: 0,
            paused: 0,
            last: None,
        }
    }
}

impl VideoDropCountersSnapshot {
    /// The counters after one more removal.
    pub open spec fn recorded(
        self,
        pts: Option<Duration>,
        reason: VideoDropReason,
        queues: PipelineQueueDepthSnapshot,
    ) -> Self {
        VideoDropCountersSnapshot {
            total: bumped(self.total),
            playback_or_render: bumped_if(!reason.is_seek_discard(), self.playback_or_render),
            seek_discard: bumped_if(reason.is_seek_discard(), self.seek_discard),
            late: bumped_if(reason is Late, self.late),
            queue_overflow: bumped_if(reason is QueueOverflow, self.queue_overflow),
            stale_generation: bumped_if(reason is StaleGeneration, self.stale_generation),
            seek_preroll: bumped_if(reason is SeekPreroll, self.seek_preroll),
            render_acquisition_timeout: bumped_if(reason is RenderAcquisitionTimeout, self.render_acquisition_timeout),
            decoder_starvation: bumped_if(reason is DecoderStarvation, self.decoder_starvation),
            paused: bumped_if(reason is Paused, self.paused),
            last: Some(VideoDropAttributionSnapshot { pts, reason, queues }),
        }
    }

    /// The sum of the counters by reason.
    pub open spec fn by_reason(self) -> int {
        self.late + self.queue_overflow + self.stale_generation + self.seek_preroll + self.render_acquisition_timeout + self.decoder_starvation + self.paused
    }

    /// Every removal is counted once by reason and once in the group of its reason.
    pub open spec fn is_balanced(self) -> bool {
        &&& self.total == self.by_reason()
        &&& self.total == self.playback_or_render + self.seek_discard
        &&& self.seek_discard == self.stale_generation + self.seek_preroll
    }
}

/// What happened since the decoder was flushed.
#[derive(Debug, Clone, Copy, PartialEq, Eq, Structural)]
pub struct SeekBootstrapDiagnosticsSnapshot {
    /// Packets removed while no decodable start was found.
    pub dropped_until_keyframe: u64,
    /// Mark of the packet that ended the wait.
    pub first_accepted_keyframe: Option<PacketKeyframe>,
}

impl SeekBootstrapDiagnosticsSnapshot {
    /// Nothing has been observed yet.
    pub open spec fn is_default(self) -> bool {
        &&& self.dropped_until_keyframe == 0
        &&& self.first_accepted_keyframe is None
    }
}

impl Default for SeekBootstrapDiagnosticsSnapshot {
    fn default() -> (r: Self)
        ensures
            r.is_default(),
    {
        SeekBootstrapDiagnosticsSnapshot {
            dropped_until_keyframe: 0,
            first_accepted_keyframe: None,
        }
    }
}

/// The last pause.
#[derive(Debug, Clone, Copy, PartialEq, Eq, Structural)]
pub struct PipelinePauseSnapshot {
    /// Why the pipeline paused.
    pub reason: PipelinePauseReason,
    /// Depths of the queues.
    pub queues: PipelineQueueDepthSnapshot,
}

/// Counters of pauses.
#[derive(Debug, Clone, Copy, PartialEq, Eq, Structural)]
pub struct PipelinePauseCountersSnapshot {
    /// All pauses.
    pub total: u64,
    /// Reading is held back by what follows it.
    pub demux_backpressure: u64,
    /// Decoding waits for a surface or import slot.
    pub waiting_for_free_surface: u64,
    /// Decoding waits for room in the presentation queue.
    pub waiting_for_present_queue: u64,
    /// A surface waits for the renderer to release it.
    pub waiting_for_gpu_release: u64,
    /// Video gives way to audio that has to catch up.
    pub waiting_for_demux_audio_priority: u64,
    /// The decoder's packet channel is full.
    pub decoder_packet_queue_full: u64,
    /// The decoder's control channel is full.
    pub decoder_control_queue_full: u64,
    /// The queue of frames ready for host upload is full.
    pub host_upload_ready_queue_full: u64,
    /// All slots for host upload are taken.
    pub host_upload_slots_exhausted: u64,
    /// The decoder gave no frame for the render request.
    pub decoder_starvation: u64,
    /// The scheduler waits for the media time of an early frame.
    pub sync_waiting: u64,
    /// A render request was not answered in time.
    pub render_acquire_timeout: u64,
    /// The last pause.
    pub last: Option<PipelinePauseSnapshot>,
}

impl PipelinePauseCountersSnapshot {
    /// Nothing has been observed yet.
    pub open spec fn is_default(self) -> bool {
        &&& self.total == 0
        &&& self.demux_backpressure == 0
        &&& self.waiting_for_free_surface == 0
        &&& self.waiting_for_present_queue == 0
        &&& self.waiting_for_gpu_release == 0
        &&& self.waiting_for_demux_audio_priority == 0
        &&& self.decoder_packet_queue_full == 0
        &&& self.decoder_control_queue_full == 0
        &&& self.host_upload_ready_queue_full == 0
        &&& self.host_upload_slots_exhausted == 0
        &&& self.decoder_starvation == 0
        &&& self.sync_waiting == 0
        &&& self.render_acquire_timeout == 0
        &&& self.last is None
    }
}

impl Default for PipelinePauseCountersSnapshot {
    fn default() -> (r: Self)
        ensures
            r.is_default(),
    {
        PipelinePauseCountersSnapshot {
            total: 0,
            demux_backpressure: 0,
            waiting_for_free_surface: 0,
            waiting_for_present_queue: 0,
            waiting_for_gpu_release: 0,
            waiting_for_demux_audio_priority: 0,
            decoder_packet_queue_full: 0,
            decoder_control_queue_full: 0,
            host_upload_ready_queue_full: 0,
            host_upload_slots_exhausted: 0,
            decoder_starvation: 0,
            sync_waiting: 0,
            render_acquire_timeout: 0,
            last: None,
        }
    }
}

impl PipelinePauseCountersSnapshot {
    /// The counters after one more pause.
    pub open spec fn recorded(
        self,
        reason: PipelinePauseReason,
        queues: PipelineQueueDepthSnapshot,
    ) -> Self {
        PipelinePauseCountersSnapshot {
            total: bumped(self.total),
            demux_backpressure: bumped_if(reason is DemuxBackpressure, self.demux_backpressure),
            waiting_for_free_surface: bumped_if(reason is WaitingForFreeSurface, self.waiting_for_free_surface),
            waiting_for_present_queue: bumped_if(reason is WaitingForPresentQueue, self.waiting_for_present_queue),
            waiting_for_gpu_release: bumped_if(reason is WaitingForGpuRelease, self.waiting_for_gpu_release),
            waiting_for_demux_audio_priority: bumped_if(reason is WaitingForDemuxAudioPriority, self.waiting_for_demux_audio_priority),
            decoder_packet_queue_full: bumped_if(reason is DecoderPacketQueueFull, self.decoder_packet_queue_full),
            decoder_control_queue_full: bumped_if(reason is DecoderControlQueueFull, self.decoder_control_queue_full),
            host_upload_ready_queue_full: bumped_if(reason is HostUploadReadyQueueFull, self.host_upload_ready_queue_full),
            host_upload_slots_exhausted: bumped_if(reason is HostUploadSlotsExhausted, self.host_upload_slots_exhausted),
            decoder_starvation: bumped_if(reason is DecoderStarvation, self.decoder_starvation),
            sync_waiting: bumped_if(reason is SyncWaiting, self.sync_waiting),
            render_acquire_timeout: bumped_if(reason is RenderAcquireTimeout, self.render_acquire_timeout),
            last: Some(PipelinePauseSnapshot { reason, queues }),
        }
    }

    /// The sum of the counters by reason.
    pub open spec fn by_reason(self) -> int {
        self.demux_backpressure + self.waiting_for_free_surface + self.waiting_for_present_queue + self.waiting_for_gpu_release + self.waiting_for_demux_audio_priority + self.decoder_packet_queue_full + self.decoder_control_queue_full + self.host_upload_ready_queue_full + self.host_upload_slots_exhausted + self.decoder_starvation + self.sync_waiting + self.render_acquire_timeout
    }
}

/// Counters that the decoder thread reports of its publish boundary.
#[derive(Debug, Clone, Copy, PartialEq, Eq, Structural)]
pub struct VideoFramePublishPressureDiagnostics {
    /// Times the frame channel was full.
    pub frame_publish_channel_full_count: u64,
    /// Retries for a pending frame.
    pub pending_publish_retry_count: u64,
    /// Longest publication seen by the decoder thread.
    pub max_decoded_frame_publish_latency: Duration,
    /// All publications seen by the decoder thread.
    pub total_decoded_frame_publish_latency: Duration,
}

/// Pressure on the boundary between decoder and worker.
#[derive(Debug, Clone, Copy, PartialEq, Eq, Structural)]
pub struct DecoderFramePublishPressureSnapshot {
    /// Times the frame channel was full.
    pub frame_publish_channel_full_count: u64,
    /// Longest publication of a frame that arrived.
    pub max_decoded_frame_publish_latency: Duration,
    /// Publications of all frames that arrived.
    pub total_decoded_frame_publish_latency: Duration,
    /// Retries for a pending frame.
    pub pending_publish_retry_count: u64,
}

impl DecoderFramePublishPressureSnapshot {
    /// Nothing has been observed yet.
    pub open spec fn is_default(self) -> bool {
        &&& self.frame_publish_channel_full_count == 0
        &&& self.max_decoded_frame_publish_latency@ == 0
        &&& self.total_decoded_frame_publish_latency@ == 0
        &&& self.pending_publish_retry_count == 0
    }
}

impl Default for DecoderFramePublishPressureSnapshot {
    fn default() -> (r: Self)
        ensures
            r.is_default(),
    {
        DecoderFramePublishPressureSnapshot {
            frame_publish_channel_full_count: 0,
            max_decoded_frame_publish_latency: Duration::zero(),
            total_decoded_frame_publish_latency: Duration::zero(),
            pending_publish_retry_count: 0,
        }
    }
}

impl DecoderFramePublishPressureSnapshot {
    /// Takes the channel counters of a report. Latencies are counted per arrived frame.
    pub fn observe_pressure_event(&mut self, pressure: VideoFramePublishPressureDiagnostics)
        ensures
            *final(self) == (DecoderFramePublishPressureSnapshot {
                frame_publish_channel_full_count: pressure.frame_publish_channel_full_count,
                pending_publish_retry_count: pressure.pending_publish_retry_count,
                ..*old(self)
            }),
    {
        self.frame_publish_channel_full_count = pressure.frame_publish_channel_full_count;
        self.pending_publish_retry_count = pressure.pending_publish_retry_count;
    }

    /// Counts the publication of one frame that arrived.
    pub fn observe_published_frame_latency(&mut self, latency: Duration)
        ensures
            *final(self) == old(self).observed(latency),
    {
        proof {
            use_type_invariant(&self.total_decoded_frame_publish_latency);
            use_type_invariant(&latency);
        }
        self.total_decoded_frame_publish_latency = self.total_decoded_frame_publish_latency.saturating_add(
            latency,
        );
        if latency > self.max_decoded_frame_publish_latency {
            self.max_decoded_frame_publish_latency = latency;
        }
    }

    /// The state after the publication of one frame.
    pub open spec fn observed(self, latency: Duration) -> Self {
        DecoderFramePublishPressureSnapshot {
            total_decoded_frame_publish_latency: duration(
                saturated(self.total_decoded_frame_publish_latency@ + latency@),
            ),
            max_decoded_frame_publish_latency: if latency@
                > self.max_decoded_frame_publish_latency@ {
                latency
            } else {
                self.max_decoded_frame_publish_latency
            },
            ..self
        }
    }
}

/// Why the worker planned its next wakeup.
#[derive(Debug, Clone, Copy, PartialEq, Eq, Structural)]
pub enum WorkerWakeupReason {
    /// Nothing has to happen before the next outside event.
    Idle,
    /// There is work that can be done at once.
    PipelineWorkReady,
    /// The worker polls the decoder.
    DecodeReadiness,
    /// The timestamp of the first queued frame is due.
    FramePtsDeadline,
    /// The first queued frame can be presented.
    FrameReady,
    /// A seek or a buffering gate has to advance.
    SeekOrPreroll,
    /// No exact deadline is known.
    CoarseProgress,
}

impl WorkerWakeupReason {
    /// The stable name of the reason.
    pub open spec fn spec_metric_name(self) -> Seq<char> {
        match self {
            WorkerWakeupReason::Idle => "idle"@,
            WorkerWakeupReason::PipelineWorkReady => "pipeline_work_ready"@,
            WorkerWakeupReason::DecodeReadiness => "decode_readiness"@,
            WorkerWakeupReason::FramePtsDeadline => "frame_pts_deadline"@,
            WorkerWakeupReason::FrameReady => "frame_ready"@,
            WorkerWakeupReason::SeekOrPreroll => "seek_or_preroll"@,
            WorkerWakeupReason::CoarseProgress => "coarse_progress"@,
        }
    }

    /// The stable name of the reason for logs and displays.
    pub fn metric_name(self) -> (r: &'static str)
        ensures
            r@ == self.spec_metric_name(),
    {
        match self {
            WorkerWakeupReason::Idle => "idle",
            WorkerWakeupReason::PipelineWorkReady => "pipeline_work_ready",
            WorkerWakeupReason::DecodeReadiness => "decode_readiness",
            WorkerWakeupReason::FramePtsDeadline => "frame_pts_deadline",
            WorkerWakeupReason::FrameReady => "frame_ready",
            WorkerWakeupReason::SeekOrPreroll => "seek_or_preroll",
            WorkerWakeupReason::CoarseProgress => "coarse_progress",
        }
    }
}

/// The first queued frame held against the media clock.
#[derive(Debug, Clone, Copy, PartialEq, Eq, Structural)]
pub struct WorkerFrameTimingSnapshot {
    /// Timestamp of the first queued frame.
    pub front_frame_pts: Duration,
    /// Media time for which a frame was chosen.
    pub target_media_time: Duration,
    /// Microseconds by which the frame is ahead of the media time.
    pub front_frame_delta_from_target_us: i128,
}

/// The last decision about the worker's wakeup.
#[derive(Debug, Clone, Copy, PartialEq, Eq, Structural)]
pub struct WorkerWakeupDiagnosticsSnapshot {
    /// Why the wakeup was planned.
    pub reason: Option<WorkerWakeupReason>,
    /// Planned delay, nothing where only events are awaited.
    pub planned_delay: Option<Duration>,
    /// Delay of the tick against the plan.
    pub tick_late_by: Duration,
    /// The first queued frame.
    pub frame_timing: Option<WorkerFrameTimingSnapshot>,
}

impl WorkerWakeupDiagnosticsSnapshot {
    /// Nothing has been observed yet.
    pub open spec fn is_default(self) -> bool {
        &&& self.reason is None
        &&& self.planned_delay is None
        &&& self.tick_late_by@ == 0
        &&& self.frame_timing is None
    }
}

impl Default for WorkerWakeupDiagnosticsSnapshot {
    fn default() -> (r: Self)
        ensures
            r.is_default(),
    {
        WorkerWakeupDiagnosticsSnapshot {
            reason: None,
            planned_delay: None,
            tick_late_by: Duration::zero(),
            frame_timing: None,
        }
    }
}

/// What a seek waits for.
#[derive(Debug, Clone, Copy, PartialEq, Eq, Structural)]
pub enum SeekProgressBlocker {
    /// All gates are open.
    ReadyToCommit,
    /// The output has not confirmed that its buffer is empty.
    WaitingForAudioClear,
    /// The audio buffer is not filled far enough.
    WaitingForAudioPreroll,
    /// The selected audio track has no decoder yet.
    WaitingForAudioDecoder,
    /// The selected audio track has no output yet.
    WaitingForAudioOutput,
    /// No surface or import slot is free.
    WaitingForFreeSurface,
    /// A surface is held by the renderer.
    WaitingForGpuRelease,
    /// A video packet waits to be sent to the decoder.
    WaitingForDecoderInput,
    /// The decoder waits for a packet to start from.
    WaitingForPostFlushKeyframe,
    /// A packet is in the decoder and its frame is not back.
    WaitingForDecoderOutput,
    /// Packets after the seek have to be read.
    WaitingForDemux,
    /// The frame is decoded and not yet present.
    WaitingForScheduler,
    /// The first queued frame can be shown at once.
    ReadyForScheduler,
    /// The target frame has not been shown.
    WaitingForVideoTargetFrame,
    /// More video is needed before playback resumes.
    WaitingForVideoResumePreroll,
    /// No closer reason is known.
    Unknown,
}

impl SeekProgressBlocker {
    /// The stable name of the blocker.
    pub open spec fn spec_metric_name(self) -> Seq<char> {
        match self {
            SeekProgressBlocker::ReadyToCommit => "ready_to_commit"@,
            SeekProgressBlocker::WaitingForAudioClear => "audio_clear"@,
            SeekProgressBlocker::WaitingForAudioPreroll => "audio_preroll"@,
            SeekProgressBlocker::WaitingForAudioDecoder => "audio_decoder"@,
            SeekProgressBlocker::WaitingForAudioOutput => "audio_output"@,
            SeekProgressBlocker::WaitingForFreeSurface => "free_surface"@,
            SeekProgressBlocker::WaitingForGpuRelease => "gpu_release"@,
            SeekProgressBlocker::WaitingForDecoderInput => "decoder_input"@,
            SeekProgressBlocker::WaitingForPostFlushKeyframe => "post_flush_keyframe"@,
            SeekProgressBlocker::WaitingForDecoderOutput => "decoder_output"@,
            SeekProgressBlocker::WaitingForDemux => "demux"@,
            SeekProgressBlocker::WaitingForScheduler => "scheduler"@,
            SeekProgressBlocker::ReadyForScheduler => "ready_for_scheduler"@,
            SeekProgressBlocker::WaitingForVideoTargetFrame => "video_target_frame"@,
            SeekProgressBlocker::WaitingForVideoResumePreroll => "video_resume_preroll"@,
            SeekProgressBlocker::Unknown => "unknown"@,
        }
    }

    /// The stable name of the blocker for logs and displays.
    pub fn metric_name(self) -> (r: &'static str)
        ensures
            r@ == self.spec_metric_name(),
    {
        match self {
            SeekProgressBlocker::ReadyToCommit => "ready_to_commit",
            SeekProgressBlocker::WaitingForAudioClear => "audio_clear",
            SeekProgressBlocker::WaitingForAudioPreroll => "audio_preroll",
            SeekProgressBlocker::WaitingForAudioDecoder => "audio_decoder",
            SeekProgressBlocker::WaitingForAudioOutput => "audio_output",
            SeekProgressBlocker::WaitingForFreeSurface => "free_surface",
            SeekProgressBlocker::WaitingForGpuRelease => "gpu_release",
            SeekProgressBlocker::WaitingForDecoderInput => "decoder_input",
            SeekProgressBlocker::WaitingForPostFlushKeyframe => "post_flush_keyframe",
            SeekProgressBlocker::WaitingForDecoderOutput => "decoder_output",
            SeekProgressBlocker::WaitingForDemux => "demux",
            SeekProgressBlocker::WaitingForScheduler => "scheduler",
            SeekProgressBlocker::ReadyForScheduler => "ready_for_scheduler",
            SeekProgressBlocker::WaitingForVideoTargetFrame => "video_target_frame",
            SeekProgressBlocker::WaitingForVideoResumePreroll => "video_resume_preroll",
            SeekProgressBlocker::Unknown => "unknown",
        }
    }
}

/// When the stages of an accurate seek were first reached.
#[derive(Debug, Clone, Copy, PartialEq, Eq, Structural)]
pub struct SeekPrerollStageDiagnosticsSnapshot {
    /// First packet after the seek.
    pub first_post_seek_packet_elapsed: Option<Duration>,
    /// First selected video packet at the target or later.
    pub first_target_or_after_video_packet_elapsed: Option<Duration>,
    /// First decoded frame at the target or later.
    pub first_decoded_target_frame_elapsed: Option<Duration>,
    /// First queued frame at the target or later.
    pub first_queued_target_frame_elapsed: Option<Duration>,
    /// First presented frame that completes the seek.
    pub first_presented_target_frame_elapsed: Option<Duration>,
}

impl SeekPrerollStageDiagnosticsSnapshot {
    /// Nothing has been observed yet.
    pub open spec fn is_default(self) -> bool {
        &&& self.first_post_seek_packet_elapsed is None
        &&& self.first_target_or_after_video_packet_elapsed is None
        &&& self.first_decoded_target_frame_elapsed is None
        &&& self.first_queued_target_frame_elapsed is None
        &&& self.first_presented_target_frame_elapsed is None
    }
}

impl Default for SeekPrerollStageDiagnosticsSnapshot {
    fn default() -> (r: Self)
        ensures
            r.is_default(),
    {
        SeekPrerollStageDiagnosticsSnapshot {
            first_post_seek_packet_elapsed: None,
            first_target_or_after_video_packet_elapsed: None,
            first_decoded_target_frame_elapsed: None,
            first_queued_target_frame_elapsed: None,
            first_presented_target_frame_elapsed: None,
        }
    }
}

/// Demux events seen during an accurate seek.
#[derive(Debug, Clone, Copy, PartialEq, Eq, Structural)]
pub struct SeekPrerollDemuxEventCountersSnapshot {
    /// Audio packets.
    pub audio_packets: u64,
    /// Video packets.
    pub video_packets: u64,
    /// Ends of the stream.
    pub end_of_stream: u64,
    /// Changes of the track list.
    pub tracks_changed: u64,
    /// Fatal errors.
    pub errors: u64,
}

impl SeekPrerollDemuxEventCountersSnapshot {
    /// Nothing has been observed yet.
    pub open spec fn is_default(self) -> bool {
        &&& self.audio_packets == 0
        &&& self.video_packets == 0
        &&& self.end_of_stream == 0
        &&& self.tracks_changed == 0
        &&& self.errors == 0
    }
}

impl Default for SeekPrerollDemuxEventCountersSnapshot {
    fn default() -> (r: Self)
        ensures
            r.is_default(),
    {
        SeekPrerollDemuxEventCountersSnapshot {
            audio_packets: 0,
            video_packets: 0,
            end_of_stream: 0,
            tracks_changed: 0,
            errors: 0,
        }
    }
}

/// Counters of an accurate seek.
#[derive(Debug, Clone, Copy, PartialEq, Eq, Structural)]
pub struct SeekPrerollCountersSnapshot {
    /// Demux events by kind.
    pub demux_events: SeekPrerollDemuxEventCountersSnapshot,
    /// Audio packets before the target.
    pub skipped_audio_preroll_packets: u64,
    /// Video packets sent to the decoder.
    pub seek_video_packets_sent: u64,
    /// Of these, packets before the target.
    pub video_preroll_packets_sent: u64,
    /// Of these, packets at the target or later.
    pub target_or_after_video_packets_sent: u64,
    /// Decoded frames before the target.
    pub decoded_pre_target_frames_dropped: u64,
    /// Pauses of video admission.
    pub decoder_backpressure_pauses: u64,
}

impl SeekPrerollCountersSnapshot {
    /// Nothing has been observed yet.
    pub open spec fn is_default(self) -> bool {
        &&& self.demux_events.is_default()
        &&& self.skipped_audio_preroll_packets == 0
        &&& self.seek_video_packets_sent == 0
        &&& self.video_preroll_packets_sent == 0
        &&& self.target_or_after_video_packets_sent == 0
        &&& self.decoded_pre_target_frames_dropped == 0
        &&& self.decoder_backpressure_pauses == 0
    }
}

impl Default for SeekPrerollCountersSnapshot {
    fn default() -> (r: Self)
        ensures
            r.is_default(),
    {
        SeekPrerollCountersSnapshot {
            demux_events: SeekPrerollDemuxEventCountersSnapshot::default(),
            skipped_audio_preroll_packets: 0,
            seek_video_packets_sent: 0,
            video_preroll_packets_sent: 0,
            target_or_after_video_packets_sent: 0,
            decoded_pre_target_frames_dropped: 0,
            decoder_backpressure_pauses: 0,
        }
    }
}

/// State of an accurate seek.
#[derive(Debug, Clone, Copy, PartialEq, Eq, Structural)]
pub struct AccurateSeekPrerollDiagnosticsSnapshot {
    /// Whether the seek is accurate.
    pub active: bool,
    /// When stages were reached.
    pub stages: SeekPrerollStageDiagnosticsSnapshot,
    /// Counters.
    pub counters: SeekPrerollCountersSnapshot,
}

impl AccurateSeekPrerollDiagnosticsSnapshot {
    /// Nothing has been observed yet.
    pub open spec fn is_default(self) -> bool {
        &&& !self.active
        &&& self.stages.is_default()
        &&& self.counters.is_default()
    }
}

impl Default for AccurateSeekPrerollDiagnosticsSnapshot {
    fn default() -> (r: Self)
        ensures
            r.is_default(),
    {
        AccurateSeekPrerollDiagnosticsSnapshot {
            active: false,
            stages: SeekPrerollStageDiagnosticsSnapshot::default(),
            counters: SeekPrerollCountersSnapshot::default(),
        }
    }
}

/// State of an active seek for logs.
#[derive(Debug, Clone, Copy, PartialEq, Eq)]
pub struct ActiveSeekDiagnosticsSnapshot {
    /// Kind of the seek.
    pub kind: &'static str,
    /// Generation of the seek.
    pub generation: u64,
    /// Generation of the pipeline.
    pub pipeline_generation: u64,
    /// Selected video track.
    pub selected_video_track_id: Option<TrackId>,
    /// Selected audio track.
    pub selected_audio_track_id: Option<TrackId>,
    /// Age of the seek.
    pub age: Duration,
    /// Target of the seek.
    pub target: Duration,
    /// Position that the container landed on.
    pub actual: Duration,
    /// What happens after the seek.
    pub resume_intent: &'static str,
    /// Mode that was asked for.
    pub seek_mode: SeekMode,
    /// What the seek waits for.
    pub blocker: SeekProgressBlocker,
    /// Whether the video gate is open.
    pub video_gate_ready: bool,
    /// Whether the audio gate is open.
    pub audio_gate_ready: bool,
    /// Whether the target frame was shown.
    pub target_frame_presented: bool,
    /// Frames that are ready.
    pub ready_video_frames: usize,
    /// Frames that are required.
    pub required_video_frames: usize,
    /// Timestamp of the present frame.
    pub present_frame_pts: Option<Duration>,
    /// Timestamp of the first queued frame.
    pub front_queued_frame_pts: Option<Duration>,
    /// Whether packets are being read.
    pub demuxing_active: bool,
    /// Whether the pipeline drains after the end.
    pub draining_after_eof: bool,
    /// Whether the picture is stale.
    pub stale_frame: bool,
    /// Removals of stale items.
    pub stale_generation_discards: u64,
    /// What happened since the flush.
    pub seek_bootstrap: SeekBootstrapDiagnosticsSnapshot,
    /// The last pause.
    pub last_pause_reason: Option<PipelinePauseReason>,
    /// State of an accurate seek.
    pub accurate_preroll: AccurateSeekPrerollDiagnosticsSnapshot,
    /// Depths of the queues.
    pub queues: PipelineQueueDepthSnapshot,
}

/// Everything the diagnostics show.
#[derive(Debug, Clone, PartialEq, Eq)]
pub struct PlaybackDiagnosticsSnapshot {
    /// Way of the last frame.
    pub zero_copy_memory_path: Option<FrameMemoryPath>,
    /// Depths of the queues.
    pub queues: PipelineQueueDepthSnapshot,
    /// Removals.
    pub drops: VideoDropCountersSnapshot,
    /// What happened since the flush.
    pub seek_bootstrap: SeekBootstrapDiagnosticsSnapshot,
    /// Pauses.
    pub pauses: PipelinePauseCountersSnapshot,
    /// Latencies.
    pub worst_latencies: PipelineLatencyCountersSnapshot,
    /// Samples that were the worst of their stage, oldest first.
    pub recent_worst_samples: Vec<PipelineLatencySampleSnapshot>,
    /// Decoded frames.
    pub decoded_frames: u64,
    /// Repetitions of the present frame.
    pub repeated_video_frames: u64,
    /// Lookups that met a taken lock.
    pub render_resource_lock_busy_count: u64,
    /// Frames that were reused for that.
    pub render_resource_previous_frame_reuse_count: u64,
    /// Pressure on the publish boundary.
    pub decoder_frame_publish_pressure: DecoderFramePublishPressureSnapshot,
    /// The last wakeup decision.
    pub worker_wakeup: WorkerWakeupDiagnosticsSnapshot,
}

impl PlaybackDiagnosticsSnapshot {
    /// Nothing has been observed yet.
    pub open spec fn is_default(self) -> bool {
        &&& self.zero_copy_memory_path is None
        &&& self.queues.is_default()
        &&& self.drops.is_default()
        &&& self.seek_bootstrap.is_default()
        &&& self.pauses.is_default()
        &&& self.worst_latencies.is_default()
        &&& self.recent_worst_samples@.len() == 0
        &&& self.decoded_frames == 0
        &&& self.repeated_video_frames == 0
        &&& self.render_resource_lock_busy_count == 0
        &&& self.render_resource_previous_frame_reuse_count == 0
        &&& self.decoder_frame_publish_pressure.is_default()
        &&& self.worker_wakeup.is_default()
    }
}

impl Default for PlaybackDiagnosticsSnapshot {
    fn default() -> (r: Self)
        ensures
            r.is_default(),
    {
        PlaybackDiagnosticsSnapshot {
            zero_copy_memory_path: None,
            queues: PipelineQueueDepthSnapshot::default(),
            drops: VideoDropCountersSnapshot::default(),
            seek_bootstrap: SeekBootstrapDiagnosticsSnapshot::default(),
            pauses: PipelinePauseCountersSnapshot::default(),
            worst_latencies: PipelineLatencyCountersSnapshot::default(),
            recent_worst_samples: Vec::new(),
            decoded_frames: 0,
            repeated_video_frames: 0,
            render_resource_lock_busy_count: 0,
            render_resource_previous_frame_reuse_count: 0,
            decoder_frame_publish_pressure: DecoderFramePublishPressureSnapshot::default(),
            worker_wakeup: WorkerWakeupDiagnosticsSnapshot::default(),
        }
    }
}

/// A compact summary for logs.
#[derive(Debug, Clone, Copy, PartialEq, Eq, Structural)]
pub struct PlaybackDiagnosticsLogSummary {
    /// All removals.
    pub drops_total: u64,
    /// Removals by reason.
    pub drops: VideoDropCountersSnapshot,
    /// What happened since the flush.
    pub seek_bootstrap: SeekBootstrapDiagnosticsSnapshot,
    /// All pauses.
    pub pauses_total: u64,
    /// Pauses by reason.
    pub pauses: PipelinePauseCountersSnapshot,
    /// Way of the last frame.
    pub zero_copy_memory_path: Option<FrameMemoryPath>,
    /// Repetitions of the present frame.
    pub repeated_video_frames: u64,
    /// Lookups that met a taken lock.
    pub render_resource_lock_busy_count: u64,
    /// Frames that were reused for that.
    pub render_resource_previous_frame_reuse_count: u64,
    /// Pressure on the publish boundary.
    pub decoder_frame_publish_pressure: DecoderFramePublishPressureSnapshot,
    /// The last wakeup decision.
    pub worker_wakeup: WorkerWakeupDiagnosticsSnapshot,
    /// The slowest stage.
    pub worst_stage: Option<PipelineLatencyStage>,
    /// The worst latency of that stage.
    pub worst_latency: Option<Duration>,
    /// Latencies by stage.
    pub worst_latencies: PipelineLatencyCountersSnapshot,
    /// Depths of the queues.
    pub queues: PipelineQueueDepthSnapshot,
}

impl PlaybackDiagnosticsLogSummary {
    /// Nothing has been observed yet.
    pub open spec fn is_default(self) -> bool {
        &&& self.drops_total == 0
        &&& self.drops.is_default()
        &&& self.seek_bootstrap.is_default()
        &&& self.pauses_total == 0
        &&& self.pauses.is_default()
        &&& self.zero_copy_memory_path is None
        &&& self.repeated_video_frames == 0
        &&& self.render_resource_lock_busy_count == 0
        &&& self.render_resource_previous_frame_reuse_count == 0
        &&& self.decoder_frame_publish_pressure.is_default()
        &&& self.worker_wakeup.is_default()
        &&& self.worst_stage is None
        &&& self.worst_latency is None
        &&& self.worst_latencies.is_default()
        &&& self.queues.is_default()
    }
}

impl Default for PlaybackDiagnosticsLogSummary {
    fn default() -> (r: Self)
        ensures
            r.is_default(),
    {
        PlaybackDiagnosticsLogSummary {
            drops_total: 0,
            drops: VideoDropCountersSnapshot::default(),
            seek_bootstrap: SeekBootstrapDiagnosticsSnapshot::default(),
            pauses_total: 0,
            pauses: PipelinePauseCountersSnapshot::default(),
            zero_copy_memory_path: None,
            repeated_video_frames: 0,
            render_resource_lock_busy_count: 0,
            render_resource_previous_frame_reuse_count: 0,
            decoder_frame_publish_pressure: DecoderFramePublishPressureSnapshot::default(),
            worker_wakeup: WorkerWakeupDiagnosticsSnapshot::default(),
            worst_stage: None,
            worst_latency: None,
            worst_latencies: PipelineLatencyCountersSnapshot::default(),
            queues: PipelineQueueDepthSnapshot::default(),
        }
    }
}

impl PlaybackDiagnosticsLogSummary {
    /// Whether the control channel was under pressure.
    pub open spec fn control_pressure(self) -> bool {
        self.queues.decoder_control_channel matches Some(pressure) && {
            ||| pressure.control_channel_full_count > 0
            ||| pressure.release_control_send_fail_count > 0
            ||| pressure.flush_control_send_fail_count > 0
        }
    }

    /// Whether anything worth a log line happened.
    pub fn has_activity(self) -> (r: bool)
        ensures
            r == {
                ||| self.drops_total > 0
                ||| self.pauses_total > 0
                ||| self.seek_bootstrap.dropped_until_keyframe > 0
                ||| self.seek_bootstrap.first_accepted_keyframe is Some
                ||| self.render_resource_lock_busy_count > 0
                ||| self.render_resource_previous_frame_reuse_count > 0
                ||| self.decoder_frame_publish_pressure.frame_publish_channel_full_count > 0
                ||| self.decoder_frame_publish_pressure.pending_publish_retry_count > 0
                ||| self.control_pressure()
                ||| self.zero_copy_memory_path is Some
                ||| self.worst_latency is Some
            },
    {
        let control_pressure = match self.queues.decoder_control_channel {
            Some(pressure) => pressure.control_channel_full_count > 0
                || pressure.release_control_send_fail_count > 0
                || pressure.flush_control_send_fail_count > 0,
            None => false,
        };
        self.drops_total > 0 || self.pauses_total > 0
            || self.seek_bootstrap.dropped_until_keyframe > 0
            || self.seek_bootstrap.first_accepted_keyframe.is_some()
            || self.render_resource_lock_busy_count > 0
            || self.render_resource_previous_frame_reuse_count > 0
            || self.decoder_frame_publish_pressure.frame_publish_channel_full_count > 0
            || self.decoder_frame_publish_pressure.pending_publish_retry_count > 0
            || control_pressure || self.zero_copy_memory_path.is_some()
            || self.worst_latency.is_some()
    }
}

/// Latency counter of one stage.
#[derive(Debug, Clone, Copy, PartialEq, Eq, Structural)]
pub struct LatencyCounter {
    /// Number of samples.
    pub samples: u64,
    /// Sum of all samples.
    pub total: Duration,
    /// Worst sample, the latest of equals.
    pub worst: Option<PipelineLatencySampleSnapshot>,
}

impl LatencyCounter {
    /// Nothing has been observed yet.
    pub open spec fn is_default(self) -> bool {
        &&& self.samples == 0
        &&& self.total@ == 0
        &&& self.worst is None
    }
}

impl Default for LatencyCounter {
    fn default() -> (r: Self)
        ensures
            r.is_default(),
    {
        LatencyCounter {
            samples: 0,
            total: Duration::zero(),
            worst: None,
        }
    }
}

impl LatencyCounter {
    /// Whether a sample is the worst so far.
    pub open spec fn is_new_worst(self, sample: PipelineLatencySampleSnapshot) -> bool {
        self.worst matches Some(worst) ==> sample.duration@ >= worst.duration@
    }

    /// The counter after one more sample.
    pub open spec fn recorded(self, sample: PipelineLatencySampleSnapshot) -> Self {
        LatencyCounter {
            samples: bumped(self.samples),
            total: duration(saturated(self.total@ + sample.duration@)),
            worst: if self.is_new_worst(sample) {
                Some(sample)
            } else {
                self.worst
            },
        }
    }

    /// Counts a sample and says whether it is the worst so far.
    pub fn record(&mut self, sample: PipelineLatencySampleSnapshot) -> (r: bool)
        ensures
            r == old(self).is_new_worst(sample),
            *final(self) == old(self).recorded(sample),
    {
        proof {
            use_type_invariant(&self.total);
            use_type_invariant(&sample.duration);
        }
        self.samples = self.samples.saturating_add(1);
        self.total = self.total.saturating_add(sample.duration);
        let is_new_worst = match self.worst {
            Some(worst) => sample.duration >= worst.duration,
            None => true,
        };
        if is_new_worst {
            self.worst = Some(sample);
        }
        is_new_worst
    }

    /// What a snapshot shows of the counter.
    pub open spec fn shown(self) -> LatencyCounterSnapshot {
        LatencyCounterSnapshot {
            samples: self.samples,
            average: duration(average_nanos(self.total@, self.samples)),
            worst: self.worst,
        }
    }

    /// What the counter has gathered.
    pub fn snapshot(self) -> (r: LatencyCounterSnapshot)
        ensures
            r == self.shown(),
    {
        LatencyCounterSnapshot {
            samples: self.samples,
            average: average_duration(self.total, self.samples),
            worst: self.worst,
        }
    }
}

/// The average of `samples` samples with the given sum, at most `u64::MAX` nanoseconds.
pub open spec fn average_nanos(total: int, samples: u64) -> int {
    if samples == 0 {
        0
    } else if total / samples as int > u64::MAX {
        u64::MAX as int
    } else {
        total / samples as int
    }
}

/// The average of `samples` samples with the given sum.
pub fn average_duration(total: Duration, samples: u64) -> (r: Duration)
    ensures
        r == duration(average_nanos(total@, samples)),
{
    if samples == 0 {
        return Duration::zero();
    }
    proof {
        use_type_invariant(&total);
        assert(0 <= total@ / samples as int) by (nonlinear_arith)
            requires
                0 <= total@,
                samples > 0,
        ;
    }
    let average: u128 = total.as_nanos() / samples as u128;
    if average > u64::MAX as u128 {
        Duration::from_nanos(u64::MAX)
    } else {
        Duration::from_nanos(average as u64)
    }
}

/// Latency counters of all stages.
#[derive(Debug, Clone, Copy, PartialEq, Eq, Structural)]
pub struct PipelineLatencyCounters {
    /// Reading a packet from the source.
    pub demux_read: LatencyCounter,
    /// Wait of a packet in the bounded decoder channel.
    pub decoder_packet_receive: LatencyCounter,
    /// Submission of an encoded packet to the decoder.
    pub decoder_submit: LatencyCounter,
    /// Draining of decoder events and the ready queue.
    pub decoder_event_drain: LatencyCounter,
    /// Wait for a hardware decoded surface.
    pub hardware_sync: LatencyCounter,
    /// Export of a decoded surface to external memory.
    pub dma_buf_export: LatencyCounter,
    /// Import of external memory into a renderer resource.
    pub dma_buf_import: LatencyCounter,
    /// Publication of a decoded frame to the worker.
    pub decoded_frame_publish: LatencyCounter,
    /// Decision of the worker's scheduler.
    pub worker_scheduler: LatencyCounter,
    /// Wait of the render thread for the present frame.
    pub render_acquire: LatencyCounter,
    /// Wait for the lock of the backend's resource pool.
    pub render_resource_lock_wait: LatencyCounter,
    /// Submission and presentation of render work.
    pub gpu_submit_present: LatencyCounter,
    /// Delay of a release acknowledgement.
    pub release_acknowledgement: LatencyCounter,
}

impl PipelineLatencyCounters {
    /// Nothing has been observed yet.
    pub open spec fn is_default(self) -> bool {
        &&& self.demux_read.is_default()
        &&& self.decoder_packet_receive.is_default()
        &&& self.decoder_submit.is_default()
        &&& self.decoder_event_drain.is_default()
        &&& self.hardware_sync.is_default()
        &&& self.dma_buf_export.is_default()
        &&& self.dma_buf_import.is_default()
        &&& self.decoded_frame_publish.is_default()
        &&& self.worker_scheduler.is_default()
        &&& self.render_acquire.is_default()
        &&& self.render_resource_lock_wait.is_default()
        &&& self.gpu_submit_present.is_default()
        &&& self.release_acknowledgement.is_default()
    }
}

impl Default for PipelineLatencyCounters {
    fn default() -> (r: Self)
        ensures
            r.is_default(),
    {
        PipelineLatencyCounters {
            demux_read: LatencyCounter::default(),
            decoder_packet_receive: LatencyCounter::default(),
            decoder_submit: LatencyCounter::default(),
            decoder_event_drain: LatencyCounter::default(),
            hardware_sync: LatencyCounter::default(),
            dma_buf_export: LatencyCounter::default(),
            dma_buf_import: LatencyCounter::default(),
            decoded_frame_publish: LatencyCounter::default(),
            worker_scheduler: LatencyCounter::default(),
            render_acquire: LatencyCounter::default(),
            render_resource_lock_wait: LatencyCounter::default(),
            gpu_submit_present: LatencyCounter::default(),
            release_acknowledgement: LatencyCounter::default(),
        }
    }
}

/// Whether entry `k` is the first of the entries with the longest worst sample.
pub open spec fn is_first_worst_at(
    entries: Seq<(PipelineLatencyStage, LatencyCounter)>,
    k: int,
    stage: PipelineLatencyStage,
    latency: Duration,
) -> bool {
    &&& 0 <= k < entries.len()
    &&& entries[k].0 == stage
    &&& entries[k].1.worst is Some
    &&& entries[k].1.worst->0.duration == latency
    &&& forall|i: int|
        0 <= i < entries.len() && (#[trigger] entries[i]).1.worst is Some ==> {
            &&& entries[i].1.worst->0.duration@ <= latency@
            &&& i < k ==> entries[i].1.worst->0.duration@ < latency@
        }
}

/// The longest worst sample of the entries and the stage of the first entry that has it, or
/// nothing where no entry has a sample.
pub open spec fn is_first_worst(
    entries: Seq<(PipelineLatencyStage, LatencyCounter)>,
    stage: Option<PipelineLatencyStage>,
    latency: Option<Duration>,
) -> bool {
    match (stage, latency) {
        (None, None) => forall|i: int|
            0 <= i < entries.len() ==> (#[trigger] entries[i]).1.worst is None,
        (Some(stage), Some(latency)) => exists|k: int|
            is_first_worst_at(entries, k, stage, latency),
        _ => false,
    }
}

impl PipelineLatencyCounters {
    /// All stages with their counters, in the order in which summaries go through them.
    pub open spec fn entries(self) -> Seq<(PipelineLatencyStage, LatencyCounter)> {
        seq![
            (PipelineLatencyStage::DemuxRead, self.demux_read),
            (PipelineLatencyStage::DecoderPacketReceive, self.decoder_packet_receive),
            (PipelineLatencyStage::DecoderSubmit, self.decoder_submit),
            (PipelineLatencyStage::DecoderEventDrain, self.decoder_event_drain),
            (PipelineLatencyStage::HardwareSync, self.hardware_sync),
            (PipelineLatencyStage::DmaBufExport, self.dma_buf_export),
            (PipelineLatencyStage::DmaBufImport, self.dma_buf_import),
            (PipelineLatencyStage::DecodedFramePublish, self.decoded_frame_publish),
            (PipelineLatencyStage::WorkerScheduler, self.worker_scheduler),
            (PipelineLatencyStage::RenderAcquire, self.render_acquire),
            (PipelineLatencyStage::RenderResourceLockWait, self.render_resource_lock_wait),
            (PipelineLatencyStage::GpuSubmitPresent, self.gpu_submit_present),
            (PipelineLatencyStage::ReleaseAcknowledgement, self.release_acknowledgement),
        ]
    }

    /// The counter of a stage.
    pub open spec fn counter(self, stage: PipelineLatencyStage) -> LatencyCounter {
        match stage {
            PipelineLatencyStage::DemuxRead => self.demux_read,
            PipelineLatencyStage::DecoderPacketReceive => self.decoder_packet_receive,
            PipelineLatencyStage::DecoderSubmit => self.decoder_submit,
            PipelineLatencyStage::DecoderEventDrain => self.decoder_event_drain,
            PipelineLatencyStage::HardwareSync => self.hardware_sync,
            PipelineLatencyStage::DmaBufExport => self.dma_buf_export,
            PipelineLatencyStage::DmaBufImport => self.dma_buf_import,
            PipelineLatencyStage::DecodedFramePublish => self.decoded_frame_publish,
            PipelineLatencyStage::WorkerScheduler => self.worker_scheduler,
            PipelineLatencyStage::RenderAcquire => self.render_acquire,
            PipelineLatencyStage::RenderResourceLockWait => self.render_resource_lock_wait,
            PipelineLatencyStage::GpuSubmitPresent => self.gpu_submit_present,
            PipelineLatencyStage::ReleaseAcknowledgement => self.release_acknowledgement,
        }
    }

    /// The counters with the one of a stage replaced.
    pub open spec fn with_counter(self, stage: PipelineLatencyStage, counter: LatencyCounter) -> Self {
        match stage {
            PipelineLatencyStage::DemuxRead => PipelineLatencyCounters { demux_read: counter, ..self },
            PipelineLatencyStage::DecoderPacketReceive => PipelineLatencyCounters { decoder_packet_receive: counter, ..self },
            PipelineLatencyStage::DecoderSubmit => PipelineLatencyCounters { decoder_submit: counter, ..self },
            PipelineLatencyStage::DecoderEventDrain => PipelineLatencyCounters { decoder_event_drain: counter, ..self },
            PipelineLatencyStage::HardwareSync => PipelineLatencyCounters { hardware_sync: counter, ..self },
            PipelineLatencyStage::DmaBufExport => PipelineLatencyCounters { dma_buf_export: counter, ..self },
            PipelineLatencyStage::DmaBufImport => PipelineLatencyCounters { dma_buf_import: counter, ..self },
            PipelineLatencyStage::DecodedFramePublish => PipelineLatencyCounters { decoded_frame_publish: counter, ..self },
            PipelineLatencyStage::WorkerScheduler => PipelineLatencyCounters { worker_scheduler: counter, ..self },
            PipelineLatencyStage::RenderAcquire => PipelineLatencyCounters { render_acquire: counter, ..self },
            PipelineLatencyStage::RenderResourceLockWait => PipelineLatencyCounters { render_resource_lock_wait: counter, ..self },
            PipelineLatencyStage::GpuSubmitPresent => PipelineLatencyCounters { gpu_submit_present: counter, ..self },
            PipelineLatencyStage::ReleaseAcknowledgement => PipelineLatencyCounters { release_acknowledgement: counter, ..self },
        }
    }

    /// The counters after one more sample.
    pub open spec fn recorded(self, sample: PipelineLatencySampleSnapshot) -> Self {
        self.with_counter(sample.stage, self.counter(sample.stage).recorded(sample))
    }

    /// What a snapshot shows of the counters.
    pub open spec fn shown(self) -> PipelineLatencyCountersSnapshot {
        PipelineLatencyCountersSnapshot {
            demux_read: self.demux_read.shown(),
            decoder_packet_receive: self.decoder_packet_receive.shown(),
            decoder_submit: self.decoder_submit.shown(),
            decoder_event_drain: self.decoder_event_drain.shown(),
            hardware_sync: self.hardware_sync.shown(),
            dma_buf_export: self.dma_buf_export.shown(),
            dma_buf_import: self.dma_buf_import.shown(),
            decoded_frame_publish: self.decoded_frame_publish.shown(),
            worker_scheduler: self.worker_scheduler.shown(),
            render_acquire: self.render_acquire.shown(),
            render_resource_lock_wait: self.render_resource_lock_wait.shown(),
            gpu_submit_present: self.gpu_submit_present.shown(),
            release_acknowledgement: self.release_acknowledgement.shown(),
        }
    }

    /// Counts a sample and says whether it is the worst of its stage so far.
    pub fn record(&mut self, sample: PipelineLatencySampleSnapshot) -> (r: bool)
        ensures
            r == old(self).counter(sample.stage).is_new_worst(sample),
            *final(self) == old(self).recorded(sample),
    {
        self.counter_mut(sample.stage).record(sample)
    }

    /// What the counters have gathered.
    pub fn snapshot(&self) -> (r: PipelineLatencyCountersSnapshot)
        ensures
            r == self.shown(),
    {
        PipelineLatencyCountersSnapshot {
            demux_read: self.demux_read.snapshot(),
            decoder_packet_receive: self.decoder_packet_receive.snapshot(),
            decoder_submit: self.decoder_submit.snapshot(),
            decoder_event_drain: self.decoder_event_drain.snapshot(),
            hardware_sync: self.hardware_sync.snapshot(),
            dma_buf_export: self.dma_buf_export.snapshot(),
            dma_buf_import: self.dma_buf_import.snapshot(),
            decoded_frame_publish: self.decoded_frame_publish.snapshot(),
            worker_scheduler: self.worker_scheduler.snapshot(),
            render_acquire: self.render_acquire.snapshot(),
            render_resource_lock_wait: self.render_resource_lock_wait.snapshot(),
            gpu_submit_present: self.gpu_submit_present.snapshot(),
            release_acknowledgement: self.release_acknowledgement.snapshot(),
        }
    }

    /// The worst latency of all stages and the first stage that has it.
    pub fn global_worst(&self) -> (r: (Option<PipelineLatencyStage>, Option<Duration>))
        ensures
            is_first_worst(self.entries(), r.0, r.1),
    {
        let counters = self.stage_counters();
        let ghost entries = counters@;
        let mut worst_stage: Option<PipelineLatencyStage> = None;
        let mut worst_latency: Option<Duration> = None;
        let mut index: usize = 0;
        while index < 13
            invariant
                index <= 13,
                entries == counters@,
                entries.len() == 13,
                is_first_worst(entries.take(index as int), worst_stage, worst_latency),
            decreases 13 - index,
        {
            let (stage, counter) = counters[index];
            let ghost before = entries.take(index as int);
            let ghost after = entries.take(index + 1);
            proof {
                assert(after =~= before.push((stage, counter)));
            }
            if let Some(sample) = counter.worst {
                let is_worse = match worst_latency {
                    Some(latency) => sample.duration > latency,
                    None => true,
                };
                if is_worse {
                    worst_stage = Some(stage);
                    worst_latency = Some(sample.duration);
                    assert(after[index as int] == (stage, counter));
                }
            }
            proof {
                assert forall|i: int| 0 <= i < before.len() implies #[trigger] after[i]
                    == before[i] by {}
                if worst_latency is Some && !(counter.worst is Some
                    && worst_latency == Some(counter.worst->0.duration) && worst_stage == Some(
                    stage,
                )) {
                    let k = choose|k: int| is_first_worst_at(before, k, worst_stage->0, worst_latency->0);
                    assert(is_first_worst_at(after, k, worst_stage->0, worst_latency->0));
                } else if worst_latency is Some {
                    if exists|k: int|
                        is_first_worst_at(before, k, worst_stage->0, worst_latency->0) {
                        let k = choose|k: int|
                            is_first_worst_at(before, k, worst_stage->0, worst_latency->0);
                        assert(is_first_worst_at(after, k, worst_stage->0, worst_latency->0));
                    } else {
                        assert(is_first_worst_at(
                            after,
                            index as int,
                            worst_stage->0,
                            worst_latency->0,
                        ));
                    }
                }
            }
            index = index + 1;
        }
        proof {
            assert(entries.take(13) =~= entries);
        }
        (worst_stage, worst_latency)
    }

    /// The counter of a stage, to change.
    pub fn counter_mut(&mut self, stage: PipelineLatencyStage) -> (r: &mut LatencyCounter)
        ensures
            *r == old(self).counter(stage),
            *final(self) == old(self).with_counter(stage, *final(r)),
    {
        match stage {
            PipelineLatencyStage::DemuxRead => &mut self.demux_read,
            PipelineLatencyStage::DecoderPacketReceive => &mut self.decoder_packet_receive,
            PipelineLatencyStage::DecoderSubmit => &mut self.decoder_submit,
            PipelineLatencyStage::DecoderEventDrain => &mut self.decoder_event_drain,
            PipelineLatencyStage::HardwareSync => &mut self.hardware_sync,
            PipelineLatencyStage::DmaBufExport => &mut self.dma_buf_export,
            PipelineLatencyStage::DmaBufImport => &mut self.dma_buf_import,
            PipelineLatencyStage::DecodedFramePublish => &mut self.decoded_frame_publish,
            PipelineLatencyStage::WorkerScheduler => &mut self.worker_scheduler,
            PipelineLatencyStage::RenderAcquire => &mut self.render_acquire,
            PipelineLatencyStage::RenderResourceLockWait => &mut self.render_resource_lock_wait,
            PipelineLatencyStage::GpuSubmitPresent => &mut self.gpu_submit_present,
            PipelineLatencyStage::ReleaseAcknowledgement => &mut self.release_acknowledgement,
        }
    }

    /// All stages with their counters, in the order in which summaries go through them.
    pub fn stage_counters(&self) -> (r: [(PipelineLatencyStage, LatencyCounter); 13])
        ensures
            r@ == self.entries(),
    {
        [
            (PipelineLatencyStage::DemuxRead, self.demux_read),
            (PipelineLatencyStage::DecoderPacketReceive, self.decoder_packet_receive),
            (PipelineLatencyStage::DecoderSubmit, self.decoder_submit),
            (PipelineLatencyStage::DecoderEventDrain, self.decoder_event_drain),
            (PipelineLatencyStage::HardwareSync, self.hardware_sync),
            (PipelineLatencyStage::DmaBufExport, self.dma_buf_export),
            (PipelineLatencyStage::DmaBufImport, self.dma_buf_import),
            (PipelineLatencyStage::DecodedFramePublish, self.decoded_frame_publish),
            (PipelineLatencyStage::WorkerScheduler, self.worker_scheduler),
            (PipelineLatencyStage::RenderAcquire, self.render_acquire),
            (PipelineLatencyStage::RenderResourceLockWait, self.render_resource_lock_wait),
            (PipelineLatencyStage::GpuSubmitPresent, self.gpu_submit_present),
            (PipelineLatencyStage::ReleaseAcknowledgement, self.release_acknowledgement),
        ]
    }
}

/// Latency counters together with the recent worst samples.
pub struct LatencyHistory {
    /// Counters of all stages.
    pub counters: PipelineLatencyCounters,
    /// Recent worst samples, oldest first.
    pub recent: Seq<PipelineLatencySampleSnapshot>,
}

impl LatencyHistory {
    /// The history after one more sample. A sample that is the worst of its stage joins the
    /// recent ones and displaces the oldest where the ring is full.
    pub open spec fn recorded(self, sample: PipelineLatencySampleSnapshot) -> Self {
        LatencyHistory {
            counters: self.counters.recorded(sample),
            recent: if self.counters.counter(sample.stage).is_new_worst(sample) {
                pushed_recent(self.recent, sample)
            } else {
                self.recent
            },
        }
    }

    /// The history after a latency that may not have been measured.
    pub open spec fn recorded_optional(
        self,
        stage: PipelineLatencyStage,
        latency: Option<Duration>,
        pts: Option<Duration>,
        memory_path: Option<FrameMemoryPath>,
        queues: PipelineQueueDepthSnapshot,
    ) -> Self {
        match latency {
            Some(duration) => self.recorded(
                PipelineLatencySampleSnapshot { stage, duration, pts, memory_path, queues },
            ),
            None => self,
        }
    }

    /// The history after a decoded frame with all latencies that its backend measured.
    pub open spec fn observed<M>(self, frame: DecodedFrame<M>, queues: PipelineQueueDepthSnapshot) -> Self {
        let pts = Some(frame.pts);
        let path = Some(frame.memory_path);
        let t = frame.timings;
        self.recorded_optional(
            PipelineLatencyStage::DecoderPacketReceive,
            t.decoder_packet_receive_latency,
            pts,
            path,
            queues,
        ).recorded_optional(
            PipelineLatencyStage::DecoderSubmit,
            t.decoder_submit_latency,
            pts,
            path,
            queues,
        ).recorded_optional(
            PipelineLatencyStage::DecoderEventDrain,
            t.decoder_event_drain_latency,
            pts,
            path,
            queues,
        ).recorded_optional(
            PipelineLatencyStage::HardwareSync,
            t.hardware_sync_latency,
            pts,
            path,
            queues,
        ).recorded_optional(
            PipelineLatencyStage::DmaBufExport,
            t.dma_buf_export_latency,
            pts,
            path,
            queues,
        ).recorded_optional(
            PipelineLatencyStage::DmaBufImport,
            t.dma_buf_import_latency,
            pts,
            path,
            queues,
        ).recorded_optional(
            PipelineLatencyStage::DecodedFramePublish,
            t.decoded_frame_publish_latency,
            pts,
            path,
            queues,
        )
    }
}

/// The recent samples after one more.
pub open spec fn pushed_recent(
    recent: Seq<PipelineLatencySampleSnapshot>,
    sample: PipelineLatencySampleSnapshot,
) -> Seq<PipelineLatencySampleSnapshot> {
    if recent.len() >= RECENT_WORST_SAMPLE_LIMIT {
        recent.drop_first().push(sample)
    } else {
        recent.push(sample)
    }
}

/// Aggregates what the pipeline observes.
#[derive(Debug)]
pub struct PlaybackDiagnostics {
    /// What has been published so far, without the recent samples.
    pub snapshot: PlaybackDiagnosticsSnapshot,
    /// Recent worst samples, oldest first.
    pub recent_worst_samples: VecDeque<PipelineLatencySampleSnapshot>,
    /// Latency counters.
    pub latency_counters: PipelineLatencyCounters,
}

impl PlaybackDiagnostics {
    /// The ring is bounded, and the published latencies are those of the counters.
    pub open spec fn wf(self) -> bool {
        &&& self.recent_worst_samples@.len() <= RECENT_WORST_SAMPLE_LIMIT
        &&& self.snapshot.worst_latencies == self.latency_counters.shown()
        &&& self.snapshot.recent_worst_samples@.len() == 0
    }

    /// The latency counters and the recent worst samples.
    pub open spec fn history(self) -> LatencyHistory {
        LatencyHistory {
            counters: self.latency_counters,
            recent: self.recent_worst_samples@,
        }
    }

    /// Nothing has been observed yet.
    pub open spec fn is_new(self) -> bool {
        &&& self.wf()
        &&& self.snapshot.is_default()
        &&& self.recent_worst_samples@.len() == 0
        &&& self.latency_counters.is_default()
    }

    /// An empty aggregator.
    pub fn new() -> (r: Self)
        ensures
            r.is_new(),
    {
        let latency_counters = PipelineLatencyCounters::default();
        let snapshot = PlaybackDiagnosticsSnapshot::default();
        proof {
            lemma_default_counters_are_shown(latency_counters, snapshot.worst_latencies);
        }
        PlaybackDiagnostics { snapshot, recent_worst_samples: VecDeque::new(), latency_counters }
    }

    /// Forgets everything.
    pub fn reset(&mut self)
        ensures
            final(self).is_new(),
    {
        *self = Self::new();
    }

    /// Starts counting anew after the decoder was flushed.
    pub fn start_seek_bootstrap(&mut self, queues: PipelineQueueDepthSnapshot)
        requires
            old(self).wf(),
        ensures
            final(self).wf(),
            final(self).history() == old(self).history(),
            final(self).snapshot.seek_bootstrap.is_default(),
            final(self).snapshot == (PlaybackDiagnosticsSnapshot {
                seek_bootstrap: final(self).snapshot.seek_bootstrap,
                queues,
                ..old(self).snapshot
            }),
    {
        self.snapshot.seek_bootstrap = SeekBootstrapDiagnosticsSnapshot::default();
        self.snapshot.queues = queues;
    }

    /// Counts a packet that was removed while the decoder waits for a start.
    pub fn record_seek_bootstrap_drop_until_keyframe(
        &mut self,
        queues: PipelineQueueDepthSnapshot,
    ) -> (r: SeekBootstrapDiagnosticsSnapshot)
        requires
            old(self).wf(),
        ensures
            final(self).wf(),
            final(self).history() == old(self).history(),
            r == (SeekBootstrapDiagnosticsSnapshot {
                dropped_until_keyframe: bumped(
                    old(self).snapshot.seek_bootstrap.dropped_until_keyframe,
                ),
                ..old(self).snapshot.seek_bootstrap
            }),
            final(self).snapshot == (PlaybackDiagnosticsSnapshot {
                seek_bootstrap: r,
                queues,
                ..old(self).snapshot
            }),
    {
        self.snapshot.seek_bootstrap.dropped_until_keyframe =
            self.snapshot.seek_bootstrap.dropped_until_keyframe.saturating_add(1);
        self.snapshot.queues = queues;
        self.snapshot.seek_bootstrap
    }

    /// Remembers the first packet that ended the wait for a start.
    pub fn record_seek_bootstrap_first_accepted(
        &mut self,
        keyframe: PacketKeyframe,
        queues: PipelineQueueDepthSnapshot,
    ) -> (r: SeekBootstrapDiagnosticsSnapshot)
        requires
            old(self).wf(),
        ensures
            final(self).wf(),
            final(self).history() == old(self).history(),
            r == (SeekBootstrapDiagnosticsSnapshot {
                first_accepted_keyframe: match old(
                    self,
                ).snapshot.seek_bootstrap.first_accepted_keyframe {
                    Some(first) => Some(first),
                    None => Some(keyframe),
                },
                ..old(self).snapshot.seek_bootstrap
            }),
            final(self).snapshot == (PlaybackDiagnosticsSnapshot {
                seek_bootstrap: r,
                queues,
                ..old(self).snapshot
            }),
    {
        if self.snapshot.seek_bootstrap.first_accepted_keyframe.is_none() {
            self.snapshot.seek_bootstrap.first_accepted_keyframe = Some(keyframe);
        }
        self.snapshot.queues = queues;
        self.snapshot.seek_bootstrap
    }

    /// Counts a decoded frame with the latencies that its backend measured.
    pub fn observe_decoded_frame<M>(
        &mut self,
        frame: &DecodedFrame<M>,
        queues: PipelineQueueDepthSnapshot,
    )
        requires
            old(self).wf(),
        ensures
            final(self).wf(),
            final(self).history() == old(self).history().observed(*frame, queues),
            final(self).snapshot == (PlaybackDiagnosticsSnapshot {
                decoded_frames: bumped(old(self).snapshot.decoded_frames),
                zero_copy_memory_path: Some(frame.memory_path),
                queues,
                worst_latencies: final(self).latency_counters.shown(),
                decoder_frame_publish_pressure: match frame.timings.decoded_frame_publish_latency {
                    Some(latency) => old(self).snapshot.decoder_frame_publish_pressure.observed(
                        latency,
                    ),
                    None => old(self).snapshot.decoder_frame_publish_pressure,
                },
                ..old(self).snapshot
            }),
    {
        self.snapshot.decoded_frames = self.snapshot.decoded_frames.saturating_add(1);
        let memory_path = frame.memory_path;
        self.snapshot.zero_copy_memory_path = Some(memory_path);
        self.snapshot.queues = queues;
        let pts = Some(frame.pts);
        let path = Some(memory_path);
        let timings = frame.timings;
        self.record_optional_latency(
            PipelineLatencyStage::DecoderPacketReceive,
            timings.decoder_packet_receive_latency,
            pts,
            path,
            queues,
        );
        self.record_optional_latency(
            PipelineLatencyStage::DecoderSubmit,
            timings.decoder_submit_latency,
            pts,
            path,
            queues,
        );
        self.record_optional_latency(
            PipelineLatencyStage::DecoderEventDrain,
            timings.decoder_event_drain_latency,
            pts,
            path,
            queues,
        );
        self.record_optional_latency(
            PipelineLatencyStage::HardwareSync,
            timings.hardware_sync_latency,
            pts,
            path,
            queues,
        );
        self.record_optional_latency(
            PipelineLatencyStage::DmaBufExport,
            timings.dma_buf_export_latency,
            pts,
            path,
            queues,
        );
        self.record_optional_latency(
            PipelineLatencyStage::DmaBufImport,
            timings.dma_buf_import_latency,
            pts,
            path,
            queues,
        );
        self.record_optional_latency(
            PipelineLatencyStage::DecodedFramePublish,
            timings.decoded_frame_publish_latency,
            pts,
            path,
            queues,
        );
        if let Some(latency) = timings.decoded_frame_publish_latency {
            self.snapshot.decoder_frame_publish_pressure.observe_published_frame_latency(latency);
        }
    }

    /// Takes the counters that the decoder thread reports of its publish boundary.
    pub fn record_decoded_frame_publish_pressure(
        &mut self,
        pressure: VideoFramePublishPressureDiagnostics,
        queues: PipelineQueueDepthSnapshot,
    )
        requires
            old(self).wf(),
        ensures
            final(self).wf(),
            final(self).history() == old(self).history(),
            final(self).snapshot == (PlaybackDiagnosticsSnapshot {
                decoder_frame_publish_pressure: DecoderFramePublishPressureSnapshot {
                    frame_publish_channel_full_count: pressure.frame_publish_channel_full_count,
                    pending_publish_retry_count: pressure.pending_publish_retry_count,
                    ..old(self).snapshot.decoder_frame_publish_pressure
                },
                queues,
                ..old(self).snapshot
            }),
    {
        self.snapshot.decoder_frame_publish_pressure.observe_pressure_event(pressure);
        self.snapshot.queues = queues;
    }

    /// Counts a latency of one stage.
    pub fn record_latency(
        &mut self,
        stage: PipelineLatencyStage,
        duration: Duration,
        pts: Option<Duration>,
        memory_path: Option<FrameMemoryPath>,
        queues: PipelineQueueDepthSnapshot,
    )
        requires
            old(self).wf(),
        ensures
            final(self).wf(),
            final(self).history() == old(self).history().recorded(
                (PipelineLatencySampleSnapshot { stage, duration, pts, memory_path, queues }),
            ),
            final(self).snapshot == (PlaybackDiagnosticsSnapshot {
                worst_latencies: final(self).latency_counters.shown(),
                queues,
                ..old(self).snapshot
            }),
    {
        let sample = PipelineLatencySampleSnapshot { stage, duration, pts, memory_path, queues };
        let is_new_worst = self.latency_counters.record(sample);
        if is_new_worst {
            self.push_recent_worst_sample(sample);
        }
        self.snapshot.worst_latencies = self.latency_counters.snapshot();
        self.snapshot.queues = queues;
    }

    /// Counts a removed video item.
    pub fn record_drop(
        &mut self,
        pts: Option<Duration>,
        reason: VideoDropReason,
        queues: PipelineQueueDepthSnapshot,
    )
        requires
            old(self).wf(),
        ensures
            final(self).wf(),
            final(self).history() == old(self).history(),
            final(self).snapshot == (PlaybackDiagnosticsSnapshot {
                drops: old(self).snapshot.drops.recorded(pts, reason, queues),
                queues,
                ..old(self).snapshot
            }),
    {
        self.snapshot.drops.total = self.snapshot.drops.total.saturating_add(1);
        match reason {
            VideoDropReason::Late => {
                self.snapshot.drops.playback_or_render =
                    self.snapshot.drops.playback_or_render.saturating_add(1);
                self.snapshot.drops.late = self.snapshot.drops.late.saturating_add(1);
            },
            VideoDropReason::QueueOverflow => {
                self.snapshot.drops.playback_or_render =
                    self.snapshot.drops.playback_or_render.saturating_add(1);
                self.snapshot.drops.queue_overflow =
                    self.snapshot.drops.queue_overflow.saturating_add(1);
            },
            VideoDropReason::StaleGeneration => {
                self.snapshot.drops.seek_discard =
                    self.snapshot.drops.seek_discard.saturating_add(1);
                self.snapshot.drops.stale_generation =
                    self.snapshot.drops.stale_generation.saturating_add(1);
            },
            VideoDropReason::SeekPreroll => {
                self.snapshot.drops.seek_discard =
                    self.snapshot.drops.seek_discard.saturating_add(1);
                self.snapshot.drops.seek_preroll =
                    self.snapshot.drops.seek_preroll.saturating_add(1);
            },
            VideoDropReason::RenderAcquisitionTimeout => {
                self.snapshot.drops.playback_or_render =
                    self.snapshot.drops.playback_or_render.saturating_add(1);
                self.snapshot.drops.render_acquisition_timeout =
                    self.snapshot.drops.render_acquisition_timeout.saturating_add(1);
            },
            VideoDropReason::DecoderStarvation => {
                self.snapshot.drops.playback_or_render =
                    self.snapshot.drops.playback_or_render.saturating_add(1);
                self.snapshot.drops.decoder_starvation =
                    self.snapshot.drops.decoder_starvation.saturating_add(1);
            },
            VideoDropReason::Paused => {
                self.snapshot.drops.playback_or_render =
                    self.snapshot.drops.playback_or_render.saturating_add(1);
                self.snapshot.drops.paused = self.snapshot.drops.paused.saturating_add(1);
            },
        }
        self.snapshot.drops.last = Some(VideoDropAttributionSnapshot { pts, reason, queues });
        self.snapshot.queues = queues;
    }

    /// Counts a pause.
    pub fn record_pause(&mut self, reason: PipelinePauseReason, queues: PipelineQueueDepthSnapshot)
        requires
            old(self).wf(),
        ensures
            final(self).wf(),
            final(self).history() == old(self).history(),
            final(self).snapshot == (PlaybackDiagnosticsSnapshot {
                pauses: old(self).snapshot.pauses.recorded(reason, queues),
                queues,
                ..old(self).snapshot
            }),
    {
        self.snapshot.pauses.total = self.snapshot.pauses.total.saturating_add(1);
        match reason {
            PipelinePauseReason::DemuxBackpressure => {
                self.snapshot.pauses.demux_backpressure =
                    self.snapshot.pauses.demux_backpressure.saturating_add(1);
            },
            PipelinePauseReason::WaitingForFreeSurface => {
                self.snapshot.pauses.waiting_for_free_surface =
                    self.snapshot.pauses.waiting_for_free_surface.saturating_add(1);
            },
            PipelinePauseReason::WaitingForPresentQueue => {
                self.snapshot.pauses.waiting_for_present_queue =
                    self.snapshot.pauses.waiting_for_present_queue.saturating_add(1);
            },
            PipelinePauseReason::WaitingForGpuRelease => {
                self.snapshot.pauses.waiting_for_gpu_release =
                    self.snapshot.pauses.waiting_for_gpu_release.saturating_add(1);
            },
            PipelinePauseReason::WaitingForDemuxAudioPriority => {
                self.snapshot.pauses.waiting_for_demux_audio_priority =
                    self.snapshot.pauses.waiting_for_demux_audio_priority.saturating_add(1);
            },
            PipelinePauseReason::DecoderPacketQueueFull => {
                self.snapshot.pauses.decoder_packet_queue_full =
                    self.snapshot.pauses.decoder_packet_queue_full.saturating_add(1);
            },
            PipelinePauseReason::DecoderControlQueueFull => {
                self.snapshot.pauses.decoder_control_queue_full =
                    self.snapshot.pauses.decoder_control_queue_full.saturating_add(1);
            },
            PipelinePauseReason::HostUploadReadyQueueFull => {
                self.snapshot.pauses.host_upload_ready_queue_full =
                    self.snapshot.pauses.host_upload_ready_queue_full.saturating_add(1);
            },
            PipelinePauseReason::HostUploadSlotsExhausted => {
                self.snapshot.pauses.host_upload_slots_exhausted =
                    self.snapshot.pauses.host_upload_slots_exhausted.saturating_add(1);
            },
            PipelinePauseReason::DecoderStarvation => {
                self.snapshot.pauses.decoder_starvation =
                    self.snapshot.pauses.decoder_starvation.saturating_add(1);
            },
            PipelinePauseReason::SyncWaiting => {
                self.snapshot.pauses.sync_waiting =
                    self.snapshot.pauses.sync_waiting.saturating_add(1);
            },
            PipelinePauseReason::RenderAcquireTimeout => {
                self.snapshot.pauses.render_acquire_timeout =
                    self.snapshot.pauses.render_acquire_timeout.saturating_add(1);
            },
        }
        self.snapshot.pauses.last = Some(PipelinePauseSnapshot { reason, queues });
        self.snapshot.queues = queues;
    }

    /// Counts a repetition of the present frame.
    pub fn record_repeated_video_frame(&mut self, queues: PipelineQueueDepthSnapshot)
        requires
            old(self).wf(),
        ensures
            final(self).wf(),
            final(self).history() == old(self).history(),
            final(self).snapshot == (PlaybackDiagnosticsSnapshot {
                repeated_video_frames: bumped(old(self).snapshot.repeated_video_frames),
                queues,
                ..old(self).snapshot
            }),
    {
        self.snapshot.repeated_video_frames = self.snapshot.repeated_video_frames.saturating_add(1);
        self.snapshot.queues = queues;
    }

    /// Counts a lookup that met a taken lock.
    pub fn record_render_resource_lock_busy(&mut self, queues: PipelineQueueDepthSnapshot)
        requires
            old(self).wf(),
        ensures
            final(self).wf(),
            final(self).history() == old(self).history(),
            final(self).snapshot == (PlaybackDiagnosticsSnapshot {
                render_resource_lock_busy_count: bumped(
                    old(self).snapshot.render_resource_lock_busy_count,
                ),
                queues,
                ..old(self).snapshot
            }),
    {
        self.snapshot.render_resource_lock_busy_count =
            self.snapshot.render_resource_lock_busy_count.saturating_add(1);
        self.snapshot.queues = queues;
    }

    /// Counts a frame that was reused because of a taken lock.
    pub fn record_render_resource_previous_frame_reuse(
        &mut self,
        queues: PipelineQueueDepthSnapshot,
    )
        requires
            old(self).wf(),
        ensures
            final(self).wf(),
            final(self).history() == old(self).history(),
            final(self).snapshot == (PlaybackDiagnosticsSnapshot {
                render_resource_previous_frame_reuse_count: bumped(
                    old(self).snapshot.render_resource_previous_frame_reuse_count,
                ),
                queues,
                ..old(self).snapshot
            }),
    {
        self.snapshot.render_resource_previous_frame_reuse_count =
            self.snapshot.render_resource_previous_frame_reuse_count.saturating_add(1);
        self.snapshot.queues = queues;
    }

    /// Remembers the last decision about the worker's wakeup.
    pub fn record_worker_wakeup(
        &mut self,
        wakeup: WorkerWakeupDiagnosticsSnapshot,
        queues: PipelineQueueDepthSnapshot,
    )
        requires
            old(self).wf(),
        ensures
            final(self).wf(),
            final(self).history() == old(self).history(),
            final(self).snapshot == (PlaybackDiagnosticsSnapshot {
                worker_wakeup: wakeup,
                queues,
                ..old(self).snapshot
            }),
    {
        self.snapshot.worker_wakeup = wakeup;
        self.snapshot.queues = queues;
    }

    /// Everything observed so far, with the current depths of the queues.
    pub fn snapshot_with_queues(&self, queues: PipelineQueueDepthSnapshot) -> (r:
        PlaybackDiagnosticsSnapshot)
        requires
            self.wf(),
        ensures
            r.recent_worst_samples@ == self.recent_worst_samples@,
            r == (PlaybackDiagnosticsSnapshot {
                queues,
                recent_worst_samples: r.recent_worst_samples,
                ..self.snapshot
            }),
    {
        let mut recent_worst_samples: Vec<PipelineLatencySampleSnapshot> = Vec::new();
        let mut index: usize = 0;
        while index < self.recent_worst_samples.len()
            invariant
                index <= self.recent_worst_samples@.len(),
                recent_worst_samples@ == self.recent_worst_samples@.take(index as int),
            decreases self.recent_worst_samples@.len() - index,
        {
            recent_worst_samples.push(self.recent_worst_samples[index]);
            index = index + 1;
            assert(recent_worst_samples@ =~= self.recent_worst_samples@.take(index as int));
        }
        assert(self.recent_worst_samples@.take(index as int) =~= self.recent_worst_samples@);
        PlaybackDiagnosticsSnapshot {
            zero_copy_memory_path: self.snapshot.zero_copy_memory_path,
            queues,
            drops: self.snapshot.drops,
            seek_bootstrap: self.snapshot.seek_bootstrap,
            pauses: self.snapshot.pauses,
            worst_latencies: self.snapshot.worst_latencies,
            recent_worst_samples,
            decoded_frames: self.snapshot.decoded_frames,
            repeated_video_frames: self.snapshot.repeated_video_frames,
            render_resource_lock_busy_count: self.snapshot.render_resource_lock_busy_count,
            render_resource_previous_frame_reuse_count:
                self.snapshot.render_resource_previous_frame_reuse_count,
            decoder_frame_publish_pressure: self.snapshot.decoder_frame_publish_pressure,
            worker_wakeup: self.snapshot.worker_wakeup,
        }
    }

    /// A compact summary with the current depths of the queues.
    pub fn log_summary(&self, queues: PipelineQueueDepthSnapshot) -> (r:
        PlaybackDiagnosticsLogSummary)
        requires
            self.wf(),
        ensures
            is_first_worst(self.latency_counters.entries(), r.worst_stage, r.worst_latency),
            r == (PlaybackDiagnosticsLogSummary {
                drops_total: self.snapshot.drops.total,
                drops: self.snapshot.drops,
                seek_bootstrap: self.snapshot.seek_bootstrap,
                pauses_total: self.snapshot.pauses.total,
                pauses: self.snapshot.pauses,
                zero_copy_memory_path: self.snapshot.zero_copy_memory_path,
                repeated_video_frames: self.snapshot.repeated_video_frames,
                render_resource_lock_busy_count: self.snapshot.render_resource_lock_busy_count,
                render_resource_previous_frame_reuse_count:
                    self.snapshot.render_resource_previous_frame_reuse_count,
                decoder_frame_publish_pressure: self.snapshot.decoder_frame_publish_pressure,
                worker_wakeup: self.snapshot.worker_wakeup,
                worst_stage: r.worst_stage,
                worst_latency: r.worst_latency,
                worst_latencies: self.latency_counters.shown(),
                queues,
            }),
    {
        let (worst_stage, worst_latency) = self.latency_counters.global_worst();
        PlaybackDiagnosticsLogSummary {
            drops_total: self.snapshot.drops.total,
            drops: self.snapshot.drops,
            seek_bootstrap: self.snapshot.seek_bootstrap,
            pauses_total: self.snapshot.pauses.total,
            pauses: self.snapshot.pauses,
            zero_copy_memory_path: self.snapshot.zero_copy_memory_path,
            repeated_video_frames: self.snapshot.repeated_video_frames,
            render_resource_lock_busy_count: self.snapshot.render_resource_lock_busy_count,
            render_resource_previous_frame_reuse_count:
                self.snapshot.render_resource_previous_frame_reuse_count,
            decoder_frame_publish_pressure: self.snapshot.decoder_frame_publish_pressure,
            worker_wakeup: self.snapshot.worker_wakeup,
            worst_stage,
            worst_latency,
            worst_latencies: self.latency_counters.snapshot(),
            queues,
        }
    }

    /// Counts a latency that may not have been measured.
    fn record_optional_latency(
        &mut self,
        stage: PipelineLatencyStage,
        latency: Option<Duration>,
        pts: Option<Duration>,
        memory_path: Option<FrameMemoryPath>,
        queues: PipelineQueueDepthSnapshot,
    )
        requires
            old(self).wf(),
            old(self).snapshot.queues == queues,
        ensures
            final(self).wf(),
            final(self).history() == old(self).history().recorded_optional(
                stage,
                latency,
                pts,
                memory_path,
                queues,
            ),
            final(self).snapshot == (PlaybackDiagnosticsSnapshot {
                worst_latencies: final(self).latency_counters.shown(),
                ..old(self).snapshot
            }),
    {
        if let Some(duration) = latency {
            self.record_latency(stage, duration, pts, memory_path, queues);
        }
    }

    /// Adds a sample to the ring.
    fn push_recent_worst_sample(&mut self, sample: PipelineLatencySampleSnapshot)
        requires
            old(self).recent_worst_samples@.len() <= RECENT_WORST_SAMPLE_LIMIT,
        ensures
            final(self).recent_worst_samples@ == pushed_recent(
                old(self).recent_worst_samples@,
                sample,
            ),
            final(self).recent_worst_samples@.len() <= RECENT_WORST_SAMPLE_LIMIT,
            final(self).snapshot == old(self).snapshot,
            final(self).latency_counters == old(self).latency_counters,
    {
        if self.recent_worst_samples.len() == RECENT_WORST_SAMPLE_LIMIT {
            let _displaced = self.recent_worst_samples.pop_front();
        }
        self.recent_worst_samples.push_back(sample);
        assert(self.recent_worst_samples@ =~= pushed_recent(
            old(self).recent_worst_samples@,
            sample,
        ));
    }
}

impl Clone for PlaybackDiagnostics {
    fn clone(&self) -> (r: Self)
        ensures
            r.history() == self.history(),
            r.snapshot.recent_worst_samples@ == self.snapshot.recent_worst_samples@,
            r.snapshot == (PlaybackDiagnosticsSnapshot {
                recent_worst_samples: r.snapshot.recent_worst_samples,
                ..self.snapshot
            }),
    {
        let mut recent_worst_samples: VecDeque<PipelineLatencySampleSnapshot> = VecDeque::new();
        let mut index: usize = 0;
        while index < self.recent_worst_samples.len()
            invariant
                index <= self.recent_worst_samples@.len(),
                recent_worst_samples@ == self.recent_worst_samples@.take(index as int),
            decreases self.recent_worst_samples@.len() - index,
        {
            recent_worst_samples.push_back(self.recent_worst_samples[index]);
            index = index + 1;
            assert(recent_worst_samples@ =~= self.recent_worst_samples@.take(index as int));
        }
        assert(self.recent_worst_samples@.take(index as int) =~= self.recent_worst_samples@);
        let published_samples = self.snapshot.recent_worst_samples.clone();
        assert(published_samples@ =~= self.snapshot.recent_worst_samples@);
        PlaybackDiagnostics {
            snapshot: PlaybackDiagnosticsSnapshot {
                zero_copy_memory_path: self.snapshot.zero_copy_memory_path,
                queues: self.snapshot.queues,
                drops: self.snapshot.drops,
                seek_bootstrap: self.snapshot.seek_bootstrap,
                pauses: self.snapshot.pauses,
                worst_latencies: self.snapshot.worst_latencies,
                recent_worst_samples: published_samples,
                decoded_frames: self.snapshot.decoded_frames,
                repeated_video_frames: self.snapshot.repeated_video_frames,
                render_resource_lock_busy_count: self.snapshot.render_resource_lock_busy_count,
                render_resource_previous_frame_reuse_count:
                    self.snapshot.render_resource_previous_frame_reuse_count,
                decoder_frame_publish_pressure: self.snapshot.decoder_frame_publish_pressure,
                worker_wakeup: self.snapshot.worker_wakeup,
            },
            recent_worst_samples,
            latency_counters: self.latency_counters,
        }
    }
}

impl Default for PlaybackDiagnostics {
    fn default() -> (r: Self)
        ensures
            r.is_new(),
    {
        Self::new()
    }
}

proof fn lemma_default_counters_are_shown(
    counters: PipelineLatencyCounters,
    shown: PipelineLatencyCountersSnapshot,
)
    requires
        counters.is_default(),
        shown.is_default(),
    ensures
        shown == counters.shown(),
{
}

/// A removal keeps the counters in balance as long as none of them is at its limit.
pub proof fn law_drops_stay_balanced(
    drops: VideoDropCountersSnapshot,
    pts: Option<Duration>,
    reason: VideoDropReason,
    queues: PipelineQueueDepthSnapshot,
)
    requires
        drops.is_balanced(),
        drops.total < u64::MAX,
    ensures
        drops.recorded(pts, reason, queues).is_balanced(),
        drops.recorded(pts, reason, queues).total == drops.total + 1,
{
}

/// A pause is counted once in total and once by its reason as long as no counter is at its
/// limit.
pub proof fn law_pauses_stay_balanced(
    pauses: PipelinePauseCountersSnapshot,
    reason: PipelinePauseReason,
    queues: PipelineQueueDepthSnapshot,
)
    requires
        pauses.total == pauses.by_reason(),
        pauses.total < u64::MAX,
    ensures
        pauses.recorded(reason, queues).total == pauses.recorded(reason, queues).by_reason(),
{
}

/// The ring of recent samples is bounded, and its youngest entry is the sample that was added.
pub proof fn law_recent_samples_are_bounded(
    recent: Seq<PipelineLatencySampleSnapshot>,
    sample: PipelineLatencySampleSnapshot,
)
    requires
        recent.len() <= RECENT_WORST_SAMPLE_LIMIT,
    ensures
        pushed_recent(recent, sample).len() <= RECENT_WORST_SAMPLE_LIMIT,
        pushed_recent(recent, sample).last() == sample,
{
}

/// The worst sample of a counter is never shorter than a sample that was recorded.
pub proof fn law_worst_sample_bounds_recorded_samples(
    counter: LatencyCounter,
    sample: PipelineLatencySampleSnapshot,
)
    ensures
        counter.recorded(sample).worst is Some,
        counter.recorded(sample).worst->0.duration@ >= sample.duration@,
        counter.worst is Some ==> counter.recorded(sample).worst->0.duration@
            >= counter.worst->0.duration@,
{
}

/// A removal is counted in total, by its reason and by no other, and in the group of its reason:
/// what a seek discards is counted apart from what playback loses.
pub proof fn law_removal_is_counted_by_its_reason(
    before: PlaybackDiagnostics,
    after: PlaybackDiagnostics,
    pts: Option<Duration>,
    reason: VideoDropReason,
    queues: PipelineQueueDepthSnapshot,
)
    requires
        exists|diagnostics: &mut PlaybackDiagnostics|
            *diagnostics == before && *final(diagnostics) == after && #[trigger] call_ensures(
                PlaybackDiagnostics::record_drop,
                (diagnostics, pts, reason, queues),
                (),
            ),
    ensures
        before.snapshot.drops.total < u64::MAX ==> after.snapshot.drops.total
            == before.snapshot.drops.total + 1,
        reason is Late && before.snapshot.drops.late < u64::MAX ==> after.snapshot.drops.late == before.snapshot.drops.late
            + 1,
        !(reason is Late) ==> after.snapshot.drops.late == before.snapshot.drops.late,
        reason is QueueOverflow && before.snapshot.drops.queue_overflow < u64::MAX ==> after.snapshot.drops.queue_overflow == before.snapshot.drops.queue_overflow
            + 1,
        !(reason is QueueOverflow) ==> after.snapshot.drops.queue_overflow == before.snapshot.drops.queue_overflow,
        reason is StaleGeneration && before.snapshot.drops.stale_generation < u64::MAX ==> after.snapshot.drops.stale_generation == before.snapshot.drops.stale_generation
            + 1,
        !(reason is StaleGeneration) ==> after.snapshot.drops.stale_generation == before.snapshot.drops.stale_generation,
        reason is SeekPreroll && before.snapshot.drops.seek_preroll < u64::MAX ==> after.snapshot.drops.seek_preroll == before.snapshot.drops.seek_preroll
            + 1,
        !(reason is SeekPreroll) ==> after.snapshot.drops.seek_preroll == before.snapshot.drops.seek_preroll,
        reason is RenderAcquisitionTimeout && before.snapshot.drops.render_acquisition_timeout < u64::MAX ==> after.snapshot.drops.render_acquisition_timeout == before.snapshot.drops.render_acquisition_timeout
            + 1,
        !(reason is RenderAcquisitionTimeout) ==> after.snapshot.drops.render_acquisition_timeout == before.snapshot.drops.render_acquisition_timeout,
        reason is DecoderStarvation && before.snapshot.drops.decoder_starvation < u64::MAX ==> after.snapshot.drops.decoder_starvation == before.snapshot.drops.decoder_starvation
            + 1,
        !(reason is DecoderStarvation) ==> after.snapshot.drops.decoder_starvation == before.snapshot.drops.decoder_starvation,
        reason is Paused && before.snapshot.drops.paused < u64::MAX ==> after.snapshot.drops.paused == before.snapshot.drops.paused
            + 1,
        !(reason is Paused) ==> after.snapshot.drops.paused == before.snapshot.drops.paused,
        reason is StaleGeneration || reason is SeekPreroll
            ==> after.snapshot.drops.playback_or_render == before.snapshot.drops.playback_or_render
            && (before.snapshot.drops.seek_discard < u64::MAX ==> after.snapshot.drops.seek_discard
            == before.snapshot.drops.seek_discard + 1),
        !(reason is StaleGeneration || reason is SeekPreroll) ==> after.snapshot.drops.seek_discard
            == before.snapshot.drops.seek_discard && (before.snapshot.drops.playback_or_render
            < u64::MAX ==> after.snapshot.drops.playback_or_render
            == before.snapshot.drops.playback_or_render + 1),
        after.snapshot.drops.last is Some && after.snapshot.drops.last->0.reason == reason
            && after.snapshot.drops.last->0.pts == pts,
        after.snapshot.pauses == before.snapshot.pauses,
        after.latency_counters == before.latency_counters,
{
}

/// A pause is counted in total, by its reason and by no other.
pub proof fn law_pause_is_counted_by_its_reason(
    before: PlaybackDiagnostics,
    after: PlaybackDiagnostics,
    reason: PipelinePauseReason,
    queues: PipelineQueueDepthSnapshot,
)
    requires
        exists|diagnostics: &mut PlaybackDiagnostics|
            *diagnostics == before && *final(diagnostics) == after && #[trigger] call_ensures(
                PlaybackDiagnostics::record_pause,
                (diagnostics, reason, queues),
                (),
            ),
    ensures
        before.snapshot.pauses.total < u64::MAX ==> after.snapshot.pauses.total
            == before.snapshot.pauses.total + 1,
        reason is DemuxBackpressure && before.snapshot.pauses.demux_backpressure < u64::MAX ==> after.snapshot.pauses.demux_backpressure == before.snapshot.pauses.demux_backpressure
            + 1,
        !(reason is DemuxBackpressure) ==> after.snapshot.pauses.demux_backpressure == before.snapshot.pauses.demux_backpressure,
        reason is WaitingForFreeSurface && before.snapshot.pauses.waiting_for_free_surface < u64::MAX ==> after.snapshot.pauses.waiting_for_free_surface == before.snapshot.pauses.waiting_for_free_surface
            + 1,
        !(reason is WaitingForFreeSurface) ==> after.snapshot.pauses.waiting_for_free_surface == before.snapshot.pauses.waiting_for_free_surface,
        reason is WaitingForPresentQueue && before.snapshot.pauses.waiting_for_present_queue < u64::MAX ==> after.snapshot.pauses.waiting_for_present_queue == before.snapshot.pauses.waiting_for_present_queue
            + 1,
        !(reason is WaitingForPresentQueue) ==> after.snapshot.pauses.waiting_for_present_queue == before.snapshot.pauses.waiting_for_present_queue,
        reason is WaitingForGpuRelease && before.snapshot.pauses.waiting_for_gpu_release < u64::MAX ==> after.snapshot.pauses.waiting_for_gpu_release == before.snapshot.pauses.waiting_for_gpu_release
            + 1,
        !(reason is WaitingForGpuRelease) ==> after.snapshot.pauses.waiting_for_gpu_release == before.snapshot.pauses.waiting_for_gpu_release,
        reason is WaitingForDemuxAudioPriority && before.snapshot.pauses.waiting_for_demux_audio_priority < u64::MAX ==> after.snapshot.pauses.waiting_for_demux_audio_priority == before.snapshot.pauses.waiting_for_demux_audio_priority
            + 1,
        !(reason is WaitingForDemuxAudioPriority) ==> after.snapshot.pauses.waiting_for_demux_audio_priority == before.snapshot.pauses.waiting_for_demux_audio_priority,
        reason is DecoderPacketQueueFull && before.snapshot.pauses.decoder_packet_queue_full < u64::MAX ==> after.snapshot.pauses.decoder_packet_queue_full == before.snapshot.pauses.decoder_packet_queue_full
            + 1,
        !(reason is DecoderPacketQueueFull) ==> after.snapshot.pauses.decoder_packet_queue_full == before.snapshot.pauses.decoder_packet_queue_full,
        reason is DecoderControlQueueFull && before.snapshot.pauses.decoder_control_queue_full < u64::MAX ==> after.snapshot.pauses.decoder_control_queue_full == before.snapshot.pauses.decoder_control_queue_full
            + 1,
        !(reason is DecoderControlQueueFull) ==> after.snapshot.pauses.decoder_control_queue_full == before.snapshot.pauses.decoder_control_queue_full,
        reason is HostUploadReadyQueueFull && before.snapshot.pauses.host_upload_ready_queue_full < u64::MAX ==> after.snapshot.pauses.host_upload_ready_queue_full == before.snapshot.pauses.host_upload_ready_queue_full
            + 1,
        !(reason is HostUploadReadyQueueFull) ==> after.snapshot.pauses.host_upload_ready_queue_full == before.snapshot.pauses.host_upload_ready_queue_full,
        reason is HostUploadSlotsExhausted && before.snapshot.pauses.host_upload_slots_exhausted < u64::MAX ==> after.snapshot.pauses.host_upload_slots_exhausted == before.snapshot.pauses.host_upload_slots_exhausted
            + 1,
        !(reason is HostUploadSlotsExhausted) ==> after.snapshot.pauses.host_upload_slots_exhausted == before.snapshot.pauses.host_upload_slots_exhausted,
        reason is DecoderStarvation && before.snapshot.pauses.decoder_starvation < u64::MAX ==> after.snapshot.pauses.decoder_starvation == before.snapshot.pauses.decoder_starvation
            + 1,
        !(reason is DecoderStarvation) ==> after.snapshot.pauses.decoder_starvation == before.snapshot.pauses.decoder_starvation,
        reason is SyncWaiting && before.snapshot.pauses.sync_waiting < u64::MAX ==> after.snapshot.pauses.sync_waiting == before.snapshot.pauses.sync_waiting
            + 1,
        !(reason is SyncWaiting) ==> after.snapshot.pauses.sync_waiting == before.snapshot.pauses.sync_waiting,
        reason is RenderAcquireTimeout && before.snapshot.pauses.render_acquire_timeout < u64::MAX ==> after.snapshot.pauses.render_acquire_timeout == before.snapshot.pauses.render_acquire_timeout
            + 1,
        !(reason is RenderAcquireTimeout) ==> after.snapshot.pauses.render_acquire_timeout == before.snapshot.pauses.render_acquire_timeout,
        after.snapshot.pauses.last is Some && after.snapshot.pauses.last->0.reason == reason,
        after.snapshot.drops == before.snapshot.drops,
        after.latency_counters == before.latency_counters,
{
}

/// Whether a counter counts one more sample, adds it to the sum, and has the longer of the sample
/// and the former worst one as its worst; `worst` tells whether that is the sample.
pub open spec fn follows(
    before: LatencyCounter,
    sample: PipelineLatencySampleSnapshot,
    after: LatencyCounter,
    worst: bool,
) -> bool {
    &&& before.samples < u64::MAX ==> after.samples == before.samples + 1
    &&& before.total@ + sample.duration@ <= 18_446_744_073_709_551_615_999_999_999
        ==> after.total@ == before.total@ + sample.duration@
    &&& after.worst == if worst {
        Some(sample)
    } else {
        before.worst
    }
    &&& !worst <==> before.worst is Some && before.worst->0.duration@ > sample.duration@
}

/// A sample counts for its own stage and for no other, and it becomes the worst one of its stage
/// unless that is longer.
pub proof fn law_sample_counts_for_its_stage(
    before: PipelineLatencyCounters,
    after: PipelineLatencyCounters,
    sample: PipelineLatencySampleSnapshot,
    worst: bool,
)
    requires
        exists|counters: &mut PipelineLatencyCounters|
            *counters == before && *final(counters) == after && #[trigger] call_ensures(
                PipelineLatencyCounters::record,
                (counters, sample),
                worst,
            ),
    ensures
        sample.stage is DemuxRead ==> follows(before.demux_read, sample, after.demux_read, worst),
        !(sample.stage is DemuxRead) ==> after.demux_read == before.demux_read,
        sample.stage is DecoderPacketReceive ==> follows(before.decoder_packet_receive, sample, after.decoder_packet_receive, worst),
        !(sample.stage is DecoderPacketReceive) ==> after.decoder_packet_receive == before.decoder_packet_receive,
        sample.stage is DecoderSubmit ==> follows(before.decoder_submit, sample, after.decoder_submit, worst),
        !(sample.stage is DecoderSubmit) ==> after.decoder_submit == before.decoder_submit,
        sample.stage is DecoderEventDrain ==> follows(before.decoder_event_drain, sample, after.decoder_event_drain, worst),
        !(sample.stage is DecoderEventDrain) ==> after.decoder_event_drain == before.decoder_event_drain,
        sample.stage is HardwareSync ==> follows(before.hardware_sync, sample, after.hardware_sync, worst),
        !(sample.stage is HardwareSync) ==> after.hardware_sync == before.hardware_sync,
        sample.stage is DmaBufExport ==> follows(before.dma_buf_export, sample, after.dma_buf_export, worst),
        !(sample.stage is DmaBufExport) ==> after.dma_buf_export == before.dma_buf_export,
        sample.stage is DmaBufImport ==> follows(before.dma_buf_import, sample, after.dma_buf_import, worst),
        !(sample.stage is DmaBufImport) ==> after.dma_buf_import == before.dma_buf_import,
        sample.stage is DecodedFramePublish ==> follows(before.decoded_frame_publish, sample, after.decoded_frame_publish, worst),
        !(sample.stage is DecodedFramePublish) ==> after.decoded_frame_publish == before.decoded_frame_publish,
        sample.stage is WorkerScheduler ==> follows(before.worker_scheduler, sample, after.worker_scheduler, worst),
        !(sample.stage is WorkerScheduler) ==> after.worker_scheduler == before.worker_scheduler,
        sample.stage is RenderAcquire ==> follows(before.render_acquire, sample, after.render_acquire, worst),
        !(sample.stage is RenderAcquire) ==> after.render_acquire == before.render_acquire,
        sample.stage is RenderResourceLockWait ==> follows(before.render_resource_lock_wait, sample, after.render_resource_lock_wait, worst),
        !(sample.stage is RenderResourceLockWait) ==> after.render_resource_lock_wait == before.render_resource_lock_wait,
        sample.stage is GpuSubmitPresent ==> follows(before.gpu_submit_present, sample, after.gpu_submit_present, worst),
        !(sample.stage is GpuSubmitPresent) ==> after.gpu_submit_present == before.gpu_submit_present,
        sample.stage is ReleaseAcknowledgement ==> follows(before.release_acknowledgement, sample, after.release_acknowledgement, worst),
        !(sample.stage is ReleaseAcknowledgement) ==> after.release_acknowledgement == before.release_acknowledgement,
{
    broadcast use lemma_duration_is_not_negative;

}

/// A latency that is recorded joins the recent worst samples exactly where it is the worst of its
/// stage, as the youngest of at most sixteen; the oldest makes room for it.
pub proof fn law_recent_samples_are_the_latest_worst_ones(
    before: PlaybackDiagnostics,
    after: PlaybackDiagnostics,
    counted: PipelineLatencyCounters,
    worst: bool,
    stage: PipelineLatencyStage,
    duration: Duration,
    pts: Option<Duration>,
    path: Option<FrameMemoryPath>,
    queues: PipelineQueueDepthSnapshot,
)
    requires
        before.wf(),
        exists|diagnostics: &mut PlaybackDiagnostics|
            *diagnostics == before && *final(diagnostics) == after && #[trigger] call_ensures(
                PlaybackDiagnostics::record_latency,
                (diagnostics, stage, duration, pts, path, queues),
                (),
            ),
        exists|counters: &mut PipelineLatencyCounters|
            *counters == before.latency_counters && *final(counters) == counted
                && #[trigger] call_ensures(
                PipelineLatencyCounters::record,
                (
                    counters,
                    (PipelineLatencySampleSnapshot {
                        stage,
                        duration,
                        pts,
                        memory_path: path,
                        queues,
                    }),
                ),
                worst,
            ),
    ensures
        after.latency_counters == counted,
        !worst ==> after.recent_worst_samples@ == before.recent_worst_samples@,
        worst ==> {
            let recent = after.recent_worst_samples@;
            &&& recent.last() == (PipelineLatencySampleSnapshot {
                stage,
                duration,
                pts,
                memory_path: path,
                queues,
            })
            &&& before.recent_worst_samples@.len() < 16 ==> recent.drop_last()
                == before.recent_worst_samples@
            &&& before.recent_worst_samples@.len() >= 16 ==> recent.drop_last()
                == before.recent_worst_samples@.drop_first()
        },
        after.recent_worst_samples@.len() <= 16,
        after.snapshot.drops == before.snapshot.drops,
        after.snapshot.pauses == before.snapshot.pauses,
{
}

/// Whether an average is what a number of samples with a sum have, in whole nanoseconds: no more
/// than the sum taken so often, and less than one more would be. Without samples it is nothing. An
/// average that does not fit is cut.
pub open spec fn is_average(total: int, samples: u64, average: int) -> bool {
    &&& samples == 0 ==> average == 0
    &&& samples > 0 ==> average * samples <= total
    &&& samples > 0 && average < 0xFFFF_FFFF_FFFF_FFFF ==> total < (average + 1) * samples
    &&& 0 <= average <= 0xFFFF_FFFF_FFFF_FFFF
}

proof fn lemma_average(total: int, samples: u64)
    requires
        total >= 0,
    ensures
        is_average(total, samples, average_nanos(total, samples)),
{
    if samples > 0 {
        let s = samples as int;
        vstd::arithmetic::div_mod::lemma_fundamental_div_mod(total, s);
        let quotient = total / s;
        let rest = total % s;
        assert(s * quotient + rest == total && 0 <= rest < s);
        assert(quotient * s == s * quotient) by (nonlinear_arith);
        assert((quotient + 1) * s == quotient * s + s) by (nonlinear_arith);
        assert(quotient >= 0) by (nonlinear_arith)
            requires
                s * quotient + rest == total,
                total >= 0,
                rest < s,
                s > 0,
        ;
        let average = average_nanos(total, samples);
        assert(average * s <= quotient * s) by (nonlinear_arith)
            requires
                average <= quotient,
                s > 0,
        ;
    }
}

/// What is shown of a stage is its own counter: the number of samples, the worst one, and the
/// average of all.
pub proof fn law_every_stage_shows_its_own_average(
    all: PipelineLatencyCounters,
    shown: PipelineLatencyCountersSnapshot,
)
    requires
        call_ensures(PipelineLatencyCounters::snapshot, (&all,), shown),
    ensures
        shown.demux_read.samples == all.demux_read.samples && shown.demux_read.worst == all.demux_read.worst,
        is_average(all.demux_read.total@, all.demux_read.samples, shown.demux_read.average@),
        shown.decoder_packet_receive.samples == all.decoder_packet_receive.samples && shown.decoder_packet_receive.worst == all.decoder_packet_receive.worst,
        is_average(all.decoder_packet_receive.total@, all.decoder_packet_receive.samples, shown.decoder_packet_receive.average@),
        shown.decoder_submit.samples == all.decoder_submit.samples && shown.decoder_submit.worst == all.decoder_submit.worst,
        is_average(all.decoder_submit.total@, all.decoder_submit.samples, shown.decoder_submit.average@),
        shown.decoder_event_drain.samples == all.decoder_event_drain.samples && shown.decoder_event_drain.worst == all.decoder_event_drain.worst,
        is_average(all.decoder_event_drain.total@, all.decoder_event_drain.samples, shown.decoder_event_drain.average@),
        shown.hardware_sync.samples == all.hardware_sync.samples && shown.hardware_sync.worst == all.hardware_sync.worst,
        is_average(all.hardware_sync.total@, all.hardware_sync.samples, shown.hardware_sync.average@),
        shown.dma_buf_export.samples == all.dma_buf_export.samples && shown.dma_buf_export.worst == all.dma_buf_export.worst,
        is_average(all.dma_buf_export.total@, all.dma_buf_export.samples, shown.dma_buf_export.average@),
        shown.dma_buf_import.samples == all.dma_buf_import.samples && shown.dma_buf_import.worst == all.dma_buf_import.worst,
        is_average(all.dma_buf_import.total@, all.dma_buf_import.samples, shown.dma_buf_import.average@),
        shown.decoded_frame_publish.samples == all.decoded_frame_publish.samples && shown.decoded_frame_publish.worst == all.decoded_frame_publish.worst,
        is_average(all.decoded_frame_publish.total@, all.decoded_frame_publish.samples, shown.decoded_frame_publish.average@),
        shown.worker_scheduler.samples == all.worker_scheduler.samples && shown.worker_scheduler.worst == all.worker_scheduler.worst,
        is_average(all.worker_scheduler.total@, all.worker_scheduler.samples, shown.worker_scheduler.average@),
        shown.render_acquire.samples == all.render_acquire.samples && shown.render_acquire.worst == all.render_acquire.worst,
        is_average(all.render_acquire.total@, all.render_acquire.samples, shown.render_acquire.average@),
        shown.render_resource_lock_wait.samples == all.render_resource_lock_wait.samples && shown.render_resource_lock_wait.worst == all.render_resource_lock_wait.worst,
        is_average(all.render_resource_lock_wait.total@, all.render_resource_lock_wait.samples, shown.render_resource_lock_wait.average@),
        shown.gpu_submit_present.samples == all.gpu_submit_present.samples && shown.gpu_submit_present.worst == all.gpu_submit_present.worst,
        is_average(all.gpu_submit_present.total@, all.gpu_submit_present.samples, shown.gpu_submit_present.average@),
        shown.release_acknowledgement.samples == all.release_acknowledgement.samples && shown.release_acknowledgement.worst == all.release_acknowledgement.worst,
        is_average(all.release_acknowledgement.total@, all.release_acknowledgement.samples, shown.release_acknowledgement.average@),
{
    broadcast use lemma_duration_is_not_negative;

    assert forall|total: Duration, samples: u64|
        is_average(total@, samples, #[trigger] duration(average_nanos(total@, samples))@) by {
        lemma_average(total@, samples);
    }
}

/// The stages are told in the order in which a frame goes through them, each with its own counter.
pub proof fn law_stages_are_told_in_order(
    all: PipelineLatencyCounters,
    counters: [(PipelineLatencyStage, LatencyCounter); 13],
)
    requires
        call_ensures(PipelineLatencyCounters::stage_counters, (&all,), counters),
    ensures
        counters@.len() == 13,
        counters@[0] == (PipelineLatencyStage::DemuxRead, all.demux_read),
        counters@[1] == (PipelineLatencyStage::DecoderPacketReceive, all.decoder_packet_receive),
        counters@[2] == (PipelineLatencyStage::DecoderSubmit, all.decoder_submit),
        counters@[3] == (PipelineLatencyStage::DecoderEventDrain, all.decoder_event_drain),
        counters@[4] == (PipelineLatencyStage::HardwareSync, all.hardware_sync),
        counters@[5] == (PipelineLatencyStage::DmaBufExport, all.dma_buf_export),
        counters@[6] == (PipelineLatencyStage::DmaBufImport, all.dma_buf_import),
        counters@[7] == (PipelineLatencyStage::DecodedFramePublish, all.decoded_frame_publish),
        counters@[8] == (PipelineLatencyStage::WorkerScheduler, all.worker_scheduler),
        counters@[9] == (PipelineLatencyStage::RenderAcquire, all.render_acquire),
        counters@[10] == (PipelineLatencyStage::RenderResourceLockWait, all.render_resource_lock_wait),
        counters@[11] == (PipelineLatencyStage::GpuSubmitPresent, all.gpu_submit_present),
        counters@[12] == (PipelineLatencyStage::ReleaseAcknowledgement, all.release_acknowledgement),
{
}

/// A summary tells the longest latency of all stages, and of the stages that have it the first.
pub proof fn law_summary_tells_the_first_stage_with_the_longest_latency(
    diagnostics: PlaybackDiagnostics,
    queues: PipelineQueueDepthSnapshot,
    counters: [(PipelineLatencyStage, LatencyCounter); 13],
    summary: PlaybackDiagnosticsLogSummary,
)
    requires
        call_ensures(
            PipelineLatencyCounters::stage_counters,
            (&diagnostics.latency_counters,),
            counters,
        ),
        call_ensures(PlaybackDiagnostics::log_summary, (&diagnostics, queues), summary),
    ensures
        summary.worst_stage is Some <==> summary.worst_latency is Some,
        summary.worst_latency is None <==> forall|i: int|
            0 <= i < 13 ==> (#[trigger] counters@[i]).1.worst is None,
        summary.worst_latency matches Some(latency) ==> {
            &&& forall|i: int|
                0 <= i < 13 && (#[trigger] counters@[i]).1.worst is Some
                    ==> counters@[i].1.worst->0.duration@ <= latency@
            &&& exists|k: int|
                {
                    &&& 0 <= k < 13
                    &&& summary.worst_stage == Some((#[trigger] counters@[k]).0)
                    &&& counters@[k].1.worst is Some
                    &&& counters@[k].1.worst->0.duration == latency
                    &&& forall|i: int|
                        0 <= i < k && (#[trigger] counters@[i]).1.worst is Some
                            ==> counters@[i].1.worst->0.duration@ < latency@
                }
        },
        summary.drops_total == diagnostics.snapshot.drops.total,
        summary.pauses_total == diagnostics.snapshot.pauses.total,
{
    if summary.worst_latency is Some {
        let k = choose|k: int|
            is_first_worst_at(
                counters@,
                k,
                summary.worst_stage->0,
                summary.worst_latency->0,
            );
        assert(counters@[k].1.worst is Some);
    }
}

/// A decoded frame counts once, and each latency that its backend measured counts for its own
/// stage; what was not measured counts nowhere.
#[verifier::spinoff_prover]
pub proof fn law_frame_counts_what_was_measured<M>(
    before: PlaybackDiagnostics,
    after: PlaybackDiagnostics,
    frame: DecodedFrame<M>,
    queues: PipelineQueueDepthSnapshot,
)
    requires
        before.wf(),
        exists|diagnostics: &mut PlaybackDiagnostics|
            *diagnostics == before && *final(diagnostics) == after && #[trigger] call_ensures(
                PlaybackDiagnostics::observe_decoded_frame::<M>,
                (diagnostics, &frame, queues),
                (),
            ),
    ensures
        before.snapshot.decoded_frames < u64::MAX ==> after.snapshot.decoded_frames
            == before.snapshot.decoded_frames + 1,
        after.snapshot.zero_copy_memory_path == Some(frame.memory_path),
        after.latency_counters.demux_read == before.latency_counters.demux_read,
        frame.timings.decoder_packet_receive_latency matches Some(latency) ==> {
            let counter = after.latency_counters.decoder_packet_receive;
            let former = before.latency_counters.decoder_packet_receive;
            &&& former.samples < u64::MAX ==> counter.samples == former.samples + 1
            &&& counter.worst is Some && counter.worst->0.duration@ >= latency@
        },
        frame.timings.decoder_packet_receive_latency is None ==> after.latency_counters.decoder_packet_receive
            == before.latency_counters.decoder_packet_receive,
        frame.timings.decoder_submit_latency matches Some(latency) ==> {
            let counter = after.latency_counters.decoder_submit;
            let former = before.latency_counters.decoder_submit;
            &&& former.samples < u64::MAX ==> counter.samples == former.samples + 1
            &&& counter.worst is Some && counter.worst->0.duration@ >= latency@
        },
        frame.timings.decoder_submit_latency is None ==> after.latency_counters.decoder_submit
            == before.latency_counters.decoder_submit,
        frame.timings.decoder_event_drain_latency matches Some(latency) ==> {
            let counter = after.latency_counters.decoder_event_drain;
            let former = before.latency_counters.decoder_event_drain;
            &&& former.samples < u64::MAX ==> counter.samples == former.samples + 1
            &&& counter.worst is Some && counter.worst->0.duration@ >= latency@
        },
        frame.timings.decoder_event_drain_latency is None ==> after.latency_counters.decoder_event_drain
            == before.latency_counters.decoder_event_drain,
        frame.timings.hardware_sync_latency matches Some(latency) ==> {
            let counter = after.latency_counters.hardware_sync;
            let former = before.latency_counters.hardware_sync;
            &&& former.samples < u64::MAX ==> counter.samples == former.samples + 1
            &&& counter.worst is Some && counter.worst->0.duration@ >= latency@
        },
        frame.timings.hardware_sync_latency is None ==> after.latency_counters.hardware_sync
            == before.latency_counters.hardware_sync,
        frame.timings.dma_buf_export_latency matches Some(latency) ==> {
            let counter = after.latency_counters.dma_buf_export;
            let former = before.latency_counters.dma_buf_export;
            &&& former.samples < u64::MAX ==> counter.samples == former.samples + 1
            &&& counter.worst is Some && counter.worst->0.duration@ >= latency@
        },
        frame.timings.dma_buf_export_latency is None ==> after.latency_counters.dma_buf_export
            == before.latency_counters.dma_buf_export,
        frame.timings.dma_buf_import_latency matches Some(latency) ==> {
            let counter = after.latency_counters.dma_buf_import;
            let former = before.latency_counters.dma_buf_import;
            &&& former.samples < u64::MAX ==> counter.samples == former.samples + 1
            &&& counter.worst is Some && counter.worst->0.duration@ >= latency@
        },
        frame.timings.dma_buf_import_latency is None ==> after.latency_counters.dma_buf_import
            == before.latency_counters.dma_buf_import,
        frame.timings.decoded_frame_publish_latency matches Some(latency) ==> {
            let counter = after.latency_counters.decoded_frame_publish;
            let former = before.latency_counters.decoded_frame_publish;
            &&& former.samples < u64::MAX ==> counter.samples == former.samples + 1
            &&& counter.worst is Some && counter.worst->0.duration@ >= latency@
        },
        frame.timings.decoded_frame_publish_latency is None ==> after.latency_counters.decoded_frame_publish
            == before.latency_counters.decoded_frame_publish,
        after.latency_counters.worker_scheduler == before.latency_counters.worker_scheduler,
        after.latency_counters.render_acquire == before.latency_counters.render_acquire,
        after.latency_counters.render_resource_lock_wait == before.latency_counters.render_resource_lock_wait,
        after.latency_counters.gpu_submit_present == before.latency_counters.gpu_submit_present,
        after.latency_counters.release_acknowledgement == before.latency_counters.release_acknowledgement,
        frame.timings.decoded_frame_publish_latency is None
            ==> after.snapshot.decoder_frame_publish_pressure
            == before.snapshot.decoder_frame_publish_pressure,
        frame.timings.decoded_frame_publish_latency matches Some(latency)
            ==> after.snapshot.decoder_frame_publish_pressure.max_decoded_frame_publish_latency@
            >= latency@,
        after.snapshot.drops == before.snapshot.drops,
        after.snapshot.pauses == before.snapshot.pauses,
{
    broadcast use lemma_duration_is_not_negative;

}

/// The publication of a frame adds to the sum of all and becomes the longest where it is longer.
pub proof fn law_publications_add_up(
    before: DecoderFramePublishPressureSnapshot,
    after: DecoderFramePublishPressureSnapshot,
    latency: Duration,
)
    requires
        exists|pressure: &mut DecoderFramePublishPressureSnapshot|
            *pressure == before && *final(pressure) == after && #[trigger] call_ensures(
                DecoderFramePublishPressureSnapshot::observe_published_frame_latency,
                (pressure, latency),
                (),
            ),
    ensures
        before.total_decoded_frame_publish_latency@ + latency@
            <= 18_446_744_073_709_551_615_999_999_999
            ==> after.total_decoded_frame_publish_latency@
            == before.total_decoded_frame_publish_latency@ + latency@,
        after.max_decoded_frame_publish_latency@ >= latency@,
        after.max_decoded_frame_publish_latency@ >= before.max_decoded_frame_publish_latency@,
        after.max_decoded_frame_publish_latency@ == latency@
            || after.max_decoded_frame_publish_latency@
            == before.max_decoded_frame_publish_latency@,
        after.frame_publish_channel_full_count == before.frame_publish_channel_full_count,
        after.pending_publish_retry_count == before.pending_publish_retry_count,
{
    broadcast use lemma_duration_is_not_negative;

}

/// After a flush the packets that are removed until a start is found are counted from nothing, and
/// the first packet that ends the wait is remembered, not a later one.
pub proof fn law_start_after_a_flush_is_counted_afresh(
    before: PlaybackDiagnostics,
    started: PlaybackDiagnostics,
    dropped: PlaybackDiagnostics,
    accepted: PlaybackDiagnostics,
    again: PlaybackDiagnostics,
    first: PacketKeyframe,
    later: PacketKeyframe,
    queues: PipelineQueueDepthSnapshot,
    at_drop: SeekBootstrapDiagnosticsSnapshot,
    at_first: SeekBootstrapDiagnosticsSnapshot,
    at_later: SeekBootstrapDiagnosticsSnapshot,
)
    requires
        exists|diagnostics: &mut PlaybackDiagnostics|
            *diagnostics == before && *final(diagnostics) == started && #[trigger] call_ensures(
                PlaybackDiagnostics::start_seek_bootstrap,
                (diagnostics, queues),
                (),
            ),
        exists|diagnostics: &mut PlaybackDiagnostics|
            *diagnostics == started && *final(diagnostics) == dropped && #[trigger] call_ensures(
                PlaybackDiagnostics::record_seek_bootstrap_drop_until_keyframe,
                (diagnostics, queues),
                at_drop,
            ),
        exists|diagnostics: &mut PlaybackDiagnostics|
            *diagnostics == dropped && *final(diagnostics) == accepted && #[trigger] call_ensures(
                PlaybackDiagnostics::record_seek_bootstrap_first_accepted,
                (diagnostics, first, queues),
                at_first,
            ),
        exists|diagnostics: &mut PlaybackDiagnostics|
            *diagnostics == accepted && *final(diagnostics) == again && #[trigger] call_ensures(
                PlaybackDiagnostics::record_seek_bootstrap_first_accepted,
                (diagnostics, later, queues),
                at_later,
            ),
    ensures
        at_drop.dropped_until_keyframe == 1,
        at_drop.first_accepted_keyframe is None,
        at_first.first_accepted_keyframe == Some(first),
        at_first.dropped_until_keyframe == 1,
        at_later.first_accepted_keyframe == Some(first),
        again.snapshot.seek_bootstrap == at_later,
{
}

/// Repetitions, taken locks and reused frames are each counted apart.
pub proof fn law_repetitions_locks_and_reuses_are_counted_apart(
    before: PlaybackDiagnostics,
    repeated: PlaybackDiagnostics,
    busy: PlaybackDiagnostics,
    reused: PlaybackDiagnostics,
    queues: PipelineQueueDepthSnapshot,
)
    requires
        before.snapshot.repeated_video_frames < u64::MAX,
        before.snapshot.render_resource_lock_busy_count < u64::MAX,
        before.snapshot.render_resource_previous_frame_reuse_count < u64::MAX,
        exists|diagnostics: &mut PlaybackDiagnostics|
            *diagnostics == before && *final(diagnostics) == repeated && #[trigger] call_ensures(
                PlaybackDiagnostics::record_repeated_video_frame,
                (diagnostics, queues),
                (),
            ),
        exists|diagnostics: &mut PlaybackDiagnostics|
            *diagnostics == repeated && *final(diagnostics) == busy && #[trigger] call_ensures(
                PlaybackDiagnostics::record_render_resource_lock_busy,
                (diagnostics, queues),
                (),
            ),
        exists|diagnostics: &mut PlaybackDiagnostics|
            *diagnostics == busy && *final(diagnostics) == reused && #[trigger] call_ensures(
                PlaybackDiagnostics::record_render_resource_previous_frame_reuse,
                (diagnostics, queues),
                (),
            ),
    ensures
        repeated.snapshot.repeated_video_frames == before.snapshot.repeated_video_frames + 1,
        repeated.snapshot.render_resource_lock_busy_count
            == before.snapshot.render_resource_lock_busy_count,
        busy.snapshot.render_resource_lock_busy_count
            == before.snapshot.render_resource_lock_busy_count + 1,
        busy.snapshot.render_resource_previous_frame_reuse_count
            == before.snapshot.render_resource_previous_frame_reuse_count,
        reused.snapshot.render_resource_previous_frame_reuse_count
            == before.snapshot.render_resource_previous_frame_reuse_count + 1,
        reused.snapshot.repeated_video_frames == before.snapshot.repeated_video_frames + 1,
{
}

/// New diagnostics, and such as were reset, have observed nothing, and their summary tells nothing
/// worth a line.
pub proof fn law_new_diagnostics_have_observed_nothing(
    before: PlaybackDiagnostics,
    made: PlaybackDiagnostics,
    queues: PipelineQueueDepthSnapshot,
    summary: PlaybackDiagnosticsLogSummary,
    active: bool,
)
    requires
        call_ensures(PlaybackDiagnostics::new, (), made) || exists|
            diagnostics: &mut PlaybackDiagnostics,
        |
            *diagnostics == before && *final(diagnostics) == made && #[trigger] call_ensures(
                PlaybackDiagnostics::reset,
                (diagnostics,),
                (),
            ),
        queues.decoder_control_channel is None,
        call_ensures(PlaybackDiagnostics::log_summary, (&made, queues), summary),
        call_ensures(PlaybackDiagnosticsLogSummary::has_activity, (summary,), active),
    ensures
        !active,
        made.recent_worst_samples@.len() == 0,
        made.snapshot.decoded_frames == 0,
        made.snapshot.repeated_video_frames == 0,
        made.latency_counters.demux_read.samples == 0 && made.latency_counters.demux_read.total@ == 0
            && made.latency_counters.demux_read.worst is None,
        made.latency_counters.decoder_packet_receive.samples == 0 && made.latency_counters.decoder_packet_receive.total@ == 0
            && made.latency_counters.decoder_packet_receive.worst is None,
        made.latency_counters.decoder_submit.samples == 0 && made.latency_counters.decoder_submit.total@ == 0
            && made.latency_counters.decoder_submit.worst is None,
        made.latency_counters.decoder_event_drain.samples == 0 && made.latency_counters.decoder_event_drain.total@ == 0
            && made.latency_counters.decoder_event_drain.worst is None,
        made.latency_counters.hardware_sync.samples == 0 && made.latency_counters.hardware_sync.total@ == 0
            && made.latency_counters.hardware_sync.worst is None,
        made.latency_counters.dma_buf_export.samples == 0 && made.latency_counters.dma_buf_export.total@ == 0
            && made.latency_counters.dma_buf_export.worst is None,
        made.latency_counters.dma_buf_import.samples == 0 && made.latency_counters.dma_buf_import.total@ == 0
            && made.latency_counters.dma_buf_import.worst is None,
        made.latency_counters.decoded_frame_publish.samples == 0 && made.latency_counters.decoded_frame_publish.total@ == 0
            && made.latency_counters.decoded_frame_publish.worst is None,
        made.latency_counters.worker_scheduler.samples == 0 && made.latency_counters.worker_scheduler.total@ == 0
            && made.latency_counters.worker_scheduler.worst is None,
        made.latency_counters.render_acquire.samples == 0 && made.latency_counters.render_acquire.total@ == 0
            && made.latency_counters.render_acquire.worst is None,
        made.latency_counters.render_resource_lock_wait.samples == 0 && made.latency_counters.render_resource_lock_wait.total@ == 0
            && made.latency_counters.render_resource_lock_wait.worst is None,
        made.latency_counters.gpu_submit_present.samples == 0 && made.latency_counters.gpu_submit_present.total@ == 0
            && made.latency_counters.gpu_submit_present.worst is None,
        made.latency_counters.release_acknowledgement.samples == 0 && made.latency_counters.release_acknowledgement.total@ == 0
            && made.latency_counters.release_acknowledgement.worst is None,
        made.snapshot.drops.total == 0,
        made.snapshot.drops.playback_or_render == 0,
        made.snapshot.drops.seek_discard == 0,
        made.snapshot.drops.late == 0,
        made.snapshot.drops.queue_overflow == 0,
        made.snapshot.drops.stale_generation == 0,
        made.snapshot.drops.seek_preroll == 0,
        made.snapshot.drops.render_acquisition_timeout == 0,
        made.snapshot.drops.decoder_starvation == 0,
        made.snapshot.drops.paused == 0,
        made.snapshot.pauses.total == 0,
        made.snapshot.pauses.demux_backpressure == 0,
        made.snapshot.pauses.waiting_for_free_surface == 0,
        made.snapshot.pauses.waiting_for_present_queue == 0,
        made.snapshot.pauses.waiting_for_gpu_release == 0,
        made.snapshot.pauses.waiting_for_demux_audio_priority == 0,
        made.snapshot.pauses.decoder_packet_queue_full == 0,
        made.snapshot.pauses.decoder_control_queue_full == 0,
        made.snapshot.pauses.host_upload_ready_queue_full == 0,
        made.snapshot.pauses.host_upload_slots_exhausted == 0,
        made.snapshot.pauses.decoder_starvation == 0,
        made.snapshot.pauses.sync_waiting == 0,
        made.snapshot.pauses.render_acquire_timeout == 0,
{
    if summary.worst_latency is Some {
        let k = choose|k: int|
            is_first_worst_at(
                made.latency_counters.entries(),
                k,
                summary.worst_stage->0,
                summary.worst_latency->0,
            );
        assert(made.latency_counters.entries()[k].1.worst is Some);
    }
}

/// A summary is worth a line exactly where something was removed, paused, lost or found, where a
/// channel was full or failed, or where a latency or a way of memory is known.
pub proof fn law_summary_is_worth_a_line_where_something_happened(
    summary: PlaybackDiagnosticsLogSummary,
    active: bool,
)
    requires
        call_ensures(PlaybackDiagnosticsLogSummary::has_activity, (summary,), active),
    ensures
        !active <==> {
            &&& summary.drops_total == 0
            &&& summary.pauses_total == 0
            &&& summary.seek_bootstrap.dropped_until_keyframe == 0
            &&& summary.seek_bootstrap.first_accepted_keyframe is None
            &&& summary.render_resource_lock_busy_count == 0
            &&& summary.render_resource_previous_frame_reuse_count == 0
            &&& summary.decoder_frame_publish_pressure.frame_publish_channel_full_count == 0
            &&& summary.decoder_frame_publish_pressure.pending_publish_retry_count == 0
            &&& summary.queues.decoder_control_channel is Some
                ==> summary.queues.decoder_control_channel->0.control_channel_full_count == 0
                && summary.queues.decoder_control_channel->0.release_control_send_fail_count == 0
                && summary.queues.decoder_control_channel->0.flush_control_send_fail_count == 0
            &&& summary.zero_copy_memory_path is None
            &&& summary.worst_latency is None
        },
{
}

/// The stable names of the stages.
pub proof fn law_stages_are_named(stage: PipelineLatencyStage, name: &'static str)
    requires
        call_ensures(PipelineLatencyStage::metric_name, (stage,), name),
    ensures
        stage is DemuxRead ==> name@ == "demux.read"@,
        stage is DecoderPacketReceive ==> name@ == "decoder.packet_receive"@,
        stage is DecoderSubmit ==> name@ == "decoder.submit"@,
        stage is DecoderEventDrain ==> name@ == "decoder.event_drain"@,
        stage is HardwareSync ==> name@ == "decoder.hardware_sync"@,
        stage is DmaBufExport ==> name@ == "zero_copy.export"@,
        stage is DmaBufImport ==> name@ == "zero_copy.import"@,
        stage is DecodedFramePublish ==> name@ == "decoder.frame_publish"@,
        stage is WorkerScheduler ==> name@ == "worker.scheduler"@,
        stage is RenderAcquire ==> name@ == "render.acquire"@,
        stage is RenderResourceLockWait ==> name@ == "render.resource_lock_wait"@,
        stage is GpuSubmitPresent ==> name@ == "gpu.submit_present"@,
        stage is ReleaseAcknowledgement ==> name@ == "release.ack"@,
{
}

/// The stable names of the reasons for a removal.
pub proof fn law_removals_are_named(reason: VideoDropReason, name: &'static str)
    requires
        call_ensures(VideoDropReason::metric_name, (reason,), name),
    ensures
        reason is Late ==> name@ == "late"@,
        reason is QueueOverflow ==> name@ == "queue_overflow"@,
        reason is StaleGeneration ==> name@ == "stale_generation"@,
        reason is SeekPreroll ==> name@ == "seek_preroll"@,
        reason is RenderAcquisitionTimeout ==> name@ == "render_acquisition_timeout"@,
        reason is DecoderStarvation ==> name@ == "decoder_starvation"@,
        reason is Paused ==> name@ == "paused"@,
{
}

/// The stable names of the reasons for a wakeup.
pub proof fn law_wakeups_are_named(reason: WorkerWakeupReason, name: &'static str)
    requires
        call_ensures(WorkerWakeupReason::metric_name, (reason,), name),
    ensures
        reason is Idle ==> name@ == "idle"@,
        reason is PipelineWorkReady ==> name@ == "pipeline_work_ready"@,
        reason is DecodeReadiness ==> name@ == "decode_readiness"@,
        reason is FramePtsDeadline ==> name@ == "frame_pts_deadline"@,
        reason is FrameReady ==> name@ == "frame_ready"@,
        reason is SeekOrPreroll ==> name@ == "seek_or_preroll"@,
        reason is CoarseProgress ==> name@ == "coarse_progress"@,
{
}

/// The stable names of what a seek waits for.
pub proof fn law_blockers_are_named(blocker: SeekProgressBlocker, name: &'static str)
    requires
        call_ensures(SeekProgressBlocker::metric_name, (blocker,), name),
    ensures
        blocker is ReadyToCommit ==> name@ == "ready_to_commit"@,
        blocker is WaitingForAudioClear ==> name@ == "audio_clear"@,
        blocker is WaitingForAudioPreroll ==> name@ == "audio_preroll"@,
        blocker is WaitingForAudioDecoder ==> name@ == "audio_decoder"@,
        blocker is WaitingForAudioOutput ==> name@ == "audio_output"@,
        blocker is WaitingForFreeSurface ==> name@ == "free_surface"@,
        blocker is WaitingForGpuRelease ==> name@ == "gpu_release"@,
        blocker is WaitingForDecoderInput ==> name@ == "decoder_input"@,
        blocker is WaitingForPostFlushKeyframe ==> name@ == "post_flush_keyframe"@,
        blocker is WaitingForDecoderOutput ==> name@ == "decoder_output"@,
        blocker is WaitingForDemux ==> name@ == "demux"@,
        blocker is WaitingForScheduler ==> name@ == "scheduler"@,
        blocker is ReadyForScheduler ==> name@ == "ready_for_scheduler"@,
        blocker is WaitingForVideoTargetFrame ==> name@ == "video_target_frame"@,
        blocker is WaitingForVideoResumePreroll ==> name@ == "video_resume_preroll"@,
        blocker is Unknown ==> name@ == "unknown"@,
{
}

} // verus!
