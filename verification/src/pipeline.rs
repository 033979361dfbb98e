//! Ownership of everything that plays one medium.
pub mod audio;
pub mod audio_clock_mapping;
pub mod audio_slots;
pub mod decoder_slots;
pub mod frame_timing;
pub mod lease_table;
pub mod media_clock;
pub mod media_slots;
pub mod packets;
pub mod render_resources;
pub mod resources;
pub mod video_backlog_recovery;
pub mod video_decoder;

use crate::demux::{Demuxer, TrackInfo};
use crate::media::{DecodedFrame, TrackId, VideoDecodeRequirement, VideoFrameContract};
use crate::playback_rate::NORMAL_RATE_BITS;
use crate::time::Instant;
use audio::{AudioDecoderConfig, AudioOutputSpec, PassthroughAudioHistory};
use frame_timing::{VideoFrameTimingEstimator, DEFAULT_VIDEO_FRAME_MICROS};
use media_clock::MediaClocks;
use packets::PendingAudioPacket;
use render_resources::{RenderLeaseLedger, RenderLeaseLedgerView};
use resources::PlaybackResources;
use std::collections::VecDeque;
use std::path::PathBuf;
use video_backlog_recovery::{
    VideoBacklogRecoveryContext, VideoBacklogRecoveryState, VideoPacketQueue, VideoPacketQueueView,
};
use vstd::prelude::*;

verus! {

/// Everything that plays one medium.
///
/// Each part is changed only by the methods of the pipeline, which keep packets, frames,
/// textures and clocks in step.
pub struct PlaybackPipeline<R: PlaybackResources> {
    /// Demuxer of the medium.
    pub demuxer: Option<R::Demuxer>,
    /// Path of a local file.
    pub file_path: Option<PathBuf>,
    /// Tracks of the medium.
    pub tracks: Vec<TrackInfo<<R::Demuxer as Demuxer>::TrackDetails>>,
    /// Label of another source.
    pub source_label: Option<String>,
    /// Decoder of the audio track.
    pub audio_decoder: Option<R::AudioDecoder>,
    /// What the decoder is to be made from once it is needed.
    pub deferred_audio_decoder_config: Option<AudioDecoderConfig>,
    /// Audio device.
    pub audio_output: Option<R::AudioOutput>,
    /// Form of the samples that the device takes.
    pub audio_output_input_spec: Option<AudioOutputSpec>,
    /// Tempo processor, at a rate other than the normal one.
    pub audio_tempo_processor: Option<R::TempoProcessor>,
    /// What the tempo processor put out last.
    pub audio_tempo_output_buffer: Vec<R::Sample>,
    /// What a new tempo processor takes in.
    pub passthrough_audio_history: PassthroughAudioHistory<R::Sample>,
    /// Number of the next run at one tempo.
    pub next_audio_tempo_segment_id: u64,
    /// Whether the device was started.
    pub audio_output_play_requested: bool,
    /// Selected audio track.
    pub audio_track_id: Option<TrackId>,
    /// Audio packets that wait.
    pub pending_audio_packets: VecDeque<PendingAudioPacket>,
    /// Decoder of the video track.
    pub video_decoder_thread: Option<R::VideoDecoder>,
    /// Whether the decoder's next packet has to be a keyframe.
    pub video_decoder_needs_keyframe: bool,
    /// Packets that the decoder has been given and has not confirmed.
    pub video_decode_in_flight_packets: usize,
    /// Frames that wait to be shown.
    pub video_frame_queue: VecDeque<DecodedFrame<R::FrameMetadata>>,
    /// Last frame before the target of a seek, for the case that none comes after it.
    pub seek_preroll_fallback_video_frame: Option<DecodedFrame<R::FrameMetadata>>,
    /// Estimate of how long a frame is shown.
    pub video_frame_timing: VideoFrameTimingEstimator,
    /// Frame that is shown.
    pub present_video_frame: Option<DecodedFrame<R::FrameMetadata>>,
    /// Account of the textures that the renderer holds.
    pub render_leases: RenderLeaseLedger<R::ResourceProvider, R::VideoDecoder>,
    /// Selected video track.
    pub video_track_id: Option<TrackId>,
    /// Video packets that wait.
    pub video_packets: VideoPacketQueue,
    /// Clock of the audio device.
    pub audio_clock: Option<R::AudioClock>,
    /// Clocks of the medium.
    pub clocks: MediaClocks,
    /// Generation of packets since the last seek.
    pub seek_generation: u64,
    /// Last generation for which the device confirmed an empty buffer.
    pub audio_buffer_clear_generation: u64,
    /// Name of the video decoder.
    pub video_backend: String,
    /// What the selected video track asks of a decoder.
    pub active_video_requirement: Option<VideoDecodeRequirement>,
    /// What the decoder has to publish.
    pub active_video_frame_contract: Option<VideoFrameContract>,
}

impl<R: PlaybackResources> PlaybackPipeline<R> {
    /// The queue of video packets and the account of textures are well formed.
    pub open spec fn wf(self) -> bool {
        &&& self.video_packets.wf()
        &&& self.render_leases.wf()
    }

    /// What decides about a search for a keyframe.
    pub open spec fn recovery_context(self) -> VideoBacklogRecoveryContext {
        VideoBacklogRecoveryContext {
            selected_track_id: self.video_track_id,
            codec: match self.active_video_requirement {
                Some(requirement) => Some(requirement.codec),
                None => None,
            },
            decoder_needs_keyframe: self.video_decoder_needs_keyframe,
            seek_generation: self.seek_generation,
        }
    }

    /// A pipeline without medium, decoders and device.
    pub fn new(now: Instant) -> (r: Self)
        ensures
            r.wf(),
            r.demuxer is None,
            r.file_path is None,
            r.tracks@.len() == 0,
            r.source_label is None,
            r.audio_decoder is None,
            r.deferred_audio_decoder_config is None,
            r.audio_output is None,
            r.audio_output_input_spec is None,
            r.audio_tempo_processor is None,
            r.audio_tempo_output_buffer@.len() == 0,
            r.passthrough_audio_history.samples@.len() == 0,
            r.passthrough_audio_history.spec is None,
            r.next_audio_tempo_segment_id == 1,
            !r.audio_output_play_requested,
            r.audio_track_id is None,
            r.pending_audio_packets@.len() == 0,
            r.video_decoder_thread is None,
            r.video_decoder_needs_keyframe,
            r.video_decode_in_flight_packets == 0,
            r.video_frame_queue@.len() == 0,
            r.seek_preroll_fallback_video_frame is None,
            r.video_frame_timing.micros() == DEFAULT_VIDEO_FRAME_MICROS,
            r.video_frame_timing.last_seen() is None,
            r.present_video_frame is None,
            r.render_leases@ == (RenderLeaseLedgerView::<R::ResourceProvider, R::VideoDecoder> {
                generation: 0,
                leases: Map::empty(),
                deferred: Map::empty(),
                providers: Map::empty(),
                retired: Map::empty(),
            }),
            r.video_track_id is None,
            r.video_packets@ == (VideoPacketQueueView {
                pending: Seq::empty(),
                staged: Seq::empty(),
                state: VideoBacklogRecoveryState::Inactive,
                proven_keyframe_track: None,
                admission_waits_for_keyframe: false,
            }),
            r.audio_clock is None,
            r.clocks.media_clock_base@ == 0,
            r.clocks.audio_clock_media_mapping@.len() == 1,
            r.clocks.audio_clock_media_mapping@[0].output_clock_start@ == 0,
            r.clocks.audio_clock_media_mapping@[0].media_position_start@ == 0,
            r.clocks.audio_clock_media_mapping@[0].playback_rate@ == NORMAL_RATE_BITS,
            r.clocks.monotonic_media_clock_anchor is None,
            r.clocks.last_audio_clock@ == 0,
            r.clocks.last_audio_clock_change_at == now,
            r.seek_generation == 0,
            r.audio_buffer_clear_generation == 0,
            r.video_backend@ == "Synthetic (test)"@,
            r.active_video_requirement is None,
            r.active_video_frame_contract is None,
    {
        PlaybackPipeline {
            demuxer: None,
            file_path: None,
            tracks: Vec::new(),
            source_label: None,
            audio_decoder: None,
            deferred_audio_decoder_config: None,
            audio_output: None,
            audio_output_input_spec: None,
            audio_tempo_processor: None,
            audio_tempo_output_buffer: Vec::new(),
            passthrough_audio_history: PassthroughAudioHistory::new(),
            next_audio_tempo_segment_id: 1,
            audio_output_play_requested: false,
            audio_track_id: None,
            pending_audio_packets: VecDeque::new(),
            video_decoder_thread: None,
            video_decoder_needs_keyframe: true,
            video_decode_in_flight_packets: 0,
            video_frame_queue: VecDeque::new(),
            seek_preroll_fallback_video_frame: None,
            video_frame_timing: VideoFrameTimingEstimator::new(),
            present_video_frame: None,
            render_leases: RenderLeaseLedger::new(),
            video_track_id: None,
            video_packets: VideoPacketQueue::new(),
            audio_clock: None,
            clocks: MediaClocks::new(now),
            seek_generation: 0,
            audio_buffer_clear_generation: 0,
            video_backend: "Synthetic (test)".to_owned(),
            active_video_requirement: None,
            active_video_frame_contract: None,
        }
    }
}

} // verus!
