//! The pipeline between a source, its decoders, the audio device and the renderer.
use bytes::Bytes;
use player_core::audio_boundary::{AudioTempoProcessorConfig, AudioTempoProcessorFactory};
use player_core::demux::{
    DemuxReadEvent, DemuxSeekRequest, DemuxSeekResult, DemuxSeekability, Demuxer, MediaMetadata,
    TimeBase, TrackInfo, TrackTimestamp,
};
use player_core::media::{
    DecodedFrame, FrameMemoryPath, FrameResourceHandle, MediaTime, PacketKeyframe, TrackId,
    TrackKind, VideoCodec, VideoDecodeRequirement, VideoFrameTimingDiagnostics,
};
use player_core::pipeline::audio::{
    audio_seek_runtime_state_from_slots, AudioChannelLayout, AudioDecodeFailure, AudioDecoderConfig,
    AudioEofDrainState, AudioOutputRoutingStatus, AudioOutputSpec, AudioOutputWriteIntent,
    AudioSeekRuntimeState, AudioTempoPcmFormat, AudioTempoSegment, DecodedAudioPacket,
};
use player_core::pipeline::media_clock::AudioOutputClockTiming;
use player_core::pipeline::packets::{
    AudioPacketTiming, EncodedAudioPacket, ExactPresentationWindow, PacketPresentationWindow, PendingAudioPacket, PendingVideoPacket,
};
use player_core::pipeline::render_resources::{
    RenderLeaseReleaseEffect, RetiredVideoDecoderOutcome, VideoTextureReleaseEffect,
};
use player_core::pipeline::resources::{
    AudioDecoder, AudioTempoProcessor, PlaybackResources, PlayerAudioClock, PlayerAudioOutput,
    VideoDecoderThread,
};
use player_core::pipeline::video_backlog_recovery::{
    VideoBacklogRecoveryRouteOutcome, VideoBacklogRecoveryScanLimit,
    VideoBacklogRecoveryScanLimits, VideoBacklogRecoveryScanStart,
};
use player_core::pipeline::video_decoder::{
    control_backpressure_reason, send_backpressure_reason, DecoderControlChannelPressure,
    HostUploadBackpressureReason, HostUploadResourceStatus, VideoDecoderActivitySnapshot,
    VideoDecoderActivityStatus, VideoDecoderControlBackpressureReason,
    VideoDecoderEndOfStreamDrainState, VideoDecoderSendBackpressure,
};
use player_core::pipeline::PlaybackPipeline;
use player_core::playback_rate::PlaybackRate;
use player_core::time::{Duration, Instant};
use std::path::PathBuf;
use std::sync::atomic::{AtomicU64, AtomicUsize, Ordering};
use std::sync::{Arc, Mutex};

const DEFAULT_VIDEO_FRAME_MICROS: u64 = 16_667;

/// What the renderer reads of a frame.
#[derive(Debug, Clone, Copy, PartialEq, Eq)]
struct Colours {
    full_range: bool,
}

/// What a decoder reads of a track.
#[derive(Debug, PartialEq, Eq)]
struct Details {
    codec_private: &'static [u8],
}

/// The resources of the tests.
struct TestResources;

impl PlaybackResources for TestResources {
    type Sample = f32;
    type Demuxer = SourceSlotFakeDemuxer;
    type AudioDecoder = FakeAudioDecoder;
    type AudioClock = FixedAudioClock;
    type AudioOutput = FixedAudioOutput;
    type TempoProcessor = DoublingTempoProcessor;
    type ResourceProvider = u64;
    type FrameMetadata = Colours;
    type VideoDecoder = FakeVideoDecoder;

    fn millis_bits(span: Duration) -> u64 {
        (span.as_nanos() as f64 / 1_000_000.0).to_bits()
    }
}

fn pipeline() -> PlaybackPipeline<TestResources> {
    PlaybackPipeline::new(start_of_test())
}

fn start_of_test() -> Instant {
    Instant::at(Duration::from_secs(1_000))
}

fn rate(multiplier: f32) -> PlaybackRate {
    PlaybackRate::new(multiplier.to_bits()).expect("the rate is valid")
}

fn decoded_frame_for_tests(pts: Duration, resource_handle: u64) -> DecodedFrame<Colours> {
    DecodedFrame {
        generation: 0,
        pts,
        memory_path: FrameMemoryPath::DmaBufZeroCopy,
        width: 640,
        height: 360,
        render_width: 640,
        render_height: 360,
        resource_handle: FrameResourceHandle(resource_handle),
        timings: VideoFrameTimingDiagnostics::default(),
        decoder_ready_queue_depth: None,
        metadata: Colours { full_range: true },
    }
}

/// What a decoder was given.
type SeenPacket = (u32, AudioPacketTiming, Vec<u8>);

/// The form of samples with channels from the left on.
fn output_spec(sample_rate: u32, channels: u32) -> AudioOutputSpec {
    AudioOutputSpec::new(sample_rate, AudioChannelLayout::new(channels, (1 << channels) - 1))
}

struct FakeAudioDecoder {
    seen: Arc<Mutex<Vec<SeenPacket>>>,
    decode_outcome: Result<Vec<f32>, &'static str>,
    reset_error: Option<&'static str>,
    output_spec: Option<AudioOutputSpec>,
}

impl FakeAudioDecoder {
    fn with_samples(samples: Vec<f32>, sample_rate: u32, channels: u32) -> Self {
        Self {
            seen: Arc::new(Mutex::new(Vec::new())),
            decode_outcome: Ok(samples),
            reset_error: None,
            output_spec: Some(output_spec(sample_rate, channels)),
        }
    }

    fn with_decode_error(error: &'static str) -> Self {
        Self {
            seen: Arc::new(Mutex::new(Vec::new())),
            decode_outcome: Err(error),
            reset_error: None,
            output_spec: Some(output_spec(48_000, 2)),
        }
    }

    fn with_reset_error(error: &'static str) -> Self {
        Self {
            seen: Arc::new(Mutex::new(Vec::new())),
            decode_outcome: Ok(Vec::new()),
            reset_error: Some(error),
            output_spec: Some(output_spec(48_000, 2)),
        }
    }
}

impl AudioDecoder<f32> for FakeAudioDecoder {
    type Error = String;

    fn decode(&mut self, packet: &EncodedAudioPacket<'_>) -> Result<Vec<f32>, String> {
        self.seen.lock().expect("the decoder is not poisoned").push((
            packet.track_id,
            packet.timing,
            packet.encoded_bytes.to_vec(),
        ));
        match &self.decode_outcome {
            Ok(samples) => Ok(samples.clone()),
            Err(error) => Err(error.to_string()),
        }
    }

    fn reset(&mut self) -> Result<(), String> {
        match self.reset_error {
            Some(error) => Err(error.to_string()),
            None => Ok(()),
        }
    }

    fn decoded_output_spec(&self) -> Option<AudioOutputSpec> {
        self.output_spec
    }
}

#[derive(Clone)]
struct FixedAudioClock {
    state: Arc<FixedAudioClockState>,
}

struct FixedAudioClockState {
    now: Mutex<Duration>,
    submitted_output_end_position: Mutex<Duration>,
    reset_count: AtomicUsize,
    underrun_callbacks: AtomicU64,
}

impl FixedAudioClock {
    fn new(now: Duration, underrun_callbacks: u64) -> Self {
        Self {
            state: Arc::new(FixedAudioClockState {
                now: Mutex::new(now),
                submitted_output_end_position: Mutex::new(now),
                reset_count: AtomicUsize::new(0),
                underrun_callbacks: AtomicU64::new(underrun_callbacks),
            }),
        }
    }

    fn reset_count(&self) -> usize {
        self.state.reset_count.load(Ordering::Relaxed)
    }

    fn set_now(&self, now: Duration) {
        self.set_output_timing(now, now);
    }

    fn set_output_timing(&self, audible: Duration, submitted_end: Duration) {
        *self.state.now.lock().expect("the clock is not poisoned") = audible;
        *self.state.submitted_output_end_position.lock().expect("the clock is not poisoned") =
            submitted_end;
    }
}

impl PlayerAudioClock for FixedAudioClock {
    fn now(&self) -> Duration {
        *self.state.now.lock().expect("the clock is not poisoned")
    }

    fn output_timing(&self) -> AudioOutputClockTiming {
        AudioOutputClockTiming::new(
            self.now(),
            *self.state.submitted_output_end_position.lock().expect("the clock is not poisoned"),
        )
    }

    fn reset(&self) {
        self.state.reset_count.fetch_add(1, Ordering::Relaxed);
        self.set_now(Duration::zero());
    }

    fn underrun_callbacks(&self) -> u64 {
        self.state.underrun_callbacks.load(Ordering::Relaxed)
    }
}

struct FixedAudioOutput {
    clock: FixedAudioClock,
    buffer_level_ms: f64,
    play_error: Option<&'static str>,
    pause_error: Option<&'static str>,
    last_volume: Arc<Mutex<Option<f32>>>,
    written: Arc<Mutex<Vec<f32>>>,
}

impl FixedAudioOutput {
    fn new(buffer_level_ms: f64) -> Self {
        Self {
            clock: FixedAudioClock::new(Duration::zero(), 0),
            buffer_level_ms,
            play_error: None,
            pause_error: None,
            last_volume: Arc::new(Mutex::new(None)),
            written: Arc::new(Mutex::new(Vec::new())),
        }
    }

    fn with_errors(play_error: Option<&'static str>, pause_error: Option<&'static str>) -> Self {
        Self { play_error, pause_error, ..Self::new(0.0) }
    }

    fn clock_handle(&self) -> FixedAudioClock {
        self.clock.clone()
    }

    fn volume_handle(&self) -> Arc<Mutex<Option<f32>>> {
        Arc::clone(&self.last_volume)
    }
}

impl PlayerAudioOutput<f32, FixedAudioClock> for FixedAudioOutput {
    type Error = String;
    type WriteReport = u64;

    fn write_samples(
        &mut self,
        samples: &[f32],
        _intent: AudioOutputWriteIntent,
    ) -> Result<u64, String> {
        self.written.lock().expect("the device is not poisoned").extend_from_slice(samples);
        Ok(samples.len() as u64)
    }

    fn play(&mut self) -> Result<(), String> {
        match self.play_error {
            Some(error) => Err(error.to_string()),
            None => Ok(()),
        }
    }

    fn pause_and_freeze_clock(&mut self) -> Result<AudioOutputClockTiming, String> {
        match self.pause_error {
            Some(error) => Err(error.to_string()),
            None => Ok(self.clock.output_timing()),
        }
    }

    fn clear_buffer_for_seek(&mut self, generation: u64) -> Result<u64, String> {
        Ok(generation)
    }

    fn set_volume(&mut self, volume_bits: u32) {
        *self.last_volume.lock().expect("the device is not poisoned") =
            Some(f32::from_bits(volume_bits));
    }

    fn buffer_level_ms(&self) -> u64 {
        self.buffer_level_ms.to_bits()
    }

    fn clock(&self) -> FixedAudioClock {
        self.clock.clone()
    }
}

/// A processor that plays every sample twice and keeps the last one back.
struct DoublingTempoProcessor {
    pcm_format: AudioTempoPcmFormat,
    kept_back: Vec<f32>,
    primed: usize,
}

impl AudioTempoProcessor<f32> for DoublingTempoProcessor {
    type Error = String;
    type Report = usize;

    fn pcm_format(&self) -> AudioTempoPcmFormat {
        self.pcm_format
    }

    fn set_segment(&mut self, segment: AudioTempoSegment) -> Result<usize, String> {
        Ok(segment.segment_id as usize)
    }

    fn process_decoded_media_into(
        &mut self,
        samples: &[f32],
        _pcm_format: AudioTempoPcmFormat,
        output: &mut Vec<f32>,
    ) -> Result<usize, String> {
        output.clear();
        self.kept_back.extend(samples.iter().flat_map(|sample| [*sample, *sample]));
        let last = self.kept_back.pop();
        output.append(&mut self.kept_back);
        self.kept_back.extend(last);
        Ok(samples.len())
    }

    fn prime_decoded_history(
        &mut self,
        samples: &[f32],
        _pcm_format: AudioTempoPcmFormat,
    ) -> Result<usize, String> {
        self.primed += samples.len();
        Ok(self.primed)
    }

    fn reset(&mut self) -> Result<usize, String> {
        self.kept_back.clear();
        Ok(0)
    }

    fn finish_stream_into(&mut self, output: &mut Vec<f32>) -> Result<usize, String> {
        output.clear();
        output.append(&mut self.kept_back);
        Ok(0)
    }
}

/// A decoder that writes down which textures it was given back.
struct FakeVideoDecoder {
    packet_queue_depth: usize,
    control_channel: Option<DecoderControlChannelPressure>,
    host_upload: HostUploadResourceStatus,
    captured_epoch: Option<u64>,
    frames: Mutex<Vec<DecodedFrame<Colours>>>,
    released: Arc<Mutex<Vec<FrameResourceHandle>>>,
}

impl FakeVideoDecoder {
    fn new() -> Self {
        Self {
            packet_queue_depth: 3,
            control_channel: None,
            host_upload: HostUploadResourceStatus::UnsupportedBackend,
            captured_epoch: Some(5),
            frames: Mutex::new(Vec::new()),
            released: Arc::new(Mutex::new(Vec::new())),
        }
    }
}

impl VideoDecoderThread<u64, Colours> for FakeVideoDecoder {
    type Packet = u32;
    type SendError = String;
    type ThreadError = String;
    type DiagnosticEvent = String;
    type StreamConfig = u32;
    type StreamConfigResult = Result<u32, String>;
    type OutputFloor = Duration;
    type OutputFloorClear = u64;
    type OutputFloorResult = bool;
    type DrainResult = u64;
    type DrainProgress = u64;
    type ResourceSnapshot = usize;
    type FlushError = String;
    type ActivitySubscription = &'static str;

    fn backend_name(&self) -> String {
        "fake backend".to_string()
    }

    fn packet_queue_depth(&self) -> usize {
        self.packet_queue_depth
    }

    fn decoder_resource_snapshot(&self) -> Option<usize> {
        Some(4)
    }

    fn host_upload_resource_status(&self, _ready_queue_capacity: usize) -> HostUploadResourceStatus {
        self.host_upload
    }

    fn decoder_control_channel_pressure(&self) -> Option<DecoderControlChannelPressure> {
        self.control_channel
    }

    fn decoder_activity_snapshot(&self) -> VideoDecoderActivitySnapshot<&'static str> {
        VideoDecoderActivitySnapshot::Available {
            captured_epoch: self.captured_epoch,
            subscription: "bell",
        }
    }

    fn resource_provider(&self) -> u64 {
        77
    }

    fn release_frame(&self, resource_handle: FrameResourceHandle) {
        self.released.lock().expect("the decoder is not poisoned").push(resource_handle);
    }

    fn configure_stream(&self, config: u32) -> Result<u32, String> {
        Ok(config)
    }

    fn clear_stream(&self) -> Result<u32, String> {
        Ok(0)
    }

    fn set_preroll_output_floor(&self, floor: Duration) -> bool {
        !floor.is_zero()
    }

    fn clear_preroll_output_floor(&self, clear: u64) -> bool {
        clear == 1
    }

    fn begin_end_of_stream_drain(&self, generation: u64) -> u64 {
        generation
    }

    fn end_of_stream_drain_state(&self) -> VideoDecoderEndOfStreamDrainState<u64> {
        VideoDecoderEndOfStreamDrainState::Begun(9)
    }

    fn flush(&self) -> Result<(), String> {
        Err("flush failed".to_string())
    }

    fn try_recv_frame(&self) -> Option<DecodedFrame<Colours>> {
        self.frames.lock().expect("the decoder is not poisoned").pop()
    }

    fn try_recv_diagnostic_event(&self) -> Option<String> {
        Some("event".to_string())
    }

    fn try_recv_error(&self) -> Option<String> {
        None
    }

    fn drain_completed_packet_count(&self) -> usize {
        2
    }

    fn send_packet(&self, packet: u32) -> Result<(), String> {
        if packet == 0 {
            Err("the channel is full".to_string())
        } else {
            Ok(())
        }
    }
}

struct SourceSlotFakeDemuxer {
    track_infos: Vec<TrackInfo<Details>>,
}

impl SourceSlotFakeDemuxer {
    fn new(track_infos: Vec<TrackInfo<Details>>) -> Self {
        Self { track_infos }
    }
}

impl Demuxer for SourceSlotFakeDemuxer {
    type Error = String;
    type TrackDetails = Details;

    fn tracks(&self) -> Vec<TrackInfo<Details>> {
        self.track_infos.clone()
    }

    fn duration(&self) -> Option<Duration> {
        Some(Duration::from_secs(30))
    }

    fn media_metadata(&self) -> Option<MediaMetadata> {
        None
    }

    fn seekability(&self) -> DemuxSeekability {
        DemuxSeekability::Seekable
    }

    fn next_event(&mut self) -> Result<DemuxReadEvent<Details>, String> {
        Ok(DemuxReadEvent::EndOfStream)
    }

    fn seek(&mut self, timestamp: Duration) -> Result<DemuxSeekResult, String> {
        Ok(DemuxSeekResult {
            requested_position: MediaTime::from_duration(timestamp),
            actual_position: MediaTime::from_duration(timestamp),
            actual_track_timestamp: None,
        })
    }

    fn seek_with_request(&mut self, request: DemuxSeekRequest) -> Result<DemuxSeekResult, String> {
        self.seek(request.position)
    }
}

fn source_slot_track(track_id: TrackId, kind: TrackKind, codec_id: &str) -> TrackInfo<Details> {
    TrackInfo {
        id: track_id,
        kind,
        codec_id: codec_id.to_owned(),
        video_codec: None,
        time_base: TimeBase { numerator: 1, denominator: 1_000 },
        duration: Some(Duration::from_secs(30)),
        sample_rate: (kind == TrackKind::Audio).then_some(48_000),
        channels: (kind == TrackKind::Audio).then_some(2),
        details: Arc::new(Details { codec_private: b"private" }),
    }
}

#[test]
fn queued_video_frame_methods_preserve_fifo_order_and_len() {
    let mut pipeline = pipeline();

    assert!(pipeline.video_present_queue_is_empty());
    assert_eq!(pipeline.video_present_queue_len(), 0);

    pipeline.enqueue_queued_video_frame(decoded_frame_for_tests(Duration::from_millis(16), 1));
    pipeline.enqueue_queued_video_frame(decoded_frame_for_tests(Duration::from_millis(33), 2));

    assert_eq!(pipeline.video_present_queue_len(), 2);
    assert_eq!(
        pipeline.front_queued_video_frame().map(|frame| frame.pts),
        Some(Duration::from_millis(16))
    );
    assert_eq!(
        pipeline
            .front_and_next_queued_video_frames()
            .map(|(front_frame, next_frame)| (front_frame.pts, next_frame.pts)),
        Some((Duration::from_millis(16), Duration::from_millis(33)))
    );

    assert_eq!(
        pipeline
            .pop_queued_video_frame_front()
            .map(|frame| frame.resource_handle),
        Some(FrameResourceHandle(1))
    );
    assert_eq!(
        pipeline
            .pop_queued_video_frame_front()
            .map(|frame| frame.resource_handle),
        Some(FrameResourceHandle(2))
    );
    assert!(pipeline.pop_queued_video_frame_front().is_none());
    assert!(pipeline.video_present_queue_is_empty());
}

#[test]
fn queued_video_frame_covers_target_for_generation_reports_only_matching_frames() {
    let mut pipeline = pipeline();
    let target_position = Duration::from_millis(100);
    let active_generation = 7;
    let stale_generation = 6;

    assert!(
        !pipeline
            .queued_video_frame_covers_target_for_generation(target_position, active_generation)
    );

    let mut pretarget_frame = decoded_frame_for_tests(Duration::from_millis(90), 1);
    pretarget_frame.generation = active_generation;
    pipeline.enqueue_queued_video_frame(pretarget_frame);

    assert!(
        !pipeline
            .queued_video_frame_covers_target_for_generation(target_position, active_generation)
    );

    let mut stale_target_frame = decoded_frame_for_tests(Duration::from_millis(100), 2);
    stale_target_frame.generation = stale_generation;
    pipeline.enqueue_queued_video_frame(stale_target_frame);

    assert!(
        !pipeline
            .queued_video_frame_covers_target_for_generation(target_position, active_generation)
    );

    let mut active_target_frame = decoded_frame_for_tests(Duration::from_millis(100), 3);
    active_target_frame.generation = active_generation;
    pipeline.enqueue_queued_video_frame(active_target_frame);

    assert!(
        pipeline
            .queued_video_frame_covers_target_for_generation(target_position, active_generation)
    );
}

#[test]
fn present_video_frame_methods_keep_replacement_ownership_explicit() {
    let mut pipeline = pipeline();

    assert!(!pipeline.has_present_video_frame());
    assert!(pipeline.present_video_frame().is_none());
    assert!(pipeline.take_present_video_frame().is_none());

    pipeline.set_present_video_frame(decoded_frame_for_tests(Duration::from_millis(10), 10));

    assert!(pipeline.has_present_video_frame());
    assert_eq!(
        pipeline.present_video_frame().map(|frame| frame.pts),
        Some(Duration::from_millis(10))
    );

    let replaced_frame = pipeline
        .replace_present_video_frame(decoded_frame_for_tests(Duration::from_millis(20), 20));

    assert_eq!(
        replaced_frame.map(|frame| frame.resource_handle),
        Some(FrameResourceHandle(10))
    );
    assert_eq!(
        pipeline
            .take_present_video_frame()
            .map(|frame| frame.resource_handle),
        Some(FrameResourceHandle(20))
    );
    assert!(!pipeline.has_present_video_frame());
}

#[test]
fn opened_media_boundary_methods_expose_installed_source_slots() {
    let mut pipeline = pipeline();
    let track_infos = vec![
        source_slot_track(TrackId::new(1), TrackKind::Video, "V_VP9"),
        source_slot_track(TrackId::new(2), TrackKind::Audio, "A_OPUS"),
    ];

    assert!(!pipeline.has_demuxer());
    assert_eq!(pipeline.track_count(), 0);

    pipeline.install_opened_media(
        SourceSlotFakeDemuxer::new(track_infos.clone()),
        Some(PathBuf::from("/tmp/source.webm")),
        Some("external source".to_owned()),
        track_infos,
    );

    assert!(pipeline.has_demuxer());
    assert_eq!(
        pipeline.source_file_path(),
        Some(&PathBuf::from("/tmp/source.webm"))
    );
    assert_eq!(pipeline.source_label(), Some("external source"));
    assert_eq!(pipeline.track_count(), 2);
    assert_eq!(pipeline.tracks()[0].id, TrackId::new(1));
    assert_eq!(pipeline.tracks()[1].kind, TrackKind::Audio);
    assert_eq!(pipeline.tracks()[1].details.codec_private, b"private");
}

#[test]
fn demux_track_list_update_invalidates_decoder_dependent_state() {
    let mut pipeline = pipeline();
    let old_video_track = TrackId::new(1);
    let old_audio_track = TrackId::new(2);
    let new_audio_track = TrackId::new(3);
    let initial_tracks = vec![
        source_slot_track(old_video_track, TrackKind::Video, "V_VP9"),
        source_slot_track(old_audio_track, TrackKind::Audio, "A_OPUS"),
    ];

    pipeline.install_opened_media(
        SourceSlotFakeDemuxer::new(initial_tracks.clone()),
        None,
        None,
        initial_tracks,
    );
    pipeline.select_video_track(
        old_video_track,
        VideoDecodeRequirement::new(VideoCodec::Vp9),
    );
    pipeline.select_audio_track(old_audio_track);
    pipeline.install_deferred_audio_decoder_config(
        AudioDecoderConfig::from_track_metadata(
            old_audio_track,
            "A_OPUS".to_owned(),
            Some(48_000),
            Some(2),
        ),
    );
    pipeline.install_audio_decoder(FakeAudioDecoder::with_samples(
        vec![0.0],
        48_000,
        2,
    ));
    pipeline.enqueue_pending_audio_packet(PendingAudioPacket::new_unbounded(
        old_audio_track,
        Duration::zero(),
        None,
        None,
        pipeline.seek_generation(),
        Bytes::from_static(b"old audio"),
    ));
    pipeline.enqueue_pending_video_packet(PendingVideoPacket::new(
        old_video_track,
        Duration::zero(),
        pipeline.seek_generation(),
        Bytes::from_static(b"old video"),
        PacketKeyframe::Keyframe,
    ));
    pipeline.mark_video_decoder_bootstrapped();
    pipeline.note_video_packet_sent_to_decoder();

    pipeline.apply_demux_track_list_update(vec![source_slot_track(
        new_audio_track,
        TrackKind::Audio,
        "A_AAC",
    )]);

    assert_eq!(pipeline.tracks()[0].id, new_audio_track);
    assert!(pipeline.selected_audio_track_id().is_none());
    assert!(pipeline.selected_video_track_id().is_none());
    assert!(!pipeline.has_audio_decoder());
    assert!(!pipeline.has_deferred_audio_decoder_config());
    assert_eq!(pipeline.pending_audio_packet_len(), 0);
    assert_eq!(pipeline.pending_video_packet_len(), 0);
    assert!(!pipeline.video_decoder_needs_keyframe());
    assert_eq!(pipeline.video_decode_in_flight_packets(), 0);
}

#[test]
fn audio_decoder_boundaries_preserve_absent_success_and_error_states() {
    let mut pipeline = pipeline();
    let packet = &EncodedAudioPacket::without_timing(TrackId::new(2).0, b"packet");
    let bad_packet = &EncodedAudioPacket::without_timing(TrackId::new(2).0, b"bad packet");

    assert!(!pipeline.has_audio_decoder());
    assert!(pipeline.decode_audio_packet(packet).is_none());
    assert!(pipeline.reset_audio_decoder().is_none());

    pipeline.install_audio_decoder(FakeAudioDecoder::with_samples(
        vec![0.25, -0.25],
        44_100,
        2,
    ));

    let decoded_audio = pipeline
        .decode_audio_packet(packet)
        .expect("a result was expected")
        .expect("a result was expected");
    assert_eq!(
        decoded_audio,
        DecodedAudioPacket::Pcm {
            samples: vec![0.25, -0.25],
            output_spec: output_spec(44_100, 2),
        }
    );

    pipeline.clear_audio_decoder();
    assert!(!pipeline.has_audio_decoder());

    pipeline.install_audio_decoder(FakeAudioDecoder::with_decode_error(
        "decode failed",
    ));

    let decode_error = pipeline
        .decode_audio_packet(bad_packet)
        .expect("a result was expected")
        .expect_err("an error was expected");
    assert_eq!(decode_error, AudioDecodeFailure::Decoder("decode failed".to_string()));

    pipeline.clear_audio_decoder();
    pipeline.install_audio_decoder(FakeAudioDecoder::with_reset_error("reset failed"));

    let reset_error = pipeline
        .reset_audio_decoder()
        .expect("a result was expected")
        .expect_err("an error was expected");
    assert_eq!(reset_error.to_string(), "reset failed");
}

#[test]
fn deferred_audio_decoder_config_boundary_preserves_absent_match_and_mismatch() {
    let mut pipeline = pipeline();
    let config = || AudioDecoderConfig::from_track_metadata(
        TrackId::new(2),
        "A_AAC".to_owned(),
        None,
        None,
    );

    assert!(!pipeline.has_deferred_audio_decoder_config());
    assert!(
        pipeline
            .take_deferred_audio_decoder_config(TrackId::new(2))
            .is_none()
    );

    pipeline.install_deferred_audio_decoder_config(config());
    assert!(pipeline.has_deferred_audio_decoder_config());
    assert!(
        pipeline
            .take_deferred_audio_decoder_config(TrackId::new(3))
            .is_none()
    );
    assert!(pipeline.has_deferred_audio_decoder_config());

    let taken_config = pipeline
        .take_deferred_audio_decoder_config(TrackId::new(2))
        .expect("matching track should consume deferred decoder config");
    assert_eq!(taken_config, config());
    assert!(!pipeline.has_deferred_audio_decoder_config());
}

#[test]
fn audio_seek_runtime_state_classifies_slots_without_cpal_output() {
    assert_eq!(
        audio_seek_runtime_state_from_slots(false, false, false),
        AudioSeekRuntimeState::NoSelectedAudio
    );
    assert_eq!(
        audio_seek_runtime_state_from_slots(true, false, false),
        AudioSeekRuntimeState::WaitingForDecoder
    );
    assert_eq!(
        audio_seek_runtime_state_from_slots(true, true, false),
        AudioSeekRuntimeState::WaitingForOutput
    );
    assert_eq!(
        audio_seek_runtime_state_from_slots(true, true, true),
        AudioSeekRuntimeState::Ready
    );
}

#[test]
fn audio_seek_runtime_state_boundary_keeps_selection_ownership() {
    let mut pipeline = pipeline();
    let track_id = TrackId::new(2);
    let decoder_config =
        AudioDecoderConfig::from_track_metadata(track_id, "A_OPUS".to_owned(), None, None);

    assert_eq!(
        pipeline.audio_seek_runtime_state(),
        AudioSeekRuntimeState::NoSelectedAudio
    );

    pipeline.select_audio_track(track_id);
    assert_eq!(
        pipeline.audio_seek_runtime_state(),
        AudioSeekRuntimeState::WaitingForDecoder
    );

    pipeline.install_deferred_audio_decoder_config(decoder_config);
    assert_eq!(
        pipeline.audio_seek_runtime_state(),
        AudioSeekRuntimeState::WaitingForDecoder
    );
    assert_eq!(pipeline.selected_audio_track_id(), Some(track_id));

    pipeline.install_audio_decoder(FakeAudioDecoder::with_samples(
        vec![0.0, 0.0],
        48_000,
        2,
    ));
    assert_eq!(
        pipeline.audio_seek_runtime_state(),
        AudioSeekRuntimeState::WaitingForOutput
    );
    assert_eq!(pipeline.selected_audio_track_id(), Some(track_id));
}

#[test]
fn absent_audio_output_boundaries_are_noop_without_losing_absent_state() {
    let mut pipeline = pipeline();

    assert!(!pipeline.has_audio_output());
    assert_eq!(
        pipeline.write_audio_output_samples(&[0.0, 0.1], AudioOutputWriteIntent::DirectDecodedPcm),
        AudioOutputRoutingStatus::AudioOutputAbsent
    );
    assert!(pipeline.play_audio_output().is_none());
    assert!(pipeline.pause_audio_output_and_capture_clock().is_none());
    assert!(pipeline.clear_audio_output_for_seek(1).is_none());
    assert!(pipeline.audio_output_buffer_level_ms().is_none());
    assert!(pipeline.audio_output_clock().is_none());
    assert_eq!(
        pipeline.audio_eof_drain_state(),
        AudioEofDrainState::NoSelectedAudio
    );

    pipeline.clear_audio_output();
    assert!(!pipeline.has_audio_output());
}

#[test]
fn installed_audio_output_boundary_forwards_calls_and_neutral_clock() {
    let mut pipeline = pipeline();
    let output = FixedAudioOutput::new(42.0);
    let clock = output.clock_handle();
    let volume = output.volume_handle();

    pipeline.install_audio_output_for_tests(output);

    assert!(pipeline.has_audio_output());
    assert!(pipeline.audio_output_clock().is_some());
    assert_eq!(
        pipeline
            .write_audio_output_samples(&[0.1, -0.1], AudioOutputWriteIntent::DirectDecodedPcm),
        AudioOutputRoutingStatus::Written(2)
    );
    assert_eq!(pipeline.audio_output_buffer_level_ms(), Some(42.0f64.to_bits()));
    assert_eq!(
        pipeline
            .clear_audio_output_for_seek(7)
            .expect("a result was expected")
            .expect("a result was expected"),
        7
    );
    assert!(pipeline.set_audio_output_volume(0.25f32.to_bits()));
    assert_eq!(
        *volume.lock().expect("a result was expected"),
        Some(0.25)
    );

    pipeline.install_audio_clock(clock);
    assert!(pipeline.reset_audio_clock());
}

#[test]
fn audio_output_boundary_preserves_play_pause_errors() {
    let mut pipeline = pipeline();

    pipeline.install_audio_output_for_tests(FixedAudioOutput::with_errors(
        Some("play failed"),
        Some("pause failed"),
    ));

    let play_error = pipeline
        .play_audio_output()
        .expect("a result was expected")
        .expect_err("an error was expected");
    assert_eq!(play_error.to_string(), "play failed");

    let pause_error = pipeline
        .pause_audio_output_and_capture_clock()
        .expect("a result was expected")
        .expect_err("an error was expected");
    assert_eq!(pause_error.to_string(), "pause failed");
}

#[test]
fn audio_eof_drain_state_preserves_queue_output_and_playback_distinctions() {
    let mut pipeline = pipeline();
    let audio_track_id = TrackId::new(2);

    pipeline.select_audio_track(audio_track_id);
    assert_eq!(
        pipeline.audio_eof_drain_state(),
        AudioEofDrainState::NoOutput
    );

    pipeline.enqueue_pending_audio_packet(PendingAudioPacket::new_unbounded(
        audio_track_id,
        Duration::zero(),
        None,
        Some(Duration::from_millis(20)),
        pipeline.seek_generation(),
        Bytes::from_static(b"encoded-audio"),
    ));
    assert_eq!(
        pipeline.audio_eof_drain_state(),
        AudioEofDrainState::PendingPackets { queued_packets: 1 }
    );

    let _pending_packet = pipeline.pop_pending_audio_packet_front();
    pipeline.install_audio_output_for_tests(FixedAudioOutput::new(24.0));
    assert_eq!(
        pipeline.audio_eof_drain_state(),
        AudioEofDrainState::DrainingOutput {
            buffer_level_ms: 24.0f64.to_bits(),
            playback_requested: false,
        }
    );

    pipeline
        .play_audio_output()
        .expect("a result was expected")
        .expect("a result was expected");
    assert_eq!(
        pipeline.audio_eof_drain_state(),
        AudioEofDrainState::DrainingOutput {
            buffer_level_ms: 24.0f64.to_bits(),
            playback_requested: true,
        }
    );

    pipeline.install_audio_output_for_tests(FixedAudioOutput::new(0.0));
    assert_eq!(
        pipeline.audio_eof_drain_state(),
        AudioEofDrainState::DrainedOutput {
            playback_requested: false,
        }
    );
}

#[test]
fn audio_eof_drain_waits_for_pcm_already_submitted_to_dac() {
    let mut pipeline = pipeline();
    pipeline.select_audio_track(TrackId::new(2));

    let output = FixedAudioOutput::new(0.0);
    let output_clock = output.clock_handle();
    output_clock.set_output_timing(Duration::zero(), Duration::from_millis(100));
    pipeline.install_audio_output_for_tests(output);

    assert_eq!(
        pipeline.audio_eof_drain_state(),
        AudioEofDrainState::DrainingOutput {
            buffer_level_ms: 100.0f64.to_bits(),
            playback_requested: false,
        }
    );

    output_clock.set_output_timing(Duration::from_millis(100), Duration::from_millis(100));
    assert_eq!(
        pipeline.audio_eof_drain_state(),
        AudioEofDrainState::DrainedOutput {
            playback_requested: false,
        }
    );
}

#[test]
fn audio_buffer_clear_generation_boundary_records_ack_generation() {
    let mut pipeline = pipeline();

    assert_eq!(pipeline.audio_buffer_clear_generation(), 0);

    pipeline.mark_audio_buffer_clear_ack(7);

    assert_eq!(pipeline.audio_buffer_clear_generation(), 7);
}

#[test]
fn no_audio_monotonic_fallback_counts_position_from_anchor() {
    let mut pipeline = pipeline();
    let anchored_at = start_of_test();
    let initial_position = Duration::from_millis(100);

    pipeline.start_monotonic_media_clock(initial_position, anchored_at, PlaybackRate::normal());

    assert_eq!(
        pipeline.monotonic_media_position(anchored_at.after(Duration::from_millis(40))),
        Some(Duration::from_millis(140))
    );
}

#[test]
fn no_audio_monotonic_fallback_scales_position_by_playback_rate() {
    let anchored_at = start_of_test();
    let initial_position = Duration::from_millis(100);
    let two_x_rate = rate(2.0);
    let half_x_rate = rate(0.5);

    let mut fast_pipeline = pipeline();
    fast_pipeline.start_monotonic_media_clock(initial_position, anchored_at, two_x_rate);

    assert_eq!(
        fast_pipeline.monotonic_media_position(anchored_at.after(Duration::from_millis(40))),
        Some(Duration::from_millis(180))
    );

    let mut slow_pipeline = pipeline();
    slow_pipeline.start_monotonic_media_clock(initial_position, anchored_at, half_x_rate);

    assert_eq!(
        slow_pipeline.monotonic_media_position(anchored_at.after(Duration::from_millis(40))),
        Some(Duration::from_millis(120))
    );
}

#[test]
fn no_audio_monotonic_deadline_mapping_preserves_anchor_rounding_phase() {
    let empty_pipeline = pipeline();
    let now = start_of_test();
    assert_eq!(
        empty_pipeline.monotonic_media_position_after_wall_delay(now, Duration::from_nanos(1)),
        None
    );
    assert_eq!(
        empty_pipeline.monotonic_wall_delay_until_media_deadline(now, Duration::from_nanos(1)),
        None
    );

    let one_and_half_rate = rate(1.5);
    let mut pipeline = pipeline();
    pipeline.start_monotonic_media_clock(Duration::zero(), now, one_and_half_rate);
    let current_time = now.after(Duration::from_nanos(1));

    assert_eq!(
        pipeline.monotonic_media_position(current_time),
        Some(Duration::from_nanos(1))
    );
    assert_eq!(
        pipeline.monotonic_media_position_after_wall_delay(current_time, Duration::from_nanos(1)),
        Some(Duration::from_nanos(3))
    );
    assert_eq!(
        pipeline.monotonic_wall_delay_until_media_deadline(current_time, Duration::from_nanos(3)),
        Some(Duration::from_nanos(1))
    );
}

#[test]
fn no_audio_monotonic_fallback_boundary_rates_saturate_without_wrapping() {
    let anchored_at = start_of_test();
    let near_max_position = Duration::max_value().saturating_sub(Duration::from_nanos(1));

    let mut max_rate_pipeline = pipeline();
    max_rate_pipeline.start_monotonic_media_clock(
        near_max_position,
        anchored_at,
        PlaybackRate::max_rate(),
    );

    assert_eq!(
        max_rate_pipeline.monotonic_media_position(anchored_at.after(Duration::from_secs(1))),
        Some(Duration::max_value())
    );

    let mut min_rate_pipeline = pipeline();
    min_rate_pipeline.start_monotonic_media_clock(Duration::zero(), anchored_at, PlaybackRate::min_rate());

    assert_eq!(
        min_rate_pipeline.monotonic_media_position(anchored_at.after(Duration::from_millis(4))),
        Some(Duration::from_millis(1))
    );
}

#[test]
fn installing_audio_clock_clears_monotonic_fallback_anchor() {
    let mut pipeline = pipeline();
    let anchored_at = start_of_test();
    let clock = FixedAudioClock::new(Duration::from_millis(12), 3);

    pipeline.start_monotonic_media_clock(Duration::from_secs(3), anchored_at, PlaybackRate::normal());
    assert!(pipeline.monotonic_media_position(anchored_at).is_some());

    pipeline.install_audio_clock(clock.clone());

    assert!(pipeline.has_audio_clock());
    assert_eq!(pipeline.audio_clock_now(), Duration::from_millis(12));
    assert_eq!(pipeline.audio_clock_underrun_callbacks(), 3);
    assert!(pipeline.monotonic_media_position(anchored_at).is_none());
    assert!(pipeline.reset_audio_clock());
    assert_eq!(clock.reset_count(), 1);
    assert_eq!(pipeline.audio_clock_now(), Duration::zero());
}

#[test]
fn audio_clock_mapping_scales_output_progress_by_playback_rate() {
    let mut pipeline = pipeline();
    let clock = FixedAudioClock::new(Duration::zero(), 0);
    pipeline.install_audio_clock(clock.clone());
    pipeline.reanchor_audio_clock_media_mapping(
        Duration::from_secs(10),
        rate(2.0),
    );

    clock.set_now(Duration::from_secs(1));

    assert_eq!(
        pipeline.media_position_from_audio_clock(),
        Duration::from_secs(12)
    );
}

fn assert_media_position_close(actual: Duration, expected: Duration) {
    let delta = actual.saturating_sub(expected).max(expected.saturating_sub(actual));
    assert!(
        delta <= Duration::from_millis(1)
    );
}

#[test]
fn rate_change_reanchor_accounts_written_output_tail_at_old_rate() {
    let mut pipeline = pipeline();
    let output = FixedAudioOutput::new(0.0);
    let clock = output.clock_handle();
    pipeline.install_audio_output_for_tests(output);
    pipeline.install_audio_clock(clock.clone());

    clock.set_output_timing(Duration::from_secs(60), Duration::from_millis(60_200));
    pipeline.reanchor_audio_clock_media_mapping(Duration::from_secs(10), PlaybackRate::normal());

    pipeline.reanchor_audio_clock_media_mapping_for_rate_change(
        Duration::from_secs(10),
        rate(2.0),
    );

    assert_media_position_close(
        pipeline.media_position_from_audio_clock(),
        Duration::from_secs(10),
    );

    clock.set_now(Duration::from_millis(60_100));
    assert_media_position_close(
        pipeline.media_position_from_audio_clock(),
        Duration::from_millis(10_100),
    );

    clock.set_now(Duration::from_millis(60_200));
    assert_media_position_close(
        pipeline.media_position_from_audio_clock(),
        Duration::from_millis(10_200),
    );

    clock.set_now(Duration::from_millis(61_200));
    assert_media_position_close(
        pipeline.media_position_from_audio_clock(),
        Duration::from_millis(12_200),
    );
}

#[test]
fn rate_change_reanchor_without_buffered_output_matches_plain_reanchor() {
    let mut pipeline = pipeline();
    let output = FixedAudioOutput::new(0.0);
    let clock = output.clock_handle();
    pipeline.install_audio_output_for_tests(output);
    pipeline.install_audio_clock(clock.clone());

    clock.set_now(Duration::from_secs(5));
    pipeline.reanchor_audio_clock_media_mapping_for_rate_change(
        Duration::from_secs(10),
        rate(2.0),
    );

    clock.set_now(Duration::from_secs(6));
    assert_eq!(
        pipeline.media_position_from_audio_clock(),
        Duration::from_secs(12)
    );
}

#[test]
fn repeated_rate_change_inside_tail_keeps_mapping_monotonic_and_bounded() {
    let mut pipeline = pipeline();
    let output = FixedAudioOutput::new(0.0);
    let clock = output.clock_handle();
    pipeline.install_audio_output_for_tests(output);
    pipeline.install_audio_clock(clock.clone());

    clock.set_output_timing(Duration::from_secs(60), Duration::from_millis(60_200));
    pipeline.reanchor_audio_clock_media_mapping(Duration::from_secs(10), PlaybackRate::normal());
    pipeline.reanchor_audio_clock_media_mapping_for_rate_change(
        Duration::from_secs(10),
        rate(2.0),
    );

    clock.set_output_timing(Duration::from_millis(60_100), Duration::from_millis(60_300));
    let mid_tail_position = pipeline.media_position_from_audio_clock();
    pipeline.reanchor_audio_clock_media_mapping_for_rate_change(
        mid_tail_position,
        rate(4.0),
    );

    assert_media_position_close(
        pipeline.media_position_from_audio_clock(),
        mid_tail_position,
    );

    clock.set_now(Duration::from_millis(60_300));
    let tail_end_position = pipeline.media_position_from_audio_clock();
    assert!(tail_end_position >= mid_tail_position);
    assert!(
        tail_end_position <= Duration::from_millis(10_500)
    );

    clock.set_now(Duration::from_millis(61_300));
    assert_media_position_close(
        pipeline.media_position_from_audio_clock(),
        tail_end_position.saturating_add(Duration::from_secs(4)),
    );
}

#[test]
fn passthrough_audio_history_is_bounded_and_keeps_latest_samples() {
    let mut pipeline = pipeline();
    let output_spec = output_spec(100, 2);

    let old_chunk: Vec<f32> = (0..100).map(|i| i as f32).collect();
    let new_chunk: Vec<f32> = (100..160).map(|i| i as f32).collect();
    pipeline.record_passthrough_audio_history(&old_chunk, output_spec);
    pipeline.record_passthrough_audio_history(&new_chunk, output_spec);

    let history = pipeline.take_passthrough_audio_history_for_priming(output_spec);
    assert_eq!(
        history.len(),
        120
    );
    assert_eq!(
        history.last().copied(),
        Some(159.0)
    );
    assert_eq!(
        history.len() % 2,
        0
    );

    assert!(
        pipeline
            .take_passthrough_audio_history_for_priming(output_spec)
            .is_empty()
    );
}

#[test]
fn passthrough_audio_history_with_mismatched_spec_is_not_used_for_priming() {
    let mut pipeline = pipeline();
    pipeline.record_passthrough_audio_history(&[1.0, 2.0, 3.0, 4.0], output_spec(48_000, 2));

    assert!(
        pipeline
            .take_passthrough_audio_history_for_priming(output_spec(44_100, 2))
            .is_empty()
    );
}

#[test]
fn seek_clock_reset_restores_base_and_clears_fallback_sample_window() {
    let mut pipeline = pipeline();
    let anchored_at = start_of_test();
    let target_position = Duration::from_secs(9);

    pipeline.set_media_clock_base(Duration::from_secs(2));
    pipeline.start_monotonic_media_clock(Duration::from_secs(4), anchored_at, PlaybackRate::normal());
    pipeline.reset_audio_clock_sample(Duration::from_secs(3), anchored_at);

    pipeline.reset_clocks_for_seek(target_position, start_of_test());

    assert_eq!(pipeline.media_clock_base(), target_position);
    assert!(pipeline.monotonic_media_position(anchored_at).is_none());
    assert!(pipeline.audio_clock_stalled_for(start_of_test()) < Duration::from_secs(1));
}

#[test]
fn stalled_audio_duration_is_measured_from_last_changed_sample() {
    let mut pipeline = pipeline();
    let first_observed_at = start_of_test();
    let unchanged_observed_at = first_observed_at.after(Duration::from_millis(20));
    let changed_observed_at = first_observed_at.after(Duration::from_millis(40));

    pipeline.reset_audio_clock_sample(Duration::zero(), first_observed_at);
    pipeline.note_audio_clock_sample(Duration::zero(), unchanged_observed_at);

    assert_eq!(
        pipeline.audio_clock_stalled_for(first_observed_at.after(Duration::from_millis(30))),
        Duration::from_millis(30)
    );

    pipeline.note_audio_clock_sample(Duration::from_millis(5), changed_observed_at);

    assert_eq!(
        pipeline.audio_clock_stalled_for(changed_observed_at.after(Duration::from_millis(15))),
        Duration::from_millis(15)
    );
}

#[test]
fn demux_boundaries_preserve_eof_and_seek_results() {
    let mut pipeline = pipeline();
    pipeline.install_opened_media(
        SourceSlotFakeDemuxer::new(Vec::new()),
        None,
        None,
        Vec::new(),
    );

    let packet_result = pipeline
        .demux_next_event()
        .expect("a result was expected")
        .expect("a result was expected");
    assert_eq!(packet_result, DemuxReadEvent::EndOfStream);

    let seek_result = pipeline
        .seek_demuxer(DemuxSeekRequest::accurate(Duration::from_secs(3)))
        .expect("a result was expected")
        .expect("a result was expected");
    assert_eq!(seek_result.actual_position, MediaTime::from_secs(3));
}

#[test]
fn selected_track_boundaries_manage_ids_requirement_and_clear_only_selection() {
    let mut pipeline = pipeline();
    let video_track_id = TrackId::new(10);
    let audio_track_id = TrackId::new(20);
    let source_tracks = vec![
        source_slot_track(video_track_id, TrackKind::Video, "V_VP9"),
        source_slot_track(audio_track_id, TrackKind::Audio, "A_OPUS"),
    ];
    let initial_requirement = VideoDecodeRequirement::new(VideoCodec::Vp9);
    let refined_requirement = initial_requirement.with_resolution(1920, 1080);

    pipeline.install_opened_media(
        SourceSlotFakeDemuxer::new(source_tracks.clone()),
        None,
        Some("selected-track-test".to_owned()),
        source_tracks,
    );
    pipeline.enqueue_pending_audio_packet(PendingAudioPacket::new_unbounded(
        audio_track_id,
        Duration::from_millis(1),
        None,
        None,
        pipeline.seek_generation(),
        Bytes::from_static(b"audio"),
    ));
    pipeline.enqueue_pending_video_packet(PendingVideoPacket::new(
        video_track_id,
        Duration::from_millis(2),
        pipeline.seek_generation(),
        Bytes::from_static(b"video"),
        PacketKeyframe::Keyframe,
    ));

    pipeline.select_audio_track(audio_track_id);
    pipeline.select_video_track(video_track_id, initial_requirement);

    assert_eq!(pipeline.selected_audio_track_id(), Some(audio_track_id));
    assert_eq!(pipeline.selected_video_track_id(), Some(video_track_id));
    assert!(pipeline.has_selected_audio_track());
    assert!(pipeline.has_selected_video_track());
    assert!(pipeline.video_packet_belongs_to_selected_track(video_track_id));
    assert!(!pipeline.video_packet_belongs_to_selected_track(TrackId::new(99)));
    assert_eq!(
        pipeline.active_video_requirement(),
        Some(initial_requirement)
    );

    pipeline.set_active_video_requirement(refined_requirement);

    assert_eq!(
        pipeline.active_video_requirement(),
        Some(refined_requirement)
    );

    pipeline.clear_selected_tracks();

    assert!(pipeline.selected_audio_track_id().is_none());
    assert!(pipeline.selected_video_track_id().is_none());
    assert!(!pipeline.has_selected_audio_track());
    assert!(!pipeline.has_selected_video_track());
    assert!(pipeline.active_video_requirement().is_none());
    assert_eq!(pipeline.pending_audio_packet_len(), 1);
    assert_eq!(pipeline.pending_video_packet_len(), 1);
    assert!(pipeline.has_demuxer());
    assert_eq!(pipeline.track_count(), 2);
}

#[test]
fn video_frame_timing_first_observation_only_records_pts() {
    let mut pipeline = pipeline();

    pipeline.observe_decoded_video_frame_pts(Duration::from_secs(10));

    assert_eq!(
        pipeline.video_frame_duration_estimate(),
        Duration::from_micros(DEFAULT_VIDEO_FRAME_MICROS)
    );
}

#[test]
fn video_frame_timing_valid_delta_updates_estimate_with_legacy_smoothing() {
    let mut pipeline = pipeline();
    let observed_frame_duration = Duration::from_millis(20);

    pipeline.observe_decoded_video_frame_pts(Duration::from_secs(10));
    pipeline.observe_decoded_video_frame_pts(Duration::from_secs(10).saturating_add(observed_frame_duration));

    let old_micros = DEFAULT_VIDEO_FRAME_MICROS;
    let observed_micros = observed_frame_duration.as_micros() as u64;
    let expected_micros = (old_micros.saturating_mul(7) + observed_micros) / 8;

    assert_eq!(
        pipeline.video_frame_duration_estimate(),
        Duration::from_micros(expected_micros.max(1))
    );
}

#[test]
fn video_frame_timing_ignores_out_of_range_deltas() {
    let mut pipeline = pipeline();
    let first_pts = Duration::from_secs(10);
    let too_small_pts = first_pts.saturating_add(Duration::from_micros(5_000 / 2));
    let too_large_pts = too_small_pts.saturating_add(Duration::from_micros(100_000 * 2));

    pipeline.observe_decoded_video_frame_pts(first_pts);
    pipeline.observe_decoded_video_frame_pts(too_small_pts);
    pipeline.observe_decoded_video_frame_pts(too_large_pts);

    assert_eq!(
        pipeline.video_frame_duration_estimate(),
        Duration::from_micros(DEFAULT_VIDEO_FRAME_MICROS)
    );
}

#[test]
fn video_frame_timing_reset_restores_default_and_clears_previous_pts() {
    let mut pipeline = pipeline();
    let observed_frame_duration = Duration::from_millis(20);

    pipeline.observe_decoded_video_frame_pts(Duration::from_secs(10));
    pipeline.observe_decoded_video_frame_pts(Duration::from_secs(10).saturating_add(observed_frame_duration));
    assert_ne!(
        pipeline.video_frame_duration_estimate(),
        Duration::from_micros(DEFAULT_VIDEO_FRAME_MICROS)
    );

    pipeline.reset_video_frame_timing_estimator();
    pipeline.observe_decoded_video_frame_pts(Duration::from_millis(10_040));

    assert_eq!(
        pipeline.video_frame_duration_estimate(),
        Duration::from_micros(DEFAULT_VIDEO_FRAME_MICROS)
    );
}

#[test]
fn pending_packet_queue_boundaries_preserve_fifo_order_and_lengths() {
    let mut pipeline = pipeline();
    let audio_track_id = TrackId::new(20);
    let video_track_id = TrackId::new(10);
    let generation = pipeline.seek_generation();

    assert!(pipeline.pending_audio_packet_is_empty());
    assert!(pipeline.pending_video_packet_is_empty());

    pipeline.enqueue_pending_audio_packet(PendingAudioPacket::new_unbounded(
        audio_track_id,
        Duration::from_millis(10),
        None,
        None,
        generation,
        Bytes::from_static(b"audio-10"),
    ));
    pipeline.enqueue_pending_audio_packet(PendingAudioPacket::new_unbounded(
        audio_track_id,
        Duration::from_millis(20),
        None,
        None,
        generation,
        Bytes::from_static(b"audio-20"),
    ));
    pipeline.enqueue_pending_video_packet(PendingVideoPacket::new(
        video_track_id,
        Duration::from_millis(30),
        generation,
        Bytes::from_static(b"video-30"),
        PacketKeyframe::Keyframe,
    ));
    pipeline.enqueue_pending_video_packet(PendingVideoPacket::new(
        video_track_id,
        Duration::from_millis(40),
        generation,
        Bytes::from_static(b"video-40"),
        PacketKeyframe::NotKeyframe,
    ));

    assert_eq!(pipeline.pending_audio_packet_len(), 2);
    assert_eq!(pipeline.pending_video_packet_len(), 2);
    assert_eq!(
        pipeline
            .front_pending_video_packet()
            .map(|packet| packet.pts),
        Some(Duration::from_millis(30))
    );
    assert_eq!(
        pipeline
            .pop_pending_audio_packet_front()
            .map(|packet| packet.pts),
        Some(Duration::from_millis(10))
    );
    assert_eq!(
        pipeline
            .pop_pending_audio_packet_front()
            .map(|packet| packet.pts),
        Some(Duration::from_millis(20))
    );
    assert_eq!(
        pipeline
            .pop_pending_video_packet_front()
            .map(|packet| packet.pts),
        Some(Duration::from_millis(30))
    );
    assert_eq!(
        pipeline
            .pop_pending_video_packet_front()
            .map(|packet| packet.pts),
        Some(Duration::from_millis(40))
    );
    assert!(pipeline.pending_audio_packet_is_empty());
    assert!(pipeline.pending_video_packet_is_empty());
}

#[test]
fn begin_seek_generation_saturates_without_wrapping() {
    let mut pipeline = pipeline();

    pipeline.set_seek_generation_for_tests(u64::MAX - 1);

    assert_eq!(pipeline.begin_seek_generation(), u64::MAX);
    assert_eq!(pipeline.seek_generation(), u64::MAX);
    assert_eq!(pipeline.begin_seek_generation(), u64::MAX);
    assert_eq!(pipeline.seek_generation(), u64::MAX);
    assert!(pipeline.packet_generation_is_current(u64::MAX));
    assert!(!pipeline.packet_generation_is_current(u64::MAX - 1));
}

#[test]
fn clear_pending_packets_for_seek_does_not_touch_selection_or_decoder_state() {
    let mut pipeline = pipeline();
    let video_track_id = TrackId::new(10);
    let audio_track_id = TrackId::new(20);
    let requirement = VideoDecodeRequirement::new(VideoCodec::Vp9);
    let generation = pipeline.seek_generation();

    pipeline.select_audio_track(audio_track_id);
    pipeline.select_video_track(video_track_id, requirement);
    pipeline.mark_video_decoder_bootstrapped();
    pipeline.note_video_packet_sent_to_decoder();
    pipeline.enqueue_pending_audio_packet(PendingAudioPacket::new_unbounded(
        audio_track_id,
        Duration::from_millis(10),
        None,
        None,
        generation,
        Bytes::from_static(b"audio"),
    ));
    pipeline.enqueue_pending_video_packet(PendingVideoPacket::new(
        video_track_id,
        Duration::from_millis(20),
        generation,
        Bytes::from_static(b"video"),
        PacketKeyframe::Keyframe,
    ));

    pipeline.clear_pending_packets_for_seek();

    assert!(pipeline.pending_audio_packet_is_empty());
    assert!(pipeline.pending_video_packet_is_empty());
    assert_eq!(pipeline.selected_audio_track_id(), Some(audio_track_id));
    assert_eq!(pipeline.selected_video_track_id(), Some(video_track_id));
    assert_eq!(pipeline.active_video_requirement(), Some(requirement));
    assert!(!pipeline.video_decoder_needs_keyframe());
    assert_eq!(pipeline.video_decode_in_flight_packets(), 1);
}

#[test]
fn clear_video_queues_returns_only_queued_resource_handles() {
    let mut pipeline = pipeline();

    pipeline.enqueue_queued_video_frame(decoded_frame_for_tests(Duration::from_millis(16), 1));
    pipeline.enqueue_queued_video_frame(decoded_frame_for_tests(Duration::from_millis(33), 2));
    pipeline.set_present_video_frame(decoded_frame_for_tests(Duration::from_millis(50), 3));
    pipeline.replace_seek_preroll_fallback_video_frame(decoded_frame_for_tests(
        Duration::from_millis(40),
        4,
    ));

    let released_resource_handles = pipeline.clear_video_queues();

    assert_eq!(
        released_resource_handles,
        vec![
            FrameResourceHandle(1),
            FrameResourceHandle(2)
        ]
    );
    assert!(pipeline.video_present_queue_is_empty());
    assert_eq!(
        pipeline
            .present_video_frame()
            .map(|frame| frame.resource_handle),
        Some(FrameResourceHandle(3))
    );
    assert_eq!(
        pipeline
            .take_seek_preroll_fallback_video_frame()
            .map(|frame| frame.resource_handle),
        Some(FrameResourceHandle(4))
    );
}


fn bounded_audio_window(track_id: TrackId) -> PacketPresentationWindow {
    let time_base = TimeBase { numerator: 1, denominator: 48_000 };
    PacketPresentationWindow::Bounded(
        ExactPresentationWindow { start: TrackTimestamp::new(track_id, 480, time_base), end: TrackTimestamp::new(track_id, 1_440, time_base) },
    )
}

#[test]
fn pending_audio_packet_unbounded_constructor_is_explicit() {
    let packet = PendingAudioPacket::new_unbounded(
        TrackId::new(2),
        Duration::from_millis(10),
        None,
        None,
        0,
        Bytes::from_static(b"audio"),
    );

    assert_eq!(
        packet.presentation_window(),
        PacketPresentationWindow::Unbounded
    );
}

#[test]
fn throttled_requeue_preserves_exact_audio_packet_window() {
    let mut pipeline = pipeline();
    let track_id = TrackId::new(2);
    let bounded_window = bounded_audio_window(track_id);
    pipeline.enqueue_pending_audio_packet(PendingAudioPacket::new_with_presentation_window(
        track_id,
        Duration::from_millis(10),
        bounded_window,
        pipeline.seek_generation(),
        Bytes::from_static(b"audio"),
    ));

    let throttled_packet = pipeline
        .pop_pending_audio_packet_front()
        .expect("a result was expected");
    assert_eq!(throttled_packet.presentation_window(), bounded_window);

    pipeline.push_pending_audio_packet_front(throttled_packet);

    let requeued_packet = pipeline
        .pop_pending_audio_packet_front()
        .expect("a result was expected");
    assert_eq!(requeued_packet.presentation_window(), bounded_window);
    assert_eq!(requeued_packet.encoded_bytes(), b"audio");
}

#[test]
fn seek_clear_drops_bounded_audio_packet_and_window_together() {
    let mut pipeline = pipeline();
    let track_id = TrackId::new(2);
    pipeline.enqueue_pending_audio_packet(PendingAudioPacket::new_with_presentation_window(
        track_id,
        Duration::from_millis(10),
        bounded_audio_window(track_id),
        pipeline.seek_generation(),
        Bytes::from_static(b"audio"),
    ));

    pipeline.clear_pending_packets_for_seek();

    assert!(pipeline.pending_audio_packet_is_empty());
}

fn video_packet(pts: u64, keyframe: PacketKeyframe) -> PendingVideoPacket {
    PendingVideoPacket::new(
        TrackId::new(1),
        Duration::from_millis(pts),
        0,
        Bytes::from_static(b"0123456789"),
        keyframe,
    )
}

/// A pipeline that plays a format whose decoder can go on at a keyframe.
fn pipeline_with_proven_keyframe() -> PlaybackPipeline<TestResources> {
    let mut pipeline = pipeline();
    pipeline.select_video_track(TrackId::new(1), VideoDecodeRequirement::new(VideoCodec::Vp9));
    pipeline.enqueue_pending_video_packet(video_packet(1, PacketKeyframe::Keyframe));
    pipeline.mark_video_decoder_bootstrapped();
    pipeline
}

fn limits(packets: usize, bytes: usize) -> VideoBacklogRecoveryScanLimits {
    VideoBacklogRecoveryScanLimits {
        max_staged_packets: packets,
        max_staged_bytes: bytes,
        rearm_pending_packets: 1,
    }
}

#[test]
fn a_search_starts_only_where_the_decoder_can_go_on() {
    let mut pipeline = pipeline();
    let limits = VideoBacklogRecoveryScanLimits::for_tests();
    assert_eq!(
        pipeline.begin_video_backlog_recovery_scan(limits),
        VideoBacklogRecoveryScanStart::NoSelectedVideo
    );
    pipeline.select_video_track(TrackId::new(1), VideoDecodeRequirement::new(VideoCodec::H264));
    assert_eq!(
        pipeline.begin_video_backlog_recovery_scan(limits),
        VideoBacklogRecoveryScanStart::CodecWithoutNoFlushRecoveryProof {
            codec: VideoCodec::H264
        }
    );
    pipeline.select_video_track(TrackId::new(1), VideoDecodeRequirement::new(VideoCodec::Av1));
    assert_eq!(
        pipeline.begin_video_backlog_recovery_scan(limits),
        VideoBacklogRecoveryScanStart::NoProvenKeyframeObserved
    );
    pipeline.enqueue_pending_video_packet(video_packet(1, PacketKeyframe::Keyframe));
    assert_eq!(
        pipeline.begin_video_backlog_recovery_scan(limits),
        VideoBacklogRecoveryScanStart::DecoderAwaitingKeyframe
    );
    pipeline.mark_video_decoder_bootstrapped();
    assert_eq!(
        pipeline.begin_video_backlog_recovery_scan(limits),
        VideoBacklogRecoveryScanStart::Started
    );
    assert!(pipeline.video_backlog_recovery_scan_allows_demux());
    assert_eq!(
        pipeline.begin_video_backlog_recovery_scan(limits),
        VideoBacklogRecoveryScanStart::AlreadyScanning
    );
}

#[test]
fn a_search_switches_to_the_keyframe_and_gives_up_the_rest() {
    let mut pipeline = pipeline_with_proven_keyframe();
    pipeline.begin_video_backlog_recovery_scan(limits(8, 1_000));
    assert_eq!(
        pipeline.route_pending_video_packet_for_backlog_recovery(video_packet(
            2,
            PacketKeyframe::Unknown
        )),
        VideoBacklogRecoveryRouteOutcome::StagedWhileScanning
    );
    assert_eq!(pipeline.video_backlog_recovery_staged_packet_len(), 1);
    assert_eq!(pipeline.video_backlog_recovery_staged_bytes(), 10);
    assert_eq!(
        pipeline.route_pending_video_packet_for_backlog_recovery(video_packet(
            3,
            PacketKeyframe::Keyframe
        )),
        VideoBacklogRecoveryRouteOutcome::SwitchedAtKeyframe {
            discarded_pending_packets: 1,
            discarded_staged_packets: 1,
            recovery_keyframe_pts: Duration::from_millis(3),
        }
    );
    assert_eq!(pipeline.pending_video_packet_len(), 1);
    assert_eq!(
        pipeline.front_pending_video_packet().map(|packet| packet.pts),
        Some(Duration::from_millis(3))
    );
}

#[test]
fn a_search_that_reaches_its_bound_keeps_every_packet_and_waits() {
    for (bounds, limit) in [
        (limits(2, 1_000), VideoBacklogRecoveryScanLimit::PacketCount),
        (limits(5, 20), VideoBacklogRecoveryScanLimit::ByteCount),
    ] {
        let mut pipeline = pipeline_with_proven_keyframe();
        pipeline.begin_video_backlog_recovery_scan(bounds);
        pipeline.route_pending_video_packet_for_backlog_recovery(video_packet(
            2,
            PacketKeyframe::NotKeyframe,
        ));
        assert_eq!(
            pipeline.route_pending_video_packet_for_backlog_recovery(video_packet(
                3,
                PacketKeyframe::NotKeyframe
            )),
            VideoBacklogRecoveryRouteOutcome::ScanLimitReached {
                limit,
                restored_staged_packets: 2,
                restored_staged_bytes: 20,
                pending_packets_after_restore: 3,
            }
        );
        assert_eq!(
            pipeline.begin_video_backlog_recovery_scan(bounds),
            VideoBacklogRecoveryScanStart::BackoffUntilBacklogDrains
        );
        for pts in 1..=2 {
            assert_eq!(
                pipeline.pop_pending_video_packet_front().map(|packet| packet.pts),
                Some(Duration::from_millis(pts))
            );
        }
        assert_eq!(
            pipeline.begin_video_backlog_recovery_scan(bounds),
            VideoBacklogRecoveryScanStart::Started
        );
    }
}

#[test]
fn the_end_of_the_stream_and_a_normal_rate_end_a_search_without_loss() {
    let mut at_end = pipeline_with_proven_keyframe();
    at_end.begin_video_backlog_recovery_scan(limits(8, 1_000));
    at_end.route_pending_video_packet_for_backlog_recovery(video_packet(
        2,
        PacketKeyframe::NotKeyframe,
    ));
    assert_eq!(
        at_end.finish_video_backlog_recovery_scan_at_eof().restored_staged_packets,
        1
    );
    assert_eq!(at_end.pending_video_packet_len(), 2);

    let mut slower = pipeline_with_proven_keyframe();
    slower.begin_video_backlog_recovery_scan(limits(8, 1_000));
    slower.route_pending_video_packet_for_backlog_recovery(video_packet(
        2,
        PacketKeyframe::NotKeyframe,
    ));
    assert_eq!(
        slower
            .reconcile_video_backlog_recovery_after_rate_change(rate(2.0))
            .restored_staged_packets,
        0
    );
    assert_eq!(
        slower
            .reconcile_video_backlog_recovery_after_rate_change(PlaybackRate::normal())
            .restored_staged_packets,
        1
    );
    assert_eq!(slower.pending_video_packet_len(), 2);
}

#[test]
fn limits_are_brought_into_order() {
    let limits = VideoBacklogRecoveryScanLimits {
        max_staged_packets: 0,
        max_staged_bytes: 0,
        rearm_pending_packets: 9,
    }
    .sanitized();
    assert_eq!(
        (limits.max_staged_packets, limits.max_staged_bytes, limits.rearm_pending_packets),
        (1, 1, 0)
    );
}

#[test]
fn a_shed_backlog_resumes_at_the_next_keyframe() {
    let mut pipeline = pipeline_with_proven_keyframe();
    pipeline.enqueue_pending_video_packet(video_packet(2, PacketKeyframe::NotKeyframe));
    assert_eq!(pipeline.shed_pending_video_backlog_for_audio_catchup(), 2);
    assert!(pipeline.video_admission_should_drop_for_keyframe_resync(PacketKeyframe::NotKeyframe));
    assert!(!pipeline.video_admission_should_drop_for_keyframe_resync(PacketKeyframe::Keyframe));
    assert!(!pipeline.video_admission_should_drop_for_keyframe_resync(PacketKeyframe::NotKeyframe));
}

#[test]
fn a_texture_is_released_once_its_last_lease_is_gone() {
    let mut pipeline = pipeline();
    let texture = FrameResourceHandle(4);
    let generation = pipeline.render_generation();
    assert!(pipeline.try_register_render_lease(generation, texture));
    assert!(pipeline.try_register_render_lease(generation, texture));
    assert_eq!(pipeline.active_render_lease_count(), 1);
    assert!(matches!(
        pipeline.request_video_texture_release(texture),
        VideoTextureReleaseEffect::DeferredUntilRenderLeaseDrop
    ));
    assert!(pipeline.has_deferred_video_texture_release(texture));
    assert_eq!(
        pipeline.release_render_lease_accounting(generation, texture),
        RenderLeaseReleaseEffect::LeaseStillActive
    );
    assert_eq!(
        pipeline.release_render_lease_accounting(generation, texture),
        RenderLeaseReleaseEffect::DeferredTextureReady
    );
    assert_eq!(pipeline.deferred_render_release_count(), 0);
    assert_eq!(
        pipeline.release_render_lease_accounting(generation, texture),
        RenderLeaseReleaseEffect::UnknownLease
    );
    assert!(matches!(
        pipeline.request_video_texture_release(texture),
        VideoTextureReleaseEffect::ReleaseNow
    ));
}

#[test]
fn a_lease_and_its_release_cancel_out() {
    let mut pipeline = pipeline();
    let texture = FrameResourceHandle(4);
    assert!(pipeline.try_register_render_lease(0, texture));
    assert_eq!(
        pipeline.release_render_lease_accounting(0, texture),
        RenderLeaseReleaseEffect::ReleasedWithoutDeferredTexture
    );
    assert_eq!(pipeline.active_render_lease_count(), 0);
    pipeline.remember_rendered_texture_release_provider(0, texture, 12);
    assert!(matches!(
        pipeline.request_video_texture_release(texture),
        VideoTextureReleaseEffect::ReleaseViaRenderProvider(12)
    ));
    pipeline.advance_render_generation();
    assert_eq!(pipeline.render_generation(), 1);
    assert!(!pipeline.try_register_render_lease(0, texture));
}

#[test]
fn a_retired_decoder_stays_as_long_as_its_leases() {
    let mut pipeline = pipeline();
    let texture = FrameResourceHandle(4);
    let decoder = FakeVideoDecoder::new();
    let released = Arc::clone(&decoder.released);
    assert!(pipeline.try_register_render_lease(0, texture));
    assert_eq!(
        pipeline.retain_retired_video_decoder_for_outstanding_leases(0, Some(decoder)),
        RetiredVideoDecoderOutcome::Retained
    );
    assert_eq!(
        pipeline
            .retain_retired_video_decoder_for_outstanding_leases(0, Some(FakeVideoDecoder::new())),
        RetiredVideoDecoderOutcome::DuplicateGeneration
    );
    assert!(pipeline.release_retired_video_frame(0, texture));
    assert_eq!(*released.lock().expect("the decoder is not poisoned"), vec![texture]);
    pipeline.release_render_lease_accounting(0, texture);
    pipeline.release_retired_video_decoder_if_idle(0);
    assert!(!pipeline.release_retired_video_frame(0, texture));
    assert_eq!(
        pipeline
            .retain_retired_video_decoder_for_outstanding_leases(0, Some(FakeVideoDecoder::new())),
        RetiredVideoDecoderOutcome::DroppedIdle
    );
    assert_eq!(
        pipeline.retain_retired_video_decoder_for_outstanding_leases(0, None),
        RetiredVideoDecoderOutcome::NoDecoder
    );
}

#[test]
fn an_absent_decoder_takes_and_gives_nothing() {
    let pipeline = pipeline();
    assert!(!pipeline.has_active_video_decoder());
    assert_eq!(pipeline.video_backend_name(), "Synthetic (test)");
    assert!(!pipeline.can_send_video_decode_packets());
    assert_eq!(
        pipeline.video_decoder_send_backpressure(4),
        Some(VideoDecoderSendBackpressure::AbsentDecoder)
    );
    assert_eq!(pipeline.video_decoder_packet_queue_depth(), None);
    assert_eq!(
        pipeline.video_decoder_activity_status(),
        VideoDecoderActivityStatus::AbsentDecoder
    );
    assert_eq!(
        pipeline.video_decoder_end_of_stream_drain_state(),
        VideoDecoderEndOfStreamDrainState::Idle
    );
    assert_eq!(pipeline.send_video_decode_packet(1), None);
    assert_eq!(pipeline.flush_video_decoder_thread(), Ok(()));
    assert_eq!(pipeline.drain_completed_video_decode_packet_count(), 0);
    assert!(!pipeline.release_frame_to_video_decoder(FrameResourceHandle(1)));
}

#[test]
fn an_installed_decoder_is_asked_and_answers() {
    let mut pipeline = pipeline();
    let mut decoder = FakeVideoDecoder::new();
    decoder.host_upload =
        HostUploadResourceStatus::Available(Some(HostUploadBackpressureReason::NoFreeUploadSlot));
    let released = Arc::clone(&decoder.released);
    decoder
        .frames
        .lock()
        .expect("the decoder is not poisoned")
        .push(decoded_frame_for_tests(Duration::from_millis(7), 7));
    pipeline.set_video_decoder_thread(decoder);
    assert_eq!(pipeline.video_backend_name(), "fake backend");
    assert_eq!(pipeline.video_decoder_packet_queue_depth(), Some(3));
    assert_eq!(pipeline.video_decoder_resource_snapshot(), Some(4));
    assert_eq!(
        pipeline.video_decoder_send_backpressure(4),
        Some(VideoDecoderSendBackpressure::HostUpload(
            HostUploadBackpressureReason::NoFreeUploadSlot
        ))
    );
    assert!(pipeline.video_decoder_activity_status().can_wait_for_activity());
    assert_eq!(
        pipeline.video_decoder_activity_status(),
        VideoDecoderActivityStatus::Available {
            snapshot: VideoDecoderActivitySnapshot::Available {
                captured_epoch: Some(5),
                subscription: "bell",
            },
        }
    );
    assert_eq!(pipeline.video_decoder_resource_provider(), Some(77));
    assert_eq!(pipeline.configure_video_decoder_stream(6), Some(Ok(6)));
    assert_eq!(pipeline.clear_video_decoder_stream(), Some(Ok(0)));
    assert_eq!(
        pipeline.set_video_decoder_preroll_output_floor(Duration::from_secs(1)),
        Some(true)
    );
    assert_eq!(pipeline.clear_video_decoder_preroll_output_floor(2), Some(false));
    assert_eq!(pipeline.begin_video_decoder_end_of_stream_drain(8), Some(8));
    assert_eq!(
        pipeline.video_decoder_end_of_stream_drain_state(),
        VideoDecoderEndOfStreamDrainState::Begun(9)
    );
    assert_eq!(pipeline.flush_video_decoder_thread(), Err("flush failed".to_string()));
    assert_eq!(
        pipeline.try_recv_decoded_video_frame().map(|frame| frame.pts),
        Some(Duration::from_millis(7))
    );
    assert!(pipeline.try_recv_decoded_video_frame().is_none());
    assert_eq!(
        pipeline.try_recv_video_decoder_diagnostic_event(),
        Some("event".to_string())
    );
    assert_eq!(pipeline.try_recv_video_decoder_error(), None);
    assert_eq!(pipeline.send_video_decode_packet(0), Some(Err("the channel is full".to_string())));
    assert_eq!(pipeline.send_video_decode_packet(1), Some(Ok(())));
    assert!(pipeline.release_frame_to_video_decoder(FrameResourceHandle(3)));
    assert_eq!(
        *released.lock().expect("the decoder is not poisoned"),
        vec![FrameResourceHandle(3)]
    );
    assert!(pipeline.replace_video_decoder_thread_handle(FakeVideoDecoder::new()).is_some());
}

#[test]
fn a_full_control_channel_holds_packets_back() {
    let full = DecoderControlChannelPressure { control_channel_len: 4, control_channel_capacity: 4 };
    let reason = VideoDecoderControlBackpressureReason::ControlChannelFull {
        queued_messages: 4,
        capacity: 4,
    };
    assert_eq!(control_backpressure_reason(Some(full)), Some(reason));
    assert_eq!(
        control_backpressure_reason(Some(DecoderControlChannelPressure {
            control_channel_len: 0,
            control_channel_capacity: 0,
        })),
        None
    );
    assert_eq!(
        send_backpressure_reason(HostUploadResourceStatus::Available(None), Some(full)),
        Some(VideoDecoderSendBackpressure::DecoderControl(reason))
    );
    assert_eq!(
        send_backpressure_reason(HostUploadResourceStatus::AbsentResource, Some(full)),
        None
    );
}

#[test]
fn packets_in_flight_are_counted_and_never_fall_below_zero() {
    let mut pipeline = pipeline();
    pipeline.note_video_packet_sent_to_decoder();
    pipeline.note_video_packet_sent_to_decoder();
    pipeline.note_video_packets_completed_by_decoder(1);
    assert_eq!(pipeline.video_decode_in_flight_packets(), 1);
    pipeline.note_video_packets_completed_by_decoder(5);
    assert_eq!(pipeline.video_decode_in_flight_packets(), 0);
}

#[test]
fn stretched_samples_go_to_the_device() {
    let mut pipeline = pipeline();
    let format = AudioTempoPcmFormat { sample_rate: 48_000, channels: 1 };
    assert!(pipeline.process_audio_tempo_samples(&[1.0], format).is_none());
    pipeline.install_audio_tempo_processor(DoublingTempoProcessor {
        pcm_format: format,
        kept_back: Vec::new(),
        primed: 0,
    });
    let output = FixedAudioOutput::new(0.0);
    let written = Arc::clone(&output.written);
    pipeline.install_audio_output_for_tests(output);
    assert_eq!(pipeline.audio_tempo_pcm_format(), Some(format));
    assert_eq!(pipeline.prime_audio_tempo_history(&[5.0, 6.0], format), Some(Ok(2)));

    let segment = pipeline.propose_audio_tempo_segment(rate(2.0));
    assert_eq!(pipeline.set_audio_tempo_segment(segment), Some(Ok(1)));
    pipeline.commit_audio_tempo_segment(segment);
    assert_eq!(pipeline.propose_audio_tempo_segment(rate(2.0)).segment_id, 2);

    let routed = pipeline
        .process_audio_tempo_samples(&[1.0, 2.0], format)
        .expect("there is a processor")
        .expect("the processor does not fail");
    assert_eq!(routed.write_status, AudioOutputRoutingStatus::Written(3));
    assert_eq!(routed.report, 2);
    let rest = pipeline
        .finish_and_clear_audio_tempo_processor()
        .expect("there is a processor")
        .expect("the processor does not fail");
    assert_eq!(rest.write_status, AudioOutputRoutingStatus::Written(1));
    assert!(!pipeline.has_audio_tempo_processor());
    assert_eq!(
        *written.lock().expect("the device is not poisoned"),
        vec![1.0, 1.0, 2.0, 2.0]
    );
}

#[test]
fn a_decoder_that_hides_its_form_fails_only_with_samples() {
    let mut pipeline = pipeline();
    let mut silent = FakeAudioDecoder::with_samples(Vec::new(), 1, 1);
    silent.output_spec = None;
    pipeline.install_audio_decoder(silent);
    assert_eq!(pipeline.decode_audio_packet(&EncodedAudioPacket::without_timing(2, b"x")), Some(Ok(DecodedAudioPacket::Empty)));
    let mut hidden = FakeAudioDecoder::with_samples(vec![0.5], 1, 1);
    hidden.output_spec = None;
    pipeline.install_audio_decoder(hidden);
    assert_eq!(
        pipeline.decode_audio_packet(&EncodedAudioPacket::without_timing(2, b"x")),
        Some(Err(AudioDecodeFailure::MissingOutputSpec))
    );
}

#[test]
fn a_capture_keeps_the_position_while_the_device_is_paused() {
    let mut pipeline = pipeline();
    let output = FixedAudioOutput::new(0.0);
    let clock = output.clock_handle();
    pipeline.install_audio_output_for_tests(output);
    pipeline.install_audio_clock(clock.clone());
    pipeline.reanchor_audio_clock_media_mapping(Duration::from_secs(10), rate(2.0));
    clock.set_now(Duration::from_secs(1));
    let captured = pipeline
        .pause_audio_output_and_capture_clock()
        .expect("there is a device")
        .expect("the device pauses");
    assert_eq!(captured.media_position, Duration::from_secs(12));
    assert_eq!(
        pipeline.media_position_after_audio_output_delay(Duration::from_secs(1)),
        Duration::from_secs(14)
    );
    assert_eq!(
        pipeline.audio_output_delay_until_media_deadline(Duration::from_secs(13)),
        Duration::from_millis(500)
    );
}

#[test]
fn a_reset_of_the_medium_keeps_what_the_renderer_holds() {
    let mut pipeline = pipeline_with_proven_keyframe();
    pipeline.install_opened_media(
        SourceSlotFakeDemuxer::new(Vec::new()),
        None,
        Some("label".to_string()),
        Vec::new(),
    );
    assert!(pipeline.try_register_render_lease(0, FrameResourceHandle(1)));
    pipeline.reset_media_slots(start_of_test());
    assert!(!pipeline.has_demuxer());
    assert_eq!(pipeline.source_label(), None);
    assert_eq!(pipeline.pending_video_packet_len(), 0);
    assert_eq!(pipeline.active_render_lease_count(), 1);
}

#[test]
fn a_decoder_is_given_the_whole_packet() {
    let mut pipeline = pipeline();
    let decoder = FakeAudioDecoder::with_samples(vec![0.5], 48_000, 1);
    let seen = Arc::clone(&decoder.seen);
    pipeline.install_audio_decoder(decoder);
    let time_base = TimeBase { numerator: 1, denominator: 48_000 };
    let timing = AudioPacketTiming {
        pts: Some(TrackTimestamp::new(TrackId::new(9), 960, time_base)),
        dts: None,
        duration_ticks: Some(480),
    };
    let packet = EncodedAudioPacket::new(9, timing, b"encoded");
    assert!(pipeline.decode_audio_packet(&packet).is_some());
    assert_eq!(
        *seen.lock().expect("the decoder is not poisoned"),
        vec![(9, timing, b"encoded".to_vec())]
    );
}

#[test]
fn as_many_channels_at_other_places_start_a_new_history() {
    let mut pipeline = pipeline();
    let front = AudioOutputSpec::new(48_000, AudioChannelLayout::new(2, 0b0011));
    let back = AudioOutputSpec::new(48_000, AudioChannelLayout::new(2, 0b1100));
    assert_eq!(front.channels(), back.channels());
    pipeline.record_passthrough_audio_history(&[1.0, 2.0], front);
    pipeline.record_passthrough_audio_history(&[3.0, 4.0], back);
    assert_eq!(pipeline.passthrough_audio_history_output_spec(), Some(back));
    assert_eq!(pipeline.take_passthrough_audio_history_for_priming(back), vec![3.0, 4.0]);
    pipeline.record_passthrough_audio_history(&[1.0, 2.0], front);
    assert!(pipeline.take_passthrough_audio_history_for_priming(back).is_empty());
}

#[test]
fn a_frame_keeps_what_the_renderer_reads() {
    let mut pipeline = pipeline();
    let mut frame = decoded_frame_for_tests(Duration::from_millis(7), 7);
    frame.metadata = Colours { full_range: false };
    pipeline.enqueue_queued_video_frame(frame);
    assert_eq!(
        pipeline.pop_queued_video_frame_front().map(|frame| frame.metadata),
        Some(Colours { full_range: false })
    );
}

#[test]
fn the_larger_of_buffer_and_tail_is_left_to_be_heard() {
    for (buffer_ms, tail_ms, left_ms) in [
        (24.0, 100, Some(100.0)),
        (240.0, 100, Some(240.0)),
        (f64::NAN, 100, Some(100.0)),
        (f64::INFINITY, 100, Some(100.0)),
        (-5.0, 100, Some(100.0)),
        (f64::INFINITY, 0, None),
        (-5.0, 0, None),
        (0.5, 0, Some(0.5)),
    ] {
        let mut pipeline = pipeline();
        pipeline.select_audio_track(TrackId::new(2));
        let output = FixedAudioOutput::new(buffer_ms);
        output.clock_handle().set_output_timing(Duration::zero(), Duration::from_millis(tail_ms));
        pipeline.install_audio_output_for_tests(output);
        let expected = match left_ms {
            Some(left_ms) => AudioEofDrainState::DrainingOutput {
                buffer_level_ms: f64::to_bits(left_ms),
                playback_requested: false,
            },
            None => AudioEofDrainState::DrainedOutput { playback_requested: false },
        };
        assert_eq!(pipeline.audio_eof_drain_state(), expected);
    }
}

/// What a processor did, by the frames that came out.
#[derive(Debug, Clone, Copy, PartialEq, Eq)]
struct FrameReport {
    produced_frames: u64,
}

struct CompileOnlyTempoProcessor {
    config: AudioTempoProcessorConfig,
}

impl AudioTempoProcessor<f32> for CompileOnlyTempoProcessor {
    type Error = String;
    type Report = FrameReport;

    fn pcm_format(&self) -> AudioTempoPcmFormat {
        self.config.pcm_format
    }

    fn set_segment(&mut self, segment: AudioTempoSegment) -> Result<FrameReport, String> {
        self.config.initial_segment = segment;
        Ok(FrameReport { produced_frames: 0 })
    }

    fn process_decoded_media_into(
        &mut self,
        _samples: &[f32],
        _pcm_format: AudioTempoPcmFormat,
        output: &mut Vec<f32>,
    ) -> Result<FrameReport, String> {
        output.clear();
        Ok(FrameReport { produced_frames: 0 })
    }

    fn prime_decoded_history(
        &mut self,
        _samples: &[f32],
        _pcm_format: AudioTempoPcmFormat,
    ) -> Result<FrameReport, String> {
        Ok(FrameReport { produced_frames: 0 })
    }

    fn reset(&mut self) -> Result<FrameReport, String> {
        Ok(FrameReport { produced_frames: 0 })
    }

    fn finish_stream_into(&mut self, output: &mut Vec<f32>) -> Result<FrameReport, String> {
        output.clear();
        Ok(FrameReport { produced_frames: 0 })
    }
}

type TempoProcessorHandle = Box<dyn AudioTempoProcessor<f32, Error = String, Report = FrameReport>>;

struct CompileOnlyTempoFactory;

impl AudioTempoProcessorFactory for CompileOnlyTempoFactory {
    type Processor = TempoProcessorHandle;
    type Error = String;

    fn create_processor(
        &self,
        config: AudioTempoProcessorConfig,
    ) -> Result<TempoProcessorHandle, String> {
        Ok(Box::new(CompileOnlyTempoProcessor { config }))
    }
}

#[test]
fn audio_tempo_boundary_is_visible_as_neutral_trait_objects() {
    let config = AudioTempoProcessorConfig {
        pcm_format: AudioTempoPcmFormat { sample_rate: 48_000, channels: 2 },
        initial_segment: AudioTempoSegment {
            segment_id: 1,
            playback_rate: PlaybackRate::normal(),
        },
    };
    let mut processor: TempoProcessorHandle = Box::new(CompileOnlyTempoProcessor { config });
    let factory: Arc<
        dyn AudioTempoProcessorFactory<Processor = TempoProcessorHandle, Error = String>,
    > = Arc::new(CompileOnlyTempoFactory);

    let reset_report = processor.reset().expect("compile-only processor reset should succeed");
    let created_processor = factory
        .create_processor(config)
        .expect("compile-only factory should create neutral trait object");

    assert_eq!(reset_report.produced_frames, 0);
    assert_eq!(created_processor.pcm_format(), config.pcm_format);
}
