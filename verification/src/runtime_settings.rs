//! Settings that change while the player runs.
use crate::text::concat;
use crate::time::Duration;
use vstd::prelude::*;

verus! {

/// Two to the number of mantissa bits in a double-precision number.
pub const DOUBLE_MANTISSA_RANGE: u64 = 0x10_0000_0000_0000;

/// The bit pattern of the sign of a double-precision number.
pub const DOUBLE_SIGN_BIT: u64 = 0x8000_0000_0000_0000;

/// The bit pattern of the sign of a single-precision number.
pub const SINGLE_SIGN_BIT: u32 = 0x8000_0000;

/// The bit pattern of one in single precision.
pub const SINGLE_ONE_BITS: u32 = 0x3f80_0000;

/// Whether a double-precision bit pattern is a finite number that is not negative.
pub open spec fn is_finite_non_negative(bits: u64) -> bool {
    &&& (bits as int / DOUBLE_MANTISSA_RANGE as int) % 2048 != 2047
    &&& bits <= DOUBLE_SIGN_BIT
}

/// Whether a single-precision bit pattern is a number from zero to one.
pub open spec fn is_volume(bits: u32) -> bool {
    bits <= SINGLE_ONE_BITS || bits == SINGLE_SIGN_BIT
}

/// Identity of a setting.
#[derive(Debug, Clone, Copy, PartialEq, Eq, Structural, Hash)]
pub enum PlayerRuntimeSettingId {
    /// The setting `player.runtime.tick_config`.
    PlayerTickConfig,
    /// The setting `player.start_paused`.
    PlayerStartPaused,
    /// The setting `player.resume_last_position`.
    PlayerResumeLastPosition,
    /// The setting `player.seek.paused_commit_behavior`.
    PlayerSeekPausedCommitBehavior,
    /// The setting `player.seek.hotkey_small_step_secs`.
    PlayerSeekHotkeySmallStepSecs,
    /// The setting `player.seek.hotkey_large_step_secs`.
    PlayerSeekHotkeyLargeStepSecs,
    /// The setting `audio.volume`.
    AudioDefaultVolume,
    /// The setting `audio.output_device`.
    AudioOutputDevice,
    /// The setting `player.runtime.decoder_thread_config`.
    PlayerDecoderThreadConfig,
    /// The setting `player.preferred_video_codec_order`.
    PlayerPreferredVideoCodecOrder,
    /// The setting `player.demux.max_consecutive_corrupted_packets`.
    PlayerDemuxMaxConsecutiveCorruptedPackets,
    /// The setting `player.seek.commit_timeout_ms`.
    PlayerSeekCommitTimeoutMs,
    /// The setting `player.seek.resume_audio_min_buffer_ms`.
    PlayerSeekResumeAudioMinBufferMs,
    /// The setting `player.seek.resume_audio_gate_timeout_ms`.
    PlayerSeekResumeAudioGateTimeoutMs,
    /// The setting `player.seek.resume_video_min_ready_frames`.
    PlayerSeekResumeVideoMinReadyFrames,
    /// The setting `player.seek.fast_preroll_budget_ms`.
    PlayerSeekFastPrerollBudgetMs,
    /// The setting `player.seek.fast_preroll_video_packet_burst`.
    PlayerSeekFastPrerollVideoPacketBurst,
    /// The setting `audio.buffer_target_ms`.
    AudioBufferTargetMs,
    /// The setting `video.max_decode_ahead_ms`.
    VideoMaxDecodeAheadMs,
    /// The setting `video.present_queue_frames`.
    VideoPresentQueueFrames,
    /// The setting `video.decoder_packet_channel_frames`.
    VideoDecoderPacketChannelFrames,
    /// The setting `video.decoder_frame_channel_frames`.
    VideoDecoderFrameChannelFrames,
    /// The setting `video.decoder_ready_queue_frames`.
    VideoDecoderReadyQueueFrames,
    /// The setting `video.decoder_surface_pool_frames`.
    VideoDecoderSurfacePoolFrames,
    /// The setting `video.sw_decoder_surface_pool_frames`.
    VideoSoftwareDecoderSurfacePoolFrames,
    /// The setting `video.sw_decode_threads`.
    VideoSoftwareDecodeThreads,
    /// The setting `video.zero_copy_surface_pool_slots`.
    VideoZeroCopySurfacePoolSlots,
    /// The setting `video.scheduler.demux_packets_per_tick`.
    VideoSchedulerDemuxPacketsPerTick,
    /// The setting `video.scheduler.video_packets_per_tick`.
    VideoSchedulerVideoPacketsPerTick,
    /// The setting `video.scheduler.decoded_frames_per_tick`.
    VideoSchedulerDecodedFramesPerTick,
    /// The setting `video.scheduler.catch_up_budget_ms`.
    VideoSchedulerCatchUpBudgetMs,
    /// The setting `video.scheduler.present_queue_min_frames`.
    VideoSchedulerPresentQueueMinFrames,
    /// The setting `video.scheduler.present_queue_target_frames`.
    VideoSchedulerPresentQueueTargetFrames,
    /// The setting `video.scheduler.decode_ahead_target_ms`.
    VideoSchedulerDecodeAheadTargetMs,
    /// The setting `video.scheduler.surface_free_slots_min`.
    VideoSchedulerSurfaceFreeSlotsMin,
    /// The setting `video.scheduler.surface_free_slots_target`.
    VideoSchedulerSurfaceFreeSlotsTarget,
    /// The setting `video.preferred_backend`.
    VideoPreferredBackend,
    /// The setting `frame_server.live_scrub_enabled`.
    FrameServerLiveScrubEnabled,
    /// The setting `frame_server.live_scrub_decode_mode`.
    FrameServerLiveScrubDecodeMode,
    /// The setting `frame_server.live_scrub_max_hz`.
    FrameServerLiveScrubMaxHz,
}

impl PlayerRuntimeSettingId {
    /// The stable path of the setting.
    pub open spec fn path(self) -> Seq<char> {
        match self {
            PlayerRuntimeSettingId::PlayerTickConfig => "player.runtime.tick_config"@,
            PlayerRuntimeSettingId::PlayerStartPaused => "player.start_paused"@,
            PlayerRuntimeSettingId::PlayerResumeLastPosition => "player.resume_last_position"@,
            PlayerRuntimeSettingId::PlayerSeekPausedCommitBehavior => "player.seek.paused_commit_behavior"@,
            PlayerRuntimeSettingId::PlayerSeekHotkeySmallStepSecs => "player.seek.hotkey_small_step_secs"@,
            PlayerRuntimeSettingId::PlayerSeekHotkeyLargeStepSecs => "player.seek.hotkey_large_step_secs"@,
            PlayerRuntimeSettingId::AudioDefaultVolume => "audio.volume"@,
            PlayerRuntimeSettingId::AudioOutputDevice => "audio.output_device"@,
            PlayerRuntimeSettingId::PlayerDecoderThreadConfig => "player.runtime.decoder_thread_config"@,
            PlayerRuntimeSettingId::PlayerPreferredVideoCodecOrder => "player.preferred_video_codec_order"@,
            PlayerRuntimeSettingId::PlayerDemuxMaxConsecutiveCorruptedPackets => "player.demux.max_consecutive_corrupted_packets"@,
            PlayerRuntimeSettingId::PlayerSeekCommitTimeoutMs => "player.seek.commit_timeout_ms"@,
            PlayerRuntimeSettingId::PlayerSeekResumeAudioMinBufferMs => "player.seek.resume_audio_min_buffer_ms"@,
            PlayerRuntimeSettingId::PlayerSeekResumeAudioGateTimeoutMs => "player.seek.resume_audio_gate_timeout_ms"@,
            PlayerRuntimeSettingId::PlayerSeekResumeVideoMinReadyFrames => "player.seek.resume_video_min_ready_frames"@,
            PlayerRuntimeSettingId::PlayerSeekFastPrerollBudgetMs => "player.seek.fast_preroll_budget_ms"@,
            PlayerRuntimeSettingId::PlayerSeekFastPrerollVideoPacketBurst => "player.seek.fast_preroll_video_packet_burst"@,
            PlayerRuntimeSettingId::AudioBufferTargetMs => "audio.buffer_target_ms"@,
            PlayerRuntimeSettingId::VideoMaxDecodeAheadMs => "video.max_decode_ahead_ms"@,
            PlayerRuntimeSettingId::VideoPresentQueueFrames => "video.present_queue_frames"@,
            PlayerRuntimeSettingId::VideoDecoderPacketChannelFrames => "video.decoder_packet_channel_frames"@,
            PlayerRuntimeSettingId::VideoDecoderFrameChannelFrames => "video.decoder_frame_channel_frames"@,
            PlayerRuntimeSettingId::VideoDecoderReadyQueueFrames => "video.decoder_ready_queue_frames"@,
            PlayerRuntimeSettingId::VideoDecoderSurfacePoolFrames => "video.decoder_surface_pool_frames"@,
            PlayerRuntimeSettingId::VideoSoftwareDecoderSurfacePoolFrames => "video.sw_decoder_surface_pool_frames"@,
            PlayerRuntimeSettingId::VideoSoftwareDecodeThreads => "video.sw_decode_threads"@,
            PlayerRuntimeSettingId::VideoZeroCopySurfacePoolSlots => "video.zero_copy_surface_pool_slots"@,
            PlayerRuntimeSettingId::VideoSchedulerDemuxPacketsPerTick => "video.scheduler.demux_packets_per_tick"@,
            PlayerRuntimeSettingId::VideoSchedulerVideoPacketsPerTick => "video.scheduler.video_packets_per_tick"@,
            PlayerRuntimeSettingId::VideoSchedulerDecodedFramesPerTick => "video.scheduler.decoded_frames_per_tick"@,
            PlayerRuntimeSettingId::VideoSchedulerCatchUpBudgetMs => "video.scheduler.catch_up_budget_ms"@,
            PlayerRuntimeSettingId::VideoSchedulerPresentQueueMinFrames => "video.scheduler.present_queue_min_frames"@,
            PlayerRuntimeSettingId::VideoSchedulerPresentQueueTargetFrames => "video.scheduler.present_queue_target_frames"@,
            PlayerRuntimeSettingId::VideoSchedulerDecodeAheadTargetMs => "video.scheduler.decode_ahead_target_ms"@,
            PlayerRuntimeSettingId::VideoSchedulerSurfaceFreeSlotsMin => "video.scheduler.surface_free_slots_min"@,
            PlayerRuntimeSettingId::VideoSchedulerSurfaceFreeSlotsTarget => "video.scheduler.surface_free_slots_target"@,
            PlayerRuntimeSettingId::VideoPreferredBackend => "video.preferred_backend"@,
            PlayerRuntimeSettingId::FrameServerLiveScrubEnabled => "frame_server.live_scrub_enabled"@,
            PlayerRuntimeSettingId::FrameServerLiveScrubDecodeMode => "frame_server.live_scrub_decode_mode"@,
            PlayerRuntimeSettingId::FrameServerLiveScrubMaxHz => "frame_server.live_scrub_max_hz"@,
        }
    }

    /// The stable path of the setting.
    pub fn as_str(self) -> (r: &'static str)
        ensures
            r@ == self.path(),
    {
        match self {
            PlayerRuntimeSettingId::PlayerTickConfig => "player.runtime.tick_config",
            PlayerRuntimeSettingId::PlayerStartPaused => "player.start_paused",
            PlayerRuntimeSettingId::PlayerResumeLastPosition => "player.resume_last_position",
            PlayerRuntimeSettingId::PlayerSeekPausedCommitBehavior => "player.seek.paused_commit_behavior",
            PlayerRuntimeSettingId::PlayerSeekHotkeySmallStepSecs => "player.seek.hotkey_small_step_secs",
            PlayerRuntimeSettingId::PlayerSeekHotkeyLargeStepSecs => "player.seek.hotkey_large_step_secs",
            PlayerRuntimeSettingId::AudioDefaultVolume => "audio.volume",
            PlayerRuntimeSettingId::AudioOutputDevice => "audio.output_device",
            PlayerRuntimeSettingId::PlayerDecoderThreadConfig => "player.runtime.decoder_thread_config",
            PlayerRuntimeSettingId::PlayerPreferredVideoCodecOrder => "player.preferred_video_codec_order",
            PlayerRuntimeSettingId::PlayerDemuxMaxConsecutiveCorruptedPackets => "player.demux.max_consecutive_corrupted_packets",
            PlayerRuntimeSettingId::PlayerSeekCommitTimeoutMs => "player.seek.commit_timeout_ms",
            PlayerRuntimeSettingId::PlayerSeekResumeAudioMinBufferMs => "player.seek.resume_audio_min_buffer_ms",
            PlayerRuntimeSettingId::PlayerSeekResumeAudioGateTimeoutMs => "player.seek.resume_audio_gate_timeout_ms",
            PlayerRuntimeSettingId::PlayerSeekResumeVideoMinReadyFrames => "player.seek.resume_video_min_ready_frames",
            PlayerRuntimeSettingId::PlayerSeekFastPrerollBudgetMs => "player.seek.fast_preroll_budget_ms",
            PlayerRuntimeSettingId::PlayerSeekFastPrerollVideoPacketBurst => "player.seek.fast_preroll_video_packet_burst",
            PlayerRuntimeSettingId::AudioBufferTargetMs => "audio.buffer_target_ms",
            PlayerRuntimeSettingId::VideoMaxDecodeAheadMs => "video.max_decode_ahead_ms",
            PlayerRuntimeSettingId::VideoPresentQueueFrames => "video.present_queue_frames",
            PlayerRuntimeSettingId::VideoDecoderPacketChannelFrames => "video.decoder_packet_channel_frames",
            PlayerRuntimeSettingId::VideoDecoderFrameChannelFrames => "video.decoder_frame_channel_frames",
            PlayerRuntimeSettingId::VideoDecoderReadyQueueFrames => "video.decoder_ready_queue_frames",
            PlayerRuntimeSettingId::VideoDecoderSurfacePoolFrames => "video.decoder_surface_pool_frames",
            PlayerRuntimeSettingId::VideoSoftwareDecoderSurfacePoolFrames => "video.sw_decoder_surface_pool_frames",
            PlayerRuntimeSettingId::VideoSoftwareDecodeThreads => "video.sw_decode_threads",
            PlayerRuntimeSettingId::VideoZeroCopySurfacePoolSlots => "video.zero_copy_surface_pool_slots",
            PlayerRuntimeSettingId::VideoSchedulerDemuxPacketsPerTick => "video.scheduler.demux_packets_per_tick",
            PlayerRuntimeSettingId::VideoSchedulerVideoPacketsPerTick => "video.scheduler.video_packets_per_tick",
            PlayerRuntimeSettingId::VideoSchedulerDecodedFramesPerTick => "video.scheduler.decoded_frames_per_tick",
            PlayerRuntimeSettingId::VideoSchedulerCatchUpBudgetMs => "video.scheduler.catch_up_budget_ms",
            PlayerRuntimeSettingId::VideoSchedulerPresentQueueMinFrames => "video.scheduler.present_queue_min_frames",
            PlayerRuntimeSettingId::VideoSchedulerPresentQueueTargetFrames => "video.scheduler.present_queue_target_frames",
            PlayerRuntimeSettingId::VideoSchedulerDecodeAheadTargetMs => "video.scheduler.decode_ahead_target_ms",
            PlayerRuntimeSettingId::VideoSchedulerSurfaceFreeSlotsMin => "video.scheduler.surface_free_slots_min",
            PlayerRuntimeSettingId::VideoSchedulerSurfaceFreeSlotsTarget => "video.scheduler.surface_free_slots_target",
            PlayerRuntimeSettingId::VideoPreferredBackend => "video.preferred_backend",
            PlayerRuntimeSettingId::FrameServerLiveScrubEnabled => "frame_server.live_scrub_enabled",
            PlayerRuntimeSettingId::FrameServerLiveScrubDecodeMode => "frame_server.live_scrub_decode_mode",
            PlayerRuntimeSettingId::FrameServerLiveScrubMaxHz => "frame_server.live_scrub_max_hz",
        }
    }
}

/// Limits of a playback tick. Fractional limits are held by their double-precision bit pattern.
#[derive(Debug, Clone, Copy, PartialEq, Eq, Structural)]
pub struct PlayerTickConfig {
    /// Packets read per tick.
    pub max_demux_packets_per_tick: usize,
    /// Largest presentation queue.
    pub max_video_present_queue: usize,
    /// Smallest presentation queue.
    pub min_video_present_queue: usize,
    /// Presentation queue to aim at.
    pub target_video_present_queue: usize,
    /// Smallest number of free texture slots.
    pub min_texture_slots_available_for_decode: usize,
    /// Free texture slots to aim at.
    pub target_texture_slots_available_for_decode: usize,
    /// Largest queue of video packets.
    pub max_pending_video_packets: usize,
    /// Frames in the decoder's ready queue.
    pub decoder_ready_queue_frames: usize,
    /// Video packets sent per tick.
    pub max_video_packets_sent_per_tick: usize,
    /// Decoded frames taken per tick.
    pub max_decoded_video_frames_drained_per_tick: usize,
    /// Decoded time to aim at.
    pub target_video_decode_ahead: Duration,
    /// Largest decoded time.
    pub max_video_decode_ahead: Duration,
    /// Time for catching up.
    pub adaptive_catch_up_time_budget: Duration,
    /// Time for decoding up to a seek target.
    pub seek_fast_preroll_time_budget: Duration,
    /// Packets sent at once up to a seek target.
    pub seek_fast_preroll_video_packet_burst: usize,
    /// Bit pattern of the upper audio buffer mark in milliseconds.
    pub audio_buffer_high_water_mark_ms: u64,
    /// Bit pattern of the lower audio buffer mark in milliseconds.
    pub audio_demux_low_water_mark_ms: u64,
    /// Bit pattern of the audio buffer before playback in milliseconds.
    pub audio_preroll_target_ms: u64,
    /// Longest seek.
    pub seek_commit_timeout: Duration,
    /// Bit pattern of the audio buffer after a seek in milliseconds.
    pub seek_resume_audio_min_buffer_ms: u64,
    /// Longest wait for audio after a seek.
    pub seek_resume_audio_gate_timeout: Duration,
    /// Frames needed after a seek.
    pub seek_resume_video_min_ready_frames: usize,
    /// Bit pattern of the presentation lead in frames.
    pub video_present_lead_frames: u64,
    /// Bit pattern of the presentation window in frames.
    pub video_present_window_frames: u64,
    /// Bit pattern of the grace for late frames in frames.
    pub video_late_drop_grace_frames: u64,
}

/// The settings that led to an update, or a default where none is named.
pub open spec fn settings_or(
    affected_settings: Seq<PlayerRuntimeSettingId>,
    default_setting: PlayerRuntimeSettingId,
) -> Seq<PlayerRuntimeSettingId> {
    if affected_settings.len() == 0 {
        seq![default_setting]
    } else {
        affected_settings
    }
}

/// The settings that led to an update, or a default where none is named.
fn collect_or_default(
    affected_settings: Vec<PlayerRuntimeSettingId>,
    default_setting: PlayerRuntimeSettingId,
) -> (r: Vec<PlayerRuntimeSettingId>)
    ensures
        r@ == settings_or(affected_settings@, default_setting),
{
    if affected_settings.is_empty() {
        vec![default_setting]
    } else {
        affected_settings
    }
}

/// Which backends may be used.
#[derive(Debug, Clone, Copy, PartialEq, Eq, Structural)]
pub enum PlayerRuntimeVideoBackendPreference {
    /// The best one.
    Auto,
    /// Hardware only.
    Hardware,
    /// Software only.
    Software,
}

/// Why a backend is installed.
#[derive(Debug, Clone, Copy, PartialEq, Eq, Structural)]
pub enum PlayerVideoBackendInstallIntent {
    /// The stream needs it.
    PipelineDemand,
    /// A setting changed.
    SettingsReconfigure,
}

/// Change of the tick limits.
#[derive(Debug, Clone, PartialEq, Eq)]
pub struct PlayerRuntimeTickConfigUpdate {
    /// The new tick limits.
    pub tick_config: PlayerTickConfig,
    /// The settings that led to the change.
    pub affected_settings: Vec<PlayerRuntimeSettingId>,
}

impl PlayerRuntimeTickConfigUpdate {
    /// A change with the settings that led to it.
    pub fn new(tick_config: PlayerTickConfig, affected_settings: Vec<PlayerRuntimeSettingId>) -> (r: Self)
        ensures
            r.tick_config == tick_config,
            r.affected_settings@ == settings_or(
                affected_settings@,
                PlayerRuntimeSettingId::PlayerTickConfig,
            ),
    {
        PlayerRuntimeTickConfigUpdate {
            tick_config,
            affected_settings: collect_or_default(
                affected_settings,
                PlayerRuntimeSettingId::PlayerTickConfig,
            ),
        }
    }
}

/// Change of the volume for new media, by its single-precision bit pattern.
#[derive(Debug, Clone, PartialEq, Eq)]
pub struct PlayerRuntimeDefaultVolumeUpdate {
    /// The new volume.
    pub default_volume: u32,
    /// The settings that led to the change.
    pub affected_settings: Vec<PlayerRuntimeSettingId>,
}

impl PlayerRuntimeDefaultVolumeUpdate {
    /// A change with the settings that led to it.
    pub fn new(default_volume: u32, affected_settings: Vec<PlayerRuntimeSettingId>) -> (r: Self)
        ensures
            r.default_volume == default_volume,
            r.affected_settings@ == settings_or(
                affected_settings@,
                PlayerRuntimeSettingId::AudioDefaultVolume,
            ),
    {
        PlayerRuntimeDefaultVolumeUpdate {
            default_volume,
            affected_settings: collect_or_default(
                affected_settings,
                PlayerRuntimeSettingId::AudioDefaultVolume,
            ),
        }
    }
}

/// Change of the decoder thread.
#[derive(Debug, Clone, PartialEq, Eq)]
pub struct PlayerRuntimeDecoderThreadConfigUpdate<D> {
    /// The new decoder settings.
    pub decoder_thread_config: D,
    /// The settings that led to the change.
    pub affected_settings: Vec<PlayerRuntimeSettingId>,
}

impl<D> PlayerRuntimeDecoderThreadConfigUpdate<D> {
    /// A change with the settings that led to it.
    pub fn new(decoder_thread_config: D, affected_settings: Vec<PlayerRuntimeSettingId>) -> (r: Self)
        ensures
            r.decoder_thread_config == decoder_thread_config,
            r.affected_settings@ == settings_or(
                affected_settings@,
                PlayerRuntimeSettingId::PlayerDecoderThreadConfig,
            ),
    {
        PlayerRuntimeDecoderThreadConfigUpdate {
            decoder_thread_config,
            affected_settings: collect_or_default(
                affected_settings,
                PlayerRuntimeSettingId::PlayerDecoderThreadConfig,
            ),
        }
    }
}

/// Change of the preferred backend.
#[derive(Debug, Clone, PartialEq, Eq)]
pub struct PlayerRuntimeVideoBackendUpdate {
    /// The new preference.
    pub preference: PlayerRuntimeVideoBackendPreference,
    /// The settings that led to the change.
    pub affected_settings: Vec<PlayerRuntimeSettingId>,
}

impl PlayerRuntimeVideoBackendUpdate {
    /// A change with the settings that led to it.
    pub fn new(preference: PlayerRuntimeVideoBackendPreference, affected_settings: Vec<PlayerRuntimeSettingId>) -> (r: Self)
        ensures
            r.preference == preference,
            r.affected_settings@ == settings_or(
                affected_settings@,
                PlayerRuntimeSettingId::VideoPreferredBackend,
            ),
    {
        PlayerRuntimeVideoBackendUpdate {
            preference,
            affected_settings: collect_or_default(
                affected_settings,
                PlayerRuntimeSettingId::VideoPreferredBackend,
            ),
        }
    }
}

/// Change of the frame server.
#[derive(Debug, Clone, PartialEq, Eq)]
pub struct PlayerRuntimeFrameServerPolicyUpdate<C> {
    /// The new frame server settings.
    pub frame_server_config: C,
    /// The settings that led to the change.
    pub affected_settings: Vec<PlayerRuntimeSettingId>,
}

impl<C> PlayerRuntimeFrameServerPolicyUpdate<C> {
    /// A change with the settings that led to it.
    pub fn new(frame_server_config: C, affected_settings: Vec<PlayerRuntimeSettingId>) -> (r: Self)
        ensures
            r.frame_server_config == frame_server_config,
            r.affected_settings@ == settings_or(
                affected_settings@,
                PlayerRuntimeSettingId::FrameServerLiveScrubMaxHz,
            ),
    {
        PlayerRuntimeFrameServerPolicyUpdate {
            frame_server_config,
            affected_settings: collect_or_default(
                affected_settings,
                PlayerRuntimeSettingId::FrameServerLiveScrubMaxHz,
            ),
        }
    }
}

/// Intent to make the audio output anew.
#[derive(Debug, Clone, PartialEq, Eq)]
pub struct PlayerRuntimeAudioOutputRecreateUpdate {
    /// The settings that led to it.
    pub affected_settings: Vec<PlayerRuntimeSettingId>,
}

impl PlayerRuntimeAudioOutputRecreateUpdate {
    /// An intent with the settings that led to it.
    pub fn new(affected_settings: Vec<PlayerRuntimeSettingId>) -> (r: Self)
        ensures
            r.affected_settings == affected_settings,
    {
        PlayerRuntimeAudioOutputRecreateUpdate { affected_settings }
    }
}

/// A change of settings. `D` are the settings of the decoder thread, `C` those of the frame
/// server.
#[derive(Debug, Clone, PartialEq, Eq)]
pub struct PlayerRuntimeSettingsUpdate<D, C> {
    /// Tick limits.
    pub tick_config: Option<PlayerRuntimeTickConfigUpdate>,
    /// Volume for new media.
    pub default_volume: Option<PlayerRuntimeDefaultVolumeUpdate>,
    /// Audio output.
    pub audio_output_recreate: Option<PlayerRuntimeAudioOutputRecreateUpdate>,
    /// Decoder thread.
    pub decoder_thread_config: Option<PlayerRuntimeDecoderThreadConfigUpdate<D>>,
    /// Preferred backend.
    pub video_backend: Option<PlayerRuntimeVideoBackendUpdate>,
    /// Frame server.
    pub frame_server_policy: Option<PlayerRuntimeFrameServerPolicyUpdate<C>>,
}

/// The first list followed by those of the second that are not there yet.
pub open spec fn extended_unique(
    known: Seq<PlayerRuntimeSettingId>,
    more: Seq<PlayerRuntimeSettingId>,
) -> Seq<PlayerRuntimeSettingId>
    decreases more.len(),
{
    if more.len() == 0 {
        known
    } else {
        let known = extended_unique(known, more.drop_last());
        if known.contains(more.last()) {
            known
        } else {
            known.push(more.last())
        }
    }
}

/// Whether a setting is in a list.
fn contains_setting(
    settings: &Vec<PlayerRuntimeSettingId>,
    setting_id: PlayerRuntimeSettingId,
) -> (r: bool)
    ensures
        r == settings@.contains(setting_id),
{
    let mut index: usize = 0;
    while index < settings.len()
        invariant
            index <= settings@.len(),
            forall|i: int| 0 <= i < index ==> settings@[i] != setting_id,
        decreases settings@.len() - index,
    {
        if settings[index] == setting_id {
            return true;
        }
        index = index + 1;
    }
    false
}

/// Appends the settings of the second list that are not in the first yet.
fn extend_unique(
    known: &mut Vec<PlayerRuntimeSettingId>,
    more: &Vec<PlayerRuntimeSettingId>,
)
    ensures
        final(known)@ == extended_unique(old(known)@, more@),
{
    let ghost before = known@;
    let mut index: usize = 0;
    proof {
        assert(more@.take(0) =~= Seq::empty());
    }
    while index < more.len()
        invariant
            index <= more@.len(),
            known@ == extended_unique(before, more@.take(index as int)),
        decreases more@.len() - index,
    {
        let setting_id = more[index];
        proof {
            let prefix = more@.take(index + 1);
            assert(prefix.drop_last() =~= more@.take(index as int));
            assert(prefix.last() == setting_id);
        }
        if !contains_setting(known, setting_id) {
            known.push(setting_id);
        }
        index = index + 1;
    }
    proof {
        assert(more@.take(index as int) =~= more@);
    }
}

impl<D, C> Default for PlayerRuntimeSettingsUpdate<D, C> {
    fn default() -> (r: Self)
        ensures
            r == (PlayerRuntimeSettingsUpdate::<D, C> {
                tick_config: None,
                default_volume: None,
                audio_output_recreate: None,
                decoder_thread_config: None,
                video_backend: None,
                frame_server_policy: None,
            }),
    {
        Self::empty()
    }
}

impl<D, C> PlayerRuntimeSettingsUpdate<D, C> {
    /// No change.
    pub fn empty() -> (r: Self)
        ensures
            r == (PlayerRuntimeSettingsUpdate::<D, C> {
                tick_config: None,
                default_volume: None,
                audio_output_recreate: None,
                decoder_thread_config: None,
                video_backend: None,
                frame_server_policy: None,
            }),
    {
        PlayerRuntimeSettingsUpdate {
            tick_config: None,
            default_volume: None,
            audio_output_recreate: None,
            decoder_thread_config: None,
            video_backend: None,
            frame_server_policy: None,
        }
    }

    /// The change together with one of the tick limits.
    pub fn with_tick_config(self, tick_config: PlayerTickConfig, affected_settings: Vec<PlayerRuntimeSettingId>) -> (r: Self)
        ensures
            r.tick_config is Some,
            r.tick_config->0.tick_config == tick_config,
            r.tick_config->0.affected_settings@ == settings_or(
                affected_settings@,
                PlayerRuntimeSettingId::PlayerTickConfig,
            ),
            r == (PlayerRuntimeSettingsUpdate { tick_config: r.tick_config, ..self }),
    {
        let mut changed = self;
        changed.tick_config = Some(PlayerRuntimeTickConfigUpdate::new(tick_config, affected_settings));
        changed
    }

    /// The change together with one of the volume.
    pub fn with_default_volume(self, default_volume: u32, affected_settings: Vec<PlayerRuntimeSettingId>) -> (r: Self)
        ensures
            r.default_volume is Some,
            r.default_volume->0.default_volume == default_volume,
            r.default_volume->0.affected_settings@ == settings_or(
                affected_settings@,
                PlayerRuntimeSettingId::AudioDefaultVolume,
            ),
            r == (PlayerRuntimeSettingsUpdate { default_volume: r.default_volume, ..self }),
    {
        let mut changed = self;
        changed.default_volume = Some(PlayerRuntimeDefaultVolumeUpdate::new(default_volume, affected_settings));
        changed
    }

    /// The change together with one of the decoder settings.
    pub fn with_decoder_thread_config(self, decoder_thread_config: D, affected_settings: Vec<PlayerRuntimeSettingId>) -> (r: Self)
        ensures
            r.decoder_thread_config is Some,
            r.decoder_thread_config->0.decoder_thread_config == decoder_thread_config,
            r.decoder_thread_config->0.affected_settings@ == settings_or(
                affected_settings@,
                PlayerRuntimeSettingId::PlayerDecoderThreadConfig,
            ),
            r == (PlayerRuntimeSettingsUpdate { decoder_thread_config: r.decoder_thread_config, ..self }),
    {
        let mut changed = self;
        changed.decoder_thread_config = Some(PlayerRuntimeDecoderThreadConfigUpdate::new(decoder_thread_config, affected_settings));
        changed
    }

    /// The change together with one of the preference.
    pub fn with_video_backend(self, preference: PlayerRuntimeVideoBackendPreference, affected_settings: Vec<PlayerRuntimeSettingId>) -> (r: Self)
        ensures
            r.video_backend is Some,
            r.video_backend->0.preference == preference,
            r.video_backend->0.affected_settings@ == settings_or(
                affected_settings@,
                PlayerRuntimeSettingId::VideoPreferredBackend,
            ),
            r == (PlayerRuntimeSettingsUpdate { video_backend: r.video_backend, ..self }),
    {
        let mut changed = self;
        changed.video_backend = Some(PlayerRuntimeVideoBackendUpdate::new(preference, affected_settings));
        changed
    }

    /// The change together with one of the frame server settings.
    pub fn with_frame_server_policy(self, frame_server_config: C, affected_settings: Vec<PlayerRuntimeSettingId>) -> (r: Self)
        ensures
            r.frame_server_policy is Some,
            r.frame_server_policy->0.frame_server_config == frame_server_config,
            r.frame_server_policy->0.affected_settings@ == settings_or(
                affected_settings@,
                PlayerRuntimeSettingId::FrameServerLiveScrubMaxHz,
            ),
            r == (PlayerRuntimeSettingsUpdate { frame_server_policy: r.frame_server_policy, ..self }),
    {
        let mut changed = self;
        changed.frame_server_policy = Some(PlayerRuntimeFrameServerPolicyUpdate::new(frame_server_config, affected_settings));
        changed
    }

    /// The change together with a new audio output.
    pub fn with_audio_output_recreate(self, affected_settings: Vec<PlayerRuntimeSettingId>) -> (r:
        Self)
        ensures
            r == (PlayerRuntimeSettingsUpdate {
                audio_output_recreate: Some(
                    PlayerRuntimeAudioOutputRecreateUpdate { affected_settings },
                ),
                ..self
            }),
    {
        let mut changed = self;
        changed.audio_output_recreate = Some(
            PlayerRuntimeAudioOutputRecreateUpdate::new(affected_settings),
        );
        changed
    }

    /// Whether nothing changes.
    pub fn is_empty(&self) -> (r: bool)
        ensures
            r == {
                &&& self.tick_config is None
                &&& self.default_volume is None
                &&& self.audio_output_recreate is None
                &&& self.decoder_thread_config is None
                &&& self.video_backend is None
                &&& self.frame_server_policy is None
            },
    {
        self.tick_config.is_none()
            && self.default_volume.is_none()
            && self.audio_output_recreate.is_none()
            && self.decoder_thread_config.is_none()
            && self.video_backend.is_none()
            && self.frame_server_policy.is_none()
    }

    /// The settings of one group.
    pub open spec fn tick_config_settings(self) -> Seq<PlayerRuntimeSettingId> {
        match self.tick_config {
            Some(update) => update.affected_settings@,
            None => Seq::empty(),
        }
    }

    /// The settings of one group.
    pub open spec fn default_volume_settings(self) -> Seq<PlayerRuntimeSettingId> {
        match self.default_volume {
            Some(update) => update.affected_settings@,
            None => Seq::empty(),
        }
    }

    /// The settings of one group.
    pub open spec fn audio_output_recreate_settings(self) -> Seq<PlayerRuntimeSettingId> {
        match self.audio_output_recreate {
            Some(update) => update.affected_settings@,
            None => Seq::empty(),
        }
    }

    /// The settings of one group.
    pub open spec fn decoder_thread_config_settings(self) -> Seq<PlayerRuntimeSettingId> {
        match self.decoder_thread_config {
            Some(update) => update.affected_settings@,
            None => Seq::empty(),
        }
    }

    /// The settings of one group.
    pub open spec fn video_backend_settings(self) -> Seq<PlayerRuntimeSettingId> {
        match self.video_backend {
            Some(update) => update.affected_settings@,
            None => Seq::empty(),
        }
    }

    /// The settings of one group.
    pub open spec fn frame_server_policy_settings(self) -> Seq<PlayerRuntimeSettingId> {
        match self.frame_server_policy {
            Some(update) => update.affected_settings@,
            None => Seq::empty(),
        }
    }

    /// The settings of all groups in their order, each once.
    pub open spec fn all_settings(self) -> Seq<PlayerRuntimeSettingId> {
        let t0 = extended_unique(Seq::empty(), self.tick_config_settings());
        let d1 = extended_unique(t0, self.default_volume_settings());
        let a2 = extended_unique(d1, self.audio_output_recreate_settings());
        let d3 = extended_unique(a2, self.decoder_thread_config_settings());
        let v4 = extended_unique(d3, self.video_backend_settings());
        let f5 = extended_unique(v4, self.frame_server_policy_settings());
        f5
    }

    /// The settings of all groups, each once and in the order in which they first occur.
    pub fn affected_settings(&self) -> (r: Vec<PlayerRuntimeSettingId>)
        ensures
            r@ == self.all_settings(),
            r@.no_duplicates(),
            forall|setting_id: PlayerRuntimeSettingId| #[trigger]
                r@.contains(setting_id) <==> {
                    ||| self.tick_config_settings().contains(setting_id)
                    ||| self.default_volume_settings().contains(setting_id)
                    ||| self.audio_output_recreate_settings().contains(setting_id)
                    ||| self.decoder_thread_config_settings().contains(setting_id)
                    ||| self.video_backend_settings().contains(setting_id)
                    ||| self.frame_server_policy_settings().contains(setting_id)
                },
    {
        let mut affected_settings: Vec<PlayerRuntimeSettingId> = Vec::new();
        let ghost s0 = affected_settings@;
        if let Some(update) = &self.tick_config {
            extend_unique(&mut affected_settings, &update.affected_settings);
        }
        let ghost s1 = affected_settings@;
        if let Some(update) = &self.default_volume {
            extend_unique(&mut affected_settings, &update.affected_settings);
        }
        let ghost s2 = affected_settings@;
        if let Some(update) = &self.audio_output_recreate {
            extend_unique(&mut affected_settings, &update.affected_settings);
        }
        let ghost s3 = affected_settings@;
        if let Some(update) = &self.decoder_thread_config {
            extend_unique(&mut affected_settings, &update.affected_settings);
        }
        let ghost s4 = affected_settings@;
        if let Some(update) = &self.video_backend {
            extend_unique(&mut affected_settings, &update.affected_settings);
        }
        let ghost s5 = affected_settings@;
        if let Some(update) = &self.frame_server_policy {
            extend_unique(&mut affected_settings, &update.affected_settings);
        }
        let ghost s6 = affected_settings@;
        proof {
            assert(s1 == extended_unique(s0, self.tick_config_settings()));
            lemma_extended_unique(s0, self.tick_config_settings());
            assert(s2 == extended_unique(s1, self.default_volume_settings()));
            lemma_extended_unique(s1, self.default_volume_settings());
            assert(s3 == extended_unique(s2, self.audio_output_recreate_settings()));
            lemma_extended_unique(s2, self.audio_output_recreate_settings());
            assert(s4 == extended_unique(s3, self.decoder_thread_config_settings()));
            lemma_extended_unique(s3, self.decoder_thread_config_settings());
            assert(s5 == extended_unique(s4, self.video_backend_settings()));
            lemma_extended_unique(s4, self.video_backend_settings());
            assert(s6 == extended_unique(s5, self.frame_server_policy_settings()));
            lemma_extended_unique(s5, self.frame_server_policy_settings());
        }
        affected_settings
    }

    /// Whether the pipeline has to be taken apart for the change.
    pub fn requires_pipeline_lifecycle_boundary(&self) -> (r: bool)
        ensures
            r == {
                ||| self.audio_output_recreate is Some
                ||| self.decoder_thread_config is Some
                ||| self.video_backend is Some
            },
    {
        self.audio_output_recreate.is_some() || self.decoder_thread_config.is_some()
            || self.video_backend.is_some()
    }
}

proof fn lemma_extended_unique(
    known: Seq<PlayerRuntimeSettingId>,
    more: Seq<PlayerRuntimeSettingId>,
)
    requires
        known.no_duplicates(),
    ensures
        extended_unique(known, more).no_duplicates(),
        forall|setting_id: PlayerRuntimeSettingId| #[trigger]
            extended_unique(known, more).contains(setting_id) <==> known.contains(setting_id)
                || more.contains(setting_id),
    decreases more.len(),
{
    if more.len() > 0 {
        let shorter = more.drop_last();
        let last = more.last();
        lemma_extended_unique(known, shorter);
        let before = extended_unique(known, shorter);
        let after = extended_unique(known, more);
        assert(more =~= shorter.push(last));
        assert forall|setting_id: PlayerRuntimeSettingId| #[trigger]
            after.contains(setting_id) <==> known.contains(setting_id) || more.contains(
                setting_id,
            ) by {
            assert(more.contains(setting_id) <==> shorter.contains(setting_id) || setting_id
                == last) by {
                if shorter.contains(setting_id) {
                    let i = choose|i: int| 0 <= i < shorter.len() && shorter[i] == setting_id;
                    assert(more[i] == setting_id);
                }
                if setting_id == last {
                    assert(more[more.len() - 1] == setting_id);
                }
                if more.contains(setting_id) && setting_id != last {
                    let i = choose|i: int| 0 <= i < more.len() && more[i] == setting_id;
                    assert(shorter[i] == setting_id);
                }
            }
            if !before.contains(last) {
                assert(after =~= before.push(last));
                assert(after.contains(setting_id) <==> before.contains(setting_id) || setting_id
                    == last) by {
                    if before.contains(setting_id) {
                        let i = choose|i: int| 0 <= i < before.len() && before[i] == setting_id;
                        assert(after[i] == setting_id);
                    }
                    if setting_id == last {
                        assert(after[before.len() as int] == setting_id);
                    }
                    if after.contains(setting_id) && setting_id != last {
                        let i = choose|i: int| 0 <= i < after.len() && after[i] == setting_id;
                        assert(before[i] == setting_id);
                    }
                }
            }
        }
    }
}

/// A group of settings that changes as a whole.
#[derive(Debug, Clone, Copy, PartialEq, Eq, Structural, Hash)]
pub enum PlayerRuntimeApplyGroup {
    /// The request itself.
    Request,
    /// Tick limits.
    TickConfig,
    /// Volume for new media.
    DefaultVolume,
    /// Audio output.
    AudioOutput,
    /// Policy of single events.
    EventPolicy,
    /// Source and codec selection.
    MediaPipeline,
    /// Decoder thread.
    DecoderThreadConfig,
    /// Preferred backend.
    VideoBackend,
    /// Frame server.
    FrameServerPolicy,
}

/// What keeps the pipeline busy.
#[derive(Debug, Clone, Copy, PartialEq, Eq, Structural)]
pub enum PlayerRuntimeBoundaryActivity {
    /// A seek.
    Seek,
    /// A scrub.
    Scrub,
    /// A change of media or backend.
    PipelineLifecycle,
}

impl PlayerRuntimeBoundaryActivity {
    /// The name of the activity.
    pub open spec fn spec_name(self) -> Seq<char> {
        match self {
            PlayerRuntimeBoundaryActivity::Seek => "Seek"@,
            PlayerRuntimeBoundaryActivity::Scrub => "Scrub"@,
            PlayerRuntimeBoundaryActivity::PipelineLifecycle => "PipelineLifecycle"@,
        }
    }

    /// The name of the activity.
    pub fn name(self) -> (r: &'static str)
        ensures
            r@ == self.spec_name(),
    {
        match self {
            PlayerRuntimeBoundaryActivity::Seek => "Seek",
            PlayerRuntimeBoundaryActivity::Scrub => "Scrub",
            PlayerRuntimeBoundaryActivity::PipelineLifecycle => "PipelineLifecycle",
        }
    }
}

/// What an accepted change did.
#[derive(Debug, Clone, Copy, PartialEq, Eq, Structural)]
pub enum PlayerRuntimeAcceptedChange {
    /// Something changed.
    Applied,
    /// Everything was so already.
    Unchanged,
}

/// What became of a group.
#[derive(Debug, Clone, Copy, PartialEq, Eq, Structural)]
pub enum PlayerRuntimeApplyOutcome {
    /// The group was accepted.
    Accepted(PlayerRuntimeAcceptedChange),
    /// The pipeline is busy, and nothing was changed.
    RuntimeBusy(PlayerRuntimeBoundaryActivity),
    /// The setting cannot change at run time.
    Unsupported,
    /// What the setting is about is not there.
    AbsentResource,
    /// The value is not valid.
    Invalid,
    /// The change failed.
    Fatal,
    /// The change failed, and so did undoing it.
    ApplyAndRollbackFailed,
}

impl PlayerRuntimeApplyOutcome {
    /// Whether the group was accepted.
    pub fn is_accepted(self) -> (r: bool)
        ensures
            r == (self is Accepted),
    {
        match self {
            PlayerRuntimeApplyOutcome::Accepted(_) => true,
            _ => false,
        }
    }
}

/// Report of one group.
#[derive(Debug, Clone, PartialEq, Eq)]
pub struct PlayerRuntimeApplyGroupReport {
    /// The group.
    pub group: PlayerRuntimeApplyGroup,
    /// The settings that led to it.
    pub affected_settings: Vec<PlayerRuntimeSettingId>,
    /// What became of it.
    pub outcome: PlayerRuntimeApplyOutcome,
    /// A readable explanation.
    pub message: String,
}

impl PlayerRuntimeApplyGroupReport {
    /// The report of an accepted group.
    pub fn accepted(
        group: PlayerRuntimeApplyGroup,
        affected_settings: Vec<PlayerRuntimeSettingId>,
        change: PlayerRuntimeAcceptedChange,
        message: String,
    ) -> (r: Self)
        ensures
            r == (PlayerRuntimeApplyGroupReport {
                group,
                affected_settings,
                outcome: PlayerRuntimeApplyOutcome::Accepted(change),
                message,
            }),
    {
        PlayerRuntimeApplyGroupReport {
            group,
            affected_settings,
            outcome: PlayerRuntimeApplyOutcome::Accepted(change),
            message,
        }
    }

    /// The report of a busy pipeline.
    pub fn runtime_busy(
        group: PlayerRuntimeApplyGroup,
        affected_settings: Vec<PlayerRuntimeSettingId>,
        activity: PlayerRuntimeBoundaryActivity,
        message: String,
    ) -> (r: Self)
        ensures
            r == (PlayerRuntimeApplyGroupReport {
                group,
                affected_settings,
                outcome: PlayerRuntimeApplyOutcome::RuntimeBusy(activity),
                message,
            }),
    {
        PlayerRuntimeApplyGroupReport {
            group,
            affected_settings,
            outcome: PlayerRuntimeApplyOutcome::RuntimeBusy(activity),
            message,
        }
    }

    /// The report of a setting that cannot change.
    pub fn unsupported(
        group: PlayerRuntimeApplyGroup,
        affected_settings: Vec<PlayerRuntimeSettingId>,
        message: String,
    ) -> (r: Self)
        ensures
            r == (PlayerRuntimeApplyGroupReport {
                group,
                affected_settings,
                outcome: PlayerRuntimeApplyOutcome::Unsupported,
                message,
            }),
    {
        PlayerRuntimeApplyGroupReport {
            group,
            affected_settings,
            outcome: PlayerRuntimeApplyOutcome::Unsupported,
            message,
        }
    }

    /// The report of a value that is not valid.
    pub fn invalid(
        group: PlayerRuntimeApplyGroup,
        affected_settings: Vec<PlayerRuntimeSettingId>,
        message: String,
    ) -> (r: Self)
        ensures
            r == (PlayerRuntimeApplyGroupReport {
                group,
                affected_settings,
                outcome: PlayerRuntimeApplyOutcome::Invalid,
                message,
            }),
    {
        PlayerRuntimeApplyGroupReport {
            group,
            affected_settings,
            outcome: PlayerRuntimeApplyOutcome::Invalid,
            message,
        }
    }

    /// The report of something that is not there.
    pub fn absent_resource(
        group: PlayerRuntimeApplyGroup,
        affected_settings: Vec<PlayerRuntimeSettingId>,
        message: String,
    ) -> (r: Self)
        ensures
            r == (PlayerRuntimeApplyGroupReport {
                group,
                affected_settings,
                outcome: PlayerRuntimeApplyOutcome::AbsentResource,
                message,
            }),
    {
        PlayerRuntimeApplyGroupReport {
            group,
            affected_settings,
            outcome: PlayerRuntimeApplyOutcome::AbsentResource,
            message,
        }
    }

    /// The report of a failure.
    pub fn fatal(
        group: PlayerRuntimeApplyGroup,
        affected_settings: Vec<PlayerRuntimeSettingId>,
        message: String,
    ) -> (r: Self)
        ensures
            r == (PlayerRuntimeApplyGroupReport {
                group,
                affected_settings,
                outcome: PlayerRuntimeApplyOutcome::Fatal,
                message,
            }),
    {
        PlayerRuntimeApplyGroupReport {
            group,
            affected_settings,
            outcome: PlayerRuntimeApplyOutcome::Fatal,
            message,
        }
    }

    /// The report of a failure that could not be undone.
    pub fn apply_and_rollback_failed(
        group: PlayerRuntimeApplyGroup,
        affected_settings: Vec<PlayerRuntimeSettingId>,
        message: String,
    ) -> (r: Self)
        ensures
            r == (PlayerRuntimeApplyGroupReport {
                group,
                affected_settings,
                outcome: PlayerRuntimeApplyOutcome::ApplyAndRollbackFailed,
                message,
            }),
    {
        PlayerRuntimeApplyGroupReport {
            group,
            affected_settings,
            outcome: PlayerRuntimeApplyOutcome::ApplyAndRollbackFailed,
            message,
        }
    }
}

/// Report of all groups.
#[derive(Debug, Clone, PartialEq, Eq)]
pub struct PlayerRuntimeApplyReport {
    /// The groups in the order in which they were handled.
    pub groups: Vec<PlayerRuntimeApplyGroupReport>,
}

impl Default for PlayerRuntimeApplyReport {
    fn default() -> (r: Self)
        ensures
            r.groups@.len() == 0,
    {
        Self::empty()
    }
}

impl PlayerRuntimeApplyReport {
    /// A report of no group.
    pub fn empty() -> (r: Self)
        ensures
            r.groups@.len() == 0,
    {
        PlayerRuntimeApplyReport { groups: Vec::new() }
    }

    /// Adds the report of a group.
    pub fn push(&mut self, group_report: PlayerRuntimeApplyGroupReport)
        ensures
            final(self).groups@ == old(self).groups@.push(group_report),
    {
        self.groups.push(group_report);
    }

    /// Whether there is a group and all groups were accepted.
    pub fn all_groups_accepted(&self) -> (r: bool)
        ensures
            r == {
                &&& self.groups@.len() > 0
                &&& forall|i: int|
                    0 <= i < self.groups@.len() ==> (#[trigger] self.groups@[i]).outcome
                        is Accepted
            },
    {
        if self.groups.is_empty() {
            return false;
        }
        let mut index: usize = 0;
        while index < self.groups.len()
            invariant
                index <= self.groups@.len(),
                forall|i: int|
                    0 <= i < index ==> (#[trigger] self.groups@[i]).outcome is Accepted,
            decreases self.groups@.len() - index,
        {
            if !self.groups[index].outcome.is_accepted() {
                return false;
            }
            index = index + 1;
        }
        true
    }
}

/// Result of a request to change settings.
pub type PlayerRuntimeApplyResult = Result<PlayerRuntimeApplyReport, PlayerRuntimeApplyError>;

/// Why a request to change settings gave no report.
#[derive(Debug, Clone, PartialEq, Eq)]
pub enum PlayerRuntimeApplyError {
    /// The queue of the worker is full.
    Backpressure,
    /// The worker is gone.
    Disconnected,
    /// The pipeline is busy, and nothing was changed.
    RuntimeBusy(PlayerRuntimeBoundaryActivity),
    /// The change failed, and so did undoing it.
    ApplyAndRollbackFailed {
        /// Error of the change.
        apply_error: String,
        /// Error of undoing it.
        rollback_error: String,
    },
    /// Another failure.
    Fatal(String),
}

impl PlayerRuntimeApplyError {
    /// The text of the error.
    pub open spec fn spec_message(self) -> Seq<char> {
        match self {
            PlayerRuntimeApplyError::Backpressure => "player runtime apply queue is full"@,
            PlayerRuntimeApplyError::Disconnected => {
                "player runtime apply worker is disconnected"@
            },
            PlayerRuntimeApplyError::RuntimeBusy(activity) => {
                "player runtime boundary is busy: "@ + activity.spec_name()
            },
            PlayerRuntimeApplyError::ApplyAndRollbackFailed { apply_error, rollback_error } => {
                "player runtime apply failed: "@ + apply_error@ + "; rollback failed: "@
                    + rollback_error@
            },
            PlayerRuntimeApplyError::Fatal(message) => {
                "player runtime apply failed: "@ + message@
            },
        }
    }

    /// The text of the error.
    pub fn message(&self) -> (r: String)
        ensures
            r@ == self.spec_message(),
    {
        match self {
            PlayerRuntimeApplyError::Backpressure => {
                "player runtime apply queue is full".to_owned()
            },
            PlayerRuntimeApplyError::Disconnected => {
                "player runtime apply worker is disconnected".to_owned()
            },
            PlayerRuntimeApplyError::RuntimeBusy(activity) => {
                concat("player runtime boundary is busy: ", activity.name())
            },
            PlayerRuntimeApplyError::ApplyAndRollbackFailed { apply_error, rollback_error } => {
                let head = concat("player runtime apply failed: ", apply_error.as_str());
                let middle = concat(head.as_str(), "; rollback failed: ");
                concat(middle.as_str(), rollback_error.as_str())
            },
            PlayerRuntimeApplyError::Fatal(message) => {
                concat("player runtime apply failed: ", message.as_str())
            },
        }
    }
}

/// Why a value of a setting is not valid.
#[derive(Debug, Clone, Copy, PartialEq, Eq, Structural)]
pub enum RuntimeSettingError {
    /// The value has to be greater than zero.
    NotPositive(PlayerRuntimeSettingId),
    /// The marks of the presentation queue are out of order.
    PresentQueueOrder,
    /// The marks of the texture slots are out of order.
    TextureSlotOrder,
    /// The marks of the decoded time are out of order.
    DecodeAheadOrder,
    /// The value has to be a finite number that is not negative.
    NotFiniteNonNegative {
        /// Setting.
        setting_id: PlayerRuntimeSettingId,
        /// Value, as the bit pattern of a double-precision number.
        value: u64,
    },
    /// The volume has to be a number from zero to one.
    VolumeOutOfRange {
        /// Volume, as the bit pattern of a single-precision number.
        volume: u32,
    },
}

impl RuntimeSettingError {
    /// The text of the error, where `value` is the text of the fractional value that it carries.
    pub open spec fn spec_message(self, value: Seq<char>) -> Seq<char> {
        match self {
            RuntimeSettingError::NotPositive(setting_id) => {
                setting_id.path() + " must be greater than zero"@
            },
            RuntimeSettingError::PresentQueueOrder => {
                "video present queue watermarks must satisfy min <= target <= max"@
            },
            RuntimeSettingError::TextureSlotOrder => {
                "texture-slot watermarks must satisfy min <= target"@
            },
            RuntimeSettingError::DecodeAheadOrder => {
                "video decode-ahead must satisfy target <= max"@
            },
            RuntimeSettingError::NotFiniteNonNegative { setting_id, .. } => {
                setting_id.path() + " must be a finite non-negative value, got "@ + value
            },
            RuntimeSettingError::VolumeOutOfRange { .. } => {
                "default volume must be finite and within 0.0..=1.0, got "@ + value
            },
        }
    }

    /// The text of the error, where `value` is the text of the fractional value that it carries.
    pub fn message(&self, value: &str) -> (r: String)
        ensures
            r@ == self.spec_message(value@),
    {
        match self {
            RuntimeSettingError::NotPositive(setting_id) => {
                concat(setting_id.as_str(), " must be greater than zero")
            },
            RuntimeSettingError::PresentQueueOrder => {
                "video present queue watermarks must satisfy min <= target <= max".to_owned()
            },
            RuntimeSettingError::TextureSlotOrder => {
                "texture-slot watermarks must satisfy min <= target".to_owned()
            },
            RuntimeSettingError::DecodeAheadOrder => {
                "video decode-ahead must satisfy target <= max".to_owned()
            },
            RuntimeSettingError::NotFiniteNonNegative { setting_id, .. } => {
                let head = concat(
                    setting_id.as_str(),
                    " must be a finite non-negative value, got ",
                );
                concat(head.as_str(), value)
            },
            RuntimeSettingError::VolumeOutOfRange { .. } => {
                concat("default volume must be finite and within 0.0..=1.0, got ", value)
            },
        }
    }
}

/// Whether a volume, by its single-precision bit pattern, lies from zero to one.
pub fn validate_runtime_default_volume(default_volume: u32) -> (r: Result<(), RuntimeSettingError>)
    ensures
        r == if is_volume(default_volume) {
            Ok::<(), RuntimeSettingError>(())
        } else {
            Err(RuntimeSettingError::VolumeOutOfRange { volume: default_volume })
        },
{
    if default_volume <= SINGLE_ONE_BITS || default_volume == SINGLE_SIGN_BIT {
        Ok(())
    } else {
        Err(RuntimeSettingError::VolumeOutOfRange { volume: default_volume })
    }
}

/// An error where a condition does not hold.
pub open spec fn error_unless(
    holds: bool,
    error: RuntimeSettingError,
) -> Result<(), RuntimeSettingError> {
    if holds {
        Ok(())
    } else {
        Err(error)
    }
}

/// The first error of a list of checks.
pub open spec fn first_error(
    checks: Seq<Result<(), RuntimeSettingError>>,
) -> Result<(), RuntimeSettingError>
    decreases checks.len(),
{
    if checks.len() == 0 {
        Ok(())
    } else if checks[0] is Err {
        checks[0]
    } else {
        first_error(checks.drop_first())
    }
}

impl PlayerTickConfig {
    /// The checks of the limits, in their order.
    pub open spec fn checks(self) -> Seq<Result<(), RuntimeSettingError>> {
        seq![
            error_unless(
                self.max_demux_packets_per_tick > 0,
                RuntimeSettingError::NotPositive(PlayerRuntimeSettingId::VideoSchedulerDemuxPacketsPerTick),
            ),
            error_unless(
                self.max_video_present_queue > 0,
                RuntimeSettingError::NotPositive(PlayerRuntimeSettingId::VideoPresentQueueFrames),
            ),
            error_unless(
                self.min_video_present_queue <= self.target_video_present_queue
                    <= self.max_video_present_queue,
                RuntimeSettingError::PresentQueueOrder,
            ),
            error_unless(
                self.min_texture_slots_available_for_decode
                    <= self.target_texture_slots_available_for_decode,
                RuntimeSettingError::TextureSlotOrder,
            ),
            error_unless(
                self.max_pending_video_packets > 0,
                RuntimeSettingError::NotPositive(PlayerRuntimeSettingId::VideoDecoderPacketChannelFrames),
            ),
            error_unless(
                self.decoder_ready_queue_frames > 0,
                RuntimeSettingError::NotPositive(PlayerRuntimeSettingId::VideoDecoderReadyQueueFrames),
            ),
            error_unless(
                self.max_video_packets_sent_per_tick > 0,
                RuntimeSettingError::NotPositive(PlayerRuntimeSettingId::VideoSchedulerVideoPacketsPerTick),
            ),
            error_unless(
                self.max_decoded_video_frames_drained_per_tick > 0,
                RuntimeSettingError::NotPositive(PlayerRuntimeSettingId::VideoSchedulerDecodedFramesPerTick),
            ),
            error_unless(
                self.target_video_decode_ahead@ <= self.max_video_decode_ahead@,
                RuntimeSettingError::DecodeAheadOrder,
            ),
            error_unless(
                self.adaptive_catch_up_time_budget@ != 0,
                RuntimeSettingError::NotPositive(PlayerRuntimeSettingId::VideoSchedulerCatchUpBudgetMs),
            ),
            error_unless(
                self.seek_fast_preroll_time_budget@ != 0,
                RuntimeSettingError::NotPositive(PlayerRuntimeSettingId::PlayerSeekFastPrerollBudgetMs),
            ),
            error_unless(
                self.seek_fast_preroll_video_packet_burst > 0,
                RuntimeSettingError::NotPositive(PlayerRuntimeSettingId::PlayerSeekFastPrerollVideoPacketBurst),
            ),
            error_unless(
                is_finite_non_negative(self.audio_buffer_high_water_mark_ms),
                RuntimeSettingError::NotFiniteNonNegative {
                    setting_id: PlayerRuntimeSettingId::AudioBufferTargetMs,
                    value: self.audio_buffer_high_water_mark_ms,
                },
            ),
            error_unless(
                is_finite_non_negative(self.audio_demux_low_water_mark_ms),
                RuntimeSettingError::NotFiniteNonNegative {
                    setting_id: PlayerRuntimeSettingId::AudioBufferTargetMs,
                    value: self.audio_demux_low_water_mark_ms,
                },
            ),
            error_unless(
                is_finite_non_negative(self.audio_preroll_target_ms),
                RuntimeSettingError::NotFiniteNonNegative {
                    setting_id: PlayerRuntimeSettingId::PlayerSeekResumeAudioMinBufferMs,
                    value: self.audio_preroll_target_ms,
                },
            ),
            error_unless(
                self.seek_commit_timeout@ != 0,
                RuntimeSettingError::NotPositive(PlayerRuntimeSettingId::PlayerSeekCommitTimeoutMs),
            ),
            error_unless(
                is_finite_non_negative(self.seek_resume_audio_min_buffer_ms),
                RuntimeSettingError::NotFiniteNonNegative {
                    setting_id: PlayerRuntimeSettingId::PlayerSeekResumeAudioMinBufferMs,
                    value: self.seek_resume_audio_min_buffer_ms,
                },
            ),
            error_unless(
                self.seek_resume_audio_gate_timeout@ != 0,
                RuntimeSettingError::NotPositive(PlayerRuntimeSettingId::PlayerSeekResumeAudioGateTimeoutMs),
            ),
            error_unless(
                self.seek_resume_video_min_ready_frames > 0,
                RuntimeSettingError::NotPositive(PlayerRuntimeSettingId::PlayerSeekResumeVideoMinReadyFrames),
            ),
            error_unless(
                is_finite_non_negative(self.video_present_lead_frames),
                RuntimeSettingError::NotFiniteNonNegative {
                    setting_id: PlayerRuntimeSettingId::PlayerTickConfig,
                    value: self.video_present_lead_frames,
                },
            ),
            error_unless(
                is_finite_non_negative(self.video_present_window_frames),
                RuntimeSettingError::NotFiniteNonNegative {
                    setting_id: PlayerRuntimeSettingId::PlayerTickConfig,
                    value: self.video_present_window_frames,
                },
            ),
            error_unless(
                is_finite_non_negative(self.video_late_drop_grace_frames),
                RuntimeSettingError::NotFiniteNonNegative {
                    setting_id: PlayerRuntimeSettingId::PlayerTickConfig,
                    value: self.video_late_drop_grace_frames,
                },
            ),
        ]
    }
}

/// Checks the limits of a tick and returns the first error.
pub fn validate_runtime_tick_config(tick_config: &PlayerTickConfig) -> (r: Result<
    (),
    RuntimeSettingError,
>)
    ensures
        r == first_error(tick_config.checks()),
{
    let ghost checks = tick_config.checks();
    proof {
        assert(checks.skip(0) =~= checks);
    }
    proof {
        lemma_first_error_step(checks, 0);
    }
    ensure_non_zero(
        tick_config.max_demux_packets_per_tick,
        PlayerRuntimeSettingId::VideoSchedulerDemuxPacketsPerTick,
    )?;
    proof {
        lemma_first_error_step(checks, 1);
    }
    ensure_non_zero(
        tick_config.max_video_present_queue,
        PlayerRuntimeSettingId::VideoPresentQueueFrames,
    )?;
    proof {
        lemma_first_error_step(checks, 2);
    }
    ensure_watermark_order(
        tick_config.min_video_present_queue,
        tick_config.target_video_present_queue,
        tick_config.max_video_present_queue,
        RuntimeSettingError::PresentQueueOrder,
    )?;
    proof {
        lemma_first_error_step(checks, 3);
    }
    ensure_watermark_order(
        tick_config.min_texture_slots_available_for_decode,
        tick_config.target_texture_slots_available_for_decode,
        usize::MAX,
        RuntimeSettingError::TextureSlotOrder,
    )?;
    proof {
        lemma_first_error_step(checks, 4);
    }
    ensure_non_zero(
        tick_config.max_pending_video_packets,
        PlayerRuntimeSettingId::VideoDecoderPacketChannelFrames,
    )?;
    proof {
        lemma_first_error_step(checks, 5);
    }
    ensure_non_zero(
        tick_config.decoder_ready_queue_frames,
        PlayerRuntimeSettingId::VideoDecoderReadyQueueFrames,
    )?;
    proof {
        lemma_first_error_step(checks, 6);
    }
    ensure_non_zero(
        tick_config.max_video_packets_sent_per_tick,
        PlayerRuntimeSettingId::VideoSchedulerVideoPacketsPerTick,
    )?;
    proof {
        lemma_first_error_step(checks, 7);
    }
    ensure_non_zero(
        tick_config.max_decoded_video_frames_drained_per_tick,
        PlayerRuntimeSettingId::VideoSchedulerDecodedFramesPerTick,
    )?;
    proof {
        lemma_first_error_step(checks, 8);
    }
    ensure_duration_order(
        tick_config.target_video_decode_ahead,
        tick_config.max_video_decode_ahead,
        RuntimeSettingError::DecodeAheadOrder,
    )?;
    proof {
        lemma_first_error_step(checks, 9);
    }
    ensure_positive_duration(
        tick_config.adaptive_catch_up_time_budget,
        PlayerRuntimeSettingId::VideoSchedulerCatchUpBudgetMs,
    )?;
    proof {
        lemma_first_error_step(checks, 10);
    }
    ensure_positive_duration(
        tick_config.seek_fast_preroll_time_budget,
        PlayerRuntimeSettingId::PlayerSeekFastPrerollBudgetMs,
    )?;
    proof {
        lemma_first_error_step(checks, 11);
    }
    ensure_non_zero(
        tick_config.seek_fast_preroll_video_packet_burst,
        PlayerRuntimeSettingId::PlayerSeekFastPrerollVideoPacketBurst,
    )?;
    proof {
        lemma_first_error_step(checks, 12);
    }
    ensure_non_negative_finite(
        tick_config.audio_buffer_high_water_mark_ms,
        PlayerRuntimeSettingId::AudioBufferTargetMs,
    )?;
    proof {
        lemma_first_error_step(checks, 13);
    }
    ensure_non_negative_finite(
        tick_config.audio_demux_low_water_mark_ms,
        PlayerRuntimeSettingId::AudioBufferTargetMs,
    )?;
    proof {
        lemma_first_error_step(checks, 14);
    }
    ensure_non_negative_finite(
        tick_config.audio_preroll_target_ms,
        PlayerRuntimeSettingId::PlayerSeekResumeAudioMinBufferMs,
    )?;
    proof {
        lemma_first_error_step(checks, 15);
    }
    ensure_positive_duration(
        tick_config.seek_commit_timeout,
        PlayerRuntimeSettingId::PlayerSeekCommitTimeoutMs,
    )?;
    proof {
        lemma_first_error_step(checks, 16);
    }
    ensure_non_negative_finite(
        tick_config.seek_resume_audio_min_buffer_ms,
        PlayerRuntimeSettingId::PlayerSeekResumeAudioMinBufferMs,
    )?;
    proof {
        lemma_first_error_step(checks, 17);
    }
    ensure_positive_duration(
        tick_config.seek_resume_audio_gate_timeout,
        PlayerRuntimeSettingId::PlayerSeekResumeAudioGateTimeoutMs,
    )?;
    proof {
        lemma_first_error_step(checks, 18);
    }
    ensure_non_zero(
        tick_config.seek_resume_video_min_ready_frames,
        PlayerRuntimeSettingId::PlayerSeekResumeVideoMinReadyFrames,
    )?;
    proof {
        lemma_first_error_step(checks, 19);
    }
    ensure_non_negative_finite(
        tick_config.video_present_lead_frames,
        PlayerRuntimeSettingId::PlayerTickConfig,
    )?;
    proof {
        lemma_first_error_step(checks, 20);
    }
    ensure_non_negative_finite(
        tick_config.video_present_window_frames,
        PlayerRuntimeSettingId::PlayerTickConfig,
    )?;
    proof {
        lemma_first_error_step(checks, 21);
    }
    ensure_non_negative_finite(
        tick_config.video_late_drop_grace_frames,
        PlayerRuntimeSettingId::PlayerTickConfig,
    )?;
    proof {
        assert(checks.skip(22) =~= Seq::empty());
    }
    Ok(())
}

proof fn lemma_first_error_step(checks: Seq<Result<(), RuntimeSettingError>>, index: int)
    requires
        0 <= index < checks.len(),
    ensures
        first_error(checks.skip(index)) == if checks[index] is Err {
            checks[index]
        } else {
            first_error(checks.skip(index + 1))
        },
{
    let rest = checks.skip(index);
    assert(rest[0] == checks[index]);
    assert(rest.drop_first() =~= checks.skip(index + 1));
}

/// Fails for zero.
fn ensure_non_zero(value: usize, setting_id: PlayerRuntimeSettingId) -> (r: Result<
    (),
    RuntimeSettingError,
>)
    ensures
        r == error_unless(value > 0, RuntimeSettingError::NotPositive(setting_id)),
{
    if value == 0 {
        return Err(RuntimeSettingError::NotPositive(setting_id));
    }
    Ok(())
}

/// Fails where the marks are out of order.
fn ensure_watermark_order(
    minimum: usize,
    target: usize,
    maximum: usize,
    error: RuntimeSettingError,
) -> (r: Result<(), RuntimeSettingError>)
    ensures
        r == error_unless(minimum <= target <= maximum, error),
{
    if minimum > target || target > maximum {
        return Err(error);
    }
    Ok(())
}

/// Fails where the marks are out of order.
fn ensure_duration_order(target: Duration, maximum: Duration, error: RuntimeSettingError) -> (r:
    Result<(), RuntimeSettingError>)
    ensures
        r == error_unless(target@ <= maximum@, error),
{
    if target > maximum {
        return Err(error);
    }
    Ok(())
}

/// Fails for the empty span.
fn ensure_positive_duration(value: Duration, setting_id: PlayerRuntimeSettingId) -> (r: Result<
    (),
    RuntimeSettingError,
>)
    ensures
        r == error_unless(value@ != 0, RuntimeSettingError::NotPositive(setting_id)),
{
    if value.is_zero() {
        return Err(RuntimeSettingError::NotPositive(setting_id));
    }
    Ok(())
}

/// Fails for a double-precision bit pattern that is no finite number or negative.
fn ensure_non_negative_finite(value: u64, setting_id: PlayerRuntimeSettingId) -> (r: Result<
    (),
    RuntimeSettingError,
>)
    ensures
        r == error_unless(
            is_finite_non_negative(value),
            RuntimeSettingError::NotFiniteNonNegative { setting_id, value },
        ),
{
    if (value / DOUBLE_MANTISSA_RANGE) % 2048 == 2047 || value > DOUBLE_SIGN_BIT {
        return Err(RuntimeSettingError::NotFiniteNonNegative { setting_id, value });
    }
    Ok(())
}

/// Limits are valid exactly where none of their checks fails, and the error of limits that are
/// not is that of a check that failed, after none that did.
pub proof fn law_limits_are_valid_exactly_where_every_check_passes(
    checks: Seq<Result<(), RuntimeSettingError>>,
)
    ensures
        first_error(checks) is Ok <==> forall|i: int|
            0 <= i < checks.len() ==> (#[trigger] checks[i]) is Ok,
        first_error(checks) is Err ==> exists|i: int|
            0 <= i < checks.len() && #[trigger] checks[i] == first_error(checks) && forall|j: int|
                0 <= j < i ==> (#[trigger] checks[j]) is Ok,
    decreases checks.len(),
{
    if checks.len() > 0 {
        if checks[0] is Err {
            assert(checks[0] == first_error(checks));
        } else {
            let rest = checks.drop_first();
            law_limits_are_valid_exactly_where_every_check_passes(rest);
            if first_error(checks) is Ok {
                assert forall|i: int| 0 <= i < checks.len() implies (#[trigger] checks[i]) is Ok by {
                    if i > 0 {
                        assert(rest[i - 1] is Ok);
                    }
                }
            } else {
                let k = choose|i: int|
                    0 <= i < rest.len() && #[trigger] rest[i] == first_error(rest) && forall|j: int|
                        0 <= j < i ==> (#[trigger] rest[j]) is Ok;
                assert(checks[k + 1] == first_error(checks));
                assert forall|j: int| 0 <= j < k + 1 implies (#[trigger] checks[j]) is Ok by {
                    if j > 0 {
                        assert(rest[j - 1] is Ok);
                    }
                }
            }
        }
    }
}

/// The stable paths of the settings.
pub proof fn law_settings_have_their_paths(setting: PlayerRuntimeSettingId, path: &'static str)
    requires
        call_ensures(PlayerRuntimeSettingId::as_str, (setting,), path),
    ensures
        setting is PlayerTickConfig ==> path@ == "player.runtime.tick_config"@,
        setting is PlayerStartPaused ==> path@ == "player.start_paused"@,
        setting is PlayerResumeLastPosition ==> path@ == "player.resume_last_position"@,
        setting is PlayerSeekPausedCommitBehavior ==> path@ == "player.seek.paused_commit_behavior"@,
        setting is PlayerSeekHotkeySmallStepSecs ==> path@ == "player.seek.hotkey_small_step_secs"@,
        setting is PlayerSeekHotkeyLargeStepSecs ==> path@ == "player.seek.hotkey_large_step_secs"@,
        setting is AudioDefaultVolume ==> path@ == "audio.volume"@,
        setting is AudioOutputDevice ==> path@ == "audio.output_device"@,
        setting is PlayerDecoderThreadConfig ==> path@ == "player.runtime.decoder_thread_config"@,
        setting is PlayerPreferredVideoCodecOrder ==> path@ == "player.preferred_video_codec_order"@,
        setting is PlayerDemuxMaxConsecutiveCorruptedPackets ==> path@ == "player.demux.max_consecutive_corrupted_packets"@,
        setting is PlayerSeekCommitTimeoutMs ==> path@ == "player.seek.commit_timeout_ms"@,
        setting is PlayerSeekResumeAudioMinBufferMs ==> path@ == "player.seek.resume_audio_min_buffer_ms"@,
        setting is PlayerSeekResumeAudioGateTimeoutMs ==> path@ == "player.seek.resume_audio_gate_timeout_ms"@,
        setting is PlayerSeekResumeVideoMinReadyFrames ==> path@ == "player.seek.resume_video_min_ready_frames"@,
        setting is PlayerSeekFastPrerollBudgetMs ==> path@ == "player.seek.fast_preroll_budget_ms"@,
        setting is PlayerSeekFastPrerollVideoPacketBurst ==> path@ == "player.seek.fast_preroll_video_packet_burst"@,
        setting is AudioBufferTargetMs ==> path@ == "audio.buffer_target_ms"@,
        setting is VideoMaxDecodeAheadMs ==> path@ == "video.max_decode_ahead_ms"@,
        setting is VideoPresentQueueFrames ==> path@ == "video.present_queue_frames"@,
        setting is VideoDecoderPacketChannelFrames ==> path@ == "video.decoder_packet_channel_frames"@,
        setting is VideoDecoderFrameChannelFrames ==> path@ == "video.decoder_frame_channel_frames"@,
        setting is VideoDecoderReadyQueueFrames ==> path@ == "video.decoder_ready_queue_frames"@,
        setting is VideoDecoderSurfacePoolFrames ==> path@ == "video.decoder_surface_pool_frames"@,
        setting is VideoSoftwareDecoderSurfacePoolFrames ==> path@ == "video.sw_decoder_surface_pool_frames"@,
        setting is VideoSoftwareDecodeThreads ==> path@ == "video.sw_decode_threads"@,
        setting is VideoZeroCopySurfacePoolSlots ==> path@ == "video.zero_copy_surface_pool_slots"@,
        setting is VideoSchedulerDemuxPacketsPerTick ==> path@ == "video.scheduler.demux_packets_per_tick"@,
        setting is VideoSchedulerVideoPacketsPerTick ==> path@ == "video.scheduler.video_packets_per_tick"@,
        setting is VideoSchedulerDecodedFramesPerTick ==> path@ == "video.scheduler.decoded_frames_per_tick"@,
        setting is VideoSchedulerCatchUpBudgetMs ==> path@ == "video.scheduler.catch_up_budget_ms"@,
        setting is VideoSchedulerPresentQueueMinFrames ==> path@ == "video.scheduler.present_queue_min_frames"@,
        setting is VideoSchedulerPresentQueueTargetFrames ==> path@ == "video.scheduler.present_queue_target_frames"@,
        setting is VideoSchedulerDecodeAheadTargetMs ==> path@ == "video.scheduler.decode_ahead_target_ms"@,
        setting is VideoSchedulerSurfaceFreeSlotsMin ==> path@ == "video.scheduler.surface_free_slots_min"@,
        setting is VideoSchedulerSurfaceFreeSlotsTarget ==> path@ == "video.scheduler.surface_free_slots_target"@,
        setting is VideoPreferredBackend ==> path@ == "video.preferred_backend"@,
        setting is FrameServerLiveScrubEnabled ==> path@ == "frame_server.live_scrub_enabled"@,
        setting is FrameServerLiveScrubDecodeMode ==> path@ == "frame_server.live_scrub_decode_mode"@,
        setting is FrameServerLiveScrubMaxHz ==> path@ == "frame_server.live_scrub_max_hz"@,
{
}

/// A volume is accepted exactly where its pattern is that of a number from zero to one; minus zero
/// is such a number. The error tells the volume.
pub proof fn law_volume_lies_from_zero_to_one(
    volume: u32,
    result: Result<(), RuntimeSettingError>,
)
    requires
        call_ensures(validate_runtime_default_volume, (volume,), result),
    ensures
        result is Ok <==> volume <= 0x3f80_0000 || volume == 0x8000_0000,
        result is Err ==> result->Err_0 == (RuntimeSettingError::VolumeOutOfRange { volume }),
{
}

/// The patterns of finite numbers from zero on lie below that of infinity, but for minus zero.
proof fn lemma_finite_patterns(bits: u64)
    ensures
        is_finite_non_negative(bits) <==> bits < 0x7FF0_0000_0000_0000 || bits
            == 0x8000_0000_0000_0000,
{
    let exponent = bits as int / 0x10_0000_0000_0000;
    if bits < 0x8000_0000_0000_0000 {
        assert(0 <= exponent < 2048);
        vstd::arithmetic::div_mod::lemma_small_mod(exponent as nat, 2048);
    }
}

proof fn lemma_first_of_the_limits(checks: Seq<Result<(), RuntimeSettingError>>)
    requires
        checks.len() == 22,
    ensures
        first_error(checks) == if checks[0] is Err {
            checks[0]
        } else if checks[1] is Err {
            checks[1]
        } else if checks[2] is Err {
            checks[2]
        } else if checks[3] is Err {
            checks[3]
        } else if checks[4] is Err {
            checks[4]
        } else if checks[5] is Err {
            checks[5]
        } else if checks[6] is Err {
            checks[6]
        } else if checks[7] is Err {
            checks[7]
        } else if checks[8] is Err {
            checks[8]
        } else if checks[9] is Err {
            checks[9]
        } else if checks[10] is Err {
            checks[10]
        } else if checks[11] is Err {
            checks[11]
        } else if checks[12] is Err {
            checks[12]
        } else if checks[13] is Err {
            checks[13]
        } else if checks[14] is Err {
            checks[14]
        } else if checks[15] is Err {
            checks[15]
        } else if checks[16] is Err {
            checks[16]
        } else if checks[17] is Err {
            checks[17]
        } else if checks[18] is Err {
            checks[18]
        } else if checks[19] is Err {
            checks[19]
        } else if checks[20] is Err {
            checks[20]
        } else if checks[21] is Err {
            checks[21]
        } else {
            Ok(())
        },
{
    assert(checks.skip(0) =~= checks);
    lemma_first_error_step(checks, 0);
    lemma_first_error_step(checks, 1);
    lemma_first_error_step(checks, 2);
    lemma_first_error_step(checks, 3);
    lemma_first_error_step(checks, 4);
    lemma_first_error_step(checks, 5);
    lemma_first_error_step(checks, 6);
    lemma_first_error_step(checks, 7);
    lemma_first_error_step(checks, 8);
    lemma_first_error_step(checks, 9);
    lemma_first_error_step(checks, 10);
    lemma_first_error_step(checks, 11);
    lemma_first_error_step(checks, 12);
    lemma_first_error_step(checks, 13);
    lemma_first_error_step(checks, 14);
    lemma_first_error_step(checks, 15);
    lemma_first_error_step(checks, 16);
    lemma_first_error_step(checks, 17);
    lemma_first_error_step(checks, 18);
    lemma_first_error_step(checks, 19);
    lemma_first_error_step(checks, 20);
    lemma_first_error_step(checks, 21);
    assert(checks.skip(22) =~= Seq::empty());
}

proof fn lemma_limits(
    config: PlayerTickConfig,
    checks: Seq<Result<(), RuntimeSettingError>>,
)
    requires
        checks.len() == 22,
        checks[0] == if config.max_demux_packets_per_tick > 0 {
            Ok(())
        } else {
            Err(RuntimeSettingError::NotPositive(PlayerRuntimeSettingId::VideoSchedulerDemuxPacketsPerTick))
        },
        checks[1] == if config.max_video_present_queue > 0 {
            Ok(())
        } else {
            Err(RuntimeSettingError::NotPositive(PlayerRuntimeSettingId::VideoPresentQueueFrames))
        },
        checks[2] == if (config.min_video_present_queue <= config.target_video_present_queue <= config.max_video_present_queue) {
            Ok(())
        } else {
            Err(RuntimeSettingError::PresentQueueOrder)
        },
        checks[3] == if (config.min_texture_slots_available_for_decode <= config.target_texture_slots_available_for_decode) {
            Ok(())
        } else {
            Err(RuntimeSettingError::TextureSlotOrder)
        },
        checks[4] == if config.max_pending_video_packets > 0 {
            Ok(())
        } else {
            Err(RuntimeSettingError::NotPositive(PlayerRuntimeSettingId::VideoDecoderPacketChannelFrames))
        },
        checks[5] == if config.decoder_ready_queue_frames > 0 {
            Ok(())
        } else {
            Err(RuntimeSettingError::NotPositive(PlayerRuntimeSettingId::VideoDecoderReadyQueueFrames))
        },
        checks[6] == if config.max_video_packets_sent_per_tick > 0 {
            Ok(())
        } else {
            Err(RuntimeSettingError::NotPositive(PlayerRuntimeSettingId::VideoSchedulerVideoPacketsPerTick))
        },
        checks[7] == if config.max_decoded_video_frames_drained_per_tick > 0 {
            Ok(())
        } else {
            Err(RuntimeSettingError::NotPositive(PlayerRuntimeSettingId::VideoSchedulerDecodedFramesPerTick))
        },
        checks[8] == if config.target_video_decode_ahead@ <= config.max_video_decode_ahead@ {
            Ok(())
        } else {
            Err(RuntimeSettingError::DecodeAheadOrder)
        },
        checks[9] == if config.adaptive_catch_up_time_budget@ != 0 {
            Ok(())
        } else {
            Err(RuntimeSettingError::NotPositive(PlayerRuntimeSettingId::VideoSchedulerCatchUpBudgetMs))
        },
        checks[10] == if config.seek_fast_preroll_time_budget@ != 0 {
            Ok(())
        } else {
            Err(RuntimeSettingError::NotPositive(PlayerRuntimeSettingId::PlayerSeekFastPrerollBudgetMs))
        },
        checks[11] == if config.seek_fast_preroll_video_packet_burst > 0 {
            Ok(())
        } else {
            Err(RuntimeSettingError::NotPositive(PlayerRuntimeSettingId::PlayerSeekFastPrerollVideoPacketBurst))
        },
        checks[12] == if (config.audio_buffer_high_water_mark_ms < 0x7FF0_0000_0000_0000 || config.audio_buffer_high_water_mark_ms == 0x8000_0000_0000_0000) {
            Ok(())
        } else {
            Err(RuntimeSettingError::NotFiniteNonNegative {
                setting_id: PlayerRuntimeSettingId::AudioBufferTargetMs,
                value: config.audio_buffer_high_water_mark_ms,
            })
        },
        checks[13] == if (config.audio_demux_low_water_mark_ms < 0x7FF0_0000_0000_0000 || config.audio_demux_low_water_mark_ms == 0x8000_0000_0000_0000) {
            Ok(())
        } else {
            Err(RuntimeSettingError::NotFiniteNonNegative {
                setting_id: PlayerRuntimeSettingId::AudioBufferTargetMs,
                value: config.audio_demux_low_water_mark_ms,
            })
        },
        checks[14] == if (config.audio_preroll_target_ms < 0x7FF0_0000_0000_0000 || config.audio_preroll_target_ms == 0x8000_0000_0000_0000) {
            Ok(())
        } else {
            Err(RuntimeSettingError::NotFiniteNonNegative {
                setting_id: PlayerRuntimeSettingId::PlayerSeekResumeAudioMinBufferMs,
                value: config.audio_preroll_target_ms,
            })
        },
        checks[15] == if config.seek_commit_timeout@ != 0 {
            Ok(())
        } else {
            Err(RuntimeSettingError::NotPositive(PlayerRuntimeSettingId::PlayerSeekCommitTimeoutMs))
        },
        checks[16] == if (config.seek_resume_audio_min_buffer_ms < 0x7FF0_0000_0000_0000 || config.seek_resume_audio_min_buffer_ms == 0x8000_0000_0000_0000) {
            Ok(())
        } else {
            Err(RuntimeSettingError::NotFiniteNonNegative {
                setting_id: PlayerRuntimeSettingId::PlayerSeekResumeAudioMinBufferMs,
                value: config.seek_resume_audio_min_buffer_ms,
            })
        },
        checks[17] == if config.seek_resume_audio_gate_timeout@ != 0 {
            Ok(())
        } else {
            Err(RuntimeSettingError::NotPositive(PlayerRuntimeSettingId::PlayerSeekResumeAudioGateTimeoutMs))
        },
        checks[18] == if config.seek_resume_video_min_ready_frames > 0 {
            Ok(())
        } else {
            Err(RuntimeSettingError::NotPositive(PlayerRuntimeSettingId::PlayerSeekResumeVideoMinReadyFrames))
        },
        checks[19] == if (config.video_present_lead_frames < 0x7FF0_0000_0000_0000 || config.video_present_lead_frames == 0x8000_0000_0000_0000) {
            Ok(())
        } else {
            Err(RuntimeSettingError::NotFiniteNonNegative {
                setting_id: PlayerRuntimeSettingId::PlayerTickConfig,
                value: config.video_present_lead_frames,
            })
        },
        checks[20] == if (config.video_present_window_frames < 0x7FF0_0000_0000_0000 || config.video_present_window_frames == 0x8000_0000_0000_0000) {
            Ok(())
        } else {
            Err(RuntimeSettingError::NotFiniteNonNegative {
                setting_id: PlayerRuntimeSettingId::PlayerTickConfig,
                value: config.video_present_window_frames,
            })
        },
        checks[21] == if (config.video_late_drop_grace_frames < 0x7FF0_0000_0000_0000 || config.video_late_drop_grace_frames == 0x8000_0000_0000_0000) {
            Ok(())
        } else {
            Err(RuntimeSettingError::NotFiniteNonNegative {
                setting_id: PlayerRuntimeSettingId::PlayerTickConfig,
                value: config.video_late_drop_grace_frames,
            })
        },
    ensures
        first_error(checks) == if !(config.max_demux_packets_per_tick > 0) {
            Err(RuntimeSettingError::NotPositive(PlayerRuntimeSettingId::VideoSchedulerDemuxPacketsPerTick))
        } else if !(config.max_video_present_queue > 0) {
            Err(RuntimeSettingError::NotPositive(PlayerRuntimeSettingId::VideoPresentQueueFrames))
        } else if !((config.min_video_present_queue <= config.target_video_present_queue <= config.max_video_present_queue)) {
            Err(RuntimeSettingError::PresentQueueOrder)
        } else if !((config.min_texture_slots_available_for_decode <= config.target_texture_slots_available_for_decode)) {
            Err(RuntimeSettingError::TextureSlotOrder)
        } else if !(config.max_pending_video_packets > 0) {
            Err(RuntimeSettingError::NotPositive(PlayerRuntimeSettingId::VideoDecoderPacketChannelFrames))
        } else if !(config.decoder_ready_queue_frames > 0) {
            Err(RuntimeSettingError::NotPositive(PlayerRuntimeSettingId::VideoDecoderReadyQueueFrames))
        } else if !(config.max_video_packets_sent_per_tick > 0) {
            Err(RuntimeSettingError::NotPositive(PlayerRuntimeSettingId::VideoSchedulerVideoPacketsPerTick))
        } else if !(config.max_decoded_video_frames_drained_per_tick > 0) {
            Err(RuntimeSettingError::NotPositive(PlayerRuntimeSettingId::VideoSchedulerDecodedFramesPerTick))
        } else if !(config.target_video_decode_ahead@ <= config.max_video_decode_ahead@) {
            Err(RuntimeSettingError::DecodeAheadOrder)
        } else if !(config.adaptive_catch_up_time_budget@ != 0) {
            Err(RuntimeSettingError::NotPositive(PlayerRuntimeSettingId::VideoSchedulerCatchUpBudgetMs))
        } else if !(config.seek_fast_preroll_time_budget@ != 0) {
            Err(RuntimeSettingError::NotPositive(PlayerRuntimeSettingId::PlayerSeekFastPrerollBudgetMs))
        } else if !(config.seek_fast_preroll_video_packet_burst > 0) {
            Err(RuntimeSettingError::NotPositive(PlayerRuntimeSettingId::PlayerSeekFastPrerollVideoPacketBurst))
        } else if !((config.audio_buffer_high_water_mark_ms < 0x7FF0_0000_0000_0000 || config.audio_buffer_high_water_mark_ms == 0x8000_0000_0000_0000)) {
            Err(RuntimeSettingError::NotFiniteNonNegative {
                setting_id: PlayerRuntimeSettingId::AudioBufferTargetMs,
                value: config.audio_buffer_high_water_mark_ms,
            })
        } else if !((config.audio_demux_low_water_mark_ms < 0x7FF0_0000_0000_0000 || config.audio_demux_low_water_mark_ms == 0x8000_0000_0000_0000)) {
            Err(RuntimeSettingError::NotFiniteNonNegative {
                setting_id: PlayerRuntimeSettingId::AudioBufferTargetMs,
                value: config.audio_demux_low_water_mark_ms,
            })
        } else if !((config.audio_preroll_target_ms < 0x7FF0_0000_0000_0000 || config.audio_preroll_target_ms == 0x8000_0000_0000_0000)) {
            Err(RuntimeSettingError::NotFiniteNonNegative {
                setting_id: PlayerRuntimeSettingId::PlayerSeekResumeAudioMinBufferMs,
                value: config.audio_preroll_target_ms,
            })
        } else if !(config.seek_commit_timeout@ != 0) {
            Err(RuntimeSettingError::NotPositive(PlayerRuntimeSettingId::PlayerSeekCommitTimeoutMs))
        } else if !((config.seek_resume_audio_min_buffer_ms < 0x7FF0_0000_0000_0000 || config.seek_resume_audio_min_buffer_ms == 0x8000_0000_0000_0000)) {
            Err(RuntimeSettingError::NotFiniteNonNegative {
                setting_id: PlayerRuntimeSettingId::PlayerSeekResumeAudioMinBufferMs,
                value: config.seek_resume_audio_min_buffer_ms,
            })
        } else if !(config.seek_resume_audio_gate_timeout@ != 0) {
            Err(RuntimeSettingError::NotPositive(PlayerRuntimeSettingId::PlayerSeekResumeAudioGateTimeoutMs))
        } else if !(config.seek_resume_video_min_ready_frames > 0) {
            Err(RuntimeSettingError::NotPositive(PlayerRuntimeSettingId::PlayerSeekResumeVideoMinReadyFrames))
        } else if !((config.video_present_lead_frames < 0x7FF0_0000_0000_0000 || config.video_present_lead_frames == 0x8000_0000_0000_0000)) {
            Err(RuntimeSettingError::NotFiniteNonNegative {
                setting_id: PlayerRuntimeSettingId::PlayerTickConfig,
                value: config.video_present_lead_frames,
            })
        } else if !((config.video_present_window_frames < 0x7FF0_0000_0000_0000 || config.video_present_window_frames == 0x8000_0000_0000_0000)) {
            Err(RuntimeSettingError::NotFiniteNonNegative {
                setting_id: PlayerRuntimeSettingId::PlayerTickConfig,
                value: config.video_present_window_frames,
            })
        } else if !((config.video_late_drop_grace_frames < 0x7FF0_0000_0000_0000 || config.video_late_drop_grace_frames == 0x8000_0000_0000_0000)) {
            Err(RuntimeSettingError::NotFiniteNonNegative {
                setting_id: PlayerRuntimeSettingId::PlayerTickConfig,
                value: config.video_late_drop_grace_frames,
            })
        } else {
            Ok(())
        },
{
    lemma_first_of_the_limits(checks);
}

proof fn lemma_limits_are_checked(config: PlayerTickConfig)
    ensures
        config.checks().len() == 22,
        config.checks()[0] == if config.max_demux_packets_per_tick > 0 {
            Ok::<(), RuntimeSettingError>(())
        } else {
            Err(RuntimeSettingError::NotPositive(PlayerRuntimeSettingId::VideoSchedulerDemuxPacketsPerTick))
        },
        config.checks()[1] == if config.max_video_present_queue > 0 {
            Ok::<(), RuntimeSettingError>(())
        } else {
            Err(RuntimeSettingError::NotPositive(PlayerRuntimeSettingId::VideoPresentQueueFrames))
        },
        config.checks()[2] == if (config.min_video_present_queue <= config.target_video_present_queue <= config.max_video_present_queue) {
            Ok::<(), RuntimeSettingError>(())
        } else {
            Err(RuntimeSettingError::PresentQueueOrder)
        },
        config.checks()[3] == if (config.min_texture_slots_available_for_decode <= config.target_texture_slots_available_for_decode) {
            Ok::<(), RuntimeSettingError>(())
        } else {
            Err(RuntimeSettingError::TextureSlotOrder)
        },
        config.checks()[4] == if config.max_pending_video_packets > 0 {
            Ok::<(), RuntimeSettingError>(())
        } else {
            Err(RuntimeSettingError::NotPositive(PlayerRuntimeSettingId::VideoDecoderPacketChannelFrames))
        },
        config.checks()[5] == if config.decoder_ready_queue_frames > 0 {
            Ok::<(), RuntimeSettingError>(())
        } else {
            Err(RuntimeSettingError::NotPositive(PlayerRuntimeSettingId::VideoDecoderReadyQueueFrames))
        },
        config.checks()[6] == if config.max_video_packets_sent_per_tick > 0 {
            Ok::<(), RuntimeSettingError>(())
        } else {
            Err(RuntimeSettingError::NotPositive(PlayerRuntimeSettingId::VideoSchedulerVideoPacketsPerTick))
        },
        config.checks()[7] == if config.max_decoded_video_frames_drained_per_tick > 0 {
            Ok::<(), RuntimeSettingError>(())
        } else {
            Err(RuntimeSettingError::NotPositive(PlayerRuntimeSettingId::VideoSchedulerDecodedFramesPerTick))
        },
        config.checks()[8] == if config.target_video_decode_ahead@ <= config.max_video_decode_ahead@ {
            Ok::<(), RuntimeSettingError>(())
        } else {
            Err(RuntimeSettingError::DecodeAheadOrder)
        },
        config.checks()[9] == if config.adaptive_catch_up_time_budget@ != 0 {
            Ok::<(), RuntimeSettingError>(())
        } else {
            Err(RuntimeSettingError::NotPositive(PlayerRuntimeSettingId::VideoSchedulerCatchUpBudgetMs))
        },
        config.checks()[10] == if config.seek_fast_preroll_time_budget@ != 0 {
            Ok::<(), RuntimeSettingError>(())
        } else {
            Err(RuntimeSettingError::NotPositive(PlayerRuntimeSettingId::PlayerSeekFastPrerollBudgetMs))
        },
        config.checks()[11] == if config.seek_fast_preroll_video_packet_burst > 0 {
            Ok::<(), RuntimeSettingError>(())
        } else {
            Err(RuntimeSettingError::NotPositive(PlayerRuntimeSettingId::PlayerSeekFastPrerollVideoPacketBurst))
        },
        config.checks()[12] == if (config.audio_buffer_high_water_mark_ms < 0x7FF0_0000_0000_0000 || config.audio_buffer_high_water_mark_ms == 0x8000_0000_0000_0000) {
            Ok::<(), RuntimeSettingError>(())
        } else {
            Err(RuntimeSettingError::NotFiniteNonNegative {
                setting_id: PlayerRuntimeSettingId::AudioBufferTargetMs,
                value: config.audio_buffer_high_water_mark_ms,
            })
        },
        config.checks()[13] == if (config.audio_demux_low_water_mark_ms < 0x7FF0_0000_0000_0000 || config.audio_demux_low_water_mark_ms == 0x8000_0000_0000_0000) {
            Ok::<(), RuntimeSettingError>(())
        } else {
            Err(RuntimeSettingError::NotFiniteNonNegative {
                setting_id: PlayerRuntimeSettingId::AudioBufferTargetMs,
                value: config.audio_demux_low_water_mark_ms,
            })
        },
        config.checks()[14] == if (config.audio_preroll_target_ms < 0x7FF0_0000_0000_0000 || config.audio_preroll_target_ms == 0x8000_0000_0000_0000) {
            Ok::<(), RuntimeSettingError>(())
        } else {
            Err(RuntimeSettingError::NotFiniteNonNegative {
                setting_id: PlayerRuntimeSettingId::PlayerSeekResumeAudioMinBufferMs,
                value: config.audio_preroll_target_ms,
            })
        },
        config.checks()[15] == if config.seek_commit_timeout@ != 0 {
            Ok::<(), RuntimeSettingError>(())
        } else {
            Err(RuntimeSettingError::NotPositive(PlayerRuntimeSettingId::PlayerSeekCommitTimeoutMs))
        },
        config.checks()[16] == if (config.seek_resume_audio_min_buffer_ms < 0x7FF0_0000_0000_0000 || config.seek_resume_audio_min_buffer_ms == 0x8000_0000_0000_0000) {
            Ok::<(), RuntimeSettingError>(())
        } else {
            Err(RuntimeSettingError::NotFiniteNonNegative {
                setting_id: PlayerRuntimeSettingId::PlayerSeekResumeAudioMinBufferMs,
                value: config.seek_resume_audio_min_buffer_ms,
            })
        },
        config.checks()[17] == if config.seek_resume_audio_gate_timeout@ != 0 {
            Ok::<(), RuntimeSettingError>(())
        } else {
            Err(RuntimeSettingError::NotPositive(PlayerRuntimeSettingId::PlayerSeekResumeAudioGateTimeoutMs))
        },
        config.checks()[18] == if config.seek_resume_video_min_ready_frames > 0 {
            Ok::<(), RuntimeSettingError>(())
        } else {
            Err(RuntimeSettingError::NotPositive(PlayerRuntimeSettingId::PlayerSeekResumeVideoMinReadyFrames))
        },
        config.checks()[19] == if (config.video_present_lead_frames < 0x7FF0_0000_0000_0000 || config.video_present_lead_frames == 0x8000_0000_0000_0000) {
            Ok::<(), RuntimeSettingError>(())
        } else {
            Err(RuntimeSettingError::NotFiniteNonNegative {
                setting_id: PlayerRuntimeSettingId::PlayerTickConfig,
                value: config.video_present_lead_frames,
            })
        },
        config.checks()[20] == if (config.video_present_window_frames < 0x7FF0_0000_0000_0000 || config.video_present_window_frames == 0x8000_0000_0000_0000) {
            Ok::<(), RuntimeSettingError>(())
        } else {
            Err(RuntimeSettingError::NotFiniteNonNegative {
                setting_id: PlayerRuntimeSettingId::PlayerTickConfig,
                value: config.video_present_window_frames,
            })
        },
        config.checks()[21] == if (config.video_late_drop_grace_frames < 0x7FF0_0000_0000_0000 || config.video_late_drop_grace_frames == 0x8000_0000_0000_0000) {
            Ok::<(), RuntimeSettingError>(())
        } else {
            Err(RuntimeSettingError::NotFiniteNonNegative {
                setting_id: PlayerRuntimeSettingId::PlayerTickConfig,
                value: config.video_late_drop_grace_frames,
            })
        },
{
    lemma_finite_patterns(config.audio_buffer_high_water_mark_ms);
    lemma_finite_patterns(config.audio_demux_low_water_mark_ms);
    lemma_finite_patterns(config.audio_preroll_target_ms);
    lemma_finite_patterns(config.seek_resume_audio_min_buffer_ms);
    lemma_finite_patterns(config.video_present_lead_frames);
    lemma_finite_patterns(config.video_present_window_frames);
    lemma_finite_patterns(config.video_late_drop_grace_frames);
}

/// The limits of a tick are valid exactly where every count and every time that has to be is above
/// zero, the marks are in order, and the fractional limits are finite numbers from zero on. The
/// error of others is that of the first limit that is not met, in the order of the limits.
pub proof fn law_first_limit_that_is_not_met_is_told(
    config: PlayerTickConfig,
    result: Result<(), RuntimeSettingError>,
)
    requires
        call_ensures(validate_runtime_tick_config, (&config,), result),
    ensures
        result == if !(config.max_demux_packets_per_tick > 0) {
            Err(RuntimeSettingError::NotPositive(PlayerRuntimeSettingId::VideoSchedulerDemuxPacketsPerTick))
        } else if !(config.max_video_present_queue > 0) {
            Err(RuntimeSettingError::NotPositive(PlayerRuntimeSettingId::VideoPresentQueueFrames))
        } else if !((config.min_video_present_queue <= config.target_video_present_queue <= config.max_video_present_queue)) {
            Err(RuntimeSettingError::PresentQueueOrder)
        } else if !((config.min_texture_slots_available_for_decode <= config.target_texture_slots_available_for_decode)) {
            Err(RuntimeSettingError::TextureSlotOrder)
        } else if !(config.max_pending_video_packets > 0) {
            Err(RuntimeSettingError::NotPositive(PlayerRuntimeSettingId::VideoDecoderPacketChannelFrames))
        } else if !(config.decoder_ready_queue_frames > 0) {
            Err(RuntimeSettingError::NotPositive(PlayerRuntimeSettingId::VideoDecoderReadyQueueFrames))
        } else if !(config.max_video_packets_sent_per_tick > 0) {
            Err(RuntimeSettingError::NotPositive(PlayerRuntimeSettingId::VideoSchedulerVideoPacketsPerTick))
        } else if !(config.max_decoded_video_frames_drained_per_tick > 0) {
            Err(RuntimeSettingError::NotPositive(PlayerRuntimeSettingId::VideoSchedulerDecodedFramesPerTick))
        } else if !(config.target_video_decode_ahead@ <= config.max_video_decode_ahead@) {
            Err(RuntimeSettingError::DecodeAheadOrder)
        } else if !(config.adaptive_catch_up_time_budget@ != 0) {
            Err(RuntimeSettingError::NotPositive(PlayerRuntimeSettingId::VideoSchedulerCatchUpBudgetMs))
        } else if !(config.seek_fast_preroll_time_budget@ != 0) {
            Err(RuntimeSettingError::NotPositive(PlayerRuntimeSettingId::PlayerSeekFastPrerollBudgetMs))
        } else if !(config.seek_fast_preroll_video_packet_burst > 0) {
            Err(RuntimeSettingError::NotPositive(PlayerRuntimeSettingId::PlayerSeekFastPrerollVideoPacketBurst))
        } else if !((config.audio_buffer_high_water_mark_ms < 0x7FF0_0000_0000_0000 || config.audio_buffer_high_water_mark_ms == 0x8000_0000_0000_0000)) {
            Err(RuntimeSettingError::NotFiniteNonNegative {
                setting_id: PlayerRuntimeSettingId::AudioBufferTargetMs,
                value: config.audio_buffer_high_water_mark_ms,
            })
        } else if !((config.audio_demux_low_water_mark_ms < 0x7FF0_0000_0000_0000 || config.audio_demux_low_water_mark_ms == 0x8000_0000_0000_0000)) {
            Err(RuntimeSettingError::NotFiniteNonNegative {
                setting_id: PlayerRuntimeSettingId::AudioBufferTargetMs,
                value: config.audio_demux_low_water_mark_ms,
            })
        } else if !((config.audio_preroll_target_ms < 0x7FF0_0000_0000_0000 || config.audio_preroll_target_ms == 0x8000_0000_0000_0000)) {
            Err(RuntimeSettingError::NotFiniteNonNegative {
                setting_id: PlayerRuntimeSettingId::PlayerSeekResumeAudioMinBufferMs,
                value: config.audio_preroll_target_ms,
            })
        } else if !(config.seek_commit_timeout@ != 0) {
            Err(RuntimeSettingError::NotPositive(PlayerRuntimeSettingId::PlayerSeekCommitTimeoutMs))
        } else if !((config.seek_resume_audio_min_buffer_ms < 0x7FF0_0000_0000_0000 || config.seek_resume_audio_min_buffer_ms == 0x8000_0000_0000_0000)) {
            Err(RuntimeSettingError::NotFiniteNonNegative {
                setting_id: PlayerRuntimeSettingId::PlayerSeekResumeAudioMinBufferMs,
                value: config.seek_resume_audio_min_buffer_ms,
            })
        } else if !(config.seek_resume_audio_gate_timeout@ != 0) {
            Err(RuntimeSettingError::NotPositive(PlayerRuntimeSettingId::PlayerSeekResumeAudioGateTimeoutMs))
        } else if !(config.seek_resume_video_min_ready_frames > 0) {
            Err(RuntimeSettingError::NotPositive(PlayerRuntimeSettingId::PlayerSeekResumeVideoMinReadyFrames))
        } else if !((config.video_present_lead_frames < 0x7FF0_0000_0000_0000 || config.video_present_lead_frames == 0x8000_0000_0000_0000)) {
            Err(RuntimeSettingError::NotFiniteNonNegative {
                setting_id: PlayerRuntimeSettingId::PlayerTickConfig,
                value: config.video_present_lead_frames,
            })
        } else if !((config.video_present_window_frames < 0x7FF0_0000_0000_0000 || config.video_present_window_frames == 0x8000_0000_0000_0000)) {
            Err(RuntimeSettingError::NotFiniteNonNegative {
                setting_id: PlayerRuntimeSettingId::PlayerTickConfig,
                value: config.video_present_window_frames,
            })
        } else if !((config.video_late_drop_grace_frames < 0x7FF0_0000_0000_0000 || config.video_late_drop_grace_frames == 0x8000_0000_0000_0000)) {
            Err(RuntimeSettingError::NotFiniteNonNegative {
                setting_id: PlayerRuntimeSettingId::PlayerTickConfig,
                value: config.video_late_drop_grace_frames,
            })
        } else {
            Ok(())
        },
{
    lemma_limits_are_checked(config);
    lemma_limits(config, config.checks());
}

/// The settings that an update names, group after group, as often as they are named.
pub open spec fn named_settings<D, C>(update: PlayerRuntimeSettingsUpdate<D, C>) -> Seq<
    PlayerRuntimeSettingId,
> {
    (if update.tick_config is Some {
        update.tick_config->0.affected_settings@
    } else {
        Seq::empty()
    }) +     (if update.default_volume is Some {
        update.default_volume->0.affected_settings@
    } else {
        Seq::empty()
    }) +     (if update.audio_output_recreate is Some {
        update.audio_output_recreate->0.affected_settings@
    } else {
        Seq::empty()
    }) +     (if update.decoder_thread_config is Some {
        update.decoder_thread_config->0.affected_settings@
    } else {
        Seq::empty()
    }) +     (if update.video_backend is Some {
        update.video_backend->0.affected_settings@
    } else {
        Seq::empty()
    }) +     (if update.frame_server_policy is Some {
        update.frame_server_policy->0.affected_settings@
    } else {
        Seq::empty()
    })
}

/// Whether a setting is named before another one is named first.
pub open spec fn comes_before(
    all: Seq<PlayerRuntimeSettingId>,
    former: PlayerRuntimeSettingId,
    latter: PlayerRuntimeSettingId,
) -> bool {
    exists|p: int|
        0 <= p < all.len() && #[trigger] all[p] == former && forall|q: int|
            0 <= q <= p ==> #[trigger] all[q] != latter
}

/// An update tells every setting that one of its groups names, and no other, once, in the order in
/// which they are named first: of two settings that it tells, the former is named before the first
/// mention of the latter.
pub proof fn law_affected_settings_come_in_the_order_of_their_first_mention<D, C>(
    update: PlayerRuntimeSettingsUpdate<D, C>,
    told: Vec<PlayerRuntimeSettingId>,
)
    requires
        call_ensures(PlayerRuntimeSettingsUpdate::<D, C>::affected_settings, (&update,), told),
    ensures
        told@.no_duplicates(),
        forall|setting: PlayerRuntimeSettingId| #[trigger]
            told@.contains(setting) <==> named_settings(update).contains(setting),
        forall|i: int, j: int|
            #![trigger told@[i], told@[j]]
            0 <= i < j < told@.len() ==> comes_before(named_settings(update), told@[i], told@[j]),
{
    let g0 = update.tick_config_settings();
    let g1 = update.default_volume_settings();
    let g2 = update.audio_output_recreate_settings();
    let g3 = update.decoder_thread_config_settings();
    let g4 = update.video_backend_settings();
    let g5 = update.frame_server_policy_settings();
    let none = Seq::<PlayerRuntimeSettingId>::empty();
    lemma_extended_unique_concat(none, g0, g1);
    lemma_extended_unique_concat(none, g0 + g1, g2);
    lemma_extended_unique_concat(none, g0 + g1 + g2, g3);
    lemma_extended_unique_concat(none, g0 + g1 + g2 + g3, g4);
    lemma_extended_unique_concat(none, g0 + g1 + g2 + g3 + g4, g5);
    assert(named_settings(update) =~= g0 + g1 + g2 + g3 + g4 + g5);
    assert(told@ == extended_unique(none, named_settings(update)));
    lemma_extended_unique(none, named_settings(update));
    lemma_order_of_first_mention(named_settings(update));
}

proof fn lemma_extended_unique_concat(
    known: Seq<PlayerRuntimeSettingId>,
    first: Seq<PlayerRuntimeSettingId>,
    second: Seq<PlayerRuntimeSettingId>,
)
    ensures
        extended_unique(extended_unique(known, first), second) == extended_unique(
            known,
            first + second,
        ),
    decreases second.len(),
{
    if second.len() == 0 {
        assert(first + second =~= first);
    } else {
        lemma_extended_unique_concat(known, first, second.drop_last());
        assert((first + second).drop_last() =~= first + second.drop_last());
        assert((first + second).last() == second.last());
    }
}

proof fn lemma_order_of_first_mention(all: Seq<PlayerRuntimeSettingId>)
    ensures
        ({
            let told = extended_unique(Seq::empty(), all);
            forall|i: int, j: int|
                #![trigger told[i], told[j]]
                0 <= i < j < told.len() ==> comes_before(all, told[i], told[j])
        }),
    decreases all.len(),
{
    if all.len() > 0 {
        let shorter = all.drop_last();
        let before = extended_unique(Seq::empty(), shorter);
        let told = extended_unique(Seq::empty(), all);
        lemma_order_of_first_mention(shorter);
        lemma_extended_unique(Seq::empty(), shorter);
        assert forall|i: int, j: int|
            #![trigger told[i], told[j]]
            0 <= i < j < told.len() implies comes_before(all, told[i], told[j]) by {
            assert(told[i] == before[i]);
            if j < before.len() {
                assert(told[j] == before[j]);
                assert(comes_before(shorter, before[i], before[j]));
                let p = choose|p: int|
                    0 <= p < shorter.len() && #[trigger] shorter[p] == before[i] && forall|q: int|
                        0 <= q <= p ==> #[trigger] shorter[q] != before[j];
                assert(all[p] == told[i]);
                assert forall|q: int| 0 <= q <= p implies #[trigger] all[q] != told[j] by {
                    assert(shorter[q] == all[q]);
                }
            } else {
                assert(before.contains(before[i]));
                let p = choose|p: int| 0 <= p < shorter.len() && shorter[p] == before[i];
                assert(all[p] == told[i]);
                assert forall|q: int| 0 <= q <= p implies #[trigger] all[q] != told[j] by {
                    assert(shorter[q] == all[q]);
                    assert(shorter.contains(shorter[q]));
                    assert(before.contains(shorter[q]));
                }
            }
        }
    }
}

/// A change of `tick_config` names the settings that led to it, or its own setting where none is
/// named, and leaves every other group as it was.
pub proof fn law_change_of_tick_config_names_its_settings<D, C>(
    before: PlayerRuntimeSettingsUpdate<D, C>,
    after: PlayerRuntimeSettingsUpdate<D, C>,
    value: PlayerTickConfig,
    named: Vec<PlayerRuntimeSettingId>,
    nothing: bool,
)
    requires
        call_ensures(PlayerRuntimeSettingsUpdate::<D, C>::with_tick_config, (before, value, named), after),
        call_ensures(PlayerRuntimeSettingsUpdate::<D, C>::is_empty, (&after,), nothing),
    ensures
        !nothing,
        after.tick_config is Some && after.tick_config->0.tick_config == value,
        named@.len() > 0 ==> after.tick_config->0.affected_settings@ == named@,
        named@.len() == 0 ==> after.tick_config->0.affected_settings@ == seq![
            PlayerRuntimeSettingId::PlayerTickConfig,
        ],
        after.default_volume == before.default_volume,
        after.audio_output_recreate == before.audio_output_recreate,
        after.decoder_thread_config == before.decoder_thread_config,
        after.video_backend == before.video_backend,
        after.frame_server_policy == before.frame_server_policy,
{
}

/// A change of `default_volume` names the settings that led to it, or its own setting where none is
/// named, and leaves every other group as it was.
pub proof fn law_change_of_default_volume_names_its_settings<D, C>(
    before: PlayerRuntimeSettingsUpdate<D, C>,
    after: PlayerRuntimeSettingsUpdate<D, C>,
    value: u32,
    named: Vec<PlayerRuntimeSettingId>,
    nothing: bool,
)
    requires
        call_ensures(PlayerRuntimeSettingsUpdate::<D, C>::with_default_volume, (before, value, named), after),
        call_ensures(PlayerRuntimeSettingsUpdate::<D, C>::is_empty, (&after,), nothing),
    ensures
        !nothing,
        after.default_volume is Some && after.default_volume->0.default_volume == value,
        named@.len() > 0 ==> after.default_volume->0.affected_settings@ == named@,
        named@.len() == 0 ==> after.default_volume->0.affected_settings@ == seq![
            PlayerRuntimeSettingId::AudioDefaultVolume,
        ],
        after.tick_config == before.tick_config,
        after.audio_output_recreate == before.audio_output_recreate,
        after.decoder_thread_config == before.decoder_thread_config,
        after.video_backend == before.video_backend,
        after.frame_server_policy == before.frame_server_policy,
{
}

/// A change of `decoder_thread_config` names the settings that led to it, or its own setting where none is
/// named, and leaves every other group as it was.
pub proof fn law_change_of_decoder_thread_config_names_its_settings<D, C>(
    before: PlayerRuntimeSettingsUpdate<D, C>,
    after: PlayerRuntimeSettingsUpdate<D, C>,
    value: D,
    named: Vec<PlayerRuntimeSettingId>,
    nothing: bool,
)
    requires
        call_ensures(PlayerRuntimeSettingsUpdate::<D, C>::with_decoder_thread_config, (before, value, named), after),
        call_ensures(PlayerRuntimeSettingsUpdate::<D, C>::is_empty, (&after,), nothing),
    ensures
        !nothing,
        after.decoder_thread_config is Some && after.decoder_thread_config->0.decoder_thread_config == value,
        named@.len() > 0 ==> after.decoder_thread_config->0.affected_settings@ == named@,
        named@.len() == 0 ==> after.decoder_thread_config->0.affected_settings@ == seq![
            PlayerRuntimeSettingId::PlayerDecoderThreadConfig,
        ],
        after.tick_config == before.tick_config,
        after.default_volume == before.default_volume,
        after.audio_output_recreate == before.audio_output_recreate,
        after.video_backend == before.video_backend,
        after.frame_server_policy == before.frame_server_policy,
{
}

/// A change of `video_backend` names the settings that led to it, or its own setting where none is
/// named, and leaves every other group as it was.
pub proof fn law_change_of_video_backend_names_its_settings<D, C>(
    before: PlayerRuntimeSettingsUpdate<D, C>,
    after: PlayerRuntimeSettingsUpdate<D, C>,
    value: PlayerRuntimeVideoBackendPreference,
    named: Vec<PlayerRuntimeSettingId>,
    nothing: bool,
)
    requires
        call_ensures(PlayerRuntimeSettingsUpdate::<D, C>::with_video_backend, (before, value, named), after),
        call_ensures(PlayerRuntimeSettingsUpdate::<D, C>::is_empty, (&after,), nothing),
    ensures
        !nothing,
        after.video_backend is Some && after.video_backend->0.preference == value,
        named@.len() > 0 ==> after.video_backend->0.affected_settings@ == named@,
        named@.len() == 0 ==> after.video_backend->0.affected_settings@ == seq![
            PlayerRuntimeSettingId::VideoPreferredBackend,
        ],
        after.tick_config == before.tick_config,
        after.default_volume == before.default_volume,
        after.audio_output_recreate == before.audio_output_recreate,
        after.decoder_thread_config == before.decoder_thread_config,
        after.frame_server_policy == before.frame_server_policy,
{
}

/// A change of `frame_server_policy` names the settings that led to it, or its own setting where none is
/// named, and leaves every other group as it was.
pub proof fn law_change_of_frame_server_policy_names_its_settings<D, C>(
    before: PlayerRuntimeSettingsUpdate<D, C>,
    after: PlayerRuntimeSettingsUpdate<D, C>,
    value: C,
    named: Vec<PlayerRuntimeSettingId>,
    nothing: bool,
)
    requires
        call_ensures(PlayerRuntimeSettingsUpdate::<D, C>::with_frame_server_policy, (before, value, named), after),
        call_ensures(PlayerRuntimeSettingsUpdate::<D, C>::is_empty, (&after,), nothing),
    ensures
        !nothing,
        after.frame_server_policy is Some && after.frame_server_policy->0.frame_server_config == value,
        named@.len() > 0 ==> after.frame_server_policy->0.affected_settings@ == named@,
        named@.len() == 0 ==> after.frame_server_policy->0.affected_settings@ == seq![
            PlayerRuntimeSettingId::FrameServerLiveScrubMaxHz,
        ],
        after.tick_config == before.tick_config,
        after.default_volume == before.default_volume,
        after.audio_output_recreate == before.audio_output_recreate,
        after.decoder_thread_config == before.decoder_thread_config,
        after.video_backend == before.video_backend,
{
}

/// A report of groups is accepted exactly where it has a group and each of them was accepted: one
/// more group keeps it so where it was, or is the first, and was accepted.
pub proof fn law_report_is_accepted_with_all_its_groups(
    before: PlayerRuntimeApplyReport,
    after: PlayerRuntimeApplyReport,
    group: PlayerRuntimeApplyGroupReport,
    accepted_before: bool,
    accepted: bool,
    group_accepted: bool,
)
    requires
        call_ensures(
            PlayerRuntimeApplyReport::all_groups_accepted,
            (&before,),
            accepted_before,
        ),
        exists|report: &mut PlayerRuntimeApplyReport|
            *report == before && *final(report) == after && #[trigger] call_ensures(
                PlayerRuntimeApplyReport::push,
                (report, group),
                (),
            ),
        call_ensures(PlayerRuntimeApplyReport::all_groups_accepted, (&after,), accepted),
        call_ensures(PlayerRuntimeApplyOutcome::is_accepted, (group.outcome,), group_accepted),
    ensures
        accepted <==> group_accepted && (accepted_before || before.groups@.len() == 0),
        before.groups@.len() == 0 ==> !accepted_before,
{
    let n = before.groups@.len() as int;
    assert(after.groups@[n] == group);
    if accepted {
        assert forall|i: int| 0 <= i < n implies (#[trigger] before.groups@[i]).outcome
            is Accepted by {
            assert(after.groups@[i] == before.groups@[i]);
        }
    }
}

/// The texts of the errors of a change.
pub proof fn law_errors_of_a_change_are_told(
    error: PlayerRuntimeApplyError,
    text: String,
    activity: PlayerRuntimeBoundaryActivity,
    name: &'static str,
)
    requires
        call_ensures(PlayerRuntimeApplyError::message, (&error,), text),
        call_ensures(PlayerRuntimeBoundaryActivity::name, (activity,), name),
    ensures
        activity is Seek ==> name@ == "Seek"@,
        activity is Scrub ==> name@ == "Scrub"@,
        activity is PipelineLifecycle ==> name@ == "PipelineLifecycle"@,
        error is Backpressure ==> text@ == "player runtime apply queue is full"@,
        error is Disconnected ==> text@ == "player runtime apply worker is disconnected"@,
        error == PlayerRuntimeApplyError::RuntimeBusy(activity) ==> text@
            == "player runtime boundary is busy: "@ + name@,
        error matches PlayerRuntimeApplyError::ApplyAndRollbackFailed {
            apply_error,
            rollback_error,
        } ==> text@ == "player runtime apply failed: "@ + apply_error@ + "; rollback failed: "@
            + rollback_error@,
        error matches PlayerRuntimeApplyError::Fatal(message) ==> text@
            == "player runtime apply failed: "@ + message@,
{
}

/// The texts of the errors of a value: they name the setting by its path, and tell the value.
pub proof fn law_errors_of_a_value_are_told(
    error: RuntimeSettingError,
    value: &str,
    text: String,
    setting: PlayerRuntimeSettingId,
    path: &'static str,
)
    requires
        call_ensures(RuntimeSettingError::message, (&error, value), text),
        call_ensures(PlayerRuntimeSettingId::as_str, (setting,), path),
    ensures
        error == RuntimeSettingError::NotPositive(setting) ==> text@ == path@
            + " must be greater than zero"@,
        error is PresentQueueOrder ==> text@
            == "video present queue watermarks must satisfy min <= target <= max"@,
        error is TextureSlotOrder ==> text@ == "texture-slot watermarks must satisfy min <= target"@,
        error is DecodeAheadOrder ==> text@ == "video decode-ahead must satisfy target <= max"@,
        error is NotFiniteNonNegative && error->setting_id == setting ==> text@ == path@
            + " must be a finite non-negative value, got "@ + value@,
        error is VolumeOutOfRange ==> text@
            == "default volume must be finite and within 0.0..=1.0, got "@ + value@,
{
}

} // verus!
