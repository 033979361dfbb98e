//! Audio on its way from the decoder to the device.
use crate::media::TrackId;
use crate::playback_rate::PlaybackRate;
use crate::time::Duration;
use vstd::prelude::*;

verus! {

/// Length of the history that a new tempo processor may take in, in milliseconds.
pub const PASSTHROUGH_AUDIO_HISTORY_MAX_MS: u64 = 600;

/// The channels of a frame. Layouts with as many channels at other places are not the same.
#[derive(Debug, Clone, Copy, PartialEq, Eq, Structural)]
pub struct AudioChannelLayout {
    /// Samples per frame.
    pub channels: u32,
    /// Places of the channels, one bit each; none where the places are not known.
    pub positions: u64,
}

impl AudioChannelLayout {
    /// The layout of channels at given places.
    pub fn new(channels: u32, positions: u64) -> (r: Self)
        ensures
            r == (AudioChannelLayout { channels, positions }),
    {
        AudioChannelLayout { channels, positions }
    }
}

/// Form of audio samples.
#[derive(Debug, Clone, Copy, PartialEq, Eq, Structural)]
pub struct AudioOutputSpec {
    /// Frames per second.
    pub sample_rate: u32,
    /// Channels of a frame.
    pub channel_layout: AudioChannelLayout,
}

impl AudioOutputSpec {
    /// The form with the given rate and channels.
    pub fn new(sample_rate: u32, channel_layout: AudioChannelLayout) -> (r: Self)
        ensures
            r == (AudioOutputSpec { sample_rate, channel_layout }),
    {
        AudioOutputSpec { sample_rate, channel_layout }
    }

    /// The number of samples per frame.
    pub open spec fn spec_channels(self) -> u32 {
        self.channel_layout.channels
    }

    /// The number of samples per frame.
    pub fn channels(self) -> (r: u32)
        ensures
            r == self.spec_channels(),
    {
        self.channel_layout.channels
    }
}

/// Form of the samples that a tempo processor takes. There are some samples per frame and some
/// frames per second.
#[derive(Debug, Clone, Copy, PartialEq, Eq, Structural)]
pub struct AudioTempoPcmFormat {
    /// Frames per second.
    pub sample_rate: u32,
    /// Samples per frame.
    pub channels: u32,
}

impl AudioTempoPcmFormat {
    /// The form of decoded samples, where a tempo processor can take them.
    pub fn from_audio_output_spec(spec: AudioOutputSpec) -> (r: Option<Self>)
        ensures
            r == if spec.sample_rate > 0 && spec.spec_channels() > 0 {
                Some(
                    AudioTempoPcmFormat {
                        sample_rate: spec.sample_rate,
                        channels: spec.spec_channels(),
                    },
                )
            } else {
                None
            },
    {
        if spec.sample_rate > 0 && spec.channels() > 0 {
            Some(AudioTempoPcmFormat { sample_rate: spec.sample_rate, channels: spec.channels() })
        } else {
            None
        }
    }
}

/// Whether samples have gone through a tempo processor.
#[derive(Debug, Clone, Copy, PartialEq, Eq, Structural)]
pub enum AudioOutputWriteIntent {
    /// As they were decoded.
    DirectDecodedPcm,
    /// From a tempo processor.
    TempoProcessed,
}

/// A run of audio at one tempo.
#[derive(Debug, Clone, Copy, PartialEq, Eq, Structural)]
pub struct AudioTempoSegment {
    /// Number of the run.
    pub segment_id: u64,
    /// Rate of playback.
    pub playback_rate: PlaybackRate,
}

/// What is needed to make an audio decoder.
#[derive(Debug, PartialEq, Eq)]
pub struct AudioDecoderConfig {
    /// Track to decode.
    pub track_id: TrackId,
    /// Name of the compression format in the container.
    pub codec_id: String,
    /// Frames per second, where they are known.
    pub sample_rate: Option<u32>,
    /// Samples per frame, where they are known.
    pub channels: Option<u32>,
}

impl AudioDecoderConfig {
    /// What the container says of a track.
    pub fn from_track_metadata(
        track_id: TrackId,
        codec_id: String,
        sample_rate: Option<u32>,
        channels: Option<u32>,
    ) -> (r: Self)
        ensures
            r == (AudioDecoderConfig { track_id, codec_id, sample_rate, channels }),
    {
        AudioDecoderConfig { track_id, codec_id, sample_rate, channels }
    }
}

impl Clone for AudioDecoderConfig {
    fn clone(&self) -> (r: Self)
        ensures
            r == *self,
    {
        AudioDecoderConfig {
            track_id: self.track_id,
            codec_id: self.codec_id.clone(),
            sample_rate: self.sample_rate,
            channels: self.channels,
        }
    }
}

/// How far the audio of the selected track is ready after a seek.
#[derive(Debug, Clone, Copy, PartialEq, Eq, Structural)]
pub enum AudioSeekRuntimeState {
    /// No audio track is selected.
    NoSelectedAudio,
    /// There is no decoder yet.
    WaitingForDecoder,
    /// There is a decoder and no device yet.
    WaitingForOutput,
    /// There are both.
    Ready,
}

/// How far the audio of the selected track is ready.
pub open spec fn audio_readiness(track: bool, decoder: bool, output: bool) -> AudioSeekRuntimeState {
    if !track {
        AudioSeekRuntimeState::NoSelectedAudio
    } else if !decoder {
        AudioSeekRuntimeState::WaitingForDecoder
    } else if !output {
        AudioSeekRuntimeState::WaitingForOutput
    } else {
        AudioSeekRuntimeState::Ready
    }
}

/// How far the audio of the selected track is ready.
pub fn audio_seek_runtime_state_from_slots(
    audio_track_selected: bool,
    audio_decoder_installed: bool,
    audio_output_installed: bool,
) -> (r: AudioSeekRuntimeState)
    ensures
        r == audio_readiness(audio_track_selected, audio_decoder_installed, audio_output_installed),
{
    if !audio_track_selected {
        return AudioSeekRuntimeState::NoSelectedAudio;
    }
    if !audio_decoder_installed {
        return AudioSeekRuntimeState::WaitingForDecoder;
    }
    if !audio_output_installed {
        return AudioSeekRuntimeState::WaitingForOutput;
    }
    AudioSeekRuntimeState::Ready
}

/// What is left to be heard after the end of the stream. Levels are milliseconds, as the bit
/// pattern of a double-precision number.
#[derive(Debug, Clone, Copy, PartialEq, Eq, Structural)]
pub enum AudioEofDrainState {
    /// No audio track is selected.
    NoSelectedAudio,
    /// Packets wait to be decoded.
    PendingPackets {
        /// Number of packets.
        queued_packets: usize,
    },
    /// There is no device.
    NoOutput,
    /// The device has something left.
    DrainingOutput {
        /// How much is left.
        buffer_level_ms: u64,
        /// Whether the device was started.
        playback_requested: bool,
    },
    /// The device has nothing left.
    DrainedOutput {
        /// Whether the device was started.
        playback_requested: bool,
    },
}

/// The bit pattern of double-precision infinity. Patterns of numbers from zero on lie below it,
/// in the order of the numbers.
pub const DOUBLE_INFINITY_BITS: u64 = 0x7FF0_0000_0000_0000;

/// How much a device has left: the larger of its buffer and of what it has been given, where
/// the buffer's level is a number at all. Bit patterns of double-precision numbers.
pub open spec fn output_level(buffer_level: u64, submitted_tail: u64) -> u64 {
    if buffer_level < DOUBLE_INFINITY_BITS && buffer_level > submitted_tail {
        buffer_level
    } else {
        submitted_tail
    }
}

/// Whether a bit pattern is that of a finite number above zero.
pub open spec fn is_positive_level(level: u64) -> bool {
    0 < level < DOUBLE_INFINITY_BITS
}

/// What is left to be heard after the end of the stream: something is left where the device's
/// clock has a tail, or where the level of its buffer is a number above zero.
pub open spec fn eof_drain_state(
    track_selected: bool,
    queued_packets: usize,
    levels: Option<AudioOutputLevels>,
    playback_requested: bool,
) -> AudioEofDrainState {
    if !track_selected {
        AudioEofDrainState::NoSelectedAudio
    } else if queued_packets > 0 {
        AudioEofDrainState::PendingPackets { queued_packets }
    } else {
        match levels {
            None => AudioEofDrainState::NoOutput,
            Some(levels) => {
                if levels.submitted_tail@ != 0 || is_positive_level(levels.buffer_level_ms) {
                    AudioEofDrainState::DrainingOutput {
                        buffer_level_ms: output_level(
                            levels.buffer_level_ms,
                            levels.submitted_tail_ms,
                        ),
                        playback_requested,
                    }
                } else {
                    AudioEofDrainState::DrainedOutput { playback_requested }
                }
            },
        }
    }
}

/// How much a device holds.
#[derive(Debug, Clone, Copy, PartialEq, Eq, Structural)]
pub struct AudioOutputLevels {
    /// Level of the buffer, as the bit pattern of double-precision milliseconds.
    pub buffer_level_ms: u64,
    /// What has been given and not played, by the device's clock.
    pub submitted_tail: Duration,
    /// The same, as the bit pattern of double-precision milliseconds.
    pub submitted_tail_ms: u64,
}

/// What is left to be heard after the end of the stream, by what a device says of itself.
pub fn audio_eof_drain_state_from_levels(
    track_selected: bool,
    queued_packets: usize,
    levels: Option<AudioOutputLevels>,
    playback_requested: bool,
) -> (r: AudioEofDrainState)
    ensures
        r == eof_drain_state(track_selected, queued_packets, levels, playback_requested),
{
    if !track_selected {
        return AudioEofDrainState::NoSelectedAudio;
    }
    if queued_packets > 0 {
        return AudioEofDrainState::PendingPackets { queued_packets };
    }
    let levels = match levels {
        Some(levels) => levels,
        None => {
            return AudioEofDrainState::NoOutput;
        },
    };
    let buffer_is_number = levels.buffer_level_ms < DOUBLE_INFINITY_BITS;
    if levels.submitted_tail.is_zero() && !(buffer_is_number && levels.buffer_level_ms > 0) {
        return AudioEofDrainState::DrainedOutput { playback_requested };
    }
    let buffer_level_ms: u64 = if buffer_is_number && levels.buffer_level_ms
        > levels.submitted_tail_ms {
        levels.buffer_level_ms
    } else {
        levels.submitted_tail_ms
    };
    AudioEofDrainState::DrainingOutput { buffer_level_ms, playback_requested }
}

/// What became of samples on the way to the device.
#[derive(Debug, PartialEq, Eq)]
pub enum AudioOutputRoutingStatus<R, E> {
    /// There is no device.
    AudioOutputAbsent,
    /// The device took them.
    Written(R),
    /// The device did not take them.
    WriteFailed(E),
}

/// What became of samples on the way to the device, by what the device answered.
pub open spec fn status_of<R, E>(
    write_result: Option<Result<R, E>>,
) -> AudioOutputRoutingStatus<R, E> {
    match write_result {
        None => AudioOutputRoutingStatus::AudioOutputAbsent,
        Some(Ok(report)) => AudioOutputRoutingStatus::Written(report),
        Some(Err(error)) => AudioOutputRoutingStatus::WriteFailed(error),
    }
}

/// What became of samples on the way to the device, by what the device answered.
pub fn routing_status<R, E>(write_result: Option<Result<R, E>>) -> (r: AudioOutputRoutingStatus<
    R,
    E,
>)
    ensures
        r == status_of(write_result),
{
    match write_result {
        None => AudioOutputRoutingStatus::AudioOutputAbsent,
        Some(Ok(report)) => AudioOutputRoutingStatus::Written(report),
        Some(Err(error)) => AudioOutputRoutingStatus::WriteFailed(error),
    }
}

/// Samples that went through the tempo processor.
#[derive(Debug, PartialEq, Eq)]
pub struct RoutedAudioTempoOutput<T, R, E> {
    /// What the processor says of them.
    pub report: T,
    /// What became of them.
    pub write_status: AudioOutputRoutingStatus<R, E>,
}

/// A packet that was decoded.
#[derive(Debug, PartialEq, Eq)]
pub enum DecodedAudioPacket<S> {
    /// It held no samples.
    Empty,
    /// It held samples.
    Pcm {
        /// Samples, frame by frame.
        samples: Vec<S>,
        /// Their form.
        output_spec: AudioOutputSpec,
    },
}

/// Why a packet could not be decoded.
#[derive(Debug, PartialEq, Eq)]
pub enum AudioDecodeFailure<E> {
    /// The decoder failed.
    Decoder(E),
    /// The decoder gave samples and did not say in which form.
    MissingOutputSpec,
}

impl<E> AudioDecodeFailure<E> {
    /// The text of an error that is not the decoder's.
    pub fn message(&self) -> (r: Option<&'static str>)
        ensures
            match self {
                AudioDecodeFailure::MissingOutputSpec => r matches Some(text) && text@
                    == "Audio decoder produced PCM without a complete sample-rate/channel-layout spec"@,
                AudioDecodeFailure::Decoder(_) => r is None,
            },
    {
        match self {
            AudioDecodeFailure::MissingOutputSpec => {
                Some("Audio decoder produced PCM without a complete sample-rate/channel-layout spec")
            },
            AudioDecodeFailure::Decoder(_) => None,
        }
    }
}

/// What a decoder's answer means.
pub open spec fn decode_outcome<S, E>(
    decoded: Result<Vec<S>, E>,
    spec: Option<AudioOutputSpec>,
) -> Result<DecodedAudioPacket<S>, AudioDecodeFailure<E>> {
    match decoded {
        Err(error) => Err(AudioDecodeFailure::Decoder(error)),
        Ok(samples) => if samples@.len() == 0 {
            Ok(DecodedAudioPacket::Empty)
        } else {
            match spec {
                None => Err(AudioDecodeFailure::MissingOutputSpec),
                Some(output_spec) => Ok(DecodedAudioPacket::Pcm { samples, output_spec }),
            }
        },
    }
}

/// What a decoder's answer means.
pub fn decoded_audio_packet<S, E>(
    decoded: Result<Vec<S>, E>,
    spec: Option<AudioOutputSpec>,
) -> (r: Result<DecodedAudioPacket<S>, AudioDecodeFailure<E>>)
    ensures
        r == decode_outcome(decoded, spec),
{
    match decoded {
        Err(error) => Err(AudioDecodeFailure::Decoder(error)),
        Ok(samples) => {
            if samples.len() == 0 {
                return Ok(DecodedAudioPacket::Empty);
            }
            match spec {
                None => Err(AudioDecodeFailure::MissingOutputSpec),
                Some(output_spec) => Ok(DecodedAudioPacket::Pcm { samples, output_spec }),
            }
        },
    }
}

/// The least multiple of `step` that is not below `value`.
pub open spec fn next_multiple(value: int, step: int) -> int {
    ((value + step - 1) / step) * step
}

/// The number of samples that the history may hold.
pub open spec fn history_budget(sample_rate: u32, channels: u32) -> int {
    let frames = (sample_rate * PASSTHROUGH_AUDIO_HISTORY_MAX_MS + 999) / 1000;
    let samples = frames * channels;
    if samples > usize::MAX {
        usize::MAX as int
    } else {
        samples
    }
}

/// How many samples at the start of the history are too many: whole frames, as few as possible.
pub open spec fn history_surplus(length: int, spec: AudioOutputSpec) -> int {
    let budget = history_budget(spec.sample_rate, spec.spec_channels());
    let surplus = next_multiple(length - budget, spec.spec_channels() as int);
    if length <= budget {
        0
    } else if surplus > length {
        length
    } else {
        surplus
    }
}

/// The history with more samples, cut at its start to what it may hold.
pub open spec fn history_with<S>(known: Seq<S>, samples: Seq<S>, spec: AudioOutputSpec) -> Seq<S> {
    let all = known + samples;
    all.skip(history_surplus(all.len() as int, spec))
}

/// The number of samples of a form that the history may hold.
pub fn passthrough_audio_history_max_samples(sample_rate: u32, channels: u32) -> (r: usize)
    ensures
        r == history_budget(sample_rate, channels),
{
    let frames: u64 = (sample_rate as u64 * PASSTHROUGH_AUDIO_HISTORY_MAX_MS + 999) / 1000;
    assert(frames <= 2_576_980_377);
    assert(frames * channels <= 2_576_980_377 * 0xFFFF_FFFF) by (nonlinear_arith)
        requires
            0 <= frames <= 2_576_980_377,
            0 <= channels <= 0xFFFF_FFFF,
    ;
    let samples: u64 = frames * channels as u64;
    if samples > usize::MAX as u64 {
        usize::MAX
    } else {
        samples as usize
    }
}

/// Samples that went to the device as they were decoded. A new tempo processor takes them in,
/// so that it does not start from nothing.
#[derive(Debug)]
pub struct PassthroughAudioHistory<S> {
    /// Samples, the latest last.
    pub samples: Vec<S>,
    /// Their form.
    pub spec: Option<AudioOutputSpec>,
}

impl<S> PassthroughAudioHistory<S> {
    /// A history without samples.
    pub fn new() -> (r: Self)
        ensures
            r.samples@ == Seq::<S>::empty(),
            r.spec is None,
    {
        PassthroughAudioHistory { samples: Vec::new(), spec: None }
    }

    /// Forgets all samples.
    pub fn clear_passthrough_audio_history(&mut self)
        ensures
            final(self).samples@ == Seq::<S>::empty(),
            final(self).spec is None,
    {
        self.samples.clear();
        self.spec = None;
    }

    /// Hands the samples over and forgets them. Samples of another form are not handed over.
    pub fn take_passthrough_audio_history_for_priming(&mut self, output_spec: AudioOutputSpec) -> (r:
        Vec<S>)
        ensures
            r@ == if old(self).spec == Some(output_spec) {
                old(self).samples@
            } else {
                Seq::<S>::empty()
            },
            final(self).samples@ == Seq::<S>::empty(),
            final(self).spec is None,
    {
        let mut history: Vec<S> = Vec::new();
        std::mem::swap(&mut history, &mut self.samples);
        let matches_spec = match self.spec {
            Some(spec) => spec == output_spec,
            None => false,
        };
        self.spec = None;
        if matches_spec {
            history
        } else {
            Vec::new()
        }
    }

    /// The form of the samples for a tempo processor.
    pub fn passthrough_audio_history_pcm_format(&self) -> (r: Option<AudioTempoPcmFormat>)
        ensures
            r == match self.spec {
                None => None,
                Some(spec) => if spec.sample_rate > 0 && spec.spec_channels() > 0 {
                    Some(
                        AudioTempoPcmFormat {
                            sample_rate: spec.sample_rate,
                            channels: spec.spec_channels(),
                        },
                    )
                } else {
                    None
                },
            },
    {
        match self.spec {
            Some(spec) => AudioTempoPcmFormat::from_audio_output_spec(spec),
            None => None,
        }
    }
}

impl<S: Copy> PassthroughAudioHistory<S> {
    /// Adds samples, and cuts the history at its start to what it may hold. Samples of another
    /// form than before start a new history; a form without frames or without samples adds
    /// nothing.
    pub fn record_passthrough_audio_history(&mut self, samples: &[S], output_spec: AudioOutputSpec)
        ensures
            output_spec.sample_rate == 0 || output_spec.spec_channels() == 0 || samples@.len() == 0
                ==> *final(self) == *old(self),
            output_spec.sample_rate > 0 && output_spec.spec_channels() > 0 && samples@.len() > 0 ==> {
                &&& final(self).spec == Some(output_spec)
                &&& final(self).samples@ == history_with(
                    if old(self).spec == Some(output_spec) {
                        old(self).samples@
                    } else {
                        Seq::empty()
                    },
                    samples@,
                    output_spec,
                )
            },
    {
        let sample_rate: u32 = output_spec.sample_rate;
        let channels: u32 = output_spec.channels();
        if sample_rate == 0 || channels == 0 || samples.len() == 0 {
            return ;
        }
        let same_spec = match self.spec {
            Some(spec) => spec == output_spec,
            None => false,
        };
        if !same_spec {
            self.samples.clear();
            self.spec = Some(output_spec);
        }
        let ghost known = self.samples@;
        let mut index: usize = 0;
        while index < samples.len()
            invariant
                index <= samples@.len(),
                self.samples@ == known + samples@.take(index as int),
                self.spec == Some(output_spec),
            decreases samples@.len() - index,
        {
            self.samples.push(samples[index]);
            index = index + 1;
            assert(samples@.take(index as int) =~= samples@.take(index - 1).push(
                samples@[index - 1],
            ));
        }
        assert(samples@.take(index as int) =~= samples@);
        let length: usize = self.samples.len();
        let max_samples: usize = passthrough_audio_history_max_samples(sample_rate, channels);
        if length > max_samples {
            let overflow: usize = length - max_samples;
            let rest: usize = (overflow as u64 % channels as u64) as usize;
            let surplus: usize = if rest == 0 {
                overflow
            } else {
                let missing: u64 = channels as u64 - rest as u64;
                if max_samples as u64 <= missing {
                    length
                } else {
                    overflow + missing as usize
                }
            };
            proof {
                lemma_next_multiple(overflow as int, channels as int);
            }
            let kept = self.samples.split_off(surplus);
            self.samples = kept;
        } else {
            assert((known + samples@).skip(0) =~= known + samples@);
        }
    }
}

/// The next multiple lies less than a step ahead, at the distance that the remainder gives.
proof fn lemma_next_multiple(value: int, step: int)
    requires
        value >= 0,
        step > 0,
    ensures
        next_multiple(value, step) == if value % step == 0 {
            value
        } else {
            value + step - value % step
        },
{
    vstd::arithmetic::div_mod::lemma_fundamental_div_mod(value, step);
    let quotient = value / step;
    let rest = value % step;
    vstd::arithmetic::div_mod::lemma_mod_bound(value, step);
    assert(step * quotient == quotient * step) by (nonlinear_arith);
    if rest == 0 {
        vstd::arithmetic::div_mod::lemma_fundamental_div_mod_converse(
            value + step - 1,
            step,
            quotient,
            step - 1,
        );
    } else {
        assert((quotient + 1) * step == quotient * step + step) by (nonlinear_arith);
        vstd::arithmetic::div_mod::lemma_fundamental_div_mod_converse(
            value + step - 1,
            step,
            quotient + 1,
            rest - 1,
        );
    }
}

/// The history stays within its budget and holds the latest samples: what is left is the end of
/// everything that was recorded.
pub proof fn law_history_is_bounded_and_keeps_the_latest_samples<S>(
    known: Seq<S>,
    samples: Seq<S>,
    spec: AudioOutputSpec,
)
    requires
        spec.sample_rate > 0,
        spec.spec_channels() > 0,
    ensures
        history_with(known, samples, spec).len() <= history_budget(
            spec.sample_rate,
            spec.spec_channels(),
        ),
        history_with(known, samples, spec).is_suffix_of(known + samples),
{
    let length = (known + samples).len() as int;
    let budget = history_budget(spec.sample_rate, spec.spec_channels());
    assert(budget >= 0) by {
        let frames = (spec.sample_rate * PASSTHROUGH_AUDIO_HISTORY_MAX_MS + 999) / 1000;
        assert(frames * spec.spec_channels() >= 0) by (nonlinear_arith)
            requires
                frames >= 0,
                spec.spec_channels() >= 0,
        ;
    }
    if length > budget {
        lemma_next_multiple(length - budget, spec.spec_channels() as int);
        vstd::arithmetic::div_mod::lemma_mod_bound(length - budget, spec.spec_channels() as int);
    }
    let kept = history_with(known, samples, spec);
    assert(kept =~= (known + samples).subrange(length - kept.len(), length));
}

/// A history of whole frames stays one of whole frames, where the budget is not cut at the
/// largest number of samples that a machine can count.
pub proof fn law_history_keeps_whole_frames<S>(
    known: Seq<S>,
    samples: Seq<S>,
    spec: AudioOutputSpec,
)
    requires
        spec.sample_rate > 0,
        spec.spec_channels() > 0,
        known.len() as int % spec.spec_channels() as int == 0,
        samples.len() as int % spec.spec_channels() as int == 0,
        history_budget(spec.sample_rate, spec.spec_channels()) < usize::MAX,
    ensures
        history_with(known, samples, spec).len() as int % spec.spec_channels() as int == 0,
{
    let c = spec.spec_channels() as int;
    let length = (known + samples).len() as int;
    let budget = history_budget(spec.sample_rate, spec.spec_channels());
    let frames = (spec.sample_rate * PASSTHROUGH_AUDIO_HISTORY_MAX_MS + 999) / 1000;
    vstd::arithmetic::div_mod::lemma_mod_adds(known.len() as int, samples.len() as int, c);
    assert(length % c == 0) by {
        vstd::arithmetic::div_mod::lemma_add_mod_noop(known.len() as int, samples.len() as int, c);
        vstd::arithmetic::div_mod::lemma_small_mod(0, c as nat);
    }
    vstd::arithmetic::div_mod::lemma_mod_multiples_basic(frames as int, c);
    assert(budget % c == 0);
    if length > budget {
        vstd::arithmetic::div_mod::lemma_sub_mod_noop(length, budget, c);
        vstd::arithmetic::div_mod::lemma_small_mod(0, c as nat);
        lemma_next_multiple(length - budget, c);
    }
}

/// Audio is ready exactly where a track is selected and both a decoder and a device are there. What
/// is waited for otherwise is missing, and all that comes before it is there.
pub proof fn law_readiness_names_what_is_missing_first(
    track: bool,
    decoder: bool,
    output: bool,
    state: AudioSeekRuntimeState,
)
    requires
        call_ensures(audio_seek_runtime_state_from_slots, (track, decoder, output), state),
    ensures
        state is Ready <==> track && decoder && output,
        state is NoSelectedAudio <==> !track,
        state is WaitingForDecoder <==> track && !decoder,
        state is WaitingForOutput <==> track && decoder && !output,
{
}

/// Playback has drained exactly where nothing waits to be decoded and the device, by its clock and
/// by the level of its buffer, has nothing left. A level that is no number counts for nothing.
pub proof fn law_output_has_drained_when_nothing_is_left(
    track: bool,
    queued: usize,
    levels: Option<AudioOutputLevels>,
    requested: bool,
    state: AudioEofDrainState,
)
    requires
        call_ensures(
            audio_eof_drain_state_from_levels,
            (track, queued, levels, requested),
            state,
        ),
    ensures
        state is NoSelectedAudio <==> !track,
        state is PendingPackets <==> track && queued > 0,
        state matches AudioEofDrainState::PendingPackets { queued_packets } ==> queued_packets
            == queued,
        state is NoOutput <==> track && queued == 0 && levels is None,
        state is DrainedOutput <==> track && queued == 0 && levels is Some
            && levels->0.submitted_tail@ == 0 && (levels->0.buffer_level_ms == 0
            || levels->0.buffer_level_ms >= 0x7FF0_0000_0000_0000),
        state matches AudioEofDrainState::DrainedOutput { playback_requested }
            ==> playback_requested == requested,
        state is DrainingOutput <==> track && queued == 0 && levels is Some && (
        levels->0.submitted_tail@ != 0 || 0 < levels->0.buffer_level_ms < 0x7FF0_0000_0000_0000),
{
}

/// What a device that drains has left is the larger of the two levels that it tells. A level of its
/// buffer that is no number counts for nothing.
pub proof fn law_level_left_is_the_larger_one(
    track: bool,
    queued: usize,
    levels: AudioOutputLevels,
    requested: bool,
    state: AudioEofDrainState,
)
    requires
        call_ensures(
            audio_eof_drain_state_from_levels,
            (track, queued, Some(levels), requested),
            state,
        ),
    ensures
        state matches AudioEofDrainState::DrainingOutput { buffer_level_ms, playback_requested } ==> {
            &&& playback_requested == requested
            &&& buffer_level_ms >= levels.submitted_tail_ms
            &&& levels.buffer_level_ms < 0x7FF0_0000_0000_0000 ==> buffer_level_ms
                >= levels.buffer_level_ms
            &&& buffer_level_ms == levels.submitted_tail_ms || buffer_level_ms
                == levels.buffer_level_ms
            &&& levels.buffer_level_ms >= 0x7FF0_0000_0000_0000 ==> buffer_level_ms
                == levels.submitted_tail_ms
        },
{
}

/// What the device answered is passed on as it is; without a device there was no answer.
pub proof fn law_answer_of_the_device_is_passed_on<R, E>(
    answer: Option<Result<R, E>>,
    status: AudioOutputRoutingStatus<R, E>,
)
    requires
        call_ensures(routing_status::<R, E>, (answer,), status),
    ensures
        status is AudioOutputAbsent <==> answer is None,
        forall|report: R|
            status == AudioOutputRoutingStatus::<R, E>::Written(report) <==> answer == Some(
                Ok::<R, E>(report),
            ),
        forall|error: E|
            status == AudioOutputRoutingStatus::<R, E>::WriteFailed(error) <==> answer == Some(
                Err::<R, E>(error),
            ),
{
}

/// Samples come out of a decoded packet with their form, all of them. A packet is empty exactly
/// where the decoder gave no samples, whatever it says of the form; samples without a form are an
/// error, and an error of the decoder is passed on.
pub proof fn law_decoded_samples_come_with_their_form<S, E>(
    decoded: Result<Vec<S>, E>,
    spec: Option<AudioOutputSpec>,
    packet: Result<DecodedAudioPacket<S>, AudioDecodeFailure<E>>,
)
    requires
        call_ensures(decoded_audio_packet::<S, E>, (decoded, spec), packet),
    ensures
        packet is Ok && packet->Ok_0 is Empty <==> decoded is Ok && decoded->Ok_0@.len() == 0,
        packet matches Ok(DecodedAudioPacket::Pcm { samples, output_spec }) ==> decoded == Ok::<
            Vec<S>,
            E,
        >(samples) && samples@.len() > 0 && spec == Some(output_spec),
        packet is Err && packet->Err_0 is MissingOutputSpec <==> decoded is Ok
            && decoded->Ok_0@.len() > 0 && spec is None,
        packet matches Err(AudioDecodeFailure::Decoder(error)) ==> decoded == Err::<Vec<S>, E>(
            error,
        ),
        decoded is Err ==> packet is Err && packet->Err_0 is Decoder,
{
}

/// The history may hold the samples of at least six hundred milliseconds, and of less than one
/// frame more, where a machine can count them.
pub proof fn law_history_may_hold_six_hundred_milliseconds(
    sample_rate: u32,
    channels: u32,
    most: usize,
)
    requires
        call_ensures(passthrough_audio_history_max_samples, (sample_rate, channels), most),
        most < usize::MAX,
    ensures
        most * 1000 >= sample_rate * 600 * channels,
        channels > 0 ==> most * 1000 < (sample_rate * 600 + 1000) * channels,
{
    let frames = (sample_rate * 600 + 999) / 1000;
    assert(most == frames * channels);
    assert(frames * channels * 1000 == (frames * 1000) * channels) by (nonlinear_arith);
    assert((frames * 1000) * channels >= (sample_rate * 600) * channels) by (nonlinear_arith)
        requires
            frames * 1000 >= sample_rate * 600,
            channels >= 0,
    ;
    assert(sample_rate * 600 * channels == (sample_rate * 600) * channels);
    if channels > 0 {
        assert((frames * 1000) * channels < (sample_rate * 600 + 1000) * channels)
            by (nonlinear_arith)
            requires
                frames * 1000 < sample_rate * 600 + 1000,
                channels > 0,
        ;
    }
}

/// Samples that were recorded are what a tempo processor of the same form is primed with: all of
/// them, in order, where the history may hold them; otherwise as many of the latest as it may hold,
/// less than one frame fewer. One of another form gets none, and priming empties the history.
pub proof fn law_tempo_processor_is_primed_with_what_was_recorded<S: Copy>(
    before: PassthroughAudioHistory<S>,
    recorded: PassthroughAudioHistory<S>,
    primed: PassthroughAudioHistory<S>,
    samples: &[S],
    spec: AudioOutputSpec,
    other: AudioOutputSpec,
    most: usize,
    taken: Vec<S>,
)
    requires
        spec.sample_rate > 0,
        spec.channel_layout.channels > 0,
        samples@.len() > 0,
        exists|history: &mut PassthroughAudioHistory<S>|
            *history == before && *final(history) == recorded && #[trigger] call_ensures(
                PassthroughAudioHistory::<S>::record_passthrough_audio_history,
                (history, samples, spec),
                (),
            ),
        call_ensures(
            passthrough_audio_history_max_samples,
            (spec.sample_rate, spec.channel_layout.channels),
            most,
        ),
        exists|history: &mut PassthroughAudioHistory<S>|
            *history == recorded && *final(history) == primed && #[trigger] call_ensures(
                PassthroughAudioHistory::<S>::take_passthrough_audio_history_for_priming,
                (history, other),
                taken,
            ),
    ensures
        primed.samples@.len() == 0 && primed.spec is None,
        other != spec ==> taken@.len() == 0,
        other == spec ==> {
            let known = if before.spec == Some(spec) {
                before.samples@ + samples@
            } else {
                samples@
            };
            &&& taken@.len() <= most
            &&& known.len() <= most ==> taken@ == known
            &&& taken@.len() <= known.len() && forall|i: int|
                0 <= i < taken@.len() ==> #[trigger] taken@[i] == known[known.len() - taken@.len()
                    + i]
            &&& known.len() > most ==> taken@.len() + spec.channel_layout.channels > most
            &&& known.len() > most && taken@.len() > 0 ==> (known.len() - taken@.len())
                % spec.channel_layout.channels as int == 0
        },
{
    let old_samples = if before.spec == Some(spec) {
        before.samples@
    } else {
        Seq::empty()
    };
    let known = old_samples + samples@;
    let c = spec.channel_layout.channels as int;
    assert(Seq::<S>::empty() + samples@ =~= samples@);
    law_history_is_bounded_and_keeps_the_latest_samples(old_samples, samples@, spec);
    if known.len() > most {
        lemma_next_multiple(known.len() - most, c);
        vstd::arithmetic::div_mod::lemma_mod_bound(known.len() - most, c);
        let quotient = (known.len() - most + c - 1) / c;
        vstd::arithmetic::div_mod::lemma_mod_multiples_basic(quotient, c);
    } else {
        assert(known.skip(0) =~= known);
    }
}

/// A form without frames or without samples records nothing, and neither does an empty run.
pub proof fn law_nothing_to_record_changes_nothing<S: Copy>(
    before: PassthroughAudioHistory<S>,
    after: PassthroughAudioHistory<S>,
    samples: &[S],
    spec: AudioOutputSpec,
)
    requires
        exists|history: &mut PassthroughAudioHistory<S>|
            *history == before && *final(history) == after && #[trigger] call_ensures(
                PassthroughAudioHistory::<S>::record_passthrough_audio_history,
                (history, samples, spec),
                (),
            ),
        spec.sample_rate == 0 || spec.channel_layout.channels == 0 || samples@.len() == 0,
    ensures
        after == before,
{
}

} // verus!
