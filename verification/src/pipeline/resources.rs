//! What the player holds but does not make: demuxers, decoders, devices and clocks.
//!
//! What these do depends on the machine, so their methods promise nothing. What a call was given
//! and what came back is still told: with `call_ensures` a function says of which call its result
//! is.
use super::audio::{AudioOutputSpec, AudioOutputWriteIntent, AudioTempoPcmFormat, AudioTempoSegment};
use super::media_clock::AudioOutputClockTiming;
use super::packets::EncodedAudioPacket;
use super::video_decoder::{
    DecoderControlChannelPressure, HostUploadResourceStatus, VideoDecoderActivitySnapshot,
    VideoDecoderEndOfStreamDrainState,
};
use crate::demux::Demuxer;
use crate::media::{DecodedFrame, FrameResourceHandle};
use crate::time::Duration;
use vstd::prelude::*;

verus! {

/// The clock of an audio device.
pub trait PlayerAudioClock {
    /// The position that is being heard.
    fn now(&self) -> Duration;

    /// What has been played and what has been given, read together.
    fn output_timing(&self) -> AudioOutputClockTiming;

    /// Sets the clock to zero.
    fn reset(&self);

    /// How often the device ran dry.
    fn underrun_callbacks(&self) -> u64;
}

/// An audio device. `S` is a sample and `C` its clock.
pub trait PlayerAudioOutput<S, C> {
    /// Why a call failed.
    type Error;

    /// What became of samples that were written.
    type WriteReport;

    /// Writes samples.
    fn write_samples(&mut self, samples: &[S], intent: AudioOutputWriteIntent) -> Result<
        Self::WriteReport,
        Self::Error,
    >;

    /// Starts the device.
    fn play(&mut self) -> Result<(), Self::Error>;

    /// Stops the device and returns where its clock stands.
    fn pause_and_freeze_clock(&mut self) -> Result<AudioOutputClockTiming, Self::Error>;

    /// Drops what the device has not played and returns the generation that it confirms.
    fn clear_buffer_for_seek(&mut self, generation: u64) -> Result<u64, Self::Error>;

    /// Sets the volume, as the bit pattern of a single-precision number.
    fn set_volume(&mut self, volume_bits: u32);

    /// How much is buffered, in milliseconds, as the bit pattern of a double-precision number.
    fn buffer_level_ms(&self) -> u64;

    /// The clock of the device.
    fn clock(&self) -> C;
}

/// An audio decoder. `S` is a sample.
pub trait AudioDecoder<S> {
    /// Why a call failed.
    type Error;

    /// Decodes a packet.
    fn decode(&mut self, packet: &EncodedAudioPacket<'_>) -> Result<Vec<S>, Self::Error>;

    /// Forgets what came before.
    fn reset(&mut self) -> Result<(), Self::Error>;

    /// The form of the decoded samples, once it is known.
    fn decoded_output_spec(&self) -> Option<AudioOutputSpec>;
}

/// A processor that changes the tempo of audio. `S` is a sample.
pub trait AudioTempoProcessor<S> {
    /// Why a call failed.
    type Error;

    /// What became of samples that were processed.
    type Report;

    /// The form of the samples.
    fn pcm_format(&self) -> AudioTempoPcmFormat;

    /// Goes on at another tempo.
    fn set_segment(&mut self, segment: AudioTempoSegment) -> Result<Self::Report, Self::Error>;

    /// Processes samples and puts what comes out into `output`, in place of what it held.
    fn process_decoded_media_into(
        &mut self,
        samples: &[S],
        pcm_format: AudioTempoPcmFormat,
        output: &mut Vec<S>,
    ) -> Result<Self::Report, Self::Error>;

    /// Takes in samples that were heard before.
    fn prime_decoded_history(&mut self, samples: &[S], pcm_format: AudioTempoPcmFormat) -> Result<
        Self::Report,
        Self::Error,
    >;

    /// Forgets what came before.
    fn reset(&mut self) -> Result<Self::Report, Self::Error>;

    /// Ends the stream and puts the rest into `output`, in place of what it held.
    fn finish_stream_into(&mut self, output: &mut Vec<S>) -> Result<Self::Report, Self::Error>;
}

/// A video decoder that runs by itself. `P` gives the renderer access to its textures, and `M` is
/// what the renderer reads of a frame.
pub trait VideoDecoderThread<P, M> {
    /// A packet to decode.
    type Packet;

    /// Why a packet was not taken.
    type SendError;

    /// Why the decoder stopped.
    type ThreadError;

    /// Something the decoder has to say.
    type DiagnosticEvent;

    /// The stream to decode.
    type StreamConfig;

    /// What became of a stream.
    type StreamConfigResult;

    /// From where on frames are wanted.
    type OutputFloor;

    /// Which floor is not wanted any more.
    type OutputFloorClear;

    /// What became of a floor.
    type OutputFloorResult;

    /// What became of the wish to drain.
    type DrainResult;

    /// How far draining has come, while it is under way or done.
    type DrainProgress;

    /// The textures of the decoder.
    type ResourceSnapshot;

    /// Why flushing failed.
    type FlushError;

    /// With what one waits for the decoder to do something.
    type ActivitySubscription;

    /// The name of the decoder.
    fn backend_name(&self) -> String;

    /// The number of packets that the decoder has not fetched.
    fn packet_queue_depth(&self) -> usize;

    /// The textures of the decoder.
    fn decoder_resource_snapshot(&self) -> Option<Self::ResourceSnapshot>;

    /// Whether frames that are uploaded from host memory find a place, where a number of them
    /// may wait.
    fn host_upload_resource_status(&self, ready_queue_capacity: usize) -> HostUploadResourceStatus;

    /// How full the way to the decoder is.
    fn decoder_control_channel_pressure(&self) -> Option<DecoderControlChannelPressure>;

    /// Whether one can wait for the decoder to do something.
    fn decoder_activity_snapshot(&self) -> VideoDecoderActivitySnapshot<
        Self::ActivitySubscription,
    >;

    /// Access to the textures.
    fn resource_provider(&self) -> P;

    /// Gives a texture back.
    fn release_frame(&self, resource_handle: FrameResourceHandle);

    /// Sets the stream to decode.
    fn configure_stream(&self, config: Self::StreamConfig) -> Self::StreamConfigResult;

    /// Ends the stream.
    fn clear_stream(&self) -> Self::StreamConfigResult;

    /// Sets from where on frames are wanted.
    fn set_preroll_output_floor(&self, floor: Self::OutputFloor) -> Self::OutputFloorResult;

    /// Ends that.
    fn clear_preroll_output_floor(&self, clear: Self::OutputFloorClear) -> Self::OutputFloorResult;

    /// Begins to hand over what the decoder holds back.
    fn begin_end_of_stream_drain(&self, generation: u64) -> Self::DrainResult;

    /// How far that has come.
    fn end_of_stream_drain_state(&self) -> VideoDecoderEndOfStreamDrainState<
        Self::DrainProgress,
    >;

    /// Drops everything.
    fn flush(&self) -> Result<(), Self::FlushError>;

    /// Takes a frame.
    fn try_recv_frame(&self) -> Option<DecodedFrame<M>>;

    /// Takes something the decoder has to say.
    fn try_recv_diagnostic_event(&self) -> Option<Self::DiagnosticEvent>;

    /// Takes the reason for which the decoder stopped.
    fn try_recv_error(&self) -> Option<Self::ThreadError>;

    /// Takes the number of packets that are done.
    fn drain_completed_packet_count(&self) -> usize;

    /// Hands over a packet.
    fn send_packet(&self, packet: Self::Packet) -> Result<(), Self::SendError>;
}

/// The family of resources with which a player runs.
pub trait PlaybackResources: Sized {
    /// An audio sample.
    type Sample: Copy;

    /// The demuxer of the medium.
    type Demuxer: Demuxer;

    /// The decoder of the audio track.
    type AudioDecoder: AudioDecoder<Self::Sample>;

    /// The clock of the audio device.
    type AudioClock: PlayerAudioClock;

    /// The audio device.
    type AudioOutput: PlayerAudioOutput<Self::Sample, Self::AudioClock>;

    /// The tempo processor.
    type TempoProcessor: AudioTempoProcessor<Self::Sample>;

    /// Access of the renderer to textures.
    type ResourceProvider;

    /// What the renderer reads of a frame.
    type FrameMetadata: Copy;

    /// The decoder of the video track.
    type VideoDecoder: VideoDecoderThread<Self::ResourceProvider, Self::FrameMetadata>;

    /// The milliseconds of a span, as the bit pattern of a double-precision number.
    fn millis_bits(span: Duration) -> u64;
}

} // verus!
