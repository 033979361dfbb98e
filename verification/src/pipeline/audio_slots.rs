//! Audio decoder, device, tempo processor and clocks of the pipeline.
use super::audio::{
    audio_eof_drain_state_from_levels, decode_outcome, decoded_audio_packet, eof_drain_state,
    history_with, routing_status, status_of, AudioDecodeFailure, AudioDecoderConfig, AudioEofDrainState,
    AudioOutputLevels, AudioOutputRoutingStatus, AudioOutputSpec, AudioOutputWriteIntent,
    AudioTempoPcmFormat, AudioTempoSegment, DecodedAudioPacket, RoutedAudioTempoOutput,
};
use super::audio_clock_mapping::{earliest_at, is_chain, position_at};
use super::media_clock::{
    planned_spans, single_segment, AudioOutputClockTiming, CapturedAudioClockMapping, MediaClocks,
    MonotonicMediaClockAnchor, PendingTempoOutputSpan, TempoReportRateError,
};
use super::packets::EncodedAudioPacket;
use super::resources::{
    AudioDecoder, AudioTempoProcessor, PlaybackResources, PlayerAudioClock, PlayerAudioOutput,
};
use super::PlaybackPipeline;
use crate::media::TrackId;
use crate::playback_rate::PlaybackRate;
use crate::time::{saturated, Duration, Instant};
use vstd::prelude::*;

verus! {

impl<R: PlaybackResources> PlaybackPipeline<R> {
    /// Takes over an audio decoder.
    pub fn install_audio_decoder(&mut self, decoder: R::AudioDecoder)
        ensures
            *final(self) == (PlaybackPipeline {
                audio_decoder: Some(decoder),
                deferred_audio_decoder_config: None,
                ..*old(self)
            }),
    {
        self.audio_decoder = Some(decoder);
        self.deferred_audio_decoder_config = None;
    }

    /// Gives the audio decoder up.
    pub fn clear_audio_decoder(&mut self)
        ensures
            *final(self) == (PlaybackPipeline { audio_decoder: None, ..*old(self) }),
    {
        self.audio_decoder = None;
    }

    /// Whether there is an audio decoder.
    pub fn has_audio_decoder(&self) -> (r: bool)
        ensures
            r == (self.audio_decoder is Some),
    {
        self.audio_decoder.is_some()
    }

    /// Keeps what an audio decoder is to be made from until it is needed.
    pub fn install_deferred_audio_decoder_config(&mut self, config: AudioDecoderConfig)
        ensures
            *final(self) == (PlaybackPipeline {
                deferred_audio_decoder_config: Some(config),
                ..*old(self)
            }),
    {
        self.deferred_audio_decoder_config = Some(config);
    }

    /// Whether something is kept for an audio decoder.
    pub fn has_deferred_audio_decoder_config(&self) -> (r: bool)
        ensures
            r == (self.deferred_audio_decoder_config is Some),
    {
        self.deferred_audio_decoder_config.is_some()
    }

    /// Takes what is kept for an audio decoder, where it is for this track.
    pub fn take_deferred_audio_decoder_config(&mut self, track_id: TrackId) -> (r: Option<
        AudioDecoderConfig,
    >)
        ensures
            match old(self).deferred_audio_decoder_config {
                Some(config) if config.track_id == track_id => {
                    &&& r == Some(config)
                    &&& *final(self) == (PlaybackPipeline {
                        deferred_audio_decoder_config: None,
                        ..*old(self)
                    })
                },
                _ => r is None && *final(self) == *old(self),
            },
    {
        let is_for_track = match &self.deferred_audio_decoder_config {
            Some(config) => config.track_id == track_id,
            None => false,
        };
        if !is_for_track {
            return None;
        }
        self.deferred_audio_decoder_config.take()
    }

    /// Forgets what is kept for an audio decoder.
    pub fn clear_deferred_audio_decoder_config(&mut self)
        ensures
            *final(self) == (PlaybackPipeline { deferred_audio_decoder_config: None, ..*old(self) }),
    {
        self.deferred_audio_decoder_config = None;
    }

    /// Decodes a packet, where there is a decoder. The form of the samples is asked for where there
    /// are some.
    pub fn decode_audio_packet(&mut self, packet: &EncodedAudioPacket<'_>) -> (r: Option<
        Result<
            DecodedAudioPacket<R::Sample>,
            AudioDecodeFailure<<R::AudioDecoder as AudioDecoder<R::Sample>>::Error>,
        >,
    >)
        ensures
            r is Some <==> old(self).audio_decoder is Some,
            final(self).audio_decoder is Some <==> old(self).audio_decoder is Some,
            *final(self) == (PlaybackPipeline {
                audio_decoder: final(self).audio_decoder,
                ..*old(self)
            }),
            r matches Some(outcome) ==> exists|
                decoder: &mut R::AudioDecoder,
                decoded: Result<Vec<R::Sample>, <R::AudioDecoder as AudioDecoder<R::Sample>>::Error>,
                spec: Option<AudioOutputSpec>,
            |
                *decoder == old(self).audio_decoder->0 && *final(decoder)
                    == final(self).audio_decoder->0 && #[trigger] call_ensures(
                    <R::AudioDecoder as AudioDecoder<R::Sample>>::decode,
                    (decoder, packet),
                    decoded,
                ) && (decoded matches Ok(samples) && samples@.len() > 0 ==> call_ensures(
                    <R::AudioDecoder as AudioDecoder<R::Sample>>::decoded_output_spec,
                    (&final(self).audio_decoder->0,),
                    spec,
                )) && #[trigger] decode_outcome(decoded, spec) == outcome,
    {
        match &mut self.audio_decoder {
            Some(decoder) => {
                let decoded = decoder.decode(packet);
                let has_samples = match &decoded {
                    Ok(samples) => samples.len() > 0,
                    Err(_) => false,
                };
                let spec = if has_samples {
                    decoder.decoded_output_spec()
                } else {
                    None
                };
                Some(decoded_audio_packet(decoded, spec))
            },
            None => None,
        }
    }

    /// Makes the audio decoder forget what came before, where there is one.
    pub fn reset_audio_decoder(&mut self) -> (r: Option<
        Result<(), <R::AudioDecoder as AudioDecoder<R::Sample>>::Error>,
    >)
        ensures
            r is Some <==> old(self).audio_decoder is Some,
            final(self).audio_decoder is Some <==> old(self).audio_decoder is Some,
            *final(self) == (PlaybackPipeline {
                audio_decoder: final(self).audio_decoder,
                ..*old(self)
            }),
            r matches Some(result) ==> exists|decoder: &mut R::AudioDecoder|
                *decoder == old(self).audio_decoder->0 && *final(decoder)
                    == final(self).audio_decoder->0 && #[trigger] call_ensures(
                    <R::AudioDecoder as AudioDecoder<R::Sample>>::reset,
                    (decoder,),
                    result,
                ),
    {
        match &mut self.audio_decoder {
            Some(decoder) => Some(decoder.reset()),
            None => None,
        }
    }

    /// Takes over an audio device with the form of the samples that it takes.
    pub fn install_audio_output(&mut self, output: R::AudioOutput, input_spec: AudioOutputSpec)
        ensures
            *final(self) == (PlaybackPipeline {
                audio_output: Some(output),
                audio_output_input_spec: Some(input_spec),
                audio_output_play_requested: false,
                ..*old(self)
            }),
    {
        self.audio_output = Some(output);
        self.audio_output_input_spec = Some(input_spec);
        self.audio_output_play_requested = false;
    }

    /// Takes over an audio device of which the form of the samples is not known.
    pub fn install_audio_output_for_tests(&mut self, output: R::AudioOutput)
        ensures
            *final(self) == (PlaybackPipeline {
                audio_output: Some(output),
                audio_output_input_spec: None,
                audio_output_play_requested: false,
                ..*old(self)
            }),
    {
        self.audio_output = Some(output);
        self.audio_output_input_spec = None;
        self.audio_output_play_requested = false;
    }

    /// The form of the samples that the device takes.
    pub fn audio_output_input_spec(&self) -> (r: Option<AudioOutputSpec>)
        ensures
            r == self.audio_output_input_spec,
    {
        self.audio_output_input_spec
    }

    /// Gives the audio device up, with its clock, the tempo processor and the history.
    pub fn clear_audio_output(&mut self)
        ensures
            final(self).audio_tempo_output_buffer@.len() == 0,
            final(self).passthrough_audio_history.samples@.len() == 0,
            final(self).passthrough_audio_history.spec is None,
            *final(self) == (PlaybackPipeline {
                audio_output: None,
                audio_output_input_spec: None,
                audio_tempo_processor: None,
                audio_tempo_output_buffer: final(self).audio_tempo_output_buffer,
                passthrough_audio_history: final(self).passthrough_audio_history,
                audio_clock: None,
                audio_output_play_requested: false,
                ..*old(self)
            }),
    {
        self.audio_output = None;
        self.audio_output_input_spec = None;
        self.clear_audio_tempo_processor();
        self.clear_audio_clock();
        self.audio_output_play_requested = false;
    }

    /// Whether there is an audio device.
    pub fn has_audio_output(&self) -> (r: bool)
        ensures
            r == (self.audio_output is Some),
    {
        self.audio_output.is_some()
    }

    /// Writes samples to the device.
    pub fn write_audio_output_samples(
        &mut self,
        samples: &[R::Sample],
        intent: AudioOutputWriteIntent,
    ) -> (r: AudioOutputRoutingStatus<
        <R::AudioOutput as PlayerAudioOutput<R::Sample, R::AudioClock>>::WriteReport,
        <R::AudioOutput as PlayerAudioOutput<R::Sample, R::AudioClock>>::Error,
    >)
        ensures
            r is AudioOutputAbsent <==> old(self).audio_output is None,
            final(self).audio_output is Some <==> old(self).audio_output is Some,
            *final(self) == (PlaybackPipeline {
                audio_output: final(self).audio_output,
                ..*old(self)
            }),
            old(self).audio_output is Some ==> exists|
                output: &mut R::AudioOutput,
                result: Result<
                    <R::AudioOutput as PlayerAudioOutput<R::Sample, R::AudioClock>>::WriteReport,
                    <R::AudioOutput as PlayerAudioOutput<R::Sample, R::AudioClock>>::Error,
                >,
            |
                *output == old(self).audio_output->0 && *final(output)
                    == final(self).audio_output->0 && #[trigger] call_ensures(
                    <R::AudioOutput as PlayerAudioOutput<R::Sample, R::AudioClock>>::write_samples,
                    (output, samples, intent),
                    result,
                ) && #[trigger] status_of(Some(result)) == r,
    {
        let write_result = match &mut self.audio_output {
            Some(output) => Some(output.write_samples(samples, intent)),
            None => None,
        };
        routing_status(write_result)
    }

    /// Takes over a tempo processor.
    pub fn install_audio_tempo_processor(&mut self, processor: R::TempoProcessor)
        ensures
            *final(self) == (PlaybackPipeline {
                audio_tempo_processor: Some(processor),
                ..*old(self)
            }),
    {
        self.audio_tempo_processor = Some(processor);
    }

    /// Gives the tempo processor up, with what it put out and with the history: after a
    /// discontinuity a new processor may not take in what came before it.
    pub fn clear_audio_tempo_processor(&mut self)
        ensures
            final(self).audio_tempo_output_buffer@.len() == 0,
            final(self).passthrough_audio_history.samples@.len() == 0,
            final(self).passthrough_audio_history.spec is None,
            *final(self) == (PlaybackPipeline {
                audio_tempo_processor: None,
                audio_tempo_output_buffer: final(self).audio_tempo_output_buffer,
                passthrough_audio_history: final(self).passthrough_audio_history,
                ..*old(self)
            }),
    {
        self.audio_tempo_processor = None;
        self.audio_tempo_output_buffer.clear();
        self.clear_passthrough_audio_history();
    }

    /// Whether there is a tempo processor.
    pub fn has_audio_tempo_processor(&self) -> (r: bool)
        ensures
            r == (self.audio_tempo_processor is Some),
    {
        self.audio_tempo_processor.is_some()
    }

    /// The form of the samples that the tempo processor takes.
    pub fn audio_tempo_pcm_format(&self) -> (r: Option<AudioTempoPcmFormat>)
        ensures
            match self.audio_tempo_processor {
                Some(processor) => r matches Some(format) && call_ensures(
                    <R::TempoProcessor as AudioTempoProcessor<R::Sample>>::pcm_format,
                    (&processor,),
                    format,
                ),
                None => r is None,
            },
    {
        match &self.audio_tempo_processor {
            Some(processor) => Some(processor.pcm_format()),
            None => None,
        }
    }

    /// The next run at a rate. Nothing changes until it is committed.
    pub fn propose_audio_tempo_segment(&self, playback_rate: PlaybackRate) -> (r: AudioTempoSegment)
        ensures
            r == (AudioTempoSegment {
                segment_id: self.next_audio_tempo_segment_id,
                playback_rate,
            }),
    {
        AudioTempoSegment { segment_id: self.next_audio_tempo_segment_id, playback_rate }
    }

    /// Takes note that the run which was proposed last has begun.
    pub fn commit_audio_tempo_segment(&mut self, segment: AudioTempoSegment)
        requires
            segment.segment_id == old(self).next_audio_tempo_segment_id,
        ensures
            *final(self) == (PlaybackPipeline {
                next_audio_tempo_segment_id: if segment.segment_id == u64::MAX {
                    u64::MAX
                } else {
                    (segment.segment_id + 1) as u64
                },
                ..*old(self)
            }),
    {
        self.next_audio_tempo_segment_id = self.next_audio_tempo_segment_id.saturating_add(1);
    }

    /// Makes the tempo processor go on at another tempo, where there is one.
    pub fn set_audio_tempo_segment(&mut self, segment: AudioTempoSegment) -> (r: Option<
        Result<
            <R::TempoProcessor as AudioTempoProcessor<R::Sample>>::Report,
            <R::TempoProcessor as AudioTempoProcessor<R::Sample>>::Error,
        >,
    >)
        ensures
            r is Some <==> old(self).audio_tempo_processor is Some,
            final(self).audio_tempo_processor is Some <==> old(self).audio_tempo_processor is Some,
            *final(self) == (PlaybackPipeline {
                audio_tempo_processor: final(self).audio_tempo_processor,
                ..*old(self)
            }),
            r matches Some(result) ==> exists|processor: &mut R::TempoProcessor|
                *processor == old(self).audio_tempo_processor->0 && *final(processor)
                    == final(self).audio_tempo_processor->0 && #[trigger] call_ensures(
                    <R::TempoProcessor as AudioTempoProcessor<R::Sample>>::set_segment,
                    (processor, segment),
                    result,
                ),
    {
        match &mut self.audio_tempo_processor {
            Some(processor) => Some(processor.set_segment(segment)),
            None => None,
        }
    }

    /// Writes what the tempo processor put out last.
    fn route_tempo_output(&mut self) -> (r: AudioOutputRoutingStatus<
        <R::AudioOutput as PlayerAudioOutput<R::Sample, R::AudioClock>>::WriteReport,
        <R::AudioOutput as PlayerAudioOutput<R::Sample, R::AudioClock>>::Error,
    >)
        ensures
            r is AudioOutputAbsent <==> old(self).audio_output is None,
            final(self).audio_output is Some <==> old(self).audio_output is Some,
            *final(self) == (PlaybackPipeline {
                audio_output: final(self).audio_output,
                ..*old(self)
            }),
            old(self).audio_output is Some ==> exists|
                output: &mut R::AudioOutput,
                samples: &[R::Sample],
                result: Result<
                    <R::AudioOutput as PlayerAudioOutput<R::Sample, R::AudioClock>>::WriteReport,
                    <R::AudioOutput as PlayerAudioOutput<R::Sample, R::AudioClock>>::Error,
                >,
            |
                *output == old(self).audio_output->0 && *final(output)
                    == final(self).audio_output->0
                    && samples@ == old(self).audio_tempo_output_buffer@ && #[trigger] call_ensures(
                    <R::AudioOutput as PlayerAudioOutput<R::Sample, R::AudioClock>>::write_samples,
                    (output, samples, AudioOutputWriteIntent::TempoProcessed),
                    result,
                ) && #[trigger] status_of(Some(result)) == r,
    {
        let write_result = match &mut self.audio_output {
            Some(output) => Some(
                output.write_samples(
                    self.audio_tempo_output_buffer.as_slice(),
                    AudioOutputWriteIntent::TempoProcessed,
                ),
            ),
            None => None,
        };
        routing_status(write_result)
    }

    /// Sends samples through the tempo processor to the device, where there is a processor. A
    /// processor that fails writes nothing.
    pub fn process_audio_tempo_samples(
        &mut self,
        samples: &[R::Sample],
        pcm_format: AudioTempoPcmFormat,
    ) -> (r: Option<
        Result<
            RoutedAudioTempoOutput<
                <R::TempoProcessor as AudioTempoProcessor<R::Sample>>::Report,
                <R::AudioOutput as PlayerAudioOutput<R::Sample, R::AudioClock>>::WriteReport,
                <R::AudioOutput as PlayerAudioOutput<R::Sample, R::AudioClock>>::Error,
            >,
            <R::TempoProcessor as AudioTempoProcessor<R::Sample>>::Error,
        >,
    >)
        ensures
            r is Some <==> old(self).audio_tempo_processor is Some,
            r is None ==> *final(self) == *old(self),
            final(self).audio_tempo_processor is Some <==> old(self).audio_tempo_processor is Some,
            final(self).audio_output is Some <==> old(self).audio_output is Some,
            r matches Some(result) ==> exists|
                processor: &mut R::TempoProcessor,
                buffer: &mut Vec<R::Sample>,
                processed: Result<<R::TempoProcessor as AudioTempoProcessor<R::Sample>>::Report, <R::TempoProcessor as AudioTempoProcessor<R::Sample>>::Error>,
            |
                *processor == old(self).audio_tempo_processor->0 && *final(processor)
                    == final(self).audio_tempo_processor->0 && *buffer
                    == old(self).audio_tempo_output_buffer && *final(buffer)
                    == final(self).audio_tempo_output_buffer && #[trigger] call_ensures(
                    <R::TempoProcessor as AudioTempoProcessor<R::Sample>>::process_decoded_media_into,
                    (processor, samples, pcm_format, buffer),
                    processed,
                ) && match processed {
                    Ok(report) => result matches Ok(routed) && routed.report == report,
                    Err(error) => result matches Err(failure) && failure == error,
                },
            r matches Some(Ok(routed)) ==> (routed.write_status is AudioOutputAbsent
                <==> old(self).audio_output is None),
            old(self).audio_output is Some ==> (r matches Some(Ok(routed)) ==> exists|
                output: &mut R::AudioOutput,
                stretched: &[R::Sample],
                result: Result<
                    <R::AudioOutput as PlayerAudioOutput<R::Sample, R::AudioClock>>::WriteReport,
                    <R::AudioOutput as PlayerAudioOutput<R::Sample, R::AudioClock>>::Error,
                >,
            |
                *output == old(self).audio_output->0 && *final(output)
                    == final(self).audio_output->0 && stretched@
                    == final(self).audio_tempo_output_buffer@ && #[trigger] call_ensures(
                    <R::AudioOutput as PlayerAudioOutput<R::Sample, R::AudioClock>>::write_samples,
                    (output, stretched, AudioOutputWriteIntent::TempoProcessed),
                    result,
                ) && #[trigger] status_of(Some(result)) == routed.write_status),
            r matches Some(Err(_)) ==> final(self).audio_output == old(self).audio_output,
            *final(self) == (PlaybackPipeline {
                audio_tempo_processor: final(self).audio_tempo_processor,
                audio_tempo_output_buffer: final(self).audio_tempo_output_buffer,
                audio_output: final(self).audio_output,
                ..*old(self)
            }),
    {
        let processed = match &mut self.audio_tempo_processor {
            Some(processor) => processor.process_decoded_media_into(
                samples,
                pcm_format,
                &mut self.audio_tempo_output_buffer,
            ),
            None => {
                return None;
            },
        };
        match processed {
            Ok(report) => {
                let write_status = self.route_tempo_output();
                Some(Ok(RoutedAudioTempoOutput { report, write_status }))
            },
            Err(error) => Some(Err(error)),
        }
    }

    /// Makes the tempo processor take in samples that were heard before, where there is one.
    pub fn prime_audio_tempo_history(
        &mut self,
        samples: &[R::Sample],
        pcm_format: AudioTempoPcmFormat,
    ) -> (r: Option<
        Result<
            <R::TempoProcessor as AudioTempoProcessor<R::Sample>>::Report,
            <R::TempoProcessor as AudioTempoProcessor<R::Sample>>::Error,
        >,
    >)
        ensures
            r is Some <==> old(self).audio_tempo_processor is Some,
            final(self).audio_tempo_processor is Some <==> old(self).audio_tempo_processor is Some,
            *final(self) == (PlaybackPipeline {
                audio_tempo_processor: final(self).audio_tempo_processor,
                ..*old(self)
            }),
            r matches Some(result) ==> exists|processor: &mut R::TempoProcessor|
                *processor == old(self).audio_tempo_processor->0 && *final(processor)
                    == final(self).audio_tempo_processor->0 && #[trigger] call_ensures(
                    <R::TempoProcessor as AudioTempoProcessor<R::Sample>>::prime_decoded_history,
                    (processor, samples, pcm_format),
                    result,
                ),
    {
        match &mut self.audio_tempo_processor {
            Some(processor) => Some(processor.prime_decoded_history(samples, pcm_format)),
            None => None,
        }
    }

    /// Adds samples to the history.
    pub fn record_passthrough_audio_history(
        &mut self,
        samples: &[R::Sample],
        output_spec: AudioOutputSpec,
    )
        ensures
            output_spec.sample_rate == 0 || output_spec.spec_channels() == 0 || samples@.len() == 0
                ==> *final(self) == *old(self),
            output_spec.sample_rate > 0 && output_spec.spec_channels() > 0 && samples@.len() > 0 ==> {
                &&& final(self).passthrough_audio_history.spec == Some(output_spec)
                &&& final(self).passthrough_audio_history.samples@ == history_with(
                    if old(self).passthrough_audio_history.spec == Some(output_spec) {
                        old(self).passthrough_audio_history.samples@
                    } else {
                        Seq::empty()
                    },
                    samples@,
                    output_spec,
                )
            },
            *final(self) == (PlaybackPipeline {
                passthrough_audio_history: final(self).passthrough_audio_history,
                ..*old(self)
            }),
    {
        self.passthrough_audio_history.record_passthrough_audio_history(samples, output_spec);
    }

    /// Hands the history over to a new tempo processor, where its form fits, and forgets it.
    pub fn take_passthrough_audio_history_for_priming(&mut self, output_spec: AudioOutputSpec) -> (r:
        Vec<R::Sample>)
        ensures
            r@ == if old(self).passthrough_audio_history.spec == Some(output_spec) {
                old(self).passthrough_audio_history.samples@
            } else {
                Seq::<R::Sample>::empty()
            },
            final(self).passthrough_audio_history.samples@.len() == 0,
            final(self).passthrough_audio_history.spec is None,
            *final(self) == (PlaybackPipeline {
                passthrough_audio_history: final(self).passthrough_audio_history,
                ..*old(self)
            }),
    {
        self.passthrough_audio_history.take_passthrough_audio_history_for_priming(output_spec)
    }

    /// The form of the history for a tempo processor.
    pub fn passthrough_audio_history_pcm_format(&self) -> (r: Option<AudioTempoPcmFormat>)
        ensures
            r == match self.passthrough_audio_history.spec {
                None => None,
                Some(spec) => if spec.sample_rate > 0 && spec.spec_channels() > 0 {
                    Some(
                        AudioTempoPcmFormat {
                            sample_rate: spec.sample_rate,
                            channels: spec.spec_channels(),
                        },
                    )
                } else {
                    None
                },
            },
    {
        self.passthrough_audio_history.passthrough_audio_history_pcm_format()
    }

    /// The form of the history.
    pub fn passthrough_audio_history_output_spec(&self) -> (r: Option<AudioOutputSpec>)
        ensures
            r == self.passthrough_audio_history.spec,
    {
        self.passthrough_audio_history.spec
    }

    /// Forgets the history.
    pub fn clear_passthrough_audio_history(&mut self)
        ensures
            final(self).passthrough_audio_history.samples@.len() == 0,
            final(self).passthrough_audio_history.spec is None,
            *final(self) == (PlaybackPipeline {
                passthrough_audio_history: final(self).passthrough_audio_history,
                ..*old(self)
            }),
    {
        self.passthrough_audio_history.clear_passthrough_audio_history();
    }

    /// Writes the rest that the tempo processor holds and gives the processor up, where there
    /// is one.
    pub fn finish_and_clear_audio_tempo_processor(&mut self) -> (r: Option<
        Result<
            RoutedAudioTempoOutput<
                <R::TempoProcessor as AudioTempoProcessor<R::Sample>>::Report,
                <R::AudioOutput as PlayerAudioOutput<R::Sample, R::AudioClock>>::WriteReport,
                <R::AudioOutput as PlayerAudioOutput<R::Sample, R::AudioClock>>::Error,
            >,
            <R::TempoProcessor as AudioTempoProcessor<R::Sample>>::Error,
        >,
    >)
        ensures
            r is Some <==> old(self).audio_tempo_processor is Some,
            r is None ==> *final(self) == *old(self),
            final(self).audio_output is Some <==> old(self).audio_output is Some,
            r matches Some(result) ==> exists|
                processor: &mut R::TempoProcessor,
                buffer: &mut Vec<R::Sample>,
                finished: Result<<R::TempoProcessor as AudioTempoProcessor<R::Sample>>::Report, <R::TempoProcessor as AudioTempoProcessor<R::Sample>>::Error>,
            |
                *processor == old(self).audio_tempo_processor->0 && *buffer
                    == old(self).audio_tempo_output_buffer && *final(buffer)
                    == final(self).audio_tempo_output_buffer && #[trigger] call_ensures(
                    <R::TempoProcessor as AudioTempoProcessor<R::Sample>>::finish_stream_into,
                    (processor, buffer),
                    finished,
                ) && match finished {
                    Ok(report) => result matches Ok(routed) && routed.report == report,
                    Err(error) => result matches Err(failure) && failure == error,
                },
            r matches Some(Ok(routed)) ==> (routed.write_status is AudioOutputAbsent
                <==> old(self).audio_output is None),
            old(self).audio_output is Some ==> (r matches Some(Ok(routed)) ==> exists|
                output: &mut R::AudioOutput,
                stretched: &[R::Sample],
                result: Result<
                    <R::AudioOutput as PlayerAudioOutput<R::Sample, R::AudioClock>>::WriteReport,
                    <R::AudioOutput as PlayerAudioOutput<R::Sample, R::AudioClock>>::Error,
                >,
            |
                *output == old(self).audio_output->0 && *final(output)
                    == final(self).audio_output->0 && stretched@
                    == final(self).audio_tempo_output_buffer@ && #[trigger] call_ensures(
                    <R::AudioOutput as PlayerAudioOutput<R::Sample, R::AudioClock>>::write_samples,
                    (output, stretched, AudioOutputWriteIntent::TempoProcessed),
                    result,
                ) && #[trigger] status_of(Some(result)) == routed.write_status),
            r matches Some(Err(_)) ==> final(self).audio_output == old(self).audio_output,
            *final(self) == (PlaybackPipeline {
                audio_tempo_processor: None,
                audio_tempo_output_buffer: final(self).audio_tempo_output_buffer,
                audio_output: final(self).audio_output,
                ..*old(self)
            }),
    {
        let mut processor = match self.audio_tempo_processor.take() {
            Some(processor) => processor,
            None => {
                return None;
            },
        };
        match processor.finish_stream_into(&mut self.audio_tempo_output_buffer) {
            Ok(report) => {
                let write_status = self.route_tempo_output();
                Some(Ok(RoutedAudioTempoOutput { report, write_status }))
            },
            Err(error) => Some(Err(error)),
        }
    }

    /// Starts the device, where there is one.
    pub fn play_audio_output(&mut self) -> (r: Option<
        Result<(), <R::AudioOutput as PlayerAudioOutput<R::Sample, R::AudioClock>>::Error>,
    >)
        ensures
            r is Some <==> old(self).audio_output is Some,
            final(self).audio_output is Some <==> old(self).audio_output is Some,
            *final(self) == (PlaybackPipeline {
                audio_output: final(self).audio_output,
                audio_output_play_requested: old(self).audio_output_play_requested
                    || r matches Some(Ok(_)),
                ..*old(self)
            }),
            r matches Some(result) ==> exists|output: &mut R::AudioOutput|
                *output == old(self).audio_output->0 && *final(output)
                    == final(self).audio_output->0 && #[trigger] call_ensures(
                    <R::AudioOutput as PlayerAudioOutput<R::Sample, R::AudioClock>>::play,
                    (output,),
                    result,
                ),
    {
        match &mut self.audio_output {
            Some(output) => {
                let play_result = output.play();
                if play_result.is_ok() {
                    self.audio_output_play_requested = true;
                }
                Some(play_result)
            },
            None => None,
        }
    }

    /// Stops the device, where there is one, and returns where the medium stands.
    pub fn pause_audio_output_and_capture_clock(&mut self) -> (r: Option<
        Result<
            CapturedAudioClockMapping,
            <R::AudioOutput as PlayerAudioOutput<R::Sample, R::AudioClock>>::Error,
        >,
    >)
        ensures
            r is Some <==> old(self).audio_output is Some,
            final(self).audio_output is Some <==> old(self).audio_output is Some,
            *final(self) == (PlaybackPipeline {
                audio_output: final(self).audio_output,
                audio_output_play_requested: old(self).audio_output_play_requested
                    && !(r matches Some(Ok(_))),
                ..*old(self)
            }),
            r matches Some(result) ==> exists|
                output: &mut R::AudioOutput,
                paused: Result<AudioOutputClockTiming, <R::AudioOutput as PlayerAudioOutput<R::Sample, R::AudioClock>>::Error>,
            |
                *output == old(self).audio_output->0 && *final(output)
                    == final(self).audio_output->0 && #[trigger] call_ensures(
                    <R::AudioOutput as PlayerAudioOutput<R::Sample, R::AudioClock>>::pause_and_freeze_clock,
                    (output,),
                    paused,
                ) && match paused {
                    Ok(timing) => result matches Ok(captured) && captured.output_timing == timing
                        && captured.media_position@ == position_at(
                        old(self).clocks.audio_clock_media_mapping@,
                        timing.audible_output_position@,
                    ),
                    Err(error) => result == Err::<CapturedAudioClockMapping, _>(error),
                },
    {
        let pause_result = match &mut self.audio_output {
            Some(output) => output.pause_and_freeze_clock(),
            None => {
                return None;
            },
        };
        match pause_result {
            Ok(output_timing) => {
                self.audio_output_play_requested = false;
                Some(Ok(self.clocks.captured_audio_clock_mapping_from_timing(output_timing)))
            },
            Err(error) => Some(Err(error)),
        }
    }

    /// Drops what the device has not played, where there is one, and gives the tempo processor
    /// up.
    pub fn clear_audio_output_for_seek(&mut self, generation: u64) -> (r: Option<
        Result<u64, <R::AudioOutput as PlayerAudioOutput<R::Sample, R::AudioClock>>::Error>,
    >)
        ensures
            r is Some <==> old(self).audio_output is Some,
            final(self).audio_output is Some <==> old(self).audio_output is Some,
            final(self).audio_tempo_output_buffer@.len() == 0,
            final(self).passthrough_audio_history.samples@.len() == 0,
            final(self).passthrough_audio_history.spec is None,
            *final(self) == (PlaybackPipeline {
                audio_output: final(self).audio_output,
                audio_tempo_processor: None,
                audio_tempo_output_buffer: final(self).audio_tempo_output_buffer,
                passthrough_audio_history: final(self).passthrough_audio_history,
                ..*old(self)
            }),
            r matches Some(result) ==> exists|output: &mut R::AudioOutput|
                *output == old(self).audio_output->0 && *final(output)
                    == final(self).audio_output->0 && #[trigger] call_ensures(
                    <R::AudioOutput as PlayerAudioOutput<R::Sample, R::AudioClock>>::clear_buffer_for_seek,
                    (output, generation),
                    result,
                ),
    {
        let clear_result = match &mut self.audio_output {
            Some(output) => Some(output.clear_buffer_for_seek(generation)),
            None => None,
        };
        self.clear_audio_tempo_processor();
        clear_result
    }

    /// Sets the volume of the device, and returns whether there is one.
    pub fn set_audio_output_volume(&mut self, volume_bits: u32) -> (r: bool)
        ensures
            r == (old(self).audio_output is Some),
            final(self).audio_output is Some <==> old(self).audio_output is Some,
            *final(self) == (PlaybackPipeline {
                audio_output: final(self).audio_output,
                ..*old(self)
            }),
            r ==> exists|output: &mut R::AudioOutput|
                *output == old(self).audio_output->0 && *final(output)
                    == final(self).audio_output->0 && #[trigger] call_ensures(
                    <R::AudioOutput as PlayerAudioOutput<R::Sample, R::AudioClock>>::set_volume,
                    (output, volume_bits),
                    (),
                ),
    {
        match &mut self.audio_output {
            Some(output) => {
                output.set_volume(volume_bits);
                true
            },
            None => false,
        }
    }

    /// How much the device has buffered, in milliseconds, as the bit pattern of a
    /// double-precision number.
    pub fn audio_output_buffer_level_ms(&self) -> (r: Option<u64>)
        ensures
            match self.audio_output {
                Some(output) => r matches Some(level) && call_ensures(
                    <R::AudioOutput as PlayerAudioOutput<R::Sample, R::AudioClock>>::buffer_level_ms,
                    (&output,),
                    level,
                ),
                None => r is None,
            },
    {
        match &self.audio_output {
            Some(output) => Some(output.buffer_level_ms()),
            None => None,
        }
    }

    /// What is left to be heard after the end of the stream. With a track, without packets and
    /// with a device, the level of its buffer and the tail of its clock decide, as
    /// [`audio_eof_drain_state_from_levels`] says. A tail of nothing is zero milliseconds.
    pub fn audio_eof_drain_state(&self) -> (r: AudioEofDrainState)
        ensures
            self.audio_track_id is None || self.pending_audio_packets@.len() > 0
                || self.audio_output is None ==> r == eof_drain_state(
                self.audio_track_id is Some,
                self.pending_audio_packets@.len() as usize,
                None,
                self.audio_output_play_requested,
            ),
            self.audio_track_id is Some && self.pending_audio_packets@.len() == 0
                && self.audio_output is Some ==> exists|
                clock: R::AudioClock,
                timing: AudioOutputClockTiming,
                levels: AudioOutputLevels,
            |
                {
                    &&& #[trigger] call_ensures(
                        <R::AudioOutput as PlayerAudioOutput<R::Sample, R::AudioClock>>::clock,
                        (&self.audio_output->0,),
                        clock,
                    )
                    &&& #[trigger] call_ensures(
                        <R::AudioClock as PlayerAudioClock>::output_timing,
                        (&clock,),
                        timing,
                    )
                    &&& call_ensures(
                        <R::AudioOutput as PlayerAudioOutput<R::Sample, R::AudioClock>>::buffer_level_ms,
                        (&self.audio_output->0,),
                        levels.buffer_level_ms,
                    )
                    &&& levels.submitted_tail@ == timing.spec_submitted_output_tail()
                    &&& if levels.submitted_tail@ == 0 {
                        levels.submitted_tail_ms == 0
                    } else {
                        call_ensures(
                            <R as PlaybackResources>::millis_bits,
                            (levels.submitted_tail,),
                            levels.submitted_tail_ms,
                        )
                    }
                    &&& #[trigger] eof_drain_state(
                        true,
                        0,
                        Some(levels),
                        self.audio_output_play_requested,
                    ) == r
                },
    {
        let track_selected = self.audio_track_id.is_some();
        let queued_packets: usize = self.pending_audio_packets.len();
        let playback_requested = self.audio_output_play_requested;
        let output = match &self.audio_output {
            Some(output) if track_selected && queued_packets == 0 => output,
            _ => {
                return audio_eof_drain_state_from_levels(
                    track_selected,
                    queued_packets,
                    None,
                    playback_requested,
                );
            },
        };
        let buffer_level_ms: u64 = output.buffer_level_ms();
        let clock = output.clock();
        let timing = clock.output_timing();
        let submitted_tail = timing.submitted_output_tail();
        let submitted_tail_ms: u64 = if submitted_tail.is_zero() {
            0
        } else {
            R::millis_bits(submitted_tail)
        };
        let levels = AudioOutputLevels { buffer_level_ms, submitted_tail, submitted_tail_ms };
        audio_eof_drain_state_from_levels(true, 0, Some(levels), playback_requested)
    }

    /// The clock of the device.
    pub fn audio_output_clock(&self) -> (r: Option<R::AudioClock>)
        ensures
            match self.audio_output {
                Some(output) => r matches Some(clock) && call_ensures(
                    <R::AudioOutput as PlayerAudioOutput<R::Sample, R::AudioClock>>::clock,
                    (&output,),
                    clock,
                ),
                None => r is None,
            },
    {
        match &self.audio_output {
            Some(output) => Some(output.clock()),
            None => None,
        }
    }

    /// Whether there is an audio clock.
    pub fn has_audio_clock(&self) -> (r: bool)
        ensures
            r == (self.audio_clock is Some),
    {
        self.audio_clock.is_some()
    }

    /// Follows an audio clock from now on, and stops the clock without audio.
    pub fn install_audio_clock(&mut self, clock: R::AudioClock)
        ensures
            is_chain(old(self).clocks.audio_clock_media_mapping@),
            exists|timing: AudioOutputClockTiming|
                #[trigger] call_ensures(<R::AudioClock as PlayerAudioClock>::output_timing, (&clock,), timing)
                    && final(self).clocks.audio_clock_media_mapping@ == single_segment(
                    timing.audible_output_position,
                    old(self).clocks.media_clock_base,
                    old(self).clocks.audio_clock_media_mapping@.last().playback_rate,
                ),
            *final(self) == (PlaybackPipeline {
                audio_clock: Some(clock),
                clocks: MediaClocks {
                    audio_clock_media_mapping: final(self).clocks.audio_clock_media_mapping,
                    monotonic_media_clock_anchor: None,
                    ..old(self).clocks
                },
                ..*old(self)
            }),
    {
        let output_timing = clock.output_timing();
        self.audio_clock = Some(clock);
        self.clocks.follow_audio_clock(output_timing);
    }

    /// Gives the audio clock up.
    pub fn clear_audio_clock(&mut self)
        ensures
            *final(self) == (PlaybackPipeline { audio_clock: None, ..*old(self) }),
    {
        self.audio_clock = None;
    }

    /// Sets the audio clock to zero, which then means the base position, and returns whether
    /// there is one.
    pub fn reset_audio_clock(&mut self) -> (r: bool)
        ensures
            r == (old(self).audio_clock is Some),
            !r ==> *final(self) == *old(self),
            r ==> {
                &&& call_ensures(<R::AudioClock as PlayerAudioClock>::reset, (&old(self).audio_clock->0,), ())
                &&& is_chain(old(self).clocks.audio_clock_media_mapping@)
                &&& final(self).clocks.audio_clock_media_mapping@.len() == 1
                &&& final(self).clocks.audio_clock_media_mapping@[0].output_clock_start@ == 0
                &&& final(self).clocks.audio_clock_media_mapping@[0].media_position_start == old(self).clocks.media_clock_base
                &&& final(self).clocks.audio_clock_media_mapping@[0].playback_rate == old(self).clocks.audio_clock_media_mapping@.last().playback_rate
            },
            *final(self) == (PlaybackPipeline {
                clocks: MediaClocks {
                    audio_clock_media_mapping: final(self).clocks.audio_clock_media_mapping,
                    ..old(self).clocks
                },
                ..*old(self)
            }),
    {
        match &self.audio_clock {
            Some(clock) => {
                clock.reset();
            },
            None => {
                return false;
            },
        }
        self.clocks.follow_reset_audio_clock();
        true
    }

    /// The position that is being heard, or zero without an audio clock.
    pub fn audio_clock_now(&self) -> (r: Duration)
        ensures
            match self.audio_clock {
                Some(clock) => call_ensures(<R::AudioClock as PlayerAudioClock>::now, (&clock,), r),
                None => r@ == 0,
            },
    {
        match &self.audio_clock {
            Some(clock) => clock.now(),
            None => Duration::zero(),
        }
    }

    /// Whether this is what the audio clock reads. Without a clock nothing has been played or
    /// given.
    pub open spec fn reads(self, timing: AudioOutputClockTiming) -> bool {
        match self.audio_clock {
            Some(clock) => call_ensures(<R::AudioClock as PlayerAudioClock>::output_timing, (&clock,), timing),
            None => timing.audible_output_position@ == 0 && timing.submitted_output_end_position@
                == 0,
        }
    }

    /// What has been played and what has been given, or nothing without an audio clock.
    pub fn audio_output_clock_timing(&self) -> (r: AudioOutputClockTiming)
        ensures
            self.reads(r),
    {
        match &self.audio_clock {
            Some(clock) => clock.output_timing(),
            None => AudioOutputClockTiming::new(Duration::zero(), Duration::zero()),
        }
    }

    /// Reads the audio clock once, with the position that belongs to the reading.
    pub fn capture_audio_clock_mapping(&self) -> (r: Option<CapturedAudioClockMapping>)
        ensures
            r is Some <==> self.audio_clock is Some,
            r matches Some(captured) ==> self.reads(captured.output_timing)
                && captured.media_position@ == position_at(
                self.clocks.audio_clock_media_mapping@,
                captured.output_timing.audible_output_position@,
            ),
    {
        match &self.audio_clock {
            Some(clock) => Some(
                self.clocks.captured_audio_clock_mapping_from_timing(clock.output_timing()),
            ),
            None => None,
        }
    }

    /// Reads the audio clock once, with a position that is known already.
    pub fn capture_paused_audio_clock_mapping(&self, paused_media_position: Duration) -> (r: Option<
        CapturedAudioClockMapping,
    >)
        ensures
            r is Some <==> self.audio_clock is Some,
            r matches Some(captured) ==> self.reads(captured.output_timing)
                && captured.media_position == paused_media_position,
    {
        match &self.audio_clock {
            Some(clock) => Some(
                CapturedAudioClockMapping::new(clock.output_timing(), paused_media_position),
            ),
            None => None,
        }
    }

    /// How often the device ran dry, or zero without an audio clock.
    pub fn audio_clock_underrun_callbacks(&self) -> (r: u64)
        ensures
            match self.audio_clock {
                Some(clock) => call_ensures(<R::AudioClock as PlayerAudioClock>::underrun_callbacks, (&clock,), r),
                None => r == 0,
            },
    {
        match &self.audio_clock {
            Some(clock) => clock.underrun_callbacks(),
            None => 0,
        }
    }

    /// The position at which the clocks were set last.
    pub fn media_clock_base(&self) -> (r: Duration)
        ensures
            r == self.clocks.media_clock_base,
    {
        self.clocks.media_clock_base
    }

    /// Sets the position of the medium at the current reading of the audio clock.
    pub fn set_media_clock_base(&mut self, position: Duration)
        ensures
            is_chain(old(self).clocks.audio_clock_media_mapping@),
            exists|timing: AudioOutputClockTiming| #[trigger]
                old(self).reads(timing) && final(self).clocks.set_to(
                    old(self).clocks,
                    position,
                    old(self).clocks.audio_clock_media_mapping@.last().playback_rate,
                    timing,
                ),
            *final(self) == (PlaybackPipeline { clocks: final(self).clocks, ..*old(self) }),
    {
        let output_timing = self.audio_output_clock_timing();
        self.clocks.set_media_clock_base(position, output_timing);
    }

    /// Sets the position of the medium at the current reading of the audio clock, at a rate.
    pub fn reanchor_audio_clock_media_mapping(
        &mut self,
        media_position: Duration,
        playback_rate: PlaybackRate,
    )
        ensures
            exists|timing: AudioOutputClockTiming| #[trigger]
                old(self).reads(timing) && final(self).clocks.set_to(
                    old(self).clocks,
                    media_position,
                    playback_rate,
                    timing,
                ),
            *final(self) == (PlaybackPipeline { clocks: final(self).clocks, ..*old(self) }),
    {
        let output_timing = self.audio_output_clock_timing();
        self.clocks.reanchor_audio_clock_media_mapping(
            media_position,
            playback_rate,
            output_timing,
        );
    }

    /// Changes the rate behind what the device has been given, at a known position.
    pub fn reanchor_audio_clock_media_mapping_for_rate_change(
        &mut self,
        media_position: Duration,
        playback_rate: PlaybackRate,
    )
        ensures
            is_chain(old(self).clocks.audio_clock_media_mapping@),
            exists|timing: AudioOutputClockTiming| #[trigger]
                old(self).reads(timing) && final(self).clocks.rate_changed_from(
                    old(self).clocks,
                    CapturedAudioClockMapping { output_timing: timing, media_position },
                    playback_rate,
                    Seq::empty(),
                ),
            *final(self) == (PlaybackPipeline { clocks: final(self).clocks, ..*old(self) }),
    {
        let captured_clock = CapturedAudioClockMapping::new(
            self.audio_output_clock_timing(),
            media_position,
        );
        self.reanchor_audio_clock_media_mapping_for_captured_rate_change(
            captured_clock,
            playback_rate,
        );
    }

    /// Changes the rate behind what the device has been given, at a reading that was captured.
    pub fn reanchor_audio_clock_media_mapping_for_captured_rate_change(
        &mut self,
        captured_clock: CapturedAudioClockMapping,
        playback_rate: PlaybackRate,
    )
        ensures
            is_chain(old(self).clocks.audio_clock_media_mapping@),
            final(self).clocks.rate_changed_from(
                old(self).clocks,
                captured_clock,
                playback_rate,
                Seq::empty(),
            ),
            *final(self) == (PlaybackPipeline { clocks: final(self).clocks, ..*old(self) }),
    {
        self.clocks.reanchor_for_captured_rate_change(captured_clock, playback_rate);
    }

    /// Changes the rate behind what the device has been given and what the tempo processor
    /// reports that it still owes. A report with a rate outside the player's range changes
    /// nothing.
    pub fn reanchor_audio_clock_media_mapping_for_tempo_rate_change(
        &mut self,
        captured_clock: CapturedAudioClockMapping,
        playback_rate: PlaybackRate,
        pending_output: &[PendingTempoOutputSpan],
    ) -> (r: Result<(), TempoReportRateError>)
        ensures
            match planned_spans(pending_output@) {
                Ok(spans) => r is Ok && final(self).clocks.rate_changed_from(
                    old(self).clocks,
                    captured_clock,
                    playback_rate,
                    spans,
                ),
                Err(error) => r == Err::<(), _>(error) && final(self).clocks == old(self).clocks,
            },
            *final(self) == (PlaybackPipeline { clocks: final(self).clocks, ..*old(self) }),
    {
        self.clocks.reanchor_for_tempo_rate_change(captured_clock, playback_rate, pending_output)
    }

    /// The position of the medium that is being heard.
    pub fn media_position_from_audio_clock(&self) -> (r: Duration)
        ensures
            exists|timing: AudioOutputClockTiming| #[trigger]
                self.reads(timing) && r@ == position_at(
                    self.clocks.audio_clock_media_mapping@,
                    timing.audible_output_position@,
                ),
    {
        let output_timing = self.audio_output_clock_timing();
        self.clocks.media_position_at_timing(output_timing)
    }

    /// The position of the medium that will be heard after some output time.
    pub fn media_position_after_audio_output_delay(&self, output_delay: Duration) -> (r: Duration)
        ensures
            exists|timing: AudioOutputClockTiming| #[trigger]
                self.reads(timing) && r@ == position_at(
                    self.clocks.audio_clock_media_mapping@,
                    saturated(timing.audible_output_position@ + output_delay@),
                ),
    {
        let output_timing = self.audio_output_clock_timing();
        self.clocks.media_position_after_output_delay(output_timing, output_delay)
    }

    /// The output time until the medium reaches a deadline.
    pub fn audio_output_delay_until_media_deadline(&self, media_deadline: Duration) -> (r: Duration)
        ensures
            exists|timing: AudioOutputClockTiming| #[trigger]
                self.reads(timing) && {
                    let segments = self.clocks.audio_clock_media_mapping@;
                    let now = timing.audible_output_position@;
                    let delay = saturated(earliest_at(segments, media_deadline@)) - now;
                    r@ == if media_deadline@ <= position_at(segments, now) {
                        0
                    } else if delay > 1 {
                        delay
                    } else {
                        1
                    }
                },
    {
        let output_timing = self.audio_output_clock_timing();
        self.clocks.output_delay_until_media_deadline(output_timing, media_deadline)
    }

    /// Starts the clock without audio.
    pub fn start_monotonic_media_clock(
        &mut self,
        position: Duration,
        now: Instant,
        playback_rate: PlaybackRate,
    )
        ensures
            *final(self) == (PlaybackPipeline {
                clocks: MediaClocks {
                    monotonic_media_clock_anchor: Some(
                        MonotonicMediaClockAnchor {
                            media_position: position,
                            anchored_at: now,
                            playback_rate,
                        },
                    ),
                    ..old(self).clocks
                },
                ..*old(self)
            }),
    {
        self.clocks.start_monotonic_media_clock(position, now, playback_rate);
    }

    /// Stops the clock without audio.
    pub fn clear_monotonic_media_clock(&mut self)
        ensures
            *final(self) == (PlaybackPipeline {
                clocks: MediaClocks { monotonic_media_clock_anchor: None, ..old(self).clocks },
                ..*old(self)
            }),
    {
        self.clocks.clear_monotonic_media_clock();
    }

    /// The position by the clock without audio, while it runs.
    pub fn monotonic_media_position(&self, now: Instant) -> (r: Option<Duration>)
        ensures
            match self.clocks.monotonic_media_clock_anchor {
                None => r is None,
                Some(anchor) => r matches Some(position) && position@ == anchor.position_after(
                    anchor.elapsed(now),
                ),
            },
    {
        self.clocks.monotonic_media_position(now)
    }

    /// The position by the clock without audio after some time, while it runs.
    pub fn monotonic_media_position_after_wall_delay(
        &self,
        now: Instant,
        wall_delay: Duration,
    ) -> (r: Option<Duration>)
        ensures
            match self.clocks.monotonic_media_clock_anchor {
                None => r is None,
                Some(anchor) => r matches Some(position) && position@ == anchor.position_after(
                    saturated(anchor.elapsed(now) + wall_delay@),
                ),
            },
    {
        self.clocks.monotonic_media_position_after_wall_delay(now, wall_delay)
    }

    /// The time until a deadline by the clock without audio, while it runs.
    pub fn monotonic_wall_delay_until_media_deadline(
        &self,
        now: Instant,
        media_deadline: Duration,
    ) -> (r: Option<Duration>)
        ensures
            match self.clocks.monotonic_media_clock_anchor {
                None => r is None,
                Some(anchor) => r matches Some(wait) && {
                    let elapsed = anchor.elapsed(now);
                    let delay = anchor.playback_rate.wall_delay(
                        media_deadline@ - anchor.media_position@,
                    ) - elapsed;
                    wait@ == if media_deadline@ <= anchor.position_after(elapsed) {
                        0
                    } else if delay > 1 {
                        delay
                    } else {
                        1
                    }
                },
            },
    {
        self.clocks.monotonic_wall_delay_until_media_deadline(now, media_deadline)
    }

    /// Takes note of a reading of the audio clock.
    pub fn note_audio_clock_sample(&mut self, audio_now: Duration, observed_at: Instant)
        ensures
            *final(self) == (PlaybackPipeline {
                clocks: if audio_now@ == old(self).clocks.last_audio_clock@ {
                    old(self).clocks
                } else {
                    MediaClocks {
                        last_audio_clock: audio_now,
                        last_audio_clock_change_at: observed_at,
                        ..old(self).clocks
                    }
                },
                ..*old(self)
            }),
    {
        self.clocks.note_audio_clock_sample(audio_now, observed_at);
    }

    /// Starts to watch the audio clock anew.
    pub fn reset_audio_clock_sample(&mut self, audio_now: Duration, observed_at: Instant)
        ensures
            *final(self) == (PlaybackPipeline {
                clocks: MediaClocks {
                    last_audio_clock: audio_now,
                    last_audio_clock_change_at: observed_at,
                    ..old(self).clocks
                },
                ..*old(self)
            }),
    {
        self.clocks.reset_audio_clock_sample(audio_now, observed_at);
    }

    /// For how long the audio clock has not moved.
    pub fn audio_clock_stalled_for(&self, now: Instant) -> (r: Duration)
        ensures
            r@ == if now@ > self.clocks.last_audio_clock_change_at@ {
                now@ - self.clocks.last_audio_clock_change_at@
            } else {
                0
            },
    {
        self.clocks.audio_clock_stalled_for(now)
    }

    /// Sets all clocks to the target of a seek.
    pub fn reset_clocks_for_seek(&mut self, target: Duration, now: Instant)
        ensures
            is_chain(old(self).clocks.audio_clock_media_mapping@),
            exists|timing: AudioOutputClockTiming| #[trigger]
                old(self).reads(timing) && final(self).clocks.sought(
                    old(self).clocks,
                    target,
                    now,
                    timing,
                ),
            *final(self) == (PlaybackPipeline { clocks: final(self).clocks, ..*old(self) }),
    {
        self.reanchor_media_clock_for_seek(target, now);
    }

    /// Sets all clocks to the target of a seek.
    pub fn reanchor_media_clock_for_seek(&mut self, position: Duration, observed_at: Instant)
        ensures
            is_chain(old(self).clocks.audio_clock_media_mapping@),
            exists|timing: AudioOutputClockTiming| #[trigger]
                old(self).reads(timing) && final(self).clocks.sought(
                    old(self).clocks,
                    position,
                    observed_at,
                    timing,
                ),
            *final(self) == (PlaybackPipeline { clocks: final(self).clocks, ..*old(self) }),
    {
        let output_timing = self.audio_output_clock_timing();
        self.clocks.reanchor_media_clock_for_seek(position, output_timing, observed_at);
    }

    /// The last generation for which the device confirmed an empty buffer.
    pub fn audio_buffer_clear_generation(&self) -> (r: u64)
        ensures
            r == self.audio_buffer_clear_generation,
    {
        self.audio_buffer_clear_generation
    }

    /// The device has confirmed an empty buffer for a generation.
    pub fn mark_audio_buffer_clear_ack(&mut self, generation: u64)
        ensures
            *final(self) == (PlaybackPipeline {
                audio_buffer_clear_generation: generation,
                ..*old(self)
            }),
    {
        self.audio_buffer_clear_generation = generation;
    }
}

/// The audio clock is read as it tells, and without one nothing has been played or given.
pub proof fn law_audio_clock_is_read_as_it_tells<R: PlaybackResources>(
    pipeline: PlaybackPipeline<R>,
    timing: AudioOutputClockTiming,
    captured: Option<CapturedAudioClockMapping>,
    paused_at: Duration,
    paused: Option<CapturedAudioClockMapping>,
)
    requires
        call_ensures(PlaybackPipeline::<R>::audio_output_clock_timing, (&pipeline,), timing),
        call_ensures(PlaybackPipeline::<R>::capture_audio_clock_mapping, (&pipeline,), captured),
        call_ensures(
            PlaybackPipeline::<R>::capture_paused_audio_clock_mapping,
            (&pipeline, paused_at),
            paused,
        ),
    ensures
        pipeline.audio_clock is None ==> timing.audible_output_position@ == 0
            && timing.submitted_output_end_position@ == 0 && captured is None && paused is None,
        pipeline.audio_clock matches Some(clock) ==> call_ensures(
            <R::AudioClock as PlayerAudioClock>::output_timing,
            (&clock,),
            timing,
        ) && captured is Some && call_ensures(
            <R::AudioClock as PlayerAudioClock>::output_timing,
            (&clock,),
            captured->0.output_timing,
        ) && paused is Some && paused->0.media_position == paused_at,
{
}

/// Without an audio clock the pipeline tells the position that its clocks were set to: by a base,
/// with a rate, or for a seek.
pub proof fn law_pipeline_without_audio_clock_tells_what_it_was_set_to<R: PlaybackResources>(
    before: PlaybackPipeline<R>,
    based: PlaybackPipeline<R>,
    anchored: PlaybackPipeline<R>,
    sought: PlaybackPipeline<R>,
    position: Duration,
    rate: PlaybackRate,
    now: Instant,
    based_at: Duration,
    anchored_at: Duration,
    sought_at: Duration,
    base: Duration,
)
    requires
        before.audio_clock is None,
        rate.wf(),
        position.wf(),
        exists|pipeline: &mut PlaybackPipeline<R>|
            *pipeline == before && *final(pipeline) == based && #[trigger] call_ensures(
                PlaybackPipeline::<R>::set_media_clock_base,
                (pipeline, position),
                (),
            ),
        exists|pipeline: &mut PlaybackPipeline<R>|
            *pipeline == before && *final(pipeline) == anchored && #[trigger] call_ensures(
                PlaybackPipeline::<R>::reanchor_audio_clock_media_mapping,
                (pipeline, position, rate),
                (),
            ),
        exists|pipeline: &mut PlaybackPipeline<R>|
            *pipeline == before && *final(pipeline) == sought && #[trigger] call_ensures(
                PlaybackPipeline::<R>::reset_clocks_for_seek,
                (pipeline, position, now),
                (),
            ),
        call_ensures(PlaybackPipeline::<R>::media_position_from_audio_clock, (&based,), based_at),
        call_ensures(
            PlaybackPipeline::<R>::media_position_from_audio_clock,
            (&anchored,),
            anchored_at,
        ),
        call_ensures(PlaybackPipeline::<R>::media_position_from_audio_clock, (&sought,), sought_at),
        call_ensures(PlaybackPipeline::<R>::media_clock_base, (&sought,), base),
    ensures
        based_at@ == position@,
        anchored_at@ == position@,
        sought_at@ == position@,
        base == position,
        anchored.clocks.audio_clock_media_mapping@.last().playback_rate == rate,
        based.clocks.audio_clock_media_mapping@.last().playback_rate
            == before.clocks.audio_clock_media_mapping@.last().playback_rate,
        sought.clocks.audio_clock_media_mapping@.last().playback_rate
            == before.clocks.audio_clock_media_mapping@.last().playback_rate,
        sought.clocks.monotonic_media_clock_anchor is None,
{
    let old_rate = before.clocks.audio_clock_media_mapping@.last().playback_rate;
    assert(before.clocks.audio_clock_media_mapping@.last().wf());
    crate::playback_rate::lemma_rate_fraction(rate);
    crate::playback_rate::lemma_rate_fraction(old_rate);
    vstd::arithmetic::div_mod::lemma_div_of0(rate.denominator());
    vstd::arithmetic::div_mod::lemma_div_of0(old_rate.denominator());
}

/// The runs at one tempo are numbered in turn from one on: a run that was begun has the number that
/// was proposed, and the next one the number after it.
pub proof fn law_tempo_runs_are_numbered_in_turn<R: PlaybackResources>(
    made_at: Instant,
    made: PlaybackPipeline<R>,
    first: AudioTempoSegment,
    before: PlaybackPipeline<R>,
    after: PlaybackPipeline<R>,
    rate: PlaybackRate,
    segment: AudioTempoSegment,
    next: AudioTempoSegment,
)
    requires
        call_ensures(PlaybackPipeline::<R>::new, (made_at,), made),
        call_ensures(PlaybackPipeline::<R>::propose_audio_tempo_segment, (&made, rate), first),
        call_ensures(PlaybackPipeline::<R>::propose_audio_tempo_segment, (&before, rate), segment),
        exists|pipeline: &mut PlaybackPipeline<R>|
            *pipeline == before && *final(pipeline) == after && #[trigger] call_ensures(
                PlaybackPipeline::<R>::commit_audio_tempo_segment,
                (pipeline, segment),
                (),
            ),
        call_ensures(PlaybackPipeline::<R>::propose_audio_tempo_segment, (&after, rate), next),
    ensures
        first.segment_id == 1,
        segment.playback_rate == rate,
        segment.segment_id < u64::MAX ==> next.segment_id == segment.segment_id + 1,
{
}

/// After the end of the stream the pipeline waits for its own packets first, then for its device;
/// without a selected track it waits for nothing.
pub proof fn law_end_of_stream_waits_for_packets_and_device<R: PlaybackResources>(
    pipeline: PlaybackPipeline<R>,
    state: AudioEofDrainState,
)
    requires
        call_ensures(PlaybackPipeline::<R>::audio_eof_drain_state, (&pipeline,), state),
        pipeline.pending_audio_packets@.len() <= usize::MAX,
    ensures
        state is NoSelectedAudio <==> pipeline.audio_track_id is None,
        state is PendingPackets <==> pipeline.audio_track_id is Some
            && pipeline.pending_audio_packets@.len() > 0,
        state matches AudioEofDrainState::PendingPackets { queued_packets } ==> queued_packets
            == pipeline.pending_audio_packets@.len(),
        state is NoOutput <==> pipeline.audio_track_id is Some
            && pipeline.pending_audio_packets@.len() == 0 && pipeline.audio_output is None,
        state matches AudioEofDrainState::DrainedOutput { playback_requested } ==> {
            &&& playback_requested == pipeline.audio_output_play_requested
            &&& exists|clock: R::AudioClock, timing: AudioOutputClockTiming|
                {
                    &&& #[trigger] call_ensures(
                        <R::AudioOutput as PlayerAudioOutput<R::Sample, R::AudioClock>>::clock,
                        (&pipeline.audio_output->0,),
                        clock,
                    )
                    &&& #[trigger] call_ensures(
                        <R::AudioClock as PlayerAudioClock>::output_timing,
                        (&clock,),
                        timing,
                    )
                    &&& timing.submitted_output_end_position@ <= timing.audible_output_position@
                }
        },
{
}

/// Whether clocks run from a position on, at a rate, from what the audio clock told to be heard.
pub open spec fn runs_from_what_is_heard<C: PlayerAudioClock>(
    clock: C,
    clocks: MediaClocks,
    position: Duration,
    rate: PlaybackRate,
) -> bool {
    &&& clocks.media_clock_base == position
    &&& clocks.audio_clock_media_mapping@.len() == 1
    &&& clocks.audio_clock_media_mapping@[0].media_position_start == position
    &&& clocks.audio_clock_media_mapping@[0].playback_rate == rate
    &&& exists|timing: AudioOutputClockTiming| #[trigger]
        call_ensures(<C as PlayerAudioClock>::output_timing, (&clock,), timing)
            && clocks.audio_clock_media_mapping@[0].output_clock_start
            == timing.audible_output_position
}

/// With an audio clock, a position that is set holds for what is heard at that moment, not for what
/// the device was given: by a base or for a seek at the rate of before, or with a new rate. A seek
/// starts the watch over the output clock anew; the other two leave it alone.
pub proof fn law_position_is_set_for_what_is_heard<R: PlaybackResources>(
    before: PlaybackPipeline<R>,
    based: PlaybackPipeline<R>,
    anchored: PlaybackPipeline<R>,
    sought: PlaybackPipeline<R>,
    position: Duration,
    rate: PlaybackRate,
    now: Instant,
)
    requires
        before.audio_clock is Some,
        exists|pipeline: &mut PlaybackPipeline<R>|
            *pipeline == before && *final(pipeline) == based && #[trigger] call_ensures(
                PlaybackPipeline::<R>::set_media_clock_base,
                (pipeline, position),
                (),
            ),
        exists|pipeline: &mut PlaybackPipeline<R>|
            *pipeline == before && *final(pipeline) == anchored && #[trigger] call_ensures(
                PlaybackPipeline::<R>::reanchor_audio_clock_media_mapping,
                (pipeline, position, rate),
                (),
            ),
        exists|pipeline: &mut PlaybackPipeline<R>|
            *pipeline == before && *final(pipeline) == sought && #[trigger] call_ensures(
                PlaybackPipeline::<R>::reset_clocks_for_seek,
                (pipeline, position, now),
                (),
            ),
    ensures
        runs_from_what_is_heard(
            before.audio_clock->0,
            based.clocks,
            position,
            before.clocks.audio_clock_media_mapping@.last().playback_rate,
        ),
        runs_from_what_is_heard(before.audio_clock->0, anchored.clocks, position, rate),
        runs_from_what_is_heard(
            before.audio_clock->0,
            sought.clocks,
            position,
            before.clocks.audio_clock_media_mapping@.last().playback_rate,
        ),
        based.clocks.last_audio_clock == before.clocks.last_audio_clock,
        based.clocks.last_audio_clock_change_at == before.clocks.last_audio_clock_change_at,
        based.clocks.monotonic_media_clock_anchor == before.clocks.monotonic_media_clock_anchor,
        anchored.clocks.last_audio_clock == before.clocks.last_audio_clock,
        anchored.clocks.last_audio_clock_change_at == before.clocks.last_audio_clock_change_at,
        anchored.clocks.monotonic_media_clock_anchor == before.clocks.monotonic_media_clock_anchor,
        sought.clocks.last_audio_clock@ == 0,
        sought.clocks.last_audio_clock_change_at == now,
{
}

} // verus!
