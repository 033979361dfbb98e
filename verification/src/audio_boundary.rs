//! Factories of what audio needs, and those that stand in where no audio is set up.
use crate::pipeline::audio::{
    AudioDecoderConfig, AudioOutputSpec, AudioTempoPcmFormat, AudioTempoSegment,
};
use crate::text::concat;
use std::sync::Arc;
use vstd::prelude::*;

verus! {

/// What is needed to make a tempo processor.
#[derive(Debug, Clone, Copy, PartialEq, Eq, Structural)]
pub struct AudioTempoProcessorConfig {
    /// Form of the samples.
    pub pcm_format: AudioTempoPcmFormat,
    /// Run with which the processor starts.
    pub initial_segment: AudioTempoSegment,
}

/// A factory of tempo processors. What it makes depends on the machine, so it promises nothing.
pub trait AudioTempoProcessorFactory {
    /// A tempo processor.
    type Processor;

    /// Why none was made.
    type Error;

    /// Makes a tempo processor.
    fn create_processor(&self, config: AudioTempoProcessorConfig) -> Result<
        Self::Processor,
        Self::Error,
    >;
}

/// A factory of audio decoders that makes none.
#[derive(Debug, Clone, Copy)]
pub struct MissingAudioDecoderFactory;

impl MissingAudioDecoderFactory {
    /// Says that no decoder can be made.
    pub fn create_decoder<D>(&self, config: &AudioDecoderConfig) -> (r: Result<D, String>)
        ensures
            r matches Err(error) && error@ == "audio decoder factory is not installed for codec "@
                + config.codec_id@,
    {
        Err(
            concat(
                "audio decoder factory is not installed for codec ",
                config.codec_id.as_str(),
            ),
        )
    }
}

/// A shared factory of audio decoders that makes none.
pub fn missing_audio_decoder_factory() -> (r: Arc<MissingAudioDecoderFactory>)
    ensures
        *r == MissingAudioDecoderFactory,
{
    Arc::new(MissingAudioDecoderFactory)
}

/// A factory of audio devices that makes none.
#[derive(Debug, Clone, Copy)]
pub struct MissingAudioOutputFactory;

impl MissingAudioOutputFactory {
    /// Says that no device can be made.
    pub fn create_output<O>(&self, _spec: AudioOutputSpec) -> (r: Result<O, String>)
        ensures
            r matches Err(error) && error@ == "audio output factory is not installed"@,
    {
        Err("audio output factory is not installed".to_owned())
    }
}

/// A shared factory of audio devices that makes none.
pub fn missing_audio_output_factory() -> (r: Arc<MissingAudioOutputFactory>)
    ensures
        *r == MissingAudioOutputFactory,
{
    Arc::new(MissingAudioOutputFactory)
}

} // verus!
