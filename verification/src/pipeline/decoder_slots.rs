//! The video decoder of the pipeline.
use super::resources::{PlaybackResources, VideoDecoderThread};
use super::video_decoder::{
    control_backpressure, control_backpressure_reason, send_backpressure,
    send_backpressure_reason, DecoderControlChannelPressure, HostUploadResourceStatus,
    VideoDecoderActivitySnapshot, VideoDecoderActivityStatus, VideoDecoderEndOfStreamDrainState,
    VideoDecoderControlBackpressureReason, VideoDecoderSendBackpressure,
};
use super::PlaybackPipeline;
use crate::media::{DecodedFrame, FrameResourceHandle};
use vstd::prelude::*;

verus! {

impl<R: PlaybackResources> PlaybackPipeline<R> {
    /// Takes over a video decoder in the place of another one, which is returned. A search for
    /// a keyframe is given up, and nothing is on its way to the new decoder.
    pub fn replace_video_decoder_thread_handle(&mut self, decoder_thread: R::VideoDecoder) -> (r:
        Option<R::VideoDecoder>)
        requires
            old(self).wf(),
        ensures
            final(self).wf(),
            r == old(self).video_decoder_thread,
            call_ensures(
                <R::VideoDecoder as VideoDecoderThread<R::ResourceProvider, R::FrameMetadata>>::backend_name,
                (&decoder_thread,),
                final(self).video_backend,
            ),
            final(self).video_packets@ == old(self).video_packets@.cancelled(),
            *final(self) == (PlaybackPipeline {
                video_decoder_thread: Some(decoder_thread),
                video_backend: final(self).video_backend,
                video_decode_in_flight_packets: 0,
                video_packets: final(self).video_packets,
                ..*old(self)
            }),
    {
        self.cancel_video_backlog_recovery_scan_for_decoder_replacement();
        self.video_backend = decoder_thread.backend_name();
        let previous_decoder = self.video_decoder_thread.take();
        self.video_decoder_thread = Some(decoder_thread);
        self.reset_video_decode_in_flight();
        previous_decoder
    }

    /// Takes over a video decoder and gives up another one.
    pub fn set_video_decoder_thread(&mut self, decoder_thread: R::VideoDecoder)
        requires
            old(self).wf(),
        ensures
            final(self).wf(),
            call_ensures(
                <R::VideoDecoder as VideoDecoderThread<R::ResourceProvider, R::FrameMetadata>>::backend_name,
                (&decoder_thread,),
                final(self).video_backend,
            ),
            final(self).video_packets@ == old(self).video_packets@.cancelled(),
            *final(self) == (PlaybackPipeline {
                video_decoder_thread: Some(decoder_thread),
                video_backend: final(self).video_backend,
                video_decode_in_flight_packets: 0,
                video_packets: final(self).video_packets,
                ..*old(self)
            }),
    {
        let _previous_decoder = self.replace_video_decoder_thread_handle(decoder_thread);
    }

    /// Whether there is a video decoder.
    pub fn has_active_video_decoder(&self) -> (r: bool)
        ensures
            r == (self.video_decoder_thread is Some),
    {
        self.video_decoder_thread.is_some()
    }

    /// The name of the video decoder.
    pub fn video_backend_name(&self) -> (r: &str)
        ensures
            r@ == self.video_backend@,
    {
        self.video_backend.as_str()
    }

    /// Whether the decoder's own answers lead to this reason not to send packets, where a number
    /// of frames may wait.
    pub open spec fn answers_backpressure(
        self,
        host_upload_ready_queue_capacity: usize,
        reason: Option<VideoDecoderSendBackpressure>,
    ) -> bool {
        match self.video_decoder_thread {
            None => reason == Some(VideoDecoderSendBackpressure::AbsentDecoder),
            Some(decoder) => exists|
                status: HostUploadResourceStatus,
                pressure: Option<DecoderControlChannelPressure>,
            |
                call_ensures(
                    <R::VideoDecoder as VideoDecoderThread<R::ResourceProvider, R::FrameMetadata>>::host_upload_resource_status,
                    (&decoder, host_upload_ready_queue_capacity),
                    status,
                ) && call_ensures(
                    <R::VideoDecoder as VideoDecoderThread<R::ResourceProvider, R::FrameMetadata>>::decoder_control_channel_pressure,
                    (&decoder,),
                    pressure,
                ) && #[trigger] send_backpressure(status, pressure) == reason,
        }
    }

    /// Whether packets may be sent to the decoder, however many frames wait.
    pub fn can_send_video_decode_packets(&self) -> (r: bool)
        ensures
            exists|reason: Option<VideoDecoderSendBackpressure>| #[trigger]
                self.answers_backpressure(usize::MAX, reason) && r == (reason is None),
    {
        let reason = self.video_decoder_send_backpressure(usize::MAX);
        reason.is_none()
    }

    /// What keeps packets from being sent to the decoder. Where there is one, what it says of
    /// itself decides, as [`send_backpressure_reason`] says.
    pub fn video_decoder_send_backpressure(&self, host_upload_ready_queue_capacity: usize) -> (r:
        Option<VideoDecoderSendBackpressure>)
        ensures
            self.answers_backpressure(host_upload_ready_queue_capacity, r),
    {
        match &self.video_decoder_thread {
            None => Some(VideoDecoderSendBackpressure::AbsentDecoder),
            Some(decoder_thread) => {
                let status = decoder_thread.host_upload_resource_status(
                    host_upload_ready_queue_capacity,
                );
                let pressure = decoder_thread.decoder_control_channel_pressure();
                send_backpressure_reason(status, pressure)
            },
        }
    }

    /// Whether frames may be taken from the decoder.
    pub fn can_receive_decoded_video_frames(&self) -> (r: bool)
        ensures
            r == (self.video_decoder_thread is Some),
    {
        self.has_active_video_decoder()
    }

    /// The number of packets that the decoder has not fetched.
    pub fn video_decoder_packet_queue_depth(&self) -> (r: Option<usize>)
        ensures
            match self.video_decoder_thread {
                Some(decoder) => r matches Some(result) && call_ensures(
                    <R::VideoDecoder as VideoDecoderThread<R::ResourceProvider, R::FrameMetadata>>::packet_queue_depth,
                    (&decoder,),
                    result,
                ),
                None => r is None,
            },
    {
        match &self.video_decoder_thread {
            Some(decoder_thread) => Some(decoder_thread.packet_queue_depth()),
            None => None,
        }
    }

    /// The textures of the decoder.
    pub fn video_decoder_resource_snapshot(&self) -> (r: Option<
        <R::VideoDecoder as VideoDecoderThread<R::ResourceProvider, R::FrameMetadata>>::ResourceSnapshot,
    >)
        ensures
            match self.video_decoder_thread {
                Some(decoder) => call_ensures(
                    <R::VideoDecoder as VideoDecoderThread<R::ResourceProvider, R::FrameMetadata>>::decoder_resource_snapshot,
                    (&decoder,),
                    r,
                ),
                None => r is None,
            },
    {
        match &self.video_decoder_thread {
            Some(decoder_thread) => decoder_thread.decoder_resource_snapshot(),
            None => None,
        }
    }

    /// Whether frames that are uploaded from host memory find a place.
    pub fn host_upload_resource_snapshot(&self, ready_queue_capacity: usize) -> (r:
        HostUploadResourceStatus)
        ensures
            match self.video_decoder_thread {
                Some(decoder) => call_ensures(
                    <R::VideoDecoder as VideoDecoderThread<R::ResourceProvider, R::FrameMetadata>>::host_upload_resource_status,
                    (&decoder, ready_queue_capacity),
                    r,
                ),
                None => r is AbsentDecoder,
            },
    {
        match &self.video_decoder_thread {
            Some(decoder_thread) => decoder_thread.host_upload_resource_status(
                ready_queue_capacity,
            ),
            None => HostUploadResourceStatus::AbsentDecoder,
        }
    }

    /// How full the way to the decoder is.
    pub fn video_decoder_control_channel_pressure(&self) -> (r: Option<
        DecoderControlChannelPressure,
    >)
        ensures
            match self.video_decoder_thread {
                Some(decoder) => call_ensures(
                    <R::VideoDecoder as VideoDecoderThread<R::ResourceProvider, R::FrameMetadata>>::decoder_control_channel_pressure,
                    (&decoder,),
                    r,
                ),
                None => r is None,
            },
    {
        match &self.video_decoder_thread {
            Some(decoder_thread) => decoder_thread.decoder_control_channel_pressure(),
            None => None,
        }
    }

    /// What keeps the decoder from taking messages, as [`control_backpressure_reason`] says.
    pub fn decoder_control_backpressure_reason(&self) -> (r: Option<
        VideoDecoderControlBackpressureReason,
    >)
        ensures
            match self.video_decoder_thread {
                Some(decoder) => exists|pressure: Option<DecoderControlChannelPressure>|
                    call_ensures(
                        <R::VideoDecoder as VideoDecoderThread<R::ResourceProvider, R::FrameMetadata>>::decoder_control_channel_pressure,
                        (&decoder,),
                        pressure,
                    ) && #[trigger] control_backpressure(pressure) == r,
                None => r is None,
            },
    {
        let pressure = self.video_decoder_control_channel_pressure();
        control_backpressure_reason(pressure)
    }

    /// Whether one can wait for the decoder to do something.
    pub fn video_decoder_activity_status(&self) -> (r: VideoDecoderActivityStatus<
        <R::VideoDecoder as VideoDecoderThread<R::ResourceProvider, R::FrameMetadata>>::ActivitySubscription,
    >)
        ensures
            match self.video_decoder_thread {
                Some(decoder) => exists|
                    snapshot: VideoDecoderActivitySnapshot<
                        <R::VideoDecoder as VideoDecoderThread<R::ResourceProvider, R::FrameMetadata>>::ActivitySubscription,
                    >,
                |
                    call_ensures(
                        <R::VideoDecoder as VideoDecoderThread<R::ResourceProvider, R::FrameMetadata>>::decoder_activity_snapshot,
                        (&decoder,),
                        snapshot,
                    ) && #[trigger] VideoDecoderActivityStatus::of(Some(snapshot)) == r,
                None => r is AbsentDecoder,
            },
    {
        let snapshot = match &self.video_decoder_thread {
            Some(decoder_thread) => Some(decoder_thread.decoder_activity_snapshot()),
            None => None,
        };
        VideoDecoderActivityStatus::from_snapshot(snapshot)
    }

    /// Access of the renderer to the decoder's textures.
    pub fn video_decoder_resource_provider(&self) -> (r: Option<R::ResourceProvider>)
        ensures
            match self.video_decoder_thread {
                Some(decoder) => r matches Some(result) && call_ensures(
                    <R::VideoDecoder as VideoDecoderThread<R::ResourceProvider, R::FrameMetadata>>::resource_provider,
                    (&decoder,),
                    result,
                ),
                None => r is None,
            },
    {
        match &self.video_decoder_thread {
            Some(decoder_thread) => Some(decoder_thread.resource_provider()),
            None => None,
        }
    }

    /// Gives a texture back to the decoder, and returns whether there is one.
    pub fn release_frame_to_video_decoder(&self, resource_handle: FrameResourceHandle) -> (r: bool)
        ensures
            match self.video_decoder_thread {
                Some(decoder) => r && call_ensures(
                    <R::VideoDecoder as VideoDecoderThread<R::ResourceProvider, R::FrameMetadata>>::release_frame,
                    (&decoder, resource_handle),
                    (),
                ),
                None => !r,
            },
    {
        match &self.video_decoder_thread {
            Some(decoder_thread) => {
                decoder_thread.release_frame(resource_handle);
                true
            },
            None => false,
        }
    }

    /// Sets the stream that the decoder decodes. Nothing comes back without a decoder.
    pub fn configure_video_decoder_stream(
        &self,
        config: <R::VideoDecoder as VideoDecoderThread<R::ResourceProvider, R::FrameMetadata>>::StreamConfig,
    ) -> (r: Option<
        <R::VideoDecoder as VideoDecoderThread<R::ResourceProvider, R::FrameMetadata>>::StreamConfigResult,
    >)
        ensures
            match self.video_decoder_thread {
                Some(decoder) => r matches Some(result) && call_ensures(
                    <R::VideoDecoder as VideoDecoderThread<R::ResourceProvider, R::FrameMetadata>>::configure_stream,
                    (&decoder, config),
                    result,
                ),
                None => r is None,
            },
    {
        match &self.video_decoder_thread {
            Some(decoder_thread) => Some(decoder_thread.configure_stream(config)),
            None => None,
        }
    }

    /// Ends the stream that the decoder decodes. Nothing comes back without a decoder.
    pub fn clear_video_decoder_stream(&self) -> (r: Option<
        <R::VideoDecoder as VideoDecoderThread<R::ResourceProvider, R::FrameMetadata>>::StreamConfigResult,
    >)
        ensures
            match self.video_decoder_thread {
                Some(decoder) => r matches Some(result) && call_ensures(
                    <R::VideoDecoder as VideoDecoderThread<R::ResourceProvider, R::FrameMetadata>>::clear_stream,
                    (&decoder,),
                    result,
                ),
                None => r is None,
            },
    {
        match &self.video_decoder_thread {
            Some(decoder_thread) => Some(decoder_thread.clear_stream()),
            None => None,
        }
    }

    /// Sets from where on frames are wanted. Nothing comes back without a decoder.
    pub fn set_video_decoder_preroll_output_floor(
        &self,
        floor: <R::VideoDecoder as VideoDecoderThread<R::ResourceProvider, R::FrameMetadata>>::OutputFloor,
    ) -> (r: Option<
        <R::VideoDecoder as VideoDecoderThread<R::ResourceProvider, R::FrameMetadata>>::OutputFloorResult,
    >)
        ensures
            match self.video_decoder_thread {
                Some(decoder) => r matches Some(result) && call_ensures(
                    <R::VideoDecoder as VideoDecoderThread<R::ResourceProvider, R::FrameMetadata>>::set_preroll_output_floor,
                    (&decoder, floor),
                    result,
                ),
                None => r is None,
            },
    {
        match &self.video_decoder_thread {
            Some(decoder_thread) => Some(decoder_thread.set_preroll_output_floor(floor)),
            None => None,
        }
    }

    /// Ends that. Nothing comes back without a decoder.
    pub fn clear_video_decoder_preroll_output_floor(
        &self,
        clear: <R::VideoDecoder as VideoDecoderThread<R::ResourceProvider, R::FrameMetadata>>::OutputFloorClear,
    ) -> (r: Option<
        <R::VideoDecoder as VideoDecoderThread<R::ResourceProvider, R::FrameMetadata>>::OutputFloorResult,
    >)
        ensures
            match self.video_decoder_thread {
                Some(decoder) => r matches Some(result) && call_ensures(
                    <R::VideoDecoder as VideoDecoderThread<R::ResourceProvider, R::FrameMetadata>>::clear_preroll_output_floor,
                    (&decoder, clear),
                    result,
                ),
                None => r is None,
            },
    {
        match &self.video_decoder_thread {
            Some(decoder_thread) => Some(decoder_thread.clear_preroll_output_floor(clear)),
            None => None,
        }
    }

    /// Makes the decoder hand over what it holds back. Nothing comes back without a decoder.
    pub fn begin_video_decoder_end_of_stream_drain(&self, generation: u64) -> (r: Option<
        <R::VideoDecoder as VideoDecoderThread<R::ResourceProvider, R::FrameMetadata>>::DrainResult,
    >)
        ensures
            match self.video_decoder_thread {
                Some(decoder) => r matches Some(result) && call_ensures(
                    <R::VideoDecoder as VideoDecoderThread<R::ResourceProvider, R::FrameMetadata>>::begin_end_of_stream_drain,
                    (&decoder, generation),
                    result,
                ),
                None => r is None,
            },
    {
        match &self.video_decoder_thread {
            Some(decoder_thread) => Some(decoder_thread.begin_end_of_stream_drain(generation)),
            None => None,
        }
    }

    /// How far that has come. Nothing is under way without a decoder.
    pub fn video_decoder_end_of_stream_drain_state(&self) -> (r: VideoDecoderEndOfStreamDrainState<
        <R::VideoDecoder as VideoDecoderThread<R::ResourceProvider, R::FrameMetadata>>::DrainProgress,
    >)
        ensures
            match self.video_decoder_thread {
                Some(decoder) => call_ensures(
                    <R::VideoDecoder as VideoDecoderThread<R::ResourceProvider, R::FrameMetadata>>::end_of_stream_drain_state,
                    (&decoder,),
                    r,
                ),
                None => r is Idle,
            },
    {
        match &self.video_decoder_thread {
            Some(decoder_thread) => decoder_thread.end_of_stream_drain_state(),
            None => VideoDecoderEndOfStreamDrainState::Idle,
        }
    }

    /// Makes the decoder drop everything. Without a decoder there is nothing to drop.
    pub fn flush_video_decoder_thread(&self) -> (r: Result<
        (),
        <R::VideoDecoder as VideoDecoderThread<R::ResourceProvider, R::FrameMetadata>>::FlushError,
    >)
        ensures
            match self.video_decoder_thread {
                Some(decoder) => call_ensures(
                    <R::VideoDecoder as VideoDecoderThread<R::ResourceProvider, R::FrameMetadata>>::flush,
                    (&decoder,),
                    r,
                ),
                None => r is Ok,
            },
    {
        match &self.video_decoder_thread {
            Some(decoder_thread) => decoder_thread.flush(),
            None => Ok(()),
        }
    }

    /// Takes a frame from the decoder.
    pub fn try_recv_decoded_video_frame(&self) -> (r: Option<DecodedFrame<R::FrameMetadata>>)
        ensures
            match self.video_decoder_thread {
                Some(decoder) => call_ensures(
                    <R::VideoDecoder as VideoDecoderThread<R::ResourceProvider, R::FrameMetadata>>::try_recv_frame,
                    (&decoder,),
                    r,
                ),
                None => r is None,
            },
    {
        match &self.video_decoder_thread {
            Some(decoder_thread) => decoder_thread.try_recv_frame(),
            None => None,
        }
    }

    /// Takes something the decoder has to say.
    pub fn try_recv_video_decoder_diagnostic_event(&self) -> (r: Option<
        <R::VideoDecoder as VideoDecoderThread<R::ResourceProvider, R::FrameMetadata>>::DiagnosticEvent,
    >)
        ensures
            match self.video_decoder_thread {
                Some(decoder) => call_ensures(
                    <R::VideoDecoder as VideoDecoderThread<R::ResourceProvider, R::FrameMetadata>>::try_recv_diagnostic_event,
                    (&decoder,),
                    r,
                ),
                None => r is None,
            },
    {
        match &self.video_decoder_thread {
            Some(decoder_thread) => decoder_thread.try_recv_diagnostic_event(),
            None => None,
        }
    }

    /// Takes the reason for which the decoder stopped.
    pub fn try_recv_video_decoder_error(&self) -> (r: Option<
        <R::VideoDecoder as VideoDecoderThread<R::ResourceProvider, R::FrameMetadata>>::ThreadError,
    >)
        ensures
            match self.video_decoder_thread {
                Some(decoder) => call_ensures(
                    <R::VideoDecoder as VideoDecoderThread<R::ResourceProvider, R::FrameMetadata>>::try_recv_error,
                    (&decoder,),
                    r,
                ),
                None => r is None,
            },
    {
        match &self.video_decoder_thread {
            Some(decoder_thread) => decoder_thread.try_recv_error(),
            None => None,
        }
    }

    /// Takes the number of packets that the decoder is done with.
    pub fn drain_completed_video_decode_packet_count(&self) -> (r: usize)
        ensures
            match self.video_decoder_thread {
                Some(decoder) => call_ensures(
                    <R::VideoDecoder as VideoDecoderThread<R::ResourceProvider, R::FrameMetadata>>::drain_completed_packet_count,
                    (&decoder,),
                    r,
                ),
                None => r == 0,
            },
    {
        match &self.video_decoder_thread {
            Some(decoder_thread) => decoder_thread.drain_completed_packet_count(),
            None => 0,
        }
    }

    /// Hands a packet to the decoder. Nothing comes back without a decoder.
    pub fn send_video_decode_packet(
        &self,
        packet: <R::VideoDecoder as VideoDecoderThread<R::ResourceProvider, R::FrameMetadata>>::Packet,
    ) -> (r: Option<
        Result<(), <R::VideoDecoder as VideoDecoderThread<R::ResourceProvider, R::FrameMetadata>>::SendError>,
    >)
        ensures
            match self.video_decoder_thread {
                Some(decoder) => r matches Some(result) && call_ensures(
                    <R::VideoDecoder as VideoDecoderThread<R::ResourceProvider, R::FrameMetadata>>::send_packet,
                    (&decoder, packet),
                    result,
                ),
                None => r is None,
            },
    {
        match &self.video_decoder_thread {
            Some(decoder_thread) => Some(decoder_thread.send_packet(packet)),
            None => None,
        }
    }

    /// Nothing is on its way in the decoder.
    pub fn reset_video_decode_in_flight(&mut self)
        ensures
            *final(self) == (PlaybackPipeline { video_decode_in_flight_packets: 0, ..*old(self) }),
    {
        self.video_decode_in_flight_packets = 0;
    }

    /// A packet has gone to the decoder.
    pub fn note_video_packet_sent_to_decoder(&mut self)
        ensures
            *final(self) == (PlaybackPipeline {
                video_decode_in_flight_packets: if old(self).video_decode_in_flight_packets
                    == usize::MAX {
                    usize::MAX
                } else {
                    (old(self).video_decode_in_flight_packets + 1) as usize
                },
                ..*old(self)
            }),
    {
        self.video_decode_in_flight_packets = self.video_decode_in_flight_packets.saturating_add(1);
    }

    /// The decoder is done with packets, whatever frames they gave.
    pub fn note_video_packets_completed_by_decoder(&mut self, packet_count: usize)
        ensures
            *final(self) == (PlaybackPipeline {
                video_decode_in_flight_packets: if old(self).video_decode_in_flight_packets
                    <= packet_count {
                    0
                } else {
                    (old(self).video_decode_in_flight_packets - packet_count) as usize
                },
                ..*old(self)
            }),
    {
        self.video_decode_in_flight_packets =
        self.video_decode_in_flight_packets.saturating_sub(packet_count);
    }

    /// The number of packets that are on their way in the decoder.
    pub fn video_decode_in_flight_packets(&self) -> (r: usize)
        ensures
            r == self.video_decode_in_flight_packets,
    {
        self.video_decode_in_flight_packets
    }
}

/// Packets may be sent only to a decoder that is there. What holds them back is the decoder's own
/// answer, to the very number of frames that may wait.
pub proof fn law_decoder_is_asked_with_the_given_capacity<R: PlaybackResources>(
    pipeline: PlaybackPipeline<R>,
    capacity: usize,
    reason: Option<VideoDecoderSendBackpressure>,
    can_send: bool,
)
    requires
        call_ensures(
            PlaybackPipeline::<R>::video_decoder_send_backpressure,
            (&pipeline, capacity),
            reason,
        ),
        call_ensures(PlaybackPipeline::<R>::can_send_video_decode_packets, (&pipeline,), can_send),
    ensures
        pipeline.video_decoder_thread is None ==> reason == Some(
            VideoDecoderSendBackpressure::AbsentDecoder,
        ) && !can_send,
        reason matches Some(VideoDecoderSendBackpressure::HostUpload(upload))
            ==> pipeline.video_decoder_thread is Some && call_ensures(
            <R::VideoDecoder as VideoDecoderThread<R::ResourceProvider, R::FrameMetadata>>::host_upload_resource_status,
            (&pipeline.video_decoder_thread->0, capacity),
            HostUploadResourceStatus::Available(Some(upload)),
        ),
        reason matches Some(
            VideoDecoderSendBackpressure::DecoderControl(
                VideoDecoderControlBackpressureReason::ControlChannelFull {
                    queued_messages,
                    capacity: places,
                },
            ),
        ) ==> 0 < places <= queued_messages && pipeline.video_decoder_thread is Some
            && call_ensures(
            <R::VideoDecoder as VideoDecoderThread<R::ResourceProvider, R::FrameMetadata>>::decoder_control_channel_pressure,
            (&pipeline.video_decoder_thread->0,),
            Some(
                DecoderControlChannelPressure {
                    control_channel_len: queued_messages,
                    control_channel_capacity: places,
                },
            ),
        ),
        can_send ==> pipeline.video_decoder_thread is Some && exists|
            status: HostUploadResourceStatus,
        | #[trigger]
            call_ensures(
                <R::VideoDecoder as VideoDecoderThread<R::ResourceProvider, R::FrameMetadata>>::host_upload_resource_status,
                (&pipeline.video_decoder_thread->0, usize::MAX),
                status,
            ) && (status is AbsentResource || status is UnsupportedBackend || status
                == HostUploadResourceStatus::Available(None)),
{
}

/// The packets in the decoder are those that were sent and are not done: one more for each that
/// goes, and none after they were all reported done.
pub proof fn law_packets_in_the_decoder_are_counted<R: PlaybackResources>(
    before: PlaybackPipeline<R>,
    sent: PlaybackPipeline<R>,
    done: PlaybackPipeline<R>,
    count: usize,
    in_flight: usize,
    in_flight_sent: usize,
    in_flight_done: usize,
)
    requires
        call_ensures(PlaybackPipeline::<R>::video_decode_in_flight_packets, (&before,), in_flight),
        exists|pipeline: &mut PlaybackPipeline<R>|
            *pipeline == before && *final(pipeline) == sent && #[trigger] call_ensures(
                PlaybackPipeline::<R>::note_video_packet_sent_to_decoder,
                (pipeline,),
                (),
            ),
        call_ensures(
            PlaybackPipeline::<R>::video_decode_in_flight_packets,
            (&sent,),
            in_flight_sent,
        ),
        exists|pipeline: &mut PlaybackPipeline<R>|
            *pipeline == sent && *final(pipeline) == done && #[trigger] call_ensures(
                PlaybackPipeline::<R>::note_video_packets_completed_by_decoder,
                (pipeline, count),
                (),
            ),
        call_ensures(
            PlaybackPipeline::<R>::video_decode_in_flight_packets,
            (&done,),
            in_flight_done,
        ),
    ensures
        in_flight < usize::MAX ==> in_flight_sent == in_flight + 1,
        count <= in_flight_sent ==> in_flight_done == in_flight_sent - count,
        count > in_flight_sent ==> in_flight_done == 0,
{
}

/// A new decoder starts with nothing on its way and gives up a search for a keyframe of the former
/// one; the packets that the search held back wait again.
pub proof fn law_new_decoder_starts_with_nothing_on_its_way<R: PlaybackResources>(
    before: PlaybackPipeline<R>,
    after: PlaybackPipeline<R>,
    decoder: R::VideoDecoder,
    former: Option<R::VideoDecoder>,
)
    requires
        exists|pipeline: &mut PlaybackPipeline<R>|
            *pipeline == before && *final(pipeline) == after && #[trigger] call_ensures(
                PlaybackPipeline::<R>::replace_video_decoder_thread_handle,
                (pipeline, decoder),
                former,
            ),
    ensures
        former == before.video_decoder_thread,
        after.video_decoder_thread == Some(decoder),
        after.video_decode_in_flight_packets == 0,
        after.video_packets@.staged.len() == 0,
        after.video_frame_queue == before.video_frame_queue,
        after.present_video_frame == before.present_video_frame,
        after.render_leases == before.render_leases,
        after.video_decoder_needs_keyframe == before.video_decoder_needs_keyframe,
{
}

} // verus!
