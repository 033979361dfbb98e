//! Source, selection, queues and frames of the pipeline.
use super::audio::{audio_readiness, audio_seek_runtime_state_from_slots, AudioSeekRuntimeState};
use super::frame_timing::{smoothed, DEFAULT_VIDEO_FRAME_MICROS};
use super::lease_table::RenderLeaseKey;
use super::packets::{PendingAudioPacket, PendingVideoPacket};
use super::render_resources::{
    RenderLeaseLedgerView, RenderLeaseReleaseEffect, RetiredVideoDecoderOutcome,
    VideoTextureReleaseEffect,
};
use super::resources::{PlaybackResources, VideoDecoderThread};
use super::video_backlog_recovery::{
    total_bytes, VideoBacklogRecoveryContext, VideoBacklogRecoveryEofReport,
    VideoBacklogRecoveryRateChangeReport, VideoBacklogRecoveryRouteOutcome,
    VideoBacklogRecoveryScanLimits, VideoBacklogRecoveryScanStart, VideoBacklogRecoveryState,
    VideoPacketQueue, VideoPacketQueueView,
};
use super::PlaybackPipeline;
use crate::demux::{DemuxReadEvent, DemuxSeekRequest, DemuxSeekResult, Demuxer, TrackInfo};
use crate::media::{
    DecodedFrame, DmaBufImageLayout, FrameResourceHandle, PacketKeyframe, TrackId, TrackKind,
    VideoDecodeRequirement, VideoFrameContract, VideoFramePixelLayout,
};
use crate::playback_rate::{PlaybackRate, NORMAL_RATE_BITS};
use crate::time::{Duration, Instant};
use std::path::PathBuf;
use vstd::prelude::*;

verus! {

/// The frame contract of a track of which no capability was asked.
pub open spec fn unprobed_contract(requirement: VideoDecodeRequirement) -> VideoFrameContract {
    if requirement.pixel_layout == Some(VideoFramePixelLayout::P010) {
        VideoFrameContract {
            pixel_layout: VideoFramePixelLayout::P010,
            image_layout: DmaBufImageLayout::SeparateLayers,
        }
    } else {
        VideoFrameContract {
            pixel_layout: VideoFramePixelLayout::Nv12,
            image_layout: DmaBufImageLayout::ComposedLayers,
        }
    }
}

/// The frame contract of a track of which no capability was asked.
pub fn fallback_frame_contract_for_unprobed_requirement(requirement: VideoDecodeRequirement) -> (r:
    VideoFrameContract)
    ensures
        r == unprobed_contract(requirement),
{
    match requirement.pixel_layout {
        Some(VideoFramePixelLayout::P010) => VideoFrameContract {
            pixel_layout: VideoFramePixelLayout::P010,
            image_layout: DmaBufImageLayout::SeparateLayers,
        },
        _ => VideoFrameContract {
            pixel_layout: VideoFramePixelLayout::Nv12,
            image_layout: DmaBufImageLayout::ComposedLayers,
        },
    }
}

/// Whether one of the tracks is a video track.
pub open spec fn has_video<T>(tracks: Seq<TrackInfo<T>>) -> bool {
    exists|i: int| 0 <= i < tracks.len() && (#[trigger] tracks[i]).kind == TrackKind::Video
}

/// Whether one of the tracks is a video track.
fn has_video_track<T>(tracks: &Vec<TrackInfo<T>>) -> (r: bool)
    ensures
        r == has_video(tracks@),
{
    let mut index: usize = 0;
    while index < tracks.len()
        invariant
            index <= tracks@.len(),
            forall|i: int| 0 <= i < index ==> (#[trigger] tracks@[i]).kind != TrackKind::Video,
        decreases tracks@.len() - index,
    {
        if tracks[index].kind == TrackKind::Video {
            return true;
        }
        index = index + 1;
    }
    false
}

impl<R: PlaybackResources> PlaybackPipeline<R> {
    /// The selected video track.
    pub fn selected_video_track_id(&self) -> (r: Option<TrackId>)
        ensures
            r == self.video_track_id,
    {
        self.video_track_id
    }

    /// The selected audio track.
    pub fn selected_audio_track_id(&self) -> (r: Option<TrackId>)
        ensures
            r == self.audio_track_id,
    {
        self.audio_track_id
    }

    /// Whether a video track is selected.
    pub fn has_selected_video_track(&self) -> (r: bool)
        ensures
            r == (self.video_track_id is Some),
    {
        self.video_track_id.is_some()
    }

    /// Whether an audio track is selected.
    pub fn has_selected_audio_track(&self) -> (r: bool)
        ensures
            r == (self.audio_track_id is Some),
    {
        self.audio_track_id.is_some()
    }

    /// How far the audio of the selected track is ready.
    pub fn audio_seek_runtime_state(&self) -> (r: AudioSeekRuntimeState)
        ensures
            r == audio_readiness(
                self.audio_track_id is Some,
                self.audio_decoder is Some,
                self.audio_output is Some,
            ),
    {
        audio_seek_runtime_state_from_slots(
            self.audio_track_id.is_some(),
            self.audio_decoder.is_some(),
            self.audio_output.is_some(),
        )
    }

    /// Whether a packet belongs to the selected video track.
    pub fn video_packet_belongs_to_selected_track(&self, track_id: TrackId) -> (r: bool)
        ensures
            r == (self.video_track_id == Some(track_id)),
    {
        match self.video_track_id {
            Some(selected) => selected == track_id,
            None => false,
        }
    }

    /// Selects a video track of which no capability was asked.
    pub fn select_video_track(&mut self, track_id: TrackId, requirement: VideoDecodeRequirement)
        ensures
            *final(self) == (PlaybackPipeline {
                video_track_id: Some(track_id),
                active_video_requirement: Some(requirement),
                active_video_frame_contract: Some(unprobed_contract(requirement)),
                ..*old(self)
            }),
    {
        let frame_contract = fallback_frame_contract_for_unprobed_requirement(requirement);
        self.select_video_track_with_frame_contract(track_id, requirement, frame_contract);
    }

    /// Selects a video track with what its decoder has to publish.
    pub fn select_video_track_with_frame_contract(
        &mut self,
        track_id: TrackId,
        requirement: VideoDecodeRequirement,
        frame_contract: VideoFrameContract,
    )
        ensures
            *final(self) == (PlaybackPipeline {
                video_track_id: Some(track_id),
                active_video_requirement: Some(requirement),
                active_video_frame_contract: Some(frame_contract),
                ..*old(self)
            }),
    {
        self.video_track_id = Some(track_id);
        self.active_video_requirement = Some(requirement);
        self.active_video_frame_contract = Some(frame_contract);
    }

    /// Selects an audio track.
    pub fn select_audio_track(&mut self, track_id: TrackId)
        ensures
            *final(self) == (PlaybackPipeline { audio_track_id: Some(track_id), ..*old(self) }),
    {
        self.audio_track_id = Some(track_id);
    }

    /// Selects no audio track, and forgets what its decoder was to be made from.
    pub fn clear_selected_audio_track(&mut self)
        ensures
            *final(self) == (PlaybackPipeline {
                audio_track_id: None,
                deferred_audio_decoder_config: None,
                ..*old(self)
            }),
    {
        self.audio_track_id = None;
        self.clear_deferred_audio_decoder_config();
    }

    /// Selects no track. Queues, decoders and source stay as they are.
    pub fn clear_selected_tracks(&mut self)
        ensures
            *final(self) == (PlaybackPipeline {
                audio_track_id: None,
                video_track_id: None,
                active_video_requirement: None,
                active_video_frame_contract: None,
                ..*old(self)
            }),
    {
        self.audio_track_id = None;
        self.video_track_id = None;
        self.active_video_requirement = None;
        self.active_video_frame_contract = None;
    }

    /// What the selected video track asks of a decoder.
    pub fn active_video_requirement(&self) -> (r: Option<VideoDecodeRequirement>)
        ensures
            r == self.active_video_requirement,
    {
        self.active_video_requirement
    }

    /// What the decoder has to publish.
    pub fn active_video_frame_contract(&self) -> (r: Option<VideoFrameContract>)
        ensures
            r == self.active_video_frame_contract,
    {
        self.active_video_frame_contract
    }

    /// Takes over a requirement and a frame contract that were checked.
    pub fn set_active_video_selection(
        &mut self,
        requirement: VideoDecodeRequirement,
        frame_contract: VideoFrameContract,
    )
        ensures
            *final(self) == (PlaybackPipeline {
                active_video_requirement: Some(requirement),
                active_video_frame_contract: Some(frame_contract),
                ..*old(self)
            }),
    {
        self.active_video_requirement = Some(requirement);
        self.active_video_frame_contract = Some(frame_contract);
    }

    /// Takes over a requirement of which no capability was asked.
    pub fn set_active_video_requirement(&mut self, requirement: VideoDecodeRequirement)
        ensures
            *final(self) == (PlaybackPipeline {
                active_video_requirement: Some(requirement),
                active_video_frame_contract: Some(unprobed_contract(requirement)),
                ..*old(self)
            }),
    {
        let frame_contract = fallback_frame_contract_for_unprobed_requirement(requirement);
        self.set_active_video_selection(requirement, frame_contract);
    }

    /// The generation of packets.
    pub fn seek_generation(&self) -> (r: u64)
        ensures
            r == self.seek_generation,
    {
        self.seek_generation
    }

    /// Begins the next generation of packets. The last one that there is has no successor, so
    /// no old packet becomes current again.
    pub fn begin_seek_generation(&mut self) -> (r: u64)
        ensures
            r == if old(self).seek_generation == u64::MAX {
                u64::MAX
            } else {
                (old(self).seek_generation + 1) as u64
            },
            r >= old(self).seek_generation,
            *final(self) == (PlaybackPipeline { seek_generation: r, ..*old(self) }),
    {
        self.seek_generation = self.seek_generation.saturating_add(1);
        self.seek_generation
    }

    /// Sets the generation of packets.
    pub fn set_seek_generation_for_tests(&mut self, generation: u64)
        ensures
            *final(self) == (PlaybackPipeline { seek_generation: generation, ..*old(self) }),
    {
        self.seek_generation = generation;
    }

    /// Whether a packet was read since the last seek.
    pub fn packet_generation_is_current(&self, generation: u64) -> (r: bool)
        ensures
            r == (generation == self.seek_generation),
    {
        generation == self.seek_generation
    }

    /// How long a frame is shown.
    pub fn video_frame_duration_estimate(&self) -> (r: Duration)
        ensures
            r@ == self.video_frame_timing.micros() * 1_000,
    {
        self.video_frame_timing.video_frame_duration_estimate()
    }

    /// Takes note of a decoded frame for the estimate of how long frames are shown.
    pub fn observe_decoded_video_frame_pts(&mut self, pts: Duration)
        ensures
            final(self).video_frame_timing.last_seen() == Some(pts),
            final(self).video_frame_timing.micros() == match old(self).video_frame_timing.last_seen() {
                None => old(self).video_frame_timing.micros(),
                Some(previous) => smoothed(
                    old(self).video_frame_timing.micros(),
                    if pts@ > previous@ {
                        pts@ - previous@
                    } else {
                        0
                    },
                ),
            },
            *final(self) == (PlaybackPipeline {
                video_frame_timing: final(self).video_frame_timing,
                ..*old(self)
            }),
    {
        self.video_frame_timing.observe_decoded_video_frame_pts(pts);
    }

    /// Starts the estimate anew.
    pub fn reset_video_frame_timing_estimator(&mut self)
        ensures
            final(self).video_frame_timing.micros() == DEFAULT_VIDEO_FRAME_MICROS,
            final(self).video_frame_timing.last_seen() is None,
            *final(self) == (PlaybackPipeline {
                video_frame_timing: final(self).video_frame_timing,
                ..*old(self)
            }),
    {
        self.video_frame_timing.reset_video_frame_timing_estimator();
    }

    /// Drops all packets that wait.
    pub fn clear_pending_packets_for_seek(&mut self)
        requires
            old(self).wf(),
        ensures
            final(self).wf(),
            final(self).pending_audio_packets@.len() == 0,
            final(self).video_packets@ == (VideoPacketQueueView {
                pending: Seq::empty(),
                admission_waits_for_keyframe: false,
                ..old(self).video_packets@.cancelled()
            }),
            *final(self) == (PlaybackPipeline {
                pending_audio_packets: final(self).pending_audio_packets,
                video_packets: final(self).video_packets,
                ..*old(self)
            }),
    {
        self.clear_pending_audio_packets();
        self.clear_pending_video_packets();
    }

    /// Takes back what holds of the decoder only before a seek.
    pub fn reset_decoder_state_for_seek(&mut self, has_video: bool)
        ensures
            final(self).video_frame_timing.last_seen() is None,
            final(self).video_frame_timing.micros() == old(self).video_frame_timing.micros(),
            *final(self) == (PlaybackPipeline {
                video_decoder_needs_keyframe: has_video,
                video_decode_in_flight_packets: 0,
                video_frame_timing: final(self).video_frame_timing,
                ..*old(self)
            }),
    {
        if has_video {
            self.require_video_decoder_keyframe();
        } else {
            self.mark_video_decoder_bootstrapped();
        }
        self.reset_video_decode_in_flight();
        self.video_frame_timing.forget_last_decoded_video_pts();
    }

    /// Takes the frames away that wait to be shown, and returns their textures.
    pub fn clear_video_queues(&mut self) -> (r: Vec<FrameResourceHandle>)
        ensures
            r@ == old(self).video_frame_queue@.map_values(
                |frame: DecodedFrame<R::FrameMetadata>| frame.resource_handle,
            ),
            final(self).video_frame_queue@.len() == 0,
            *final(self) == (PlaybackPipeline {
                video_frame_queue: final(self).video_frame_queue,
                ..*old(self)
            }),
    {
        let mut handles: Vec<FrameResourceHandle> = Vec::new();
        let ghost frames = self.video_frame_queue@;
        let mut index: usize = 0;
        while index < self.video_frame_queue.len()
            invariant
                index <= frames.len(),
                frames == self.video_frame_queue@,
                *self == *old(self),
                handles@ == frames.take(index as int).map_values(
                    |frame: DecodedFrame<R::FrameMetadata>| frame.resource_handle,
                ),
            decreases frames.len() - index,
        {
            handles.push(self.video_frame_queue[index].resource_handle);
            index = index + 1;
            assert(frames.take(index as int) =~= frames.take(index - 1).push(frames[index - 1]));
            assert(handles@ =~= frames.take(index as int).map_values(
                |frame: DecodedFrame<R::FrameMetadata>| frame.resource_handle,
            ));
        }
        assert(frames.take(index as int) =~= frames);
        self.video_frame_queue.clear();
        handles
    }

    /// The frame that is shown.
    pub fn present_video_frame(&self) -> (r: Option<&DecodedFrame<R::FrameMetadata>>)
        ensures
            r is Some <==> self.present_video_frame is Some,
            r matches Some(frame) ==> *frame == self.present_video_frame->0,
    {
        match &self.present_video_frame {
            Some(frame) => Some(frame),
            None => None,
        }
    }

    /// The timestamp of the frame that is shown.
    pub fn present_video_frame_pts(&self) -> (r: Option<Duration>)
        ensures
            r == match self.present_video_frame {
                Some(frame) => Some(frame.pts),
                None => None,
            },
    {
        match self.present_video_frame {
            Some(frame) => Some(frame.pts),
            None => None,
        }
    }

    /// Whether the frame that is shown lies at a position or after it.
    pub fn present_video_frame_covers(&self, target: Duration) -> (r: bool)
        ensures
            r == (self.present_video_frame matches Some(frame) && frame.pts@ >= target@),
    {
        match self.present_video_frame {
            Some(frame) => frame.pts >= target,
            None => false,
        }
    }

    /// Whether the frame that is shown lies exactly at a position.
    pub fn present_video_frame_matches(&self, position: Duration) -> (r: bool)
        ensures
            r == (self.present_video_frame matches Some(frame) && frame.pts == position),
    {
        match self.present_video_frame {
            Some(frame) => frame.pts == position,
            None => false,
        }
    }

    /// Whether a frame is shown.
    pub fn has_present_video_frame(&self) -> (r: bool)
        ensures
            r == (self.present_video_frame is Some),
    {
        self.present_video_frame.is_some()
    }

    /// Shows a frame.
    pub fn set_present_video_frame(&mut self, frame: DecodedFrame<R::FrameMetadata>)
        ensures
            *final(self) == (PlaybackPipeline { present_video_frame: Some(frame), ..*old(self) }),
    {
        self.present_video_frame = Some(frame);
    }

    /// Takes the frame away that is shown.
    pub fn take_present_video_frame(&mut self) -> (r: Option<DecodedFrame<R::FrameMetadata>>)
        ensures
            r == old(self).present_video_frame,
            *final(self) == (PlaybackPipeline { present_video_frame: None, ..*old(self) }),
    {
        self.present_video_frame.take()
    }

    /// Shows a frame in the place of another one, which is returned.
    pub fn replace_present_video_frame(&mut self, frame: DecodedFrame<R::FrameMetadata>) -> (r: Option<DecodedFrame<R::FrameMetadata>>)
        ensures
            r == old(self).present_video_frame,
            *final(self) == (PlaybackPipeline { present_video_frame: Some(frame), ..*old(self) }),
    {
        let old_frame = self.take_present_video_frame();
        self.set_present_video_frame(frame);
        old_frame
    }

    /// Whether there is a frame for the case that none comes after the target of a seek.
    pub fn has_seek_preroll_fallback_video_frame(&self) -> (r: bool)
        ensures
            r == (self.seek_preroll_fallback_video_frame is Some),
    {
        self.seek_preroll_fallback_video_frame.is_some()
    }

    /// Takes that frame.
    pub fn take_seek_preroll_fallback_video_frame(&mut self) -> (r: Option<DecodedFrame<R::FrameMetadata>>)
        ensures
            r == old(self).seek_preroll_fallback_video_frame,
            *final(self) == (PlaybackPipeline {
                seek_preroll_fallback_video_frame: None,
                ..*old(self)
            }),
    {
        self.seek_preroll_fallback_video_frame.take()
    }

    /// Keeps a frame for that case in the place of another one, which is returned.
    pub fn replace_seek_preroll_fallback_video_frame(&mut self, frame: DecodedFrame<R::FrameMetadata>) -> (r: Option<
        DecodedFrame<R::FrameMetadata>,
    >)
        ensures
            r == old(self).seek_preroll_fallback_video_frame,
            *final(self) == (PlaybackPipeline {
                seek_preroll_fallback_video_frame: Some(frame),
                ..*old(self)
            }),
    {
        let old_frame = self.seek_preroll_fallback_video_frame.take();
        self.seek_preroll_fallback_video_frame = Some(frame);
        old_frame
    }

    /// Gives that frame up and returns it.
    pub fn clear_seek_preroll_fallback_video_frame(&mut self) -> (r: Option<DecodedFrame<R::FrameMetadata>>)
        ensures
            r == old(self).seek_preroll_fallback_video_frame,
            *final(self) == (PlaybackPipeline {
                seek_preroll_fallback_video_frame: None,
                ..*old(self)
            }),
    {
        self.take_seek_preroll_fallback_video_frame()
    }

    /// Puts an audio packet behind those that wait.
    pub fn enqueue_pending_audio_packet(&mut self, packet: PendingAudioPacket)
        ensures
            final(self).pending_audio_packets@ == old(self).pending_audio_packets@.push(packet),
            *final(self) == (PlaybackPipeline {
                pending_audio_packets: final(self).pending_audio_packets,
                ..*old(self)
            }),
    {
        self.pending_audio_packets.push_back(packet);
    }

    /// Takes the first audio packet that waits.
    pub fn pop_pending_audio_packet_front(&mut self) -> (r: Option<PendingAudioPacket>)
        ensures
            old(self).pending_audio_packets@.len() == 0 ==> r is None && final(self).pending_audio_packets@.len() == 0,
            old(self).pending_audio_packets@.len() > 0 ==> {
                &&& r == Some(old(self).pending_audio_packets@[0])
                &&& final(self).pending_audio_packets@ == old(self).pending_audio_packets@.drop_first()
            },
            *final(self) == (PlaybackPipeline {
                pending_audio_packets: final(self).pending_audio_packets,
                ..*old(self)
            }),
    {
        self.pending_audio_packets.pop_front()
    }

    /// Puts an audio packet before those that wait.
    pub fn push_pending_audio_packet_front(&mut self, packet: PendingAudioPacket)
        ensures
            final(self).pending_audio_packets@ == seq![packet] + old(self).pending_audio_packets@,
            *final(self) == (PlaybackPipeline {
                pending_audio_packets: final(self).pending_audio_packets,
                ..*old(self)
            }),
    {
        self.pending_audio_packets.push_front(packet);
    }

    /// Whether no audio packet waits.
    pub fn pending_audio_packet_is_empty(&self) -> (r: bool)
        ensures
            r == (self.pending_audio_packets@.len() == 0),
    {
        self.pending_audio_packets.len() == 0
    }

    /// The number of audio packets that wait.
    pub fn pending_audio_packet_len(&self) -> (r: usize)
        ensures
            r == self.pending_audio_packets@.len(),
    {
        self.pending_audio_packets.len()
    }

    /// Drops the audio packets that wait.
    pub fn clear_pending_audio_packets(&mut self)
        ensures
            final(self).pending_audio_packets@.len() == 0,
            *final(self) == (PlaybackPipeline {
                pending_audio_packets: final(self).pending_audio_packets,
                ..*old(self)
            }),
    {
        self.pending_audio_packets.clear();
    }

    /// Puts a video packet behind those that wait.
    pub fn enqueue_pending_video_packet(&mut self, packet: PendingVideoPacket)
        requires
            old(self).wf(),
        ensures
            final(self).wf(),
            final(self).video_packets@ == old(self).video_packets@.enqueued(
                packet,
                old(self).video_track_id,
            ),
            *final(self) == (PlaybackPipeline {
                video_packets: final(self).video_packets,
                ..*old(self)
            }),
    {
        self.video_packets.enqueue_pending_video_packet(packet, self.video_track_id);
    }

    /// Takes the first video packet that waits.
    pub fn pop_pending_video_packet_front(&mut self) -> (r: Option<PendingVideoPacket>)
        requires
            old(self).wf(),
        ensures
            final(self).wf(),
            old(self).video_packets@.pending.len() == 0 ==> r is None && final(self).video_packets@
                == old(self).video_packets@.rearmed(),
            old(self).video_packets@.pending.len() > 0 ==> {
                &&& r == Some(old(self).video_packets@.pending[0])
                &&& final(self).video_packets@ == (VideoPacketQueueView {
                    pending: old(self).video_packets@.pending.drop_first(),
                    ..old(self).video_packets@
                }).rearmed()
            },
            *final(self) == (PlaybackPipeline {
                video_packets: final(self).video_packets,
                ..*old(self)
            }),
    {
        self.video_packets.pop_pending_video_packet_front()
    }

    /// The first video packet that waits.
    pub fn front_pending_video_packet(&self) -> (r: Option<&PendingVideoPacket>)
        ensures
            r is None <==> self.video_packets@.pending.len() == 0,
            r matches Some(packet) ==> *packet == self.video_packets@.pending[0],
    {
        self.video_packets.front_pending_video_packet()
    }

    /// Whether no video packet waits.
    pub fn pending_video_packet_is_empty(&self) -> (r: bool)
        ensures
            r == (self.video_packets@.pending.len() == 0),
    {
        self.video_packets.pending_video_packet_len() == 0
    }

    /// The number of video packets that wait.
    pub fn pending_video_packet_len(&self) -> (r: usize)
        ensures
            r == self.video_packets@.pending.len(),
    {
        self.video_packets.pending_video_packet_len()
    }

    /// The number of video packets that were read during a search.
    pub fn video_backlog_recovery_staged_packet_len(&self) -> (r: usize)
        ensures
            r == self.video_packets@.staged.len(),
    {
        self.video_packets.video_backlog_recovery_staged_packet_len()
    }

    /// The number of bytes that were read during a search.
    pub fn video_backlog_recovery_staged_bytes(&self) -> (r: usize)
        requires
            self.wf(),
        ensures
            r == total_bytes(self.video_packets@.staged),
    {
        self.video_packets.video_backlog_recovery_staged_bytes()
    }

    /// Drops the video packets that wait, and gives up a search.
    pub fn clear_pending_video_packets(&mut self)
        requires
            old(self).wf(),
        ensures
            final(self).wf(),
            final(self).video_packets@ == (VideoPacketQueueView {
                pending: Seq::empty(),
                admission_waits_for_keyframe: false,
                ..old(self).video_packets@.cancelled()
            }),
            *final(self) == (PlaybackPipeline {
                video_packets: final(self).video_packets,
                ..*old(self)
            }),
    {
        self.video_packets.clear_pending_video_packets();
    }

    /// Drops the video packets that wait so that the audio can catch up, and waits for a
    /// keyframe.
    pub fn shed_pending_video_backlog_for_audio_catchup(&mut self) -> (r: usize)
        requires
            old(self).wf(),
        ensures
            final(self).wf(),
            r == old(self).video_packets@.pending.len(),
            final(self).video_packets@ == (VideoPacketQueueView {
                pending: Seq::empty(),
                admission_waits_for_keyframe: true,
                ..old(self).video_packets@
            }),
            *final(self) == (PlaybackPipeline {
                video_packets: final(self).video_packets,
                ..*old(self)
            }),
    {
        self.video_packets.shed_pending_video_backlog_for_audio_catchup()
    }

    /// Whether a video packet has to be dropped because a keyframe is waited for.
    pub fn video_admission_should_drop_for_keyframe_resync(
        &mut self,
        keyframe: PacketKeyframe,
    ) -> (r: bool)
        requires
            old(self).wf(),
        ensures
            final(self).wf(),
            r == (old(self).video_packets@.admission_waits_for_keyframe && keyframe
                == PacketKeyframe::NotKeyframe),
            final(self).video_packets@ == (VideoPacketQueueView {
                admission_waits_for_keyframe: r,
                ..old(self).video_packets@
            }),
            *final(self) == (PlaybackPipeline {
                video_packets: final(self).video_packets,
                ..*old(self)
            }),
    {
        self.video_packets.video_admission_should_drop_for_keyframe_resync(keyframe)
    }

    /// What decides about a search for a keyframe.
    fn current_recovery_context(&self) -> (r: VideoBacklogRecoveryContext)
        ensures
            r == self.recovery_context(),
    {
        VideoBacklogRecoveryContext {
            selected_track_id: self.video_track_id,
            codec: match self.active_video_requirement {
                Some(requirement) => Some(requirement.codec),
                None => None,
            },
            decoder_needs_keyframe: self.video_decoder_needs_keyframe,
            seek_generation: self.seek_generation,
        }
    }

    /// Starts the search for a keyframe where nothing speaks against it.
    pub fn begin_video_backlog_recovery_scan(
        &mut self,
        limits: VideoBacklogRecoveryScanLimits,
    ) -> (r: VideoBacklogRecoveryScanStart)
        requires
            old(self).wf(),
        ensures
            final(self).wf(),
            r == old(self).video_packets@.scan_start(old(self).recovery_context()),
            final(self).video_packets@ == old(self).video_packets@.scan_begun(
                limits,
                old(self).recovery_context(),
            ),
            *final(self) == (PlaybackPipeline {
                video_packets: final(self).video_packets,
                ..*old(self)
            }),
    {
        let context = self.current_recovery_context();
        self.video_packets.begin_video_backlog_recovery_scan(limits, context)
    }

    /// Whether the source may be read on for a search although the queue is full.
    pub fn video_backlog_recovery_scan_allows_demux(&self) -> (r: bool)
        ensures
            r == match self.video_packets@.state {
                VideoBacklogRecoveryState::ScanningForKeyframe {
                    generation,
                    selected_track_id,
                    ..
                } => {
                    &&& generation == self.seek_generation
                    &&& self.video_track_id == Some(selected_track_id)
                    &&& !self.video_decoder_needs_keyframe
                },
                _ => false,
            },
    {
        let context = self.current_recovery_context();
        self.video_packets.video_backlog_recovery_scan_allows_demux(context)
    }

    /// Ends a search at the end of the stream.
    pub fn finish_video_backlog_recovery_scan_at_eof(&mut self) -> (r:
        VideoBacklogRecoveryEofReport)
        requires
            old(self).wf(),
        ensures
            final(self).wf(),
            r.restored_staged_packets == old(self).video_packets@.staged.len(),
            final(self).video_packets@ == old(self).video_packets@.restored(
                VideoBacklogRecoveryState::Inactive,
            ),
            *final(self) == (PlaybackPipeline {
                video_packets: final(self).video_packets,
                ..*old(self)
            }),
    {
        self.video_packets.finish_video_backlog_recovery_scan_at_eof()
    }

    /// Ends a search once the rate is not above the normal one any more.
    pub fn reconcile_video_backlog_recovery_after_rate_change(
        &mut self,
        playback_rate: PlaybackRate,
    ) -> (r: VideoBacklogRecoveryRateChangeReport)
        requires
            old(self).wf(),
        ensures
            final(self).wf(),
            r.restored_staged_packets == if playback_rate@ <= NORMAL_RATE_BITS {
                old(self).video_packets@.staged.len()
            } else {
                0
            },
            final(self).video_packets@ == old(self).video_packets@.rate_changed(playback_rate),
            *final(self) == (PlaybackPipeline {
                video_packets: final(self).video_packets,
                ..*old(self)
            }),
    {
        self.video_packets.reconcile_video_backlog_recovery_after_rate_change(playback_rate)
    }

    /// Forgets the proven keyframe and gives up a search, because another track is selected.
    pub fn reset_video_backlog_recovery_for_selected_track_change(&mut self)
        requires
            old(self).wf(),
        ensures
            final(self).wf(),
            final(self).video_packets@ == (VideoPacketQueueView {
                proven_keyframe_track: None,
                ..old(self).video_packets@.cancelled()
            }),
            *final(self) == (PlaybackPipeline {
                video_packets: final(self).video_packets,
                ..*old(self)
            }),
    {
        self.video_packets.reset_video_backlog_recovery_for_selected_track_change();
    }

    /// Gives up a search, because the source jumps.
    pub fn cancel_video_backlog_recovery_scan_for_discontinuity(&mut self)
        requires
            old(self).wf(),
        ensures
            final(self).wf(),
            final(self).video_packets@ == old(self).video_packets@.cancelled(),
            *final(self) == (PlaybackPipeline {
                video_packets: final(self).video_packets,
                ..*old(self)
            }),
    {
        self.video_packets.cancel_video_backlog_recovery_scan_for_discontinuity();
    }

    /// Gives up a search, because the decoder is replaced.
    pub fn cancel_video_backlog_recovery_scan_for_decoder_replacement(&mut self)
        requires
            old(self).wf(),
        ensures
            final(self).wf(),
            final(self).video_packets@ == old(self).video_packets@.cancelled(),
            *final(self) == (PlaybackPipeline {
                video_packets: final(self).video_packets,
                ..*old(self)
            }),
    {
        self.cancel_video_backlog_recovery_scan_for_discontinuity();
    }

    /// Decides what becomes of a video packet that was read.
    pub fn route_pending_video_packet_for_backlog_recovery(
        &mut self,
        packet: PendingVideoPacket,
    ) -> (r: VideoBacklogRecoveryRouteOutcome)
        requires
            old(self).wf(),
        ensures
            final(self).wf(),
            r == old(self).video_packets@.route_outcome(packet),
            final(self).video_packets@ == old(self).video_packets@.routed(
                packet,
                old(self).video_track_id,
            ),
            *final(self) == (PlaybackPipeline {
                video_packets: final(self).video_packets,
                ..*old(self)
            }),
    {
        self.video_packets.route_pending_video_packet_for_backlog_recovery(
            packet,
            self.video_track_id,
        )
    }

    /// The first frame that waits to be shown.
    pub fn front_queued_video_frame(&self) -> (r: Option<&DecodedFrame<R::FrameMetadata>>)
        ensures
            r is None <==> self.video_frame_queue@.len() == 0,
            r matches Some(frame) ==> *frame == self.video_frame_queue@[0],
    {
        self.queued_video_frame(0)
    }

    /// One of the frames that wait to be shown.
    pub fn queued_video_frame(&self, index: usize) -> (r: Option<&DecodedFrame<R::FrameMetadata>>)
        ensures
            r is Some <==> index < self.video_frame_queue@.len(),
            r matches Some(frame) ==> *frame == self.video_frame_queue@[index as int],
    {
        if index < self.video_frame_queue.len() {
            Some(&self.video_frame_queue[index])
        } else {
            None
        }
    }

    /// The first two frames that wait to be shown.
    pub fn front_and_next_queued_video_frames(&self) -> (r: Option<(&DecodedFrame<R::FrameMetadata>, &DecodedFrame<R::FrameMetadata>)>)
        ensures
            r is Some <==> self.video_frame_queue@.len() >= 2,
            r matches Some((front, next)) ==> *front == self.video_frame_queue@[0] && *next
                == self.video_frame_queue@[1],
    {
        if self.video_frame_queue.len() >= 2 {
            Some((&self.video_frame_queue[0], &self.video_frame_queue[1]))
        } else {
            None
        }
    }

    /// Takes the first frame that waits to be shown.
    pub fn pop_queued_video_frame_front(&mut self) -> (r: Option<DecodedFrame<R::FrameMetadata>>)
        ensures
            old(self).video_frame_queue@.len() == 0 ==> r is None && final(self).video_frame_queue@.len() == 0,
            old(self).video_frame_queue@.len() > 0 ==> {
                &&& r == Some(old(self).video_frame_queue@[0])
                &&& final(self).video_frame_queue@ == old(self).video_frame_queue@.drop_first()
            },
            *final(self) == (PlaybackPipeline {
                video_frame_queue: final(self).video_frame_queue,
                ..*old(self)
            }),
    {
        self.video_frame_queue.pop_front()
    }

    /// Puts a frame behind those that wait to be shown.
    pub fn enqueue_queued_video_frame(&mut self, frame: DecodedFrame<R::FrameMetadata>)
        ensures
            final(self).video_frame_queue@ == old(self).video_frame_queue@.push(frame),
            *final(self) == (PlaybackPipeline {
                video_frame_queue: final(self).video_frame_queue,
                ..*old(self)
            }),
    {
        self.video_frame_queue.push_back(frame);
    }

    /// Whether no frame waits to be shown.
    pub fn video_present_queue_is_empty(&self) -> (r: bool)
        ensures
            r == (self.video_frame_queue@.len() == 0),
    {
        self.video_frame_queue.len() == 0
    }

    /// The number of frames that wait to be shown.
    pub fn video_present_queue_len(&self) -> (r: usize)
        ensures
            r == self.video_frame_queue@.len(),
    {
        self.video_frame_queue.len()
    }

    /// Whether a frame of the generation waits that lies at the target or after it.
    pub fn queued_video_frame_covers_target_for_generation(
        &self,
        target: Duration,
        generation: u64,
    ) -> (r: bool)
        ensures
            r == exists|i: int|
                0 <= i < self.video_frame_queue@.len() && (#[trigger] self.video_frame_queue@[i]).generation
                    == generation && self.video_frame_queue@[i].pts@ >= target@,
    {
        let mut index: usize = 0;
        while index < self.video_frame_queue.len()
            invariant
                index <= self.video_frame_queue@.len(),
                forall|i: int|
                    0 <= i < index ==> !((#[trigger] self.video_frame_queue@[i]).generation
                        == generation && self.video_frame_queue@[i].pts@ >= target@),
            decreases self.video_frame_queue@.len() - index,
        {
            let frame = self.video_frame_queue[index];
            if frame.generation == generation && frame.pts >= target {
                assert(self.video_frame_queue@[index as int].generation == generation);
                return true;
            }
            index = index + 1;
        }
        false
    }

    /// Whether the decoder's next packet has to be a keyframe.
    pub fn video_decoder_needs_keyframe(&self) -> (r: bool)
        ensures
            r == self.video_decoder_needs_keyframe,
    {
        self.video_decoder_needs_keyframe
    }

    /// The decoder has been given a keyframe.
    pub fn mark_video_decoder_bootstrapped(&mut self)
        ensures
            *final(self) == (PlaybackPipeline {
                video_decoder_needs_keyframe: false,
                ..*old(self)
            }),
    {
        self.video_decoder_needs_keyframe = false;
    }

    /// The decoder's next packet has to be a keyframe.
    pub fn require_video_decoder_keyframe(&mut self)
        ensures
            *final(self) == (PlaybackPipeline { video_decoder_needs_keyframe: true, ..*old(self) }),
    {
        self.video_decoder_needs_keyframe = true;
    }

    /// Begins the next generation of render resources.
    pub fn advance_render_generation(&mut self)
        requires
            old(self).wf(),
        ensures
            final(self).wf(),
            final(self).render_leases@ == (RenderLeaseLedgerView {
                generation: if old(self).render_leases@.generation == u64::MAX {
                    0
                } else {
                    (old(self).render_leases@.generation + 1) as u64
                },
                providers: Map::empty(),
                ..old(self).render_leases@
            }),
            *final(self) == (PlaybackPipeline {
                render_leases: final(self).render_leases,
                ..*old(self)
            }),
    {
        self.render_leases.advance_render_generation();
    }

    /// The generation of render resources.
    pub fn render_generation(&self) -> (r: u64)
        ensures
            r == self.render_leases@.generation,
    {
        self.render_leases.render_generation()
    }

    /// Adds a lease of a texture of the current generation.
    pub fn try_register_render_lease(
        &mut self,
        render_generation: u64,
        resource_handle: FrameResourceHandle,
    ) -> (r: bool)
        requires
            old(self).wf(),
        ensures
            final(self).wf(),
            r == (render_generation == old(self).render_leases@.generation),
            final(self).render_leases@ == if r {
                old(self).render_leases@.registered(
                    RenderLeaseKey { generation: render_generation, handle: resource_handle.0 },
                )
            } else {
                old(self).render_leases@
            },
            *final(self) == (PlaybackPipeline {
                render_leases: final(self).render_leases,
                ..*old(self)
            }),
    {
        self.render_leases.try_register_render_lease(render_generation, resource_handle)
    }

    /// Ends one lease of a texture.
    pub fn release_render_lease_accounting(
        &mut self,
        render_generation: u64,
        resource_handle: FrameResourceHandle,
    ) -> (r: RenderLeaseReleaseEffect)
        requires
            old(self).wf(),
        ensures
            final(self).wf(),
            r == old(self).render_leases@.release_effect(
                RenderLeaseKey { generation: render_generation, handle: resource_handle.0 },
            ),
            final(self).render_leases@ == old(self).render_leases@.released(
                RenderLeaseKey { generation: render_generation, handle: resource_handle.0 },
            ),
            *final(self) == (PlaybackPipeline {
                render_leases: final(self).render_leases,
                ..*old(self)
            }),
    {
        self.render_leases.release_render_lease_accounting(render_generation, resource_handle)
    }

    /// Keeps the provider of a texture that the renderer has used and let go of.
    pub fn remember_rendered_texture_release_provider(
        &mut self,
        render_generation: u64,
        resource_handle: FrameResourceHandle,
        resource_provider: R::ResourceProvider,
    )
        requires
            old(self).wf(),
        ensures
            final(self).wf(),
            ({
                let key = RenderLeaseKey {
                    generation: render_generation,
                    handle: resource_handle.0,
                };
                let leases = old(self).render_leases@;
                final(self).render_leases@ == if render_generation == leases.generation
                    && !leases.leases.contains_key(key) && !leases.deferred.contains_key(key) {
                    RenderLeaseLedgerView {
                        providers: leases.providers.insert(key, resource_provider),
                        ..leases
                    }
                } else {
                    leases
                }
            }),
            *final(self) == (PlaybackPipeline {
                render_leases: final(self).render_leases,
                ..*old(self)
            }),
    {
        self.render_leases.remember_rendered_texture_release_provider(
            render_generation,
            resource_handle,
            resource_provider,
        );
    }

    /// Decides how a texture of the current generation is released.
    pub fn request_video_texture_release(&mut self, resource_handle: FrameResourceHandle) -> (r:
        VideoTextureReleaseEffect<R::ResourceProvider>)
        requires
            old(self).wf(),
        ensures
            final(self).wf(),
            final(self).render_leases@ == old(self).render_leases@.release_requested(
                resource_handle,
            ),
            ({
                let leases = old(self).render_leases@;
                let key = RenderLeaseKey {
                    generation: leases.generation,
                    handle: resource_handle.0,
                };
                r == if leases.leases.contains_key(key) {
                    VideoTextureReleaseEffect::<R::ResourceProvider>::DeferredUntilRenderLeaseDrop
                } else if leases.providers.contains_key(key) {
                    VideoTextureReleaseEffect::ReleaseViaRenderProvider(leases.providers[key])
                } else {
                    VideoTextureReleaseEffect::<R::ResourceProvider>::ReleaseNow
                }
            }),
            *final(self) == (PlaybackPipeline {
                render_leases: final(self).render_leases,
                ..*old(self)
            }),
    {
        self.render_leases.request_video_texture_release(resource_handle)
    }

    /// The number of textures that the renderer holds.
    pub fn active_render_lease_count(&self) -> (r: usize)
        requires
            self.wf(),
        ensures
            r == self.render_leases@.leases.dom().len(),
    {
        self.render_leases.active_render_lease_count()
    }

    /// Whether the release of a texture of the current generation is deferred.
    pub fn has_deferred_video_texture_release(&self, resource_handle: FrameResourceHandle) -> (r:
        bool)
        ensures
            r == self.render_leases@.deferred.contains_key(
                RenderLeaseKey {
                    generation: self.render_leases@.generation,
                    handle: resource_handle.0,
                },
            ),
    {
        self.render_leases.has_deferred_video_texture_release(resource_handle)
    }

    /// The number of textures whose release is deferred.
    pub fn deferred_render_release_count(&self) -> (r: usize)
        requires
            self.wf(),
        ensures
            r == self.render_leases@.deferred.dom().len(),
    {
        self.render_leases.deferred_render_release_count()
    }

    /// Keeps a decoder that was replaced for as long as the renderer holds a texture of its
    /// generation.
    pub fn retain_retired_video_decoder_for_outstanding_leases(
        &mut self,
        render_generation: u64,
        retired_decoder: Option<R::VideoDecoder>,
    ) -> (r: RetiredVideoDecoderOutcome)
        requires
            old(self).wf(),
        ensures
            final(self).wf(),
            r == if retired_decoder is None {
                RetiredVideoDecoderOutcome::NoDecoder
            } else if !old(self).render_leases@.has_leases(render_generation) {
                RetiredVideoDecoderOutcome::DroppedIdle
            } else if old(self).render_leases@.retired.contains_key(render_generation) {
                RetiredVideoDecoderOutcome::DuplicateGeneration
            } else {
                RetiredVideoDecoderOutcome::Retained
            },
            final(self).render_leases@ == if r == RetiredVideoDecoderOutcome::Retained {
                RenderLeaseLedgerView {
                    retired: old(self).render_leases@.retired.insert(
                        render_generation,
                        retired_decoder->0,
                    ),
                    ..old(self).render_leases@
                }
            } else {
                old(self).render_leases@
            },
            *final(self) == (PlaybackPipeline {
                render_leases: final(self).render_leases,
                ..*old(self)
            }),
    {
        self.render_leases.retain_retired_video_decoder_for_outstanding_leases(
            render_generation,
            retired_decoder,
        )
    }

    /// Gives a texture of an earlier generation back to the decoder that made it, and gives
    /// that decoder up once the renderer holds none of its textures. Returns whether the
    /// decoder was there.
    pub fn release_retired_video_frame(
        &mut self,
        render_generation: u64,
        resource_handle: FrameResourceHandle,
    ) -> (r: bool)
        requires
            old(self).wf(),
        ensures
            final(self).wf(),
            r == old(self).render_leases@.retired.contains_key(render_generation),
            r ==> call_ensures(
                <R::VideoDecoder as VideoDecoderThread<R::ResourceProvider, R::FrameMetadata>>::release_frame,
                (&old(self).render_leases@.retired[render_generation], resource_handle),
                (),
            ),
            final(self).render_leases@ == old(self).render_leases@.retired_released(
                render_generation,
            ),
            *final(self) == (PlaybackPipeline {
                render_leases: final(self).render_leases,
                ..*old(self)
            }),
    {
        let found = match self.render_leases.retired_video_decoder(render_generation) {
            Some(retired_decoder) => {
                retired_decoder.release_frame(resource_handle);
                true
            },
            None => false,
        };
        self.release_retired_video_decoder_if_idle(render_generation);
        found
    }

    /// Gives the decoder that was replaced in a generation up once the renderer holds none of
    /// its textures.
    pub fn release_retired_video_decoder_if_idle(&mut self, render_generation: u64)
        requires
            old(self).wf(),
        ensures
            final(self).wf(),
            final(self).render_leases@ == old(self).render_leases@.retired_released(
                render_generation,
            ),
            *final(self) == (PlaybackPipeline {
                render_leases: final(self).render_leases,
                ..*old(self)
            }),
    {
        self.render_leases.release_retired_video_decoder_if_idle(render_generation);
    }

    /// Forgets everything that belongs to the medium. The frames have to be released before.
    pub fn reset_media_slots(&mut self, now: Instant)
        requires
            old(self).wf(),
            old(self).seek_preroll_fallback_video_frame is None,
        ensures
            final(self).wf(),
            *final(self) == (PlaybackPipeline {
                demuxer: None,
                file_path: None,
                tracks: final(self).tracks,
                source_label: None,
                audio_decoder: None,
                deferred_audio_decoder_config: None,
                audio_output: None,
                audio_output_input_spec: None,
                audio_tempo_processor: None,
                audio_tempo_output_buffer: final(self).audio_tempo_output_buffer,
                passthrough_audio_history: final(self).passthrough_audio_history,
                next_audio_tempo_segment_id: 1,
                audio_output_play_requested: false,
                audio_track_id: None,
                pending_audio_packets: final(self).pending_audio_packets,
                video_decoder_needs_keyframe: true,
                video_decode_in_flight_packets: 0,
                seek_preroll_fallback_video_frame: None,
                video_frame_timing: final(self).video_frame_timing,
                render_leases: final(self).render_leases,
                video_track_id: None,
                video_packets: final(self).video_packets,
                audio_clock: None,
                clocks: final(self).clocks,
                seek_generation: 0,
                audio_buffer_clear_generation: 0,
                active_video_requirement: None,
                active_video_frame_contract: None,
                ..*old(self)
            }),
            final(self).tracks@.len() == 0,
            final(self).audio_tempo_output_buffer@.len() == 0,
            final(self).passthrough_audio_history.samples@.len() == 0,
            final(self).passthrough_audio_history.spec is None,
            final(self).pending_audio_packets@.len() == 0,
            final(self).video_packets@ == (VideoPacketQueueView {
                pending: Seq::empty(),
                admission_waits_for_keyframe: false,
                ..old(self).video_packets@.cancelled()
            }),
            final(self).video_frame_timing.micros() == DEFAULT_VIDEO_FRAME_MICROS,
            final(self).video_frame_timing.last_seen() is None,
            final(self).render_leases@ == (RenderLeaseLedgerView {
                providers: Map::empty(),
                ..old(self).render_leases@
            }),
            final(self).clocks.audio_clock_media_mapping@.len() == 1,
            final(self).clocks.audio_clock_media_mapping@[0].output_clock_start@ == 0,
            final(self).clocks.audio_clock_media_mapping@[0].media_position_start@ == 0,
            final(self).clocks.audio_clock_media_mapping@[0].playback_rate@ == NORMAL_RATE_BITS,
            final(self).clocks.media_clock_base@ == 0,
            final(self).clocks.monotonic_media_clock_anchor is None,
            final(self).clocks.last_audio_clock@ == 0,
            final(self).clocks.last_audio_clock_change_at == now,
    {
        self.clear_media_source_slots();
        self.clear_audio_decoder();
        self.clear_deferred_audio_decoder_config();
        self.clear_audio_output();
        self.next_audio_tempo_segment_id = 1;
        self.clear_selected_tracks();
        self.clear_pending_audio_packets();
        self.clear_pending_video_packets();
        self.render_leases.forget_release_providers();
        self.require_video_decoder_keyframe();
        self.reset_video_decode_in_flight();
        self.seek_preroll_fallback_video_frame = None;
        self.reanchor_audio_clock_media_mapping(Duration::zero(), PlaybackRate::normal());
        self.clear_monotonic_media_clock();
        self.seek_generation = 0;
        self.mark_audio_buffer_clear_ack(0);
        self.reset_video_frame_timing_estimator();
        self.reset_audio_clock_sample(Duration::zero(), now);
    }

    /// Forgets the source.
    fn clear_media_source_slots(&mut self)
        ensures
            final(self).tracks@.len() == 0,
            *final(self) == (PlaybackPipeline {
                demuxer: None,
                file_path: None,
                tracks: final(self).tracks,
                source_label: None,
                ..*old(self)
            }),
    {
        self.demuxer = None;
        self.file_path = None;
        self.tracks = Vec::new();
        self.source_label = None;
    }

    /// Takes over a source that was opened.
    pub fn install_opened_media(
        &mut self,
        demuxer: R::Demuxer,
        file_path: Option<PathBuf>,
        source_label: Option<String>,
        tracks: Vec<TrackInfo<<R::Demuxer as Demuxer>::TrackDetails>>,
    )
        ensures
            *final(self) == (PlaybackPipeline {
                demuxer: Some(demuxer),
                file_path,
                source_label,
                tracks,
                ..*old(self)
            }),
    {
        self.demuxer = Some(demuxer);
        self.file_path = file_path;
        self.source_label = source_label;
        self.tracks = tracks;
    }

    /// Takes over a new list of tracks. The source stays; decoders, device, selection and
    /// packets belong to the former tracks and go.
    pub fn apply_demux_track_list_update(
        &mut self,
        tracks: Vec<TrackInfo<<R::Demuxer as Demuxer>::TrackDetails>>,
    )
        requires
            old(self).wf(),
        ensures
            final(self).wf(),
            *final(self) == (PlaybackPipeline {
                tracks,
                audio_decoder: None,
                deferred_audio_decoder_config: None,
                audio_output: None,
                audio_output_input_spec: None,
                audio_tempo_processor: None,
                audio_tempo_output_buffer: final(self).audio_tempo_output_buffer,
                passthrough_audio_history: final(self).passthrough_audio_history,
                audio_output_play_requested: false,
                audio_clock: None,
                audio_track_id: None,
                video_track_id: None,
                active_video_requirement: None,
                active_video_frame_contract: None,
                pending_audio_packets: final(self).pending_audio_packets,
                video_packets: final(self).video_packets,
                audio_buffer_clear_generation: old(self).seek_generation,
                video_decoder_needs_keyframe: has_video(tracks@),
                video_decode_in_flight_packets: 0,
                video_frame_timing: final(self).video_frame_timing,
                ..*old(self)
            }),
            final(self).audio_tempo_output_buffer@.len() == 0,
            final(self).passthrough_audio_history.samples@.len() == 0,
            final(self).passthrough_audio_history.spec is None,
            final(self).pending_audio_packets@.len() == 0,
            final(self).video_packets@ == (VideoPacketQueueView {
                pending: Seq::empty(),
                admission_waits_for_keyframe: false,
                ..old(self).video_packets@.cancelled()
            }),
            final(self).video_frame_timing.last_seen() is None,
            final(self).video_frame_timing.micros() == old(self).video_frame_timing.micros(),
    {
        let has_video_track = has_video_track(&tracks);
        self.tracks = tracks;
        self.clear_audio_decoder();
        self.clear_deferred_audio_decoder_config();
        self.clear_audio_output();
        self.clear_selected_tracks();
        self.clear_pending_audio_packets();
        self.clear_pending_video_packets();
        self.mark_audio_buffer_clear_ack(self.seek_generation);
        self.reset_decoder_state_for_seek(has_video_track);
    }

    /// Whether there is a demuxer.
    pub fn has_demuxer(&self) -> (r: bool)
        ensures
            r == (self.demuxer is Some),
    {
        self.demuxer.is_some()
    }

    /// The path of a local file.
    pub fn source_file_path(&self) -> (r: Option<&PathBuf>)
        ensures
            r is Some <==> self.file_path is Some,
            r matches Some(path) ==> *path == self.file_path->0,
    {
        match &self.file_path {
            Some(path) => Some(path),
            None => None,
        }
    }

    /// The label of another source.
    pub fn source_label(&self) -> (r: Option<&str>)
        ensures
            r is Some <==> self.source_label is Some,
            r matches Some(label) ==> label@ == self.source_label->0@,
    {
        match &self.source_label {
            Some(label) => Some(label.as_str()),
            None => None,
        }
    }

    /// The tracks of the medium.
    pub fn tracks(&self) -> (r: &[TrackInfo<<R::Demuxer as Demuxer>::TrackDetails>])
        ensures
            r@ == self.tracks@,
    {
        self.tracks.as_slice()
    }

    /// The number of tracks.
    pub fn track_count(&self) -> (r: usize)
        ensures
            r == self.tracks@.len(),
    {
        self.tracks.len()
    }

    /// Reads the source on, where there is one.
    pub fn demux_next_event(&mut self) -> (r: Option<
        Result<
            DemuxReadEvent<<R::Demuxer as Demuxer>::TrackDetails>,
            <R::Demuxer as Demuxer>::Error,
        >,
    >)
        ensures
            r is Some <==> old(self).demuxer is Some,
            final(self).demuxer is Some <==> old(self).demuxer is Some,
            *final(self) == (PlaybackPipeline { demuxer: final(self).demuxer, ..*old(self) }),
            r matches Some(result) ==> exists|demuxer: &mut R::Demuxer|
                *demuxer == old(self).demuxer->0 && *final(demuxer) == final(self).demuxer->0
                    && #[trigger] call_ensures(
                    <R::Demuxer as Demuxer>::next_event,
                    (demuxer,),
                    result,
                ),
    {
        match &mut self.demuxer {
            Some(demuxer) => Some(demuxer.next_event()),
            None => None,
        }
    }

    /// Positions the source, where there is one.
    pub fn seek_demuxer(&mut self, request: DemuxSeekRequest) -> (r: Option<
        Result<DemuxSeekResult, <R::Demuxer as Demuxer>::Error>,
    >)
        ensures
            r is Some <==> old(self).demuxer is Some,
            final(self).demuxer is Some <==> old(self).demuxer is Some,
            *final(self) == (PlaybackPipeline { demuxer: final(self).demuxer, ..*old(self) }),
            r matches Some(result) ==> exists|demuxer: &mut R::Demuxer|
                *demuxer == old(self).demuxer->0 && *final(demuxer) == final(self).demuxer->0
                    && #[trigger] call_ensures(
                    <R::Demuxer as Demuxer>::seek_with_request,
                    (demuxer, request),
                    result,
                ),
    {
        match &mut self.demuxer {
            Some(demuxer) => Some(demuxer.seek_with_request(request)),
            None => None,
        }
    }
}

/// A track of which no capability was asked publishes ten-bit frames exactly where it asks for
/// them, and these in separate layers; all others are published in eight bits as one image. Selecting
/// the track, or only taking over what it asks, makes that the contract of its frames.
pub proof fn law_unprobed_track_publishes_what_it_asks_for<R: PlaybackResources>(
    before: PlaybackPipeline<R>,
    selected: PlaybackPipeline<R>,
    taken_over: PlaybackPipeline<R>,
    track: TrackId,
    requirement: VideoDecodeRequirement,
    contract: VideoFrameContract,
)
    requires
        call_ensures(fallback_frame_contract_for_unprobed_requirement, (requirement,), contract),
        exists|pipeline: &mut PlaybackPipeline<R>|
            *pipeline == before && *final(pipeline) == selected && #[trigger] call_ensures(
                PlaybackPipeline::<R>::select_video_track,
                (pipeline, track, requirement),
                (),
            ),
        exists|pipeline: &mut PlaybackPipeline<R>|
            *pipeline == before && *final(pipeline) == taken_over && #[trigger] call_ensures(
                PlaybackPipeline::<R>::set_active_video_requirement,
                (pipeline, requirement),
                (),
            ),
    ensures
        contract.pixel_layout is P010 <==> requirement.pixel_layout == Some(
            VideoFramePixelLayout::P010,
        ),
        contract.pixel_layout is P010 <==> contract.image_layout is SeparateLayers,
        contract.pixel_layout is Nv12 <==> contract.image_layout is ComposedLayers,
        contract.pixel_layout is P010 || contract.pixel_layout is Nv12,
        selected.active_video_frame_contract == Some(contract),
        selected.video_track_id == Some(track),
        selected.active_video_requirement == Some(requirement),
        taken_over.active_video_frame_contract == Some(contract),
        taken_over.active_video_requirement == Some(requirement),
        taken_over.video_track_id == before.video_track_id,
{
}

/// A search for a keyframe goes by what the pipeline itself says: its selected track, the codec of
/// that track, whether its decoder waits for a keyframe, and its generation of packets.
pub proof fn law_search_goes_by_the_state_of_the_pipeline<R: PlaybackResources>(
    before: PlaybackPipeline<R>,
    after: PlaybackPipeline<R>,
    limits: VideoBacklogRecoveryScanLimits,
    start: VideoBacklogRecoveryScanStart,
    context: VideoBacklogRecoveryContext,
    queue: VideoPacketQueue,
    queue_start: VideoBacklogRecoveryScanStart,
)
    requires
        exists|pipeline: &mut PlaybackPipeline<R>|
            *pipeline == before && *final(pipeline) == after && #[trigger] call_ensures(
                PlaybackPipeline::<R>::begin_video_backlog_recovery_scan,
                (pipeline, limits),
                start,
            ),
        context.selected_track_id == before.video_track_id,
        before.active_video_requirement is None ==> context.codec is None,
        before.active_video_requirement matches Some(requirement) ==> context.codec == Some(
            requirement.codec,
        ),
        context.decoder_needs_keyframe == before.video_decoder_needs_keyframe,
        context.seek_generation == before.seek_generation,
        exists|packets: &mut VideoPacketQueue|
            *packets == before.video_packets && *final(packets) == queue && #[trigger] call_ensures(
                VideoPacketQueue::begin_video_backlog_recovery_scan,
                (packets, limits, context),
                queue_start,
            ),
    ensures
        start == queue_start,
        after.video_packets@ == queue@,
{
}

/// With a new list of tracks nothing of the former tracks is left: no selection, no decoder or
/// device for audio, no packet. The decoder of the video track waits for a keyframe exactly where
/// one of the new tracks is a video track. The source stays.
pub proof fn law_new_tracks_start_afresh<R: PlaybackResources>(
    before: PlaybackPipeline<R>,
    after: PlaybackPipeline<R>,
    tracks: Vec<TrackInfo<<R::Demuxer as Demuxer>::TrackDetails>>,
    video: bool,
    audio: bool,
    video_packets: usize,
    audio_packets: usize,
    state: AudioSeekRuntimeState,
    needs_keyframe: bool,
)
    requires
        exists|pipeline: &mut PlaybackPipeline<R>|
            *pipeline == before && *final(pipeline) == after && #[trigger] call_ensures(
                PlaybackPipeline::<R>::apply_demux_track_list_update,
                (pipeline, tracks),
                (),
            ),
        call_ensures(PlaybackPipeline::<R>::has_selected_video_track, (&after,), video),
        call_ensures(PlaybackPipeline::<R>::has_selected_audio_track, (&after,), audio),
        call_ensures(PlaybackPipeline::<R>::pending_video_packet_len, (&after,), video_packets),
        call_ensures(PlaybackPipeline::<R>::pending_audio_packet_len, (&after,), audio_packets),
        call_ensures(PlaybackPipeline::<R>::audio_seek_runtime_state, (&after,), state),
        call_ensures(PlaybackPipeline::<R>::video_decoder_needs_keyframe, (&after,), needs_keyframe),
    ensures
        !video && !audio,
        video_packets == 0 && audio_packets == 0,
        after.video_packets@.staged.len() == 0,
        state is NoSelectedAudio,
        after.tracks == tracks,
        after.demuxer == before.demuxer,
        after.seek_generation == before.seek_generation,
        after.audio_buffer_clear_generation == before.seek_generation,
        needs_keyframe <==> exists|i: int|
            0 <= i < tracks@.len() && (#[trigger] tracks@[i]).kind is Video,
{
    if needs_keyframe {
        let i = choose|i: int|
            0 <= i < tracks@.len() && (#[trigger] tracks@[i]).kind == TrackKind::Video;
        assert(tracks@[i].kind is Video);
    }
}

/// Once a seek has begun, no packet of an earlier generation is current, and those that wait are
/// dropped with the queues. Only the last generation that there is has no successor.
pub proof fn law_seek_outdates_earlier_packets<R: PlaybackResources>(
    before: PlaybackPipeline<R>,
    begun: PlaybackPipeline<R>,
    cleared: PlaybackPipeline<R>,
    generation: u64,
    earlier: u64,
    earlier_current: bool,
    now_current: bool,
    video_packets: usize,
    staged: usize,
    audio_empty: bool,
)
    requires
        before.seek_generation < u64::MAX,
        earlier <= before.seek_generation,
        exists|pipeline: &mut PlaybackPipeline<R>|
            *pipeline == before && *final(pipeline) == begun && #[trigger] call_ensures(
                PlaybackPipeline::<R>::begin_seek_generation,
                (pipeline,),
                generation,
            ),
        call_ensures(
            PlaybackPipeline::<R>::packet_generation_is_current,
            (&begun, earlier),
            earlier_current,
        ),
        call_ensures(
            PlaybackPipeline::<R>::packet_generation_is_current,
            (&begun, generation),
            now_current,
        ),
        exists|pipeline: &mut PlaybackPipeline<R>|
            *pipeline == begun && *final(pipeline) == cleared && #[trigger] call_ensures(
                PlaybackPipeline::<R>::clear_pending_packets_for_seek,
                (pipeline,),
                (),
            ),
        call_ensures(PlaybackPipeline::<R>::pending_video_packet_len, (&cleared,), video_packets),
        call_ensures(
            PlaybackPipeline::<R>::video_backlog_recovery_staged_packet_len,
            (&cleared,),
            staged,
        ),
        call_ensures(PlaybackPipeline::<R>::pending_audio_packet_is_empty, (&cleared,), audio_empty),
    ensures
        generation == before.seek_generation + 1,
        !earlier_current,
        now_current,
        video_packets == 0,
        staged == 0,
        audio_empty,
        cleared.seek_generation == generation,
{
}

/// Audio packets come out in the order in which they went in, and one that is put back at the front
/// comes out next.
pub proof fn law_audio_packets_come_out_in_order<R: PlaybackResources>(
    before: PlaybackPipeline<R>,
    queued: PlaybackPipeline<R>,
    popped: PlaybackPipeline<R>,
    back: PlaybackPipeline<R>,
    again: PlaybackPipeline<R>,
    packet: PendingAudioPacket,
    first: Option<PendingAudioPacket>,
    second: Option<PendingAudioPacket>,
)
    requires
        exists|pipeline: &mut PlaybackPipeline<R>|
            *pipeline == before && *final(pipeline) == queued && #[trigger] call_ensures(
                PlaybackPipeline::<R>::enqueue_pending_audio_packet,
                (pipeline, packet),
                (),
            ),
        exists|pipeline: &mut PlaybackPipeline<R>|
            *pipeline == queued && *final(pipeline) == popped && #[trigger] call_ensures(
                PlaybackPipeline::<R>::pop_pending_audio_packet_front,
                (pipeline,),
                first,
            ),
        exists|pipeline: &mut PlaybackPipeline<R>|
            *pipeline == popped && *final(pipeline) == back && #[trigger] call_ensures(
                PlaybackPipeline::<R>::push_pending_audio_packet_front,
                (pipeline, packet),
                (),
            ),
        exists|pipeline: &mut PlaybackPipeline<R>|
            *pipeline == back && *final(pipeline) == again && #[trigger] call_ensures(
                PlaybackPipeline::<R>::pop_pending_audio_packet_front,
                (pipeline,),
                second,
            ),
    ensures
        before.pending_audio_packets@.len() == 0 ==> first == Some(packet),
        before.pending_audio_packets@.len() > 0 ==> first == Some(before.pending_audio_packets@[0])
            && popped.pending_audio_packets@.last() == packet,
        popped.pending_audio_packets@.len() == before.pending_audio_packets@.len(),
        second == Some(packet),
        again.pending_audio_packets@ == popped.pending_audio_packets@,
{
}

/// Frames are shown in the order in which they were queued.
pub proof fn law_frames_come_out_in_order<R: PlaybackResources>(
    before: PlaybackPipeline<R>,
    queued: PlaybackPipeline<R>,
    popped: PlaybackPipeline<R>,
    frame: DecodedFrame<R::FrameMetadata>,
    first: Option<DecodedFrame<R::FrameMetadata>>,
    target: Duration,
    covers: bool,
)
    requires
        exists|pipeline: &mut PlaybackPipeline<R>|
            *pipeline == before && *final(pipeline) == queued && #[trigger] call_ensures(
                PlaybackPipeline::<R>::enqueue_queued_video_frame,
                (pipeline, frame),
                (),
            ),
        call_ensures(
            PlaybackPipeline::<R>::queued_video_frame_covers_target_for_generation,
            (&queued, target, frame.generation),
            covers,
        ),
        exists|pipeline: &mut PlaybackPipeline<R>|
            *pipeline == queued && *final(pipeline) == popped && #[trigger] call_ensures(
                PlaybackPipeline::<R>::pop_queued_video_frame_front,
                (pipeline,),
                first,
            ),
    ensures
        before.video_frame_queue@.len() == 0 ==> first == Some(frame)
            && popped.video_frame_queue@.len() == 0,
        before.video_frame_queue@.len() > 0 ==> first == Some(before.video_frame_queue@[0])
            && popped.video_frame_queue@.last() == frame,
        frame.pts@ >= target@ ==> covers,
{
    assert(queued.video_frame_queue@[before.video_frame_queue@.len() as int] == frame);
}

/// A pipeline that was emptied keeps the leases of the renderer and what is to be released with
/// them, and its decoder with its frames; it has no medium, selection, packet or audio, and its
/// clocks stand at zero and run at the normal rate.
pub proof fn law_emptied_pipeline_keeps_what_the_renderer_holds<R: PlaybackResources>(
    before: PlaybackPipeline<R>,
    after: PlaybackPipeline<R>,
    now: Instant,
    base: Duration,
    generation: u64,
    estimate: Duration,
    needs_keyframe: bool,
)
    requires
        exists|pipeline: &mut PlaybackPipeline<R>|
            *pipeline == before && *final(pipeline) == after && #[trigger] call_ensures(
                PlaybackPipeline::<R>::reset_media_slots,
                (pipeline, now),
                (),
            ),
        call_ensures(PlaybackPipeline::<R>::media_clock_base, (&after,), base),
        call_ensures(PlaybackPipeline::<R>::seek_generation, (&after,), generation),
        call_ensures(PlaybackPipeline::<R>::video_frame_duration_estimate, (&after,), estimate),
        call_ensures(PlaybackPipeline::<R>::video_decoder_needs_keyframe, (&after,), needs_keyframe),
    ensures
        base@ == 0,
        generation == 0,
        estimate@ == 16_667_000,
        needs_keyframe,
        after.clocks.audio_clock_media_mapping@.last().playback_rate@ == 0x3f80_0000,
        after.render_leases@.leases == before.render_leases@.leases,
        after.render_leases@.deferred == before.render_leases@.deferred,
        after.render_leases@.retired == before.render_leases@.retired,
        after.render_leases@.generation == before.render_leases@.generation,
        after.video_decoder_thread == before.video_decoder_thread,
        after.video_frame_queue == before.video_frame_queue,
        after.video_packets@.pending.len() == 0 && after.video_packets@.staged.len() == 0,
        after.pending_audio_packets@.len() == 0,
        after.demuxer is None && after.audio_output is None && after.audio_decoder is None,
        after.video_track_id is None && after.audio_track_id is None,
{
}

/// The pipeline keeps the account of the renderer's leases as the ledger does.
pub proof fn law_pipeline_accounts_as_its_ledger_does<R: PlaybackResources>(
    before: PlaybackPipeline<R>,
    leased: PlaybackPipeline<R>,
    released: PlaybackPipeline<R>,
    generation: u64,
    handle: FrameResourceHandle,
    taken: bool,
    effect: RenderLeaseReleaseEffect,
)
    requires
        before.wf(),
        !before.render_leases@.leases.contains_key(
            RenderLeaseKey { generation, handle: handle.0 },
        ),
        exists|pipeline: &mut PlaybackPipeline<R>|
            *pipeline == before && *final(pipeline) == leased && #[trigger] call_ensures(
                PlaybackPipeline::<R>::try_register_render_lease,
                (pipeline, generation, handle),
                taken,
            ),
        exists|pipeline: &mut PlaybackPipeline<R>|
            *pipeline == leased && *final(pipeline) == released && #[trigger] call_ensures(
                PlaybackPipeline::<R>::release_render_lease_accounting,
                (pipeline, generation, handle),
                effect,
            ),
    ensures
        taken <==> generation == before.render_leases@.generation,
        taken ==> leased.render_leases@.leases[RenderLeaseKey { generation, handle: handle.0 }]
            == 1,
        taken ==> effect is ReleasedWithoutDeferredTexture,
        !taken ==> effect is UnknownLease,
        released.render_leases@.leases =~= before.render_leases@.leases,
        released.render_leases@.deferred =~= before.render_leases@.deferred,
{
    super::render_resources::lemma_ledger_wf(before.render_leases);
}

/// A texture of an earlier generation goes back to the very decoder that is kept for that
/// generation, and that decoder goes once the renderer holds none of its textures.
pub proof fn law_texture_goes_back_to_its_own_decoder<R: PlaybackResources>(
    before: PlaybackPipeline<R>,
    after: PlaybackPipeline<R>,
    generation: u64,
    handle: FrameResourceHandle,
    found: bool,
)
    requires
        exists|pipeline: &mut PlaybackPipeline<R>|
            *pipeline == before && *final(pipeline) == after && #[trigger] call_ensures(
                PlaybackPipeline::<R>::release_retired_video_frame,
                (pipeline, generation, handle),
                found,
            ),
    ensures
        found <==> before.render_leases@.retired.contains_key(generation),
        found ==> call_ensures(
            <R::VideoDecoder as VideoDecoderThread<R::ResourceProvider, R::FrameMetadata>>::release_frame,
            (&before.render_leases@.retired[generation], handle),
            (),
        ),
        after.render_leases@.retired.contains_key(generation) <==> found && exists|
            key: RenderLeaseKey,
        | #[trigger]
            before.render_leases@.leases.contains_key(key) && key.generation == generation,
        after.render_leases@.leases == before.render_leases@.leases,
{
    if exists|key: RenderLeaseKey| #[trigger]
        before.render_leases@.leases.contains_key(key) && key.generation == generation {
        assert(before.render_leases@.has_leases(generation));
    } else {
        assert(!before.render_leases@.has_leases(generation));
    }
}

} // verus!
