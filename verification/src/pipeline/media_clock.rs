//! Clocks that tell which position of the medium is being heard or shown.
//!
//! With an audio device the position follows the device's output clock through a piecewise
//! mapping. Without one it follows the monotonic clock from an anchor.
use super::audio_clock_mapping::{
    add_duration_saturating, changed_rate_at, earliest_at, is_chain,
    law_planned_spans_apply_in_turn, law_rate_is_that_of_the_segment_in_force, position_at,
    positive_delay_for_future_deadline, rate_at, AudioClockMappingSegment, AudioClockMediaMapping,
    PlannedAudioOutputSpan,
};
use crate::playback_rate::{
    law_media_delta_is_monotone, law_wall_delay_is_least, lemma_checked, lemma_rate_in_range,
    PlaybackRate, PlaybackRateValidationError, NORMAL_RATE_BITS,
};
use crate::text::concat;
use crate::time::{lemma_duration_ext, lemma_duration_in_range, saturated, Duration, Instant};
use vstd::prelude::*;

verus! {

broadcast use {lemma_duration_in_range, lemma_rate_in_range};

/// How much a device has played and how much it has been given, on its output clock.
#[derive(Debug, Clone, Copy, PartialEq, Eq, Structural)]
pub struct AudioOutputClockTiming {
    /// Position that is being heard.
    pub audible_output_position: Duration,
    /// End of what the device has been given.
    pub submitted_output_end_position: Duration,
}

impl AudioOutputClockTiming {
    /// The timing with the given positions.
    pub fn new(
        audible_output_position: Duration,
        submitted_output_end_position: Duration,
    ) -> (r: Self)
        ensures
            r == (AudioOutputClockTiming {
                audible_output_position,
                submitted_output_end_position,
            }),
    {
        AudioOutputClockTiming { audible_output_position, submitted_output_end_position }
    }

    /// What the device has been given and has not played, in nanoseconds.
    pub open spec fn spec_submitted_output_tail(self) -> int {
        if self.submitted_output_end_position@ > self.audible_output_position@ {
            self.submitted_output_end_position@ - self.audible_output_position@
        } else {
            0
        }
    }

    /// What the device has been given and has not played.
    pub fn submitted_output_tail(self) -> (r: Duration)
        ensures
            r@ == self.spec_submitted_output_tail(),
    {
        self.submitted_output_end_position.saturating_sub(self.audible_output_position)
    }
}

/// A reading of the output clock with the position of the medium that belongs to it.
#[derive(Debug, Clone, Copy, PartialEq, Eq, Structural)]
pub struct CapturedAudioClockMapping {
    /// Reading of the output clock.
    pub output_timing: AudioOutputClockTiming,
    /// Position of the medium.
    pub media_position: Duration,
}

impl CapturedAudioClockMapping {
    /// A reading with its position.
    pub fn new(output_timing: AudioOutputClockTiming, media_position: Duration) -> (r: Self)
        ensures
            r == (CapturedAudioClockMapping { output_timing, media_position }),
    {
        CapturedAudioClockMapping { output_timing, media_position }
    }
}

/// Where the medium was at one reading of the monotonic clock, and how fast it goes on.
#[derive(Debug, Clone, Copy, PartialEq, Eq, Structural)]
pub struct MonotonicMediaClockAnchor {
    /// Position at `anchored_at`.
    pub media_position: Duration,
    /// Reading of the monotonic clock.
    pub anchored_at: Instant,
    /// Rate of playback.
    pub playback_rate: PlaybackRate,
}

impl MonotonicMediaClockAnchor {
    /// The time that has passed since the anchor.
    pub open spec fn elapsed(self, now: Instant) -> int {
        if now@ > self.anchored_at@ {
            now@ - self.anchored_at@
        } else {
            0
        }
    }

    /// The position of the medium when some time has passed since the anchor.
    pub open spec fn position_after(self, elapsed: int) -> int {
        saturated(self.media_position@ + self.playback_rate.media_delta(elapsed))
    }

    /// An anchor.
    pub fn new(
        media_position: Duration,
        anchored_at: Instant,
        playback_rate: PlaybackRate,
    ) -> (r: Self)
        ensures
            r == (MonotonicMediaClockAnchor { media_position, anchored_at, playback_rate }),
    {
        MonotonicMediaClockAnchor { media_position, anchored_at, playback_rate }
    }

    /// The position of the medium at a reading of the monotonic clock.
    pub fn position_at(self, now: Instant) -> (r: Duration)
        ensures
            r@ == self.position_after(self.elapsed(now)),
    {
        let elapsed_wall_time = now.saturating_duration_since(self.anchored_at);
        let elapsed_media_time = self.playback_rate.scale_wall_delta_to_media_delta(
            elapsed_wall_time,
        );
        add_duration_saturating(self.media_position, elapsed_media_time)
    }

    /// The position of the medium some time after a reading of the monotonic clock. It is
    /// rounded once, as if the clock had been read then.
    pub fn position_after_wall_delay(self, now: Instant, wall_delay: Duration) -> (r: Duration)
        ensures
            r@ == self.position_after(saturated(self.elapsed(now) + wall_delay@)),
    {
        let elapsed_wall_time = now.saturating_duration_since(self.anchored_at);
        let total_wall_time = add_duration_saturating(elapsed_wall_time, wall_delay);
        let media_time = self.playback_rate.scale_wall_delta_to_media_delta(total_wall_time);
        add_duration_saturating(self.media_position, media_time)
    }

    /// The time until the medium reaches a deadline: nothing where it is reached already, and
    /// otherwise the least time after which it is, at least one nanosecond.
    pub fn wall_delay_until_media_deadline(self, now: Instant, media_deadline: Duration) -> (r:
        Duration)
        ensures
            media_deadline@ <= self.position_after(self.elapsed(now)) ==> r@ == 0,
            media_deadline@ > self.position_after(self.elapsed(now)) ==> {
                let delay = self.playback_rate.wall_delay(media_deadline@ - self.media_position@)
                    - self.elapsed(now);
                r@ == if delay > 1 {
                    delay
                } else {
                    1
                }
            },
    {
        let current = self.position_at(now);
        if media_deadline <= current {
            return Duration::zero();
        }
        proof {
            use_type_invariant(&self.playback_rate);
            use_type_invariant(&self.media_position);
            use_type_invariant(&media_deadline);
            law_media_delta_is_monotone(self.playback_rate, 0, self.elapsed(now));
        }
        let elapsed_wall_time = now.saturating_duration_since(self.anchored_at);
        let ahead = media_deadline.saturating_sub(self.media_position);
        let total_wall_time = self.playback_rate.scale_media_delta_to_wall_delay(ahead);
        let delay = total_wall_time.saturating_sub(elapsed_wall_time);
        positive_delay_for_future_deadline(delay)
    }
}

/// The position of the medium without audio never runs backwards.
pub proof fn law_monotonic_position_is_monotone(
    anchor: MonotonicMediaClockAnchor,
    earlier: Instant,
    later: Instant,
)
    requires
        anchor.playback_rate.wf(),
        earlier@ <= later@,
    ensures
        anchor.position_after(anchor.elapsed(earlier)) <= anchor.position_after(
            anchor.elapsed(later),
        ),
{
    law_media_delta_is_monotone(
        anchor.playback_rate,
        anchor.elapsed(earlier),
        anchor.elapsed(later),
    );
}

/// A deadline after the anchor is reached exactly from the least time on that the rate gives
/// for the way to it.
pub proof fn law_monotonic_deadline_is_reached_exactly_from_its_delay_on(
    anchor: MonotonicMediaClockAnchor,
    elapsed: int,
    media_deadline: Duration,
)
    requires
        anchor.playback_rate.wf(),
        anchor.media_position.wf(),
        media_deadline.wf(),
        anchor.media_position@ <= media_deadline@,
        0 <= elapsed,
    ensures
        anchor.position_after(elapsed) >= media_deadline@ <==> elapsed
            >= anchor.playback_rate.exact_wall_delay(media_deadline@ - anchor.media_position@),
{
    law_wall_delay_is_least(
        anchor.playback_rate,
        elapsed,
        media_deadline@ - anchor.media_position@,
    );
}

/// Output that a tempo processor still owes, as it reports it.
#[derive(Debug, Clone, Copy, PartialEq, Eq, Structural)]
pub struct PendingTempoOutputSpan {
    /// Length on the output clock.
    pub stretched_output_duration: Duration,
    /// Multiplier, as the bit pattern of a single-precision number.
    pub ratio_bits: u32,
}

/// A report of a tempo processor names a rate outside the player's range.
#[derive(Debug, Clone, Copy, PartialEq, Eq, Structural)]
pub struct TempoReportRateError {
    /// What is wrong with the rate.
    pub error: PlaybackRateValidationError,
}

impl TempoReportRateError {
    /// The text of the error.
    pub fn message(&self) -> (r: String)
        ensures
            r@ == "tempo report содержит playback rate вне player boundary: "@
                + self.error.spec_message(),
    {
        concat(
            "tempo report содержит playback rate вне player boundary: ",
            self.error.message().as_str(),
        )
    }
}

/// The spans up to the first one whose rate is outside the player's range.
pub open spec fn planned_spans(pending: Seq<PendingTempoOutputSpan>) -> Result<
    Seq<PlannedAudioOutputSpan>,
    TempoReportRateError,
>
    decreases pending.len(),
{
    if pending.len() == 0 {
        Ok(Seq::empty())
    } else {
        match planned_spans(pending.drop_last()) {
            Err(error) => Err(error),
            Ok(spans) => match PlaybackRate::checked(pending.last().ratio_bits) {
                Err(error) => Err(TempoReportRateError { error }),
                Ok(rate) => Ok(
                    spans.push(
                        PlannedAudioOutputSpan {
                            output_duration: pending.last().stretched_output_duration,
                            playback_rate: rate,
                        },
                    ),
                ),
            },
        }
    }
}

/// Takes over the spans of a report.
pub fn planned_output_spans(pending: &[PendingTempoOutputSpan]) -> (r: Result<
    Vec<PlannedAudioOutputSpan>,
    TempoReportRateError,
>)
    ensures
        match r {
            Ok(spans) => planned_spans(pending@) == Ok::<_, TempoReportRateError>(spans@),
            Err(error) => planned_spans(pending@) == Err::<Seq<PlannedAudioOutputSpan>, _>(error),
        },
{
    let mut spans: Vec<PlannedAudioOutputSpan> = Vec::new();
    let mut index: usize = 0;
    while index < pending.len()
        invariant
            index <= pending@.len(),
            planned_spans(pending@.take(index as int)) == Ok::<_, TempoReportRateError>(spans@),
        decreases pending@.len() - index,
    {
        proof {
            assert(pending@.take(index + 1).drop_last() =~= pending@.take(index as int));
        }
        match PlaybackRate::new(pending[index].ratio_bits) {
            Ok(rate) => {
                spans.push(
                    PlannedAudioOutputSpan::new(pending[index].stretched_output_duration, rate),
                );
            },
            Err(error) => {
                proof {
                    lemma_planned_spans_error(
                        pending@,
                        index + 1,
                        TempoReportRateError { error },
                    );
                }
                return Err(TempoReportRateError { error });
            },
        }
        index = index + 1;
    }
    assert(pending@.take(index as int) =~= pending@);
    Ok(spans)
}

/// An error in a part of the spans is the error of all of them.
proof fn lemma_planned_spans_error(
    pending: Seq<PendingTempoOutputSpan>,
    length: int,
    error: TempoReportRateError,
)
    requires
        0 <= length <= pending.len(),
        planned_spans(pending.take(length)) == Err::<Seq<PlannedAudioOutputSpan>, _>(error),
    ensures
        planned_spans(pending) == Err::<Seq<PlannedAudioOutputSpan>, _>(error),
    decreases pending.len() - length,
{
    if length == pending.len() {
        assert(pending.take(length) =~= pending);
    } else {
        assert(pending.take(length + 1).drop_last() =~= pending.take(length));
        lemma_planned_spans_error(pending, length + 1, error);
    }
}

/// A mapping of one segment.
pub open spec fn single_segment(
    output_clock_start: Duration,
    media_position_start: Duration,
    playback_rate: PlaybackRate,
) -> Seq<AudioClockMappingSegment> {
    seq![
        AudioClockMappingSegment { output_clock_start, media_position_start, playback_rate },
    ]
}

/// The clocks of one medium.
#[derive(Debug)]
pub struct MediaClocks {
    /// Mapping from the output clock to positions of the medium.
    pub audio_clock_media_mapping: AudioClockMediaMapping,
    /// Position of the medium at which the clocks were set last.
    pub media_clock_base: Duration,
    /// Anchor of the clock without audio.
    pub monotonic_media_clock_anchor: Option<MonotonicMediaClockAnchor>,
    /// Last reading of the output clock.
    pub last_audio_clock: Duration,
    /// When that reading was seen first.
    pub last_audio_clock_change_at: Instant,
}

impl MediaClocks {
    /// Clocks at the start of the medium, at the normal rate.
    pub fn new(now: Instant) -> (r: Self)
        ensures
            r.media_clock_base@ == 0,
            r.audio_clock_media_mapping@.len() == 1,
            r.audio_clock_media_mapping@[0].output_clock_start@ == 0,
            r.audio_clock_media_mapping@[0].media_position_start@ == 0,
            r.audio_clock_media_mapping@[0].playback_rate@ == NORMAL_RATE_BITS,
            r.monotonic_media_clock_anchor is None,
            r.last_audio_clock@ == 0,
            r.last_audio_clock_change_at == now,
    {
        MediaClocks {
            audio_clock_media_mapping: AudioClockMediaMapping::new(
                Duration::zero(),
                Duration::zero(),
                PlaybackRate::normal(),
            ),
            media_clock_base: Duration::zero(),
            monotonic_media_clock_anchor: None,
            last_audio_clock: Duration::zero(),
            last_audio_clock_change_at: now,
        }
    }

    /// Follows an output clock from its reading on: the reading means the base position, at the
    /// rate of before. The clock without audio stops.
    pub fn follow_audio_clock(&mut self, output_timing: AudioOutputClockTiming)
        ensures
            is_chain(old(self).audio_clock_media_mapping@),
            final(self).audio_clock_media_mapping@ == single_segment(
                output_timing.audible_output_position,
                old(self).media_clock_base,
                old(self).audio_clock_media_mapping@.last().playback_rate,
            ),
            *final(self) == (MediaClocks {
                audio_clock_media_mapping: final(self).audio_clock_media_mapping,
                monotonic_media_clock_anchor: None,
                ..*old(self)
            }),
    {
        let playback_rate = self.audio_clock_media_mapping.open_playback_rate();
        self.audio_clock_media_mapping.reset_anchor(
            output_timing.audible_output_position,
            self.media_clock_base,
            playback_rate,
        );
        self.clear_monotonic_media_clock();
    }

    /// Follows an output clock that was set to zero: zero means the base position, at the rate
    /// of before.
    pub fn follow_reset_audio_clock(&mut self)
        ensures
            is_chain(old(self).audio_clock_media_mapping@),
            final(self).audio_clock_media_mapping@.len() == 1,
            final(self).audio_clock_media_mapping@[0].output_clock_start@ == 0,
            final(self).audio_clock_media_mapping@[0].media_position_start == old(self).media_clock_base,
            final(self).audio_clock_media_mapping@[0].playback_rate == old(self).audio_clock_media_mapping@.last().playback_rate,
            *final(self) == (MediaClocks {
                audio_clock_media_mapping: final(self).audio_clock_media_mapping,
                ..*old(self)
            }),
    {
        let playback_rate = self.audio_clock_media_mapping.open_playback_rate();
        self.audio_clock_media_mapping.reset_anchor(
            Duration::zero(),
            self.media_clock_base,
            playback_rate,
        );
    }

    /// Sets the position of the medium at a reading of the output clock, at a rate.
    pub fn reanchor_audio_clock_media_mapping(
        &mut self,
        media_position: Duration,
        playback_rate: PlaybackRate,
        output_timing: AudioOutputClockTiming,
    )
        ensures
            final(self).audio_clock_media_mapping@ == single_segment(
                output_timing.audible_output_position,
                media_position,
                playback_rate,
            ),
            *final(self) == (MediaClocks {
                audio_clock_media_mapping: final(self).audio_clock_media_mapping,
                media_clock_base: media_position,
                ..*old(self)
            }),
    {
        self.media_clock_base = media_position;
        self.audio_clock_media_mapping.reset_anchor(
            output_timing.audible_output_position,
            media_position,
            playback_rate,
        );
    }

    /// Sets the position of the medium at a reading of the output clock, at the rate of before.
    pub fn set_media_clock_base(&mut self, position: Duration, output_timing: AudioOutputClockTiming)
        ensures
            is_chain(old(self).audio_clock_media_mapping@),
            final(self).audio_clock_media_mapping@ == single_segment(
                output_timing.audible_output_position,
                position,
                old(self).audio_clock_media_mapping@.last().playback_rate,
            ),
            *final(self) == (MediaClocks {
                audio_clock_media_mapping: final(self).audio_clock_media_mapping,
                media_clock_base: position,
                ..*old(self)
            }),
    {
        let playback_rate = self.audio_clock_media_mapping.open_playback_rate();
        self.reanchor_audio_clock_media_mapping(position, playback_rate, output_timing);
    }

    /// Whether the clocks are others that were set to a position at a reading of the output
    /// clock, at a rate.
    pub open spec fn set_to(
        self,
        before: Self,
        position: Duration,
        playback_rate: PlaybackRate,
        timing: AudioOutputClockTiming,
    ) -> bool {
        &&& self == (MediaClocks {
            audio_clock_media_mapping: self.audio_clock_media_mapping,
            media_clock_base: position,
            ..before
        })
        &&& self.audio_clock_media_mapping@ == single_segment(
            timing.audible_output_position,
            position,
            playback_rate,
        )
    }

    /// Whether the clocks are others that were set to the target of a seek at a reading of the
    /// output clock.
    pub open spec fn sought(
        self,
        before: Self,
        position: Duration,
        observed_at: Instant,
        timing: AudioOutputClockTiming,
    ) -> bool {
        &&& self.media_clock_base == position
        &&& self.monotonic_media_clock_anchor is None
        &&& self.last_audio_clock@ == 0
        &&& self.last_audio_clock_change_at == observed_at
        &&& self.audio_clock_media_mapping@ == single_segment(
            timing.audible_output_position,
            position,
            before.audio_clock_media_mapping@.last().playback_rate,
        )
    }

    /// Changes the rate behind what the device has been given and what the tempo processor
    /// still owes: both were made for the rate of before and play at it.
    pub fn reanchor_for_rate_change_with_planned_spans(
        &mut self,
        captured_clock: CapturedAudioClockMapping,
        playback_rate: PlaybackRate,
        planned_spans: &[PlannedAudioOutputSpan],
    )
        ensures
            is_chain(old(self).audio_clock_media_mapping@),
            final(self).rate_changed_from(
                *old(self),
                captured_clock,
                playback_rate,
                planned_spans@,
            ),
    {
        let output_timing = captured_clock.output_timing;
        self.media_clock_base = captured_clock.media_position;
        self.audio_clock_media_mapping.reanchor_for_rate_change_with_planned_spans(
            output_timing.audible_output_position,
            captured_clock.media_position,
            output_timing.submitted_output_end_position,
            planned_spans,
            playback_rate,
        );
    }

    /// Whether the clocks are others with a changed rate: from the captured reading on they
    /// keep the rates of before up to the end of what the device has been given, then follow
    /// the planned spans, and then the new rate.
    pub open spec fn rate_changed_from(
        self,
        before: Self,
        captured_clock: CapturedAudioClockMapping,
        playback_rate: PlaybackRate,
        planned_spans: Seq<PlannedAudioOutputSpan>,
    ) -> bool {
        let now = captured_clock.output_timing.audible_output_position;
        let end = captured_clock.output_timing.submitted_output_end_position;
        let tail_end = if end@ > now@ {
            end@
        } else {
            now@
        };
        &&& self == (MediaClocks {
            audio_clock_media_mapping: self.audio_clock_media_mapping,
            media_clock_base: captured_clock.media_position,
            ..before
        })
        &&& is_chain(self.audio_clock_media_mapping@)
        &&& self.audio_clock_media_mapping@[0].output_clock_start == now
        &&& self.audio_clock_media_mapping@[0].media_position_start
            == captured_clock.media_position
        &&& forall|output_clock: int|
            #![trigger rate_at(self.audio_clock_media_mapping@, output_clock)]
            output_clock >= now@ ==> rate_at(self.audio_clock_media_mapping@, output_clock)
                == changed_rate_at(
                before.audio_clock_media_mapping@,
                tail_end,
                planned_spans,
                playback_rate,
                output_clock,
            )
    }

    /// Changes the rate behind what the device has been given.
    pub fn reanchor_for_captured_rate_change(
        &mut self,
        captured_clock: CapturedAudioClockMapping,
        playback_rate: PlaybackRate,
    )
        ensures
            is_chain(old(self).audio_clock_media_mapping@),
            final(self).rate_changed_from(
                *old(self),
                captured_clock,
                playback_rate,
                Seq::empty(),
            ),
    {
        let spans: Vec<PlannedAudioOutputSpan> = Vec::new();
        self.reanchor_for_rate_change_with_planned_spans(
            captured_clock,
            playback_rate,
            spans.as_slice(),
        );
    }

    /// Changes the rate behind what the device has been given and what a tempo processor
    /// reports that it still owes. A report with a rate outside the player's range changes
    /// nothing.
    pub fn reanchor_for_tempo_rate_change(
        &mut self,
        captured_clock: CapturedAudioClockMapping,
        playback_rate: PlaybackRate,
        pending_output: &[PendingTempoOutputSpan],
    ) -> (r: Result<(), TempoReportRateError>)
        ensures
            match planned_spans(pending_output@) {
                Ok(spans) => r is Ok && final(self).rate_changed_from(
                    *old(self),
                    captured_clock,
                    playback_rate,
                    spans,
                ),
                Err(error) => r == Err::<(), _>(error) && *final(self) == *old(self),
            },
    {
        match planned_output_spans(pending_output) {
            Ok(spans) => {
                self.reanchor_for_rate_change_with_planned_spans(
                    captured_clock,
                    playback_rate,
                    spans.as_slice(),
                );
                Ok(())
            },
            Err(error) => Err(error),
        }
    }

    /// A reading of the output clock with the position that belongs to it.
    pub fn captured_audio_clock_mapping_from_timing(
        &self,
        output_timing: AudioOutputClockTiming,
    ) -> (r: CapturedAudioClockMapping)
        ensures
            r.output_timing == output_timing,
            r.media_position@ == position_at(
                self.audio_clock_media_mapping@,
                output_timing.audible_output_position@,
            ),
    {
        CapturedAudioClockMapping::new(
            output_timing,
            self.media_position_at_timing(output_timing),
        )
    }

    /// The position of the medium at a reading of the output clock.
    pub fn media_position_at_timing(&self, output_timing: AudioOutputClockTiming) -> (r: Duration)
        ensures
            r@ == position_at(
                self.audio_clock_media_mapping@,
                output_timing.audible_output_position@,
            ),
    {
        self.audio_clock_media_mapping.media_position_at_output_clock(
            output_timing.audible_output_position,
        )
    }

    /// The position of the medium some output time after a reading of the output clock.
    pub fn media_position_after_output_delay(
        &self,
        output_timing: AudioOutputClockTiming,
        output_delay: Duration,
    ) -> (r: Duration)
        ensures
            r@ == position_at(
                self.audio_clock_media_mapping@,
                saturated(output_timing.audible_output_position@ + output_delay@),
            ),
    {
        self.audio_clock_media_mapping.media_position_after_output_delay(
            output_timing.audible_output_position,
            output_delay,
        )
    }

    /// The output time from a reading of the output clock until the medium reaches a deadline.
    pub fn output_delay_until_media_deadline(
        &self,
        output_timing: AudioOutputClockTiming,
        media_deadline: Duration,
    ) -> (r: Duration)
        ensures
            ({
                let segments = self.audio_clock_media_mapping@;
                let now = output_timing.audible_output_position@;
                let delay = saturated(earliest_at(segments, media_deadline@)) - now;
                r@ == if media_deadline@ <= position_at(segments, now) {
                    0
                } else if delay > 1 {
                    delay
                } else {
                    1
                }
            }),
    {
        self.audio_clock_media_mapping.output_delay_until_media_deadline(
            output_timing.audible_output_position,
            media_deadline,
        )
    }

    /// Starts the clock without audio.
    pub fn start_monotonic_media_clock(
        &mut self,
        position: Duration,
        now: Instant,
        playback_rate: PlaybackRate,
    )
        ensures
            *final(self) == (MediaClocks {
                monotonic_media_clock_anchor: Some(
                    MonotonicMediaClockAnchor {
                        media_position: position,
                        anchored_at: now,
                        playback_rate,
                    },
                ),
                ..*old(self)
            }),
    {
        self.monotonic_media_clock_anchor =
        Some(MonotonicMediaClockAnchor::new(position, now, playback_rate));
    }

    /// Stops the clock without audio.
    pub fn clear_monotonic_media_clock(&mut self)
        ensures
            *final(self) == (MediaClocks { monotonic_media_clock_anchor: None, ..*old(self) }),
    {
        self.monotonic_media_clock_anchor = None;
    }

    /// The position by the clock without audio, while it runs.
    pub fn monotonic_media_position(&self, now: Instant) -> (r: Option<Duration>)
        ensures
            match self.monotonic_media_clock_anchor {
                None => r is None,
                Some(anchor) => r matches Some(position) && position@ == anchor.position_after(
                    anchor.elapsed(now),
                ),
            },
    {
        match self.monotonic_media_clock_anchor {
            Some(anchor) => Some(anchor.position_at(now)),
            None => None,
        }
    }

    /// The position by the clock without audio after some time, while it runs.
    pub fn monotonic_media_position_after_wall_delay(
        &self,
        now: Instant,
        wall_delay: Duration,
    ) -> (r: Option<Duration>)
        ensures
            match self.monotonic_media_clock_anchor {
                None => r is None,
                Some(anchor) => r matches Some(position) && position@ == anchor.position_after(
                    saturated(anchor.elapsed(now) + wall_delay@),
                ),
            },
    {
        match self.monotonic_media_clock_anchor {
            Some(anchor) => Some(anchor.position_after_wall_delay(now, wall_delay)),
            None => None,
        }
    }

    /// The time until a deadline by the clock without audio, while it runs.
    pub fn monotonic_wall_delay_until_media_deadline(
        &self,
        now: Instant,
        media_deadline: Duration,
    ) -> (r: Option<Duration>)
        ensures
            match self.monotonic_media_clock_anchor {
                None => r is None,
                Some(anchor) => r matches Some(wait) && {
                    let elapsed = anchor.elapsed(now);
                    let delay = anchor.playback_rate.wall_delay(
                        media_deadline@ - anchor.media_position@,
                    ) - elapsed;
                    wait@ == if media_deadline@ <= anchor.position_after(elapsed) {
                        0
                    } else if delay > 1 {
                        delay
                    } else {
                        1
                    }
                },
            },
    {
        match self.monotonic_media_clock_anchor {
            Some(anchor) => Some(anchor.wall_delay_until_media_deadline(now, media_deadline)),
            None => None,
        }
    }

    /// Takes note of a reading of the output clock. Only a reading that differs from the last
    /// one counts.
    pub fn note_audio_clock_sample(&mut self, audio_now: Duration, observed_at: Instant)
        ensures
            *final(self) == if audio_now@ == old(self).last_audio_clock@ {
                *old(self)
            } else {
                MediaClocks {
                    last_audio_clock: audio_now,
                    last_audio_clock_change_at: observed_at,
                    ..*old(self)
                }
            },
    {
        proof {
            lemma_duration_ext(audio_now, self.last_audio_clock);
        }
        if audio_now == self.last_audio_clock {
            return ;
        }
        self.last_audio_clock = audio_now;
        self.last_audio_clock_change_at = observed_at;
    }

    /// Starts to watch the output clock anew.
    pub fn reset_audio_clock_sample(&mut self, audio_now: Duration, observed_at: Instant)
        ensures
            *final(self) == (MediaClocks {
                last_audio_clock: audio_now,
                last_audio_clock_change_at: observed_at,
                ..*old(self)
            }),
    {
        self.last_audio_clock = audio_now;
        self.last_audio_clock_change_at = observed_at;
    }

    /// For how long the output clock has not moved.
    pub fn audio_clock_stalled_for(&self, now: Instant) -> (r: Duration)
        ensures
            r@ == if now@ > self.last_audio_clock_change_at@ {
                now@ - self.last_audio_clock_change_at@
            } else {
                0
            },
    {
        now.saturating_duration_since(self.last_audio_clock_change_at)
    }

    /// Sets all clocks to the target of a seek.
    pub fn reanchor_media_clock_for_seek(
        &mut self,
        position: Duration,
        output_timing: AudioOutputClockTiming,
        observed_at: Instant,
    )
        ensures
            is_chain(old(self).audio_clock_media_mapping@),
            final(self).audio_clock_media_mapping@ == single_segment(
                output_timing.audible_output_position,
                position,
                old(self).audio_clock_media_mapping@.last().playback_rate,
            ),
            final(self).media_clock_base == position,
            final(self).monotonic_media_clock_anchor is None,
            final(self).last_audio_clock@ == 0,
            final(self).last_audio_clock_change_at == observed_at,
    {
        self.set_media_clock_base(position, output_timing);
        self.clear_monotonic_media_clock();
        self.reset_audio_clock_sample(Duration::zero(), observed_at);
    }
}

/// Without audio the position of the medium is that of the anchor, and what the rate makes of the
/// time that has passed since. Before the anchor it is that of the anchor.
pub proof fn law_position_without_audio_advances_at_the_rate(
    media_position: Duration,
    anchored_at: Instant,
    rate: PlaybackRate,
    anchor: MonotonicMediaClockAnchor,
    now: Instant,
    position: Duration,
    elapsed: Duration,
    advanced: Duration,
)
    requires
        rate.wf(),
        media_position.wf(),
        call_ensures(
            MonotonicMediaClockAnchor::new,
            (media_position, anchored_at, rate),
            anchor,
        ),
        call_ensures(MonotonicMediaClockAnchor::position_at, (anchor, now), position),
        now@ > anchored_at@ ==> elapsed@ == now@ - anchored_at@,
        now@ <= anchored_at@ ==> elapsed@ == 0,
        call_ensures(PlaybackRate::scale_wall_delta_to_media_delta, (rate, elapsed), advanced),
    ensures
        media_position@ + advanced@ <= 18_446_744_073_709_551_615_999_999_999 ==> position@
            == media_position@ + advanced@,
        now@ <= anchored_at@ ==> position@ == media_position@,
        media_position@ + advanced@ > 18_446_744_073_709_551_615_999_999_999 ==> position@
            == 18_446_744_073_709_551_615_999_999_999,
{
    crate::playback_rate::lemma_rate_fraction(rate);
    vstd::arithmetic::div_mod::lemma_div_of0(rate.denominator());
}

/// Without audio the wait for a deadline is the least one: nothing where the deadline is reached;
/// otherwise it is reached after the wait, where the clock still counts then, and not after any
/// shorter one.
pub proof fn law_wait_without_audio_is_the_least(
    anchor: MonotonicMediaClockAnchor,
    now: Instant,
    deadline: Duration,
    position: Duration,
    wait: Duration,
    reached: Duration,
    shorter: Duration,
    not_reached: Duration,
)
    requires
        anchor.playback_rate.wf(),
        anchor.media_position.wf(),
        deadline.wf(),
        shorter.wf(),
        now.since_origin.wf(),
        anchor.anchored_at.since_origin.wf(),
        call_ensures(MonotonicMediaClockAnchor::position_at, (anchor, now), position),
        call_ensures(
            MonotonicMediaClockAnchor::wall_delay_until_media_deadline,
            (anchor, now, deadline),
            wait,
        ),
        call_ensures(
            MonotonicMediaClockAnchor::position_after_wall_delay,
            (anchor, now, wait),
            reached,
        ),
        call_ensures(
            MonotonicMediaClockAnchor::position_after_wall_delay,
            (anchor, now, shorter),
            not_reached,
        ),
    ensures
        wait@ == 0 <==> position@ >= deadline@,
        wait@ > 0 && anchor.elapsed(now) + wait@ < 18_446_744_073_709_551_615_999_999_999
            ==> reached@ >= deadline@,
        wait@ > 0 && shorter@ < wait@ ==> not_reached@ < deadline@,
{
    let elapsed = anchor.elapsed(now);
    law_media_delta_is_monotone(anchor.playback_rate, 0, elapsed);
    if position@ < deadline@ {
        let way = deadline@ - anchor.media_position@;
        law_monotonic_deadline_is_reached_exactly_from_its_delay_on(anchor, elapsed, deadline);
        law_monotonic_deadline_is_reached_exactly_from_its_delay_on(
            anchor,
            elapsed + wait@,
            deadline,
        );
        law_monotonic_deadline_is_reached_exactly_from_its_delay_on(
            anchor,
            saturated(elapsed + shorter@),
            deadline,
        );
    }
}

/// The clock without audio tells a position exactly while it runs: from its start at the given
/// reading, position and rate, until it is stopped or an audio device is followed.
pub proof fn law_clock_without_audio_runs_from_start_to_stop(
    before: MediaClocks,
    started: MediaClocks,
    stopped: MediaClocks,
    followed: MediaClocks,
    position: Duration,
    now: Instant,
    rate: PlaybackRate,
    timing: AudioOutputClockTiming,
    at: Option<Duration>,
    none: Option<Duration>,
    other_none: Option<Duration>,
)
    requires
        rate.wf(),
        position.wf(),
        exists|clocks: &mut MediaClocks|
            *clocks == before && *final(clocks) == started && #[trigger] call_ensures(
                MediaClocks::start_monotonic_media_clock,
                (clocks, position, now, rate),
                (),
            ),
        exists|clocks: &mut MediaClocks|
            *clocks == started && *final(clocks) == stopped && #[trigger] call_ensures(
                MediaClocks::clear_monotonic_media_clock,
                (clocks,),
                (),
            ),
        exists|clocks: &mut MediaClocks|
            *clocks == started && *final(clocks) == followed && #[trigger] call_ensures(
                MediaClocks::follow_audio_clock,
                (clocks, timing),
                (),
            ),
        call_ensures(MediaClocks::monotonic_media_position, (&started, now), at),
        call_ensures(MediaClocks::monotonic_media_position, (&stopped, now), none),
        call_ensures(MediaClocks::monotonic_media_position, (&followed, now), other_none),
    ensures
        at is Some && at->0@ == position@,
        none is None && other_none is None,
        started.audio_clock_media_mapping == before.audio_clock_media_mapping,
        started.media_clock_base == before.media_clock_base,
{
    crate::playback_rate::lemma_rate_fraction(rate);
    vstd::arithmetic::div_mod::lemma_div_of0(rate.denominator());
}

/// Clocks that are set to a position at a reading of the output clock tell that position at that
/// reading: with a new rate, at the rate of before, for a seek, and where a device is followed,
/// whose reading means the base position.
pub proof fn law_clocks_tell_the_position_that_they_were_set_to(
    before: MediaClocks,
    anchored: MediaClocks,
    moved: MediaClocks,
    sought: MediaClocks,
    followed: MediaClocks,
    position: Duration,
    rate: PlaybackRate,
    timing: AudioOutputClockTiming,
    observed_at: Instant,
    anchored_at: Duration,
    moved_at: Duration,
    sought_at: Duration,
    followed_at: Duration,
)
    requires
        rate.wf(),
        position.wf(),
        before.media_clock_base.wf(),
        exists|clocks: &mut MediaClocks|
            *clocks == before && *final(clocks) == anchored && #[trigger] call_ensures(
                MediaClocks::reanchor_audio_clock_media_mapping,
                (clocks, position, rate, timing),
                (),
            ),
        exists|clocks: &mut MediaClocks|
            *clocks == before && *final(clocks) == moved && #[trigger] call_ensures(
                MediaClocks::set_media_clock_base,
                (clocks, position, timing),
                (),
            ),
        exists|clocks: &mut MediaClocks|
            *clocks == before && *final(clocks) == sought && #[trigger] call_ensures(
                MediaClocks::reanchor_media_clock_for_seek,
                (clocks, position, timing, observed_at),
                (),
            ),
        exists|clocks: &mut MediaClocks|
            *clocks == before && *final(clocks) == followed && #[trigger] call_ensures(
                MediaClocks::follow_audio_clock,
                (clocks, timing),
                (),
            ),
        call_ensures(MediaClocks::media_position_at_timing, (&anchored, timing), anchored_at),
        call_ensures(MediaClocks::media_position_at_timing, (&moved, timing), moved_at),
        call_ensures(MediaClocks::media_position_at_timing, (&sought, timing), sought_at),
        call_ensures(MediaClocks::media_position_at_timing, (&followed, timing), followed_at),
    ensures
        anchored_at@ == position@ && anchored.media_clock_base == position,
        anchored.audio_clock_media_mapping@.last().playback_rate == rate,
        moved_at@ == position@ && moved.media_clock_base == position,
        moved.audio_clock_media_mapping@.last().playback_rate
            == before.audio_clock_media_mapping@.last().playback_rate,
        sought_at@ == position@ && sought.media_clock_base == position,
        sought.audio_clock_media_mapping@.last().playback_rate
            == before.audio_clock_media_mapping@.last().playback_rate,
        sought.monotonic_media_clock_anchor is None,
        sought.last_audio_clock@ == 0 && sought.last_audio_clock_change_at == observed_at,
        followed_at@ == before.media_clock_base@,
        followed.audio_clock_media_mapping@.last().playback_rate
            == before.audio_clock_media_mapping@.last().playback_rate,
        followed.monotonic_media_clock_anchor is None,
{
    let old_rate = before.audio_clock_media_mapping@.last().playback_rate;
    assert(before.audio_clock_media_mapping@.last().wf());
    crate::playback_rate::lemma_rate_fraction(rate);
    crate::playback_rate::lemma_rate_fraction(old_rate);
    vstd::arithmetic::div_mod::lemma_div_of0(rate.denominator());
    vstd::arithmetic::div_mod::lemma_div_of0(old_rate.denominator());
}

/// A change of the rate leaves what the device has been given at the rate that it was made for,
/// from the captured reading and position on, and takes effect behind it.
pub proof fn law_captured_rate_change_takes_effect_behind_the_tail(
    before: MediaClocks,
    after: MediaClocks,
    captured: CapturedAudioClockMapping,
    rate: PlaybackRate,
    output_clock: int,
    i: int,
    j: int,
)
    requires
        exists|clocks: &mut MediaClocks|
            *clocks == before && *final(clocks) == after && #[trigger] call_ensures(
                MediaClocks::reanchor_for_captured_rate_change,
                (clocks, captured, rate),
                (),
            ),
        captured.output_timing.audible_output_position@ <= output_clock,
        0 <= i < before.audio_clock_media_mapping@.len(),
        i > 0 ==> before.audio_clock_media_mapping@[i].output_clock_start@ <= output_clock,
        i + 1 < before.audio_clock_media_mapping@.len() ==> output_clock
            < before.audio_clock_media_mapping@[i + 1].output_clock_start@,
        0 <= j < after.audio_clock_media_mapping@.len(),
        j > 0 ==> after.audio_clock_media_mapping@[j].output_clock_start@ <= output_clock,
        j + 1 < after.audio_clock_media_mapping@.len() ==> output_clock
            < after.audio_clock_media_mapping@[j + 1].output_clock_start@,
    ensures
        after.media_clock_base == captured.media_position,
        after.audio_clock_media_mapping@[0].output_clock_start
            == captured.output_timing.audible_output_position,
        after.audio_clock_media_mapping@[0].media_position_start == captured.media_position,
        output_clock < captured.output_timing.submitted_output_end_position@
            ==> after.audio_clock_media_mapping@[j].playback_rate
            == before.audio_clock_media_mapping@[i].playback_rate,
        output_clock >= captured.output_timing.submitted_output_end_position@
            ==> after.audio_clock_media_mapping@[j].playback_rate == rate,
        after.monotonic_media_clock_anchor == before.monotonic_media_clock_anchor,
{
    law_rate_is_that_of_the_segment_in_force(before.audio_clock_media_mapping@, output_clock, i);
    law_rate_is_that_of_the_segment_in_force(after.audio_clock_media_mapping@, output_clock, j);
    assert(rate_at(after.audio_clock_media_mapping@, output_clock)
        == after.audio_clock_media_mapping@[j].playback_rate);
}

/// A change of the rate with a tempo processor also leaves what the processor still owes at the
/// rates that it reports, in turn behind the tail. A report with a rate outside the player's range
/// changes nothing.
pub proof fn law_tempo_rate_change_takes_effect_behind_what_is_owed(
    before: MediaClocks,
    after: MediaClocks,
    captured: CapturedAudioClockMapping,
    rate: PlaybackRate,
    owed: &[PendingTempoOutputSpan],
    result: Result<(), TempoReportRateError>,
    starts: Seq<int>,
    k: int,
    output_clock: int,
    j: int,
)
    requires
        exists|clocks: &mut MediaClocks|
            *clocks == before && *final(clocks) == after && #[trigger] call_ensures(
                MediaClocks::reanchor_for_tempo_rate_change,
                (clocks, captured, rate, owed),
                result,
            ),
        starts.len() == owed@.len() + 1,
        starts[0] == if captured.output_timing.submitted_output_end_position@
            > captured.output_timing.audible_output_position@ {
            captured.output_timing.submitted_output_end_position@
        } else {
            captured.output_timing.audible_output_position@
        },
        forall|i: int|
            #![trigger owed@[i]]
            0 <= i < owed@.len() ==> starts[i + 1] == starts[i]
                + owed@[i].stretched_output_duration@ && owed@[i].stretched_output_duration@ >= 0,
        starts.last() <= 18_446_744_073_709_551_615_999_999_999,
        starts[0] <= output_clock,
        0 <= k < owed@.len(),
        0 <= j < after.audio_clock_media_mapping@.len(),
        j > 0 ==> after.audio_clock_media_mapping@[j].output_clock_start@ <= output_clock,
        j + 1 < after.audio_clock_media_mapping@.len() ==> output_clock
            < after.audio_clock_media_mapping@[j + 1].output_clock_start@,
    ensures
        result is Err ==> after == before,
        result is Ok <==> forall|i: int|
            0 <= i < owed@.len() ==> 0x3e80_0000 <= (#[trigger] owed@[i]).ratio_bits
                <= 0x4080_0000,
        result is Ok && starts[k] <= output_clock < starts[k + 1]
            ==> after.audio_clock_media_mapping@[j].playback_rate@ == owed@[k].ratio_bits,
        result is Ok && starts.last() <= output_clock
            ==> after.audio_clock_media_mapping@[j].playback_rate == rate,
{
    lemma_planned_spans(owed@);
    if let Ok(spans) = planned_spans(owed@) {
        assert forall|i: int| #![trigger spans[i]] 0 <= i < spans.len() implies starts[i + 1]
            == starts[i] + spans[i].output_duration@ && spans[i].output_duration@ >= 0 by {
            assert(owed@[i].stretched_output_duration == spans[i].output_duration);
        }
        law_rate_is_that_of_the_segment_in_force(
            after.audio_clock_media_mapping@,
            output_clock,
            j,
        );
        assert(rate_at(after.audio_clock_media_mapping@, output_clock)
            == after.audio_clock_media_mapping@[j].playback_rate);
        if starts[k] <= output_clock < starts[k + 1] {
            law_planned_spans_apply_in_turn(spans, starts, rate, output_clock, k);
        }
        if starts.last() <= output_clock {
            law_planned_spans_apply_in_turn(
                spans,
                starts,
                rate,
                output_clock,
                spans.len() as int,
            );
        }
    }
}

/// The spans of a report are taken over one for one where every rate is one of the player's.
proof fn lemma_planned_spans(pending: Seq<PendingTempoOutputSpan>)
    ensures
        planned_spans(pending) is Ok <==> forall|i: int|
            0 <= i < pending.len() ==> 0x3e80_0000 <= (#[trigger] pending[i]).ratio_bits
                <= 0x4080_0000,
        planned_spans(pending) matches Ok(spans) ==> spans.len() == pending.len() && forall|i: int|
            #![trigger spans[i]]
            #![trigger pending[i]]
            0 <= i < spans.len() ==> spans[i].output_duration
                == pending[i].stretched_output_duration && spans[i].playback_rate@
                == pending[i].ratio_bits,
    decreases pending.len(),
{
    if pending.len() > 0 {
        let rest = pending.drop_last();
        lemma_planned_spans(rest);
        lemma_checked(pending.last().ratio_bits);
        assert forall|i: int| 0 <= i < rest.len() implies #[trigger] rest[i] == pending[i] by {}
        assert(pending[pending.len() - 1] == pending.last());
        if planned_spans(pending) is Ok {
            assert forall|i: int| 0 <= i < pending.len() implies 0x3e80_0000 <= (
            #[trigger] pending[i]).ratio_bits <= 0x4080_0000 by {
                if i < rest.len() {
                    assert(rest[i] == pending[i]);
                }
            }
        }
        if forall|i: int|
            0 <= i < pending.len() ==> 0x3e80_0000 <= (#[trigger] pending[i]).ratio_bits
                <= 0x4080_0000 {
            assert forall|i: int| 0 <= i < rest.len() implies 0x3e80_0000 <= (
            #[trigger] rest[i]).ratio_bits <= 0x4080_0000 by {
                assert(rest[i] == pending[i]);
            }
        }
    }
}

/// The output clock counts as stalled since its last reading that differed from the one before.
pub proof fn law_output_clock_stalls_from_its_last_change(
    before: MediaClocks,
    after: MediaClocks,
    audio_now: Duration,
    observed_at: Instant,
    now: Instant,
    stalled: Duration,
    stalled_before: Duration,
)
    requires
        exists|clocks: &mut MediaClocks|
            *clocks == before && *final(clocks) == after && #[trigger] call_ensures(
                MediaClocks::note_audio_clock_sample,
                (clocks, audio_now, observed_at),
                (),
            ),
        call_ensures(MediaClocks::audio_clock_stalled_for, (&after, now), stalled),
        call_ensures(MediaClocks::audio_clock_stalled_for, (&before, now), stalled_before),
    ensures
        audio_now@ == before.last_audio_clock@ ==> after == before,
        audio_now@ != before.last_audio_clock@ ==> {
            &&& after.last_audio_clock == audio_now
            &&& now@ >= observed_at@ ==> stalled@ == now@ - observed_at@
            &&& now@ < observed_at@ ==> stalled@ == 0
        },
        audio_now@ == before.last_audio_clock@ ==> stalled@ == stalled_before@,
        after.audio_clock_media_mapping == before.audio_clock_media_mapping,
{
}

/// What a device has been given and not played is the distance of its two readings.
pub proof fn law_tail_is_what_was_not_played(timing: AudioOutputClockTiming, tail: Duration)
    requires
        call_ensures(AudioOutputClockTiming::submitted_output_tail, (timing,), tail),
    ensures
        timing.submitted_output_end_position@ >= timing.audible_output_position@ ==> tail@
            == timing.submitted_output_end_position@ - timing.audible_output_position@,
        timing.submitted_output_end_position@ < timing.audible_output_position@ ==> tail@ == 0,
{
}

/// A reading that is captured comes with the position that the clocks tell at it, and the position
/// after some output time is the one at that later reading.
pub proof fn law_captured_reading_comes_with_its_position(
    clocks: MediaClocks,
    timing: AudioOutputClockTiming,
    captured: CapturedAudioClockMapping,
    position: Duration,
    delay: Duration,
    later: AudioOutputClockTiming,
    after_delay: Duration,
    later_position: Duration,
)
    requires
        call_ensures(
            MediaClocks::captured_audio_clock_mapping_from_timing,
            (&clocks, timing),
            captured,
        ),
        call_ensures(MediaClocks::media_position_at_timing, (&clocks, timing), position),
        call_ensures(
            MediaClocks::media_position_after_output_delay,
            (&clocks, timing, delay),
            after_delay,
        ),
        timing.audible_output_position@ + delay@ <= 18_446_744_073_709_551_615_999_999_999,
        later.audible_output_position@ == timing.audible_output_position@ + delay@,
        call_ensures(MediaClocks::media_position_at_timing, (&clocks, later), later_position),
    ensures
        captured.output_timing == timing,
        captured.media_position@ == position@,
        after_delay@ == later_position@,
{
}

/// New clocks stand at the start of the medium, at the normal rate, and do not run. A device whose
/// clock was set to zero is followed from there on, at the position and the rate of before.
pub proof fn law_new_clocks_stand_at_the_start(
    now: Instant,
    made: MediaClocks,
    zero: AudioOutputClockTiming,
    position: Duration,
    running: Option<Duration>,
    before: MediaClocks,
    followed: MediaClocks,
    followed_at: Duration,
)
    requires
        call_ensures(MediaClocks::new, (now,), made),
        zero.audible_output_position@ == 0,
        call_ensures(MediaClocks::media_position_at_timing, (&made, zero), position),
        call_ensures(MediaClocks::monotonic_media_position, (&made, now), running),
        exists|clocks: &mut MediaClocks|
            *clocks == before && *final(clocks) == followed && #[trigger] call_ensures(
                MediaClocks::follow_reset_audio_clock,
                (clocks,),
                (),
            ),
        call_ensures(MediaClocks::media_position_at_timing, (&followed, zero), followed_at),
        before.media_clock_base.wf(),
    ensures
        position@ == 0,
        running is None,
        made.audio_clock_media_mapping@.last().playback_rate@ == 0x3f80_0000,
        made.media_clock_base@ == 0,
        followed_at@ == before.media_clock_base@,
        followed.audio_clock_media_mapping@.last().playback_rate
            == before.audio_clock_media_mapping@.last().playback_rate,
{
    let old_rate = before.audio_clock_media_mapping@.last().playback_rate;
    let new_rate = made.audio_clock_media_mapping@.last().playback_rate;
    assert(before.audio_clock_media_mapping@.last().wf());
    crate::playback_rate::lemma_rate_fraction(old_rate);
    crate::playback_rate::lemma_rate_fraction(new_rate);
    vstd::arithmetic::div_mod::lemma_div_of0(old_rate.denominator());
    vstd::arithmetic::div_mod::lemma_div_of0(new_rate.denominator());
}

/// The position some time after a reading is the one at the later reading: nothing is rounded
/// between.
pub proof fn law_position_after_a_while_is_that_of_the_later_reading(
    anchor: MonotonicMediaClockAnchor,
    now: Instant,
    delay: Duration,
    later: Instant,
    after_delay: Duration,
    later_position: Duration,
)
    requires
        now@ >= anchor.anchored_at@,
        later@ == now@ + delay@,
        now@ + delay@ - anchor.anchored_at@ <= 18_446_744_073_709_551_615_999_999_999,
        delay.wf(),
        call_ensures(
            MonotonicMediaClockAnchor::position_after_wall_delay,
            (anchor, now, delay),
            after_delay,
        ),
        call_ensures(MonotonicMediaClockAnchor::position_at, (anchor, later), later_position),
    ensures
        after_delay@ == later_position@,
{
}

/// Clocks that are set to a position, or change their rate, keep what was noted of the output clock
/// and whether they run without audio. Clocks that follow a device keep what was noted too.
pub proof fn law_setting_a_position_keeps_what_was_noted(
    before: MediaClocks,
    anchored: MediaClocks,
    moved: MediaClocks,
    changed: MediaClocks,
    followed: MediaClocks,
    position: Duration,
    rate: PlaybackRate,
    timing: AudioOutputClockTiming,
    captured: CapturedAudioClockMapping,
)
    requires
        exists|clocks: &mut MediaClocks|
            *clocks == before && *final(clocks) == anchored && #[trigger] call_ensures(
                MediaClocks::reanchor_audio_clock_media_mapping,
                (clocks, position, rate, timing),
                (),
            ),
        exists|clocks: &mut MediaClocks|
            *clocks == before && *final(clocks) == moved && #[trigger] call_ensures(
                MediaClocks::set_media_clock_base,
                (clocks, position, timing),
                (),
            ),
        exists|clocks: &mut MediaClocks|
            *clocks == before && *final(clocks) == changed && #[trigger] call_ensures(
                MediaClocks::reanchor_for_captured_rate_change,
                (clocks, captured, rate),
                (),
            ),
        exists|clocks: &mut MediaClocks|
            *clocks == before && *final(clocks) == followed && #[trigger] call_ensures(
                MediaClocks::follow_audio_clock,
                (clocks, timing),
                (),
            ),
    ensures
        anchored.last_audio_clock == before.last_audio_clock,
        anchored.last_audio_clock_change_at == before.last_audio_clock_change_at,
        anchored.monotonic_media_clock_anchor == before.monotonic_media_clock_anchor,
        moved.last_audio_clock == before.last_audio_clock,
        moved.last_audio_clock_change_at == before.last_audio_clock_change_at,
        moved.monotonic_media_clock_anchor == before.monotonic_media_clock_anchor,
        changed.last_audio_clock == before.last_audio_clock,
        changed.last_audio_clock_change_at == before.last_audio_clock_change_at,
        followed.last_audio_clock == before.last_audio_clock,
        followed.last_audio_clock_change_at == before.last_audio_clock_change_at,
        followed.media_clock_base == before.media_clock_base,
{
}

} // verus!
