//! Piecewise linear mapping between the output clock of an audio device and media time.
//!
//! The mapping is a chain of segments. Each segment starts where its predecessor has arrived,
//! so the mapping is continuous and never runs backwards; the last segment is open.
use crate::playback_rate::{
    law_media_delta_is_monotone, law_wall_delay_is_least, lemma_rate_fraction, lemma_rate_in_range,
    lemma_wall_delay_positive, PlaybackRate,
};
use crate::time::{
    lemma_duration_ext, lemma_duration_in_range, saturated, Duration, DURATION_MAX_NANOS,
};
use vstd::prelude::*;

verus! {

broadcast use {lemma_duration_in_range, lemma_rate_in_range};

/// Output that an earlier tempo segment still owes after the device tail.
#[derive(Debug, Clone, Copy, PartialEq, Eq, Structural)]
pub struct PlannedAudioOutputSpan {
    /// Length of the coming samples on the output clock.
    pub output_duration: Duration,
    /// Rate of the segment that produces these samples.
    pub playback_rate: PlaybackRate,
}

impl PlannedAudioOutputSpan {
    /// A span of output at the given rate.
    pub fn new(output_duration: Duration, playback_rate: PlaybackRate) -> (r: Self)
        ensures
            r.output_duration == output_duration,
            r.playback_rate == playback_rate,
    {
        PlannedAudioOutputSpan { output_duration, playback_rate }
    }
}

/// One linear piece of the mapping.
#[derive(Debug, Clone, Copy, PartialEq, Eq, Structural)]
pub struct AudioClockMappingSegment {
    /// Output clock from which the segment applies.
    pub output_clock_start: Duration,
    /// Media position at `output_clock_start`.
    pub media_position_start: Duration,
    /// Media progress per unit of output clock.
    pub playback_rate: PlaybackRate,
}

impl AudioClockMappingSegment {
    /// The values every segment holds.
    pub open spec fn wf(self) -> bool {
        &&& self.output_clock_start.wf()
        &&& self.media_position_start.wf()
        &&& self.playback_rate.wf()
    }

    /// The media position at an output clock, were the segment open. Before its start the
    /// segment stands still.
    pub open spec fn position(self, output_clock: int) -> int {
        let elapsed = if output_clock > self.output_clock_start@ {
            output_clock - self.output_clock_start@
        } else {
            0
        };
        saturated(self.media_position_start@ + self.playback_rate.media_delta(elapsed))
    }

    /// The earliest output clock at which the open segment reaches a media position.
    pub open spec fn earliest(self, media_position: int) -> int {
        let ahead = if media_position > self.media_position_start@ {
            media_position - self.media_position_start@
        } else {
            0
        };
        self.output_clock_start@ + self.playback_rate.exact_wall_delay(ahead)
    }

    /// The media position at an output clock, were the segment open.
    pub fn media_position_at(self, output_clock_position: Duration) -> (r: Duration)
        ensures
            r@ == self.position(output_clock_position@),
            self.wf(),
            output_clock_position.wf(),
            r.wf(),
    {
        let output_delta = output_clock_position.saturating_sub(self.output_clock_start);
        let media_delta = self.playback_rate.scale_wall_delta_to_media_delta(output_delta);
        let r = add_duration_saturating(self.media_position_start, media_delta);
        proof {
            use_type_invariant(&self.output_clock_start);
            use_type_invariant(&self.media_position_start);
            use_type_invariant(&self.playback_rate);
            use_type_invariant(&output_clock_position);
            use_type_invariant(&r);
        }
        r
    }
}

/// The rate that applies at an output clock: that of the last segment that has started, and
/// that of the first segment before the chain starts.
pub open spec fn rate_at(segments: Seq<AudioClockMappingSegment>, output_clock: int) -> PlaybackRate
    decreases segments.len(),
{
    if segments.len() <= 1 || segments.last().output_clock_start@ <= output_clock {
        segments.last().playback_rate
    } else {
        rate_at(segments.drop_last(), output_clock)
    }
}

/// The media position at an output clock.
pub open spec fn position_at(segments: Seq<AudioClockMappingSegment>, output_clock: int) -> int
    decreases segments.len(),
{
    if segments.len() <= 1 || segments.last().output_clock_start@ <= output_clock {
        segments.last().position(output_clock)
    } else {
        position_at(segments.drop_last(), output_clock)
    }
}

/// The earliest output clock at which the chain reaches a media position, however late.
pub open spec fn earliest_at(segments: Seq<AudioClockMappingSegment>, media_position: int) -> int
    decreases segments.len(),
{
    if segments.len() <= 1 || segments.last().media_position_start@ < media_position {
        segments.last().earliest(media_position)
    } else {
        earliest_at(segments.drop_last(), media_position)
    }
}

/// A chain of segments: starts strictly increase, neighbours differ in rate, and every segment
/// starts where its predecessor has arrived.
pub open spec fn is_chain(segments: Seq<AudioClockMappingSegment>) -> bool {
    &&& segments.len() > 0
    &&& forall|i: int| #![trigger segments[i]] 0 <= i < segments.len() ==> segments[i].wf()
    &&& forall|i: int, j: int|
        #![trigger segments[i], segments[j]]
        0 <= i < j < segments.len() ==> segments[i].output_clock_start@
            < segments[j].output_clock_start@
    &&& forall|i: int, j: int|
        #![trigger segments[i], segments[j]]
        0 <= i < segments.len() && j == i + 1 && j < segments.len() ==> {
            &&& segments[i].playback_rate != segments[j].playback_rate
            &&& segments[i].position(segments[j].output_clock_start@)
                == segments[j].media_position_start@
        }
}

/// The rate at an output clock from `cursor` on, where the planned spans follow each other
/// from there and the new rate applies after them.
pub open spec fn planned_rate_at(
    spans: Seq<PlannedAudioOutputSpan>,
    cursor: int,
    new_rate: PlaybackRate,
    output_clock: int,
) -> PlaybackRate
    decreases spans.len(),
{
    if spans.len() == 0 {
        new_rate
    } else {
        let end = saturated(cursor + spans[0].output_duration@);
        if output_clock < end {
            spans[0].playback_rate
        } else {
            planned_rate_at(spans.drop_first(), end, new_rate, output_clock)
        }
    }
}

/// The rate at an output clock after a rate change: the former mapping up to the end of the
/// submitted tail, then the planned spans, then the new rate.
pub open spec fn changed_rate_at(
    segments: Seq<AudioClockMappingSegment>,
    tail_end: int,
    spans: Seq<PlannedAudioOutputSpan>,
    new_rate: PlaybackRate,
    output_clock: int,
) -> PlaybackRate {
    if output_clock < tail_end {
        rate_at(segments, output_clock)
    } else {
        planned_rate_at(spans, tail_end, new_rate, output_clock)
    }
}

/// Continuous, monotone mapping from output clock to media time.
#[derive(Debug)]
pub struct AudioClockMediaMapping {
    segments: Vec<AudioClockMappingSegment>,
}

impl View for AudioClockMediaMapping {
    type V = Seq<AudioClockMappingSegment>;

    closed spec fn view(&self) -> Seq<AudioClockMappingSegment> {
        self.segments@
    }
}

impl Clone for AudioClockMediaMapping {
    fn clone(&self) -> (r: Self)
        ensures
            r@ == self@,
    {
        proof {
            use_type_invariant(self);
        }
        let segments = self.segments.clone();
        assert(segments@ =~= self.segments@);
        AudioClockMediaMapping { segments }
    }
}

impl AudioClockMediaMapping {
    #[verifier::type_invariant]
    pub closed spec fn inv(self) -> bool {
        is_chain(self.segments@)
    }

    /// A mapping with one open segment.
    pub fn new(
        output_clock_position: Duration,
        media_position: Duration,
        playback_rate: PlaybackRate,
    ) -> (r: Self)
        ensures
            r@ == seq![
                AudioClockMappingSegment {
                    output_clock_start: output_clock_position,
                    media_position_start: media_position,
                    playback_rate,
                },
            ],
            is_chain(r@),
    {
        proof {
            use_type_invariant(&output_clock_position);
            use_type_invariant(&media_position);
            use_type_invariant(&playback_rate);
        }
        let segments = vec![AudioClockMappingSegment {
            output_clock_start: output_clock_position,
            media_position_start: media_position,
            playback_rate,
        }];
        AudioClockMediaMapping { segments }
    }

    /// Forgets the chain and starts a new one.
    pub fn reset_anchor(
        &mut self,
        output_clock_position: Duration,
        media_position: Duration,
        playback_rate: PlaybackRate,
    )
        ensures
            final(self)@ == seq![
                AudioClockMappingSegment {
                    output_clock_start: output_clock_position,
                    media_position_start: media_position,
                    playback_rate,
                },
            ],
            is_chain(final(self)@),
    {
        *self = Self::new(output_clock_position, media_position, playback_rate);
    }

    /// The number of segments.
    pub fn segment_count(&self) -> (r: usize)
        ensures
            r == self@.len(),
            is_chain(self@),
    {
        proof {
            use_type_invariant(self);
        }
        self.segments.len()
    }

    /// One segment of the chain.
    pub fn segment(&self, index: usize) -> (r: AudioClockMappingSegment)
        requires
            index < self@.len(),
        ensures
            r == self@[index as int],
    {
        self.segments[index]
    }

    /// The rate of the open segment.
    pub fn open_playback_rate(&self) -> (r: PlaybackRate)
        ensures
            r == self@.last().playback_rate,
            is_chain(self@),
    {
        proof {
            use_type_invariant(self);
        }
        self.segments[self.segments.len() - 1].playback_rate
    }

    /// The media position at an output clock. Before the first segment that is its start.
    pub fn media_position_at_output_clock(&self, output_clock_position: Duration) -> (r: Duration)
        ensures
            r@ == position_at(self@, output_clock_position@),
            is_chain(self@),
            output_clock_position.wf(),
            r.wf(),
    {
        proof {
            use_type_invariant(self);
        }
        let index: usize = self.segment_index_at_output_clock(output_clock_position);
        proof {
            lemma_active_segment(self@, output_clock_position@, index as int);
        }
        self.segments[index].media_position_at(output_clock_position)
    }

    /// The delay on the output clock until media time reaches a deadline: nothing where it is
    /// reached already, and otherwise the delay to the earliest output clock that reaches it,
    /// at least one nanosecond.
    pub fn output_delay_until_media_deadline(
        &self,
        current_output_clock: Duration,
        media_deadline: Duration,
    ) -> (r: Duration)
        ensures
            media_deadline@ <= position_at(self@, current_output_clock@) ==> r@ == 0,
            media_deadline@ > position_at(self@, current_output_clock@) ==> {
                let delay = saturated(earliest_at(self@, media_deadline@)) - current_output_clock@;
                r@ == if delay > 1 {
                    delay
                } else {
                    1
                }
            },
            is_chain(self@),
            r.wf(),
    {
        proof {
            use_type_invariant(self);
            use_type_invariant(&current_output_clock);
            use_type_invariant(&media_deadline);
        }
        let current_media_position = self.media_position_at_output_clock(current_output_clock);
        if media_deadline <= current_media_position {
            return Duration::zero();
        }
        let mut index: usize = self.segment_index_at_output_clock(current_output_clock);
        proof {
            lemma_active_segment(self@, current_output_clock@, index as int);
            lemma_position_lower_bound(self@, current_output_clock@, index as int);
        }
        while index + 1 < self.segments.len() && media_deadline > self.segments[index
            + 1].media_position_start
            invariant
                index < self.segments.len(),
                self@ == self.segments@,
                is_chain(self@),
                self@[index as int].media_position_start@ < media_deadline@,
            decreases self.segments.len() - index,
        {
            index = index + 1;
        }
        let segment = self.segments[index];
        let ahead = media_deadline.saturating_sub(segment.media_position_start);
        let output_delta = segment.playback_rate.scale_media_delta_to_wall_delay(ahead);
        let target = add_duration_saturating(segment.output_clock_start, output_delta);
        let output_delay = target.saturating_sub(current_output_clock);
        let r = positive_delay_for_future_deadline(output_delay);
        proof {
            use_type_invariant(&r);
            assert(segment.wf());
            lemma_earliest_segment(self@, media_deadline@, index as int);
            lemma_wall_delay_positive(segment.playback_rate, ahead@);
        }
        r
    }

    /// The media position after a delay on the output clock.
    pub fn media_position_after_output_delay(
        &self,
        current_output_clock: Duration,
        output_delay: Duration,
    ) -> (r: Duration)
        ensures
            r@ == position_at(self@, saturated(current_output_clock@ + output_delay@)),
            is_chain(self@),
            r.wf(),
    {
        let target = add_duration_saturating(current_output_clock, output_delay);
        self.media_position_at_output_clock(target)
    }

    /// Changes the rate after the submitted tail. The mapping is rebuilt from the given pair of
    /// output clock and media position, keeps its rates up to the end of the tail, and
    /// continues at the new rate.
    pub fn reanchor_for_rate_change(
        &mut self,
        current_output_clock: Duration,
        current_media_position: Duration,
        submitted_output_end: Duration,
        new_playback_rate: PlaybackRate,
    )
        ensures
            is_chain(old(self)@),
            is_chain(final(self)@),
            final(self)@[0].output_clock_start == current_output_clock,
            final(self)@[0].media_position_start == current_media_position,
            forall|output_clock: int|
                #![trigger rate_at(final(self)@, output_clock)]
                output_clock >= current_output_clock@ ==> rate_at(final(self)@, output_clock)
                    == if output_clock < submitted_output_end@ {
                    rate_at(old(self)@, output_clock)
                } else {
                    new_playback_rate
                },
    {
        let spans: Vec<PlannedAudioOutputSpan> = Vec::new();
        self.reanchor_for_rate_change_with_planned_spans(
            current_output_clock,
            current_media_position,
            submitted_output_end,
            spans.as_slice(),
            new_playback_rate,
        );
    }

    /// Changes the rate after the submitted tail and the planned spans. The mapping is rebuilt
    /// from the given pair of output clock and media position, keeps its rates up to the end
    /// of the tail, runs through the planned spans, and continues at the new rate.
    pub fn reanchor_for_rate_change_with_planned_spans(
        &mut self,
        current_output_clock: Duration,
        current_media_position: Duration,
        submitted_output_end: Duration,
        planned_old_tempo_spans: &[PlannedAudioOutputSpan],
        new_playback_rate: PlaybackRate,
    )
        ensures
            is_chain(old(self)@),
            is_chain(final(self)@),
            final(self)@[0].output_clock_start == current_output_clock,
            final(self)@[0].media_position_start == current_media_position,
            forall|output_clock: int|
                #![trigger rate_at(final(self)@, output_clock)]
                output_clock >= current_output_clock@ ==> rate_at(final(self)@, output_clock)
                    == changed_rate_at(
                    old(self)@,
                    if submitted_output_end@ > current_output_clock@ {
                        submitted_output_end@
                    } else {
                        current_output_clock@
                    },
                    planned_old_tempo_spans@,
                    new_playback_rate,
                    output_clock,
                ),
    {
        proof {
            use_type_invariant(&*self);
            use_type_invariant(&current_output_clock);
            use_type_invariant(&current_media_position);
            use_type_invariant(&submitted_output_end);
            use_type_invariant(&new_playback_rate);
        }
        let ghost before = self@;
        let ghost current = current_output_clock@;
        let tail_end = submitted_output_end.max(current_output_clock);
        let active: usize = self.segment_index_at_output_clock(current_output_clock);
        proof {
            assert(active < self.segments.len());
            lemma_active_segment(before, current, active as int);
        }
        let old_rate_at_current = self.segments[active].playback_rate;
        let mut rebuilt: Vec<AudioClockMappingSegment> = Vec::new();
        append_segment_merging_adjacent(
            &mut rebuilt,
            AudioClockMappingSegment {
                output_clock_start: current_output_clock,
                media_position_start: current_media_position,
                playback_rate: old_rate_at_current,
            },
        );
        let mut index: usize = active + 1;
        proof {
            assert forall|c: int| c >= current implies rate_at(rebuilt@, c) == rate_at(
                before.take(index as int),
                c,
            ) by {
                assert(before.take(index as int).last() == before[active as int]);
            }
        }
        while index < self.segments.len() && self.segments[index].output_clock_start < tail_end
            invariant
                before == self.segments@,
                is_chain(before),
                active < index <= before.len(),
                current == current_output_clock@,
                active + 1 < before.len() ==> before[active + 1].output_clock_start@ > current,
                tail_end@ >= current,
                is_chain(rebuilt@),
                rebuilt@[0].output_clock_start == current_output_clock,
                rebuilt@[0].media_position_start == current_media_position,
                index == active + 1 ==> rebuilt@.last().output_clock_start@ == current,
                index > active + 1 ==> rebuilt@.last().output_clock_start@ <= before[index
                    - 1].output_clock_start@ < tail_end@,
                forall|c: int| #![trigger rate_at(rebuilt@, c)]
                    c >= current ==> rate_at(rebuilt@, c) == rate_at(before.take(index as int), c),
            decreases before.len() - index,
        {
            let boundary = self.segments[index];
            let ghost prior = rebuilt@;
            proof {
                assert(boundary == before[index as int]);
                assert(boundary.wf());
                let next = before[active + 1];
                if index > active + 1 {
                    assert(before[index - 1].output_clock_start@ < boundary.output_clock_start@);
                    assert(next.output_clock_start@ <= before[index - 1].output_clock_start@);
                }
            }
            let media_position = media_position_from_last_segment(
                &rebuilt,
                boundary.output_clock_start,
            );
            append_segment_merging_adjacent(
                &mut rebuilt,
                AudioClockMappingSegment {
                    output_clock_start: boundary.output_clock_start,
                    media_position_start: media_position,
                    playback_rate: boundary.playback_rate,
                },
            );
            proof {
                let grown = before.take(index + 1);
                assert(grown.last() == boundary);
                assert(grown.drop_last() =~= before.take(index as int));
                assert forall|c: int| c >= current implies rate_at(rebuilt@, c) == rate_at(
                    grown,
                    c,
                ) by {
                    if c < boundary.output_clock_start@ {
                        assert(rate_at(rebuilt@, c) == rate_at(prior, c));
                    }
                }
            }
            index = index + 1;
        }
        proof {
            assert forall|c: int| current <= c < tail_end@ implies rate_at(rebuilt@, c) == rate_at(
                before,
                c,
            ) by {
                lemma_rate_of_prefix(before, c, index as int);
            }
        }
        let mut cursor = tail_end;
        let mut media_cursor = media_position_from_last_segment(&rebuilt, tail_end);
        let mut span_index: usize = 0;
        let ghost spans = planned_old_tempo_spans@;
        proof {
            assert(spans.skip(0) =~= spans);
        }
        while span_index < planned_old_tempo_spans.len()
            invariant
                spans == planned_old_tempo_spans@,
                span_index <= spans.len(),
                current == current_output_clock@,
                current <= tail_end@ <= cursor@,
                cursor.wf(),
                is_chain(rebuilt@),
                rebuilt@[0].output_clock_start == current_output_clock,
                rebuilt@[0].media_position_start == current_media_position,
                rebuilt@.last().output_clock_start@ <= cursor@,
                media_cursor@ == rebuilt@.last().position(cursor@),
                media_cursor.wf(),
                forall|c: int| #![trigger rate_at(rebuilt@, c)]
                    current <= c < cursor@ ==> rate_at(rebuilt@, c) == changed_rate_at(
                        before,
                        tail_end@,
                        spans,
                        new_playback_rate,
                        c,
                    ),
                forall|c: int| #![trigger planned_rate_at(spans, tail_end@, new_playback_rate, c)]
                    c >= cursor@ ==> planned_rate_at(spans, tail_end@, new_playback_rate, c)
                        == planned_rate_at(
                        spans.skip(span_index as int),
                        cursor@,
                        new_playback_rate,
                        c,
                    ),
            decreases spans.len() - span_index,
        {
            let span = planned_old_tempo_spans[span_index];
            let ghost prior = rebuilt@;
            let ghost prior_cursor = cursor@;
            let ghost rest = spans.skip(span_index as int);
            proof {
                use_type_invariant(&span.output_duration);
                use_type_invariant(&span.playback_rate);
                assert(rest[0] == span);
                assert(rest.drop_first() =~= spans.skip(span_index + 1));
            }
            if !span.output_duration.is_zero() {
                append_segment_merging_adjacent(
                    &mut rebuilt,
                    AudioClockMappingSegment {
                        output_clock_start: cursor,
                        media_position_start: media_cursor,
                        playback_rate: span.playback_rate,
                    },
                );
                cursor = add_duration_saturating(cursor, span.output_duration);
                media_cursor = media_position_from_last_segment(&rebuilt, cursor);
                proof {
                    use_type_invariant(&cursor);
                    assert forall|c: int| current <= c < cursor@ implies rate_at(rebuilt@, c)
                        == changed_rate_at(before, tail_end@, spans, new_playback_rate, c) by {
                        if c < prior_cursor {
                            assert(rate_at(rebuilt@, c) == rate_at(prior, c));
                        } else {
                            assert(rate_at(rebuilt@, c) == span.playback_rate);
                            assert(planned_rate_at(spans, tail_end@, new_playback_rate, c)
                                == planned_rate_at(rest, prior_cursor, new_playback_rate, c));
                        }
                    }
                }
            }
            proof {
                assert forall|c: int| c >= cursor@ implies #[trigger] planned_rate_at(
                    spans,
                    tail_end@,
                    new_playback_rate,
                    c,
                ) == planned_rate_at(
                    spans.skip(span_index + 1),
                    cursor@,
                    new_playback_rate,
                    c,
                ) by {
                    assert(planned_rate_at(spans, tail_end@, new_playback_rate, c)
                        == planned_rate_at(rest, prior_cursor, new_playback_rate, c));
                }
            }
            span_index = span_index + 1;
        }
        let ghost prior = rebuilt@;
        append_segment_merging_adjacent(
            &mut rebuilt,
            AudioClockMappingSegment {
                output_clock_start: cursor,
                media_position_start: media_cursor,
                playback_rate: new_playback_rate,
            },
        );
        proof {
            assert(spans.skip(span_index as int) =~= Seq::empty());
            assert forall|c: int| c >= current implies rate_at(rebuilt@, c) == changed_rate_at(
                before,
                tail_end@,
                spans,
                new_playback_rate,
                c,
            ) by {
                if c < cursor@ {
                    assert(rate_at(rebuilt@, c) == rate_at(prior, c));
                } else {
                    assert(rate_at(rebuilt@, c) == new_playback_rate);
                    assert(planned_rate_at(spans, tail_end@, new_playback_rate, c)
                        == planned_rate_at(
                        spans.skip(span_index as int),
                        cursor@,
                        new_playback_rate,
                        c,
                    ));
                }
            }
        }
        *self = AudioClockMediaMapping { segments: rebuilt };
    }

    /// The index of the last segment that has started, or of the first segment.
    fn segment_index_at_output_clock(&self, output_clock_position: Duration) -> (r: usize)
        ensures
            is_chain(self@),
            r < self@.len(),
            r > 0 ==> self@[r as int].output_clock_start@ <= output_clock_position@,
            r + 1 < self@.len() ==> output_clock_position@ < self@[r + 1].output_clock_start@,
    {
        proof {
            use_type_invariant(self);
        }
        let mut low: usize = 0;
        let mut high: usize = self.segments.len();
        while high - low > 1
            invariant
                self@ == self.segments@,
                is_chain(self@),
                low < high <= self@.len(),
                low > 0 ==> self@[low as int].output_clock_start@ <= output_clock_position@,
                high < self@.len() ==> output_clock_position@ < self@[high as int].output_clock_start@,
            decreases high - low,
        {
            let middle: usize = low + (high - low) / 2;
            if self.segments[middle].output_clock_start <= output_clock_position {
                low = middle;
            } else {
                high = middle;
            }
        }
        low
    }
}

/// Appends a segment that starts where the last one has arrived. A segment with the same start
/// is replaced, and neighbours with the same rate become one.
fn append_segment_merging_adjacent(
    segments: &mut Vec<AudioClockMappingSegment>,
    segment: AudioClockMappingSegment,
)
    requires
        segment.wf(),
        old(segments)@.len() > 0 ==> {
            &&& is_chain(old(segments)@)
            &&& old(segments)@.last().output_clock_start@ <= segment.output_clock_start@
            &&& old(segments)@.last().position(segment.output_clock_start@)
                == segment.media_position_start@
        },
    ensures
        is_chain(final(segments)@),
        old(segments)@.len() == 0 ==> final(segments)@ == seq![segment],
        old(segments)@.len() > 0 ==> {
            &&& final(segments)@[0].output_clock_start == old(segments)@[0].output_clock_start
            &&& final(segments)@[0].media_position_start == old(segments)@[0].media_position_start
            &&& final(segments)@.last().output_clock_start@ <= segment.output_clock_start@
            &&& final(segments)@.last().playback_rate == segment.playback_rate
            &&& forall|c: int|
                #![trigger rate_at(final(segments)@, c)]
                c >= old(segments)@[0].output_clock_start@ ==> rate_at(final(segments)@, c) == if c
                    >= segment.output_clock_start@ {
                    segment.playback_rate
                } else {
                    rate_at(old(segments)@, c)
                }
        },
{
    let ghost before = segments@;
    if segments.len() > 0 {
        let last = segments[segments.len() - 1];
        proof {
            assert(before.last().wf());
            lemma_position_at_start(before.last());
        }
        if last.output_clock_start == segment.output_clock_start {
            let popped = segments.pop();
            proof {
                lemma_duration_ext(last.media_position_start, segment.media_position_start);
                if before.len() > 1 {
                    lemma_chain_prefix(before, before.len() - 1);
                }
            }
            if segments.len() > 0 {
                let previous = segments[segments.len() - 1];
                proof {
                    assert(segments@ == before.drop_last());
                    assert(previous == before[before.len() - 2]);
                    assert(before.take(before.len() - 1) =~= before.drop_last());
                    assert(previous.wf());
                    assert(before[before.len() - 2].position(before[before.len()
                        - 1].output_clock_start@) == before[before.len() - 1].media_position_start@);
                }
                if previous.playback_rate == segment.playback_rate {
                    return;
                }
                segments.push(segment);
                proof {
                    lemma_chain_push(before.drop_last(), segment);
                    assert(segments@.drop_last() =~= before.drop_last());
                }
                return;
            }
            segments.push(segment);
            proof {
                assert(segments@ =~= seq![segment]);
                assert(before =~= seq![last]);
            }
            return;
        }
        if last.playback_rate == segment.playback_rate {
            return;
        }
        proof {
            lemma_duration_ext(last.output_clock_start, segment.output_clock_start);
            lemma_chain_push(before, segment);
        }
    }
    segments.push(segment);
    proof {
        if before.len() > 0 {
            assert(segments@.drop_last() =~= before);
        } else {
            assert(segments@ =~= seq![segment]);
        }
    }
}

/// The media position at which the last segment arrives at an output clock.
fn media_position_from_last_segment(
    segments: &Vec<AudioClockMappingSegment>,
    output_clock_position: Duration,
) -> (r: Duration)
    requires
        segments@.len() > 0,
    ensures
        r@ == segments@.last().position(output_clock_position@),
        r.wf(),
{
    segments[segments.len() - 1].media_position_at(output_clock_position)
}

/// The sum of two durations, saturating.
pub fn add_duration_saturating(left: Duration, right: Duration) -> (r: Duration)
    ensures
        r@ == saturated(left@ + right@),
        r.wf(),
{
    let r = left.saturating_add(right);
    proof {
        use_type_invariant(&r);
    }
    r
}

/// A delay for a deadline that lies ahead: at least one nanosecond.
pub fn positive_delay_for_future_deadline(output_delay: Duration) -> (r: Duration)
    ensures
        r@ == if output_delay@ > 1 {
            output_delay@
        } else {
            1
        },
{
    output_delay.max(Duration::from_nanos(1))
}

/// The segment found by index is the one that applies.
proof fn lemma_active_segment(
    segments: Seq<AudioClockMappingSegment>,
    output_clock: int,
    index: int,
)
    requires
        is_chain(segments),
        0 <= index < segments.len(),
        index > 0 ==> segments[index].output_clock_start@ <= output_clock,
        index + 1 < segments.len() ==> output_clock < segments[index + 1].output_clock_start@,
    ensures
        position_at(segments, output_clock) == segments[index].position(output_clock),
        rate_at(segments, output_clock) == segments[index].playback_rate,
    decreases segments.len(),
{
    if index + 1 < segments.len() {
        let shorter = segments.drop_last();
        assert(segments[index + 1].output_clock_start@ <= segments.last().output_clock_start@);
        lemma_chain_prefix(segments, segments.len() - 1);
        assert(segments.take(segments.len() - 1) =~= shorter);
        lemma_active_segment(shorter, output_clock, index);
    }
}

/// A prefix of a chain is a chain.
proof fn lemma_chain_prefix(segments: Seq<AudioClockMappingSegment>, len: int)
    requires
        is_chain(segments),
        0 < len <= segments.len(),
    ensures
        is_chain(segments.take(len)),
{
    let prefix = segments.take(len);
    assert forall|i: int| 0 <= i < prefix.len() implies #[trigger] prefix[i] == segments[i] by {}
}

/// A chain grows by a segment that starts later where the last one has arrived.
proof fn lemma_chain_push(
    segments: Seq<AudioClockMappingSegment>,
    segment: AudioClockMappingSegment,
)
    requires
        is_chain(segments),
        segment.wf(),
        segments.last().output_clock_start@ < segment.output_clock_start@,
        segments.last().playback_rate != segment.playback_rate,
        segments.last().position(segment.output_clock_start@) == segment.media_position_start@,
    ensures
        is_chain(segments.push(segment)),
{
    let grown = segments.push(segment);
    assert forall|i: int| 0 <= i < segments.len() implies #[trigger] grown[i] == segments[i] by {}
    assert forall|i: int, j: int|
        #![trigger grown[i], grown[j]]
        0 <= i < j < grown.len() implies grown[i].output_clock_start@
        < grown[j].output_clock_start@ by {
        if j == segments.len() {
            assert(segments[i].output_clock_start@ <= segments.last().output_clock_start@);
        }
    }
}

/// Segments that start later do not change the rate at an earlier clock.
proof fn lemma_rate_of_prefix(segments: Seq<AudioClockMappingSegment>, output_clock: int, len: int)
    requires
        is_chain(segments),
        0 < len <= segments.len(),
        len < segments.len() ==> output_clock < segments[len].output_clock_start@,
    ensures
        rate_at(segments.take(len), output_clock) == rate_at(segments, output_clock),
    decreases segments.len(),
{
    if len == segments.len() {
        assert(segments.take(len) =~= segments);
    } else {
        let shorter = segments.drop_last();
        assert(segments[len].output_clock_start@ <= segments.last().output_clock_start@);
        lemma_chain_prefix(segments, segments.len() - 1);
        assert(segments.take(segments.len() - 1) =~= shorter);
        assert(shorter.take(len) =~= segments.take(len));
        lemma_rate_of_prefix(shorter, output_clock, len);
    }
}

/// At its own start a segment is at its start position.
proof fn lemma_position_at_start(segment: AudioClockMappingSegment)
    requires
        segment.wf(),
    ensures
        segment.position(segment.output_clock_start@) == segment.media_position_start@,
{
    lemma_media_delta_of_nothing(segment.playback_rate);
}

proof fn lemma_media_delta_of_nothing(rate: PlaybackRate)
    requires
        rate.wf(),
    ensures
        rate.media_delta(0) == 0,
{
    lemma_rate_fraction(rate);
    vstd::arithmetic::div_mod::lemma_div_of0(rate.denominator());
}

/// A segment never runs backwards and never falls below its start.
proof fn lemma_segment_monotone(segment: AudioClockMappingSegment, earlier: int, later: int)
    requires
        segment.wf(),
        earlier <= later,
    ensures
        segment.media_position_start@ <= segment.position(earlier) <= segment.position(later),
        segment.position(later) <= DURATION_MAX_NANOS,
{
    let start = segment.output_clock_start@;
    let a = if earlier > start {
        earlier - start
    } else {
        0
    };
    let b = if later > start {
        later - start
    } else {
        0
    };
    law_media_delta_is_monotone(segment.playback_rate, a, b);
}

/// Starts of later segments lie at later media positions.
proof fn lemma_media_starts_ordered(segments: Seq<AudioClockMappingSegment>, i: int, j: int)
    requires
        is_chain(segments),
        0 <= i <= j < segments.len(),
    ensures
        segments[i].media_position_start@ <= segments[j].media_position_start@,
    decreases j - i,
{
    if i < j {
        lemma_media_starts_ordered(segments, i, j - 1);
        let previous = segments[j - 1];
        assert(previous.position(segments[j].output_clock_start@)
            == segments[j].media_position_start@);
        lemma_segment_monotone(
            previous,
            segments[j].output_clock_start@,
            segments[j].output_clock_start@,
        );
    }
}

/// The position at a clock is not below the start of the segment that applies.
proof fn lemma_position_lower_bound(
    segments: Seq<AudioClockMappingSegment>,
    output_clock: int,
    index: int,
)
    requires
        is_chain(segments),
        0 <= index < segments.len(),
        position_at(segments, output_clock) == segments[index].position(output_clock),
    ensures
        segments[index].media_position_start@ <= position_at(segments, output_clock)
            <= DURATION_MAX_NANOS,
{
    lemma_segment_monotone(segments[index], output_clock, output_clock);
}

/// The segment found by media position is the one that reaches it.
proof fn lemma_earliest_segment(
    segments: Seq<AudioClockMappingSegment>,
    media_position: int,
    index: int,
)
    requires
        is_chain(segments),
        0 <= index < segments.len(),
        index > 0 ==> segments[index].media_position_start@ < media_position,
        index + 1 < segments.len() ==> media_position <= segments[index + 1].media_position_start@,
    ensures
        earliest_at(segments, media_position) == segments[index].earliest(media_position),
    decreases segments.len(),
{
    if index + 1 < segments.len() {
        let shorter = segments.drop_last();
        lemma_media_starts_ordered(segments, index + 1, segments.len() - 1);
        lemma_chain_prefix(segments, segments.len() - 1);
        assert(segments.take(segments.len() - 1) =~= shorter);
        lemma_earliest_segment(shorter, media_position, index);
    }
}

/// An open segment reaches a position ahead of its start exactly from its earliest clock on.
proof fn lemma_segment_earliest(
    segment: AudioClockMappingSegment,
    output_clock: int,
    media_position: int,
)
    requires
        segment.wf(),
        segment.media_position_start@ < media_position <= DURATION_MAX_NANOS,
    ensures
        segment.position(output_clock) >= media_position <==> output_clock >= segment.earliest(
            media_position,
        ),
        segment.earliest(media_position) > segment.output_clock_start@,
{
    let start = segment.output_clock_start@;
    let ahead = media_position - segment.media_position_start@;
    lemma_wall_delay_positive(segment.playback_rate, ahead);
    if output_clock > start {
        law_wall_delay_is_least(segment.playback_rate, output_clock - start, ahead);
    } else {
        lemma_media_delta_of_nothing(segment.playback_rate);
    }
}

/// The mapping never runs backwards.
pub proof fn law_position_is_monotone(
    segments: Seq<AudioClockMappingSegment>,
    earlier: int,
    later: int,
)
    requires
        is_chain(segments),
        earlier <= later,
    ensures
        segments[0].media_position_start@ <= position_at(segments, earlier) <= position_at(
            segments,
            later,
        ) <= DURATION_MAX_NANOS,
    decreases segments.len(),
{
    let last = segments.last();
    let start = last.output_clock_start@;
    assert(last.wf());
    lemma_segment_monotone(last, earlier, later);
    if segments.len() > 1 {
        let shorter = segments.drop_last();
        lemma_chain_prefix(segments, segments.len() - 1);
        assert(segments.take(segments.len() - 1) =~= shorter);
        lemma_media_starts_ordered(segments, 0, segments.len() - 1);
        if later < start {
            law_position_is_monotone(shorter, earlier, later);
        } else if earlier < start {
            law_position_is_monotone(shorter, earlier, start);
            lemma_position_before_last(segments);
        }
    }
}

/// The prefix of a chain arrives at the start of the last segment at its start position.
proof fn lemma_position_before_last(segments: Seq<AudioClockMappingSegment>)
    requires
        is_chain(segments),
        segments.len() > 1,
    ensures
        position_at(segments.drop_last(), segments.last().output_clock_start@)
            == segments.last().media_position_start@,
{
    let shorter = segments.drop_last();
    let previous = segments[segments.len() - 2];
    assert(shorter.last() == previous);
    assert(previous.output_clock_start@ < segments.last().output_clock_start@);
    assert(previous.position(segments.last().output_clock_start@)
        == segments.last().media_position_start@);
}

/// The inverse is exact: the mapping has reached a position ahead of the anchor exactly from
/// the earliest clock on.
pub proof fn law_deadline_is_reached_from_the_earliest_clock_on(
    segments: Seq<AudioClockMappingSegment>,
    output_clock: int,
    media_position: int,
)
    requires
        is_chain(segments),
        segments[0].media_position_start@ < media_position <= DURATION_MAX_NANOS,
    ensures
        position_at(segments, output_clock) >= media_position <==> output_clock >= earliest_at(
            segments,
            media_position,
        ),
    decreases segments.len(),
{
    let last = segments.last();
    let start = last.output_clock_start@;
    assert(last.wf());
    if segments.len() == 1 {
        lemma_segment_earliest(last, output_clock, media_position);
    } else {
        let shorter = segments.drop_last();
        lemma_chain_prefix(segments, segments.len() - 1);
        assert(segments.take(segments.len() - 1) =~= shorter);
        lemma_position_before_last(segments);
        if last.media_position_start@ < media_position {
            lemma_segment_earliest(last, output_clock, media_position);
            if output_clock < start {
                law_position_is_monotone(shorter, output_clock, start);
            }
        } else {
            law_deadline_is_reached_from_the_earliest_clock_on(
                shorter,
                output_clock,
                media_position,
            );
            law_deadline_is_reached_from_the_earliest_clock_on(shorter, start, media_position);
            if output_clock >= start {
                lemma_segment_monotone(last, output_clock, output_clock);
            }
        }
    }
}

/// The rate and the position at the start of a segment are its own.
pub proof fn law_segment_start_is_exact(segments: Seq<AudioClockMappingSegment>, index: int)
    requires
        is_chain(segments),
        0 <= index < segments.len(),
    ensures
        position_at(segments, segments[index].output_clock_start@)
            == segments[index].media_position_start@,
        rate_at(segments, segments[index].output_clock_start@) == segments[index].playback_rate,
{
    let segment = segments[index];
    assert(segment.wf());
    if index + 1 < segments.len() {
        assert(segment.output_clock_start@ < segments[index + 1].output_clock_start@);
    }
    lemma_active_segment(segments, segment.output_clock_start@, index);
    lemma_position_at_start(segment);
}

/// An anchor and the rate at every later output clock determine the whole chain.
pub proof fn law_chain_is_determined_by_anchor_and_rates(
    a: Seq<AudioClockMappingSegment>,
    b: Seq<AudioClockMappingSegment>,
)
    requires
        is_chain(a),
        is_chain(b),
        a[0].output_clock_start == b[0].output_clock_start,
        a[0].media_position_start == b[0].media_position_start,
        forall|c: int| c >= a[0].output_clock_start@ ==> rate_at(a, c) == rate_at(b, c),
    ensures
        a == b,
{
    let shared = if a.len() < b.len() {
        a.len()
    } else {
        b.len()
    };
    lemma_common_prefix(a, b, shared as int);
    if a.len() >= b.len() {
        lemma_no_further_segment(a, b);
    }
    if b.len() >= a.len() {
        lemma_no_further_segment(b, a);
    }
    assert(a =~= b);
}

proof fn lemma_common_prefix(
    a: Seq<AudioClockMappingSegment>,
    b: Seq<AudioClockMappingSegment>,
    len: int,
)
    requires
        is_chain(a),
        is_chain(b),
        a[0].output_clock_start == b[0].output_clock_start,
        a[0].media_position_start == b[0].media_position_start,
        forall|c: int| c >= a[0].output_clock_start@ ==> rate_at(a, c) == rate_at(b, c),
        0 < len <= a.len(),
        len <= b.len(),
    ensures
        forall|i: int| 0 <= i < len ==> a[i] == b[i],
    decreases len,
{
    let i = len - 1;
    if i > 0 {
        lemma_common_prefix(a, b, i);
        assert(a[i - 1] == b[i - 1]);
        let anchor = a[0].output_clock_start@;
        let x = a[i].output_clock_start@;
        let y = b[i].output_clock_start@;
        assert(anchor < x && anchor < y);
        assert(a[i - 1].output_clock_start@ < x && b[i - 1].output_clock_start@ < y);
        law_segment_start_is_exact(a, i);
        law_segment_start_is_exact(b, i);
        if x < y {
            lemma_active_segment(b, x, i - 1);
            assert(rate_at(a, x) == rate_at(b, x));
            assert(a[i - 1].playback_rate != a[i].playback_rate);
        } else if y < x {
            lemma_active_segment(a, y, i - 1);
            assert(rate_at(a, y) == rate_at(b, y));
            assert(b[i - 1].playback_rate != b[i].playback_rate);
        }
        assert(x == y);
        assert(rate_at(a, x) == rate_at(b, x));
        lemma_duration_ext(a[i].output_clock_start, b[i].output_clock_start);
        assert(a[i - 1].position(x) == a[i].media_position_start@);
        assert(b[i - 1].position(x) == b[i].media_position_start@);
        lemma_duration_ext(a[i].media_position_start, b[i].media_position_start);
    } else {
        let anchor = a[0].output_clock_start@;
        law_segment_start_is_exact(a, 0);
        law_segment_start_is_exact(b, 0);
        assert(rate_at(a, anchor) == rate_at(b, anchor));
    }
}

proof fn lemma_no_further_segment(
    longer: Seq<AudioClockMappingSegment>,
    shorter: Seq<AudioClockMappingSegment>,
)
    requires
        is_chain(longer),
        is_chain(shorter),
        longer.len() >= shorter.len(),
        forall|i: int| 0 <= i < shorter.len() ==> longer[i] == shorter[i],
        forall|c: int|
            c >= longer[0].output_clock_start@ ==> rate_at(longer, c) == rate_at(shorter, c),
    ensures
        longer.len() == shorter.len(),
{
    if longer.len() > shorter.len() {
        let i = shorter.len() as int;
        let c = longer[i].output_clock_start@;
        assert(longer[0].output_clock_start@ < c);
        assert(longer[i - 1].output_clock_start@ < c);
        assert(longer[i - 1] == shorter[i - 1]);
        law_segment_start_is_exact(longer, i);
        lemma_active_segment(shorter, c, i - 1);
        assert(rate_at(longer, c) == rate_at(shorter, c));
        assert(longer[i - 1].playback_rate != longer[i].playback_rate);
    }
}

/// The rate at an output clock is that of the segment in force: the last one that has started, or
/// the first one before the chain starts.
pub proof fn law_rate_is_that_of_the_segment_in_force(
    segments: Seq<AudioClockMappingSegment>,
    output_clock: int,
    index: int,
)
    requires
        is_chain(segments),
        0 <= index < segments.len(),
        index > 0 ==> segments[index].output_clock_start@ <= output_clock,
        index + 1 < segments.len() ==> output_clock < segments[index + 1].output_clock_start@,
    ensures
        rate_at(segments, output_clock) == segments[index].playback_rate,
{
    lemma_active_segment(segments, output_clock, index);
}

/// The media position at an output clock is the start position of the segment in force, and what
/// the rate of that segment makes of the output time since its start. Before the chain starts it is
/// the start position of the first segment.
pub proof fn law_position_advances_at_the_rate_of_the_segment(
    mapping: AudioClockMediaMapping,
    index: int,
    output_clock: Duration,
    position: Duration,
    elapsed: Duration,
    advanced: Duration,
)
    requires
        call_ensures(
            AudioClockMediaMapping::media_position_at_output_clock,
            (&mapping, output_clock),
            position,
        ),
        0 <= index < mapping@.len(),
        index > 0 ==> mapping@[index].output_clock_start@ <= output_clock@,
        index + 1 < mapping@.len() ==> output_clock@ < mapping@[index + 1].output_clock_start@,
        output_clock@ > mapping@[index].output_clock_start@ ==> elapsed@ == output_clock@
            - mapping@[index].output_clock_start@,
        call_ensures(
            PlaybackRate::scale_wall_delta_to_media_delta,
            (mapping@[index].playback_rate, elapsed),
            advanced,
        ),
    ensures
        output_clock@ <= mapping@[index].output_clock_start@ ==> position@
            == mapping@[index].media_position_start@,
        output_clock@ > mapping@[index].output_clock_start@
            && mapping@[index].media_position_start@ + advanced@
            <= 18_446_744_073_709_551_615_999_999_999 ==> position@
            == mapping@[index].media_position_start@ + advanced@,
        mapping@[index].media_position_start@ + advanced@
            > 18_446_744_073_709_551_615_999_999_999 && output_clock@
            > mapping@[index].output_clock_start@ ==> position@
            == 18_446_744_073_709_551_615_999_999_999,
{
    let segment = mapping@[index];
    assert(segment.wf());
    lemma_active_segment(mapping@, output_clock@, index);
    lemma_media_delta_of_nothing(segment.playback_rate);
}

/// A new mapping has one segment, from the given output clock and media position on, at the given
/// rate; so has one that was set anew. At its anchor it is at the given position.
pub proof fn law_mapping_starts_at_its_anchor(
    before: AudioClockMediaMapping,
    output_clock: Duration,
    media_position: Duration,
    rate: PlaybackRate,
    made: AudioClockMediaMapping,
    reset: AudioClockMediaMapping,
    position: Duration,
    open_rate: PlaybackRate,
)
    requires
        call_ensures(
            AudioClockMediaMapping::new,
            (output_clock, media_position, rate),
            made,
        ),
        exists|mapping: &mut AudioClockMediaMapping|
            *mapping == before && *final(mapping) == reset && #[trigger] call_ensures(
                AudioClockMediaMapping::reset_anchor,
                (mapping, output_clock, media_position, rate),
                (),
            ),
        call_ensures(
            AudioClockMediaMapping::media_position_at_output_clock,
            (&made, output_clock),
            position,
        ),
        call_ensures(AudioClockMediaMapping::open_playback_rate, (&made,), open_rate),
    ensures
        reset@ == made@,
        made@.len() == 1,
        position == media_position,
        open_rate == rate,
{
    assert(made@[0].wf());
    lemma_position_at_start(made@[0]);
    lemma_duration_ext(position, media_position);
}

/// Media time never runs backwards along the output clock, and it passes from one segment to the
/// next without a jump.
pub proof fn law_media_time_is_continuous_and_never_runs_backwards(
    mapping: AudioClockMediaMapping,
    earlier: Duration,
    later: Duration,
    earlier_position: Duration,
    later_position: Duration,
    index: int,
    start_position: Duration,
)
    requires
        call_ensures(
            AudioClockMediaMapping::media_position_at_output_clock,
            (&mapping, earlier),
            earlier_position,
        ),
        call_ensures(
            AudioClockMediaMapping::media_position_at_output_clock,
            (&mapping, later),
            later_position,
        ),
        earlier@ <= later@,
        0 <= index < mapping@.len(),
        call_ensures(
            AudioClockMediaMapping::media_position_at_output_clock,
            (&mapping, mapping@[index].output_clock_start),
            start_position,
        ),
    ensures
        earlier_position@ <= later_position@,
        start_position == mapping@[index].media_position_start,
        index > 0 ==> mapping@[index - 1].output_clock_start@ < mapping@[index].output_clock_start@
            && mapping@[index - 1].media_position_start@ <= mapping@[index].media_position_start@
            && mapping@[index - 1].playback_rate != mapping@[index].playback_rate,
{
    law_position_is_monotone(mapping@, earlier@, later@);
    law_segment_start_is_exact(mapping@, index);
    lemma_duration_ext(start_position, mapping@[index].media_position_start);
    if index > 0 {
        lemma_media_starts_ordered(mapping@, index - 1, index);
        assert(mapping@[index - 1].wf());
    }
}

/// The delay until a deadline is the least one: nothing where the deadline is reached already;
/// otherwise the deadline is reached after the delay, where the clock still counts then, and not
/// after any shorter one.
pub proof fn law_delay_until_a_deadline_is_the_least(
    mapping: AudioClockMediaMapping,
    current: Duration,
    deadline: Duration,
    current_position: Duration,
    delay: Duration,
    reached: Duration,
    shorter: Duration,
    not_reached: Duration,
)
    requires
        deadline.wf(),
        current.wf(),
        shorter.wf(),
        call_ensures(
            AudioClockMediaMapping::media_position_at_output_clock,
            (&mapping, current),
            current_position,
        ),
        call_ensures(
            AudioClockMediaMapping::output_delay_until_media_deadline,
            (&mapping, current, deadline),
            delay,
        ),
        call_ensures(
            AudioClockMediaMapping::media_position_after_output_delay,
            (&mapping, current, delay),
            reached,
        ),
        call_ensures(
            AudioClockMediaMapping::media_position_after_output_delay,
            (&mapping, current, shorter),
            not_reached,
        ),
        shorter@ < delay@,
    ensures
        current_position@ < deadline@,
        current@ + delay@ < 18_446_744_073_709_551_615_999_999_999 ==> reached@ >= deadline@,
        not_reached@ < deadline@,
{
    let segments = mapping@;
    law_position_is_monotone(segments, current@, current@);
    if current_position@ < deadline@ {
        law_deadline_is_reached_from_the_earliest_clock_on(segments, current@, deadline@);
        law_deadline_is_reached_from_the_earliest_clock_on(
            segments,
            current@ + delay@,
            deadline@,
        );
        law_deadline_is_reached_from_the_earliest_clock_on(
            segments,
            saturated(current@ + shorter@),
            deadline@,
        );
    }
}

/// Nothing is waited for a deadline that is reached.
pub proof fn law_reached_deadline_needs_no_delay(
    mapping: AudioClockMediaMapping,
    current: Duration,
    deadline: Duration,
    current_position: Duration,
    delay: Duration,
)
    requires
        call_ensures(
            AudioClockMediaMapping::media_position_at_output_clock,
            (&mapping, current),
            current_position,
        ),
        call_ensures(
            AudioClockMediaMapping::output_delay_until_media_deadline,
            (&mapping, current, deadline),
            delay,
        ),
    ensures
        delay@ == 0 <==> current_position@ >= deadline@,
{
}

/// Planned spans apply one after the other from where they begin, each for its length, and the
/// new rate applies after the last one. `starts` are the output clocks at which they begin, with
/// that at which the last one ends.
pub proof fn law_planned_spans_apply_in_turn(
    spans: Seq<PlannedAudioOutputSpan>,
    starts: Seq<int>,
    new_rate: PlaybackRate,
    output_clock: int,
    k: int,
)
    requires
        starts.len() == spans.len() + 1,
        forall|i: int|
            #![trigger spans[i]]
            0 <= i < spans.len() ==> starts[i + 1] == starts[i] + spans[i].output_duration@
                && spans[i].output_duration@ >= 0,
        starts.last() <= 18_446_744_073_709_551_615_999_999_999,
        0 <= k <= spans.len(),
        starts[k] <= output_clock,
        k < spans.len() ==> output_clock < starts[k + 1],
    ensures
        k < spans.len() ==> planned_rate_at(spans, starts[0], new_rate, output_clock)
            == spans[k].playback_rate,
        k == spans.len() ==> planned_rate_at(spans, starts[0], new_rate, output_clock) == new_rate,
    decreases spans.len(),
{
    if spans.len() > 0 {
        let rest = spans.drop_first();
        let rest_starts = starts.drop_first();
        assert forall|i: int| #![trigger rest[i]] 0 <= i < rest.len() implies rest_starts[i + 1]
            == rest_starts[i] + rest[i].output_duration@ && rest[i].output_duration@ >= 0 by {
            assert(rest[i] == spans[i + 1]);
        }
        assert(starts[1] == starts[0] + spans[0].output_duration@);
        assert(rest_starts.last() == starts.last());
        lemma_starts_ascend(rest, rest_starts, 0, rest_starts.len() - 1);
        if k > 0 {
            lemma_starts_ascend(rest, rest_starts, 0, k - 1);
            assert(rest_starts[k - 1] == starts[k]);
            if k < spans.len() {
                assert(rest_starts[k] == starts[k + 1]);
                assert(rest[k - 1] == spans[k]);
            }
            law_planned_spans_apply_in_turn(rest, rest_starts, new_rate, output_clock, k - 1);
        }
    }
}

proof fn lemma_starts_ascend(
    spans: Seq<PlannedAudioOutputSpan>,
    starts: Seq<int>,
    i: int,
    j: int,
)
    requires
        starts.len() == spans.len() + 1,
        forall|i: int|
            #![trigger spans[i]]
            0 <= i < spans.len() ==> starts[i + 1] == starts[i] + spans[i].output_duration@
                && spans[i].output_duration@ >= 0,
        0 <= i <= j < starts.len(),
    ensures
        starts[i] <= starts[j],
    decreases j - i,
{
    if i < j {
        lemma_starts_ascend(spans, starts, i, j - 1);
        assert(spans[j - 1].output_duration@ >= 0);
    }
}

/// What the device has been given before a change of the rate plays at the rate that it was made
/// for, what is planned plays at its own rate in its turn, and the new rate applies after both.
/// The mapping goes on from the given pair of output clock and position.
pub proof fn law_rate_change_spares_what_was_submitted(
    before: AudioClockMediaMapping,
    after: AudioClockMediaMapping,
    current: Duration,
    position: Duration,
    submitted_end: Duration,
    spans: &[PlannedAudioOutputSpan],
    new_rate: PlaybackRate,
    starts: Seq<int>,
    k: int,
    output_clock: int,
    i: int,
    j: int,
)
    requires
        exists|mapping: &mut AudioClockMediaMapping|
            *mapping == before && *final(mapping) == after && #[trigger] call_ensures(
                AudioClockMediaMapping::reanchor_for_rate_change_with_planned_spans,
                (mapping, current, position, submitted_end, spans, new_rate),
                (),
            ),
        current@ <= output_clock,
        0 <= i < before@.len(),
        i > 0 ==> before@[i].output_clock_start@ <= output_clock,
        i + 1 < before@.len() ==> output_clock < before@[i + 1].output_clock_start@,
        0 <= j < after@.len(),
        j > 0 ==> after@[j].output_clock_start@ <= output_clock,
        j + 1 < after@.len() ==> output_clock < after@[j + 1].output_clock_start@,
        starts.len() == spans@.len() + 1,
        starts[0] == if submitted_end@ > current@ {
            submitted_end@
        } else {
            current@
        },
        forall|i: int|
            #![trigger spans@[i]]
            0 <= i < spans@.len() ==> starts[i + 1] == starts[i] + spans@[i].output_duration@
                && spans@[i].output_duration@ >= 0,
        starts.last() <= 18_446_744_073_709_551_615_999_999_999,
        0 <= k <= spans@.len(),
    ensures
        after@[0].output_clock_start == current,
        after@[0].media_position_start == position,
        output_clock < submitted_end@ ==> after@[j].playback_rate == before@[i].playback_rate,
        output_clock >= submitted_end@ && k < spans@.len() && starts[k] <= output_clock < starts[k
            + 1] ==> after@[j].playback_rate == spans@[k].playback_rate,
        output_clock >= submitted_end@ && starts.last() <= output_clock ==> after@[j].playback_rate
            == new_rate,
{
    lemma_active_segment(before@, output_clock, i);
    lemma_active_segment(after@, output_clock, j);
    assert(rate_at(after@, output_clock) == after@[j].playback_rate);
    if output_clock >= submitted_end@ {
        if k < spans@.len() && starts[k] <= output_clock < starts[k + 1] {
            law_planned_spans_apply_in_turn(spans@, starts, new_rate, output_clock, k);
        }
        if starts.last() <= output_clock {
            law_planned_spans_apply_in_turn(
                spans@,
                starts,
                new_rate,
                output_clock,
                spans@.len() as int,
            );
        }
    }
}

} // verus!
