//! An estimate of how long a frame is shown.
use crate::time::{lemma_duration_in_range, Duration};
use vstd::prelude::*;

verus! {

broadcast use lemma_duration_in_range;

/// First estimate, in microseconds.
pub const DEFAULT_VIDEO_FRAME_MICROS: u64 = 16_667;

/// Shortest distance of two frames that counts, in microseconds.
pub const MIN_OBSERVED_VIDEO_FRAME_MICROS: u64 = 5_000;

/// Longest distance of two frames that counts, in microseconds.
pub const MAX_OBSERVED_VIDEO_FRAME_MICROS: u64 = 100_000;

/// The estimate, with the last frame that was seen.
#[derive(Debug, Clone, Copy, PartialEq, Eq, Structural)]
pub struct VideoFrameTimingEstimator {
    estimate_micros: u64,
    last_pts: Option<Duration>,
}

/// The estimate after a distance of two frames, in microseconds: seven parts of the former one
/// and one of the distance. A distance that is too short or too long does not count.
pub open spec fn smoothed(estimate_micros: int, distance_nanos: int) -> int {
    if MIN_OBSERVED_VIDEO_FRAME_MICROS * 1_000 <= distance_nanos <= MAX_OBSERVED_VIDEO_FRAME_MICROS
        * 1_000 {
        (estimate_micros * 7 + distance_nanos / 1_000) / 8
    } else {
        estimate_micros
    }
}

impl VideoFrameTimingEstimator {
    #[verifier::type_invariant]
    pub closed spec fn in_range(self) -> bool {
        MIN_OBSERVED_VIDEO_FRAME_MICROS <= self.estimate_micros <= MAX_OBSERVED_VIDEO_FRAME_MICROS
    }

    /// The estimate in microseconds.
    pub closed spec fn micros(self) -> int {
        self.estimate_micros as int
    }

    /// The timestamp of the last frame that was seen.
    pub closed spec fn last_seen(self) -> Option<Duration> {
        self.last_pts
    }

    /// The first estimate, before any frame was seen.
    pub fn new() -> (r: Self)
        ensures
            r.micros() == DEFAULT_VIDEO_FRAME_MICROS,
            r.last_seen() is None,
    {
        VideoFrameTimingEstimator { estimate_micros: DEFAULT_VIDEO_FRAME_MICROS, last_pts: None }
    }

    /// How long a frame is shown. The estimate stays between the shortest and the longest
    /// distance that counts.
    pub fn video_frame_duration_estimate(&self) -> (r: Duration)
        ensures
            r@ == self.micros() * 1_000,
            MIN_OBSERVED_VIDEO_FRAME_MICROS <= self.micros() <= MAX_OBSERVED_VIDEO_FRAME_MICROS,
    {
        proof {
            use_type_invariant(self);
        }
        Duration::from_micros(self.estimate_micros)
    }

    /// Takes note of a frame. A frame that does not come after the last one does not count as
    /// a distance.
    pub fn observe_decoded_video_frame_pts(&mut self, pts: Duration)
        ensures
            final(self).last_seen() == Some(pts),
            final(self).micros() == match old(self).last_seen() {
                None => old(self).micros(),
                Some(previous) => smoothed(
                    old(self).micros(),
                    if pts@ > previous@ {
                        pts@ - previous@
                    } else {
                        0
                    },
                ),
            },
    {
        proof {
            use_type_invariant(&*self);
        }
        let mut estimate_micros: u64 = self.estimate_micros;
        if let Some(previous_pts) = self.last_pts {
            let observed = pts.saturating_sub(previous_pts);
            let shortest = Duration::from_micros(MIN_OBSERVED_VIDEO_FRAME_MICROS);
            let longest = Duration::from_micros(MAX_OBSERVED_VIDEO_FRAME_MICROS);
            if shortest <= observed && observed <= longest {
                let observed_micros: u64 = observed.as_micros() as u64;
                estimate_micros = (self.estimate_micros * 7 + observed_micros) / 8;
            }
        }
        *self = VideoFrameTimingEstimator { estimate_micros, last_pts: Some(pts) };
    }

    /// Forgets the last frame and keeps the estimate.
    pub fn forget_last_decoded_video_pts(&mut self)
        ensures
            final(self).last_seen() is None,
            final(self).micros() == old(self).micros(),
    {
        proof {
            use_type_invariant(&*self);
        }
        *self = VideoFrameTimingEstimator { estimate_micros: self.estimate_micros, last_pts: None };
    }

    /// Starts anew with the first estimate.
    pub fn reset_video_frame_timing_estimator(&mut self)
        ensures
            final(self).micros() == DEFAULT_VIDEO_FRAME_MICROS,
            final(self).last_seen() is None,
    {
        *self = Self::new();
    }
}

/// The estimate never leaves the range of distances that count.
pub proof fn law_estimate_stays_in_range(estimate_micros: int, distance_nanos: int)
    requires
        MIN_OBSERVED_VIDEO_FRAME_MICROS <= estimate_micros <= MAX_OBSERVED_VIDEO_FRAME_MICROS,
    ensures
        MIN_OBSERVED_VIDEO_FRAME_MICROS <= smoothed(estimate_micros, distance_nanos)
            <= MAX_OBSERVED_VIDEO_FRAME_MICROS,
{
}

/// A new estimator, and one that was set back, estimates sixty frames a second.
pub proof fn law_first_estimate(
    made: VideoFrameTimingEstimator,
    before: VideoFrameTimingEstimator,
    reset: VideoFrameTimingEstimator,
    of_made: Duration,
    of_reset: Duration,
)
    requires
        call_ensures(VideoFrameTimingEstimator::new, (), made),
        exists|estimator: &mut VideoFrameTimingEstimator|
            *estimator == before && *final(estimator) == reset && #[trigger] call_ensures(
                VideoFrameTimingEstimator::reset_video_frame_timing_estimator,
                (estimator,),
                (),
            ),
        call_ensures(VideoFrameTimingEstimator::video_frame_duration_estimate, (&made,), of_made),
        call_ensures(VideoFrameTimingEstimator::video_frame_duration_estimate, (&reset,), of_reset),
    ensures
        of_made@ == 16_667_000,
        of_reset@ == 16_667_000,
{
}

/// The distance of two frames in a row moves the estimate by an eighth of the way to it, down to
/// the microsecond. A distance under five or over a hundred milliseconds leaves the estimate as it
/// is.
pub proof fn law_estimate_moves_an_eighth_of_the_way(
    before: VideoFrameTimingEstimator,
    one: VideoFrameTimingEstimator,
    two: VideoFrameTimingEstimator,
    first: Duration,
    second: Duration,
    estimate: Duration,
    moved: Duration,
)
    requires
        exists|estimator: &mut VideoFrameTimingEstimator|
            *estimator == before && *final(estimator) == one && #[trigger] call_ensures(
                VideoFrameTimingEstimator::observe_decoded_video_frame_pts,
                (estimator, first),
                (),
            ),
        exists|estimator: &mut VideoFrameTimingEstimator|
            *estimator == one && *final(estimator) == two && #[trigger] call_ensures(
                VideoFrameTimingEstimator::observe_decoded_video_frame_pts,
                (estimator, second),
                (),
            ),
        call_ensures(VideoFrameTimingEstimator::video_frame_duration_estimate, (&one,), estimate),
        call_ensures(VideoFrameTimingEstimator::video_frame_duration_estimate, (&two,), moved),
    ensures
        5_000_000 <= second@ - first@ <= 100_000_000 ==> 8 * moved@ <= 7 * estimate@ + (second@
            - first@) < 8 * moved@ + 9_000,
        second@ - first@ < 5_000_000 || second@ - first@ > 100_000_000 ==> moved@ == estimate@,
{
}

/// A frame after the last one was forgotten is no second frame: it leaves the estimate as it is.
pub proof fn law_forgotten_frame_does_not_count(
    before: VideoFrameTimingEstimator,
    forgotten: VideoFrameTimingEstimator,
    after: VideoFrameTimingEstimator,
    pts: Duration,
    estimate: Duration,
    kept: Duration,
)
    requires
        exists|estimator: &mut VideoFrameTimingEstimator|
            *estimator == before && *final(estimator) == forgotten && #[trigger] call_ensures(
                VideoFrameTimingEstimator::forget_last_decoded_video_pts,
                (estimator,),
                (),
            ),
        exists|estimator: &mut VideoFrameTimingEstimator|
            *estimator == forgotten && *final(estimator) == after && #[trigger] call_ensures(
                VideoFrameTimingEstimator::observe_decoded_video_frame_pts,
                (estimator, pts),
                (),
            ),
        call_ensures(
            VideoFrameTimingEstimator::video_frame_duration_estimate,
            (&before,),
            estimate,
        ),
        call_ensures(VideoFrameTimingEstimator::video_frame_duration_estimate, (&after,), kept),
    ensures
        kept@ == estimate@,
{
}

} // verus!
