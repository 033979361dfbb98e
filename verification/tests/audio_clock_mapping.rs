//! The mapping between the output clock and media positions.
use player_core::pipeline::audio_clock_mapping::{AudioClockMediaMapping, PlannedAudioOutputSpan};
use player_core::playback_rate::PlaybackRate;
use player_core::time::Duration;

fn playback_rate(multiplier: f32) -> PlaybackRate {
    PlaybackRate::new(multiplier.to_bits()).expect("the rate is valid")
}

#[test]
fn media_deadline_uses_rate_on_output_clock_axis() {
    let fast_mapping =
        AudioClockMediaMapping::new(Duration::zero(), Duration::zero(), playback_rate(4.0));
    let slow_mapping =
        AudioClockMediaMapping::new(Duration::zero(), Duration::zero(), playback_rate(0.5));

    assert_eq!(
        fast_mapping.output_delay_until_media_deadline(Duration::zero(), Duration::from_secs(1)),
        Duration::from_millis(250)
    );
    assert_eq!(
        slow_mapping.output_delay_until_media_deadline(Duration::zero(), Duration::from_secs(1)),
        Duration::from_secs(2)
    );
}

#[test]
fn old_normal_tail_precedes_new_fast_rate() {
    let mut mapping =
        AudioClockMediaMapping::new(Duration::zero(), Duration::zero(), PlaybackRate::normal());

    mapping.reanchor_for_rate_change(
        Duration::zero(),
        Duration::zero(),
        Duration::from_millis(200),
        playback_rate(4.0),
    );

    assert_eq!(
        mapping.output_delay_until_media_deadline(Duration::zero(), Duration::from_secs(1)),
        Duration::from_millis(400)
    );
}

#[test]
fn old_normal_tail_precedes_new_slow_rate() {
    let mut mapping =
        AudioClockMediaMapping::new(Duration::zero(), Duration::zero(), PlaybackRate::normal());

    mapping.reanchor_for_rate_change(
        Duration::zero(),
        Duration::zero(),
        Duration::from_millis(200),
        playback_rate(0.5),
    );

    assert_eq!(
        mapping.output_delay_until_media_deadline(Duration::zero(), Duration::from_secs(1)),
        Duration::from_millis(1_800)
    );
}

#[test]
fn repeated_rate_change_preserves_intermediate_piecewise_boundaries() {
    let mut mapping =
        AudioClockMediaMapping::new(Duration::zero(), Duration::zero(), PlaybackRate::normal());
    mapping.reanchor_for_rate_change(
        Duration::zero(),
        Duration::zero(),
        Duration::from_millis(200),
        playback_rate(4.0),
    );

    mapping.reanchor_for_rate_change(
        Duration::from_millis(100),
        Duration::from_millis(100),
        Duration::from_millis(300),
        playback_rate(0.5),
    );

    assert_eq!(mapping.segment_count(), 3);
    assert_eq!(
        mapping.media_position_at_output_clock(Duration::from_millis(200)),
        Duration::from_millis(200)
    );
    assert_eq!(
        mapping.media_position_at_output_clock(Duration::from_millis(250)),
        Duration::from_millis(400)
    );
    assert_eq!(
        mapping.media_position_at_output_clock(Duration::from_millis(300)),
        Duration::from_millis(600)
    );
    assert_eq!(
        mapping.media_position_at_output_clock(Duration::from_millis(500)),
        Duration::from_millis(700)
    );
}

#[test]
fn planned_old_tempo_spans_are_inserted_before_new_open_segment() {
    let mut mapping =
        AudioClockMediaMapping::new(Duration::zero(), Duration::zero(), PlaybackRate::normal());
    let planned_spans = [
        PlannedAudioOutputSpan::new(Duration::from_millis(200), playback_rate(2.0)),
        PlannedAudioOutputSpan::new(Duration::from_millis(100), playback_rate(0.5)),
    ];

    mapping.reanchor_for_rate_change_with_planned_spans(
        Duration::zero(),
        Duration::zero(),
        Duration::from_millis(100),
        &planned_spans,
        playback_rate(4.0),
    );

    assert_eq!(
        mapping.media_position_at_output_clock(Duration::from_millis(100)),
        Duration::from_millis(100)
    );
    assert_eq!(
        mapping.media_position_at_output_clock(Duration::from_millis(300)),
        Duration::from_millis(500)
    );
    assert_eq!(
        mapping.media_position_at_output_clock(Duration::from_millis(400)),
        Duration::from_millis(550)
    );
    assert_eq!(
        mapping.media_position_at_output_clock(Duration::from_millis(425)),
        Duration::from_millis(650)
    );
}

#[test]
fn adjacent_equal_rate_spans_use_one_canonical_rounding_domain() {
    let half_rate = playback_rate(0.5);
    let span_duration = Duration::from_nanos(1_000_001);
    let mut mapping = AudioClockMediaMapping::new(Duration::zero(), Duration::zero(), half_rate);
    let planned_spans = [PlannedAudioOutputSpan::new(span_duration, half_rate)];

    mapping.reanchor_for_rate_change_with_planned_spans(
        Duration::zero(),
        Duration::zero(),
        span_duration,
        &planned_spans,
        playback_rate(2.0),
    );

    let planned_output_end = Duration::from_nanos(2_000_002);
    assert_eq!(mapping.segment_count(), 2);
    assert_eq!(
        mapping.media_position_at_output_clock(planned_output_end),
        Duration::from_nanos(1_000_001)
    );
    assert_eq!(
        mapping.segment(1).media_position_start,
        Duration::from_nanos(1_000_001)
    );
}

#[test]
fn forward_and_inverse_mapping_are_exact_across_segments() {
    let mut mapping =
        AudioClockMediaMapping::new(Duration::zero(), Duration::zero(), PlaybackRate::normal());
    let planned_spans = [
        PlannedAudioOutputSpan::new(Duration::from_millis(200), playback_rate(2.0)),
        PlannedAudioOutputSpan::new(Duration::from_millis(100), playback_rate(0.5)),
    ];
    mapping.reanchor_for_rate_change_with_planned_spans(
        Duration::zero(),
        Duration::zero(),
        Duration::from_millis(100),
        &planned_spans,
        playback_rate(4.0),
    );

    let current_output_clock = Duration::from_millis(50);
    let expected_target_output_clock = Duration::from_millis(425);
    let media_deadline = mapping.media_position_at_output_clock(expected_target_output_clock);
    let output_delay =
        mapping.output_delay_until_media_deadline(current_output_clock, media_deadline);

    assert_eq!(output_delay, Duration::from_millis(375));
    assert_eq!(
        mapping.media_position_after_output_delay(current_output_clock, output_delay),
        media_deadline
    );
}

#[test]
fn inverse_mapping_returns_earliest_output_tick_across_fractional_segments() {
    let half_rate = playback_rate(0.5);
    let mut mapping = AudioClockMediaMapping::new(Duration::zero(), Duration::zero(), half_rate);
    mapping.reanchor_for_rate_change(
        Duration::zero(),
        Duration::zero(),
        Duration::from_nanos(3),
        playback_rate(2.0),
    );

    let current_output_clock = Duration::from_nanos(1);
    for deadline_nanos in 1..=9 {
        let media_deadline = Duration::from_nanos(deadline_nanos);
        let output_delay =
            mapping.output_delay_until_media_deadline(current_output_clock, media_deadline);
        let reached_media_position =
            mapping.media_position_after_output_delay(current_output_clock, output_delay);

        assert!(reached_media_position >= media_deadline);
        assert!(!output_delay.is_zero());

        let previous_output_delay = output_delay.saturating_sub(Duration::from_nanos(1));
        let previous_media_position = mapping
            .media_position_after_output_delay(current_output_clock, previous_output_delay);
        assert!(previous_media_position < media_deadline);
    }

    assert_eq!(
        mapping
            .output_delay_until_media_deadline(current_output_clock, Duration::from_nanos(1)),
        Duration::from_nanos(1)
    );
}

#[test]
fn equal_neighbor_rates_merge_without_losing_progress() {
    let mut mapping =
        AudioClockMediaMapping::new(Duration::zero(), Duration::zero(), PlaybackRate::normal());
    let planned_spans = [PlannedAudioOutputSpan::new(
        Duration::from_millis(100),
        PlaybackRate::normal(),
    )];

    mapping.reanchor_for_rate_change_with_planned_spans(
        Duration::zero(),
        Duration::zero(),
        Duration::from_millis(100),
        &planned_spans,
        PlaybackRate::normal(),
    );

    assert_eq!(mapping.segment_count(), 1);
    assert_eq!(
        mapping.media_position_at_output_clock(Duration::from_millis(500)),
        Duration::from_millis(500)
    );
}

#[test]
fn reset_anchor_discards_old_segments() {
    let mut mapping =
        AudioClockMediaMapping::new(Duration::zero(), Duration::zero(), playback_rate(4.0));
    mapping.reanchor_for_rate_change(
        Duration::zero(),
        Duration::zero(),
        Duration::from_millis(200),
        playback_rate(0.5),
    );

    mapping.reset_anchor(
        Duration::from_secs(5),
        Duration::from_secs(7),
        playback_rate(0.5),
    );

    assert_eq!(mapping.segment_count(), 1);
    assert_eq!(
        mapping.media_position_at_output_clock(Duration::from_secs(7)),
        Duration::from_secs(8)
    );
}

#[test]
fn future_deadline_never_collapses_to_zero_and_arithmetic_saturates() {
    let fast_mapping =
        AudioClockMediaMapping::new(Duration::zero(), Duration::zero(), playback_rate(4.0));
    let slow_mapping =
        AudioClockMediaMapping::new(Duration::zero(), Duration::zero(), playback_rate(0.25));

    assert_eq!(
        fast_mapping.output_delay_until_media_deadline(Duration::zero(), Duration::from_nanos(1)),
        Duration::from_nanos(1)
    );
    assert_eq!(
        slow_mapping.output_delay_until_media_deadline(Duration::zero(), Duration::max_value()),
        Duration::max_value()
    );
    assert_eq!(
        fast_mapping.media_position_after_output_delay(Duration::max_value(), Duration::from_nanos(1)),
        Duration::max_value()
    );
}
