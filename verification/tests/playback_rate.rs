//! Playback rates and what they do to spans of time.
use player_core::playback_rate::{
    div_ceil_saturating, shift_left_saturating, shift_right_or_zero, PlaybackRate,
    PlaybackRateValidationError,
};
use player_core::time::Duration;

fn rate(multiplier: f32) -> PlaybackRate {
    PlaybackRate::new(multiplier.to_bits()).expect("the rate is valid")
}

#[test]
fn rates_outside_the_range_are_refused_with_their_reason() {
    for (multiplier, error) in [
        (f32::NAN, PlaybackRateValidationError::NotFinite),
        (f32::INFINITY, PlaybackRateValidationError::NotFinite),
        (f32::NEG_INFINITY, PlaybackRateValidationError::NotFinite),
        (0.0, PlaybackRateValidationError::NonPositive),
        (-0.0, PlaybackRateValidationError::NonPositive),
        (-1.0, PlaybackRateValidationError::NonPositive),
        (0.2499, PlaybackRateValidationError::BelowMinimum),
        (f32::MIN_POSITIVE / 2.0, PlaybackRateValidationError::BelowMinimum),
        (4.0001, PlaybackRateValidationError::AboveMaximum),
    ] {
        assert_eq!(PlaybackRate::new(multiplier.to_bits()), Err(error));
    }
    for multiplier in [0.25f32, 0.5, 1.0, 1.1, 4.0] {
        assert_eq!(rate(multiplier).to_bits(), multiplier.to_bits());
    }
    assert_eq!(
        PlaybackRateValidationError::BelowMinimum.message(),
        "playback rate must be at least 0.25x"
    );
}

#[test]
fn the_normal_rate_changes_nothing() {
    let normal = PlaybackRate::normal();
    for nanos in [0, 1, 999_999_999, u64::MAX] {
        let span = Duration::from_nanos(nanos);
        assert_eq!(normal.scale_wall_delta_to_media_delta(span), span);
        assert_eq!(normal.scale_media_delta_to_wall_delay(span), span);
    }
    assert!(!normal.is_faster_than_normal());
    assert!(rate(1.25).is_faster_than_normal());
    assert!(!rate(0.75).is_faster_than_normal());
    assert_eq!(PlaybackRate::default(), normal);
}

#[test]
fn progress_rounds_down_and_waits_round_up() {
    assert_eq!(
        rate(1.5).scale_wall_delta_to_media_delta(Duration::from_nanos(3)),
        Duration::from_nanos(4)
    );
    assert_eq!(
        rate(1.5).scale_media_delta_to_wall_delay(Duration::from_nanos(4)),
        Duration::from_nanos(3)
    );
    assert_eq!(
        rate(4.0).scale_media_delta_to_wall_delay(Duration::from_nanos(1)),
        Duration::from_nanos(1)
    );
    assert_eq!(
        rate(0.5).scale_wall_delta_to_media_delta(Duration::from_nanos(3)),
        Duration::from_nanos(1)
    );
}

#[test]
fn a_wait_is_the_shortest_that_reaches_its_deadline() {
    for multiplier in [0.25f32, 0.3, 0.75, 1.1, 1.5, 3.7, 4.0] {
        let rate = rate(multiplier);
        for nanos in 1..40u64 {
            let deadline = Duration::from_nanos(nanos);
            let wait = rate.scale_media_delta_to_wall_delay(deadline);
            assert!(rate.scale_wall_delta_to_media_delta(wait) >= deadline);
            let shorter = wait.saturating_sub(Duration::from_nanos(1));
            assert!(rate.scale_wall_delta_to_media_delta(shorter) < deadline);
        }
    }
}

#[test]
fn scaling_saturates() {
    assert_eq!(
        PlaybackRate::max_rate().scale_wall_delta_to_media_delta(Duration::max_value()),
        Duration::max_value()
    );
    assert_eq!(
        PlaybackRate::min_rate().scale_media_delta_to_wall_delay(Duration::max_value()),
        Duration::max_value()
    );
}

#[test]
fn shifts_and_division_do_not_wrap() {
    assert_eq!(shift_right_or_zero(8, 2), 2);
    assert_eq!(shift_right_or_zero(u128::MAX, 128), 0);
    assert_eq!(shift_left_saturating(3, 4), 48);
    assert_eq!(shift_left_saturating(1, 128), u128::MAX);
    assert_eq!(shift_left_saturating(0, 200), 0);
    assert_eq!(div_ceil_saturating(7, 2), 4);
    assert_eq!(div_ceil_saturating(8, 2), 4);
}
