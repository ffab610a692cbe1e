use std::time::Duration;
use xdl::time::MAX_DURATION_NANOS;
use xdl::vi::{KeyRepeatConfig, KeyRepeatState, RawButtonState};

fn ms(n: u64) -> Duration {
    Duration::from_millis(n)
}

fn config() -> KeyRepeatConfig {
    KeyRepeatConfig::repeat(ms(100), ms(50))
}

#[test]
fn config_constructors() {
    assert!(matches!(KeyRepeatConfig::default(), KeyRepeatConfig::NoRepeat));
    assert!(matches!(KeyRepeatConfig::no_repeat(), KeyRepeatConfig::NoRepeat));
    match config() {
        KeyRepeatConfig::Repeat { first, multi } => {
            assert_eq!(first, ms(100));
            assert_eq!(multi, ms(50));
        }
        KeyRepeatConfig::NoRepeat => panic!("repeat expected"),
    }
}

#[test]
fn only_a_zero_interval_is_not_valid() {
    assert!(config().is_valid());
    assert!(KeyRepeatConfig::no_repeat().is_valid());
    assert!(KeyRepeatConfig::repeat(Duration::new(0, 1), Duration::new(0, 1)).is_valid());
    assert!(KeyRepeatConfig::repeat(ms(0), ms(50)).is_valid());
    assert!(!KeyRepeatConfig::repeat(ms(100), ms(0)).is_valid());
    assert!(!KeyRepeatConfig::repeat(ms(0), ms(0)).is_valid());
}

#[test]
fn fresh_timer_has_not_been_down() {
    let timer = KeyRepeatState::new(config());
    assert_eq!(timer.accum_down(), ms(0));
    assert_eq!(timer.accum_down_nanos(), 0);
    let timer = KeyRepeatState::default();
    assert_eq!(timer.accum_down(), ms(0));
    assert!(matches!(timer.config(), KeyRepeatConfig::NoRepeat));
}

#[test]
fn repeat_timing_first_delay_then_interval() {
    let mut timer = KeyRepeatState::new(config());
    assert!(!timer.update(RawButtonState::Pressed, ms(10)));
    let mut pulses = Vec::new();
    // frames of 10 ms; the pulse comes with the frame that takes the time
    // since the last pulse beyond the wait
    for frame in 1..=31u64 {
        if timer.update(RawButtonState::Down, ms(10)) {
            pulses.push(frame * 10);
        }
        assert_eq!(timer.accum_down(), ms(frame * 10));
    }
    assert_eq!(pulses, vec![110, 160, 210, 260, 310]);
}

#[test]
fn no_pulse_up_to_the_first_delay() {
    let mut timer = KeyRepeatState::new(config());
    assert!(!timer.update(RawButtonState::Pressed, ms(0)));
    assert!(!timer.update(RawButtonState::Down, ms(50)));
    assert!(!timer.update(RawButtonState::Down, ms(50)));
    // held for exactly the first delay: not beyond it yet
    assert_eq!(timer.accum_down(), ms(100));
    assert!(timer.update(RawButtonState::Down, Duration::new(0, 1)));
    // 1 ns is left over; the interval is 50 ms from here on
    assert!(!timer.update(RawButtonState::Down, Duration::new(0, 49_999_999)));
    assert!(timer.update(RawButtonState::Down, Duration::new(0, 1)));
    assert_eq!(timer.accum_down(), Duration::new(0, 150_000_001));
}

#[test]
fn a_long_frame_is_one_pulse() {
    let mut timer = KeyRepeatState::new(config());
    assert!(!timer.update(RawButtonState::Pressed, ms(400)));
    assert_eq!(timer.accum_down(), ms(0));
    assert!(timer.update(RawButtonState::Down, ms(400)));
    assert_eq!(timer.accum_down(), ms(400));
    // 400 ms less the first delay leaves 300 ms, and taking the interval of
    // 50 ms from that until it is no longer above it leaves 50 ms: a frame
    // of no time is no further pulse
    assert!(!timer.update(RawButtonState::Down, Duration::new(0, 0)));
    assert!(!timer.update(RawButtonState::Down, Duration::new(0, 0)));
    assert!(timer.update(RawButtonState::Down, Duration::new(0, 1)));
    // 1 ns is left
    assert!(!timer.update(RawButtonState::Down, Duration::new(0, 49_999_999)));
    assert!(timer.update(RawButtonState::Down, Duration::new(0, 1)));
    assert_eq!(timer.accum_down(), Duration::new(0, 450_000_001));
}

#[test]
fn a_long_frame_takes_the_first_delay_once() {
    // 30 ms first delay, 100 ms interval: 250 ms held at once
    let mut timer = KeyRepeatState::new(KeyRepeatConfig::repeat(ms(30), ms(100)));
    timer.update(RawButtonState::Pressed, ms(0));
    assert!(timer.update(RawButtonState::Down, ms(250)));
    // 250 - 30 = 220, less the interval twice leaves 20
    assert!(!timer.update(RawButtonState::Down, ms(80)));
    assert!(timer.update(RawButtonState::Down, ms(1)));
    // a pulse that ends the first delay with less than one interval to spare
    let mut timer = KeyRepeatState::new(KeyRepeatConfig::repeat(ms(30), ms(100)));
    timer.update(RawButtonState::Pressed, ms(0));
    assert!(timer.update(RawButtonState::Down, ms(130)));
    // 130 - 30 = 100, which is not above the interval and stays
    assert!(!timer.update(RawButtonState::Down, ms(0)));
    assert!(timer.update(RawButtonState::Down, ms(1)));
}

#[test]
fn a_first_delay_of_nothing_pulses_with_the_first_frame_that_takes_time() {
    let mut timer = KeyRepeatState::new(KeyRepeatConfig::repeat(ms(0), ms(50)));
    assert!(!timer.update(RawButtonState::Pressed, ms(10)));
    assert!(timer.can_update(RawButtonState::Down, ms(0)));
    assert!(!timer.update(RawButtonState::Down, ms(0)));
    assert!(timer.can_update(RawButtonState::Down, ms(7)));
    assert!(timer.update(RawButtonState::Down, ms(7)));
    // 7 ms are left and the interval runs
    assert!(!timer.update(RawButtonState::Down, ms(43)));
    assert!(timer.update(RawButtonState::Down, ms(1)));
    assert_eq!(timer.accum_down(), ms(51));
    // a long first frame
    let mut timer = KeyRepeatState::new(KeyRepeatConfig::repeat(ms(0), ms(50)));
    timer.update(RawButtonState::Pressed, ms(0));
    assert!(timer.update(RawButtonState::Down, ms(120)));
    // 120 less the interval twice leaves 20
    assert!(!timer.update(RawButtonState::Down, ms(30)));
    assert!(timer.update(RawButtonState::Down, ms(1)));
}

#[test]
fn an_interval_of_nothing_runs_until_a_pulse_is_due() {
    let mut timer = KeyRepeatState::new(KeyRepeatConfig::repeat(ms(100), ms(0)));
    assert!(timer.can_update(RawButtonState::Pressed, ms(500)));
    assert!(!timer.update(RawButtonState::Pressed, ms(500)));
    assert!(timer.can_update(RawButtonState::Down, ms(100)));
    assert!(!timer.update(RawButtonState::Down, ms(100)));
    assert_eq!(timer.accum_down(), ms(100));
    // the next frame that takes time would be a pulse
    assert!(timer.can_update(RawButtonState::Down, ms(0)));
    assert!(!timer.can_update(RawButtonState::Down, Duration::new(0, 1)));
    assert!(timer.can_update(RawButtonState::Up, ms(1)));
    assert!(timer.can_update(RawButtonState::Released, ms(1)));
    assert!(!timer.update(RawButtonState::Released, ms(1)));
    // out of the first delay the interval of nothing is the wait
    assert!(timer.can_update(RawButtonState::Down, ms(0)));
    assert!(!timer.update(RawButtonState::Down, ms(0)));
    assert!(!timer.can_update(RawButtonState::Down, Duration::new(0, 1)));
}

#[test]
fn what_is_left_after_a_pulse_counts_on() {
    let mut timer = KeyRepeatState::new(config());
    timer.update(RawButtonState::Pressed, ms(0));
    // 130 ms: pulse, 30 ms left
    assert!(timer.update(RawButtonState::Down, ms(130)));
    // 30 + 20 = 50: not beyond
    assert!(!timer.update(RawButtonState::Down, ms(20)));
    // 50 + 5 = 55: pulse, 5 left
    assert!(timer.update(RawButtonState::Down, ms(5)));
    // 5 + 45 = 50: not beyond
    assert!(!timer.update(RawButtonState::Down, ms(45)));
    // 50 + 120 = 170: pulse, 170 - 3 * 50 = 20 left
    assert!(timer.update(RawButtonState::Down, ms(120)));
    assert!(!timer.update(RawButtonState::Down, ms(30)));
    assert!(timer.update(RawButtonState::Down, ms(1)));
    assert_eq!(timer.accum_down(), ms(351));
}

#[test]
fn edges_and_up_reset_the_timer() {
    for state in [RawButtonState::Up, RawButtonState::Released, RawButtonState::Pressed] {
        let mut timer = KeyRepeatState::new(config());
        timer.update(RawButtonState::Pressed, ms(0));
        assert!(!timer.update(RawButtonState::Down, ms(90)));
        assert_eq!(timer.accum_down(), ms(90));
        assert!(!timer.update(state, ms(500)));
        assert_eq!(timer.accum_down(), ms(0));
        if state == RawButtonState::Pressed {
            // the first delay runs again
            assert!(!timer.update(RawButtonState::Down, ms(100)));
            assert!(timer.update(RawButtonState::Down, ms(1)));
        } else {
            // not in the first wait: the interval runs
            assert!(!timer.update(RawButtonState::Down, ms(50)));
            assert!(timer.update(RawButtonState::Down, ms(1)));
        }
    }
}

#[test]
fn without_repeat_nothing_is_counted() {
    let mut timer = KeyRepeatState::new(KeyRepeatConfig::no_repeat());
    assert!(!timer.update(RawButtonState::Pressed, ms(10)));
    for _ in 0..10 {
        assert!(!timer.update(RawButtonState::Down, ms(1000)));
        assert_eq!(timer.accum_down(), ms(0));
    }
    assert!(timer.can_update(RawButtonState::Down, Duration::new(u64::MAX, 999_999_999)));
    assert!(!timer.update(RawButtonState::Down, Duration::new(u64::MAX, 999_999_999)));
    assert!(!timer.update(RawButtonState::Down, Duration::new(u64::MAX, 999_999_999)));
    assert_eq!(timer.accum_down_nanos(), 0);
}

#[test]
fn time_held_must_fit_into_a_duration() {
    let longest = Duration::new(u64::MAX, 999_999_999);
    let mut timer = KeyRepeatState::new(config());
    timer.update(RawButtonState::Pressed, ms(0));
    assert!(timer.can_update(RawButtonState::Down, longest));
    assert!(timer.update(RawButtonState::Down, Duration::new(u64::MAX, 0)));
    assert_eq!(timer.accum_down(), Duration::new(u64::MAX, 0));
    assert!(timer.can_update(RawButtonState::Down, Duration::new(0, 999_999_999)));
    assert!(!timer.can_update(RawButtonState::Down, Duration::new(1, 0)));
    assert!(!timer.can_update(RawButtonState::Down, longest));
    // states that reset the timer never overflow
    assert!(timer.can_update(RawButtonState::Up, longest));
    assert!(timer.can_update(RawButtonState::Pressed, longest));
    assert!(timer.can_update(RawButtonState::Released, longest));
    timer.update(RawButtonState::Down, Duration::new(0, 999_999_999));
    assert_eq!(timer.accum_down_nanos(), MAX_DURATION_NANOS);
    assert_eq!(timer.accum_down(), longest);
    assert!(timer.can_update(RawButtonState::Down, Duration::new(0, 0)));
    assert!(!timer.can_update(RawButtonState::Down, Duration::new(0, 1)));
}
