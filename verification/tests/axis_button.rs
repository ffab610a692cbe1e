use std::time::Duration;
use xdl::axis::{Dir4, Dir8, Sign};
use xdl::input::keyboard::Key;
use xdl::input::Input;
use xdl::vi::{AxisButton, AxisDirButton, Button, InputBundle, KeyEntry, KeyRepeatConfig};

fn ms(n: u64) -> Duration {
    Duration::from_millis(n)
}

fn bundle(key: Key) -> InputBundle {
    InputBundle::new(vec![KeyEntry::key(key)])
}

fn repeat() -> KeyRepeatConfig {
    KeyRepeatConfig::repeat(ms(100), ms(50))
}

fn axis(cfg: KeyRepeatConfig) -> AxisButton {
    AxisButton { pos: Button::new(bundle(Key::D), cfg), neg: Button::new(bundle(Key::A), cfg) }
}

fn mixer(cfg: KeyRepeatConfig) -> AxisDirButton {
    AxisDirButton::new(cfg, [bundle(Key::D), bundle(Key::A)], [bundle(Key::S), bundle(Key::W)])
}

fn down(input: &mut Input, key: Key) {
    input.kbd.on_key_down(key.code());
}

fn up(input: &mut Input, key: Key) {
    input.kbd.on_key_up(key.code());
}

fn axis_frame(input: &mut Input, axis: &mut AxisButton, dt: Duration) {
    assert!(axis.can_update(input, dt));
    axis.update(input, dt);
    input.on_end_frame();
}

fn mixer_frame(input: &mut Input, mixer: &mut AxisDirButton, dt: Duration) {
    assert!(mixer.can_update(input, dt));
    mixer.update(input, dt);
    input.on_end_frame();
}

#[test]
fn axis_with_one_side_down() {
    let mut input = Input::new();
    let mut a = axis(repeat());
    assert_eq!(a.sign_down(), Sign::Neutral);
    assert_eq!(a.sign_pressed(), Sign::Neutral);
    down(&mut input, Key::D);
    axis_frame(&mut input, &mut a, ms(10));
    assert_eq!(a.sign_down(), Sign::Pos);
    assert_eq!(a.sign_pressed(), Sign::Pos);
    axis_frame(&mut input, &mut a, ms(10));
    assert_eq!(a.sign_down(), Sign::Pos);
    assert_eq!(a.sign_pressed(), Sign::Neutral);
    up(&mut input, Key::D);
    down(&mut input, Key::A);
    axis_frame(&mut input, &mut a, ms(10));
    assert_eq!(a.sign_down(), Sign::Neg);
    assert_eq!(a.sign_pressed(), Sign::Neg);
    up(&mut input, Key::A);
    axis_frame(&mut input, &mut a, ms(10));
    assert_eq!(a.sign_down(), Sign::Neutral);
    assert_eq!(a.sign_pressed(), Sign::Neutral);
}

#[test]
fn latest_side_wins_the_tie() {
    let mut input = Input::new();
    let mut a = axis(repeat());
    // positive side pressed at t = 0
    down(&mut input, Key::D);
    axis_frame(&mut input, &mut a, ms(10));
    assert_eq!(a.sign_down(), Sign::Pos);
    // negative side pressed at t = 10 ms
    down(&mut input, Key::A);
    axis_frame(&mut input, &mut a, ms(10));
    assert_eq!(a.pos.accum_down(), ms(10));
    assert_eq!(a.neg.accum_down(), ms(0));
    assert_eq!(a.sign_down(), Sign::Neg);
    assert_eq!(a.sign_pressed(), Sign::Neg);
    assert_eq!(a.accum_down(), ms(0));
    axis_frame(&mut input, &mut a, ms(10));
    assert_eq!(a.pos.accum_down(), ms(20));
    assert_eq!(a.neg.accum_down(), ms(10));
    assert_eq!(a.sign_down(), Sign::Neg);
    assert_eq!(a.sign_pressed(), Sign::Neutral);
    assert_eq!(a.accum_down(), ms(10));
    assert_eq!(a.accum_down_nanos(), 10_000_000);
    // the positive side is let go and pressed again: now it is the latest
    up(&mut input, Key::D);
    axis_frame(&mut input, &mut a, ms(10));
    assert_eq!(a.sign_down(), Sign::Neg);
    down(&mut input, Key::D);
    axis_frame(&mut input, &mut a, ms(10));
    assert_eq!(a.sign_down(), Sign::Pos);
    assert_eq!(a.sign_pressed(), Sign::Pos);
    axis_frame(&mut input, &mut a, ms(10));
    assert_eq!(a.pos.accum_down(), ms(10));
    assert_eq!(a.neg.accum_down(), ms(40));
    assert_eq!(a.sign_down(), Sign::Pos);
}

#[test]
fn tie_of_equal_times_goes_to_the_positive_side() {
    let mut input = Input::new();
    let mut a = axis(repeat());
    down(&mut input, Key::D);
    down(&mut input, Key::A);
    axis_frame(&mut input, &mut a, ms(10));
    assert_eq!(a.sign_down(), Sign::Pos);
    assert_eq!(a.sign_pressed(), Sign::Pos);
    axis_frame(&mut input, &mut a, ms(10));
    assert_eq!(a.sign_down(), Sign::Pos);
    assert_eq!(a.sign_pressed(), Sign::Neutral);
    // without repeat no time is counted, so every tie is one of equal times
    let mut input = Input::new();
    let mut a = axis(KeyRepeatConfig::no_repeat());
    down(&mut input, Key::D);
    axis_frame(&mut input, &mut a, ms(10));
    down(&mut input, Key::A);
    axis_frame(&mut input, &mut a, ms(10));
    assert_eq!(a.sign_down(), Sign::Pos);
    // the side that decides is held, not pressed: neutral, though the other side is pressed
    assert_eq!(a.sign_pressed(), Sign::Neutral);
    assert_eq!(a.accum_down(), ms(0));
}

#[test]
fn repeat_pulse_counts_as_pressed_sign() {
    let mut input = Input::new();
    let mut a = axis(repeat());
    down(&mut input, Key::A);
    axis_frame(&mut input, &mut a, ms(10));
    axis_frame(&mut input, &mut a, ms(100));
    assert_eq!(a.sign_pressed(), Sign::Neutral);
    axis_frame(&mut input, &mut a, ms(1));
    assert_eq!(a.sign_down(), Sign::Neg);
    assert_eq!(a.sign_pressed(), Sign::Neg);
}

#[test]
fn axis_try_update_takes_both_or_none() {
    let longest = Duration::new(u64::MAX, 999_999_999);
    let cfg = KeyRepeatConfig::repeat(longest, longest);
    let mut input = Input::new();
    let mut a = axis(cfg);
    down(&mut input, Key::D);
    assert!(a.try_update(&input, ms(1)));
    input.on_end_frame();
    assert!(a.try_update(&input, longest));
    assert_eq!(a.pos.accum_down(), longest);
    down(&mut input, Key::A);
    assert!(a.try_update(&input, ms(0)));
    input.on_end_frame();
    // the negative side could take the frame, the positive side cannot
    assert!(!a.can_update(&input, ms(1)));
    assert!(!a.try_update(&input, ms(1)));
    assert_eq!(a.pos.accum_down(), longest);
    assert_eq!(a.neg.accum_down(), ms(0));
    assert!(a.neg.is_pressed());
}

#[test]
fn dir8_for_every_pair_of_signs() {
    let cases: [(&[Key], Option<Dir8>); 9] = [
        (&[], None),
        (&[Key::W], Some(Dir8::N)),
        (&[Key::D, Key::W], Some(Dir8::NE)),
        (&[Key::D], Some(Dir8::E)),
        (&[Key::D, Key::S], Some(Dir8::SE)),
        (&[Key::S], Some(Dir8::S)),
        (&[Key::A, Key::S], Some(Dir8::SW)),
        (&[Key::A], Some(Dir8::W)),
        (&[Key::A, Key::W], Some(Dir8::NW)),
    ];
    for (keys, expected) in cases {
        let mut input = Input::new();
        let mut m = mixer(repeat());
        for key in keys {
            down(&mut input, *key);
        }
        mixer_frame(&mut input, &mut m, ms(10));
        assert_eq!(m.dir8_down(), expected);
        assert_eq!(m.dir8_pressed(), expected);
        mixer_frame(&mut input, &mut m, ms(10));
        assert_eq!(m.dir8_down(), expected);
        assert_eq!(m.dir8_pressed(), None);
    }
}

#[test]
fn dir4_along_one_axis() {
    let cases: [(Key, Dir4); 4] =
        [(Key::W, Dir4::N), (Key::D, Dir4::E), (Key::S, Dir4::S), (Key::A, Dir4::W)];
    for (key, expected) in cases {
        let mut input = Input::new();
        let mut m = mixer(repeat());
        assert_eq!(m.dir4_down(), None);
        assert_eq!(m.dir4_pressed(), None);
        down(&mut input, key);
        mixer_frame(&mut input, &mut m, ms(10));
        assert_eq!(m.dir4_down(), Some(expected));
        assert_eq!(m.dir4_pressed(), Some(expected));
        mixer_frame(&mut input, &mut m, ms(10));
        assert_eq!(m.dir4_down(), Some(expected));
        assert_eq!(m.dir4_pressed(), None);
        up(&mut input, key);
        mixer_frame(&mut input, &mut m, ms(10));
        assert_eq!(m.dir4_down(), None);
    }
}

#[test]
fn dir4_diagonal_goes_to_the_latest_axis() {
    let mut input = Input::new();
    let mut m = mixer(repeat());
    down(&mut input, Key::D);
    mixer_frame(&mut input, &mut m, ms(10));
    mixer_frame(&mut input, &mut m, ms(10));
    assert_eq!(m.dir4_down(), Some(Dir4::E));
    // y comes later. An axis with an idle side counts as down for no time,
    // so x, with its idle negative side, still decides.
    down(&mut input, Key::W);
    mixer_frame(&mut input, &mut m, ms(10));
    assert_eq!(m.x().accum_down(), ms(0));
    assert_eq!(m.y().accum_down(), ms(0));
    assert_eq!(m.dir4_down(), Some(Dir4::E));
    assert_eq!(m.dir8_down(), Some(Dir8::NE));
    // x pressed alone does not give a diagonal in dir4_pressed
    assert_eq!(m.dir4_pressed(), Some(Dir4::N));
}

#[test]
fn dir4_diagonal_with_all_sides_down() {
    let mut input = Input::new();
    let mut m = mixer(repeat());
    // x: both sides down for 30 ms and 20 ms; y: both sides for 10 ms and 0 ms
    down(&mut input, Key::D);
    mixer_frame(&mut input, &mut m, ms(10));
    down(&mut input, Key::A);
    mixer_frame(&mut input, &mut m, ms(10));
    down(&mut input, Key::S);
    mixer_frame(&mut input, &mut m, ms(10));
    mixer_frame(&mut input, &mut m, ms(10));
    down(&mut input, Key::W);
    mixer_frame(&mut input, &mut m, ms(10));
    mixer_frame(&mut input, &mut m, ms(10));
    assert_eq!(m.x().pos.accum_down(), ms(50));
    assert_eq!(m.x().neg.accum_down(), ms(40));
    assert_eq!(m.y().pos.accum_down(), ms(30));
    assert_eq!(m.y().neg.accum_down(), ms(10));
    assert_eq!(m.x().sign_down(), Sign::Neg);
    assert_eq!(m.y().sign_down(), Sign::Neg);
    assert_eq!(m.x().accum_down(), ms(40));
    assert_eq!(m.y().accum_down(), ms(10));
    // y has been down for the shorter time: north, not west
    assert_eq!(m.dir4_down(), Some(Dir4::N));
    assert_eq!(m.dir8_down(), Some(Dir8::NW));
    // let go of both y keys and press them anew later than x
    up(&mut input, Key::W);
    up(&mut input, Key::S);
    mixer_frame(&mut input, &mut m, ms(10));
    assert_eq!(m.dir4_down(), Some(Dir4::W));
    up(&mut input, Key::A);
    up(&mut input, Key::D);
    down(&mut input, Key::S);
    down(&mut input, Key::W);
    mixer_frame(&mut input, &mut m, ms(10));
    mixer_frame(&mut input, &mut m, ms(10));
    down(&mut input, Key::A);
    down(&mut input, Key::D);
    mixer_frame(&mut input, &mut m, ms(10));
    mixer_frame(&mut input, &mut m, ms(10));
    assert_eq!(m.x().accum_down(), ms(10));
    assert_eq!(m.y().accum_down(), ms(30));
    // x is the latest: its tie of equal times goes to the positive side
    assert_eq!(m.dir4_down(), Some(Dir4::E));
}

#[test]
fn dir8_of_every_pair_of_numbers() {
    let m = mixer(repeat());
    assert_eq!(m.dir8(0, 0), None);
    assert_eq!(m.dir8(0, -1), Some(Dir8::N));
    assert_eq!(m.dir8(1, -1), Some(Dir8::NE));
    assert_eq!(m.dir8(1, 0), Some(Dir8::E));
    assert_eq!(m.dir8(1, 1), Some(Dir8::SE));
    assert_eq!(m.dir8(0, 1), Some(Dir8::S));
    assert_eq!(m.dir8(-1, 1), Some(Dir8::SW));
    assert_eq!(m.dir8(-1, 0), Some(Dir8::W));
    assert_eq!(m.dir8(-1, -1), Some(Dir8::NW));
    let mut seen = Vec::new();
    for x in -1..=1 {
        for y in -1..=1 {
            if (x, y) != (0, 0) {
                let d = m.dir8(x, y).unwrap();
                assert_eq!(d.signs_i32(), [x, y]);
                assert!(!seen.contains(&d));
                seen.push(d);
            }
        }
    }
    assert_eq!(seen.len(), 8);
}

#[test]
fn dir4_of_every_pair_of_numbers() {
    // a mixer that was never updated: both axes have been down for no time,
    // so x decides where both point somewhere
    let m = mixer(repeat());
    assert_eq!(m.dir4(0, 0), None);
    assert_eq!(m.dir4(0, -1), Some(Dir4::N));
    assert_eq!(m.dir4(1, 0), Some(Dir4::E));
    assert_eq!(m.dir4(0, 1), Some(Dir4::S));
    assert_eq!(m.dir4(-1, 0), Some(Dir4::W));
    assert_eq!(m.dir4(1, -1), Some(Dir4::E));
    assert_eq!(m.dir4(1, 1), Some(Dir4::E));
    assert_eq!(m.dir4(-1, 1), Some(Dir4::W));
    assert_eq!(m.dir4(-1, -1), Some(Dir4::W));
}

#[test]
fn every_setting_builds_a_mixer() {
    for cfg in [
        KeyRepeatConfig::no_repeat(),
        KeyRepeatConfig::repeat(ms(0), ms(50)),
        KeyRepeatConfig::repeat(ms(100), ms(0)),
        KeyRepeatConfig::repeat(ms(0), ms(0)),
    ] {
        let m = mixer(cfg);
        assert_eq!(m.dir4_down(), None);
        assert_eq!(m.dir4_pressed(), None);
        assert_eq!(m.dir8_down(), None);
        assert_eq!(m.dir8_pressed(), None);
        for b in [&m.x().pos, &m.x().neg, &m.y().pos, &m.y().neg] {
            assert!(b.is_up());
            assert_eq!(b.accum_down(), ms(0));
        }
        assert_eq!(m.x().pos.input.keys, vec![KeyEntry::key(Key::D)]);
        assert_eq!(m.y().neg.input.keys, vec![KeyEntry::key(Key::W)]);
    }
}

#[test]
fn mixer_starts_with_shared_settings() {
    let m = mixer(repeat());
    for b in [&m.x().pos, &m.x().neg, &m.y().pos, &m.y().neg] {
        assert!(b.is_up());
        assert_eq!(b.accum_down(), ms(0));
        match b.repeat_config() {
            KeyRepeatConfig::Repeat { first, multi } => {
                assert_eq!(first, ms(100));
                assert_eq!(multi, ms(50));
            }
            KeyRepeatConfig::NoRepeat => panic!("repeat expected"),
        }
    }
    assert_eq!(m.x().pos.input.keys, vec![KeyEntry::key(Key::D)]);
    assert_eq!(m.x().neg.input.keys, vec![KeyEntry::key(Key::A)]);
    assert_eq!(m.y().pos.input.keys, vec![KeyEntry::key(Key::S)]);
    assert_eq!(m.y().neg.input.keys, vec![KeyEntry::key(Key::W)]);
}

#[test]
fn mixer_try_update() {
    let longest = Duration::new(u64::MAX, 999_999_999);
    let mut input = Input::new();
    let mut m = mixer(KeyRepeatConfig::repeat(longest, longest));
    down(&mut input, Key::S);
    assert!(m.try_update(&input, ms(1)));
    input.on_end_frame();
    assert!(m.try_update(&input, longest));
    assert_eq!(m.dir4_down(), Some(Dir4::S));
    assert!(!m.try_update(&input, ms(1)));
    assert_eq!(m.y().pos.accum_down(), longest);
    assert_eq!(m.dir4_down(), Some(Dir4::S));
}
