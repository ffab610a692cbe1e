use xdl::input::keyboard::Key;
use xdl::input::Input;
use xdl::vi::{InputBundle, KeyEntry, RawButtonState};

fn down(input: &mut Input, key: Key) {
    input.kbd.on_key_down(key.code());
}

fn up(input: &mut Input, key: Key) {
    input.kbd.on_key_up(key.code());
}

#[test]
fn key_entry_constructors() {
    let plain = KeyEntry::key(Key::A);
    assert_eq!(plain, KeyEntry { key: Key::A, ctrl: false, shift: false, meta: false });
    assert_eq!(KeyEntry::from(Key::A), plain);
    let entry: KeyEntry = Key::B.into();
    assert_eq!(entry, KeyEntry::key(Key::B));
    let chord = KeyEntry::new(Key::S, true, false, true);
    assert_eq!(chord, KeyEntry { key: Key::S, ctrl: true, shift: false, meta: true });
}

#[test]
fn empty_bundle_is_up() {
    let mut input = Input::new();
    let bundle = InputBundle::default();
    assert_eq!(bundle.state(&input), RawButtonState::Up);
    down(&mut input, Key::A);
    assert_eq!(bundle.state(&input), RawButtonState::Up);
}

#[test]
fn single_key_goes_through_all_four_states() {
    let mut input = Input::new();
    let bundle = InputBundle::new(vec![KeyEntry::key(Key::Space)]);
    assert_eq!(bundle.state(&input), RawButtonState::Up);
    down(&mut input, Key::Space);
    assert_eq!(bundle.state(&input), RawButtonState::Pressed);
    input.on_end_frame();
    assert_eq!(bundle.state(&input), RawButtonState::Down);
    input.on_end_frame();
    assert_eq!(bundle.state(&input), RawButtonState::Down);
    up(&mut input, Key::Space);
    assert_eq!(bundle.state(&input), RawButtonState::Released);
    input.on_end_frame();
    assert_eq!(bundle.state(&input), RawButtonState::Up);
}

#[test]
fn two_chords_one_with_ctrl() {
    let mut input = Input::new();
    let bundle =
        InputBundle::new(vec![KeyEntry::key(Key::J), KeyEntry::new(Key::K, true, false, false)]);

    // J down, no ctrl
    down(&mut input, Key::J);
    assert_eq!(bundle.state(&input), RawButtonState::Pressed);
    input.on_end_frame();

    // K goes down while J is held, ctrl follows in the next frame
    down(&mut input, Key::K);
    assert_eq!(bundle.state(&input), RawButtonState::Down);
    input.on_end_frame();
    down(&mut input, Key::LCtrl);
    assert_eq!(bundle.state(&input), RawButtonState::Down);
    input.on_end_frame();

    // J released, ctrl+K still held
    up(&mut input, Key::J);
    assert_eq!(bundle.state(&input), RawButtonState::Down);
    input.on_end_frame();
    assert_eq!(bundle.state(&input), RawButtonState::Down);

    // ctrl released: the second chord is no longer down
    up(&mut input, Key::LCtrl);
    assert_eq!(bundle.state(&input), RawButtonState::Released);
    input.on_end_frame();
    assert_eq!(bundle.state(&input), RawButtonState::Up);
}

#[test]
fn key_edge_with_held_modifier_is_a_press() {
    let mut input = Input::new();
    let bundle =
        InputBundle::new(vec![KeyEntry::key(Key::J), KeyEntry::new(Key::K, true, false, false)]);
    down(&mut input, Key::J);
    input.on_end_frame();
    down(&mut input, Key::RCtrl);
    assert_eq!(bundle.state(&input), RawButtonState::Down);
    input.on_end_frame();
    down(&mut input, Key::K);
    assert_eq!(bundle.state(&input), RawButtonState::Pressed);
    input.on_end_frame();
    assert_eq!(bundle.state(&input), RawButtonState::Down);
}

#[test]
fn key_and_modifier_in_the_same_frame_are_a_press() {
    let mut input = Input::new();
    let bundle = InputBundle::new(vec![KeyEntry::new(Key::K, true, false, false)]);
    down(&mut input, Key::K);
    down(&mut input, Key::LCtrl);
    assert_eq!(bundle.state(&input), RawButtonState::Pressed);
}

#[test]
fn modifier_after_key_gives_down_without_press() {
    let mut input = Input::new();
    let bundle = InputBundle::new(vec![KeyEntry::new(Key::K, false, true, false)]);
    down(&mut input, Key::K);
    assert_eq!(bundle.state(&input), RawButtonState::Up);
    input.on_end_frame();
    down(&mut input, Key::RShift);
    assert_eq!(bundle.state(&input), RawButtonState::Down);
    input.on_end_frame();
    up(&mut input, Key::K);
    assert_eq!(bundle.state(&input), RawButtonState::Released);
}

#[test]
fn either_side_of_a_modifier_counts() {
    for (entry, left, right) in [
        (KeyEntry::new(Key::X, true, false, false), Key::LCtrl, Key::RCtrl),
        (KeyEntry::new(Key::X, false, true, false), Key::LShift, Key::RShift),
        (KeyEntry::new(Key::X, false, false, true), Key::LMeta, Key::RMeta),
    ] {
        let bundle = InputBundle::new(vec![entry]);
        for side in [left, right] {
            let mut input = Input::new();
            down(&mut input, side);
            input.on_end_frame();
            down(&mut input, Key::X);
            assert_eq!(bundle.state(&input), RawButtonState::Pressed);
        }
        let mut input = Input::new();
        down(&mut input, Key::X);
        assert_eq!(bundle.state(&input), RawButtonState::Up);
        down(&mut input, Key::LAlt);
        assert_eq!(bundle.state(&input), RawButtonState::Up);
    }
}

#[test]
fn all_asked_modifiers_are_needed() {
    let bundle = InputBundle::new(vec![KeyEntry::new(Key::X, true, true, true)]);
    let mut input = Input::new();
    down(&mut input, Key::X);
    down(&mut input, Key::LCtrl);
    down(&mut input, Key::RShift);
    assert_eq!(bundle.state(&input), RawButtonState::Up);
    down(&mut input, Key::LMeta);
    assert_eq!(bundle.state(&input), RawButtonState::Pressed);
}

#[test]
fn modifiers_not_asked_for_do_not_matter() {
    let bundle = InputBundle::new(vec![KeyEntry::key(Key::X)]);
    let mut input = Input::new();
    down(&mut input, Key::LCtrl);
    down(&mut input, Key::LShift);
    down(&mut input, Key::X);
    assert_eq!(bundle.state(&input), RawButtonState::Pressed);
}

#[test]
fn precedence_pressed_over_down_over_released() {
    let a = KeyEntry::key(Key::A);
    let b = KeyEntry::key(Key::B);
    let c = KeyEntry::key(Key::C);
    let mut input = Input::new();
    down(&mut input, Key::A);
    down(&mut input, Key::B);
    input.on_end_frame();
    // A released, B held, C pressed
    up(&mut input, Key::A);
    down(&mut input, Key::C);
    for chords in [vec![a, b, c], vec![c, b, a], vec![b, a, c], vec![a, c, b]] {
        assert_eq!(InputBundle::new(chords).state(&input), RawButtonState::Pressed);
    }
    for chords in [vec![a, b], vec![b, a]] {
        assert_eq!(InputBundle::new(chords).state(&input), RawButtonState::Down);
    }
    assert_eq!(InputBundle::new(vec![a]).state(&input), RawButtonState::Released);
    assert_eq!(InputBundle::new(vec![a, KeyEntry::key(Key::D)]).state(&input), RawButtonState::Released);
    assert_eq!(InputBundle::new(vec![KeyEntry::key(Key::D)]).state(&input), RawButtonState::Up);
}

#[test]
fn idle_frame_reports_no_edge() {
    let mut input = Input::new();
    let held = InputBundle::new(vec![KeyEntry::key(Key::A), KeyEntry::key(Key::B)]);
    let idle = InputBundle::new(vec![KeyEntry::key(Key::C)]);
    down(&mut input, Key::A);
    input.on_end_frame();
    up(&mut input, Key::A);
    down(&mut input, Key::B);
    input.on_end_frame();
    for _ in 0..3 {
        assert_eq!(held.state(&input), RawButtonState::Down);
        assert_eq!(idle.state(&input), RawButtonState::Up);
        input.on_end_frame();
    }
}

#[test]
fn no_key_chord_is_never_down() {
    let mut input = Input::new();
    let bundle = InputBundle::new(vec![KeyEntry::key(Key::NoKey)]);
    input.kbd.on_key_down(0);
    assert_eq!(bundle.state(&input), RawButtonState::Up);
}

#[test]
fn duplicate_copies_the_chords() {
    let bundle =
        InputBundle::new(vec![KeyEntry::key(Key::J), KeyEntry::new(Key::K, true, false, false)]);
    let copy = bundle.duplicate();
    assert_eq!(copy.keys, bundle.keys);
    assert_eq!(InputBundle::default().duplicate().keys, Vec::<KeyEntry>::new());
}
