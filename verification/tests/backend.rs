use xdl::input::keyboard::Key;
use xdl::platform::{Event, ExternalKey};
use xdl::{Backend, Input};

struct CodeBackend {
    offset: ExternalKey,
}

impl Backend for CodeBackend {
    type Event = (bool, ExternalKey);
    type Key = ExternalKey;

    fn on_event(&self, input: &mut Input, ev: &Self::Event) {
        let keycode = ev.1.checked_sub(self.offset);
        if ev.0 {
            input.event(&Event::KeyDown { keycode });
        } else {
            input.event(&Event::KeyUp { keycode });
        }
    }

    fn on_end_frame(&self, input: &mut Input) {
        input.on_end_frame();
    }
}

#[test]
fn backend_drives_input() {
    let backend = CodeBackend { offset: 1000 };
    let mut input = Input::new();
    backend.on_event(&mut input, &(true, 1000 + Key::Escape.code()));
    assert!(input.kbd.is_key_pressed(Key::Escape));
    backend.on_event(&mut input, &(true, 3));
    backend.on_event(&mut input, &(true, 1001));
    assert_eq!(input.kbd.pressed_keys(), vec![Key::Escape]);
    backend.on_end_frame(&mut input);
    assert!(input.kbd.is_key_down(Key::Escape));
    assert!(!input.kbd.is_key_pressed(Key::Escape));
    backend.on_event(&mut input, &(false, 1000 + Key::Escape.code()));
    assert!(input.kbd.is_key_released(Key::Escape));
    backend.on_end_frame(&mut input);
    assert!(input.kbd.is_key_up(Key::Escape));
}
