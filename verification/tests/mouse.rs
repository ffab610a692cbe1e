use xdl::input::mouse::{Mouse, MouseInput, MouseSnapshot};
use xdl::platform::Event;

const ALL: [MouseInput; 5] =
    [MouseInput::Left, MouseInput::Mid, MouseInput::Right, MouseInput::X1, MouseInput::X2];

#[test]
fn button_codes_and_flags() {
    assert_eq!(MouseInput::Left.code(), 1);
    assert_eq!(MouseInput::Mid.code(), 2);
    assert_eq!(MouseInput::Right.code(), 3);
    assert_eq!(MouseInput::X1.code(), 4);
    assert_eq!(MouseInput::X2.code(), 5);
    for (i, input) in ALL.iter().enumerate() {
        let s = MouseSnapshot { x: 0, y: 0, flags: 1 << i };
        for other in ALL {
            assert_eq!(s.is_down(other), other == *input);
            assert_eq!(s.is_up(other), other != *input);
        }
    }
}

#[test]
fn snapshot_named_buttons() {
    let s = MouseSnapshot { x: 3, y: -4, flags: 0b10101 };
    assert_eq!(s.x(), 3);
    assert_eq!(s.y(), -4);
    assert!(s.is_left_down() && !s.is_left_up());
    assert!(!s.is_mid_down() && s.is_mid_up());
    assert!(s.is_right_down() && !s.is_right_up());
    assert!(!s.is_x1_down() && s.is_x1_up());
    assert!(s.is_x2_down() && !s.is_x2_up());
    assert!(s.is_any_down(&[MouseInput::Mid, MouseInput::X2]));
    assert!(!s.is_any_down(&[MouseInput::Mid, MouseInput::X1]));
    assert!(s.is_any_up(&[MouseInput::Left, MouseInput::X1]));
    assert!(!s.is_any_up(&[MouseInput::Left, MouseInput::Right]));
    assert!(!s.is_any_down(&[]));
    assert!(!s.is_any_up(&[]));
    // flags above the five buttons are no button
    let high = MouseSnapshot { x: 0, y: 0, flags: 0xFFFF_FFE0 };
    assert!(!high.is_any_down(&ALL));
    assert_eq!(MouseSnapshot::default(), MouseSnapshot { x: 0, y: 0, flags: 0 });
}

#[test]
fn new_mouse_is_idle() {
    let m = Mouse::new();
    assert_eq!(m.pos(), [0, 0]);
    assert_eq!(m.pos_delta(), [0, 0]);
    assert_eq!(m.wheel(), 0);
    assert_eq!(m.wheel_delta(), 0);
    for input in ALL {
        assert!(m.is_up(input));
        assert!(!m.is_down(input));
        assert!(!m.is_pressed(input));
        assert!(!m.is_released(input));
    }
    let d = Mouse::default();
    assert_eq!(d.pos(), [0, 0]);
}

#[test]
fn mouse_position_and_delta() {
    let mut m = Mouse::new();
    m.update(10, 20, 0);
    assert_eq!(m.x(), 10);
    assert_eq!(m.y(), 20);
    assert_eq!(m.pos(), [10, 20]);
    assert_eq!(m.pos_delta(), [10, 20]);
    m.on_end_frame();
    assert_eq!(m.pos_delta(), [0, 0]);
    m.update(7, 25, 0);
    assert_eq!(m.pos_delta(), [-3, 5]);
    assert_eq!(m.checked_pos_delta(), Some([-3, 5]));
}

#[test]
fn mouse_delta_that_does_not_fit() {
    let mut m = Mouse::new();
    m.update(i32::MIN, 0, 0);
    m.on_end_frame();
    m.update(i32::MAX, 0, 0);
    assert_eq!(m.checked_pos_delta(), None);
    m.update(-1, i32::MAX, 0);
    assert_eq!(m.checked_pos_delta(), Some([i32::MAX, i32::MAX]));
    m.update(0, 0, 0);
    assert_eq!(m.checked_pos_delta(), None);
}

#[test]
fn mouse_button_edges() {
    let mut m = Mouse::new();
    m.update(0, 0, 0b00001);
    assert!(m.is_left_down() && m.is_left_pressed() && !m.is_left_released());
    assert!(m.is_pressed(MouseInput::Left));
    assert!(m.is_mid_up() && m.is_right_up() && m.is_x1_up() && m.is_x2_up());
    m.on_end_frame();
    assert!(m.is_left_down() && !m.is_left_pressed());
    m.update(0, 0, 0b11110);
    assert!(m.is_left_up() && m.is_left_released() && m.is_released(MouseInput::Left));
    assert!(m.is_mid_down() && m.is_mid_pressed() && !m.is_mid_released());
    assert!(m.is_right_down() && m.is_right_pressed() && !m.is_right_released());
    assert!(m.is_x1_down() && m.is_x1_pressed() && !m.is_x1_released());
    assert!(m.is_x2_down() && m.is_x2_pressed() && !m.is_x2_released());
    m.on_end_frame();
    m.update(0, 0, 0);
    assert!(m.is_mid_released() && m.is_right_released() && m.is_x1_released() && m.is_x2_released());
    assert!(!m.is_left_released());
    m.on_end_frame();
    for input in ALL {
        assert!(!m.is_pressed(input) && !m.is_released(input) && m.is_up(input));
    }
}

#[test]
fn mouse_any_queries() {
    let mut m = Mouse::new();
    m.update(0, 0, 0b00100);
    m.on_end_frame();
    let held = [MouseInput::Right];
    let idle = [MouseInput::Left, MouseInput::Mid];
    assert!(m.is_any_down(&held));
    assert!(!m.is_any_down(&idle));
    assert!(m.is_any_up(&idle));
    assert!(!m.is_any_up(&held));
    // these two look at what is down, not at the edge
    assert!(m.is_any_pressed(&held));
    assert!(!m.is_any_pressed(&idle));
    assert!(m.is_any_released(&held));
    m.update(0, 0, 0);
    assert!(m.is_released(MouseInput::Right));
    assert!(!m.is_any_released(&held));
}

#[test]
fn wheel_turns_by_120_per_notch() {
    let mut m = Mouse::new();
    m.event(&Event::MouseWheel { y: 1 });
    assert_eq!(m.wheel(), 120);
    m.event(&Event::MouseWheel { y: -3 });
    assert_eq!(m.wheel(), -240);
    assert_eq!(m.wheel_delta(), -240);
    m.event(&Event::Other);
    m.event(&Event::KeyDown { keycode: Some(1) });
    assert_eq!(m.wheel(), -240);
    m.on_end_frame();
    assert_eq!(m.wheel(), -240);
    assert_eq!(m.wheel_delta(), 0);
    m.event(&Event::MouseWheel { y: 2 });
    assert_eq!(m.wheel_delta(), 240);
}

#[test]
fn wheel_that_does_not_fit() {
    let mut m = Mouse::new();
    assert!(m.can_take(&Event::MouseWheel { y: 17_895_697 }));
    assert!(!m.can_take(&Event::MouseWheel { y: 17_895_698 }));
    assert!(m.can_take(&Event::MouseWheel { y: -17_895_697 }));
    assert!(!m.can_take(&Event::MouseWheel { y: -17_895_698 }));
    assert!(m.can_take(&Event::Other));
    m.event(&Event::MouseWheel { y: 17_895_697 });
    assert_eq!(m.wheel(), 2_147_483_640);
    assert!(!m.can_take(&Event::MouseWheel { y: 1 }));
    assert!(m.can_take(&Event::MouseWheel { y: 0 }));
    assert!(m.can_take(&Event::MouseWheel { y: -1 }));
    assert!(m.can_take(&Event::KeyUp { keycode: None }));
}
