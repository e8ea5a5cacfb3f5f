use bevy_math::Vec2;
use bevy_miniquad::input::{
    ButtonState, FrameInput, KeyboardInput, KeyboardKey, Mouse, Time, Window, KEY_SLOTS,
};
use bevy_miniquad::maps::map_to_keyboard_key;
use bevy_miniquad::text::Font;
use miniquad::KeyCode;

const ALL_STATES: [ButtonState; 4] = [
    ButtonState::Up,
    ButtonState::JustUp,
    ButtonState::JustDown,
    ButtonState::Down,
];

#[test]
fn advance_to_level_maps_each_state() {
    assert_eq!(ButtonState::Up.advance_to_level(), ButtonState::Up);
    assert_eq!(ButtonState::JustUp.advance_to_level(), ButtonState::Up);
    assert_eq!(ButtonState::JustDown.advance_to_level(), ButtonState::Down);
    assert_eq!(ButtonState::Down.advance_to_level(), ButtonState::Down);
}

#[test]
fn advance_to_level_is_idempotent() {
    for s in ALL_STATES {
        let once = s.advance_to_level();
        assert_eq!(once.advance_to_level(), once);
    }
}

#[test]
fn long_state_settles_in_place() {
    let mut s = ButtonState::JustDown;
    s.long_state();
    assert_eq!(s, ButtonState::Down);
    s.long_state();
    assert_eq!(s, ButtonState::Down);
    let mut u = ButtonState::JustUp;
    u.long_state();
    assert_eq!(u, ButtonState::Up);
}

#[test]
fn button_state_default_is_up() {
    assert_eq!(ButtonState::default(), ButtonState::Up);
}

#[test]
fn key_indices_follow_declaration_order() {
    assert_eq!(usize::from(KeyboardKey::Space), 0);
    assert_eq!(usize::from(KeyboardKey::Apostrophe), 1);
    assert_eq!(usize::from(KeyboardKey::A), 18);
    assert_eq!(usize::from(KeyboardKey::Tab), 110);
    assert_eq!(KeyboardKey::Menu.index(), 119);
    assert!(KeyboardKey::Menu.index() < KEY_SLOTS);
}

#[test]
fn keyboard_starts_up() {
    let k = KeyboardInput::default();
    assert!(k.keys.iter().all(|s| *s == ButtonState::Up));
    assert_eq!(k.get(KeyboardKey::Space), ButtonState::Up);
    assert_eq!(KeyboardInput::new().keys.len(), 128);
}

#[test]
fn keyboard_set_returns_previous_state() {
    let mut k = KeyboardInput::new();
    assert_eq!(k.set(KeyboardKey::A, ButtonState::JustDown), ButtonState::Up);
    assert_eq!(k.get(KeyboardKey::A), ButtonState::JustDown);
    assert_eq!(k.set(KeyboardKey::A, ButtonState::Down), ButtonState::JustDown);
    assert_eq!(k.get(KeyboardKey::A), ButtonState::Down);
    assert_eq!(k.get(KeyboardKey::B), ButtonState::Up);
    assert_eq!(k.keys[18], ButtonState::Down);
}

#[test]
fn keyboard_long_state_settles_every_slot() {
    let mut k = KeyboardInput::new();
    k.set(KeyboardKey::Space, ButtonState::JustDown);
    k.set(KeyboardKey::Escape, ButtonState::JustUp);
    k.set(KeyboardKey::Menu, ButtonState::Down);
    k.long_state();
    assert_eq!(k.get(KeyboardKey::Space), ButtonState::Down);
    assert_eq!(k.get(KeyboardKey::Escape), ButtonState::Up);
    assert_eq!(k.get(KeyboardKey::Menu), ButtonState::Down);
    assert_eq!(k.get(KeyboardKey::Z), ButtonState::Up);
}

#[test]
fn frame_input_starts_at_frame_zero() {
    let f = FrameInput::new(Window { size: Vec2::new(1024.0, 768.0) }, Vec2::new(3.0, 4.0));
    assert_eq!(f.time, Time::default());
    assert_eq!(f.time.frame, 0);
    assert_eq!(f.window.size, Vec2::new(1024.0, 768.0));
    assert_eq!(f.mouse.pos, Vec2::new(3.0, 4.0));
    assert_eq!(f.mouse.left, ButtonState::Up);
    assert_eq!(f.mouse.right, ButtonState::Up);
    assert_eq!(f.mouse.middle, ButtonState::Up);
    assert_eq!(f.keyboard.get(KeyboardKey::Enter), ButtonState::Up);
}

#[test]
fn frame_input_long_state_settles_buttons_and_keys_only() {
    let mut f = FrameInput::new(Window { size: Vec2::new(10.0, 20.0) }, Vec2::ZERO);
    f.time = Time { frame: 7, micros_since_start: 500, last_frame_micros: 900 };
    f.mouse = Mouse {
        pos: Vec2::new(1.0, 2.0),
        left: ButtonState::JustDown,
        right: ButtonState::JustUp,
        middle: ButtonState::Down,
    };
    f.keyboard.set(KeyboardKey::Q, ButtonState::JustDown);
    f.long_state();
    assert_eq!(f.time, Time { frame: 7, micros_since_start: 500, last_frame_micros: 900 });
    assert_eq!(f.window.size, Vec2::new(10.0, 20.0));
    assert_eq!(f.mouse.pos, Vec2::new(1.0, 2.0));
    assert_eq!(f.mouse.left, ButtonState::Down);
    assert_eq!(f.mouse.right, ButtonState::Up);
    assert_eq!(f.mouse.middle, ButtonState::Down);
    assert_eq!(f.keyboard.get(KeyboardKey::Q), ButtonState::Down);
}

#[test]
fn key_codes_map_to_keys_of_the_same_name() {
    assert_eq!(map_to_keyboard_key(KeyCode::Space), Some(KeyboardKey::Space));
    assert_eq!(map_to_keyboard_key(KeyCode::Tab), Some(KeyboardKey::Tab));
    assert_eq!(map_to_keyboard_key(KeyCode::Enter), Some(KeyboardKey::Enter));
    assert_eq!(map_to_keyboard_key(KeyCode::Kp5), Some(KeyboardKey::Kp5));
    assert_eq!(map_to_keyboard_key(KeyCode::Menu), Some(KeyboardKey::Menu));
    assert_eq!(map_to_keyboard_key(KeyCode::Unknown), None);
}

#[test]
fn font_keeps_its_handle() {
    assert_eq!(Font::new(0).handle, 0);
    assert_eq!(Font::new(42).handle, 42);
}
