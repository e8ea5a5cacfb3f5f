use bevy_math::Vec2;
use bevy_miniquad::input::{ButtonState, FrameInput, KeyboardKey, Window};
use bevy_miniquad::stage::Stage;
use miniquad::{KeyCode, MouseButton, TouchPhase};

fn initial() -> FrameInput {
    FrameInput::new(Window { size: Vec2::new(1024.0, 768.0) }, Vec2::ZERO)
}

fn started() -> (Stage, FrameInput) {
    (Stage::new(initial(), 1_000_000), initial())
}

#[test]
fn resize_then_publish_shows_new_size() {
    let (mut stage, mut published) = started();
    stage.resize_event(Vec2::new(800.0, 600.0));
    assert_eq!(published.window.size, Vec2::new(1024.0, 768.0));
    stage.begin_update(&mut published, 1_016_000);
    assert_eq!(published.window.size, Vec2::new(800.0, 600.0));
}

#[test]
fn resize_reaches_only_the_active_snapshot() {
    let (mut stage, mut published) = started();
    stage.begin_update(&mut published, 1_010_000);
    stage.resize_event(Vec2::new(0.0, 0.0));
    assert_eq!(stage.active_frame_input.window.size, Vec2::ZERO);
    assert_eq!(published.window.size, Vec2::new(1024.0, 768.0));
    assert_eq!(stage.last_frame_input.window.size, Vec2::new(1024.0, 768.0));
    stage.mouse_motion_event(Vec2::new(5.0, 5.0));
    stage.begin_update(&mut published, 1_020_000);
    assert_eq!(published.window.size, Vec2::ZERO);
    assert_eq!(stage.last_frame_input.window.size, Vec2::new(1024.0, 768.0));
}

#[test]
fn mouse_press_is_published_then_held() {
    let (mut stage, mut published) = started();
    assert_eq!(published.mouse.left, ButtonState::Up);
    stage.mouse_button_down_event(MouseButton::Left, Vec2::new(10.0, 10.0));
    stage.begin_update(&mut published, 1_016_000);
    assert_eq!(published.mouse.left, ButtonState::JustDown);
    assert_eq!(published.mouse.left.advance_to_level(), ButtonState::Down);
    assert_eq!(published.mouse.pos, Vec2::new(10.0, 10.0));
    stage.begin_update(&mut published, 1_032_000);
    assert_eq!(published.mouse.left, ButtonState::Down);
    assert_eq!(published.mouse.pos, Vec2::new(10.0, 10.0));
    stage.begin_update(&mut published, 1_048_000);
    assert_eq!(published.mouse.left, ButtonState::Down);
}

#[test]
fn key_down_then_up_in_one_frame_publishes_up() {
    let (mut stage, mut published) = started();
    stage.key_down_event(KeyCode::Space);
    stage.key_up_event(KeyCode::Space);
    stage.begin_update(&mut published, 1_016_000);
    assert_eq!(published.keyboard.get(KeyboardKey::Space), ButtonState::JustUp);
    assert_eq!(published.keyboard.get(KeyboardKey::Space).advance_to_level(), ButtonState::Up);
    stage.begin_update(&mut published, 1_032_000);
    assert_eq!(published.keyboard.get(KeyboardKey::Space), ButtonState::Up);
}

#[test]
fn unknown_key_code_changes_nothing() {
    let (mut stage, mut published) = started();
    stage.key_down_event(KeyCode::Unknown);
    stage.key_up_event(KeyCode::Unknown);
    stage.begin_update(&mut published, 1_016_000);
    assert!(published.keyboard.keys.iter().all(|s| *s == ButtonState::Up));
    stage.begin_update(&mut published, 1_032_000);
    assert!(published.keyboard.keys.iter().all(|s| *s == ButtonState::Up));
}

#[test]
fn last_edge_of_a_frame_wins() {
    // press only
    let (mut stage, mut published) = started();
    stage.mouse_button_down_event(MouseButton::Right, Vec2::new(1.0, 1.0));
    stage.begin_update(&mut published, 1_016_000);
    stage.begin_update(&mut published, 1_032_000);
    assert_eq!(published.mouse.right, ButtonState::Down);
    // release only
    stage.mouse_button_up_event(MouseButton::Right, Vec2::new(2.0, 2.0));
    stage.begin_update(&mut published, 1_048_000);
    assert_eq!(published.mouse.right, ButtonState::JustUp);
    stage.begin_update(&mut published, 1_064_000);
    assert_eq!(published.mouse.right, ButtonState::Up);
    // press then release
    stage.mouse_button_down_event(MouseButton::Middle, Vec2::new(3.0, 3.0));
    stage.mouse_button_up_event(MouseButton::Middle, Vec2::new(4.0, 4.0));
    stage.begin_update(&mut published, 1_080_000);
    assert_eq!(published.mouse.middle, ButtonState::JustUp);
    assert_eq!(published.mouse.pos, Vec2::new(4.0, 4.0));
    stage.begin_update(&mut published, 1_096_000);
    assert_eq!(published.mouse.middle, ButtonState::Up);
    // release then press
    stage.key_up_event(KeyCode::W);
    stage.key_down_event(KeyCode::W);
    stage.begin_update(&mut published, 1_112_000);
    assert_eq!(published.keyboard.get(KeyboardKey::W), ButtonState::JustDown);
    stage.begin_update(&mut published, 1_128_000);
    assert_eq!(published.keyboard.get(KeyboardKey::W), ButtonState::Down);
}

#[test]
fn publishing_without_events_keeps_levels() {
    let (mut stage, mut published) = started();
    stage.key_down_event(KeyCode::A);
    stage.mouse_button_down_event(MouseButton::Left, Vec2::new(6.0, 7.0));
    stage.begin_update(&mut published, 1_016_000);
    stage.begin_update(&mut published, 1_032_000);
    let settled = published;
    for now in [1_048_000u64, 1_064_000, 1_080_000] {
        stage.begin_update(&mut published, now);
        assert_eq!(published.keyboard.keys, settled.keyboard.keys);
        assert_eq!(published.mouse.left, settled.mouse.left);
        assert_eq!(published.mouse.right, settled.mouse.right);
        assert_eq!(published.mouse.middle, settled.mouse.middle);
        assert_eq!(published.mouse.pos, settled.mouse.pos);
    }
    assert_eq!(settled.keyboard.get(KeyboardKey::A), ButtonState::Down);
    assert_eq!(settled.mouse.left, ButtonState::Down);
}

#[test]
fn frame_counter_steps_by_one_and_time_never_goes_back() {
    let (mut stage, mut published) = started();
    assert_eq!(published.time.frame, 0);
    stage.begin_update(&mut published, 1_500_000);
    assert_eq!(published.time.frame, 0);
    assert_eq!(stage.active_frame_input.time.frame, 1);
    assert_eq!(stage.active_frame_input.time.micros_since_start, 500_000);
    assert_eq!(stage.active_frame_input.time.last_frame_micros, 1_500_000);
    stage.begin_update(&mut published, 1_200_000);
    assert_eq!(published.time.frame, 1);
    assert_eq!(published.time.micros_since_start, 500_000);
    assert_eq!(stage.active_frame_input.time.frame, 2);
    assert_eq!(stage.active_frame_input.time.micros_since_start, 500_000);
    assert_eq!(stage.active_frame_input.time.last_frame_micros, 1_200_000);
    stage.begin_update(&mut published, 500);
    assert_eq!(published.time.frame, 2);
    assert_eq!(stage.active_frame_input.time.micros_since_start, 500_000);
    stage.begin_update(&mut published, 3_000_000);
    assert_eq!(published.time.frame, 3);
    assert_eq!(stage.active_frame_input.time.micros_since_start, 2_000_000);
}

#[test]
fn previous_published_snapshot_is_kept() {
    let (mut stage, mut published) = started();
    stage.key_down_event(KeyCode::Escape);
    stage.begin_update(&mut published, 1_016_000);
    assert_eq!(stage.last_frame_input.keyboard.get(KeyboardKey::Escape), ButtonState::Up);
    stage.begin_update(&mut published, 1_032_000);
    assert_eq!(stage.last_frame_input.keyboard.get(KeyboardKey::Escape), ButtonState::JustDown);
    assert_eq!(stage.last_frame_input.time.frame, 0);
}

#[test]
fn unknown_mouse_button_is_ignored() {
    let (mut stage, mut published) = started();
    stage.mouse_button_down_event(MouseButton::Unknown, Vec2::new(9.0, 9.0));
    stage.mouse_button_up_event(MouseButton::Unknown, Vec2::new(8.0, 8.0));
    assert_eq!(stage.active_frame_input.mouse.pos, Vec2::ZERO);
    stage.begin_update(&mut published, 1_016_000);
    assert_eq!(published.mouse.left, ButtonState::Up);
    assert_eq!(published.mouse.right, ButtonState::Up);
    assert_eq!(published.mouse.middle, ButtonState::Up);
    assert_eq!(published.mouse.pos, Vec2::ZERO);
}

#[test]
fn pointer_motion_moves_only_the_pointer() {
    let (mut stage, _) = started();
    stage.mouse_motion_event(Vec2::new(-4.0, 12.5));
    assert_eq!(stage.active_frame_input.mouse.pos, Vec2::new(-4.0, 12.5));
    assert_eq!(stage.active_frame_input.mouse.left, ButtonState::Up);
}

#[test]
fn touch_drives_the_left_button() {
    let (mut stage, _) = started();
    stage.touch_event(TouchPhase::Started, 1, Vec2::new(2.0, 3.0));
    assert_eq!(stage.active_frame_input.mouse.left, ButtonState::JustDown);
    assert_eq!(stage.active_frame_input.mouse.pos, Vec2::new(2.0, 3.0));
    stage.touch_event(TouchPhase::Moved, 1, Vec2::new(4.0, 5.0));
    assert_eq!(stage.active_frame_input.mouse.left, ButtonState::JustDown);
    assert_eq!(stage.active_frame_input.mouse.pos, Vec2::new(4.0, 5.0));
    stage.touch_event(TouchPhase::Ended, 1, Vec2::new(6.0, 7.0));
    assert_eq!(stage.active_frame_input.mouse.left, ButtonState::JustUp);
    assert_eq!(stage.active_frame_input.mouse.pos, Vec2::new(6.0, 7.0));
    stage.touch_event(TouchPhase::Cancelled, 1, Vec2::new(8.0, 9.0));
    assert_eq!(stage.active_frame_input.mouse.left, ButtonState::JustUp);
    assert_eq!(stage.active_frame_input.mouse.pos, Vec2::new(6.0, 7.0));
    assert_eq!(stage.active_frame_input.mouse.right, ButtonState::Up);
}

#[test]
fn minimize_and_restore_record_nothing() {
    let (mut stage, mut published) = started();
    stage.window_minimized_event();
    stage.window_restored_event();
    stage.begin_update(&mut published, 1_016_000);
    assert_eq!(published.window.size, Vec2::new(1024.0, 768.0));
    assert_eq!(published.mouse.left, ButtonState::Up);
    assert!(published.keyboard.keys.iter().all(|s| *s == ButtonState::Up));
}
