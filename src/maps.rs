use vstd::prelude::*;

use crate::input::KeyboardKey;

verus! {

#[verifier::external_type_specification]
pub struct ExKeyCode(miniquad::KeyCode);

/// The tracked key that a backend key code stands for: the key of the same
/// name, and none for `Unknown`.
pub open spec fn key_for(keycode: miniquad::KeyCode) -> Option<KeyboardKey> {
    match keycode {
        miniquad::KeyCode::Space => Some(KeyboardKey::Space),
        miniquad::KeyCode::Apostrophe => Some(KeyboardKey::Apostrophe),
        miniquad::KeyCode::Comma => Some(KeyboardKey::Comma),
        miniquad::KeyCode::Minus => Some(KeyboardKey::Minus),
        miniquad::KeyCode::Period => Some(KeyboardKey::Period),
        miniquad::KeyCode::Slash => Some(KeyboardKey::Slash),
        miniquad::KeyCode::Key0 => Some(KeyboardKey::Key0),
        miniquad::KeyCode::Key1 => Some(KeyboardKey::Key1),
        miniquad::KeyCode::Key2 => Some(KeyboardKey::Key2),
        miniquad::KeyCode::Key3 => Some(KeyboardKey::Key3),
        miniquad::KeyCode::Key4 => Some(KeyboardKey::Key4),
        miniquad::KeyCode::Key5 => Some(KeyboardKey::Key5),
        miniquad::KeyCode::Key6 => Some(KeyboardKey::Key6),
        miniquad::KeyCode::Key7 => Some(KeyboardKey::Key7),
        miniquad::KeyCode::Key8 => Some(KeyboardKey::Key8),
        miniquad::KeyCode::Key9 => Some(KeyboardKey::Key9),
        miniquad::KeyCode::Semicolon => Some(KeyboardKey::Semicolon),
        miniquad::KeyCode::Equal => Some(KeyboardKey::Equal),
        miniquad::KeyCode::A => Some(KeyboardKey::A),
        miniquad::KeyCode::B => Some(KeyboardKey::B),
        miniquad::KeyCode::C => Some(KeyboardKey::C),
        miniquad::KeyCode::D => Some(KeyboardKey::D),
        miniquad::KeyCode::E => Some(KeyboardKey::E),
        miniquad::KeyCode::F => Some(KeyboardKey::F),
        miniquad::KeyCode::G => Some(KeyboardKey::G),
        miniquad::KeyCode::H => Some(KeyboardKey::H),
        miniquad::KeyCode::I => Some(KeyboardKey::I),
        miniquad::KeyCode::J => Some(KeyboardKey::J),
        miniquad::KeyCode::K => Some(KeyboardKey::K),
        miniquad::KeyCode::L => Some(KeyboardKey::L),
        miniquad::KeyCode::M => Some(KeyboardKey::M),
        miniquad::KeyCode::N => Some(KeyboardKey::N),
        miniquad::KeyCode::O => Some(KeyboardKey::O),
        miniquad::KeyCode::P => Some(KeyboardKey::P),
        miniquad::KeyCode::Q => Some(KeyboardKey::Q),
        miniquad::KeyCode::R => Some(KeyboardKey::R),
        miniquad::KeyCode::S => Some(KeyboardKey::S),
        miniquad::KeyCode::T => Some(KeyboardKey::T),
        miniquad::KeyCode::U => Some(KeyboardKey::U),
        miniquad::KeyCode::V => Some(KeyboardKey::V),
        miniquad::KeyCode::W => Some(KeyboardKey::W),
        miniquad::KeyCode::X => Some(KeyboardKey::X),
        miniquad::KeyCode::Y => Some(KeyboardKey::Y),
        miniquad::KeyCode::Z => Some(KeyboardKey::Z),
        miniquad::KeyCode::LeftBracket => Some(KeyboardKey::LeftBracket),
        miniquad::KeyCode::Backslash => Some(KeyboardKey::Backslash),
        miniquad::KeyCode::RightBracket => Some(KeyboardKey::RightBracket),
        miniquad::KeyCode::GraveAccent => Some(KeyboardKey::GraveAccent),
        miniquad::KeyCode::World1 => Some(KeyboardKey::World1),
        miniquad::KeyCode::World2 => Some(KeyboardKey::World2),
        miniquad::KeyCode::Escape => Some(KeyboardKey::Escape),
        miniquad::KeyCode::Enter => Some(KeyboardKey::Enter),
        miniquad::KeyCode::Tab => Some(KeyboardKey::Tab),
        miniquad::KeyCode::Backspace => Some(KeyboardKey::Backspace),
        miniquad::KeyCode::Insert => Some(KeyboardKey::Insert),
        miniquad::KeyCode::Delete => Some(KeyboardKey::Delete),
        miniquad::KeyCode::Right => Some(KeyboardKey::Right),
        miniquad::KeyCode::Left => Some(KeyboardKey::Left),
        miniquad::KeyCode::Down => Some(KeyboardKey::Down),
        miniquad::KeyCode::Up => Some(KeyboardKey::Up),
        miniquad::KeyCode::PageUp => Some(KeyboardKey::PageUp),
        miniquad::KeyCode::PageDown => Some(KeyboardKey::PageDown),
        miniquad::KeyCode::Home => Some(KeyboardKey::Home),
        miniquad::KeyCode::End => Some(KeyboardKey::End),
        miniquad::KeyCode::CapsLock => Some(KeyboardKey::CapsLock),
        miniquad::KeyCode::ScrollLock => Some(KeyboardKey::ScrollLock),
        miniquad::KeyCode::NumLock => Some(KeyboardKey::NumLock),
        miniquad::KeyCode::PrintScreen => Some(KeyboardKey::PrintScreen),
        miniquad::KeyCode::Pause => Some(KeyboardKey::Pause),
        miniquad::KeyCode::F1 => Some(KeyboardKey::F1),
        miniquad::KeyCode::F2 => Some(KeyboardKey::F2),
        miniquad::KeyCode::F3 => Some(KeyboardKey::F3),
        miniquad::KeyCode::F4 => Some(KeyboardKey::F4),
        miniquad::KeyCode::F5 => Some(KeyboardKey::F5),
        miniquad::KeyCode::F6 => Some(KeyboardKey::F6),
        miniquad::KeyCode::F7 => Some(KeyboardKey::F7),
        miniquad::KeyCode::F8 => Some(KeyboardKey::F8),
        miniquad::KeyCode::F9 => Some(KeyboardKey::F9),
        miniquad::KeyCode::F10 => Some(KeyboardKey::F10),
        miniquad::KeyCode::F11 => Some(KeyboardKey::F11),
        miniquad::KeyCode::F12 => Some(KeyboardKey::F12),
        miniquad::KeyCode::F13 => Some(KeyboardKey::F13),
        miniquad::KeyCode::F14 => Some(KeyboardKey::F14),
        miniquad::KeyCode::F15 => Some(KeyboardKey::F15),
        miniquad::KeyCode::F16 => Some(KeyboardKey::F16),
        miniquad::KeyCode::F17 => Some(KeyboardKey::F17),
        miniquad::KeyCode::F18 => Some(KeyboardKey::F18),
        miniquad::KeyCode::F19 => Some(KeyboardKey::F19),
        miniquad::KeyCode::F20 => Some(KeyboardKey::F20),
        miniquad::KeyCode::F21 => Some(KeyboardKey::F21),
        miniquad::KeyCode::F22 => Some(KeyboardKey::F22),
        miniquad::KeyCode::F23 => Some(KeyboardKey::F23),
        miniquad::KeyCode::F24 => Some(KeyboardKey::F24),
        miniquad::KeyCode::F25 => Some(KeyboardKey::F25),
        miniquad::KeyCode::Kp0 => Some(KeyboardKey::Kp0),
        miniquad::KeyCode::Kp1 => Some(KeyboardKey::Kp1),
        miniquad::KeyCode::Kp2 => Some(KeyboardKey::Kp2),
        miniquad::KeyCode::Kp3 => Some(KeyboardKey::Kp3),
        miniquad::KeyCode::Kp4 => Some(KeyboardKey::Kp4),
        miniquad::KeyCode::Kp5 => Some(KeyboardKey::Kp5),
        miniquad::KeyCode::Kp6 => Some(KeyboardKey::Kp6),
        miniquad::KeyCode::Kp7 => Some(KeyboardKey::Kp7),
        miniquad::KeyCode::Kp8 => Some(KeyboardKey::Kp8),
        miniquad::KeyCode::Kp9 => Some(KeyboardKey::Kp9),
        miniquad::KeyCode::KpDecimal => Some(KeyboardKey::KpDecimal),
        miniquad::KeyCode::KpDivide => Some(KeyboardKey::KpDivide),
        miniquad::KeyCode::KpMultiply => Some(KeyboardKey::KpMultiply),
        miniquad::KeyCode::KpSubtract => Some(KeyboardKey::KpSubtract),
        miniquad::KeyCode::KpAdd => Some(KeyboardKey::KpAdd),
        miniquad::KeyCode::KpEnter => Some(KeyboardKey::KpEnter),
        miniquad::KeyCode::KpEqual => Some(KeyboardKey::KpEqual),
        miniquad::KeyCode::LeftShift => Some(KeyboardKey::LeftShift),
        miniquad::KeyCode::LeftControl => Some(KeyboardKey::LeftControl),
        miniquad::KeyCode::LeftAlt => Some(KeyboardKey::LeftAlt),
        miniquad::KeyCode::LeftSuper => Some(KeyboardKey::LeftSuper),
        miniquad::KeyCode::RightShift => Some(KeyboardKey::RightShift),
        miniquad::KeyCode::RightControl => Some(KeyboardKey::RightControl),
        miniquad::KeyCode::RightAlt => Some(KeyboardKey::RightAlt),
        miniquad::KeyCode::RightSuper => Some(KeyboardKey::RightSuper),
        miniquad::KeyCode::Menu => Some(KeyboardKey::Menu),
        miniquad::KeyCode::Unknown => None,
    }
}

/// Maps a backend key code to the tracked key of the same name.
pub fn map_to_keyboard_key(keycode: miniquad::KeyCode) -> (r: Option<KeyboardKey>)
    ensures
        r == key_for(keycode),
        r is None <==> keycode is Unknown,
{
    match keycode {
        miniquad::KeyCode::Space => Some(KeyboardKey::Space),
        miniquad::KeyCode::Apostrophe => Some(KeyboardKey::Apostrophe),
        miniquad::KeyCode::Comma => Some(KeyboardKey::Comma),
        miniquad::KeyCode::Minus => Some(KeyboardKey::Minus),
        miniquad::KeyCode::Period => Some(KeyboardKey::Period),
        miniquad::KeyCode::Slash => Some(KeyboardKey::Slash),
        miniquad::KeyCode::Key0 => Some(KeyboardKey::Key0),
        miniquad::KeyCode::Key1 => Some(KeyboardKey::Key1),
        miniquad::KeyCode::Key2 => Some(KeyboardKey::Key2),
        miniquad::KeyCode::Key3 => Some(KeyboardKey::Key3),
        miniquad::KeyCode::Key4 => Some(KeyboardKey::Key4),
        miniquad::KeyCode::Key5 => Some(KeyboardKey::Key5),
        miniquad::KeyCode::Key6 => Some(KeyboardKey::Key6),
        miniquad::KeyCode::Key7 => Some(KeyboardKey::Key7),
        miniquad::KeyCode::Key8 => Some(KeyboardKey::Key8),
        miniquad::KeyCode::Key9 => Some(KeyboardKey::Key9),
        miniquad::KeyCode::Semicolon => Some(KeyboardKey::Semicolon),
        miniquad::KeyCode::Equal => Some(KeyboardKey::Equal),
        miniquad::KeyCode::A => Some(KeyboardKey::A),
        miniquad::KeyCode::B => Some(KeyboardKey::B),
        miniquad::KeyCode::C => Some(KeyboardKey::C),
        miniquad::KeyCode::D => Some(KeyboardKey::D),
        miniquad::KeyCode::E => Some(KeyboardKey::E),
        miniquad::KeyCode::F => Some(KeyboardKey::F),
        miniquad::KeyCode::G => Some(KeyboardKey::G),
        miniquad::KeyCode::H => Some(KeyboardKey::H),
        miniquad::KeyCode::I => Some(KeyboardKey::I),
        miniquad::KeyCode::J => Some(KeyboardKey::J),
        miniquad::KeyCode::K => Some(KeyboardKey::K),
        miniquad::KeyCode::L => Some(KeyboardKey::L),
        miniquad::KeyCode::M => Some(KeyboardKey::M),
        miniquad::KeyCode::N => Some(KeyboardKey::N),
        miniquad::KeyCode::O => Some(KeyboardKey::O),
        miniquad::KeyCode::P => Some(KeyboardKey::P),
        miniquad::KeyCode::Q => Some(KeyboardKey::Q),
        miniquad::KeyCode::R => Some(KeyboardKey::R),
        miniquad::KeyCode::S => Some(KeyboardKey::S),
        miniquad::KeyCode::T => Some(KeyboardKey::T),
        miniquad::KeyCode::U => Some(KeyboardKey::U),
        miniquad::KeyCode::V => Some(KeyboardKey::V),
        miniquad::KeyCode::W => Some(KeyboardKey::W),
        miniquad::KeyCode::X => Some(KeyboardKey::X),
        miniquad::KeyCode::Y => Some(KeyboardKey::Y),
        miniquad::KeyCode::Z => Some(KeyboardKey::Z),
        miniquad::KeyCode::LeftBracket => Some(KeyboardKey::LeftBracket),
        miniquad::KeyCode::Backslash => Some(KeyboardKey::Backslash),
        miniquad::KeyCode::RightBracket => Some(KeyboardKey::RightBracket),
        miniquad::KeyCode::GraveAccent => Some(KeyboardKey::GraveAccent),
        miniquad::KeyCode::World1 => Some(KeyboardKey::World1),
        miniquad::KeyCode::World2 => Some(KeyboardKey::World2),
        miniquad::KeyCode::Escape => Some(KeyboardKey::Escape),
        miniquad::KeyCode::Enter => Some(KeyboardKey::Enter),
        miniquad::KeyCode::Tab => Some(KeyboardKey::Tab),
        miniquad::KeyCode::Backspace => Some(KeyboardKey::Backspace),
        miniquad::KeyCode::Insert => Some(KeyboardKey::Insert),
        miniquad::KeyCode::Delete => Some(KeyboardKey::Delete),
        miniquad::KeyCode::Right => Some(KeyboardKey::Right),
        miniquad::KeyCode::Left => Some(KeyboardKey::Left),
        miniquad::KeyCode::Down => Some(KeyboardKey::Down),
        miniquad::KeyCode::Up => Some(KeyboardKey::Up),
        miniquad::KeyCode::PageUp => Some(KeyboardKey::PageUp),
        miniquad::KeyCode::PageDown => Some(KeyboardKey::PageDown),
        miniquad::KeyCode::Home => Some(KeyboardKey::Home),
        miniquad::KeyCode::End => Some(KeyboardKey::End),
        miniquad::KeyCode::CapsLock => Some(KeyboardKey::CapsLock),
        miniquad::KeyCode::ScrollLock => Some(KeyboardKey::ScrollLock),
        miniquad::KeyCode::NumLock => Some(KeyboardKey::NumLock),
        miniquad::KeyCode::PrintScreen => Some(KeyboardKey::PrintScreen),
        miniquad::KeyCode::Pause => Some(KeyboardKey::Pause),
        miniquad::KeyCode::F1 => Some(KeyboardKey::F1),
        miniquad::KeyCode::F2 => Some(KeyboardKey::F2),
        miniquad::KeyCode::F3 => Some(KeyboardKey::F3),
        miniquad::KeyCode::F4 => Some(KeyboardKey::F4),
        miniquad::KeyCode::F5 => Some(KeyboardKey::F5),
        miniquad::KeyCode::F6 => Some(KeyboardKey::F6),
        miniquad::KeyCode::F7 => Some(KeyboardKey::F7),
        miniquad::KeyCode::F8 => Some(KeyboardKey::F8),
        miniquad::KeyCode::F9 => Some(KeyboardKey::F9),
        miniquad::KeyCode::F10 => Some(KeyboardKey::F10),
        miniquad::KeyCode::F11 => Some(KeyboardKey::F11),
        miniquad::KeyCode::F12 => Some(KeyboardKey::F12),
        miniquad::KeyCode::F13 => Some(KeyboardKey::F13),
        miniquad::KeyCode::F14 => Some(KeyboardKey::F14),
        miniquad::KeyCode::F15 => Some(KeyboardKey::F15),
        miniquad::KeyCode::F16 => Some(KeyboardKey::F16),
        miniquad::KeyCode::F17 => Some(KeyboardKey::F17),
        miniquad::KeyCode::F18 => Some(KeyboardKey::F18),
        miniquad::KeyCode::F19 => Some(KeyboardKey::F19),
        miniquad::KeyCode::F20 => Some(KeyboardKey::F20),
        miniquad::KeyCode::F21 => Some(KeyboardKey::F21),
        miniquad::KeyCode::F22 => Some(KeyboardKey::F22),
        miniquad::KeyCode::F23 => Some(KeyboardKey::F23),
        miniquad::KeyCode::F24 => Some(KeyboardKey::F24),
        miniquad::KeyCode::F25 => Some(KeyboardKey::F25),
        miniquad::KeyCode::Kp0 => Some(KeyboardKey::Kp0),
        miniquad::KeyCode::Kp1 => Some(KeyboardKey::Kp1),
        miniquad::KeyCode::Kp2 => Some(KeyboardKey::Kp2),
        miniquad::KeyCode::Kp3 => Some(KeyboardKey::Kp3),
        miniquad::KeyCode::Kp4 => Some(KeyboardKey::Kp4),
        miniquad::KeyCode::Kp5 => Some(KeyboardKey::Kp5),
        miniquad::KeyCode::Kp6 => Some(KeyboardKey::Kp6),
        miniquad::KeyCode::Kp7 => Some(KeyboardKey::Kp7),
        miniquad::KeyCode::Kp8 => Some(KeyboardKey::Kp8),
        miniquad::KeyCode::Kp9 => Some(KeyboardKey::Kp9),
        miniquad::KeyCode::KpDecimal => Some(KeyboardKey::KpDecimal),
        miniquad::KeyCode::KpDivide => Some(KeyboardKey::KpDivide),
        miniquad::KeyCode::KpMultiply => Some(KeyboardKey::KpMultiply),
        miniquad::KeyCode::KpSubtract => Some(KeyboardKey::KpSubtract),
        miniquad::KeyCode::KpAdd => Some(KeyboardKey::KpAdd),
        miniquad::KeyCode::KpEnter => Some(KeyboardKey::KpEnter),
        miniquad::KeyCode::KpEqual => Some(KeyboardKey::KpEqual),
        miniquad::KeyCode::LeftShift => Some(KeyboardKey::LeftShift),
        miniquad::KeyCode::LeftControl => Some(KeyboardKey::LeftControl),
        miniquad::KeyCode::LeftAlt => Some(KeyboardKey::LeftAlt),
        miniquad::KeyCode::LeftSuper => Some(KeyboardKey::LeftSuper),
        miniquad::KeyCode::RightShift => Some(KeyboardKey::RightShift),
        miniquad::KeyCode::RightControl => Some(KeyboardKey::RightControl),
        miniquad::KeyCode::RightAlt => Some(KeyboardKey::RightAlt),
        miniquad::KeyCode::RightSuper => Some(KeyboardKey::RightSuper),
        miniquad::KeyCode::Menu => Some(KeyboardKey::Menu),
        miniquad::KeyCode::Unknown => None,
    }
}

} // verus!
