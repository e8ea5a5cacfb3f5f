use vstd::prelude::*;

verus! {

#[verifier::external_type_specification]
#[verifier::external_body]
pub struct ExVec2(bevy_math::Vec2);

#[verifier::external_type_specification]
pub struct ExMouseButton(miniquad::MouseButton);

/// Edge/level state of one button or key.
///
/// `Up` and `Down` are level states; `JustUp` and `JustDown` are edge states
/// that last for exactly one frame.
#[derive(Debug, Clone, Copy, PartialEq, Eq, Structural)]
pub enum ButtonState {
    Up,
    JustUp,
    JustDown,
    Down,
}

impl ButtonState {
    /// The level state that this state settles into at a frame boundary.
    pub open spec fn level(self) -> ButtonState {
        match self {
            ButtonState::JustUp => ButtonState::Up,
            ButtonState::JustDown => ButtonState::Down,
            ButtonState::Up => ButtonState::Up,
            ButtonState::Down => ButtonState::Down,
        }
    }

    /// `Up` or `Down`: a state that no frame boundary changes.
    pub open spec fn is_level(self) -> bool {
        self is Up || self is Down
    }

    /// Maps an edge state to its level state and leaves level states alone.
    pub fn advance_to_level(self) -> (r: ButtonState)
        ensures
            r == self.level(),
    {
        match self {
            ButtonState::JustUp => ButtonState::Up,
            ButtonState::JustDown => ButtonState::Down,
            ButtonState::Up => ButtonState::Up,
            ButtonState::Down => ButtonState::Down,
        }
    }

    /// Settles this state in place (see `advance_to_level`).
    pub fn long_state(&mut self)
        ensures
            *final(self) == old(self).level(),
    {
        *self = self.advance_to_level();
    }
}

impl Default for ButtonState {
    fn default() -> (r: ButtonState)
        ensures
            r == ButtonState::Up,
    {
        ButtonState::Up
    }
}

/// Settling is idempotent, and it never changes a level state.
pub proof fn lemma_level_idempotent(s: ButtonState)
    ensures
        s.level().level() == s.level(),
        s.level().is_level(),
        s is Up ==> s.level() == ButtonState::Up,
        s is Down ==> s.level() == ButtonState::Down,
{
}

/// Frame counter and clock readings, in microseconds.
#[derive(Debug, Clone, Copy, PartialEq, Eq, Structural)]
pub struct Time {
    /// Number of frames published before this one.
    pub frame: usize,
    /// Time since the stage started, never decreasing from frame to frame.
    pub micros_since_start: u64,
    /// Clock reading taken when this snapshot was last advanced.
    pub last_frame_micros: u64,
}

impl Time {
    /// Time at start-up: frame 0, no time elapsed.
    pub fn new() -> (r: Time)
        ensures
            r.frame == 0,
            r.micros_since_start == 0,
            r.last_frame_micros == 0,
    {
        Time { frame: 0, micros_since_start: 0, last_frame_micros: 0 }
    }
}

impl Default for Time {
    fn default() -> (r: Time)
        ensures
            r.frame == 0,
            r.micros_since_start == 0,
            r.last_frame_micros == 0,
    {
        Time::new()
    }
}

/// Window geometry in logical pixels, as the backend reports it.
#[derive(Debug, Clone, Copy)]
pub struct Window {
    /// Width (`x`) and height (`y`).
    pub size: bevy_math::Vec2,
}

/// Pointer position and the three mouse buttons.
#[derive(Debug, Clone, Copy)]
pub struct Mouse {
    pub pos: bevy_math::Vec2,
    pub left: ButtonState,
    pub right: ButtonState,
    pub middle: ButtonState,
}

impl Mouse {
    /// A pointer at `pos` with every button `Up`.
    pub fn new(pos: bevy_math::Vec2) -> (r: Mouse)
        ensures
            r.pos == pos,
            r.left == ButtonState::Up,
            r.right == ButtonState::Up,
            r.middle == ButtonState::Up,
    {
        Mouse { pos, left: ButtonState::Up, right: ButtonState::Up, middle: ButtonState::Up }
    }

    /// State of `button`; `None` for a button that is not tracked.
    pub open spec fn button(self, button: miniquad::MouseButton) -> Option<ButtonState> {
        match button {
            miniquad::MouseButton::Left => Some(self.left),
            miniquad::MouseButton::Right => Some(self.right),
            miniquad::MouseButton::Middle => Some(self.middle),
            miniquad::MouseButton::Unknown => None,
        }
    }

    /// This mouse with `button` set to `state`; unchanged for an untracked button.
    pub open spec fn with_button(self, button: miniquad::MouseButton, state: ButtonState) -> Mouse {
        match button {
            miniquad::MouseButton::Left => Mouse { left: state, ..self },
            miniquad::MouseButton::Right => Mouse { right: state, ..self },
            miniquad::MouseButton::Middle => Mouse { middle: state, ..self },
            miniquad::MouseButton::Unknown => self,
        }
    }

    /// This mouse with every button settled.
    pub open spec fn level(self) -> Mouse {
        Mouse {
            left: self.left.level(),
            right: self.right.level(),
            middle: self.middle.level(),
            ..self
        }
    }

    /// Every button holds a level state.
    pub open spec fn is_settled(self) -> bool {
        self.left.is_level() && self.right.is_level() && self.middle.is_level()
    }
}

/// Number of slots in the keyboard table; every key's index is below it.
pub const KEY_SLOTS: usize = 128;

/// The closed set of physical keys that the keyboard table tracks.
#[derive(Debug, Clone, Copy, PartialEq, Eq, Structural)]
pub enum KeyboardKey {
    Space,
    Apostrophe,
    Comma,
    Minus,
    Period,
    Slash,
    Key0,
    Key1,
    Key2,
    Key3,
    Key4,
    Key5,
    Key6,
    Key7,
    Key8,
    Key9,
    Semicolon,
    Equal,
    A,
    B,
    C,
    D,
    E,
    F,
    G,
    H,
    I,
    J,
    K,
    L,
    M,
    N,
    O,
    P,
    Q,
    R,
    S,
    T,
    U,
    V,
    W,
    X,
    Y,
    Z,
    LeftBracket,
    Backslash,
    RightBracket,
    GraveAccent,
    World1,
    World2,
    Escape,
    Enter,
    Backspace,
    Insert,
    Delete,
    Right,
    Left,
    Down,
    Up,
    PageUp,
    PageDown,
    Home,
    End,
    CapsLock,
    ScrollLock,
    NumLock,
    PrintScreen,
    Pause,
    F1,
    F2,
    F3,
    F4,
    F5,
    F6,
    F7,
    F8,
    F9,
    F10,
    F11,
    F12,
    F13,
    F14,
    F15,
    F16,
    F17,
    F18,
    F19,
    F20,
    F21,
    F22,
    F23,
    F24,
    F25,
    Kp0,
    Kp1,
    Kp2,
    Kp3,
    Kp4,
    Kp5,
    Kp6,
    Kp7,
    Kp8,
    Kp9,
    KpDecimal,
    KpDivide,
    KpMultiply,
    KpSubtract,
    KpAdd,
    KpEnter,
    KpEqual,
    Tab,
    LeftShift,
    LeftControl,
    LeftAlt,
    LeftSuper,
    RightShift,
    RightControl,
    RightAlt,
    RightSuper,
    Menu,
}

impl KeyboardKey {
    /// Slot of this key in the keyboard table: its position in declaration order.
    pub open spec fn spec_index(self) -> int {
        match self {
            KeyboardKey::Space => 0,
            KeyboardKey::Apostrophe => 1,
            KeyboardKey::Comma => 2,
            KeyboardKey::Minus => 3,
            KeyboardKey::Period => 4,
            KeyboardKey::Slash => 5,
            KeyboardKey::Key0 => 6,
            KeyboardKey::Key1 => 7,
            KeyboardKey::Key2 => 8,
            KeyboardKey::Key3 => 9,
            KeyboardKey::Key4 => 10,
            KeyboardKey::Key5 => 11,
            KeyboardKey::Key6 => 12,
            KeyboardKey::Key7 => 13,
            KeyboardKey::Key8 => 14,
            KeyboardKey::Key9 => 15,
            KeyboardKey::Semicolon => 16,
            KeyboardKey::Equal => 17,
            KeyboardKey::A => 18,
            KeyboardKey::B => 19,
            KeyboardKey::C => 20,
            KeyboardKey::D => 21,
            KeyboardKey::E => 22,
            KeyboardKey::F => 23,
            KeyboardKey::G => 24,
            KeyboardKey::H => 25,
            KeyboardKey::I => 26,
            KeyboardKey::J => 27,
            KeyboardKey::K => 28,
            KeyboardKey::L => 29,
            KeyboardKey::M => 30,
            KeyboardKey::N => 31,
            KeyboardKey::O => 32,
            KeyboardKey::P => 33,
            KeyboardKey::Q => 34,
            KeyboardKey::R => 35,
            KeyboardKey::S => 36,
            KeyboardKey::T => 37,
            KeyboardKey::U => 38,
            KeyboardKey::V => 39,
            KeyboardKey::W => 40,
            KeyboardKey::X => 41,
            KeyboardKey::Y => 42,
            KeyboardKey::Z => 43,
            KeyboardKey::LeftBracket => 44,
            KeyboardKey::Backslash => 45,
            KeyboardKey::RightBracket => 46,
            KeyboardKey::GraveAccent => 47,
            KeyboardKey::World1 => 48,
            KeyboardKey::World2 => 49,
            KeyboardKey::Escape => 50,
            KeyboardKey::Enter => 51,
            KeyboardKey::Backspace => 52,
            KeyboardKey::Insert => 53,
            KeyboardKey::Delete => 54,
            KeyboardKey::Right => 55,
            KeyboardKey::Left => 56,
            KeyboardKey::Down => 57,
            KeyboardKey::Up => 58,
            KeyboardKey::PageUp => 59,
            KeyboardKey::PageDown => 60,
            KeyboardKey::Home => 61,
            KeyboardKey::End => 62,
            KeyboardKey::CapsLock => 63,
            KeyboardKey::ScrollLock => 64,
            KeyboardKey::NumLock => 65,
            KeyboardKey::PrintScreen => 66,
            KeyboardKey::Pause => 67,
            KeyboardKey::F1 => 68,
            KeyboardKey::F2 => 69,
            KeyboardKey::F3 => 70,
            KeyboardKey::F4 => 71,
            KeyboardKey::F5 => 72,
            KeyboardKey::F6 => 73,
            KeyboardKey::F7 => 74,
            KeyboardKey::F8 => 75,
            KeyboardKey::F9 => 76,
            KeyboardKey::F10 => 77,
            KeyboardKey::F11 => 78,
            KeyboardKey::F12 => 79,
            KeyboardKey::F13 => 80,
            KeyboardKey::F14 => 81,
            KeyboardKey::F15 => 82,
            KeyboardKey::F16 => 83,
            KeyboardKey::F17 => 84,
            KeyboardKey::F18 => 85,
            KeyboardKey::F19 => 86,
            KeyboardKey::F20 => 87,
            KeyboardKey::F21 => 88,
            KeyboardKey::F22 => 89,
            KeyboardKey::F23 => 90,
            KeyboardKey::F24 => 91,
            KeyboardKey::F25 => 92,
            KeyboardKey::Kp0 => 93,
            KeyboardKey::Kp1 => 94,
            KeyboardKey::Kp2 => 95,
            KeyboardKey::Kp3 => 96,
            KeyboardKey::Kp4 => 97,
            KeyboardKey::Kp5 => 98,
            KeyboardKey::Kp6 => 99,
            KeyboardKey::Kp7 => 100,
            KeyboardKey::Kp8 => 101,
            KeyboardKey::Kp9 => 102,
            KeyboardKey::KpDecimal => 103,
            KeyboardKey::KpDivide => 104,
            KeyboardKey::KpMultiply => 105,
            KeyboardKey::KpSubtract => 106,
            KeyboardKey::KpAdd => 107,
            KeyboardKey::KpEnter => 108,
            KeyboardKey::KpEqual => 109,
            KeyboardKey::Tab => 110,
            KeyboardKey::LeftShift => 111,
            KeyboardKey::LeftControl => 112,
            KeyboardKey::LeftAlt => 113,
            KeyboardKey::LeftSuper => 114,
            KeyboardKey::RightShift => 115,
            KeyboardKey::RightControl => 116,
            KeyboardKey::RightAlt => 117,
            KeyboardKey::RightSuper => 118,
            KeyboardKey::Menu => 119,
        }
    }

    /// Slot of this key in the keyboard table.
    pub fn index(self) -> (r: usize)
        ensures
            r == self.spec_index(),
            r < KEY_SLOTS,
    {
        match self {
            KeyboardKey::Space => 0,
            KeyboardKey::Apostrophe => 1,
            KeyboardKey::Comma => 2,
            KeyboardKey::Minus => 3,
            KeyboardKey::Period => 4,
            KeyboardKey::Slash => 5,
            KeyboardKey::Key0 => 6,
            KeyboardKey::Key1 => 7,
            KeyboardKey::Key2 => 8,
            KeyboardKey::Key3 => 9,
            KeyboardKey::Key4 => 10,
            KeyboardKey::Key5 => 11,
            KeyboardKey::Key6 => 12,
            KeyboardKey::Key7 => 13,
            KeyboardKey::Key8 => 14,
            KeyboardKey::Key9 => 15,
            KeyboardKey::Semicolon => 16,
            KeyboardKey::Equal => 17,
            KeyboardKey::A => 18,
            KeyboardKey::B => 19,
            KeyboardKey::C => 20,
            KeyboardKey::D => 21,
            KeyboardKey::E => 22,
            KeyboardKey::F => 23,
            KeyboardKey::G => 24,
            KeyboardKey::H => 25,
            KeyboardKey::I => 26,
            KeyboardKey::J => 27,
            KeyboardKey::K => 28,
            KeyboardKey::L => 29,
            KeyboardKey::M => 30,
            KeyboardKey::N => 31,
            KeyboardKey::O => 32,
            KeyboardKey::P => 33,
            KeyboardKey::Q => 34,
            KeyboardKey::R => 35,
            KeyboardKey::S => 36,
            KeyboardKey::T => 37,
            KeyboardKey::U => 38,
            KeyboardKey::V => 39,
            KeyboardKey::W => 40,
            KeyboardKey::X => 41,
            KeyboardKey::Y => 42,
            KeyboardKey::Z => 43,
            KeyboardKey::LeftBracket => 44,
            KeyboardKey::Backslash => 45,
            KeyboardKey::RightBracket => 46,
            KeyboardKey::GraveAccent => 47,
            KeyboardKey::World1 => 48,
            KeyboardKey::World2 => 49,
            KeyboardKey::Escape => 50,
            KeyboardKey::Enter => 51,
            KeyboardKey::Backspace => 52,
            KeyboardKey::Insert => 53,
            KeyboardKey::Delete => 54,
            KeyboardKey::Right => 55,
            KeyboardKey::Left => 56,
            KeyboardKey::Down => 57,
            KeyboardKey::Up => 58,
            KeyboardKey::PageUp => 59,
            KeyboardKey::PageDown => 60,
            KeyboardKey::Home => 61,
            KeyboardKey::End => 62,
            KeyboardKey::CapsLock => 63,
            KeyboardKey::ScrollLock => 64,
            KeyboardKey::NumLock => 65,
            KeyboardKey::PrintScreen => 66,
            KeyboardKey::Pause => 67,
            KeyboardKey::F1 => 68,
            KeyboardKey::F2 => 69,
            KeyboardKey::F3 => 70,
            KeyboardKey::F4 => 71,
            KeyboardKey::F5 => 72,
            KeyboardKey::F6 => 73,
            KeyboardKey::F7 => 74,
            KeyboardKey::F8 => 75,
            KeyboardKey::F9 => 76,
            KeyboardKey::F10 => 77,
            KeyboardKey::F11 => 78,
            KeyboardKey::F12 => 79,
            KeyboardKey::F13 => 80,
            KeyboardKey::F14 => 81,
            KeyboardKey::F15 => 82,
            KeyboardKey::F16 => 83,
            KeyboardKey::F17 => 84,
            KeyboardKey::F18 => 85,
            KeyboardKey::F19 => 86,
            KeyboardKey::F20 => 87,
            KeyboardKey::F21 => 88,
            KeyboardKey::F22 => 89,
            KeyboardKey::F23 => 90,
            KeyboardKey::F24 => 91,
            KeyboardKey::F25 => 92,
            KeyboardKey::Kp0 => 93,
            KeyboardKey::Kp1 => 94,
            KeyboardKey::Kp2 => 95,
            KeyboardKey::Kp3 => 96,
            KeyboardKey::Kp4 => 97,
            KeyboardKey::Kp5 => 98,
            KeyboardKey::Kp6 => 99,
            KeyboardKey::Kp7 => 100,
            KeyboardKey::Kp8 => 101,
            KeyboardKey::Kp9 => 102,
            KeyboardKey::KpDecimal => 103,
            KeyboardKey::KpDivide => 104,
            KeyboardKey::KpMultiply => 105,
            KeyboardKey::KpSubtract => 106,
            KeyboardKey::KpAdd => 107,
            KeyboardKey::KpEnter => 108,
            KeyboardKey::KpEqual => 109,
            KeyboardKey::Tab => 110,
            KeyboardKey::LeftShift => 111,
            KeyboardKey::LeftControl => 112,
            KeyboardKey::LeftAlt => 113,
            KeyboardKey::LeftSuper => 114,
            KeyboardKey::RightShift => 115,
            KeyboardKey::RightControl => 116,
            KeyboardKey::RightAlt => 117,
            KeyboardKey::RightSuper => 118,
            KeyboardKey::Menu => 119,
        }
    }
}

/// Every key has a slot in the keyboard table.
pub proof fn lemma_key_index_bound(key: KeyboardKey)
    ensures
        0 <= key.spec_index() < KEY_SLOTS,
{
}

impl From<KeyboardKey> for usize {
    fn from(val: KeyboardKey) -> (r: usize)
        ensures
            r == val.spec_index(),
    {
        val.index()
    }
}

impl vstd::std_specs::convert::FromSpecImpl<KeyboardKey> for usize {
    open spec fn obeys_from_spec() -> bool {
        true
    }

    open spec fn from_spec(v: KeyboardKey) -> usize {
        v.spec_index() as usize
    }
}

/// State of every tracked key, one slot per key index.
#[derive(Debug, Clone, Copy)]
pub struct KeyboardInput {
    pub keys: [ButtonState; 128],
}

impl View for KeyboardInput {
    type V = Seq<ButtonState>;

    open spec fn view(&self) -> Seq<ButtonState> {
        self.keys@
    }
}

/// Every slot of `keys` holds a level state.
pub open spec fn keys_settled(keys: Seq<ButtonState>) -> bool {
    forall|i: int| 0 <= i < keys.len() ==> (#[trigger] keys[i]).is_level()
}

/// `keys` with every slot settled.
pub open spec fn keys_level(keys: Seq<ButtonState>) -> Seq<ButtonState> {
    keys.map_values(|s: ButtonState| s.level())
}

impl KeyboardInput {
    /// A table in which every slot is `Up`.
    pub fn new() -> (r: KeyboardInput)
        ensures
            r@ == Seq::new(KEY_SLOTS as nat, |i: int| ButtonState::Up),
    {
        let r = KeyboardInput { keys: [ButtonState::Up; 128] };
        assert(r@ =~= Seq::new(KEY_SLOTS as nat, |i: int| ButtonState::Up));
        r
    }

    /// Settles every slot (see `ButtonState::advance_to_level`).
    pub fn long_state(&mut self)
        ensures
            final(self)@ == keys_level(old(self)@),
    {
        let mut i: usize = 0;
        while i < KEY_SLOTS
            invariant
                i <= KEY_SLOTS,
                self@.len() == KEY_SLOTS,
                forall|j: int| 0 <= j < i ==> #[trigger] self@[j] == old(self)@[j].level(),
                forall|j: int| i <= j < KEY_SLOTS ==> #[trigger] self@[j] == old(self)@[j],
            decreases KEY_SLOTS - i,
        {
            let settled = self.keys[i].advance_to_level();
            self.keys[i] = settled;
            i = i + 1;
        }
        assert(self@ =~= keys_level(old(self)@));
    }

    /// The state recorded for `key`.
    pub fn get(&self, key: KeyboardKey) -> (r: ButtonState)
        ensures
            r == self@[key.spec_index()],
    {
        let index: usize = usize::from(key);
        self.keys[index]
    }

    /// Records `state` for `key` and returns the state it replaces; no other
    /// slot changes.
    pub fn set(&mut self, key: KeyboardKey, state: ButtonState) -> (r: ButtonState)
        ensures
            r == old(self)@[key.spec_index()],
            final(self)@ == old(self)@.update(key.spec_index(), state),
    {
        let index: usize = usize::from(key);
        let old_state = self.keys[index];
        self.keys[index] = state;
        assert(self@ =~= old(self)@.update(key.spec_index(), state));
        old_state
    }
}

impl Default for KeyboardInput {
    fn default() -> (r: KeyboardInput)
        ensures
            r@ == Seq::new(KEY_SLOTS as nat, |i: int| ButtonState::Up),
    {
        KeyboardInput::new()
    }
}

/// Everything that application logic reads of one frame's input.
#[derive(Debug, Clone, Copy)]
pub struct FrameInput {
    pub time: Time,
    pub window: Window,
    pub mouse: Mouse,
    pub keyboard: KeyboardInput,
}

/// Model of a `FrameInput`: the keyboard table seen as a sequence of states.
pub struct FrameView {
    pub time: Time,
    pub window: Window,
    pub mouse: Mouse,
    pub keys: Seq<ButtonState>,
}

impl View for FrameInput {
    type V = FrameView;

    open spec fn view(&self) -> FrameView {
        FrameView { time: self.time, window: self.window, mouse: self.mouse, keys: self.keyboard@ }
    }
}

impl FrameView {
    /// The snapshot that nothing has been recorded in yet.
    pub open spec fn initial(window: Window, pos: bevy_math::Vec2) -> FrameView {
        FrameView {
            time: Time { frame: 0, micros_since_start: 0, last_frame_micros: 0 },
            window,
            mouse: Mouse {
                pos,
                left: ButtonState::Up,
                right: ButtonState::Up,
                middle: ButtonState::Up,
            },
            keys: Seq::new(KEY_SLOTS as nat, |i: int| ButtonState::Up),
        }
    }

    /// This snapshot with every button and key settled.
    pub open spec fn level(self) -> FrameView {
        FrameView { mouse: self.mouse.level(), keys: keys_level(self.keys), ..self }
    }

    /// The keyboard table has one slot per key index.
    pub open spec fn wf(self) -> bool {
        self.keys.len() == KEY_SLOTS
    }

    /// Every button and key holds a level state.
    pub open spec fn is_settled(self) -> bool {
        self.mouse.is_settled() && keys_settled(self.keys)
    }

    /// State recorded for `key`.
    pub open spec fn key(self, key: KeyboardKey) -> ButtonState {
        self.keys[key.spec_index()]
    }

    /// This snapshot with `key` set to `state`.
    pub open spec fn with_key(self, key: KeyboardKey, state: ButtonState) -> FrameView {
        FrameView { keys: self.keys.update(key.spec_index(), state), ..self }
    }
}

impl FrameInput {
    /// The snapshot at start-up: frame 0, pointer at `pos`, everything `Up`.
    pub fn new(window: Window, pos: bevy_math::Vec2) -> (r: FrameInput)
        ensures
            r@ == FrameView::initial(window, pos),
    {
        FrameInput {
            time: Time::new(),
            window,
            mouse: Mouse::new(pos),
            keyboard: KeyboardInput::new(),
        }
    }

    /// Settles every button and key; time, window and pointer are unchanged.
    pub fn long_state(&mut self)
        ensures
            final(self)@ == old(self)@.level(),
    {
        self.keyboard.long_state();
        self.mouse.left.long_state();
        self.mouse.right.long_state();
        self.mouse.middle.long_state();
    }
}

} // verus!
