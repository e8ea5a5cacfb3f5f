use vstd::prelude::*;

use crate::input::{keys_level, ButtonState, FrameInput, FrameView, Mouse, Time, Window};
use crate::maps::{key_for, map_to_keyboard_key};

verus! {

#[verifier::external_type_specification]
pub struct ExTouchPhase(miniquad::TouchPhase);

/// The double-buffered input of a running application.
///
/// Backend callbacks write into `active_frame_input` only. Once per frame
/// `begin_update` hands a copy of it to the scheduler as the published
/// snapshot and settles the active one for the next frame.
#[derive(Debug)]
pub struct Stage {
    /// Clock reading at start-up, in microseconds.
    pub start_time_micros: u64,
    /// The snapshot that receives events during the current frame.
    pub active_frame_input: FrameInput,
    /// The snapshot that was published before the most recent one.
    pub last_frame_input: FrameInput,
}

/// Model of a `Stage`.
pub struct StageView {
    pub start: u64,
    pub active: FrameView,
    pub last: FrameView,
}

impl View for Stage {
    type V = StageView;

    open spec fn view(&self) -> StageView {
        StageView {
            start: self.start_time_micros,
            active: self.active_frame_input@,
            last: self.last_frame_input@,
        }
    }
}

impl StageView {
    /// A frame counter that can still be incremented.
    pub open spec fn can_publish(self) -> bool {
        self.active.time.frame < usize::MAX
    }

    /// Microseconds from start-up to `now`; zero for a reading before start-up.
    pub open spec fn since_start(self, now: u64) -> u64 {
        if now >= self.start {
            (now - self.start) as u64
        } else {
            0
        }
    }

    /// Time of the next frame: one frame further, elapsed time never
    /// decreasing, and `now` as the last frame's clock reading.
    pub open spec fn next_time(self, now: u64) -> Time {
        let elapsed = self.active.time.micros_since_start;
        Time {
            frame: (self.active.time.frame + 1) as usize,
            micros_since_start: if self.since_start(now) > elapsed {
                self.since_start(now)
            } else {
                elapsed
            },
            last_frame_micros: now,
        }
    }

    /// The stage after publishing, given the snapshot that was published
    /// until now and the clock reading `now`.
    pub open spec fn after_publish(self, published: FrameView, now: u64) -> StageView {
        StageView {
            start: self.start,
            active: FrameView { time: self.next_time(now), ..self.active.level() },
            last: published,
        }
    }

    /// The pointer moved to `pos`.
    pub open spec fn pointer_moved(self, pos: bevy_math::Vec2) -> StageView {
        StageView {
            active: FrameView { mouse: Mouse { pos, ..self.active.mouse }, ..self.active },
            ..self
        }
    }

    /// `button` reported `state` at `pos`; an untracked button changes nothing.
    pub open spec fn button_edge(
        self,
        button: miniquad::MouseButton,
        state: ButtonState,
        pos: bevy_math::Vec2,
    ) -> StageView {
        if button is Unknown {
            self
        } else {
            StageView {
                active: FrameView {
                    mouse: Mouse { pos, ..self.active.mouse.with_button(button, state) },
                    ..self.active
                },
                ..self
            }
        }
    }

    /// The key with code `keycode` reported `state`; an unmapped code changes
    /// nothing.
    pub open spec fn key_edge(self, keycode: miniquad::KeyCode, state: ButtonState) -> StageView {
        match key_for(keycode) {
            Some(key) => StageView { active: self.active.with_key(key, state), ..self },
            None => self,
        }
    }

    /// The window now has the given size.
    pub open spec fn resized(self, size: bevy_math::Vec2) -> StageView {
        StageView { active: FrameView { window: Window { size }, ..self.active }, ..self }
    }

    /// The primary touch point, seen as the left mouse button.
    pub open spec fn touched(self, phase: miniquad::TouchPhase, pos: bevy_math::Vec2) -> StageView {
        match phase {
            miniquad::TouchPhase::Started => self.button_edge(
                miniquad::MouseButton::Left,
                ButtonState::JustDown,
                pos,
            ),
            miniquad::TouchPhase::Ended => self.button_edge(
                miniquad::MouseButton::Left,
                ButtonState::JustUp,
                pos,
            ),
            miniquad::TouchPhase::Moved => self.pointer_moved(pos),
            miniquad::TouchPhase::Cancelled => self,
        }
    }
}

impl Stage {
    /// A stage started at clock reading `now_micros` whose first snapshot is
    /// `frame_input`.
    pub fn new(frame_input: FrameInput, now_micros: u64) -> (r: Stage)
        ensures
            r@ == (StageView { start: now_micros, active: frame_input@, last: frame_input@ }),
    {
        Stage {
            start_time_micros: now_micros,
            active_frame_input: frame_input,
            last_frame_input: frame_input,
        }
    }

    /// Publishes the active snapshot into `published` and prepares the active
    /// one for the next frame: the frame counter moves on by one, the clock is
    /// read as `now_micros`, and every edge state settles into its level.
    pub fn begin_update(&mut self, published: &mut FrameInput, now_micros: u64)
        requires
            old(self)@.can_publish(),
        ensures
            final(published)@ == old(self)@.active,
            final(self)@ == old(self)@.after_publish(old(published)@, now_micros),
    {
        self.last_frame_input = *published;
        *published = self.active_frame_input;

        let since_start = if now_micros >= self.start_time_micros {
            now_micros - self.start_time_micros
        } else {
            0
        };
        let time = self.active_frame_input.time;
        self.active_frame_input.time = Time {
            frame: time.frame + 1,
            micros_since_start: if since_start > time.micros_since_start {
                since_start
            } else {
                time.micros_since_start
            },
            last_frame_micros: now_micros,
        };
        self.active_frame_input.long_state();
    }

    /// The window was resized.
    pub fn resize_event(&mut self, size: bevy_math::Vec2)
        ensures
            final(self)@ == old(self)@.resized(size),
    {
        self.active_frame_input.window = Window { size };
    }

    /// The window was minimized: nothing is recorded.
    pub fn window_minimized_event(&mut self)
        ensures
            final(self)@ == old(self)@,
    {
    }

    /// The window was restored: nothing is recorded.
    pub fn window_restored_event(&mut self)
        ensures
            final(self)@ == old(self)@,
    {
    }

    /// The pointer moved to `pos`.
    pub fn mouse_motion_event(&mut self, pos: bevy_math::Vec2)
        ensures
            final(self)@ == old(self)@.pointer_moved(pos),
    {
        self.active_frame_input.mouse.pos = pos;
    }

    /// Records `state` for `button` with the pointer at `pos`.
    fn mouse_button_event(
        &mut self,
        button: miniquad::MouseButton,
        state: ButtonState,
        pos: bevy_math::Vec2,
    )
        ensures
            final(self)@ == old(self)@.button_edge(button, state, pos),
    {
        match button {
            miniquad::MouseButton::Left => {
                self.active_frame_input.mouse.pos = pos;
                self.active_frame_input.mouse.left = state;
            },
            miniquad::MouseButton::Right => {
                self.active_frame_input.mouse.pos = pos;
                self.active_frame_input.mouse.right = state;
            },
            miniquad::MouseButton::Middle => {
                self.active_frame_input.mouse.pos = pos;
                self.active_frame_input.mouse.middle = state;
            },
            miniquad::MouseButton::Unknown => {},
        }
    }

    /// `button` went down at `pos`.
    pub fn mouse_button_down_event(&mut self, button: miniquad::MouseButton, pos: bevy_math::Vec2)
        ensures
            final(self)@ == old(self)@.button_edge(button, ButtonState::JustDown, pos),
    {
        self.mouse_button_event(button, ButtonState::JustDown, pos);
    }

    /// `button` went up at `pos`.
    pub fn mouse_button_up_event(&mut self, button: miniquad::MouseButton, pos: bevy_math::Vec2)
        ensures
            final(self)@ == old(self)@.button_edge(button, ButtonState::JustUp, pos),
    {
        self.mouse_button_event(button, ButtonState::JustUp, pos);
    }

    /// The key with code `keycode` went down.
    pub fn key_down_event(&mut self, keycode: miniquad::KeyCode)
        ensures
            final(self)@ == old(self)@.key_edge(keycode, ButtonState::JustDown),
    {
        if let Some(keyboard_key) = map_to_keyboard_key(keycode) {
            self.active_frame_input.keyboard.set(keyboard_key, ButtonState::JustDown);
        }
    }

    /// The key with code `keycode` went up.
    pub fn key_up_event(&mut self, keycode: miniquad::KeyCode)
        ensures
            final(self)@ == old(self)@.key_edge(keycode, ButtonState::JustUp),
    {
        if let Some(keyboard_key) = map_to_keyboard_key(keycode) {
            self.active_frame_input.keyboard.set(keyboard_key, ButtonState::JustUp);
        }
    }

    /// A touch event; only the primary touch point is followed, as the left
    /// mouse button.
    pub fn touch_event(&mut self, phase: miniquad::TouchPhase, _id: u64, pos: bevy_math::Vec2)
        ensures
            final(self)@ == old(self)@.touched(phase, pos),
    {
        match phase {
            miniquad::TouchPhase::Started => {
                self.mouse_button_down_event(miniquad::MouseButton::Left, pos);
            },
            miniquad::TouchPhase::Ended => {
                self.mouse_button_up_event(miniquad::MouseButton::Left, pos);
            },
            miniquad::TouchPhase::Moved => {
                self.mouse_motion_event(pos);
            },
            miniquad::TouchPhase::Cancelled => {},
        }
    }
}

} // verus!

verus! {

/// One backend callback, as the stage records it.
pub enum InputEvent {
    PointerMoved(bevy_math::Vec2),
    ButtonDown(miniquad::MouseButton, bevy_math::Vec2),
    ButtonUp(miniquad::MouseButton, bevy_math::Vec2),
    KeyDown(miniquad::KeyCode),
    KeyUp(miniquad::KeyCode),
    Resized(bevy_math::Vec2),
    Touch(miniquad::TouchPhase, bevy_math::Vec2),
    Minimized,
    Restored,
}

impl StageView {
    /// The stage after the callback for `event`.
    pub open spec fn on_event(self, event: InputEvent) -> StageView {
        match event {
            InputEvent::PointerMoved(pos) => self.pointer_moved(pos),
            InputEvent::ButtonDown(button, pos) => self.button_edge(
                button,
                ButtonState::JustDown,
                pos,
            ),
            InputEvent::ButtonUp(button, pos) => self.button_edge(button, ButtonState::JustUp, pos),
            InputEvent::KeyDown(keycode) => self.key_edge(keycode, ButtonState::JustDown),
            InputEvent::KeyUp(keycode) => self.key_edge(keycode, ButtonState::JustUp),
            InputEvent::Resized(size) => self.resized(size),
            InputEvent::Touch(phase, pos) => self.touched(phase, pos),
            InputEvent::Minimized => self,
            InputEvent::Restored => self,
        }
    }
}

/// The stage after the callbacks for `events`, in order.
pub open spec fn apply_events(s: StageView, events: Seq<InputEvent>) -> StageView
    decreases events.len(),
{
    if events.len() == 0 {
        s
    } else {
        apply_events(s, events.drop_last()).on_event(events.last())
    }
}

/// The edge state that a press (`true`) or a release (`false`) records.
pub open spec fn edge_state(down: bool) -> ButtonState {
    if down {
        ButtonState::JustDown
    } else {
        ButtonState::JustUp
    }
}

/// The stage after presses (`true`) and releases (`false`) of `button`, in
/// order, each at its pointer position.
pub open spec fn apply_button_edges(
    s: StageView,
    button: miniquad::MouseButton,
    edges: Seq<(bool, bevy_math::Vec2)>,
) -> StageView
    decreases edges.len(),
{
    if edges.len() == 0 {
        s
    } else {
        apply_button_edges(s, button, edges.drop_last()).button_edge(
            button,
            edge_state(edges.last().0),
            edges.last().1,
        )
    }
}

/// The stage after presses (`true`) and releases (`false`) of the key with
/// code `keycode`, in order.
pub open spec fn apply_key_edges(
    s: StageView,
    keycode: miniquad::KeyCode,
    edges: Seq<bool>,
) -> StageView
    decreases edges.len(),
{
    if edges.len() == 0 {
        s
    } else {
        apply_key_edges(s, keycode, edges.drop_last()).key_edge(keycode, edge_state(edges.last()))
    }
}

/// Within one frame only the last press or release of a mouse button counts:
/// the next publish hands out that edge, and the frame after it holds the
/// matching level (press: `Down`, release: `Up`).
pub proof fn lemma_button_edges_coalesce(
    s: StageView,
    published: FrameView,
    button: miniquad::MouseButton,
    edges: Seq<(bool, bevy_math::Vec2)>,
    now: u64,
)
    requires
        !(button is Unknown),
        edges.len() > 0,
    ensures
        apply_button_edges(s, button, edges).active.mouse.button(button) == Some(
            edge_state(edges.last().0),
        ),
        apply_button_edges(s, button, edges).after_publish(published, now).active.mouse.button(
            button,
        ) == Some(edge_state(edges.last().0).level()),
{
}

/// Within one frame only the last press or release of a key counts: the next
/// publish hands out that edge, and the frame after it holds the matching
/// level (press: `Down`, release: `Up`).
pub proof fn lemma_key_edges_coalesce(
    s: StageView,
    published: FrameView,
    keycode: miniquad::KeyCode,
    edges: Seq<bool>,
    now: u64,
)
    requires
        s.active.wf(),
        key_for(keycode) is Some,
        edges.len() > 0,
    ensures
        apply_key_edges(s, keycode, edges).active.key(key_for(keycode).unwrap()) == edge_state(
            edges.last(),
        ),
        apply_key_edges(s, keycode, edges).after_publish(published, now).active.key(
            key_for(keycode).unwrap(),
        ) == edge_state(edges.last()).level(),
{
    let key = key_for(keycode).unwrap();
    crate::input::lemma_key_index_bound(key);
    lemma_key_edges_keep_wf(s, keycode, edges.drop_last());
}

/// Key edges keep one slot per key index.
proof fn lemma_key_edges_keep_wf(s: StageView, keycode: miniquad::KeyCode, edges: Seq<bool>)
    requires
        s.active.wf(),
    ensures
        apply_key_edges(s, keycode, edges).active.wf(),
    decreases edges.len(),
{
    if edges.len() > 0 {
        lemma_key_edges_keep_wf(s, keycode, edges.drop_last());
    }
}

/// Callbacks never touch the clock, the previous snapshot or the start time.
proof fn lemma_events_keep_time(s: StageView, events: Seq<InputEvent>)
    ensures
        apply_events(s, events).active.time == s.active.time,
        apply_events(s, events).last == s.last,
        apply_events(s, events).start == s.start,
    decreases events.len(),
{
    if events.len() > 0 {
        lemma_events_keep_time(s, events.drop_last());
    }
}

/// Only a resize changes the window.
proof fn lemma_events_keep_window(s: StageView, events: Seq<InputEvent>)
    requires
        forall|i: int| 0 <= i < events.len() ==> !(#[trigger] events[i] is Resized),
    ensures
        apply_events(s, events).active.window == s.active.window,
    decreases events.len(),
{
    if events.len() > 0 {
        let rest = events.drop_last();
        assert forall|i: int| 0 <= i < rest.len() implies !(#[trigger] rest[i] is Resized) by {
            assert(rest[i] == events[i]);
        }
        lemma_events_keep_window(s, rest);
        assert(!(events[events.len() - 1] is Resized));
    }
}

/// Publishing with no event in between changes no button or key beyond
/// settling it: the second publish hands out the first one's buttons and keys
/// settled, and every later publish hands out the same again.
pub proof fn lemma_quiescent_publish(s: StageView, published: FrameView, now1: u64, now2: u64)
    requires
        s.active.wf(),
        s.can_publish(),
        s.after_publish(published, now1).can_publish(),
    ensures
        ({
            let first = s.active;
            let s1 = s.after_publish(published, now1);
            let second = s1.active;
            let s2 = s1.after_publish(first, now2);
            &&& second.mouse == first.mouse.level()
            &&& second.keys == keys_level(first.keys)
            &&& second.is_settled()
            &&& s2.active.mouse == second.mouse
            &&& s2.active.keys == second.keys
        }),
{
    let keys = s.active.keys;
    assert(keys_level(keys_level(keys)) =~= keys_level(keys));
}

/// Each publish moves the frame counter on by exactly one and never moves
/// elapsed time back, whatever callbacks come between two publishes.
pub proof fn lemma_publish_counts_frames(
    s: StageView,
    published: FrameView,
    events: Seq<InputEvent>,
    now: u64,
)
    requires
        s.can_publish(),
    ensures
        ({
            let next = apply_events(s.after_publish(published, now), events).active;
            &&& next.time.frame == s.active.time.frame + 1
            &&& next.time.micros_since_start >= s.active.time.micros_since_start
        }),
{
    lemma_events_keep_time(s.after_publish(published, now), events);
}

/// A resize changes only the active snapshot: the snapshot kept from the last
/// frame is untouched, and the new size is handed out by the next publish,
/// whatever other callbacks come before it.
pub proof fn lemma_resize_visible_after_publish(
    s: StageView,
    size: bevy_math::Vec2,
    events: Seq<InputEvent>,
)
    requires
        forall|i: int| 0 <= i < events.len() ==> !(#[trigger] events[i] is Resized),
    ensures
        s.resized(size).last == s.last,
        apply_events(s.resized(size), events).last == s.last,
        apply_events(s.resized(size), events).active.window == (Window { size }),
{
    lemma_events_keep_time(s.resized(size), events);
    lemma_events_keep_window(s.resized(size), events);
}

} // verus!
