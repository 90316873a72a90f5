//! The state of the keyboard and the mouse between frames.

use vstd::prelude::*;
use crate::fixed::Fixed;
use crate::maths::vec::Vec2f;

verus! {

/// Number of key states kept.
pub const KEY_STATES: usize = 108;

/// Number of mouse button states kept.
pub const BUTTON_STATES: usize = 6;

/// A key of the keyboard.
#[derive(Clone, Copy, Debug, PartialEq, Eq, Structural)]
pub enum KeyCode {
    Digit0,
    Digit1,
    Digit2,
    Digit3,
    Digit4,
    Digit5,
    Digit6,
    Digit7,
    Digit8,
    Digit9,
    A,
    B,
    C,
    D,
    E,
    F,
    G,
    H,
    I,
    J,
    K,
    L,
    M,
    N,
    O,
    P,
    Q,
    R,
    S,
    T,
    U,
    V,
    W,
    X,
    Y,
    Z,
    F1,
    F2,
    F3,
    F4,
    F5,
    F6,
    F7,
    F8,
    F9,
    F10,
    F11,
    F12,
    Escape,
    Space,
    Enter,
    Tab,
    Backspace,
    Insert,
    Delete,
    Home,
    End,
    PageUp,
    PageDown,
    ArrowLeft,
    ArrowUp,
    ArrowRight,
    ArrowDown,
    ShiftLeft,
    ShiftRight,
    ControlLeft,
    ControlRight,
    AltLeft,
    AltRight,
    SuperLeft,
    SuperRight,
    CapsLock,
    NumLock,
    ScrollLock,
    PrintScreen,
    Pause,
    Minus,
    Equal,
    BracketLeft,
    BracketRight,
    Backslash,
    Semicolon,
    Quote,
    Backquote,
    Comma,
    Period,
    Slash,
    Numpad0,
    Numpad1,
    Numpad2,
    Numpad3,
    Numpad4,
    Numpad5,
    Numpad6,
    Numpad7,
    Numpad8,
    Numpad9,
    NumpadAdd,
    NumpadSubtract,
    NumpadMultiply,
    NumpadDivide,
    NumpadDecimal,
    NumpadEnter,
    ContextMenu,
    IntlBackslash,
    Fn,
}

impl KeyCode {
    /// The place of the key in the table of states.
    pub open spec fn spec_index(self) -> usize {
        match self {
            KeyCode::Digit0 => 0,
            KeyCode::Digit1 => 1,
            KeyCode::Digit2 => 2,
            KeyCode::Digit3 => 3,
            KeyCode::Digit4 => 4,
            KeyCode::Digit5 => 5,
            KeyCode::Digit6 => 6,
            KeyCode::Digit7 => 7,
            KeyCode::Digit8 => 8,
            KeyCode::Digit9 => 9,
            KeyCode::A => 10,
            KeyCode::B => 11,
            KeyCode::C => 12,
            KeyCode::D => 13,
            KeyCode::E => 14,
            KeyCode::F => 15,
            KeyCode::G => 16,
            KeyCode::H => 17,
            KeyCode::I => 18,
            KeyCode::J => 19,
            KeyCode::K => 20,
            KeyCode::L => 21,
            KeyCode::M => 22,
            KeyCode::N => 23,
            KeyCode::O => 24,
            KeyCode::P => 25,
            KeyCode::Q => 26,
            KeyCode::R => 27,
            KeyCode::S => 28,
            KeyCode::T => 29,
            KeyCode::U => 30,
            KeyCode::V => 31,
            KeyCode::W => 32,
            KeyCode::X => 33,
            KeyCode::Y => 34,
            KeyCode::Z => 35,
            KeyCode::F1 => 36,
            KeyCode::F2 => 37,
            KeyCode::F3 => 38,
            KeyCode::F4 => 39,
            KeyCode::F5 => 40,
            KeyCode::F6 => 41,
            KeyCode::F7 => 42,
            KeyCode::F8 => 43,
            KeyCode::F9 => 44,
            KeyCode::F10 => 45,
            KeyCode::F11 => 46,
            KeyCode::F12 => 47,
            KeyCode::Escape => 48,
            KeyCode::Space => 49,
            KeyCode::Enter => 50,
            KeyCode::Tab => 51,
            KeyCode::Backspace => 52,
            KeyCode::Insert => 53,
            KeyCode::Delete => 54,
            KeyCode::Home => 55,
            KeyCode::End => 56,
            KeyCode::PageUp => 57,
            KeyCode::PageDown => 58,
            KeyCode::ArrowLeft => 59,
            KeyCode::ArrowUp => 60,
            KeyCode::ArrowRight => 61,
            KeyCode::ArrowDown => 62,
            KeyCode::ShiftLeft => 63,
            KeyCode::ShiftRight => 64,
            KeyCode::ControlLeft => 65,
            KeyCode::ControlRight => 66,
            KeyCode::AltLeft => 67,
            KeyCode::AltRight => 68,
            KeyCode::SuperLeft => 69,
            KeyCode::SuperRight => 70,
            KeyCode::CapsLock => 71,
            KeyCode::NumLock => 72,
            KeyCode::ScrollLock => 73,
            KeyCode::PrintScreen => 74,
            KeyCode::Pause => 75,
            KeyCode::Minus => 76,
            KeyCode::Equal => 77,
            KeyCode::BracketLeft => 78,
            KeyCode::BracketRight => 79,
            KeyCode::Backslash => 80,
            KeyCode::Semicolon => 81,
            KeyCode::Quote => 82,
            KeyCode::Backquote => 83,
            KeyCode::Comma => 84,
            KeyCode::Period => 85,
            KeyCode::Slash => 86,
            KeyCode::Numpad0 => 87,
            KeyCode::Numpad1 => 88,
            KeyCode::Numpad2 => 89,
            KeyCode::Numpad3 => 90,
            KeyCode::Numpad4 => 91,
            KeyCode::Numpad5 => 92,
            KeyCode::Numpad6 => 93,
            KeyCode::Numpad7 => 94,
            KeyCode::Numpad8 => 95,
            KeyCode::Numpad9 => 96,
            KeyCode::NumpadAdd => 97,
            KeyCode::NumpadSubtract => 98,
            KeyCode::NumpadMultiply => 99,
            KeyCode::NumpadDivide => 100,
            KeyCode::NumpadDecimal => 101,
            KeyCode::NumpadEnter => 102,
            KeyCode::ContextMenu => 103,
            KeyCode::IntlBackslash => 104,
            KeyCode::Fn => 105,
        }
    }

    /// The place of the key in the table of states.
    #[verifier::when_used_as_spec(spec_index)]
    pub fn index(self) -> (r: usize)
        ensures
            r == self.spec_index(),
            r < KEY_STATES,
    {
        match self {
            KeyCode::Digit0 => 0,
            KeyCode::Digit1 => 1,
            KeyCode::Digit2 => 2,
            KeyCode::Digit3 => 3,
            KeyCode::Digit4 => 4,
            KeyCode::Digit5 => 5,
            KeyCode::Digit6 => 6,
            KeyCode::Digit7 => 7,
            KeyCode::Digit8 => 8,
            KeyCode::Digit9 => 9,
            KeyCode::A => 10,
            KeyCode::B => 11,
            KeyCode::C => 12,
            KeyCode::D => 13,
            KeyCode::E => 14,
            KeyCode::F => 15,
            KeyCode::G => 16,
            KeyCode::H => 17,
            KeyCode::I => 18,
            KeyCode::J => 19,
            KeyCode::K => 20,
            KeyCode::L => 21,
            KeyCode::M => 22,
            KeyCode::N => 23,
            KeyCode::O => 24,
            KeyCode::P => 25,
            KeyCode::Q => 26,
            KeyCode::R => 27,
            KeyCode::S => 28,
            KeyCode::T => 29,
            KeyCode::U => 30,
            KeyCode::V => 31,
            KeyCode::W => 32,
            KeyCode::X => 33,
            KeyCode::Y => 34,
            KeyCode::Z => 35,
            KeyCode::F1 => 36,
            KeyCode::F2 => 37,
            KeyCode::F3 => 38,
            KeyCode::F4 => 39,
            KeyCode::F5 => 40,
            KeyCode::F6 => 41,
            KeyCode::F7 => 42,
            KeyCode::F8 => 43,
            KeyCode::F9 => 44,
            KeyCode::F10 => 45,
            KeyCode::F11 => 46,
            KeyCode::F12 => 47,
            KeyCode::Escape => 48,
            KeyCode::Space => 49,
            KeyCode::Enter => 50,
            KeyCode::Tab => 51,
            KeyCode::Backspace => 52,
            KeyCode::Insert => 53,
            KeyCode::Delete => 54,
            KeyCode::Home => 55,
            KeyCode::End => 56,
            KeyCode::PageUp => 57,
            KeyCode::PageDown => 58,
            KeyCode::ArrowLeft => 59,
            KeyCode::ArrowUp => 60,
            KeyCode::ArrowRight => 61,
            KeyCode::ArrowDown => 62,
            KeyCode::ShiftLeft => 63,
            KeyCode::ShiftRight => 64,
            KeyCode::ControlLeft => 65,
            KeyCode::ControlRight => 66,
            KeyCode::AltLeft => 67,
            KeyCode::AltRight => 68,
            KeyCode::SuperLeft => 69,
            KeyCode::SuperRight => 70,
            KeyCode::CapsLock => 71,
            KeyCode::NumLock => 72,
            KeyCode::ScrollLock => 73,
            KeyCode::PrintScreen => 74,
            KeyCode::Pause => 75,
            KeyCode::Minus => 76,
            KeyCode::Equal => 77,
            KeyCode::BracketLeft => 78,
            KeyCode::BracketRight => 79,
            KeyCode::Backslash => 80,
            KeyCode::Semicolon => 81,
            KeyCode::Quote => 82,
            KeyCode::Backquote => 83,
            KeyCode::Comma => 84,
            KeyCode::Period => 85,
            KeyCode::Slash => 86,
            KeyCode::Numpad0 => 87,
            KeyCode::Numpad1 => 88,
            KeyCode::Numpad2 => 89,
            KeyCode::Numpad3 => 90,
            KeyCode::Numpad4 => 91,
            KeyCode::Numpad5 => 92,
            KeyCode::Numpad6 => 93,
            KeyCode::Numpad7 => 94,
            KeyCode::Numpad8 => 95,
            KeyCode::Numpad9 => 96,
            KeyCode::NumpadAdd => 97,
            KeyCode::NumpadSubtract => 98,
            KeyCode::NumpadMultiply => 99,
            KeyCode::NumpadDivide => 100,
            KeyCode::NumpadDecimal => 101,
            KeyCode::NumpadEnter => 102,
            KeyCode::ContextMenu => 103,
            KeyCode::IntlBackslash => 104,
            KeyCode::Fn => 105,
        }
    }
}

/// A button of the mouse.
#[derive(Clone, Copy, Debug, PartialEq, Eq, Structural)]
pub enum MouseButton {
    Left,
    Right,
    Middle,
    Back,
    Forward,
    Other,
}

impl MouseButton {
    /// The place of the button in the table of states.
    pub open spec fn spec_index(self) -> usize {
        match self {
            MouseButton::Left => 0,
            MouseButton::Right => 1,
            MouseButton::Middle => 2,
            MouseButton::Back => 3,
            MouseButton::Forward => 4,
            MouseButton::Other => 5,
        }
    }

    /// The place of the button in the table of states.
    #[verifier::when_used_as_spec(spec_index)]
    pub fn index(self) -> (r: usize)
        ensures
            r == self.spec_index(),
            r < BUTTON_STATES,
    {
        match self {
            MouseButton::Left => 0,
            MouseButton::Right => 1,
            MouseButton::Middle => 2,
            MouseButton::Back => 3,
            MouseButton::Forward => 4,
            MouseButton::Other => 5,
        }
    }
}

/// What the keyboard does.
#[derive(Clone, Copy, Debug, PartialEq, Eq, Structural)]
pub enum KeyboardEvent {
    KeyPressed(KeyCode),
    KeyReleased(KeyCode),
}

/// What the mouse does.
#[derive(Clone, Copy, Debug, PartialEq, Eq, Structural)]
pub enum PointerEvent {
    MouseMoved { delta: Vec2f },
    MouseButtonPressed(MouseButton),
    MouseButtonReleased(MouseButton),
    MouseEntered,
    MouseExited,
}

/// What happens to the window.
#[derive(Clone, Copy, Debug, PartialEq, Eq, Structural)]
pub enum Event {
    PointerEvent(PointerEvent),
    KeyboardEvent(KeyboardEvent),
    /// Anything that is neither of the keyboard nor of the mouse.
    Other,
}

/// Whether a key or button went down since the last frame, and whether it
/// is down.
#[derive(Clone, Copy, Debug, PartialEq, Eq, Structural)]
pub struct State {
    pub pressed: bool,
    pub held: bool,
}

/// A table of `count` states, none pressed and none held.
pub fn idle_states(count: usize) -> (r: Vec<State>)
    ensures
        r@.len() == count,
        forall|i: int| 0 <= i < count ==> r@[i] == (State { pressed: false, held: false }),
{
    let mut r: Vec<State> = Vec::new();
    while r.len() < count
        invariant
            r@.len() <= count,
            forall|i: int| 0 <= i < r@.len() ==> r@[i] == (State { pressed: false, held: false }),
        decreases count - r.len(),
    {
        r.push(State { pressed: false, held: false });
    }
    r
}

/// The table with no state pressed; what is held stays held.
pub open spec fn released(states: Seq<State>) -> Seq<State> {
    Seq::new(states.len(), |i: int| State { pressed: false, held: states[i].held })
}

fn release_all(states: &mut Vec<State>)
    ensures
        final(states)@ == released(old(states)@),
{
    let mut i: usize = 0;
    while i < states.len()
        invariant
            i <= states@.len(),
            states@.len() == old(states)@.len(),
            forall|k: int| 0 <= k < i ==> states@[k] == released(old(states)@)[k],
            forall|k: int| i <= k < states@.len() ==> states@[k] == old(states)@[k],
        decreases states@.len() - i,
    {
        let held: bool = states[i].held;
        states[i] = State { pressed: false, held };
        i = i + 1;
    }
    assert(states@ =~= released(old(states)@));
}

/// What an event of the mouse makes of the mouse.
pub open spec fn pointer_post(before: &Mouse, after: &Mouse, event: PointerEvent) -> bool {
    &&& after.pos_x == before.pos_x
    &&& after.pos_y == before.pos_y
    &&& after.grabbed == before.grabbed
    &&& match event {
                PointerEvent::MouseMoved { delta } => {
                    &&& after.delta_x == before.delta_x.spec_plus(delta.x)
                    &&& after.delta_y == before.delta_y.spec_plus(delta.y)
                    &&& after.moved
                    &&& after.on_window == before.on_window
                    &&& after.button_states@ == before.button_states@
                },
                PointerEvent::MouseButtonPressed(button) => {
                    &&& after.button_states@ == before.button_states@.update(
                        button.spec_index() as int,
                        State { pressed: true, held: true },
                    )
                    &&& after.delta_x == before.delta_x
                    &&& after.delta_y == before.delta_y
                    &&& after.moved == before.moved
                    &&& after.on_window == before.on_window
                },
                PointerEvent::MouseButtonReleased(button) => {
                    &&& after.button_states@ == before.button_states@.update(
                        button.spec_index() as int,
                        State {
                            pressed: before.button_states@[button.spec_index() as int].pressed,
                            held: false,
                        },
                    )
                    &&& after.delta_x == before.delta_x
                    &&& after.delta_y == before.delta_y
                    &&& after.moved == before.moved
                    &&& after.on_window == before.on_window
                },
                PointerEvent::MouseEntered => {
                    &&& after.on_window
                    &&& after.button_states@ == before.button_states@
                    &&& after.delta_x == before.delta_x
                    &&& after.delta_y == before.delta_y
                    &&& after.moved == before.moved
                },
                PointerEvent::MouseExited => {
                    &&& !after.on_window
                    &&& after.button_states@ == before.button_states@
                    &&& after.delta_x == before.delta_x
                    &&& after.delta_y == before.delta_y
                    &&& after.moved == before.moved
                },
            }
}

/// What an event of the keyboard makes of the keyboard.
pub open spec fn keyboard_post(before: &Keyboard, after: &Keyboard, event: KeyboardEvent) -> bool {
    match event {
                KeyboardEvent::KeyPressed(keycode) => after.key_states@ == before.key_states@.update(
                    keycode.spec_index() as int,
                    State {
                        pressed: !before.key_states@[keycode.spec_index() as int].held,
                        held: true,
                    },
                ),
                KeyboardEvent::KeyReleased(keycode) => after.key_states@ == before.key_states@.update(
                    keycode.spec_index() as int,
                    State {
                        pressed: before.key_states@[keycode.spec_index() as int].pressed,
                        held: false,
                    },
                ),
            }
}

/// The mouse: how far it moved since the last frame, where it is, and its
/// buttons.
pub struct Mouse {
    pub delta_x: Fixed,
    pub delta_y: Fixed,
    pub pos_x: Fixed,
    pub pos_y: Fixed,
    pub on_window: bool,
    pub moved: bool,
    pub grabbed: bool,
    pub button_states: Vec<State>,
}

impl Mouse {
    /// There is a state for every button.
    pub open spec fn wf(&self) -> bool {
        self.button_states@.len() == BUTTON_STATES
    }

    /// A mouse at rest outside the window.
    pub fn new() -> (r: Mouse)
        ensures
            r.wf(),
            r.delta_x == Fixed::spec_zero(),
            r.delta_y == Fixed::spec_zero(),
            r.pos_x == Fixed::spec_zero(),
            r.pos_y == Fixed::spec_zero(),
            !r.on_window,
            !r.moved,
            !r.grabbed,
            forall|i: int|
                0 <= i < BUTTON_STATES ==> r.button_states@[i] == (State {
                    pressed: false,
                    held: false,
                }),
    {
        Mouse {
            delta_x: Fixed::zero(),
            delta_y: Fixed::zero(),
            pos_x: Fixed::zero(),
            pos_y: Fixed::zero(),
            on_window: false,
            moved: false,
            grabbed: false,
            button_states: idle_states(BUTTON_STATES),
        }
    }

    pub fn is_button_pressed(&self, button: MouseButton) -> (r: bool)
        requires
            self.wf(),
        ensures
            r == self.button_states@[button.spec_index() as int].pressed,
    {
        self.button_states[button.index()].pressed
    }

    pub fn is_button_held(&self, button: MouseButton) -> (r: bool)
        requires
            self.wf(),
        ensures
            r == self.button_states@[button.spec_index() as int].held,
    {
        self.button_states[button.index()].held
    }

    pub fn is_moved(&self) -> (r: bool)
        ensures
            r == self.moved,
    {
        self.moved
    }

    pub fn is_grabbed(&self) -> (r: bool)
        ensures
            r == self.grabbed,
    {
        self.grabbed
    }

    pub fn is_on_window(&self) -> (r: bool)
        ensures
            r == self.on_window,
    {
        self.on_window
    }

    pub fn get_position(&self) -> (r: Vec2f)
        ensures
            r == (Vec2f { x: self.pos_x, y: self.pos_y }),
    {
        Vec2f::new(self.pos_x, self.pos_y)
    }

    pub fn get_delta(&self) -> (r: Vec2f)
        ensures
            r == (Vec2f { x: self.delta_x, y: self.delta_y }),
    {
        Vec2f::new(self.delta_x, self.delta_y)
    }

    /// Takes in what the mouse did: a move adds to the distance moved, a
    /// button that goes down is pressed and held, a button that goes up is
    /// held no more, and the mouse enters or leaves the window.
    pub fn on_pointer_event(&mut self, event: &PointerEvent)
        requires
            old(self).wf(),
        ensures
            final(self).wf(),
            final(self).pos_x == old(self).pos_x,
            final(self).pos_y == old(self).pos_y,
            final(self).grabbed == old(self).grabbed,
            pointer_post(old(self), final(self), *event),
    {
        match *event {
            PointerEvent::MouseMoved { delta } => {
                self.delta_x = self.delta_x.plus(delta.x);
                self.delta_y = self.delta_y.plus(delta.y);
                self.moved = true;
            },
            PointerEvent::MouseButtonPressed(button) => {
                self.button_states[button.index()] = State { pressed: true, held: true };
            },
            PointerEvent::MouseButtonReleased(button) => {
                let pressed: bool = self.button_states[button.index()].pressed;
                self.button_states[button.index()] = State { pressed, held: false };
            },
            PointerEvent::MouseEntered => {
                self.on_window = true;
            },
            PointerEvent::MouseExited => {
                self.on_window = false;
            },
        }
    }

    /// Ends a frame: no button is pressed any more and the mouse has not
    /// moved.
    pub fn update(&mut self)
        requires
            old(self).wf(),
        ensures
            final(self).wf(),
            final(self).button_states@ == released(old(self).button_states@),
            !final(self).moved,
            final(self).delta_x == Fixed::spec_zero(),
            final(self).delta_y == Fixed::spec_zero(),
            final(self).pos_x == old(self).pos_x,
            final(self).pos_y == old(self).pos_y,
            final(self).on_window == old(self).on_window,
            final(self).grabbed == old(self).grabbed,
    {
        release_all(&mut self.button_states);
        self.moved = false;
        self.delta_x = Fixed::zero();
        self.delta_y = Fixed::zero();
    }
}

/// The keys of the keyboard.
pub struct Keyboard {
    pub key_states: Vec<State>,
}

impl Keyboard {
    /// There is a state for every key.
    pub open spec fn wf(&self) -> bool {
        self.key_states@.len() == KEY_STATES
    }

    /// A keyboard with no key down.
    pub fn new() -> (r: Keyboard)
        ensures
            r.wf(),
            forall|i: int|
                0 <= i < KEY_STATES ==> r.key_states@[i] == (State { pressed: false, held: false }),
    {
        Keyboard { key_states: idle_states(KEY_STATES) }
    }

    /// Whether the key went down since the last frame.
    pub fn is_key_pressed(&self, keycode: KeyCode) -> (r: bool)
        requires
            self.wf(),
        ensures
            r == self.key_states@[keycode.spec_index() as int].pressed,
    {
        self.key_states[keycode.index()].pressed
    }

    /// Whether the key is down.
    pub fn is_key_held(&self, keycode: KeyCode) -> (r: bool)
        requires
            self.wf(),
        ensures
            r == self.key_states@[keycode.spec_index() as int].held,
    {
        self.key_states[keycode.index()].held
    }

    /// Takes in what the keyboard did: a key that goes down is held, and
    /// pressed unless it was held already; a key that goes up is held no
    /// more.
    pub fn handle_keyboard_event(&mut self, event: &KeyboardEvent)
        requires
            old(self).wf(),
        ensures
            final(self).wf(),
            keyboard_post(old(self), final(self), *event),
    {
        match *event {
            KeyboardEvent::KeyPressed(keycode) => {
                let held: bool = self.key_states[keycode.index()].held;
                self.key_states[keycode.index()] = State { pressed: !held, held: true };
            },
            KeyboardEvent::KeyReleased(keycode) => {
                let pressed: bool = self.key_states[keycode.index()].pressed;
                self.key_states[keycode.index()] = State { pressed, held: false };
            },
        }
    }

    /// Ends a frame: no key is pressed any more.
    pub fn update(&mut self)
        requires
            old(self).wf(),
        ensures
            final(self).wf(),
            final(self).key_states@ == released(old(self).key_states@),
    {
        release_all(&mut self.key_states);
    }
}

/// The keyboard and the mouse.
pub struct Input {
    pub keyboard: Keyboard,
    pub mouse: Mouse,
}

impl Input {
    pub open spec fn wf(&self) -> bool {
        self.keyboard.wf() && self.mouse.wf()
    }

    /// A keyboard with no key down and a mouse at rest.
    pub fn new() -> (r: Input)
        ensures
            r.wf(),
            !r.mouse.moved,
            !r.mouse.grabbed,
            !r.mouse.on_window,
            r.mouse.delta_x == Fixed::spec_zero(),
            r.mouse.delta_y == Fixed::spec_zero(),
            r.mouse.pos_x == Fixed::spec_zero(),
            r.mouse.pos_y == Fixed::spec_zero(),
            forall|i: int|
                0 <= i < KEY_STATES ==> r.keyboard.key_states@[i] == (State {
                    pressed: false,
                    held: false,
                }),
            forall|i: int|
                0 <= i < BUTTON_STATES ==> r.mouse.button_states@[i] == (State {
                    pressed: false,
                    held: false,
                }),
    {
        Input { keyboard: Keyboard::new(), mouse: Mouse::new() }
    }

    /// Hands an event to the mouse or the keyboard; any other event changes
    /// nothing.
    pub fn handle_event(&mut self, event: &Event)
        requires
            old(self).wf(),
        ensures
            final(self).wf(),
            match *event {
                Event::PointerEvent(e) => final(self).keyboard == old(self).keyboard
                    && pointer_post(&old(self).mouse, &final(self).mouse, e),
                Event::KeyboardEvent(e) => final(self).mouse == old(self).mouse
                    && keyboard_post(&old(self).keyboard, &final(self).keyboard, e),
                Event::Other => *final(self) == *old(self),
            },
    {
        match *event {
            Event::PointerEvent(e) => self.mouse.on_pointer_event(&e),
            Event::KeyboardEvent(e) => self.keyboard.handle_keyboard_event(&e),
            Event::Other => {},
        }
    }

    /// Ends a frame for the keyboard and the mouse.
    pub fn update(&mut self)
        requires
            old(self).wf(),
        ensures
            final(self).wf(),
            final(self).keyboard.key_states@ == released(old(self).keyboard.key_states@),
            final(self).mouse.button_states@ == released(old(self).mouse.button_states@),
            !final(self).mouse.moved,
            final(self).mouse.delta_x == Fixed::spec_zero(),
            final(self).mouse.delta_y == Fixed::spec_zero(),
            final(self).mouse.pos_x == old(self).mouse.pos_x,
            final(self).mouse.pos_y == old(self).mouse.pos_y,
            final(self).mouse.on_window == old(self).mouse.on_window,
            final(self).mouse.grabbed == old(self).mouse.grabbed,
    {
        self.keyboard.update();
        self.mouse.update();
    }
}

} // verus!
