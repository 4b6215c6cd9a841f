//! Input event types shared by every injection backend: keyboard and
//! mouse events, batch requests and the input error type.

use vstd::prelude::*;

verus! {

/// Input device kinds.
#[derive(Clone, Copy, Debug, PartialEq, Eq, Structural)]
pub enum InputDevice {
    Keyboard,
    Mouse,
    Touch,
    Gamepad,
}

/// Input action kinds.
#[derive(Clone, Copy, Debug, PartialEq, Eq, Structural)]
pub enum InputAction {
    /// Key or button press
    Press,
    /// Key or button release
    Release,
    /// Key press and release (convenience)
    Type,
    /// Relative movement
    Move,
    /// Absolute position
    MoveAbsolute,
    /// Scroll wheel
    Scroll,
}

/// Keyboard actions.
#[derive(Clone, Copy, Debug, PartialEq, Eq, Structural)]
pub enum KeyboardAction {
    Press,
    Release,
    Type,
}

/// Keyboard modifier states.
#[derive(Clone, Copy, Debug, PartialEq, Eq, Structural)]
pub struct KeyboardModifiers {
    /// Control key held
    pub ctrl: bool,
    /// Alt key held
    pub alt: bool,
    /// Shift key held
    pub shift: bool,
    /// Meta (Windows/Super) key held
    pub meta: bool,
}

impl Default for KeyboardModifiers {
    /// Default modifiers are all released.
    fn default() -> (r: Self)
        ensures
            r == (KeyboardModifiers { ctrl: false, alt: false, shift: false, meta: false }),
    {
        KeyboardModifiers { ctrl: false, alt: false, shift: false, meta: false }
    }
}

/// A keyboard event.
#[derive(Clone, Copy, Debug, PartialEq, Eq, Structural)]
pub struct KeyboardEvent {
    /// Action to perform
    pub action: KeyboardAction,
    /// Key code (scancode)
    pub code: u16,
    /// Modifier keys, for complex shortcuts
    pub modifiers: KeyboardModifiers,
}

/// Mouse actions.
#[derive(Clone, Copy, Debug, PartialEq, Eq, Structural)]
pub enum MouseAction {
    /// Relative movement
    Move,
    /// Absolute position (0-65535 range)
    MoveAbsolute,
    /// Button press
    ButtonPress,
    /// Button release
    ButtonRelease,
    /// Button click (press and release)
    Click,
    /// Scroll wheel
    Scroll,
}

/// Mouse button identifiers.
#[derive(Clone, Copy, Debug, PartialEq, Eq, Structural)]
pub enum MouseButton {
    Left,
    Right,
    Middle,
    /// Side button (typically back)
    Side,
    /// Extra button (typically forward)
    Extra,
}

/// Mouse button states.
#[derive(Clone, Copy, Debug, PartialEq, Eq, Structural)]
pub struct MouseButtons {
    /// Left button held
    pub left: bool,
    /// Right button held
    pub right: bool,
    /// Middle button held
    pub middle: bool,
    /// Side button held
    pub side: bool,
    /// Extra button held
    pub extra: bool,
}

impl Default for MouseButtons {
    /// Default button states are all released.
    fn default() -> (r: Self)
        ensures
            r == (MouseButtons {
                left: false,
                right: false,
                middle: false,
                side: false,
                extra: false,
            }),
    {
        MouseButtons { left: false, right: false, middle: false, side: false, extra: false }
    }
}

/// The number of buttons held in a button state record.
pub open spec fn spec_button_count(b: MouseButtons) -> int {
    (if b.left {
        1int
    } else {
        0int
    }) + (if b.right {
        1int
    } else {
        0int
    }) + (if b.middle {
        1int
    } else {
        0int
    }) + (if b.side {
        1int
    } else {
        0int
    }) + (if b.extra {
        1int
    } else {
        0int
    })
}

impl MouseButtons {
    /// Check whether any button is held.
    pub fn any(&self) -> (r: bool)
        ensures
            r == (self.left || self.right || self.middle || self.side || self.extra),
    {
        self.left || self.right || self.middle || self.side || self.extra
    }

    /// The number of buttons held.
    pub fn count(&self) -> (r: u8)
        ensures
            r == spec_button_count(*self),
    {
        let mut count: u8 = 0;
        if self.left {
            count = count + 1;
        }
        if self.right {
            count = count + 1;
        }
        if self.middle {
            count = count + 1;
        }
        if self.side {
            count = count + 1;
        }
        if self.extra {
            count = count + 1;
        }
        count
    }
}

/// A mouse event.
#[derive(Clone, Copy, Debug, PartialEq, Eq, Structural)]
pub struct MouseEvent {
    /// Action to perform
    pub action: MouseAction,
    /// X coordinate or delta
    pub x: i32,
    /// Y coordinate or delta
    pub y: i32,
    /// Z coordinate (scroll wheel) or delta
    pub z: i32,
    /// Button, for button actions
    pub button: Option<MouseButton>,
    /// All button states, for moves with buttons held
    pub buttons: MouseButtons,
}

/// A generic input event: the union of the event types.
#[derive(Clone, Copy, Debug, PartialEq, Eq, Structural)]
pub enum InputEvent {
    Keyboard(KeyboardEvent),
    Mouse(MouseEvent),
}

impl InputEvent {
    /// Create a keyboard event with no modifiers.
    pub fn keyboard(action: KeyboardAction, code: u16) -> (r: Self)
        ensures
            r == InputEvent::Keyboard(
                KeyboardEvent {
                    action,
                    code,
                    modifiers: KeyboardModifiers {
                        ctrl: false,
                        alt: false,
                        shift: false,
                        meta: false,
                    },
                },
            ),
    {
        InputEvent::Keyboard(KeyboardEvent { action, code, modifiers: KeyboardModifiers::default() })
    }

    /// Create a relative mouse move event.
    pub fn mouse_move(dx: i32, dy: i32) -> (r: Self)
        ensures
            r matches InputEvent::Mouse(m) && m.action == MouseAction::Move && m.x == dx && m.y
                == dy && m.z == 0 && m.button is None,
    {
        InputEvent::Mouse(
            MouseEvent {
                action: MouseAction::Move,
                x: dx,
                y: dy,
                z: 0,
                button: None,
                buttons: MouseButtons::default(),
            },
        )
    }

    /// Create a mouse button press or release event.
    pub fn mouse_button(button: MouseButton, pressed: bool) -> (r: Self)
        ensures
            r matches InputEvent::Mouse(m) && m.action == (if pressed {
                MouseAction::ButtonPress
            } else {
                MouseAction::ButtonRelease
            }) && m.button == Some(button) && m.x == 0 && m.y == 0 && m.z == 0,
    {
        InputEvent::Mouse(
            MouseEvent {
                action: if pressed {
                    MouseAction::ButtonPress
                } else {
                    MouseAction::ButtonRelease
                },
                x: 0,
                y: 0,
                z: 0,
                button: Some(button),
                buttons: MouseButtons::default(),
            },
        )
    }

    /// Create a mouse scroll event.
    pub fn mouse_scroll(delta: i32) -> (r: Self)
        ensures
            r matches InputEvent::Mouse(m) && m.action == MouseAction::Scroll && m.z == delta
                && m.x == 0 && m.y == 0 && m.button is None,
    {
        InputEvent::Mouse(
            MouseEvent {
                action: MouseAction::Scroll,
                x: 0,
                y: 0,
                z: delta,
                button: None,
                buttons: MouseButtons::default(),
            },
        )
    }
}

/// A batch input injection request.
#[derive(Clone, Debug)]
pub struct InputRequest {
    /// Optional backend override, by name
    pub backend: Option<String>,
    /// Keyboard events to inject
    pub keyboard: Vec<KeyboardEvent>,
    /// Mouse events to inject
    pub mouse: Vec<MouseEvent>,
}

impl InputRequest {
    /// Check whether the request carries no events.
    pub fn is_empty(&self) -> (r: bool)
        ensures
            r == (self.keyboard@.len() == 0 && self.mouse@.len() == 0),
    {
        self.keyboard.len() == 0 && self.mouse.len() == 0
    }

    /// The total number of events in the request.
    pub fn event_count(&self) -> (r: usize)
        requires
            self.keyboard@.len() + self.mouse@.len() <= usize::MAX,
        ensures
            r == self.keyboard@.len() + self.mouse@.len(),
    {
        self.keyboard.len() + self.mouse.len()
    }
}

/// Input injection errors.
#[derive(Debug, Clone, PartialEq, Eq)]
pub enum InputError {
    /// The requested backend is not available or not configured
    BackendNotAvailable(String),
    /// The input event is invalid or malformed
    InvalidEvent(String),
    /// The input device is not ready to accept events
    DeviceNotReady,
    /// The input injection operation failed
    InjectionFailed(String),
    /// The requested action is not supported by the backend
    UnsupportedAction(String),
    /// The input buffer has overflowed
    BufferOverflow,
    /// An I/O error occurred
    Io(String),
}

/// The description an input error kind reads as.
pub open spec fn spec_input_error_message(e: InputError) -> Seq<char> {
    match e {
        InputError::BackendNotAvailable(_) => "Backend not available"@,
        InputError::InvalidEvent(_) => "Invalid input event"@,
        InputError::DeviceNotReady => "Device not ready"@,
        InputError::InjectionFailed(_) => "Injection failed"@,
        InputError::UnsupportedAction(_) => "Unsupported action"@,
        InputError::BufferOverflow => "Buffer overflow"@,
        InputError::Io(_) => "IO error"@,
    }
}

impl InputError {
    /// A short description of the error kind.
    pub fn message(&self) -> (r: &'static str)
        ensures
            r@ == spec_input_error_message(*self),
    {
        match self {
            InputError::BackendNotAvailable(_) => "Backend not available",
            InputError::InvalidEvent(_) => "Invalid input event",
            InputError::DeviceNotReady => "Device not ready",
            InputError::InjectionFailed(_) => "Injection failed",
            InputError::UnsupportedAction(_) => "Unsupported action",
            InputError::BufferOverflow => "Buffer overflow",
            InputError::Io(_) => "IO error",
        }
    }
}

} // verus!
