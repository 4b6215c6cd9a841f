//! Input backend abstraction: the trait every injection backend
//! implements, and the PS/2, VirtIO and USB HID backends.

use vstd::prelude::*;

use crate::event::{InputError, InputEvent, KeyboardAction, KeyboardEvent, MouseAction, MouseButton, MouseEvent};
use crate::hid::UsbHidDevice;
use crate::virtio_input::VirtioInputEvent;
use vstd::string::StringSliceAdditionalSpecFns;

verus! {

/// How detectable an input backend is from inside the guest.
#[derive(Clone, Copy, Debug, PartialEq, Eq, PartialOrd, Ord, Structural)]
pub enum StealthLevel {
    /// Easily detected as a virtual device (virtio-input)
    Low,
    /// May be detected with careful inspection (USB HID)
    Medium,
    /// Very hard to detect (PS/2 emulation)
    High,
}

/// Capabilities of an input backend.
#[derive(Clone, Copy, Debug)]
pub struct InputCapabilities {
    /// Maximum keyboard rate (events per second)
    pub max_keyboard_rate: u32,
    /// Supports absolute mouse positioning
    pub supports_absolute_mouse: bool,
    /// Supports multi-touch input
    pub supports_multi_touch: bool,
    /// Supports a scroll wheel
    pub supports_scroll_wheel: bool,
    /// Maximum scroll wheel range per event
    pub max_scroll_range: i8,
    /// Stealth level of this backend
    pub stealth_level: StealthLevel,
    /// Backend name (short identifier)
    pub name: &'static str,
    /// Backend description (human readable)
    pub description: &'static str,
}

impl Default for InputCapabilities {
    /// Default capabilities: a conservative unknown backend.
    fn default() -> (r: Self)
        ensures
            r.max_keyboard_rate == 500,
            !r.supports_absolute_mouse,
            !r.supports_multi_touch,
            r.supports_scroll_wheel,
            r.max_scroll_range == 8,
            r.stealth_level == StealthLevel::Low,
            r.name@ == "unknown"@,
    {
        InputCapabilities {
            max_keyboard_rate: 500,
            supports_absolute_mouse: false,
            supports_multi_touch: false,
            supports_scroll_wheel: true,
            max_scroll_range: 8,
            stealth_level: StealthLevel::Low,
            name: "unknown",
            description: "Unknown input backend",
        }
    }
}

/// The interface every input backend implements: capability reporting,
/// readiness, and keyboard and mouse injection.
pub trait InputBackend {
    /// The backend name, a short identifier.
    fn name(&self) -> &'static str;

    /// The backend capabilities.
    fn capabilities(&self) -> InputCapabilities;

    /// Whether the backend is ready to accept input.
    fn is_ready(&self) -> bool;

    /// Inject a keyboard event.
    fn inject_keyboard(&mut self, event: &KeyboardEvent) -> Result<(), InputError>;

    /// Inject a mouse event.
    fn inject_mouse(&mut self, event: &MouseEvent) -> Result<(), InputError>;

    /// Inject a generic event, dispatching on its kind.
    fn inject(&mut self, event: &InputEvent) -> Result<(), InputError>;

    /// Flush any buffered events.
    fn flush(&mut self) -> Result<(), InputError>;
}

// ============================================================================
// PS/2 Backend (i8042)
// ============================================================================

/// PS/2 input backend: keyboard and mouse through the legacy i8042
/// controller; relative mouse only, highest stealth.
pub struct Ps2Backend {
    capabilities: InputCapabilities,
}

impl Ps2Backend {
    /// The stored capabilities.
    pub closed spec fn spec_capabilities(&self) -> InputCapabilities {
        self.capabilities
    }

    /// Create a PS/2 backend; it is always ready once created, as the
    /// emulated i8042 controller is always available.
    pub fn new() -> (r: Self)
        ensures
            r.spec_capabilities().max_keyboard_rate == 500,
            !r.spec_capabilities().supports_absolute_mouse,
            !r.spec_capabilities().supports_multi_touch,
            r.spec_capabilities().supports_scroll_wheel,
            r.spec_capabilities().max_scroll_range == 8,
            r.spec_capabilities().stealth_level == StealthLevel::High,
            r.spec_capabilities().name@ == "ps2"@,
    {
        Self {
            capabilities: InputCapabilities {
                max_keyboard_rate: 500,
                supports_absolute_mouse: false,
                supports_multi_touch: false,
                supports_scroll_wheel: true,
                max_scroll_range: 8,
                stealth_level: StealthLevel::High,
                name: "ps2",
                description: "PS/2 keyboard and mouse (i8042)",
            },
        }
    }
}

impl Default for Ps2Backend {
    /// The default PS/2 backend is a fresh one.
    fn default() -> (r: Self)
        ensures
            r.spec_capabilities().stealth_level == StealthLevel::High,
    {
        Self::new()
    }
}

impl InputBackend for Ps2Backend {
    /// The stored backend name.
    fn name(&self) -> &'static str {
        self.capabilities.name
    }

    /// A copy of the stored capabilities.
    fn capabilities(&self) -> (r: InputCapabilities)
        ensures
            r == self.spec_capabilities(),
    {
        self.capabilities.clone()
    }

    /// PS/2 is always ready once the device exists.
    fn is_ready(&self) -> (r: bool)
        ensures
            r == true,
    {
        true
    }

    /// Keyboard events are accepted; the i8042 device wiring sits outside
    /// this model.
    fn inject_keyboard(&mut self, _event: &KeyboardEvent) -> (r: Result<(), InputError>)
        ensures
            r is Ok,
            *final(self) == *old(self),
    {
        Ok(())
    }

    /// Mouse events are accepted; the i8042 device wiring sits outside
    /// this model.
    fn inject_mouse(&mut self, _event: &MouseEvent) -> (r: Result<(), InputError>)
        ensures
            r is Ok,
            *final(self) == *old(self),
    {
        Ok(())
    }

    /// Dispatch a generic event on its kind.
    fn inject(&mut self, event: &InputEvent) -> (r: Result<(), InputError>)
        ensures
            r is Ok,
            *final(self) == *old(self),
    {
        match event {
            InputEvent::Keyboard(kb) => self.inject_keyboard(kb),
            InputEvent::Mouse(m) => self.inject_mouse(m),
        }
    }

    /// Nothing is buffered.
    fn flush(&mut self) -> (r: Result<(), InputError>)
        ensures
            r is Ok,
            *final(self) == *old(self),
    {
        Ok(())
    }
}

// ============================================================================
// VirtIO Input Backend
// ============================================================================

/// The evdev events one keyboard event turns into: a Type action presses
/// and releases; the others press or release once.
pub open spec fn virtio_keyboard_events(event: KeyboardEvent) -> Seq<VirtioInputEvent> {
    match event.action {
        KeyboardAction::Type => seq![
            VirtioInputEvent { ev_type: 1, code: event.code, value: 1 },
            VirtioInputEvent { ev_type: 1, code: event.code, value: 0 },
        ],
        KeyboardAction::Press => seq![VirtioInputEvent { ev_type: 1, code: event.code, value: 1 }],
        KeyboardAction::Release => seq![
            VirtioInputEvent { ev_type: 1, code: event.code, value: 0 },
        ],
    }
}

/// The Linux input code of a mouse button.
pub open spec fn spec_button_code(button: MouseButton) -> u16 {
    match button {
        MouseButton::Left => 0x110,  // BTN_LEFT
        MouseButton::Right => 0x111,  // BTN_RIGHT
        MouseButton::Middle => 0x112,  // BTN_MIDDLE
        MouseButton::Side => 0x113,  // BTN_SIDE
        MouseButton::Extra => 0x114,  // BTN_EXTRA
    }
}

/// `v` clamped into `[lo, hi]`.
pub open spec fn spec_clamp(v: int, lo: int, hi: int) -> int {
    if v < lo {
        lo
    } else if v > hi {
        hi
    } else {
        v
    }
}

/// VirtIO input backend: keyboard and mouse through virtio-input devices;
/// the richest features, the lowest stealth. The evdev events it produces
/// are queued here and handed to the device's injection queue by the
/// surrounding plumbing.
pub struct VirtioInputBackend {
    capabilities: InputCapabilities,
    ready: bool,
    /// Events produced and not yet handed to the device
    pending: Vec<VirtioInputEvent>,
    /// Current absolute mouse position (X coordinate)
    mouse_x: i32,
    /// Current absolute mouse position (Y coordinate)
    mouse_y: i32,
    /// Screen width for clamping absolute positions
    screen_width: u32,
    /// Screen height for clamping absolute positions
    screen_height: u32,
}

impl VirtioInputBackend {
    /// The stored capabilities.
    pub closed spec fn spec_capabilities(&self) -> InputCapabilities {
        self.capabilities
    }

    /// Whether the backend is ready.
    pub closed spec fn spec_ready(&self) -> bool {
        self.ready
    }

    /// The produced events not yet handed to the device.
    pub closed spec fn spec_pending(&self) -> Seq<VirtioInputEvent> {
        self.pending@
    }

    /// The tracked absolute mouse position.
    pub closed spec fn spec_mouse_pos(&self) -> (i32, i32) {
        (self.mouse_x, self.mouse_y)
    }

    /// The screen dimensions used for clamping.
    pub closed spec fn spec_screen(&self) -> (u32, u32) {
        (self.screen_width, self.screen_height)
    }

    /// Create a virtio-input backend, not yet ready, with a default
    /// 1920x1080 screen.
    pub fn new() -> (r: Self)
        ensures
            r.spec_capabilities().max_keyboard_rate == 1000,
            r.spec_capabilities().supports_absolute_mouse,
            r.spec_capabilities().supports_multi_touch,
            r.spec_capabilities().supports_scroll_wheel,
            r.spec_capabilities().max_scroll_range == 127,
            r.spec_capabilities().stealth_level == StealthLevel::Low,
            r.spec_capabilities().name@ == "virtio"@,
            !r.spec_ready(),
            r.spec_pending() == Seq::<VirtioInputEvent>::empty(),
            r.spec_mouse_pos() == (0i32, 0i32),
            r.spec_screen() == (1920u32, 1080u32),
    {
        Self {
            capabilities: InputCapabilities {
                max_keyboard_rate: 1000,
                supports_absolute_mouse: true,
                supports_multi_touch: true,
                supports_scroll_wheel: true,
                max_scroll_range: 127,
                stealth_level: StealthLevel::Low,
                name: "virtio",
                description: "VirtIO input device",
            },
            ready: false,
            pending: Vec::new(),
            mouse_x: 0,
            mouse_y: 0,
            screen_width: 1920,  // Default screen width
            screen_height: 1080,  // Default screen height
        }
    }

    /// Set the ready state; call once the virtio device is configured.
    pub fn set_ready(&mut self, ready: bool)
        ensures
            final(self).spec_ready() == ready,
            final(self).spec_pending() == old(self).spec_pending(),
            final(self).spec_capabilities() == old(self).spec_capabilities(),
            final(self).spec_mouse_pos() == old(self).spec_mouse_pos(),
            final(self).spec_screen() == old(self).spec_screen(),
    {
        self.ready = ready;
    }

    /// Set the screen dimensions used to clamp absolute positions.
    pub fn set_screen_dimensions(&mut self, width: u32, height: u32)
        ensures
            final(self).spec_screen() == (width, height),
            final(self).spec_ready() == old(self).spec_ready(),
            final(self).spec_pending() == old(self).spec_pending(),
            final(self).spec_capabilities() == old(self).spec_capabilities(),
            final(self).spec_mouse_pos() == old(self).spec_mouse_pos(),
    {
        self.screen_width = width;
        self.screen_height = height;
    }

    /// Reset the tracked absolute mouse position, for a resolution change.
    pub fn reset_mouse_position(&mut self)
        ensures
            final(self).spec_mouse_pos() == (0i32, 0i32),
            final(self).spec_ready() == old(self).spec_ready(),
            final(self).spec_pending() == old(self).spec_pending(),
            final(self).spec_capabilities() == old(self).spec_capabilities(),
            final(self).spec_screen() == old(self).spec_screen(),
    {
        self.mouse_x = 0;
        self.mouse_y = 0;
    }

    /// Take the produced events, oldest first, to hand to the device.
    pub fn take_events(&mut self) -> (r: Vec<VirtioInputEvent>)
        ensures
            r@ == old(self).spec_pending(),
            final(self).spec_pending() == Seq::<VirtioInputEvent>::empty(),
            final(self).spec_ready() == old(self).spec_ready(),
            final(self).spec_capabilities() == old(self).spec_capabilities(),
            final(self).spec_mouse_pos() == old(self).spec_mouse_pos(),
            final(self).spec_screen() == old(self).spec_screen(),
    {
        let mut taken: Vec<VirtioInputEvent> = Vec::new();
        std::mem::swap(&mut taken, &mut self.pending);
        taken
    }

    /// Whether a keyboard action counts as pressed.
    pub fn keyboard_action_to_pressed(action: KeyboardAction) -> (r: bool)
        ensures
            r == (action == KeyboardAction::Press || action == KeyboardAction::Type),
    {
        match action {
            KeyboardAction::Press => true,
            KeyboardAction::Type => true,
            KeyboardAction::Release => false,
        }
    }

    /// The Linux input code of a mouse button.
    pub fn mouse_button_to_code(button: MouseButton) -> (r: u16)
        ensures
            r == spec_button_code(button),
    {
        match button {
            MouseButton::Left => 0x110,
            MouseButton::Right => 0x111,
            MouseButton::Middle => 0x112,
            MouseButton::Side => 0x113,
            MouseButton::Extra => 0x114,
        }
    }
}

impl Default for VirtioInputBackend {
    /// The default virtio backend is a fresh, not-yet-ready one.
    fn default() -> (r: Self)
        ensures
            !r.spec_ready(),
    {
        Self::new()
    }
}

impl InputBackend for VirtioInputBackend {
    /// The stored backend name.
    fn name(&self) -> &'static str {
        self.capabilities.name
    }

    /// A copy of the stored capabilities.
    fn capabilities(&self) -> (r: InputCapabilities)
        ensures
            r == self.spec_capabilities(),
    {
        self.capabilities.clone()
    }

    /// Ready once the device has been configured.
    fn is_ready(&self) -> (r: bool)
        ensures
            r == self.spec_ready(),
    {
        self.ready
    }

    /// Inject a keyboard event: refused until ready; a Type action
    /// produces a press and a release, the others one event.
    fn inject_keyboard(&mut self, event: &KeyboardEvent) -> (r: Result<(), InputError>)
        ensures
            !old(self).spec_ready() ==> r == Err::<(), InputError>(InputError::DeviceNotReady)
                && final(self).spec_pending() == old(self).spec_pending(),
            old(self).spec_ready() ==> r is Ok && final(self).spec_pending() == old(self).spec_pending() + virtio_keyboard_events(*event),
            final(self).spec_ready() == old(self).spec_ready(),
            final(self).spec_capabilities() == old(self).spec_capabilities(),
            final(self).spec_mouse_pos() == old(self).spec_mouse_pos(),
            final(self).spec_screen() == old(self).spec_screen(),
    {
        if !self.ready {
            return Err(InputError::DeviceNotReady);
        }
        if matches!(event.action, KeyboardAction::Type) {
            // A Type action is a press followed by a release
            self.pending.push(VirtioInputEvent::keyboard(event.code, true));
            self.pending.push(VirtioInputEvent::keyboard(event.code, false));
            proof {
                assert(self.pending@ =~= old(self).pending@ + virtio_keyboard_events(*event));
            }
        } else {
            let pressed = Self::keyboard_action_to_pressed(event.action);
            self.pending.push(VirtioInputEvent::keyboard(event.code, pressed));
            proof {
                assert(self.pending@ =~= old(self).pending@ + virtio_keyboard_events(*event));
            }
        }
        Ok(())
    }

    /// Inject a mouse event: refused until ready. Moves produce X and Y
    /// deltas and a sync; absolute moves are clamped to the screen,
    /// tracked, and sent as the relative difference when it is nonzero;
    /// button actions produce press/release events; scrolls a wheel
    /// delta.
    fn inject_mouse(&mut self, event: &MouseEvent) -> (r: Result<(), InputError>)
        ensures
            !old(self).spec_ready() ==> r == Err::<(), InputError>(InputError::DeviceNotReady)
                && final(self).spec_pending() == old(self).spec_pending() && final(self).spec_mouse_pos() == old(self).spec_mouse_pos(),
            old(self).spec_ready() ==> r is Ok,
            old(self).spec_ready() && event.action == MouseAction::Move ==> final(self).spec_pending() == old(self).spec_pending() + seq![
                VirtioInputEvent { ev_type: 2, code: 0, value: event.x as u32 },
                VirtioInputEvent { ev_type: 2, code: 1, value: event.y as u32 },
                VirtioInputEvent { ev_type: 0, code: 0, value: 0 },
            ] && final(self).spec_mouse_pos() == old(self).spec_mouse_pos(),
            old(self).spec_ready() && event.action == MouseAction::Scroll ==> final(self).spec_pending() == old(self).spec_pending() + seq![
                VirtioInputEvent { ev_type: 2, code: 8, value: event.z as u32 },
            ] && final(self).spec_mouse_pos() == old(self).spec_mouse_pos(),
            old(self).spec_ready() && (event.action == MouseAction::ButtonPress || event.action
                == MouseAction::ButtonRelease) ==> (match event.button {
                Some(b) => final(self).spec_pending() == old(self).spec_pending() + seq![
                    VirtioInputEvent {
                        ev_type: 1,
                        code: spec_button_code(b),
                        value: if event.action == MouseAction::ButtonPress {
                            1u32
                        } else {
                            0u32
                        },
                    },
                ],
                None => final(self).spec_pending() == old(self).spec_pending(),
            }) && final(self).spec_mouse_pos() == old(self).spec_mouse_pos(),
            old(self).spec_ready() && event.action == MouseAction::Click ==> (match event.button {
                Some(b) => final(self).spec_pending() == old(self).spec_pending() + seq![
                    VirtioInputEvent { ev_type: 1, code: spec_button_code(b), value: 1 },
                    VirtioInputEvent { ev_type: 1, code: spec_button_code(b), value: 0 },
                ],
                None => final(self).spec_pending() == old(self).spec_pending(),
            }) && final(self).spec_mouse_pos() == old(self).spec_mouse_pos(),
            old(self).spec_ready() && event.action == MouseAction::MoveAbsolute ==> {
                let hi_x = if old(self).spec_screen().0 > 0x7FFFFFFFu32 {
                    0x7FFFFFFFint
                } else {
                    old(self).spec_screen().0 as int
                };
                let hi_y = if old(self).spec_screen().1 > 0x7FFFFFFFu32 {
                    0x7FFFFFFFint
                } else {
                    old(self).spec_screen().1 as int
                };
                let tx = spec_clamp(event.x as int, 0, hi_x);
                let ty = spec_clamp(event.y as int, 0, hi_y);
                &&& final(self).spec_mouse_pos().0 == tx
                &&& final(self).spec_mouse_pos().1 == ty
                &&& (tx != old(self).spec_mouse_pos().0 || ty != old(self).spec_mouse_pos().1)
                    ==> final(self).spec_pending() == old(self).spec_pending() + seq![
                    VirtioInputEvent {
                        ev_type: 2,
                        code: 0,
                        value: (tx - old(self).spec_mouse_pos().0) as u32,
                    },
                    VirtioInputEvent {
                        ev_type: 2,
                        code: 1,
                        value: (ty - old(self).spec_mouse_pos().1) as u32,
                    },
                    VirtioInputEvent { ev_type: 0, code: 0, value: 0 },
                ]
                &&& (tx == old(self).spec_mouse_pos().0 && ty == old(self).spec_mouse_pos().1)
                    ==> final(self).spec_pending() == old(self).spec_pending()
            },
            final(self).spec_ready() == old(self).spec_ready(),
            final(self).spec_capabilities() == old(self).spec_capabilities(),
            final(self).spec_screen() == old(self).spec_screen(),
    {
        if !self.ready {
            return Err(InputError::DeviceNotReady);
        }
        match event.action {
            MouseAction::Move => {
                // Relative movement: X delta, Y delta, then sync
                self.pending.push(VirtioInputEvent::rel(0x00, event.x));  // REL_X
                self.pending.push(VirtioInputEvent::rel(0x01, event.y));  // REL_Y
                self.pending.push(VirtioInputEvent::syn());
                proof {
                    assert(self.pending@ =~= old(self).pending@ + seq![
                        VirtioInputEvent { ev_type: 2, code: 0, value: event.x as u32 },
                        VirtioInputEvent { ev_type: 2, code: 1, value: event.y as u32 },
                        VirtioInputEvent { ev_type: 0, code: 0, value: 0 },
                    ]);
                }
            },
            MouseAction::MoveAbsolute => {
                // Clamp the target position to the screen bounds
                let hi_x: i32 = if self.screen_width > 0x7FFFFFFF {
                    i32::MAX
                } else {
                    self.screen_width as i32
                };
                let hi_y: i32 = if self.screen_height > 0x7FFFFFFF {
                    i32::MAX
                } else {
                    self.screen_height as i32
                };
                let target_x: i32 = if event.x < 0 {
                    0
                } else if event.x > hi_x {
                    hi_x
                } else {
                    event.x
                };
                let target_y: i32 = if event.y < 0 {
                    0
                } else if event.y > hi_y {
                    hi_y
                } else {
                    event.y
                };

                // The relative movement from the last tracked position
                let rel_x: i64 = target_x as i64 - self.mouse_x as i64;
                let rel_y: i64 = target_y as i64 - self.mouse_y as i64;

                // Update the tracked position
                self.mouse_x = target_x;
                self.mouse_y = target_y;

                // Only send movement when there is any
                if rel_x != 0 || rel_y != 0 {
                    let ghost px = old(self).mouse_x;
                    let ghost py = old(self).mouse_y;
                    #[verifier::truncate]
                    let dx = rel_x as i32;
                    #[verifier::truncate]
                    let dy = rel_y as i32;
                    self.pending.push(VirtioInputEvent::rel(0x00, dx));
                    self.pending.push(VirtioInputEvent::rel(0x01, dy));
                    self.pending.push(VirtioInputEvent::syn());
                    proof {
                        assert(dx as u32 == (target_x - px) as u32 && dy as u32 == (target_y
                            - py) as u32) by (bit_vector)
                            requires
                                dx == (target_x as i64 - px as i64) as i32,
                                dy == (target_y as i64 - py as i64) as i32,
                        ;
                        assert(self.pending@ =~= old(self).pending@ + seq![
                            VirtioInputEvent {
                                ev_type: 2,
                                code: 0,
                                value: (target_x - old(self).mouse_x) as u32,
                            },
                            VirtioInputEvent {
                                ev_type: 2,
                                code: 1,
                                value: (target_y - old(self).mouse_y) as u32,
                            },
                            VirtioInputEvent { ev_type: 0, code: 0, value: 0 },
                        ]);
                    }
                }
            },
            MouseAction::ButtonPress => {
                if let Some(button) = event.button {
                    let code = Self::mouse_button_to_code(button);
                    self.pending.push(VirtioInputEvent::keyboard(code, true));
                    proof {
                        assert(self.pending@ =~= old(self).pending@ + seq![
                            VirtioInputEvent { ev_type: 1, code: spec_button_code(button), value: 1 },
                        ]);
                    }
                }
            },
            MouseAction::ButtonRelease => {
                if let Some(button) = event.button {
                    let code = Self::mouse_button_to_code(button);
                    self.pending.push(VirtioInputEvent::keyboard(code, false));
                    proof {
                        assert(self.pending@ =~= old(self).pending@ + seq![
                            VirtioInputEvent { ev_type: 1, code: spec_button_code(button), value: 0 },
                        ]);
                    }
                }
            },
            MouseAction::Click => {
                if let Some(button) = event.button {
                    let code = Self::mouse_button_to_code(button);
                    self.pending.push(VirtioInputEvent::keyboard(code, true));
                    self.pending.push(VirtioInputEvent::keyboard(code, false));
                    proof {
                        assert(self.pending@ =~= old(self).pending@ + seq![
                            VirtioInputEvent { ev_type: 1, code: spec_button_code(button), value: 1 },
                            VirtioInputEvent { ev_type: 1, code: spec_button_code(button), value: 0 },
                        ]);
                    }
                }
            },
            MouseAction::Scroll => {
                self.pending.push(VirtioInputEvent::rel(0x08, event.z));  // REL_WHEEL
                proof {
                    assert(self.pending@ =~= old(self).pending@ + seq![
                        VirtioInputEvent { ev_type: 2, code: 8, value: event.z as u32 },
                    ]);
                }
            },
        }
        Ok(())
    }

    /// Dispatch a generic event on its kind; refused until ready.
    fn inject(&mut self, event: &InputEvent) -> (r: Result<(), InputError>)
        ensures
            r is Ok <==> old(self).spec_ready(),
            final(self).spec_ready() == old(self).spec_ready(),
            final(self).spec_capabilities() == old(self).spec_capabilities(),
            final(self).spec_screen() == old(self).spec_screen(),
    {
        match event {
            InputEvent::Keyboard(kb) => self.inject_keyboard(kb),
            InputEvent::Mouse(m) => self.inject_mouse(m),
        }
    }

    /// Nothing beyond the pending queue is buffered.
    fn flush(&mut self) -> (r: Result<(), InputError>)
        ensures
            r is Ok,
            *final(self) == *old(self),
    {
        Ok(())
    }
}

// ============================================================================
// Backend Factory
// ============================================================================

/// Available backend types.
#[derive(Clone, Copy, Debug, PartialEq, Eq, Structural)]
pub enum BackendType {
    /// PS/2 backend (i8042)
    Ps2,
    /// VirtIO input backend
    Virtio,
    /// USB HID backend
    UsbHid,
}

impl Default for BackendType {
    /// The default backend is PS/2.
    fn default() -> (r: Self)
        ensures
            r == BackendType::Ps2,
    {
        BackendType::Ps2
    }
}

/// An ASCII byte with upper-case letters folded to lower case.
pub open spec fn ascii_lower(b: u8) -> u8 {
    if 0x41 <= b <= 0x5A {
        (b + 0x20) as u8
    } else {
        b
    }
}

/// A byte sequence with upper-case ASCII letters folded to lower case.
pub open spec fn ascii_lower_seq(s: Seq<u8>) -> Seq<u8> {
    Seq::new(s.len(), |i: int| ascii_lower(s[i]))
}

/// The backend a name's case-folded bytes stand for, with the aliases
/// each backend answers to; unknown names give nothing.
pub open spec fn backend_of_bytes(folded: Seq<u8>) -> Option<BackendType> {
    if folded =~= seq![0x70u8, 0x73u8, 0x32u8]  // "ps2"
     || folded =~= seq![0x70u8, 0x73u8, 0x2Fu8, 0x32u8]  // "ps/2"
     {
        Some(BackendType::Ps2)
    } else if folded =~= seq![0x76u8, 0x69u8, 0x72u8, 0x74u8, 0x69u8, 0x6Fu8]  // "virtio"
     || folded =~= seq![0x76u8, 0x69u8, 0x72u8, 0x74u8, 0x69u8, 0x6Fu8, 0x2Du8, 0x69u8, 0x6Eu8,
        0x70u8, 0x75u8, 0x74u8,
    ]  // "virtio-input"
     {
        Some(BackendType::Virtio)
    } else if folded =~= seq![0x75u8, 0x73u8, 0x62u8]  // "usb"
     || folded =~= seq![0x75u8, 0x73u8, 0x62u8, 0x2Du8, 0x68u8, 0x69u8, 0x64u8]  // "usb-hid"
     || folded =~= seq![0x68u8, 0x69u8, 0x64u8]  // "hid"
     {
        Some(BackendType::UsbHid)
    } else {
        None
    }
}

/// Whether two byte slices hold the same bytes.
fn bytes_eq(a: &[u8], b: &[u8]) -> (r: bool)
    ensures
        r <==> a@ =~= b@,
{
    if a.len() != b.len() {
        return false;
    }
    let n = a.len();
    let mut i: usize = 0;
    while i < n
        invariant
            n == a@.len() == b@.len(),
            i <= n,
            forall|j: int| 0 <= j < i ==> a@[j] == b@[j],
        decreases n - i,
    {
        if a[i] != b[i] {
            return false;
        }
        i = i + 1;
    }
    true
}

impl BackendType {
    /// The backend name as a short identifier.
    pub fn name(&self) -> (r: &'static str)
        ensures
            *self == BackendType::Ps2 ==> r@ == "ps2"@,
            *self == BackendType::Virtio ==> r@ == "virtio"@,
            *self == BackendType::UsbHid ==> r@ == "usb"@,
    {
        match self {
            BackendType::Ps2 => "ps2",
            BackendType::Virtio => "virtio",
            BackendType::UsbHid => "usb",
        }
    }

    /// Parse a backend type from a name, case-insensitively, accepting
    /// the aliases each backend answers to.
    pub fn from_name(name: &str) -> (r: Option<BackendType>)
        ensures
            r == backend_of_bytes(ascii_lower_seq(name.spec_bytes())),
    {
        let bytes = name.as_bytes();
        let mut folded: Vec<u8> = Vec::new();
        let n = bytes.len();
        let mut i: usize = 0;
        while i < n
            invariant
                n == bytes@.len(),
                i <= n,
                folded@.len() == i as int,
                forall|j: int| 0 <= j < i ==> folded@[j] == ascii_lower(bytes@[j]),
            decreases n - i,
        {
            let b = bytes[i];
            if 0x41 <= b && b <= 0x5A {
                folded.push(b + 0x20);
            } else {
                folded.push(b);
            }
            i = i + 1;
        }
        proof {
            assert(folded@ =~= ascii_lower_seq(bytes@));
        }

        let ps2: [u8; 3] = [0x70, 0x73, 0x32];
        let ps_slash_2: [u8; 4] = [0x70, 0x73, 0x2F, 0x32];
        let virtio: [u8; 6] = [0x76, 0x69, 0x72, 0x74, 0x69, 0x6F];
        let virtio_input: [u8; 12] = [0x76, 0x69, 0x72, 0x74, 0x69, 0x6F, 0x2D, 0x69, 0x6E, 0x70,
            0x75, 0x74];
        let usb: [u8; 3] = [0x75, 0x73, 0x62];
        let usb_hid: [u8; 7] = [0x75, 0x73, 0x62, 0x2D, 0x68, 0x69, 0x64];
        let hid: [u8; 3] = [0x68, 0x69, 0x64];
        let f = folded.as_slice();
        if bytes_eq(f, ps2.as_slice()) || bytes_eq(f, ps_slash_2.as_slice()) {
            Some(BackendType::Ps2)
        } else if bytes_eq(f, virtio.as_slice()) || bytes_eq(f, virtio_input.as_slice()) {
            Some(BackendType::Virtio)
        } else if bytes_eq(f, usb.as_slice()) || bytes_eq(f, usb_hid.as_slice()) || bytes_eq(
            f,
            hid.as_slice(),
        ) {
            Some(BackendType::UsbHid)
        } else {
            None
        }
    }
}

// ============================================================================
// USB HID Backend
// ============================================================================

/// The 8-byte USB HID keyboard report a keyboard event turns into:
/// modifier bits, a reserved byte, then up to six key codes.
pub open spec fn spec_keyboard_report(event: KeyboardEvent, hid_code: u8) -> Seq<u8> {
    let modifiers = (if event.modifiers.ctrl {
        1u8
    } else {
        0u8
    }) | (if event.modifiers.shift {
        2u8
    } else {
        0u8
    }) | (if event.modifiers.alt {
        4u8
    } else {
        0u8
    }) | (if event.modifiers.meta {
        8u8
    } else {
        0u8
    });
    let key = if event.action == KeyboardAction::Release {
        0u8
    } else {
        hid_code
    };
    seq![modifiers, 0u8, key, 0u8, 0u8, 0u8, 0u8, 0u8]
}

/// The 6-byte USB HID mouse report a mouse event turns into: button
/// bits (with the event's own button applied on press, click and
/// release), then the X, Y and wheel deltas clamped to the signed byte
/// range.
pub open spec fn spec_mouse_report(event: MouseEvent) -> Seq<u8> {
    let held = (if event.buttons.left {
        1u8
    } else {
        0u8
    }) | (if event.buttons.right {
        2u8
    } else {
        0u8
    }) | (if event.buttons.middle {
        4u8
    } else {
        0u8
    });
    let buttons = match event.button {
        Some(b) => {
            let mask = spec_button_mask(b);
            if event.action == MouseAction::ButtonPress || event.action == MouseAction::Click {
                held | mask
            } else if event.action == MouseAction::ButtonRelease {
                held & !mask
            } else {
                held
            }
        },
        None => held,
    };
    seq![
        buttons,
        (spec_clamp(event.x as int, -127, 127) as i8) as u8,
        (spec_clamp(event.y as int, -127, 127) as i8) as u8,
        (spec_clamp(event.z as int, -127, 127) as i8) as u8,
        0u8,
        0u8,
    ]
}

/// The report bit a mouse button occupies.
pub open spec fn spec_button_mask(b: MouseButton) -> u8 {
    match b {
        MouseButton::Left => 1,
        MouseButton::Right => 2,
        MouseButton::Middle => 4,
        MouseButton::Side => 8,
        MouseButton::Extra => 16,
    }
}

/// USB HID input backend: keyboard and mouse through emulated USB HID
/// devices; medium stealth. The backend owns its keyboard and mouse
/// device models and queues reports into them.
pub struct UsbHidBackend {
    capabilities: InputCapabilities,
    ready: bool,
    /// Keyboard LED state (bit 0 NumLock, bit 1 CapsLock, bit 2 ScrollLock)
    keyboard_leds: u8,
    /// Mouse button state (bit 0 left, bit 1 right, bit 2 middle)
    mouse_buttons: u8,
    /// Keyboard HID device
    keyboard_device: Option<UsbHidDevice>,
    /// Mouse HID device
    mouse_device: Option<UsbHidDevice>,
}

impl UsbHidBackend {
    /// The stored capabilities.
    pub closed spec fn spec_capabilities(&self) -> InputCapabilities {
        self.capabilities
    }

    /// Whether the backend is ready.
    pub closed spec fn spec_ready(&self) -> bool {
        self.ready
    }

    /// The keyboard LED state.
    pub closed spec fn spec_keyboard_leds(&self) -> u8 {
        self.keyboard_leds
    }

    /// The mouse button state.
    pub closed spec fn spec_mouse_buttons(&self) -> u8 {
        self.mouse_buttons
    }

    /// The wrapped keyboard device, if set.
    pub closed spec fn spec_keyboard_device(&self) -> Option<UsbHidDevice> {
        self.keyboard_device
    }

    /// The wrapped mouse device, if set.
    pub closed spec fn spec_mouse_device(&self) -> Option<UsbHidDevice> {
        self.mouse_device
    }

    /// Create a USB HID backend, not yet ready and with no devices.
    pub fn new() -> (r: Self)
        ensures
            r.spec_capabilities().max_keyboard_rate == 1000,
            r.spec_capabilities().supports_absolute_mouse,
            !r.spec_capabilities().supports_multi_touch,
            r.spec_capabilities().supports_scroll_wheel,
            r.spec_capabilities().max_scroll_range == 127,
            r.spec_capabilities().stealth_level == StealthLevel::Medium,
            r.spec_capabilities().name@ == "usb-hid"@,
            !r.spec_ready(),
            r.spec_keyboard_leds() == 0,
            r.spec_mouse_buttons() == 0,
            r.spec_keyboard_device() is None,
            r.spec_mouse_device() is None,
    {
        Self {
            capabilities: InputCapabilities {
                max_keyboard_rate: 1000,
                supports_absolute_mouse: true,
                supports_multi_touch: false,
                supports_scroll_wheel: true,
                max_scroll_range: 127,
                stealth_level: StealthLevel::Medium,
                name: "usb-hid",
                description: "USB Human Interface Device (keyboard + mouse)",
            },
            ready: false,
            keyboard_leds: 0,
            mouse_buttons: 0,
            keyboard_device: None,
            mouse_device: None,
        }
    }

    /// Set the ready state; call after configuring the devices.
    pub fn set_ready(&mut self, ready: bool)
        ensures
            final(self).spec_ready() == ready,
            final(self).spec_capabilities() == old(self).spec_capabilities(),
            final(self).spec_keyboard_device() == old(self).spec_keyboard_device(),
            final(self).spec_mouse_device() == old(self).spec_mouse_device(),
    {
        self.ready = ready;
    }

    /// Install the keyboard HID device.
    pub fn set_keyboard_device(&mut self, device: UsbHidDevice)
        ensures
            final(self).spec_keyboard_device() == Some(device),
            final(self).spec_ready() == old(self).spec_ready(),
            final(self).spec_capabilities() == old(self).spec_capabilities(),
            final(self).spec_mouse_device() == old(self).spec_mouse_device(),
    {
        self.keyboard_device = Some(device);
    }

    /// Install the mouse HID device.
    pub fn set_mouse_device(&mut self, device: UsbHidDevice)
        ensures
            final(self).spec_mouse_device() == Some(device),
            final(self).spec_ready() == old(self).spec_ready(),
            final(self).spec_capabilities() == old(self).spec_capabilities(),
            final(self).spec_keyboard_device() == old(self).spec_keyboard_device(),
    {
        self.mouse_device = Some(device);
    }

    /// Get the keyboard LED state bitmask.
    pub fn keyboard_leds(&self) -> (r: u8)
        ensures
            r == self.spec_keyboard_leds(),
    {
        self.keyboard_leds
    }

    /// Get the mouse button state bitmask.
    pub fn mouse_buttons(&self) -> (r: u8)
        ensures
            r == self.spec_mouse_buttons(),
    {
        self.mouse_buttons
    }

    /// Convert a PS/2 set-1 scancode to a USB HID usage code (simplified
    /// mapping; unmapped codes pass through truncated).
    pub fn scancode_to_hid(&self, scancode: u16) -> (r: u8)
        ensures
            r == spec_scancode_to_hid(scancode),
    {
        if scancode == 0x01 {
            0x29  // Escape
        } else if 0x02 <= scancode && scancode <= 0x0B {
            (scancode - 0x02 + 0x1E) as u8  // 1-0
        } else if scancode == 0x0E {
            0x2A  // Backspace
        } else if scancode == 0x0F {
            0x2B  // Tab
        } else if 0x1E <= scancode && scancode <= 0x26 {
            (scancode - 0x1E + 0x04) as u8  // A-row letters
        } else if scancode == 0x1C {
            0x28  // Enter
        } else if scancode == 0x2A {
            0xE1  // Left Shift
        } else if scancode == 0x1D {
            0xE0  // Left Ctrl
        } else if scancode == 0x38 {
            0xE2  // Left Alt
        } else if scancode == 0x39 {
            0x2C  // Space
        } else {
            #[verifier::truncate]
            let fallback = scancode as u8;
            proof {
                let v = scancode;
                assert(v as u8 == (v & 0xFF) as u8) by (bit_vector);
            }
            fallback
        }
    }

    /// Build the 8-byte USB HID keyboard report for a keyboard event.
    pub fn keyboard_to_hid_report(&self, event: &KeyboardEvent) -> (r: Vec<u8>)
        ensures
            r@ == spec_keyboard_report(*event, spec_scancode_to_hid(event.code)),
    {
        // Modifier byte: left ctrl, shift, alt and GUI bits
        let modifiers: u8 = (if event.modifiers.ctrl {
            1u8
        } else {
            0u8
        }) | (if event.modifiers.shift {
            2u8
        } else {
            0u8
        }) | (if event.modifiers.alt {
            4u8
        } else {
            0u8
        }) | (if event.modifiers.meta {
            8u8
        } else {
            0u8
        });
        let key: u8 = match event.action {
            KeyboardAction::Press | KeyboardAction::Type => self.scancode_to_hid(event.code),
            KeyboardAction::Release => 0,
        };
        let mut report: Vec<u8> = Vec::new();
        report.push(modifiers);
        report.push(0);
        report.push(key);
        report.push(0);
        report.push(0);
        report.push(0);
        report.push(0);
        report.push(0);
        proof {
            assert(report@ =~= spec_keyboard_report(*event, spec_scancode_to_hid(event.code)));
        }
        report
    }

    /// Build the 6-byte USB HID mouse report for a mouse event: button
    /// bits, then X, Y and wheel deltas clamped to the signed byte range.
    pub fn mouse_to_hid_report(&mut self, event: &MouseEvent) -> (r: Vec<u8>)
        ensures
            r@ == spec_mouse_report(*event),
            *final(self) == *old(self),
    {
        // Button byte from the held-button states
        let held: u8 = (if event.buttons.left {
            1u8
        } else {
            0u8
        }) | (if event.buttons.right {
            2u8
        } else {
            0u8
        }) | (if event.buttons.middle {
            4u8
        } else {
            0u8
        });
        let buttons: u8 = match event.button {
            Some(btn) => {
                let mask: u8 = match btn {
                    MouseButton::Left => 1,
                    MouseButton::Right => 2,
                    MouseButton::Middle => 4,
                    MouseButton::Side => 8,
                    MouseButton::Extra => 16,
                };
                if matches!(event.action, MouseAction::ButtonPress | MouseAction::Click) {
                    held | mask
                } else if matches!(event.action, MouseAction::ButtonRelease) {
                    held & !mask
                } else {
                    held
                }
            },
            None => held,
        };
        let mut report: Vec<u8> = Vec::new();
        report.push(buttons);
        report.push(clamp_to_i8(event.x));
        report.push(clamp_to_i8(event.y));
        report.push(clamp_to_i8(event.z));
        report.push(0);
        report.push(0);
        proof {
            assert(report@ =~= spec_mouse_report(*event));
        }
        report
    }
}

/// The USB HID usage code a PS/2 set-1 scancode maps to.
pub open spec fn spec_scancode_to_hid(scancode: u16) -> u8 {
    if scancode == 0x01 {
        0x29
    } else if 0x02 <= scancode <= 0x0B {
        (scancode - 0x02 + 0x1E) as u8
    } else if scancode == 0x0E {
        0x2A
    } else if scancode == 0x0F {
        0x2B
    } else if 0x1E <= scancode <= 0x26 {
        (scancode - 0x1E + 0x04) as u8
    } else if scancode == 0x1C {
        0x28
    } else if scancode == 0x2A {
        0xE1
    } else if scancode == 0x1D {
        0xE0
    } else if scancode == 0x38 {
        0xE2
    } else if scancode == 0x39 {
        0x2C
    } else {
        (scancode & 0xFF) as u8
    }
}

/// A delta clamped into -127..=127 and reinterpreted as a byte.
fn clamp_to_i8(v: i32) -> (r: u8)
    ensures
        r == (spec_clamp(v as int, -127, 127) as i8) as u8,
{
    let clamped: i32 = if v < -127 {
        -127
    } else if v > 127 {
        127
    } else {
        v
    };
    #[verifier::truncate]
    let as_byte = clamped as i8 as u8;
    proof {
        assert((clamped as i8) as u8 == as_byte) by (bit_vector)
            requires
                -127 <= clamped <= 127,
                as_byte == (clamped as i8) as u8,
        ;
    }
    as_byte
}

impl Default for UsbHidBackend {
    /// The default USB HID backend is a fresh, not-yet-ready one.
    fn default() -> (r: Self)
        ensures
            !r.spec_ready(),
    {
        Self::new()
    }
}

impl InputBackend for UsbHidBackend {
    /// The stored backend name.
    fn name(&self) -> &'static str {
        self.capabilities.name
    }

    /// A copy of the stored capabilities.
    fn capabilities(&self) -> (r: InputCapabilities)
        ensures
            r == self.spec_capabilities(),
    {
        self.capabilities.clone()
    }

    /// Ready once the devices have been configured.
    fn is_ready(&self) -> (r: bool)
        ensures
            r == self.spec_ready(),
    {
        self.ready
    }

    /// Inject a keyboard event: refused until ready; otherwise the HID
    /// report is queued into the keyboard device, if one is set.
    fn inject_keyboard(&mut self, event: &KeyboardEvent) -> (r: Result<(), InputError>)
        ensures
            !old(self).spec_ready() ==> r == Err::<(), InputError>(InputError::DeviceNotReady)
                && *final(self) == *old(self),
            old(self).spec_ready() ==> r is Ok,
            old(self).spec_ready() && old(self).spec_keyboard_device() is Some ==> final(self).spec_keyboard_device() is Some && {
                let reports = final(self).spec_keyboard_device()->Some_0.spec_reports();
                reports.len() > 0 && reports.last()@ == spec_keyboard_report(
                    *event,
                    spec_scancode_to_hid(event.code),
                )
            },
            old(self).spec_keyboard_device() is None ==> final(self).spec_keyboard_device() is None,
            final(self).spec_ready() == old(self).spec_ready(),
            final(self).spec_capabilities() == old(self).spec_capabilities(),
            final(self).spec_mouse_device() == old(self).spec_mouse_device(),
    {
        if !self.ready {
            return Err(InputError::DeviceNotReady);
        }
        // Generate the HID report and queue it into the keyboard device
        let report = self.keyboard_to_hid_report(event);
        if let Some(dev) = &mut self.keyboard_device {
            dev.queue_report(report);
        }
        Ok(())
    }

    /// Inject a mouse event: refused until ready; otherwise the HID
    /// report is queued into the mouse device, if one is set.
    fn inject_mouse(&mut self, event: &MouseEvent) -> (r: Result<(), InputError>)
        ensures
            !old(self).spec_ready() ==> r == Err::<(), InputError>(InputError::DeviceNotReady)
                && *final(self) == *old(self),
            old(self).spec_ready() ==> r is Ok,
            old(self).spec_ready() && old(self).spec_mouse_device() is Some ==> final(self).spec_mouse_device() is Some && {
                let reports = final(self).spec_mouse_device()->Some_0.spec_reports();
                reports.len() > 0 && reports.last()@ == spec_mouse_report(*event)
            },
            old(self).spec_mouse_device() is None ==> final(self).spec_mouse_device() is None,
            final(self).spec_ready() == old(self).spec_ready(),
            final(self).spec_capabilities() == old(self).spec_capabilities(),
            final(self).spec_keyboard_device() == old(self).spec_keyboard_device(),
    {
        if !self.ready {
            return Err(InputError::DeviceNotReady);
        }
        // Generate the HID report and queue it into the mouse device
        let report = self.mouse_to_hid_report(event);
        if let Some(dev) = &mut self.mouse_device {
            dev.queue_report(report);
        }
        Ok(())
    }

    /// Dispatch a generic event on its kind.
    fn inject(&mut self, event: &InputEvent) -> Result<(), InputError> {
        match event {
            InputEvent::Keyboard(kb) => self.inject_keyboard(kb),
            InputEvent::Mouse(m) => self.inject_mouse(m),
        }
    }

    /// Nothing beyond the device queues is buffered.
    fn flush(&mut self) -> Result<(), InputError> {
        Ok(())
    }
}

} // verus!
