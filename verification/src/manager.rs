//! Input manager: coordinates input injection across the PS/2 and VirtIO
//! backends behind one API for a single VM.

use vstd::prelude::*;

use crate::backend::{BackendType, InputBackend, InputCapabilities, Ps2Backend, VirtioInputBackend};
use crate::event::{InputError, InputEvent, KeyboardAction, KeyboardEvent, MouseAction, MouseButton, MouseButtons, MouseEvent};

verus! {

/// Input manager configuration.
#[derive(Clone, Debug)]
pub struct InputConfig {
    /// Default backend to use
    pub default_backend: BackendType,
    /// Allow backend switching at runtime
    pub allow_backend_switch: bool,
    /// Enable keyboard input
    pub enable_keyboard: bool,
    /// Enable mouse input
    pub enable_mouse: bool,
}

impl Default for InputConfig {
    /// A default configuration names the PS/2 backend with every feature
    /// switched off.
    fn default() -> (r: Self)
        ensures
            r == (InputConfig {
                default_backend: BackendType::Ps2,
                allow_backend_switch: false,
                enable_keyboard: false,
                enable_mouse: false,
            }),
    {
        InputConfig {
            default_backend: BackendType::Ps2,
            allow_backend_switch: false,
            enable_keyboard: false,
            enable_mouse: false,
        }
    }
}

impl InputConfig {
    /// A configuration with PS/2 as the default backend and everything
    /// enabled.
    pub fn new() -> (r: Self)
        ensures
            r == (InputConfig {
                default_backend: BackendType::Ps2,
                allow_backend_switch: true,
                enable_keyboard: true,
                enable_mouse: true,
            }),
    {
        InputConfig {
            default_backend: BackendType::Ps2,
            allow_backend_switch: true,
            enable_keyboard: true,
            enable_mouse: true,
        }
    }

    /// The configuration for automation use: PS/2 for stealth.
    pub fn automation() -> (r: Self)
        ensures
            r == (InputConfig {
                default_backend: BackendType::Ps2,
                allow_backend_switch: true,
                enable_keyboard: true,
                enable_mouse: true,
            }),
    {
        Self::new()
    }

    /// The configuration for standard VM use: virtio-input.
    pub fn standard() -> (r: Self)
        ensures
            r == (InputConfig {
                default_backend: BackendType::Virtio,
                allow_backend_switch: true,
                enable_keyboard: true,
                enable_mouse: true,
            }),
    {
        InputConfig {
            default_backend: BackendType::Virtio,
            allow_backend_switch: true,
            enable_keyboard: true,
            enable_mouse: true,
        }
    }
}

/// Input statistics.
#[derive(Clone, Debug, PartialEq, Eq, Structural)]
pub struct InputStats {
    /// Keyboard events injected
    pub keyboard_events: u64,
    /// Mouse events injected
    pub mouse_events: u64,
    /// Total events injected
    pub total_events: u64,
    /// Failed injections
    pub errors: u64,
}

impl Default for InputStats {
    /// Default statistics are all zero.
    fn default() -> (r: Self)
        ensures
            r == (InputStats { keyboard_events: 0, mouse_events: 0, total_events: 0, errors: 0 }),
    {
        InputStats { keyboard_events: 0, mouse_events: 0, total_events: 0, errors: 0 }
    }
}

/// `x + 1`, staying put at the top of the range.
pub open spec fn sat_inc(x: u64) -> u64 {
    if x < u64::MAX {
        (x + 1) as u64
    } else {
        x
    }
}

/// Input manager for a single VM.
pub struct InputManager {
    /// Configuration
    config: InputConfig,
    /// Active backend type
    active_backend: BackendType,
    /// PS/2 backend
    ps2_backend: Option<Ps2Backend>,
    /// VirtIO backend
    virtio_backend: Option<VirtioInputBackend>,
    /// Statistics
    stats: InputStats,
}

impl InputManager {
    /// The configuration.
    pub closed spec fn spec_config(&self) -> InputConfig {
        self.config
    }

    /// The active backend type.
    pub closed spec fn spec_active(&self) -> BackendType {
        self.active_backend
    }

    /// Whether the PS/2 backend is initialized.
    pub closed spec fn has_ps2(&self) -> bool {
        self.ps2_backend is Some
    }

    /// Whether the VirtIO backend is initialized.
    pub closed spec fn has_virtio(&self) -> bool {
        self.virtio_backend is Some
    }

    /// Whether the initialized VirtIO backend reports ready.
    pub closed spec fn virtio_ready(&self) -> bool {
        self.virtio_backend is Some && self.virtio_backend->Some_0.spec_ready()
    }

    /// The statistics.
    pub closed spec fn spec_stats(&self) -> InputStats {
        self.stats
    }

    /// Whether a keyboard injection on the active backend succeeds: the
    /// keyboard must be enabled; the PS/2 path always accepts (a missing
    /// backend is skipped); the VirtIO path refuses only an initialized
    /// but unready backend; USB HID is not wired up.
    pub open spec fn keyboard_accepts(&self) -> bool {
        &&& self.spec_config().enable_keyboard
        &&& match self.spec_active() {
            BackendType::Ps2 => true,
            BackendType::Virtio => self.has_virtio() ==> self.virtio_ready(),
            BackendType::UsbHid => false,
        }
    }

    /// Whether a mouse injection on the active backend succeeds, under
    /// the same rules with the mouse-enable switch.
    pub open spec fn mouse_accepts(&self) -> bool {
        &&& self.spec_config().enable_mouse
        &&& match self.spec_active() {
            BackendType::Ps2 => true,
            BackendType::Virtio => self.has_virtio() ==> self.virtio_ready(),
            BackendType::UsbHid => false,
        }
    }

    /// Create an input manager with no backends initialized.
    pub fn new(config: InputConfig) -> (r: Self)
        ensures
            r.spec_config() == config,
            r.spec_active() == config.default_backend,
            !r.has_ps2(),
            !r.has_virtio(),
            r.spec_stats() == InputStats::default_spec(),
    {
        let active_backend = config.default_backend;
        Self {
            config,
            active_backend,
            ps2_backend: None,
            virtio_backend: None,
            stats: InputStats::default(),
        }
    }

    /// Create a manager with the everything-enabled PS/2 configuration.
    pub fn default_config() -> (r: Self)
        ensures
            r.spec_active() == BackendType::Ps2,
            !r.has_ps2(),
            !r.has_virtio(),
            r.spec_stats() == InputStats::default_spec(),
    {
        Self::new(InputConfig::new())
    }

    /// Initialize the PS/2 backend.
    pub fn init_ps2_backend(&mut self)
        ensures
            final(self).has_ps2(),
            final(self).spec_config() == old(self).spec_config(),
            final(self).spec_active() == old(self).spec_active(),
            final(self).has_virtio() == old(self).has_virtio(),
            final(self).virtio_ready() == old(self).virtio_ready(),
            final(self).spec_stats() == old(self).spec_stats(),
    {
        self.ps2_backend = Some(Ps2Backend::new());
    }

    /// Initialize the VirtIO backend (not yet ready).
    pub fn init_virtio_backend(&mut self)
        ensures
            final(self).has_virtio(),
            !final(self).virtio_ready(),
            final(self).spec_config() == old(self).spec_config(),
            final(self).spec_active() == old(self).spec_active(),
            final(self).has_ps2() == old(self).has_ps2(),
            final(self).spec_stats() == old(self).spec_stats(),
    {
        self.virtio_backend = Some(VirtioInputBackend::new());
    }

    /// Get the active backend type.
    pub fn active_backend(&self) -> (r: BackendType)
        ensures
            r == self.spec_active(),
    {
        self.active_backend
    }

    /// Switch the active backend: refused when switching is disabled,
    /// when the target backend is not initialized, or for the USB HID
    /// backend, which is not wired up.
    pub fn switch_backend(&mut self, backend: BackendType) -> (r: Result<(), InputError>)
        ensures
            final(self).spec_config() == old(self).spec_config(),
            final(self).has_ps2() == old(self).has_ps2(),
            final(self).has_virtio() == old(self).has_virtio(),
            final(self).virtio_ready() == old(self).virtio_ready(),
            final(self).spec_stats() == old(self).spec_stats(),
            r is Ok <==> (old(self).spec_config().allow_backend_switch && (match backend {
                BackendType::Ps2 => old(self).has_ps2(),
                BackendType::Virtio => old(self).has_virtio(),
                BackendType::UsbHid => false,
            })),
            r is Ok ==> final(self).spec_active() == backend,
            r is Err ==> final(self).spec_active() == old(self).spec_active(),
    {
        if !self.config.allow_backend_switch {
            return Err(InputError::UnsupportedAction(String::new()));
        }
        // Check that the backend is available
        match backend {
            BackendType::Ps2 => {
                if self.ps2_backend.is_none() {
                    return Err(InputError::BackendNotAvailable(String::new()));
                }
            },
            BackendType::Virtio => {
                if self.virtio_backend.is_none() {
                    return Err(InputError::BackendNotAvailable(String::new()));
                }
            },
            BackendType::UsbHid => {
                return Err(InputError::BackendNotAvailable(String::new()));
            },
        }
        self.active_backend = backend;
        Ok(())
    }

    /// The stored capabilities of the initialized backends.
    pub closed spec fn spec_ps2_capabilities(&self) -> InputCapabilities {
        self.ps2_backend->Some_0.spec_capabilities()
    }

    /// The stored capabilities of the initialized VirtIO backend.
    pub closed spec fn spec_virtio_capabilities(&self) -> InputCapabilities {
        self.virtio_backend->Some_0.spec_capabilities()
    }

    /// The active backend's capabilities, when it is initialized.
    pub fn capabilities(&self) -> (r: Option<InputCapabilities>)
        ensures
            r == (match self.spec_active() {
                BackendType::Ps2 => if self.has_ps2() {
                    Some(self.spec_ps2_capabilities())
                } else {
                    None::<InputCapabilities>
                },
                BackendType::Virtio => if self.has_virtio() {
                    Some(self.spec_virtio_capabilities())
                } else {
                    None::<InputCapabilities>
                },
                BackendType::UsbHid => None::<InputCapabilities>,
            }),
    {
        match self.active_backend {
            BackendType::Ps2 => {
                match &self.ps2_backend {
                    Some(b) => Some(b.capabilities()),
                    None => None,
                }
            },
            BackendType::Virtio => {
                match &self.virtio_backend {
                    Some(b) => Some(b.capabilities()),
                    None => None,
                }
            },
            BackendType::UsbHid => None,
        }
    }

    /// Whether the active backend is initialized and ready.
    pub fn is_ready(&self) -> (r: bool)
        ensures
            r == (match self.spec_active() {
                BackendType::Ps2 => self.has_ps2(),
                BackendType::Virtio => self.virtio_ready(),
                BackendType::UsbHid => false,
            }),
    {
        match self.active_backend {
            BackendType::Ps2 => {
                match &self.ps2_backend {
                    Some(b) => b.is_ready(),
                    None => false,
                }
            },
            BackendType::Virtio => {
                match &self.virtio_backend {
                    Some(b) => b.is_ready(),
                    None => false,
                }
            },
            BackendType::UsbHid => false,
        }
    }

    /// Inject a single event on the active backend; on success the
    /// statistics count it by kind. A VirtIO backend that is initialized
    /// but not ready refuses; a missing backend is skipped.
    pub fn inject(&mut self, event: &InputEvent) -> (r: Result<(), InputError>)
        ensures
            final(self).spec_config() == old(self).spec_config(),
            final(self).spec_active() == old(self).spec_active(),
            final(self).has_ps2() == old(self).has_ps2(),
            final(self).has_virtio() == old(self).has_virtio(),
            final(self).virtio_ready() == old(self).virtio_ready(),
            r is Ok <==> (match old(self).spec_active() {
                BackendType::Ps2 => true,
                BackendType::Virtio => old(self).has_virtio() ==> old(self).virtio_ready(),
                BackendType::UsbHid => false,
            }),
            r is Ok ==> final(self).spec_stats() == (match event {
                InputEvent::Keyboard(_) => InputStats {
                    keyboard_events: sat_inc(old(self).spec_stats().keyboard_events),
                    total_events: sat_inc(old(self).spec_stats().total_events),
                    ..old(self).spec_stats()
                },
                InputEvent::Mouse(_) => InputStats {
                    mouse_events: sat_inc(old(self).spec_stats().mouse_events),
                    total_events: sat_inc(old(self).spec_stats().total_events),
                    ..old(self).spec_stats()
                },
            }),
            r is Err ==> final(self).spec_stats() == old(self).spec_stats(),
    {
        match self.active_backend {
            BackendType::Ps2 => {
                if let Some(backend) = &mut self.ps2_backend {
                    match backend.inject(event) {
                        Ok(_) => {},
                        Err(e) => {
                            return Err(e);
                        },
                    }
                }
            },
            BackendType::Virtio => {
                if let Some(backend) = &mut self.virtio_backend {
                    match backend.inject(event) {
                        Ok(_) => {},
                        Err(e) => {
                            return Err(e);
                        },
                    }
                }
            },
            BackendType::UsbHid => {
                return Err(InputError::BackendNotAvailable(String::new()));
            },
        }

        // Count the event by kind
        match event {
            InputEvent::Keyboard(_) => {
                if self.stats.keyboard_events < u64::MAX {
                    self.stats.keyboard_events = self.stats.keyboard_events + 1;
                }
            },
            InputEvent::Mouse(_) => {
                if self.stats.mouse_events < u64::MAX {
                    self.stats.mouse_events = self.stats.mouse_events + 1;
                }
            },
        }
        if self.stats.total_events < u64::MAX {
            self.stats.total_events = self.stats.total_events + 1;
        }
        Ok(())
    }

    /// Inject a keyboard event; refused when keyboard input is disabled.
    pub fn inject_keyboard(&mut self, event: &KeyboardEvent) -> (r: Result<(), InputError>)
        ensures
            final(self).spec_config() == old(self).spec_config(),
            final(self).spec_active() == old(self).spec_active(),
            final(self).has_ps2() == old(self).has_ps2(),
            final(self).has_virtio() == old(self).has_virtio(),
            final(self).virtio_ready() == old(self).virtio_ready(),
            r is Ok <==> old(self).keyboard_accepts(),
            r is Ok ==> final(self).spec_stats() == (InputStats {
                keyboard_events: sat_inc(old(self).spec_stats().keyboard_events),
                total_events: sat_inc(old(self).spec_stats().total_events),
                ..old(self).spec_stats()
            }),
            r is Err ==> final(self).spec_stats() == old(self).spec_stats(),
    {
        if !self.config.enable_keyboard {
            return Err(InputError::UnsupportedAction(String::new()));
        }
        self.inject(&InputEvent::Keyboard(*event))
    }

    /// Inject a mouse event; refused when mouse input is disabled.
    pub fn inject_mouse(&mut self, event: &MouseEvent) -> (r: Result<(), InputError>)
        ensures
            final(self).spec_config() == old(self).spec_config(),
            final(self).spec_active() == old(self).spec_active(),
            final(self).has_ps2() == old(self).has_ps2(),
            final(self).has_virtio() == old(self).has_virtio(),
            final(self).virtio_ready() == old(self).virtio_ready(),
            r is Ok <==> old(self).mouse_accepts(),
            r is Ok ==> final(self).spec_stats() == (InputStats {
                mouse_events: sat_inc(old(self).spec_stats().mouse_events),
                total_events: sat_inc(old(self).spec_stats().total_events),
                ..old(self).spec_stats()
            }),
            r is Err ==> final(self).spec_stats() == old(self).spec_stats(),
    {
        if !self.config.enable_mouse {
            return Err(InputError::UnsupportedAction(String::new()));
        }
        self.inject(&InputEvent::Mouse(*event))
    }

    /// Process a batch request: an optional backend override is applied
    /// first (an unknown or unavailable name fails the whole request),
    /// then every keyboard and mouse event is injected; failures are
    /// counted, not propagated. The returned statistics count this
    /// request's events alone.
    pub fn process_request(&mut self, request: &crate::event::InputRequest) -> (r: Result<
        InputStats,
        InputError,
    >)
        requires
            request.keyboard@.len() + request.mouse@.len() <= u64::MAX,
        ensures
            final(self).spec_config() == old(self).spec_config(),
            final(self).has_ps2() == old(self).has_ps2(),
            final(self).has_virtio() == old(self).has_virtio(),
            final(self).virtio_ready() == old(self).virtio_ready(),
            request.backend is None ==> r is Ok,
            r is Ok ==> {
                let m = *final(self);
                &&& (request.backend is None ==> m.spec_active() == old(self).spec_active())
                &&& r->Ok_0.keyboard_events == (if m.keyboard_accepts() {
                    request.keyboard@.len() as int
                } else {
                    0int
                })
                &&& r->Ok_0.mouse_events == (if m.mouse_accepts() {
                    request.mouse@.len() as int
                } else {
                    0int
                })
                &&& r->Ok_0.total_events == r->Ok_0.keyboard_events + r->Ok_0.mouse_events
                &&& r->Ok_0.errors == (if m.keyboard_accepts() {
                    0int
                } else {
                    request.keyboard@.len() as int
                }) + (if m.mouse_accepts() {
                    0int
                } else {
                    request.mouse@.len() as int
                })
            },
            r is Err ==> final(self).spec_stats() == old(self).spec_stats() && final(self).spec_active() == old(self).spec_active(),
    {
        // Apply the backend override, if any
        if let Some(backend_name) = &request.backend {
            match BackendType::from_name(backend_name.as_str()) {
                Some(backend_type) => {
                    match self.switch_backend(backend_type) {
                        Ok(_) => {},
                        Err(e) => {
                            return Err(e);
                        },
                    }
                },
                None => {
                    return Err(InputError::BackendNotAvailable(String::new()));
                },
            }
        }

        let mut stats = InputStats::default();

        // Inject the keyboard events, counting failures
        let kb_count = request.keyboard.len();
        let mut i: usize = 0;
        while i < kb_count
            invariant
                kb_count == request.keyboard@.len(),
                i <= kb_count,
                kb_count + request.mouse@.len() <= u64::MAX,
                self.spec_config() == old(self).spec_config(),
                self.has_ps2() == old(self).has_ps2(),
                self.has_virtio() == old(self).has_virtio(),
                self.virtio_ready() == old(self).virtio_ready(),
                self.spec_active() == (if request.backend is None {
                    old(self).spec_active()
                } else {
                    self.spec_active()
                }),
                self.keyboard_accepts() ==> stats.keyboard_events == i && stats.errors == 0,
                !self.keyboard_accepts() ==> stats.keyboard_events == 0 && stats.errors == i,
                stats.mouse_events == 0,
                stats.total_events == stats.keyboard_events,
                exists|m0: InputManager|
                    #[trigger] m0.spec_active() == self.spec_active() && m0.spec_config()
                        == self.spec_config() && m0.has_ps2() == self.has_ps2() && m0.has_virtio()
                        == self.has_virtio() && m0.virtio_ready() == self.virtio_ready(),
            decreases kb_count - i,
        {
            let ghost pre = *self;
            let event = request.keyboard[i];
            match self.inject_keyboard(&event) {
                Ok(_) => {
                    if stats.keyboard_events < u64::MAX {
                        stats.keyboard_events = stats.keyboard_events + 1;
                    }
                    if stats.total_events < u64::MAX {
                        stats.total_events = stats.total_events + 1;
                    }
                },
                Err(_) => {
                    if stats.errors < u64::MAX {
                        stats.errors = stats.errors + 1;
                    }
                },
            }
            i = i + 1;
        }

        // Inject the mouse events, counting failures
        let mouse_count = request.mouse.len();
        let mut j: usize = 0;
        while j < mouse_count
            invariant
                mouse_count == request.mouse@.len(),
                j <= mouse_count,
                kb_count == request.keyboard@.len(),
                kb_count + mouse_count <= u64::MAX,
                self.spec_config() == old(self).spec_config(),
                self.has_ps2() == old(self).has_ps2(),
                self.has_virtio() == old(self).has_virtio(),
                self.virtio_ready() == old(self).virtio_ready(),
                self.spec_active() == (if request.backend is None {
                    old(self).spec_active()
                } else {
                    self.spec_active()
                }),
                self.keyboard_accepts() ==> stats.keyboard_events == kb_count,
                !self.keyboard_accepts() ==> stats.keyboard_events == 0,
                self.mouse_accepts() ==> stats.mouse_events == j,
                !self.mouse_accepts() ==> stats.mouse_events == 0,
                stats.errors == (if self.keyboard_accepts() {
                    0int
                } else {
                    kb_count as int
                }) + (if self.mouse_accepts() {
                    0int
                } else {
                    j as int
                }),
                stats.total_events == stats.keyboard_events + stats.mouse_events,
            decreases mouse_count - j,
        {
            let event = request.mouse[j];
            match self.inject_mouse(&event) {
                Ok(_) => {
                    if stats.mouse_events < u64::MAX {
                        stats.mouse_events = stats.mouse_events + 1;
                    }
                    if stats.total_events < u64::MAX {
                        stats.total_events = stats.total_events + 1;
                    }
                },
                Err(_) => {
                    if stats.errors < u64::MAX {
                        stats.errors = stats.errors + 1;
                    }
                },
            }
            j = j + 1;
        }

        Ok(stats)
    }

    /// Get the statistics.
    pub fn stats(&self) -> (r: &InputStats)
        ensures
            r == self.spec_stats(),
    {
        &self.stats
    }

    /// Reset the statistics.
    pub fn reset_stats(&mut self)
        ensures
            final(self).spec_stats() == InputStats::default_spec(),
            final(self).spec_config() == old(self).spec_config(),
            final(self).spec_active() == old(self).spec_active(),
            final(self).has_ps2() == old(self).has_ps2(),
            final(self).has_virtio() == old(self).has_virtio(),
            final(self).virtio_ready() == old(self).virtio_ready(),
    {
        self.stats = InputStats::default();
    }

    /// Type a key: a press followed by a release.
    pub fn type_key(&mut self, code: u16) -> (r: Result<(), InputError>)
        ensures
            final(self).spec_config() == old(self).spec_config(),
            final(self).spec_active() == old(self).spec_active(),
            r is Ok <==> old(self).keyboard_accepts(),
    {
        match self.inject_keyboard(
            &KeyboardEvent {
                action: KeyboardAction::Press,
                code,
                modifiers: crate::event::KeyboardModifiers::default(),
            },
        ) {
            Ok(_) => {},
            Err(e) => {
                return Err(e);
            },
        }
        match self.inject_keyboard(
            &KeyboardEvent {
                action: KeyboardAction::Release,
                code,
                modifiers: crate::event::KeyboardModifiers::default(),
            },
        ) {
            Ok(_) => {},
            Err(e) => {
                return Err(e);
            },
        }
        Ok(())
    }

    /// Move the mouse by a relative delta.
    pub fn mouse_move(&mut self, dx: i32, dy: i32) -> (r: Result<(), InputError>)
        ensures
            final(self).spec_config() == old(self).spec_config(),
            final(self).spec_active() == old(self).spec_active(),
            r is Ok <==> old(self).mouse_accepts(),
    {
        self.inject_mouse(
            &MouseEvent {
                action: MouseAction::Move,
                x: dx,
                y: dy,
                z: 0,
                button: None,
                buttons: MouseButtons::default(),
            },
        )
    }

    /// Click a mouse button: a press followed by a release.
    pub fn mouse_click(&mut self, button: MouseButton) -> (r: Result<(), InputError>)
        ensures
            final(self).spec_config() == old(self).spec_config(),
            final(self).spec_active() == old(self).spec_active(),
            r is Ok <==> old(self).mouse_accepts(),
    {
        match self.inject_mouse(
            &MouseEvent {
                action: MouseAction::ButtonPress,
                x: 0,
                y: 0,
                z: 0,
                button: Some(button),
                buttons: MouseButtons::default(),
            },
        ) {
            Ok(_) => {},
            Err(e) => {
                return Err(e);
            },
        }
        match self.inject_mouse(
            &MouseEvent {
                action: MouseAction::ButtonRelease,
                x: 0,
                y: 0,
                z: 0,
                button: Some(button),
                buttons: MouseButtons::default(),
            },
        ) {
            Ok(_) => {},
            Err(e) => {
                return Err(e);
            },
        }
        Ok(())
    }

    /// Scroll the mouse wheel.
    pub fn mouse_scroll(&mut self, delta: i32) -> (r: Result<(), InputError>)
        ensures
            final(self).spec_config() == old(self).spec_config(),
            final(self).spec_active() == old(self).spec_active(),
            r is Ok <==> old(self).mouse_accepts(),
    {
        self.inject_mouse(
            &MouseEvent {
                action: MouseAction::Scroll,
                x: 0,
                y: 0,
                z: delta,
                button: None,
                buttons: MouseButtons::default(),
            },
        )
    }
}

impl InputStats {
    /// The all-zero statistics record.
    pub open spec fn default_spec() -> InputStats {
        InputStats { keyboard_events: 0, mouse_events: 0, total_events: 0, errors: 0 }
    }
}

} // verus!
