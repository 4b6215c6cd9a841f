//! Guest-side mirror of the shared host/guest protocol: the frame buffer
//! and audio headers, cursor records and input event types as the guest
//! agent sees them in shared memory.

use vstd::prelude::*;

verus! {

/// Magic number for frame buffer header validation ("FBMP").
pub const FRAME_BUFFER_MAGIC: u32 = 0x46424D50;

/// Current protocol version.
pub const FRAME_BUFFER_VERSION: u32 = 1;

/// Default number of buffers (triple buffering).
pub const DEFAULT_BUFFER_COUNT: u32 = 3;

/// Maximum cursor data size (64KB).
pub const MAX_CURSOR_SIZE: u32 = 0x10000;

/// Default audio ring size (1MB).
pub const DEFAULT_AUDIO_BUFFER_SIZE: u32 = 0x100000;

/// Audio buffer magic number ("AUDI").
pub const AUDIO_BUFFER_MAGIC: u32 = 0x41554449;

/// Audio buffer version.
pub const AUDIO_BUFFER_VERSION: u32 = 1;

/// Guest agent commands (host to guest).
#[derive(Debug, Clone, Copy, PartialEq, Eq, Structural)]
pub enum GuestCommand {
    /// No command / idle
    NoCommand,
    /// Start capturing frames
    StartCapture,
    /// Stop capturing frames
    StopCapture,
    /// Set the frame format
    SetFormat,
}

impl Default for GuestCommand {
    /// The default command is no command.
    fn default() -> (r: Self)
        ensures
            r == GuestCommand::NoCommand,
    {
        GuestCommand::NoCommand
    }
}

impl GuestCommand {
    /// Decode a wire value; unknown values are rejected.
    pub fn try_from(value: u32) -> (r: Result<GuestCommand, &'static str>)
        ensures
            r == (if value == 0 {
                Ok::<GuestCommand, &'static str>(GuestCommand::NoCommand)
            } else if value == 1 {
                Ok(GuestCommand::StartCapture)
            } else if value == 2 {
                Ok(GuestCommand::StopCapture)
            } else if value == 3 {
                Ok(GuestCommand::SetFormat)
            } else {
                Err("Invalid guest command value")
            }),
    {
        if value == 0 {
            Ok(GuestCommand::NoCommand)
        } else if value == 1 {
            Ok(GuestCommand::StartCapture)
        } else if value == 2 {
            Ok(GuestCommand::StopCapture)
        } else if value == 3 {
            Ok(GuestCommand::SetFormat)
        } else {
            Err("Invalid guest command value")
        }
    }
}

/// Guest agent states (guest to host).
#[derive(Debug, Clone, Copy, PartialEq, Eq, Structural)]
pub enum GuestState {
    /// Idle, not capturing
    Idle,
    /// Actively capturing frames
    Capturing,
    /// Error state
    Error,
    /// Initializing
    Initializing,
}

impl Default for GuestState {
    /// The default state is idle.
    fn default() -> (r: Self)
        ensures
            r == GuestState::Idle,
    {
        GuestState::Idle
    }
}

impl GuestState {
    /// Decode a wire value; unknown values are rejected.
    pub fn try_from(value: u32) -> (r: Result<GuestState, &'static str>)
        ensures
            r == (if value == 0 {
                Ok::<GuestState, &'static str>(GuestState::Idle)
            } else if value == 1 {
                Ok(GuestState::Capturing)
            } else if value == 2 {
                Ok(GuestState::Error)
            } else if value == 3 {
                Ok(GuestState::Initializing)
            } else {
                Err("Invalid guest state value")
            }),
    {
        if value == 0 {
            Ok(GuestState::Idle)
        } else if value == 1 {
            Ok(GuestState::Capturing)
        } else if value == 2 {
            Ok(GuestState::Error)
        } else if value == 3 {
            Ok(GuestState::Initializing)
        } else {
            Err("Invalid guest state value")
        }
    }
}

/// Frame pixel formats.
#[derive(Debug, Clone, Copy, PartialEq, Eq, Structural)]
pub enum FrameFormat {
    /// 32-bit BGRA format
    Bgra32,
    /// 32-bit RGBA format
    Rgba32,
    /// NV12 format (YUV 4:2:0)
    Nv12,
}

impl Default for FrameFormat {
    /// The default format is 32-bit BGRA.
    fn default() -> (r: Self)
        ensures
            r == FrameFormat::Bgra32,
    {
        FrameFormat::Bgra32
    }
}

impl FrameFormat {
    /// Decode a wire value; unknown values are rejected.
    pub fn try_from(value: u32) -> (r: Result<FrameFormat, &'static str>)
        ensures
            r == (if value == 0 {
                Ok::<FrameFormat, &'static str>(FrameFormat::Bgra32)
            } else if value == 1 {
                Ok(FrameFormat::Rgba32)
            } else if value == 2 {
                Ok(FrameFormat::Nv12)
            } else {
                Err("Invalid frame format value")
            }),
    {
        if value == 0 {
            Ok(FrameFormat::Bgra32)
        } else if value == 1 {
            Ok(FrameFormat::Rgba32)
        } else if value == 2 {
            Ok(FrameFormat::Nv12)
        } else {
            Err("Invalid frame format value")
        }
    }

    /// Bytes per pixel for this format: 4 for the 32-bit formats, an
    /// average of 1 for NV12.
    pub fn bytes_per_pixel(&self) -> (r: u8)
        ensures
            r == (match *self {
                FrameFormat::Bgra32 => 4u8,
                FrameFormat::Rgba32 => 4u8,
                FrameFormat::Nv12 => 1u8,
            }),
    {
        match self {
            FrameFormat::Bgra32 | FrameFormat::Rgba32 => 4,
            FrameFormat::Nv12 => 1,  // Average (Y plane plus UV plane)
        }
    }
}

/// Frame metadata flags, packed in a 32-bit word.
#[derive(Debug, Clone, Copy, PartialEq, Eq, Structural)]
pub struct FrameFlags {
    /// The packed flag bits
    pub bits: u32,
}

impl FrameFlags {
    /// The empty flag set.
    pub fn empty() -> (r: Self)
        ensures
            r.bits == 0,
    {
        FrameFlags { bits: 0 }
    }

    /// The frame is a keyframe: bit 0.
    pub fn keyframe() -> (r: Self)
        ensures
            r.bits == 1,
    {
        FrameFlags { bits: 1 }
    }

    /// The frame has been processed by the guest: bit 1.
    pub fn processed() -> (r: Self)
        ensures
            r.bits == 2,
    {
        FrameFlags { bits: 2 }
    }

    /// The frame is the last in the stream: bit 2.
    pub fn eos() -> (r: Self)
        ensures
            r.bits == 4,
    {
        FrameFlags { bits: 4 }
    }

    /// The frame has an error: bit 3.
    pub fn error() -> (r: Self)
        ensures
            r.bits == 8,
    {
        FrameFlags { bits: 8 }
    }

    /// Whether every flag of `other` is set in `self`.
    pub fn contains(&self, other: FrameFlags) -> (r: bool)
        ensures
            r == (self.bits & other.bits == other.bits),
    {
        self.bits & other.bits == other.bits
    }

    /// The union of two flag sets.
    pub fn union(&self, other: FrameFlags) -> (r: Self)
        ensures
            r.bits == self.bits | other.bits,
    {
        FrameFlags { bits: self.bits | other.bits }
    }

    /// Whether no flag is set.
    pub fn is_empty(&self) -> (r: bool)
        ensures
            r == (self.bits == 0),
    {
        self.bits == 0
    }
}

impl Default for FrameFlags {
    /// The default flag set is empty.
    fn default() -> (r: Self)
        ensures
            r.bits == 0,
    {
        FrameFlags { bits: 0 }
    }
}

/// Frame metadata, one record per buffer.
#[derive(Debug, Clone, Copy)]
pub struct FrameMetadata {
    /// Frame number (monotonically increasing)
    pub frame_number: u64,
    /// Timestamp in nanoseconds
    pub timestamp_ns: u64,
    /// Frame flags
    pub flags: FrameFlags,
    /// Actual data size in bytes
    pub data_size: u32,
}

impl Default for FrameMetadata {
    /// Default frame metadata is all zero.
    fn default() -> (r: Self)
        ensures
            r.frame_number == 0,
            r.timestamp_ns == 0,
            r.flags.bits == 0,
            r.data_size == 0,
    {
        FrameMetadata {
            frame_number: 0,
            timestamp_ns: 0,
            flags: FrameFlags { bits: 0 },
            data_size: 0,
        }
    }
}

/// Frame buffer header as the guest agent sees it in shared memory.
#[derive(Debug)]
pub struct FrameBufferHeader {
    /// Magic number for validation
    pub magic: u32,
    /// Protocol version
    pub version: u32,
    /// Number of buffers
    pub buffer_count: u32,
    /// Size of each buffer in bytes
    pub buffer_size: u64,
    /// Frame width in pixels
    pub frame_width: u32,
    /// Frame height in pixels
    pub frame_height: u32,
    /// Pixel format
    pub format: FrameFormat,
    /// Current active buffer index
    pub active_index: u32,
    /// Total frame count since capture started
    pub frame_count: u64,
    /// Host-to-guest command word
    pub command: u32,
    /// Guest-to-host state word
    pub guest_state: u32,
    /// Guest agent PID (for debugging)
    pub guest_pid: u32,
    /// Cursor data offset from the start of shared memory
    pub cursor_offset: u64,
    /// Cursor data size in bytes
    pub cursor_size: u32,
    /// Cursor hotspot X
    pub cursor_hot_x: i16,
    /// Cursor hotspot Y
    pub cursor_hot_y: i16,
    /// Cursor width in pixels
    pub cursor_width: u16,
    /// Cursor height in pixels
    pub cursor_height: u16,
    /// Cursor update counter
    pub cursor_updated: u32,
}

/// Cursor metadata: position and visibility.
#[derive(Debug, Clone, Copy, PartialEq, Eq, Structural)]
pub struct CursorMetadata {
    /// Cursor X position in pixels
    pub x: i32,
    /// Cursor Y position in pixels
    pub y: i32,
    /// Cursor visibility (0 = hidden, 1 = visible)
    pub visible: u32,
    /// Shape updated flag (nonzero when the shape changed)
    pub shape_updated: u32,
}

impl Default for CursorMetadata {
    /// Default cursor metadata is all zero.
    fn default() -> (r: Self)
        ensures
            r == (CursorMetadata { x: 0, y: 0, visible: 0, shape_updated: 0 }),
    {
        CursorMetadata { x: 0, y: 0, visible: 0, shape_updated: 0 }
    }
}

/// Cursor shape info: dimensions and hotspot; the BGRA pixel data
/// follows separately.
#[derive(Debug, Clone, Copy, PartialEq, Eq, Structural)]
pub struct CursorShapeInfo {
    /// Cursor width in pixels
    pub width: u16,
    /// Cursor height in pixels
    pub height: u16,
    /// Hotspot X coordinate (click point)
    pub hot_x: i16,
    /// Hotspot Y coordinate (click point)
    pub hot_y: i16,
    /// Size of the cursor data in bytes (width * height * 4)
    pub data_size: u32,
}

impl Default for CursorShapeInfo {
    /// Default cursor shape info is all zero.
    fn default() -> (r: Self)
        ensures
            r == (CursorShapeInfo { width: 0, height: 0, hot_x: 0, hot_y: 0, data_size: 0 }),
    {
        CursorShapeInfo { width: 0, height: 0, hot_x: 0, hot_y: 0, data_size: 0 }
    }
}

/// Audio sample formats.
#[derive(Debug, Clone, Copy, PartialEq, Eq, Structural)]
pub enum AudioFormat {
    /// 16-bit signed PCM, little-endian
    PcmS16Le,
    /// 24-bit signed PCM, little-endian
    PcmS24Le,
    /// 32-bit signed PCM, little-endian
    PcmS32Le,
    /// 32-bit float, little-endian
    FloatLe,
}

impl Default for AudioFormat {
    /// The default format is 16-bit signed PCM.
    fn default() -> (r: Self)
        ensures
            r == AudioFormat::PcmS16Le,
    {
        AudioFormat::PcmS16Le
    }
}

/// Audio buffer header: controls the shared-memory audio ring.
#[derive(Debug)]
pub struct AudioBufferHeader {
    /// Magic number for validation
    pub magic: u32,
    /// Protocol version
    pub version: u32,
    /// Audio sample format
    pub format: AudioFormat,
    /// Sample rate in Hz
    pub sample_rate: u32,
    /// Number of channels (1 = mono, 2 = stereo)
    pub channels: u8,
    /// Total ring size in bytes
    pub buffer_size: u32,
    /// Write position, advanced by the guest
    pub write_pos: u32,
    /// Read position, advanced by the host
    pub read_pos: u32,
    /// Total bytes written since the start
    pub total_written: u64,
    /// Active flag (1 = capturing, 0 = stopped)
    pub active: u32,
}

/// A VirtIO input event in Linux evdev format, for the VirtIO injection
/// path.
#[derive(Debug, Clone, Copy, PartialEq, Eq, Structural)]
pub struct VirtioInputEvent {
    /// Event type (EV_SYN, EV_KEY, EV_REL, EV_ABS)
    pub ev_type: u16,
    /// Event code (key code, button code or axis)
    pub code: u16,
    /// Event value (1 = press, 0 = release, or a movement delta)
    pub value: u32,
}

impl Default for VirtioInputEvent {
    /// The default event is an all-zero sync event.
    fn default() -> (r: Self)
        ensures
            r == (VirtioInputEvent { ev_type: 0, code: 0, value: 0 }),
    {
        VirtioInputEvent { ev_type: 0, code: 0, value: 0 }
    }
}

impl VirtioInputEvent {
    /// Create a keyboard event (EV_KEY).
    pub fn keyboard(code: u16, pressed: bool) -> (r: Self)
        ensures
            r == (VirtioInputEvent {
                ev_type: 1u16,
                code,
                value: if pressed {
                    1u32
                } else {
                    0u32
                },
            }),
    {
        Self {
            ev_type: 0x01,  // EV_KEY
            code,
            value: if pressed {
                1
            } else {
                0
            },
        }
    }

    /// Create a relative mouse event (EV_REL).
    pub fn rel(code: u16, value: i32) -> (r: Self)
        ensures
            r.ev_type == 2,
            r.code == code,
            r.value == value as u32,
    {
        Self {
            ev_type: 0x02,  // EV_REL
            code,
            #[verifier::truncate]
            value: value as u32,
        }
    }

    /// Create a sync event (EV_SYN), marking the end of a batch.
    pub fn syn() -> (r: Self)
        ensures
            r == (VirtioInputEvent { ev_type: 0u16, code: 0u16, value: 0u32 }),
    {
        Self { ev_type: 0x00, code: 0, value: 0 }
    }
}

/// An input event for protocol communication: keyboard or mouse.
#[derive(Debug, Clone, Copy, PartialEq, Eq, Structural)]
pub enum InputEvent {
    /// Keyboard event
    Keyboard(KeyboardEvent),
    /// Mouse event
    Mouse(MouseEvent),
}

/// A keyboard event (protocol form).
#[derive(Debug, Clone, Copy, PartialEq, Eq, Structural)]
pub struct KeyboardEvent {
    /// Key action (press, release or type)
    pub action: KeyAction,
    /// Key code (scancode)
    pub code: u16,
    /// Active modifiers
    pub modifiers: KeyboardModifiers,
}

/// Key actions.
#[derive(Debug, Clone, Copy, PartialEq, Eq, Structural)]
pub enum KeyAction {
    /// Key press
    Press,
    /// Key release
    Release,
    /// Key press and release (convenience)
    Type,
}

/// Keyboard modifier states.
#[derive(Debug, Clone, Copy, PartialEq, Eq, Structural)]
pub struct KeyboardModifiers {
    /// Control key
    pub ctrl: bool,
    /// Alt key
    pub alt: bool,
    /// Shift key
    pub shift: bool,
    /// Meta/Windows key
    pub meta: bool,
}

impl Default for KeyboardModifiers {
    /// Default modifiers are all released.
    fn default() -> (r: Self)
        ensures
            r == (KeyboardModifiers { ctrl: false, alt: false, shift: false, meta: false }),
    {
        KeyboardModifiers { ctrl: false, alt: false, shift: false, meta: false }
    }
}

/// A mouse event (protocol form).
#[derive(Debug, Clone, Copy, PartialEq, Eq, Structural)]
pub struct MouseEvent {
    /// Mouse action kind
    pub action: MouseAction,
    /// X coordinate or delta
    pub x: i32,
    /// Y coordinate or delta
    pub y: i32,
    /// Z coordinate (scroll wheel)
    pub z: i32,
    /// Button for button actions
    pub button: Option<MouseButton>,
    /// All button states
    pub buttons: MouseButtons,
}

/// Mouse actions.
#[derive(Debug, Clone, Copy, PartialEq, Eq, Structural)]
pub enum MouseAction {
    /// Relative movement
    Move,
    /// Absolute positioning
    MoveAbsolute,
    /// Button press
    ButtonPress,
    /// Button release
    ButtonRelease,
    /// Button click (press and release)
    Click,
    /// Scroll wheel
    Scroll,
}

/// Mouse button identifiers.
#[derive(Debug, Clone, Copy, PartialEq, Eq, Structural)]
pub enum MouseButton {
    /// Left button
    Left,
    /// Right button
    Right,
    /// Middle button
    Middle,
    /// Side button
    Side,
    /// Extra button
    Extra,
}

/// Mouse button states.
#[derive(Debug, Clone, Copy, PartialEq, Eq, Structural)]
pub struct MouseButtons {
    /// Left button state
    pub left: bool,
    /// Right button state
    pub right: bool,
    /// Middle button state
    pub middle: bool,
    /// Side button state
    pub side: bool,
    /// Extra button state
    pub extra: bool,
}

impl Default for MouseButtons {
    /// Default button states are all released.
    fn default() -> (r: Self)
        ensures
            r == (MouseButtons {
                left: false,
                right: false,
                middle: false,
                side: false,
                extra: false,
            }),
    {
        MouseButtons { left: false, right: false, middle: false, side: false, extra: false }
    }
}

} // verus!
