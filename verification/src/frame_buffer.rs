//! Shared-memory frame buffer protocol: the header, per-buffer metadata,
//! layout calculator and audio ring header used to move captured frames
//! and audio between host and guest.

use vstd::prelude::*;

verus! {

/// Guest agent commands (host to guest).
#[derive(Debug, Clone, Copy, PartialEq, Eq, Structural)]
pub enum GuestCommand {
    /// No command / idle
    NoCommand,
    /// Start capturing frames
    StartCapture,
    /// Stop capturing frames
    StopCapture,
    /// Set the frame format
    SetFormat,
}

impl Default for GuestCommand {
    /// The default command is no command.
    fn default() -> (r: Self)
        ensures
            r == GuestCommand::NoCommand,
    {
        GuestCommand::NoCommand
    }
}

/// The wire encoding of a guest command.
pub open spec fn guest_command_u32(c: GuestCommand) -> u32 {
    match c {
        GuestCommand::NoCommand => 0,
        GuestCommand::StartCapture => 1,
        GuestCommand::StopCapture => 2,
        GuestCommand::SetFormat => 3,
    }
}

/// The guest command a word decodes to; unknown values are rejected.
pub open spec fn guest_command_of_u32(value: u32) -> Option<GuestCommand> {
    if value == 0 {
        Some(GuestCommand::NoCommand)
    } else if value == 1 {
        Some(GuestCommand::StartCapture)
    } else if value == 2 {
        Some(GuestCommand::StopCapture)
    } else if value == 3 {
        Some(GuestCommand::SetFormat)
    } else {
        None
    }
}

impl GuestCommand {
    /// The wire value of this command.
    pub fn as_u32(&self) -> (v: u32)
        ensures
            v == guest_command_u32(*self),
    {
        match self {
            GuestCommand::NoCommand => 0,
            GuestCommand::StartCapture => 1,
            GuestCommand::StopCapture => 2,
            GuestCommand::SetFormat => 3,
        }
    }

    /// Decode a wire value; unknown values are rejected.
    pub fn try_from(value: u32) -> (r: Result<GuestCommand, &'static str>)
        ensures
            r is Ok <==> guest_command_of_u32(value) is Some,
            r is Ok ==> Some(r->Ok_0) == guest_command_of_u32(value),
    {
        if value == 0 {
            Ok(GuestCommand::NoCommand)
        } else if value == 1 {
            Ok(GuestCommand::StartCapture)
        } else if value == 2 {
            Ok(GuestCommand::StopCapture)
        } else if value == 3 {
            Ok(GuestCommand::SetFormat)
        } else {
            Err("Invalid guest command value")
        }
    }
}

/// Guest agent states (guest to host).
#[derive(Debug, Clone, Copy, PartialEq, Eq, Structural)]
pub enum GuestState {
    /// Idle, not capturing
    Idle,
    /// Actively capturing frames
    Capturing,
    /// Error state
    Error,
    /// Initializing
    Initializing,
}

impl Default for GuestState {
    /// The default state is idle.
    fn default() -> (r: Self)
        ensures
            r == GuestState::Idle,
    {
        GuestState::Idle
    }
}

/// The wire encoding of a guest state.
pub open spec fn guest_state_u32(s: GuestState) -> u32 {
    match s {
        GuestState::Idle => 0,
        GuestState::Capturing => 1,
        GuestState::Error => 2,
        GuestState::Initializing => 3,
    }
}

/// The guest state a word decodes to; unknown values are rejected.
pub open spec fn guest_state_of_u32(value: u32) -> Option<GuestState> {
    if value == 0 {
        Some(GuestState::Idle)
    } else if value == 1 {
        Some(GuestState::Capturing)
    } else if value == 2 {
        Some(GuestState::Error)
    } else if value == 3 {
        Some(GuestState::Initializing)
    } else {
        None
    }
}

impl GuestState {
    /// The wire value of this state.
    pub fn as_u32(&self) -> (v: u32)
        ensures
            v == guest_state_u32(*self),
    {
        match self {
            GuestState::Idle => 0,
            GuestState::Capturing => 1,
            GuestState::Error => 2,
            GuestState::Initializing => 3,
        }
    }

    /// Decode a wire value; unknown values are rejected.
    pub fn try_from(value: u32) -> (r: Result<GuestState, &'static str>)
        ensures
            r is Ok <==> guest_state_of_u32(value) is Some,
            r is Ok ==> Some(r->Ok_0) == guest_state_of_u32(value),
    {
        if value == 0 {
            Ok(GuestState::Idle)
        } else if value == 1 {
            Ok(GuestState::Capturing)
        } else if value == 2 {
            Ok(GuestState::Error)
        } else if value == 3 {
            Ok(GuestState::Initializing)
        } else {
            Err("Invalid guest state value")
        }
    }
}

/// Magic number for frame buffer header validation ("FBMP").
pub const FRAME_BUFFER_MAGIC: u32 = 0x46424D50;

/// Current version of the frame buffer protocol.
pub const FRAME_BUFFER_VERSION: u32 = 1;

/// Default number of buffers (triple buffering).
pub const DEFAULT_BUFFER_COUNT: u32 = 3;

/// Maximum cursor data size (64KB, enough for a 128x128 BGRA cursor).
pub const MAX_CURSOR_SIZE: u32 = 0x10000;

/// Frame pixel formats.
#[derive(Debug, Clone, Copy, PartialEq, Eq, Structural)]
pub enum FrameFormat {
    /// 32-bit BGRA format (blue, green, red, alpha)
    Bgra32,
    /// 32-bit RGBA format (red, green, blue, alpha)
    Rgba32,
    /// NV12 format (YUV 4:2:0)
    Nv12,
}

impl Default for FrameFormat {
    /// The default format is 32-bit BGRA.
    fn default() -> (r: Self)
        ensures
            r == FrameFormat::Bgra32,
    {
        FrameFormat::Bgra32
    }
}

/// The wire encoding of a frame format.
pub open spec fn frame_format_u32(f: FrameFormat) -> u32 {
    match f {
        FrameFormat::Bgra32 => 0,
        FrameFormat::Rgba32 => 1,
        FrameFormat::Nv12 => 2,
    }
}

/// The frame format a word decodes to; unknown values are rejected.
pub open spec fn frame_format_of_u32(value: u32) -> Option<FrameFormat> {
    if value == 0 {
        Some(FrameFormat::Bgra32)
    } else if value == 1 {
        Some(FrameFormat::Rgba32)
    } else if value == 2 {
        Some(FrameFormat::Nv12)
    } else {
        None
    }
}

impl FrameFormat {
    /// The wire value of this format.
    pub fn as_u32(&self) -> (v: u32)
        ensures
            v == frame_format_u32(*self),
    {
        match self {
            FrameFormat::Bgra32 => 0,
            FrameFormat::Rgba32 => 1,
            FrameFormat::Nv12 => 2,
        }
    }

    /// Decode a wire value; unknown values are rejected.
    pub fn try_from(value: u32) -> (r: Result<FrameFormat, &'static str>)
        ensures
            r is Ok <==> frame_format_of_u32(value) is Some,
            r is Ok ==> Some(r->Ok_0) == frame_format_of_u32(value),
    {
        if value == 0 {
            Ok(FrameFormat::Bgra32)
        } else if value == 1 {
            Ok(FrameFormat::Rgba32)
        } else if value == 2 {
            Ok(FrameFormat::Nv12)
        } else {
            Err("Invalid frame format value")
        }
    }
}

/// Frame metadata flags, packed in a 32-bit word.
#[derive(Debug, Clone, Copy, PartialEq, Eq, Structural)]
pub struct FrameFlags {
    /// The packed flag bits
    pub bits: u32,
}

impl FrameFlags {
    /// No flags set.
    pub fn none() -> (r: Self)
        ensures
            r.bits == 0,
    {
        FrameFlags { bits: 0 }
    }

    /// The frame is a keyframe (full frame, not delta): bit 0.
    pub fn keyframe() -> (r: Self)
        ensures
            r.bits == 1,
    {
        FrameFlags { bits: 1 }
    }

    /// The frame has been processed by the guest: bit 1.
    pub fn processed() -> (r: Self)
        ensures
            r.bits == 2,
    {
        FrameFlags { bits: 2 }
    }

    /// The frame is the last frame in the stream: bit 2.
    pub fn eos() -> (r: Self)
        ensures
            r.bits == 4,
    {
        FrameFlags { bits: 4 }
    }

    /// The frame has an error: bit 3.
    pub fn error() -> (r: Self)
        ensures
            r.bits == 8,
    {
        FrameFlags { bits: 8 }
    }

    /// The packed flag bits.
    pub fn bits(&self) -> (r: u32)
        ensures
            r == self.bits,
    {
        self.bits
    }

    /// The flags a word decodes to, dropping unknown bits.
    pub fn from_bits_truncate(bits: u32) -> (r: Self)
        ensures
            r.bits == bits & 0xF,
    {
        FrameFlags { bits: bits & 0xF }
    }

    /// Whether every flag of `other` is set in `self`.
    pub fn contains(&self, other: FrameFlags) -> (r: bool)
        ensures
            r == (self.bits & other.bits == other.bits),
    {
        self.bits & other.bits == other.bits
    }

    /// The union of two flag sets.
    pub fn union(&self, other: FrameFlags) -> (r: Self)
        ensures
            r.bits == self.bits | other.bits,
    {
        FrameFlags { bits: self.bits | other.bits }
    }

    /// Whether no flag is set.
    pub fn is_empty(&self) -> (r: bool)
        ensures
            r == (self.bits == 0),
    {
        self.bits == 0
    }
}

impl Default for FrameFlags {
    /// The default flag set is empty.
    fn default() -> (r: Self)
        ensures
            r.bits == 0,
    {
        FrameFlags { bits: 0 }
    }
}

/// Cursor metadata: position and visibility, updated each frame.
#[derive(Debug, Clone, Copy)]
pub struct CursorMetadata {
    /// Cursor X position in pixels
    pub x: i32,
    /// Cursor Y position in pixels
    pub y: i32,
    /// Whether the cursor is visible (0 = hidden, 1 = visible)
    pub visible: u32,
    /// Whether the cursor shape has been updated (0 = no, 1 = yes)
    pub shape_updated: u32,
}

impl Default for CursorMetadata {
    /// Default cursor metadata is all zero.
    fn default() -> (r: Self)
        ensures
            r == (CursorMetadata { x: 0, y: 0, visible: 0, shape_updated: 0 }),
    {
        CursorMetadata { x: 0, y: 0, visible: 0, shape_updated: 0 }
    }
}

/// Cursor shape information: dimensions, hotspot and data size; the pixel
/// data itself follows separately in BGRA form.
#[derive(Debug, Clone, Copy)]
pub struct CursorShapeInfo {
    /// Cursor width in pixels
    pub width: u16,
    /// Cursor height in pixels
    pub height: u16,
    /// Hotspot X offset (relative to the top-left corner)
    pub hot_x: i16,
    /// Hotspot Y offset (relative to the top-left corner)
    pub hot_y: i16,
    /// Cursor data size in bytes (width * height * 4 for BGRA)
    pub data_size: u32,
}

impl Default for CursorShapeInfo {
    /// Default cursor shape info is all zero.
    fn default() -> (r: Self)
        ensures
            r == (CursorShapeInfo { width: 0, height: 0, hot_x: 0, hot_y: 0, data_size: 0 }),
    {
        CursorShapeInfo { width: 0, height: 0, hot_x: 0, hot_y: 0, data_size: 0 }
    }
}

/// Frame buffer header: the control record at the start of the shared
/// memory region, followed by the metadata array, the frame buffers and
/// the cursor region.
#[derive(Debug)]
pub struct FrameBufferHeader {
    /// Magic number for validation
    pub magic: u32,
    /// Protocol version number
    pub version: u32,
    /// Number of buffers in the ring
    pub buffer_count: u32,
    /// Size of each buffer in bytes
    pub buffer_size: u64,
    /// Frame width in pixels
    pub frame_width: u32,
    /// Frame height in pixels
    pub frame_height: u32,
    /// Pixel format
    pub format: FrameFormat,
    /// Current active buffer index
    pub active_index: u32,
    /// Total frame count
    pub frame_count: u64,
    /// Host-written command word, read by the guest agent
    pub command: u32,
    /// Guest-agent-written state word, read by the host
    pub guest_state: u32,
    /// Guest agent PID (for debugging)
    pub guest_pid: u32,
    /// Cursor data offset from the start of shared memory (0 = none)
    pub cursor_offset: u64,
    /// Cursor data size in bytes
    pub cursor_size: u32,
    /// Cursor hotspot X
    pub cursor_hot_x: i16,
    /// Cursor hotspot Y
    pub cursor_hot_y: i16,
    /// Cursor width in pixels
    pub cursor_width: u16,
    /// Cursor height in pixels
    pub cursor_height: u16,
    /// Cursor update counter, incremented on shape or position change
    pub cursor_updated: u32,
}

impl FrameBufferHeader {
    /// Create a frame buffer header for the given geometry, with counters
    /// zeroed, no command pending and the guest reported idle.
    pub fn new(
        buffer_count: u32,
        buffer_size: u64,
        frame_width: u32,
        frame_height: u32,
        format: FrameFormat,
    ) -> (r: Self)
        ensures
            r.magic == FRAME_BUFFER_MAGIC,
            r.version == FRAME_BUFFER_VERSION,
            r.buffer_count == buffer_count,
            r.buffer_size == buffer_size,
            r.frame_width == frame_width,
            r.frame_height == frame_height,
            r.format == format,
            r.active_index == 0,
            r.frame_count == 0,
            r.command == guest_command_u32(GuestCommand::NoCommand),
            r.guest_state == guest_state_u32(GuestState::Idle),
            r.guest_pid == 0,
            r.cursor_offset == 0,
            r.cursor_size == 0,
            r.cursor_hot_x == 0,
            r.cursor_hot_y == 0,
            r.cursor_width == 0,
            r.cursor_height == 0,
            r.cursor_updated == 0,
    {
        FrameBufferHeader {
            magic: FRAME_BUFFER_MAGIC,
            version: FRAME_BUFFER_VERSION,
            buffer_count,
            buffer_size,
            frame_width,
            frame_height,
            format,
            active_index: 0,
            frame_count: 0,
            command: 0,
            guest_state: 0,
            guest_pid: 0,
            cursor_offset: 0,
            cursor_size: 0,
            cursor_hot_x: 0,
            cursor_hot_y: 0,
            cursor_width: 0,
            cursor_height: 0,
            cursor_updated: 0,
        }
    }

    /// Validate the header magic number and version.
    pub fn validate(&self) -> (r: bool)
        ensures
            r == (self.magic == FRAME_BUFFER_MAGIC && self.version == FRAME_BUFFER_VERSION),
    {
        self.magic == FRAME_BUFFER_MAGIC && self.version == FRAME_BUFFER_VERSION
    }

    /// Get the current active buffer index.
    pub fn active_index(&self) -> (r: u32)
        ensures
            r == self.active_index,
    {
        self.active_index
    }

    /// Set the active buffer index.
    pub fn set_active_index(&mut self, index: u32)
        ensures
            *final(self) == (FrameBufferHeader { active_index: index, ..*old(self) }),
    {
        self.active_index = index;
    }

    /// Get the total frame count.
    pub fn frame_count(&self) -> (r: u64)
        ensures
            r == self.frame_count,
    {
        self.frame_count
    }

    /// Increment and return the new frame count; the counter saturates at
    /// the top of its range rather than wrapping.
    pub fn increment_frame_count(&mut self) -> (r: u64)
        ensures
            old(self).frame_count < u64::MAX ==> final(self).frame_count == old(self).frame_count
                + 1,
            old(self).frame_count == u64::MAX ==> final(self).frame_count == u64::MAX,
            r == final(self).frame_count,
            *final(self) == (FrameBufferHeader { frame_count: final(self).frame_count, ..*old(self) }),
    {
        if self.frame_count < u64::MAX {
            self.frame_count = self.frame_count + 1;
        }
        self.frame_count
    }

    /// Get the current command, for the guest agent to read; an
    /// unrecognized word reads as no command.
    pub fn get_command(&self) -> (r: GuestCommand)
        ensures
            r == (match guest_command_of_u32(self.command) {
                Some(c) => c,
                None => GuestCommand::NoCommand,
            }),
    {
        match GuestCommand::try_from(self.command) {
            Ok(c) => c,
            Err(_) => GuestCommand::NoCommand,
        }
    }

    /// Set the command, for the host to write.
    pub fn set_command(&mut self, command: GuestCommand)
        ensures
            *final(self) == (FrameBufferHeader {
                command: guest_command_u32(command),
                ..*old(self)
            }),
    {
        self.command = command.as_u32();
    }

    /// Clear the command (set it to no command).
    pub fn clear_command(&mut self)
        ensures
            *final(self) == (FrameBufferHeader {
                command: guest_command_u32(GuestCommand::NoCommand),
                ..*old(self)
            }),
    {
        self.command = 0;
    }

    /// Get the current guest state, for the host to read; an unrecognized
    /// word reads as idle.
    pub fn get_guest_state(&self) -> (r: GuestState)
        ensures
            r == (match guest_state_of_u32(self.guest_state) {
                Some(s) => s,
                None => GuestState::Idle,
            }),
    {
        match GuestState::try_from(self.guest_state) {
            Ok(s) => s,
            Err(_) => GuestState::Idle,
        }
    }

    /// Set the guest state, for the guest agent to write.
    pub fn set_guest_state(&mut self, state: GuestState)
        ensures
            *final(self) == (FrameBufferHeader {
                guest_state: guest_state_u32(state),
                ..*old(self)
            }),
    {
        self.guest_state = state.as_u32();
    }

    /// Get the guest agent PID.
    pub fn get_guest_pid(&self) -> (r: u32)
        ensures
            r == self.guest_pid,
    {
        self.guest_pid
    }

    /// Set the guest agent PID.
    pub fn set_guest_pid(&mut self, pid: u32)
        ensures
            *final(self) == (FrameBufferHeader { guest_pid: pid, ..*old(self) }),
    {
        self.guest_pid = pid;
    }

    /// Begin writing a new frame (guest agent side): the next writable
    /// buffer index, skipping the currently active one.
    pub fn begin_write_frame(&self) -> (r: u32)
        requires
            self.buffer_count > 0,
        ensures
            r == ((self.active_index + 1) % (self.buffer_count as int)) as u32,
    {
        // Take the next buffer, skipping the currently active one
        let current = self.active_index;
        let next = ((current as u64 + 1) % (self.buffer_count as u64)) as u32;
        next
    }

    /// Finish writing a frame (guest agent side): publish the buffer index
    /// as active, then bump the frame count, returning the new count.
    pub fn end_write_frame(&mut self, buffer_index: u32) -> (r: u64)
        ensures
            final(self).active_index == buffer_index,
            old(self).frame_count < u64::MAX ==> final(self).frame_count == old(self).frame_count
                + 1,
            old(self).frame_count == u64::MAX ==> final(self).frame_count == u64::MAX,
            r == final(self).frame_count,
            *final(self) == (FrameBufferHeader {
                active_index: buffer_index,
                frame_count: final(self).frame_count,
                ..*old(self)
            }),
    {
        // Publish the index before the count, so a host that sees the new
        // count also sees the new index
        self.set_active_index(buffer_index);
        self.increment_frame_count()
    }

    /// Read the current frame info (host side): the active buffer index
    /// and the frame count.
    pub fn read_frame_info(&self) -> (r: (u32, u64))
        ensures
            r.0 == self.active_index,
            r.1 == self.frame_count,
    {
        (self.active_index, self.frame_count)
    }

    /// The stride (bytes per row) for the configured format.
    pub fn stride(&self) -> (r: u64)
        ensures
            r == (match self.format {
                FrameFormat::Bgra32 => self.frame_width * 4,
                FrameFormat::Rgba32 => self.frame_width * 4,
                FrameFormat::Nv12 => self.frame_width as int,
            }),
    {
        match self.format {
            FrameFormat::Bgra32 => self.frame_width as u64 * 4,
            FrameFormat::Rgba32 => self.frame_width as u64 * 4,
            FrameFormat::Nv12 => self.frame_width as u64,
        }
    }

    /// The expected frame data size for the configured geometry: width *
    /// height * 4 for the 32-bit formats; a full-resolution luma plane
    /// plus a half-resolution interleaved chroma plane for NV12. The
    /// geometry must fit the 64-bit size.
    pub fn expected_data_size(&self) -> (r: u64)
        requires
            self.frame_width * self.frame_height * 4 <= u64::MAX,
        ensures
            r == (match self.format {
                FrameFormat::Bgra32 => self.frame_width * self.frame_height * 4,
                FrameFormat::Rgba32 => self.frame_width * self.frame_height * 4,
                FrameFormat::Nv12 => self.frame_width * self.frame_height + (self.frame_width
                    as int / 2) * (self.frame_height as int / 2) * 2,
            }),
    {
        let w = self.frame_width as u64;
        let h = self.frame_height as u64;
        proof {
            assert(w as int * h as int <= w as int * h as int * 4 && (w as int / 2) * (h as int
                / 2) * 2 <= w as int * h as int && w as int * h as int + (w as int / 2) * (h as int
                / 2) * 2 <= w as int * h as int * 4) by (nonlinear_arith);
        }
        match self.format {
            FrameFormat::Bgra32 | FrameFormat::Rgba32 => w * h * 4,
            FrameFormat::Nv12 => {
                // Y plane plus UV plane at half resolution
                let y_size = w * h;
                let uv_size = (w / 2) * (h / 2) * 2;
                y_size + uv_size
            },
        }
    }

    /// Get the cursor update counter.
    pub fn cursor_update_count(&self) -> (r: u32)
        ensures
            r == self.cursor_updated,
    {
        self.cursor_updated
    }

    /// Record new cursor shape information (guest agent side): the size is
    /// clamped to the cursor region's capacity, and the update counter is
    /// bumped (wrapping) to signal the change.
    pub fn set_cursor_shape_info(
        &mut self,
        width: u16,
        height: u16,
        hot_x: i16,
        hot_y: i16,
        data_size: u32,
    )
        ensures
            final(self).cursor_width == width,
            final(self).cursor_height == height,
            final(self).cursor_hot_x == hot_x,
            final(self).cursor_hot_y == hot_y,
            final(self).cursor_size == (if data_size <= MAX_CURSOR_SIZE {
                data_size
            } else {
                MAX_CURSOR_SIZE
            }),
            final(self).cursor_updated == (if old(self).cursor_updated < u32::MAX {
                old(self).cursor_updated + 1
            } else {
                0int
            }),
            *final(self) == (FrameBufferHeader {
                cursor_width: width,
                cursor_height: height,
                cursor_hot_x: hot_x,
                cursor_hot_y: hot_y,
                cursor_size: final(self).cursor_size,
                cursor_updated: final(self).cursor_updated,
                ..*old(self)
            }),
    {
        self.cursor_width = width;
        self.cursor_height = height;
        self.cursor_hot_x = hot_x;
        self.cursor_hot_y = hot_y;
        self.cursor_size = if data_size <= MAX_CURSOR_SIZE {
            data_size
        } else {
            MAX_CURSOR_SIZE
        };
        // Bump the update counter to signal the change
        self.cursor_updated = if self.cursor_updated < u32::MAX {
            self.cursor_updated + 1
        } else {
            0
        };
    }

    /// Set the cursor data offset (during layout initialization).
    pub fn set_cursor_offset(&mut self, offset: u64)
        ensures
            *final(self) == (FrameBufferHeader { cursor_offset: offset, ..*old(self) }),
    {
        self.cursor_offset = offset;
    }

    /// Get the cursor shape information.
    pub fn get_cursor_shape(&self) -> (r: CursorShapeInfo)
        ensures
            r == (CursorShapeInfo {
                width: self.cursor_width,
                height: self.cursor_height,
                hot_x: self.cursor_hot_x,
                hot_y: self.cursor_hot_y,
                data_size: self.cursor_size,
            }),
    {
        CursorShapeInfo {
            width: self.cursor_width,
            height: self.cursor_height,
            hot_x: self.cursor_hot_x,
            hot_y: self.cursor_hot_y,
            data_size: self.cursor_size,
        }
    }

    /// Check whether cursor data is available.
    pub fn has_cursor_data(&self) -> (r: bool)
        ensures
            r == (self.cursor_offset > 0 && self.cursor_size > 0),
    {
        self.cursor_offset > 0 && self.cursor_size > 0
    }
}

/// Frame metadata: one record per buffer.
#[derive(Debug, Clone, Copy)]
pub struct FrameMetadata {
    /// Frame sequence number
    pub frame_number: u64,
    /// Timestamp in nanoseconds (monotonic clock)
    pub timestamp_ns: u64,
    /// Packed frame flags
    pub flags: u32,
    /// Actual data size in bytes
    pub data_size: u32,
}

impl Default for FrameMetadata {
    /// Default frame metadata is all zero.
    fn default() -> (r: Self)
        ensures
            r == (FrameMetadata { frame_number: 0, timestamp_ns: 0, flags: 0, data_size: 0 }),
    {
        FrameMetadata { frame_number: 0, timestamp_ns: 0, flags: 0, data_size: 0 }
    }
}

impl FrameMetadata {
    /// Create frame metadata for one captured frame.
    pub fn new(frame_number: u64, timestamp_ns: u64, data_size: u32, flags: FrameFlags) -> (r: Self)
        ensures
            r == (FrameMetadata { frame_number, timestamp_ns, flags: flags.bits, data_size }),
    {
        FrameMetadata { frame_number, timestamp_ns, flags: flags.bits, data_size }
    }

    /// Whether this record has been filled in (a nonzero frame number or
    /// timestamp).
    pub fn is_initialized(&self) -> (r: bool)
        ensures
            r == (self.frame_number != 0 || self.timestamp_ns != 0),
    {
        self.frame_number != 0 || self.timestamp_ns != 0
    }

    /// The frame flags, dropping unknown bits.
    pub fn flags(&self) -> (r: FrameFlags)
        ensures
            r.bits == self.flags & 0xF,
    {
        FrameFlags::from_bits_truncate(self.flags)
    }
}

/// The cache-line size data sections are aligned to.
pub const CACHE_LINE_SIZE: usize = 64;

/// `x` rounded up to the next multiple of the cache line size.
pub open spec fn cache_aligned(x: int) -> int {
    ((x + 63) / 64) * 64
}

/// Frame buffer layout calculator: byte offsets of every section of the
/// shared memory region for a buffer configuration.
#[derive(Debug, Clone)]
pub struct FrameBufferLayout {
    /// Offset of the header (always 0)
    pub header_offset: usize,
    /// Offset of the metadata array
    pub metadata_offset: usize,
    /// Offset of the data buffers
    pub data_offset: usize,
    /// Offset of the cursor metadata
    pub cursor_metadata_offset: usize,
    /// Offset of the cursor shape info
    pub cursor_shape_offset: usize,
    /// Offset of the cursor data
    pub cursor_data_offset: usize,
    /// Total size of the frame buffer region
    pub total_size: usize,
    /// Number of buffers
    pub buffer_count: u32,
    /// Size of each buffer
    pub buffer_size: u64,
}

impl FrameBufferLayout {
    /// Size of the header record in bytes.
    pub const HEADER_SIZE: usize = 88;

    /// Size of each metadata record in bytes.
    pub const METADATA_SIZE: usize = 40;

    /// Size of the cursor metadata record in bytes.
    pub const CURSOR_METADATA_SIZE: usize = 32;

    /// Size of the cursor shape info record in bytes.
    pub const CURSOR_SHAPE_SIZE: usize = 32;

    /// Size of the cursor data region in bytes.
    pub const CURSOR_DATA_SIZE: usize = 0x10000;

    /// Create a layout for a buffer configuration. The metadata array
    /// follows the header; the data buffers and the cursor region are
    /// aligned to cache lines; the cursor metadata, shape info and pixel
    /// data close the region.
    pub fn new(buffer_count: u32, buffer_size: u64) -> (r: Self)
        requires
            buffer_count <= 0x10000,
            buffer_size <= usize::MAX,
            buffer_size * buffer_count + 0x20000 + 40 * buffer_count + 256 <= usize::MAX,
        ensures
            r.header_offset == 0,
            r.metadata_offset == 88,
            r.data_offset == cache_aligned(88 + 40 * buffer_count),
            r.cursor_metadata_offset == cache_aligned(
                r.data_offset + buffer_size * buffer_count,
            ),
            r.cursor_shape_offset == r.cursor_metadata_offset + 32,
            r.cursor_data_offset == r.cursor_shape_offset + 32,
            r.total_size == r.cursor_data_offset + 0x10000,
            r.buffer_count == buffer_count,
            r.buffer_size == buffer_size,
    {
        let header_offset: usize = 0;
        let metadata_offset: usize = 88;

        // Align the data section to a cache line
        let metadata_total: usize = 40 * buffer_count as usize;
        proof {
            assert(88 + 40 * buffer_count as int + 63 <= usize::MAX);
            assert((88 + 40 * buffer_count as int + 63) / 64 * 64 <= 88 + 40 * buffer_count as int
                + 63);
        }
        let data_offset: usize = ((metadata_offset + metadata_total + 63) / 64) * 64;

        proof {
            assert(buffer_size as int * buffer_count as int <= buffer_size as int
                * buffer_count as int) by (nonlinear_arith);
        }
        let data_total: usize = (buffer_size as usize) * (buffer_count as usize);

        // The cursor region starts after the frame data, cache aligned
        proof {
            assert((data_offset as int + data_total as int + 63) / 64 * 64 <= data_offset as int
                + data_total as int + 63);
        }
        let cursor_metadata_offset: usize = ((data_offset + data_total + 63) / 64) * 64;
        let cursor_shape_offset: usize = cursor_metadata_offset + 32;
        let cursor_data_offset: usize = cursor_shape_offset + 32;

        // The total size includes the cursor data region
        let total_size: usize = cursor_data_offset + 0x10000;

        FrameBufferLayout {
            header_offset,
            metadata_offset,
            data_offset,
            cursor_metadata_offset,
            cursor_shape_offset,
            cursor_data_offset,
            total_size,
            buffer_count,
            buffer_size,
        }
    }

    /// Create a layout from a header's buffer configuration.
    pub fn from_header(header: &FrameBufferHeader) -> (r: Self)
        requires
            header.buffer_count <= 0x10000,
            header.buffer_size <= usize::MAX,
            header.buffer_size * header.buffer_count + 0x20000 + 40 * header.buffer_count + 256
                <= usize::MAX,
        ensures
            r.buffer_count == header.buffer_count,
            r.buffer_size == header.buffer_size,
    {
        Self::new(header.buffer_count, header.buffer_size)
    }

    /// The offset of a buffer's metadata record; the index must be in
    /// range.
    pub fn metadata_offset_for(&self, index: u32) -> (r: usize)
        requires
            index < self.buffer_count,
            self.metadata_offset + 40 * self.buffer_count <= usize::MAX,
        ensures
            r == self.metadata_offset + index * 40,
    {
        proof {
            assert(40 * index as int <= 40 * (self.buffer_count as int - 1)) by (nonlinear_arith)
                requires
                    index < self.buffer_count,
            ;
            assert(40 * (self.buffer_count as int - 1) < 40 * self.buffer_count as int);
        }
        self.metadata_offset + (index as usize) * 40
    }

    /// The offset of a buffer's frame data; the index must be in range.
    pub fn data_offset_for(&self, index: u32) -> (r: usize)
        requires
            index < self.buffer_count,
            self.data_offset + self.buffer_size * self.buffer_count <= usize::MAX,
        ensures
            r == self.data_offset + index * self.buffer_size,
    {
        proof {
            assert(index as int * self.buffer_size as int <= (self.buffer_count as int - 1)
                * self.buffer_size as int) by (nonlinear_arith)
                requires
                    index < self.buffer_count,
            ;
            assert((self.buffer_count as int - 1) * self.buffer_size as int + self.buffer_size as int
                == self.buffer_count as int * self.buffer_size as int) by (nonlinear_arith);
            assert(self.buffer_size as int * self.buffer_count as int == self.buffer_count as int
                * self.buffer_size as int) by (nonlinear_arith);
        }
        self.data_offset + (index as usize) * (self.buffer_size as usize)
    }

    /// The next buffer index, wrapping around the ring.
    pub fn next_index(&self, current: u32) -> (r: u32)
        requires
            self.buffer_count > 0,
            current < u32::MAX,
        ensures
            r == (current + 1) % (self.buffer_count as int),
    {
        (current + 1) % self.buffer_count
    }

    /// Whether a region of `region_size` bytes is large enough for this
    /// layout.
    pub fn validate_region_size(&self, region_size: usize) -> (r: bool)
        ensures
            r == (region_size >= self.total_size),
    {
        region_size >= self.total_size
    }

    /// The cursor metadata offset.
    pub fn cursor_metadata_offset_for(&self) -> (r: usize)
        ensures
            r == self.cursor_metadata_offset,
    {
        self.cursor_metadata_offset
    }

    /// The cursor shape info offset.
    pub fn cursor_shape_offset_for(&self) -> (r: usize)
        ensures
            r == self.cursor_shape_offset,
    {
        self.cursor_shape_offset
    }

    /// The cursor data offset.
    pub fn cursor_data_offset_for(&self) -> (r: usize)
        ensures
            r == self.cursor_data_offset,
    {
        self.cursor_data_offset
    }
}

// ============================================================================
// Audio Support
// ============================================================================

/// Audio sample formats.
#[derive(Debug, Clone, Copy, PartialEq, Eq, Structural)]
pub enum AudioFormat {
    /// 16-bit signed PCM, little-endian
    PcmS16Le,
    /// 24-bit signed PCM, little-endian
    PcmS24Le,
    /// 32-bit signed PCM, little-endian
    PcmS32Le,
    /// 32-bit float, little-endian
    FloatLe,
}

impl Default for AudioFormat {
    /// The default format is 16-bit signed PCM.
    fn default() -> (r: Self)
        ensures
            r == AudioFormat::PcmS16Le,
    {
        AudioFormat::PcmS16Le
    }
}

/// The wire encoding of an audio format.
pub open spec fn audio_format_u32(f: AudioFormat) -> u32 {
    match f {
        AudioFormat::PcmS16Le => 0,
        AudioFormat::PcmS24Le => 1,
        AudioFormat::PcmS32Le => 2,
        AudioFormat::FloatLe => 3,
    }
}

/// The audio format a word decodes to; unknown values are rejected.
pub open spec fn audio_format_of_u32(value: u32) -> Option<AudioFormat> {
    if value == 0 {
        Some(AudioFormat::PcmS16Le)
    } else if value == 1 {
        Some(AudioFormat::PcmS24Le)
    } else if value == 2 {
        Some(AudioFormat::PcmS32Le)
    } else if value == 3 {
        Some(AudioFormat::FloatLe)
    } else {
        None
    }
}

/// The bytes one sample of a format occupies.
pub open spec fn spec_bytes_per_sample(f: AudioFormat) -> u8 {
    match f {
        AudioFormat::PcmS16Le => 2,
        AudioFormat::PcmS24Le => 3,
        AudioFormat::PcmS32Le => 4,
        AudioFormat::FloatLe => 4,
    }
}

impl AudioFormat {
    /// Decode a wire value; unknown values are rejected.
    pub fn try_from(value: u32) -> (r: Result<AudioFormat, &'static str>)
        ensures
            r is Ok <==> audio_format_of_u32(value) is Some,
            r is Ok ==> Some(r->Ok_0) == audio_format_of_u32(value),
    {
        if value == 0 {
            Ok(AudioFormat::PcmS16Le)
        } else if value == 1 {
            Ok(AudioFormat::PcmS24Le)
        } else if value == 2 {
            Ok(AudioFormat::PcmS32Le)
        } else if value == 3 {
            Ok(AudioFormat::FloatLe)
        } else {
            Err("Invalid audio format value")
        }
    }

    /// The number of bytes per sample.
    pub fn bytes_per_sample(&self) -> (r: u8)
        ensures
            r == spec_bytes_per_sample(*self),
    {
        match self {
            AudioFormat::PcmS16Le => 2,
            AudioFormat::PcmS24Le => 3,
            AudioFormat::PcmS32Le => 4,
            AudioFormat::FloatLe => 4,
        }
    }
}

/// Audio buffer magic number ("AUDI").
pub const AUDIO_BUFFER_MAGIC: u32 = 0x41554449;

/// Audio buffer version.
pub const AUDIO_BUFFER_VERSION: u32 = 1;

/// Default audio ring size (1MB).
pub const DEFAULT_AUDIO_BUFFER_SIZE: u32 = 0x100000;

/// Default sample rate in Hz.
pub const DEFAULT_SAMPLE_RATE: u32 = 48000;

/// Default channel count (stereo).
pub const DEFAULT_CHANNELS: u8 = 2;

/// Audio buffer header: controls the shared-memory audio ring; the guest
/// writes samples and advances the write position, the host reads and
/// advances the read position.
#[derive(Debug, Clone)]
pub struct AudioBufferHeader {
    /// Magic number for validation
    pub magic: u32,
    /// Version number
    pub version: u32,
    /// Audio format
    pub format: AudioFormat,
    /// Sample rate in Hz
    pub sample_rate: u32,
    /// Number of channels (1 = mono, 2 = stereo)
    pub channels: u8,
    /// Ring buffer size in bytes
    pub buffer_size: u32,
    /// Write position, advanced by the guest
    pub write_pos: u32,
    /// Read position, advanced by the host
    pub read_pos: u32,
    /// Total bytes written
    pub total_written: u64,
    /// Audio stream active flag
    pub active: u32,
}

impl AudioBufferHeader {
    /// Create an audio buffer header with positions zeroed and the stream
    /// inactive.
    pub fn new(format: AudioFormat, sample_rate: u32, channels: u8, buffer_size: u32) -> (r: Self)
        ensures
            r == (AudioBufferHeader {
                magic: AUDIO_BUFFER_MAGIC,
                version: AUDIO_BUFFER_VERSION,
                format,
                sample_rate,
                channels,
                buffer_size,
                write_pos: 0,
                read_pos: 0,
                total_written: 0,
                active: 0,
            }),
    {
        AudioBufferHeader {
            magic: AUDIO_BUFFER_MAGIC,
            version: AUDIO_BUFFER_VERSION,
            format,
            sample_rate,
            channels,
            buffer_size,
            write_pos: 0,
            read_pos: 0,
            total_written: 0,
            active: 0,
        }
    }

    /// Validate the header magic number and version.
    pub fn validate(&self) -> (r: bool)
        ensures
            r == (self.magic == AUDIO_BUFFER_MAGIC && self.version == AUDIO_BUFFER_VERSION),
    {
        self.magic == AUDIO_BUFFER_MAGIC && self.version == AUDIO_BUFFER_VERSION
    }

    /// The bytes available to read: the distance from the read position
    /// to the write position around the ring.
    pub fn available_to_read(&self) -> (r: u32)
        requires
            self.write_pos <= self.buffer_size,
            self.read_pos <= self.buffer_size,
        ensures
            self.write_pos >= self.read_pos ==> r == self.write_pos - self.read_pos,
            self.write_pos < self.read_pos ==> r == self.buffer_size - self.read_pos
                + self.write_pos,
    {
        let write = self.write_pos;
        let read = self.read_pos;
        if write >= read {
            write - read
        } else {
            self.buffer_size - read + write
        }
    }

    /// The bytes available to write: the ring's free space, keeping one
    /// byte unused to tell a full ring from an empty one.
    pub fn available_to_write(&self) -> (r: u32)
        requires
            self.write_pos <= self.buffer_size,
            self.read_pos <= self.buffer_size,
            self.buffer_size > 0,
            self.write_pos >= self.read_pos ==> self.write_pos - self.read_pos
                < self.buffer_size,
        ensures
            self.write_pos >= self.read_pos ==> r == self.buffer_size - (self.write_pos
                - self.read_pos) - 1,
            self.write_pos < self.read_pos ==> r == self.read_pos - self.write_pos - 1,
    {
        // Keep one byte free to distinguish full from empty
        self.buffer_size - self.available_to_read() - 1
    }

    /// The total layout size: this header's record plus the ring.
    pub fn total_layout_size(&self) -> (r: usize)
        requires
            self.buffer_size as int + 40 <= usize::MAX,
        ensures
            r == 40 + self.buffer_size,
    {
        40 + self.buffer_size as usize
    }
}

impl Default for AudioBufferHeader {
    /// A default audio buffer header uses 16-bit stereo PCM at 48kHz with
    /// a 1MB ring.
    fn default() -> (r: Self)
        ensures
            r == (AudioBufferHeader {
                magic: AUDIO_BUFFER_MAGIC,
                version: AUDIO_BUFFER_VERSION,
                format: AudioFormat::PcmS16Le,
                sample_rate: DEFAULT_SAMPLE_RATE,
                channels: DEFAULT_CHANNELS,
                buffer_size: DEFAULT_AUDIO_BUFFER_SIZE,
                write_pos: 0,
                read_pos: 0,
                total_written: 0,
                active: 0,
            }),
    {
        Self::new(AudioFormat::PcmS16Le, DEFAULT_SAMPLE_RATE, DEFAULT_CHANNELS, DEFAULT_AUDIO_BUFFER_SIZE)
    }
}

} // verus!
