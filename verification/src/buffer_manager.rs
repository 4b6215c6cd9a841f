//! Dynamic buffer management for the shared-memory frame buffers:
//! configurable buffer counts, overflow detection and usage statistics.

use vstd::prelude::*;

use crate::frame_buffer::{
    DEFAULT_BUFFER_COUNT, FrameBufferLayout, FrameFlags, FrameMetadata,
};

verus! {

/// Minimum buffer count.
pub const MIN_BUFFER_COUNT: u32 = 2;

/// Maximum buffer count.
pub const MAX_BUFFER_COUNT: u32 = 16;

/// Preset buffer counts for different use cases.
#[derive(Debug, Clone, Copy, PartialEq, Eq, Structural)]
pub enum BufferProfile {
    /// Low latency (2 buffers)
    LowLatency,
    /// Balanced (3 buffers, the default)
    Balanced,
    /// High throughput (4 buffers)
    HighThroughput,
    /// Maximum (8 buffers)
    Maximum,
}

impl Default for BufferProfile {
    /// The default profile is balanced.
    fn default() -> (r: Self)
        ensures
            r == BufferProfile::Balanced,
    {
        BufferProfile::Balanced
    }
}

/// The buffer count a profile stands for.
pub open spec fn profile_buffer_count(p: BufferProfile) -> u32 {
    match p {
        BufferProfile::LowLatency => 2,
        BufferProfile::Balanced => 3,
        BufferProfile::HighThroughput => 4,
        BufferProfile::Maximum => 8,
    }
}

impl BufferProfile {
    /// The buffer count for this profile.
    pub fn buffer_count(&self) -> (r: u32)
        ensures
            r == profile_buffer_count(*self),
    {
        match self {
            BufferProfile::LowLatency => 2,
            BufferProfile::Balanced => 3,
            BufferProfile::HighThroughput => 4,
            BufferProfile::Maximum => 8,
        }
    }
}

/// Buffer states for monitoring.
#[derive(Debug, Clone, Copy, PartialEq, Eq, Structural)]
pub enum BufferState {
    /// Free and available
    Free,
    /// Being written to
    Writing,
    /// Holding valid data, ready to read
    Ready,
    /// Being read
    Reading,
}

/// Per-buffer information for monitoring.
#[derive(Debug, Clone)]
pub struct BufferInfo {
    /// Buffer index
    pub index: u32,
    /// Buffer state
    pub state: BufferState,
    /// Frame number in this buffer
    pub frame_number: u64,
    /// Data size in bytes
    pub data_size: u32,
    /// Timestamp in nanoseconds
    pub timestamp_ns: u64,
    /// Whether the frame is a keyframe
    pub is_keyframe: bool,
}

/// Buffer manager statistics. The average frame size is kept as the exact
/// running total and count.
#[derive(Debug, Clone)]
pub struct BufferStats {
    /// Total frames written
    pub frames_written: u64,
    /// Total frames read
    pub frames_read: u64,
    /// Buffer overflows (writer outran the reader)
    pub overflows: u64,
    /// Buffer underflows (reader outran the writer)
    pub underflows: u64,
    /// Current write index
    pub write_index: u32,
    /// Current read index
    pub read_index: u32,
    /// Average frame size in bytes (rounded down)
    pub avg_frame_size: u64,
}

impl Default for BufferStats {
    /// Default statistics are all zero.
    fn default() -> (r: Self)
        ensures
            r == (BufferStats {
                frames_written: 0,
                frames_read: 0,
                overflows: 0,
                underflows: 0,
                write_index: 0,
                read_index: 0,
                avg_frame_size: 0,
            }),
    {
        BufferStats {
            frames_written: 0,
            frames_read: 0,
            overflows: 0,
            underflows: 0,
            write_index: 0,
            read_index: 0,
            avg_frame_size: 0,
        }
    }
}

/// Buffer manager configuration.
#[derive(Debug, Clone)]
pub struct BufferConfig {
    /// Number of buffers
    pub buffer_count: u32,
    /// Size of each buffer in bytes
    pub buffer_size: u64,
    /// Enable overflow detection
    pub detect_overflow: bool,
    /// Enable statistics collection
    pub collect_stats: bool,
}

impl Default for BufferConfig {
    /// The default configuration is triple buffering of 1080p BGRA
    /// frames, with overflow detection and statistics on.
    fn default() -> (r: Self)
        ensures
            r == (BufferConfig {
                buffer_count: DEFAULT_BUFFER_COUNT,
                buffer_size: 0x7E9000,
                detect_overflow: true,
                collect_stats: true,
            }),
            r.buffer_size == 1920 * 1080 * 4,
    {
        BufferConfig {
            buffer_count: DEFAULT_BUFFER_COUNT,
            buffer_size: 1920 * 1080 * 4,
            detect_overflow: true,
            collect_stats: true,
        }
    }
}

/// Whether a buffer configuration is acceptable: a count within range and
/// a nonzero size.
pub open spec fn config_valid(c: BufferConfig) -> bool {
    MIN_BUFFER_COUNT <= c.buffer_count <= MAX_BUFFER_COUNT && c.buffer_size != 0
}

impl BufferConfig {
    /// Create a configuration from a profile and buffer size.
    pub fn from_profile(profile: BufferProfile, buffer_size: u64) -> (r: Self)
        ensures
            r == (BufferConfig {
                buffer_count: profile_buffer_count(profile),
                buffer_size,
                detect_overflow: true,
                collect_stats: true,
            }),
    {
        BufferConfig {
            buffer_count: profile.buffer_count(),
            buffer_size,
            detect_overflow: true,
            collect_stats: true,
        }
    }

    /// Validate the configuration: the count must lie between the minimum
    /// and maximum and the size must be nonzero; an error names the
    /// violated bound.
    pub fn validate(&self) -> (r: Result<(), String>)
        ensures
            r is Ok <==> config_valid(*self),
            self.buffer_count < MIN_BUFFER_COUNT ==> (r matches Err(m) && m@
                == "Buffer count is below the minimum"@),
            self.buffer_count > MAX_BUFFER_COUNT ==> (r matches Err(m) && m@
                == "Buffer count exceeds the maximum"@),
            MIN_BUFFER_COUNT <= self.buffer_count <= MAX_BUFFER_COUNT && self.buffer_size == 0
                ==> (r matches Err(m) && m@ == "Buffer size cannot be zero"@),
    {
        if self.buffer_count < MIN_BUFFER_COUNT {
            return Err("Buffer count is below the minimum".to_owned());
        }
        if self.buffer_count > MAX_BUFFER_COUNT {
            return Err("Buffer count exceeds the maximum".to_owned());
        }
        if self.buffer_size == 0 {
            return Err("Buffer size cannot be zero".to_owned());
        }
        Ok(())
    }
}

/// Buffer manager for the shared-memory frame buffers.
pub struct BufferManager {
    /// Configuration
    config: BufferConfig,
    /// Layout calculator
    layout: FrameBufferLayout,
    /// Statistics
    stats: BufferStats,
    /// Frame count for averaging
    frame_count: u64,
    /// Total bytes written, for averaging
    total_bytes: u64,
}

impl BufferManager {
    /// The configuration.
    pub closed spec fn spec_config(&self) -> BufferConfig {
        self.config
    }

    /// The layout.
    pub closed spec fn spec_layout(&self) -> FrameBufferLayout {
        self.layout
    }

    /// The statistics.
    pub closed spec fn spec_stats(&self) -> BufferStats {
        self.stats
    }

    /// The frame count backing the average.
    pub closed spec fn spec_frame_count(&self) -> u64 {
        self.frame_count
    }

    /// The byte total backing the average.
    pub closed spec fn spec_total_bytes(&self) -> u64 {
        self.total_bytes
    }

    /// Create a buffer manager; an invalid configuration is rejected.
    pub fn new(config: BufferConfig) -> (r: Result<Self, String>)
        requires
            config.buffer_size <= usize::MAX,
            config.buffer_size * config.buffer_count + 0x20000 + 40 * config.buffer_count + 256
                <= usize::MAX,
        ensures
            r is Ok <==> config_valid(config),
            r is Ok ==> {
                let m = r->Ok_0;
                &&& m.spec_config() == config
                &&& m.spec_layout().buffer_count == config.buffer_count
                &&& m.spec_layout().buffer_size == config.buffer_size
                &&& m.spec_stats() == BufferStats::default_spec()
                &&& m.spec_frame_count() == 0
                &&& m.spec_total_bytes() == 0
            },
    {
        match config.validate() {
            Ok(_) => {},
            Err(e) => {
                return Err(e);
            },
        }
        let layout = FrameBufferLayout::new(config.buffer_count, config.buffer_size);
        Ok(Self {
            config,
            layout,
            stats: BufferStats::default(),
            frame_count: 0,
            total_bytes: 0,
        })
    }

    /// Create a manager with the default configuration.
    pub fn default_manager() -> (r: Self)
        ensures
            r.spec_config() == BufferConfig::default_spec(),
            r.spec_layout().buffer_count == DEFAULT_BUFFER_COUNT,
            r.spec_stats() == BufferStats::default_spec(),
    {
        let config = BufferConfig::default();
        let layout = FrameBufferLayout::new(config.buffer_count, config.buffer_size);
        Self { config, layout, stats: BufferStats::default(), frame_count: 0, total_bytes: 0 }
    }

    /// Create a manager from a profile and buffer size.
    pub fn from_profile(profile: BufferProfile, buffer_size: u64) -> (r: Self)
        requires
            buffer_size != 0,
            buffer_size <= usize::MAX,
            buffer_size * profile_buffer_count(profile) + 0x20000 + 40 * profile_buffer_count(
                profile,
            ) + 256 <= usize::MAX,
        ensures
            r.spec_config().buffer_count == profile_buffer_count(profile),
            r.spec_config().buffer_size == buffer_size,
            r.spec_stats() == BufferStats::default_spec(),
    {
        let config = BufferConfig::from_profile(profile, buffer_size);
        let layout = FrameBufferLayout::new(config.buffer_count, config.buffer_size);
        Self { config, layout, stats: BufferStats::default(), frame_count: 0, total_bytes: 0 }
    }

    /// Get the configuration.
    pub fn config(&self) -> (r: &BufferConfig)
        ensures
            r == self.spec_config(),
    {
        &self.config
    }

    /// Get the layout.
    pub fn layout(&self) -> (r: &FrameBufferLayout)
        ensures
            r == self.spec_layout(),
    {
        &self.layout
    }

    /// Get the buffer count.
    pub fn buffer_count(&self) -> (r: u32)
        ensures
            r == self.spec_config().buffer_count,
    {
        self.config.buffer_count
    }

    /// Get the buffer size.
    pub fn buffer_size(&self) -> (r: u64)
        ensures
            r == self.spec_config().buffer_size,
    {
        self.config.buffer_size
    }

    /// The total shared memory size the layout requires.
    pub fn total_size(&self) -> (r: usize)
        ensures
            r == self.spec_layout().total_size,
    {
        self.layout.total_size
    }

    /// The next write index, wrapping around the ring.
    pub fn next_write_index(&self, current: u32) -> (r: u32)
        requires
            self.spec_config().buffer_count > 0,
        ensures
            r == ((current as int + 1) % (self.spec_config().buffer_count as int)),
    {
        ((current as u64 + 1) % (self.config.buffer_count as u64)) as u32
    }

    /// The next read index, wrapping around the ring.
    pub fn next_read_index(&self, current: u32) -> (r: u32)
        requires
            self.spec_config().buffer_count > 0,
        ensures
            r == ((current as int + 1) % (self.spec_config().buffer_count as int)),
    {
        ((current as u64 + 1) % (self.config.buffer_count as u64)) as u32
    }

    /// Whether the next write would catch up to the reader. Always false
    /// with overflow detection off.
    pub fn would_overflow(&self, write_index: u32, read_index: u32) -> (r: bool)
        requires
            self.spec_config().buffer_count > 0,
        ensures
            r == (self.spec_config().detect_overflow && ((write_index as int + 1) % (
            self.spec_config().buffer_count as int)) == read_index),
    {
        if !self.config.detect_overflow {
            return false;
        }
        let next_write = self.next_write_index(write_index);
        // Overflow if the next write would catch up to the read
        next_write == read_index
    }

    /// Record a frame write of `data_size` bytes: bumps the written count
    /// and updates the running average; the counters saturate rather than
    /// wrap.
    pub fn record_write(&mut self, data_size: u32)
        ensures
            final(self).spec_config() == old(self).spec_config(),
            final(self).spec_layout() == old(self).spec_layout(),
            final(self).spec_frame_count() == (if old(self).spec_frame_count() < u64::MAX {
                old(self).spec_frame_count() + 1
            } else {
                old(self).spec_frame_count() as int
            }),
            final(self).spec_total_bytes() == (if old(self).spec_total_bytes() + data_size
                <= u64::MAX {
                old(self).spec_total_bytes() + data_size
            } else {
                old(self).spec_total_bytes() as int
            }),
            final(self).spec_stats().frames_written == (if old(self).spec_stats().frames_written < u64::MAX {
                old(self).spec_stats().frames_written + 1
            } else {
                old(self).spec_stats().frames_written as int
            }),
            final(self).spec_stats().avg_frame_size == final(self).spec_total_bytes() / (final(self).spec_frame_count() as u64),
            final(self).spec_stats() == (BufferStats {
                frames_written: final(self).spec_stats().frames_written,
                avg_frame_size: final(self).spec_stats().avg_frame_size,
                ..old(self).spec_stats()
            }),
    {
        if self.frame_count < u64::MAX {
            self.frame_count = self.frame_count + 1;
        }
        if self.total_bytes <= u64::MAX - data_size as u64 {
            self.total_bytes = self.total_bytes + data_size as u64;
        }
        if self.stats.frames_written < u64::MAX {
            self.stats.frames_written = self.stats.frames_written + 1;
        }
        self.stats.avg_frame_size = self.total_bytes / self.frame_count;
    }

    /// Record a frame read; the counter saturates rather than wraps.
    pub fn record_read(&mut self)
        ensures
            final(self).spec_stats().frames_read == (if old(self).spec_stats().frames_read
                < u64::MAX {
                old(self).spec_stats().frames_read + 1
            } else {
                old(self).spec_stats().frames_read as int
            }),
            final(self).spec_stats() == (BufferStats {
                frames_read: final(self).spec_stats().frames_read,
                ..old(self).spec_stats()
            }),
            final(self).spec_config() == old(self).spec_config(),
            final(self).spec_layout() == old(self).spec_layout(),
            final(self).spec_frame_count() == old(self).spec_frame_count(),
            final(self).spec_total_bytes() == old(self).spec_total_bytes(),
    {
        if self.stats.frames_read < u64::MAX {
            self.stats.frames_read = self.stats.frames_read + 1;
        }
    }

    /// Record an overflow; the counter saturates rather than wraps.
    pub fn record_overflow(&mut self)
        ensures
            final(self).spec_stats().overflows == (if old(self).spec_stats().overflows < u64::MAX {
                old(self).spec_stats().overflows + 1
            } else {
                old(self).spec_stats().overflows as int
            }),
            final(self).spec_stats() == (BufferStats {
                overflows: final(self).spec_stats().overflows,
                ..old(self).spec_stats()
            }),
            final(self).spec_config() == old(self).spec_config(),
            final(self).spec_layout() == old(self).spec_layout(),
            final(self).spec_frame_count() == old(self).spec_frame_count(),
            final(self).spec_total_bytes() == old(self).spec_total_bytes(),
    {
        if self.stats.overflows < u64::MAX {
            self.stats.overflows = self.stats.overflows + 1;
        }
    }

    /// Record an underflow; the counter saturates rather than wraps.
    pub fn record_underflow(&mut self)
        ensures
            final(self).spec_stats().underflows == (if old(self).spec_stats().underflows
                < u64::MAX {
                old(self).spec_stats().underflows + 1
            } else {
                old(self).spec_stats().underflows as int
            }),
            final(self).spec_stats() == (BufferStats {
                underflows: final(self).spec_stats().underflows,
                ..old(self).spec_stats()
            }),
            final(self).spec_config() == old(self).spec_config(),
            final(self).spec_layout() == old(self).spec_layout(),
            final(self).spec_frame_count() == old(self).spec_frame_count(),
            final(self).spec_total_bytes() == old(self).spec_total_bytes(),
    {
        if self.stats.underflows < u64::MAX {
            self.stats.underflows = self.stats.underflows + 1;
        }
    }

    /// Get the statistics.
    pub fn stats(&self) -> (r: &BufferStats)
        ensures
            r == self.spec_stats(),
    {
        &self.stats
    }

    /// Reset the statistics and the averaging counters.
    pub fn reset_stats(&mut self)
        ensures
            final(self).spec_stats() == BufferStats::default_spec(),
            final(self).spec_frame_count() == 0,
            final(self).spec_total_bytes() == 0,
            final(self).spec_config() == old(self).spec_config(),
            final(self).spec_layout() == old(self).spec_layout(),
    {
        self.stats = BufferStats::default();
        self.frame_count = 0;
        self.total_bytes = 0;
    }

    /// Compute the memory layout for a buffer configuration.
    pub fn calculate_layout(buffer_count: u32, buffer_size: u64) -> (r: FrameBufferLayout)
        requires
            buffer_count <= 0x10000,
            buffer_size <= usize::MAX,
            buffer_size * buffer_count + 0x20000 + 40 * buffer_count + 256 <= usize::MAX,
        ensures
            r.buffer_count == buffer_count,
            r.buffer_size == buffer_size,
    {
        FrameBufferLayout::new(buffer_count, buffer_size)
    }

    /// Build per-buffer monitoring info from a metadata record: the buffer
    /// reads Ready once the record has been filled in, Free before.
    pub fn get_buffer_info(&self, index: u32, metadata: &FrameMetadata) -> (r: BufferInfo)
        ensures
            r.index == index,
            r.state == (if metadata.frame_number != 0 || metadata.timestamp_ns != 0 {
                BufferState::Ready
            } else {
                BufferState::Free
            }),
            r.frame_number == metadata.frame_number,
            r.data_size == metadata.data_size,
            r.timestamp_ns == metadata.timestamp_ns,
            r.is_keyframe == ((metadata.flags & 0xF) & 1 == 1),
    {
        let flags = metadata.flags();
        BufferInfo {
            index,
            state: if metadata.is_initialized() {
                BufferState::Ready
            } else {
                BufferState::Free
            },
            frame_number: metadata.frame_number,
            data_size: metadata.data_size,
            timestamp_ns: metadata.timestamp_ns,
            is_keyframe: flags.contains(FrameFlags::keyframe()),
        }
    }

    /// Recommend a buffer count for a frame rate and resolution: more
    /// frames per second or more pixels call for more buffers.
    pub fn recommend_buffer_count(fps: u32, resolution: (u32, u32)) -> (r: u32)
        requires
            resolution.0 * resolution.1 <= u32::MAX,
        ensures
            r == spec_recommended_count(fps, resolution.0 as int * resolution.1 as int),
    {
        let pixels = resolution.0 * resolution.1;
        if fps <= 30 {
            if pixels <= 2_073_600 {
                2
            } else {
                3
            }
        } else if fps <= 60 {
            if pixels <= 2_073_600 {
                3
            } else {
                4
            }
        } else if fps <= 120 {
            4
        } else {
            6
        }
    }

    /// The buffer size a resolution and pixel depth require.
    pub fn calculate_buffer_size(width: u32, height: u32, bytes_per_pixel: u32) -> (r: u64)
        requires
            width * height * bytes_per_pixel <= u32::MAX,
        ensures
            r == width * height * bytes_per_pixel,
    {
        proof {
            assert(width as int * height as int <= width as int * height as int
                * bytes_per_pixel as int || bytes_per_pixel == 0) by (nonlinear_arith);
            assert(bytes_per_pixel == 0 ==> width as int * height as int * bytes_per_pixel as int
                == 0) by (nonlinear_arith);
        }
        if bytes_per_pixel == 0 {
            proof {
                assert(width as int * height as int * 0 == 0) by (nonlinear_arith);
            }
            return 0;
        }
        (width * height * bytes_per_pixel) as u64
    }
}

/// The recommended buffer count for a frame rate and pixel count: two for
/// 1080p at 30fps or below, up to six for very high frame rates.
pub open spec fn spec_recommended_count(fps: u32, pixels: int) -> u32 {
    if fps <= 30 {
        if pixels <= 2_073_600 {
            2
        } else {
            3
        }
    } else if fps <= 60 {
        if pixels <= 2_073_600 {
            3
        } else {
            4
        }
    } else if fps <= 120 {
        4
    } else {
        6
    }
}

impl BufferStats {
    /// The all-zero statistics record.
    pub open spec fn default_spec() -> BufferStats {
        BufferStats {
            frames_written: 0,
            frames_read: 0,
            overflows: 0,
            underflows: 0,
            write_index: 0,
            read_index: 0,
            avg_frame_size: 0,
        }
    }
}

impl BufferConfig {
    /// The default configuration value.
    pub open spec fn default_spec() -> BufferConfig {
        BufferConfig {
            buffer_count: DEFAULT_BUFFER_COUNT,
            buffer_size: 0x7E9000,
            detect_overflow: true,
            collect_stats: true,
        }
    }
}

} // verus!
