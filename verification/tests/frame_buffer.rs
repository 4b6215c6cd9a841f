//! Tests for the shared-memory frame buffer protocol.

use devices::frame_buffer::{
    FrameBufferHeader, FrameBufferLayout, FrameFlags, FrameFormat, FrameMetadata, GuestCommand,
    GuestState, FRAME_BUFFER_MAGIC, FRAME_BUFFER_VERSION,
};

#[test]
fn test_frame_format_conversion() {
    assert_eq!(FrameFormat::try_from(0).unwrap(), FrameFormat::Bgra32);
    assert_eq!(FrameFormat::try_from(1).unwrap(), FrameFormat::Rgba32);
    assert_eq!(FrameFormat::try_from(2).unwrap(), FrameFormat::Nv12);
    assert!(FrameFormat::try_from(3).is_err());
}

#[test]
fn test_frame_buffer_header_validation() {
    let header = FrameBufferHeader::new(3, 1920 * 1080 * 4, 1920, 1080, FrameFormat::Bgra32);
    assert!(header.validate());
    assert_eq!(header.magic, FRAME_BUFFER_MAGIC);
    assert_eq!(header.version, FRAME_BUFFER_VERSION);
}

#[test]
fn test_frame_buffer_header_stride() {
    let header = FrameBufferHeader::new(3, 1920 * 1080 * 4, 1920, 1080, FrameFormat::Bgra32);
    assert_eq!(header.stride(), 1920 * 4);

    let header_nv12 = FrameBufferHeader::new(3, 1920 * 1080 * 3 / 2, 1920, 1080, FrameFormat::Nv12);
    assert_eq!(header_nv12.stride(), 1920);
}

#[test]
fn test_frame_buffer_header_expected_size() {
    let header = FrameBufferHeader::new(3, 1920 * 1080 * 4, 1920, 1080, FrameFormat::Bgra32);
    assert_eq!(header.expected_data_size(), 1920 * 1080 * 4);

    let header_nv12 = FrameBufferHeader::new(3, 1920 * 1080 * 3 / 2, 1920, 1080, FrameFormat::Nv12);
    // NV12: Y plane (1920*1080) plus UV plane (960*540*2)
    assert_eq!(header_nv12.expected_data_size(), 1920 * 1080 + 960 * 540 * 2);
}

#[test]
fn test_frame_buffer_layout_basic() {
    let layout = FrameBufferLayout::new(3, 1920 * 1080 * 4);

    assert_eq!(layout.header_offset, 0);
    assert!(layout.metadata_offset > 0);
    assert!(layout.data_offset > layout.metadata_offset);
    assert!(layout.total_size > layout.data_offset);

    // Verify the configuration
    assert_eq!(layout.buffer_count, 3);
    assert_eq!(layout.buffer_size, 1920 * 1080 * 4);
}

#[test]
fn test_frame_buffer_layout_offsets() {
    let layout = FrameBufferLayout::new(3, 1024);

    // Metadata offsets
    let meta0 = layout.metadata_offset_for(0);
    let meta1 = layout.metadata_offset_for(1);
    let meta2 = layout.metadata_offset_for(2);
    assert_eq!(meta1 - meta0, FrameBufferLayout::METADATA_SIZE);
    assert_eq!(meta2 - meta1, FrameBufferLayout::METADATA_SIZE);

    // Data offsets
    let data0 = layout.data_offset_for(0);
    let data1 = layout.data_offset_for(1);
    let data2 = layout.data_offset_for(2);
    assert_eq!(data1 - data0, 1024);
    assert_eq!(data2 - data1, 1024);
}

#[test]
fn test_frame_buffer_layout_next_index() {
    let layout = FrameBufferLayout::new(3, 1024);

    assert_eq!(layout.next_index(0), 1);
    assert_eq!(layout.next_index(1), 2);
    assert_eq!(layout.next_index(2), 0); // Wraps around
}

#[test]
fn test_frame_buffer_layout_validate_region_size() {
    let layout = FrameBufferLayout::new(3, 1024);

    assert!(layout.validate_region_size(layout.total_size));
    assert!(layout.validate_region_size(layout.total_size + 1000));
    assert!(!layout.validate_region_size(layout.total_size - 1));
}

#[test]
fn test_frame_metadata() {
    let meta = FrameMetadata::new(1, 12345678, 1024, FrameFlags::keyframe());

    assert_eq!(meta.frame_number, 1);
    assert_eq!(meta.timestamp_ns, 12345678);
    assert_eq!(meta.data_size, 1024);
    assert!(meta.is_initialized());
    assert!(meta.flags().contains(FrameFlags::keyframe()));
}

#[test]
fn test_frame_flags() {
    let flags = FrameFlags::keyframe().union(FrameFlags::processed());
    assert!(flags.contains(FrameFlags::keyframe()));
    assert!(flags.contains(FrameFlags::processed()));
    assert!(!flags.contains(FrameFlags::eos()));

    let default_flags = FrameFlags::default();
    assert_eq!(default_flags, FrameFlags::none());
}

#[test]
fn test_atomic_operations() {
    let mut header = FrameBufferHeader::new(3, 1024, 100, 100, FrameFormat::Bgra32);

    assert_eq!(header.active_index(), 0);
    header.set_active_index(2);
    assert_eq!(header.active_index(), 2);

    assert_eq!(header.frame_count(), 0);
    assert_eq!(header.increment_frame_count(), 1);
    assert_eq!(header.frame_count(), 1);
    assert_eq!(header.increment_frame_count(), 2);
    assert_eq!(header.frame_count(), 2);
}

#[test]
fn test_layout_from_header() {
    let header = FrameBufferHeader::new(5, 2048, 640, 480, FrameFormat::Rgba32);
    let layout = FrameBufferLayout::from_header(&header);

    assert_eq!(layout.buffer_count, 5);
    assert_eq!(layout.buffer_size, 2048);
}

#[test]
fn test_guest_command_conversion() {
    assert_eq!(GuestCommand::try_from(0).unwrap(), GuestCommand::NoCommand);
    assert_eq!(GuestCommand::try_from(1).unwrap(), GuestCommand::StartCapture);
    assert_eq!(GuestCommand::try_from(2).unwrap(), GuestCommand::StopCapture);
    assert_eq!(GuestCommand::try_from(3).unwrap(), GuestCommand::SetFormat);
    assert!(GuestCommand::try_from(4).is_err());
}

#[test]
fn test_guest_state_conversion() {
    assert_eq!(GuestState::try_from(0).unwrap(), GuestState::Idle);
    assert_eq!(GuestState::try_from(1).unwrap(), GuestState::Capturing);
    assert_eq!(GuestState::try_from(2).unwrap(), GuestState::Error);
    assert_eq!(GuestState::try_from(3).unwrap(), GuestState::Initializing);
    assert!(GuestState::try_from(4).is_err());
}

#[test]
fn test_command_state_operations() {
    let mut header = FrameBufferHeader::new(3, 1024, 100, 100, FrameFormat::Bgra32);

    // Command operations
    assert_eq!(header.get_command(), GuestCommand::NoCommand);
    header.set_command(GuestCommand::StartCapture);
    assert_eq!(header.get_command(), GuestCommand::StartCapture);
    header.clear_command();
    assert_eq!(header.get_command(), GuestCommand::NoCommand);

    // State operations
    assert_eq!(header.get_guest_state(), GuestState::Idle);
    header.set_guest_state(GuestState::Capturing);
    assert_eq!(header.get_guest_state(), GuestState::Capturing);
    header.set_guest_state(GuestState::Error);
    assert_eq!(header.get_guest_state(), GuestState::Error);

    // PID operations
    assert_eq!(header.get_guest_pid(), 0);
    header.set_guest_pid(12345);
    assert_eq!(header.get_guest_pid(), 12345);
}

#[test]
fn test_frame_write_protocol() {
    let mut header = FrameBufferHeader::new(3, 1024, 100, 100, FrameFormat::Bgra32);

    // Initial state
    assert_eq!(header.active_index(), 0);
    assert_eq!(header.frame_count(), 0);

    // Beginning a write yields the next buffer
    let next_buf = header.begin_write_frame();
    assert_eq!(next_buf, 1); // (0 + 1) % 3 = 1

    // Ending a write publishes the index and bumps the count
    let new_count = header.end_write_frame(1);
    assert_eq!(new_count, 1);
    assert_eq!(header.active_index(), 1);
    assert_eq!(header.frame_count(), 1);

    // The next frame
    let next_buf = header.begin_write_frame();
    assert_eq!(next_buf, 2); // (1 + 1) % 3 = 2
    let new_count = header.end_write_frame(2);
    assert_eq!(new_count, 2);

    // Wrap around
    let next_buf = header.begin_write_frame();
    assert_eq!(next_buf, 0); // (2 + 1) % 3 = 0
    let new_count = header.end_write_frame(0);
    assert_eq!(new_count, 3);
    assert_eq!(header.active_index(), 0);
}

#[test]
fn test_frame_read_protocol() {
    let mut header = FrameBufferHeader::new(3, 1024, 100, 100, FrameFormat::Bgra32);

    // The initial read
    let (index, count) = header.read_frame_info();
    assert_eq!(index, 0);
    assert_eq!(count, 0);

    // The guest writes a frame
    header.end_write_frame(1);

    // A read after the write sees it
    let (index, count) = header.read_frame_info();
    assert_eq!(index, 1);
    assert_eq!(count, 1);
}

#[test]
fn test_cursor_shape_info() {
    let mut header = FrameBufferHeader::new(3, 1024, 100, 100, FrameFormat::Bgra32);
    assert!(!header.has_cursor_data());
    assert_eq!(header.cursor_update_count(), 0);
    header.set_cursor_shape_info(32, 32, 4, 4, 4096);
    assert_eq!(header.cursor_update_count(), 1);
    let shape = header.get_cursor_shape();
    assert_eq!(shape.width, 32);
    assert_eq!(shape.height, 32);
    assert_eq!(shape.hot_x, 4);
    assert_eq!(shape.data_size, 4096);
    // An oversized cursor is clamped to the region's capacity
    header.set_cursor_shape_info(512, 512, 0, 0, 0x100000);
    assert_eq!(header.get_cursor_shape().data_size, 0x10000);
    header.set_cursor_offset(0x2000);
    assert!(header.has_cursor_data());
}
