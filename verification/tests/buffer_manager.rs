//! Tests for the buffer manager.

use devices::buffer_manager::{BufferConfig, BufferManager, BufferProfile, BufferState};
use devices::frame_buffer::{FrameFlags, FrameMetadata, DEFAULT_BUFFER_COUNT};

#[test]
fn test_buffer_config_validation() {
    let valid = BufferConfig::default();
    assert!(valid.validate().is_ok());

    let invalid_count = BufferConfig { buffer_count: 1, ..Default::default() };
    assert!(invalid_count.validate().is_err());

    let invalid_size = BufferConfig { buffer_size: 0, ..Default::default() };
    assert!(invalid_size.validate().is_err());
}

#[test]
fn test_buffer_config_error_messages() {
    // Each rejection names the violated bound
    let low = BufferConfig { buffer_count: 1, ..Default::default() };
    assert_eq!(low.validate().unwrap_err(), "Buffer count is below the minimum");
    let high = BufferConfig { buffer_count: 17, ..Default::default() };
    assert_eq!(high.validate().unwrap_err(), "Buffer count exceeds the maximum");
    let zero = BufferConfig { buffer_size: 0, ..Default::default() };
    assert_eq!(zero.validate().unwrap_err(), "Buffer size cannot be zero");
}

#[test]
fn test_buffer_profiles() {
    assert_eq!(BufferProfile::LowLatency.buffer_count(), 2);
    assert_eq!(BufferProfile::Balanced.buffer_count(), 3);
    assert_eq!(BufferProfile::HighThroughput.buffer_count(), 4);
    assert_eq!(BufferProfile::Maximum.buffer_count(), 8);
}

#[test]
fn test_buffer_manager_creation() {
    let manager = BufferManager::default_manager();
    assert_eq!(manager.buffer_count(), DEFAULT_BUFFER_COUNT);
}

#[test]
fn test_overflow_detection() {
    let manager = BufferManager::new(BufferConfig {
        buffer_count: 3,
        buffer_size: 1024,
        detect_overflow: true,
        collect_stats: true,
    })
    .unwrap();

    // Writing at index 0 with the reader at index 1: the next write
    // would catch up to the reader, an overflow
    assert!(manager.would_overflow(0, 1));

    // Writing at index 0 with the reader at index 2: no overflow
    assert!(!manager.would_overflow(0, 2));
}

#[test]
fn test_statistics() {
    let mut manager = BufferManager::default_manager();

    manager.record_write(1024);
    manager.record_write(2048);

    assert_eq!(manager.stats().frames_written, 2);
    assert!((manager.stats().avg_frame_size as f64 - 1536.0).abs() < 0.1);
}

#[test]
fn test_recommend_buffer_count() {
    // 1080p at 30fps
    assert_eq!(BufferManager::recommend_buffer_count(30, (1920, 1080)), 2);

    // 1080p at 60fps
    assert_eq!(BufferManager::recommend_buffer_count(60, (1920, 1080)), 3);

    // 4K at 60fps
    assert_eq!(BufferManager::recommend_buffer_count(60, (3840, 2160)), 4);
}

#[test]
fn test_layout_calculation() {
    let manager = BufferManager::new(BufferConfig {
        buffer_count: 4,
        buffer_size: 1920 * 1080 * 4,
        ..Default::default()
    })
    .unwrap();

    let layout = manager.layout();
    assert_eq!(layout.buffer_count, 4);
    assert!(layout.total_size > 0);
}

#[test]
fn test_buffer_info() {
    let manager = BufferManager::default_manager();
    let empty = FrameMetadata::default();
    let info = manager.get_buffer_info(0, &empty);
    assert_eq!(info.state, BufferState::Free);
    let filled = FrameMetadata::new(7, 123, 4096, FrameFlags::keyframe());
    let info = manager.get_buffer_info(2, &filled);
    assert_eq!(info.state, BufferState::Ready);
    assert_eq!(info.index, 2);
    assert_eq!(info.frame_number, 7);
    assert!(info.is_keyframe);
}
