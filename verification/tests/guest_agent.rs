//! Tests for the guest-side protocol, audio capture and agent decisions.

use devices::agent::{agent_step, AgentAction};
use devices::audio::{AudioCapture, AudioConfig, StubAudioCapture};
use devices::cursor::{CursorCapture, StubCursorCapture};
use devices::protocol::{
    AudioFormat, FrameFlags, FrameFormat, GuestCommand, AUDIO_BUFFER_MAGIC, DEFAULT_BUFFER_COUNT,
    FRAME_BUFFER_MAGIC, FRAME_BUFFER_VERSION,
};

#[test]
fn guest_agent_integration_tests_available() {
    // Marker test for the guest agent suite
}

#[test]
fn test_frame_format_bgra32() {
    assert_eq!(FrameFormat::Bgra32.bytes_per_pixel(), 4);
}

#[test]
fn test_frame_format_rgba32() {
    assert_eq!(FrameFormat::Rgba32.bytes_per_pixel(), 4);
}

#[test]
fn test_frame_format_nv12() {
    // NV12 averages one byte per pixel (Y plane plus UV plane)
    assert_eq!(FrameFormat::Nv12.bytes_per_pixel(), 1);
}

#[test]
fn test_frame_format_default() {
    let format = FrameFormat::default();
    assert_eq!(format, FrameFormat::Bgra32);
}

#[test]
fn test_frame_format_try_from() {
    assert_eq!(FrameFormat::try_from(0).unwrap(), FrameFormat::Bgra32);
    assert_eq!(FrameFormat::try_from(1).unwrap(), FrameFormat::Rgba32);
    assert_eq!(FrameFormat::try_from(2).unwrap(), FrameFormat::Nv12);
    assert!(FrameFormat::try_from(99).is_err());
}

#[test]
fn test_frame_flags_default() {
    let flags = FrameFlags::default();
    assert!(flags.is_empty());
}

#[test]
fn test_frame_flags_keyframe() {
    let flags = FrameFlags::keyframe();
    assert!(flags.contains(FrameFlags::keyframe()));
}

#[test]
fn test_frame_flags_processed() {
    let flags = FrameFlags::processed();
    assert!(flags.contains(FrameFlags::processed()));
}

#[test]
fn test_frame_flags_combined() {
    let flags = FrameFlags::keyframe().union(FrameFlags::processed());
    assert!(flags.contains(FrameFlags::keyframe()));
    assert!(flags.contains(FrameFlags::processed()));
}

#[test]
fn test_audio_config_defaults() {
    let config = AudioConfig::default();

    assert_eq!(config.sample_rate, 48000);
    assert_eq!(config.channels, 2);
    assert_eq!(config.format, AudioFormat::PcmS16Le);
    assert_eq!(config.buffer_duration_ms, 20);
}

#[test]
fn test_audio_format_default() {
    let format = AudioFormat::default();
    assert_eq!(format, AudioFormat::PcmS16Le);
}

#[test]
fn test_audio_format_variants() {
    // Every format variant exists
    let _ = AudioFormat::PcmS16Le;
    let _ = AudioFormat::PcmS24Le;
    let _ = AudioFormat::PcmS32Le;
    let _ = AudioFormat::FloatLe;
}

#[test]
fn test_stub_audio_creation() {
    let result = StubAudioCapture::new();
    assert!(result.is_ok());
}

#[test]
fn test_stub_audio_init() {
    let mut capture = StubAudioCapture::new().unwrap();
    let result = capture.init(44100, 2, AudioFormat::PcmS16Le);
    assert!(result.is_ok());
}

#[test]
fn test_stub_audio_start_stop() {
    let mut capture = StubAudioCapture::new().unwrap();

    // Not capturing at first
    assert!(!capture.is_capturing());

    // Start capturing
    let result = capture.start();
    assert!(result.is_ok());
    assert!(capture.is_capturing());

    // Stop capturing
    let result = capture.stop();
    assert!(result.is_ok());
    assert!(!capture.is_capturing());
}

#[test]
fn test_stub_audio_read_samples() {
    let mut capture = StubAudioCapture::new().unwrap();
    capture.init(48000, 2, AudioFormat::PcmS16Le).unwrap();

    // A read before starting fails
    let mut buffer = vec![0u8; 1024];
    let result = capture.read_samples(&mut buffer);
    assert!(result.is_err());

    // Start and read
    capture.start().unwrap();
    let result = capture.read_samples(&mut buffer);
    assert!(result.is_ok());

    // The stub returns silence (zeros)
    let bytes_read = result.unwrap();
    assert!(bytes_read > 0);
}

#[test]
fn test_frame_buffer_magic() {
    assert_eq!(FRAME_BUFFER_MAGIC, 0x46424D50); // "FBMP"
}

#[test]
fn test_frame_buffer_version() {
    assert_eq!(FRAME_BUFFER_VERSION, 1);
}

#[test]
fn test_audio_buffer_magic() {
    assert_eq!(AUDIO_BUFFER_MAGIC, 0x41554449); // "AUDI"
}

#[test]
fn test_default_buffer_count() {
    assert_eq!(DEFAULT_BUFFER_COUNT, 3); // Triple buffering
}

#[test]
fn test_stub_cursor() {
    let mut cursor = StubCursorCapture::new().unwrap();
    assert_eq!(cursor.get_position().unwrap(), (0, 0));
    assert!(!cursor.is_visible());
    assert!(cursor.get_shape().unwrap().is_none());
    assert!(!cursor.has_shape_changed());
}

#[test]
fn test_agent_command_steps() {
    // A start command begins capture exactly once
    assert_eq!(agent_step(GuestCommand::StartCapture, false), (AgentAction::StartCapture, true));
    assert_eq!(agent_step(GuestCommand::StartCapture, true), (AgentAction::Idle, true));
    // A stop command ends capture exactly once
    assert_eq!(agent_step(GuestCommand::StopCapture, true), (AgentAction::StopCapture, false));
    assert_eq!(agent_step(GuestCommand::StopCapture, false), (AgentAction::Idle, false));
    // A format command never changes the capture flag
    assert_eq!(agent_step(GuestCommand::SetFormat, true), (AgentAction::ApplyFormat, true));
    // No command leaves everything as it is
    assert_eq!(agent_step(GuestCommand::NoCommand, false), (AgentAction::Idle, false));
}

#[test]
fn test_frame_format_bytes_per_pixel() {
    assert_eq!(FrameFormat::Bgra32.bytes_per_pixel(), 4);
    assert_eq!(FrameFormat::Rgba32.bytes_per_pixel(), 4);
    assert_eq!(FrameFormat::Nv12.bytes_per_pixel(), 1); // Y plane only
}
