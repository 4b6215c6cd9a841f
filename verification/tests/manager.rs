//! Tests for the input manager.

use devices::backend::BackendType;
use devices::event::{InputRequest, KeyboardAction, KeyboardEvent, MouseButton};
use devices::manager::{InputConfig, InputManager};

#[test]
fn test_manager_creation() {
    let manager = InputManager::new(InputConfig::new());
    assert_eq!(manager.active_backend(), BackendType::Ps2);
    assert!(!manager.is_ready());
    assert!(manager.capabilities().is_none());
}

#[test]
fn test_manager_backend_switching() {
    let mut manager = InputManager::new(InputConfig::new());
    // Switching to an uninitialized backend fails
    assert!(manager.switch_backend(BackendType::Virtio).is_err());
    manager.init_virtio_backend();
    assert!(manager.switch_backend(BackendType::Virtio).is_ok());
    assert_eq!(manager.active_backend(), BackendType::Virtio);
    // The USB HID backend is not wired up
    assert!(manager.switch_backend(BackendType::UsbHid).is_err());
}

#[test]
fn test_manager_injection_counts() {
    let mut manager = InputManager::new(InputConfig::new());
    manager.init_ps2_backend();
    assert!(manager.is_ready());
    manager.type_key(0x1E).unwrap();
    manager.mouse_move(5, 5).unwrap();
    manager.mouse_click(MouseButton::Left).unwrap();
    manager.mouse_scroll(-1).unwrap();
    let stats = manager.stats();
    // A typed key is a press and a release; a click is a press and a
    // release
    assert_eq!(stats.keyboard_events, 2);
    assert_eq!(stats.mouse_events, 4);
    assert_eq!(stats.total_events, 6);
    manager.reset_stats();
    assert_eq!(manager.stats().total_events, 0);
}

#[test]
fn test_manager_disabled_inputs() {
    let config = InputConfig {
        default_backend: BackendType::Ps2,
        allow_backend_switch: true,
        enable_keyboard: false,
        enable_mouse: false,
    };
    let mut manager = InputManager::new(config);
    manager.init_ps2_backend();
    assert!(manager.type_key(0x1E).is_err());
    assert!(manager.mouse_move(1, 1).is_err());
}

#[test]
fn test_manager_process_request() {
    let mut manager = InputManager::new(InputConfig::new());
    manager.init_ps2_backend();
    let request = InputRequest {
        backend: None,
        keyboard: vec![
            KeyboardEvent {
                action: KeyboardAction::Press,
                code: 1,
                modifiers: Default::default(),
            },
            KeyboardEvent {
                action: KeyboardAction::Release,
                code: 1,
                modifiers: Default::default(),
            },
        ],
        mouse: Vec::new(),
    };
    let stats = manager.process_request(&request).unwrap();
    assert_eq!(stats.keyboard_events, 2);
    assert_eq!(stats.mouse_events, 0);
    assert_eq!(stats.total_events, 2);
    assert_eq!(stats.errors, 0);
}

#[test]
fn test_manager_process_request_with_override() {
    let mut manager = InputManager::new(InputConfig::new());
    manager.init_ps2_backend();
    // An unknown backend name fails the whole request
    let request = InputRequest {
        backend: Some("nonsense".to_string()),
        keyboard: Vec::new(),
        mouse: Vec::new(),
    };
    assert!(manager.process_request(&request).is_err());
    // A known, initialized backend is switched to
    let request = InputRequest {
        backend: Some("ps2".to_string()),
        keyboard: Vec::new(),
        mouse: Vec::new(),
    };
    assert!(manager.process_request(&request).is_ok());
}
