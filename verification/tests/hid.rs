//! Tests for the USB HID device emulation.

use devices::device::{TransferError, UsbDevice};
use devices::hid::{HidState, HidType, UsbHidDevice};

#[test]
fn test_keyboard_device_creation() {
    let device = UsbHidDevice::new_keyboard();
    assert_eq!(device.hid_type(), HidType::Keyboard);
    assert_eq!(device.state(), HidState::Default);
    assert_eq!(device.address(), 0);
}

#[test]
fn test_mouse_device_creation() {
    let device = UsbHidDevice::new_mouse();
    assert_eq!(device.hid_type(), HidType::Mouse);
    assert_eq!(device.state(), HidState::Default);
}

#[test]
fn test_report_descriptors() {
    let keyboard = UsbHidDevice::new_keyboard();
    let mouse = UsbHidDevice::new_mouse();

    assert!(!keyboard.report_descriptor().is_empty());
    assert!(!mouse.report_descriptor().is_empty());
}

#[test]
fn test_queue_report() {
    let mut device = UsbHidDevice::new_keyboard();
    let report = vec![0, 0, 0x04, 0, 0, 0, 0, 0]; // 'A' key

    assert!(device.queue_report(report.clone()));
    assert!(device.has_pending_reports());
    assert_eq!(device.get_report(), Some(report));
    assert!(!device.has_pending_reports());
}

#[test]
fn test_control_set_address() {
    let mut device = UsbHidDevice::new_keyboard();
    // SET_ADDRESS with value 7
    let request = [0x00, 0x05, 0x07, 0x00, 0x00, 0x00, 0x00, 0x00];
    let reply = device.handle_control(&request).unwrap();
    assert!(reply.is_empty());
    assert_eq!(device.address(), 7);
    assert_eq!(device.state(), HidState::Addressed);
}

#[test]
fn test_control_set_configuration() {
    let mut device = UsbHidDevice::new_keyboard();
    // SET_CONFIGURATION with value 1
    let request = [0x00, 0x09, 0x01, 0x00, 0x00, 0x00, 0x00, 0x00];
    device.handle_control(&request).unwrap();
    assert_eq!(device.state(), HidState::Configured);
}

#[test]
fn test_control_get_device_descriptor() {
    let mut device = UsbHidDevice::new_keyboard();
    // GET_DESCRIPTOR for the device descriptor (type 1)
    let request = [0x80, 0x06, 0x00, 0x01, 0x00, 0x00, 0x12, 0x00];
    let descriptor = device.handle_control(&request).unwrap();
    assert_eq!(descriptor.len(), 18);
    assert_eq!(descriptor[0], 18);
    assert_eq!(descriptor[1], 0x01);
    // The vendor id 0x1D6B, little-endian
    assert_eq!(descriptor[8], 0x6B);
    assert_eq!(descriptor[9], 0x1D);
}

#[test]
fn test_control_get_configuration_descriptor() {
    let mut device = UsbHidDevice::new_keyboard();
    // GET_DESCRIPTOR for the configuration descriptor (type 2)
    let request = [0x80, 0x06, 0x00, 0x02, 0x00, 0x00, 0x22, 0x00];
    let descriptor = device.handle_control(&request).unwrap();
    assert_eq!(descriptor.len(), 34);
    // The total length field covers all four descriptors
    assert_eq!(descriptor[2], 34);
    assert_eq!(descriptor[3], 0);
}

#[test]
fn test_control_short_request_rejected() {
    let mut device = UsbHidDevice::new_keyboard();
    let request = [0x00, 0x05, 0x07];
    assert_eq!(device.handle_control(&request), Err(TransferError::InvalidInput));
}

#[test]
fn test_transfer_endpoints() {
    let mut device = UsbHidDevice::new_keyboard();
    // The interrupt IN endpoint refuses while no report is queued
    assert_eq!(device.handle_transfer(0x81, &[]), Err(TransferError::WouldBlock));
    device.queue_report(vec![1, 2, 3]);
    assert_eq!(device.handle_transfer(0x81, &[]), Ok(vec![1, 2, 3]));
    // The OUT endpoint accepts and ignores
    assert_eq!(device.handle_transfer(0x01, &[0x02]), Ok(vec![]));
    // Unknown endpoints are rejected
    assert_eq!(device.handle_transfer(0x99, &[]), Err(TransferError::InvalidInput));
}

#[test]
fn test_reset_clears_state() {
    let mut device = UsbHidDevice::new_keyboard();
    let request = [0x00, 0x05, 0x07, 0x00, 0x00, 0x00, 0x00, 0x00];
    device.handle_control(&request).unwrap();
    device.queue_report(vec![1]);
    device.reset();
    assert_eq!(device.state(), HidState::Default);
    assert_eq!(device.address(), 0);
    assert!(!device.has_pending_reports());
}

#[test]
fn test_report_queue_drops_oldest_when_full() {
    let mut device = UsbHidDevice::new_keyboard();
    for i in 0..20u8 {
        device.queue_report(vec![i]);
    }
    // The queue keeps the newest 16 reports; the oldest went first
    assert_eq!(device.get_report(), Some(vec![4]));
}
