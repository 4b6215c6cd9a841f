//! Emulated guest-facing device cores for a hypervisor: an xHCI (USB 3.0)
//! host-controller model with its TRB rings, register banks and device
//! slots, plus the shared-memory frame-buffer protocol, HID device model,
//! input-injection backends and virtio GPU protocol records that surround
//! it.

pub mod agent;
pub mod audio;
pub mod backend;
pub mod batch;
pub mod buffer_manager;
pub mod controller;
pub mod cursor;
pub mod device;
pub mod event;
pub mod frame_buffer;
pub mod gpu;
pub mod hid;
pub mod keys;
pub mod manager;
pub mod protocol;
pub mod regs;
pub mod rings;
pub mod virtio_input;
