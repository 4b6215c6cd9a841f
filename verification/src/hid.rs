//! USB HID device emulation: keyboard and mouse devices with their
//! descriptors, control-request handling and report queues.

use std::collections::VecDeque;

use vstd::prelude::*;

use crate::device::{TransferError, UsbDevice, UsbSpeed};

verus! {

/// USB HID device class.
pub const USB_CLASS_HID: u8 = 0x03;

/// HID subclass for the boot interface.
pub const HID_SUBCLASS_BOOT: u8 = 0x01;

/// HID protocol for a keyboard.
pub const HID_PROTOCOL_KEYBOARD: u8 = 0x01;

/// HID protocol for a mouse.
pub const HID_PROTOCOL_MOUSE: u8 = 0x02;

/// USB endpoint direction: IN (device to host).
pub const USB_DIR_IN: u8 = 0x80;

/// USB endpoint type: interrupt.
pub const USB_ENDPOINT_XFER_INT: u8 = 0x03;

// ============================================================================
// USB Descriptors
// ============================================================================

/// USB device descriptor (18 wire bytes).
#[derive(Debug, Clone, Copy)]
pub struct UsbDeviceDescriptor {
    /// Descriptor length
    pub b_length: u8,
    /// Descriptor type
    pub b_descriptor_type: u8,
    /// USB specification release (BCD)
    pub bcd_usb: u16,
    /// Device class
    pub b_device_class: u8,
    /// Device subclass
    pub b_device_sub_class: u8,
    /// Device protocol
    pub b_device_protocol: u8,
    /// Max packet size for endpoint 0
    pub b_max_packet_size0: u8,
    /// Vendor ID
    pub id_vendor: u16,
    /// Product ID
    pub id_product: u16,
    /// Device release (BCD)
    pub bcd_device: u16,
    /// Manufacturer string index
    pub i_manufacturer: u8,
    /// Product string index
    pub i_product: u8,
    /// Serial number string index
    pub i_serial_number: u8,
    /// Number of configurations
    pub b_num_configurations: u8,
}

/// The 18 little-endian wire bytes of a device descriptor.
pub open spec fn device_descriptor_bytes(d: UsbDeviceDescriptor) -> Seq<u8> {
    seq![
        d.b_length,
        d.b_descriptor_type,
        (d.bcd_usb & 0xFF) as u8,
        ((d.bcd_usb >> 8) & 0xFF) as u8,
        d.b_device_class,
        d.b_device_sub_class,
        d.b_device_protocol,
        d.b_max_packet_size0,
        (d.id_vendor & 0xFF) as u8,
        ((d.id_vendor >> 8) & 0xFF) as u8,
        (d.id_product & 0xFF) as u8,
        ((d.id_product >> 8) & 0xFF) as u8,
        (d.bcd_device & 0xFF) as u8,
        ((d.bcd_device >> 8) & 0xFF) as u8,
        d.i_manufacturer,
        d.i_product,
        d.i_serial_number,
        d.b_num_configurations,
    ]
}

/// The low byte of a 16-bit word.
fn lo(x: u16) -> (r: u8)
    ensures
        r == x & 0xFF,
{
    proof {
        let v = x;
        assert(v & 0xFF < 256) by (bit_vector);
    }
    (x & 0xFF) as u8
}

/// The high byte of a 16-bit word.
fn hi(x: u16) -> (r: u8)
    ensures
        r == (x >> 8) & 0xFF,
{
    proof {
        let v = x;
        assert((v >> 8) & 0xFF < 256 && v & 0xFF < 256) by (bit_vector);
    }
    ((x >> 8) & 0xFF) as u8
}

/// The keyboard device descriptor value.
pub open spec fn keyboard_device_descriptor() -> UsbDeviceDescriptor {
    UsbDeviceDescriptor {
        b_length: 18,
        b_descriptor_type: 0x01,  // DEVICE
        bcd_usb: 0x0200,  // USB 2.0
        b_device_class: 0x00,  // Defined at interface level
        b_device_sub_class: 0x00,
        b_device_protocol: 0x00,
        b_max_packet_size0: 8,
        id_vendor: 0x1D6B,  // Linux Foundation
        id_product: 0x0104,  // Virtual HID Keyboard
        bcd_device: 0x0100,
        i_manufacturer: 1,
        i_product: 2,
        i_serial_number: 0,
        b_num_configurations: 1,
    }
}

/// The mouse device descriptor value.
pub open spec fn mouse_device_descriptor() -> UsbDeviceDescriptor {
    UsbDeviceDescriptor {
        b_length: 18,
        b_descriptor_type: 0x01,
        bcd_usb: 0x0200,
        b_device_class: 0x00,
        b_device_sub_class: 0x00,
        b_device_protocol: 0x00,
        b_max_packet_size0: 8,
        id_vendor: 0x1D6B,
        id_product: 0x0105,  // Virtual HID Mouse
        bcd_device: 0x0100,
        i_manufacturer: 1,
        i_product: 3,
        i_serial_number: 0,
        b_num_configurations: 1,
    }
}

impl UsbDeviceDescriptor {
    /// The HID keyboard device descriptor.
    pub fn keyboard() -> (r: Self)
        ensures
            r == keyboard_device_descriptor(),
    {
        UsbDeviceDescriptor {
            b_length: 18,
            b_descriptor_type: 0x01,
            bcd_usb: 0x0200,
            b_device_class: 0x00,
            b_device_sub_class: 0x00,
            b_device_protocol: 0x00,
            b_max_packet_size0: 8,
            id_vendor: 0x1D6B,
            id_product: 0x0104,
            bcd_device: 0x0100,
            i_manufacturer: 1,
            i_product: 2,
            i_serial_number: 0,
            b_num_configurations: 1,
        }
    }

    /// The HID mouse device descriptor.
    pub fn mouse() -> (r: Self)
        ensures
            r == mouse_device_descriptor(),
    {
        UsbDeviceDescriptor {
            b_length: 18,
            b_descriptor_type: 0x01,
            bcd_usb: 0x0200,
            b_device_class: 0x00,
            b_device_sub_class: 0x00,
            b_device_protocol: 0x00,
            b_max_packet_size0: 8,
            id_vendor: 0x1D6B,
            id_product: 0x0105,
            bcd_device: 0x0100,
            i_manufacturer: 1,
            i_product: 3,
            i_serial_number: 0,
            b_num_configurations: 1,
        }
    }

    /// Encode to the 18-byte little-endian wire form.
    pub fn encode(&self) -> (r: Vec<u8>)
        ensures
            r@ == device_descriptor_bytes(*self),
    {
        let mut v: Vec<u8> = Vec::new();
        v.push(self.b_length);
        v.push(self.b_descriptor_type);
        v.push(lo(self.bcd_usb));
        v.push(hi(self.bcd_usb));
        v.push(self.b_device_class);
        v.push(self.b_device_sub_class);
        v.push(self.b_device_protocol);
        v.push(self.b_max_packet_size0);
        v.push(lo(self.id_vendor));
        v.push(hi(self.id_vendor));
        v.push(lo(self.id_product));
        v.push(hi(self.id_product));
        v.push(lo(self.bcd_device));
        v.push(hi(self.bcd_device));
        v.push(self.i_manufacturer);
        v.push(self.i_product);
        v.push(self.i_serial_number);
        v.push(self.b_num_configurations);
        proof {
            assert(v@ =~= device_descriptor_bytes(*self));
        }
        v
    }
}

/// USB configuration descriptor (9 wire bytes).
#[derive(Debug, Clone, Copy)]
pub struct UsbConfigDescriptor {
    /// Descriptor length
    pub b_length: u8,
    /// Descriptor type
    pub b_descriptor_type: u8,
    /// Total length of the whole configuration
    pub w_total_length: u16,
    /// Number of interfaces
    pub b_num_interfaces: u8,
    /// Configuration value
    pub b_configuration_value: u8,
    /// Configuration string index
    pub i_configuration: u8,
    /// Attributes
    pub bm_attributes: u8,
    /// Max power in 2mA units
    pub b_max_power: u8,
}

/// The 9 little-endian wire bytes of a configuration descriptor.
pub open spec fn config_descriptor_bytes(d: UsbConfigDescriptor) -> Seq<u8> {
    seq![
        d.b_length,
        d.b_descriptor_type,
        (d.w_total_length & 0xFF) as u8,
        ((d.w_total_length >> 8) & 0xFF) as u8,
        d.b_num_interfaces,
        d.b_configuration_value,
        d.i_configuration,
        d.bm_attributes,
        d.b_max_power,
    ]
}

impl UsbConfigDescriptor {
    /// Encode to the 9-byte little-endian wire form.
    pub fn encode(&self) -> (r: Vec<u8>)
        ensures
            r@ == config_descriptor_bytes(*self),
    {
        let mut v: Vec<u8> = Vec::new();
        v.push(self.b_length);
        v.push(self.b_descriptor_type);
        v.push(lo(self.w_total_length));
        v.push(hi(self.w_total_length));
        v.push(self.b_num_interfaces);
        v.push(self.b_configuration_value);
        v.push(self.i_configuration);
        v.push(self.bm_attributes);
        v.push(self.b_max_power);
        proof {
            assert(v@ =~= config_descriptor_bytes(*self));
        }
        v
    }
}

/// USB interface descriptor (9 wire bytes).
#[derive(Debug, Clone, Copy)]
pub struct UsbInterfaceDescriptor {
    /// Descriptor length
    pub b_length: u8,
    /// Descriptor type
    pub b_descriptor_type: u8,
    /// Interface number
    pub b_interface_number: u8,
    /// Alternate setting
    pub b_alternate_setting: u8,
    /// Number of endpoints
    pub b_num_endpoints: u8,
    /// Interface class
    pub b_interface_class: u8,
    /// Interface subclass
    pub b_interface_sub_class: u8,
    /// Interface protocol
    pub b_interface_protocol: u8,
    /// Interface string index
    pub i_interface: u8,
}

/// The 9 wire bytes of an interface descriptor.
pub open spec fn interface_descriptor_bytes(d: UsbInterfaceDescriptor) -> Seq<u8> {
    seq![
        d.b_length,
        d.b_descriptor_type,
        d.b_interface_number,
        d.b_alternate_setting,
        d.b_num_endpoints,
        d.b_interface_class,
        d.b_interface_sub_class,
        d.b_interface_protocol,
        d.i_interface,
    ]
}

impl UsbInterfaceDescriptor {
    /// Encode to the 9-byte wire form.
    pub fn encode(&self) -> (r: Vec<u8>)
        ensures
            r@ == interface_descriptor_bytes(*self),
    {
        let mut v: Vec<u8> = Vec::new();
        v.push(self.b_length);
        v.push(self.b_descriptor_type);
        v.push(self.b_interface_number);
        v.push(self.b_alternate_setting);
        v.push(self.b_num_endpoints);
        v.push(self.b_interface_class);
        v.push(self.b_interface_sub_class);
        v.push(self.b_interface_protocol);
        v.push(self.i_interface);
        proof {
            assert(v@ =~= interface_descriptor_bytes(*self));
        }
        v
    }
}

/// USB endpoint descriptor (7 wire bytes).
#[derive(Debug, Clone, Copy)]
pub struct UsbEndpointDescriptor {
    /// Descriptor length
    pub b_length: u8,
    /// Descriptor type
    pub b_descriptor_type: u8,
    /// Endpoint address
    pub b_endpoint_address: u8,
    /// Attributes
    pub bm_attributes: u8,
    /// Max packet size
    pub w_max_packet_size: u16,
    /// Polling interval
    pub b_interval: u8,
}

/// The 7 little-endian wire bytes of an endpoint descriptor.
pub open spec fn endpoint_descriptor_bytes(d: UsbEndpointDescriptor) -> Seq<u8> {
    seq![
        d.b_length,
        d.b_descriptor_type,
        d.b_endpoint_address,
        d.bm_attributes,
        (d.w_max_packet_size & 0xFF) as u8,
        ((d.w_max_packet_size >> 8) & 0xFF) as u8,
        d.b_interval,
    ]
}

impl UsbEndpointDescriptor {
    /// Encode to the 7-byte little-endian wire form.
    pub fn encode(&self) -> (r: Vec<u8>)
        ensures
            r@ == endpoint_descriptor_bytes(*self),
    {
        let mut v: Vec<u8> = Vec::new();
        v.push(self.b_length);
        v.push(self.b_descriptor_type);
        v.push(self.b_endpoint_address);
        v.push(self.bm_attributes);
        v.push(lo(self.w_max_packet_size));
        v.push(hi(self.w_max_packet_size));
        v.push(self.b_interval);
        proof {
            assert(v@ =~= endpoint_descriptor_bytes(*self));
        }
        v
    }
}

/// HID class descriptor (5 wire bytes of header fields).
#[derive(Debug, Clone, Copy)]
pub struct HidClassDescriptor {
    /// Descriptor length
    pub b_length: u8,
    /// Descriptor type
    pub b_descriptor_type: u8,
    /// Subordinate descriptor type
    pub b_descriptor_type_sub: u8,
    /// Subordinate descriptor length
    pub w_descriptor_length: u16,
}

/// The 5 little-endian wire bytes of a HID class descriptor's fields.
pub open spec fn hid_class_descriptor_bytes(d: HidClassDescriptor) -> Seq<u8> {
    seq![
        d.b_length,
        d.b_descriptor_type,
        d.b_descriptor_type_sub,
        (d.w_descriptor_length & 0xFF) as u8,
        ((d.w_descriptor_length >> 8) & 0xFF) as u8,
    ]
}

impl HidClassDescriptor {
    /// Encode to the 5-byte little-endian wire form.
    pub fn encode(&self) -> (r: Vec<u8>)
        ensures
            r@ == hid_class_descriptor_bytes(*self),
    {
        let mut v: Vec<u8> = Vec::new();
        v.push(self.b_length);
        v.push(self.b_descriptor_type);
        v.push(self.b_descriptor_type_sub);
        v.push(lo(self.w_descriptor_length));
        v.push(hi(self.w_descriptor_length));
        proof {
            assert(v@ =~= hid_class_descriptor_bytes(*self));
        }
        v
    }
}

// ============================================================================
// HID Report Descriptors
// ============================================================================

/// The 63 bytes of the standard USB HID keyboard report descriptor.
pub open spec fn keyboard_report_bytes() -> Seq<u8> {
    seq![
        0x05u8, 0x01, 0x09, 0x06, 0xA1, 0x01, 0x05, 0x07, 0x19, 0xE0, 0x29, 0xE7, 0x15, 0x00,
        0x25, 0x01, 0x75, 0x01, 0x95, 0x08, 0x81, 0x02, 0x95, 0x01, 0x75, 0x08, 0x81, 0x01, 0x95,
        0x05, 0x75, 0x01, 0x05, 0x08, 0x19, 0x01, 0x29, 0x05, 0x91, 0x02, 0x95, 0x01, 0x75, 0x03,
        0x91, 0x01, 0x95, 0x06, 0x75, 0x08, 0x15, 0x00, 0x25, 0x65, 0x05, 0x07, 0x19, 0x00, 0x29,
        0x65, 0x81, 0x00, 0xC0,
    ]
}

/// The 52 bytes of the standard USB HID mouse report descriptor.
pub open spec fn mouse_report_bytes() -> Seq<u8> {
    seq![
        0x05u8, 0x01, 0x09, 0x02, 0xA1, 0x01, 0x09, 0x01, 0xA1, 0x00, 0x05, 0x09, 0x19, 0x01,
        0x29, 0x03, 0x15, 0x00, 0x25, 0x01, 0x95, 0x03, 0x75, 0x01, 0x81, 0x02, 0x95, 0x01, 0x75,
        0x05, 0x81, 0x01, 0x05, 0x01, 0x09, 0x30, 0x09, 0x31, 0x09, 0x38, 0x15, 0x81, 0x25, 0x7F,
        0x75, 0x08, 0x95, 0x03, 0x81, 0x06, 0xC0, 0xC0,
    ]
}

/// The standard USB HID keyboard report descriptor.
pub fn keyboard_report_descriptor() -> (r: Vec<u8>)
    ensures
        r@ == keyboard_report_bytes(),
        r@.len() == 63,
{
    let table: [u8; 63] = [
        0x05, 0x01,  // Usage Page (Generic Desktop)
        0x09, 0x06,  // Usage (Keyboard)
        0xA1, 0x01,  // Collection (Application)
        0x05, 0x07,  //   Usage Page (Key Codes)
        0x19, 0xE0,  //   Usage Minimum (224)
        0x29, 0xE7,  //   Usage Maximum (231)
        0x15, 0x00,  //   Logical Minimum (0)
        0x25, 0x01,  //   Logical Maximum (1)
        0x75, 0x01,  //   Report Size (1)
        0x95, 0x08,  //   Report Count (8)
        0x81, 0x02,  //   Input (Data, Var, Abs)
        0x95, 0x01,  //   Report Count (1)
        0x75, 0x08,  //   Report Size (8)
        0x81, 0x01,  //   Input (Const) - Reserved
        0x95, 0x05,  //   Report Count (5)
        0x75, 0x01,  //   Report Size (1)
        0x05, 0x08,  //   Usage Page (LEDs)
        0x19, 0x01,  //   Usage Minimum (1)
        0x29, 0x05,  //   Usage Maximum (5)
        0x91, 0x02,  //   Output (Data, Var, Abs)
        0x95, 0x01,  //   Report Count (1)
        0x75, 0x03,  //   Report Size (3)
        0x91, 0x01,  //   Output (Const) - Reserved
        0x95, 0x06,  //   Report Count (6)
        0x75, 0x08,  //   Report Size (8)
        0x15, 0x00,  //   Logical Minimum (0)
        0x25, 0x65,  //   Logical Maximum (101)
        0x05, 0x07,  //   Usage Page (Key Codes)
        0x19, 0x00,  //   Usage Minimum (0)
        0x29, 0x65,  //   Usage Maximum (101)
        0x81, 0x00,  //   Input (Data, Array)
        0xC0,  // End Collection
    ];
    let r = vstd::slice::slice_to_vec(table.as_slice());
    proof {
        assert(r@ =~= keyboard_report_bytes());
    }
    r
}

/// The standard USB HID mouse report descriptor.
pub fn mouse_report_descriptor() -> (r: Vec<u8>)
    ensures
        r@ == mouse_report_bytes(),
        r@.len() == 52,
{
    let table: [u8; 52] = [
        0x05, 0x01,  // Usage Page (Generic Desktop)
        0x09, 0x02,  // Usage (Mouse)
        0xA1, 0x01,  // Collection (Application)
        0x09, 0x01,  //   Usage (Pointer)
        0xA1, 0x00,  //   Collection (Physical)
        0x05, 0x09,  //     Usage Page (Button)
        0x19, 0x01,  //     Usage Minimum (1)
        0x29, 0x03,  //     Usage Maximum (3)
        0x15, 0x00,  //     Logical Minimum (0)
        0x25, 0x01,  //     Logical Maximum (1)
        0x95, 0x03,  //     Report Count (3)
        0x75, 0x01,  //     Report Size (1)
        0x81, 0x02,  //     Input (Data, Var, Abs)
        0x95, 0x01,  //     Report Count (1)
        0x75, 0x05,  //     Report Size (5)
        0x81, 0x01,  //     Input (Const) - Reserved
        0x05, 0x01,  //     Usage Page (Generic Desktop)
        0x09, 0x30,  //     Usage (X)
        0x09, 0x31,  //     Usage (Y)
        0x09, 0x38,  //     Usage (Wheel)
        0x15, 0x81,  //     Logical Minimum (-127)
        0x25, 0x7F,  //     Logical Maximum (127)
        0x75, 0x08,  //     Report Size (8)
        0x95, 0x03,  //     Report Count (3)
        0x81, 0x06,  //     Input (Data, Var, Rel)
        0xC0,  //   End Collection
        0xC0,  // End Collection
    ];
    let r = vstd::slice::slice_to_vec(table.as_slice());
    proof {
        assert(r@ =~= mouse_report_bytes());
    }
    r
}

// ============================================================================
// HID Device Types
// ============================================================================

/// HID device types.
#[derive(Clone, Copy, Debug, PartialEq, Eq, Structural)]
pub enum HidType {
    Keyboard,
    Mouse,
}

/// HID device states.
#[derive(Clone, Copy, Debug, PartialEq, Eq, Structural)]
pub enum HidState {
    Default,
    Addressed,
    Configured,
    Suspended,
}

// ============================================================================
// USB HID Device
// ============================================================================

/// The full 34-byte configuration descriptor of a HID device: the
/// configuration, interface, HID class and endpoint descriptors
/// concatenated.
pub open spec fn hid_config_bytes(t: HidType) -> Seq<u8> {
    let report_len: u16 = if t == HidType::Keyboard {
        63
    } else {
        52
    };
    config_descriptor_bytes(
        UsbConfigDescriptor {
            b_length: 9,
            b_descriptor_type: 0x02,
            w_total_length: 34,
            b_num_interfaces: 1,
            b_configuration_value: 1,
            i_configuration: 0,
            bm_attributes: 0x80,
            b_max_power: 50,
        },
    ) + interface_descriptor_bytes(
        UsbInterfaceDescriptor {
            b_length: 9,
            b_descriptor_type: 0x04,
            b_interface_number: 0,
            b_alternate_setting: 0,
            b_num_endpoints: 1,
            b_interface_class: USB_CLASS_HID,
            b_interface_sub_class: HID_SUBCLASS_BOOT,
            b_interface_protocol: if t == HidType::Keyboard {
                HID_PROTOCOL_KEYBOARD
            } else {
                HID_PROTOCOL_MOUSE
            },
            i_interface: 0,
        },
    ) + seq![
        0x09u8,
        0x21,
        0x11,
        0x01,
        0x00,
        0x01,
        0x22,
        (report_len & 0xFF) as u8,
        ((report_len >> 8) & 0xFF) as u8,
    ] + endpoint_descriptor_bytes(
        UsbEndpointDescriptor {
            b_length: 7,
            b_descriptor_type: 0x05,
            b_endpoint_address: 0x81,
            bm_attributes: USB_ENDPOINT_XFER_INT,
            w_max_packet_size: if t == HidType::Keyboard {
                8
            } else {
                4
            },
            b_interval: 10,
        },
    )
}

/// A little-endian 16-bit word read from two request bytes.
pub open spec fn word_at(req: Seq<u8>, i: int) -> u16 {
    (req[i] + req[i + 1] * 0x100) as u16
}

/// USB HID device emulator: a keyboard or a mouse with its state, its
/// descriptors and a bounded queue of input reports.
pub struct UsbHidDevice {
    /// Device type (keyboard or mouse)
    hid_type: HidType,
    /// Current device state
    state: HidState,
    /// USB device address
    address: u8,
    /// Current configuration
    configuration: u8,
    /// Device descriptor
    device_descriptor: UsbDeviceDescriptor,
    /// HID report queue (for the interrupt IN endpoint)
    report_queue: VecDeque<Vec<u8>>,
    /// Maximum queue depth
    max_queue_depth: usize,
}

impl UsbHidDevice {
    /// The device type.
    pub closed spec fn spec_hid_type(&self) -> HidType {
        self.hid_type
    }

    /// The device state.
    pub closed spec fn spec_state(&self) -> HidState {
        self.state
    }

    /// The device address.
    pub closed spec fn spec_address(&self) -> u8 {
        self.address
    }

    /// The current configuration.
    pub closed spec fn spec_configuration(&self) -> u8 {
        self.configuration
    }

    /// The stored device descriptor.
    pub closed spec fn spec_device_descriptor(&self) -> UsbDeviceDescriptor {
        self.device_descriptor
    }

    /// The queued reports, oldest first.
    pub closed spec fn spec_reports(&self) -> Seq<Vec<u8>> {
        self.report_queue@
    }

    /// The queue depth limit.
    pub closed spec fn spec_max_queue_depth(&self) -> usize {
        self.max_queue_depth
    }

    /// Create a new USB HID keyboard device.
    pub fn new_keyboard() -> (r: Self)
        ensures
            r.spec_hid_type() == HidType::Keyboard,
            r.spec_state() == HidState::Default,
            r.spec_address() == 0,
            r.spec_configuration() == 0,
            r.spec_device_descriptor() == keyboard_device_descriptor(),
            r.spec_reports() == Seq::<Vec<u8>>::empty(),
            r.spec_max_queue_depth() == 16,
    {
        Self {
            hid_type: HidType::Keyboard,
            state: HidState::Default,
            address: 0,
            configuration: 0,
            device_descriptor: UsbDeviceDescriptor::keyboard(),
            report_queue: VecDeque::new(),
            max_queue_depth: 16,
        }
    }

    /// Create a new USB HID mouse device.
    pub fn new_mouse() -> (r: Self)
        ensures
            r.spec_hid_type() == HidType::Mouse,
            r.spec_state() == HidState::Default,
            r.spec_address() == 0,
            r.spec_configuration() == 0,
            r.spec_device_descriptor() == mouse_device_descriptor(),
            r.spec_reports() == Seq::<Vec<u8>>::empty(),
            r.spec_max_queue_depth() == 16,
    {
        Self {
            hid_type: HidType::Mouse,
            state: HidState::Default,
            address: 0,
            configuration: 0,
            device_descriptor: UsbDeviceDescriptor::mouse(),
            report_queue: VecDeque::new(),
            max_queue_depth: 16,
        }
    }

    /// Get the HID type.
    pub fn hid_type(&self) -> (r: HidType)
        ensures
            r == self.spec_hid_type(),
    {
        self.hid_type
    }

    /// Get the current state.
    pub fn state(&self) -> (r: HidState)
        ensures
            r == self.spec_state(),
    {
        self.state
    }

    /// Get the device address.
    pub fn address(&self) -> (r: u8)
        ensures
            r == self.spec_address(),
    {
        self.address
    }

    /// Get the device descriptor.
    pub fn device_descriptor(&self) -> (r: &UsbDeviceDescriptor)
        ensures
            r == self.spec_device_descriptor(),
    {
        &self.device_descriptor
    }

    /// Get the report descriptor for this device type.
    pub fn report_descriptor(&self) -> (r: Vec<u8>)
        ensures
            self.spec_hid_type() == HidType::Keyboard ==> r@ == keyboard_report_bytes(),
            self.spec_hid_type() == HidType::Mouse ==> r@ == mouse_report_bytes(),
    {
        match self.hid_type {
            HidType::Keyboard => keyboard_report_descriptor(),
            HidType::Mouse => mouse_report_descriptor(),
        }
    }

    /// Handle a USB control request of at least 8 setup bytes; shorter
    /// requests are rejected. Standard requests set the address (moving
    /// the device to Addressed), set the configuration (moving it to
    /// Configured when nonzero), and read descriptors; HID class requests
    /// and unknown requests are acknowledged with an empty answer.
    pub fn handle_control(&mut self, request: &[u8]) -> (r: Result<Vec<u8>, TransferError>)
        ensures
            request@.len() < 8 ==> r == Err::<Vec<u8>, TransferError>(TransferError::InvalidInput)
                && *final(self) == *old(self),
            request@.len() >= 8 ==> r is Ok && {
                let code = request@[1];
                let value = word_at(request@, 2);
                &&& (code == 0x05 ==> final(self).spec_address() == value as u8 && final(self).spec_state() == HidState::Addressed && r->Ok_0@.len() == 0)
                &&& (code == 0x09 ==> final(self).spec_configuration() == value as u8 && final(self).spec_state() == (if value as u8 != 0 {
                    HidState::Configured
                } else {
                    old(self).spec_state()
                }) && r->Ok_0@.len() == 0)
                &&& (code == 0x06 ==> *final(self) == *old(self) && {
                    let desc_type = (value >> 8) as u8;
                    &&& (desc_type == 0x01 ==> r->Ok_0@ == device_descriptor_bytes(
                        old(self).spec_device_descriptor(),
                    ))
                    &&& (desc_type == 0x02 ==> r->Ok_0@ == hid_config_bytes(
                        old(self).spec_hid_type(),
                    ))
                    &&& (desc_type == 0x22 ==> r->Ok_0@ == (if old(self).spec_hid_type()
                        == HidType::Keyboard {
                        keyboard_report_bytes()
                    } else {
                        mouse_report_bytes()
                    }))
                    &&& (desc_type == 0x03 ==> (if value as u8 == 0 {
                        r->Ok_0@ =~= seq![4u8, 3u8, 9u8, 4u8]
                    } else if 1 <= value as u8 <= 3 {
                        r->Ok_0@.len() > 2
                    } else {
                        r->Ok_0@.len() == 0
                    }))
                    &&& (!(desc_type == 0x01 || desc_type == 0x02 || desc_type == 0x22 || desc_type
                        == 0x03) ==> r->Ok_0@.len() == 0)
                })
                &&& (code == 0x0A ==> *final(self) == *old(self) && r->Ok_0@ =~= seq![0u8])
                &&& (!(code == 0x05 || code == 0x09 || code == 0x06 || code == 0x0A) ==> *final(self) == *old(self) && r->Ok_0@.len() == 0)
            },
    {
        if request.len() < 8 {
            return Err(TransferError::InvalidInput);
        }

        let request_code = request[1];
        let value: u16 = (request[2] as u16) | ((request[3] as u16) << 8);
        proof {
            let b2 = request@[2];
            let b3 = request@[3];
            assert((b2 as u16) | ((b3 as u16) << 8) == b2 + b3 * 0x100) by (bit_vector);
        }

        // Standard device requests
        if request_code == 0x05 {
            // SET_ADDRESS
            self.address = value as u8;
            self.state = HidState::Addressed;
            Ok(Vec::new())
        } else if request_code == 0x09 {
            // SET_CONFIGURATION
            self.configuration = value as u8;
            if self.configuration != 0 {
                self.state = HidState::Configured;
            }
            Ok(Vec::new())
        } else if request_code == 0x06 {
            // GET_DESCRIPTOR
            let descriptor_type = (value >> 8) as u8;
            proof {
                let v = value;
                assert((v >> 8) < 256) by (bit_vector);
            }
            if descriptor_type == 0x01 {
                // Device descriptor
                Ok(self.device_descriptor.encode())
            } else if descriptor_type == 0x02 {
                // Configuration descriptor
                Ok(self.get_configuration_descriptor())
            } else if descriptor_type == 0x22 {
                // HID report descriptor
                Ok(self.report_descriptor())
            } else if descriptor_type == 0x03 {
                // String descriptor
                Ok(self.get_string_descriptor(value as u8))
            } else {
                Ok(Vec::new())
            }
        } else if request_code == 0x0A {
            // GET_INTERFACE
            let mut v: Vec<u8> = Vec::new();
            v.push(0);
            proof {
                assert(v@ =~= seq![0u8]);
            }
            Ok(v)
        } else {
            // HID SET_REPORT, SET_IDLE, SET_INTERFACE and anything else
            // are acknowledged with an empty answer
            Ok(Vec::new())
        }
    }

    /// The full configuration descriptor: configuration, interface, HID
    /// class and endpoint descriptors concatenated (34 bytes), with the
    /// total length filled in.
    pub fn get_configuration_descriptor(&self) -> (r: Vec<u8>)
        ensures
            r@ == hid_config_bytes(self.spec_hid_type()),
            r@.len() == 34,
    {
        // Configuration descriptor; the total length covers all four parts
        let config = UsbConfigDescriptor {
            b_length: 9,
            b_descriptor_type: 0x02,
            w_total_length: 34,
            b_num_interfaces: 1,
            b_configuration_value: 1,
            i_configuration: 0,
            bm_attributes: 0x80,  // Bus powered
            b_max_power: 50,  // 100mA
        };

        // Interface descriptor
        let interface = UsbInterfaceDescriptor {
            b_length: 9,
            b_descriptor_type: 0x04,
            b_interface_number: 0,
            b_alternate_setting: 0,
            b_num_endpoints: 1,
            b_interface_class: USB_CLASS_HID,
            b_interface_sub_class: HID_SUBCLASS_BOOT,
            b_interface_protocol: match self.hid_type {
                HidType::Keyboard => HID_PROTOCOL_KEYBOARD,
                HidType::Mouse => HID_PROTOCOL_MOUSE,
            },
            i_interface: 0,
        };

        // HID class descriptor
        let report_len = match self.hid_type {
            HidType::Keyboard => 63u16,
            HidType::Mouse => 52u16,
        };

        // Endpoint descriptor (interrupt IN)
        let endpoint = UsbEndpointDescriptor {
            b_length: 7,
            b_descriptor_type: 0x05,
            b_endpoint_address: 0x81,  // EP1 IN
            bm_attributes: USB_ENDPOINT_XFER_INT,
            w_max_packet_size: match self.hid_type {
                HidType::Keyboard => 8,
                HidType::Mouse => 4,
            },
            b_interval: 10,  // 10ms polling interval
        };

        let mut buf = config.encode();
        let mut interface_bytes = interface.encode();
        // The 9-byte HID class descriptor: length, type, bcdHID 1.11,
        // country code, one subordinate descriptor of report type, and
        // the report descriptor length
        let mut hid_bytes: Vec<u8> = Vec::new();
        hid_bytes.push(0x09);
        hid_bytes.push(0x21);
        hid_bytes.push(0x11);
        hid_bytes.push(0x01);
        hid_bytes.push(0x00);
        hid_bytes.push(0x01);
        hid_bytes.push(0x22);
        hid_bytes.push(lo(report_len));
        hid_bytes.push(hi(report_len));
        let mut endpoint_bytes = endpoint.encode();
        buf.append(&mut interface_bytes);
        buf.append(&mut hid_bytes);
        buf.append(&mut endpoint_bytes);
        proof {
            assert(buf@ =~= hid_config_bytes(self.spec_hid_type()));
        }
        buf
    }

    /// A string descriptor: index 0 is the language table (US English);
    /// indexes 1 to 3 are the manufacturer, product and mouse-product
    /// strings in UTF-16; anything higher is empty.
    pub fn get_string_descriptor(&self, index: u8) -> (r: Vec<u8>)
        ensures
            index == 0 ==> r@ =~= seq![4u8, 3u8, 9u8, 4u8],
            1 <= index <= 3 ==> r@.len() > 2 && r@[1] == 3u8,
            index > 3 ==> r@.len() == 0,
    {
        if index == 0 {
            // Language ID descriptor: US English
            let mut v: Vec<u8> = Vec::new();
            v.push(4);
            v.push(0x03);
            v.push(0x09);
            v.push(0x04);
            return v;
        }
        let ascii: Vec<u8> = if index == 1 {
            // "Cloud Hypervisor"
            let name: [u8; 16] = [0x43, 0x6C, 0x6F, 0x75, 0x64, 0x20, 0x48, 0x79, 0x70, 0x65,
                0x72, 0x76, 0x69, 0x73, 0x6F, 0x72];
            vstd::slice::slice_to_vec(name.as_slice())
        } else if index == 2 {
            // "HID Device"
            let name: [u8; 10] = [0x48, 0x49, 0x44, 0x20, 0x44, 0x65, 0x76, 0x69, 0x63, 0x65];
            vstd::slice::slice_to_vec(name.as_slice())
        } else if index == 3 {
            // "HID Mouse"
            let name: [u8; 9] = [0x48, 0x49, 0x44, 0x20, 0x4D, 0x6F, 0x75, 0x73, 0x65];
            vstd::slice::slice_to_vec(name.as_slice())
        } else {
            return Vec::new();
        };

        // UTF-16LE string descriptor: length, type, then each character
        // as a little-endian 16-bit unit
        let mut buf: Vec<u8> = Vec::new();
        let total: usize = 2 + ascii.len() * 2;
        buf.push((total & 0xFF) as u8);
        buf.push(0x03);  // String descriptor type
        let mut i: usize = 0;
        while i < ascii.len()
            invariant
                i <= ascii@.len(),
                ascii@.len() < 20,
                buf@.len() == 2 + i * 2,
                buf@[1] == 3u8,
            decreases ascii@.len() - i,
        {
            buf.push(ascii[i]);
            buf.push(0);
            i = i + 1;
        }
        buf
    }

    /// Queue a HID report for transmission; when the queue is full the
    /// oldest report is dropped to make room.
    pub fn queue_report(&mut self, report: Vec<u8>) -> (r: bool)
        ensures
            r == true,
            old(self).spec_reports().len() >= old(self).spec_max_queue_depth() && old(self).spec_reports().len() > 0 ==> final(self).spec_reports() == old(self).spec_reports().skip(1).push(report),
            old(self).spec_reports().len() < old(self).spec_max_queue_depth() || old(self).spec_reports().len() == 0 ==> final(self).spec_reports() == old(self).spec_reports().push(report),
            final(self).spec_hid_type() == old(self).spec_hid_type(),
            final(self).spec_state() == old(self).spec_state(),
            final(self).spec_address() == old(self).spec_address(),
            final(self).spec_configuration() == old(self).spec_configuration(),
            final(self).spec_device_descriptor() == old(self).spec_device_descriptor(),
            final(self).spec_max_queue_depth() == old(self).spec_max_queue_depth(),
    {
        if self.report_queue.len() >= self.max_queue_depth {
            let dropped = self.report_queue.pop_front();
            proof {
                if old(self).report_queue@.len() > 0 {
                    assert(old(self).report_queue@.subrange(
                        1,
                        old(self).report_queue@.len() as int,
                    ) =~= old(self).report_queue@.skip(1));
                }
            }
        }
        self.report_queue.push_back(report);
        true
    }

    /// Take the next queued report, oldest first; nothing when the queue
    /// is empty.
    pub fn get_report(&mut self) -> (r: Option<Vec<u8>>)
        ensures
            old(self).spec_reports().len() == 0 ==> r is None && final(self).spec_reports() == old(self).spec_reports(),
            old(self).spec_reports().len() > 0 ==> r == Some(old(self).spec_reports()[0]) && final(self).spec_reports() == old(self).spec_reports().skip(1),
            final(self).spec_hid_type() == old(self).spec_hid_type(),
            final(self).spec_state() == old(self).spec_state(),
            final(self).spec_address() == old(self).spec_address(),
            final(self).spec_configuration() == old(self).spec_configuration(),
            final(self).spec_device_descriptor() == old(self).spec_device_descriptor(),
            final(self).spec_max_queue_depth() == old(self).spec_max_queue_depth(),
    {
        let r = self.report_queue.pop_front();
        proof {
            if old(self).report_queue@.len() > 0 {
                assert(old(self).report_queue@.subrange(1, old(self).report_queue@.len() as int)
                    =~= old(self).report_queue@.skip(1));
            }
        }
        r
    }

    /// Handle an endpoint data transfer. The interrupt IN endpoint hands
    /// out the oldest queued report, in queue order, refusing when none
    /// is pending; the OUT endpoint accepts and ignores output reports;
    /// any other endpoint is rejected. The data is never interpreted.
    pub fn handle_transfer(&mut self, ep: u8, data: &[u8]) -> (r: Result<Vec<u8>, TransferError>)
        ensures
            ep == 0x81 && old(self).spec_reports().len() > 0 ==> r is Ok && r->Ok_0 == old(
                self,
            ).spec_reports()[0] && final(self).spec_reports() == old(self).spec_reports().skip(1),
            ep == 0x81 && old(self).spec_reports().len() == 0 ==> r == Err::<Vec<u8>, TransferError>(
                TransferError::WouldBlock,
            ) && final(self).spec_reports() == old(self).spec_reports(),
            ep == 0x01 ==> r is Ok && r->Ok_0@.len() == 0 && final(self).spec_reports() == old(
                self,
            ).spec_reports(),
            !(ep == 0x81 || ep == 0x01) ==> r == Err::<Vec<u8>, TransferError>(
                TransferError::InvalidInput,
            ) && final(self).spec_reports() == old(self).spec_reports(),
            final(self).spec_hid_type() == old(self).spec_hid_type(),
            final(self).spec_state() == old(self).spec_state(),
            final(self).spec_address() == old(self).spec_address(),
            final(self).spec_configuration() == old(self).spec_configuration(),
            final(self).spec_device_descriptor() == old(self).spec_device_descriptor(),
            final(self).spec_max_queue_depth() == old(self).spec_max_queue_depth(),
    {
        if ep == 0x81 {
            // EP1 IN: return the next queued HID report
            match self.get_report() {
                Some(report) => Ok(report),
                None => Err(TransferError::WouldBlock),
            }
        } else if ep == 0x01 {
            // EP1 OUT: accept output reports (LED state and the like)
            Ok(Vec::new())
        } else {
            // Unknown endpoint
            Err(TransferError::InvalidInput)
        }
    }

    /// Reset the device: back to the Default state, unaddressed and
    /// unconfigured, with the report queue emptied; the device type and
    /// descriptors are untouched.
    pub fn reset(&mut self)
        ensures
            final(self).spec_state() == HidState::Default,
            final(self).spec_address() == 0,
            final(self).spec_configuration() == 0,
            final(self).spec_reports() == Seq::<Vec<u8>>::empty(),
            final(self).spec_hid_type() == old(self).spec_hid_type(),
            final(self).spec_device_descriptor() == old(self).spec_device_descriptor(),
            final(self).spec_max_queue_depth() == old(self).spec_max_queue_depth(),
    {
        self.state = HidState::Default;
        self.address = 0;
        self.configuration = 0;
        self.report_queue.clear();
    }

    /// Check whether reports are pending.
    pub fn has_pending_reports(&self) -> (r: bool)
        ensures
            r == (self.spec_reports().len() > 0),
    {
        self.report_queue.len() != 0
    }
}

impl UsbDevice for UsbHidDevice {
    /// The stored device descriptor, encoded.
    fn device_descriptor(&self) -> Vec<u8> {
        self.device_descriptor.encode()
    }

    /// The full configuration descriptor.
    fn configuration_descriptor(&self) -> Vec<u8> {
        self.get_configuration_descriptor()
    }

    /// Control transfers go through the HID control handling.
    fn handle_control(&mut self, request: &[u8]) -> Result<Vec<u8>, TransferError> {
        UsbHidDevice::handle_control(self, request)
    }

    /// Endpoint transfers go through the HID transfer handling.
    fn handle_transfer(&mut self, ep: u8, data: &[u8]) -> Result<Vec<u8>, TransferError> {
        UsbHidDevice::handle_transfer(self, ep, data)
    }

    /// USB HID devices report Full Speed.
    fn speed(&self) -> UsbSpeed {
        UsbSpeed::Full
    }

    /// Reset clears the state, the address, the configuration and the
    /// report queue.
    fn reset(&mut self) {
        UsbHidDevice::reset(self);
    }
}

} // verus!
