//! xHCI device slots: the slot and endpoint contexts, their transfer
//! rings, and the device capability interface a slot wraps.

use vstd::prelude::*;

use crate::rings::{
    CompletionCode, Trb, TransferRing, TrbType, control_type_bits, trb_type_of_u32, trb_type_u32,
};

verus! {

/// USB device speeds.
#[derive(Debug, Clone, Copy, PartialEq, Eq, Structural)]
pub enum UsbSpeed {
    /// Full Speed (12 Mbps)
    Full,
    /// High Speed (480 Mbps)
    High,
    /// Super Speed (5 Gbps)
    Super,
}

/// Why a device rejected a control or data transfer.
#[derive(Debug, Clone, Copy, PartialEq, Eq, Structural)]
pub enum TransferError {
    /// The request was malformed or addressed an unknown endpoint
    InvalidInput,
    /// No data is available right now
    WouldBlock,
}

/// The capability interface of an emulated USB device, implemented by the
/// devices a slot can wrap. The core never interprets descriptor contents,
/// only routes bytes.
pub trait UsbDevice {
    /// The device descriptor bytes.
    fn device_descriptor(&self) -> Vec<u8>;

    /// The configuration descriptor bytes.
    fn configuration_descriptor(&self) -> Vec<u8>;

    /// Handle a control transfer.
    fn handle_control(&mut self, request: &[u8]) -> Result<Vec<u8>, TransferError>;

    /// Handle a data transfer on an endpoint.
    fn handle_transfer(&mut self, ep: u8, data: &[u8]) -> Result<Vec<u8>, TransferError>;

    /// The device speed.
    fn speed(&self) -> UsbSpeed;

    /// Reset the device.
    fn reset(&mut self);
}

// ============================================================================
// Slot Context
// ============================================================================

/// Slot states.
#[derive(Debug, Clone, Copy, PartialEq, Eq, Structural)]
pub enum SlotState {
    Disabled,
    Default,
    Addressed,
    Configured,
}

/// The wire encoding of a slot state.
pub open spec fn slot_state_u8(s: SlotState) -> u8 {
    match s {
        SlotState::Disabled => 0,
        SlotState::Default => 1,
        SlotState::Addressed => 2,
        SlotState::Configured => 3,
    }
}

/// The slot state a context's state field decodes to; unknown encodings
/// read as Disabled.
pub open spec fn slot_state_of_u8(bits: u8) -> SlotState {
    if bits & 0x0F == 0 {
        SlotState::Disabled
    } else if bits & 0x0F == 1 {
        SlotState::Default
    } else if bits & 0x0F == 2 {
        SlotState::Addressed
    } else if bits & 0x0F == 3 {
        SlotState::Configured
    } else {
        SlotState::Disabled
    }
}

/// The wire encoding of a device speed in the slot context.
pub open spec fn usb_speed_u8(s: UsbSpeed) -> u8 {
    match s {
        UsbSpeed::Full => 1,
        UsbSpeed::High => 2,
        UsbSpeed::Super => 3,
    }
}

/// The device speed a slot context's speed field decodes to; unknown
/// encodings read as Full.
pub open spec fn usb_speed_of_u8(bits: u8) -> UsbSpeed {
    if bits & 0x0F == 1 {
        UsbSpeed::Full
    } else if bits & 0x0F == 2 {
        UsbSpeed::High
    } else if bits & 0x0F == 3 {
        UsbSpeed::Super
    } else {
        UsbSpeed::Full
    }
}

/// Slot context: the per-device addressing and state record.
#[derive(Debug, Clone, Copy)]
pub struct SlotContext {
    /// Route string (DWORD 0)
    pub route_string: u32,
    /// USB device address
    pub usb_dev_addr: u8,
    /// Slot state (low nibble)
    pub slot_state: u8,
    /// Interrupter target
    pub interrupter_target: u16,
    /// USB device speed (low nibble)
    pub usb_dev_speed: u8,
    /// Number of ports (hubs)
    pub num_ports: u8,
    /// Hub TT time
    pub hub_tt_time: u8,
    /// TT think time
    pub tt_think_time: u8,
    /// Max exit latency
    pub max_exit_latency: u16,
    /// Target exit latency
    pub target_exit_latency: u8,
    /// Slot ID
    pub slot_id: u8,
}

impl Default for SlotContext {
    /// A default slot context is all zero: disabled, unaddressed.
    fn default() -> (r: Self)
        ensures
            r == SlotContext::zeroed(),
    {
        SlotContext {
            route_string: 0,
            usb_dev_addr: 0,
            slot_state: 0,
            interrupter_target: 0,
            usb_dev_speed: 0,
            num_ports: 0,
            hub_tt_time: 0,
            tt_think_time: 0,
            max_exit_latency: 0,
            target_exit_latency: 0,
            slot_id: 0,
        }
    }
}

impl SlotContext {
    /// The all-zero slot context.
    pub open spec fn zeroed() -> SlotContext {
        SlotContext {
            route_string: 0,
            usb_dev_addr: 0,
            slot_state: 0,
            interrupter_target: 0,
            usb_dev_speed: 0,
            num_ports: 0,
            hub_tt_time: 0,
            tt_think_time: 0,
            max_exit_latency: 0,
            target_exit_latency: 0,
            slot_id: 0,
        }
    }

    /// Create a new, zeroed slot context.
    pub fn new() -> (r: Self)
        ensures
            r == SlotContext::zeroed(),
    {
        Self::default()
    }

    /// Get the slot state.
    pub fn state(&self) -> (r: SlotState)
        ensures
            r == slot_state_of_u8(self.slot_state),
    {
        let bits = self.slot_state & 0x0F;
        if bits == 0 {
            SlotState::Disabled
        } else if bits == 1 {
            SlotState::Default
        } else if bits == 2 {
            SlotState::Addressed
        } else if bits == 3 {
            SlotState::Configured
        } else {
            SlotState::Disabled
        }
    }

    /// Set the slot state, preserving the high nibble of the state field.
    pub fn set_state(&mut self, state: SlotState)
        ensures
            final(self).slot_state == (old(self).slot_state & 0xF0) | slot_state_u8(state),
            slot_state_of_u8(final(self).slot_state) == state,
            *final(self) == (SlotContext { slot_state: final(self).slot_state, ..*old(self) }),
    {
        let v: u8 = match state {
            SlotState::Disabled => 0,
            SlotState::Default => 1,
            SlotState::Addressed => 2,
            SlotState::Configured => 3,
        };
        self.slot_state = (self.slot_state & 0xF0) | v;
        proof {
            let s = old(self).slot_state;
            assert(((s & 0xF0) | v) & 0x0F == v) by (bit_vector)
                requires
                    v < 16,
            ;
        }
    }

    /// Get the USB device address.
    pub fn device_address(&self) -> (r: u8)
        ensures
            r == self.usb_dev_addr,
    {
        self.usb_dev_addr
    }

    /// Set the USB device address.
    pub fn set_device_address(&mut self, addr: u8)
        ensures
            *final(self) == (SlotContext { usb_dev_addr: addr, ..*old(self) }),
    {
        self.usb_dev_addr = addr;
    }

    /// Get the USB device speed.
    pub fn speed(&self) -> (r: UsbSpeed)
        ensures
            r == usb_speed_of_u8(self.usb_dev_speed),
    {
        let bits = self.usb_dev_speed & 0x0F;
        if bits == 1 {
            UsbSpeed::Full
        } else if bits == 2 {
            UsbSpeed::High
        } else if bits == 3 {
            UsbSpeed::Super
        } else {
            UsbSpeed::Full
        }
    }

    /// Set the USB device speed, preserving the high nibble of the field.
    pub fn set_speed(&mut self, speed: UsbSpeed)
        ensures
            final(self).usb_dev_speed == (old(self).usb_dev_speed & 0xF0) | usb_speed_u8(speed),
            usb_speed_of_u8(final(self).usb_dev_speed) == speed,
            *final(self) == (SlotContext { usb_dev_speed: final(self).usb_dev_speed, ..*old(self) }),
    {
        let v: u8 = match speed {
            UsbSpeed::Full => 1,
            UsbSpeed::High => 2,
            UsbSpeed::Super => 3,
        };
        self.usb_dev_speed = (self.usb_dev_speed & 0xF0) | v;
        proof {
            let s = old(self).usb_dev_speed;
            assert(((s & 0xF0) | v) & 0x0F == v) by (bit_vector)
                requires
                    0 < v < 16,
            ;
        }
    }
}

// ============================================================================
// Endpoint Context
// ============================================================================

/// Endpoint states.
#[derive(Debug, Clone, Copy, PartialEq, Eq, Structural)]
pub enum EndpointState {
    Disabled,
    Running,
    Halted,
    Stopped,
    Error,
}

/// The wire encoding of an endpoint state.
pub open spec fn endpoint_state_u8(s: EndpointState) -> u8 {
    match s {
        EndpointState::Disabled => 0,
        EndpointState::Running => 1,
        EndpointState::Halted => 2,
        EndpointState::Stopped => 3,
        EndpointState::Error => 4,
    }
}

/// The endpoint state a context's state field decodes to; encodings above
/// Stopped read as Error.
pub open spec fn endpoint_state_of_u8(bits: u8) -> EndpointState {
    if bits & 0x07 == 0 {
        EndpointState::Disabled
    } else if bits & 0x07 == 1 {
        EndpointState::Running
    } else if bits & 0x07 == 2 {
        EndpointState::Halted
    } else if bits & 0x07 == 3 {
        EndpointState::Stopped
    } else {
        EndpointState::Error
    }
}

/// Endpoint types.
#[derive(Debug, Clone, Copy, PartialEq, Eq, Structural)]
pub enum EndpointType {
    Invalid,
    IsochOut,
    BulkOut,
    InterruptOut,
    Control,
    IsochIn,
    BulkIn,
    InterruptIn,
}

/// The wire encoding of an endpoint type.
pub open spec fn endpoint_type_u8(t: EndpointType) -> u8 {
    match t {
        EndpointType::Invalid => 0,
        EndpointType::IsochOut => 1,
        EndpointType::BulkOut => 2,
        EndpointType::InterruptOut => 3,
        EndpointType::Control => 4,
        EndpointType::IsochIn => 5,
        EndpointType::BulkIn => 6,
        EndpointType::InterruptIn => 7,
    }
}

/// The endpoint type a context's type field decodes to.
pub open spec fn endpoint_type_of_u8(bits: u8) -> EndpointType {
    if bits & 0x07 == 1 {
        EndpointType::IsochOut
    } else if bits & 0x07 == 2 {
        EndpointType::BulkOut
    } else if bits & 0x07 == 3 {
        EndpointType::InterruptOut
    } else if bits & 0x07 == 4 {
        EndpointType::Control
    } else if bits & 0x07 == 5 {
        EndpointType::IsochIn
    } else if bits & 0x07 == 6 {
        EndpointType::BulkIn
    } else if bits & 0x07 == 7 {
        EndpointType::InterruptIn
    } else {
        EndpointType::Invalid
    }
}

/// Endpoint context: the per-endpoint state, type and dequeue record.
#[derive(Debug, Clone, Copy)]
pub struct EndpointContext {
    /// Endpoint state (low three bits)
    pub ep_state: u8,
    /// Mult
    pub mult: u8,
    /// Max streams
    pub max_streams: u8,
    /// Linear stream array flag
    pub lsa: u8,
    /// Polling interval
    pub interval: u8,
    /// Max ESIT payload (high byte)
    pub max_esit_payload_hi: u8,
    /// Host initiate disable
    pub hid: u8,
    /// Max burst size
    pub max_burst_size: u8,
    /// Max packet size
    pub max_packet_size: u16,
    /// Max ESIT payload (low byte)
    pub max_esit_payload_lo: u8,
    /// Endpoint type (low three bits)
    pub ep_type: u8,
    /// Average TRB length
    pub average_trb_length: u16,
    /// Max ESIT payload
    pub max_esit_payload: u16,
    /// TR dequeue pointer
    pub tr_dequeue: u64,
    /// Dequeue cycle state (bit 0)
    pub dcs: u8,
    /// Max primary streams
    pub max_primary_streams: u8,
    /// Linear stream array
    pub linear_stream_array: u8,
    /// Pending type
    pub pending_type: u8,
}

impl Default for EndpointContext {
    /// A default endpoint context is all zero: disabled.
    fn default() -> (r: Self)
        ensures
            r == EndpointContext::zeroed(),
    {
        EndpointContext {
            ep_state: 0,
            mult: 0,
            max_streams: 0,
            lsa: 0,
            interval: 0,
            max_esit_payload_hi: 0,
            hid: 0,
            max_burst_size: 0,
            max_packet_size: 0,
            max_esit_payload_lo: 0,
            ep_type: 0,
            average_trb_length: 0,
            max_esit_payload: 0,
            tr_dequeue: 0,
            dcs: 0,
            max_primary_streams: 0,
            linear_stream_array: 0,
            pending_type: 0,
        }
    }
}

impl EndpointContext {
    /// The all-zero endpoint context.
    pub open spec fn zeroed() -> EndpointContext {
        EndpointContext {
            ep_state: 0,
            mult: 0,
            max_streams: 0,
            lsa: 0,
            interval: 0,
            max_esit_payload_hi: 0,
            hid: 0,
            max_burst_size: 0,
            max_packet_size: 0,
            max_esit_payload_lo: 0,
            ep_type: 0,
            average_trb_length: 0,
            max_esit_payload: 0,
            tr_dequeue: 0,
            dcs: 0,
            max_primary_streams: 0,
            linear_stream_array: 0,
            pending_type: 0,
        }
    }

    /// Create a new, zeroed endpoint context.
    pub fn new() -> (r: Self)
        ensures
            r == EndpointContext::zeroed(),
    {
        Self::default()
    }

    /// Get the endpoint state.
    pub fn state(&self) -> (r: EndpointState)
        ensures
            r == endpoint_state_of_u8(self.ep_state),
    {
        let bits = self.ep_state & 0x07;
        if bits == 0 {
            EndpointState::Disabled
        } else if bits == 1 {
            EndpointState::Running
        } else if bits == 2 {
            EndpointState::Halted
        } else if bits == 3 {
            EndpointState::Stopped
        } else {
            EndpointState::Error
        }
    }

    /// Set the endpoint state, preserving the upper bits of the field.
    pub fn set_state(&mut self, state: EndpointState)
        ensures
            final(self).ep_state == (old(self).ep_state & 0xF8) | endpoint_state_u8(state),
            endpoint_state_of_u8(final(self).ep_state) == state,
            *final(self) == (EndpointContext { ep_state: final(self).ep_state, ..*old(self) }),
    {
        let v: u8 = match state {
            EndpointState::Disabled => 0,
            EndpointState::Running => 1,
            EndpointState::Halted => 2,
            EndpointState::Stopped => 3,
            EndpointState::Error => 4,
        };
        self.ep_state = (self.ep_state & 0xF8) | v;
        proof {
            let s = old(self).ep_state;
            assert(((s & 0xF8) | v) & 0x07 == v) by (bit_vector)
                requires
                    v < 8,
            ;
        }
    }

    /// Get the endpoint type.
    pub fn ep_type(&self) -> (r: EndpointType)
        ensures
            r == endpoint_type_of_u8(self.ep_type),
    {
        let bits = self.ep_type & 0x07;
        if bits == 1 {
            EndpointType::IsochOut
        } else if bits == 2 {
            EndpointType::BulkOut
        } else if bits == 3 {
            EndpointType::InterruptOut
        } else if bits == 4 {
            EndpointType::Control
        } else if bits == 5 {
            EndpointType::IsochIn
        } else if bits == 6 {
            EndpointType::BulkIn
        } else if bits == 7 {
            EndpointType::InterruptIn
        } else {
            EndpointType::Invalid
        }
    }

    /// Set the endpoint type, preserving the upper bits of the field.
    pub fn set_ep_type(&mut self, ep_type: EndpointType)
        ensures
            final(self).ep_type == (old(self).ep_type & 0xF8) | endpoint_type_u8(ep_type),
            endpoint_type_of_u8(final(self).ep_type) == ep_type,
            *final(self) == (EndpointContext { ep_type: final(self).ep_type, ..*old(self) }),
    {
        let v: u8 = match ep_type {
            EndpointType::Invalid => 0,
            EndpointType::IsochOut => 1,
            EndpointType::BulkOut => 2,
            EndpointType::InterruptOut => 3,
            EndpointType::Control => 4,
            EndpointType::IsochIn => 5,
            EndpointType::BulkIn => 6,
            EndpointType::InterruptIn => 7,
        };
        self.ep_type = (self.ep_type & 0xF8) | v;
        proof {
            let s = old(self).ep_type;
            assert(((s & 0xF8) | v) & 0x07 == v) by (bit_vector)
                requires
                    v < 8,
            ;
        }
    }

    /// Get the TR dequeue pointer.
    pub fn tr_dequeue_ptr(&self) -> (r: u64)
        ensures
            r == self.tr_dequeue,
    {
        self.tr_dequeue
    }

    /// Set the TR dequeue pointer.
    pub fn set_tr_dequeue_ptr(&mut self, ptr: u64)
        ensures
            *final(self) == (EndpointContext { tr_dequeue: ptr, ..*old(self) }),
    {
        self.tr_dequeue = ptr;
    }

    /// Get the dequeue cycle state.
    pub fn dcs(&self) -> (r: bool)
        ensures
            r == (self.dcs & 1 != 0),
    {
        self.dcs & 1 != 0
    }

    /// Set the dequeue cycle state.
    pub fn set_dcs(&mut self, dcs: bool)
        ensures
            final(self).dcs == if dcs {
                1u8
            } else {
                0u8
            },
            *final(self) == (EndpointContext { dcs: final(self).dcs, ..*old(self) }),
    {
        self.dcs = if dcs {
            1
        } else {
            0
        };
    }
}

// ============================================================================
// Device Context
// ============================================================================

/// Device context: one slot context plus the endpoint contexts of a slot.
#[derive(Debug, Clone)]
pub struct DeviceContext {
    /// Slot context
    pub slot: SlotContext,
    /// Endpoint contexts (endpoint 0 plus the configurable endpoints)
    pub endpoints: Vec<EndpointContext>,
}

impl DeviceContext {
    /// Create a device context with `num_endpoints` configurable endpoints
    /// beyond endpoint 0, all zeroed.
    pub fn new(num_endpoints: usize) -> (r: Self)
        requires
            num_endpoints < usize::MAX,
        ensures
            r.slot == SlotContext::zeroed(),
            r.endpoints@.len() == num_endpoints + 1,
            forall|i: int|
                0 <= i < r.endpoints@.len() ==> r.endpoints@[i] == EndpointContext::zeroed(),
    {
        let mut endpoints: Vec<EndpointContext> = Vec::new();
        let mut i: usize = 0;
        while i < num_endpoints + 1
            invariant
                num_endpoints < usize::MAX,
                i <= num_endpoints + 1,
                endpoints@.len() == i as int,
                forall|j: int|
                    0 <= j < endpoints@.len() ==> endpoints@[j] == EndpointContext::zeroed(),
            decreases num_endpoints + 1 - i,
        {
            endpoints.push(EndpointContext::default());
            i = i + 1;
        }
        Self { slot: SlotContext::default(), endpoints }
    }

    /// Get the slot context.
    pub fn slot(&self) -> (r: &SlotContext)
        ensures
            r == self.slot,
    {
        &self.slot
    }

    /// Get an endpoint context; out-of-range ids yield nothing.
    pub fn endpoint(&self, ep_id: usize) -> (r: Option<&EndpointContext>)
        ensures
            (ep_id as int) < self.endpoints@.len() ==> r == Some(&self.endpoints@[ep_id as int]),
            (ep_id as int) >= self.endpoints@.len() ==> r is None,
    {
        if ep_id < self.endpoints.len() {
            Some(&self.endpoints[ep_id])
        } else {
            None
        }
    }

    /// The context's byte size with 32- or 64-byte entries.
    pub fn size(&self, context_64: bool) -> (r: usize)
        requires
            self.endpoints@.len() + 1 <= usize::MAX / 64,
        ensures
            r == (if context_64 {
                64int
            } else {
                32int
            }) * (1 + self.endpoints@.len()),
    {
        let ctx_size: usize = if context_64 {
            64
        } else {
            32
        };
        ctx_size * (1 + self.endpoints.len())
    }
}

/// The TransferEvents a drain yields for the pending TRBs `pending`: one
/// per TRB, in order, each carrying its TRB's parameter, typed
/// TransferEvent and cycle-stamped.
pub open spec fn transfer_events_for(events: Seq<Trb>, pending: Seq<Trb>) -> bool {
    &&& events.len() == pending.len()
    &&& forall|i: int|
        0 <= i < events.len() ==> (#[trigger] events[i]).parameter == pending[i].parameter
            && events[i].control == (32u32 << 10) | 1
}

// ============================================================================
// Device Slot
// ============================================================================

/// An xHCI device slot: one slot context, its endpoint contexts and
/// transfer rings, and the wrapped device capability. It owns USB-protocol
/// bookkeeping only, never device behavior.
pub struct XhciDeviceSlot<D: UsbDevice> {
    /// Slot ID
    slot_id: u8,
    /// Device context
    context: DeviceContext,
    /// The wrapped USB device
    device: Option<D>,
    /// Transfer rings, one per endpoint id 0..32
    transfer_rings: Vec<Option<TransferRing>>,
}

impl<D: UsbDevice> XhciDeviceSlot<D> {
    /// The slot id.
    pub closed spec fn spec_slot_id(&self) -> u8 {
        self.slot_id
    }

    /// The device context.
    pub closed spec fn spec_context(&self) -> DeviceContext {
        self.context
    }

    /// Whether the slot still wraps a device.
    pub closed spec fn has_device(&self) -> bool {
        self.device is Some
    }

    /// The transfer rings, one entry per endpoint id.
    pub closed spec fn spec_rings(&self) -> Seq<Option<TransferRing>> {
        self.transfer_rings@
    }

    /// The slot state recorded in the slot context.
    pub open spec fn spec_state(&self) -> SlotState {
        slot_state_of_u8(self.spec_context().slot.slot_state)
    }

    /// The device address recorded in the slot context.
    pub open spec fn spec_address(&self) -> u8 {
        self.spec_context().slot.usb_dev_addr
    }

    /// Create a new device slot wrapping a device: 32 endpoint entries
    /// (endpoint 0 plus 31 configurable), no rings yet, context zeroed.
    pub fn new(slot_id: u8, device: D) -> (r: Self)
        ensures
            r.spec_slot_id() == slot_id,
            r.spec_context().slot == SlotContext::zeroed(),
            r.spec_context().endpoints@.len() == 32,
            forall|i: int|
                0 <= i < 32 ==> r.spec_context().endpoints@[i] == EndpointContext::zeroed(),
            r.has_device(),
            r.spec_rings().len() == 32,
            forall|i: int| 0 <= i < 32 ==> r.spec_rings()[i] is None,
            r.spec_state() == SlotState::Disabled,
            r.spec_address() == 0,
    {
        // Endpoint 0 plus 30 endpoints, as a context of 31 entries beyond
        // endpoint 0
        let context = DeviceContext::new(31);
        let mut transfer_rings: Vec<Option<TransferRing>> = Vec::new();
        let mut i: usize = 0;
        while i < 32
            invariant
                i <= 32,
                transfer_rings@.len() == i as int,
                forall|j: int| 0 <= j < i ==> transfer_rings@[j] is None,
            decreases 32 - i,
        {
            transfer_rings.push(None);
            i = i + 1;
        }
        proof {
            assert(0u8 & 0x0F == 0) by (bit_vector);
        }
        Self { slot_id, context, device: Some(device), transfer_rings }
    }

    /// Create a device slot with no device yet, as an EnableSlot command
    /// does before a device is bound: 32 zeroed endpoint entries, no
    /// rings, state Disabled.
    pub fn new_empty(slot_id: u8) -> (r: Self)
        ensures
            r.spec_slot_id() == slot_id,
            r.spec_context().slot == SlotContext::zeroed(),
            r.spec_context().endpoints@.len() == 32,
            forall|i: int|
                0 <= i < 32 ==> r.spec_context().endpoints@[i] == EndpointContext::zeroed(),
            !r.has_device(),
            r.spec_rings().len() == 32,
            forall|i: int| 0 <= i < 32 ==> r.spec_rings()[i] is None,
            r.spec_state() == SlotState::Disabled,
            r.spec_address() == 0,
    {
        let context = DeviceContext::new(31);
        let mut transfer_rings: Vec<Option<TransferRing>> = Vec::new();
        let mut i: usize = 0;
        while i < 32
            invariant
                i <= 32,
                transfer_rings@.len() == i as int,
                forall|j: int| 0 <= j < i ==> transfer_rings@[j] is None,
            decreases 32 - i,
        {
            transfer_rings.push(None);
            i = i + 1;
        }
        proof {
            assert(0u8 & 0x0F == 0) by (bit_vector);
        }
        Self { slot_id, context, device: None, transfer_rings }
    }

    /// Get the slot id.
    pub fn slot_id(&self) -> (r: u8)
        ensures
            r == self.spec_slot_id(),
    {
        self.slot_id
    }

    /// Get the device context.
    pub fn context(&self) -> (r: &DeviceContext)
        ensures
            r == self.spec_context(),
    {
        &self.context
    }

    /// Set the slot state in the slot context.
    pub fn set_state(&mut self, state: SlotState)
        ensures
            final(self).spec_state() == state,
            final(self).spec_context().slot.slot_state == (old(self).spec_context().slot.slot_state
                & 0xF0) | slot_state_u8(state),
            final(self).spec_context().slot == (SlotContext {
                slot_state: final(self).spec_context().slot.slot_state,
                ..old(self).spec_context().slot
            }),
            final(self).spec_context().endpoints == old(self).spec_context().endpoints,
            final(self).spec_slot_id() == old(self).spec_slot_id(),
            final(self).has_device() == old(self).has_device(),
            final(self).spec_rings() == old(self).spec_rings(),
    {
        self.context.slot.set_state(state);
    }

    /// Get the slot state.
    pub fn state(&self) -> (r: SlotState)
        ensures
            r == self.spec_state(),
    {
        self.context.slot.state()
    }

    /// Set the device address in the slot context.
    pub fn set_address(&mut self, addr: u8)
        ensures
            final(self).spec_address() == addr,
            final(self).spec_context().slot == (SlotContext {
                usb_dev_addr: addr,
                ..old(self).spec_context().slot
            }),
            final(self).spec_context().endpoints == old(self).spec_context().endpoints,
            final(self).spec_slot_id() == old(self).spec_slot_id(),
            final(self).has_device() == old(self).has_device(),
            final(self).spec_rings() == old(self).spec_rings(),
    {
        self.context.slot.set_device_address(addr);
    }

    /// Get the device address.
    pub fn address(&self) -> (r: u8)
        ensures
            r == self.spec_address(),
    {
        self.context.slot.device_address()
    }

    /// Install and initialize an endpoint's transfer ring; an out-of-range
    /// endpoint id or a rejected (zero base or size) initialization is a
    /// no-op.
    pub fn init_ep_ring(&mut self, ep_id: u8, base: u64, size: usize)
        ensures
            final(self).spec_slot_id() == old(self).spec_slot_id(),
            final(self).spec_context() == old(self).spec_context(),
            final(self).has_device() == old(self).has_device(),
            final(self).spec_rings().len() == old(self).spec_rings().len(),
            ((ep_id as int) < old(self).spec_rings().len() && base != 0 && size != 0) ==> {
                &&& final(self).spec_rings()[ep_id as int] is Some
                &&& final(self).spec_rings()[ep_id as int]->Some_0.spec_ep_id() == ep_id
                &&& final(self).spec_rings()[ep_id as int]->Some_0.spec_base() == base
                &&& final(self).spec_rings()[ep_id as int]->Some_0.spec_size() == size
                &&& final(self).spec_rings()[ep_id as int]->Some_0.spec_enqueue() == base
                &&& final(self).spec_rings()[ep_id as int]->Some_0.spec_dequeue() == base
                &&& final(self).spec_rings()[ep_id as int]->Some_0.spec_pcs() == true
                &&& final(self).spec_rings()[ep_id as int]->Some_0.spec_ccs() == true
                &&& final(self).spec_rings()[ep_id as int]->Some_0.pending_trbs().len() == 0
                &&& forall|j: int|
                    0 <= j < old(self).spec_rings().len() && j != ep_id as int ==> final(self).spec_rings()[j] == old(self).spec_rings()[j]
            },
            !((ep_id as int) < old(self).spec_rings().len() && base != 0 && size != 0) ==> final(self).spec_rings() == old(self).spec_rings(),
    {
        if ep_id as usize >= self.transfer_rings.len() {
            return ;
        }
        if base == 0 || size == 0 {
            return ;
        }
        let mut ring = TransferRing::new(ep_id);
        let accepted = ring.init(base, size);
        let i = ep_id as usize;
        self.transfer_rings.remove(i);
        self.transfer_rings.insert(i, Some(ring));
        proof {
            assert(self.transfer_rings@.len() == old(self).transfer_rings@.len());
        }
    }

    /// Drain an endpoint's transfer ring: hand each drained TRB to the
    /// device's transfer handler and build one TransferEvent per TRB, in
    /// drain order, each carrying the TRB's parameter, a Success code when
    /// the device accepted the transfer and an Error code when it refused,
    /// and the residual length the device left. A missing device, an
    /// out-of-range endpoint id or an absent ring drains nothing.
    pub fn ring_ep(&mut self, ep_id: u8) -> (events: Vec<Trb>)
        ensures
            final(self).spec_slot_id() == old(self).spec_slot_id(),
            final(self).spec_context() == old(self).spec_context(),
            final(self).has_device() == old(self).has_device(),
            final(self).spec_rings().len() == old(self).spec_rings().len(),
            ((ep_id as int) < old(self).spec_rings().len() && old(self).spec_rings()[ep_id as int] is Some && old(self).has_device()) ==> {
                let ring = old(self).spec_rings()[ep_id as int]->Some_0;
                &&& transfer_events_for(events@, ring.pending_trbs())
                &&& final(self).spec_rings()[ep_id as int] is Some
                &&& final(self).spec_rings()[ep_id as int]->Some_0.pending_trbs().len() == 0
                &&& forall|j: int|
                    0 <= j < old(self).spec_rings().len() && j != ep_id as int ==> final(self).spec_rings()[j] == old(self).spec_rings()[j]
            },
            !((ep_id as int) < old(self).spec_rings().len() && old(self).spec_rings()[ep_id as int] is Some && old(self).has_device()) ==> events@.len() == 0
                && final(self).spec_rings() == old(self).spec_rings(),
    {
        let mut events: Vec<Trb> = Vec::new();
        if ep_id as usize >= self.transfer_rings.len() {
            return events;
        }
        if self.device.is_none() {
            return events;
        }
        let i = ep_id as usize;
        let slot = self.transfer_rings.remove(i);
        match slot {
            Some(mut ring) => {
                let ghost orig_pending = ring.pending_trbs();
                loop
                    invariant
                        self.device is Some,
                        i == ep_id as usize,
                        (i as int) < old(self).transfer_rings@.len(),
                        self.slot_id == old(self).slot_id,
                        self.context == old(self).context,
                        self.transfer_rings@ == old(self).transfer_rings@.remove(i as int),
                        orig_pending == old(self).spec_rings()[ep_id as int]->Some_0.pending_trbs(),
                        events@.len() + ring.pending_trbs().len() == orig_pending.len(),
                        ring.pending_trbs() == orig_pending.skip(events@.len() as int),
                        transfer_events_for(events@, orig_pending.take(events@.len() as int)),
                        ring.spec_ep_id() == old(self).spec_rings()[ep_id as int]->Some_0.spec_ep_id(),
                        ring.spec_base() == old(self).spec_rings()[ep_id as int]->Some_0.spec_base(),
                        ring.spec_size() == old(self).spec_rings()[ep_id as int]->Some_0.spec_size(),
                        ring.spec_enqueue() == old(self).spec_rings()[ep_id as int]->Some_0.spec_enqueue(),
                        ring.spec_dequeue() == old(self).spec_rings()[ep_id as int]->Some_0.spec_dequeue(),
                        ring.spec_pcs() == old(self).spec_rings()[ep_id as int]->Some_0.spec_pcs(),
                        ring.spec_ccs() == old(self).spec_rings()[ep_id as int]->Some_0.spec_ccs(),
                    ensures
                        ring.pending_trbs().len() == 0,
                    decreases ring.pending_trbs().len(),
                {
                    let trb = match ring.next() {
                        Some(t) => t,
                        None => { break ; },
                    };
                    let (code, length) = if let Some(dev) = &mut self.device {
                        match dev.handle_transfer(ep_id, &[]) {
                            Ok(data) => {
                                let residual: u32 = if data.len() <= u32::MAX as usize {
                                    data.len() as u32
                                } else {
                                    u32::MAX
                                };
                                (CompletionCode::Success, residual)
                            },
                            Err(_) => (CompletionCode::Error, 0u32),
                        }
                    } else {
                        (CompletionCode::Error, 0u32)
                    };
                    let event = ring.create_transfer_event(&trb, code, length);
                    proof {
                        assert(orig_pending.skip(events@.len() as int)[0] == orig_pending[events@.len() as int]);
                        assert(orig_pending.skip(events@.len() as int).skip(1) =~= orig_pending.skip(
                            events@.len() as int + 1,
                        ));
                        assert(orig_pending.take(events@.len() as int).push(
                            orig_pending[events@.len() as int],
                        ) =~= orig_pending.take(events@.len() as int + 1));
                    }
                    events.push(event);
                }
                proof {
                    assert(orig_pending.skip(orig_pending.len() as int) =~= Seq::<Trb>::empty());
                }
                self.transfer_rings.insert(i, Some(ring));
                proof {
                    assert(orig_pending.take(orig_pending.len() as int) =~= orig_pending);
                    assert(transfer_events_for(events@, orig_pending));
                    assert(self.transfer_rings@ =~= old(self).transfer_rings@.update(
                        i as int,
                        self.transfer_rings@[i as int],
                    ));
                    assert forall|j: int|
                        0 <= j < old(self).transfer_rings@.len() && j != i as int implies self.transfer_rings@[j]
                        == old(self).transfer_rings@[j] by {
                        assert(self.transfer_rings@[j] =~= old(self).transfer_rings@[j]);
                    }
                }
            },
            None => {
                self.transfer_rings.insert(i, None);
                proof {
                    assert(self.transfer_rings@ =~= old(self).transfer_rings@);
                }
            },
        }
        events
    }

    /// Queue a transfer TRB onto an endpoint's installed ring, as the
    /// guest's doorbell path does; a missing or out-of-range ring is a
    /// no-op.
    pub fn queue_transfer(&mut self, ep_id: u8, trb: Trb)
        ensures
            final(self).spec_slot_id() == old(self).spec_slot_id(),
            final(self).spec_context() == old(self).spec_context(),
            final(self).has_device() == old(self).has_device(),
            final(self).spec_rings().len() == old(self).spec_rings().len(),
            ((ep_id as int) < old(self).spec_rings().len() && old(self).spec_rings()[ep_id as int] is Some) ==> {
                &&& final(self).spec_rings()[ep_id as int] is Some
                &&& final(self).spec_rings()[ep_id as int]->Some_0.pending_trbs() == old(self).spec_rings()[ep_id as int]->Some_0.pending_trbs().push(trb)
                &&& final(self).spec_rings()[ep_id as int]->Some_0.spec_ep_id() == old(self).spec_rings()[ep_id as int]->Some_0.spec_ep_id()
                &&& final(self).spec_rings()[ep_id as int]->Some_0.spec_base() == old(self).spec_rings()[ep_id as int]->Some_0.spec_base()
                &&& final(self).spec_rings()[ep_id as int]->Some_0.spec_size() == old(self).spec_rings()[ep_id as int]->Some_0.spec_size()
                &&& forall|j: int|
                    0 <= j < old(self).spec_rings().len() && j != ep_id as int ==> final(self).spec_rings()[j] == old(self).spec_rings()[j]
            },
            !((ep_id as int) < old(self).spec_rings().len() && old(self).spec_rings()[ep_id as int] is Some) ==> final(self).spec_rings() == old(self).spec_rings(),
    {
        if ep_id as usize >= self.transfer_rings.len() {
            return ;
        }
        let i = ep_id as usize;
        let entry = self.transfer_rings.remove(i);
        match entry {
            Some(mut ring) => {
                ring.queue(trb);
                self.transfer_rings.insert(i, Some(ring));
                proof {
                    assert forall|j: int|
                        0 <= j < old(self).transfer_rings@.len() && j != i as int implies self.transfer_rings@[j]
                        == old(self).transfer_rings@[j] by {
                        assert(self.transfer_rings@[j] =~= old(self).transfer_rings@[j]);
                    }
                }
            },
            None => {
                self.transfer_rings.insert(i, None);
                proof {
                    assert(self.transfer_rings@ =~= old(self).transfer_rings@);
                }
            },
        }
    }

    /// Handle a command TRB addressed to this slot. `address` is the
    /// freshly allocated device address an AddressDevice command assigns.
    ///
    /// - EnableSlot moves the slot to Default.
    /// - AddressDevice assigns the address and moves the slot to Addressed;
    ///   with no address to assign it reports a ResourceError.
    /// - ConfigureEndpoint moves the slot to Configured.
    /// - EvaluateContext, ResetEndpoint and StopEndpoint acknowledge.
    /// - SetTrDequeue resynchronizes the named endpoint's transfer ring.
    /// - ResetDevice resets the wrapped device and moves the slot to
    ///   Default.
    /// - Unrecognized types yield a TrbError.
    pub fn handle_command(&mut self, trb: &Trb, address: Option<u8>) -> (r: (CompletionCode, u32))
        ensures
            r.1 == 0,
            final(self).spec_slot_id() == old(self).spec_slot_id(),
            final(self).has_device() == old(self).has_device(),
            final(self).spec_rings().len() == old(self).spec_rings().len(),
            final(self).spec_context().endpoints == old(self).spec_context().endpoints,
            ({
                let t = trb_type_of_u32(control_type_bits(trb.control));
                &&& t == Some(TrbType::EnableSlot) ==> r.0 == CompletionCode::Success && final(self).spec_state() == SlotState::Default && final(self).spec_address() == old(self).spec_address() && final(self).spec_rings() == old(self).spec_rings()
                &&& t == Some(TrbType::AddressDevice) ==> (match address {
                    Some(a) => r.0 == CompletionCode::Success && final(self).spec_state()
                        == SlotState::Addressed && final(self).spec_address() == a && final(self).spec_rings() == old(self).spec_rings(),
                    None => r.0 == CompletionCode::ResourceError && *final(self) == *old(self),
                })
                &&& t == Some(TrbType::ConfigureEndpoint) ==> r.0 == CompletionCode::Success
                    && final(self).spec_state() == SlotState::Configured && final(self).spec_address() == old(self).spec_address() && final(self).spec_rings() == old(self).spec_rings()
                &&& (t == Some(TrbType::EvaluateContext) || t == Some(TrbType::ResetEndpoint) || t
                    == Some(TrbType::StopEndpoint)) ==> r.0 == CompletionCode::Success && *final(self) == *old(self)
                &&& t == Some(TrbType::SetTrDequeue) ==> r.0 == CompletionCode::Success && final(self).spec_context() == old(self).spec_context() && spec_tr_dequeue_applied(
                    old(self).spec_rings(),
                    final(self).spec_rings(),
                    *trb,
                )
                &&& t == Some(TrbType::ResetDevice) ==> r.0 == CompletionCode::Success && final(self).spec_state() == SlotState::Default && final(self).spec_address() == old(self).spec_address() && final(self).spec_rings() == old(self).spec_rings()
                &&& !(t == Some(TrbType::EnableSlot) || t == Some(TrbType::AddressDevice) || t
                    == Some(TrbType::ConfigureEndpoint) || t == Some(TrbType::EvaluateContext) || t
                    == Some(TrbType::ResetEndpoint) || t == Some(TrbType::StopEndpoint) || t
                    == Some(TrbType::SetTrDequeue) || t == Some(TrbType::ResetDevice)) ==> r.0
                    == CompletionCode::TrbError && *final(self) == *old(self)
            }),
    {
        match trb.trb_type() {
            Some(TrbType::EnableSlot) => {
                // Enable slot command: the slot leaves Disabled
                self.set_state(SlotState::Default);
                (CompletionCode::Success, 0)
            },
            Some(TrbType::AddressDevice) => {
                // Address device command
                match address {
                    Some(a) => {
                        self.set_address(a);
                        self.set_state(SlotState::Addressed);
                        (CompletionCode::Success, 0)
                    },
                    None => (CompletionCode::ResourceError, 0),
                }
            },
            Some(TrbType::ConfigureEndpoint) => {
                // Configure endpoint command
                self.set_state(SlotState::Configured);
                (CompletionCode::Success, 0)
            },
            Some(TrbType::EvaluateContext) => (CompletionCode::Success, 0),
            Some(TrbType::ResetEndpoint) => (CompletionCode::Success, 0),
            Some(TrbType::StopEndpoint) => (CompletionCode::Success, 0),
            Some(TrbType::SetTrDequeue) => {
                // Set TR dequeue pointer command
                let ep_id = ((trb.control >> 16) & 0x1F) as usize;
                proof {
                    let c = trb.control;
                    assert((c >> 16) & 0x1F < 32) by (bit_vector);
                }
                if ep_id < self.transfer_rings.len() {
                    let slot = self.transfer_rings.remove(ep_id);
                    match slot {
                        Some(mut ring) => {
                            ring.set_dequeue_ptr(trb.parameter & !0xF, trb.parameter & 1 != 0);
                            self.transfer_rings.insert(ep_id, Some(ring));
                        },
                        None => {
                            self.transfer_rings.insert(ep_id, None);
                            proof {
                                assert(self.transfer_rings@ =~= old(self).transfer_rings@);
                            }
                        },
                    }
                }
                (CompletionCode::Success, 0)
            },
            Some(TrbType::ResetDevice) => {
                // Reset device command: reset the wrapped device too
                if let Some(dev) = &mut self.device {
                    dev.reset();
                }
                self.set_state(SlotState::Default);
                (CompletionCode::Success, 0)
            },
            _ => (CompletionCode::TrbError, 0),
        }
    }
}

/// How a SetTrDequeue command changes the transfer rings: the endpoint
/// named in control bits 16..21 has its ring's dequeue pointer set to the
/// command parameter with its low four bits cleared, and its consumer
/// cycle state to parameter bit 0; every other ring, and a missing or
/// out-of-range ring, is untouched.
pub open spec fn spec_tr_dequeue_applied(
    pre: Seq<Option<TransferRing>>,
    post: Seq<Option<TransferRing>>,
    trb: Trb,
) -> bool {
    let ep = ((trb.control >> 16) & 0x1F) as int;
    &&& post.len() == pre.len()
    &&& forall|j: int| 0 <= j < pre.len() && j != ep ==> post[j] == pre[j]
    &&& (ep < pre.len() && pre[ep] is Some) ==> {
        let r0 = pre[ep]->Some_0;
        let r1 = post[ep]->Some_0;
        &&& post[ep] is Some
        &&& r1.spec_dequeue() == trb.parameter & !0xF
        &&& r1.spec_ccs() == (trb.parameter & 1 != 0)
        &&& r1.spec_ep_id() == r0.spec_ep_id()
        &&& r1.spec_base() == r0.spec_base()
        &&& r1.spec_size() == r0.spec_size()
        &&& r1.spec_enqueue() == r0.spec_enqueue()
        &&& r1.spec_pcs() == r0.spec_pcs()
        &&& r1.pending_trbs() == r0.pending_trbs()
    }
    &&& (ep < pre.len() && pre[ep] is None) ==> post[ep] is None
}

} // verus!
