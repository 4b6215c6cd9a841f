//! Tests for the slot and endpoint contexts and the device slot.

use std::cell::Cell;
use std::rc::Rc;

use devices::device::{
    DeviceContext, EndpointContext, EndpointState, EndpointType, SlotContext, SlotState,
    TransferError, UsbDevice, UsbSpeed, XhciDeviceSlot,
};
use devices::rings::{CompletionCode, Trb, TrbType};

#[test]
fn test_device_context() {
    let ctx = DeviceContext::new(31);
    assert_eq!(ctx.endpoints.len(), 32);
}

#[test]
fn test_slot_context() {
    let mut slot = SlotContext::new();
    slot.set_state(SlotState::Addressed);
    slot.set_device_address(5);
    slot.set_speed(UsbSpeed::High);

    assert_eq!(slot.state(), SlotState::Addressed);
    assert_eq!(slot.device_address(), 5);
    assert_eq!(slot.speed(), UsbSpeed::High);
}

#[test]
fn test_endpoint_context() {
    let mut ep = EndpointContext::new();
    ep.set_state(EndpointState::Running);
    ep.set_ep_type(EndpointType::BulkIn);
    ep.set_tr_dequeue_ptr(0x10000);
    ep.set_dcs(true);

    assert_eq!(ep.state(), EndpointState::Running);
    assert_eq!(ep.ep_type(), EndpointType::BulkIn);
    assert_eq!(ep.tr_dequeue_ptr(), 0x10000);
    assert!(ep.dcs());
}

/// A probe device that counts resets and transfers.
struct ProbeDevice {
    resets: Rc<Cell<u32>>,
    transfers: Rc<Cell<u32>>,
}

impl UsbDevice for ProbeDevice {
    fn device_descriptor(&self) -> Vec<u8> {
        vec![18, 1]
    }
    fn configuration_descriptor(&self) -> Vec<u8> {
        vec![9, 2]
    }
    fn handle_control(&mut self, _request: &[u8]) -> Result<Vec<u8>, TransferError> {
        Ok(Vec::new())
    }
    fn handle_transfer(&mut self, _ep: u8, _data: &[u8]) -> Result<Vec<u8>, TransferError> {
        self.transfers.set(self.transfers.get() + 1);
        Ok(Vec::new())
    }
    fn speed(&self) -> UsbSpeed {
        UsbSpeed::Full
    }
    fn reset(&mut self) {
        self.resets.set(self.resets.get() + 1);
    }
}

fn command_trb(trb_type: TrbType, slot_id: u8) -> Trb {
    let mut trb = Trb::new(0, 0, (slot_id as u32) << 24);
    trb.set_trb_type(trb_type);
    trb
}

#[test]
fn test_slot_lifecycle() {
    // EnableSlot moves the slot to Default; AddressDevice to Addressed
    // with a nonzero address; ConfigureEndpoint to Configured;
    // ResetDevice back to Default with the device's reset observed
    // exactly once
    let resets = Rc::new(Cell::new(0));
    let transfers = Rc::new(Cell::new(0));
    let device = ProbeDevice { resets: resets.clone(), transfers: transfers.clone() };
    let mut slot = XhciDeviceSlot::new(1, device);
    assert_eq!(slot.state(), SlotState::Disabled);

    let (code, _) = slot.handle_command(&command_trb(TrbType::EnableSlot, 1), None);
    assert_eq!(code, CompletionCode::Success);
    assert_eq!(slot.state(), SlotState::Default);

    let (code, _) = slot.handle_command(&command_trb(TrbType::AddressDevice, 1), Some(1));
    assert_eq!(code, CompletionCode::Success);
    assert_eq!(slot.state(), SlotState::Addressed);
    assert!(slot.address() != 0);

    let (code, _) = slot.handle_command(&command_trb(TrbType::ConfigureEndpoint, 1), None);
    assert_eq!(code, CompletionCode::Success);
    assert_eq!(slot.state(), SlotState::Configured);

    let (code, _) = slot.handle_command(&command_trb(TrbType::ResetDevice, 1), None);
    assert_eq!(code, CompletionCode::Success);
    assert_eq!(slot.state(), SlotState::Default);
    assert_eq!(resets.get(), 1);
}

#[test]
fn test_slot_unknown_command_is_trb_error() {
    let device = ProbeDevice { resets: Rc::new(Cell::new(0)), transfers: Rc::new(Cell::new(0)) };
    let mut slot = XhciDeviceSlot::new(1, device);
    let (code, _) = slot.handle_command(&command_trb(TrbType::Normal, 1), None);
    assert_eq!(code, CompletionCode::TrbError);
}

#[test]
fn test_slot_address_device_without_address() {
    // With no address to assign, AddressDevice reports a resource error
    let device = ProbeDevice { resets: Rc::new(Cell::new(0)), transfers: Rc::new(Cell::new(0)) };
    let mut slot = XhciDeviceSlot::new(1, device);
    let (code, _) = slot.handle_command(&command_trb(TrbType::AddressDevice, 1), None);
    assert_eq!(code, CompletionCode::ResourceError);
    assert_eq!(slot.state(), SlotState::Disabled);
}

#[test]
fn test_slot_ring_ep_drains_and_reports() {
    let transfers = Rc::new(Cell::new(0));
    let device = ProbeDevice { resets: Rc::new(Cell::new(0)), transfers: transfers.clone() };
    let mut slot = XhciDeviceSlot::new(1, device);
    slot.init_ep_ring(1, 0x4000, 16);
    slot.queue_transfer(1, Trb::new(0xAA, 0, 0));
    slot.queue_transfer(1, Trb::new(0xBB, 0, 0));
    let events = slot.ring_ep(1);
    assert_eq!(events.len(), 2);
    assert_eq!(events[0].parameter, 0xAA);
    assert_eq!(events[1].parameter, 0xBB);
    assert_eq!(transfers.get(), 2);
    // The ring is drained: ringing again yields nothing
    let events = slot.ring_ep(1);
    assert!(events.is_empty());
}

#[test]
fn test_slot_ring_ep_out_of_range_is_noop() {
    let device = ProbeDevice { resets: Rc::new(Cell::new(0)), transfers: Rc::new(Cell::new(0)) };
    let mut slot = XhciDeviceSlot::new(1, device);
    let events = slot.ring_ep(200);
    assert!(events.is_empty());
}
