//! Tests for the xHCI controller: slots, addresses, command processing
//! and end-to-end transfers.

use std::cell::Cell;
use std::rc::Rc;

use devices::controller::{XhciController, XhciError, XhciState, XHCI_MAX_PORTS, XHCI_VERSION};
use devices::device::{SlotState, TransferError, UsbDevice, UsbSpeed};
use devices::regs::USBCMD_RS;
use devices::rings::{Trb, TrbType};

/// A probe device that counts resets and transfers.
struct ProbeDevice {
    resets: Rc<Cell<u32>>,
    transfers: Rc<Cell<u32>>,
}

impl ProbeDevice {
    fn new() -> (Self, Rc<Cell<u32>>, Rc<Cell<u32>>) {
        let resets = Rc::new(Cell::new(0));
        let transfers = Rc::new(Cell::new(0));
        (ProbeDevice { resets: resets.clone(), transfers: transfers.clone() }, resets, transfers)
    }
}

impl UsbDevice for ProbeDevice {
    fn device_descriptor(&self) -> Vec<u8> {
        vec![18, 1]
    }
    fn configuration_descriptor(&self) -> Vec<u8> {
        vec![9, 2]
    }
    fn handle_control(&mut self, _request: &[u8]) -> Result<Vec<u8>, TransferError> {
        Ok(Vec::new())
    }
    fn handle_transfer(&mut self, _ep: u8, _data: &[u8]) -> Result<Vec<u8>, TransferError> {
        self.transfers.set(self.transfers.get() + 1);
        Ok(Vec::new())
    }
    fn speed(&self) -> UsbSpeed {
        UsbSpeed::Full
    }
    fn reset(&mut self) {
        self.resets.set(self.resets.get() + 1);
    }
}

fn command_trb(trb_type: TrbType, slot_id: u8, parameter: u64) -> Trb {
    let mut trb = Trb::new(parameter, 0, (slot_id as u32) << 24);
    trb.set_trb_type(trb_type);
    trb
}

#[test]
fn test_controller_creation() {
    let ctrl: XhciController<ProbeDevice> = XhciController::new();
    assert_eq!(ctrl.state(), XhciState::Halted);
    assert_eq!(ctrl.num_ports(), XHCI_MAX_PORTS);
}

#[test]
fn mod_test_capability_registers() {
    let ctrl: XhciController<ProbeDevice> = XhciController::new();
    let caps = ctrl.capability_registers();

    assert!(caps.hciversion() == XHCI_VERSION);
}

#[test]
fn test_address_allocation() {
    let mut ctrl: XhciController<ProbeDevice> = XhciController::new();

    // The first allocation yields address 1
    let addr1 = ctrl.allocate_address();
    assert_eq!(addr1, Some(1));

    // The second allocation yields address 2
    let addr2 = ctrl.allocate_address();
    assert_eq!(addr2, Some(2));

    // Free address 1
    ctrl.free_address(1);

    // The next allocation reuses address 1
    let addr3 = ctrl.allocate_address();
    assert_eq!(addr3, Some(1));

    // The next allocation yields 3, as 2 is still in use
    let addr4 = ctrl.allocate_address();
    assert_eq!(addr4, Some(3));
}

#[test]
fn test_address_allocation_all() {
    let mut ctrl: XhciController<ProbeDevice> = XhciController::new();

    // Allocate all 127 addresses
    for expected in 1..=127 {
        let addr = ctrl.allocate_address();
        assert_eq!(addr, Some(expected), "Failed at address {}", expected);
    }

    // The next allocation fails
    let addr = ctrl.allocate_address();
    assert_eq!(addr, None);

    // Free address 50
    ctrl.free_address(50);

    // Now address 50 comes back
    let addr = ctrl.allocate_address();
    assert_eq!(addr, Some(50));
}

#[test]
fn test_free_address_invalid() {
    let mut ctrl: XhciController<ProbeDevice> = XhciController::new();

    // Freeing address 0 is ignored, without a panic
    ctrl.free_address(0);

    // Freeing address 128 is ignored, without a panic
    ctrl.free_address(128);

    // The first allocation is still 1
    let addr = ctrl.allocate_address();
    assert_eq!(addr, Some(1));
}

#[test]
fn test_attach_detach_device() {
    let mut ctrl: XhciController<ProbeDevice> = XhciController::new();
    let (dev, _, _) = ProbeDevice::new();
    // An out-of-range port is rejected
    let (dev2, _, _) = ProbeDevice::new();
    assert_eq!(ctrl.attach_device(200, dev2), Err(XhciError::InvalidPort));
    // The lowest free slot index is 1
    let slot_id = ctrl.attach_device(0, dev).unwrap();
    assert_eq!(slot_id, 1);
    // A second device takes slot 2
    let (dev3, _, _) = ProbeDevice::new();
    assert_eq!(ctrl.attach_device(1, dev3).unwrap(), 2);
    // Detaching clears the slot; slot 0 is rejected
    assert_eq!(ctrl.detach_device(0), Err(XhciError::InvalidSlot));
    assert!(ctrl.detach_device(1).is_ok());
    assert!(ctrl.slot_state(1).is_none());
}

#[test]
fn test_commands_stay_queued_while_halted() {
    // Commands issued while the controller is halted remain queued
    let mut ctrl: XhciController<ProbeDevice> = XhciController::new();
    ctrl.queue_command(command_trb(TrbType::Noop, 0, 0x11));
    ctrl.ring_doorbell(0, 0);
    assert_eq!(ctrl.pending_event_count(0), 0);
    // Start the controller and ring again: now it drains
    ctrl.write_operational(0x00, USBCMD_RS);
    assert_eq!(ctrl.state(), XhciState::Running);
    ctrl.ring_doorbell(0, 0);
    assert_eq!(ctrl.pending_event_count(0), 1);
}

#[test]
fn test_command_event_correlation() {
    // Three commands yield exactly three CommandCompletion events on
    // interrupter 0, in order, each carrying its command's parameter
    let mut ctrl: XhciController<ProbeDevice> = XhciController::new();
    ctrl.write_operational(0x00, USBCMD_RS);
    ctrl.queue_command(command_trb(TrbType::Noop, 0, 0xC1));
    ctrl.queue_command(command_trb(TrbType::Noop, 0, 0xC2));
    ctrl.queue_command(command_trb(TrbType::Noop, 0, 0xC3));
    ctrl.ring_doorbell(0, 0);
    assert_eq!(ctrl.pending_event_count(0), 3);
    let e1 = ctrl.pop_event(0).unwrap();
    let e2 = ctrl.pop_event(0).unwrap();
    let e3 = ctrl.pop_event(0).unwrap();
    assert!(ctrl.pop_event(0).is_none());
    assert_eq!(e1.trb_type(), Some(TrbType::CommandCompletion));
    assert_eq!(e2.trb_type(), Some(TrbType::CommandCompletion));
    assert_eq!(e3.trb_type(), Some(TrbType::CommandCompletion));
    assert_eq!(e1.parameter, 0xC1);
    assert_eq!(e2.parameter, 0xC2);
    assert_eq!(e3.parameter, 0xC3);
    // Each completion reports success
    assert_eq!(e1.completion_code(), 1);
    assert_eq!(e2.completion_code(), 1);
    assert_eq!(e3.completion_code(), 1);
}

#[test]
fn test_enable_slot_creates_default_slot() {
    let mut ctrl: XhciController<ProbeDevice> = XhciController::new();
    ctrl.write_operational(0x00, USBCMD_RS);
    ctrl.queue_command(command_trb(TrbType::EnableSlot, 0, 0));
    ctrl.ring_doorbell(0, 0);
    let ev = ctrl.pop_event(0).unwrap();
    assert_eq!(ev.completion_code(), 1);
    // The slot id reported in the status word is the lowest free index,
    // and that slot now exists in state Default with no address yet
    assert_eq!(ev.status & 0xFF, 1);
    assert_eq!(ctrl.slot_state(1), Some(SlotState::Default));
    assert_eq!(ctrl.slot_address(1), Some(0));
    // A second enable takes the next index
    ctrl.queue_command(command_trb(TrbType::EnableSlot, 0, 0));
    ctrl.ring_doorbell(0, 0);
    let ev = ctrl.pop_event(0).unwrap();
    assert_eq!(ev.status & 0xFF, 2);
    assert_eq!(ctrl.slot_state(2), Some(SlotState::Default));
}

#[test]
fn test_unknown_command_reports_trb_error() {
    let mut ctrl: XhciController<ProbeDevice> = XhciController::new();
    ctrl.write_operational(0x00, USBCMD_RS);
    ctrl.queue_command(command_trb(TrbType::Normal, 0, 0));
    ctrl.ring_doorbell(0, 0);
    let ev = ctrl.pop_event(0).unwrap();
    // TrbError is completion code 5
    assert_eq!(ev.completion_code(), 5);
}

#[test]
fn test_end_to_end_transfer() {
    // Attach a device at port 0, address it through the command ring,
    // then ring its endpoint doorbell with one queued Normal TRB: exactly
    // one TransferEvent is posted and the device's transfer handler runs
    // once
    let mut ctrl: XhciController<ProbeDevice> = XhciController::new();
    let (dev, _resets, transfers) = ProbeDevice::new();
    let slot_id = ctrl.attach_device(0, dev).unwrap();
    assert_eq!(slot_id, 1);

    ctrl.write_operational(0x00, USBCMD_RS);
    ctrl.queue_command(command_trb(TrbType::AddressDevice, 1, 0xAD));
    ctrl.ring_doorbell(0, 0);
    let ev = ctrl.pop_event(0).unwrap();
    assert_eq!(ev.completion_code(), 1);
    assert_eq!(ctrl.slot_state(1), Some(SlotState::Addressed));
    assert_eq!(ctrl.slot_address(1), Some(1));

    // Install a transfer ring on endpoint 1 and queue one Normal TRB
    ctrl.init_slot_ep_ring(1, 1, 0x6000, 16);
    let mut normal = Trb::new(0x1234, 0, 0);
    normal.set_trb_type(TrbType::Normal);
    ctrl.queue_transfer(1, 1, normal);

    ctrl.ring_doorbell(1, 1);
    assert_eq!(ctrl.pending_event_count(0), 1);
    let te = ctrl.pop_event(0).unwrap();
    assert_eq!(te.trb_type(), Some(TrbType::TransferEvent));
    assert_eq!(te.parameter, 0x1234);
    assert_eq!(transfers.get(), 1);
}

#[test]
fn test_reset_clears_command_state() {
    let mut ctrl: XhciController<ProbeDevice> = XhciController::new();
    ctrl.write_operational(0x10, 0xFF);
    ctrl.write_operational(0x00, 0x2);
    // A host controller reset clears CRCR and DCBAAP and halts
    assert_eq!(ctrl.read_operational(0x10), 0);
    assert_eq!(ctrl.read_operational(0x30), 0);
    assert_eq!(ctrl.state(), XhciState::Halted);
}
