//! Tests for the xHCI register banks.

use devices::controller::XhciState;
use devices::regs::{
    CapabilityRegisters, DoorbellRegister, OperationalRegisters, PortRegister, RuntimeRegisters,
    PORTSC_CCS, PORTSC_CSC, USBCMD_HCRST, USBCMD_RS,
};

#[test]
fn regs_test_capability_registers() {
    let caps = CapabilityRegisters::new(32, 8, 8);
    assert_eq!(caps.hciversion(), 0x0100);
}

#[test]
fn test_operational_registers() {
    let mut op = OperationalRegisters::default();
    let mut state = XhciState::Halted;

    // A reset leaves the controller halted
    op.write(0x00, USBCMD_HCRST, &mut state);
    assert_eq!(state, XhciState::Halted);

    // Setting run/stop starts the controller
    op.write(0x00, USBCMD_RS, &mut state);
    assert_eq!(state, XhciState::Running);
}

#[test]
fn test_port_register() {
    let mut port = PortRegister::default();
    port.set_connected(true);

    let val = port.read(0);
    assert!(val & PORTSC_CCS != 0);
    assert!(val & PORTSC_CSC != 0);
}

#[test]
fn test_usbsts_write_one_to_clear() {
    let mut op = OperationalRegisters::default();
    let mut state = XhciState::Halted;
    // Run to set a known status, then write 1 to clear the event bit
    op.write(0x00, USBCMD_RS, &mut state);
    let sts = op.read(0x04);
    op.write(0x04, 0xFFFF_FFFF, &mut state);
    let cleared = op.read(0x04);
    // Only the write-1-to-clear bits fall; the rest stay
    assert_eq!(cleared, sts & !(0x8 | 0x10 | 0x400 | 0x1000));
}

#[test]
fn test_operational_unknown_offsets() {
    let mut op = OperationalRegisters::default();
    let mut state = XhciState::Halted;
    // Out-of-range reads return 0; out-of-range writes are no-ops
    assert_eq!(op.read(0x2C), 0);
    assert_eq!(op.read(0x400 + 0x10 * 100), 0);
    op.write(0x2C, 0xFFFF_FFFF, &mut state);
    op.write(0x400 + 0x10 * 100, 0xFFFF_FFFF, &mut state);
    assert_eq!(state, XhciState::Halted);
}

#[test]
fn test_crcr_low_byte_write() {
    let mut op = OperationalRegisters::default();
    let mut state = XhciState::Halted;
    op.write(0x10, 0x1234_56FF, &mut state);
    // Only the low byte of CRCR takes the written value
    assert_eq!(op.read(0x10), 0xFF);
}

#[test]
fn test_runtime_registers() {
    let mut rt = RuntimeRegisters::new();
    // MFINDEX is read-only
    rt.write(0x00, 0x1234);
    assert_eq!(rt.read(0x00), 0);
    // IMAN: the enable bit is plain read/write, the pending bit is not
    rt.write(0x20, 0x3);
    assert_eq!(rt.read(0x20), 0x2);
    // ERSTSZ stores plainly
    rt.write(0x28, 7);
    assert_eq!(rt.read(0x28), 7);
    // Out-of-range interrupters read 0
    assert_eq!(rt.read(0x20 + 0x20 * 100), 0);
}

#[test]
fn test_iman_pending_write_one_to_clear() {
    let mut rt = RuntimeRegisters::new();
    // Writing IE alone (pending bit 0) must not clear a pending
    // interrupt; writing 1 to the pending bit clears it
    rt.write(0x20, 0x2);
    assert_eq!(rt.read(0x20), 0x2);
    rt.write(0x20, 0x3);
    assert_eq!(rt.read(0x20), 0x2);
    rt.write(0x20, 0x0);
    assert_eq!(rt.read(0x20), 0x0);
}

#[test]
fn test_doorbell_register() {
    let mut db = DoorbellRegister::new(0);
    db.write(0x1234_5678);
    // Only the low byte (the target) is stored
    assert_eq!(db.read(), 0x78);
    assert_eq!(db.target, 0x78);
}
