//! The xHCI host controller: owns the register banks, the command ring,
//! the event rings and the device slots, and routes register and doorbell
//! writes into ring draining and command dispatch.

use vstd::prelude::*;

use crate::device::{SlotState, UsbDevice, XhciDeviceSlot, spec_tr_dequeue_applied, transfer_events_for};
use crate::regs::{
    CapabilityRegisters, DoorbellRegister, OperationalRegisters, RuntimeRegisters,
    spec_op_read, spec_op_written_ports, spec_op_written_usbsts, spec_portsc_connected,
    spec_rt_read, spec_rt_written, spec_usbcmd_state, spec_usbcmd_written,
};
use crate::rings::{
    CommandRing, CommandRingState, CompletionCode, EventRing, Trb, TrbType, completion_code_u32,
    control_type_bits, trb_type_of_u32, trb_type_u32,
};

verus! {

/// xHCI interface version (xHCI 1.0).
pub const XHCI_VERSION: u16 = 0x0100;

/// Maximum number of device slots.
pub const XHCI_MAX_SLOTS: u8 = 32;

/// Maximum number of interrupters.
pub const XHCI_MAX_INTRS: u8 = 8;

/// Maximum number of ports.
pub const XHCI_MAX_PORTS: u8 = 8;

/// xHCI controller operational state.
#[derive(Clone, Copy, Debug, PartialEq, Eq, Structural)]
pub enum XhciState {
    /// Controller is halted
    Halted,
    /// Controller is running
    Running,
    /// Controller is in error state
    Error,
    /// Controller is being reset
    Reset,
}

/// xHCI controller errors.
#[derive(Debug, Clone, PartialEq, Eq, Structural)]
pub enum XhciError {
    /// Invalid port number
    InvalidPort,
    /// Invalid slot ID
    InvalidSlot,
    /// No free device slots
    NoFreeSlots,
    /// Device not found
    DeviceNotFound,
    /// Transfer failed
    TransferFailed,
    /// Command failed
    CommandFailed,
}

/// The description an error reads as.
pub open spec fn spec_xhci_error_message(e: XhciError) -> Seq<char> {
    match e {
        XhciError::InvalidPort => "Invalid port number"@,
        XhciError::InvalidSlot => "Invalid slot ID"@,
        XhciError::NoFreeSlots => "No free device slots"@,
        XhciError::DeviceNotFound => "Device not found"@,
        XhciError::TransferFailed => "Transfer failed"@,
        XhciError::CommandFailed => "Command failed"@,
    }
}

impl XhciError {
    /// A short description of the error.
    pub fn message(&self) -> (r: &'static str)
        ensures
            r@ == spec_xhci_error_message(*self),
    {
        match self {
            XhciError::InvalidPort => "Invalid port number",
            XhciError::InvalidSlot => "Invalid slot ID",
            XhciError::NoFreeSlots => "No free device slots",
            XhciError::DeviceNotFound => "Device not found",
            XhciError::TransferFailed => "Transfer failed",
            XhciError::CommandFailed => "Command failed",
        }
    }
}

/// The lowest index at or above `i` that is still free in an allocation
/// table, searching up to index 128; `None` when every one is taken.
pub open spec fn spec_first_free(table: Seq<bool>, i: int) -> Option<int>
    decreases 128 - i,
{
    if i < 0 || i >= 128 || i >= table.len() {
        None
    } else if !table[i] {
        Some(i)
    } else {
        spec_first_free(table, i + 1)
    }
}

/// If every entry from `i` up to `k` is taken and entry `k` is free, the
/// search from `i` finds `k`.
proof fn lemma_first_free_found(table: Seq<bool>, i: int, k: int)
    requires
        0 <= i <= k < 128,
        k < table.len(),
        forall|j: int| i <= j < k ==> table[j],
        !table[k],
    ensures
        spec_first_free(table, i) == Some(k),
    decreases k - i,
{
    if i < k {
        lemma_first_free_found(table, i + 1, k);
    }
}

/// A found free address index lies in range and its entry is free.
proof fn lemma_first_free_in_range(table: Seq<bool>, i: int)
    requires
        spec_first_free(table, i) is Some,
    ensures
        i <= spec_first_free(table, i)->Some_0 < 128,
        spec_first_free(table, i)->Some_0 < table.len(),
        !table[spec_first_free(table, i)->Some_0],
    decreases 128 - i,
{
    if !(i < 0 || i >= 128 || i >= table.len()) && table[i] {
        lemma_first_free_in_range(table, i + 1);
    }
}

/// If every entry from `i` on is taken, the search from `i` finds nothing.
proof fn lemma_first_free_none(table: Seq<bool>, i: int)
    requires
        0 <= i,
        forall|j: int| i <= j < 128 && j < table.len() ==> table[j],
    ensures
        spec_first_free(table, i) is None,
    decreases 128 - i,
{
    if i < 128 && i < table.len() {
        lemma_first_free_none(table, i + 1);
    }
}

/// The lowest slot index at or above `i` (with `i >= 1`; index 0 is
/// reserved) whose entry is empty; `None` when every slot is occupied.
pub open spec fn spec_free_slot<D: UsbDevice>(
    slots: Seq<Option<XhciDeviceSlot<D>>>,
    i: int,
) -> Option<int>
    decreases slots.len() - i,
{
    if i < 1 || i >= slots.len() {
        None
    } else if slots[i] is None {
        Some(i)
    } else {
        spec_free_slot(slots, i + 1)
    }
}

/// If every slot from `i` up to `k` is occupied and slot `k` is empty, the
/// search from `i` finds `k`.
proof fn lemma_free_slot_found<D: UsbDevice>(slots: Seq<Option<XhciDeviceSlot<D>>>, i: int, k: int)
    requires
        1 <= i <= k < slots.len(),
        forall|j: int| i <= j < k ==> slots[j] is Some,
        slots[k] is None,
    ensures
        spec_free_slot(slots, i) == Some(k),
    decreases k - i,
{
    if i < k {
        lemma_free_slot_found(slots, i + 1, k);
    }
}

/// A found free slot index lies in range and its entry is empty.
proof fn lemma_free_slot_in_range<D: UsbDevice>(slots: Seq<Option<XhciDeviceSlot<D>>>, i: int)
    requires
        spec_free_slot(slots, i) is Some,
    ensures
        1 <= spec_free_slot(slots, i)->Some_0 < slots.len(),
        slots[spec_free_slot(slots, i)->Some_0] is None,
    decreases slots.len() - i,
{
    if !(i < 1 || i >= slots.len()) && !(slots[i] is None) {
        lemma_free_slot_in_range(slots, i + 1);
    }
}

/// If every slot from `i` on is occupied, the search from `i` finds
/// nothing.
proof fn lemma_free_slot_none<D: UsbDevice>(slots: Seq<Option<XhciDeviceSlot<D>>>, i: int)
    requires
        1 <= i,
        forall|j: int| i <= j < slots.len() ==> slots[j] is Some,
    ensures
        spec_free_slot(slots, i) is None,
    decreases slots.len() - i,
{
    if i < slots.len() {
        lemma_free_slot_none(slots, i + 1);
    }
}

/// An event sequence extended with one CommandCompletion per command, in
/// command order, each carrying its command's parameter.
pub open spec fn events_extended_with_completions(
    pre: Seq<Trb>,
    post: Seq<Trb>,
    cmds: Seq<Trb>,
) -> bool {
    &&& post.len() == pre.len() + cmds.len()
    &&& forall|i: int| 0 <= i < pre.len() ==> post[i] == pre[i]
    &&& forall|i: int|
        0 <= i < cmds.len() ==> (#[trigger] post[pre.len() + i]).parameter == cmds[i].parameter
            && control_type_bits(post[pre.len() + i].control) == trb_type_u32(
            TrbType::CommandCompletion,
        )
}

/// An event sequence extended with one TransferEvent per drained transfer
/// TRB, in drain order, each carrying its TRB's parameter.
pub open spec fn events_extended_with_transfers(
    pre: Seq<Trb>,
    post: Seq<Trb>,
    trbs: Seq<Trb>,
) -> bool {
    &&& post.len() == pre.len() + trbs.len()
    &&& forall|i: int| 0 <= i < pre.len() ==> post[i] == pre[i]
    &&& forall|i: int|
        0 <= i < trbs.len() ==> (#[trigger] post[pre.len() + i]).parameter == trbs[i].parameter
            && control_type_bits(post[pre.len() + i].control) == trb_type_u32(
            TrbType::TransferEvent,
        )
}

/// xHCI host controller: owns the register banks, the command ring, the
/// event rings, the doorbells, up to 32 device slots (index 0 reserved)
/// and the device address allocation table.
pub struct XhciController<D: UsbDevice> {
    /// Controller state
    state: XhciState,
    /// Capability registers
    cap_regs: CapabilityRegisters,
    /// Operational registers
    op_regs: OperationalRegisters,
    /// Runtime registers
    rt_regs: RuntimeRegisters,
    /// Doorbell registers, one per slot index
    doorbells: Vec<DoorbellRegister>,
    /// Device slots; index 0 is reserved and never occupied
    slots: Vec<Option<XhciDeviceSlot<D>>>,
    /// Command ring
    cmd_ring: CommandRing,
    /// Event rings, one per interrupter
    event_rings: Vec<EventRing>,
    /// USB device address allocation table; entry 0 is permanently
    /// reserved, entries 1..=127 are marked exactly while allocated
    address_table: Vec<bool>,
}

impl<D: UsbDevice> XhciController<D> {
    /// The controller state.
    pub closed spec fn spec_state(&self) -> XhciState {
        self.state
    }

    /// The capability registers.
    pub closed spec fn spec_cap_regs(&self) -> CapabilityRegisters {
        self.cap_regs
    }

    /// The operational registers.
    pub closed spec fn spec_op_regs(&self) -> OperationalRegisters {
        self.op_regs
    }

    /// The runtime registers.
    pub closed spec fn spec_rt_regs(&self) -> RuntimeRegisters {
        self.rt_regs
    }

    /// The doorbell registers.
    pub closed spec fn spec_doorbells(&self) -> Seq<DoorbellRegister> {
        self.doorbells@
    }

    /// The device slots.
    pub closed spec fn spec_slots(&self) -> Seq<Option<XhciDeviceSlot<D>>> {
        self.slots@
    }

    /// The command ring.
    pub closed spec fn spec_cmd_ring(&self) -> CommandRing {
        self.cmd_ring
    }

    /// The event rings.
    pub closed spec fn spec_event_rings(&self) -> Seq<EventRing> {
        self.event_rings@
    }

    /// The address allocation table.
    pub closed spec fn spec_addresses(&self) -> Seq<bool> {
        self.address_table@
    }

    /// The fixed shape every controller keeps: one doorbell and one slot
    /// entry per slot index (plus the reserved index 0), one event ring
    /// per interrupter, a 128-entry address table whose entry 0 is
    /// reserved, and an empty reserved slot 0.
    pub open spec fn wf(&self) -> bool {
        &&& self.spec_doorbells().len() == XHCI_MAX_SLOTS as int + 1
        &&& self.spec_slots().len() == XHCI_MAX_SLOTS as int + 1
        &&& self.spec_event_rings().len() == XHCI_MAX_INTRS as int
        &&& self.spec_addresses().len() == 128
        &&& self.spec_slots()[0] is None
        &&& self.spec_op_regs().spec_ports().len() == XHCI_MAX_PORTS as int
        &&& self.spec_rt_regs().spec_interrupters().len() == XHCI_MAX_INTRS as int
    }

    /// Create a new controller: halted, no devices, no addresses
    /// allocated, all banks freshly reset.
    pub fn new() -> (r: Self)
        ensures
            r.wf(),
            r.spec_state() == XhciState::Halted,
            r.spec_cmd_ring().pending_trbs() == Seq::<Trb>::empty(),
            r.spec_cmd_ring().spec_state() == CommandRingState::Stopped,
            r.spec_cmd_ring().spec_base() == 0,
            r.spec_cmd_ring().spec_enqueue() == 0,
            forall|i: int|
                0 <= i < r.spec_event_rings().len() ==> (#[trigger] r.spec_event_rings()[i]).pending_trbs()
                    == Seq::<Trb>::empty() && r.spec_event_rings()[i].spec_cycle() == true,
            forall|i: int| 0 <= i < r.spec_slots().len() ==> r.spec_slots()[i] is None,
            forall|i: int| 0 <= i < 128 ==> !r.spec_addresses()[i],
            forall|i: int|
                0 <= i < r.spec_doorbells().len() ==> (#[trigger] r.spec_doorbells()[i]).target
                    == 0,
            r.spec_cap_regs().spec_hciversion() == XHCI_VERSION,
            r.spec_cap_regs().spec_hcsparams1() == (XHCI_MAX_SLOTS as u32) | ((
            XHCI_MAX_INTRS as u32) << 8) | ((XHCI_MAX_PORTS as u32) << 24),
            r.spec_op_regs().spec_usbcmd() == 0,
            r.spec_op_regs().spec_usbsts() == crate::regs::USBSTS_HCH,
    {
        let cap_regs = CapabilityRegisters::new(XHCI_MAX_SLOTS, XHCI_MAX_INTRS, XHCI_MAX_PORTS);
        let op_regs = OperationalRegisters::default();
        let rt_regs = RuntimeRegisters::default();

        let mut doorbells: Vec<DoorbellRegister> = Vec::new();
        let mut slots: Vec<Option<XhciDeviceSlot<D>>> = Vec::new();
        let mut i: usize = 0;
        while i < XHCI_MAX_SLOTS as usize + 1
            invariant
                i <= XHCI_MAX_SLOTS as usize + 1,
                doorbells@.len() == i as int,
                slots@.len() == i as int,
                forall|j: int| 0 <= j < i ==> (#[trigger] doorbells@[j]).target == 0,
                forall|j: int| 0 <= j < i ==> slots@[j] is None,
            decreases XHCI_MAX_SLOTS as usize + 1 - i,
        {
            doorbells.push(DoorbellRegister::default());
            slots.push(None);
            i = i + 1;
        }
        let mut event_rings: Vec<EventRing> = Vec::new();
        let mut k: u8 = 0;
        while k < XHCI_MAX_INTRS
            invariant
                k <= XHCI_MAX_INTRS,
                event_rings@.len() == k as int,
                forall|j: int|
                    0 <= j < k ==> (#[trigger] event_rings@[j]).pending_trbs() == Seq::<
                        Trb,
                    >::empty() && event_rings@[j].spec_cycle() == true,
            decreases XHCI_MAX_INTRS - k,
        {
            event_rings.push(EventRing::new());
            k = k + 1;
        }
        let mut address_table: Vec<bool> = Vec::new();
        let mut a: usize = 0;
        while a < 128
            invariant
                a <= 128,
                address_table@.len() == a as int,
                forall|j: int| 0 <= j < a ==> !address_table@[j],
            decreases 128 - a,
        {
            address_table.push(false);
            a = a + 1;
        }

        Self {
            state: XhciState::Halted,
            cap_regs,
            op_regs,
            rt_regs,
            doorbells,
            slots,
            cmd_ring: CommandRing::new(),
            event_rings,
            address_table,
        }
    }

    /// Get the capability registers.
    pub fn capability_registers(&self) -> (r: &CapabilityRegisters)
        ensures
            r == self.spec_cap_regs(),
    {
        &self.cap_regs
    }

    /// Read an operational register.
    pub fn read_operational(&self, offset: u64) -> (r: u32)
        ensures
            r == spec_op_read(self.spec_op_regs(), offset),
    {
        self.op_regs.read(offset)
    }

    /// Write an operational register; USBCMD writes drive the controller
    /// run/halt/reset state.
    pub fn write_operational(&mut self, offset: u64, value: u32)
        ensures
            offset == 0x00 ==> spec_usbcmd_written(old(self).spec_op_regs(), value, final(self).spec_op_regs())
                && final(self).spec_state() == spec_usbcmd_state(
                old(self).spec_op_regs(),
                value,
                old(self).spec_state(),
            ),
            offset != 0x00 ==> final(self).spec_state() == old(self).spec_state() && final(self).spec_op_regs().spec_usbsts() == spec_op_written_usbsts(
                old(self).spec_op_regs(),
                offset,
                value,
            ) && final(self).spec_op_regs().spec_ports() == spec_op_written_ports(
                old(self).spec_op_regs(),
                offset,
                value,
            ),
            final(self).spec_cap_regs() == old(self).spec_cap_regs(),
            final(self).spec_rt_regs() == old(self).spec_rt_regs(),
            final(self).spec_doorbells() == old(self).spec_doorbells(),
            final(self).spec_slots() == old(self).spec_slots(),
            final(self).spec_cmd_ring() == old(self).spec_cmd_ring(),
            final(self).spec_event_rings() == old(self).spec_event_rings(),
            final(self).spec_addresses() == old(self).spec_addresses(),
            old(self).wf() ==> final(self).wf(),
    {
        let mut state = self.state;
        self.op_regs.write(offset, value, &mut state);
        self.state = state;
    }

    /// Read a runtime register.
    pub fn read_runtime(&self, offset: u64) -> (r: u32)
        ensures
            r == spec_rt_read(self.spec_rt_regs(), offset),
    {
        self.rt_regs.read(offset)
    }

    /// Write a runtime register.
    pub fn write_runtime(&mut self, offset: u64, value: u32)
        ensures
            final(self).spec_rt_regs().spec_mfindex() == old(self).spec_rt_regs().spec_mfindex(),
            final(self).spec_rt_regs().spec_interrupters() == spec_rt_written(
                old(self).spec_rt_regs(),
                offset,
                value,
            ),
            final(self).spec_state() == old(self).spec_state(),
            final(self).spec_cap_regs() == old(self).spec_cap_regs(),
            final(self).spec_op_regs() == old(self).spec_op_regs(),
            final(self).spec_doorbells() == old(self).spec_doorbells(),
            final(self).spec_slots() == old(self).spec_slots(),
            final(self).spec_cmd_ring() == old(self).spec_cmd_ring(),
            final(self).spec_event_rings() == old(self).spec_event_rings(),
            final(self).spec_addresses() == old(self).spec_addresses(),
            old(self).wf() ==> final(self).wf(),
    {
        self.rt_regs.write(offset, value);
    }

    /// Get the controller state.
    pub fn state(&self) -> (r: XhciState)
        ensures
            r == self.spec_state(),
    {
        self.state
    }

    /// The number of root-hub ports.
    pub fn num_ports(&self) -> (r: u8)
        ensures
            r == XHCI_MAX_PORTS,
    {
        XHCI_MAX_PORTS
    }

    /// Allocate the lowest free USB device address in 1..=127; `None`, and
    /// no side effect, when every address is in use.
    pub fn allocate_address(&mut self) -> (r: Option<u8>)
        requires
            old(self).wf(),
        ensures
            final(self).wf(),
            r == (match spec_first_free(old(self).spec_addresses(), 1) {
                Some(a) => Some(a as u8),
                None => None::<u8>,
            }),
            (match spec_first_free(old(self).spec_addresses(), 1) {
                Some(a) => final(self).spec_addresses() == old(self).spec_addresses().update(
                    a,
                    true,
                ),
                None => final(self).spec_addresses() == old(self).spec_addresses(),
            }),
            r is Some ==> 1 <= r->0 <= 127 && !old(self).spec_addresses()[r->0 as int],
            final(self).spec_state() == old(self).spec_state(),
            final(self).spec_cap_regs() == old(self).spec_cap_regs(),
            final(self).spec_op_regs() == old(self).spec_op_regs(),
            final(self).spec_rt_regs() == old(self).spec_rt_regs(),
            final(self).spec_doorbells() == old(self).spec_doorbells(),
            final(self).spec_slots() == old(self).spec_slots(),
            final(self).spec_cmd_ring() == old(self).spec_cmd_ring(),
            final(self).spec_event_rings() == old(self).spec_event_rings(),
    {
        // Address 0 is reserved for the default address
        let mut addr: usize = 1;
        while addr <= 127
            invariant
                old(self).wf(),
                1 <= addr <= 128,
                *self == *old(self),
                forall|j: int| 1 <= j < addr ==> old(self).spec_addresses()[j],
            decreases 128 - addr,
        {
            if !self.address_table[addr] {
                self.address_table.set(addr, true);
                proof {
                    lemma_first_free_found(old(self).address_table@, 1, addr as int);
                }
                return Some(addr as u8);
            }
            addr = addr + 1;
        }
        proof {
            lemma_first_free_none(old(self).address_table@, 1);
        }
        None
    }

    /// Free a USB device address; addresses 0 and above 127 are rejected
    /// with no side effect.
    pub fn free_address(&mut self, addr: u8)
        requires
            old(self).wf(),
        ensures
            final(self).wf(),
            (1 <= addr && addr <= 127) ==> final(self).spec_addresses() == old(self).spec_addresses().update(addr as int, false),
            !(1 <= addr && addr <= 127) ==> final(self).spec_addresses() == old(self).spec_addresses(),
            final(self).spec_state() == old(self).spec_state(),
            final(self).spec_cap_regs() == old(self).spec_cap_regs(),
            final(self).spec_op_regs() == old(self).spec_op_regs(),
            final(self).spec_rt_regs() == old(self).spec_rt_regs(),
            final(self).spec_doorbells() == old(self).spec_doorbells(),
            final(self).spec_slots() == old(self).spec_slots(),
            final(self).spec_cmd_ring() == old(self).spec_cmd_ring(),
            final(self).spec_event_rings() == old(self).spec_event_rings(),
    {
        if addr > 0 && addr <= 127 {
            self.address_table.set(addr as usize, false);
        }
    }

    /// Find the lowest free device slot index (1 and up).
    fn find_free_slot(&self) -> (r: Result<u8, XhciError>)
        requires
            self.wf(),
        ensures
            r == (match spec_free_slot(self.spec_slots(), 1) {
                Some(i) => Ok::<u8, XhciError>(i as u8),
                None => Err(XhciError::NoFreeSlots),
            }),
    {
        let n = self.slots.len();
        let mut i: usize = 1;
        while i < n
            invariant
                self.wf(),
                n == self.spec_slots().len(),
                1 <= i <= n,
                forall|j: int| 1 <= j < i ==> self.spec_slots()[j] is Some,
            decreases n - i,
        {
            if self.slots[i].is_none() {
                proof {
                    lemma_free_slot_found(self.slots@, 1, i as int);
                }
                return Ok(i as u8);
            }
            i = i + 1;
        }
        proof {
            lemma_free_slot_none(self.slots@, 1);
        }
        Err(XhciError::NoFreeSlots)
    }

    /// Attach a device to a port: allocates the lowest free slot index,
    /// wraps the device in a new slot there and marks the port connected.
    /// An out-of-range port is rejected; with no free slot the device is
    /// rejected with NoFreeSlots.
    pub fn attach_device(&mut self, port: u8, device: D) -> (r: Result<u8, XhciError>)
        requires
            old(self).wf(),
        ensures
            final(self).wf(),
            port >= XHCI_MAX_PORTS ==> r == Err::<u8, XhciError>(XhciError::InvalidPort) && final(self).spec_slots() == old(self).spec_slots() && final(self).spec_op_regs() == old(self).spec_op_regs(),
            port < XHCI_MAX_PORTS ==> (match spec_free_slot(old(self).spec_slots(), 1) {
                Some(i) => {
                    &&& r == Ok::<u8, XhciError>(i as u8)
                    &&& final(self).spec_slots().len() == old(self).spec_slots().len()
                    &&& final(self).spec_slots()[i] is Some
                    &&& final(self).spec_slots()[i]->Some_0.spec_slot_id() == i as u8
                    &&& final(self).spec_slots()[i]->Some_0.spec_state() == SlotState::Disabled
                    &&& final(self).spec_slots()[i]->Some_0.spec_address() == 0
                    &&& final(self).spec_slots()[i]->Some_0.has_device()
                    &&& forall|j: int|
                        0 <= j < old(self).spec_slots().len() && j != i ==> final(self).spec_slots()[j] == old(self).spec_slots()[j]
                    &&& final(self).spec_op_regs().spec_ports()
                        == old(self).spec_op_regs().spec_ports().update(
                        port as int,
                        (crate::regs::PortRegister {
                            portsc: spec_portsc_connected(
                                old(self).spec_op_regs().spec_ports()[port as int].portsc,
                                true,
                            ),
                            ..old(self).spec_op_regs().spec_ports()[port as int]
                        }),
                    )
                },
                None => r == Err::<u8, XhciError>(XhciError::NoFreeSlots) && final(self).spec_slots() == old(self).spec_slots() && final(self).spec_op_regs() == old(self).spec_op_regs(),
            }),
            final(self).spec_state() == old(self).spec_state(),
            final(self).spec_cap_regs() == old(self).spec_cap_regs(),
            final(self).spec_rt_regs() == old(self).spec_rt_regs(),
            final(self).spec_doorbells() == old(self).spec_doorbells(),
            final(self).spec_cmd_ring() == old(self).spec_cmd_ring(),
            final(self).spec_event_rings() == old(self).spec_event_rings(),
            final(self).spec_addresses() == old(self).spec_addresses(),
    {
        if port >= XHCI_MAX_PORTS {
            return Err(XhciError::InvalidPort);
        }
        let slot_id = match self.find_free_slot() {
            Ok(id) => id,
            Err(e) => {
                return Err(e);
            },
        };

        proof {
            lemma_free_slot_in_range(old(self).slots@, 1);
        }
        // Create the device slot
        let slot = XhciDeviceSlot::new(slot_id, device);
        let i = slot_id as usize;
        self.slots.remove(i);
        self.slots.insert(i, Some(slot));
        proof {
            assert(0u8 & 0x0F == 0) by (bit_vector);
            assert forall|j: int|
                0 <= j < old(self).slots@.len() && j != i as int implies self.slots@[j] == old(self).slots@[j] by {
                assert(self.slots@[j] =~= old(self).slots@[j]);
            }
        }

        // Enable the slot in the port status
        self.op_regs.set_port_connected(port, true);

        Ok(slot_id)
    }

    /// Detach the device in a slot: frees the slot's allocated address and
    /// removes the slot. Slot 0 and out-of-range slots are rejected.
    pub fn detach_device(&mut self, slot_id: u8) -> (r: Result<(), XhciError>)
        requires
            old(self).wf(),
        ensures
            final(self).wf(),
            (slot_id == 0 || slot_id as int >= old(self).spec_slots().len()) ==> r == Err::<
                (),
                XhciError,
            >(XhciError::InvalidSlot) && final(self).spec_slots() == old(self).spec_slots()
                && final(self).spec_addresses() == old(self).spec_addresses(),
            !(slot_id == 0 || slot_id as int >= old(self).spec_slots().len()) ==> {
                &&& r == Ok::<(), XhciError>(())
                &&& final(self).spec_slots() == old(self).spec_slots().update(
                    slot_id as int,
                    None::<XhciDeviceSlot<D>>,
                )
                &&& final(self).spec_addresses() == (match old(self).spec_slots()[slot_id as int] {
                    Some(s) => if 1 <= s.spec_address() <= 127 {
                        old(self).spec_addresses().update(s.spec_address() as int, false)
                    } else {
                        old(self).spec_addresses()
                    },
                    None => old(self).spec_addresses(),
                })
            },
            final(self).spec_state() == old(self).spec_state(),
            final(self).spec_cap_regs() == old(self).spec_cap_regs(),
            final(self).spec_op_regs() == old(self).spec_op_regs(),
            final(self).spec_rt_regs() == old(self).spec_rt_regs(),
            final(self).spec_doorbells() == old(self).spec_doorbells(),
            final(self).spec_cmd_ring() == old(self).spec_cmd_ring(),
            final(self).spec_event_rings() == old(self).spec_event_rings(),
    {
        if slot_id as usize >= self.slots.len() || slot_id == 0 {
            return Err(XhciError::InvalidSlot);
        }

        // Free the slot's device address before removing the slot
        let i = slot_id as usize;
        let addr: Option<u8> = match &self.slots[i] {
            Some(s) => Some(s.address()),
            None => None,
        };
        if let Some(a) = addr {
            self.free_address(a);
        }

        self.slots.remove(i);
        self.slots.insert(i, None);
        proof {
            assert(self.slots@ =~= old(self).slots@.update(i as int, None::<XhciDeviceSlot<D>>));
        }
        Ok(())
    }

    /// Assign a freshly allocated address to a slot; `None`, and no address
    /// marked, when every address is in use. A missing or out-of-range
    /// slot still consumes the address, as the allocation comes first.
    pub fn assign_address_to_slot(&mut self, slot_id: u8) -> (r: Option<u8>)
        requires
            old(self).wf(),
        ensures
            final(self).wf(),
            r == (match spec_first_free(old(self).spec_addresses(), 1) {
                Some(a) => Some(a as u8),
                None => None::<u8>,
            }),
            (match spec_first_free(old(self).spec_addresses(), 1) {
                Some(a) => final(self).spec_addresses() == old(self).spec_addresses().update(
                    a,
                    true,
                ),
                None => final(self).spec_addresses() == old(self).spec_addresses(),
            }),
            r is Some && (slot_id as int) < old(self).spec_slots().len() && old(self).spec_slots()[slot_id as int] is Some ==> final(self).spec_slots().len() == old(self).spec_slots().len() && final(self).spec_slots()[slot_id as int] is Some && final(self).spec_slots()[slot_id as int]->Some_0.spec_address() == r->0 && (forall|j: int|
                0 <= j < old(self).spec_slots().len() && j != slot_id as int ==> final(self).spec_slots()[j] == old(self).spec_slots()[j]),
            !(r is Some && (slot_id as int) < old(self).spec_slots().len() && old(self).spec_slots()[slot_id as int] is Some) ==> final(self).spec_slots() == old(self).spec_slots(),
            final(self).spec_state() == old(self).spec_state(),
            final(self).spec_cmd_ring() == old(self).spec_cmd_ring(),
            final(self).spec_event_rings() == old(self).spec_event_rings(),
            final(self).spec_op_regs() == old(self).spec_op_regs(),
    {
        let addr = match self.allocate_address() {
            Some(a) => a,
            None => {
                return None;
            },
        };
        if (slot_id as usize) < self.slots.len() {
            let i = slot_id as usize;
            let entry = self.slots.remove(i);
            match entry {
                Some(mut s) => {
                    s.set_address(addr);
                    self.slots.insert(i, Some(s));
                    proof {
                        assert forall|j: int|
                            0 <= j < old(self).slots@.len() && j != i as int implies self.slots@[j]
                            == old(self).slots@[j] by {
                            assert(self.slots@[j] =~= old(self).slots@[j]);
                        }
                    }
                },
                None => {
                    self.slots.insert(i, None);
                    proof {
                        assert(self.slots@ =~= old(self).slots@);
                    }
                },
            }
        }
        Some(addr)
    }
    /// Whether a command type is dispatched to the slot its TRB addresses.
    pub open spec fn slot_dispatched(t: Option<TrbType>) -> bool {
        ||| t == Some(TrbType::AddressDevice)
        ||| t == Some(TrbType::ConfigureEndpoint)
        ||| t == Some(TrbType::EvaluateContext)
        ||| t == Some(TrbType::ResetEndpoint)
        ||| t == Some(TrbType::StopEndpoint)
        ||| t == Some(TrbType::SetTrDequeue)
        ||| t == Some(TrbType::ResetDevice)
    }

    /// How a command dispatched to an occupied slot `i` changes that slot
    /// and the address table, and which completion code it yields.
    pub open spec fn slot_command_effect(
        pre: Self,
        trb: Trb,
        post: Self,
        code: CompletionCode,
        i: int,
    ) -> bool {
        let t = trb_type_of_u32(control_type_bits(trb.control));
        let s0 = pre.spec_slots()[i]->Some_0;
        let s1 = post.spec_slots()[i]->Some_0;
        &&& post.spec_slots()[i] is Some
        &&& forall|j: int|
            0 <= j < pre.spec_slots().len() && j != i ==> post.spec_slots()[j]
                == pre.spec_slots()[j]
        &&& s1.spec_slot_id() == s0.spec_slot_id()
        &&& s1.has_device() == s0.has_device()
        &&& s1.spec_rings().len() == s0.spec_rings().len()
        &&& s1.spec_context().endpoints == s0.spec_context().endpoints
        &&& (t == Some(TrbType::AddressDevice) ==> (match spec_first_free(
            pre.spec_addresses(),
            1,
        ) {
            Some(a) => code == CompletionCode::Success && s1.spec_state() == SlotState::Addressed
                && s1.spec_address() == a && s1.spec_rings() == s0.spec_rings()
                && post.spec_addresses() == pre.spec_addresses().update(a, true),
            None => code == CompletionCode::ResourceError && s1 == s0 && post.spec_addresses()
                == pre.spec_addresses(),
        }))
        &&& (t == Some(TrbType::ConfigureEndpoint) ==> code == CompletionCode::Success
            && s1.spec_state() == SlotState::Configured && s1.spec_address() == s0.spec_address()
            && s1.spec_rings() == s0.spec_rings() && post.spec_addresses()
            == pre.spec_addresses())
        &&& ((t == Some(TrbType::EvaluateContext) || t == Some(TrbType::ResetEndpoint) || t
            == Some(TrbType::StopEndpoint)) ==> code == CompletionCode::Success && s1 == s0
            && post.spec_addresses() == pre.spec_addresses())
        &&& (t == Some(TrbType::SetTrDequeue) ==> code == CompletionCode::Success
            && s1.spec_context() == s0.spec_context() && spec_tr_dequeue_applied(
            s0.spec_rings(),
            s1.spec_rings(),
            trb,
        ) && post.spec_addresses() == pre.spec_addresses())
        &&& (t == Some(TrbType::ResetDevice) ==> code == CompletionCode::Success
            && s1.spec_state() == SlotState::Default && s1.spec_address() == s0.spec_address()
            && s1.spec_rings() == s0.spec_rings() && post.spec_addresses()
            == pre.spec_addresses())
    }

    /// What one command TRB does to the controller, and the completion
    /// code and slot id its CommandCompletion event reports:
    ///
    /// - EnableSlot creates a slot record in state Default at the lowest
    ///   free index (no device bound yet) and reports that index, or
    ///   NoSlotsAvailable when none is free.
    /// - DisableSlot empties the addressed slot entry.
    /// - Noop acknowledges.
    /// - The slot-addressed commands are dispatched to the slot named in
    ///   control bits 24..32; an empty or out-of-range entry reports
    ///   SlotNotEnabled. AddressDevice first allocates the lowest free
    ///   device address.
    /// - Unrecognized types report TrbError.
    pub open spec fn command_effect(
        pre: Self,
        trb: Trb,
        post: Self,
        code: CompletionCode,
        sid: u8,
    ) -> bool {
        let t = trb_type_of_u32(control_type_bits(trb.control));
        let slot_idx = (trb.control >> 24) as int;
        &&& post.spec_slots().len() == pre.spec_slots().len()
        &&& post.spec_addresses().len() == pre.spec_addresses().len()
        &&& (t == Some(TrbType::EnableSlot) ==> post.spec_addresses() == pre.spec_addresses() && (
        match spec_free_slot(pre.spec_slots(), 1) {
            Some(i) => {
                &&& code == CompletionCode::Success
                &&& sid as int == i
                &&& post.spec_slots()[i] is Some
                &&& post.spec_slots()[i]->Some_0.spec_slot_id() == i as u8
                &&& post.spec_slots()[i]->Some_0.spec_state() == SlotState::Default
                &&& post.spec_slots()[i]->Some_0.spec_address() == 0
                &&& !post.spec_slots()[i]->Some_0.has_device()
                &&& post.spec_slots()[i]->Some_0.spec_rings().len() == 32
                &&& forall|j: int|
                    0 <= j < pre.spec_slots().len() && j != i ==> post.spec_slots()[j]
                        == pre.spec_slots()[j]
            },
            None => code == CompletionCode::NoSlotsAvailable && sid == 0 && post.spec_slots()
                == pre.spec_slots(),
        }))
        &&& (t == Some(TrbType::DisableSlot) ==> post.spec_addresses() == pre.spec_addresses()
            && (if slot_idx < pre.spec_slots().len() {
            post.spec_slots() == pre.spec_slots().update(slot_idx, None::<XhciDeviceSlot<D>>)
                && code == CompletionCode::Success && sid as int == slot_idx
        } else {
            post.spec_slots() == pre.spec_slots() && code == CompletionCode::SlotNotEnabled && sid
                == 0
        }))
        &&& (t == Some(TrbType::Noop) ==> post.spec_slots() == pre.spec_slots()
            && post.spec_addresses() == pre.spec_addresses() && code == CompletionCode::Success
            && sid == 0)
        &&& (Self::slot_dispatched(t) ==> (if slot_idx < pre.spec_slots().len()
            && pre.spec_slots()[slot_idx] is Some {
            sid as int == slot_idx && Self::slot_command_effect(pre, trb, post, code, slot_idx)
        } else {
            post.spec_slots() == pre.spec_slots() && post.spec_addresses() == pre.spec_addresses()
                && code == CompletionCode::SlotNotEnabled && sid == 0
        }))
        &&& (!(t == Some(TrbType::EnableSlot) || t == Some(TrbType::DisableSlot) || t == Some(
            TrbType::Noop,
        ) || Self::slot_dispatched(t)) ==> post.spec_slots() == pre.spec_slots()
            && post.spec_addresses() == pre.spec_addresses() && code == CompletionCode::TrbError
            && sid == 0)
    }

    /// Handle one command TRB, dispatching it to the slot it addresses.
    fn handle_command(&mut self, trb: &Trb) -> (r: (CompletionCode, u8))
        requires
            old(self).wf(),
        ensures
            final(self).wf(),
            Self::command_effect(*old(self), *trb, *final(self), r.0, r.1),
            final(self).spec_state() == old(self).spec_state(),
            final(self).spec_cap_regs() == old(self).spec_cap_regs(),
            final(self).spec_op_regs() == old(self).spec_op_regs(),
            final(self).spec_rt_regs() == old(self).spec_rt_regs(),
            final(self).spec_doorbells() == old(self).spec_doorbells(),
            final(self).spec_cmd_ring() == old(self).spec_cmd_ring(),
            final(self).spec_event_rings() == old(self).spec_event_rings(),
    {
        let t = trb.trb_type();
        if t == Some(TrbType::EnableSlot) {
            // Enable the lowest free slot: its slot record is created
            // here, in state Default, with no device bound yet
            match self.find_free_slot() {
                Ok(slot_id) => {
                    proof {
                        lemma_free_slot_in_range(self.slots@, 1);
                    }
                    let i = slot_id as usize;
                    let mut slot = XhciDeviceSlot::new_empty(slot_id);
                    slot.set_state(SlotState::Default);
                    self.slots.remove(i);
                    self.slots.insert(i, Some(slot));
                    proof {
                        assert forall|j: int|
                            0 <= j < old(self).slots@.len() && j != i as int implies self.slots@[j]
                            == old(self).slots@[j] by {
                            assert(self.slots@[j] =~= old(self).slots@[j]);
                        }
                    }
                    (CompletionCode::Success, slot_id)
                },
                Err(_) => (CompletionCode::NoSlotsAvailable, 0),
            }
        } else if t == Some(TrbType::DisableSlot) {
            let slot_id = (trb.control >> 24) as u8;
            proof {
                let c = trb.control;
                assert(c >> 24 < 256) by (bit_vector);
            }
            if (slot_id as usize) < self.slots.len() {
                let i = slot_id as usize;
                self.slots.remove(i);
                self.slots.insert(i, None);
                proof {
                    assert(self.slots@ =~= old(self).slots@.update(
                        i as int,
                        None::<XhciDeviceSlot<D>>,
                    ));
                }
                (CompletionCode::Success, slot_id)
            } else {
                (CompletionCode::SlotNotEnabled, 0)
            }
        } else if t == Some(TrbType::Noop) {
            (CompletionCode::Success, 0)
        } else if t == Some(TrbType::AddressDevice) || t == Some(TrbType::ConfigureEndpoint) || t
            == Some(TrbType::EvaluateContext) || t == Some(TrbType::ResetEndpoint) || t == Some(
            TrbType::StopEndpoint,
        ) || t == Some(TrbType::SetTrDequeue) || t == Some(TrbType::ResetDevice) {
            let slot_id = (trb.control >> 24) as u8;
            proof {
                let c = trb.control;
                assert(c >> 24 < 256) by (bit_vector);
            }
            if (slot_id as usize) < self.slots.len() {
                let i = slot_id as usize;
                let occupied = match &self.slots[i] {
                    Some(_) => true,
                    None => false,
                };
                if occupied {
                    // AddressDevice assigns a fresh device address
                    let addr: Option<u8> = if t == Some(TrbType::AddressDevice) {
                        self.allocate_address()
                    } else {
                        None
                    };
                    let entry = self.slots.remove(i);
                    let mut slot = match entry {
                        Some(s) => s,
                        None => {
                            proof {
                                assert(false);
                            }
                            return (CompletionCode::SlotNotEnabled, 0);
                        },
                    };
                    let (code, _extra) = slot.handle_command(trb, addr);
                    self.slots.insert(i, Some(slot));
                    proof {
                        assert forall|j: int|
                            0 <= j < old(self).slots@.len() && j != i as int implies self.slots@[j]
                            == old(self).slots@[j] by {
                            assert(self.slots@[j] =~= old(self).slots@[j]);
                        }
                        let t0 = trb_type_of_u32(control_type_bits(trb.control));
                        let s0 = old(self).spec_slots()[i as int]->Some_0;
                        assert(self.slots@[i as int] is Some);
                        let s1 = self.slots@[i as int]->Some_0;
                        assert(s1.spec_slot_id() == s0.spec_slot_id());
                        if t0 == Some(TrbType::AddressDevice) {
                            match spec_first_free(old(self).spec_addresses(), 1) {
                                Some(a) => {
                                    lemma_first_free_in_range(old(self).spec_addresses(), 1);
                                    assert(code == CompletionCode::Success);
                                    assert(s1.spec_state() == SlotState::Addressed);
                                    assert(s1.spec_address() == a);
                                    assert(self.spec_addresses() == old(self).spec_addresses().update(a, true));
                                },
                                None => {
                                    assert(code == CompletionCode::ResourceError);
                                    assert(s1 == s0);
                                },
                            }
                        }
                        if t0 == Some(TrbType::SetTrDequeue) {
                            assert(code == CompletionCode::Success);
                            assert(spec_tr_dequeue_applied(s0.spec_rings(), s1.spec_rings(), *trb));
                        }
                        assert(Self::slot_command_effect(*old(self), *trb, *self, code, i as int));
                    }
                    (code, slot_id)
                } else {
                    (CompletionCode::SlotNotEnabled, 0)
                }
            } else {
                (CompletionCode::SlotNotEnabled, 0)
            }
        } else {
            (CompletionCode::TrbError, 0)
        }
    }

    /// One step of command dispatch: the command's effect on the
    /// controller, and the CommandCompletion event that reports it,
    /// carrying the command's parameter, the completion code in status
    /// bits 24..32 and the slot id in the low status byte.
    pub open spec fn dispatch_step(
        pre: Self,
        cmd: Trb,
        mid: Self,
        ev: Trb,
        code: CompletionCode,
        sid: u8,
    ) -> bool {
        &&& Self::command_effect(pre, cmd, mid, code, sid)
        &&& ev.parameter == cmd.parameter
        &&& control_type_bits(ev.control) == trb_type_u32(TrbType::CommandCompletion)
        &&& (ev.status >> 24) & 0xFF == completion_code_u32(code)
        &&& ev.status & 0xFF == sid
    }

    /// The commands `cmds` dispatched in order against the controller,
    /// taking it from `pre` to `post` (as far as its slots and address
    /// table go) and producing exactly the completion events `events`:
    /// for each command there is a completion code and slot id such that
    /// the command had its `command_effect` on the intermediate state and
    /// its event reports exactly that code and slot id.
    pub open spec fn commands_dispatched(
        pre: Self,
        post: Self,
        cmds: Seq<Trb>,
        events: Seq<Trb>,
    ) -> bool
        decreases cmds.len(),
    {
        if cmds.len() == 0 {
            &&& post.spec_slots() == pre.spec_slots()
            &&& post.spec_addresses() == pre.spec_addresses()
            &&& events.len() == 0
        } else {
            &&& events.len() > 0
            &&& exists|mid: Self, code: CompletionCode, sid: u8|
                #[trigger] Self::dispatch_step(pre, cmds[0], mid, events[0], code, sid)
                    && Self::commands_dispatched(mid, post, cmds.skip(1), events.skip(1))
        }
    }

    /// Dispatching one more command after a dispatched prefix extends the
    /// dispatch relation by that command and its event.
    proof fn lemma_dispatched_snoc(
        pre: Self,
        mid: Self,
        post: Self,
        cmds: Seq<Trb>,
        events: Seq<Trb>,
        t: Trb,
        ev: Trb,
        code: CompletionCode,
        sid: u8,
    )
        requires
            Self::commands_dispatched(pre, mid, cmds, events),
            Self::command_effect(mid, t, post, code, sid),
            ev.parameter == t.parameter,
            control_type_bits(ev.control) == trb_type_u32(TrbType::CommandCompletion),
            (ev.status >> 24) & 0xFF == completion_code_u32(code),
            ev.status & 0xFF == sid,
        ensures
            Self::commands_dispatched(pre, post, cmds.push(t), events.push(ev)),
        decreases cmds.len(),
    {
        if cmds.len() == 0 {
            // The prefix left slots and addresses untouched, and the
            // command's effect reads nothing else of the starting state
            assert(Self::command_effect(pre, t, post, code, sid));
            assert(cmds.push(t)[0] == t && events.push(ev)[0] == ev);
            assert(cmds.push(t).skip(1) =~= Seq::<Trb>::empty());
            assert(events.push(ev).skip(1) =~= Seq::<Trb>::empty());
            assert(Self::commands_dispatched(
                post,
                post,
                cmds.push(t).skip(1),
                events.push(ev).skip(1),
            ));
            assert(Self::dispatch_step(pre, cmds.push(t)[0], post, events.push(ev)[0], code, sid));
        } else {
            let (m1, c0, s0) = choose|m1: Self, c0: CompletionCode, s0: u8|
                #[trigger] Self::dispatch_step(pre, cmds[0], m1, events[0], c0, s0)
                    && Self::commands_dispatched(m1, mid, cmds.skip(1), events.skip(1));
            Self::lemma_dispatched_snoc(
                m1,
                mid,
                post,
                cmds.skip(1),
                events.skip(1),
                t,
                ev,
                code,
                sid,
            );
            assert(cmds.push(t)[0] == cmds[0] && events.push(ev)[0] == events[0]);
            assert(cmds.push(t).skip(1) =~= cmds.skip(1).push(t));
            assert(events.push(ev).skip(1) =~= events.skip(1).push(ev));
            assert(Self::dispatch_step(pre, cmds.push(t)[0], m1, events.push(ev)[0], c0, s0));
        }
    }

    /// The dispatch relation reads only the slots and the address table
    /// of its end states: it carries over to states equal in those.
    proof fn lemma_dispatched_frame(
        pre1: Self,
        pre2: Self,
        post1: Self,
        post2: Self,
        cmds: Seq<Trb>,
        events: Seq<Trb>,
    )
        requires
            Self::commands_dispatched(pre1, post1, cmds, events),
            pre2.spec_slots() == pre1.spec_slots(),
            pre2.spec_addresses() == pre1.spec_addresses(),
            post2.spec_slots() == post1.spec_slots(),
            post2.spec_addresses() == post1.spec_addresses(),
        ensures
            Self::commands_dispatched(pre2, post2, cmds, events),
        decreases cmds.len(),
    {
        if cmds.len() > 0 {
            let (m, c, sid) = choose|m: Self, c: CompletionCode, sid: u8|
                #[trigger] Self::dispatch_step(pre1, cmds[0], m, events[0], c, sid)
                    && Self::commands_dispatched(m, post1, cmds.skip(1), events.skip(1));
            Self::lemma_dispatched_frame(m, m, post1, post2, cmds.skip(1), events.skip(1));
            assert(Self::dispatch_step(pre2, cmds[0], m, events[0], c, sid));
        }
    }

    /// How draining the command ring changes the controller: while the
    /// controller is Running, every pending command is consumed and
    /// exactly one CommandCompletion per command, in submission order and
    /// carrying its command's parameter, is appended to interrupter 0's
    /// event ring, and the appended events report, command by command,
    /// the completion code and slot id of that command's effect on the
    /// slots and the address table (`commands_dispatched`); while it is
    /// not Running, commands stay queued and nothing changes. Other
    /// interrupters' event rings are never touched.
    pub open spec fn commands_processed(pre: Self, post: Self) -> bool {
        &&& post.spec_event_rings().len() == pre.spec_event_rings().len()
        &&& forall|k: int|
            1 <= k < pre.spec_event_rings().len() ==> post.spec_event_rings()[k]
                == pre.spec_event_rings()[k]
        &&& post.spec_slots().len() == pre.spec_slots().len()
        &&& post.spec_addresses().len() == pre.spec_addresses().len()
        &&& if pre.spec_state() != XhciState::Running {
            &&& post.spec_cmd_ring() == pre.spec_cmd_ring()
            &&& post.spec_event_rings() == pre.spec_event_rings()
            &&& post.spec_slots() == pre.spec_slots()
            &&& post.spec_addresses() == pre.spec_addresses()
        } else {
            &&& post.spec_cmd_ring().pending_trbs() == Seq::<Trb>::empty()
            &&& post.spec_cmd_ring().spec_base() == pre.spec_cmd_ring().spec_base()
            &&& post.spec_cmd_ring().spec_size() == pre.spec_cmd_ring().spec_size()
            &&& post.spec_cmd_ring().spec_enqueue() == pre.spec_cmd_ring().spec_enqueue()
            &&& post.spec_cmd_ring().spec_cycle() == pre.spec_cmd_ring().spec_cycle()
            &&& post.spec_cmd_ring().spec_state() == pre.spec_cmd_ring().spec_state()
            &&& events_extended_with_completions(
                pre.spec_event_rings()[0].pending_trbs(),
                post.spec_event_rings()[0].pending_trbs(),
                pre.spec_cmd_ring().pending_trbs(),
            )
            &&& Self::commands_dispatched(
                pre,
                post,
                pre.spec_cmd_ring().pending_trbs(),
                post.spec_event_rings()[0].pending_trbs().skip(
                    pre.spec_event_rings()[0].pending_trbs().len() as int,
                ),
            )
        }
    }

    /// Drain the command ring: consume each pending command, dispatch it,
    /// and append its CommandCompletion event to interrupter 0's event
    /// ring. Commands issued while the controller is not Running remain
    /// queued.
    fn process_command_ring(&mut self)
        requires
            old(self).wf(),
        ensures
            final(self).wf(),
            Self::commands_processed(*old(self), *final(self)),
            final(self).spec_state() == old(self).spec_state(),
            final(self).spec_cap_regs() == old(self).spec_cap_regs(),
            final(self).spec_op_regs() == old(self).spec_op_regs(),
            final(self).spec_rt_regs() == old(self).spec_rt_regs(),
            final(self).spec_doorbells() == old(self).spec_doorbells(),
    {
        if self.state != XhciState::Running {
            proof {
                assert(Self::commands_processed(*old(self), *self));
            }
            return ;
        }
        let ghost cmds = old(self).spec_cmd_ring().pending_trbs();
        let ghost pre_ev = old(self).spec_event_rings()[0].pending_trbs();
        let ghost mut done: int = 0;
        proof {
            assert(cmds.skip(0) =~= cmds);
            assert(events_extended_with_completions(pre_ev, pre_ev, cmds.take(0)));
            assert(pre_ev.skip(pre_ev.len() as int) =~= Seq::<Trb>::empty());
            assert(cmds.take(0) =~= Seq::<Trb>::empty());
            assert(Self::commands_dispatched(
                *old(self),
                *self,
                cmds.take(0),
                self.spec_event_rings()[0].pending_trbs().skip(pre_ev.len() as int),
            ));
        }
        loop
            invariant
                self.wf(),
                self.spec_state() == old(self).spec_state(),
                self.spec_cap_regs() == old(self).spec_cap_regs(),
                self.spec_op_regs() == old(self).spec_op_regs(),
                self.spec_rt_regs() == old(self).spec_rt_regs(),
                self.spec_doorbells() == old(self).spec_doorbells(),
                self.spec_slots().len() == old(self).spec_slots().len(),
                self.spec_addresses().len() == old(self).spec_addresses().len(),
                self.spec_event_rings().len() == old(self).spec_event_rings().len(),
                forall|k: int|
                    1 <= k < old(self).spec_event_rings().len() ==> self.spec_event_rings()[k]
                        == old(self).spec_event_rings()[k],
                0 <= done <= cmds.len(),
                self.spec_cmd_ring().pending_trbs() == cmds.skip(done),
                self.spec_cmd_ring().spec_base() == old(self).spec_cmd_ring().spec_base(),
                self.spec_cmd_ring().spec_size() == old(self).spec_cmd_ring().spec_size(),
                self.spec_cmd_ring().spec_enqueue() == old(self).spec_cmd_ring().spec_enqueue(),
                self.spec_cmd_ring().spec_cycle() == old(self).spec_cmd_ring().spec_cycle(),
                self.spec_cmd_ring().spec_state() == old(self).spec_cmd_ring().spec_state(),
                events_extended_with_completions(
                    pre_ev,
                    self.spec_event_rings()[0].pending_trbs(),
                    cmds.take(done),
                ),
                self.spec_event_rings()[0].pending_trbs().len() >= pre_ev.len(),
                Self::commands_dispatched(
                    *old(self),
                    *self,
                    cmds.take(done),
                    self.spec_event_rings()[0].pending_trbs().skip(pre_ev.len() as int),
                ),
            ensures
                self.spec_cmd_ring().pending_trbs().len() == 0,
                done == cmds.len(),
            decreases self.spec_cmd_ring().pending_trbs().len(),
        {
            let ghost snap = *self;
            let trb = match self.cmd_ring.next() {
                Some(t) => t,
                None => {
                    proof {
                        assert(cmds.skip(done).len() == 0);
                        Self::lemma_dispatched_frame(
                            *old(self),
                            *old(self),
                            snap,
                            *self,
                            cmds.take(done),
                            self.spec_event_rings()[0].pending_trbs().skip(pre_ev.len() as int),
                        );
                    }
                    break ;
                },
            };
            proof {
                assert(cmds.skip(done)[0] == cmds[done]);
                assert(cmds.skip(done).skip(1) =~= cmds.skip(done + 1));
            }
            let ghost before_effect = *self;
            let (code, slot_id) = self.handle_command(&trb);

            // Create the completion event and post it to interrupter 0
            let event = self.cmd_ring.create_completion_event(&trb, slot_id, code);
            let mut ev0 = self.event_rings.remove(0);
            ev0.queue(event);
            proof {
                assert((((33u32 << 10) | 1) | 1) >> 10 & 0x3F == 33 && (((33u32 << 10) | 1)
                    & !1u32) >> 10 & 0x3F == 33) by (bit_vector);
            }
            self.event_rings.insert(0, ev0);
            proof {
                assert forall|k: int|
                    1 <= k < old(self).spec_event_rings().len() implies self.event_rings@[k] == old(self).spec_event_rings()[k] by {
                    assert(self.event_rings@[k] =~= old(self).spec_event_rings()[k]);
                }
                assert(cmds.take(done).push(cmds[done]) =~= cmds.take(done + 1));
                // The command's effect reads only the slots and address
                // table, which consuming the command and posting the
                // event never touch
                assert(Self::command_effect(snap, trb, *self, code, slot_id));
                let ghost stamped = self.spec_event_rings()[0].pending_trbs().last();
                assert(stamped.parameter == trb.parameter);
                assert((stamped.status >> 24) & 0xFF == completion_code_u32(code));
                assert(stamped.status & 0xFF == slot_id);
                let ghost evs = snap.spec_event_rings()[0].pending_trbs().skip(pre_ev.len() as int);
                Self::lemma_dispatched_snoc(
                    *old(self),
                    snap,
                    *self,
                    cmds.take(done),
                    evs,
                    trb,
                    stamped,
                    code,
                    slot_id,
                );
                assert(self.spec_event_rings()[0].pending_trbs().skip(pre_ev.len() as int)
                    =~= evs.push(stamped));
                done = done + 1;
            }
        }
        proof {
            assert(cmds.take(cmds.len() as int) =~= cmds);
            assert(self.spec_cmd_ring().pending_trbs() =~= Seq::<Trb>::empty());
            assert(events_extended_with_completions(
                pre_ev,
                self.spec_event_rings()[0].pending_trbs(),
                cmds,
            ));
            assert(Self::commands_processed(*old(self), *self));
        }
    }

    /// How ringing an endpoint doorbell changes the controller: when the
    /// addressed slot is occupied, its device still attached and the
    /// endpoint's ring installed, the ring is drained and exactly one
    /// TransferEvent per drained TRB, in drain order and carrying its
    /// TRB's parameter, is appended to interrupter 0's event ring; in
    /// every other case nothing changes. Other slots, the command ring and
    /// the other interrupters are never touched.
    pub open spec fn transfers_processed(pre: Self, post: Self, slot_id: u8, ep_id: u8) -> bool {
        &&& post.spec_event_rings().len() == pre.spec_event_rings().len()
        &&& forall|k: int|
            1 <= k < pre.spec_event_rings().len() ==> post.spec_event_rings()[k]
                == pre.spec_event_rings()[k]
        &&& post.spec_slots().len() == pre.spec_slots().len()
        &&& post.spec_cmd_ring() == pre.spec_cmd_ring()
        &&& post.spec_addresses() == pre.spec_addresses()
        &&& if (slot_id as int) >= pre.spec_slots().len() || ep_id > 31 || pre.spec_slots()[slot_id as int] is None {
            &&& post.spec_slots() == pre.spec_slots()
            &&& post.spec_event_rings() == pre.spec_event_rings()
        } else {
            let s0 = pre.spec_slots()[slot_id as int]->Some_0;
            let s1 = post.spec_slots()[slot_id as int]->Some_0;
            &&& post.spec_slots()[slot_id as int] is Some
            &&& forall|j: int|
                0 <= j < pre.spec_slots().len() && j != slot_id as int ==> post.spec_slots()[j]
                    == pre.spec_slots()[j]
            &&& s1.spec_slot_id() == s0.spec_slot_id()
            &&& s1.spec_context() == s0.spec_context()
            &&& s1.has_device() == s0.has_device()
            &&& s1.spec_rings().len() == s0.spec_rings().len()
            &&& if (ep_id as int) < s0.spec_rings().len() && s0.spec_rings()[ep_id as int] is Some
                && s0.has_device() {
                &&& events_extended_with_transfers(
                    pre.spec_event_rings()[0].pending_trbs(),
                    post.spec_event_rings()[0].pending_trbs(),
                    s0.spec_rings()[ep_id as int]->Some_0.pending_trbs(),
                )
                &&& s1.spec_rings()[ep_id as int] is Some
                &&& s1.spec_rings()[ep_id as int]->Some_0.pending_trbs().len() == 0
                &&& forall|j: int|
                    0 <= j < s0.spec_rings().len() && j != ep_id as int ==> s1.spec_rings()[j]
                        == s0.spec_rings()[j]
            } else {
                &&& s1.spec_rings() == s0.spec_rings()
                &&& post.spec_event_rings() == pre.spec_event_rings()
            }
        }
    }

    /// Whether draining endpoint `ep_id` of slot `s0` reaches its ring:
    /// the ring is installed and the device still attached.
    pub open spec fn drain_reaches_ring(s0: XhciDeviceSlot<D>, ep_id: u8) -> bool {
        (ep_id as int) < s0.spec_rings().len() && s0.spec_rings()[ep_id as int] is Some
            && s0.has_device()
    }

    /// What draining endpoint `ep_id` leaves of a slot that was `s0`.
    pub open spec fn slot_drained(
        s0: XhciDeviceSlot<D>,
        entry: Option<XhciDeviceSlot<D>>,
        ep_id: u8,
    ) -> bool {
        &&& entry is Some
        &&& {
            let s1 = entry->Some_0;
            &&& s1.spec_slot_id() == s0.spec_slot_id()
            &&& s1.spec_context() == s0.spec_context()
            &&& s1.has_device() == s0.has_device()
            &&& s1.spec_rings().len() == s0.spec_rings().len()
            &&& if Self::drain_reaches_ring(s0, ep_id) {
                &&& s1.spec_rings()[ep_id as int] is Some
                &&& s1.spec_rings()[ep_id as int]->Some_0.pending_trbs().len() == 0
                &&& forall|j: int|
                    0 <= j < s0.spec_rings().len() && j != ep_id as int ==> s1.spec_rings()[j]
                        == s0.spec_rings()[j]
            } else {
                s1.spec_rings() == s0.spec_rings()
            }
        }
    }

    /// The transfer events draining endpoint `ep_id` of slot `s0` yields.
    pub open spec fn drained_events(events: Seq<Trb>, s0: XhciDeviceSlot<D>, ep_id: u8) -> bool {
        if Self::drain_reaches_ring(s0, ep_id) {
            transfer_events_for(events, s0.spec_rings()[ep_id as int]->Some_0.pending_trbs())
        } else {
            events.len() == 0
        }
    }

    /// Drain a slot endpoint's transfer ring and post one TransferEvent
    /// per drained TRB to interrupter 0's event ring. A missing slot or an
    /// endpoint id above 31 is a no-op.
    pub fn process_transfer(&mut self, slot_id: u8, ep_id: u8)
        requires
            old(self).wf(),
        ensures
            final(self).wf(),
            Self::transfers_processed(*old(self), *final(self), slot_id, ep_id),
            final(self).spec_state() == old(self).spec_state(),
            final(self).spec_cap_regs() == old(self).spec_cap_regs(),
            final(self).spec_op_regs() == old(self).spec_op_regs(),
            final(self).spec_rt_regs() == old(self).spec_rt_regs(),
            final(self).spec_doorbells() == old(self).spec_doorbells(),
    {
        if slot_id as usize >= self.slots.len() || ep_id > 31 {
            proof {
                assert(Self::transfers_processed(*old(self), *self, slot_id, ep_id));
            }
            return ;
        }
        let i = slot_id as usize;
        let entry = self.slots.remove(i);
        let mut slot = match entry {
            Some(s) => s,
            None => {
                self.slots.insert(i, None);
                proof {
                    assert(self.slots@ =~= old(self).slots@);
                    assert(Self::transfers_processed(*old(self), *self, slot_id, ep_id));
                }
                return ;
            },
        };
        let ghost s0 = old(self).spec_slots()[i as int]->Some_0;
        let events = slot.ring_ep(ep_id);
        self.slots.insert(i, Some(slot));
        proof {
            assert forall|j: int|
                0 <= j < old(self).slots@.len() && j != i as int implies self.slots@[j] == old(self).slots@[j] by {
                assert(self.slots@[j] =~= old(self).slots@[j]);
            }
            assert(self.slots@ =~= old(self).slots@.update(i as int, self.slots@[i as int]));
            assert(Self::drained_events(events@, s0, ep_id));
            assert(Self::slot_drained(s0, self.slots@[i as int], ep_id));
        }

        // Post the transfer events to the primary interrupter
        let ghost pre_ev = old(self).spec_event_rings()[0].pending_trbs();
        let mut k: usize = 0;
        let n = events.len();
        while k < n
            invariant
                self.wf(),
                n == events@.len(),
                k <= n,
                self.spec_state() == old(self).spec_state(),
                self.spec_cap_regs() == old(self).spec_cap_regs(),
                self.spec_op_regs() == old(self).spec_op_regs(),
                self.spec_rt_regs() == old(self).spec_rt_regs(),
                self.spec_doorbells() == old(self).spec_doorbells(),
                self.spec_cmd_ring() == old(self).spec_cmd_ring(),
                self.spec_addresses() == old(self).spec_addresses(),
                self.spec_slots() == old(self).spec_slots().update(
                    i as int,
                    self.spec_slots()[i as int],
                ),
                Self::slot_drained(s0, self.spec_slots()[i as int], ep_id),
                Self::drained_events(events@, s0, ep_id),
                self.spec_event_rings().len() == old(self).spec_event_rings().len(),
                forall|j: int|
                    1 <= j < old(self).spec_event_rings().len() ==> self.spec_event_rings()[j]
                        == old(self).spec_event_rings()[j],
                n == 0 ==> self.spec_event_rings() == old(self).spec_event_rings(),
                self.spec_event_rings()[0].pending_trbs().len() == pre_ev.len() + k,
                forall|j: int|
                    0 <= j < pre_ev.len() ==> self.spec_event_rings()[0].pending_trbs()[j]
                        == pre_ev[j],
                forall|j: int|
                    0 <= j < k ==> (#[trigger] self.spec_event_rings()[0].pending_trbs()[pre_ev.len() + j]).parameter
                        == events@[j].parameter && control_type_bits(
                        self.spec_event_rings()[0].pending_trbs()[pre_ev.len() + j].control,
                    ) == trb_type_u32(TrbType::TransferEvent),
            decreases n - k,
        {
            let event = events[k];
            let mut ev0 = self.event_rings.remove(0);
            ev0.queue(event);
            proof {
                assert((((32u32 << 10) | 1) | 1) >> 10 & 0x3F == 32 && (((32u32 << 10) | 1)
                    & !1u32) >> 10 & 0x3F == 32) by (bit_vector);
            }
            self.event_rings.insert(0, ev0);
            proof {
                assert forall|j: int|
                    1 <= j < old(self).spec_event_rings().len() implies self.event_rings@[j] == old(self).spec_event_rings()[j] by {
                    assert(self.event_rings@[j] =~= old(self).spec_event_rings()[j]);
                }
            }
            k = k + 1;
        }
        proof {
            if Self::drain_reaches_ring(s0, ep_id) {
                let pending = s0.spec_rings()[ep_id as int]->Some_0.pending_trbs();
                assert forall|j: int|
                    0 <= j < pending.len() implies (#[trigger] self.spec_event_rings()[0].pending_trbs()[pre_ev.len() + j]).parameter
                    == pending[j].parameter && control_type_bits(
                    self.spec_event_rings()[0].pending_trbs()[pre_ev.len() + j].control,
                ) == trb_type_u32(TrbType::TransferEvent) by {
                    assert(events@[j].parameter == pending[j].parameter);
                }
                assert(events_extended_with_transfers(
                    pre_ev,
                    self.spec_event_rings()[0].pending_trbs(),
                    pending,
                ));
            }
            assert(Self::transfers_processed(*old(self), *self, slot_id, ep_id));
        }
    }

    /// Queue a command TRB onto the command ring, as the guest's
    /// doorbell path does after writing the TRB to ring memory.
    pub fn queue_command(&mut self, trb: Trb)
        ensures
            final(self).spec_cmd_ring().pending_trbs() == old(
                self,
            ).spec_cmd_ring().pending_trbs().push(trb),
            final(self).spec_cmd_ring().spec_base() == old(self).spec_cmd_ring().spec_base(),
            final(self).spec_cmd_ring().spec_size() == old(self).spec_cmd_ring().spec_size(),
            final(self).spec_cmd_ring().spec_enqueue() == old(self).spec_cmd_ring().spec_enqueue(),
            final(self).spec_cmd_ring().spec_cycle() == old(self).spec_cmd_ring().spec_cycle(),
            final(self).spec_cmd_ring().spec_state() == old(self).spec_cmd_ring().spec_state(),
            final(self).spec_state() == old(self).spec_state(),
            final(self).spec_cap_regs() == old(self).spec_cap_regs(),
            final(self).spec_op_regs() == old(self).spec_op_regs(),
            final(self).spec_rt_regs() == old(self).spec_rt_regs(),
            final(self).spec_doorbells() == old(self).spec_doorbells(),
            final(self).spec_slots() == old(self).spec_slots(),
            final(self).spec_event_rings() == old(self).spec_event_rings(),
            final(self).spec_addresses() == old(self).spec_addresses(),
            old(self).wf() ==> final(self).wf(),
    {
        self.cmd_ring.queue(trb);
    }

    /// The number of events pending on an interrupter's event ring; an
    /// out-of-range interrupter has none.
    pub fn pending_event_count(&self, interrupter: usize) -> (r: usize)
        ensures
            (interrupter as int) < self.spec_event_rings().len() ==> r
                == self.spec_event_rings()[interrupter as int].pending_trbs().len(),
            (interrupter as int) >= self.spec_event_rings().len() ==> r == 0,
    {
        if interrupter < self.event_rings.len() {
            self.event_rings[interrupter].pending_count()
        } else {
            0
        }
    }

    /// Consume the oldest pending event of an interrupter's event ring,
    /// as the guest does; nothing when the ring is empty or the
    /// interrupter out of range.
    pub fn pop_event(&mut self, interrupter: usize) -> (r: Option<Trb>)
        requires
            old(self).wf(),
        ensures
            final(self).wf(),
            final(self).spec_state() == old(self).spec_state(),
            final(self).spec_cap_regs() == old(self).spec_cap_regs(),
            final(self).spec_op_regs() == old(self).spec_op_regs(),
            final(self).spec_rt_regs() == old(self).spec_rt_regs(),
            final(self).spec_doorbells() == old(self).spec_doorbells(),
            final(self).spec_slots() == old(self).spec_slots(),
            final(self).spec_cmd_ring() == old(self).spec_cmd_ring(),
            final(self).spec_addresses() == old(self).spec_addresses(),
            final(self).spec_event_rings().len() == old(self).spec_event_rings().len(),
            (interrupter as int) >= old(self).spec_event_rings().len() ==> r is None && final(self).spec_event_rings() == old(self).spec_event_rings(),
            (interrupter as int) < old(self).spec_event_rings().len() ==> {
                let ev = old(self).spec_event_rings()[interrupter as int];
                &&& (ev.pending_trbs().len() == 0 ==> r is None)
                &&& (ev.pending_trbs().len() > 0 ==> r == Some(ev.pending_trbs()[0]) && final(self).spec_event_rings()[interrupter as int].pending_trbs() == ev.pending_trbs().skip(
                    1,
                ))
                &&& forall|k: int|
                    0 <= k < old(self).spec_event_rings().len() && k != interrupter as int
                        ==> final(self).spec_event_rings()[k] == old(self).spec_event_rings()[k]
            },
    {
        if interrupter >= self.event_rings.len() {
            return None;
        }
        let mut ev = self.event_rings.remove(interrupter);
        let r = ev.next();
        self.event_rings.insert(interrupter, ev);
        proof {
            assert forall|k: int|
                0 <= k < old(self).spec_event_rings().len() && k != interrupter as int implies self.event_rings@[k]
                == old(self).spec_event_rings()[k] by {
                assert(self.event_rings@[k] =~= old(self).spec_event_rings()[k]);
            }
        }
        r
    }

    /// The recorded state of a slot; nothing for an empty or out-of-range
    /// entry.
    pub fn slot_state(&self, slot_id: u8) -> (r: Option<SlotState>)
        ensures
            r == (if (slot_id as int) < self.spec_slots().len()
                && self.spec_slots()[slot_id as int] is Some {
                Some(self.spec_slots()[slot_id as int]->Some_0.spec_state())
            } else {
                None::<SlotState>
            }),
    {
        if (slot_id as usize) < self.slots.len() {
            match &self.slots[slot_id as usize] {
                Some(s) => Some(s.state()),
                None => None,
            }
        } else {
            None
        }
    }

    /// The device address recorded in a slot; nothing for an empty or
    /// out-of-range entry.
    pub fn slot_address(&self, slot_id: u8) -> (r: Option<u8>)
        ensures
            r == (if (slot_id as int) < self.spec_slots().len()
                && self.spec_slots()[slot_id as int] is Some {
                Some(self.spec_slots()[slot_id as int]->Some_0.spec_address())
            } else {
                None::<u8>
            }),
    {
        if (slot_id as usize) < self.slots.len() {
            match &self.slots[slot_id as usize] {
                Some(s) => Some(s.address()),
                None => None,
            }
        } else {
            None
        }
    }

    /// Install and initialize an endpoint transfer ring on a slot, as the
    /// guest's configure path does; empty or out-of-range slots are
    /// no-ops.
    pub fn init_slot_ep_ring(&mut self, slot_id: u8, ep_id: u8, base: u64, size: usize)
        requires
            old(self).wf(),
        ensures
            final(self).wf(),
            final(self).spec_state() == old(self).spec_state(),
            final(self).spec_cap_regs() == old(self).spec_cap_regs(),
            final(self).spec_op_regs() == old(self).spec_op_regs(),
            final(self).spec_rt_regs() == old(self).spec_rt_regs(),
            final(self).spec_doorbells() == old(self).spec_doorbells(),
            final(self).spec_cmd_ring() == old(self).spec_cmd_ring(),
            final(self).spec_event_rings() == old(self).spec_event_rings(),
            final(self).spec_addresses() == old(self).spec_addresses(),
            final(self).spec_slots().len() == old(self).spec_slots().len(),
            forall|j: int|
                0 <= j < old(self).spec_slots().len() && j != slot_id as int ==> final(self).spec_slots()[j] == old(self).spec_slots()[j],
            ((slot_id as int) < old(self).spec_slots().len() && old(self).spec_slots()[slot_id as int] is Some) ==> {
                let s0 = old(self).spec_slots()[slot_id as int]->Some_0;
                let s1 = final(self).spec_slots()[slot_id as int]->Some_0;
                &&& final(self).spec_slots()[slot_id as int] is Some
                &&& s1.spec_slot_id() == s0.spec_slot_id()
                &&& s1.spec_context() == s0.spec_context()
                &&& s1.has_device() == s0.has_device()
                &&& s1.spec_rings().len() == s0.spec_rings().len()
                &&& (((ep_id as int) < s0.spec_rings().len() && base != 0 && size != 0) ==> {
                    &&& s1.spec_rings()[ep_id as int] is Some
                    &&& s1.spec_rings()[ep_id as int]->Some_0.spec_base() == base
                    &&& s1.spec_rings()[ep_id as int]->Some_0.spec_size() == size
                    &&& s1.spec_rings()[ep_id as int]->Some_0.spec_enqueue() == base
                    &&& s1.spec_rings()[ep_id as int]->Some_0.spec_dequeue() == base
                    &&& s1.spec_rings()[ep_id as int]->Some_0.spec_pcs() == true
                    &&& s1.spec_rings()[ep_id as int]->Some_0.spec_ccs() == true
                    &&& s1.spec_rings()[ep_id as int]->Some_0.pending_trbs() == Seq::<
                        Trb,
                    >::empty()
                })
                &&& (!((ep_id as int) < s0.spec_rings().len() && base != 0 && size != 0)
                    ==> s1.spec_rings() == s0.spec_rings())
            },
            !((slot_id as int) < old(self).spec_slots().len() && old(self).spec_slots()[slot_id as int] is Some) ==> final(self).spec_slots() == old(self).spec_slots(),
    {
        if (slot_id as usize) >= self.slots.len() {
            return ;
        }
        let i = slot_id as usize;
        let entry = self.slots.remove(i);
        match entry {
            Some(mut slot) => {
                slot.init_ep_ring(ep_id, base, size);
                self.slots.insert(i, Some(slot));
                proof {
                    assert forall|j: int|
                        0 <= j < old(self).slots@.len() && j != i as int implies self.slots@[j]
                        == old(self).slots@[j] by {
                        assert(self.slots@[j] =~= old(self).slots@[j]);
                    }
                }
            },
            None => {
                self.slots.insert(i, None);
                proof {
                    assert(self.slots@ =~= old(self).slots@);
                }
            },
        }
    }

    /// Queue a transfer TRB onto a slot endpoint's ring, as the guest's
    /// doorbell path does after writing the TRB to ring memory; a missing
    /// slot or ring is a no-op.
    pub fn queue_transfer(&mut self, slot_id: u8, ep_id: u8, trb: Trb)
        requires
            old(self).wf(),
        ensures
            final(self).wf(),
            final(self).spec_state() == old(self).spec_state(),
            final(self).spec_cap_regs() == old(self).spec_cap_regs(),
            final(self).spec_op_regs() == old(self).spec_op_regs(),
            final(self).spec_rt_regs() == old(self).spec_rt_regs(),
            final(self).spec_doorbells() == old(self).spec_doorbells(),
            final(self).spec_cmd_ring() == old(self).spec_cmd_ring(),
            final(self).spec_event_rings() == old(self).spec_event_rings(),
            final(self).spec_addresses() == old(self).spec_addresses(),
            final(self).spec_slots().len() == old(self).spec_slots().len(),
            forall|j: int|
                0 <= j < old(self).spec_slots().len() && j != slot_id as int ==> final(self).spec_slots()[j] == old(self).spec_slots()[j],
            ((slot_id as int) < old(self).spec_slots().len() && old(self).spec_slots()[slot_id as int] is Some) ==> {
                let s0 = old(self).spec_slots()[slot_id as int]->Some_0;
                let s1 = final(self).spec_slots()[slot_id as int]->Some_0;
                &&& final(self).spec_slots()[slot_id as int] is Some
                &&& s1.spec_slot_id() == s0.spec_slot_id()
                &&& s1.spec_context() == s0.spec_context()
                &&& s1.has_device() == s0.has_device()
                &&& s1.spec_rings().len() == s0.spec_rings().len()
                &&& (((ep_id as int) < s0.spec_rings().len()
                    && s0.spec_rings()[ep_id as int] is Some) ==> {
                    &&& s1.spec_rings()[ep_id as int] is Some
                    &&& s1.spec_rings()[ep_id as int]->Some_0.pending_trbs()
                        == s0.spec_rings()[ep_id as int]->Some_0.pending_trbs().push(trb)
                    &&& forall|k: int|
                        0 <= k < s0.spec_rings().len() && k != ep_id as int
                            ==> s1.spec_rings()[k] == s0.spec_rings()[k]
                })
                &&& (!((ep_id as int) < s0.spec_rings().len()
                    && s0.spec_rings()[ep_id as int] is Some) ==> s1.spec_rings()
                    == s0.spec_rings())
            },
            !((slot_id as int) < old(self).spec_slots().len() && old(self).spec_slots()[slot_id as int] is Some) ==> final(self).spec_slots() == old(self).spec_slots(),
    {
        if (slot_id as usize) >= self.slots.len() {
            return ;
        }
        let i = slot_id as usize;
        let entry = self.slots.remove(i);
        match entry {
            Some(mut slot) => {
                slot.queue_transfer(ep_id, trb);
                self.slots.insert(i, Some(slot));
                proof {
                    assert forall|j: int|
                        0 <= j < old(self).slots@.len() && j != i as int implies self.slots@[j]
                        == old(self).slots@[j] by {
                        assert(self.slots@[j] =~= old(self).slots@[j]);
                    }
                }
            },
            None => {
                self.slots.insert(i, None);
                proof {
                    assert(self.slots@ =~= old(self).slots@);
                }
            },
        }
    }

    /// Ring a doorbell: slot 0 drains the command ring and posts one
    /// CommandCompletion per consumed command to interrupter 0; slot 1 and
    /// up drain that slot's transfer ring for the endpoint named by
    /// `target`. The doorbell register stores the target; an out-of-range
    /// slot id is a no-op.
    pub fn ring_doorbell(&mut self, slot_id: u8, target: u8)
        requires
            old(self).wf(),
        ensures
            final(self).wf(),
            final(self).spec_state() == old(self).spec_state(),
            final(self).spec_cap_regs() == old(self).spec_cap_regs(),
            final(self).spec_op_regs() == old(self).spec_op_regs(),
            final(self).spec_rt_regs() == old(self).spec_rt_regs(),
            (slot_id as int) >= old(self).spec_doorbells().len() ==> *final(self) == *old(self),
            (slot_id as int) < old(self).spec_doorbells().len() ==> {
                &&& final(self).spec_doorbells() == old(self).spec_doorbells().update(
                    slot_id as int,
                    (DoorbellRegister { target }),
                )
                &&& (slot_id == 0 ==> Self::commands_processed(*old(self), *final(self)))
                &&& (slot_id != 0 ==> Self::transfers_processed(
                    *old(self),
                    *final(self),
                    slot_id,
                    target,
                ))
            },
    {
        if slot_id as usize >= self.doorbells.len() {
            return ;
        }

        // Store the doorbell value
        let i = slot_id as usize;
        self.doorbells.remove(i);
        self.doorbells.insert(i, DoorbellRegister::new(target));
        proof {
            assert(self.doorbells@ =~= old(self).doorbells@.update(
                i as int,
                (DoorbellRegister { target }),
            ));
        }

        if slot_id == 0 {
            // Command ring doorbell
            let ghost mid = *self;
            self.process_command_ring();
            proof {
                if old(self).spec_state() == XhciState::Running {
                    Self::lemma_dispatched_frame(
                        mid,
                        *old(self),
                        *self,
                        *self,
                        mid.spec_cmd_ring().pending_trbs(),
                        self.spec_event_rings()[0].pending_trbs().skip(
                            mid.spec_event_rings()[0].pending_trbs().len() as int,
                        ),
                    );
                }
                assert(Self::commands_processed(*old(self), *self));
            }
        } else {
            // Transfer ring doorbell for a device slot
            self.process_transfer(slot_id, target);
        }
    }
}


impl<D: UsbDevice> Default for XhciController<D> {
    /// A default controller is a fresh one.
    fn default() -> (r: Self)
        ensures
            r.wf(),
            r.spec_state() == XhciState::Halted,
    {
        Self::new()
    }
}

} // verus!
