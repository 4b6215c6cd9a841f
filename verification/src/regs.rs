//! xHCI register banks: capability (immutable machine description),
//! operational (command/status/port registers), runtime (per-interrupter
//! registers) and doorbell registers.

use vstd::prelude::*;

use crate::controller::XhciState;

verus! {

// ============================================================================
// Capability Registers
// ============================================================================

/// HCSPARAMS1: structural parameters 1, packing slot, interrupter and port
/// counts.
#[derive(Debug, Clone, Copy)]
struct HcsParams1(u32);

impl HcsParams1 {
    fn new(max_slots: u8, max_intrs: u8, max_ports: u8) -> (r: Self)
        ensures
            r.0 == (max_slots as u32) | ((max_intrs as u32) << 8) | ((max_ports as u32) << 24),
    {
        Self((max_slots as u32) | ((max_intrs as u32) << 8) | ((max_ports as u32) << 24))
    }

    /// MaxSlots (bits 0-7).
    fn max_slots(&self) -> (r: u8)
        ensures
            r == self.0 & 0xFF,
    {
        proof {
            let v = self.0;
            assert(v & 0xFF < 0x100) by (bit_vector);
        }
        (self.0 & 0xFF) as u8
    }

    /// MaxIntrs (bits 8-18).
    fn max_intrs(&self) -> (r: u16)
        ensures
            r == (self.0 >> 8) & 0x7FF,
    {
        proof {
            let v = self.0;
            assert((v >> 8) & 0x7FF < 0x10000) by (bit_vector);
        }
        ((self.0 >> 8) & 0x7FF) as u16
    }

    /// MaxPorts (bits 24-31).
    fn max_ports(&self) -> (r: u8)
        ensures
            r == (self.0 >> 24) & 0xFF,
    {
        proof {
            let v = self.0;
            assert((v >> 24) & 0xFF < 0x100) by (bit_vector);
        }
        ((self.0 >> 24) & 0xFF) as u8
    }
}

/// HCSPARAMS2: structural parameters 2.
#[derive(Debug, Clone, Copy)]
struct HcsParams2(u32);

impl HcsParams2 {
    /// IST: isochronous scheduling threshold (bits 0-3).
    fn ist(&self) -> (r: u8)
        ensures
            r == self.0 & 0xF,
    {
        proof {
            let v = self.0;
            assert(v & 0xF < 0x100) by (bit_vector);
        }
        (self.0 & 0xF) as u8
    }

    /// ERST Max: event ring segment table max (bits 4-8).
    fn erst_max(&self) -> (r: u8)
        ensures
            r == (self.0 >> 4) & 0x1F,
    {
        proof {
            let v = self.0;
            assert((v >> 4) & 0x1F < 0x100) by (bit_vector);
        }
        ((self.0 >> 4) & 0x1F) as u8
    }

    /// SPB: scratchpad buffer support (bit 13).
    fn spb(&self) -> (r: bool)
        ensures
            r == ((self.0 >> 13) & 1 != 0),
    {
        (self.0 >> 13) & 1 != 0
    }

    /// Max scratchpad buffers (bits 21-25).
    fn max_scratchpad_bufs(&self) -> (r: u8)
        ensures
            r == (self.0 >> 21) & 0x1F,
    {
        proof {
            let v = self.0;
            assert((v >> 21) & 0x1F < 0x100) by (bit_vector);
        }
        ((self.0 >> 21) & 0x1F) as u8
    }
}

/// HCSPARAMS3: structural parameters 3.
#[derive(Debug, Clone, Copy)]
struct HcsParams3(u32);

/// HCCPARAMS1: capability parameters 1.
#[derive(Debug, Clone, Copy)]
struct HccParams1(u32);

impl HccParams1 {
    /// AC64: 64-bit addressing capability (bit 0).
    fn ac64(&self) -> (r: bool)
        ensures
            r == (self.0 & 1 != 0),
    {
        self.0 & 1 != 0
    }

    /// BNC: bandwidth negotiation capability (bit 1).
    fn bnc(&self) -> (r: bool)
        ensures
            r == ((self.0 >> 1) & 1 != 0),
    {
        (self.0 >> 1) & 1 != 0
    }

    /// CSZ: context size (bit 2).
    fn csz(&self) -> (r: bool)
        ensures
            r == ((self.0 >> 2) & 1 != 0),
    {
        (self.0 >> 2) & 1 != 0
    }

    /// PPC: port power control (bit 3).
    fn ppc(&self) -> (r: bool)
        ensures
            r == ((self.0 >> 3) & 1 != 0),
    {
        (self.0 >> 3) & 1 != 0
    }

    /// PIND: port indicators (bit 4).
    fn pind(&self) -> (r: bool)
        ensures
            r == ((self.0 >> 4) & 1 != 0),
    {
        (self.0 >> 4) & 1 != 0
    }

    /// LHRC: light HC reset capability (bit 5).
    fn lhrc(&self) -> (r: bool)
        ensures
            r == ((self.0 >> 5) & 1 != 0),
    {
        (self.0 >> 5) & 1 != 0
    }

    /// SEC: stopped-EDTLA capability (bit 6).
    fn sec(&self) -> (r: bool)
        ensures
            r == ((self.0 >> 6) & 1 != 0),
    {
        (self.0 >> 6) & 1 != 0
    }

    /// CFC: contiguous frame id capability (bit 7).
    fn cfc(&self) -> (r: bool)
        ensures
            r == ((self.0 >> 7) & 1 != 0),
    {
        (self.0 >> 7) & 1 != 0
    }
}

/// xHCI capability registers: an immutable machine description built once
/// from the slot, interrupter and port counts; writes are ignored.
#[derive(Debug, Clone)]
pub struct CapabilityRegisters {
    /// HCIVERSION: interface version number (offset 0x00)
    hciversion: u16,
    /// HCSPARAMS1: structural parameters 1 (offset 0x04)
    hcsparams1: HcsParams1,
    /// HCSPARAMS2: structural parameters 2 (offset 0x08)
    hcsparams2: HcsParams2,
    /// HCSPARAMS3: structural parameters 3 (offset 0x0C)
    hcsparams3: HcsParams3,
    /// HCCPARAMS1: capability parameters 1 (offset 0x10)
    hccparams1: HccParams1,
    /// DBOFF: doorbell offset (offset 0x14)
    dboff: u32,
    /// RTSOFF: runtime registers offset (offset 0x18)
    rtsoff: u32,
    /// HCCPARAMS2: capability parameters 2 (offset 0x1C)
    hccparams2: u32,
}

impl CapabilityRegisters {
    /// The interface version number.
    pub closed spec fn spec_hciversion(&self) -> u16 {
        self.hciversion
    }

    /// The packed HCSPARAMS1 word.
    pub closed spec fn spec_hcsparams1(&self) -> u32 {
        self.hcsparams1.0
    }

    /// The packed HCSPARAMS2 word.
    pub closed spec fn spec_hcsparams2(&self) -> u32 {
        self.hcsparams2.0
    }

    /// The packed HCSPARAMS3 word.
    pub closed spec fn spec_hcsparams3(&self) -> u32 {
        self.hcsparams3.0
    }

    /// The packed HCCPARAMS1 word.
    pub closed spec fn spec_hccparams1(&self) -> u32 {
        self.hccparams1.0
    }

    /// The doorbell offset.
    pub closed spec fn spec_dboff(&self) -> u32 {
        self.dboff
    }

    /// The runtime registers offset.
    pub closed spec fn spec_rtsoff(&self) -> u32 {
        self.rtsoff
    }

    /// The packed HCCPARAMS2 word.
    pub closed spec fn spec_hccparams2(&self) -> u32 {
        self.hccparams2
    }

    /// Create capability registers for a controller with the given slot,
    /// interrupter and port counts.
    pub fn new(max_slots: u8, max_intrs: u8, max_ports: u8) -> (r: Self)
        ensures
            r.spec_hciversion() == crate::controller::XHCI_VERSION,
            r.spec_hcsparams1() == (max_slots as u32) | ((max_intrs as u32) << 8) | ((
            max_ports as u32) << 24),
            r.spec_hcsparams2() == 0,
            r.spec_hcsparams3() == 0,
            r.spec_hccparams1() == 0,
            r.spec_dboff() == 0x1000,
            r.spec_rtsoff() == 0x2000,
            r.spec_hccparams2() == 0,
    {
        Self {
            hciversion: crate::controller::XHCI_VERSION,
            hcsparams1: HcsParams1::new(max_slots, max_intrs, max_ports),
            hcsparams2: HcsParams2(0),
            hcsparams3: HcsParams3(0),
            hccparams1: HccParams1(0),
            dboff: 0x1000,  // Doorbell registers start at 4KB offset
            rtsoff: 0x2000,  // Runtime registers start at 8KB offset
            hccparams2: 0,
        }
    }

    /// Get the interface version.
    pub fn hciversion(&self) -> (r: u16)
        ensures
            r == self.spec_hciversion(),
    {
        self.hciversion
    }

    /// Get structural parameters 1.
    pub fn hcsparams1(&self) -> (r: u32)
        ensures
            r == self.spec_hcsparams1(),
    {
        self.hcsparams1.0
    }

    /// Get structural parameters 2.
    pub fn hcsparams2(&self) -> (r: u32)
        ensures
            r == self.spec_hcsparams2(),
    {
        self.hcsparams2.0
    }

    /// Get structural parameters 3.
    pub fn hcsparams3(&self) -> (r: u32)
        ensures
            r == self.spec_hcsparams3(),
    {
        self.hcsparams3.0
    }

    /// Get capability parameters 1.
    pub fn hccparams1(&self) -> (r: u32)
        ensures
            r == self.spec_hccparams1(),
    {
        self.hccparams1.0
    }

    /// Get the doorbell offset.
    pub fn dboff(&self) -> (r: u32)
        ensures
            r == self.spec_dboff(),
    {
        self.dboff
    }

    /// Get the runtime registers offset.
    pub fn rtsoff(&self) -> (r: u32)
        ensures
            r == self.spec_rtsoff(),
    {
        self.rtsoff
    }

    /// Read the register at a byte offset; unknown offsets read 0.
    pub fn read(&self, offset: u64) -> (r: u32)
        ensures
            r == spec_cap_read(*self, offset),
    {
        if offset == 0x00 {
            self.hciversion as u32
        } else if offset == 0x02 {
            (self.hciversion >> 8) as u32 | ((self.hciversion as u32) << 16)
        } else if offset == 0x04 {
            self.hcsparams1.0
        } else if offset == 0x08 {
            self.hcsparams2.0
        } else if offset == 0x0C {
            self.hcsparams3.0
        } else if offset == 0x10 {
            self.hccparams1.0
        } else if offset == 0x14 {
            self.dboff
        } else if offset == 0x18 {
            self.rtsoff
        } else if offset == 0x1C {
            self.hccparams2
        } else {
            0
        }
    }
}

/// What a capability-register read at a byte offset returns; unknown
/// offsets read 0.
pub open spec fn spec_cap_read(regs: CapabilityRegisters, offset: u64) -> u32 {
    if offset == 0x00 {
        regs.spec_hciversion() as u32
    } else if offset == 0x02 {
        (regs.spec_hciversion() >> 8) as u32 | ((regs.spec_hciversion() as u32) << 16)
    } else if offset == 0x04 {
        regs.spec_hcsparams1()
    } else if offset == 0x08 {
        regs.spec_hcsparams2()
    } else if offset == 0x0C {
        regs.spec_hcsparams3()
    } else if offset == 0x10 {
        regs.spec_hccparams1()
    } else if offset == 0x14 {
        regs.spec_dboff()
    } else if offset == 0x18 {
        regs.spec_rtsoff()
    } else if offset == 0x1C {
        regs.spec_hccparams2()
    } else {
        0
    }
}

// ============================================================================
// Operational Registers
// ============================================================================

/// USBCMD: Run/Stop
pub const USBCMD_RS: u32 = 1;

/// USBCMD: Host Controller Reset
pub const USBCMD_HCRST: u32 = 2;

/// USBCMD: Interrupter Enable
pub const USBCMD_INTE: u32 = 4;

/// USBCMD: Host System Error Enable
pub const USBCMD_HSEE: u32 = 8;

/// USBCMD: Light Host Controller Reset
pub const USBCMD_LHCRST: u32 = 0x80;

/// USBCMD: Controller Save State
pub const USBCMD_CSS: u32 = 0x100;

/// USBCMD: Controller Restore State
pub const USBCMD_CRS: u32 = 0x200;

/// USBCMD: Enable Wrap Event
pub const USBCMD_EWE: u32 = 0x400;

/// USBSTS: HCHalted
pub const USBSTS_HCH: u32 = 1;

/// USBSTS: Host System Error
pub const USBSTS_HSE: u32 = 4;

/// USBSTS: Event Interrupt
pub const USBSTS_EINT: u32 = 8;

/// USBSTS: Port Change Detected
pub const USBSTS_PCD: u32 = 0x10;

/// USBSTS: Save State Status
pub const USBSTS_SSS: u32 = 0x100;

/// USBSTS: Restore State Status
pub const USBSTS_RSS: u32 = 0x200;

/// USBSTS: Save/Restore Error
pub const USBSTS_SRE: u32 = 0x400;

/// USBSTS: Controller Not Ready
pub const USBSTS_CNR: u32 = 0x800;

/// USBSTS: Host Controller Error
pub const USBSTS_HCE: u32 = 0x1000;

/// PORTSC: Current Connect Status
pub const PORTSC_CCS: u32 = 1;

/// PORTSC: Port Enable/Disable
pub const PORTSC_PED: u32 = 2;

/// PORTSC: Over-current Active
pub const PORTSC_OCA: u32 = 8;

/// PORTSC: Port Reset
pub const PORTSC_PR: u32 = 0x10;

/// PORTSC: Port Link State mask
pub const PORTSC_PLS_MASK: u32 = 0x1E0;

/// PORTSC: Port Power
pub const PORTSC_PP: u32 = 0x200;

/// PORTSC: Port Speed mask
pub const PORTSC_SPEED_MASK: u32 = 0x3C00;

/// PORTSC: Port Link State Write Strobe
pub const PORTSC_LWS: u32 = 0x10000;

/// PORTSC: Connect Status Change
pub const PORTSC_CSC: u32 = 0x20000;

/// PORTSC: Port Enable/Disable Change
pub const PORTSC_PEC: u32 = 0x40000;

/// PORTSC: Warm Port Reset Change
pub const PORTSC_WRC: u32 = 0x80000;

/// PORTSC: Over-current Change
pub const PORTSC_OCC: u32 = 0x100000;

/// PORTSC: Port Reset Change
pub const PORTSC_PRC: u32 = 0x200000;

/// PORTSC: Port Link State Change
pub const PORTSC_PLC: u32 = 0x400000;

/// PORTSC: Port Config Error Change
pub const PORTSC_CEC: u32 = 0x800000;

/// PORTSC: Warm Port Reset
pub const PORTSC_WPR: u32 = 0x80000000;

/// Port status and control register set: one per root-hub port.
#[derive(Debug)]
pub struct PortRegister {
    /// PORTSC: port status and control (offset 0x00)
    pub portsc: u32,
    /// PORTPMSC: port power management status and control (offset 0x04)
    pub portpmsc: u32,
    /// PORTLI: port link info (offset 0x08)
    pub portli: u32,
    /// Reserved word (offset 0x0C)
    pub reserved: u32,
}

impl Default for PortRegister {
    /// A default port register set reads all zero.
    fn default() -> (r: Self)
        ensures
            r == (PortRegister { portsc: 0, portpmsc: 0, portli: 0, reserved: 0 }),
    {
        PortRegister { portsc: 0, portpmsc: 0, portli: 0, reserved: 0 }
    }
}

/// What a port-register read at a byte offset returns; unknown offsets
/// read 0.
pub open spec fn spec_port_read(p: PortRegister, offset: u64) -> u32 {
    if offset == 0x00 {
        p.portsc
    } else if offset == 0x04 {
        p.portpmsc
    } else if offset == 0x08 {
        p.portli
    } else {
        0
    }
}

/// The PORTSC word after a guest write: writing 1 clears the
/// status-change bits, and only the plain read/write bits take the
/// written value; all other bits are untouched.
pub open spec fn spec_portsc_after_write(portsc: u32, value: u32) -> u32 {
    (portsc & !(value & (PORTSC_CSC | PORTSC_PEC | PORTSC_WRC | PORTSC_OCC | PORTSC_PRC
        | PORTSC_PLC | PORTSC_CEC))) | (value & (PORTSC_PED | PORTSC_PR | PORTSC_PLS_MASK
        | PORTSC_LWS | PORTSC_PP | PORTSC_WPR))
}

/// A port register set after a guest write at a byte offset; unknown
/// offsets are no-ops.
pub open spec fn spec_port_after_write(p: PortRegister, offset: u64, value: u32) -> PortRegister {
    if offset == 0x00 {
        PortRegister { portsc: spec_portsc_after_write(p.portsc, value), ..p }
    } else if offset == 0x04 {
        PortRegister { portpmsc: value, ..p }
    } else if offset == 0x08 {
        PortRegister { portli: value, ..p }
    } else {
        p
    }
}

/// The PORTSC word after the connection state changes: connecting turns on
/// connect status, port power and a full-speed report; disconnecting clears
/// connect status; either way the connect-status-change bit is raised.
pub open spec fn spec_portsc_connected(portsc: u32, connected: bool) -> u32 {
    (if connected {
        portsc | PORTSC_CCS | PORTSC_CSC | PORTSC_PP | 0x1000u32
    } else {
        portsc & !PORTSC_CCS
    }) | PORTSC_CSC
}

impl PortRegister {
    /// Read the register at a byte offset; unknown offsets read 0.
    pub fn read(&self, offset: u64) -> (r: u32)
        ensures
            r == spec_port_read(*self, offset),
    {
        if offset == 0x00 {
            self.portsc
        } else if offset == 0x04 {
            self.portpmsc
        } else if offset == 0x08 {
            self.portli
        } else {
            0
        }
    }

    /// Write the register at a byte offset; PORTSC change bits are
    /// write-1-to-clear; unknown offsets are no-ops.
    pub fn write(&mut self, offset: u64, value: u32)
        ensures
            *final(self) == spec_port_after_write(*old(self), offset, value),
    {
        if offset == 0x00 {
            let clear_mask = value & (PORTSC_CSC | PORTSC_PEC | PORTSC_WRC | PORTSC_OCC
                | PORTSC_PRC | PORTSC_PLC | PORTSC_CEC);
            self.portsc = (self.portsc & !clear_mask) | (value & (PORTSC_PED | PORTSC_PR
                | PORTSC_PLS_MASK | PORTSC_LWS | PORTSC_PP | PORTSC_WPR));
        } else if offset == 0x04 {
            self.portpmsc = value;
        } else if offset == 0x08 {
            self.portli = value;
        }
    }

    /// Record a device connection or disconnection in PORTSC, raising the
    /// connect-status-change bit.
    pub fn set_connected(&mut self, connected: bool)
        ensures
            final(self).portsc == spec_portsc_connected(old(self).portsc, connected),
            final(self).portpmsc == old(self).portpmsc,
            final(self).portli == old(self).portli,
            final(self).reserved == old(self).reserved,
    {
        let current = self.portsc;
        let new_val = if connected {
            // Connected, power on, full speed
            current | PORTSC_CCS | PORTSC_CSC | PORTSC_PP | 0x1000u32
        } else {
            current & !PORTSC_CCS
        };
        self.portsc = new_val | PORTSC_CSC;
    }
}

/// xHCI operational registers: guest-writable command, status and port
/// state.
#[derive(Debug)]
pub struct OperationalRegisters {
    /// USBCMD: USB command register (offset 0x00)
    usbcmd: u32,
    /// USBSTS: USB status register (offset 0x04)
    usbsts: u32,
    /// PAGESIZE register (offset 0x08)
    pgsz: u32,
    /// DNCTRL: device notification control (offset 0x0C)
    dnctrl: u32,
    /// CRCR: command ring control register (offset 0x10)
    crcr: u32,
    /// DCBAAP: device context base address array pointer (offset 0x30)
    dcbaap: u32,
    /// CONFIG register (offset 0x38)
    config: u32,
    /// Port status and control registers (offset 0x400 and up)
    ports: Vec<PortRegister>,
}

impl OperationalRegisters {
    /// The USBCMD word.
    pub closed spec fn spec_usbcmd(&self) -> u32 {
        self.usbcmd
    }

    /// The USBSTS word.
    pub closed spec fn spec_usbsts(&self) -> u32 {
        self.usbsts
    }

    /// The PAGESIZE word.
    pub closed spec fn spec_pgsz(&self) -> u32 {
        self.pgsz
    }

    /// The DNCTRL word.
    pub closed spec fn spec_dnctrl(&self) -> u32 {
        self.dnctrl
    }

    /// The CRCR word.
    pub closed spec fn spec_crcr(&self) -> u32 {
        self.crcr
    }

    /// The DCBAAP word.
    pub closed spec fn spec_dcbaap(&self) -> u32 {
        self.dcbaap
    }

    /// The CONFIG word.
    pub closed spec fn spec_config(&self) -> u32 {
        self.config
    }

    /// The port register sets.
    pub closed spec fn spec_ports(&self) -> Seq<PortRegister> {
        self.ports@
    }

    /// Create operational registers in the halted reset state, with one
    /// port register set per root-hub port.
    pub fn new() -> (r: Self)
        ensures
            r.spec_usbcmd() == 0,
            r.spec_usbsts() == USBSTS_HCH,
            r.spec_pgsz() == 0x1000,
            r.spec_dnctrl() == 0,
            r.spec_crcr() == 0,
            r.spec_dcbaap() == 0,
            r.spec_config() == 0,
            r.spec_ports().len() == crate::controller::XHCI_MAX_PORTS as int,
            forall|i: int|
                0 <= i < r.spec_ports().len() ==> r.spec_ports()[i] == (PortRegister {
                    portsc: 0,
                    portpmsc: 0,
                    portli: 0,
                    reserved: 0,
                }),
    {
        let mut ports: Vec<PortRegister> = Vec::new();
        let mut i: u8 = 0;
        while i < crate::controller::XHCI_MAX_PORTS
            invariant
                i <= crate::controller::XHCI_MAX_PORTS,
                ports@.len() == i as int,
                forall|j: int|
                    0 <= j < ports@.len() ==> ports@[j] == (PortRegister {
                        portsc: 0,
                        portpmsc: 0,
                        portli: 0,
                        reserved: 0,
                    }),
            decreases crate::controller::XHCI_MAX_PORTS - i,
        {
            ports.push(PortRegister::default());
            i = i + 1;
        }
        Self {
            usbcmd: 0,
            usbsts: USBSTS_HCH,  // Controller halted
            pgsz: 0x1000,  // 4KB page size
            dnctrl: 0,
            crcr: 0,
            dcbaap: 0,
            config: 0,
            ports,
        }
    }

    /// Read the register at a byte offset; unknown or out-of-range offsets
    /// read 0.
    pub fn read(&self, offset: u64) -> (r: u32)
        ensures
            r == spec_op_read(*self, offset),
    {
        if offset == 0x00 {
            self.usbcmd
        } else if offset == 0x04 {
            self.usbsts
        } else if offset == 0x08 {
            self.pgsz
        } else if offset == 0x0C {
            self.dnctrl
        } else if 0x10 <= offset && offset <= 0x17 {
            self.crcr
        } else if 0x30 <= offset && offset <= 0x37 {
            self.dcbaap
        } else if offset == 0x38 {
            self.config
        } else if offset >= 0x400 {
            let port_idx = (offset - 0x400) / 0x10;
            let port_offset = (offset - 0x400) % 0x10;
            if port_idx < self.ports.len() as u64 {
                self.ports[port_idx as usize].read(port_offset)
            } else {
                0
            }
        } else {
            0
        }
    }

    /// Write the register at a byte offset. USBCMD writes drive the
    /// controller state machine; USBSTS change bits are write-1-to-clear;
    /// CRCR writes replace only the low byte; unknown or out-of-range
    /// offsets are no-ops.
    pub fn write(&mut self, offset: u64, value: u32, state: &mut XhciState)
        ensures
            offset == 0x00 ==> spec_usbcmd_written(*old(self), value, *final(self)) && *final(state)
                == spec_usbcmd_state(*old(self), value, *old(state)),
            offset != 0x00 ==> *final(state) == *old(state) && final(self).spec_usbcmd() == old(
                self,
            ).spec_usbcmd() && final(self).spec_usbsts() == spec_op_written_usbsts(
                *old(self),
                offset,
                value,
            ) && final(self).spec_dnctrl() == (if offset == 0x0C {
                value
            } else {
                old(self).spec_dnctrl()
            }) && final(self).spec_crcr() == (if 0x10 <= offset && offset <= 0x17 {
                (old(self).spec_crcr() & !0xFFu32) | (value & 0xFF)
            } else {
                old(self).spec_crcr()
            }) && final(self).spec_dcbaap() == (if 0x30 <= offset && offset <= 0x37 {
                value
            } else {
                old(self).spec_dcbaap()
            }) && final(self).spec_config() == (if offset == 0x38 {
                value
            } else {
                old(self).spec_config()
            }) && final(self).spec_ports() == spec_op_written_ports(*old(self), offset, value),
            final(self).spec_pgsz() == old(self).spec_pgsz(),
            final(self).spec_ports().len() == old(self).spec_ports().len(),
    {
        if offset == 0x00 {
            // USBCMD
            self.handle_usbcmd(value, state);
        } else if offset == 0x04 {
            // USBSTS - write 1 to clear
            let clear_bits = value & (USBSTS_EINT | USBSTS_PCD | USBSTS_SRE | USBSTS_HCE);
            self.usbsts = self.usbsts & !clear_bits;
        } else if offset == 0x0C {
            self.dnctrl = value;
        } else if 0x10 <= offset && offset <= 0x17 {
            // Only update low bits, preserve high address bits
            self.crcr = (self.crcr & !0xFFu32) | (value & 0xFF);
        } else if 0x30 <= offset && offset <= 0x37 {
            self.dcbaap = value;
        } else if offset == 0x38 {
            self.config = value;
        } else if offset >= 0x400 {
            let port_idx = (offset - 0x400) / 0x10;
            let port_offset = (offset - 0x400) % 0x10;
            if port_idx < self.ports.len() as u64 {
                let i = port_idx as usize;
                let mut port = self.ports.remove(i);
                port.write(port_offset, value);
                self.ports.insert(i, port);
                proof {
                    assert(self.ports@ =~= old(self).ports@.update(
                        i as int,
                        spec_port_after_write(old(self).ports@[i as int], port_offset, value),
                    ));
                }
            }
        }
    }

    /// Apply a USBCMD write. A host-controller-reset bit clears CRCR and
    /// DCBAAP, reports halted-and-not-ready status and leaves USBCMD
    /// itself unchanged; otherwise a toggled run/stop bit switches the
    /// controller between Running and Halted and updates the status word,
    /// and USBCMD takes the written value.
    fn handle_usbcmd(&mut self, value: u32, state: &mut XhciState)
        ensures
            spec_usbcmd_written(*old(self), value, *final(self)),
            *final(state) == spec_usbcmd_state(*old(self), value, *old(state)),
    {
        let current = self.usbcmd;

        // Host Controller Reset
        if value & USBCMD_HCRST != 0 {
            *state = XhciState::Reset;
            // Reset internal state
            self.usbsts = USBSTS_HCH | USBSTS_CNR;
            self.crcr = 0;
            self.dcbaap = 0;
            *state = XhciState::Halted;
            return ;
        }
        // Run/Stop
        if (value ^ current) & USBCMD_RS != 0 {
            if value & USBCMD_RS != 0 {
                // Start controller
                *state = XhciState::Running;
                self.usbsts = USBSTS_CNR;
            } else {
                // Stop controller
                *state = XhciState::Halted;
                self.usbsts = USBSTS_HCH;
            }
        }
        self.usbcmd = value;
    }

    /// Record a device connection or disconnection on a port; out-of-range
    /// ports are no-ops.
    pub fn set_port_connected(&mut self, port: u8, connected: bool)
        ensures
            (port as int) < old(self).spec_ports().len() ==> final(self).spec_ports() == old(
                self,
            ).spec_ports().update(
                port as int,
                (PortRegister {
                    portsc: spec_portsc_connected(old(self).spec_ports()[port as int].portsc, connected),
                    ..old(self).spec_ports()[port as int]
                }),
            ),
            (port as int) >= old(self).spec_ports().len() ==> final(self).spec_ports() == old(
                self,
            ).spec_ports(),
            final(self).spec_usbcmd() == old(self).spec_usbcmd(),
            final(self).spec_usbsts() == old(self).spec_usbsts(),
            final(self).spec_pgsz() == old(self).spec_pgsz(),
            final(self).spec_dnctrl() == old(self).spec_dnctrl(),
            final(self).spec_crcr() == old(self).spec_crcr(),
            final(self).spec_dcbaap() == old(self).spec_dcbaap(),
            final(self).spec_config() == old(self).spec_config(),
    {
        if (port as usize) < self.ports.len() {
            let i = port as usize;
            let mut p = self.ports.remove(i);
            p.set_connected(connected);
            self.ports.insert(i, p);
            proof {
                assert(self.ports@ =~= old(self).ports@.update(
                    i as int,
                    (PortRegister {
                        portsc: spec_portsc_connected(old(self).ports@[i as int].portsc, connected),
                        ..old(self).ports@[i as int]
                    }),
                ));
            }
        }
    }

    /// Check whether the run/stop bit is set.
    pub fn is_running(&self) -> (r: bool)
        ensures
            r == (self.spec_usbcmd() & USBCMD_RS != 0),
    {
        self.usbcmd & USBCMD_RS != 0
    }
}

impl Default for OperationalRegisters {
    /// Default operational registers are freshly reset ones.
    fn default() -> (r: Self)
        ensures
            r.spec_usbcmd() == 0,
            r.spec_usbsts() == USBSTS_HCH,
            r.spec_pgsz() == 0x1000,
            r.spec_dnctrl() == 0,
            r.spec_crcr() == 0,
            r.spec_dcbaap() == 0,
            r.spec_config() == 0,
            r.spec_ports().len() == crate::controller::XHCI_MAX_PORTS as int,
    {
        Self::new()
    }
}

/// What an operational-register read at a byte offset returns; unknown or
/// out-of-range offsets read 0.
pub open spec fn spec_op_read(regs: OperationalRegisters, offset: u64) -> u32 {
    if offset == 0x00 {
        regs.spec_usbcmd()
    } else if offset == 0x04 {
        regs.spec_usbsts()
    } else if offset == 0x08 {
        regs.spec_pgsz()
    } else if offset == 0x0C {
        regs.spec_dnctrl()
    } else if 0x10 <= offset && offset <= 0x17 {
        regs.spec_crcr()
    } else if 0x30 <= offset && offset <= 0x37 {
        regs.spec_dcbaap()
    } else if offset == 0x38 {
        regs.spec_config()
    } else if offset >= 0x400 {
        let port_idx = ((offset - 0x400) / 0x10) as int;
        if port_idx < regs.spec_ports().len() {
            spec_port_read(regs.spec_ports()[port_idx], ((offset - 0x400) % 0x10) as u64)
        } else {
            0
        }
    } else {
        0
    }
}

/// The USBSTS word after a write at a byte offset other than USBCMD: a
/// status write clears the written write-1-to-clear bits; other offsets
/// leave it alone.
pub open spec fn spec_op_written_usbsts(regs: OperationalRegisters, offset: u64, value: u32) -> u32 {
    if offset == 0x04 {
        regs.spec_usbsts() & !(value & (USBSTS_EINT | USBSTS_PCD | USBSTS_SRE | USBSTS_HCE))
    } else {
        regs.spec_usbsts()
    }
}

/// The port registers after a write at a byte offset other than USBCMD:
/// a port-range write updates the addressed port register set; other
/// offsets leave them alone.
pub open spec fn spec_op_written_ports(regs: OperationalRegisters, offset: u64, value: u32) -> Seq<
    PortRegister,
> {
    if offset >= 0x400 {
        let port_idx = ((offset - 0x400) / 0x10) as int;
        if port_idx < regs.spec_ports().len() {
            regs.spec_ports().update(
                port_idx,
                spec_port_after_write(regs.spec_ports()[port_idx], ((offset - 0x400) % 0x10) as u64, value),
            )
        } else {
            regs.spec_ports()
        }
    } else {
        regs.spec_ports()
    }
}

/// How a USBCMD write changes the operational registers (the port set and
/// PAGESIZE are never touched).
pub open spec fn spec_usbcmd_written(
    pre: OperationalRegisters,
    value: u32,
    post: OperationalRegisters,
) -> bool {
    &&& post.spec_pgsz() == pre.spec_pgsz()
    &&& post.spec_dnctrl() == pre.spec_dnctrl()
    &&& post.spec_config() == pre.spec_config()
    &&& post.spec_ports() == pre.spec_ports()
    &&& if value & USBCMD_HCRST != 0 {
        &&& post.spec_usbcmd() == pre.spec_usbcmd()
        &&& post.spec_usbsts() == USBSTS_HCH | USBSTS_CNR
        &&& post.spec_crcr() == 0
        &&& post.spec_dcbaap() == 0
    } else {
        &&& post.spec_usbcmd() == value
        &&& post.spec_crcr() == pre.spec_crcr()
        &&& post.spec_dcbaap() == pre.spec_dcbaap()
        &&& post.spec_usbsts() == (if (value ^ pre.spec_usbcmd()) & USBCMD_RS != 0 {
            if value & USBCMD_RS != 0 {
                USBSTS_CNR
            } else {
                USBSTS_HCH
            }
        } else {
            pre.spec_usbsts()
        })
    }
}

/// The controller state after a USBCMD write: a reset forces Halted; a
/// toggled run/stop bit switches between Running and Halted; otherwise the
/// state is kept.
pub open spec fn spec_usbcmd_state(
    pre: OperationalRegisters,
    value: u32,
    state: XhciState,
) -> XhciState {
    if value & USBCMD_HCRST != 0 {
        XhciState::Halted
    } else if (value ^ pre.spec_usbcmd()) & USBCMD_RS != 0 {
        if value & USBCMD_RS != 0 {
            XhciState::Running
        } else {
            XhciState::Halted
        }
    } else {
        state
    }
}

// ============================================================================
// Runtime Registers
// ============================================================================

/// IMAN: Interrupt Pending (write-1-to-clear)
pub const IMAN_IP: u32 = 1;

/// IMAN: Interrupt Enable (plain read/write)
pub const IMAN_IE: u32 = 2;

/// Interrupter register set: one per interrupter.
#[derive(Debug)]
pub struct InterrupterRegister {
    /// IMAN: interrupter management (offset 0x00)
    pub iman: u32,
    /// IMOD: interrupter moderation (offset 0x04)
    pub imod: u32,
    /// ERSTSZ: event ring segment table size (offset 0x08)
    pub erstsz: u32,
    /// ERSTBA: event ring segment table base address (offset 0x10)
    pub erstba: u32,
    /// ERDP: event ring dequeue pointer (offset 0x18)
    pub erdp: u32,
}

impl Default for InterrupterRegister {
    /// A default interrupter register set reads all zero.
    fn default() -> (r: Self)
        ensures
            r == (InterrupterRegister { iman: 0, imod: 0, erstsz: 0, erstba: 0, erdp: 0 }),
    {
        InterrupterRegister { iman: 0, imod: 0, erstsz: 0, erstba: 0, erdp: 0 }
    }
}

/// What an interrupter-register read at a byte offset returns; unknown
/// offsets read 0.
pub open spec fn spec_interrupter_read(i: InterrupterRegister, offset: u64) -> u32 {
    if offset == 0x00 {
        i.iman
    } else if offset == 0x04 {
        i.imod
    } else if offset == 0x08 {
        i.erstsz
    } else if offset == 0x10 {
        i.erstba
    } else if offset == 0x18 {
        i.erdp
    } else {
        0
    }
}

/// An interrupter register set after a guest write at a byte offset: the
/// IMAN pending bit is write-1-to-clear (cleared exactly when a 1 is
/// written to it, preserved otherwise) and its enable bit is plain
/// read/write; unknown offsets are no-ops.
pub open spec fn spec_interrupter_after_write(
    i: InterrupterRegister,
    offset: u64,
    value: u32,
) -> InterrupterRegister {
    if offset == 0x00 {
        InterrupterRegister {
            iman: ((if value & IMAN_IP != 0 {
                i.iman & !IMAN_IP
            } else {
                i.iman
            }) & !IMAN_IE) | (value & IMAN_IE),
            ..i
        }
    } else if offset == 0x04 {
        InterrupterRegister { imod: value, ..i }
    } else if offset == 0x08 {
        InterrupterRegister { erstsz: value, ..i }
    } else if offset == 0x10 {
        InterrupterRegister { erstba: value, ..i }
    } else if offset == 0x18 {
        InterrupterRegister { erdp: value, ..i }
    } else {
        i
    }
}

impl InterrupterRegister {
    /// Read the register at a byte offset; unknown offsets read 0.
    pub fn read(&self, offset: u64) -> (r: u32)
        ensures
            r == spec_interrupter_read(*self, offset),
    {
        if offset == 0x00 {
            self.iman
        } else if offset == 0x04 {
            self.imod
        } else if offset == 0x08 {
            self.erstsz
        } else if offset == 0x10 {
            self.erstba
        } else if offset == 0x18 {
            self.erdp
        } else {
            0
        }
    }

    /// Write the register at a byte offset; the IMAN pending bit is
    /// write-1-to-clear; unknown offsets are no-ops.
    pub fn write(&mut self, offset: u64, value: u32)
        ensures
            *final(self) == spec_interrupter_after_write(*old(self), offset, value),
    {
        if offset == 0x00 {
            // IMAN: writing 1 to the IP bit clears it; the IE bit takes
            // the written value; the rest is untouched
            let ip_handled = if value & IMAN_IP != 0 {
                self.iman & !IMAN_IP
            } else {
                self.iman
            };
            self.iman = (ip_handled & !IMAN_IE) | (value & IMAN_IE);
        } else if offset == 0x04 {
            self.imod = value;
        } else if offset == 0x08 {
            self.erstsz = value;
        } else if offset == 0x10 {
            self.erstba = value;
        } else if offset == 0x18 {
            self.erdp = value;
        }
    }
}

/// xHCI runtime registers: the microframe index and one interrupter
/// register set per interrupter.
#[derive(Debug)]
pub struct RuntimeRegisters {
    /// MFINDEX: microframe index (offset 0x00, read-only)
    mfindex: u32,
    /// Interrupter registers (offset 0x20 and up)
    interrupters: Vec<InterrupterRegister>,
}

impl RuntimeRegisters {
    /// The microframe index.
    pub closed spec fn spec_mfindex(&self) -> u32 {
        self.mfindex
    }

    /// The interrupter register sets.
    pub closed spec fn spec_interrupters(&self) -> Seq<InterrupterRegister> {
        self.interrupters@
    }

    /// Create runtime registers with one zeroed interrupter register set
    /// per interrupter.
    pub fn new() -> (r: Self)
        ensures
            r.spec_mfindex() == 0,
            r.spec_interrupters().len() == crate::controller::XHCI_MAX_INTRS as int,
            forall|i: int|
                0 <= i < r.spec_interrupters().len() ==> r.spec_interrupters()[i]
                    == (InterrupterRegister { iman: 0, imod: 0, erstsz: 0, erstba: 0, erdp: 0 }),
    {
        let mut interrupters: Vec<InterrupterRegister> = Vec::new();
        let mut i: u8 = 0;
        while i < crate::controller::XHCI_MAX_INTRS
            invariant
                i <= crate::controller::XHCI_MAX_INTRS,
                interrupters@.len() == i as int,
                forall|j: int|
                    0 <= j < interrupters@.len() ==> interrupters@[j] == (InterrupterRegister {
                        iman: 0,
                        imod: 0,
                        erstsz: 0,
                        erstba: 0,
                        erdp: 0,
                    }),
            decreases crate::controller::XHCI_MAX_INTRS - i,
        {
            interrupters.push(InterrupterRegister::default());
            i = i + 1;
        }
        Self { mfindex: 0, interrupters }
    }

    /// Read the register at a byte offset; unknown or out-of-range offsets
    /// read 0.
    pub fn read(&self, offset: u64) -> (r: u32)
        ensures
            r == spec_rt_read(*self, offset),
    {
        if offset == 0x00 {
            self.mfindex
        } else if offset >= 0x20 {
            let intr_idx = (offset - 0x20) / 0x20;
            let intr_offset = (offset - 0x20) % 0x20;
            if intr_idx < self.interrupters.len() as u64 {
                self.interrupters[intr_idx as usize].read(intr_offset)
            } else {
                0
            }
        } else {
            0
        }
    }

    /// Write the register at a byte offset; MFINDEX is read-only; unknown
    /// or out-of-range offsets are no-ops.
    pub fn write(&mut self, offset: u64, value: u32)
        ensures
            final(self).spec_mfindex() == old(self).spec_mfindex(),
            final(self).spec_interrupters() == spec_rt_written(*old(self), offset, value),
    {
        if offset == 0x00 {
            // MFINDEX is read-only
        } else if offset >= 0x20 {
            let intr_idx = (offset - 0x20) / 0x20;
            let intr_offset = (offset - 0x20) % 0x20;
            if intr_idx < self.interrupters.len() as u64 {
                let i = intr_idx as usize;
                let mut intr = self.interrupters.remove(i);
                intr.write(intr_offset, value);
                self.interrupters.insert(i, intr);
                proof {
                    assert(self.interrupters@ =~= old(self).interrupters@.update(
                        i as int,
                        spec_interrupter_after_write(
                            old(self).interrupters@[i as int],
                            intr_offset,
                            value,
                        ),
                    ));
                }
            }
        }
    }
}

impl Default for RuntimeRegisters {
    /// Default runtime registers are fresh ones.
    fn default() -> (r: Self)
        ensures
            r.spec_mfindex() == 0,
            r.spec_interrupters().len() == crate::controller::XHCI_MAX_INTRS as int,
    {
        Self::new()
    }
}

/// What a runtime-register read at a byte offset returns; unknown or
/// out-of-range offsets read 0.
pub open spec fn spec_rt_read(regs: RuntimeRegisters, offset: u64) -> u32 {
    if offset == 0x00 {
        regs.spec_mfindex()
    } else if offset >= 0x20 {
        let intr_idx = ((offset - 0x20) / 0x20) as int;
        if intr_idx < regs.spec_interrupters().len() {
            spec_interrupter_read(regs.spec_interrupters()[intr_idx], ((offset - 0x20) % 0x20) as u64)
        } else {
            0
        }
    } else {
        0
    }
}

/// The interrupter register sets after a runtime-register write at a byte
/// offset.
pub open spec fn spec_rt_written(regs: RuntimeRegisters, offset: u64, value: u32) -> Seq<
    InterrupterRegister,
> {
    if offset >= 0x20 {
        let intr_idx = ((offset - 0x20) / 0x20) as int;
        if intr_idx < regs.spec_interrupters().len() {
            regs.spec_interrupters().update(
                intr_idx,
                spec_interrupter_after_write(
                    regs.spec_interrupters()[intr_idx],
                    ((offset - 0x20) % 0x20) as u64,
                    value,
                ),
            )
        } else {
            regs.spec_interrupters()
        }
    } else {
        regs.spec_interrupters()
    }
}

// ============================================================================
// Doorbell Register
// ============================================================================

/// Doorbell register: a write stores only the low byte (the target) and is
/// itself the trigger for ring draining.
#[derive(Debug, Clone, Copy)]
pub struct DoorbellRegister {
    /// Doorbell target (endpoint ID, or 0 for the command ring)
    pub target: u8,
}

impl Default for DoorbellRegister {
    /// A default doorbell register holds target 0.
    fn default() -> (r: Self)
        ensures
            r.target == 0,
    {
        DoorbellRegister { target: 0 }
    }
}

impl DoorbellRegister {
    /// Create a doorbell register with a target.
    pub fn new(target: u8) -> (r: Self)
        ensures
            r.target == target,
    {
        Self { target }
    }

    /// Read the register value: the stored target.
    pub fn read(&self) -> (r: u32)
        ensures
            r == self.target as u32,
    {
        self.target as u32
    }

    /// Write the register value; only the low byte is stored.
    pub fn write(&mut self, value: u32)
        ensures
            final(self).target == value & 0xFF,
    {
        proof {
            assert(value & 0xFF < 0x100) by (bit_vector);
        }
        self.target = (value & 0xFF) as u8;
    }
}

} // verus!
