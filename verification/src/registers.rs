//! The controller's register blocks as software sees them: an image of the
//! values last read or written, and the list of writes that have to reach
//! the hardware, in order.

use vstd::prelude::*;
use crate::bits::{
    field_of32, field_of64, with_field32, with_field64, read_field32, read_field64, write_field32,
    write_field64, lemma_field_bound32,
};
use crate::command::CommandRing;
use crate::event::EventRingSegmentTable;

verus! {

/// A register that the driver reads or writes as a whole.
#[derive(Clone, Copy, Debug, PartialEq, Eq, Structural)]
pub enum Reg {
    UsbCmd,
    UsbSts,
    Dnctrl,
    Crcr,
    Dcbaap,
    Config,
    Iman,
    Imod,
    Erstsz,
    Erstba,
    Erdp,
    UsbLegSup,
}

/// The block of registers in which a register lies.
#[derive(Clone, Copy, Debug, PartialEq, Eq, Structural)]
pub enum RegBlock {
    /// The Operational registers.
    Operational,
    /// The Interrupter Register Set of the primary interrupter, 0x20 above
    /// the Runtime base.
    PrimaryInterrupter,
    /// The USB Legacy Support capability.
    LegacySupport,
}

impl Reg {
    /// The block in which the register lies.
    pub open spec fn spec_block(self) -> RegBlock {
        match self {
            Reg::UsbCmd | Reg::UsbSts | Reg::Dnctrl | Reg::Crcr | Reg::Dcbaap | Reg::Config => RegBlock::Operational,
            Reg::Iman | Reg::Imod | Reg::Erstsz | Reg::Erstba | Reg::Erdp => RegBlock::PrimaryInterrupter,
            Reg::UsbLegSup => RegBlock::LegacySupport,
        }
    }

    /// The register's offset in its block, in bytes.
    pub open spec fn spec_offset(self) -> u64 {
        match self {
            Reg::UsbCmd => 0x00,
            Reg::UsbSts => 0x04,
            Reg::Dnctrl => 0x14,
            Reg::Crcr => 0x18,
            Reg::Dcbaap => 0x30,
            Reg::Config => 0x38,
            Reg::Iman => 0x00,
            Reg::Imod => 0x04,
            Reg::Erstsz => 0x08,
            Reg::Erstba => 0x10,
            Reg::Erdp => 0x18,
            Reg::UsbLegSup => 0x00,
        }
    }

    /// Whether the register is 64 bits wide; the others are 32 bits wide.
    pub open spec fn spec_is_wide(self) -> bool {
        self == Reg::Crcr || self == Reg::Dcbaap || self == Reg::Erstba || self == Reg::Erdp
    }

    /// The block in which the register lies.
    pub fn block(&self) -> (r: RegBlock)
        ensures
            r == self.spec_block(),
    {
        match self {
            Reg::UsbCmd | Reg::UsbSts | Reg::Dnctrl | Reg::Crcr | Reg::Dcbaap | Reg::Config => RegBlock::Operational,
            Reg::Iman | Reg::Imod | Reg::Erstsz | Reg::Erstba | Reg::Erdp => RegBlock::PrimaryInterrupter,
            Reg::UsbLegSup => RegBlock::LegacySupport,
        }
    }

    /// The register's offset in its block, in bytes.
    pub fn offset(&self) -> (r: u64)
        ensures
            r == self.spec_offset(),
    {
        match self {
            Reg::UsbCmd => 0x00,
            Reg::UsbSts => 0x04,
            Reg::Dnctrl => 0x14,
            Reg::Crcr => 0x18,
            Reg::Dcbaap => 0x30,
            Reg::Config => 0x38,
            Reg::Iman => 0x00,
            Reg::Imod => 0x04,
            Reg::Erstsz => 0x08,
            Reg::Erstba => 0x10,
            Reg::Erdp => 0x18,
            Reg::UsbLegSup => 0x00,
        }
    }

    /// Whether the register is 64 bits wide.
    pub fn is_wide(&self) -> (r: bool)
        ensures
            r == self.spec_is_wide(),
    {
        match self {
            Reg::Crcr | Reg::Dcbaap | Reg::Erstba | Reg::Erdp => true,
            _ => false,
        }
    }
}

/// One write of a whole register, in the register's natural width.
#[derive(Clone, Copy, Debug, PartialEq, Eq, Structural)]
pub struct RegWrite {
    pub reg: Reg,
    pub value: u64,
}

/// The Capability registers; read-only.
#[derive(Clone, Copy, Debug, PartialEq, Eq, Structural)]
pub struct Capability {
    pub dw1: u32,
    pub hcsparams1: u32,
    pub hcsparams2: u32,
    pub hcsparams3: u32,
    pub hccparams1: u32,
    pub dboff: u32,
    pub rtsoff: u32,
    pub hccparams2: u32,
}

/// The Operational registers.
#[derive(Clone, Copy, Debug, PartialEq, Eq, Structural)]
pub struct Operational {
    pub usbcmd: u32,
    pub usbsts: u32,
    pub pagesize: u32,
    pub dnctrl: u32,
    pub crcr: u64,
    pub dcbaap: u64,
    pub config: u32,
}

/// One Interrupter Register Set.
#[derive(Clone, Copy, Debug, PartialEq, Eq, Structural)]
pub struct Interrupter {
    pub iman: u32,
    pub imod: u32,
    pub erstsz: u32,
    pub erstba: u64,
    pub erdp: u64,
}

/// The Runtime registers, with the primary interrupter.
#[derive(Clone, Copy, Debug, PartialEq, Eq, Structural)]
pub struct Runtime {
    pub mfindex: u32,
    pub primary: Interrupter,
}

/// Mask of a 64-byte aligned pointer field that starts at bit 6.
pub const POINTER_MASK_58: u64 = 0x03FF_FFFF_FFFF_FFFF;

/// Mask of a 16-byte aligned pointer field that starts at bit 4.
pub const POINTER_MASK_60: u64 = 0x0FFF_FFFF_FFFF_FFFF;

/// The interrupt moderation interval of one millisecond, in units of 250 ns.
pub const IMOD_INTERVAL: u32 = 4000;

/// The number of bytes from the MMIO base within which every register lies
/// that the offset registers can point to.
pub const MMIO_SPAN: u64 = 0x1_0000_1000;

/// Offset of the first Port Register Set from the Operational base.
pub const PORT_REGISTERS_OFFSET: u64 = 0x400;

/// The register blocks of one controller.
pub struct Registers {
    pub base: u64,
    pub capability: Capability,
    pub operational: Operational,
    pub runtime: Runtime,
    pub writes: Vec<RegWrite>,
}

/// USBCMD with Run/Stop, Interrupter Enable, Host System Error Enable and
/// Enable Wrap Event cleared, one after the other.
pub open spec fn usbcmd_stopped(usbcmd: u32) -> Seq<u32> {
    let a = with_field32(usbcmd, 1, 0, 0);
    let b = with_field32(a, 1, 2, 0);
    let c = with_field32(b, 1, 3, 0);
    let d = with_field32(c, 1, 10, 0);
    seq![a, b, c, d]
}

/// USBCMD with Run/Stop clear and Host Controller Reset set.
pub open spec fn usbcmd_reset(usbcmd: u32) -> u32 {
    with_field32(with_field32(usbcmd, 1, 0, 0), 1, 1, 1)
}

/// USBCMD with Interrupter Enable and then Run/Stop set.
pub open spec fn usbcmd_started(usbcmd: u32) -> Seq<u32> {
    let a = with_field32(usbcmd, 1, 2, 1);
    let b = with_field32(a, 1, 0, 1);
    seq![a, b]
}

/// The writes of `values` to `reg`, in order.
pub open spec fn writes_to(reg: Reg, values: Seq<u32>) -> Seq<RegWrite> {
    Seq::new(values.len(), |i: int| RegWrite { reg, value: values[i] as u64 })
}

impl Registers {
    /// The MMIO block lies inside the address space.
    pub open spec fn wf(&self) -> bool {
        self.base + MMIO_SPAN <= u64::MAX
    }

    /// Everything but the list of writes is as in `old`, and `added` has been
    /// appended to the list.
    pub open spec fn appended(&self, old: &Registers, added: Seq<RegWrite>) -> bool {
        &&& self.base == old.base
        &&& self.capability == old.capability
        &&& self.writes@ == old.writes@ + added
    }

    /// Registers at the MMIO address `base` with the given contents and no
    /// write outstanding.
    pub fn from(base: u64, capability: Capability, operational: Operational, runtime: Runtime) -> (r:
        Registers)
        ensures
            r.base == base,
            r.capability == capability,
            r.operational == operational,
            r.runtime == runtime,
            r.writes@ == Seq::<RegWrite>::empty(),
    {
        Registers { base, capability, operational, runtime, writes: Vec::new() }
    }

    /// The Operational registers.
    pub fn operational(&self) -> (r: &Operational)
        ensures
            *r == self.operational,
    {
        &self.operational
    }

    /// The Runtime registers.
    pub fn runtime(&self) -> (r: &Runtime)
        ensures
            *r == self.runtime,
    {
        &self.runtime
    }

    /// The Capability registers.
    pub fn capability(&self) -> (r: &Capability)
        ensures
            *r == self.capability,
    {
        &self.capability
    }

    /// CAPLENGTH: the size of the Capability block.
    pub open spec fn spec_cap_length(&self) -> u32 {
        field_of32(self.capability.dw1, 0xFF, 0)
    }

    /// The address of the Operational registers: the base plus CAPLENGTH.
    pub fn operational_addr(&self) -> (r: u64)
        requires
            self.wf(),
        ensures
            r == self.base + self.spec_cap_length(),
    {
        let len: u32 = read_field32(self.capability.dw1, 0xFF, 0);
        proof {
            lemma_field_bound32(self.capability.dw1, 0xFF, 0);
        }
        self.base + len as u64
    }

    /// The address of the Runtime registers: the base plus the Runtime
    /// Register Space Offset, a multiple of 32.
    pub fn runtime_addr(&self) -> (r: u64)
        requires
            self.wf(),
        ensures
            r == self.base + 32 * field_of32(self.capability.rtsoff, 0x07FF_FFFF, 5),
    {
        let off: u32 = read_field32(self.capability.rtsoff, 0x07FF_FFFF, 5);
        proof {
            lemma_field_bound32(self.capability.rtsoff, 0x07FF_FFFF, 5);
        }
        self.base + 32 * (off as u64)
    }

    /// The address of the doorbell of `slot`: the base plus the Doorbell
    /// Offset, a multiple of 4, plus four bytes per slot. Slot 0 is the
    /// Command Ring's doorbell.
    pub fn doorbell_addr(&self, slot: u8) -> (r: u64)
        requires
            self.wf(),
        ensures
            r == self.base + 4 * field_of32(self.capability.dboff, 0x3FFF_FFFF, 2) + 4 * slot,
    {
        let off: u32 = read_field32(self.capability.dboff, 0x3FFF_FFFF, 2);
        proof {
            lemma_field_bound32(self.capability.dboff, 0x3FFF_FFFF, 2);
        }
        self.base + 4 * (off as u64) + 4 * (slot as u64)
    }

    /// The address of the Port Register Set of the port with the zero-based
    /// index `index`: 0x400 above the Operational base, 0x10 bytes per port.
    pub fn port_addr(&self, index: u8) -> (r: u64)
        requires
            self.wf(),
        ensures
            r == self.base + self.spec_cap_length() + 0x400 + 0x10 * index,
    {
        let op: u64 = self.operational_addr();
        proof {
            lemma_field_bound32(self.capability.dw1, 0xFF, 0);
        }
        op + PORT_REGISTERS_OFFSET + 0x10 * (index as u64)
    }

    /// The address of the register `reg`. The USB Legacy Support
    /// capability lies `legacy` 32-bit words above the base.
    pub fn reg_addr(&self, reg: Reg, legacy: u32) -> (r: u64)
        requires
            self.wf(),
        ensures
            r == match reg.spec_block() {
                RegBlock::Operational => self.base + self.spec_cap_length() + reg.spec_offset(),
                RegBlock::PrimaryInterrupter => self.base + 32 * field_of32(
                    self.capability.rtsoff,
                    0x07FF_FFFF,
                    5,
                ) + 0x20 + reg.spec_offset(),
                RegBlock::LegacySupport => self.base + 4 * (legacy % 0x1_0000),
            },
    {
        proof {
            lemma_field_bound32(self.capability.dw1, 0xFF, 0);
            lemma_field_bound32(self.capability.rtsoff, 0x07FF_FFFF, 5);
        }
        match reg.block() {
            RegBlock::Operational => self.operational_addr() + reg.offset(),
            RegBlock::PrimaryInterrupter => self.runtime_addr() + 0x20 + reg.offset(),
            RegBlock::LegacySupport => self.base + 4 * ((legacy % 0x1_0000) as u64),
        }
    }

    /// MaxSlots of HCSPARAMS1.
    pub fn max_slots(&self) -> (r: u32)
        ensures
            r == field_of32(self.capability.hcsparams1, 0xFF, 0),
            r <= 255,
    {
        proof {
            lemma_field_bound32(self.capability.hcsparams1, 0xFF, 0);
        }
        read_field32(self.capability.hcsparams1, 0xFF, 0)
    }

    /// MaxIntrs of HCSPARAMS1: the number of interrupters.
    pub fn max_interrupters(&self) -> (r: u32)
        ensures
            r == field_of32(self.capability.hcsparams1, 0x7FF, 8),
            r <= 0x7FF,
    {
        proof {
            lemma_field_bound32(self.capability.hcsparams1, 0x7FF, 8);
        }
        read_field32(self.capability.hcsparams1, 0x7FF, 8)
    }

    /// ERST Max of HCSPARAMS2: the Event Ring Segment Table may hold two to
    /// this power entries.
    pub fn erst_max(&self) -> (r: u32)
        ensures
            r == field_of32(self.capability.hcsparams2, 0xF, 4),
            r <= 15,
    {
        proof {
            lemma_field_bound32(self.capability.hcsparams2, 0xF, 4);
        }
        read_field32(self.capability.hcsparams2, 0xF, 4)
    }

    /// HCIVERSION: the version of the interface, in binary coded decimal.
    pub fn hci_version(&self) -> (r: u32)
        ensures
            r == field_of32(self.capability.dw1, 0xFFFF, 16),
            r <= 0xFFFF,
    {
        proof {
            lemma_field_bound32(self.capability.dw1, 0xFFFF, 16);
        }
        read_field32(self.capability.dw1, 0xFFFF, 16)
    }

    /// MaxPorts of HCSPARAMS1.
    pub fn max_ports(&self) -> (r: u32)
        ensures
            r == field_of32(self.capability.hcsparams1, 0xFF, 24),
            r <= 255,
    {
        proof {
            lemma_field_bound32(self.capability.hcsparams1, 0xFF, 24);
        }
        read_field32(self.capability.hcsparams1, 0xFF, 24)
    }

    /// The number of scratchpad buffers the controller asks for: the high
    /// five bits of HCSPARAMS2's count above the low five.
    pub fn max_scratchpad_buffer(&self) -> (r: u32)
        ensures
            r == field_of32(self.capability.hcsparams2, 0x1F, 27) | (field_of32(
                self.capability.hcsparams2,
                0x1F,
                21,
            ) << 5),
    {
        let lo: u32 = read_field32(self.capability.hcsparams2, 0x1F, 27);
        let hi: u32 = read_field32(self.capability.hcsparams2, 0x1F, 21);
        lo | (hi << 5)
    }

    /// The page size in bytes: bit n of PAGESIZE stands for 2^(n+12).
    pub fn page_size(&self) -> (r: u32)
        ensures
            r == field_of32(self.operational.pagesize, 0xFFFF, 0) << 12,
    {
        read_field32(self.operational.pagesize, 0xFFFF, 0) << 12
    }

    /// CSZ of HCCPARAMS1: 1 if contexts are 64 bytes long.
    pub fn context_size(&self) -> (r: u32)
        ensures
            r == field_of32(self.capability.hccparams1, 1, 2),
            r <= 1,
    {
        proof {
            lemma_field_bound32(self.capability.hccparams1, 1, 2);
        }
        read_field32(self.capability.hccparams1, 1, 2)
    }

    /// AC64 of HCCPARAMS1: 1 if the controller takes 64-bit addresses.
    pub fn ac64(&self) -> (r: u32)
        ensures
            r == field_of32(self.capability.hccparams1, 1, 0),
            r <= 1,
    {
        proof {
            lemma_field_bound32(self.capability.hccparams1, 1, 0);
        }
        read_field32(self.capability.hccparams1, 1, 0)
    }

    /// xECP of HCCPARAMS1: the offset of the first extended capability from
    /// the base, in 32-bit words; 0 if there is none.
    pub fn xecp_offset(&self) -> (r: u32)
        ensures
            r == field_of32(self.capability.hccparams1, 0xFFFF, 16),
            r <= 0xFFFF,
    {
        proof {
            lemma_field_bound32(self.capability.hccparams1, 0xFFFF, 16);
        }
        read_field32(self.capability.hccparams1, 0xFFFF, 16)
    }

    /// Appends one write to the list.
    fn record(&mut self, reg: Reg, value: u64)
        ensures
            final(self).base == old(self).base,
            final(self).capability == old(self).capability,
            final(self).operational == old(self).operational,
            final(self).runtime == old(self).runtime,
            final(self).writes@ == old(self).writes@.push(RegWrite { reg, value }),
    {
        self.writes.push(RegWrite { reg, value });
    }

    /// Writes MaxSlotsEnabled of CONFIG; the other bits of CONFIG stay.
    pub fn set_max_slot_enable(&mut self, max_slot: u32)
        ensures
            final(self).operational == (Operational {
                config: with_field32(old(self).operational.config, 0xFF, 0, max_slot),
                ..old(self).operational
            }),
            final(self).runtime == old(self).runtime,
            final(self).appended(
                old(self),
                seq![RegWrite { reg: Reg::Config, value: final(self).operational.config as u64 }],
            ),
    {
        let v: u32 = write_field32(self.operational.config, 0xFF, 0, max_slot);
        self.operational.config = v;
        self.record(Reg::Config, v as u64);
        assert(final(self).writes@ =~= old(self).writes@ + seq![RegWrite { reg: Reg::Config, value: v as u64 }]);
    }

    /// CRCR with the Ring Cycle State `cycle` and the Command Ring Pointer
    /// `phys_base`.
    pub open spec fn spec_crcr(crcr: u64, cycle: bool, phys_base: u64) -> u64 {
        with_field64(
            with_field64(crcr, 1, 0, if cycle { 1u64 } else { 0u64 }),
            POINTER_MASK_58,
            6,
            phys_base >> 6,
        )
    }

    /// Tells the controller where the Command Ring lies and what its cycle
    /// state is, with one write of CRCR.
    pub fn set_command_ring(&mut self, ring: &CommandRing)
        ensures
            final(self).operational == (Operational {
                crcr: Registers::spec_crcr(old(self).operational.crcr, ring@.cycle_bit, ring@.phys_base),
                ..old(self).operational
            }),
            final(self).runtime == old(self).runtime,
            final(self).appended(
                old(self),
                seq![RegWrite { reg: Reg::Crcr, value: final(self).operational.crcr }],
            ),
    {
        let rcs: u64 = if ring.ring.cycle_bit { 1 } else { 0 };
        let v: u64 = write_field64(self.operational.crcr, 1, 0, rcs);
        let v: u64 = write_field64(v, POINTER_MASK_58, 6, ring.ring.phys_base >> 6);
        self.operational.crcr = v;
        self.record(Reg::Crcr, v);
        assert(final(self).writes@ =~= old(self).writes@ + seq![RegWrite { reg: Reg::Crcr, value: v }]);
    }

    /// Writes the physical address of the Device Context Base Address Array
    /// to DCBAAP.
    pub fn set_device_context_base_address_array(&mut self, addr: u64)
        ensures
            final(self).operational == (Operational {
                dcbaap: with_field64(old(self).operational.dcbaap, POINTER_MASK_58, 6, addr >> 6),
                ..old(self).operational
            }),
            final(self).runtime == old(self).runtime,
            final(self).appended(
                old(self),
                seq![RegWrite { reg: Reg::Dcbaap, value: final(self).operational.dcbaap }],
            ),
    {
        let v: u64 = write_field64(self.operational.dcbaap, POINTER_MASK_58, 6, addr >> 6);
        self.operational.dcbaap = v;
        self.record(Reg::Dcbaap, v);
        assert(final(self).writes@ =~= old(self).writes@ + seq![RegWrite { reg: Reg::Dcbaap, value: v }]);
    }

    /// The primary interrupter after it was pointed to a segment table of
    /// `len` entries at `table_addr` whose first segment lies at
    /// `ring_addr`: moderation set to one millisecond, a pending interrupt
    /// acknowledged, interrupts enabled.
    pub open spec fn spec_primary(i: Interrupter, len: u64, ring_addr: u64, table_addr: u64) -> Interrupter {
        Interrupter {
            erstsz: with_field32(i.erstsz, 0xFFFF, 0, len as u32),
            erdp: with_field64(i.erdp, POINTER_MASK_60, 4, ring_addr >> 4),
            erstba: with_field64(i.erstba, POINTER_MASK_58, 6, table_addr >> 6),
            imod: with_field32(i.imod, 0xFFFF, 0, IMOD_INTERVAL),
            iman: with_field32(with_field32(i.iman, 1, 0, 0), 1, 1, 1),
        }
    }

    /// The writes that bring the primary interrupter from `i` to
    /// `spec_primary`: ERSTSZ, ERDP, ERSTBA, IMOD, then IMAN twice, first
    /// with Interrupt Pending written as 1, which clears it, then with
    /// Interrupt Enable set and Interrupt Pending written as 0.
    pub open spec fn spec_primary_writes(i: Interrupter, len: u64, ring_addr: u64, table_addr: u64) -> Seq<
        RegWrite,
    > {
        let n = Registers::spec_primary(i, len, ring_addr, table_addr);
        seq![
            RegWrite { reg: Reg::Erstsz, value: n.erstsz as u64 },
            RegWrite { reg: Reg::Erdp, value: n.erdp },
            RegWrite { reg: Reg::Erstba, value: n.erstba },
            RegWrite { reg: Reg::Imod, value: n.imod as u64 },
            RegWrite { reg: Reg::Iman, value: with_field32(i.iman, 1, 0, 1) as u64 },
            RegWrite { reg: Reg::Iman, value: n.iman as u64 },
        ]
    }

    /// Hands the Event Ring Segment Table to the primary interrupter and
    /// enables its interrupt.
    pub fn set_primary_interrupter(&mut self, ers_table: &EventRingSegmentTable)
        requires
            ers_table.wf(),
            ers_table.spec_len() >= 1,
        ensures
            final(self).operational == old(self).operational,
            final(self).runtime == (Runtime {
                primary: Registers::spec_primary(
                    old(self).runtime.primary,
                    ers_table.spec_len(),
                    ers_table.spec_entry_addr(0),
                    ers_table.spec_addr(),
                ),
                ..old(self).runtime
            }),
            final(self).appended(
                old(self),
                Registers::spec_primary_writes(
                    old(self).runtime.primary,
                    ers_table.spec_len(),
                    ers_table.spec_entry_addr(0),
                    ers_table.spec_addr(),
                ),
            ),
    {
        let i = self.runtime.primary;
        let erstsz: u32 = write_field32(i.erstsz, 0xFFFF, 0, ers_table.len() as u32);
        let erdp: u64 = write_field64(i.erdp, POINTER_MASK_60, 4, ers_table.entry_addr(0) >> 4);
        let erstba: u64 = write_field64(i.erstba, POINTER_MASK_58, 6, ers_table.addr() >> 6);
        let imod: u32 = write_field32(i.imod, 0xFFFF, 0, IMOD_INTERVAL);
        let ack: u32 = write_field32(i.iman, 1, 0, 1);
        let iman: u32 = write_field32(write_field32(i.iman, 1, 0, 0), 1, 1, 1);
        self.runtime.primary = Interrupter { iman, imod, erstsz, erstba, erdp };
        self.record(Reg::Erstsz, erstsz as u64);
        self.record(Reg::Erdp, erdp);
        self.record(Reg::Erstba, erstba);
        self.record(Reg::Imod, imod as u64);
        self.record(Reg::Iman, ack as u64);
        self.record(Reg::Iman, iman as u64);
        assert(final(self).writes@ =~= old(self).writes@ + Registers::spec_primary_writes(
            old(self).runtime.primary,
            ers_table.spec_len(),
            ers_table.spec_entry_addr(0),
            ers_table.spec_addr(),
        ));
    }

    /// The Event Ring Dequeue Pointer field of ERDP: the address of the
    /// dequeue entry divided by 16.
    pub fn get_erdp(&self) -> (r: u64)
        ensures
            r == field_of64(self.runtime.primary.erdp, POINTER_MASK_60, 4),
    {
        read_field64(self.runtime.primary.erdp, POINTER_MASK_60, 4)
    }

    /// ERDP with the dequeue pointer `addr` and Event Handler Busy written
    /// as 1; the segment index in the low three bits stays.
    pub open spec fn spec_erdp(erdp: u64, addr: u64) -> u64 {
        with_field64(with_field64(erdp, POINTER_MASK_60, 4, addr >> 4), 1, 3, 1)
    }

    /// Releases the events below the entry at the physical address `addr`
    /// to the controller, with one write of ERDP.
    pub fn set_erdp(&mut self, addr: u64)
        ensures
            final(self).operational == old(self).operational,
            final(self).runtime == (Runtime {
                primary: Interrupter {
                    erdp: Registers::spec_erdp(old(self).runtime.primary.erdp, addr),
                    ..old(self).runtime.primary
                },
                ..old(self).runtime
            }),
            final(self).appended(
                old(self),
                seq![RegWrite { reg: Reg::Erdp, value: final(self).runtime.primary.erdp }],
            ),
    {
        let v: u64 = write_field64(self.runtime.primary.erdp, POINTER_MASK_60, 4, addr >> 4);
        let v: u64 = write_field64(v, 1, 3, 1);
        self.runtime.primary.erdp = v;
        self.record(Reg::Erdp, v);
        assert(final(self).writes@ =~= old(self).writes@ + seq![RegWrite { reg: Reg::Erdp, value: v }]);
    }

    /// Stops the controller: clears Run/Stop, Interrupter Enable, Host
    /// System Error Enable and Enable Wrap Event of USBCMD, one write each.
    /// The controller has stopped once `is_halted` holds of a fresh USBSTS.
    pub fn stop(&mut self)
        ensures
            final(self).operational == (Operational {
                usbcmd: usbcmd_stopped(old(self).operational.usbcmd)[3],
                ..old(self).operational
            }),
            final(self).runtime == old(self).runtime,
            final(self).appended(
                old(self),
                writes_to(Reg::UsbCmd, usbcmd_stopped(old(self).operational.usbcmd)),
            ),
    {
        let a: u32 = write_field32(self.operational.usbcmd, 1, 0, 0);
        let b: u32 = write_field32(a, 1, 2, 0);
        let c: u32 = write_field32(b, 1, 3, 0);
        let d: u32 = write_field32(c, 1, 10, 0);
        self.operational.usbcmd = d;
        self.record(Reg::UsbCmd, a as u64);
        self.record(Reg::UsbCmd, b as u64);
        self.record(Reg::UsbCmd, c as u64);
        self.record(Reg::UsbCmd, d as u64);
        assert(final(self).writes@ =~= old(self).writes@ + writes_to(
            Reg::UsbCmd,
            usbcmd_stopped(old(self).operational.usbcmd),
        ));
    }

    /// HCHalted of USBSTS.
    pub fn is_halted(&self) -> (r: bool)
        ensures
            r == (field_of32(self.operational.usbsts, 1, 0) == 1),
    {
        read_field32(self.operational.usbsts, 1, 0) == 1
    }

    /// Starts a controller reset: writes USBCMD with HCRST set and Run/Stop
    /// clear. The reset is over once `is_reset_done` holds of fresh USBCMD
    /// and USBSTS.
    pub fn reset(&mut self)
        ensures
            final(self).operational == (Operational {
                usbcmd: usbcmd_reset(old(self).operational.usbcmd),
                ..old(self).operational
            }),
            final(self).runtime == old(self).runtime,
            final(self).appended(
                old(self),
                seq![RegWrite { reg: Reg::UsbCmd, value: final(self).operational.usbcmd as u64 }],
            ),
    {
        let v: u32 = write_field32(write_field32(self.operational.usbcmd, 1, 0, 0), 1, 1, 1);
        self.operational.usbcmd = v;
        self.record(Reg::UsbCmd, v as u64);
        assert(final(self).writes@ =~= old(self).writes@ + seq![RegWrite { reg: Reg::UsbCmd, value: v as u64 }]);
    }

    /// Claims the controller from the firmware: records a write of the USB
    /// Legacy Support capability register, which read `legacy`, with the OS
    /// Owned Semaphore set, and returns the value written. The firmware has
    /// let go once its BIOS Owned Semaphore reads 0.
    pub fn free_legacy_control(&mut self, legacy: u32) -> (r: u32)
        ensures
            r == with_field32(legacy, 1, 24, 1),
            final(self).operational == old(self).operational,
            final(self).runtime == old(self).runtime,
            final(self).appended(old(self), seq![RegWrite { reg: Reg::UsbLegSup, value: r as u64 }]),
    {
        let claimed: u32 = write_field32(legacy, 1, 24, 1);
        self.record(Reg::UsbLegSup, claimed as u64);
        assert(final(self).writes@ =~= old(self).writes@ + seq![
            RegWrite { reg: Reg::UsbLegSup, value: claimed as u64 },
        ]);
        claimed
    }

    /// Takes the controller from a firmware that does not let go: records
    /// a write of the USB Legacy Support capability register, which read
    /// `legacy`, with the BIOS Owned Semaphore cleared, and returns the value
    /// written.
    pub fn seize_legacy_control(&mut self, legacy: u32) -> (r: u32)
        ensures
            r == with_field32(legacy, 1, 16, 0),
            final(self).operational == old(self).operational,
            final(self).runtime == old(self).runtime,
            final(self).appended(old(self), seq![RegWrite { reg: Reg::UsbLegSup, value: r as u64 }]),
    {
        let seized: u32 = write_field32(legacy, 1, 16, 0);
        self.record(Reg::UsbLegSup, seized as u64);
        assert(final(self).writes@ =~= old(self).writes@ + seq![
            RegWrite { reg: Reg::UsbLegSup, value: seized as u64 },
        ]);
        seized
    }

    /// Whether a reset is over: HCRST of USBCMD and Controller Not Ready of
    /// USBSTS both read 0.
    pub fn is_reset_done(&self) -> (r: bool)
        ensures
            r == (field_of32(self.operational.usbcmd, 1, 1) == 0 && field_of32(
                self.operational.usbsts,
                1,
                11,
            ) == 0),
    {
        read_field32(self.operational.usbcmd, 1, 1) == 0 && read_field32(self.operational.usbsts, 1, 11)
            == 0
    }

    /// Starts the controller: sets Interrupter Enable, then Run/Stop, of
    /// USBCMD. The controller runs once `is_halted` no longer holds.
    pub fn run(&mut self)
        ensures
            final(self).operational == (Operational {
                usbcmd: usbcmd_started(old(self).operational.usbcmd)[1],
                ..old(self).operational
            }),
            final(self).runtime == old(self).runtime,
            final(self).appended(
                old(self),
                writes_to(Reg::UsbCmd, usbcmd_started(old(self).operational.usbcmd)),
            ),
    {
        let a: u32 = write_field32(self.operational.usbcmd, 1, 2, 1);
        let b: u32 = write_field32(a, 1, 0, 1);
        self.operational.usbcmd = b;
        self.record(Reg::UsbCmd, a as u64);
        self.record(Reg::UsbCmd, b as u64);
        assert(final(self).writes@ =~= old(self).writes@ + writes_to(
            Reg::UsbCmd,
            usbcmd_started(old(self).operational.usbcmd),
        ));
    }

    /// Takes fresh values of the registers that the controller changes.
    pub fn refresh(&mut self, usbcmd: u32, usbsts: u32)
        ensures
            final(self).operational == (Operational { usbcmd, usbsts, ..old(self).operational }),
            final(self).runtime == old(self).runtime,
            final(self).appended(old(self), Seq::empty()),
    {
        self.operational.usbcmd = usbcmd;
        self.operational.usbsts = usbsts;
        assert(final(self).writes@ =~= old(self).writes@ + Seq::<RegWrite>::empty());
    }

    /// Hands out the recorded writes, oldest first, and forgets them.
    pub fn take_writes(&mut self) -> (r: Vec<RegWrite>)
        ensures
            r@ == old(self).writes@,
            final(self).writes@ == Seq::<RegWrite>::empty(),
            final(self).base == old(self).base,
            final(self).capability == old(self).capability,
            final(self).operational == old(self).operational,
            final(self).runtime == old(self).runtime,
    {
        let mut out: Vec<RegWrite> = Vec::new();
        std::mem::swap(&mut out, &mut self.writes);
        out
    }
}

/// ERDP is written with the address of the dequeue entry, Event Handler
/// Busy set, and the segment index as it was.
pub proof fn lemma_erdp_value(erdp: u64, addr: u64)
    by (bit_vector)
    requires
        addr % 16 == 0,
    ensures
        Registers::spec_erdp(erdp, addr) == addr | 8 | (erdp & 7),
        field_of64(Registers::spec_erdp(erdp, addr), POINTER_MASK_60, 4) == addr >> 4,
        field_of64(Registers::spec_erdp(erdp, addr), 1, 3) == 1,
{
}

/// CRCR is written with the address of the Command Ring and its cycle
/// state; the bits between the two stay.
pub proof fn lemma_crcr_value(crcr: u64, cycle: bool, phys_base: u64)
    by (bit_vector)
    requires
        phys_base % 64 == 0,
    ensures
        Registers::spec_crcr(crcr, cycle, phys_base) == phys_base | (crcr & 0x3E) | (if cycle {
            1u64
        } else {
            0u64
        }),
{
}

/// A pointer register whose pointer starts at bit 6 is written with a
/// 64-byte aligned address; its low six bits stay.
pub proof fn lemma_pointer_value(old: u64, addr: u64)
    by (bit_vector)
    requires
        addr % 64 == 0,
    ensures
        with_field64(old, POINTER_MASK_58, 6, addr >> 6) == addr | (old & 0x3F),
{
}

/// What the writes to USBCMD hold: stopping clears Run/Stop, Interrupter
/// Enable, Host System Error Enable and Enable Wrap Event one after the
/// other; the reset sets HCRST with Run/Stop clear; starting sets
/// Interrupter Enable and then Run/Stop. Every other bit stays.
pub proof fn lemma_usbcmd_values(usbcmd: u32)
    by (bit_vector)
    ensures
        with_field32(usbcmd, 1, 0, 0) == usbcmd & !0x1u32,
        with_field32(with_field32(usbcmd, 1, 0, 0), 1, 2, 0) == usbcmd & !0x5u32,
        with_field32(with_field32(with_field32(usbcmd, 1, 0, 0), 1, 2, 0), 1, 3, 0) == usbcmd & !0xDu32,
        with_field32(with_field32(with_field32(with_field32(usbcmd, 1, 0, 0), 1, 2, 0), 1, 3, 0), 1, 10, 0)
            == usbcmd & !0x40Du32,
        with_field32(with_field32(usbcmd, 1, 0, 0), 1, 1, 1) == (usbcmd & !0x1u32) | 2,
        with_field32(usbcmd, 1, 2, 1) == usbcmd | 4,
        with_field32(with_field32(usbcmd, 1, 2, 1), 1, 0, 1) == usbcmd | 5,
{
}

/// What the two writes to IMAN hold: the first acknowledges a pending
/// interrupt by writing Interrupt Pending as 1; the second enables the
/// interrupt and writes Interrupt Pending as 0, so that it acknowledges
/// nothing.
pub proof fn lemma_iman_values(iman: u32)
    by (bit_vector)
    ensures
        with_field32(iman, 1, 0, 1) == iman | 1,
        with_field32(with_field32(iman, 1, 0, 0), 1, 1, 1) == (iman & !0x1u32) | 2,
{
}

} // verus!
