//! Transfer Rings and the builders of the TRBs that go on them.

use vstd::prelude::*;
use vstd::std_specs::convert::FromSpecImpl;
use crate::bits::{with_field32, write_field32};
use crate::ring::{Ring, RingView, TrbWrite};
use crate::trb::{GenericTrb, TrbType};

verus! {

/// The Transfer Ring of one endpoint.
#[derive(Debug)]
pub struct TransferRing {
    pub ring: Ring,
}

impl View for TransferRing {
    type V = RingView;

    open spec fn view(&self) -> RingView {
        self.ring@
    }
}

impl TransferRing {
    /// The ring's invariant.
    pub open spec fn wf(&self) -> bool {
        self.ring.wf()
    }

    /// A Transfer Ring of `capacity` zeroed entries at the physical address
    /// `phys_base`, with the producer cycle state 1.
    pub fn with_capacity(capacity: usize, phys_base: u64) -> (r: TransferRing)
        requires
            capacity >= 2,
            phys_base % 64 == 0,
            phys_base + 16 * capacity <= u64::MAX,
        ensures
            r.wf(),
            r@ == RingView::fresh(capacity as nat, phys_base),
    {
        TransferRing { ring: Ring::with_capacity(capacity, phys_base) }
    }

    /// Enqueues `trb` with the producer cycle state as its cycle bit.
    pub fn push_command(&mut self, trb: GenericTrb)
        requires
            old(self).wf(),
        ensures
            final(self).wf(),
            final(self)@ == old(self)@.push(trb),
    {
        self.ring.push(trb);
    }

    /// Hands out the recorded memory writes, oldest first, and forgets them.
    pub fn take_pending(&mut self) -> (r: Vec<TrbWrite>)
        ensures
            r@ == old(self)@.pending,
            final(self)@ == (RingView { pending: Seq::empty(), ..old(self)@ }),
    {
        self.ring.take_pending()
    }
}

/// `v` as a one-bit field value.
pub open spec fn bit(v: bool) -> u32 {
    if v {
        1
    } else {
        0
    }
}

fn bit_of(v: bool) -> (r: u32)
    ensures
        r == bit(v),
{
    if v {
        1
    } else {
        0
    }
}

/// A Normal TRB: one buffer of a bulk or interrupt transfer.
pub struct Normal(pub GenericTrb);

impl Normal {
    /// A Normal TRB with every field but the type zero.
    pub open spec fn spec_new() -> GenericTrb {
        GenericTrb { control: with_field32(0, 0x3F, 10, 1), ..GenericTrb::zero() }
    }

    /// A Normal TRB with every field but the type zero.
    pub fn new() -> (r: Normal)
        ensures
            r.0 == Normal::spec_new(),
    {
        let mut trb = GenericTrb::default();
        trb.set_trb_type(TrbType::Normal);
        Normal(trb)
    }

    /// Replaces the parameter by the physical address of the data buffer.
    pub fn set_data_buffer_pointer(&mut self, data_buffer_pointer: u64)
        ensures
            final(self).0 == (GenericTrb {
                data_low: data_buffer_pointer as u32,
                data_high: (data_buffer_pointer >> 32) as u32,
                ..old(self).0
            }),
    {
        self.0.data_low = data_buffer_pointer as u32;
        self.0.data_high = (data_buffer_pointer >> 32) as u32;
    }

    /// Replaces the Interrupt On Short Packet flag.
    pub fn set_interrupt_on_short_packet(&mut self, interrupt_on_short_packet: bool)
        ensures
            final(self).0 == (GenericTrb {
                control: with_field32(old(self).0.control, 1, 2, bit(interrupt_on_short_packet)),
                ..old(self).0
            }),
    {
        self.0.control = write_field32(self.0.control, 1, 2, bit_of(interrupt_on_short_packet));
    }

    /// Replaces the 17-bit TRB Transfer Length.
    pub fn set_trb_transfer_length(&mut self, trb_transfer_length: u32)
        ensures
            final(self).0 == (GenericTrb {
                status: with_field32(old(self).0.status, 0x1FFFF, 0, trb_transfer_length),
                ..old(self).0
            }),
    {
        self.0.status = write_field32(self.0.status, 0x1FFFF, 0, trb_transfer_length);
    }

    /// Replaces the Interrupt On Completion flag.
    pub fn set_interrupt_on_completion(&mut self, interrupt_on_completion: bool)
        ensures
            final(self).0 == (GenericTrb {
                control: with_field32(old(self).0.control, 1, 5, bit(interrupt_on_completion)),
                ..old(self).0
            }),
    {
        self.0.control = write_field32(self.0.control, 1, 5, bit_of(interrupt_on_completion));
    }

}

impl From<Normal> for GenericTrb {
    fn from(value: Normal) -> (r: GenericTrb) {
        value.0
    }
}

impl FromSpecImpl<Normal> for GenericTrb {
    open spec fn obeys_from_spec() -> bool {
        true
    }

    open spec fn from_spec(value: Normal) -> GenericTrb {
        value.0
    }
}

/// A Setup Stage TRB: the eight bytes of a USB Setup packet, carried in
/// the parameter itself.
pub struct SetupStage(pub GenericTrb);

impl SetupStage {
    /// A Setup Stage TRB with Immediate Data set and the transfer length 8;
    /// the Setup packet is zero.
    pub open spec fn spec_new() -> GenericTrb {
        GenericTrb {
            data_low: 0,
            data_high: 0,
            status: with_field32(0, 0x1FFFF, 0, 8),
            control: with_field32(with_field32(0, 0x3F, 10, 2), 1, 6, 1),
        }
    }

    /// The Setup Stage TRB of a GET_DESCRIPTOR request (device to host,
    /// standard, to the device) for the descriptor `desc_type`, `desc_index`,
    /// with `buf_len` bytes to come in the Data Stage.
    pub open spec fn spec_get_descriptor(desc_type: u16, desc_index: u16, buf_len: u16) -> GenericTrb {
        let n = SetupStage::spec_new();
        GenericTrb {
            data_low: with_field32(
                with_field32(with_field32(n.data_low, 0xFF, 0, 0x80), 0xFF, 8, 6),
                0xFFFF,
                16,
                ((desc_type << 8) | desc_index) as u32,
            ),
            data_high: with_field32(with_field32(n.data_high, 0xFFFF, 0, 0), 0xFFFF, 16, buf_len as u32),
            status: n.status,
            control: with_field32(n.control, 3, 16, 3),
        }
    }

    /// Builds the Setup Stage TRB of a GET_DESCRIPTOR request.
    pub fn get_descriptor(desc_type: u16, desc_index: u16, buf_len: u16) -> (r: SetupStage)
        ensures
            r.0 == SetupStage::spec_get_descriptor(desc_type, desc_index, buf_len),
    {
        let mut setup_stage = SetupStage::new();
        setup_stage.set_request_type(0x80);
        setup_stage.set_request(6);
        setup_stage.set_value((desc_type << 8) | desc_index);
        setup_stage.set_index(0);
        setup_stage.set_length(buf_len);
        setup_stage.set_transfer_type(3);
        setup_stage
    }

    /// A Setup Stage TRB with Immediate Data set and the transfer length 8.
    pub fn new() -> (r: SetupStage)
        ensures
            r.0 == SetupStage::spec_new(),
    {
        let mut trb = GenericTrb::default();
        trb.set_trb_type(TrbType::SetupStage);
        let mut val = SetupStage(trb);
        val.set_idt(true);
        val.set_trb_transfer_length();
        val
    }

    /// Replaces the Immediate Data flag.
    pub fn set_idt(&mut self, idt: bool)
        ensures
            final(self).0 == (GenericTrb {
                control: with_field32(old(self).0.control, 1, 6, bit(idt)),
                ..old(self).0
            }),
    {
        self.0.control = write_field32(self.0.control, 1, 6, bit_of(idt));
    }

    /// Sets the TRB Transfer Length to 8, the size of a Setup packet.
    pub fn set_trb_transfer_length(&mut self)
        ensures
            final(self).0 == (GenericTrb {
                status: with_field32(old(self).0.status, 0x1FFFF, 0, 8),
                ..old(self).0
            }),
    {
        self.0.status = write_field32(self.0.status, 0x1FFFF, 0, 8);
    }

    /// Replaces bmRequestType.
    pub fn set_request_type(&mut self, request_type: u8)
        ensures
            final(self).0 == (GenericTrb {
                data_low: with_field32(old(self).0.data_low, 0xFF, 0, request_type as u32),
                ..old(self).0
            }),
    {
        self.0.data_low = write_field32(self.0.data_low, 0xFF, 0, request_type as u32);
    }

    /// Replaces bRequest.
    pub fn set_request(&mut self, request: u8)
        ensures
            final(self).0 == (GenericTrb {
                data_low: with_field32(old(self).0.data_low, 0xFF, 8, request as u32),
                ..old(self).0
            }),
    {
        self.0.data_low = write_field32(self.0.data_low, 0xFF, 8, request as u32);
    }

    /// Replaces wValue.
    pub fn set_value(&mut self, value: u16)
        ensures
            final(self).0 == (GenericTrb {
                data_low: with_field32(old(self).0.data_low, 0xFFFF, 16, value as u32),
                ..old(self).0
            }),
    {
        self.0.data_low = write_field32(self.0.data_low, 0xFFFF, 16, value as u32);
    }

    /// Replaces wIndex.
    pub fn set_index(&mut self, index: u16)
        ensures
            final(self).0 == (GenericTrb {
                data_high: with_field32(old(self).0.data_high, 0xFFFF, 0, index as u32),
                ..old(self).0
            }),
    {
        self.0.data_high = write_field32(self.0.data_high, 0xFFFF, 0, index as u32);
    }

    /// Replaces wLength.
    pub fn set_length(&mut self, length: u16)
        ensures
            final(self).0 == (GenericTrb {
                data_high: with_field32(old(self).0.data_high, 0xFFFF, 16, length as u32),
                ..old(self).0
            }),
    {
        self.0.data_high = write_field32(self.0.data_high, 0xFFFF, 16, length as u32);
    }

    /// Replaces the 10-bit Interrupter Target.
    pub fn set_interrupter_target(&mut self, interrupter_target: u16)
        ensures
            final(self).0 == (GenericTrb {
                status: with_field32(old(self).0.status, 0x3FF, 22, interrupter_target as u32),
                ..old(self).0
            }),
    {
        self.0.status = write_field32(self.0.status, 0x3FF, 22, interrupter_target as u32);
    }

    /// Replaces the Transfer Type: 0 for no Data Stage, 2 for an OUT and 3 for an IN Data Stage.
    pub fn set_transfer_type(&mut self, transfer_type: u8)
        ensures
            final(self).0 == (GenericTrb {
                control: with_field32(old(self).0.control, 3, 16, transfer_type as u32),
                ..old(self).0
            }),
    {
        self.0.control = write_field32(self.0.control, 3, 16, transfer_type as u32);
    }

}

impl From<SetupStage> for GenericTrb {
    fn from(value: SetupStage) -> (r: GenericTrb) {
        value.0
    }
}

impl FromSpecImpl<SetupStage> for GenericTrb {
    open spec fn obeys_from_spec() -> bool {
        true
    }

    open spec fn from_spec(value: SetupStage) -> GenericTrb {
        value.0
    }
}

/// A Data Stage TRB: the buffer of a control transfer.
pub struct DataStage(pub GenericTrb);

impl DataStage {
    /// The Data Stage TRB for the buffer of `buf_len` bytes at the physical
    /// address `buf_addr`, with TD Size 0, the direction bit `direction` (1
    /// is IN) and the Interrupt On Completion flag `interrupt_on_completion`.
    pub open spec fn spec_data_stage(
        buf_addr: u64,
        buf_len: u16,
        direction: u8,
        interrupt_on_completion: u8,
    ) -> GenericTrb {
        GenericTrb {
            data_low: buf_addr as u32,
            data_high: (buf_addr >> 32) as u32,
            status: with_field32(with_field32(0, 0x1FFFF, 0, buf_len as u32), 0x1F, 17, 0),
            control: with_field32(
                with_field32(with_field32(0, 0x3F, 10, 3), 1, 16, direction as u32),
                1,
                5,
                interrupt_on_completion as u32,
            ),
        }
    }

    /// Builds a Data Stage TRB.
    pub fn data_stage(buf_addr: u64, buf_len: u16, direction: u8, interrupt_on_completion: u8) -> (r:
        DataStage)
        ensures
            r.0 == DataStage::spec_data_stage(buf_addr, buf_len, direction, interrupt_on_completion),
    {
        let mut trb = GenericTrb::default();
        trb.set_trb_type(TrbType::DataStage);
        trb.data_low = buf_addr as u32;
        trb.data_high = (buf_addr >> 32) as u32;
        trb.status = write_field32(trb.status, 0x1FFFF, 0, buf_len as u32);
        trb.status = write_field32(trb.status, 0x1F, 17, 0);
        trb.control = write_field32(trb.control, 1, 16, direction as u32);
        trb.control = write_field32(trb.control, 1, 5, interrupt_on_completion as u32);
        DataStage(trb)
    }
}

impl From<DataStage> for GenericTrb {
    fn from(value: DataStage) -> (r: GenericTrb) {
        value.0
    }
}

impl FromSpecImpl<DataStage> for GenericTrb {
    open spec fn obeys_from_spec() -> bool {
        true
    }

    open spec fn from_spec(value: DataStage) -> GenericTrb {
        value.0
    }
}

/// A Status Stage TRB: the handshake that ends a control transfer.
pub struct StatusStage(pub GenericTrb);

impl StatusStage {
    /// A Status Stage TRB with every field but the type zero.
    pub open spec fn spec_new() -> GenericTrb {
        GenericTrb { control: with_field32(0, 0x3F, 10, 4), ..GenericTrb::zero() }
    }

    /// A Status Stage TRB with every field but the type zero.
    pub fn new() -> (r: StatusStage)
        ensures
            r.0 == StatusStage::spec_new(),
    {
        let mut trb = GenericTrb::default();
        trb.set_trb_type(TrbType::StatusStage);
        StatusStage(trb)
    }

    /// Replaces the Interrupt On Completion flag.
    pub fn set_interrupt_on_completion(&mut self, interrupt_on_completion: bool)
        ensures
            final(self).0 == (GenericTrb {
                control: with_field32(old(self).0.control, 1, 5, bit(interrupt_on_completion)),
                ..old(self).0
            }),
    {
        self.0.control = write_field32(self.0.control, 1, 5, bit_of(interrupt_on_completion));
    }

    /// Replaces the direction bit: 1 is IN.
    pub fn set_direction(&mut self, direction: u8)
        ensures
            final(self).0 == (GenericTrb {
                control: with_field32(old(self).0.control, 1, 16, direction as u32),
                ..old(self).0
            }),
    {
        self.0.control = write_field32(self.0.control, 1, 16, direction as u32);
    }

}

impl From<StatusStage> for GenericTrb {
    fn from(value: StatusStage) -> (r: GenericTrb) {
        value.0
    }
}

impl FromSpecImpl<StatusStage> for GenericTrb {
    open spec fn obeys_from_spec() -> bool {
        true
    }

    open spec fn from_spec(value: StatusStage) -> GenericTrb {
        value.0
    }
}

} // verus!
