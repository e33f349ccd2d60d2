//! The Command Ring: the producer ring on which software hands commands to
//! the controller.

use vstd::prelude::*;
use crate::bits::{field_of32, with_field32, lemma_pointer_words};
use crate::ring::{stamped, Ring, RingView, TrbWrite};
use crate::trb::{GenericTrb, TrbType};

verus! {

/// The command TRB of type `trb_type` for slot `slot_id`, with `pointer` in
/// its parameter; the cycle bit is 0 until the ring stamps it.
pub open spec fn command_trb(trb_type: TrbType, pointer: u64, slot_id: u8) -> GenericTrb {
    GenericTrb {
        data_low: with_field32(0, 0x0FFF_FFFF, 4, (pointer >> 4) as u32),
        data_high: (pointer >> 32) as u32,
        status: 0,
        control: with_field32(
            with_field32(0, 0x3F, 10, trb_type.spec_code() as u32),
            0xFF,
            24,
            slot_id as u32,
        ),
    }
}

/// The Command Ring.
#[derive(Debug)]
pub struct CommandRing {
    pub ring: Ring,
}

impl View for CommandRing {
    type V = RingView;

    open spec fn view(&self) -> RingView {
        self.ring@
    }
}

impl CommandRing {
    /// The ring's invariant.
    pub open spec fn wf(&self) -> bool {
        self.ring.wf()
    }

    /// A Command Ring of `capacity` zeroed entries at the physical address
    /// `phys_base`, with the producer cycle state 1.
    pub fn with_capacity(capacity: usize, phys_base: u64) -> (r: CommandRing)
        requires
            capacity >= 2,
            phys_base % 64 == 0,
            phys_base + 16 * capacity <= u64::MAX,
        ensures
            r.wf(),
            r@ == RingView::fresh(capacity as nat, phys_base),
    {
        CommandRing { ring: Ring::with_capacity(capacity, phys_base) }
    }

    /// Builds a command TRB.
    pub fn build(trb_type: TrbType, pointer: u64, slot_id: u8) -> (r: GenericTrb)
        ensures
            r == command_trb(trb_type, pointer, slot_id),
    {
        let mut trb = GenericTrb::default();
        trb.set_trb_type(trb_type);
        trb.set_pointer(pointer);
        trb.set_slot_id(slot_id);
        trb
    }

    /// Enqueues a command TRB as it is, cycle bit apart.
    pub fn push_command(&mut self, trb: GenericTrb)
        requires
            old(self).wf(),
        ensures
            final(self).wf(),
            final(self)@ == old(self)@.push(trb),
    {
        self.ring.push(trb);
    }

    /// Enqueues an Enable Slot command.
    pub fn push_enable_slot_command(&mut self)
        requires
            old(self).wf(),
        ensures
            final(self).wf(),
            final(self)@ == old(self)@.push(command_trb(TrbType::EnableSlot, 0, 0)),
    {
        self.ring.push(Self::build(TrbType::EnableSlot, 0, 0));
    }

    /// Enqueues a Disable Slot command for `slot_id`.
    pub fn push_disable_slot_command(&mut self, slot_id: u8)
        requires
            old(self).wf(),
        ensures
            final(self).wf(),
            final(self)@ == old(self)@.push(command_trb(TrbType::DisableSlot, 0, slot_id)),
    {
        self.ring.push(Self::build(TrbType::DisableSlot, 0, slot_id));
    }

    /// Enqueues an Address Device command for `slot_id`, whose Input Context
    /// lies at the 16-byte aligned physical address `input_context_addr`.
    pub fn push_address_device_command(&mut self, input_context_addr: u64, slot_id: u8)
        requires
            old(self).wf(),
            input_context_addr % 16 == 0,
        ensures
            final(self).wf(),
            final(self)@ == old(self)@.push(
                command_trb(TrbType::AddressDevice, input_context_addr, slot_id),
            ),
    {
        self.ring.push(Self::build(TrbType::AddressDevice, input_context_addr, slot_id));
    }

    /// Enqueues a Configure Endpoint command for `slot_id`, whose Input
    /// Context lies at the 64-byte aligned physical address
    /// `input_context_addr`.
    pub fn push_configure_endpoint_command(&mut self, input_context_addr: u64, slot_id: u8)
        requires
            old(self).wf(),
            input_context_addr % 64 == 0,
        ensures
            final(self).wf(),
            final(self)@ == old(self)@.push(
                command_trb(TrbType::ConfigureEndpoint, input_context_addr, slot_id),
            ),
    {
        self.ring.push(Self::build(TrbType::ConfigureEndpoint, input_context_addr, slot_id));
    }

    /// Enqueues a No Op.
    pub fn push_no_op_command(&mut self)
        requires
            old(self).wf(),
        ensures
            final(self).wf(),
            final(self)@ == old(self)@.push(command_trb(TrbType::NoOp, 0, 0)),
    {
        self.ring.push(Self::build(TrbType::NoOp, 0, 0));
    }

    /// The index of the entry at the physical address `pointer`, if the
    /// address is that of an entry of this ring.
    pub open spec fn spec_index_of(self, pointer: u64) -> Option<usize> {
        if self@.phys_base <= pointer && pointer < self@.phys_base + 16 * self@.buf.len() && (
        pointer - self@.phys_base) % 16 == 0 {
            Some(((pointer - self@.phys_base) / 16) as usize)
        } else {
            None
        }
    }

    /// The command that was enqueued at the physical address `pointer`, as
    /// a Command Completion event reports it; `None` if the address is not
    /// that of an entry of this ring.
    pub fn trb_at(&self, pointer: u64) -> (r: Option<GenericTrb>)
        requires
            self.wf(),
        ensures
            r == match self.spec_index_of(pointer) {
                Some(i) => Some(self@.buf[i as int]),
                None => None,
            },
    {
        if pointer < self.ring.phys_base {
            return None;
        }
        let off: u64 = pointer - self.ring.phys_base;
        if off % 16 != 0 {
            return None;
        }
        let idx: u64 = off / 16;
        if idx >= self.ring.buf.len() as u64 {
            return None;
        }
        Some(self.ring.buf[idx as usize])
    }

    /// Hands out the recorded memory writes, oldest first, and forgets them.
    pub fn take_pending(&mut self) -> (r: Vec<TrbWrite>)
        ensures
            r@ == old(self)@.pending,
            final(self)@ == (RingView { pending: Seq::empty(), ..old(self)@ }),
    {
        self.ring.take_pending()
    }
}

proof fn lemma_command_control(code: u32, slot: u32, c: u32)
    by (bit_vector)
    requires
        code < 64,
        slot < 256,
        c <= 1,
    ensures
        field_of32(with_field32(with_field32(with_field32(0, 0x3F, 10, code), 0xFF, 24, slot), 1, 0, c), 0x3F, 10)
            == code,
        field_of32(with_field32(with_field32(with_field32(0, 0x3F, 10, code), 0xFF, 24, slot), 1, 0, c), 0xFF, 24)
            == slot,
        field_of32(with_field32(with_field32(with_field32(0, 0x3F, 10, code), 0xFF, 24, slot), 1, 0, c), 1, 0) == c,
{
}

/// A command TRB on the ring reads as what it was built from: its type,
/// its slot id, the cycle bit that the ring gave it and, for a 16-byte
/// aligned pointer, the pointer as its parameter.
pub proof fn lemma_command_trb_fields(trb_type: TrbType, pointer: u64, slot_id: u8, cycle: bool)
    requires
        pointer % 16 == 0,
    ensures
        stamped(command_trb(trb_type, pointer, slot_id), cycle).spec_trb_type() == trb_type,
        field_of32(stamped(command_trb(trb_type, pointer, slot_id), cycle).control, 0xFF, 24)
            == slot_id,
        stamped(command_trb(trb_type, pointer, slot_id), cycle).spec_pcs() == cycle,
        stamped(command_trb(trb_type, pointer, slot_id), cycle).parameter() == pointer,
        stamped(command_trb(trb_type, pointer, slot_id), cycle).status == 0,
{
    lemma_command_control(trb_type.spec_code() as u32, slot_id as u32, if cycle { 1u32 } else { 0u32 });
    TrbType::lemma_decode_code(trb_type);
    lemma_pointer_words(pointer);
}

} // verus!
