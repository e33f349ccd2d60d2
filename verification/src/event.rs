//! The Event Ring, on which the controller reports to software, the Event
//! Ring Segment Table that tells the controller where the ring lies, and
//! typed readings of the event TRBs.

use vstd::prelude::*;
use crate::bits::{field_of32, read_field32, lemma_field_bound32, byte_of32, byte_of64, get_byte32, get_byte64};
use crate::registers::{lemma_erdp_value, Interrupter, RegWrite, Reg, Registers, Runtime};
use crate::trb::{GenericTrb, TrbType};

verus! {

/// What an Event Ring is: the image of its entries, the consumer cycle
/// state, the index of the next entry to read and the physical address of
/// entry 0.
pub struct EventRingView {
    pub buf: Seq<GenericTrb>,
    pub cycle_bit: bool,
    pub deq_idx: nat,
    pub phys_base: u64,
}

impl EventRingView {
    /// The ring has an entry, the dequeue index is inside it, and the ring
    /// lies 64-byte aligned in the address space.
    pub open spec fn wf(self) -> bool {
        &&& self.buf.len() >= 1
        &&& self.buf.len() <= usize::MAX
        &&& self.deq_idx < self.buf.len()
        &&& self.phys_base % 64 == 0
        &&& self.phys_base + 16 * self.buf.len() <= u64::MAX
    }

    /// The entry at the dequeue index.
    pub open spec fn front(self) -> GenericTrb {
        self.buf[self.deq_idx as int]
    }

    /// Whether the entry at the dequeue index belongs to software: its
    /// cycle bit is the consumer cycle state.
    pub open spec fn front_valid(self) -> bool {
        self.front().spec_pcs() == self.cycle_bit
    }

    /// The ring after `k` entries, at most a whole lap, were consumed: the
    /// dequeue index has moved on by `k`, and the cycle state has flipped if
    /// the index passed the last entry.
    pub open spec fn after(self, k: nat) -> EventRingView {
        if self.deq_idx + k >= self.buf.len() {
            EventRingView {
                deq_idx: (self.deq_idx + k - self.buf.len()) as nat,
                cycle_bit: !self.cycle_bit,
                ..self
            }
        } else {
            EventRingView { deq_idx: self.deq_idx + k, ..self }
        }
    }

    /// The physical address of the entry at the dequeue index.
    pub open spec fn deq_addr(self) -> u64 {
        (self.phys_base + 16 * self.deq_idx) as u64
    }

    /// The controller has posted `events`, in this order, from the dequeue
    /// index on: each lies in its entry with the cycle bit of its lap.
    pub open spec fn holds(self, events: Seq<GenericTrb>) -> bool {
        &&& events.len() <= self.buf.len()
        &&& forall|i: nat|
            i < events.len() ==> {
                &&& #[trigger] self.after(i).front() == events[i as int]
                &&& self.after(i).front_valid()
            }
    }
}

/// The Event Ring.
#[derive(Debug)]
pub struct EventRing {
    pub buf: Vec<GenericTrb>,
    pub cycle_bit: bool,
    pub write_idx: usize,
    pub phys_base: u64,
}

impl View for EventRing {
    type V = EventRingView;

    open spec fn view(&self) -> EventRingView {
        EventRingView {
            buf: self.buf@,
            cycle_bit: self.cycle_bit,
            deq_idx: self.write_idx as nat,
            phys_base: self.phys_base,
        }
    }
}

impl EventRing {
    /// The ring's invariant.
    pub open spec fn wf(&self) -> bool {
        self@.wf()
    }

    /// An Event Ring of `capacity` zeroed entries at the physical address
    /// `phys_base`, with the consumer cycle state 1.
    pub fn with_capacity(capacity: usize, phys_base: u64) -> (r: EventRing)
        requires
            capacity >= 1,
            phys_base % 64 == 0,
            phys_base + 16 * capacity <= u64::MAX,
        ensures
            r.wf(),
            r@ == (EventRingView {
                buf: Seq::new(capacity as nat, |i: int| GenericTrb::zero()),
                cycle_bit: true,
                deq_idx: 0,
                phys_base,
            }),
    {
        let mut buf: Vec<GenericTrb> = Vec::new();
        let mut i: usize = 0;
        while i < capacity
            invariant
                i <= capacity,
                buf@.len() == i,
                forall|j: int| 0 <= j < i ==> buf@[j] == GenericTrb::zero(),
            decreases capacity - i,
        {
            buf.push(GenericTrb::default());
            i += 1;
        }
        let r = EventRing { buf, cycle_bit: true, write_idx: 0, phys_base };
        assert(r@.buf =~= Seq::new(capacity as nat, |i: int| GenericTrb::zero()));
        r
    }

    /// Takes the contents of the entry `index` as read from the ring's
    /// memory.
    pub fn store(&mut self, index: usize, trb: GenericTrb)
        requires
            old(self).wf(),
            index < old(self)@.buf.len(),
        ensures
            final(self).wf(),
            final(self)@ == (EventRingView { buf: old(self)@.buf.update(index as int, trb), ..old(self)@ }),
    {
        self.buf.set(index, trb);
    }

    /// Dequeues the next event, if the controller has posted one: the entry
    /// at the dequeue index when its cycle bit is the consumer cycle state.
    /// The dequeue index then moves on, flipping the cycle state when it
    /// wraps to 0, and ERDP is written with the address of the new dequeue
    /// entry and Event Handler Busy set. Without an event nothing changes.
    pub fn next(&mut self, registers: &mut Registers) -> (r: Option<GenericTrb>)
        requires
            old(self).wf(),
        ensures
            final(self).wf(),
            final(self).buf == old(self).buf,
            !old(self)@.front_valid() ==> {
                &&& r.is_none()
                &&& *final(self) == *old(self)
                &&& *final(registers) == *old(registers)
            },
            old(self)@.front_valid() ==> {
                &&& r == Some(old(self)@.front())
                &&& final(self)@ == old(self)@.after(1)
                &&& final(registers).operational == old(registers).operational
                &&& final(registers).runtime == (Runtime {
                    primary: Interrupter {
                        erdp: Registers::spec_erdp(old(registers).runtime.primary.erdp, final(self)@.deq_addr()),
                        ..old(registers).runtime.primary
                    },
                    ..old(registers).runtime
                })
                &&& final(registers).appended(
                    old(registers),
                    seq![RegWrite { reg: Reg::Erdp, value: final(registers).runtime.primary.erdp }],
                )
            },
    {
        let trb = self.buf[self.write_idx];
        if trb.pcs() != self.cycle_bit {
            return None;
        }
        self.write_idx += 1;
        if self.write_idx == self.buf.len() {
            self.write_idx = 0;
            self.cycle_bit = !self.cycle_bit;
        }
        registers.set_erdp(self.phys_base + 16 * (self.write_idx as u64));
        Some(trb)
    }

    /// Dequeues every event that the controller has posted, a whole lap at
    /// most, and returns them in the order of their posting. ERDP is written
    /// after each one; in the end it holds the address of the entry at which
    /// the draining stopped.
    pub fn drain(&mut self, registers: &mut Registers) -> (r: Vec<GenericTrb>)
        requires
            old(self).wf(),
        ensures
            final(self).wf(),
            final(self).buf == old(self).buf,
            old(self)@.holds(r@),
            r@.len() < old(self)@.buf.len() ==> !old(self)@.after(r@.len()).front_valid(),
            final(self)@ == old(self)@.after(r@.len()),
            final(registers).operational == old(registers).operational,
            final(registers).runtime == (Runtime {
                primary: Interrupter {
                    erdp: if r@.len() == 0 {
                        old(registers).runtime.primary.erdp
                    } else {
                        Registers::spec_erdp(old(registers).runtime.primary.erdp, final(self)@.deq_addr())
                    },
                    ..old(registers).runtime.primary
                },
                ..old(registers).runtime
            }),
            final(registers).appended(
                old(registers),
                Seq::new(
                    r@.len(),
                    |i: int|
                        RegWrite {
                            reg: Reg::Erdp,
                            value: Registers::spec_erdp(
                                old(registers).runtime.primary.erdp,
                                old(self)@.after((i + 1) as nat).deq_addr(),
                            ),
                        },
                ),
            ),
    {
        let mut out: Vec<GenericTrb> = Vec::new();
        let n = self.buf.len();
        assert(self@ == old(self)@.after(0));
        assert(registers.writes@ =~= old(registers).writes@ + Seq::<RegWrite>::empty());
        while out.len() < n
            invariant
                n == old(self)@.buf.len(),
                old(self)@.wf(),
                self.wf(),
                self.buf == old(self).buf,
                out@.len() <= n,
                self@ == old(self)@.after(out@.len()),
                forall|i: nat|
                    i < out@.len() ==> {
                        &&& #[trigger] old(self)@.after(i).front() == out@[i as int]
                        &&& old(self)@.after(i).front_valid()
                    },
                registers.base == old(registers).base,
                registers.capability == old(registers).capability,
                registers.operational == old(registers).operational,
                registers.runtime == (Runtime {
                    primary: Interrupter {
                        erdp: if out@.len() == 0 {
                            old(registers).runtime.primary.erdp
                        } else {
                            Registers::spec_erdp(old(registers).runtime.primary.erdp, self@.deq_addr())
                        },
                        ..old(registers).runtime.primary
                    },
                    ..old(registers).runtime
                }),
                registers.writes@ == old(registers).writes@ + Seq::new(
                    out@.len(),
                    |i: int|
                        RegWrite {
                            reg: Reg::Erdp,
                            value: Registers::spec_erdp(
                                old(registers).runtime.primary.erdp,
                                old(self)@.after((i + 1) as nat).deq_addr(),
                            ),
                        },
                ),
            decreases n - out@.len(),
        {
            let ghost k = out@.len();
            match self.next(registers) {
                None => {
                    return out;
                },
                Some(trb) => {
                    out.push(trb);
                    proof {
                        lemma_after_step(old(self)@, k);
                        lemma_erdp_again(old(registers).runtime.primary.erdp, old(self)@.after(k).deq_addr(), self@.deq_addr());
                        assert(registers.writes@ =~= old(registers).writes@ + Seq::new(
                            out@.len(),
                            |i: int|
                                RegWrite {
                                    reg: Reg::Erdp,
                                    value: Registers::spec_erdp(
                                        old(registers).runtime.primary.erdp,
                                        old(self)@.after((i + 1) as nat).deq_addr(),
                                    ),
                                },
                        ));
                    }
                },
            }
        }
        out
    }

    /// The number of entries.
    pub fn len(&self) -> (r: usize)
        ensures
            r == self@.buf.len(),
    {
        self.buf.len()
    }

    /// The physical address of entry 0.
    pub fn addr(&self) -> (r: u64)
        ensures
            r == self@.phys_base,
    {
        self.phys_base
    }
}

/// Consuming one more entry after `k` is consuming `k + 1`, within a lap.
pub proof fn lemma_after_step(v: EventRingView, k: nat)
    requires
        v.wf(),
        k < v.buf.len(),
    ensures
        v.after(k).wf(),
        v.after(k).after(1) == v.after(k + 1),
{
}

/// Draining dequeues exactly the events that were posted: two runs of
/// events that the ring holds from its dequeue index on, each of which ends
/// at a stale entry or after a whole lap, are the same.
pub proof fn lemma_drained_exactly(v: EventRingView, drained: Seq<GenericTrb>, posted: Seq<GenericTrb>)
    requires
        v.wf(),
        v.holds(drained),
        drained.len() < v.buf.len() ==> !v.after(drained.len()).front_valid(),
        v.holds(posted),
        posted.len() < v.buf.len() ==> !v.after(posted.len()).front_valid(),
    ensures
        drained == posted,
{
    if drained.len() < posted.len() {
        assert(v.after(drained.len()).front_valid());
    } else if posted.len() < drained.len() {
        assert(v.after(posted.len()).front_valid());
    } else {
        assert forall|i: int| 0 <= i < drained.len() implies drained[i] == posted[i] by {
            assert(v.after(i as nat).front() == drained[i]);
            assert(v.after(i as nat).front() == posted[i]);
        }
        assert(drained =~= posted);
    }
}

/// A second write of ERDP leaves nothing of the first: what ERDP holds
/// goes by the last address written and by the segment index.
pub proof fn lemma_erdp_again(erdp: u64, first: u64, second: u64)
    by (bit_vector)
    ensures
        Registers::spec_erdp(Registers::spec_erdp(erdp, first), second) == Registers::spec_erdp(erdp, second),
{
}

/// Events that the controller has posted are dequeued in the order of their
/// posting: after `i` of them were consumed, the entry at the dequeue index
/// is valid and holds the next one, and consuming it leads to the state
/// after `i + 1`. The dequeue index wraps at most once on the way.
pub proof fn lemma_dequeue_in_order(v: EventRingView, events: Seq<GenericTrb>, i: nat)
    requires
        v.wf(),
        v.holds(events),
        i < events.len(),
    ensures
        v.after(i).wf(),
        v.after(i).front_valid(),
        v.after(i).front() == events[i as int],
        v.after(i).after(1) == v.after(i + 1),
        v.after(i + 1).deq_idx == (v.deq_idx + i + 1) as int % (v.buf.len() as int),
        v.after(i + 1).cycle_bit == (if v.deq_idx + i + 1 >= v.buf.len() {
            !v.cycle_bit
        } else {
            v.cycle_bit
        }),
{
    let n = v.buf.len() as int;
    let s = (v.deq_idx + i + 1) as int;
    if s >= n {
        assert(s - n < n);
        assert(s % n == s - n) by (nonlinear_arith)
            requires
                n <= s,
                s - n < n,
                n > 0,
        ;
    } else {
        assert(s % n == s) by (nonlinear_arith)
            requires
                0 <= s,
                s < n,
        ;
    }
}

/// After each dequeue ERDP holds the physical address of the new dequeue
/// entry, which is the ring's base plus 16 times the dequeue index, with
/// Event Handler Busy set; the segment index in its low bits stays.
pub proof fn lemma_dequeue_erdp(v: EventRingView, erdp: u64)
    requires
        v.wf(),
    ensures
        v.deq_addr() == v.phys_base + 16 * v.deq_idx,
        Registers::spec_erdp(erdp, v.deq_addr()) == v.deq_addr() | 8 | (erdp & 7),
{
    assert(v.deq_addr() % 16 == 0);
    lemma_erdp_value(erdp, v.deq_addr());
}

/// A Port Status Change event.
pub struct PortStatusChangeEvent(pub GenericTrb);

impl PortStatusChangeEvent {
    /// Reads `value` as a Port Status Change event.
    pub fn from(value: GenericTrb) -> (r: PortStatusChangeEvent)
        requires
            value.spec_trb_type() == TrbType::PortStatusChange,
        ensures
            r.0 == value,
    {
        PortStatusChangeEvent(value)
    }

    /// The one-based number of the root-hub port whose status changed.
    pub fn port_id(&self) -> (r: u8)
        ensures
            r == field_of32(self.0.data_low, 0xFF, 24),
    {
        proof {
            lemma_field_bound32(self.0.data_low, 0xFF, 24);
        }
        read_field32(self.0.data_low, 0xFF, 24) as u8
    }

    /// The completion code.
    pub fn completion_code(&self) -> (r: u8)
        ensures
            r == field_of32(self.0.status, 0xFF, 24),
    {
        proof {
            lemma_field_bound32(self.0.status, 0xFF, 24);
        }
        read_field32(self.0.status, 0xFF, 24) as u8
    }
}

/// A Command Completion event.
pub struct CommandCompletionEvent(pub GenericTrb);

impl CommandCompletionEvent {
    /// Reads `value` as a Command Completion event.
    pub fn from(value: GenericTrb) -> (r: CommandCompletionEvent)
        requires
            value.spec_trb_type() == TrbType::CommandCompletion,
        ensures
            r.0 == value,
    {
        CommandCompletionEvent(value)
    }

    /// The slot that the command was about, or that Enable Slot handed out.
    pub fn slot_id(&self) -> (r: u8)
        ensures
            r == field_of32(self.0.control, 0xFF, 24),
    {
        proof {
            lemma_field_bound32(self.0.control, 0xFF, 24);
        }
        read_field32(self.0.control, 0xFF, 24) as u8
    }

    /// The physical address of the command TRB that completed.
    pub fn command_trb_pointer(&self) -> (r: u64)
        ensures
            r == self.0.parameter(),
    {
        (self.0.data_low as u64) | ((self.0.data_high as u64) << 32)
    }

    /// The completion code.
    pub fn completion_code(&self) -> (r: u8)
        ensures
            r == field_of32(self.0.status, 0xFF, 24),
    {
        proof {
            lemma_field_bound32(self.0.status, 0xFF, 24);
        }
        read_field32(self.0.status, 0xFF, 24) as u8
    }
}

/// A Transfer event.
#[derive(Debug)]
pub struct TransferEvent(pub GenericTrb);

impl TransferEvent {
    /// Reads `value` as a Transfer event.
    pub fn from(value: GenericTrb) -> (r: TransferEvent)
        requires
            value.spec_trb_type() == TrbType::Transfer,
        ensures
            r.0 == value,
    {
        TransferEvent(value)
    }

    /// The slot of the device that the transfer belongs to.
    pub fn slot_id(&self) -> (r: u8)
        ensures
            r == field_of32(self.0.control, 0xFF, 24),
    {
        proof {
            lemma_field_bound32(self.0.control, 0xFF, 24);
        }
        read_field32(self.0.control, 0xFF, 24) as u8
    }

    /// The Device Context Index of the endpoint.
    pub fn endpoint_id(&self) -> (r: u8)
        ensures
            r == field_of32(self.0.control, 0x1F, 16),
            r <= 31,
    {
        proof {
            lemma_field_bound32(self.0.control, 0x1F, 16);
        }
        read_field32(self.0.control, 0x1F, 16) as u8
    }

    /// The number of bytes of the buffer that were not transferred.
    pub fn transfer_length(&self) -> (r: u32)
        ensures
            r == field_of32(self.0.status, 0xFF_FFFF, 0),
            r <= 0xFF_FFFF,
    {
        proof {
            lemma_field_bound32(self.0.status, 0xFF_FFFF, 0);
        }
        read_field32(self.0.status, 0xFF_FFFF, 0)
    }

    /// The physical address of the transfer TRB that completed.
    pub fn trb_pointer(&self) -> (r: u64)
        ensures
            r == self.0.parameter(),
    {
        (self.0.data_low as u64) | ((self.0.data_high as u64) << 32)
    }

    /// The completion code.
    pub fn completion_code(&self) -> (r: u8)
        ensures
            r == field_of32(self.0.status, 0xFF, 24),
    {
        proof {
            lemma_field_bound32(self.0.status, 0xFF, 24);
        }
        read_field32(self.0.status, 0xFF, 24) as u8
    }
}

/// One entry of the Event Ring Segment Table: where a segment lies and how
/// many TRBs it holds.
#[derive(Clone, Copy, Debug, PartialEq, Eq, Structural)]
pub struct EventRingSegmentTableEntry {
    pub address: u64,
    pub size: u16,
    pub _rsvd: u16,
    pub _rsvd2: u32,
}

impl Default for EventRingSegmentTableEntry {
    fn default() -> (r: EventRingSegmentTableEntry)
        ensures
            r == (EventRingSegmentTableEntry { address: 0, size: 0, _rsvd: 0, _rsvd2: 0 }),
    {
        EventRingSegmentTableEntry { address: 0, size: 0, _rsvd: 0, _rsvd2: 0 }
    }
}

impl EventRingSegmentTableEntry {
    /// Replaces the segment's physical address.
    pub fn set_address(&mut self, address: u64)
        ensures
            *final(self) == (EventRingSegmentTableEntry { address, ..*old(self) }),
    {
        self.address = address;
    }

    /// Replaces the segment's size in TRBs.
    pub fn set_size(&mut self, size: u16)
        ensures
            *final(self) == (EventRingSegmentTableEntry { size, ..*old(self) }),
    {
        self.size = size;
    }

    /// The sixteen bytes of the entry as they lie in memory: the address in
    /// eight bytes, the size in two, both least significant byte first, and
    /// six reserved bytes.
    pub open spec fn spec_bytes(self) -> Seq<u8> {
        seq![
            byte_of64(self.address, 0),
            byte_of64(self.address, 1),
            byte_of64(self.address, 2),
            byte_of64(self.address, 3),
            byte_of64(self.address, 4),
            byte_of64(self.address, 5),
            byte_of64(self.address, 6),
            byte_of64(self.address, 7),
            byte_of32(self.size as u32, 0),
            byte_of32(self.size as u32, 1),
            byte_of32(self._rsvd as u32, 0),
            byte_of32(self._rsvd as u32, 1),
            byte_of32(self._rsvd2, 0),
            byte_of32(self._rsvd2, 1),
            byte_of32(self._rsvd2, 2),
            byte_of32(self._rsvd2, 3),
        ]
    }

    /// The entry as bytes in memory.
    pub fn to_bytes(&self) -> (r: Vec<u8>)
        ensures
            r@ == self.spec_bytes(),
    {
        let mut out: Vec<u8> = Vec::new();
        let mut i: u64 = 0;
        while i < 8
            invariant
                i <= 8,
                out@.len() == i,
                forall|j: int| 0 <= j < i ==> out@[j] == byte_of64(self.address, j as u64),
            decreases 8 - i,
        {
            out.push(get_byte64(self.address, i));
            i += 1;
        }
        out.push(get_byte32(self.size as u32, 0));
        out.push(get_byte32(self.size as u32, 1));
        out.push(get_byte32(self._rsvd as u32, 0));
        out.push(get_byte32(self._rsvd as u32, 1));
        out.push(get_byte32(self._rsvd2, 0));
        out.push(get_byte32(self._rsvd2, 1));
        out.push(get_byte32(self._rsvd2, 2));
        out.push(get_byte32(self._rsvd2, 3));
        assert(out@ =~= self.spec_bytes());
        out
    }
}

/// The Event Ring Segment Table.
pub struct EventRingSegmentTable {
    pub entries: Vec<EventRingSegmentTableEntry>,
    pub phys_base: u64,
}

impl EventRingSegmentTable {
    /// The table lies 64-byte aligned.
    pub open spec fn wf(&self) -> bool {
        self.phys_base % 64 == 0
    }

    /// The number of entries.
    pub open spec fn spec_len(&self) -> u64 {
        self.entries@.len() as u64
    }

    /// The physical address of the table.
    pub open spec fn spec_addr(&self) -> u64 {
        self.phys_base
    }

    /// The segment address in entry `index`.
    pub open spec fn spec_entry_addr(&self, index: int) -> u64 {
        self.entries@[index].address
    }

    /// A table of `capacity` zeroed entries at the physical address
    /// `phys_base`.
    pub fn with_capacity(capacity: usize, phys_base: u64) -> (r: EventRingSegmentTable)
        requires
            phys_base % 64 == 0,
        ensures
            r.wf(),
            r.phys_base == phys_base,
            r.entries@ == Seq::new(
                capacity as nat,
                |i: int| (EventRingSegmentTableEntry { address: 0, size: 0, _rsvd: 0, _rsvd2: 0 }),
            ),
    {
        let mut entries: Vec<EventRingSegmentTableEntry> = Vec::new();
        let mut i: usize = 0;
        while i < capacity
            invariant
                i <= capacity,
                entries@.len() == i,
                forall|j: int|
                    0 <= j < i ==> entries@[j] == (EventRingSegmentTableEntry {
                        address: 0,
                        size: 0,
                        _rsvd: 0,
                        _rsvd2: 0,
                    }),
            decreases capacity - i,
        {
            entries.push(EventRingSegmentTableEntry::default());
            i += 1;
        }
        let r = EventRingSegmentTable { entries, phys_base };
        assert(r.entries@ =~= Seq::new(
            capacity as nat,
            |i: int| (EventRingSegmentTableEntry { address: 0, size: 0, _rsvd: 0, _rsvd2: 0 }),
        ));
        r
    }

    /// Makes entry `index` describe `event_ring`: its physical address and
    /// its number of entries.
    pub fn set_event_ring_data(&mut self, index: usize, event_ring: &EventRing)
        requires
            index < old(self).entries@.len(),
            event_ring@.buf.len() <= 0xFFFF,
        ensures
            final(self).phys_base == old(self).phys_base,
            final(self).entries@ == old(self).entries@.update(
                index as int,
                EventRingSegmentTableEntry {
                    address: event_ring@.phys_base,
                    size: event_ring@.buf.len() as u16,
                    ..old(self).entries@[index as int]
                },
            ),
    {
        let mut e = self.entries[index];
        e.set_address(event_ring.addr());
        e.set_size(event_ring.len() as u16);
        self.entries.set(index, e);
    }

    /// The physical address of the table.
    pub fn addr(&self) -> (r: u64)
        ensures
            r == self.spec_addr(),
    {
        self.phys_base
    }

    /// The segment address in entry `index`.
    pub fn entry_addr(&self, index: usize) -> (r: u64)
        requires
            index < self.entries@.len(),
        ensures
            r == self.spec_entry_addr(index as int),
    {
        self.entries[index].address
    }

    /// The number of entries.
    pub fn len(&self) -> (r: u64)
        ensures
            r == self.spec_len(),
    {
        self.entries.len() as u64
    }
}

} // verus!
