//! The producer ring: a circular array of TRBs that software fills and the
//! controller consumes, closed by a Link TRB in its last entry.
//!
//! The ring keeps an image of the array and a list of the word writes that
//! bring the controller's memory up to date with it, in the order in which
//! they have to be made.

use vstd::prelude::*;
use crate::bits::{field_of32, with_field32, lemma_pointer_words};
use crate::trb::{GenericTrb, LinkTrb, TrbType};

verus! {

/// One 32-bit write into a ring's memory: word `word` (0 to 3) of the entry
/// `slot`.
#[derive(Clone, Copy, Debug, PartialEq, Eq, Structural)]
pub struct TrbWrite {
    pub slot: usize,
    pub word: u8,
    pub value: u32,
}

/// The writes that store `trb` in entry `slot`: parameter, status, and the
/// control word, which holds the cycle bit, last.
pub open spec fn trb_writes(slot: usize, trb: GenericTrb) -> Seq<TrbWrite> {
    seq![
        TrbWrite { slot, word: 0, value: trb.data_low },
        TrbWrite { slot, word: 1, value: trb.data_high },
        TrbWrite { slot, word: 2, value: trb.status },
        TrbWrite { slot, word: 3, value: trb.control },
    ]
}

/// `trb` with its cycle bit set to `cycle`.
pub open spec fn stamped(trb: GenericTrb, cycle: bool) -> GenericTrb {
    GenericTrb {
        control: with_field32(trb.control, 1, 0, if cycle { 1u32 } else { 0u32 }),
        ..trb
    }
}

/// The Link TRB that closes a ring at `phys_base`: it points to the ring's
/// first entry, has Toggle Cycle set and carries the cycle bit `cycle`.
pub open spec fn wrap_link(phys_base: u64, cycle: bool) -> GenericTrb {
    let link = LinkTrb::spec_new(phys_base);
    let toggled = GenericTrb { control: with_field32(link.control, 1, 1, 1), ..link };
    stamped(toggled, cycle)
}

/// What a producer ring is: its entries, the producer cycle state, the index
/// of the next entry to fill, the physical address of entry 0, and the
/// writes not yet handed out.
pub struct RingView {
    pub buf: Seq<GenericTrb>,
    pub cycle_bit: bool,
    pub write_idx: nat,
    pub phys_base: u64,
    pub pending: Seq<TrbWrite>,
}

impl RingView {
    /// The ring has a data entry besides the Link entry, the write index is
    /// on a data entry, and the ring lies 64-byte aligned in the address
    /// space.
    pub open spec fn wf(self) -> bool {
        &&& self.buf.len() >= 2
        &&& self.buf.len() <= usize::MAX
        &&& self.write_idx + 1 < self.buf.len()
        &&& self.phys_base % 64 == 0
        &&& self.phys_base + 16 * self.buf.len() <= u64::MAX
    }

    /// A ring of `capacity` zeroed entries with the producer cycle state 1.
    pub open spec fn fresh(capacity: nat, phys_base: u64) -> RingView {
        RingView {
            buf: Seq::new(capacity, |i: int| GenericTrb::zero()),
            cycle_bit: true,
            write_idx: 0,
            phys_base,
            pending: Seq::empty(),
        }
    }

    /// The ring after `trb` was enqueued: the entry at the write index holds
    /// `trb` with the producer cycle state. If that was the last data entry,
    /// the Link entry is rewritten with the same cycle state, the write index
    /// returns to 0 and the cycle state flips.
    pub open spec fn push(self, trb: GenericTrb) -> RingView {
        let entry = stamped(trb, self.cycle_bit);
        let buf = self.buf.update(self.write_idx as int, entry);
        let pending = self.pending + trb_writes(self.write_idx as usize, entry);
        if self.write_idx + 2 == self.buf.len() {
            let last = (self.buf.len() - 1) as usize;
            let link = wrap_link(self.phys_base, self.cycle_bit);
            RingView {
                buf: buf.update(last as int, link),
                cycle_bit: !self.cycle_bit,
                write_idx: 0,
                phys_base: self.phys_base,
                pending: pending + trb_writes(last, link),
            }
        } else {
            RingView {
                buf,
                cycle_bit: self.cycle_bit,
                write_idx: self.write_idx + 1,
                phys_base: self.phys_base,
                pending,
            }
        }
    }

    /// The ring after the TRBs of `trbs` were enqueued one after the other.
    pub open spec fn push_all(self, trbs: Seq<GenericTrb>) -> RingView
        decreases trbs.len(),
    {
        if trbs.len() == 0 {
            self
        } else {
            self.push(trbs.first()).push_all(trbs.drop_first())
        }
    }

    /// The physical address of the entry at `index`.
    pub open spec fn entry_addr(self, index: nat) -> int {
        self.phys_base + 16 * index
    }
}

/// A producer ring.
#[derive(Debug)]
pub struct Ring {
    pub buf: Vec<GenericTrb>,
    pub cycle_bit: bool,
    pub write_idx: usize,
    pub phys_base: u64,
    pub pending: Vec<TrbWrite>,
}

impl View for Ring {
    type V = RingView;

    open spec fn view(&self) -> RingView {
        RingView {
            buf: self.buf@,
            cycle_bit: self.cycle_bit,
            write_idx: self.write_idx as nat,
            phys_base: self.phys_base,
            pending: self.pending@,
        }
    }
}

impl Ring {
    /// The ring's invariant.
    pub open spec fn wf(&self) -> bool {
        self@.wf()
    }

    /// A ring of `capacity` zeroed entries whose first entry lies at the
    /// physical address `phys_base`.
    pub fn with_capacity(capacity: usize, phys_base: u64) -> (r: Ring)
        requires
            capacity >= 2,
            phys_base % 64 == 0,
            phys_base + 16 * capacity <= u64::MAX,
        ensures
            r.wf(),
            r@ == RingView::fresh(capacity as nat, phys_base),
    {
        let mut buf: Vec<GenericTrb> = Vec::new();
        let mut i: usize = 0;
        while i < capacity
            invariant
                i <= capacity,
                buf@.len() == i,
                forall|j: int| 0 <= j < i ==> buf@[j] == GenericTrb::zero(),
            decreases capacity - i,
        {
            buf.push(GenericTrb::default());
            i += 1;
        }
        let r = Ring { buf, cycle_bit: true, write_idx: 0, phys_base, pending: Vec::new() };
        assert(r@.buf =~= RingView::fresh(capacity as nat, phys_base).buf);
        assert(r@.pending =~= Seq::empty());
        r
    }

    /// Records the four word writes of `trb` into entry `slot`, control word
    /// last.
    fn record(&mut self, slot: usize, trb: GenericTrb)
        ensures
            final(self).pending@ == old(self).pending@ + trb_writes(slot, trb),
            final(self).buf == old(self).buf,
            final(self).cycle_bit == old(self).cycle_bit,
            final(self).write_idx == old(self).write_idx,
            final(self).phys_base == old(self).phys_base,
    {
        self.pending.push(TrbWrite { slot, word: 0, value: trb.data_low });
        self.pending.push(TrbWrite { slot, word: 1, value: trb.data_high });
        self.pending.push(TrbWrite { slot, word: 2, value: trb.status });
        self.pending.push(TrbWrite { slot, word: 3, value: trb.control });
        assert(final(self).pending@ =~= old(self).pending@ + trb_writes(slot, trb));
    }

    /// Enqueues `trb` with the producer cycle state as its cycle bit.
    pub fn push(&mut self, trb: GenericTrb)
        requires
            old(self).wf(),
        ensures
            final(self).wf(),
            final(self)@ == old(self)@.push(trb),
    {
        let mut entry = trb;
        entry.set_pcs(self.cycle_bit);
        let idx = self.write_idx;
        self.buf.set(idx, entry);
        self.record(idx, entry);
        self.write_idx = idx + 1;
        if self.write_idx + 1 == self.buf.len() {
            self.back_to_head();
        }
    }

    /// Writes the Link TRB into the last entry and starts the next lap.
    fn back_to_head(&mut self)
        requires
            old(self).buf@.len() >= 2,
            old(self).buf@.len() <= usize::MAX,
            old(self).write_idx + 1 == old(self).buf@.len(),
            old(self).phys_base % 64 == 0,
            old(self).phys_base + 16 * old(self).buf@.len() <= u64::MAX,
        ensures
            final(self).wf(),
            final(self).buf@ == old(self).buf@.update(
                old(self).write_idx as int,
                wrap_link(old(self).phys_base, old(self).cycle_bit),
            ),
            final(self).pending@ == old(self).pending@ + trb_writes(
                old(self).write_idx,
                wrap_link(old(self).phys_base, old(self).cycle_bit),
            ),
            final(self).write_idx == 0,
            final(self).cycle_bit == !old(self).cycle_bit,
            final(self).phys_base == old(self).phys_base,
    {
        let mut link_trb = LinkTrb::new(self.phys_base);
        link_trb.set_tc(true);
        let mut link = link_trb.cast_trb();
        link.set_pcs(self.cycle_bit);
        let idx = self.write_idx;
        self.buf.set(idx, link);
        self.record(idx, link);
        self.write_idx = 0;
        self.cycle_bit = !self.cycle_bit;
    }

    /// The producer cycle state.
    pub fn pcs(&self) -> (r: bool)
        ensures
            r == self@.cycle_bit,
    {
        self.cycle_bit
    }

    /// The number of entries, the Link entry included.
    pub fn len(&self) -> (r: usize)
        ensures
            r == self@.buf.len(),
    {
        self.buf.len()
    }

    /// The physical address of entry 0.
    pub fn addr(&self) -> (r: u64)
        ensures
            r == self@.phys_base,
    {
        self.phys_base
    }

    /// The physical address to which the write `w` goes; `None` if `w`
    /// names no word of this ring.
    pub fn write_addr(&self, w: &TrbWrite) -> (r: Option<u64>)
        requires
            self.wf(),
        ensures
            r == if w.slot < self@.buf.len() && w.word < 4 {
                Some((self@.phys_base + 16 * w.slot + 4 * w.word) as u64)
            } else {
                None
            },
    {
        if w.slot < self.buf.len() && w.word < 4 {
            Some(self.phys_base + 16 * (w.slot as u64) + 4 * (w.word as u64))
        } else {
            None
        }
    }

    /// Hands out the recorded writes, oldest first, and forgets them.
    pub fn take_pending(&mut self) -> (r: Vec<TrbWrite>)
        ensures
            r@ == old(self)@.pending,
            final(self)@ == (RingView { pending: Seq::empty(), ..old(self)@ }),
    {
        let mut out: Vec<TrbWrite> = Vec::new();
        std::mem::swap(&mut out, &mut self.pending);
        out
    }
}

/// Every TRB is stored with four writes of which the last, and no other,
/// goes to the control word, where the cycle bit lives.
pub proof fn lemma_control_word_written_last(slot: usize, trb: GenericTrb)
    ensures
        trb_writes(slot, trb).len() == 4,
        trb_writes(slot, trb).last() == (TrbWrite { slot, word: 3, value: trb.control }),
        forall|i: int| 0 <= i < 3 ==> (#[trigger] trb_writes(slot, trb)[i]).word != 3,
        forall|i: int| 0 <= i < 4 ==> (#[trigger] trb_writes(slot, trb)[i]).slot == slot,
{
}

/// Enqueuing a TRB records its writes after all earlier ones, so the last
/// write recorded by a push that does not wrap is the control word of the
/// new entry, and the last write of one that wraps is the control word of
/// the Link TRB.
pub proof fn lemma_push_writes_cycle_bit_last(v: RingView, trb: GenericTrb)
    requires
        v.wf(),
    ensures
        v.push(trb).pending.len() >= v.pending.len() + 4,
        v.push(trb).pending.subrange(0, v.pending.len() as int) == v.pending,
        v.push(trb).pending.subrange(v.pending.len() as int, v.pending.len() as int + 4) == trb_writes(
            v.write_idx as usize,
            stamped(trb, v.cycle_bit),
        ),
        v.write_idx + 2 != v.buf.len() ==> v.push(trb).pending.last() == (TrbWrite {
            slot: v.write_idx as usize,
            word: 3,
            value: stamped(trb, v.cycle_bit).control,
        }),
        v.write_idx + 2 == v.buf.len() ==> v.push(trb).pending.last() == (TrbWrite {
            slot: (v.buf.len() - 1) as usize,
            word: 3,
            value: wrap_link(v.phys_base, v.cycle_bit).control,
        }),
{
    let entry = stamped(trb, v.cycle_bit);
    let w = trb_writes(v.write_idx as usize, entry);
    let r = v.push(trb);
    assert(w.len() == 4);
    assert(r.pending.subrange(0, v.pending.len() as int) =~= v.pending);
    assert(r.pending.subrange(v.pending.len() as int, v.pending.len() as int + 4) =~= w);
}

proof fn lemma_link_control(c: u32)
    by (bit_vector)
    requires
        c <= 1,
    ensures
        field_of32(with_field32(with_field32(with_field32(0, 0x3F, 10, 6), 1, 1, 1), 1, 0, c), 0x3F, 10) == 6,
        field_of32(with_field32(with_field32(with_field32(0, 0x3F, 10, 6), 1, 1, 1), 1, 0, c), 1, 1) == 1,
        field_of32(with_field32(with_field32(with_field32(0, 0x3F, 10, 6), 1, 1, 1), 1, 0, c), 1, 0) == c,
        field_of32(with_field32(with_field32(with_field32(0, 0x3F, 10, 6), 1, 1, 1), 1, 0, c), 1, 5) == 0,
{
}

/// The Link TRB that closes a ring is of type Link, has Toggle Cycle set,
/// does not ask for an interrupt, carries the cycle bit it was given, and
/// its parameter is the physical address of the ring's first entry.
pub proof fn lemma_wrap_link(phys_base: u64, cycle: bool)
    requires
        phys_base % 16 == 0,
    ensures
        wrap_link(phys_base, cycle).spec_trb_type() == TrbType::Link,
        field_of32(wrap_link(phys_base, cycle).control, 1, 1) == 1,
        field_of32(wrap_link(phys_base, cycle).control, 1, 5) == 0,
        wrap_link(phys_base, cycle).spec_pcs() == cycle,
        wrap_link(phys_base, cycle).parameter() == phys_base,
{
    lemma_link_control(if cycle { 1u32 } else { 0u32 });
    lemma_pointer_words(phys_base);
}

/// Enqueuing keeps the ring well formed, its size and its address.
pub proof fn lemma_push_keeps_wf(v: RingView, trb: GenericTrb)
    requires
        v.wf(),
    ensures
        v.push(trb).wf(),
        v.push(trb).buf.len() == v.buf.len(),
        v.push(trb).phys_base == v.phys_base,
{
}

/// Enqueuing one sequence after another is enqueuing their concatenation.
pub proof fn lemma_push_all_concat(v: RingView, a: Seq<GenericTrb>, b: Seq<GenericTrb>)
    ensures
        v.push_all(a + b) == v.push_all(a).push_all(b),
    decreases a.len(),
{
    if a.len() == 0 {
        assert(a + b =~= b);
    } else {
        assert((a + b).first() == a.first());
        assert((a + b).drop_first() =~= a.drop_first() + b);
        lemma_push_all_concat(v.push(a.first()), a.drop_first(), b);
    }
}

/// Filling the data entries that are left in the current lap ends the lap:
/// the last entry then holds the Link TRB with the cycle state of that lap,
/// the write index is 0 again and the cycle state has flipped.
pub proof fn lemma_lap(v: RingView, trbs: Seq<GenericTrb>)
    requires
        v.wf(),
        v.write_idx + trbs.len() + 1 == v.buf.len(),
    ensures
        v.push_all(trbs).wf(),
        v.push_all(trbs).buf.len() == v.buf.len(),
        v.push_all(trbs).phys_base == v.phys_base,
        v.push_all(trbs).write_idx == 0,
        v.push_all(trbs).cycle_bit == !v.cycle_bit,
        v.push_all(trbs).buf[v.buf.len() - 1] == wrap_link(v.phys_base, v.cycle_bit),
    decreases trbs.len(),
{
    if trbs.len() == 1 {
        assert(trbs.drop_first().len() == 0);
        assert(v.push(trbs.first()).push_all(trbs.drop_first()) == v.push(trbs.first()));
    } else {
        lemma_lap(v.push(trbs.first()), trbs.drop_first());
    }
}

/// A ring of N entries that starts with the cycle state 1 has, after
/// exactly N - 1 pushes, a Link TRB in its last entry that has Toggle Cycle
/// set, the cycle bit 1 and the ring's physical base as its parameter; the
/// write index is 0 and the cycle state is 0.
pub proof fn lemma_first_lap(capacity: nat, phys_base: u64, trbs: Seq<GenericTrb>)
    requires
        RingView::fresh(capacity, phys_base).wf(),
        trbs.len() + 1 == capacity,
    ensures
        ({
            let r = RingView::fresh(capacity, phys_base).push_all(trbs);
            let link = r.buf[capacity - 1];
            &&& r.wf()
            &&& r.write_idx == 0
            &&& !r.cycle_bit
            &&& link.spec_trb_type() == TrbType::Link
            &&& field_of32(link.control, 1, 1) == 1
            &&& link.spec_pcs()
            &&& link.parameter() == phys_base
        }),
{
    lemma_lap(RingView::fresh(capacity, phys_base), trbs);
    lemma_wrap_link(phys_base, true);
}

/// After 2(N - 1) pushes the ring is at the start of its third lap, with
/// the cycle state 1 again.
pub proof fn lemma_second_lap(capacity: nat, phys_base: u64, trbs: Seq<GenericTrb>)
    requires
        RingView::fresh(capacity, phys_base).wf(),
        trbs.len() + 2 == 2 * capacity,
    ensures
        RingView::fresh(capacity, phys_base).push_all(trbs).write_idx == 0,
        RingView::fresh(capacity, phys_base).push_all(trbs).cycle_bit,
{
    let v = RingView::fresh(capacity, phys_base);
    let a = trbs.subrange(0, capacity - 1);
    let b = trbs.subrange(capacity - 1, trbs.len() as int);
    assert(trbs =~= a + b);
    lemma_push_all_concat(v, a, b);
    lemma_lap(v, a);
    lemma_lap(v.push_all(a), b);
}

proof fn lemma_cycle_bit(control: u32, c: u32, mask: u32, shift: u32)
    by (bit_vector)
    requires
        c <= 1,
        1 <= shift < 32,
    ensures
        field_of32(with_field32(control, 1, 0, c), 1, 0) == c,
        field_of32(with_field32(control, 1, 0, c), mask, shift) == field_of32(control, mask, shift),
{
}

/// Stamping a TRB sets its cycle bit and nothing else: every field of the
/// control word above bit 0 reads as before, and so does the type.
pub proof fn lemma_stamped(trb: GenericTrb, cycle: bool, mask: u32, shift: u32)
    requires
        1 <= shift < 32,
    ensures
        stamped(trb, cycle).spec_pcs() == cycle,
        stamped(trb, cycle).spec_trb_type() == trb.spec_trb_type(),
        field_of32(stamped(trb, cycle).control, mask, shift) == field_of32(trb.control, mask, shift),
        stamped(trb, cycle).data_low == trb.data_low,
        stamped(trb, cycle).data_high == trb.data_high,
        stamped(trb, cycle).status == trb.status,
{
    let c = if cycle { 1u32 } else { 0u32 };
    lemma_cycle_bit(trb.control, c, mask, shift);
    lemma_cycle_bit(trb.control, c, 0x3F, 10);
}

/// The entry that a push fills is the TRB that was pushed, with the
/// producer cycle state as its cycle bit.
pub proof fn lemma_push_fills_entry(v: RingView, trb: GenericTrb)
    requires
        v.wf(),
    ensures
        v.push(trb).buf[v.write_idx as int] == stamped(trb, v.cycle_bit),
        v.push(trb).buf[v.write_idx as int].spec_pcs() == v.cycle_bit,
        v.push(trb).buf[v.write_idx as int].spec_trb_type() == trb.spec_trb_type(),
        forall|i: int|
            0 <= i < v.buf.len() && i != v.write_idx && i != v.buf.len() - 1 ==> v.push(trb).buf[i] == v.buf[i],
{
    lemma_stamped(trb, v.cycle_bit, 0x3F, 10);
}

} // verus!
