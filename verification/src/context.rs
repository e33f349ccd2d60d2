//! Slot, Endpoint, Device and Input Contexts: the structures through which
//! software and the controller describe a device and its endpoints.

use vstd::prelude::*;
use crate::bits::{field_of32, with_field32, read_field32, write_field32, lemma_field_bound32};

verus! {

/// The number of Endpoint Contexts in a Device or Input Context.
pub const ENDPOINT_CONTEXTS: usize = 31;

/// A Slot Context: what the controller knows of a device as a whole.
#[derive(Clone, Copy, Debug, PartialEq, Eq, Structural)]
pub struct SlotContext {
    pub a: u32,
    pub b: u32,
    pub c: u32,
    pub d: u32,
}

impl Default for SlotContext {
    fn default() -> (r: SlotContext)
        ensures
            r == SlotContext::zero(),
    {
        SlotContext { a: 0, b: 0, c: 0, d: 0 }
    }
}

impl SlotContext {
    /// The Slot Context whose words are zero.
    pub open spec fn zero() -> SlotContext {
        SlotContext { a: 0, b: 0, c: 0, d: 0 }
    }

    /// Replaces the 20-bit Route String.
    pub fn set_route_string(&mut self, val: u32)
        ensures
            *final(self) == (SlotContext {
                a: with_field32(old(self).a, 0xF_FFFF, 0, val),
                ..*old(self)
            }),
    {
        self.a = write_field32(self.a, 0xF_FFFF, 0, val);
    }

    /// Replaces the Speed, as PORTSC reports it.
    pub fn set_speed(&mut self, val: u32)
        ensures
            *final(self) == (SlotContext {
                a: with_field32(old(self).a, 0xF, 20, val),
                ..*old(self)
            }),
    {
        self.a = write_field32(self.a, 0xF, 20, val);
    }

    /// Replaces the Hub flag.
    pub fn set_hub(&mut self, hub: bool)
        ensures
            *final(self) == (SlotContext {
                a: with_field32(old(self).a, 1, 26, if hub { 1u32 } else { 0u32 }),
                ..*old(self)
            }),
    {
        let bit: u32 = if hub { 1 } else { 0 };
        self.a = write_field32(self.a, 1, 26, bit);
    }

    /// Replaces Context Entries: the index of the last valid Endpoint Context.
    pub fn set_context_entries(&mut self, entries: u32)
        ensures
            *final(self) == (SlotContext {
                a: with_field32(old(self).a, 0x1F, 27, entries),
                ..*old(self)
            }),
    {
        self.a = write_field32(self.a, 0x1F, 27, entries);
    }

    /// Replaces the Root Hub Port Number.
    pub fn set_root_hub_number(&mut self, number: u8)
        ensures
            *final(self) == (SlotContext {
                b: with_field32(old(self).b, 0xFF, 16, number as u32),
                ..*old(self)
            }),
    {
        self.b = write_field32(self.b, 0xFF, 16, number as u32);
    }

    /// The Route String.
    pub fn route_string(&self) -> (r: u32)
        ensures
            r == field_of32(self.a, 0xF_FFFF, 0),
    {
        proof {
            lemma_field_bound32(self.a, 0xF_FFFF, 0);
        }
        read_field32(self.a, 0xF_FFFF, 0)
    }

    /// The Speed.
    pub fn speed(&self) -> (r: u32)
        ensures
            r == field_of32(self.a, 0xF, 20),
    {
        proof {
            lemma_field_bound32(self.a, 0xF, 20);
        }
        read_field32(self.a, 0xF, 20)
    }

    /// Context Entries.
    pub fn context_entries(&self) -> (r: u32)
        ensures
            r == field_of32(self.a, 0x1F, 27),
    {
        proof {
            lemma_field_bound32(self.a, 0x1F, 27);
        }
        read_field32(self.a, 0x1F, 27)
    }

    /// The Root Hub Port Number.
    pub fn root_hub_number(&self) -> (r: u8)
        ensures
            r == field_of32(self.b, 0xFF, 16),
    {
        proof {
            lemma_field_bound32(self.b, 0xFF, 16);
        }
        read_field32(self.b, 0xFF, 16) as u8
    }

}

/// An Endpoint Context: what the controller knows of one endpoint.
#[derive(Clone, Copy, Debug, PartialEq, Eq, Structural)]
pub struct EndpointContext {
    pub a: u32,
    pub b: u32,
    pub trdpl: u32,
    pub trdph: u32,
    pub c: u32,
}

impl Default for EndpointContext {
    fn default() -> (r: EndpointContext)
        ensures
            r == EndpointContext::zero(),
    {
        EndpointContext { a: 0, b: 0, trdpl: 0, trdph: 0, c: 0 }
    }
}

impl EndpointContext {
    /// The Endpoint Context whose words are zero.
    pub open spec fn zero() -> EndpointContext {
        EndpointContext { a: 0, b: 0, trdpl: 0, trdph: 0, c: 0 }
    }

    /// Replaces the Endpoint Type: 4 is Control, 7 is Interrupt IN.
    pub fn set_endpoint_type(&mut self, ep_type: u8)
        ensures
            *final(self) == (EndpointContext {
                b: with_field32(old(self).b, 0x7, 3, ep_type as u32),
                ..*old(self)
            }),
    {
        self.b = write_field32(self.b, 0x7, 3, ep_type as u32);
    }

    /// Replaces the Max Packet Size.
    pub fn set_max_packet_size(&mut self, max_packet_size: u16)
        ensures
            *final(self) == (EndpointContext {
                b: with_field32(old(self).b, 0xFFFF, 16, max_packet_size as u32),
                ..*old(self)
            }),
    {
        self.b = write_field32(self.b, 0xFFFF, 16, max_packet_size as u32);
    }

    /// Replaces the Max Burst Size.
    pub fn set_max_burst_size(&mut self, max_burst_size: u8)
        ensures
            *final(self) == (EndpointContext {
                b: with_field32(old(self).b, 0xFF, 8, max_burst_size as u32),
                ..*old(self)
            }),
    {
        self.b = write_field32(self.b, 0xFF, 8, max_burst_size as u32);
    }

    /// Replaces the TR Dequeue Pointer by the physical address of a Transfer
    /// Ring; the Dequeue Cycle State in bit 0 stays.
    pub fn set_transfer_ring_buffer(&mut self, ring_addr: u64)
        ensures
            *final(self) == (EndpointContext {
                trdpl: with_field32(old(self).trdpl, 0x0FFF_FFFF, 4, (ring_addr >> 4) as u32),
                trdph: (ring_addr >> 32) as u32,
                ..*old(self)
            }),
    {
        self.trdpl = write_field32(self.trdpl, 0x0FFF_FFFF, 4, (ring_addr >> 4) as u32);
        self.trdph = (ring_addr >> 32) as u32;
    }

    /// Replaces the Dequeue Cycle State.
    pub fn set_dequeue_cycle_state(&mut self, state: u8)
        ensures
            *final(self) == (EndpointContext {
                trdpl: with_field32(old(self).trdpl, 1, 0, state as u32),
                ..*old(self)
            }),
    {
        self.trdpl = write_field32(self.trdpl, 1, 0, state as u32);
    }

    /// Replaces the Interval.
    pub fn set_interval(&mut self, interval: u8)
        ensures
            *final(self) == (EndpointContext {
                a: with_field32(old(self).a, 0xFF, 16, interval as u32),
                ..*old(self)
            }),
    {
        self.a = write_field32(self.a, 0xFF, 16, interval as u32);
    }

    /// Replaces MaxPStreams.
    pub fn set_max_primary_streams(&mut self, streams: u8)
        ensures
            *final(self) == (EndpointContext {
                a: with_field32(old(self).a, 0x1F, 10, streams as u32),
                ..*old(self)
            }),
    {
        self.a = write_field32(self.a, 0x1F, 10, streams as u32);
    }

    /// Replaces Mult.
    pub fn set_mult(&mut self, mult: u8)
        ensures
            *final(self) == (EndpointContext {
                a: with_field32(old(self).a, 0x3, 8, mult as u32),
                ..*old(self)
            }),
    {
        self.a = write_field32(self.a, 0x3, 8, mult as u32);
    }

    /// Replaces the Error Count.
    pub fn set_error_count(&mut self, count: u8)
        ensures
            *final(self) == (EndpointContext {
                b: with_field32(old(self).b, 0x3, 1, count as u32),
                ..*old(self)
            }),
    {
        self.b = write_field32(self.b, 0x3, 1, count as u32);
    }

    /// Replaces the Average TRB Length.
    pub fn set_average_trb_length(&mut self, length: u16)
        ensures
            *final(self) == (EndpointContext {
                c: with_field32(old(self).c, 0xFFFF, 0, length as u32),
                ..*old(self)
            }),
    {
        self.c = write_field32(self.c, 0xFFFF, 0, length as u32);
    }

    /// The Endpoint Type.
    pub fn endpoint_type(&self) -> (r: u8)
        ensures
            r == field_of32(self.b, 0x7, 3),
    {
        proof {
            lemma_field_bound32(self.b, 0x7, 3);
        }
        read_field32(self.b, 0x7, 3) as u8
    }

    /// The Max Packet Size.
    pub fn max_packet_size(&self) -> (r: u16)
        ensures
            r == field_of32(self.b, 0xFFFF, 16),
    {
        proof {
            lemma_field_bound32(self.b, 0xFFFF, 16);
        }
        read_field32(self.b, 0xFFFF, 16) as u16
    }

    /// The Error Count.
    pub fn error_count(&self) -> (r: u8)
        ensures
            r == field_of32(self.b, 0x3, 1),
    {
        proof {
            lemma_field_bound32(self.b, 0x3, 1);
        }
        read_field32(self.b, 0x3, 1) as u8
    }

    /// The Interval.
    pub fn interval(&self) -> (r: u8)
        ensures
            r == field_of32(self.a, 0xFF, 16),
    {
        proof {
            lemma_field_bound32(self.a, 0xFF, 16);
        }
        read_field32(self.a, 0xFF, 16) as u8
    }

    /// The Dequeue Cycle State.
    pub fn dequeue_cycle_state(&self) -> (r: u8)
        ensures
            r == field_of32(self.trdpl, 1, 0),
    {
        proof {
            lemma_field_bound32(self.trdpl, 1, 0);
        }
        read_field32(self.trdpl, 1, 0) as u8
    }

    /// The physical address in the TR Dequeue Pointer.
    pub open spec fn spec_transfer_ring_buffer(&self) -> u64 {
        ((field_of32(self.trdpl, 0x0FFF_FFFF, 4) as u64) << 4) | ((self.trdph as u64) << 32)
    }

    /// The physical address in the TR Dequeue Pointer.
    pub fn transfer_ring_buffer(&self) -> (r: u64)
        ensures
            r == self.spec_transfer_ring_buffer(),
    {
        ((read_field32(self.trdpl, 0x0FFF_FFFF, 4) as u64) << 4) | ((self.trdph as u64) << 32)
    }

    /// The context of a default control endpoint with the given Max Packet
    /// Size whose Transfer Ring lies at `ring_addr`: type Control, no burst,
    /// no streams, Mult 0, Interval 0, Error Count 3, Dequeue Cycle State 1.
    pub open spec fn spec_control(self, max_packet_size: u16, ring_addr: u64) -> EndpointContext {
        EndpointContext {
            a: with_field32(
                with_field32(with_field32(self.a, 0xFF, 16, 0), 0x1F, 10, 0),
                0x3,
                8,
                0,
            ),
            b: with_field32(
                with_field32(
                    with_field32(with_field32(self.b, 0x7, 3, 4), 0xFFFF, 16, max_packet_size as u32),
                    0xFF,
                    8,
                    0,
                ),
                0x3,
                1,
                3,
            ),
            trdpl: with_field32(
                with_field32(self.trdpl, 0x0FFF_FFFF, 4, (ring_addr >> 4) as u32),
                1,
                0,
                1,
            ),
            trdph: (ring_addr >> 32) as u32,
            ..self
        }
    }
}

/// A Device Context: a Slot Context and 31 Endpoint Contexts, which the
/// controller owns and software reads.
#[derive(Clone, Debug)]
pub struct DeviceContext {
    pub slot: SlotContext,
    pub endpoints: Vec<EndpointContext>,
}

/// `n` zeroed Endpoint Contexts.
pub fn endpoint_contexts(n: usize) -> (r: Vec<EndpointContext>)
    ensures
        r@ == Seq::new(n as nat, |i: int| EndpointContext::zero()),
{
    let mut v: Vec<EndpointContext> = Vec::new();
    let mut i: usize = 0;
    while i < n
        invariant
            i <= n,
            v@.len() == i,
            forall|j: int| 0 <= j < i ==> v@[j] == EndpointContext::zero(),
        decreases n - i,
    {
        v.push(EndpointContext::default());
        i += 1;
    }
    assert(v@ =~= Seq::new(n as nat, |i: int| EndpointContext::zero()));
    v
}

impl DeviceContext {
    /// The context holds its 31 Endpoint Contexts.
    pub open spec fn wf(&self) -> bool {
        self.endpoints@.len() == ENDPOINT_CONTEXTS
    }
}

impl Default for DeviceContext {
    fn default() -> (r: DeviceContext)
        ensures
            r.wf(),
            r.slot == SlotContext::zero(),
            r.endpoints@ == Seq::new(ENDPOINT_CONTEXTS as nat, |i: int| EndpointContext::zero()),
    {
        DeviceContext { slot: SlotContext::default(), endpoints: endpoint_contexts(ENDPOINT_CONTEXTS) }
    }
}

/// The Input Control Context: which contexts of an Input Context the
/// controller is to drop and which to add or evaluate.
#[derive(Clone, Copy, Debug, PartialEq, Eq, Structural)]
pub struct InputControlContext {
    pub drop_context_flags: u32,
    pub add_context_flags: u32,
    pub configuration_value: u8,
    pub interface_number: u8,
    pub alternate_setting: u8,
}

impl Default for InputControlContext {
    fn default() -> (r: InputControlContext)
        ensures
            r == InputControlContext::zero(),
    {
        InputControlContext {
            drop_context_flags: 0,
            add_context_flags: 0,
            configuration_value: 0,
            interface_number: 0,
            alternate_setting: 0,
        }
    }
}

impl InputControlContext {
    /// The Input Control Context with no flag set.
    pub open spec fn zero() -> InputControlContext {
        InputControlContext {
            drop_context_flags: 0,
            add_context_flags: 0,
            configuration_value: 0,
            interface_number: 0,
            alternate_setting: 0,
        }
    }
}

/// An Input Context: the Input Control Context, a Slot Context and 31
/// Endpoint Contexts, which software fills for Address Device, Configure
/// Endpoint and Evaluate Context.
#[derive(Clone, Debug)]
pub struct InputContext {
    pub input_control_ctx: InputControlContext,
    pub slot_ctx: SlotContext,
    pub ep_ctxs: Vec<EndpointContext>,
}

impl Default for InputContext {
    fn default() -> (r: InputContext)
        ensures
            r.wf(),
            r@ == InputContextView::zero(),
    {
        InputContext {
            input_control_ctx: InputControlContext::default(),
            slot_ctx: SlotContext::default(),
            ep_ctxs: endpoint_contexts(ENDPOINT_CONTEXTS),
        }
    }
}

/// What an Input Context holds.
pub struct InputContextView {
    pub control: InputControlContext,
    pub slot: SlotContext,
    pub eps: Seq<EndpointContext>,
}

impl InputContextView {
    /// The Input Context with no flag set and zeroed contexts.
    pub open spec fn zero() -> InputContextView {
        InputContextView {
            control: InputControlContext::zero(),
            slot: SlotContext::zero(),
            eps: Seq::new(ENDPOINT_CONTEXTS as nat, |i: int| EndpointContext::zero()),
        }
    }
}

impl View for InputContext {
    type V = InputContextView;

    open spec fn view(&self) -> InputContextView {
        InputContextView { control: self.input_control_ctx, slot: self.slot_ctx, eps: self.ep_ctxs@ }
    }
}

impl InputContext {
    /// The context holds its 31 Endpoint Contexts.
    pub open spec fn wf(&self) -> bool {
        self.ep_ctxs@.len() == ENDPOINT_CONTEXTS
    }

    /// The Add Context flags.
    pub open spec fn add_flags(&self) -> u32 {
        self.input_control_ctx.add_context_flags
    }

    /// Everything but the Add Context flags is as in `old`.
    pub open spec fn same_but_add_flags(&self, old: &InputContext) -> bool {
        &&& self.input_control_ctx == (InputControlContext {
            add_context_flags: self.input_control_ctx.add_context_flags,
            ..old.input_control_ctx
        })
        &&& self.slot_ctx == old.slot_ctx
        &&& self.ep_ctxs == old.ep_ctxs
    }

    /// Replaces the Add Context flag of the context with the index `index`
    /// (0 is the Slot Context, 1 to 31 are the endpoints by Device Context
    /// Index) by the low bit of `val`; the other flags stay.
    pub fn set_add_context(&mut self, index: u32, val: u32)
        requires
            index < 32,
        ensures
            final(self).add_flags() == with_field32(old(self).add_flags(), 1, index, val),
            final(self).same_but_add_flags(old(self)),
    {
        self.input_control_ctx.add_context_flags = write_field32(
            self.input_control_ctx.add_context_flags,
            1,
            index,
            val,
        );
    }

    /// Clears every Add Context flag.
    pub fn clear_add_context(&mut self)
        ensures
            final(self).add_flags() == 0,
            final(self).same_but_add_flags(old(self)),
    {
        self.input_control_ctx.add_context_flags = 0;
    }

    /// Sets the Add Context flag of the Slot Context.
    pub fn enable_slot_context(&mut self)
        ensures
            final(self).add_flags() == with_field32(old(self).add_flags(), 1, 0, 1),
            final(self).same_but_add_flags(old(self)),
    {
        self.input_control_ctx.add_context_flags = write_field32(
            self.input_control_ctx.add_context_flags,
            1,
            0,
            1,
        );
    }

    /// Sets the Add Context flag of the default control endpoint and fills
    /// its Endpoint Context, the first one.
    pub fn init_default_control_endpoint(&mut self, max_packet_size: u16, ring_addr: u64)
        requires
            old(self).wf(),
        ensures
            final(self).wf(),
            final(self).add_flags() == with_field32(old(self).add_flags(), 1, 1, 1),
            final(self).input_control_ctx == (InputControlContext {
                add_context_flags: final(self).add_flags(),
                ..old(self).input_control_ctx
            }),
            final(self).slot_ctx == old(self).slot_ctx,
            final(self).ep_ctxs@ == old(self).ep_ctxs@.update(
                0,
                old(self).ep_ctxs@[0].spec_control(max_packet_size, ring_addr),
            ),
    {
        self.input_control_ctx.add_context_flags = write_field32(
            self.input_control_ctx.add_context_flags,
            1,
            1,
            1,
        );
        let mut ep = self.ep_ctxs[0];
        ep.set_endpoint_type(4);
        ep.set_max_packet_size(max_packet_size);
        ep.set_max_burst_size(0);
        ep.set_transfer_ring_buffer(ring_addr);
        ep.set_dequeue_cycle_state(1);
        ep.set_interval(0);
        ep.set_max_primary_streams(0);
        ep.set_mult(0);
        ep.set_error_count(3);
        self.ep_ctxs.set(0, ep);
    }

    /// The Slot Context, to be filled.
    pub fn mut_slot(&mut self) -> (r: &mut SlotContext)
        ensures
            *r == old(self).slot_ctx,
            *final(self) == (InputContext { slot_ctx: *final(r), ..*old(self) }),
    {
        &mut self.slot_ctx
    }
}

/// The number of 32-bit words of a context.
pub const CONTEXT_WORDS: usize = 8;

/// The eight words of a Slot Context in memory: its four words and four
/// reserved ones.
pub open spec fn slot_words(slot: SlotContext) -> Seq<u32> {
    seq![slot.a, slot.b, slot.c, slot.d, 0, 0, 0, 0]
}

/// The eight words of an Endpoint Context in memory: its five words and
/// three reserved ones.
pub open spec fn endpoint_words(ep: EndpointContext) -> Seq<u32> {
    seq![ep.a, ep.b, ep.trdpl, ep.trdph, ep.c, 0, 0, 0]
}

/// The eight words of an Input Control Context in memory: the Drop and
/// the Add Context flags, five reserved words, and a word with the
/// configuration value, the interface number and the alternate setting in
/// its three low bytes.
pub open spec fn control_words(c: InputControlContext) -> Seq<u32> {
    seq![
        c.drop_context_flags,
        c.add_context_flags,
        0,
        0,
        0,
        0,
        0,
        with_field32(
            with_field32(with_field32(0, 0xFF, 0, c.configuration_value as u32), 0xFF, 8, c.interface_number as u32),
            0xFF,
            16,
            c.alternate_setting as u32,
        ),
    ]
}

/// The words of the first `n` Endpoint Contexts of `eps`, one context
/// after the other.
pub open spec fn endpoints_words(eps: Seq<EndpointContext>, n: int) -> Seq<u32>
    decreases n,
{
    if n <= 0 {
        Seq::empty()
    } else {
        endpoints_words(eps, n - 1) + endpoint_words(eps[n - 1])
    }
}

impl InputContextView {
    /// The Input Context as it lies in memory, in 32-bit words: the Input
    /// Control Context, the Slot Context and the Endpoint Contexts, eight
    /// words each.
    pub open spec fn words(self) -> Seq<u32> {
        control_words(self.control) + slot_words(self.slot) + endpoints_words(self.eps, self.eps.len() as int)
    }
}

fn push_words(out: &mut Vec<u32>, a: u32, b: u32, c: u32, d: u32, e: u32)
    ensures
        final(out)@ == old(out)@ + seq![a, b, c, d, e, 0, 0, 0],
{
    out.push(a);
    out.push(b);
    out.push(c);
    out.push(d);
    out.push(e);
    out.push(0);
    out.push(0);
    out.push(0);
    assert(final(out)@ =~= old(out)@ + seq![a, b, c, d, e, 0, 0, 0]);
}

impl SlotContext {
    /// The Slot Context whose first four words in memory are `a` to `d`.
    pub fn from_words(a: u32, b: u32, c: u32, d: u32) -> (r: SlotContext)
        ensures
            r == (SlotContext { a, b, c, d }),
    {
        SlotContext { a, b, c, d }
    }
}

impl InputContext {
    /// The Input Context as 32-bit words, to be copied to its place in
    /// memory.
    pub fn to_words(&self) -> (r: Vec<u32>)
        ensures
            r@ == self@.words(),
    {
        let mut out: Vec<u32> = Vec::new();
        let c = self.input_control_ctx;
        let last: u32 = write_field32(
            write_field32(write_field32(0, 0xFF, 0, c.configuration_value as u32), 0xFF, 8, c.interface_number as u32),
            0xFF,
            16,
            c.alternate_setting as u32,
        );
        out.push(c.drop_context_flags);
        out.push(c.add_context_flags);
        out.push(0);
        out.push(0);
        out.push(0);
        out.push(0);
        out.push(0);
        out.push(last);
        assert(out@ =~= control_words(c));
        push_words(&mut out, self.slot_ctx.a, self.slot_ctx.b, self.slot_ctx.c, self.slot_ctx.d, 0);
        assert(out@ =~= control_words(c) + slot_words(self.slot_ctx));
        let mut i: usize = 0;
        while i < self.ep_ctxs.len()
            invariant
                i <= self.ep_ctxs@.len(),
                out@ == control_words(c) + slot_words(self.slot_ctx) + endpoints_words(self.ep_ctxs@, i as int),
            decreases self.ep_ctxs@.len() - i,
        {
            let ep = self.ep_ctxs[i];
            push_words(&mut out, ep.a, ep.b, ep.trdpl, ep.trdph, ep.c);
            assert(out@ =~= control_words(c) + slot_words(self.slot_ctx) + endpoints_words(
                self.ep_ctxs@,
                i + 1,
            ));
            i += 1;
        }
        out
    }
}

} // verus!
