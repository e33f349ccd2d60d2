//! The devices behind the slots of a controller: their contexts, Transfer
//! Rings and doorbells, and the phases through which a newly attached
//! device is brought into service.

use vstd::prelude::*;
use crate::bits::{field_of32, with_field32, write_field32};
use crate::context::{DeviceContext, EndpointContext, InputContext, InputContextView, InputControlContext, SlotContext};
use crate::descriptor::{descriptors, DescriptorSet, DeviceDescriptor, EndpointDescriptor};
use crate::event::TransferEvent;
use crate::port::speed_max_packet_size;
use crate::ring::{lemma_push_keeps_wf, stamped, RingView};
use crate::transfer::{bit, DataStage, Normal, SetupStage, StatusStage, TransferRing};
use crate::trb::{CompletionCode, GenericTrb, TrbType};

verus! {

/// The size of the buffer into which a device's descriptors are read.
pub const DATA_BUFF_SIZE: usize = 256;

/// The size of the buffer into which interrupt transfers deliver.
pub const RECEIVE_BUFF_SIZE: usize = 16;

/// The number of entries of each Transfer Ring.
pub const TRANSFER_RING_CAPACITY: usize = 32;

/// The number of Transfer Rings a device can have: one per Device Context
/// Index, index 0 unused.
pub const TRANSFER_RINGS: usize = 32;

/// The bytes of memory set aside for each device.
pub const DEVICE_REGION_SIZE: u64 = 0x6000;

/// The value that rings a doorbell for `target` and `stream_id`.
pub open spec fn doorbell_value(target: u8, stream_id: u16) -> u32 {
    with_field32(with_field32(0, 0xFF, 0, target as u32), 0xFFFF, 16, stream_id as u32)
}

/// One register of the doorbell array, with the writes to it that are
/// still to be made.
#[derive(Debug)]
pub struct Doorbell {
    pub index: u8,
    pub writes: Vec<u32>,
}

impl Doorbell {
    /// The doorbell of slot `index` (0 is the Command Ring's), not rung.
    pub fn new(index: u8) -> (r: Doorbell)
        ensures
            r.index == index,
            r.writes@ == Seq::<u32>::empty(),
    {
        Doorbell { index, writes: Vec::new() }
    }

    /// Rings the doorbell, with one write that holds DB Target and DB
    /// Stream ID.
    pub fn ring(&mut self, target: u8, stream_id: u16)
        ensures
            final(self).index == old(self).index,
            final(self).writes@ == old(self).writes@.push(doorbell_value(target, stream_id)),
    {
        let v: u32 = write_field32(write_field32(0, 0xFF, 0, target as u32), 0xFFFF, 16, stream_id as u32);
        self.writes.push(v);
    }

    /// Hands out the recorded writes, oldest first, and forgets them.
    pub fn take_writes(&mut self) -> (r: Vec<u32>)
        ensures
            r@ == old(self).writes@,
            final(self).index == old(self).index,
            final(self).writes@ == Seq::<u32>::empty(),
    {
        let mut out: Vec<u32> = Vec::new();
        std::mem::swap(&mut out, &mut self.writes);
        out
    }
}

/// Where the structures of one device lie in physical memory.
#[derive(Clone, Copy, Debug, PartialEq, Eq, Structural)]
pub struct DeviceMemory {
    pub input_context: u64,
    pub device_context: u64,
    pub descriptor_buf: u64,
    pub receive_buf: u64,
    pub rings: u64,
}

impl DeviceMemory {
    /// The layout of a device's region that starts at `base`: the Input
    /// Context, the Device Context, the descriptor buffer, the receive
    /// buffer, and the 32 Transfer Rings.
    pub open spec fn spec_at(base: u64) -> DeviceMemory {
        DeviceMemory {
            input_context: base,
            device_context: (base + 0x880) as u64,
            descriptor_buf: (base + 0x1080) as u64,
            receive_buf: (base + 0x1180) as u64,
            rings: (base + 0x1200) as u64,
        }
    }

    /// The structures lie 64-byte aligned, and the rings fit in the address
    /// space.
    pub open spec fn wf(self) -> bool {
        &&& self.input_context % 64 == 0
        &&& self.device_context % 64 == 0
        &&& self.rings % 64 == 0
        &&& self.rings + 0x200 * TRANSFER_RINGS <= u64::MAX
    }

    /// The physical address of the Transfer Ring of the endpoint `dci`.
    pub open spec fn spec_ring_addr(self, dci: int) -> u64 {
        (self.rings + 0x200 * dci) as u64
    }

    /// The layout of the region at `base`.
    pub fn at(base: u64) -> (r: DeviceMemory)
        requires
            base % 64 == 0,
            base + DEVICE_REGION_SIZE <= u64::MAX,
        ensures
            r == DeviceMemory::spec_at(base),
            r.wf(),
    {
        DeviceMemory {
            input_context: base,
            device_context: base + 0x880,
            descriptor_buf: base + 0x1080,
            receive_buf: base + 0x1180,
            rings: base + 0x1200,
        }
    }

    /// The physical address of the Transfer Ring of the endpoint `dci`.
    pub fn ring_addr(&self, dci: usize) -> (r: u64)
        requires
            self.wf(),
            dci < TRANSFER_RINGS,
        ensures
            r == self.spec_ring_addr(dci as int),
            r % 64 == 0,
            r + 16 * TRANSFER_RING_CAPACITY <= u64::MAX,
    {
        self.rings + 0x200 * (dci as u64)
    }
}

/// How far a device has come on its way into service.
#[derive(Clone, Copy, Debug, PartialEq, Eq, Structural)]
pub enum InitPhase {
    Uninitialized,
    GetDeviceDescriptor,
    GetConfigurationDescriptor,
    SetConfiguration,
    WaitConfigureCommand(u8),
    Finish(u8),
    Failed,
}

/// What the controller has to do for a device after an event.
#[derive(Clone, Copy, Debug, PartialEq, Eq, Structural)]
pub enum DeviceAction {
    /// Nothing.
    Nothing,
    /// Enqueue a Configure Endpoint command for the device's Input Context.
    ConfigureEndpoint { input_context_addr: u64, slot_id: u8 },
}

/// The Device Context Index of the endpoint with the address
/// `b_endpoint_address`: twice the endpoint number, plus one for IN. The
/// endpoint number 0 is the default control endpoint, whose index is 1.
pub open spec fn dci_of(b_endpoint_address: u8) -> u8 {
    if b_endpoint_address & 0xF == 0 {
        1
    } else {
        (2 * (b_endpoint_address & 0xF) + (b_endpoint_address >> 7)) as u8
    }
}

/// The Endpoint Type of an Endpoint Context for an endpoint with these
/// bmAttributes and this address: Control is 4; Isochronous, Bulk and
/// Interrupt are 1, 2 and 3 for OUT and 5, 6 and 7 for IN.
pub open spec fn endpoint_type_of(bm_attributes: u8, b_endpoint_address: u8) -> u8 {
    if bm_attributes % 4 == 0 {
        4
    } else {
        (bm_attributes % 4 + 4 * (b_endpoint_address / 128)) as u8
    }
}

/// The Interval of an Endpoint Context for an endpoint with this
/// bInterval: one less, and 0 for 0.
pub open spec fn interval_of(b_interval: u8) -> u8 {
    if b_interval == 0 {
        0
    } else {
        (b_interval - 1) as u8
    }
}

/// The Device Context Index is never 0 and never above 31.
pub proof fn lemma_dci_range(b_endpoint_address: u8)
    by (bit_vector)
    ensures
        1 <= dci_of(b_endpoint_address) <= 31,
        b_endpoint_address & 0xF != 0 ==> dci_of(b_endpoint_address) == 2 * (b_endpoint_address & 0xF) + (
        b_endpoint_address >> 7),
{
}

/// What a device record is: the slot, the phase, the Transfer Rings by
/// Device Context Index (a ring not yet made counts as a fresh one), the
/// doorbell writes not yet handed out, the Input Context, the Slot Context
/// that the controller reported, the descriptor buffer, the Device
/// descriptor read from it, and the descriptor stream kept from it, with
/// its length.
pub struct DeviceView {
    pub slot_id: u8,
    pub phase: InitPhase,
    pub rings: Seq<RingView>,
    pub doorbell: Seq<u32>,
    pub input: InputContextView,
    pub device_slot: SlotContext,
    pub buf: Seq<u8>,
    pub descriptor: Option<DeviceDescriptor>,
    pub stream: Option<(Seq<u8>, int)>,
    pub memory: DeviceMemory,
}

impl DeviceView {
    /// The record of a device that was just given the slot `slot_id`: no
    /// transfer enqueued, the doorbell not rung, zeroed contexts and
    /// buffers, phase Uninitialized.
    pub open spec fn fresh(slot_id: u8, memory: DeviceMemory) -> DeviceView {
        DeviceView {
            slot_id,
            phase: InitPhase::Uninitialized,
            rings: Seq::new(
                TRANSFER_RINGS as nat,
                |i: int| RingView::fresh(TRANSFER_RING_CAPACITY as nat, memory.spec_ring_addr(i)),
            ),
            doorbell: Seq::empty(),
            input: InputContextView::zero(),
            device_slot: SlotContext::zero(),
            buf: Seq::new(DATA_BUFF_SIZE as nat, |i: int| 0u8),
            descriptor: None,
            stream: None,
            memory,
        }
    }

    /// The device after `trb` was enqueued on the ring of endpoint `dci`.
    pub open spec fn push(self, dci: int, trb: GenericTrb) -> DeviceView {
        DeviceView { rings: self.rings.update(dci, self.rings[dci].push(trb)), ..self }
    }

    /// The device after its doorbell was rung for endpoint `dci`.
    pub open spec fn rung(self, dci: u8) -> DeviceView {
        DeviceView { doorbell: self.doorbell.push(doorbell_value(dci, 0)), ..self }
    }

    /// The device in another phase.
    pub open spec fn in_phase(self, phase: InitPhase) -> DeviceView {
        DeviceView { phase, ..self }
    }

    /// The device after a GET_DESCRIPTOR control transfer for the
    /// descriptor type `desc_type` was enqueued on the control endpoint's
    /// ring and the doorbell rung: a Setup Stage, a Data Stage that reads
    /// 256 bytes into the descriptor buffer and asks for an interrupt, and a
    /// Status Stage in the OUT direction.
    pub open spec fn get_descriptor(self, desc_type: u16) -> DeviceView {
        self.push(1, SetupStage::spec_get_descriptor(desc_type, 0, DATA_BUFF_SIZE as u16)).push(
            1,
            DataStage::spec_data_stage(self.memory.descriptor_buf, DATA_BUFF_SIZE as u16, 1, 1),
        ).push(1, status_stage_trb(0, false)).rung(1)
    }

    /// The device after a SET_CONFIGURATION request for `value` was
    /// enqueued and the doorbell rung: a Setup Stage without Data Stage, and
    /// a Status Stage in the IN direction that asks for an interrupt.
    pub open spec fn set_configuration(self, value: u8) -> DeviceView {
        self.push(1, set_configuration_trb(value)).push(1, status_stage_trb(1, true)).rung(1)
    }

    /// The device after a Normal TRB for the receive buffer was enqueued on
    /// the ring of endpoint `dci` and the doorbell rung.
    pub open spec fn receive(self, dci: u8) -> DeviceView {
        self.push(dci as int, receive_trb(self.memory.receive_buf)).rung(dci)
    }

    /// The device after its default control endpoint was described in the
    /// Input Context, with the given Max Packet Size.
    pub open spec fn control_endpoint(self, max_packet_size: u16) -> DeviceView {
        DeviceView {
            input: InputContextView {
                control: InputControlContext {
                    add_context_flags: with_field32(self.input.control.add_context_flags, 1, 1, 1),
                    ..self.input.control
                },
                eps: self.input.eps.update(
                    0,
                    self.input.eps[0].spec_control(max_packet_size, self.memory.spec_ring_addr(1)),
                ),
                ..self.input
            },
            ..self
        }
    }

    /// The device after its Input Context was made ready for Address
    /// Device: the Slot Context and the control endpoint's context are
    /// flagged to be added; the Slot Context holds the Route String 0, the
    /// root-hub port `port_id`, Context Entries 1 and the port's speed; the
    /// control endpoint's Max Packet Size goes by the speed.
    pub open spec fn addressed(self, port_id: u8, speed: u32) -> DeviceView {
        (DeviceView {
            input: InputContextView {
                control: InputControlContext {
                    add_context_flags: with_field32(self.input.control.add_context_flags, 1, 0, 1),
                    ..self.input.control
                },
                slot: SlotContext {
                    a: with_field32(
                        with_field32(with_field32(self.input.slot.a, 0xF_FFFF, 0, 0), 0x1F, 27, 1),
                        0xF,
                        20,
                        speed,
                    ),
                    b: with_field32(self.input.slot.b, 0xFF, 16, port_id as u32),
                    ..self.input.slot
                },
                ..self.input
            },
            ..self
        }).control_endpoint(speed_max_packet_size(speed) as u16)
    }

    /// The device after the transfer that read its Configuration
    /// descriptor ended with `residual` bytes of the buffer unused: the
    /// bytes that arrived are kept as the descriptor stream, and
    /// SET_CONFIGURATION is requested for the first Configuration descriptor
    /// in it. The device has failed if more is unused than the buffer holds,
    /// or if the stream has no Configuration descriptor.
    pub open spec fn configured(self, residual: u32) -> DeviceView {
        if residual > DATA_BUFF_SIZE {
            self.in_phase(InitPhase::Failed)
        } else {
            let len = DATA_BUFF_SIZE - residual;
            match DescriptorSet::spec_first_configuration(descriptors(self.buf, len, 0)) {
                None => self.in_phase(InitPhase::Failed),
                Some(c) => DeviceView {
                    stream: Some((self.buf, len)),
                    phase: InitPhase::SetConfiguration,
                    ..self.set_configuration(c.b_configuration_value)
                },
            }
        }
    }

    /// The first Endpoint descriptor of the kept descriptor stream.
    pub open spec fn first_endpoint(self) -> Option<EndpointDescriptor> {
        DescriptorSet::spec_first_endpoint(descriptors(self.stream.unwrap().0, self.stream.unwrap().1, 0))
    }

    /// The device after its Input Context was made ready for Configure
    /// Endpoint: only the Slot Context and the context of the first endpoint
    /// of the descriptor stream are flagged to be added; the Slot Context is
    /// the one the controller reported, with Context Entries 31; the
    /// endpoint's context is filled from its descriptor. The device then
    /// waits for the command. It has failed if the stream has no Endpoint
    /// descriptor.
    pub open spec fn endpoints_prepared(self) -> DeviceView {
        match self.first_endpoint() {
            None => self.in_phase(InitPhase::Failed),
            Some(e) => {
                let dci = dci_of(e.b_endpoint_address);
                DeviceView {
                    phase: InitPhase::WaitConfigureCommand(dci),
                    input: InputContextView {
                        control: InputControlContext {
                            add_context_flags: with_field32(with_field32(0, 1, 0, 1), 1, dci as u32, 1),
                            ..self.input.control
                        },
                        slot: SlotContext { a: with_field32(self.device_slot.a, 0x1F, 27, 31), ..self.device_slot },
                        eps: self.input.eps.update(
                            dci - 1,
                            endpoint_context_for(self.input.eps[dci - 1], e, self.memory.spec_ring_addr(dci as int)),
                        ),
                    },
                    ..self
                }
            },
        }
    }

    /// What the controller has to do after `endpoints_prepared`.
    pub open spec fn prepared_action(self) -> DeviceAction {
        match self.first_endpoint() {
            None => DeviceAction::Nothing,
            Some(e) => DeviceAction::ConfigureEndpoint {
                input_context_addr: self.memory.input_context,
                slot_id: self.slot_id,
            },
        }
    }

    /// The device after the Configure Endpoint command completed: it is in
    /// service on the endpoint it waited for, and the first transfer on that
    /// endpoint is enqueued. In any other phase nothing happens.
    pub open spec fn endpoints_configured(self) -> DeviceView {
        match self.phase {
            InitPhase::WaitConfigureCommand(dci) => self.in_phase(InitPhase::Finish(dci)).receive(dci),
            _ => self,
        }
    }

    /// The device after the transfer that read its Device descriptor
    /// completed: the descriptor is kept as the buffer holds it, and the
    /// Configuration descriptor is asked for.
    pub open spec fn device_described(self) -> DeviceView {
        DeviceView {
            descriptor: Some(DeviceDescriptor::spec_parse(self.buf, 0)),
            phase: InitPhase::GetConfigurationDescriptor,
            ..self.get_descriptor(2)
        }
    }

    /// The device after a transfer of its own completed with success, with
    /// `residual` bytes of the buffer unused.
    pub open spec fn transfer_completed(self, residual: u32) -> DeviceView {
        match self.phase {
            InitPhase::GetDeviceDescriptor => self.device_described(),
            InitPhase::GetConfigurationDescriptor => self.configured(residual),
            InitPhase::SetConfiguration => self.endpoints_prepared(),
            InitPhase::Finish(dci) => self.receive(dci),
            _ => self,
        }
    }

    /// What the controller has to do after `transfer_completed`.
    pub open spec fn transfer_action(self) -> DeviceAction {
        match self.phase {
            InitPhase::SetConfiguration => self.prepared_action(),
            _ => DeviceAction::Nothing,
        }
    }
}

/// The Endpoint Context `ctx` filled for the endpoint that `e` describes,
/// whose Transfer Ring lies at `ring_addr`: Max Packet Size and type from
/// the descriptor, the Interval one below bInterval, Average TRB Length 1,
/// Error Count 3, Dequeue Cycle State 1.
pub open spec fn endpoint_context_for(ctx: EndpointContext, e: EndpointDescriptor, ring_addr: u64) -> EndpointContext {
    EndpointContext {
        a: with_field32(ctx.a, 0xFF, 16, interval_of(e.b_interval) as u32),
        b: with_field32(
            with_field32(with_field32(ctx.b, 0xFFFF, 16, e.w_max_packet_size as u32), 0x3, 1, 3),
            0x7,
            3,
            endpoint_type_of(e.bm_attributes, e.b_endpoint_address) as u32,
        ),
        c: with_field32(ctx.c, 0xFFFF, 0, 1),
        trdpl: with_field32(with_field32(ctx.trdpl, 0x0FFF_FFFF, 4, (ring_addr >> 4) as u32), 1, 0, 1),
        trdph: (ring_addr >> 32) as u32,
        ..ctx
    }
}

/// A Status Stage TRB with the direction bit `direction` and the Interrupt
/// On Completion flag `ioc`.
pub open spec fn status_stage_trb(direction: u8, ioc: bool) -> GenericTrb {
    let n = StatusStage::spec_new();
    GenericTrb {
        control: with_field32(with_field32(n.control, 1, 16, direction as u32), 1, 5, bit(ioc)),
        ..n
    }
}

/// The Setup Stage TRB of SET_CONFIGURATION (host to device, standard, to
/// the device; request 9) with the configuration value `value`.
pub open spec fn set_configuration_trb(value: u8) -> GenericTrb {
    let n = SetupStage::spec_new();
    GenericTrb {
        data_low: with_field32(
            with_field32(with_field32(n.data_low, 0xFF, 8, 9), 0xFF, 0, 0),
            0xFFFF,
            16,
            value as u32,
        ),
        data_high: with_field32(with_field32(n.data_high, 0xFFFF, 0, 0), 0xFFFF, 16, 0),
        status: n.status,
        control: with_field32(n.control, 3, 16, 0),
    }
}

/// The Normal TRB that receives 16 bytes into the buffer at `addr`, with
/// Interrupt on Short Packet and Interrupt On Completion.
pub open spec fn receive_trb(addr: u64) -> GenericTrb {
    let n = Normal::spec_new();
    GenericTrb {
        data_low: addr as u32,
        data_high: (addr >> 32) as u32,
        status: with_field32(n.status, 0x1FFFF, 0, RECEIVE_BUFF_SIZE as u32),
        control: with_field32(with_field32(n.control, 1, 2, 1), 1, 5, 1),
    }
}

/// The record of the device in one slot.
#[derive(Debug)]
pub struct Device {
    pub slot_id: u8,
    pub input_context: InputContext,
    pub device_context: DeviceContext,
    pub doorbell: Doorbell,
    pub device_descriptor_buf: Vec<u8>,
    pub init_phase: InitPhase,
    pub device_descriptor: Option<DeviceDescriptor>,
    pub descriptor_set: Option<DescriptorSet>,
    pub transfer_rings: Vec<Option<TransferRing>>,
    pub receive_data_buf: Vec<u8>,
    pub memory: DeviceMemory,
}

impl View for Device {
    type V = DeviceView;

    open spec fn view(&self) -> DeviceView {
        DeviceView {
            slot_id: self.slot_id,
            phase: self.init_phase,
            rings: Seq::new(
                TRANSFER_RINGS as nat,
                |i: int|
                    match self.transfer_rings@[i] {
                        Some(r) => r@,
                        None => RingView::fresh(TRANSFER_RING_CAPACITY as nat, self.memory.spec_ring_addr(i)),
                    },
            ),
            doorbell: self.doorbell.writes@,
            input: self.input_context@,
            device_slot: self.device_context.slot,
            buf: self.device_descriptor_buf@,
            descriptor: self.device_descriptor,
            stream: match self.descriptor_set {
                Some(s) => Some((s.data@, s.len as int)),
                None => None,
            },
            memory: self.memory,
        }
    }
}

impl Device {
    /// The record's invariant: the buffers have their sizes, each Transfer
    /// Ring that exists is well formed and lies where the layout puts it,
    /// and a phase that names an endpoint names one of 1 to 31.
    pub open spec fn wf(&self) -> bool {
        &&& self.device_descriptor_buf@.len() == DATA_BUFF_SIZE
        &&& self.receive_data_buf@.len() == RECEIVE_BUFF_SIZE
        &&& self.transfer_rings@.len() == TRANSFER_RINGS
        &&& forall|i: int|
            0 <= i < TRANSFER_RINGS ==> match #[trigger] self.transfer_rings@[i] {
                Some(r) => r.wf() && r@.buf.len() == TRANSFER_RING_CAPACITY && r@.phys_base
                    == self.memory.spec_ring_addr(i),
                None => true,
            }
        &&& self.input_context.wf()
        &&& self.device_context.wf()
        &&& self.memory.wf()
        &&& self.doorbell.index == self.slot_id
        &&& match self.init_phase {
            InitPhase::WaitConfigureCommand(dci) => 1 <= dci <= 31,
            InitPhase::Finish(dci) => 1 <= dci <= 31,
            _ => true,
        }
        &&& match self.descriptor_set {
            Some(s) => s.wf() && s.index == 0,
            None => self.init_phase != InitPhase::SetConfiguration,
        }
    }

    /// The record of a device that was just given the slot `slot_id`: no
    /// Transfer Ring yet, zeroed contexts and buffers, phase Uninitialized.
    pub fn new(slot_id: u8, doorbell: Doorbell, memory: DeviceMemory) -> (r: Device)
        requires
            memory.wf(),
            doorbell.index == slot_id,
        ensures
            r.wf(),
            r@ == (DeviceView { doorbell: doorbell.writes@, ..DeviceView::fresh(slot_id, memory) }),
    {
        let mut transfer_rings: Vec<Option<TransferRing>> = Vec::new();
        let mut i: usize = 0;
        while i < TRANSFER_RINGS
            invariant
                i <= TRANSFER_RINGS,
                transfer_rings@.len() == i,
                forall|j: int| 0 <= j < i ==> (#[trigger] transfer_rings@[j]).is_none(),
            decreases TRANSFER_RINGS - i,
        {
            transfer_rings.push(None);
            i += 1;
        }
        let r = Device {
            slot_id,
            input_context: InputContext::default(),
            device_context: DeviceContext::default(),
            doorbell,
            device_descriptor_buf: zeroes(DATA_BUFF_SIZE),
            init_phase: InitPhase::Uninitialized,
            device_descriptor: None,
            descriptor_set: None,
            transfer_rings,
            receive_data_buf: zeroes(RECEIVE_BUFF_SIZE),
            memory,
        };
        assert(r@.rings =~= DeviceView::fresh(slot_id, memory).rings);
        assert(r@.buf =~= DeviceView::fresh(slot_id, memory).buf);
        r
    }

    /// Enqueues `trb` on the Transfer Ring of endpoint `dci`, which is made
    /// first if it does not exist yet.
    pub fn push_transfer(&mut self, dci: usize, trb: GenericTrb)
        requires
            old(self).wf(),
            1 <= dci < TRANSFER_RINGS,
        ensures
            final(self).wf(),
            final(self)@ == old(self)@.push(dci as int, trb),
    {
        if self.transfer_rings[dci].is_none() {
            let addr = self.memory.ring_addr(dci);
            self.transfer_rings.set(dci, Some(TransferRing::with_capacity(TRANSFER_RING_CAPACITY, addr)));
        }
        assert(self@ == old(self)@) by {
            assert(self@.rings =~= old(self)@.rings);
        }
        let ghost mid = *self;
        match &mut self.transfer_rings[dci] {
            Some(r) => {
                r.push_command(trb);
            },
            None => {},
        }
        proof {
            lemma_push_keeps_wf(mid.transfer_rings@[dci as int].unwrap()@, trb);
            assert(final(self)@.rings =~= old(self)@.push(dci as int, trb).rings);
        }
    }

    /// Rings the device's doorbell for endpoint `dci`.
    pub fn ring_endpoint(&mut self, dci: u8)
        requires
            old(self).wf(),
        ensures
            final(self).wf(),
            final(self)@ == old(self)@.rung(dci),
    {
        self.doorbell.ring(dci, 0);
        assert(final(self)@.rings =~= old(self)@.rings);
    }

    /// Rings the device's doorbell for the default control endpoint.
    pub fn ring(&mut self)
        requires
            old(self).wf(),
        ensures
            final(self).wf(),
            final(self)@ == old(self)@.rung(1),
    {
        self.ring_endpoint(1);
    }

    /// The physical address of the descriptor buffer.
    pub fn buf_addr(&self) -> (r: u64)
        ensures
            r == self@.memory.descriptor_buf,
    {
        self.memory.descriptor_buf
    }

    /// The Device Context Index of the endpoint with the address
    /// `b_endpoint_address`.
    pub fn calculate_dci(b_endpoint_address: u8) -> (r: u8)
        ensures
            r == dci_of(b_endpoint_address),
            1 <= r <= 31,
    {
        proof {
            lemma_dci_range(b_endpoint_address);
        }
        if b_endpoint_address & 0xF == 0 {
            1
        } else {
            2 * (b_endpoint_address & 0xF) + (b_endpoint_address >> 7)
        }
    }
}

/// `n` zero bytes.
pub fn zeroes(n: usize) -> (r: Vec<u8>)
    ensures
        r@ == Seq::new(n as nat, |i: int| 0u8),
{
    let mut v: Vec<u8> = Vec::new();
    let mut i: usize = 0;
    while i < n
        invariant
            i <= n,
            v@.len() == i,
            forall|j: int| 0 <= j < i ==> v@[j] == 0u8,
        decreases n - i,
    {
        v.push(0);
        i += 1;
    }
    assert(v@ =~= Seq::new(n as nat, |i: int| 0u8));
    v
}

impl Device {
    /// Makes the control endpoint's Transfer Ring if need be, and describes
    /// the endpoint in the Input Context.
    pub fn init_default_control_endpoint(&mut self, max_packet_size: u16)
        requires
            old(self).wf(),
        ensures
            final(self).wf(),
            final(self)@ == old(self)@.control_endpoint(max_packet_size),
    {
        let addr = self.memory.ring_addr(1);
        if self.transfer_rings[1].is_none() {
            self.transfer_rings.set(1, Some(TransferRing::with_capacity(TRANSFER_RING_CAPACITY, addr)));
        }
        self.input_context.init_default_control_endpoint(max_packet_size, addr);
        assert(final(self)@.rings =~= old(self)@.rings);
    }

    /// Fills the Input Context for Address Device, for a device behind
    /// the root-hub port `port_id` that runs at `speed`.
    pub fn prepare_address(&mut self, port_id: u8, speed: u32)
        requires
            old(self).wf(),
        ensures
            final(self).wf(),
            final(self)@ == old(self)@.addressed(port_id, speed),
    {
        self.input_context.enable_slot_context();
        self.input_context.slot_ctx.set_route_string(0);
        self.input_context.slot_ctx.set_root_hub_number(port_id);
        self.input_context.slot_ctx.set_context_entries(1);
        self.input_context.slot_ctx.set_speed(speed);
        let max_packet_size: u16 = if speed == 3 {
            64
        } else if speed == 4 {
            512
        } else {
            8
        };
        assert(self@.rings =~= old(self)@.rings);
        self.init_default_control_endpoint(max_packet_size);
    }

    /// Starts the device's initialisation, once it has its address: asks
    /// for the Device descriptor.
    pub fn init(&mut self)
        requires
            old(self).wf(),
        ensures
            final(self).wf(),
            final(self)@ == old(self)@.get_descriptor(1).in_phase(InitPhase::GetDeviceDescriptor),
    {
        self.get_device_descriptor();
    }

    /// Enqueues the three stages of GET_DESCRIPTOR and rings the doorbell.
    fn request_descriptor(&mut self, desc_type: u16)
        requires
            old(self).wf(),
        ensures
            final(self).wf(),
            final(self)@ == old(self)@.get_descriptor(desc_type),
    {
        let buf_len = DATA_BUFF_SIZE as u16;
        self.push_transfer(1, SetupStage::get_descriptor(desc_type, 0, buf_len).into());
        self.push_transfer(1, DataStage::data_stage(self.memory.descriptor_buf, buf_len, 1, 1).into());
        let mut status_stage = StatusStage::new();
        status_stage.set_direction(0);
        status_stage.set_interrupt_on_completion(false);
        self.push_transfer(1, status_stage.into());
        self.ring();
    }

    /// Asks for the Device descriptor.
    pub fn get_device_descriptor(&mut self)
        requires
            old(self).wf(),
        ensures
            final(self).wf(),
            final(self)@ == old(self)@.get_descriptor(1).in_phase(InitPhase::GetDeviceDescriptor),
    {
        self.request_descriptor(1);
        self.init_phase = InitPhase::GetDeviceDescriptor;
        assert(final(self)@.rings =~= old(self)@.get_descriptor(1).rings);
    }

    /// Asks for the Configuration descriptor and what follows it.
    pub fn get_configuration_descriptor(&mut self)
        requires
            old(self).wf(),
        ensures
            final(self).wf(),
            final(self)@ == old(self)@.get_descriptor(2).in_phase(InitPhase::GetConfigurationDescriptor),
    {
        self.request_descriptor(2);
        self.init_phase = InitPhase::GetConfigurationDescriptor;
        assert(final(self)@.rings =~= old(self)@.get_descriptor(2).rings);
    }

    /// Marks the device as failed; it takes part in nothing from then on.
    pub fn fail(&mut self)
        requires
            old(self).wf(),
        ensures
            final(self).wf(),
            final(self)@ == old(self)@.in_phase(InitPhase::Failed),
    {
        self.init_phase = InitPhase::Failed;
        assert(final(self)@.rings =~= old(self)@.rings);
    }

    /// Takes the contents of the descriptor buffer as read from memory.
    pub fn set_descriptor_data(&mut self, data: Vec<u8>)
        requires
            old(self).wf(),
            data@.len() == DATA_BUFF_SIZE,
        ensures
            final(self).wf(),
            final(self)@ == (DeviceView { buf: data@, ..old(self)@ }),
    {
        self.device_descriptor_buf = data;
        assert(final(self)@.rings =~= old(self)@.rings);
    }

    /// Takes the Slot Context that the controller keeps for the device, as
    /// read from memory.
    pub fn set_device_slot(&mut self, slot: SlotContext)
        requires
            old(self).wf(),
        ensures
            final(self).wf(),
            final(self)@ == (DeviceView { device_slot: slot, ..old(self)@ }),
    {
        self.device_context.slot = slot;
        assert(final(self)@.rings =~= old(self)@.rings);
    }

    /// Reads the descriptor stream that a transfer left in the buffer and
    /// requests the device's first configuration.
    pub fn configuration(&mut self, transfer_event: &TransferEvent)
        requires
            old(self).wf(),
        ensures
            final(self).wf(),
            final(self)@ == old(self)@.configured(field_of32(transfer_event.0.status, 0xFF_FFFF, 0)),
    {
        let residual: u32 = transfer_event.transfer_length();
        if residual > DATA_BUFF_SIZE as u32 {
            self.fail();
            return ;
        }
        let len: usize = DATA_BUFF_SIZE - residual as usize;
        let data = self.device_descriptor_buf.clone();
        assert(data@ =~= self.device_descriptor_buf@);
        let mut cursor = DescriptorSet::new(data, len);
        let found = cursor.find_configuration();
        match found {
            None => {
                self.fail();
            },
            Some(config) => {
                cursor.index = 0;
                self.descriptor_set = Some(cursor);
                let mut setup_stage = SetupStage::new();
                setup_stage.set_request(9);
                setup_stage.set_request_type(0);
                setup_stage.set_value(config.b_configuration_value as u16);
                setup_stage.set_index(0);
                setup_stage.set_length(0);
                setup_stage.set_transfer_type(0);
                assert(self@ == (DeviceView { stream: Some((old(self)@.buf, len as int)), ..old(self)@ })) by {
                    assert(self@.rings =~= old(self)@.rings);
                }
                self.push_transfer(1, setup_stage.into());
                let mut status_stage = StatusStage::new();
                status_stage.set_direction(1);
                status_stage.set_interrupt_on_completion(true);
                self.push_transfer(1, status_stage.into());
                self.ring();
                let ghost before = self@;
                self.init_phase = InitPhase::SetConfiguration;
                assert(final(self)@.rings =~= before.rings);
            },
        }
    }

    /// Makes the Input Context ready for Configure Endpoint, for the first
    /// endpoint of the descriptor stream.
    pub fn device_init_configuration(&mut self) -> (r: DeviceAction)
        requires
            old(self).wf(),
            old(self)@.stream.is_some(),
        ensures
            final(self).wf(),
            final(self)@ == old(self)@.endpoints_prepared(),
            r == old(self)@.prepared_action(),
    {
        let found = match &self.descriptor_set {
            Some(set) => {
                let data = set.data.clone();
                assert(data@ =~= set.data@);
                let mut cursor = DescriptorSet::new(data, set.len);
                cursor.find_endpoint()
            },
            None => None,
        };
        match found {
            None => {
                self.fail();
                DeviceAction::Nothing
            },
            Some(endpoint_desc) => {
                let dci: u8 = Self::calculate_dci(endpoint_desc.b_endpoint_address);
                let ring_buf_addr = self.memory.ring_addr(dci as usize);
                if self.transfer_rings[dci as usize].is_none() {
                    self.transfer_rings.set(
                        dci as usize,
                        Some(TransferRing::with_capacity(TRANSFER_RING_CAPACITY, ring_buf_addr)),
                    );
                }
                self.input_context.clear_add_context();
                self.input_context.slot_ctx = self.device_context.slot;
                self.input_context.enable_slot_context();
                self.input_context.slot_ctx.set_context_entries(31);
                self.input_context.set_add_context(dci as u32, 1);
                let mut endpoint = self.input_context.ep_ctxs[(dci - 1) as usize];
                endpoint.set_max_packet_size(endpoint_desc.w_max_packet_size);
                endpoint.set_interval(interval(endpoint_desc.b_interval));
                endpoint.set_average_trb_length(1);
                endpoint.set_error_count(3);
                endpoint.set_transfer_ring_buffer(ring_buf_addr);
                endpoint.set_endpoint_type(
                    endpoint_type(endpoint_desc.bm_attributes, endpoint_desc.b_endpoint_address),
                );
                endpoint.set_dequeue_cycle_state(1);
                self.input_context.ep_ctxs.set((dci - 1) as usize, endpoint);
                self.init_phase = InitPhase::WaitConfigureCommand(dci);
                assert(final(self)@.rings =~= old(self)@.rings);
                DeviceAction::ConfigureEndpoint {
                    input_context_addr: self.memory.input_context,
                    slot_id: self.slot_id,
                }
            },
        }
    }

    /// Enqueues a transfer that receives into the receive buffer on
    /// endpoint `dci`, and rings the doorbell.
    pub fn receive(&mut self, dci: u8)
        requires
            old(self).wf(),
            1 <= dci <= 31,
        ensures
            final(self).wf(),
            final(self)@ == old(self)@.receive(dci),
    {
        let mut normal = Normal::new();
        normal.set_data_buffer_pointer(self.memory.receive_buf);
        normal.set_trb_transfer_length(RECEIVE_BUFF_SIZE as u32);
        normal.set_interrupt_on_short_packet(true);
        normal.set_interrupt_on_completion(true);
        self.push_transfer(dci as usize, normal.into());
        self.ring_endpoint(dci);
    }

    /// Takes the device on after the Configure Endpoint command completed.
    pub fn on_endpoints_configured(&mut self)
        requires
            old(self).wf(),
        ensures
            final(self).wf(),
            final(self)@ == old(self)@.endpoints_configured(),
    {
        match self.init_phase {
            InitPhase::WaitConfigureCommand(dci) => {
                self.init_phase = InitPhase::Finish(dci);
                assert(self@ == old(self)@.in_phase(InitPhase::Finish(dci))) by {
                    assert(self@.rings =~= old(self)@.rings);
                }
                self.receive(dci);
            },
            _ => {},
        }
    }

    /// Takes the device on after one of its transfers completed with
    /// success, and says what the controller has to do for it.
    pub fn receive_transfer_event(&mut self, transfer_event: &TransferEvent) -> (r: DeviceAction)
        requires
            old(self).wf(),
        ensures
            final(self).wf(),
            final(self)@ == old(self)@.transfer_completed(field_of32(transfer_event.0.status, 0xFF_FFFF, 0)),
            r == old(self)@.transfer_action(),
    {
        match self.init_phase {
            InitPhase::GetDeviceDescriptor => {
                self.device_descriptor = DeviceDescriptor::parse(&self.device_descriptor_buf);
                assert(self@ == (DeviceView {
                    descriptor: Some(DeviceDescriptor::spec_parse(old(self)@.buf, 0)),
                    ..old(self)@
                })) by {
                    assert(self@.rings =~= old(self)@.rings);
                }
                self.get_configuration_descriptor();
                DeviceAction::Nothing
            },
            InitPhase::GetConfigurationDescriptor => {
                self.configuration(transfer_event);
                DeviceAction::Nothing
            },
            InitPhase::SetConfiguration => self.device_init_configuration(),
            InitPhase::Finish(dci) => {
                self.receive(dci);
                DeviceAction::Nothing
            },
            _ => DeviceAction::Nothing,
        }
    }
}

/// The Interval for a bInterval.
fn interval(b_interval: u8) -> (r: u8)
    ensures
        r == interval_of(b_interval),
{
    if b_interval == 0 {
        0
    } else {
        b_interval - 1
    }
}

/// The Endpoint Type for a descriptor's attributes and address.
fn endpoint_type(bm_attributes: u8, b_endpoint_address: u8) -> (r: u8)
    ensures
        r == endpoint_type_of(bm_attributes, b_endpoint_address),
{
    if bm_attributes % 4 == 0 {
        4
    } else {
        bm_attributes % 4 + 4 * (b_endpoint_address / 128)
    }
}

/// Why the driver gave up on a controller or on a device.
#[derive(Clone, Copy, Debug, PartialEq, Eq, Structural)]
pub enum XhciError {
    /// The controller lacks 64-bit addressing, has 64-byte contexts, or
    /// asks for scratchpad buffers.
    UnsupportedController,
    /// The controller did not halt, reset or start in time.
    TimeoutDuringReset,
    /// The firmware did not release the controller in time.
    LegacyHandoffTimeout,
    /// A slot id that is 0, above MaxSlots, or already in use.
    InvalidSlotId,
    /// A transfer completed with an error.
    TransferFailure,
    /// The controller lost events.
    EventLost,
}

/// One write of an entry of the Device Context Base Address Array.
#[derive(Clone, Copy, Debug, PartialEq, Eq, Structural)]
pub struct DcbaaWrite {
    pub slot: usize,
    pub value: u64,
}

/// The devices of a controller, with the Device Context Base Address
/// Array, the Command Ring's doorbell and the port whose device is being
/// given an address.
pub struct DeviceManager {
    pub device_contexts: Vec<u64>,
    pub devices: Vec<Option<Device>>,
    pub doorbells: Doorbell,
    pub addressing_port: Option<u8>,
    pub dcbaa_addr: u64,
    pub devices_base: u64,
    pub pending: Vec<DcbaaWrite>,
}

impl DeviceManager {
    /// The number of the highest slot.
    pub open spec fn max_slot(&self) -> int {
        self.devices@.len() - 1
    }

    /// The physical address of the memory region of the device in `slot`.
    pub open spec fn spec_region(&self, slot: int) -> u64 {
        (self.devices_base + DEVICE_REGION_SIZE * slot) as u64
    }

    /// The record of the device in `slot`, if there is one.
    pub open spec fn device(&self, slot: int) -> Option<DeviceView> {
        match self.devices@[slot] {
            Some(d) => Some(d@),
            None => None,
        }
    }

    /// The manager's invariant: the array and the records have an entry for
    /// each slot from 0 to MaxSlots, slot 0 holds no device, the memory
    /// regions lie in the address space, and each record is well formed,
    /// knows its slot and lies in its slot's region.
    pub open spec fn wf(&self) -> bool {
        &&& 1 <= self.devices@.len() <= 256
        &&& self.device_contexts@.len() == self.devices@.len()
        &&& self.devices@[0].is_none()
        &&& self.doorbells.index == 0
        &&& self.dcbaa_addr % 64 == 0
        &&& self.devices_base % 64 == 0
        &&& self.devices_base + DEVICE_REGION_SIZE * self.devices@.len() <= u64::MAX
        &&& forall|i: int|
            0 <= i < self.devices@.len() ==> match #[trigger] self.devices@[i] {
                Some(d) => d.wf() && d.slot_id == i && d.memory == DeviceMemory::spec_at(self.spec_region(i)),
                None => true,
            }
    }

    /// Everything but the records is as in `old`, and so are the records
    /// of every slot but `slot`.
    pub open spec fn same_but_device(&self, old: &DeviceManager, slot: int) -> bool {
        &&& self.device_contexts == old.device_contexts
        &&& self.doorbells == old.doorbells
        &&& self.addressing_port == old.addressing_port
        &&& self.dcbaa_addr == old.dcbaa_addr
        &&& self.devices_base == old.devices_base
        &&& self.pending == old.pending
        &&& self.devices@.len() == old.devices@.len()
        &&& forall|j: int| 0 <= j < old.devices@.len() && j != slot ==> self.devices@[j] == old.devices@[j]
    }

    /// A manager for the slots 1 to `max_slot`, all empty. The Device
    /// Context Base Address Array lies at `dcbaa_addr`, and the region of
    /// the device in slot i at `devices_base` plus i times the region size.
    pub fn new(max_slot: usize, dcbaa_addr: u64, devices_base: u64) -> (r: DeviceManager)
        requires
            max_slot <= 255,
            dcbaa_addr % 64 == 0,
            devices_base % 64 == 0,
            devices_base + DEVICE_REGION_SIZE * (max_slot + 1) <= u64::MAX,
        ensures
            r.wf(),
            r.max_slot() == max_slot,
            forall|i: int| 0 <= i <= max_slot ==> (#[trigger] r.devices@[i]).is_none(),
            r.device_contexts@ == Seq::new((max_slot + 1) as nat, |i: int| 0u64),
            r.doorbells.writes@ == Seq::<u32>::empty(),
            r.addressing_port.is_none(),
            r.dcbaa_addr == dcbaa_addr,
            r.devices_base == devices_base,
            r.pending@ == Seq::<DcbaaWrite>::empty(),
    {
        let mut device_contexts: Vec<u64> = Vec::new();
        let mut devices: Vec<Option<Device>> = Vec::new();
        let mut i: usize = 0;
        while i < max_slot + 1
            invariant
                i <= max_slot + 1,
                max_slot <= 255,
                device_contexts@.len() == i,
                devices@.len() == i,
                forall|j: int| 0 <= j < i ==> device_contexts@[j] == 0u64,
                forall|j: int| 0 <= j < i ==> (#[trigger] devices@[j]).is_none(),
            decreases max_slot + 1 - i,
        {
            device_contexts.push(0);
            devices.push(None);
            i += 1;
        }
        assert(device_contexts@ =~= Seq::new((max_slot + 1) as nat, |i: int| 0u64));
        DeviceManager {
            device_contexts,
            devices,
            doorbells: Doorbell::new(0),
            addressing_port: None,
            dcbaa_addr,
            devices_base,
            pending: Vec::new(),
        }
    }

    /// The physical address of the Device Context Base Address Array, for
    /// DCBAAP.
    pub fn dcbaap(&self) -> (r: u64)
        ensures
            r == self.dcbaa_addr,
    {
        self.dcbaa_addr
    }

    /// The physical address of the Device Context Base Address Array.
    pub fn device_contexts(&self) -> (r: u64)
        ensures
            r == self.dcbaa_addr,
    {
        self.dcbaa_addr
    }

    /// Stores the physical address of a Device Context in the array entry
    /// of `slot_id`, and records the write; 0 clears the entry.
    pub fn set_context(&mut self, slot_id: usize, device_context_addr: u64)
        requires
            slot_id < old(self).device_contexts@.len(),
        ensures
            final(self).device_contexts@ == old(self).device_contexts@.update(
                slot_id as int,
                device_context_addr,
            ),
            final(self).pending@ == old(self).pending@.push(
                DcbaaWrite { slot: slot_id, value: device_context_addr },
            ),
            final(self).devices == old(self).devices,
            final(self).doorbells == old(self).doorbells,
            final(self).addressing_port == old(self).addressing_port,
            final(self).dcbaa_addr == old(self).dcbaa_addr,
            final(self).devices_base == old(self).devices_base,
    {
        self.device_contexts.set(slot_id, device_context_addr);
        self.pending.push(DcbaaWrite { slot: slot_id, value: device_context_addr });
    }

    /// The Command Ring's doorbell.
    pub fn doorbells(&self) -> (r: &Doorbell)
        ensures
            *r == self.doorbells,
    {
        &self.doorbells
    }

    /// Rings the Command Ring's doorbell.
    pub fn ring_command_doorbell(&mut self)
        ensures
            final(self).doorbells.index == old(self).doorbells.index,
            final(self).doorbells.writes@ == old(self).doorbells.writes@.push(doorbell_value(0, 0)),
            final(self).device_contexts == old(self).device_contexts,
            final(self).devices == old(self).devices,
            final(self).addressing_port == old(self).addressing_port,
            final(self).dcbaa_addr == old(self).dcbaa_addr,
            final(self).devices_base == old(self).devices_base,
            final(self).pending == old(self).pending,
    {
        self.doorbells.ring(0, 0);
    }

    /// The doorbell of the slot `index`, not rung.
    pub fn doorbell_at(&self, index: usize) -> (r: Doorbell)
        requires
            index <= 255,
        ensures
            r.index == index,
            r.writes@ == Seq::<u32>::empty(),
    {
        Doorbell::new(index as u8)
    }

    /// The records, by slot.
    pub fn devices(&self) -> (r: &Vec<Option<Device>>)
        ensures
            *r == self.devices,
    {
        &self.devices
    }

    /// The records, by slot, to be changed.
    pub fn devices_mut(&mut self) -> (r: &mut Vec<Option<Device>>)
        ensures
            *r == old(self).devices,
            *final(self) == (DeviceManager { devices: *final(r), ..*old(self) }),
    {
        &mut self.devices
    }

    /// Whether `slot_id` is a slot that holds a device.
    pub fn has_device(&self, slot_id: usize) -> (r: bool)
        ensures
            r == (slot_id < self.devices@.len() && self.devices@[slot_id as int].is_some()),
    {
        slot_id < self.devices.len() && self.devices[slot_id].is_some()
    }

    /// The physical address of the memory region of the device in `slot`.
    pub fn region(&self, slot: usize) -> (r: u64)
        requires
            self.wf(),
            slot < self.devices@.len(),
        ensures
            r == self.spec_region(slot as int),
            r % 64 == 0,
            r + DEVICE_REGION_SIZE <= u64::MAX,
    {
        self.devices_base + DEVICE_REGION_SIZE * (slot as u64)
    }

    /// Makes the record of the device that was given the slot `slot_id`,
    /// and enters the physical address of its Device Context in the array.
    /// The slot id is refused, and nothing changes, if it is 0, above
    /// MaxSlots, or names a slot that holds a device.
    pub fn enable_device(&mut self, slot_id: usize) -> (r: Result<(), XhciError>)
        requires
            old(self).wf(),
        ensures
            final(self).wf(),
            old(self).entries_match() ==> final(self).entries_match(),
            (slot_id == 0 || slot_id > old(self).max_slot() || old(self).devices@[slot_id as int].is_some())
                ==> r == Err::<(), XhciError>(XhciError::InvalidSlotId) && *final(self) == *old(self),
            (0 < slot_id <= old(self).max_slot() && old(self).devices@[slot_id as int].is_none()) ==> {
                &&& r.is_ok()
                &&& final(self).device(slot_id as int) == Some(
                    DeviceView::fresh(
                        slot_id as u8,
                        DeviceMemory::spec_at(old(self).spec_region(slot_id as int)),
                    ),
                )
                &&& final(self).device_contexts@ == old(self).device_contexts@.update(
                    slot_id as int,
                    DeviceMemory::spec_at(old(self).spec_region(slot_id as int)).device_context,
                )
                &&& final(self).pending@ == old(self).pending@.push(
                    DcbaaWrite {
                        slot: slot_id,
                        value: DeviceMemory::spec_at(old(self).spec_region(slot_id as int)).device_context,
                    },
                )
                &&& final(self).doorbells == old(self).doorbells
                &&& final(self).addressing_port == old(self).addressing_port
                &&& final(self).dcbaa_addr == old(self).dcbaa_addr
                &&& final(self).devices_base == old(self).devices_base
                &&& forall|j: int|
                    0 <= j < old(self).devices@.len() && j != slot_id ==> final(self).devices@[j] == old(
                        self,
                    ).devices@[j]
            },
    {
        if slot_id == 0 || slot_id >= self.devices.len() || self.devices[slot_id].is_some() {
            return Err(XhciError::InvalidSlotId);
        }
        let memory = DeviceMemory::at(self.region(slot_id));
        let device = Device::new(slot_id as u8, self.doorbell_at(slot_id), memory);
        self.devices.set(slot_id, Some(device));
        self.set_context(slot_id, memory.device_context);
        Ok(())
    }

    /// Drops the record of the device in `slot_id` and clears the slot's
    /// entry in the Device Context Base Address Array, once the slot was
    /// disabled. The slot id is refused, and nothing changes, if it names no
    /// slot that holds a device.
    pub fn disable_device(&mut self, slot_id: usize) -> (r: Result<(), XhciError>)
        requires
            old(self).wf(),
        ensures
            final(self).wf(),
            old(self).entries_match() ==> final(self).entries_match(),
            !(slot_id < old(self).devices@.len() && old(self).devices@[slot_id as int].is_some()) ==> r == Err::<
                (),
                XhciError,
            >(XhciError::InvalidSlotId) && *final(self) == *old(self),
            (slot_id < old(self).devices@.len() && old(self).devices@[slot_id as int].is_some()) ==> {
                &&& r.is_ok()
                &&& final(self).devices@ == old(self).devices@.update(slot_id as int, None)
                &&& final(self).device_contexts@ == old(self).device_contexts@.update(slot_id as int, 0)
                &&& final(self).pending@ == old(self).pending@.push(DcbaaWrite { slot: slot_id, value: 0 })
                &&& final(self).doorbells == old(self).doorbells
                &&& final(self).addressing_port == old(self).addressing_port
                &&& final(self).dcbaa_addr == old(self).dcbaa_addr
                &&& final(self).devices_base == old(self).devices_base
            },
    {
        if !self.has_device(slot_id) {
            return Err(XhciError::InvalidSlotId);
        }
        self.devices.set(slot_id, None);
        self.set_context(slot_id, 0);
        Ok(())
    }

    /// Remembers the port whose device is to be given an address next, and
    /// returns the port remembered before.
    pub fn set_addressing_port(&mut self, port: u8) -> (r: Option<u8>)
        ensures
            r == old(self).addressing_port,
            *final(self) == (DeviceManager { addressing_port: Some(port), ..*old(self) }),
    {
        let previous = self.addressing_port;
        self.addressing_port = Some(port);
        previous
    }

    /// The port whose device is to be given an address next.
    pub fn get_addressing_port(&self) -> (r: Option<u8>)
        ensures
            r == self.addressing_port,
    {
        self.addressing_port
    }

    /// Fills the Input Context of the device in `slot_id` for Address
    /// Device.
    pub fn address_device(&mut self, slot_id: usize, port_id: u8, speed: u32) -> (r: u64)
        requires
            old(self).wf(),
            slot_id < old(self).devices@.len(),
            old(self).devices@[slot_id as int].is_some(),
        ensures
            final(self).wf(),
            final(self).same_but_device(old(self), slot_id as int),
            final(self).device(slot_id as int) == Some(
                old(self).device(slot_id as int).unwrap().addressed(port_id, speed),
            ),
            r == old(self).device(slot_id as int).unwrap().memory.input_context,
            r % 64 == 0,
    {
        match &mut self.devices[slot_id] {
            Some(d) => {
                d.prepare_address(port_id, speed);
                d.memory.input_context
            },
            None => 0,
        }
    }

    /// Starts the initialisation of the device in `slot_id`, once it has
    /// its address.
    pub fn init_device(&mut self, slot_id: usize)
        requires
            old(self).wf(),
            slot_id < old(self).devices@.len(),
            old(self).devices@[slot_id as int].is_some(),
        ensures
            final(self).wf(),
            final(self).same_but_device(old(self), slot_id as int),
            final(self).device(slot_id as int) == Some(
                old(self).device(slot_id as int).unwrap().get_descriptor(1).in_phase(
                    InitPhase::GetDeviceDescriptor,
                ),
            ),
    {
        match &mut self.devices[slot_id] {
            Some(d) => {
                d.init();
            },
            None => {},
        }
    }

    /// Takes the device in `slot_id` on after its Configure Endpoint
    /// command completed.
    pub fn endpoints_configured(&mut self, slot_id: usize)
        requires
            old(self).wf(),
            slot_id < old(self).devices@.len(),
            old(self).devices@[slot_id as int].is_some(),
        ensures
            final(self).wf(),
            final(self).same_but_device(old(self), slot_id as int),
            final(self).device(slot_id as int) == Some(
                old(self).device(slot_id as int).unwrap().endpoints_configured(),
            ),
    {
        match &mut self.devices[slot_id] {
            Some(d) => {
                d.on_endpoints_configured();
            },
            None => {},
        }
    }

    /// Hands a Transfer event to the device of its slot. If the transfer
    /// completed with Success or Short Packet, the device goes on;
    /// otherwise it is marked as failed. No other device is touched.
    pub fn process_transfer_event(&mut self, transfer_event: &TransferEvent) -> (r: DeviceAction)
        requires
            old(self).wf(),
            field_of32(transfer_event.0.control, 0xFF, 24) < old(self).devices@.len(),
            old(self).devices@[field_of32(transfer_event.0.control, 0xFF, 24) as int].is_some(),
        ensures
            final(self).wf(),
            final(self).same_but_device(old(self), field_of32(transfer_event.0.control, 0xFF, 24) as int),
            ({
                let slot = field_of32(transfer_event.0.control, 0xFF, 24) as int;
                let code = CompletionCode::spec_decode(field_of32(transfer_event.0.status, 0xFF, 24) as u8);
                let residual = field_of32(transfer_event.0.status, 0xFF_FFFF, 0);
                let before = old(self).device(slot).unwrap();
                if code.spec_is_success() {
                    final(self).device(slot) == Some(before.transfer_completed(residual)) && r
                        == before.transfer_action()
                } else {
                    final(self).device(slot) == Some(before.in_phase(InitPhase::Failed)) && r
                        == DeviceAction::Nothing
                }
            }),
    {
        let slot = transfer_event.slot_id() as usize;
        let code = CompletionCode::from(transfer_event.completion_code());
        let ok = code.is_success();
        match &mut self.devices[slot] {
            Some(d) => {
                if ok {
                    d.receive_transfer_event(transfer_event)
                } else {
                    d.fail();
                    DeviceAction::Nothing
                }
            },
            None => DeviceAction::Nothing,
        }
    }

    /// Hands out the recorded writes to the Device Context Base Address
    /// Array, oldest first, and forgets them.
    pub fn take_pending(&mut self) -> (r: Vec<DcbaaWrite>)
        ensures
            r@ == old(self).pending@,
            final(self).pending@ == Seq::<DcbaaWrite>::empty(),
            final(self).device_contexts == old(self).device_contexts,
            final(self).devices == old(self).devices,
            final(self).doorbells == old(self).doorbells,
            final(self).addressing_port == old(self).addressing_port,
            final(self).dcbaa_addr == old(self).dcbaa_addr,
            final(self).devices_base == old(self).devices_base,
    {
        let mut out: Vec<DcbaaWrite> = Vec::new();
        std::mem::swap(&mut out, &mut self.pending);
        out
    }
}

/// The value that rings a doorbell holds the target in its low byte and
/// the stream id in its high half.
pub proof fn lemma_doorbell_value(target: u8, stream_id: u16)
    by (bit_vector)
    ensures
        doorbell_value(target, stream_id) == (target as u32) | ((stream_id as u32) << 16),
{
}

proof fn lemma_receive_control(c: u32)
    by (bit_vector)
    requires
        c <= 1,
    ensures
        with_field32(with_field32(with_field32(with_field32(0, 0x3F, 10, 1), 1, 2, 1), 1, 5, 1), 1, 0, c) == 0x424
            | c,
        field_of32(0x424 | c, 0x3F, 10) == 1,
        field_of32(0x424 | c, 1, 5) == 1,
        field_of32(0x424 | c, 1, 2) == 1,
        field_of32(0x424 | c, 1, 0) == c,
        with_field32(0, 0x1FFFF, 0, 16) == 16,
{
}

/// The TRB that receives into the receive buffer is, on the ring, a Normal
/// TRB of the length 16 with Interrupt On Completion and Interrupt on Short
/// Packet set, and its cycle bit is the one that the ring gave it.
pub proof fn lemma_receive_trb(addr: u64, cycle: bool)
    ensures
        stamped(receive_trb(addr), cycle).spec_trb_type() == TrbType::Normal,
        field_of32(stamped(receive_trb(addr), cycle).control, 1, 5) == 1,
        field_of32(stamped(receive_trb(addr), cycle).control, 1, 2) == 1,
        stamped(receive_trb(addr), cycle).spec_pcs() == cycle,
        stamped(receive_trb(addr), cycle).status == 16,
{
    lemma_receive_control(if cycle { 1u32 } else { 0u32 });
}

/// In every phase but the one that prepares the endpoints, a transfer that
/// completes asks nothing of the controller.
pub proof fn lemma_only_configuration_asks(d: DeviceView)
    requires
        d.phase != InitPhase::SetConfiguration,
    ensures
        d.transfer_action() == DeviceAction::Nothing,
{
}

/// A device that has failed stays failed and is scheduled no more: neither
/// a completed transfer nor a completed command changes it.
pub proof fn lemma_failed_stays(d: DeviceView, residual: u32)
    requires
        d.phase == InitPhase::Failed,
    ensures
        d.transfer_completed(residual) == d,
        d.endpoints_configured() == d,
        d.transfer_action() == DeviceAction::Nothing,
{
}

/// A device in service stays in service on its endpoint: each transfer
/// that completes enqueues one more on that endpoint's ring and rings the
/// doorbell for it.
pub proof fn lemma_in_service_stays(d: DeviceView, dci: u8, residual: u32)
    requires
        d.phase == InitPhase::Finish(dci),
    ensures
        d.transfer_completed(residual).phase == InitPhase::Finish(dci),
        d.transfer_completed(residual).rings == d.rings.update(
            dci as int,
            d.rings[dci as int].push(receive_trb(d.memory.receive_buf)),
        ),
        d.transfer_completed(residual).doorbell == d.doorbell.push(doorbell_value(dci, 0)),
{
}

impl DeviceManager {
    /// The Device Context Base Address Array agrees with the records: the
    /// entry of a slot that holds a device is the address of that device's
    /// Device Context, and the entry of every other slot is null.
    pub open spec fn entries_match(&self) -> bool {
        forall|i: int|
            0 <= i < self.devices@.len() ==> #[trigger] self.device_contexts@[i] == match self.device(i) {
                Some(d) => d.memory.device_context,
                None => 0,
            }
    }
}

/// While the array agrees with the records, an entry is null exactly if
/// its slot holds no device.
pub proof fn lemma_entry_null_iff_free(m: DeviceManager, slot: int)
    requires
        m.wf(),
        m.entries_match(),
        0 <= slot < m.devices@.len(),
    ensures
        m.device_contexts@[slot] == 0 <==> m.devices@[slot].is_none(),
{
    assert(m.device_contexts@[slot] == match m.device(slot) {
        Some(d) => d.memory.device_context,
        None => 0,
    });
}

/// No step of a device's way into service moves its memory or changes its
/// slot.
pub proof fn lemma_memory_stays(d: DeviceView, residual: u32, port_id: u8, speed: u32)
    ensures
        d.transfer_completed(residual).memory == d.memory,
        d.transfer_completed(residual).slot_id == d.slot_id,
        d.endpoints_configured().memory == d.memory,
        d.get_descriptor(1).in_phase(InitPhase::GetDeviceDescriptor).memory == d.memory,
        d.in_phase(InitPhase::Failed).memory == d.memory,
        d.addressed(port_id, speed).memory == d.memory,
{
}

/// The way of a device into service: from the request for its Device
/// descriptor, three transfers that complete and the completion of the
/// Configure Endpoint command lead to service on the first endpoint that its
/// descriptors name, if the bytes that the second transfer left hold a
/// Configuration and an Endpoint descriptor. The first transfer on that
/// endpoint is then enqueued.
pub proof fn lemma_happy_path(d: DeviceView, data: Seq<u8>, r1: u32, r2: u32, r3: u32)
    requires
        d.phase == InitPhase::GetDeviceDescriptor,
        d.rings.len() == TRANSFER_RINGS,
        r2 <= DATA_BUFF_SIZE,
        DescriptorSet::spec_first_configuration(descriptors(data, DATA_BUFF_SIZE - r2, 0)).is_some(),
        DescriptorSet::spec_first_endpoint(descriptors(data, DATA_BUFF_SIZE - r2, 0)).is_some(),
    ensures
        ({
            let asked = d.transfer_completed(r1);
            let read = DeviceView { buf: data, ..asked };
            let set = read.transfer_completed(r2);
            let prepared = set.transfer_completed(r3);
            let served = prepared.endpoints_configured();
            let endpoint = DescriptorSet::spec_first_endpoint(descriptors(data, DATA_BUFF_SIZE - r2, 0)).unwrap();
            let dci = dci_of(endpoint.b_endpoint_address);
            &&& asked.phase == InitPhase::GetConfigurationDescriptor
            &&& set.phase == InitPhase::SetConfiguration
            &&& set.transfer_action() == (DeviceAction::ConfigureEndpoint {
                input_context_addr: d.memory.input_context,
                slot_id: d.slot_id,
            })
            &&& prepared.phase == InitPhase::WaitConfigureCommand(dci)
            &&& served.phase == InitPhase::Finish(dci)
            &&& served.rings[dci as int] == prepared.rings[dci as int].push(receive_trb(d.memory.receive_buf))
            &&& served.doorbell == prepared.doorbell.push(doorbell_value(dci, 0))
        }),
{
    let endpoint = DescriptorSet::spec_first_endpoint(descriptors(data, DATA_BUFF_SIZE - r2, 0)).unwrap();
    lemma_dci_range(endpoint.b_endpoint_address);
    let asked = d.transfer_completed(r1);
    let read = DeviceView { buf: data, ..asked };
    let set = read.transfer_completed(r2);
    assert(set.stream == Some((data, (DATA_BUFF_SIZE - r2) as int)));
    assert(set.first_endpoint() == Some(endpoint));
    let prepared = set.transfer_completed(r3);
    assert(prepared.rings.len() == TRANSFER_RINGS);
    assert(prepared.phase == InitPhase::WaitConfigureCommand(dci_of(endpoint.b_endpoint_address)));
}

} // verus!
