//! The controller: the rings, the register image, the ports and the devices
//! of one xHCI host controller, and the dispatch of its events.

use vstd::prelude::*;
use crate::bits::{field_of32, with_field32, read_field32, lemma_field_bound32};
use crate::bringup::BringUpPhase;
use crate::command::{command_trb, CommandRing};
use crate::device::{
    doorbell_value, DcbaaWrite, DeviceAction, DeviceManager, DeviceMemory, DeviceView, InitPhase,
    XhciError,
};
use crate::event::{
    CommandCompletionEvent, EventRing, EventRingSegmentTable, EventRingSegmentTableEntry,
    EventRingView, PortStatusChangeEvent, TransferEvent,
};
use crate::port::{portsc_enable_write, Port, PortSet, PortWrite};
use crate::registers::{Interrupter, Reg, RegWrite, Registers, Runtime};
use crate::ring::RingView;
use crate::trb::{CompletionCode, GenericTrb, TrbType};

verus! {

/// The number of entries of the Command Ring.
pub const COMMAND_RING_CAPACITY: usize = 32;

/// The number of entries of the Event Ring.
pub const EVENT_RING_CAPACITY: usize = 32;

/// The bytes of physical memory that a controller's structures take.
pub const DMA_REGION_SIZE: u64 = 0x60_1000;

/// Offset of the Command Ring in the controller's memory.
pub const COMMAND_RING_OFFSET: u64 = 0x800;

/// Offset of the Event Ring in the controller's memory.
pub const EVENT_RING_OFFSET: u64 = 0xA00;

/// Offset of the Event Ring Segment Table in the controller's memory.
pub const ERST_OFFSET: u64 = 0xC00;

/// Offset of the devices' regions in the controller's memory.
pub const DEVICES_OFFSET: u64 = 0x1000;

/// The offset between a physical address and the virtual address at which
/// the kernel maps it.
pub const PHYS_VIRT_OFFSET: u64 = 0xffff_ff80_0000_0000;

/// The physical address behind the virtual address `vaddr` of the linear
/// mapping.
pub fn virt_to_phys(vaddr: u64) -> (r: u64)
    requires
        vaddr >= PHYS_VIRT_OFFSET,
    ensures
        r == vaddr - PHYS_VIRT_OFFSET,
{
    vaddr - PHYS_VIRT_OFFSET
}

/// The virtual address at which the linear mapping shows the physical
/// address `paddr`.
pub fn phys_to_virt(paddr: u64) -> (r: u64)
    requires
        paddr + PHYS_VIRT_OFFSET <= u64::MAX,
    ensures
        r == paddr + PHYS_VIRT_OFFSET,
{
    paddr + PHYS_VIRT_OFFSET
}

/// The two translations are inverses of each other.
pub proof fn lemma_translation_inverse(paddr: u64, vaddr: u64)
    ensures
        paddr + PHYS_VIRT_OFFSET <= u64::MAX ==> (paddr + PHYS_VIRT_OFFSET) - PHYS_VIRT_OFFSET == paddr,
        vaddr >= PHYS_VIRT_OFFSET ==> (vaddr - PHYS_VIRT_OFFSET) + PHYS_VIRT_OFFSET == vaddr,
{
}

/// What is known of a controller besides its registers.
#[derive(Clone, Copy, Debug)]
pub struct XhciInfo {}

/// What a controller offers to the rest of the system.
pub trait XhciDriverOps {
    /// The name of the device.
    fn device_name(&self) -> &'static str;

    /// What is known of the controller.
    fn info(&self) -> XhciInfo;
}

/// One xHCI host controller.
pub struct XhciController {
    pub base_addr: u64,
    pub register: Registers,
    pub event_ring: EventRing,
    pub command_ring: CommandRing,
    pub device_manager: DeviceManager,
    pub ers_table: EventRingSegmentTable,
    pub port_set: PortSet,
    pub phase: BringUpPhase,
    pub legacy: Option<u32>,
}

impl XhciDriverOps for XhciController {
    fn device_name(&self) -> (r: &'static str)
        ensures
            r@ == "xhci-controller"@,
    {
        "xhci-controller"
    }

    fn info(&self) -> (r: XhciInfo)
        ensures
            r == (XhciInfo {  }),
    {
        XhciInfo {  }
    }
}

impl XhciController {
    /// The controller's invariant: each part is well formed, there is a
    /// slot for each of the controller's slots and an image for each of its
    /// ports.
    pub open spec fn wf(&self) -> bool {
        &&& self.register.wf()
        &&& self.event_ring.wf()
        &&& self.command_ring.wf()
        &&& self.device_manager.wf()
        &&& self.ers_table.wf()
        &&& self.port_set.wf()
        &&& self.port_set.max_ports <= 255
        &&& self.ers_table.spec_len() >= 1
    }

    /// A controller with the registers `register`, whose structures lie in
    /// the `DMA_REGION_SIZE` bytes of physical memory from `dma_base` on:
    /// the Device Context Base Address Array, the Command Ring, the Event
    /// Ring, the Event Ring Segment Table with its one entry, and a region
    /// for each device. Nothing is written to the controller yet.
    pub fn new(register: Registers, dma_base: u64) -> (r: XhciController)
        requires
            register.wf(),
            dma_base % 64 == 0,
            dma_base + DMA_REGION_SIZE <= u64::MAX,
        ensures
            r.wf(),
            r.base_addr == register.base,
            r.register == register,
            r.device_manager.max_slot() == field_of32(register.capability.hcsparams1, 0xFF, 0),
            r.device_manager.dcbaa_addr == dma_base,
            r.device_manager.devices_base == dma_base + DEVICES_OFFSET,
            r.device_manager.addressing_port.is_none(),
            forall|i: int|
                0 <= i < r.device_manager.devices@.len() ==> (#[trigger] r.device_manager.devices@[i]).is_none(),
            r.device_manager.device_contexts@ == Seq::new(r.device_manager.devices@.len(), |i: int| 0u64),
            r.device_manager.doorbells.writes@ == Seq::<u32>::empty(),
            r.device_manager.pending@ == Seq::<DcbaaWrite>::empty(),
            r.command_ring@ == RingView::fresh(
                COMMAND_RING_CAPACITY as nat,
                (dma_base + COMMAND_RING_OFFSET) as u64,
            ),
            r.event_ring@ == (EventRingView {
                buf: Seq::new(EVENT_RING_CAPACITY as nat, |i: int| GenericTrb::zero()),
                cycle_bit: true,
                deq_idx: 0,
                phys_base: (dma_base + EVENT_RING_OFFSET) as u64,
            }),
            r.ers_table.phys_base == dma_base + ERST_OFFSET,
            r.ers_table.entries@ == seq![
                EventRingSegmentTableEntry {
                    address: (dma_base + EVENT_RING_OFFSET) as u64,
                    size: EVENT_RING_CAPACITY as u16,
                    _rsvd: 0,
                    _rsvd2: 0,
                },
            ],
            r.port_set.max_ports == field_of32(register.capability.hcsparams1, 0xFF, 24),
            r.port_set.addr == register.base + field_of32(register.capability.dw1, 0xFF, 0) + 0x400,
            r.port_set.index == 0,
            r.port_set.ports@ == Seq::new(
                r.port_set.max_ports as nat,
                |i: int| (Port { portsc: 0, portpmsc: 0, portli: 0, porthlpmc: 0 }),
            ),
            r.port_set.writes@ == Seq::<PortWrite>::empty(),
            r.phase == BringUpPhase::Start,
            r.legacy.is_none(),
    {
        let max_slots = register.max_slots();
        let max_ports = register.max_ports();
        let device_manager = DeviceManager::new(max_slots as usize, dma_base, dma_base + DEVICES_OFFSET);
        let command_ring = CommandRing::with_capacity(COMMAND_RING_CAPACITY, dma_base + COMMAND_RING_OFFSET);
        let event_ring = EventRing::with_capacity(EVENT_RING_CAPACITY, dma_base + EVENT_RING_OFFSET);
        let mut ers_table = EventRingSegmentTable::with_capacity(1, dma_base + ERST_OFFSET);
        ers_table.set_event_ring_data(0, &event_ring);
        proof {
            lemma_field_bound32(register.capability.dw1, 0xFF, 0);
        }
        let port_set = PortSet::new(max_ports, register.operational_addr());
        assert(ers_table.entries@ =~= seq![
            EventRingSegmentTableEntry {
                address: (dma_base + EVENT_RING_OFFSET) as u64,
                size: EVENT_RING_CAPACITY as u16,
                _rsvd: 0,
                _rsvd2: 0,
            },
        ]);
        XhciController {
            base_addr: register.base,
            register,
            event_ring,
            command_ring,
            device_manager,
            ers_table,
            port_set,
            phase: BringUpPhase::Start,
            legacy: None,
        }
    }
}

impl XhciController {
    /// The registers, the Event Ring and its segment table are as in `old`.
    pub open spec fn same_event_side(&self, old: &XhciController) -> bool {
        &&& self.base_addr == old.base_addr
        &&& self.register == old.register
        &&& self.event_ring == old.event_ring
        &&& self.ers_table == old.ers_table
        &&& self.phase == old.phase
        &&& self.legacy == old.legacy
    }

    /// The device manager is as in `old`, but for what this names: the
    /// records (which `frame` settles), the Command Ring's doorbell and the
    /// latched port.
    pub open spec fn same_manager_frame(&self, old: &XhciController) -> bool {
        &&& self.device_manager.device_contexts == old.device_manager.device_contexts
        &&& self.device_manager.pending == old.device_manager.pending
        &&& self.device_manager.dcbaa_addr == old.device_manager.dcbaa_addr
        &&& self.device_manager.devices_base == old.device_manager.devices_base
        &&& self.device_manager.doorbells.index == old.device_manager.doorbells.index
    }

    /// A command was enqueued and the Command Ring's doorbell rung.
    pub open spec fn command_issued(&self, old: &XhciController, trb: GenericTrb) -> bool {
        &&& self.command_ring@ == old.command_ring@.push(trb)
        &&& self.device_manager.doorbells.writes@ == old.device_manager.doorbells.writes@.push(
            doorbell_value(0, 0),
        )
    }

    /// No command was enqueued and the Command Ring's doorbell not rung.
    pub open spec fn no_command(&self, old: &XhciController) -> bool {
        &&& self.command_ring == old.command_ring
        &&& self.device_manager.doorbells == old.device_manager.doorbells
    }

    /// What a Port Status Change event for a port of this controller does:
    /// the port is latched as the one whose device gets an address next, the
    /// end of its reset is acknowledged, and an Enable Slot command issued.
    pub open spec fn port_status_changed(&self, old: &XhciController, port_id: u8) -> bool {
        &&& self.same_event_side(old)
        &&& self.same_manager_frame(old)
        &&& self.device_manager.devices == old.device_manager.devices
        &&& self.device_manager.addressing_port == Some(port_id)
        &&& self.command_issued(old, command_trb(TrbType::EnableSlot, 0, 0))
        &&& self.port_set.updated(
            &old.port_set,
            port_id - 1,
            Port {
                portsc: with_field32(old.port_set.ports@[port_id - 1].portsc, 1, 21, 0),
                ..old.port_set.ports@[port_id - 1]
            },
            seq![
                PortWrite {
                    index: (port_id - 1) as usize,
                    value: portsc_enable_write(old.port_set.ports@[port_id - 1].portsc),
                },
            ],
        )
    }

    /// Handles a Port Status Change event for the port `port_id`. An event
    /// for a port that the controller does not have is passed over.
    pub fn on_port_status_change(&mut self, port_id: u8)
        requires
            old(self).wf(),
        ensures
            final(self).wf(),
            final(self).port_change_handled(old(self), port_id),
    {
        if port_id == 0 || port_id as u32 > self.port_set.max_ports {
            return ;
        }
        self.device_manager.set_addressing_port(port_id);
        self.port_set.enable_port(port_id);
        self.command_ring.push_enable_slot_command();
        self.device_manager.ring_command_doorbell();
    }

    /// Whether an Enable Slot completion for `slot_id` finds what it needs:
    /// a latched port of this controller, and a slot that is free.
    pub open spec fn can_enable(&self, slot_id: u8) -> bool {
        &&& self.device_manager.addressing_port.is_some()
        &&& 1 <= self.device_manager.addressing_port.unwrap() <= self.port_set.max_ports
        &&& 0 < slot_id <= self.device_manager.max_slot()
        &&& self.device_manager.devices@[slot_id as int].is_none()
    }

    /// What the completion of an Enable Slot command with the slot
    /// `slot_id` does: the slot gets a device record, whose Device Context
    /// is entered in the Device Context Base Address Array and whose Input
    /// Context is filled for the latched port and its speed, and an Address
    /// Device command is issued.
    pub open spec fn slot_enabled(&self, old: &XhciController, slot_id: u8) -> bool {
        let port_id = old.device_manager.addressing_port.unwrap();
        let speed = field_of32(old.port_set.ports@[port_id - 1].portsc, 0xF, 10);
        let memory = DeviceMemory::spec_at(old.device_manager.spec_region(slot_id as int));
        &&& self.same_event_side(old)
        &&& self.port_set == old.port_set
        &&& self.device_manager.dcbaa_addr == old.device_manager.dcbaa_addr
        &&& self.device_manager.devices_base == old.device_manager.devices_base
        &&& self.device_manager.addressing_port == old.device_manager.addressing_port
        &&& self.device_manager.doorbells.index == old.device_manager.doorbells.index
        &&& self.device_manager.device_contexts@ == old.device_manager.device_contexts@.update(
            slot_id as int,
            memory.device_context,
        )
        &&& self.device_manager.pending@ == old.device_manager.pending@.push(
            DcbaaWrite { slot: slot_id as usize, value: memory.device_context },
        )
        &&& self.device_manager.devices@.len() == old.device_manager.devices@.len()
        &&& forall|j: int|
            0 <= j < old.device_manager.devices@.len() && j != slot_id ==> self.device_manager.devices@[j]
                == old.device_manager.devices@[j]
        &&& self.device_manager.device(slot_id as int) == Some(
            DeviceView::fresh(slot_id, memory).addressed(port_id, speed),
        )
        &&& self.command_issued(old, command_trb(TrbType::AddressDevice, memory.input_context, slot_id))
    }

    /// Handles the completion of an Enable Slot command that handed out
    /// `slot_id`. Without a latched port nothing happens; a slot id that is
    /// 0, above MaxSlots or in use is reported, and nothing else happens.
    pub fn on_slot_enabled(&mut self, slot_id: u8) -> (r: Option<XhciError>)
        requires
            old(self).wf(),
        ensures
            final(self).wf(),
            final(self).slot_enable_handled(old(self), slot_id, r),
    {
        let port_id = match self.device_manager.get_addressing_port() {
            Some(p) => p,
            None => {
                return None;
            },
        };
        if port_id == 0 || port_id as u32 > self.port_set.max_ports {
            return None;
        }
        let speed = self.port_set.get_by_id(port_id).speed();
        match self.device_manager.enable_device(slot_id as usize) {
            Err(e) => {
                return Some(e);
            },
            Ok(_) => {},
        }
        let input_context_addr = self.device_manager.address_device(slot_id as usize, port_id, speed);
        self.command_ring.push_address_device_command(input_context_addr, slot_id);
        self.device_manager.ring_command_doorbell();
        None
    }

    /// The command whose completion `pointer` reports, if it lies on the
    /// Command Ring.
    pub open spec fn completed_command(&self, pointer: u64) -> Option<GenericTrb> {
        match self.command_ring.spec_index_of(pointer) {
            Some(i) => Some(self.command_ring@.buf[i as int]),
            None => None,
        }
    }

    /// What the completion of a command other than Enable Slot does, for
    /// the slot `slot` that holds a device: after Address Device the device
    /// starts its initialisation, after Configure Endpoint it goes into
    /// service.
    pub open spec fn device_command_completed(&self, old: &XhciController, ty: TrbType, slot: int) -> bool {
        &&& self.same_event_side(old)
        &&& self.port_set == old.port_set
        &&& self.command_ring == old.command_ring
        &&& self.device_manager.same_but_device(&old.device_manager, slot)
        &&& self.device_manager.device(slot) == Some(
            if ty == TrbType::AddressDevice {
                old.device_manager.device(slot).unwrap().get_descriptor(1).in_phase(
                    InitPhase::GetDeviceDescriptor,
                )
            } else {
                old.device_manager.device(slot).unwrap().endpoints_configured()
            },
        )
    }

    /// What a Command Completion event does, and what is reported.
    pub open spec fn command_completion_handled(
        &self,
        old: &XhciController,
        event: GenericTrb,
        r: Option<XhciError>,
    ) -> bool {
        let slot = field_of32(event.control, 0xFF, 24);
        let has = slot < old.device_manager.devices@.len() && old.device_manager.devices@[slot as int].is_some();
        match old.completed_command(event.parameter()) {
            None => r.is_none() && *self == *old,
            Some(cmd) => if cmd.spec_trb_type() == TrbType::EnableSlot {
                self.slot_enable_handled(old, slot as u8, r)
            } else if (cmd.spec_trb_type() == TrbType::AddressDevice || cmd.spec_trb_type()
                == TrbType::ConfigureEndpoint) && has {
                r.is_none() && self.device_command_completed(old, cmd.spec_trb_type(), slot as int)
            } else {
                r.is_none() && *self == *old
            },
        }
    }

    /// What a Transfer event does, and what is reported.
    pub open spec fn transfer_handled(&self, old: &XhciController, event: GenericTrb, r: Option<XhciError>) -> bool {
        let slot = field_of32(event.control, 0xFF, 24);
        let code = CompletionCode::spec_decode(field_of32(event.status, 0xFF, 24) as u8);
        if slot < old.device_manager.devices@.len() && old.device_manager.devices@[slot as int].is_some() {
            &&& self.transferred(old, event)
            &&& r == if code.spec_is_success() {
                None
            } else {
                Some(XhciError::TransferFailure)
            }
        } else {
            r.is_none() && *self == *old
        }
    }

    /// What a Port Status Change event does.
    pub open spec fn port_change_handled(&self, old: &XhciController, port_id: u8) -> bool {
        if 1 <= port_id <= old.port_set.max_ports {
            self.port_status_changed(old, port_id)
        } else {
            *self == *old
        }
    }

    /// What the completion of an Enable Slot command does, and what is
    /// reported.
    pub open spec fn slot_enable_handled(&self, old: &XhciController, slot_id: u8, r: Option<XhciError>) -> bool {
        if old.can_enable(slot_id) {
            r.is_none() && self.slot_enabled(old, slot_id)
        } else {
            &&& *self == *old
            &&& r == if old.device_manager.addressing_port.is_some() && 1
                <= old.device_manager.addressing_port.unwrap() <= old.port_set.max_ports {
                Some(XhciError::InvalidSlotId)
            } else {
                None
            }
        }
    }

    /// Handles a Command Completion event: finds the command on the
    /// Command Ring by the event's pointer and goes by its type. A pointer
    /// that is not on the ring, a command of another type, and a slot
    /// without a device leave everything as it is.
    pub fn on_command_completion(&mut self, event: &CommandCompletionEvent) -> (r: Option<XhciError>)
        requires
            old(self).wf(),
        ensures
            final(self).wf(),
            final(self).command_completion_handled(old(self), event.0, r),
    {
        let cmd = match self.command_ring.trb_at(event.command_trb_pointer()) {
            Some(c) => c,
            None => {
                return None;
            },
        };
        let slot_id = event.slot_id();
        match cmd.trb_type() {
            TrbType::EnableSlot => self.on_slot_enabled(slot_id),
            TrbType::AddressDevice => {
                if self.device_manager.has_device(slot_id as usize) {
                    self.device_manager.init_device(slot_id as usize);
                }
                None
            },
            TrbType::ConfigureEndpoint => {
                if self.device_manager.has_device(slot_id as usize) {
                    self.device_manager.endpoints_configured(slot_id as usize);
                }
                None
            },
            _ => None,
        }
    }

    /// What a Transfer event for the slot `slot`, which holds a device,
    /// does: with Success or Short Packet the device goes on, and if it
    /// then asks for it, a Configure Endpoint command is issued; with any
    /// other completion code the device is marked as failed.
    pub open spec fn transferred(&self, old: &XhciController, event: GenericTrb) -> bool {
        let slot = field_of32(event.control, 0xFF, 24) as int;
        let code = CompletionCode::spec_decode(field_of32(event.status, 0xFF, 24) as u8);
        let residual = field_of32(event.status, 0xFF_FFFF, 0);
        let before = old.device_manager.device(slot).unwrap();
        &&& self.same_event_side(old)
        &&& self.port_set == old.port_set
        &&& self.same_manager_frame(old)
        &&& self.device_manager.addressing_port == old.device_manager.addressing_port
        &&& self.device_manager.devices@.len() == old.device_manager.devices@.len()
        &&& forall|j: int|
            0 <= j < old.device_manager.devices@.len() && j != slot ==> self.device_manager.devices@[j]
                == old.device_manager.devices@[j]
        &&& if code.spec_is_success() {
            &&& self.device_manager.device(slot) == Some(before.transfer_completed(residual))
            &&& match before.transfer_action() {
                DeviceAction::Nothing => self.no_command(old),
                DeviceAction::ConfigureEndpoint { input_context_addr, slot_id } => self.command_issued(
                    old,
                    command_trb(TrbType::ConfigureEndpoint, input_context_addr, slot_id),
                ),
            }
        } else {
            &&& self.device_manager.device(slot) == Some(before.in_phase(InitPhase::Failed))
            &&& self.no_command(old)
        }
    }

    /// Handles a Transfer event. An event for a slot without a device
    /// leaves everything as it is. A transfer that failed is reported.
    pub fn on_transfer(&mut self, event: &TransferEvent) -> (r: Option<XhciError>)
        requires
            old(self).wf(),
        ensures
            final(self).wf(),
            final(self).transfer_handled(old(self), event.0, r),
    {
        let slot = event.slot_id() as usize;
        if !self.device_manager.has_device(slot) {
            return None;
        }
        let ok = CompletionCode::from(event.completion_code()).is_success();
        match self.device_manager.process_transfer_event(event) {
            DeviceAction::ConfigureEndpoint { input_context_addr, slot_id } => {
                if input_context_addr % 64 == 0 {
                    self.command_ring.push_configure_endpoint_command(input_context_addr, slot_id);
                    self.device_manager.ring_command_doorbell();
                }
            },
            DeviceAction::Nothing => {},
        }
        if ok {
            None
        } else {
            Some(XhciError::TransferFailure)
        }
    }
}

impl XhciController {
    /// What an event of a type that has no handler reports: lost events,
    /// if the completion code says that the Event Ring was full or that
    /// events were lost.
    pub open spec fn unhandled_report(event: GenericTrb) -> Option<XhciError> {
        let code = CompletionCode::spec_decode(field_of32(event.status, 0xFF, 24) as u8);
        if code == CompletionCode::EventRingFullError || code == CompletionCode::EventLostError {
            Some(XhciError::EventLost)
        } else {
            None
        }
    }

    /// What the event `event` does, by its type, and what is reported.
    pub open spec fn handled(&self, old: &XhciController, event: GenericTrb, r: Option<XhciError>) -> bool {
        match event.spec_trb_type() {
            TrbType::PortStatusChange => r.is_none() && self.port_change_handled(
                old,
                field_of32(event.data_low, 0xFF, 24) as u8,
            ),
            TrbType::CommandCompletion => self.command_completion_handled(old, event, r),
            TrbType::Transfer => self.transfer_handled(old, event, r),
            _ => *self == *old && r == XhciController::unhandled_report(event),
        }
    }

    /// Dispatches one event by its type: Port Status Change, Command
    /// Completion and Transfer events go to their handlers; every other
    /// event changes nothing.
    pub fn handle_event(&mut self, event: GenericTrb) -> (r: Option<XhciError>)
        requires
            old(self).wf(),
        ensures
            final(self).wf(),
            final(self).handled(old(self), event, r),
    {
        match event.trb_type() {
            TrbType::PortStatusChange => {
                let e = PortStatusChangeEvent::from(event);
                self.on_port_status_change(e.port_id());
                None
            },
            TrbType::CommandCompletion => {
                let e = CommandCompletionEvent::from(event);
                self.on_command_completion(&e)
            },
            TrbType::Transfer => {
                let e = TransferEvent::from(event);
                self.on_transfer(&e)
            },
            _ => {
                let code = CompletionCode::from(read_code(&event));
                match code {
                    CompletionCode::EventRingFullError => Some(XhciError::EventLost),
                    CompletionCode::EventLostError => Some(XhciError::EventLost),
                    _ => None,
                }
            },
        }
    }

    /// Takes the next event off the Event Ring, if there is one, releases
    /// its entry to the controller through ERDP, and dispatches it. Returns
    /// whether there was an event, and what its handling reported.
    pub fn process_next_event(&mut self) -> (r: (bool, Option<XhciError>))
        requires
            old(self).wf(),
        ensures
            final(self).wf(),
            r.0 == old(self).event_ring@.front_valid(),
            !r.0 ==> r.1.is_none() && *final(self) == *old(self),
            r.0 ==> exists|mid: XhciController|
                {
                    &&& mid.dequeued(old(self))
                    &&& #[trigger] final(self).handled(&mid, old(self).event_ring@.front(), r.1)
                },
    {
        match self.event_ring.next(&mut self.register) {
            None => (false, None),
            Some(event) => {
                let ghost mid = *self;
                let report = self.handle_event(event);
                assert(final(self).handled(&mid, old(self).event_ring@.front(), report));
                (true, report)
            },
        }
    }

    /// One event was taken off the Event Ring: the dequeue index has moved
    /// on, ERDP was written with the address of the new dequeue entry and
    /// Event Handler Busy set, and nothing else has changed.
    pub open spec fn dequeued(&self, old: &XhciController) -> bool {
        &&& self.base_addr == old.base_addr
        &&& self.phase == old.phase
        &&& self.legacy == old.legacy
        &&& self.command_ring == old.command_ring
        &&& self.device_manager == old.device_manager
        &&& self.ers_table == old.ers_table
        &&& self.port_set == old.port_set
        &&& self.event_ring@ == old.event_ring@.after(1)
        &&& self.register.operational == old.register.operational
        &&& self.register.runtime == (Runtime {
            primary: Interrupter {
                erdp: Registers::spec_erdp(old.register.runtime.primary.erdp, self.event_ring@.deq_addr()),
                ..old.register.runtime.primary
            },
            ..old.register.runtime
        })
        &&& self.register.appended(
            &old.register,
            seq![RegWrite { reg: Reg::Erdp, value: self.register.runtime.primary.erdp }],
        )
    }
}

/// The completion code byte of an event.
fn read_code(event: &GenericTrb) -> (r: u8)
    ensures
        r == field_of32(event.status, 0xFF, 24) as u8,
{
    proof {
        lemma_field_bound32(event.status, 0xFF, 24);
    }
    read_field32(event.status, 0xFF, 24) as u8
}

/// Handling an event keeps the Device Context Base Address Array in
/// agreement with the records: an entry is set when its slot gets a device,
/// and no other entry changes.
pub proof fn lemma_handled_keeps_entries(
    post: XhciController,
    pre: XhciController,
    event: GenericTrb,
    r: Option<XhciError>,
)
    requires
        pre.wf(),
        pre.device_manager.entries_match(),
        post.handled(&pre, event, r),
    ensures
        post.device_manager.entries_match(),
{
    let slot = field_of32(event.control, 0xFF, 24) as int;
    let n = pre.device_manager.devices@.len();
    match event.spec_trb_type() {
        TrbType::CommandCompletion => {
            match pre.completed_command(event.parameter()) {
                None => {},
                Some(cmd) => {
                    if cmd.spec_trb_type() == TrbType::EnableSlot {
                        if pre.can_enable(slot as u8) {
                            lemma_field_bound32(event.control, 0xFF, 24);
                            assert forall|i: int| 0 <= i < post.device_manager.devices@.len() implies (
                            #[trigger] post.device_manager.device_contexts@[i]) == match post.device_manager.device(i) {
                                Some(d) => d.memory.device_context,
                                None => 0,
                            } by {
                                if i != slot {
                                    assert(post.device_manager.devices@[i] == pre.device_manager.devices@[i]);
                                    assert(pre.device_manager.device_contexts@[i] == match pre.device_manager.device(
                                        i,
                                    ) {
                                        Some(d) => d.memory.device_context,
                                        None => 0,
                                    });
                                }
                            }
                        }
                    } else if (cmd.spec_trb_type() == TrbType::AddressDevice || cmd.spec_trb_type()
                        == TrbType::ConfigureEndpoint) && slot < n && pre.device_manager.devices@[slot].is_some() {
                        lemma_one_device_changed(post, pre, slot);
                    }
                },
            }
        },
        TrbType::Transfer => {
            if slot < n && pre.device_manager.devices@[slot].is_some() {
                lemma_one_device_changed(post, pre, slot);
            }
        },
        _ => {},
    }
}

/// If the array is untouched, one record has changed without moving its
/// Device Context and every other record is as before, the array still
/// agrees with the records.
proof fn lemma_one_device_changed(post: XhciController, pre: XhciController, slot: int)
    requires
        pre.device_manager.entries_match(),
        0 <= slot < pre.device_manager.devices@.len(),
        pre.device_manager.devices@[slot].is_some(),
        post.device_manager.device_contexts == pre.device_manager.device_contexts,
        post.device_manager.devices@.len() == pre.device_manager.devices@.len(),
        forall|j: int|
            0 <= j < pre.device_manager.devices@.len() && j != slot ==> post.device_manager.devices@[j]
                == pre.device_manager.devices@[j],
        post.device_manager.device(slot).is_some(),
        post.device_manager.device(slot).unwrap().memory == pre.device_manager.device(slot).unwrap().memory,
    ensures
        post.device_manager.entries_match(),
{
    assert forall|i: int| 0 <= i < post.device_manager.devices@.len() implies (
    #[trigger] post.device_manager.device_contexts@[i]) == match post.device_manager.device(i) {
        Some(d) => d.memory.device_context,
        None => 0,
    } by {
        assert(pre.device_manager.device_contexts@[i] == match pre.device_manager.device(i) {
            Some(d) => d.memory.device_context,
            None => 0,
        });
        if i != slot {
            assert(post.device_manager.devices@[i] == pre.device_manager.devices@[i]);
        }
    }
}

} // verus!
