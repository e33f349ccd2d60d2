use driver_xhci::bringup::{BringUpAction, BringUpPhase};
use driver_xhci::{phys_to_virt, virt_to_phys, XhciController, XhciDriverOps};
use driver_xhci::device::{Device, DeviceAction, DeviceManager, DeviceMemory, Doorbell, InitPhase, XhciError};
use driver_xhci::event::TransferEvent;
use driver_xhci::registers::{Capability, Interrupter, Operational, Registers, Runtime};
use driver_xhci::trb::{GenericTrb, TrbType};

const DMA: u64 = 0x0010_0000;
const COMMAND_RING: u64 = DMA + 0x800;
const DEVICES: u64 = DMA + 0x1000;
const REGION: u64 = 0x6000;

fn registers() -> Registers {
    Registers::from(
        0xFEB0_0000,
        Capability {
            dw1: 0x0100_0020,
            hcsparams1: 0x0400_0020,
            hcsparams2: 0,
            hcsparams3: 0,
            hccparams1: 1,
            dboff: 0x2000,
            rtsoff: 0x1000,
            hccparams2: 0,
        },
        Operational { usbcmd: 0, usbsts: 1, pagesize: 1, dnctrl: 0, crcr: 0, dcbaap: 0, config: 0 },
        Runtime { mfindex: 0, primary: Interrupter { iman: 0, imod: 0, erstsz: 0, erstba: 0, erdp: 0 } },
    )
}

fn controller() -> XhciController {
    let mut c = XhciController::new(registers(), DMA);
    c.phase = BringUpPhase::Running;
    c
}

fn port_status_change(port: u8) -> GenericTrb {
    GenericTrb { data_low: (port as u32) << 24, data_high: 0, status: 1 << 24, control: 34 << 10 }
}

fn command_completion(pointer: u64, slot: u8) -> GenericTrb {
    GenericTrb {
        data_low: pointer as u32,
        data_high: (pointer >> 32) as u32,
        status: 1 << 24,
        control: ((slot as u32) << 24) | (33 << 10),
    }
}

fn transfer(slot: u8, code: u8, residual: u32) -> GenericTrb {
    GenericTrb {
        data_low: 0,
        data_high: 0,
        status: ((code as u32) << 24) | residual,
        control: ((slot as u32) << 24) | (1 << 16) | (32 << 10),
    }
}

fn post(c: &mut XhciController, trb: GenericTrb) {
    let index = posted(c);
    let lap_bit = c.event_ring.cycle_bit as u32;
    c.event_ring.store(index, GenericTrb { control: trb.control | lap_bit, ..trb });
}

fn posted(c: &XhciController) -> usize {
    c.event_ring.write_idx
}

fn deliver(c: &mut XhciController, trb: GenericTrb) -> Option<XhciError> {
    post(c, trb);
    let (had, report) = c.process_next_event();
    assert!(had);
    report
}

fn hid_configuration() -> Vec<u8> {
    let mut data = vec![
        0x09, 0x02, 0x22, 0x00, 0x01, 0x01, 0x00, 0x80, 0x32, 0x09, 0x04, 0x00, 0x00, 0x01, 0x03, 0x01,
        0x01, 0x00, 0x09, 0x21, 0x11, 0x01, 0x00, 0x01, 0x22, 0x34, 0x00, 0x07, 0x05, 0x81, 0x03, 0x08,
        0x00, 0x0A,
    ];
    data.resize(256, 0);
    data
}

fn device(c: &XhciController, slot: usize) -> &Device {
    c.device_manager.devices[slot].as_ref().expect("a device in the slot")
}

fn ring_types(d: &Device, dci: usize) -> Vec<TrbType> {
    let ring = d.transfer_rings[dci].as_ref().expect("a ring");
    ring.ring.buf[..ring.ring.write_idx].iter().map(|t| t.trb_type()).collect()
}

fn attach(c: &mut XhciController, port: u8, slot: u8) {
    c.port_set.refresh(port, 0x0000_1203);
    let at = COMMAND_RING + 16 * c.command_ring.ring.write_idx as u64;
    assert_eq!(deliver(c, port_status_change(port)), None);
    assert_eq!(deliver(c, command_completion(at, slot)), None);
    assert_eq!(deliver(c, command_completion(at + 16, slot)), None);
}

#[test]
fn new_controller_lays_out_its_memory() {
    let c = XhciController::new(registers(), DMA);
    assert_eq!(c.base_addr, 0xFEB0_0000);
    assert_eq!(c.device_manager.dcbaap(), DMA);
    assert_eq!(c.device_manager.device_contexts(), DMA);
    assert_eq!(c.device_manager.devices().len(), 33);
    assert_eq!(c.device_manager.device_contexts.len(), 33);
    assert_eq!(c.command_ring.ring.addr(), COMMAND_RING);
    assert_eq!(c.command_ring.ring.len(), 32);
    assert!(c.command_ring.ring.pcs());
    assert_eq!(c.event_ring.addr(), DMA + 0xA00);
    assert_eq!(c.event_ring.len(), 32);
    assert!(c.event_ring.cycle_bit);
    assert_eq!(c.ers_table.addr(), DMA + 0xC00);
    assert_eq!(c.ers_table.len(), 1);
    assert_eq!(c.ers_table.entry_addr(0), DMA + 0xA00);
    assert_eq!(c.ers_table.entries[0].size, 32);
    assert_eq!(c.port_set.max_ports, 4);
    assert_eq!(c.port_set.addr, 0xFEB0_0000 + 0x20 + 0x400);
    assert_eq!(c.phase, BringUpPhase::Start);
    assert!(c.register.writes.is_empty());
    assert_eq!(c.device_name(), "xhci-controller");
    let _ = c.info();
}

#[test]
fn address_translation_is_a_fixed_offset() {
    assert_eq!(phys_to_virt(0x1000), 0xffff_ff80_0000_1000);
    assert_eq!(virt_to_phys(0xffff_ff80_0000_1000), 0x1000);
    for p in [0u64, 1, 0x10_0000, 0x7F_FFFF_FFFF] {
        assert_eq!(virt_to_phys(phys_to_virt(p)), p);
    }
}

#[test]
fn dci_mapping() {
    for (address, expected) in [(0x01u8, 2u8), (0x81, 3), (0x02, 4), (0x82, 5), (0x00, 1)] {
        assert_eq!(Device::calculate_dci(address), expected);
    }
    assert_eq!(Device::calculate_dci(0x80), 1);
    assert_eq!(Device::calculate_dci(0x0F), 30);
    assert_eq!(Device::calculate_dci(0x8F), 31);
    for address in 0u8..=255 {
        let dci = Device::calculate_dci(address);
        assert!((1..=31).contains(&dci));
    }
}

#[test]
fn port_status_change_enables_a_slot() {
    let mut c = controller();
    c.port_set.refresh(2, 0x0020_0203);
    assert_eq!(deliver(&mut c, port_status_change(2)), None);
    assert_eq!(c.device_manager.get_addressing_port(), Some(2));
    assert_eq!(c.command_ring.ring.buf[0], GenericTrb { data_low: 0, data_high: 0, status: 0, control: (9 << 10) | 1 });
    assert_eq!(c.command_ring.ring.write_idx, 1);
    assert_eq!(c.device_manager.doorbells().writes, vec![0]);
    assert_eq!(c.port_set.writes.len(), 1);
    assert_eq!(c.port_set.writes[0].index, 1);
    assert_eq!(c.port_set.writes[0].value, 0x0020_0201, "only the reset change bit is written as 1");
    assert_eq!(c.port_set.ports[1].portsc, 0x0000_0203);
    assert_eq!(c.register.runtime.primary.erdp, (DMA + 0xA00 + 16) | 8);
}

#[test]
fn port_status_change_for_an_unknown_port_is_passed_over() {
    let mut c = controller();
    assert_eq!(deliver(&mut c, port_status_change(5)), None);
    assert_eq!(deliver(&mut c, port_status_change(0)), None);
    assert_eq!(c.device_manager.get_addressing_port(), None);
    assert_eq!(c.command_ring.ring.write_idx, 0);
    assert!(c.port_set.writes.is_empty());
    assert!(c.device_manager.doorbells().writes.is_empty());
}

#[test]
fn enable_slot_completion_addresses_the_device() {
    let mut c = controller();
    c.port_set.refresh(1, 0x0000_1203);
    deliver(&mut c, port_status_change(1));
    assert_eq!(deliver(&mut c, command_completion(COMMAND_RING, 1)), None);
    let d = device(&c, 1);
    assert_eq!(d.slot_id, 1);
    assert_eq!(d.init_phase, InitPhase::Uninitialized);
    let region = DEVICES + REGION;
    assert_eq!(d.memory, DeviceMemory {
        input_context: region,
        device_context: region + 0x880,
        descriptor_buf: region + 0x1080,
        receive_buf: region + 0x1180,
        rings: region + 0x1200,
    });
    assert_eq!(c.device_manager.device_contexts[1], region + 0x880);
    assert_eq!(c.device_manager.pending.len(), 1);
    assert_eq!(c.device_manager.pending[0].slot, 1);
    assert_eq!(c.device_manager.pending[0].value, region + 0x880);
    assert_eq!(d.input_context.input_control_ctx.add_context_flags, 0b11);
    assert_eq!(d.input_context.input_control_ctx.drop_context_flags, 0);
    assert_eq!(d.input_context.slot_ctx.route_string(), 0);
    assert_eq!(d.input_context.slot_ctx.root_hub_number(), 1);
    assert_eq!(d.input_context.slot_ctx.context_entries(), 1);
    assert_eq!(d.input_context.slot_ctx.speed(), 4);
    assert_eq!(d.input_context.slot_ctx.a, (1 << 27) | (4 << 20));
    assert_eq!(d.input_context.slot_ctx.b, 1 << 16);
    let ep = d.input_context.ep_ctxs[0];
    assert_eq!(ep.endpoint_type(), 4);
    assert_eq!(ep.max_packet_size(), 512);
    assert_eq!(ep.error_count(), 3);
    assert_eq!(ep.dequeue_cycle_state(), 1);
    assert_eq!(ep.transfer_ring_buffer(), region + 0x1200 + 0x200);
    assert_eq!(ep.b, (512 << 16) | (4 << 3) | (3 << 1));
    assert_eq!(
        c.command_ring.ring.buf[1],
        GenericTrb {
            data_low: region as u32,
            data_high: 0,
            status: 0,
            control: (1 << 24) | (11 << 10) | 1,
        }
    );
    assert_eq!(c.device_manager.doorbells().writes, vec![0, 0]);
}

#[test]
fn enable_slot_completion_with_a_bad_slot_is_refused() {
    let mut c = controller();
    c.port_set.refresh(1, 0x0000_1203);
    deliver(&mut c, port_status_change(1));
    assert_eq!(deliver(&mut c, command_completion(COMMAND_RING, 0)), Some(XhciError::InvalidSlotId));
    assert_eq!(deliver(&mut c, command_completion(COMMAND_RING, 33)), Some(XhciError::InvalidSlotId));
    assert_eq!(deliver(&mut c, command_completion(COMMAND_RING, 32)), None);
    assert_eq!(deliver(&mut c, command_completion(COMMAND_RING, 32)), Some(XhciError::InvalidSlotId));
    assert!(c.device_manager.has_device(32));
    assert!(!c.device_manager.has_device(0));
    assert!(!c.device_manager.has_device(33));
    assert_eq!(c.command_ring.ring.write_idx, 2);
}

#[test]
fn enable_slot_completion_without_a_latched_port_does_nothing() {
    let mut c = controller();
    c.command_ring.push_enable_slot_command();
    assert_eq!(deliver(&mut c, command_completion(COMMAND_RING, 1)), None);
    assert!(!c.device_manager.has_device(1));
    assert_eq!(c.command_ring.ring.write_idx, 1);
}

#[test]
fn completion_of_an_unknown_command_is_ignored() {
    let mut c = controller();
    c.command_ring.push_no_op_command();
    assert_eq!(deliver(&mut c, command_completion(COMMAND_RING, 1)), None);
    assert_eq!(deliver(&mut c, command_completion(COMMAND_RING + 8, 1)), None);
    assert_eq!(deliver(&mut c, command_completion(0, 1)), None);
    assert_eq!(c.command_ring.ring.write_idx, 1);
    assert!(c.device_manager.doorbells().writes.is_empty());
    assert!(c.device_manager.devices().iter().all(|d| d.is_none()));
}

#[test]
fn address_device_completion_asks_for_the_device_descriptor() {
    let mut c = controller();
    attach(&mut c, 1, 1);
    let d = device(&c, 1);
    assert_eq!(d.init_phase, InitPhase::GetDeviceDescriptor);
    assert_eq!(ring_types(d, 1), vec![TrbType::SetupStage, TrbType::DataStage, TrbType::StatusStage]);
    let ring = d.transfer_rings[1].as_ref().unwrap();
    assert_eq!(ring.ring.addr(), d.memory.rings + 0x200);
    assert_eq!(
        ring.ring.buf[0],
        GenericTrb {
            data_low: 0x0100_0680,
            data_high: 0x0100_0000,
            status: 8,
            control: (3 << 16) | (2 << 10) | (1 << 6) | 1,
        }
    );
    assert_eq!(
        ring.ring.buf[1],
        GenericTrb {
            data_low: d.memory.descriptor_buf as u32,
            data_high: 0,
            status: 256,
            control: (1 << 16) | (3 << 10) | (1 << 5) | 1,
        }
    );
    assert_eq!(ring.ring.buf[2], GenericTrb { data_low: 0, data_high: 0, status: 0, control: (4 << 10) | 1 });
    assert_eq!(d.doorbell.index, 1);
    assert_eq!(d.doorbell.writes, vec![1]);
    assert_eq!(d.buf_addr(), d.memory.descriptor_buf);
}

#[test]
fn happy_path_ends_in_service() {
    let mut c = controller();
    attach(&mut c, 1, 1);
    assert_eq!(device(&c, 1).device_descriptor, None);
    let mut device_descriptor = vec![
        0x12, 0x01, 0x00, 0x02, 0x00, 0x00, 0x00, 0x40, 0x27, 0x06, 0x01, 0x00, 0x00, 0x01, 0x01, 0x02,
        0x03, 0x01,
    ];
    device_descriptor.resize(256, 0);
    c.device_manager.devices_mut()[1].as_mut().unwrap().set_descriptor_data(device_descriptor);
    assert_eq!(deliver(&mut c, transfer(1, 1, 238)), None);
    assert_eq!(device(&c, 1).init_phase, InitPhase::GetConfigurationDescriptor);
    assert_eq!(device(&c, 1).doorbell.writes, vec![1, 1]);
    let kept = device(&c, 1).device_descriptor.expect("the device descriptor is kept");
    assert_eq!(kept.b_max_packet_size0, 0x40);
    assert_eq!(kept.id_vendor, 0x0627);
    assert_eq!(kept.id_product, 0x0001);
    c.device_manager.devices_mut()[1].as_mut().unwrap().set_descriptor_data(hid_configuration());
    assert_eq!(deliver(&mut c, transfer(1, 13, 256 - 0x22)), None);
    assert_eq!(device(&c, 1).init_phase, InitPhase::SetConfiguration);
    {
        let d = device(&c, 1);
        let ring = d.transfer_rings[1].as_ref().unwrap();
        assert_eq!(ring.ring.write_idx, 8);
        assert_eq!(
            ring.ring.buf[6],
            GenericTrb { data_low: 0x0001_0900, data_high: 0, status: 8, control: (2 << 10) | (1 << 6) | 1 }
        );
        assert_eq!(
            ring.ring.buf[7],
            GenericTrb { data_low: 0, data_high: 0, status: 0, control: (1 << 16) | (4 << 10) | (1 << 5) | 1 }
        );
        assert_eq!(d.descriptor_set.as_ref().map(|s| s.len), Some(0x22));
    }
    let commands = c.command_ring.ring.write_idx;
    assert_eq!(deliver(&mut c, transfer(1, 1, 0)), None);
    assert_eq!(device(&c, 1).init_phase, InitPhase::WaitConfigureCommand(3));
    assert_eq!(c.command_ring.ring.write_idx, commands + 1);
    let region = DEVICES + REGION;
    assert_eq!(
        c.command_ring.ring.buf[commands],
        GenericTrb { data_low: region as u32, data_high: 0, status: 0, control: (1 << 24) | (12 << 10) | 1 }
    );
    {
        let d = device(&c, 1);
        assert_eq!(d.input_context.input_control_ctx.add_context_flags, 0b1001);
        assert_eq!(d.input_context.slot_ctx.context_entries(), 31);
        let ep = d.input_context.ep_ctxs[2];
        assert_eq!(ep.endpoint_type(), 7);
        assert_eq!(ep.max_packet_size(), 8);
        assert_eq!(ep.interval(), 9);
        assert_eq!(ep.error_count(), 3);
        assert_eq!(ep.c, 1);
        assert_eq!(ep.dequeue_cycle_state(), 1);
        assert_eq!(ep.transfer_ring_buffer(), d.memory.rings + 3 * 0x200);
    }
    for _ in 0..3 {
        assert_eq!(deliver(&mut c, transfer(1, 1, 0)), None);
        assert_eq!(device(&c, 1).init_phase, InitPhase::WaitConfigureCommand(3));
    }
    let at = COMMAND_RING + 16 * commands as u64;
    assert_eq!(deliver(&mut c, command_completion(at, 1)), None);
    assert_eq!(device(&c, 1).init_phase, InitPhase::Finish(3));
    assert_eq!(ring_types(device(&c, 1), 3), vec![TrbType::Normal]);
    assert_eq!(deliver(&mut c, transfer(1, 1, 0)), None);
    let d = device(&c, 1);
    assert_eq!(d.init_phase, InitPhase::Finish(3));
    assert_eq!(ring_types(d, 3), vec![TrbType::Normal, TrbType::Normal]);
    let ring = d.transfer_rings[3].as_ref().unwrap();
    assert_eq!(
        ring.ring.buf[0],
        GenericTrb {
            data_low: d.memory.receive_buf as u32,
            data_high: 0,
            status: 16,
            control: (1 << 10) | (1 << 5) | (1 << 2) | 1,
        }
    );
    assert_eq!(d.doorbell.writes, vec![1, 1, 1, 3, 3]);
}

#[test]
fn failed_transfer_fails_one_device_only() {
    let mut c = controller();
    attach(&mut c, 1, 1);
    attach(&mut c, 2, 2);
    attach(&mut c, 3, 3);
    let before1 = format!("{:?}", device(&c, 1));
    let before2 = format!("{:?}", device(&c, 2));
    let commands = c.command_ring.ring.write_idx;
    assert_eq!(deliver(&mut c, transfer(3, 4, 0)), Some(XhciError::TransferFailure));
    assert_eq!(device(&c, 3).init_phase, InitPhase::Failed);
    assert_eq!(format!("{:?}", device(&c, 1)), before1);
    assert_eq!(format!("{:?}", device(&c, 2)), before2);
    assert_eq!(c.command_ring.ring.write_idx, commands);
    let rings = ring_types(device(&c, 3), 1).len();
    assert_eq!(deliver(&mut c, transfer(3, 1, 0)), None);
    assert_eq!(device(&c, 3).init_phase, InitPhase::Failed);
    assert_eq!(ring_types(device(&c, 3), 1).len(), rings, "a failed device is scheduled no more");
    assert_eq!(deliver(&mut c, transfer(1, 1, 0)), None);
    assert_eq!(device(&c, 1).init_phase, InitPhase::GetConfigurationDescriptor);
}

#[test]
fn transfer_for_an_empty_slot_is_ignored() {
    let mut c = controller();
    assert_eq!(deliver(&mut c, transfer(5, 1, 0)), None);
    assert_eq!(deliver(&mut c, transfer(200, 4, 0)), None);
    assert!(c.device_manager.devices().iter().all(|d| d.is_none()));
}

#[test]
fn configuration_without_descriptors_fails_the_device() {
    let mut c = controller();
    attach(&mut c, 1, 1);
    deliver(&mut c, transfer(1, 1, 0));
    assert_eq!(deliver(&mut c, transfer(1, 1, 0)), None);
    assert_eq!(device(&c, 1).init_phase, InitPhase::Failed);

    let mut c = controller();
    attach(&mut c, 1, 1);
    deliver(&mut c, transfer(1, 1, 0));
    c.device_manager.devices_mut()[1].as_mut().unwrap().set_descriptor_data(hid_configuration());
    assert_eq!(deliver(&mut c, transfer(1, 1, 257)), None);
    assert_eq!(device(&c, 1).init_phase, InitPhase::Failed);

    let mut c = controller();
    attach(&mut c, 1, 1);
    deliver(&mut c, transfer(1, 1, 0));
    c.device_manager.devices_mut()[1].as_mut().unwrap().set_descriptor_data(hid_configuration());
    assert_eq!(deliver(&mut c, transfer(1, 1, 256 - 27)), None);
    assert_eq!(device(&c, 1).init_phase, InitPhase::SetConfiguration);
    assert_eq!(deliver(&mut c, transfer(1, 1, 0)), None);
    assert_eq!(device(&c, 1).init_phase, InitPhase::Failed, "the stream holds no endpoint");
}

#[test]
fn other_events_change_nothing() {
    let mut c = controller();
    let mfindex = GenericTrb { data_low: 0, data_high: 0, status: 1 << 24, control: 39 << 10 };
    assert_eq!(deliver(&mut c, mfindex), None);
    let full = GenericTrb { data_low: 0, data_high: 0, status: 21 << 24, control: 37 << 10 };
    assert_eq!(deliver(&mut c, full), Some(XhciError::EventLost));
    let lost = GenericTrb { data_low: 0, data_high: 0, status: 32 << 24, control: 37 << 10 };
    assert_eq!(deliver(&mut c, lost), Some(XhciError::EventLost));
    assert_eq!(c.command_ring.ring.write_idx, 0);
    assert_eq!(c.event_ring.write_idx, 3);
    let (had, report) = c.process_next_event();
    assert!(!had);
    assert_eq!(report, None);
}

#[test]
fn device_manager_keeps_slots_apart() {
    let mut m = DeviceManager::new(4, DMA, DEVICES);
    assert_eq!(m.devices().len(), 5);
    assert_eq!(m.enable_device(0), Err(XhciError::InvalidSlotId));
    assert_eq!(m.enable_device(5), Err(XhciError::InvalidSlotId));
    assert_eq!(m.enable_device(2), Ok(()));
    assert_eq!(m.enable_device(2), Err(XhciError::InvalidSlotId));
    assert_eq!(m.enable_device(4), Ok(()));
    assert_eq!(m.device_contexts, vec![0, 0, DEVICES + 2 * REGION + 0x880, 0, DEVICES + 4 * REGION + 0x880]);
    assert_eq!(m.set_addressing_port(3), None);
    assert_eq!(m.set_addressing_port(4), Some(3));
    assert_eq!(m.get_addressing_port(), Some(4));
    m.set_context(2, 0);
    assert_eq!(m.device_contexts[2], 0);
    assert_eq!(m.take_pending().len(), 3);
    assert!(m.pending.is_empty());
    m.init_device(4);
    assert_eq!(m.devices()[4].as_ref().unwrap().init_phase, InitPhase::GetDeviceDescriptor);
    assert_eq!(m.devices()[2].as_ref().unwrap().init_phase, InitPhase::Uninitialized);
    let event = TransferEvent::from(transfer(4, 6, 0));
    assert_eq!(m.process_transfer_event(&event), DeviceAction::Nothing);
    assert_eq!(m.devices()[4].as_ref().unwrap().init_phase, InitPhase::Failed);
    assert_eq!(m.doorbell_at(3).index, 3);
    assert_eq!(m.disable_device(3), Err(XhciError::InvalidSlotId));
    assert_eq!(m.disable_device(9), Err(XhciError::InvalidSlotId));
    assert_eq!(m.disable_device(4), Ok(()));
    assert!(!m.has_device(4));
    assert!(m.has_device(2));
    assert_eq!(m.device_contexts[4], 0);
    assert_eq!(m.pending.last().map(|w| (w.slot, w.value)), Some((4, 0)));
    assert_eq!(m.enable_device(4), Ok(()));
}

#[test]
fn device_memory_layout() {
    let memory = DeviceMemory::at(0x40_0000);
    assert_eq!(memory.input_context, 0x40_0000);
    assert_eq!(memory.device_context, 0x40_0880);
    assert_eq!(memory.descriptor_buf, 0x40_1080);
    assert_eq!(memory.receive_buf, 0x40_1180);
    assert_eq!(memory.rings, 0x40_1200);
    assert_eq!(memory.ring_addr(0), 0x40_1200);
    assert_eq!(memory.ring_addr(1), 0x40_1400);
    assert_eq!(memory.ring_addr(31), 0x40_1200 + 31 * 0x200);
    assert!(memory.ring_addr(31) + 0x200 <= 0x40_0000 + 0x6000);
}

#[test]
fn device_in_service_keeps_receiving() {
    let memory = DeviceMemory::at(0x40_0000);
    let mut d = Device::new(9, Doorbell::new(9), memory);
    d.init_phase = InitPhase::WaitConfigureCommand(5);
    d.on_endpoints_configured();
    assert_eq!(d.init_phase, InitPhase::Finish(5));
    let event = TransferEvent::from(transfer(9, 1, 0));
    for _ in 0..40 {
        assert_eq!(d.receive_transfer_event(&event), DeviceAction::Nothing);
    }
    let ring = d.transfer_rings[5].as_ref().unwrap();
    assert_eq!(ring.ring.addr(), 0x40_0000 + 0x1200 + 5 * 0x200);
    assert_eq!(ring.ring.write_idx, 41 - 31);
    assert!(!ring.ring.cycle_bit);
    assert_eq!(ring.ring.buf[31].trb_type(), TrbType::Link);
    assert_eq!(d.doorbell.writes.len(), 41);
    assert!(d.doorbell.writes.iter().all(|w| *w == 5));
    d.on_endpoints_configured();
    assert_eq!(d.init_phase, InitPhase::Finish(5));
    assert_eq!(d.doorbell.writes.len(), 41);
}

#[test]
fn bring_up_then_events() {
    let mut c = XhciController::new(registers(), DMA);
    let mut guard = 0;
    loop {
        let action = c.step();
        let usbcmd = c.register.operational.usbcmd;
        let halted = usbcmd & 1 == 0;
        c.refresh(usbcmd & !2, halted as u32, None);
        guard += 1;
        assert!(guard < 50);
        match action {
            BringUpAction::Done => break,
            BringUpAction::Failed(e) => panic!("bring-up failed: {:?}", e),
            _ => {}
        }
    }
    assert_eq!(c.phase, BringUpPhase::Running);
    attach(&mut c, 1, 1);
    assert_eq!(device(&c, 1).init_phase, InitPhase::GetDeviceDescriptor);
}
