use driver_xhci::port::{Port, PortResetPhase, PortSet, PortWrite};

#[test]
fn speed_table() {
    for speed in 0u32..16 {
        let port = Port::new(speed << 10);
        assert_eq!(port.speed(), speed);
        let expected = match speed {
            3 => 64,
            4 => 512,
            _ => 8,
        };
        assert_eq!(port.max_packet_size(), expected);
    }
    assert_eq!(Port::new(0xFFFF_C3FF).max_packet_size(), 8);
}

#[test]
fn port_status_bits() {
    let port = Port::new(0x0020_0012);
    assert!(!port.connected());
    assert!(port.enabled());
    assert!(port.resetting());
    assert!(port.reset_changed());
    let port = Port::new(1);
    assert!(port.connected());
    assert!(!port.enabled());
    assert!(!port.resetting());
    assert!(!port.reset_changed());
}

#[test]
fn reset_does_not_clear_status_bits() {
    let mut port = Port::new(0x00FE_1207);
    let writes = port.reset();
    assert_eq!(writes, vec![0x0000_1215, 0x0200_1215]);
    assert_eq!(port.portsc, 0x02FE_1217);
}

#[test]
fn port_set_walks_and_finds_ports() {
    let mut ports = PortSet::new(3, 0xFEB0_0020);
    assert_eq!(ports.addr, 0xFEB0_0420);
    assert_eq!(ports.ports.len(), 3);
    assert_eq!(PortSet::id_to_index(1), 0);
    assert_eq!(PortSet::id_to_index(255), 254);
    assert_eq!(ports.next(), Some(1));
    assert_eq!(ports.next(), Some(2));
    assert_eq!(ports.next(), Some(3));
    assert_eq!(ports.next(), None);
    assert_eq!(ports.next(), None);
    ports.refresh(2, 0x0020_0603);
    assert_eq!(ports.get_by_id(2).portsc, 0x0020_0603);
    assert_eq!(ports.get_by_id(1).portsc, 0);
    ports.enable_port(2);
    ports.reset_port(3);
    assert_eq!(ports.get_by_id(2).portsc, 0x0000_0603);
    assert_eq!(ports.get_by_id(3).portsc, 0x0200_0010);
    assert_eq!(
        ports.take_writes(),
        vec![
            PortWrite { index: 1, value: 0x0020_0601 },
            PortWrite { index: 2, value: 0x0000_0010 },
            PortWrite { index: 2, value: 0x0200_0010 },
        ]
    );
    assert!(ports.writes.is_empty());
}

#[test]
fn full_reset_of_a_powered_usb2_port() {
    let port = Port::new(0x0002_0201);
    let step = port.reset_step(PortResetPhase::Start, false);
    assert_eq!(step.phase, PortResetPhase::Resetting(500));
    assert_eq!(step.writes, vec![0x0076_0201, 0x0000_0211]);
    assert_eq!(step.wait_ms, 1);
    let busy = Port::new(0x0000_0211);
    let step = busy.reset_step(PortResetPhase::Resetting(500), false);
    assert_eq!(step.phase, PortResetPhase::Resetting(499));
    assert!(step.writes.is_empty());
    assert_eq!(step.wait_ms, 1);
    let ended = Port::new(0x0020_0203);
    let step = ended.reset_step(PortResetPhase::Resetting(499), false);
    assert_eq!(step.phase, PortResetPhase::Recovering);
    assert!(step.writes.is_empty());
    assert_eq!(step.wait_ms, 3);
    let step = ended.reset_step(PortResetPhase::Recovering, false);
    assert_eq!(step.phase, PortResetPhase::Done);
    assert_eq!(step.writes, vec![0x0076_0201]);
    assert_eq!(step.wait_ms, 0);
    let step = ended.reset_step(PortResetPhase::Done, false);
    assert_eq!(step.phase, PortResetPhase::Done);
    assert!(step.writes.is_empty());
}

#[test]
fn full_reset_of_a_usb3_port_is_a_warm_reset() {
    let port = Port::new(0x0000_1201);
    let step = port.reset_step(PortResetPhase::Start, true);
    assert_eq!(step.phase, PortResetPhase::Resetting(500));
    assert_eq!(step.writes, vec![0x0076_1201, 0x8000_1201]);
}

#[test]
fn unpowered_port_is_powered_first() {
    let port = Port::new(0x0000_0001);
    let step = port.reset_step(PortResetPhase::Start, false);
    assert_eq!(step.phase, PortResetPhase::Powering);
    assert_eq!(step.writes, vec![0x0000_0201]);
    assert_eq!(step.wait_ms, 20);
    let step = port.reset_step(PortResetPhase::Powering, false);
    assert_eq!(step.phase, PortResetPhase::Failed);
    assert!(step.writes.is_empty());
    assert_eq!(step.wait_ms, 0);
    let powered = Port::new(0x0000_0201);
    let step = powered.reset_step(PortResetPhase::Powering, false);
    assert_eq!(step.phase, PortResetPhase::Resetting(500));
    assert_eq!(step.writes.len(), 2);
}

#[test]
fn port_reset_gives_up_after_500_polls() {
    let busy = Port::new(0x0000_0211);
    let mut phase = busy.reset_step(PortResetPhase::Start, false).phase;
    let mut polls = 0;
    while let PortResetPhase::Resetting(_) = phase {
        phase = busy.reset_step(phase, false).phase;
        polls += 1;
        assert!(polls <= 1000);
    }
    assert_eq!(phase, PortResetPhase::Failed);
    assert_eq!(polls, 501);
    assert_eq!(busy.reset_step(PortResetPhase::Failed, false).phase, PortResetPhase::Failed);
}

#[test]
fn port_that_stays_disabled_fails() {
    let port = Port::new(0x0020_0201);
    let step = port.reset_step(PortResetPhase::Recovering, false);
    assert_eq!(step.phase, PortResetPhase::Failed);
    assert!(step.writes.is_empty());
}
