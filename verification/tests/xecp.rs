use driver_xhci::xecp::{
    check_protocols, fall_back, legacy_support, pair_ports, parse, protocols, PortPairing,
    ProtocolCapability, Xecp,
};

fn space() -> Vec<u32> {
    let mut s = vec![0u32; 0x60];
    s[0x10] = 0x0001_0401;
    s[0x11] = 0;
    s[0x14] = 0x0200_0802;
    s[0x15] = 0x2042_5355;
    s[0x16] = 0x0002_0401;
    s[0x1C] = 0x0300_0802;
    s[0x1D] = 0x2042_5355;
    s[0x1E] = 0x0000_0405;
    s[0x24] = 0x0000_000A;
    s
}

#[test]
fn walk_follows_next_pointers() {
    let s = space();
    let caps = parse(&s, 0x10);
    assert_eq!(
        caps,
        vec![
            Xecp { offset: 0x10, dw0: 0x0001_0401 },
            Xecp { offset: 0x14, dw0: 0x0200_0802 },
            Xecp { offset: 0x1C, dw0: 0x0300_0802 },
            Xecp { offset: 0x24, dw0: 0x0000_000A },
        ]
    );
    assert_eq!(caps[0].id(), 1);
    assert_eq!(caps[0].next(), 4);
    assert_eq!(caps[3].id(), 10);
    assert_eq!(caps[3].next(), 0);
}

#[test]
fn walk_of_no_list_is_empty() {
    assert_eq!(parse(&space(), 0), Vec::new());
    assert_eq!(parse(&space(), 0x60), Vec::new());
    assert_eq!(parse(&space(), 0xFFFF_FFFF), Vec::new());
    assert_eq!(parse(&Vec::new(), 4), Vec::new());
}

#[test]
fn walk_ends_at_the_end_of_the_space() {
    let mut s = vec![0u32; 8];
    s[2] = 0x0000_0301;
    s[5] = 0x0000_FF02;
    assert_eq!(parse(&s, 2), vec![Xecp { offset: 2, dw0: 0x0301 }, Xecp { offset: 5, dw0: 0xFF02 }]);
}

#[test]
fn legacy_support_is_the_first_capability_with_id_one() {
    let s = space();
    let caps = parse(&s, 0x10);
    assert_eq!(legacy_support(&caps), Some(Xecp { offset: 0x10, dw0: 0x0001_0401 }));
    let caps = parse(&s, 0x14);
    assert_eq!(legacy_support(&caps), None);
    assert_eq!(legacy_support(&Vec::new()), None);
}

#[test]
fn supported_protocols_are_decoded() {
    let s = space();
    let caps = parse(&s, 0x10);
    assert_eq!(
        protocols(&s, &caps),
        vec![
            ProtocolCapability { major: 2, minor: 0, port_offset: 1, port_count: 4, protocol_defined: 2 },
            ProtocolCapability { major: 3, minor: 0, port_offset: 5, port_count: 4, protocol_defined: 0 },
        ]
    );
    assert_eq!(
        ProtocolCapability::decode(0x0310_0802, 0x1ABC_0203),
        ProtocolCapability { major: 3, minor: 0x10, port_offset: 3, port_count: 2, protocol_defined: 0xABC }
    );
}

fn usb2(offset: u8, count: u8) -> ProtocolCapability {
    ProtocolCapability { major: 2, minor: 0, port_offset: offset, port_count: count, protocol_defined: 0 }
}

fn usb3(offset: u8, count: u8) -> ProtocolCapability {
    ProtocolCapability { major: 3, minor: 0, port_offset: offset, port_count: count, protocol_defined: 0 }
}

#[test]
fn usb2_and_usb3_ports_are_paired() {
    let protos = vec![usb2(1, 2), usb3(3, 2)];
    assert!(check_protocols(4, &protos));
    assert_eq!(
        pair_ports(4, &protos),
        vec![
            PortPairing { flags: 0 | 4 | 8, other_port_num: 2, offset: 0 },
            PortPairing { flags: 0 | 4 | 8, other_port_num: 3, offset: 1 },
            PortPairing { flags: 1 | 4 | 8, other_port_num: 0, offset: 0 },
            PortPairing { flags: 1 | 4 | 8, other_port_num: 1, offset: 1 },
        ]
    );
}

#[test]
fn usb3_port_without_partner_is_driven_alone() {
    let protos = vec![usb2(1, 1), usb3(2, 3)];
    assert_eq!(
        pair_ports(4, &protos),
        vec![
            PortPairing { flags: 4 | 8, other_port_num: 1, offset: 0 },
            PortPairing { flags: 1 | 4 | 8, other_port_num: 0, offset: 0 },
            PortPairing { flags: 1 | 8, other_port_num: 0, offset: 1 },
            PortPairing { flags: 1 | 8, other_port_num: 0, offset: 2 },
        ]
    );
}

#[test]
fn usb2_port_without_partner_is_not_driven() {
    let protos = vec![usb2(1, 2)];
    assert_eq!(
        pair_ports(2, &protos),
        vec![
            PortPairing { flags: 0, other_port_num: 0, offset: 0 },
            PortPairing { flags: 0, other_port_num: 0, offset: 1 },
        ]
    );
    assert_eq!(pair_ports(0, &Vec::new()), Vec::new());
}

#[test]
fn protocols_of_other_revisions_are_passed_over() {
    let other = ProtocolCapability { major: 1, minor: 1, port_offset: 0, port_count: 200, protocol_defined: 0 };
    let protos = vec![other, usb3(1, 1)];
    assert!(check_protocols(1, &protos));
    assert_eq!(pair_ports(1, &protos), vec![PortPairing { flags: 1 | 8, other_port_num: 0, offset: 0 }]);
}

#[test]
fn protocols_that_do_not_fit_are_told() {
    assert!(!check_protocols(4, &vec![usb2(0, 1)]));
    assert!(!check_protocols(4, &vec![usb2(4, 2)]));
    assert!(check_protocols(4, &vec![usb2(4, 1)]));
    assert!(check_protocols(4, &vec![usb2(5, 0)]));
    assert!(!check_protocols(4, &vec![usb3(1, 5)]));
    assert!(check_protocols(200, &vec![usb2(1, 200), usb3(1, 200)]));
    assert!(!check_protocols(200, &vec![usb2(1, 200), usb2(1, 56)]));
    assert!(check_protocols(200, &vec![usb2(1, 200), usb2(1, 55)]));
    assert!(check_protocols(0, &Vec::new()));
}

#[test]
fn failed_reset_falls_back_to_the_partner() {
    let mut ports = pair_ports(4, &vec![usb2(1, 2), usb3(3, 2)]);
    ports[0].flags &= !8;
    ports[1].flags &= !8;
    assert_eq!(fall_back(&mut ports, 2), Some(0));
    assert_eq!(
        ports,
        vec![
            PortPairing { flags: 4 | 8, other_port_num: 2, offset: 0 },
            PortPairing { flags: 4, other_port_num: 3, offset: 1 },
            PortPairing { flags: 1 | 4, other_port_num: 0, offset: 0 },
            PortPairing { flags: 1 | 4 | 8, other_port_num: 1, offset: 1 },
        ]
    );
    let mut alone = vec![PortPairing { flags: 1 | 8, other_port_num: 0, offset: 0 }];
    assert_eq!(fall_back(&mut alone, 0), None);
    assert_eq!(alone, vec![PortPairing { flags: 1, other_port_num: 0, offset: 0 }]);
}

#[test]
fn high_speed_only_protocol_marks_its_ports() {
    let hso = ProtocolCapability { major: 2, minor: 0, port_offset: 1, port_count: 2, protocol_defined: 2 };
    assert_eq!(
        pair_ports(2, &vec![hso]),
        vec![
            PortPairing { flags: 0, other_port_num: 0, offset: 0 | 2 },
            PortPairing { flags: 0, other_port_num: 0, offset: 1 | 2 },
        ]
    );
}
