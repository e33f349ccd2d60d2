use driver_xhci::port::Port;
use driver_xhci::hcd::{is_xhci, parse_hci, usb_type};
use driver_xhci::registers::{Capability, Interrupter, Operational, Reg, RegWrite, Registers, Runtime};

fn capability(hcsparams1: u32) -> Capability {
    Capability {
        dw1: 0x0100_0020,
        hcsparams1,
        hcsparams2: 0,
        hcsparams3: 0,
        hccparams1: 0x0000_0001,
        dboff: 0x2000,
        rtsoff: 0x1000,
        hccparams2: 0,
    }
}

fn operational() -> Operational {
    Operational { usbcmd: 0, usbsts: 1, pagesize: 1, dnctrl: 0, crcr: 0, dcbaap: 0, config: 0 }
}

fn runtime() -> Runtime {
    Runtime { mfindex: 0, primary: Interrupter { iman: 0, imod: 0, erstsz: 0, erstba: 0, erdp: 0 } }
}

#[test]
fn hcsparams1_gives_max_slots_and_max_ports() {
    let regs = Registers::from(0x1000_0000, capability(0x0400_0020), operational(), runtime());
    assert_eq!(regs.max_slots(), 32);
    assert_eq!(regs.max_ports(), 4);
}

#[test]
fn portsc_superspeed_gives_packet_size_512() {
    let port = Port::new(0x0000_1203);
    assert!(port.connected());
    assert!(port.enabled());
    assert!(!port.resetting());
    assert_eq!(port.speed(), 4);
    assert_eq!(port.max_packet_size(), 512);
}

#[test]
fn usb_controllers_are_recognised_by_class() {
    assert!(parse_hci(0x0C, 0x03));
    assert!(!parse_hci(0x0C, 0x05));
    assert!(!parse_hci(0x02, 0x03));
    assert!(is_xhci(0x0C, 0x03, 0x30));
    assert!(!is_xhci(0x0C, 0x03, 0x20));
    assert!(!is_xhci(0x0C, 0x00, 0x30));
    assert_eq!(usb_type(0x10), "USB1");
    assert_eq!(usb_type(0x20), "USB2");
    assert_eq!(usb_type(0x30), "USB3");
    assert_eq!(usb_type(0x00), "UNKNOWN");
}

#[test]
fn legacy_control_is_claimed_and_seized() {
    let mut regs = Registers::from(0x1000_0000, capability(0x0400_0020), operational(), runtime());
    assert_eq!(regs.free_legacy_control(0x0001_0401), 0x0101_0401);
    assert_eq!(regs.seize_legacy_control(0x0101_0401), 0x0100_0401);
    assert_eq!(
        regs.writes,
        vec![
            RegWrite { reg: Reg::UsbLegSup, value: 0x0101_0401 },
            RegWrite { reg: Reg::UsbLegSup, value: 0x0100_0401 },
        ]
    );
    assert_eq!(regs.reg_addr(Reg::UsbLegSup, 0x40), 0x1000_0000 + 0x100);
    assert_eq!(regs.reg_addr(Reg::Crcr, 0), 0x1000_0000 + 0x20 + 0x18);
    assert_eq!(regs.reg_addr(Reg::Erdp, 0), 0x1000_0000 + 0x1000 + 0x20 + 0x18);
    assert!(Reg::Erdp.is_wide());
    assert!(!Reg::UsbCmd.is_wide());
}
