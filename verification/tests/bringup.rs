use driver_xhci::bringup::{BringUpAction, BringUpPhase, HANDOFF_POLLS, RESET_POLLS};
use driver_xhci::controller::XhciController;
use driver_xhci::device::XhciError;
use driver_xhci::port::PortWrite;
use driver_xhci::registers::{Capability, Interrupter, Operational, Reg, RegWrite, Registers, Runtime};

const DMA: u64 = 0x0010_0000;

fn registers(hccparams1: u32, hcsparams2: u32) -> Registers {
    Registers::from(
        0xFEB0_0000,
        Capability {
            dw1: 0x0100_0020,
            hcsparams1: 0x0400_0020,
            hcsparams2,
            hcsparams3: 0,
            hccparams1,
            dboff: 0x2000,
            rtsoff: 0x1000,
            hccparams2: 0,
        },
        Operational {
            usbcmd: 0x0000_040D,
            usbsts: 0,
            pagesize: 1,
            dnctrl: 0,
            crcr: 0,
            dcbaap: 0,
            config: 0x300,
        },
        Runtime {
            mfindex: 0,
            primary: Interrupter { iman: 0x1, imod: 0x0001_0000, erstsz: 0, erstba: 0, erdp: 0 },
        },
    )
}

/// A controller model that obeys at once, with a firmware that lets go or not.
struct Mock {
    c: XhciController,
    trace: Vec<RegWrite>,
    legacy: Option<u32>,
    firmware_lets_go: bool,
    waits: u32,
}

impl Mock {
    fn new(regs: Registers, legacy: Option<u32>, firmware_lets_go: bool) -> Mock {
        let mut c = XhciController::new(regs, DMA);
        c.refresh(c.register.operational.usbcmd, c.register.operational.usbsts, legacy);
        Mock { c, trace: Vec::new(), legacy, firmware_lets_go, waits: 0 }
    }

    fn step(&mut self) -> BringUpAction {
        let action = self.c.step();
        if action == BringUpAction::Wait {
            self.waits += 1;
        }
        let mut usbcmd = self.c.register.operational.usbcmd;
        let mut usbsts = self.c.register.operational.usbsts;
        for w in self.c.register.take_writes() {
            match w.reg {
                Reg::UsbCmd => {
                    usbcmd = w.value as u32;
                    if usbcmd & 2 != 0 {
                        usbcmd &= !2;
                    }
                    usbsts = (usbsts & !1) | ((usbcmd & 1) ^ 1);
                }
                Reg::UsbLegSup => {
                    let mut l = w.value as u32;
                    if self.firmware_lets_go {
                        l &= !(1 << 16);
                    }
                    self.legacy = Some(l);
                }
                _ => {}
            }
            self.trace.push(w);
        }
        self.c.refresh(usbcmd, usbsts, self.legacy);
        action
    }

    fn run(&mut self) -> BringUpAction {
        for _ in 0..1000 {
            match self.step() {
                BringUpAction::Done => return BringUpAction::Done,
                BringUpAction::Failed(e) => return BringUpAction::Failed(e),
                _ => {}
            }
        }
        panic!("the bring-up does not end");
    }
}

#[test]
fn bring_up_writes_in_order() {
    let mut m = Mock::new(registers(1, 0), None, true);
    m.c.port_set.refresh(2, 0x0000_0201);
    m.c.port_set.refresh(3, 0x0022_0E03);
    assert_eq!(m.run(), BringUpAction::Done);
    assert_eq!(m.c.phase, BringUpPhase::Running);
    let expected = vec![
        RegWrite { reg: Reg::UsbCmd, value: 0x0000_040C },
        RegWrite { reg: Reg::UsbCmd, value: 0x0000_0408 },
        RegWrite { reg: Reg::UsbCmd, value: 0x0000_0400 },
        RegWrite { reg: Reg::UsbCmd, value: 0x0000_0000 },
        RegWrite { reg: Reg::UsbCmd, value: 0x0000_0002 },
        RegWrite { reg: Reg::Config, value: 0x0000_0320 },
        RegWrite { reg: Reg::Dcbaap, value: DMA },
        RegWrite { reg: Reg::Crcr, value: (DMA + 0x800) | 1 },
        RegWrite { reg: Reg::Erstsz, value: 1 },
        RegWrite { reg: Reg::Erdp, value: DMA + 0xA00 },
        RegWrite { reg: Reg::Erstba, value: DMA + 0xC00 },
        RegWrite { reg: Reg::Imod, value: 0x0001_0000 | 4000 },
        RegWrite { reg: Reg::Iman, value: 0x1 },
        RegWrite { reg: Reg::Iman, value: 0x2 },
        RegWrite { reg: Reg::UsbCmd, value: 0x0000_0004 },
        RegWrite { reg: Reg::UsbCmd, value: 0x0000_0005 },
    ];
    assert_eq!(m.trace, expected);
    let run = m.trace.iter().position(|w| w.reg == Reg::UsbCmd && w.value & 1 == 1).unwrap();
    for reg in [Reg::Crcr, Reg::Dcbaap, Reg::Erstba] {
        let at = m.trace.iter().position(|w| w.reg == reg).unwrap();
        assert!(at < run);
    }
    assert_eq!(
        m.c.port_set.writes,
        vec![
            PortWrite { index: 1, value: 0x0000_0211 },
            PortWrite { index: 1, value: 0x0200_0211 },
            PortWrite { index: 2, value: 0x0000_0E11 },
            PortWrite { index: 2, value: 0x0200_0E11 },
        ]
    );
    assert_eq!(m.c.port_set.ports[0].portsc, 0);
    assert_eq!(m.c.port_set.ports[1].portsc, 0x0200_0211);
    assert_eq!(m.c.port_set.ports[2].portsc, 0x0222_0E13);
    assert_eq!(m.c.port_set.ports[3].portsc, 0);
    assert_eq!(m.step(), BringUpAction::Done);
    assert_eq!(m.trace.len(), expected.len());
}

#[test]
fn firmware_handoff_is_claimed_and_awaited() {
    let mut m = Mock::new(registers(1, 0), Some(0x0001_0001), true);
    assert_eq!(m.run(), BringUpAction::Done);
    let legacy: Vec<&RegWrite> = m.trace.iter().filter(|w| w.reg == Reg::UsbLegSup).collect();
    assert_eq!(legacy, vec![&RegWrite { reg: Reg::UsbLegSup, value: 0x0101_0001 }]);
    let claim = m.trace.iter().position(|w| w.reg == Reg::UsbLegSup).unwrap();
    let run = m.trace.iter().position(|w| w.reg == Reg::UsbCmd && w.value & 1 == 1).unwrap();
    assert!(claim < run);
    assert_eq!(m.waits, 0);
}

#[test]
fn firmware_that_holds_on_is_given_ten_polls() {
    let mut m = Mock::new(registers(1, 0), Some(0x0001_0001), false);
    let mut seen = Vec::new();
    let mut steps_in_handoff = 0;
    loop {
        let in_handoff = matches!(m.c.phase, BringUpPhase::Handoff(_));
        let action = m.step();
        if in_handoff {
            steps_in_handoff += 1;
            seen.push(action);
        }
        match action {
            BringUpAction::Done => break,
            BringUpAction::Failed(e) => panic!("{:?}", e),
            _ => {}
        }
        assert!(seen.len() < 100);
    }
    assert_eq!(HANDOFF_POLLS, 10);
    assert_eq!(steps_in_handoff, 11);
    assert_eq!(m.waits, 10);
    assert_eq!(seen[..10], vec![BringUpAction::Wait; 10][..]);
    assert_eq!(seen[10], BringUpAction::Warn(XhciError::LegacyHandoffTimeout));
    assert_eq!(m.c.phase, BringUpPhase::Running);
    assert_eq!(m.c.register.operational.usbcmd & 1, 1);
    let legacy: Vec<u64> = m.trace.iter().filter(|w| w.reg == Reg::UsbLegSup).map(|w| w.value).collect();
    assert_eq!(legacy, vec![0x0101_0001, 0x0100_0001]);
    let seize = m.trace.iter().rposition(|w| w.reg == Reg::UsbLegSup).unwrap();
    let run = m.trace.iter().position(|w| w.reg == Reg::UsbCmd && w.value & 1 == 1).unwrap();
    assert!(seize < run);
}

#[test]
fn controller_that_never_halts_times_out() {
    let mut c = XhciController::new(registers(1, 0), DMA);
    assert_eq!(c.step(), BringUpAction::Continue);
    assert_eq!(c.phase, BringUpPhase::Halting(RESET_POLLS));
    let mut waits = 0;
    loop {
        c.refresh(0, 0, None);
        match c.step() {
            BringUpAction::Wait => waits += 1,
            BringUpAction::Failed(e) => {
                assert_eq!(e, XhciError::TimeoutDuringReset);
                break;
            }
            other => panic!("{:?}", other),
        }
        assert!(waits <= 1000);
    }
    assert_eq!(waits, 100);
    assert_eq!(c.phase, BringUpPhase::Failed(XhciError::TimeoutDuringReset));
    assert_eq!(c.register.writes.len(), 4);
    assert_eq!(c.step(), BringUpAction::Failed(XhciError::TimeoutDuringReset));
    assert_eq!(c.register.writes.len(), 4);
}

#[test]
fn controller_that_never_finishes_reset_times_out() {
    let mut c = XhciController::new(registers(1, 0), DMA);
    c.step();
    c.refresh(0, 1, None);
    assert_eq!(c.step(), BringUpAction::Continue);
    assert_eq!(c.phase, BringUpPhase::Resetting(RESET_POLLS));
    let mut waits = 0;
    loop {
        c.refresh(0, (1 << 11) | 1, None);
        match c.step() {
            BringUpAction::Wait => waits += 1,
            BringUpAction::Failed(e) => {
                assert_eq!(e, XhciError::TimeoutDuringReset);
                break;
            }
            other => panic!("{:?}", other),
        }
    }
    assert_eq!(waits, 100);
    assert!(c.register.writes.iter().all(|w| w.reg == Reg::UsbCmd));
}

#[test]
fn controller_that_never_starts_times_out() {
    let mut m = Mock::new(registers(1, 0), None, true);
    while !matches!(m.c.phase, BringUpPhase::Starting(_)) {
        m.step();
    }
    let mut waits = 0;
    loop {
        m.c.refresh(5, 1, None);
        match m.c.step() {
            BringUpAction::Wait => waits += 1,
            BringUpAction::Failed(e) => {
                assert_eq!(e, XhciError::TimeoutDuringReset);
                break;
            }
            other => panic!("{:?}", other),
        }
    }
    assert_eq!(waits, 100);
}

fn unsupported(hccparams1: u32, hcsparams2: u32) -> (Vec<RegWrite>, BringUpPhase) {
    let mut m = Mock::new(registers(hccparams1, hcsparams2), None, true);
    assert_eq!(m.run(), BringUpAction::Failed(XhciError::UnsupportedController));
    (m.trace, m.c.phase)
}

#[test]
fn controller_without_64_bit_addressing_is_refused() {
    let (trace, phase) = unsupported(0, 0);
    assert_eq!(phase, BringUpPhase::Failed(XhciError::UnsupportedController));
    assert_eq!(trace.len(), 5);
    assert!(trace.iter().all(|w| w.reg == Reg::UsbCmd && w.value & 1 == 0));
}

#[test]
fn controller_with_large_contexts_is_refused() {
    let (trace, _) = unsupported(0b101, 0);
    assert_eq!(trace.len(), 5);
}

#[test]
fn controller_that_wants_scratchpads_is_refused() {
    let (trace, _) = unsupported(1, 1 << 27);
    assert_eq!(trace.len(), 6);
    assert_eq!(trace[5], RegWrite { reg: Reg::Config, value: 0x0000_0320 });
    let (trace, _) = unsupported(1, 1 << 21);
    assert_eq!(trace.len(), 6);
}

#[test]
fn scratchpad_count_joins_high_and_low_bits() {
    let regs = registers(1, (0b00011 << 21) | (0b10001 << 27));
    assert_eq!(regs.max_scratchpad_buffer(), (0b00011 << 5) | 0b10001);
    assert_eq!(registers(1, 0).max_scratchpad_buffer(), 0);
}

#[test]
fn register_addresses() {
    let regs = registers(0x0040_0001, 0);
    assert_eq!(regs.operational_addr(), 0xFEB0_0000 + 0x20);
    assert_eq!(regs.runtime_addr(), 0xFEB0_0000 + 0x1000);
    assert_eq!(regs.doorbell_addr(0), 0xFEB0_0000 + 0x2000);
    assert_eq!(regs.doorbell_addr(2), 0xFEB0_0000 + 0x2000 + 8);
    assert_eq!(regs.port_addr(0), 0xFEB0_0000 + 0x20 + 0x400);
    assert_eq!(regs.port_addr(3), 0xFEB0_0000 + 0x20 + 0x400 + 0x30);
    assert_eq!(regs.xecp_offset(), 0x40);
    assert_eq!(regs.hci_version(), 0x0100);
    assert_eq!(regs.max_interrupters(), 0);
    assert_eq!(registers(1, 0xF0).erst_max(), 15);
    assert_eq!(regs.ac64(), 1);
    assert_eq!(regs.context_size(), 0);
    assert_eq!(regs.page_size(), 4096);
    assert_eq!(regs.operational().config, 0x300);
    assert_eq!(regs.capability().dboff, 0x2000);
    assert_eq!(regs.runtime().primary.iman, 1);
}

#[test]
fn register_setters_keep_other_bits() {
    let mut regs = registers(1, 0);
    regs.set_max_slot_enable(0x1FF);
    assert_eq!(regs.operational.config, 0x3FF);
    regs.set_max_slot_enable(7);
    assert_eq!(regs.operational.config, 0x307);
    regs.operational.dcbaap = 0x3F;
    regs.set_device_context_base_address_array(0x0000_0001_2345_6780);
    assert_eq!(regs.operational.dcbaap, 0x0000_0001_2345_67BF);
    regs.set_erdp(0x1230);
    assert_eq!(regs.runtime.primary.erdp, 0x1238);
    assert_eq!(regs.get_erdp(), 0x123);
    assert!(!regs.is_halted());
    regs.refresh(0, 1);
    assert!(regs.is_halted());
    assert!(regs.is_reset_done());
    regs.refresh(2, 1);
    assert!(!regs.is_reset_done());
    regs.refresh(0, 1 << 11);
    assert!(!regs.is_reset_done());
    let writes = regs.take_writes();
    assert_eq!(
        writes,
        vec![
            RegWrite { reg: Reg::Config, value: 0x3FF },
            RegWrite { reg: Reg::Config, value: 0x307 },
            RegWrite { reg: Reg::Dcbaap, value: 0x0000_0001_2345_67BF },
            RegWrite { reg: Reg::Erdp, value: 0x1238 },
        ]
    );
    assert!(regs.writes.is_empty());
}
