//! Bringing a controller up: the ordered sequence of stopping, resetting,
//! configuring and starting it, as steps between which the caller polls the
//! hardware and waits.

use vstd::prelude::*;
use crate::bits::{field_of32, with_field32, with_field64, read_field32};
use crate::controller::XhciController;
use crate::device::XhciError;
use crate::port::{portsc_reset_writes, Port, PortWrite};
use crate::registers::{
    usbcmd_reset, usbcmd_started, usbcmd_stopped, writes_to, Operational, Reg, RegWrite, Registers,
    Runtime, POINTER_MASK_58,
};

verus! {

/// The polls, one millisecond apart, that the controller is given to halt,
/// to finish its reset, and to start.
pub const RESET_POLLS: u32 = 100;

/// The polls, one millisecond apart, that the firmware is given to release
/// the controller.
pub const HANDOFF_POLLS: u32 = 10;

/// Where the bring-up stands. A number is the polls that are left.
#[derive(Clone, Copy, Debug, PartialEq, Eq, Structural)]
pub enum BringUpPhase {
    /// Nothing has been done.
    Start,
    /// The controller was told to stop and has yet to halt.
    Halting(u32),
    /// The controller was told to reset and has yet to finish.
    Resetting(u32),
    /// The controller is configured, and the firmware has yet to release it.
    Handoff(u32),
    /// The controller was told to run and has yet to leave the halted state.
    Starting(u32),
    /// The controller runs, and its ports have yet to be reset.
    Ports,
    /// The controller is in service.
    Running,
    /// The bring-up was given up.
    Failed(XhciError),
}

/// What the caller of a step has to do next.
#[derive(Clone, Copy, Debug, PartialEq, Eq, Structural)]
pub enum BringUpAction {
    /// Make the recorded writes, read the registers anew, and step again.
    Continue,
    /// The same, after a wait of one millisecond.
    Wait,
    /// The same as `Continue`; the step went on in spite of what it names.
    Warn(XhciError),
    /// The controller is in service.
    Done,
    /// The bring-up was given up.
    Failed(XhciError),
}

/// The phase after a poll in `waiting` found what it waited for (`ready`),
/// or not.
pub open spec fn polled(ready: bool, left: u32, next: BringUpPhase, waiting: BringUpPhase) -> BringUpPhase {
    if ready {
        next
    } else if left == 0 {
        BringUpPhase::Failed(XhciError::TimeoutDuringReset)
    } else {
        waiting
    }
}

/// The list of writes that reset each port of `ports` below `upto` that has
/// a device attached.
pub open spec fn ports_reset_writes(ports: Seq<Port>, upto: int) -> Seq<PortWrite>
    decreases upto,
{
    if upto <= 0 {
        Seq::empty()
    } else {
        let rest = ports_reset_writes(ports, upto - 1);
        let p = ports[upto - 1];
        if field_of32(p.portsc, 1, 0) == 1 {
            rest + seq![
                PortWrite { index: (upto - 1) as usize, value: portsc_reset_writes(p.portsc)[0] },
                PortWrite { index: (upto - 1) as usize, value: portsc_reset_writes(p.portsc)[1] },
            ]
        } else {
            rest
        }
    }
}

/// The images of the ports after each one that has a device attached was
/// reset.
pub open spec fn ports_after_reset(ports: Seq<Port>) -> Seq<Port> {
    Seq::new(
        ports.len(),
        |i: int|
            if field_of32(ports[i].portsc, 1, 0) == 1 {
                Port { portsc: with_field32(with_field32(ports[i].portsc, 1, 4, 1), 1, 25, 1), ..ports[i] }
            } else {
                ports[i]
            },
    )
}

impl XhciController {
    /// Whether the controller can be driven: it takes 64-bit addresses and
    /// has 32-byte contexts.
    pub open spec fn supported(&self) -> bool {
        field_of32(self.register.capability.hccparams1, 1, 0) == 1 && field_of32(
            self.register.capability.hccparams1,
            1,
            2,
        ) == 0
    }

    /// The number of scratchpad buffers that the controller asks for.
    pub open spec fn scratchpads(&self) -> u32 {
        field_of32(self.register.capability.hcsparams2, 0x1F, 27) | (field_of32(
            self.register.capability.hcsparams2,
            0x1F,
            21,
        ) << 5)
    }

    /// Whether the firmware still owns the controller: there is a USB
    /// Legacy Support capability, and its BIOS Owned Semaphore reads 1.
    pub open spec fn firmware_owned(&self) -> bool {
        self.legacy.is_some() && field_of32(self.legacy.unwrap(), 1, 16) == 1
    }

    /// CONFIG with MaxSlotsEnabled set to MaxSlots.
    pub open spec fn config_value(&self) -> u32 {
        with_field32(
            self.register.operational.config,
            0xFF,
            0,
            field_of32(self.register.capability.hcsparams1, 0xFF, 0),
        )
    }

    /// The writes that configure the controller once its reset is over, in
    /// their order: CONFIG; DCBAAP; CRCR; the primary interrupter's ERSTSZ,
    /// ERDP, ERSTBA, IMOD and IMAN; and the claim of ownership in the USB
    /// Legacy Support capability, if there is one.
    pub open spec fn configure_writes(&self) -> Seq<RegWrite> {
        seq![
            RegWrite { reg: Reg::Config, value: self.config_value() as u64 },
            RegWrite {
                reg: Reg::Dcbaap,
                value: with_field64_dcbaap(self.register.operational.dcbaap, self.device_manager.dcbaa_addr),
            },
            RegWrite {
                reg: Reg::Crcr,
                value: Registers::spec_crcr(
                    self.register.operational.crcr,
                    self.command_ring@.cycle_bit,
                    self.command_ring@.phys_base,
                ),
            },
        ] + Registers::spec_primary_writes(
            self.register.runtime.primary,
            self.ers_table.spec_len(),
            self.ers_table.spec_entry_addr(0),
            self.ers_table.spec_addr(),
        ) + (match self.legacy {
            Some(l) => seq![RegWrite { reg: Reg::UsbLegSup, value: with_field32(l, 1, 24, 1) as u64 }],
            None => Seq::empty(),
        })
    }

    /// The phase after the next step.
    pub open spec fn step_phase(&self) -> BringUpPhase {
        match self.phase {
            BringUpPhase::Start => BringUpPhase::Halting(RESET_POLLS),
            BringUpPhase::Halting(n) => polled(
                field_of32(self.register.operational.usbsts, 1, 0) == 1,
                n,
                BringUpPhase::Resetting(RESET_POLLS),
                BringUpPhase::Halting((n - 1) as u32),
            ),
            BringUpPhase::Resetting(n) => polled(
                self.reset_done(),
                n,
                if self.supported() && self.scratchpads() == 0 {
                    BringUpPhase::Handoff(HANDOFF_POLLS)
                } else {
                    BringUpPhase::Failed(XhciError::UnsupportedController)
                },
                BringUpPhase::Resetting((n - 1) as u32),
            ),
            BringUpPhase::Handoff(n) => if !self.firmware_owned() || n == 0 {
                BringUpPhase::Starting(RESET_POLLS)
            } else {
                BringUpPhase::Handoff((n - 1) as u32)
            },
            BringUpPhase::Starting(n) => polled(
                field_of32(self.register.operational.usbsts, 1, 0) != 1,
                n,
                BringUpPhase::Ports,
                BringUpPhase::Starting((n - 1) as u32),
            ),
            BringUpPhase::Ports => BringUpPhase::Running,
            BringUpPhase::Running => BringUpPhase::Running,
            BringUpPhase::Failed(e) => BringUpPhase::Failed(e),
        }
    }

    /// Whether the controller has finished its reset.
    pub open spec fn reset_done(&self) -> bool {
        field_of32(self.register.operational.usbcmd, 1, 1) == 0 && field_of32(
            self.register.operational.usbsts,
            1,
            11,
        ) == 0
    }

    /// What the next step tells the caller.
    pub open spec fn step_action(&self) -> BringUpAction {
        match self.phase {
            BringUpPhase::Handoff(n) => if !self.firmware_owned() {
                BringUpAction::Continue
            } else if n == 0 {
                BringUpAction::Warn(XhciError::LegacyHandoffTimeout)
            } else {
                BringUpAction::Wait
            },
            _ => match self.step_phase() {
                BringUpPhase::Failed(e) => BringUpAction::Failed(e),
                BringUpPhase::Running => BringUpAction::Done,
                BringUpPhase::Halting(n) => if self.phase == BringUpPhase::Start {
                    BringUpAction::Continue
                } else {
                    BringUpAction::Wait
                },
                BringUpPhase::Resetting(n) => if self.phase is Halting {
                    BringUpAction::Continue
                } else {
                    BringUpAction::Wait
                },
                BringUpPhase::Starting(n) => BringUpAction::Wait,
                _ => BringUpAction::Continue,
            },
        }
    }

    /// The register writes that the next step records.
    pub open spec fn step_writes(&self) -> Seq<RegWrite> {
        match self.phase {
            BringUpPhase::Start => writes_to(Reg::UsbCmd, usbcmd_stopped(self.register.operational.usbcmd)),
            BringUpPhase::Halting(n) => if field_of32(self.register.operational.usbsts, 1, 0) == 1 {
                seq![RegWrite { reg: Reg::UsbCmd, value: usbcmd_reset(self.register.operational.usbcmd) as u64 }]
            } else {
                Seq::empty()
            },
            BringUpPhase::Resetting(n) => if !self.reset_done() || !self.supported() {
                Seq::empty()
            } else if self.scratchpads() != 0 {
                seq![RegWrite { reg: Reg::Config, value: self.config_value() as u64 }]
            } else {
                self.configure_writes()
            },
            BringUpPhase::Handoff(n) => if !self.firmware_owned() {
                writes_to(Reg::UsbCmd, usbcmd_started(self.register.operational.usbcmd))
            } else if n == 0 {
                seq![
                    RegWrite { reg: Reg::UsbLegSup, value: with_field32(self.legacy.unwrap(), 1, 16, 0) as u64 },
                ] + writes_to(Reg::UsbCmd, usbcmd_started(self.register.operational.usbcmd))
            } else {
                Seq::empty()
            },
            _ => Seq::empty(),
        }
    }
}

/// DCBAAP with the pointer to the array at `addr`.
pub open spec fn with_field64_dcbaap(dcbaap: u64, addr: u64) -> u64 {
    with_field64(dcbaap, POINTER_MASK_58, 6, addr >> 6)
}

impl XhciController {
    /// The Operational registers as the next step leaves them.
    pub open spec fn step_operational(&self) -> Operational {
        let op = self.register.operational;
        match self.phase {
            BringUpPhase::Start => Operational { usbcmd: usbcmd_stopped(op.usbcmd)[3], ..op },
            BringUpPhase::Halting(n) => if field_of32(op.usbsts, 1, 0) == 1 {
                Operational { usbcmd: usbcmd_reset(op.usbcmd), ..op }
            } else {
                op
            },
            BringUpPhase::Resetting(n) => if !self.reset_done() || !self.supported() {
                op
            } else if self.scratchpads() != 0 {
                Operational { config: self.config_value(), ..op }
            } else {
                Operational {
                    config: self.config_value(),
                    dcbaap: with_field64_dcbaap(op.dcbaap, self.device_manager.dcbaa_addr),
                    crcr: Registers::spec_crcr(op.crcr, self.command_ring@.cycle_bit, self.command_ring@.phys_base),
                    ..op
                }
            },
            BringUpPhase::Handoff(n) => if !self.firmware_owned() || n == 0 {
                Operational { usbcmd: usbcmd_started(op.usbcmd)[1], ..op }
            } else {
                op
            },
            _ => op,
        }
    }

    /// Whether the next step is the one that configures the controller.
    pub open spec fn configures(&self) -> bool {
        self.phase is Resetting && self.reset_done() && self.supported() && self.scratchpads() == 0
    }

    /// The Runtime registers as the next step leaves them.
    pub open spec fn step_runtime(&self) -> Runtime {
        if self.configures() {
            Runtime {
                primary: Registers::spec_primary(
                    self.register.runtime.primary,
                    self.ers_table.spec_len(),
                    self.ers_table.spec_entry_addr(0),
                    self.ers_table.spec_addr(),
                ),
                ..self.register.runtime
            }
        } else {
            self.register.runtime
        }
    }

    /// The image of the USB Legacy Support capability as the next step
    /// leaves it: with the OS Owned Semaphore set, once the controller is
    /// configured, and with the BIOS Owned Semaphore cleared, once the wait
    /// for the firmware has run out.
    pub open spec fn step_legacy(&self) -> Option<u32> {
        if self.configures() {
            match self.legacy {
                Some(l) => Some(with_field32(l, 1, 24, 1)),
                None => None,
            }
        } else if self.phase == BringUpPhase::Handoff(0) && self.firmware_owned() {
            Some(with_field32(self.legacy.unwrap(), 1, 16, 0))
        } else {
            self.legacy
        }
    }

    /// What a step of the bring-up does: the phase, the register image and
    /// the recorded writes go by the functions above; in the phase Ports
    /// each port with a device attached is reset; the rings and the devices
    /// are not touched.
    pub open spec fn stepped(&self, old: &XhciController) -> bool {
        &&& self.phase == old.step_phase()
        &&& self.legacy == old.step_legacy()
        &&& self.register.operational == old.step_operational()
        &&& self.register.runtime == old.step_runtime()
        &&& self.register.appended(&old.register, old.step_writes())
        &&& self.base_addr == old.base_addr
        &&& self.event_ring == old.event_ring
        &&& self.command_ring == old.command_ring
        &&& self.device_manager == old.device_manager
        &&& self.ers_table == old.ers_table
        &&& self.port_set.max_ports == old.port_set.max_ports
        &&& self.port_set.addr == old.port_set.addr
        &&& self.port_set.index == old.port_set.index
        &&& if old.phase == BringUpPhase::Ports {
            &&& self.port_set.ports@ == ports_after_reset(old.port_set.ports@)
            &&& self.port_set.writes@ == old.port_set.writes@ + ports_reset_writes(
                old.port_set.ports@,
                old.port_set.ports@.len() as int,
            )
        } else {
            self.port_set == old.port_set
        }
    }

    /// The poll of a waiting phase: goes on to `next` if `ready`, gives up
    /// if no poll is left, and waits on otherwise.
    fn poll(ready: bool, left: u32, next: BringUpPhase, again: BringUpPhase) -> (r: BringUpPhase)
        ensures
            r == polled(ready, left, next, again),
    {
        if ready {
            next
        } else if left == 0 {
            BringUpPhase::Failed(XhciError::TimeoutDuringReset)
        } else {
            again
        }
    }

    /// Configures the controller after its reset.
    fn configure(&mut self)
        requires
            old(self).wf(),
            old(self).phase is Resetting,
            old(self).reset_done(),
        ensures
            final(self).wf(),
            final(self).stepped(old(self)),
    {
        if self.register.ac64() != 1 || self.register.context_size() != 0 {
            self.phase = BringUpPhase::Failed(XhciError::UnsupportedController);
            assert(final(self).register.writes@ =~= old(self).register.writes@ + Seq::<RegWrite>::empty());
            return ;
        }
        let max_slots = self.register.max_slots();
        self.register.set_max_slot_enable(max_slots);
        if self.register.max_scratchpad_buffer() != 0 {
            self.phase = BringUpPhase::Failed(XhciError::UnsupportedController);
            return ;
        }
        self.register.set_device_context_base_address_array(self.device_manager.dcbaap());
        self.register.set_command_ring(&self.command_ring);
        self.register.set_primary_interrupter(&self.ers_table);
        match self.legacy {
            Some(l) => {
                let claimed = self.register.free_legacy_control(l);
                self.legacy = Some(claimed);
            },
            None => {},
        }
        self.phase = BringUpPhase::Handoff(HANDOFF_POLLS);
        assert(final(self).register.writes@ =~= old(self).register.writes@ + old(self).configure_writes());
    }

    /// Resets each port that has a device attached.
    fn reset_ports(&mut self)
        requires
            old(self).wf(),
            old(self).phase == BringUpPhase::Ports,
        ensures
            final(self).wf(),
            final(self).stepped(old(self)),
    {
        let n: u32 = self.port_set.max_ports;
        let mut i: u32 = 0;
        while i < n
            invariant
                i <= n,
                n == old(self).port_set.max_ports,
                n <= 255,
                self.wf(),
                self.phase == old(self).phase,
                self.legacy == old(self).legacy,
                self.register == old(self).register,
                self.base_addr == old(self).base_addr,
                self.event_ring == old(self).event_ring,
                self.command_ring == old(self).command_ring,
                self.device_manager == old(self).device_manager,
                self.ers_table == old(self).ers_table,
                self.port_set.max_ports == old(self).port_set.max_ports,
                self.port_set.addr == old(self).port_set.addr,
                self.port_set.index == old(self).port_set.index,
                self.port_set.ports@.len() == n,
                old(self).port_set.ports@.len() == n,
                forall|j: int| 0 <= j < i ==> self.port_set.ports@[j] == ports_after_reset(old(self).port_set.ports@)[j],
                forall|j: int| i <= j < n ==> self.port_set.ports@[j] == old(self).port_set.ports@[j],
                self.port_set.writes@ == old(self).port_set.writes@ + ports_reset_writes(
                    old(self).port_set.ports@,
                    i as int,
                ),
            decreases n - i,
        {
            let id: u8 = (i + 1) as u8;
            if self.port_set.get_by_id(id).connected() {
                let ghost before = self.port_set.writes@;
                self.port_set.reset_port(id);
                assert(self.port_set.writes@ =~= old(self).port_set.writes@ + ports_reset_writes(
                    old(self).port_set.ports@,
                    i + 1,
                ));
            }
            i += 1;
        }
        self.phase = BringUpPhase::Running;
        assert(self.port_set.ports@ =~= ports_after_reset(old(self).port_set.ports@));
        assert(final(self).register.writes@ =~= old(self).register.writes@ + Seq::<RegWrite>::empty());
    }

    /// Takes the bring-up one step further. Before each step the caller
    /// has made the writes recorded so far and has read USBCMD, USBSTS, the
    /// USB Legacy Support capability and the ports' PORTSC anew.
    pub fn step(&mut self) -> (r: BringUpAction)
        requires
            old(self).wf(),
        ensures
            final(self).wf(),
            final(self).stepped(old(self)),
            r == old(self).step_action(),
    {
        match self.phase {
            BringUpPhase::Start => {
                self.register.stop();
                self.phase = BringUpPhase::Halting(RESET_POLLS);
                BringUpAction::Continue
            },
            BringUpPhase::Halting(n) => {
                let halted = self.register.is_halted();
                if halted {
                    self.register.reset();
                    self.phase = BringUpPhase::Resetting(RESET_POLLS);
                    BringUpAction::Continue
                } else {
                    assert(self.register.writes@ =~= old(self).register.writes@ + Seq::<RegWrite>::empty());
                    if n == 0 {
                        self.phase = BringUpPhase::Failed(XhciError::TimeoutDuringReset);
                        BringUpAction::Failed(XhciError::TimeoutDuringReset)
                    } else {
                        self.phase = BringUpPhase::Halting(n - 1);
                        BringUpAction::Wait
                    }
                }
            },
            BringUpPhase::Resetting(n) => {
                if self.register.is_reset_done() {
                    self.configure();
                    match self.phase {
                        BringUpPhase::Failed(e) => BringUpAction::Failed(e),
                        _ => BringUpAction::Continue,
                    }
                } else {
                    assert(self.register.writes@ =~= old(self).register.writes@ + Seq::<RegWrite>::empty());
                    if n == 0 {
                        self.phase = BringUpPhase::Failed(XhciError::TimeoutDuringReset);
                        BringUpAction::Failed(XhciError::TimeoutDuringReset)
                    } else {
                        self.phase = BringUpPhase::Resetting(n - 1);
                        BringUpAction::Wait
                    }
                }
            },
            BringUpPhase::Handoff(n) => {
                let owned = match self.legacy {
                    Some(l) => read_field32(l, 1, 16) == 1,
                    None => false,
                };
                if !owned {
                    self.register.run();
                    self.phase = BringUpPhase::Starting(RESET_POLLS);
                    BringUpAction::Continue
                } else if n == 0 {
                    match self.legacy {
                        Some(l) => {
                            let seized = self.register.seize_legacy_control(l);
                            self.legacy = Some(seized);
                        },
                        None => {},
                    }
                    self.register.run();
                    self.phase = BringUpPhase::Starting(RESET_POLLS);
                    assert(self.register.writes@ =~= old(self).register.writes@ + old(self).step_writes());
                    BringUpAction::Warn(XhciError::LegacyHandoffTimeout)
                } else {
                    assert(self.register.writes@ =~= old(self).register.writes@ + Seq::<RegWrite>::empty());
                    self.phase = BringUpPhase::Handoff(n - 1);
                    BringUpAction::Wait
                }
            },
            BringUpPhase::Starting(n) => {
                assert(self.register.writes@ =~= old(self).register.writes@ + Seq::<RegWrite>::empty());
                if !self.register.is_halted() {
                    self.phase = BringUpPhase::Ports;
                    BringUpAction::Continue
                } else if n == 0 {
                    self.phase = BringUpPhase::Failed(XhciError::TimeoutDuringReset);
                    BringUpAction::Failed(XhciError::TimeoutDuringReset)
                } else {
                    self.phase = BringUpPhase::Starting(n - 1);
                    BringUpAction::Wait
                }
            },
            BringUpPhase::Ports => {
                self.reset_ports();
                BringUpAction::Done
            },
            BringUpPhase::Running => {
                assert(self.register.writes@ =~= old(self).register.writes@ + Seq::<RegWrite>::empty());
                BringUpAction::Done
            },
            BringUpPhase::Failed(e) => {
                assert(self.register.writes@ =~= old(self).register.writes@ + Seq::<RegWrite>::empty());
                BringUpAction::Failed(e)
            },
        }
    }

    /// Takes fresh values of USBCMD, USBSTS and the USB Legacy Support
    /// capability register (`None` if the controller has no such
    /// capability), as read from the controller.
    pub fn refresh(&mut self, usbcmd: u32, usbsts: u32, legacy: Option<u32>)
        requires
            old(self).wf(),
        ensures
            final(self).wf(),
            final(self).legacy == legacy,
            final(self).register.operational == (Operational { usbcmd, usbsts, ..old(self).register.operational }),
            final(self).register.runtime == old(self).register.runtime,
            final(self).register.appended(&old(self).register, Seq::empty()),
            final(self).phase == old(self).phase,
            final(self).base_addr == old(self).base_addr,
            final(self).event_ring == old(self).event_ring,
            final(self).command_ring == old(self).command_ring,
            final(self).device_manager == old(self).device_manager,
            final(self).ers_table == old(self).ers_table,
            final(self).port_set == old(self).port_set,
    {
        self.register.refresh(usbcmd, usbsts);
        self.legacy = legacy;
    }
}

/// A write of USBCMD that sets Run/Stop.
pub open spec fn is_run_write(w: RegWrite) -> bool {
    w.reg == Reg::UsbCmd && field_of32(w.value as u32, 1, 0) == 1
}

/// The writes hold one of CRCR, one of DCBAAP and one of ERSTBA.
pub open spec fn programs(ws: Seq<RegWrite>) -> bool {
    &&& exists|i: int| 0 <= i < ws.len() && (#[trigger] ws[i]).reg == Reg::Crcr
    &&& exists|i: int| 0 <= i < ws.len() && (#[trigger] ws[i]).reg == Reg::Dcbaap
    &&& exists|i: int| 0 <= i < ws.len() && (#[trigger] ws[i]).reg == Reg::Erstba
}

/// The states of a controller before each step of a bring-up: the phase
/// of each is the one that the step before it led to. What the registers
/// read is free from one state to the next.
pub open spec fn is_run(cs: Seq<XhciController>) -> bool {
    forall|i: int| 0 <= i < cs.len() - 1 ==> (#[trigger] cs[i + 1]).phase == cs[i].step_phase()
}

/// Whether the controller has been configured by the time of this phase.
pub open spec fn past_configuration(phase: BringUpPhase) -> bool {
    phase is Handoff || phase is Starting || phase is Ports || phase is Running
}

proof fn lemma_no_run_bit(usbcmd: u32)
    by (bit_vector)
    ensures
        field_of32(with_field32(usbcmd, 1, 0, 0), 1, 0) == 0,
        field_of32(with_field32(with_field32(usbcmd, 1, 0, 0), 1, 2, 0), 1, 0) == 0,
        field_of32(with_field32(with_field32(with_field32(usbcmd, 1, 0, 0), 1, 2, 0), 1, 3, 0), 1, 0) == 0,
        field_of32(
            with_field32(with_field32(with_field32(with_field32(usbcmd, 1, 0, 0), 1, 2, 0), 1, 3, 0), 1, 10, 0),
            1,
            0,
        ) == 0,
        field_of32(with_field32(with_field32(usbcmd, 1, 0, 0), 1, 1, 1), 1, 0) == 0,
{
}

/// Only the step that starts the controller, in the phase Handoff, writes
/// USBCMD with Run/Stop set.
pub proof fn lemma_run_write_starts(c: XhciController, k: int)
    requires
        0 <= k < c.step_writes().len(),
        is_run_write(c.step_writes()[k]),
    ensures
        c.phase is Handoff,
{
    lemma_no_run_bit(c.register.operational.usbcmd);
    match c.phase {
        BringUpPhase::Resetting(n) => {
            if c.reset_done() && c.supported() && c.scratchpads() == 0 {
                let primary = Registers::spec_primary_writes(
                    c.register.runtime.primary,
                    c.ers_table.spec_len(),
                    c.ers_table.spec_entry_addr(0),
                    c.ers_table.spec_addr(),
                );
                assert(primary.len() == 6);
                if k >= 3 && k < 9 {
                    assert(c.step_writes()[k] == primary[k - 3]);
                }
            }
        },
        _ => {},
    }
}

/// The step that configures the controller writes CRCR, DCBAAP and ERSTBA.
pub proof fn lemma_configuring_programs(c: XhciController)
    requires
        c.configures(),
    ensures
        programs(c.step_writes()),
{
    let ws = c.step_writes();
    let primary = Registers::spec_primary_writes(
        c.register.runtime.primary,
        c.ers_table.spec_len(),
        c.ers_table.spec_entry_addr(0),
        c.ers_table.spec_addr(),
    );
    assert(primary.len() == 6);
    assert(ws[1].reg == Reg::Dcbaap);
    assert(ws[2].reg == Reg::Crcr);
    assert(ws[5] == primary[2]);
    assert(ws[5].reg == Reg::Erstba);
}

/// A bring-up that starts at Start is past its configuration only after a
/// step that configured the controller.
pub proof fn lemma_configured_before(cs: Seq<XhciController>, i: int)
    requires
        is_run(cs),
        0 <= i < cs.len(),
        cs[0].phase == BringUpPhase::Start,
        past_configuration(cs[i].phase),
    ensures
        exists|j: int| 0 <= j < i && (#[trigger] cs[j]).configures(),
    decreases i,
{
    if i > 0 {
        assert(cs[(i - 1) + 1].phase == cs[i - 1].step_phase());
        if past_configuration(cs[i - 1].phase) {
            lemma_configured_before(cs, i - 1);
        } else {
            assert(cs[i - 1].configures());
        }
    }
}

/// In a bring-up, USBCMD is never written with Run/Stop set before CRCR,
/// DCBAAP and ERSTBA have been written: a step that records such a write
/// comes after a step that recorded those three.
pub proof fn lemma_run_after_programming(cs: Seq<XhciController>, i: int, k: int)
    requires
        is_run(cs),
        0 <= i < cs.len(),
        cs[0].phase == BringUpPhase::Start,
        0 <= k < cs[i].step_writes().len(),
        is_run_write(cs[i].step_writes()[k]),
    ensures
        exists|j: int| 0 <= j < i && programs((#[trigger] cs[j]).step_writes()),
{
    lemma_run_write_starts(cs[i], k);
    lemma_configured_before(cs, i);
    let j = choose|j: int| 0 <= j < i && (#[trigger] cs[j]).configures();
    lemma_configuring_programs(cs[j]);
}

/// The wait for the firmware ends: from the phase Handoff with `n` polls
/// left, the controller is told to run after at most `n + 1` steps,
/// whatever the firmware's semaphore reads.
pub proof fn lemma_handoff_ends(cs: Seq<XhciController>, i: int, n: u32)
    requires
        is_run(cs),
        0 <= i,
        i + n + 1 < cs.len(),
        cs[i].phase == BringUpPhase::Handoff(n),
    ensures
        exists|m: int| 1 <= m <= n + 1 && (#[trigger] cs[i + m]).phase == BringUpPhase::Starting(RESET_POLLS),
    decreases n,
{
    assert(cs[i + 1].phase == cs[i].step_phase());
    if cs[i + 1].phase == BringUpPhase::Starting(RESET_POLLS) {
        assert(cs[i + 1].phase == BringUpPhase::Starting(RESET_POLLS));
    } else {
        lemma_handoff_ends(cs, i + 1, (n - 1) as u32);
        let m = choose|m: int| 1 <= m <= n && (#[trigger] cs[i + 1 + m]).phase == BringUpPhase::Starting(RESET_POLLS);
        assert(cs[i + (m + 1)].phase == BringUpPhase::Starting(RESET_POLLS));
    }
}

} // verus!
