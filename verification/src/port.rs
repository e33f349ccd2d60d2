//! Root-hub ports: the image of each Port Register Set, the writes to
//! PORTSC, and the bounded wait of a port reset.

use vstd::prelude::*;
use crate::bits::{field_of32, with_field32, read_field32, write_field32, lemma_field_bound32};

verus! {

/// The Port Register Set of one root-hub port.
#[derive(Clone, Copy, Debug, PartialEq, Eq, Structural)]
pub struct Port {
    pub portsc: u32,
    pub portpmsc: u32,
    pub portli: u32,
    pub porthlpmc: u32,
}

/// The number of one-millisecond polls that a port reset may take.
pub const PORT_RESET_POLLS: u32 = 500;

/// The milliseconds a port is left alone after its reset has ended.
pub const PORT_RESET_RECOVERY_MS: u32 = 3;

/// `portsc` as it can be written back without side effect: Port Enabled
/// and the seven change bits, which a written 1 would clear, are 0.
pub open spec fn portsc_neutral(portsc: u32) -> u32 {
    with_field32(with_field32(portsc, 0x7F, 17, 0), 1, 1, 0)
}

/// The values that a port reset writes to PORTSC: Port Reset set, then Wake
/// on Connect Enable set as well.
pub open spec fn portsc_reset_writes(portsc: u32) -> Seq<u32> {
    let a = with_field32(portsc_neutral(portsc), 1, 4, 1);
    let b = with_field32(a, 1, 25, 1);
    seq![a, b]
}

/// The value that acknowledges the end of a port reset: Port Reset Change
/// written as 1, the other write-1-to-clear bits as 0.
pub open spec fn portsc_enable_write(portsc: u32) -> u32 {
    with_field32(portsc_neutral(portsc), 1, 21, 1)
}

/// The maximum packet size of the default control endpoint of a device that
/// runs at `speed`: 64 at High Speed (3), 512 at SuperSpeed (4), 8 otherwise.
pub open spec fn speed_max_packet_size(speed: u32) -> u32 {
    if speed == 3 {
        64
    } else if speed == 4 {
        512
    } else {
        8
    }
}

fn neutral(portsc: u32) -> (r: u32)
    ensures
        r == portsc_neutral(portsc),
{
    write_field32(write_field32(portsc, 0x7F, 17, 0), 1, 1, 0)
}

impl Port {
    /// A port whose registers read `portsc` and 0.
    pub fn new(portsc: u32) -> (r: Port)
        ensures
            r == (Port { portsc, portpmsc: 0, portli: 0, porthlpmc: 0 }),
    {
        Port { portsc, portpmsc: 0, portli: 0, porthlpmc: 0 }
    }

    /// Current Connect Status: a device is attached.
    pub fn connected(&self) -> (r: bool)
        ensures
            r == (field_of32(self.portsc, 1, 0) == 1),
    {
        read_field32(self.portsc, 1, 0) == 1
    }

    /// Port Enabled/Disabled.
    pub fn enabled(&self) -> (r: bool)
        ensures
            r == (field_of32(self.portsc, 1, 1) == 1),
    {
        read_field32(self.portsc, 1, 1) == 1
    }

    /// Port Reset: a reset is under way.
    pub fn resetting(&self) -> (r: bool)
        ensures
            r == (field_of32(self.portsc, 1, 4) == 1),
    {
        read_field32(self.portsc, 1, 4) == 1
    }

    /// Port Reset Change: a reset has ended.
    pub fn reset_changed(&self) -> (r: bool)
        ensures
            r == (field_of32(self.portsc, 1, 21) == 1),
    {
        read_field32(self.portsc, 1, 21) == 1
    }

    /// Starts a port reset and returns the values to write to PORTSC, in
    /// order. The image then shows Port Reset and Wake on Connect Enable
    /// set; the reset has ended once a fresh PORTSC shows Port Reset Change.
    pub fn reset(&mut self) -> (r: Vec<u32>)
        ensures
            r@ == portsc_reset_writes(old(self).portsc),
            *final(self) == (Port {
                portsc: with_field32(with_field32(old(self).portsc, 1, 4, 1), 1, 25, 1),
                ..*old(self)
            }),
    {
        let a: u32 = write_field32(neutral(self.portsc), 1, 4, 1);
        let b: u32 = write_field32(a, 1, 25, 1);
        self.portsc = write_field32(write_field32(self.portsc, 1, 4, 1), 1, 25, 1);
        let mut out: Vec<u32> = Vec::new();
        out.push(a);
        out.push(b);
        assert(out@ =~= portsc_reset_writes(old(self).portsc));
        out
    }

    /// Port Speed of the attached device.
    pub fn speed(&self) -> (r: u32)
        ensures
            r == field_of32(self.portsc, 0xF, 10),
            r <= 15,
    {
        proof {
            lemma_field_bound32(self.portsc, 0xF, 10);
        }
        read_field32(self.portsc, 0xF, 10)
    }

    /// The maximum packet size to assume for the default control endpoint,
    /// by the port's speed.
    pub fn max_packet_size(&self) -> (r: u32)
        ensures
            r == speed_max_packet_size(field_of32(self.portsc, 0xF, 10)),
    {
        let speed: u32 = self.speed();
        if speed == 3 {
            64
        } else if speed == 4 {
            512
        } else {
            8
        }
    }
}

/// One write to the PORTSC of the port with the zero-based index `index`.
#[derive(Clone, Copy, Debug, PartialEq, Eq, Structural)]
pub struct PortWrite {
    pub index: usize,
    pub value: u32,
}

/// The root-hub ports of a controller.
pub struct PortSet {
    pub max_ports: u32,
    pub addr: u64,
    pub index: u32,
    pub ports: Vec<Port>,
    pub writes: Vec<PortWrite>,
}

impl PortSet {
    /// There is an image for each port, and the cursor is not beyond them.
    pub open spec fn wf(&self) -> bool {
        &&& self.ports@.len() == self.max_ports
        &&& self.index <= self.max_ports
    }

    /// Everything but the list of writes is as in `old`, but for the image
    /// of the port `i`, which is `port`; `added` has been appended to the
    /// list.
    pub open spec fn updated(&self, old: &PortSet, i: int, port: Port, added: Seq<PortWrite>) -> bool {
        &&& self.max_ports == old.max_ports
        &&& self.addr == old.addr
        &&& self.index == old.index
        &&& self.ports@ == old.ports@.update(i, port)
        &&& self.writes@ == old.writes@ + added
    }

    /// The ports of a controller with `max_ports` ports whose Operational
    /// registers lie at `operational_addr`; the Port Register Sets start
    /// 0x400 above. Every image is zero until it is refreshed.
    pub fn new(max_ports: u32, operational_addr: u64) -> (r: PortSet)
        requires
            operational_addr + 0x400 <= u64::MAX,
        ensures
            r.wf(),
            r.max_ports == max_ports,
            r.addr == operational_addr + 0x400,
            r.index == 0,
            r.ports@ == Seq::new(
                max_ports as nat,
                |i: int| (Port { portsc: 0, portpmsc: 0, portli: 0, porthlpmc: 0 }),
            ),
            r.writes@ == Seq::<PortWrite>::empty(),
    {
        let mut ports: Vec<Port> = Vec::new();
        let mut i: u32 = 0;
        while i < max_ports
            invariant
                i <= max_ports,
                ports@.len() == i,
                forall|j: int|
                    0 <= j < i ==> ports@[j] == (Port { portsc: 0, portpmsc: 0, portli: 0, porthlpmc: 0 }),
            decreases max_ports - i,
        {
            ports.push(Port::new(0));
            i += 1;
        }
        let r = PortSet { max_ports, addr: operational_addr + 0x400, index: 0, ports, writes: Vec::new() };
        assert(r.ports@ =~= Seq::new(
            max_ports as nat,
            |i: int| (Port { portsc: 0, portpmsc: 0, portli: 0, porthlpmc: 0 }),
        ));
        r
    }

    /// The zero-based index of the port with the one-based number `id`.
    pub fn id_to_index(id: u8) -> (r: usize)
        requires
            id >= 1,
        ensures
            r == id - 1,
    {
        (id - 1) as usize
    }

    /// The image of the port with the number `port_id`.
    pub fn get_by_id(&self, port_id: u8) -> (r: &Port)
        requires
            self.wf(),
            1 <= port_id <= self.max_ports,
        ensures
            *r == self.ports@[port_id - 1],
    {
        &self.ports[Self::id_to_index(port_id)]
    }

    /// Takes a fresh PORTSC of the port with the number `port_id`.
    pub fn refresh(&mut self, port_id: u8, portsc: u32)
        requires
            old(self).wf(),
            1 <= port_id <= old(self).max_ports,
        ensures
            final(self).wf(),
            final(self).updated(
                old(self),
                port_id - 1,
                Port { portsc, ..old(self).ports@[port_id - 1] },
                Seq::empty(),
            ),
    {
        let i = Self::id_to_index(port_id);
        let mut p = self.ports[i];
        p.portsc = portsc;
        self.ports.set(i, p);
        assert(final(self).writes@ =~= old(self).writes@ + Seq::<PortWrite>::empty());
    }

    /// Acknowledges the end of the reset of the port `port_id`, which
    /// leaves the port enabled: writes Port Reset Change as 1.
    pub fn enable_port(&mut self, port_id: u8)
        requires
            old(self).wf(),
            1 <= port_id <= old(self).max_ports,
        ensures
            final(self).wf(),
            final(self).updated(
                old(self),
                port_id - 1,
                Port {
                    portsc: with_field32(old(self).ports@[port_id - 1].portsc, 1, 21, 0),
                    ..old(self).ports@[port_id - 1]
                },
                seq![
                    PortWrite {
                        index: (port_id - 1) as usize,
                        value: portsc_enable_write(old(self).ports@[port_id - 1].portsc),
                    },
                ],
            ),
    {
        let i = Self::id_to_index(port_id);
        let mut p = self.ports[i];
        let value: u32 = write_field32(neutral(p.portsc), 1, 21, 1);
        p.portsc = write_field32(p.portsc, 1, 21, 0);
        self.ports.set(i, p);
        self.writes.push(PortWrite { index: i, value });
        assert(final(self).writes@ =~= old(self).writes@ + seq![PortWrite { index: i, value }]);
    }

    /// Starts the reset of the port `port_id`.
    pub fn reset_port(&mut self, port_id: u8)
        requires
            old(self).wf(),
            1 <= port_id <= old(self).max_ports,
        ensures
            final(self).wf(),
            final(self).updated(
                old(self),
                port_id - 1,
                Port {
                    portsc: with_field32(
                        with_field32(old(self).ports@[port_id - 1].portsc, 1, 4, 1),
                        1,
                        25,
                        1,
                    ),
                    ..old(self).ports@[port_id - 1]
                },
                Seq::new(
                    2,
                    |k: int|
                        PortWrite {
                            index: (port_id - 1) as usize,
                            value: portsc_reset_writes(old(self).ports@[port_id - 1].portsc)[k],
                        },
                ),
            ),
    {
        let i = Self::id_to_index(port_id);
        let mut p = self.ports[i];
        let values = p.reset();
        self.ports.set(i, p);
        self.writes.push(PortWrite { index: i, value: values[0] });
        self.writes.push(PortWrite { index: i, value: values[1] });
        assert(final(self).writes@ =~= old(self).writes@ + Seq::new(
            2,
            |k: int|
                PortWrite {
                    index: (port_id - 1) as usize,
                    value: portsc_reset_writes(old(self).ports@[port_id - 1].portsc)[k],
                },
        ));
    }

    /// The number of the next port in the walk over all ports, from 1 up;
    /// `None` after the last.
    pub fn next(&mut self) -> (r: Option<u8>)
        requires
            old(self).wf(),
            old(self).max_ports <= 255,
        ensures
            final(self).wf(),
            final(self).max_ports == old(self).max_ports,
            final(self).addr == old(self).addr,
            final(self).ports == old(self).ports,
            final(self).writes == old(self).writes,
            old(self).index < old(self).max_ports ==> r == Some((old(self).index + 1) as u8)
                && final(self).index == old(self).index + 1,
            old(self).index >= old(self).max_ports ==> r.is_none() && final(self).index == old(
                self,
            ).index,
    {
        if self.index < self.max_ports {
            self.index += 1;
            return Some(self.index as u8);
        }
        None
    }

    /// Hands out the recorded writes, oldest first, and forgets them.
    pub fn take_writes(&mut self) -> (r: Vec<PortWrite>)
        ensures
            r@ == old(self).writes@,
            final(self).writes@ == Seq::<PortWrite>::empty(),
            final(self).max_ports == old(self).max_ports,
            final(self).addr == old(self).addr,
            final(self).index == old(self).index,
            final(self).ports == old(self).ports,
    {
        let mut out: Vec<PortWrite> = Vec::new();
        std::mem::swap(&mut out, &mut self.writes);
        out
    }
}

/// The milliseconds a port is given to report power.
pub const PORT_POWER_WAIT_MS: u32 = 20;

/// Where the full reset of one port stands. A number is the polls that
/// are left.
#[derive(Clone, Copy, Debug, PartialEq, Eq, Structural)]
pub enum PortResetPhase {
    /// Nothing has been done.
    Start,
    /// The port was told to switch its power on.
    Powering,
    /// The port was told to reset and has yet to report the end.
    Resetting(u32),
    /// The reset has ended, and the port is left alone for a while.
    Recovering,
    /// The port is enabled.
    Done,
    /// The port did not come up.
    Failed,
}

/// What a step of a port reset asks of the caller: the values to write to
/// PORTSC, in order, and the milliseconds to wait before PORTSC is read
/// anew for the next step.
#[derive(Debug)]
pub struct PortResetStep {
    pub phase: PortResetPhase,
    pub writes: Vec<u32>,
    pub wait_ms: u32,
}

/// The value that switches a port's power on.
pub open spec fn portsc_power_write(portsc: u32) -> u32 {
    with_field32(portsc_neutral(portsc), 1, 9, 1)
}

/// The value that clears the change bits for connect, enable, over-current,
/// reset and link state, with the port's power kept on.
pub open spec fn portsc_clear_changes(portsc: u32) -> u32 {
    with_field32(with_field32(portsc_power_write(portsc), 0x3, 17, 3), 0x7, 20, 7)
}

/// The value that starts the reset: Port Reset for a USB2 port, Warm Port
/// Reset for a USB3 port, with the port's power kept on.
pub open spec fn portsc_start_reset(portsc: u32, usb3: bool) -> u32 {
    with_field32(portsc_power_write(portsc), 1, if usb3 { 31u32 } else { 4u32 }, 1)
}

/// The phase after a step of the reset of a port whose PORTSC reads
/// `portsc`.
pub open spec fn reset_phase(portsc: u32, phase: PortResetPhase) -> PortResetPhase {
    match phase {
        PortResetPhase::Start => if field_of32(portsc, 1, 9) == 0 {
            PortResetPhase::Powering
        } else {
            PortResetPhase::Resetting(PORT_RESET_POLLS)
        },
        PortResetPhase::Powering => if field_of32(portsc, 1, 9) == 0 {
            PortResetPhase::Failed
        } else {
            PortResetPhase::Resetting(PORT_RESET_POLLS)
        },
        PortResetPhase::Resetting(n) => if field_of32(portsc, 1, 21) == 1 {
            PortResetPhase::Recovering
        } else if n == 0 {
            PortResetPhase::Failed
        } else {
            PortResetPhase::Resetting((n - 1) as u32)
        },
        PortResetPhase::Recovering => if field_of32(portsc, 1, 1) == 1 {
            PortResetPhase::Done
        } else {
            PortResetPhase::Failed
        },
        PortResetPhase::Done => PortResetPhase::Done,
        PortResetPhase::Failed => PortResetPhase::Failed,
    }
}

/// The values that the step writes to PORTSC.
pub open spec fn reset_writes(portsc: u32, phase: PortResetPhase, usb3: bool) -> Seq<u32> {
    match phase {
        PortResetPhase::Start => if field_of32(portsc, 1, 9) == 0 {
            seq![portsc_power_write(portsc)]
        } else {
            seq![portsc_clear_changes(portsc), portsc_start_reset(portsc, usb3)]
        },
        PortResetPhase::Powering => if field_of32(portsc, 1, 9) == 0 {
            Seq::empty()
        } else {
            seq![portsc_clear_changes(portsc), portsc_start_reset(portsc, usb3)]
        },
        PortResetPhase::Recovering => if field_of32(portsc, 1, 1) == 1 {
            seq![portsc_clear_changes(portsc)]
        } else {
            Seq::empty()
        },
        _ => Seq::empty(),
    }
}

/// The milliseconds to wait after the step.
pub open spec fn reset_wait(portsc: u32, phase: PortResetPhase) -> u32 {
    match reset_phase(portsc, phase) {
        PortResetPhase::Powering => PORT_POWER_WAIT_MS,
        PortResetPhase::Resetting(n) => 1,
        PortResetPhase::Recovering => PORT_RESET_RECOVERY_MS,
        _ => 0,
    }
}

fn clear_changes(portsc: u32) -> (r: u32)
    ensures
        r == portsc_clear_changes(portsc),
{
    write_field32(write_field32(write_field32(neutral(portsc), 1, 9, 1), 0x3, 17, 3), 0x7, 20, 7)
}

fn start_reset(portsc: u32, usb3: bool) -> (r: u32)
    ensures
        r == portsc_start_reset(portsc, usb3),
{
    let bit: u32 = if usb3 { 31 } else { 4 };
    write_field32(write_field32(neutral(portsc), 1, 9, 1), 1, bit, 1)
}

impl Port {
    /// Takes the full reset of the port one step further, from a fresh
    /// PORTSC: switches the power on if it is off and gives the port 20 ms
    /// to report it; clears the change bits and starts the reset; polls for
    /// Port Reset Change once a millisecond, 500 times at most; leaves the
    /// port alone for 3 ms; and ends well if the port is then enabled.
    pub fn reset_step(&self, phase: PortResetPhase, usb3: bool) -> (r: PortResetStep)
        ensures
            r.phase == reset_phase(self.portsc, phase),
            r.writes@ == reset_writes(self.portsc, phase, usb3),
            r.wait_ms == reset_wait(self.portsc, phase),
    {
        let mut writes: Vec<u32> = Vec::new();
        let powered = read_field32(self.portsc, 1, 9) != 0;
        let next = match phase {
            PortResetPhase::Start => {
                if !powered {
                    writes.push(write_field32(neutral(self.portsc), 1, 9, 1));
                    PortResetPhase::Powering
                } else {
                    writes.push(clear_changes(self.portsc));
                    writes.push(start_reset(self.portsc, usb3));
                    PortResetPhase::Resetting(PORT_RESET_POLLS)
                }
            },
            PortResetPhase::Powering => {
                if !powered {
                    PortResetPhase::Failed
                } else {
                    writes.push(clear_changes(self.portsc));
                    writes.push(start_reset(self.portsc, usb3));
                    PortResetPhase::Resetting(PORT_RESET_POLLS)
                }
            },
            PortResetPhase::Resetting(n) => {
                if self.reset_changed() {
                    PortResetPhase::Recovering
                } else if n == 0 {
                    PortResetPhase::Failed
                } else {
                    PortResetPhase::Resetting(n - 1)
                }
            },
            PortResetPhase::Recovering => {
                if self.enabled() {
                    writes.push(clear_changes(self.portsc));
                    PortResetPhase::Done
                } else {
                    PortResetPhase::Failed
                }
            },
            PortResetPhase::Done => PortResetPhase::Done,
            PortResetPhase::Failed => PortResetPhase::Failed,
        };
        let wait_ms: u32 = match next {
            PortResetPhase::Powering => PORT_POWER_WAIT_MS,
            PortResetPhase::Resetting(_) => 1,
            PortResetPhase::Recovering => PORT_RESET_RECOVERY_MS,
            _ => 0,
        };
        assert(writes@ =~= reset_writes(self.portsc, phase, usb3));
        PortResetStep { phase: next, writes, wait_ms }
    }
}

/// The wait for the end of a port reset is bounded: from the phase
/// Resetting with `n` polls left, the reset is over or given up after at
/// most `n + 1` steps, whatever PORTSC reads.
pub proof fn lemma_port_reset_ends(reads: Seq<u32>, phases: Seq<PortResetPhase>, i: int, n: u32)
    requires
        phases.len() == reads.len() + 1,
        forall|k: int| 0 <= k < reads.len() ==> (#[trigger] phases[k + 1]) == reset_phase(reads[k], phases[k]),
        0 <= i,
        i + n + 1 < phases.len(),
        phases[i] == PortResetPhase::Resetting(n),
    ensures
        exists|m: int| 1 <= m <= n + 1 && !((#[trigger] phases[i + m]) is Resetting),
    decreases n,
{
    assert(phases[i + 1] == reset_phase(reads[i], phases[i]));
    if phases[i + 1] is Resetting {
        lemma_port_reset_ends(reads, phases, i + 1, (n - 1) as u32);
        let m = choose|m: int| 1 <= m <= n && !((#[trigger] phases[i + 1 + m]) is Resetting);
        assert(!(phases[i + (m + 1)] is Resetting));
    } else {
        assert(!(phases[i + 1] is Resetting));
    }
}

/// A write to PORTSC never clears a status bit by accident: Port Enabled
/// and the change bits are written as 0 unless the write is meant to clear
/// them, and every other bit is written as it was read.
pub proof fn lemma_portsc_values(portsc: u32)
    by (bit_vector)
    ensures
        portsc_neutral(portsc) == portsc & !0x00FE_0002u32,
        with_field32(portsc_neutral(portsc), 1, 4, 1) == (portsc & !0x00FE_0002u32) | 0x10,
        with_field32(with_field32(portsc_neutral(portsc), 1, 4, 1), 1, 25, 1) == (portsc & !0x00FE_0002u32)
            | 0x0200_0010,
        portsc_enable_write(portsc) == (portsc & !0x00FE_0002u32) | 0x0020_0000,
        portsc_power_write(portsc) == (portsc & !0x00FE_0002u32) | 0x200,
        portsc_clear_changes(portsc) == (portsc & !0x00FE_0002u32) | 0x0076_0200,
        portsc_start_reset(portsc, false) == (portsc & !0x00FE_0002u32) | 0x210,
        portsc_start_reset(portsc, true) == (portsc & !0x00FE_0002u32) | 0x8000_0200,
{
}

/// The table of maximum packet sizes by speed: 64 for 3, 512 for 4, and 8
/// for every other speed.
pub proof fn lemma_speed_table(speed: u32)
    ensures
        speed == 3 ==> speed_max_packet_size(speed) == 64,
        speed == 4 ==> speed_max_packet_size(speed) == 512,
        speed != 3 && speed != 4 ==> speed_max_packet_size(speed) == 8,
{
}

} // verus!
