//! The Extended Capabilities of a controller: the walk over the list, the
//! Supported Protocol capabilities, and the pairing of USB2 and USB3 ports
//! that share a receptacle.

use vstd::prelude::*;
use crate::bits::{field_of32, read_field32, lemma_field_bound32};

verus! {

/// The ID of the USB Legacy Support capability.
pub const XECP_ID_LEGACY: u8 = 1;

/// The ID of a Supported Protocol capability.
pub const XECP_ID_PROTOCOL: u8 = 2;

/// The flag value of a USB2 port.
pub const PROTO_USB2: u8 = 0;

/// The flag of a USB3 port.
pub const PROTO_USB3: u8 = 1;

/// The mark of a protocol that is High Speed only.
pub const PROTO_HSO: u8 = 2;

/// The flag of a port that has a partner of the other protocol.
pub const PROTO_HAS_PAIR: u8 = 4;

/// The flag of a port that is driven.
pub const PROTO_ACTIVE: u8 = 8;

/// One Extended Capability: where it lies, in 32-bit words from the MMIO
/// base, and its first word.
#[derive(Clone, Copy, Debug, PartialEq, Eq, Structural)]
pub struct Xecp {
    pub offset: usize,
    pub dw0: u32,
}

/// The capabilities of the list that starts at the word `offset` of
/// `space`, the register space as 32-bit words: each capability names its
/// successor by the distance to it, and the distance 0 ends the list, as
/// does a successor beyond the space. The offset 0 stands for an empty list.
pub open spec fn capabilities(space: Seq<u32>, offset: int) -> Seq<Xecp>
    decreases space.len() - offset,
{
    if offset <= 0 || offset >= space.len() {
        Seq::empty()
    } else {
        let here = Xecp { offset: offset as usize, dw0: space[offset] };
        if successor(space, offset) <= offset || successor(space, offset) >= space.len() {
            Seq::empty().push(here)
        } else {
            Seq::empty().push(here) + capabilities(space, successor(space, offset))
        }
    }
}

/// The word at which the capability after the one at `offset` lies.
pub open spec fn successor(space: Seq<u32>, offset: int) -> int {
    offset + field_of32(space[offset], 0xFF, 8)
}

/// Walks the list of Extended Capabilities that starts at the word
/// `first` of `space`.
pub fn parse(space: &Vec<u32>, first: u32) -> (r: Vec<Xecp>)
    ensures
        r@ == capabilities(space@, first as int),
{
    let mut out: Vec<Xecp> = Vec::new();
    let mut offset: usize = first as usize;
    if offset == 0 {
        return out;
    }
    while offset < space.len()
        invariant
            offset > 0,
            capabilities(space@, first as int) == out@ + capabilities(space@, offset as int),
        decreases space@.len() - offset,
    {
        let dw0: u32 = space[offset];
        let next: u32 = read_field32(dw0, 0xFF, 8);
        proof {
            lemma_field_bound32(dw0, 0xFF, 8);
        }
        out.push(Xecp { offset, dw0 });
        assert(successor(space@, offset as int) == offset + next);
        if next == 0 || next as usize >= space.len() - offset {
            assert(capabilities(space@, offset as int) =~= Seq::empty().push(Xecp { offset, dw0 }));
            assert(capabilities(space@, first as int) =~= out@);
            return out;
        }
        assert(capabilities(space@, offset as int) =~= Seq::empty().push(Xecp { offset, dw0 }) + capabilities(
            space@,
            offset + next,
        ));
        assert(capabilities(space@, first as int) =~= out@ + capabilities(space@, offset + next));
        offset = offset + next as usize;
    }
    assert(capabilities(space@, first as int) =~= out@);
    out
}

impl Xecp {
    /// The capability's ID.
    pub fn id(&self) -> (r: u8)
        ensures
            r == field_of32(self.dw0, 0xFF, 0),
    {
        proof {
            lemma_field_bound32(self.dw0, 0xFF, 0);
        }
        read_field32(self.dw0, 0xFF, 0) as u8
    }

    /// The distance to the next capability in 32-bit words; 0 at the end.
    pub fn next(&self) -> (r: u8)
        ensures
            r == field_of32(self.dw0, 0xFF, 8),
    {
        proof {
            lemma_field_bound32(self.dw0, 0xFF, 8);
        }
        read_field32(self.dw0, 0xFF, 8) as u8
    }
}

/// The first capability of `caps` from `from` on that has the ID `id`.
pub open spec fn first_with_id(caps: Seq<Xecp>, id: u8, from: int) -> Option<Xecp>
    decreases caps.len() - from,
{
    if from < 0 || from >= caps.len() {
        None
    } else if field_of32(caps[from].dw0, 0xFF, 0) == id {
        Some(caps[from])
    } else {
        first_with_id(caps, id, from + 1)
    }
}

/// The USB Legacy Support capability, if the controller has one: the
/// first capability with the ID 1.
pub fn legacy_support(caps: &Vec<Xecp>) -> (r: Option<Xecp>)
    ensures
        r == first_with_id(caps@, XECP_ID_LEGACY, 0),
{
    let mut i: usize = 0;
    while i < caps.len()
        invariant
            i <= caps@.len(),
            first_with_id(caps@, XECP_ID_LEGACY, 0) == first_with_id(caps@, XECP_ID_LEGACY, i as int),
        decreases caps@.len() - i,
    {
        if caps[i].id() == XECP_ID_LEGACY {
            return Some(caps[i]);
        }
        i += 1;
    }
    None
}

/// What a Supported Protocol capability says: the protocol's revision,
/// the one-based number of its first port, the number of its ports, and the
/// Protocol Defined field.
#[derive(Clone, Copy, Debug, PartialEq, Eq, Structural)]
pub struct ProtocolCapability {
    pub major: u8,
    pub minor: u8,
    pub port_offset: u8,
    pub port_count: u8,
    pub protocol_defined: u16,
}

impl ProtocolCapability {
    /// The Supported Protocol capability with the first word `dw0` and the
    /// third word `dw2`.
    pub open spec fn spec_decode(dw0: u32, dw2: u32) -> ProtocolCapability {
        ProtocolCapability {
            major: field_of32(dw0, 0xFF, 24) as u8,
            minor: field_of32(dw0, 0xFF, 16) as u8,
            port_offset: field_of32(dw2, 0xFF, 0) as u8,
            port_count: field_of32(dw2, 0xFF, 8) as u8,
            protocol_defined: field_of32(dw2, 0xFFF, 16) as u16,
        }
    }

    /// Reads a Supported Protocol capability from its first and third word.
    pub fn decode(dw0: u32, dw2: u32) -> (r: ProtocolCapability)
        ensures
            r == ProtocolCapability::spec_decode(dw0, dw2),
    {
        proof {
            lemma_field_bound32(dw0, 0xFF, 24);
            lemma_field_bound32(dw0, 0xFF, 16);
            lemma_field_bound32(dw2, 0xFF, 0);
            lemma_field_bound32(dw2, 0xFF, 8);
            lemma_field_bound32(dw2, 0xFFF, 16);
        }
        ProtocolCapability {
            major: read_field32(dw0, 0xFF, 24) as u8,
            minor: read_field32(dw0, 0xFF, 16) as u8,
            port_offset: read_field32(dw2, 0xFF, 0) as u8,
            port_count: read_field32(dw2, 0xFF, 8) as u8,
            protocol_defined: read_field32(dw2, 0xFFF, 16) as u16,
        }
    }
}

/// The Supported Protocol capabilities among the first `upto` of `caps`,
/// in their order; one whose third word lies beyond the space is left out.
pub open spec fn protocols_of(space: Seq<u32>, caps: Seq<Xecp>, upto: int) -> Seq<ProtocolCapability>
    decreases upto,
{
    if upto <= 0 {
        Seq::empty()
    } else {
        let rest = protocols_of(space, caps, upto - 1);
        let c = caps[upto - 1];
        if field_of32(c.dw0, 0xFF, 0) == XECP_ID_PROTOCOL && c.offset + 2 < space.len() {
            rest.push(ProtocolCapability::spec_decode(c.dw0, space[c.offset + 2]))
        } else {
            rest
        }
    }
}

/// The Supported Protocol capabilities among `caps`.
pub fn protocols(space: &Vec<u32>, caps: &Vec<Xecp>) -> (r: Vec<ProtocolCapability>)
    ensures
        r@ == protocols_of(space@, caps@, caps@.len() as int),
{
    let mut out: Vec<ProtocolCapability> = Vec::new();
    let mut i: usize = 0;
    while i < caps.len()
        invariant
            i <= caps@.len(),
            out@ == protocols_of(space@, caps@, i as int),
        decreases caps@.len() - i,
    {
        let c = caps[i];
        if c.id() == XECP_ID_PROTOCOL && c.offset < space.len() && space.len() - c.offset > 2 {
            out.push(ProtocolCapability::decode(c.dw0, space[c.offset + 2]));
        }
        i += 1;
    }
    out
}

/// What is known of a root-hub port from the Supported Protocol
/// capabilities: its protocol and pairing flags, the index of the port of
/// the other protocol that shares its receptacle, and its position among
/// the ports of its protocol.
#[derive(Clone, Copy, Debug, PartialEq, Eq, Structural)]
pub struct PortPairing {
    pub flags: u8,
    pub other_port_num: u8,
    pub offset: u8,
}

/// Whether `protocols`, taken in order after `usb2` USB2 ports and `usb3`
/// USB3 ports were counted, can be laid over `max_ports` ports: each USB2
/// or USB3 protocol names a first port of 1 or more, its ports lie among
/// the controller's, and the ports of either protocol number 255 at most.
pub open spec fn protocols_fit(protocols: Seq<ProtocolCapability>, max_ports: int, usb2: int, usb3: int) -> bool
    decreases protocols.len(),
{
    if protocols.len() == 0 {
        true
    } else {
        let x = protocols.first();
        if x.major == 2 {
            &&& x.port_offset >= 1
            &&& x.port_offset - 1 + x.port_count <= max_ports
            &&& usb2 + x.port_count <= 255
            &&& protocols_fit(protocols.drop_first(), max_ports, usb2 + x.port_count, usb3)
        } else if x.major == 3 {
            &&& x.port_offset >= 1
            &&& x.port_offset - 1 + x.port_count <= max_ports
            &&& usb3 + x.port_count <= 255
            &&& protocols_fit(protocols.drop_first(), max_ports, usb2, usb3 + x.port_count)
        } else {
            protocols_fit(protocols.drop_first(), max_ports, usb2, usb3)
        }
    }
}

/// The position that the port `count` ports into a protocol gets, when
/// `base` ports of that protocol were counted before: their sum, which for
/// a USB2 protocol that is High Speed only also carries the High Speed
/// Only mark.
pub open spec fn position(x: ProtocolCapability, base: int, count: int) -> u8 {
    if x.major == 2 && x.protocol_defined & 2 > 0 {
        ((base + count) as u8) | PROTO_HSO
    } else {
        (base + count) as u8
    }
}

/// `ports` with the ports of the protocol `x` entered, of which `base`
/// ports were counted before.
pub open spec fn placed(ports: Seq<PortPairing>, x: ProtocolCapability, base: int) -> Seq<PortPairing> {
    Seq::new(
        ports.len(),
        |k: int|
            if x.port_offset - 1 <= k < x.port_offset - 1 + x.port_count {
                PortPairing {
                    flags: if x.major == 3 {
                        PROTO_USB3
                    } else {
                        PROTO_USB2
                    },
                    other_port_num: 0,
                    offset: position(x, base, k - (x.port_offset - 1)),
                }
            } else {
                ports[k]
            },
    )
}

/// `ports` after the ports of each USB2 and USB3 protocol of `protocols`
/// were entered, in order; a later protocol overrules an earlier one.
pub open spec fn assigned(ports: Seq<PortPairing>, protocols: Seq<ProtocolCapability>, usb2: int, usb3: int) -> Seq<
    PortPairing,
>
    decreases protocols.len(),
{
    if protocols.len() == 0 {
        ports
    } else {
        let x = protocols.first();
        if x.major == 2 {
            assigned(placed(ports, x, usb2), protocols.drop_first(), usb2 + x.port_count, usb3)
        } else if x.major == 3 {
            assigned(placed(ports, x, usb3), protocols.drop_first(), usb2, usb3 + x.port_count)
        } else {
            assigned(ports, protocols.drop_first(), usb2, usb3)
        }
    }
}

/// Whether the ports `p` and `q` share a receptacle: they have the same
/// position and differ in protocol.
pub open spec fn partners(ports: Seq<PortPairing>, p: int, q: int) -> bool {
    ports[p].offset == ports[q].offset && (ports[p].flags & 1) != (ports[q].flags & 1)
}

/// The highest port below `upto` that is a partner of `p`.
pub open spec fn last_partner(ports: Seq<PortPairing>, p: int, upto: int) -> Option<int>
    decreases upto,
{
    if upto <= 0 {
        None
    } else if partners(ports, p, upto - 1) {
        Some(upto - 1)
    } else {
        last_partner(ports, p, upto - 1)
    }
}

/// The port `p` of `ports` with its partner entered, if it has one, and
/// marked as driven if it is a USB3 port or a USB2 port with a partner.
pub open spec fn paired(ports: Seq<PortPairing>, p: int) -> PortPairing {
    let with_pair = match last_partner(ports, p, ports.len() as int) {
        Some(q) => PortPairing {
            flags: ports[p].flags | PROTO_HAS_PAIR,
            other_port_num: q as u8,
            offset: ports[p].offset,
        },
        None => ports[p],
    };
    if with_pair.flags & 1 == 1 || (with_pair.flags & 1 == 0 && with_pair.flags & PROTO_HAS_PAIR
        == PROTO_HAS_PAIR) {
        PortPairing { flags: with_pair.flags | PROTO_ACTIVE, ..with_pair }
    } else {
        with_pair
    }
}

/// The pairing of `max_ports` ports under `protocols`.
pub open spec fn pairing(max_ports: int, protocols: Seq<ProtocolCapability>) -> Seq<PortPairing> {
    let ports = assigned(
        Seq::new(max_ports as nat, |k: int| PortPairing { flags: 0, other_port_num: 0, offset: 0 }),
        protocols,
        0,
        0,
    );
    Seq::new(max_ports as nat, |p: int| paired(ports, p))
}

/// Whether `protocols` can be laid over `max_ports` ports.
pub fn check_protocols(max_ports: u32, protocols: &Vec<ProtocolCapability>) -> (r: bool)
    ensures
        r == protocols_fit(protocols@, max_ports as int, 0, 0),
{
    let mut usb2: u32 = 0;
    let mut usb3: u32 = 0;
    let mut i: usize = 0;
    assert(protocols@.subrange(0, protocols@.len() as int) =~= protocols@);
    while i < protocols.len()
        invariant
            i <= protocols@.len(),
            usb2 <= 255,
            usb3 <= 255,
            protocols_fit(protocols@, max_ports as int, 0, 0) == protocols_fit(
                protocols@.subrange(i as int, protocols@.len() as int),
                max_ports as int,
                usb2 as int,
                usb3 as int,
            ),
        decreases protocols@.len() - i,
    {
        let x = protocols[i];
        proof {
            let rest = protocols@.subrange(i as int, protocols@.len() as int);
            assert(rest.first() == x);
            assert(rest.drop_first() =~= protocols@.subrange(i + 1, protocols@.len() as int));
        }
        if x.major == 2 || x.major == 3 {
            if x.port_offset < 1 || (x.port_offset as u32 - 1) + x.port_count as u32 > max_ports {
                return false;
            }
            if x.major == 2 {
                if usb2 + x.port_count as u32 > 255 {
                    return false;
                }
                usb2 += x.port_count as u32;
            } else {
                if usb3 + x.port_count as u32 > 255 {
                    return false;
                }
                usb3 += x.port_count as u32;
            }
        }
        i += 1;
    }
    assert(protocols@.subrange(i as int, protocols@.len() as int).len() == 0);
    true
}

/// Enters the ports of the protocol `x` into `ports`.
fn place(ports: &mut Vec<PortPairing>, x: &ProtocolCapability, base: u8)
    requires
        x.port_offset >= 1,
        x.port_offset - 1 + x.port_count <= old(ports)@.len(),
        base + x.port_count <= 255,
    ensures
        final(ports)@ == placed(old(ports)@, *x, base as int),
{
    let first: usize = (x.port_offset - 1) as usize;
    let flags: u8 = if x.major == 3 {
        PROTO_USB3
    } else {
        PROTO_USB2
    };
    let mut i: u8 = 0;
    while i < x.port_count
        invariant
            i <= x.port_count,
            first == x.port_offset - 1,
            first + x.port_count <= ports@.len(),
            base + x.port_count <= 255,
            flags == if x.major == 3 {
                PROTO_USB3
            } else {
                PROTO_USB2
            },
            ports@.len() == old(ports)@.len(),
            forall|k: int|
                0 <= k < ports@.len() ==> ports@[k] == if first <= k < first + i {
                    placed(old(ports)@, *x, base as int)[k]
                } else {
                    old(ports)@[k]
                },
        decreases x.port_count - i,
    {
        let mut offset: u8 = base + i;
        if x.major == 2 && x.protocol_defined & 2 > 0 {
            offset = offset | PROTO_HSO;
        }
        ports.set(first + i as usize, PortPairing { flags, other_port_num: 0, offset });
        i += 1;
    }
    assert(ports@ =~= placed(old(ports)@, *x, base as int));
}

/// Pairs the USB2 and USB3 ports of a controller with `max_ports` ports
/// by the Supported Protocol capabilities `protocols`.
pub fn pair_ports(max_ports: u32, protocols: &Vec<ProtocolCapability>) -> (r: Vec<PortPairing>)
    requires
        max_ports <= 255,
        protocols_fit(protocols@, max_ports as int, 0, 0),
    ensures
        r@ == pairing(max_ports as int, protocols@),
{
    let mut ports: Vec<PortPairing> = Vec::new();
    let mut k: u32 = 0;
    while k < max_ports
        invariant
            k <= max_ports,
            ports@.len() == k,
            forall|j: int| 0 <= j < k ==> ports@[j] == (PortPairing { flags: 0, other_port_num: 0, offset: 0 }),
        decreases max_ports - k,
    {
        ports.push(PortPairing { flags: 0, other_port_num: 0, offset: 0 });
        k += 1;
    }
    let ghost blank = Seq::new(
        max_ports as nat,
        |k: int| PortPairing { flags: 0, other_port_num: 0, offset: 0 },
    );
    assert(ports@ =~= blank);
    let mut ports_usb2: u8 = 0;
    let mut ports_usb3: u8 = 0;
    let mut i: usize = 0;
    assert(protocols@.subrange(0, protocols@.len() as int) =~= protocols@);
    while i < protocols.len()
        invariant
            i <= protocols@.len(),
            ports@.len() == max_ports,
            protocols_fit(
                protocols@.subrange(i as int, protocols@.len() as int),
                max_ports as int,
                ports_usb2 as int,
                ports_usb3 as int,
            ),
            assigned(blank, protocols@, 0, 0) == assigned(
                ports@,
                protocols@.subrange(i as int, protocols@.len() as int),
                ports_usb2 as int,
                ports_usb3 as int,
            ),
        decreases protocols@.len() - i,
    {
        let x = protocols[i];
        proof {
            let rest = protocols@.subrange(i as int, protocols@.len() as int);
            assert(rest.first() == x);
            assert(rest.drop_first() =~= protocols@.subrange(i + 1, protocols@.len() as int));
        }
        if x.major == 2 {
            place(&mut ports, &x, ports_usb2);
            ports_usb2 += x.port_count;
        } else if x.major == 3 {
            place(&mut ports, &x, ports_usb3);
            ports_usb3 += x.port_count;
        }
        i += 1;
    }
    assert(protocols@.subrange(i as int, protocols@.len() as int).len() == 0);
    assert(ports@ == assigned(blank, protocols@, 0, 0));
    let mut out: Vec<PortPairing> = Vec::new();
    let n: usize = ports.len();
    let mut p: usize = 0;
    while p < n
        invariant
            p <= n,
            n == ports@.len(),
            n == max_ports,
            n <= 255,
            out@.len() == p,
            forall|j: int| 0 <= j < p ==> out@[j] == paired(ports@, j),
        decreases n - p,
    {
        let mut found: Option<u8> = None;
        let mut q: usize = 0;
        while q < n
            invariant
                q <= n,
                p < n,
                n == ports@.len(),
                n <= 255,
                match found {
                    Some(f) => last_partner(ports@, p as int, q as int) == Some(f as int),
                    None => last_partner(ports@, p as int, q as int).is_none(),
                },
            decreases n - q,
        {
            if ports[p].offset == ports[q].offset && (ports[p].flags & 1) != (ports[q].flags & 1) {
                found = Some(q as u8);
            }
            q += 1;
        }
        let mut port = ports[p];
        match found {
            Some(f) => {
                port.flags = port.flags | PROTO_HAS_PAIR;
                port.other_port_num = f;
            },
            None => {},
        }
        if port.flags & 1 == 1 || (port.flags & 1 == 0 && port.flags & PROTO_HAS_PAIR == PROTO_HAS_PAIR) {
            port.flags = port.flags | PROTO_ACTIVE;
        }
        out.push(port);
        p += 1;
    }
    assert(out@ =~= pairing(max_ports as int, protocols@));
    out
}

/// Whether the port `p` has a partner among `ports`.
pub open spec fn has_partner(ports: Seq<PortPairing>, p: int) -> bool {
    ports[p].flags & PROTO_HAS_PAIR == PROTO_HAS_PAIR && (ports[p].other_port_num as int) < ports.len()
}

/// `ports` after the reset of the port `failed` did not succeed: the port
/// is driven no more, and its partner, if it has one, is driven in its
/// place.
pub open spec fn fallen_back(ports: Seq<PortPairing>, failed: int) -> Seq<PortPairing> {
    let dropped = ports.update(
        failed,
        PortPairing { flags: ports[failed].flags & !PROTO_ACTIVE, ..ports[failed] },
    );
    if has_partner(ports, failed) {
        let other = ports[failed].other_port_num as int;
        dropped.update(other, PortPairing { flags: dropped[other].flags | PROTO_ACTIVE, ..dropped[other] })
    } else {
        dropped
    }
}

/// Falls back to the other port of a receptacle after the reset of the
/// port `failed` did not succeed, and returns the index of the port that is
/// driven in its place, if there is one.
pub fn fall_back(ports: &mut Vec<PortPairing>, failed: usize) -> (r: Option<usize>)
    requires
        failed < old(ports)@.len(),
    ensures
        final(ports)@ == fallen_back(old(ports)@, failed as int),
        r == if has_partner(old(ports)@, failed as int) {
            Some(old(ports)@[failed as int].other_port_num as usize)
        } else {
            None
        },
{
    let mut port = ports[failed];
    let paired = port.flags & PROTO_HAS_PAIR == PROTO_HAS_PAIR && (port.other_port_num as usize) < ports.len();
    let other = port.other_port_num as usize;
    port.flags = port.flags & !PROTO_ACTIVE;
    ports.set(failed, port);
    if paired {
        let mut partner = ports[other];
        partner.flags = partner.flags | PROTO_ACTIVE;
        ports.set(other, partner);
        Some(other)
    } else {
        None
    }
}

} // verus!
