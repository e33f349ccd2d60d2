//! USB standard descriptors and the tolerant parser of a descriptor stream,
//! as a device returns it for GET_DESCRIPTOR(Configuration).

use vstd::prelude::*;

verus! {

/// bDescriptorType of a Configuration descriptor.
pub const DESCRIPTOR_CONFIGURATION: u8 = 2;

/// bDescriptorType of an Interface descriptor.
pub const DESCRIPTOR_INTERFACE: u8 = 4;

/// bDescriptorType of an Endpoint descriptor.
pub const DESCRIPTOR_ENDPOINT: u8 = 5;

/// bDescriptorType of a HID descriptor.
pub const DESCRIPTOR_HID: u8 = 33;

/// The 16-bit little-endian number in the bytes `at` and `at + 1`.
pub open spec fn le16(data: Seq<u8>, at: int) -> u16 {
    (data[at] as u16) | ((data[at + 1] as u16) << 8)
}

fn read_le16(data: &Vec<u8>, at: usize) -> (r: u16)
    requires
        at + 1 < data@.len(),
        data@.len() <= usize::MAX,
    ensures
        r == le16(data@, at as int),
{
    (data[at] as u16) | ((data[at + 1] as u16) << 8)
}

/// The Device descriptor: 18 bytes.
#[derive(Clone, Copy, Debug, PartialEq, Eq, Structural)]
pub struct DeviceDescriptor {
    pub b_length: u8,
    pub b_descriptor_type: u8,
    pub bcd_usb: u16,
    pub b_device_class: u8,
    pub b_device_sub_class: u8,
    pub b_device_protocol: u8,
    pub b_max_packet_size0: u8,
    pub id_vendor: u16,
    pub id_product: u16,
    pub bcd_device: u16,
    pub i_manufacturer: u8,
    pub i_product: u8,
    pub i_serial_number: u8,
    pub b_num_configurations: u8,
}

impl DeviceDescriptor {
    /// The number of bytes of a Device descriptor.
    pub const SIZE: usize = 18;

    /// The Device descriptor in the 18 bytes from `at` on.
    pub open spec fn spec_parse(data: Seq<u8>, at: int) -> DeviceDescriptor {
        DeviceDescriptor {
            b_length: data[at],
            b_descriptor_type: data[at + 1],
            bcd_usb: le16(data, at + 2),
            b_device_class: data[at + 4],
            b_device_sub_class: data[at + 5],
            b_device_protocol: data[at + 6],
            b_max_packet_size0: data[at + 7],
            id_vendor: le16(data, at + 8),
            id_product: le16(data, at + 10),
            bcd_device: le16(data, at + 12),
            i_manufacturer: data[at + 14],
            i_product: data[at + 15],
            i_serial_number: data[at + 16],
            b_num_configurations: data[at + 17],
        }
    }

    /// Reads the Device descriptor at the start of `data`; `None` if `data`
    /// is shorter than 18 bytes.
    pub fn parse(data: &Vec<u8>) -> (r: Option<DeviceDescriptor>)
        ensures
            r == if data@.len() >= 18 {
                Some(DeviceDescriptor::spec_parse(data@, 0))
            } else {
                None
            },
    {
        if data.len() < 18 {
            return None;
        }
        Some(
            DeviceDescriptor {
                b_length: data[0],
                b_descriptor_type: data[1],
                bcd_usb: read_le16(data, 2),
                b_device_class: data[4],
                b_device_sub_class: data[5],
                b_device_protocol: data[6],
                b_max_packet_size0: data[7],
                id_vendor: read_le16(data, 8),
                id_product: read_le16(data, 10),
                bcd_device: read_le16(data, 12),
                i_manufacturer: data[14],
                i_product: data[15],
                i_serial_number: data[16],
                b_num_configurations: data[17],
            },
        )
    }
}

/// The Configuration descriptor: 9 bytes.
#[derive(Clone, Copy, Debug, PartialEq, Eq, Structural)]
pub struct ConfigurationDescriptor {
    pub b_length: u8,
    pub b_descriptor_type: u8,
    pub w_total_length: u16,
    pub b_num_interfaces: u8,
    pub b_configuration_value: u8,
    pub i_configuration: u8,
    pub bm_attributes: u8,
    pub b_max_power: u8,
}

impl ConfigurationDescriptor {
    /// The Configuration descriptor in the 9 bytes from `at` on.
    pub open spec fn spec_parse(data: Seq<u8>, at: int) -> ConfigurationDescriptor {
        ConfigurationDescriptor {
            b_length: data[at],
            b_descriptor_type: data[at + 1],
            w_total_length: le16(data, at + 2),
            b_num_interfaces: data[at + 4],
            b_configuration_value: data[at + 5],
            i_configuration: data[at + 6],
            bm_attributes: data[at + 7],
            b_max_power: data[at + 8],
        }
    }

    fn parse_at(data: &Vec<u8>, at: usize) -> (r: ConfigurationDescriptor)
        requires
            at + 9 <= data@.len(),
            data@.len() <= usize::MAX,
        ensures
            r == ConfigurationDescriptor::spec_parse(data@, at as int),
    {
        ConfigurationDescriptor {
            b_length: data[at],
            b_descriptor_type: data[at + 1],
            w_total_length: read_le16(data, at + 2),
            b_num_interfaces: data[at + 4],
            b_configuration_value: data[at + 5],
            i_configuration: data[at + 6],
            bm_attributes: data[at + 7],
            b_max_power: data[at + 8],
        }
    }
}

/// The Interface descriptor: 9 bytes.
#[derive(Clone, Copy, Debug, PartialEq, Eq, Structural)]
pub struct InterfaceDescriptor {
    pub b_length: u8,
    pub b_descriptor_type: u8,
    pub b_interface_number: u8,
    pub b_alternate_setting: u8,
    pub b_num_endpoints: u8,
    pub b_interface_class: u8,
    pub b_interface_sub_class: u8,
    pub b_interface_protocol: u8,
    pub i_interface: u8,
}

impl InterfaceDescriptor {
    /// The Interface descriptor in the 9 bytes from `at` on.
    pub open spec fn spec_parse(data: Seq<u8>, at: int) -> InterfaceDescriptor {
        InterfaceDescriptor {
            b_length: data[at],
            b_descriptor_type: data[at + 1],
            b_interface_number: data[at + 2],
            b_alternate_setting: data[at + 3],
            b_num_endpoints: data[at + 4],
            b_interface_class: data[at + 5],
            b_interface_sub_class: data[at + 6],
            b_interface_protocol: data[at + 7],
            i_interface: data[at + 8],
        }
    }

    fn parse_at(data: &Vec<u8>, at: usize) -> (r: InterfaceDescriptor)
        requires
            at + 9 <= data@.len(),
            data@.len() <= usize::MAX,
        ensures
            r == InterfaceDescriptor::spec_parse(data@, at as int),
    {
        InterfaceDescriptor {
            b_length: data[at],
            b_descriptor_type: data[at + 1],
            b_interface_number: data[at + 2],
            b_alternate_setting: data[at + 3],
            b_num_endpoints: data[at + 4],
            b_interface_class: data[at + 5],
            b_interface_sub_class: data[at + 6],
            b_interface_protocol: data[at + 7],
            i_interface: data[at + 8],
        }
    }
}

/// The HID descriptor: 9 bytes.
#[derive(Clone, Copy, Debug, PartialEq, Eq, Structural)]
pub struct HIDDescriptor {
    pub b_length: u8,
    pub b_descriptor_type: u8,
    pub bcd_hid: u16,
    pub b_country_code: u8,
    pub b_num_descriptors: u8,
    pub b_type: u8,
    pub w_descriptor_length: u16,
}

impl HIDDescriptor {
    /// The HID descriptor in the 9 bytes from `at` on.
    pub open spec fn spec_parse(data: Seq<u8>, at: int) -> HIDDescriptor {
        HIDDescriptor {
            b_length: data[at],
            b_descriptor_type: data[at + 1],
            bcd_hid: le16(data, at + 2),
            b_country_code: data[at + 4],
            b_num_descriptors: data[at + 5],
            b_type: data[at + 6],
            w_descriptor_length: le16(data, at + 7),
        }
    }

    fn parse_at(data: &Vec<u8>, at: usize) -> (r: HIDDescriptor)
        requires
            at + 9 <= data@.len(),
            data@.len() <= usize::MAX,
        ensures
            r == HIDDescriptor::spec_parse(data@, at as int),
    {
        HIDDescriptor {
            b_length: data[at],
            b_descriptor_type: data[at + 1],
            bcd_hid: read_le16(data, at + 2),
            b_country_code: data[at + 4],
            b_num_descriptors: data[at + 5],
            b_type: data[at + 6],
            w_descriptor_length: read_le16(data, at + 7),
        }
    }
}

/// The Endpoint descriptor: 7 bytes.
#[derive(Clone, Copy, Debug, PartialEq, Eq, Structural)]
pub struct EndpointDescriptor {
    pub b_length: u8,
    pub b_descriptor_type: u8,
    pub b_endpoint_address: u8,
    pub bm_attributes: u8,
    pub w_max_packet_size: u16,
    pub b_interval: u8,
}

impl EndpointDescriptor {
    /// The Endpoint descriptor in the 7 bytes from `at` on.
    pub open spec fn spec_parse(data: Seq<u8>, at: int) -> EndpointDescriptor {
        EndpointDescriptor {
            b_length: data[at],
            b_descriptor_type: data[at + 1],
            b_endpoint_address: data[at + 2],
            bm_attributes: data[at + 3],
            w_max_packet_size: le16(data, at + 4),
            b_interval: data[at + 6],
        }
    }

    fn parse_at(data: &Vec<u8>, at: usize) -> (r: EndpointDescriptor)
        requires
            at + 7 <= data@.len(),
            data@.len() <= usize::MAX,
        ensures
            r == EndpointDescriptor::spec_parse(data@, at as int),
    {
        EndpointDescriptor {
            b_length: data[at],
            b_descriptor_type: data[at + 1],
            b_endpoint_address: data[at + 2],
            bm_attributes: data[at + 3],
            w_max_packet_size: read_le16(data, at + 4),
            b_interval: data[at + 6],
        }
    }
}

/// A descriptor that the parser recognises.
#[derive(Clone, Copy, Debug, PartialEq, Eq, Structural)]
pub enum Descriptor {
    Configuration(ConfigurationDescriptor),
    Interface(InterfaceDescriptor),
    Endpoint(EndpointDescriptor),
    Hid(HIDDescriptor),
}

/// The number of bytes that the parser reads of a descriptor of type `ty`;
/// 0 for a type that it does not recognise.
pub open spec fn fixed_size(ty: u8) -> nat {
    if ty == DESCRIPTOR_CONFIGURATION || ty == DESCRIPTOR_INTERFACE || ty == DESCRIPTOR_HID {
        9
    } else if ty == DESCRIPTOR_ENDPOINT {
        7
    } else {
        0
    }
}

/// The recognised descriptor that starts at `at`.
pub open spec fn descriptor_at(data: Seq<u8>, at: int) -> Descriptor {
    let ty = data[at + 1];
    if ty == DESCRIPTOR_CONFIGURATION {
        Descriptor::Configuration(ConfigurationDescriptor::spec_parse(data, at))
    } else if ty == DESCRIPTOR_INTERFACE {
        Descriptor::Interface(InterfaceDescriptor::spec_parse(data, at))
    } else if ty == DESCRIPTOR_ENDPOINT {
        Descriptor::Endpoint(EndpointDescriptor::spec_parse(data, at))
    } else {
        Descriptor::Hid(HIDDescriptor::spec_parse(data, at))
    }
}

/// Where the descriptor after the one at `index` starts: bLength bytes on,
/// or at the end of the stream if that lies beyond it.
pub open spec fn step(data: Seq<u8>, len: int, index: int) -> int {
    if index + data[index] >= len {
        len
    } else {
        index + data[index]
    }
}

/// Whether parsing ends at `index`: fewer than two bytes are left, the
/// descriptor there has the length 0, or it is of a recognised type and the
/// bytes that are left do not hold it.
pub open spec fn ends(data: Seq<u8>, len: int, index: int) -> bool {
    ||| index + 2 > len
    ||| data[index] == 0
    ||| index + fixed_size(data[index + 1]) > len
}

/// The recognised descriptors of the first `len` bytes of `data`, from
/// `index` on, in their order. A descriptor of another type is passed over
/// by its bLength.
pub open spec fn descriptors(data: Seq<u8>, len: int, index: int) -> Seq<Descriptor>
    decreases len - index,
{
    if index < 0 || ends(data, len, index) {
        Seq::empty()
    } else if fixed_size(data[index + 1]) == 0 {
        descriptors(data, len, step(data, len, index))
    } else {
        seq![descriptor_at(data, index)] + descriptors(data, len, step(data, len, index))
    }
}

/// A cursor over a descriptor stream.
#[derive(Clone, Debug)]
pub struct DescriptorSet {
    pub data: Vec<u8>,
    pub index: usize,
    pub len: usize,
}

impl DescriptorSet {
    /// The stream's length does not exceed the buffer.
    pub open spec fn wf(&self) -> bool {
        self.len <= self.data@.len() && self.data@.len() <= usize::MAX
    }

    /// The descriptors that are still to come.
    pub open spec fn remaining(&self) -> Seq<Descriptor> {
        descriptors(self.data@, self.len as int, self.index as int)
    }

    /// A cursor at the start of the first `len` bytes of `data`.
    pub fn new(data: Vec<u8>, len: usize) -> (r: DescriptorSet)
        requires
            len <= data@.len(),
        ensures
            r.wf(),
            r.data == data,
            r.index == 0,
            r.len == len,
    {
        let _ = data.len();
        DescriptorSet { data, index: 0, len }
    }

    /// The next recognised descriptor, or `None` when parsing has ended.
    pub fn next(&mut self) -> (r: Option<Descriptor>)
        requires
            old(self).wf(),
        ensures
            final(self).wf(),
            final(self).data == old(self).data,
            final(self).len == old(self).len,
            old(self).remaining().len() == 0 ==> r.is_none() && final(self).remaining().len() == 0,
            old(self).remaining().len() > 0 ==> r == Some(old(self).remaining().first())
                && final(self).remaining() == old(self).remaining().drop_first(),
    {
        loop
            invariant
                self.wf(),
                self.data == old(self).data,
                self.len == old(self).len,
                self.remaining() == old(self).remaining(),
            decreases self.len - self.index,
        {
            if self.index >= self.len || self.len - self.index < 2 {
                return None;
            }
            let b_length = self.data[self.index] as usize;
            let ty = self.data[self.index + 1];
            if b_length == 0 {
                return None;
            }
            let left = self.len - self.index;
            let at = self.index;
            let next = if b_length >= left {
                self.len
            } else {
                self.index + b_length
            };
            let found = if ty == DESCRIPTOR_CONFIGURATION {
                if left < 9 {
                    return None;
                }
                Some(Descriptor::Configuration(ConfigurationDescriptor::parse_at(&self.data, at)))
            } else if ty == DESCRIPTOR_INTERFACE {
                if left < 9 {
                    return None;
                }
                Some(Descriptor::Interface(InterfaceDescriptor::parse_at(&self.data, at)))
            } else if ty == DESCRIPTOR_HID {
                if left < 9 {
                    return None;
                }
                Some(Descriptor::Hid(HIDDescriptor::parse_at(&self.data, at)))
            } else if ty == DESCRIPTOR_ENDPOINT {
                if left < 7 {
                    return None;
                }
                Some(Descriptor::Endpoint(EndpointDescriptor::parse_at(&self.data, at)))
            } else {
                None
            };
            self.index = next;
            if found.is_some() {
                proof {
                    let d = descriptor_at(old(self).data@, at as int);
                    let rest = descriptors(old(self).data@, old(self).len as int, next as int);
                    assert((seq![d] + rest).first() == d);
                    assert((seq![d] + rest).drop_first() =~= rest);
                }
                return found;
            }
        }
    }

    /// The first Configuration descriptor among those still to come.
    pub open spec fn spec_first_configuration(s: Seq<Descriptor>) -> Option<ConfigurationDescriptor>
        decreases s.len(),
    {
        if s.len() == 0 {
            None
        } else {
            match s.first() {
                Descriptor::Configuration(c) => Some(c),
                _ => DescriptorSet::spec_first_configuration(s.drop_first()),
            }
        }
    }

    /// The first Endpoint descriptor among those still to come.
    pub open spec fn spec_first_endpoint(s: Seq<Descriptor>) -> Option<EndpointDescriptor>
        decreases s.len(),
    {
        if s.len() == 0 {
            None
        } else {
            match s.first() {
                Descriptor::Endpoint(e) => Some(e),
                _ => DescriptorSet::spec_first_endpoint(s.drop_first()),
            }
        }
    }

    /// Moves on to the first Configuration descriptor and returns it;
    /// `None` if the stream has none.
    pub fn find_configuration(&mut self) -> (r: Option<ConfigurationDescriptor>)
        requires
            old(self).wf(),
        ensures
            final(self).wf(),
            final(self).data == old(self).data,
            final(self).len == old(self).len,
            r == DescriptorSet::spec_first_configuration(old(self).remaining()),
    {
        loop
            invariant
                self.wf(),
                self.data == old(self).data,
                self.len == old(self).len,
                DescriptorSet::spec_first_configuration(self.remaining())
                    == DescriptorSet::spec_first_configuration(old(self).remaining()),
            decreases self.remaining().len(),
        {
            match self.next() {
                None => {
                    return None;
                },
                Some(Descriptor::Configuration(c)) => {
                    return Some(c);
                },
                Some(_) => {},
            }
        }
    }

    /// Moves on to the first Endpoint descriptor and returns it; `None` if
    /// the stream has none.
    pub fn find_endpoint(&mut self) -> (r: Option<EndpointDescriptor>)
        requires
            old(self).wf(),
        ensures
            final(self).wf(),
            final(self).data == old(self).data,
            final(self).len == old(self).len,
            r == DescriptorSet::spec_first_endpoint(old(self).remaining()),
    {
        loop
            invariant
                self.wf(),
                self.data == old(self).data,
                self.len == old(self).len,
                DescriptorSet::spec_first_endpoint(self.remaining()) == DescriptorSet::spec_first_endpoint(
                    old(self).remaining(),
                ),
            decreases self.remaining().len(),
        {
            match self.next() {
                None => {
                    return None;
                },
                Some(Descriptor::Endpoint(e)) => {
                    return Some(e);
                },
                Some(_) => {},
            }
        }
    }
}

/// The descriptors of a HID device's configuration, as such a device
/// returns them: the Configuration descriptor and, twice, an Interface, a
/// HID and an Endpoint descriptor.
#[derive(Clone, Copy, Debug, PartialEq, Eq, Structural)]
pub struct ConfigurationDescriptorPack {
    pub configuration: ConfigurationDescriptor,
    pub interface0: InterfaceDescriptor,
    pub hid0: HIDDescriptor,
    pub endpoint0: EndpointDescriptor,
    pub interface1: InterfaceDescriptor,
    pub hid1: HIDDescriptor,
    pub endpoint1: EndpointDescriptor,
}

impl ConfigurationDescriptorPack {
    /// The offsets of the seven descriptors: the first lies at 0, and each
    /// further one lies behind its predecessor by the predecessor's bLength.
    pub open spec fn spec_offsets(data: Seq<u8>) -> Seq<int> {
        let o0 = 0int;
        let o1 = o0 + data[o0];
        let o2 = o1 + data[o1];
        let o3 = o2 + data[o2];
        let o4 = o3 + data[o3];
        let o5 = o4 + data[o4];
        let o6 = o5 + data[o5];
        seq![o0, o1, o2, o3, o4, o5, o6]
    }

    /// Whether the seven descriptors lie inside `data`: each one's bytes
    /// end before the buffer does.
    pub open spec fn spec_fits(data: Seq<u8>) -> bool {
        let o = ConfigurationDescriptorPack::spec_offsets(data);
        &&& o[0] + 9 <= data.len()
        &&& o[1] + 9 <= data.len()
        &&& o[2] + 9 <= data.len()
        &&& o[3] + 7 <= data.len()
        &&& o[4] + 9 <= data.len()
        &&& o[5] + 9 <= data.len()
        &&& o[6] + 7 <= data.len()
    }

    /// The pack that `data` holds.
    pub open spec fn spec_from(data: Seq<u8>) -> ConfigurationDescriptorPack {
        let o = ConfigurationDescriptorPack::spec_offsets(data);
        ConfigurationDescriptorPack {
            configuration: ConfigurationDescriptor::spec_parse(data, o[0]),
            interface0: InterfaceDescriptor::spec_parse(data, o[1]),
            hid0: HIDDescriptor::spec_parse(data, o[2]),
            endpoint0: EndpointDescriptor::spec_parse(data, o[3]),
            interface1: InterfaceDescriptor::spec_parse(data, o[4]),
            hid1: HIDDescriptor::spec_parse(data, o[5]),
            endpoint1: EndpointDescriptor::spec_parse(data, o[6]),
        }
    }

    /// Reads the seven descriptors from `data`, each where its
    /// predecessor's bLength puts it; `None` if one of them does not lie
    /// inside `data`.
    pub fn from(data: &Vec<u8>) -> (r: Option<ConfigurationDescriptorPack>)
        ensures
            r == if ConfigurationDescriptorPack::spec_fits(data@) {
                Some(ConfigurationDescriptorPack::spec_from(data@))
            } else {
                None
            },
    {
        let n = data.len();
        if n < 9 {
            return None;
        }
        let configuration = ConfigurationDescriptor::parse_at(data, 0);
        let o1: usize = configuration.b_length as usize;
        if o1 > n || n - o1 < 9 {
            return None;
        }
        let interface0 = InterfaceDescriptor::parse_at(data, o1);
        let o2: usize = o1 + interface0.b_length as usize;
        if o2 > n || n - o2 < 9 {
            return None;
        }
        let hid0 = HIDDescriptor::parse_at(data, o2);
        let o3: usize = o2 + hid0.b_length as usize;
        if o3 > n || n - o3 < 7 {
            return None;
        }
        let endpoint0 = EndpointDescriptor::parse_at(data, o3);
        let o4: usize = o3 + endpoint0.b_length as usize;
        if o4 > n || n - o4 < 9 {
            return None;
        }
        let interface1 = InterfaceDescriptor::parse_at(data, o4);
        let o5: usize = o4 + interface1.b_length as usize;
        if o5 > n || n - o5 < 9 {
            return None;
        }
        let hid1 = HIDDescriptor::parse_at(data, o5);
        let o6: usize = o5 + hid1.b_length as usize;
        if o6 > n || n - o6 < 7 {
            return None;
        }
        let endpoint1 = EndpointDescriptor::parse_at(data, o6);
        Some(
            ConfigurationDescriptorPack {
                configuration,
                interface0,
                hid0,
                endpoint0,
                interface1,
                hid1,
                endpoint1,
            },
        )
    }
}

/// A descriptor of the length 0 ends the parsing.
pub proof fn lemma_zero_length_ends(data: Seq<u8>, len: int, index: int)
    requires
        0 <= index < len,
        data[index] == 0,
    ensures
        descriptors(data, len, index) == Seq::<Descriptor>::empty(),
{
}

/// A descriptor of a type that the parser does not recognise is passed
/// over by its bLength.
pub proof fn lemma_unknown_skipped(data: Seq<u8>, len: int, index: int)
    requires
        0 <= index,
        index + 2 <= len,
        data[index] != 0,
        fixed_size(data[index + 1]) == 0,
    ensures
        descriptors(data, len, index) == descriptors(data, len, step(data, len, index)),
{
}

/// A descriptor of a recognised type whose bytes lie inside the stream is
/// the next one that the parser yields, and the parser goes on behind it.
pub proof fn lemma_known_yielded(data: Seq<u8>, len: int, index: int)
    requires
        0 <= index,
        index + 2 <= len,
        data[index] != 0,
        fixed_size(data[index + 1]) != 0,
        index + fixed_size(data[index + 1]) <= len,
    ensures
        descriptors(data, len, index).len() > 0,
        descriptors(data, len, index).first() == descriptor_at(data, index),
        descriptors(data, len, index).drop_first() == descriptors(data, len, step(data, len, index)),
{
    let rest = descriptors(data, len, step(data, len, index));
    assert((seq![descriptor_at(data, index)] + rest).drop_first() =~= rest);
}

/// The parser yields at most one descriptor for every byte of the stream
/// that is left, whatever the bytes hold.
pub proof fn lemma_descriptors_bounded(data: Seq<u8>, len: int, index: int)
    requires
        0 <= index,
    ensures
        descriptors(data, len, index).len() <= if index <= len {
            len - index
        } else {
            0
        },
    decreases len - index,
{
    if !ends(data, len, index) {
        lemma_descriptors_bounded(data, len, step(data, len, index));
    }
}

/// The two bytes of a 16-bit number, least significant first.
pub open spec fn bytes16(w: u16) -> Seq<u8> {
    seq![(w & 0xFF) as u8, (w >> 8) as u8]
}

/// The bytes of a descriptor as a device sends them.
pub open spec fn encoded(d: Descriptor) -> Seq<u8> {
    match d {
        Descriptor::Configuration(c) => seq![c.b_length, c.b_descriptor_type] + bytes16(c.w_total_length) + seq![
            c.b_num_interfaces,
            c.b_configuration_value,
            c.i_configuration,
            c.bm_attributes,
            c.b_max_power,
        ],
        Descriptor::Interface(i) => seq![
            i.b_length,
            i.b_descriptor_type,
            i.b_interface_number,
            i.b_alternate_setting,
            i.b_num_endpoints,
            i.b_interface_class,
            i.b_interface_sub_class,
            i.b_interface_protocol,
            i.i_interface,
        ],
        Descriptor::Endpoint(e) => seq![e.b_length, e.b_descriptor_type, e.b_endpoint_address, e.bm_attributes]
            + bytes16(e.w_max_packet_size) + seq![e.b_interval],
        Descriptor::Hid(h) => seq![h.b_length, h.b_descriptor_type] + bytes16(h.bcd_hid) + seq![
            h.b_country_code,
            h.b_num_descriptors,
            h.b_type,
        ] + bytes16(h.w_descriptor_length),
    }
}

/// Whether a descriptor says of itself what it is: its bLength is the
/// size of its kind, and its bDescriptorType the type of its kind.
pub open spec fn well_formed(d: Descriptor) -> bool {
    match d {
        Descriptor::Configuration(c) => c.b_length == 9 && c.b_descriptor_type == DESCRIPTOR_CONFIGURATION,
        Descriptor::Interface(i) => i.b_length == 9 && i.b_descriptor_type == DESCRIPTOR_INTERFACE,
        Descriptor::Endpoint(e) => e.b_length == 7 && e.b_descriptor_type == DESCRIPTOR_ENDPOINT,
        Descriptor::Hid(h) => h.b_length == 9 && h.b_descriptor_type == DESCRIPTOR_HID,
    }
}

/// The bytes of the descriptors of `ds`, one after the other.
pub open spec fn stream(ds: Seq<Descriptor>) -> Seq<u8>
    decreases ds.len(),
{
    if ds.len() == 0 {
        Seq::empty()
    } else {
        encoded(ds.first()) + stream(ds.drop_first())
    }
}

proof fn lemma_le16(w: u16)
    by (bit_vector)
    ensures
        (((w & 0xFF) as u8) as u16) | ((((w >> 8) as u8) as u16) << 8) == w,
{
}

/// A well-formed descriptor is read back from its bytes, wherever they lie
/// in a buffer.
proof fn lemma_decode_encoded(data: Seq<u8>, at: int, d: Descriptor)
    requires
        well_formed(d),
        0 <= at,
        at + encoded(d).len() <= data.len(),
        data.subrange(at, at + encoded(d).len()) == encoded(d),
    ensures
        encoded(d).len() == fixed_size(data[at + 1]),
        encoded(d).len() == data[at],
        fixed_size(data[at + 1]) != 0,
        descriptor_at(data, at) == d,
{
    let e = encoded(d);
    assert forall|k: int| 0 <= k < e.len() implies data[at + k] == e[k] by {
        assert(data.subrange(at, at + e.len())[k] == data[at + k]);
    }
    match d {
        Descriptor::Configuration(c) => {
            lemma_le16(c.w_total_length);
            assert(e.len() == 9);
            assert(data[at] == e[0] && data[at + 1] == e[1] && data[at + 2] == e[2] && data[at + 3] == e[3]
                && data[at + 4] == e[4] && data[at + 5] == e[5] && data[at + 6] == e[6] && data[at + 7] == e[7]
                && data[at + 8] == e[8]);
        },
        Descriptor::Interface(i) => {
            assert(e.len() == 9);
            assert(data[at] == e[0] && data[at + 1] == e[1] && data[at + 2] == e[2] && data[at + 3] == e[3]
                && data[at + 4] == e[4] && data[at + 5] == e[5] && data[at + 6] == e[6] && data[at + 7] == e[7]
                && data[at + 8] == e[8]);
        },
        Descriptor::Endpoint(p) => {
            lemma_le16(p.w_max_packet_size);
            assert(e.len() == 7);
            assert(data[at] == e[0] && data[at + 1] == e[1] && data[at + 2] == e[2] && data[at + 3] == e[3]
                && data[at + 4] == e[4] && data[at + 5] == e[5] && data[at + 6] == e[6]);
        },
        Descriptor::Hid(h) => {
            lemma_le16(h.bcd_hid);
            lemma_le16(h.w_descriptor_length);
            assert(e.len() == 9);
            assert(data[at] == e[0] && data[at + 1] == e[1] && data[at + 2] == e[2] && data[at + 3] == e[3]
                && data[at + 4] == e[4] && data[at + 5] == e[5] && data[at + 6] == e[6] && data[at + 7] == e[7]
                && data[at + 8] == e[8]);
        },
    }
}

/// The parser reads from a buffer that ends with the bytes of well-formed
/// descriptors exactly those descriptors, in their order.
pub proof fn lemma_round_trip_from(data: Seq<u8>, at: int, ds: Seq<Descriptor>)
    requires
        forall|i: int| 0 <= i < ds.len() ==> well_formed(#[trigger] ds[i]),
        0 <= at,
        at + stream(ds).len() == data.len(),
        data.subrange(at, data.len() as int) == stream(ds),
    ensures
        descriptors(data, data.len() as int, at) == ds,
    decreases ds.len(),
{
    if ds.len() == 0 {
        assert(descriptors(data, data.len() as int, at) =~= ds);
    } else {
        let d = ds.first();
        let e = encoded(d);
        let rest = ds.drop_first();
        assert(well_formed(ds[0]));
        assert(stream(ds) == e + stream(rest));
        assert(data.subrange(at, at + e.len()) =~= e) by {
            assert forall|k: int| 0 <= k < e.len() implies data.subrange(at, at + e.len())[k] == e[k] by {
                assert(data.subrange(at, data.len() as int)[k] == (e + stream(rest))[k]);
            }
        }
        lemma_decode_encoded(data, at, d);
        let next = at + e.len();
        assert(data.subrange(next, data.len() as int) =~= stream(rest)) by {
            assert forall|k: int| 0 <= k < stream(rest).len() implies data.subrange(next, data.len() as int)[k]
                == stream(rest)[k] by {
                assert(data.subrange(at, data.len() as int)[e.len() + k] == (e + stream(rest))[e.len() + k]);
            }
        }
        assert forall|i: int| 0 <= i < rest.len() implies well_formed(#[trigger] rest[i]) by {
            assert(rest[i] == ds[i + 1]);
        }
        lemma_round_trip_from(data, next, rest);
        assert(step(data, data.len() as int, at) == next);
        assert(descriptors(data, data.len() as int, at) =~= seq![d] + rest);
        assert(seq![d] + rest =~= ds);
    }
}

/// Round trip: the parser reads from the bytes of well-formed descriptors
/// exactly those descriptors, in their order.
pub proof fn lemma_round_trip(ds: Seq<Descriptor>)
    requires
        forall|i: int| 0 <= i < ds.len() ==> well_formed(#[trigger] ds[i]),
    ensures
        descriptors(stream(ds), stream(ds).len() as int, 0) == ds,
{
    assert(stream(ds).subrange(0, stream(ds).len() as int) =~= stream(ds));
    lemma_round_trip_from(stream(ds), 0, ds);
}

} // verus!
