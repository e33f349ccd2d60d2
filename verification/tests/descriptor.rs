use driver_xhci::descriptor::{
    ConfigurationDescriptor, ConfigurationDescriptorPack, Descriptor, DescriptorSet, DeviceDescriptor,
    EndpointDescriptor, HIDDescriptor, InterfaceDescriptor,
};

fn configuration() -> Vec<u8> {
    vec![0x09, 0x02, 0x3B, 0x00, 0x02, 0x01, 0x00, 0xA0, 0x32]
}

fn interface(n: u8) -> Vec<u8> {
    vec![0x09, 0x04, n, 0x00, 0x01, 0x03, 0x01, 0x01 + n, 0x00]
}

fn hid(len: u8) -> Vec<u8> {
    vec![0x09, 0x21, 0x11, 0x01, 0x00, 0x01, 0x22, len, 0x00]
}

fn endpoint(addr: u8) -> Vec<u8> {
    vec![0x07, 0x05, addr, 0x03, 0x08, 0x00, 0x0A]
}

fn all(set: &mut DescriptorSet) -> Vec<Descriptor> {
    let mut out = Vec::new();
    let mut guard = 0;
    while let Some(d) = set.next() {
        out.push(d);
        guard += 1;
        assert!(guard < 1000);
    }
    out
}

fn kind(d: &Descriptor) -> u8 {
    match d {
        Descriptor::Configuration(_) => 2,
        Descriptor::Interface(_) => 4,
        Descriptor::Endpoint(_) => 5,
        Descriptor::Hid(_) => 33,
    }
}

fn hid_stream() -> Vec<u8> {
    let mut data = Vec::new();
    data.extend(configuration());
    data.extend(interface(0));
    data.extend(hid(0x3F));
    data.extend(endpoint(0x81));
    data.extend(interface(1));
    data.extend(hid(0x34));
    data.extend(endpoint(0x82));
    data
}

#[test]
fn stream_yields_descriptors_in_order() {
    let data = hid_stream();
    assert_eq!(data.len(), 59);
    let len = data.len();
    let mut set = DescriptorSet::new(data, len);
    let found = all(&mut set);
    assert_eq!(found.iter().map(kind).collect::<Vec<u8>>(), vec![2, 4, 33, 5, 4, 33, 5]);
    assert_eq!(
        found[0],
        Descriptor::Configuration(ConfigurationDescriptor {
            b_length: 9,
            b_descriptor_type: 2,
            w_total_length: 0x3B,
            b_num_interfaces: 2,
            b_configuration_value: 1,
            i_configuration: 0,
            bm_attributes: 0xA0,
            b_max_power: 0x32,
        })
    );
    assert_eq!(
        found[2],
        Descriptor::Hid(HIDDescriptor {
            b_length: 9,
            b_descriptor_type: 0x21,
            bcd_hid: 0x0111,
            b_country_code: 0,
            b_num_descriptors: 1,
            b_type: 0x22,
            w_descriptor_length: 0x3F,
        })
    );
    assert_eq!(
        found[3],
        Descriptor::Endpoint(EndpointDescriptor {
            b_length: 7,
            b_descriptor_type: 5,
            b_endpoint_address: 0x81,
            bm_attributes: 3,
            w_max_packet_size: 8,
            b_interval: 10,
        })
    );
    assert_eq!(
        found[4],
        Descriptor::Interface(InterfaceDescriptor {
            b_length: 9,
            b_descriptor_type: 4,
            b_interface_number: 1,
            b_alternate_setting: 0,
            b_num_endpoints: 1,
            b_interface_class: 3,
            b_interface_sub_class: 1,
            b_interface_protocol: 2,
            i_interface: 0,
        })
    );
    assert_eq!(set.next(), None);
}

#[test]
fn literal_configuration_buffer() {
    let mut data = vec![
        0x09, 0x02, 0x22, 0x00, 0x01, 0x01, 0x00, 0x80, 0x32, 0x09, 0x04, 0x00, 0x00, 0x01, 0x03, 0x01,
        0x01, 0x00, 0x09, 0x21,
    ];
    data.extend(vec![0x11, 0x01, 0x00, 0x01, 0x22, 0x34, 0x00]);
    data.extend(endpoint(0x81));
    assert_eq!(data.len(), 0x22);
    let len = data.len();
    let mut set = DescriptorSet::new(data, len);
    match set.next() {
        Some(Descriptor::Configuration(c)) => {
            assert_eq!(c.w_total_length, 0x22);
            assert_eq!(c.b_configuration_value, 1);
        }
        other => panic!("expected a configuration, got {:?}", other),
    }
    match set.next() {
        Some(Descriptor::Interface(i)) => assert_eq!(i.b_interface_class, 0x03),
        other => panic!("expected an interface, got {:?}", other),
    }
    assert!(matches!(set.next(), Some(Descriptor::Hid(_))));
    assert!(matches!(set.next(), Some(Descriptor::Endpoint(_))));
    assert_eq!(set.next(), None);
}

#[test]
fn trailing_unknown_descriptor_ends_cleanly() {
    let mut data = configuration();
    data.extend(vec![0x05, 0x30, 0xAA, 0xBB, 0xCC]);
    let len = data.len();
    let mut set = DescriptorSet::new(data, len);
    let found = all(&mut set);
    assert_eq!(found.iter().map(kind).collect::<Vec<u8>>(), vec![2]);
    assert_eq!(set.next(), None);
}

#[test]
fn unknown_descriptor_in_the_middle_is_skipped() {
    let mut data = configuration();
    data.extend(vec![0x04, 0x0B, 0x00, 0x02]);
    data.extend(interface(0));
    data.extend(vec![0x03, 0xFF, 0x00]);
    data.extend(endpoint(0x02));
    let len = data.len();
    let mut set = DescriptorSet::new(data, len);
    assert_eq!(all(&mut set).iter().map(kind).collect::<Vec<u8>>(), vec![2, 4, 5]);
}

#[test]
fn zero_length_descriptor_ends_parsing() {
    let mut data = configuration();
    data.extend(vec![0x00, 0x04, 0, 0, 0, 0, 0, 0, 0]);
    data.extend(endpoint(0x81));
    let len = data.len();
    let mut set = DescriptorSet::new(data, len);
    assert_eq!(all(&mut set).iter().map(kind).collect::<Vec<u8>>(), vec![2]);
    assert_eq!(set.next(), None);
    assert_eq!(set.next(), None);
}

#[test]
fn zeroed_buffer_holds_no_descriptor() {
    let mut set = DescriptorSet::new(vec![0; 256], 256);
    assert_eq!(set.next(), None);
    let mut empty = DescriptorSet::new(Vec::new(), 0);
    assert_eq!(empty.next(), None);
    let mut one = DescriptorSet::new(vec![9], 1);
    assert_eq!(one.next(), None);
}

#[test]
fn truncated_descriptor_is_not_yielded() {
    let mut data = configuration();
    data.extend(vec![0x09, 0x04, 0x00, 0x00]);
    let len = data.len();
    let mut set = DescriptorSet::new(data, len);
    assert_eq!(all(&mut set).iter().map(kind).collect::<Vec<u8>>(), vec![2]);
}

#[test]
fn stream_length_limits_parsing() {
    let data = hid_stream();
    let mut set = DescriptorSet::new(data, 27);
    assert_eq!(all(&mut set).iter().map(kind).collect::<Vec<u8>>(), vec![2, 4, 33]);
}

#[test]
fn descriptor_advances_by_its_length() {
    let mut data = vec![0x0B, 0x02, 0x20, 0x00, 0x01, 0x05, 0x00, 0x80, 0x32, 0xEE, 0xEE];
    data.extend(endpoint(0x01));
    let len = data.len();
    let mut set = DescriptorSet::new(data, len);
    let found = all(&mut set);
    assert_eq!(found.iter().map(kind).collect::<Vec<u8>>(), vec![2, 5]);
}

#[test]
fn find_configuration_and_endpoint() {
    let data = hid_stream();
    let len = data.len();
    let mut set = DescriptorSet::new(data.clone(), len);
    assert_eq!(set.find_endpoint().map(|e| e.b_endpoint_address), Some(0x81));
    assert_eq!(set.find_endpoint().map(|e| e.b_endpoint_address), Some(0x82));
    assert_eq!(set.find_endpoint(), None);
    let mut set = DescriptorSet::new(data, len);
    assert_eq!(set.find_configuration().map(|c| c.b_configuration_value), Some(1));
    assert_eq!(set.find_configuration(), None);
}

#[test]
fn device_descriptor_fields() {
    let data = vec![
        0x12, 0x01, 0x00, 0x02, 0x00, 0x00, 0x00, 0x40, 0x27, 0x06, 0x01, 0x00, 0x00, 0x01, 0x01, 0x02,
        0x03, 0x01,
    ];
    let d = DeviceDescriptor::parse(&data).unwrap();
    assert_eq!(d.b_length, 18);
    assert_eq!(d.bcd_usb, 0x0200);
    assert_eq!(d.b_max_packet_size0, 0x40);
    assert_eq!(d.id_vendor, 0x0627);
    assert_eq!(d.id_product, 0x0001);
    assert_eq!(d.bcd_device, 0x0100);
    assert_eq!(d.b_num_configurations, 1);
    assert_eq!(DeviceDescriptor::parse(&data[..17].to_vec()), None);
}

#[test]
fn configuration_pack() {
    let data = hid_stream();
    let pack = ConfigurationDescriptorPack::from(&data).unwrap();
    assert_eq!(pack.configuration.b_num_interfaces, 2);
    assert_eq!(pack.interface0.b_interface_number, 0);
    assert_eq!(pack.hid0.w_descriptor_length, 0x3F);
    assert_eq!(pack.endpoint0.b_endpoint_address, 0x81);
    assert_eq!(pack.interface1.b_interface_protocol, 2);
    assert_eq!(pack.hid1.w_descriptor_length, 0x34);
    assert_eq!(pack.endpoint1.b_endpoint_address, 0x82);
    assert_eq!(ConfigurationDescriptorPack::from(&data[..58].to_vec()), None);
    assert_eq!(ConfigurationDescriptorPack::from(&Vec::new()), None);
}
