use driver_xhci::context::{DeviceContext, EndpointContext, InputContext, SlotContext};

#[test]
fn slot_context_fields() {
    let mut slot = SlotContext::default();
    assert_eq!(slot, SlotContext { a: 0, b: 0, c: 0, d: 0 });
    slot.set_route_string(0xFFFF_FFFF);
    assert_eq!(slot.a, 0x000F_FFFF);
    slot.set_route_string(0x12345);
    slot.set_speed(0xFF);
    slot.set_speed(3);
    slot.set_hub(true);
    slot.set_context_entries(0xFF);
    slot.set_context_entries(5);
    assert_eq!(slot.a, (5 << 27) | (1 << 26) | (3 << 20) | 0x12345);
    slot.set_hub(false);
    assert_eq!(slot.a, (5 << 27) | (3 << 20) | 0x12345);
    slot.set_root_hub_number(0xFF);
    slot.set_root_hub_number(4);
    assert_eq!(slot.b, 4 << 16);
    assert_eq!(slot.route_string(), 0x12345);
    assert_eq!(slot.speed(), 3);
    assert_eq!(slot.context_entries(), 5);
    assert_eq!(slot.root_hub_number(), 4);
}

#[test]
fn endpoint_context_fields() {
    let mut ep = EndpointContext::default();
    ep.set_endpoint_type(0xFF);
    ep.set_endpoint_type(7);
    ep.set_max_packet_size(0xFFFF);
    ep.set_max_packet_size(64);
    ep.set_max_burst_size(0xFF);
    ep.set_max_burst_size(2);
    ep.set_error_count(0xFF);
    ep.set_error_count(3);
    assert_eq!(ep.b, (64 << 16) | (2 << 8) | (7 << 3) | (3 << 1));
    ep.set_interval(0xFF);
    ep.set_interval(6);
    ep.set_max_primary_streams(0xFF);
    ep.set_max_primary_streams(1);
    ep.set_mult(0xFF);
    ep.set_mult(2);
    assert_eq!(ep.a, (6 << 16) | (1 << 10) | (2 << 8));
    ep.set_dequeue_cycle_state(1);
    ep.set_transfer_ring_buffer(0x0000_0012_3456_7890);
    assert_eq!(ep.trdpl, 0x3456_7891);
    assert_eq!(ep.trdph, 0x12);
    assert_eq!(ep.transfer_ring_buffer(), 0x0000_0012_3456_7890);
    ep.set_dequeue_cycle_state(0);
    assert_eq!(ep.trdpl, 0x3456_7890);
    ep.set_average_trb_length(8);
    assert_eq!(ep.c, 8);
    assert_eq!(ep.endpoint_type(), 7);
    assert_eq!(ep.max_packet_size(), 64);
    assert_eq!(ep.error_count(), 3);
    assert_eq!(ep.interval(), 6);
    assert_eq!(ep.dequeue_cycle_state(), 0);
}

#[test]
fn input_context_add_flags_are_ored() {
    let mut input = InputContext::default();
    assert_eq!(input.ep_ctxs.len(), 31);
    assert_eq!(input.input_control_ctx.add_context_flags, 0);
    input.enable_slot_context();
    assert_eq!(input.input_control_ctx.add_context_flags, 1);
    input.set_add_context(3, 1);
    assert_eq!(input.input_control_ctx.add_context_flags, 0b1001);
    input.set_add_context(31, 1);
    assert_eq!(input.input_control_ctx.add_context_flags, 0x8000_0009);
    input.set_add_context(3, 0);
    assert_eq!(input.input_control_ctx.add_context_flags, 0x8000_0001);
    input.clear_add_context();
    assert_eq!(input.input_control_ctx.add_context_flags, 0);
    assert_eq!(input.input_control_ctx.drop_context_flags, 0);
}

#[test]
fn input_context_control_endpoint() {
    let mut input = InputContext::default();
    input.init_default_control_endpoint(64, 0x0000_0001_0000_0040);
    assert_eq!(input.input_control_ctx.add_context_flags, 0b10);
    assert_eq!(
        input.ep_ctxs[0],
        EndpointContext { a: 0, b: (64 << 16) | (4 << 3) | (3 << 1), trdpl: 0x41, trdph: 1, c: 0 }
    );
    assert!(input.ep_ctxs[1..].iter().all(|e| *e == EndpointContext::default()));
    let slot = input.mut_slot();
    slot.set_speed(4);
    assert_eq!(input.slot_ctx.speed(), 4);
}

#[test]
fn device_context_is_zeroed() {
    let ctx = DeviceContext::default();
    assert_eq!(ctx.slot, SlotContext::default());
    assert_eq!(ctx.endpoints.len(), 31);
    assert!(ctx.endpoints.iter().all(|e| *e == EndpointContext::default()));
}

#[test]
fn input_context_in_memory() {
    let mut input = InputContext::default();
    input.enable_slot_context();
    input.set_add_context(3, 1);
    input.input_control_ctx.drop_context_flags = 0x10;
    input.input_control_ctx.configuration_value = 1;
    input.input_control_ctx.interface_number = 2;
    input.input_control_ctx.alternate_setting = 3;
    input.slot_ctx = SlotContext::from_words(0xA, 0xB, 0xC, 0xD);
    input.ep_ctxs[0] = EndpointContext { a: 1, b: 2, trdpl: 3, trdph: 4, c: 5 };
    input.ep_ctxs[30] = EndpointContext { a: 6, b: 7, trdpl: 8, trdph: 9, c: 10 };
    let words = input.to_words();
    assert_eq!(words.len(), 8 * 33);
    assert_eq!(words[..8], [0x10, 0b1001, 0, 0, 0, 0, 0, 0x0003_0201]);
    assert_eq!(words[8..16], [0xA, 0xB, 0xC, 0xD, 0, 0, 0, 0]);
    assert_eq!(words[16..24], [1, 2, 3, 4, 5, 0, 0, 0]);
    assert!(words[24..256].iter().all(|w| *w == 0));
    assert_eq!(words[256..264], [6, 7, 8, 9, 10, 0, 0, 0]);
    assert!(InputContext::default().to_words().iter().all(|w| *w == 0));
}
