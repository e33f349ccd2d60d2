use driver_xhci::command::CommandRing;
use driver_xhci::trb::{CompletionCode, GenericTrb, LinkTrb, TrbType};

#[test]
fn trb_type_decodes_named_values() {
    assert_eq!(TrbType::from(1), TrbType::Normal);
    assert_eq!(TrbType::from(2), TrbType::SetupStage);
    assert_eq!(TrbType::from(3), TrbType::DataStage);
    assert_eq!(TrbType::from(4), TrbType::StatusStage);
    assert_eq!(TrbType::from(5), TrbType::Isoch);
    assert_eq!(TrbType::from(6), TrbType::Link);
    assert_eq!(TrbType::from(7), TrbType::EventData);
    assert_eq!(TrbType::from(8), TrbType::NoOp);
    assert_eq!(TrbType::from(9), TrbType::EnableSlot);
    assert_eq!(TrbType::from(11), TrbType::AddressDevice);
    assert_eq!(TrbType::from(12), TrbType::ConfigureEndpoint);
    assert_eq!(TrbType::from(23), TrbType::NoOpCmd);
    assert_eq!(TrbType::from(24), TrbType::GetExtendedProperty);
    assert_eq!(TrbType::from(25), TrbType::SetExtendedProperty);
    assert_eq!(TrbType::from(32), TrbType::Transfer);
    assert_eq!(TrbType::from(33), TrbType::CommandCompletion);
    assert_eq!(TrbType::from(34), TrbType::PortStatusChange);
    assert_eq!(TrbType::from(36), TrbType::Doorbell);
    assert_eq!(TrbType::from(37), TrbType::HostController);
    assert_eq!(TrbType::from(38), TrbType::DeviceNotification);
    assert_eq!(TrbType::from(39), TrbType::MfindexWrap);
}

#[test]
fn trb_type_other_values_are_reserved() {
    assert_eq!(TrbType::from(0), TrbType::Reserved);
    assert_eq!(TrbType::from(26), TrbType::Reserved);
    assert_eq!(TrbType::from(31), TrbType::Reserved);
    assert_eq!(TrbType::from(35), TrbType::Reserved);
    assert_eq!(TrbType::from(40), TrbType::Reserved);
    assert_eq!(TrbType::from(63), TrbType::Reserved);
    assert_eq!(TrbType::from(255), TrbType::Reserved);
}

#[test]
fn trb_type_code_round_trips() {
    for value in 0u8..64 {
        let t = TrbType::from(value);
        if t != TrbType::Reserved {
            assert_eq!(t.code(), value);
        }
        assert_eq!(TrbType::from(t.code()), t);
    }
}

#[test]
fn completion_code_decodes() {
    assert_eq!(CompletionCode::from(0), CompletionCode::Invalid);
    assert_eq!(CompletionCode::from(1), CompletionCode::Success);
    assert_eq!(CompletionCode::from(4), CompletionCode::USBTransactionError);
    assert_eq!(CompletionCode::from(13), CompletionCode::ShortPacket);
    assert_eq!(CompletionCode::from(21), CompletionCode::EventRingFullError);
    assert_eq!(CompletionCode::from(32), CompletionCode::EventLostError);
    assert_eq!(CompletionCode::from(36), CompletionCode::SplitTransactionError);
    assert_eq!(CompletionCode::from(37), CompletionCode::Reserved1);
    assert_eq!(CompletionCode::from(38), CompletionCode::Reserved1);
    assert_eq!(CompletionCode::from(255), CompletionCode::Reserved1);
    assert!(CompletionCode::Success.is_success());
    assert!(CompletionCode::ShortPacket.is_success());
    assert!(!CompletionCode::StallError.is_success());
}

#[test]
fn generic_trb_setters_replace_their_field() {
    let mut trb = GenericTrb::default();
    assert_eq!(trb, GenericTrb { data_low: 0, data_high: 0, status: 0, control: 0 });
    trb.set_trb_type(TrbType::AddressDevice);
    assert_eq!(trb.control, 11 << 10);
    assert_eq!(trb.trb_type(), TrbType::AddressDevice);
    trb.set_trb_type(TrbType::EnableSlot);
    assert_eq!(trb.control, 9 << 10);
    trb.set_slot_id(0xAB);
    assert_eq!(trb.control, 0xAB00_2400);
    trb.set_slot_id(2);
    assert_eq!(trb.control, 0x0200_2400);
    trb.set_pcs(true);
    assert!(trb.pcs());
    assert_eq!(trb.control, 0x0200_2401);
    trb.set_pcs(false);
    assert!(!trb.pcs());
    assert_eq!(trb.control, 0x0200_2400);
    trb.set_pointer(0x1234_5678_9ABC_DEF0);
    assert_eq!(trb.data_low, 0x9ABC_DEF0);
    assert_eq!(trb.data_high, 0x1234_5678);
    trb.set_pointer(0x40);
    assert_eq!(trb.data_low, 0x40);
    assert_eq!(trb.data_high, 0);
}

#[test]
fn set_pointer_keeps_low_four_bits() {
    let mut trb = GenericTrb { data_low: 0xF, data_high: 7, status: 3, control: 5 };
    trb.set_pointer(0xFFFF_0000_1230);
    assert_eq!(trb.data_low, 0x0000_123F);
    assert_eq!(trb.data_high, 0xFFFF);
    assert_eq!(trb.status, 3);
    assert_eq!(trb.control, 5);
}

#[test]
fn link_trb_points_and_toggles() {
    let mut link = LinkTrb::new(0x1_0000_0040);
    assert_eq!(link.0.data_low, 0x40);
    assert_eq!(link.0.data_high, 1);
    assert_eq!(link.0.status, 0);
    assert_eq!(link.0.control, 6 << 10);
    link.set_tc(true);
    assert_eq!(link.0.control, (6 << 10) | 2);
    link.set_tc(false);
    assert_eq!(link.0.control, 6 << 10);
    let trb = link.cast_trb();
    assert_eq!(trb.trb_type(), TrbType::Link);
}

#[test]
fn command_builder_gives_exact_words() {
    let trb = CommandRing::build(TrbType::ConfigureEndpoint, 0x0000_0002_0000_1040, 5);
    assert_eq!(
        trb,
        GenericTrb { data_low: 0x0000_1040, data_high: 2, status: 0, control: (5 << 24) | (12 << 10) }
    );
}
