use xhci::context::{
    Endpoint, EndpointState, EndpointType, Input32Byte, Input64Byte, InputControl, InputHandler,
    Output32Byte, OutputHandler, Slot, SlotState,
};
use xhci::error::Error;

#[test]
fn slot_state_round_trip() {
    let mut slot = Slot::new();
    slot.set_slot_state(SlotState::Addressed);
    assert_eq!(slot.slot_state(), Ok(SlotState::Addressed));
    // Word 3 bits 27..=31 hold 0b00010.
    assert_eq!(slot.0[3], 0b00010 << 27);
}

#[test]
fn slot_state_reserved_pattern_fails() {
    let mut slot = Slot::new();
    slot.0[3] = 8 << 27;
    assert_eq!(slot.slot_state(), Err(Error::ReservedValue));
}

#[test]
fn endpoint_state_round_trip_and_reserved() {
    let mut ep = Endpoint::new();
    ep.set_endpoint_state(EndpointState::Halted);
    assert_eq!(ep.endpoint_state(), Ok(EndpointState::Halted));
    ep.0[0] = 5;
    assert_eq!(ep.endpoint_state(), Err(Error::ReservedValue));
}

#[test]
fn endpoint_type_is_total() {
    let mut ep = Endpoint::new();
    ep.set_endpoint_type(EndpointType::InterruptIn);
    assert_eq!(ep.endpoint_type(), EndpointType::InterruptIn);
    assert_eq!(ep.0[1], 7 << 3);
}

#[test]
fn tr_dequeue_pointer_round_trip() {
    let mut ep = Endpoint::new();
    ep.set_dequeue_cycle_state();
    assert_eq!(ep.set_tr_dequeue_pointer(0x0000_0001_2345_6780), Ok(()));
    assert_eq!(ep.tr_dequeue_pointer(), 0x0000_0001_2345_6780);
    // The Dequeue Cycle State bit (word 2 bit 0) is unchanged.
    assert!(ep.dequeue_cycle_state());
}

#[test]
fn tr_dequeue_pointer_rejects_misaligned() {
    let mut ep = Endpoint::new();
    assert_eq!(ep.set_tr_dequeue_pointer(0x0000_0001_2345_6788), Err(Error::Misaligned));
    assert_eq!(ep.tr_dequeue_pointer(), 0);
}

#[test]
fn dci_zero_and_out_of_range_fail() {
    let mut input = Input32Byte::new();
    assert!(matches!(input.endpoint(0), Err(Error::DciOutOfRange)));
    assert!(matches!(input.endpoint(32), Err(Error::DciOutOfRange)));
    assert!(matches!(input.endpoint_mut(0), Err(Error::DciOutOfRange)));
    assert!(input.endpoint(1).is_ok());
    assert!(input.endpoint(31).is_ok());
}

#[test]
fn endpoint_mut_aliases_endpoint_array() {
    let mut input = Input64Byte::new();
    for dci in 1..=31 {
        let ep = input.endpoint_mut(dci).unwrap();
        ep.set_interval(dci as u8);
    }
    for dci in 1..=31 {
        assert_eq!(input.endpoint(dci).unwrap().interval(), dci as u8);
    }
}

#[test]
fn output_context_endpoints() {
    let mut out = Output32Byte::new();
    out.slot_mut().set_root_hub_port_number(3);
    assert_eq!(out.slot().root_hub_port_number(), 3);
    let ep = out.endpoint_mut(7).unwrap();
    ep.set_max_packet_size(512);
    assert_eq!(out.endpoint(7).unwrap().max_packet_size(), 512);
    assert!(matches!(out.endpoint(0), Err(Error::DciOutOfRange)));
}

#[test]
fn drop_context_flag_bounds() {
    let mut ic = InputControl::new();
    assert_eq!(ic.set_drop_context_flag(0), Err(Error::DropFlagIndexReserved));
    assert_eq!(ic.set_drop_context_flag(1), Err(Error::DropFlagIndexReserved));
    assert_eq!(ic.drop_context_flag(32), Err(Error::DropFlagIndexReserved));
    assert_eq!(ic.set_drop_context_flag(2), Ok(()));
    assert_eq!(ic.drop_context_flag(2), Ok(true));
    assert_eq!(ic.drop_context_flags(), 1 << 2);
    assert_eq!(ic.clear_drop_context_flag(2), Ok(()));
    assert_eq!(ic.drop_context_flags(), 0);
}

#[test]
fn add_context_flag_bounds() {
    let mut ic = InputControl::new();
    assert_eq!(ic.set_add_context_flag(32), Err(Error::AddFlagIndexOutOfRange));
    assert_eq!(ic.add_context_flag(32), Err(Error::AddFlagIndexOutOfRange));
    assert_eq!(ic.set_add_context_flag(0), Ok(()));
    assert_eq!(ic.set_add_context_flag(31), Ok(()));
    assert_eq!(ic.add_context_flags(), (1 << 31) | 1);
    assert_eq!(ic.clear_add_context_flag(31), Ok(()));
    assert_eq!(ic.add_context_flags(), 1);
}

#[test]
fn input_control_fields() {
    let mut ic = InputControl::new();
    ic.set_configuration_value(7);
    ic.set_interface_number(2);
    ic.set_alternate_setting(1);
    assert_eq!(ic.configuration_value(), 7);
    assert_eq!(ic.interface_number(), 2);
    assert_eq!(ic.alternate_setting(), 1);
    assert_eq!(ic.0[7], 7 | (2 << 8) | (1 << 16));
}

#[test]
fn input_control_is_first_in_input_context() {
    let mut input = Input32Byte::new();
    input.control_mut().set_add_context_flag(0).unwrap();
    assert_eq!(input.control().add_context_flags(), 1);
    // The Slot Context and the endpoints stay zero.
    assert_eq!(input.slot().0, [0u32; 8]);
}

#[test]
fn slot_fields_pack_into_their_words() {
    let mut slot = Slot::new();
    slot.set_route_string(0xabcde);
    slot.set_speed(4);
    slot.set_context_entries(31);
    assert_eq!(slot.route_string(), 0xabcde);
    assert_eq!(slot.speed(), 4);
    assert_eq!(slot.context_entries(), 31);
    assert_eq!(slot.0[0], 0xabcde | (4 << 20) | (31u32 << 27));
    slot.set_interrupter_target(0x3ff);
    assert_eq!(slot.interrupter_target(), 0x3ff);
    assert_eq!(slot.0[2], 0x3ffu32 << 22);
}

#[test]
fn slot_state_codes() {
    assert_eq!(SlotState::from_value(0), Some(SlotState::DisabledEnabled));
    assert_eq!(SlotState::from_value(1), Some(SlotState::Default));
    assert_eq!(SlotState::from_value(2), Some(SlotState::Addressed));
    assert_eq!(SlotState::from_value(3), Some(SlotState::Configured));
    assert_eq!(SlotState::from_value(4), None);
    assert_eq!(SlotState::Configured.value(), 3);
}

#[test]
fn endpoint_state_codes() {
    assert_eq!(EndpointState::from_value(4), Some(EndpointState::Error));
    assert_eq!(EndpointState::from_value(7), None);
}
