use xhci::capability::{
    Capability, CapabilityParameters1, CapabilityParameters2, CapabilityRegistersLength,
    DoorbellOffset, InterfaceVersionNumber, RuntimeRegisterSpaceOffset, StructuralParameters1,
    StructuralParameters2, StructuralParameters3, VirtualizationBasedTrustedIoRegisterSpaceOffset,
};
use xhci::error::Error;
use xhci::operational::{
    CommandRingControlRegister, ConfigureRegister, DeviceNotificationControl, L1Status,
    PageSizeRegister, PortIndicator, PortPowerManagementStatusAndControlRegister,
    PortStatusAndControlRegister, TestMode, UsbCommandRegister, UsbStatusRegister,
};
use xhci::registers::Registers;
use xhci::runtime::EventRingDequeuePointerRegister;
use xhci::doorbell::Doorbell;
use xhci::runtime::{
    EventRingSegmentTableBaseAddressRegister, InterrupterManagementRegister,
    MicroframeIndexRegister,
};
use xhci::operational::DeviceContextBaseAddressArrayPointerRegister;

fn sample_capability() -> Capability {
    Capability {
        caplength: CapabilityRegistersLength(0x20),
        hciversion: InterfaceVersionNumber(0x0110),
        hcsparams1: StructuralParameters1(0x04_00_00_40),
        hcsparams2: StructuralParameters2(0),
        hcsparams3: StructuralParameters3(0),
        hccparams1: CapabilityParameters1(0),
        dboff: DoorbellOffset(0x0000_2000),
        rtsoff: RuntimeRegisterSpaceOffset(0x0000_3000),
        hccparams2: CapabilityParameters2(0),
        vtiosoff: VirtualizationBasedTrustedIoRegisterSpaceOffset(0),
    }
}

#[test]
fn capability_decode_layout() {
    let base: u64 = 0x8000_0000;
    let regs = Registers::new(base, sample_capability()).unwrap();
    assert_eq!(regs.operational_base, base + 0x20);
    assert_eq!(regs.port_register_set_base, base + 0x20 + 0x400);
    assert_eq!(regs.port_count, 4);
    assert_eq!(regs.doorbell_count, 0x40);
    assert_eq!(regs.doorbell_base, base + 0x2000);
    assert_eq!(regs.runtime_base, base + 0x3000);
    assert_eq!(regs.interrupter_register_set_base, base + 0x3000 + 0x20);
    assert_eq!(regs.interrupter_count, 1024);
    assert_eq!(regs.extended_capabilities_base, None);
}

#[test]
fn null_mmio_base_is_rejected() {
    assert!(matches!(Registers::new(0, sample_capability()), Err(Error::NullMmioBase)));
}

#[test]
fn extended_capability_pointer_scales_by_four() {
    let mut cap = sample_capability();
    cap.hccparams1 = CapabilityParameters1(0x0500 << 16);
    let regs = Registers::new(0x8000_0000, cap).unwrap();
    assert_eq!(regs.extended_capabilities_base, Some(0x8000_0000 + 4 * 0x0500));
}

#[test]
fn capability_field_decode() {
    let cap = sample_capability();
    assert_eq!(cap.caplength.get(), 0x20);
    assert_eq!(cap.hciversion.get(), 0x0110);
    assert_eq!(cap.hcsparams1.number_of_device_slots(), 0x40);
    assert_eq!(cap.hcsparams1.number_of_ports(), 4);
}

#[test]
fn erst_max_is_an_exponent() {
    // ERST Max = 3 (bits 4..=7) means 2^3 = 8 table entries.
    let sp2 = StructuralParameters2(0x30);
    assert_eq!(sp2.event_ring_segment_table_max(), 8);
}

#[test]
fn max_scratchpad_buffers_composes_halves() {
    // HI = 0b00001 (bits 21..=25), LO = 0b00010 (bits 27..=31).
    let sp2 = StructuralParameters2((1 << 21) | (2 << 27));
    assert_eq!(sp2.max_scratchpad_buffers(), (1 << 5) | 2);
}

#[test]
fn rw_field_round_trip_preserves_other_bits() {
    let mut cfg = ConfigureRegister(0xffff_ff00);
    cfg.set_max_device_slots_enabled(5);
    assert_eq!(cfg.max_device_slots_enabled(), 5);
    // Every bit outside 0..=7 is untouched.
    assert_eq!(cfg.0 & 0xffff_ff00, 0xffff_ff00);
    assert_eq!(cfg.0 & 0xff, 5);
}

#[test]
fn rw_bit_set_and_clear() {
    let mut cmd = UsbCommandRegister(0);
    cmd.set_run_stop();
    assert!(cmd.run_stop());
    assert_eq!(cmd.0, 1);
    cmd.set_interrupter_enable();
    assert_eq!(cmd.0, 0b101);
    cmd.clear_run_stop();
    assert!(!cmd.run_stop());
    assert_eq!(cmd.0, 0b100);
}

#[test]
fn w1c_clear_leaves_other_bits_unchanged() {
    let mut sts = UsbStatusRegister(0xffff_ffff);
    sts.clear_event_interrupt();
    assert!(!sts.event_interrupt());
    assert_eq!(sts.0, 0xffff_ffff & !(1 << 3));
}

#[test]
fn zero_trailing_writer_rejects_misaligned() {
    let mut erdp = EventRingDequeuePointerRegister(0);
    assert_eq!(erdp.set_event_ring_dequeue_pointer(0x1008), Err(Error::Misaligned));
    assert_eq!(erdp.0, 0);
    assert_eq!(erdp.set_event_ring_dequeue_pointer(0x1010), Ok(()));
    assert_eq!(erdp.event_ring_dequeue_pointer(), 0x1010);
}

#[test]
fn erdp_pointer_write_preserves_low_bits() {
    let mut erdp = EventRingDequeuePointerRegister(0);
    erdp.set_dequeue_erst_segment_index(5);
    assert_eq!(erdp.set_event_ring_dequeue_pointer(0x4000), Ok(()));
    assert_eq!(erdp.dequeue_erst_segment_index(), 5);
    assert_eq!(erdp.event_ring_dequeue_pointer(), 0x4000);
}

#[test]
fn crcr_pointer_round_trip() {
    let mut crcr = CommandRingControlRegister(0);
    assert_eq!(crcr.set_command_ring_pointer(0xdead_0000), Ok(()));
    assert_eq!(crcr.command_ring_pointer(), 0xdead_0000);
    assert_eq!(crcr.set_command_ring_pointer(0xdead_0020), Err(Error::Misaligned));
}

#[test]
fn device_notification_control_bounds() {
    let mut dnc = DeviceNotificationControl(0);
    assert_eq!(dnc.set(16), Err(Error::NotificationIndexOutOfRange));
    assert_eq!(dnc.get(16), Err(Error::NotificationIndexOutOfRange));
    assert_eq!(dnc.clear(99), Err(Error::NotificationIndexOutOfRange));
    assert_eq!(dnc.set(3), Ok(()));
    assert_eq!(dnc.get(3), Ok(true));
    assert_eq!(dnc.0, 1 << 3);
    assert_eq!(dnc.clear(3), Ok(()));
    assert_eq!(dnc.get(3), Ok(false));
}

#[test]
fn page_size_flags() {
    assert_eq!(PageSizeRegister(0x0001).get(), 1);
    assert_eq!(PageSizeRegister(0x0401).get(), 0x0401);
}

#[test]
fn port_indicator_is_total() {
    let mut portsc = PortStatusAndControlRegister(0);
    portsc.set_port_indicator_control(PortIndicator::Green);
    assert_eq!(portsc.port_indicator_control(), PortIndicator::Green);
    assert_eq!(portsc.0, 2 << 14);
}

#[test]
fn l1_status_reserved_is_none() {
    assert_eq!(PortPowerManagementStatusAndControlRegister(5).l1_status(), None);
    assert_eq!(
        PortPowerManagementStatusAndControlRegister(2).l1_status(),
        Some(L1Status::NotYet)
    );
}

#[test]
fn port_test_control_round_trip_and_reserved() {
    let mut pm = PortPowerManagementStatusAndControlRegister(0);
    pm.set_port_test_control(TestMode::Se0Nak);
    assert_eq!(pm.port_test_control(), Some(TestMode::Se0Nak));
    assert_eq!(PortPowerManagementStatusAndControlRegister(7 << 28).port_test_control(), None);
}

#[test]
fn doorbell_fields() {
    let mut db = Doorbell(0);
    db.set_doorbell_target(1);
    db.set_doorbell_stream_id(7);
    assert_eq!(db.doorbell_target(), 1);
    assert_eq!(db.doorbell_stream_id(), 7);
    assert_eq!(db.0, 1 | (7 << 16));
}

#[test]
fn microframe_index_is_fourteen_bits() {
    assert_eq!(MicroframeIndexRegister(0xffff_ffff).microframe_index(), 0x3fff);
}

#[test]
fn interrupter_management_bits() {
    let mut iman = InterrupterManagementRegister(0b11);
    assert!(iman.interrupt_pending());
    assert!(iman.interrupt_enable());
    iman.clear_interrupt_pending();
    assert!(!iman.interrupt_pending());
    assert!(iman.interrupt_enable());
}

#[test]
fn erstba_alignment() {
    let mut erstba = EventRingSegmentTableBaseAddressRegister(0);
    assert_eq!(erstba.set(0x1010), Err(Error::Misaligned));
    assert_eq!(erstba.set(0x1040), Ok(()));
    assert_eq!(erstba.get(), 0x1040);
}

#[test]
fn registers_hand_out_a_list_cursor() {
    let mut cap = sample_capability();
    let regs = Registers::new(0x8000_0000, cap).unwrap();
    let mut list = regs.extended_capabilities();
    let region: Vec<u32> = vec![0x0001];
    assert!(list.next(&region).is_none());

    cap.hccparams1 = CapabilityParameters1(0x0500 << 16);
    let regs = Registers::new(0x8000_0000, cap).unwrap();
    let mut list = regs.extended_capabilities();
    assert!(list.next(&region).is_some());
}

#[test]
fn dcbaap_round_trip() {
    let mut dcbaap = DeviceContextBaseAddressArrayPointerRegister(0);
    assert_eq!(dcbaap.set(0xcafe_0040), Ok(()));
    assert_eq!(dcbaap.get(), 0xcafe_0040);
    assert_eq!(dcbaap.set(0xcafe_0020), Err(Error::Misaligned));
    assert_eq!(dcbaap.get(), 0xcafe_0040);
}

#[test]
fn port_link_state_field() {
    let mut portsc = PortStatusAndControlRegister(0);
    portsc.set_port_link_state(0xf);
    assert_eq!(portsc.port_link_state(), 0xf);
    assert_eq!(portsc.0, 0xf << 5);
}
