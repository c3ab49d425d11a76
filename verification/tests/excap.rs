use xhci::error::Error;
use xhci::extended_capabilities::xhci_message_interrupt::MessageInterrupt;
use xhci::extended_capabilities::xhci_supported_protocol::{
    BitRate, LinkProtocol, ProtocolSpeedId, PsiType,
};
use xhci::extended_capabilities::{ExtendedCapabilities, List};
use xhci::extended_capabilities::usb_legacy_support::UsbLegacySupport;
use xhci::extended_capabilities::xhci_extended_message_interrupt::XhciExtendedMessageInterrupt;

#[test]
fn traversal_yields_three_capabilities() {
    // header[0] = {id = 1, next = 2}, header[2] = {id = 2, next = 4},
    // header[6] = {id = 17, next = 0}.
    let mut regs = vec![0u32; 16];
    regs[0] = 0x0201; // USB Legacy Support, next capability 2 dwords on
    regs[2] = 0x0402; // Supported Protocol (PSI count 0), next 4 dwords on
    regs[6] = 0x0011; // Extended Message Interrupt, end of list
    let mut list = List::new();

    match list.next(&regs) {
        Some(Ok(ExtendedCapabilities::UsbLegacySupport(_))) => {}
        other => panic!("expected UsbLegacySupport, got {:?}", other.is_some()),
    }
    match list.next(&regs) {
        Some(Ok(ExtendedCapabilities::SupportedProtocol(sp))) => {
            assert_eq!(sp.psi_array.len(), 0);
        }
        other => panic!("expected SupportedProtocol, got {:?}", other.is_some()),
    }
    match list.next(&regs) {
        Some(Ok(ExtendedCapabilities::ExtendedMessageInterrupt(_))) => {}
        other => panic!("expected ExtendedMessageInterrupt, got {:?}", other.is_some()),
    }
    assert!(list.next(&regs).is_none());
    assert!(list.next(&regs).is_none());
}

#[test]
fn empty_list_terminates_immediately() {
    let regs = vec![0u32; 4];
    let mut list = List::new_empty();
    assert!(list.next(&regs).is_none());
}

#[test]
fn unknown_id_is_handed_back() {
    let regs = vec![0x0063u32, 0, 0, 0]; // id 99, next 0
    let mut list = List::new();
    match list.next(&regs) {
        Some(Err((base, id))) => {
            assert_eq!(base, 0);
            assert_eq!(id, 99);
        }
        _ => panic!("expected the offset-ID pair"),
    }
    assert!(list.next(&regs).is_none());
}

#[test]
fn truncated_payload_is_handed_back() {
    // A Debug capability (16 dwords) at the end of a 4-dword region.
    let regs = vec![0x000au32, 0, 0, 0];
    let mut list = List::new();
    match list.next(&regs) {
        Some(Err((base, id))) => {
            assert_eq!(base, 0);
            assert_eq!(id, 10);
        }
        _ => panic!("expected the offset-ID pair"),
    }
}

#[test]
fn message_interrupt_shape_follows_control_bit() {
    // Message Control lives in the high half of the first dword; bit 7 of
    // the control word selects the 64-bit shape.
    let regs64 = vec![0x0005u32 | (0x80 << 16), 0xfee0_0000, 0x1, 0x4321, 0, 0];
    let mut list = List::new();
    match list.next(&regs64) {
        Some(Ok(ExtendedCapabilities::MessageInterrupt(mi))) => {
            assert!(mi.bit64_address_capable());
            match mi {
                MessageInterrupt::Addr64(m) => {
                    assert_eq!(m.address(), 0x1_fee0_0000);
                    assert_eq!(m.data, 0x4321);
                }
                MessageInterrupt::Addr32(_) => panic!("expected the 64-bit shape"),
            }
        }
        _ => panic!("expected MessageInterrupt"),
    }

    let regs32 = vec![0x0005u32, 0xfee0_0004, 0, 0x1111, 0, 0];
    let mut list = List::new();
    match list.next(&regs32) {
        Some(Ok(ExtendedCapabilities::MessageInterrupt(mi))) => {
            assert!(!mi.bit64_address_capable());
            match mi {
                MessageInterrupt::Addr32(m) => {
                    assert_eq!(m.address(), 0xfee0_0004);
                    assert_eq!(m.data, 0x1111);
                }
                MessageInterrupt::Addr64(_) => panic!("expected the 32-bit shape"),
            }
        }
        _ => panic!("expected MessageInterrupt"),
    }
}

#[test]
fn local_memory_describes_its_dwords() {
    let regs = vec![0x0006u32 | (1 << 16), 2, 0, 0];
    let mut list = List::new();
    match list.next(&regs) {
        Some(Ok(ExtendedCapabilities::LocalMemory(lm))) => {
            assert!(lm.header.local_memory_enable());
            assert_eq!(lm.header.size(), 2);
            assert_eq!(lm.memory_offset, 2);
            assert_eq!(lm.memory_dwords, 512);
        }
        _ => panic!("expected LocalMemory"),
    }
}

#[test]
fn usb_debug_registers_decode() {
    let mut regs = vec![0u32; 16];
    regs[0] = 0x000a;
    regs[14] = 0x5678_0003; // dcddi1: vendor id 0x5678, protocol 3
    regs[15] = 0x0002_0001; // dcddi2: revision 2, product 1
    let mut list = List::new();
    match list.next(&regs) {
        Some(Ok(ExtendedCapabilities::UsbDebug(d))) => {
            assert_eq!(d.dcddi1.vendor_id(), 0x5678);
            assert_eq!(d.dcddi1.dbc_protocol(), 3);
            assert_eq!(d.dcddi2.product_id(), 1);
            assert_eq!(d.dcddi2.device_revision(), 2);
        }
        _ => panic!("expected UsbDebug"),
    }
}

#[test]
fn supported_protocol_psi_array() {
    let mut regs = vec![0u32; 8];
    regs[0] = 0x0002 | (0x03 << 16) | (0x01 << 24); // minor 3, major 1, end of list
    regs[1] = 0x20425355; // name string "USB "
    regs[2] = 2u32 << 28; // PSI count = 2
    regs[4] = 0x000a_4023; // PSI dword
    regs[5] = 0x0005_0012;
    let mut list = List::new();
    match list.next(&regs) {
        Some(Ok(ExtendedCapabilities::SupportedProtocol(sp))) => {
            assert_eq!(sp.header.minor_revision(), 3);
            assert_eq!(sp.header.major_revision(), 1);
            assert_eq!(sp.header.name_string(), 0x20425355);
            assert_eq!(sp.header.protocol_speed_id_count(), 2);
            assert_eq!(sp.psi_array.len(), 2);
            assert_eq!(sp.psi_array[0].protocol_speed_id_value(), 3);
            assert_eq!(sp.psi_array[1].protocol_speed_id_mantissa(), 5);
        }
        _ => panic!("expected SupportedProtocol"),
    }
}

#[test]
fn psi_fields_decode() {
    // value 3, exponent 2 (Mb), type 0 (Symmetric), full duplex,
    // link protocol 1, mantissa 5.
    let psi = ProtocolSpeedId(3 | (2 << 4) | (1 << 8) | (1 << 14) | (5 << 16));
    assert_eq!(psi.protocol_speed_id_value(), 3);
    assert_eq!(psi.protocol_speed_id_exponent(), BitRate::Mb);
    assert_eq!(psi.psi_type(), Ok(PsiType::Symmetric));
    assert!(psi.psi_full_duplex());
    assert_eq!(psi.link_protocol(), Ok(LinkProtocol::SuperSpeedPlus));
    assert_eq!(psi.protocol_speed_id_mantissa(), 5);
}

#[test]
fn psi_reserved_patterns_fail() {
    // PSI type 1 is reserved; link protocol 2 and 3 are reserved.
    assert_eq!(ProtocolSpeedId(1 << 6).psi_type(), Err(Error::ReservedValue));
    assert_eq!(ProtocolSpeedId(2 << 14).link_protocol(), Err(Error::ReservedValue));
    assert_eq!(ProtocolSpeedId(3 << 14).link_protocol(), Err(Error::ReservedValue));
    assert_eq!(ProtocolSpeedId(2 << 6).psi_type(), Ok(PsiType::AsymmetricRx));
}

#[test]
fn cursor_advances_by_dwords() {
    let mut regs = vec![0u32; 8];
    regs[0] = 0x0399; // unknown id 0x99? id = 0x99 is 153; next = 3
    regs[3] = 0x0001; // legacy support, end of list
    let mut list = List::new();
    assert!(matches!(list.next(&regs), Some(Err((0, 0x99)))));
    assert_eq!(list.cur, 3);
    assert!(matches!(
        list.next(&regs),
        Some(Ok(ExtendedCapabilities::UsbLegacySupport(_)))
    ));
    assert!(list.next(&regs).is_none());
}

#[test]
fn out_of_region_cursor_ends_the_list() {
    let regs = vec![0x2001u32, 0]; // legacy support, next 0x20 dwords on
    let mut list = List::new();
    assert!(matches!(
        list.next(&regs),
        Some(Ok(ExtendedCapabilities::UsbLegacySupport(_)))
    ));
    assert!(list.next(&regs).is_none());
}

#[test]
fn legacy_support_semaphores() {
    let regs = vec![0x0001u32 | (1 << 16), 1 << 13];
    let cap = UsbLegacySupport::read_at(&regs, 0);
    assert!(cap.cap_header.hc_bios_owned_semaphore());
    assert!(!cap.cap_header.hc_os_owned_semaphore());
    assert!(cap.usblegctlsts.smi_on_os_ownership_enable());
    let mut hdr = cap.cap_header;
    hdr.set_hc_os_owned_semaphore();
    assert!(hdr.hc_os_owned_semaphore());
}

#[test]
fn power_management_fields_decode() {
    let regs = vec![0x0003u32 | (0x4802 << 16), 0x0102_4103];
    let mut list = List::new();
    match list.next(&regs) {
        Some(Ok(ExtendedCapabilities::ExtendedPowerManagement(pm))) => {
            // PMC = 0x4802: version 2, aux current 0, PME support 0b01001.
            assert_eq!(pm.pmc.version(), 2);
            assert_eq!(pm.pmc.pme_support(), 0b01001);
            // PMCSR = 0x4103: power state 3, PME_En, data select 0,
            // data scale 2.
            assert_eq!(pm.pmcsr.power_state(), 3);
            assert!(pm.pmcsr.pme_en());
            assert_eq!(pm.pmcsr.data_scale(), 2);
            assert_eq!(pm.pmcsr_bse.0, 2);
            assert_eq!(pm.data, 1);
        }
        _ => panic!("expected ExtendedPowerManagement"),
    }
}

#[test]
fn msi_x_fields_decode() {
    let regs = vec![0x0011u32 | (0x800a << 16), 0xaaaa_0000, 0x0000_4005];
    let cap = XhciExtendedMessageInterrupt::read_at(&regs, 0);
    assert!(cap.control.msi_x_enable());
    assert_eq!(cap.control.table_size(), 0x00a);
    assert_eq!(cap.upper_address, 0xaaaa_0000);
    assert_eq!(cap.table_offset.bir(), 5);
    assert_eq!(cap.table_offset.offset(), 0x4000);
}
