//! Value-level behaviour of the register types: field round trips, field
//! isolation, write-1-to-clear semantics, alignment, and the concrete decode
//! scenarios.

use xhci::extended_capabilities::debug::ContextPointer;
use xhci::extended_capabilities::debug::Control;
use xhci::extended_capabilities::debug::DeviceDescriptorInfo1;
use xhci::extended_capabilities::debug::DeviceDescriptorInfo2;
use xhci::extended_capabilities::debug::Doorbell;
use xhci::extended_capabilities::debug::EventRingDequeuePointer;
use xhci::extended_capabilities::debug::EventRingSegmentTableBaseAddress;
use xhci::extended_capabilities::debug::EventRingSegmentTableSize;
use xhci::extended_capabilities::debug::Id;
use xhci::extended_capabilities::debug::PortStatusAndControl;
use xhci::extended_capabilities::debug::Status;
use xhci::extended_capabilities::xhci_extended_message_interrupt::MessageControl;
use xhci::extended_capabilities::xhci_extended_message_interrupt::TableOffset;

#[test]
fn erstsz_round_trip_keeps_upper_bits() {
    for v in [0u16, 1, 0x00FF, 0x7FFF, 0xFFFF] {
        let mut r = EventRingSegmentTableSize::from_raw(0xDEAD_0000);
        r.set(v);
        assert_eq!(r.get(), v);
        assert_eq!(r.into_raw(), 0xDEAD_0000 | u32::from(v));
    }
}

#[test]
fn id_decodes_table_max() {
    let r = Id::from_raw(0x001F_0000);
    assert_eq!(r.debug_capability_event_ring_segment_table_max(), 0x1F);
    assert_eq!(Id::from_raw(0x0003_0000).debug_capability_event_ring_segment_table_max(), 3);
}

#[test]
fn doorbell_target_sits_in_bits_8_to_15() {
    let mut r = Doorbell::from_raw(0);
    r.set_doorbell_target(0xAA);
    assert_eq!(r.into_raw(), 0x0000_AA00);
    let mut r = Doorbell::from_raw(0xFFFF_FFFF);
    r.set_doorbell_target(0);
    assert_eq!(r.into_raw(), 0xFFFF_00FF);
}

#[test]
fn erstba_set_get_aligned() {
    let mut r = EventRingSegmentTableBaseAddress::from_raw(0);
    r.set(0x1000);
    assert_eq!(r.get(), 0x1000);
    r.set(0xFFFF_FFFF_FFFF_FFF0);
    assert_eq!(r.get(), 0xFFFF_FFFF_FFFF_FFF0);
}

#[test]
fn context_pointer_set_get_aligned() {
    let mut r = ContextPointer::from_raw(0);
    r.set(0xABCD_EF00);
    assert_eq!(r.get(), 0xABCD_EF00);
}

#[test]
fn dequeue_pointer_keeps_segment_index() {
    let mut r = EventRingDequeuePointer::from_raw(0x7);
    r.set_dequeue_pointer(0xABCD_EF00);
    assert_eq!(r.into_raw(), 0xABCD_EF07);
    assert_eq!(r.dequeue_pointer(), 0xABCD_EF00);
    assert_eq!(r.dequeue_erst_segment_index(), 7);
}

#[test]
fn segment_index_keeps_pointer() {
    let mut r = EventRingDequeuePointer::from_raw(0xFFFF_FFFF_FFFF_FFF0);
    r.set_dequeue_erst_segment_index(5);
    assert_eq!(r.into_raw(), 0xFFFF_FFFF_FFFF_FFF5);
    assert_eq!(r.dequeue_erst_segment_index(), 5);
    assert_eq!(r.dequeue_pointer(), 0xFFFF_FFFF_FFFF_FFF0);
}

#[test]
fn control_decode_scenario() {
    let c = Control::from_raw(0x8000_0012);
    assert!(c.debug_capability_enable());
    assert!(c.link_status_event_enable());
    assert!(c.dbc_run_change());
    assert!(!c.halt_out_tr());
    assert!(!c.halt_in_tr());
    assert!(!c.dbc_run());
    assert_eq!(c.debug_max_burst_size(), 0);
    assert_eq!(c.device_address(), 0);
}

#[test]
fn control_reencode_scenario() {
    let mut e = Control::from_raw(0);
    e.set_link_status_event_enable(true);
    e.set_dbc_run_change(true);
    e.set_debug_capability_enable(true);
    assert_eq!(e.into_raw(), 0x8000_0012);
}

#[test]
fn control_field_isolation() {
    // read-only fields and other bits survive every setter
    let mut c = Control::from_raw(0x7FAB_0001);
    c.set_link_status_event_enable(true);
    c.set_halt_out_tr(true);
    c.set_halt_in_tr(true);
    c.set_dbc_run_change(true);
    c.set_debug_capability_enable(true);
    assert!(c.dbc_run());
    assert_eq!(c.debug_max_burst_size(), 0xAB);
    assert_eq!(c.device_address(), 0x7F);
    assert_eq!(c.into_raw(), 0xFFAB_001F);
    c.set_halt_out_tr(false);
    c.set_halt_in_tr(false);
    c.set_dbc_run_change(false);
    c.set_link_status_event_enable(false);
    c.set_debug_capability_enable(false);
    assert_eq!(c.into_raw(), 0x7FAB_0001);
}

#[test]
fn control_rw1c_non_interference() {
    // DbC Run Change latched; an unrelated read-write update must not clear it
    let cur = Control::from_raw(1 << 4);
    let mut w = cur.to_neutral();
    w.set_link_status_event_enable(true);
    let after = cur.after_write(w);
    assert!(after.dbc_run_change());
    assert!(after.link_status_event_enable());
    // the bit's own setter, invoked with one, clears it
    let mut w2 = cur.to_neutral();
    w2.set_dbc_run_change(true);
    let after2 = cur.after_write(w2);
    assert!(!after2.dbc_run_change());
}

#[test]
fn control_write_effect_keeps_read_only_fields() {
    let cur = Control::from_raw(0x7FAB_0001);
    let mut w = cur.to_neutral();
    w.set_debug_capability_enable(true);
    let after = cur.after_write(w);
    assert!(after.dbc_run());
    assert_eq!(after.debug_max_burst_size(), 0xAB);
    assert_eq!(after.device_address(), 0x7F);
    assert!(after.debug_capability_enable());
}

#[test]
fn status_decodes_fields() {
    let s = Status::from_raw(0x0500_0003);
    assert!(s.event_ring_not_empty());
    assert!(s.dbc_system_bus_reset());
    assert_eq!(s.debug_port_number(), 5);
    let s = Status::from_raw(0);
    assert!(!s.event_ring_not_empty());
    assert!(!s.dbc_system_bus_reset());
    assert_eq!(s.debug_port_number(), 0);
}

#[test]
fn port_status_decodes_fields() {
    let raw: u32 = (1 << 0) | (1 << 4) | (0xA << 5) | (0x4 << 10) | (1 << 17) | (1 << 21) | (1
        << 22) | (1 << 23);
    let p = PortStatusAndControl::from_raw(raw);
    assert!(p.current_connect_status());
    assert!(!p.port_enabled_disabled());
    assert!(p.port_reset());
    assert_eq!(p.port_link_state(), 0xA);
    assert_eq!(p.port_speed(), 0x4);
    assert!(p.connect_status_change());
    assert!(p.port_reset_change());
    assert!(p.port_link_status_change());
    assert!(p.port_config_error_change());
}

#[test]
fn port_status_field_isolation() {
    let mut p = PortStatusAndControl::from_raw(0x0000_3C11);
    p.set_port_enabled_disabled(true);
    assert_eq!(p.into_raw(), 0x0000_3C13);
    assert!(p.current_connect_status());
    assert!(p.port_reset());
    p.set_connect_status_change(true);
    p.set_port_reset_change(true);
    p.set_port_link_status_change(true);
    p.set_port_config_error_change(true);
    assert_eq!(p.into_raw(), 0x00E2_3C13);
}

#[test]
fn port_status_rw1c_non_interference() {
    let cur = PortStatusAndControl::from_raw(1 << 17);
    let mut w = cur.to_neutral();
    w.set_port_enabled_disabled(true);
    let after = cur.after_write(w);
    assert!(after.connect_status_change());
    assert!(after.port_enabled_disabled());
    let mut w2 = cur.to_neutral();
    w2.set_connect_status_change(true);
    let after2 = cur.after_write(w2);
    assert!(!after2.connect_status_change());
}

#[test]
fn ddi1_round_trip() {
    let mut r = DeviceDescriptorInfo1::from_raw(0);
    r.set_dbc_protocol(0xAB);
    r.set_vendor_id(0x1D6B);
    assert_eq!(r.dbc_protocol(), 0xAB);
    assert_eq!(r.vendor_id(), 0x1D6B);
    assert_eq!(r.into_raw(), 0x1D6B_00AB);
    r.set_dbc_protocol(0);
    assert_eq!(r.vendor_id(), 0x1D6B);
    assert_eq!(r.into_raw(), 0x1D6B_0000);
}

#[test]
fn ddi2_round_trip() {
    let mut r = DeviceDescriptorInfo2::from_raw(0);
    r.set_product_id(0x0010);
    r.set_device_revision(0x0123);
    assert_eq!(r.product_id(), 0x0010);
    assert_eq!(r.device_revision(), 0x0123);
    assert_eq!(r.into_raw(), 0x0123_0010);
    r.set_device_revision(0xFFFF);
    assert_eq!(r.product_id(), 0x0010);
    assert_eq!(r.into_raw(), 0xFFFF_0010);
}

#[test]
fn message_control_round_trip() {
    let mut m = MessageControl::from_raw(0x07FF);
    m.set_msi_x_enable(true);
    assert!(m.msi_x_enable());
    assert_eq!(m.table_size(), 0x07FF);
    assert_eq!(m.into_raw(), 0x87FF);
    m.set_msi_x_enable(false);
    assert!(!m.msi_x_enable());
    assert_eq!(m.into_raw(), 0x07FF);
}

#[test]
fn table_offset_decode() {
    let t = TableOffset::from_raw(0x0000_1007);
    assert_eq!(t.bir(), 7);
    assert_eq!(t.offset(), 0x1000);
    let t = TableOffset::from_raw(0xFFFF_FFFD);
    assert_eq!(t.bir(), 5);
    assert_eq!(t.offset(), 0xFFFF_FFF8);
}
