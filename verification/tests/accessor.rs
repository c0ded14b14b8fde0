//! The register blocks driven through the single-register accessor and the
//! in-memory test double.

use xhci::accessor::BufferMapper;
use xhci::accessor::Single;
use xhci::extended_capabilities::xhci_extended_message_interrupt::XhciExtendedMessageInterrupt;
use xhci::extended_capabilities::ExtendedCapability;
use xhci::HcInitializer;

#[test]
fn buffer_mapper_starts_zeroed() {
    let m = BufferMapper::new(0x1000, 4);
    for i in 0..4 {
        assert_eq!(m.word(i), 0);
    }
}

#[test]
fn debug_block_reads_preset_registers() {
    let mut m = BufferMapper::new(0x1000, 0x20);
    m.set_word(0x00 / 4, 0x0003_0000); // Capability ID
    m.set_word(0x20 / 4, 0x8000_0012); // Control
    m.set_word(0x24 / 4, 0x0500_0001); // Status
    let mut d = xhci::extended_capabilities::debug::Debug::new(0x1000, &m);
    let id = d.dcid.read();
    assert_eq!(id.debug_capability_event_ring_segment_table_max(), 3);
    let c = d.dcctrl.read();
    assert!(c.debug_capability_enable());
    assert!(c.link_status_event_enable());
    assert!(c.dbc_run_change());
    assert!(!c.dbc_run());
    let s = d.dcst.read();
    assert!(s.event_ring_not_empty());
    assert_eq!(s.debug_port_number(), 5);
}

#[test]
fn single_write_read_round_trip() {
    let m = BufferMapper::new(0, 0x20);
    let mut d = xhci::extended_capabilities::debug::Debug::new(0, &m);
    let mut sz = d.dcerstsz.read();
    sz.set(0x00AB);
    d.dcerstsz.write(sz);
    assert_eq!(d.dcerstsz.read().get(), 0x00AB);
}

#[test]
fn single_write_read_round_trip_64_bit() {
    let m = BufferMapper::new(0, 0x20);
    let mut d = xhci::extended_capabilities::debug::Debug::new(0, &m);
    let mut ba = d.dcerstba.read();
    ba.set(0x1_2345_6780);
    d.dcerstba.write(ba);
    assert_eq!(d.dcerstba.read().get(), 0x1_2345_6780);
    let mut cp = d.dccp.read();
    cp.set(0xFEDC_BA98_7654_3210);
    d.dccp.write(cp);
    assert_eq!(d.dccp.read().get(), 0xFEDC_BA98_7654_3210);
}

#[test]
fn reads_off_the_buffer_yield_zero() {
    // the buffer covers only the first registers; the rest read as zero
    let m = BufferMapper::new(0, 4);
    let mut d = xhci::extended_capabilities::debug::Debug::new(0, &m);
    assert_eq!(d.dcddi2.read().into_raw(), 0);
    assert_eq!(d.dccp.read().get(), 0);
}

#[test]
fn message_interrupt_block_reads_preset_words() {
    let mut m = BufferMapper::new(0x40, 3);
    m.set_word(0, 0x8005_A00D);
    m.set_word(1, 0xDEAD_BEEF);
    m.set_word(2, 0x0000_1007);
    let mut s: Single<XhciExtendedMessageInterrupt, BufferMapper> = Single::new(0x40, m);
    let x = s.read();
    assert!(x.control.msi_x_enable());
    assert_eq!(x.control.table_size(), 5);
    assert_eq!(x.upper_address, 0xDEAD_BEEF);
    assert_eq!(x.table_offset.bir(), 7);
    assert_eq!(x.table_offset.offset(), 0x1000);
}

#[test]
fn message_interrupt_block_write_read_round_trip() {
    let mut m = BufferMapper::new(0x40, 3);
    m.set_word(0, 0x8005_A00D);
    let mut s: Single<XhciExtendedMessageInterrupt, BufferMapper> = Single::new(0x40, m);
    let mut x = s.read();
    x.control.set_msi_x_enable(false);
    x.upper_address = 0x0000_0001;
    s.write(x);
    let y = s.read();
    assert!(!y.control.msi_x_enable());
    assert_eq!(y.control.table_size(), 5);
    assert_eq!(y.upper_address, 0x0000_0001);
}

#[test]
fn message_interrupt_words_round_trip() {
    let x = XhciExtendedMessageInterrupt::from_words(0x8005_A00D, 0xDEAD_BEEF, 0x0000_1007);
    assert!(x.control.msi_x_enable());
    assert_eq!(x.control.table_size(), 5);
    assert_eq!(x.upper_address, 0xDEAD_BEEF);
    assert_eq!(x.table_offset.bir(), 7);
    assert_eq!(x.table_offset.offset(), 0x1000);
    let (w0, w1, w2) = x.to_words();
    assert_eq!(w0, 0x8005_A00D); // the id and next-pointer bytes survive the trip
    assert_eq!(w1, 0xDEAD_BEEF);
    assert_eq!(w2, 0x0000_1007);
}

#[test]
fn extended_capability_tags_debug() {
    let m = BufferMapper::new(0, 0x20);
    let d = xhci::extended_capabilities::debug::Debug::new(0, &m);
    let cap = ExtendedCapability::from(d);
    assert!(matches!(cap, ExtendedCapability::Debug(_)));
}

#[test]
fn extended_capability_tags_message_interrupt() {
    let s: Single<XhciExtendedMessageInterrupt, BufferMapper> =
        Single::new(0, BufferMapper::new(0, 3));
    let cap = ExtendedCapability::from(s);
    assert!(matches!(cap, ExtendedCapability::XhciExtendedMessageInterrupt(_)));
}

#[test]
fn hc_initializer_exists() {
    let _hc = HcInitializer;
}
