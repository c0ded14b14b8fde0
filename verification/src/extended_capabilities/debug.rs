//! The Debug Capability (DbC) register block.
//!
//! Eleven registers at fixed byte offsets from the capability's base address
//! form the DbC control, status and event-ring configuration surface. Each
//! register is a value type wrapping its raw bit pattern; every field
//! accessor states exactly which bits it reads or replaces, so that a
//! read-modify-write of one field provably never disturbs another.

use vstd::prelude::*;

use crate::accessor::Mapper;
use crate::accessor::Register;
use crate::accessor::Single;
use crate::bits::bit32;
use crate::bits::field32;
use crate::bits::field64;
use crate::bits::lemma_field32_bound;
use crate::bits::lemma_field64_bound;
use crate::bits::read_bit32;
use crate::bits::read_field32;
use crate::bits::read_field64;
use crate::bits::with_bit32;
use crate::bits::with_field32;
use crate::bits::with_field64;
use crate::bits::write_bit32;
use crate::bits::write_field32;
use crate::bits::write_field64;

verus! {

/// The entry point to the Debug Capability: one accessor per register, at
/// the hardware-fixed byte offsets from the capability's base address.
pub struct Debug<M: Mapper + Clone> {
    /// Capability ID.
    pub dcid: Single<Id, M>,
    /// Doorbell.
    pub dcdb: Single<Doorbell, M>,
    /// Event Ring Segment Table Size.
    pub dcerstsz: Single<EventRingSegmentTableSize, M>,
    /// Event Ring Segment Table Base Address.
    pub dcerstba: Single<EventRingSegmentTableBaseAddress, M>,
    /// Event Ring Dequeue Pointer.
    pub dcerdp: Single<EventRingDequeuePointer, M>,
    /// Control.
    pub dcctrl: Single<Control, M>,
    /// Status.
    pub dcst: Single<Status, M>,
    /// Port Status and Control.
    pub dcportsc: Single<PortStatusAndControl, M>,
    /// Debug Capability Context Pointer.
    pub dccp: Single<ContextPointer, M>,
    /// Device Descriptor Info Register 1.
    pub dcddi1: Single<DeviceDescriptorInfo1, M>,
    /// Device Descriptor Info Register 2.
    pub dcddi2: Single<DeviceDescriptorInfo2, M>,
}

impl<M: Mapper + Clone> Debug<M> {
    /// Creates an instance of the register block at `base`, cloning the
    /// capability once per register. Construction performs no hardware
    /// access. The caller must ensure that `base` genuinely is the Debug
    /// Capability's base address and that the capability is accessed only
    /// through the returned accessors. A base that is not 64-bit aligned
    /// would misalign the 64-bit registers at offsets 0x10, 0x18 and 0x30;
    /// that is a caller programming error, ruled out by the precondition.
    pub fn new(base: usize, mapper: &M) -> (d: Self)
        requires
            base % 8 == 0,
            base + 0x48 <= usize::MAX,
        ensures
            d.dcid.addr_spec() == base + 0x00,
            d.dcdb.addr_spec() == base + 0x04,
            d.dcerstsz.addr_spec() == base + 0x08,
            d.dcerstba.addr_spec() == base + 0x10,
            d.dcerdp.addr_spec() == base + 0x18,
            d.dcctrl.addr_spec() == base + 0x20,
            d.dcst.addr_spec() == base + 0x24,
            d.dcportsc.addr_spec() == base + 0x28,
            d.dccp.addr_spec() == base + 0x30,
            d.dcddi1.addr_spec() == base + 0x38,
            d.dcddi2.addr_spec() == base + 0x3C,
            d.dcid.wf() && d.dcdb.wf() && d.dcerstsz.wf() && d.dcerstba.wf() && d.dcerdp.wf(),
            d.dcctrl.wf() && d.dcst.wf() && d.dcportsc.wf() && d.dccp.wf(),
            d.dcddi1.wf() && d.dcddi2.wf(),
    {
        Debug {
            dcid: Single::new(base + 0x00, mapper.clone()),
            dcdb: Single::new(base + 0x04, mapper.clone()),
            dcerstsz: Single::new(base + 0x08, mapper.clone()),
            dcerstba: Single::new(base + 0x10, mapper.clone()),
            dcerdp: Single::new(base + 0x18, mapper.clone()),
            dcctrl: Single::new(base + 0x20, mapper.clone()),
            dcst: Single::new(base + 0x24, mapper.clone()),
            dcportsc: Single::new(base + 0x28, mapper.clone()),
            dccp: Single::new(base + 0x30, mapper.clone()),
            dcddi1: Single::new(base + 0x38, mapper.clone()),
            dcddi2: Single::new(base + 0x3C, mapper.clone()),
        }
    }
}

/// Debug Capability ID Register.
#[derive(Clone, Copy)]
pub struct Id(u32);

impl View for Id {
    type V = u32;

    closed spec fn view(&self) -> u32 {
        self.0
    }
}

impl Id {
    /// Wraps a raw register value.
    pub fn from_raw(raw: u32) -> (r: Self)
        ensures
            r@ == raw,
    {
        Id(raw)
    }

    /// The raw register value.
    pub fn into_raw(self) -> (r: u32)
        ensures
            r == self@,
    {
        self.0
    }

    /// Returns the Debug Capability Event Ring Segment Table Max field
    /// (read-only).
    pub fn debug_capability_event_ring_segment_table_max(self) -> (v: u8)
        ensures
            v as u32 == field32(self@, 16, 20),
    {
        let f: u32 = read_field32(self.0, 16, 20);
        proof {
            lemma_field32_bound(self.0, 16, 20);
        }
        f as u8
    }
}

/// Debug Capability Doorbell Register.
#[derive(Clone, Copy)]
pub struct Doorbell(u32);

impl View for Doorbell {
    type V = u32;

    closed spec fn view(&self) -> u32 {
        self.0
    }
}

impl Doorbell {
    /// Wraps a raw register value.
    pub fn from_raw(raw: u32) -> (r: Self)
        ensures
            r@ == raw,
    {
        Doorbell(raw)
    }

    /// The raw register value.
    pub fn into_raw(self) -> (r: u32)
        ensures
            r == self@,
    {
        self.0
    }

    /// Sets the Doorbell Target field (write-only): no getter exists, since a
    /// read of this field does not reflect what was last written.
    pub fn set_doorbell_target(&mut self, target: u8)
        ensures
            final(self)@ == with_field32(old(self)@, 8, 15, target as u32),
    {
        self.0 = write_field32(self.0, 8, 15, target as u32);
    }
}

/// Debug Capability Event Ring Segment Table Size Register.
#[derive(Clone, Copy)]
pub struct EventRingSegmentTableSize(u32);

impl View for EventRingSegmentTableSize {
    type V = u32;

    closed spec fn view(&self) -> u32 {
        self.0
    }
}

impl EventRingSegmentTableSize {
    /// Wraps a raw register value.
    pub fn from_raw(raw: u32) -> (r: Self)
        ensures
            r@ == raw,
    {
        EventRingSegmentTableSize(raw)
    }

    /// The raw register value.
    pub fn into_raw(self) -> (r: u32)
        ensures
            r == self@,
    {
        self.0
    }

    /// Returns the value of the Event Ring Segment Table Size field
    /// (read-write).
    pub fn get(self) -> (sz: u16)
        ensures
            sz as u32 == field32(self@, 0, 15),
    {
        let f: u32 = read_field32(self.0, 0, 15);
        proof {
            lemma_field32_bound(self.0, 0, 15);
        }
        f as u16
    }

    /// Sets the value of the Event Ring Segment Table Size field
    /// (read-write).
    pub fn set(&mut self, sz: u16)
        ensures
            final(self)@ == with_field32(old(self)@, 0, 15, sz as u32),
    {
        self.0 = write_field32(self.0, 0, 15, sz as u32);
    }
}

/// Round trip at the register level, an instance of the general field laws:
/// writing the Event Ring Segment Table Size field and reading it back
/// yields the written size, while the upper half of the register keeps
/// every bit.
pub proof fn lemma_erstsz_round_trip(v: u32, sz: u16)
    ensures
        field32(with_field32(v, 0, 15, sz as u32), 0, 15) == sz as u32,
        field32(with_field32(v, 0, 15, sz as u32), 16, 31) == field32(v, 16, 31),
{
    crate::bits::lemma_fits32(sz as u32, 0, 15);
    crate::bits::lemma_field32_round_trip(v, 0, 15, sz as u32);
    crate::bits::lemma_field32_frame(v, 0, 15, sz as u32, 16, 31);
}

/// Debug Capability Event Ring Segment Table Base Address Register.
#[derive(Clone, Copy)]
pub struct EventRingSegmentTableBaseAddress(u64);

impl View for EventRingSegmentTableBaseAddress {
    type V = u64;

    closed spec fn view(&self) -> u64 {
        self.0
    }
}

impl EventRingSegmentTableBaseAddress {
    /// Wraps a raw register value.
    pub fn from_raw(raw: u64) -> (r: Self)
        ensures
            r@ == raw,
    {
        EventRingSegmentTableBaseAddress(raw)
    }

    /// The raw register value.
    pub fn into_raw(self) -> (r: u64)
        ensures
            r == self@,
    {
        self.0
    }

    /// Returns the value of the Event Ring Segment Table Base Address field
    /// (read-write).
    pub fn get(self) -> (a: u64)
        ensures
            a == self@,
    {
        self.0
    }

    /// Sets the value of the Event Ring Segment Table Base Address field
    /// (read-write). Supplying an address that is not 16-byte aligned is a
    /// caller programming error, ruled out by the precondition.
    pub fn set(&mut self, a: u64)
        requires
            a % 16 == 0,
        ensures
            final(self)@ == a,
    {
        self.0 = a;
    }
}

/// Debug Capability Event Ring Dequeue Pointer Register: a 3-bit segment
/// index in the low bits and a 16-byte-aligned pointer in bits 4..=63.
#[derive(Clone, Copy)]
pub struct EventRingDequeuePointer(u64);

impl View for EventRingDequeuePointer {
    type V = u64;

    closed spec fn view(&self) -> u64 {
        self.0
    }
}

impl EventRingDequeuePointer {
    /// Wraps a raw register value.
    pub fn from_raw(raw: u64) -> (r: Self)
        ensures
            r@ == raw,
    {
        EventRingDequeuePointer(raw)
    }

    /// The raw register value.
    pub fn into_raw(self) -> (r: u64)
        ensures
            r == self@,
    {
        self.0
    }

    /// Returns the Dequeue ERST Segment Index field (read-write).
    pub fn dequeue_erst_segment_index(self) -> (v: u8)
        ensures
            v as u64 == field64(self@, 0, 2),
    {
        let f: u64 = read_field64(self.0, 0, 2);
        proof {
            lemma_field64_bound(self.0, 0, 2);
        }
        f as u8
    }

    /// Sets the Dequeue ERST Segment Index field (read-write). The index has
    /// three bits, so the value must be below eight.
    pub fn set_dequeue_erst_segment_index(&mut self, i: u8)
        requires
            i < 8,
        ensures
            final(self)@ == with_field64(old(self)@, 0, 2, i as u64),
    {
        self.0 = write_field64(self.0, 0, 2, i as u64);
    }

    /// Returns the value of the Dequeue Pointer field (read-write): the raw
    /// value with the low four bits, which carry the segment index, masked
    /// off.
    pub fn dequeue_pointer(self) -> (a: u64)
        ensures
            a == self@ & !0xFu64,
    {
        self.0 & !0xFu64
    }

    /// Sets the value of the Dequeue Pointer field (read-write): bits 4..=63
    /// take the pointer and the segment index in the low bits is untouched.
    /// Supplying an address that is not 16-byte aligned is a caller
    /// programming error, ruled out by the precondition.
    pub fn set_dequeue_pointer(&mut self, a: u64)
        requires
            a % 16 == 0,
        ensures
            final(self)@ == with_field64(old(self)@, 4, 63, a >> 4u64),
            final(self)@ == (old(self)@ & 0xF) | a,
            final(self)@ & !0xFu64 == a,
            field64(final(self)@, 0, 2) == field64(old(self)@, 0, 2),
    {
        proof {
            lemma_dequeue_pointer_write(self.0, a);
        }
        self.0 = write_field64(self.0, 4, 63, a >> 4u64);
    }
}

/// Writing an aligned dequeue pointer into bits 4..=63 keeps the low four
/// bits, so the segment index is preserved, and the pointer portion reads
/// back exactly as written.
pub proof fn lemma_dequeue_pointer_write(v: u64, a: u64)
    by (bit_vector)
    requires
        a % 16 == 0,
    ensures
        with_field64(v, 4, 63, a >> 4u64) == (v & 0xF) | a,
        ((v & 0xF) | a) & !0xFu64 == a,
        field64((v & 0xF) | a, 0, 2) == field64(v, 0, 2),
{
}

/// Debug Capability Control Register.
#[derive(Clone, Copy)]
pub struct Control(u32);

impl View for Control {
    type V = u32;

    closed spec fn view(&self) -> u32 {
        self.0
    }
}

impl Control {
    /// Wraps a raw register value.
    pub fn from_raw(raw: u32) -> (r: Self)
        ensures
            r@ == raw,
    {
        Control(raw)
    }

    /// The raw register value.
    pub fn into_raw(self) -> (r: u32)
        ensures
            r == self@,
    {
        self.0
    }

    /// Returns the DbC Run bit (read-only).
    pub fn dbc_run(self) -> (b: bool)
        ensures
            b == bit32(self@, 0),
    {
        read_bit32(self.0, 0)
    }

    /// Returns the Link Status Event Enable bit (read-write).
    pub fn link_status_event_enable(self) -> (b: bool)
        ensures
            b == bit32(self@, 1),
    {
        read_bit32(self.0, 1)
    }

    /// Sets the Link Status Event Enable bit (read-write).
    pub fn set_link_status_event_enable(&mut self, b: bool)
        ensures
            final(self)@ == with_bit32(old(self)@, 1, b),
    {
        self.0 = write_bit32(self.0, 1, b);
    }

    /// Returns the Halt OUT TR bit (write-1-to-set).
    pub fn halt_out_tr(self) -> (b: bool)
        ensures
            b == bit32(self@, 2),
    {
        read_bit32(self.0, 2)
    }

    /// Sets the Halt OUT TR bit (write-1-to-set): writing one asks the
    /// controller to halt the OUT transfer ring; writing zero is a no-op on
    /// the hardware side.
    pub fn set_halt_out_tr(&mut self, b: bool)
        ensures
            final(self)@ == with_bit32(old(self)@, 2, b),
    {
        self.0 = write_bit32(self.0, 2, b);
    }

    /// Returns the Halt IN TR bit (write-1-to-set).
    pub fn halt_in_tr(self) -> (b: bool)
        ensures
            b == bit32(self@, 3),
    {
        read_bit32(self.0, 3)
    }

    /// Sets the Halt IN TR bit (write-1-to-set): writing one asks the
    /// controller to halt the IN transfer ring; writing zero is a no-op on
    /// the hardware side.
    pub fn set_halt_in_tr(&mut self, b: bool)
        ensures
            final(self)@ == with_bit32(old(self)@, 3, b),
    {
        self.0 = write_bit32(self.0, 3, b);
    }

    /// Returns the DbC Run Change bit (write-1-to-clear): latched by the
    /// controller when DbC Run changes.
    pub fn dbc_run_change(self) -> (b: bool)
        ensures
            b == bit32(self@, 4),
    {
        read_bit32(self.0, 4)
    }

    /// Sets the DbC Run Change bit (write-1-to-clear): writing one clears
    /// the latched condition; writing zero leaves it untouched.
    pub fn set_dbc_run_change(&mut self, b: bool)
        ensures
            final(self)@ == with_bit32(old(self)@, 4, b),
    {
        self.0 = write_bit32(self.0, 4, b);
    }

    /// Returns the Debug Max Burst Size field (read-only).
    pub fn debug_max_burst_size(self) -> (v: u8)
        ensures
            v as u32 == field32(self@, 16, 23),
    {
        let f: u32 = read_field32(self.0, 16, 23);
        proof {
            lemma_field32_bound(self.0, 16, 23);
        }
        f as u8
    }

    /// Returns the Device Address field (read-only).
    pub fn device_address(self) -> (v: u8)
        ensures
            v as u32 == field32(self@, 24, 30),
    {
        let f: u32 = read_field32(self.0, 24, 30);
        proof {
            lemma_field32_bound(self.0, 24, 30);
        }
        f as u8
    }

    /// Returns the Debug Capability Enable bit (read-write).
    pub fn debug_capability_enable(self) -> (b: bool)
        ensures
            b == bit32(self@, 31),
    {
        read_bit32(self.0, 31)
    }

    /// Sets the Debug Capability Enable bit (read-write).
    pub fn set_debug_capability_enable(&mut self, b: bool)
        ensures
            final(self)@ == with_bit32(old(self)@, 31, b),
    {
        self.0 = write_bit32(self.0, 31, b);
    }

    /// Returns a copy with every write-1-to-clear and write-1-to-set bit
    /// zeroed: the safe starting point for a read-modify-write that does not
    /// target them, so a latched condition is never cleared, nor a halt
    /// requested, by accident.
    pub fn to_neutral(self) -> (r: Self)
        ensures
            r@ == control_neutral(self@),
    {
        Control(self.0 & !0x1Cu32)
    }

    /// The register content after the controller applies a write of `w` to a
    /// register currently holding `self`: a model of the hardware's
    /// per-category write semantics, for reasoning and for test doubles.
    pub fn after_write(self, w: Control) -> (r: Control)
        ensures
            r@ == control_write_effect(self@, w@),
    {
        Control(
            (self.0 & !0x8000_001Eu32) | (w.0 & 0x8000_0002u32) | ((self.0 | w.0) & 0xCu32) | ((
            self.0 & !w.0) & 0x10u32),
        )
    }
}

/// A Control value with the write-1-to-clear bit (DbC Run Change) and the
/// write-1-to-set bits (Halt OUT TR, Halt IN TR) zeroed, so that writing it
/// back drives none of them.
pub open spec fn control_neutral(v: u32) -> u32 {
    v & !0x1Cu32
}

/// How the controller applies a write of `w` to a Control register holding
/// `cur`: read-only bits (DbC Run, Debug Max Burst Size, Device Address) and
/// reserved bits keep their value, read-write bits (Link Status Event
/// Enable, Debug Capability Enable) take the written value, the
/// write-1-to-set bits or a written one in, and the write-1-to-clear bit is
/// cleared where a one is written.
pub open spec fn control_write_effect(cur: u32, w: u32) -> u32 {
    (cur & !0x8000_001Eu32) | (w & 0x8000_0002u32) | ((cur | w) & 0xCu32) | ((cur & !w) & 0x10u32)
}

/// Write-1-to-clear non-interference for the Control register: with the DbC
/// Run Change bit latched, updating the unrelated read-write Link Status
/// Event Enable bit on a neutral snapshot and writing the result back leaves
/// the latched bit set, while writing a snapshot whose own clear request is
/// set drives it to zero.
pub proof fn lemma_control_rw1c_non_interference(cur: u32, b: bool)
    by (bit_vector)
    requires
        bit32(cur, 4),
    ensures
        bit32(control_write_effect(cur, with_bit32(control_neutral(cur), 1, b)), 4),
        !bit32(control_write_effect(cur, with_bit32(control_neutral(cur), 4, true)), 4),
{
}

/// Field isolation at the register level, an instance of the general bit
/// laws: enabling or disabling the Debug Capability leaves the read-only DbC
/// Run bit, Debug Max Burst Size and Device Address fields unchanged, and
/// the enable bit reads back as written.
pub proof fn lemma_control_enable_isolation(v: u32, b: bool)
    ensures
        bit32(with_bit32(v, 31, b), 0) == bit32(v, 0),
        field32(with_bit32(v, 31, b), 16, 23) == field32(v, 16, 23),
        field32(with_bit32(v, 31, b), 24, 30) == field32(v, 24, 30),
        bit32(with_bit32(v, 31, b), 31) == b,
{
    crate::bits::lemma_bit32_frame(v, 31, b, 0);
    crate::bits::lemma_bit32_field_frame(v, 31, b, 16, 23);
    crate::bits::lemma_bit32_field_frame(v, 31, b, 24, 30);
    crate::bits::lemma_bit32_round_trip(v, 31, b);
}

/// Debug Capability Status Register.
#[derive(Clone, Copy)]
pub struct Status(u32);

impl View for Status {
    type V = u32;

    closed spec fn view(&self) -> u32 {
        self.0
    }
}

impl Status {
    /// Wraps a raw register value.
    pub fn from_raw(raw: u32) -> (r: Self)
        ensures
            r@ == raw,
    {
        Status(raw)
    }

    /// The raw register value.
    pub fn into_raw(self) -> (r: u32)
        ensures
            r == self@,
    {
        self.0
    }

    /// Returns the Event Ring Not Empty bit (read-only).
    pub fn event_ring_not_empty(self) -> (b: bool)
        ensures
            b == bit32(self@, 0),
    {
        read_bit32(self.0, 0)
    }

    /// Returns the DbC System Bus Reset bit (read-only).
    pub fn dbc_system_bus_reset(self) -> (b: bool)
        ensures
            b == bit32(self@, 1),
    {
        read_bit32(self.0, 1)
    }

    /// Returns the Debug Port Number field (read-only).
    pub fn debug_port_number(self) -> (v: u8)
        ensures
            v as u32 == field32(self@, 24, 31),
    {
        let f: u32 = read_field32(self.0, 24, 31);
        proof {
            lemma_field32_bound(self.0, 24, 31);
        }
        f as u8
    }
}

/// Debug Capability Port Status and Control Register.
#[derive(Clone, Copy)]
pub struct PortStatusAndControl(u32);

impl View for PortStatusAndControl {
    type V = u32;

    closed spec fn view(&self) -> u32 {
        self.0
    }
}

impl PortStatusAndControl {
    /// Wraps a raw register value.
    pub fn from_raw(raw: u32) -> (r: Self)
        ensures
            r@ == raw,
    {
        PortStatusAndControl(raw)
    }

    /// The raw register value.
    pub fn into_raw(self) -> (r: u32)
        ensures
            r == self@,
    {
        self.0
    }

    /// Returns the Current Connect Status bit (read-only).
    pub fn current_connect_status(self) -> (b: bool)
        ensures
            b == bit32(self@, 0),
    {
        read_bit32(self.0, 0)
    }

    /// Returns the Port Enabled/Disabled bit (read-write).
    pub fn port_enabled_disabled(self) -> (b: bool)
        ensures
            b == bit32(self@, 1),
    {
        read_bit32(self.0, 1)
    }

    /// Sets the Port Enabled/Disabled bit (read-write).
    pub fn set_port_enabled_disabled(&mut self, b: bool)
        ensures
            final(self)@ == with_bit32(old(self)@, 1, b),
    {
        self.0 = write_bit32(self.0, 1, b);
    }

    /// Returns the Port Reset bit (read-only).
    pub fn port_reset(self) -> (b: bool)
        ensures
            b == bit32(self@, 4),
    {
        read_bit32(self.0, 4)
    }

    /// Returns the Port Link State field (read-only).
    pub fn port_link_state(self) -> (v: u8)
        ensures
            v as u32 == field32(self@, 5, 8),
    {
        let f: u32 = read_field32(self.0, 5, 8);
        proof {
            lemma_field32_bound(self.0, 5, 8);
        }
        f as u8
    }

    /// Returns the Port Speed field (read-only).
    pub fn port_speed(self) -> (v: u8)
        ensures
            v as u32 == field32(self@, 10, 13),
    {
        let f: u32 = read_field32(self.0, 10, 13);
        proof {
            lemma_field32_bound(self.0, 10, 13);
        }
        f as u8
    }

    /// Returns the Connect Status Change bit (write-1-to-clear).
    pub fn connect_status_change(self) -> (b: bool)
        ensures
            b == bit32(self@, 17),
    {
        read_bit32(self.0, 17)
    }

    /// Sets the Connect Status Change bit (write-1-to-clear): writing one
    /// clears the latched condition; writing zero leaves it untouched.
    pub fn set_connect_status_change(&mut self, b: bool)
        ensures
            final(self)@ == with_bit32(old(self)@, 17, b),
    {
        self.0 = write_bit32(self.0, 17, b);
    }

    /// Returns the Port Reset Change bit (write-1-to-clear).
    pub fn port_reset_change(self) -> (b: bool)
        ensures
            b == bit32(self@, 21),
    {
        read_bit32(self.0, 21)
    }

    /// Sets the Port Reset Change bit (write-1-to-clear).
    pub fn set_port_reset_change(&mut self, b: bool)
        ensures
            final(self)@ == with_bit32(old(self)@, 21, b),
    {
        self.0 = write_bit32(self.0, 21, b);
    }

    /// Returns the Port Link Status Change bit (write-1-to-clear).
    pub fn port_link_status_change(self) -> (b: bool)
        ensures
            b == bit32(self@, 22),
    {
        read_bit32(self.0, 22)
    }

    /// Sets the Port Link Status Change bit (write-1-to-clear).
    pub fn set_port_link_status_change(&mut self, b: bool)
        ensures
            final(self)@ == with_bit32(old(self)@, 22, b),
    {
        self.0 = write_bit32(self.0, 22, b);
    }

    /// Returns the Port Config Error Change bit (write-1-to-clear).
    pub fn port_config_error_change(self) -> (b: bool)
        ensures
            b == bit32(self@, 23),
    {
        read_bit32(self.0, 23)
    }

    /// Sets the Port Config Error Change bit (write-1-to-clear).
    pub fn set_port_config_error_change(&mut self, b: bool)
        ensures
            final(self)@ == with_bit32(old(self)@, 23, b),
    {
        self.0 = write_bit32(self.0, 23, b);
    }

    /// Returns a copy with every write-1-to-clear bit zeroed: the safe
    /// starting point for a read-modify-write that does not target them.
    pub fn to_neutral(self) -> (r: Self)
        ensures
            r@ == port_status_neutral(self@),
    {
        PortStatusAndControl(self.0 & !0x00E2_0000u32)
    }

    /// The register content after the controller applies a write of `w` to a
    /// register currently holding `self`: a model of the hardware's
    /// per-category write semantics, for reasoning and for test doubles.
    pub fn after_write(self, w: PortStatusAndControl) -> (r: PortStatusAndControl)
        ensures
            r@ == port_status_write_effect(self@, w@),
    {
        PortStatusAndControl(
            (self.0 & !0x00E2_0002u32) | (w.0 & 0x2u32) | ((self.0 & !w.0) & 0x00E2_0000u32),
        )
    }
}

/// A Port Status and Control value with every write-1-to-clear change bit
/// (Connect Status, Port Reset, Port Link Status, Port Config Error) zeroed,
/// so that writing it back clears none of them.
pub open spec fn port_status_neutral(v: u32) -> u32 {
    v & !0x00E2_0000u32
}

/// How the controller applies a write of `w` to a Port Status and Control
/// register holding `cur`: read-only and reserved bits keep their value, the
/// read-write Port Enabled/Disabled bit takes the written value, and each
/// write-1-to-clear change bit is cleared where a one is written.
pub open spec fn port_status_write_effect(cur: u32, w: u32) -> u32 {
    (cur & !0x00E2_0002u32) | (w & 0x2u32) | ((cur & !w) & 0x00E2_0000u32)
}

/// Write-1-to-clear non-interference for the Port Status and Control
/// register: with the Connect Status Change bit latched, updating the
/// unrelated read-write Port Enabled/Disabled bit on a neutral snapshot and
/// writing the result back leaves the latched bit set, while writing a
/// snapshot whose own clear request is set drives it to zero.
pub proof fn lemma_port_status_rw1c_non_interference(cur: u32, b: bool)
    by (bit_vector)
    requires
        bit32(cur, 17),
    ensures
        bit32(port_status_write_effect(cur, with_bit32(port_status_neutral(cur), 1, b)), 17),
        !bit32(port_status_write_effect(cur, with_bit32(port_status_neutral(cur), 17, true)), 17),
{
}

/// Debug Capability Context Pointer Register.
#[derive(Clone, Copy)]
pub struct ContextPointer(u64);

impl View for ContextPointer {
    type V = u64;

    closed spec fn view(&self) -> u64 {
        self.0
    }
}

impl ContextPointer {
    /// Wraps a raw register value.
    pub fn from_raw(raw: u64) -> (r: Self)
        ensures
            r@ == raw,
    {
        ContextPointer(raw)
    }

    /// The raw register value.
    pub fn into_raw(self) -> (r: u64)
        ensures
            r == self@,
    {
        self.0
    }

    /// Returns the start address of the Debug Capability Context data
    /// structure (read-write).
    pub fn get(self) -> (a: u64)
        ensures
            a == self@,
    {
        self.0
    }

    /// Sets the start address of the Debug Capability Context data structure
    /// (read-write). Supplying an address that is not 16-byte aligned is a
    /// caller programming error, ruled out by the precondition.
    pub fn set(&mut self, a: u64)
        requires
            a % 16 == 0,
        ensures
            final(self)@ == a,
    {
        self.0 = a;
    }
}

/// Debug Capability Device Descriptor Info Register 1.
#[derive(Clone, Copy)]
pub struct DeviceDescriptorInfo1(u32);

impl View for DeviceDescriptorInfo1 {
    type V = u32;

    closed spec fn view(&self) -> u32 {
        self.0
    }
}

impl DeviceDescriptorInfo1 {
    /// Wraps a raw register value.
    pub fn from_raw(raw: u32) -> (r: Self)
        ensures
            r@ == raw,
    {
        DeviceDescriptorInfo1(raw)
    }

    /// The raw register value.
    pub fn into_raw(self) -> (r: u32)
        ensures
            r == self@,
    {
        self.0
    }

    /// Returns the DbC Protocol field (read-write).
    pub fn dbc_protocol(self) -> (v: u8)
        ensures
            v as u32 == field32(self@, 0, 7),
    {
        let f: u32 = read_field32(self.0, 0, 7);
        proof {
            lemma_field32_bound(self.0, 0, 7);
        }
        f as u8
    }

    /// Sets the DbC Protocol field (read-write).
    pub fn set_dbc_protocol(&mut self, p: u8)
        ensures
            final(self)@ == with_field32(old(self)@, 0, 7, p as u32),
    {
        self.0 = write_field32(self.0, 0, 7, p as u32);
    }

    /// Returns the Vendor ID field (read-write).
    pub fn vendor_id(self) -> (v: u16)
        ensures
            v as u32 == field32(self@, 16, 31),
    {
        let f: u32 = read_field32(self.0, 16, 31);
        proof {
            lemma_field32_bound(self.0, 16, 31);
        }
        f as u16
    }

    /// Sets the Vendor ID field (read-write).
    pub fn set_vendor_id(&mut self, id: u16)
        ensures
            final(self)@ == with_field32(old(self)@, 16, 31, id as u32),
    {
        self.0 = write_field32(self.0, 16, 31, id as u32);
    }
}

/// Debug Capability Device Descriptor Info Register 2.
#[derive(Clone, Copy)]
pub struct DeviceDescriptorInfo2(u32);

impl View for DeviceDescriptorInfo2 {
    type V = u32;

    closed spec fn view(&self) -> u32 {
        self.0
    }
}

impl DeviceDescriptorInfo2 {
    /// Wraps a raw register value.
    pub fn from_raw(raw: u32) -> (r: Self)
        ensures
            r@ == raw,
    {
        DeviceDescriptorInfo2(raw)
    }

    /// The raw register value.
    pub fn into_raw(self) -> (r: u32)
        ensures
            r == self@,
    {
        self.0
    }

    /// Returns the Product ID field (read-write).
    pub fn product_id(self) -> (v: u16)
        ensures
            v as u32 == field32(self@, 0, 15),
    {
        let f: u32 = read_field32(self.0, 0, 15);
        proof {
            lemma_field32_bound(self.0, 0, 15);
        }
        f as u16
    }

    /// Sets the Product ID field (read-write).
    pub fn set_product_id(&mut self, id: u16)
        ensures
            final(self)@ == with_field32(old(self)@, 0, 15, id as u32),
    {
        self.0 = write_field32(self.0, 0, 15, id as u32);
    }

    /// Returns the Device Revision field (read-write).
    pub fn device_revision(self) -> (v: u16)
        ensures
            v as u32 == field32(self@, 16, 31),
    {
        let f: u32 = read_field32(self.0, 16, 31);
        proof {
            lemma_field32_bound(self.0, 16, 31);
        }
        f as u16
    }

    /// Sets the Device Revision field (read-write).
    pub fn set_device_revision(&mut self, rev: u16)
        ensures
            final(self)@ == with_field32(old(self)@, 16, 31, rev as u32),
    {
        self.0 = write_field32(self.0, 16, 31, rev as u32);
    }
}

/// Field isolation at the register level, an instance of the general field
/// laws: writing the Vendor ID field leaves the DbC Protocol field
/// unchanged, and conversely.
pub proof fn lemma_ddi1_field_isolation(v: u32, p: u8, id: u16)
    ensures
        field32(with_field32(v, 16, 31, id as u32), 0, 7) == field32(v, 0, 7),
        field32(with_field32(v, 0, 7, p as u32), 16, 31) == field32(v, 16, 31),
{
    crate::bits::lemma_field32_frame(v, 16, 31, id as u32, 0, 7);
    crate::bits::lemma_field32_frame(v, 0, 7, p as u32, 16, 31);
}

impl Register for Id {
    fn load<M: Mapper>(mapper: &mut M, addr: usize) -> Self {
        Id(mapper.read32(addr))
    }

    fn store<M: Mapper>(self, mapper: &mut M, addr: usize) {
        mapper.write32(addr, self.0);
    }
}

impl Register for Doorbell {
    fn load<M: Mapper>(mapper: &mut M, addr: usize) -> Self {
        Doorbell(mapper.read32(addr))
    }

    fn store<M: Mapper>(self, mapper: &mut M, addr: usize) {
        mapper.write32(addr, self.0);
    }
}

impl Register for EventRingSegmentTableSize {
    fn load<M: Mapper>(mapper: &mut M, addr: usize) -> Self {
        EventRingSegmentTableSize(mapper.read32(addr))
    }

    fn store<M: Mapper>(self, mapper: &mut M, addr: usize) {
        mapper.write32(addr, self.0);
    }
}

impl Register for EventRingSegmentTableBaseAddress {
    fn load<M: Mapper>(mapper: &mut M, addr: usize) -> Self {
        EventRingSegmentTableBaseAddress(mapper.read64(addr))
    }

    fn store<M: Mapper>(self, mapper: &mut M, addr: usize) {
        mapper.write64(addr, self.0);
    }
}

impl Register for EventRingDequeuePointer {
    fn load<M: Mapper>(mapper: &mut M, addr: usize) -> Self {
        EventRingDequeuePointer(mapper.read64(addr))
    }

    fn store<M: Mapper>(self, mapper: &mut M, addr: usize) {
        mapper.write64(addr, self.0);
    }
}

impl Register for Control {
    fn load<M: Mapper>(mapper: &mut M, addr: usize) -> Self {
        Control(mapper.read32(addr))
    }

    fn store<M: Mapper>(self, mapper: &mut M, addr: usize) {
        mapper.write32(addr, self.0);
    }
}

impl Register for Status {
    fn load<M: Mapper>(mapper: &mut M, addr: usize) -> Self {
        Status(mapper.read32(addr))
    }

    fn store<M: Mapper>(self, mapper: &mut M, addr: usize) {
        mapper.write32(addr, self.0);
    }
}

impl Register for PortStatusAndControl {
    fn load<M: Mapper>(mapper: &mut M, addr: usize) -> Self {
        PortStatusAndControl(mapper.read32(addr))
    }

    fn store<M: Mapper>(self, mapper: &mut M, addr: usize) {
        mapper.write32(addr, self.0);
    }
}

impl Register for ContextPointer {
    fn load<M: Mapper>(mapper: &mut M, addr: usize) -> Self {
        ContextPointer(mapper.read64(addr))
    }

    fn store<M: Mapper>(self, mapper: &mut M, addr: usize) {
        mapper.write64(addr, self.0);
    }
}

impl Register for DeviceDescriptorInfo1 {
    fn load<M: Mapper>(mapper: &mut M, addr: usize) -> Self {
        DeviceDescriptorInfo1(mapper.read32(addr))
    }

    fn store<M: Mapper>(self, mapper: &mut M, addr: usize) {
        mapper.write32(addr, self.0);
    }
}

impl Register for DeviceDescriptorInfo2 {
    fn load<M: Mapper>(mapper: &mut M, addr: usize) -> Self {
        DeviceDescriptorInfo2(mapper.read32(addr))
    }

    fn store<M: Mapper>(self, mapper: &mut M, addr: usize) {
        mapper.write32(addr, self.0);
    }
}

} // verus!
