//! The xHCI Extended Message Interrupt Capability register block.

use vstd::prelude::*;

use crate::accessor::Mapper;
use crate::accessor::Register;

verus! {

/// xHCI Extended Message Interrupt Capability: a snapshot of the whole
/// twelve-byte block. The first two bytes, the capability id and the next
/// pointer, belong to the external capability-list walker; they are carried
/// through for correct sizing and never reinterpreted here.
#[derive(Clone, Copy)]
pub struct XhciExtendedMessageInterrupt {
    _id: u8,
    _next: u8,
    /// Message Control.
    pub control: MessageControl,
    /// Message Upper Address.
    pub upper_address: u32,
    /// Table Offset and BIR.
    pub table_offset: TableOffset,
}

impl XhciExtendedMessageInterrupt {
    /// The capability id byte; owned by the capability-list walker and only
    /// carried through.
    pub closed spec fn id_spec(self) -> u8 {
        self._id
    }

    /// The next-pointer byte; owned by the capability-list walker and only
    /// carried through.
    pub closed spec fn next_spec(self) -> u8 {
        self._next
    }

    /// The raw value of the Message Control half-word.
    pub closed spec fn control_spec(self) -> u16 {
        self.control@
    }

    /// The Message Upper Address word.
    pub closed spec fn upper_address_spec(self) -> u32 {
        self.upper_address
    }

    /// The raw value of the Table Offset word.
    pub closed spec fn table_offset_spec(self) -> u32 {
        self.table_offset@
    }

    /// Decodes the block from its three raw words: the capability id and the
    /// next pointer from the low bytes of the first word, Message Control
    /// from its high half, then the Message Upper Address word and the Table
    /// Offset word.
    pub fn from_words(w0: u32, w1: u32, w2: u32) -> (x: Self)
        ensures
            x.id_spec() as u32 == w0 & 0xFF,
            x.next_spec() as u32 == (w0 >> 8u32) & 0xFF,
            x.control_spec() as u32 == w0 >> 16u32,
            x.upper_address_spec() == w1,
            x.table_offset_spec() == w2,
    {
        proof {
            assert((w0 as u8) as u32 == (w0 & 0xFF) && ((w0 >> 8u32) as u8) as u32 == ((w0
                >> 8u32) & 0xFF) && ((w0 >> 16u32) as u16) as u32 == (w0 >> 16u32)) by (bit_vector);
        }
        XhciExtendedMessageInterrupt {
            _id: #[verifier::truncate] (w0 as u8),
            _next: #[verifier::truncate] ((w0 >> 8u32) as u8),
            control: MessageControl::from_raw(#[verifier::truncate] ((w0 >> 16u32) as u16)),
            upper_address: w1,
            table_offset: TableOffset::from_raw(w2),
        }
    }

    /// Packs the block back into its three raw words, the exact inverse of
    /// the decoding layout.
    pub fn to_words(self) -> (w: (u32, u32, u32))
        ensures
            w.0 == (self.id_spec() as u32) | ((self.next_spec() as u32) << 8u32) | ((
            self.control_spec() as u32) << 16u32),
            w.1 == self.upper_address_spec(),
            w.2 == self.table_offset_spec(),
    {
        let w0: u32 = (self._id as u32) | ((self._next as u32) << 8u32) | ((
        self.control.into_raw() as u32) << 16u32);
        (w0, self.upper_address, self.table_offset.into_raw())
    }
}

impl Register for XhciExtendedMessageInterrupt {
    fn load<M: Mapper>(mapper: &mut M, addr: usize) -> Self {
        let w0: u32 = mapper.read32(addr);
        let w1: u32 = mapper.read32(addr + 4);
        let w2: u32 = mapper.read32(addr + 8);
        XhciExtendedMessageInterrupt::from_words(w0, w1, w2)
    }

    fn store<M: Mapper>(self, mapper: &mut M, addr: usize) {
        let w: (u32, u32, u32) = self.to_words();
        mapper.write32(addr, w.0);
        mapper.write32(addr + 4, w.1);
        mapper.write32(addr + 8, w.2);
    }
}

/// Message Control.
#[derive(Clone, Copy)]
pub struct MessageControl(u16);

impl View for MessageControl {
    type V = u16;

    closed spec fn view(&self) -> u16 {
        self.0
    }
}

impl MessageControl {
    /// Wraps a raw register value.
    pub fn from_raw(raw: u16) -> (r: Self)
        ensures
            r@ == raw,
    {
        MessageControl(raw)
    }

    /// The raw register value.
    pub fn into_raw(self) -> (r: u16)
        ensures
            r == self@,
    {
        self.0
    }

    /// Returns the MSI-X Enable bit (read-write).
    pub fn msi_x_enable(self) -> (b: bool)
        ensures
            b == (self@ & 0x8000u16 != 0),
    {
        self.0 & 0x8000u16 != 0
    }

    /// Sets the MSI-X Enable bit (read-write).
    pub fn set_msi_x_enable(&mut self, b: bool)
        ensures
            final(self)@ == (if b {
                old(self)@ | 0x8000u16
            } else {
                old(self)@ & !0x8000u16
            }),
    {
        if b {
            self.0 = self.0 | 0x8000u16;
        } else {
            self.0 = self.0 & !0x8000u16;
        }
    }

    /// Returns the Table Size field (read-only).
    pub fn table_size(self) -> (v: u16)
        ensures
            v == self@ & 0x07FFu16,
    {
        self.0 & 0x07FFu16
    }
}

/// Round trip and isolation for the MSI-X Enable bit: after setting it, the
/// bit reads back exactly as written, and the read-only Table Size field
/// keeps its value.
pub proof fn lemma_msi_x_enable_round_trip(v: u16, b: bool)
    by (bit_vector)
    ensures
        ((if b {
            v | 0x8000u16
        } else {
            v & !0x8000u16
        }) & 0x8000u16 != 0) == b,
        (if b {
            v | 0x8000u16
        } else {
            v & !0x8000u16
        }) & 0x07FFu16 == v & 0x07FFu16,
{
}

/// Table Offset and BIR.
#[derive(Clone, Copy)]
pub struct TableOffset(u32);

impl View for TableOffset {
    type V = u32;

    closed spec fn view(&self) -> u32 {
        self.0
    }
}

impl TableOffset {
    /// Wraps a raw register value.
    pub fn from_raw(raw: u32) -> (r: Self)
        ensures
            r@ == raw,
    {
        TableOffset(raw)
    }

    /// The raw register value.
    pub fn into_raw(self) -> (r: u32)
        ensures
            r == self@,
    {
        self.0
    }

    /// Returns the 8-byte aligned Table Offset: the raw word with its low
    /// three bits masked off.
    pub fn offset(self) -> (a: u32)
        ensures
            a == self@ & !0b111u32,
    {
        self.0 & !0b111u32
    }

    /// Returns the BIR field (read-only): which base address register the
    /// offset is relative to.
    pub fn bir(self) -> (v: u8)
        ensures
            v as u32 == self@ & 0b111u32,
    {
        let raw: u32 = self.0;
        proof {
            assert(raw & 0b111u32 < 0x100) by (bit_vector);
        }
        (raw & 0b111u32) as u8
    }
}

} // verus!
