//! The memory access capability and the single-register accessor.

use vstd::prelude::*;

verus! {

/// A memory access capability: given an address, performs one volatile
/// single-unit read or write there. Implementations decide how an address is
/// reached (identity mapping, virtual remapping, or an in-memory test
/// double); a clone of a capability must reach the same address space.
pub trait Mapper: Sized {
    /// Performs exactly one 32-bit read at `addr`.
    fn read32(&mut self, addr: usize) -> u32
        requires
            addr + 4 <= usize::MAX,
    ;

    /// Performs exactly one 32-bit write at `addr`.
    fn write32(&mut self, addr: usize, value: u32)
        requires
            addr + 4 <= usize::MAX,
    ;

    /// Performs exactly one 64-bit read at `addr`.
    fn read64(&mut self, addr: usize) -> u64
        requires
            addr + 8 <= usize::MAX,
    ;

    /// Performs exactly one 64-bit write at `addr`.
    fn write64(&mut self, addr: usize, value: u64)
        requires
            addr + 8 <= usize::MAX,
    ;
}

/// A typed register value that knows how to move itself through a
/// [`Mapper`]: which accesses its width takes and how the raw words map to
/// the wrapped value. The address must leave room for the widest register
/// unit of this crate, twelve bytes.
pub trait Register: Sized + Copy {
    /// Reads the whole register at `addr` through `mapper`.
    fn load<M: Mapper>(mapper: &mut M, addr: usize) -> Self
        requires
            addr + 12 <= usize::MAX,
    ;

    /// Writes the whole register to `addr` through `mapper`.
    fn store<M: Mapper>(self, mapper: &mut M, addr: usize)
        requires
            addr + 12 <= usize::MAX,
    ;
}

/// Binds one fixed address to one register type, using a [`Mapper`] clone of
/// its own for the raw accesses: the unit of exclusive ownership. The design
/// does not detect two accessors over the same address; avoiding that is the
/// constructing caller's duty.
pub struct Single<R: Register, M: Mapper> {
    addr: usize,
    mapper: M,
    register: core::marker::PhantomData<R>,
}

impl<R: Register, M: Mapper> Single<R, M> {
    /// The fixed address this accessor targets.
    pub closed spec fn addr_spec(&self) -> usize {
        self.addr
    }

    /// The address leaves room for the widest register unit.
    pub open spec fn wf(&self) -> bool {
        self.addr_spec() + 12 <= usize::MAX
    }

    /// Creates an accessor for the register at `addr`. Construction performs
    /// no hardware access. The caller attests that `addr` genuinely is the
    /// register's address and that no other live accessor targets it.
    pub fn new(addr: usize, mapper: M) -> (s: Self)
        requires
            addr + 12 <= usize::MAX,
        ensures
            s.addr_spec() == addr,
            s.wf(),
    {
        Single { addr, mapper, register: core::marker::PhantomData }
    }

    /// Performs exactly one full read of the register: the returned snapshot
    /// is immutable, and a later read goes to the hardware again.
    pub fn read(&mut self) -> (r: R)
        requires
            old(self).wf(),
        ensures
            final(self).addr_spec() == old(self).addr_spec(),
            final(self).wf(),
    {
        R::load(&mut self.mapper, self.addr)
    }

    /// Performs exactly one full write of the register, replacing its whole
    /// content: a field update must compute the complete new value first.
    pub fn write(&mut self, value: R)
        requires
            old(self).wf(),
        ensures
            final(self).addr_spec() == old(self).addr_spec(),
            final(self).wf(),
    {
        value.store(&mut self.mapper, self.addr);
    }
}

/// An in-memory test double for the [`Mapper`]: a buffer of 32-bit words
/// standing for the memory at `base`. Reads outside the buffer, or not
/// aligned to a word, return zero; such writes are ignored. A clone copies
/// the buffer, so clones of this double do not alias one another, unlike
/// clones of a real mapping, which all reach the one address space.
#[derive(Clone)]
pub struct BufferMapper {
    base: usize,
    words: Vec<u32>,
}

impl BufferMapper {
    /// The address the first word of the buffer stands for.
    pub closed spec fn base_spec(&self) -> usize {
        self.base
    }

    /// The words of the buffer.
    pub closed spec fn words_spec(&self) -> Seq<u32> {
        self.words@
    }

    /// A buffer of `len` words of zero, standing for memory at `base`.
    pub fn new(base: usize, len: usize) -> (m: Self)
        ensures
            m.base_spec() == base,
            m.words_spec().len() == len,
            forall|i: int| 0 <= i < len ==> m.words_spec()[i] == 0,
    {
        let mut words: Vec<u32> = Vec::new();
        let mut n: usize = 0;
        while n < len
            invariant
                n <= len,
                words@.len() == n,
                forall|i: int| 0 <= i < n ==> words@[i] == 0,
            decreases len - n,
        {
            words.push(0);
            n = n + 1;
        }
        BufferMapper { base, words }
    }

    /// The word at `index`, for checking what a register write stored.
    pub fn word(&self, index: usize) -> (w: u32)
        requires
            index < self.words_spec().len(),
        ensures
            w == self.words_spec()[index as int],
    {
        self.words[index]
    }

    /// Stores `value` at word `index`, for setting up a register's content.
    pub fn set_word(&mut self, index: usize, value: u32)
        requires
            index < old(self).words_spec().len(),
        ensures
            final(self).base_spec() == old(self).base_spec(),
            final(self).words_spec() == old(self).words_spec().update(index as int, value),
    {
        self.words.set(index, value);
    }
}

/// What a 32-bit read of a word buffer standing for memory at `base` yields
/// at `addr`: the word whose slot the address names, when the address is
/// word-aligned and inside the buffer, and zero otherwise.
pub open spec fn buffer_read32(base: int, words: Seq<u32>, addr: int) -> u32 {
    if addr >= base && (addr - base) % 4 == 0 && (addr - base) / 4 < words.len() {
        words[(addr - base) / 4]
    } else {
        0
    }
}

/// What a 32-bit write to a word buffer standing for memory at `base`
/// leaves at `addr`: the named slot updated, when the address is
/// word-aligned and inside the buffer, and the buffer unchanged otherwise.
pub open spec fn buffer_write32(base: int, words: Seq<u32>, addr: int, value: u32) -> Seq<u32> {
    if addr >= base && (addr - base) % 4 == 0 && (addr - base) / 4 < words.len() {
        words.update((addr - base) / 4, value)
    } else {
        words
    }
}

impl Mapper for BufferMapper {
    fn read32(&mut self, addr: usize) -> (w: u32)
        ensures
            final(self).base_spec() == old(self).base_spec(),
            final(self).words_spec() == old(self).words_spec(),
            w == buffer_read32(old(self).base_spec() as int, old(self).words_spec(), addr as int),
    {
        if addr >= self.base {
            let off: usize = addr - self.base;
            if off % 4 == 0 {
                let i: usize = off / 4;
                if i < self.words.len() {
                    self.words[i]
                } else {
                    0
                }
            } else {
                0
            }
        } else {
            0
        }
    }

    fn write32(&mut self, addr: usize, value: u32)
        ensures
            final(self).base_spec() == old(self).base_spec(),
            final(self).words_spec() == buffer_write32(
                old(self).base_spec() as int,
                old(self).words_spec(),
                addr as int,
                value,
            ),
    {
        if addr >= self.base {
            let off: usize = addr - self.base;
            if off % 4 == 0 {
                let i: usize = off / 4;
                if i < self.words.len() {
                    self.words.set(i, value);
                }
            }
        }
    }

    fn read64(&mut self, addr: usize) -> (w: u64)
        ensures
            final(self).base_spec() == old(self).base_spec(),
            final(self).words_spec() == old(self).words_spec(),
            w == (buffer_read32(old(self).base_spec() as int, old(self).words_spec(), addr as int)
                as u64) | ((buffer_read32(
                old(self).base_spec() as int,
                old(self).words_spec(),
                addr as int + 4,
            ) as u64) << 32u64),
    {
        let lo: u32 = self.read32(addr);
        let hi: u32 = self.read32(addr + 4);
        (lo as u64) | ((hi as u64) << 32u64)
    }

    fn write64(&mut self, addr: usize, value: u64)
        ensures
            final(self).base_spec() == old(self).base_spec(),
            final(self).words_spec() == buffer_write32(
                old(self).base_spec() as int,
                buffer_write32(
                    old(self).base_spec() as int,
                    old(self).words_spec(),
                    addr as int,
                    value as u32,
                ),
                addr as int + 4,
                (value >> 32u64) as u32,
            ),
    {
        let lo: u32 = #[verifier::truncate] (value as u32);
        let hi: u32 = #[verifier::truncate] ((value >> 32u64) as u32);
        self.write32(addr, lo);
        self.write32(addr + 4, hi);
    }
}

} // verus!
