//! The flat 64 KiB memory map. Region dispatch is this module's concern:
//! echo RAM (0xE000–0xFDFF) mirrors work RAM (0xC000–0xDDFF), and every
//! 16-bit address is backed by a byte, so no access ever faults.

use vstd::prelude::*;

use crate::cpu_registers::{combine16, high_byte, low_byte};

verus! {

/// The named regions of the address space, each with its base address.
#[derive(Clone, Copy, Debug, PartialEq, Eq, Structural)]
pub enum Partitions {
    Rom0,
    RomN,
    Vram,
    ExtRam,
    Wram,
    Echo,
    Oam,
    Io,
    Hram,
}

impl Partitions {
    /// The first address of the region.
    pub open spec fn spec_base(self) -> usize {
        match self {
            Partitions::Rom0 => 0x0000,
            Partitions::RomN => 0x4000,
            Partitions::Vram => 0x8000,
            Partitions::ExtRam => 0xA000,
            Partitions::Wram => 0xC000,
            Partitions::Echo => 0xE000,
            Partitions::Oam => 0xFE00,
            Partitions::Io => 0xFF00,
            Partitions::Hram => 0xFF80,
        }
    }

    /// The first address of the region.
    pub fn base(self) -> (r: usize)
        ensures
            r == self.spec_base(),
    {
        match self {
            Partitions::Rom0 => 0x0000,
            Partitions::RomN => 0x4000,
            Partitions::Vram => 0x8000,
            Partitions::ExtRam => 0xA000,
            Partitions::Wram => 0xC000,
            Partitions::Echo => 0xE000,
            Partitions::Oam => 0xFE00,
            Partitions::Io => 0xFF00,
            Partitions::Hram => 0xFF80,
        }
    }
}

/// A fixed-size byte store backing a memory region.
pub struct Buffer<const N: usize> {
    pub buf: Vec<u8>,
}

impl<const N: usize> Buffer<N> {
    /// The buffer holds exactly its declared number of bytes.
    pub open spec fn wf(&self) -> bool {
        self.buf@.len() == N
    }

    /// A buffer of N zero bytes.
    pub fn zeroed() -> (r: Self)
        ensures
            r.wf(),
            forall|i: int| 0 <= i < N ==> r.buf@[i] == 0,
    {
        let mut buf: Vec<u8> = Vec::new();
        let mut i: usize = 0;
        while i < N
            invariant
                i <= N,
                buf@.len() == i,
                forall|j: int| 0 <= j < i ==> buf@[j] == 0,
            decreases N - i,
        {
            buf.push(0);
            i = i + 1;
        }
        Buffer { buf }
    }

}

/// Read access to a byte store, through an abstract view of its
/// contents.
pub trait ReadBuffer {
    /// The bytes the store holds.
    spec fn contents(&self) -> Seq<u8>;

    /// The byte at an offset.
    fn read_u8(&self, address: u16) -> (r: u8)
        requires
            (address as int) < self.contents().len(),
        ensures
            r == self.contents()[address as int],
    ;

    /// A mutable handle on the byte at an offset; what the caller writes
    /// through it is what the store then holds there.
    fn read_u8_mut(&mut self, address: u16) -> (r: &mut u8)
        requires
            (address as int) < old(self).contents().len(),
        ensures
            *r == old(self).contents()[address as int],
            final(self).contents() == old(self).contents().update(address as int, *final(r)),
    ;

    /// Two adjacent bytes read out by value as a pair, first byte at the
    /// lower offset.
    fn read_u16wrapper(&self, address: u16) -> (r: U16Wrapper)
        requires
            address as int + 1 < self.contents().len(),
        ensures
            r == U16Wrapper(
                self.contents()[address as int],
                self.contents()[address as int + 1],
            ),
    ;
}

/// Write access to a byte store, through an abstract view of its
/// contents.
pub trait WriteBuffer {
    /// The bytes the store holds.
    spec fn writable_contents(&self) -> Seq<u8>;

    /// Stores a byte at an offset.
    fn write_u8(&mut self, address: u16, value: u8)
        requires
            (address as int) < old(self).writable_contents().len(),
        ensures
            final(self).writable_contents() == old(self).writable_contents().update(
                address as int,
                value,
            ),
    ;
}

impl<const N: usize> ReadBuffer for Buffer<N> {
    open spec fn contents(&self) -> Seq<u8> {
        self.buf@
    }

    fn read_u8(&self, address: u16) -> (r: u8) {
        self.buf[address as usize]
    }

    fn read_u8_mut(&mut self, address: u16) -> (r: &mut u8) {
        &mut self.buf[address as usize]
    }

    fn read_u16wrapper(&self, address: u16) -> (r: U16Wrapper) {
        U16Wrapper(self.buf[address as usize], self.buf[address as usize + 1])
    }
}

impl<const N: usize> WriteBuffer for Buffer<N> {
    open spec fn writable_contents(&self) -> Seq<u8> {
        self.buf@
    }

    fn write_u8(&mut self, address: u16, value: u8) {
        self.buf[address as usize] = value;
    }
}

/// Two bytes viewed as one 16-bit value, first byte high. A paired-byte
/// handle is read out of a register pair or two adjacent memory cells by
/// value, and the caller stores it back.
#[derive(Clone, Copy, Debug, PartialEq, Eq, Structural)]
pub struct U16Wrapper(pub u8, pub u8);

impl U16Wrapper {
    /// Replaces both bytes with the halves of a 16-bit value.
    pub fn from_u16(&mut self, value: u16)
        ensures
            *final(self) == U16Wrapper(high_byte(value), low_byte(value)),
    {
        self.0 = (value / 256) as u8;
        self.1 = (value % 256) as u8;
    }

    /// The two bytes joined, first byte high.
    pub fn into_u16(&self) -> (r: u16)
        ensures
            r == combine16(self.0, self.1),
    {
        self.0 as u16 * 256 + self.1 as u16
    }
}

/// The backing index that an address resolves to: echo RAM reads and
/// writes land on the mirrored work-RAM cell, every other address on
/// itself.
pub open spec fn mirror_addr(address: u16) -> int {
    if 0xE000 <= address < 0xFE00 {
        address - 0x2000
    } else {
        address as int
    }
}

/// The address one past the given one, wrapping at the top of the space.
pub open spec fn wrap_inc(address: u16) -> u16 {
    if address == 0xFFFF {
        0
    } else {
        (address + 1) as u16
    }
}

/// The byte an address reads as, given the backing bytes.
pub open spec fn mem_read(m: Seq<u8>, address: u16) -> u8 {
    m[mirror_addr(address)]
}

/// The backing bytes after a write to an address.
pub open spec fn mem_write(m: Seq<u8>, address: u16, value: u8) -> Seq<u8> {
    m.update(mirror_addr(address), value)
}

/// A little-endian 16-bit read: low byte at the address, high byte just
/// above it.
pub open spec fn mem_read16(m: Seq<u8>, address: u16) -> u16 {
    combine16(mem_read(m, wrap_inc(address)), mem_read(m, address))
}

/// A little-endian 16-bit write.
pub open spec fn mem_write16(m: Seq<u8>, address: u16, value: u16) -> Seq<u8> {
    mem_write(mem_write(m, address, low_byte(value)), wrap_inc(address), high_byte(value))
}

/// The 64 KiB memory map.
pub struct Memory {
    buf: Buffer<0x10000>,
}

impl View for Memory {
    type V = Seq<u8>;

    closed spec fn view(&self) -> Seq<u8> {
        self.buf.buf@
    }
}

impl Memory {
    /// The backing store covers the whole address space.
    pub open spec fn wf(&self) -> bool {
        self@.len() == 0x10000
    }

    /// A memory map with every byte zeroed.
    pub fn new() -> (r: Self)
        ensures
            r.wf(),
            forall|i: int| 0 <= i < 0x10000 ==> r@[i] == 0,
    {
        Memory { buf: Buffer::zeroed() }
    }

    /// The byte at an address; echo RAM mirrors work RAM.
    pub fn read_u8(&self, address: u16) -> (r: u8)
        requires
            self.wf(),
        ensures
            r == mem_read(self@, address),
    {
        if 0xE000 <= address && address < 0xFE00 {
            self.buf.read_u8(address - 0x2000)
        } else {
            self.buf.read_u8(address)
        }
    }

    /// A mutable handle on the byte behind an address; echo RAM hands
    /// out the mirrored work-RAM cell, so a write through the handle is
    /// a write to that address.
    pub fn read_u8_mut(&mut self, address: u16) -> (r: &mut u8)
        requires
            old(self).wf(),
        ensures
            *r == mem_read(old(self)@, address),
            final(self).wf(),
            final(self)@ == mem_write(old(self)@, address, *final(r)),
    {
        if 0xE000 <= address && address < 0xFE00 {
            self.buf.read_u8_mut(address - 0x2000)
        } else {
            self.buf.read_u8_mut(address)
        }
    }

    /// Stores a byte at an address; echo RAM writes land in work RAM.
    pub fn write_u8(&mut self, address: u16, value: u8)
        requires
            old(self).wf(),
        ensures
            final(self).wf(),
            final(self)@ == mem_write(old(self)@, address, value),
    {
        if 0xE000 <= address && address < 0xFE00 {
            self.buf.write_u8(address - 0x2000, value);
        } else {
            self.buf.write_u8(address, value);
        }
    }

    /// A little-endian 16-bit read of two adjacent bytes; the address one
    /// past 0xFFFF wraps to 0x0000.
    pub fn read_u16(&self, address: u16) -> (r: u16)
        requires
            self.wf(),
        ensures
            r == mem_read16(self@, address),
    {
        let lo = self.read_u8(address);
        let hi = self.read_u8(if address == 0xFFFF { 0 } else { address + 1 });
        hi as u16 * 256 + lo as u16
    }

    /// A little-endian 16-bit write of two adjacent bytes.
    pub fn write_u16(&mut self, address: u16, value: u16)
        requires
            old(self).wf(),
        ensures
            final(self).wf(),
            final(self)@ == mem_write16(old(self)@, address, value),
    {
        self.write_u8(address, (value % 256) as u8);
        self.write_u8(if address == 0xFFFF { 0 } else { address + 1 }, (value / 256) as u8);
    }

    /// Reads two adjacent bytes out as a paired-byte handle, first byte at
    /// the lower address. The caller mutates the pair by value and stores
    /// it back with [`Memory::write_u16wrapper`].
    pub fn read_u16wrapper(&self, address: u16) -> (r: U16Wrapper)
        requires
            self.wf(),
        ensures
            r == U16Wrapper(mem_read(self@, address), mem_read(self@, wrap_inc(address))),
    {
        let first = self.read_u8(address);
        let second = self.read_u8(if address == 0xFFFF { 0 } else { address + 1 });
        U16Wrapper(first, second)
    }

    /// Stores a paired-byte handle back into two adjacent bytes, first
    /// byte at the lower address.
    pub fn write_u16wrapper(&mut self, address: u16, pair: U16Wrapper)
        requires
            old(self).wf(),
        ensures
            final(self).wf(),
            final(self)@ == mem_write(mem_write(old(self)@, address, pair.0), wrap_inc(address), pair.1),
    {
        self.write_u8(address, pair.0);
        self.write_u8(if address == 0xFFFF { 0 } else { address + 1 }, pair.1);
    }

    /// Copies a 16 KiB cartridge bank over the region starting at `start`.
    pub fn load_cart(&mut self, bank: &Buffer<0x4000>, start: usize)
        requires
            old(self).wf(),
            bank.wf(),
            start + 0x4000 <= 0x10000,
        ensures
            final(self).wf(),
            final(self)@.len() == 0x10000,
            forall|i: int| 0 <= i < 0x4000 ==> final(self)@[start + i] == bank.buf@[i],
            forall|i: int|
                0 <= i < 0x10000 && !(start <= i < start + 0x4000) ==> final(self)@[i] == old(
                    self,
                )@[i],
    {
        let mut i: usize = 0;
        while i < 0x4000
            invariant
                i <= 0x4000,
                self.wf(),
                bank.wf(),
                start + 0x4000 <= 0x10000,
                forall|j: int| 0 <= j < i ==> self@[start + j] == bank.buf@[j],
                forall|j: int|
                    0 <= j < 0x10000 && !(start <= j < start + i) ==> self@[j] == old(self)@[j],
            decreases 0x4000 - i,
        {
            let byte = bank.buf[i];
            self.buf.buf[start + i] = byte;
            i = i + 1;
        }
    }
}

impl Default for Memory {
    /// Same as [`Memory::new`]: every byte starts at zero.
    fn default() -> (r: Self)
        ensures
            r.wf(),
            forall|i: int| 0 <= i < 0x10000 ==> r@[i] == 0,
    {
        Memory::new()
    }
}

/// Memory round-trip: a byte written to any address is read back unchanged
/// from that address.
pub proof fn lemma_memory_round_trip(m: Seq<u8>, address: u16, value: u8)
    requires
        m.len() == 0x10000,
    ensures
        mem_read(mem_write(m, address, value), address) == value,
{
}

/// 16-bit memory round-trip: a 16-bit word written to any address is read
/// back unchanged from that address.
pub proof fn lemma_memory_round_trip16(m: Seq<u8>, address: u16, value: u16)
    requires
        m.len() == 0x10000,
    ensures
        mem_read16(mem_write16(m, address, value), address) == value,
{
    assert(mirror_addr(address) != mirror_addr(wrap_inc(address)));
    crate::cpu_registers::lemma_pair_round_trip(value);
}

/// Echo RAM: a byte written into work RAM at 0xC000 + k is read back from
/// echo RAM at 0xE000 + k, for every offset below 0x1E00.
pub proof fn lemma_echo_ram(m: Seq<u8>, k: u16, value: u8)
    requires
        m.len() == 0x10000,
        k < 0x1E00,
    ensures
        mem_read(mem_write(m, (0xC000 + k) as u16, value), (0xE000 + k) as u16) == value,
{
}

} // verus!
