//! The cartridge: a byte image from which 16 KiB banks are cut. Reading
//! the image from disk is the host's job; the core only holds the bytes.

use vstd::prelude::*;

use crate::memory::Buffer;

verus! {

/// A cartridge ROM image.
pub struct Cart {
    buf: Vec<u8>,
}

impl Default for Cart {
    /// An empty image.
    fn default() -> (r: Self)
        ensures
            r.spec_bytes().len() == 0,
    {
        Cart { buf: Vec::new() }
    }
}

impl Cart {
    /// The raw image bytes.
    pub closed spec fn spec_bytes(&self) -> Seq<u8> {
        self.buf@
    }

    /// Wraps a ROM image already read into memory.
    pub fn from_bytes(buf: Vec<u8>) -> (r: Self)
        ensures
            r.spec_bytes() == buf@,
    {
        Cart { buf }
    }

    /// Cuts the 16 KiB bank that starts at the given offset out of the
    /// image.
    pub fn get_bank(&self, start: u16) -> (r: Buffer<0x4000>)
        requires
            start + 0x4000 <= self.spec_bytes().len(),
        ensures
            r.wf(),
            forall|i: int| 0 <= i < 0x4000 ==> #[trigger] r.buf@[i] == self.spec_bytes()[start + i],
    {
        let mut buf: Vec<u8> = Vec::new();
        let mut i: usize = 0;
        while i < 0x4000
            invariant
                i <= 0x4000,
                start + 0x4000 <= self.spec_bytes().len(),
                buf@.len() == i,
                forall|j: int| 0 <= j < i ==> buf@[j] == self.spec_bytes()[start + j],
            decreases 0x4000 - i,
        {
            buf.push(self.buf[start as usize + i]);
            i = i + 1;
        }
        Buffer { buf }
    }

    /// The image byte at an address, or zero past the end of the image.
    pub fn read(&self, address: u16) -> (r: u8)
        ensures
            r == if address < self.spec_bytes().len() {
                self.spec_bytes()[address as int]
            } else {
                0
            },
    {
        if (address as usize) >= self.buf.len() {
            return 0;
        }
        self.buf[address as usize]
    }
}

} // verus!
