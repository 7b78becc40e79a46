use vstd::prelude::*;

verus! {

/// Number of bytes in a flat 16-bit address space.
pub const MEMORY_SIZE: usize = 0x10000;

/// A flat, unmirrored 64KiB memory.
pub struct Memory {
    bytes: Vec<u8>,
}

impl View for Memory {
    type V = Seq<u8>;

    closed spec fn view(&self) -> Seq<u8> {
        self.bytes@
    }
}

impl Memory {
    pub closed spec fn wf(&self) -> bool {
        self.bytes@.len() == MEMORY_SIZE
    }

    /// A zeroed memory.
    pub fn new() -> (r: Memory)
        ensures
            r.wf(),
            r@ == Seq::new(MEMORY_SIZE as nat, |i: int| 0u8),
    {
        let mut bytes: Vec<u8> = Vec::with_capacity(MEMORY_SIZE);
        let mut i: usize = 0;
        while i < MEMORY_SIZE
            invariant
                i <= MEMORY_SIZE,
                bytes@ == Seq::new(i as nat, |k: int| 0u8),
            decreases MEMORY_SIZE - i,
        {
            bytes.push(0);
            i += 1;
            assert(bytes@ =~= Seq::new(i as nat, |k: int| 0u8));
        }
        Memory { bytes }
    }

    /// Reads a byte from memory at `addr`.
    pub fn read(&self, addr: u16) -> (r: u8)
        requires
            self.wf(),
        ensures
            r == self@[addr as int],
    {
        self.bytes[addr as usize]
    }

    /// Reads a little-endian 16-bit value from `addr` and `addr + 1`,
    /// wrapping from 0xFFFF to 0x0000.
    pub fn read_u16(&self, addr: u16) -> (r: u16)
        requires
            self.wf(),
        ensures
            r as int == self@[(addr as int + 1) % 0x10000] as int * 256 + self@[addr as int] as int,
    {
        let lo = self.bytes[addr as usize] as u16;
        let hi = self.bytes[addr.wrapping_add(1) as usize] as u16;
        hi * 256 + lo
    }

    pub fn write(&mut self, addr: u16, data: u8)
        requires
            old(self).wf(),
        ensures
            final(self).wf(),
            final(self)@ == old(self)@.update(addr as int, data),
    {
        self.bytes.set(addr as usize, data);
    }
}

} // verus!
