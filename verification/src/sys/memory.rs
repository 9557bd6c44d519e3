//! Flat byte memory with the 8080 toolchain's out-of-range convention:
//! reads past the end return 0xff, writes past the end are dropped.

use vstd::prelude::*;

verus! {

pub const MAX_MEM: usize = 0x10000;

#[derive(Debug)]
pub struct Memory {
    pub mem: Vec<u8>,
}

/// The byte at an address; 0xff past the end.
pub open spec fn spec_read(m: Seq<u8>, addr: int) -> u8 {
    if 0 <= addr < m.len() {
        m[addr]
    } else {
        0xffu8
    }
}

/// Memory with one byte replaced; unchanged if the address is past the end.
pub open spec fn spec_write(m: Seq<u8>, addr: int, val: u8) -> Seq<u8> {
    if 0 <= addr < m.len() {
        m.update(addr, val)
    } else {
        m
    }
}

/// A word read high byte first (the push/pop convention).
pub open spec fn spec_read_word_be(m: Seq<u8>, addr: int) -> u16 {
    crate::sys::registers::spec_pair(spec_read(m, addr), spec_read(m, addr + 1))
}

/// A word read low byte first (the immediate-operand convention).
pub open spec fn spec_read_word_le(m: Seq<u8>, addr: int) -> u16 {
    crate::sys::registers::spec_pair(spec_read(m, addr + 1), spec_read(m, addr))
}

/// A word written high byte first.
pub open spec fn spec_write_word_be(m: Seq<u8>, addr: int, val: u16) -> Seq<u8> {
    spec_write(
        spec_write(m, addr, crate::sys::registers::spec_hi(val)),
        addr + 1,
        crate::sys::registers::spec_lo(val),
    )
}

/// A word written low byte first.
pub open spec fn spec_write_word_le(m: Seq<u8>, addr: int, val: u16) -> Seq<u8> {
    spec_write(
        spec_write(m, addr + 1, crate::sys::registers::spec_hi(val)),
        addr,
        crate::sys::registers::spec_lo(val),
    )
}

/// Memory after a program image is copied in at an offset: bytes that would
/// fall past the end are dropped.
pub open spec fn spec_load(m: Seq<u8>, addr: int, prog: Seq<u8>) -> Seq<u8> {
    Seq::new(
        m.len(),
        |i: int|
            if addr <= i < addr + prog.len() {
                prog[i - addr]
            } else {
                m[i]
            },
    )
}

impl Memory {
    pub fn new() -> (m: Memory)
        ensures
            m.mem.len() == MAX_MEM,
            forall|i: int| 0 <= i < m.mem.len() ==> m.mem[i] == 0u8,
    {
        Memory { mem: vec![0u8; MAX_MEM] }
    }

    /// Copy a program into memory at the given address, dropping what runs
    /// past the end; returns how many bytes were copied.
    pub fn load(&mut self, addr: u16, prog: Vec<u8>) -> (copied: usize)
        ensures
            final(self).mem@ == spec_load(old(self).mem@, addr as int, prog@),
            copied == if addr as int + prog.len() <= old(self).mem.len() {
                prog@.len() as int
            } else if addr as int <= old(self).mem.len() {
                old(self).mem.len() - addr
            } else {
                0int
            },
    {
        let offset = addr as usize;
        let n = if offset > self.mem.len() {
            0
        } else if prog.len() > self.mem.len() - offset {
            self.mem.len() - offset
        } else {
            prog.len()
        };
        let mut i: usize = 0;
        while i < n
            invariant
                n <= prog.len(),
                n == 0 || offset + n <= self.mem.len(),
                i <= n,
                self.mem.len() == old(self).mem.len(),
                forall|j: int|
                    0 <= j < self.mem.len() ==> self.mem[j] == if offset <= j < offset + i {
                        prog@[j - offset]
                    } else {
                        old(self).mem@[j]
                    },
            decreases n - i,
        {
            self.mem.set(offset + i, prog[i]);
            i = i + 1;
        }
        proof {
            assert(self.mem@ =~= spec_load(old(self).mem@, addr as int, prog@));
        }
        n
    }

    pub fn read_byte(&self, addr: u16) -> (b: u8)
        ensures
            b == spec_read(self.mem@, addr as int),
    {
        if (addr as usize) < self.mem.len() {
            self.mem[addr as usize]
        } else {
            0xff
        }
    }

    /// Read the byte at an index that may exceed the 16-bit address space
    /// (an immediate operand of an instruction fetched at 0xffff).
    pub fn read_byte_at(&self, idx: usize) -> (b: u8)
        ensures
            b == spec_read(self.mem@, idx as int),
    {
        if idx < self.mem.len() {
            self.mem[idx]
        } else {
            0xff
        }
    }

    pub fn read_word_big_endian(&self, addr: u16) -> (v: u16)
        ensures
            v == spec_read_word_be(self.mem@, addr as int),
    {
        (self.read_byte(addr) as u16) << 8 | self.read_byte_at(addr as usize + 1) as u16
    }

    pub fn read_word_little_endian(&self, addr: u16) -> (v: u16)
        ensures
            v == spec_read_word_le(self.mem@, addr as int),
    {
        (self.read_byte_at(addr as usize + 1) as u16) << 8 | self.read_byte(addr) as u16
    }

    /// Read a little-endian word at an index that may exceed the 16-bit
    /// address space.
    pub fn read_word_little_endian_at(&self, idx: usize) -> (v: u16)
        requires
            idx < usize::MAX,
        ensures
            v == spec_read_word_le(self.mem@, idx as int),
    {
        (self.read_byte_at(idx + 1) as u16) << 8 | self.read_byte_at(idx) as u16
    }

    pub fn write_byte(&mut self, addr: u16, val: u8)
        ensures
            final(self).mem@ == spec_write(old(self).mem@, addr as int, val),
    {
        let idx = addr as usize;
        if idx < self.mem.len() {
            self.mem.set(idx, val);
        }
    }

    /// Write the byte at an index that may exceed the 16-bit address space.
    pub fn write_byte_at(&mut self, idx: usize, val: u8)
        ensures
            final(self).mem@ == spec_write(old(self).mem@, idx as int, val),
    {
        if idx < self.mem.len() {
            self.mem.set(idx, val);
        }
    }

    pub fn write_word_big_endian(&mut self, addr: u16, val: u16)
        ensures
            final(self).mem@ == spec_write_word_be(old(self).mem@, addr as int, val),
    {
        self.write_byte(addr, (val >> 8) as u8);
        self.write_byte_at(addr as usize + 1, (val & 0xff) as u8);
        proof {
            assert((val & 0xff) as u8 == val as u8) by (bit_vector);
        }
    }

    pub fn write_word_little_endian(&mut self, addr: u16, val: u16)
        ensures
            final(self).mem@ == spec_write_word_le(old(self).mem@, addr as int, val),
    {
        self.write_byte_at(addr as usize + 1, (val >> 8) as u8);
        self.write_byte(addr, val as u8);
    }

    /// The bytes from an address up to a length, clipped to the end of
    /// memory.
    pub fn get_slice(&self, addr: u16, len: u16) -> (r: Vec<u8>)
        ensures
            r@ == self.mem@.subrange(
                if addr as int <= self.mem.len() { addr as int } else { self.mem@.len() as int },
                if addr as int + len as int <= self.mem.len() {
                    addr as int + len as int
                } else {
                    self.mem@.len() as int
                },
            ),
    {
        let lo = if addr as usize <= self.mem.len() {
            addr as usize
        } else {
            self.mem.len()
        };
        let hi = if addr as usize + len as usize <= self.mem.len() {
            addr as usize + len as usize
        } else {
            self.mem.len()
        };
        let mut r: Vec<u8> = Vec::new();
        let mut i = lo;
        while i < hi
            invariant
                lo <= i <= hi <= self.mem.len() || (lo == self.mem.len() && hi <= lo && i == lo),
                lo <= i,
                i <= hi || hi < lo,
                hi <= self.mem.len(),
                r@ =~= self.mem@.subrange(lo as int, if i > hi { lo as int } else { i as int }),
            decreases hi - i,
        {
            r.push(self.mem[i]);
            i = i + 1;
        }
        proof {
            assert(r@ =~= self.mem@.subrange(
                if addr as int <= self.mem.len() { addr as int } else { self.mem@.len() as int },
                if addr as int + len as int <= self.mem.len() {
                    addr as int + len as int
                } else {
                    self.mem@.len() as int
                },
            ));
        }
        r
    }
}

} // verus!

verus! {

impl Memory {
    /// Scramble every byte of memory with random values.
    pub fn randomize(&mut self)
        ensures
            final(self).mem.len() == old(self).mem.len(),
    {
        let mut i: usize = 0;
        while i < self.mem.len()
            invariant
                self.mem.len() == old(self).mem.len(),
            decreases self.mem.len() - i,
        {
            let b: u8 = rand::random();
            self.mem.set(i, b);
            i = i + 1;
        }
    }
}

} // verus!
