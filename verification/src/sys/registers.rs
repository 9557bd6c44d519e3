//! The 8080 register file: seven 8-bit registers and the two 16-bit ones.

use vstd::prelude::*;

verus! {

#[derive(Clone, Copy, Debug, PartialEq, Eq, Structural)]
pub struct Registers {
    pub a: u8,
    pub b: u8,
    pub c: u8,
    pub d: u8,
    pub e: u8,
    pub h: u8,
    pub l: u8,
    pub sp: u16,
    pub pc: u16,
}

/// A register pair read as high byte then low byte.
pub open spec fn spec_pair(hi: u8, lo: u8) -> u16 {
    (((hi as u16) << 8) | (lo as u16)) as u16
}

/// The high byte of a word.
pub open spec fn spec_hi(v: u16) -> u8 {
    (v >> 8) as u8
}

/// The low byte of a word.
pub open spec fn spec_lo(v: u16) -> u8 {
    v as u8
}

/// Splitting a word into bytes and pairing them again restores the word,
/// and pairing two bytes then splitting restores the bytes.
pub proof fn lemma_pair_split(v: u16, hi: u8, lo: u8)
    ensures
        spec_pair(spec_hi(v), spec_lo(v)) == v,
        spec_hi(spec_pair(hi, lo)) == hi,
        spec_lo(spec_pair(hi, lo)) == lo,
{
    assert((((((v >> 8) as u8) as u16) << 8) | ((v as u8) as u16)) as u16 == v) by (bit_vector);
    assert(((((((hi as u16) << 8) | (lo as u16)) as u16) >> 8) as u8) == hi) by (bit_vector);
    assert((((((hi as u16) << 8) | (lo as u16)) as u16) as u8) == lo) by (bit_vector);
}

impl Registers {
    pub fn new() -> (r: Registers)
        ensures
            r == (Registers { a: 0, b: 0, c: 0, d: 0, e: 0, h: 0, l: 0, sp: 0, pc: 0 }),
    {
        Registers { a: 0, b: 0, c: 0, d: 0, e: 0, h: 0, l: 0, sp: 0, pc: 0 }
    }

    pub open spec fn spec_bc(self) -> u16 {
        spec_pair(self.b, self.c)
    }

    pub open spec fn spec_de(self) -> u16 {
        spec_pair(self.d, self.e)
    }

    pub open spec fn spec_hl(self) -> u16 {
        spec_pair(self.h, self.l)
    }

    pub fn get_bc(&self) -> (v: u16)
        ensures
            v == self.spec_bc(),
    {
        (self.b as u16) << 8 | self.c as u16
    }

    pub fn get_de(&self) -> (v: u16)
        ensures
            v == self.spec_de(),
    {
        (self.d as u16) << 8 | self.e as u16
    }

    pub fn get_hl(&self) -> (v: u16)
        ensures
            v == self.spec_hl(),
    {
        (self.h as u16) << 8 | self.l as u16
    }

    pub fn set_bc(&mut self, val: u16)
        ensures
            *final(self) == (Registers { b: spec_hi(val), c: spec_lo(val), ..*old(self) }),
    {
        self.b = (val >> 8) as u8;
        self.c = val as u8;
    }

    pub fn set_de(&mut self, val: u16)
        ensures
            *final(self) == (Registers { d: spec_hi(val), e: spec_lo(val), ..*old(self) }),
    {
        self.d = (val >> 8) as u8;
        self.e = val as u8;
    }

    pub fn set_hl(&mut self, val: u16)
        ensures
            *final(self) == (Registers { h: spec_hi(val), l: spec_lo(val), ..*old(self) }),
    {
        self.h = (val >> 8) as u8;
        self.l = val as u8;
    }
}

} // verus!

verus! {

impl Registers {
    /// Scramble every register but PC with random values.
    pub fn randomize(&mut self)
        ensures
            final(self).pc == old(self).pc,
    {
        let bc: u16 = rand::random();
        self.set_bc(bc);
        let de: u16 = rand::random();
        self.set_de(de);
        let hl: u16 = rand::random();
        self.set_hl(hl);
        self.a = rand::random();
        self.sp = rand::random();
    }
}

} // verus!
