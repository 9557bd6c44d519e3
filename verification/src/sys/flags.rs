//! The five 8080 condition flags and their packed byte form.

use vstd::prelude::*;

verus! {

#[derive(Clone, Copy, Debug, PartialEq, Eq, Structural)]
pub struct Flags {
    pub sign: bool,
    pub zero: bool,
    pub aux_carry: bool,
    pub parity: bool,
    pub carry: bool,
}

/// The flag byte: bits 7:S, 6:Z, 5:0, 4:AC, 3:0, 2:P, 1:1 (always set), 0:C.
pub open spec fn spec_flags_to_byte(f: Flags) -> u8 {
    (if f.sign { 0x80u8 } else { 0u8 }) | (if f.zero { 0x40u8 } else { 0u8 })
        | (if f.aux_carry { 0x10u8 } else { 0u8 }) | (if f.parity { 0x04u8 } else { 0u8 })
        | 0x02u8 | (if f.carry { 0x01u8 } else { 0u8 })
}

/// The flags read back from a packed byte; bits 5, 3 and 1 are ignored.
pub open spec fn spec_flags_from_byte(byte: u8) -> Flags {
    Flags {
        sign: crate::util::spec_bit_set(byte, 7),
        zero: crate::util::spec_bit_set(byte, 6),
        aux_carry: crate::util::spec_bit_set(byte, 4),
        parity: crate::util::spec_bit_set(byte, 2),
        carry: crate::util::spec_bit_set(byte, 0),
    }
}

/// Even parity: an even number of one bits in the byte.
pub open spec fn spec_parity(b: u8) -> bool {
    (((b >> 7) & 1) + ((b >> 6) & 1) + ((b >> 5) & 1) + ((b >> 4) & 1) + ((b >> 3) & 1) + ((b
        >> 2) & 1) + ((b >> 1) & 1) + (b & 1)) % 2 == 0
}

/// Sign, zero and parity of a result byte; carry and aux-carry untouched.
pub open spec fn spec_zsp(f: Flags, b: u8) -> Flags {
    Flags { zero: b == 0, sign: b >> 7 == 1, parity: spec_parity(b), ..f }
}

impl Flags {
    pub fn new() -> (f: Flags)
        ensures
            f == (Flags { sign: false, zero: false, aux_carry: false, parity: false,
                carry: false }),
    {
        Flags { sign: false, zero: false, aux_carry: false, parity: false, carry: false }
    }

    pub fn to_byte(&self) -> (b: u8)
        ensures
            b == spec_flags_to_byte(*self),
    {
        (if self.sign { 0x80u8 } else { 0u8 }) | (if self.zero { 0x40u8 } else { 0u8 })
            | (if self.aux_carry { 0x10u8 } else { 0u8 })
            | (if self.parity { 0x04u8 } else { 0u8 }) | 0x02u8
            | (if self.carry { 0x01u8 } else { 0u8 })
    }

    pub fn from_byte(&mut self, byte: u8)
        ensures
            *final(self) == spec_flags_from_byte(byte),
    {
        self.sign = crate::util::is_bit_set(byte, 7);
        self.zero = crate::util::is_bit_set(byte, 6);
        self.aux_carry = crate::util::is_bit_set(byte, 4);
        self.parity = crate::util::is_bit_set(byte, 2);
        self.carry = crate::util::is_bit_set(byte, 0);
    }

    pub fn parity(byte: u8) -> (r: bool)
        ensures
            r == spec_parity(byte),
    {
        let ones: u32 = ((byte >> 7) & 1) as u32 + ((byte >> 6) & 1) as u32 + ((byte >> 5)
            & 1) as u32 + ((byte >> 4) & 1) as u32 + ((byte >> 3) & 1) as u32 + ((byte >> 2)
            & 1) as u32 + ((byte >> 1) & 1) as u32 + (byte & 1) as u32;
        ones % 2 == 0
    }

    pub fn zero_sign_parity(&mut self, byte: u8)
        ensures
            *final(self) == spec_zsp(*old(self), byte),
    {
        self.zero = byte == 0;
        self.sign = byte >> 7 == 1;
        self.parity = Flags::parity(byte);
    }
}

/// Packing the flags into a byte and reading them back restores all five
/// flags: the constant bits never collide with a flag bit.
pub proof fn lemma_flag_byte_round_trip(f: Flags)
    ensures
        spec_flags_from_byte(spec_flags_to_byte(f)) == f,
{
    let s: u8 = if f.sign { 0x80u8 } else { 0u8 };
    let z: u8 = if f.zero { 0x40u8 } else { 0u8 };
    let ac: u8 = if f.aux_carry { 0x10u8 } else { 0u8 };
    let p: u8 = if f.parity { 0x04u8 } else { 0u8 };
    let c: u8 = if f.carry { 0x01u8 } else { 0u8 };
    assert((s == 0x80 || s == 0) && (z == 0x40 || z == 0) && (ac == 0x10 || ac == 0) && (p == 4
        || p == 0) && (c == 1 || c == 0) ==> (((s | z | ac | p | 0x02u8 | c) >> 7) & 1 == 1) == (
    s == 0x80) && (((s | z | ac | p | 0x02u8 | c) >> 6) & 1 == 1) == (z == 0x40) && (((s | z
        | ac | p | 0x02u8 | c) >> 4) & 1 == 1) == (ac == 0x10) && (((s | z | ac | p | 0x02u8
        | c) >> 2) & 1 == 1) == (p == 4) && (((s | z | ac | p | 0x02u8 | c) >> 0) & 1 == 1) == (
    c == 1)) by (bit_vector);
}

} // verus!
