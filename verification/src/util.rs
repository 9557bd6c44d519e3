//! Small helpers shared by the assembler, disassembler and emulator.

use vstd::prelude::*;
use vstd::string::StringSliceAdditionalSpecFns;

verus! {

/// Low byte followed by high byte: the little-endian encoding of a word.
pub open spec fn spec_u16_le(v: u16) -> Seq<u8> {
    seq![(v & 0xff) as u8, (v >> 8) as u8]
}

/// The word read from the first one or two bytes of a sequence; an empty
/// sequence reads as zero, a single byte as itself.
pub open spec fn spec_le_u16(v: Seq<u8>) -> u16 {
    if v.len() == 0 {
        0u16
    } else if v.len() == 1 {
        v[0] as u16
    } else {
        (v[0] as u16 | ((v[1] as u16) << 8)) as u16
    }
}

pub open spec fn spec_bit_set(byte: u8, bit: u8) -> bool {
    (byte >> bit) & 1 == 1
}

pub fn is_bit_set(byte: u8, bit: u8) -> (r: bool)
    requires
        bit < 8,
    ensures
        r == spec_bit_set(byte, bit),
{
    (byte >> bit) & 1 == 1
}

pub fn u16_to_vec_u8(v: u16) -> (r: Vec<u8>)
    ensures
        r@ == spec_u16_le(v),
        r.len() == 2,
{
    let r = vec![(v & 0xff) as u8, (v >> 8) as u8];
    proof {
        assert(r@ =~= spec_u16_le(v));
    }
    r
}

pub fn vec_u8_to_u16(v: &[u8]) -> (r: u16)
    ensures
        r == spec_le_u16(v@),
{
    if v.len() == 0 {
        0x00
    } else if v.len() == 1 {
        v[0] as u16
    } else {
        v[0] as u16 | (v[1] as u16) << 8
    }
}

/// Byte-for-byte equality of two slices.
pub fn bytes_eq(a: &[u8], b: &[u8]) -> (r: bool)
    ensures
        r == (a@ == b@),
{
    if a.len() != b.len() {
        proof {
            assert(a@.len() != b@.len());
        }
        return false;
    }
    let mut i: usize = 0;
    while i < a.len()
        invariant
            i <= a.len(),
            a@.len() == b@.len(),
            forall|j: int| 0 <= j < i ==> a@[j] == b@[j],
        decreases a.len() - i,
    {
        if a[i] != b[i] {
            return false;
        }
        i = i + 1;
    }
    proof {
        assert(a@ =~= b@);
    }
    true
}

/// The bytes of a string, as an owned vector.
pub fn str_to_vec(s: &str) -> (r: Vec<u8>)
    ensures
        r@ == s.spec_bytes(),
{
    let mut r: Vec<u8> = Vec::new();
    push_bytes(&mut r, s.as_bytes());
    proof {
        assert(r@ =~= s.spec_bytes());
    }
    r
}

/// Append every byte of a slice.
pub fn push_bytes(dst: &mut Vec<u8>, src: &[u8])
    ensures
        final(dst)@ == old(dst)@ + src@,
{
    let mut i: usize = 0;
    while i < src.len()
        invariant
            i <= src.len(),
            dst@ =~= old(dst)@ + src@.subrange(0, i as int),
        decreases src.len() - i,
    {
        dst.push(src[i]);
        proof {
            assert(dst@ =~= old(dst)@ + src@.subrange(0, i + 1));
        }
        i = i + 1;
    }
    proof {
        assert(dst@ =~= old(dst)@ + src@);
    }
}

/// A fresh copy of a byte vector.
pub fn bytes_copy(v: &Vec<u8>) -> (r: Vec<u8>)
    ensures
        r@ == v@,
{
    let r = v.clone();
    proof {
        assert(r@ =~= v@);
    }
    r
}

/// The two little-endian bytes of a word decode back to the word.
pub proof fn lemma_u16_le_round_trip(v: u16)
    ensures
        spec_le_u16(spec_u16_le(v)) == v,
{
    assert((((v & 0xff) as u8) as u16 | ((((v >> 8) as u8) as u16) << 8) as u16) == v)
        by (bit_vector);
}

/// Relies on rand::random: a value drawn from the thread-local generator.
/// Nothing can be promised of a random value.
pub assume_specification<T>[ rand::random::<T> ]() -> (r: T)
    where
        rand::distributions::Standard: rand::distributions::Distribution<T>,
;

} // verus!
