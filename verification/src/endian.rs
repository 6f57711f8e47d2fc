//! Big-endian byte arrays to integers, unsigned and in two's complement.

use crate::wire::{
    be_value, lemma_be_value_bound, lemma_be_value_push, lemma_radix_grows, lemma_radix_values,
    radix, twos_complement,
};
use vstd::prelude::*;

verus! {

/// One more byte read: the value so far moves up a digit, and stays in the field.
proof fn lemma_step(bytes: Seq<u8>, i: int)
    requires
        0 <= i < bytes.len(),
    ensures
        be_value(bytes.take(i + 1)) == be_value(bytes.take(i)) * 256 + bytes[i],
        be_value(bytes.take(i)) * 256 + bytes[i] < radix(bytes.len()),
{
    assert(bytes.take(i + 1) =~= bytes.take(i).push(bytes[i]));
    lemma_be_value_push(bytes.take(i), bytes[i]);
    lemma_be_value_bound(bytes.take(i + 1));
    lemma_radix_grows((i + 1) as nat, bytes.len());
}

/// The unsigned 16-bit integer that two bytes spell, most significant first.
pub fn u16_from_be_bytes(bytes: [u8; 2]) -> (v: u16)
    ensures
        v == be_value(bytes@),
{
    let mut v: u16 = 0;
    let mut i: usize = 0;
    while i < 2
        invariant
            i <= 2,
            v == be_value(bytes@.take(i as int)),
        decreases 2 - i,
    {
        proof {
            lemma_step(bytes@, i as int);
            lemma_radix_values();
        }
        v = v * 256 + bytes[i] as u16;
        i += 1;
    }
    assert(bytes@.take(2) =~= bytes@);
    v
}

/// The unsigned 32-bit integer that four bytes spell, most significant first.
pub fn u32_from_be_bytes(bytes: [u8; 4]) -> (v: u32)
    ensures
        v == be_value(bytes@),
{
    let mut v: u32 = 0;
    let mut i: usize = 0;
    while i < 4
        invariant
            i <= 4,
            v == be_value(bytes@.take(i as int)),
        decreases 4 - i,
    {
        proof {
            lemma_step(bytes@, i as int);
            lemma_radix_values();
        }
        v = v * 256 + bytes[i] as u32;
        i += 1;
    }
    assert(bytes@.take(4) =~= bytes@);
    v
}

/// The unsigned 64-bit integer that eight bytes spell, most significant first.
pub fn u64_from_be_bytes(bytes: [u8; 8]) -> (v: u64)
    ensures
        v == be_value(bytes@),
{
    let mut v: u64 = 0;
    let mut i: usize = 0;
    while i < 8
        invariant
            i <= 8,
            v == be_value(bytes@.take(i as int)),
        decreases 8 - i,
    {
        proof {
            lemma_step(bytes@, i as int);
            lemma_radix_values();
        }
        v = v * 256 + bytes[i] as u64;
        i += 1;
    }
    assert(bytes@.take(8) =~= bytes@);
    v
}

/// The unsigned 128-bit integer that sixteen bytes spell, most significant first.
pub fn u128_from_be_bytes(bytes: [u8; 16]) -> (v: u128)
    ensures
        v == be_value(bytes@),
{
    let mut v: u128 = 0;
    let mut i: usize = 0;
    while i < 16
        invariant
            i <= 16,
            v == be_value(bytes@.take(i as int)),
        decreases 16 - i,
    {
        proof {
            lemma_step(bytes@, i as int);
            lemma_radix_values();
        }
        v = v * 256 + bytes[i] as u128;
        i += 1;
    }
    assert(bytes@.take(16) =~= bytes@);
    v
}

/// A byte cast to `i8` is the byte read as two's complement.
pub proof fn lemma_cast_i8(raw: u8)
    ensures
        raw as i8 == twos_complement(raw as nat, 1),
        raw as i8 == if raw < 0x80 {
            raw as int
        } else {
            raw - 0x100
        },
{
    lemma_radix_values();
    assert(raw as i8 == if raw < 0x80u8 {
        raw as int
    } else {
        raw as int - 0x100
    }) by (bit_vector);
}

/// The 16-bit integer that two bytes spell in two's complement, most significant first.
pub fn i16_from_be_bytes(bytes: [u8; 2]) -> (v: i16)
    ensures
        v == twos_complement(be_value(bytes@), 2),
{
    let raw = u16_from_be_bytes(bytes);
    proof {
        lemma_radix_values();
        assert(raw as i16 == if raw < 0x8000u16 {
            raw as int
        } else {
            raw as int - 0x1_0000
        }) by (bit_vector);
    }
    #[verifier::truncate]
    (raw as i16)
}

/// The 32-bit integer that four bytes spell in two's complement, most significant first.
pub fn i32_from_be_bytes(bytes: [u8; 4]) -> (v: i32)
    ensures
        v == twos_complement(be_value(bytes@), 4),
{
    let raw = u32_from_be_bytes(bytes);
    proof {
        lemma_radix_values();
        assert(raw as i32 == if raw < 0x8000_0000u32 {
            raw as int
        } else {
            raw as int - 0x1_0000_0000
        }) by (bit_vector);
    }
    #[verifier::truncate]
    (raw as i32)
}

/// The 64-bit integer that eight bytes spell in two's complement, most significant first.
pub fn i64_from_be_bytes(bytes: [u8; 8]) -> (v: i64)
    ensures
        v == twos_complement(be_value(bytes@), 8),
{
    let raw = u64_from_be_bytes(bytes);
    proof {
        lemma_radix_values();
        assert(raw as i64 == if raw < 0x8000_0000_0000_0000u64 {
            raw as int
        } else {
            raw as int - 0x1_0000_0000_0000_0000
        }) by (bit_vector);
    }
    #[verifier::truncate]
    (raw as i64)
}

/// The 128-bit integer that sixteen bytes spell in two's complement, most significant first.
pub fn i128_from_be_bytes(bytes: [u8; 16]) -> (v: i128)
    ensures
        v == twos_complement(be_value(bytes@), 16),
{
    let raw = u128_from_be_bytes(bytes);
    proof {
        lemma_radix_values();
        assert(raw as i128 == if raw < 0x8000_0000_0000_0000_0000_0000_0000_0000u128 {
            raw as int
        } else {
            raw as int - 0x1_0000_0000_0000_0000_0000_0000_0000_0000
        }) by (bit_vector);
    }
    #[verifier::truncate]
    (raw as i128)
}

} // verus!
