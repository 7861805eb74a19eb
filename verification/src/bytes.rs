//! Decoding of primitive integers from little-endian bytes.
use vstd::prelude::*;

verus! {

/// The unsigned value of `bytes` read least significant byte first.
pub open spec fn le_value(bytes: Seq<u8>) -> nat
    decreases bytes.len(),
{
    if bytes.len() == 0 {
        0
    } else {
        bytes[0] as nat + 256 * le_value(bytes.drop_first())
    }
}

/// The two's complement reading of the unsigned `value` of `bits` bits.
pub open spec fn twos_complement(value: int, bits: nat) -> int {
    if value >= vstd::arithmetic::power2::pow2((bits - 1) as nat) { value - vstd::arithmetic::power2::pow2(bits) } else { value }
}

/// Types that can be built from a fixed number of little-endian bytes.
pub trait FromBytes<const SIZE: usize>: Sized {
    /// Converts from bytes in little-endian order.
    fn from_le_bytes(bytes: [u8; SIZE]) -> Self;
}

proof fn lemma_le_value_1(b: Seq<u8>)
    requires
        b.len() == 1,
    ensures
        le_value(b) == b[0],
{
    reveal_with_fuel(le_value, 2);
}

proof fn lemma_le_value_2(b: Seq<u8>)
    requires
        b.len() == 2,
    ensures
        le_value(b) == b[0] + 256 * b[1],
{
    reveal_with_fuel(le_value, 3);
}

proof fn lemma_le_value_4(b: Seq<u8>)
    requires
        b.len() == 4,
    ensures
        le_value(b) == b[0] + 256 * b[1] + 65536 * b[2] + 16777216 * b[3],
{
    reveal_with_fuel(le_value, 5);
}

proof fn lemma_le_value_8(b: Seq<u8>)
    requires
        b.len() == 8,
    ensures
        le_value(b) == b[0] + 256 * b[1] + 65536 * b[2] + 16777216 * b[3] + 4294967296 * b[4]
            + 1099511627776 * b[5] + 281474976710656 * b[6] + 72057594037927936 * b[7],
{
    reveal_with_fuel(le_value, 9);
}

fn u16_of(bytes: [u8; 2]) -> (r: u16)
    ensures
        r == le_value(bytes@),
{
    proof {
        lemma_le_value_2(bytes@);
    }
    (bytes[0] as u16) + 256 * (bytes[1] as u16)
}

fn u32_of(bytes: [u8; 4]) -> (r: u32)
    ensures
        r == le_value(bytes@),
{
    proof {
        lemma_le_value_4(bytes@);
    }
    (bytes[0] as u32) + 256 * (bytes[1] as u32) + 65536 * (bytes[2] as u32) + 16777216 * (bytes[3] as u32)
}

fn u64_of(bytes: [u8; 8]) -> (r: u64)
    ensures
        r == le_value(bytes@),
{
    proof {
        lemma_le_value_8(bytes@);
    }
    (bytes[0] as u64) + 256 * (bytes[1] as u64) + 65536 * (bytes[2] as u64) + 16777216 * (bytes[3] as u64)
        + 4294967296 * (bytes[4] as u64) + 1099511627776 * (bytes[5] as u64) + 281474976710656 * (bytes[6] as u64)
        + 72057594037927936 * (bytes[7] as u64)
}

impl FromBytes<1> for u8 {
    fn from_le_bytes(bytes: [u8; 1]) -> (r: u8)
        ensures
            r == le_value(bytes@),
    {
        proof {
            lemma_le_value_1(bytes@);
        }
        bytes[0]
    }
}

impl FromBytes<2> for u16 {
    fn from_le_bytes(bytes: [u8; 2]) -> (r: u16)
        ensures
            r == le_value(bytes@),
    {
        u16_of(bytes)
    }
}

impl FromBytes<4> for u32 {
    fn from_le_bytes(bytes: [u8; 4]) -> (r: u32)
        ensures
            r == le_value(bytes@),
    {
        u32_of(bytes)
    }
}

impl FromBytes<8> for u64 {
    fn from_le_bytes(bytes: [u8; 8]) -> (r: u64)
        ensures
            r == le_value(bytes@),
    {
        u64_of(bytes)
    }
}

impl FromBytes<1> for i8 {
    fn from_le_bytes(bytes: [u8; 1]) -> (r: i8)
        ensures
            r == twos_complement(le_value(bytes@) as int, 8),
    {
        proof {
            lemma_le_value_1(bytes@);
            vstd::arithmetic::power2::lemma2_to64();
        }
        let v = bytes[0];
        if v < 128 { v as i8 } else { (v as i16 - 256) as i8 }
    }
}

impl FromBytes<2> for i16 {
    fn from_le_bytes(bytes: [u8; 2]) -> (r: i16)
        ensures
            r == twos_complement(le_value(bytes@) as int, 16),
    {
        proof {
            vstd::arithmetic::power2::lemma2_to64();
        }
        let v = u16_of(bytes);
        if v < 32768 { v as i16 } else { (v as i32 - 65536) as i16 }
    }
}

impl FromBytes<4> for i32 {
    fn from_le_bytes(bytes: [u8; 4]) -> (r: i32)
        ensures
            r == twos_complement(le_value(bytes@) as int, 32),
    {
        proof {
            vstd::arithmetic::power2::lemma2_to64();
        }
        let v = u32_of(bytes);
        if v < 2147483648 { v as i32 } else { (v as i64 - 4294967296) as i32 }
    }
}

impl FromBytes<8> for i64 {
    fn from_le_bytes(bytes: [u8; 8]) -> (r: i64)
        ensures
            r == twos_complement(le_value(bytes@) as int, 64),
    {
        proof {
            vstd::arithmetic::power2::lemma2_to64();
            vstd::arithmetic::power2::lemma2_to64_rest();
        }
        let v = u64_of(bytes);
        if v < 9223372036854775808 { v as i64 } else { ((v - 9223372036854775808) as i64) - 9223372036854775807 - 1 }
    }
}

} // verus!
