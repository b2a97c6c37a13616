//! Arithmetic on the bytes and 16-bit words of the processor: wrapping
//! reduction, byte splitting and joining, and the population count that
//! underlies the parity flag.

use vstd::prelude::*;

verus! {

/// A 16-bit value reduced modulo 2^16, as the program counter, the stack
/// pointer and every address computation wrap.
pub open spec fn w16(v: int) -> u16 {
    (v % 0x10000) as u16
}

/// Low byte of a 16-bit value.
pub open spec fn lo8(v: u16) -> u8 {
    (v % 0x100) as u8
}

/// High byte of a 16-bit value.
pub open spec fn hi8(v: u16) -> u8 {
    (v / 0x100) as u8
}

/// The 16-bit value `hi<<8 | lo` formed from a high and a low byte.
pub open spec fn join16(hi: u8, lo: u8) -> u16 {
    ((hi as int) * 0x100 + (lo as int)) as u16
}

/// How many bits of a byte are set.
pub open spec fn count_ones(v: u8) -> nat
    decreases v,
{
    if v == 0 {
        0
    } else {
        (v % 2) as nat + count_ones(v / 2)
    }
}

/// Even parity of a byte: true when the number of set bits is even.
pub open spec fn parity8(v: u8) -> bool {
    count_ones(v) % 2 == 0
}

/// A byte has at most as many set bits as its value.
pub proof fn lemma_count_ones_le(v: u8)
    ensures
        count_ones(v) <= v,
    decreases v,
{
    if v > 0 {
        lemma_count_ones_le(v / 2);
    }
}

/// Splitting a 16-bit value into its bytes and joining them is the identity.
pub proof fn lemma_split_join(v: u16)
    ensures
        join16(hi8(v), lo8(v)) == v,
{
}

/// Joining two bytes and splitting the result returns the bytes.
pub proof fn lemma_join_split(hi: u8, lo: u8)
    ensures
        hi8(join16(hi, lo)) == hi,
        lo8(join16(hi, lo)) == lo,
{
    vstd::arithmetic::div_mod::lemma_fundamental_div_mod_converse(
        (hi as int) * 0x100 + (lo as int),
        0x100,
        hi as int,
        lo as int,
    );
}

} // verus!
