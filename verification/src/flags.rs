//! The flag byte of the processor.
//!
//! Layout, most significant bit first: `S Z 0 A 0 P 1 C`. Bit 1 is always
//! set and bits 3 and 5 are always clear; the five remaining bits are the
//! Sign, Zero, Auxiliary-carry, Parity and Carry flags.

use vstd::prelude::*;
use crate::bytes::parity8;

verus! {

/// Carry flag: bit 0 of the flag byte.
pub open spec fn f_c(f: u8) -> bool {
    f % 2 == 1
}

/// Parity flag: bit 2 of the flag byte.
pub open spec fn f_p(f: u8) -> bool {
    (f / 4) % 2 == 1
}

/// Auxiliary-carry flag: bit 4 of the flag byte.
pub open spec fn f_a(f: u8) -> bool {
    (f / 16) % 2 == 1
}

/// Zero flag: bit 6 of the flag byte.
pub open spec fn f_z(f: u8) -> bool {
    (f / 64) % 2 == 1
}

/// Sign flag: bit 7 of the flag byte.
pub open spec fn f_s(f: u8) -> bool {
    (f / 128) % 2 == 1
}

/// The flag byte built from the five condition flags, with bit 1 set and
/// bits 3 and 5 clear.
pub open spec fn mk_flags(s: bool, z: bool, a: bool, p: bool, c: bool) -> u8 {
    ((if s {
        0x80int
    } else {
        0int
    }) + (if z {
        0x40int
    } else {
        0int
    }) + (if a {
        0x10int
    } else {
        0int
    }) + (if p {
        0x04int
    } else {
        0int
    }) + 0x02 + (if c {
        1int
    } else {
        0int
    })) as u8
}

/// The flag byte with only the carry bit replaced.
pub open spec fn with_carry(f: u8, c: bool) -> u8 {
    ((f / 2) * 2 + (if c {
        1int
    } else {
        0int
    })) as u8
}

/// The constant bits of the flag byte: bit 1 set, bits 3 and 5 clear.
pub open spec fn flags_ok(f: u8) -> bool {
    (f / 2) % 2 == 1 && (f / 8) % 2 == 0 && (f / 32) % 2 == 0
}

/// An arbitrary byte forced onto the flag layout: the five condition bits
/// are kept, bit 1 is set, bits 3 and 5 are cleared.
pub open spec fn sanitize_flags(v: u8) -> u8 {
    mk_flags(f_s(v), f_z(v), f_a(v), f_p(v), f_c(v))
}

/// The flag byte after an arithmetic result: Sign, Zero and Parity are
/// derived from the low 8 bits of the result, Auxiliary-carry and Carry are
/// given by the operation.
pub open spec fn szapc(res: u8, a: bool, c: bool) -> u8 {
    mk_flags(res >= 0x80, res == 0, a, parity8(res), c)
}

/// Builds the flag byte from the five condition flags.
pub fn flags_byte(s: bool, z: bool, a: bool, p: bool, c: bool) -> (r: u8)
    ensures
        r == mk_flags(s, z, a, p, c),
{
    (if s {
        0x80u8
    } else {
        0u8
    }) + (if z {
        0x40
    } else {
        0
    }) + (if a {
        0x10
    } else {
        0
    }) + (if p {
        0x04
    } else {
        0
    }) + 0x02 + (if c {
        1
    } else {
        0
    })
}

/// Forces an arbitrary byte onto the flag layout.
pub fn sanitized(v: u8) -> (r: u8)
    ensures
        r == sanitize_flags(v),
{
    flags_byte(
        (v / 128) % 2 == 1,
        (v / 64) % 2 == 1,
        (v / 16) % 2 == 1,
        (v / 4) % 2 == 1,
        v % 2 == 1,
    )
}

/// Each condition flag reads back from the byte that `mk_flags` builds, and
/// the built byte keeps the constant bits.
pub proof fn lemma_mk_flags_fields(s: bool, z: bool, a: bool, p: bool, c: bool)
    ensures
        f_s(mk_flags(s, z, a, p, c)) == s,
        f_z(mk_flags(s, z, a, p, c)) == z,
        f_a(mk_flags(s, z, a, p, c)) == a,
        f_p(mk_flags(s, z, a, p, c)) == p,
        f_c(mk_flags(s, z, a, p, c)) == c,
        flags_ok(mk_flags(s, z, a, p, c)),
{
}

/// Replacing the carry bit changes no other flag and keeps the constant bits.
pub proof fn lemma_with_carry_fields(f: u8, c: bool)
    ensures
        f_c(with_carry(f, c)) == c,
        f_p(with_carry(f, c)) == f_p(f),
        f_a(with_carry(f, c)) == f_a(f),
        f_z(with_carry(f, c)) == f_z(f),
        f_s(with_carry(f, c)) == f_s(f),
        flags_ok(f) ==> flags_ok(with_carry(f, c)),
{
}

/// On a byte that already has the flag layout, forcing the layout changes
/// nothing.
pub proof fn lemma_sanitize_identity(f: u8)
    requires
        flags_ok(f),
    ensures
        sanitize_flags(f) == f,
{
    assert(sanitize_flags(f) == f) by (bit_vector)
        requires
            (f / 2) % 2 == 1 && (f / 8) % 2 == 0 && (f / 32) % 2 == 0,
    ;
}

} // verus!
