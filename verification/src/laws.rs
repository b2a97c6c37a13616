//! Laws of the machine: what the flag byte of every arithmetic result
//! decodes to, which flags each instruction family leaves alone, the
//! stack and exchange round trips, and the exact accounting of cycles
//! over any run.

use vstd::prelude::*;
use crate::bytes::{w16, parity8, join16, lemma_split_join, lemma_join_split};
use crate::flags::{
    f_c, f_p, f_a, f_z, f_s, flags_ok, lemma_mk_flags_fields, lemma_with_carry_fields,
    lemma_sanitize_identity,
};
use crate::state::{Cpu, Register, RegisterPair, pair_of, mem_r, mem_r16, mem_w16, mem_idx};
use crate::alu::{
    add_res, add_cy, add_ax, sub_res, sub_cy, sub_ax, inr_res, inr_ax, dcr_res, dcr_ax,
    s_add_v, s_sub_v, s_inr, s_dcr, s_dad, s_dad_sp,
};
use crate::transfer::{s_push, s_pop, s_xthl, s_xchg};
use crate::dispatch::{spec_step, spec_step_cost};

verus! {

/// The flag-byte invariant, as a mask: bit 1 set, bits 3 and 5 clear.
/// Every step of the machine keeps it (see the contract of `step`).
pub proof fn lemma_flags_ok_mask(f: u8)
    ensures
        flags_ok(f) <==> f & 0x2A == 0x02,
{
    assert(((f / 2) % 2 == 1 && (f / 8) % 2 == 0 && (f / 32) % 2 == 0) <==> f & 0x2A == 0x02)
        by (bit_vector);
}

/// After an add-family operation on any two bytes: Zero holds exactly of a
/// zero result, Sign is bit 7 of the result, Parity is the even parity of
/// the result, Carry the carry out of bit 7 and Auxiliary-carry the carry
/// out of bit 3.
pub proof fn lemma_add_flags(s: Cpu, x: u8, cin: u8)
    ensures
        s_add_v(s, x, cin).a == add_res(s.a, x, cin),
        f_z(s_add_v(s, x, cin).flags) == (add_res(s.a, x, cin) == 0),
        f_s(s_add_v(s, x, cin).flags) == (add_res(s.a, x, cin) >= 0x80),
        f_p(s_add_v(s, x, cin).flags) == parity8(add_res(s.a, x, cin)),
        f_c(s_add_v(s, x, cin).flags) == add_cy(s.a, x, cin),
        f_a(s_add_v(s, x, cin).flags) == add_ax(s.a, x, cin),
{
    lemma_mk_flags_fields(
        add_res(s.a, x, cin) >= 0x80,
        add_res(s.a, x, cin) == 0,
        add_ax(s.a, x, cin),
        parity8(add_res(s.a, x, cin)),
        add_cy(s.a, x, cin),
    );
}

/// After a subtract-family operation on any two bytes: Zero, Sign and
/// Parity decode from the result, Carry is the borrow out of bit 7 and
/// Auxiliary-carry the borrow out of bit 3.
pub proof fn lemma_sub_flags(s: Cpu, x: u8, cin: u8)
    ensures
        s_sub_v(s, x, cin).a == sub_res(s.a, x, cin),
        f_z(s_sub_v(s, x, cin).flags) == (sub_res(s.a, x, cin) == 0),
        f_s(s_sub_v(s, x, cin).flags) == (sub_res(s.a, x, cin) >= 0x80),
        f_p(s_sub_v(s, x, cin).flags) == parity8(sub_res(s.a, x, cin)),
        f_c(s_sub_v(s, x, cin).flags) == sub_cy(s.a, x, cin),
        f_a(s_sub_v(s, x, cin).flags) == sub_ax(s.a, x, cin),
{
    lemma_mk_flags_fields(
        sub_res(s.a, x, cin) >= 0x80,
        sub_res(s.a, x, cin) == 0,
        sub_ax(s.a, x, cin),
        parity8(sub_res(s.a, x, cin)),
        sub_cy(s.a, x, cin),
    );
}

/// `INR` on any byte register: Zero, Sign, Parity and Auxiliary-carry
/// decode from the incremented value, and Carry is left unchanged.
pub proof fn lemma_inr_flags(s: Cpu, r: Register)
    requires
        r != Register::F,
    ensures
        f_z(s_inr(s, r).flags) == (inr_res(crate::state::reg_of(s, r)) == 0),
        f_s(s_inr(s, r).flags) == (inr_res(crate::state::reg_of(s, r)) >= 0x80),
        f_p(s_inr(s, r).flags) == parity8(inr_res(crate::state::reg_of(s, r))),
        f_a(s_inr(s, r).flags) == inr_ax(crate::state::reg_of(s, r)),
        f_c(s_inr(s, r).flags) == f_c(s.flags),
{
    let x = crate::state::reg_of(s, r);
    lemma_mk_flags_fields(
        inr_res(x) >= 0x80,
        inr_res(x) == 0,
        inr_ax(x),
        parity8(inr_res(x)),
        f_c(s.flags),
    );
}

/// `DCR` on any byte register: Zero, Sign, Parity and Auxiliary-carry
/// decode from the decremented value, and Carry is left unchanged.
pub proof fn lemma_dcr_flags(s: Cpu, r: Register)
    requires
        r != Register::F,
    ensures
        f_z(s_dcr(s, r).flags) == (dcr_res(crate::state::reg_of(s, r)) == 0),
        f_s(s_dcr(s, r).flags) == (dcr_res(crate::state::reg_of(s, r)) >= 0x80),
        f_p(s_dcr(s, r).flags) == parity8(dcr_res(crate::state::reg_of(s, r))),
        f_a(s_dcr(s, r).flags) == dcr_ax(crate::state::reg_of(s, r)),
        f_c(s_dcr(s, r).flags) == f_c(s.flags),
{
    let x = crate::state::reg_of(s, r);
    lemma_mk_flags_fields(
        dcr_res(x) >= 0x80,
        dcr_res(x) == 0,
        dcr_ax(x),
        parity8(dcr_res(x)),
        f_c(s.flags),
    );
}

/// `DAD rp`: Sign, Zero, Auxiliary-carry and Parity are untouched, and
/// Carry holds exactly when the 16-bit sum overflows.
pub proof fn lemma_dad_flags(s: Cpu, p: RegisterPair)
    ensures
        f_s(s_dad(s, p).flags) == f_s(s.flags),
        f_z(s_dad(s, p).flags) == f_z(s.flags),
        f_a(s_dad(s, p).flags) == f_a(s.flags),
        f_p(s_dad(s, p).flags) == f_p(s.flags),
        f_c(s_dad(s, p).flags) == (pair_of(s, p) as int + pair_of(s, RegisterPair::H) as int
            > 0xFFFF),
{
    lemma_with_carry_fields(
        s.flags,
        pair_of(s, p) as int + pair_of(s, RegisterPair::H) as int > 0xFFFF,
    );
}

/// `DAD SP`: the same flag discipline as `DAD rp`.
pub proof fn lemma_dad_sp_flags(s: Cpu)
    ensures
        f_s(s_dad_sp(s).flags) == f_s(s.flags),
        f_z(s_dad_sp(s).flags) == f_z(s.flags),
        f_a(s_dad_sp(s).flags) == f_a(s.flags),
        f_p(s_dad_sp(s).flags) == f_p(s.flags),
        f_c(s_dad_sp(s).flags) == (s.sp as int + pair_of(s, RegisterPair::H) as int > 0xFFFF),
{
    lemma_with_carry_fields(
        s.flags,
        s.sp as int + pair_of(s, RegisterPair::H) as int > 0xFFFF,
    );
}

/// Over the full 64 KiB address space, a 16-bit store reads back as
/// written, and no other address changes.
pub proof fn lemma_mem_rw16(m: Seq<u8>, a: u16, v: u16)
    requires
        m.len() == 0x10000,
    ensures
        mem_r16(mem_w16(m, a, v), a) == v,
        forall|b: u16|
            b != a && b != w16(a + 1) ==> mem_r(mem_w16(m, a, v), b) == mem_r(m, b),
{
    let a1 = w16(a + 1);
    if a < 0xFFFF {
        assert(a1 == a + 1);
    } else {
        assert(a1 == 0);
    }
    assert(a1 != a);
    let m1 = crate::state::mem_w(m, a, crate::bytes::lo8(v));
    let m2 = mem_w16(m, a, v);
    assert(m1.len() == m.len());
    assert(m2.len() == m.len());
    assert(mem_idx(m, a) == a as int);
    assert(mem_idx(m1, a1) == a1 as int);
    assert(mem_idx(m2, a) == a as int);
    assert(mem_idx(m2, a1) == a1 as int);
    assert(mem_r(m2, a) == crate::bytes::lo8(v));
    assert(mem_r(m2, a1) == crate::bytes::hi8(v));
    lemma_split_join(v);
    assert forall|b: u16|
        b != a && b != a1 implies mem_r(mem_w16(m, a, v), b) == mem_r(m, b) by {
        assert(mem_idx(m, b) == b as int);
        assert(mem_idx(m2, b) == b as int);
    }
}

/// `PUSH rp` then `POP rp` restores the pair, the stack pointer and every
/// register; the memory differs from before only in the two stack bytes
/// below the old stack pointer, which hold the pair, low byte first.
pub proof fn lemma_push_pop_roundtrip(s: Cpu, p: RegisterPair)
    requires
        s.mem.len() == 0x10000,
        flags_ok(s.flags),
    ensures
        s_pop(s_push(s, p), p) == (Cpu { mem: s_push(s, p).mem, ..s }),
        mem_r16(s_push(s, p).mem, w16(s.sp - 2)) == pair_of(s, p),
        forall|b: u16|
            b != w16(s.sp - 2) && b != w16(s.sp - 1) ==> mem_r(s_push(s, p).mem, b) == mem_r(
                s.mem,
                b,
            ),
{
    let sp2 = w16(s.sp - 2);
    let v = pair_of(s, p);
    let t = s_push(s, p);
    lemma_mem_rw16(s.mem, sp2, v);
    assert(w16(sp2 + 1) == w16(s.sp - 1));
    assert(w16(sp2 + 2) == s.sp);
    assert(mem_r16(t.mem, sp2) == v);
    match p {
        RegisterPair::B => {
            lemma_join_split(s.b, s.c);
        },
        RegisterPair::D => {
            lemma_join_split(s.d, s.e);
        },
        RegisterPair::H => {
            lemma_join_split(s.h, s.l);
        },
        RegisterPair::PSW => {
            lemma_join_split(s.a, s.flags);
            lemma_sanitize_identity(s.flags);
        },
    }
    assert(s_pop(t, p) =~= (Cpu { mem: t.mem, ..s }));
}

/// `XTHL` is an involution: applied twice over the full 64 KiB address
/// space it restores the machine exactly.
pub proof fn lemma_xthl_involution(s: Cpu)
    requires
        s.mem.len() == 0x10000,
    ensures
        s_xthl(s_xthl(s)) == s,
{
    let hl = pair_of(s, RegisterPair::H);
    let st = mem_r16(s.mem, s.sp);
    let t = s_xthl(s);
    lemma_mem_rw16(s.mem, s.sp, hl);
    lemma_join_split(s.h, s.l);
    lemma_split_join(st);
    assert(pair_of(t, RegisterPair::H) == st);
    assert(mem_r16(t.mem, s.sp) == hl);
    lemma_split_join(hl);
    let i0 = mem_idx(s.mem, s.sp);
    let i1 = mem_idx(s.mem, w16(s.sp + 1));
    assert(mem_r16(s.mem, s.sp) == join16(s.mem[i1], s.mem[i0]));
    lemma_join_split(s.mem[i1], s.mem[i0]);
    assert(s_xthl(t).mem =~= s.mem);
    assert(s_xthl(t) =~= s);
}

/// `XCHG` is an involution over `(DE, HL)`: applied twice it restores the
/// machine exactly.
pub proof fn lemma_xchg_involution(s: Cpu)
    ensures
        s_xchg(s_xchg(s)) == s,
{
    assert(s_xchg(s_xchg(s)) =~= s);
}

/// The machine after `n` single steps.
pub open spec fn run_steps(s: Cpu, n: nat) -> Cpu
    decreases n,
{
    if n == 0 {
        s
    } else {
        spec_step(run_steps(s, (n - 1) as nat))
    }
}

/// The summed tabulated cost of the next `n` instructions of a run.
pub open spec fn total_cost(s: Cpu, n: nat) -> nat
    decreases n,
{
    if n == 0 {
        0
    } else {
        total_cost(s, (n - 1) as nat) + spec_step_cost(run_steps(s, (n - 1) as nat))
    }
}

/// One step grows the cycle counter by exactly the cost it reports.
pub proof fn lemma_step_cycles(s: Cpu)
    ensures
        spec_step(s).cycles == s.cycles + spec_step_cost(s),
{
}

/// After `n` instructions the cycle counter has grown by exactly the sum
/// of their tabulated costs.
pub proof fn lemma_total_cycles(s: Cpu, n: nat)
    ensures
        run_steps(s, n).cycles == s.cycles + total_cost(s, n),
    decreases n,
{
    if n > 0 {
        lemma_total_cycles(s, (n - 1) as nat);
        lemma_step_cycles(run_steps(s, (n - 1) as nat));
    }
}

} // verus!
