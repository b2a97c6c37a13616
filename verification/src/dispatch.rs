//! Opcode decode and the single-step engine.
//!
//! [`op_apply`] gives the effect of every one of the 256 opcode encodings on
//! the ghost machine, [`op_cost`] its tabulated cycle cost, and
//! [`I8080::step`] executes exactly one instruction: a pending interrupt
//! opcode first, nothing but the cycle charge while halted, else the byte
//! fetched at `PC`. Decode is split into four quadrants of the opcode byte.

use vstd::prelude::*;
use crate::bytes::w16;
use crate::flags::{
    f_c, f_p, f_a, f_z, f_s, flags_ok, mk_flags, with_carry, sanitize_flags,
    lemma_mk_flags_fields, lemma_with_carry_fields,
};
use crate::state::{Cpu, I8080, Register, RegisterPair, Flag, reg_of, pair_of, mem_r};
use crate::transfer::{
    s_lxi, s_lxi_sp, s_pop, s_push, s_shld, s_lhld, s_xthl, s_sphl, s_xchg, s_stax, s_ldax,
    s_mvi, s_mvi_m, s_sta, s_lda, s_mov, s_mov_m, s_mov_from_m,
};
use crate::alu::{
    s_add_v, s_sub_v, s_cmp_v, s_ana_v, s_xra_v, s_ora_v, s_inr, s_inr_m, s_dcr, s_dcr_m,
    s_rlc, s_rrc, s_ral, s_rar, s_stc, s_cmc, s_cma, s_daa, s_inx, s_inx_sp, s_dcx, s_dcx_sp,
    s_dad, s_dad_sp, past_imm, imm_of, cy_in,
};
use crate::control::{s_ret, s_ret_if, s_pchl, s_jmp, s_jmp_if, s_call, s_call_if, s_rst};

verus! {

/// The byte of memory that `HL` points to.
pub open spec fn m_of(s: Cpu) -> u8 {
    mem_r(s.mem, pair_of(s, RegisterPair::H))
}

/// `HLT`: the halt latch is set; `PC` stays on the following byte.
pub open spec fn s_hlt(s: Cpu) -> Cpu {
    Cpu { hlt: true, ..s }
}

/// `EI`: the interrupt-enable latch is set.
pub open spec fn s_ei(s: Cpu) -> Cpu {
    Cpu { inte: true, ..s }
}

/// `DI`: the interrupt-enable latch is cleared.
pub open spec fn s_di(s: Cpu) -> Cpu {
    Cpu { inte: false, ..s }
}

/// `IN port`: `A` is loaded from the input latch of the immediate port.
pub open spec fn s_in(s: Cpu) -> Cpu {
    Cpu { pc: w16(s.pc + 1), a: s.in_ports[mem_r(s.mem, s.pc) as int], ..s }
}

/// `OUT port`: the immediate port and `A` are placed on the output latch
/// for the host to consume.
pub open spec fn s_out(s: Cpu) -> Cpu {
    Cpu { pc: w16(s.pc + 1), out_latch: Some((mem_r(s.mem, s.pc), s.a)), ..s }
}

/// The effect of the opcodes 0x00..=0x3F.
#[verifier::opaque]
pub open spec fn op_apply_lo(s: Cpu, op: u8) -> Cpu {
    match op {
        0x00 | 0x08 | 0x10 | 0x18 | 0x20 | 0x28 | 0x30 | 0x38 => s,
        0x01 => s_lxi(s, RegisterPair::B),
        0x02 => s_stax(s, RegisterPair::B),
        0x03 => s_inx(s, RegisterPair::B),
        0x04 => s_inr(s, Register::B),
        0x05 => s_dcr(s, Register::B),
        0x06 => s_mvi(s, Register::B),
        0x07 => s_rlc(s),
        0x09 => s_dad(s, RegisterPair::B),
        0x0A => s_ldax(s, RegisterPair::B),
        0x0B => s_dcx(s, RegisterPair::B),
        0x0C => s_inr(s, Register::C),
        0x0D => s_dcr(s, Register::C),
        0x0E => s_mvi(s, Register::C),
        0x0F => s_rrc(s),
        0x11 => s_lxi(s, RegisterPair::D),
        0x12 => s_stax(s, RegisterPair::D),
        0x13 => s_inx(s, RegisterPair::D),
        0x14 => s_inr(s, Register::D),
        0x15 => s_dcr(s, Register::D),
        0x16 => s_mvi(s, Register::D),
        0x17 => s_ral(s),
        0x19 => s_dad(s, RegisterPair::D),
        0x1A => s_ldax(s, RegisterPair::D),
        0x1B => s_dcx(s, RegisterPair::D),
        0x1C => s_inr(s, Register::E),
        0x1D => s_dcr(s, Register::E),
        0x1E => s_mvi(s, Register::E),
        0x1F => s_rar(s),
        0x21 => s_lxi(s, RegisterPair::H),
        0x22 => s_shld(s),
        0x23 => s_inx(s, RegisterPair::H),
        0x24 => s_inr(s, Register::H),
        0x25 => s_dcr(s, Register::H),
        0x26 => s_mvi(s, Register::H),
        0x27 => s_daa(s),
        0x29 => s_dad(s, RegisterPair::H),
        0x2A => s_lhld(s),
        0x2B => s_dcx(s, RegisterPair::H),
        0x2C => s_inr(s, Register::L),
        0x2D => s_dcr(s, Register::L),
        0x2E => s_mvi(s, Register::L),
        0x2F => s_cma(s),
        0x31 => s_lxi_sp(s),
        0x32 => s_sta(s),
        0x33 => s_inx_sp(s),
        0x34 => s_inr_m(s),
        0x35 => s_dcr_m(s),
        0x36 => s_mvi_m(s),
        0x37 => s_stc(s),
        0x39 => s_dad_sp(s),
        0x3A => s_lda(s),
        0x3B => s_dcx_sp(s),
        0x3C => s_inr(s, Register::A),
        0x3D => s_dcr(s, Register::A),
        0x3E => s_mvi(s, Register::A),
        0x3F => s_cmc(s),
        _ => s,
    }
}

/// The tabulated cycle cost of the opcodes 0x00..=0x3F.
#[verifier::opaque]
pub open spec fn op_cost_lo(s: Cpu, op: u8) -> nat {
    match op {
        0x00 | 0x07 | 0x08 | 0x0F | 0x10 | 0x17 | 0x18 | 0x1F | 0x20 | 0x27 | 0x28 | 0x2F | 0x30 | 0x37 | 0x38 | 0x3F => 4,
        0x01 | 0x09 | 0x11 | 0x19 | 0x21 | 0x29 | 0x31 | 0x34 | 0x35 | 0x36 | 0x39 => 10,
        0x02 | 0x06 | 0x0A | 0x0E | 0x12 | 0x16 | 0x1A | 0x1E | 0x26 | 0x2E | 0x3E => 7,
        0x03 | 0x04 | 0x05 | 0x0B | 0x0C | 0x0D | 0x13 | 0x14 | 0x15 | 0x1B | 0x1C | 0x1D | 0x23 | 0x24 | 0x25 | 0x2B | 0x2C | 0x2D | 0x33 | 0x3B | 0x3C | 0x3D => 5,
        0x22 | 0x2A => 16,
        0x32 | 0x3A => 13,
        _ => 4,
    }
}

/// The effect of the opcodes 0x40..=0x7F.
#[verifier::opaque]
pub open spec fn op_apply_mov(s: Cpu, op: u8) -> Cpu {
    match op {
        0x40 => s_mov(s, Register::B, Register::B),
        0x41 => s_mov(s, Register::B, Register::C),
        0x42 => s_mov(s, Register::B, Register::D),
        0x43 => s_mov(s, Register::B, Register::E),
        0x44 => s_mov(s, Register::B, Register::H),
        0x45 => s_mov(s, Register::B, Register::L),
        0x46 => s_mov_from_m(s, Register::B),
        0x47 => s_mov(s, Register::B, Register::A),
        0x48 => s_mov(s, Register::C, Register::B),
        0x49 => s_mov(s, Register::C, Register::C),
        0x4A => s_mov(s, Register::C, Register::D),
        0x4B => s_mov(s, Register::C, Register::E),
        0x4C => s_mov(s, Register::C, Register::H),
        0x4D => s_mov(s, Register::C, Register::L),
        0x4E => s_mov_from_m(s, Register::C),
        0x4F => s_mov(s, Register::C, Register::A),
        0x50 => s_mov(s, Register::D, Register::B),
        0x51 => s_mov(s, Register::D, Register::C),
        0x52 => s_mov(s, Register::D, Register::D),
        0x53 => s_mov(s, Register::D, Register::E),
        0x54 => s_mov(s, Register::D, Register::H),
        0x55 => s_mov(s, Register::D, Register::L),
        0x56 => s_mov_from_m(s, Register::D),
        0x57 => s_mov(s, Register::D, Register::A),
        0x58 => s_mov(s, Register::E, Register::B),
        0x59 => s_mov(s, Register::E, Register::C),
        0x5A => s_mov(s, Register::E, Register::D),
        0x5B => s_mov(s, Register::E, Register::E),
        0x5C => s_mov(s, Register::E, Register::H),
        0x5D => s_mov(s, Register::E, Register::L),
        0x5E => s_mov_from_m(s, Register::E),
        0x5F => s_mov(s, Register::E, Register::A),
        0x60 => s_mov(s, Register::H, Register::B),
        0x61 => s_mov(s, Register::H, Register::C),
        0x62 => s_mov(s, Register::H, Register::D),
        0x63 => s_mov(s, Register::H, Register::E),
        0x64 => s_mov(s, Register::H, Register::H),
        0x65 => s_mov(s, Register::H, Register::L),
        0x66 => s_mov_from_m(s, Register::H),
        0x67 => s_mov(s, Register::H, Register::A),
        0x68 => s_mov(s, Register::L, Register::B),
        0x69 => s_mov(s, Register::L, Register::C),
        0x6A => s_mov(s, Register::L, Register::D),
        0x6B => s_mov(s, Register::L, Register::E),
        0x6C => s_mov(s, Register::L, Register::H),
        0x6D => s_mov(s, Register::L, Register::L),
        0x6E => s_mov_from_m(s, Register::L),
        0x6F => s_mov(s, Register::L, Register::A),
        0x70 => s_mov_m(s, Register::B),
        0x71 => s_mov_m(s, Register::C),
        0x72 => s_mov_m(s, Register::D),
        0x73 => s_mov_m(s, Register::E),
        0x74 => s_mov_m(s, Register::H),
        0x75 => s_mov_m(s, Register::L),
        0x76 => s_hlt(s),
        0x77 => s_mov_m(s, Register::A),
        0x78 => s_mov(s, Register::A, Register::B),
        0x79 => s_mov(s, Register::A, Register::C),
        0x7A => s_mov(s, Register::A, Register::D),
        0x7B => s_mov(s, Register::A, Register::E),
        0x7C => s_mov(s, Register::A, Register::H),
        0x7D => s_mov(s, Register::A, Register::L),
        0x7E => s_mov_from_m(s, Register::A),
        0x7F => s_mov(s, Register::A, Register::A),
        _ => s,
    }
}

/// The tabulated cycle cost of the opcodes 0x40..=0x7F.
#[verifier::opaque]
pub open spec fn op_cost_mov(s: Cpu, op: u8) -> nat {
    match op {
        0x46 | 0x4E | 0x56 | 0x5E | 0x66 | 0x6E | 0x70 | 0x71 | 0x72 | 0x73 | 0x74 | 0x75 | 0x76 | 0x77 | 0x7E => 7,
        0x40 | 0x41 | 0x42 | 0x43 | 0x44 | 0x45 | 0x47 | 0x48 | 0x49 | 0x4A | 0x4B | 0x4C | 0x4D | 0x4F | 0x50 | 0x51 | 0x52 | 0x53 | 0x54 | 0x55 | 0x57 | 0x58 | 0x59 | 0x5A | 0x5B | 0x5C | 0x5D | 0x5F | 0x60 | 0x61 | 0x62 | 0x63 | 0x64 | 0x65 | 0x67 | 0x68 | 0x69 | 0x6A | 0x6B | 0x6C | 0x6D | 0x6F | 0x78 | 0x79 | 0x7A | 0x7B | 0x7C | 0x7D | 0x7F => 5,
        _ => 4,
    }
}

/// The effect of the opcodes 0x80..=0xBF.
#[verifier::opaque]
pub open spec fn op_apply_acc(s: Cpu, op: u8) -> Cpu {
    match op {
        0x80 => s_add_v(s, reg_of(s, Register::B), 0),
        0x81 => s_add_v(s, reg_of(s, Register::C), 0),
        0x82 => s_add_v(s, reg_of(s, Register::D), 0),
        0x83 => s_add_v(s, reg_of(s, Register::E), 0),
        0x84 => s_add_v(s, reg_of(s, Register::H), 0),
        0x85 => s_add_v(s, reg_of(s, Register::L), 0),
        0x86 => s_add_v(s, m_of(s), 0),
        0x87 => s_add_v(s, reg_of(s, Register::A), 0),
        0x88 => s_add_v(s, reg_of(s, Register::B), cy_in(s)),
        0x89 => s_add_v(s, reg_of(s, Register::C), cy_in(s)),
        0x8A => s_add_v(s, reg_of(s, Register::D), cy_in(s)),
        0x8B => s_add_v(s, reg_of(s, Register::E), cy_in(s)),
        0x8C => s_add_v(s, reg_of(s, Register::H), cy_in(s)),
        0x8D => s_add_v(s, reg_of(s, Register::L), cy_in(s)),
        0x8E => s_add_v(s, m_of(s), cy_in(s)),
        0x8F => s_add_v(s, reg_of(s, Register::A), cy_in(s)),
        0x90 => s_sub_v(s, reg_of(s, Register::B), 0),
        0x91 => s_sub_v(s, reg_of(s, Register::C), 0),
        0x92 => s_sub_v(s, reg_of(s, Register::D), 0),
        0x93 => s_sub_v(s, reg_of(s, Register::E), 0),
        0x94 => s_sub_v(s, reg_of(s, Register::H), 0),
        0x95 => s_sub_v(s, reg_of(s, Register::L), 0),
        0x96 => s_sub_v(s, m_of(s), 0),
        0x97 => s_sub_v(s, reg_of(s, Register::A), 0),
        0x98 => s_sub_v(s, reg_of(s, Register::B), cy_in(s)),
        0x99 => s_sub_v(s, reg_of(s, Register::C), cy_in(s)),
        0x9A => s_sub_v(s, reg_of(s, Register::D), cy_in(s)),
        0x9B => s_sub_v(s, reg_of(s, Register::E), cy_in(s)),
        0x9C => s_sub_v(s, reg_of(s, Register::H), cy_in(s)),
        0x9D => s_sub_v(s, reg_of(s, Register::L), cy_in(s)),
        0x9E => s_sub_v(s, m_of(s), cy_in(s)),
        0x9F => s_sub_v(s, reg_of(s, Register::A), cy_in(s)),
        0xA0 => s_ana_v(s, reg_of(s, Register::B)),
        0xA1 => s_ana_v(s, reg_of(s, Register::C)),
        0xA2 => s_ana_v(s, reg_of(s, Register::D)),
        0xA3 => s_ana_v(s, reg_of(s, Register::E)),
        0xA4 => s_ana_v(s, reg_of(s, Register::H)),
        0xA5 => s_ana_v(s, reg_of(s, Register::L)),
        0xA6 => s_ana_v(s, m_of(s)),
        0xA7 => s_ana_v(s, reg_of(s, Register::A)),
        0xA8 => s_xra_v(s, reg_of(s, Register::B)),
        0xA9 => s_xra_v(s, reg_of(s, Register::C)),
        0xAA => s_xra_v(s, reg_of(s, Register::D)),
        0xAB => s_xra_v(s, reg_of(s, Register::E)),
        0xAC => s_xra_v(s, reg_of(s, Register::H)),
        0xAD => s_xra_v(s, reg_of(s, Register::L)),
        0xAE => s_xra_v(s, m_of(s)),
        0xAF => s_xra_v(s, reg_of(s, Register::A)),
        0xB0 => s_ora_v(s, reg_of(s, Register::B)),
        0xB1 => s_ora_v(s, reg_of(s, Register::C)),
        0xB2 => s_ora_v(s, reg_of(s, Register::D)),
        0xB3 => s_ora_v(s, reg_of(s, Register::E)),
        0xB4 => s_ora_v(s, reg_of(s, Register::H)),
        0xB5 => s_ora_v(s, reg_of(s, Register::L)),
        0xB6 => s_ora_v(s, m_of(s)),
        0xB7 => s_ora_v(s, reg_of(s, Register::A)),
        0xB8 => s_cmp_v(s, reg_of(s, Register::B)),
        0xB9 => s_cmp_v(s, reg_of(s, Register::C)),
        0xBA => s_cmp_v(s, reg_of(s, Register::D)),
        0xBB => s_cmp_v(s, reg_of(s, Register::E)),
        0xBC => s_cmp_v(s, reg_of(s, Register::H)),
        0xBD => s_cmp_v(s, reg_of(s, Register::L)),
        0xBE => s_cmp_v(s, m_of(s)),
        0xBF => s_cmp_v(s, reg_of(s, Register::A)),
        _ => s,
    }
}

/// The tabulated cycle cost of the opcodes 0x80..=0xBF.
#[verifier::opaque]
pub open spec fn op_cost_acc(s: Cpu, op: u8) -> nat {
    match op {
        0x80 | 0x81 | 0x82 | 0x83 | 0x84 | 0x85 | 0x87 | 0x88 | 0x89 | 0x8A | 0x8B | 0x8C | 0x8D | 0x8F | 0x90 | 0x91 | 0x92 | 0x93 | 0x94 | 0x95 | 0x97 | 0x98 | 0x99 | 0x9A | 0x9B | 0x9C | 0x9D | 0x9F | 0xA0 | 0xA1 | 0xA2 | 0xA3 | 0xA4 | 0xA5 | 0xA7 | 0xA8 | 0xA9 | 0xAA | 0xAB | 0xAC | 0xAD | 0xAF | 0xB0 | 0xB1 | 0xB2 | 0xB3 | 0xB4 | 0xB5 | 0xB7 | 0xB8 | 0xB9 | 0xBA | 0xBB | 0xBC | 0xBD | 0xBF => 4,
        0x86 | 0x8E | 0x96 | 0x9E | 0xA6 | 0xAE | 0xB6 | 0xBE => 7,
        _ => 4,
    }
}

/// The effect of the opcodes 0xC0..=0xFF.
#[verifier::opaque]
pub open spec fn op_apply_hi(s: Cpu, op: u8) -> Cpu {
    match op {
        0xC0 => s_ret_if(s, !f_z(s.flags)),
        0xC1 => s_pop(s, RegisterPair::B),
        0xC2 => s_jmp_if(s, !f_z(s.flags)),
        0xC3 | 0xCB => s_jmp(s),
        0xC4 => s_call_if(s, !f_z(s.flags)),
        0xC5 => s_push(s, RegisterPair::B),
        0xC6 => s_add_v(past_imm(s), imm_of(s), 0),
        0xC7 => s_rst(s, 0),
        0xC8 => s_ret_if(s, f_z(s.flags)),
        0xC9 | 0xD9 => s_ret(s),
        0xCA => s_jmp_if(s, f_z(s.flags)),
        0xCC => s_call_if(s, f_z(s.flags)),
        0xCD | 0xDD | 0xED | 0xFD => s_call(s),
        0xCE => s_add_v(past_imm(s), imm_of(s), cy_in(s)),
        0xCF => s_rst(s, 1),
        0xD0 => s_ret_if(s, !f_c(s.flags)),
        0xD1 => s_pop(s, RegisterPair::D),
        0xD2 => s_jmp_if(s, !f_c(s.flags)),
        0xD3 => s_out(s),
        0xD4 => s_call_if(s, !f_c(s.flags)),
        0xD5 => s_push(s, RegisterPair::D),
        0xD6 => s_sub_v(past_imm(s), imm_of(s), 0),
        0xD7 => s_rst(s, 2),
        0xD8 => s_ret_if(s, f_c(s.flags)),
        0xDA => s_jmp_if(s, f_c(s.flags)),
        0xDB => s_in(s),
        0xDC => s_call_if(s, f_c(s.flags)),
        0xDE => s_sub_v(past_imm(s), imm_of(s), cy_in(s)),
        0xDF => s_rst(s, 3),
        0xE0 => s_ret_if(s, !f_p(s.flags)),
        0xE1 => s_pop(s, RegisterPair::H),
        0xE2 => s_jmp_if(s, !f_p(s.flags)),
        0xE3 => s_xthl(s),
        0xE4 => s_call_if(s, !f_p(s.flags)),
        0xE5 => s_push(s, RegisterPair::H),
        0xE6 => s_ana_v(past_imm(s), imm_of(s)),
        0xE7 => s_rst(s, 4),
        0xE8 => s_ret_if(s, f_p(s.flags)),
        0xE9 => s_pchl(s),
        0xEA => s_jmp_if(s, f_p(s.flags)),
        0xEB => s_xchg(s),
        0xEC => s_call_if(s, f_p(s.flags)),
        0xEE => s_xra_v(past_imm(s), imm_of(s)),
        0xEF => s_rst(s, 5),
        0xF0 => s_ret_if(s, !f_s(s.flags)),
        0xF1 => s_pop(s, RegisterPair::PSW),
        0xF2 => s_jmp_if(s, !f_s(s.flags)),
        0xF3 => s_di(s),
        0xF4 => s_call_if(s, !f_s(s.flags)),
        0xF5 => s_push(s, RegisterPair::PSW),
        0xF6 => s_ora_v(past_imm(s), imm_of(s)),
        0xF7 => s_rst(s, 6),
        0xF8 => s_ret_if(s, f_s(s.flags)),
        0xF9 => s_sphl(s),
        0xFA => s_jmp_if(s, f_s(s.flags)),
        0xFB => s_ei(s),
        0xFC => s_call_if(s, f_s(s.flags)),
        0xFE => s_cmp_v(past_imm(s), imm_of(s)),
        0xFF => s_rst(s, 7),
        _ => s,
    }
}

/// The tabulated cycle cost of the opcodes 0xC0..=0xFF.
#[verifier::opaque]
pub open spec fn op_cost_hi(s: Cpu, op: u8) -> nat {
    match op {
        0xEB | 0xF3 | 0xFB => 4,
        0xC1 | 0xC2 | 0xC3 | 0xC9 | 0xCA | 0xCB | 0xD1 | 0xD2 | 0xD3 | 0xD9 | 0xDA | 0xDB | 0xE1 | 0xE2 | 0xEA | 0xF1 | 0xF2 | 0xFA => 10,
        0xC6 | 0xCE | 0xD6 | 0xDE | 0xE6 | 0xEE | 0xF6 | 0xFE => 7,
        0xE9 | 0xF9 => 5,
        0xC0 => if !f_z(s.flags) {
                11
            } else {
                5
            },
        0xC4 => if !f_z(s.flags) {
                17
            } else {
                11
            },
        0xC5 | 0xC7 | 0xCF | 0xD5 | 0xD7 | 0xDF | 0xE5 | 0xE7 | 0xEF | 0xF5 | 0xF7 | 0xFF => 11,
        0xC8 => if f_z(s.flags) {
                11
            } else {
                5
            },
        0xCC => if f_z(s.flags) {
                17
            } else {
                11
            },
        0xCD | 0xDD | 0xED | 0xFD => 17,
        0xD0 => if !f_c(s.flags) {
                11
            } else {
                5
            },
        0xD4 => if !f_c(s.flags) {
                17
            } else {
                11
            },
        0xD8 => if f_c(s.flags) {
                11
            } else {
                5
            },
        0xDC => if f_c(s.flags) {
                17
            } else {
                11
            },
        0xE0 => if !f_p(s.flags) {
                11
            } else {
                5
            },
        0xE3 => 18,
        0xE4 => if !f_p(s.flags) {
                17
            } else {
                11
            },
        0xE8 => if f_p(s.flags) {
                11
            } else {
                5
            },
        0xEC => if f_p(s.flags) {
                17
            } else {
                11
            },
        0xF0 => if !f_s(s.flags) {
                11
            } else {
                5
            },
        0xF4 => if !f_s(s.flags) {
                17
            } else {
                11
            },
        0xF8 => if f_s(s.flags) {
                11
            } else {
                5
            },
        0xFC => if f_s(s.flags) {
                17
            } else {
                11
            },
        _ => 4,
    }
}

/// The effect of one opcode on the machine, the opcode byte already
/// consumed. Covers all 256 encodings, the published duplicates included.
pub open spec fn op_apply(s: Cpu, op: u8) -> Cpu {
    if op < 0x40 {
        op_apply_lo(s, op)
    } else if op < 0x80 {
        op_apply_mov(s, op)
    } else if op < 0xC0 {
        op_apply_acc(s, op)
    } else {
        op_apply_hi(s, op)
    }
}

/// The tabulated cycle cost of one opcode: an untaken conditional return
/// costs 5 against 11 taken, an untaken conditional call 11 against 17;
/// every other encoding has a fixed cost.
pub open spec fn op_cost(s: Cpu, op: u8) -> nat {
    if op < 0x40 {
        op_cost_lo(s, op)
    } else if op < 0x80 {
        op_cost_mov(s, op)
    } else if op < 0xC0 {
        op_cost_acc(s, op)
    } else {
        op_cost_hi(s, op)
    }
}

/// What one step of the machine does: a pending interrupt opcode is
/// executed first (its slot and the output latch cleared); while halted the
/// machine only charges the idle cost of 4 cycles; otherwise the byte at
/// `PC` is fetched and executed. The cycle counter always grows by exactly
/// [`spec_step_cost`].
pub open spec fn spec_step(s: Cpu) -> Cpu {
    match s.pending {
        Option::Some(op) => {
            let u = Cpu { pending: None, out_latch: None, ..s };
            Cpu { cycles: s.cycles + op_cost(u, op), ..op_apply(u, op) }
        },
        Option::None => {
            if s.hlt {
                Cpu { cycles: s.cycles + 4, out_latch: None, ..s }
            } else {
                let u = Cpu { pc: w16(s.pc + 1), out_latch: None, ..s };
                let op = mem_r(s.mem, s.pc);
                Cpu { cycles: s.cycles + op_cost(u, op), ..op_apply(u, op) }
            }
        },
    }
}

/// The cycles one step consumes: the cost of the instruction it executes,
/// or 4 while halted.
pub open spec fn spec_step_cost(s: Cpu) -> nat {
    match s.pending {
        Option::Some(op) => op_cost(Cpu { pending: None, out_latch: None, ..s }, op),
        Option::None => if s.hlt {
            4
        } else {
            op_cost(
                Cpu { pc: w16(s.pc + 1), out_latch: None, ..s },
                mem_r(s.mem, s.pc),
            )
        },
    }
}

/// An interrupt request: if interrupts are enabled, the latch and the halt
/// latch are cleared and the opcode is left for the next step to execute;
/// otherwise nothing happens.
pub open spec fn s_interrupt(s: Cpu, op: u8) -> Cpu {
    if s.inte {
        Cpu { inte: false, hlt: false, pending: Some(op), ..s }
    } else {
        s
    }
}

impl I8080 {
    /// `IN port`.
    pub fn port_in(&mut self)
        requires
            old(self).wf(),
        ensures
            final(self)@ == s_in(old(self)@),
            final(self).wf(),
    {
        let port = self.next_u8();
        self.a = self.in_ports[port as usize];
    }

    /// `OUT port`.
    pub fn port_out(&mut self)
        requires
            old(self).wf(),
        ensures
            final(self)@ == s_out(old(self)@),
            final(self).wf(),
    {
        let port = self.next_u8();
        self.out_latch = Some((port, self.a));
    }

    /// Executes one opcode of the range 0x00..=0x3F.
    #[verifier::rlimit(100)]
    fn exec_lo(&mut self, op: u8) -> (r: u8)
        requires
            old(self).wf(),
            0x00 <= op <= 0x3F,
        ensures
            final(self)@ == op_apply_lo(old(self)@, op),
            final(self)@.cycles == old(self)@.cycles,
            r as nat == op_cost_lo(old(self)@, op),
            r <= 18,
            final(self).wf(),
            flags_ok(old(self)@.flags) ==> flags_ok(final(self)@.flags),
    {
        proof {
            reveal(op_apply_lo);
            reveal(op_cost_lo);
            assert forall|sb: bool, zb: bool, ab: bool, pb: bool, cb: bool|
                flags_ok(#[trigger] mk_flags(sb, zb, ab, pb, cb)) by {
                lemma_mk_flags_fields(sb, zb, ab, pb, cb);
            }
            assert forall|f: u8, cb: bool| flags_ok(f) implies flags_ok(
                #[trigger] with_carry(f, cb),
            ) by {
                lemma_with_carry_fields(f, cb);
            }
            assert forall|v: u8| flags_ok(#[trigger] sanitize_flags(v)) by {
                lemma_mk_flags_fields(f_s(v), f_z(v), f_a(v), f_p(v), f_c(v));
            }
        }
        match op {
            0x00 | 0x08 | 0x10 | 0x18 | 0x20 | 0x28 | 0x30 | 0x38 => 4,
            0x01 => {
                self.lxi(RegisterPair::B);
                10
            },
            0x02 => {
                self.stax(RegisterPair::B);
                7
            },
            0x03 => {
                self.inx(RegisterPair::B);
                5
            },
            0x04 => {
                self.inr(Register::B);
                5
            },
            0x05 => {
                self.dcr(Register::B);
                5
            },
            0x06 => {
                self.mvi(Register::B);
                7
            },
            0x07 => {
                self.rlc();
                4
            },
            0x09 => {
                self.dad(RegisterPair::B);
                10
            },
            0x0A => {
                self.ldax(RegisterPair::B);
                7
            },
            0x0B => {
                self.dcx(RegisterPair::B);
                5
            },
            0x0C => {
                self.inr(Register::C);
                5
            },
            0x0D => {
                self.dcr(Register::C);
                5
            },
            0x0E => {
                self.mvi(Register::C);
                7
            },
            0x0F => {
                self.rrc();
                4
            },
            0x11 => {
                self.lxi(RegisterPair::D);
                10
            },
            0x12 => {
                self.stax(RegisterPair::D);
                7
            },
            0x13 => {
                self.inx(RegisterPair::D);
                5
            },
            0x14 => {
                self.inr(Register::D);
                5
            },
            0x15 => {
                self.dcr(Register::D);
                5
            },
            0x16 => {
                self.mvi(Register::D);
                7
            },
            0x17 => {
                self.ral();
                4
            },
            0x19 => {
                self.dad(RegisterPair::D);
                10
            },
            0x1A => {
                self.ldax(RegisterPair::D);
                7
            },
            0x1B => {
                self.dcx(RegisterPair::D);
                5
            },
            0x1C => {
                self.inr(Register::E);
                5
            },
            0x1D => {
                self.dcr(Register::E);
                5
            },
            0x1E => {
                self.mvi(Register::E);
                7
            },
            0x1F => {
                self.rar();
                4
            },
            0x21 => {
                self.lxi(RegisterPair::H);
                10
            },
            0x22 => {
                self.shld();
                16
            },
            0x23 => {
                self.inx(RegisterPair::H);
                5
            },
            0x24 => {
                self.inr(Register::H);
                5
            },
            0x25 => {
                self.dcr(Register::H);
                5
            },
            0x26 => {
                self.mvi(Register::H);
                7
            },
            0x27 => {
                self.daa();
                4
            },
            0x29 => {
                self.dad(RegisterPair::H);
                10
            },
            0x2A => {
                self.lhld();
                16
            },
            0x2B => {
                self.dcx(RegisterPair::H);
                5
            },
            0x2C => {
                self.inr(Register::L);
                5
            },
            0x2D => {
                self.dcr(Register::L);
                5
            },
            0x2E => {
                self.mvi(Register::L);
                7
            },
            0x2F => {
                self.cma();
                4
            },
            0x31 => {
                self.lxi_sp();
                10
            },
            0x32 => {
                self.sta();
                13
            },
            0x33 => {
                self.inx_sp();
                5
            },
            0x34 => {
                self.inr_m();
                10
            },
            0x35 => {
                self.dcr_m();
                10
            },
            0x36 => {
                self.mvi_m();
                10
            },
            0x37 => {
                self.stc();
                4
            },
            0x39 => {
                self.dad_sp();
                10
            },
            0x3A => {
                self.lda();
                13
            },
            0x3B => {
                self.dcx_sp();
                5
            },
            0x3C => {
                self.inr(Register::A);
                5
            },
            0x3D => {
                self.dcr(Register::A);
                5
            },
            0x3E => {
                self.mvi(Register::A);
                7
            },
            0x3F => {
                self.cmc();
                4
            },
            _ => 0,
        }
    }

    /// Executes one opcode of the range 0x40..=0x7F.
    #[verifier::rlimit(100)]
    fn exec_mov(&mut self, op: u8) -> (r: u8)
        requires
            old(self).wf(),
            0x40 <= op <= 0x7F,
        ensures
            final(self)@ == op_apply_mov(old(self)@, op),
            final(self)@.cycles == old(self)@.cycles,
            r as nat == op_cost_mov(old(self)@, op),
            r <= 18,
            final(self).wf(),
            flags_ok(old(self)@.flags) ==> flags_ok(final(self)@.flags),
    {
        proof {
            reveal(op_apply_mov);
            reveal(op_cost_mov);
            assert forall|sb: bool, zb: bool, ab: bool, pb: bool, cb: bool|
                flags_ok(#[trigger] mk_flags(sb, zb, ab, pb, cb)) by {
                lemma_mk_flags_fields(sb, zb, ab, pb, cb);
            }
            assert forall|f: u8, cb: bool| flags_ok(f) implies flags_ok(
                #[trigger] with_carry(f, cb),
            ) by {
                lemma_with_carry_fields(f, cb);
            }
            assert forall|v: u8| flags_ok(#[trigger] sanitize_flags(v)) by {
                lemma_mk_flags_fields(f_s(v), f_z(v), f_a(v), f_p(v), f_c(v));
            }
        }
        match op {
            0x40 => {
                self.mov(Register::B, Register::B);
                5
            },
            0x41 => {
                self.mov(Register::B, Register::C);
                5
            },
            0x42 => {
                self.mov(Register::B, Register::D);
                5
            },
            0x43 => {
                self.mov(Register::B, Register::E);
                5
            },
            0x44 => {
                self.mov(Register::B, Register::H);
                5
            },
            0x45 => {
                self.mov(Register::B, Register::L);
                5
            },
            0x46 => {
                self.mov_from_m(Register::B);
                7
            },
            0x47 => {
                self.mov(Register::B, Register::A);
                5
            },
            0x48 => {
                self.mov(Register::C, Register::B);
                5
            },
            0x49 => {
                self.mov(Register::C, Register::C);
                5
            },
            0x4A => {
                self.mov(Register::C, Register::D);
                5
            },
            0x4B => {
                self.mov(Register::C, Register::E);
                5
            },
            0x4C => {
                self.mov(Register::C, Register::H);
                5
            },
            0x4D => {
                self.mov(Register::C, Register::L);
                5
            },
            0x4E => {
                self.mov_from_m(Register::C);
                7
            },
            0x4F => {
                self.mov(Register::C, Register::A);
                5
            },
            0x50 => {
                self.mov(Register::D, Register::B);
                5
            },
            0x51 => {
                self.mov(Register::D, Register::C);
                5
            },
            0x52 => {
                self.mov(Register::D, Register::D);
                5
            },
            0x53 => {
                self.mov(Register::D, Register::E);
                5
            },
            0x54 => {
                self.mov(Register::D, Register::H);
                5
            },
            0x55 => {
                self.mov(Register::D, Register::L);
                5
            },
            0x56 => {
                self.mov_from_m(Register::D);
                7
            },
            0x57 => {
                self.mov(Register::D, Register::A);
                5
            },
            0x58 => {
                self.mov(Register::E, Register::B);
                5
            },
            0x59 => {
                self.mov(Register::E, Register::C);
                5
            },
            0x5A => {
                self.mov(Register::E, Register::D);
                5
            },
            0x5B => {
                self.mov(Register::E, Register::E);
                5
            },
            0x5C => {
                self.mov(Register::E, Register::H);
                5
            },
            0x5D => {
                self.mov(Register::E, Register::L);
                5
            },
            0x5E => {
                self.mov_from_m(Register::E);
                7
            },
            0x5F => {
                self.mov(Register::E, Register::A);
                5
            },
            0x60 => {
                self.mov(Register::H, Register::B);
                5
            },
            0x61 => {
                self.mov(Register::H, Register::C);
                5
            },
            0x62 => {
                self.mov(Register::H, Register::D);
                5
            },
            0x63 => {
                self.mov(Register::H, Register::E);
                5
            },
            0x64 => {
                self.mov(Register::H, Register::H);
                5
            },
            0x65 => {
                self.mov(Register::H, Register::L);
                5
            },
            0x66 => {
                self.mov_from_m(Register::H);
                7
            },
            0x67 => {
                self.mov(Register::H, Register::A);
                5
            },
            0x68 => {
                self.mov(Register::L, Register::B);
                5
            },
            0x69 => {
                self.mov(Register::L, Register::C);
                5
            },
            0x6A => {
                self.mov(Register::L, Register::D);
                5
            },
            0x6B => {
                self.mov(Register::L, Register::E);
                5
            },
            0x6C => {
                self.mov(Register::L, Register::H);
                5
            },
            0x6D => {
                self.mov(Register::L, Register::L);
                5
            },
            0x6E => {
                self.mov_from_m(Register::L);
                7
            },
            0x6F => {
                self.mov(Register::L, Register::A);
                5
            },
            0x70 => {
                self.mov_m(Register::B);
                7
            },
            0x71 => {
                self.mov_m(Register::C);
                7
            },
            0x72 => {
                self.mov_m(Register::D);
                7
            },
            0x73 => {
                self.mov_m(Register::E);
                7
            },
            0x74 => {
                self.mov_m(Register::H);
                7
            },
            0x75 => {
                self.mov_m(Register::L);
                7
            },
            0x76 => {
                self.hlt = true;
                7
            },
            0x77 => {
                self.mov_m(Register::A);
                7
            },
            0x78 => {
                self.mov(Register::A, Register::B);
                5
            },
            0x79 => {
                self.mov(Register::A, Register::C);
                5
            },
            0x7A => {
                self.mov(Register::A, Register::D);
                5
            },
            0x7B => {
                self.mov(Register::A, Register::E);
                5
            },
            0x7C => {
                self.mov(Register::A, Register::H);
                5
            },
            0x7D => {
                self.mov(Register::A, Register::L);
                5
            },
            0x7E => {
                self.mov_from_m(Register::A);
                7
            },
            0x7F => {
                self.mov(Register::A, Register::A);
                5
            },
            _ => 0,
        }
    }

    /// Executes one opcode of the range 0x80..=0xBF.
    #[verifier::rlimit(100)]
    fn exec_acc(&mut self, op: u8) -> (r: u8)
        requires
            old(self).wf(),
            0x80 <= op <= 0xBF,
        ensures
            final(self)@ == op_apply_acc(old(self)@, op),
            final(self)@.cycles == old(self)@.cycles,
            r as nat == op_cost_acc(old(self)@, op),
            r <= 18,
            final(self).wf(),
            flags_ok(old(self)@.flags) ==> flags_ok(final(self)@.flags),
    {
        proof {
            reveal(op_apply_acc);
            reveal(op_cost_acc);
            assert forall|sb: bool, zb: bool, ab: bool, pb: bool, cb: bool|
                flags_ok(#[trigger] mk_flags(sb, zb, ab, pb, cb)) by {
                lemma_mk_flags_fields(sb, zb, ab, pb, cb);
            }
            assert forall|f: u8, cb: bool| flags_ok(f) implies flags_ok(
                #[trigger] with_carry(f, cb),
            ) by {
                lemma_with_carry_fields(f, cb);
            }
            assert forall|v: u8| flags_ok(#[trigger] sanitize_flags(v)) by {
                lemma_mk_flags_fields(f_s(v), f_z(v), f_a(v), f_p(v), f_c(v));
            }
        }
        match op {
            0x80 => {
                self.add(Register::B);
                4
            },
            0x81 => {
                self.add(Register::C);
                4
            },
            0x82 => {
                self.add(Register::D);
                4
            },
            0x83 => {
                self.add(Register::E);
                4
            },
            0x84 => {
                self.add(Register::H);
                4
            },
            0x85 => {
                self.add(Register::L);
                4
            },
            0x86 => {
                self.add_m();
                7
            },
            0x87 => {
                self.add(Register::A);
                4
            },
            0x88 => {
                self.adc(Register::B);
                4
            },
            0x89 => {
                self.adc(Register::C);
                4
            },
            0x8A => {
                self.adc(Register::D);
                4
            },
            0x8B => {
                self.adc(Register::E);
                4
            },
            0x8C => {
                self.adc(Register::H);
                4
            },
            0x8D => {
                self.adc(Register::L);
                4
            },
            0x8E => {
                self.adc_m();
                7
            },
            0x8F => {
                self.adc(Register::A);
                4
            },
            0x90 => {
                self.sub(Register::B);
                4
            },
            0x91 => {
                self.sub(Register::C);
                4
            },
            0x92 => {
                self.sub(Register::D);
                4
            },
            0x93 => {
                self.sub(Register::E);
                4
            },
            0x94 => {
                self.sub(Register::H);
                4
            },
            0x95 => {
                self.sub(Register::L);
                4
            },
            0x96 => {
                self.sub_m();
                7
            },
            0x97 => {
                self.sub(Register::A);
                4
            },
            0x98 => {
                self.sbb(Register::B);
                4
            },
            0x99 => {
                self.sbb(Register::C);
                4
            },
            0x9A => {
                self.sbb(Register::D);
                4
            },
            0x9B => {
                self.sbb(Register::E);
                4
            },
            0x9C => {
                self.sbb(Register::H);
                4
            },
            0x9D => {
                self.sbb(Register::L);
                4
            },
            0x9E => {
                self.sbb_m();
                7
            },
            0x9F => {
                self.sbb(Register::A);
                4
            },
            0xA0 => {
                self.ana(Register::B);
                4
            },
            0xA1 => {
                self.ana(Register::C);
                4
            },
            0xA2 => {
                self.ana(Register::D);
                4
            },
            0xA3 => {
                self.ana(Register::E);
                4
            },
            0xA4 => {
                self.ana(Register::H);
                4
            },
            0xA5 => {
                self.ana(Register::L);
                4
            },
            0xA6 => {
                self.ana_m();
                7
            },
            0xA7 => {
                self.ana(Register::A);
                4
            },
            0xA8 => {
                self.xra(Register::B);
                4
            },
            0xA9 => {
                self.xra(Register::C);
                4
            },
            0xAA => {
                self.xra(Register::D);
                4
            },
            0xAB => {
                self.xra(Register::E);
                4
            },
            0xAC => {
                self.xra(Register::H);
                4
            },
            0xAD => {
                self.xra(Register::L);
                4
            },
            0xAE => {
                self.xra_m();
                7
            },
            0xAF => {
                self.xra(Register::A);
                4
            },
            0xB0 => {
                self.ora(Register::B);
                4
            },
            0xB1 => {
                self.ora(Register::C);
                4
            },
            0xB2 => {
                self.ora(Register::D);
                4
            },
            0xB3 => {
                self.ora(Register::E);
                4
            },
            0xB4 => {
                self.ora(Register::H);
                4
            },
            0xB5 => {
                self.ora(Register::L);
                4
            },
            0xB6 => {
                self.ora_m();
                7
            },
            0xB7 => {
                self.ora(Register::A);
                4
            },
            0xB8 => {
                self.cmp(Register::B);
                4
            },
            0xB9 => {
                self.cmp(Register::C);
                4
            },
            0xBA => {
                self.cmp(Register::D);
                4
            },
            0xBB => {
                self.cmp(Register::E);
                4
            },
            0xBC => {
                self.cmp(Register::H);
                4
            },
            0xBD => {
                self.cmp(Register::L);
                4
            },
            0xBE => {
                self.cmp_m();
                7
            },
            0xBF => {
                self.cmp(Register::A);
                4
            },
            _ => 0,
        }
    }

    /// Executes one opcode of the range 0xC0..=0xFF.
    #[verifier::rlimit(100)]
    fn exec_hi(&mut self, op: u8) -> (r: u8)
        requires
            old(self).wf(),
            0xC0 <= op <= 0xFF,
        ensures
            final(self)@ == op_apply_hi(old(self)@, op),
            final(self)@.cycles == old(self)@.cycles,
            r as nat == op_cost_hi(old(self)@, op),
            r <= 18,
            final(self).wf(),
            flags_ok(old(self)@.flags) ==> flags_ok(final(self)@.flags),
    {
        proof {
            reveal(op_apply_hi);
            reveal(op_cost_hi);
            assert forall|sb: bool, zb: bool, ab: bool, pb: bool, cb: bool|
                flags_ok(#[trigger] mk_flags(sb, zb, ab, pb, cb)) by {
                lemma_mk_flags_fields(sb, zb, ab, pb, cb);
            }
            assert forall|f: u8, cb: bool| flags_ok(f) implies flags_ok(
                #[trigger] with_carry(f, cb),
            ) by {
                lemma_with_carry_fields(f, cb);
            }
            assert forall|v: u8| flags_ok(#[trigger] sanitize_flags(v)) by {
                lemma_mk_flags_fields(f_s(v), f_z(v), f_a(v), f_p(v), f_c(v));
            }
        }
        match op {
            0xC0 => {
                let taken = !self.get_flag(Flag::Z);
                self.rnz();
                if taken {
                    11
                } else {
                    5
                }
            },
            0xC1 => {
                self.pop(RegisterPair::B);
                10
            },
            0xC2 => {
                self.jnz();
                10
            },
            0xC3 | 0xCB => {
                self.jmp();
                10
            },
            0xC4 => {
                let taken = !self.get_flag(Flag::Z);
                self.cnz();
                if taken {
                    17
                } else {
                    11
                }
            },
            0xC5 => {
                self.push(RegisterPair::B);
                11
            },
            0xC6 => {
                self.adi();
                7
            },
            0xC7 => {
                self.rst(0);
                11
            },
            0xC8 => {
                let taken = self.get_flag(Flag::Z);
                self.rz();
                if taken {
                    11
                } else {
                    5
                }
            },
            0xC9 | 0xD9 => {
                self.ret();
                10
            },
            0xCA => {
                self.jz();
                10
            },
            0xCC => {
                let taken = self.get_flag(Flag::Z);
                self.cz();
                if taken {
                    17
                } else {
                    11
                }
            },
            0xCD | 0xDD | 0xED | 0xFD => {
                self.call();
                17
            },
            0xCE => {
                self.aci();
                7
            },
            0xCF => {
                self.rst(1);
                11
            },
            0xD0 => {
                let taken = !self.get_flag(Flag::C);
                self.rnc();
                if taken {
                    11
                } else {
                    5
                }
            },
            0xD1 => {
                self.pop(RegisterPair::D);
                10
            },
            0xD2 => {
                self.jnc();
                10
            },
            0xD3 => {
                self.port_out();
                10
            },
            0xD4 => {
                let taken = !self.get_flag(Flag::C);
                self.cnc();
                if taken {
                    17
                } else {
                    11
                }
            },
            0xD5 => {
                self.push(RegisterPair::D);
                11
            },
            0xD6 => {
                self.sui();
                7
            },
            0xD7 => {
                self.rst(2);
                11
            },
            0xD8 => {
                let taken = self.get_flag(Flag::C);
                self.rc();
                if taken {
                    11
                } else {
                    5
                }
            },
            0xDA => {
                self.jc();
                10
            },
            0xDB => {
                self.port_in();
                10
            },
            0xDC => {
                let taken = self.get_flag(Flag::C);
                self.cc();
                if taken {
                    17
                } else {
                    11
                }
            },
            0xDE => {
                self.sbi();
                7
            },
            0xDF => {
                self.rst(3);
                11
            },
            0xE0 => {
                let taken = !self.get_flag(Flag::P);
                self.rpo();
                if taken {
                    11
                } else {
                    5
                }
            },
            0xE1 => {
                self.pop(RegisterPair::H);
                10
            },
            0xE2 => {
                self.jpo();
                10
            },
            0xE3 => {
                self.xthl();
                18
            },
            0xE4 => {
                let taken = !self.get_flag(Flag::P);
                self.cpo();
                if taken {
                    17
                } else {
                    11
                }
            },
            0xE5 => {
                self.push(RegisterPair::H);
                11
            },
            0xE6 => {
                self.ani();
                7
            },
            0xE7 => {
                self.rst(4);
                11
            },
            0xE8 => {
                let taken = self.get_flag(Flag::P);
                self.rpe();
                if taken {
                    11
                } else {
                    5
                }
            },
            0xE9 => {
                self.pchl();
                5
            },
            0xEA => {
                self.jpe();
                10
            },
            0xEB => {
                self.xchg();
                4
            },
            0xEC => {
                let taken = self.get_flag(Flag::P);
                self.cpe();
                if taken {
                    17
                } else {
                    11
                }
            },
            0xEE => {
                self.xri();
                7
            },
            0xEF => {
                self.rst(5);
                11
            },
            0xF0 => {
                let taken = !self.get_flag(Flag::S);
                self.rp();
                if taken {
                    11
                } else {
                    5
                }
            },
            0xF1 => {
                self.pop(RegisterPair::PSW);
                10
            },
            0xF2 => {
                self.jp();
                10
            },
            0xF3 => {
                self.inte = false;
                4
            },
            0xF4 => {
                let taken = !self.get_flag(Flag::S);
                self.cp();
                if taken {
                    17
                } else {
                    11
                }
            },
            0xF5 => {
                self.push(RegisterPair::PSW);
                11
            },
            0xF6 => {
                self.ori();
                7
            },
            0xF7 => {
                self.rst(6);
                11
            },
            0xF8 => {
                let taken = self.get_flag(Flag::S);
                self.rm();
                if taken {
                    11
                } else {
                    5
                }
            },
            0xF9 => {
                self.sphl();
                5
            },
            0xFA => {
                self.jm();
                10
            },
            0xFB => {
                self.inte = true;
                4
            },
            0xFC => {
                let taken = self.get_flag(Flag::S);
                self.cm();
                if taken {
                    17
                } else {
                    11
                }
            },
            0xFE => {
                self.cpi();
                7
            },
            0xFF => {
                self.rst(7);
                11
            },
            _ => 0,
        }
    }

    /// Executes one decoded opcode and returns its tabulated cycle cost.
    /// The flag byte keeps its constant bits.
    fn exec_opcode(&mut self, op: u8) -> (r: u8)
        requires
            old(self).wf(),
        ensures
            final(self)@ == op_apply(old(self)@, op),
            final(self)@.cycles == old(self)@.cycles,
            r as nat == op_cost(old(self)@, op),
            r <= 18,
            final(self).wf(),
            flags_ok(old(self)@.flags) ==> flags_ok(final(self)@.flags),
    {
        if op < 0x40 {
            self.exec_lo(op)
        } else if op < 0x80 {
            self.exec_mov(op)
        } else if op < 0xC0 {
            self.exec_acc(op)
        } else {
            self.exec_hi(op)
        }
    }

    /// Consumes exactly one instruction and returns its cycle cost: a
    /// pending interrupt opcode first; the idle cost of 4 while halted,
    /// without advancing `PC`; else the byte fetched at `PC`. The cycle
    /// counter grows by exactly the returned cost, and the flag byte keeps
    /// its constant bits.
    pub fn step(&mut self) -> (r: u8)
        requires
            old(self).wf(),
            old(self)@.cycles + 18 <= u64::MAX,
        ensures
            final(self)@ == spec_step(old(self)@),
            r as nat == spec_step_cost(old(self)@),
            final(self)@.cycles == old(self)@.cycles + r as nat,
            final(self).wf(),
            flags_ok(old(self)@.flags) ==> flags_ok(final(self)@.flags),
    {
        self.out_latch = None;
        let pending = self.pending;
        match pending {
            Some(op) => {
                self.pending = None;
                let c = self.exec_opcode(op);
                self.cycles = self.cycles + c as u64;
                c
            },
            None => {
                if self.hlt {
                    self.cycles = self.cycles + 4;
                    4
                } else {
                    let op = self.next_u8();
                    let c = self.exec_opcode(op);
                    self.cycles = self.cycles + c as u64;
                    c
                }
            },
        }
    }

    /// Executes one instruction, discarding the cycle count.
    pub fn cycle(&mut self)
        requires
            old(self).wf(),
            old(self)@.cycles + 18 <= u64::MAX,
        ensures
            final(self)@ == spec_step(old(self)@),
            final(self).wf(),
    {
        self.step();
    }

    /// Requests an interrupt: if interrupts are enabled, clears the
    /// interrupt-enable and halt latches and leaves the opcode for the next
    /// step to execute in place of a fetch; otherwise does nothing.
    pub fn interrupt(&mut self, opcode: u8)
        ensures
            final(self)@ == s_interrupt(old(self)@, opcode),
    {
        if self.inte {
            self.inte = false;
            self.hlt = false;
            self.pending = Some(opcode);
        }
    }
}

} // verus!
