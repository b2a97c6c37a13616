//! Arithmetic and logic instructions: the add, subtract, compare and
//! bitwise families with their flag semantics, increments and decrements,
//! rotates, decimal adjust, and the 16-bit pair arithmetic.
//!
//! Every operation computes in at least 9 bits so the carry is observable;
//! the auxiliary carry is the carry (or borrow) out of bit 3 of the
//! operation itself.

use vstd::prelude::*;
use crate::bytes::w16;
use crate::flags::{f_c, f_a, with_carry, szapc, flags_byte};
use crate::state::{
    Cpu, I8080, Register, RegisterPair, Flag, reg_of, with_reg, pair_of, with_pair, mem_r,
    mem_w, wadd16, wsub16,
};

verus! {

/// Low 8 bits of an addition with carry-in.
pub open spec fn add_res(a: u8, x: u8, cin: u8) -> u8 {
    ((a as int + x as int + cin as int) % 0x100) as u8
}

/// Carry out of bit 7 of an addition with carry-in.
pub open spec fn add_cy(a: u8, x: u8, cin: u8) -> bool {
    a as int + x as int + cin as int > 0xFF
}

/// Carry out of bit 3 of an addition with carry-in.
pub open spec fn add_ax(a: u8, x: u8, cin: u8) -> bool {
    a as int % 16 + x as int % 16 + cin as int > 0xF
}

/// Low 8 bits of a subtraction with borrow-in.
pub open spec fn sub_res(a: u8, x: u8, cin: u8) -> u8 {
    ((a as int - x as int - cin as int + 0x100) % 0x100) as u8
}

/// Borrow out of bit 7 of a subtraction with borrow-in.
pub open spec fn sub_cy(a: u8, x: u8, cin: u8) -> bool {
    (a as int) < x as int + cin as int
}

/// Borrow out of bit 3 of a subtraction with borrow-in.
pub open spec fn sub_ax(a: u8, x: u8, cin: u8) -> bool {
    a as int % 16 < x as int % 16 + cin as int
}

/// `ADD`/`ADC` family applied to an operand byte.
pub open spec fn s_add_v(s: Cpu, x: u8, cin: u8) -> Cpu {
    Cpu {
        a: add_res(s.a, x, cin),
        flags: szapc(add_res(s.a, x, cin), add_ax(s.a, x, cin), add_cy(s.a, x, cin)),
        ..s
    }
}

/// `SUB`/`SBB` family applied to an operand byte.
pub open spec fn s_sub_v(s: Cpu, x: u8, cin: u8) -> Cpu {
    Cpu {
        a: sub_res(s.a, x, cin),
        flags: szapc(sub_res(s.a, x, cin), sub_ax(s.a, x, cin), sub_cy(s.a, x, cin)),
        ..s
    }
}

/// `CMP` family: the flags of `A - x`, with `A` kept.
pub open spec fn s_cmp_v(s: Cpu, x: u8) -> Cpu {
    Cpu { flags: szapc(sub_res(s.a, x, 0), sub_ax(s.a, x, 0), sub_cy(s.a, x, 0)), ..s }
}

/// `ANA` family: Carry cleared, Auxiliary-carry from bit 3 of `A | x`.
pub open spec fn s_ana_v(s: Cpu, x: u8) -> Cpu {
    Cpu { a: s.a & x, flags: szapc(s.a & x, ((s.a | x) as int / 8) % 2 == 1, false), ..s }
}

/// `XRA` family: Carry and Auxiliary-carry cleared.
pub open spec fn s_xra_v(s: Cpu, x: u8) -> Cpu {
    Cpu { a: s.a ^ x, flags: szapc(s.a ^ x, false, false), ..s }
}

/// `ORA` family: Carry and Auxiliary-carry cleared.
pub open spec fn s_ora_v(s: Cpu, x: u8) -> Cpu {
    Cpu { a: s.a | x, flags: szapc(s.a | x, false, false), ..s }
}

/// The operand byte of an immediate-form operation, and the state after the
/// immediate is consumed.
pub open spec fn imm_of(s: Cpu) -> u8 {
    mem_r(s.mem, s.pc)
}

/// The state with the one immediate byte consumed.
pub open spec fn past_imm(s: Cpu) -> Cpu {
    Cpu { pc: w16(s.pc + 1), ..s }
}

/// The carry flag as the number 0 or 1.
pub open spec fn cy_in(s: Cpu) -> u8 {
    if f_c(s.flags) {
        1u8
    } else {
        0u8
    }
}

/// `INR` result: an increment that wraps at 8 bits.
pub open spec fn inr_res(x: u8) -> u8 {
    ((x as int + 1) % 0x100) as u8
}

/// `INR` auxiliary carry: carry out of bit 3 of the increment.
pub open spec fn inr_ax(x: u8) -> bool {
    x as int % 16 == 15
}

/// `DCR` result: a decrement that wraps at 8 bits.
pub open spec fn dcr_res(x: u8) -> u8 {
    ((x as int + 0xFF) % 0x100) as u8
}

/// `DCR` auxiliary carry: borrow out of bit 3 of the decrement.
pub open spec fn dcr_ax(x: u8) -> bool {
    x as int % 16 == 0
}

/// `INR r`: Sign, Zero, Auxiliary-carry and Parity updated, Carry kept.
pub open spec fn s_inr(s: Cpu, r: Register) -> Cpu {
    with_reg(
        Cpu { flags: szapc(inr_res(reg_of(s, r)), inr_ax(reg_of(s, r)), f_c(s.flags)), ..s },
        r,
        inr_res(reg_of(s, r)),
    )
}

/// `INR M`.
pub open spec fn s_inr_m(s: Cpu) -> Cpu {
    Cpu {
        flags: szapc(
            inr_res(mem_r(s.mem, pair_of(s, RegisterPair::H))),
            inr_ax(mem_r(s.mem, pair_of(s, RegisterPair::H))),
            f_c(s.flags),
        ),
        mem: mem_w(
            s.mem,
            pair_of(s, RegisterPair::H),
            inr_res(mem_r(s.mem, pair_of(s, RegisterPair::H))),
        ),
        ..s
    }
}

/// `DCR r`: Sign, Zero, Auxiliary-carry and Parity updated, Carry kept.
pub open spec fn s_dcr(s: Cpu, r: Register) -> Cpu {
    with_reg(
        Cpu { flags: szapc(dcr_res(reg_of(s, r)), dcr_ax(reg_of(s, r)), f_c(s.flags)), ..s },
        r,
        dcr_res(reg_of(s, r)),
    )
}

/// `DCR M`.
pub open spec fn s_dcr_m(s: Cpu) -> Cpu {
    Cpu {
        flags: szapc(
            dcr_res(mem_r(s.mem, pair_of(s, RegisterPair::H))),
            dcr_ax(mem_r(s.mem, pair_of(s, RegisterPair::H))),
            f_c(s.flags),
        ),
        mem: mem_w(
            s.mem,
            pair_of(s, RegisterPair::H),
            dcr_res(mem_r(s.mem, pair_of(s, RegisterPair::H))),
        ),
        ..s
    }
}

/// `RLC`: `A` rotated left, Carry taking the old bit 7.
pub open spec fn s_rlc(s: Cpu) -> Cpu {
    Cpu {
        a: ((s.a as int % 0x80) * 2 + s.a as int / 0x80) as u8,
        flags: with_carry(s.flags, s.a >= 0x80),
        ..s
    }
}

/// `RRC`: `A` rotated right, Carry taking the old bit 0.
pub open spec fn s_rrc(s: Cpu) -> Cpu {
    Cpu {
        a: (s.a as int / 2 + (s.a as int % 2) * 0x80) as u8,
        flags: with_carry(s.flags, s.a % 2 == 1),
        ..s
    }
}

/// `RAL`: `A` rotated left through Carry.
pub open spec fn s_ral(s: Cpu) -> Cpu {
    Cpu {
        a: ((s.a as int % 0x80) * 2 + cy_in(s) as int) as u8,
        flags: with_carry(s.flags, s.a >= 0x80),
        ..s
    }
}

/// `RAR`: `A` rotated right through Carry.
pub open spec fn s_rar(s: Cpu) -> Cpu {
    Cpu {
        a: (s.a as int / 2 + cy_in(s) as int * 0x80) as u8,
        flags: with_carry(s.flags, s.a % 2 == 1),
        ..s
    }
}

/// `STC`: Carry set.
pub open spec fn s_stc(s: Cpu) -> Cpu {
    Cpu { flags: with_carry(s.flags, true), ..s }
}

/// `CMC`: Carry inverted.
pub open spec fn s_cmc(s: Cpu) -> Cpu {
    Cpu { flags: with_carry(s.flags, !f_c(s.flags)), ..s }
}

/// `CMA`: `A` complemented; no flag is touched.
pub open spec fn s_cma(s: Cpu) -> Cpu {
    Cpu { a: !s.a, ..s }
}

/// The first step of `DAA`: if the low nibble exceeds 9 or Auxiliary-carry
/// is set, 6 is added to `A`; the auxiliary carry of that add is recorded
/// and Carry is kept.
pub open spec fn daa_mid(s: Cpu) -> Cpu {
    if s.a as int % 16 > 9 || f_a(s.flags) {
        Cpu { a: add_res(s.a, 6, 0), flags: szapc(add_res(s.a, 6, 0), add_ax(s.a, 6, 0), f_c(s.flags)), ..s }
    } else {
        s
    }
}

/// `DAA`: after the low-nibble step, if the high nibble exceeds 9 or Carry
/// is set, `0x60` is added and Carry is set; Carry is never cleared.
pub open spec fn s_daa(s: Cpu) -> Cpu {
    let t = daa_mid(s);
    if t.a as int / 16 > 9 || f_c(t.flags) {
        Cpu { a: add_res(t.a, 0x60, 0), flags: szapc(add_res(t.a, 0x60, 0), f_a(t.flags), true), ..t }
    } else {
        t
    }
}

/// `INX rp`: the pair incremented, wrapping; no flag is touched.
pub open spec fn s_inx(s: Cpu, p: RegisterPair) -> Cpu {
    with_pair(s, p, w16(pair_of(s, p) + 1))
}

/// `INX SP`.
pub open spec fn s_inx_sp(s: Cpu) -> Cpu {
    Cpu { sp: w16(s.sp + 1), ..s }
}

/// `DCX rp`: the pair decremented, wrapping; no flag is touched.
pub open spec fn s_dcx(s: Cpu, p: RegisterPair) -> Cpu {
    with_pair(s, p, w16(pair_of(s, p) - 1))
}

/// `DCX SP`.
pub open spec fn s_dcx_sp(s: Cpu) -> Cpu {
    Cpu { sp: w16(s.sp - 1), ..s }
}

/// `DAD rp`: `HL` plus the pair; only Carry is updated, from the 17th bit.
pub open spec fn s_dad(s: Cpu, p: RegisterPair) -> Cpu {
    with_pair(
        Cpu {
            flags: with_carry(
                s.flags,
                pair_of(s, p) as int + pair_of(s, RegisterPair::H) as int > 0xFFFF,
            ),
            ..s
        },
        RegisterPair::H,
        w16(pair_of(s, p) as int + pair_of(s, RegisterPair::H) as int),
    )
}

/// `DAD SP`.
pub open spec fn s_dad_sp(s: Cpu) -> Cpu {
    with_pair(
        Cpu {
            flags: with_carry(s.flags, s.sp as int + pair_of(s, RegisterPair::H) as int > 0xFFFF),
            ..s
        },
        RegisterPair::H,
        w16(s.sp as int + pair_of(s, RegisterPair::H) as int),
    )
}

impl I8080 {
    /// The shared body of the add family.
    fn alu_add(&mut self, x: u8, cin: u8)
        requires
            cin <= 1,
        ensures
            final(self)@ == s_add_v(old(self)@, x, cin),
    {
        let sum: u16 = self.a as u16 + x as u16 + cin as u16;
        let res = (sum % 0x100) as u8;
        let aux = self.a % 16 + x % 16 + cin > 15;
        self.set_flags(sum, aux);
        self.a = res;
    }

    /// The shared body of the subtract family.
    fn alu_sub(&mut self, x: u8, cin: u8)
        requires
            cin <= 1,
        ensures
            final(self)@ == s_sub_v(old(self)@, x, cin),
    {
        let borrow = (self.a as u16) < (x as u16 + cin as u16);
        let res = ((self.a as u32 + 0x100 - x as u32 - cin as u32) % 0x100) as u8;
        let aux = self.a % 16 < x % 16 + cin;
        let p = Self::parity(res);
        self.flags = flags_byte(res >= 0x80, res == 0, aux, p, borrow);
        self.a = res;
    }

    /// The shared body of the compare family: flags of `A - x`, `A` kept.
    fn alu_cmp(&mut self, x: u8)
        ensures
            final(self)@ == s_cmp_v(old(self)@, x),
    {
        let borrow = (self.a as u16) < (x as u16);
        let res = ((self.a as u32 + 0x100 - x as u32) % 0x100) as u8;
        let aux = self.a % 16 < x % 16;
        let p = Self::parity(res);
        self.flags = flags_byte(res >= 0x80, res == 0, aux, p, borrow);
    }

    /// The shared body of the and family.
    fn alu_and(&mut self, x: u8)
        ensures
            final(self)@ == s_ana_v(old(self)@, x),
    {
        let res = self.a & x;
        let aux = ((self.a | x) / 8) % 2 == 1;
        let p = Self::parity(res);
        self.flags = flags_byte(res >= 0x80, res == 0, aux, p, false);
        self.a = res;
    }

    /// The shared body of the exclusive-or family.
    fn alu_xor(&mut self, x: u8)
        ensures
            final(self)@ == s_xra_v(old(self)@, x),
    {
        let res = self.a ^ x;
        let p = Self::parity(res);
        self.flags = flags_byte(res >= 0x80, res == 0, false, p, false);
        self.a = res;
    }

    /// The shared body of the or family.
    fn alu_or(&mut self, x: u8)
        ensures
            final(self)@ == s_ora_v(old(self)@, x),
    {
        let res = self.a | x;
        let p = Self::parity(res);
        self.flags = flags_byte(res >= 0x80, res == 0, false, p, false);
        self.a = res;
    }

    /// `INR r`.
    pub fn inr(&mut self, register: Register)
        ensures
            final(self)@ == s_inr(old(self)@, register),
    {
        let x = self.get_register(register);
        let value = ((x as u16 + 1) % 0x100) as u8;
        self.set_flags_without_carry(value, x % 16 == 15);
        self.set_register(register, value);
    }

    /// `INR M`.
    pub fn inr_m(&mut self)
        requires
            old(self).wf(),
        ensures
            final(self)@ == s_inr_m(old(self)@),
            final(self).wf(),
    {
        let x = self.read_m();
        let value = ((x as u16 + 1) % 0x100) as u8;
        self.set_flags_without_carry(value, x % 16 == 15);
        self.write_m(value);
    }

    /// `DCR r`.
    pub fn dcr(&mut self, register: Register)
        ensures
            final(self)@ == s_dcr(old(self)@, register),
    {
        let x = self.get_register(register);
        let value = ((x as u16 + 0xFF) % 0x100) as u8;
        self.set_flags_without_carry(value, x % 16 == 0);
        self.set_register(register, value);
    }

    /// `DCR M`.
    pub fn dcr_m(&mut self)
        requires
            old(self).wf(),
        ensures
            final(self)@ == s_dcr_m(old(self)@),
            final(self).wf(),
    {
        let x = self.read_m();
        let value = ((x as u16 + 0xFF) % 0x100) as u8;
        self.set_flags_without_carry(value, x % 16 == 0);
        self.write_m(value);
    }

    /// `RLC`.
    pub fn rlc(&mut self)
        ensures
            final(self)@ == s_rlc(old(self)@),
    {
        let carry: u8 = self.a / 0x80;
        self.a = (self.a % 0x80) * 2 + carry;
        self.set_carry(carry);
    }

    /// `RAL`.
    pub fn ral(&mut self)
        ensures
            final(self)@ == s_ral(old(self)@),
    {
        let carry: u8 = self.a / 0x80;
        self.a = (self.a % 0x80) * 2 + self.get_carry();
        self.set_carry(carry);
    }

    /// `RRC`.
    pub fn rrc(&mut self)
        ensures
            final(self)@ == s_rrc(old(self)@),
    {
        let carry: u8 = self.a % 2;
        self.a = self.a / 2 + carry * 0x80;
        self.set_carry(carry);
    }

    /// `RAR`.
    pub fn rar(&mut self)
        ensures
            final(self)@ == s_rar(old(self)@),
    {
        let carry: u8 = self.a % 2;
        self.a = self.a / 2 + self.get_carry() * 0x80;
        self.set_carry(carry);
    }

    /// `STC`.
    pub fn stc(&mut self)
        ensures
            final(self)@ == s_stc(old(self)@),
    {
        self.set_carry(1);
    }

    /// `CMC`.
    pub fn cmc(&mut self)
        ensures
            final(self)@ == s_cmc(old(self)@),
    {
        let c = self.get_carry();
        self.set_carry(1 - c);
    }

    /// `CMA`.
    pub fn cma(&mut self)
        ensures
            final(self)@ == s_cma(old(self)@),
    {
        self.a = !self.a;
    }

    /// `DAA`.
    pub fn daa(&mut self)
        ensures
            final(self)@ == s_daa(old(self)@),
    {
        let a0 = self.a;
        if a0 % 16 > 9 || self.get_flag(Flag::A) {
            let value = ((a0 as u16 + 6) % 0x100) as u8;
            self.set_flags_without_carry(value, a0 % 16 + 6 > 15);
            self.a = value;
        }
        let a1 = self.a;
        if a1 / 16 > 9 || self.get_flag(Flag::C) {
            let value = ((a1 as u16 + 0x60) % 0x100) as u8;
            let aux = self.get_flag(Flag::A);
            let p = Self::parity(value);
            self.flags = flags_byte(value >= 0x80, value == 0, aux, p, true);
            self.a = value;
        }
    }

    /// `ADD r`.
    pub fn add(&mut self, register: Register)
        ensures
            final(self)@ == s_add_v(old(self)@, reg_of(old(self)@, register), 0),
    {
        let x = self.get_register(register);
        self.alu_add(x, 0);
    }

    /// `ADD M`.
    pub fn add_m(&mut self)
        requires
            old(self).wf(),
        ensures
            final(self)@ == s_add_v(
                old(self)@,
                mem_r(old(self)@.mem, pair_of(old(self)@, RegisterPair::H)),
                0,
            ),
            final(self).wf(),
    {
        let x = self.read_m();
        self.alu_add(x, 0);
    }

    /// `ADC r`.
    pub fn adc(&mut self, register: Register)
        ensures
            final(self)@ == s_add_v(old(self)@, reg_of(old(self)@, register), cy_in(old(self)@)),
    {
        let x = self.get_register(register);
        let cin = self.get_carry();
        self.alu_add(x, cin);
    }

    /// `ADC M`.
    pub fn adc_m(&mut self)
        requires
            old(self).wf(),
        ensures
            final(self)@ == s_add_v(
                old(self)@,
                mem_r(old(self)@.mem, pair_of(old(self)@, RegisterPair::H)),
                cy_in(old(self)@),
            ),
            final(self).wf(),
    {
        let x = self.read_m();
        let cin = self.get_carry();
        self.alu_add(x, cin);
    }

    /// `SUB r`.
    pub fn sub(&mut self, register: Register)
        ensures
            final(self)@ == s_sub_v(old(self)@, reg_of(old(self)@, register), 0),
    {
        let x = self.get_register(register);
        self.alu_sub(x, 0);
    }

    /// `SUB M`.
    pub fn sub_m(&mut self)
        requires
            old(self).wf(),
        ensures
            final(self)@ == s_sub_v(
                old(self)@,
                mem_r(old(self)@.mem, pair_of(old(self)@, RegisterPair::H)),
                0,
            ),
            final(self).wf(),
    {
        let x = self.read_m();
        self.alu_sub(x, 0);
    }

    /// `SBB r`.
    pub fn sbb(&mut self, register: Register)
        ensures
            final(self)@ == s_sub_v(old(self)@, reg_of(old(self)@, register), cy_in(old(self)@)),
    {
        let x = self.get_register(register);
        let cin = self.get_carry();
        self.alu_sub(x, cin);
    }

    /// `SBB M`.
    pub fn sbb_m(&mut self)
        requires
            old(self).wf(),
        ensures
            final(self)@ == s_sub_v(
                old(self)@,
                mem_r(old(self)@.mem, pair_of(old(self)@, RegisterPair::H)),
                cy_in(old(self)@),
            ),
            final(self).wf(),
    {
        let x = self.read_m();
        let cin = self.get_carry();
        self.alu_sub(x, cin);
    }

    /// `ANA r`.
    pub fn ana(&mut self, register: Register)
        ensures
            final(self)@ == s_ana_v(old(self)@, reg_of(old(self)@, register)),
    {
        let x = self.get_register(register);
        self.alu_and(x);
    }

    /// `ANA M`.
    pub fn ana_m(&mut self)
        requires
            old(self).wf(),
        ensures
            final(self)@ == s_ana_v(
                old(self)@,
                mem_r(old(self)@.mem, pair_of(old(self)@, RegisterPair::H)),
            ),
            final(self).wf(),
    {
        let x = self.read_m();
        self.alu_and(x);
    }

    /// `XRA r`.
    pub fn xra(&mut self, register: Register)
        ensures
            final(self)@ == s_xra_v(old(self)@, reg_of(old(self)@, register)),
    {
        let x = self.get_register(register);
        self.alu_xor(x);
    }

    /// `XRA M`.
    pub fn xra_m(&mut self)
        requires
            old(self).wf(),
        ensures
            final(self)@ == s_xra_v(
                old(self)@,
                mem_r(old(self)@.mem, pair_of(old(self)@, RegisterPair::H)),
            ),
            final(self).wf(),
    {
        let x = self.read_m();
        self.alu_xor(x);
    }

    /// `ORA r`.
    pub fn ora(&mut self, register: Register)
        ensures
            final(self)@ == s_ora_v(old(self)@, reg_of(old(self)@, register)),
    {
        let x = self.get_register(register);
        self.alu_or(x);
    }

    /// `ORA M`.
    pub fn ora_m(&mut self)
        requires
            old(self).wf(),
        ensures
            final(self)@ == s_ora_v(
                old(self)@,
                mem_r(old(self)@.mem, pair_of(old(self)@, RegisterPair::H)),
            ),
            final(self).wf(),
    {
        let x = self.read_m();
        self.alu_or(x);
    }

    /// `CMP r`.
    pub fn cmp(&mut self, register: Register)
        ensures
            final(self)@ == s_cmp_v(old(self)@, reg_of(old(self)@, register)),
    {
        let x = self.get_register(register);
        self.alu_cmp(x);
    }

    /// `CMP M`.
    pub fn cmp_m(&mut self)
        requires
            old(self).wf(),
        ensures
            final(self)@ == s_cmp_v(
                old(self)@,
                mem_r(old(self)@.mem, pair_of(old(self)@, RegisterPair::H)),
            ),
            final(self).wf(),
    {
        let x = self.read_m();
        self.alu_cmp(x);
    }

    /// `ADI d8`.
    pub fn adi(&mut self)
        requires
            old(self).wf(),
        ensures
            final(self)@ == s_add_v(past_imm(old(self)@), imm_of(old(self)@), 0),
            final(self).wf(),
    {
        let x = self.next_u8();
        self.alu_add(x, 0);
    }

    /// `ACI d8`.
    pub fn aci(&mut self)
        requires
            old(self).wf(),
        ensures
            final(self)@ == s_add_v(past_imm(old(self)@), imm_of(old(self)@), cy_in(old(self)@)),
            final(self).wf(),
    {
        let x = self.next_u8();
        let cin = self.get_carry();
        self.alu_add(x, cin);
    }

    /// `SUI d8`.
    pub fn sui(&mut self)
        requires
            old(self).wf(),
        ensures
            final(self)@ == s_sub_v(past_imm(old(self)@), imm_of(old(self)@), 0),
            final(self).wf(),
    {
        let x = self.next_u8();
        self.alu_sub(x, 0);
    }

    /// `SBI d8`.
    pub fn sbi(&mut self)
        requires
            old(self).wf(),
        ensures
            final(self)@ == s_sub_v(past_imm(old(self)@), imm_of(old(self)@), cy_in(old(self)@)),
            final(self).wf(),
    {
        let x = self.next_u8();
        let cin = self.get_carry();
        self.alu_sub(x, cin);
    }

    /// `ANI d8`.
    pub fn ani(&mut self)
        requires
            old(self).wf(),
        ensures
            final(self)@ == s_ana_v(past_imm(old(self)@), imm_of(old(self)@)),
            final(self).wf(),
    {
        let x = self.next_u8();
        self.alu_and(x);
    }

    /// `XRI d8`.
    pub fn xri(&mut self)
        requires
            old(self).wf(),
        ensures
            final(self)@ == s_xra_v(past_imm(old(self)@), imm_of(old(self)@)),
            final(self).wf(),
    {
        let x = self.next_u8();
        self.alu_xor(x);
    }

    /// `ORI d8`.
    pub fn ori(&mut self)
        requires
            old(self).wf(),
        ensures
            final(self)@ == s_ora_v(past_imm(old(self)@), imm_of(old(self)@)),
            final(self).wf(),
    {
        let x = self.next_u8();
        self.alu_or(x);
    }

    /// `CPI d8`.
    pub fn cpi(&mut self)
        requires
            old(self).wf(),
        ensures
            final(self)@ == s_cmp_v(past_imm(old(self)@), imm_of(old(self)@)),
            final(self).wf(),
    {
        let x = self.next_u8();
        self.alu_cmp(x);
    }

    /// `INX rp`.
    pub fn inx(&mut self, pair: RegisterPair)
        ensures
            final(self)@ == s_inx(old(self)@, pair),
    {
        let v = self.get_register_pair(pair);
        self.set_register_pair(pair, wadd16(v, 1));
    }

    /// `INX SP`.
    pub fn inx_sp(&mut self)
        ensures
            final(self)@ == s_inx_sp(old(self)@),
    {
        self.sp = wadd16(self.sp, 1);
    }

    /// `DCX rp`.
    pub fn dcx(&mut self, pair: RegisterPair)
        ensures
            final(self)@ == s_dcx(old(self)@, pair),
    {
        let v = self.get_register_pair(pair);
        self.set_register_pair(pair, wsub16(v, 1));
    }

    /// `DCX SP`.
    pub fn dcx_sp(&mut self)
        ensures
            final(self)@ == s_dcx_sp(old(self)@),
    {
        self.sp = wsub16(self.sp, 1);
    }

    /// `DAD rp`.
    pub fn dad(&mut self, pair: RegisterPair)
        ensures
            final(self)@ == s_dad(old(self)@, pair),
    {
        let sum: u32 = self.get_register_pair(pair) as u32 + self.get_register_pair(
            RegisterPair::H,
        ) as u32;
        self.set_carry(if sum > 0xFFFF {
            1
        } else {
            0
        });
        self.set_register_pair(RegisterPair::H, (sum % 0x10000) as u16);
    }

    /// `DAD SP`.
    pub fn dad_sp(&mut self)
        ensures
            final(self)@ == s_dad_sp(old(self)@),
    {
        let sum: u32 = self.sp as u32 + self.get_register_pair(RegisterPair::H) as u32;
        self.set_carry(if sum > 0xFFFF {
            1
        } else {
            0
        });
        self.set_register_pair(RegisterPair::H, (sum % 0x10000) as u16);
    }
}

} // verus!
