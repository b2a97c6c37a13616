//! Data transfer and stack instructions: loads, stores, moves, exchanges,
//! pushes and pops.
//!
//! Each instruction has a spec transition on the ghost [`Cpu`] record and an
//! exec method whose contract says the machine ends in exactly that state.

use vstd::prelude::*;
use crate::bytes::{w16, lo8, hi8, lemma_join_split};
use crate::state::{
    Cpu, I8080, Register, RegisterPair, reg_of, with_reg, pair_of, with_pair, mem_r, mem_w,
    mem_r16, mem_w16, wadd16, wsub16,
};

verus! {

/// `LXI rp,d16`: the pair is loaded with the 16-bit immediate.
pub open spec fn s_lxi(s: Cpu, p: RegisterPair) -> Cpu {
    with_pair(Cpu { pc: w16(s.pc + 2), ..s }, p, mem_r16(s.mem, s.pc))
}

/// `LXI SP,d16`: the stack pointer is loaded with the 16-bit immediate.
pub open spec fn s_lxi_sp(s: Cpu) -> Cpu {
    Cpu { pc: w16(s.pc + 2), sp: mem_r16(s.mem, s.pc), ..s }
}

/// `POP rp`: the pair is loaded from the stack and `SP` grows by two.
pub open spec fn s_pop(s: Cpu, p: RegisterPair) -> Cpu {
    with_pair(Cpu { sp: w16(s.sp + 2), ..s }, p, mem_r16(s.mem, s.sp))
}

/// `PUSH rp`: `SP` shrinks by two and the pair is stored there.
pub open spec fn s_push(s: Cpu, p: RegisterPair) -> Cpu {
    Cpu { sp: w16(s.sp - 2), mem: mem_w16(s.mem, w16(s.sp - 2), pair_of(s, p)), ..s }
}

/// `SHLD a16`: `HL` is stored little-endian at the immediate address.
pub open spec fn s_shld(s: Cpu) -> Cpu {
    Cpu {
        pc: w16(s.pc + 2),
        mem: mem_w16(s.mem, mem_r16(s.mem, s.pc), pair_of(s, RegisterPair::H)),
        ..s
    }
}

/// `LHLD a16`: `HL` is loaded little-endian from the immediate address.
pub open spec fn s_lhld(s: Cpu) -> Cpu {
    with_pair(Cpu { pc: w16(s.pc + 2), ..s }, RegisterPair::H, mem_r16(s.mem, mem_r16(s.mem, s.pc)))
}

/// `XTHL`: `HL` and the 16-bit word on top of the stack trade places.
pub open spec fn s_xthl(s: Cpu) -> Cpu {
    Cpu {
        h: hi8(mem_r16(s.mem, s.sp)),
        l: lo8(mem_r16(s.mem, s.sp)),
        mem: mem_w16(s.mem, s.sp, pair_of(s, RegisterPair::H)),
        ..s
    }
}

/// `SPHL`: the stack pointer is loaded from `HL`.
pub open spec fn s_sphl(s: Cpu) -> Cpu {
    Cpu { sp: pair_of(s, RegisterPair::H), ..s }
}

/// `XCHG`: `DE` and `HL` trade places.
pub open spec fn s_xchg(s: Cpu) -> Cpu {
    Cpu { h: s.d, l: s.e, d: s.h, e: s.l, ..s }
}

/// `STAX rp`: `A` is stored at the address in the pair.
pub open spec fn s_stax(s: Cpu, p: RegisterPair) -> Cpu {
    Cpu { mem: mem_w(s.mem, pair_of(s, p), s.a), ..s }
}

/// `LDAX rp`: `A` is loaded from the address in the pair.
pub open spec fn s_ldax(s: Cpu, p: RegisterPair) -> Cpu {
    Cpu { a: mem_r(s.mem, pair_of(s, p)), ..s }
}

/// `MVI r,d8`: the register is loaded with the immediate byte.
pub open spec fn s_mvi(s: Cpu, r: Register) -> Cpu {
    with_reg(Cpu { pc: w16(s.pc + 1), ..s }, r, mem_r(s.mem, s.pc))
}

/// `MVI M,d8`: the byte at `(HL)` is loaded with the immediate byte.
pub open spec fn s_mvi_m(s: Cpu) -> Cpu {
    Cpu {
        pc: w16(s.pc + 1),
        mem: mem_w(s.mem, pair_of(s, RegisterPair::H), mem_r(s.mem, s.pc)),
        ..s
    }
}

/// `STA a16`: `A` is stored at the immediate address.
pub open spec fn s_sta(s: Cpu) -> Cpu {
    Cpu { pc: w16(s.pc + 2), mem: mem_w(s.mem, mem_r16(s.mem, s.pc), s.a), ..s }
}

/// `LDA a16`: `A` is loaded from the immediate address.
pub open spec fn s_lda(s: Cpu) -> Cpu {
    Cpu { pc: w16(s.pc + 2), a: mem_r(s.mem, mem_r16(s.mem, s.pc)), ..s }
}

/// `MOV dst,src`: the destination register is loaded from the source.
pub open spec fn s_mov(s: Cpu, dst: Register, src: Register) -> Cpu {
    with_reg(s, dst, reg_of(s, src))
}

/// `MOV M,r`: the byte at `(HL)` is loaded from the register.
pub open spec fn s_mov_m(s: Cpu, r: Register) -> Cpu {
    Cpu { mem: mem_w(s.mem, pair_of(s, RegisterPair::H), reg_of(s, r)), ..s }
}

/// `MOV r,M`: the register is loaded from the byte at `(HL)`.
pub open spec fn s_mov_from_m(s: Cpu, r: Register) -> Cpu {
    with_reg(s, r, mem_r(s.mem, pair_of(s, RegisterPair::H)))
}

impl I8080 {
    /// `LXI rp,d16`.
    pub fn lxi(&mut self, pair: RegisterPair)
        requires
            old(self).wf(),
        ensures
            final(self)@ == s_lxi(old(self)@, pair),
            final(self).wf(),
    {
        let value = self.next_u16();
        self.set_register_pair(pair, value);
    }

    /// `LXI SP,d16`.
    pub fn lxi_sp(&mut self)
        requires
            old(self).wf(),
        ensures
            final(self)@ == s_lxi_sp(old(self)@),
            final(self).wf(),
    {
        self.sp = self.next_u16();
    }

    /// `POP rp`.
    pub fn pop(&mut self, pair: RegisterPair)
        requires
            old(self).wf(),
        ensures
            final(self)@ == s_pop(old(self)@, pair),
            final(self).wf(),
    {
        let value = self.read_u16(self.sp);
        self.set_register_pair(pair, value);
        self.sp = wadd16(self.sp, 2);
    }

    /// `PUSH rp`.
    pub fn push(&mut self, pair: RegisterPair)
        requires
            old(self).wf(),
        ensures
            final(self)@ == s_push(old(self)@, pair),
            final(self).wf(),
    {
        let value = self.get_register_pair(pair);
        self.sp = wsub16(self.sp, 2);
        self.write_u16(self.sp, value);
    }

    /// `SHLD a16`.
    pub fn shld(&mut self)
        requires
            old(self).wf(),
        ensures
            final(self)@ == s_shld(old(self)@),
            final(self).wf(),
    {
        let location = self.next_u16();
        let value = self.get_register_pair(RegisterPair::H);
        self.write_u16(location, value);
    }

    /// `LHLD a16`.
    pub fn lhld(&mut self)
        requires
            old(self).wf(),
        ensures
            final(self)@ == s_lhld(old(self)@),
            final(self).wf(),
    {
        let location = self.next_u16();
        let value = self.read_u16(location);
        self.set_register_pair(RegisterPair::H, value);
    }

    /// `XTHL`.
    pub fn xthl(&mut self)
        requires
            old(self).wf(),
        ensures
            final(self)@ == s_xthl(old(self)@),
            final(self).wf(),
    {
        let register = self.get_register_pair(RegisterPair::H);
        let stack = self.read_u16(self.sp);
        self.set_register_pair(RegisterPair::H, stack);
        self.write_u16(self.sp, register);
    }

    /// `SPHL`.
    pub fn sphl(&mut self)
        ensures
            final(self)@ == s_sphl(old(self)@),
    {
        self.sp = self.get_register_pair(RegisterPair::H);
    }

    /// `XCHG`.
    pub fn xchg(&mut self)
        ensures
            final(self)@ == s_xchg(old(self)@),
    {
        let hl = self.get_register_pair(RegisterPair::H);
        let de = self.get_register_pair(RegisterPair::D);
        self.set_register_pair(RegisterPair::H, de);
        self.set_register_pair(RegisterPair::D, hl);
        proof {
            lemma_join_split(old(self)@.d, old(self)@.e);
            lemma_join_split(old(self)@.h, old(self)@.l);
        }
    }

    /// `STAX rp`.
    pub fn stax(&mut self, pair: RegisterPair)
        requires
            old(self).wf(),
        ensures
            final(self)@ == s_stax(old(self)@, pair),
            final(self).wf(),
    {
        let location = self.get_register_pair(pair);
        let value = self.a;
        self.write_u8(location, value);
    }

    /// `LDAX rp`.
    pub fn ldax(&mut self, pair: RegisterPair)
        requires
            old(self).wf(),
        ensures
            final(self)@ == s_ldax(old(self)@, pair),
            final(self).wf(),
    {
        let location = self.get_register_pair(pair);
        self.a = self.read_u8(location);
    }

    /// `MVI r,d8`.
    pub fn mvi(&mut self, register: Register)
        requires
            old(self).wf(),
        ensures
            final(self)@ == s_mvi(old(self)@, register),
            final(self).wf(),
    {
        let value = self.next_u8();
        self.set_register(register, value);
    }

    /// `MVI M,d8`.
    pub fn mvi_m(&mut self)
        requires
            old(self).wf(),
        ensures
            final(self)@ == s_mvi_m(old(self)@),
            final(self).wf(),
    {
        let value = self.next_u8();
        self.write_m(value);
    }

    /// `STA a16`.
    pub fn sta(&mut self)
        requires
            old(self).wf(),
        ensures
            final(self)@ == s_sta(old(self)@),
            final(self).wf(),
    {
        let location = self.next_u16();
        let value = self.a;
        self.write_u8(location, value);
    }

    /// `LDA a16`.
    pub fn lda(&mut self)
        requires
            old(self).wf(),
        ensures
            final(self)@ == s_lda(old(self)@),
            final(self).wf(),
    {
        let location = self.next_u16();
        self.a = self.read_u8(location);
    }

    /// `MOV dst,src`.
    pub fn mov(&mut self, dst: Register, src: Register)
        ensures
            final(self)@ == s_mov(old(self)@, dst, src),
    {
        let value = self.get_register(src);
        self.set_register(dst, value);
    }

    /// `MOV M,r`.
    pub fn mov_m(&mut self, register: Register)
        requires
            old(self).wf(),
        ensures
            final(self)@ == s_mov_m(old(self)@, register),
            final(self).wf(),
    {
        let value = self.get_register(register);
        self.write_m(value);
    }

    /// `MOV r,M`.
    pub fn mov_from_m(&mut self, register: Register)
        requires
            old(self).wf(),
        ensures
            final(self)@ == s_mov_from_m(old(self)@, register),
            final(self).wf(),
    {
        let value = self.read_m();
        self.set_register(register, value);
    }
}

} // verus!
