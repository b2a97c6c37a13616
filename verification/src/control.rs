//! Control-flow instructions: jumps, calls, returns and restarts, each in
//! its unconditional form and its eight condition-flag forms.
//!
//! An untaken conditional jump or call still consumes its immediate bytes;
//! the program counter then falls through past the 3-byte instruction.

use vstd::prelude::*;
use crate::bytes::w16;
use crate::flags::{f_c, f_p, f_z, f_s};
use crate::state::{Cpu, I8080, RegisterPair, Flag, pair_of, mem_r16, mem_w16, wadd16, wsub16};

verus! {

/// `RET`: the program counter is popped from the stack.
pub open spec fn s_ret(s: Cpu) -> Cpu {
    Cpu { pc: mem_r16(s.mem, s.sp), sp: w16(s.sp + 2), ..s }
}

/// A conditional return: `RET` when the condition holds, else nothing.
pub open spec fn s_ret_if(s: Cpu, cond: bool) -> Cpu {
    if cond {
        s_ret(s)
    } else {
        s
    }
}

/// `PCHL`: the program counter is loaded from `HL`.
pub open spec fn s_pchl(s: Cpu) -> Cpu {
    Cpu { pc: pair_of(s, RegisterPair::H), ..s }
}

/// `JMP a16`: the program counter is loaded with the immediate address.
pub open spec fn s_jmp(s: Cpu) -> Cpu {
    Cpu { pc: mem_r16(s.mem, s.pc), ..s }
}

/// A conditional jump: `JMP` when the condition holds, else the immediate
/// bytes are consumed and execution falls through.
pub open spec fn s_jmp_if(s: Cpu, cond: bool) -> Cpu {
    if cond {
        s_jmp(s)
    } else {
        Cpu { pc: w16(s.pc + 2), ..s }
    }
}

/// `CALL a16`: the address of the following instruction is pushed, then the
/// program counter is loaded with the immediate address.
pub open spec fn s_call(s: Cpu) -> Cpu {
    Cpu {
        pc: mem_r16(mem_w16(s.mem, w16(s.sp - 2), w16(s.pc + 2)), s.pc),
        sp: w16(s.sp - 2),
        mem: mem_w16(s.mem, w16(s.sp - 2), w16(s.pc + 2)),
        ..s
    }
}

/// A conditional call: `CALL` when the condition holds, else the immediate
/// bytes are consumed and execution falls through.
pub open spec fn s_call_if(s: Cpu, cond: bool) -> Cpu {
    if cond {
        s_call(s)
    } else {
        Cpu { pc: w16(s.pc + 2), ..s }
    }
}

/// `RST n`: the program counter is pushed and set to `n * 8`.
pub open spec fn s_rst(s: Cpu, n: u8) -> Cpu {
    Cpu {
        pc: (n as int * 8) as u16,
        sp: w16(s.sp - 2),
        mem: mem_w16(s.mem, w16(s.sp - 2), s.pc),
        ..s
    }
}

impl I8080 {
    /// `RET`.
    pub fn ret(&mut self)
        requires
            old(self).wf(),
        ensures
            final(self)@ == s_ret(old(self)@),
            final(self).wf(),
    {
        self.pc = self.read_u16(self.sp);
        self.sp = wadd16(self.sp, 2);
    }

    /// `RC`: return if Carry.
    pub fn rc(&mut self)
        requires
            old(self).wf(),
        ensures
            final(self)@ == s_ret_if(old(self)@, f_c(old(self)@.flags)),
            final(self).wf(),
    {
        if self.get_flag(Flag::C) {
            self.ret();
        }
    }

    /// `RNC`: return if not Carry.
    pub fn rnc(&mut self)
        requires
            old(self).wf(),
        ensures
            final(self)@ == s_ret_if(old(self)@, !f_c(old(self)@.flags)),
            final(self).wf(),
    {
        if !self.get_flag(Flag::C) {
            self.ret();
        }
    }

    /// `RZ`: return if Zero.
    pub fn rz(&mut self)
        requires
            old(self).wf(),
        ensures
            final(self)@ == s_ret_if(old(self)@, f_z(old(self)@.flags)),
            final(self).wf(),
    {
        if self.get_flag(Flag::Z) {
            self.ret();
        }
    }

    /// `RNZ`: return if not Zero.
    pub fn rnz(&mut self)
        requires
            old(self).wf(),
        ensures
            final(self)@ == s_ret_if(old(self)@, !f_z(old(self)@.flags)),
            final(self).wf(),
    {
        if !self.get_flag(Flag::Z) {
            self.ret();
        }
    }

    /// `RM`: return if minus.
    pub fn rm(&mut self)
        requires
            old(self).wf(),
        ensures
            final(self)@ == s_ret_if(old(self)@, f_s(old(self)@.flags)),
            final(self).wf(),
    {
        if self.get_flag(Flag::S) {
            self.ret();
        }
    }

    /// `RP`: return if plus.
    pub fn rp(&mut self)
        requires
            old(self).wf(),
        ensures
            final(self)@ == s_ret_if(old(self)@, !f_s(old(self)@.flags)),
            final(self).wf(),
    {
        if !self.get_flag(Flag::S) {
            self.ret();
        }
    }

    /// `RPE`: return if parity even.
    pub fn rpe(&mut self)
        requires
            old(self).wf(),
        ensures
            final(self)@ == s_ret_if(old(self)@, f_p(old(self)@.flags)),
            final(self).wf(),
    {
        if self.get_flag(Flag::P) {
            self.ret();
        }
    }

    /// `RPO`: return if parity odd.
    pub fn rpo(&mut self)
        requires
            old(self).wf(),
        ensures
            final(self)@ == s_ret_if(old(self)@, !f_p(old(self)@.flags)),
            final(self).wf(),
    {
        if !self.get_flag(Flag::P) {
            self.ret();
        }
    }

    /// `PCHL`.
    pub fn pchl(&mut self)
        ensures
            final(self)@ == s_pchl(old(self)@),
    {
        self.pc = self.get_register_pair(RegisterPair::H);
    }

    /// `JMP a16`.
    pub fn jmp(&mut self)
        requires
            old(self).wf(),
        ensures
            final(self)@ == s_jmp(old(self)@),
            final(self).wf(),
    {
        self.pc = self.read_u16(self.pc);
    }

    /// `JC a16`: jump if Carry.
    pub fn jc(&mut self)
        requires
            old(self).wf(),
        ensures
            final(self)@ == s_jmp_if(old(self)@, f_c(old(self)@.flags)),
            final(self).wf(),
    {
        if self.get_flag(Flag::C) {
            self.jmp();
        } else {
            self.pc = wadd16(self.pc, 2);
        }
    }

    /// `JNC a16`: jump if not Carry.
    pub fn jnc(&mut self)
        requires
            old(self).wf(),
        ensures
            final(self)@ == s_jmp_if(old(self)@, !f_c(old(self)@.flags)),
            final(self).wf(),
    {
        if !self.get_flag(Flag::C) {
            self.jmp();
        } else {
            self.pc = wadd16(self.pc, 2);
        }
    }

    /// `JZ a16`: jump if Zero.
    pub fn jz(&mut self)
        requires
            old(self).wf(),
        ensures
            final(self)@ == s_jmp_if(old(self)@, f_z(old(self)@.flags)),
            final(self).wf(),
    {
        if self.get_flag(Flag::Z) {
            self.jmp();
        } else {
            self.pc = wadd16(self.pc, 2);
        }
    }

    /// `JNZ a16`: jump if not Zero.
    pub fn jnz(&mut self)
        requires
            old(self).wf(),
        ensures
            final(self)@ == s_jmp_if(old(self)@, !f_z(old(self)@.flags)),
            final(self).wf(),
    {
        if !self.get_flag(Flag::Z) {
            self.jmp();
        } else {
            self.pc = wadd16(self.pc, 2);
        }
    }

    /// `JM a16`: jump if minus.
    pub fn jm(&mut self)
        requires
            old(self).wf(),
        ensures
            final(self)@ == s_jmp_if(old(self)@, f_s(old(self)@.flags)),
            final(self).wf(),
    {
        if self.get_flag(Flag::S) {
            self.jmp();
        } else {
            self.pc = wadd16(self.pc, 2);
        }
    }

    /// `JP a16`: jump if plus.
    pub fn jp(&mut self)
        requires
            old(self).wf(),
        ensures
            final(self)@ == s_jmp_if(old(self)@, !f_s(old(self)@.flags)),
            final(self).wf(),
    {
        if !self.get_flag(Flag::S) {
            self.jmp();
        } else {
            self.pc = wadd16(self.pc, 2);
        }
    }

    /// `JPE a16`: jump if parity even.
    pub fn jpe(&mut self)
        requires
            old(self).wf(),
        ensures
            final(self)@ == s_jmp_if(old(self)@, f_p(old(self)@.flags)),
            final(self).wf(),
    {
        if self.get_flag(Flag::P) {
            self.jmp();
        } else {
            self.pc = wadd16(self.pc, 2);
        }
    }

    /// `JPO a16`: jump if parity odd.
    pub fn jpo(&mut self)
        requires
            old(self).wf(),
        ensures
            final(self)@ == s_jmp_if(old(self)@, !f_p(old(self)@.flags)),
            final(self).wf(),
    {
        if !self.get_flag(Flag::P) {
            self.jmp();
        } else {
            self.pc = wadd16(self.pc, 2);
        }
    }

    /// `CALL a16`.
    pub fn call(&mut self)
        requires
            old(self).wf(),
        ensures
            final(self)@ == s_call(old(self)@),
            final(self).wf(),
    {
        self.sp = wsub16(self.sp, 2);
        let ret_addr = wadd16(self.pc, 2);
        self.write_u16(self.sp, ret_addr);
        self.jmp();
    }

    /// `CC a16`: call if Carry.
    pub fn cc(&mut self)
        requires
            old(self).wf(),
        ensures
            final(self)@ == s_call_if(old(self)@, f_c(old(self)@.flags)),
            final(self).wf(),
    {
        if self.get_flag(Flag::C) {
            self.call();
        } else {
            self.pc = wadd16(self.pc, 2);
        }
    }

    /// `CNC a16`: call if not Carry.
    pub fn cnc(&mut self)
        requires
            old(self).wf(),
        ensures
            final(self)@ == s_call_if(old(self)@, !f_c(old(self)@.flags)),
            final(self).wf(),
    {
        if !self.get_flag(Flag::C) {
            self.call();
        } else {
            self.pc = wadd16(self.pc, 2);
        }
    }

    /// `CZ a16`: call if Zero.
    pub fn cz(&mut self)
        requires
            old(self).wf(),
        ensures
            final(self)@ == s_call_if(old(self)@, f_z(old(self)@.flags)),
            final(self).wf(),
    {
        if self.get_flag(Flag::Z) {
            self.call();
        } else {
            self.pc = wadd16(self.pc, 2);
        }
    }

    /// `CNZ a16`: call if not Zero.
    pub fn cnz(&mut self)
        requires
            old(self).wf(),
        ensures
            final(self)@ == s_call_if(old(self)@, !f_z(old(self)@.flags)),
            final(self).wf(),
    {
        if !self.get_flag(Flag::Z) {
            self.call();
        } else {
            self.pc = wadd16(self.pc, 2);
        }
    }

    /// `CM a16`: call if minus.
    pub fn cm(&mut self)
        requires
            old(self).wf(),
        ensures
            final(self)@ == s_call_if(old(self)@, f_s(old(self)@.flags)),
            final(self).wf(),
    {
        if self.get_flag(Flag::S) {
            self.call();
        } else {
            self.pc = wadd16(self.pc, 2);
        }
    }

    /// `CP a16`: call if plus.
    pub fn cp(&mut self)
        requires
            old(self).wf(),
        ensures
            final(self)@ == s_call_if(old(self)@, !f_s(old(self)@.flags)),
            final(self).wf(),
    {
        if !self.get_flag(Flag::S) {
            self.call();
        } else {
            self.pc = wadd16(self.pc, 2);
        }
    }

    /// `CPE a16`: call if parity even.
    pub fn cpe(&mut self)
        requires
            old(self).wf(),
        ensures
            final(self)@ == s_call_if(old(self)@, f_p(old(self)@.flags)),
            final(self).wf(),
    {
        if self.get_flag(Flag::P) {
            self.call();
        } else {
            self.pc = wadd16(self.pc, 2);
        }
    }

    /// `CPO a16`: call if parity odd.
    pub fn cpo(&mut self)
        requires
            old(self).wf(),
        ensures
            final(self)@ == s_call_if(old(self)@, !f_p(old(self)@.flags)),
            final(self).wf(),
    {
        if !self.get_flag(Flag::P) {
            self.call();
        } else {
            self.pc = wadd16(self.pc, 2);
        }
    }

    /// `RST n`.
    pub fn rst(&mut self, value: u8)
        requires
            old(self).wf(),
            value <= 7,
        ensures
            final(self)@ == s_rst(old(self)@, value),
            final(self).wf(),
    {
        self.sp = wsub16(self.sp, 2);
        let ret_addr = self.pc;
        self.write_u16(self.sp, ret_addr);
        self.pc = (value as u16) * 8;
    }
}

} // verus!
