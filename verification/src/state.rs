//! The processor state and its primitive accessors: registers, register
//! pairs, the flag byte, the memory bus and the instruction fetch helpers.
//!
//! The ghost record [`Cpu`] mirrors the machine word for word; every exec
//! operation on [`I8080`] states its full effect as an equation on that
//! record.

use vstd::prelude::*;
use crate::bytes::{w16, lo8, hi8, join16, count_ones, parity8, lemma_count_ones_le};
use crate::flags::{f_c, f_p, f_a, f_z, f_s, with_carry, sanitize_flags, szapc};

verus! {

/// One of the eight byte registers, `F` being the flag byte.
#[derive(Clone, Copy)]
pub enum Register {
    A,
    F,
    B,
    C,
    D,
    E,
    H,
    L,
}

/// A 16-bit register pair: `BC`, `DE`, `HL`, or the program status word
/// `(A, F)`.
#[derive(Clone, Copy)]
pub enum RegisterPair {
    B,
    D,
    H,
    PSW,
}

/// One of the five condition flags.
#[derive(Clone, Copy)]
pub enum Flag {
    C,
    P,
    A,
    Z,
    S,
}

/// The mathematical model of the whole machine: registers, flag byte,
/// control latches, cycle count, memory, input ports and the output latch.
#[verifier::ext_equal]
pub ghost struct Cpu {
    pub pc: u16,
    pub sp: u16,
    pub a: u8,
    pub b: u8,
    pub c: u8,
    pub d: u8,
    pub e: u8,
    pub h: u8,
    pub l: u8,
    pub flags: u8,
    pub cycles: nat,
    pub inte: bool,
    pub hlt: bool,
    pub pending: Option<u8>,
    pub mem: Seq<u8>,
    pub in_ports: Seq<u8>,
    pub out_latch: Option<(u8, u8)>,
}

/// A machine is well formed when it has at least one byte of memory (every
/// access wraps modulo the memory size) and one input latch per port.
pub open spec fn cpu_wf(s: Cpu) -> bool {
    s.mem.len() >= 1 && s.in_ports.len() == 256
}

/// The value of a byte register.
pub open spec fn reg_of(s: Cpu, r: Register) -> u8 {
    match r {
        Register::A => s.a,
        Register::F => s.flags,
        Register::B => s.b,
        Register::C => s.c,
        Register::D => s.d,
        Register::E => s.e,
        Register::H => s.h,
        Register::L => s.l,
    }
}

/// The machine with one byte register replaced.
pub open spec fn with_reg(s: Cpu, r: Register, v: u8) -> Cpu {
    match r {
        Register::A => Cpu { a: v, ..s },
        Register::F => Cpu { flags: v, ..s },
        Register::B => Cpu { b: v, ..s },
        Register::C => Cpu { c: v, ..s },
        Register::D => Cpu { d: v, ..s },
        Register::E => Cpu { e: v, ..s },
        Register::H => Cpu { h: v, ..s },
        Register::L => Cpu { l: v, ..s },
    }
}

/// The register that holds the high byte of a pair.
pub open spec fn pair_hi(s: Cpu, p: RegisterPair) -> u8 {
    match p {
        RegisterPair::B => s.b,
        RegisterPair::D => s.d,
        RegisterPair::H => s.h,
        RegisterPair::PSW => s.a,
    }
}

/// The register that holds the low byte of a pair.
pub open spec fn pair_lo(s: Cpu, p: RegisterPair) -> u8 {
    match p {
        RegisterPair::B => s.c,
        RegisterPair::D => s.e,
        RegisterPair::H => s.l,
        RegisterPair::PSW => s.flags,
    }
}

/// The machine with the two halves of a register pair replaced byte for
/// byte, high byte first. Unlike `with_pair`, a `PSW` write through the
/// bare halves does not mask the flag byte.
pub open spec fn with_pair_bytes(s: Cpu, p: RegisterPair, hi: u8, lo: u8) -> Cpu {
    match p {
        RegisterPair::B => Cpu { b: hi, c: lo, ..s },
        RegisterPair::D => Cpu { d: hi, e: lo, ..s },
        RegisterPair::H => Cpu { h: hi, l: lo, ..s },
        RegisterPair::PSW => Cpu { a: hi, flags: lo, ..s },
    }
}

/// The 16-bit value of a register pair, `high<<8 | low`.
pub open spec fn pair_of(s: Cpu, p: RegisterPair) -> u16 {
    match p {
        RegisterPair::B => join16(s.b, s.c),
        RegisterPair::D => join16(s.d, s.e),
        RegisterPair::H => join16(s.h, s.l),
        RegisterPair::PSW => join16(s.a, s.flags),
    }
}

/// The machine with one register pair replaced. A write to `PSW` forces the
/// flag half onto the flag layout: bit 1 set, bits 3 and 5 clear.
pub open spec fn with_pair(s: Cpu, p: RegisterPair, v: u16) -> Cpu {
    match p {
        RegisterPair::B => Cpu { b: hi8(v), c: lo8(v), ..s },
        RegisterPair::D => Cpu { d: hi8(v), e: lo8(v), ..s },
        RegisterPair::H => Cpu { h: hi8(v), l: lo8(v), ..s },
        RegisterPair::PSW => Cpu { a: hi8(v), flags: sanitize_flags(lo8(v)), ..s },
    }
}

/// The memory cell that a 16-bit address reaches: addresses wrap modulo the
/// memory size.
pub open spec fn mem_idx(m: Seq<u8>, a: u16) -> int {
    (a as int) % (m.len() as int)
}

/// The byte read from memory at a 16-bit address.
pub open spec fn mem_r(m: Seq<u8>, a: u16) -> u8 {
    m[mem_idx(m, a)]
}

/// The memory after one byte is written at a 16-bit address.
pub open spec fn mem_w(m: Seq<u8>, a: u16, v: u8) -> Seq<u8> {
    m.update(mem_idx(m, a), v)
}

/// The little-endian 16-bit value read from memory at an address.
pub open spec fn mem_r16(m: Seq<u8>, a: u16) -> u16 {
    join16(mem_r(m, w16(a + 1)), mem_r(m, a))
}

/// The memory after a little-endian 16-bit store at an address.
pub open spec fn mem_w16(m: Seq<u8>, a: u16, v: u16) -> Seq<u8> {
    mem_w(mem_w(m, a, lo8(v)), w16(a + 1), hi8(v))
}

/// The value of one condition flag of a flag byte.
pub open spec fn flag_of(f: u8, flag: Flag) -> bool {
    match flag {
        Flag::C => f_c(f),
        Flag::P => f_p(f),
        Flag::A => f_a(f),
        Flag::Z => f_z(f),
        Flag::S => f_s(f),
    }
}

/// The machine as created: everything zero, the flag byte holding only its
/// constant bit 1, interrupts disabled, memory cleared.
pub open spec fn init_cpu(memory_size: nat) -> Cpu {
    Cpu {
        pc: 0,
        sp: 0,
        a: 0,
        b: 0,
        c: 0,
        d: 0,
        e: 0,
        h: 0,
        l: 0,
        flags: 2,
        cycles: 0,
        inte: false,
        hlt: false,
        pending: None,
        mem: Seq::new(memory_size, |i: int| 0u8),
        in_ports: Seq::new(256, |i: int| 0u8),
        out_latch: None,
    }
}

/// The processor together with its memory and I/O latches. The fields are
/// public so that a host can inspect and seed the machine directly; the
/// verified methods only ever leave it in the states their contracts name.
pub struct I8080 {
    pub pc: u16,
    pub sp: u16,
    pub a: u8,
    pub b: u8,
    pub c: u8,
    pub d: u8,
    pub e: u8,
    pub h: u8,
    pub l: u8,
    pub flags: u8,
    pub cycles: u64,
    pub inte: bool,
    pub hlt: bool,
    pub pending: Option<u8>,
    pub memory: Vec<u8>,
    pub in_ports: Vec<u8>,
    pub out_latch: Option<(u8, u8)>,
}

impl View for I8080 {
    type V = Cpu;

    open spec fn view(&self) -> Cpu {
        Cpu {
            pc: self.pc,
            sp: self.sp,
            a: self.a,
            b: self.b,
            c: self.c,
            d: self.d,
            e: self.e,
            h: self.h,
            l: self.l,
            flags: self.flags,
            cycles: self.cycles as nat,
            inte: self.inte,
            hlt: self.hlt,
            pending: self.pending,
            mem: self.memory@,
            in_ports: self.in_ports@,
            out_latch: self.out_latch,
        }
    }
}

/// A 16-bit addition that wraps modulo 2^16.
pub fn wadd16(x: u16, n: u16) -> (r: u16)
    ensures
        r == w16(x as int + n as int),
{
    (((x as u32) + (n as u32)) % 0x10000) as u16
}

/// A 16-bit subtraction that wraps modulo 2^16.
pub fn wsub16(x: u16, n: u16) -> (r: u16)
    ensures
        r == w16(x as int - n as int),
{
    let r = (((x as u32) + 0x10000 - (n as u32)) % 0x10000) as u16;
    proof {
        vstd::arithmetic::div_mod::lemma_mod_add_multiples_vanish(
            x as int - n as int,
            0x10000,
        );
    }
    r
}

impl I8080 {
    /// The machine is well formed; every verified operation keeps this.
    pub open spec fn wf(&self) -> bool {
        cpu_wf(self@)
    }

    /// A fresh machine with the given memory size: registers and memory
    /// cleared, the flag byte holding its constant bit, interrupts disabled.
    pub fn new(memory_size: usize) -> (r: I8080)
        requires
            memory_size >= 1,
        ensures
            r@ == init_cpu(memory_size as nat),
            r.wf(),
    {
        let mut memory: Vec<u8> = Vec::new();
        while memory.len() < memory_size
            invariant
                memory@.len() <= memory_size,
                forall|i: int| 0 <= i < memory@.len() ==> memory@[i] == 0u8,
            decreases memory_size - memory@.len(),
        {
            memory.push(0);
        }
        let mut in_ports: Vec<u8> = Vec::new();
        while in_ports.len() < 256
            invariant
                in_ports@.len() <= 256,
                forall|i: int| 0 <= i < in_ports@.len() ==> in_ports@[i] == 0u8,
            decreases 256 - in_ports@.len(),
        {
            in_ports.push(0);
        }
        let r = I8080 {
            pc: 0,
            sp: 0,
            a: 0,
            b: 0,
            c: 0,
            d: 0,
            e: 0,
            h: 0,
            l: 0,
            flags: 2,
            cycles: 0,
            inte: false,
            hlt: false,
            pending: None,
            memory,
            in_ports,
            out_latch: None,
        };
        proof {
            assert(r@.mem =~= init_cpu(memory_size as nat).mem);
            assert(r@.in_ports =~= init_cpu(memory_size as nat).in_ports);
            assert(r@ =~= init_cpu(memory_size as nat));
        }
        r
    }

    /// The byte at a memory address; the address wraps modulo the memory
    /// size.
    pub fn read_u8(&self, location: u16) -> (r: u8)
        requires
            self.wf(),
        ensures
            r == mem_r(self@.mem, location),
    {
        let i: usize = (location as usize) % self.memory.len();
        self.memory[i]
    }

    /// Writes one byte of memory; the address wraps modulo the memory size.
    pub fn write_u8(&mut self, location: u16, value: u8)
        requires
            old(self).wf(),
        ensures
            final(self)@ == (Cpu { mem: mem_w(old(self)@.mem, location, value), ..old(self)@ }),
            final(self).wf(),
    {
        let i: usize = (location as usize) % self.memory.len();
        self.memory[i] = value;
    }

    /// The little-endian 16-bit value at a memory address.
    pub fn read_u16(&self, location: u16) -> (r: u16)
        requires
            self.wf(),
        ensures
            r == mem_r16(self@.mem, location),
    {
        let lo = self.read_u8(location);
        let hi = self.read_u8(wadd16(location, 1));
        (hi as u16) * 0x100 + (lo as u16)
    }

    /// Stores a 16-bit value little-endian at a memory address.
    pub fn write_u16(&mut self, location: u16, value: u16)
        requires
            old(self).wf(),
        ensures
            final(self)@ == (Cpu { mem: mem_w16(old(self)@.mem, location, value), ..old(self)@ }),
            final(self).wf(),
    {
        self.write_u8(location, (value % 0x100) as u8);
        let loc1 = wadd16(location, 1);
        self.write_u8(loc1, (value / 0x100) as u8);
    }

    /// The byte of memory that `HL` points to.
    pub fn read_m(&self) -> (r: u8)
        requires
            self.wf(),
        ensures
            r == mem_r(self@.mem, pair_of(self@, RegisterPair::H)),
    {
        let hl = self.get_register_pair(RegisterPair::H);
        self.read_u8(hl)
    }

    /// Writes the byte of memory that `HL` points to.
    pub fn write_m(&mut self, value: u8)
        requires
            old(self).wf(),
        ensures
            final(self)@ == (Cpu {
                mem: mem_w(old(self)@.mem, pair_of(old(self)@, RegisterPair::H), value),
                ..old(self)@
            }),
            final(self).wf(),
    {
        let hl = self.get_register_pair(RegisterPair::H);
        self.write_u8(hl, value);
    }

    /// Fetches the byte at `PC` and advances `PC` by one, wrapping.
    pub fn next_u8(&mut self) -> (r: u8)
        requires
            old(self).wf(),
        ensures
            r == mem_r(old(self)@.mem, old(self)@.pc),
            final(self)@ == (Cpu { pc: w16(old(self)@.pc + 1), ..old(self)@ }),
            final(self).wf(),
    {
        let value = self.read_u8(self.pc);
        self.pc = wadd16(self.pc, 1);
        value
    }

    /// Fetches the 16-bit value at `PC` and advances `PC` by two, wrapping.
    pub fn next_u16(&mut self) -> (r: u16)
        requires
            old(self).wf(),
        ensures
            r == mem_r16(old(self)@.mem, old(self)@.pc),
            final(self)@ == (Cpu { pc: w16(old(self)@.pc + 2), ..old(self)@ }),
            final(self).wf(),
    {
        let value = self.read_u16(self.pc);
        self.pc = wadd16(self.pc, 2);
        value
    }

    /// A borrow of the field that backs a byte register.
    pub fn register_to_ref(&self, register: Register) -> (r: &u8)
        ensures
            *r == reg_of(self@, register),
    {
        match register {
            Register::A => &self.a,
            Register::F => &self.flags,
            Register::B => &self.b,
            Register::C => &self.c,
            Register::D => &self.d,
            Register::E => &self.e,
            Register::H => &self.h,
            Register::L => &self.l,
        }
    }

    /// A mutable borrow of the field that backs a byte register: writing
    /// through it replaces exactly that register.
    pub fn register_to_mut_ref(&mut self, register: Register) -> (r: &mut u8)
        ensures
            *r == reg_of(old(self)@, register),
            final(self)@ == with_reg(old(self)@, register, *final(r)),
    {
        match register {
            Register::A => &mut self.a,
            Register::F => &mut self.flags,
            Register::B => &mut self.b,
            Register::C => &mut self.c,
            Register::D => &mut self.d,
            Register::E => &mut self.e,
            Register::H => &mut self.h,
            Register::L => &mut self.l,
        }
    }

    /// The value of a byte register.
    pub fn get_register(&self, register: Register) -> (r: u8)
        ensures
            r == reg_of(self@, register),
    {
        *self.register_to_ref(register)
    }

    /// Replaces the value of a byte register.
    pub fn set_register(&mut self, register: Register, value: u8)
        ensures
            final(self)@ == with_reg(old(self)@, register, value),
    {
        *self.register_to_mut_ref(register) = value;
    }

    /// Borrows of the two registers of a pair, high byte first.
    pub fn register_pair_to_refs(&self, pair: RegisterPair) -> (r: (&u8, &u8))
        ensures
            *r.0 == pair_hi(self@, pair),
            *r.1 == pair_lo(self@, pair),
    {
        match pair {
            RegisterPair::B => (&self.b, &self.c),
            RegisterPair::D => (&self.d, &self.e),
            RegisterPair::H => (&self.h, &self.l),
            RegisterPair::PSW => (&self.a, &self.flags),
        }
    }

    /// Mutable borrows of the two registers of a pair, high byte first:
    /// writing through them replaces exactly those registers.
    pub fn register_pair_to_mut_refs(&mut self, pair: RegisterPair) -> (r: (&mut u8, &mut u8))
        ensures
            *r.0 == pair_hi(old(self)@, pair),
            *r.1 == pair_lo(old(self)@, pair),
            final(self)@ == with_pair_bytes(old(self)@, pair, *final(r.0), *final(r.1)),
    {
        match pair {
            RegisterPair::B => (&mut self.b, &mut self.c),
            RegisterPair::D => (&mut self.d, &mut self.e),
            RegisterPair::H => (&mut self.h, &mut self.l),
            RegisterPair::PSW => (&mut self.a, &mut self.flags),
        }
    }

    /// The 16-bit value of a register pair.
    pub fn get_register_pair(&self, pair: RegisterPair) -> (r: u16)
        ensures
            r == pair_of(self@, pair),
    {
        let (high, low) = self.register_pair_to_refs(pair);
        (*high as u16) * 0x100 + (*low as u16)
    }

    /// Replaces a register pair with a 16-bit value, high byte to the first
    /// register. A write to `PSW` forces the flag half onto the flag layout.
    pub fn set_register_pair(&mut self, pair: RegisterPair, value: u16)
        ensures
            final(self)@ == with_pair(old(self)@, pair, value),
    {
        let high = (value / 0x100) as u8;
        let low = (value % 0x100) as u8;
        match pair {
            RegisterPair::B => {
                self.b = high;
                self.c = low;
            },
            RegisterPair::D => {
                self.d = high;
                self.e = low;
            },
            RegisterPair::H => {
                self.h = high;
                self.l = low;
            },
            RegisterPair::PSW => {
                self.a = high;
                self.flags = crate::flags::sanitized(low);
            },
        }
    }

    /// The carry flag as the number 0 or 1.
    pub fn get_carry(&self) -> (r: u8)
        ensures
            r == if f_c(self@.flags) {
                1u8
            } else {
                0u8
            },
    {
        self.flags % 2
    }

    /// Replaces the carry flag with the number 0 or 1.
    pub fn set_carry(&mut self, value: u8)
        requires
            value <= 1,
        ensures
            final(self)@ == (Cpu {
                flags: with_carry(old(self)@.flags, value == 1),
                ..old(self)@
            }),
    {
        self.flags = self.flags / 2 * 2 + value;
    }

    /// The value of one condition flag.
    pub fn get_flag(&self, flag: Flag) -> (r: bool)
        ensures
            r == flag_of(self@.flags, flag),
    {
        match flag {
            Flag::C => self.flags % 2 == 1,
            Flag::P => (self.flags / 4) % 2 == 1,
            Flag::A => (self.flags / 16) % 2 == 1,
            Flag::Z => (self.flags / 64) % 2 == 1,
            Flag::S => (self.flags / 128) % 2 == 1,
        }
    }

    /// Even parity of a byte: true when the number of set bits is even.
    pub fn parity(value: u8) -> (r: bool)
        ensures
            r == parity8(value),
    {
        proof {
            lemma_count_ones_le(value);
        }
        let mut v: u8 = value;
        let mut sum: u8 = 0;
        while v > 0
            invariant
                sum as nat + count_ones(v) == count_ones(value),
                count_ones(value) <= value,
            decreases v,
        {
            sum = sum + v % 2;
            v = v / 2;
        }
        sum % 2 == 0
    }

    /// Sets Sign, Zero and Parity from the low byte of a result computed in
    /// at least 9 bits, Carry from its 9th bit, and Auxiliary-carry from the
    /// operation's own carry out of bit 3.
    pub fn set_flags(&mut self, value: u16, aux: bool)
        ensures
            final(self)@ == (Cpu {
                flags: szapc(lo8(value), aux, value > 0xFF),
                ..old(self)@
            }),
    {
        let res = (value % 0x100) as u8;
        let p = Self::parity(res);
        self.flags = crate::flags::flags_byte(res >= 0x80, res == 0, aux, p, value > 0xFF);
    }

    /// Sets Sign, Zero and Parity from an 8-bit result and Auxiliary-carry
    /// from the operation, leaving Carry as it was.
    pub fn set_flags_without_carry(&mut self, value: u8, aux: bool)
        ensures
            final(self)@ == (Cpu {
                flags: szapc(value, aux, f_c(old(self)@.flags)),
                ..old(self)@
            }),
    {
        let p = Self::parity(value);
        let c = self.flags % 2 == 1;
        self.flags = crate::flags::flags_byte(value >= 0x80, value == 0, aux, p, c);
    }

    /// Copies a block of bytes into memory at an offset; the block must fit.
    pub fn load(&mut self, data: &Vec<u8>, offset: u16)
        requires
            old(self).wf(),
            offset as int + data@.len() <= old(self)@.mem.len(),
        ensures
            final(self).wf(),
            final(self)@ == (Cpu { mem: final(self)@.mem, ..old(self)@ }),
            final(self)@.mem.len() == old(self)@.mem.len(),
            forall|k: int|
                0 <= k < data@.len() ==> final(self)@.mem[offset as int + k] == data@[k],
            forall|i: int|
                0 <= i < old(self)@.mem.len() && !(offset as int <= i < offset as int
                    + data@.len()) ==> final(self)@.mem[i] == old(self)@.mem[i],
    {
        let mut k: usize = 0;
        while k < data.len()
            invariant
                old(self).wf(),
                k <= data@.len(),
                offset as int + data@.len() <= old(self)@.mem.len(),
                self@ == (Cpu { mem: self@.mem, ..old(self)@ }),
                self@.mem.len() == old(self)@.mem.len(),
                forall|j: int| 0 <= j < k ==> self@.mem[offset as int + j] == data@[j],
                forall|i: int|
                    0 <= i < old(self)@.mem.len() && !(offset as int <= i < offset as int
                        + k) ==> self@.mem[i] == old(self)@.mem[i],
            decreases data@.len() - k,
        {
            proof {
                assert(self@.mem.len() == self.memory.len());
            }
            let i: usize = (offset as usize) + k;
            self.memory[i] = data[k];
            k = k + 1;
        }
    }
}

} // verus!
