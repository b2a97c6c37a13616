//! Directed tests of the individual instructions and register helpers.

use i8080::{Flag, I8080, Register, RegisterPair};

const TESTS_DEFAULT_MEMORY_SIZE: usize = 1024;
const TESTS_DEFAULT_SP: u16 = TESTS_DEFAULT_MEMORY_SIZE as u16 / 2;

fn fresh() -> I8080 {
    let mut cpu = I8080::new(TESTS_DEFAULT_MEMORY_SIZE);
    cpu.sp = TESTS_DEFAULT_SP;
    cpu
}

fn fresh_with(bytes: &[u8]) -> I8080 {
    let mut cpu = fresh();
    for (index, byte) in bytes.iter().enumerate() {
        cpu.memory[index] = *byte;
    }
    cpu
}

#[test]
fn set_register_pair() {
    let mut i8080 = fresh();
    i8080.set_register_pair(RegisterPair::H, 0x1234);
    assert_eq!(i8080.h, 0x12);
    assert_eq!(i8080.l, 0x34);
}

#[test]
fn parity() {
    assert_eq!(I8080::parity(26), false);
    assert_eq!(I8080::parity(10), true);
}

#[test]
fn lxi() {
    let mut i8080 = fresh_with(&[0x3, 0x1]);
    i8080.lxi(RegisterPair::H);
    assert_eq!(i8080.h, 0x1);
    assert_eq!(i8080.l, 0x3);
}

#[test]
fn lxi_sp() {
    let mut i8080 = fresh_with(&[0xBC, 0x3A]);
    i8080.lxi_sp();
    assert_eq!(i8080.sp, 0x3ABC);
}

#[test]
fn pop() {
    let mut i8080 = fresh();
    i8080.write_u8(i8080.sp, 0x3D);
    i8080.write_u8(i8080.sp + 1, 0x93);
    i8080.pop(RegisterPair::H);
    assert_eq!(i8080.h, 0x93);
    assert_eq!(i8080.l, 0x3D);
    assert_eq!(i8080.sp, TESTS_DEFAULT_SP + 2);
}

#[test]
fn push() {
    let mut i8080 = fresh();
    i8080.d = 0x8F;
    i8080.e = 0x9D;
    i8080.push(RegisterPair::D);
    assert_eq!(i8080.d, 0x8F);
    assert_eq!(i8080.e, 0x9D);
    assert_eq!(i8080.sp, TESTS_DEFAULT_SP - 2);
    assert_eq!(i8080.read_u8(i8080.sp), 0x9D);
    assert_eq!(i8080.read_u8(i8080.sp + 1), 0x8F);
}

#[test]
fn shld() {
    let mut i8080 = fresh_with(&[0xA, 0x1]);
    i8080.h = 0xAE;
    i8080.l = 0x29;
    i8080.shld();
    assert_eq!(i8080.read_u8(0x10A), 0x29);
    assert_eq!(i8080.read_u8(0x10B), 0xAE);
}

#[test]
fn lhld() {
    let mut i8080 = fresh_with(&[0x5B, 0x2]);
    i8080.write_u8(0x25B, 0xFF);
    i8080.write_u8(0x25C, 0x03);
    i8080.lhld();
    assert_eq!(i8080.l, 0xFF);
    assert_eq!(i8080.h, 0x03);
}

#[test]
fn xthl() {
    let mut i8080 = fresh();
    i8080.write_u8(i8080.sp, 0xF0);
    i8080.write_u8(i8080.sp + 1, 0x0D);
    i8080.h = 0x0B;
    i8080.l = 0x3C;
    i8080.xthl();
    assert_eq!(i8080.read_u8(i8080.sp), 0x3C);
    assert_eq!(i8080.read_u8(i8080.sp + 1), 0x0B);
    assert_eq!(i8080.h, 0x0D);
    assert_eq!(i8080.l, 0xF0);
}

#[test]
fn sphl() {
    let mut i8080 = fresh();
    i8080.h = 0x50;
    i8080.l = 0x6C;
    i8080.sphl();
    assert_eq!(i8080.sp, 0x506C);
}

#[test]
fn xchg() {
    let mut i8080 = fresh();
    i8080.d = 0x33;
    i8080.e = 0x55;
    i8080.h = 0x00;
    i8080.l = 0xFF;
    i8080.xchg();
    assert_eq!(i8080.d, 0x00);
    assert_eq!(i8080.e, 0xFF);
    assert_eq!(i8080.h, 0x33);
    assert_eq!(i8080.l, 0x55);
}

#[test]
fn stax() {
    let mut i8080 = fresh();
    i8080.a = 0xCC;
    i8080.b = 0x02;
    i8080.c = 0x16;
    i8080.stax(RegisterPair::B);
    assert_eq!(i8080.read_u8(0x0216), i8080.a);
}

#[test]
fn ldax() {
    let mut i8080 = fresh();
    i8080.write_u8(0x0216, 0xCC);
    i8080.d = 0x02;
    i8080.e = 0x16;
    i8080.ldax(RegisterPair::D);
    assert_eq!(i8080.read_u8(0x0216), i8080.a);
}

#[test]
fn mvi() {
    let mut i8080 = fresh_with(&[0x02, 0x34, 0xCC]);
    i8080.mvi(Register::H);
    assert_eq!(i8080.get_register(Register::H), 0x02);
    i8080.mvi(Register::L);
    assert_eq!(i8080.get_register(Register::L), 0x34);
    i8080.mvi_m();
    assert_eq!(i8080.read_u8(0x0234), 0xCC);
}

#[test]
fn mvi_m() {
    let mut i8080 = fresh_with(&[0xCC]);
    let location = 0x0234;
    i8080.set_register_pair(RegisterPair::H, location);
    i8080.mvi_m();
    assert_eq!(i8080.read_u8(location), 0xCC);
}

#[test]
fn sta() {
    let mut i8080 = fresh_with(&[0x34, 0x02]);
    i8080.set_register(Register::A, 0x12);
    i8080.sta();
    assert_eq!(i8080.get_register(Register::A), i8080.read_u8(0x0234));
}

#[test]
fn lda() {
    let mut i8080 = fresh_with(&[0x00, 0x03]);
    i8080.write_u8(0x300, 0xFE);
    i8080.lda();
    assert_eq!(i8080.get_register(Register::A), i8080.read_u8(0x300));
}

#[test]
fn mov() {
    let mut i8080 = fresh();
    i8080.set_register(Register::A, 0x13);
    i8080.mov(Register::D, Register::A);
    assert_eq!(i8080.get_register(Register::D), i8080.get_register(Register::A));
}

#[test]
fn mov_m() {
    let mut i8080 = fresh();
    i8080.set_register(Register::A, 0x13);
    i8080.set_register_pair(RegisterPair::H, 0x0300);
    i8080.mov_m(Register::A);
    assert_eq!(i8080.get_register(Register::A), i8080.read_u8(0x300));
}

#[test]
fn inr() {
    let mut i8080 = fresh();
    i8080.set_register(Register::A, 0b10100010);
    i8080.inr(Register::A);
    assert_eq!(i8080.get_register(Register::A), 0b10100011);
    assert_eq!(i8080.get_flag(Flag::S), true);
    assert_eq!(i8080.get_flag(Flag::Z), false);
    assert_eq!(i8080.get_flag(Flag::A), false);
    assert_eq!(i8080.get_flag(Flag::P), true);
}

#[test]
fn inr_m() {
    let mut i8080 = fresh();
    let location = 0x300;
    i8080.write_u8(location, 0b10100010);
    i8080.set_register_pair(RegisterPair::H, location);
    i8080.inr_m();
    assert_eq!(i8080.read_u8(location), 0b10100011);
    assert_eq!(i8080.get_flag(Flag::S), true);
    assert_eq!(i8080.get_flag(Flag::Z), false);
    assert_eq!(i8080.get_flag(Flag::A), false);
    assert_eq!(i8080.get_flag(Flag::P), true);
}

#[test]
fn dcr() {
    let mut i8080 = fresh();
    i8080.set_register(Register::A, 0b10000000);
    i8080.dcr(Register::A);
    assert_eq!(i8080.get_register(Register::A), 0b01111111);
    assert_eq!(i8080.get_flag(Flag::S), false);
    assert_eq!(i8080.get_flag(Flag::Z), false);
    assert_eq!(i8080.get_flag(Flag::A), true);
    assert_eq!(i8080.get_flag(Flag::P), false);
}

#[test]
fn dcr_m() {
    let mut i8080 = fresh();
    let location = 0x300;
    i8080.write_u8(location, 0b10000000);
    i8080.set_register_pair(RegisterPair::H, location);
    i8080.dcr_m();
    assert_eq!(i8080.read_u8(location), 0b01111111);
    assert_eq!(i8080.get_flag(Flag::S), false);
    assert_eq!(i8080.get_flag(Flag::Z), false);
    assert_eq!(i8080.get_flag(Flag::A), true);
    assert_eq!(i8080.get_flag(Flag::P), false);
}

#[test]
fn rlc() {
    let mut i8080 = fresh();
    i8080.set_register(Register::A, 0b11110010);
    i8080.rlc();
    assert_eq!(i8080.a, 0b11100101);
    assert_eq!(i8080.get_flag(Flag::C), true);
    i8080.set_register(Register::A, 0b01100111);
    i8080.rlc();
    assert_eq!(i8080.a, 0b11001110);
    assert_eq!(i8080.get_flag(Flag::C), false);
}

#[test]
fn ral() {
    let mut i8080 = fresh();
    i8080.set_register(Register::A, 0b10110101);
    i8080.ral();
    assert_eq!(i8080.a, 0b01101010);
    assert_eq!(i8080.get_flag(Flag::C), true);
    i8080.ral();
    assert_eq!(i8080.a, 0b11010101);
    assert_eq!(i8080.get_flag(Flag::C), false);
}

#[test]
fn rrc() {
    let mut i8080 = fresh();
    i8080.set_register(Register::A, 0b11110010);
    i8080.rrc();
    assert_eq!(i8080.a, 0b01111001);
    assert_eq!(i8080.get_flag(Flag::C), false);
    i8080.rrc();
    assert_eq!(i8080.a, 0b10111100);
    assert_eq!(i8080.get_flag(Flag::C), true);
}

#[test]
fn rar() {
    let mut i8080 = fresh();
    i8080.set_register(Register::A, 0b01101010);
    i8080.set_carry(1);
    i8080.rar();
    assert_eq!(i8080.a, 0b10110101);
    assert_eq!(i8080.get_flag(Flag::C), false);
    i8080.rar();
    assert_eq!(i8080.a, 0b01011010);
    assert_eq!(i8080.get_flag(Flag::C), true);
}

#[test]
fn stc() {
    let mut i8080 = fresh();
    i8080.stc();
    assert_eq!(i8080.get_flag(Flag::C), true);
}

#[test]
fn cmc() {
    let mut i8080 = fresh();
    i8080.flags = 0b11000110;
    i8080.stc();
    assert_eq!(i8080.flags, 0b11000111);
}

#[test]
fn cma() {
    let mut i8080 = fresh();
    i8080.a = 0b01010001;
    i8080.cma();
    assert_eq!(i8080.a, 0b10101110);
}

#[test]
fn daa() {
    let mut i8080 = fresh();
    i8080.a = 0b10011011;
    i8080.daa();
    assert_eq!(i8080.a, 1);
    assert_eq!(i8080.get_flag(Flag::A), true);
    assert_eq!(i8080.get_flag(Flag::C), true);
}

#[test]
fn add() {
    let mut i8080 = fresh();
    i8080.d = 0x2E;
    i8080.a = 0x6C;
    i8080.add(Register::D);
    assert_eq!(i8080.a, 0x9A);
    assert_eq!(i8080.get_flag(Flag::Z), false);
    assert_eq!(i8080.get_flag(Flag::C), false);
    assert_eq!(i8080.get_flag(Flag::P), true);
    assert_eq!(i8080.get_flag(Flag::S), true);
    assert_eq!(i8080.get_flag(Flag::A), true);
}

#[test]
fn add_m() {
    let mut i8080 = fresh();
    let location = 0x300;
    i8080.write_u8(location, 0x2E);
    i8080.set_register_pair(RegisterPair::H, location);
    i8080.a = 0x6C;
    i8080.add_m();
    assert_eq!(i8080.a, 0x9A);
    assert_eq!(i8080.get_flag(Flag::Z), false);
    assert_eq!(i8080.get_flag(Flag::C), false);
    assert_eq!(i8080.get_flag(Flag::P), true);
    assert_eq!(i8080.get_flag(Flag::S), true);
    assert_eq!(i8080.get_flag(Flag::A), true);
}

#[test]
fn adc() {
    let mut i8080 = fresh();
    i8080.set_carry(1);
    i8080.c = 0x3D;
    i8080.a = 0x42;
    i8080.adc(Register::C);
    assert_eq!(i8080.a, 0x80);
    assert_eq!(i8080.get_flag(Flag::Z), false);
    assert_eq!(i8080.get_flag(Flag::C), false);
    assert_eq!(i8080.get_flag(Flag::P), false);
    assert_eq!(i8080.get_flag(Flag::S), true);
    assert_eq!(i8080.get_flag(Flag::A), true);
}

#[test]
fn adc_m() {
    let mut i8080 = fresh();
    let location = 0x300;
    i8080.write_u8(location, 0x3D);
    i8080.set_register_pair(RegisterPair::H, location);
    i8080.set_carry(1);
    i8080.a = 0x42;
    i8080.adc_m();
    assert_eq!(i8080.a, 0x80);
    assert_eq!(i8080.get_flag(Flag::Z), false);
    assert_eq!(i8080.get_flag(Flag::C), false);
    assert_eq!(i8080.get_flag(Flag::P), false);
    assert_eq!(i8080.get_flag(Flag::S), true);
    assert_eq!(i8080.get_flag(Flag::A), true);
}

#[test]
fn sub() {
    let mut i8080 = fresh();
    i8080.a = 0x3E;
    i8080.sub(Register::A);
    assert_eq!(i8080.a, 0x0);
    assert_eq!(i8080.get_flag(Flag::Z), true);
    assert_eq!(i8080.get_flag(Flag::C), false);
    assert_eq!(i8080.get_flag(Flag::P), true);
    assert_eq!(i8080.get_flag(Flag::S), false);
}

#[test]
fn sub_m() {
    let mut i8080 = fresh();
    let location = 0x300;
    i8080.write_u8(location, 0x3E);
    i8080.set_register_pair(RegisterPair::H, location);
    i8080.a = 0x3E;
    i8080.sub_m();
    assert_eq!(i8080.a, 0x0);
    assert_eq!(i8080.get_flag(Flag::Z), true);
    assert_eq!(i8080.get_flag(Flag::C), false);
    assert_eq!(i8080.get_flag(Flag::P), true);
    assert_eq!(i8080.get_flag(Flag::S), false);
}

#[test]
fn sbb() {
    let mut i8080 = fresh();
    i8080.set_carry(1);
    i8080.l = 0x02;
    i8080.a = 0x04;
    i8080.sbb(Register::L);
    assert_eq!(i8080.a, 0x01);
    assert_eq!(i8080.get_flag(Flag::Z), false);
    assert_eq!(i8080.get_flag(Flag::C), false);
    assert_eq!(i8080.get_flag(Flag::P), false);
    assert_eq!(i8080.get_flag(Flag::S), false);
}

#[test]
fn sbb_m() {
    let mut i8080 = fresh();
    let location = 0x300;
    i8080.write_u8(location, 0x02);
    i8080.set_register_pair(RegisterPair::H, location);
    i8080.set_carry(1);
    i8080.a = 0x04;
    i8080.sbb_m();
    assert_eq!(i8080.a, 0x01);
    assert_eq!(i8080.get_flag(Flag::Z), false);
    assert_eq!(i8080.get_flag(Flag::C), false);
    assert_eq!(i8080.get_flag(Flag::P), false);
    assert_eq!(i8080.get_flag(Flag::S), false);
}

#[test]
fn ana() {
    let mut i8080 = fresh();
    i8080.a = 0xFC;
    i8080.c = 0x0F;
    i8080.ana(Register::C);
    assert_eq!(i8080.a, 0x0C);
    assert_eq!(i8080.get_flag(Flag::Z), false);
    assert_eq!(i8080.get_flag(Flag::C), false);
    assert_eq!(i8080.get_flag(Flag::P), true);
    assert_eq!(i8080.get_flag(Flag::S), false);
}

#[test]
fn ana_m() {
    let mut i8080 = fresh();
    let location = 0x300;
    i8080.write_u8(location, 0x0F);
    i8080.set_register_pair(RegisterPair::H, location);
    i8080.a = 0xFC;
    i8080.ana_m();
    assert_eq!(i8080.a, 0x0C);
    assert_eq!(i8080.get_flag(Flag::Z), false);
    assert_eq!(i8080.get_flag(Flag::C), false);
    assert_eq!(i8080.get_flag(Flag::P), true);
    assert_eq!(i8080.get_flag(Flag::S), false);
}

#[test]
fn xra() {
    let mut i8080 = fresh();
    i8080.a = 0b10110001;
    i8080.b = 0b11010110;
    i8080.xra(Register::B);
    assert_eq!(i8080.a, 0b01100111);
    assert_eq!(i8080.get_flag(Flag::Z), false);
    assert_eq!(i8080.get_flag(Flag::C), false);
    assert_eq!(i8080.get_flag(Flag::P), false);
    assert_eq!(i8080.get_flag(Flag::S), false);
}

#[test]
fn xra_m() {
    let mut i8080 = fresh();
    let location = 0x300;
    i8080.write_u8(location, 0b11010110);
    i8080.set_register_pair(RegisterPair::H, location);
    i8080.a = 0b10110001;
    i8080.xra_m();
    assert_eq!(i8080.a, 0b01100111);
    assert_eq!(i8080.get_flag(Flag::Z), false);
    assert_eq!(i8080.get_flag(Flag::C), false);
    assert_eq!(i8080.get_flag(Flag::P), false);
    assert_eq!(i8080.get_flag(Flag::S), false);
}

#[test]
fn ora() {
    let mut i8080 = fresh();
    i8080.a = 0x33;
    i8080.c = 0x0F;
    i8080.ora(Register::C);
    assert_eq!(i8080.a, 0x3F);
    assert_eq!(i8080.get_flag(Flag::Z), false);
    assert_eq!(i8080.get_flag(Flag::C), false);
    assert_eq!(i8080.get_flag(Flag::P), true);
    assert_eq!(i8080.get_flag(Flag::S), false);
}

#[test]
fn ora_m() {
    let mut i8080 = fresh();
    let location = 0x300;
    i8080.write_u8(location, 0x0F);
    i8080.set_register_pair(RegisterPair::H, location);
    i8080.a = 0x33;
    i8080.ora_m();
    assert_eq!(i8080.a, 0x3F);
    assert_eq!(i8080.get_flag(Flag::Z), false);
    assert_eq!(i8080.get_flag(Flag::C), false);
    assert_eq!(i8080.get_flag(Flag::P), true);
    assert_eq!(i8080.get_flag(Flag::S), false);
}

#[test]
fn cmp() {
    let mut i8080 = fresh();
    i8080.a = 0x0A;
    i8080.e = 0x05;
    i8080.cmp(Register::E);
    assert_eq!(i8080.a, 0x0A);
    assert_eq!(i8080.e, 0x05);
    assert_eq!(i8080.get_flag(Flag::Z), false);
    assert_eq!(i8080.get_flag(Flag::C), false);
    assert_eq!(i8080.get_flag(Flag::P), true);
    assert_eq!(i8080.get_flag(Flag::S), false);

    i8080.a = 0x02;
    i8080.e = 0x05;
    i8080.cmp(Register::E);
    assert_eq!(i8080.a, 0x02);
    assert_eq!(i8080.e, 0x05);
    assert_eq!(i8080.get_flag(Flag::Z), false);
    assert_eq!(i8080.get_flag(Flag::C), true);
    assert_eq!(i8080.get_flag(Flag::P), false);
    assert_eq!(i8080.get_flag(Flag::S), true);

    i8080.a = 0b11100101;
    i8080.e = 0x05;
    i8080.cmp(Register::E);
    assert_eq!(i8080.a, 0b11100101);
    assert_eq!(i8080.e, 0x05);
    assert_eq!(i8080.get_flag(Flag::Z), false);
    assert_eq!(i8080.get_flag(Flag::C), false);
    assert_eq!(i8080.get_flag(Flag::P), false);
    assert_eq!(i8080.get_flag(Flag::S), true);
}

#[test]
fn cmp_m() {
    let mut i8080 = fresh();
    let location = 0x300;
    i8080.write_u8(location, 0x05);
    i8080.set_register_pair(RegisterPair::H, location);
    i8080.a = 0x02;
    i8080.cmp_m();
    assert_eq!(i8080.read_u8(location), 0x05);
    assert_eq!(i8080.a, 0x02);
    assert_eq!(i8080.get_flag(Flag::Z), false);
    assert_eq!(i8080.get_flag(Flag::C), true);
    assert_eq!(i8080.get_flag(Flag::P), false);
    assert_eq!(i8080.get_flag(Flag::S), true);
}

#[test]
fn adi() {
    let mut i8080 = fresh_with(&[0x42]);
    i8080.a = 0x14;
    i8080.adi();
    assert_eq!(i8080.a, 0x56);
    assert_eq!(i8080.get_flag(Flag::Z), false);
    assert_eq!(i8080.get_flag(Flag::C), false);
    assert_eq!(i8080.get_flag(Flag::P), true);
    assert_eq!(i8080.get_flag(Flag::S), false);
}

#[test]
fn aci() {
    let mut i8080 = fresh_with(&[0x42]);
    i8080.a = 0x14;
    i8080.set_carry(1);
    i8080.aci();
    assert_eq!(i8080.a, 0x57);
    assert_eq!(i8080.get_flag(Flag::Z), false);
    assert_eq!(i8080.get_flag(Flag::C), false);
    assert_eq!(i8080.get_flag(Flag::P), false);
    assert_eq!(i8080.get_flag(Flag::S), false);
}

#[test]
fn sui() {
    let mut i8080 = fresh_with(&[0x1]);
    i8080.a = 0x00;
    i8080.sui();
    assert_eq!(i8080.a, 0xFF);
    assert_eq!(i8080.get_flag(Flag::Z), false);
    assert_eq!(i8080.get_flag(Flag::C), true);
    assert_eq!(i8080.get_flag(Flag::P), true);
    assert_eq!(i8080.get_flag(Flag::S), true);
}

#[test]
fn sbi() {
    let mut i8080 = fresh_with(&[0x1]);
    i8080.a = 0x00;
    i8080.set_carry(1);
    i8080.sbi();
    assert_eq!(i8080.a, 0xFE);
    assert_eq!(i8080.get_flag(Flag::Z), false);
    assert_eq!(i8080.get_flag(Flag::C), true);
    assert_eq!(i8080.get_flag(Flag::P), false);
    assert_eq!(i8080.get_flag(Flag::S), true);
}

#[test]
fn ani() {
    let mut i8080 = fresh_with(&[0x0F]);
    i8080.a = 0x3A;
    i8080.ani();
    assert_eq!(i8080.a, 0x0A);
    assert_eq!(i8080.get_flag(Flag::Z), false);
    assert_eq!(i8080.get_flag(Flag::C), false);
    assert_eq!(i8080.get_flag(Flag::P), true);
    assert_eq!(i8080.get_flag(Flag::S), false);
}

#[test]
fn xri() {
    let mut i8080 = fresh_with(&[0x81]);
    i8080.a = 0x3B;
    i8080.xri();
    assert_eq!(i8080.a, 0b10111010);
    assert_eq!(i8080.get_flag(Flag::Z), false);
    assert_eq!(i8080.get_flag(Flag::C), false);
    assert_eq!(i8080.get_flag(Flag::P), false);
    assert_eq!(i8080.get_flag(Flag::S), true);
}

#[test]
fn ori() {
    let mut i8080 = fresh_with(&[0x0F]);
    i8080.a = 0xB5;
    i8080.ori();
    assert_eq!(i8080.a, 0xBF);
    assert_eq!(i8080.get_flag(Flag::Z), false);
    assert_eq!(i8080.get_flag(Flag::C), false);
    assert_eq!(i8080.get_flag(Flag::P), false);
    assert_eq!(i8080.get_flag(Flag::S), true);
}

#[test]
fn cpi() {
    let mut i8080 = fresh_with(&[0x40]);
    i8080.a = 0x4A;
    i8080.cpi();
    assert_eq!(i8080.a, 0x4A);
    assert_eq!(i8080.get_flag(Flag::Z), false);
    assert_eq!(i8080.get_flag(Flag::C), false);
    assert_eq!(i8080.get_flag(Flag::P), true);
    assert_eq!(i8080.get_flag(Flag::S), false);
}

#[test]
fn inx() {
    let mut i8080 = fresh();
    i8080.d = 0x38;
    i8080.e = 0xFF;
    i8080.inx(RegisterPair::D);
    assert_eq!(i8080.d, 0x39);
    assert_eq!(i8080.e, 0x00);
}

#[test]
fn inx_sp() {
    let mut i8080 = fresh();
    i8080.sp = 0xFFFF;
    i8080.inx_sp();
    assert_eq!(i8080.sp, 0);
}

#[test]
fn dcx() {
    let mut i8080 = fresh();
    i8080.h = 0x98;
    i8080.l = 0x00;
    i8080.dcx(RegisterPair::H);
    assert_eq!(i8080.h, 0x97);
    assert_eq!(i8080.l, 0xFF);
}

#[test]
fn dcx_sp() {
    let mut i8080 = fresh();
    i8080.sp = 0xFFFF;
    i8080.dcx_sp();
    assert_eq!(i8080.sp, 0xFFFE);
}

#[test]
fn dad() {
    let mut i8080 = fresh();
    i8080.set_register_pair(RegisterPair::B, 0x339F);
    i8080.set_register_pair(RegisterPair::H, 0xA17B);
    i8080.dad(RegisterPair::B);
    assert_eq!(i8080.get_register_pair(RegisterPair::H), 0xD51A);
    assert_eq!(i8080.get_flag(Flag::C), false);

    i8080.set_register_pair(RegisterPair::B, 0xFFDD);
    i8080.set_register_pair(RegisterPair::H, 0x0123);
    i8080.dad(RegisterPair::B);
    assert_eq!(i8080.get_register_pair(RegisterPair::H), 0x0100);
    assert_eq!(i8080.get_flag(Flag::C), true);

    i8080.sp = 0x1232;
    i8080.dad_sp();
    assert_eq!(i8080.get_register_pair(RegisterPair::H), 0x1332);
    assert_eq!(i8080.get_flag(Flag::C), false);
}
