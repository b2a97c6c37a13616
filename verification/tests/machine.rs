//! Tests of the fetch-decode-execute engine: whole programs run through
//! `step`, cycle accounting, the halt latch, interrupts, port I/O and the
//! video sampler.

use i8080::{Flag, I8080, Register, RegisterPair, DISPLAY_SIZE};

fn boot(program: &[u8]) -> I8080 {
    let mut cpu = I8080::new(0x10000);
    let image: Vec<u8> = program.to_vec();
    cpu.load(&image, 0);
    cpu
}

fn run(cpu: &mut I8080, steps: usize) -> u64 {
    let mut total: u64 = 0;
    for _ in 0..steps {
        total += cpu.step() as u64;
    }
    total
}

#[test]
fn mvi_mov_add_program() {
    // MVI A,0x2E; MVI D,0x6C; MOV A,D; ADD D
    let mut cpu = boot(&[0x3E, 0x2E, 0x16, 0x6C, 0x7A, 0x82]);
    let total = run(&mut cpu, 4);
    assert_eq!(cpu.a, 0xD8);
    assert_eq!(cpu.get_flag(Flag::C), false);
    assert_eq!(cpu.get_flag(Flag::S), true);
    assert_eq!(cpu.get_flag(Flag::Z), false);
    assert_eq!(cpu.get_flag(Flag::P), true);
    assert_eq!(cpu.get_flag(Flag::A), true);
    assert_eq!(total, 7 + 7 + 5 + 4);
    assert_eq!(cpu.cycles, 23);
}

#[test]
fn shld_lhld_program() {
    // LXI H,0x1234; SHLD 0x0300; LHLD 0x0300
    let mut cpu = boot(&[0x21, 0x34, 0x12, 0x22, 0x00, 0x03, 0x2A, 0x00, 0x03]);
    let total = run(&mut cpu, 3);
    assert_eq!(cpu.h, 0x12);
    assert_eq!(cpu.l, 0x34);
    assert_eq!(cpu.memory[0x0300], 0x34);
    assert_eq!(cpu.memory[0x0301], 0x12);
    assert_eq!(total, 10 + 16 + 16);
    assert_eq!(cpu.cycles, 42);
}

#[test]
fn daa_program() {
    // MVI A,0x9B; DAA, with A and Carry clear at the start
    let mut cpu = boot(&[0x3E, 0x9B, 0x27]);
    run(&mut cpu, 2);
    assert_eq!(cpu.a, 0x01);
    assert_eq!(cpu.get_flag(Flag::C), true);
    assert_eq!(cpu.get_flag(Flag::A), true);
}

#[test]
fn inr_wraps_and_keeps_carry() {
    // MVI A,0xFF; INR A
    let mut cpu = boot(&[0x3E, 0xFF, 0x3C]);
    run(&mut cpu, 2);
    assert_eq!(cpu.a, 0x00);
    assert_eq!(cpu.get_flag(Flag::Z), true);
    assert_eq!(cpu.get_flag(Flag::S), false);
    assert_eq!(cpu.get_flag(Flag::A), true);
    assert_eq!(cpu.get_flag(Flag::P), true);
    assert_eq!(cpu.get_flag(Flag::C), false);

    // STC first: the increment must leave the carry set.
    let mut cpu = boot(&[0x37, 0x3E, 0xFF, 0x3C]);
    run(&mut cpu, 3);
    assert_eq!(cpu.a, 0x00);
    assert_eq!(cpu.get_flag(Flag::C), true);
}

#[test]
fn push_pop_program() {
    // LXI SP,0x0400; MVI B,0xAB; MVI C,0xCD; PUSH B; POP D
    let mut cpu = boot(&[0x31, 0x00, 0x04, 0x06, 0xAB, 0x0E, 0xCD, 0xC5, 0xD1]);
    run(&mut cpu, 5);
    assert_eq!(cpu.d, 0xAB);
    assert_eq!(cpu.e, 0xCD);
    assert_eq!(cpu.sp, 0x0400);
    assert_eq!(cpu.memory[0x03FE], 0xCD);
    assert_eq!(cpu.memory[0x03FF], 0xAB);
}

#[test]
fn call_and_ret_program() {
    let mut cpu = boot(&[]);
    cpu.memory[0x0050] = 0xCD; // CALL 0x0100
    cpu.memory[0x0051] = 0x00;
    cpu.memory[0x0052] = 0x01;
    cpu.memory[0x0100] = 0xC9; // RET
    cpu.pc = 0x0050;
    cpu.sp = 0x0400;
    let c = cpu.step();
    assert_eq!(cpu.pc, 0x0100);
    assert_eq!(cpu.sp, 0x03FE);
    assert_eq!(cpu.memory[0x03FE], 0x53);
    assert_eq!(cpu.memory[0x03FF], 0x00);
    assert_eq!(c, 17);
    let c = cpu.step();
    assert_eq!(cpu.pc, 0x0053);
    assert_eq!(cpu.sp, 0x0400);
    assert_eq!(c, 10);
}

#[test]
fn conditional_costs() {
    // CPI 1 with A = 0: sets carry. RC taken costs 11; first RNC untaken 5.
    let mut cpu = boot(&[0x3E, 0x00, 0xFE, 0x01, 0xD0, 0xD8]);
    cpu.sp = 0x0400;
    cpu.memory[0x0400] = 0x00;
    cpu.memory[0x0401] = 0x20;
    run(&mut cpu, 2);
    assert_eq!(cpu.get_flag(Flag::C), true);
    let c = cpu.step(); // RNC, untaken
    assert_eq!(c, 5);
    assert_eq!(cpu.pc, 0x0005);
    let c = cpu.step(); // RC, taken
    assert_eq!(c, 11);
    assert_eq!(cpu.pc, 0x2000);
    assert_eq!(cpu.sp, 0x0402);
}

#[test]
fn conditional_call_costs() {
    // CZ untaken falls through and costs 11; CNZ taken costs 17.
    let mut cpu = boot(&[0x3E, 0x01, 0xB7, 0xCC, 0x00, 0x01, 0xC4, 0x00, 0x02]);
    cpu.sp = 0x0400;
    run(&mut cpu, 2); // MVI A,1; ORA A clears carry, zero stays clear
    assert_eq!(cpu.get_flag(Flag::Z), false);
    let c = cpu.step(); // CZ 0x0100, untaken
    assert_eq!(c, 11);
    assert_eq!(cpu.pc, 0x0006);
    let c = cpu.step(); // CNZ 0x0200, taken
    assert_eq!(c, 17);
    assert_eq!(cpu.pc, 0x0200);
    assert_eq!(cpu.sp, 0x03FE);
    assert_eq!(cpu.memory[0x03FE], 0x09);
    assert_eq!(cpu.memory[0x03FF], 0x00);
}

#[test]
fn duplicate_encodings() {
    // 0xCB jumps like JMP, 0xD9 returns like RET, 0xDD calls like CALL.
    let mut cpu = boot(&[0xCB, 0x10, 0x00]);
    cpu.sp = 0x0400;
    let c = cpu.step();
    assert_eq!(c, 10);
    assert_eq!(cpu.pc, 0x0010);
    cpu.memory[0x0010] = 0xDD; // CALL 0x0200
    cpu.memory[0x0011] = 0x00;
    cpu.memory[0x0012] = 0x02;
    cpu.memory[0x0200] = 0xD9; // RET
    let c = cpu.step();
    assert_eq!(c, 17);
    assert_eq!(cpu.pc, 0x0200);
    let c = cpu.step();
    assert_eq!(c, 10);
    assert_eq!(cpu.pc, 0x0013);
}

#[test]
fn mov_from_memory() {
    // LXI H,0x0300; MOV E,M reads the byte at (HL) into E.
    let mut cpu = boot(&[0x21, 0x00, 0x03, 0x5E]);
    cpu.memory[0x0300] = 0x77;
    run(&mut cpu, 2);
    assert_eq!(cpu.e, 0x77);
    assert_eq!(cpu.memory[0x0300], 0x77);
}

#[test]
fn halt_idles_without_advancing() {
    let mut cpu = boot(&[0x76]); // HLT
    let c = cpu.step();
    assert_eq!(c, 7);
    assert!(cpu.hlt);
    assert_eq!(cpu.pc, 1);
    let before = cpu.cycles;
    let c = cpu.step();
    assert_eq!(c, 4);
    assert_eq!(cpu.pc, 1);
    assert_eq!(cpu.cycles, before + 4);
    assert!(cpu.hlt);
}

#[test]
fn interrupt_needs_enable() {
    let mut cpu = boot(&[0x00]);
    cpu.interrupt(0xCF); // ignored: interrupts disabled after reset
    assert!(cpu.pending.is_none());
    let c = cpu.step(); // the NOP, not the injected opcode
    assert_eq!(c, 4);
    assert_eq!(cpu.pc, 1);
}

#[test]
fn interrupt_executes_injected_opcode() {
    let mut cpu = boot(&[0xFB, 0x00, 0x00]); // EI; NOP; NOP
    cpu.sp = 0x0400;
    cpu.step();
    assert!(cpu.inte);
    cpu.interrupt(0xCF); // RST 1
    assert!(!cpu.inte);
    assert_eq!(cpu.pending, Some(0xCF));
    let c = cpu.step();
    assert_eq!(c, 11);
    assert_eq!(cpu.pc, 0x0008);
    assert_eq!(cpu.sp, 0x03FE);
    assert_eq!(cpu.memory[0x03FE], 0x01);
    assert_eq!(cpu.memory[0x03FF], 0x00);
    assert!(cpu.pending.is_none());
}

#[test]
fn interrupt_clears_halt() {
    let mut cpu = boot(&[0xFB, 0x76]); // EI; HLT
    cpu.sp = 0x0400;
    run(&mut cpu, 2);
    assert!(cpu.hlt);
    cpu.interrupt(0xD7); // RST 2
    assert!(!cpu.hlt);
    let c = cpu.step();
    assert_eq!(c, 11);
    assert_eq!(cpu.pc, 0x0010);
}

#[test]
fn port_output_latch() {
    let mut cpu = boot(&[0x3E, 0x42, 0xD3, 0x05, 0x00]); // MVI A,0x42; OUT 5; NOP
    run(&mut cpu, 2);
    assert_eq!(cpu.out_latch, Some((5, 0x42)));
    cpu.step(); // any later step clears the latch
    assert_eq!(cpu.out_latch, None);
}

#[test]
fn port_input_latch() {
    let mut cpu = boot(&[0xDB, 0x02]); // IN 2
    cpu.in_ports[2] = 0x99;
    let c = cpu.step();
    assert_eq!(c, 10);
    assert_eq!(cpu.a, 0x99);
    assert_eq!(cpu.pc, 2);
}

#[test]
fn ei_di_latch() {
    let mut cpu = boot(&[0xFB, 0xF3]);
    let c = cpu.step();
    assert_eq!(c, 4);
    assert!(cpu.inte);
    let c = cpu.step();
    assert_eq!(c, 4);
    assert!(!cpu.inte);
}

#[test]
fn pop_psw_masks_flag_byte() {
    // The flag half popped from the stack is forced onto the layout
    // S Z 0 A 0 P 1 C: bits 3 and 5 drop, bit 1 appears.
    let mut cpu = boot(&[0xF1]); // POP PSW
    cpu.sp = 0x0400;
    cpu.memory[0x0400] = 0xFF; // would-be flag byte with every bit set
    cpu.memory[0x0401] = 0x5A;
    cpu.step();
    assert_eq!(cpu.a, 0x5A);
    assert_eq!(cpu.flags, 0xD7);
    assert_eq!(cpu.flags & 0x2A, 0x02);
}

#[test]
fn push_psw_round_trip() {
    let mut cpu = boot(&[0xF5, 0xF1]); // PUSH PSW; POP PSW
    cpu.sp = 0x0400;
    cpu.a = 0x3C;
    cpu.stc();
    let flags = cpu.flags;
    run(&mut cpu, 2);
    assert_eq!(cpu.a, 0x3C);
    assert_eq!(cpu.flags, flags);
    assert_eq!(cpu.sp, 0x0400);
}

#[test]
fn xchg_twice_restores() {
    let mut cpu = boot(&[0xEB, 0xEB]);
    cpu.d = 0x12;
    cpu.e = 0x34;
    cpu.h = 0x56;
    cpu.l = 0x78;
    let c = cpu.step();
    assert_eq!(c, 4);
    assert_eq!((cpu.d, cpu.e, cpu.h, cpu.l), (0x56, 0x78, 0x12, 0x34));
    cpu.step();
    assert_eq!((cpu.d, cpu.e, cpu.h, cpu.l), (0x12, 0x34, 0x56, 0x78));
}

#[test]
fn xthl_twice_restores() {
    let mut cpu = boot(&[0xE3, 0xE3]);
    cpu.sp = 0x0400;
    cpu.h = 0xAB;
    cpu.l = 0xCD;
    cpu.memory[0x0400] = 0x11;
    cpu.memory[0x0401] = 0x22;
    let c = cpu.step();
    assert_eq!(c, 18);
    assert_eq!((cpu.h, cpu.l), (0x22, 0x11));
    assert_eq!(cpu.memory[0x0400], 0xCD);
    assert_eq!(cpu.memory[0x0401], 0xAB);
    cpu.step();
    assert_eq!((cpu.h, cpu.l), (0xAB, 0xCD));
    assert_eq!(cpu.memory[0x0400], 0x11);
    assert_eq!(cpu.memory[0x0401], 0x22);
}

#[test]
fn cycles_sum_over_program() {
    // NOP; LXI B,...; XTHL; DAD B; RLC: 4 + 10 + 18 + 10 + 4 = 46.
    let mut cpu = boot(&[0x00, 0x01, 0x34, 0x12, 0xE3, 0x09, 0x07]);
    cpu.sp = 0x0400;
    let total = run(&mut cpu, 5);
    assert_eq!(total, 4 + 10 + 18 + 10 + 4);
    assert_eq!(cpu.cycles, total);
}

#[test]
fn cycle_discards_count() {
    let mut cpu = boot(&[0x00, 0x07]);
    cpu.cycle();
    cpu.cycle();
    assert_eq!(cpu.cycles, 8);
    assert_eq!(cpu.pc, 2);
}

#[test]
fn cmc_inverts_carry() {
    let mut cpu = boot(&[0x37, 0x3F, 0x3F]); // STC; CMC; CMC
    run(&mut cpu, 2);
    assert_eq!(cpu.get_flag(Flag::C), false);
    cpu.step();
    assert_eq!(cpu.get_flag(Flag::C), true);
}

#[test]
fn sta_lda_absolute() {
    // MVI A,0x12; STA 0x0234; MVI A,0x00; LDA 0x0234
    let mut cpu = boot(&[0x3E, 0x12, 0x32, 0x34, 0x02, 0x3E, 0x00, 0x3A, 0x34, 0x02]);
    let total = run(&mut cpu, 4);
    assert_eq!(cpu.memory[0x0234], 0x12);
    assert_eq!(cpu.a, 0x12);
    assert_eq!(total, 7 + 13 + 7 + 13);
}

#[test]
fn load_places_bytes() {
    let mut cpu = I8080::new(0x10000);
    let rom: Vec<u8> = vec![0xDE, 0xAD, 0xBE, 0xEF];
    cpu.load(&rom, 0x2000);
    assert_eq!(cpu.memory[0x2000], 0xDE);
    assert_eq!(cpu.memory[0x2001], 0xAD);
    assert_eq!(cpu.memory[0x2002], 0xBE);
    assert_eq!(cpu.memory[0x2003], 0xEF);
    assert_eq!(cpu.memory[0x1FFF], 0x00);
    assert_eq!(cpu.memory[0x2004], 0x00);
}

#[test]
fn new_machine_is_reset() {
    let cpu = I8080::new(0x10000);
    assert_eq!(cpu.pc, 0);
    assert_eq!(cpu.sp, 0);
    assert_eq!(cpu.get_register(Register::A), 0);
    assert_eq!(cpu.get_register(Register::F), 0x02);
    assert_eq!(cpu.cycles, 0);
    assert!(!cpu.inte);
    assert!(!cpu.hlt);
    assert_eq!(cpu.memory.len(), 0x10000);
    assert_eq!(cpu.get_register_pair(RegisterPair::H), 0);
}

#[test]
fn flag_byte_invariant_over_run() {
    // A mixed program: the flag byte always keeps bit 1 set, bits 3 and 5
    // clear.
    let mut cpu = boot(&[
        0x3E, 0xFF, 0x3C, 0x37, 0x17, 0x27, 0x06, 0x0F, 0x80, 0xA0, 0xB8, 0x07,
    ]);
    for _ in 0..10 {
        cpu.step();
        assert_eq!(cpu.flags & 0x2A, 0x02);
    }
}

#[test]
fn sampler_paints_column_zero() {
    let mut cpu = I8080::new(0x10000);
    cpu.memory[0x2400] = 0x01; // byte 0 bit 0: column 0, row 255
    cpu.memory[0x2401] = 0x80; // byte 1 bit 7: column 0, row 240
    cpu.memory[0x2420] = 0x01; // byte 32 bit 0: column 1, row 255
    let fg = 0xFF00FF00u32;
    let bg = 0x11111111u32;
    let mut pixels: Vec<u32> = vec![0; DISPLAY_SIZE];
    cpu.sample_display(&mut pixels, fg, bg);
    assert_eq!(pixels[255 * 224 + 0], fg);
    assert_eq!(pixels[240 * 224 + 0], fg);
    assert_eq!(pixels[255 * 224 + 1], fg);
    assert_eq!(pixels[254 * 224 + 0], bg);
    assert_eq!(pixels[0], bg);
    let lit = pixels.iter().filter(|p| **p == fg).count();
    assert_eq!(lit, 3);
}

#[test]
fn sampler_reads_only() {
    let mut cpu = I8080::new(0x10000);
    cpu.memory[0x2400] = 0xAA;
    let mut pixels: Vec<u32> = vec![0; DISPLAY_SIZE];
    cpu.sample_display(&mut pixels, 1, 0);
    assert_eq!(cpu.memory[0x2400], 0xAA);
    assert_eq!(cpu.pc, 0);
    assert_eq!(cpu.cycles, 0);
}
