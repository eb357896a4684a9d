use rustynes::cpu::{Cpu, UnknownOpcode};
use rustynes::mmu::Mmu;

fn machine(pc: u16, program: &[u8]) -> (Cpu, Mmu) {
    let mut mmu = Mmu::new();
    for (i, b) in program.iter().enumerate() {
        mmu.write_u8(pc + i as u16, *b);
    }
    let mut cpu = Cpu::new();
    cpu.pc = pc;
    (cpu, mmu)
}

fn step(cpu: &mut Cpu, mmu: &mut Mmu) -> Result<(), UnknownOpcode> {
    cpu.fetch(mmu);
    cpu.execute(mmu)
}

#[test]
fn adc_immediate_with_carry_in() {
    let (mut cpu, mut mmu) = machine(0x0300, &[0x69, 0x01]);
    cpu.a = 0xff;
    cpu.carry = true;
    step(&mut cpu, &mut mmu).unwrap();
    assert_eq!(cpu.a, 0x01);
    assert!(cpu.carry);
    assert!(!cpu.zero);
    assert!(!cpu.overflow);
    assert!(!cpu.sign);
    assert_eq!(cpu.tick_count, 2);
    assert_eq!(cpu.pc, 0x0302);
}

#[test]
fn adc_sets_overflow_on_sign_change() {
    let (mut cpu, mut mmu) = machine(0x0300, &[0x69, 0x50]);
    cpu.a = 0x50;
    step(&mut cpu, &mut mmu).unwrap();
    assert_eq!(cpu.a, 0xa0);
    assert!(cpu.overflow);
    assert!(cpu.sign);
    assert!(!cpu.carry);
}

#[test]
fn sbc_without_borrow() {
    let (mut cpu, mut mmu) = machine(0x0300, &[0xe9, 0x10]);
    cpu.a = 0x50;
    cpu.carry = true;
    step(&mut cpu, &mut mmu).unwrap();
    assert_eq!(cpu.a, 0x40);
    assert!(cpu.carry);
    assert!(!cpu.zero);
    assert!(!cpu.overflow);
    assert_eq!(cpu.tick_count, 2);
}

#[test]
fn sbc_with_borrow_wraps() {
    let (mut cpu, mut mmu) = machine(0x0300, &[0xe9, 0x01]);
    cpu.a = 0x00;
    cpu.carry = true;
    step(&mut cpu, &mut mmu).unwrap();
    assert_eq!(cpu.a, 0xff);
    assert!(!cpu.carry);
    assert!(cpu.sign);
    assert!(!cpu.overflow);
}

#[test]
fn adc_negative_plus_zero_has_no_overflow() {
    let (mut cpu, mut mmu) = machine(0x0300, &[0x69, 0x00]);
    cpu.a = 0x80;
    step(&mut cpu, &mut mmu).unwrap();
    assert_eq!(cpu.a, 0x80);
    assert!(!cpu.overflow);
    assert!(cpu.sign);
}

#[test]
fn sbc_signed_overflow() {
    let (mut cpu, mut mmu) = machine(0x0300, &[0xe9, 0x01]);
    cpu.a = 0x80;
    cpu.carry = true;
    step(&mut cpu, &mut mmu).unwrap();
    assert_eq!(cpu.a, 0x7f);
    assert!(cpu.overflow);
    assert!(cpu.carry);
}

#[test]
fn lda_absolute_x_page_cross_costs_a_cycle() {
    let (mut cpu, mut mmu) = machine(0x0300, &[0xbd, 0xff, 0x04]);
    mmu.write_u8(0x0500, 0x80);
    cpu.x = 1;
    step(&mut cpu, &mut mmu).unwrap();
    assert_eq!(cpu.a, 0x80);
    assert!(cpu.sign);
    assert_eq!(cpu.tick_count, 5);
    assert_eq!(cpu.pc, 0x0303);

    let (mut cpu, mut mmu) = machine(0x0300, &[0xbd, 0xff, 0x04]);
    mmu.write_u8(0x04ff, 0x00);
    step(&mut cpu, &mut mmu).unwrap();
    assert!(cpu.zero);
    assert_eq!(cpu.tick_count, 4);
}

#[test]
fn lda_indirect_y_page_cross() {
    let (mut cpu, mut mmu) = machine(0x0300, &[0xb1, 0x20]);
    mmu.write_u8(0x0020, 0xff);
    mmu.write_u8(0x0021, 0x04);
    mmu.write_u8(0x0500, 0x33);
    cpu.y = 1;
    step(&mut cpu, &mut mmu).unwrap();
    assert_eq!(cpu.a, 0x33);
    assert_eq!(cpu.tick_count, 6);
}

#[test]
fn sta_zero_page_writes_ram() {
    let (mut cpu, mut mmu) = machine(0x0300, &[0x85, 0x10]);
    cpu.a = 0x42;
    step(&mut cpu, &mut mmu).unwrap();
    assert_eq!(mmu.read_u8(0x0010), 0x42);
    assert_eq!(mmu.read_u8(0x0810), 0x42);
    assert_eq!(cpu.tick_count, 3);
    assert_eq!(cpu.pc, 0x0302);
}

#[test]
fn bne_taken_not_taken_and_page_cross() {
    let (mut cpu, mut mmu) = machine(0x0300, &[0xd0, 0x05]);
    step(&mut cpu, &mut mmu).unwrap();
    assert_eq!(cpu.pc, 0x0307);
    assert_eq!(cpu.tick_count, 3);

    let (mut cpu, mut mmu) = machine(0x0300, &[0xd0, 0x05]);
    cpu.zero = true;
    step(&mut cpu, &mut mmu).unwrap();
    assert_eq!(cpu.pc, 0x0302);
    assert_eq!(cpu.tick_count, 2);

    let (mut cpu, mut mmu) = machine(0x03f0, &[0xd0, 0x20]);
    step(&mut cpu, &mut mmu).unwrap();
    assert_eq!(cpu.pc, 0x0412);
    assert_eq!(cpu.tick_count, 4);

    let (mut cpu, mut mmu) = machine(0x0310, &[0xd0, 0xfb]);
    step(&mut cpu, &mut mmu).unwrap();
    assert_eq!(cpu.pc, 0x030d);
    assert_eq!(cpu.tick_count, 3);
}

#[test]
fn jsr_then_rts_returns_after_call() {
    let (mut cpu, mut mmu) = machine(0x0300, &[0x20, 0x00, 0x04]);
    mmu.write_u8(0x0400, 0x60);
    step(&mut cpu, &mut mmu).unwrap();
    assert_eq!(cpu.pc, 0x0400);
    assert_eq!(cpu.sp, 0xfd);
    assert_eq!(cpu.tick_count, 6);
    assert_eq!(mmu.read_u8(0x01ff), 0x03);
    assert_eq!(mmu.read_u8(0x01fe), 0x02);
    step(&mut cpu, &mut mmu).unwrap();
    assert_eq!(cpu.pc, 0x0303);
    assert_eq!(cpu.sp, 0xff);
    assert_eq!(cpu.tick_count, 12);
}

#[test]
fn pha_pla_round_trip() {
    let (mut cpu, mut mmu) = machine(0x0300, &[0x48, 0xa9, 0x00, 0x68]);
    cpu.a = 0x7f;
    step(&mut cpu, &mut mmu).unwrap();
    assert_eq!(cpu.sp, 0xfe);
    assert_eq!(mmu.read_u8(0x01ff), 0x7f);
    step(&mut cpu, &mut mmu).unwrap();
    assert_eq!(cpu.a, 0);
    assert!(cpu.zero);
    step(&mut cpu, &mut mmu).unwrap();
    assert_eq!(cpu.a, 0x7f);
    assert!(!cpu.zero);
    assert_eq!(cpu.sp, 0xff);
    assert_eq!(cpu.tick_count, 3 + 2 + 4);
}

#[test]
fn push_u16_then_rts_with_stack_wrap() {
    let (mut cpu, mut mmu) = machine(0x0300, &[0x60]);
    cpu.sp = 0x00;
    cpu.push_u16(&mut mmu, 0xbeef);
    assert_eq!(cpu.sp, 0xfe);
    assert_eq!(mmu.read_u8(0x0100), 0xbe);
    assert_eq!(mmu.read_u8(0x01ff), 0xef);
    step(&mut cpu, &mut mmu).unwrap();
    assert_eq!(cpu.pc, 0xbef0);
    assert_eq!(cpu.sp, 0x00);
}

#[test]
fn php_plp_restores_flags() {
    let (mut cpu, mut mmu) = machine(0x0300, &[0x08, 0x18, 0x28]);
    cpu.carry = true;
    cpu.sign = true;
    step(&mut cpu, &mut mmu).unwrap();
    assert_eq!(mmu.read_u8(0x01ff), 0x81);
    step(&mut cpu, &mut mmu).unwrap();
    assert!(!cpu.carry);
    step(&mut cpu, &mut mmu).unwrap();
    assert!(cpu.carry);
    assert!(cpu.sign);
    assert_eq!(cpu.sp, 0xff);
}

#[test]
fn inx_wraps_to_zero() {
    let (mut cpu, mut mmu) = machine(0x0300, &[0xe8]);
    cpu.x = 0xff;
    step(&mut cpu, &mut mmu).unwrap();
    assert_eq!(cpu.x, 0);
    assert!(cpu.zero);
    assert_eq!(cpu.pc, 0x0301);
    assert_eq!(cpu.tick_count, 2);
}

#[test]
fn asl_accumulator_moves_top_bit_to_carry() {
    let (mut cpu, mut mmu) = machine(0x0300, &[0x0a]);
    cpu.a = 0x81;
    step(&mut cpu, &mut mmu).unwrap();
    assert_eq!(cpu.a, 0x02);
    assert!(cpu.carry);
    assert!(!cpu.sign);
    assert_eq!(cpu.pc, 0x0301);
}

#[test]
fn ror_accumulator_takes_carry_in() {
    let (mut cpu, mut mmu) = machine(0x0300, &[0x6a]);
    cpu.a = 0x01;
    cpu.carry = true;
    step(&mut cpu, &mut mmu).unwrap();
    assert_eq!(cpu.a, 0x80);
    assert!(cpu.carry);
    assert!(cpu.sign);
}

#[test]
fn lsr_zero_page_read_modify_write() {
    let (mut cpu, mut mmu) = machine(0x0300, &[0x46, 0x10]);
    mmu.write_u8(0x0010, 0x01);
    step(&mut cpu, &mut mmu).unwrap();
    assert_eq!(mmu.read_u8(0x0010), 0x00);
    assert!(cpu.carry);
    assert!(cpu.zero);
    assert_eq!(cpu.tick_count, 5);
}

#[test]
fn dec_absolute_wraps() {
    let (mut cpu, mut mmu) = machine(0x0300, &[0xce, 0x00, 0x04]);
    step(&mut cpu, &mut mmu).unwrap();
    assert_eq!(mmu.read_u8(0x0400), 0xff);
    assert!(cpu.sign);
    assert_eq!(cpu.tick_count, 6);
    assert_eq!(cpu.pc, 0x0303);
}

#[test]
fn bit_copies_operand_bits() {
    let (mut cpu, mut mmu) = machine(0x0300, &[0x24, 0x10]);
    mmu.write_u8(0x0010, 0xc0);
    cpu.a = 0x01;
    step(&mut cpu, &mut mmu).unwrap();
    assert!(cpu.zero);
    assert!(cpu.sign);
    assert!(cpu.overflow);
    assert_eq!(cpu.tick_count, 3);
}

#[test]
fn cmp_equal_sets_zero_and_carry() {
    let (mut cpu, mut mmu) = machine(0x0300, &[0xc9, 0x10]);
    cpu.a = 0x10;
    step(&mut cpu, &mut mmu).unwrap();
    assert!(cpu.zero);
    assert!(cpu.carry);
    assert!(!cpu.sign);
}

#[test]
fn jmp_indirect_reads_pointer() {
    let (mut cpu, mut mmu) = machine(0x0300, &[0x6c, 0x20, 0x01]);
    mmu.write_u8(0x0120, 0x34);
    mmu.write_u8(0x0121, 0x12);
    step(&mut cpu, &mut mmu).unwrap();
    assert_eq!(cpu.pc, 0x1234);
    assert_eq!(cpu.tick_count, 5);
}

#[test]
fn brk_pushes_return_and_status() {
    let (mut cpu, mut mmu) = machine(0x0300, &[0x00]);
    step(&mut cpu, &mut mmu).unwrap();
    assert_eq!(mmu.read_u8(0x01ff), 0x03);
    assert_eq!(mmu.read_u8(0x01fe), 0x02);
    assert_eq!(mmu.read_u8(0x01fd), 0x10);
    assert_eq!(cpu.sp, 0xfc);
    assert!(cpu.interrupt);
    assert_eq!(cpu.pc, 0x0000);
    assert_eq!(cpu.tick_count, 7);
}

#[test]
fn transfers_and_stack_pointer() {
    let (mut cpu, mut mmu) = machine(0x0300, &[0x9a, 0xba]);
    cpu.x = 0x80;
    step(&mut cpu, &mut mmu).unwrap();
    assert_eq!(cpu.sp, 0x80);
    assert!(!cpu.sign);
    cpu.x = 0;
    step(&mut cpu, &mut mmu).unwrap();
    assert_eq!(cpu.x, 0x80);
    assert!(cpu.sign);
}

#[test]
fn unknown_opcode_is_reported() {
    let (mut cpu, mut mmu) = machine(0x0300, &[0x02]);
    let r = step(&mut cpu, &mut mmu);
    assert_eq!(r, Err(UnknownOpcode { opcode: 0x02, pc: 0x0300 }));
    assert_eq!(cpu.pc, 0x0300);
}

#[test]
fn show_opcode_names() {
    let mut cpu = Cpu::new();
    cpu.current_opcode = 0x69;
    assert_eq!(cpu.show_opcode(), "adc");
    cpu.current_opcode = 0x02;
    assert_eq!(cpu.show_opcode(), "ERR");
}

#[test]
fn run_for_scanline_uses_up_the_budget() {
    // an endless loop of NOPs at 0x0300 followed by a jump back
    let mut prog = vec![0xea; 16];
    prog.extend_from_slice(&[0x4c, 0x00, 0x03]);
    let (mut cpu, mut mmu) = machine(0x0300, &prog);
    cpu.run_for_scanline(&mut mmu).unwrap();
    assert!(cpu.tick_count > 113);
    assert!(cpu.tick_count <= 120);
}
