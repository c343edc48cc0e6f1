use gbemu::cpu::decode::decode_instruction;
use gbemu::cpu::flags::Flags;
use gbemu::cpu::instruction::{Instruction, JumpCondition, PrePostOperation};
use gbemu::cpu::micro_op::{
    jump_relative, load_literal_into_reg8, move_micro_op, Destination8Bits, MicroOp,
    Reg8OrIndirect, Source8bits,
};
use gbemu::cpu::register::{Register16, Register8};
use gbemu::cpu::CPU;
use gbemu::fault::Fault;
use gbemu::interrupt::InterruptController;
use gbemu::memory::build_mbc;
use gbemu::memory::mmu::MMU;
use gbemu::serial::SerialBuffer;

fn machine(program: &[u8]) -> (CPU, MMU) {
    let mut rom = vec![0u8; 0x8000];
    rom[0x100..0x100 + program.len()].copy_from_slice(program);
    let mbc = build_mbc(&rom).unwrap();
    let mut mmu = MMU::new(mbc, InterruptController::new(), SerialBuffer::new());
    mmu.unmount_bootstrap_rom();
    let mut cpu = CPU::new();
    cpu.pc = 0x100;
    (cpu, mmu)
}

/// Runs one whole instruction and returns the number of machine cycles.
fn run_instruction(cpu: &mut CPU, mmu: &mut MMU) -> usize {
    let mut cycles = 0;
    loop {
        cpu.step(mmu).unwrap();
        cycles += 1;
        if cpu.is_pipeline_empty() {
            return cycles;
        }
    }
}

fn flags(zero: bool, negative: bool, half_carry: bool, carry: bool) -> Flags {
    Flags { zero, negative, half_carry, carry }
}

#[test]
fn daa_after_add_gives_decimal_sum() {
    // LD A,0x45; ADD A,0x28; DAA; DAA
    let (mut cpu, mut mmu) = machine(&[0x3E, 0x45, 0xC6, 0x28, 0x27, 0x27]);
    run_instruction(&mut cpu, &mut mmu);
    run_instruction(&mut cpu, &mut mmu);
    assert_eq!(cpu.reg_a, 0x6D);
    assert_eq!(cpu.flags, flags(false, false, false, false));
    run_instruction(&mut cpu, &mut mmu);
    assert_eq!(cpu.reg_a, 0x73);
    assert_eq!(cpu.flags, flags(false, false, false, false));
    run_instruction(&mut cpu, &mut mmu);
    assert_eq!(cpu.reg_a, 0x73);
    assert!(!cpu.flags.half_carry);
}

#[test]
fn daa_after_add_with_carries() {
    // LD A,0x99; ADD A,0x01; DAA -> 0x00 with carry
    let (mut cpu, mut mmu) = machine(&[0x3E, 0x99, 0xC6, 0x01, 0x27]);
    for _ in 0..3 {
        run_instruction(&mut cpu, &mut mmu);
    }
    assert_eq!(cpu.reg_a, 0x00);
    assert_eq!(cpu.flags, flags(true, false, false, true));
}

#[test]
fn daa_after_subtraction() {
    // LD A,0x42; SUB 0x05; DAA -> 0x37
    let (mut cpu, mut mmu) = machine(&[0x3E, 0x42, 0xD6, 0x05, 0x27]);
    run_instruction(&mut cpu, &mut mmu);
    run_instruction(&mut cpu, &mut mmu);
    assert_eq!(cpu.reg_a, 0x3D);
    assert_eq!(cpu.flags, flags(false, true, true, false));
    run_instruction(&mut cpu, &mut mmu);
    assert_eq!(cpu.reg_a, 0x37);
    assert_eq!(cpu.flags, flags(false, true, false, false));
}

#[test]
fn daa_after_subtraction_with_borrow() {
    // LD A,0x10; SUB 0x20; DAA -> 0x90 with carry kept
    let (mut cpu, mut mmu) = machine(&[0x3E, 0x10, 0xD6, 0x20, 0x27]);
    run_instruction(&mut cpu, &mut mmu);
    run_instruction(&mut cpu, &mut mmu);
    assert_eq!(cpu.reg_a, 0xF0);
    assert_eq!(cpu.flags, flags(false, true, false, true));
    run_instruction(&mut cpu, &mut mmu);
    assert_eq!(cpu.reg_a, 0x90);
    assert_eq!(cpu.flags, flags(false, true, false, true));
}

#[test]
fn ld_hl_sp_plus_offset() {
    // LD SP,0xFFF8; LD HL,SP+2
    let (mut cpu, mut mmu) = machine(&[0x31, 0xF8, 0xFF, 0xF8, 0x02]);
    run_instruction(&mut cpu, &mut mmu);
    let cycles = run_instruction(&mut cpu, &mut mmu);
    assert_eq!(cycles, 3);
    assert_eq!(cpu.load_reg16(Register16::HL), 0xFFFA);
    assert_eq!(cpu.sp, 0xFFF8);
    assert_eq!(cpu.flags, flags(false, false, false, false));
}

#[test]
fn ld_hl_sp_plus_offset_carries_from_low_byte() {
    // LD SP,0x00FF; LD HL,SP+1
    let (mut cpu, mut mmu) = machine(&[0x31, 0xFF, 0x00, 0xF8, 0x01]);
    run_instruction(&mut cpu, &mut mmu);
    run_instruction(&mut cpu, &mut mmu);
    assert_eq!(cpu.load_reg16(Register16::HL), 0x0100);
    assert_eq!(cpu.flags, flags(false, false, true, true));
}

#[test]
fn add_sp_negative_offset() {
    // LD SP,0x0100; ADD SP,-1
    let (mut cpu, mut mmu) = machine(&[0x31, 0x00, 0x01, 0xE8, 0xFF]);
    run_instruction(&mut cpu, &mut mmu);
    let cycles = run_instruction(&mut cpu, &mut mmu);
    assert_eq!(cycles, 4);
    assert_eq!(cpu.sp, 0x00FF);
    assert_eq!(cpu.flags, flags(false, false, false, false));
}

#[test]
fn add_sp_smallest_offset() {
    // LD SP,0x0100; ADD SP,-128
    let (mut cpu, mut mmu) = machine(&[0x31, 0x00, 0x01, 0xE8, 0x80]);
    run_instruction(&mut cpu, &mut mmu);
    run_instruction(&mut cpu, &mut mmu);
    assert_eq!(cpu.sp, 0x0080);
    assert_eq!(cpu.flags, flags(false, false, false, false));
}

#[test]
fn jp_nz_not_taken_when_zero_is_set() {
    // XOR A; JP NZ,0x1234
    let (mut cpu, mut mmu) = machine(&[0xAF, 0xC2, 0x34, 0x12]);
    run_instruction(&mut cpu, &mut mmu);
    assert!(cpu.flags.zero);
    let cycles = run_instruction(&mut cpu, &mut mmu);
    assert_eq!(cycles, 3);
    assert_eq!(cpu.pc, 0x104);
}

#[test]
fn jp_nz_taken_when_zero_is_clear() {
    // JP NZ,0x1234
    let (mut cpu, mut mmu) = machine(&[0xC2, 0x34, 0x12]);
    let cycles = run_instruction(&mut cpu, &mut mmu);
    assert_eq!(cycles, 4);
    assert_eq!(cpu.pc, 0x1234);
}

#[test]
fn documented_cycle_counts() {
    // LD B,C; LD B,7; LD B,(HL); JP 0x0110
    let (mut cpu, mut mmu) = machine(&[0x41, 0x06, 0x07, 0x46, 0xC3, 0x10, 0x01]);
    assert_eq!(run_instruction(&mut cpu, &mut mmu), 1);
    assert_eq!(run_instruction(&mut cpu, &mut mmu), 2);
    assert_eq!(cpu.reg_b, 7);
    assert_eq!(run_instruction(&mut cpu, &mut mmu), 2);
    assert_eq!(run_instruction(&mut cpu, &mut mmu), 4);
    assert_eq!(cpu.pc, 0x0110);
}

#[test]
fn call_and_return_cycle_counts() {
    // LD SP,0xFFFE; CALL 0x0110; ...; at 0x0110: RET
    let mut program = vec![0x31, 0xFE, 0xFF, 0xCD, 0x10, 0x01];
    program.resize(0x10, 0x00);
    program.push(0xC9);
    let (mut cpu, mut mmu) = machine(&program);
    run_instruction(&mut cpu, &mut mmu);
    assert_eq!(run_instruction(&mut cpu, &mut mmu), 6);
    assert_eq!(cpu.pc, 0x0110);
    assert_eq!(cpu.sp, 0xFFFC);
    assert_eq!(mmu.read_memory(0xFFFD), 0x01);
    assert_eq!(mmu.read_memory(0xFFFC), 0x06);
    assert_eq!(run_instruction(&mut cpu, &mut mmu), 4);
    assert_eq!(cpu.pc, 0x0106);
    assert_eq!(cpu.sp, 0xFFFE);
}

#[test]
fn conditional_call_cycle_counts() {
    // LD SP,0xFFFE; CALL Z,0x0120 (not taken); XOR A; CALL Z,0x0120 (taken)
    let (mut cpu, mut mmu) =
        machine(&[0x31, 0xFE, 0xFF, 0xCC, 0x20, 0x01, 0xAF, 0xCC, 0x20, 0x01]);
    run_instruction(&mut cpu, &mut mmu);
    assert_eq!(run_instruction(&mut cpu, &mut mmu), 3);
    assert_eq!(cpu.pc, 0x0106);
    run_instruction(&mut cpu, &mut mmu);
    assert_eq!(run_instruction(&mut cpu, &mut mmu), 6);
    assert_eq!(cpu.pc, 0x0120);
}

#[test]
fn relative_jump_cycle_counts() {
    // JR +2; (skipped: 2 bytes); JR NZ,-2 (taken, back onto itself minus 2) ...
    let (mut cpu, mut mmu) = machine(&[0x18, 0x02, 0x00, 0x00, 0xAF, 0x20, 0x05, 0x28, 0xFE]);
    assert_eq!(run_instruction(&mut cpu, &mut mmu), 3);
    assert_eq!(cpu.pc, 0x0104);
    run_instruction(&mut cpu, &mut mmu);
    // JR NZ with Z set: not taken
    assert_eq!(run_instruction(&mut cpu, &mut mmu), 2);
    assert_eq!(cpu.pc, 0x0107);
    // JR Z,-2 with Z set: taken, lands on itself
    assert_eq!(run_instruction(&mut cpu, &mut mmu), 3);
    assert_eq!(cpu.pc, 0x0107);
}

#[test]
fn conditional_return_cycle_counts() {
    // LD SP,0xFFFE; RET Z (not taken); XOR A; PUSH HL; RET Z (taken)
    let (mut cpu, mut mmu) = machine(&[0x31, 0xFE, 0xFF, 0xC8, 0xAF, 0x21, 0x50, 0x01, 0xE5, 0xC8]);
    run_instruction(&mut cpu, &mut mmu);
    assert_eq!(run_instruction(&mut cpu, &mut mmu), 2);
    run_instruction(&mut cpu, &mut mmu);
    assert_eq!(run_instruction(&mut cpu, &mut mmu), 3);
    assert_eq!(run_instruction(&mut cpu, &mut mmu), 4);
    assert_eq!(run_instruction(&mut cpu, &mut mmu), 5);
    assert_eq!(cpu.pc, 0x0150);
}

#[test]
fn absolute_load_takes_four_cycles() {
    // LD A,(0xC000); LD (0xC001),A
    let (mut cpu, mut mmu) = machine(&[0xFA, 0x00, 0xC0, 0xEA, 0x01, 0xC0]);
    mmu.write_memory(0xC000, 0x5A).unwrap();
    assert_eq!(run_instruction(&mut cpu, &mut mmu), 4);
    assert_eq!(cpu.reg_a, 0x5A);
    assert_eq!(run_instruction(&mut cpu, &mut mmu), 4);
    assert_eq!(mmu.read_memory(0xC001), 0x5A);
}

#[test]
fn bit_test_sets_zero_from_the_bit() {
    // LD B,0x10; BIT 4,B; BIT 3,B
    let (mut cpu, mut mmu) = machine(&[0x06, 0x10, 0xCB, 0x60, 0xCB, 0x58]);
    run_instruction(&mut cpu, &mut mmu);
    cpu.flags = flags(true, true, false, true);
    assert_eq!(run_instruction(&mut cpu, &mut mmu), 2);
    assert_eq!(cpu.flags, flags(false, false, true, true));
    cpu.flags = flags(false, true, false, false);
    run_instruction(&mut cpu, &mut mmu);
    assert_eq!(cpu.flags, flags(true, false, true, false));
    assert_eq!(cpu.reg_b, 0x10);
}

#[test]
fn bit_test_on_memory() {
    // LD HL,0xC000; BIT 7,(HL); SET 7,(HL); BIT 7,(HL); RES 7,(HL)
    let (mut cpu, mut mmu) =
        machine(&[0x21, 0x00, 0xC0, 0xCB, 0x7E, 0xCB, 0xFE, 0xCB, 0x7E, 0xCB, 0xBE]);
    run_instruction(&mut cpu, &mut mmu);
    assert_eq!(run_instruction(&mut cpu, &mut mmu), 3);
    assert!(cpu.flags.zero);
    assert_eq!(run_instruction(&mut cpu, &mut mmu), 4);
    assert_eq!(mmu.read_memory(0xC000), 0x80);
    run_instruction(&mut cpu, &mut mmu);
    assert!(!cpu.flags.zero);
    assert_eq!(run_instruction(&mut cpu, &mut mmu), 4);
    assert_eq!(mmu.read_memory(0xC000), 0x00);
}

#[test]
fn flags_register_has_no_low_nibble() {
    // LD SP,0xFFFE; LD BC,0x12FF; PUSH BC; POP AF; PUSH AF; POP DE
    let (mut cpu, mut mmu) = machine(&[0x31, 0xFE, 0xFF, 0x01, 0xFF, 0x12, 0xC5, 0xF1, 0xF5, 0xD1]);
    for _ in 0..4 {
        run_instruction(&mut cpu, &mut mmu);
    }
    assert_eq!(cpu.reg_a, 0x12);
    assert_eq!(cpu.load_reg8(Register8::Flags), 0xF0);
    assert_eq!(cpu.load_reg16(Register16::AF), 0x12F0);
    run_instruction(&mut cpu, &mut mmu);
    run_instruction(&mut cpu, &mut mmu);
    assert_eq!(cpu.reg_e, 0xF0);
}

#[test]
fn store_to_flags_drops_low_nibble() {
    let mut cpu = CPU::new();
    cpu.store_reg8(Register8::Flags, 0xAB);
    assert_eq!(cpu.load_reg8(Register8::Flags), 0xA0);
    assert_eq!(cpu.flags, flags(true, false, true, false));
    assert_eq!(Flags::from_bits_truncate(0x5F).bits(), 0x50);
    assert_eq!(Flags::empty().bits(), 0);
}

#[test]
fn register_pairs_are_big_endian() {
    let mut cpu = CPU::new();
    cpu.store_reg16(Register16::BC, 0x1234);
    assert_eq!(cpu.reg_b, 0x12);
    assert_eq!(cpu.reg_c, 0x34);
    cpu.store_reg8(Register8::SPHigh, 0xAB);
    cpu.store_reg8(Register8::SPLow, 0xCD);
    assert_eq!(cpu.sp, 0xABCD);
    cpu.store_reg8(Register8::PCLow, 0x99);
    assert_eq!(cpu.pc, 0x0099);
    assert_eq!(cpu.load_reg8(Register8::SPHigh), 0xAB);
    assert_eq!(cpu.load_reg16(Register16::SP), 0xABCD);
    assert_eq!(Register16::HL.higher_half(), Register8::H);
    assert_eq!(Register16::AF.lower_half(), Register8::Flags);
    assert_eq!(Register16::SP.higher_half(), Register8::SPHigh);
}

#[test]
fn pc_advances_by_instruction_length() {
    // NOP (1); LD B,n (2); LD BC,nn (3); BIT 0,B (2); LD (nn),SP (5 cycles, 3 bytes)
    let (mut cpu, mut mmu) =
        machine(&[0x00, 0x06, 0x01, 0x01, 0x34, 0x12, 0xCB, 0x40, 0x08, 0x00, 0xC0]);
    let lengths = [1u16, 2, 3, 2, 3];
    let mut expected = 0x100u16;
    for length in lengths {
        run_instruction(&mut cpu, &mut mmu);
        expected += length;
        assert_eq!(cpu.pc, expected);
    }
}

#[test]
fn sixteen_bit_counting_keeps_flags() {
    // LD BC,0xFFFF; INC BC; DEC BC
    let (mut cpu, mut mmu) = machine(&[0x01, 0xFF, 0xFF, 0x03, 0x0B]);
    run_instruction(&mut cpu, &mut mmu);
    cpu.flags = flags(true, true, true, true);
    assert_eq!(run_instruction(&mut cpu, &mut mmu), 2);
    assert_eq!(cpu.load_reg16(Register16::BC), 0x0000);
    assert_eq!(cpu.flags, flags(true, true, true, true));
    run_instruction(&mut cpu, &mut mmu);
    assert_eq!(cpu.load_reg16(Register16::BC), 0xFFFF);
    assert_eq!(cpu.flags, flags(true, true, true, true));
}

#[test]
fn eight_bit_counting_keeps_carry() {
    // LD B,0x0F; INC B; LD B,0x00; DEC B; LD B,0xFF; INC B
    let (mut cpu, mut mmu) = machine(&[0x06, 0x0F, 0x04, 0x06, 0x00, 0x05, 0x06, 0xFF, 0x04]);
    cpu.flags = flags(false, false, false, true);
    run_instruction(&mut cpu, &mut mmu);
    run_instruction(&mut cpu, &mut mmu);
    assert_eq!(cpu.reg_b, 0x10);
    assert_eq!(cpu.flags, flags(false, false, true, true));
    run_instruction(&mut cpu, &mut mmu);
    run_instruction(&mut cpu, &mut mmu);
    assert_eq!(cpu.reg_b, 0xFF);
    assert_eq!(cpu.flags, flags(false, true, true, true));
    run_instruction(&mut cpu, &mut mmu);
    run_instruction(&mut cpu, &mut mmu);
    assert_eq!(cpu.reg_b, 0x00);
    assert_eq!(cpu.flags, flags(true, false, true, true));
}

#[test]
fn add_hl_keeps_zero_and_carries_from_bit_11_and_15() {
    // LD HL,0x0FFF; LD BC,0x0001; ADD HL,BC; LD HL,0xFFFF; ADD HL,BC
    let (mut cpu, mut mmu) =
        machine(&[0x21, 0xFF, 0x0F, 0x01, 0x01, 0x00, 0x09, 0x21, 0xFF, 0xFF, 0x09]);
    run_instruction(&mut cpu, &mut mmu);
    run_instruction(&mut cpu, &mut mmu);
    cpu.flags = flags(true, true, false, false);
    assert_eq!(run_instruction(&mut cpu, &mut mmu), 2);
    assert_eq!(cpu.load_reg16(Register16::HL), 0x1000);
    assert_eq!(cpu.flags, flags(true, false, true, false));
    run_instruction(&mut cpu, &mut mmu);
    run_instruction(&mut cpu, &mut mmu);
    assert_eq!(cpu.load_reg16(Register16::HL), 0x0000);
    assert_eq!(cpu.flags, flags(true, false, true, true));
}

#[test]
fn adc_and_sbc_use_the_carry() {
    // LD A,0xFF; SCF; ADC A,0x00; SCF; SBC A,0x00
    let (mut cpu, mut mmu) = machine(&[0x3E, 0xFF, 0x37, 0xCE, 0x00, 0x37, 0xDE, 0x00]);
    run_instruction(&mut cpu, &mut mmu);
    run_instruction(&mut cpu, &mut mmu);
    assert_eq!(cpu.flags, flags(false, false, false, true));
    run_instruction(&mut cpu, &mut mmu);
    assert_eq!(cpu.reg_a, 0x00);
    assert_eq!(cpu.flags, flags(true, false, true, true));
    run_instruction(&mut cpu, &mut mmu);
    run_instruction(&mut cpu, &mut mmu);
    assert_eq!(cpu.reg_a, 0xFF);
    assert_eq!(cpu.flags, flags(false, true, true, true));
}

#[test]
fn logic_operations_set_their_flags() {
    // LD A,0xF0; AND 0x0F; LD A,0xF0; OR 0x0F; XOR 0xFF; CP 0x00; CPL; CCF
    let (mut cpu, mut mmu) = machine(
        &[0x3E, 0xF0, 0xE6, 0x0F, 0x3E, 0xF0, 0xF6, 0x0F, 0xEE, 0xFF, 0xFE, 0x00, 0x2F, 0x3F],
    );
    run_instruction(&mut cpu, &mut mmu);
    run_instruction(&mut cpu, &mut mmu);
    assert_eq!(cpu.reg_a, 0x00);
    assert_eq!(cpu.flags, flags(true, false, true, false));
    run_instruction(&mut cpu, &mut mmu);
    run_instruction(&mut cpu, &mut mmu);
    assert_eq!(cpu.reg_a, 0xFF);
    assert_eq!(cpu.flags, flags(false, false, false, false));
    run_instruction(&mut cpu, &mut mmu);
    assert_eq!(cpu.reg_a, 0x00);
    assert_eq!(cpu.flags, flags(true, false, false, false));
    run_instruction(&mut cpu, &mut mmu);
    assert_eq!(cpu.reg_a, 0x00);
    assert_eq!(cpu.flags, flags(true, true, false, false));
    run_instruction(&mut cpu, &mut mmu);
    assert_eq!(cpu.reg_a, 0xFF);
    assert_eq!(cpu.flags, flags(true, true, true, false));
    run_instruction(&mut cpu, &mut mmu);
    assert_eq!(cpu.flags, flags(true, false, false, true));
}

#[test]
fn rotations_of_the_accumulator_clear_zero() {
    // LD A,0x80; RLCA; LD A,0x00; RLA; LD A,0x01; RRCA; RRA
    let (mut cpu, mut mmu) = machine(&[0x3E, 0x80, 0x07, 0x3E, 0x00, 0x17, 0x3E, 0x01, 0x0F, 0x1F]);
    run_instruction(&mut cpu, &mut mmu);
    assert_eq!(run_instruction(&mut cpu, &mut mmu), 1);
    assert_eq!(cpu.reg_a, 0x01);
    assert_eq!(cpu.flags, flags(false, false, false, true));
    run_instruction(&mut cpu, &mut mmu);
    run_instruction(&mut cpu, &mut mmu);
    assert_eq!(cpu.reg_a, 0x01);
    assert_eq!(cpu.flags, flags(false, false, false, false));
    run_instruction(&mut cpu, &mut mmu);
    run_instruction(&mut cpu, &mut mmu);
    assert_eq!(cpu.reg_a, 0x80);
    assert_eq!(cpu.flags, flags(false, false, false, true));
    run_instruction(&mut cpu, &mut mmu);
    assert_eq!(cpu.reg_a, 0xC0);
    assert_eq!(cpu.flags, flags(false, false, false, false));
}

#[test]
fn prefixed_rotations_and_shifts() {
    // LD B,0x80; RLC B; RL B; SLA B; LD B,0x81; SRA B; SRL B; SWAP B; RR B; RRC B
    let (mut cpu, mut mmu) = machine(
        &[
            0x06, 0x80, 0xCB, 0x00, 0xCB, 0x10, 0xCB, 0x20, 0x06, 0x81, 0xCB, 0x28, 0xCB, 0x38,
            0xCB, 0x30, 0xCB, 0x18, 0xCB, 0x08,
        ],
    );
    run_instruction(&mut cpu, &mut mmu);
    assert_eq!(run_instruction(&mut cpu, &mut mmu), 2);
    assert_eq!(cpu.reg_b, 0x01);
    assert_eq!(cpu.flags, flags(false, false, false, true));
    run_instruction(&mut cpu, &mut mmu);
    assert_eq!(cpu.reg_b, 0x03);
    assert_eq!(cpu.flags, flags(false, false, false, false));
    run_instruction(&mut cpu, &mut mmu);
    assert_eq!(cpu.reg_b, 0x06);
    run_instruction(&mut cpu, &mut mmu);
    run_instruction(&mut cpu, &mut mmu);
    assert_eq!(cpu.reg_b, 0xC0);
    assert_eq!(cpu.flags, flags(false, false, false, true));
    run_instruction(&mut cpu, &mut mmu);
    assert_eq!(cpu.reg_b, 0x60);
    assert_eq!(cpu.flags, flags(false, false, false, false));
    run_instruction(&mut cpu, &mut mmu);
    assert_eq!(cpu.reg_b, 0x06);
    run_instruction(&mut cpu, &mut mmu);
    assert_eq!(cpu.reg_b, 0x03);
    run_instruction(&mut cpu, &mut mmu);
    assert_eq!(cpu.reg_b, 0x81);
    assert_eq!(cpu.flags, flags(false, false, false, true));
}

#[test]
fn shift_to_zero_sets_zero() {
    // LD C,0x80; SLA C
    let (mut cpu, mut mmu) = machine(&[0x0E, 0x80, 0xCB, 0x21]);
    run_instruction(&mut cpu, &mut mmu);
    run_instruction(&mut cpu, &mut mmu);
    assert_eq!(cpu.reg_c, 0x00);
    assert_eq!(cpu.flags, flags(true, false, false, true));
}

#[test]
fn loads_through_hl_with_increment_and_decrement() {
    // LD HL,0xC000; LD A,0x11; LD (HL+),A; LD (HL-),A; LD A,(HL+); LD A,(HL-)
    let (mut cpu, mut mmu) = machine(&[0x21, 0x00, 0xC0, 0x3E, 0x11, 0x22, 0x32, 0x2A, 0x3A]);
    run_instruction(&mut cpu, &mut mmu);
    run_instruction(&mut cpu, &mut mmu);
    assert_eq!(run_instruction(&mut cpu, &mut mmu), 2);
    assert_eq!(cpu.load_reg16(Register16::HL), 0xC001);
    run_instruction(&mut cpu, &mut mmu);
    assert_eq!(cpu.load_reg16(Register16::HL), 0xC000);
    assert_eq!(mmu.read_memory(0xC000), 0x11);
    assert_eq!(mmu.read_memory(0xC001), 0x11);
    run_instruction(&mut cpu, &mut mmu);
    assert_eq!(cpu.load_reg16(Register16::HL), 0xC001);
    run_instruction(&mut cpu, &mut mmu);
    assert_eq!(cpu.load_reg16(Register16::HL), 0xC000);
}

#[test]
fn high_page_loads() {
    // LD A,0x42; LDH (0x80),A; LD C,0x81; LD (C),A; LDH A,(0x81); LD A,(C)
    let (mut cpu, mut mmu) =
        machine(&[0x3E, 0x42, 0xE0, 0x80, 0x0E, 0x81, 0xE2, 0xF0, 0x81, 0xF2]);
    run_instruction(&mut cpu, &mut mmu);
    assert_eq!(run_instruction(&mut cpu, &mut mmu), 3);
    assert_eq!(mmu.read_memory(0xFF80), 0x42);
    run_instruction(&mut cpu, &mut mmu);
    assert_eq!(run_instruction(&mut cpu, &mut mmu), 2);
    assert_eq!(mmu.read_memory(0xFF81), 0x42);
    cpu.reg_a = 0;
    assert_eq!(run_instruction(&mut cpu, &mut mmu), 3);
    assert_eq!(cpu.reg_a, 0x42);
    cpu.reg_a = 0;
    assert_eq!(run_instruction(&mut cpu, &mut mmu), 2);
    assert_eq!(cpu.reg_a, 0x42);
}

#[test]
fn store_sp_at_address() {
    // LD SP,0xBEEF; LD (0xC000),SP
    let (mut cpu, mut mmu) = machine(&[0x31, 0xEF, 0xBE, 0x08, 0x00, 0xC0]);
    run_instruction(&mut cpu, &mut mmu);
    assert_eq!(run_instruction(&mut cpu, &mut mmu), 5);
    assert_eq!(mmu.read_memory(0xC000), 0xEF);
    assert_eq!(mmu.read_memory(0xC001), 0xBE);
}

#[test]
fn restart_pushes_and_jumps() {
    // LD SP,0xFFFE; RST 0x28
    let (mut cpu, mut mmu) = machine(&[0x31, 0xFE, 0xFF, 0xEF]);
    run_instruction(&mut cpu, &mut mmu);
    assert_eq!(run_instruction(&mut cpu, &mut mmu), 4);
    assert_eq!(cpu.pc, 0x0028);
    assert_eq!(mmu.read_memory(0xFFFD), 0x01);
    assert_eq!(mmu.read_memory(0xFFFC), 0x04);
}

#[test]
fn jump_to_hl_takes_one_cycle() {
    // LD HL,0x0150; JP HL
    let (mut cpu, mut mmu) = machine(&[0x21, 0x50, 0x01, 0xE9]);
    run_instruction(&mut cpu, &mut mmu);
    assert_eq!(run_instruction(&mut cpu, &mut mmu), 1);
    assert_eq!(cpu.pc, 0x0150);
}

#[test]
fn unknown_opcode_is_a_fault() {
    let (mut cpu, mut mmu) = machine(&[0xD3]);
    assert_eq!(cpu.step(&mut mmu), Err(Fault::UnknownOpcode { opcode: 0xD3, pc: 0x0100 }));
    assert_eq!(cpu.pc, 0x0101);
    assert!(cpu.is_pipeline_empty());
}

#[test]
fn eleven_opcodes_encode_nothing() {
    let unknown = [0xD3u8, 0xDB, 0xDD, 0xE3, 0xE4, 0xEB, 0xEC, 0xED, 0xF4, 0xFC, 0xFD];
    for opcode in 0..=255u8 {
        let (mut cpu, mmu) = machine(&[opcode, 0x00, 0x00]);
        let decoded = decode_instruction(&mut cpu, &mmu);
        if unknown.contains(&opcode) {
            assert_eq!(decoded, Err(Fault::UnknownOpcode { opcode, pc: 0x0100 }));
        } else {
            assert!(decoded.is_ok());
        }
    }
}

#[test]
fn decoder_reads_operands() {
    let (mut cpu, mmu) = machine(&[0x01, 0x34, 0x12]);
    assert_eq!(
        decode_instruction(&mut cpu, &mmu),
        Ok(Instruction::LoadLiteralIntoReg16 { reg: Register16::BC, literal: 0x1234 })
    );
    assert_eq!(cpu.pc, 0x0103);

    let (mut cpu, mmu) = machine(&[0x20, 0xFE]);
    assert_eq!(
        cpu.fetch_and_decode(&mmu),
        Ok(Instruction::JumpRelative { condition: Some(JumpCondition::NonZero), offset: -2 })
    );
    assert_eq!(cpu.pc, 0x0102);

    let (mut cpu, mmu) = machine(&[0xCB, 0xFE]);
    assert_eq!(
        decode_instruction(&mut cpu, &mmu),
        Ok(Instruction::SetBitIndirect { addr: Register16::HL, bit: 7 })
    );
    assert_eq!(cpu.pc, 0x0102);

    let (mut cpu, mmu) = machine(&[0x76]);
    assert_eq!(decode_instruction(&mut cpu, &mmu), Ok(Instruction::Halt));

    let (mut cpu, mmu) = machine(&[0x10, 0x00]);
    assert_eq!(decode_instruction(&mut cpu, &mmu), Ok(Instruction::Stop));
    assert_eq!(cpu.pc, 0x0102);

    let (mut cpu, mmu) = machine(&[0x3A]);
    assert_eq!(
        decode_instruction(&mut cpu, &mmu),
        Ok(Instruction::ReadIndirectToReg8 {
            reg: Register8::A,
            addr: Register16::HL,
            post_op: Some(PrePostOperation::Dec),
        })
    );
}

#[test]
fn fetch_reads_little_endian() {
    let (mut cpu, mmu) = machine(&[0xCD, 0xAB]);
    assert_eq!(cpu.fetch_and_advance(&mmu), 0xCD);
    assert_eq!(cpu.pc, 0x0101);
    cpu.pc = 0x0100;
    assert_eq!(cpu.fetch_and_advance_u16(&mmu), 0xABCD);
    assert_eq!(cpu.pc, 0x0102);
}

#[test]
fn fetch_wraps_around_the_address_space() {
    let (mut cpu, mut mmu) = machine(&[]);
    mmu.write_memory(0xFFFF, 0x1F).unwrap();
    cpu.pc = 0xFFFF;
    assert_eq!(cpu.fetch_and_advance(&mmu), 0x1F);
    assert_eq!(cpu.pc, 0x0000);
}

#[test]
fn expansion_of_conditional_call() {
    let ops =
        Instruction::CallAddr { condition: Some(JumpCondition::Carry), addr: 0x1234 }.to_micro_ops();
    let push = |reg| MicroOp::WriteMem {
        addr: Register16::SP,
        reg,
        pre_op: Some(PrePostOperation::Dec),
        post_op: None,
    };
    assert_eq!(
        ops,
        vec![
            MicroOp::NOP,
            MicroOp::NOP,
            MicroOp::CheckFlags {
                condition: JumpCondition::Carry,
                true_ops: vec![
                    push(Register8::PCHigh),
                    push(Register8::PCLow),
                    MicroOp::LoadReg16Lit { reg: Register16::PC, literal: 0x1234 },
                ],
                false_ops: vec![],
            },
        ]
    );
}

#[test]
fn expansion_of_loads() {
    assert_eq!(Instruction::NOP.to_micro_ops(), vec![MicroOp::NOP]);
    assert_eq!(
        Instruction::Move { dest: Register8::B, src: Register8::C }.to_micro_ops(),
        vec![move_micro_op(Register8::B, Register8::C)]
    );
    assert_eq!(
        Instruction::LoadLiteralIntoReg16 { reg: Register16::DE, literal: 0xBEEF }.to_micro_ops(),
        vec![
            MicroOp::NOP,
            load_literal_into_reg8(0xEF, Register8::E),
            load_literal_into_reg8(0xBE, Register8::D),
        ]
    );
    assert_eq!(
        Instruction::WriteReg16ValueAtAddress { addr: 0xFFFF, reg: Register16::SP }.to_micro_ops(),
        vec![
            MicroOp::NOP,
            MicroOp::NOP,
            MicroOp::NOP,
            MicroOp::Move8Bits {
                destination: Destination8Bits::Address(0xFFFF),
                source: Source8bits::Register(Register8::SPLow),
            },
            MicroOp::Move8Bits {
                destination: Destination8Bits::Address(0x0000),
                source: Source8bits::Register(Register8::SPHigh),
            },
        ]
    );
    assert_eq!(
        Instruction::JumpRelative { condition: None, offset: -3 }.to_micro_ops(),
        vec![MicroOp::NOP, MicroOp::NOP, jump_relative(-3)]
    );
    assert_eq!(
        Instruction::SwapIndirect { addr: Register16::HL }.to_micro_ops(),
        vec![
            MicroOp::NOP,
            MicroOp::NOP,
            MicroOp::NOP,
            MicroOp::SwapReg8 { reg: Reg8OrIndirect::Indirect(Register16::HL) },
        ]
    );
}

#[test]
fn micro_op_helpers() {
    assert_eq!(
        load_literal_into_reg8(9, Register8::L),
        MicroOp::Move8Bits {
            destination: Destination8Bits::Register(Register8::L),
            source: Source8bits::Literal(9),
        }
    );
    assert_eq!(
        jump_relative(5),
        MicroOp::AddOffsetToReg16IntoReg16 {
            dest: Register16::PC,
            rhs: Register16::PC,
            offset: 5,
            update_flags: false,
        }
    );
}

#[test]
fn interrupt_service_takes_five_cycles() {
    // EI; NOP; NOP ...
    let (mut cpu, mut mmu) = machine(&[0xFB, 0x00, 0x00, 0x00]);
    cpu.sp = 0xFFFE;
    mmu.write_memory(0xFFFF, 0x04).unwrap();
    run_instruction(&mut cpu, &mut mmu);
    assert!(mmu.interrupt_controller.master_enable);
    mmu.interrupt_controller.trigger_timer_int();
    let cycles = run_instruction(&mut cpu, &mut mmu);
    assert_eq!(cycles, 5);
    assert_eq!(cpu.pc, 0x0050);
    assert_eq!(cpu.sp, 0xFFFC);
    assert_eq!(mmu.read_memory(0xFFFD), 0x01);
    assert_eq!(mmu.read_memory(0xFFFC), 0x01);
    assert!(!mmu.interrupt_controller.master_enable);
    assert_eq!(mmu.read_memory(0xFF0F) & 0x04, 0x00);
}

#[test]
fn interrupt_vectors() {
    let vectors = [(0x01u8, 0x40u16), (0x02, 0x48), (0x04, 0x50), (0x08, 0x58), (0x10, 0x60)];
    for (bit, vector) in vectors {
        let (mut cpu, mut mmu) = machine(&[0x00]);
        cpu.sp = 0xFFFE;
        mmu.write_memory(0xFFFF, 0x1F).unwrap();
        mmu.write_memory(0xFF0F, bit).unwrap();
        mmu.interrupt_controller.master_enable = true;
        run_instruction(&mut cpu, &mut mmu);
        assert_eq!(cpu.pc, vector);
    }
}

#[test]
fn reti_enables_interrupts() {
    // LD SP,0xFFFE; LD HL,0x0150; PUSH HL; RETI
    let (mut cpu, mut mmu) = machine(&[0x31, 0xFE, 0xFF, 0x21, 0x50, 0x01, 0xE5, 0xD9]);
    for _ in 0..3 {
        run_instruction(&mut cpu, &mut mmu);
    }
    assert!(!mmu.interrupt_controller.master_enable);
    assert_eq!(run_instruction(&mut cpu, &mut mmu), 4);
    assert_eq!(cpu.pc, 0x0150);
    assert!(mmu.interrupt_controller.master_enable);
}

#[test]
fn di_disables_interrupts() {
    let (mut cpu, mut mmu) = machine(&[0xFB, 0xF3]);
    run_instruction(&mut cpu, &mut mmu);
    assert!(mmu.interrupt_controller.master_enable);
    run_instruction(&mut cpu, &mut mmu);
    assert!(!mmu.interrupt_controller.master_enable);
}

#[test]
fn halt_waits_for_an_interrupt() {
    // HALT; NOP
    let (mut cpu, mut mmu) = machine(&[0x76, 0x00]);
    run_instruction(&mut cpu, &mut mmu);
    assert!(cpu.halted);
    for _ in 0..10 {
        cpu.step(&mut mmu).unwrap();
    }
    assert_eq!(cpu.pc, 0x0101);
    // master enable is off: the interrupt wakes the CPU and is not serviced
    mmu.write_memory(0xFFFF, 0x01).unwrap();
    mmu.interrupt_controller.trigger_vblank_int();
    cpu.step(&mut mmu).unwrap();
    assert!(!cpu.halted);
    assert_eq!(cpu.pc, 0x0102);
    assert_eq!(mmu.read_memory(0xFF0F) & 0x01, 0x01);
}

#[test]
fn stop_freezes_the_timer() {
    // STOP
    let (mut cpu, mut mmu) = machine(&[0x10, 0x00, 0x00]);
    run_instruction(&mut cpu, &mut mmu);
    assert!(cpu.stoped);
    assert_eq!(cpu.pc, 0x0102);
    let before = mmu.interrupt_controller;
    for _ in 0..100 {
        cpu.step(&mut mmu).unwrap();
    }
    assert_eq!(mmu.interrupt_controller, before);
    assert_eq!(cpu.pc, 0x0102);
}

#[test]
fn step_advances_the_divider() {
    let (mut cpu, mut mmu) = machine(&[0x00; 0x80]);
    for _ in 0..64 {
        cpu.step(&mut mmu).unwrap();
    }
    assert_eq!(mmu.read_memory(0xFF04), 1);
}

#[test]
fn serial_output_through_the_cpu() {
    // LD A,'H'; LDH (0x01),A; LD A,0x81; LDH (0x02),A
    let (mut cpu, mut mmu) = machine(&[0x3E, b'H', 0xE0, 0x01, 0x3E, 0x81, 0xE0, 0x02]);
    for _ in 0..4 {
        run_instruction(&mut cpu, &mut mmu);
    }
    assert_eq!(mmu.take_serial_output(), vec![b'H']);
    assert_eq!(mmu.take_serial_output(), Vec::<u8>::new());
}

#[test]
fn new_cpu_is_cleared() {
    let cpu = CPU::new();
    assert_eq!(cpu.pc, 0);
    assert_eq!(cpu.sp, 0);
    assert_eq!(cpu.load_reg16(Register16::AF), 0);
    assert!(cpu.is_pipeline_empty());
    assert!(!cpu.halted);
    assert!(!cpu.stoped);
}

#[test]
fn operands_from_registers_and_literals() {
    assert_eq!(Source8bits::from(Register8::B), Source8bits::Register(Register8::B));
    assert_eq!(Source8bits::from(Register16::HL), Source8bits::Indirect(Register16::HL));
    assert_eq!(Source8bits::from(0x12u8), Source8bits::Literal(0x12));
    assert_eq!(Reg8OrIndirect::from(Register8::A), Reg8OrIndirect::Reg8(Register8::A));
    let target: Reg8OrIndirect = Register16::HL.into();
    assert_eq!(target, Reg8OrIndirect::Indirect(Register16::HL));
}

#[test]
fn every_instruction_length() {
    // the number of bytes of each opcode, 0 for the opcodes that encode nothing
    let lengths: [u8; 256] = [
        1, 3, 1, 1, 1, 1, 2, 1, 3, 1, 1, 1, 1, 1, 2, 1, //
        2, 3, 1, 1, 1, 1, 2, 1, 2, 1, 1, 1, 1, 1, 2, 1, //
        2, 3, 1, 1, 1, 1, 2, 1, 2, 1, 1, 1, 1, 1, 2, 1, //
        2, 3, 1, 1, 1, 1, 2, 1, 2, 1, 1, 1, 1, 1, 2, 1, //
        1, 1, 1, 1, 1, 1, 1, 1, 1, 1, 1, 1, 1, 1, 1, 1, //
        1, 1, 1, 1, 1, 1, 1, 1, 1, 1, 1, 1, 1, 1, 1, 1, //
        1, 1, 1, 1, 1, 1, 1, 1, 1, 1, 1, 1, 1, 1, 1, 1, //
        1, 1, 1, 1, 1, 1, 1, 1, 1, 1, 1, 1, 1, 1, 1, 1, //
        1, 1, 1, 1, 1, 1, 1, 1, 1, 1, 1, 1, 1, 1, 1, 1, //
        1, 1, 1, 1, 1, 1, 1, 1, 1, 1, 1, 1, 1, 1, 1, 1, //
        1, 1, 1, 1, 1, 1, 1, 1, 1, 1, 1, 1, 1, 1, 1, 1, //
        1, 1, 1, 1, 1, 1, 1, 1, 1, 1, 1, 1, 1, 1, 1, 1, //
        1, 1, 3, 3, 3, 1, 2, 1, 1, 1, 3, 2, 3, 3, 2, 1, //
        1, 1, 3, 0, 3, 1, 2, 1, 1, 1, 3, 0, 3, 0, 2, 1, //
        2, 1, 1, 0, 0, 1, 2, 1, 2, 1, 3, 0, 0, 0, 2, 1, //
        2, 1, 1, 1, 0, 1, 2, 1, 2, 1, 3, 1, 0, 0, 2, 1, //
    ];
    for opcode in 0..=255u8 {
        let (mut cpu, mmu) = machine(&[opcode, 0x00, 0x00]);
        let decoded = decode_instruction(&mut cpu, &mmu);
        let length = lengths[opcode as usize];
        if length == 0 {
            assert!(decoded.is_err());
            assert_eq!(cpu.pc, 0x0101);
        } else {
            assert!(decoded.is_ok());
            assert_eq!(cpu.pc, 0x0100 + length as u16, "opcode {:#04x}", opcode);
        }
    }
}

#[test]
fn every_instruction_cycle_count() {
    // machine cycles of each opcode when its condition, if any, fails
    let cycles: [u8; 256] = [
        1, 3, 2, 2, 1, 1, 2, 1, 5, 2, 2, 2, 1, 1, 2, 1, //
        1, 3, 2, 2, 1, 1, 2, 1, 3, 2, 2, 2, 1, 1, 2, 1, //
        2, 3, 2, 2, 1, 1, 2, 1, 2, 2, 2, 2, 1, 1, 2, 1, //
        2, 3, 2, 2, 3, 3, 3, 1, 2, 2, 2, 2, 1, 1, 2, 1, //
        1, 1, 1, 1, 1, 1, 2, 1, 1, 1, 1, 1, 1, 1, 2, 1, //
        1, 1, 1, 1, 1, 1, 2, 1, 1, 1, 1, 1, 1, 1, 2, 1, //
        1, 1, 1, 1, 1, 1, 2, 1, 1, 1, 1, 1, 1, 1, 2, 1, //
        2, 2, 2, 2, 2, 2, 1, 2, 1, 1, 1, 1, 1, 1, 2, 1, //
        1, 1, 1, 1, 1, 1, 2, 1, 1, 1, 1, 1, 1, 1, 2, 1, //
        1, 1, 1, 1, 1, 1, 2, 1, 1, 1, 1, 1, 1, 1, 2, 1, //
        1, 1, 1, 1, 1, 1, 2, 1, 1, 1, 1, 1, 1, 1, 2, 1, //
        1, 1, 1, 1, 1, 1, 2, 1, 1, 1, 1, 1, 1, 1, 2, 1, //
        2, 3, 3, 4, 3, 4, 2, 4, 2, 4, 3, 0, 3, 6, 2, 4, //
        2, 3, 3, 0, 3, 4, 2, 4, 2, 4, 3, 0, 3, 0, 2, 4, //
        3, 3, 2, 0, 0, 4, 2, 4, 4, 1, 4, 0, 0, 0, 2, 4, //
        3, 3, 2, 1, 0, 4, 2, 4, 3, 2, 4, 1, 0, 0, 2, 4, //
    ];
    for opcode in 0..=255u8 {
        let expected = cycles[opcode as usize];
        if expected == 0 {
            continue;
        }
        let (mut cpu, mut mmu) = machine(&[opcode, 0x00, 0xC0]);
        cpu.sp = 0xD000;
        // Z and C clear: the conditions NZ and NC hold, Z and C fail
        let holds = matches!(opcode, 0x20 | 0x30 | 0xC0 | 0xD0 | 0xC2 | 0xD2 | 0xC4 | 0xD4);
        if holds {
            cpu.flags = flags(true, false, false, true);
        }
        assert_eq!(run_instruction(&mut cpu, &mut mmu), expected as usize, "opcode {:#04x}", opcode);
    }
}

#[test]
fn every_prefixed_instruction_cycle_count() {
    for opcode in 0..=255u8 {
        let (mut cpu, mut mmu) = machine(&[0xCB, opcode]);
        cpu.store_reg16(Register16::HL, 0xC000);
        let on_memory = opcode % 8 == 6;
        let test = (0x40..0x80).contains(&opcode);
        let expected = match (on_memory, test) {
            (false, _) => 2,
            (true, true) => 3,
            (true, false) => 4,
        };
        assert_eq!(run_instruction(&mut cpu, &mut mmu), expected, "opcode {:#04x}", opcode);
        assert_eq!(cpu.pc, 0x0102);
    }
}

#[test]
fn addition_flags() {
    // LD A,0x0F; LD B,0x01; ADD A,B; LD A,0xF0; ADD A,0x10
    let (mut cpu, mut mmu) = machine(&[0x3E, 0x0F, 0x06, 0x01, 0x80, 0x3E, 0xF0, 0xC6, 0x10]);
    for _ in 0..3 {
        run_instruction(&mut cpu, &mut mmu);
    }
    assert_eq!(cpu.reg_a, 0x10);
    assert_eq!(cpu.flags, flags(false, false, true, false));
    run_instruction(&mut cpu, &mut mmu);
    run_instruction(&mut cpu, &mut mmu);
    assert_eq!(cpu.reg_a, 0x00);
    assert_eq!(cpu.flags, flags(true, false, false, true));
}

#[test]
fn subtraction_flags() {
    // LD A,0x10; SUB 0x01; LD A,0x00; SUB 0x01; LD A,0x42; CP 0x42; CP 0x43
    let (mut cpu, mut mmu) = machine(
        &[0x3E, 0x10, 0xD6, 0x01, 0x3E, 0x00, 0xD6, 0x01, 0x3E, 0x42, 0xFE, 0x42, 0xFE, 0x43],
    );
    run_instruction(&mut cpu, &mut mmu);
    run_instruction(&mut cpu, &mut mmu);
    assert_eq!(cpu.reg_a, 0x0F);
    assert_eq!(cpu.flags, flags(false, true, true, false));
    run_instruction(&mut cpu, &mut mmu);
    run_instruction(&mut cpu, &mut mmu);
    assert_eq!(cpu.reg_a, 0xFF);
    assert_eq!(cpu.flags, flags(false, true, true, true));
    run_instruction(&mut cpu, &mut mmu);
    run_instruction(&mut cpu, &mut mmu);
    assert_eq!(cpu.reg_a, 0x42);
    assert_eq!(cpu.flags, flags(true, true, false, false));
    run_instruction(&mut cpu, &mut mmu);
    assert_eq!(cpu.reg_a, 0x42);
    assert_eq!(cpu.flags, flags(false, true, true, true));
}

#[test]
fn carry_chains() {
    // LD A,0x00; SCF; SBC A,0xFF; LD A,0x0F; SCF; ADC A,0x00; LD A,0xFF; SCF; ADC A,0xFF
    let (mut cpu, mut mmu) = machine(
        &[
            0x3E, 0x00, 0x37, 0xDE, 0xFF, 0x3E, 0x0F, 0x37, 0xCE, 0x00, 0x3E, 0xFF, 0x37, 0xCE,
            0xFF,
        ],
    );
    for _ in 0..3 {
        run_instruction(&mut cpu, &mut mmu);
    }
    assert_eq!(cpu.reg_a, 0x00);
    assert_eq!(cpu.flags, flags(true, true, true, true));
    for _ in 0..3 {
        run_instruction(&mut cpu, &mut mmu);
    }
    assert_eq!(cpu.reg_a, 0x10);
    assert_eq!(cpu.flags, flags(false, false, true, false));
    for _ in 0..3 {
        run_instruction(&mut cpu, &mut mmu);
    }
    assert_eq!(cpu.reg_a, 0xFF);
    assert_eq!(cpu.flags, flags(false, false, true, true));
}

#[test]
fn counting_in_memory() {
    // LD HL,0xC000; LD (HL),0xFF; INC (HL); DEC (HL)
    let (mut cpu, mut mmu) = machine(&[0x21, 0x00, 0xC0, 0x36, 0xFF, 0x34, 0x35]);
    run_instruction(&mut cpu, &mut mmu);
    assert_eq!(run_instruction(&mut cpu, &mut mmu), 3);
    assert_eq!(mmu.read_memory(0xC000), 0xFF);
    assert_eq!(run_instruction(&mut cpu, &mut mmu), 3);
    assert_eq!(mmu.read_memory(0xC000), 0x00);
    assert_eq!(cpu.flags, flags(true, false, true, false));
    assert_eq!(run_instruction(&mut cpu, &mut mmu), 3);
    assert_eq!(mmu.read_memory(0xC000), 0xFF);
    assert_eq!(cpu.flags, flags(false, true, true, false));
}

#[test]
fn push_and_pop_round_trip() {
    // LD SP,0xD000; LD BC,0xBEEF; PUSH BC; POP DE; LD HL,0x1234; LD SP,HL
    let (mut cpu, mut mmu) =
        machine(&[0x31, 0x00, 0xD0, 0x01, 0xEF, 0xBE, 0xC5, 0xD1, 0x21, 0x34, 0x12, 0xF9]);
    run_instruction(&mut cpu, &mut mmu);
    run_instruction(&mut cpu, &mut mmu);
    assert_eq!(run_instruction(&mut cpu, &mut mmu), 4);
    assert_eq!(cpu.sp, 0xCFFE);
    assert_eq!(mmu.read_memory(0xCFFF), 0xBE);
    assert_eq!(mmu.read_memory(0xCFFE), 0xEF);
    assert_eq!(run_instruction(&mut cpu, &mut mmu), 3);
    assert_eq!(cpu.load_reg16(Register16::DE), 0xBEEF);
    assert_eq!(cpu.sp, 0xD000);
    run_instruction(&mut cpu, &mut mmu);
    assert_eq!(run_instruction(&mut cpu, &mut mmu), 2);
    assert_eq!(cpu.sp, 0x1234);
}

#[test]
fn stack_wraps_around() {
    // PUSH BC with SP = 0x0000 writes at 0xFFFF and 0xFFFE
    let (mut cpu, mut mmu) = machine(&[0x01, 0x1F, 0x80, 0xC5]);
    run_instruction(&mut cpu, &mut mmu);
    run_instruction(&mut cpu, &mut mmu);
    assert_eq!(cpu.sp, 0xFFFE);
    assert_eq!(mmu.read_memory(0xFFFF), 0x80);
    assert_eq!(mmu.read_memory(0xFFFE), 0x1F);
}

#[test]
fn write_to_cartridge_mode_register_stops_the_cpu() {
    // LD A,1; LD (0x6000),A on an MBC1 cartridge
    let mut rom = vec![0u8; 0x10000];
    rom[0x0147] = 0x01;
    rom[0x0148] = 0x01;
    let program = [0x3E, 0x01, 0xEA, 0x00, 0x60];
    rom[0x100..0x100 + program.len()].copy_from_slice(&program);
    let mbc = build_mbc(&rom).unwrap();
    let mut mmu = MMU::new(mbc, InterruptController::new(), SerialBuffer::new());
    mmu.unmount_bootstrap_rom();
    let mut cpu = CPU::new();
    cpu.pc = 0x100;
    run_instruction(&mut cpu, &mut mmu);
    for _ in 0..3 {
        assert_eq!(cpu.step(&mut mmu), Ok(()));
    }
    assert_eq!(
        cpu.step(&mut mmu),
        Err(Fault::UnsupportedBankingMode { addr: 0x6000, value: 0x01 })
    );
}

#[test]
fn set_and_reset_bits_of_registers() {
    // LD A,0x00; SET 0,A; SET 7,A; RES 0,A; LD L,0xFF; RES 3,L
    let (mut cpu, mut mmu) =
        machine(&[0x3E, 0x00, 0xCB, 0xC7, 0xCB, 0xFF, 0xCB, 0x87, 0x2E, 0xFF, 0xCB, 0x9D]);
    cpu.flags = flags(true, true, true, true);
    for _ in 0..3 {
        run_instruction(&mut cpu, &mut mmu);
    }
    assert_eq!(cpu.reg_a, 0x81);
    run_instruction(&mut cpu, &mut mmu);
    assert_eq!(cpu.reg_a, 0x80);
    run_instruction(&mut cpu, &mut mmu);
    run_instruction(&mut cpu, &mut mmu);
    assert_eq!(cpu.reg_l, 0xF7);
    assert_eq!(cpu.flags, flags(true, true, true, true));
}

#[test]
fn alu_on_plain_values() {
    use_alu();
}

fn use_alu() {
    let none = flags(false, false, false, false);
    assert_eq!(gbemu::cpu::alu::add_a(0x3A, 0xC6, false).value, 0x00);
    assert_eq!(gbemu::cpu::alu::add_a(0x3A, 0xC6, false).flags, flags(true, false, true, true));
    assert_eq!(gbemu::cpu::alu::sub_a(0x3E, 0x0F, false).value, 0x2F);
    assert_eq!(gbemu::cpu::alu::sub_a(0x3E, 0x0F, false).flags, flags(false, true, true, false));
    assert_eq!(gbemu::cpu::alu::and_a(0x5A, 0x3F).value, 0x1A);
    assert_eq!(gbemu::cpu::alu::or_a(0x5A, 0x0F).value, 0x5F);
    assert_eq!(gbemu::cpu::alu::xor_a(0xFF, 0x0F).value, 0xF0);
    assert_eq!(gbemu::cpu::alu::increment(0xFF, none).value, 0x00);
    assert_eq!(gbemu::cpu::alu::decrement(0x00, none).value, 0xFF);
    assert_eq!(gbemu::cpu::alu::add_hl(0x8A23, 0x0605, none).value, 0x9028);
    assert_eq!(gbemu::cpu::alu::add_hl(0x8A23, 0x0605, none).flags, flags(false, false, true, false));
    assert_eq!(gbemu::cpu::alu::add_hl(0x8A23, 0x8A23, none).value, 0x1446);
    assert_eq!(gbemu::cpu::alu::add_hl(0x8A23, 0x8A23, none).flags, flags(false, false, true, true));
    assert_eq!(gbemu::cpu::alu::add_signed_offset(0xFFF8, 2).value, 0xFFFA);
    assert_eq!(gbemu::cpu::alu::add_signed_offset(0x0000, -1).value, 0xFFFF);
    assert_eq!(gbemu::cpu::alu::add_signed_offset(0xFFFF, 1).value, 0x0000);
    assert_eq!(gbemu::cpu::alu::decimal_adjust(0x7D, none).value, 0x83);
    assert_eq!(gbemu::cpu::alu::rotate_left_op(0x85, true).value, 0x0B);
    assert_eq!(gbemu::cpu::alu::rotate_right_op(0x3B, true).value, 0x9D);
    assert_eq!(gbemu::cpu::alu::rotate_left_through_carry_op(0x95, flags(false, false, false, true), true).value, 0x2B);
    assert_eq!(gbemu::cpu::alu::rotate_right_through_carry_op(0x81, none, true).value, 0x40);
    assert_eq!(gbemu::cpu::alu::shift_left_op(0x80).flags, flags(true, false, false, true));
    assert_eq!(gbemu::cpu::alu::shift_right_logical_op(0x01).flags, flags(true, false, false, true));
    assert_eq!(gbemu::cpu::alu::shift_right_arithmetic_op(0x8A).value, 0xC5);
    assert_eq!(gbemu::cpu::alu::swap_op(0xF1).value, 0x1F);
    assert_eq!(gbemu::cpu::alu::swap_op(0x00).flags, flags(true, false, false, false));
    assert_eq!(gbemu::cpu::alu::to_signed(0x7F), 127);
    assert_eq!(gbemu::cpu::alu::to_signed(0x80), -128);
    assert_eq!(gbemu::cpu::alu::to_signed(0xFF), -1);
    assert!(gbemu::cpu::alu::check_half_carry(0x0F, 0x01));
    assert!(!gbemu::cpu::alu::check_half_carry(0x0E, 0x01));
    assert!(gbemu::cpu::alu::check_half_carry_16bits_high(0x0FFF, 0x0001));
    assert!(gbemu::cpu::alu::check_half_carry_16bits_mid(0x00FF, 0x0001));
    assert!(gbemu::cpu::alu::check_half_carry_16bits_low(0x120F, 0x3401));
}
