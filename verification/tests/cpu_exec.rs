//! End-to-end scenarios: single instructions executed on a fresh CPU, with
//! registers, flags, memory and cycle counts checked against the 6502
//! reference behaviour.

use mos6502::cpu::Cpu;
use mos6502::cpu_helpers::AddressMode;
use mos6502::cpu_helpers::Operation;
use mos6502::cpu_helpers::FLAG_BREAK;
use mos6502::cpu_helpers::FLAG_CARRY;
use mos6502::cpu_helpers::FLAG_DECIMAL;
use mos6502::cpu_helpers::FLAG_INTERRUPT;
use mos6502::cpu_helpers::FLAG_NEGATIVE;
use mos6502::cpu_helpers::FLAG_OVERFLOW;
use mos6502::cpu_helpers::FLAG_UNUSED;
use mos6502::cpu_helpers::FLAG_ZERO;

fn cpu_with(program: &[u8], at: u16) -> Cpu {
    let mut cpu = Cpu::new();
    cpu.load_bytes(at, program);
    cpu.pc = at;
    cpu
}

#[test]
fn reset_state_matches_the_data_model() {
    let cpu = Cpu::new();
    assert_eq!(cpu.a, 0);
    assert_eq!(cpu.x, 0);
    assert_eq!(cpu.y, 0);
    assert_eq!(cpu.pc, 0);
    assert_eq!(cpu.sp, 0xFF);
    assert_eq!(cpu.sr, 0b0011_0100);
    assert_eq!(cpu.cycles, 0);
    assert_eq!(cpu.read_memory_u8(0x0000), 0);
    assert_eq!(cpu.read_memory_u8(0xFFFF), 0);
}

#[test]
fn memory_words_are_little_endian_and_wrap() {
    let mut cpu = Cpu::new();
    cpu.write_memory_u16(0x1234, 0xBEEF);
    assert_eq!(cpu.read_memory_u8(0x1234), 0xEF);
    assert_eq!(cpu.read_memory_u8(0x1235), 0xBE);
    assert_eq!(cpu.read_memory_u16(0x1234), 0xBEEF);
    // The second byte of a word at 0xFFFF wraps to 0x0000.
    cpu.write_memory_u16(0xFFFF, 0x1234);
    assert_eq!(cpu.read_memory_u8(0xFFFF), 0x34);
    assert_eq!(cpu.read_memory_u8(0x0000), 0x12);
    assert_eq!(cpu.read_memory_u16(0xFFFF), 0x1234);
}

#[test]
fn flags_set_and_clear_together_under_a_multi_bit_mask() {
    let mut cpu = Cpu::new();
    cpu.sr = 0;
    cpu.set_flag(true, FLAG_CARRY | FLAG_NEGATIVE);
    assert!(cpu.get_flag(FLAG_CARRY));
    assert!(cpu.get_flag(FLAG_NEGATIVE));
    assert!(!cpu.get_flag(FLAG_ZERO));
    cpu.set_flag(false, FLAG_CARRY | FLAG_NEGATIVE);
    assert_eq!(cpu.sr, 0);
}

#[test]
fn lda_immediate_sets_zero_and_clears_negative() {
    let mut cpu = cpu_with(&[0xA9, 0x00], 0x400);
    cpu.a = 0x55;
    let cycles = cpu.execute_next_instruction().unwrap();
    assert_eq!(cpu.a, 0);
    assert!(cpu.get_flag(FLAG_ZERO));
    assert!(!cpu.get_flag(FLAG_NEGATIVE));
    assert_eq!(cycles, 2);
    assert_eq!(cpu.cycles, 2);
    assert_eq!(cpu.pc, 0x402);
}

#[test]
fn adc_binary_overflow_sets_negative_and_overflow() {
    let mut cpu = cpu_with(&[0x69, 0x50], 0x600);
    cpu.a = 0x50;
    cpu.sr = 0;
    let cycles = cpu.execute_next_instruction().unwrap();
    assert_eq!(cpu.a, 0xA0);
    assert!(cpu.get_flag(FLAG_NEGATIVE));
    assert!(cpu.get_flag(FLAG_OVERFLOW));
    assert!(!cpu.get_flag(FLAG_CARRY));
    assert!(!cpu.get_flag(FLAG_ZERO));
    assert_eq!(cycles, 2);
}

#[test]
fn adc_decimal_adds_packed_digits() {
    let mut cpu = cpu_with(&[0x69, 0x48], 0x800);
    cpu.a = 0x25;
    cpu.sr = FLAG_DECIMAL;
    let cycles = cpu.execute_next_instruction().unwrap();
    assert_eq!(cpu.a, 0x73);
    assert!(!cpu.get_flag(FLAG_CARRY));
    assert_eq!(cycles, 2);
}

#[test]
fn sbc_binary_borrow_clears_carry() {
    let mut cpu = cpu_with(&[0xE9, 0x01], 0x400);
    cpu.a = 0x00;
    cpu.sr = FLAG_CARRY;
    cpu.execute_next_instruction().unwrap();
    assert_eq!(cpu.a, 0xFF);
    assert!(!cpu.get_flag(FLAG_CARRY));
    assert!(cpu.get_flag(FLAG_NEGATIVE));
    assert!(!cpu.get_flag(FLAG_ZERO));
}

#[test]
fn sbc_decimal_subtracts_packed_digits() {
    let mut cpu = cpu_with(&[0xE9, 0x29], 0x400);
    cpu.a = 0x44;
    cpu.sr = FLAG_DECIMAL | FLAG_CARRY;
    cpu.execute_next_instruction().unwrap();
    assert_eq!(cpu.a, 0x15);
    assert!(cpu.get_flag(FLAG_CARRY));
}

#[test]
fn jsr_and_rts_round_trip() {
    let mut cpu = cpu_with(&[0x20, 0x00, 0x20], 0x1000);
    cpu.load_bytes(0x2000, &[0x60]);
    let cycles = cpu.execute_next_instruction().unwrap();
    assert_eq!(cpu.pc, 0x2000);
    assert_eq!(cpu.sp, 0xFD);
    // The pushed return address 0x1002 sits little-endian at the top of the
    // stack page.
    assert_eq!(cpu.read_memory_u8(0x01FE), 0x02);
    assert_eq!(cpu.read_memory_u8(0x01FF), 0x10);
    assert_eq!(cycles, 6);
    let cycles = cpu.execute_next_instruction().unwrap();
    assert_eq!(cpu.pc, 0x1003);
    assert_eq!(cpu.sp, 0xFF);
    assert_eq!(cycles, 6);
}

#[test]
fn taken_branch_across_a_page_costs_four_cycles() {
    let mut cpu = cpu_with(&[0xD0, 0x05], 0x10FD);
    cpu.sr = 0;
    let cycles = cpu.execute_next_instruction().unwrap();
    assert_eq!(cpu.pc, 0x1104);
    assert_eq!(cycles, 4);
    assert_eq!(cpu.cycles, 4);
}

#[test]
fn taken_branch_within_a_page_costs_three_cycles() {
    let mut cpu = cpu_with(&[0xD0, 0x05], 0x1000);
    cpu.sr = 0;
    let cycles = cpu.execute_next_instruction().unwrap();
    assert_eq!(cpu.pc, 0x1007);
    assert_eq!(cycles, 3);
}

#[test]
fn branch_not_taken_falls_through_in_two_cycles() {
    let mut cpu = cpu_with(&[0xD0, 0x05], 0x10FD);
    cpu.sr = FLAG_ZERO;
    let cycles = cpu.execute_next_instruction().unwrap();
    assert_eq!(cpu.pc, 0x10FF);
    assert_eq!(cycles, 2);
}

#[test]
fn brk_vectors_through_fffe_and_pushes_status() {
    let mut cpu = Cpu::new();
    cpu.load_bytes(0xFFFE, &[0x34, 0x12]);
    cpu.pc = 0x500;
    cpu.sr = FLAG_UNUSED;
    let cycles = cpu.execute_next_instruction().unwrap();
    assert_eq!(cpu.pc, 0x1234);
    assert!(cpu.get_flag(FLAG_INTERRUPT));
    assert_eq!(cpu.sp, 0xFC);
    // Return address 0x0502 pushed high byte first.
    assert_eq!(cpu.read_memory_u8(0x01FF), 0x05);
    assert_eq!(cpu.read_memory_u8(0x01FE), 0x02);
    // The pushed status image carries Break and Unused.
    let pushed = cpu.read_memory_u8(0x01FD);
    assert!(pushed & FLAG_BREAK != 0);
    assert!(pushed & FLAG_UNUSED != 0);
    assert_eq!(cycles, 7);
}

#[test]
fn rti_restores_status_and_program_counter() {
    let mut cpu = Cpu::new();
    cpu.load_bytes(0xFFFE, &[0x00, 0x30]);
    cpu.load_bytes(0x3000, &[0x40]);
    cpu.pc = 0x500;
    cpu.sr = FLAG_UNUSED | FLAG_CARRY;
    cpu.execute_next_instruction().unwrap();
    assert_eq!(cpu.pc, 0x3000);
    cpu.execute_next_instruction().unwrap();
    assert_eq!(cpu.pc, 0x0502);
    assert_eq!(cpu.sp, 0xFF);
    // The restored status keeps Carry, reads Unused as set and Break clear.
    assert!(cpu.get_flag(FLAG_CARRY));
    assert!(cpu.get_flag(FLAG_UNUSED));
    assert!(!cpu.get_flag(FLAG_BREAK));
}

#[test]
fn php_plp_force_unused_and_clear_break() {
    let mut cpu = cpu_with(&[0x08, 0x28], 0x400);
    cpu.sr = 0;
    cpu.execute_next_instruction().unwrap();
    let pushed = cpu.read_memory_u8(0x01FF);
    assert!(pushed & FLAG_BREAK != 0);
    assert!(pushed & FLAG_UNUSED != 0);
    // Overwrite the pushed image with all-zero bits: PLP must still read
    // Unused as set and keep Break clear.
    cpu.write_memory_u8(0x01FF, 0x00);
    cpu.execute_next_instruction().unwrap();
    assert!(cpu.get_flag(FLAG_UNUSED));
    assert!(!cpu.get_flag(FLAG_BREAK));
}

#[test]
fn pha_pla_move_the_accumulator_through_the_stack() {
    let mut cpu = cpu_with(&[0x48, 0xA9, 0x00, 0x68], 0x400);
    cpu.a = 0x80;
    cpu.execute_next_instruction().unwrap();
    assert_eq!(cpu.sp, 0xFE);
    assert_eq!(cpu.read_memory_u8(0x01FF), 0x80);
    cpu.execute_next_instruction().unwrap();
    assert_eq!(cpu.a, 0x00);
    let cycles = cpu.execute_next_instruction().unwrap();
    assert_eq!(cpu.a, 0x80);
    assert_eq!(cpu.sp, 0xFF);
    assert!(cpu.get_flag(FLAG_NEGATIVE));
    assert!(!cpu.get_flag(FLAG_ZERO));
    assert_eq!(cycles, 4);
}

#[test]
fn jmp_indirect_wraps_the_pointer_inside_its_page() {
    let mut cpu = cpu_with(&[0x6C, 0xFF, 0x02], 0x400);
    cpu.write_memory_u8(0x02FF, 0x34);
    cpu.write_memory_u8(0x0200, 0x12);
    // Without the quirk the high byte would come from 0x0300.
    cpu.write_memory_u8(0x0300, 0xAB);
    let cycles = cpu.execute_next_instruction().unwrap();
    assert_eq!(cpu.pc, 0x1234);
    assert_eq!(cycles, 5);
}

#[test]
fn lda_absolute_x_pays_the_page_crossing_cycle() {
    let mut cpu = cpu_with(&[0xBD, 0xFF, 0x10], 0x400);
    cpu.x = 0x01;
    cpu.write_memory_u8(0x1100, 0x42);
    let cycles = cpu.execute_next_instruction().unwrap();
    assert_eq!(cpu.a, 0x42);
    assert_eq!(cycles, 5);

    let mut cpu = cpu_with(&[0xBD, 0x00, 0x10], 0x400);
    cpu.x = 0x01;
    cpu.write_memory_u8(0x1001, 0x42);
    let cycles = cpu.execute_next_instruction().unwrap();
    assert_eq!(cpu.a, 0x42);
    assert_eq!(cycles, 4);
}

#[test]
fn sta_absolute_x_always_pays_five_cycles() {
    let mut cpu = cpu_with(&[0x9D, 0x00, 0x10], 0x400);
    cpu.a = 0x7E;
    cpu.x = 0x01;
    let cycles = cpu.execute_next_instruction().unwrap();
    assert_eq!(cpu.read_memory_u8(0x1001), 0x7E);
    assert_eq!(cycles, 5);
}

#[test]
fn indexed_indirect_and_indirect_indexed_addressing() {
    // LDA ($20,X) with X = 4: pointer at 0x24 -> 0x3000.
    let mut cpu = cpu_with(&[0xA1, 0x20], 0x400);
    cpu.x = 0x04;
    cpu.load_bytes(0x0024, &[0x00, 0x30]);
    cpu.write_memory_u8(0x3000, 0x5A);
    let cycles = cpu.execute_next_instruction().unwrap();
    assert_eq!(cpu.a, 0x5A);
    assert_eq!(cycles, 6);

    // LDA ($20),Y with Y = 0x10: pointer at 0x20 -> 0x3000, plus Y.
    let mut cpu = cpu_with(&[0xB1, 0x20], 0x400);
    cpu.y = 0x10;
    cpu.load_bytes(0x0020, &[0x00, 0x30]);
    cpu.write_memory_u8(0x3010, 0xA5);
    let cycles = cpu.execute_next_instruction().unwrap();
    assert_eq!(cpu.a, 0xA5);
    assert_eq!(cycles, 5);
}

#[test]
fn zeropage_indexing_wraps_inside_the_zero_page() {
    let mut cpu = cpu_with(&[0xB5, 0xF0], 0x400);
    cpu.x = 0x20;
    cpu.write_memory_u8(0x0010, 0x99);
    cpu.execute_next_instruction().unwrap();
    assert_eq!(cpu.a, 0x99);
}

#[test]
fn asl_accumulator_moves_bit_seven_into_carry() {
    let mut cpu = cpu_with(&[0x0A], 0x400);
    cpu.a = 0x81;
    cpu.sr = 0;
    let cycles = cpu.execute_next_instruction().unwrap();
    assert_eq!(cpu.a, 0x02);
    assert!(cpu.get_flag(FLAG_CARRY));
    assert!(!cpu.get_flag(FLAG_NEGATIVE));
    assert!(!cpu.get_flag(FLAG_ZERO));
    assert_eq!(cycles, 2);
}

#[test]
fn lsr_clears_negative_and_rotates_carry_correctly() {
    let mut cpu = cpu_with(&[0x4A], 0x400);
    cpu.a = 0x01;
    cpu.sr = FLAG_NEGATIVE;
    cpu.execute_next_instruction().unwrap();
    assert_eq!(cpu.a, 0x00);
    assert!(cpu.get_flag(FLAG_CARRY));
    assert!(cpu.get_flag(FLAG_ZERO));
    assert!(!cpu.get_flag(FLAG_NEGATIVE));
}

#[test]
fn rol_and_ror_rotate_through_carry() {
    let mut cpu = cpu_with(&[0x2A], 0x400);
    cpu.a = 0x80;
    cpu.sr = FLAG_CARRY;
    cpu.execute_next_instruction().unwrap();
    assert_eq!(cpu.a, 0x01);
    assert!(cpu.get_flag(FLAG_CARRY));

    let mut cpu = cpu_with(&[0x6A], 0x400);
    cpu.a = 0x01;
    cpu.sr = FLAG_CARRY;
    cpu.execute_next_instruction().unwrap();
    assert_eq!(cpu.a, 0x80);
    assert!(cpu.get_flag(FLAG_CARRY));
    assert!(cpu.get_flag(FLAG_NEGATIVE));
}

#[test]
fn asl_on_memory_rewrites_the_byte_in_six_cycles() {
    let mut cpu = cpu_with(&[0x0E, 0x00, 0x30], 0x400);
    cpu.write_memory_u8(0x3000, 0x40);
    let cycles = cpu.execute_next_instruction().unwrap();
    assert_eq!(cpu.read_memory_u8(0x3000), 0x80);
    assert!(cpu.get_flag(FLAG_NEGATIVE));
    assert_eq!(cycles, 6);
}

#[test]
fn bit_copies_operand_bits_into_negative_and_overflow() {
    let mut cpu = cpu_with(&[0x24, 0x10], 0x400);
    cpu.a = 0x0F;
    cpu.write_memory_u8(0x0010, 0xC0);
    let cycles = cpu.execute_next_instruction().unwrap();
    assert_eq!(cpu.a, 0x0F);
    assert!(cpu.get_flag(FLAG_ZERO));
    assert!(cpu.get_flag(FLAG_NEGATIVE));
    assert!(cpu.get_flag(FLAG_OVERFLOW));
    assert_eq!(cycles, 3);
}

#[test]
fn compares_set_carry_zero_and_negative() {
    let mut cpu = cpu_with(&[0xC9, 0x10], 0x400);
    cpu.a = 0x10;
    cpu.execute_next_instruction().unwrap();
    assert!(cpu.get_flag(FLAG_ZERO));
    assert!(cpu.get_flag(FLAG_CARRY));
    assert!(!cpu.get_flag(FLAG_NEGATIVE));

    let mut cpu = cpu_with(&[0xE0, 0x20], 0x400);
    cpu.x = 0x10;
    cpu.execute_next_instruction().unwrap();
    assert!(!cpu.get_flag(FLAG_ZERO));
    assert!(!cpu.get_flag(FLAG_CARRY));
    assert!(cpu.get_flag(FLAG_NEGATIVE));

    let mut cpu = cpu_with(&[0xC0, 0x10], 0x400);
    cpu.y = 0x20;
    cpu.execute_next_instruction().unwrap();
    assert!(!cpu.get_flag(FLAG_ZERO));
    assert!(cpu.get_flag(FLAG_CARRY));
}

#[test]
fn inc_and_dec_wrap_memory_bytes() {
    let mut cpu = cpu_with(&[0xE6, 0x10], 0x400);
    cpu.write_memory_u8(0x0010, 0xFF);
    let cycles = cpu.execute_next_instruction().unwrap();
    assert_eq!(cpu.read_memory_u8(0x0010), 0x00);
    assert!(cpu.get_flag(FLAG_ZERO));
    assert_eq!(cycles, 5);

    let mut cpu = cpu_with(&[0xC6, 0x10], 0x400);
    cpu.write_memory_u8(0x0010, 0x00);
    cpu.execute_next_instruction().unwrap();
    assert_eq!(cpu.read_memory_u8(0x0010), 0xFF);
    assert!(cpu.get_flag(FLAG_NEGATIVE));
}

#[test]
fn register_transfers_and_steps() {
    let mut cpu = cpu_with(&[0xAA, 0xE8, 0xCA, 0x8A, 0x9A, 0xBA], 0x400);
    cpu.a = 0x7F;
    cpu.execute_next_instruction().unwrap();  // TAX
    assert_eq!(cpu.x, 0x7F);
    cpu.execute_next_instruction().unwrap();  // INX
    assert_eq!(cpu.x, 0x80);
    assert!(cpu.get_flag(FLAG_NEGATIVE));
    cpu.execute_next_instruction().unwrap();  // DEX
    assert_eq!(cpu.x, 0x7F);
    cpu.execute_next_instruction().unwrap();  // TXA
    assert_eq!(cpu.a, 0x7F);
    let sr_before = cpu.sr;
    cpu.execute_next_instruction().unwrap();  // TXS
    assert_eq!(cpu.sp, 0x7F);
    assert_eq!(cpu.sr, sr_before);
    cpu.x = 0;
    cpu.execute_next_instruction().unwrap();  // TSX
    assert_eq!(cpu.x, 0x7F);
}

#[test]
fn flag_instructions_toggle_their_bits() {
    let mut cpu = cpu_with(&[0x38, 0xF8, 0x78, 0x18, 0xD8, 0x58, 0xB8], 0x400);
    cpu.sr = FLAG_OVERFLOW;
    cpu.execute_next_instruction().unwrap();
    assert!(cpu.get_flag(FLAG_CARRY));
    cpu.execute_next_instruction().unwrap();
    assert!(cpu.get_flag(FLAG_DECIMAL));
    cpu.execute_next_instruction().unwrap();
    assert!(cpu.get_flag(FLAG_INTERRUPT));
    cpu.execute_next_instruction().unwrap();
    assert!(!cpu.get_flag(FLAG_CARRY));
    cpu.execute_next_instruction().unwrap();
    assert!(!cpu.get_flag(FLAG_DECIMAL));
    cpu.execute_next_instruction().unwrap();
    assert!(!cpu.get_flag(FLAG_INTERRUPT));
    cpu.execute_next_instruction().unwrap();
    assert!(!cpu.get_flag(FLAG_OVERFLOW));
}

#[test]
fn logic_instructions_update_the_accumulator() {
    let mut cpu = cpu_with(&[0x29, 0x0F, 0x09, 0x80, 0x49, 0xFF], 0x400);
    cpu.a = 0x5A;
    cpu.execute_next_instruction().unwrap();  // AND #$0F
    assert_eq!(cpu.a, 0x0A);
    cpu.execute_next_instruction().unwrap();  // ORA #$80
    assert_eq!(cpu.a, 0x8A);
    assert!(cpu.get_flag(FLAG_NEGATIVE));
    cpu.execute_next_instruction().unwrap();  // EOR #$FF
    assert_eq!(cpu.a, 0x75);
}

#[test]
fn invalid_opcode_is_reported_and_leaves_the_cpu_untouched() {
    let mut cpu = cpu_with(&[0x02], 0x400);
    cpu.a = 0x11;
    let err = cpu.execute_next_instruction().unwrap_err();
    assert_eq!(err.opcode, 0x02);
    assert_eq!(err.pc, 0x400);
    assert_eq!(cpu.pc, 0x400);
    assert_eq!(cpu.a, 0x11);
    assert_eq!(cpu.cycles, 0);
}

#[test]
fn cycle_counter_accumulates_across_steps() {
    let mut cpu = cpu_with(&[0xA9, 0x01, 0xEA, 0x0A], 0x400);
    let c1 = cpu.execute_next_instruction().unwrap();
    let c2 = cpu.execute_next_instruction().unwrap();
    let c3 = cpu.execute_next_instruction().unwrap();
    assert_eq!(cpu.cycles, c1 as u64 + c2 as u64 + c3 as u64);
    assert_eq!(cpu.cycles, 6);
}

#[test]
fn peek_instruction_decodes_without_advancing() {
    let cpu = cpu_with(&[0xA9, 0x42], 0x400);
    let instr = cpu.get_next_instruction();
    assert_eq!(instr.operation, Operation::Lda);
    assert_eq!(instr.address_mode, AddressMode::Imm);
    assert_eq!(instr.value, 0x42);

    let instr = cpu.get_instruction_at(0x401);
    assert_eq!(instr.operation, Operation::Inv);

    let mut cpu = cpu_with(&[0x4C, 0xCD, 0xAB], 0x500);
    cpu.pc = 0;
    let instr = cpu.get_instruction_at(0x500);
    assert_eq!(instr.operation, Operation::Jmp);
    assert_eq!(instr.address_mode, AddressMode::Abs);
    assert_eq!(instr.value, 0xABCD);
    assert_eq!(cpu.pc, 0);
}

#[test]
fn snapshot_copies_registers_and_cycles() {
    let mut cpu = cpu_with(&[0xA9, 0x42], 0x400);
    cpu.execute_next_instruction().unwrap();
    let state = cpu.get_register_state();
    assert_eq!(state.a, 0x42);
    assert_eq!(state.pc, 0x402);
    assert_eq!(state.sp, 0xFF);
    assert_eq!(state.sr, cpu.sr);
    assert_eq!(state.cycles, 2);
}

#[test]
fn stack_pushes_wrap_within_page_one() {
    let mut cpu = cpu_with(&[0x48, 0x48], 0x400);
    cpu.sp = 0x00;
    cpu.a = 0xAA;
    cpu.execute_next_instruction().unwrap();
    assert_eq!(cpu.read_memory_u8(0x0100), 0xAA);
    assert_eq!(cpu.sp, 0xFF);
    cpu.execute_next_instruction().unwrap();
    assert_eq!(cpu.read_memory_u8(0x01FF), 0xAA);
    assert_eq!(cpu.sp, 0xFE);
}
