//! Further execution checks: every branch condition, the remaining
//! addressing modes, overflow corner cases and a multi-byte carry chain.

use mos6502::cpu::Cpu;
use mos6502::cpu_helpers::FLAG_CARRY;
use mos6502::cpu_helpers::FLAG_NEGATIVE;
use mos6502::cpu_helpers::FLAG_OVERFLOW;
use mos6502::cpu_helpers::FLAG_ZERO;

fn cpu_with(program: &[u8], at: u16) -> Cpu {
    let mut cpu = Cpu::new();
    cpu.load_bytes(at, program);
    cpu.pc = at;
    cpu
}

fn branch_taken(opcode: u8, sr: u8) -> bool {
    let mut cpu = cpu_with(&[opcode, 0x10], 0x400);
    cpu.sr = sr;
    cpu.execute_next_instruction().unwrap();
    match cpu.pc {
        0x412 => true,
        0x402 => false,
        other => panic!("unexpected program counter {:04X}", other),
    }
}

#[test]
fn all_eight_branch_conditions() {
    // BPL 0x10 taken when Negative clear.
    assert!(branch_taken(0x10, 0));
    assert!(!branch_taken(0x10, FLAG_NEGATIVE));
    // BMI 0x30 taken when Negative set.
    assert!(branch_taken(0x30, FLAG_NEGATIVE));
    assert!(!branch_taken(0x30, 0));
    // BVC 0x50 taken when Overflow clear.
    assert!(branch_taken(0x50, 0));
    assert!(!branch_taken(0x50, FLAG_OVERFLOW));
    // BVS 0x70 taken when Overflow set.
    assert!(branch_taken(0x70, FLAG_OVERFLOW));
    assert!(!branch_taken(0x70, 0));
    // BCC 0x90 taken when Carry clear.
    assert!(branch_taken(0x90, 0));
    assert!(!branch_taken(0x90, FLAG_CARRY));
    // BCS 0xB0 taken when Carry set.
    assert!(branch_taken(0xB0, FLAG_CARRY));
    assert!(!branch_taken(0xB0, 0));
    // BNE 0xD0 taken when Zero clear.
    assert!(branch_taken(0xD0, 0));
    assert!(!branch_taken(0xD0, FLAG_ZERO));
    // BEQ 0xF0 taken when Zero set.
    assert!(branch_taken(0xF0, FLAG_ZERO));
    assert!(!branch_taken(0xF0, 0));
}

#[test]
fn backward_branch_reaches_an_earlier_address() {
    let mut cpu = cpu_with(&[0xD0, 0xFB], 0x0500);
    cpu.sr = 0;
    cpu.execute_next_instruction().unwrap();
    // 0x0502 - 5 = 0x04FD.
    assert_eq!(cpu.pc, 0x04FD);
}

#[test]
fn loads_and_stores_in_the_indexed_modes() {
    // LDX $10,Y
    let mut cpu = cpu_with(&[0xB6, 0x10], 0x400);
    cpu.y = 0x05;
    cpu.write_memory_u8(0x0015, 0x33);
    cpu.execute_next_instruction().unwrap();
    assert_eq!(cpu.x, 0x33);

    // STX $10,Y
    let mut cpu = cpu_with(&[0x96, 0x10], 0x400);
    cpu.y = 0x05;
    cpu.x = 0x44;
    let cycles = cpu.execute_next_instruction().unwrap();
    assert_eq!(cpu.read_memory_u8(0x0015), 0x44);
    assert_eq!(cycles, 4);

    // STY $10,X
    let mut cpu = cpu_with(&[0x94, 0x10], 0x400);
    cpu.x = 0x05;
    cpu.y = 0x55;
    cpu.execute_next_instruction().unwrap();
    assert_eq!(cpu.read_memory_u8(0x0015), 0x55);

    // LDY $2000,X
    let mut cpu = cpu_with(&[0xBC, 0x00, 0x20], 0x400);
    cpu.x = 0x02;
    cpu.write_memory_u8(0x2002, 0x66);
    cpu.execute_next_instruction().unwrap();
    assert_eq!(cpu.y, 0x66);

    // LDX $2000,Y
    let mut cpu = cpu_with(&[0xBE, 0x00, 0x20], 0x400);
    cpu.y = 0x03;
    cpu.write_memory_u8(0x2003, 0x77);
    cpu.execute_next_instruction().unwrap();
    assert_eq!(cpu.x, 0x77);

    // STA ($20),Y
    let mut cpu = cpu_with(&[0x91, 0x20], 0x400);
    cpu.load_bytes(0x0020, &[0x00, 0x30]);
    cpu.y = 0x01;
    cpu.a = 0x88;
    let cycles = cpu.execute_next_instruction().unwrap();
    assert_eq!(cpu.read_memory_u8(0x3001), 0x88);
    assert_eq!(cycles, 6);
}

#[test]
fn indexed_indirect_pointer_wraps_in_the_zero_page() {
    // LDA ($FF,X) with X = 0: pointer low byte at 0xFF, high byte at 0x00.
    let mut cpu = cpu_with(&[0xA1, 0xFF], 0x400);
    cpu.write_memory_u8(0x00FF, 0x34);
    cpu.write_memory_u8(0x0000, 0x12);
    cpu.write_memory_u8(0x1234, 0x5C);
    cpu.execute_next_instruction().unwrap();
    assert_eq!(cpu.a, 0x5C);
}

#[test]
fn sbc_signed_overflow_flag() {
    // 0x80 - 0x01 = 0x7F: negative minus positive giving positive overflows.
    let mut cpu = cpu_with(&[0xE9, 0x01], 0x400);
    cpu.a = 0x80;
    cpu.sr = FLAG_CARRY;
    cpu.execute_next_instruction().unwrap();
    assert_eq!(cpu.a, 0x7F);
    assert!(cpu.get_flag(FLAG_OVERFLOW));
    assert!(cpu.get_flag(FLAG_CARRY));
}

#[test]
fn adc_carry_chains_across_bytes() {
    // 0x00FF + 0x0001 over two bytes: CLC; LDA; ADC; STA; LDA; ADC; STA.
    let program = [
        0x18,  // CLC
        0xA5, 0x10,  // LDA $10
        0x65, 0x12,  // ADC $12
        0x85, 0x14,  // STA $14
        0xA5, 0x11,  // LDA $11
        0x65, 0x13,  // ADC $13
        0x85, 0x15,  // STA $15
    ];
    let mut cpu = cpu_with(&program, 0x400);
    cpu.load_bytes(0x0010, &[0xFF, 0x00, 0x01, 0x00]);
    for _ in 0..7 {
        cpu.execute_next_instruction().unwrap();
    }
    assert_eq!(cpu.read_memory_u8(0x0014), 0x00);
    assert_eq!(cpu.read_memory_u8(0x0015), 0x01);
}

#[test]
fn decimal_adc_with_carry_out() {
    // 0x81 + 0x92 in decimal mode: 81 + 92 = 173, so 0x73 with carry.
    let mut cpu = cpu_with(&[0xF8, 0x69, 0x92], 0x400);
    cpu.a = 0x81;
    cpu.execute_next_instruction().unwrap();
    cpu.execute_next_instruction().unwrap();
    assert_eq!(cpu.a, 0x73);
    assert!(cpu.get_flag(FLAG_CARRY));
}

#[test]
fn rts_return_address_wraps_at_the_memory_top() {
    let mut cpu = Cpu::new();
    // Return address 0xFFFF on the stack: RTS resumes at 0x0000.
    cpu.load_bytes(0x01FE, &[0xFF, 0xFF]);
    cpu.sp = 0xFD;
    cpu.load_bytes(0x0600, &[0x60]);
    cpu.pc = 0x0600;
    cpu.execute_next_instruction().unwrap();
    assert_eq!(cpu.pc, 0x0000);
    assert_eq!(cpu.sp, 0xFF);
}

#[test]
fn tay_and_tya_move_the_accumulator() {
    let mut cpu = cpu_with(&[0xA8, 0xA9, 0x00, 0x98], 0x400);
    cpu.a = 0x90;
    cpu.execute_next_instruction().unwrap();
    assert_eq!(cpu.y, 0x90);
    assert!(cpu.get_flag(FLAG_NEGATIVE));
    cpu.execute_next_instruction().unwrap();
    assert_eq!(cpu.a, 0x00);
    cpu.execute_next_instruction().unwrap();
    assert_eq!(cpu.a, 0x90);
}

#[test]
fn ror_on_memory_uses_the_rmw_cycle_table() {
    let mut cpu = cpu_with(&[0x7E, 0x00, 0x30], 0x400);
    cpu.x = 0x01;
    cpu.sr = FLAG_CARRY;
    cpu.write_memory_u8(0x3001, 0x02);
    let cycles = cpu.execute_next_instruction().unwrap();
    assert_eq!(cpu.read_memory_u8(0x3001), 0x81);
    assert!(!cpu.get_flag(FLAG_CARRY));
    assert_eq!(cycles, 7);
}

#[test]
fn iny_and_dey_wrap_and_set_flags() {
    let mut cpu = cpu_with(&[0xC8, 0x88, 0x88], 0x400);
    cpu.y = 0xFF;
    cpu.execute_next_instruction().unwrap();
    assert_eq!(cpu.y, 0x00);
    assert!(cpu.get_flag(FLAG_ZERO));
    cpu.execute_next_instruction().unwrap();
    assert_eq!(cpu.y, 0xFF);
    assert!(cpu.get_flag(FLAG_NEGATIVE));
    cpu.execute_next_instruction().unwrap();
    assert_eq!(cpu.y, 0xFE);
}

#[test]
fn decimal_sbc_with_borrow_out() {
    // 0x20 - 0x45 in decimal mode borrows: 20 - 45 + 100 = 75, Carry clear.
    let mut cpu = cpu_with(&[0xE9, 0x45], 0x400);
    cpu.a = 0x20;
    cpu.sr = mos6502::cpu_helpers::FLAG_DECIMAL | FLAG_CARRY;
    cpu.execute_next_instruction().unwrap();
    assert_eq!(cpu.a, 0x75);
    assert!(!cpu.get_flag(FLAG_CARRY));
}

#[test]
fn a_copy_loop_moves_a_block_of_memory() {
    // Copy four bytes from 0x0010 to 0x0020:
    //   LDX #$00; loop: LDA $10,X; STA $20,X; INX; CPX #$04; BNE loop
    let program = [
        0xA2, 0x00,  // LDX #$00
        0xB5, 0x10,  // LDA $10,X
        0x95, 0x20,  // STA $20,X
        0xE8,  // INX
        0xE0, 0x04,  // CPX #$04
        0xD0, 0xF7,  // BNE -9
    ];
    let mut cpu = cpu_with(&program, 0x400);
    cpu.load_bytes(0x0010, &[0xDE, 0xAD, 0xBE, 0xEF]);
    let mut steps = 0;
    while cpu.pc != 0x040B {
        cpu.execute_next_instruction().unwrap();
        steps += 1;
        assert!(steps < 100);
    }
    assert_eq!(cpu.read_memory_u8(0x0020), 0xDE);
    assert_eq!(cpu.read_memory_u8(0x0021), 0xAD);
    assert_eq!(cpu.read_memory_u8(0x0022), 0xBE);
    assert_eq!(cpu.read_memory_u8(0x0023), 0xEF);
}
