//! Instruction metadata for the 6502: status-flag masks, the operation and
//! addressing-mode enumerations, the 256-entry decode table, the operand size
//! per addressing mode, and the cycle model that prices an executed
//! instruction.

use vstd::prelude::*;

verus! {

use crate::semantics::branch_target;
use crate::semantics::page_crossed;

/// Little-endian address of the IRQ/BRK handler pointer.
pub const IRQ_VECTOR: u16 = 0xFFFE;

/// First address of the stack page; the stack pointer indexes within it.
pub const STACK_START: u16 = 0x0100;

pub const FLAG_CARRY: u8 = 0b0000_0001;

pub const FLAG_ZERO: u8 = 0b0000_0010;

pub const FLAG_INTERRUPT: u8 = 0b0000_0100;

pub const FLAG_DECIMAL: u8 = 0b0000_1000;

pub const FLAG_BREAK: u8 = 0b0001_0000;

pub const FLAG_UNUSED: u8 = 0b0010_0000;

pub const FLAG_OVERFLOW: u8 = 0b0100_0000;

pub const FLAG_NEGATIVE: u8 = 0b1000_0000;

/// The addressing modes of the 6502, plus `Inv` for undocumented opcodes.
#[derive(Clone, Copy, Debug, PartialEq, Eq, Structural)]
pub enum AddressMode {
    Acc,
    Abs,
    Abx,
    Aby,
    Imm,
    Imp,
    Ind,
    Inx,
    Iny,
    Rel,
    Zpg,
    Zpx,
    Zpy,
    Inv,
}

/// The 56 documented 6502 mnemonics, plus `Inv` for undocumented opcodes.
#[derive(Clone, Copy, Debug, PartialEq, Eq, Structural)]
pub enum Operation {
    Adc,
    And,
    Asl,
    Bcc,
    Bcs,
    Beq,
    Bit,
    Bmi,
    Bne,
    Bpl,
    Brk,
    Bvc,
    Bvs,
    Clc,
    Cld,
    Cli,
    Clv,
    Cmp,
    Cpx,
    Cpy,
    Dec,
    Dex,
    Dey,
    Eor,
    Inc,
    Inx,
    Iny,
    Jmp,
    Jsr,
    Lda,
    Ldx,
    Ldy,
    Lsr,
    Nop,
    Ora,
    Pha,
    Php,
    Pla,
    Plp,
    Rol,
    Ror,
    Rti,
    Rts,
    Sbc,
    Sec,
    Sed,
    Sei,
    Sta,
    Stx,
    Sty,
    Tax,
    Tay,
    Tsx,
    Txa,
    Txs,
    Tya,
    Inv,
}

/// The cycle classes of the 6502 instruction set; each class prices every
/// addressing mode it can occur with.
#[derive(Clone, Copy, Debug, PartialEq, Eq, Structural)]
pub enum CycleType {
    /// Instructions that read an operand (loads, logic, arithmetic, compares,
    /// BIT, STX, STY).
    SetValue1,
    /// Read-modify-write instructions (shifts, rotates, INC, DEC).
    SetValue2,
    /// Conditional branches, priced for the taken case.
    Branch,
    /// One-byte implied instructions.
    Base,
    /// JMP.
    Jump,
    /// JSR.
    JumpSubroutine,
    /// BRK.
    Break,
    /// PHA and PHP.
    PushStack,
    /// PLA and PLP.
    PullStack,
    /// RTS and RTI.
    Return,
    /// STA, which never takes the page-crossing discount.
    StoreAccumulator,
}

/// The operand produced by addressing-mode evaluation: the fetched byte (in
/// the low half of `value`) and the effective address where applicable.  For
/// `Rel`, `address` holds the branch target and `value` is unused.
#[derive(Clone, Copy)]
pub struct Operand {
    pub value: u16,
    pub address: u16,
}

/// A decoded instruction: its operation, addressing mode and raw operand
/// bytes, read without executing.
#[derive(Clone, Copy)]
pub struct Instruction {
    pub operation: Operation,
    pub address_mode: AddressMode,
    pub value: u16,
    pub cycles: u8,
}

/// A copy of the architectural registers and the cycle counter, as recorded
/// in the execution history.
#[derive(Clone, Copy)]
pub struct CpuState {
    pub a: u8,
    pub x: u8,
    pub y: u8,
    pub pc: u16,
    pub sp: u8,
    pub sr: u8,
    pub cycles: u64,
}

/// The count of operand bytes that follow the opcode byte in the instruction
/// stream.
pub open spec fn spec_address_size(mode: AddressMode) -> u8 {
    match mode {
        AddressMode::Acc => 0,
        AddressMode::Abs => 2,
        AddressMode::Abx => 2,
        AddressMode::Aby => 2,
        AddressMode::Imm => 1,
        AddressMode::Imp => 0,
        AddressMode::Ind => 2,
        AddressMode::Inx => 1,
        AddressMode::Iny => 1,
        AddressMode::Rel => 1,
        AddressMode::Zpg => 1,
        AddressMode::Zpx => 1,
        AddressMode::Zpy => 1,
        AddressMode::Inv => 0,
    }
}

/// The documented 6502 opcode matrix.  Every byte decodes to an operation and
/// an addressing mode; the 105 undocumented bytes decode to `(Inv, Inv)`.
pub open spec fn spec_decode(opcode: u8) -> (Operation, AddressMode) {
    match opcode {
        0x00 => (Operation::Brk, AddressMode::Imp),
        0x01 => (Operation::Ora, AddressMode::Inx),
        0x05 => (Operation::Ora, AddressMode::Zpg),
        0x06 => (Operation::Asl, AddressMode::Zpg),
        0x08 => (Operation::Php, AddressMode::Imp),
        0x09 => (Operation::Ora, AddressMode::Imm),
        0x0A => (Operation::Asl, AddressMode::Acc),
        0x0D => (Operation::Ora, AddressMode::Abs),
        0x0E => (Operation::Asl, AddressMode::Abs),
        0x10 => (Operation::Bpl, AddressMode::Rel),
        0x11 => (Operation::Ora, AddressMode::Iny),
        0x15 => (Operation::Ora, AddressMode::Zpx),
        0x16 => (Operation::Asl, AddressMode::Zpx),
        0x18 => (Operation::Clc, AddressMode::Imp),
        0x19 => (Operation::Ora, AddressMode::Aby),
        0x1D => (Operation::Ora, AddressMode::Abx),
        0x1E => (Operation::Asl, AddressMode::Abx),
        0x20 => (Operation::Jsr, AddressMode::Abs),
        0x21 => (Operation::And, AddressMode::Inx),
        0x24 => (Operation::Bit, AddressMode::Zpg),
        0x25 => (Operation::And, AddressMode::Zpg),
        0x26 => (Operation::Rol, AddressMode::Zpg),
        0x28 => (Operation::Plp, AddressMode::Imp),
        0x29 => (Operation::And, AddressMode::Imm),
        0x2A => (Operation::Rol, AddressMode::Acc),
        0x2C => (Operation::Bit, AddressMode::Abs),
        0x2D => (Operation::And, AddressMode::Abs),
        0x2E => (Operation::Rol, AddressMode::Abs),
        0x30 => (Operation::Bmi, AddressMode::Rel),
        0x31 => (Operation::And, AddressMode::Iny),
        0x35 => (Operation::And, AddressMode::Zpx),
        0x36 => (Operation::Rol, AddressMode::Zpx),
        0x38 => (Operation::Sec, AddressMode::Imp),
        0x39 => (Operation::And, AddressMode::Aby),
        0x3D => (Operation::And, AddressMode::Abx),
        0x3E => (Operation::Rol, AddressMode::Abx),
        0x40 => (Operation::Rti, AddressMode::Imp),
        0x41 => (Operation::Eor, AddressMode::Inx),
        0x45 => (Operation::Eor, AddressMode::Zpg),
        0x46 => (Operation::Lsr, AddressMode::Zpg),
        0x48 => (Operation::Pha, AddressMode::Imp),
        0x49 => (Operation::Eor, AddressMode::Imm),
        0x4A => (Operation::Lsr, AddressMode::Acc),
        0x4C => (Operation::Jmp, AddressMode::Abs),
        0x4D => (Operation::Eor, AddressMode::Abs),
        0x4E => (Operation::Lsr, AddressMode::Abs),
        0x50 => (Operation::Bvc, AddressMode::Rel),
        0x51 => (Operation::Eor, AddressMode::Iny),
        0x55 => (Operation::Eor, AddressMode::Zpx),
        0x56 => (Operation::Lsr, AddressMode::Zpx),
        0x58 => (Operation::Cli, AddressMode::Imp),
        0x59 => (Operation::Eor, AddressMode::Aby),
        0x5D => (Operation::Eor, AddressMode::Abx),
        0x5E => (Operation::Lsr, AddressMode::Abx),
        0x60 => (Operation::Rts, AddressMode::Imp),
        0x61 => (Operation::Adc, AddressMode::Inx),
        0x65 => (Operation::Adc, AddressMode::Zpg),
        0x66 => (Operation::Ror, AddressMode::Zpg),
        0x68 => (Operation::Pla, AddressMode::Imp),
        0x69 => (Operation::Adc, AddressMode::Imm),
        0x6A => (Operation::Ror, AddressMode::Acc),
        0x6C => (Operation::Jmp, AddressMode::Ind),
        0x6D => (Operation::Adc, AddressMode::Abs),
        0x6E => (Operation::Ror, AddressMode::Abs),
        0x70 => (Operation::Bvs, AddressMode::Rel),
        0x71 => (Operation::Adc, AddressMode::Iny),
        0x75 => (Operation::Adc, AddressMode::Zpx),
        0x76 => (Operation::Ror, AddressMode::Zpx),
        0x78 => (Operation::Sei, AddressMode::Imp),
        0x79 => (Operation::Adc, AddressMode::Aby),
        0x7D => (Operation::Adc, AddressMode::Abx),
        0x7E => (Operation::Ror, AddressMode::Abx),
        0x81 => (Operation::Sta, AddressMode::Inx),
        0x84 => (Operation::Sty, AddressMode::Zpg),
        0x85 => (Operation::Sta, AddressMode::Zpg),
        0x86 => (Operation::Stx, AddressMode::Zpg),
        0x88 => (Operation::Dey, AddressMode::Imp),
        0x8A => (Operation::Txa, AddressMode::Imp),
        0x8C => (Operation::Sty, AddressMode::Abs),
        0x8D => (Operation::Sta, AddressMode::Abs),
        0x8E => (Operation::Stx, AddressMode::Abs),
        0x90 => (Operation::Bcc, AddressMode::Rel),
        0x91 => (Operation::Sta, AddressMode::Iny),
        0x94 => (Operation::Sty, AddressMode::Zpx),
        0x95 => (Operation::Sta, AddressMode::Zpx),
        0x96 => (Operation::Stx, AddressMode::Zpy),
        0x98 => (Operation::Tya, AddressMode::Imp),
        0x99 => (Operation::Sta, AddressMode::Aby),
        0x9A => (Operation::Txs, AddressMode::Imp),
        0x9D => (Operation::Sta, AddressMode::Abx),
        0xA0 => (Operation::Ldy, AddressMode::Imm),
        0xA1 => (Operation::Lda, AddressMode::Inx),
        0xA2 => (Operation::Ldx, AddressMode::Imm),
        0xA4 => (Operation::Ldy, AddressMode::Zpg),
        0xA5 => (Operation::Lda, AddressMode::Zpg),
        0xA6 => (Operation::Ldx, AddressMode::Zpg),
        0xA8 => (Operation::Tay, AddressMode::Imp),
        0xA9 => (Operation::Lda, AddressMode::Imm),
        0xAA => (Operation::Tax, AddressMode::Imp),
        0xAC => (Operation::Ldy, AddressMode::Abs),
        0xAD => (Operation::Lda, AddressMode::Abs),
        0xAE => (Operation::Ldx, AddressMode::Abs),
        0xB0 => (Operation::Bcs, AddressMode::Rel),
        0xB1 => (Operation::Lda, AddressMode::Iny),
        0xB4 => (Operation::Ldy, AddressMode::Zpx),
        0xB5 => (Operation::Lda, AddressMode::Zpx),
        0xB6 => (Operation::Ldx, AddressMode::Zpy),
        0xB8 => (Operation::Clv, AddressMode::Imp),
        0xB9 => (Operation::Lda, AddressMode::Aby),
        0xBA => (Operation::Tsx, AddressMode::Imp),
        0xBC => (Operation::Ldy, AddressMode::Abx),
        0xBD => (Operation::Lda, AddressMode::Abx),
        0xBE => (Operation::Ldx, AddressMode::Aby),
        0xC0 => (Operation::Cpy, AddressMode::Imm),
        0xC1 => (Operation::Cmp, AddressMode::Inx),
        0xC4 => (Operation::Cpy, AddressMode::Zpg),
        0xC5 => (Operation::Cmp, AddressMode::Zpg),
        0xC6 => (Operation::Dec, AddressMode::Zpg),
        0xC8 => (Operation::Iny, AddressMode::Imp),
        0xC9 => (Operation::Cmp, AddressMode::Imm),
        0xCA => (Operation::Dex, AddressMode::Imp),
        0xCC => (Operation::Cpy, AddressMode::Abs),
        0xCD => (Operation::Cmp, AddressMode::Abs),
        0xCE => (Operation::Dec, AddressMode::Abs),
        0xD0 => (Operation::Bne, AddressMode::Rel),
        0xD1 => (Operation::Cmp, AddressMode::Iny),
        0xD5 => (Operation::Cmp, AddressMode::Zpx),
        0xD6 => (Operation::Dec, AddressMode::Zpx),
        0xD8 => (Operation::Cld, AddressMode::Imp),
        0xD9 => (Operation::Cmp, AddressMode::Aby),
        0xDD => (Operation::Cmp, AddressMode::Abx),
        0xDE => (Operation::Dec, AddressMode::Abx),
        0xE0 => (Operation::Cpx, AddressMode::Imm),
        0xE1 => (Operation::Sbc, AddressMode::Inx),
        0xE4 => (Operation::Cpx, AddressMode::Zpg),
        0xE5 => (Operation::Sbc, AddressMode::Zpg),
        0xE6 => (Operation::Inc, AddressMode::Zpg),
        0xE8 => (Operation::Inx, AddressMode::Imp),
        0xE9 => (Operation::Sbc, AddressMode::Imm),
        0xEA => (Operation::Nop, AddressMode::Imp),
        0xEC => (Operation::Cpx, AddressMode::Abs),
        0xED => (Operation::Sbc, AddressMode::Abs),
        0xEE => (Operation::Inc, AddressMode::Abs),
        0xF0 => (Operation::Beq, AddressMode::Rel),
        0xF1 => (Operation::Sbc, AddressMode::Iny),
        0xF5 => (Operation::Sbc, AddressMode::Zpx),
        0xF6 => (Operation::Inc, AddressMode::Zpx),
        0xF8 => (Operation::Sed, AddressMode::Imp),
        0xF9 => (Operation::Sbc, AddressMode::Aby),
        0xFD => (Operation::Sbc, AddressMode::Abx),
        0xFE => (Operation::Inc, AddressMode::Abx),
        _ => (Operation::Inv, AddressMode::Inv),
    }
}

/// The operation an opcode byte decodes to.
pub open spec fn op_of(opcode: u8) -> Operation {
    spec_decode(opcode).0
}

/// The addressing mode an opcode byte decodes to.
pub open spec fn mode_of(opcode: u8) -> AddressMode {
    spec_decode(opcode).1
}

/// Looks an opcode byte up in the decode table.
#[verifier::rlimit(100)]
pub fn decode_opcode(opcode: u8) -> (r: (Operation, AddressMode))
    ensures
        r == spec_decode(opcode),
{
    match opcode {
        0x00 => (Operation::Brk, AddressMode::Imp),
        0x01 => (Operation::Ora, AddressMode::Inx),
        0x05 => (Operation::Ora, AddressMode::Zpg),
        0x06 => (Operation::Asl, AddressMode::Zpg),
        0x08 => (Operation::Php, AddressMode::Imp),
        0x09 => (Operation::Ora, AddressMode::Imm),
        0x0A => (Operation::Asl, AddressMode::Acc),
        0x0D => (Operation::Ora, AddressMode::Abs),
        0x0E => (Operation::Asl, AddressMode::Abs),
        0x10 => (Operation::Bpl, AddressMode::Rel),
        0x11 => (Operation::Ora, AddressMode::Iny),
        0x15 => (Operation::Ora, AddressMode::Zpx),
        0x16 => (Operation::Asl, AddressMode::Zpx),
        0x18 => (Operation::Clc, AddressMode::Imp),
        0x19 => (Operation::Ora, AddressMode::Aby),
        0x1D => (Operation::Ora, AddressMode::Abx),
        0x1E => (Operation::Asl, AddressMode::Abx),
        0x20 => (Operation::Jsr, AddressMode::Abs),
        0x21 => (Operation::And, AddressMode::Inx),
        0x24 => (Operation::Bit, AddressMode::Zpg),
        0x25 => (Operation::And, AddressMode::Zpg),
        0x26 => (Operation::Rol, AddressMode::Zpg),
        0x28 => (Operation::Plp, AddressMode::Imp),
        0x29 => (Operation::And, AddressMode::Imm),
        0x2A => (Operation::Rol, AddressMode::Acc),
        0x2C => (Operation::Bit, AddressMode::Abs),
        0x2D => (Operation::And, AddressMode::Abs),
        0x2E => (Operation::Rol, AddressMode::Abs),
        0x30 => (Operation::Bmi, AddressMode::Rel),
        0x31 => (Operation::And, AddressMode::Iny),
        0x35 => (Operation::And, AddressMode::Zpx),
        0x36 => (Operation::Rol, AddressMode::Zpx),
        0x38 => (Operation::Sec, AddressMode::Imp),
        0x39 => (Operation::And, AddressMode::Aby),
        0x3D => (Operation::And, AddressMode::Abx),
        0x3E => (Operation::Rol, AddressMode::Abx),
        0x40 => (Operation::Rti, AddressMode::Imp),
        0x41 => (Operation::Eor, AddressMode::Inx),
        0x45 => (Operation::Eor, AddressMode::Zpg),
        0x46 => (Operation::Lsr, AddressMode::Zpg),
        0x48 => (Operation::Pha, AddressMode::Imp),
        0x49 => (Operation::Eor, AddressMode::Imm),
        0x4A => (Operation::Lsr, AddressMode::Acc),
        0x4C => (Operation::Jmp, AddressMode::Abs),
        0x4D => (Operation::Eor, AddressMode::Abs),
        0x4E => (Operation::Lsr, AddressMode::Abs),
        0x50 => (Operation::Bvc, AddressMode::Rel),
        0x51 => (Operation::Eor, AddressMode::Iny),
        0x55 => (Operation::Eor, AddressMode::Zpx),
        0x56 => (Operation::Lsr, AddressMode::Zpx),
        0x58 => (Operation::Cli, AddressMode::Imp),
        0x59 => (Operation::Eor, AddressMode::Aby),
        0x5D => (Operation::Eor, AddressMode::Abx),
        0x5E => (Operation::Lsr, AddressMode::Abx),
        0x60 => (Operation::Rts, AddressMode::Imp),
        0x61 => (Operation::Adc, AddressMode::Inx),
        0x65 => (Operation::Adc, AddressMode::Zpg),
        0x66 => (Operation::Ror, AddressMode::Zpg),
        0x68 => (Operation::Pla, AddressMode::Imp),
        0x69 => (Operation::Adc, AddressMode::Imm),
        0x6A => (Operation::Ror, AddressMode::Acc),
        0x6C => (Operation::Jmp, AddressMode::Ind),
        0x6D => (Operation::Adc, AddressMode::Abs),
        0x6E => (Operation::Ror, AddressMode::Abs),
        0x70 => (Operation::Bvs, AddressMode::Rel),
        0x71 => (Operation::Adc, AddressMode::Iny),
        0x75 => (Operation::Adc, AddressMode::Zpx),
        0x76 => (Operation::Ror, AddressMode::Zpx),
        0x78 => (Operation::Sei, AddressMode::Imp),
        0x79 => (Operation::Adc, AddressMode::Aby),
        0x7D => (Operation::Adc, AddressMode::Abx),
        0x7E => (Operation::Ror, AddressMode::Abx),
        0x81 => (Operation::Sta, AddressMode::Inx),
        0x84 => (Operation::Sty, AddressMode::Zpg),
        0x85 => (Operation::Sta, AddressMode::Zpg),
        0x86 => (Operation::Stx, AddressMode::Zpg),
        0x88 => (Operation::Dey, AddressMode::Imp),
        0x8A => (Operation::Txa, AddressMode::Imp),
        0x8C => (Operation::Sty, AddressMode::Abs),
        0x8D => (Operation::Sta, AddressMode::Abs),
        0x8E => (Operation::Stx, AddressMode::Abs),
        0x90 => (Operation::Bcc, AddressMode::Rel),
        0x91 => (Operation::Sta, AddressMode::Iny),
        0x94 => (Operation::Sty, AddressMode::Zpx),
        0x95 => (Operation::Sta, AddressMode::Zpx),
        0x96 => (Operation::Stx, AddressMode::Zpy),
        0x98 => (Operation::Tya, AddressMode::Imp),
        0x99 => (Operation::Sta, AddressMode::Aby),
        0x9A => (Operation::Txs, AddressMode::Imp),
        0x9D => (Operation::Sta, AddressMode::Abx),
        0xA0 => (Operation::Ldy, AddressMode::Imm),
        0xA1 => (Operation::Lda, AddressMode::Inx),
        0xA2 => (Operation::Ldx, AddressMode::Imm),
        0xA4 => (Operation::Ldy, AddressMode::Zpg),
        0xA5 => (Operation::Lda, AddressMode::Zpg),
        0xA6 => (Operation::Ldx, AddressMode::Zpg),
        0xA8 => (Operation::Tay, AddressMode::Imp),
        0xA9 => (Operation::Lda, AddressMode::Imm),
        0xAA => (Operation::Tax, AddressMode::Imp),
        0xAC => (Operation::Ldy, AddressMode::Abs),
        0xAD => (Operation::Lda, AddressMode::Abs),
        0xAE => (Operation::Ldx, AddressMode::Abs),
        0xB0 => (Operation::Bcs, AddressMode::Rel),
        0xB1 => (Operation::Lda, AddressMode::Iny),
        0xB4 => (Operation::Ldy, AddressMode::Zpx),
        0xB5 => (Operation::Lda, AddressMode::Zpx),
        0xB6 => (Operation::Ldx, AddressMode::Zpy),
        0xB8 => (Operation::Clv, AddressMode::Imp),
        0xB9 => (Operation::Lda, AddressMode::Aby),
        0xBA => (Operation::Tsx, AddressMode::Imp),
        0xBC => (Operation::Ldy, AddressMode::Abx),
        0xBD => (Operation::Lda, AddressMode::Abx),
        0xBE => (Operation::Ldx, AddressMode::Aby),
        0xC0 => (Operation::Cpy, AddressMode::Imm),
        0xC1 => (Operation::Cmp, AddressMode::Inx),
        0xC4 => (Operation::Cpy, AddressMode::Zpg),
        0xC5 => (Operation::Cmp, AddressMode::Zpg),
        0xC6 => (Operation::Dec, AddressMode::Zpg),
        0xC8 => (Operation::Iny, AddressMode::Imp),
        0xC9 => (Operation::Cmp, AddressMode::Imm),
        0xCA => (Operation::Dex, AddressMode::Imp),
        0xCC => (Operation::Cpy, AddressMode::Abs),
        0xCD => (Operation::Cmp, AddressMode::Abs),
        0xCE => (Operation::Dec, AddressMode::Abs),
        0xD0 => (Operation::Bne, AddressMode::Rel),
        0xD1 => (Operation::Cmp, AddressMode::Iny),
        0xD5 => (Operation::Cmp, AddressMode::Zpx),
        0xD6 => (Operation::Dec, AddressMode::Zpx),
        0xD8 => (Operation::Cld, AddressMode::Imp),
        0xD9 => (Operation::Cmp, AddressMode::Aby),
        0xDD => (Operation::Cmp, AddressMode::Abx),
        0xDE => (Operation::Dec, AddressMode::Abx),
        0xE0 => (Operation::Cpx, AddressMode::Imm),
        0xE1 => (Operation::Sbc, AddressMode::Inx),
        0xE4 => (Operation::Cpx, AddressMode::Zpg),
        0xE5 => (Operation::Sbc, AddressMode::Zpg),
        0xE6 => (Operation::Inc, AddressMode::Zpg),
        0xE8 => (Operation::Inx, AddressMode::Imp),
        0xE9 => (Operation::Sbc, AddressMode::Imm),
        0xEA => (Operation::Nop, AddressMode::Imp),
        0xEC => (Operation::Cpx, AddressMode::Abs),
        0xED => (Operation::Sbc, AddressMode::Abs),
        0xEE => (Operation::Inc, AddressMode::Abs),
        0xF0 => (Operation::Beq, AddressMode::Rel),
        0xF1 => (Operation::Sbc, AddressMode::Iny),
        0xF5 => (Operation::Sbc, AddressMode::Zpx),
        0xF6 => (Operation::Inc, AddressMode::Zpx),
        0xF8 => (Operation::Sed, AddressMode::Imp),
        0xF9 => (Operation::Sbc, AddressMode::Aby),
        0xFD => (Operation::Sbc, AddressMode::Abx),
        0xFE => (Operation::Inc, AddressMode::Abx),
        _ => (Operation::Inv, AddressMode::Inv),
    }
}

/// A byte decodes to an undocumented operation exactly when it decodes to the
/// invalid addressing mode: the two decode tables agree on which bytes are
/// documented.
pub proof fn lemma_decoder_coverage()
    ensures
        forall|opcode: u8| op_of(opcode) is Inv <==> mode_of(opcode) is Inv,
{
}

/// Computes the target of a relative branch: the offset byte is read as a
/// two's-complement displacement from the address of the next instruction,
/// wrapping at 16 bits.
pub fn branch_dest(pc: u16, off: u8) -> (r: u16)
    ensures
        r == branch_target(pc, off),
{
    if off < 0x80 {
        pc.wrapping_add(off as u16)
    } else {
        pc.wrapping_add(off as u16).wrapping_sub(0x100)
    }
}

impl AddressMode {
    /// How many bytes of operand follow the opcode in the instruction stream.
    pub fn address_size(&self) -> (r: u8)
        ensures
            r == spec_address_size(*self),
            r <= 2,
    {
        match self {
            AddressMode::Acc => 0,
            AddressMode::Abs => 2,
            AddressMode::Abx => 2,
            AddressMode::Aby => 2,
            AddressMode::Imm => 1,
            AddressMode::Imp => 0,
            AddressMode::Ind => 2,
            AddressMode::Inx => 1,
            AddressMode::Iny => 1,
            AddressMode::Rel => 1,
            AddressMode::Zpg => 1,
            AddressMode::Zpx => 1,
            AddressMode::Zpy => 1,
            AddressMode::Inv => 0,
        }
    }
}

impl Instruction {
    /// A placeholder instruction, as stored in a fresh history ring.
    pub fn new() -> (r: Self)
        ensures
            r.operation is Inv,
            r.address_mode is Inv,
            r.value == 0,
            r.cycles == 0,
    {
        Instruction {
            operation: Operation::Inv,
            address_mode: AddressMode::Inv,
            value: 0,
            cycles: 0,
        }
    }
}

impl CpuState {
    /// A placeholder snapshot, as stored in a fresh history ring.  The
    /// program counter sentinel `0xFFFF` never matches a just-reset CPU.
    pub fn new() -> (r: Self)
        ensures
            r.a == 0 && r.x == 0 && r.y == 0,
            r.pc == 0xFFFF,
            r.sp == 0 && r.sr == 0,
            r.cycles == 0,
    {
        CpuState { a: 0, x: 0, y: 0, pc: 0xFFFF, sp: 0, sr: 0, cycles: 0 }
    }
}

/// Whether the cycle class can occur with the addressing mode; the cycle
/// model is only defined on these pairs.
pub open spec fn cycle_mode_ok(class: CycleType, mode: AddressMode) -> bool {
    match class {
        CycleType::SetValue1 => mode is Imm || mode is Zpg || mode is Zpx || mode is Zpy
            || mode is Abs || mode is Abx || mode is Aby || mode is Inx || mode is Iny,
        CycleType::SetValue2 => mode is Acc || mode is Zpg || mode is Zpx || mode is Abs
            || mode is Abx,
        CycleType::Jump => mode is Abs || mode is Ind,
        CycleType::StoreAccumulator => mode is Imm || mode is Zpg || mode is Zpx || mode is Abs
            || mode is Abx || mode is Aby || mode is Inx || mode is Iny,
        _ => true,
    }
}

/// The cycle cost of an executed instruction, as a function of its cycle
/// class, addressing mode, pre-indexed base address and index value.  For
/// `Branch` the class prices the taken case: `address` is the address of the
/// next instruction and `register` the branch offset byte.
pub open spec fn spec_cycle_count(
    class: CycleType,
    mode: AddressMode,
    address: u16,
    register: u8,
) -> u8 {
    match class {
        CycleType::SetValue1 => match mode {
            AddressMode::Imm => 2,
            AddressMode::Zpg => 3,
            AddressMode::Zpx => 4,
            AddressMode::Zpy => 4,
            AddressMode::Abs => 4,
            AddressMode::Abx => if page_crossed(address, register) {
                5
            } else {
                4
            },
            AddressMode::Aby => if page_crossed(address, register) {
                5
            } else {
                4
            },
            AddressMode::Inx => 6,
            AddressMode::Iny => if page_crossed(address, register) {
                6
            } else {
                5
            },
            _ => 0,
        },
        CycleType::SetValue2 => match mode {
            AddressMode::Acc => 2,
            AddressMode::Zpg => 5,
            AddressMode::Zpx => 6,
            AddressMode::Abs => 6,
            AddressMode::Abx => 7,
            _ => 0,
        },
        CycleType::Branch => if branch_target(address, register) / 256 != address / 256 {
            4
        } else {
            3
        },
        CycleType::Base => 2,
        CycleType::Jump => match mode {
            AddressMode::Abs => 3,
            AddressMode::Ind => 5,
            _ => 0,
        },
        CycleType::JumpSubroutine => 6,
        CycleType::Break => 7,
        CycleType::PushStack => 3,
        CycleType::PullStack => 4,
        CycleType::Return => 6,
        CycleType::StoreAccumulator => match mode {
            AddressMode::Imm => 2,
            AddressMode::Zpg => 3,
            AddressMode::Zpx => 4,
            AddressMode::Abs => 4,
            AddressMode::Abx => 5,
            AddressMode::Aby => 5,
            AddressMode::Inx => 6,
            AddressMode::Iny => 6,
            _ => 0,
        },
    }
}

impl CycleType {
    /// Prices one executed instruction.  `address` is the pre-indexed base
    /// address and `register` the index value for the modes that pay a
    /// page-crossing penalty; for `Branch`, `address` is the address of the
    /// next instruction and `register` the branch offset byte.
    #[allow(non_snake_case)]
    pub fn GetCycleCount(&self, mode: &AddressMode, address: u16, register: u8) -> (r: u8)
        requires
            cycle_mode_ok(*self, *mode),
        ensures
            r == spec_cycle_count(*self, *mode, address, register),
    {
        match self {
            CycleType::SetValue1 => match mode {
                AddressMode::Imm => 2,
                AddressMode::Zpg => 3,
                AddressMode::Zpx => 4,
                AddressMode::Zpy => 4,
                AddressMode::Abs => 4,
                AddressMode::Abx => if address % 256 + register as u16 > 255 {
                    5
                } else {
                    4
                },
                AddressMode::Aby => if address % 256 + register as u16 > 255 {
                    5
                } else {
                    4
                },
                AddressMode::Inx => 6,
                AddressMode::Iny => if address % 256 + register as u16 > 255 {
                    6
                } else {
                    5
                },
                _ => 0,
            },
            CycleType::SetValue2 => match mode {
                AddressMode::Acc => 2,
                AddressMode::Zpg => 5,
                AddressMode::Zpx => 6,
                AddressMode::Abs => 6,
                AddressMode::Abx => 7,
                _ => 0,
            },
            CycleType::Branch => {
                let target = branch_dest(address, register);
                if target / 256 != address / 256 {
                    4
                } else {
                    3
                }
            },
            CycleType::Base => 2,
            CycleType::Jump => match mode {
                AddressMode::Abs => 3,
                AddressMode::Ind => 5,
                _ => 0,
            },
            CycleType::JumpSubroutine => 6,
            CycleType::Break => 7,
            CycleType::PushStack => 3,
            CycleType::PullStack => 4,
            CycleType::Return => 6,
            CycleType::StoreAccumulator => match mode {
                AddressMode::Imm => 2,
                AddressMode::Zpg => 3,
                AddressMode::Zpx => 4,
                AddressMode::Abs => 4,
                AddressMode::Abx => 5,
                AddressMode::Aby => 5,
                AddressMode::Inx => 6,
                AddressMode::Iny => 6,
                _ => 0,
            },
        }
    }
}

} // verus!
