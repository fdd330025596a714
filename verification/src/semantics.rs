//! The mathematical model of the 6502 core.
//!
//! `CpuModel` is the architectural state as specification data: the
//! registers, the status byte, the cycle counter and the 64 KiB memory image
//! as a sequence.  `spec_step` maps a state to the state after executing one
//! instruction, exactly as the execution engine does; every instruction
//! handler of [`crate::cpu::Cpu`] is proved against the corresponding piece
//! of this model.

use vstd::prelude::*;

verus! {

use crate::bcd::spec_bcd_add;
use crate::bcd::spec_bcd_sub;
use crate::cpu_helpers::AddressMode;
use crate::cpu_helpers::Operation;
use crate::cpu_helpers::FLAG_BREAK;
use crate::cpu_helpers::FLAG_CARRY;
use crate::cpu_helpers::FLAG_DECIMAL;
use crate::cpu_helpers::FLAG_INTERRUPT;
use crate::cpu_helpers::FLAG_NEGATIVE;
use crate::cpu_helpers::FLAG_OVERFLOW;
use crate::cpu_helpers::FLAG_UNUSED;
use crate::cpu_helpers::FLAG_ZERO;
use crate::cpu_helpers::IRQ_VECTOR;
use crate::cpu_helpers::CpuState;
use crate::cpu_helpers::Instruction;
use crate::cpu_helpers::spec_address_size;
use crate::cpu_helpers::spec_decode;
use crate::cpu_helpers::op_of;
use crate::cpu_helpers::mode_of;

/// The architectural state of the processor, as specification data.
pub ghost struct CpuModel {
    pub a: u8,
    pub x: u8,
    pub y: u8,
    pub pc: u16,
    pub sp: u8,
    pub sr: u8,
    pub cycles: u64,
    pub mem: Seq<u8>,
}

impl CpuModel {
    /// The one structural invariant: the memory image is exactly 64 KiB, so
    /// every 16-bit address denotes a byte.
    pub open spec fn wf(self) -> bool {
        self.mem.len() == 0x10000
    }
}

/// Whether every bit named by `mask` reads as set in the status byte.
pub open spec fn flag_set(sr: u8, mask: u8) -> bool {
    sr & mask != 0
}

/// The status byte with the bits named by `mask` all set or all cleared.
pub open spec fn apply_flag(sr: u8, value: bool, mask: u8) -> u8 {
    if value {
        sr | mask
    } else {
        sr & !mask
    }
}

/// The status byte after deriving Negative then Zero from a result byte.
pub open spec fn flags_nz(sr: u8, result: u8) -> u8 {
    apply_flag(apply_flag(sr, result & 0x80 != 0, FLAG_NEGATIVE), result == 0, FLAG_ZERO)
}

/// The byte stored at an address.
pub open spec fn rd8(m: CpuModel, addr: u16) -> u8 {
    m.mem[addr as int]
}

/// A little-endian 16-bit load of two consecutive bytes, the second address
/// wrapping at 16 bits.
pub open spec fn rd16(m: CpuModel, addr: u16) -> u16 {
    (rd8(m, addr) + rd8(m, addr.wrapping_add(1)) * 256) as u16
}

/// A little-endian 16-bit load whose second byte comes from within the same
/// zero-page: the pointer wraps at 8 bits.  Used by the indexed-indirect
/// addressing modes.
pub open spec fn rd16_zpg(m: CpuModel, ptr: u8) -> u16 {
    (rd8(m, ptr as u16) + rd8(m, ptr.wrapping_add(1) as u16) * 256) as u16
}

/// A little-endian 16-bit load whose second byte comes from within the same
/// page: the low byte of the pointer wraps without carrying into the high
/// byte.  This is the 6502's `JMP (indirect)` quirk.
pub open spec fn rd16_page(m: CpuModel, ptr: u16) -> u16 {
    let hi_addr = (ptr - ptr % 256 + (ptr % 256 + 1) % 256) as u16;
    (rd8(m, ptr) + rd8(m, hi_addr) * 256) as u16
}

/// The state with one byte stored.
pub open spec fn wr8(m: CpuModel, addr: u16, val: u8) -> CpuModel {
    CpuModel { mem: m.mem.update(addr as int, val), ..m }
}

/// The state after a little-endian 16-bit store to two consecutive bytes,
/// the second address wrapping at 16 bits.
pub open spec fn wr16(m: CpuModel, addr: u16, val: u16) -> CpuModel {
    wr8(wr8(m, addr, (val % 256) as u8), addr.wrapping_add(1), (val / 256) as u8)
}

/// The address in the stack page that a stack pointer value denotes.
pub open spec fn stack_addr(sp: u8) -> u16 {
    (0x0100 + sp) as u16
}

/// The state after pushing one byte: the byte is stored at the stack address
/// and the stack pointer moves down, wrapping within the page.
pub open spec fn push8(m: CpuModel, val: u8) -> CpuModel {
    let m1 = wr8(m, stack_addr(m.sp), val);
    CpuModel { sp: m.sp.wrapping_sub(1), ..m1 }
}

/// The state and byte after pulling from the stack: the stack pointer moves
/// up and the byte at the new stack address is read.
pub open spec fn pull8(m: CpuModel) -> (CpuModel, u8) {
    let sp1 = m.sp.wrapping_add(1);
    (CpuModel { sp: sp1, ..m }, rd8(m, stack_addr(sp1)))
}

/// The target of a relative branch: the offset byte is a two's-complement
/// displacement from the address of the next instruction, wrapping at 16
/// bits.
pub open spec fn branch_target(pc: u16, off: u8) -> u16 {
    if off < 0x80 {
        pc.wrapping_add(off as u16)
    } else {
        pc.wrapping_add(off as u16).wrapping_sub(0x100)
    }
}

/// Whether indexing a base address leaves the 256-byte page of the base.
pub open spec fn page_crossed(base: u16, index: u8) -> bool {
    base % 256 + index > 255
}

/// The effective address computed by an addressing mode, with the program
/// counter at the first operand byte.  Modes without a meaningful address
/// yield zero.
pub open spec fn eff_addr(m: CpuModel, mode: AddressMode) -> u16 {
    match mode {
        AddressMode::Acc => 0,
        AddressMode::Abs => rd16(m, m.pc),
        AddressMode::Abx => rd16(m, m.pc).wrapping_add(m.x as u16),
        AddressMode::Aby => rd16(m, m.pc).wrapping_add(m.y as u16),
        AddressMode::Imm => 0,
        AddressMode::Imp => 0,
        AddressMode::Ind => rd16_page(m, rd16(m, m.pc)),
        AddressMode::Inx => rd16_zpg(m, rd8(m, m.pc).wrapping_add(m.x)),
        AddressMode::Iny => rd16_zpg(m, rd8(m, m.pc)).wrapping_add(m.y as u16),
        AddressMode::Rel => branch_target(m.pc.wrapping_add(1), rd8(m, m.pc)),
        AddressMode::Zpg => rd8(m, m.pc) as u16,
        AddressMode::Zpx => rd8(m, m.pc).wrapping_add(m.x) as u16,
        AddressMode::Zpy => rd8(m, m.pc).wrapping_add(m.y) as u16,
        AddressMode::Inv => 0,
    }
}

/// The operand byte an addressing mode delivers: the accumulator, an
/// immediate byte, or the byte at the effective address.
pub open spec fn operand_val(m: CpuModel, mode: AddressMode) -> u8 {
    match mode {
        AddressMode::Acc => m.a,
        AddressMode::Imm => rd8(m, m.pc),
        AddressMode::Imp => 0,
        AddressMode::Rel => 0,
        AddressMode::Inv => 0,
        _ => rd8(m, eff_addr(m, mode)),
    }
}

/// The program counter after consuming the operand bytes of a mode.
pub open spec fn pc_after(m: CpuModel, mode: AddressMode) -> u16 {
    m.pc.wrapping_add(spec_address_size(mode) as u16)
}

/// The state after consuming the operand bytes of a mode.
pub open spec fn after_operand(m: CpuModel, mode: AddressMode) -> CpuModel {
    CpuModel { pc: pc_after(m, mode), ..m }
}

/// The cycles that operand evaluation contributes on top of the two-cycle
/// base of an operand-reading instruction, including the page-crossing
/// penalty of the indexed modes.
pub open spec fn operand_extra_cycles(m: CpuModel, mode: AddressMode) -> u8 {
    match mode {
        AddressMode::Acc => 0,
        AddressMode::Abs => 2,
        AddressMode::Abx => if page_crossed(rd16(m, m.pc), m.x) {
            3
        } else {
            2
        },
        AddressMode::Aby => if page_crossed(rd16(m, m.pc), m.y) {
            3
        } else {
            2
        },
        AddressMode::Imm => 0,
        AddressMode::Imp => 0,
        AddressMode::Ind => 3,
        AddressMode::Inx => 4,
        AddressMode::Iny => if page_crossed(rd16_zpg(m, rd8(m, m.pc)), m.y) {
            4
        } else {
            3
        },
        AddressMode::Rel => 0,
        AddressMode::Zpg => 1,
        AddressMode::Zpx => 2,
        AddressMode::Zpy => 2,
        AddressMode::Inv => 0,
    }
}

/// The cycle cost of an operand-reading instruction: a two-cycle base plus
/// the operand contribution.
pub open spec fn read_cycles(m: CpuModel, mode: AddressMode) -> u8 {
    (2 + operand_extra_cycles(m, mode)) as u8
}

/// The cycle cost of a read-modify-write instruction.
pub open spec fn rmw_cycles(mode: AddressMode) -> u8 {
    match mode {
        AddressMode::Acc => 2,
        AddressMode::Zpg => 5,
        AddressMode::Zpx => 6,
        AddressMode::Abs => 6,
        AddressMode::Abx => 7,
        _ => 0,
    }
}

/// The cycle cost of STA, which always pays the indexing penalty.
pub open spec fn store_cycles(mode: AddressMode) -> u8 {
    match mode {
        AddressMode::Imm => 2,
        AddressMode::Zpg => 3,
        AddressMode::Zpx => 4,
        AddressMode::Abs => 4,
        AddressMode::Abx => 5,
        AddressMode::Aby => 5,
        AddressMode::Inx => 6,
        AddressMode::Iny => 6,
        _ => 0,
    }
}

/// Add with carry.  Binary mode adds modulo 256 with an unsigned carry out;
/// decimal mode delegates to packed-BCD addition.  Overflow compares the
/// sign of the result with the signs of the addends.
pub open spec fn op_adc(m: CpuModel, mode: AddressMode) -> (CpuModel, u8) {
    let v = operand_val(m, mode);
    let m1 = after_operand(m, mode);
    let c = flag_set(m.sr, FLAG_CARRY);
    let pair = if flag_set(m.sr, FLAG_DECIMAL) {
        spec_bcd_add(m.a, v, c)
    } else {
        (((m.a + v + (if c {
            1int
        } else {
            0int
        })) % 256) as u8, m.a + v + (if c {
            1int
        } else {
            0int
        }) > 255)
    };
    let result = pair.0;
    let carried = pair.1;
    let sr1 = apply_flag(m1.sr, carried, FLAG_CARRY);
    let sr2 = apply_flag(sr1, result == 0, FLAG_ZERO);
    let sr3 = apply_flag(sr2, result & 0x80 != 0, FLAG_NEGATIVE);
    let sr4 = apply_flag(sr3, !(v ^ m.a) & (result ^ m.a) & 0x80 != 0, FLAG_OVERFLOW);
    (CpuModel { a: result, sr: sr4, ..m1 }, read_cycles(m, mode))
}

/// Subtract with carry, where carry set means "no borrow".  Binary mode
/// subtracts in at-least-nine-bit signed arithmetic; decimal mode delegates
/// to packed-BCD subtraction, whose borrow flag is complemented into Carry.
pub open spec fn op_sbc(m: CpuModel, mode: AddressMode) -> (CpuModel, u8) {
    let v = operand_val(m, mode);
    let m1 = after_operand(m, mode);
    let c = flag_set(m.sr, FLAG_CARRY);
    let pair = if flag_set(m.sr, FLAG_DECIMAL) {
        spec_bcd_sub(m.a, v, c)
    } else {
        (({
            let diff = m.a - v - (if c {
                0int
            } else {
                1int
            });
            (if diff < 0 {
                diff + 256
            } else {
                diff
            }) as u8
        }), m.a - v - (if c {
            0int
        } else {
            1int
        }) < 0)
    };
    let result = pair.0;
    let borrowed = pair.1;
    let sr1 = apply_flag(m1.sr, !borrowed, FLAG_CARRY);
    let sr2 = apply_flag(sr1, result == 0, FLAG_ZERO);
    let sr3 = apply_flag(sr2, result & 0x80 != 0, FLAG_NEGATIVE);
    let sr4 = apply_flag(sr3, (v ^ m.a) & (result ^ m.a) & 0x80 != 0, FLAG_OVERFLOW);
    (CpuModel { a: result, sr: sr4, ..m1 }, read_cycles(m, mode))
}

/// Bitwise AND into the accumulator.
pub open spec fn op_and(m: CpuModel, mode: AddressMode) -> (CpuModel, u8) {
    let v = operand_val(m, mode);
    let m1 = after_operand(m, mode);
    let result = m.a & v;
    (CpuModel { a: result, sr: flags_nz(m1.sr, result), ..m1 }, read_cycles(m, mode))
}

/// Bitwise OR into the accumulator.
pub open spec fn op_ora(m: CpuModel, mode: AddressMode) -> (CpuModel, u8) {
    let v = operand_val(m, mode);
    let m1 = after_operand(m, mode);
    let result = m.a | v;
    (CpuModel { a: result, sr: flags_nz(m1.sr, result), ..m1 }, read_cycles(m, mode))
}

/// Bitwise exclusive OR into the accumulator.
pub open spec fn op_eor(m: CpuModel, mode: AddressMode) -> (CpuModel, u8) {
    let v = operand_val(m, mode);
    let m1 = after_operand(m, mode);
    let result = m.a ^ v;
    (CpuModel { a: result, sr: flags_nz(m1.sr, result), ..m1 }, read_cycles(m, mode))
}

/// The state after a shift or rotate writes its result back: to the
/// accumulator in accumulator mode, else to the effective address.
pub open spec fn shift_writeback(
    m: CpuModel,
    mode: AddressMode,
    result: u8,
    sr: u8,
) -> CpuModel {
    let m1 = after_operand(m, mode);
    if mode is Acc {
        CpuModel { a: result, sr, ..m1 }
    } else {
        wr8(CpuModel { sr, ..m1 }, eff_addr(m, mode), result)
    }
}

/// Arithmetic shift left: bit 7 leaves through Carry, zero enters bit 0.
pub open spec fn op_asl(m: CpuModel, mode: AddressMode) -> (CpuModel, u8) {
    let v = operand_val(m, mode);
    let result = v << 1;
    let sr1 = apply_flag(m.sr, v & 0x80 != 0, FLAG_CARRY);
    (shift_writeback(m, mode, result, flags_nz(sr1, result)), rmw_cycles(mode))
}

/// Logical shift right: bit 0 leaves through Carry, zero enters bit 7, and
/// Negative always clears.
pub open spec fn op_lsr(m: CpuModel, mode: AddressMode) -> (CpuModel, u8) {
    let v = operand_val(m, mode);
    let result = v >> 1;
    let sr1 = apply_flag(m.sr, v & 0x01 != 0, FLAG_CARRY);
    let sr2 = apply_flag(sr1, result == 0, FLAG_ZERO);
    let sr3 = apply_flag(sr2, false, FLAG_NEGATIVE);
    (shift_writeback(m, mode, result, sr3), rmw_cycles(mode))
}

/// Rotate left through Carry.
pub open spec fn op_rol(m: CpuModel, mode: AddressMode) -> (CpuModel, u8) {
    let v = operand_val(m, mode);
    let result = (v << 1) | (if flag_set(m.sr, FLAG_CARRY) {
        1u8
    } else {
        0u8
    });
    let sr1 = apply_flag(m.sr, v & 0x80 != 0, FLAG_CARRY);
    (shift_writeback(m, mode, result, flags_nz(sr1, result)), rmw_cycles(mode))
}

/// Rotate right through Carry.
pub open spec fn op_ror(m: CpuModel, mode: AddressMode) -> (CpuModel, u8) {
    let v = operand_val(m, mode);
    let result = (v >> 1) | (if flag_set(m.sr, FLAG_CARRY) {
        0x80u8
    } else {
        0u8
    });
    let sr1 = apply_flag(m.sr, v & 0x01 != 0, FLAG_CARRY);
    (shift_writeback(m, mode, result, flags_nz(sr1, result)), rmw_cycles(mode))
}

/// BIT: Zero from the masked accumulator, Negative and Overflow copied from
/// bits 7 and 6 of the operand; the accumulator is untouched.
pub open spec fn op_bit(m: CpuModel, mode: AddressMode) -> (CpuModel, u8) {
    let v = operand_val(m, mode);
    let m1 = after_operand(m, mode);
    let sr1 = apply_flag(m1.sr, v & m.a == 0, FLAG_ZERO);
    let sr2 = apply_flag(sr1, v & FLAG_NEGATIVE != 0, FLAG_NEGATIVE);
    let sr3 = apply_flag(sr2, v & FLAG_OVERFLOW != 0, FLAG_OVERFLOW);
    (CpuModel { sr: sr3, ..m1 }, read_cycles(m, mode))
}

/// A compare: the register minus the operand sets Negative and Zero from the
/// 8-bit difference and Carry exactly when the register is at least the
/// operand.
pub open spec fn op_compare(m: CpuModel, mode: AddressMode, reg: u8) -> (CpuModel, u8) {
    let v = operand_val(m, mode);
    let m1 = after_operand(m, mode);
    let result = reg.wrapping_sub(v);
    let sr1 = apply_flag(m1.sr, result & 0x80 != 0, FLAG_NEGATIVE);
    let sr2 = apply_flag(sr1, result == 0, FLAG_ZERO);
    let sr3 = apply_flag(sr2, reg >= v, FLAG_CARRY);
    (CpuModel { sr: sr3, ..m1 }, read_cycles(m, mode))
}

/// A conditional branch.  Taken: the program counter moves to the branch
/// target for three cycles, plus one if the target lies in another page than
/// the next instruction.  Not taken: the operand is skipped for two cycles.
pub open spec fn op_branch(m: CpuModel, mode: AddressMode, cond: bool) -> (CpuModel, u8) {
    if cond {
        let t = eff_addr(m, mode);
        let next = pc_after(m, mode);
        (CpuModel { pc: t, ..m }, (3 + if t / 256 != next / 256 {
            1int
        } else {
            0int
        }) as u8)
    } else {
        (after_operand(m, mode), 2)
    }
}

/// Whether an operation is one of the eight conditional branches.
pub open spec fn is_branch(op: Operation) -> bool {
    op is Bcc || op is Bcs || op is Beq || op is Bne || op is Bmi || op is Bpl || op is Bvc
        || op is Bvs
}

/// The condition a branch operation tests on the status byte.
pub open spec fn branch_cond(op: Operation, sr: u8) -> bool {
    match op {
        Operation::Bcc => !flag_set(sr, FLAG_CARRY),
        Operation::Bcs => flag_set(sr, FLAG_CARRY),
        Operation::Beq => flag_set(sr, FLAG_ZERO),
        Operation::Bne => !flag_set(sr, FLAG_ZERO),
        Operation::Bmi => flag_set(sr, FLAG_NEGATIVE),
        Operation::Bpl => !flag_set(sr, FLAG_NEGATIVE),
        Operation::Bvc => !flag_set(sr, FLAG_OVERFLOW),
        Operation::Bvs => flag_set(sr, FLAG_OVERFLOW),
        _ => false,
    }
}

/// BRK: pushes the program counter plus one and the status byte with Break
/// and Unused set, sets Interrupt-disable, and vectors through `0xFFFE`.
pub open spec fn op_brk(m: CpuModel) -> (CpuModel, u8) {
    let ret = m.pc.wrapping_add(1);
    let m1 = push8(m, (ret / 256) as u8);
    let m2 = push8(m1, (ret % 256) as u8);
    let m3 = push8(m2, m.sr | FLAG_BREAK | FLAG_UNUSED);
    let sr1 = apply_flag(m3.sr, true, FLAG_INTERRUPT);
    (CpuModel { sr: sr1, pc: rd16(m3, IRQ_VECTOR), ..m3 }, 7)
}

/// JSR: pushes the address of the last operand byte and jumps.
pub open spec fn op_jsr(m: CpuModel, mode: AddressMode) -> (CpuModel, u8) {
    let m1 = after_operand(m, mode);
    let ret = m1.pc.wrapping_sub(1);
    let m2 = push8(m1, (ret / 256) as u8);
    let m3 = push8(m2, (ret % 256) as u8);
    (CpuModel { pc: eff_addr(m, mode), ..m3 }, 6)
}

/// RTS: pulls the return address and resumes one byte past it.
pub open spec fn op_rts(m: CpuModel) -> (CpuModel, u8) {
    let p1 = pull8(m);
    let p2 = pull8(p1.0);
    let ret = (p1.1 + p2.1 * 256) as u16;
    (CpuModel { pc: ret.wrapping_add(1), ..p2.0 }, 6)
}

/// RTI: pulls the status byte (Break cleared, Unused forced set) and then
/// the interrupted program counter.
pub open spec fn op_rti(m: CpuModel) -> (CpuModel, u8) {
    let p1 = pull8(m);
    let sr1 = (p1.1 & !FLAG_BREAK) | FLAG_UNUSED;
    let p2 = pull8(p1.0);
    let p3 = pull8(p2.0);
    (CpuModel { sr: sr1, pc: (p2.1 + p3.1 * 256) as u16, ..p3.0 }, 6)
}

/// JMP: absolute or indirect (with the page-wrap quirk).
pub open spec fn op_jmp(m: CpuModel, mode: AddressMode) -> (CpuModel, u8) {
    let t = eff_addr(m, mode);
    let m1 = after_operand(m, mode);
    let cycles: u8 = match mode {
        AddressMode::Abs => 3,
        AddressMode::Ind => 5,
        _ => 0,
    };
    (CpuModel { pc: t, ..m1 }, cycles)
}

/// PHA: pushes the accumulator.
pub open spec fn op_pha(m: CpuModel) -> (CpuModel, u8) {
    (push8(m, m.a), 3)
}

/// PHP: pushes the status byte with Break and Unused set.
pub open spec fn op_php(m: CpuModel) -> (CpuModel, u8) {
    (push8(m, m.sr | FLAG_BREAK | FLAG_UNUSED), 3)
}

/// PLA: pulls into the accumulator and derives Negative and Zero.
pub open spec fn op_pla(m: CpuModel) -> (CpuModel, u8) {
    let p = pull8(m);
    (CpuModel { a: p.1, sr: flags_nz(p.0.sr, p.1), ..p.0 }, 4)
}

/// PLP: pulls into the status byte with Break cleared and Unused forced set.
pub open spec fn op_plp(m: CpuModel) -> (CpuModel, u8) {
    let p = pull8(m);
    (CpuModel { sr: (p.1 & !FLAG_BREAK) | FLAG_UNUSED, ..p.0 }, 4)
}

/// A load: the operand byte enters the chosen register with Negative and
/// Zero derived from it; the updated registers are supplied by the caller.
pub open spec fn op_lda(m: CpuModel, mode: AddressMode) -> (CpuModel, u8) {
    let v = operand_val(m, mode);
    let m1 = after_operand(m, mode);
    (CpuModel { a: v, sr: flags_nz(m1.sr, v), ..m1 }, read_cycles(m, mode))
}

/// LDX: loads the X index register.
pub open spec fn op_ldx(m: CpuModel, mode: AddressMode) -> (CpuModel, u8) {
    let v = operand_val(m, mode);
    let m1 = after_operand(m, mode);
    (CpuModel { x: v, sr: flags_nz(m1.sr, v), ..m1 }, read_cycles(m, mode))
}

/// LDY: loads the Y index register.
pub open spec fn op_ldy(m: CpuModel, mode: AddressMode) -> (CpuModel, u8) {
    let v = operand_val(m, mode);
    let m1 = after_operand(m, mode);
    (CpuModel { y: v, sr: flags_nz(m1.sr, v), ..m1 }, read_cycles(m, mode))
}

/// STA: stores the accumulator at the effective address.
pub open spec fn op_sta(m: CpuModel, mode: AddressMode) -> (CpuModel, u8) {
    (wr8(after_operand(m, mode), eff_addr(m, mode), m.a), store_cycles(mode))
}

/// STX: stores the X index register at the effective address.
pub open spec fn op_stx(m: CpuModel, mode: AddressMode) -> (CpuModel, u8) {
    (wr8(after_operand(m, mode), eff_addr(m, mode), m.x), read_cycles(m, mode))
}

/// STY: stores the Y index register at the effective address.
pub open spec fn op_sty(m: CpuModel, mode: AddressMode) -> (CpuModel, u8) {
    (wr8(after_operand(m, mode), eff_addr(m, mode), m.y), read_cycles(m, mode))
}

/// INC: increments the byte at the effective address, wrapping at 8 bits.
pub open spec fn op_inc(m: CpuModel, mode: AddressMode) -> (CpuModel, u8) {
    let v = operand_val(m, mode);
    let result = v.wrapping_add(1);
    let m1 = after_operand(m, mode);
    (wr8(CpuModel { sr: flags_nz(m1.sr, result), ..m1 }, eff_addr(m, mode), result), rmw_cycles(
        mode,
    ))
}

/// DEC: decrements the byte at the effective address, wrapping at 8 bits.
pub open spec fn op_dec(m: CpuModel, mode: AddressMode) -> (CpuModel, u8) {
    let v = operand_val(m, mode);
    let result = v.wrapping_sub(1);
    let m1 = after_operand(m, mode);
    (wr8(CpuModel { sr: flags_nz(m1.sr, result), ..m1 }, eff_addr(m, mode), result), rmw_cycles(
        mode,
    ))
}

/// The transition of one decoded instruction, with the program counter
/// already past the opcode byte: the new state paired with the cycles
/// consumed.
pub open spec fn spec_dispatch(m1: CpuModel, op: Operation, mode: AddressMode) -> (CpuModel, u8) {
    match op {
        Operation::Adc => op_adc(m1, mode),
        Operation::And => op_and(m1, mode),
        Operation::Asl => op_asl(m1, mode),
        Operation::Bcc => op_branch(m1, mode, branch_cond(op, m1.sr)),
        Operation::Bcs => op_branch(m1, mode, branch_cond(op, m1.sr)),
        Operation::Beq => op_branch(m1, mode, branch_cond(op, m1.sr)),
        Operation::Bit => op_bit(m1, mode),
        Operation::Bmi => op_branch(m1, mode, branch_cond(op, m1.sr)),
        Operation::Bne => op_branch(m1, mode, branch_cond(op, m1.sr)),
        Operation::Bpl => op_branch(m1, mode, branch_cond(op, m1.sr)),
        Operation::Brk => op_brk(m1),
        Operation::Bvc => op_branch(m1, mode, branch_cond(op, m1.sr)),
        Operation::Bvs => op_branch(m1, mode, branch_cond(op, m1.sr)),
        Operation::Clc => (CpuModel { sr: apply_flag(m1.sr, false, FLAG_CARRY), ..m1 }, 2),
        Operation::Cld => (CpuModel { sr: apply_flag(m1.sr, false, FLAG_DECIMAL), ..m1 }, 2),
        Operation::Cli => (CpuModel { sr: apply_flag(m1.sr, false, FLAG_INTERRUPT), ..m1 }, 2),
        Operation::Clv => (CpuModel { sr: apply_flag(m1.sr, false, FLAG_OVERFLOW), ..m1 }, 2),
        Operation::Cmp => op_compare(m1, mode, m1.a),
        Operation::Cpx => op_compare(m1, mode, m1.x),
        Operation::Cpy => op_compare(m1, mode, m1.y),
        Operation::Dec => op_dec(m1, mode),
        Operation::Dex => {
            let r = m1.x.wrapping_sub(1);
            (CpuModel { x: r, sr: flags_nz(m1.sr, r), ..m1 }, 2)
        },
        Operation::Dey => {
            let r = m1.y.wrapping_sub(1);
            (CpuModel { y: r, sr: flags_nz(m1.sr, r), ..m1 }, 2)
        },
        Operation::Eor => op_eor(m1, mode),
        Operation::Inc => op_inc(m1, mode),
        Operation::Inx => {
            let r = m1.x.wrapping_add(1);
            (CpuModel { x: r, sr: flags_nz(m1.sr, r), ..m1 }, 2)
        },
        Operation::Iny => {
            let r = m1.y.wrapping_add(1);
            (CpuModel { y: r, sr: flags_nz(m1.sr, r), ..m1 }, 2)
        },
        Operation::Jmp => op_jmp(m1, mode),
        Operation::Jsr => op_jsr(m1, mode),
        Operation::Lda => op_lda(m1, mode),
        Operation::Ldx => op_ldx(m1, mode),
        Operation::Ldy => op_ldy(m1, mode),
        Operation::Lsr => op_lsr(m1, mode),
        Operation::Nop => (m1, 2),
        Operation::Ora => op_ora(m1, mode),
        Operation::Pha => op_pha(m1),
        Operation::Php => op_php(m1),
        Operation::Pla => op_pla(m1),
        Operation::Plp => op_plp(m1),
        Operation::Rol => op_rol(m1, mode),
        Operation::Ror => op_ror(m1, mode),
        Operation::Rti => op_rti(m1),
        Operation::Rts => op_rts(m1),
        Operation::Sbc => op_sbc(m1, mode),
        Operation::Sec => (CpuModel { sr: apply_flag(m1.sr, true, FLAG_CARRY), ..m1 }, 2),
        Operation::Sed => (CpuModel { sr: apply_flag(m1.sr, true, FLAG_DECIMAL), ..m1 }, 2),
        Operation::Sei => (CpuModel { sr: apply_flag(m1.sr, true, FLAG_INTERRUPT), ..m1 }, 2),
        Operation::Sta => op_sta(m1, mode),
        Operation::Stx => op_stx(m1, mode),
        Operation::Sty => op_sty(m1, mode),
        Operation::Tax => (CpuModel { x: m1.a, sr: flags_nz(m1.sr, m1.a), ..m1 }, 2),
        Operation::Tay => (CpuModel { y: m1.a, sr: flags_nz(m1.sr, m1.a), ..m1 }, 2),
        Operation::Tsx => (CpuModel { x: m1.sp, sr: flags_nz(m1.sr, m1.sp), ..m1 }, 2),
        Operation::Txa => (CpuModel { a: m1.x, sr: flags_nz(m1.sr, m1.x), ..m1 }, 2),
        Operation::Txs => (CpuModel { sp: m1.x, ..m1 }, 2),
        Operation::Tya => (CpuModel { a: m1.y, sr: flags_nz(m1.sr, m1.y), ..m1 }, 2),
        Operation::Inv => (m1, 0),
    }
}

/// The transition of one instruction: the state after the opcode byte at the
/// program counter has been fetched and executed, paired with the cycles it
/// consumed.  Undocumented opcodes leave the state untouched and consume
/// nothing; the engine reports them as an error instead.
pub open spec fn spec_exec(m: CpuModel) -> (CpuModel, u8) {
    let opcode = rd8(m, m.pc);
    let m1 = CpuModel { pc: m.pc.wrapping_add(1), ..m };
    if op_of(opcode) is Inv {
        (m, 0)
    } else {
        spec_dispatch(m1, op_of(opcode), mode_of(opcode))
    }
}

/// The cycles consumed by the instruction at the program counter.
pub open spec fn spec_step_cycles(m: CpuModel) -> u8 {
    spec_exec(m).1
}

/// The state after one full step: the instruction transition with its cycle
/// cost folded into the saturating 64-bit cycle counter.
pub open spec fn spec_step(m: CpuModel) -> CpuModel {
    let s = spec_exec(m).0;
    CpuModel { cycles: m.cycles.saturating_add(spec_step_cycles(m) as u64), ..s }
}

/// The Break and Unused bits are present in every status byte the processor
/// materialises: set in any pushed status image, and Unused set in any
/// status byte assembled by a pull.
proof fn lemma_break_unused_bits(s: u8)
    ensures
        flag_set(s | FLAG_BREAK | FLAG_UNUSED, FLAG_UNUSED),
        flag_set(s | FLAG_BREAK | FLAG_UNUSED, FLAG_BREAK),
        flag_set((s & !FLAG_BREAK) | FLAG_UNUSED, FLAG_UNUSED),
{
    assert((s | 0x10 | 0x20) & 0x20 != 0) by (bit_vector);
    assert((s | 0x10 | 0x20) & 0x10 != 0) by (bit_vector);
    assert(((s & !0x10) | 0x20) & 0x20 != 0) by (bit_vector);
}

/// After a PLP or RTI, the Unused bit of the status register reads as 1:
/// the pulled status image has it forced set.
pub proof fn lemma_unused_set_after_pull(m: CpuModel)
    requires
        m.wf(),
        op_of(rd8(m, m.pc)) is Plp || op_of(rd8(m, m.pc)) is Rti,
    ensures
        flag_set(spec_step(m).sr, FLAG_UNUSED),
{
    let m1 = CpuModel { pc: m.pc.wrapping_add(1), ..m };
    lemma_break_unused_bits(pull8(m1).1);
}

/// The status byte that PHP pushes has Break and Unused set.
pub proof fn lemma_php_pushes_break_unused(m: CpuModel)
    requires
        m.wf(),
        op_of(rd8(m, m.pc)) is Php,
    ensures
        flag_set(rd8(spec_step(m), stack_addr(m.sp)), FLAG_UNUSED),
        flag_set(rd8(spec_step(m), stack_addr(m.sp)), FLAG_BREAK),
{
    lemma_break_unused_bits(m.sr);
}

/// The status byte that BRK pushes, which lands two stack slots below the
/// incoming stack pointer, has Break and Unused set.
pub proof fn lemma_brk_pushes_break_unused(m: CpuModel)
    requires
        m.wf(),
        op_of(rd8(m, m.pc)) is Brk,
    ensures
        flag_set(rd8(spec_step(m), stack_addr(m.sp.wrapping_sub(2))), FLAG_UNUSED),
        flag_set(rd8(spec_step(m), stack_addr(m.sp.wrapping_sub(2))), FLAG_BREAK),
{
    lemma_break_unused_bits(m.sr);
    assert(stack_addr(m.sp.wrapping_sub(2)) != stack_addr(m.sp));
    assert(stack_addr(m.sp.wrapping_sub(2)) != stack_addr(m.sp.wrapping_sub(1)));
}

/// Every stack access stays inside page 1, whatever the 8-bit stack pointer
/// wrapped to.
pub proof fn lemma_stack_stays_in_page_one(sp: u8)
    ensures
        0x0100 <= stack_addr(sp) <= 0x01FF,
{
}

/// Each of the eight conditional branches decodes with the relative
/// addressing mode.
pub proof fn lemma_branch_mode_is_relative()
    ensures
        forall|b: u8| is_branch(op_of(b)) ==> mode_of(b) is Rel,
{
}

/// A branch that is not taken falls through: the program counter lands two
/// bytes past the opcode (wrapping at 16 bits), the size of the branch
/// instruction.
pub proof fn lemma_branch_not_taken_pc(m: CpuModel)
    requires
        m.wf(),
        is_branch(op_of(rd8(m, m.pc))),
        !branch_cond(op_of(rd8(m, m.pc)), m.sr),
    ensures
        spec_step(m).pc == m.pc.wrapping_add(2),
{
    lemma_branch_mode_is_relative();
}

/// The cycle counter never decreases across a step, and below the
/// saturation point of the 64-bit counter it advances by exactly the cycle
/// cost of the executed instruction.
pub proof fn lemma_cycles_monotonic(m: CpuModel)
    requires
        m.wf(),
    ensures
        spec_step(m).cycles >= m.cycles,
        m.cycles + spec_step_cycles(m) <= u64::MAX ==> spec_step(m).cycles == m.cycles
            + spec_step_cycles(m),
{
}

/// The register snapshot a state yields: every register, the status byte
/// and the cycle counter, without the memory image.
pub open spec fn snapshot_of(m: CpuModel) -> CpuState {
    CpuState { a: m.a, x: m.x, y: m.y, pc: m.pc, sp: m.sp, sr: m.sr, cycles: m.cycles }
}

/// A non-destructive decode of the instruction at an address: the operation
/// and mode from the decode table and the raw operand bytes after them.
pub open spec fn spec_instruction_at(m: CpuModel, pos: u16) -> Instruction {
    let d = spec_decode(rd8(m, pos));
    let size = spec_address_size(d.1);
    Instruction {
        operation: d.0,
        address_mode: d.1,
        value: if size == 2 {
            rd16(m, pos.wrapping_add(1))
        } else if size == 1 {
            rd8(m, pos.wrapping_add(1)) as u16
        } else {
            0
        },
        cycles: 0,
    }
}

} // verus!
