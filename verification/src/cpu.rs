//! The 6502 execution engine: registers, the 64 KiB memory image, decoding,
//! addressing-mode evaluation and one verified handler per instruction.
//!
//! Every public operation is specified against the machine model in
//! [`crate::semantics`]; `execute_next_instruction` is proved to perform
//! exactly the transition `spec_step` describes.

use vstd::prelude::*;

verus! {

use crate::bcd::BcdOps;
use crate::cpu_helpers::AddressMode;
use crate::cpu_helpers::CpuState;
use crate::cpu_helpers::Instruction;
use crate::cpu_helpers::Operand;
use crate::cpu_helpers::Operation;
use crate::cpu_helpers::FLAG_BREAK;
use crate::cpu_helpers::FLAG_CARRY;
use crate::cpu_helpers::FLAG_DECIMAL;
use crate::cpu_helpers::FLAG_INTERRUPT;
use crate::cpu_helpers::FLAG_NEGATIVE;
use crate::cpu_helpers::FLAG_OVERFLOW;
use crate::cpu_helpers::FLAG_UNUSED;
use crate::cpu_helpers::FLAG_ZERO;
use crate::cpu_helpers::IRQ_VECTOR;
use crate::cpu_helpers::STACK_START;
use crate::cpu_helpers::branch_dest;
use crate::cpu_helpers::decode_opcode;
use crate::cpu_helpers::op_of;
use crate::semantics::CpuModel;
use crate::semantics::after_operand;
use crate::semantics::apply_flag;
use crate::semantics::eff_addr;
use crate::semantics::flag_set;
use crate::semantics::op_adc;
use crate::semantics::op_and;
use crate::semantics::op_asl;
use crate::semantics::op_bit;
use crate::semantics::op_branch;
use crate::semantics::op_brk;
use crate::semantics::op_compare;
use crate::semantics::op_dec;
use crate::semantics::op_eor;
use crate::semantics::op_inc;
use crate::semantics::op_jmp;
use crate::semantics::op_jsr;
use crate::semantics::op_lda;
use crate::semantics::op_ldx;
use crate::semantics::op_ldy;
use crate::semantics::op_lsr;
use crate::semantics::op_ora;
use crate::semantics::op_pha;
use crate::semantics::op_php;
use crate::semantics::op_pla;
use crate::semantics::op_plp;
use crate::semantics::op_rol;
use crate::semantics::op_ror;
use crate::semantics::op_rti;
use crate::semantics::op_rts;
use crate::semantics::op_sbc;
use crate::semantics::op_sta;
use crate::semantics::op_stx;
use crate::semantics::op_sty;
use crate::semantics::operand_extra_cycles;
use crate::semantics::operand_val;
use crate::semantics::pull8;
use crate::semantics::push8;
use crate::semantics::rd8;
use crate::semantics::rd16;
use crate::semantics::rd16_page;
use crate::semantics::rd16_zpg;
use crate::semantics::spec_dispatch;
use crate::semantics::spec_instruction_at;
use crate::semantics::spec_step;
use crate::semantics::spec_step_cycles;
use crate::semantics::branch_cond;
use crate::semantics::flags_nz;
use crate::semantics::wr8;
use crate::semantics::wr16;

/// The error raised when the byte at the program counter is not a documented
/// opcode.  It carries the offending byte and the address it was fetched
/// from; the engine leaves the processor state untouched.
#[derive(Clone, Copy, Debug, PartialEq, Eq, Structural)]
pub struct InvalidOpcode {
    pub opcode: u8,
    pub pc: u16,
}

/// The architectural state of the processor: the three 8-bit registers, the
/// program counter, the stack pointer, the status byte, a monotonic cycle
/// counter and the flat 64 KiB memory image.
pub struct Cpu {
    pub a: u8,
    pub x: u8,
    pub y: u8,
    pub pc: u16,
    pub sp: u8,
    pub sr: u8,
    pub cycles: u64,
    pub memory: Vec<u8>,
}

impl View for Cpu {
    type V = CpuModel;

    open spec fn view(&self) -> CpuModel {
        CpuModel {
            a: self.a,
            x: self.x,
            y: self.y,
            pc: self.pc,
            sp: self.sp,
            sr: self.sr,
            cycles: self.cycles,
            mem: self.memory@,
        }
    }
}

impl Cpu {
    /// The structural invariant: the memory image covers the full 16-bit
    /// address space.
    pub open spec fn wf(&self) -> bool {
        self@.wf()
    }

    /// A just-reset processor: registers cleared, stack pointer at the top
    /// of the stack page, Interrupt-disable, Break and Unused set in the
    /// status byte, memory zeroed, cycle counter at zero.
    pub fn new() -> (r: Cpu)
        ensures
            r.wf(),
            r@.a == 0 && r@.x == 0 && r@.y == 0,
            r@.pc == 0,
            r@.sp == 0xFF,
            r@.sr == 0b0011_0100,
            r@.cycles == 0,
            forall|i: int| 0 <= i < 0x10000 ==> r@.mem[i] == 0,
    {
        let mut memory: Vec<u8> = Vec::new();
        let mut i: usize = 0;
        while i < 0x10000
            invariant
                i <= 0x10000,
                memory@.len() == i,
                forall|j: int| 0 <= j < i ==> memory@[j] == 0,
            decreases 0x10000 - i,
        {
            memory.push(0);
            i = i + 1;
        }
        Cpu { a: 0, x: 0, y: 0, pc: 0, sp: 0xFF, sr: 0b0011_0100, cycles: 0, memory }
    }

    /// Stores one byte.  Addresses always denote a byte of the image.
    pub fn write_memory_u8(&mut self, ind: u16, val: u8)
        requires
            old(self).wf(),
        ensures
            final(self).wf(),
            final(self)@ == wr8(old(self)@, ind, val),
    {
        self.memory[ind as usize] = val;
    }

    /// Loads one byte.
    pub fn read_memory_u8(&self, ind: u16) -> (r: u8)
        requires
            self.wf(),
        ensures
            r == rd8(self@, ind),
    {
        self.memory[ind as usize]
    }

    /// Little-endian 16-bit store to `ind` and `ind + 1`, the second address
    /// wrapping at 16 bits.
    pub fn write_memory_u16(&mut self, ind: u16, val: u16)
        requires
            old(self).wf(),
        ensures
            final(self).wf(),
            final(self)@ == wr16(old(self)@, ind, val),
    {
        self.write_memory_u8(ind, (val % 256) as u8);
        self.write_memory_u8(ind.wrapping_add(1), (val / 256) as u8);
    }

    /// Little-endian 16-bit load from `ind` and `ind + 1`, the second
    /// address wrapping at 16 bits.
    pub fn read_memory_u16(&self, ind: u16) -> (r: u16)
        requires
            self.wf(),
        ensures
            r == rd16(self@, ind),
    {
        let lo = self.read_memory_u8(ind);
        let hi = self.read_memory_u8(ind.wrapping_add(1));
        lo as u16 + hi as u16 * 256
    }

    /// Little-endian 16-bit load whose second byte stays within the page of
    /// the pointer: the `JMP (indirect)` quirk of the 6502.
    fn read_memory_u16_page(&self, ptr: u16) -> (r: u16)
        requires
            self.wf(),
        ensures
            r == rd16_page(self@, ptr),
    {
        let lo = self.read_memory_u8(ptr);
        let hi_addr: u16 = ptr - ptr % 256 + (ptr % 256 + 1) % 256;
        let hi = self.read_memory_u8(hi_addr);
        lo as u16 + hi as u16 * 256
    }

    /// Little-endian 16-bit load of a pointer stored in the zero page; the
    /// second byte wraps within the zero page.
    fn read_memory_u16_zpg(&self, ptr: u8) -> (r: u16)
        requires
            self.wf(),
        ensures
            r == rd16_zpg(self@, ptr),
    {
        let lo = self.read_memory_u8(ptr as u16);
        let hi = self.read_memory_u8(ptr.wrapping_add(1) as u16);
        lo as u16 + hi as u16 * 256
    }

    /// Fills `memory[start .. start + data.len()]` with the given bytes.
    /// This is the bulk-load interface used to place a machine-code image.
    pub fn load_bytes(&mut self, start: u16, data: &[u8])
        requires
            old(self).wf(),
            start + data@.len() <= 0x10000,
        ensures
            final(self).wf(),
            final(self)@ == (CpuModel { mem: final(self)@.mem, ..old(self)@ }),
            forall|i: int|
                0 <= i < 0x10000 ==> final(self)@.mem[i] == (if start <= i < start + data@.len() {
                    data@[i - start]
                } else {
                    old(self)@.mem[i]
                }),
    {
        let mut i: usize = 0;
        let len = data.len();
        while i < len
            invariant
                self.wf(),
                i <= len,
                len == data@.len(),
                start + len <= 0x10000,
                self@ == (CpuModel { mem: self@.mem, ..old(self)@ }),
                forall|j: int|
                    0 <= j < 0x10000 ==> self@.mem[j] == (if start <= j < start + i {
                        data@[j - start]
                    } else {
                        old(self)@.mem[j]
                    }),
            decreases len - i,
        {
            self.memory[start as usize + i] = data[i];
            i = i + 1;
        }
    }

    /// Whether every bit named by `flag` is set in the status register.
    pub fn get_flag(&self, flag: u8) -> (r: bool)
        ensures
            r == flag_set(self@.sr, flag),
    {
        (self.sr & flag) != 0
    }

    /// Sets or clears every bit named by `flag` in the status register.
    pub fn set_flag(&mut self, value: bool, flag: u8)
        ensures
            final(self)@ == (CpuModel { sr: apply_flag(old(self)@.sr, value, flag), ..old(self)@ }),
    {
        if value {
            self.sr = self.sr | flag;
        } else {
            self.sr = self.sr & !flag;
        }
    }

    /// Copies the registers and the cycle counter.
    pub fn get_register_state(&self) -> (r: CpuState)
        ensures
            r == crate::semantics::snapshot_of(self@),
    {
        CpuState {
            a: self.a,
            x: self.x,
            y: self.y,
            pc: self.pc,
            sp: self.sp,
            sr: self.sr,
            cycles: self.cycles,
        }
    }

    /// Decodes the instruction at the program counter without executing it.
    pub fn get_next_instruction(&self) -> (r: Instruction)
        requires
            self.wf(),
        ensures
            r == spec_instruction_at(self@, self@.pc),
    {
        self.get_instruction_at(self.pc)
    }

    /// Decodes the instruction at an address without executing it: the
    /// operation and mode from the decode table, and the raw operand bytes
    /// that follow the opcode.
    pub fn get_instruction_at(&self, pos: u16) -> (r: Instruction)
        requires
            self.wf(),
        ensures
            r == spec_instruction_at(self@, pos),
    {
        let opcode = self.read_memory_u8(pos);
        let (op, mode) = decode_opcode(opcode);
        let size = mode.address_size();
        let value: u16 = if size == 2 {
            self.read_memory_u16(pos.wrapping_add(1))
        } else if size == 1 {
            self.read_memory_u8(pos.wrapping_add(1)) as u16
        } else {
            0
        };
        Instruction { operation: op, address_mode: mode, value, cycles: 0 }
    }

    /// Pushes one byte: stores at the stack address, then moves the stack
    /// pointer down, wrapping within the stack page.
    fn stack_push(&mut self, val: u8)
        requires
            old(self).wf(),
        ensures
            final(self).wf(),
            final(self)@ == push8(old(self)@, val),
    {
        let addr: u16 = STACK_START + self.sp as u16;
        self.write_memory_u8(addr, val);
        self.sp = self.sp.wrapping_sub(1);
    }

    /// Pulls one byte: moves the stack pointer up, wrapping within the stack
    /// page, then reads the byte at the new stack address.
    fn stack_pull(&mut self) -> (r: u8)
        requires
            old(self).wf(),
        ensures
            final(self).wf(),
            final(self)@ == pull8(old(self)@).0,
            r == pull8(old(self)@).1,
    {
        self.sp = self.sp.wrapping_add(1);
        self.read_memory_u8(STACK_START + self.sp as u16)
    }

    /// Evaluates an addressing mode: consumes the operand bytes, returns the
    /// effective address and the fetched byte, and adds to `cycles` what the
    /// operand costs an operand-reading instruction beyond its two-cycle
    /// base (including the page-crossing penalty of the indexed modes).
    fn get_operand(&mut self, cycles: &mut u8, mode: AddressMode) -> (op: Operand)
        requires
            old(self).wf(),
            *old(cycles) <= 100,
        ensures
            final(self).wf(),
            final(self)@ == after_operand(old(self)@, mode),
            op.address == eff_addr(old(self)@, mode),
            op.value == operand_val(old(self)@, mode) as u16,
            *final(cycles) == *old(cycles) + operand_extra_cycles(old(self)@, mode),
    {
        match mode {
            AddressMode::Acc => Operand { value: self.a as u16, address: 0 },
            AddressMode::Abs => {
                *cycles += 2;
                let address = self.read_memory_u16(self.pc);
                let value = self.read_memory_u8(address);
                self.pc = self.pc.wrapping_add(2);
                Operand { value: value as u16, address }
            },
            AddressMode::Abx => {
                let base = self.read_memory_u16(self.pc);
                if base % 256 + self.x as u16 > 255 {
                    *cycles += 3;
                } else {
                    *cycles += 2;
                }
                let address = base.wrapping_add(self.x as u16);
                let value = self.read_memory_u8(address);
                self.pc = self.pc.wrapping_add(2);
                Operand { value: value as u16, address }
            },
            AddressMode::Aby => {
                let base = self.read_memory_u16(self.pc);
                if base % 256 + self.y as u16 > 255 {
                    *cycles += 3;
                } else {
                    *cycles += 2;
                }
                let address = base.wrapping_add(self.y as u16);
                let value = self.read_memory_u8(address);
                self.pc = self.pc.wrapping_add(2);
                Operand { value: value as u16, address }
            },
            AddressMode::Imm => {
                let value = self.read_memory_u8(self.pc);
                self.pc = self.pc.wrapping_add(1);
                Operand { value: value as u16, address: 0 }
            },
            AddressMode::Imp => Operand { value: 0, address: 0 },
            AddressMode::Ind => {
                *cycles += 3;
                let indir = self.read_memory_u16(self.pc);
                let address = self.read_memory_u16_page(indir);
                let value = self.read_memory_u8(address);
                self.pc = self.pc.wrapping_add(2);
                Operand { value: value as u16, address }
            },
            AddressMode::Inx => {
                *cycles += 4;
                let indir = self.read_memory_u8(self.pc);
                let address = self.read_memory_u16_zpg(indir.wrapping_add(self.x));
                let value = self.read_memory_u8(address);
                self.pc = self.pc.wrapping_add(1);
                Operand { value: value as u16, address }
            },
            AddressMode::Iny => {
                let indir = self.read_memory_u8(self.pc);
                let base = self.read_memory_u16_zpg(indir);
                if base % 256 + self.y as u16 > 255 {
                    *cycles += 4;
                } else {
                    *cycles += 3;
                }
                let address = base.wrapping_add(self.y as u16);
                let value = self.read_memory_u8(address);
                self.pc = self.pc.wrapping_add(1);
                Operand { value: value as u16, address }
            },
            AddressMode::Rel => {
                let off = self.read_memory_u8(self.pc);
                self.pc = self.pc.wrapping_add(1);
                Operand { value: 0, address: branch_dest(self.pc, off) }
            },
            AddressMode::Zpg => {
                *cycles += 1;
                let address = self.read_memory_u8(self.pc) as u16;
                self.pc = self.pc.wrapping_add(1);
                Operand { value: self.read_memory_u8(address) as u16, address }
            },
            AddressMode::Zpx => {
                *cycles += 2;
                let address = self.read_memory_u8(self.pc).wrapping_add(self.x) as u16;
                self.pc = self.pc.wrapping_add(1);
                Operand { value: self.read_memory_u8(address) as u16, address }
            },
            AddressMode::Zpy => {
                *cycles += 2;
                let address = self.read_memory_u8(self.pc).wrapping_add(self.y) as u16;
                self.pc = self.pc.wrapping_add(1);
                Operand { value: self.read_memory_u8(address) as u16, address }
            },
            AddressMode::Inv => Operand { value: 0, address: 0 },
        }
    }
}

impl Cpu {
    /// Add the operand to the accumulator with carry; decimal mode uses
    /// packed-BCD addition.
    fn adc(&mut self, mode: AddressMode) -> (cycles: u8)
        requires
            old(self).wf(),
        ensures
            final(self).wf(),
            final(self)@ == op_adc(old(self)@, mode).0,
            cycles == op_adc(old(self)@, mode).1,
    {
        let mut cycles: u8 = 2;
        let operand_value = self.get_operand(&mut cycles, mode).value as u8;
        let carry = self.get_flag(FLAG_CARRY);
        let result: u8;
        let carried: bool;
        if self.get_flag(FLAG_DECIMAL) {
            let pair = self.a.overflowing_add_bcd(&operand_value, &carry);
            result = pair.0;
            carried = pair.1;
        } else {
            let sum: u16 = self.a as u16 + operand_value as u16 + (if carry {
                1
            } else {
                0
            });
            carried = sum > 0xFF;
            result = (sum % 256) as u8;
        }
        self.set_flag(carried, FLAG_CARRY);
        self.set_flag(result == 0, FLAG_ZERO);
        self.set_flag(result & 0x80 != 0, FLAG_NEGATIVE);
        self.set_flag(!(operand_value ^ self.a) & (result ^ self.a) & 0x80 != 0, FLAG_OVERFLOW);
        self.a = result;
        cycles
    }

    /// Subtract the operand from the accumulator with borrow; decimal mode
    /// uses packed-BCD subtraction.  Carry is set when no borrow happened.
    fn sbc(&mut self, mode: AddressMode) -> (cycles: u8)
        requires
            old(self).wf(),
        ensures
            final(self).wf(),
            final(self)@ == op_sbc(old(self)@, mode).0,
            cycles == op_sbc(old(self)@, mode).1,
    {
        let mut cycles: u8 = 2;
        let operand_value = self.get_operand(&mut cycles, mode).value as u8;
        let carry = self.get_flag(FLAG_CARRY);
        let result: u8;
        let borrowed: bool;
        if self.get_flag(FLAG_DECIMAL) {
            let pair = self.a.overflowing_sub_bcd(&operand_value, &carry);
            result = pair.0;
            borrowed = pair.1;
        } else {
            let diff: i32 = self.a as i32 - operand_value as i32 - (if carry {
                0
            } else {
                1
            });
            borrowed = diff < 0;
            result = (if diff < 0 {
                diff + 256
            } else {
                diff
            }) as u8;
        }
        self.set_flag(!borrowed, FLAG_CARRY);
        self.set_flag(result == 0, FLAG_ZERO);
        self.set_flag(result & 0x80 != 0, FLAG_NEGATIVE);
        self.set_flag((operand_value ^ self.a) & (result ^ self.a) & 0x80 != 0, FLAG_OVERFLOW);
        self.a = result;
        cycles
    }

    /// Bitwise AND of the operand into the accumulator.
    fn and(&mut self, mode: AddressMode) -> (cycles: u8)
        requires
            old(self).wf(),
        ensures
            final(self).wf(),
            final(self)@ == op_and(old(self)@, mode).0,
            cycles == op_and(old(self)@, mode).1,
    {
        let mut cycles: u8 = 2;
        let operand_value = self.get_operand(&mut cycles, mode).value as u8;
        let result = self.a & operand_value;
        self.a = result;
        self.set_flag(result & 0x80 != 0, FLAG_NEGATIVE);
        self.set_flag(result == 0, FLAG_ZERO);
        cycles
    }

    /// Bitwise OR of the operand into the accumulator.
    fn ora(&mut self, mode: AddressMode) -> (cycles: u8)
        requires
            old(self).wf(),
        ensures
            final(self).wf(),
            final(self)@ == op_ora(old(self)@, mode).0,
            cycles == op_ora(old(self)@, mode).1,
    {
        let mut cycles: u8 = 2;
        let operand_value = self.get_operand(&mut cycles, mode).value as u8;
        let result = self.a | operand_value;
        self.a = result;
        self.set_flag(result & 0x80 != 0, FLAG_NEGATIVE);
        self.set_flag(result == 0, FLAG_ZERO);
        cycles
    }

    /// Bitwise exclusive OR of the operand into the accumulator.
    fn eor(&mut self, mode: AddressMode) -> (cycles: u8)
        requires
            old(self).wf(),
        ensures
            final(self).wf(),
            final(self)@ == op_eor(old(self)@, mode).0,
            cycles == op_eor(old(self)@, mode).1,
    {
        let mut cycles: u8 = 2;
        let operand_value = self.get_operand(&mut cycles, mode).value as u8;
        let result = self.a ^ operand_value;
        self.a = result;
        self.set_flag(result & 0x80 != 0, FLAG_NEGATIVE);
        self.set_flag(result == 0, FLAG_ZERO);
        cycles
    }

    /// Arithmetic shift left of the accumulator or a memory byte.
    fn asl(&mut self, mode: AddressMode) -> (cycles: u8)
        requires
            old(self).wf(),
        ensures
            final(self).wf(),
            final(self)@ == op_asl(old(self)@, mode).0,
            cycles == op_asl(old(self)@, mode).1,
    {
        let mut discard: u8 = 0;
        let operand = self.get_operand(&mut discard, mode);
        let v = operand.value as u8;
        let result = v << 1;
        self.set_flag(v & 0x80 != 0, FLAG_CARRY);
        self.set_flag(result & 0x80 != 0, FLAG_NEGATIVE);
        self.set_flag(result == 0, FLAG_ZERO);
        if mode == AddressMode::Acc {
            self.a = result;
        } else {
            self.write_memory_u8(operand.address, result);
        }
        match mode {
            AddressMode::Acc => 2,
            AddressMode::Zpg => 5,
            AddressMode::Zpx => 6,
            AddressMode::Abs => 6,
            AddressMode::Abx => 7,
            _ => 0,
        }
    }

    /// Logical shift right; Negative always clears.
    fn lsr(&mut self, mode: AddressMode) -> (cycles: u8)
        requires
            old(self).wf(),
        ensures
            final(self).wf(),
            final(self)@ == op_lsr(old(self)@, mode).0,
            cycles == op_lsr(old(self)@, mode).1,
    {
        let mut discard: u8 = 0;
        let operand = self.get_operand(&mut discard, mode);
        let v = operand.value as u8;
        let result = v >> 1;
        self.set_flag(v & 0x01 != 0, FLAG_CARRY);
        self.set_flag(result == 0, FLAG_ZERO);
        self.set_flag(false, FLAG_NEGATIVE);
        if mode == AddressMode::Acc {
            self.a = result;
        } else {
            self.write_memory_u8(operand.address, result);
        }
        match mode {
            AddressMode::Acc => 2,
            AddressMode::Zpg => 5,
            AddressMode::Zpx => 6,
            AddressMode::Abs => 6,
            AddressMode::Abx => 7,
            _ => 0,
        }
    }

    /// Rotate left through Carry.
    fn rol(&mut self, mode: AddressMode) -> (cycles: u8)
        requires
            old(self).wf(),
        ensures
            final(self).wf(),
            final(self)@ == op_rol(old(self)@, mode).0,
            cycles == op_rol(old(self)@, mode).1,
    {
        let mut discard: u8 = 0;
        let operand = self.get_operand(&mut discard, mode);
        let v = operand.value as u8;
        let result = (v << 1) | (if self.get_flag(FLAG_CARRY) {
            1
        } else {
            0
        });
        self.set_flag(v & 0x80 != 0, FLAG_CARRY);
        self.set_flag(result & 0x80 != 0, FLAG_NEGATIVE);
        self.set_flag(result == 0, FLAG_ZERO);
        if mode == AddressMode::Acc {
            self.a = result;
        } else {
            self.write_memory_u8(operand.address, result);
        }
        match mode {
            AddressMode::Acc => 2,
            AddressMode::Zpg => 5,
            AddressMode::Zpx => 6,
            AddressMode::Abs => 6,
            AddressMode::Abx => 7,
            _ => 0,
        }
    }

    /// Rotate right through Carry.
    fn ror(&mut self, mode: AddressMode) -> (cycles: u8)
        requires
            old(self).wf(),
        ensures
            final(self).wf(),
            final(self)@ == op_ror(old(self)@, mode).0,
            cycles == op_ror(old(self)@, mode).1,
    {
        let mut discard: u8 = 0;
        let operand = self.get_operand(&mut discard, mode);
        let v = operand.value as u8;
        let result = (v >> 1) | (if self.get_flag(FLAG_CARRY) {
            0x80
        } else {
            0
        });
        self.set_flag(v & 0x01 != 0, FLAG_CARRY);
        self.set_flag(result & 0x80 != 0, FLAG_NEGATIVE);
        self.set_flag(result == 0, FLAG_ZERO);
        if mode == AddressMode::Acc {
            self.a = result;
        } else {
            self.write_memory_u8(operand.address, result);
        }
        match mode {
            AddressMode::Acc => 2,
            AddressMode::Zpg => 5,
            AddressMode::Zpx => 6,
            AddressMode::Abs => 6,
            AddressMode::Abx => 7,
            _ => 0,
        }
    }

    /// BIT: Zero from the masked accumulator, Negative and Overflow copied
    /// from bits 7 and 6 of the operand.
    fn bit(&mut self, mode: AddressMode) -> (cycles: u8)
        requires
            old(self).wf(),
        ensures
            final(self).wf(),
            final(self)@ == op_bit(old(self)@, mode).0,
            cycles == op_bit(old(self)@, mode).1,
    {
        let mut cycles: u8 = 2;
        let operand = self.get_operand(&mut cycles, mode);
        let v = operand.value as u8;
        self.set_flag(v & self.a == 0, FLAG_ZERO);
        self.set_flag(v & FLAG_NEGATIVE != 0, FLAG_NEGATIVE);
        self.set_flag(v & FLAG_OVERFLOW != 0, FLAG_OVERFLOW);
        cycles
    }

    /// The shared body of the eight conditional branches.
    fn branch_if(&mut self, mode: AddressMode, cond: bool) -> (cycles: u8)
        requires
            old(self).wf(),
        ensures
            final(self).wf(),
            final(self)@ == op_branch(old(self)@, mode, cond).0,
            cycles == op_branch(old(self)@, mode, cond).1,
    {
        if cond {
            let mut discard: u8 = 0;
            let operand = self.get_operand(&mut discard, mode);
            let crossed = operand.address / 256 != self.pc / 256;
            self.pc = operand.address;
            if crossed {
                4
            } else {
                3
            }
        } else {
            let size = mode.address_size();
            self.pc = self.pc.wrapping_add(size as u16);
            2
        }
    }

    /// Branch on Carry clear.
    fn bcc(&mut self, mode: AddressMode) -> (cycles: u8)
        requires
            old(self).wf(),
        ensures
            final(self).wf(),
            final(self)@ == op_branch(old(self)@, mode, branch_cond(Operation::Bcc, old(self)@.sr)).0,
            cycles == op_branch(old(self)@, mode, branch_cond(Operation::Bcc, old(self)@.sr)).1,
    {
        let cond = !self.get_flag(FLAG_CARRY);
        self.branch_if(mode, cond)
    }

    /// Branch on Carry set.
    fn bcs(&mut self, mode: AddressMode) -> (cycles: u8)
        requires
            old(self).wf(),
        ensures
            final(self).wf(),
            final(self)@ == op_branch(old(self)@, mode, branch_cond(Operation::Bcs, old(self)@.sr)).0,
            cycles == op_branch(old(self)@, mode, branch_cond(Operation::Bcs, old(self)@.sr)).1,
    {
        let cond = self.get_flag(FLAG_CARRY);
        self.branch_if(mode, cond)
    }

    /// Branch on Zero set.
    fn beq(&mut self, mode: AddressMode) -> (cycles: u8)
        requires
            old(self).wf(),
        ensures
            final(self).wf(),
            final(self)@ == op_branch(old(self)@, mode, branch_cond(Operation::Beq, old(self)@.sr)).0,
            cycles == op_branch(old(self)@, mode, branch_cond(Operation::Beq, old(self)@.sr)).1,
    {
        let cond = self.get_flag(FLAG_ZERO);
        self.branch_if(mode, cond)
    }

    /// Branch on Zero clear.
    fn bne(&mut self, mode: AddressMode) -> (cycles: u8)
        requires
            old(self).wf(),
        ensures
            final(self).wf(),
            final(self)@ == op_branch(old(self)@, mode, branch_cond(Operation::Bne, old(self)@.sr)).0,
            cycles == op_branch(old(self)@, mode, branch_cond(Operation::Bne, old(self)@.sr)).1,
    {
        let cond = !self.get_flag(FLAG_ZERO);
        self.branch_if(mode, cond)
    }

    /// Branch on Negative set.
    fn bmi(&mut self, mode: AddressMode) -> (cycles: u8)
        requires
            old(self).wf(),
        ensures
            final(self).wf(),
            final(self)@ == op_branch(old(self)@, mode, branch_cond(Operation::Bmi, old(self)@.sr)).0,
            cycles == op_branch(old(self)@, mode, branch_cond(Operation::Bmi, old(self)@.sr)).1,
    {
        let cond = self.get_flag(FLAG_NEGATIVE);
        self.branch_if(mode, cond)
    }

    /// Branch on Negative clear.
    fn bpl(&mut self, mode: AddressMode) -> (cycles: u8)
        requires
            old(self).wf(),
        ensures
            final(self).wf(),
            final(self)@ == op_branch(old(self)@, mode, branch_cond(Operation::Bpl, old(self)@.sr)).0,
            cycles == op_branch(old(self)@, mode, branch_cond(Operation::Bpl, old(self)@.sr)).1,
    {
        let cond = !self.get_flag(FLAG_NEGATIVE);
        self.branch_if(mode, cond)
    }

    /// Branch on Overflow clear.
    fn bvc(&mut self, mode: AddressMode) -> (cycles: u8)
        requires
            old(self).wf(),
        ensures
            final(self).wf(),
            final(self)@ == op_branch(old(self)@, mode, branch_cond(Operation::Bvc, old(self)@.sr)).0,
            cycles == op_branch(old(self)@, mode, branch_cond(Operation::Bvc, old(self)@.sr)).1,
    {
        let cond = !self.get_flag(FLAG_OVERFLOW);
        self.branch_if(mode, cond)
    }

    /// Branch on Overflow set.
    fn bvs(&mut self, mode: AddressMode) -> (cycles: u8)
        requires
            old(self).wf(),
        ensures
            final(self).wf(),
            final(self)@ == op_branch(old(self)@, mode, branch_cond(Operation::Bvs, old(self)@.sr)).0,
            cycles == op_branch(old(self)@, mode, branch_cond(Operation::Bvs, old(self)@.sr)).1,
    {
        let cond = self.get_flag(FLAG_OVERFLOW);
        self.branch_if(mode, cond)
    }

    /// BRK: pushes the return address and the status byte, sets
    /// Interrupt-disable and vectors through the IRQ pointer.
    fn brk(&mut self) -> (cycles: u8)
        requires
            old(self).wf(),
        ensures
            final(self).wf(),
            final(self)@ == op_brk(old(self)@).0,
            cycles == op_brk(old(self)@).1,
    {
        let ret = self.pc.wrapping_add(1);
        let pushed_sr = self.sr | FLAG_BREAK | FLAG_UNUSED;
        self.stack_push((ret / 256) as u8);
        self.stack_push((ret % 256) as u8);
        self.stack_push(pushed_sr);
        self.set_flag(true, FLAG_INTERRUPT);
        self.pc = self.read_memory_u16(IRQ_VECTOR);
        7
    }

    /// JSR: pushes the address of the last operand byte and jumps.
    fn jsr(&mut self, mode: AddressMode) -> (cycles: u8)
        requires
            old(self).wf(),
        ensures
            final(self).wf(),
            final(self)@ == op_jsr(old(self)@, mode).0,
            cycles == op_jsr(old(self)@, mode).1,
    {
        let mut discard: u8 = 0;
        let operand = self.get_operand(&mut discard, mode);
        let ret = self.pc.wrapping_sub(1);
        self.stack_push((ret / 256) as u8);
        self.stack_push((ret % 256) as u8);
        self.pc = operand.address;
        6
    }

    /// RTS: pulls the return address and resumes one byte past it.
    fn rts(&mut self) -> (cycles: u8)
        requires
            old(self).wf(),
        ensures
            final(self).wf(),
            final(self)@ == op_rts(old(self)@).0,
            cycles == op_rts(old(self)@).1,
    {
        let lo = self.stack_pull();
        let hi = self.stack_pull();
        self.pc = (lo as u16 + hi as u16 * 256).wrapping_add(1);
        6
    }

    /// RTI: pulls the status byte and then the interrupted program counter.
    fn rti(&mut self) -> (cycles: u8)
        requires
            old(self).wf(),
        ensures
            final(self).wf(),
            final(self)@ == op_rti(old(self)@).0,
            cycles == op_rti(old(self)@).1,
    {
        let pulled = self.stack_pull();
        self.sr = (pulled & !FLAG_BREAK) | FLAG_UNUSED;
        let lo = self.stack_pull();
        let hi = self.stack_pull();
        self.pc = lo as u16 + hi as u16 * 256;
        6
    }

    /// JMP, absolute or indirect.
    fn jmp(&mut self, mode: AddressMode) -> (cycles: u8)
        requires
            old(self).wf(),
        ensures
            final(self).wf(),
            final(self)@ == op_jmp(old(self)@, mode).0,
            cycles == op_jmp(old(self)@, mode).1,
    {
        let mut discard: u8 = 0;
        let operand = self.get_operand(&mut discard, mode);
        self.pc = operand.address;
        match mode {
            AddressMode::Abs => 3,
            AddressMode::Ind => 5,
            _ => 0,
        }
    }

    /// PHA: pushes the accumulator.
    fn pha(&mut self) -> (cycles: u8)
        requires
            old(self).wf(),
        ensures
            final(self).wf(),
            final(self)@ == op_pha(old(self)@).0,
            cycles == op_pha(old(self)@).1,
    {
        let a = self.a;
        self.stack_push(a);
        3
    }

    /// PHP: pushes the status byte with Break and Unused set.
    fn php(&mut self) -> (cycles: u8)
        requires
            old(self).wf(),
        ensures
            final(self).wf(),
            final(self)@ == op_php(old(self)@).0,
            cycles == op_php(old(self)@).1,
    {
        let pushed = self.sr | FLAG_BREAK | FLAG_UNUSED;
        self.stack_push(pushed);
        3
    }

    /// PLA: pulls into the accumulator and derives Negative and Zero.
    fn pla(&mut self) -> (cycles: u8)
        requires
            old(self).wf(),
        ensures
            final(self).wf(),
            final(self)@ == op_pla(old(self)@).0,
            cycles == op_pla(old(self)@).1,
    {
        let v = self.stack_pull();
        self.a = v;
        self.set_flag(v & 0x80 != 0, FLAG_NEGATIVE);
        self.set_flag(v == 0, FLAG_ZERO);
        4
    }

    /// PLP: pulls into the status byte, Break cleared and Unused forced set.
    fn plp(&mut self) -> (cycles: u8)
        requires
            old(self).wf(),
        ensures
            final(self).wf(),
            final(self)@ == op_plp(old(self)@).0,
            cycles == op_plp(old(self)@).1,
    {
        let v = self.stack_pull();
        self.sr = (v & !FLAG_BREAK) | FLAG_UNUSED;
        4
    }

    /// LDA: loads the accumulator.
    fn lda(&mut self, mode: AddressMode) -> (cycles: u8)
        requires
            old(self).wf(),
        ensures
            final(self).wf(),
            final(self)@ == op_lda(old(self)@, mode).0,
            cycles == op_lda(old(self)@, mode).1,
    {
        let mut cycles: u8 = 2;
        let v = self.get_operand(&mut cycles, mode).value as u8;
        self.a = v;
        self.set_flag(v & 0x80 != 0, FLAG_NEGATIVE);
        self.set_flag(v == 0, FLAG_ZERO);
        cycles
    }

    /// LDX: loads the X index register.
    fn ldx(&mut self, mode: AddressMode) -> (cycles: u8)
        requires
            old(self).wf(),
        ensures
            final(self).wf(),
            final(self)@ == op_ldx(old(self)@, mode).0,
            cycles == op_ldx(old(self)@, mode).1,
    {
        let mut cycles: u8 = 2;
        let v = self.get_operand(&mut cycles, mode).value as u8;
        self.x = v;
        self.set_flag(v & 0x80 != 0, FLAG_NEGATIVE);
        self.set_flag(v == 0, FLAG_ZERO);
        cycles
    }

    /// LDY: loads the Y index register.
    fn ldy(&mut self, mode: AddressMode) -> (cycles: u8)
        requires
            old(self).wf(),
        ensures
            final(self).wf(),
            final(self)@ == op_ldy(old(self)@, mode).0,
            cycles == op_ldy(old(self)@, mode).1,
    {
        let mut cycles: u8 = 2;
        let v = self.get_operand(&mut cycles, mode).value as u8;
        self.y = v;
        self.set_flag(v & 0x80 != 0, FLAG_NEGATIVE);
        self.set_flag(v == 0, FLAG_ZERO);
        cycles
    }

    /// STA: stores the accumulator; indexing always pays its penalty cycle.
    fn sta(&mut self, mode: AddressMode) -> (cycles: u8)
        requires
            old(self).wf(),
        ensures
            final(self).wf(),
            final(self)@ == op_sta(old(self)@, mode).0,
            cycles == op_sta(old(self)@, mode).1,
    {
        let mut discard: u8 = 0;
        let operand = self.get_operand(&mut discard, mode);
        let a = self.a;
        self.write_memory_u8(operand.address, a);
        match mode {
            AddressMode::Imm => 2,
            AddressMode::Zpg => 3,
            AddressMode::Zpx => 4,
            AddressMode::Abs => 4,
            AddressMode::Abx => 5,
            AddressMode::Aby => 5,
            AddressMode::Inx => 6,
            AddressMode::Iny => 6,
            _ => 0,
        }
    }

    /// STX: stores the X index register.
    fn stx(&mut self, mode: AddressMode) -> (cycles: u8)
        requires
            old(self).wf(),
        ensures
            final(self).wf(),
            final(self)@ == op_stx(old(self)@, mode).0,
            cycles == op_stx(old(self)@, mode).1,
    {
        let mut cycles: u8 = 2;
        let operand = self.get_operand(&mut cycles, mode);
        let x = self.x;
        self.write_memory_u8(operand.address, x);
        cycles
    }

    /// STY: stores the Y index register.
    fn sty(&mut self, mode: AddressMode) -> (cycles: u8)
        requires
            old(self).wf(),
        ensures
            final(self).wf(),
            final(self)@ == op_sty(old(self)@, mode).0,
            cycles == op_sty(old(self)@, mode).1,
    {
        let mut cycles: u8 = 2;
        let operand = self.get_operand(&mut cycles, mode);
        let y = self.y;
        self.write_memory_u8(operand.address, y);
        cycles
    }

    /// INC: increments a memory byte, wrapping at 8 bits.
    fn inc(&mut self, mode: AddressMode) -> (cycles: u8)
        requires
            old(self).wf(),
        ensures
            final(self).wf(),
            final(self)@ == op_inc(old(self)@, mode).0,
            cycles == op_inc(old(self)@, mode).1,
    {
        let mut discard: u8 = 0;
        let operand = self.get_operand(&mut discard, mode);
        let result = (operand.value as u8).wrapping_add(1);
        self.set_flag(result & 0x80 != 0, FLAG_NEGATIVE);
        self.set_flag(result == 0, FLAG_ZERO);
        self.write_memory_u8(operand.address, result);
        match mode {
            AddressMode::Acc => 2,
            AddressMode::Zpg => 5,
            AddressMode::Zpx => 6,
            AddressMode::Abs => 6,
            AddressMode::Abx => 7,
            _ => 0,
        }
    }

    /// DEC: decrements a memory byte, wrapping at 8 bits.
    fn dec(&mut self, mode: AddressMode) -> (cycles: u8)
        requires
            old(self).wf(),
        ensures
            final(self).wf(),
            final(self)@ == op_dec(old(self)@, mode).0,
            cycles == op_dec(old(self)@, mode).1,
    {
        let mut discard: u8 = 0;
        let operand = self.get_operand(&mut discard, mode);
        let result = (operand.value as u8).wrapping_sub(1);
        self.set_flag(result & 0x80 != 0, FLAG_NEGATIVE);
        self.set_flag(result == 0, FLAG_ZERO);
        self.write_memory_u8(operand.address, result);
        match mode {
            AddressMode::Acc => 2,
            AddressMode::Zpg => 5,
            AddressMode::Zpx => 6,
            AddressMode::Abs => 6,
            AddressMode::Abx => 7,
            _ => 0,
        }
    }

    /// CMP: compares the accumulator with the operand.
    fn cmp(&mut self, mode: AddressMode) -> (cycles: u8)
        requires
            old(self).wf(),
        ensures
            final(self).wf(),
            final(self)@ == op_compare(old(self)@, mode, old(self)@.a).0,
            cycles == op_compare(old(self)@, mode, old(self)@.a).1,
    {
        let mut cycles: u8 = 2;
        let comparer = self.a;
        let operand = self.get_operand(&mut cycles, mode);
        let v = operand.value as u8;
        let result = comparer.wrapping_sub(v);
        self.set_flag(result & 0x80 != 0, FLAG_NEGATIVE);
        self.set_flag(result == 0, FLAG_ZERO);
        self.set_flag(comparer >= v, FLAG_CARRY);
        cycles
    }

    /// CPX: compares the X index register with the operand.
    fn cpx(&mut self, mode: AddressMode) -> (cycles: u8)
        requires
            old(self).wf(),
        ensures
            final(self).wf(),
            final(self)@ == op_compare(old(self)@, mode, old(self)@.x).0,
            cycles == op_compare(old(self)@, mode, old(self)@.x).1,
    {
        let mut cycles: u8 = 2;
        let comparer = self.x;
        let operand = self.get_operand(&mut cycles, mode);
        let v = operand.value as u8;
        let result = comparer.wrapping_sub(v);
        self.set_flag(result & 0x80 != 0, FLAG_NEGATIVE);
        self.set_flag(result == 0, FLAG_ZERO);
        self.set_flag(comparer >= v, FLAG_CARRY);
        cycles
    }

    /// CPY: compares the Y index register with the operand.
    fn cpy(&mut self, mode: AddressMode) -> (cycles: u8)
        requires
            old(self).wf(),
        ensures
            final(self).wf(),
            final(self)@ == op_compare(old(self)@, mode, old(self)@.y).0,
            cycles == op_compare(old(self)@, mode, old(self)@.y).1,
    {
        let mut cycles: u8 = 2;
        let comparer = self.y;
        let operand = self.get_operand(&mut cycles, mode);
        let v = operand.value as u8;
        let result = comparer.wrapping_sub(v);
        self.set_flag(result & 0x80 != 0, FLAG_NEGATIVE);
        self.set_flag(result == 0, FLAG_ZERO);
        self.set_flag(comparer >= v, FLAG_CARRY);
        cycles
    }

    /// CLC: clears Carry.
    fn clc(&mut self) -> (cycles: u8)
        ensures
            final(self)@ == (CpuModel { sr: apply_flag(old(self)@.sr, false, FLAG_CARRY), ..old(self)@ }),
            cycles == 2,
    {
        self.set_flag(false, FLAG_CARRY);
        2
    }

    /// CLD: clears Decimal.
    fn cld(&mut self) -> (cycles: u8)
        ensures
            final(self)@ == (CpuModel { sr: apply_flag(old(self)@.sr, false, FLAG_DECIMAL), ..old(self)@ }),
            cycles == 2,
    {
        self.set_flag(false, FLAG_DECIMAL);
        2
    }

    /// CLI: clears Interrupt-disable.
    fn cli(&mut self) -> (cycles: u8)
        ensures
            final(self)@ == (CpuModel { sr: apply_flag(old(self)@.sr, false, FLAG_INTERRUPT), ..old(self)@ }),
            cycles == 2,
    {
        self.set_flag(false, FLAG_INTERRUPT);
        2
    }

    /// CLV: clears Overflow.
    fn clv(&mut self) -> (cycles: u8)
        ensures
            final(self)@ == (CpuModel { sr: apply_flag(old(self)@.sr, false, FLAG_OVERFLOW), ..old(self)@ }),
            cycles == 2,
    {
        self.set_flag(false, FLAG_OVERFLOW);
        2
    }

    /// SEC: sets Carry.
    fn sec(&mut self) -> (cycles: u8)
        ensures
            final(self)@ == (CpuModel { sr: apply_flag(old(self)@.sr, true, FLAG_CARRY), ..old(self)@ }),
            cycles == 2,
    {
        self.set_flag(true, FLAG_CARRY);
        2
    }

    /// SED: sets Decimal.
    fn sed(&mut self) -> (cycles: u8)
        ensures
            final(self)@ == (CpuModel { sr: apply_flag(old(self)@.sr, true, FLAG_DECIMAL), ..old(self)@ }),
            cycles == 2,
    {
        self.set_flag(true, FLAG_DECIMAL);
        2
    }

    /// SEI: sets Interrupt-disable.
    fn sei(&mut self) -> (cycles: u8)
        ensures
            final(self)@ == (CpuModel { sr: apply_flag(old(self)@.sr, true, FLAG_INTERRUPT), ..old(self)@ }),
            cycles == 2,
    {
        self.set_flag(true, FLAG_INTERRUPT);
        2
    }

    /// INX: increments the X index register, wrapping at 8 bits.
    fn inx(&mut self) -> (cycles: u8)
        ensures
            ({
                let r = old(self)@.x.wrapping_add(1);
                final(self)@ == (CpuModel { x: r, sr: flags_nz(old(self)@.sr, r), ..old(self)@ })
            }),
            cycles == 2,
    {
        self.x = self.x.wrapping_add(1);
        self.set_flag(self.x & 0x80 != 0, FLAG_NEGATIVE);
        self.set_flag(self.x == 0, FLAG_ZERO);
        2
    }

    /// INY: increments the Y index register, wrapping at 8 bits.
    fn iny(&mut self) -> (cycles: u8)
        ensures
            ({
                let r = old(self)@.y.wrapping_add(1);
                final(self)@ == (CpuModel { y: r, sr: flags_nz(old(self)@.sr, r), ..old(self)@ })
            }),
            cycles == 2,
    {
        self.y = self.y.wrapping_add(1);
        self.set_flag(self.y & 0x80 != 0, FLAG_NEGATIVE);
        self.set_flag(self.y == 0, FLAG_ZERO);
        2
    }

    /// DEX: decrements the X index register, wrapping at 8 bits.
    fn dex(&mut self) -> (cycles: u8)
        ensures
            ({
                let r = old(self)@.x.wrapping_sub(1);
                final(self)@ == (CpuModel { x: r, sr: flags_nz(old(self)@.sr, r), ..old(self)@ })
            }),
            cycles == 2,
    {
        self.x = self.x.wrapping_sub(1);
        self.set_flag(self.x & 0x80 != 0, FLAG_NEGATIVE);
        self.set_flag(self.x == 0, FLAG_ZERO);
        2
    }

    /// DEY: decrements the Y index register, wrapping at 8 bits.
    fn dey(&mut self) -> (cycles: u8)
        ensures
            ({
                let r = old(self)@.y.wrapping_sub(1);
                final(self)@ == (CpuModel { y: r, sr: flags_nz(old(self)@.sr, r), ..old(self)@ })
            }),
            cycles == 2,
    {
        self.y = self.y.wrapping_sub(1);
        self.set_flag(self.y & 0x80 != 0, FLAG_NEGATIVE);
        self.set_flag(self.y == 0, FLAG_ZERO);
        2
    }

    /// TAX: copies the accumulator into X.
    fn tax(&mut self) -> (cycles: u8)
        ensures
            final(self)@ == (CpuModel {
                x: old(self)@.a,
                sr: flags_nz(old(self)@.sr, old(self)@.a),
                ..old(self)@
            }),
            cycles == 2,
    {
        self.x = self.a;
        self.set_flag(self.x & 0x80 != 0, FLAG_NEGATIVE);
        self.set_flag(self.x == 0, FLAG_ZERO);
        2
    }

    /// TAY: copies the accumulator into Y.
    fn tay(&mut self) -> (cycles: u8)
        ensures
            final(self)@ == (CpuModel {
                y: old(self)@.a,
                sr: flags_nz(old(self)@.sr, old(self)@.a),
                ..old(self)@
            }),
            cycles == 2,
    {
        self.y = self.a;
        self.set_flag(self.y & 0x80 != 0, FLAG_NEGATIVE);
        self.set_flag(self.y == 0, FLAG_ZERO);
        2
    }

    /// TSX: copies the stack pointer into X.
    fn tsx(&mut self) -> (cycles: u8)
        ensures
            final(self)@ == (CpuModel {
                x: old(self)@.sp,
                sr: flags_nz(old(self)@.sr, old(self)@.sp),
                ..old(self)@
            }),
            cycles == 2,
    {
        self.x = self.sp;
        self.set_flag(self.x & 0x80 != 0, FLAG_NEGATIVE);
        self.set_flag(self.x == 0, FLAG_ZERO);
        2
    }

    /// TXA: copies X into the accumulator.
    fn txa(&mut self) -> (cycles: u8)
        ensures
            final(self)@ == (CpuModel {
                a: old(self)@.x,
                sr: flags_nz(old(self)@.sr, old(self)@.x),
                ..old(self)@
            }),
            cycles == 2,
    {
        self.a = self.x;
        self.set_flag(self.a & 0x80 != 0, FLAG_NEGATIVE);
        self.set_flag(self.a == 0, FLAG_ZERO);
        2
    }

    /// TXS: copies X into the stack pointer; no flags change.
    fn txs(&mut self) -> (cycles: u8)
        ensures
            final(self)@ == (CpuModel { sp: old(self)@.x, ..old(self)@ }),
            cycles == 2,
    {
        self.sp = self.x;
        2
    }

    /// TYA: copies Y into the accumulator.
    fn tya(&mut self) -> (cycles: u8)
        ensures
            final(self)@ == (CpuModel {
                a: old(self)@.y,
                sr: flags_nz(old(self)@.sr, old(self)@.y),
                ..old(self)@
            }),
            cycles == 2,
    {
        self.a = self.y;
        self.set_flag(self.a & 0x80 != 0, FLAG_NEGATIVE);
        self.set_flag(self.a == 0, FLAG_ZERO);
        2
    }

    /// NOP.
    fn nop(&mut self) -> (cycles: u8)
        ensures
            final(self)@ == old(self)@,
            cycles == 2,
    {
        2
    }

    /// Runs the handler of an arithmetic, logic or compare instruction.
    #[verifier::spinoff_prover]
    fn dispatch_alu(&mut self, op: Operation, mode: AddressMode) -> (cycles: u8)
        requires
            old(self).wf(),
            op is Adc || op is Sbc || op is And || op is Ora || op is Eor || op is Bit
                || op is Cmp || op is Cpx || op is Cpy,
        ensures
            final(self).wf(),
            final(self)@ == spec_dispatch(old(self)@, op, mode).0,
            cycles == spec_dispatch(old(self)@, op, mode).1,
    {
        match op {
            Operation::Adc => self.adc(mode),
            Operation::Sbc => self.sbc(mode),
            Operation::And => self.and(mode),
            Operation::Ora => self.ora(mode),
            Operation::Eor => self.eor(mode),
            Operation::Bit => self.bit(mode),
            Operation::Cmp => self.cmp(mode),
            Operation::Cpx => self.cpx(mode),
            Operation::Cpy => self.cpy(mode),
            _ => 0,
        }
    }

    /// Runs the handler of a shift, rotate or memory increment/decrement.
    #[verifier::spinoff_prover]
    fn dispatch_rmw(&mut self, op: Operation, mode: AddressMode) -> (cycles: u8)
        requires
            old(self).wf(),
            op is Asl || op is Lsr || op is Rol || op is Ror || op is Inc || op is Dec,
        ensures
            final(self).wf(),
            final(self)@ == spec_dispatch(old(self)@, op, mode).0,
            cycles == spec_dispatch(old(self)@, op, mode).1,
    {
        match op {
            Operation::Asl => self.asl(mode),
            Operation::Lsr => self.lsr(mode),
            Operation::Rol => self.rol(mode),
            Operation::Ror => self.ror(mode),
            Operation::Inc => self.inc(mode),
            Operation::Dec => self.dec(mode),
            _ => 0,
        }
    }

    /// Runs the handler of a conditional branch.
    #[verifier::spinoff_prover]
    fn dispatch_branch(&mut self, op: Operation, mode: AddressMode) -> (cycles: u8)
        requires
            old(self).wf(),
            op is Bcc || op is Bcs || op is Beq || op is Bne || op is Bmi || op is Bpl
                || op is Bvc || op is Bvs,
        ensures
            final(self).wf(),
            final(self)@ == spec_dispatch(old(self)@, op, mode).0,
            cycles == spec_dispatch(old(self)@, op, mode).1,
    {
        match op {
            Operation::Bcc => self.bcc(mode),
            Operation::Bcs => self.bcs(mode),
            Operation::Beq => self.beq(mode),
            Operation::Bne => self.bne(mode),
            Operation::Bmi => self.bmi(mode),
            Operation::Bpl => self.bpl(mode),
            Operation::Bvc => self.bvc(mode),
            Operation::Bvs => self.bvs(mode),
            _ => 0,
        }
    }

    /// Runs the handler of a jump, subroutine, interrupt or stack
    /// instruction.
    #[verifier::spinoff_prover]
    fn dispatch_control(&mut self, op: Operation, mode: AddressMode) -> (cycles: u8)
        requires
            old(self).wf(),
            op is Brk || op is Jmp || op is Jsr || op is Rts || op is Rti || op is Pha
                || op is Php || op is Pla || op is Plp,
        ensures
            final(self).wf(),
            final(self)@ == spec_dispatch(old(self)@, op, mode).0,
            cycles == spec_dispatch(old(self)@, op, mode).1,
    {
        match op {
            Operation::Brk => self.brk(),
            Operation::Jmp => self.jmp(mode),
            Operation::Jsr => self.jsr(mode),
            Operation::Rts => self.rts(),
            Operation::Rti => self.rti(),
            Operation::Pha => self.pha(),
            Operation::Php => self.php(),
            Operation::Pla => self.pla(),
            Operation::Plp => self.plp(),
            _ => 0,
        }
    }

    /// Runs the handler of a load or store.
    #[verifier::spinoff_prover]
    fn dispatch_memory(&mut self, op: Operation, mode: AddressMode) -> (cycles: u8)
        requires
            old(self).wf(),
            op is Lda || op is Ldx || op is Ldy || op is Sta || op is Stx || op is Sty,
        ensures
            final(self).wf(),
            final(self)@ == spec_dispatch(old(self)@, op, mode).0,
            cycles == spec_dispatch(old(self)@, op, mode).1,
    {
        match op {
            Operation::Lda => self.lda(mode),
            Operation::Ldx => self.ldx(mode),
            Operation::Ldy => self.ldy(mode),
            Operation::Sta => self.sta(mode),
            Operation::Stx => self.stx(mode),
            Operation::Sty => self.sty(mode),
            _ => 0,
        }
    }

    /// Runs the handler of a register transfer, register step or NOP.
    #[verifier::spinoff_prover]
    fn dispatch_register(&mut self, op: Operation, mode: AddressMode) -> (cycles: u8)
        requires
            old(self).wf(),
            op is Tax || op is Tay || op is Tsx || op is Txa || op is Txs || op is Tya
                || op is Inx || op is Iny || op is Dex || op is Dey || op is Nop,
        ensures
            final(self).wf(),
            final(self)@ == spec_dispatch(old(self)@, op, mode).0,
            cycles == spec_dispatch(old(self)@, op, mode).1,
    {
        match op {
            Operation::Tax => self.tax(),
            Operation::Tay => self.tay(),
            Operation::Tsx => self.tsx(),
            Operation::Txa => self.txa(),
            Operation::Txs => self.txs(),
            Operation::Tya => self.tya(),
            Operation::Inx => self.inx(),
            Operation::Iny => self.iny(),
            Operation::Dex => self.dex(),
            Operation::Dey => self.dey(),
            Operation::Nop => self.nop(),
            _ => 0,
        }
    }

    /// Runs the handler of a flag set or clear instruction.
    #[verifier::spinoff_prover]
    fn dispatch_status(&mut self, op: Operation, mode: AddressMode) -> (cycles: u8)
        requires
            old(self).wf(),
            op is Clc || op is Cld || op is Cli || op is Clv || op is Sec || op is Sed
                || op is Sei,
        ensures
            final(self).wf(),
            final(self)@ == spec_dispatch(old(self)@, op, mode).0,
            cycles == spec_dispatch(old(self)@, op, mode).1,
    {
        match op {
            Operation::Clc => self.clc(),
            Operation::Cld => self.cld(),
            Operation::Cli => self.cli(),
            Operation::Clv => self.clv(),
            Operation::Sec => self.sec(),
            Operation::Sed => self.sed(),
            Operation::Sei => self.sei(),
            _ => 0,
        }
    }

    /// Runs the handler of one decoded instruction, with the program
    /// counter already past the opcode byte.
    #[verifier::spinoff_prover]
    fn dispatch_instruction(&mut self, op: Operation, mode: AddressMode) -> (cycles: u8)
        requires
            old(self).wf(),
        ensures
            final(self).wf(),
            final(self)@ == spec_dispatch(old(self)@, op, mode).0,
            cycles == spec_dispatch(old(self)@, op, mode).1,
    {
        match op {
            Operation::Adc | Operation::Sbc | Operation::And | Operation::Ora | Operation::Eor
                | Operation::Bit | Operation::Cmp | Operation::Cpx | Operation::Cpy => self
                .dispatch_alu(op, mode),
            Operation::Asl | Operation::Lsr | Operation::Rol | Operation::Ror | Operation::Inc
                | Operation::Dec => self.dispatch_rmw(op, mode),
            Operation::Bcc | Operation::Bcs | Operation::Beq | Operation::Bne | Operation::Bmi
                | Operation::Bpl | Operation::Bvc | Operation::Bvs => self.dispatch_branch(
                op,
                mode,
            ),
            Operation::Brk | Operation::Jmp | Operation::Jsr | Operation::Rts | Operation::Rti
                | Operation::Pha | Operation::Php | Operation::Pla | Operation::Plp => self
                .dispatch_control(op, mode),
            Operation::Lda | Operation::Ldx | Operation::Ldy | Operation::Sta | Operation::Stx
                | Operation::Sty => self.dispatch_memory(op, mode),
            Operation::Tax | Operation::Tay | Operation::Tsx | Operation::Txa | Operation::Txs
                | Operation::Tya | Operation::Inx | Operation::Iny | Operation::Dex
                | Operation::Dey | Operation::Nop => self.dispatch_register(op, mode),
            Operation::Clc | Operation::Cld | Operation::Cli | Operation::Clv | Operation::Sec
                | Operation::Sed | Operation::Sei => self.dispatch_status(op, mode),
            Operation::Inv => 0,
        }
    }

    /// Executes the instruction at the program counter: fetches the opcode,
    /// dispatches to its handler, folds the cycle cost into the counter and
    /// returns it.  An undocumented opcode leaves the processor untouched
    /// and is reported with the byte and the address it was fetched from.
    pub fn execute_next_instruction(&mut self) -> (r: Result<u8, InvalidOpcode>)
        requires
            old(self).wf(),
        ensures
            final(self).wf(),
            ({
                let opcode = rd8(old(self)@, old(self)@.pc);
                if op_of(opcode) is Inv {
                    r matches Err(e) && e.opcode == opcode && e.pc == old(self)@.pc && final(self)@
                        == old(self)@
                } else {
                    r matches Ok(c) && final(self)@ == spec_step(old(self)@) && c
                        == spec_step_cycles(old(self)@)
                }
            }),
    {
        let opcode = self.read_memory_u8(self.pc);
        let (op, mode) = decode_opcode(opcode);
        if op == Operation::Inv {
            return Err(InvalidOpcode { opcode, pc: self.pc });
        }
        self.pc = self.pc.wrapping_add(1);
        let cycles = self.dispatch_instruction(op, mode);
        self.cycles = self.cycles.saturating_add(cycles as u64);
        Ok(cycles)
    }
}

} // verus!
