//! Checks of the decode table, the operand sizes and the cycle model.

use mos6502::cpu_helpers::AddressMode;
use mos6502::cpu_helpers::CycleType;
use mos6502::cpu_helpers::Operation;
use mos6502::cpu_helpers::branch_dest;
use mos6502::cpu_helpers::decode_opcode;

#[test]
fn decode_samples_match_the_documented_matrix() {
    assert_eq!(decode_opcode(0x00), (Operation::Brk, AddressMode::Imp));
    assert_eq!(decode_opcode(0xA9), (Operation::Lda, AddressMode::Imm));
    assert_eq!(decode_opcode(0x4C), (Operation::Jmp, AddressMode::Abs));
    assert_eq!(decode_opcode(0x6C), (Operation::Jmp, AddressMode::Ind));
    assert_eq!(decode_opcode(0x96), (Operation::Stx, AddressMode::Zpy));
    assert_eq!(decode_opcode(0xBE), (Operation::Ldx, AddressMode::Aby));
    assert_eq!(decode_opcode(0xD0), (Operation::Bne, AddressMode::Rel));
    assert_eq!(decode_opcode(0xEA), (Operation::Nop, AddressMode::Imp));
    assert_eq!(decode_opcode(0x02), (Operation::Inv, AddressMode::Inv));
    assert_eq!(decode_opcode(0xFF), (Operation::Inv, AddressMode::Inv));
}

#[test]
fn decoder_covers_every_byte_consistently() {
    let mut documented = 0;
    for b in 0u8..=255 {
        let (op, mode) = decode_opcode(b);
        // An undocumented operation comes exactly with the invalid mode.
        assert_eq!(op == Operation::Inv, mode == AddressMode::Inv);
        if op != Operation::Inv {
            documented += 1;
        }
    }
    assert_eq!(documented, 151);
}

#[test]
fn operand_sizes_match_the_mode_table() {
    assert_eq!(AddressMode::Acc.address_size(), 0);
    assert_eq!(AddressMode::Imp.address_size(), 0);
    assert_eq!(AddressMode::Inv.address_size(), 0);
    assert_eq!(AddressMode::Imm.address_size(), 1);
    assert_eq!(AddressMode::Inx.address_size(), 1);
    assert_eq!(AddressMode::Iny.address_size(), 1);
    assert_eq!(AddressMode::Rel.address_size(), 1);
    assert_eq!(AddressMode::Zpg.address_size(), 1);
    assert_eq!(AddressMode::Zpx.address_size(), 1);
    assert_eq!(AddressMode::Zpy.address_size(), 1);
    assert_eq!(AddressMode::Abs.address_size(), 2);
    assert_eq!(AddressMode::Abx.address_size(), 2);
    assert_eq!(AddressMode::Aby.address_size(), 2);
    assert_eq!(AddressMode::Ind.address_size(), 2);
}

#[test]
fn branch_dest_sign_extends_the_offset() {
    assert_eq!(branch_dest(0x1000, 0x05), 0x1005);
    assert_eq!(branch_dest(0x1000, 0x7F), 0x107F);
    assert_eq!(branch_dest(0x1000, 0xFF), 0x0FFF);
    assert_eq!(branch_dest(0x1000, 0x80), 0x0F80);
    assert_eq!(branch_dest(0x0000, 0xFE), 0xFFFE);
    assert_eq!(branch_dest(0xFFFE, 0x04), 0x0002);
}

#[test]
fn read_class_cycles_pay_for_page_crossing() {
    assert_eq!(CycleType::SetValue1.GetCycleCount(&AddressMode::Imm, 0, 0), 2);
    assert_eq!(CycleType::SetValue1.GetCycleCount(&AddressMode::Zpg, 0, 0), 3);
    assert_eq!(CycleType::SetValue1.GetCycleCount(&AddressMode::Zpx, 0, 0), 4);
    assert_eq!(CycleType::SetValue1.GetCycleCount(&AddressMode::Abs, 0, 0), 4);
    assert_eq!(CycleType::SetValue1.GetCycleCount(&AddressMode::Abx, 0x10F0, 0x0F), 4);
    assert_eq!(CycleType::SetValue1.GetCycleCount(&AddressMode::Abx, 0x10F0, 0x10), 5);
    assert_eq!(CycleType::SetValue1.GetCycleCount(&AddressMode::Aby, 0x10FF, 0x01), 5);
    assert_eq!(CycleType::SetValue1.GetCycleCount(&AddressMode::Inx, 0, 0), 6);
    assert_eq!(CycleType::SetValue1.GetCycleCount(&AddressMode::Iny, 0x00F0, 0x20), 6);
    assert_eq!(CycleType::SetValue1.GetCycleCount(&AddressMode::Iny, 0x00F0, 0x01), 5);
}

#[test]
fn read_modify_write_cycles_are_fixed_per_mode() {
    assert_eq!(CycleType::SetValue2.GetCycleCount(&AddressMode::Acc, 0, 0), 2);
    assert_eq!(CycleType::SetValue2.GetCycleCount(&AddressMode::Zpg, 0, 0), 5);
    assert_eq!(CycleType::SetValue2.GetCycleCount(&AddressMode::Zpx, 0, 0), 6);
    assert_eq!(CycleType::SetValue2.GetCycleCount(&AddressMode::Abs, 0, 0), 6);
    assert_eq!(CycleType::SetValue2.GetCycleCount(&AddressMode::Abx, 0xFFFF, 0xFF), 7);
}

#[test]
fn branch_jump_and_stack_cycles() {
    // Taken branch, no page crossing: 3; with crossing: 4.
    assert_eq!(CycleType::Branch.GetCycleCount(&AddressMode::Rel, 0x10FF, 0x05), 4);
    assert_eq!(CycleType::Branch.GetCycleCount(&AddressMode::Rel, 0x1080, 0x05), 3);
    assert_eq!(CycleType::Base.GetCycleCount(&AddressMode::Imp, 0, 0), 2);
    assert_eq!(CycleType::Jump.GetCycleCount(&AddressMode::Abs, 0, 0), 3);
    assert_eq!(CycleType::Jump.GetCycleCount(&AddressMode::Ind, 0, 0), 5);
    assert_eq!(CycleType::JumpSubroutine.GetCycleCount(&AddressMode::Abs, 0, 0), 6);
    assert_eq!(CycleType::Break.GetCycleCount(&AddressMode::Imp, 0, 0), 7);
    assert_eq!(CycleType::PushStack.GetCycleCount(&AddressMode::Imp, 0, 0), 3);
    assert_eq!(CycleType::PullStack.GetCycleCount(&AddressMode::Imp, 0, 0), 4);
    assert_eq!(CycleType::Return.GetCycleCount(&AddressMode::Imp, 0, 0), 6);
}

#[test]
fn store_accumulator_cycles_never_take_the_discount() {
    assert_eq!(CycleType::StoreAccumulator.GetCycleCount(&AddressMode::Zpg, 0, 0), 3);
    assert_eq!(CycleType::StoreAccumulator.GetCycleCount(&AddressMode::Zpx, 0, 0), 4);
    assert_eq!(CycleType::StoreAccumulator.GetCycleCount(&AddressMode::Abs, 0, 0), 4);
    assert_eq!(CycleType::StoreAccumulator.GetCycleCount(&AddressMode::Abx, 0x1000, 0), 5);
    assert_eq!(CycleType::StoreAccumulator.GetCycleCount(&AddressMode::Aby, 0x1000, 0), 5);
    assert_eq!(CycleType::StoreAccumulator.GetCycleCount(&AddressMode::Inx, 0, 0), 6);
    assert_eq!(CycleType::StoreAccumulator.GetCycleCount(&AddressMode::Iny, 0, 0), 6);
}
