use gba_emu::cpu::{CPUMode, ConditionFlags, CPU};
use gba_emu::error::EmuError;
use gba_emu::instructions::thumb::{
    add_offset_to_stack_pointer, add_subtract, alu_operations, conditional_branch, decode_thumb,
    hi_register_operations_be, load_address, load_store_halfword, load_store_immediate_offset,
    load_store_register_offset, load_store_sign_extended, long_branch_with_link,
    move_compare_add_subtract_immediate, move_shifted_register, multiple_load_store,
    pc_relative_load, placeholder_thumb, process_instruction_thumb, push_pop_registers,
    sp_relative_load_store, thumb_entry, unconditional_branch, ThumbClass,
};
use gba_emu::memory::{BYTE, HALFWORD, WORD};

fn flags(cpu: &CPU) -> (bool, bool, bool, bool) {
    (
        cpu.get_condition_flag(ConditionFlags::N),
        cpu.get_condition_flag(ConditionFlags::Z),
        cpu.get_condition_flag(ConditionFlags::C),
        cpu.get_condition_flag(ConditionFlags::V),
    )
}

fn at(pc: u32) -> CPU {
    let mut cpu = CPU::new();
    cpu.set_state(true);
    cpu.register_write_custom(15, pc, CPUMode::User);
    cpu.set_branched(false);
    cpu
}

#[test]
fn thumb_decoder_tells_the_classes_apart() {
    let cases = [
        (0x0088u32, ThumbClass::MoveShiftedRegister),
        (0x0800, ThumbClass::MoveShiftedRegister),
        (0x1000, ThumbClass::MoveShiftedRegister),
        (0x1888, ThumbClass::AddSubtract),
        (0x1EC8, ThumbClass::AddSubtract),
        (0x2105, ThumbClass::MoveCompareAddSubtractImmediate),
        (0x3901, ThumbClass::MoveCompareAddSubtractImmediate),
        (0x4008, ThumbClass::AluOperations),
        (0x43C8, ThumbClass::AluOperations),
        (0x4488, ThumbClass::HiRegisterOperations),
        (0x4708, ThumbClass::HiRegisterOperations),
        (0x4801, ThumbClass::PcRelativeLoad),
        (0x5088, ThumbClass::LoadStoreRegisterOffset),
        (0x5C88, ThumbClass::LoadStoreRegisterOffset),
        (0x5288, ThumbClass::LoadStoreSignExtended),
        (0x5E88, ThumbClass::LoadStoreSignExtended),
        (0x6048, ThumbClass::LoadStoreImmediateOffset),
        (0x7848, ThumbClass::LoadStoreImmediateOffset),
        (0x8048, ThumbClass::LoadStoreHalfword),
        (0x8848, ThumbClass::LoadStoreHalfword),
        (0x9001, ThumbClass::SpRelativeLoadStore),
        (0xA001, ThumbClass::LoadAddress),
        (0xA801, ThumbClass::LoadAddress),
        (0xB002, ThumbClass::AddOffsetToStackPointer),
        (0xB082, ThumbClass::AddOffsetToStackPointer),
        (0xB503, ThumbClass::PushPopRegisters),
        (0xBD03, ThumbClass::PushPopRegisters),
        (0xC006, ThumbClass::MultipleLoadStore),
        (0xC806, ThumbClass::MultipleLoadStore),
        (0xD002, ThumbClass::ConditionalBranch),
        (0xDE00, ThumbClass::ConditionalBranch),
        (0xDF00, ThumbClass::SoftwareInterrupt),
        (0xDFFF, ThumbClass::SoftwareInterrupt),
        (0xE002, ThumbClass::UnconditionalBranch),
        (0xF000, ThumbClass::LongBranchWithLink),
        (0xF800, ThumbClass::LongBranchWithLink),
    ];
    for (instruction, class) in cases {
        assert_eq!(decode_thumb(instruction), Some(class), "{instruction:#06x}");
    }
    for i in 0..19 {
        let (pattern, mask, class) = thumb_entry(i);
        assert_eq!(pattern & mask, pattern);
        assert_eq!(decode_thumb(pattern), Some(class));
    }
}

#[test]
fn thumb_encodings_outside_every_class_are_unknown() {
    for instruction in [0xB100u32, 0xB200, 0xB300, 0xB600, 0xB700, 0xB800, 0xBF00, 0xE800, 0xEFFF] {
        assert_eq!(decode_thumb(instruction), None, "{instruction:#06x}");
        let mut cpu = at(0);
        assert_eq!(
            process_instruction_thumb(&mut cpu, instruction),
            Err(EmuError::UnknownInstruction)
        );
    }
    let mut cpu = at(0);
    assert_eq!(placeholder_thumb(&mut cpu, 0), Err(EmuError::Unimplemented));
}

#[test]
fn shifts_by_immediate() {
    let mut cpu = at(0);
    cpu.write_logical(1, 0x8000_0001);
    // LSL r0, r1, #2
    move_shifted_register(&mut cpu, 0x0088);
    assert_eq!(cpu.read_logical(0), 4);
    assert_eq!(flags(&cpu), (false, false, false, false));
    // LSL r0, r1, #1 : carry out
    move_shifted_register(&mut cpu, 0x0048);
    assert_eq!(cpu.read_logical(0), 2);
    assert_eq!(flags(&cpu), (false, false, true, false));
    // LSR r0, r1, #1
    move_shifted_register(&mut cpu, 0x0848);
    assert_eq!(cpu.read_logical(0), 0x4000_0000);
    assert_eq!(flags(&cpu), (false, false, true, false));
    // LSR r0, r1, #32 (encoded as 0)
    move_shifted_register(&mut cpu, 0x0808);
    assert_eq!(cpu.read_logical(0), 0);
    assert_eq!(flags(&cpu), (false, true, true, false));
    // ASR r0, r1, #4
    move_shifted_register(&mut cpu, 0x1108);
    assert_eq!(cpu.read_logical(0), 0xF800_0000);
    assert_eq!(flags(&cpu), (true, false, false, false));
    // LSL r0, r1, #0 keeps the carry
    cpu.set_condition_flag(ConditionFlags::C, true);
    cpu.set_condition_flag(ConditionFlags::V, true);
    move_shifted_register(&mut cpu, 0x0008);
    assert_eq!(cpu.read_logical(0), 0x8000_0001);
    assert_eq!(flags(&cpu), (true, false, true, true));
}

#[test]
fn add_and_subtract_set_all_flags() {
    let mut cpu = at(0);
    cpu.write_logical(1, 0x7FFF_FFFF);
    cpu.write_logical(2, 1);
    // ADD r0, r1, r2
    add_subtract(&mut cpu, 0x1888);
    assert_eq!(cpu.read_logical(0), 0x8000_0000);
    assert_eq!(flags(&cpu), (true, false, false, true));
    // SUB r0, r1, #3
    add_subtract(&mut cpu, 0x1EC8);
    assert_eq!(cpu.read_logical(0), 0x7FFF_FFFC);
    assert_eq!(flags(&cpu), (false, false, true, false));
    // SUB r0, r2, r1
    add_subtract(&mut cpu, 0x1A50);
    assert_eq!(cpu.read_logical(0), 0x8000_0002);
    assert_eq!(flags(&cpu), (true, false, false, false));
    // ADD r0, r2, #7
    add_subtract(&mut cpu, 0x1DD0);
    assert_eq!(cpu.read_logical(0), 8);
}

#[test]
fn immediate_operations() {
    let mut cpu = at(0);
    cpu.set_condition_flag(ConditionFlags::C, true);
    cpu.set_condition_flag(ConditionFlags::V, true);
    // MOV r1, #5 : N and Z only
    move_compare_add_subtract_immediate(&mut cpu, 0x2105);
    assert_eq!(cpu.read_logical(1), 5);
    assert_eq!(flags(&cpu), (false, false, true, true));
    // MOV r1, #0
    move_compare_add_subtract_immediate(&mut cpu, 0x2100);
    assert_eq!(flags(&cpu), (false, true, true, true));
    // CMP r1, #5 writes nothing
    move_compare_add_subtract_immediate(&mut cpu, 0x2905);
    assert_eq!(cpu.read_logical(1), 0);
    assert_eq!(flags(&cpu), (true, false, false, false));
    // ADD r1, #255 ; SUB r1, #1
    move_compare_add_subtract_immediate(&mut cpu, 0x31FF);
    assert_eq!(cpu.read_logical(1), 255);
    move_compare_add_subtract_immediate(&mut cpu, 0x3901);
    assert_eq!(cpu.read_logical(1), 254);
    assert_eq!(flags(&cpu), (false, false, true, false));
}

#[test]
fn register_operations() {
    let a = 0xF0F0_00F3u32;
    let b = 0x0000_0004u32;
    // (opcode, result in rd or None for a test)
    let cases: [(u32, Option<u32>); 16] = [
        (0, Some(a & b)),
        (1, Some(a ^ b)),
        (2, Some(a << 4)),
        (3, Some(a >> 4)),
        (4, Some(((a as i32) >> 4) as u32)),
        (5, Some(a.wrapping_add(b).wrapping_add(1))),
        (6, Some(a.wrapping_sub(b))),
        (7, Some(a.rotate_right(4))),
        (8, None),
        (9, Some(0u32.wrapping_sub(b))),
        (10, None),
        (11, None),
        (12, Some(a | b)),
        (13, Some(a.wrapping_mul(b))),
        (14, Some(a & !b)),
        (15, Some(!b)),
    ];
    for (opcode, expected) in cases {
        let mut cpu = at(0);
        cpu.set_condition_flag(ConditionFlags::C, true);
        cpu.write_logical(0, a);
        cpu.write_logical(1, b);
        alu_operations(&mut cpu, 0x4000 | (opcode << 6) | (1 << 3));
        assert_eq!(cpu.read_logical(0), expected.unwrap_or(a), "opcode {opcode}");
        assert_eq!(cpu.read_logical(1), b);
    }
}

#[test]
fn register_operation_flags() {
    let mut cpu = at(0);
    cpu.write_logical(0, 3);
    cpu.write_logical(1, 3);
    // CMP r0, r1
    alu_operations(&mut cpu, 0x4288);
    assert_eq!(flags(&cpu), (false, true, true, false));
    // NEG r0, r1
    alu_operations(&mut cpu, 0x4248);
    assert_eq!(cpu.read_logical(0), 0xFFFF_FFFD);
    assert_eq!(flags(&cpu), (true, false, false, false));
    // MUL r0, r1 : N and Z from the product
    cpu.set_condition_flag(ConditionFlags::V, true);
    alu_operations(&mut cpu, 0x4348);
    assert_eq!(cpu.read_logical(0), 0xFFFF_FFF7);
    assert_eq!(flags(&cpu), (true, false, false, true));
    // LSR r0, r1 : carry is the last bit out
    alu_operations(&mut cpu, 0x40C8);
    assert_eq!(cpu.read_logical(0), 0x1FFF_FFFE);
    assert_eq!(flags(&cpu), (false, false, true, true));
    // TST r0, r1
    cpu.write_logical(1, 1);
    alu_operations(&mut cpu, 0x4208);
    assert_eq!(flags(&cpu), (false, true, true, true));
    assert_eq!(cpu.read_logical(0), 0x1FFF_FFFE);
}

#[test]
fn high_register_operations() {
    let mut cpu = at(0x0300_0000);
    cpu.write_logical(1, 5);
    cpu.write_logical(8, 10);
    cpu.write_logical(9, 10);
    cpu.write_cpsr(0xF000_0030).unwrap();
    // ADD r8, r1 sets no flags
    hi_register_operations_be(&mut cpu, 0x4488);
    assert_eq!(cpu.read_logical(8), 15);
    assert_eq!(cpu.read_cpsr(), 0xF000_0030);
    // MOV r0, r8
    hi_register_operations_be(&mut cpu, 0x4640);
    assert_eq!(cpu.read_logical(0), 15);
    assert_eq!(cpu.read_cpsr(), 0xF000_0030);
    // CMP r9, r8 : 10 - 15
    hi_register_operations_be(&mut cpu, 0x45C1);
    assert_eq!(flags(&cpu), (true, false, false, false));
    assert_eq!(cpu.read_logical(9), 10);
    // MOV r10, pc : the program counter reads four ahead
    hi_register_operations_be(&mut cpu, 0x46FA);
    assert_eq!(cpu.read_logical(10), 0x0300_0004);
    assert!(!cpu.branched());
    // BX r1 with r1 even: back to 32-bit code
    cpu.write_logical(1, 0x0200_0040);
    hi_register_operations_be(&mut cpu, 0x4708);
    assert_eq!(cpu.pc(), 0x0200_0040);
    assert!(!cpu.get_state());
    assert!(cpu.branched());
    // BX r8 with bit 0 set: 16-bit code
    cpu.write_logical(8, 0x0200_0081);
    hi_register_operations_be(&mut cpu, 0x4740);
    assert_eq!(cpu.pc(), 0x0200_0080);
    assert!(cpu.get_state());
}

#[test]
fn pc_relative_load_and_load_address() {
    let mut cpu = at(0x0200_0002);
    cpu.memory_write(0x0200_0008, WORD, 0x1357_9BDF).unwrap();
    // LDR r0, [pc, #4] : base is (0x02000002 + 4) with bit 1 cleared
    assert_eq!(pc_relative_load(&mut cpu, 0x4801), Ok(()));
    assert_eq!(cpu.read_logical(0), 0x1357_9BDF);
    // ADD r1, pc, #8
    load_address(&mut cpu, 0xA102);
    assert_eq!(cpu.read_logical(1), 0x0200_000C);
    // ADD r2, sp, #1020
    cpu.write_logical(13, 0x0300_0000);
    load_address(&mut cpu, 0xAAFF);
    assert_eq!(cpu.read_logical(2), 0x0300_03FC);
    assert_eq!(cpu.read_cpsr(), 0x30);
    let mut cpu = at(0x1000_0000);
    assert_eq!(pc_relative_load(&mut cpu, 0x4801), Err(EmuError::UnmappedAccess));
}

#[test]
fn loads_and_stores_with_register_offset() {
    let mut cpu = at(0);
    cpu.write_logical(0, 0x8899_AABB);
    cpu.write_logical(1, 0x0200_0100);
    cpu.write_logical(2, 8);
    // STR r0, [r1, r2]
    assert_eq!(load_store_register_offset(&mut cpu, 0x5088), Ok(()));
    assert_eq!(cpu.memory_read(0x0200_0108, WORD), Ok(0x8899_AABB));
    // LDRB r3, [r1, r2] ; LDR r4, [r1, r2]
    assert_eq!(load_store_register_offset(&mut cpu, 0x5C8B), Ok(()));
    assert_eq!(cpu.read_logical(3), 0xBB);
    assert_eq!(load_store_register_offset(&mut cpu, 0x588C), Ok(()));
    assert_eq!(cpu.read_logical(4), 0x8899_AABB);
    // STRB r0, [r1, r2] with another offset
    cpu.write_logical(2, 0x10);
    assert_eq!(load_store_register_offset(&mut cpu, 0x5488), Ok(()));
    assert_eq!(cpu.memory_read(0x0200_0110, WORD), Ok(0xBB));
    // LDSB, LDRH, LDSH, STRH
    cpu.write_logical(2, 8);
    assert_eq!(load_store_sign_extended(&mut cpu, 0x568B), Ok(()));
    assert_eq!(cpu.read_logical(3), 0xFFFF_FFBB);
    assert_eq!(load_store_sign_extended(&mut cpu, 0x5A8B), Ok(()));
    assert_eq!(cpu.read_logical(3), 0xAABB);
    assert_eq!(load_store_sign_extended(&mut cpu, 0x5E8B), Ok(()));
    assert_eq!(cpu.read_logical(3), 0xFFFF_AABB);
    cpu.write_logical(2, 0x20);
    assert_eq!(load_store_sign_extended(&mut cpu, 0x5288), Ok(()));
    assert_eq!(cpu.memory_read(0x0200_0120, WORD), Ok(0xAABB));
    cpu.write_logical(1, 0x0800_0000);
    assert_eq!(load_store_register_offset(&mut cpu, 0x5088), Err(EmuError::ReadOnly));
    assert_eq!(load_store_sign_extended(&mut cpu, 0x5288), Err(EmuError::ReadOnly));
}

#[test]
fn loads_and_stores_with_immediate_offset() {
    let mut cpu = at(0);
    cpu.write_logical(0, 0x1122_3344);
    cpu.write_logical(1, 0x0300_0000);
    // STR r0, [r1, #4] ; LDR r2, [r1, #4]
    assert_eq!(load_store_immediate_offset(&mut cpu, 0x6048), Ok(()));
    assert_eq!(cpu.memory_read(0x0300_0004, WORD), Ok(0x1122_3344));
    assert_eq!(load_store_immediate_offset(&mut cpu, 0x684A), Ok(()));
    assert_eq!(cpu.read_logical(2), 0x1122_3344);
    // STRB r0, [r1, #1] ; LDRB r2, [r1, #1] ; LDRB r2, [r1, #31]
    assert_eq!(load_store_immediate_offset(&mut cpu, 0x7048), Ok(()));
    assert_eq!(cpu.memory_read(0x0300_0000, WORD), Ok(0x4400));
    assert_eq!(load_store_immediate_offset(&mut cpu, 0x784A), Ok(()));
    assert_eq!(cpu.read_logical(2), 0x44);
    assert_eq!(load_store_immediate_offset(&mut cpu, 0x7FCA), Ok(()));
    assert_eq!(cpu.read_logical(2), 0);
    // LDR r2, [r1, #124]
    cpu.memory_write(0x0300_007C, WORD, 77).unwrap();
    assert_eq!(load_store_immediate_offset(&mut cpu, 0x6FCA), Ok(()));
    assert_eq!(cpu.read_logical(2), 77);
    // STRH r0, [r1, #2] ; LDRH r2, [r1, #2] ; LDRH r2, [r1, #62]
    assert_eq!(load_store_halfword(&mut cpu, 0x8048), Ok(()));
    assert_eq!(cpu.memory_read(0x0300_0000, WORD), Ok(0x3344_4400));
    assert_eq!(load_store_halfword(&mut cpu, 0x884A), Ok(()));
    assert_eq!(cpu.read_logical(2), 0x3344);
    cpu.memory_write(0x0300_003E, HALFWORD, 0xBEEF).unwrap();
    assert_eq!(load_store_halfword(&mut cpu, 0x8FCA), Ok(()));
    assert_eq!(cpu.read_logical(2), 0xBEEF);
    // STR r0, [sp, #4] ; LDR r3, [sp, #4]
    cpu.write_logical(13, 0x0300_0100);
    assert_eq!(sp_relative_load_store(&mut cpu, 0x9001), Ok(()));
    assert_eq!(cpu.memory_read(0x0300_0104, WORD), Ok(0x1122_3344));
    assert_eq!(sp_relative_load_store(&mut cpu, 0x9B01), Ok(()));
    assert_eq!(cpu.read_logical(3), 0x1122_3344);
    cpu.write_logical(13, 0x1000_0000);
    assert_eq!(sp_relative_load_store(&mut cpu, 0x9001), Err(EmuError::UnmappedAccess));
    assert_eq!(cpu.memory_read(0x0300_0001, BYTE), Ok(0x44));
}

#[test]
fn stack_pointer_offsets() {
    let mut cpu = at(0);
    cpu.write_logical(13, 0x0300_0100);
    add_offset_to_stack_pointer(&mut cpu, 0xB002);
    assert_eq!(cpu.read_logical(13), 0x0300_0108);
    add_offset_to_stack_pointer(&mut cpu, 0xB082);
    assert_eq!(cpu.read_logical(13), 0x0300_0100);
    add_offset_to_stack_pointer(&mut cpu, 0xB07F);
    assert_eq!(cpu.read_logical(13), 0x0300_02FC);
    add_offset_to_stack_pointer(&mut cpu, 0xB0FF);
    assert_eq!(cpu.read_logical(13), 0x0300_0100);
    assert_eq!(cpu.read_cpsr(), 0x30);
}

#[test]
fn push_and_pop() {
    let mut cpu = at(0x0200_0000);
    cpu.write_logical(0, 0xA0);
    cpu.write_logical(1, 0xA1);
    cpu.write_logical(14, 0x0200_0041);
    cpu.write_logical(13, 0x0300_0100);
    // PUSH {r0, r1, lr}
    assert_eq!(push_pop_registers(&mut cpu, 0xB503), Ok(()));
    assert_eq!(cpu.read_logical(13), 0x0300_00F4);
    assert_eq!(cpu.memory_read(0x0300_00F4, WORD), Ok(0xA0));
    assert_eq!(cpu.memory_read(0x0300_00F8, WORD), Ok(0xA1));
    assert_eq!(cpu.memory_read(0x0300_00FC, WORD), Ok(0x0200_0041));
    cpu.write_logical(0, 0);
    cpu.write_logical(1, 0);
    // POP {r0, r1, pc}
    assert!(!cpu.branched());
    assert_eq!(push_pop_registers(&mut cpu, 0xBD03), Ok(()));
    assert_eq!(cpu.read_logical(0), 0xA0);
    assert_eq!(cpu.read_logical(1), 0xA1);
    assert_eq!(cpu.pc(), 0x0200_0041);
    assert!(cpu.branched());
    assert_eq!(cpu.read_logical(13), 0x0300_0100);
    // PUSH {r0} ; POP {r1}
    assert_eq!(push_pop_registers(&mut cpu, 0xB401), Ok(()));
    assert_eq!(cpu.read_logical(13), 0x0300_00FC);
    assert_eq!(push_pop_registers(&mut cpu, 0xBC02), Ok(()));
    assert_eq!(cpu.read_logical(1), 0xA0);
    assert_eq!(cpu.read_logical(13), 0x0300_0100);
    cpu.write_logical(13, 0x0300_0000);
    assert_eq!(push_pop_registers(&mut cpu, 0xB401), Err(EmuError::UnmappedAccess));
}

#[test]
fn multiple_load_and_store() {
    let mut cpu = at(0);
    cpu.write_logical(0, 0x0200_0000);
    cpu.write_logical(1, 0xB1);
    cpu.write_logical(2, 0xB2);
    // STMIA r0!, {r1, r2}
    assert_eq!(multiple_load_store(&mut cpu, 0xC006), Ok(()));
    assert_eq!(cpu.read_logical(0), 0x0200_0008);
    assert_eq!(cpu.memory_read(0x0200_0000, WORD), Ok(0xB1));
    assert_eq!(cpu.memory_read(0x0200_0004, WORD), Ok(0xB2));
    // LDMIA r3!, {r4, r5}
    cpu.write_logical(3, 0x0200_0000);
    assert_eq!(multiple_load_store(&mut cpu, 0xCB30), Ok(()));
    assert_eq!(cpu.read_logical(4), 0xB1);
    assert_eq!(cpu.read_logical(5), 0xB2);
    assert_eq!(cpu.read_logical(3), 0x0200_0008);
    cpu.write_logical(0, 0x0800_0000);
    assert_eq!(multiple_load_store(&mut cpu, 0xC006), Err(EmuError::ReadOnly));
}

#[test]
fn conditional_branches() {
    let mut cpu = at(0x0200_0100);
    // BEQ +4 with Z clear: nothing happens
    conditional_branch(&mut cpu, 0xD002);
    assert_eq!(cpu.pc(), 0x0200_0100);
    assert!(!cpu.branched());
    cpu.set_condition_flag(ConditionFlags::Z, true);
    conditional_branch(&mut cpu, 0xD002);
    assert_eq!(cpu.pc(), 0x0200_0104);
    assert!(cpu.branched());
    // BEQ -4
    conditional_branch(&mut cpu, 0xD0FE);
    assert_eq!(cpu.pc(), 0x0200_0100);
    // BNE is not taken, BGE is
    conditional_branch(&mut cpu, 0xD102);
    assert_eq!(cpu.pc(), 0x0200_0100);
    conditional_branch(&mut cpu, 0xDA7F);
    assert_eq!(cpu.pc(), 0x0200_01FE);
    conditional_branch(&mut cpu, 0xDA80);
    assert_eq!(cpu.pc(), 0x0200_00FE);
}

#[test]
fn unconditional_and_long_branches() {
    let mut cpu = at(0x0200_0100);
    unconditional_branch(&mut cpu, 0xE002);
    assert_eq!(cpu.pc(), 0x0200_0104);
    assert!(cpu.branched());
    unconditional_branch(&mut cpu, 0xE7FE);
    assert_eq!(cpu.pc(), 0x0200_0100);
    unconditional_branch(&mut cpu, 0xE3FF);
    assert_eq!(cpu.pc(), 0x0200_08FE);
    unconditional_branch(&mut cpu, 0xE400);
    assert_eq!(cpu.pc(), 0x0200_00FE);

    let mut cpu = at(0x0200_0100);
    // first half: high part 1 -> link = pc + 0x1000
    long_branch_with_link(&mut cpu, 0xF001);
    assert_eq!(cpu.read_logical(14), 0x0200_1100);
    assert_eq!(cpu.pc(), 0x0200_0100);
    assert!(!cpu.branched());
    // second half at the next instruction: low part 8 -> pc = link + 16
    cpu.advance_pc();
    long_branch_with_link(&mut cpu, 0xF808);
    assert_eq!(cpu.pc(), 0x0200_1110);
    assert_eq!(cpu.read_logical(14), 0x0200_0103);
    assert!(cpu.branched());
    // a negative high part
    let mut cpu = at(0x0200_0100);
    long_branch_with_link(&mut cpu, 0xF7FF);
    assert_eq!(cpu.read_logical(14), 0x01FF_F100);
}

#[test]
fn thumb_dispatch_runs_the_handler_of_the_class() {
    let mut cpu = at(0x0200_0000);
    assert_eq!(process_instruction_thumb(&mut cpu, 0x2105), Ok(()));
    assert_eq!(cpu.read_logical(1), 5);
    assert_eq!(process_instruction_thumb(&mut cpu, 0x1C48), Ok(()));
    assert_eq!(cpu.read_logical(0), 6);
    assert_eq!(process_instruction_thumb(&mut cpu, 0x0040), Ok(()));
    assert_eq!(cpu.read_logical(0), 12);
    assert_eq!(process_instruction_thumb(&mut cpu, 0xE002), Ok(()));
    assert_eq!(cpu.pc(), 0x0200_0004);
    // software interrupt: into Supervisor mode and 32-bit code
    assert_eq!(process_instruction_thumb(&mut cpu, 0xDF05), Ok(()));
    assert_eq!(cpu.get_mode(), CPUMode::Supervisor);
    assert!(!cpu.get_state());
    assert_eq!(cpu.read_current_spsr(), Ok(0x30));
    assert_eq!(cpu.read_logical(14), 0x0200_0004);
    assert_eq!(cpu.pc(), 0x08);
}
