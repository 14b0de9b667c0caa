use gba_emu::cpu::{CPUMode, ConditionFlags, CPU};
use gba_emu::error::EmuError;
use gba_emu::instructions::arm::{
    arm_entry, block_data_transfer, branch, branch_and_exchange, coprocessor_data_operations,
    coprocessor_data_transfer, coprocessor_register_transfer, data_processing, decode_arm,
    get_shift_amount, halfword_signed_data_transfer, long_multiply, mrs, msr_flags, msr_full,
    multiply, multiply_long, placeholder_arm, process_instruction_arm, single_data_swap,
    single_data_transfer, software_interrupt, transfer_block, undefined, wide_product, ArmClass,
};
use gba_emu::memory::{BYTE, HALFWORD, WORD};

fn flags(cpu: &CPU) -> (bool, bool, bool, bool) {
    (
        cpu.get_condition_flag(ConditionFlags::N),
        cpu.get_condition_flag(ConditionFlags::Z),
        cpu.get_condition_flag(ConditionFlags::C),
        cpu.get_condition_flag(ConditionFlags::V),
    )
}

fn at(pc: u32) -> CPU {
    let mut cpu = CPU::new();
    cpu.register_write_custom(15, pc, CPUMode::User);
    cpu.set_branched(false);
    cpu
}

// ---- decoder ----

#[test]
fn decoder_tells_the_classes_apart() {
    let cases = [
        (0xE10F_0000u32, ArmClass::Mrs),
        (0xE14F_0000, ArmClass::Mrs),
        (0xE129_F000, ArmClass::MsrFull),
        (0xE169_F000, ArmClass::MsrFull),
        (0xE128_F000, ArmClass::MsrFlags),
        (0xE328_F20F, ArmClass::MsrFlags),
        (0xE000_0291, ArmClass::Multiply),
        (0xE020_3291, ArmClass::Multiply),
        (0xE0C1_0392, ArmClass::MultiplyLong),
        (0xE081_0392, ArmClass::MultiplyLong),
        (0xE102_0091, ArmClass::SingleDataSwap),
        (0xE142_0091, ArmClass::SingleDataSwap),
        (0xE12F_FF10, ArmClass::BranchAndExchange),
        (0xE1D1_00B0, ArmClass::HalfwordSignedDataTransfer),
        (0xE1D1_00D0, ArmClass::HalfwordSignedDataTransfer),
        (0xE1C1_00B0, ArmClass::HalfwordSignedDataTransfer),
        (0xE3A0_0001, ArmClass::DataProcessing),
        (0xE090_0001, ArmClass::DataProcessing),
        (0xE1A0_0211, ArmClass::DataProcessing),
        (0xE591_0000, ArmClass::SingleDataTransfer),
        (0xE791_0102, ArmClass::SingleDataTransfer),
        (0xE92D_400F, ArmClass::BlockDataTransfer),
        (0xE8BD_400F, ArmClass::BlockDataTransfer),
        (0xEA00_0002, ArmClass::Branch),
        (0xEB00_0002, ArmClass::Branch),
        (0xED90_0000, ArmClass::CoprocessorDataTransfer),
        (0xEE00_0000, ArmClass::CoprocessorDataOperation),
        (0xEE00_0010, ArmClass::CoprocessorRegisterTransfer),
        (0xEF00_0000, ArmClass::SoftwareInterrupt),
        (0xEFFF_FFFF, ArmClass::SoftwareInterrupt),
    ];
    for (instruction, class) in cases {
        assert_eq!(decode_arm(instruction), Some(class), "{instruction:#010x}");
        // the condition does not take part in decoding
        assert_eq!(decode_arm(instruction & 0x0FFF_FFFF), Some(class));
    }
}

#[test]
fn decoder_takes_the_first_matching_entry() {
    // the table keeps the order of its entries
    assert_eq!(arm_entry(0), (0x010F_0000, 0x0FBF_0FFF, ArmClass::Mrs));
    assert_eq!(arm_entry(6), (0x012F_FF10, 0x0FFF_FFF0, ArmClass::BranchAndExchange));
    assert_eq!(arm_entry(8), (0x0000_0000, 0x0C00_0000, ArmClass::DataProcessing));
    assert_eq!(arm_entry(9), (0x0400_0000, 0x0C00_0000, ArmClass::SingleDataTransfer));
    assert_eq!(arm_entry(10), (0x0600_0010, 0x0E00_0010, ArmClass::Undefined));
    assert_eq!(arm_entry(16), (0x0F00_0000, 0x0F00_0000, ArmClass::SoftwareInterrupt));
    // single data transfer stands before the undefined pattern that lies in it
    assert_eq!(decode_arm(0xE7F0_00F0), Some(ArmClass::SingleDataTransfer));
    for i in 0..17 {
        let (pattern, mask, class) = arm_entry(i);
        assert_eq!(pattern & mask, pattern);
        let found = decode_arm(pattern).unwrap();
        let first = (0..17).find(|j| pattern & arm_entry(*j).1 == arm_entry(*j).0).unwrap();
        assert_eq!(found, arm_entry(first).2);
        // the bare patterns of two entries already show an earlier pattern
        if i != 7 && i != 10 {
            assert_eq!(found, class);
        }
    }
}

#[test]
fn every_instruction_has_a_class() {
    let mut x: u32 = 0x1234_5678;
    for _ in 0..20000 {
        x = x.wrapping_mul(1664525).wrapping_add(1013904223);
        assert!(decode_arm(x).is_some());
    }
}

// ---- data processing ----

#[test]
fn mov_immediate_with_rotation() {
    let mut cpu = at(0);
    // MOV r2, #0xFF000000
    assert_eq!(data_processing(&mut cpu, 0xE3A0_24FF), Ok(()));
    assert_eq!(cpu.read_logical(2), 0xFF00_0000);
    assert_eq!(cpu.read_cpsr(), 0x10);
    // MOVS r2, #0xFF000000 : N from the result, C from the rotation
    assert_eq!(data_processing(&mut cpu, 0xE3B0_24FF), Ok(()));
    assert_eq!(flags(&cpu), (true, false, true, false));
    // MOVS r2, #1 : no rotation, carry stays
    assert_eq!(data_processing(&mut cpu, 0xE3B0_2001), Ok(()));
    assert_eq!(flags(&cpu), (false, false, true, false));
}

#[test]
fn register_operand_goes_through_the_shifter() {
    let mut cpu = at(0);
    cpu.write_logical(1, 0x8000_0001);
    cpu.write_logical(2, 4);
    // MOV r0, r1, LSL #1
    assert_eq!(data_processing(&mut cpu, 0xE1A0_0081), Ok(()));
    assert_eq!(cpu.read_logical(0), 2);
    assert_eq!(flags(&cpu), (false, false, false, false));
    // MOVS r0, r1, LSL #1 : carry out is bit 31
    assert_eq!(data_processing(&mut cpu, 0xE1B0_0081), Ok(()));
    assert_eq!(flags(&cpu), (false, false, true, false));
    // MOV r0, r1, LSR r2
    assert_eq!(data_processing(&mut cpu, 0xE1A0_0231), Ok(()));
    assert_eq!(cpu.read_logical(0), 0x0800_0000);
    // MOV r0, r1, ASR #4
    assert_eq!(data_processing(&mut cpu, 0xE1A0_0241), Ok(()));
    assert_eq!(cpu.read_logical(0), 0xF800_0000);
    // MOV r0, r1, ROR #4
    assert_eq!(data_processing(&mut cpu, 0xE1A0_0261), Ok(()));
    assert_eq!(cpu.read_logical(0), 0x1800_0000);
    // MOV r0, r1, RRX with carry set
    assert_eq!(data_processing(&mut cpu, 0xE1A0_0061), Ok(()));
    assert_eq!(cpu.read_logical(0), 0xC000_0000);
    assert_eq!(get_shift_amount(&mut cpu, 0xE1A0_0231), 4);
    assert_eq!(get_shift_amount(&mut cpu, 0xE1A0_0F81), 31);
}

#[test]
fn arithmetic_takes_carry_from_the_adder_not_the_shifter() {
    let mut cpu = at(0);
    cpu.write_logical(1, 0x8000_0000);
    cpu.write_logical(2, 1);
    // ADDS r0, r2, r1, LSL #1 : the shifter pushes a one out, the adder does not carry
    assert_eq!(data_processing(&mut cpu, 0xE092_0081), Ok(()));
    assert_eq!(cpu.read_logical(0), 1);
    assert_eq!(flags(&cpu), (false, false, false, false));
    // SUBS r0, r2, #1
    assert_eq!(data_processing(&mut cpu, 0xE252_0001), Ok(()));
    assert_eq!(cpu.read_logical(0), 0);
    assert_eq!(flags(&cpu), (false, true, true, false));
    // SBC r0, r2, #0 with carry set
    assert_eq!(data_processing(&mut cpu, 0xE2C2_0000), Ok(()));
    assert_eq!(cpu.read_logical(0), 1);
    // RSBS r0, r2, #0
    assert_eq!(data_processing(&mut cpu, 0xE272_0000), Ok(()));
    assert_eq!(cpu.read_logical(0), 0xFFFF_FFFF);
    assert_eq!(flags(&cpu), (true, false, false, false));
    // ADC r0, r2, #0 with carry clear, then SBC with carry clear
    assert_eq!(data_processing(&mut cpu, 0xE2A2_0000), Ok(()));
    assert_eq!(cpu.read_logical(0), 1);
    assert_eq!(data_processing(&mut cpu, 0xE2C2_0000), Ok(()));
    assert_eq!(cpu.read_logical(0), 0);
}

#[test]
fn tests_write_no_register() {
    let mut cpu = at(0);
    cpu.write_logical(0, 0x55);
    cpu.write_logical(1, 5);
    // CMP r1, #5 (destination field 0)
    assert_eq!(data_processing(&mut cpu, 0xE351_0005), Ok(()));
    assert_eq!(cpu.read_logical(0), 0x55);
    assert_eq!(flags(&cpu), (false, true, true, false));
    // TST r1, #2
    assert_eq!(data_processing(&mut cpu, 0xE311_0002), Ok(()));
    assert_eq!(cpu.read_logical(0), 0x55);
    assert_eq!(flags(&cpu), (false, true, true, false));
    // TEQ r1, #5 ; CMN r1, #1
    assert_eq!(data_processing(&mut cpu, 0xE331_0005), Ok(()));
    assert_eq!(flags(&cpu), (false, true, true, false));
    assert_eq!(data_processing(&mut cpu, 0xE371_0001), Ok(()));
    assert_eq!(flags(&cpu), (false, false, false, false));
    assert_eq!(cpu.read_logical(0), 0x55);
}

#[test]
fn program_counter_as_operand_reads_eight_ahead() {
    let mut cpu = at(0x0300_0100);
    // MOV r0, pc ; ADD r1, pc, #4
    assert_eq!(data_processing(&mut cpu, 0xE1A0_000F), Ok(()));
    assert_eq!(cpu.read_logical(0), 0x0300_0108);
    assert_eq!(data_processing(&mut cpu, 0xE28F_1004), Ok(()));
    assert_eq!(cpu.read_logical(1), 0x0300_010C);
    assert!(!cpu.branched());
    // MOV pc, r0 raises the branched flag
    assert_eq!(data_processing(&mut cpu, 0xE1A0_F000), Ok(()));
    assert_eq!(cpu.pc(), 0x0300_0108);
    assert!(cpu.branched());
}

#[test]
fn s_bit_with_program_counter_restores_the_status_word() {
    let mut cpu = at(0);
    // MOVS pc, lr in User mode: there is no saved status word
    assert_eq!(data_processing(&mut cpu, 0xE1B0_F00E), Err(EmuError::InvariantViolation));
    let mut cpu = at(0);
    cpu.set_mode(CPUMode::Supervisor);
    cpu.write_current_spsr(0x6000_0010).unwrap();
    cpu.write_logical(14, 0x0300_0200);
    assert_eq!(data_processing(&mut cpu, 0xE1B0_F00E), Ok(()));
    assert_eq!(cpu.pc(), 0x0300_0200);
    assert_eq!(cpu.read_cpsr(), 0x6000_0010);
    assert_eq!(cpu.get_mode(), CPUMode::User);
}

// ---- status register transfers ----

#[test]
fn mrs_reads_status_words() {
    let mut cpu = at(0);
    cpu.write_cpsr(0xA000_0013).unwrap();
    cpu.write_current_spsr(0x1234_5610).unwrap();
    assert_eq!(mrs(&mut cpu, 0xE10F_3000), Ok(()));
    assert_eq!(cpu.read_logical(3), 0xA000_0013);
    assert_eq!(mrs(&mut cpu, 0xE14F_4000), Ok(()));
    assert_eq!(cpu.read_logical(4), 0x1234_5610);
    cpu.set_mode(CPUMode::User);
    assert_eq!(mrs(&mut cpu, 0xE14F_4000), Err(EmuError::InvariantViolation));
    cpu.set_mode(CPUMode::System);
    assert_eq!(mrs(&mut cpu, 0xE14F_4000), Err(EmuError::InvariantViolation));
}

#[test]
fn msr_writes_status_words() {
    let mut cpu = at(0);
    cpu.write_logical(0, 0xF000_00D3);
    assert_eq!(msr_full(&mut cpu, 0xE129_F000), Ok(()));
    assert_eq!(cpu.read_cpsr(), 0xF000_00D3);
    assert_eq!(cpu.get_mode(), CPUMode::Supervisor);
    cpu.write_logical(0, 0x0000_0010);
    assert_eq!(msr_full(&mut cpu, 0xE169_F000), Ok(()));
    assert_eq!(cpu.read_current_spsr(), Ok(0x10));
    assert_eq!(cpu.read_cpsr(), 0xF000_00D3);
    // a mode code that names no mode is refused
    cpu.write_logical(0, 0x0000_0000);
    assert_eq!(msr_full(&mut cpu, 0xE129_F000), Err(EmuError::InvariantViolation));
    assert_eq!(cpu.read_cpsr(), 0xF000_00D3);
    cpu.set_mode(CPUMode::User);
    assert_eq!(msr_full(&mut cpu, 0xE169_F000), Err(EmuError::InvariantViolation));
}

#[test]
fn msr_flags_changes_the_top_four_bits_only() {
    let mut cpu = at(0);
    cpu.write_cpsr(0x0000_00D3).unwrap();
    cpu.write_logical(0, 0xFFFF_FFFF);
    assert_eq!(msr_flags(&mut cpu, 0xE128_F000), Ok(()));
    assert_eq!(cpu.read_cpsr(), 0xF000_00D3);
    cpu.write_logical(0, 0x5FFF_FF00);
    assert_eq!(msr_flags(&mut cpu, 0xE128_F000), Ok(()));
    assert_eq!(cpu.read_cpsr(), 0x5000_00D3);
    // immediate 0x0F rotated right by 4
    assert_eq!(msr_flags(&mut cpu, 0xE328_F20F), Ok(()));
    assert_eq!(cpu.read_cpsr(), 0xF000_00D3);
    // immediate without rotation reaches no flag bit
    assert_eq!(msr_flags(&mut cpu, 0xE328_F0FF), Ok(()));
    assert_eq!(cpu.read_cpsr(), 0x0000_00D3);
    // the saved status word
    cpu.write_current_spsr(0x0123_4567).unwrap();
    cpu.write_logical(0, 0xA000_0000);
    assert_eq!(msr_flags(&mut cpu, 0xE168_F000), Ok(()));
    assert_eq!(cpu.read_current_spsr(), Ok(0xA123_4567));
    assert_eq!(cpu.read_cpsr(), 0x0000_00D3);
    cpu.set_mode(CPUMode::User);
    assert_eq!(msr_flags(&mut cpu, 0xE168_F000), Err(EmuError::InvariantViolation));
}

// ---- branches ----

#[test]
fn branch_adds_the_offset_to_the_stored_program_counter() {
    let mut cpu = at(0x0300_0100);
    branch(&mut cpu, 0xEA00_0002);
    assert_eq!(cpu.pc(), 0x0300_0108);
    assert!(cpu.branched());
    assert_eq!(cpu.read_logical(14), 0);
    let mut cpu = at(0x0300_0100);
    branch(&mut cpu, 0xEAFF_FFFE);
    assert_eq!(cpu.pc(), 0x0300_00F8);
    let mut cpu = at(0x0300_0100);
    branch(&mut cpu, 0xEB00_0010);
    assert_eq!(cpu.pc(), 0x0300_0140);
    assert_eq!(cpu.read_logical(14), 0x0300_0100);
    let mut cpu = at(0x0200_0000);
    branch(&mut cpu, 0xEA80_0000);
    assert_eq!(cpu.pc(), 0x0000_0000);
    let mut cpu = at(0);
    branch(&mut cpu, 0xEA7F_FFFF);
    assert_eq!(cpu.pc(), 0x01FF_FFFC);
}

#[test]
fn branch_and_exchange_takes_the_state_from_bit_0() {
    let mut cpu = at(0x0300_0000);
    cpu.write_logical(3, 0x0200_0041);
    branch_and_exchange(&mut cpu, 0xE12F_FF13);
    assert_eq!(cpu.pc(), 0x0200_0040);
    assert!(cpu.get_state());
    assert!(cpu.branched());
    cpu.write_logical(3, 0x0200_0080);
    branch_and_exchange(&mut cpu, 0xE12F_FF13);
    assert_eq!(cpu.pc(), 0x0200_0080);
    assert!(!cpu.get_state());
}

// ---- exceptions ----

#[test]
fn software_interrupt_enters_supervisor_mode() {
    let mut cpu = at(0x0300_0100);
    cpu.write_cpsr(0x3000_0030).unwrap();
    software_interrupt(&mut cpu, 0xEF00_0000);
    assert_eq!(cpu.read_cpsr(), 0x3000_0093);
    assert_eq!(cpu.read_current_spsr(), Ok(0x3000_0030));
    assert_eq!(cpu.read_logical(14), 0x0300_0100);
    assert_eq!(cpu.pc(), 0x08);
    assert!(cpu.branched());
    assert_eq!(cpu.register_read_custom(14, CPUMode::User), 0);
}

#[test]
fn undefined_instruction_enters_undefined_mode() {
    let mut cpu = at(0x0300_0100);
    undefined(&mut cpu, 0xE7F0_00F0);
    assert_eq!(cpu.get_mode(), CPUMode::Undefined);
    assert_eq!(cpu.read_logical(14), 0x0300_0100);
    assert_eq!(cpu.pc(), 0x04);
    assert!(cpu.branched());
    assert_eq!(cpu.register_read_custom(14, CPUMode::User), 0);
}

#[test]
fn coprocessor_classes_are_not_executed() {
    let mut cpu = at(0);
    assert_eq!(coprocessor_data_operations(&mut cpu, 0xEE00_0000), Err(EmuError::Unimplemented));
    assert_eq!(coprocessor_register_transfer(&mut cpu, 0xEE00_0010), Err(EmuError::Unimplemented));
    assert_eq!(coprocessor_data_transfer(&mut cpu, 0xED90_0000), Err(EmuError::Unimplemented));
    assert_eq!(coprocessor_data_transfer(&mut cpu, 0xEDBF_0000), Err(EmuError::InvariantViolation));
    assert_eq!(coprocessor_data_transfer(&mut cpu, 0xED9F_0000), Err(EmuError::Unimplemented));
    assert_eq!(placeholder_arm(&mut cpu, 0), Err(EmuError::Unimplemented));
    assert_eq!(process_instruction_arm(&mut cpu, 0xEE00_0000), Err(EmuError::Unimplemented));
    assert_eq!(process_instruction_arm(&mut cpu, 0xEE00_0010), Err(EmuError::Unimplemented));
    assert_eq!(process_instruction_arm(&mut cpu, 0xED90_0000), Err(EmuError::Unimplemented));
    assert_eq!(cpu.read_cpsr(), 0x10);
    assert_eq!(cpu.pc(), 0);
}

// ---- multiply ----

#[test]
fn multiply_wraps_and_accumulates() {
    let mut cpu = at(0);
    cpu.write_logical(1, 7);
    cpu.write_logical(2, 6);
    cpu.write_logical(3, 100);
    assert_eq!(multiply(&mut cpu, 0xE000_0291), Ok(()));
    assert_eq!(cpu.read_logical(0), 42);
    assert_eq!(multiply(&mut cpu, 0xE020_3291), Ok(()));
    assert_eq!(cpu.read_logical(0), 142);
    cpu.write_logical(1, 0x8000_0001);
    cpu.write_logical(2, 2);
    // MULS
    assert_eq!(multiply(&mut cpu, 0xE010_0291), Ok(()));
    assert_eq!(cpu.read_logical(0), 2);
    assert_eq!(flags(&cpu), (false, false, false, false));
    cpu.write_logical(2, 0);
    assert_eq!(multiply(&mut cpu, 0xE010_0291), Ok(()));
    assert_eq!(flags(&cpu), (false, true, false, false));
    cpu.write_logical(1, 0xFFFF_FFFF);
    cpu.write_logical(2, 3);
    assert_eq!(multiply(&mut cpu, 0xE010_0291), Ok(()));
    assert_eq!(cpu.read_logical(0), 0xFFFF_FFFD);
    assert_eq!(flags(&cpu), (true, false, false, false));
}

#[test]
fn multiply_refuses_forbidden_registers() {
    let mut cpu = at(0);
    // destination and first factor are the same register
    assert_eq!(multiply(&mut cpu, 0xE000_0290), Err(EmuError::InvariantViolation));
    // the program counter in each field
    assert_eq!(multiply(&mut cpu, 0xE00F_0291), Err(EmuError::InvariantViolation));
    assert_eq!(multiply(&mut cpu, 0xE000_029F), Err(EmuError::InvariantViolation));
    assert_eq!(multiply(&mut cpu, 0xE000_0F91), Err(EmuError::InvariantViolation));
    assert_eq!(multiply(&mut cpu, 0xE000_F291), Err(EmuError::InvariantViolation));
    assert_eq!(cpu.read_logical(0), 0);
}

#[test]
fn wide_products() {
    assert_eq!(wide_product(0xFFFF_FFFF, 0xFFFF_FFFF, true), 0xFFFF_FFFE_0000_0001);
    assert_eq!(wide_product(0xFFFF_FFFF, 0xFFFF_FFFF, false), 1);
    assert_eq!(wide_product(0xFFFF_FFFF, 2, false), 0xFFFF_FFFF_FFFF_FFFE);
    assert_eq!(wide_product(2, 0xFFFF_FFFF, false), 0xFFFF_FFFF_FFFF_FFFE);
    assert_eq!(wide_product(0x8000_0000, 0x8000_0000, false), 0x4000_0000_0000_0000);
    assert_eq!(wide_product(0x8000_0000, 0x7FFF_FFFF, false), 0xC000_0000_8000_0000);
    assert_eq!(wide_product(3, 4, false), 12);
    for a in [0u32, 1, 0x7FFF_FFFF, 0x8000_0000, 0xFFFF_FFFF, 0x1234_5678] {
        for b in [0u32, 1, 0x7FFF_FFFF, 0x8000_0000, 0xFFFF_FFFF, 0x9ABC_DEF0] {
            assert_eq!(wide_product(a, b, true), a as u64 * b as u64);
            assert_eq!(
                wide_product(a, b, false),
                (a as i32 as i64).wrapping_mul(b as i32 as i64) as u64
            );
        }
    }
}

#[test]
fn long_multiply_splits_and_accumulates() {
    assert_eq!(long_multiply(0xFFFF_FFFF, 0xFFFF_FFFF, true, false, 9, 9), (0xFFFF_FFFE, 1, false, true));
    assert_eq!(long_multiply(0xFFFF_FFFF, 0xFFFF_FFFF, false, false, 9, 9), (0, 1, false, false));
    assert_eq!(long_multiply(0, 5, true, false, 9, 9), (0, 0, true, false));
    assert_eq!(long_multiply(2, 3, true, true, 1, 0xFFFF_FFFF), (2, 5, false, false));
    assert_eq!(long_multiply(1, 1, true, true, 0xFFFF_FFFF, 0xFFFF_FFFF), (0, 0, true, false));
    assert_eq!(long_multiply(0xFFFF_FFFF, 1, false, true, 0, 1), (0, 0, true, false));
}

#[test]
fn multiply_long_writes_both_halves() {
    let mut cpu = at(0);
    cpu.write_logical(2, 0xFFFF_FFFF);
    cpu.write_logical(3, 0xFFFF_FFFF);
    // bit 22 set: unsigned product, r1 high, r0 low
    assert_eq!(multiply_long(&mut cpu, 0xE0C1_0392), Ok(()));
    assert_eq!(cpu.read_logical(1), 0xFFFF_FFFE);
    assert_eq!(cpu.read_logical(0), 0x0000_0001);
    assert_eq!(flags(&cpu), (false, false, false, false));
    // with S: N is bit 63
    assert_eq!(multiply_long(&mut cpu, 0xE0D1_0392), Ok(()));
    assert_eq!(flags(&cpu), (true, false, false, false));
    // bit 22 clear: signed product, -1 * -1 = 1
    assert_eq!(multiply_long(&mut cpu, 0xE091_0392), Ok(()));
    assert_eq!(cpu.read_logical(1), 0);
    assert_eq!(cpu.read_logical(0), 1);
    assert_eq!(flags(&cpu), (false, false, false, false));
    // accumulate onto r1:r0 = 0:1
    cpu.write_logical(2, 3);
    cpu.write_logical(3, 5);
    assert_eq!(multiply_long(&mut cpu, 0xE0E1_0392), Ok(()));
    assert_eq!(cpu.read_logical(1), 0);
    assert_eq!(cpu.read_logical(0), 16);
    // zero over all 64 bits
    cpu.write_logical(2, 0);
    assert_eq!(multiply_long(&mut cpu, 0xE0D1_0392), Ok(()));
    assert_eq!(flags(&cpu), (false, true, false, false));
}

#[test]
fn multiply_long_refuses_forbidden_registers() {
    let mut cpu = at(0);
    // hi == lo, hi == rm, lo == rm
    assert_eq!(multiply_long(&mut cpu, 0xE0C0_0392), Err(EmuError::InvariantViolation));
    assert_eq!(multiply_long(&mut cpu, 0xE0C2_0392), Err(EmuError::InvariantViolation));
    assert_eq!(multiply_long(&mut cpu, 0xE0C1_2392), Err(EmuError::InvariantViolation));
    // the program counter in each field
    assert_eq!(multiply_long(&mut cpu, 0xE0CF_0392), Err(EmuError::InvariantViolation));
    assert_eq!(multiply_long(&mut cpu, 0xE0C1_F392), Err(EmuError::InvariantViolation));
    assert_eq!(multiply_long(&mut cpu, 0xE0C1_0F92), Err(EmuError::InvariantViolation));
    assert_eq!(multiply_long(&mut cpu, 0xE0C1_039F), Err(EmuError::InvariantViolation));
}

// ---- single data transfer ----

#[test]
fn load_and_store_words_and_bytes() {
    let mut cpu = at(0);
    cpu.write_logical(0, 0xCAFE_BABE);
    cpu.write_logical(1, 0x0200_0100);
    // STR r0, [r1]
    assert_eq!(single_data_transfer(&mut cpu, 0xE581_0000), Ok(()));
    assert_eq!(cpu.memory_read(0x0200_0100, WORD), Ok(0xCAFE_BABE));
    // LDRB r2, [r1, #1]
    assert_eq!(single_data_transfer(&mut cpu, 0xE5D1_2001), Ok(()));
    assert_eq!(cpu.read_logical(2), 0xBA);
    // STRB r0, [r1, #4]
    assert_eq!(single_data_transfer(&mut cpu, 0xE5C1_0004), Ok(()));
    assert_eq!(cpu.memory_read(0x0200_0104, WORD), Ok(0xBE));
    // LDR r3, [r1, #-4] after storing there
    cpu.memory_write(0x0200_00FC, WORD, 0x0BAD_F00D).unwrap();
    assert_eq!(single_data_transfer(&mut cpu, 0xE511_3004), Ok(()));
    assert_eq!(cpu.read_logical(3), 0x0BAD_F00D);
    assert_eq!(cpu.read_logical(1), 0x0200_0100);
}

#[test]
fn indexing_and_write_back() {
    let mut cpu = at(0);
    cpu.memory_write(0x0200_0100, WORD, 0x1111_1111).unwrap();
    cpu.memory_write(0x0200_0104, WORD, 0x2222_2222).unwrap();
    cpu.write_logical(1, 0x0200_0100);
    // LDR r0, [r1, #4]! : pre-indexed with write-back
    assert_eq!(single_data_transfer(&mut cpu, 0xE5B1_0004), Ok(()));
    assert_eq!(cpu.read_logical(0), 0x2222_2222);
    assert_eq!(cpu.read_logical(1), 0x0200_0104);
    // LDR r0, [r1], #-4 : post-indexed, the transfer uses the base itself
    assert_eq!(single_data_transfer(&mut cpu, 0xE411_0004), Ok(()));
    assert_eq!(cpu.read_logical(0), 0x2222_2222);
    assert_eq!(cpu.read_logical(1), 0x0200_0100);
    // LDR r0, [r1], #4
    assert_eq!(single_data_transfer(&mut cpu, 0xE491_0004), Ok(()));
    assert_eq!(cpu.read_logical(0), 0x1111_1111);
    assert_eq!(cpu.read_logical(1), 0x0200_0104);
    // LDR r1, [r1], #4 : the loaded value wins over the write-back
    assert_eq!(single_data_transfer(&mut cpu, 0xE491_1004), Ok(()));
    assert_eq!(cpu.read_logical(1), 0x2222_2222);
}

#[test]
fn register_offset_goes_through_the_shifter() {
    let mut cpu = at(0);
    cpu.memory_write(0x0200_0110, WORD, 0x3333_3333).unwrap();
    cpu.write_logical(1, 0x0200_0100);
    cpu.write_logical(2, 4);
    // LDR r0, [r1, r2, LSL #2]
    assert_eq!(single_data_transfer(&mut cpu, 0xE791_0102), Ok(()));
    assert_eq!(cpu.read_logical(0), 0x3333_3333);
    assert_eq!(cpu.read_cpsr(), 0x10);
    cpu.write_logical(1, 0x0200_0120);
    // LDR r0, [r1, -r2, LSL #2]
    assert_eq!(single_data_transfer(&mut cpu, 0xE711_0102), Ok(()));
    assert_eq!(cpu.read_logical(0), 0x3333_3333);
}

#[test]
fn program_counter_in_single_data_transfer() {
    let mut cpu = at(0x0200_0000);
    cpu.memory_write(0x0200_000C, WORD, 0x4444_4444).unwrap();
    // LDR r0, [pc, #4] : the base is eight ahead
    assert_eq!(single_data_transfer(&mut cpu, 0xE59F_0004), Ok(()));
    assert_eq!(cpu.read_logical(0), 0x4444_4444);
    cpu.write_logical(1, 0x0200_0100);
    // STR pc, [r1] : stored twelve ahead
    assert_eq!(single_data_transfer(&mut cpu, 0xE581_F000), Ok(()));
    assert_eq!(cpu.memory_read(0x0200_0100, WORD), Ok(0x0200_000C));
    // LDR pc, [r1] raises the branched flag
    assert!(!cpu.branched());
    assert_eq!(single_data_transfer(&mut cpu, 0xE591_F000), Ok(()));
    assert_eq!(cpu.pc(), 0x0200_000C);
    assert!(cpu.branched());
    // write-back to the program counter, and the program counter as offset
    assert_eq!(single_data_transfer(&mut cpu, 0xE5BF_0004), Err(EmuError::InvariantViolation));
    assert_eq!(single_data_transfer(&mut cpu, 0xE791_000F), Err(EmuError::InvariantViolation));
}

#[test]
fn single_data_transfer_reports_memory_errors() {
    let mut cpu = at(0);
    cpu.write_logical(1, 0x1000_0000);
    assert_eq!(single_data_transfer(&mut cpu, 0xE591_0000), Err(EmuError::UnmappedAccess));
    assert_eq!(single_data_transfer(&mut cpu, 0xE581_0000), Err(EmuError::UnmappedAccess));
    cpu.write_logical(1, 0x0800_0000);
    assert_eq!(single_data_transfer(&mut cpu, 0xE581_0000), Err(EmuError::ReadOnly));
    cpu.write_logical(1, 0x0200_0002);
    assert_eq!(single_data_transfer(&mut cpu, 0xE581_0000), Err(EmuError::MisalignedAccess));
    assert_eq!(single_data_transfer(&mut cpu, 0xE5C1_0000), Ok(()));
}

// ---- halfword and signed data transfer ----

#[test]
fn halfword_and_signed_loads() {
    let mut cpu = at(0);
    cpu.memory_write(0x0200_0100, WORD, 0x80FF_7F81).unwrap();
    cpu.write_logical(1, 0x0200_0100);
    // LDRH r0, [r1] ; LDRH r0, [r1, #2]
    assert_eq!(halfword_signed_data_transfer(&mut cpu, 0xE1D1_00B0), Ok(()));
    assert_eq!(cpu.read_logical(0), 0x7F81);
    assert_eq!(halfword_signed_data_transfer(&mut cpu, 0xE1D1_00B2), Ok(()));
    assert_eq!(cpu.read_logical(0), 0x80FF);
    // LDRSH r0, [r1] ; LDRSH r0, [r1, #2]
    assert_eq!(halfword_signed_data_transfer(&mut cpu, 0xE1D1_00F0), Ok(()));
    assert_eq!(cpu.read_logical(0), 0x7F81);
    assert_eq!(halfword_signed_data_transfer(&mut cpu, 0xE1D1_00F2), Ok(()));
    assert_eq!(cpu.read_logical(0), 0xFFFF_80FF);
    // LDRSB r0, [r1] ; LDRSB r0, [r1, #1]
    assert_eq!(halfword_signed_data_transfer(&mut cpu, 0xE1D1_00D0), Ok(()));
    assert_eq!(cpu.read_logical(0), 0xFFFF_FF81);
    assert_eq!(halfword_signed_data_transfer(&mut cpu, 0xE1D1_00D1), Ok(()));
    assert_eq!(cpu.read_logical(0), 0x7F);
}

#[test]
fn halfword_store_and_offsets() {
    let mut cpu = at(0);
    cpu.write_logical(0, 0xAAAA_BBCC);
    cpu.write_logical(1, 0x0200_0100);
    cpu.write_logical(2, 6);
    // STRH r0, [r1, #0x12] : the two nibbles make the offset
    assert_eq!(halfword_signed_data_transfer(&mut cpu, 0xE1C1_01B2), Ok(()));
    assert_eq!(cpu.memory_read(0x0200_0112, HALFWORD), Ok(0xBBCC));
    assert_eq!(cpu.memory_read(0x0200_0110, WORD), Ok(0xBBCC_0000));
    // STRH r0, [r1, r2]! : register offset, write-back
    assert_eq!(halfword_signed_data_transfer(&mut cpu, 0xE1A1_00B2), Ok(()));
    assert_eq!(cpu.memory_read(0x0200_0106, HALFWORD), Ok(0xBBCC));
    assert_eq!(cpu.read_logical(1), 0x0200_0106);
    // LDRH r3, [r1], #-2 : post-indexed
    assert_eq!(halfword_signed_data_transfer(&mut cpu, 0xE051_30B2), Ok(()));
    assert_eq!(cpu.read_logical(3), 0xBBCC);
    assert_eq!(cpu.read_logical(1), 0x0200_0104);
    // an odd address is misaligned for a store
    cpu.write_logical(1, 0x0200_0101);
    assert_eq!(
        halfword_signed_data_transfer(&mut cpu, 0xE1C1_00B0),
        Err(EmuError::MisalignedAccess)
    );
}

#[test]
fn halfword_transfer_refuses_bad_width_bits() {
    let mut cpu = at(0);
    cpu.write_logical(1, 0x0200_0100);
    // S and H both clear
    assert_eq!(halfword_signed_data_transfer(&mut cpu, 0xE1D1_0090), Err(EmuError::InvariantViolation));
    // signed stores do not exist
    assert_eq!(halfword_signed_data_transfer(&mut cpu, 0xE1C1_00D0), Err(EmuError::InvariantViolation));
    assert_eq!(halfword_signed_data_transfer(&mut cpu, 0xE1C1_00F0), Err(EmuError::InvariantViolation));
}

// ---- swap ----

#[test]
fn swap_exchanges_register_and_memory() {
    let mut cpu = at(0);
    cpu.memory_write(0x0200_0100, WORD, 0x1122_3344).unwrap();
    cpu.write_logical(1, 0xAABB_CCDD);
    cpu.write_logical(2, 0x0200_0100);
    // SWP r0, r1, [r2]
    assert_eq!(single_data_swap(&mut cpu, 0xE102_0091), Ok(()));
    assert_eq!(cpu.read_logical(0), 0x1122_3344);
    assert_eq!(cpu.memory_read(0x0200_0100, WORD), Ok(0xAABB_CCDD));
    // SWPB r0, r1, [r2]
    cpu.write_logical(1, 0x0000_0099);
    assert_eq!(single_data_swap(&mut cpu, 0xE142_0091), Ok(()));
    assert_eq!(cpu.read_logical(0), 0xDD);
    assert_eq!(cpu.memory_read(0x0200_0100, WORD), Ok(0xAABB_CC99));
    // SWP r1, r1, [r2]
    assert_eq!(single_data_swap(&mut cpu, 0xE102_1091), Ok(()));
    assert_eq!(cpu.read_logical(1), 0xAABB_CC99);
    assert_eq!(cpu.memory_read(0x0200_0100, WORD), Ok(0x99));
}

#[test]
fn swap_refuses_the_program_counter_and_bad_addresses() {
    let mut cpu = at(0);
    assert_eq!(single_data_swap(&mut cpu, 0xE10F_0091), Err(EmuError::InvariantViolation));
    assert_eq!(single_data_swap(&mut cpu, 0xE102_F091), Err(EmuError::InvariantViolation));
    assert_eq!(single_data_swap(&mut cpu, 0xE102_009F), Err(EmuError::InvariantViolation));
    cpu.write_logical(2, 0x0800_0000);
    assert_eq!(single_data_swap(&mut cpu, 0xE102_0091), Err(EmuError::ReadOnly));
    cpu.write_logical(2, 0x1000_0000);
    assert_eq!(single_data_swap(&mut cpu, 0xE102_0091), Err(EmuError::UnmappedAccess));
    assert_eq!(cpu.read_logical(0), 0);
}

// ---- block data transfer ----

fn loaded(cpu: &mut CPU) {
    for r in 0..15u32 {
        cpu.write_logical(r, 0x1000 + r);
    }
}

#[test]
fn the_four_addressing_modes_of_a_block() {
    // (instruction, lowest address, base after write-back)
    let base = 0x0300_0100u32;
    let cases = [
        (0xE8A4_000Eu32, base, base + 12),      // STMIA r4!, {r1-r3}
        (0xE9A4_000E, base + 4, base + 12),     // STMIB
        (0xE824_000E, base - 8, base - 12),     // STMDA
        (0xE924_000E, base - 12, base - 12),    // STMDB
    ];
    for (instruction, lowest, after) in cases {
        let mut cpu = at(0);
        loaded(&mut cpu);
        cpu.write_logical(4, base);
        assert_eq!(block_data_transfer(&mut cpu, instruction), Ok(()));
        assert_eq!(cpu.memory_read(lowest, WORD), Ok(0x1001));
        assert_eq!(cpu.memory_read(lowest + 4, WORD), Ok(0x1002));
        assert_eq!(cpu.memory_read(lowest + 8, WORD), Ok(0x1003));
        assert_eq!(cpu.memory_read(lowest - 4, WORD), Ok(0));
        assert_eq!(cpu.memory_read(lowest + 12, WORD), Ok(0));
        assert_eq!(cpu.read_logical(4), after);
        // without the W bit the base stays
        let mut cpu = at(0);
        loaded(&mut cpu);
        cpu.write_logical(4, base);
        assert_eq!(block_data_transfer(&mut cpu, instruction & !0x0020_0000), Ok(()));
        assert_eq!(cpu.read_logical(4), base);
        assert_eq!(cpu.memory_read(lowest + 8, WORD), Ok(0x1003));
    }
}

#[test]
fn block_store_then_load_restores_the_registers() {
    let mut cpu = at(0);
    loaded(&mut cpu);
    cpu.write_logical(13, 0x0300_7F00);
    // STMFD sp!, {r0-r3, lr}
    assert_eq!(block_data_transfer(&mut cpu, 0xE92D_400F), Ok(()));
    for r in [0u32, 1, 2, 3, 14] {
        cpu.write_logical(r, 0xDEAD_0000 + r);
    }
    // LDMFD sp!, {r0-r3, lr}
    assert_eq!(block_data_transfer(&mut cpu, 0xE8BD_400F), Ok(()));
    for r in [0u32, 1, 2, 3, 14] {
        assert_eq!(cpu.read_logical(r), 0x1000 + r);
    }
    assert_eq!(cpu.read_logical(13), 0x0300_7F00);
    // STMIA r4, {r0-r3} ; LDMIA r4, {r0-r3}
    cpu.write_logical(4, 0x0200_0000);
    assert_eq!(block_data_transfer(&mut cpu, 0xE884_000F), Ok(()));
    for r in 0..4u32 {
        cpu.write_logical(r, 0);
    }
    assert_eq!(block_data_transfer(&mut cpu, 0xE894_000F), Ok(()));
    for r in 0..4u32 {
        assert_eq!(cpu.read_logical(r), 0x1000 + r);
    }
}

#[test]
fn block_transfer_with_the_program_counter() {
    let mut cpu = at(0x0300_0000);
    cpu.write_logical(4, 0x0200_0000);
    // STMIA r4, {pc} stores the program counter eight ahead
    assert_eq!(block_data_transfer(&mut cpu, 0xE884_8000), Ok(()));
    assert_eq!(cpu.memory_read(0x0200_0000, WORD), Ok(0x0300_0008));
    // LDMIA r4, {pc} branches
    assert!(!cpu.branched());
    assert_eq!(block_data_transfer(&mut cpu, 0xE894_8000), Ok(()));
    assert_eq!(cpu.pc(), 0x0300_0008);
    assert!(cpu.branched());
    // the program counter as base is refused
    assert_eq!(block_data_transfer(&mut cpu, 0xE88F_0001), Err(EmuError::InvariantViolation));
}

#[test]
fn s_bit_selects_user_bank_or_restores_status() {
    let mut cpu = at(0);
    cpu.register_write_custom(13, 0x0000_AAAA, CPUMode::User);
    cpu.register_write_custom(13, 0x0000_BBBB, CPUMode::Supervisor);
    cpu.set_mode(CPUMode::Supervisor);
    cpu.write_logical(4, 0x0200_0000);
    // STMIA r4, {sp}^ stores the stack pointer of User mode
    assert_eq!(block_data_transfer(&mut cpu, 0xE8C4_2000), Ok(()));
    assert_eq!(cpu.memory_read(0x0200_0000, WORD), Ok(0xAAAA));
    // STMIA r4, {sp} stores that of the current mode
    assert_eq!(block_data_transfer(&mut cpu, 0xE884_2000), Ok(()));
    assert_eq!(cpu.memory_read(0x0200_0000, WORD), Ok(0xBBBB));
    // LDMIA r4, {sp}^ loads into the User bank
    cpu.memory_write(0x0200_0000, WORD, 0xCCCC).unwrap();
    assert_eq!(block_data_transfer(&mut cpu, 0xE8D4_2000), Ok(()));
    assert_eq!(cpu.register_read_custom(13, CPUMode::User), 0xCCCC);
    assert_eq!(cpu.read_logical(13), 0xBBBB);
    // LDMIA r4, {pc}^ restores the status word at the end
    cpu.memory_write(0x0200_0000, WORD, 0x0300_0040).unwrap();
    cpu.write_current_spsr(0x9000_0010).unwrap();
    assert_eq!(block_data_transfer(&mut cpu, 0xE8D4_8000), Ok(()));
    assert_eq!(cpu.pc(), 0x0300_0040);
    assert_eq!(cpu.read_cpsr(), 0x9000_0010);
    // and fails where there is no saved status word
    cpu.write_logical(4, 0x0200_0000);
    assert_eq!(block_data_transfer(&mut cpu, 0xE8D4_8000), Err(EmuError::InvariantViolation));
}

#[test]
fn block_transfer_reports_memory_errors() {
    let mut cpu = at(0);
    cpu.write_logical(4, 0x0203_FFFC);
    // the second word lies behind the end of the region
    assert_eq!(block_data_transfer(&mut cpu, 0xE884_0003), Err(EmuError::UnmappedAccess));
    assert_eq!(block_data_transfer(&mut cpu, 0xE894_0003), Err(EmuError::UnmappedAccess));
    cpu.write_logical(4, 0x0800_0000);
    assert_eq!(block_data_transfer(&mut cpu, 0xE884_0003), Err(EmuError::ReadOnly));
    cpu.write_logical(4, 0x0200_0002);
    assert_eq!(block_data_transfer(&mut cpu, 0xE884_0003), Err(EmuError::MisalignedAccess));
    // an empty list transfers nothing
    cpu.write_logical(4, 0x1000_0000);
    assert_eq!(block_data_transfer(&mut cpu, 0xE8A4_0000), Ok(()));
    assert_eq!(cpu.read_logical(4), 0x1000_0000);
    assert_eq!(transfer_block(&mut cpu, 0, true, false, 0x1000_0000), Ok(()));
    assert_eq!(transfer_block(&mut cpu, 1, true, false, 0x1000_0000), Err(EmuError::UnmappedAccess));
}

// ---- dispatch ----

#[test]
fn dispatch_runs_the_handler_of_the_class() {
    let mut cpu = at(0x0300_0000);
    assert_eq!(process_instruction_arm(&mut cpu, 0xE3A0_0001), Ok(()));
    assert_eq!(cpu.read_logical(0), 1);
    assert_eq!(process_instruction_arm(&mut cpu, 0xE10F_1000), Ok(()));
    assert_eq!(cpu.read_logical(1), 0x10);
    assert_eq!(process_instruction_arm(&mut cpu, 0xEB00_0000), Ok(()));
    assert_eq!(cpu.read_logical(14), 0x0300_0000);
    assert_eq!(process_instruction_arm(&mut cpu, 0xEF00_0000), Ok(()));
    assert_eq!(cpu.get_mode(), CPUMode::Supervisor);
    cpu.write_logical(0, 0x0200_0001);
    assert_eq!(process_instruction_arm(&mut cpu, 0xE12F_FF10), Ok(()));
    assert!(cpu.get_state());
    assert_eq!(cpu.pc(), 0x0200_0000);
    assert_eq!(cpu.memory_read(0x0200_0000, BYTE), Ok(0));
}
