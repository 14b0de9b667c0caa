use gba_emu::cartridge::Cartridge;
use gba_emu::cpu::{CPUMode, ConditionFlags, CPU};
use gba_emu::error::EmuError;
use gba_emu::memory::{HALFWORD, WORD};
use gba_emu::model::IoPort;

const CODE: u32 = 0x0200_0000;

fn program(words: &[u32]) -> CPU {
    let mut cpu = CPU::new();
    for (i, w) in words.iter().enumerate() {
        cpu.memory_write(CODE + 4 * i as u32, WORD, *w).unwrap();
    }
    cpu.register_write_custom(15, CODE, CPUMode::User);
    cpu
}

fn lines(irq: bool, fiq: bool) -> IoPort {
    IoPort { last_write: None, scripted_value: 0, irq_pending: irq, fiq_pending: fiq }
}

#[test]
fn a_short_program_runs_instruction_by_instruction() {
    // MOV r0, #10 ; loop: SUBS r0, r0, #1 ; ADD r1, r1, #2 ; BNE loop ; MOV r2, #0xFF
    // the branch offset counts from the branch itself
    let mut cpu = program(&[0xE3A0_000A, 0xE250_0001, 0xE281_1002, 0x1AFF_FFFE, 0xE3A0_20FF]);
    let mut cycles = 0;
    while cpu.pc() != CODE + 20 {
        assert_eq!(cpu.cycle(), Ok(()));
        cycles += 1;
        assert!(cycles < 100);
    }
    assert_eq!(cpu.read_logical(0), 0);
    assert_eq!(cpu.read_logical(1), 20);
    assert_eq!(cpu.read_logical(2), 0xFF);
    assert_eq!(cycles, 1 + 3 * 10 + 1);
    assert_eq!(cpu.get_cycles(), cycles);
}

#[test]
fn a_failed_condition_skips_the_instruction() {
    // MOVEQ r0, #1 ; MOVNE r1, #1
    let mut cpu = program(&[0x03A0_0001, 0x13A0_1001]);
    assert_eq!(cpu.cycle(), Ok(()));
    assert_eq!(cpu.read_logical(0), 0);
    assert_eq!(cpu.pc(), CODE + 4);
    assert_eq!(cpu.cycle(), Ok(()));
    assert_eq!(cpu.read_logical(1), 1);
    assert_eq!(cpu.pc(), CODE + 8);
    assert_eq!(cpu.get_cycles(), 2);
}

#[test]
fn a_taken_branch_is_not_followed_by_an_advance() {
    // B +8 (to the third word) ; MOV r0, #1 ; MOV r1, #2
    let mut cpu = program(&[0xEA00_0002, 0xE3A0_0001, 0xE3A0_1002]);
    assert_eq!(cpu.cycle(), Ok(()));
    assert_eq!(cpu.pc(), CODE + 8);
    assert!(cpu.branched());
    assert_eq!(cpu.cycle(), Ok(()));
    assert_eq!(cpu.read_logical(0), 0);
    assert_eq!(cpu.read_logical(1), 2);
    assert!(!cpu.branched());
}

#[test]
fn the_low_bits_of_the_program_counter_do_not_count_for_the_fetch() {
    let mut cpu = program(&[0xE3A0_0001]);
    cpu.register_write_custom(15, CODE + 3, CPUMode::User);
    assert_eq!(cpu.cycle(), Ok(()));
    assert_eq!(cpu.read_logical(0), 1);
    assert_eq!(cpu.pc(), CODE + 7);
}

#[test]
fn sixteen_bit_code_is_fetched_by_halfwords() {
    let mut cpu = CPU::new();
    // MOV r0, #3 ; ADD r0, #4 ; LSL r1, r0, #2
    cpu.memory_write(CODE, HALFWORD, 0x2003).unwrap();
    cpu.memory_write(CODE + 2, HALFWORD, 0x3004).unwrap();
    cpu.memory_write(CODE + 4, HALFWORD, 0x0081).unwrap();
    cpu.set_state(true);
    cpu.register_write_custom(15, CODE, CPUMode::User);
    assert_eq!(cpu.cycle(), Ok(()));
    assert_eq!(cpu.pc(), CODE + 2);
    assert_eq!(cpu.cycle(), Ok(()));
    assert_eq!(cpu.cycle(), Ok(()));
    assert_eq!(cpu.read_logical(0), 7);
    assert_eq!(cpu.read_logical(1), 28);
    assert_eq!(cpu.pc(), CODE + 6);
    assert_eq!(cpu.get_cycles(), 3);
}

#[test]
fn unknown_and_unimplemented_instructions_stop_the_cycle() {
    let mut cpu = CPU::new();
    cpu.memory_write(CODE, HALFWORD, 0xB100).unwrap();
    cpu.set_state(true);
    cpu.register_write_custom(15, CODE, CPUMode::User);
    assert_eq!(cpu.cycle(), Err(EmuError::UnknownInstruction));
    // the embedding program may skip the instruction and go on
    cpu.advance_pc();
    assert_eq!(cpu.pc(), CODE + 2);

    let mut cpu = program(&[0xEE00_0000]);
    assert_eq!(cpu.cycle(), Err(EmuError::Unimplemented));
    let mut cpu = program(&[0xE581_0000]);
    cpu.write_logical(1, 0x0800_0000);
    assert_eq!(cpu.cycle(), Err(EmuError::ReadOnly));
    let mut cpu = program(&[0xE581_0000]);
    cpu.write_logical(1, 0x0200_0101);
    assert_eq!(cpu.cycle(), Err(EmuError::MisalignedAccess));
    let mut cpu = program(&[0xE14F_0000]);
    assert_eq!(cpu.cycle(), Err(EmuError::InvariantViolation));
    let mut cpu = program(&[0xE591_0000]);
    cpu.write_logical(1, 0x1000_0000);
    assert_eq!(cpu.cycle(), Err(EmuError::UnmappedAccess));
}

#[test]
fn interrupt_request_is_taken_before_the_fetch() {
    let mut cpu = program(&[0xE3A0_0001]);
    // the handler at the vector: MOV r3, #9
    cpu.memory_write(0x18, WORD, 0xE3A0_3009).unwrap();
    cpu.set_condition_flag(ConditionFlags::C, true);
    cpu.set_io(lines(true, false));
    assert_eq!(cpu.cycle(), Ok(()));
    assert_eq!(cpu.get_mode(), CPUMode::IRQ);
    assert_eq!(cpu.read_current_spsr(), Ok(0x2000_0010));
    assert_eq!(cpu.read_logical(14), CODE);
    assert!(cpu.get_irq_disable());
    assert!(!cpu.get_fiq_disable());
    assert!(!cpu.get_state());
    // the first instruction of the handler ran in the same cycle
    assert_eq!(cpu.read_logical(3), 9);
    assert_eq!(cpu.read_logical(0), 0);
    assert_eq!(cpu.pc(), 0x1C);
    // the line is still asserted but requests are disabled now
    cpu.memory_write(0x1C, WORD, 0xE3A0_4001).unwrap();
    assert_eq!(cpu.cycle(), Ok(()));
    assert_eq!(cpu.get_mode(), CPUMode::IRQ);
    assert_eq!(cpu.read_logical(4), 1);
}

#[test]
fn fast_interrupt_request_comes_first_and_masks_both() {
    let mut cpu = program(&[0xE3A0_0001]);
    cpu.memory_write(0x1C, WORD, 0xE3A0_3007).unwrap();
    cpu.set_io(lines(true, true));
    assert_eq!(cpu.cycle(), Ok(()));
    assert_eq!(cpu.get_mode(), CPUMode::FIQ);
    assert_eq!(cpu.read_cpsr(), 0x0000_00D1);
    assert_eq!(cpu.read_current_spsr(), Ok(0x10));
    assert_eq!(cpu.read_logical(14), CODE);
    assert_eq!(cpu.read_logical(3), 7);
    assert_eq!(cpu.pc(), 0x20);
}

#[test]
fn disabled_interrupts_are_not_taken() {
    let mut cpu = program(&[0xE3A0_0001, 0xE3A0_0002]);
    cpu.set_irq_disable(true);
    cpu.set_fiq_disable(true);
    cpu.set_io(lines(true, true));
    assert_eq!(cpu.cycle(), Ok(()));
    assert_eq!(cpu.get_mode(), CPUMode::User);
    assert_eq!(cpu.read_logical(0), 1);
    // with requests enabled again the interrupt is taken from 16-bit code too
    cpu.set_irq_disable(false);
    cpu.set_state(true);
    cpu.memory_write(0x18, WORD, 0xE3A0_5005).unwrap();
    assert_eq!(cpu.cycle(), Ok(()));
    assert_eq!(cpu.get_mode(), CPUMode::IRQ);
    assert_eq!(cpu.read_current_spsr(), Ok(0x0000_0070));
    assert_eq!(cpu.read_logical(14), CODE + 4);
    assert_eq!(cpu.read_logical(5), 5);
}

#[test]
fn code_runs_from_the_cartridge() {
    let mut image = vec![0u8; 228];
    for word in [0xE3A0_0C02u32, 0xE280_0001, 0xEAFF_FFFE] {
        image.extend_from_slice(&word.to_le_bytes());
    }
    let mut cpu = CPU::new();
    cpu.insert_cartridge(Cartridge::from_bytes(&image).unwrap());
    cpu.register_write_custom(15, 0x0800_0000, CPUMode::User);
    assert_eq!(cpu.cycle(), Ok(()));
    assert_eq!(cpu.cycle(), Ok(()));
    assert_eq!(cpu.read_logical(0), 0x201);
    // the branch leads back to the first instruction
    assert_eq!(cpu.cycle(), Ok(()));
    assert_eq!(cpu.pc(), 0x0800_0000);
    // the mirrors serve the same code
    cpu.register_write_custom(15, 0x0A00_0004, CPUMode::User);
    assert_eq!(cpu.cycle(), Ok(()));
    assert_eq!(cpu.read_logical(0), 0x202);
    assert_eq!(cpu.pc(), 0x0A00_0008);
}
