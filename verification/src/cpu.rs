//! The processor: register file, program status words and memory, with the
//! operations that the decoders are built from.

use vstd::prelude::*;
use crate::cartridge::Cartridge;
use crate::error::EmuError;
use crate::instructions::arm::{arm_step, process_instruction_arm};
use crate::instructions::masks_32bit::B_31_28;
use crate::instructions::thumb::{process_instruction_thumb, thumb_step};
use crate::memory::{lemma_resolve_offset, resolve_address, Region, BYTE, HALFWORD, WORD};
use crate::model::{
    bank_slot, condition_table, lemma_status_bits, mode_of_bits, outcome_is, reset_state,
    valid_mode_bits, with_bits, CpuState, IoPort, CPSR_SLOT, FIQ_DISABLE, IRQ_DISABLE,
    MODE_BITS, THUMB_STATE,
};
use crate::util::{range_mask, rotate_right, set_bits_in_range};

verus! {

/// Names for the 37 slots of the register file.
#[allow(non_camel_case_types)]
#[derive(Clone, Copy, Debug, PartialEq, Eq, Structural)]
pub enum Registers {
    R0,
    R1,
    R2,
    R3,
    R4,
    R5,
    R6,
    R7,
    R8,
    R9,
    R10,
    R11,
    R12,
    /// Stack pointer.
    R13,
    /// Link register.
    R14,
    /// Program counter.
    R15,
    R8_FIQ,
    R9_FIQ,
    R10_FIQ,
    R11_FIQ,
    R12_FIQ,
    R13_FIQ,
    R14_FIQ,
    R13_IRQ,
    R14_IRQ,
    R13_SVC,
    R14_SVC,
    R13_ABT,
    R14_ABT,
    R13_UND,
    R14_UND,
    CPSR,
    SPSR_FIQ,
    SPSR_SVC,
    SPSR_ABT,
    SPSR_IRQ,
    SPSR_UND,
}

pub const SP: Registers = Registers::R13;

pub const LR: Registers = Registers::R14;

pub const SP_FIQ: Registers = Registers::R13_FIQ;

pub const LR_FIQ: Registers = Registers::R14_FIQ;

pub const SP_IRQ: Registers = Registers::R13_IRQ;

pub const LR_IRQ: Registers = Registers::R14_IRQ;

pub const SP_SVC: Registers = Registers::R13_SVC;

pub const LR_SVC: Registers = Registers::R14_SVC;

pub const SP_ABT: Registers = Registers::R13_ABT;

pub const LR_ABT: Registers = Registers::R14_ABT;

pub const SP_UND: Registers = Registers::R13_UND;

pub const LR_UND: Registers = Registers::R14_UND;

impl Registers {
    /// The position of the slot in the register file.
    pub open spec fn slot(self) -> int {
        match self {
            Registers::R0 => 0,
            Registers::R1 => 1,
            Registers::R2 => 2,
            Registers::R3 => 3,
            Registers::R4 => 4,
            Registers::R5 => 5,
            Registers::R6 => 6,
            Registers::R7 => 7,
            Registers::R8 => 8,
            Registers::R9 => 9,
            Registers::R10 => 10,
            Registers::R11 => 11,
            Registers::R12 => 12,
            Registers::R13 => 13,
            Registers::R14 => 14,
            Registers::R15 => 15,
            Registers::R8_FIQ => 16,
            Registers::R9_FIQ => 17,
            Registers::R10_FIQ => 18,
            Registers::R11_FIQ => 19,
            Registers::R12_FIQ => 20,
            Registers::R13_FIQ => 21,
            Registers::R14_FIQ => 22,
            Registers::R13_IRQ => 23,
            Registers::R14_IRQ => 24,
            Registers::R13_SVC => 25,
            Registers::R14_SVC => 26,
            Registers::R13_ABT => 27,
            Registers::R14_ABT => 28,
            Registers::R13_UND => 29,
            Registers::R14_UND => 30,
            Registers::CPSR => 31,
            Registers::SPSR_FIQ => 32,
            Registers::SPSR_SVC => 33,
            Registers::SPSR_ABT => 34,
            Registers::SPSR_IRQ => 35,
            Registers::SPSR_UND => 36,
        }
    }

    /// The position of the slot in the register file.
    pub fn index(self) -> (i: usize)
        ensures
            i == self.slot(),
            i < 37,
    {
        match self {
            Registers::R0 => 0,
            Registers::R1 => 1,
            Registers::R2 => 2,
            Registers::R3 => 3,
            Registers::R4 => 4,
            Registers::R5 => 5,
            Registers::R6 => 6,
            Registers::R7 => 7,
            Registers::R8 => 8,
            Registers::R9 => 9,
            Registers::R10 => 10,
            Registers::R11 => 11,
            Registers::R12 => 12,
            Registers::R13 => 13,
            Registers::R14 => 14,
            Registers::R15 => 15,
            Registers::R8_FIQ => 16,
            Registers::R9_FIQ => 17,
            Registers::R10_FIQ => 18,
            Registers::R11_FIQ => 19,
            Registers::R12_FIQ => 20,
            Registers::R13_FIQ => 21,
            Registers::R14_FIQ => 22,
            Registers::R13_IRQ => 23,
            Registers::R14_IRQ => 24,
            Registers::R13_SVC => 25,
            Registers::R14_SVC => 26,
            Registers::R13_ABT => 27,
            Registers::R14_ABT => 28,
            Registers::R13_UND => 29,
            Registers::R14_UND => 30,
            Registers::CPSR => 31,
            Registers::SPSR_FIQ => 32,
            Registers::SPSR_SVC => 33,
            Registers::SPSR_ABT => 34,
            Registers::SPSR_IRQ => 35,
            Registers::SPSR_UND => 36,
        }
    }
}

/// The execution modes of the processor.
#[derive(Clone, Copy, Debug, PartialEq, Eq, Structural)]
pub enum CPUMode {
    User,
    FIQ,
    IRQ,
    Supervisor,
    Abort,
    Undefined,
    System,
}

/// The four condition flags of a program status word.
#[derive(Clone, Copy, Debug, PartialEq, Eq, Structural)]
pub enum ConditionFlags {
    V,
    C,
    Z,
    N,
}

impl CPUMode {
    /// The five-bit code of the mode in a program status word.
    pub open spec fn code(self) -> u32 {
        match self {
            CPUMode::User => 0x10,
            CPUMode::FIQ => 0x11,
            CPUMode::IRQ => 0x12,
            CPUMode::Supervisor => 0x13,
            CPUMode::Abort => 0x17,
            CPUMode::Undefined => 0x1B,
            CPUMode::System => 0x1F,
        }
    }

    /// Whether the mode has a saved program status word of its own.
    pub open spec fn has_spsr(self) -> bool {
        self != CPUMode::User && self != CPUMode::System
    }

    /// The slot that holds the saved status word of the mode. Meant for modes
    /// that have one.
    pub open spec fn spsr_slot(self) -> int {
        match self {
            CPUMode::FIQ => 32,
            CPUMode::Supervisor => 33,
            CPUMode::Abort => 34,
            CPUMode::IRQ => 35,
            _ => 36,
        }
    }
}

impl ConditionFlags {
    /// The bit of a status word that holds the flag.
    pub open spec fn mask(self) -> u32 {
        match self {
            ConditionFlags::N => 0x8000_0000,
            ConditionFlags::Z => 0x4000_0000,
            ConditionFlags::C => 0x2000_0000,
            ConditionFlags::V => 0x1000_0000,
        }
    }
}

impl CPUMode {
    /// The five-bit code of the mode in a program status word.
    pub fn bits(self) -> (code: u32)
        ensures
            code == self.code(),
            valid_mode_bits(code),
            mode_of_bits(code) == self,
    {
        match self {
            CPUMode::User => 0x10,
            CPUMode::FIQ => 0x11,
            CPUMode::IRQ => 0x12,
            CPUMode::Supervisor => 0x13,
            CPUMode::Abort => 0x17,
            CPUMode::Undefined => 0x1B,
            CPUMode::System => 0x1F,
        }
    }

    /// The mode that a five-bit code names. A code that names none is an
    /// invariant violation.
    pub fn from_bits(code: u32) -> (r: Result<CPUMode, EmuError>)
        ensures
            valid_mode_bits(code) ==> r == Ok::<CPUMode, EmuError>(mode_of_bits(code)),
            !valid_mode_bits(code) ==> r == Err::<CPUMode, EmuError>(EmuError::InvariantViolation),
    {
        if code == 0x10 {
            Ok(CPUMode::User)
        } else if code == 0x11 {
            Ok(CPUMode::FIQ)
        } else if code == 0x12 {
            Ok(CPUMode::IRQ)
        } else if code == 0x13 {
            Ok(CPUMode::Supervisor)
        } else if code == 0x17 {
            Ok(CPUMode::Abort)
        } else if code == 0x1B {
            Ok(CPUMode::Undefined)
        } else if code == 0x1F {
            Ok(CPUMode::System)
        } else {
            Err(EmuError::InvariantViolation)
        }
    }

    /// Whether the mode has a saved program status word of its own.
    pub fn banked_status(self) -> (b: bool)
        ensures
            b == self.has_spsr(),
    {
        match self {
            CPUMode::User | CPUMode::System => false,
            _ => true,
        }
    }

    fn status_index(self) -> (i: usize)
        ensures
            i == self.spsr_slot(),
            32 <= i < 37,
    {
        match self {
            CPUMode::FIQ => 32,
            CPUMode::Supervisor => 33,
            CPUMode::Abort => 34,
            CPUMode::IRQ => 35,
            _ => 36,
        }
    }
}

impl ConditionFlags {
    /// The bit of a status word that holds the flag.
    pub fn bit_mask(self) -> (m: u32)
        ensures
            m == self.mask(),
    {
        match self {
            ConditionFlags::N => 0x8000_0000,
            ConditionFlags::Z => 0x4000_0000,
            ConditionFlags::C => 0x2000_0000,
            ConditionFlags::V => 0x1000_0000,
        }
    }
}

/// The slot of the register file that holds logical register `r` in `mode`.
pub fn resolve_slot(mode: CPUMode, r: u32) -> (slot: usize)
    requires
        r < 16,
    ensures
        slot == bank_slot(mode, r),
        slot < 31,
{
    let r: usize = r as usize;
    match mode {
        CPUMode::User | CPUMode::System => r,
        CPUMode::FIQ => if 8 <= r && r <= 14 {
            r + 8
        } else {
            r
        },
        CPUMode::IRQ => if 13 <= r && r <= 14 {
            r + 10
        } else {
            r
        },
        CPUMode::Supervisor => if 13 <= r && r <= 14 {
            r + 12
        } else {
            r
        },
        CPUMode::Abort => if 13 <= r && r <= 14 {
            r + 14
        } else {
            r
        },
        CPUMode::Undefined => if 13 <= r && r <= 14 {
            r + 16
        } else {
            r
        },
    }
}

/// The processor with its memory.
pub struct CPU {
    cycles: u64,
    branch: bool,
    registers: [u32; 37],
    bios: Vec<u8>,
    board_ram: Vec<u8>,
    chip_ram: Vec<u8>,
    palette_ram: Vec<u8>,
    video_ram: Vec<u8>,
    obj_att: Vec<u8>,
    game_pak_ram: Vec<u8>,
    cartridge: Option<Cartridge>,
    io: IoPort,
}

impl View for CPU {
    type V = CpuState;

    closed spec fn view(&self) -> CpuState {
        CpuState {
            regs: self.registers@,
            branched: self.branch,
            cycles: self.cycles,
            bios: self.bios@,
            board_ram: self.board_ram@,
            chip_ram: self.chip_ram@,
            palette_ram: self.palette_ram@,
            video_ram: self.video_ram@,
            obj_att: self.obj_att@,
            game_pak_ram: self.game_pak_ram@,
            rom: match self.cartridge {
                Some(cart) => cart@.rom,
                None => Seq::empty(),
            },
            io: self.io,
        }
    }
}

impl CPU {
    /// A machine that has just been switched on.
    pub fn new() -> (cpu: CPU)
        ensures
            cpu@ == reset_state(),
            cpu@.wf(),
    {
        let mut init: [u32; 37] = [0u32; 37];
        init[CPSR_SLOT] = 0x10;
        let cpu = CPU {
            cycles: 0,
            branch: false,
            registers: init,
            bios: vec![0u8; 0x4000],
            board_ram: vec![0u8; 0x4_0000],
            chip_ram: vec![0u8; 0x8000],
            palette_ram: vec![0u8; 0x400],
            video_ram: vec![0u8; 0x1_8000],
            obj_att: vec![0u8; 0x400],
            game_pak_ram: vec![0u8; 0x1_0000],
            cartridge: None,
            io: IoPort::new(),
        };
        proof {
            let s = reset_state();
            assert(cpu@.regs =~= s.regs);
            assert(cpu@.bios =~= s.bios);
            assert(cpu@.board_ram =~= s.board_ram);
            assert(cpu@.chip_ram =~= s.chip_ram);
            assert(cpu@.palette_ram =~= s.palette_ram);
            assert(cpu@.video_ram =~= s.video_ram);
            assert(cpu@.obj_att =~= s.obj_att);
            assert(cpu@.game_pak_ram =~= s.game_pak_ram);
            assert(0x10u32 & 0x1F == 0x10) by (bit_vector);
        }
        cpu
    }

    /// Puts a cartridge into the machine; its ROM then backs the three game
    /// pak windows.
    pub fn insert_cartridge(&mut self, cart: Cartridge)
        ensures
            final(self)@ == (CpuState { rom: cart@.rom, ..old(self)@ }),
    {
        self.cartridge = Some(cart);
    }

    /// The stand-in for the devices behind the I/O registers.
    pub fn io(&self) -> (io: IoPort)
        ensures
            io == self@.io,
    {
        self.io
    }

    /// Replaces the stand-in for the devices behind the I/O registers.
    pub fn set_io(&mut self, io: IoPort)
        ensures
            final(self)@ == (CpuState { io, ..old(self)@ }),
    {
        self.io = io;
    }

    /// The number of instructions dispatched so far.
    pub fn get_cycles(&self) -> (n: u64)
        ensures
            n == self@.cycles,
    {
        self.cycles
    }

    /// Whether the instruction under execution wrote the program counter.
    pub fn branched(&self) -> (b: bool)
        ensures
            b == self@.branched,
    {
        self.branch
    }

    /// Raises or clears the branched flag.
    pub fn set_branched(&mut self, branched: bool)
        ensures
            final(self)@ == old(self)@.with_branched(branched),
    {
        self.branch = branched;
    }

    // ---- program status ----

    /// The current program status word.
    pub fn read_cpsr(&self) -> (value: u32)
        ensures
            value == self@.cpsr(),
    {
        self.registers[CPSR_SLOT]
    }

    /// Replaces the current program status word. A value whose mode code names
    /// no mode is refused and leaves the machine as it was.
    pub fn write_cpsr(&mut self, value: u32) -> (r: Result<(), EmuError>)
        requires
            old(self)@.wf(),
        ensures
            final(self)@.wf(),
            match old(self)@.write_cpsr(value) {
                Ok(s) => r is Ok && final(self)@ == s,
                Err(e) => r == Err::<(), EmuError>(e) && final(self)@ == old(self)@,
            },
    {
        match CPUMode::from_bits(value & 0x1F) {
            Ok(_) => {
                self.registers[CPSR_SLOT] = value;
                Ok(())
            },
            Err(e) => Err(e),
        }
    }

    /// Sets or clears bits of the current status word that lie outside the
    /// mode code.
    fn set_status_bits(&mut self, mask: u32, set: bool)
        requires
            old(self)@.wf(),
            mask == 0x8000_0000 || mask == 0x4000_0000 || mask == 0x2000_0000 || mask
                == 0x1000_0000 || mask == 0x80 || mask == 0x40 || mask == 0x20,
        ensures
            final(self)@ == old(self)@.with_cpsr_bits(mask, set),
            final(self)@.wf(),
    {
        let word = self.registers[CPSR_SLOT];
        proof {
            lemma_status_bits(word, 0);
        }
        if set {
            self.registers[CPSR_SLOT] = word | mask;
        } else {
            self.registers[CPSR_SLOT] = word & !mask;
        }
    }

    /// Whether the machine runs 16-bit code.
    pub fn get_state(&self) -> (thumb: bool)
        ensures
            thumb == self@.thumb(),
    {
        self.registers[CPSR_SLOT] & THUMB_STATE != 0
    }

    /// Selects 16-bit code (`true`) or 32-bit code (`false`).
    pub fn set_state(&mut self, set: bool)
        requires
            old(self)@.wf(),
        ensures
            final(self)@ == old(self)@.with_cpsr_bits(0x20, set),
            final(self)@.wf(),
    {
        self.set_status_bits(THUMB_STATE, set);
    }

    /// Whether fast interrupt requests are disabled.
    pub fn get_fiq_disable(&self) -> (disabled: bool)
        ensures
            disabled == (self@.cpsr() & 0x40 != 0),
    {
        self.registers[CPSR_SLOT] & FIQ_DISABLE != 0
    }

    /// Disables or enables fast interrupt requests.
    pub fn set_fiq_disable(&mut self, set: bool)
        requires
            old(self)@.wf(),
        ensures
            final(self)@ == old(self)@.with_cpsr_bits(0x40, set),
            final(self)@.wf(),
    {
        self.set_status_bits(FIQ_DISABLE, set);
    }

    /// Whether interrupt requests are disabled.
    pub fn get_irq_disable(&self) -> (disabled: bool)
        ensures
            disabled == (self@.cpsr() & 0x80 != 0),
    {
        self.registers[CPSR_SLOT] & IRQ_DISABLE != 0
    }

    /// Disables or enables interrupt requests.
    pub fn set_irq_disable(&mut self, set: bool)
        requires
            old(self)@.wf(),
        ensures
            final(self)@ == old(self)@.with_cpsr_bits(0x80, set),
            final(self)@.wf(),
    {
        self.set_status_bits(IRQ_DISABLE, set);
    }

    /// The mode that the machine is in.
    pub fn get_mode(&self) -> (mode: CPUMode)
        ensures
            mode == self@.mode(),
    {
        let code = self.registers[CPSR_SLOT] & MODE_BITS;
        if code == 0x10 {
            CPUMode::User
        } else if code == 0x11 {
            CPUMode::FIQ
        } else if code == 0x12 {
            CPUMode::IRQ
        } else if code == 0x13 {
            CPUMode::Supervisor
        } else if code == 0x17 {
            CPUMode::Abort
        } else if code == 0x1F {
            CPUMode::System
        } else {
            CPUMode::Undefined
        }
    }

    /// Switches to `mode`. The register file is not copied: the mode decides
    /// which slots the logical registers name.
    pub fn set_mode(&mut self, mode: CPUMode)
        requires
            old(self)@.wf(),
        ensures
            final(self)@ == old(self)@.with_mode(mode),
            final(self)@.wf(),
            final(self)@.mode() == mode,
    {
        let word = self.registers[CPSR_SLOT];
        let code = mode.bits();
        proof {
            lemma_status_bits(word, code);
            assert(range_mask(0, 4) == 0x1F) by (bit_vector);
            assert((code << 0u32) & 0x1F == code) by (bit_vector)
                requires
                    code <= 0x1F,
            ;
        }
        self.registers[CPSR_SLOT] = set_bits_in_range(word, 0, 4, code);
    }

    /// Whether a condition flag is set.
    pub fn get_condition_flag(&self, flag: ConditionFlags) -> (set: bool)
        ensures
            set == self@.flag(flag),
    {
        self.registers[CPSR_SLOT] & flag.bit_mask() != 0
    }

    /// Sets or clears a condition flag.
    pub fn set_condition_flag(&mut self, flag: ConditionFlags, set: bool)
        requires
            old(self)@.wf(),
        ensures
            final(self)@ == old(self)@.with_flag(flag, set),
            final(self)@.wf(),
    {
        self.set_status_bits(flag.bit_mask(), set);
    }

    /// The four condition flags, in their places in the status word.
    pub fn get_all_condition_flags(&self) -> (flags: u32)
        ensures
            flags == self@.cpsr() & 0xF000_0000,
    {
        self.registers[CPSR_SLOT] & B_31_28
    }

    /// The saved status word of the current mode. User and System have none.
    pub fn read_current_spsr(&self) -> (r: Result<u32, EmuError>)
        ensures
            self@.mode().has_spsr() ==> r == Ok::<u32, EmuError>(self@.spsr()),
            !self@.mode().has_spsr() ==> r == Err::<u32, EmuError>(EmuError::InvariantViolation),
    {
        let mode = self.get_mode();
        if mode.banked_status() {
            Ok(self.registers[mode.status_index()])
        } else {
            Err(EmuError::InvariantViolation)
        }
    }

    /// Replaces the saved status word of the current mode. User and System
    /// have none: there the machine stays as it was.
    pub fn write_current_spsr(&mut self, value: u32) -> (r: Result<(), EmuError>)
        requires
            old(self)@.wf(),
        ensures
            final(self)@.wf(),
            old(self)@.mode().has_spsr() ==> r is Ok && final(self)@ == old(self)@.with_spsr(value),
            !old(self)@.mode().has_spsr() ==> r == Err::<(), EmuError>(
                EmuError::InvariantViolation,
            ) && final(self)@ == old(self)@,
    {
        let mode = self.get_mode();
        if mode.banked_status() {
            self.registers[mode.status_index()] = value;
            Ok(())
        } else {
            Err(EmuError::InvariantViolation)
        }
    }

    /// Copies the saved status word of the current mode into the current one.
    pub fn restore_cpsr(&mut self) -> (r: Result<(), EmuError>)
        requires
            old(self)@.wf(),
        ensures
            final(self)@.wf(),
            match old(self)@.restore_cpsr() {
                Ok(s) => r is Ok && final(self)@ == s,
                Err(e) => r == Err::<(), EmuError>(e) && final(self)@ == old(self)@,
            },
    {
        let saved = self.read_current_spsr()?;
        self.write_cpsr(saved)
    }

    /// Whether the condition in the top four bits of a 32-bit instruction holds
    /// under the current flags.
    pub fn check_condition(&self, instruction: u32) -> (holds: bool)
        ensures
            holds == condition_table(
                instruction >> 28,
                self@.flag(ConditionFlags::N),
                self@.flag(ConditionFlags::Z),
                self@.flag(ConditionFlags::C),
                self@.flag(ConditionFlags::V),
            ),
    {
        let code = instruction >> 28;
        assert(instruction >> 28 <= 15) by (bit_vector);
        let n = self.get_condition_flag(ConditionFlags::N);
        let z = self.get_condition_flag(ConditionFlags::Z);
        let c = self.get_condition_flag(ConditionFlags::C);
        let v = self.get_condition_flag(ConditionFlags::V);
        evaluate_condition(code, n, z, c, v)
    }

    // ---- registers ----

    /// What a named slot of the register file holds.
    pub fn read_slot(&self, slot: Registers) -> (value: u32)
        ensures
            value == self@.regs[slot.slot()],
    {
        self.registers[slot.index()]
    }

    /// The program counter as it is stored, without the prefetch offset.
    pub fn pc(&self) -> (value: u32)
        ensures
            value == self@.pc(),
    {
        self.registers[15]
    }

    /// Logical register `register` as seen from `mode`.
    pub fn register_read_custom(&self, register: u32, mode: CPUMode) -> (value: u32)
        requires
            register < 16,
        ensures
            value == self@.read_in(register, mode),
    {
        if register == 15 {
            let ahead: u32 = if self.get_state() {
                4
            } else {
                8
            };
            self.registers[15].wrapping_add(ahead)
        } else {
            self.registers[resolve_slot(mode, register)]
        }
    }

    /// Logical register `register` as seen from the current mode.
    pub fn read_logical(&self, register: u32) -> (value: u32)
        requires
            register < 16,
        ensures
            value == self@.read(register),
    {
        self.register_read_custom(register, self.get_mode())
    }

    /// Writes logical register `register` as seen from `mode`.
    pub fn register_write_custom(&mut self, register: u32, value: u32, mode: CPUMode)
        requires
            old(self)@.wf(),
            register < 16,
        ensures
            final(self)@ == old(self)@.write_in(register, value, mode),
            final(self)@.wf(),
    {
        let slot = resolve_slot(mode, register);
        self.registers[slot] = value;
        if register == 15 {
            self.branch = true;
        }
    }

    /// Writes logical register `register` as seen from the current mode.
    pub fn write_logical(&mut self, register: u32, value: u32)
        requires
            old(self)@.wf(),
            register < 16,
        ensures
            final(self)@ == old(self)@.write(register, value),
            final(self)@.wf(),
    {
        let mode = self.get_mode();
        self.register_write_custom(register, value, mode);
    }

    /// Reads by register number: 0 to 15 are the logical registers of the
    /// current mode, 16 is the current status word, 17 the saved status word
    /// of the current mode.
    pub fn register_read(&self, register: u32) -> (r: Result<u32, EmuError>)
        ensures
            r == self@.register(register),
    {
        if register < 16 {
            Ok(self.read_logical(register))
        } else if register == 16 {
            Ok(self.read_cpsr())
        } else if register == 17 {
            self.read_current_spsr()
        } else {
            Err(EmuError::InvariantViolation)
        }
    }

    /// Writes by register number, counted as for `register_read`.
    pub fn register_write(&mut self, register: u32, value: u32) -> (r: Result<(), EmuError>)
        requires
            old(self)@.wf(),
        ensures
            final(self)@.wf(),
            match old(self)@.with_register(register, value) {
                Ok(s) => r is Ok && final(self)@ == s,
                Err(e) => r == Err::<(), EmuError>(e) && final(self)@ == old(self)@,
            },
    {
        if register < 16 {
            self.write_logical(register, value);
            Ok(())
        } else if register == 16 {
            self.write_cpsr(value)
        } else if register == 17 {
            self.write_current_spsr(value)
        } else {
            Err(EmuError::InvariantViolation)
        }
    }

    /// Moves the program counter on by `width` bytes, without raising the
    /// branched flag.
    pub fn advance_pc_by(&mut self, width: u32)
        requires
            old(self)@.wf(),
        ensures
            final(self)@ == old(self)@.advance_pc_by(width),
            final(self)@.wf(),
    {
        self.registers[15] = self.registers[15].wrapping_add(width);
    }

    /// Moves the program counter on by one instruction of the current state,
    /// without raising the branched flag.
    pub fn advance_pc(&mut self)
        requires
            old(self)@.wf(),
        ensures
            final(self)@ == old(self)@.advance_pc(),
            final(self)@.wf(),
    {
        let width: u32 = if self.get_state() {
            2
        } else {
            4
        };
        self.advance_pc_by(width);
    }

    // ---- memory ----

    /// The byte at `offset` of a region that the interpreter holds or that the
    /// cartridge serves.
    fn load_byte(&self, region: Region, offset: u32) -> (b: u8)
        requires
            self@.wf(),
            region != Region::IoRegisters,
            offset < region.size(),
        ensures
            b == self@.byte(region, offset as int),
    {
        let i = offset as usize;
        match region {
            Region::Bios => self.bios[i],
            Region::BoardRam => self.board_ram[i],
            Region::ChipRam => self.chip_ram[i],
            Region::Palette => self.palette_ram[i],
            Region::VideoRam => self.video_ram[i],
            Region::ObjAttributes => self.obj_att[i],
            Region::GamePakSram => self.game_pak_ram[i],
            Region::GamePakRom => match &self.cartridge {
                Some(cart) => if i < cart.rom_len() {
                    cart.read_adress(i)
                } else {
                    0
                },
                None => 0,
            },
            Region::IoRegisters => 0,
        }
    }

    /// Replaces the byte at `offset` of a region of RAM.
    fn store_byte(&mut self, region: Region, offset: u32, b: u8)
        requires
            old(self)@.wf(),
            region.is_ram(),
            offset < region.size(),
        ensures
            final(self)@ == old(self)@.with_byte(region, offset as int, b),
            final(self)@.wf(),
    {
        let i = offset as usize;
        match region {
            Region::Bios => {
                self.bios[i] = b;
            },
            Region::BoardRam => {
                self.board_ram[i] = b;
            },
            Region::ChipRam => {
                self.chip_ram[i] = b;
            },
            Region::Palette => {
                self.palette_ram[i] = b;
            },
            Region::VideoRam => {
                self.video_ram[i] = b;
            },
            Region::ObjAttributes => {
                self.obj_att[i] = b;
            },
            Region::GamePakSram => {
                self.game_pak_ram[i] = b;
            },
            _ => {},
        }
    }

    /// Loads a byte (`r_type` 0), a halfword (1) or a word (2) from `address`.
    /// An address outside every region is an unmapped access; the cartridge
    /// RAM takes bytes only.
    pub fn memory_read(&self, address: u32, r_type: u32) -> (r: Result<u32, EmuError>)
        requires
            self@.wf(),
            r_type <= 2,
        ensures
            r == self@.mem_read(address, r_type),
    {
        let (region, offset) = resolve_address(address)?;
        proof {
            lemma_resolve_offset(address);
            reveal(CpuState::region_read);
        }
        if region == Region::IoRegisters {
            Ok(self.io.io_read(address, r_type))
        } else if region == Region::GamePakSram && r_type != BYTE {
            Err(EmuError::InvariantViolation)
        } else if r_type == BYTE {
            Ok(self.load_byte(region, offset) as u32)
        } else if r_type == HALFWORD {
            let base = offset - offset % 2;
            let b0 = self.load_byte(region, base);
            let b1 = self.load_byte(region, base + 1);
            let h = (b0 as u32) | ((b1 as u32) << 8);
            if offset % 2 == 0 {
                Ok(h)
            } else {
                Ok(((h >> 8) & 0xFF) | ((h & 0xFF) << 8))
            }
        } else {
            let base = offset - offset % 4;
            let b0 = self.load_byte(region, base);
            let b1 = self.load_byte(region, base + 1);
            let b2 = self.load_byte(region, base + 2);
            let b3 = self.load_byte(region, base + 3);
            let w = (b0 as u32) | ((b1 as u32) << 8) | ((b2 as u32) << 16) | ((b3 as u32) << 24);
            Ok(rotate_right(w, 8 * (offset % 4)))
        }
    }

    /// Stores the low byte (`w_type` 0), halfword (1) or the whole (2) of
    /// `value` at `address`. A refused store leaves the machine as it was.
    pub fn memory_write(&mut self, address: u32, w_type: u32, value: u32) -> (r: Result<
        (),
        EmuError,
    >)
        requires
            old(self)@.wf(),
            w_type <= 2,
        ensures
            final(self)@.wf(),
            match old(self)@.mem_write(address, w_type, value) {
                Ok(s) => r is Ok && final(self)@ == s,
                Err(e) => r == Err::<(), EmuError>(e) && final(self)@ == old(self)@,
            },
    {
        if (w_type == HALFWORD && address % 2 != 0) || (w_type == WORD && address % 4 != 0) {
            return Err(EmuError::MisalignedAccess);
        }
        let (region, offset) = resolve_address(address)?;
        proof {
            lemma_resolve_offset(address);
            reveal(CpuState::store);
            reveal(CpuState::region_write);
        }
        if region == Region::GamePakRom {
            Err(EmuError::ReadOnly)
        } else if region == Region::IoRegisters {
            self.io.io_write(address, w_type, value);
            Ok(())
        } else if region == Region::GamePakSram && w_type != BYTE {
            Err(EmuError::InvariantViolation)
        } else {
            self.store_byte(region, offset, (value & 0xFF) as u8);
            if w_type != BYTE {
                self.store_byte(region, offset + 1, ((value >> 8) & 0xFF) as u8);
                if w_type != HALFWORD {
                    self.store_byte(region, offset + 2, ((value >> 16) & 0xFF) as u8);
                    self.store_byte(region, offset + 3, ((value >> 24) & 0xFF) as u8);
                }
            }
            Ok(())
        }
    }

    /// Takes an exception into `mode`, which has a saved status word, at
    /// `vector`.
    pub fn enter_exception(&mut self, mode: CPUMode, vector: u32, mask_fiq: bool)
        requires
            old(self)@.wf(),
            mode.has_spsr(),
        ensures
            final(self)@ == old(self)@.enter_exception(mode, vector, mask_fiq),
            final(self)@.wf(),
            final(self)@.mode() == mode,
    {
        let status = self.read_cpsr();
        let ret = self.pc();
        self.set_mode(mode);
        let saved = self.write_current_spsr(status);
        self.register_write_custom(14, ret, mode);
        self.set_state(false);
        self.set_irq_disable(true);
        if mask_fiq {
            self.set_fiq_disable(true);
        }
        self.register_write_custom(15, vector, mode);
        proof {
            let s0 = old(self)@.with_mode(mode);
            lemma_status_bits(s0.cpsr(), 0);
            lemma_status_bits(with_bits(s0.cpsr(), 0x20, false), 0);
            lemma_status_bits(with_bits(with_bits(s0.cpsr(), 0x20, false), 0x80, true), 0);
        }
    }
}

/// The machine after the interrupt lines have been looked at: a fast
/// interrupt request is taken where it is asserted and not disabled, else an
/// interrupt request where that is asserted and not disabled.
pub open spec fn interrupt_entry(st: CpuState) -> CpuState {
    if st.io.fiq_pending && st.cpsr() & 0x40 == 0 {
        st.enter_exception(CPUMode::FIQ, 0x1C, true)
    } else if st.io.irq_pending && st.cpsr() & 0x80 == 0 {
        st.enter_exception(CPUMode::IRQ, 0x18, false)
    } else {
        st
    }
}

/// The instruction at the program counter: a halfword in 16-bit code, a word
/// in 32-bit code, from the program counter with its low bits cleared.
pub open spec fn fetch(st: CpuState) -> Result<u32, EmuError> {
    if st.thumb() {
        st.mem_read((st.pc() - st.pc() % 2) as u32, HALFWORD)
    } else {
        st.mem_read((st.pc() - st.pc() % 4) as u32, WORD)
    }
}

/// Whether the condition of a 32-bit instruction holds in a state.
pub open spec fn condition_holds(st: CpuState, instruction: u32) -> bool {
    condition_table(
        instruction >> 28,
        st.flag(ConditionFlags::N),
        st.flag(ConditionFlags::Z),
        st.flag(ConditionFlags::C),
        st.flag(ConditionFlags::V),
    )
}

/// One cycle of the machine. A pending interrupt is taken first. Then the
/// instruction at the program counter is fetched and the branched flag
/// cleared; the instruction is executed, a 32-bit one only where its
/// condition holds; the program counter moves on by the width of the
/// instruction unless the instruction wrote it; and the cycle counter goes up
/// by one.
pub open spec fn cycle_step(st: CpuState) -> Result<CpuState, EmuError> {
    let entered = interrupt_entry(st);
    let thumb = entered.thumb();
    match fetch(entered) {
        Err(e) => Err(e),
        Ok(instruction) => {
            let ready = entered.with_branched(false);
            let executed = if thumb {
                thumb_step(ready, instruction)
            } else if condition_holds(ready, instruction) {
                arm_step(ready, instruction)
            } else {
                Ok(ready)
            };
            match executed {
                Err(e) => Err(e),
                Ok(done) => {
                    let moved = if done.branched {
                        done
                    } else {
                        done.advance_pc_by(
                            if thumb {
                                2
                            } else {
                                4
                            },
                        )
                    };
                    Ok(CpuState { cycles: moved.cycles.wrapping_add(1), ..moved })
                },
            }
        },
    }
}

impl CPU {
    /// Runs one cycle: takes a pending interrupt, fetches the instruction at
    /// the program counter, executes it and moves the program counter on.
    pub fn cycle(&mut self) -> (r: Result<(), EmuError>)
        requires
            old(self)@.wf(),
        ensures
            final(self)@.wf(),
            outcome_is(r, final(self)@, cycle_step(old(self)@)),
    {
        let (irq, fiq) = self.io.pending_interrupts();
        if fiq && !self.get_fiq_disable() {
            self.enter_exception(CPUMode::FIQ, 0x1C, true);
        } else if irq && !self.get_irq_disable() {
            self.enter_exception(CPUMode::IRQ, 0x18, false);
        }
        let thumb = self.get_state();
        let pc = self.pc();
        let instruction = if thumb {
            self.memory_read(pc - pc % 2, HALFWORD)?
        } else {
            self.memory_read(pc - pc % 4, WORD)?
        };
        self.set_branched(false);
        if thumb {
            process_instruction_thumb(self, instruction)?;
        } else if self.check_condition(instruction) {
            process_instruction_arm(self, instruction)?;
        }
        if !self.branched() {
            self.advance_pc_by(
                if thumb {
                    2
                } else {
                    4
                },
            );
        }
        self.cycles = self.cycles.wrapping_add(1);
        Ok(())
    }
}

/// Evaluates a condition code over the four flags. The three high bits of the
/// code pick a test, the low bit inverts it; the last pair is "always" and
/// "never".
pub fn evaluate_condition(code: u32, n: bool, z: bool, c: bool, v: bool) -> (holds: bool)
    requires
        code <= 15,
    ensures
        holds == condition_table(code, n, z, c, v),
{
    let test = code / 2;
    let invert = code % 2 == 1;
    if test == 7 {
        !invert
    } else {
        let base = if test == 0 {
            z
        } else if test == 1 {
            c
        } else if test == 2 {
            n
        } else if test == 3 {
            v
        } else if test == 4 {
            c && !z
        } else if test == 5 {
            n == v
        } else {
            !z && n == v
        };
        base != invert
    }
}

} // verus!
