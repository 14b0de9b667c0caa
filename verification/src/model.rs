//! The machine as a mathematical value: what the contracts of the interpreter
//! speak of.

use vstd::prelude::*;
use crate::cpu::{CPUMode, ConditionFlags};
use crate::error::EmuError;
use crate::memory::{
    half_of, lemma_bytes_round_trip, lemma_resolve_offset, resolve, swap_half, width_bytes,
    width_mask, word_of, Region, BYTE, HALFWORD, WORD,
};
use crate::util::ror32;

verus! {

/// Slot of the current program status word in the register file.
pub const CPSR_SLOT: usize = 31;

/// Bit of a status word that disables interrupt requests.
pub const IRQ_DISABLE: u32 = 0x80;

/// Bit of a status word that disables fast interrupt requests.
pub const FIQ_DISABLE: u32 = 0x40;

/// Bit of a status word that selects the 16-bit instruction set.
pub const THUMB_STATE: u32 = 0x20;

/// The bits of a status word that hold the mode code.
pub const MODE_BITS: u32 = 0x1F;

/// Whether a five-bit code names one of the seven modes.
pub open spec fn valid_mode_bits(code: u32) -> bool {
    code == 0x10 || code == 0x11 || code == 0x12 || code == 0x13 || code == 0x17 || code == 0x1B
        || code == 0x1F
}

/// The mode that a five-bit code names. A code that names none is read as
/// Undefined.
pub open spec fn mode_of_bits(code: u32) -> CPUMode {
    if code == 0x10 {
        CPUMode::User
    } else if code == 0x11 {
        CPUMode::FIQ
    } else if code == 0x12 {
        CPUMode::IRQ
    } else if code == 0x13 {
        CPUMode::Supervisor
    } else if code == 0x17 {
        CPUMode::Abort
    } else if code == 0x1F {
        CPUMode::System
    } else {
        CPUMode::Undefined
    }
}

/// The banking table: the slot of the register file that holds logical
/// register `r` in `mode`. Registers 0 to 7 and 15 are shared by all modes;
/// FIQ has its own 8 to 14, the other exception modes their own 13 and 14.
pub open spec fn bank_slot(mode: CPUMode, r: u32) -> int
    recommends
        r < 16,
{
    match mode {
        CPUMode::User | CPUMode::System => r as int,
        CPUMode::FIQ => if 8 <= r <= 14 {
            r + 8
        } else {
            r as int
        },
        CPUMode::IRQ => if 13 <= r <= 14 {
            r + 10
        } else {
            r as int
        },
        CPUMode::Supervisor => if 13 <= r <= 14 {
            r + 12
        } else {
            r as int
        },
        CPUMode::Abort => if 13 <= r <= 14 {
            r + 14
        } else {
            r as int
        },
        CPUMode::Undefined => if 13 <= r <= 14 {
            r + 16
        } else {
            r as int
        },
    }
}

/// A status word with the bits of `mask` set or cleared.
pub open spec fn with_bits(word: u32, mask: u32, set: bool) -> u32 {
    if set {
        word | mask
    } else {
        word & !mask
    }
}

/// The standard table of the sixteen condition codes over the four flags.
pub open spec fn condition_table(code: u32, n: bool, z: bool, c: bool, v: bool) -> bool {
    if code == 0 {
        z
    } else if code == 1 {
        !z
    } else if code == 2 {
        c
    } else if code == 3 {
        !c
    } else if code == 4 {
        n
    } else if code == 5 {
        !n
    } else if code == 6 {
        v
    } else if code == 7 {
        !v
    } else if code == 8 {
        c && !z
    } else if code == 9 {
        !c || z
    } else if code == 10 {
        n == v
    } else if code == 11 {
        n != v
    } else if code == 12 {
        !z && n == v
    } else if code == 13 {
        z || n != v
    } else if code == 14 {
        true
    } else {
        false
    }
}

/// The stand-in for the devices behind the I/O registers: it serves one
/// scripted value to every load, remembers the last store, and holds the two
/// interrupt lines.
#[derive(Clone, Copy, Debug)]
pub struct IoPort {
    /// Address, width and value of the last store to an I/O register.
    pub last_write: Option<(u32, u32, u32)>,
    /// The value that loads from I/O registers return.
    pub scripted_value: u32,
    /// Whether a device asserts the interrupt request line.
    pub irq_pending: bool,
    /// Whether a device asserts the fast interrupt request line.
    pub fiq_pending: bool,
}

impl IoPort {
    /// What a load of the given width from an I/O register returns: the
    /// scripted value, cut to the width.
    pub open spec fn load(self, width: u32) -> u32 {
        self.scripted_value & width_mask(width)
    }

    /// The port after a store to an I/O register: it remembers the store.
    pub open spec fn stored(self, addr: u32, width: u32, value: u32) -> IoPort {
        IoPort { last_write: Some((addr, width, value)), ..self }
    }

    /// A port that has seen no store, serves zero and asserts no interrupt.
    pub fn new() -> (port: IoPort)
        ensures
            port == (IoPort {
                last_write: None,
                scripted_value: 0,
                irq_pending: false,
                fiq_pending: false,
            }),
    {
        IoPort { last_write: None, scripted_value: 0, irq_pending: false, fiq_pending: false }
    }

    /// Serves a load of the given width from the I/O register at `addr`.
    pub fn io_read(&self, addr: u32, width: u32) -> (value: u32)
        ensures
            value == self.load(width),
    {
        let mask: u32 = if width == BYTE {
            0xFF
        } else if width == HALFWORD {
            0xFFFF
        } else {
            0xFFFF_FFFF
        };
        self.scripted_value & mask
    }

    /// Takes a store of the given width to the I/O register at `addr`.
    pub fn io_write(&mut self, addr: u32, width: u32, value: u32)
        ensures
            *final(self) == old(self).stored(addr, width, value),
    {
        self.last_write = Some((addr, width, value));
    }

    /// The interrupt lines: whether an interrupt request and whether a fast
    /// interrupt request is asserted.
    pub fn pending_interrupts(&self) -> (lines: (bool, bool))
        ensures
            lines == (self.irq_pending, self.fiq_pending),
    {
        (self.irq_pending, self.fiq_pending)
    }
}

/// The state of the machine.
pub struct CpuState {
    /// The 37 slots of the register file.
    pub regs: Seq<u32>,
    /// Whether the instruction under execution wrote the program counter.
    pub branched: bool,
    /// Instructions dispatched so far, modulo 2^64.
    pub cycles: u64,
    pub bios: Seq<u8>,
    pub board_ram: Seq<u8>,
    pub chip_ram: Seq<u8>,
    pub palette_ram: Seq<u8>,
    pub video_ram: Seq<u8>,
    pub obj_att: Seq<u8>,
    pub game_pak_ram: Seq<u8>,
    /// The ROM of the inserted cartridge; empty where there is none.
    pub rom: Seq<u8>,
    pub io: IoPort,
}

impl CpuState {
    /// The invariant of the machine: the register file has its 37 slots, the
    /// mode code of the current status word names a mode, and every region has
    /// its size.
    pub open spec fn wf(self) -> bool {
        &&& self.regs.len() == 37
        &&& valid_mode_bits(self.regs[31] & 0x1F)
        &&& self.bios.len() == 0x4000
        &&& self.board_ram.len() == 0x4_0000
        &&& self.chip_ram.len() == 0x8000
        &&& self.palette_ram.len() == 0x400
        &&& self.video_ram.len() == 0x1_8000
        &&& self.obj_att.len() == 0x400
        &&& self.game_pak_ram.len() == 0x1_0000
    }

    // ---- program status ----

    /// The current program status word.
    pub open spec fn cpsr(self) -> u32 {
        self.regs[31]
    }

    /// The mode that the current status word names.
    pub open spec fn mode(self) -> CPUMode {
        mode_of_bits(self.cpsr() & 0x1F)
    }

    /// Whether the machine runs 16-bit code.
    pub open spec fn thumb(self) -> bool {
        self.cpsr() & 0x20 != 0
    }

    /// Whether a condition flag is set.
    pub open spec fn flag(self, f: ConditionFlags) -> bool {
        self.cpsr() & f.mask() != 0
    }

    /// The current status word replaced.
    pub open spec fn with_cpsr(self, value: u32) -> CpuState {
        CpuState { regs: self.regs.update(31, value), ..self }
    }

    /// Bits of the current status word set or cleared.
    pub open spec fn with_cpsr_bits(self, mask: u32, set: bool) -> CpuState {
        self.with_cpsr(with_bits(self.cpsr(), mask, set))
    }

    /// One condition flag set or cleared.
    pub open spec fn with_flag(self, f: ConditionFlags, set: bool) -> CpuState {
        self.with_cpsr_bits(f.mask(), set)
    }

    /// The mode code of the current status word replaced.
    pub open spec fn with_mode(self, mode: CPUMode) -> CpuState {
        self.with_cpsr((self.cpsr() & !0x1Fu32) | mode.code())
    }

    /// N and Z taken from a result; C and V kept.
    pub open spec fn with_nz(self, result: u32) -> CpuState {
        self.with_flag(ConditionFlags::Z, result == 0).with_flag(
            ConditionFlags::N,
            result & 0x8000_0000 != 0,
        )
    }

    /// N and Z taken from a result, C and V as given.
    pub open spec fn with_nzcv(self, result: u32, carry: bool, overflow: bool) -> CpuState {
        self.with_nz(result).with_flag(ConditionFlags::V, overflow).with_flag(
            ConditionFlags::C,
            carry,
        )
    }

    /// The saved status word of the current mode. Meant for modes that have
    /// one.
    pub open spec fn spsr(self) -> u32 {
        self.regs[self.mode().spsr_slot()]
    }

    /// The saved status word of the current mode replaced.
    pub open spec fn with_spsr(self, value: u32) -> CpuState {
        CpuState { regs: self.regs.update(self.mode().spsr_slot(), value), ..self }
    }

    /// Writing the current status word: refused where the mode code of the new
    /// value names no mode.
    pub open spec fn write_cpsr(self, value: u32) -> Result<CpuState, EmuError> {
        if valid_mode_bits(value & 0x1F) {
            Ok(self.with_cpsr(value))
        } else {
            Err(EmuError::InvariantViolation)
        }
    }

    /// Copying the saved status word of the current mode into the current one.
    pub open spec fn restore_cpsr(self) -> Result<CpuState, EmuError> {
        if self.mode().has_spsr() {
            self.write_cpsr(self.spsr())
        } else {
            Err(EmuError::InvariantViolation)
        }
    }

    // ---- registers ----

    /// The program counter as it is stored.
    pub open spec fn pc(self) -> u32 {
        self.regs[15]
    }

    /// How far ahead of the stored program counter an instruction sees it.
    pub open spec fn prefetch(self) -> u32 {
        if self.thumb() {
            4
        } else {
            8
        }
    }

    /// The width of one instruction in the current state.
    pub open spec fn insn_width(self) -> u32 {
        if self.thumb() {
            2
        } else {
            4
        }
    }

    /// Logical register `r` as seen from `mode`; the program counter reads two
    /// instructions ahead.
    pub open spec fn read_in(self, r: u32, mode: CPUMode) -> u32 {
        if r == 15 {
            self.pc().wrapping_add(self.prefetch())
        } else {
            self.regs[bank_slot(mode, r)]
        }
    }

    /// Logical register `r` as seen from the current mode.
    pub open spec fn read(self, r: u32) -> u32 {
        self.read_in(r, self.mode())
    }

    /// Writing logical register `r` as seen from `mode`. A write to the
    /// program counter raises the branched flag.
    pub open spec fn write_in(self, r: u32, value: u32, mode: CPUMode) -> CpuState {
        CpuState {
            regs: self.regs.update(bank_slot(mode, r), value),
            branched: self.branched || r == 15,
            ..self
        }
    }

    /// Writing logical register `r` as seen from the current mode.
    pub open spec fn write(self, r: u32, value: u32) -> CpuState {
        self.write_in(r, value, self.mode())
    }

    /// Reading by register number as the decoders count them: 0 to 15 are the
    /// logical registers, 16 is the current status word and 17 the saved one
    /// of the current mode.
    pub open spec fn register(self, register: u32) -> Result<u32, EmuError> {
        if register < 16 {
            Ok(self.read(register))
        } else if register == 16 {
            Ok(self.cpsr())
        } else if register == 17 && self.mode().has_spsr() {
            Ok(self.spsr())
        } else {
            Err(EmuError::InvariantViolation)
        }
    }

    /// Writing by register number, counted as for `register`.
    pub open spec fn with_register(self, register: u32, value: u32) -> Result<CpuState, EmuError> {
        if register < 16 {
            Ok(self.write(register, value))
        } else if register == 16 {
            self.write_cpsr(value)
        } else if register == 17 && self.mode().has_spsr() {
            Ok(self.with_spsr(value))
        } else {
            Err(EmuError::InvariantViolation)
        }
    }

    /// The branched flag raised or cleared.
    pub open spec fn with_branched(self, branched: bool) -> CpuState {
        CpuState { branched, ..self }
    }

    /// The program counter moved on by `width` bytes.
    pub open spec fn advance_pc_by(self, width: u32) -> CpuState {
        CpuState { regs: self.regs.update(15, self.pc().wrapping_add(width)), ..self }
    }

    /// The program counter moved on by one instruction of the current state.
    pub open spec fn advance_pc(self) -> CpuState {
        self.advance_pc_by(self.insn_width())
    }

    /// Taking an exception: the current status word goes to the saved status
    /// word of the new mode, the stored program counter to its link register;
    /// the new mode runs 32-bit code with interrupt requests disabled, from the
    /// vector.
    pub open spec fn enter_exception(self, mode: CPUMode, vector: u32, mask_fiq: bool) -> CpuState
        recommends
            mode.has_spsr(),
    {
        let s = self.with_mode(mode).with_spsr(self.cpsr()).write_in(14, self.pc(), mode)
            .with_cpsr_bits(0x20, false).with_cpsr_bits(0x80, true);
        let s = if mask_fiq {
            s.with_cpsr_bits(0x40, true)
        } else {
            s
        };
        s.write_in(15, vector, mode)
    }

    // ---- memory ----

    /// The bytes that the interpreter holds for a region.
    pub open spec fn region_bytes(self, region: Region) -> Seq<u8> {
        match region {
            Region::Bios => self.bios,
            Region::BoardRam => self.board_ram,
            Region::ChipRam => self.chip_ram,
            Region::Palette => self.palette_ram,
            Region::VideoRam => self.video_ram,
            Region::ObjAttributes => self.obj_att,
            Region::GamePakSram => self.game_pak_ram,
            Region::GamePakRom => self.rom,
            Region::IoRegisters => Seq::empty(),
        }
    }

    /// The byte at `offset` of a region. The cartridge window reads as zero
    /// behind the end of the ROM.
    pub open spec fn byte(self, region: Region, offset: int) -> u8 {
        if 0 <= offset < self.region_bytes(region).len() {
            self.region_bytes(region)[offset]
        } else {
            0
        }
    }

    /// The little-endian halfword at `offset` of a region.
    pub open spec fn half_at(self, region: Region, offset: int) -> u32 {
        half_of(self.byte(region, offset), self.byte(region, offset + 1))
    }

    /// The little-endian word at `offset` of a region.
    pub open spec fn word_at(self, region: Region, offset: int) -> u32 {
        word_of(
            self.byte(region, offset),
            self.byte(region, offset + 1),
            self.byte(region, offset + 2),
            self.byte(region, offset + 3),
        )
    }

    /// One byte of a region replaced. Meant for the regions that are RAM.
    pub open spec fn with_byte(self, region: Region, offset: int, b: u8) -> CpuState {
        match region {
            Region::Bios => CpuState { bios: self.bios.update(offset, b), ..self },
            Region::BoardRam => CpuState { board_ram: self.board_ram.update(offset, b), ..self },
            Region::ChipRam => CpuState { chip_ram: self.chip_ram.update(offset, b), ..self },
            Region::Palette => CpuState { palette_ram: self.palette_ram.update(offset, b), ..self },
            Region::VideoRam => CpuState { video_ram: self.video_ram.update(offset, b), ..self },
            Region::ObjAttributes => CpuState { obj_att: self.obj_att.update(offset, b), ..self },
            Region::GamePakSram => CpuState {
                game_pak_ram: self.game_pak_ram.update(offset, b),
                ..self
            },
            _ => self,
        }
    }

    /// The low bytes of `value` stored at `offset` of a region, least
    /// significant byte first.
    #[verifier::opaque]
    pub open spec fn store(self, region: Region, offset: int, width: u32, value: u32) -> CpuState {
        let s = self.with_byte(region, offset, (value & 0xFF) as u8);
        if width == BYTE {
            s
        } else {
            let s = s.with_byte(region, offset + 1, ((value >> 8) & 0xFF) as u8);
            if width == HALFWORD {
                s
            } else {
                s.with_byte(region, offset + 2, ((value >> 16) & 0xFF) as u8).with_byte(
                    region,
                    offset + 3,
                    ((value >> 24) & 0xFF) as u8,
                )
            }
        }
    }

    /// What a load of the given width returns from `offset` of a region. A
    /// byte or halfword comes in the low bits with zeros above; a halfword at
    /// an odd offset is the halfword around it rotated by eight bits, a word
    /// at an unaligned offset the word around it rotated right by eight bits
    /// for each byte of misalignment. The I/O registers serve the scripted
    /// value, and the cartridge RAM gives bytes only.
    #[verifier::opaque]
    pub open spec fn region_read(self, region: Region, offset: u32, width: u32) -> Result<
        u32,
        EmuError,
    >
        recommends
            width <= 2,
    {
        if region == Region::IoRegisters {
            Ok(self.io.load(width))
        } else if region == Region::GamePakSram && width != BYTE {
            Err(EmuError::InvariantViolation)
        } else if width == BYTE {
            Ok(self.byte(region, offset as int) as u32)
        } else if width == HALFWORD {
            let h = self.half_at(region, offset - offset % 2);
            Ok(
                if offset % 2 == 0 {
                    h
                } else {
                    swap_half(h)
                },
            )
        } else {
            Ok(ror32(self.word_at(region, offset - offset % 4), (8 * (offset % 4)) as u32))
        }
    }

    /// What a load of the given width from `addr` returns: what its region
    /// gives, and an unmapped access where the address lies in no region.
    pub open spec fn mem_read(self, addr: u32, width: u32) -> Result<u32, EmuError>
        recommends
            width <= 2,
    {
        match resolve(addr) {
            None => Err(EmuError::UnmappedAccess),
            Some((region, offset)) => self.region_read(region, offset, width),
        }
    }

    /// What a store of the given width does at `offset` of a region. The
    /// game pak ROM is read-only, the I/O registers remember the store, the
    /// cartridge RAM takes bytes only, and every other region takes the
    /// transferred bytes.
    #[verifier::opaque]
    pub open spec fn region_write(
        self,
        addr: u32,
        region: Region,
        offset: u32,
        width: u32,
        value: u32,
    ) -> Result<CpuState, EmuError>
        recommends
            width <= 2,
    {
        if region == Region::GamePakRom {
            Err(EmuError::ReadOnly)
        } else if region == Region::IoRegisters {
            Ok(CpuState { io: self.io.stored(addr, width, value), ..self })
        } else if region == Region::GamePakSram && width != BYTE {
            Err(EmuError::InvariantViolation)
        } else {
            Ok(self.store(region, offset as int, width, value))
        }
    }

    /// What a store of the given width to `addr` does to the machine. A
    /// halfword or word store to an address with the wrong low bits is
    /// misaligned, and an address in no region an unmapped access.
    pub open spec fn mem_write(self, addr: u32, width: u32, value: u32) -> Result<
        CpuState,
        EmuError,
    >
        recommends
            width <= 2,
    {
        if (width == HALFWORD && addr % 2 != 0) || (width == WORD && addr % 4 != 0) {
            Err(EmuError::MisalignedAccess)
        } else {
            match resolve(addr) {
                None => Err(EmuError::UnmappedAccess),
                Some((region, offset)) => self.region_write(addr, region, offset, width, value),
            }
        }
    }
}

/// Whether an operation did what is asked of it: it succeeded and left
/// the machine in the state `expected`, or it failed with the error
/// `expected`.
pub open spec fn outcome_is(
    r: Result<(), EmuError>,
    after: CpuState,
    expected: Result<CpuState, EmuError>,
) -> bool {
    match expected {
        Ok(st) => r is Ok && after == st,
        Err(e) => r == Err::<(), EmuError>(e),
    }
}

/// The state of a machine that has just been switched on: User mode, 32-bit
/// code, every register and every byte of memory zero, no cartridge.
pub open spec fn reset_state() -> CpuState {
    CpuState {
        regs: Seq::new(37, |i: int| if i == 31 { 0x10u32 } else { 0u32 }),
        branched: false,
        cycles: 0,
        bios: Seq::new(0x4000, |i: int| 0u8),
        board_ram: Seq::new(0x4_0000, |i: int| 0u8),
        chip_ram: Seq::new(0x8000, |i: int| 0u8),
        palette_ram: Seq::new(0x400, |i: int| 0u8),
        video_ram: Seq::new(0x1_8000, |i: int| 0u8),
        obj_att: Seq::new(0x400, |i: int| 0u8),
        game_pak_ram: Seq::new(0x1_0000, |i: int| 0u8),
        rom: Seq::empty(),
        io: IoPort { last_write: None, scripted_value: 0, irq_pending: false, fiq_pending: false },
    }
}

/// Setting or clearing flag and control bits of a status word leaves the mode
/// code alone, and replacing the mode code leaves the other bits alone.
pub proof fn lemma_status_bits(word: u32, code: u32)
    by (bit_vector)
    ensures
        (word | 0x8000_0000) & 0x1F == word & 0x1F,
        (word & !0x8000_0000u32) & 0x1F == word & 0x1F,
        (word | 0x4000_0000) & 0x1F == word & 0x1F,
        (word & !0x4000_0000u32) & 0x1F == word & 0x1F,
        (word | 0x2000_0000) & 0x1F == word & 0x1F,
        (word & !0x2000_0000u32) & 0x1F == word & 0x1F,
        (word | 0x1000_0000) & 0x1F == word & 0x1F,
        (word & !0x1000_0000u32) & 0x1F == word & 0x1F,
        (word | 0x80) & 0x1F == word & 0x1F,
        (word & !0x80u32) & 0x1F == word & 0x1F,
        (word | 0x40) & 0x1F == word & 0x1F,
        (word & !0x40u32) & 0x1F == word & 0x1F,
        (word | 0x20) & 0x1F == word & 0x1F,
        (word & !0x20u32) & 0x1F == word & 0x1F,
        code <= 0x1F ==> ((word & !0x1Fu32) | code) & 0x1F == code,
        code <= 0x1F ==> ((word & !0x1Fu32) | code) & !0x1Fu32 == word & !0x1Fu32,
        word & 0x1F <= 0x1F,
{
}

// ---- the register file ----
/// Whether two modes see the same stack pointer and link register.
pub open spec fn same_bank(a: CPUMode, b: CPUMode) -> bool {
    a == b || (!a.has_spsr() && !b.has_spsr())
}

/// The banking table names a slot of the register file for every register
/// and mode, and never one of the status words. Within a mode no two
/// registers share a slot. Across modes, registers 0 to 7 and the program
/// counter are shared by all; 8 to 12 are shared by all modes but FIQ; the
/// stack pointer and the link register are shared only by User and System.
pub proof fn lemma_banking(a: CPUMode, b: CPUMode, r: u32, q: u32)
    requires
        r < 16,
        q < 16,
    ensures
        0 <= bank_slot(a, r) < 31,
        bank_slot(a, r) == bank_slot(a, q) <==> r == q,
        bank_slot(a, r) == bank_slot(b, q) ==> r == q,
        bank_slot(a, r) == bank_slot(b, r) <==> (r < 8 || r == 15 || same_bank(a, b) || (r < 13
            && a != CPUMode::FIQ && b != CPUMode::FIQ)),
{
}

/// Writing a register and reading it back in the same mode gives the value
/// written, for every register but the program counter, which reads ahead of
/// what is stored. The write changes the one slot that the banking table
/// names and no other, so a register of another mode that has a slot of its
/// own reads as before.
pub proof fn lemma_register_round_trip(st: CpuState, r: u32, value: u32, mode: CPUMode)
    requires
        st.regs.len() == 37,
        r < 16,
    ensures
        r != 15 ==> st.write_in(r, value, mode).read_in(r, mode) == value,
        st.write_in(r, value, mode).pc() == if r == 15 {
            value
        } else {
            st.pc()
        },
        st.write_in(r, value, mode).regs.len() == 37,
        forall|i: int|
            0 <= i < 37 && i != bank_slot(mode, r) ==> st.write_in(r, value, mode).regs[i]
                == st.regs[i],
        forall|q: u32, other: CPUMode|
            q < 16 && bank_slot(other, q) != bank_slot(mode, r) && r != 15 ==> st.write_in(
                r,
                value,
                mode,
            ).read_in(q, other) == st.read_in(q, other),
        st.write_in(r, value, mode).cpsr() == st.cpsr(),
{
    let after = st.write_in(r, value, mode);
    assert(after.cpsr() == st.cpsr());
    assert forall|q: u32, other: CPUMode|
        q < 16 && bank_slot(other, q) != bank_slot(mode, r) && r != 15 implies after.read_in(
        q,
        other,
    ) == st.read_in(q, other) by {
        lemma_banking(other, mode, q, r);
    }
}

// ---- memory ----
/// Whether two machines hold the same bytes in every region.
pub open spec fn same_memory(a: CpuState, b: CpuState) -> bool {
    &&& a.bios == b.bios
    &&& a.board_ram == b.board_ram
    &&& a.chip_ram == b.chip_ram
    &&& a.palette_ram == b.palette_ram
    &&& a.video_ram == b.video_ram
    &&& a.obj_att == b.obj_att
    &&& a.game_pak_ram == b.game_pak_ram
    &&& a.rom == b.rom
}

/// Whether a store of the given width to `addr` goes to memory that the
/// interpreter holds, and is let through.
pub open spec fn stores_to_ram(addr: u32, width: u32) -> bool {
    &&& width <= 2
    &&& width == HALFWORD ==> addr % 2 == 0
    &&& width == WORD ==> addr % 4 == 0
    &&& resolve(addr) is Some
    &&& resolve(addr)->Some_0.0.is_ram()
    &&& resolve(addr)->Some_0.0 == Region::GamePakSram ==> width == BYTE
}

/// A store to RAM succeeds, keeps the machine well formed, and touches
/// nothing but the bytes of its own region.
pub proof fn lemma_store_succeeds(st: CpuState, addr: u32, width: u32, value: u32)
    requires
        st.wf(),
        stores_to_ram(addr, width),
    ensures
        st.mem_write(addr, width, value) is Ok,
        st.mem_write(addr, width, value)->Ok_0.wf(),
        st.mem_write(addr, width, value)->Ok_0.regs == st.regs,
        st.mem_write(addr, width, value)->Ok_0.io == st.io,
        st.mem_write(addr, width, value)->Ok_0.rom == st.rom,
        st.mem_write(addr, width, value)->Ok_0.branched == st.branched,
        st.mem_write(addr, width, value)->Ok_0.cycles == st.cycles,
{
    lemma_resolve_offset(addr);
    reveal(CpuState::store);
    reveal(CpuState::region_write);
}

/// The byte at `offset` of a region after bytes of that region have been
/// stored: the stored byte where `offset` is one of its places, the old byte
/// elsewhere.
proof fn lemma_store_bytes(
    st: CpuState,
    region: Region,
    offset: int,
    width: u32,
    value: u32,
    at: int,
)
    requires
        st.wf(),
        region.is_ram(),
        width <= 2,
        0 <= offset,
        offset + width_bytes(width) <= region.size(),
        0 <= at < region.size(),
    ensures
        st.store(region, offset, width, value).byte(region, at) == if at == offset {
            (value & 0xFF) as u8
        } else if at == offset + 1 && width >= 1 {
            ((value >> 8) & 0xFF) as u8
        } else if at == offset + 2 && width == 2 {
            ((value >> 16) & 0xFF) as u8
        } else if at == offset + 3 && width == 2 {
            ((value >> 24) & 0xFF) as u8
        } else {
            st.byte(region, at)
        },
        forall|other: Region|
            other != region ==> st.store(region, offset, width, value).region_bytes(other)
                == st.region_bytes(other),
        st.store(region, offset, width, value).region_bytes(region).len() == st.region_bytes(
            region,
        ).len(),
        st.store(region, offset, width, value).wf(),
        st.store(region, offset, width, value).io == st.io,
        st.store(region, offset, width, value).regs == st.regs,
        st.store(region, offset, width, value).rom == st.rom,
        st.store(region, offset, width, value).branched == st.branched,
        st.store(region, offset, width, value).cycles == st.cycles,
{
    reveal(CpuState::store);
}

/// A load from a region right after a store to the same place returns the
/// bits of the value that the store transferred.
proof fn lemma_region_write_then_read(
    st: CpuState,
    region: Region,
    offset: u32,
    width: u32,
    value: u32,
)
    requires
        st.wf(),
        region.is_ram(),
        width <= 2,
        width == HALFWORD ==> offset % 2 == 0,
        width == WORD ==> offset % 4 == 0,
        offset + width_bytes(width) <= region.size(),
        region == Region::GamePakSram ==> width == BYTE,
    ensures
        st.store(region, offset as int, width, value).region_read(region, offset, width) == Ok::<
            u32,
            EmuError,
        >(value & width_mask(width)),
{
    reveal(CpuState::region_read);
    lemma_bytes_round_trip(value);
    let offset = offset as int;
    lemma_store_bytes(st, region, offset, width, value, offset);
    if width >= 1 {
        lemma_store_bytes(st, region, offset, width, value, offset + 1);
    }
    if width == 2 {
        lemma_store_bytes(st, region, offset, width, value, offset + 2);
        lemma_store_bytes(st, region, offset, width, value, offset + 3);
    }
}

/// A load of the given width from RAM right after a store of the same width
/// to the same address returns the bits of the value that the store
/// transferred.
pub proof fn lemma_write_then_read(st: CpuState, addr: u32, width: u32, value: u32)
    requires
        st.wf(),
        stores_to_ram(addr, width),
    ensures
        st.mem_write(addr, width, value) is Ok,
        st.mem_write(addr, width, value)->Ok_0.mem_read(addr, width) == Ok::<u32, EmuError>(
            value & width_mask(width),
        ),
{
    lemma_resolve_offset(addr);
    reveal(CpuState::region_write);
    lemma_region_write_then_read(
        st,
        resolve(addr)->Some_0.0,
        resolve(addr)->Some_0.1,
        width,
        value,
    );
}

/// The first byte that a load of the given width from `addr` looks at: the
/// address with the low bits cleared that the width does not address.
pub open spec fn load_base(addr: u32, width: u32) -> int {
    if width == BYTE {
        addr as int
    } else if width == HALFWORD {
        addr - addr % 2
    } else {
        addr - addr % 4
    }
}

/// A store to a region does not change what a load from another region
/// returns, nor a load from the same region whose bytes lie apart from the
/// bytes stored.
proof fn lemma_region_read_after_store(
    st: CpuState,
    region: Region,
    offset: u32,
    width: u32,
    value: u32,
    other_region: Region,
    other_offset: u32,
    other_width: u32,
)
    requires
        st.wf(),
        region.is_ram(),
        width <= 2,
        other_width <= 2,
        offset + width_bytes(width) <= region.size(),
        other_offset < other_region.size(),
        other_region != Region::IoRegisters ==> other_region.size() % 4 == 0,
        other_region != region || offset + width_bytes(width) <= load_base(
            other_offset,
            other_width,
        ) || load_base(other_offset, other_width) + width_bytes(other_width) <= offset,
    ensures
        st.store(region, offset as int, width, value).region_read(
            other_region,
            other_offset,
            other_width,
        ) == st.region_read(other_region, other_offset, other_width),
{
    reveal(CpuState::region_read);
    let base = load_base(other_offset, other_width);
    if other_region == region {
        lemma_store_bytes(st, region, offset as int, width, value, base);
        if other_width >= 1 {
            lemma_store_bytes(st, region, offset as int, width, value, base + 1);
        }
        if other_width == 2 {
            lemma_store_bytes(st, region, offset as int, width, value, base + 2);
            lemma_store_bytes(st, region, offset as int, width, value, base + 3);
        }
    } else {
        lemma_store_bytes(st, region, offset as int, width, value, offset as int);
    }
}

/// A store does not change what a load returns whose bytes lie apart from
/// the bytes stored.
pub proof fn lemma_read_after_write_elsewhere(
    st: CpuState,
    addr: u32,
    width: u32,
    value: u32,
    other: u32,
    other_width: u32,
)
    requires
        st.wf(),
        width <= 2,
        other_width <= 2,
        st.mem_write(addr, width, value) is Ok,
        addr + width_bytes(width) <= load_base(other, other_width) || load_base(other, other_width)
            + width_bytes(other_width) <= addr,
    ensures
        st.mem_write(addr, width, value)->Ok_0.mem_read(other, other_width) == st.mem_read(
            other,
            other_width,
        ),
{
    if resolve(other) is Some {
        lemma_resolve_offset(addr);
        lemma_resolve_offset(other);
        let region = resolve(addr)->Some_0.0;
        let offset = resolve(addr)->Some_0.1;
        let other_region = resolve(other)->Some_0.0;
        let other_offset = resolve(other)->Some_0.1;
        reveal(CpuState::region_write);
        if region.is_ram() {
            lemma_region_read_after_store(
                st,
                region,
                offset,
                width,
                value,
                other_region,
                other_offset,
                other_width,
            );
        } else {
            reveal(CpuState::region_read);
        }
    }
}

/// What a load from memory that the interpreter holds returns depends on the
/// bytes of memory alone.
pub proof fn lemma_read_same_memory(a: CpuState, b: CpuState, addr: u32, width: u32)
    requires
        same_memory(a, b),
        resolve(addr) is Some ==> resolve(addr)->Some_0.0 != Region::IoRegisters,
    ensures
        a.mem_read(addr, width) == b.mem_read(addr, width),
{
    reveal(CpuState::region_read);
}

proof fn lemma_stores_commute(
    st: CpuState,
    region: Region,
    offset: int,
    width: u32,
    value: u32,
    other_region: Region,
    other_offset: int,
    other_width: u32,
    other_value: u32,
)
    requires
        st.wf(),
        region.is_ram(),
        other_region.is_ram(),
        width <= 2,
        other_width <= 2,
        0 <= offset,
        offset + width_bytes(width) <= region.size(),
        0 <= other_offset,
        other_offset + width_bytes(other_width) <= other_region.size(),
        region != other_region || offset + width_bytes(width) <= other_offset || other_offset
            + width_bytes(other_width) <= offset,
    ensures
        st.store(region, offset, width, value).store(
            other_region,
            other_offset,
            other_width,
            other_value,
        ) == st.store(other_region, other_offset, other_width, other_value).store(
            region,
            offset,
            width,
            value,
        ),
{
    let first = st.store(region, offset, width, value);
    let left = first.store(other_region, other_offset, other_width, other_value);
    let second = st.store(other_region, other_offset, other_width, other_value);
    let right = second.store(region, offset, width, value);
    lemma_store_bytes(st, region, offset, width, value, offset);
    lemma_store_bytes(first, other_region, other_offset, other_width, other_value, other_offset);
    lemma_store_bytes(st, other_region, other_offset, other_width, other_value, other_offset);
    lemma_store_bytes(second, region, offset, width, value, offset);
    assert forall|rg: Region, at: int| rg.is_ram() && 0 <= at < rg.size() implies left.byte(rg, at)
        == right.byte(rg, at) by {
        if rg == region {
            lemma_store_bytes(st, region, offset, width, value, at);
            lemma_store_bytes(second, region, offset, width, value, at);
        }
        if rg == other_region {
            lemma_store_bytes(first, other_region, other_offset, other_width, other_value, at);
            lemma_store_bytes(st, other_region, other_offset, other_width, other_value, at);
        }
        if rg != region {
            assert(first.region_bytes(rg) == st.region_bytes(rg));
            assert(right.region_bytes(rg) == second.region_bytes(rg));
        }
        if rg != other_region {
            assert(left.region_bytes(rg) == first.region_bytes(rg));
            assert(second.region_bytes(rg) == st.region_bytes(rg));
        }
    }
    assert(left.bios =~= right.bios) by {
        assert forall|at: int| 0 <= at < 0x4000 implies left.bios[at] == right.bios[at] by {
            assert(left.byte(Region::Bios, at) == right.byte(Region::Bios, at));
        }
    }
    assert(left.board_ram =~= right.board_ram) by {
        assert forall|at: int| 0 <= at < 0x4_0000 implies left.board_ram[at]
            == right.board_ram[at] by {
            assert(left.byte(Region::BoardRam, at) == right.byte(Region::BoardRam, at));
        }
    }
    assert(left.chip_ram =~= right.chip_ram) by {
        assert forall|at: int| 0 <= at < 0x8000 implies left.chip_ram[at] == right.chip_ram[at] by {
            assert(left.byte(Region::ChipRam, at) == right.byte(Region::ChipRam, at));
        }
    }
    assert(left.palette_ram =~= right.palette_ram) by {
        assert forall|at: int| 0 <= at < 0x400 implies left.palette_ram[at]
            == right.palette_ram[at] by {
            assert(left.byte(Region::Palette, at) == right.byte(Region::Palette, at));
        }
    }
    assert(left.video_ram =~= right.video_ram) by {
        assert forall|at: int| 0 <= at < 0x1_8000 implies left.video_ram[at]
            == right.video_ram[at] by {
            assert(left.byte(Region::VideoRam, at) == right.byte(Region::VideoRam, at));
        }
    }
    assert(left.obj_att =~= right.obj_att) by {
        assert forall|at: int| 0 <= at < 0x400 implies left.obj_att[at] == right.obj_att[at] by {
            assert(left.byte(Region::ObjAttributes, at) == right.byte(Region::ObjAttributes, at));
        }
    }
    assert(left.game_pak_ram =~= right.game_pak_ram) by {
        assert forall|at: int| 0 <= at < 0x1_0000 implies left.game_pak_ram[at]
            == right.game_pak_ram[at] by {
            assert(left.byte(Region::GamePakSram, at) == right.byte(Region::GamePakSram, at));
        }
    }
}

/// Two stores to RAM whose bytes lie apart from each other give the same
/// machine in either order.
pub proof fn lemma_writes_elsewhere_commute(
    st: CpuState,
    addr: u32,
    width: u32,
    value: u32,
    other: u32,
    other_width: u32,
    other_value: u32,
)
    requires
        st.wf(),
        stores_to_ram(addr, width),
        stores_to_ram(other, other_width),
        addr + width_bytes(width) <= other || other + width_bytes(other_width) <= addr,
    ensures
        st.mem_write(addr, width, value) is Ok,
        st.mem_write(other, other_width, other_value) is Ok,
        st.mem_write(addr, width, value)->Ok_0.mem_write(other, other_width, other_value)
            == st.mem_write(other, other_width, other_value)->Ok_0.mem_write(addr, width, value),
{
    lemma_resolve_offset(addr);
    lemma_resolve_offset(other);
    lemma_store_succeeds(st, addr, width, value);
    lemma_store_succeeds(st, other, other_width, other_value);
    reveal(CpuState::region_write);
    lemma_stores_commute(
        st,
        resolve(addr)->Some_0.0,
        resolve(addr)->Some_0.1 as int,
        width,
        value,
        resolve(other)->Some_0.0,
        resolve(other)->Some_0.1 as int,
        other_width,
        other_value,
    );
}

} // verus!
