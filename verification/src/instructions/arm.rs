//! The 32-bit instruction set: what each instruction class does to the
//! machine, and the decoder that tells the classes apart.

use vstd::prelude::*;
use vstd::arithmetic::div_mod::{lemma_add_mod_noop, lemma_small_mod};
use crate::cpu::{CPUMode, ConditionFlags, CPU};
use crate::error::EmuError;
use crate::instructions::basic_ops::{
    alu, alu_state, alu_value, is_logical, is_test, logical_flag_helper, shift_on, shift_out,
    shift_state, signed, ROR,
};
use crate::instructions::masks_32bit::{B_15_0, B_31_28, B_7_0};
use crate::memory::{
    lemma_bytes_round_trip, lemma_resolve_offset, resolve, Region, BYTE, HALFWORD, WORD,
};
use crate::model::{
    lemma_banking, lemma_read_after_write_elsewhere, lemma_read_same_memory,
    lemma_store_succeeds, lemma_write_then_read, outcome_is, same_memory, stores_to_ram,
    CpuState,
};
use crate::util::{
    bit_of, bit_set, count_ones_below, field, lemma_ones_below_bound, lemma_ones_below_monotone,
    ones_below, ror32, rotate_right, sign_extend, sign_extended,
};

verus! {

/// The amount of a register shift: the low byte of the register in bits 11 to
/// 8 where bit 4 is set, else the five bits 11 to 7.
pub open spec fn shift_amount(st: CpuState, instruction: u32) -> u32 {
    if bit_of(instruction, 4) {
        st.read((instruction >> 8) & 0xF) & 0xFF
    } else {
        (instruction >> 7) & 0x1F
    }
}

/// Reads the amount of a register shift.
pub fn get_shift_amount(cpu: &mut CPU, instruction: u32) -> (amount: u32)
    ensures
        amount == shift_amount(old(cpu)@, instruction),
        final(cpu)@ == old(cpu)@,
{
    if bit_set(instruction, 4) {
        let shift_register = field(instruction, 8, 0xF);
        cpu.read_logical(shift_register) & B_7_0
    } else {
        field(instruction, 7, 0x1F)
    }
}

/// A class that is decoded but not executed.
pub fn placeholder_arm(cpu: &mut CPU, opcode: u32) -> (r: Result<(), EmuError>)
    ensures
        r == Err::<(), EmuError>(EmuError::Unimplemented),
        final(cpu)@ == old(cpu)@,
{
    Err(EmuError::Unimplemented)
}

// ---- data processing ----
/// The second operand of a data-processing instruction and the machine after
/// the shifter has produced it. An immediate is eight bits rotated right by
/// twice the four-bit rotate field, and untouched where that field is 0; a
/// register goes through the shifter. The carry flag takes the carry out of
/// the shifter where `set_carry` holds.
pub open spec fn operand2(st: CpuState, instruction: u32, set_carry: bool) -> (CpuState, u32) {
    let carry = st.flag(ConditionFlags::C);
    if bit_of(instruction, 25) {
        let rot = (instruction >> 8) & 0xF;
        let imm = (instruction >> 0) & 0xFF;
        if rot == 0 {
            (st, imm)
        } else {
            (
                shift_state(st, ROR, set_carry, imm, (2 * rot) as u32),
                shift_out(ROR, imm, (2 * rot) as u32, carry).0,
            )
        }
    } else {
        let value = st.read((instruction >> 0) & 0xF);
        let amount = shift_amount(st, instruction);
        let kind = (instruction >> 5) & 3;
        (shift_state(st, kind, set_carry, value, amount), shift_out(kind, value, amount, carry).0)
    }
}

/// What a data-processing instruction does. The carry out of the shifter
/// reaches the carry flag only for a logical operation that sets flags; the
/// four tests write no register; with the S bit set and the program counter
/// as destination the saved status word becomes the current one, which fails
/// in a mode that has none.
pub open spec fn data_processing_step(st: CpuState, instruction: u32) -> Result<
    CpuState,
    EmuError,
> {
    let s = bit_of(instruction, 20);
    let rn = (instruction >> 16) & 0xF;
    let rd = (instruction >> 12) & 0xF;
    let opcode = (instruction >> 21) & 0xF;
    let op1 = st.read(rn);
    let set_carry = (s || is_test(opcode)) && is_logical(opcode);
    let shifted = operand2(st, instruction, set_carry);
    let flagged = alu_state(shifted.0, opcode, s, op1, shifted.1);
    let res = alu_value(shifted.0, opcode, op1, shifted.1);
    let written = if is_test(opcode) {
        flagged
    } else {
        flagged.write(rd, res)
    };
    if s && rd == 15 {
        written.restore_cpsr()
    } else {
        Ok(written)
    }
}

fn is_logical_opcode(opcode: u32) -> (b: bool)
    ensures
        b == is_logical(opcode),
{
    opcode == 0 || opcode == 1 || opcode == 8 || opcode == 9 || opcode == 12 || opcode == 13
        || opcode == 14 || opcode == 15
}

fn is_test_opcode(opcode: u32) -> (b: bool)
    ensures
        b == is_test(opcode),
{
    8 <= opcode && opcode <= 11
}

/// Executes a data-processing instruction.
pub fn data_processing(cpu: &mut CPU, instruction: u32) -> (r: Result<(), EmuError>)
    requires
        old(cpu)@.wf(),
    ensures
        final(cpu)@.wf(),
        outcome_is(r, final(cpu)@, data_processing_step(old(cpu)@, instruction)),
{
    let i = bit_set(instruction, 25);
    let s = bit_set(instruction, 20);
    let rn = field(instruction, 16, 0xF);
    let rd = field(instruction, 12, 0xF);
    let opcode = field(instruction, 21, 0xF);
    let test = is_test_opcode(opcode);
    let set_carry = (s || test) && is_logical_opcode(opcode);

    let op1 = cpu.read_logical(rn);
    let op2;
    if i {
        let rotate = field(instruction, 8, 0xF);
        let immediate = field(instruction, 0, 0xFF);
        if rotate != 0 {
            op2 = shift_on(cpu, ROR, set_carry, immediate, rotate * 2);
        } else {
            op2 = immediate;
        }
    } else {
        let rm = field(instruction, 0, 0xF);
        let value = cpu.read_logical(rm);
        let shift_amount = get_shift_amount(cpu, instruction);
        let shift_type = field(instruction, 5, 3);
        op2 = shift_on(cpu, shift_type, set_carry, value, shift_amount);
    }
    let res = alu(cpu, opcode, s, op1, op2);
    if !test {
        cpu.write_logical(rd, res);
    }
    if s && rd == 15 {
        cpu.restore_cpsr()
    } else {
        Ok(())
    }
}

// ---- status register transfers ----
/// MRS: the current status word, or with bit 22 the saved one, goes to the
/// destination register.
pub open spec fn mrs_step(st: CpuState, instruction: u32) -> Result<CpuState, EmuError> {
    let rd = (instruction >> 12) & 0xF;
    if bit_of(instruction, 22) {
        if st.mode().has_spsr() {
            Ok(st.write(rd, st.spsr()))
        } else {
            Err(EmuError::InvariantViolation)
        }
    } else {
        Ok(st.write(rd, st.cpsr()))
    }
}

/// Executes a transfer from a status word to a register.
pub fn mrs(cpu: &mut CPU, instruction: u32) -> (r: Result<(), EmuError>)
    requires
        old(cpu)@.wf(),
    ensures
        final(cpu)@.wf(),
        outcome_is(r, final(cpu)@, mrs_step(old(cpu)@, instruction)),
        r is Err ==> final(cpu)@ == old(cpu)@,
{
    let rd = field(instruction, 12, 0xF);
    let value = if bit_set(instruction, 22) {
        cpu.read_current_spsr()?
    } else {
        cpu.read_cpsr()
    };
    cpu.write_logical(rd, value);
    Ok(())
}

/// MSR: a register goes to the current status word, or with bit 22 to the
/// saved one.
pub open spec fn msr_full_step(st: CpuState, instruction: u32) -> Result<CpuState, EmuError> {
    let value = st.read((instruction >> 0) & 0xF);
    if bit_of(instruction, 22) {
        if st.mode().has_spsr() {
            Ok(st.with_spsr(value))
        } else {
            Err(EmuError::InvariantViolation)
        }
    } else {
        st.write_cpsr(value)
    }
}

/// Executes a transfer from a register to a status word.
pub fn msr_full(cpu: &mut CPU, instruction: u32) -> (r: Result<(), EmuError>)
    requires
        old(cpu)@.wf(),
    ensures
        final(cpu)@.wf(),
        outcome_is(r, final(cpu)@, msr_full_step(old(cpu)@, instruction)),
        r is Err ==> final(cpu)@ == old(cpu)@,
{
    let rm = field(instruction, 0, 0xF);
    let value = cpu.read_logical(rm);
    if bit_set(instruction, 22) {
        cpu.write_current_spsr(value)
    } else {
        cpu.write_cpsr(value)
    }
}

/// The source of a flags-only MSR: eight bits rotated right by twice the
/// rotate field where bit 25 is set, else a register.
pub open spec fn msr_flags_source(st: CpuState, instruction: u32) -> u32 {
    if bit_of(instruction, 25) {
        ror32((instruction >> 0) & 0xFF, (2 * ((instruction >> 8) & 0xF)) as u32)
    } else {
        st.read((instruction >> 0) & 0xF)
    }
}

/// A status word with its four flag bits replaced by those of `source`.
pub open spec fn with_flags_of(word: u32, source: u32) -> u32 {
    (word & 0x0FFF_FFFF) | (source & 0xF000_0000)
}

/// MSR, flags only: bits 31 to 28 of the current status word, or with bit 22
/// of the saved one, are taken from the source.
pub open spec fn msr_flags_step(st: CpuState, instruction: u32) -> Result<CpuState, EmuError> {
    let source = msr_flags_source(st, instruction);
    if bit_of(instruction, 22) {
        if st.mode().has_spsr() {
            Ok(st.with_spsr(with_flags_of(st.spsr(), source)))
        } else {
            Err(EmuError::InvariantViolation)
        }
    } else {
        Ok(st.with_cpsr(with_flags_of(st.cpsr(), source)))
    }
}

proof fn lemma_flags_only(word: u32, source: u32)
    by (bit_vector)
    ensures
        ((word & 0x0FFF_FFFF) | (source & 0xF000_0000)) & 0x0FFF_FFFF == word & 0x0FFF_FFFF,
        ((word & 0x0FFF_FFFF) | (source & 0xF000_0000)) & 0xF000_0000 == source & 0xF000_0000,
        ((word & 0x0FFF_FFFF) | (source & 0xF000_0000)) & 0x1F == word & 0x1F,
{
}

/// A flags-only MSR changes bits 31 to 28 of its target and nothing else: the
/// low 28 bits of the target stay, its flag bits are those of the source, and
/// every other slot of the register file and all of memory stay as they were.
pub proof fn lemma_msr_flags_changes_flags_only(st: CpuState, instruction: u32)
    requires
        st.wf(),
        msr_flags_step(st, instruction) is Ok,
    ensures
        ({
            let after = msr_flags_step(st, instruction)->Ok_0;
            let target = if bit_of(instruction, 22) {
                st.mode().spsr_slot()
            } else {
                31
            };
            &&& after.regs[target] & 0x0FFF_FFFF == st.regs[target] & 0x0FFF_FFFF
            &&& after.regs[target] & 0xF000_0000 == msr_flags_source(st, instruction) & 0xF000_0000
            &&& after == CpuState { regs: st.regs.update(target, after.regs[target]), ..st }
            &&& after.wf()
        }),
{
    let source = msr_flags_source(st, instruction);
    lemma_flags_only(st.cpsr(), source);
    lemma_flags_only(st.spsr(), source);
}

/// Executes a transfer to the flag bits of a status word.
pub fn msr_flags(cpu: &mut CPU, instruction: u32) -> (r: Result<(), EmuError>)
    requires
        old(cpu)@.wf(),
    ensures
        final(cpu)@.wf(),
        outcome_is(r, final(cpu)@, msr_flags_step(old(cpu)@, instruction)),
        r is Err ==> final(cpu)@ == old(cpu)@,
{
    let op = if bit_set(instruction, 25) {
        let rotate = field(instruction, 8, 0xF);
        let immediate = field(instruction, 0, 0xFF);
        rotate_right(immediate, 2 * rotate)
    } else {
        cpu.read_logical(field(instruction, 0, 0xF))
    };
    if bit_set(instruction, 22) {
        let current = cpu.read_current_spsr()?;
        cpu.write_current_spsr((current & 0x0FFF_FFFF) | (op & B_31_28))
    } else {
        let current = cpu.read_cpsr();
        proof {
            lemma_flags_only(current, op);
        }
        cpu.write_cpsr((current & 0x0FFF_FFFF) | (op & B_31_28))
    }
}

// ---- branches ----
/// Branch and exchange: the program counter becomes the register with bit 0
/// cleared, and bit 0 of the register selects the instruction set.
pub open spec fn branch_and_exchange_step(st: CpuState, instruction: u32) -> CpuState {
    let target = st.read((instruction >> 0) & 0xF);
    st.write(15, target & !1u32).with_cpsr_bits(0x20, target & 1 != 0)
}

/// Executes a branch and exchange.
pub fn branch_and_exchange(cpu: &mut CPU, instruction: u32)
    requires
        old(cpu)@.wf(),
    ensures
        final(cpu)@.wf(),
        final(cpu)@ == branch_and_exchange_step(old(cpu)@, instruction),
{
    let rn = field(instruction, 0, 0xF);
    let target = cpu.read_logical(rn);
    cpu.write_logical(15, target & !1u32);
    cpu.set_state(target & 1 != 0);
}

/// The byte offset of a branch: its 24-bit field times four, as a two's
/// complement number of 26 bits.
pub open spec fn branch_offset(instruction: u32) -> u32 {
    sign_extended((((instruction >> 0) & 0x00FF_FFFF) << 2) & 0x03FF_FFFF, 26)
}

/// Branch: the offset is added to the stored program counter. With the link
/// bit the stored program counter goes to the link register first.
pub open spec fn branch_step(st: CpuState, instruction: u32) -> CpuState {
    let linked = if bit_of(instruction, 24) {
        st.write(14, st.pc())
    } else {
        st
    };
    linked.write(15, st.pc().wrapping_add(branch_offset(instruction)))
}

/// Executes a branch, with link where the instruction asks for it.
pub fn branch(cpu: &mut CPU, instruction: u32)
    requires
        old(cpu)@.wf(),
    ensures
        final(cpu)@.wf(),
        final(cpu)@ == branch_step(old(cpu)@, instruction),
{
    let pc = cpu.pc();
    if bit_set(instruction, 24) {
        cpu.write_logical(14, pc);
    }
    let offset = sign_extend((field(instruction, 0, 0x00FF_FFFF) << 2) & 0x03FF_FFFF, 26);
    cpu.write_logical(15, pc.wrapping_add(offset));
}

// ---- exceptions ----
/// Software interrupt: an exception into Supervisor mode at vector 0x08.
pub open spec fn software_interrupt_step(st: CpuState) -> CpuState {
    st.enter_exception(CPUMode::Supervisor, 0x08, false)
}

/// Executes a software interrupt.
pub fn software_interrupt(cpu: &mut CPU, _instruction: u32)
    requires
        old(cpu)@.wf(),
    ensures
        final(cpu)@.wf(),
        final(cpu)@ == software_interrupt_step(old(cpu)@),
{
    cpu.enter_exception(CPUMode::Supervisor, 0x08, false);
}

/// An undefined instruction: the machine switches to Undefined mode, the
/// stored program counter goes to the link register of that mode, and the
/// program counter to vector 0x04.
pub open spec fn undefined_step(st: CpuState) -> CpuState {
    st.with_mode(CPUMode::Undefined).write_in(14, st.pc(), CPUMode::Undefined).write_in(
        15,
        0x04,
        CPUMode::Undefined,
    )
}

/// Takes the undefined-instruction trap.
pub fn undefined(cpu: &mut CPU, instruction: u32)
    requires
        old(cpu)@.wf(),
    ensures
        final(cpu)@.wf(),
        final(cpu)@ == undefined_step(old(cpu)@),
{
    let ret = cpu.pc();
    cpu.set_mode(CPUMode::Undefined);
    cpu.register_write_custom(14, ret, CPUMode::Undefined);
    cpu.register_write_custom(15, 0x04, CPUMode::Undefined);
}

// ---- coprocessor ----
/// Coprocessor data operations are decoded and not executed.
pub fn coprocessor_data_operations(cpu: &mut CPU, instruction: u32) -> (r: Result<(), EmuError>)
    ensures
        r == Err::<(), EmuError>(EmuError::Unimplemented),
        final(cpu)@ == old(cpu)@,
{
    Err(EmuError::Unimplemented)
}

/// Coprocessor data transfers are decoded and not executed. One that asks for
/// write-back to the program counter breaks a rule of the architecture.
pub fn coprocessor_data_transfer(cpu: &mut CPU, instruction: u32) -> (r: Result<(), EmuError>)
    ensures
        r == Err::<(), EmuError>(
            if bit_of(instruction, 21) && (instruction >> 16) & 0xF == 15 {
                EmuError::InvariantViolation
            } else {
                EmuError::Unimplemented
            },
        ),
        final(cpu)@ == old(cpu)@,
{
    let w = bit_set(instruction, 21);
    let rn = field(instruction, 16, 0xF);
    if w && rn == 15 {
        Err(EmuError::InvariantViolation)
    } else {
        Err(EmuError::Unimplemented)
    }
}

/// Coprocessor register transfers are decoded and not executed.
pub fn coprocessor_register_transfer(cpu: &mut CPU, instruction: u32) -> (r: Result<
    (),
    EmuError,
>)
    ensures
        r == Err::<(), EmuError>(EmuError::Unimplemented),
        final(cpu)@ == old(cpu)@,
{
    Err(EmuError::Unimplemented)
}

// ---- multiply ----
/// Multiply, with accumulate where bit 21 is set, modulo 2^32. The program
/// counter in any register field, or one register as both destination and
/// first factor, is refused.
pub open spec fn multiply_step(st: CpuState, instruction: u32) -> Result<CpuState, EmuError> {
    let rd = (instruction >> 16) & 0xF;
    let rn = (instruction >> 12) & 0xF;
    let rs = (instruction >> 8) & 0xF;
    let rm = (instruction >> 0) & 0xF;
    if rd == rm || rd == 15 || rm == 15 || rs == 15 || rn == 15 {
        Err(EmuError::InvariantViolation)
    } else {
        let product = st.read(rm).wrapping_mul(st.read(rs));
        let res = if bit_of(instruction, 21) {
            product.wrapping_add(st.read(rn))
        } else {
            product
        };
        let flagged = if bit_of(instruction, 20) {
            st.with_nz(res)
        } else {
            st
        };
        Ok(flagged.write(rd, res))
    }
}

/// Executes a multiply or multiply-accumulate.
pub fn multiply(cpu: &mut CPU, instruction: u32) -> (r: Result<(), EmuError>)
    requires
        old(cpu)@.wf(),
    ensures
        final(cpu)@.wf(),
        outcome_is(r, final(cpu)@, multiply_step(old(cpu)@, instruction)),
        r is Err ==> final(cpu)@ == old(cpu)@,
{
    let accumulate = bit_set(instruction, 21);
    let s = bit_set(instruction, 20);
    let rd = field(instruction, 16, 0xF);
    let rn = field(instruction, 12, 0xF);
    let rs = field(instruction, 8, 0xF);
    let rm = field(instruction, 0, 0xF);
    if rd == rm || rd == 15 || rm == 15 || rs == 15 || rn == 15 {
        return Err(EmuError::InvariantViolation);
    }
    let product = cpu.read_logical(rm).wrapping_mul(cpu.read_logical(rs));
    let res = if accumulate {
        product.wrapping_add(cpu.read_logical(rn))
    } else {
        product
    };
    logical_flag_helper(cpu, s, res);
    cpu.write_logical(rd, res);
    Ok(())
}

// ---- single data transfer ----
/// The address that a transfer reaches from `base`: up or down by `offset`,
/// modulo 2^32.
pub open spec fn offset_address(base: u32, offset: u32, up: bool) -> u32 {
    if up {
        base.wrapping_add(offset)
    } else {
        base.wrapping_sub(offset)
    }
}

/// The offset of a single data transfer: a register through the shifter where
/// bit 25 is set, else the twelve low bits.
pub open spec fn transfer_offset(st: CpuState, instruction: u32) -> u32 {
    if bit_of(instruction, 25) {
        shift_out(
            (instruction >> 5) & 3,
            st.read((instruction >> 0) & 0xF),
            shift_amount(st, instruction),
            st.flag(ConditionFlags::C),
        ).0
    } else {
        (instruction >> 0) & 0xFFF
    }
}

/// Load or store of a byte or a word. With pre-indexing the transfer goes to
/// the base moved by the offset, with post-indexing to the base itself; the
/// moved base is written back after post-indexing and where the W bit asks
/// for it, before the transfer. A store of the program counter stores it
/// twelve bytes ahead.
pub open spec fn single_data_transfer_step(st: CpuState, instruction: u32) -> Result<
    CpuState,
    EmuError,
> {
    let p = bit_of(instruction, 24);
    let u = bit_of(instruction, 23);
    let width = if bit_of(instruction, 22) {
        BYTE
    } else {
        WORD
    };
    let w = bit_of(instruction, 21);
    let rn = (instruction >> 16) & 0xF;
    let rd = (instruction >> 12) & 0xF;
    if rn == 15 && w {
        Err(EmuError::InvariantViolation)
    } else if bit_of(instruction, 25) && (instruction >> 0) & 0xF == 15 {
        Err(EmuError::InvariantViolation)
    } else {
        let base = st.read(rn);
        let moved = offset_address(base, transfer_offset(st, instruction), u);
        let address = if p {
            moved
        } else {
            base
        };
        let based = if w || !p {
            st.write(rn, moved)
        } else {
            st
        };
        if bit_of(instruction, 20) {
            match based.mem_read(address, width) {
                Ok(value) => Ok(based.write(rd, value)),
                Err(e) => Err(e),
            }
        } else {
            let value = if rd == 15 {
                based.pc().wrapping_add(12)
            } else {
                based.read(rd)
            };
            based.mem_write(address, width, value)
        }
    }
}

/// Executes a load or store of a byte or a word.
pub fn single_data_transfer(cpu: &mut CPU, instruction: u32) -> (r: Result<(), EmuError>)
    requires
        old(cpu)@.wf(),
    ensures
        final(cpu)@.wf(),
        outcome_is(r, final(cpu)@, single_data_transfer_step(old(cpu)@, instruction)),
{
    let i = bit_set(instruction, 25);
    let p = bit_set(instruction, 24);
    let u = bit_set(instruction, 23);
    let b = bit_set(instruction, 22);
    let w = bit_set(instruction, 21);
    let l = bit_set(instruction, 20);
    let rn = field(instruction, 16, 0xF);
    let rd = field(instruction, 12, 0xF);
    let width = if b {
        BYTE
    } else {
        WORD
    };
    if rn == 15 && w {
        return Err(EmuError::InvariantViolation);
    }
    let base_address = cpu.read_logical(rn);
    let offset;
    if i {
        let rm = field(instruction, 0, 0xF);
        if rm == 15 {
            return Err(EmuError::InvariantViolation);
        }
        let offset_init_value = cpu.read_logical(rm);
        let shift_amount = get_shift_amount(cpu, instruction);
        let shift_type = field(instruction, 5, 3);
        offset = shift_on(cpu, shift_type, false, offset_init_value, shift_amount);
    } else {
        offset = field(instruction, 0, 0xFFF);
    }
    let offset_address = if u {
        base_address.wrapping_add(offset)
    } else {
        base_address.wrapping_sub(offset)
    };
    let address = if p {
        offset_address
    } else {
        base_address
    };
    if w || !p {
        cpu.write_logical(rn, offset_address);
    }
    if l {
        let load_value = cpu.memory_read(address, width)?;
        cpu.write_logical(rd, load_value);
        Ok(())
    } else {
        let store_value = if rd == 15 {
            cpu.pc().wrapping_add(12)
        } else {
            cpu.read_logical(rd)
        };
        cpu.memory_write(address, width, store_value)
    }
}

// ---- halfword and signed data transfer ----
/// The offset of a halfword or signed transfer: the two nibbles of the
/// instruction put together where bit 22 is set, else a register.
pub open spec fn halfword_offset(st: CpuState, instruction: u32) -> u32 {
    if bit_of(instruction, 22) {
        (((instruction >> 8) & 0xF) << 4) | ((instruction >> 0) & 0xF)
    } else {
        st.read((instruction >> 0) & 0xF)
    }
}

/// Load of a halfword, a signed halfword or a signed byte, or store of a
/// halfword; the addressing is that of the single data transfer. The S and H
/// bits both clear, or a store with the S bit set, is refused. A plain
/// halfword comes with zeros above it, a signed value with copies of its sign
/// bit.
pub open spec fn halfword_signed_data_transfer_step(st: CpuState, instruction: u32) -> Result<
    CpuState,
    EmuError,
> {
    let l = bit_of(instruction, 20);
    let w = bit_of(instruction, 21);
    let u = bit_of(instruction, 23);
    let p = bit_of(instruction, 24);
    let s = bit_of(instruction, 6);
    let h = bit_of(instruction, 5);
    let rn = (instruction >> 16) & 0xF;
    let rd = (instruction >> 12) & 0xF;
    if (!s && !h) || (s && !l) {
        Err(EmuError::InvariantViolation)
    } else {
        let base = st.read(rn);
        let moved = offset_address(base, halfword_offset(st, instruction), u);
        let address = if p {
            moved
        } else {
            base
        };
        let based = if w || !p {
            st.write(rn, moved)
        } else {
            st
        };
        if l {
            let width = if h {
                HALFWORD
            } else {
                BYTE
            };
            match based.mem_read(address, width) {
                Ok(value) => Ok(
                    based.write(
                        rd,
                        if !s {
                            value
                        } else if h {
                            sign_extended(value, 16)
                        } else {
                            sign_extended(value, 8)
                        },
                    ),
                ),
                Err(e) => Err(e),
            }
        } else {
            based.mem_write(address, HALFWORD, based.read(rd) & 0xFFFF)
        }
    }
}

/// Executes a load or store of a halfword, or a load of a signed byte or
/// halfword.
pub fn halfword_signed_data_transfer(cpu: &mut CPU, instruction: u32) -> (r: Result<(), EmuError>)
    requires
        old(cpu)@.wf(),
    ensures
        final(cpu)@.wf(),
        outcome_is(r, final(cpu)@, halfword_signed_data_transfer_step(old(cpu)@, instruction)),
{
    let l = bit_set(instruction, 20);
    let w = bit_set(instruction, 21);
    let i = bit_set(instruction, 22);
    let u = bit_set(instruction, 23);
    let p = bit_set(instruction, 24);
    let s = bit_set(instruction, 6);
    let h = bit_set(instruction, 5);
    if (!s && !h) || (s && !l) {
        return Err(EmuError::InvariantViolation);
    }
    let rn = field(instruction, 16, 0xF);
    let rd = field(instruction, 12, 0xF);
    let base_address = cpu.read_logical(rn);
    let offset = if i {
        let offset_lower = field(instruction, 0, 0xF);
        let offset_upper = field(instruction, 8, 0xF);
        (offset_upper << 4) | offset_lower
    } else {
        cpu.read_logical(field(instruction, 0, 0xF))
    };
    let offset_address = if u {
        base_address.wrapping_add(offset)
    } else {
        base_address.wrapping_sub(offset)
    };
    let address = if p {
        offset_address
    } else {
        base_address
    };
    if w || !p {
        cpu.write_logical(rn, offset_address);
    }
    if l {
        if s {
            if h {
                let load_data = cpu.memory_read(address, HALFWORD)?;
                cpu.write_logical(rd, sign_extend(load_data, 16));
            } else {
                let load_data = cpu.memory_read(address, BYTE)?;
                cpu.write_logical(rd, sign_extend(load_data, 8));
            }
        } else {
            let load_data = cpu.memory_read(address, HALFWORD)?;
            cpu.write_logical(rd, load_data);
        }
        Ok(())
    } else {
        let store_value = cpu.read_logical(rd) & B_15_0;
        cpu.memory_write(address, HALFWORD, store_value)
    }
}

// ---- single data swap ----
/// Swap of a byte or a word between a register and memory: the destination
/// takes what memory held at the address in the base register, and memory
/// takes the source register. The program counter in any field is refused.
pub open spec fn single_data_swap_step(st: CpuState, instruction: u32) -> Result<
    CpuState,
    EmuError,
> {
    let width = if bit_of(instruction, 22) {
        BYTE
    } else {
        WORD
    };
    let rn = (instruction >> 16) & 0xF;
    let rd = (instruction >> 12) & 0xF;
    let rm = (instruction >> 0) & 0xF;
    if rn == 15 || rd == 15 || rm == 15 {
        Err(EmuError::InvariantViolation)
    } else {
        let address = st.read(rn);
        match st.mem_read(address, width) {
            Err(e) => Err(e),
            Ok(held) => match st.mem_write(address, width, st.read(rm)) {
                Err(e) => Err(e),
                Ok(stored) => Ok(stored.write(rd, held)),
            },
        }
    }
}

/// Executes a swap between a register and memory.
pub fn single_data_swap(cpu: &mut CPU, instruction: u32) -> (r: Result<(), EmuError>)
    requires
        old(cpu)@.wf(),
    ensures
        final(cpu)@.wf(),
        outcome_is(r, final(cpu)@, single_data_swap_step(old(cpu)@, instruction)),
        r is Err ==> final(cpu)@ == old(cpu)@,
{
    let b = if bit_set(instruction, 22) {
        BYTE
    } else {
        WORD
    };
    let rn = field(instruction, 16, 0xF);
    let rd = field(instruction, 12, 0xF);
    let rm = field(instruction, 0, 0xF);
    if rn == 15 || rd == 15 || rm == 15 {
        return Err(EmuError::InvariantViolation);
    }
    let address = cpu.read_logical(rn);
    let memory_read = cpu.memory_read(address, b)?;
    let source = cpu.read_logical(rm);
    cpu.memory_write(address, b, source)?;
    cpu.write_logical(rd, memory_read);
    Ok(())
}

// ---- block data transfer ----
/// The mode whose registers a block transfer uses: User where the transfer
/// asks for the User bank, else the mode of the machine.
pub open spec fn transfer_mode(st: CpuState, user: bool) -> CPUMode {
    if user {
        CPUMode::User
    } else {
        st.mode()
    }
}

/// The transfers of a block, from register `i` upwards: every register of the
/// list, in ascending order, is loaded from or stored to the next word,
/// starting at `address`. With `user` the registers are those of User mode
/// whatever mode the machine is in. The first transfer that memory refuses
/// ends the series with its error.
pub open spec fn block_transfer(
    st: CpuState,
    list: u32,
    load: bool,
    user: bool,
    address: u32,
    i: u32,
) -> Result<CpuState, EmuError>
    decreases 16 - i,
{
    if i >= 16 {
        Ok(st)
    } else if !bit_of(list, i) {
        block_transfer(st, list, load, user, address, (i + 1) as u32)
    } else {
        let mode = transfer_mode(st, user);
        if load {
            match st.mem_read(address, WORD) {
                Err(e) => Err(e),
                Ok(value) => block_transfer(
                    st.write_in(i, value, mode),
                    list,
                    load,
                    user,
                    address.wrapping_add(4),
                    (i + 1) as u32,
                ),
            }
        } else {
            match st.mem_write(address, WORD, st.read_in(i, mode)) {
                Err(e) => Err(e),
                Ok(stored) => block_transfer(
                    stored,
                    list,
                    load,
                    user,
                    address.wrapping_add(4),
                    (i + 1) as u32,
                ),
            }
        }
    }
}

/// The lowest address of a block of `bytes` bytes at `base`: with U the block
/// lies above the base, without U below it, and P says whether the word at
/// the base itself is left out.
pub open spec fn block_start(base: u32, bytes: u32, p: bool, u: bool) -> u32 {
    if u {
        if p {
            base.wrapping_add(4)
        } else {
            base
        }
    } else {
        if p {
            base.wrapping_sub(bytes)
        } else {
            base.wrapping_sub(bytes).wrapping_add(4)
        }
    }
}

/// Load or store of the registers that bits 0 to 15 list, as words at
/// ascending addresses. The base moves by four bytes for each register of
/// the list and is written back, after the transfers, where the W bit is
/// set. With the S bit a load that includes the program counter ends by
/// making the saved status word the current one; any other transfer with the
/// S bit uses the registers of User mode. The program counter as base is
/// refused.
pub open spec fn block_data_transfer_step(st: CpuState, instruction: u32) -> Result<
    CpuState,
    EmuError,
> {
    let p = bit_of(instruction, 24);
    let u = bit_of(instruction, 23);
    let s = bit_of(instruction, 22);
    let w = bit_of(instruction, 21);
    let l = bit_of(instruction, 20);
    let rn = (instruction >> 16) & 0xF;
    let list = (instruction >> 0) & 0xFFFF;
    if rn == 15 {
        Err(EmuError::InvariantViolation)
    } else {
        let base = st.read(rn);
        let bytes = (4 * ones_below(list, 16)) as u32;
        let restore = s && l && bit_of(list, 15);
        match block_transfer(st, list, l, s && !restore, block_start(base, bytes, p, u), 0) {
            Err(e) => Err(e),
            Ok(moved) => {
                let based = if w {
                    moved.write(rn, offset_address(base, bytes, u))
                } else {
                    moved
                };
                if restore {
                    based.restore_cpsr()
                } else {
                    Ok(based)
                }
            },
        }
    }
}

/// Carries out the transfers of a block that starts at `start`.
pub fn transfer_block(cpu: &mut CPU, list: u32, load: bool, user: bool, start: u32) -> (r: Result<
    (),
    EmuError,
>)
    requires
        old(cpu)@.wf(),
    ensures
        final(cpu)@.wf(),
        outcome_is(r, final(cpu)@, block_transfer(old(cpu)@, list, load, user, start, 0)),
{
    let ghost before = cpu@;
    let mut cur_address = start;
    let mut i: u32 = 0;
    while i < 16
        invariant
            i <= 16,
            cpu@.wf(),
            before == old(cpu)@,
            block_transfer(cpu@, list, load, user, cur_address, i) == block_transfer(
                before,
                list,
                load,
                user,
                start,
                0,
            ),
        decreases 16 - i,
    {
        if bit_set(list, i) {
            let mode = if user {
                CPUMode::User
            } else {
                cpu.get_mode()
            };
            if load {
                let value = cpu.memory_read(cur_address, WORD)?;
                cpu.register_write_custom(i, value, mode);
            } else {
                let value = cpu.register_read_custom(i, mode);
                cpu.memory_write(cur_address, WORD, value)?;
            }
            cur_address = cur_address.wrapping_add(4);
        }
        i = i + 1;
    }
    Ok(())
}

/// Executes a load or store of a list of registers.
pub fn block_data_transfer(cpu: &mut CPU, instruction: u32) -> (r: Result<(), EmuError>)
    requires
        old(cpu)@.wf(),
    ensures
        final(cpu)@.wf(),
        outcome_is(r, final(cpu)@, block_data_transfer_step(old(cpu)@, instruction)),
{
    let p = bit_set(instruction, 24);
    let u = bit_set(instruction, 23);
    let s = bit_set(instruction, 22);
    let w = bit_set(instruction, 21);
    let l = bit_set(instruction, 20);
    let rn = field(instruction, 16, 0xF);
    let register_list = field(instruction, 0, 0xFFFF);
    if rn == 15 {
        return Err(EmuError::InvariantViolation);
    }
    let base_address = cpu.read_logical(rn);
    let bytes = 4 * count_ones_below(register_list, 16);
    let restore = s && l && bit_set(register_list, 15);
    let usermode_switch = s && !restore;
    let start = if u {
        if p {
            base_address.wrapping_add(4)
        } else {
            base_address
        }
    } else {
        if p {
            base_address.wrapping_sub(bytes)
        } else {
            base_address.wrapping_sub(bytes).wrapping_add(4)
        }
    };
    transfer_block(cpu, register_list, l, usermode_switch, start)?;
    if w {
        let moved = if u {
            base_address.wrapping_add(bytes)
        } else {
            base_address.wrapping_sub(bytes)
        };
        cpu.write_logical(rn, moved);
    }
    if restore {
        cpu.restore_cpsr()
    } else {
        Ok(())
    }
}

/// The number of registers of a list from register `i` upwards.
pub open spec fn listed_from(list: u32, i: u32) -> int {
    ones_below(list, 16) - ones_below(list, i as nat)
}

/// Whether a block of `bytes` bytes at `address` is made of whole words of
/// one region of RAM that takes words.
pub open spec fn block_in_ram(address: u32, bytes: int) -> bool {
    bytes == 0 || {
        &&& address % 4 == 0
        &&& resolve(address) is Some
        &&& resolve(address)->Some_0.0.is_ram()
        &&& resolve(address)->Some_0.0 != Region::GamePakSram
        &&& resolve(address)->Some_0.1 + bytes <= resolve(address)->Some_0.0.size()
    }
}

proof fn lemma_block_in_ram_step(address: u32, bytes: int)
    requires
        block_in_ram(address, bytes),
        bytes >= 4,
    ensures
        stores_to_ram(address, WORD),
        address.wrapping_add(4) == address + 4 || bytes == 4,
        block_in_ram(address.wrapping_add(4), bytes - 4),
        resolve(address)->Some_0.0 != Region::IoRegisters,
{
    lemma_resolve_offset(address);
}

/// A block store to RAM succeeds, leaves the registers alone, and leaves
/// every word below the block as it was.
proof fn lemma_block_store_frame(
    st: CpuState,
    list: u32,
    user: bool,
    address: u32,
    i: u32,
    below: u32,
)
    requires
        st.wf(),
        i <= 16,
        block_in_ram(address, 4 * listed_from(list, i)),
        below + 4 <= address,
    ensures
        block_transfer(st, list, false, user, address, i) is Ok,
        block_transfer(st, list, false, user, address, i)->Ok_0.wf(),
        block_transfer(st, list, false, user, address, i)->Ok_0.regs == st.regs,
        block_transfer(st, list, false, user, address, i)->Ok_0.mem_read(below, WORD)
            == st.mem_read(below, WORD),
    decreases 16 - i,
{
    if i < 16 {
        lemma_ones_below_monotone(list, (i + 1) as nat, 16);
        if bit_of(list, i) {
            let mode = if user {
                CPUMode::User
            } else {
                st.mode()
            };
            let value = st.read_in(i, mode);
            lemma_block_in_ram_step(address, 4 * listed_from(list, i));
            lemma_store_succeeds(st, address, WORD, value);
            let stored = st.mem_write(address, WORD, value)->Ok_0;
            lemma_read_after_write_elsewhere(st, address, WORD, value, below, WORD);
            if listed_from(list, (i + 1) as u32) > 0 {
                lemma_block_store_frame(
                    stored,
                    list,
                    user,
                    address.wrapping_add(4),
                    (i + 1) as u32,
                    below,
                );
            } else {
                lemma_block_store_empty(
                    stored,
                    list,
                    user,
                    address.wrapping_add(4),
                    (i + 1) as u32,
                );
            }
        } else {
            lemma_block_store_frame(st, list, user, address, (i + 1) as u32, below);
        }
    }
}

/// A block transfer of no registers does nothing.
proof fn lemma_block_store_empty(st: CpuState, list: u32, user: bool, address: u32, i: u32)
    requires
        i <= 16,
        listed_from(list, i) == 0,
    ensures
        block_transfer(st, list, false, user, address, i) == Ok::<CpuState, EmuError>(st),
        block_transfer(st, list, true, user, address, i) == Ok::<CpuState, EmuError>(st),
    decreases 16 - i,
{
    if i < 16 {
        lemma_ones_below_monotone(list, (i + 1) as nat, 16);
        lemma_block_store_empty(st, list, user, address, (i + 1) as u32);
    }
}

/// A block store followed by a block load of the same list from the same
/// address restores the registers of the list, whatever they held in
/// between: after the load each of them holds what it held before the store.
/// The block lies in RAM; the program counter, which is stored ahead of its
/// value, is not in the list; and the machine that loads, `other`, has the
/// memory that the store left and is in the mode of the machine that stored.
/// The load leaves the registers outside the list, the status word and
/// memory alone.
pub proof fn lemma_block_store_then_load(
    st: CpuState,
    other: CpuState,
    list: u32,
    user: bool,
    address: u32,
    i: u32,
)
    requires
        st.wf(),
        other.wf(),
        i <= 16,
        !bit_of(list, 15),
        block_in_ram(address, 4 * listed_from(list, i)),
        block_transfer(st, list, false, user, address, i) is Ok ==> same_memory(
            other,
            block_transfer(st, list, false, user, address, i)->Ok_0,
        ),
        other.mode() == st.mode(),
    ensures
        block_transfer(st, list, false, user, address, i) is Ok,
        block_transfer(other, list, true, user, address, i) is Ok,
        ({
            let loaded = block_transfer(other, list, true, user, address, i)->Ok_0;
            let mode = transfer_mode(st, user);
            &&& loaded.wf()
            &&& same_memory(loaded, other)
            &&& loaded.cpsr() == other.cpsr()
            &&& forall|r: u32|
                r < 15 ==> #[trigger] loaded.read_in(r, mode) == if i <= r && bit_of(list, r) {
                    st.read_in(r, mode)
                } else {
                    other.read_in(r, mode)
                }
        }),
    decreases 16 - i,
{
    let mode = transfer_mode(st, user);
    if i < 16 {
        lemma_ones_below_monotone(list, (i + 1) as nat, 16);
        if bit_of(list, i) {
            let value = st.read_in(i, mode);
            let next = address.wrapping_add(4);
            lemma_block_in_ram_step(address, 4 * listed_from(list, i));
            lemma_store_succeeds(st, address, WORD, value);
            lemma_write_then_read(st, address, WORD, value);
            lemma_bytes_round_trip(value);
            let stored = st.mem_write(address, WORD, value)->Ok_0;
            if listed_from(list, (i + 1) as u32) > 0 {
                lemma_block_store_frame(stored, list, user, next, (i + 1) as u32, address);
            } else {
                lemma_block_store_empty(stored, list, user, next, (i + 1) as u32);
            }
            let all_stored = block_transfer(stored, list, false, user, next, (i + 1) as u32)->Ok_0;
            assert(all_stored == block_transfer(st, list, false, user, address, i)->Ok_0);
            lemma_read_same_memory(other, all_stored, address, WORD);
            assert(other.mem_read(address, WORD) == Ok::<u32, EmuError>(value));
            let written = other.write_in(i, value, mode);
            assert(written.cpsr() == other.cpsr());
            assert(written.wf());
            lemma_block_store_then_load(stored, written, list, user, next, (i + 1) as u32);
            assert(transfer_mode(stored, user) == mode);
            let loaded = block_transfer(written, list, true, user, next, (i + 1) as u32)->Ok_0;
            assert(loaded == block_transfer(other, list, true, user, address, i)->Ok_0);
            assert forall|r: u32| r < 15 implies loaded.read_in(r, mode) == if i <= r && bit_of(
                list,
                r,
            ) {
                st.read_in(r, mode)
            } else {
                other.read_in(r, mode)
            } by {
                lemma_banking(mode, mode, r, i);
            }
        } else {
            lemma_block_store_then_load(st, other, list, user, address, (i + 1) as u32);
        }
    }
}

/// A store-multiple followed by a load-multiple with the same addressing
/// bits, base register and list, neither with write-back nor with the S bit,
/// restores the registers of the list: after the load each holds what it held
/// before the store, whatever it held in between. The base register and the
/// program counter are not in the list, the block lies in RAM, and the
/// machine that loads has the memory that the store left, the mode of the
/// machine that stored and the same base.
pub proof fn lemma_store_multiple_then_load_multiple(
    st: CpuState,
    other: CpuState,
    store: u32,
    load: u32,
)
    requires
        st.wf(),
        other.wf(),
        !bit_of(store, 20),
        bit_of(load, 20),
        bit_of(store, 24) == bit_of(load, 24),
        bit_of(store, 23) == bit_of(load, 23),
        !bit_of(store, 22) && !bit_of(load, 22),
        !bit_of(store, 21) && !bit_of(load, 21),
        (store >> 16) & 0xF == (load >> 16) & 0xF,
        (store >> 0) & 0xFFFF == (load >> 0) & 0xFFFF,
        (store >> 16) & 0xF != 15,
        !bit_of((store >> 0) & 0xFFFF, 15),
        !bit_of((store >> 0) & 0xFFFF, (store >> 16) & 0xF),
        block_in_ram(
            block_start(
                st.read((store >> 16) & 0xF),
                (4 * ones_below((store >> 0) & 0xFFFF, 16)) as u32,
                bit_of(store, 24),
                bit_of(store, 23),
            ),
            4 * listed_from((store >> 0) & 0xFFFF, 0),
        ),
        other.mode() == st.mode(),
        other.read((store >> 16) & 0xF) == st.read((store >> 16) & 0xF),
        block_data_transfer_step(st, store) is Ok ==> same_memory(
            other,
            block_data_transfer_step(st, store)->Ok_0,
        ),
    ensures
        block_data_transfer_step(st, store) is Ok,
        block_data_transfer_step(other, load) is Ok,
        forall|r: u32|
            r < 15 && bit_of((store >> 0) & 0xFFFF, r) ==> #[trigger] block_data_transfer_step(
                other,
                load,
            )->Ok_0.read(r) == st.read(r),
{
    let list = (store >> 0) & 0xFFFF;
    let rn = (store >> 16) & 0xF;
    let bytes = (4 * ones_below(list, 16)) as u32;
    lemma_ones_below_bound(list, 16);
    let start = block_start(st.read(rn), bytes, bit_of(store, 24), bit_of(store, 23));
    lemma_block_store_then_load(st, other, list, false, start, 0);
    let loaded = block_transfer(other, list, true, false, start, 0)->Ok_0;
    assert(block_data_transfer_step(other, load) == Ok::<CpuState, EmuError>(loaded));
    assert forall|r: u32| r < 15 && bit_of(list, r) implies #[trigger] loaded.read(r) == st.read(
        r,
    ) by {
        assert(loaded.read_in(r, transfer_mode(st, false)) == st.read_in(
            r,
            transfer_mode(st, false),
        ));
    }
}

// ---- multiply long ----
/// The product of two words read as unsigned or as two's complement numbers.
#[verifier::opaque]
pub open spec fn long_product(a: u32, b: u32, unsigned: bool) -> int {
    if unsigned {
        a * b
    } else {
        signed(a) * signed(b)
    }
}

/// The 64-bit result of a long multiply of `a` and `b`: the product, plus
/// the pair `hi`, `lo` where accumulation is asked for, modulo 2^64.
pub open spec fn long_total(
    a: u32,
    b: u32,
    unsigned: bool,
    accumulate: bool,
    hi: u32,
    lo: u32,
) -> int {
    let accumulated = if accumulate {
        hi * 0x1_0000_0000 + lo
    } else {
        0
    };
    (long_product(a, b, unsigned) + accumulated) % 0x1_0000_0000_0000_0000
}

/// The 64-bit result of a long multiply instruction. Bit 22 selects the
/// unsigned product, and bit 21 accumulation onto the destination pair.
pub open spec fn multiply_long_value(st: CpuState, instruction: u32) -> int {
    long_total(
        st.read((instruction >> 0) & 0xF),
        st.read((instruction >> 8) & 0xF),
        bit_of(instruction, 22),
        bit_of(instruction, 21),
        st.read((instruction >> 16) & 0xF),
        st.read((instruction >> 12) & 0xF),
    )
}

/// Long multiply: the high word of the result goes to one register and the
/// low word to another. With the S bit Z says that all 64 bits are zero and N
/// is bit 63; C and V stay. The two destinations and the first factor must be
/// three different registers, and the program counter is refused in every
/// field.
pub open spec fn multiply_long_step(st: CpuState, instruction: u32) -> Result<CpuState, EmuError> {
    let rd_hi = (instruction >> 16) & 0xF;
    let rd_lo = (instruction >> 12) & 0xF;
    let rs = (instruction >> 8) & 0xF;
    let rm = (instruction >> 0) & 0xF;
    if rd_hi == rd_lo || rd_hi == rm || rd_lo == rm || rd_hi == 15 || rd_lo == 15 || rs == 15 || rm
        == 15 {
        Err(EmuError::InvariantViolation)
    } else {
        let total = multiply_long_value(st, instruction);
        let flagged = if bit_of(instruction, 20) {
            st.with_flag(ConditionFlags::Z, total == 0).with_flag(
                ConditionFlags::N,
                total >= 0x8000_0000_0000_0000,
            )
        } else {
            st
        };
        Ok(
            flagged.write(rd_hi, (total / 0x1_0000_0000) as u32).write(
                rd_lo,
                (total % 0x1_0000_0000) as u32,
            ),
        )
    }
}

/// Multiplies two words as unsigned or as two's complement numbers, modulo
/// 2^64.
pub fn wide_product(a: u32, b: u32, unsigned: bool) -> (p: u64)
    ensures
        p == long_product(a, b, unsigned) % 0x1_0000_0000_0000_0000,
{
    reveal(long_product);
    assert(0 <= a * b <= 0xFFFF_FFFF * 0xFFFF_FFFF) by (nonlinear_arith)
        requires
            0 <= a <= 0xFFFF_FFFF,
            0 <= b <= 0xFFFF_FFFF,
    ;
    let plain: u64 = (a as u64) * (b as u64);
    if unsigned {
        plain
    } else {
        let a_part: u64 = if a >= 0x8000_0000 {
            (b as u64) * 0x1_0000_0000
        } else {
            0
        };
        let b_part: u64 = if b >= 0x8000_0000 {
            (a as u64) * 0x1_0000_0000
        } else {
            0
        };
        let corrected = plain.wrapping_sub(a_part).wrapping_sub(b_part);
        proof {
            let both: int = if a >= 0x8000_0000 && b >= 0x8000_0000 {
                0x1_0000_0000_0000_0000
            } else {
                0
            };
            assert(signed(a) * signed(b) == a * b - a_part - b_part + both) by (nonlinear_arith)
                requires
                    signed(a) == a - (if a >= 0x8000_0000 {
                        0x1_0000_0000int
                    } else {
                        0
                    }),
                    signed(b) == b - (if b >= 0x8000_0000 {
                        0x1_0000_0000int
                    } else {
                        0
                    }),
                    a_part == (if a >= 0x8000_0000 {
                        b * 0x1_0000_0000
                    } else {
                        0
                    }),
                    b_part == (if b >= 0x8000_0000 {
                        a * 0x1_0000_0000
                    } else {
                        0
                    }),
                    both == (if a >= 0x8000_0000 && b >= 0x8000_0000 {
                        0x1_0000_0000_0000_0000int
                    } else {
                        0
                    }),
            ;
        }
        corrected
    }
}

/// Multiplies two words into 64 bits and adds the pair `hi`, `lo` where
/// accumulation is asked for. Hands back the high and the low word of the
/// result, whether all of it is zero, and its top bit.
pub fn long_multiply(a: u32, b: u32, unsigned: bool, accumulate: bool, hi: u32, lo: u32) -> (out: (
    u32,
    u32,
    bool,
    bool,
))
    ensures
        out.0 == (long_total(a, b, unsigned, accumulate, hi, lo) / 0x1_0000_0000) as u32,
        out.1 == (long_total(a, b, unsigned, accumulate, hi, lo) % 0x1_0000_0000) as u32,
        out.2 == (long_total(a, b, unsigned, accumulate, hi, lo) == 0),
        out.3 == (long_total(a, b, unsigned, accumulate, hi, lo) >= 0x8000_0000_0000_0000),
{
    let prod = wide_product(a, b, unsigned);
    let add: u64 = if accumulate {
        (hi as u64) * 0x1_0000_0000 + (lo as u64)
    } else {
        0
    };
    let total = prod.wrapping_add(add);
    proof {
        let product = long_product(a, b, unsigned);
        lemma_add_mod_noop(product, add as int, 0x1_0000_0000_0000_0000);
        lemma_small_mod(add as nat, 0x1_0000_0000_0000_0000);
        assert(total == (prod + add) % 0x1_0000_0000_0000_0000);
    }
    (
        (total / 0x1_0000_0000) as u32,
        (total % 0x1_0000_0000) as u32,
        total == 0,
        total >= 0x8000_0000_0000_0000,
    )
}

/// Executes a long multiply or multiply-accumulate.
pub fn multiply_long(cpu: &mut CPU, instruction: u32) -> (r: Result<(), EmuError>)
    requires
        old(cpu)@.wf(),
    ensures
        final(cpu)@.wf(),
        outcome_is(r, final(cpu)@, multiply_long_step(old(cpu)@, instruction)),
        r is Err ==> final(cpu)@ == old(cpu)@,
{
    let unsigned = bit_set(instruction, 22);
    let accumulate = bit_set(instruction, 21);
    let s = bit_set(instruction, 20);
    let rd_hi = field(instruction, 16, 0xF);
    let rd_lo = field(instruction, 12, 0xF);
    let rs = field(instruction, 8, 0xF);
    let rm = field(instruction, 0, 0xF);
    if rd_hi == rd_lo || rd_hi == rm || rd_lo == rm {
        return Err(EmuError::InvariantViolation);
    } else if rd_hi == 15 || rd_lo == 15 || rs == 15 || rm == 15 {
        return Err(EmuError::InvariantViolation);
    }
    let (res_hi, res_lo, zero, negative) = long_multiply(
        cpu.read_logical(rm),
        cpu.read_logical(rs),
        unsigned,
        accumulate,
        cpu.read_logical(rd_hi),
        cpu.read_logical(rd_lo),
    );
    if s {
        cpu.set_condition_flag(ConditionFlags::Z, zero);
        cpu.set_condition_flag(ConditionFlags::N, negative);
    }
    cpu.write_logical(rd_hi, res_hi);
    cpu.write_logical(rd_lo, res_lo);
    Ok(())
}

// ---- decoder ----
/// The classes of 32-bit instructions.
#[derive(Clone, Copy, Debug, PartialEq, Eq, Structural)]
pub enum ArmClass {
    Mrs,
    MsrFull,
    MsrFlags,
    Multiply,
    MultiplyLong,
    SingleDataSwap,
    BranchAndExchange,
    HalfwordSignedDataTransfer,
    DataProcessing,
    SingleDataTransfer,
    Undefined,
    BlockDataTransfer,
    Branch,
    CoprocessorDataTransfer,
    CoprocessorDataOperation,
    CoprocessorRegisterTransfer,
    SoftwareInterrupt,
}

/// The number of entries of the decoding table.
pub const ARM_TABLE_LEN: usize = 17;

/// The decoding table: pattern, mask and class of entry `i`. An instruction
/// belongs to the first entry whose pattern it shows under the mask. The
/// status-word transfers, the multiplies, the swap, branch and exchange and
/// the halfword transfers stand before data processing, in whose pattern
/// they lie; the undefined pattern stands behind single data transfer, which
/// takes every instruction that shows it.
pub open spec fn arm_table(i: int) -> (u32, u32, ArmClass) {
    if i == 0 {
        (0x010F_0000, 0x0FBF_0FFF, ArmClass::Mrs)
    } else if i == 1 {
        (0x0129_F000, 0x0FBF_FFF0, ArmClass::MsrFull)
    } else if i == 2 {
        (0x0128_F000, 0x0DBF_F000, ArmClass::MsrFlags)
    } else if i == 3 {
        (0x0000_0090, 0x0FC0_00F0, ArmClass::Multiply)
    } else if i == 4 {
        (0x0080_0090, 0x0F80_00F0, ArmClass::MultiplyLong)
    } else if i == 5 {
        (0x0100_0090, 0x0FB0_0FF0, ArmClass::SingleDataSwap)
    } else if i == 6 {
        (0x012F_FF10, 0x0FFF_FFF0, ArmClass::BranchAndExchange)
    } else if i == 7 {
        (0x0000_0090, 0x0E00_0090, ArmClass::HalfwordSignedDataTransfer)
    } else if i == 8 {
        (0x0000_0000, 0x0C00_0000, ArmClass::DataProcessing)
    } else if i == 9 {
        (0x0400_0000, 0x0C00_0000, ArmClass::SingleDataTransfer)
    } else if i == 10 {
        (0x0600_0010, 0x0E00_0010, ArmClass::Undefined)
    } else if i == 11 {
        (0x0800_0000, 0x0E00_0000, ArmClass::BlockDataTransfer)
    } else if i == 12 {
        (0x0A00_0000, 0x0E00_0000, ArmClass::Branch)
    } else if i == 13 {
        (0x0C00_0000, 0x0E00_0000, ArmClass::CoprocessorDataTransfer)
    } else if i == 14 {
        (0x0E00_0000, 0x0F00_0010, ArmClass::CoprocessorDataOperation)
    } else if i == 15 {
        (0x0E00_0010, 0x0F00_0010, ArmClass::CoprocessorRegisterTransfer)
    } else {
        (0x0F00_0000, 0x0F00_0000, ArmClass::SoftwareInterrupt)
    }
}

/// Entry `i` of the decoding table.
pub fn arm_entry(i: usize) -> (entry: (u32, u32, ArmClass))
    requires
        i < 17,
    ensures
        entry == arm_table(i as int),
{
    match i {
        0 => (0x010F_0000, 0x0FBF_0FFF, ArmClass::Mrs),
        1 => (0x0129_F000, 0x0FBF_FFF0, ArmClass::MsrFull),
        2 => (0x0128_F000, 0x0DBF_F000, ArmClass::MsrFlags),
        3 => (0x0000_0090, 0x0FC0_00F0, ArmClass::Multiply),
        4 => (0x0080_0090, 0x0F80_00F0, ArmClass::MultiplyLong),
        5 => (0x0100_0090, 0x0FB0_0FF0, ArmClass::SingleDataSwap),
        6 => (0x012F_FF10, 0x0FFF_FFF0, ArmClass::BranchAndExchange),
        7 => (0x0000_0090, 0x0E00_0090, ArmClass::HalfwordSignedDataTransfer),
        8 => (0x0000_0000, 0x0C00_0000, ArmClass::DataProcessing),
        9 => (0x0400_0000, 0x0C00_0000, ArmClass::SingleDataTransfer),
        10 => (0x0600_0010, 0x0E00_0010, ArmClass::Undefined),
        11 => (0x0800_0000, 0x0E00_0000, ArmClass::BlockDataTransfer),
        12 => (0x0A00_0000, 0x0E00_0000, ArmClass::Branch),
        13 => (0x0C00_0000, 0x0E00_0000, ArmClass::CoprocessorDataTransfer),
        14 => (0x0E00_0000, 0x0F00_0010, ArmClass::CoprocessorDataOperation),
        15 => (0x0E00_0010, 0x0F00_0010, ArmClass::CoprocessorRegisterTransfer),
        _ => (0x0F00_0000, 0x0F00_0000, ArmClass::SoftwareInterrupt),
    }
}

/// The class of the first entry, from entry `i` on, that the instruction
/// matches.
pub open spec fn arm_match_from(instruction: u32, i: int) -> Option<ArmClass>
    decreases 17 - i,
{
    if i < 0 || i >= 17 {
        None
    } else if instruction & arm_table(i).1 == arm_table(i).0 {
        Some(arm_table(i).2)
    } else {
        arm_match_from(instruction, i + 1)
    }
}

/// The class of an instruction: that of the first entry of the table that it
/// matches.
pub open spec fn arm_class(instruction: u32) -> Option<ArmClass> {
    arm_match_from(instruction, 0)
}

/// Searches the decoding table for the class of an instruction.
pub fn decode_arm(instruction: u32) -> (class: Option<ArmClass>)
    ensures
        class == arm_class(instruction),
{
    let mut i: usize = 0;
    while i < ARM_TABLE_LEN
        invariant
            i <= 17,
            arm_match_from(instruction, i as int) == arm_class(instruction),
        decreases 17 - i,
    {
        let (pattern, mask, class) = arm_entry(i);
        if instruction & mask == pattern {
            return Some(class);
        }
        i = i + 1;
    }
    None
}

/// What a 32-bit instruction does to the machine: what its class does, and an
/// unknown instruction where no entry of the table matches.
pub open spec fn arm_step(st: CpuState, instruction: u32) -> Result<CpuState, EmuError> {
    match arm_class(instruction) {
        None => Err(EmuError::UnknownInstruction),
        Some(class) => match class {
            ArmClass::Mrs => mrs_step(st, instruction),
            ArmClass::MsrFull => msr_full_step(st, instruction),
            ArmClass::MsrFlags => msr_flags_step(st, instruction),
            ArmClass::Multiply => multiply_step(st, instruction),
            ArmClass::MultiplyLong => multiply_long_step(st, instruction),
            ArmClass::SingleDataSwap => single_data_swap_step(st, instruction),
            ArmClass::BranchAndExchange => Ok(branch_and_exchange_step(st, instruction)),
            ArmClass::HalfwordSignedDataTransfer => halfword_signed_data_transfer_step(
                st,
                instruction,
            ),
            ArmClass::DataProcessing => data_processing_step(st, instruction),
            ArmClass::SingleDataTransfer => single_data_transfer_step(st, instruction),
            ArmClass::Undefined => Ok(undefined_step(st)),
            ArmClass::BlockDataTransfer => block_data_transfer_step(st, instruction),
            ArmClass::Branch => Ok(branch_step(st, instruction)),
            ArmClass::CoprocessorDataTransfer => Err(
                if bit_of(instruction, 21) && (instruction >> 16) & 0xF == 15 {
                    EmuError::InvariantViolation
                } else {
                    EmuError::Unimplemented
                },
            ),
            ArmClass::CoprocessorDataOperation => Err(EmuError::Unimplemented),
            ArmClass::CoprocessorRegisterTransfer => Err(EmuError::Unimplemented),
            ArmClass::SoftwareInterrupt => Ok(software_interrupt_step(st)),
        },
    }
}

/// Decodes a 32-bit instruction and executes it.
pub fn process_instruction_arm(cpu: &mut CPU, instruction: u32) -> (r: Result<(), EmuError>)
    requires
        old(cpu)@.wf(),
    ensures
        final(cpu)@.wf(),
        outcome_is(r, final(cpu)@, arm_step(old(cpu)@, instruction)),
{
    match decode_arm(instruction) {
        None => Err(EmuError::UnknownInstruction),
        Some(class) => match class {
            ArmClass::Mrs => mrs(cpu, instruction),
            ArmClass::MsrFull => msr_full(cpu, instruction),
            ArmClass::MsrFlags => msr_flags(cpu, instruction),
            ArmClass::Multiply => multiply(cpu, instruction),
            ArmClass::MultiplyLong => multiply_long(cpu, instruction),
            ArmClass::SingleDataSwap => single_data_swap(cpu, instruction),
            ArmClass::BranchAndExchange => {
                branch_and_exchange(cpu, instruction);
                Ok(())
            },
            ArmClass::HalfwordSignedDataTransfer => halfword_signed_data_transfer(
                cpu,
                instruction,
            ),
            ArmClass::DataProcessing => data_processing(cpu, instruction),
            ArmClass::SingleDataTransfer => single_data_transfer(cpu, instruction),
            ArmClass::Undefined => {
                undefined(cpu, instruction);
                Ok(())
            },
            ArmClass::BlockDataTransfer => block_data_transfer(cpu, instruction),
            ArmClass::Branch => {
                branch(cpu, instruction);
                Ok(())
            },
            ArmClass::CoprocessorDataTransfer => coprocessor_data_transfer(cpu, instruction),
            ArmClass::CoprocessorDataOperation => coprocessor_data_operations(cpu, instruction),
            ArmClass::CoprocessorRegisterTransfer => coprocessor_register_transfer(
                cpu,
                instruction,
            ),
            ArmClass::SoftwareInterrupt => {
                software_interrupt(cpu, instruction);
                Ok(())
            },
        },
    }
}

proof fn lemma_arm_top_bits(instruction: u32)
    by (bit_vector)
    ensures
        instruction & 0x0C00_0000 == 0 || instruction & 0x0C00_0000 == 0x0400_0000 || instruction
            & 0x0E00_0000 == 0x0800_0000 || instruction & 0x0E00_0000 == 0x0A00_0000
            || instruction & 0x0E00_0000 == 0x0C00_0000 || instruction & 0x0F00_0010
            == 0x0E00_0000 || instruction & 0x0F00_0010 == 0x0E00_0010 || instruction
            & 0x0F00_0000 == 0x0F00_0000,
{
}

/// Every 32-bit instruction has a class: the table leaves nothing out.
pub proof fn lemma_arm_decoder_total(instruction: u32)
    ensures
        arm_class(instruction) is Some,
{
    lemma_arm_top_bits(instruction);
    reveal_with_fuel(arm_match_from, 18);
}

} // verus!
