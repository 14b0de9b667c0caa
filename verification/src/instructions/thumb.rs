//! The 16-bit instruction set: what each instruction class does to the
//! machine, and the decoder that tells the classes apart.

use vstd::prelude::*;
use crate::cpu::{evaluate_condition, ConditionFlags, CPU};
use crate::error::EmuError;
use crate::instructions::arm::{
    block_transfer, software_interrupt, software_interrupt_step, transfer_block,
};
use crate::instructions::basic_ops::{
    alu, alu_state, alu_value, is_test, logical_flag_helper, shift_on, shift_out, shift_state,
    ADC, ADD, AND, ASR, BIC, CMN, CMP, EOR, LSL, LSR, MOV, MVN, ORR, ROR, RSB, SBC, SUB, TST,
};
use crate::memory::{BYTE, HALFWORD, WORD};
use crate::model::{condition_table, outcome_is, CpuState};
use crate::util::{bit_of, bit_set, count_ones_below, field, ones_below, sign_extend, sign_extended};

verus! {

/// A class that is decoded but not executed.
pub fn placeholder_thumb(cpu: &mut CPU, opcode: u32) -> (r: Result<(), EmuError>)
    ensures
        r == Err::<(), EmuError>(EmuError::Unimplemented),
        final(cpu)@ == old(cpu)@,
{
    Err(EmuError::Unimplemented)
}

/// Runs an operation of the arithmetic-logic unit with the flags set, and
/// writes the result to `rd` unless the operation is a test.
fn operate(cpu: &mut CPU, code: u32, s: bool, rd: u32, op1: u32, op2: u32)
    requires
        old(cpu)@.wf(),
        code < 16,
        rd < 16,
    ensures
        final(cpu)@.wf(),
        final(cpu)@ == operate_step(old(cpu)@, code, s, rd, op1, op2),
{
    let res = alu(cpu, code, s, op1, op2);
    if !(8 <= code && code <= 11) {
        cpu.write_logical(rd, res);
    }
}

/// The machine after an operation of the arithmetic-logic unit whose result
/// goes to `rd`, unless the operation is a test.
pub open spec fn operate_step(
    st: CpuState,
    code: u32,
    s: bool,
    rd: u32,
    op1: u32,
    op2: u32,
) -> CpuState {
    let flagged = alu_state(st, code, s, op1, op2);
    if is_test(code) {
        flagged
    } else {
        flagged.write(rd, alu_value(st, code, op1, op2))
    }
}

/// The machine after a shift whose result goes to `rd`: C from the shifter,
/// N and Z from the result.
pub open spec fn shift_step(st: CpuState, kind: u32, rd: u32, value: u32, amount: u32) -> CpuState {
    let res = shift_out(kind, value, amount, st.flag(ConditionFlags::C)).0;
    shift_state(st, kind, true, value, amount).with_nz(res).write(rd, res)
}

fn shift_into(cpu: &mut CPU, kind: u32, rd: u32, value: u32, amount: u32)
    requires
        old(cpu)@.wf(),
        rd < 16,
    ensures
        final(cpu)@.wf(),
        final(cpu)@ == shift_step(old(cpu)@, kind, rd, value, amount),
{
    let res = shift_on(cpu, kind, true, value, amount);
    logical_flag_helper(cpu, true, res);
    cpu.write_logical(rd, res);
}

// ---- register operations ----
/// Move shifted register: the source shifted by a five-bit amount goes to the
/// destination; N, Z and C are set.
pub open spec fn move_shifted_register_step(st: CpuState, instruction: u32) -> CpuState {
    let opcode = (instruction >> 11) & 3;
    let kind = if opcode == 0 {
        LSL
    } else if opcode == 1 {
        LSR
    } else {
        ASR
    };
    shift_step(
        st,
        kind,
        (instruction >> 0) & 7,
        st.read((instruction >> 3) & 7),
        (instruction >> 6) & 0x1F,
    )
}

/// Executes a shift by an immediate amount.
pub fn move_shifted_register(cpu: &mut CPU, instruction: u32)
    requires
        old(cpu)@.wf(),
    ensures
        final(cpu)@.wf(),
        final(cpu)@ == move_shifted_register_step(old(cpu)@, instruction),
{
    let opcode = field(instruction, 11, 3);
    let offset5 = field(instruction, 6, 0x1F);
    let rs = field(instruction, 3, 7);
    let rd = field(instruction, 0, 7);
    let source_value = cpu.read_logical(rs);
    let kind = if opcode == 0 {
        LSL
    } else if opcode == 1 {
        LSR
    } else {
        ASR
    };
    shift_into(cpu, kind, rd, source_value, offset5);
}

/// Add or subtract a register or a three-bit immediate; all four flags are
/// set.
pub open spec fn add_subtract_step(st: CpuState, instruction: u32) -> CpuState {
    let operand = (instruction >> 6) & 7;
    let op2 = if bit_of(instruction, 10) {
        operand
    } else {
        st.read(operand)
    };
    let code = if bit_of(instruction, 9) {
        SUB
    } else {
        ADD
    };
    operate_step(st, code, true, (instruction >> 0) & 7, st.read((instruction >> 3) & 7), op2)
}

/// Executes an add or subtract of a register or a three-bit immediate.
pub fn add_subtract(cpu: &mut CPU, instruction: u32)
    requires
        old(cpu)@.wf(),
    ensures
        final(cpu)@.wf(),
        final(cpu)@ == add_subtract_step(old(cpu)@, instruction),
{
    let i = bit_set(instruction, 10);
    let subtract = bit_set(instruction, 9);
    let rn_offset3 = field(instruction, 6, 7);
    let rs = field(instruction, 3, 7);
    let rd = field(instruction, 0, 7);
    let operand1 = cpu.read_logical(rs);
    let operand2 = if i {
        rn_offset3
    } else {
        cpu.read_logical(rn_offset3)
    };
    let code = if subtract {
        SUB
    } else {
        ADD
    };
    operate(cpu, code, true, rd, operand1, operand2);
}

/// The operation that the two opcode bits of the immediate class name.
pub open spec fn immediate_operation(opcode: u32) -> u32 {
    if opcode == 0 {
        MOV
    } else if opcode == 1 {
        CMP
    } else if opcode == 2 {
        ADD
    } else {
        SUB
    }
}

/// Move, compare, add or subtract an eight-bit immediate. The move sets N and
/// Z; the others set all four flags; the compare writes no register.
pub open spec fn move_compare_add_subtract_immediate_step(
    st: CpuState,
    instruction: u32,
) -> CpuState {
    let rd = (instruction >> 8) & 7;
    operate_step(
        st,
        immediate_operation((instruction >> 11) & 3),
        true,
        rd,
        st.read(rd),
        (instruction >> 0) & 0xFF,
    )
}

/// Executes a move, compare, add or subtract of an eight-bit immediate.
pub fn move_compare_add_subtract_immediate(cpu: &mut CPU, instruction: u32)
    requires
        old(cpu)@.wf(),
    ensures
        final(cpu)@.wf(),
        final(cpu)@ == move_compare_add_subtract_immediate_step(old(cpu)@, instruction),
{
    let opcode = field(instruction, 11, 3);
    let rd = field(instruction, 8, 7);
    let offset8 = field(instruction, 0, 0xFF);
    let code = if opcode == 0 {
        MOV
    } else if opcode == 1 {
        CMP
    } else if opcode == 2 {
        ADD
    } else {
        SUB
    };
    let current = cpu.read_logical(rd);
    operate(cpu, code, true, rd, current, offset8);
}

/// The operation of the arithmetic-logic unit that a four-bit opcode of the
/// register class names, for the opcodes that name one.
pub open spec fn register_operation(opcode: u32) -> u32 {
    if opcode == 0 {
        AND
    } else if opcode == 1 {
        EOR
    } else if opcode == 5 {
        ADC
    } else if opcode == 6 {
        SBC
    } else if opcode == 8 {
        TST
    } else if opcode == 10 {
        CMP
    } else if opcode == 11 {
        CMN
    } else if opcode == 12 {
        ORR
    } else if opcode == 14 {
        BIC
    } else {
        MVN
    }
}

/// Operations between two low registers, flags always set. Opcodes 2, 3, 4
/// and 7 shift the destination by the low byte of the source; 9 negates the
/// source; 13 multiplies modulo 2^32 and sets N and Z; the others are
/// operations of the arithmetic-logic unit.
pub open spec fn alu_operations_step(st: CpuState, instruction: u32) -> CpuState {
    let opcode = (instruction >> 6) & 0xF;
    let rd = (instruction >> 0) & 7;
    let op1 = st.read(rd);
    let op2 = st.read((instruction >> 3) & 7);
    if opcode == 2 {
        shift_step(st, LSL, rd, op1, op2 & 0xFF)
    } else if opcode == 3 {
        shift_step(st, LSR, rd, op1, op2 & 0xFF)
    } else if opcode == 4 {
        shift_step(st, ASR, rd, op1, op2 & 0xFF)
    } else if opcode == 7 {
        shift_step(st, ROR, rd, op1, op2 & 0xFF)
    } else if opcode == 9 {
        operate_step(st, RSB, true, rd, op2, 0)
    } else if opcode == 13 {
        st.with_nz(op1.wrapping_mul(op2)).write(rd, op1.wrapping_mul(op2))
    } else {
        operate_step(st, register_operation(opcode), true, rd, op1, op2)
    }
}

/// Executes an operation between two low registers.
pub fn alu_operations(cpu: &mut CPU, instruction: u32)
    requires
        old(cpu)@.wf(),
    ensures
        final(cpu)@.wf(),
        final(cpu)@ == alu_operations_step(old(cpu)@, instruction),
{
    let opcode = field(instruction, 6, 0xF);
    let rs = field(instruction, 3, 7);
    let rd = field(instruction, 0, 7);
    let op1 = cpu.read_logical(rd);
    let op2 = cpu.read_logical(rs);
    match opcode {
        0 => operate(cpu, AND, true, rd, op1, op2),
        1 => operate(cpu, EOR, true, rd, op1, op2),
        2 => shift_into(cpu, LSL, rd, op1, op2 & 0xFF),
        3 => shift_into(cpu, LSR, rd, op1, op2 & 0xFF),
        4 => shift_into(cpu, ASR, rd, op1, op2 & 0xFF),
        5 => operate(cpu, ADC, true, rd, op1, op2),
        6 => operate(cpu, SBC, true, rd, op1, op2),
        7 => shift_into(cpu, ROR, rd, op1, op2 & 0xFF),
        8 => operate(cpu, TST, true, rd, op1, op2),
        9 => operate(cpu, RSB, true, rd, op2, 0),
        10 => operate(cpu, CMP, true, rd, op1, op2),
        11 => operate(cpu, CMN, true, rd, op1, op2),
        12 => operate(cpu, ORR, true, rd, op1, op2),
        13 => {
            let res = op1.wrapping_mul(op2);
            logical_flag_helper(cpu, true, res);
            cpu.write_logical(rd, res);
        },
        14 => operate(cpu, BIC, true, rd, op1, op2),
        _ => operate(cpu, MVN, true, rd, op1, op2),
    }
}

/// Branch and exchange to the value of a register.
pub open spec fn exchange_step(st: CpuState, target: u32) -> CpuState {
    st.write(15, target & !1u32).with_cpsr_bits(0x20, target & 1 != 0)
}

/// The number of a register of the high-register class: the three bits of
/// the field, plus eight where the H bit is set.
pub open spec fn high_register(low: u32, high: bool) -> u32 {
    if high {
        (low + 8) as u32
    } else {
        low
    }
}

fn high_register_number(low: u32, high: bool) -> (r: u32)
    requires
        low <= 7,
    ensures
        r == high_register(low, high),
        r < 16,
{
    if high {
        low + 8
    } else {
        low
    }
}

/// Operations on the high registers: H1 and H2 add eight to the number of the
/// destination and of the source. Add and move set no flags, compare sets all
/// four and writes nothing, and opcode 3 branches to the source and takes
/// the instruction set from its bit 0.
pub open spec fn hi_register_operations_be_step(st: CpuState, instruction: u32) -> CpuState {
    let opcode = (instruction >> 8) & 3;
    let rd = high_register((instruction >> 0) & 7, bit_of(instruction, 7));
    let rs = high_register((instruction >> 3) & 7, bit_of(instruction, 6));
    let op1 = st.read(rd);
    let op2 = st.read(rs);
    if opcode == 0 {
        operate_step(st, ADD, false, rd, op1, op2)
    } else if opcode == 1 {
        operate_step(st, CMP, true, rd, op1, op2)
    } else if opcode == 2 {
        st.write(rd, op2)
    } else {
        exchange_step(st, op2)
    }
}

/// Executes an operation on the high registers, or a branch and exchange.
pub fn hi_register_operations_be(cpu: &mut CPU, instruction: u32)
    requires
        old(cpu)@.wf(),
    ensures
        final(cpu)@.wf(),
        final(cpu)@ == hi_register_operations_be_step(old(cpu)@, instruction),
{
    let opcode = field(instruction, 8, 3);
    let h1 = bit_set(instruction, 7);
    let h2 = bit_set(instruction, 6);
    let rd = high_register_number(field(instruction, 0, 7), h1);
    let rs = high_register_number(field(instruction, 3, 7), h2);
    let op1 = cpu.read_logical(rd);
    let op2 = cpu.read_logical(rs);
    if opcode == 0 {
        operate(cpu, ADD, false, rd, op1, op2);
    } else if opcode == 1 {
        operate(cpu, CMP, true, rd, op1, op2);
    } else if opcode == 2 {
        cpu.write_logical(rd, op2);
    } else {
        cpu.write_logical(15, op2 & !1u32);
        cpu.set_state(op2 & 1 != 0);
    }
}

// ---- loads and stores ----
/// A load into `rd`: what memory holds at `address`, with copies of its sign
/// bit above it where `sign` is set.
pub open spec fn load_step(st: CpuState, rd: u32, address: u32, width: u32, sign: bool) -> Result<
    CpuState,
    EmuError,
> {
    match st.mem_read(address, width) {
        Err(e) => Err(e),
        Ok(value) => Ok(
            st.write(
                rd,
                if !sign {
                    value
                } else if width == BYTE {
                    sign_extended(value, 8)
                } else {
                    sign_extended(value, 16)
                },
            ),
        ),
    }
}

/// A store of the low bits of `rd` at `address`.
pub open spec fn store_step(st: CpuState, rd: u32, address: u32, width: u32) -> Result<
    CpuState,
    EmuError,
> {
    st.mem_write(address, width, st.read(rd))
}

fn load_into(cpu: &mut CPU, rd: u32, address: u32, width: u32, sign: bool) -> (r: Result<
    (),
    EmuError,
>)
    requires
        old(cpu)@.wf(),
        rd < 16,
        width <= 2,
    ensures
        final(cpu)@.wf(),
        outcome_is(r, final(cpu)@, load_step(old(cpu)@, rd, address, width, sign)),
        r is Err ==> final(cpu)@ == old(cpu)@,
{
    let value = cpu.memory_read(address, width)?;
    let extended = if !sign {
        value
    } else if width == BYTE {
        sign_extend(value, 8)
    } else {
        sign_extend(value, 16)
    };
    cpu.write_logical(rd, extended);
    Ok(())
}

fn store_from(cpu: &mut CPU, rd: u32, address: u32, width: u32) -> (r: Result<(), EmuError>)
    requires
        old(cpu)@.wf(),
        rd < 16,
        width <= 2,
    ensures
        final(cpu)@.wf(),
        outcome_is(r, final(cpu)@, store_step(old(cpu)@, rd, address, width)),
        r is Err ==> final(cpu)@ == old(cpu)@,
{
    let value = cpu.read_logical(rd);
    cpu.memory_write(address, width, value)
}

/// The program counter as an address base: two instructions ahead, with bit 1
/// cleared.
pub open spec fn pc_base(st: CpuState) -> u32 {
    st.read(15) & !2u32
}

/// Load of a word from the program counter plus an eight-bit word offset.
pub open spec fn pc_relative_load_step(st: CpuState, instruction: u32) -> Result<
    CpuState,
    EmuError,
> {
    load_step(
        st,
        (instruction >> 8) & 7,
        pc_base(st).wrapping_add(((instruction >> 0) & 0xFF) << 2),
        WORD,
        false,
    )
}

/// Executes a load relative to the program counter.
pub fn pc_relative_load(cpu: &mut CPU, instruction: u32) -> (r: Result<(), EmuError>)
    requires
        old(cpu)@.wf(),
    ensures
        final(cpu)@.wf(),
        outcome_is(r, final(cpu)@, pc_relative_load_step(old(cpu)@, instruction)),
        r is Err ==> final(cpu)@ == old(cpu)@,
{
    let rd = field(instruction, 8, 7);
    let word8 = field(instruction, 0, 0xFF);
    let base = cpu.read_logical(15) & !2u32;
    load_into(cpu, rd, base.wrapping_add(word8 << 2), WORD, false)
}

/// Load or store of a word or a byte at base register plus offset register.
pub open spec fn load_store_register_offset_step(st: CpuState, instruction: u32) -> Result<
    CpuState,
    EmuError,
> {
    let width = if bit_of(instruction, 10) {
        BYTE
    } else {
        WORD
    };
    let rd = (instruction >> 0) & 7;
    let address = st.read((instruction >> 3) & 7).wrapping_add(st.read((instruction >> 6) & 7));
    if bit_of(instruction, 11) {
        load_step(st, rd, address, width, false)
    } else {
        store_step(st, rd, address, width)
    }
}

/// Executes a load or store with a register offset.
pub fn load_store_register_offset(cpu: &mut CPU, instruction: u32) -> (r: Result<(), EmuError>)
    requires
        old(cpu)@.wf(),
    ensures
        final(cpu)@.wf(),
        outcome_is(r, final(cpu)@, load_store_register_offset_step(old(cpu)@, instruction)),
        r is Err ==> final(cpu)@ == old(cpu)@,
{
    let l = bit_set(instruction, 11);
    let width = if bit_set(instruction, 10) {
        BYTE
    } else {
        WORD
    };
    let ro = field(instruction, 6, 7);
    let rb = field(instruction, 3, 7);
    let rd = field(instruction, 0, 7);
    let address = cpu.read_logical(rb).wrapping_add(cpu.read_logical(ro));
    if l {
        load_into(cpu, rd, address, width, false)
    } else {
        store_from(cpu, rd, address, width)
    }
}

/// Store of a halfword, or load of a halfword, a signed byte or a signed
/// halfword, at base register plus offset register: S and H clear store, H
/// alone loads a halfword, S alone a signed byte, both a signed halfword.
pub open spec fn load_store_sign_extended_step(st: CpuState, instruction: u32) -> Result<
    CpuState,
    EmuError,
> {
    let h = bit_of(instruction, 11);
    let s = bit_of(instruction, 10);
    let rd = (instruction >> 0) & 7;
    let address = st.read((instruction >> 3) & 7).wrapping_add(st.read((instruction >> 6) & 7));
    if !s && !h {
        store_step(st, rd, address, HALFWORD)
    } else if s && !h {
        load_step(st, rd, address, BYTE, true)
    } else {
        load_step(st, rd, address, HALFWORD, s)
    }
}

/// Executes a halfword store, or a load of a halfword or a signed value,
/// with a register offset.
pub fn load_store_sign_extended(cpu: &mut CPU, instruction: u32) -> (r: Result<(), EmuError>)
    requires
        old(cpu)@.wf(),
    ensures
        final(cpu)@.wf(),
        outcome_is(r, final(cpu)@, load_store_sign_extended_step(old(cpu)@, instruction)),
        r is Err ==> final(cpu)@ == old(cpu)@,
{
    let h = bit_set(instruction, 11);
    let s = bit_set(instruction, 10);
    let ro = field(instruction, 6, 7);
    let rb = field(instruction, 3, 7);
    let rd = field(instruction, 0, 7);
    let address = cpu.read_logical(rb).wrapping_add(cpu.read_logical(ro));
    if !s && !h {
        store_from(cpu, rd, address, HALFWORD)
    } else if s && !h {
        load_into(cpu, rd, address, BYTE, true)
    } else {
        load_into(cpu, rd, address, HALFWORD, s)
    }
}

/// Load or store of a word or a byte at base register plus a five-bit
/// offset, which counts words for a word and bytes for a byte.
pub open spec fn load_store_immediate_offset_step(st: CpuState, instruction: u32) -> Result<
    CpuState,
    EmuError,
> {
    let byte = bit_of(instruction, 12);
    let offset5 = (instruction >> 6) & 0x1F;
    let rd = (instruction >> 0) & 7;
    let base = st.read((instruction >> 3) & 7);
    let address = if byte {
        base.wrapping_add(offset5)
    } else {
        base.wrapping_add(offset5 << 2)
    };
    let width = if byte {
        BYTE
    } else {
        WORD
    };
    if bit_of(instruction, 11) {
        load_step(st, rd, address, width, false)
    } else {
        store_step(st, rd, address, width)
    }
}

/// Executes a load or store of a word or byte with an immediate offset.
pub fn load_store_immediate_offset(cpu: &mut CPU, instruction: u32) -> (r: Result<(), EmuError>)
    requires
        old(cpu)@.wf(),
    ensures
        final(cpu)@.wf(),
        outcome_is(r, final(cpu)@, load_store_immediate_offset_step(old(cpu)@, instruction)),
        r is Err ==> final(cpu)@ == old(cpu)@,
{
    let byte = bit_set(instruction, 12);
    let l = bit_set(instruction, 11);
    let offset5 = field(instruction, 6, 0x1F);
    let rb = field(instruction, 3, 7);
    let rd = field(instruction, 0, 7);
    let base = cpu.read_logical(rb);
    let address = if byte {
        base.wrapping_add(offset5)
    } else {
        base.wrapping_add(offset5 << 2)
    };
    let width = if byte {
        BYTE
    } else {
        WORD
    };
    if l {
        load_into(cpu, rd, address, width, false)
    } else {
        store_from(cpu, rd, address, width)
    }
}

/// Load or store of a halfword at base register plus a five-bit offset that
/// counts halfwords.
pub open spec fn load_store_halfword_step(st: CpuState, instruction: u32) -> Result<
    CpuState,
    EmuError,
> {
    let rd = (instruction >> 0) & 7;
    let address = st.read((instruction >> 3) & 7).wrapping_add(((instruction >> 6) & 0x1F) << 1);
    if bit_of(instruction, 11) {
        load_step(st, rd, address, HALFWORD, false)
    } else {
        store_step(st, rd, address, HALFWORD)
    }
}

/// Executes a load or store of a halfword with an immediate offset.
pub fn load_store_halfword(cpu: &mut CPU, instruction: u32) -> (r: Result<(), EmuError>)
    requires
        old(cpu)@.wf(),
    ensures
        final(cpu)@.wf(),
        outcome_is(r, final(cpu)@, load_store_halfword_step(old(cpu)@, instruction)),
        r is Err ==> final(cpu)@ == old(cpu)@,
{
    let l = bit_set(instruction, 11);
    let offset5 = field(instruction, 6, 0x1F);
    let rb = field(instruction, 3, 7);
    let rd = field(instruction, 0, 7);
    let address = cpu.read_logical(rb).wrapping_add(offset5 << 1);
    if l {
        load_into(cpu, rd, address, HALFWORD, false)
    } else {
        store_from(cpu, rd, address, HALFWORD)
    }
}

/// Load or store of a word at the stack pointer plus an eight-bit word
/// offset.
pub open spec fn sp_relative_load_store_step(st: CpuState, instruction: u32) -> Result<
    CpuState,
    EmuError,
> {
    let rd = (instruction >> 8) & 7;
    let address = st.read(13).wrapping_add(((instruction >> 0) & 0xFF) << 2);
    if bit_of(instruction, 11) {
        load_step(st, rd, address, WORD, false)
    } else {
        store_step(st, rd, address, WORD)
    }
}

/// Executes a load or store relative to the stack pointer.
pub fn sp_relative_load_store(cpu: &mut CPU, instruction: u32) -> (r: Result<(), EmuError>)
    requires
        old(cpu)@.wf(),
    ensures
        final(cpu)@.wf(),
        outcome_is(r, final(cpu)@, sp_relative_load_store_step(old(cpu)@, instruction)),
        r is Err ==> final(cpu)@ == old(cpu)@,
{
    let l = bit_set(instruction, 11);
    let rd = field(instruction, 8, 7);
    let word8 = field(instruction, 0, 0xFF);
    let address = cpu.read_logical(13).wrapping_add(word8 << 2);
    if l {
        load_into(cpu, rd, address, WORD, false)
    } else {
        store_from(cpu, rd, address, WORD)
    }
}

// ---- addresses and the stack ----
/// Load address: the destination takes the stack pointer, where bit 11 is
/// set, or else the program counter base, plus an eight-bit word offset.
pub open spec fn load_address_step(st: CpuState, instruction: u32) -> CpuState {
    let base = if bit_of(instruction, 11) {
        st.read(13)
    } else {
        pc_base(st)
    };
    st.write((instruction >> 8) & 7, base.wrapping_add(((instruction >> 0) & 0xFF) << 2))
}

/// Executes a load of an address from the program counter or the stack
/// pointer.
pub fn load_address(cpu: &mut CPU, instruction: u32)
    requires
        old(cpu)@.wf(),
    ensures
        final(cpu)@.wf(),
        final(cpu)@ == load_address_step(old(cpu)@, instruction),
{
    let rd = field(instruction, 8, 7);
    let word8 = field(instruction, 0, 0xFF);
    let base = if bit_set(instruction, 11) {
        cpu.read_logical(13)
    } else {
        cpu.read_logical(15) & !2u32
    };
    cpu.write_logical(rd, base.wrapping_add(word8 << 2));
}

/// Add offset to stack pointer: seven bits that count words, added where bit
/// 7 is clear and subtracted where it is set.
pub open spec fn add_offset_to_stack_pointer_step(st: CpuState, instruction: u32) -> CpuState {
    let offset = ((instruction >> 0) & 0x7F) << 2;
    st.write(
        13,
        if bit_of(instruction, 7) {
            st.read(13).wrapping_sub(offset)
        } else {
            st.read(13).wrapping_add(offset)
        },
    )
}

/// Executes an adjustment of the stack pointer.
pub fn add_offset_to_stack_pointer(cpu: &mut CPU, instruction: u32)
    requires
        old(cpu)@.wf(),
    ensures
        final(cpu)@.wf(),
        final(cpu)@ == add_offset_to_stack_pointer_step(old(cpu)@, instruction),
{
    let offset = field(instruction, 0, 0x7F) << 2;
    let sp = cpu.read_logical(13);
    let moved = if bit_set(instruction, 7) {
        sp.wrapping_sub(offset)
    } else {
        sp.wrapping_add(offset)
    };
    cpu.write_logical(13, moved);
}

/// The register list of a push or pop: the eight low registers of the
/// instruction, and with the R bit the link register for a push or the
/// program counter for a pop.
pub open spec fn stack_list(instruction: u32) -> u32 {
    ((instruction >> 0) & 0xFF) | if !bit_of(instruction, 8) {
        0u32
    } else if bit_of(instruction, 11) {
        0x8000u32
    } else {
        0x4000u32
    }
}

/// Push stores the list below the stack pointer and moves the stack pointer
/// down to the lowest word stored; pop loads the list from the stack pointer
/// upwards and moves the stack pointer past the last word loaded.
pub open spec fn push_pop_registers_step(st: CpuState, instruction: u32) -> Result<
    CpuState,
    EmuError,
> {
    let list = stack_list(instruction);
    let bytes = (4 * ones_below(list, 16)) as u32;
    let sp = st.read(13);
    if bit_of(instruction, 11) {
        match block_transfer(st, list, true, false, sp, 0) {
            Err(e) => Err(e),
            Ok(moved) => Ok(moved.write(13, sp.wrapping_add(bytes))),
        }
    } else {
        match block_transfer(st, list, false, false, sp.wrapping_sub(bytes), 0) {
            Err(e) => Err(e),
            Ok(moved) => Ok(moved.write(13, sp.wrapping_sub(bytes))),
        }
    }
}

/// Executes a push or a pop.
pub fn push_pop_registers(cpu: &mut CPU, instruction: u32) -> (r: Result<(), EmuError>)
    requires
        old(cpu)@.wf(),
    ensures
        final(cpu)@.wf(),
        outcome_is(r, final(cpu)@, push_pop_registers_step(old(cpu)@, instruction)),
{
    let l = bit_set(instruction, 11);
    let extra: u32 = if !bit_set(instruction, 8) {
        0
    } else if l {
        0x8000
    } else {
        0x4000
    };
    let list = field(instruction, 0, 0xFF) | extra;
    let bytes = 4 * count_ones_below(list, 16);
    let sp = cpu.read_logical(13);
    if l {
        transfer_block(cpu, list, true, false, sp)?;
        cpu.write_logical(13, sp.wrapping_add(bytes));
    } else {
        transfer_block(cpu, list, false, false, sp.wrapping_sub(bytes))?;
        cpu.write_logical(13, sp.wrapping_sub(bytes));
    }
    Ok(())
}

/// Multiple load or store: the listed low registers are transferred at
/// ascending addresses from the base register on, and the base moves past
/// them.
pub open spec fn multiple_load_store_step(st: CpuState, instruction: u32) -> Result<
    CpuState,
    EmuError,
> {
    let rb = (instruction >> 8) & 7;
    let list = (instruction >> 0) & 0xFF;
    let base = st.read(rb);
    match block_transfer(st, list, bit_of(instruction, 11), false, base, 0) {
        Err(e) => Err(e),
        Ok(moved) => Ok(moved.write(rb, base.wrapping_add((4 * ones_below(list, 16)) as u32))),
    }
}

/// Executes a load or store of a list of low registers.
pub fn multiple_load_store(cpu: &mut CPU, instruction: u32) -> (r: Result<(), EmuError>)
    requires
        old(cpu)@.wf(),
    ensures
        final(cpu)@.wf(),
        outcome_is(r, final(cpu)@, multiple_load_store_step(old(cpu)@, instruction)),
{
    let l = bit_set(instruction, 11);
    let rb = field(instruction, 8, 7);
    let list = field(instruction, 0, 0xFF);
    let base = cpu.read_logical(rb);
    let bytes = 4 * count_ones_below(list, 16);
    transfer_block(cpu, list, l, false, base)?;
    cpu.write_logical(rb, base.wrapping_add(bytes));
    Ok(())
}

// ---- branches ----
/// Conditional branch: where the condition holds, eight bits that count
/// halfwords, read as a two's complement number, are added to the stored
/// program counter.
pub open spec fn conditional_branch_step(st: CpuState, instruction: u32) -> CpuState {
    if condition_table(
        (instruction >> 8) & 0xF,
        st.flag(ConditionFlags::N),
        st.flag(ConditionFlags::Z),
        st.flag(ConditionFlags::C),
        st.flag(ConditionFlags::V),
    ) {
        st.write(15, st.pc().wrapping_add(sign_extended(((instruction >> 0) & 0xFF) << 1, 9)))
    } else {
        st
    }
}

/// Executes a conditional branch.
pub fn conditional_branch(cpu: &mut CPU, instruction: u32)
    requires
        old(cpu)@.wf(),
    ensures
        final(cpu)@.wf(),
        final(cpu)@ == conditional_branch_step(old(cpu)@, instruction),
{
    let cond = field(instruction, 8, 0xF);
    let n = cpu.get_condition_flag(ConditionFlags::N);
    let z = cpu.get_condition_flag(ConditionFlags::Z);
    let c = cpu.get_condition_flag(ConditionFlags::C);
    let v = cpu.get_condition_flag(ConditionFlags::V);
    if evaluate_condition(cond, n, z, c, v) {
        let offset = sign_extend(field(instruction, 0, 0xFF) << 1, 9);
        let pc = cpu.pc();
        cpu.write_logical(15, pc.wrapping_add(offset));
    }
}

/// Unconditional branch: eleven bits that count halfwords, read as a two's
/// complement number, are added to the stored program counter.
pub open spec fn unconditional_branch_step(st: CpuState, instruction: u32) -> CpuState {
    st.write(15, st.pc().wrapping_add(sign_extended(((instruction >> 0) & 0x7FF) << 1, 12)))
}

/// Executes an unconditional branch.
pub fn unconditional_branch(cpu: &mut CPU, instruction: u32)
    requires
        old(cpu)@.wf(),
    ensures
        final(cpu)@.wf(),
        final(cpu)@ == unconditional_branch_step(old(cpu)@, instruction),
{
    let offset = sign_extend(field(instruction, 0, 0x7FF) << 1, 12);
    let pc = cpu.pc();
    cpu.write_logical(15, pc.wrapping_add(offset));
}

/// Long branch with link, in two instructions. The first, bit 11 clear, puts
/// the stored program counter plus the high part of the offset, eleven bits
/// that count blocks of 4096 bytes as a two's complement number, into the
/// link register. The second, bit 11 set, branches to the link register plus
/// the low part of the offset, eleven bits that count halfwords, and leaves
/// its own address with bit 0 set in the link register.
pub open spec fn long_branch_with_link_step(st: CpuState, instruction: u32) -> CpuState {
    let offset = (instruction >> 0) & 0x7FF;
    if bit_of(instruction, 11) {
        st.write(15, st.read(14).wrapping_add(offset << 1)).write(14, st.pc() | 1)
    } else {
        st.write(14, st.pc().wrapping_add(sign_extended(offset << 12, 23)))
    }
}

/// Executes one half of a long branch with link.
pub fn long_branch_with_link(cpu: &mut CPU, instruction: u32)
    requires
        old(cpu)@.wf(),
    ensures
        final(cpu)@.wf(),
        final(cpu)@ == long_branch_with_link_step(old(cpu)@, instruction),
{
    let offset = field(instruction, 0, 0x7FF);
    let pc = cpu.pc();
    if bit_set(instruction, 11) {
        let link = cpu.read_logical(14);
        cpu.write_logical(15, link.wrapping_add(offset << 1));
        cpu.write_logical(14, pc | 1);
    } else {
        cpu.write_logical(14, pc.wrapping_add(sign_extend(offset << 12, 23)));
    }
}

// ---- decoder ----
/// The classes of 16-bit instructions.
#[derive(Clone, Copy, Debug, PartialEq, Eq, Structural)]
pub enum ThumbClass {
    AddSubtract,
    MoveShiftedRegister,
    MoveCompareAddSubtractImmediate,
    AluOperations,
    HiRegisterOperations,
    PcRelativeLoad,
    LoadStoreRegisterOffset,
    LoadStoreSignExtended,
    LoadStoreImmediateOffset,
    LoadStoreHalfword,
    SpRelativeLoadStore,
    LoadAddress,
    AddOffsetToStackPointer,
    PushPopRegisters,
    MultipleLoadStore,
    SoftwareInterrupt,
    ConditionalBranch,
    UnconditionalBranch,
    LongBranchWithLink,
}

/// The number of entries of the decoding table.
pub const THUMB_TABLE_LEN: usize = 19;

/// The decoding table: pattern, mask and class of entry `i`. An instruction
/// belongs to the first entry whose pattern it shows under the mask; add and
/// subtract stand before the shifts, and the software interrupt before the
/// conditional branches, whose patterns they lie in.
pub open spec fn thumb_table(i: int) -> (u32, u32, ThumbClass) {
    if i == 0 {
        (0x1800, 0xF800, ThumbClass::AddSubtract)
    } else if i == 1 {
        (0x0000, 0xE000, ThumbClass::MoveShiftedRegister)
    } else if i == 2 {
        (0x2000, 0xE000, ThumbClass::MoveCompareAddSubtractImmediate)
    } else if i == 3 {
        (0x4000, 0xFC00, ThumbClass::AluOperations)
    } else if i == 4 {
        (0x4400, 0xFC00, ThumbClass::HiRegisterOperations)
    } else if i == 5 {
        (0x4800, 0xF800, ThumbClass::PcRelativeLoad)
    } else if i == 6 {
        (0x5000, 0xF200, ThumbClass::LoadStoreRegisterOffset)
    } else if i == 7 {
        (0x5200, 0xF200, ThumbClass::LoadStoreSignExtended)
    } else if i == 8 {
        (0x6000, 0xE000, ThumbClass::LoadStoreImmediateOffset)
    } else if i == 9 {
        (0x8000, 0xF000, ThumbClass::LoadStoreHalfword)
    } else if i == 10 {
        (0x9000, 0xF000, ThumbClass::SpRelativeLoadStore)
    } else if i == 11 {
        (0xA000, 0xF000, ThumbClass::LoadAddress)
    } else if i == 12 {
        (0xB000, 0xFF00, ThumbClass::AddOffsetToStackPointer)
    } else if i == 13 {
        (0xB400, 0xF600, ThumbClass::PushPopRegisters)
    } else if i == 14 {
        (0xC000, 0xF000, ThumbClass::MultipleLoadStore)
    } else if i == 15 {
        (0xDF00, 0xFF00, ThumbClass::SoftwareInterrupt)
    } else if i == 16 {
        (0xD000, 0xF000, ThumbClass::ConditionalBranch)
    } else if i == 17 {
        (0xE000, 0xF800, ThumbClass::UnconditionalBranch)
    } else {
        (0xF000, 0xF000, ThumbClass::LongBranchWithLink)
    }
}

/// Entry `i` of the decoding table.
pub fn thumb_entry(i: usize) -> (entry: (u32, u32, ThumbClass))
    requires
        i < 19,
    ensures
        entry == thumb_table(i as int),
{
    match i {
        0 => (0x1800, 0xF800, ThumbClass::AddSubtract),
        1 => (0x0000, 0xE000, ThumbClass::MoveShiftedRegister),
        2 => (0x2000, 0xE000, ThumbClass::MoveCompareAddSubtractImmediate),
        3 => (0x4000, 0xFC00, ThumbClass::AluOperations),
        4 => (0x4400, 0xFC00, ThumbClass::HiRegisterOperations),
        5 => (0x4800, 0xF800, ThumbClass::PcRelativeLoad),
        6 => (0x5000, 0xF200, ThumbClass::LoadStoreRegisterOffset),
        7 => (0x5200, 0xF200, ThumbClass::LoadStoreSignExtended),
        8 => (0x6000, 0xE000, ThumbClass::LoadStoreImmediateOffset),
        9 => (0x8000, 0xF000, ThumbClass::LoadStoreHalfword),
        10 => (0x9000, 0xF000, ThumbClass::SpRelativeLoadStore),
        11 => (0xA000, 0xF000, ThumbClass::LoadAddress),
        12 => (0xB000, 0xFF00, ThumbClass::AddOffsetToStackPointer),
        13 => (0xB400, 0xF600, ThumbClass::PushPopRegisters),
        14 => (0xC000, 0xF000, ThumbClass::MultipleLoadStore),
        15 => (0xDF00, 0xFF00, ThumbClass::SoftwareInterrupt),
        16 => (0xD000, 0xF000, ThumbClass::ConditionalBranch),
        17 => (0xE000, 0xF800, ThumbClass::UnconditionalBranch),
        _ => (0xF000, 0xF000, ThumbClass::LongBranchWithLink),
    }
}

/// The class of the first entry, from entry `i` on, that the instruction
/// matches.
pub open spec fn thumb_match_from(instruction: u32, i: int) -> Option<ThumbClass>
    decreases 19 - i,
{
    if i < 0 || i >= 19 {
        None
    } else if instruction & thumb_table(i).1 == thumb_table(i).0 {
        Some(thumb_table(i).2)
    } else {
        thumb_match_from(instruction, i + 1)
    }
}

/// The class of an instruction: that of the first entry of the table that it
/// matches. Only the low sixteen bits count.
pub open spec fn thumb_class(instruction: u32) -> Option<ThumbClass> {
    thumb_match_from(instruction, 0)
}

/// Searches the decoding table for the class of an instruction.
pub fn decode_thumb(instruction: u32) -> (class: Option<ThumbClass>)
    ensures
        class == thumb_class(instruction),
{
    let mut i: usize = 0;
    while i < THUMB_TABLE_LEN
        invariant
            i <= 19,
            thumb_match_from(instruction, i as int) == thumb_class(instruction),
        decreases 19 - i,
    {
        let (pattern, mask, class) = thumb_entry(i);
        if instruction & mask == pattern {
            return Some(class);
        }
        i = i + 1;
    }
    None
}

/// What a 16-bit instruction does to the machine: what its class does, and an
/// unknown instruction where no entry of the table matches.
pub open spec fn thumb_step(st: CpuState, instruction: u32) -> Result<CpuState, EmuError> {
    match thumb_class(instruction) {
        None => Err(EmuError::UnknownInstruction),
        Some(class) => match class {
            ThumbClass::AddSubtract => Ok(add_subtract_step(st, instruction)),
            ThumbClass::MoveShiftedRegister => Ok(move_shifted_register_step(st, instruction)),
            ThumbClass::MoveCompareAddSubtractImmediate => Ok(
                move_compare_add_subtract_immediate_step(st, instruction),
            ),
            ThumbClass::AluOperations => Ok(alu_operations_step(st, instruction)),
            ThumbClass::HiRegisterOperations => Ok(hi_register_operations_be_step(st, instruction)),
            ThumbClass::PcRelativeLoad => pc_relative_load_step(st, instruction),
            ThumbClass::LoadStoreRegisterOffset => load_store_register_offset_step(
                st,
                instruction,
            ),
            ThumbClass::LoadStoreSignExtended => load_store_sign_extended_step(st, instruction),
            ThumbClass::LoadStoreImmediateOffset => load_store_immediate_offset_step(
                st,
                instruction,
            ),
            ThumbClass::LoadStoreHalfword => load_store_halfword_step(st, instruction),
            ThumbClass::SpRelativeLoadStore => sp_relative_load_store_step(st, instruction),
            ThumbClass::LoadAddress => Ok(load_address_step(st, instruction)),
            ThumbClass::AddOffsetToStackPointer => Ok(
                add_offset_to_stack_pointer_step(st, instruction),
            ),
            ThumbClass::PushPopRegisters => push_pop_registers_step(st, instruction),
            ThumbClass::MultipleLoadStore => multiple_load_store_step(st, instruction),
            ThumbClass::SoftwareInterrupt => Ok(software_interrupt_step(st)),
            ThumbClass::ConditionalBranch => Ok(conditional_branch_step(st, instruction)),
            ThumbClass::UnconditionalBranch => Ok(unconditional_branch_step(st, instruction)),
            ThumbClass::LongBranchWithLink => Ok(long_branch_with_link_step(st, instruction)),
        },
    }
}

/// Decodes a 16-bit instruction and executes it.
pub fn process_instruction_thumb(cpu: &mut CPU, instruction: u32) -> (r: Result<(), EmuError>)
    requires
        old(cpu)@.wf(),
    ensures
        final(cpu)@.wf(),
        outcome_is(r, final(cpu)@, thumb_step(old(cpu)@, instruction)),
{
    match decode_thumb(instruction) {
        None => Err(EmuError::UnknownInstruction),
        Some(class) => match class {
            ThumbClass::AddSubtract => {
                add_subtract(cpu, instruction);
                Ok(())
            },
            ThumbClass::MoveShiftedRegister => {
                move_shifted_register(cpu, instruction);
                Ok(())
            },
            ThumbClass::MoveCompareAddSubtractImmediate => {
                move_compare_add_subtract_immediate(cpu, instruction);
                Ok(())
            },
            ThumbClass::AluOperations => {
                alu_operations(cpu, instruction);
                Ok(())
            },
            ThumbClass::HiRegisterOperations => {
                hi_register_operations_be(cpu, instruction);
                Ok(())
            },
            ThumbClass::PcRelativeLoad => pc_relative_load(cpu, instruction),
            ThumbClass::LoadStoreRegisterOffset => load_store_register_offset(cpu, instruction),
            ThumbClass::LoadStoreSignExtended => load_store_sign_extended(cpu, instruction),
            ThumbClass::LoadStoreImmediateOffset => load_store_immediate_offset(cpu, instruction),
            ThumbClass::LoadStoreHalfword => load_store_halfword(cpu, instruction),
            ThumbClass::SpRelativeLoadStore => sp_relative_load_store(cpu, instruction),
            ThumbClass::LoadAddress => {
                load_address(cpu, instruction);
                Ok(())
            },
            ThumbClass::AddOffsetToStackPointer => {
                add_offset_to_stack_pointer(cpu, instruction);
                Ok(())
            },
            ThumbClass::PushPopRegisters => push_pop_registers(cpu, instruction),
            ThumbClass::MultipleLoadStore => multiple_load_store(cpu, instruction),
            ThumbClass::SoftwareInterrupt => {
                software_interrupt(cpu, instruction);
                Ok(())
            },
            ThumbClass::ConditionalBranch => {
                conditional_branch(cpu, instruction);
                Ok(())
            },
            ThumbClass::UnconditionalBranch => {
                unconditional_branch(cpu, instruction);
                Ok(())
            },
            ThumbClass::LongBranchWithLink => {
                long_branch_with_link(cpu, instruction);
                Ok(())
            },
        },
    }
}

} // verus!
