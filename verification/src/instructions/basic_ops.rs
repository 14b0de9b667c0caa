//! The primitives of both instruction sets: the barrel shifter and the sixteen
//! operations of the arithmetic-logic unit, each as a function of its operands
//! and as an operation on the processor.

use vstd::prelude::*;
use crate::cpu::{ConditionFlags, CPU};
use crate::instructions::masks_32bit::{B_0, B_31};
use crate::model::CpuState;
use crate::util::{bit_of, bit_set, lemma_ror32_bits, ror32, rotate_right};

verus! {

// ---- barrel shifter ----
/// Shift kind: logical left.
pub const LSL: u32 = 0;

/// Shift kind: logical right.
pub const LSR: u32 = 1;

/// Shift kind: arithmetic right.
pub const ASR: u32 = 2;

/// Shift kind: rotate right.
pub const ROR: u32 = 3;

/// The word whose every bit is the sign bit of `value`.
pub open spec fn sign_fill(value: u32) -> u32 {
    if bit_of(value, 31) {
        0xFFFF_FFFF
    } else {
        0
    }
}

/// `value` shifted right by `amount`, 1 to 31, with copies of the sign bit
/// coming in from the left.
pub open spec fn asr32(value: u32, amount: u32) -> u32 {
    if bit_of(value, 31) {
        (value >> amount) | !(0xFFFF_FFFFu32 >> amount)
    } else {
        value >> amount
    }
}

/// Logical shift left: result and carry out. An amount of 0 leaves value and
/// carry as they are; the carry of a shift by 1 to 32 is the last bit pushed
/// out.
pub open spec fn lsl_out(value: u32, amount: u32, carry_in: bool) -> (u32, bool) {
    if amount == 0 {
        (value, carry_in)
    } else if amount < 32 {
        (value << amount, bit_of(value, (32 - amount) as u32))
    } else if amount == 32 {
        (0, bit_of(value, 0))
    } else {
        (0, false)
    }
}

/// Logical shift right: result and carry out. An amount of 0 stands for 32.
pub open spec fn lsr_out(value: u32, amount: u32, carry_in: bool) -> (u32, bool) {
    if amount == 0 || amount == 32 {
        (0, bit_of(value, 31))
    } else if amount < 32 {
        (value >> amount, bit_of(value, (amount - 1) as u32))
    } else {
        (0, false)
    }
}

/// Arithmetic shift right: result and carry out. An amount of 0 stands for
/// 32, and from 32 on every bit of the result, and the carry, is the sign.
pub open spec fn asr_out(value: u32, amount: u32, carry_in: bool) -> (u32, bool) {
    if amount == 0 || amount >= 32 {
        (sign_fill(value), bit_of(value, 31))
    } else {
        (asr32(value, amount), bit_of(value, (amount - 1) as u32))
    }
}

/// Rotate right: result and carry out. An amount of 0 rotates by one place
/// through the carry; any other amount counts modulo 32, and a multiple of 32
/// leaves the value and gives its top bit as carry.
pub open spec fn ror_out(value: u32, amount: u32, carry_in: bool) -> (u32, bool) {
    if amount == 0 {
        (
            (value >> 1) | if carry_in {
                0x8000_0000u32
            } else {
                0u32
            },
            bit_of(value, 0),
        )
    } else if amount % 32 == 0 {
        (value, bit_of(value, 31))
    } else {
        (ror32(value, amount), bit_of(value, (amount % 32 - 1) as u32))
    }
}

/// The shifter: result and carry out for one of the four kinds.
pub open spec fn shift_out(kind: u32, value: u32, amount: u32, carry_in: bool) -> (u32, bool) {
    if kind == LSL {
        lsl_out(value, amount, carry_in)
    } else if kind == LSR {
        lsr_out(value, amount, carry_in)
    } else if kind == ASR {
        asr_out(value, amount, carry_in)
    } else {
        ror_out(value, amount, carry_in)
    }
}

proof fn lemma_shift_steps(value: u32, amount: u32)
    by (bit_vector)
    requires
        1 <= amount <= 31,
    ensures
        (value << ((amount - 1) as u32)) << 1 == value << amount,
        ((value << ((amount - 1) as u32)) & 0x8000_0000 != 0) == ((value >> ((32 - amount) as u32))
            & 1 == 1),
        (value >> ((amount - 1) as u32)) >> 1 == value >> amount,
        ((value >> ((amount - 1) as u32)) & 1 != 0) == ((value >> ((amount - 1) as u32)) & 1 == 1),
{
}

proof fn lemma_shift_edges(value: u32)
    by (bit_vector)
    ensures
        (value & 1 != 0) == ((value >> 0) & 1 == 1),
        (value & 0x8000_0000 != 0) == ((value >> 31) & 1 == 1),
        ((value >> 1) | (value << 31)) | 0x8000_0000 == (value >> 1) | 0x8000_0000u32,
        ((value >> 1) | (value << 31)) & !0x8000_0000u32 == (value >> 1) | 0u32,
{
}

proof fn lemma_shifted_bits(value: u32, amount: u32, index: u32)
    by (bit_vector)
    requires
        1 <= amount <= 31,
        index < 32,
    ensures
        (((value << amount) >> index) & 1 == 1) == (amount <= index && (value >> ((index
            - amount) as u32)) & 1 == 1),
        (((value >> amount) >> index) & 1 == 1) == (index + amount < 32 && (value >> ((index
            + amount) as u32)) & 1 == 1),
        ((((value >> amount) | !(0xFFFF_FFFFu32 >> amount)) >> index) & 1 == 1) == (index + amount
            >= 32 || (value >> ((index + amount) as u32)) & 1 == 1),
        ((0xFFFF_FFFFu32 >> index) & 1 == 1),
        ((0u32 >> index) & 1 == 0),
        ((((value >> 1) | 0x8000_0000u32) >> index) & 1 == 1) == (index == 31 || (value >> ((index
            + 1) as u32)) & 1 == 1),
        ((((value >> 1) | 0u32) >> index) & 1 == 1) == (index < 31 && (value >> ((index
            + 1) as u32)) & 1 == 1),
{
}

/// What the shifter does to the bits of a value. A shift left by `n` moves
/// bit `k` to bit `k + n` and fills with zeros from below; a logical shift
/// right moves bit `k + n` to bit `k` and fills with zeros from above; an
/// arithmetic shift right does the same and fills with the sign bit. For
/// both shifts right an amount of 0 counts as 32. A rotation by 0 moves
/// every bit down by one and the carry into the top bit.
pub proof fn lemma_shifter_bits(value: u32, amount: u32, carry_in: bool, index: u32)
    requires
        index < 32,
    ensures
        bit_of(lsl_out(value, amount, carry_in).0, index) == (amount <= index && bit_of(
            value,
            (index - amount) as u32,
        )),
        bit_of(lsr_out(value, amount, carry_in).0, index) == (amount != 0 && index + amount < 32
            && bit_of(value, (index + amount) as u32)),
        bit_of(asr_out(value, amount, carry_in).0, index) == bit_of(
            value,
            if amount != 0 && index + amount < 32 {
                (index + amount) as u32
            } else {
                31
            },
        ),
        amount != 0 ==> bit_of(ror_out(value, amount, carry_in).0, index) == bit_of(
            value,
            ((index + amount) % 32) as u32,
        ),
        amount == 0 ==> bit_of(ror_out(value, amount, carry_in).0, index) == if index == 31 {
            carry_in
        } else {
            bit_of(value, (index + 1) as u32)
        },
{
    lemma_ror32_bits(value, amount, index);
    if 1 <= amount <= 31 {
        lemma_shifted_bits(value, amount, index);
    } else {
        lemma_shifted_bits(value, 1, index);
    }
}

/// Shifts `value` left by `amount`.
pub fn shift_left(value: u32, amount: u32, carry_in: bool) -> (out: (u32, bool))
    ensures
        out == lsl_out(value, amount, carry_in),
{
    if amount == 0 {
        (value, carry_in)
    } else if amount == 32 {
        proof {
            lemma_shift_edges(value);
        }
        (0, value & B_0 != 0)
    } else if amount > 32 {
        (0, false)
    } else {
        proof {
            lemma_shift_steps(value, amount);
        }
        let one_less_shift = value << (amount - 1);
        (one_less_shift << 1, one_less_shift & B_31 != 0)
    }
}

/// Shifts `value` right by `amount`, zeros coming in.
pub fn shift_right(value: u32, amount: u32, carry_in: bool) -> (out: (u32, bool))
    ensures
        out == lsr_out(value, amount, carry_in),
{
    if amount == 0 || amount == 32 {
        proof {
            lemma_shift_edges(value);
        }
        (0, value & B_31 != 0)
    } else if amount > 32 {
        (0, false)
    } else {
        proof {
            lemma_shift_steps(value, amount);
        }
        let one_less_shift = value >> (amount - 1);
        (one_less_shift >> 1, one_less_shift & B_0 != 0)
    }
}

/// Shifts `value` right by `amount`, copies of the sign bit coming in.
pub fn shift_right_signed(value: u32, amount: u32, carry_in: bool) -> (out: (u32, bool))
    ensures
        out == asr_out(value, amount, carry_in),
{
    proof {
        lemma_shift_edges(value);
    }
    let negative = value & 0x8000_0000 != 0;
    if amount == 0 || amount >= 32 {
        (
            if negative {
                0xFFFF_FFFF
            } else {
                0
            },
            negative,
        )
    } else {
        proof {
            lemma_shift_steps(value, amount);
        }
        let carry = (value >> (amount - 1)) & 1 != 0;
        if negative {
            ((value >> amount) | !(0xFFFF_FFFFu32 >> amount), carry)
        } else {
            (value >> amount, carry)
        }
    }
}

/// Rotates `value` right by `amount`; by one place through the carry where
/// the amount is 0.
pub fn rotate(value: u32, amount: u32, carry_in: bool) -> (out: (u32, bool))
    ensures
        out == ror_out(value, amount, carry_in),
{
    proof {
        lemma_shift_edges(value);
    }
    if amount == 0 {
        let once = (value >> 1) | (value << 31);
        (
            if carry_in {
                once | 0x8000_0000
            } else {
                once & !0x8000_0000u32
            },
            value & 1 != 0,
        )
    } else if amount % 32 == 0 {
        (value, value & 0x8000_0000 != 0)
    } else {
        (rotate_right(value, amount), bit_set(value, amount % 32 - 1))
    }
}

/// Runs the shifter on one of the four kinds.
pub fn shift(kind: u32, value: u32, amount: u32, carry_in: bool) -> (out: (u32, bool))
    ensures
        out == shift_out(kind, value, amount, carry_in),
{
    if kind == LSL {
        shift_left(value, amount, carry_in)
    } else if kind == LSR {
        shift_right(value, amount, carry_in)
    } else if kind == ASR {
        shift_right_signed(value, amount, carry_in)
    } else {
        rotate(value, amount, carry_in)
    }
}

/// The machine after the shifter has run: the carry flag takes the carry out
/// where `s` asks for it, and nothing else changes.
pub open spec fn shift_state(
    st: CpuState,
    kind: u32,
    s: bool,
    value: u32,
    amount: u32,
) -> CpuState {
    if s {
        st.with_flag(
            ConditionFlags::C,
            shift_out(kind, value, amount, st.flag(ConditionFlags::C)).1,
        )
    } else {
        st
    }
}

/// Runs the shifter against the carry flag of the processor, and stores the
/// carry out there where `s` is set.
pub fn shift_on(cpu: &mut CPU, kind: u32, s: bool, value: u32, amount: u32) -> (result: u32)
    requires
        old(cpu)@.wf(),
    ensures
        result == shift_out(kind, value, amount, old(cpu)@.flag(ConditionFlags::C)).0,
        final(cpu)@ == shift_state(old(cpu)@, kind, s, value, amount),
        final(cpu)@.wf(),
{
    let carry_in = cpu.get_condition_flag(ConditionFlags::C);
    let (result, carry_out) = shift(kind, value, amount, carry_in);
    if s {
        cpu.set_condition_flag(ConditionFlags::C, carry_out);
    }
    result
}

/// Rotate right on the processor.
pub fn rotate_32bit(cpu: &mut CPU, s: bool, value: u32, amount: u32) -> (result: u32)
    requires
        old(cpu)@.wf(),
    ensures
        result == ror_out(value, amount, old(cpu)@.flag(ConditionFlags::C)).0,
        final(cpu)@ == shift_state(old(cpu)@, ROR, s, value, amount),
        final(cpu)@.wf(),
{
    shift_on(cpu, ROR, s, value, amount)
}

/// Logical shift left on the processor.
pub fn logical_left_32bit(cpu: &mut CPU, s: bool, value: u32, amount: u32) -> (result: u32)
    requires
        old(cpu)@.wf(),
    ensures
        result == lsl_out(value, amount, old(cpu)@.flag(ConditionFlags::C)).0,
        final(cpu)@ == shift_state(old(cpu)@, LSL, s, value, amount),
        final(cpu)@.wf(),
{
    shift_on(cpu, LSL, s, value, amount)
}

/// Logical shift right on the processor.
pub fn logical_right_32bit(cpu: &mut CPU, s: bool, value: u32, amount: u32) -> (result: u32)
    requires
        old(cpu)@.wf(),
    ensures
        result == lsr_out(value, amount, old(cpu)@.flag(ConditionFlags::C)).0,
        final(cpu)@ == shift_state(old(cpu)@, LSR, s, value, amount),
        final(cpu)@.wf(),
{
    shift_on(cpu, LSR, s, value, amount)
}

/// Arithmetic shift right on the processor.
pub fn arithmetic_right_32bit(cpu: &mut CPU, s: bool, value: u32, amount: u32) -> (result: u32)
    requires
        old(cpu)@.wf(),
    ensures
        result == asr_out(value, amount, old(cpu)@.flag(ConditionFlags::C)).0,
        final(cpu)@ == shift_state(old(cpu)@, ASR, s, value, amount),
        final(cpu)@.wf(),
{
    shift_on(cpu, ASR, s, value, amount)
}

// ---- arithmetic-logic unit ----
pub const AND: u32 = 0;

pub const EOR: u32 = 1;

pub const SUB: u32 = 2;

pub const RSB: u32 = 3;

pub const ADD: u32 = 4;

pub const ADC: u32 = 5;

pub const SBC: u32 = 6;

pub const RSC: u32 = 7;

pub const TST: u32 = 8;

pub const TEQ: u32 = 9;

pub const CMP: u32 = 10;

pub const CMN: u32 = 11;

pub const ORR: u32 = 12;

pub const MOV: u32 = 13;

pub const BIC: u32 = 14;

pub const MVN: u32 = 15;

/// A word read as a two's complement number.
pub open spec fn signed(x: u32) -> int {
    if x >= 0x8000_0000 {
        x - 0x1_0000_0000
    } else {
        x as int
    }
}

/// The adder: `op1 + op2 + carry_in`. The result is the sum modulo 2^32, the
/// carry says that the unsigned sum did not fit, the overflow that the signed
/// sum did not.
pub open spec fn add_out(op1: u32, op2: u32, carry_in: bool) -> (u32, bool, bool) {
    let c: int = if carry_in {
        1
    } else {
        0
    };
    let sum = op1 + op2 + c;
    let signed_sum = signed(op1) + signed(op2) + c;
    (
        (sum % 0x1_0000_0000) as u32,
        sum >= 0x1_0000_0000,
        signed_sum < -0x8000_0000 || signed_sum > 0x7FFF_FFFF,
    )
}

/// The adder at work as a subtractor: `op1 - op2 - (1 - carry_in)`. The
/// result is the difference modulo 2^32, the carry says that there was no
/// borrow, the overflow that the signed difference did not fit.
pub open spec fn sub_out(op1: u32, op2: u32, carry_in: bool) -> (u32, bool, bool) {
    let b: int = if carry_in {
        0
    } else {
        1
    };
    let diff = op1 - op2 - b;
    let signed_diff = signed(op1) - signed(op2) - b;
    (
        (diff % 0x1_0000_0000) as u32,
        diff >= 0,
        signed_diff < -0x8000_0000 || signed_diff > 0x7FFF_FFFF,
    )
}

/// Adds with carry in. The overflow is found from the signs: those of the
/// operands agree and that of the result differs.
pub fn adder(op1: u32, op2: u32, carry_in: bool) -> (out: (u32, bool, bool))
    ensures
        out == add_out(op1, op2, carry_in),
{
    let c: u32 = if carry_in {
        1
    } else {
        0
    };
    let wide: u64 = op1 as u64 + op2 as u64 + c as u64;
    let result = op1.wrapping_add(op2).wrapping_add(c);
    let op1_sign = op1 >= 0x8000_0000;
    let op2_sign = op2 >= 0x8000_0000;
    let res_sign = result >= 0x8000_0000;
    (result, wide > 0xFFFF_FFFF, op1_sign == op2_sign && op1_sign != res_sign)
}

/// Subtracts with carry in. The overflow is found from the signs: those of
/// the operands differ and that of the result is that of the subtrahend.
pub fn subtractor(op1: u32, op2: u32, carry_in: bool) -> (out: (u32, bool, bool))
    ensures
        out == sub_out(op1, op2, carry_in),
{
    let b: u32 = if carry_in {
        0
    } else {
        1
    };
    let result = op1.wrapping_sub(op2).wrapping_sub(b);
    let op1_sign = op1 >= 0x8000_0000;
    let op2_sign = op2 >= 0x8000_0000;
    let res_sign = result >= 0x8000_0000;
    (result, op1 as u64 >= op2 as u64 + b as u64, op1_sign != op2_sign && res_sign == op2_sign)
}

/// Whether an operation takes its carry from the shifter and leaves the
/// overflow flag alone.
pub open spec fn is_logical(opcode: u32) -> bool {
    opcode == AND || opcode == EOR || opcode == TST || opcode == TEQ || opcode == ORR || opcode
        == MOV || opcode == BIC || opcode == MVN
}

/// Whether an operation only sets flags and writes no register.
pub open spec fn is_test(opcode: u32) -> bool {
    opcode == TST || opcode == TEQ || opcode == CMP || opcode == CMN
}

/// What an operation computes: the result and, for the arithmetic ones, carry
/// and overflow of the adder.
pub open spec fn alu_out(opcode: u32, op1: u32, op2: u32, carry_in: bool) -> (u32, bool, bool)
    recommends
        opcode < 16,
{
    if opcode == AND || opcode == TST {
        (op1 & op2, false, false)
    } else if opcode == EOR || opcode == TEQ {
        (op1 ^ op2, false, false)
    } else if opcode == SUB || opcode == CMP {
        sub_out(op1, op2, true)
    } else if opcode == RSB {
        sub_out(op2, op1, true)
    } else if opcode == ADD || opcode == CMN {
        add_out(op1, op2, false)
    } else if opcode == ADC {
        add_out(op1, op2, carry_in)
    } else if opcode == SBC {
        sub_out(op1, op2, carry_in)
    } else if opcode == RSC {
        sub_out(op2, op1, carry_in)
    } else if opcode == ORR {
        (op1 | op2, false, false)
    } else if opcode == MOV {
        (op2, false, false)
    } else if opcode == BIC {
        (op1 & !op2, false, false)
    } else {
        (!op2, false, false)
    }
}

/// The machine after an operation. The flags change where `s` is set, and
/// always for the four tests: N and Z from the result, and for an arithmetic
/// operation C and V from the adder.
pub open spec fn alu_state(st: CpuState, opcode: u32, s: bool, op1: u32, op2: u32) -> CpuState
    recommends
        opcode < 16,
{
    let out = alu_out(opcode, op1, op2, st.flag(ConditionFlags::C));
    if !s && !is_test(opcode) {
        st
    } else if is_logical(opcode) {
        st.with_nz(out.0)
    } else {
        st.with_nzcv(out.0, out.1, out.2)
    }
}

/// The value that an operation hands back for the destination register: its
/// result, or 0 for the four tests, which write none.
pub open spec fn alu_value(st: CpuState, opcode: u32, op1: u32, op2: u32) -> u32
    recommends
        opcode < 16,
{
    if is_test(opcode) {
        0
    } else {
        alu_out(opcode, op1, op2, st.flag(ConditionFlags::C)).0
    }
}

/// Sets N and Z from a result where `s` is set.
pub fn logical_flag_helper(cpu: &mut CPU, s: bool, res: u32)
    requires
        old(cpu)@.wf(),
    ensures
        final(cpu)@ == if s {
            old(cpu)@.with_nz(res)
        } else {
            old(cpu)@
        },
        final(cpu)@.wf(),
{
    if s {
        cpu.set_condition_flag(ConditionFlags::Z, res == 0);
        cpu.set_condition_flag(ConditionFlags::N, res & B_31 != 0);
    }
}

/// Sets N and Z from a result, and C and V as given, where `s` is set.
pub fn arithmetic_flag_helper(cpu: &mut CPU, s: bool, carry: bool, overflow: bool, res: u32)
    requires
        old(cpu)@.wf(),
    ensures
        final(cpu)@ == if s {
            old(cpu)@.with_nzcv(res, carry, overflow)
        } else {
            old(cpu)@
        },
        final(cpu)@.wf(),
{
    if s {
        cpu.set_condition_flag(ConditionFlags::Z, res == 0);
        cpu.set_condition_flag(ConditionFlags::N, res & B_31 != 0);
        cpu.set_condition_flag(ConditionFlags::V, overflow);
        cpu.set_condition_flag(ConditionFlags::C, carry);
    }
}

/// Bitwise and; N and Z are set where `s` is set.
pub fn and_op(cpu: &mut CPU, s: bool, op1: u32, op2: u32) -> (res: u32)
    requires
        old(cpu)@.wf(),
    ensures
        res == op1 & op2,
        res == alu_value(old(cpu)@, AND, op1, op2),
        final(cpu)@ == alu_state(old(cpu)@, AND, s, op1, op2),
        final(cpu)@.wf(),
{
    let res = op1 & op2;
    logical_flag_helper(cpu, s, res);
    res
}

/// Bitwise exclusive or; N and Z are set where `s` is set.
pub fn eor_op(cpu: &mut CPU, s: bool, op1: u32, op2: u32) -> (res: u32)
    requires
        old(cpu)@.wf(),
    ensures
        res == op1 ^ op2,
        res == alu_value(old(cpu)@, EOR, op1, op2),
        final(cpu)@ == alu_state(old(cpu)@, EOR, s, op1, op2),
        final(cpu)@.wf(),
{
    let res = op1 ^ op2;
    logical_flag_helper(cpu, s, res);
    res
}

/// Sets the flags of `op1 & op2` whatever `s` says, and hands back 0.
pub fn tst_op(cpu: &mut CPU, _s: bool, op1: u32, op2: u32) -> (res: u32)
    requires
        old(cpu)@.wf(),
    ensures
        res == 0,
        final(cpu)@ == old(cpu)@.with_nz(op1 & op2),
        final(cpu)@ == alu_state(old(cpu)@, TST, _s, op1, op2),
        final(cpu)@.wf(),
{
    logical_flag_helper(cpu, true, op1 & op2);
    0
}

/// Sets the flags of `op1 ^ op2` whatever `s` says, and hands back 0.
pub fn teq_op(cpu: &mut CPU, _s: bool, op1: u32, op2: u32) -> (res: u32)
    requires
        old(cpu)@.wf(),
    ensures
        res == 0,
        final(cpu)@ == old(cpu)@.with_nz(op1 ^ op2),
        final(cpu)@ == alu_state(old(cpu)@, TEQ, _s, op1, op2),
        final(cpu)@.wf(),
{
    logical_flag_helper(cpu, true, op1 ^ op2);
    0
}

/// Bitwise or; N and Z are set where `s` is set.
pub fn orr_op(cpu: &mut CPU, s: bool, op1: u32, op2: u32) -> (res: u32)
    requires
        old(cpu)@.wf(),
    ensures
        res == op1 | op2,
        res == alu_value(old(cpu)@, ORR, op1, op2),
        final(cpu)@ == alu_state(old(cpu)@, ORR, s, op1, op2),
        final(cpu)@.wf(),
{
    let res = op1 | op2;
    logical_flag_helper(cpu, s, res);
    res
}

/// Hands the second operand through; N and Z are set where `s` is set.
pub fn mov_op(cpu: &mut CPU, s: bool, _op1: u32, op2: u32) -> (res: u32)
    requires
        old(cpu)@.wf(),
    ensures
        res == op2,
        res == alu_value(old(cpu)@, MOV, _op1, op2),
        final(cpu)@ == alu_state(old(cpu)@, MOV, s, _op1, op2),
        final(cpu)@.wf(),
{
    logical_flag_helper(cpu, s, op2);
    op2
}

/// Clears in `op1` the bits that are set in `op2`; N and Z are set where `s` is set.
pub fn bic_op(cpu: &mut CPU, s: bool, op1: u32, op2: u32) -> (res: u32)
    requires
        old(cpu)@.wf(),
    ensures
        res == op1 & !op2,
        res == alu_value(old(cpu)@, BIC, op1, op2),
        final(cpu)@ == alu_state(old(cpu)@, BIC, s, op1, op2),
        final(cpu)@.wf(),
{
    let res = op1 & !op2;
    logical_flag_helper(cpu, s, res);
    res
}

/// Inverts the second operand; N and Z are set where `s` is set.
pub fn mvn_op(cpu: &mut CPU, s: bool, _op1: u32, op2: u32) -> (res: u32)
    requires
        old(cpu)@.wf(),
    ensures
        res == !op2,
        res == alu_value(old(cpu)@, MVN, _op1, op2),
        final(cpu)@ == alu_state(old(cpu)@, MVN, s, _op1, op2),
        final(cpu)@.wf(),
{
    logical_flag_helper(cpu, s, !op2);
    !op2
}

/// Subtracts `op2` from `op1`; all four flags are set where `s` is set.
pub fn sub_op(cpu: &mut CPU, s: bool, op1: u32, op2: u32) -> (res: u32)
    requires
        old(cpu)@.wf(),
    ensures
        res == sub_out(op1, op2, true).0,
        res == alu_value(old(cpu)@, SUB, op1, op2),
        final(cpu)@ == alu_state(old(cpu)@, SUB, s, op1, op2),
        final(cpu)@.wf(),
{
    let (res, carry, overflow) = subtractor(op1, op2, true);
    arithmetic_flag_helper(cpu, s, carry, overflow, res);
    res
}

/// Subtracts `op1` from `op2`; all four flags are set where `s` is set.
pub fn rsb_op(cpu: &mut CPU, s: bool, op1: u32, op2: u32) -> (res: u32)
    requires
        old(cpu)@.wf(),
    ensures
        res == sub_out(op2, op1, true).0,
        res == alu_value(old(cpu)@, RSB, op1, op2),
        final(cpu)@ == alu_state(old(cpu)@, RSB, s, op1, op2),
        final(cpu)@.wf(),
{
    let (res, carry, overflow) = subtractor(op2, op1, true);
    arithmetic_flag_helper(cpu, s, carry, overflow, res);
    res
}

/// Adds the operands; all four flags are set where `s` is set.
pub fn add_op(cpu: &mut CPU, s: bool, op1: u32, op2: u32) -> (res: u32)
    requires
        old(cpu)@.wf(),
    ensures
        res == add_out(op1, op2, false).0,
        res == alu_value(old(cpu)@, ADD, op1, op2),
        final(cpu)@ == alu_state(old(cpu)@, ADD, s, op1, op2),
        final(cpu)@.wf(),
{
    let (res, carry, overflow) = adder(op1, op2, false);
    arithmetic_flag_helper(cpu, s, carry, overflow, res);
    res
}

/// Adds with the carry flag as carry in.
pub fn adc_op(cpu: &mut CPU, s: bool, op1: u32, op2: u32) -> (res: u32)
    requires
        old(cpu)@.wf(),
    ensures
        res == add_out(op1, op2, old(cpu)@.flag(ConditionFlags::C)).0,
        res == alu_value(old(cpu)@, ADC, op1, op2),
        final(cpu)@ == alu_state(old(cpu)@, ADC, s, op1, op2),
        final(cpu)@.wf(),
{
    let carry_in = cpu.get_condition_flag(ConditionFlags::C);
    let (res, carry, overflow) = adder(op1, op2, carry_in);
    arithmetic_flag_helper(cpu, s, carry, overflow, res);
    res
}

/// Subtracts `op2` and the inverse of the carry flag from `op1`.
pub fn sbc_op(cpu: &mut CPU, s: bool, op1: u32, op2: u32) -> (res: u32)
    requires
        old(cpu)@.wf(),
    ensures
        res == sub_out(op1, op2, old(cpu)@.flag(ConditionFlags::C)).0,
        res == alu_value(old(cpu)@, SBC, op1, op2),
        final(cpu)@ == alu_state(old(cpu)@, SBC, s, op1, op2),
        final(cpu)@.wf(),
{
    let carry_in = cpu.get_condition_flag(ConditionFlags::C);
    let (res, carry, overflow) = subtractor(op1, op2, carry_in);
    arithmetic_flag_helper(cpu, s, carry, overflow, res);
    res
}

/// Subtracts `op1` and the inverse of the carry flag from `op2`.
pub fn rsc_op(cpu: &mut CPU, s: bool, op1: u32, op2: u32) -> (res: u32)
    requires
        old(cpu)@.wf(),
    ensures
        res == sub_out(op2, op1, old(cpu)@.flag(ConditionFlags::C)).0,
        res == alu_value(old(cpu)@, RSC, op1, op2),
        final(cpu)@ == alu_state(old(cpu)@, RSC, s, op1, op2),
        final(cpu)@.wf(),
{
    let carry_in = cpu.get_condition_flag(ConditionFlags::C);
    let (res, carry, overflow) = subtractor(op2, op1, carry_in);
    arithmetic_flag_helper(cpu, s, carry, overflow, res);
    res
}

/// Sets the flags of `op1 - op2` whatever `s` says, and hands back 0.
pub fn cmp_op(cpu: &mut CPU, _s: bool, op1: u32, op2: u32) -> (res: u32)
    requires
        old(cpu)@.wf(),
    ensures
        res == 0,
        final(cpu)@ == alu_state(old(cpu)@, CMP, _s, op1, op2),
        final(cpu)@.wf(),
{
    let (res, carry, overflow) = subtractor(op1, op2, true);
    arithmetic_flag_helper(cpu, true, carry, overflow, res);
    0
}

/// Sets the flags of `op1 + op2` whatever `s` says, and hands back 0.
pub fn cmn_op(cpu: &mut CPU, _s: bool, op1: u32, op2: u32) -> (res: u32)
    requires
        old(cpu)@.wf(),
    ensures
        res == 0,
        final(cpu)@ == alu_state(old(cpu)@, CMN, _s, op1, op2),
        final(cpu)@.wf(),
{
    let (res, carry, overflow) = adder(op1, op2, false);
    arithmetic_flag_helper(cpu, true, carry, overflow, res);
    0
}

/// Runs the operation that a four-bit opcode names.
pub fn alu(cpu: &mut CPU, opcode: u32, s: bool, op1: u32, op2: u32) -> (res: u32)
    requires
        old(cpu)@.wf(),
        opcode < 16,
    ensures
        res == alu_value(old(cpu)@, opcode, op1, op2),
        final(cpu)@ == alu_state(old(cpu)@, opcode, s, op1, op2),
        final(cpu)@.wf(),
{
    match opcode {
        0 => and_op(cpu, s, op1, op2),
        1 => eor_op(cpu, s, op1, op2),
        2 => sub_op(cpu, s, op1, op2),
        3 => rsb_op(cpu, s, op1, op2),
        4 => add_op(cpu, s, op1, op2),
        5 => adc_op(cpu, s, op1, op2),
        6 => sbc_op(cpu, s, op1, op2),
        7 => rsc_op(cpu, s, op1, op2),
        8 => tst_op(cpu, s, op1, op2),
        9 => teq_op(cpu, s, op1, op2),
        10 => cmp_op(cpu, s, op1, op2),
        11 => cmn_op(cpu, s, op1, op2),
        12 => orr_op(cpu, s, op1, op2),
        13 => mov_op(cpu, s, op1, op2),
        14 => bic_op(cpu, s, op1, op2),
        _ => mvn_op(cpu, s, op1, op2),
    }
}

proof fn lemma_flag_bits(word: u32)
    by (bit_vector)
    ensures
        (word | 0x8000_0000) & 0x8000_0000 != 0,
        (word & !0x8000_0000u32) & 0x8000_0000 == 0,
        (word | 0x4000_0000) & 0x4000_0000 != 0,
        (word & !0x4000_0000u32) & 0x4000_0000 == 0,
        (word | 0x2000_0000) & 0x2000_0000 != 0,
        (word & !0x2000_0000u32) & 0x2000_0000 == 0,
        (word | 0x1000_0000) & 0x1000_0000 != 0,
        (word & !0x1000_0000u32) & 0x1000_0000 == 0,
        (word | 0x8000_0000) & 0x7FFF_FFFF == word & 0x7FFF_FFFF,
        (word & !0x8000_0000u32) & 0x7FFF_FFFF == word & 0x7FFF_FFFF,
        (word | 0x4000_0000) & 0xBFFF_FFFF == word & 0xBFFF_FFFF,
        (word & !0x4000_0000u32) & 0xBFFF_FFFF == word & 0xBFFF_FFFF,
        (word | 0x2000_0000) & 0xDFFF_FFFF == word & 0xDFFF_FFFF,
        (word & !0x2000_0000u32) & 0xDFFF_FFFF == word & 0xDFFF_FFFF,
        (word | 0x1000_0000) & 0xEFFF_FFFF == word & 0xEFFF_FFFF,
        (word & !0x1000_0000u32) & 0xEFFF_FFFF == word & 0xEFFF_FFFF,
{
}

proof fn lemma_flag_frame(a: u32, b: u32)
    by (bit_vector)
    ensures
        a & 0x7FFF_FFFF == b & 0x7FFF_FFFF ==> a & 0x4000_0000 == b & 0x4000_0000 && a
            & 0x2000_0000 == b & 0x2000_0000 && a & 0x1000_0000 == b & 0x1000_0000 && a
            & 0x0FFF_FFFF == b & 0x0FFF_FFFF,
        a & 0xBFFF_FFFF == b & 0xBFFF_FFFF ==> a & 0x8000_0000 == b & 0x8000_0000 && a
            & 0x2000_0000 == b & 0x2000_0000 && a & 0x1000_0000 == b & 0x1000_0000 && a
            & 0x0FFF_FFFF == b & 0x0FFF_FFFF,
        a & 0xDFFF_FFFF == b & 0xDFFF_FFFF ==> a & 0x8000_0000 == b & 0x8000_0000 && a
            & 0x4000_0000 == b & 0x4000_0000 && a & 0x1000_0000 == b & 0x1000_0000 && a
            & 0x0FFF_FFFF == b & 0x0FFF_FFFF,
        a & 0xEFFF_FFFF == b & 0xEFFF_FFFF ==> a & 0x8000_0000 == b & 0x8000_0000 && a
            & 0x4000_0000 == b & 0x4000_0000 && a & 0x2000_0000 == b & 0x2000_0000 && a
            & 0x0FFF_FFFF == b & 0x0FFF_FFFF,
        (a & 0x8000_0000 != 0) == ((a >> 31) & 1 == 1),
{
}

/// Setting one condition flag gives that flag its new value and leaves the
/// other three flags, and every bit below them, as they were.
pub proof fn lemma_with_flag(st: CpuState, f: ConditionFlags, set: bool)
    requires
        st.regs.len() == 37,
    ensures
        st.with_flag(f, set).flag(f) == set,
        forall|g: ConditionFlags| g != f ==> st.with_flag(f, set).flag(g) == st.flag(g),
        st.with_flag(f, set).cpsr() & 0x0FFF_FFFF == st.cpsr() & 0x0FFF_FFFF,
        st.with_flag(f, set) == st.with_cpsr(st.with_flag(f, set).cpsr()),
{
    let w = st.cpsr();
    let w2 = st.with_flag(f, set).cpsr();
    assert(st.with_flag(f, set).regs[31] == w2);
    lemma_flag_bits(w);
    lemma_flag_frame(w2, w);
    assert forall|g: ConditionFlags| g != f implies st.with_flag(f, set).flag(g) == st.flag(g) by {
    }
}

/// The flags after an operation that sets them: N is bit 31 of the result
/// and Z says that the result is zero. After an arithmetic operation C is the
/// carry out of the adder and V its overflow; a logical operation leaves both
/// alone. No other bit of the status word changes, and nothing else in the
/// machine.
pub proof fn lemma_alu_flags(st: CpuState, opcode: u32, s: bool, op1: u32, op2: u32)
    requires
        st.regs.len() == 37,
        opcode < 16,
        s || is_test(opcode),
    ensures
        ({
            let out = alu_out(opcode, op1, op2, st.flag(ConditionFlags::C));
            let after = alu_state(st, opcode, s, op1, op2);
            &&& after.flag(ConditionFlags::N) == bit_of(out.0, 31)
            &&& after.flag(ConditionFlags::Z) == (out.0 == 0)
            &&& is_logical(opcode) ==> after.flag(ConditionFlags::C) == st.flag(ConditionFlags::C)
                && after.flag(ConditionFlags::V) == st.flag(ConditionFlags::V)
            &&& !is_logical(opcode) ==> after.flag(ConditionFlags::C) == out.1 && after.flag(
                ConditionFlags::V,
            ) == out.2
            &&& after.cpsr() & 0x0FFF_FFFF == st.cpsr() & 0x0FFF_FFFF
            &&& after == st.with_cpsr(after.cpsr())
        }),
{
    let out = alu_out(opcode, op1, op2, st.flag(ConditionFlags::C));
    let s1 = st.with_flag(ConditionFlags::Z, out.0 == 0);
    let s2 = s1.with_flag(ConditionFlags::N, out.0 & 0x8000_0000 != 0);
    let s3 = s2.with_flag(ConditionFlags::V, out.2);
    let s4 = s3.with_flag(ConditionFlags::C, out.1);
    lemma_with_flag(st, ConditionFlags::Z, out.0 == 0);
    lemma_with_flag(s1, ConditionFlags::N, out.0 & 0x8000_0000 != 0);
    lemma_with_flag(s2, ConditionFlags::V, out.2);
    lemma_with_flag(s3, ConditionFlags::C, out.1);
    lemma_flag_frame(out.0, 0);
    assert(s2 == st.with_nz(out.0));
    assert(s4 == st.with_nzcv(out.0, out.1, out.2));
    assert(s1.regs.update(31, s2.cpsr()) =~= st.regs.update(31, s2.cpsr()));
    assert(s3.regs.update(31, s4.cpsr()) =~= st.regs.update(31, s4.cpsr()));
    assert(s2.regs.update(31, s3.cpsr()) =~= st.regs.update(31, s3.cpsr()));
}

} // verus!
