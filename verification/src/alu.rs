//! The arithmetic-logic unit: each operation gives a result and, where
//! flag-setting is asked for, writes the four condition flags.

use crate::bitfield::bit_is_set;
use crate::cpu::{Arm7tdmiCpu, CpuView};
use crate::memory::MemoryInterface;
use crate::opcodes::DataProcessingOpcode;
use crate::psr::{flags_nibble, CARRY_BIT, OVERFLOW_BIT};
use vstd::prelude::*;

verus! {

/// An integer reduced to 32 bits.
pub open spec fn wrap32(x: int) -> u32 {
    (x % 0x1_0000_0000) as u32
}

/// A word read as a signed number in two's complement.
pub open spec fn signed(x: u32) -> int {
    if x >= 0x8000_0000 {
        x - 0x1_0000_0000
    } else {
        x as int
    }
}

/// Whether an integer can be held as a signed 32-bit number.
pub open spec fn fits_signed(x: int) -> bool {
    -0x8000_0000 <= x < 0x8000_0000
}

/// Whether a word is negative when read as a signed number.
pub open spec fn is_negative(x: u32) -> bool {
    x >= 0x8000_0000
}

/// The state after a logical operation: with flag-setting, N and Z follow
/// the result, C is the shifter's carry-out and V stays.
pub open spec fn logical_outcome(
    view: CpuView,
    set_flags: bool,
    result: u32,
    carry: bool,
) -> CpuView {
    if set_flags {
        view.with_flags(
            flags_nibble(
                is_negative(result),
                result == 0,
                carry,
                bit_is_set(view.cpsr, OVERFLOW_BIT),
            ),
        )
    } else {
        view
    }
}

/// The flags of the sum `a + b + carry_in`: C is set when the unsigned sum
/// does not fit in 32 bits, V when the signed sum does not.
pub open spec fn sum_flags(a: u32, b: u32, carry_in: int) -> u8 {
    flags_nibble(
        is_negative(wrap32(a + b + carry_in)),
        wrap32(a + b + carry_in) == 0,
        a + b + carry_in > u32::MAX,
        !fits_signed(signed(a) + signed(b) + carry_in),
    )
}

/// The flags of the difference `a - b - borrow_in`: C is set when there is
/// no borrow, that is when the unsigned difference is not negative, V when
/// the signed difference does not fit in 32 bits.
pub open spec fn difference_flags(a: u32, b: u32, borrow_in: int) -> u8 {
    flags_nibble(
        is_negative(wrap32(a - b - borrow_in)),
        wrap32(a - b - borrow_in) == 0,
        a - b - borrow_in >= 0,
        !fits_signed(signed(a) - signed(b) - borrow_in),
    )
}

/// The state after an arithmetic operation with the given flags.
pub open spec fn arithmetic_outcome(view: CpuView, set_flags: bool, flags: u8) -> CpuView {
    if set_flags {
        view.with_flags(flags)
    } else {
        view
    }
}

/// The carry flag of a state as 0 or 1.
pub open spec fn carry_of(view: CpuView) -> int {
    if bit_is_set(view.cpsr, CARRY_BIT) {
        1
    } else {
        0
    }
}

pub(crate) fn nibble(n: bool, z: bool, c: bool, v: bool) -> (r: u8)
    ensures
        r == flags_nibble(n, z, c, v),
{
    (if n {
        8u8
    } else {
        0u8
    }) + (if z {
        4u8
    } else {
        0u8
    }) + (if c {
        2u8
    } else {
        0u8
    }) + (if v {
        1u8
    } else {
        0u8
    })
}

fn logical<I: MemoryInterface>(cpu: &mut Arm7tdmiCpu<I>, set_flags: bool, result: u32, carry: bool)
    ensures
        final(cpu).bus() == old(cpu).bus(),
        final(cpu)@ == logical_outcome(old(cpu)@, set_flags, result, carry),
{
    if set_flags {
        let overflow = cpu.cpsr().overflow();
        cpu.set_flags(nibble(result >= 0x8000_0000, result == 0, carry, overflow));
    }
}

fn sum<I: MemoryInterface>(
    cpu: &mut Arm7tdmiCpu<I>,
    set_flags: bool,
    operand1: u32,
    operand2: u32,
    carry_in: bool,
) -> (result: u32)
    ensures
        final(cpu).bus() == old(cpu).bus(),
        result == wrap32(operand1 + operand2 + (if carry_in { 1int } else { 0 })),
        final(cpu)@ == arithmetic_outcome(
            old(cpu)@,
            set_flags,
            sum_flags(operand1, operand2, if carry_in { 1int } else { 0 }),
        ),
{
    let wide: u64 = operand1 as u64 + operand2 as u64 + (if carry_in {
        1u64
    } else {
        0u64
    });
    let carry = wide > 0xFFFF_FFFF;
    let result: u32 = if carry {
        (wide - 0x1_0000_0000) as u32
    } else {
        wide as u32
    };
    if set_flags {
        let sign1 = operand1 >= 0x8000_0000;
        let sign2 = operand2 >= 0x8000_0000;
        let sign = result >= 0x8000_0000;
        let overflow = sign1 == sign2 && sign != sign1;
        cpu.set_flags(nibble(sign, result == 0, carry, overflow));
    }
    result
}

fn difference<I: MemoryInterface>(
    cpu: &mut Arm7tdmiCpu<I>,
    set_flags: bool,
    operand1: u32,
    operand2: u32,
    carry_in: bool,
) -> (result: u32)
    ensures
        final(cpu).bus() == old(cpu).bus(),
        result == wrap32(operand1 - operand2 - (if carry_in { 0int } else { 1 })),
        final(cpu)@ == arithmetic_outcome(
            old(cpu)@,
            set_flags,
            difference_flags(operand1, operand2, if carry_in { 0int } else { 1 }),
        ),
{
    let wide: i64 = operand1 as i64 - operand2 as i64 - (if carry_in {
        0i64
    } else {
        1i64
    });
    let carry = wide >= 0;
    let result: u32 = if carry {
        wide as u32
    } else {
        (wide + 0x1_0000_0000) as u32
    };
    if set_flags {
        let sign1 = operand1 >= 0x8000_0000;
        let sign2 = operand2 >= 0x8000_0000;
        let sign = result >= 0x8000_0000;
        let overflow = sign1 != sign2 && sign != sign1;
        cpu.set_flags(nibble(sign, result == 0, carry, overflow));
    }
    result
}

/// AND, and TST where the result is dropped.
pub fn and<I: MemoryInterface>(
    cpu: &mut Arm7tdmiCpu<I>,
    set_flags: bool,
    operand1: u32,
    operand2: u32,
    carry: bool,
) -> (result: u32)
    ensures
        final(cpu).bus() == old(cpu).bus(),
        result == operand1 & operand2,
        final(cpu)@ == logical_outcome(old(cpu)@, set_flags, result, carry),
{
    let result = operand1 & operand2;
    logical(cpu, set_flags, result, carry);
    result
}

/// Exclusive or, and TEQ where the result is dropped.
pub fn eor<I: MemoryInterface>(
    cpu: &mut Arm7tdmiCpu<I>,
    set_flags: bool,
    operand1: u32,
    operand2: u32,
    carry: bool,
) -> (result: u32)
    ensures
        final(cpu).bus() == old(cpu).bus(),
        result == operand1 ^ operand2,
        final(cpu)@ == logical_outcome(old(cpu)@, set_flags, result, carry),
{
    let result = operand1 ^ operand2;
    logical(cpu, set_flags, result, carry);
    result
}

/// Inclusive or.
pub fn orr<I: MemoryInterface>(
    cpu: &mut Arm7tdmiCpu<I>,
    set_flags: bool,
    operand1: u32,
    operand2: u32,
    carry: bool,
) -> (result: u32)
    ensures
        final(cpu).bus() == old(cpu).bus(),
        result == operand1 | operand2,
        final(cpu)@ == logical_outcome(old(cpu)@, set_flags, result, carry),
{
    let result = operand1 | operand2;
    logical(cpu, set_flags, result, carry);
    result
}

/// Bit clear: the first operand without the bits of the second.
pub fn bic<I: MemoryInterface>(
    cpu: &mut Arm7tdmiCpu<I>,
    set_flags: bool,
    operand1: u32,
    operand2: u32,
    carry: bool,
) -> (result: u32)
    ensures
        final(cpu).bus() == old(cpu).bus(),
        result == operand1 & !operand2,
        final(cpu)@ == logical_outcome(old(cpu)@, set_flags, result, carry),
{
    let result = operand1 & !operand2;
    logical(cpu, set_flags, result, carry);
    result
}

/// Move: the operand itself.
pub fn mov<I: MemoryInterface>(
    cpu: &mut Arm7tdmiCpu<I>,
    set_flags: bool,
    operand2: u32,
    carry: bool,
) -> (result: u32)
    ensures
        final(cpu).bus() == old(cpu).bus(),
        result == operand2,
        final(cpu)@ == logical_outcome(old(cpu)@, set_flags, result, carry),
{
    logical(cpu, set_flags, operand2, carry);
    operand2
}

/// Move not: the operand with every bit inverted.
pub fn mvn<I: MemoryInterface>(
    cpu: &mut Arm7tdmiCpu<I>,
    set_flags: bool,
    operand2: u32,
    carry: bool,
) -> (result: u32)
    ensures
        final(cpu).bus() == old(cpu).bus(),
        result == !operand2,
        final(cpu)@ == logical_outcome(old(cpu)@, set_flags, result, carry),
{
    let result = !operand2;
    logical(cpu, set_flags, result, carry);
    result
}

/// Addition, and CMN where the result is dropped.
pub fn add<I: MemoryInterface>(
    cpu: &mut Arm7tdmiCpu<I>,
    set_flags: bool,
    operand1: u32,
    operand2: u32,
) -> (result: u32)
    ensures
        final(cpu).bus() == old(cpu).bus(),
        result == wrap32(operand1 + operand2),
        final(cpu)@ == arithmetic_outcome(old(cpu)@, set_flags, sum_flags(operand1, operand2, 0)),
{
    sum(cpu, set_flags, operand1, operand2, false)
}

/// Addition with the carry flag added in.
pub fn adc<I: MemoryInterface>(
    cpu: &mut Arm7tdmiCpu<I>,
    set_flags: bool,
    operand1: u32,
    operand2: u32,
) -> (result: u32)
    ensures
        final(cpu).bus() == old(cpu).bus(),
        result == wrap32(operand1 + operand2 + carry_of(old(cpu)@)),
        final(cpu)@ == arithmetic_outcome(
            old(cpu)@,
            set_flags,
            sum_flags(operand1, operand2, carry_of(old(cpu)@)),
        ),
{
    let carry_in = cpu.cpsr().carry();
    sum(cpu, set_flags, operand1, operand2, carry_in)
}

/// Subtraction of the second operand from the first, and CMP where the
/// result is dropped.
pub fn sub<I: MemoryInterface>(
    cpu: &mut Arm7tdmiCpu<I>,
    set_flags: bool,
    operand1: u32,
    operand2: u32,
) -> (result: u32)
    ensures
        final(cpu).bus() == old(cpu).bus(),
        result == wrap32(operand1 - operand2),
        final(cpu)@ == arithmetic_outcome(
            old(cpu)@,
            set_flags,
            difference_flags(operand1, operand2, 0),
        ),
{
    difference(cpu, set_flags, operand1, operand2, true)
}

/// Subtraction with borrow: one more is taken off when the carry flag is
/// clear.
pub fn sbc<I: MemoryInterface>(
    cpu: &mut Arm7tdmiCpu<I>,
    set_flags: bool,
    operand1: u32,
    operand2: u32,
) -> (result: u32)
    ensures
        final(cpu).bus() == old(cpu).bus(),
        result == wrap32(operand1 - operand2 - (1 - carry_of(old(cpu)@))),
        final(cpu)@ == arithmetic_outcome(
            old(cpu)@,
            set_flags,
            difference_flags(operand1, operand2, 1 - carry_of(old(cpu)@)),
        ),
{
    let carry_in = cpu.cpsr().carry();
    difference(cpu, set_flags, operand1, operand2, carry_in)
}

/// The result of a data-processing operation on two operands, with the
/// carry flag as it stands before the operation.
pub open spec fn operation_result(
    opcode: DataProcessingOpcode,
    operand1: u32,
    operand2: u32,
    carry_in: int,
) -> u32 {
    match opcode {
        DataProcessingOpcode::AND | DataProcessingOpcode::TST => operand1 & operand2,
        DataProcessingOpcode::EOR | DataProcessingOpcode::TEQ => operand1 ^ operand2,
        DataProcessingOpcode::SUB | DataProcessingOpcode::CMP => wrap32(operand1 - operand2),
        DataProcessingOpcode::RSB => wrap32(operand2 - operand1),
        DataProcessingOpcode::ADD | DataProcessingOpcode::CMN => wrap32(operand1 + operand2),
        DataProcessingOpcode::ADC => wrap32(operand1 + operand2 + carry_in),
        DataProcessingOpcode::SBC => wrap32(operand1 - operand2 - (1 - carry_in)),
        DataProcessingOpcode::RSC => wrap32(operand2 - operand1 - (1 - carry_in)),
        DataProcessingOpcode::ORR => operand1 | operand2,
        DataProcessingOpcode::MOV => operand2,
        DataProcessingOpcode::BIC => operand1 & !operand2,
        DataProcessingOpcode::MVN => !operand2,
    }
}

/// The flags that an arithmetic data-processing operation gives.
pub open spec fn operation_flags(
    opcode: DataProcessingOpcode,
    operand1: u32,
    operand2: u32,
    carry_in: int,
) -> u8 {
    match opcode {
        DataProcessingOpcode::SUB | DataProcessingOpcode::CMP => difference_flags(
            operand1,
            operand2,
            0,
        ),
        DataProcessingOpcode::RSB => difference_flags(operand2, operand1, 0),
        DataProcessingOpcode::ADD | DataProcessingOpcode::CMN => sum_flags(operand1, operand2, 0),
        DataProcessingOpcode::ADC => sum_flags(operand1, operand2, carry_in),
        DataProcessingOpcode::SBC => difference_flags(operand1, operand2, 1 - carry_in),
        _ => difference_flags(operand2, operand1, 1 - carry_in),
    }
}

/// Whether an operation is logical: its carry comes from the shifter and
/// it leaves the overflow flag alone.
pub open spec fn is_logical(opcode: DataProcessingOpcode) -> bool {
    match opcode {
        DataProcessingOpcode::AND | DataProcessingOpcode::EOR | DataProcessingOpcode::TST
        | DataProcessingOpcode::TEQ | DataProcessingOpcode::ORR | DataProcessingOpcode::MOV
        | DataProcessingOpcode::BIC | DataProcessingOpcode::MVN => true,
        _ => false,
    }
}

/// The state after a data-processing operation has set, or not set, the
/// flags.
pub open spec fn operation_outcome(
    view: CpuView,
    opcode: DataProcessingOpcode,
    set_flags: bool,
    operand1: u32,
    operand2: u32,
    shifter_carry: bool,
) -> CpuView {
    if is_logical(opcode) {
        logical_outcome(
            view,
            set_flags,
            operation_result(opcode, operand1, operand2, carry_of(view)),
            shifter_carry,
        )
    } else {
        arithmetic_outcome(
            view,
            set_flags,
            operation_flags(opcode, operand1, operand2, carry_of(view)),
        )
    }
}

/// Performs the data-processing operation `opcode` on two operands;
/// `carry` is the shifter's carry-out, which the logical operations pass on
/// to the carry flag.
pub fn operate<I: MemoryInterface>(
    cpu: &mut Arm7tdmiCpu<I>,
    opcode: DataProcessingOpcode,
    set_flags: bool,
    operand1: u32,
    operand2: u32,
    carry: bool,
) -> (result: u32)
    ensures
        final(cpu).bus() == old(cpu).bus(),
        result == operation_result(opcode, operand1, operand2, carry_of(old(cpu)@)),
        final(cpu)@ == operation_outcome(old(cpu)@, opcode, set_flags, operand1, operand2, carry),
{
    match opcode {
        DataProcessingOpcode::AND => and(cpu, set_flags, operand1, operand2, carry),
        DataProcessingOpcode::EOR => eor(cpu, set_flags, operand1, operand2, carry),
        DataProcessingOpcode::SUB => self::sub(cpu, set_flags, operand1, operand2),
        DataProcessingOpcode::RSB => self::sub(cpu, set_flags, operand2, operand1),
        DataProcessingOpcode::ADD => self::add(cpu, set_flags, operand1, operand2),
        DataProcessingOpcode::ADC => adc(cpu, set_flags, operand1, operand2),
        DataProcessingOpcode::SBC => sbc(cpu, set_flags, operand1, operand2),
        DataProcessingOpcode::RSC => sbc(cpu, set_flags, operand2, operand1),
        DataProcessingOpcode::TST => and(cpu, set_flags, operand1, operand2, carry),
        DataProcessingOpcode::TEQ => eor(cpu, set_flags, operand1, operand2, carry),
        DataProcessingOpcode::CMP => self::sub(cpu, set_flags, operand1, operand2),
        DataProcessingOpcode::CMN => self::add(cpu, set_flags, operand1, operand2),
        DataProcessingOpcode::ORR => orr(cpu, set_flags, operand1, operand2, carry),
        DataProcessingOpcode::MOV => mov(cpu, set_flags, operand2, carry),
        DataProcessingOpcode::BIC => bic(cpu, set_flags, operand1, operand2, carry),
        DataProcessingOpcode::MVN => mvn(cpu, set_flags, operand2, carry),
    }
}

} // verus!
