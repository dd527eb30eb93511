//! The execution engine: one handler for each kind of instruction.

use crate::alu::{
    carry_of, is_negative, nibble, operate, operation_outcome, operation_result, signed, wrap32,
};
use crate::arm::transfer::{
    block_flushes, block_is_unsupported, block_outcome, block_transfer_calls, block_values_fit,
    halfword_transfer_calls, single_transfer_calls, swap_calls, execute_block_data_transfer,
    execute_halfword_and_signed_data_transfer, execute_single_data_swap,
    execute_single_data_transfer, halfword_transfer_outcome, single_transfer_outcome,
    swap_outcome, transfer_flushes,
};
use crate::arm::{
    listed_registers, register_field, ArmInstruction, ArmInstructionKind, InstructionView,
};
use crate::barrel_shifter::{ror, ror_spec, shift, shift_spec, ShiftBy, ShiftType, Shifted};
use crate::bitfield::{bit_is_set, with_bit};
use crate::bits::{word_bit, word_field};
use crate::cpu::{refill_calls, settle_calls, wrapping_offset, Arm7tdmiCpu, CpuView};
use crate::memory::{lemma_traced_none, traced, BusCall, MemoryAccess, MemoryInterface};
use crate::opcodes::{DataProcessingOpcode, Exception};
use crate::psr::{
    flags_nibble, status_mode, ProgramStatusRegister, CARRY_BIT, LIVE_BITS, OVERFLOW_BIT, STATE_BIT,
};
use crate::register_file::{LR, PC};
use crate::types::{CpuAction, CpuMode, CpuState, ExecutionError};
use vstd::prelude::*;

verus! {

/// The state after a branch and exchange, before the pipeline is refilled:
/// bit 0 of the target register chooses the execution state (set for
/// Thumb), and the program counter is the target without that bit.
pub open spec fn branch_and_exchange_outcome(view: CpuView, word: u32) -> CpuView {
    let target = view.register(register_field(word, 0).number() as int);
    view.with_cpsr(with_bit(view.cpsr, STATE_BIT, bit_is_set(target, 0))).with_pc(
        target & 0xFFFF_FFFE,
    )
}

/// Branch and exchange takes the execution state from the lowest bit of the
/// target, set for Thumb, and leaves the target without that bit in the
/// program counter; the mode stays.
pub proof fn lemma_branch_and_exchange(view: CpuView, word: u32)
    requires
        view.valid(),
    ensures
        branch_and_exchange_outcome(view, word).state() == (if bit_is_set(
            view.register(register_field(word, 0).number() as int),
            0,
        ) {
            CpuState::Thumb
        } else {
            CpuState::Arm
        }),
        branch_and_exchange_outcome(view, word).pc() == view.register(
            register_field(word, 0).number() as int,
        ) & 0xFFFF_FFFE,
        !bit_is_set(branch_and_exchange_outcome(view, word).pc(), 0),
        branch_and_exchange_outcome(view, word).mode() == view.mode(),
{
    let target = view.register(register_field(word, 0).number() as int);
    let thumb = bit_is_set(target, 0);
    let status = with_bit(view.cpsr, STATE_BIT, thumb);
    crate::bitfield::lemma_with_bit_reads(view.cpsr, STATE_BIT, thumb, STATE_BIT);
    assert(0x1Fu32 & (1u32 << 5) == 0) by (bit_vector);
    crate::bitfield::lemma_with_bit_keeps(view.cpsr, STATE_BIT, thumb, 0x1F);
    assert((target & 0xFFFF_FFFEu32) & (1u32 << 0) == 0) by (bit_vector);
    crate::cpu::lemma_register_writes(
        view.with_cpsr(status),
        PC as int,
        target & 0xFFFF_FFFE,
        0,
        0,
    );
}

/// Branch and exchange: jumps to the address in a register and takes the
/// execution state from the address's lowest bit.
pub fn execute_branch_and_exchange<I: MemoryInterface>(
    cpu: &mut Arm7tdmiCpu<I>,
    instruction: &ArmInstruction,
) -> (action: CpuAction)
    requires
        instruction@.kind == ArmInstructionKind::BranchAndExchange,
    ensures
        action == CpuAction::PipelineFlush,
        final(cpu)@ == branch_and_exchange_outcome(old(cpu)@, instruction@.word).refilled(
            final(cpu)@.pipeline[0],
            final(cpu)@.pipeline[1],
        ),
        exists|refs: Seq<&mut I>, futures: Seq<I>|
            #[trigger] traced(
                refs,
                futures,
                refill_calls(
                    branch_and_exchange_outcome(old(cpu)@, instruction@.word),
                    final(cpu)@.pipeline[0],
                    final(cpu)@.pipeline[1],
                ),
                old(cpu).bus(),
                final(cpu).bus(),
            ) && (forall|k: int|
                0 <= k < refs.len() ==> mut_ref_future(#[trigger] refs[k]) == futures[k]),
        branch_and_exchange_outcome(old(cpu)@, instruction@.word).state() == (if bit_is_set(
            old(cpu)@.register(register_field(instruction@.word, 0).number() as int),
            0,
        ) {
            CpuState::Thumb
        } else {
            CpuState::Arm
        }),
{
    let value = cpu.register(instruction.rn().index());
    let thumb = value & (1u32 << 0) != 0;
    cpu.set_cpu_state(
        if thumb {
            CpuState::Thumb
        } else {
            CpuState::Arm
        },
    );
    cpu.set_pc(value & 0xFFFF_FFFE);
    cpu.pipeline_flush();
    CpuAction::PipelineFlush
}

/// The distance in bytes that a branch jumps: the 24-bit offset field read
/// as a signed number of words.
pub open spec fn branch_displacement(word: u32) -> int {
    let offset = word_field(word, 0, 23);
    4 * (if offset >= 0x80_0000 {
        offset - 0x100_0000
    } else {
        offset as int
    })
}

/// The state after a branch, before the pipeline is refilled: with the
/// link bit, the link register holds the program counter less 4; the
/// program counter has moved by the displacement.
pub open spec fn branch_outcome(view: CpuView, word: u32) -> CpuView {
    let linked = if word_bit(word, 24) {
        view.with_register(LR as int, wrapping_offset(view.pc(), -4))
    } else {
        view
    };
    linked.with_pc(wrapping_offset(view.pc(), branch_displacement(word)))
}

/// Branch, and branch with link.
pub fn execute_branch_and_branch_with_link<I: MemoryInterface>(
    cpu: &mut Arm7tdmiCpu<I>,
    instruction: &ArmInstruction,
) -> (action: CpuAction)
    requires
        instruction@.kind == ArmInstructionKind::BranchAndBranchWithLink,
    ensures
        action == CpuAction::PipelineFlush,
        final(cpu)@ == branch_outcome(old(cpu)@, instruction@.word).refilled(
            final(cpu)@.pipeline[0],
            final(cpu)@.pipeline[1],
        ),
        exists|refs: Seq<&mut I>, futures: Seq<I>|
            #[trigger] traced(
                refs,
                futures,
                refill_calls(
                    branch_outcome(old(cpu)@, instruction@.word),
                    final(cpu)@.pipeline[0],
                    final(cpu)@.pipeline[1],
                ),
                old(cpu).bus(),
                final(cpu).bus(),
            ) && (forall|k: int|
                0 <= k < refs.len() ==> mut_ref_future(#[trigger] refs[k]) == futures[k]),
{
    let pc = cpu.pc();
    if instruction.link() {
        cpu.set_register(LR, pc.wrapping_sub(4));
    }
    let offset = instruction.offset();
    let target = if offset >= 0x80_0000 {
        pc.wrapping_sub((0x100_0000 - offset) * 4)
    } else {
        pc.wrapping_add(offset * 4)
    };
    cpu.set_pc(target);
    cpu.pipeline_flush();
    CpuAction::PipelineFlush
}

/// The second operand of a data-processing instruction and the shifter's
/// carry-out: an 8-bit immediate rotated right by twice the rotation
/// field, or a register shifted by an immediate amount or by the low byte
/// of another register. A rotation of the immediate by 0 and a register
/// amount of 0 leave value and carry alone.
pub open spec fn second_operand(view: CpuView, word: u32) -> Shifted {
    let carry = bit_is_set(view.cpsr, CARRY_BIT);
    if word_bit(word, 25) {
        ror_spec(word_field(word, 0, 7), (2 * word_field(word, 8, 11)) as u32, carry, false)
    } else {
        let value = view.register(register_field(word, 0).number() as int);
        let kind = ShiftType::with_code(word_field(word, 5, 6));
        if word_bit(word, 4) {
            let amount = view.register(register_field(word, 8).number() as int) & 0xFF;
            shift_spec(kind, value, amount, carry, false)
        } else {
            shift_spec(kind, value, word_field(word, 7, 11), carry, true)
        }
    }
}

/// Whether a data-processing instruction writes the program counter.
pub open spec fn data_processing_flushes(word: u32) -> bool {
    !DataProcessingOpcode::with_code(word_field(word, 21, 24)).is_comparison() && register_field(
        word,
        12,
    ).number() == PC
}

/// The state after a data-processing instruction, before any refill of the
/// pipeline. The operation sets the flags if the S bit asks for it; with
/// the S bit and the program counter as destination, a mode that has a
/// saved status register gets it back as the current one; the result goes
/// to the destination unless the operation is a comparison.
pub open spec fn data_processing_outcome(view: CpuView, word: u32) -> CpuView {
    let operand1 = view.register(register_field(word, 16).number() as int);
    let operand2 = second_operand(view, word);
    let opcode = DataProcessingOpcode::with_code(word_field(word, 21, 24));
    let set_flags = word_bit(word, 20);
    let rd = register_field(word, 12).number() as int;
    let result = operation_result(opcode, operand1, operand2.value, carry_of(view));
    let flagged = operation_outcome(
        view,
        opcode,
        set_flags,
        operand1,
        operand2.value,
        operand2.carry,
    );
    let restored = if set_flags && rd == PC && flagged.mode().has_saved_status() {
        flagged.with_cpsr(flagged.spsr())
    } else {
        flagged
    };
    if opcode.is_comparison() {
        restored
    } else {
        restored.with_register(rd, result)
    }
}

/// Data processing. Where a register gives the shift amount, the program
/// counter is read like any other register: the extra advance that
/// hardware shows in that case is not modelled.
#[verifier::rlimit(40)]
pub fn execute_data_processing<I: MemoryInterface>(
    cpu: &mut Arm7tdmiCpu<I>,
    instruction: &ArmInstruction,
) -> (action: CpuAction)
    requires
        instruction@.kind == ArmInstructionKind::DataProcessing,
    ensures
        action == (if data_processing_flushes(instruction@.word) {
            CpuAction::PipelineFlush
        } else {
            CpuAction::Advance(MemoryAccess::Sequential)
        }),
        final(cpu)@ == (if data_processing_flushes(instruction@.word) {
            data_processing_outcome(old(cpu)@, instruction@.word).refilled(
                final(cpu)@.pipeline[0],
                final(cpu)@.pipeline[1],
            )
        } else {
            data_processing_outcome(old(cpu)@, instruction@.word)
        }),
        exists|refs: Seq<&mut I>, futures: Seq<I>|
            #[trigger] traced(
                refs,
                futures,
                settle_calls(
                    data_processing_outcome(old(cpu)@, instruction@.word),
                    data_processing_flushes(instruction@.word),
                    final(cpu)@.pipeline,
                ),
                old(cpu).bus(),
                final(cpu).bus(),
            ) && (forall|k: int|
                0 <= k < refs.len() ==> mut_ref_future(#[trigger] refs[k]) == futures[k]),
{
    let mut cpu_action = CpuAction::Advance(MemoryAccess::Sequential);
    let rn = instruction.rn().index();
    let operand1 = cpu.register(rn);
    let mut carry = cpu.cpsr().carry();

    let operand2 = match instruction.is_immediate() {
        true => {
            let rotate = 2 * instruction.rotate();
            let immediate = instruction.immediate();
            ror(immediate, rotate, &mut carry, false)
        },
        false => {
            let rm = instruction.rm();
            let rm_value = cpu.register(rm.index());
            let shift_by = instruction.shift_by();
            let shift_amount = match shift_by {
                ShiftBy::Immediate => instruction.shift_amount(),
                ShiftBy::Register => cpu.register(instruction.rs().index()) & 0xFF,
            };
            shift(
                instruction.shift_type(),
                rm_value,
                shift_amount,
                &mut carry,
                shift_by.is_immediate(),
            )
        },
    };

    let set_flags = instruction.sets_flags();
    let opcode = instruction.opcode();
    let result = operate(cpu, opcode, set_flags, operand1, operand2, carry);

    let rd = instruction.rd().index();
    if set_flags && rd == PC && cpu.mode().is_banked() {
        let spsr = cpu.spsr();
        cpu.set_cpsr(spsr);
    }
    if !opcode.is_test() {
        cpu.set_register(rd, result);
        if rd == PC {
            cpu.pipeline_flush();
            cpu_action = CpuAction::PipelineFlush
        }
    }
    proof {
        let outcome = data_processing_outcome(old(cpu)@, instruction@.word);
        if data_processing_flushes(instruction@.word) {
            assert(settle_calls(outcome, true, cpu@.pipeline) == refill_calls(
                outcome,
                cpu@.pipeline[0],
                cpu@.pipeline[1],
            ));
        } else {
            lemma_traced_none(cpu.bus());
            assert(settle_calls(outcome, false, cpu@.pipeline) == Seq::<BusCall>::empty());
        }
    }
    cpu_action
}

/// The state in which N and Z follow a result and C and V stay.
pub open spec fn with_sign_and_zero(view: CpuView, negative: bool, zero: bool) -> CpuView {
    view.with_flags(
        flags_nibble(
            negative,
            zero,
            bit_is_set(view.cpsr, CARRY_BIT),
            bit_is_set(view.cpsr, OVERFLOW_BIT),
        ),
    )
}

/// The state after a multiply: the destination holds the low 32 bits of
/// the product, to which the accumulate bit adds a third register; with the
/// S bit, N and Z follow the result, and C and V stay as they are.
pub open spec fn multiply_outcome(view: CpuView, word: u32) -> CpuView {
    let rm = view.register(register_field(word, 0).number() as int);
    let rs = view.register(register_field(word, 8).number() as int);
    let rn = view.register(register_field(word, 12).number() as int);
    let result = wrap32(
        rm * rs + (if word_bit(word, 21) {
            rn as int
        } else {
            0
        }),
    );
    let flagged = if word_bit(word, 20) {
        with_sign_and_zero(view, is_negative(result), result == 0)
    } else {
        view
    };
    flagged.with_register(register_field(word, 16).number() as int, result)
}

fn set_sign_and_zero<I: MemoryInterface>(cpu: &mut Arm7tdmiCpu<I>, negative: bool, zero: bool)
    ensures
        final(cpu).bus() == old(cpu).bus(),
        final(cpu)@ == with_sign_and_zero(old(cpu)@, negative, zero),
{
    let status = cpu.cpsr();
    cpu.set_flags(nibble(negative, zero, status.carry(), status.overflow()));
}

/// Multiply, and multiply with accumulate.
pub fn execute_multiply<I: MemoryInterface>(
    cpu: &mut Arm7tdmiCpu<I>,
    instruction: &ArmInstruction,
) -> (action: CpuAction)
    requires
        instruction@.kind == ArmInstructionKind::Multiply,
    ensures
        action == CpuAction::Advance(MemoryAccess::Sequential),
        final(cpu)@ == multiply_outcome(old(cpu)@, instruction@.word),
        final(cpu).bus() == old(cpu).bus(),
{
    let rm = cpu.register(instruction.rm().index());
    let rs = cpu.register(instruction.rs().index());
    let rn = cpu.register(instruction.rn().index());
    let addend = if instruction.accumulate() {
        rn
    } else {
        0
    };
    proof {
        assert(0 <= rm * rs <= 0xFFFF_FFFF * 0xFFFF_FFFF) by (nonlinear_arith)
            requires
                0 <= rm <= 0xFFFF_FFFF,
                0 <= rs <= 0xFFFF_FFFF,
        ;
    }
    let wide: u64 = (rm as u64) * (rs as u64) + (addend as u64);
    let result = (wide % 0x1_0000_0000) as u32;
    if instruction.sets_flags() {
        set_sign_and_zero(cpu, result >= 0x8000_0000, result == 0);
    }
    cpu.set_register(instruction.rd().index(), result);
    CpuAction::Advance(MemoryAccess::Sequential)
}

/// The 64-bit result of a long multiply: the product of two registers,
/// read as signed numbers if bit 22 is set and as unsigned ones if not, to
/// which the accumulate bit adds the 64-bit number held in the two
/// destination registers; all of it reduced to 64 bits.
pub open spec fn long_product(view: CpuView, word: u32) -> int {
    let rm = view.register(register_field(word, 0).number() as int);
    let rs = view.register(register_field(word, 8).number() as int);
    let high = view.register(register_field(word, 16).number() as int);
    let low = view.register(register_field(word, 12).number() as int);
    let product = if word_bit(word, 22) {
        signed(rm) * signed(rs)
    } else {
        rm * rs
    };
    let addend = if word_bit(word, 21) {
        high * 0x1_0000_0000 + low
    } else {
        0
    };
    (product + addend) % 0x1_0000_0000_0000_0000
}

/// The state after a long multiply: the low destination holds the low half
/// of the 64-bit result and the high destination the high half; with the S
/// bit, N is bit 63 of the result and Z says whether all 64 bits are zero,
/// and C and V stay as they are.
pub open spec fn multiply_long_outcome(view: CpuView, word: u32) -> CpuView {
    let result = long_product(view, word);
    let flagged = if word_bit(word, 20) {
        with_sign_and_zero(view, result >= 0x8000_0000_0000_0000, result == 0)
    } else {
        view
    };
    flagged.with_register(
        register_field(word, 12).number() as int,
        (result % 0x1_0000_0000) as u32,
    ).with_register(register_field(word, 16).number() as int, (result / 0x1_0000_0000) as u32)
}

fn signed_value(x: u32) -> (r: i64)
    ensures
        r == signed(x),
{
    if x >= 0x8000_0000 {
        x as i64 - 0x1_0000_0000
    } else {
        x as i64
    }
}

fn unsigned_product(a: u32, b: u32) -> (product: u64)
    ensures
        product == a * b,
{
    proof {
        assert(0 <= a * b <= 0xFFFF_FFFF * 0xFFFF_FFFF) by (nonlinear_arith)
            requires
                0 <= a <= 0xFFFF_FFFF,
                0 <= b <= 0xFFFF_FFFF,
        ;
    }
    (a as u64) * (b as u64)
}

fn signed_product(a: u32, b: u32) -> (product: i64)
    ensures
        product == signed(a) * signed(b),
        -0x4000_0000_0000_0000 <= product <= 0x4000_0000_0000_0000,
{
    let x = signed_value(a);
    let y = signed_value(b);
    proof {
        assert(-0x4000_0000_0000_0000 <= x * y <= 0x4000_0000_0000_0000) by (nonlinear_arith)
            requires
                -0x8000_0000 <= x <= 0x8000_0000,
                -0x8000_0000 <= y <= 0x8000_0000,
        ;
    }
    x * y
}

/// An integer between -2^64 and 2^65 reduced to 64 bits.
fn reduce_to_64_bits(value: i128) -> (reduced: u64)
    requires
        -0x1_0000_0000_0000_0000 <= value < 0x2_0000_0000_0000_0000,
    ensures
        reduced == value % 0x1_0000_0000_0000_0000,
{
    if value < 0 {
        (value + 0x1_0000_0000_0000_0000) as u64
    } else if value >= 0x1_0000_0000_0000_0000 {
        (value - 0x1_0000_0000_0000_0000) as u64
    } else {
        value as u64
    }
}

/// Long multiply, signed or unsigned, with or without accumulate.
#[verifier::rlimit(40)]
pub fn execute_multiply_long<I: MemoryInterface>(
    cpu: &mut Arm7tdmiCpu<I>,
    instruction: &ArmInstruction,
) -> (action: CpuAction)
    requires
        instruction@.kind == ArmInstructionKind::MultiplyLong,
    ensures
        action == CpuAction::Advance(MemoryAccess::Sequential),
        final(cpu)@ == multiply_long_outcome(old(cpu)@, instruction@.word),
        final(cpu).bus() == old(cpu).bus(),
{
    let rm = cpu.register(instruction.rm().index());
    let rs = cpu.register(instruction.rs().index());
    let high = cpu.register(instruction.rd_hi().index());
    let low = cpu.register(instruction.rd_lo().index());
    let product: i128 = if instruction.unsigned() {
        signed_product(rm, rs) as i128
    } else {
        unsigned_product(rm, rs) as i128
    };
    let addend: i128 = if instruction.accumulate() {
        (high as i128) * 0x1_0000_0000 + (low as i128)
    } else {
        0
    };
    let result = reduce_to_64_bits(product + addend);
    if instruction.sets_flags() {
        set_sign_and_zero(cpu, result >= 0x8000_0000_0000_0000, result == 0);
    }
    cpu.set_register(instruction.rd_lo().index(), (result % 0x1_0000_0000) as u32);
    cpu.set_register(instruction.rd_hi().index(), (result / 0x1_0000_0000) as u32);
    CpuAction::Advance(MemoryAccess::Sequential)
}

/// The bits of a status word that a status-register write replaces: the
/// flags if bit 19 of the instruction is set, the control bits (interrupt
/// masks, state and mode) if bit 16 is.
pub open spec fn status_write_mask(word: u32) -> u32 {
    if word_bit(word, 19) {
        if word_bit(word, 16) {
            0xF000_00FF
        } else {
            0xF000_0000
        }
    } else {
        if word_bit(word, 16) {
            0x0000_00FF
        } else {
            0
        }
    }
}

/// The value that a status-register write takes its bits from: an 8-bit
/// immediate rotated right by twice the rotation field, or a register.
pub open spec fn status_write_operand(view: CpuView, word: u32) -> u32 {
    if word_bit(word, 25) {
        ror_spec(
            word_field(word, 0, 7),
            (2 * word_field(word, 8, 11)) as u32,
            bit_is_set(view.cpsr, CARRY_BIT),
            false,
        ).value
    } else {
        view.register(register_field(word, 0).number() as int)
    }
}

/// A status word with the bits under `mask` taken from `operand`, and
/// without reserved bits.
pub open spec fn merged_status(status: u32, operand: u32, mask: u32) -> u32 {
    ((status & !mask) | (operand & mask)) & LIVE_BITS
}

/// What a status-register transfer does. With bit 21 clear, the current or
/// (bit 22) the saved status word is copied to a register. With bit 21
/// set, the bits that the field mask selects are written to the current or
/// (bit 22) the saved status register. The saved register is refused in
/// User and System mode, a write to the control bits of the current
/// register in User mode, and a write that would leave a status register
/// with a mode field that names no mode.
pub open spec fn status_transfer_outcome(view: CpuView, word: u32) -> Result<
    CpuView,
    ExecutionError,
> {
    let saved = word_bit(word, 22);
    if saved && !view.mode().has_saved_status() {
        Err(ExecutionError::NoSavedStatus)
    } else if !word_bit(word, 21) {
        Ok(
            view.with_register(
                register_field(word, 12).number() as int,
                if saved {
                    view.spsr()
                } else {
                    view.cpsr
                },
            ),
        )
    } else if !saved && view.mode() == CpuMode::User && word_bit(word, 16) {
        Err(ExecutionError::PrivilegedWrite)
    } else {
        let status = merged_status(
            if saved {
                view.spsr()
            } else {
                view.cpsr
            },
            status_write_operand(view, word),
            status_write_mask(word),
        );
        if status_mode(status) is None {
            Err(ExecutionError::InvalidMode)
        } else if saved {
            Ok(view.with_spsr(status))
        } else {
            Ok(view.with_cpsr(status))
        }
    }
}

/// Transfers between a status register and a general register.
#[verifier::rlimit(40)]
pub fn execute_psr_transfer<I: MemoryInterface>(
    cpu: &mut Arm7tdmiCpu<I>,
    instruction: &ArmInstruction,
) -> (action: Result<CpuAction, ExecutionError>)
    requires
        instruction@.kind == ArmInstructionKind::PsrTransfer,
    ensures
        final(cpu).bus() == old(cpu).bus(),
        match status_transfer_outcome(old(cpu)@, instruction@.word) {
            Ok(view) => action == Ok::<CpuAction, ExecutionError>(
                CpuAction::Advance(MemoryAccess::Sequential),
            ) && final(cpu)@ == view,
            Err(error) => action == Err::<CpuAction, ExecutionError>(error) && final(cpu)@ == old(
                cpu,
            )@,
        },
{
    let saved = instruction.is_spsr();
    let mode = cpu.mode();
    if saved && !mode.is_banked() {
        return Err(ExecutionError::NoSavedStatus);
    }
    let write = instruction.writes_status();
    let current = if saved {
        cpu.spsr()
    } else {
        cpu.cpsr()
    };
    if !write {
        cpu.set_register(instruction.rd().index(), current.get());
        return Ok(CpuAction::Advance(MemoryAccess::Sequential));
    }
    let control = instruction.writes_control_field();
    if !saved && control && matches!(mode, CpuMode::User) {
        return Err(ExecutionError::PrivilegedWrite);
    }
    let operand = if instruction.is_immediate() {
        let mut carry = current.carry();
        ror(instruction.immediate(), 2 * instruction.rotate(), &mut carry, false)
    } else {
        cpu.register(instruction.rm().index())
    };
    let mask: u32 = if instruction.writes_flag_field() {
        if control {
            0xF000_00FF
        } else {
            0xF000_0000
        }
    } else {
        if control {
            0x0000_00FF
        } else {
            0
        }
    };
    proof {
        let merged = (current@ & !mask) | (operand & mask);
        assert((merged & 0xF000_00FFu32) & 0x1F == merged & 0x1F) by (bit_vector);
    }
    let status = ProgramStatusRegister::new((current.get() & !mask) | (operand & mask));
    match status.mode() {
        Err(_) => Err(ExecutionError::InvalidMode),
        Ok(_) => {
            if saved {
                cpu.set_spsr(status);
            } else {
                cpu.set_cpsr(status);
            }
            Ok(CpuAction::Advance(MemoryAccess::Sequential))
        },
    }
}

/// The state after a software interrupt or an undefined instruction,
/// before the pipeline is refilled: the exception is entered, and the
/// return address is that of the instruction after the one that trapped.
pub open spec fn trap_outcome(view: CpuView, exception: Exception) -> CpuView {
    view.entered(exception, wrapping_offset(view.pc(), -4))
}

/// Software interrupt: enters Supervisor mode through the vector at 0x08.
pub fn execute_software_interrupt<I: MemoryInterface>(
    cpu: &mut Arm7tdmiCpu<I>,
    instruction: &ArmInstruction,
) -> (action: CpuAction)
    ensures
        action == CpuAction::PipelineFlush,
        final(cpu)@ == trap_outcome(old(cpu)@, Exception::SoftwareInterrupt).refilled(
            final(cpu)@.pipeline[0],
            final(cpu)@.pipeline[1],
        ),
        exists|refs: Seq<&mut I>, futures: Seq<I>|
            #[trigger] traced(
                refs,
                futures,
                refill_calls(
                    trap_outcome(old(cpu)@, Exception::SoftwareInterrupt),
                    final(cpu)@.pipeline[0],
                    final(cpu)@.pipeline[1],
                ),
                old(cpu).bus(),
                final(cpu).bus(),
            ) && (forall|k: int|
                0 <= k < refs.len() ==> mut_ref_future(#[trigger] refs[k]) == futures[k]),
{
    let return_address = cpu.pc().wrapping_sub(4);
    cpu.enter_exception(Exception::SoftwareInterrupt, return_address);
    cpu.pipeline_flush();
    CpuAction::PipelineFlush
}

/// Undefined instruction: enters Undefined mode through the vector at
/// 0x04.
pub fn execute_undefined<I: MemoryInterface>(
    cpu: &mut Arm7tdmiCpu<I>,
    instruction: &ArmInstruction,
) -> (action: CpuAction)
    ensures
        action == CpuAction::PipelineFlush,
        final(cpu)@ == trap_outcome(old(cpu)@, Exception::Undefined).refilled(
            final(cpu)@.pipeline[0],
            final(cpu)@.pipeline[1],
        ),
        exists|refs: Seq<&mut I>, futures: Seq<I>|
            #[trigger] traced(
                refs,
                futures,
                refill_calls(
                    trap_outcome(old(cpu)@, Exception::Undefined),
                    final(cpu)@.pipeline[0],
                    final(cpu)@.pipeline[1],
                ),
                old(cpu).bus(),
                final(cpu).bus(),
            ) && (forall|k: int|
                0 <= k < refs.len() ==> mut_ref_future(#[trigger] refs[k]) == futures[k]),
{
    let return_address = cpu.pc().wrapping_sub(4);
    cpu.enter_exception(Exception::Undefined, return_address);
    cpu.pipeline_flush();
    CpuAction::PipelineFlush
}

/// Whether an instruction of the given kind and word takes the core from
/// the state `before` to the state `after` with the given result, and
/// hands the bus the calls `calls`, these and no others, in this order.
/// The kinds that load from memory leave open what the bus returned, and
/// every kind that flushes the pipeline leaves open what was fetched into
/// it.
pub open spec fn executed(
    before: CpuView,
    instruction: InstructionView,
    after: CpuView,
    action: Result<CpuAction, ExecutionError>,
    calls: Seq<BusCall>,
) -> bool {
    let word = instruction.word;
    let flush = Ok::<CpuAction, ExecutionError>(CpuAction::PipelineFlush);
    let sequential = Ok::<CpuAction, ExecutionError>(CpuAction::Advance(MemoryAccess::Sequential));
    let non_sequential = Ok::<CpuAction, ExecutionError>(
        CpuAction::Advance(MemoryAccess::NonSequential),
    );
    let none = Seq::<BusCall>::empty();
    match instruction.kind {
        ArmInstructionKind::BranchAndExchange => action == flush && after
            == branch_and_exchange_outcome(before, word).settled(true, after.pipeline) && calls
            == settle_calls(branch_and_exchange_outcome(before, word), true, after.pipeline),
        ArmInstructionKind::BranchAndBranchWithLink => action == flush && after == branch_outcome(
            before,
            word,
        ).settled(true, after.pipeline) && calls == settle_calls(
            branch_outcome(before, word),
            true,
            after.pipeline,
        ),
        ArmInstructionKind::DataProcessing => action == (if data_processing_flushes(word) {
            flush
        } else {
            sequential
        }) && after == data_processing_outcome(before, word).settled(
            data_processing_flushes(word),
            after.pipeline,
        ) && calls == settle_calls(
            data_processing_outcome(before, word),
            data_processing_flushes(word),
            after.pipeline,
        ),
        ArmInstructionKind::PsrTransfer => calls == none && (match status_transfer_outcome(
            before,
            word,
        ) {
            Ok(view) => action == sequential && after == view,
            Err(error) => action == Err::<CpuAction, ExecutionError>(error) && after == before,
        }),
        ArmInstructionKind::Multiply => action == sequential && after == multiply_outcome(
            before,
            word,
        ) && calls == none,
        ArmInstructionKind::MultiplyLong => action == sequential && after == multiply_long_outcome(
            before,
            word,
        ) && calls == none,
        ArmInstructionKind::SingleDataTransfer => action == (if transfer_flushes(word) {
            flush
        } else {
            non_sequential
        }) && exists|raw: u32|
            after == (#[trigger] single_transfer_outcome(before, word, raw)).settled(
                transfer_flushes(word),
                after.pipeline,
            ) && calls == single_transfer_calls(before, word, raw, after.pipeline),
        ArmInstructionKind::HalfwordAndSignedDataTransfer => action == (if transfer_flushes(word) {
            flush
        } else {
            non_sequential
        }) && exists|raw: u32|
            after == (#[trigger] halfword_transfer_outcome(before, word, raw)).settled(
                transfer_flushes(word),
                after.pipeline,
            ) && calls == halfword_transfer_calls(before, word, raw, after.pipeline),
        ArmInstructionKind::BlockDataTransfer => if block_is_unsupported(before, word) {
            action == Err::<CpuAction, ExecutionError>(ExecutionError::UnsupportedBlockTransfer)
                && after == before && calls == none
        } else {
            action == (if block_flushes(word) {
                flush
            } else {
                non_sequential
            }) && exists|values: Seq<u32>|
                block_values_fit(before, word, values) && after == (#[trigger] block_outcome(
                    before,
                    word,
                    values,
                )).settled(block_flushes(word), after.pipeline) && calls == block_transfer_calls(
                    before,
                    word,
                    values,
                    after.pipeline,
                )
        },
        ArmInstructionKind::SingleDataSwap => action == non_sequential && exists|raw: u32|
            after == #[trigger] swap_outcome(before, word, raw) && calls == swap_calls(
                before,
                word,
                raw,
            ),
        ArmInstructionKind::SoftwareInterrupt => action == flush && after == trap_outcome(
            before,
            Exception::SoftwareInterrupt,
        ).settled(true, after.pipeline) && calls == settle_calls(
            trap_outcome(before, Exception::SoftwareInterrupt),
            true,
            after.pipeline,
        ),
        ArmInstructionKind::Undefined => action == flush && after == trap_outcome(
            before,
            Exception::Undefined,
        ).settled(true, after.pipeline) && calls == settle_calls(
            trap_outcome(before, Exception::Undefined),
            true,
            after.pipeline,
        ),
    }
}

/// Runs an instruction through the handler of its kind.
#[verifier::rlimit(40)]
pub fn execute<I: MemoryInterface>(
    cpu: &mut Arm7tdmiCpu<I>,
    instruction: &ArmInstruction,
) -> (action: Result<CpuAction, ExecutionError>)
    ensures
        exists|calls: Seq<BusCall>, refs: Seq<&mut I>, futures: Seq<I>|
            executed(old(cpu)@, instruction@, final(cpu)@, action, calls) && #[trigger] traced(
                refs,
                futures,
                calls,
                old(cpu).bus(),
                final(cpu).bus(),
            ) && (forall|k: int|
                0 <= k < refs.len() ==> mut_ref_future(#[trigger] refs[k]) == futures[k]),
{
    proof {
        lemma_traced_none(cpu.bus());
    }
    match instruction.kind() {
        ArmInstructionKind::BranchAndExchange => Ok(execute_branch_and_exchange(cpu, instruction)),
        ArmInstructionKind::BranchAndBranchWithLink => Ok(
            execute_branch_and_branch_with_link(cpu, instruction),
        ),
        ArmInstructionKind::DataProcessing => Ok(execute_data_processing(cpu, instruction)),
        ArmInstructionKind::PsrTransfer => execute_psr_transfer(cpu, instruction),
        ArmInstructionKind::Multiply => Ok(execute_multiply(cpu, instruction)),
        ArmInstructionKind::MultiplyLong => Ok(execute_multiply_long(cpu, instruction)),
        ArmInstructionKind::SingleDataTransfer => Ok(
            execute_single_data_transfer(cpu, instruction),
        ),
        ArmInstructionKind::HalfwordAndSignedDataTransfer => Ok(
            execute_halfword_and_signed_data_transfer(cpu, instruction),
        ),
        ArmInstructionKind::BlockDataTransfer => execute_block_data_transfer(cpu, instruction),
        ArmInstructionKind::SingleDataSwap => Ok(execute_single_data_swap(cpu, instruction)),
        ArmInstructionKind::SoftwareInterrupt => Ok(execute_software_interrupt(cpu, instruction)),
        ArmInstructionKind::Undefined => Ok(execute_undefined(cpu, instruction)),
    }
}

} // verus!
