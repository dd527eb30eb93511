//! The handlers of the instructions that move data between registers and
//! memory. What a load brings back is the bus's to decide: each contract
//! says what the core does with whatever came.

use crate::arm::{
    lemma_listed_registers, listed_registers, register_field, ArmInstruction, ArmInstructionKind,
};
use crate::barrel_shifter::{rotate_right, shift, shift_spec, ShiftType};
use crate::bitfield::bit_is_set;
use crate::bits::{word_bit, word_field};
use crate::cpu::{lemma_offsets_add, settle_calls, wrapping_offset, Arm7tdmiCpu, CpuView};
use crate::memory::{
    bus_load, bus_store, lemma_traced_joined, lemma_traced_none, one_call, traced, BusCall,
    MemoryAccess, MemoryInterface,
};
use crate::psr::CARRY_BIT;
use crate::register_file::{read_register, write_registers, PC};
use crate::types::{CpuAction, CpuMode, ExecutionError};
use vstd::prelude::*;

verus! {

/// What a transfer instruction settles before it touches the bus.
#[derive(Debug, Copy, Clone, PartialEq, Eq, Structural)]
pub struct Transfer {
    /// The address that the instruction computes.
    pub address: u32,
    /// The address that is handed to the bus: `address`, aligned to the
    /// size of the access.
    pub bus_address: u32,
    /// The address that goes back to the base register if the instruction
    /// writes back.
    pub final_base: u32,
    /// The value of the register that a store writes from.
    pub value: u32,
    /// The value that a store hands to the bus: `value`, cut to the size of
    /// the access.
    pub bus_value: u32,
    /// The timing class that is handed to the bus.
    pub access: MemoryAccess,
    /// The width of the access in bytes: 1, 2 or 4.
    pub size: u32,
}

/// An address moved down to a multiple of `size`.
pub open spec fn aligned(address: u32, size: u32) -> u32 {
    (address - address % size) as u32
}

/// A base address with an offset added or subtracted, wrapping round.
pub open spec fn offset_address(base: u32, offset: u32, up: bool) -> u32 {
    if up {
        wrapping_offset(base, offset as int)
    } else {
        wrapping_offset(base, -offset)
    }
}

/// What a word load puts in the register: the word read at the aligned
/// address, rotated right by eight times the address's remainder modulo 4.
pub open spec fn loaded_word(raw: u32, address: u32) -> u32 {
    if address % 4 == 0 {
        raw
    } else {
        rotate_right(raw, (8 * (address % 4)) as u32)
    }
}

/// A byte or a halfword widened to 32 bits with its top bit as sign.
pub open spec fn sign_extended(value: u32, half: bool) -> u32 {
    if half {
        if value >= 0x8000 {
            (value + 0xFFFF_0000) as u32
        } else {
            value
        }
    } else {
        if value >= 0x80 {
            (value + 0xFFFF_FF00) as u32
        } else {
            value
        }
    }
}

/// What a store writes from a register: the register's value, and for the
/// program counter the value one instruction further on.
pub open spec fn stored_register(view: CpuView, register: int) -> u32 {
    if register == PC {
        wrapping_offset(view.pc(), 4)
    } else {
        view.register(register)
    }
}

fn apply_offset(base: u32, offset: u32, up: bool) -> (r: u32)
    ensures
        r == offset_address(base, offset, up),
{
    if up {
        base.wrapping_add(offset)
    } else {
        base.wrapping_sub(offset)
    }
}

fn turn_loaded_word(raw: u32, address: u32) -> (r: u32)
    ensures
        r == loaded_word(raw, address),
{
    let turn = 8 * (address % 4);
    if turn == 0 {
        raw
    } else {
        (raw >> turn) | (raw << (32 - turn))
    }
}

fn register_to_store<I: MemoryInterface>(cpu: &Arm7tdmiCpu<I>, register: usize) -> (value: u32)
    requires
        register < 16,
    ensures
        value == stored_register(cpu@, register as int),
{
    if register == PC {
        cpu.pc().wrapping_add(4)
    } else {
        cpu.register(register)
    }
}

/// The offset of a single data transfer: a 12-bit immediate if bit 25 is
/// clear, a register shifted by an immediate amount if it is set.
pub open spec fn single_transfer_offset(view: CpuView, word: u32) -> u32 {
    if !word_bit(word, 25) {
        word_field(word, 0, 11)
    } else {
        shift_spec(
            ShiftType::with_code(word_field(word, 5, 6)),
            view.register(register_field(word, 0).number() as int),
            word_field(word, 7, 11),
            bit_is_set(view.cpsr, CARRY_BIT),
            true,
        ).value
    }
}

/// Whether a transfer writes the offset address back to the base register:
/// always with post-indexing, and with pre-indexing if bit 21 is set.
pub open spec fn transfer_writes_back(word: u32) -> bool {
    !word_bit(word, 24) || word_bit(word, 21)
}

/// A value cut to an access of 1, 2 or 4 bytes.
pub open spec fn cut_to_size(value: u32, size: u32) -> u32 {
    if size == 1 {
        value % 0x100
    } else if size == 2 {
        value % 0x1_0000
    } else {
        value
    }
}

/// What a transfer of `size` bytes (1, 2 or 4) settles from an address and
/// the value of the register that a store writes from: the bus gets the
/// address aligned to the size and the value cut to the size, and the
/// access is non-sequential.
pub open spec fn sized_transfer(address: u32, final_base: u32, value: u32, size: u32) -> Transfer {
    Transfer {
        address,
        bus_address: aligned(address, size),
        final_base,
        value,
        bus_value: cut_to_size(value, size),
        access: MemoryAccess::NonSequential,
        size,
    }
}

/// What a transfer settles from the base register, an offset and its P and
/// U bits: the offset is added (bit 23 set) or subtracted; the access is at
/// the offset address with pre-indexing (bit 24 set) and at the base with
/// post-indexing.
pub open spec fn indexed_transfer(view: CpuView, word: u32, offset: u32, size: u32) -> Transfer {
    let base = view.register(register_field(word, 16).number() as int);
    let target = offset_address(base, offset, word_bit(word, 23));
    sized_transfer(
        if word_bit(word, 24) {
            target
        } else {
            base
        },
        target,
        stored_register(view, register_field(word, 12).number() as int),
        size,
    )
}

/// The state with the base register written back, where the instruction
/// asks for it.
pub open spec fn with_write_back(view: CpuView, word: u32, final_base: u32) -> CpuView {
    if transfer_writes_back(word) {
        view.with_register(register_field(word, 16).number() as int, final_base)
    } else {
        view
    }
}

/// What a single data transfer settles before it touches the bus. It
/// moves a byte if bit 22 is set and a word if not.
pub open spec fn single_transfer_plan(view: CpuView, word: u32) -> Transfer {
    indexed_transfer(
        view,
        word,
        single_transfer_offset(view, word),
        if word_bit(word, 22) {
            1
        } else {
            4
        },
    )
}

/// Whether a transfer loads the program counter.
pub open spec fn transfer_flushes(word: u32) -> bool {
    word_bit(word, 20) && register_field(word, 12).number() == PC
}

/// The state after a single data transfer, before any refill of the
/// pipeline, where `raw` is what the bus returned. The base register is
/// written back first; a load then writes the destination: the low byte of
/// `raw` for a byte load, `raw` rotated as its address asks for a word
/// load.
pub open spec fn single_transfer_outcome(view: CpuView, word: u32, raw: u32) -> CpuView {
    let plan = single_transfer_plan(view, word);
    let based = with_write_back(view, word, plan.final_base);
    if word_bit(word, 20) {
        based.with_register(
            register_field(word, 12).number() as int,
            if word_bit(word, 22) {
                raw % 0x100
            } else {
                loaded_word(raw, plan.address)
            },
        )
    } else {
        based
    }
}

fn size_transfer(address: u32, final_base: u32, value: u32, size: u32) -> (plan: Transfer)
    requires
        size == 1 || size == 2 || size == 4,
    ensures
        plan == sized_transfer(address, final_base, value, size),
{
    Transfer {
        address,
        bus_address: if size == 1 {
            address
        } else if size == 2 {
            address - address % 2
        } else {
            address - address % 4
        },
        final_base,
        value,
        bus_value: if size == 1 {
            value % 0x100
        } else if size == 2 {
            value % 0x1_0000
        } else {
            value
        },
        access: MemoryAccess::NonSequential,
        size,
    }
}

/// The call that a transfer makes: the load of the plan's width at the
/// plan's bus address, which returned `raw`, or the store of the plan's bus
/// value there.
pub open spec fn transfer_call(plan: Transfer, load: bool, raw: u32) -> BusCall {
    if load {
        bus_load(plan.size, plan.bus_address, plan.access, raw)
    } else {
        bus_store(plan.size, plan.bus_address, plan.bus_value, plan.access)
    }
}

/// The calls of a single data transfer: the transfer itself, and after it
/// those of a refill if the program counter was loaded.
pub open spec fn single_transfer_calls(
    view: CpuView,
    word: u32,
    raw: u32,
    pipeline: Seq<u32>,
) -> Seq<BusCall> {
    one_call(transfer_call(single_transfer_plan(view, word), word_bit(word, 20), raw))
        + settle_calls(
        single_transfer_outcome(view, word, raw),
        transfer_flushes(word),
        pipeline,
    )
}

/// Makes the one call of a transfer. A store returns 0.
fn transfer<I: MemoryInterface>(cpu: &mut Arm7tdmiCpu<I>, plan: Transfer, load: bool) -> (raw: u32)
    requires
        plan.size == 1 || plan.size == 2 || plan.size == 4,
        plan.bus_value == cut_to_size(plan.value, plan.size),
    ensures
        final(cpu)@ == old(cpu)@,
        !load ==> raw == 0,
        plan.size == 1 ==> raw <= 0xFF,
        plan.size == 2 ==> raw <= 0xFFFF,
        exists|refs: Seq<&mut I>, futures: Seq<I>|
            #[trigger] traced(
                refs,
                futures,
                one_call(transfer_call(plan, load, raw)),
                old(cpu).bus(),
                final(cpu).bus(),
            ) && (forall|k: int|
                0 <= k < refs.len() ==> mut_ref_future(#[trigger] refs[k]) == futures[k]),
{
    if load {
        cpu.read(plan.size, plan.bus_address, plan.access)
    } else {
        cpu.write(plan.size, plan.bus_address, plan.bus_value, plan.access);
        0
    }
}

/// Refills the pipeline if an instruction has written the program
/// counter.
fn settle<I: MemoryInterface>(cpu: &mut Arm7tdmiCpu<I>, flushed: bool)
    ensures
        final(cpu)@ == old(cpu)@.settled(flushed, final(cpu)@.pipeline),
        exists|refs: Seq<&mut I>, futures: Seq<I>|
            #[trigger] traced(
                refs,
                futures,
                settle_calls(old(cpu)@, flushed, final(cpu)@.pipeline),
                old(cpu).bus(),
                final(cpu).bus(),
            ) && (forall|k: int|
                0 <= k < refs.len() ==> mut_ref_future(#[trigger] refs[k]) == futures[k]),
{
    if flushed {
        cpu.pipeline_flush();
        assert(settle_calls(old(cpu)@, flushed, cpu@.pipeline) == crate::cpu::refill_calls(
            old(cpu)@,
            cpu@.pipeline[0],
            cpu@.pipeline[1],
        ));
    } else {
        proof {
            lemma_traced_none(cpu.bus());
            assert(settle_calls(old(cpu)@, flushed, cpu@.pipeline) == Seq::<BusCall>::empty());
        }
    }
}

fn index_transfer<I: MemoryInterface>(
    cpu: &Arm7tdmiCpu<I>,
    instruction: &ArmInstruction,
    offset: u32,
    size: u32,
) -> (plan: Transfer)
    requires
        instruction@.kind == ArmInstructionKind::SingleDataTransfer || instruction@.kind
            == ArmInstructionKind::HalfwordAndSignedDataTransfer,
        size == 1 || size == 2 || size == 4,
    ensures
        plan == indexed_transfer(cpu@, instruction@.word, offset, size),
{
    let base = cpu.register(instruction.rn().index());
    let target = apply_offset(base, offset, instruction.add());
    size_transfer(
        if instruction.pre_index() {
            target
        } else {
            base
        },
        target,
        register_to_store(cpu, instruction.rd().index()),
        size,
    )
}

/// Settles what a single data transfer hands to the bus, and the address
/// that it may write back.
pub fn plan_single_data_transfer<I: MemoryInterface>(
    cpu: &Arm7tdmiCpu<I>,
    instruction: &ArmInstruction,
) -> (plan: Transfer)
    requires
        instruction@.kind == ArmInstructionKind::SingleDataTransfer,
    ensures
        plan == single_transfer_plan(cpu@, instruction@.word),
{
    let offset = if instruction.is_immediate() {
        instruction.immediate()
    } else {
        let mut carry = cpu.cpsr().carry();
        shift(
            instruction.shift_type(),
            cpu.register(instruction.rm().index()),
            instruction.shift_amount(),
            &mut carry,
            true,
        )
    };
    index_transfer(
        cpu,
        instruction,
        offset,
        if instruction.byte() {
            1
        } else {
            4
        },
    )
}

/// Single data transfer: loads or stores a word or a byte, handing the bus
/// what the plan holds. The bus gets that one call and, where the program
/// counter is loaded, the two fetches of the refill after it.
#[verifier::rlimit(40)]
pub fn execute_single_data_transfer<I: MemoryInterface>(
    cpu: &mut Arm7tdmiCpu<I>,
    instruction: &ArmInstruction,
) -> (action: CpuAction)
    requires
        instruction@.kind == ArmInstructionKind::SingleDataTransfer,
    ensures
        action == (if transfer_flushes(instruction@.word) {
            CpuAction::PipelineFlush
        } else {
            CpuAction::Advance(MemoryAccess::NonSequential)
        }),
        exists|raw: u32, refs: Seq<&mut I>, futures: Seq<I>|
            final(cpu)@ == single_transfer_outcome(old(cpu)@, instruction@.word, raw).settled(
                transfer_flushes(instruction@.word),
                final(cpu)@.pipeline,
            ) && #[trigger] traced(
                refs,
                futures,
                single_transfer_calls(old(cpu)@, instruction@.word, raw, final(cpu)@.pipeline),
                old(cpu).bus(),
                final(cpu).bus(),
            ) && (forall|k: int|
                0 <= k < refs.len() ==> mut_ref_future(#[trigger] refs[k]) == futures[k]),
{
    let plan = plan_single_data_transfer(cpu, instruction);
    let rn = instruction.rn().index();
    let rd = instruction.rd().index();
    let write_back = !instruction.pre_index() || instruction.write_back();
    let load = instruction.load();
    let ghost before = cpu@;
    let ghost start = cpu.bus();
    let ghost word = instruction@.word;
    let raw = transfer(cpu, plan, load);
    let ghost middle = cpu.bus();
    if write_back {
        cpu.set_register(rn, plan.final_base);
    }
    if load {
        let value = if instruction.byte() {
            raw
        } else {
            turn_loaded_word(raw, plan.address)
        };
        cpu.set_register(rd, value);
    }
    let ghost done = cpu@;
    assert(done == single_transfer_outcome(before, word, raw));
    settle(cpu, load && rd == PC);
    proof {
        lemma_traced_joined(
            one_call(transfer_call(plan, load, raw)),
            settle_calls(done, load && rd == PC, cpu@.pipeline),
            start,
            middle,
            cpu.bus(),
        );
        assert(single_transfer_calls(before, word, raw, cpu@.pipeline) == one_call(
            transfer_call(plan, load, raw),
        ) + settle_calls(done, load && rd == PC, cpu@.pipeline));
    }
    if load && rd == PC {
        CpuAction::PipelineFlush
    } else {
        CpuAction::Advance(MemoryAccess::NonSequential)
    }
}

/// The offset of a halfword transfer: the two nibbles in bits 11-8 and 3-0
/// if bit 22 is set, a register if it is clear.
pub open spec fn halfword_transfer_offset(view: CpuView, word: u32) -> u32 {
    if word_bit(word, 22) {
        (word_field(word, 8, 11) * 16 + word_field(word, 0, 3)) as u32
    } else {
        view.register(register_field(word, 0).number() as int)
    }
}

/// What a halfword transfer settles before it touches the bus. It moves a
/// halfword if bit 5 is set and a byte if not.
pub open spec fn halfword_transfer_plan(view: CpuView, word: u32) -> Transfer {
    indexed_transfer(
        view,
        word,
        halfword_transfer_offset(view, word),
        if word_bit(word, 5) {
            2
        } else {
            1
        },
    )
}

/// What a halfword transfer's load puts in the register: the low halfword
/// (bit 5 set) or the low byte of what the bus returned, with its sign
/// extended if bit 6 is set.
pub open spec fn loaded_halfword(raw: u32, word: u32) -> u32 {
    let half = word_bit(word, 5);
    let value = if half {
        raw % 0x1_0000
    } else {
        raw % 0x100
    };
    if word_bit(word, 6) {
        sign_extended(value, half)
    } else {
        value
    }
}

/// The state after a halfword transfer, before any refill of the pipeline,
/// where `raw` is what the bus returned.
pub open spec fn halfword_transfer_outcome(view: CpuView, word: u32, raw: u32) -> CpuView {
    let plan = halfword_transfer_plan(view, word);
    let based = with_write_back(view, word, plan.final_base);
    if word_bit(word, 20) {
        based.with_register(register_field(word, 12).number() as int, loaded_halfword(raw, word))
    } else {
        based
    }
}

/// Settles what a halfword transfer hands to the bus, and the address that
/// it may write back.
pub fn plan_halfword_and_signed_data_transfer<I: MemoryInterface>(
    cpu: &Arm7tdmiCpu<I>,
    instruction: &ArmInstruction,
) -> (plan: Transfer)
    requires
        instruction@.kind == ArmInstructionKind::HalfwordAndSignedDataTransfer,
    ensures
        plan == halfword_transfer_plan(cpu@, instruction@.word),
{
    let offset = if instruction.is_immediate() {
        instruction.immediate_hi() * 16 + instruction.immediate_lo()
    } else {
        cpu.register(instruction.rm().index())
    };
    index_transfer(
        cpu,
        instruction,
        offset,
        if instruction.halfword() {
            2
        } else {
            1
        },
    )
}

/// The calls of a halfword transfer: the transfer itself, and after it
/// those of a refill if the program counter was loaded.
pub open spec fn halfword_transfer_calls(
    view: CpuView,
    word: u32,
    raw: u32,
    pipeline: Seq<u32>,
) -> Seq<BusCall> {
    one_call(transfer_call(halfword_transfer_plan(view, word), word_bit(word, 20), raw))
        + settle_calls(
        halfword_transfer_outcome(view, word, raw),
        transfer_flushes(word),
        pipeline,
    )
}

/// Halfword and signed data transfer: loads or stores a halfword or a
/// byte, handing the bus what the plan holds; a load extends the sign where
/// the instruction asks for it. The bus gets that one call and, where the
/// program counter is loaded, the two fetches of the refill after it.
#[verifier::rlimit(40)]
pub fn execute_halfword_and_signed_data_transfer<I: MemoryInterface>(
    cpu: &mut Arm7tdmiCpu<I>,
    instruction: &ArmInstruction,
) -> (action: CpuAction)
    requires
        instruction@.kind == ArmInstructionKind::HalfwordAndSignedDataTransfer,
    ensures
        action == (if transfer_flushes(instruction@.word) {
            CpuAction::PipelineFlush
        } else {
            CpuAction::Advance(MemoryAccess::NonSequential)
        }),
        exists|raw: u32, refs: Seq<&mut I>, futures: Seq<I>|
            final(cpu)@ == halfword_transfer_outcome(old(cpu)@, instruction@.word, raw).settled(
                transfer_flushes(instruction@.word),
                final(cpu)@.pipeline,
            ) && #[trigger] traced(
                refs,
                futures,
                halfword_transfer_calls(old(cpu)@, instruction@.word, raw, final(cpu)@.pipeline),
                old(cpu).bus(),
                final(cpu).bus(),
            ) && (forall|k: int|
                0 <= k < refs.len() ==> mut_ref_future(#[trigger] refs[k]) == futures[k]),
{
    let plan = plan_halfword_and_signed_data_transfer(cpu, instruction);
    let rn = instruction.rn().index();
    let rd = instruction.rd().index();
    let write_back = !instruction.pre_index() || instruction.write_back();
    let load = instruction.load();
    let ghost before = cpu@;
    let ghost start = cpu.bus();
    let ghost word = instruction@.word;
    let raw = transfer(cpu, plan, load);
    let ghost middle = cpu.bus();
    if write_back {
        cpu.set_register(rn, plan.final_base);
    }
    if load {
        let half = instruction.halfword();
        let value = if instruction.signed() {
            if half {
                if raw >= 0x8000 {
                    raw + 0xFFFF_0000
                } else {
                    raw
                }
            } else {
                if raw >= 0x80 {
                    raw + 0xFFFF_FF00
                } else {
                    raw
                }
            }
        } else {
            raw
        };
        cpu.set_register(rd, value);
    }
    let ghost done = cpu@;
    assert(done == halfword_transfer_outcome(before, word, raw));
    settle(cpu, load && rd == PC);
    proof {
        lemma_traced_joined(
            one_call(transfer_call(plan, load, raw)),
            settle_calls(done, load && rd == PC, cpu@.pipeline),
            start,
            middle,
            cpu.bus(),
        );
        assert(halfword_transfer_calls(before, word, raw, cpu@.pipeline) == one_call(
            transfer_call(plan, load, raw),
        ) + settle_calls(done, load && rd == PC, cpu@.pipeline));
    }
    if load && rd == PC {
        CpuAction::PipelineFlush
    } else {
        CpuAction::Advance(MemoryAccess::NonSequential)
    }
}

/// What a swap settles before it touches the bus: the address is the base
/// register's value, the value that of the source register; it moves a
/// byte if bit 22 is set and a word if not. Nothing is written back.
pub open spec fn swap_plan(view: CpuView, word: u32) -> Transfer {
    let address = view.register(register_field(word, 16).number() as int);
    sized_transfer(
        address,
        address,
        view.register(register_field(word, 0).number() as int),
        if word_bit(word, 22) {
            1
        } else {
            4
        },
    )
}

/// The state after a swap, where `raw` is what the bus returned for the
/// read: the destination holds the low byte of `raw` for a byte swap, and
/// `raw` rotated as the address asks for a word swap.
pub open spec fn swap_outcome(view: CpuView, word: u32, raw: u32) -> CpuView {
    view.with_register(
        register_field(word, 12).number() as int,
        if word_bit(word, 22) {
            raw % 0x100
        } else {
            loaded_word(raw, swap_plan(view, word).address)
        },
    )
}

/// Settles what a swap hands to the bus.
pub fn plan_single_data_swap<I: MemoryInterface>(
    cpu: &Arm7tdmiCpu<I>,
    instruction: &ArmInstruction,
) -> (plan: Transfer)
    requires
        instruction@.kind == ArmInstructionKind::SingleDataSwap,
    ensures
        plan == swap_plan(cpu@, instruction@.word),
{
    let address = cpu.register(instruction.rn().index());
    size_transfer(
        address,
        address,
        cpu.register(instruction.rm().index()),
        if instruction.byte() {
            1
        } else {
            4
        },
    )
}

/// The two calls of a swap: the load at the plan's bus address, which
/// returned `raw`, then the store of the plan's bus value at the same
/// address.
pub open spec fn swap_calls(view: CpuView, word: u32, raw: u32) -> Seq<BusCall> {
    one_call(transfer_call(swap_plan(view, word), true, raw)) + one_call(
        transfer_call(swap_plan(view, word), false, raw),
    )
}

/// Single data swap: reads memory at the planned address, then writes the
/// planned value to the same place, then puts what was read in the
/// destination. The bus gets these two calls and no others.
pub fn execute_single_data_swap<I: MemoryInterface>(
    cpu: &mut Arm7tdmiCpu<I>,
    instruction: &ArmInstruction,
) -> (action: CpuAction)
    requires
        instruction@.kind == ArmInstructionKind::SingleDataSwap,
    ensures
        action == CpuAction::Advance(MemoryAccess::NonSequential),
        exists|raw: u32, refs: Seq<&mut I>, futures: Seq<I>|
            final(cpu)@ == swap_outcome(old(cpu)@, instruction@.word, raw) && #[trigger] traced(
                refs,
                futures,
                swap_calls(old(cpu)@, instruction@.word, raw),
                old(cpu).bus(),
                final(cpu).bus(),
            ) && (forall|k: int|
                0 <= k < refs.len() ==> mut_ref_future(#[trigger] refs[k]) == futures[k]),
{
    let plan = plan_single_data_swap(cpu, instruction);
    let ghost before = cpu@;
    let ghost start = cpu.bus();
    let raw = transfer(cpu, plan, true);
    let ghost middle = cpu.bus();
    let _ = transfer(cpu, plan, false);
    proof {
        lemma_traced_joined(
            one_call(transfer_call(plan, true, raw)),
            one_call(transfer_call(plan, false, 0)),
            start,
            middle,
            cpu.bus(),
        );
        assert(swap_calls(before, instruction@.word, raw) == one_call(
            transfer_call(plan, true, raw),
        ) + one_call(transfer_call(plan, false, 0)));
    }
    let value = if instruction.byte() {
        raw
    } else {
        turn_loaded_word(raw, plan.address)
    };
    cpu.set_register(instruction.rd().index(), value);
    assert(cpu@ == swap_outcome(before, instruction@.word, raw));
    CpuAction::Advance(MemoryAccess::NonSequential)
}

/// One transfer of a block transfer: a register and the address that it
/// is moved to or from.
#[derive(Debug, Copy, Clone, PartialEq, Eq, Structural)]
pub struct BlockSlot {
    /// The register's number.
    pub register: usize,
    /// The address of its word.
    pub address: u32,
    /// The address that is handed to the bus: `address`, aligned to 4.
    pub bus_address: u32,
    /// The timing class that is handed to the bus: non-sequential for the
    /// first transfer of a block, sequential for the others.
    pub access: MemoryAccess,
}

/// The lowest address of a block transfer of `count` registers. Upwards
/// the block begins at the base, or one word above it with pre-indexing;
/// downwards it ends one word below the base with pre-indexing, and at the
/// base without.
pub open spec fn block_start(base: u32, count: int, pre: bool, up: bool) -> u32 {
    if up {
        wrapping_offset(
            base,
            if pre {
                4
            } else {
                0
            },
        )
    } else {
        wrapping_offset(
            base,
            -4 * count + (if pre {
                0int
            } else {
                4
            }),
        )
    }
}

/// The address of the register at `position` in the ascending register
/// list: one word further from the lowest address for each position,
/// whichever way the base moves.
pub open spec fn block_address(base: u32, count: int, pre: bool, up: bool, position: int) -> u32 {
    wrapping_offset(block_start(base, count, pre, up), 4 * position)
}

/// The base after a block transfer of `count` registers with write-back.
pub open spec fn block_final_base(base: u32, count: int, up: bool) -> u32 {
    wrapping_offset(
        base,
        if up {
            4 * count
        } else {
            -4 * count
        },
    )
}

/// The mode whose registers a block transfer moves: User mode if the S bit
/// (bit 22) is set, the current mode if not.
pub open spec fn block_bank_mode(view: CpuView, word: u32) -> CpuMode {
    if word_bit(word, 22) {
        CpuMode::User
    } else {
        view.mode()
    }
}

/// Whether a block transfer is the combination that the core does not
/// carry out: a load of the program counter with the S bit set, outside
/// User mode.
pub open spec fn block_is_unsupported(view: CpuView, word: u32) -> bool {
    word_bit(word, 22) && word_bit(word, 20) && word_bit(word, 15) && view.mode() != CpuMode::User
}

/// Whether a block transfer loads the program counter.
pub open spec fn block_flushes(word: u32) -> bool {
    word_bit(word, 20) && word_bit(word, 15)
}

/// The register writes of a block load: each listed register with the
/// value loaded for it.
pub open spec fn block_writes(registers: Seq<usize>, values: Seq<u32>) -> Seq<(int, u32)> {
    Seq::new(registers.len(), |k: int| (registers[k] as int, values[k]))
}

/// The state after a block transfer, before any refill of the pipeline,
/// where `values` is what the bus returned, one word for each listed
/// register. A load writes the listed registers in ascending order, as the
/// bank mode sees them; the base register is written back after the last
/// transfer if bit 21 is set.
pub open spec fn block_outcome(view: CpuView, word: u32, values: Seq<u32>) -> CpuView {
    let loaded = if word_bit(word, 20) {
        CpuView {
            registers: write_registers(
                view.registers,
                block_bank_mode(view, word),
                block_writes(listed_registers(word), values),
            ),
            ..view
        }
    } else {
        view
    };
    if word_bit(word, 21) {
        loaded.with_register(
            register_field(word, 16).number() as int,
            block_final_base(
                view.register(register_field(word, 16).number() as int),
                listed_registers(word).len() as int,
                word_bit(word, 23),
            ),
        )
    } else {
        loaded
    }
}

/// The transfer of the register at `position` in the ascending register
/// list `registers`: the bus gets the register's address aligned to 4, and
/// the access is non-sequential for the first register and sequential for
/// the others.
pub open spec fn block_slot(
    registers: Seq<usize>,
    base: u32,
    pre: bool,
    up: bool,
    position: int,
) -> BlockSlot {
    BlockSlot {
        register: registers[position],
        address: block_address(base, registers.len() as int, pre, up, position),
        bus_address: aligned(block_address(base, registers.len() as int, pre, up, position), 4),
        access: if position == 0 {
            MemoryAccess::NonSequential
        } else {
            MemoryAccess::Sequential
        },
    }
}

/// Whether a plan holds the transfer of each listed register, in ascending
/// order of the register numbers.
pub open spec fn is_block_plan(plan: Seq<BlockSlot>, view: CpuView, word: u32) -> bool {
    &&& plan.len() == listed_registers(word).len()
    &&& forall|k: int|
        0 <= k < plan.len() ==> #[trigger] plan[k] == block_slot(
            listed_registers(word),
            view.register(register_field(word, 16).number() as int),
            word_bit(word, 24),
            word_bit(word, 23),
            k,
        )
}

/// Block transfer ordering: the registers of the list are transferred in
/// ascending order of their numbers, and the address of each lies one word
/// above that of the one before it, whether the instruction counts up or
/// down.
#[verifier::rlimit(40)]
pub proof fn lemma_block_transfer_order(
    word: u32,
    base: u32,
    pre: bool,
    up: bool,
    first: int,
    second: int,
)
    requires
        0 <= first < second < listed_registers(word).len(),
    ensures
        listed_registers(word)[first] < listed_registers(word)[second],
        block_address(base, listed_registers(word).len() as int, pre, up, second)
            == wrapping_offset(
            block_address(base, listed_registers(word).len() as int, pre, up, first),
            4 * (second - first),
        ),
{
    lemma_listed_registers(word, 16);
    lemma_offsets_add(
        block_start(base, listed_registers(word).len() as int, pre, up),
        4 * first,
        4 * (second - first),
    );
}

fn lowest_block_address(base: u32, count: usize, pre: bool, up: bool) -> (start: u32)
    requires
        count <= 16,
    ensures
        start == block_start(base, count as int, pre, up),
{
    if up {
        if pre {
            base.wrapping_add(4)
        } else {
            base
        }
    } else {
        proof {
            lemma_offsets_add(base, -4 * count, 4);
        }
        let lowered = base.wrapping_sub(4 * (count as u32));
        if pre {
            lowered
        } else {
            next_word(lowered)
        }
    }
}

fn next_word(address: u32) -> (next: u32)
    ensures
        next == wrapping_offset(address, 4),
{
    address.wrapping_add(4)
}

/// Pairs each register of the list, in ascending order, with the address
/// of its word, and settles what goes to the bus for it.
#[verifier::rlimit(40)]
pub fn plan_block_data_transfer<I: MemoryInterface>(
    cpu: &Arm7tdmiCpu<I>,
    instruction: &ArmInstruction,
) -> (plan: Vec<BlockSlot>)
    requires
        instruction@.kind == ArmInstructionKind::BlockDataTransfer,
    ensures
        is_block_plan(plan@, cpu@, instruction@.word),
        plan.len() <= 16,
        forall|k: int| 0 <= k < plan.len() ==> (#[trigger] plan[k]).register < 16,
{
    let list = instruction.register_list();
    let count = list.len();
    let base = cpu.register(instruction.rn().index());
    let pre = instruction.pre_index();
    let up = instruction.add();
    let start = lowest_block_address(base, count, pre, up);
    let mut plan: Vec<BlockSlot> = Vec::new();
    let mut address = start;
    let mut k: usize = 0;
    while k < count
        invariant
            k <= count,
            count == list.len(),
            count <= 16,
            forall|i: int| 0 <= i < list.len() ==> (#[trigger] list[i]) < 16,
            address == block_address(base, count as int, pre, up, k as int),
            plan.len() == k,
            forall|i: int| 0 <= i < k ==> #[trigger] plan[i] == block_slot(list@, base, pre, up, i),
        decreases count - k,
    {
        let slot = BlockSlot {
            register: list[k],
            address,
            bus_address: address - address % 4,
            access: if k == 0 {
                MemoryAccess::NonSequential
            } else {
                MemoryAccess::Sequential
            },
        };
        assert(slot == block_slot(list@, base, pre, up, k as int));
        plan.push(slot);
        proof {
            lemma_offsets_add(block_start(base, count as int, pre, up), 4 * k, 4);
        }
        address = next_word(address);
        k = k + 1;
    }
    plan
}

/// The plan of a block transfer: the transfer of each listed register, in
/// ascending order of the register numbers.
pub open spec fn block_plan(view: CpuView, word: u32) -> Seq<BlockSlot> {
    Seq::new(
        listed_registers(word).len(),
        |k: int|
            block_slot(
                listed_registers(word),
                view.register(register_field(word, 16).number() as int),
                word_bit(word, 24),
                word_bit(word, 23),
                k,
            ),
    )
}

/// What a block store writes for the register at `position` in the list:
/// the register as the bank mode sees it, and for the program counter the
/// value one instruction further on.
pub open spec fn block_stored(view: CpuView, word: u32, position: int) -> u32 {
    let register = listed_registers(word)[position];
    if register == PC {
        wrapping_offset(view.pc(), 4)
    } else {
        read_register(view.registers, register as int, block_bank_mode(view, word))
    }
}

/// Whether `values` are the words of a block transfer, one for each listed
/// register: what the bus returned for a load, what the registers held for
/// a store.
pub open spec fn block_values_fit(view: CpuView, word: u32, values: Seq<u32>) -> bool {
    &&& values.len() == listed_registers(word).len()
    &&& !word_bit(word, 20) ==> forall|k: int|
        0 <= k < values.len() ==> #[trigger] values[k] == block_stored(view, word, k)
}

/// The data calls of a block transfer, one for each slot of the plan in the
/// plan's order: a word load that returned the slot's value, or a word
/// store of it, at the slot's bus address with the slot's timing class.
pub open spec fn block_calls(slots: Seq<BlockSlot>, load: bool, values: Seq<u32>) -> Seq<BusCall> {
    Seq::new(
        slots.len(),
        |k: int|
            if load {
                bus_load(4, slots[k].bus_address, slots[k].access, values[k])
            } else {
                bus_store(4, slots[k].bus_address, values[k], slots[k].access)
            },
    )
}

/// The calls of a block transfer: the data calls of the plan, and after
/// them those of a refill if the program counter was loaded.
pub open spec fn block_transfer_calls(
    view: CpuView,
    word: u32,
    values: Seq<u32>,
    pipeline: Seq<u32>,
) -> Seq<BusCall> {
    block_calls(block_plan(view, word), word_bit(word, 20), values) + settle_calls(
        block_outcome(view, word, values),
        block_flushes(word),
        pipeline,
    )
}

/// Block data transfer: loads or stores the listed registers, lowest
/// number at the lowest address, each word at its planned address aligned
/// to 4. The first access is non-sequential, the others sequential. A
/// store hands the bus each register's value as the bank mode sees it.
/// The bus gets one call for each listed register, in ascending order of
/// the register numbers, and, where the program counter is loaded, the two
/// fetches of the refill after them. The load of the program counter with
/// the S bit set is refused outside User mode, before anything is touched.
#[verifier::rlimit(80)]
pub fn execute_block_data_transfer<I: MemoryInterface>(
    cpu: &mut Arm7tdmiCpu<I>,
    instruction: &ArmInstruction,
) -> (action: Result<CpuAction, ExecutionError>)
    requires
        instruction@.kind == ArmInstructionKind::BlockDataTransfer,
    ensures
        block_is_unsupported(old(cpu)@, instruction@.word) ==> action == Err::<
            CpuAction,
            ExecutionError,
        >(ExecutionError::UnsupportedBlockTransfer) && final(cpu)@ == old(cpu)@ && final(cpu).bus()
            == old(cpu).bus(),
        !block_is_unsupported(old(cpu)@, instruction@.word) ==> action == Ok::<
            CpuAction,
            ExecutionError,
        >(
            if block_flushes(instruction@.word) {
                CpuAction::PipelineFlush
            } else {
                CpuAction::Advance(MemoryAccess::NonSequential)
            },
        ) && exists|values: Seq<u32>, refs: Seq<&mut I>, futures: Seq<I>|
            block_values_fit(old(cpu)@, instruction@.word, values) && final(cpu)@ == block_outcome(
                old(cpu)@,
                instruction@.word,
                values,
            ).settled(block_flushes(instruction@.word), final(cpu)@.pipeline) && #[trigger] traced(
                refs,
                futures,
                block_transfer_calls(old(cpu)@, instruction@.word, values, final(cpu)@.pipeline),
                old(cpu).bus(),
                final(cpu).bus(),
            ) && (forall|k: int|
                0 <= k < refs.len() ==> mut_ref_future(#[trigger] refs[k]) == futures[k]),
{
    let force_user = instruction.load_psr_force_user();
    let load = instruction.load();
    let loads_pc = load && instruction.lists_register(PC);
    let mode = cpu.mode();
    if force_user && loads_pc && !matches!(mode, CpuMode::User) {
        return Err(ExecutionError::UnsupportedBlockTransfer);
    }
    let bank_mode = if force_user {
        CpuMode::User
    } else {
        mode
    };
    let plan = plan_block_data_transfer(cpu, instruction);
    let count = plan.len();
    let rn = instruction.rn().index();
    let base = cpu.register(rn);
    let final_base = if instruction.add() {
        base.wrapping_add(4 * (count as u32))
    } else {
        base.wrapping_sub(4 * (count as u32))
    };
    let ghost before = cpu@;
    let ghost start = cpu.bus();
    let ghost word = instruction@.word;
    let ghost list = listed_registers(word);
    let ghost slots = block_plan(before, word);
    let ghost mut values: Seq<u32> = Seq::empty();
    let mut k: usize = 0;
    proof {
        assert(plan@ =~= slots);
        assert(block_writes(list.take(0), values) =~= Seq::<(int, u32)>::empty());
        lemma_traced_none(start);
        assert(block_calls(slots.take(0), load, values) =~= Seq::<BusCall>::empty());
    }
    while k < count
        invariant
            k <= count,
            count == plan.len(),
            count == list.len(),
            list == listed_registers(word),
            plan@ == slots,
            slots == block_plan(before, word),
            load == word_bit(word, 20),
            bank_mode == block_bank_mode(before, word),
            forall|i: int| 0 <= i < plan.len() ==> (#[trigger] plan[i]).register < 16,
            forall|i: int| 0 <= i < plan.len() ==> (#[trigger] plan[i]).register == list[i],
            values.len() == k,
            load ==> cpu@ == (CpuView {
                registers: write_registers(
                    before.registers,
                    bank_mode,
                    block_writes(list.take(k as int), values),
                ),
                ..before
            }),
            !load ==> cpu@ == before,
            !load ==> forall|i: int|
                0 <= i < k ==> #[trigger] values[i] == block_stored(before, word, i),
            exists|refs: Seq<&mut I>, futures: Seq<I>|
                #[trigger] traced(
                    refs,
                    futures,
                    block_calls(slots.take(k as int), load, values),
                    start,
                    cpu.bus(),
                ) && (forall|i: int|
                    0 <= i < refs.len() ==> mut_ref_future(#[trigger] refs[i]) == futures[i]),
        decreases count - k,
    {
        let register = plan[k].register;
        let address = plan[k].bus_address;
        let access = plan[k].access;
        let ghost earlier_calls = block_calls(slots.take(k as int), load, values);
        let ghost middle = cpu.bus();
        if load {
            let raw = cpu.read(4, address, access);
            cpu.set_register_in_mode(register, bank_mode, raw);
            proof {
                let earlier = block_writes(list.take(k as int), values);
                values = values.push(raw);
                let later = block_writes(list.take(k + 1), values);
                assert(later.drop_last() =~= earlier);
                assert(later.last() == (register as int, raw));
                lemma_traced_joined(
                    earlier_calls,
                    one_call(bus_load(4, address, access, raw)),
                    start,
                    middle,
                    cpu.bus(),
                );
                assert(earlier_calls + one_call(bus_load(4, address, access, raw))
                    =~= block_calls(slots.take(k + 1), load, values));
            }
        } else {
            let value = if register == PC {
                cpu.pc().wrapping_add(4)
            } else {
                cpu.register_in_mode(register, bank_mode)
            };
            cpu.write(4, address, value, access);
            proof {
                values = values.push(value);
                lemma_traced_joined(
                    earlier_calls,
                    one_call(bus_store(4, address, value, access)),
                    start,
                    middle,
                    cpu.bus(),
                );
                assert(earlier_calls + one_call(bus_store(4, address, value, access))
                    =~= block_calls(slots.take(k + 1), load, values));
            }
        }
        k = k + 1;
    }
    proof {
        assert(list.take(count as int) =~= list);
        assert(slots.take(count as int) =~= slots);
    }
    let ghost middle = cpu.bus();
    if instruction.write_back() {
        cpu.set_register(rn, final_base);
    }
    let ghost done = cpu@;
    assert(done == block_outcome(before, word, values));
    settle(cpu, loads_pc);
    proof {
        lemma_traced_joined(
            block_calls(slots, load, values),
            settle_calls(done, loads_pc, cpu@.pipeline),
            start,
            middle,
            cpu.bus(),
        );
        assert(block_values_fit(before, word, values));
        assert(block_transfer_calls(before, word, values, cpu@.pipeline) == block_calls(
            slots,
            load,
            values,
        ) + settle_calls(done, loads_pc, cpu@.pipeline));
    }
    if loads_pc {
        Ok(CpuAction::PipelineFlush)
    } else {
        Ok(CpuAction::Advance(MemoryAccess::NonSequential))
    }
}

} // verus!
