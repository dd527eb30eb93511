//! The processor core: register file, current and saved status registers
//! and the two-slot prefetch pipeline, driven one step at a time.

use crate::arm::execute::executed;
use crate::arm::lut::kind_of;
use crate::arm::{ArmInstruction, Instruction, InstructionView};
use crate::bitfield::{bit_is_set, with_bit};
use crate::bits::word_field;
use crate::memory::{
    bus_load, bus_store, lemma_traced_append, lemma_traced_joined, lemma_traced_none,
    lemma_traced_one, one_call, traced, BusCall, MemoryAccess, MemoryInterface,
};
use crate::opcodes::Exception;
use crate::psr::{
    flags_nibble, lemma_flags_of_nibble, lemma_mode_write, status_mode, status_state,
    with_status_flags, with_status_mode,
    ProgramStatusRegister, CARRY_BIT, FIQ_DISABLE_BIT, IRQ_DISABLE_BIT, LIVE_BITS, NEGATIVE_BIT,
    OVERFLOW_BIT, STATE_BIT, ZERO_BIT,
};
use crate::register_file::{
    bank_of, lemma_banked_registers_survive, read_register, well_shaped, write_register,
    write_registers, zeroed_arena, RegisterFile, LR, PC, SP,
};
use crate::types::{decoded_condition, Condition, CpuAction, CpuMode, CpuState, ExecutionError};
use vstd::pervasive::unreached;
use vstd::prelude::*;

verus! {

/// The state of the core as a mathematical value. The bus that the core is
/// attached to is no part of it: contracts speak of the bus through
/// `Arm7tdmiCpu::bus`.
pub struct CpuView {
    /// The register arena: sixteen rows of six copies.
    pub registers: Seq<Seq<u32>>,
    /// The current status word.
    pub cpsr: u32,
    /// The saved status words of Fiq, Irq, Supervisor, Abort and Undefined
    /// mode, in this order.
    pub spsrs: Seq<u32>,
    /// The two prefetched words: the next to execute, then the one after.
    pub pipeline: Seq<u32>,
    /// Timing class of the next instruction fetch.
    pub next_access: MemoryAccess,
}

/// Where the saved status word of a mode lies among the five.
pub open spec fn saved_status_index(mode: CpuMode) -> int {
    match mode {
        CpuMode::Fiq => 0,
        CpuMode::Irq => 1,
        CpuMode::Supervisor => 2,
        CpuMode::Abort => 3,
        CpuMode::Undefined => 4,
        _ => 0,
    }
}

/// A word plus an offset, wrapping round at 32 bits.
pub open spec fn wrapping_offset(word: u32, offset: int) -> u32 {
    ((word + offset) % 0x1_0000_0000) as u32
}

/// Two offsets applied one after the other are their sum applied once.
pub proof fn lemma_offsets_add(word: u32, first: int, second: int)
    ensures
        wrapping_offset(wrapping_offset(word, first), second) == wrapping_offset(
            word,
            first + second,
        ),
{
    vstd::arithmetic::div_mod::lemma_add_mod_noop(word + first, second, 0x1_0000_0000);
    vstd::arithmetic::div_mod::lemma_add_mod_noop(
        (word + first) % 0x1_0000_0000,
        second,
        0x1_0000_0000,
    );
    vstd::arithmetic::div_mod::lemma_mod_twice(word + first, 0x1_0000_0000);
}

/// The truth table of the condition codes over the four flags.
pub open spec fn condition_table(n: bool, z: bool, c: bool, v: bool, condition: Condition) -> bool {
    match condition {
        Condition::EQ => z,
        Condition::NE => !z,
        Condition::CS => c,
        Condition::CC => !c,
        Condition::MI => n,
        Condition::PL => !n,
        Condition::VS => v,
        Condition::VC => !v,
        Condition::HI => c && !z,
        Condition::LS => !c || z,
        Condition::GE => n == v,
        Condition::LT => n != v,
        Condition::GT => !z && n == v,
        Condition::LE => z || n != v,
        Condition::AL => true,
    }
}

/// Whether a condition holds under the flags of a status word.
pub open spec fn condition_holds(status: u32, condition: Condition) -> bool {
    condition_table(
        bit_is_set(status, NEGATIVE_BIT),
        bit_is_set(status, ZERO_BIT),
        bit_is_set(status, CARRY_BIT),
        bit_is_set(status, OVERFLOW_BIT),
        condition,
    )
}

/// Under a status word that got its flags from N, Z, C and V, every
/// condition code holds exactly as the truth table says of the four.
pub proof fn lemma_condition_table(
    status: u32,
    n: bool,
    z: bool,
    c: bool,
    v: bool,
    condition: Condition,
)
    ensures
        condition_holds(with_status_flags(status, flags_nibble(n, z, c, v)), condition)
            == condition_table(n, z, c, v, condition),
{
    lemma_flags_of_nibble(status, n, z, c, v);
}

impl CpuView {
    /// Whether the state is one that a core can be in: the arena has its
    /// shape, there are five saved status words and two pipeline slots, and
    /// every status word names a mode.
    pub open spec fn valid(self) -> bool {
        &&& well_shaped(self.registers)
        &&& self.spsrs.len() == 5
        &&& self.pipeline.len() == 2
        &&& status_mode(self.cpsr) is Some
        &&& forall|i: int| 0 <= i < 5 ==> status_mode(#[trigger] self.spsrs[i]) is Some
    }

    /// The current mode.
    pub open spec fn mode(self) -> CpuMode {
        status_mode(self.cpsr)->0
    }

    /// The current execution state.
    pub open spec fn state(self) -> CpuState {
        status_state(self.cpsr)
    }

    /// What the current mode reads from a register.
    pub open spec fn register(self, index: int) -> u32 {
        read_register(self.registers, index, self.mode())
    }

    /// The state after the current mode has written a register.
    pub open spec fn with_register(self, index: int, value: u32) -> CpuView {
        CpuView { registers: write_register(self.registers, index, self.mode(), value), ..self }
    }

    /// The program counter.
    pub open spec fn pc(self) -> u32 {
        self.register(PC as int)
    }

    /// The state with another program counter.
    pub open spec fn with_pc(self, value: u32) -> CpuView {
        self.with_register(PC as int, value)
    }

    /// The state with another current status word.
    pub open spec fn with_cpsr(self, status: u32) -> CpuView {
        CpuView { cpsr: status, ..self }
    }

    /// The state after a switch to another mode: the mode field is all
    /// that changes.
    pub open spec fn switched(self, mode: CpuMode) -> CpuView {
        self.with_cpsr(with_status_mode(self.cpsr, mode))
    }

    /// The state with other condition flags, given as a nibble.
    pub open spec fn with_flags(self, flags: u8) -> CpuView {
        self.with_cpsr(with_status_flags(self.cpsr, flags))
    }

    /// The saved status word of the current mode.
    pub open spec fn spsr(self) -> u32 {
        self.spsrs[saved_status_index(self.mode())]
    }

    /// The state with another saved status word for the current mode.
    pub open spec fn with_spsr(self, status: u32) -> CpuView {
        CpuView { spsrs: self.spsrs.update(saved_status_index(self.mode()), status), ..self }
    }

    /// The state after an exception has been entered, before the pipeline is
    /// refilled: the old status word is saved for the exception's mode,
    /// which becomes the current mode, in ARM state and with ordinary
    /// interrupts masked (fast ones too where the exception says so); the
    /// link register of the new mode holds the return address and the
    /// program counter the exception's vector.
    pub open spec fn entered(self, exception: Exception, return_address: u32) -> CpuView {
        let mode = exception.entry_mode();
        let switched = with_bit(
            with_bit(with_status_mode(self.cpsr, mode), STATE_BIT, false),
            IRQ_DISABLE_BIT,
            true,
        );
        let status = if exception.masks_fiq() {
            with_bit(switched, FIQ_DISABLE_BIT, true)
        } else {
            switched
        };
        (CpuView {
            cpsr: status,
            spsrs: self.spsrs.update(saved_status_index(mode), self.cpsr),
            ..self
        }).with_register(LR as int, return_address).with_pc(exception.vector_address())
    }

    /// The state with both pipeline slots and the fetch timing replaced.
    pub open spec fn with_pipeline(self, first: u32, second: u32, access: MemoryAccess) -> CpuView {
        CpuView { pipeline: seq![first, second], next_access: access, ..self }
    }

    /// The state after the pipeline has moved on by one slot and `fetched`
    /// has come in behind.
    pub open spec fn shifted(self, fetched: u32) -> CpuView {
        CpuView { pipeline: seq![self.pipeline[1], fetched], ..self }
    }

    /// The state after the program counter has moved on by one ARM
    /// instruction, with the timing class of the next fetch.
    pub open spec fn advanced(self, access: MemoryAccess) -> CpuView {
        CpuView { next_access: access, ..self.with_pc(wrapping_offset(self.pc(), 4)) }
    }

    /// The state once an instruction is done: refilled with the given
    /// pipeline words if the instruction flushed the pipeline, unchanged if
    /// it did not.
    pub open spec fn settled(self, flushed: bool, pipeline: Seq<u32>) -> CpuView {
        if flushed {
            self.refilled(pipeline[0], pipeline[1])
        } else {
            self
        }
    }

    /// The state after the pipeline has been refilled with the two words
    /// fetched at the program counter and behind it: the program counter
    /// stands two instructions further on, and the next fetch is
    /// sequential.
    pub open spec fn refilled(self, first: u32, second: u32) -> CpuView {
        let step: int = if self.state() == CpuState::Arm {
            4
        } else {
            2
        };
        self.with_pc(wrapping_offset(self.pc(), 2 * step)).with_pipeline(
            first,
            second,
            MemoryAccess::Sequential,
        )
    }
}

/// The one call by which an instruction is fetched: a load of 4 bytes in
/// ARM state and of 2 bytes in Thumb state.
pub open spec fn fetch_calls(
    state: CpuState,
    address: u32,
    access: MemoryAccess,
    value: u32,
) -> Seq<BusCall> {
    one_call(
        bus_load(
            if state == CpuState::Arm {
                4
            } else {
                2
            },
            address,
            access,
            value,
        ),
    )
}

/// The two calls of a refill of the pipeline from the state `view`: a
/// non-sequential fetch at the program counter that returned `first`, then
/// a sequential fetch one instruction further on that returned `second`.
pub open spec fn refill_calls(view: CpuView, first: u32, second: u32) -> Seq<BusCall> {
    fetch_calls(view.state(), view.pc(), MemoryAccess::NonSequential, first) + fetch_calls(
        view.state(),
        wrapping_offset(
            view.pc(),
            if view.state() == CpuState::Arm {
                4
            } else {
                2
            },
        ),
        MemoryAccess::Sequential,
        second,
    )
}

/// The calls by which an instruction settles: those of a refill from the
/// state `view` if it flushed the pipeline, and none if it did not.
pub open spec fn settle_calls(view: CpuView, flushed: bool, pipeline: Seq<u32>) -> Seq<BusCall> {
    if flushed {
        refill_calls(view, pipeline[0], pipeline[1])
    } else {
        Seq::empty()
    }
}

/// The address at which the next instruction is fetched: the program
/// counter aligned to the size of an instruction.
pub open spec fn fetch_address(view: CpuView) -> u32 {
    if view.state() == CpuState::Arm {
        (view.pc() - view.pc() % 4) as u32
    } else {
        (view.pc() - view.pc() % 2) as u32
    }
}

/// The calls of one step: in ARM state the prefetch, at the aligned
/// program counter with the pending timing class, and then the calls of
/// the instruction that ran; in Thumb state none.
pub open spec fn cycle_calls(view: CpuView, fetched: u32, rest: Seq<BusCall>) -> Seq<BusCall> {
    if view.state() == CpuState::Thumb {
        Seq::empty()
    } else {
        fetch_calls(view.state(), fetch_address(view), view.next_access, fetched) + rest
    }
}

/// Whether the instruction `word` passes its condition under the flags of
/// a status word. The reserved sixteenth code is passed by nothing.
pub open spec fn condition_passes(status: u32, word: u32) -> bool {
    match decoded_condition(word_field(word, 28, 31)) {
        Ok(condition) => condition_holds(status, condition),
        Err(_) => false,
    }
}

/// Whether running a decoded instruction takes the core from `started` to
/// `after` with the given result, where `done` is the state in which the
/// instruction's handler left the core and `calls` are the calls that went
/// to the bus.
///
/// An instruction that fails its condition still takes its slot: the
/// program counter advances and the next fetch is non-sequential. If it
/// passes, its handler runs; after it the program counter advances with
/// the timing class that the handler gave, or stays where a flush has put
/// it. An instruction that the handler refused is passed over like one
/// that failed its condition, and the refusal is the result.
pub open spec fn completed(
    started: CpuView,
    instruction: InstructionView,
    done: CpuView,
    after: CpuView,
    action: Result<CpuAction, ExecutionError>,
    calls: Seq<BusCall>,
) -> bool {
    if !condition_passes(started.cpsr, instruction.word) {
        after == started.advanced(MemoryAccess::NonSequential) && action == Ok::<
            CpuAction,
            ExecutionError,
        >(CpuAction::Advance(MemoryAccess::NonSequential)) && calls == Seq::<BusCall>::empty()
    } else {
        executed(started, instruction, done, action, calls) && after == (match action {
            Ok(CpuAction::Advance(access)) => done.advanced(access),
            Ok(CpuAction::PipelineFlush) => done,
            Err(_) => done.advanced(MemoryAccess::NonSequential),
        })
    }
}

/// Whether one step takes the core from `before` to `after` with the given
/// result, where `fetched` is the word that the bus returned for the
/// prefetch, `done` the state in which the instruction's handler left
/// the core, and `calls` the calls that the instruction made after the
/// prefetch.
///
/// In Thumb state a step only moves the program counter on by 2. In ARM
/// state the pipeline moves on by one slot, and the instruction that left
/// it is decoded and run.
pub open spec fn cycled(
    before: CpuView,
    fetched: u32,
    done: CpuView,
    after: CpuView,
    action: Result<CpuAction, ExecutionError>,
    calls: Seq<BusCall>,
) -> bool {
    if before.state() == CpuState::Thumb {
        after == before.with_pc(wrapping_offset(before.pc(), 2)) && action == Ok::<
            CpuAction,
            ExecutionError,
        >(CpuAction::Advance(MemoryAccess::Sequential)) && calls == Seq::<BusCall>::empty()
    } else {
        completed(
            before.shifted(fetched),
            InstructionView {
                kind: kind_of(before.pipeline[0]),
                word: before.pipeline[0],
                executed_pc: (before.pc() - before.pc() % 4) as u32,
            },
            done,
            after,
            action,
            calls,
        )
    }
}

/// The state of a core before its first fetch. The status registers hold
/// Supervisor mode in ARM state. Started behind the boot firmware
/// (`skip_bios`), the core is in System mode with interrupts enabled, the
/// stack pointers of the User, Supervisor and Irq banks and the link
/// register point where the firmware would have left them, and the program
/// counter is at the start of the cartridge; started at reset, it is in
/// Supervisor mode with ordinary interrupts masked and every register
/// zero.
pub open spec fn reset_state(skip_bios: bool) -> CpuView {
    let status = with_status_mode(0x13u32 & LIVE_BITS, CpuMode::Supervisor);
    let base = CpuView {
        registers: zeroed_arena(),
        cpsr: status,
        spsrs: Seq::new(5, |i: int| status),
        pipeline: seq![0u32, 0u32],
        next_access: MemoryAccess::NonSequential,
    };
    if skip_bios {
        CpuView {
            registers: write_register(
                write_register(
                    write_register(
                        write_register(
                            write_register(
                                zeroed_arena(),
                                SP as int,
                                CpuMode::User,
                                0x0300_7F00,
                            ),
                            LR as int,
                            CpuMode::User,
                            0x0800_0000,
                        ),
                        PC as int,
                        CpuMode::User,
                        0x0800_0000,
                    ),
                    SP as int,
                    CpuMode::Supervisor,
                    0x0300_7FE0,
                ),
                SP as int,
                CpuMode::Irq,
                0x0300_7FA0,
            ),
            cpsr: with_bit(with_status_mode(status, CpuMode::System), IRQ_DISABLE_BIT, false),
            ..base
        }
    } else {
        base.with_cpsr(
            with_bit(with_status_mode(status, CpuMode::Supervisor), IRQ_DISABLE_BIT, true),
        )
    }
}

/// Writing a register and reading it back in the same mode gives what was
/// written; a second write to the same register replaces the first; writes
/// to two different registers can be made in either order.
#[verifier::rlimit(40)]
pub proof fn lemma_register_writes(view: CpuView, index: int, first: u32, second: u32, other: int)
    requires
        well_shaped(view.registers),
        0 <= index < 16,
        0 <= other < 16,
    ensures
        well_shaped(view.with_register(index, first).registers),
        view.with_register(index, first).register(index) == first,
        other != index ==> view.with_register(index, first).register(other) == view.register(other),
        view.with_register(index, first).with_register(index, second) == view.with_register(
            index,
            second,
        ),
        other != index ==> view.with_register(index, first).with_register(other, second)
            == view.with_register(other, second).with_register(index, first),
{
    crate::register_file::lemma_write_then_read(
        view.registers,
        index,
        view.mode(),
        first,
        other,
        view.mode(),
    );
    crate::register_file::lemma_write_then_read(
        view.registers,
        index,
        view.mode(),
        first,
        index,
        view.mode(),
    );
    crate::register_file::lemma_bank_in_range(index, view.mode());
    crate::register_file::lemma_bank_in_range(other, view.mode());
    assert(view.with_register(index, first).with_register(index, second).registers
        =~~= view.with_register(index, second).registers);
    if other != index {
        assert(view.with_register(index, first).with_register(other, second).registers
            =~~= view.with_register(other, second).with_register(index, first).registers);
    }
}

/// Mode banking. A core that switches to another mode, writes registers
/// there, however many and however often, and switches back finds each
/// register of which the two modes see different copies as it left it, and
/// its status word as it was. From User mode into Fiq mode and back, that
/// is R8 to R14.
pub proof fn lemma_mode_round_trip(
    view: CpuView,
    mode: CpuMode,
    writes: Seq<(int, u32)>,
    register: int,
)
    requires
        view.valid(),
        forall|i: int| 0 <= i < writes.len() ==> 0 <= (#[trigger] writes[i]).0 < 16,
        0 <= register < 16,
        bank_of(register, mode) != bank_of(register, view.mode()),
    ensures
        view.switched(mode).mode() == mode,
        (CpuView {
            registers: write_registers(view.registers, mode, writes),
            ..view.switched(mode)
        }).switched(view.mode()).register(register) == view.register(register),
        (CpuView {
            registers: write_registers(view.registers, mode, writes),
            ..view.switched(mode)
        }).switched(view.mode()).cpsr == view.cpsr,
{
    lemma_mode_write(view.cpsr, mode, view.mode());
    lemma_mode_write(view.cpsr, view.mode(), view.mode());
    lemma_banked_registers_survive(view.registers, mode, writes, register, view.mode());
}

/// The condition evaluator: whether `condition` holds under the flags of a
/// status register.
pub fn condition_met(status: ProgramStatusRegister, condition: Condition) -> (met: bool)
    ensures
        met == condition_holds(status@, condition),
{
    match condition {
        Condition::EQ => status.zero(),
        Condition::NE => !status.zero(),
        Condition::CS => status.carry(),
        Condition::CC => !status.carry(),
        Condition::MI => status.negative(),
        Condition::PL => !status.negative(),
        Condition::VS => status.overflow(),
        Condition::VC => !status.overflow(),
        Condition::HI => status.carry() && !status.zero(),
        Condition::LS => !status.carry() || status.zero(),
        Condition::GE => status.negative() == status.overflow(),
        Condition::LT => status.negative() != status.overflow(),
        Condition::GT => {
            !status.zero() && (status.negative() == status.overflow())
        },
        Condition::LE => {
            status.zero() || (status.negative() != status.overflow())
        },
        Condition::AL => true,
    }
}

/// The current status register and the five saved ones. Each of them names
/// a mode at all times.
struct StatusRegisters {
    current: ProgramStatusRegister,
    saved: [ProgramStatusRegister; 5],
}

impl StatusRegisters {
    #[verifier::type_invariant]
    spec fn status_words_name_modes(self) -> bool {
        &&& status_mode(self.current@) is Some
        &&& forall|i: int| 0 <= i < 5 ==> status_mode(#[trigger] self.saved[i]@) is Some
    }

    spec fn saved_words(self) -> Seq<u32> {
        Seq::new(5, |i: int| self.saved[i]@)
    }

    fn new(status: ProgramStatusRegister) -> (r: Self)
        requires
            status_mode(status@) is Some,
        ensures
            r.current@ == status@,
            r.saved_words() == Seq::new(5, |i: int| status@),
    {
        let r = StatusRegisters { current: status, saved: [status; 5] };
        proof {
            assert(r.saved_words() =~= Seq::new(5, |i: int| status@));
        }
        r
    }

    fn current(&self) -> (status: ProgramStatusRegister)
        ensures
            status == self.current,
            status_mode(status@) is Some,
            forall|i: int| 0 <= i < 5 ==> status_mode(#[trigger] self.saved_words()[i]) is Some,
    {
        proof {
            use_type_invariant(self);
        }
        self.current
    }

    fn set_current(&mut self, status: ProgramStatusRegister)
        requires
            status_mode(status@) is Some,
        ensures
            final(self).current == status,
            final(self).saved == old(self).saved,
    {
        proof {
            use_type_invariant(&*self);
        }
        self.current = status;
    }

    fn saved(&self, index: usize) -> (status: ProgramStatusRegister)
        requires
            index < 5,
        ensures
            status == self.saved[index as int],
            status_mode(status@) is Some,
    {
        proof {
            use_type_invariant(self);
        }
        self.saved[index]
    }

    fn set_saved(&mut self, index: usize, status: ProgramStatusRegister)
        requires
            index < 5,
            status_mode(status@) is Some,
        ensures
            final(self).current == old(self).current,
            final(self).saved_words() == old(self).saved_words().update(index as int, status@),
    {
        proof {
            use_type_invariant(&*self);
        }
        self.saved[index] = status;
        proof {
            assert(self.saved_words() =~= old(self).saved_words().update(index as int, status@));
        }
    }
}

/// The core under its short name.
pub type Cpu<I> = Arm7tdmiCpu<I>;

/// The core, generic in the bus it is attached to.
pub struct Arm7tdmiCpu<I: MemoryInterface> {
    registers: RegisterFile,
    status: StatusRegisters,
    instruction_pipeline: [u32; 2],
    bus: I,
    next_memory_access: MemoryAccess,
}

impl<I: MemoryInterface> View for Arm7tdmiCpu<I> {
    type V = CpuView;

    closed spec fn view(&self) -> CpuView {
        CpuView {
            registers: self.registers@,
            cpsr: self.status.current@,
            spsrs: self.status.saved_words(),
            pipeline: self.instruction_pipeline@,
            next_access: self.next_memory_access,
        }
    }
}

/// The core is a bus to whoever holds it: every call goes through to the
/// core's own bus, and the core's state stays as it is.
impl<I: MemoryInterface> MemoryInterface for Arm7tdmiCpu<I> {
    /// Hands the read to the core's own bus: the value is one that the
    /// bus's own `load_8` returns for this address and timing class, and
    /// the bus changes as that call changes it.
    fn load_8(&mut self, address: u32, access: MemoryAccess) -> (value: u8)
        ensures
            final(self)@ == old(self)@,
            exists|bus: &mut I|
                mut_ref_current(bus) == old(self).bus()
                    && mut_ref_future(bus) == final(self).bus()
                    && #[trigger] call_ensures(I::load_8, (bus, address, access), value),
    {
        self.bus.load_8(address, access)
    }

    /// Hands the read to the core's own bus: the value is one that the
    /// bus's own `load_16` returns for this address and timing class, and
    /// the bus changes as that call changes it.
    fn load_16(&mut self, address: u32, access: MemoryAccess) -> (value: u16)
        ensures
            final(self)@ == old(self)@,
            exists|bus: &mut I|
                mut_ref_current(bus) == old(self).bus()
                    && mut_ref_future(bus) == final(self).bus()
                    && #[trigger] call_ensures(I::load_16, (bus, address, access), value),
    {
        self.bus.load_16(address, access)
    }

    /// Hands the read to the core's own bus: the value is one that the
    /// bus's own `load_32` returns for this address and timing class, and
    /// the bus changes as that call changes it.
    fn load_32(&mut self, address: u32, access: MemoryAccess) -> (value: u32)
        ensures
            final(self)@ == old(self)@,
            exists|bus: &mut I|
                mut_ref_current(bus) == old(self).bus()
                    && mut_ref_future(bus) == final(self).bus()
                    && #[trigger] call_ensures(I::load_32, (bus, address, access), value),
    {
        self.bus.load_32(address, access)
    }

    /// Hands the write to the core's own bus: the bus changes as its own
    /// `store_8` changes it for this address, value and timing class.
    fn store_8(&mut self, address: u32, value: u8, access: MemoryAccess)
        ensures
            final(self)@ == old(self)@,
            exists|bus: &mut I|
                mut_ref_current(bus) == old(self).bus()
                    && mut_ref_future(bus) == final(self).bus()
                    && #[trigger] call_ensures(I::store_8, (bus, address, value, access), ()),
    {
        self.bus.store_8(address, value, access);
    }

    /// Hands the write to the core's own bus: the bus changes as its own
    /// `store_16` changes it for this address, value and timing class.
    fn store_16(&mut self, address: u32, value: u16, access: MemoryAccess)
        ensures
            final(self)@ == old(self)@,
            exists|bus: &mut I|
                mut_ref_current(bus) == old(self).bus()
                    && mut_ref_future(bus) == final(self).bus()
                    && #[trigger] call_ensures(I::store_16, (bus, address, value, access), ()),
    {
        self.bus.store_16(address, value, access);
    }

    /// Hands the write to the core's own bus: the bus changes as its own
    /// `store_32` changes it for this address, value and timing class.
    fn store_32(&mut self, address: u32, value: u32, access: MemoryAccess)
        ensures
            final(self)@ == old(self)@,
            exists|bus: &mut I|
                mut_ref_current(bus) == old(self).bus()
                    && mut_ref_future(bus) == final(self).bus()
                    && #[trigger] call_ensures(I::store_32, (bus, address, value, access), ()),
    {
        self.bus.store_32(address, value, access);
    }
}

impl<I: MemoryInterface> Arm7tdmiCpu<I> {
    /// The bus that the core is attached to.
    pub closed spec fn bus(&self) -> I {
        self.bus
    }

    /// A core attached to `bus`, in its state after reset or, with
    /// `skip_bios`, in the state in which the boot firmware hands over;
    /// the pipeline is filled from the bus.
    #[verifier::rlimit(40)]
    pub fn new(bus: I, skip_bios: bool) -> (cpu: Self)
        ensures
            cpu@ == reset_state(skip_bios).refilled(cpu@.pipeline[0], cpu@.pipeline[1]),
            exists|refs: Seq<&mut I>, futures: Seq<I>|
                #[trigger] traced(
                    refs,
                    futures,
                    refill_calls(reset_state(skip_bios), cpu@.pipeline[0], cpu@.pipeline[1]),
                    bus,
                    cpu.bus(),
                ) && (forall|k: int|
                    0 <= k < refs.len() ==> mut_ref_future(#[trigger] refs[k]) == futures[k]),
    {
        let mut status = ProgramStatusRegister::from_bits(0x13);
        status.set_mode(CpuMode::Supervisor);
        let mut cpu = Arm7tdmiCpu {
            registers: RegisterFile::new(),
            status: StatusRegisters::new(status),
            instruction_pipeline: [0; 2],
            bus,
            next_memory_access: MemoryAccess::NonSequential,
        };
        proof {
            assert(cpu@.pipeline =~= seq![0u32, 0u32]);
        }
        match skip_bios {
            true => {
                cpu.registers.write(SP, CpuMode::User, 0x0300_7F00);
                cpu.registers.write(LR, CpuMode::User, 0x0800_0000);
                cpu.registers.write(PC, CpuMode::User, 0x0800_0000);
                cpu.registers.write(SP, CpuMode::Supervisor, 0x0300_7FE0);
                cpu.registers.write(SP, CpuMode::Irq, 0x0300_7FA0);
                cpu.change_mode(CpuMode::System);
                cpu.set_irq_disable(false);
            },
            false => {
                cpu.change_mode(CpuMode::Supervisor);
                cpu.set_irq_disable(true);
            },
        }
        cpu.refill_pipeline();
        cpu
    }

    /// Where and how the next prefetch goes to the bus: at the program
    /// counter aligned to the size of an instruction, with the pending
    /// timing class.
    pub fn next_fetch(&self) -> (plan: (u32, MemoryAccess))
        ensures
            plan.0 == (if self@.state() == CpuState::Arm {
                self@.pc() - self@.pc() % 4
            } else {
                self@.pc() - self@.pc() % 2
            }),
            plan.1 == self@.next_access,
    {
        let pc = self.pc();
        match self.cpu_state() {
            CpuState::Arm => (pc - pc % 4, self.next_memory_access),
            CpuState::Thumb => (pc - pc % 2, self.next_memory_access),
        }
    }

    /// Reads 1, 2 or 4 bytes through the bus, with the load of that width.
    /// The bus gets this one call; the core's own state stays as it is.
    pub fn read(&mut self, size: u32, address: u32, access: MemoryAccess) -> (value: u32)
        requires
            size == 1 || size == 2 || size == 4,
        ensures
            final(self)@ == old(self)@,
            size == 1 ==> value <= 0xFF,
            size == 2 ==> value <= 0xFFFF,
            exists|refs: Seq<&mut I>, futures: Seq<I>|
                #[trigger] traced(
                    refs,
                    futures,
                    one_call(bus_load(size, address, access, value)),
                    old(self).bus(),
                    final(self).bus(),
                ) && (forall|k: int|
                    0 <= k < refs.len() ==> mut_ref_future(#[trigger] refs[k]) == futures[k]),
    {
        let ghost start = self.bus;
        if size == 1 {
            let raw = self.bus.load_8(address, access);
            let ghost bus = choose|bus: &mut I|
                mut_ref_current(bus) == start && mut_ref_future(bus) == self.bus
                    && #[trigger] call_ensures(I::load_8, (bus, address, access), raw);
            let value = raw as u32;
            proof {
                lemma_traced_one(bus, bus_load(1, address, access, value), start, self.bus);
                assert(traced(
                    seq![bus],
                    seq![self.bus],
                    one_call(bus_load(size, address, access, value)),
                    old(self).bus(),
                    self.bus(),
                ));
            }
            value
        } else if size == 2 {
            let raw = self.bus.load_16(address, access);
            let ghost bus = choose|bus: &mut I|
                mut_ref_current(bus) == start && mut_ref_future(bus) == self.bus
                    && #[trigger] call_ensures(I::load_16, (bus, address, access), raw);
            let value = raw as u32;
            proof {
                lemma_traced_one(bus, bus_load(2, address, access, value), start, self.bus);
                assert(traced(
                    seq![bus],
                    seq![self.bus],
                    one_call(bus_load(size, address, access, value)),
                    old(self).bus(),
                    self.bus(),
                ));
            }
            value
        } else {
            let raw = self.bus.load_32(address, access);
            let ghost bus = choose|bus: &mut I|
                mut_ref_current(bus) == start && mut_ref_future(bus) == self.bus
                    && #[trigger] call_ensures(I::load_32, (bus, address, access), raw);
            let value = raw;
            proof {
                lemma_traced_one(bus, bus_load(4, address, access, value), start, self.bus);
                assert(traced(
                    seq![bus],
                    seq![self.bus],
                    one_call(bus_load(size, address, access, value)),
                    old(self).bus(),
                    self.bus(),
                ));
            }
            value
        }
    }

    /// Writes the 1, 2 or 4 low bytes of `value` through the bus, with the
    /// store of that width. The bus gets this one call; the core's own
    /// state stays as it is.
    pub fn write(&mut self, size: u32, address: u32, value: u32, access: MemoryAccess)
        requires
            size == 1 || size == 2 || size == 4,
            size == 1 ==> value <= 0xFF,
            size == 2 ==> value <= 0xFFFF,
        ensures
            final(self)@ == old(self)@,
            exists|refs: Seq<&mut I>, futures: Seq<I>|
                #[trigger] traced(
                    refs,
                    futures,
                    one_call(bus_store(size, address, value, access)),
                    old(self).bus(),
                    final(self).bus(),
                ) && (forall|k: int|
                    0 <= k < refs.len() ==> mut_ref_future(#[trigger] refs[k]) == futures[k]),
    {
        let ghost start = self.bus;
        if size == 1 {
            self.bus.store_8(address, value as u8, access);
            let ghost bus = choose|bus: &mut I|
                mut_ref_current(bus) == start && mut_ref_future(bus) == self.bus
                    && #[trigger] call_ensures(I::store_8, (bus, address, value as u8, access), ());
            proof {
                lemma_traced_one(bus, bus_store(1, address, value, access), start, self.bus);
                assert(traced(
                    seq![bus],
                    seq![self.bus],
                    one_call(bus_store(size, address, value, access)),
                    old(self).bus(),
                    self.bus(),
                ));
            }
        } else if size == 2 {
            self.bus.store_16(address, value as u16, access);
            let ghost bus = choose|bus: &mut I|
                mut_ref_current(bus) == start && mut_ref_future(bus) == self.bus
                    && #[trigger] call_ensures(
                    I::store_16,
                    (bus, address, value as u16, access),
                    (),
                );
            proof {
                lemma_traced_one(bus, bus_store(2, address, value, access), start, self.bus);
                assert(traced(
                    seq![bus],
                    seq![self.bus],
                    one_call(bus_store(size, address, value, access)),
                    old(self).bus(),
                    self.bus(),
                ));
            }
        } else {
            self.bus.store_32(address, value, access);
            let ghost bus = choose|bus: &mut I|
                mut_ref_current(bus) == start && mut_ref_future(bus) == self.bus
                    && #[trigger] call_ensures(I::store_32, (bus, address, value, access), ());
            proof {
                lemma_traced_one(bus, bus_store(4, address, value, access), start, self.bus);
                assert(traced(
                    seq![bus],
                    seq![self.bus],
                    one_call(bus_store(size, address, value, access)),
                    old(self).bus(),
                    self.bus(),
                ));
            }
        }
    }

    /// Moves the pipeline on by one slot and fetches behind it, at the
    /// program counter aligned to the size of an instruction and with the
    /// pending timing class. Returns the word that left the pipeline: the
    /// instruction to run now. The new second slot holds what the bus
    /// returned.
    pub fn fetch(&mut self) -> (word: u32)
        ensures
            word == old(self)@.pipeline[0],
            final(self)@ == old(self)@.shifted(final(self)@.pipeline[1]),
            exists|refs: Seq<&mut I>, futures: Seq<I>|
                #[trigger] traced(
                    refs,
                    futures,
                    fetch_calls(
                        old(self)@.state(),
                        fetch_address(old(self)@),
                        old(self)@.next_access,
                        final(self)@.pipeline[1],
                    ),
                    old(self).bus(),
                    final(self).bus(),
                ) && (forall|k: int|
                    0 <= k < refs.len() ==> mut_ref_future(#[trigger] refs[k]) == futures[k]),
    {
        let (address, access) = self.next_fetch();
        let word = self.instruction_pipeline[0];
        self.instruction_pipeline[0] = self.instruction_pipeline[1];
        let size: u32 = match self.cpu_state() {
            CpuState::Arm => 4,
            CpuState::Thumb => 2,
        };
        let ghost before = self.bus();
        let fetched = self.read(size, address, access);
        let ghost after = self.bus();
        self.instruction_pipeline[1] = fetched;
        proof {
            assert(old(self).bus() == before && self.bus() == after);
            assert(self@.pipeline =~= old(self)@.shifted(fetched).pipeline);
            assert(fetch_calls(
                old(self)@.state(),
                fetch_address(old(self)@),
                old(self)@.next_access,
                self@.pipeline[1],
            ) == one_call(bus_load(size, address, access, fetched)));
        }
        word
    }

    /// Decodes an instruction word of the 32-bit instruction set and notes
    /// the program counter, aligned to 4, with it.
    pub fn decode(&self, word: u32) -> (instruction: ArmInstruction)
        ensures
            instruction@ == (InstructionView {
                kind: kind_of(word),
                word,
                executed_pc: (self@.pc() - self@.pc() % 4) as u32,
            }),
    {
        let pc = self.pc();
        ArmInstruction::decode(word, pc - pc % 4)
    }

    /// Runs a decoded instruction if it passes its condition, and moves the
    /// program counter on unless the instruction has flushed the pipeline.
    /// The bus gets the calls of the instruction's handler and no others.
    #[verifier::rlimit(40)]
    pub fn execute(&mut self, instruction: &ArmInstruction) -> (action: Result<
        CpuAction,
        ExecutionError,
    >)
        ensures
            exists|done: CpuView, calls: Seq<BusCall>, refs: Seq<&mut I>, futures: Seq<I>|
                #[trigger] completed(old(self)@, instruction@, done, final(self)@, action, calls)
                    && #[trigger] traced(refs, futures, calls, old(self).bus(), final(self).bus())
                    && (forall|k: int|
                    0 <= k < refs.len() ==> mut_ref_future(#[trigger] refs[k]) == futures[k]),
    {
        let ghost before = self@;
        let ghost start = self.bus;
        let passes = match instruction.cond() {
            Ok(condition) => self.is_condition_met(condition),
            Err(_) => false,
        };
        if !passes {
            self.advance_pc_arm();
            self.next_memory_access = MemoryAccess::NonSequential;
            let action = Ok(CpuAction::Advance(MemoryAccess::NonSequential));
            proof {
                lemma_traced_none(start);
                assert(completed(before, instruction@, self@, self@, action, Seq::empty()));
                assert(traced(
                    Seq::<&mut I>::empty(),
                    Seq::<I>::empty(),
                    Seq::<BusCall>::empty(),
                    old(self).bus(),
                    self.bus(),
                ));
            }
            return action;
        }
        let action = instruction.execute(self);
        let ghost done = self@;
        let ghost end = self.bus;
        let ghost (calls, refs, futures) = choose|
            calls: Seq<BusCall>,
            refs: Seq<&mut I>,
            futures: Seq<I>,
        |
            executed(before, instruction@, done, action, calls) && #[trigger] traced(
                refs,
                futures,
                calls,
                start,
                end,
            ) && (forall|k: int|
                0 <= k < refs.len() ==> mut_ref_future(#[trigger] refs[k]) == futures[k]);
        match action {
            Ok(CpuAction::Advance(access)) => {
                self.advance_pc_arm();
                self.next_memory_access = access;
            },
            Ok(CpuAction::PipelineFlush) => {},
            Err(_) => {
                self.advance_pc_arm();
                self.next_memory_access = MemoryAccess::NonSequential;
            },
        }
        proof {
            assert(completed(before, instruction@, done, self@, action, calls));
            assert(traced(refs, futures, calls, old(self).bus(), self.bus()));
        }
        action
    }

    /// One step, with the instruction that was decoded in it. In ARM
    /// state: fetch, decode, execute. In Thumb state: the program counter
    /// moves on by one instruction, and nothing is decoded.
    #[verifier::rlimit(40)]
    pub fn step(&mut self) -> (done: (Option<ArmInstruction>, Result<CpuAction, ExecutionError>))
        ensures
            match done.0 {
                Some(instruction) => old(self)@.state() == CpuState::Arm && instruction@ == (
                InstructionView {
                    kind: kind_of(old(self)@.pipeline[0]),
                    word: old(self)@.pipeline[0],
                    executed_pc: (old(self)@.pc() - old(self)@.pc() % 4) as u32,
                }),
                None => old(self)@.state() == CpuState::Thumb,
            },
            exists|
                fetched: u32,
                state: CpuView,
                calls: Seq<BusCall>,
                refs: Seq<&mut I>,
                futures: Seq<I>,
            |
                #[trigger] cycled(old(self)@, fetched, state, final(self)@, done.1, calls)
                    && #[trigger] traced(
                    refs,
                    futures,
                    cycle_calls(old(self)@, fetched, calls),
                    old(self).bus(),
                    final(self).bus(),
                ) && (forall|k: int|
                    0 <= k < refs.len() ==> mut_ref_future(#[trigger] refs[k]) == futures[k]),
    {
        let ghost before = self@;
        let ghost start = self.bus;
        match self.cpu_state() {
            CpuState::Arm => {
                let word = self.fetch();
                let ghost fetched = self@.pipeline[1];
                let ghost started = self@;
                let ghost middle = self.bus;
                let ghost first = fetch_calls(
                    before.state(),
                    fetch_address(before),
                    before.next_access,
                    fetched,
                );
                let ghost (refs1, futures1) = choose|refs: Seq<&mut I>, futures: Seq<I>|
                    #[trigger] traced(refs, futures, first, start, middle) && (forall|k: int|
                        0 <= k < refs.len() ==> mut_ref_future(#[trigger] refs[k]) == futures[k]);
                let instruction = self.decode(word);
                let action = self.execute(&instruction);
                let ghost end = self.bus;
                let ghost (state, calls, refs2, futures2) = choose|
                    state: CpuView,
                    calls: Seq<BusCall>,
                    refs: Seq<&mut I>,
                    futures: Seq<I>,
                |
                    #[trigger] completed(started, instruction@, state, self@, action, calls)
                        && #[trigger] traced(refs, futures, calls, middle, end) && (forall|k: int|
                        0 <= k < refs.len() ==> mut_ref_future(#[trigger] refs[k]) == futures[k]);
                proof {
                    lemma_traced_append(
                        refs1,
                        futures1,
                        first,
                        refs2,
                        futures2,
                        calls,
                        start,
                        middle,
                        end,
                    );
                    assert(cycled(before, fetched, state, self@, action, calls));
                    assert(first + calls == cycle_calls(before, fetched, calls));
                    assert(traced(
                        refs1 + refs2,
                        futures1 + futures2,
                        cycle_calls(before, fetched, calls),
                        old(self).bus(),
                        self.bus(),
                    ));
                }
                let done = (Some(instruction), action);
                assert(done.1 == action);
                done
            },
            CpuState::Thumb => {
                self.advance_pc_thumb();
                let action = Ok(CpuAction::Advance(MemoryAccess::Sequential));
                proof {
                    lemma_traced_none(start);
                    assert(cycled(before, 0, self@, self@, action, Seq::empty()));
                    assert(traced(
                        Seq::<&mut I>::empty(),
                        Seq::<I>::empty(),
                        cycle_calls(before, 0, Seq::empty()),
                        old(self).bus(),
                        self.bus(),
                    ));
                }
                let done = (None, action);
                assert(done.1 == action);
                done
            },
        }
    }

    /// One step. In ARM state: fetch, decode, execute. In Thumb state: the
    /// program counter moves on by one instruction.
    pub fn cycle(&mut self) -> (action: Result<CpuAction, ExecutionError>)
        ensures
            exists|
                fetched: u32,
                state: CpuView,
                calls: Seq<BusCall>,
                refs: Seq<&mut I>,
                futures: Seq<I>,
            |
                #[trigger] cycled(old(self)@, fetched, state, final(self)@, action, calls)
                    && #[trigger] traced(
                    refs,
                    futures,
                    cycle_calls(old(self)@, fetched, calls),
                    old(self).bus(),
                    final(self).bus(),
                ) && (forall|k: int|
                    0 <= k < refs.len() ==> mut_ref_future(#[trigger] refs[k]) == futures[k]),
    {
        self.step().1
    }

    /// Masks or unmasks ordinary interrupts.
    pub fn set_irq_disable(&mut self, status: bool)
        ensures
            final(self).bus() == old(self).bus(),
            final(self)@ == old(self)@.with_cpsr(
                with_bit(old(self)@.cpsr, IRQ_DISABLE_BIT, status),
            ),
            final(self)@.mode() == old(self)@.mode(),
    {
        let mut current = self.status.current();
        current.set_irq_disable(status);
        self.status.set_current(current);
    }

    /// The current mode.
    pub fn mode(&self) -> (mode: CpuMode)
        ensures
            self@.valid(),
            mode == self@.mode(),
    {
        proof {
            self.registers.lemma_shape();
        }
        match self.status.current().mode() {
            Ok(mode) => mode,
            Err(_) => unreached(),
        }
    }

    /// The current execution state.
    pub fn cpu_state(&self) -> (state: CpuState)
        ensures
            state == self@.state(),
    {
        self.status.current().state()
    }

    /// The current status register.
    pub fn cpsr(&self) -> (status: ProgramStatusRegister)
        ensures
            status@ == self@.cpsr,
            status_mode(status@) is Some,
    {
        self.status.current()
    }

    /// The current status word.
    pub fn status_register(&self) -> (status: u32)
        ensures
            status == self@.cpsr,
    {
        self.status.current().get()
    }

    /// Replaces the current status register, mode field included; the
    /// registers that the new mode banks come into view with it.
    pub fn set_cpsr(&mut self, status: ProgramStatusRegister)
        requires
            status_mode(status@) is Some,
        ensures
            final(self).bus() == old(self).bus(),
            final(self)@ == old(self)@.with_cpsr(status@),
    {
        self.status.set_current(status);
    }

    fn saved_index(mode: CpuMode) -> (index: usize)
        ensures
            index == saved_status_index(mode),
            index < 5,
    {
        match mode {
            CpuMode::Fiq => 0,
            CpuMode::Irq => 1,
            CpuMode::Supervisor => 2,
            CpuMode::Abort => 3,
            CpuMode::Undefined => 4,
            _ => 0,
        }
    }

    /// The saved status register of the current mode. User and System mode
    /// have none.
    pub fn spsr(&self) -> (status: ProgramStatusRegister)
        requires
            self@.mode().has_saved_status(),
        ensures
            status@ == self@.spsr(),
            status_mode(status@) is Some,
    {
        let index = Self::saved_index(self.mode());
        self.status.saved(index)
    }

    /// Replaces the saved status register of the current mode. User and
    /// System mode have none.
    pub fn set_spsr(&mut self, status: ProgramStatusRegister)
        requires
            old(self)@.mode().has_saved_status(),
            status_mode(status@) is Some,
        ensures
            final(self).bus() == old(self).bus(),
            final(self)@ == old(self)@.with_spsr(status@),
    {
        let index = Self::saved_index(self.mode());
        self.status.set_saved(index, status);
    }

    /// Switches to another mode. The mode field is all that changes: the
    /// banked registers of the new mode are in view from the same moment.
    pub fn change_mode(&mut self, mode: CpuMode)
        ensures
            final(self).bus() == old(self).bus(),
            final(self)@ == old(self)@.switched(mode),
            final(self)@.mode() == mode,
    {
        let mut status = self.status.current();
        status.set_mode(mode);
        self.status.set_current(status);
    }

    /// Sets the execution state.
    pub fn set_cpu_state(&mut self, state: CpuState)
        ensures
            final(self).bus() == old(self).bus(),
            final(self)@ == old(self)@.with_cpsr(
                with_bit(old(self)@.cpsr, STATE_BIT, state == CpuState::Thumb),
            ),
            final(self)@.state() == state,
            final(self)@.mode() == old(self)@.mode(),
    {
        let mut status = self.status.current();
        status.set_state(state);
        self.status.set_current(status);
    }

    /// Writes the four condition flags from the low nibble of `flags`: N,
    /// Z, C, V from bit 3 down.
    pub fn set_flags(&mut self, flags: u8)
        ensures
            final(self).bus() == old(self).bus(),
            final(self)@ == old(self)@.with_flags(flags),
            final(self)@.mode() == old(self)@.mode(),
    {
        let mut status = self.status.current();
        status.set_flags(flags);
        self.status.set_current(status);
    }

    /// What the current mode reads from the register `index`.
    pub fn register(&self, index: usize) -> (value: u32)
        requires
            index < 16,
        ensures
            value == self@.register(index as int),
    {
        let mode = self.mode();
        self.registers.read(index, mode)
    }

    /// What the current mode reads from the register `index`.
    pub fn get_general_register(&self, index: usize) -> (value: u32)
        requires
            index < 16,
        ensures
            value == self@.register(index as int),
    {
        self.register(index)
    }

    /// Writes the register `index` as the current mode sees it.
    pub fn set_register(&mut self, index: usize, value: u32)
        requires
            index < 16,
        ensures
            final(self).bus() == old(self).bus(),
            final(self)@ == old(self)@.with_register(index as int, value),
    {
        let mode = self.mode();
        self.registers.write(index, mode, value);
    }

    /// What `mode` reads from the register `index`, whatever the current
    /// mode is.
    pub fn register_in_mode(&self, index: usize, mode: CpuMode) -> (value: u32)
        requires
            index < 16,
        ensures
            value == read_register(self@.registers, index as int, mode),
    {
        self.registers.read(index, mode)
    }

    /// Writes the register `index` as `mode` sees it, whatever the current
    /// mode is.
    pub fn set_register_in_mode(&mut self, index: usize, mode: CpuMode, value: u32)
        requires
            index < 16,
        ensures
            final(self).bus() == old(self).bus(),
            final(self)@ == (CpuView {
                registers: write_register(old(self)@.registers, index as int, mode, value),
                ..old(self)@
            }),
    {
        self.registers.write(index, mode, value);
    }

    /// Enters an exception: saves the status register for the exception's
    /// mode, switches to that mode in ARM state with interrupts masked,
    /// leaves `return_address` in the link register of the new mode and
    /// sets the program counter to the exception's vector. The pipeline is
    /// left as it is.
    pub fn enter_exception(&mut self, exception: Exception, return_address: u32)
        ensures
            final(self).bus() == old(self).bus(),
            final(self)@ == old(self)@.entered(exception, return_address),
    {
        let saved = self.cpsr();
        self.change_mode(exception.mode());
        self.set_spsr(saved);
        let mut status = self.cpsr();
        status.set_state(CpuState::Arm);
        status.set_irq_disable(true);
        if exception.disables_fiq() {
            status.set_fiq_disable(true);
        }
        self.set_cpsr(status);
        self.set_register(LR, return_address);
        self.set_pc(exception.vector());
    }

    /// The program counter: two instructions ahead of the one in execution.
    pub fn pc(&self) -> (value: u32)
        ensures
            value == self@.pc(),
    {
        self.register(PC)
    }

    /// Writes the program counter. The pipeline is left as it is.
    pub fn set_pc(&mut self, value: u32)
        ensures
            final(self).bus() == old(self).bus(),
            final(self)@ == old(self)@.with_pc(value),
    {
        self.set_register(PC, value);
    }

    /// Moves the program counter on by one Thumb instruction.
    pub fn advance_pc_thumb(&mut self)
        ensures
            final(self).bus() == old(self).bus(),
            final(self)@ == old(self)@.with_pc(wrapping_offset(old(self)@.pc(), 2)),
    {
        let pc = self.pc();
        self.set_pc(pc.wrapping_add(2));
    }

    /// Moves the program counter on by one ARM instruction.
    pub fn advance_pc_arm(&mut self)
        ensures
            final(self).bus() == old(self).bus(),
            final(self)@ == old(self)@.with_pc(wrapping_offset(old(self)@.pc(), 4)),
    {
        let pc = self.pc();
        self.set_pc(pc.wrapping_add(4));
    }

    /// Whether `condition` holds under the current flags.
    pub fn is_condition_met(&self, condition: Condition) -> (met: bool)
        ensures
            met == condition_holds(self@.cpsr, condition),
    {
        condition_met(self.cpsr(), condition)
    }

    /// Where and how a refill of the pipeline goes to the bus: first at the
    /// program counter, non-sequential, then one instruction further on,
    /// sequential.
    pub fn refill_plan(&self) -> (plan: ((u32, MemoryAccess), (u32, MemoryAccess)))
        ensures
            plan.0 == (self@.pc(), MemoryAccess::NonSequential),
            plan.1 == (
                wrapping_offset(
                    self@.pc(),
                    if self@.state() == CpuState::Arm {
                        4
                    } else {
                        2
                    },
                ),
                MemoryAccess::Sequential,
            ),
    {
        let pc = self.pc();
        let next = match self.cpu_state() {
            CpuState::Arm => pc.wrapping_add(4),
            CpuState::Thumb => pc.wrapping_add(2),
        };
        ((pc, MemoryAccess::NonSequential), (next, MemoryAccess::Sequential))
    }

    /// Fills both pipeline slots from the bus, starting at the program
    /// counter: the first fetch is non-sequential, the second sequential.
    /// The program counter ends two instructions further on. The slots hold
    /// what the bus returned, and the bus got these two calls and no
    /// others.
    #[verifier::rlimit(40)]
    pub fn refill_pipeline(&mut self)
        ensures
            final(self)@ == old(self)@.refilled(final(self)@.pipeline[0], final(self)@.pipeline[1]),
            exists|refs: Seq<&mut I>, futures: Seq<I>|
                #[trigger] traced(
                    refs,
                    futures,
                    refill_calls(
                        old(self)@,
                        final(self)@.pipeline[0],
                        final(self)@.pipeline[1],
                    ),
                    old(self).bus(),
                    final(self).bus(),
                ) && (forall|k: int|
                    0 <= k < refs.len() ==> mut_ref_future(#[trigger] refs[k]) == futures[k]),
    {
        let plan = self.refill_plan();
        let state = self.cpu_state();
        let ghost before = self@;
        let ghost start = self.bus;
        let size: u32 = match state {
            CpuState::Arm => 4,
            CpuState::Thumb => 2,
        };
        let first = self.read(size, plan.0.0, plan.0.1);
        let ghost middle = self.bus();
        self.instruction_pipeline[0] = first;
        match state {
            CpuState::Arm => self.advance_pc_arm(),
            CpuState::Thumb => self.advance_pc_thumb(),
        }
        assert(self.bus() == middle);
        let second = self.read(size, plan.1.0, plan.1.1);
        let ghost end = self.bus();
        self.instruction_pipeline[1] = second;
        match state {
            CpuState::Arm => self.advance_pc_arm(),
            CpuState::Thumb => self.advance_pc_thumb(),
        }
        self.next_memory_access = MemoryAccess::Sequential;
        proof {
            let step: int = if before.state() == CpuState::Arm {
                4
            } else {
                2
            };
            old(self).registers.lemma_shape();
            let once = wrapping_offset(before.pc(), step);
            lemma_register_writes(before, PC as int, once, wrapping_offset(once, step), 0);
            assert(wrapping_offset(once, step) == wrapping_offset(before.pc(), 2 * step));
            assert(self@.pipeline =~= seq![self@.pipeline[0], self@.pipeline[1]]);
            let calls1 = one_call(bus_load(size, plan.0.0, plan.0.1, first));
            let calls2 = one_call(bus_load(size, plan.1.0, plan.1.1, second));
            assert(old(self).bus() == start && self.bus() == end);
            lemma_traced_joined(calls1, calls2, start, middle, end);
            assert(refill_calls(old(self)@, self@.pipeline[0], self@.pipeline[1]) == calls1
                + calls2);
        }
    }

    /// Discards the prefetched instructions and fetches anew from the
    /// program counter.
    pub fn pipeline_flush(&mut self)
        ensures
            final(self)@ == old(self)@.refilled(final(self)@.pipeline[0], final(self)@.pipeline[1]),
            exists|refs: Seq<&mut I>, futures: Seq<I>|
                #[trigger] traced(
                    refs,
                    futures,
                    refill_calls(
                        old(self)@,
                        final(self)@.pipeline[0],
                        final(self)@.pipeline[1],
                    ),
                    old(self).bus(),
                    final(self).bus(),
                ) && (forall|k: int|
                    0 <= k < refs.len() ==> mut_ref_future(#[trigger] refs[k]) == futures[k]),
    {
        self.refill_pipeline();
    }
}

} // verus!
