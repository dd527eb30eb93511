//! The 32-bit instruction set: the kinds of instruction, and a decoded
//! instruction with the accessors of its fields.

use crate::barrel_shifter::{ShiftBy, ShiftType};
use crate::bits::{
    bits_of, field, flag, from_word, lemma_field_bits, word_bit, word_bits, word_field, word_of,
    BitWord,
};
use crate::cpu::Arm7tdmiCpu;
use crate::memory::{traced, BusCall, MemoryInterface};
use crate::opcodes::DataProcessingOpcode;
use crate::types::{
    decoded_condition, register_numbered, Condition, CpuAction, ExecutionError, Register,
    ReservedCondition,
};
use vstd::prelude::*;

pub mod execute;
pub mod lut;
pub mod transfer;

verus! {

/// The kinds of instruction of the 32-bit instruction set.
#[derive(Debug, Copy, Clone, PartialEq, Eq, Structural)]
pub enum ArmInstructionKind {
    DataProcessing,
    PsrTransfer,
    Multiply,
    MultiplyLong,
    SingleDataSwap,
    BranchAndExchange,
    HalfwordAndSignedDataTransfer,
    SingleDataTransfer,
    Undefined,
    BlockDataTransfer,
    BranchAndBranchWithLink,
    SoftwareInterrupt,
}

/// A decoded instruction as a mathematical value.
pub struct InstructionView {
    /// The kind that the instruction was tagged with.
    pub kind: ArmInstructionKind,
    /// The raw instruction word.
    pub word: u32,
    /// The value of the program counter when the instruction was decoded.
    pub executed_pc: u32,
}

/// The register that a 4-bit field of an instruction word names.
pub open spec fn register_field(word: u32, lo: u32) -> Register {
    register_numbered(word_field(word, lo, (lo + 3) as u32))
}

/// The numbers of the registers that a 16-bit register list names, in
/// ascending order.
pub open spec fn listed_registers(word: u32) -> Seq<usize> {
    listed_below(word, 16)
}

/// The numbers below `limit` of the registers that a register list names,
/// in ascending order.
pub open spec fn listed_below(word: u32, limit: int) -> Seq<usize> {
    all_registers().take(limit).filter(|i: usize| word_bit(word, i as u32))
}

/// A register list names each register at most once and in ascending
/// order, names only registers whose bit is set, and names every one of
/// them.
#[verifier::rlimit(40)]
pub proof fn lemma_listed_registers(word: u32, limit: int)
    requires
        0 <= limit <= 16,
    ensures
        listed_below(word, limit).len() <= limit,
        forall|k: int|
            0 <= k < listed_below(word, limit).len() ==> (#[trigger] listed_below(word, limit)[k])
                < limit && word_bit(word, listed_below(word, limit)[k] as u32),
        forall|a: int, b: int|
            0 <= a < b < listed_below(word, limit).len() ==> (#[trigger] listed_below(
                word,
                limit,
            )[a]) < (#[trigger] listed_below(word, limit)[b]),
        forall|i: usize|
            i < limit && word_bit(word, i as u32) ==> listed_below(word, limit).contains(i),
    decreases limit,
{
    if limit == 0 {
        assert(all_registers().take(0) =~= Seq::<usize>::empty());
        reveal(Seq::filter);
    } else {
        lemma_listed_registers(word, limit - 1);
        let before = all_registers().take(limit - 1);
        let last = (limit - 1) as usize;
        assert(all_registers().take(limit) =~= before.push(last));
        filter_push(before, last, |i: usize| word_bit(word, i as u32));
        let shorter = listed_below(word, limit - 1);
        let longer = listed_below(word, limit);
        assert forall|i: usize| i < limit && word_bit(word, i as u32) implies longer.contains(
            i,
        ) by {
            if i == last {
                assert(longer[longer.len() - 1] == last);
            } else {
                assert(shorter.contains(i));
                let k = choose|k: int| 0 <= k < shorter.len() && shorter[k] == i;
                assert(longer[k] == i);
            }
        }
    }
}

/// The numbers 0 to 15 in ascending order.
pub open spec fn all_registers() -> Seq<usize> {
    Seq::new(16, |i: int| i as usize)
}

/// A decoded instruction: a kind, the raw word and the program counter at
/// which it was decoded. It is never changed once made.
#[derive(Debug, PartialEq, Eq)]
pub struct ArmInstruction {
    kind: ArmInstructionKind,
    bits: BitWord,
    executed_pc: u32,
}

impl View for ArmInstruction {
    type V = InstructionView;

    closed spec fn view(&self) -> InstructionView {
        InstructionView { kind: self.kind, word: word_of(self.bits), executed_pc: self.executed_pc }
    }
}

impl Clone for ArmInstruction {
    /// A copy with the same kind, word and program counter.
    fn clone(&self) -> (copy: Self)
        ensures
            copy@ == self@,
    {
        ArmInstruction::new(self.kind, self.value(), self.executed_pc)
    }
}

/// A kind of instruction with its own raw form.
pub trait Instruction: Sized {
    /// The raw form: a 32-bit or a 16-bit word.
    type Size;

    /// Decodes the raw instruction found when the program counter stood at
    /// `address`.
    fn decode(value: Self::Size, address: u32) -> Self;

    /// The raw instruction.
    fn value(&self) -> Self::Size;
}

impl Instruction for ArmInstruction {
    type Size = u32;

    /// Classifies the word and tags it with its kind.
    fn decode(value: u32, address: u32) -> (instruction: Self)
        ensures
            instruction@ == (InstructionView {
                kind: lut::kind_of(value),
                word: value,
                executed_pc: address,
            }),
    {
        ArmInstruction::new(lut::classify(value), value, address)
    }

    /// The raw instruction word.
    fn value(&self) -> (word: u32)
        ensures
            word == self@.word,
    {
        proof {
            use_type_invariant(self);
            let word = self@.word;
            assert(word_field(word, 0, 31) == word) by (bit_vector);
        }
        field(&self.bits, 0, 31)
    }
}

impl ArmInstruction {
    #[verifier::type_invariant]
    spec fn holds_a_word(self) -> bool {
        bits_of(self.bits) == word_bits(word_of(self.bits))
    }

    /// An instruction of the given kind and word.
    pub fn new(kind: ArmInstructionKind, instruction: u32, executed_pc: u32) -> (r: ArmInstruction)
        ensures
            r@ == (InstructionView { kind, word: instruction, executed_pc }),
    {
        ArmInstruction { kind, bits: from_word(instruction), executed_pc }
    }

    /// The kind that the instruction was tagged with.
    pub fn kind(&self) -> (kind: ArmInstructionKind)
        ensures
            kind == self@.kind,
    {
        self.kind
    }

    /// The value of the program counter when the instruction was decoded.
    pub fn executed_pc(&self) -> (pc: u32)
        ensures
            pc == self@.executed_pc,
    {
        self.executed_pc
    }

    fn bits(&self, lo: usize, hi: usize) -> (value: u32)
        requires
            lo <= hi < 32,
        ensures
            value == word_field(self@.word, lo as u32, hi as u32),
            hi - lo == 1 ==> value < 4,
            hi - lo == 3 ==> value < 16,
            hi - lo == 4 ==> value < 32,
            hi - lo == 7 ==> value < 0x100,
            hi - lo == 11 ==> value < 0x1000,
            hi - lo == 23 ==> value < 0x100_0000,
    {
        proof {
            use_type_invariant(self);
            lemma_field_bits(self@.word, lo as u32, hi as u32, 0);
        }
        field(&self.bits, lo, hi)
    }

    fn bit(&self, index: usize) -> (bit: bool)
        requires
            index < 32,
        ensures
            bit == word_bit(self@.word, index as u32),
    {
        proof {
            use_type_invariant(self);
        }
        flag(&self.bits, index)
    }

    fn register_at(&self, lo: usize) -> (register: Register)
        requires
            lo <= 28,
        ensures
            register == register_field(self@.word, lo as u32),
    {
        Register::from_bits(self.bits(lo, lo + 3))
    }

    /// The condition under which the instruction runs (bits 31-28), or
    /// `ReservedCondition` for the sixteenth encoding.
    pub fn cond(&self) -> (condition: Result<Condition, ReservedCondition>)
        ensures
            condition == decoded_condition(word_field(self@.word, 28, 31)),
    {
        Condition::from_bits(self.bits(28, 31))
    }

    /// The first operand or base register: bits 3-0 in a branch and
    /// exchange, bits 15-12 in a multiply, bits 19-16 elsewhere.
    pub fn rn(&self) -> (r: Register)
        requires
            self@.kind == ArmInstructionKind::BranchAndExchange
                || self@.kind == ArmInstructionKind::DataProcessing
                || self@.kind == ArmInstructionKind::SingleDataTransfer
                || self@.kind == ArmInstructionKind::HalfwordAndSignedDataTransfer
                || self@.kind == ArmInstructionKind::BlockDataTransfer
                || self@.kind == ArmInstructionKind::SingleDataSwap
                || self@.kind == ArmInstructionKind::Multiply,
        ensures
            r == if self@.kind == ArmInstructionKind::BranchAndExchange {
                register_field(self@.word, 0)
            } else if self@.kind == ArmInstructionKind::Multiply {
                register_field(self@.word, 12)
            } else {
                register_field(self@.word, 16)
            },
    {
        match self.kind {
            ArmInstructionKind::BranchAndExchange => self.register_at(0),
            ArmInstructionKind::Multiply => self.register_at(12),
            _ => self.register_at(16),
        }
    }

    /// The destination register: bits 19-16 in a multiply, bits 15-12
    /// elsewhere.
    pub fn rd(&self) -> (r: Register)
        requires
            self@.kind == ArmInstructionKind::PsrTransfer
                || self@.kind == ArmInstructionKind::DataProcessing
                || self@.kind == ArmInstructionKind::SingleDataTransfer
                || self@.kind == ArmInstructionKind::HalfwordAndSignedDataTransfer
                || self@.kind == ArmInstructionKind::SingleDataSwap
                || self@.kind == ArmInstructionKind::Multiply,
        ensures
            r == if self@.kind == ArmInstructionKind::Multiply {
                register_field(self@.word, 16)
            } else {
                register_field(self@.word, 12)
            },
    {
        match self.kind {
            ArmInstructionKind::Multiply => self.register_at(16),
            _ => self.register_at(12),
        }
    }

    /// The register for the upper half of a long product (bits 19-16).
    pub fn rd_hi(&self) -> (r: Register)
        ensures
            r == register_field(self@.word, 16),
    {
        self.register_at(16)
    }

    /// The register for the lower half of a long product (bits 15-12).
    pub fn rd_lo(&self) -> (r: Register)
        ensures
            r == register_field(self@.word, 12),
    {
        self.register_at(12)
    }

    /// The second operand or offset register (bits 3-0).
    pub fn rm(&self) -> (r: Register)
        requires
            self@.kind == ArmInstructionKind::PsrTransfer
                || self@.kind == ArmInstructionKind::DataProcessing
                || self@.kind == ArmInstructionKind::Multiply
                || self@.kind == ArmInstructionKind::MultiplyLong
                || self@.kind == ArmInstructionKind::SingleDataTransfer
                || self@.kind == ArmInstructionKind::HalfwordAndSignedDataTransfer
                || self@.kind == ArmInstructionKind::SingleDataSwap,
        ensures
            r == register_field(self@.word, 0),
    {
        self.register_at(0)
    }

    /// The register that holds a shift amount or a multiplier (bits
    /// 11-8).
    pub fn rs(&self) -> (r: Register)
        requires
            self@.kind == ArmInstructionKind::DataProcessing
                || self@.kind == ArmInstructionKind::Multiply
                || self@.kind == ArmInstructionKind::MultiplyLong
                || self@.kind == ArmInstructionKind::SingleDataTransfer,
        ensures
            r == register_field(self@.word, 8),
    {
        self.register_at(8)
    }

    /// Whether a branch saves the return address (bit 24).
    pub fn link(&self) -> (r: bool)
        ensures
            r == word_bit(self@.word, 24),
    {
        self.bit(24)
    }

    /// The 24-bit word offset of a branch (bits 23-0), as it stands in the
    /// instruction: neither sign-extended nor scaled.
    pub fn offset(&self) -> (r: u32)
        requires
            self@.kind == ArmInstructionKind::BranchAndBranchWithLink,
        ensures
            r == word_field(self@.word, 0, 23),
            r < 0x100_0000,
    {
        self.bits(0, 23)
    }

    /// Whether the second operand or the offset is an immediate value: bit
    /// 25 set in data processing and status-register transfers, bit 25
    /// clear in a single data transfer, bit 22 set in a halfword transfer.
    pub fn is_immediate(&self) -> (r: bool)
        requires
            self@.kind == ArmInstructionKind::PsrTransfer
                || self@.kind == ArmInstructionKind::DataProcessing
                || self@.kind == ArmInstructionKind::SingleDataTransfer
                || self@.kind == ArmInstructionKind::HalfwordAndSignedDataTransfer,
        ensures
            r == if self@.kind == ArmInstructionKind::SingleDataTransfer {
                !word_bit(self@.word, 25)
            } else if self@.kind == ArmInstructionKind::HalfwordAndSignedDataTransfer {
                word_bit(self@.word, 22)
            } else {
                word_bit(self@.word, 25)
            },
    {
        match self.kind {
            ArmInstructionKind::SingleDataTransfer => !self.bit(25),
            ArmInstructionKind::HalfwordAndSignedDataTransfer => self.bit(22),
            _ => self.bit(25),
        }
    }

    /// The data-processing operation (bits 24-21).
    pub fn opcode(&self) -> (r: DataProcessingOpcode)
        ensures
            r == DataProcessingOpcode::with_code(word_field(self@.word, 21, 24)),
            r.code() == word_field(self@.word, 21, 24),
    {
        DataProcessingOpcode::from_bits(self.bits(21, 24))
    }

    /// Whether the instruction writes the condition flags (bit 20).
    pub fn sets_flags(&self) -> (r: bool)
        requires
            self@.kind == ArmInstructionKind::DataProcessing
                || self@.kind == ArmInstructionKind::Multiply
                || self@.kind == ArmInstructionKind::MultiplyLong,
        ensures
            r == word_bit(self@.word, 20),
    {
        self.bit(20)
    }

    /// Where the shift amount of a register operand comes from: a register
    /// if bit 4 is set, the instruction word if not.
    pub fn shift_by(&self) -> (r: ShiftBy)
        ensures
            r == if word_bit(self@.word, 4) {
                ShiftBy::Register
            } else {
                ShiftBy::Immediate
            },
    {
        match self.bit(4) {
            true => ShiftBy::Register,
            false => ShiftBy::Immediate,
        }
    }

    /// The immediate shift amount (bits 11-7).
    pub fn shift_amount(&self) -> (r: u32)
        ensures
            r == word_field(self@.word, 7, 11),
            r < 32,
    {
        self.bits(7, 11)
    }

    /// The kind of shift applied to a register operand (bits 6-5).
    pub fn shift_type(&self) -> (r: ShiftType)
        ensures
            r == ShiftType::with_code(word_field(self@.word, 5, 6)),
            r.code() == word_field(self@.word, 5, 6),
    {
        ShiftType::from_bits(self.bits(5, 6))
    }

    /// The rotation field of an immediate operand (bits 11-8): half the
    /// number of places by which the immediate is rotated right.
    pub fn rotate(&self) -> (r: u32)
        requires
            self@.kind == ArmInstructionKind::PsrTransfer
                || self@.kind == ArmInstructionKind::DataProcessing,
        ensures
            r == word_field(self@.word, 8, 11),
            r < 16,
    {
        self.bits(8, 11)
    }

    /// The immediate value: bits 7-0 in data processing and
    /// status-register transfers, bits 11-0 in a single data transfer.
    pub fn immediate(&self) -> (r: u32)
        requires
            self@.kind == ArmInstructionKind::PsrTransfer
                || self@.kind == ArmInstructionKind::DataProcessing
                || self@.kind == ArmInstructionKind::SingleDataTransfer,
        ensures
            r == if self@.kind == ArmInstructionKind::SingleDataTransfer {
                word_field(self@.word, 0, 11)
            } else {
                word_field(self@.word, 0, 7)
            },
            r < 0x1000,
    {
        match self.kind {
            ArmInstructionKind::SingleDataTransfer => self.bits(0, 11),
            _ => self.bits(0, 7),
        }
    }

    /// The upper nibble of a halfword transfer's immediate offset (bits
    /// 11-8).
    pub fn immediate_hi(&self) -> (r: u32)
        ensures
            r == word_field(self@.word, 8, 11),
            r < 16,
    {
        self.bits(8, 11)
    }

    /// The lower nibble of a halfword transfer's immediate offset (bits
    /// 3-0).
    pub fn immediate_lo(&self) -> (r: u32)
        ensures
            r == word_field(self@.word, 0, 3),
            r < 16,
    {
        self.bits(0, 3)
    }

    /// Whether a status-register transfer names the saved register (bit
    /// 22).
    pub fn is_spsr(&self) -> (r: bool)
        ensures
            r == word_bit(self@.word, 22),
    {
        self.bit(22)
    }

    /// Whether a multiply adds to its product (bit 21).
    pub fn accumulate(&self) -> (r: bool)
        requires
            self@.kind == ArmInstructionKind::Multiply
                || self@.kind == ArmInstructionKind::MultiplyLong,
        ensures
            r == word_bit(self@.word, 21),
    {
        self.bit(21)
    }

    /// Bit 22 of the word, the U bit of a long multiply. Set, it asks for
    /// the product of the operands read as signed numbers.
    pub fn unsigned(&self) -> (r: bool)
        ensures
            r == word_bit(self@.word, 22),
    {
        self.bit(22)
    }

    /// Whether the offset is applied before the transfer (bit 24).
    pub fn pre_index(&self) -> (r: bool)
        requires
            self@.kind == ArmInstructionKind::SingleDataTransfer
                || self@.kind == ArmInstructionKind::HalfwordAndSignedDataTransfer
                || self@.kind == ArmInstructionKind::BlockDataTransfer,
        ensures
            r == word_bit(self@.word, 24),
    {
        self.bit(24)
    }

    /// Whether the offset is added to the base, not subtracted (bit 23).
    pub fn add(&self) -> (r: bool)
        requires
            self@.kind == ArmInstructionKind::SingleDataTransfer
                || self@.kind == ArmInstructionKind::HalfwordAndSignedDataTransfer
                || self@.kind == ArmInstructionKind::BlockDataTransfer,
        ensures
            r == word_bit(self@.word, 23),
    {
        self.bit(23)
    }

    /// Whether a byte is transferred, not a word (bit 22).
    pub fn byte(&self) -> (r: bool)
        requires
            self@.kind == ArmInstructionKind::SingleDataTransfer
                || self@.kind == ArmInstructionKind::SingleDataSwap,
        ensures
            r == word_bit(self@.word, 22),
    {
        self.bit(22)
    }

    /// Whether the final address is written to the base register (bit
    /// 21).
    pub fn write_back(&self) -> (r: bool)
        requires
            self@.kind == ArmInstructionKind::SingleDataTransfer
                || self@.kind == ArmInstructionKind::HalfwordAndSignedDataTransfer
                || self@.kind == ArmInstructionKind::BlockDataTransfer,
        ensures
            r == word_bit(self@.word, 21),
    {
        self.bit(21)
    }

    /// Whether the transfer is a load, not a store (bit 20).
    pub fn load(&self) -> (r: bool)
        requires
            self@.kind == ArmInstructionKind::SingleDataTransfer
                || self@.kind == ArmInstructionKind::HalfwordAndSignedDataTransfer
                || self@.kind == ArmInstructionKind::BlockDataTransfer,
        ensures
            r == word_bit(self@.word, 20),
    {
        self.bit(20)
    }

    /// Whether a halfword transfer extends the sign (bit 6).
    pub fn signed(&self) -> (r: bool)
        ensures
            r == word_bit(self@.word, 6),
    {
        self.bit(6)
    }

    /// Whether a halfword transfer moves a halfword, not a byte (bit 5).
    pub fn halfword(&self) -> (r: bool)
        ensures
            r == word_bit(self@.word, 5),
    {
        self.bit(5)
    }

    /// Whether a block transfer has the S bit (bit 22): load the status
    /// register or force the user bank.
    pub fn load_psr_force_user(&self) -> (r: bool)
        ensures
            r == word_bit(self@.word, 22),
    {
        self.bit(22)
    }

    /// The numbers of the registers named by the register list (bits
    /// 15-0), in ascending order.
    #[verifier::rlimit(40)]
    pub fn register_list(&self) -> (list: Vec<usize>)
        ensures
            list@ == listed_registers(self@.word),
            list.len() <= 16,
            forall|k: int| 0 <= k < list.len() ==> (#[trigger] list[k]) < 16,
    {
        let mut list: Vec<usize> = Vec::new();
        let mut i: usize = 0;
        proof {
            assert(all_registers().take(0) =~= Seq::<usize>::empty());
        }
        while i < 16
            invariant
                i <= 16,
                list@ == listed_below(self@.word, i as int),
            decreases 16 - i,
        {
            let set = self.bit(i);
            proof {
                let before = all_registers().take(i as int);
                assert(all_registers().take(i + 1) =~= before.push(i));
                filter_push(before, i, |i: usize| word_bit(self@.word, i as u32));
            }
            if set {
                list.push(i);
            }
            i = i + 1;
        }
        proof {
            lemma_listed_registers(self@.word, 16);
        }
        list
    }

    /// Whether a status-register transfer writes the status register (bit
    /// 21), rather than reads it.
    pub fn writes_status(&self) -> (r: bool)
        ensures
            r == word_bit(self@.word, 21),
    {
        self.bit(21)
    }

    /// Whether a status-register write replaces the flags (bit 19).
    pub fn writes_flag_field(&self) -> (r: bool)
        ensures
            r == word_bit(self@.word, 19),
    {
        self.bit(19)
    }

    /// Whether a status-register write replaces the control bits (bit 16).
    pub fn writes_control_field(&self) -> (r: bool)
        ensures
            r == word_bit(self@.word, 16),
    {
        self.bit(16)
    }

    /// Whether the register list of a block transfer names the register
    /// `index`.
    pub fn lists_register(&self, index: usize) -> (r: bool)
        requires
            index < 16,
        ensures
            r == word_bit(self@.word, index as u32),
    {
        self.bit(index)
    }

    /// Runs the instruction through the handler of its kind.
    pub fn execute<I: MemoryInterface>(&self, cpu: &mut Arm7tdmiCpu<I>) -> (action: Result<
        CpuAction,
        ExecutionError,
    >)
        ensures
            exists|calls: Seq<BusCall>, refs: Seq<&mut I>, futures: Seq<I>|
                execute::executed(old(cpu)@, self@, final(cpu)@, action, calls)
                    && #[trigger] traced(refs, futures, calls, old(cpu).bus(), final(cpu).bus())
                    && (forall|k: int|
                    0 <= k < refs.len() ==> mut_ref_future(#[trigger] refs[k]) == futures[k]),
    {
        execute::execute(cpu, self)
    }

    /// The comment field of a software interrupt (bits 23-0).
    pub fn comment(&self) -> (r: u32)
        ensures
            r == word_field(self@.word, 0, 23),
            r < 0x100_0000,
    {
        self.bits(0, 23)
    }
}

/// Filtering a sequence with one more element at its end filters what came
/// before and then takes or leaves the new element.
proof fn filter_push(s: Seq<usize>, x: usize, pred: spec_fn(usize) -> bool)
    ensures
        s.push(x).filter(pred) == (if pred(x) {
            s.filter(pred).push(x)
        } else {
            s.filter(pred)
        }),
{
    reveal(Seq::filter);
    assert(s.push(x).drop_last() =~= s);
}

} // verus!
